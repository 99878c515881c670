use vstd::prelude::*;

use crate::tiers::{ascending, scan_met, thresholds_ascending, tiers_met};

verus! {

/// The counters and flags a user enters.
pub struct Values {
    /// Messages sent in the general chat.
    pub general_messages: i64,
    /// Valid messages sent in the counting channel.
    pub counting_messages: i64,
    /// Quacks collected.
    pub quacks: i64,
    /// Whether the user has access to the secret area.
    pub secret_area_access: bool,
    /// Roles moved between the negacy and the legacy currencies.
    pub negacies_converted: i64,
    /// `true`: the conversion went from negacy into legacy roles;
    /// `false`: from legacy into negacy roles.
    pub negacies_converted_direction: bool,
    /// Negacy roles earned.
    pub negacies_earned: i64,
}

/// A counter with negative values raised to zero.
pub open spec fn clamped(n: i64) -> i64 {
    if n < 0 {
        0
    } else {
        n
    }
}

impl Values {
    /// Every counter is at least zero.
    pub open spec fn counters_clamped(self) -> bool {
        &&& self.general_messages >= 0
        &&& self.counting_messages >= 0
        &&& self.quacks >= 0
        &&& self.negacies_converted >= 0
        &&& self.negacies_earned >= 0
    }

    /// What the conversion adds to the legacy level (and takes from the
    /// negacy level).
    pub open spec fn legacy_conversion(self) -> int {
        if self.negacies_converted_direction {
            self.negacies_converted as int
        } else {
            -(self.negacies_converted as int)
        }
    }

    /// Input as a session starts: every counter zero, every flag false.
    pub open spec fn new_spec() -> Self {
        Values {
            general_messages: 0,
            counting_messages: 0,
            quacks: 0,
            secret_area_access: false,
            negacies_converted: 0,
            negacies_converted_direction: false,
            negacies_earned: 0,
        }
    }

    /// Input as a session starts: every counter zero, every flag false.
    pub fn new() -> (r: Self)
        ensures
            r == Self::new_spec(),
    {
        Values {
            general_messages: 0,
            counting_messages: 0,
            quacks: 0,
            secret_area_access: false,
            negacies_converted: 0,
            negacies_converted_direction: false,
            negacies_earned: 0,
        }
    }

    /// Raises every negative counter to zero; flags stay as they are.
    pub fn clamp_counters(&mut self)
        ensures
            final(self).general_messages == clamped(old(self).general_messages),
            final(self).counting_messages == clamped(old(self).counting_messages),
            final(self).quacks == clamped(old(self).quacks),
            final(self).negacies_converted == clamped(old(self).negacies_converted),
            final(self).negacies_earned == clamped(old(self).negacies_earned),
            final(self).secret_area_access == old(self).secret_area_access,
            final(self).negacies_converted_direction == old(self).negacies_converted_direction,
            final(self).counters_clamped(),
    {
        if self.general_messages < 0 {
            self.general_messages = 0;
        }
        if self.counting_messages < 0 {
            self.counting_messages = 0;
        }
        if self.quacks < 0 {
            self.quacks = 0;
        }
        if self.negacies_converted < 0 {
            self.negacies_converted = 0;
        }
        if self.negacies_earned < 0 {
            self.negacies_earned = 0;
        }
    }
}

/// Thresholds and costs that role levels are computed against.
pub struct RoleConfig {
    /// Thresholds on general chat messages, one legacy role each.
    pub general_legacies: Vec<i64>,
    /// Thresholds on counting channel messages, one legacy role each.
    pub counting_legacies: Vec<i64>,
    /// Legacy roles taken away by access to the secret area.
    pub secret_area_cost: i64,
    /// Thresholds on quacks, one quacker tier each.
    pub quacker_roles: Vec<i64>,
    /// Name of each quacker tier, tier zero first.
    pub quacker_roles_names: Vec<String>,
}

impl RoleConfig {
    /// Threshold lists ascend and every quacker tier has a name.
    pub open spec fn wf(self) -> bool {
        &&& ascending(self.general_legacies@)
        &&& ascending(self.counting_legacies@)
        &&& ascending(self.quacker_roles@)
        &&& self.quacker_roles_names@.len() == self.quacker_roles@.len() + 1
    }

    pub fn new(
        general_legacies: Vec<i64>,
        counting_legacies: Vec<i64>,
        secret_area_cost: i64,
        quacker_roles: Vec<i64>,
        quacker_roles_names: Vec<String>,
    ) -> (r: Self)
        requires
            ascending(general_legacies@),
            ascending(counting_legacies@),
            ascending(quacker_roles@),
            quacker_roles_names@.len() == quacker_roles@.len() + 1,
        ensures
            r.general_legacies@ == general_legacies@,
            r.counting_legacies@ == counting_legacies@,
            r.secret_area_cost == secret_area_cost,
            r.quacker_roles@ == quacker_roles@,
            r.quacker_roles_names@ == quacker_roles_names@,
            r.wf(),
    {
        RoleConfig {
            general_legacies,
            counting_legacies,
            secret_area_cost,
            quacker_roles,
            quacker_roles_names,
        }
    }
}

impl RoleConfig {
    /// A configuration from the given parts, or `None` where a threshold list
    /// does not ascend or the quacker tier names are not one more than the
    /// quacker thresholds.
    pub fn validated(
        general_legacies: Vec<i64>,
        counting_legacies: Vec<i64>,
        secret_area_cost: i64,
        quacker_roles: Vec<i64>,
        quacker_roles_names: Vec<String>,
    ) -> (r: Option<Self>)
        ensures
            r.is_some() <==> {
                &&& ascending(general_legacies@)
                &&& ascending(counting_legacies@)
                &&& ascending(quacker_roles@)
                &&& quacker_roles_names@.len() == quacker_roles@.len() + 1
            },
            r matches Some(c) ==> {
                &&& c.general_legacies@ == general_legacies@
                &&& c.counting_legacies@ == counting_legacies@
                &&& c.secret_area_cost == secret_area_cost
                &&& c.quacker_roles@ == quacker_roles@
                &&& c.quacker_roles_names@ == quacker_roles_names@
                &&& c.wf()
            },
    {
        if !thresholds_ascending(&general_legacies) || !thresholds_ascending(&counting_legacies)
            || !thresholds_ascending(&quacker_roles) {
            return None;
        }
        if quacker_roles_names.len() == 0 || quacker_roles_names.len() - 1 != quacker_roles.len() {
            return None;
        }
        Some(
            RoleConfig::new(
                general_legacies,
                counting_legacies,
                secret_area_cost,
                quacker_roles,
                quacker_roles_names,
            ),
        )
    }
}

/// Legacy level: the conversion, plus one for each general and counting
/// threshold met, less the secret area cost when the user has access.
pub open spec fn legacy_level(config: RoleConfig, input: Values) -> int {
    input.legacy_conversion() + scan_met(config.general_legacies@, input.general_messages)
        + scan_met(config.counting_legacies@, input.counting_messages) - (if input.secret_area_access {
        config.secret_area_cost as int
    } else {
        0
    })
}

/// Negacy level: the negacies earned, less what the conversion gave to the
/// legacy level.
pub open spec fn negacy_level(input: Values) -> int {
    input.negacies_earned as int - input.legacy_conversion()
}

/// Quacker tier: the number of quacker thresholds met.
pub open spec fn quacker_tier(config: RoleConfig, input: Values) -> nat {
    scan_met(config.quacker_roles@, input.quacks)
}

/// Computes the legacy level of `input` under `config`.
pub fn compute_legacy_level(config: &RoleConfig, input: &Values) -> (r: i128)
    ensures
        r == legacy_level(*config, *input),
{
    let mut level: i128 = if input.negacies_converted_direction {
        input.negacies_converted as i128
    } else {
        -(input.negacies_converted as i128)
    };
    let general = tiers_met(&config.general_legacies, input.general_messages);
    let counting = tiers_met(&config.counting_legacies, input.counting_messages);
    level = level + general as i128 + counting as i128;
    if input.secret_area_access {
        level = level - config.secret_area_cost as i128;
    }
    level
}

/// Computes the negacy level of `input`.
pub fn compute_negacy_level(input: &Values) -> (r: i128)
    ensures
        r == negacy_level(*input),
{
    if input.negacies_converted_direction {
        input.negacies_earned as i128 - input.negacies_converted as i128
    } else {
        input.negacies_earned as i128 + input.negacies_converted as i128
    }
}

/// Computes the quacker tier of `input` under `config`: its index and its
/// name.
pub fn compute_quacker_tier(config: &RoleConfig, input: &Values) -> (r: (usize, String))
    requires
        config.wf(),
    ensures
        r.0 == quacker_tier(*config, *input),
        r.0 < config.quacker_roles_names@.len(),
        r.1@ == config.quacker_roles_names@[r.0 as int]@,
{
    let index = tiers_met(&config.quacker_roles, input.quacks);
    let name = config.quacker_roles_names[index].clone();
    (index, name)
}

/// The calculator: build information, role configuration and the user's
/// current input.
pub struct Calculator {
    /// Whether the information window is shown.
    pub info_active: bool,
    /// Build date as year, month, day, hour, minute, second and milliseconds.
    pub build_date: Vec<String>,
    /// Version of the build.
    pub version: String,
    /// Thresholds and costs.
    pub config: RoleConfig,
    /// What the user has entered.
    pub values: Values,
}

impl Calculator {
    /// A calculator over `config` with the information window closed and the
    /// input of a fresh session.
    pub fn new(build_date: Vec<String>, version: String, config: RoleConfig) -> (r: Self)
        ensures
            !r.info_active,
            r.build_date@ == build_date@,
            r.version@ == version@,
            r.config == config,
            r.values == Values::new_spec(),
    {
        Calculator { info_active: false, build_date, version, config, values: Values::new() }
    }

    /// Title of the application.
    pub fn name(&self) -> (r: &str)
        ensures
            r@ == "Alias' Heaven Calculator"@,
    {
        "Alias' Heaven Calculator"
    }

    /// Legacy level of the current input.
    pub fn legacy_level(&self) -> (r: i128)
        ensures
            r == legacy_level(self.config, self.values),
    {
        compute_legacy_level(&self.config, &self.values)
    }

    /// Negacy level of the current input.
    pub fn negacy_level(&self) -> (r: i128)
        ensures
            r == negacy_level(self.values),
    {
        compute_negacy_level(&self.values)
    }

    /// Quacker tier of the current input, index and name.
    pub fn quacker_tier(&self) -> (r: (usize, String))
        requires
            self.config.wf(),
        ensures
            r.0 == quacker_tier(self.config, self.values),
            r.0 < self.config.quacker_roles_names@.len(),
            r.1@ == self.config.quacker_roles_names@[r.0 as int]@,
    {
        compute_quacker_tier(&self.config, &self.values)
    }
}

} // verus!
