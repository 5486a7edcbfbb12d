//! The form in which CPU settings are edited: each field with a switch that
//! says whether it is enforced, and a value in the unit the user reads.

use vstd::prelude::*;
use vstd::string::StringExecFns;
use crate::cpu::CPUSettings;
use crate::text::{lines, push_line, same_text};

verus! {

/// The energy preferences that can be chosen.
pub open spec fn epps() -> Seq<Seq<char>> {
    seq!["performance"@, "balance_performance"@, "default"@, "balance_power"@, "power"@]
}

/// The governors that can be chosen under the driver mode `mode`: two where the
/// driver is active, six otherwise.
pub open spec fn governors(mode: Seq<char>) -> Seq<Seq<char>> {
    if mode == "active"@ {
        seq!["performance"@, "powersave"@]
    } else {
        seq![
            "conservative"@,
            "ondemand"@,
            "userspace"@,
            "powersave"@,
            "performance"@,
            "schedutil"@,
        ]
    }
}

/// The energy preferences that can be chosen.
pub fn get_epps() -> (out: Vec<String>)
    ensures
        lines(out@) == epps(),
{
    let mut out: Vec<String> = Vec::new();
    push_line(&mut out, String::from_str("performance"));
    push_line(&mut out, String::from_str("balance_performance"));
    push_line(&mut out, String::from_str("default"));
    push_line(&mut out, String::from_str("balance_power"));
    push_line(&mut out, String::from_str("power"));
    assert(lines(out@) =~= epps());
    out
}

/// The governors that can be chosen under the driver mode `mode`.
pub fn get_governors(mode: &str) -> (out: Vec<String>)
    ensures
        lines(out@) == governors(mode@),
{
    let mut out: Vec<String> = Vec::new();
    if same_text(mode, "active") {
        push_line(&mut out, String::from_str("performance"));
        push_line(&mut out, String::from_str("powersave"));
    } else {
        push_line(&mut out, String::from_str("conservative"));
        push_line(&mut out, String::from_str("ondemand"));
        push_line(&mut out, String::from_str("userspace"));
        push_line(&mut out, String::from_str("powersave"));
        push_line(&mut out, String::from_str("performance"));
        push_line(&mut out, String::from_str("schedutil"));
    }
    assert(lines(out@) =~= governors(mode@));
    out
}

/// The frequency of `megahertz` MHz in kilohertz, where it is one that a
/// setting can hold.
pub open spec fn kilohertz(megahertz: i32) -> Option<u32> {
    if 0 <= megahertz && megahertz * 1000 <= u32::MAX {
        Some((megahertz * 1000) as u32)
    } else {
        None
    }
}

/// Converts a frequency entered in whole megahertz to the kilohertz that the
/// hardware takes: a thousand times the number, exactly. A negative frequency
/// and one beyond what a setting can hold have no such value.
pub fn megahertz_to_kilohertz(megahertz: i32) -> (khz: Option<u32>)
    ensures
        khz == kilohertz(megahertz),
        khz matches Some(khz) ==> khz == megahertz * 1000,
        khz is Some <==> 0 <= megahertz <= 4_294_967,
{
    if megahertz < 0 || megahertz > 4_294_967 {
        None
    } else {
        let wide: u64 = megahertz as u64 * 1000;
        Some(wide as u32)
    }
}

/// A frequency that was entered in whole megahertz comes back from its
/// kilohertz unchanged: the conversion multiplies by a thousand and loses
/// nothing.
pub proof fn lemma_frequency_round_trip(megahertz: i32)
    requires
        kilohertz(megahertz) is Some,
    ensures
        kilohertz(megahertz)->0 == megahertz * 1000,
        kilohertz(megahertz)->0 / 1000 == megahertz,
        kilohertz(megahertz)->0 % 1000 == 0,
{
}

/// What of the CPU settings the machine at hand can take.
#[derive(Debug, Clone, Copy, PartialEq, Eq)]
pub struct CpuSupport {
    /// The scaling driver has an operation mode.
    pub mode: bool,
    /// The cores have an energy preference.
    pub epp: bool,
    /// The driver has a dynamic boost.
    pub hwp_dyn_boost: bool,
}

/// Why a form cannot be turned into settings.
#[derive(Debug, Clone, Copy, PartialEq, Eq, Structural)]
pub enum FormError {
    /// An enforced frequency is negative or beyond what a setting can hold.
    Frequency,
    /// An enforced percentage is not one from 0 to 100.
    Percentage,
}

/// A field of a form: whether it is enforced, and its value, which is kept
/// while the field is not enforced.
#[derive(Debug, Clone, PartialEq)]
pub struct Toggleable<T> {
    pub enabled: bool,
    pub value: T,
}

/// The CPU settings as they are edited. Frequencies are in whole megahertz,
/// while the settings hold them in kilohertz.
#[derive(Debug, Clone, PartialEq)]
pub struct CPUForm {
    pub mode: Toggleable<String>,
    pub epp: Toggleable<String>,
    pub governor: Toggleable<String>,
    pub min_freq: Toggleable<i32>,
    pub max_freq: Toggleable<i32>,
    pub min_perf_pct: Toggleable<i32>,
    pub max_perf_pct: Toggleable<i32>,
    pub boost: Toggleable<bool>,
    pub hwp_dyn_boost: Toggleable<bool>,
}

/// A text field of the form for the setting `field`: enforced if the setting is
/// present, with its text; else with the text `fallback`.
pub open spec fn text_field(field: Option<String>, fallback: Seq<char>, shown: Toggleable<String>) -> bool {
    match field {
        Some(text) => shown.enabled && shown.value@ == text@,
        None => !shown.enabled && shown.value@ == fallback,
    }
}

/// A number field of the form for the setting `field`, which is taken as it
/// stands: enforced if the setting is present, with its number; else with 0.
pub open spec fn number_field(field: Option<int>, shown: Toggleable<i32>) -> bool {
    match field {
        Some(number) => shown.enabled && shown.value == number,
        None => !shown.enabled && shown.value == 0,
    }
}

/// A switch of the form for the setting `field`: enforced if the setting is
/// present, with its state; else switched off.
pub open spec fn switch_field(field: Option<bool>, shown: Toggleable<bool>) -> bool {
    match field {
        Some(on) => shown.enabled && shown.value == on,
        None => !shown.enabled && !shown.value,
    }
}

/// A frequency of the settings, which is in kilohertz, as the form shows it: in
/// whole megahertz, a part of a megahertz left off.
pub open spec fn shown_number(field: Option<u32>) -> Option<int> {
    match field {
        Some(khz) => Some(khz as int / 1000),
        None => None,
    }
}

/// A percentage of the settings as the form takes it.
pub open spec fn shown_percentage(field: Option<u8>) -> Option<int> {
    match field {
        Some(number) => Some(number as int),
        None => None,
    }
}

fn show_text(field: &Option<String>, fallback: &str) -> (shown: Toggleable<String>)
    ensures
        text_field(*field, fallback@, shown),
{
    match field {
        Some(text) => Toggleable { enabled: true, value: text.clone() },
        None => Toggleable { enabled: false, value: String::from_str(fallback) },
    }
}

fn show_frequency(field: Option<u32>) -> (shown: Toggleable<i32>)
    ensures
        number_field(shown_number(field), shown),
{
    match field {
        Some(khz) => Toggleable { enabled: true, value: (khz / 1000) as i32 },
        None => Toggleable { enabled: false, value: 0 },
    }
}

fn show_percentage(field: Option<u8>) -> (shown: Toggleable<i32>)
    ensures
        number_field(shown_percentage(field), shown),
{
    match field {
        Some(number) => Toggleable { enabled: true, value: number as i32 },
        None => Toggleable { enabled: false, value: 0 },
    }
}

fn show_switch(field: Option<bool>) -> (shown: Toggleable<bool>)
    ensures
        switch_field(field, shown),
{
    match field {
        Some(on) => Toggleable { enabled: true, value: on },
        None => Toggleable { enabled: false, value: false },
    }
}

impl CPUForm {
    /// The form shows `settings`: each field is enforced exactly if the setting
    /// is present, and then holds its value. A field that is not enforced holds
    /// `passive` for the mode, else the empty text, 0 or a switch that is off.
    /// A frequency, which the settings hold in kilohertz, is shown in whole
    /// megahertz.
    pub open spec fn shows(&self, settings: CPUSettings) -> bool {
        &&& text_field(settings.mode, "passive"@, self.mode)
        &&& text_field(settings.energy_performance_preference, Seq::empty(), self.epp)
        &&& text_field(settings.governor, Seq::empty(), self.governor)
        &&& number_field(shown_number(settings.min_frequency), self.min_freq)
        &&& number_field(shown_number(settings.max_frequency), self.max_freq)
        &&& number_field(shown_percentage(settings.min_perf_pct), self.min_perf_pct)
        &&& number_field(shown_percentage(settings.max_perf_pct), self.max_perf_pct)
        &&& switch_field(settings.boost, self.boost)
        &&& switch_field(settings.hwp_dyn_boost, self.hwp_dyn_boost)
    }

    /// The form that shows `cpu_settings`.
    pub fn new(cpu_settings: &CPUSettings) -> (form: CPUForm)
        ensures
            form.shows(*cpu_settings),
    {
        proof {
            reveal_strlit("");
        }
        let empty = "";
        assert(empty@ =~= Seq::<char>::empty());
        CPUForm {
            mode: show_text(&cpu_settings.mode, "passive"),
            epp: show_text(&cpu_settings.energy_performance_preference, empty),
            governor: show_text(&cpu_settings.governor, empty),
            min_freq: show_frequency(cpu_settings.min_frequency),
            max_freq: show_frequency(cpu_settings.max_frequency),
            min_perf_pct: show_percentage(cpu_settings.min_perf_pct),
            max_perf_pct: show_percentage(cpu_settings.max_perf_pct),
            boost: show_switch(cpu_settings.boost),
            hwp_dyn_boost: show_switch(cpu_settings.hwp_dyn_boost),
        }
    }

    /// Makes the form show `cpu_settings`, whatever it held.
    pub fn set_values(&mut self, cpu_settings: &CPUSettings)
        ensures
            final(self).shows(*cpu_settings),
    {
        *self = CPUForm::new(cpu_settings);
    }
}

/// The setting `field` holds the text `expected`, or is absent with it.
pub open spec fn holds_text(field: Option<String>, expected: Option<Seq<char>>) -> bool {
    match field {
        Some(text) => expected == Some(text@),
        None => expected is None,
    }
}

/// What a field of a form enforces: its value where it is switched on and the
/// machine can take it.
pub open spec fn enforced<T>(field: Toggleable<T>, supported: bool) -> Option<T> {
    if supported && field.enabled {
        Some(field.value)
    } else {
        None
    }
}

/// A percentage as a field holds it is one from 0 to 100.
pub open spec fn is_percentage(value: i32) -> bool {
    0 <= value <= 100
}

fn enforced_text(field: &Toggleable<String>, supported: bool) -> (setting: Option<String>)
    ensures
        holds_text(
            setting,
            match enforced(*field, supported) {
                Some(text) => Some(text@),
                None => None,
            },
        ),
{
    if supported && field.enabled {
        Some(field.value.clone())
    } else {
        None
    }
}

fn enforced_frequency(field: &Toggleable<i32>) -> (setting: Result<Option<u32>, FormError>)
    ensures
        field.enabled && kilohertz(field.value) is None ==> setting == Err::<
            Option<u32>,
            FormError,
        >(FormError::Frequency),
        field.enabled && kilohertz(field.value) is Some ==> setting == Ok::<
            Option<u32>,
            FormError,
        >(kilohertz(field.value)),
        !field.enabled ==> setting == Ok::<Option<u32>, FormError>(None),
{
    if field.enabled {
        match megahertz_to_kilohertz(field.value) {
            Some(khz) => Ok(Some(khz)),
            None => Err(FormError::Frequency),
        }
    } else {
        Ok(None)
    }
}

fn enforced_percentage(field: &Toggleable<i32>) -> (setting: Result<Option<u8>, FormError>)
    ensures
        field.enabled && !is_percentage(field.value) ==> setting == Err::<Option<u8>, FormError>(
            FormError::Percentage,
        ),
        field.enabled && is_percentage(field.value) ==> setting == Ok::<Option<u8>, FormError>(
            Some(field.value as u8),
        ),
        !field.enabled ==> setting == Ok::<Option<u8>, FormError>(None),
{
    if field.enabled {
        if 0 <= field.value && field.value <= 100 {
            Ok(Some(field.value as u8))
        } else {
            Err(FormError::Percentage)
        }
    } else {
        Ok(None)
    }
}

impl CPUForm {
    /// Each enforced frequency is one that a setting can hold.
    pub open spec fn frequencies_fit(&self) -> bool {
        &&& self.min_freq.enabled ==> kilohertz(self.min_freq.value) is Some
        &&& self.max_freq.enabled ==> kilohertz(self.max_freq.value) is Some
    }

    /// Each enforced percentage is one from 0 to 100.
    pub open spec fn percentages_fit(&self) -> bool {
        &&& self.min_perf_pct.enabled ==> is_percentage(self.min_perf_pct.value)
        &&& self.max_perf_pct.enabled ==> is_percentage(self.max_perf_pct.value)
    }

    /// `settings` enforce what the form says on a machine with `support`: a
    /// field that is switched on is present with its value, a frequency a
    /// thousandfold; one that is switched off, or that the machine cannot take,
    /// is absent. The dynamic boost is enforced only in the mode `active`.
    pub open spec fn submits(&self, support: CpuSupport, settings: CPUSettings) -> bool {
        &&& holds_text(
            settings.mode,
            match enforced(self.mode, support.mode) {
                Some(text) => Some(text@),
                None => None,
            },
        )
        &&& holds_text(
            settings.governor,
            match enforced(self.governor, true) {
                Some(text) => Some(text@),
                None => None,
            },
        )
        &&& holds_text(
            settings.energy_performance_preference,
            match enforced(self.epp, support.epp) {
                Some(text) => Some(text@),
                None => None,
            },
        )
        &&& settings.min_frequency == match enforced(self.min_freq, true) {
            Some(megahertz) => kilohertz(megahertz),
            None => None,
        }
        &&& settings.max_frequency == match enforced(self.max_freq, true) {
            Some(megahertz) => kilohertz(megahertz),
            None => None,
        }
        &&& settings.min_perf_pct == match enforced(self.min_perf_pct, true) {
            Some(percent) => Some(percent as u8),
            None => None,
        }
        &&& settings.max_perf_pct == match enforced(self.max_perf_pct, true) {
            Some(percent) => Some(percent as u8),
            None => None,
        }
        &&& settings.boost == enforced(self.boost, true)
        &&& settings.hwp_dyn_boost == enforced(
            self.hwp_dyn_boost,
            self.mode.value@ == "active"@ && support.hwp_dyn_boost,
        )
    }

    /// The settings that the form enforces on a machine with `support`. Fails
    /// where an enforced frequency is negative or too large, and else where an
    /// enforced percentage is not one from 0 to 100.
    pub fn to_settings(&self, support: &CpuSupport) -> (out: Result<CPUSettings, FormError>)
        ensures
            !self.frequencies_fit() ==> out == Err::<CPUSettings, FormError>(FormError::Frequency),
            self.frequencies_fit() && !self.percentages_fit() ==> out == Err::<
                CPUSettings,
                FormError,
            >(FormError::Percentage),
            self.frequencies_fit() && self.percentages_fit() ==> out is Ok && self.submits(
                *support,
                out->Ok_0,
            ),
    {
        let min_frequency = match enforced_frequency(&self.min_freq) {
            Ok(setting) => setting,
            Err(fault) => {
                return Err(fault);
            },
        };
        let max_frequency = match enforced_frequency(&self.max_freq) {
            Ok(setting) => setting,
            Err(fault) => {
                return Err(fault);
            },
        };
        let min_perf_pct = match enforced_percentage(&self.min_perf_pct) {
            Ok(setting) => setting,
            Err(fault) => {
                return Err(fault);
            },
        };
        let max_perf_pct = match enforced_percentage(&self.max_perf_pct) {
            Ok(setting) => setting,
            Err(fault) => {
                return Err(fault);
            },
        };
        let active = same_text(self.mode.value.as_str(), "active");
        Ok(
            CPUSettings {
                mode: enforced_text(&self.mode, support.mode),
                governor: enforced_text(&self.governor, true),
                energy_performance_preference: enforced_text(&self.epp, support.epp),
                min_frequency,
                max_frequency,
                min_perf_pct,
                max_perf_pct,
                boost: if self.boost.enabled {
                    Some(self.boost.value)
                } else {
                    None
                },
                hwp_dyn_boost: if active && support.hwp_dyn_boost && self.hwp_dyn_boost.enabled {
                    Some(self.hwp_dyn_boost.value)
                } else {
                    None
                },
            },
        )
    }
}

/// A form that shows settings and is submitted as it is gives the frequencies
/// back: each is present exactly if it was, and a frequency of whole megahertz
/// comes back as the very number of kilohertz that the settings held. One with
/// a part of a megahertz comes back without that part.
pub proof fn lemma_shown_frequencies_come_back(
    form: CPUForm,
    settings: CPUSettings,
    support: CpuSupport,
    submitted: CPUSettings,
)
    requires
        form.shows(settings),
        form.submits(support, submitted),
    ensures
        form.frequencies_fit(),
        settings.min_frequency is None ==> submitted.min_frequency is None,
        settings.max_frequency is None ==> submitted.max_frequency is None,
        settings.min_frequency matches Some(khz) ==> submitted.min_frequency == Some(
            (khz / 1000 * 1000) as u32,
        ),
        settings.max_frequency matches Some(khz) ==> submitted.max_frequency == Some(
            (khz / 1000 * 1000) as u32,
        ),
        settings.min_frequency matches Some(khz) && khz % 1000 == 0 ==> submitted.min_frequency
            == settings.min_frequency,
        settings.max_frequency matches Some(khz) && khz % 1000 == 0 ==> submitted.max_frequency
            == settings.max_frequency,
{
}

} // verus!
