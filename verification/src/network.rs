//! Network settings: wired cards, and the parameters the wifi modules are
//! loaded with.

use vstd::prelude::*;
use vstd::string::StringExecFns;
use crate::outcome::{agrees, ApplyError};
use crate::text::{
    choice, contains_text, decimal, has_substring, lines, push_decimal, push_line, switch_digit,
};

verus! {

/// Whether the regular expression `pattern` is accepted and, if so, whether it
/// matches somewhere in `text`: `None` where it is not accepted.
pub uninterp spec fn regex_is_match(pattern: Seq<char>, text: Seq<char>) -> Option<bool>;

/// `regex::Regex::new` and, on the expression it built, `Regex::is_match`. Not
/// proved: that the answer depends on the pattern and the text alone.
#[verifier::external_body]
fn pattern_matches(pattern: &str, text: &str) -> (found: Option<bool>)
    ensures
        found == regex_is_match(pattern@, text@),
{
    match regex::Regex::new(pattern) {
        Ok(expression) => Some(expression.is_match(text)),
        Err(_) => None,
    }
}

/// The names of wired network cards begin with one of these.
pub open spec fn ethernet_pattern() -> Seq<char> {
    "^(eth|enp|ens|eno)"@
}

/// The line that takes the interface `name` down.
pub open spec fn interface_down_line(name: Seq<char>) -> Seq<char> {
    "ifconfig "@ + name + " down"@
}

/// One line for each interface that is marked in `wired`, in the order of
/// `interfaces`; none at all where there is not one mark for each interface.
pub open spec fn wired_down_lines(interfaces: Seq<Seq<char>>, wired: Seq<bool>) -> Seq<Seq<char>>
    decreases interfaces.len(),
{
    if interfaces.len() == 0 || wired.len() != interfaces.len() {
        seq![]
    } else if wired.last() {
        wired_down_lines(interfaces.drop_last(), wired.drop_last()).push(
            interface_down_line(interfaces.last()),
        )
    } else {
        wired_down_lines(interfaces.drop_last(), wired.drop_last())
    }
}

/// Which of `interfaces` the regular expression `pattern` matches.
pub open spec fn matched_flags(pattern: Seq<char>, interfaces: Seq<Seq<char>>) -> Seq<bool> {
    Seq::new(interfaces.len(), |i: int| regex_is_match(pattern, interfaces[i]) == Some(true))
}

/// The regular expression `pattern` was accepted for each of `interfaces`.
pub open spec fn pattern_accepted(pattern: Seq<char>, interfaces: Seq<Seq<char>>) -> bool {
    forall|i: int|
        0 <= i < interfaces.len() ==> (#[trigger] regex_is_match(pattern, interfaces[i])) is Some
}

/// What taking down the interfaces that `pattern` matches comes to: a line for
/// each of them, or the fault that the pattern was not accepted.
pub open spec fn matching_down(pattern: Seq<char>, interfaces: Seq<Seq<char>>) -> Result<
    Seq<Seq<char>>,
    ApplyError,
> {
    if pattern_accepted(pattern, interfaces) {
        Ok(wired_down_lines(interfaces, matched_flags(pattern, interfaces)))
    } else {
        Err(ApplyError::PatternRejected)
    }
}

/// The lines that take down those of `interfaces` that are marked in `wired`,
/// which holds one mark for each interface.
pub fn ethernet_down_commands(interfaces: &Vec<String>, wired: &Vec<bool>) -> (out: Vec<String>)
    ensures
        lines(out@) == wired_down_lines(lines(interfaces@), wired@),
{
    let mut out: Vec<String> = Vec::new();
    let mut i: usize = 0;
    assert(lines(interfaces@).take(0) =~= Seq::<Seq<char>>::empty());
    assert(lines(out@) =~= Seq::<Seq<char>>::empty());
    if interfaces.len() != wired.len() {
        return out;
    }
    while i < interfaces.len()
        invariant
            i <= interfaces@.len(),
            interfaces@.len() == wired@.len(),
            lines(out@) == wired_down_lines(lines(interfaces@).take(i as int), wired@.take(i as int)),
        decreases interfaces@.len() - i,
    {
        proof {
            let names = lines(interfaces@).take(i + 1);
            let flags = wired@.take(i + 1);
            assert(names.drop_last() =~= lines(interfaces@).take(i as int));
            assert(flags.drop_last() =~= wired@.take(i as int));
            assert(names.last() == interfaces@[i as int]@);
            assert(flags.last() == wired@[i as int]);
        }
        if wired[i] {
            let mut line = String::from_str("ifconfig ");
            line.append(interfaces[i].as_str());
            line.append(" down");
            assert(line@ =~= interface_down_line(interfaces@[i as int]@));
            push_line(&mut out, line);
        }
        i = i + 1;
    }
    assert(lines(interfaces@).take(i as int) =~= lines(interfaces@));
    assert(wired@.take(i as int) =~= wired@);
    out
}

/// The lines that take down those of `interfaces` whose name the regular
/// expression `pattern` matches. Fails where the pattern is not accepted, and
/// only there.
pub fn matching_interfaces_down(interfaces: &Vec<String>, pattern: &str) -> (out: Result<
    Vec<String>,
    ApplyError,
>)
    ensures
        agrees(out, matching_down(pattern@, lines(interfaces@))),
{
    let mut wired: Vec<bool> = Vec::new();
    let mut i: usize = 0;
    while i < interfaces.len()
        invariant
            i <= interfaces@.len(),
            wired@ =~= matched_flags(pattern@, lines(interfaces@)).take(i as int),
            pattern_accepted(pattern@, lines(interfaces@).take(i as int)),
        decreases interfaces@.len() - i,
    {
        match pattern_matches(pattern, interfaces[i].as_str()) {
            None => {
                assert(lines(interfaces@)[i as int] == interfaces@[i as int]@);
                return Err(ApplyError::PatternRejected);
            },
            Some(found) => {
                wired.push(found);
                assert(lines(interfaces@)[i as int] == interfaces@[i as int]@);
            },
        }
        i = i + 1;
    }
    assert(lines(interfaces@).take(i as int) =~= lines(interfaces@));
    assert(wired@ =~= matched_flags(pattern@, lines(interfaces@)));
    Ok(ethernet_down_commands(interfaces, &wired))
}

/// The lines that take every wired card among `interfaces` down: those whose
/// name begins as the name of a wired card does.
pub fn disable_all_ethernet_cards(interfaces: &Vec<String>) -> (out: Result<Vec<String>, ApplyError>)
    ensures
        agrees(out, matching_down(ethernet_pattern(), lines(interfaces@))),
{
    matching_interfaces_down(interfaces, "^(eth|enp|ens|eno)")
}

/// What a machine shows of its network hardware.
#[derive(Debug, Clone, PartialEq)]
pub struct NetworkProbe {
    /// The names under `/sys/class/net`; `None` where they could not be listed.
    pub interfaces: Option<Vec<String>>,
    /// What `lsmod | grep '^iwl.vm'` printed.
    pub wifi_modules: String,
}

/// The wifi firmware in use is `iwlmvm`, going by the listing of loaded modules.
pub open spec fn uses_iwlmvm(wifi_modules: Seq<char>) -> bool {
    has_substring(wifi_modules, "iwlmvm"@)
}

/// What a profile enforces on the network hardware. The three `disable_wifi`
/// switches and `disable_ethernet` act where they are set; the optional fields
/// are written where they are present.
#[derive(Debug, Clone, PartialEq)]
pub struct NetworkSettings {
    pub disable_ethernet: bool,
    pub disable_wifi_7: bool,
    pub disable_wifi_6: bool,
    pub disable_wifi_5: bool,
    pub enable_power_save: Option<bool>,
    /// From 0 to 5; the higher, the more performance and the less saving.
    pub power_level: Option<u8>,
    /// 1 active, 2 balanced, 3 low power.
    pub power_scheme: Option<u8>,
    pub enable_uapsd: Option<bool>,
}

impl NetworkSettings {
    /// The parameters of the firmware module: `iwlmvm` takes the power scheme
    /// itself, `iwldvm` only knows the low-power scheme, under another name.
    pub open spec fn firmware_parameters(&self, iwlmvm: bool) -> Seq<char> {
        match self.power_scheme {
            Some(scheme) => if iwlmvm {
                "power_scheme="@ + decimal(scheme as nat)
            } else if scheme == 3 {
                "force_cam=0"@
            } else {
                Seq::empty()
            },
            None => Seq::empty(),
        }
    }

    /// The parameters that switch wifi generations off.
    pub open spec fn generation_parameters(&self) -> Seq<char> {
        choice(self.disable_wifi_5, "disable_11ac=1 "@, Seq::empty()) + choice(
            self.disable_wifi_6,
            "disable_11ax=1 "@,
            Seq::empty(),
        ) + choice(self.disable_wifi_7, "disable_11be=1 "@, Seq::empty())
    }

    /// The parameter that switches power saving.
    pub open spec fn power_save_parameter(&self) -> Seq<char> {
        match self.enable_power_save {
            Some(on) => "power_save="@ + choice(on, "1"@, "0"@) + " "@,
            None => Seq::empty(),
        }
    }

    /// The parameter of the power level.
    pub open spec fn power_level_parameter(&self) -> Seq<char> {
        match self.power_level {
            Some(level) => "power_level="@ + decimal(level as nat) + " "@,
            None => Seq::empty(),
        }
    }

    /// The parameter that switches U-APSD, which the module takes negated.
    pub open spec fn uapsd_parameter(&self) -> Seq<char> {
        match self.enable_uapsd {
            Some(on) => "uapsd_disable="@ + choice(on, "0"@, "1"@) + " "@,
            None => Seq::empty(),
        }
    }

    /// The parameters of power saving.
    pub open spec fn power_parameters(&self) -> Seq<char> {
        self.power_save_parameter() + self.power_level_parameter() + self.uapsd_parameter()
    }

    /// The parameters of the driver module, each followed by a blank.
    pub open spec fn driver_parameters(&self) -> Seq<char> {
        self.generation_parameters() + self.power_parameters()
    }

    /// The line that unloads firmware and driver and loads them again with the
    /// parameters of these settings.
    pub open spec fn reload_line(&self, iwlmvm: bool) -> Seq<char> {
        let firmware = choice(iwlmvm, "iwlmvm"@, "iwldvm"@);
        "modprobe -r "@ + firmware + " && modprobe -r iwlwifi && modprobe "@ + firmware + " "@
            + self.firmware_parameters(iwlmvm) + " && modprobe iwlwifi "@
            + self.driver_parameters()
    }

    /// What applying these settings comes to on a machine that shows `probe`: the
    /// lines for the wired cards, where they are to be disabled, and then the
    /// reload of the wifi modules, which is made in any case.
    pub open spec fn outcome(&self, probe: NetworkProbe) -> Result<Seq<Seq<char>>, ApplyError> {
        let reload = self.reload_line(uses_iwlmvm(probe.wifi_modules@));
        if !self.disable_ethernet {
            Ok(seq![reload])
        } else {
            match probe.interfaces {
                None => Err(ApplyError::Unlisted),
                Some(interfaces) => match matching_down(ethernet_pattern(), lines(interfaces@)) {
                    Ok(down) => Ok(down.push(reload)),
                    Err(fault) => Err(fault),
                },
            }
        }
    }

    fn firmware_parameters_text(&self, iwlmvm: bool) -> (text: String)
        ensures
            text@ == self.firmware_parameters(iwlmvm),
    {
        let mut text = String::new();
        if let Some(scheme) = self.power_scheme {
            if iwlmvm {
                text.append("power_scheme=");
                push_decimal(&mut text, scheme as u64);
            } else if scheme == 3 {
                text.append("force_cam=0");
            }
        }
        assert(text@ =~= self.firmware_parameters(iwlmvm));
        text
    }

    fn push_generation_parameters(&self, text: &mut String)
        ensures
            final(text)@ == old(text)@ + self.generation_parameters(),
    {
        if self.disable_wifi_5 {
            text.append("disable_11ac=1 ");
        }
        if self.disable_wifi_6 {
            text.append("disable_11ax=1 ");
        }
        if self.disable_wifi_7 {
            text.append("disable_11be=1 ");
        }
        assert(text@ =~= old(text)@ + self.generation_parameters());
    }

    fn push_power_parameters(&self, text: &mut String)
        ensures
            final(text)@ == old(text)@ + self.power_parameters(),
    {
        if let Some(on) = self.enable_power_save {
            text.append("power_save=");
            text.append(switch_digit(on));
            text.append(" ");
        }
        assert(text@ =~= old(text)@ + self.power_save_parameter());
        let ghost first = text@;
        if let Some(level) = self.power_level {
            text.append("power_level=");
            push_decimal(text, level as u64);
            text.append(" ");
        }
        assert(text@ =~= first + self.power_level_parameter());
        let ghost second = text@;
        if let Some(on) = self.enable_uapsd {
            text.append("uapsd_disable=");
            text.append(switch_digit(!on));
            text.append(" ");
        }
        assert(text@ =~= second + self.uapsd_parameter());
        assert(text@ =~= old(text)@ + self.power_parameters());
    }

    fn reload_command(&self, iwlmvm: bool) -> (line: String)
        ensures
            line@ == self.reload_line(iwlmvm),
    {
        let firmware: &str = if iwlmvm {
            "iwlmvm"
        } else {
            "iwldvm"
        };
        let parameters = self.firmware_parameters_text(iwlmvm);
        let mut line = String::from_str("modprobe -r ");
        line.append(firmware);
        line.append(" && modprobe -r iwlwifi && modprobe ");
        line.append(firmware);
        line.append(" ");
        line.append(parameters.as_str());
        line.append(" && modprobe iwlwifi ");
        let ghost head = line@;
        self.push_generation_parameters(&mut line);
        self.push_power_parameters(&mut line);
        assert(line@ =~= head + self.driver_parameters());
        assert(line@ =~= self.reload_line(iwlmvm));
        line
    }

    /// The lines that enforce these settings on a machine that shows `probe`.
    /// Fails, with nothing to run, where wired cards are to be disabled and the
    /// interfaces could not be listed or the pattern for wired cards was not
    /// accepted.
    pub fn apply(&self, probe: &NetworkProbe) -> (out: Result<Vec<String>, ApplyError>)
        ensures
            agrees(out, self.outcome(*probe)),
    {
        let mut written: Vec<String> = Vec::new();
        assert(lines(written@) =~= Seq::<Seq<char>>::empty());
        if self.disable_ethernet {
            match &probe.interfaces {
                None => {
                    return Err(ApplyError::Unlisted);
                },
                Some(interfaces) => {
                    match disable_all_ethernet_cards(interfaces) {
                        Err(fault) => {
                            return Err(fault);
                        },
                        Ok(down) => {
                            written = down;
                        },
                    }
                },
            }
        }
        let iwlmvm = contains_text(probe.wifi_modules.as_str(), "iwlmvm");
        push_line(&mut written, self.reload_command(iwlmvm));
        assert(!self.disable_ethernet ==> lines(written@) =~= seq![self.reload_line(iwlmvm)]);
        Ok(written)
    }
}

} // verus!
