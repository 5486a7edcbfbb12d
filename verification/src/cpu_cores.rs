//! Overrides for single CPU cores, and the reset that every full application
//! of them starts with.

use vstd::prelude::*;
use vstd::string::StringExecFns;
use crate::text::{
    choice, decimal, echo, echo_line, echo_number, lines, push_decimal, push_line, switch_digit,
};

verus! {

/// The control file `leaf` of the core with the number `cpu_id`.
pub open spec fn core_path(cpu_id: nat, leaf: Seq<char>) -> Seq<char> {
    "/sys/devices/system/cpu/cpu"@ + decimal(cpu_id) + leaf
}

/// The write that brings every core online.
pub open spec fn all_cores_online_line() -> Seq<char> {
    "echo 1 > /sys/devices/system/cpu/cpu*/online"@
}

/// The write that switches the core `cpu_id` on or off.
pub open spec fn core_online_line(cpu_id: nat, online: bool) -> Seq<char> {
    echo_line(choice(online, "1"@, "0"@), core_path(cpu_id, "/online"@))
}

/// What a profile enforces on one core. An absent field leaves the core as the
/// settings for all cores have it.
#[derive(Debug, Clone, PartialEq)]
pub struct CoreSetting {
    /// The number of the logical core.
    pub cpu_id: u32,
    pub online: Option<bool>,
    /// In kilohertz.
    pub max_frequency: Option<u32>,
    /// In kilohertz.
    pub min_frequency: Option<u32>,
    pub governor: Option<String>,
    pub epp: Option<String>,
}

/// The overrides of a profile for single cores: none at all, or a list with at
/// most one record for a core.
#[derive(Debug, Clone, PartialEq)]
pub struct CPUCoreSettings {
    pub cores: Option<Vec<CoreSetting>>,
}

impl CoreSetting {
    /// The record for the core `cpu_id` that enforces nothing.
    pub open spec fn unmanaged(cpu_id: u32) -> CoreSetting {
        CoreSetting {
            cpu_id,
            online: None,
            max_frequency: None,
            min_frequency: None,
            governor: None,
            epp: None,
        }
    }

    /// Makes the record for the core `cpu_id` that enforces nothing.
    pub fn new(cpu_id: u32) -> (core: CoreSetting)
        ensures
            core == CoreSetting::unmanaged(cpu_id),
    {
        CoreSetting {
            cpu_id,
            online: None,
            max_frequency: None,
            min_frequency: None,
            governor: None,
            epp: None,
        }
    }

    /// The write of the online switch.
    pub open spec fn online_commands(&self) -> Seq<Seq<char>> {
        match self.online {
            Some(online) => seq![core_online_line(self.cpu_id as nat, online)],
            None => seq![],
        }
    }

    /// The writes of energy preference and governor.
    pub open spec fn policy_commands(&self) -> Seq<Seq<char>> {
        (match self.epp {
            Some(epp) => seq![
                echo_line(
                    epp@,
                    core_path(self.cpu_id as nat, "/cpufreq/energy_performance_preference"@),
                ),
            ],
            None => seq![],
        }) + (match self.governor {
            Some(governor) => seq![
                echo_line(governor@, core_path(self.cpu_id as nat, "/cpufreq/scaling_governor"@)),
            ],
            None => seq![],
        })
    }

    /// The writes of the frequency bounds.
    pub open spec fn frequency_commands(&self) -> Seq<Seq<char>> {
        (match self.min_frequency {
            Some(khz) => seq![
                echo_line(
                    decimal(khz as nat),
                    core_path(self.cpu_id as nat, "/cpufreq/scaling_min_freq"@),
                ),
            ],
            None => seq![],
        }) + (match self.max_frequency {
            Some(khz) => seq![
                echo_line(
                    decimal(khz as nat),
                    core_path(self.cpu_id as nat, "/cpufreq/scaling_max_freq"@),
                ),
            ],
            None => seq![],
        })
    }

    /// Every write this record asks for, in order.
    pub open spec fn commands(&self) -> Seq<Seq<char>> {
        self.online_commands() + self.policy_commands() + self.frequency_commands()
    }
}

/// The control file `leaf` of the core `cpu_id`, as text.
fn core_file(cpu_id: u32, leaf: &str) -> (path: String)
    ensures
        path@ == core_path(cpu_id as nat, leaf@),
{
    let mut path = String::from_str("/sys/devices/system/cpu/cpu");
    push_decimal(&mut path, cpu_id as u64);
    path.append(leaf);
    assert(path@ =~= core_path(cpu_id as nat, leaf@));
    path
}

impl CoreSetting {
    fn write_policy(&self, out: &mut Vec<String>)
        ensures
            lines(final(out)@) == lines(old(out)@) + self.policy_commands(),
    {
        if let Some(epp) = &self.epp {
            let path = core_file(self.cpu_id, "/cpufreq/energy_performance_preference");
            push_line(out, echo(epp.as_str(), path.as_str()));
        }
        if let Some(governor) = &self.governor {
            let path = core_file(self.cpu_id, "/cpufreq/scaling_governor");
            push_line(out, echo(governor.as_str(), path.as_str()));
        }
        assert(lines(out@) =~= lines(old(out)@) + self.policy_commands());
    }

    fn write_frequencies(&self, out: &mut Vec<String>)
        ensures
            lines(final(out)@) == lines(old(out)@) + self.frequency_commands(),
    {
        if let Some(khz) = self.min_frequency {
            let path = core_file(self.cpu_id, "/cpufreq/scaling_min_freq");
            push_line(out, echo_number(khz as u64, path.as_str()));
        }
        if let Some(khz) = self.max_frequency {
            let path = core_file(self.cpu_id, "/cpufreq/scaling_max_freq");
            push_line(out, echo_number(khz as u64, path.as_str()));
        }
        assert(lines(out@) =~= lines(old(out)@) + self.frequency_commands());
    }

    /// Puts the writes of this record at the end of `out`.
    pub fn apply_into(&self, out: &mut Vec<String>)
        ensures
            lines(final(out)@) == lines(old(out)@) + self.commands(),
    {
        if let Some(online) = self.online {
            let path = core_file(self.cpu_id, "/online");
            push_line(out, echo(switch_digit(online), path.as_str()));
        }
        assert(lines(out@) =~= lines(old(out)@) + self.online_commands());
        self.write_policy(out);
        self.write_frequencies(out);
        assert(lines(out@) =~= lines(old(out)@) + self.commands());
    }

    /// The writes that enforce this record on its core, in order. An absent field
    /// gives no write.
    pub fn apply(&self) -> (out: Vec<String>)
        ensures
            lines(out@) == self.commands(),
    {
        let mut out: Vec<String> = Vec::new();
        assert(lines(out@) =~= Seq::<Seq<char>>::empty());
        self.apply_into(&mut out);
        assert(lines(out@) =~= self.commands());
        out
    }
}

/// The writes of the records `cores`, one record after the other.
pub open spec fn cores_commands(cores: Seq<CoreSetting>) -> Seq<Seq<char>>
    decreases cores.len(),
{
    if cores.len() == 0 {
        seq![]
    } else {
        cores_commands(cores.drop_last()) + cores.last().commands()
    }
}

/// No two of `cores` are for the same core.
pub open spec fn unique_ids(cores: Seq<CoreSetting>) -> bool {
    forall|i: int, j: int| 0 <= i < j < cores.len() ==> cores[i].cpu_id != cores[j].cpu_id
}

impl CPUCoreSettings {
    /// No record is for the core of another one.
    pub open spec fn wf(&self) -> bool {
        match self.cores {
            Some(cores) => unique_ids(cores@),
            None => true,
        }
    }

    /// Whether no record is for the core of another one.
    pub fn has_unique_ids(&self) -> (unique: bool)
        ensures
            unique == self.wf(),
    {
        match &self.cores {
            None => true,
            Some(cores) => {
                let mut j: usize = 0;
                while j < cores.len()
                    invariant
                        j <= cores@.len(),
                        self.cores == Some(*cores),
                        forall|a: int, b: int|
                            0 <= a < b < j ==> cores@[a].cpu_id != cores@[b].cpu_id,
                    decreases cores@.len() - j,
                {
                    let mut i: usize = 0;
                    while i < j
                        invariant
                            i <= j < cores@.len(),
                            self.cores == Some(*cores),
                            forall|a: int| 0 <= a < i ==> cores@[a].cpu_id != cores@[j as int].cpu_id,
                        decreases j - i,
                    {
                        if cores[i].cpu_id == cores[j].cpu_id {
                            assert(!unique_ids(cores@));
                            return false;
                        }
                        i = i + 1;
                    }
                    j = j + 1;
                }
                true
            },
        }
    }

    /// Without a list nothing is written. With one, even an empty one, every core
    /// is first brought online, and the records follow in their order.
    pub open spec fn commands(&self) -> Seq<Seq<char>> {
        match self.cores {
            Some(cores) => seq![all_cores_online_line()] + cores_commands(cores@),
            None => seq![],
        }
    }

    /// The writes that enforce the overrides for single cores. A record without
    /// `online` cannot say that its core is to stay as the last application left
    /// it, so each application starts from all cores online and lays the
    /// switch-offs over that.
    pub fn apply(&self) -> (out: Vec<String>)
        ensures
            lines(out@) == self.commands(),
    {
        let mut out: Vec<String> = Vec::new();
        assert(lines(out@) =~= Seq::<Seq<char>>::empty());
        match &self.cores {
            None => {},
            Some(cores) => {
                push_line(&mut out, String::from_str("echo 1 > /sys/devices/system/cpu/cpu*/online"));
                let mut i: usize = 0;
                assert(cores@.take(0) =~= Seq::<CoreSetting>::empty());
                while i < cores.len()
                    invariant
                        i <= cores@.len(),
                        lines(out@) =~= seq![all_cores_online_line()] + cores_commands(
                            cores@.take(i as int),
                        ),
                    decreases cores@.len() - i,
                {
                    cores[i].apply_into(&mut out);
                    proof {
                        let next = cores@.take(i + 1);
                        assert(next.drop_last() =~= cores@.take(i as int));
                        assert(next.last() == cores@[i as int]);
                    }
                    i = i + 1;
                }
                assert(cores@.take(i as int) =~= cores@);
            },
        }
        out
    }
}

/// Every full application of the overrides for single cores brings all cores
/// online before it switches one off: whatever the records are and in whatever
/// order they stand, the first write is the reset, and a write that switches a
/// core off stands behind it.
pub proof fn lemma_reset_precedes_switch_offs(settings: CPUCoreSettings, i: int, cpu_id: nat)
    requires
        settings.cores is Some,
        0 <= i < settings.commands().len(),
        settings.commands()[i] == core_online_line(cpu_id, false),
    ensures
        settings.commands()[0] == all_cores_online_line(),
        0 < i,
{
    reveal_strlit("echo 1 > /sys/devices/system/cpu/cpu*/online");
    reveal_strlit("echo ");
    reveal_strlit("0");
    assert(all_cores_online_line()[5] == '1');
    assert(core_online_line(cpu_id, false)[5] == '0');
}

/// The switch of each record is written, and behind the reset: a core that a
/// record switches off is switched off by every full application, and a core
/// whose record lost its switch is left online by the reset.
pub proof fn lemma_switches_follow_reset(settings: CPUCoreSettings, k: int)
    requires
        settings.cores is Some,
        0 <= k < settings.cores->0@.len(),
        settings.cores->0@[k].online is Some,
    ensures
        exists|i: int|
            0 < i < settings.commands().len() && #[trigger] settings.commands()[i]
                == core_online_line(
                settings.cores->0@[k].cpu_id as nat,
                settings.cores->0@[k].online->0,
            ),
{
    let cores = settings.cores->0@;
    lemma_switch_is_written(cores, k);
    let j = choose|j: int|
        0 <= j < cores_commands(cores).len() && #[trigger] cores_commands(cores)[j]
            == core_online_line(cores[k].cpu_id as nat, cores[k].online->0);
    assert(settings.commands()[j + 1] == cores_commands(cores)[j]);
}

/// The switch of each record is among the writes of the records.
pub proof fn lemma_switch_is_written(cores: Seq<CoreSetting>, k: int)
    requires
        0 <= k < cores.len(),
        cores[k].online is Some,
    ensures
        exists|j: int|
            0 <= j < cores_commands(cores).len() && #[trigger] cores_commands(cores)[j]
                == core_online_line(cores[k].cpu_id as nat, cores[k].online->0),
    decreases cores.len(),
{
    let rest = cores.drop_last();
    let wanted = core_online_line(cores[k].cpu_id as nat, cores[k].online->0);
    if k < rest.len() {
        assert(rest[k] == cores[k]);
        lemma_switch_is_written(rest, k);
        let j = choose|j: int|
            0 <= j < cores_commands(rest).len() && #[trigger] cores_commands(rest)[j] == wanted;
        assert(cores_commands(cores)[j] == wanted);
    } else {
        let j = cores_commands(rest).len() as int;
        assert(cores.last().commands()[0] == wanted);
        assert(cores_commands(cores)[j] == wanted);
    }
}

/// What a write of the overrides for single cores does to the cores' being
/// online.
pub enum CoreEffect {
    /// Every core is brought online.
    AllOnline,
    /// The core with this number is switched on, or off.
    Switch(u32, bool),
    /// A knob of a core's frequency scaling is set; no core is switched.
    Knob,
}

/// The line that writes `value` into the file `leaf` of the frequency scaling
/// of the core `cpu_id`.
pub open spec fn knob_line(value: Seq<char>, cpu_id: nat, leaf: Seq<char>) -> Seq<char> {
    echo_line(value, core_path(cpu_id, "/cpufreq/"@ + leaf))
}

/// The line `line` is the write that has the effect `effect`.
pub open spec fn describes(effect: CoreEffect, line: Seq<char>) -> bool {
    match effect {
        CoreEffect::AllOnline => line == all_cores_online_line(),
        CoreEffect::Switch(cpu_id, online) => line == core_online_line(cpu_id as nat, online),
        CoreEffect::Knob => exists|value: Seq<char>, cpu_id: nat, leaf: Seq<char>|
            line == #[trigger] knob_line(value, cpu_id, leaf),
    }
}

/// As many settings of knobs as `count`.
pub open spec fn knobs(count: nat) -> Seq<CoreEffect> {
    Seq::new(count, |i: int| CoreEffect::Knob)
}

impl CoreSetting {
    /// What the writes of this record do, write for write.
    pub open spec fn effects(&self) -> Seq<CoreEffect> {
        (match self.online {
            Some(online) => seq![CoreEffect::Switch(self.cpu_id, online)],
            None => seq![],
        }) + knobs(self.policy_commands().len()) + knobs(self.frequency_commands().len())
    }
}

/// What the writes of the records `cores` do, write for write.
pub open spec fn cores_effects(cores: Seq<CoreSetting>) -> Seq<CoreEffect>
    decreases cores.len(),
{
    if cores.len() == 0 {
        seq![]
    } else {
        cores_effects(cores.drop_last()) + cores.last().effects()
    }
}

impl CPUCoreSettings {
    /// What the writes of a full application do, write for write.
    pub open spec fn effects(&self) -> Seq<CoreEffect> {
        match self.cores {
            Some(cores) => seq![CoreEffect::AllOnline] + cores_effects(cores@),
            None => seq![],
        }
    }
}

/// `lines` are the writes that have the effects `effects`, one for one.
pub open spec fn described(effects: Seq<CoreEffect>, lines: Seq<Seq<char>>) -> bool {
    &&& effects.len() == lines.len()
    &&& forall|i: int| 0 <= i < effects.len() ==> describes(#[trigger] effects[i], lines[i])
}

/// Writes described one after the other are described together.
pub proof fn lemma_described_concat(
    first: Seq<CoreEffect>,
    first_lines: Seq<Seq<char>>,
    second: Seq<CoreEffect>,
    second_lines: Seq<Seq<char>>,
)
    requires
        described(first, first_lines),
        described(second, second_lines),
    ensures
        described(first + second, first_lines + second_lines),
{
    let effects = first + second;
    let lines = first_lines + second_lines;
    assert forall|i: int| 0 <= i < effects.len() implies describes(#[trigger] effects[i], lines[i]) by {
        if i < first.len() {
            assert(describes(first[i], first_lines[i]));
        } else {
            assert(describes(second[i - first.len()], second_lines[i - first.len()]));
        }
    }
}

/// The writes of a record are the switch of its core, where it has one, and
/// settings of knobs.
pub proof fn lemma_record_described(core: CoreSetting)
    ensures
        described(core.effects(), core.commands()),
{
    reveal_strlit("/cpufreq/");
    reveal_strlit("/cpufreq/energy_performance_preference");
    reveal_strlit("energy_performance_preference");
    reveal_strlit("/cpufreq/scaling_governor");
    reveal_strlit("scaling_governor");
    reveal_strlit("/cpufreq/scaling_min_freq");
    reveal_strlit("scaling_min_freq");
    reveal_strlit("/cpufreq/scaling_max_freq");
    reveal_strlit("scaling_max_freq");
    assert("/cpufreq/energy_performance_preference"@ =~= "/cpufreq/"@
        + "energy_performance_preference"@);
    assert("/cpufreq/scaling_governor"@ =~= "/cpufreq/"@ + "scaling_governor"@);
    assert("/cpufreq/scaling_min_freq"@ =~= "/cpufreq/"@ + "scaling_min_freq"@);
    assert("/cpufreq/scaling_max_freq"@ =~= "/cpufreq/"@ + "scaling_max_freq"@);
    let id = core.cpu_id as nat;
    let policy = core.policy_commands();
    assert forall|i: int| 0 <= i < policy.len() implies describes(
        #[trigger] knobs(policy.len())[i],
        policy[i],
    ) by {
        if core.epp is Some && i == 0 {
            assert(policy[i] == knob_line(core.epp->0@, id, "energy_performance_preference"@));
        } else {
            assert(policy[i] == knob_line(core.governor->0@, id, "scaling_governor"@));
        }
    }
    let frequency = core.frequency_commands();
    assert forall|i: int| 0 <= i < frequency.len() implies describes(
        #[trigger] knobs(frequency.len())[i],
        frequency[i],
    ) by {
        if core.min_frequency is Some && i == 0 {
            assert(frequency[i] == knob_line(
                decimal(core.min_frequency->0 as nat),
                id,
                "scaling_min_freq"@,
            ));
        } else {
            assert(frequency[i] == knob_line(
                decimal(core.max_frequency->0 as nat),
                id,
                "scaling_max_freq"@,
            ));
        }
    }
    let switch: Seq<CoreEffect> = match core.online {
        Some(online) => seq![CoreEffect::Switch(core.cpu_id, online)],
        None => seq![],
    };
    assert(described(switch, core.online_commands()));
    lemma_described_concat(switch, core.online_commands(), knobs(policy.len()), policy);
    lemma_described_concat(
        switch + knobs(policy.len()),
        core.online_commands() + policy,
        knobs(frequency.len()),
        frequency,
    );
}

/// The writes of records are what `cores_effects` says, one for one.
pub proof fn lemma_records_described(cores: Seq<CoreSetting>)
    ensures
        described(cores_effects(cores), cores_commands(cores)),
    decreases cores.len(),
{
    if cores.len() > 0 {
        lemma_records_described(cores.drop_last());
        lemma_record_described(cores.last());
        lemma_described_concat(
            cores_effects(cores.drop_last()),
            cores_commands(cores.drop_last()),
            cores.last().effects(),
            cores.last().commands(),
        );
    }
}

/// The writes of a full application are what `effects` says, one for one: the
/// reset, then for each record the switch of its core, where it has one, and
/// settings of knobs.
pub proof fn lemma_effects_describe_commands(settings: CPUCoreSettings)
    ensures
        described(settings.effects(), settings.commands()),
{
    match settings.cores {
        Some(cores) => {
            lemma_records_described(cores@);
            assert(described(seq![CoreEffect::AllOnline], seq![all_cores_online_line()]));
            lemma_described_concat(
                seq![CoreEffect::AllOnline],
                seq![all_cores_online_line()],
                cores_effects(cores@),
                cores_commands(cores@),
            );
        },
        None => {},
    }
}

/// Whether the core `cpu_id` is online after writes with the effects `effects`,
/// all of which succeed, where it was online as `before` says: the last write
/// that reaches the core decides.
pub open spec fn online_after(effects: Seq<CoreEffect>, cpu_id: u32, before: bool) -> bool
    decreases effects.len(),
{
    if effects.len() == 0 {
        before
    } else {
        match effects.last() {
            CoreEffect::AllOnline => true,
            CoreEffect::Switch(switched, online) => if switched == cpu_id {
                online
            } else {
                online_after(effects.drop_last(), cpu_id, before)
            },
            CoreEffect::Knob => online_after(effects.drop_last(), cpu_id, before),
        }
    }
}

/// One of `cores` switches the core `cpu_id` off.
pub open spec fn switched_off(cores: Seq<CoreSetting>, cpu_id: u32) -> bool {
    exists|k: int|
        0 <= k < cores.len() && (#[trigger] cores[k]).cpu_id == cpu_id && cores[k].online == Some(
            false,
        )
}

/// Settings of knobs switch no core.
pub proof fn lemma_knobs_switch_nothing(effects: Seq<CoreEffect>, count: nat, cpu_id: u32, before: bool)
    ensures
        online_after(effects + knobs(count), cpu_id, before) == online_after(effects, cpu_id, before),
    decreases count,
{
    if count == 0 {
        assert(effects + knobs(count) =~= effects);
    } else {
        let fewer = (count - 1) as nat;
        let all = effects + knobs(count);
        assert(all.last() == CoreEffect::Knob);
        assert(all.drop_last() =~= effects + knobs(fewer));
        lemma_knobs_switch_nothing(effects, fewer, cpu_id, before);
    }
}

/// After the writes of a record its core is as its switch says; every other
/// core, and its own where it has no switch, is as before them.
pub proof fn lemma_record_switches_its_core(
    effects: Seq<CoreEffect>,
    core: CoreSetting,
    cpu_id: u32,
    before: bool,
)
    ensures
        online_after(effects + core.effects(), cpu_id, before) == if core.cpu_id == cpu_id
            && core.online is Some {
            core.online->0
        } else {
            online_after(effects, cpu_id, before)
        },
{
    let switch: Seq<CoreEffect> = match core.online {
        Some(online) => seq![CoreEffect::Switch(core.cpu_id, online)],
        None => seq![],
    };
    let policy = core.policy_commands().len();
    let frequency = core.frequency_commands().len();
    assert(effects + core.effects() =~= effects + switch + knobs(policy) + knobs(frequency));
    lemma_knobs_switch_nothing(effects + switch + knobs(policy), frequency, cpu_id, before);
    lemma_knobs_switch_nothing(effects + switch, policy, cpu_id, before);
    if core.online is Some {
        assert((effects + switch).last() == switch[0]);
        assert((effects + switch).drop_last() =~= effects);
    } else {
        assert(effects + switch =~= effects);
    }
}

/// After the reset and the writes of records of which no two are for one core,
/// a core is offline exactly if one of the records switches it off.
pub proof fn lemma_records_leave_offline(cores: Seq<CoreSetting>, cpu_id: u32, before: bool)
    requires
        unique_ids(cores),
    ensures
        online_after(seq![CoreEffect::AllOnline] + cores_effects(cores), cpu_id, before)
            == !switched_off(cores, cpu_id),
    decreases cores.len(),
{
    let reset = seq![CoreEffect::AllOnline];
    if cores.len() == 0 {
        assert(reset + cores_effects(cores) =~= reset);
        assert(reset.last() == CoreEffect::AllOnline);
    } else {
        let rest = cores.drop_last();
        let last = cores.last();
        lemma_records_leave_offline(rest, cpu_id, before);
        assert(reset + cores_effects(cores) =~= reset + cores_effects(rest) + last.effects());
        lemma_record_switches_its_core(reset + cores_effects(rest), last, cpu_id, before);
        assert forall|k: int| 0 <= k < rest.len() implies rest[k] == cores[k] by {}
        if last.cpu_id == cpu_id {
            assert forall|k: int| 0 <= k < rest.len() implies (#[trigger] rest[k]).cpu_id
                != cpu_id by {
                assert(cores[k].cpu_id != cores[cores.len() - 1].cpu_id);
            }
            assert(!switched_off(rest, cpu_id));
            if last.online == Some(false) {
                assert(cores[cores.len() - 1].cpu_id == cpu_id);
                assert(switched_off(cores, cpu_id));
            } else {
                assert forall|k: int| 0 <= k < cores.len() implies !((#[trigger] cores[k]).cpu_id
                    == cpu_id && cores[k].online == Some(false)) by {
                    if k < rest.len() {
                        assert(rest[k].cpu_id != cpu_id);
                    }
                }
            }
        } else {
            if switched_off(rest, cpu_id) {
                let k = choose|k: int|
                    0 <= k < rest.len() && (#[trigger] rest[k]).cpu_id == cpu_id && rest[k].online
                        == Some(false);
                assert(cores[k].cpu_id == cpu_id);
            }
            if switched_off(cores, cpu_id) {
                let k = choose|k: int|
                    0 <= k < cores.len() && (#[trigger] cores[k]).cpu_id == cpu_id
                        && cores[k].online == Some(false);
                assert(rest[k].cpu_id == cpu_id);
            }
        }
    }
}

/// After a full application of overrides of which no two are for one core,
/// with every write succeeding and whatever the cores were before, the cores
/// that are offline are those that a record switches off, and every other core
/// is online.
pub proof fn lemma_offline_cores(settings: CPUCoreSettings, cpu_id: u32, before: bool)
    requires
        settings.cores is Some,
        settings.wf(),
    ensures
        described(settings.effects(), settings.commands()),
        online_after(settings.effects(), cpu_id, before) == !switched_off(
            settings.cores->0@,
            cpu_id,
        ),
{
    lemma_effects_describe_commands(settings);
    lemma_records_leave_offline(settings.cores->0@, cpu_id, before);
}

/// The cores that a full application leaves offline are the same for every
/// order of the records, and whatever the cores were before: two lists of
/// overrides that hold the same records leave each core the same.
pub proof fn lemma_offline_cores_in_any_order(
    first: CPUCoreSettings,
    second: CPUCoreSettings,
    cpu_id: u32,
    before_first: bool,
    before_second: bool,
)
    requires
        first.cores is Some,
        second.cores is Some,
        first.wf(),
        second.wf(),
        forall|record: CoreSetting|
            first.cores->0@.contains(record) <==> second.cores->0@.contains(record),
    ensures
        online_after(first.effects(), cpu_id, before_first) == online_after(
            second.effects(),
            cpu_id,
            before_second,
        ),
{
    let one = first.cores->0@;
    let other = second.cores->0@;
    lemma_records_leave_offline(one, cpu_id, before_first);
    lemma_records_leave_offline(other, cpu_id, before_second);
    if switched_off(one, cpu_id) {
        let k = choose|k: int|
            0 <= k < one.len() && (#[trigger] one[k]).cpu_id == cpu_id && one[k].online == Some(
                false,
            );
        assert(one.contains(one[k]));
        let j = choose|j: int| 0 <= j < other.len() && other[j] == one[k];
        assert(other[j].cpu_id == cpu_id);
    }
    if switched_off(other, cpu_id) {
        let k = choose|k: int|
            0 <= k < other.len() && (#[trigger] other[k]).cpu_id == cpu_id && other[k].online
                == Some(false);
        assert(other.contains(other[k]));
        let j = choose|j: int| 0 <= j < one.len() && one[j] == other[k];
        assert(one[j].cpu_id == cpu_id);
    }
}

} // verus!
