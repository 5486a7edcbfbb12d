//! Applying a profile: all of it, or the part that a change touched.

use vstd::prelude::*;
use crate::cpu::CpuDrivers;
use vstd::string::StringExecFns;
use crate::cpu_cores::{all_cores_online_line, core_online_line, cores_commands, CoreSetting};
use crate::devices::UsbDevice;
use crate::network::NetworkProbe;
use crate::outcome::{agrees, ApplyError};
use crate::profile::Profile;
use crate::text::{lemma_lines_concat, lines, push_line};

verus! {

/// What a machine shows of itself, taken before a profile is applied.
#[derive(Debug, Clone, PartialEq)]
pub struct SystemProbe {
    pub cpu_drivers: CpuDrivers,
    pub network: NetworkProbe,
    /// The names under `/sys/bus/pci/devices`; `None` where they could not be
    /// listed.
    pub pci_devices: Option<Vec<String>>,
    /// The entries under `/sys/bus/usb/devices`; `None` where they could not be
    /// listed.
    pub usb_devices: Option<Vec<UsbDevice>>,
    /// The names under `/sys/class/scsi_host`; `None` where they could not be
    /// listed.
    pub sata_hosts: Option<Vec<String>>,
}

/// The categories of settings, in the order in which a profile is applied.
#[derive(Debug, Clone, Copy, PartialEq, Eq, Structural)]
pub enum Category {
    CPU,
    CPUCores,
    Screen,
    Radio,
    Network,
    ASPM,
    PCI,
    USB,
    SATA,
    Kernel,
}

/// The part of a profile that is to be applied.
#[derive(Debug, Clone, PartialEq, Eq)]
pub enum ReducedUpdate {
    /// The whole profile.
    All,
    CPU,
    /// The overrides for single cores, all of them.
    CPUCores,
    /// The override at this index of the profile's list.
    SingleCPUCore(u32),
    /// The overrides at these indices of the profile's list, in this order.
    MultipleCPUCores(Vec<u32>),
    Screen,
    Radio,
    Network,
    ASPM,
    PCI,
    USB,
    SATA,
    Kernel,
}

/// Which parts of a `SystemProbe` an application looks at.
#[derive(Debug, Clone, Copy, PartialEq, Eq)]
pub struct ProbePlan {
    pub cpu_drivers: bool,
    pub network: bool,
    pub pci_devices: bool,
    pub usb_devices: bool,
    pub sata_hosts: bool,
}

/// The two probes show the same in the parts that `plan` names.
pub open spec fn agree_on(plan: ProbePlan, first: SystemProbe, second: SystemProbe) -> bool {
    &&& plan.cpu_drivers ==> first.cpu_drivers == second.cpu_drivers
    &&& plan.network ==> first.network == second.network
    &&& plan.pci_devices ==> first.pci_devices == second.pci_devices
    &&& plan.usb_devices ==> first.usb_devices == second.usb_devices
    &&& plan.sata_hosts ==> first.sata_hosts == second.sata_hosts
}

/// What applying comes to: the lines to run, and the categories that could not
/// be applied.
#[derive(Debug, Clone, PartialEq)]
pub struct ApplyReport {
    /// The lines to run, in order. A line that fails when it is run does not
    /// stop those behind it.
    pub commands: Vec<String>,
    /// The categories that were given up as a whole, each with its fault, in the
    /// order of application. They have no line among `commands`.
    pub failed: Vec<(Category, ApplyError)>,
}

impl Profile {
    /// What applying the settings of `category` comes to on a machine that shows
    /// `probe`.
    pub open spec fn outcome(&self, category: Category, probe: SystemProbe) -> Result<
        Seq<Seq<char>>,
        ApplyError,
    > {
        match category {
            Category::CPU => Ok(self.cpu_settings.commands(probe.cpu_drivers)),
            Category::CPUCores => Ok(self.cpu_core_settings.commands()),
            Category::Screen => Ok(self.screen_settings.commands()),
            Category::Radio => Ok(self.radio_settings.commands()),
            Category::Network => self.network_settings.outcome(probe.network),
            Category::ASPM => Ok(self.aspm_settings.commands()),
            Category::PCI => self.pci_settings.outcome(probe.pci_devices),
            Category::USB => self.usb_settings.outcome(probe.usb_devices),
            Category::SATA => self.sata_settings.outcome(probe.sata_hosts),
            Category::Kernel => Ok(self.kernel_settings.commands()),
        }
    }

    /// The lines that applying `category` adds: its writes, or none where it is
    /// given up.
    pub open spec fn commands(&self, category: Category, probe: SystemProbe) -> Seq<Seq<char>> {
        match self.outcome(category, probe) {
            Ok(written) => written,
            Err(_) => seq![],
        }
    }

    /// The entry that applying `category` adds to the categories given up.
    pub open spec fn failures(&self, category: Category, probe: SystemProbe) -> Seq<
        (Category, ApplyError),
    > {
        match self.outcome(category, probe) {
            Ok(_) => seq![],
            Err(fault) => seq![(category, fault)],
        }
    }

    /// Applies `category` and adds what it comes to at the end of `report`.
    pub fn apply_category(&self, category: Category, probe: &SystemProbe, report: &mut ApplyReport)
        ensures
            lines(final(report).commands@) == lines(old(report).commands@) + self.commands(
                category,
                *probe,
            ),
            final(report).failed@ == old(report).failed@ + self.failures(category, *probe),
    {
        let outcome: Result<Vec<String>, ApplyError> = match category {
            Category::CPU => Ok(self.cpu_settings.apply(&probe.cpu_drivers)),
            Category::CPUCores => Ok(self.cpu_core_settings.apply()),
            Category::Screen => Ok(self.screen_settings.apply()),
            Category::Radio => Ok(self.radio_settings.apply()),
            Category::Network => self.network_settings.apply(&probe.network),
            Category::ASPM => Ok(self.aspm_settings.apply()),
            Category::PCI => self.pci_settings.apply(&probe.pci_devices),
            Category::USB => self.usb_settings.apply(&probe.usb_devices),
            Category::SATA => self.sata_settings.apply(&probe.sata_hosts),
            Category::Kernel => Ok(self.kernel_settings.apply()),
        };
        assert(agrees(outcome, self.outcome(category, *probe)));
        match outcome {
            Ok(mut written) => {
                proof {
                    lemma_lines_concat(report.commands@, written@);
                }
                report.commands.append(&mut written);
                assert(report.failed@ =~= old(report).failed@ + self.failures(category, *probe));
            },
            Err(fault) => {
                report.failed.push((category, fault));
                assert(lines(report.commands@) =~= lines(old(report).commands@) + self.commands(
                    category,
                    *probe,
                ));
                assert(report.failed@ =~= old(report).failed@ + self.failures(category, *probe));
            },
        }
    }
}

/// The writes of the records of `cores` at `indices`, in the order of `indices`.
pub open spec fn picked_commands(cores: Seq<CoreSetting>, indices: Seq<u32>) -> Seq<Seq<char>>
    decreases indices.len(),
{
    if indices.len() == 0 {
        seq![]
    } else {
        picked_commands(cores, indices.drop_last()) + cores[indices.last() as int].commands()
    }
}

impl ReducedUpdate {
    /// The indices that the update names are indices of the profile's list of
    /// overrides for single cores, where it has one.
    pub open spec fn valid_for(&self, profile: Profile) -> bool {
        match profile.cpu_core_settings.cores {
            None => true,
            Some(cores) => match *self {
                ReducedUpdate::SingleCPUCore(index) => index < cores@.len(),
                ReducedUpdate::MultipleCPUCores(indices) => forall|k: int|
                    0 <= k < indices@.len() ==> (#[trigger] indices@[k]) < cores@.len(),
                _ => true,
            },
        }
    }

    /// The category that the update stands for, where it stands for one.
    pub open spec fn category(&self) -> Option<Category> {
        match *self {
            ReducedUpdate::CPU => Some(Category::CPU),
            ReducedUpdate::CPUCores => Some(Category::CPUCores),
            ReducedUpdate::Screen => Some(Category::Screen),
            ReducedUpdate::Radio => Some(Category::Radio),
            ReducedUpdate::Network => Some(Category::Network),
            ReducedUpdate::ASPM => Some(Category::ASPM),
            ReducedUpdate::PCI => Some(Category::PCI),
            ReducedUpdate::USB => Some(Category::USB),
            ReducedUpdate::SATA => Some(Category::SATA),
            ReducedUpdate::Kernel => Some(Category::Kernel),
            _ => None,
        }
    }

    /// The parts of the machine that applying this update looks at: for a
    /// category its own part, for the whole profile all of them, for single
    /// cores none.
    pub open spec fn needs(&self) -> ProbePlan {
        let all = *self is All;
        ProbePlan {
            cpu_drivers: all || *self is CPU,
            network: all || *self is Network,
            pci_devices: all || *self is PCI,
            usb_devices: all || *self is USB,
            sata_hosts: all || *self is SATA,
        }
    }

    /// Says which parts of the machine have to be looked at before this update
    /// is applied.
    pub fn probe_plan(&self) -> (plan: ProbePlan)
        ensures
            plan == self.needs(),
    {
        let all = matches!(self, ReducedUpdate::All);
        ProbePlan {
            cpu_drivers: all || matches!(self, ReducedUpdate::CPU),
            network: all || matches!(self, ReducedUpdate::Network),
            pci_devices: all || matches!(self, ReducedUpdate::PCI),
            usb_devices: all || matches!(self, ReducedUpdate::USB),
            sata_hosts: all || matches!(self, ReducedUpdate::SATA),
        }
    }

    /// Whether `apply_reduced` can take this update for `profile`.
    pub fn is_valid_for(&self, profile: &Profile) -> (valid: bool)
        ensures
            valid == self.valid_for(*profile),
    {
        match &profile.cpu_core_settings.cores {
            None => true,
            Some(cores) => match self {
                ReducedUpdate::SingleCPUCore(index) => (*index as usize) < cores.len(),
                ReducedUpdate::MultipleCPUCores(indices) => {
                    let mut k: usize = 0;
                    while k < indices.len()
                        invariant
                            k <= indices@.len(),
                            *self == ReducedUpdate::MultipleCPUCores(*indices),
                            profile.cpu_core_settings.cores == Some(*cores),
                            forall|j: int| 0 <= j < k ==> (#[trigger] indices@[j]) < cores@.len(),
                        decreases indices@.len() - k,
                    {
                        if indices[k] as usize >= cores.len() {
                            assert(!(indices@[k as int] < cores@.len()));
                            assert(profile.cpu_core_settings.cores matches Some(list) && list@
                                == cores@);
                            assert(*self matches ReducedUpdate::MultipleCPUCores(named) && named@
                                == indices@);
                            return false;
                        }
                        k = k + 1;
                    }
                    true
                },
                _ => true,
            },
        }
    }
}

impl Profile {
    /// The lines of a full application: those of each category, in the order of
    /// the categories.
    pub open spec fn all_commands(&self, probe: SystemProbe) -> Seq<Seq<char>> {
        self.commands(Category::CPU, probe) + self.commands(Category::CPUCores, probe)
            + self.commands(Category::Screen, probe) + self.commands(Category::Radio, probe)
            + self.commands(Category::Network, probe) + self.commands(Category::ASPM, probe)
            + self.commands(Category::PCI, probe) + self.commands(Category::USB, probe)
            + self.commands(Category::SATA, probe) + self.commands(Category::Kernel, probe)
    }

    /// The categories that a full application gives up, in their order.
    pub open spec fn all_failures(&self, probe: SystemProbe) -> Seq<(Category, ApplyError)> {
        self.failures(Category::CPU, probe) + self.failures(Category::CPUCores, probe)
            + self.failures(Category::Screen, probe) + self.failures(Category::Radio, probe)
            + self.failures(Category::Network, probe) + self.failures(Category::ASPM, probe)
            + self.failures(Category::PCI, probe) + self.failures(Category::USB, probe)
            + self.failures(Category::SATA, probe) + self.failures(Category::Kernel, probe)
    }

    /// The lines that applying the part `update` comes to: for a category what a
    /// full application writes for it; for single cores the reset that brings
    /// every core online, as it stands before all overrides together, and then
    /// the writes of the records that are named. Without a list of overrides
    /// nothing is written for single cores.
    pub open spec fn reduced_commands(&self, update: ReducedUpdate, probe: SystemProbe) -> Seq<
        Seq<char>,
    > {
        match update {
            ReducedUpdate::All => self.all_commands(probe),
            ReducedUpdate::SingleCPUCore(index) => match self.cpu_core_settings.cores {
                Some(cores) => seq![all_cores_online_line()] + cores@[index as int].commands(),
                None => seq![],
            },
            ReducedUpdate::MultipleCPUCores(indices) => match self.cpu_core_settings.cores {
                Some(cores) => seq![all_cores_online_line()] + picked_commands(cores@, indices@),
                None => seq![],
            },
            _ => self.commands(update.category()->0, probe),
        }
    }

    /// The categories that applying the part `update` gives up.
    pub open spec fn reduced_failures(&self, update: ReducedUpdate, probe: SystemProbe) -> Seq<
        (Category, ApplyError),
    > {
        match update {
            ReducedUpdate::All => self.all_failures(probe),
            ReducedUpdate::SingleCPUCore(_) => seq![],
            ReducedUpdate::MultipleCPUCores(_) => seq![],
            _ => self.failures(update.category()->0, probe),
        }
    }

    /// Applies every category, in their fixed order, on a machine that shows
    /// `probe`. A category that is given up does not stop those behind it.
    pub fn apply_all(&self, probe: &SystemProbe) -> (report: ApplyReport)
        ensures
            lines(report.commands@) == self.all_commands(*probe),
            report.failed@ == self.all_failures(*probe),
    {
        let mut report = ApplyReport { commands: Vec::new(), failed: Vec::new() };
        assert(lines(report.commands@) =~= Seq::<Seq<char>>::empty());
        self.apply_category(Category::CPU, probe, &mut report);
        self.apply_category(Category::CPUCores, probe, &mut report);
        self.apply_category(Category::Screen, probe, &mut report);
        self.apply_category(Category::Radio, probe, &mut report);
        self.apply_category(Category::Network, probe, &mut report);
        self.apply_category(Category::ASPM, probe, &mut report);
        self.apply_category(Category::PCI, probe, &mut report);
        self.apply_category(Category::USB, probe, &mut report);
        self.apply_category(Category::SATA, probe, &mut report);
        self.apply_category(Category::Kernel, probe, &mut report);
        assert(lines(report.commands@) =~= self.all_commands(*probe));
        assert(report.failed@ =~= self.all_failures(*probe));
        report
    }

    /// Applies the part `reduced_update` of the profile, and nothing else: a
    /// category gives what it gives in a full application, and the overrides for
    /// single cores that are named give their own writes behind the reset that
    /// brings every core online, so that no switch-off is written before it.
    pub fn apply_reduced(&self, reduced_update: &ReducedUpdate, probe: &SystemProbe) -> (report:
        ApplyReport)
        requires
            reduced_update.valid_for(*self),
        ensures
            lines(report.commands@) == self.reduced_commands(*reduced_update, *probe),
            report.failed@ == self.reduced_failures(*reduced_update, *probe),
    {
        let mut report = ApplyReport { commands: Vec::new(), failed: Vec::new() };
        assert(lines(report.commands@) =~= Seq::<Seq<char>>::empty());
        match reduced_update {
            ReducedUpdate::All => {
                return self.apply_all(probe);
            },
            ReducedUpdate::CPU => self.apply_category(Category::CPU, probe, &mut report),
            ReducedUpdate::CPUCores => self.apply_category(Category::CPUCores, probe, &mut report),
            ReducedUpdate::SingleCPUCore(index) => {
                if let Some(cores) = &self.cpu_core_settings.cores {
                    push_line(
                        &mut report.commands,
                        String::from_str("echo 1 > /sys/devices/system/cpu/cpu*/online"),
                    );
                    cores[*index as usize].apply_into(&mut report.commands);
                }
            },
            ReducedUpdate::MultipleCPUCores(indices) => {
                if let Some(cores) = &self.cpu_core_settings.cores {
                    push_line(
                        &mut report.commands,
                        String::from_str("echo 1 > /sys/devices/system/cpu/cpu*/online"),
                    );
                    let mut k: usize = 0;
                    assert(indices@.take(0) =~= Seq::<u32>::empty());
                    while k < indices.len()
                        invariant
                            k <= indices@.len(),
                            forall|j: int|
                                0 <= j < indices@.len() ==> (#[trigger] indices@[j]) < cores@.len(),
                            lines(report.commands@) =~= seq![all_cores_online_line()]
                                + picked_commands(cores@, indices@.take(k as int)),
                            report.failed@ =~= Seq::<(Category, ApplyError)>::empty(),
                        decreases indices@.len() - k,
                    {
                        proof {
                            let next = indices@.take(k + 1);
                            assert(next.drop_last() =~= indices@.take(k as int));
                            assert(next.last() == indices@[k as int]);
                        }
                        cores[indices[k] as usize].apply_into(&mut report.commands);
                        k = k + 1;
                    }
                    assert(indices@.take(k as int) =~= indices@);
                }
            },
            ReducedUpdate::Screen => self.apply_category(Category::Screen, probe, &mut report),
            ReducedUpdate::Radio => self.apply_category(Category::Radio, probe, &mut report),
            ReducedUpdate::Network => self.apply_category(Category::Network, probe, &mut report),
            ReducedUpdate::ASPM => self.apply_category(Category::ASPM, probe, &mut report),
            ReducedUpdate::PCI => self.apply_category(Category::PCI, probe, &mut report),
            ReducedUpdate::USB => self.apply_category(Category::USB, probe, &mut report),
            ReducedUpdate::SATA => self.apply_category(Category::SATA, probe, &mut report),
            ReducedUpdate::Kernel => self.apply_category(Category::Kernel, probe, &mut report),
        }
        assert(lines(report.commands@) =~= self.reduced_commands(*reduced_update, *probe));
        assert(report.failed@ =~= self.reduced_failures(*reduced_update, *probe));
        report
    }
}

/// Applying the same profile twice on a machine that shows the same gives the
/// same lines and gives up the same categories both times: what is written
/// goes by the settings and by what the machine shows, never by what was
/// written before.
pub proof fn lemma_apply_twice_gives_the_same(
    profile: Profile,
    probe: SystemProbe,
    first: ApplyReport,
    second: ApplyReport,
)
    requires
        lines(first.commands@) == profile.all_commands(probe),
        first.failed@ == profile.all_failures(probe),
        lines(second.commands@) == profile.all_commands(probe),
        second.failed@ == profile.all_failures(probe),
    ensures
        lines(first.commands@) == lines(second.commands@),
        first.failed@ == second.failed@,
{
}

/// Applying the overrides of all cores by their indices, in the order of the
/// list, writes what applying the category of them writes: the part for single
/// cores misses nothing of the whole, the reset included.
pub proof fn lemma_all_cores_one_by_one(profile: Profile, probe: SystemProbe, indices: Vec<u32>)
    requires
        profile.cpu_core_settings.cores is Some,
        indices@.len() == profile.cpu_core_settings.cores->0@.len(),
        forall|k: int| 0 <= k < indices@.len() ==> (#[trigger] indices@[k]) == k,
    ensures
        profile.reduced_commands(ReducedUpdate::MultipleCPUCores(indices), probe)
            == profile.reduced_commands(ReducedUpdate::CPUCores, probe),
{
    lemma_picked_in_order(profile.cpu_core_settings.cores->0@, indices@);
}

/// In every application of overrides for single cores, of one, of some or of
/// all of them, the first write brings every core online, and a write that
/// switches a core off stands behind it.
pub proof fn lemma_reduced_reset_precedes_switch_offs(
    profile: Profile,
    update: ReducedUpdate,
    probe: SystemProbe,
    i: int,
    cpu_id: nat,
)
    requires
        profile.cpu_core_settings.cores is Some,
        update is SingleCPUCore || update is MultipleCPUCores || update is CPUCores,
        0 <= i < profile.reduced_commands(update, probe).len(),
        profile.reduced_commands(update, probe)[i] == core_online_line(cpu_id, false),
    ensures
        profile.reduced_commands(update, probe)[0] == all_cores_online_line(),
        0 < i,
{
    reveal_strlit("echo 1 > /sys/devices/system/cpu/cpu*/online");
    reveal_strlit("echo ");
    reveal_strlit("0");
    assert(all_cores_online_line()[5] == '1');
    assert(core_online_line(cpu_id, false)[5] == '0');
}

/// The records picked by the indices from the first to the last are the records
/// in their order.
pub proof fn lemma_picked_in_order(cores: Seq<CoreSetting>, indices: Seq<u32>)
    requires
        indices.len() == cores.len(),
        forall|k: int| 0 <= k < indices.len() ==> (#[trigger] indices[k]) == k,
    ensures
        picked_commands(cores, indices) == cores_commands(cores),
    decreases indices.len(),
{
    if indices.len() > 0 {
        let fewer = indices.drop_last();
        let rest = cores.drop_last();
        assert forall|k: int| 0 <= k < fewer.len() implies (#[trigger] fewer[k]) == k by {
            assert(fewer[k] == indices[k]);
        }
        lemma_picked_in_order(rest, fewer);
        lemma_picked_prefix(cores, rest, fewer);
        assert(cores[indices.last() as int] == cores.last());
    }
}

/// Records that are picked from the front of a list are the same whether the
/// list goes on behind them or not.
pub proof fn lemma_picked_prefix(cores: Seq<CoreSetting>, front: Seq<CoreSetting>, indices: Seq<u32>)
    requires
        front.len() <= cores.len(),
        forall|i: int| 0 <= i < front.len() ==> front[i] == cores[i],
        forall|k: int| 0 <= k < indices.len() ==> (#[trigger] indices[k]) < front.len(),
    ensures
        picked_commands(cores, indices) == picked_commands(front, indices),
    decreases indices.len(),
{
    if indices.len() > 0 {
        let fewer = indices.drop_last();
        assert forall|k: int| 0 <= k < fewer.len() implies (#[trigger] fewer[k]) < front.len() by {
            assert(fewer[k] == indices[k]);
        }
        lemma_picked_prefix(cores, front, fewer);
        assert(indices[indices.len() - 1] < front.len());
    }
}

/// What applying a part of a profile comes to goes by the parts of the machine
/// that the part needs, and by nothing else that the machine shows.
pub proof fn lemma_unplanned_parts_play_no_part(
    profile: Profile,
    update: ReducedUpdate,
    first: SystemProbe,
    second: SystemProbe,
)
    requires
        agree_on(update.needs(), first, second),
    ensures
        profile.reduced_commands(update, first) == profile.reduced_commands(update, second),
        profile.reduced_failures(update, first) == profile.reduced_failures(update, second),
{
}

} // verus!
