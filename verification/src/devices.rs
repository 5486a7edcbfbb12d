//! Runtime power management of PCI, USB and SATA devices.

use vstd::prelude::*;
use vstd::string::StringExecFns;
use crate::outcome::{agrees, ApplyError};
use crate::policy::{decision, DeviceKey, WhiteBlackList};
use crate::text::{
    choice, contains_text, echo, echo_line, has_substring, lines, present_lines, push_line,
    starts_with, strip_prefix, trim, trimmed,
};

verus! {

/// The word that switches runtime power management: `auto` hands the device to
/// the kernel, `on` keeps it powered.
pub open spec fn power_control_word(enable: bool) -> Seq<char> {
    choice(enable, "auto"@, "on"@)
}

fn power_control(enable: bool) -> (word: &'static str)
    ensures
        word@ == power_control_word(enable),
{
    if enable {
        "auto"
    } else {
        "on"
    }
}

/// What a profile enforces on PCI devices.
#[derive(Debug, Clone, PartialEq)]
pub struct PCISettings {
    /// What holds for a device where there is no list.
    pub enable_power_management: bool,
    /// Devices by their name under `/sys/bus/pci/devices`, without the leading
    /// `0000:`.
    pub whiteblacklist: Option<WhiteBlackList<String>>,
}

impl PCISettings {
    /// The name of the entry `entry` as lists give it: what follows the domain.
    pub open spec fn device_name(entry: Seq<char>) -> Seq<char> {
        entry.subrange("0000:"@.len() as int, entry.len() as int)
    }

    /// The write for the device with the entry `entry`.
    pub open spec fn line(&self, entry: Seq<char>) -> Seq<char> {
        let enable = decision(
            WhiteBlackList::<String>::model(self.whiteblacklist),
            seq![Self::device_name(entry)],
            self.enable_power_management,
        );
        echo_line(
            power_control_word(enable),
            "/sys/bus/pci/devices/"@ + entry + "/power/control"@,
        )
    }

    /// What applying these settings comes to where `entries` are the names under
    /// `/sys/bus/pci/devices`: one write for each device, in their order.
    pub open spec fn outcome(&self, entries: Option<Vec<String>>) -> Result<
        Seq<Seq<char>>,
        ApplyError,
    > {
        match entries {
            None => Err(ApplyError::Unlisted),
            Some(entries) => {
                let names = lines(entries@);
                if forall|i: int| 0 <= i < names.len() ==> starts_with(#[trigger] names[i], "0000:"@) {
                    Ok(Seq::new(names.len(), |i: int| self.line(names[i])))
                } else {
                    Err(ApplyError::Unidentified)
                }
            },
        }
    }

    /// The writes that enforce these settings on the devices with the names
    /// `entries`. Fails, with nothing to run, where the devices could not be
    /// listed (`None`) or one of them has a name without the domain.
    pub fn apply(&self, entries: &Option<Vec<String>>) -> (out: Result<Vec<String>, ApplyError>)
        ensures
            agrees(out, self.outcome(*entries)),
    {
        match entries {
            None => Err(ApplyError::Unlisted),
            Some(listed) => {
                let mut written: Vec<String> = Vec::new();
                let mut i: usize = 0;
                let ghost names = lines(listed@);
                while i < listed.len()
                    invariant
                        i <= listed@.len(),
                        *entries == Some(*listed),
                        names == lines(listed@),
                        forall|j: int| 0 <= j < i ==> starts_with(#[trigger] names[j], "0000:"@),
                        lines(written@) =~= Seq::new(i as nat, |j: int| self.line(names[j])),
                    decreases listed@.len() - i,
                {
                    assert(names[i as int] == listed@[i as int]@);
                    match strip_prefix(listed[i].as_str(), "0000:") {
                        None => {
                            assert(!starts_with(names[i as int], "0000:"@));
                            return Err(ApplyError::Unidentified);
                        },
                        Some(name) => {
                            let key = String::from_str(name);
                            let enable = WhiteBlackList::should_enable_item(
                                &self.whiteblacklist,
                                &key,
                                self.enable_power_management,
                            );
                            let mut path = String::from_str("/sys/bus/pci/devices/");
                            path.append(listed[i].as_str());
                            path.append("/power/control");
                            push_line(&mut written, echo(power_control(enable), path.as_str()));
                        },
                    }
                    i = i + 1;
                }
                Ok(written)
            },
        }
    }
}

/// An entry under `/sys/bus/usb/devices`.
#[derive(Debug, Clone, PartialEq)]
pub struct UsbDevice {
    /// The name of the entry.
    pub name: String,
    /// What its file `idVendor` holds; `None` where it could not be read.
    pub vendor_id: Option<String>,
    /// What its file `idProduct` holds; `None` where it could not be read.
    pub product_id: Option<String>,
}

impl UsbDevice {
    /// Entries with a colon in the name are interfaces and hubs, which have no
    /// identifiers and are passed over.
    pub open spec fn is_interface(&self) -> bool {
        has_substring(self.name@, ":"@)
    }

    /// The entry is passed over, or both of its identifiers were read.
    pub open spec fn identified(&self) -> bool {
        self.is_interface() || (self.vendor_id is Some && self.product_id is Some)
    }
}

/// What a profile enforces on USB devices.
#[derive(Debug, Clone, PartialEq)]
pub struct USBSettings {
    /// What holds for a device where there is no list.
    pub enable_power_management: bool,
    /// Devices by the identifiers of vendor and product.
    pub whiteblacklist: Option<WhiteBlackList<(String, String)>>,
}

impl USBSettings {
    /// The write for `device`, if it is one to write for. The device is looked
    /// up by its two identifiers, without the white space that their files hold
    /// around them.
    pub open spec fn line(&self, device: UsbDevice) -> Option<Seq<char>> {
        if device.is_interface() {
            None
        } else {
            let enable = decision(
                WhiteBlackList::<(String, String)>::model(self.whiteblacklist),
                seq![trimmed(device.vendor_id->0@), trimmed(device.product_id->0@)],
                self.enable_power_management,
            );
            Some(
                echo_line(
                    power_control_word(enable),
                    "/sys/bus/usb/devices/"@ + device.name@ + "/power/control"@,
                ),
            )
        }
    }

    /// What applying these settings comes to where `devices` are the entries
    /// under `/sys/bus/usb/devices`: one write for each device that is no
    /// interface, in their order.
    pub open spec fn outcome(&self, devices: Option<Vec<UsbDevice>>) -> Result<
        Seq<Seq<char>>,
        ApplyError,
    > {
        match devices {
            None => Err(ApplyError::Unlisted),
            Some(devices) => {
                if forall|i: int| 0 <= i < devices@.len() ==> (#[trigger] devices@[i]).identified() {
                    Ok(present_lines(Seq::new(devices@.len(), |i: int| self.line(devices@[i]))))
                } else {
                    Err(ApplyError::Unidentified)
                }
            },
        }
    }

    /// The writes that enforce these settings on `devices`. Fails, with nothing
    /// to run, where the devices could not be listed (`None`) or an identifier of
    /// one of them could not be read.
    pub fn apply(&self, devices: &Option<Vec<UsbDevice>>) -> (out: Result<Vec<String>, ApplyError>)
        ensures
            agrees(out, self.outcome(*devices)),
    {
        match devices {
            None => Err(ApplyError::Unlisted),
            Some(listed) => {
                let mut written: Vec<String> = Vec::new();
                let mut i: usize = 0;
                let ghost all = Seq::new(listed@.len(), |j: int| self.line(listed@[j]));
                assert(all.take(0) =~= Seq::<Option<Seq<char>>>::empty());
                assert(lines(written@) =~= Seq::<Seq<char>>::empty());
                while i < listed.len()
                    invariant
                        i <= listed@.len(),
                        *devices == Some(*listed),
                        all == Seq::new(listed@.len(), |j: int| self.line(listed@[j])),
                        forall|j: int| 0 <= j < i ==> (#[trigger] listed@[j]).identified(),
                        lines(written@) == present_lines(all.take(i as int)),
                    decreases listed@.len() - i,
                {
                    let device = &listed[i];
                    proof {
                        let next = all.take(i + 1);
                        assert(next.drop_last() =~= all.take(i as int));
                        assert(next.last() == self.line(listed@[i as int]));
                    }
                    if !contains_text(device.name.as_str(), ":") {
                        match (&device.vendor_id, &device.product_id) {
                            (Some(vendor), Some(product)) => {
                                let key = (
                                    String::from_str(trim(vendor.as_str())),
                                    String::from_str(trim(product.as_str())),
                                );
                                let enable = WhiteBlackList::should_enable_item(
                                    &self.whiteblacklist,
                                    &key,
                                    self.enable_power_management,
                                );
                                let mut path = String::from_str("/sys/bus/usb/devices/");
                                path.append(device.name.as_str());
                                path.append("/power/control");
                                push_line(&mut written, echo(power_control(enable), path.as_str()));
                            },
                            _ => {
                                assert(!listed@[i as int].identified());
                                return Err(ApplyError::Unidentified);
                            },
                        }
                    }
                    i = i + 1;
                }
                assert(all.take(i as int) =~= all);
                Ok(written)
            },
        }
    }
}

/// What a profile enforces on SATA hosts.
#[derive(Debug, Clone, PartialEq)]
pub struct SATASettings {
    /// The policy of link power management; absent, the hosts are left alone.
    pub active_link_pm_policy: Option<String>,
    /// Hosts by their name under `/sys/class/scsi_host`.
    pub whiteblacklist: Option<WhiteBlackList<String>>,
}

impl SATASettings {
    /// The write for the host `host` under the policy `policy`. The policy
    /// `max_performance` stands for power management switched off: it is what a
    /// spared host gets, and where it is the policy itself no host is reached
    /// but by a list.
    pub open spec fn line(&self, policy: Seq<char>, host: Seq<char>) -> Seq<char> {
        let enable = decision(
            WhiteBlackList::<String>::model(self.whiteblacklist),
            seq![host],
            policy != "max_performance"@,
        );
        echo_line(
            choice(enable, policy, "max_performance"@),
            "/sys/class/scsi_host/"@ + host + "/link_power_management_policy"@,
        )
    }

    /// What applying these settings comes to where `hosts` are the names under
    /// `/sys/class/scsi_host`: nothing without a policy, else one write for each
    /// host, in their order.
    pub open spec fn outcome(&self, hosts: Option<Vec<String>>) -> Result<
        Seq<Seq<char>>,
        ApplyError,
    > {
        match self.active_link_pm_policy {
            None => Ok(seq![]),
            Some(policy) => match hosts {
                None => Err(ApplyError::Unlisted),
                Some(hosts) => Ok(
                    Seq::new(hosts@.len(), |i: int| self.line(policy@, hosts@[i]@)),
                ),
            },
        }
    }

    /// The writes that enforce these settings on `hosts`. Fails, with nothing to
    /// run, where there is a policy and the hosts could not be listed (`None`).
    pub fn apply(&self, hosts: &Option<Vec<String>>) -> (out: Result<Vec<String>, ApplyError>)
        ensures
            agrees(out, self.outcome(*hosts)),
    {
        let mut written: Vec<String> = Vec::new();
        assert(lines(written@) =~= Seq::<Seq<char>>::empty());
        match &self.active_link_pm_policy {
            None => Ok(written),
            Some(policy) => match hosts {
                None => Err(ApplyError::Unlisted),
                Some(listed) => {
                    let default = !(*policy == String::from_str("max_performance"));
                    let mut i: usize = 0;
                    while i < listed.len()
                        invariant
                            i <= listed@.len(),
                            default == (policy@ != "max_performance"@),
                            lines(written@) =~= Seq::new(
                                i as nat,
                                |j: int| self.line(policy@, listed@[j]@),
                            ),
                        decreases listed@.len() - i,
                    {
                        let enable = WhiteBlackList::should_enable_item(
                            &self.whiteblacklist,
                            &listed[i],
                            default,
                        );
                        let word: &str = if enable {
                            policy.as_str()
                        } else {
                            "max_performance"
                        };
                        let mut path = String::from_str("/sys/class/scsi_host/");
                        path.append(listed[i].as_str());
                        path.append("/link_power_management_policy");
                        push_line(&mut written, echo(word, path.as_str()));
                        i = i + 1;
                    }
                    Ok(written)
                },
            },
        }
    }
}

/// What a profile enforces on the power management of PCIe links.
#[derive(Debug, Clone, PartialEq)]
pub struct ASPMSettings {
    /// The policy of active state power management.
    pub mode: Option<String>,
}

impl ASPMSettings {
    /// The write of the policy.
    pub open spec fn commands(&self) -> Seq<Seq<char>> {
        match self.mode {
            Some(mode) => seq![echo_line(mode@, "/sys/module/pcie_aspm/parameters/policy"@)],
            None => seq![],
        }
    }

    /// The write that enforces these settings; none where the policy is absent.
    pub fn apply(&self) -> (out: Vec<String>)
        ensures
            lines(out@) == self.commands(),
    {
        let mut out: Vec<String> = Vec::new();
        if let Some(mode) = &self.mode {
            push_line(&mut out, echo(mode.as_str(), "/sys/module/pcie_aspm/parameters/policy"));
        }
        assert(lines(out@) =~= self.commands());
        out
    }
}

} // verus!
