//! Profiles: a named set of settings for each category, and the list of
//! profiles of which one is active.

use vstd::prelude::*;
use vstd::string::StringExecFns;
use crate::cpu::CPUSettings;
use crate::cpu_cores::CPUCoreSettings;
use crate::devices::{ASPMSettings, PCISettings, SATASettings, USBSettings};
use crate::kernel::KernelSettings;
use crate::network::NetworkSettings;
use crate::radio::RadioSettings;
use crate::screen::ScreenSettings;

verus! {

/// A named, complete set of settings, one group for each category.
#[derive(Debug, Clone, PartialEq)]
pub struct Profile {
    /// The name of the profile, which is that of its file without the extension.
    pub profile_name: String,
    pub cpu_settings: CPUSettings,
    pub cpu_core_settings: CPUCoreSettings,
    pub screen_settings: ScreenSettings,
    pub radio_settings: RadioSettings,
    pub network_settings: NetworkSettings,
    pub aspm_settings: ASPMSettings,
    pub pci_settings: PCISettings,
    pub usb_settings: USBSettings,
    pub sata_settings: SATASettings,
    pub kernel_settings: KernelSettings,
}

/// The profiles in their order, and which of them is active.
#[derive(Debug, Clone, PartialEq)]
pub struct ProfilesInfo {
    pub active_profile: usize,
    pub profiles: Vec<Profile>,
}

/// The profile at `index` is the first of `profiles` with the name `name`.
pub open spec fn is_first_named(profiles: Seq<Profile>, name: Seq<char>, index: int) -> bool {
    &&& 0 <= index < profiles.len()
    &&& profiles[index].profile_name@ == name
    &&& forall|j: int| 0 <= j < index ==> (#[trigger] profiles[j]).profile_name@ != name
}

/// One of `profiles` has the name `name`.
pub open spec fn has_named(profiles: Seq<Profile>, name: Seq<char>) -> bool {
    exists|i: int| 0 <= i < profiles.len() && (#[trigger] profiles[i]).profile_name@ == name
}

/// The index of the first of `vec` with the name `name`, if there is one.
pub fn try_find_profile_index_by_name(vec: &Vec<Profile>, name: &str) -> (found: Option<usize>)
    ensures
        found is Some <==> has_named(vec@, name@),
        found matches Some(index) ==> is_first_named(vec@, name@, index as int),
{
    let wanted = String::from_str(name);
    let mut i: usize = 0;
    while i < vec.len()
        invariant
            i <= vec@.len(),
            wanted@ == name@,
            forall|j: int| 0 <= j < i ==> (#[trigger] vec@[j]).profile_name@ != name@,
        decreases vec@.len() - i,
    {
        if vec[i].profile_name == wanted {
            return Some(i);
        }
        i = i + 1;
    }
    None
}

/// The index of the first of `vec` with the name `name`.
pub fn find_profile_index_by_name(vec: &Vec<Profile>, name: &str) -> (index: usize)
    requires
        has_named(vec@, name@),
    ensures
        is_first_named(vec@, name@, index as int),
{
    try_find_profile_index_by_name(vec, name).unwrap()
}

impl ProfilesInfo {
    /// The active profile is one of the list.
    pub open spec fn wf(&self) -> bool {
        self.active_profile < self.profiles@.len()
    }

    /// The profile that is active.
    pub fn get_active_profile(&self) -> (profile: &Profile)
        requires
            self.wf(),
        ensures
            *profile == self.profiles@[self.active_profile as int],
    {
        &self.profiles[self.active_profile]
    }

    /// Puts `profile` in the place of the profile at `index`, as a whole. The
    /// other profiles and the choice of the active one stay. Answers whether
    /// there is a profile at `index`; where there is none, nothing changes.
    pub fn replace_profile(&mut self, index: usize, profile: Profile) -> (replaced: bool)
        ensures
            replaced == (index < old(self).profiles@.len()),
            replaced ==> final(self).profiles@ == old(self).profiles@.update(index as int, profile),
            !replaced ==> final(self).profiles@ == old(self).profiles@,
            final(self).active_profile == old(self).active_profile,
            old(self).wf() ==> final(self).wf(),
    {
        if index < self.profiles.len() {
            self.profiles[index] = profile;
            true
        } else {
            false
        }
    }
}

} // verus!
