//! Picking the active profile: by the administrator's word, by the power
//! source, or by a choice made while the daemon runs.

use vstd::prelude::*;
use vstd::string::StringExecFns;
use crate::profile::{
    has_named, is_first_named, try_find_profile_index_by_name, Profile, ProfilesInfo,
};
use crate::text::{same_text, trim, trimmed};

verus! {

/// Where the configuration is read from.
pub const CONFIG_FILE: &'static str = "/etc/power-daemon/config.toml";

/// The directory of the profile files.
pub const PROFILES_DIRECTORY: &'static str = "/etc/power-daemon/profiles";

/// The file of the profile `name`.
pub open spec fn profile_path(name: Seq<char>) -> Seq<char> {
    "/etc/power-daemon/profiles"@ + "/"@ + name + ".toml"@
}

/// The file that the profile `name` is read from.
pub fn profile_file(name: &str) -> (path: String)
    ensures
        path@ == profile_path(name@),
{
    let mut path = String::from_str("/etc/power-daemon/profiles");
    path.append("/");
    path.append(name);
    path.append(".toml");
    path
}

/// What the configuration file holds.
#[derive(Debug, Clone, PartialEq)]
pub struct Config {
    /// The names of the known profiles, in their order.
    pub profiles: Vec<String>,
    /// The profile for mains power.
    pub ac_profile: String,
    /// The profile for battery power.
    pub bat_profile: String,
    /// The profile that the administrator fixed, if any.
    pub profile_override: Option<String>,
}

/// An entry under `/sys/class/power_supply`.
#[derive(Debug, Clone, PartialEq)]
pub struct PowerSupply {
    /// What its file `type` holds; `None` where it could not be read.
    pub kind: Option<String>,
    /// What its file `online` holds; `None` where it could not be read.
    pub online: Option<String>,
}

/// What a supply says of mains power, given its type and its online attribute
/// without the white space around them: nothing unless it is of the type
/// `Mains` and has the attribute, else whether the attribute reads `1`.
pub open spec fn mains_reading(kind: Option<Seq<char>>, online: Option<Seq<char>>) -> Option<bool> {
    match (kind, online) {
        (Some(kind), Some(online)) => if kind == "Mains"@ {
            Some(online == "1"@)
        } else {
            None
        },
        _ => None,
    }
}

/// Reads a supply's type and online attribute, both without the white space
/// around them, for what they say of mains power.
pub fn read_mains(kind: Option<&str>, online: Option<&str>) -> (reading: Option<bool>)
    ensures
        reading == mains_reading(
            match kind {
                Some(kind) => Some(kind@),
                None => None,
            },
            match online {
                Some(online) => Some(online@),
                None => None,
            },
        ),
{
    match (kind, online) {
        (Some(kind), Some(online)) => {
            if same_text(kind, "Mains") {
                Some(same_text(online, "1"))
            } else {
                None
            }
        },
        _ => None,
    }
}

impl PowerSupply {
    /// What this supply says of mains power.
    pub open spec fn reading(&self) -> Option<bool> {
        mains_reading(
            match self.kind {
                Some(kind) => Some(trimmed(kind@)),
                None => None,
            },
            match self.online {
                Some(online) => Some(trimmed(online@)),
                None => None,
            },
        )
    }
}

/// Whether the machine runs on mains power, going by `supplies`: it does
/// exactly if one of them is of the type `Mains` and reports itself online with
/// `1`, wherever it stands among them and whatever the others say.
pub open spec fn on_ac(supplies: Seq<PowerSupply>) -> bool {
    exists|i: int| 0 <= i < supplies.len() && (#[trigger] supplies[i]).reading() == Some(true)
}

/// Whether the machine runs on mains power, going by `supplies`.
pub fn system_on_ac(supplies: &Vec<PowerSupply>) -> (ac_online: bool)
    ensures
        ac_online == on_ac(supplies@),
{
    let mut ac_online = false;
    let mut i: usize = 0;
    while i < supplies.len()
        invariant
            i <= supplies@.len(),
            ac_online <==> exists|j: int|
                0 <= j < i && (#[trigger] supplies@[j]).reading() == Some(true),
        decreases supplies@.len() - i,
    {
        let supply = &supplies[i];
        let kind: Option<&str> = match &supply.kind {
            Some(kind) => Some(trim(kind.as_str())),
            None => None,
        };
        let online: Option<&str> = match &supply.online {
            Some(online) => Some(trim(online.as_str())),
            None => None,
        };
        let reading = read_mains(kind, online);
        assert(reading == supplies@[i as int].reading());
        if let Some(true) = reading {
            ac_online = true;
        }
        i = i + 1;
    }
    ac_online
}

/// The name of the profile that is active when the daemon starts: the one the
/// administrator fixed, else the one for the power source.
pub open spec fn initial_choice(config: Config, on_ac: bool) -> Seq<char> {
    match config.profile_override {
        Some(name) => name@,
        None => if on_ac {
            config.ac_profile@
        } else {
            config.bat_profile@
        },
    }
}

/// The name of the profile that is active after a reload: the one chosen while
/// the daemon ran, whatever the administrator fixed and whatever the power
/// source; without such a choice, the one that is active at the start.
pub open spec fn reload_choice(config: Config, on_ac: bool, runtime_override: Option<String>) -> Seq<
    char,
> {
    match runtime_override {
        Some(name) => name@,
        None => initial_choice(config, on_ac),
    }
}

/// No profile has the name that was to be made active.
#[derive(Debug, Clone, PartialEq)]
pub struct UnknownProfile {
    /// The name that was looked for.
    pub name: String,
}

/// `resolved` is `profiles` with the first profile named `name` active, or the
/// report that there is no such profile.
pub open spec fn resolves_to(
    resolved: Result<ProfilesInfo, UnknownProfile>,
    profiles: Vec<Profile>,
    name: Seq<char>,
) -> bool {
    match resolved {
        Ok(info) => {
            &&& info.profiles == profiles
            &&& info.wf()
            &&& is_first_named(profiles@, name, info.active_profile as int)
        },
        Err(unknown) => unknown.name@ == name && !has_named(profiles@, name),
    }
}

fn activate(profiles: Vec<Profile>, name: &str) -> (resolved: Result<ProfilesInfo, UnknownProfile>)
    ensures
        resolves_to(resolved, profiles, name@),
{
    match try_find_profile_index_by_name(&profiles, name) {
        Some(active_profile) => Ok(ProfilesInfo { active_profile, profiles }),
        None => Err(UnknownProfile { name: String::from_str(name) }),
    }
}

impl ProfilesInfo {
    /// Picks the active profile when the daemon starts.
    pub fn resolve_initial(profiles: Vec<Profile>, config: &Config, on_ac: bool) -> (resolved: Result<
        ProfilesInfo,
        UnknownProfile,
    >)
        ensures
            resolves_to(resolved, profiles, initial_choice(*config, on_ac)),
    {
        match &config.profile_override {
            Some(name) => activate(profiles, name.as_str()),
            None => if on_ac {
                activate(profiles, config.ac_profile.as_str())
            } else {
                activate(profiles, config.bat_profile.as_str())
            },
        }
    }

    /// Picks the active profile after the profiles were read again.
    pub fn resolve_reload(
        profiles: Vec<Profile>,
        config: &Config,
        on_ac: bool,
        runtime_override: &Option<String>,
    ) -> (resolved: Result<ProfilesInfo, UnknownProfile>)
        ensures
            resolves_to(resolved, profiles, reload_choice(*config, on_ac, *runtime_override)),
    {
        match runtime_override {
            Some(name) => activate(profiles, name.as_str()),
            None => ProfilesInfo::resolve_initial(profiles, config, on_ac),
        }
    }
}

impl Profile {
    /// The profile as read from the file with the base name `name`: whatever
    /// name the file's text gave it, it goes by that of the file.
    pub fn named(self, name: &str) -> (profile: Profile)
        ensures
            profile.profile_name@ == name@,
            profile == (Profile { profile_name: profile.profile_name, ..self }),
    {
        let mut profile = self;
        profile.profile_name = String::from_str(name);
        profile
    }
}

/// Where the administrator fixed a profile, the daemon starts with it, on mains
/// power and on battery alike.
pub proof fn lemma_override_wins_at_start(config: Config, on_ac: bool)
    requires
        config.profile_override is Some,
    ensures
        initial_choice(config, on_ac) == config.profile_override->0@,
        initial_choice(config, true) == initial_choice(config, false),
{
}

/// Where the administrator fixed none, the daemon starts with the profile for
/// mains power if the machine runs on it, else with the one for battery power.
pub proof fn lemma_power_source_decides_at_start(config: Config, on_ac: bool)
    requires
        config.profile_override is None,
    ensures
        on_ac ==> initial_choice(config, on_ac) == config.ac_profile@,
        !on_ac ==> initial_choice(config, on_ac) == config.bat_profile@,
{
}

/// A choice made while the daemon runs decides every reload, whatever the
/// administrator fixed and whatever the power source; the administrator's word
/// is looked at again only where no such choice was made.
pub proof fn lemma_runtime_choice_wins_on_reload(
    config: Config,
    on_ac: bool,
    runtime_override: Option<String>,
)
    ensures
        runtime_override is Some ==> reload_choice(config, on_ac, runtime_override)
            == runtime_override->0@,
        runtime_override is None ==> reload_choice(config, on_ac, runtime_override)
            == initial_choice(config, on_ac),
{
}

/// The machine runs on mains power exactly if one of the supplies holds, white
/// space at the ends apart, `Mains` as its type and `1` as its online
/// attribute.
pub proof fn lemma_on_ac_iff_mains_online(supplies: Seq<PowerSupply>)
    ensures
        on_ac(supplies) <==> exists|i: int|
            0 <= i < supplies.len() && {
                &&& (#[trigger] supplies[i]).kind is Some
                &&& trimmed(supplies[i].kind->0@) == "Mains"@
                &&& supplies[i].online is Some
                &&& trimmed(supplies[i].online->0@) == "1"@
            },
{
    if on_ac(supplies) {
        let i = choose|i: int|
            0 <= i < supplies.len() && (#[trigger] supplies[i]).reading() == Some(true);
        assert(supplies[i].kind is Some);
    }
    if exists|i: int|
        0 <= i < supplies.len() && {
            &&& (#[trigger] supplies[i]).kind is Some
            &&& trimmed(supplies[i].kind->0@) == "Mains"@
            &&& supplies[i].online is Some
            &&& trimmed(supplies[i].online->0@) == "1"@
        } {
        let i = choose|i: int|
            0 <= i < supplies.len() && {
                &&& (#[trigger] supplies[i]).kind is Some
                &&& trimmed(supplies[i].kind->0@) == "Mains"@
                &&& supplies[i].online is Some
                &&& trimmed(supplies[i].online->0@) == "1"@
            };
        assert(supplies[i].reading() == Some(true));
    }
}

} // verus!
