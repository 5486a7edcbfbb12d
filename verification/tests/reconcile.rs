use power_daemon::apply::ReducedUpdate;
use power_daemon::cpu::CPUSettings;
use power_daemon::cpu_cores::{CPUCoreSettings, CoreSetting};
use power_daemon::devices::{ASPMSettings, PCISettings, SATASettings, USBSettings};
use power_daemon::kernel::KernelSettings;
use power_daemon::network::NetworkSettings;
use power_daemon::profile::Profile;
use power_daemon::radio::RadioSettings;
use power_daemon::reconcile::{find_core, update_core_settings, CoreMutation};
use power_daemon::screen::ScreenSettings;
use power_daemon::selection::Selection;

fn with_cores(cores: Option<Vec<CoreSetting>>) -> Profile {
    Profile {
        profile_name: String::from("edited"),
        cpu_settings: CPUSettings {
            mode: None,
            governor: None,
            energy_performance_preference: None,
            min_frequency: None,
            max_frequency: None,
            min_perf_pct: None,
            max_perf_pct: None,
            boost: None,
            hwp_dyn_boost: None,
        },
        cpu_core_settings: CPUCoreSettings { cores },
        screen_settings: ScreenSettings { resolution: None, refresh_rate: None, brightness: None },
        radio_settings: RadioSettings { block_wifi: None, block_nfc: None, block_bluetooth: None },
        network_settings: NetworkSettings {
            disable_ethernet: false,
            disable_wifi_7: false,
            disable_wifi_6: false,
            disable_wifi_5: false,
            enable_power_save: None,
            power_level: None,
            power_scheme: None,
            enable_uapsd: None,
        },
        aspm_settings: ASPMSettings { mode: None },
        pci_settings: PCISettings { enable_power_management: false, whiteblacklist: None },
        usb_settings: USBSettings { enable_power_management: false, whiteblacklist: None },
        sata_settings: SATASettings { active_link_pm_policy: None, whiteblacklist: None },
        kernel_settings: KernelSettings {
            disable_nmi_watchdog: None,
            vm_writeback: None,
            laptop_mode: None,
        },
    }
}

fn offline(cpu_id: u32) -> CoreSetting {
    let mut setting = CoreSetting::new(cpu_id);
    setting.online = Some(false);
    setting
}

#[test]
fn range_selection_disables_three_new_cores() {
    let mut selection = Selection::new();
    selection.click(3, false, false);
    selection.click(5, false, true);
    assert_eq!(selection.selected, vec![3, 4, 5]);
    let mut profile = with_cores(Some(vec![]));
    let indices = update_core_settings(&mut profile, &selection.selected, &CoreMutation::Online(false));
    assert_eq!(indices, vec![0, 1, 2]);
    assert_eq!(
        profile.cpu_core_settings.cores,
        Some(vec![offline(3), offline(4), offline(5)])
    );
}

#[test]
fn update_without_a_list_makes_one() {
    let mut profile = with_cores(None);
    let indices = update_core_settings(&mut profile, &vec![2], &CoreMutation::Online(true));
    assert_eq!(indices, vec![0]);
    let mut expected = CoreSetting::new(2);
    expected.online = Some(true);
    assert_eq!(profile.cpu_core_settings.cores, Some(vec![expected]));
}

#[test]
fn update_of_no_core_changes_nothing() {
    let mut profile = with_cores(None);
    assert!(update_core_settings(&mut profile, &vec![], &CoreMutation::Online(true)).is_empty());
    assert_eq!(profile, with_cores(None));
    let mut profile = with_cores(Some(vec![offline(1)]));
    assert!(update_core_settings(&mut profile, &vec![], &CoreMutation::Online(true)).is_empty());
    assert_eq!(profile, with_cores(Some(vec![offline(1)])));
}

#[test]
fn update_makes_no_record_for_a_core_that_has_one() {
    let mut profile = with_cores(Some(vec![offline(7), offline(2)]));
    let indices = update_core_settings(
        &mut profile,
        &vec![2, 9, 7],
        &CoreMutation::Governor(String::from("powersave")),
    );
    assert_eq!(indices, vec![1, 2, 0]);
    let cores = profile.cpu_core_settings.cores.unwrap();
    assert_eq!(cores.len(), 3);
    let with_governor = |mut setting: CoreSetting| {
        setting.governor = Some(String::from("powersave"));
        setting
    };
    assert_eq!(
        cores,
        vec![with_governor(offline(7)), with_governor(offline(2)), with_governor(CoreSetting::new(9))]
    );
}

#[test]
fn update_makes_one_record_for_a_core_named_twice() {
    let mut profile = with_cores(Some(vec![offline(0)]));
    let indices = update_core_settings(
        &mut profile,
        &vec![4, 4, 0, 4],
        &CoreMutation::Epp(String::from("power")),
    );
    assert_eq!(indices, vec![1, 1, 0, 1]);
    let cores = profile.cpu_core_settings.cores.unwrap();
    assert_eq!(cores.len(), 2);
    assert_eq!(cores[1].cpu_id, 4);
    assert_eq!(cores[1].epp, Some(String::from("power")));
    assert_eq!(cores[1].online, None);
    assert_eq!(cores[0].epp, Some(String::from("power")));
    assert_eq!(cores[0].online, Some(false));
}

#[test]
fn update_leaves_unnamed_cores_and_other_fields_alone() {
    let mut kept = CoreSetting::new(1);
    kept.max_frequency = Some(2000000);
    kept.governor = Some(String::from("performance"));
    let mut profile = with_cores(Some(vec![kept.clone(), offline(2)]));
    profile.screen_settings.brightness = Some(10);
    update_core_settings(&mut profile, &vec![2], &CoreMutation::Online(true));
    let mut expected_profile = with_cores(None);
    expected_profile.screen_settings.brightness = Some(10);
    let mut second = CoreSetting::new(2);
    second.online = Some(true);
    expected_profile.cpu_core_settings.cores = Some(vec![kept, second]);
    assert_eq!(profile, expected_profile);
}

#[test]
fn touched_indices_scope_a_reduced_update() {
    let mut profile = with_cores(Some(vec![offline(6)]));
    let indices = update_core_settings(&mut profile, &vec![8, 6], &CoreMutation::Online(true));
    let update = ReducedUpdate::MultipleCPUCores(indices);
    assert!(update.is_valid_for(&profile));
}

#[test]
fn find_core_gives_the_first_record() {
    let cores = vec![offline(3), offline(1), CoreSetting::new(3)];
    assert_eq!(find_core(&cores, 3), Some(0));
    assert_eq!(find_core(&cores, 1), Some(1));
    assert_eq!(find_core(&cores, 0), None);
    assert_eq!(find_core(&vec![], 0), None);
}

#[test]
fn mutation_changes_one_field() {
    let mut setting = offline(3);
    CoreMutation::Governor(String::from("ondemand")).apply_to(&mut setting);
    CoreMutation::Epp(String::from("default")).apply_to(&mut setting);
    CoreMutation::Online(true).apply_to(&mut setting);
    assert_eq!(
        setting,
        CoreSetting {
            cpu_id: 3,
            online: Some(true),
            max_frequency: None,
            min_frequency: None,
            governor: Some(String::from("ondemand")),
            epp: Some(String::from("default")),
        }
    );
}
