use power_daemon::apply::{ApplyReport, Category, ProbePlan, ReducedUpdate, SystemProbe};
use power_daemon::cpu::{CPUSettings, CpuDrivers};
use power_daemon::cpu_cores::{CPUCoreSettings, CoreSetting};
use power_daemon::devices::{ASPMSettings, PCISettings, SATASettings, USBSettings, UsbDevice};
use power_daemon::kernel::KernelSettings;
use power_daemon::network::{NetworkProbe, NetworkSettings};
use power_daemon::outcome::ApplyError;
use power_daemon::profile::{
    find_profile_index_by_name, try_find_profile_index_by_name, Profile, ProfilesInfo,
};
use power_daemon::radio::RadioSettings;
use power_daemon::screen::ScreenSettings;

fn names(list: &[&str]) -> Vec<String> {
    list.iter().map(|name| String::from(*name)).collect()
}

fn offline(cpu_id: u32) -> CoreSetting {
    let mut setting = CoreSetting::new(cpu_id);
    setting.online = Some(false);
    setting
}

fn sample(name: &str) -> Profile {
    Profile {
        profile_name: String::from(name),
        cpu_settings: CPUSettings {
            mode: None,
            governor: Some(String::from("powersave")),
            energy_performance_preference: None,
            min_frequency: None,
            max_frequency: None,
            min_perf_pct: None,
            max_perf_pct: None,
            boost: None,
            hwp_dyn_boost: None,
        },
        cpu_core_settings: CPUCoreSettings { cores: Some(vec![offline(3), offline(5)]) },
        screen_settings: ScreenSettings { resolution: None, refresh_rate: None, brightness: Some(30) },
        radio_settings: RadioSettings {
            block_wifi: None,
            block_nfc: None,
            block_bluetooth: Some(true),
        },
        network_settings: NetworkSettings {
            disable_ethernet: true,
            disable_wifi_7: false,
            disable_wifi_6: false,
            disable_wifi_5: false,
            enable_power_save: Some(true),
            power_level: None,
            power_scheme: None,
            enable_uapsd: None,
        },
        aspm_settings: ASPMSettings { mode: Some(String::from("powersave")) },
        pci_settings: PCISettings { enable_power_management: true, whiteblacklist: None },
        usb_settings: USBSettings { enable_power_management: false, whiteblacklist: None },
        sata_settings: SATASettings {
            active_link_pm_policy: Some(String::from("min_power")),
            whiteblacklist: None,
        },
        kernel_settings: KernelSettings {
            disable_nmi_watchdog: Some(true),
            vm_writeback: None,
            laptop_mode: None,
        },
    }
}

fn machine() -> SystemProbe {
    SystemProbe {
        cpu_drivers: CpuDrivers {
            intel_pstate: true,
            amd_pstate: false,
            intel_no_turbo: true,
            cpufreq_boost: false,
        },
        network: NetworkProbe {
            interfaces: Some(names(&["lo", "eth0"])),
            wifi_modules: String::from("iwlmvm 1 0\n"),
        },
        pci_devices: Some(names(&["0000:00:02.0"])),
        usb_devices: Some(vec![UsbDevice {
            name: String::from("1-1"),
            vendor_id: Some(String::from("8087\n")),
            product_id: Some(String::from("0029\n")),
        }]),
        sata_hosts: Some(names(&["host0"])),
    }
}

#[test]
fn find_profile_by_name() {
    let profiles = vec![sample("gaming"), sample("balanced"), sample("gaming")];
    assert_eq!(find_profile_index_by_name(&profiles, "gaming"), 0);
    assert_eq!(find_profile_index_by_name(&profiles, "balanced"), 1);
    assert_eq!(try_find_profile_index_by_name(&profiles, "balanced"), Some(1));
    assert_eq!(try_find_profile_index_by_name(&profiles, "gaming"), Some(0));
    assert_eq!(try_find_profile_index_by_name(&profiles, "Gaming"), None);
    assert_eq!(try_find_profile_index_by_name(&profiles, "gam"), None);
    assert_eq!(try_find_profile_index_by_name(&vec![], "gaming"), None);
}

#[test]
fn active_profile_is_the_one_at_the_index() {
    let info = ProfilesInfo { active_profile: 1, profiles: vec![sample("a"), sample("b")] };
    assert_eq!(info.get_active_profile().profile_name, "b");
}

#[test]
fn apply_all_goes_through_the_categories_in_order() {
    let report = sample("p").apply_all(&machine());
    assert_eq!(
        report.commands,
        names(&[
            "echo powersave > /sys/devices/system/cpu/cpu*/cpufreq/scaling_governor",
            "echo 1 > /sys/devices/system/cpu/cpu*/online",
            "echo 0 > /sys/devices/system/cpu/cpu3/online",
            "echo 0 > /sys/devices/system/cpu/cpu5/online",
            "brightnessctl -s 30%",
            "rfkill block bluetooth",
            "ifconfig eth0 down",
            "modprobe -r iwlmvm && modprobe -r iwlwifi && modprobe iwlmvm  && modprobe iwlwifi power_save=1 ",
            "echo powersave > /sys/module/pcie_aspm/parameters/policy",
            "echo auto > /sys/bus/pci/devices/0000:00:02.0/power/control",
            "echo on > /sys/bus/usb/devices/1-1/power/control",
            "echo min_power > /sys/class/scsi_host/host0/link_power_management_policy",
            "echo 0 > /proc/sys/kernel/nmi_watchdog",
        ])
    );
    assert!(report.failed.is_empty());
}

#[test]
fn apply_all_gives_up_a_category_and_goes_on() {
    let mut probe = machine();
    probe.pci_devices = None;
    probe.usb_devices = Some(vec![UsbDevice {
        name: String::from("1-1"),
        vendor_id: None,
        product_id: None,
    }]);
    probe.network.interfaces = None;
    let report = sample("p").apply_all(&probe);
    assert_eq!(
        report.commands,
        names(&[
            "echo powersave > /sys/devices/system/cpu/cpu*/cpufreq/scaling_governor",
            "echo 1 > /sys/devices/system/cpu/cpu*/online",
            "echo 0 > /sys/devices/system/cpu/cpu3/online",
            "echo 0 > /sys/devices/system/cpu/cpu5/online",
            "brightnessctl -s 30%",
            "rfkill block bluetooth",
            "echo powersave > /sys/module/pcie_aspm/parameters/policy",
            "echo min_power > /sys/class/scsi_host/host0/link_power_management_policy",
            "echo 0 > /proc/sys/kernel/nmi_watchdog",
        ])
    );
    assert_eq!(
        report.failed,
        vec![
            (Category::Network, ApplyError::Unlisted),
            (Category::PCI, ApplyError::Unlisted),
            (Category::USB, ApplyError::Unidentified),
        ]
    );
}

#[test]
fn apply_all_twice_gives_the_same_writes() {
    let profile = sample("p");
    assert_eq!(profile.apply_all(&machine()), profile.apply_all(&machine()));
}

#[test]
fn reduced_update_of_a_category_is_its_part_of_the_whole() {
    let profile = sample("p");
    let probe = machine();
    let scopes = [
        ReducedUpdate::CPU,
        ReducedUpdate::CPUCores,
        ReducedUpdate::Screen,
        ReducedUpdate::Radio,
        ReducedUpdate::Network,
        ReducedUpdate::ASPM,
        ReducedUpdate::PCI,
        ReducedUpdate::USB,
        ReducedUpdate::SATA,
        ReducedUpdate::Kernel,
    ];
    let mut joined: Vec<String> = Vec::new();
    for scope in scopes.iter() {
        assert!(scope.is_valid_for(&profile));
        let report = profile.apply_reduced(scope, &probe);
        assert!(report.failed.is_empty());
        joined.extend(report.commands);
    }
    assert_eq!(joined, profile.apply_all(&probe).commands);
    assert_eq!(
        profile.apply_reduced(&ReducedUpdate::All, &probe),
        profile.apply_all(&probe)
    );
}

#[test]
fn reduced_update_of_one_category_writes_only_that() {
    let profile = sample("p");
    assert_eq!(
        profile.apply_reduced(&ReducedUpdate::Radio, &machine()),
        ApplyReport { commands: names(&["rfkill block bluetooth"]), failed: vec![] }
    );
    assert_eq!(
        profile.apply_reduced(&ReducedUpdate::CPUCores, &machine()).commands,
        names(&[
            "echo 1 > /sys/devices/system/cpu/cpu*/online",
            "echo 0 > /sys/devices/system/cpu/cpu3/online",
            "echo 0 > /sys/devices/system/cpu/cpu5/online",
        ])
    );
}

#[test]
fn reduced_update_reports_the_category_it_gave_up() {
    let mut probe = machine();
    probe.sata_hosts = None;
    assert_eq!(
        sample("p").apply_reduced(&ReducedUpdate::SATA, &probe),
        ApplyReport { commands: vec![], failed: vec![(Category::SATA, ApplyError::Unlisted)] }
    );
}

#[test]
fn reduced_update_of_single_cores_resets_before_their_records() {
    let profile = sample("p");
    assert_eq!(
        profile.apply_reduced(&ReducedUpdate::SingleCPUCore(1), &machine()).commands,
        names(&[
            "echo 1 > /sys/devices/system/cpu/cpu*/online",
            "echo 0 > /sys/devices/system/cpu/cpu5/online",
        ])
    );
    assert_eq!(
        profile.apply_reduced(&ReducedUpdate::MultipleCPUCores(vec![1, 0, 1]), &machine()).commands,
        names(&[
            "echo 1 > /sys/devices/system/cpu/cpu*/online",
            "echo 0 > /sys/devices/system/cpu/cpu5/online",
            "echo 0 > /sys/devices/system/cpu/cpu3/online",
            "echo 0 > /sys/devices/system/cpu/cpu5/online",
        ])
    );
    assert_eq!(
        profile.apply_reduced(&ReducedUpdate::MultipleCPUCores(vec![]), &machine()).commands,
        names(&["echo 1 > /sys/devices/system/cpu/cpu*/online"])
    );
    assert!(profile
        .apply_reduced(&ReducedUpdate::SingleCPUCore(0), &machine())
        .failed
        .is_empty());
}

#[test]
fn reduced_update_of_all_cores_by_index_is_the_category() {
    let profile = sample("p");
    assert_eq!(
        profile.apply_reduced(&ReducedUpdate::MultipleCPUCores(vec![0, 1]), &machine()),
        profile.apply_reduced(&ReducedUpdate::CPUCores, &machine())
    );
}

#[test]
fn reduced_update_of_cores_without_a_list_writes_nothing() {
    let mut profile = sample("p");
    profile.cpu_core_settings.cores = None;
    assert!(ReducedUpdate::SingleCPUCore(9).is_valid_for(&profile));
    assert!(profile
        .apply_reduced(&ReducedUpdate::SingleCPUCore(9), &machine())
        .commands
        .is_empty());
    assert!(profile
        .apply_reduced(&ReducedUpdate::MultipleCPUCores(vec![4, 2]), &machine())
        .commands
        .is_empty());
}

#[test]
fn reduced_update_validity_follows_the_list() {
    let profile = sample("p");
    assert!(ReducedUpdate::SingleCPUCore(0).is_valid_for(&profile));
    assert!(ReducedUpdate::SingleCPUCore(1).is_valid_for(&profile));
    assert!(!ReducedUpdate::SingleCPUCore(2).is_valid_for(&profile));
    assert!(ReducedUpdate::MultipleCPUCores(vec![0, 1, 1]).is_valid_for(&profile));
    assert!(!ReducedUpdate::MultipleCPUCores(vec![0, 2]).is_valid_for(&profile));
    assert!(ReducedUpdate::All.is_valid_for(&profile));
    assert!(ReducedUpdate::Kernel.is_valid_for(&profile));
}

fn blank_machine() -> SystemProbe {
    SystemProbe {
        cpu_drivers: CpuDrivers {
            intel_pstate: false,
            amd_pstate: false,
            intel_no_turbo: false,
            cpufreq_boost: false,
        },
        network: NetworkProbe { interfaces: None, wifi_modules: String::new() },
        pci_devices: None,
        usb_devices: None,
        sata_hosts: None,
    }
}

#[test]
fn probe_plan_names_the_part_of_each_update() {
    let none = ProbePlan {
        cpu_drivers: false,
        network: false,
        pci_devices: false,
        usb_devices: false,
        sata_hosts: false,
    };
    assert_eq!(
        ReducedUpdate::All.probe_plan(),
        ProbePlan {
            cpu_drivers: true,
            network: true,
            pci_devices: true,
            usb_devices: true,
            sata_hosts: true
        }
    );
    assert_eq!(ReducedUpdate::CPU.probe_plan(), ProbePlan { cpu_drivers: true, ..none });
    assert_eq!(ReducedUpdate::Network.probe_plan(), ProbePlan { network: true, ..none });
    assert_eq!(ReducedUpdate::PCI.probe_plan(), ProbePlan { pci_devices: true, ..none });
    assert_eq!(ReducedUpdate::USB.probe_plan(), ProbePlan { usb_devices: true, ..none });
    assert_eq!(ReducedUpdate::SATA.probe_plan(), ProbePlan { sata_hosts: true, ..none });
    for update in [
        ReducedUpdate::CPUCores,
        ReducedUpdate::SingleCPUCore(0),
        ReducedUpdate::MultipleCPUCores(vec![0, 1]),
        ReducedUpdate::Screen,
        ReducedUpdate::Radio,
        ReducedUpdate::ASPM,
        ReducedUpdate::Kernel,
    ] {
        assert_eq!(update.probe_plan(), none);
    }
}

#[test]
fn parts_outside_the_plan_play_no_part() {
    let profile = sample("p");
    for update in [
        ReducedUpdate::CPUCores,
        ReducedUpdate::SingleCPUCore(0),
        ReducedUpdate::Screen,
        ReducedUpdate::Radio,
        ReducedUpdate::ASPM,
        ReducedUpdate::Kernel,
    ] {
        assert_eq!(
            profile.apply_reduced(&update, &machine()),
            profile.apply_reduced(&update, &blank_machine())
        );
    }
    let mut only_pci = blank_machine();
    only_pci.pci_devices = machine().pci_devices;
    assert_eq!(
        profile.apply_reduced(&ReducedUpdate::PCI, &machine()),
        profile.apply_reduced(&ReducedUpdate::PCI, &only_pci)
    );
}
