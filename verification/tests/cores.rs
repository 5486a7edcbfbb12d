use power_daemon::cpu_cores::{CPUCoreSettings, CoreSetting};

fn record(cpu_id: u32) -> CoreSetting {
    CoreSetting::new(cpu_id)
}

#[test]
fn new_core_setting_enforces_nothing() {
    let setting = CoreSetting::new(7);
    assert_eq!(
        setting,
        CoreSetting {
            cpu_id: 7,
            online: None,
            max_frequency: None,
            min_frequency: None,
            governor: None,
            epp: None
        }
    );
    assert!(setting.apply().is_empty());
}

#[test]
fn core_setting_writes_every_present_field_in_order() {
    let setting = CoreSetting {
        cpu_id: 12,
        online: Some(true),
        max_frequency: Some(3000000),
        min_frequency: Some(400000),
        governor: Some(String::from("schedutil")),
        epp: Some(String::from("power")),
    };
    assert_eq!(
        setting.apply(),
        vec![
            "echo 1 > /sys/devices/system/cpu/cpu12/online",
            "echo power > /sys/devices/system/cpu/cpu12/cpufreq/energy_performance_preference",
            "echo schedutil > /sys/devices/system/cpu/cpu12/cpufreq/scaling_governor",
            "echo 400000 > /sys/devices/system/cpu/cpu12/cpufreq/scaling_min_freq",
            "echo 3000000 > /sys/devices/system/cpu/cpu12/cpufreq/scaling_max_freq",
        ]
    );
}

#[test]
fn core_setting_apply_into_keeps_what_was_there() {
    let mut out = vec![String::from("first")];
    let mut setting = record(0);
    setting.online = Some(false);
    setting.apply_into(&mut out);
    assert_eq!(out, vec!["first", "echo 0 > /sys/devices/system/cpu/cpu0/online"]);
}

#[test]
fn core_settings_without_a_list_write_nothing() {
    assert!(CPUCoreSettings { cores: None }.apply().is_empty());
}

#[test]
fn core_settings_with_an_empty_list_still_reset() {
    assert_eq!(
        CPUCoreSettings { cores: Some(vec![]) }.apply(),
        vec!["echo 1 > /sys/devices/system/cpu/cpu*/online"]
    );
}

#[test]
fn core_settings_reset_before_any_switch_off() {
    let mut third = record(3);
    third.online = Some(false);
    let mut fifth = record(5);
    fifth.online = Some(false);
    let mut fourth = record(4);
    fourth.governor = Some(String::from("powersave"));
    for cores in [
        vec![third.clone(), fifth.clone(), fourth.clone()],
        vec![fifth.clone(), fourth.clone(), third.clone()],
        vec![fourth.clone(), third.clone()],
        vec![fifth.clone()],
    ] {
        let written = CPUCoreSettings { cores: Some(cores) }.apply();
        assert_eq!(written[0], "echo 1 > /sys/devices/system/cpu/cpu*/online");
        for (index, line) in written.iter().enumerate() {
            if line.starts_with("echo 0 > ") && line.ends_with("/online") {
                assert!(index > 0);
            }
        }
    }
}

#[test]
fn core_settings_follow_the_order_of_the_list() {
    let mut third = record(3);
    third.online = Some(false);
    let mut fifth = record(5);
    fifth.online = Some(false);
    assert_eq!(
        CPUCoreSettings { cores: Some(vec![fifth, third]) }.apply(),
        vec![
            "echo 1 > /sys/devices/system/cpu/cpu*/online",
            "echo 0 > /sys/devices/system/cpu/cpu5/online",
            "echo 0 > /sys/devices/system/cpu/cpu3/online",
        ]
    );
}

#[test]
fn core_settings_apply_twice_gives_the_same_writes() {
    let mut third = record(3);
    third.online = Some(false);
    let settings = CPUCoreSettings { cores: Some(vec![third]) };
    assert_eq!(settings.apply(), settings.apply());
}

#[test]
fn offline_cores_do_not_depend_on_the_order_of_the_records() {
    let mut third = record(3);
    third.online = Some(false);
    let mut fourth = record(4);
    fourth.online = Some(true);
    fourth.governor = Some(String::from("powersave"));
    let mut fifth = record(5);
    fifth.online = Some(false);
    let sixth = record(6);
    let orders = [
        vec![third.clone(), fourth.clone(), fifth.clone(), sixth.clone()],
        vec![sixth.clone(), fifth.clone(), fourth.clone(), third.clone()],
        vec![fourth.clone(), sixth.clone(), third.clone(), fifth.clone()],
    ];
    for cores in orders {
        let written = CPUCoreSettings { cores: Some(cores) }.apply();
        for before in [true, false] {
            let mut online = [before; 8];
            for line in written.iter() {
                if line == "echo 1 > /sys/devices/system/cpu/cpu*/online" {
                    online = [true; 8];
                }
                for cpu_id in 0..8 {
                    if *line == format!("echo 0 > /sys/devices/system/cpu/cpu{}/online", cpu_id) {
                        online[cpu_id] = false;
                    }
                    if *line == format!("echo 1 > /sys/devices/system/cpu/cpu{}/online", cpu_id) {
                        online[cpu_id] = true;
                    }
                }
            }
            assert_eq!(online, [true, true, true, false, true, false, true, true]);
        }
    }
}

#[test]
fn unique_ids_are_told_from_repeated_ones() {
    assert!(CPUCoreSettings { cores: None }.has_unique_ids());
    assert!(CPUCoreSettings { cores: Some(vec![]) }.has_unique_ids());
    assert!(CPUCoreSettings { cores: Some(vec![record(1), record(0), record(2)]) }.has_unique_ids());
    assert!(!CPUCoreSettings { cores: Some(vec![record(1), record(0), record(1)]) }.has_unique_ids());
    assert!(!CPUCoreSettings { cores: Some(vec![record(4), record(4)]) }.has_unique_ids());
}
