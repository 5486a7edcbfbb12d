use power_daemon::cpu::CPUSettings;
use power_daemon::form::{
    get_epps, get_governors, megahertz_to_kilohertz, CPUForm, CpuSupport, FormError, Toggleable,
};

fn on<T>(value: T) -> Toggleable<T> {
    Toggleable { enabled: true, value }
}

fn off<T>(value: T) -> Toggleable<T> {
    Toggleable { enabled: false, value }
}

fn everything() -> CpuSupport {
    CpuSupport { mode: true, epp: true, hwp_dyn_boost: true }
}

fn nothing() -> CpuSupport {
    CpuSupport { mode: false, epp: false, hwp_dyn_boost: false }
}

fn filled() -> CPUForm {
    CPUForm {
        mode: on(String::from("active")),
        epp: on(String::from("balance_power")),
        governor: on(String::from("powersave")),
        min_freq: on(800),
        max_freq: on(3200),
        min_perf_pct: on(0),
        max_perf_pct: on(100),
        boost: on(false),
        hwp_dyn_boost: on(true),
    }
}

fn absent() -> CPUSettings {
    CPUSettings {
        mode: None,
        governor: None,
        energy_performance_preference: None,
        min_frequency: None,
        max_frequency: None,
        min_perf_pct: None,
        max_perf_pct: None,
        boost: None,
        hwp_dyn_boost: None,
    }
}

#[test]
fn megahertz_become_kilohertz_a_thousandfold() {
    assert_eq!(megahertz_to_kilohertz(0), Some(0));
    assert_eq!(megahertz_to_kilohertz(1), Some(1000));
    assert_eq!(megahertz_to_kilohertz(3200), Some(3200000));
    assert_eq!(megahertz_to_kilohertz(4294967), Some(4294967000));
    for megahertz in [1, 7, 999, 1001, 2400, 5300] {
        let khz = megahertz_to_kilohertz(megahertz).unwrap();
        assert_eq!(khz % 1000, 0);
        assert_eq!((khz / 1000) as i32, megahertz);
    }
}

#[test]
fn frequencies_that_no_setting_can_hold() {
    assert_eq!(megahertz_to_kilohertz(-1), None);
    assert_eq!(megahertz_to_kilohertz(4294968), None);
    assert_eq!(megahertz_to_kilohertz(i32::MAX), None);
    assert_eq!(megahertz_to_kilohertz(i32::MIN), None);
}

#[test]
fn the_lists_of_choices() {
    assert_eq!(
        get_epps(),
        vec!["performance", "balance_performance", "default", "balance_power", "power"]
    );
    assert_eq!(get_governors("active"), vec!["performance", "powersave"]);
    let all =
        vec!["conservative", "ondemand", "userspace", "powersave", "performance", "schedutil"];
    assert_eq!(get_governors("passive"), all);
    assert_eq!(get_governors("guided"), all);
    assert_eq!(get_governors(""), all);
    assert_eq!(get_governors("Active"), all);
}

#[test]
fn form_of_absent_settings() {
    assert_eq!(
        CPUForm::new(&absent()),
        CPUForm {
            mode: off(String::from("passive")),
            epp: off(String::new()),
            governor: off(String::new()),
            min_freq: off(0),
            max_freq: off(0),
            min_perf_pct: off(0),
            max_perf_pct: off(0),
            boost: off(false),
            hwp_dyn_boost: off(false),
        }
    );
}

#[test]
fn form_of_present_settings() {
    let settings = CPUSettings {
        mode: Some(String::from("active")),
        governor: Some(String::from("performance")),
        energy_performance_preference: Some(String::from("power")),
        min_frequency: Some(400000),
        max_frequency: Some(5000000),
        min_perf_pct: Some(20),
        max_perf_pct: Some(255),
        boost: Some(true),
        hwp_dyn_boost: Some(false),
    };
    let expected = CPUForm {
        mode: on(String::from("active")),
        epp: on(String::from("power")),
        governor: on(String::from("performance")),
        min_freq: on(400),
        max_freq: on(5000),
        min_perf_pct: on(20),
        max_perf_pct: on(255),
        boost: on(true),
        hwp_dyn_boost: on(false),
    };
    assert_eq!(CPUForm::new(&settings), expected);
    let mut form = filled();
    form.set_values(&settings);
    assert_eq!(form, expected);
    form.set_values(&absent());
    assert_eq!(form, CPUForm::new(&absent()));
}

#[test]
fn form_shows_kilohertz_in_megahertz() {
    let mut settings = absent();
    settings.min_frequency = Some(2400000);
    settings.max_frequency = Some(4294967295);
    let form = CPUForm::new(&settings);
    assert_eq!(form.min_freq, on(2400));
    assert_eq!(form.max_freq, on(4294967));
    settings.min_frequency = Some(999);
    settings.max_frequency = Some(1000);
    let form = CPUForm::new(&settings);
    assert_eq!(form.min_freq, on(0));
    assert_eq!(form.max_freq, on(1));
}

#[test]
fn shown_and_submitted_unchanged_gives_the_settings_back() {
    let settings = CPUSettings {
        mode: Some(String::from("active")),
        governor: Some(String::from("powersave")),
        energy_performance_preference: Some(String::from("balance_power")),
        min_frequency: Some(2400000),
        max_frequency: Some(4294967000),
        min_perf_pct: Some(0),
        max_perf_pct: Some(100),
        boost: Some(true),
        hwp_dyn_boost: Some(false),
    };
    assert_eq!(CPUForm::new(&settings).to_settings(&everything()), Ok(settings.clone()));
    let mut form = filled();
    form.set_values(&settings);
    assert_eq!(form.to_settings(&everything()), Ok(settings));
    assert_eq!(CPUForm::new(&absent()).to_settings(&everything()), Ok(absent()));
}

#[test]
fn a_part_of_a_megahertz_is_left_off() {
    let mut settings = absent();
    settings.min_frequency = Some(2400999);
    let submitted = CPUForm::new(&settings).to_settings(&everything()).unwrap();
    assert_eq!(submitted.min_frequency, Some(2400000));
}

#[test]
fn submitted_form_enforces_what_is_switched_on() {
    assert_eq!(
        filled().to_settings(&everything()),
        Ok(CPUSettings {
            mode: Some(String::from("active")),
            governor: Some(String::from("powersave")),
            energy_performance_preference: Some(String::from("balance_power")),
            min_frequency: Some(800000),
            max_frequency: Some(3200000),
            min_perf_pct: Some(0),
            max_perf_pct: Some(100),
            boost: Some(false),
            hwp_dyn_boost: Some(true),
        })
    );
}

#[test]
fn submitted_form_leaves_out_what_the_machine_cannot_take() {
    assert_eq!(
        filled().to_settings(&nothing()),
        Ok(CPUSettings {
            mode: None,
            governor: Some(String::from("powersave")),
            energy_performance_preference: None,
            min_frequency: Some(800000),
            max_frequency: Some(3200000),
            min_perf_pct: Some(0),
            max_perf_pct: Some(100),
            boost: Some(false),
            hwp_dyn_boost: None,
        })
    );
}

#[test]
fn submitted_form_leaves_out_what_is_switched_off() {
    let form = CPUForm {
        mode: off(String::from("active")),
        epp: off(String::from("power")),
        governor: off(String::from("performance")),
        min_freq: off(-5),
        max_freq: off(99999999),
        min_perf_pct: off(-1),
        max_perf_pct: off(101),
        boost: off(true),
        hwp_dyn_boost: off(true),
    };
    assert_eq!(form.to_settings(&everything()), Ok(absent()));
}

#[test]
fn dynamic_boost_needs_the_active_mode() {
    let mut form = filled();
    form.mode = on(String::from("passive"));
    assert_eq!(form.to_settings(&everything()).unwrap().hwp_dyn_boost, None);
    form.mode = off(String::from("active"));
    let settings = form.to_settings(&everything()).unwrap();
    assert_eq!(settings.mode, None);
    assert_eq!(settings.hwp_dyn_boost, Some(true));
}

#[test]
fn submitted_form_rejects_bad_numbers() {
    let mut form = filled();
    form.min_freq = on(-1);
    assert_eq!(form.to_settings(&everything()), Err(FormError::Frequency));
    let mut form = filled();
    form.max_freq = on(4294968);
    form.max_perf_pct = on(101);
    assert_eq!(form.to_settings(&everything()), Err(FormError::Frequency));
    let mut form = filled();
    form.max_perf_pct = on(101);
    assert_eq!(form.to_settings(&everything()), Err(FormError::Percentage));
    let mut form = filled();
    form.min_perf_pct = on(-1);
    assert_eq!(form.to_settings(&everything()), Err(FormError::Percentage));
}
