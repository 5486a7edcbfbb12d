use power_daemon::network::{
    disable_all_ethernet_cards, ethernet_down_commands, matching_interfaces_down, NetworkProbe,
    NetworkSettings,
};
use power_daemon::outcome::ApplyError;

fn names(list: &[&str]) -> Vec<String> {
    list.iter().map(|name| String::from(*name)).collect()
}

fn plain() -> NetworkSettings {
    NetworkSettings {
        disable_ethernet: false,
        disable_wifi_7: false,
        disable_wifi_6: false,
        disable_wifi_5: false,
        enable_power_save: None,
        power_level: None,
        power_scheme: None,
        enable_uapsd: None,
    }
}

fn probe(interfaces: Option<Vec<String>>, wifi_modules: &str) -> NetworkProbe {
    NetworkProbe { interfaces, wifi_modules: String::from(wifi_modules) }
}

#[test]
fn ethernet_cards_are_picked_by_the_start_of_their_name() {
    let interfaces = names(&["lo", "eth0", "wlan0", "enp3s0", "ens1", "eno2", "xeth0", "en", "ENP1"]);
    assert_eq!(
        disable_all_ethernet_cards(&interfaces),
        Ok(names(&[
            "ifconfig eth0 down",
            "ifconfig enp3s0 down",
            "ifconfig ens1 down",
            "ifconfig eno2 down"
        ]))
    );
}

#[test]
fn ethernet_cards_of_an_empty_listing() {
    assert_eq!(disable_all_ethernet_cards(&vec![]), Ok(vec![]));
}

#[test]
fn ethernet_down_commands_follow_the_marks() {
    let interfaces = names(&["a", "b", "c"]);
    assert_eq!(
        ethernet_down_commands(&interfaces, &vec![true, false, true]),
        names(&["ifconfig a down", "ifconfig c down"])
    );
    assert!(ethernet_down_commands(&interfaces, &vec![false, false, false]).is_empty());
    assert!(ethernet_down_commands(&interfaces, &vec![true, true]).is_empty());
}

#[test]
fn network_reloads_modules_even_with_nothing_enforced() {
    assert_eq!(
        plain().apply(&probe(None, "")),
        Ok(names(&[
            "modprobe -r iwldvm && modprobe -r iwlwifi && modprobe iwldvm  && modprobe iwlwifi "
        ]))
    );
}

#[test]
fn network_uses_iwlmvm_where_it_is_loaded() {
    let mut settings = plain();
    settings.power_scheme = Some(2);
    assert_eq!(
        settings.apply(&probe(None, "iwlmvm                589824  0\n")),
        Ok(names(&[
            "modprobe -r iwlmvm && modprobe -r iwlwifi && modprobe iwlmvm power_scheme=2 && modprobe iwlwifi "
        ]))
    );
}

#[test]
fn network_power_scheme_on_iwldvm_knows_low_power_only() {
    let mut settings = plain();
    settings.power_scheme = Some(3);
    assert_eq!(
        settings.apply(&probe(None, "iwldvm 1 0")),
        Ok(names(&[
            "modprobe -r iwldvm && modprobe -r iwlwifi && modprobe iwldvm force_cam=0 && modprobe iwlwifi "
        ]))
    );
    settings.power_scheme = Some(1);
    assert_eq!(
        settings.apply(&probe(None, "iwldvm 1 0")),
        Ok(names(&[
            "modprobe -r iwldvm && modprobe -r iwlwifi && modprobe iwldvm  && modprobe iwlwifi "
        ]))
    );
}

#[test]
fn network_driver_parameters_in_order() {
    let settings = NetworkSettings {
        disable_ethernet: false,
        disable_wifi_7: true,
        disable_wifi_6: true,
        disable_wifi_5: true,
        enable_power_save: Some(true),
        power_level: Some(5),
        power_scheme: Some(1),
        enable_uapsd: Some(true),
    };
    assert_eq!(
        settings.apply(&probe(None, "iwlmvm")),
        Ok(names(&[
            "modprobe -r iwlmvm && modprobe -r iwlwifi && modprobe iwlmvm power_scheme=1 && modprobe iwlwifi disable_11ac=1 disable_11ax=1 disable_11be=1 power_save=1 power_level=5 uapsd_disable=0 "
        ]))
    );
}

#[test]
fn network_switches_are_written_negated_where_the_module_wants_it() {
    let mut settings = plain();
    settings.enable_power_save = Some(false);
    settings.enable_uapsd = Some(false);
    settings.power_level = Some(0);
    assert_eq!(
        settings.apply(&probe(None, "")),
        Ok(names(&[
            "modprobe -r iwldvm && modprobe -r iwlwifi && modprobe iwldvm  && modprobe iwlwifi power_save=0 power_level=0 uapsd_disable=1 "
        ]))
    );
}

#[test]
fn network_disables_ethernet_before_the_reload() {
    let mut settings = plain();
    settings.disable_ethernet = true;
    assert_eq!(
        settings.apply(&probe(Some(names(&["lo", "enp0s31f6", "wlp2s0"])), "")),
        Ok(names(&[
            "ifconfig enp0s31f6 down",
            "modprobe -r iwldvm && modprobe -r iwlwifi && modprobe iwldvm  && modprobe iwlwifi "
        ]))
    );
}

#[test]
fn network_fails_where_interfaces_cannot_be_listed() {
    let mut settings = plain();
    settings.disable_ethernet = true;
    assert_eq!(settings.apply(&probe(None, "iwlmvm")), Err(ApplyError::Unlisted));
}

#[test]
fn network_ignores_the_listing_where_ethernet_stays() {
    let settings = plain();
    assert_eq!(
        settings.apply(&probe(Some(names(&["eth0"])), "")),
        Ok(names(&[
            "modprobe -r iwldvm && modprobe -r iwlwifi && modprobe iwldvm  && modprobe iwlwifi "
        ]))
    );
}

#[test]
fn interfaces_are_picked_by_any_pattern() {
    let interfaces = names(&["lo", "wlan0", "wlp2s0", "eth0"]);
    assert_eq!(
        matching_interfaces_down(&interfaces, "^wl"),
        Ok(names(&["ifconfig wlan0 down", "ifconfig wlp2s0 down"]))
    );
    assert_eq!(
        matching_interfaces_down(&interfaces, "0$"),
        Ok(names(&["ifconfig wlan0 down", "ifconfig wlp2s0 down", "ifconfig eth0 down"]))
    );
    assert_eq!(matching_interfaces_down(&interfaces, "^$"), Ok(vec![]));
}

#[test]
fn a_pattern_that_is_not_accepted_is_a_fault() {
    let interfaces = names(&["lo", "eth0"]);
    assert_eq!(matching_interfaces_down(&interfaces, "(eth"), Err(ApplyError::PatternRejected));
    assert_eq!(matching_interfaces_down(&interfaces, "eth[0"), Err(ApplyError::PatternRejected));
}
