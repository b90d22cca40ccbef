use thermalai_daemon::sensing::{
    call_active_from, gpu_load_from, is_touch_controller_name, known_touch_tuning_attr, plug_state_from,
    screen_off_from, wifi_active_from, IfaceReading, SupplyReading,
};

fn s(x: &str) -> Option<String> {
    Some(x.to_string())
}

#[test]
fn screen_state_from_backlight_and_panel() {
    assert!(screen_off_from(&vec![s("0\n")]));
    assert!(!screen_off_from(&vec![s("512\n"), s("0")]));
    assert!(screen_off_from(&vec![None, s("  \n"), s("off")]));
    assert!(screen_off_from(&vec![None, None, s("panel sleeping")]));
    assert!(!screen_off_from(&vec![None, None, None]));
}

#[test]
fn gpu_load_sources_in_order() {
    assert_eq!(gpu_load_from(Some("130\n"), None, &vec![]), Some(100));
    assert_eq!(gpu_load_from(Some("x"), Some("1 8"), &vec![]), Some(13));
    assert_eq!(gpu_load_from(Some("x"), Some("5 0"), &vec![(s("3"), s("4"))]), Some(75));
    assert_eq!(gpu_load_from(None, None, &vec![(None, s("4")), (s("1"), s("3")), (s("2"), s("2"))]), Some(33));
    assert_eq!(gpu_load_from(None, None, &vec![(s("1"), s("0"))]), None);
}

#[test]
fn plug_state_prefers_known_charger_then_supplies() {
    assert_eq!(plug_state_from(Some((Some(1), None)), &vec![], None), (true, true));
    assert_eq!(plug_state_from(Some((None, Some(0))), &vec![], None), (false, true));
    let supplies = vec![
        SupplyReading { kind: "Battery".to_string(), online: Some(1), present: Some(1) },
        SupplyReading { kind: "USB_PD".to_string(), online: Some(0), present: None },
        SupplyReading { kind: "Wireless".to_string(), online: None, present: Some(1) },
    ];
    assert_eq!(plug_state_from(None, &supplies, None), (true, true));
    assert_eq!(plug_state_from(Some((None, None)), &supplies[..2].iter().map(|x| SupplyReading { kind: x.kind.clone(), online: x.online, present: x.present }).collect(), None), (false, true));
    assert_eq!(plug_state_from(None, &vec![], Some("Charging")), (true, false));
    assert_eq!(plug_state_from(None, &vec![], Some("Not charging")), (true, false));
    assert_eq!(plug_state_from(None, &vec![], None), (false, false));
}

fn iface(name: &str, up: bool) -> IfaceReading {
    IfaceReading { name: name.to_string(), up }
}

#[test]
fn wifi_activity_remembers_the_interface() {
    let ifs = vec![iface("lo", true), iface("rmnet_data0", true), iface("wlan0", true)];
    assert_eq!(wifi_active_from(None, &ifs), (true, Some("wlan0".to_string())));
    assert_eq!(wifi_active_from(Some("rmnet_data0"), &ifs), (true, Some("rmnet_data0".to_string())));
    let ifs = vec![iface("lo", true), iface("eth0", false), iface("usb0", true), iface("wlan0", false)];
    assert_eq!(wifi_active_from(Some("wlan0"), &ifs), (true, Some("usb0".to_string())));
    assert_eq!(wifi_active_from(Some("x"), &vec![iface("lo", true)]), (false, None));
}

#[test]
fn touch_controllers_and_attributes() {
    assert!(is_touch_controller_name(" Goodix_TS "));
    assert!(is_touch_controller_name("fts_ts"));
    assert!(!is_touch_controller_name("gpio-keys"));
    assert!(!is_touch_controller_name("virtual-touch"));
    assert!(!is_touch_controller_name("qpnp_pon"));
    assert!(known_touch_tuning_attr("game_mode"));
    assert!(!known_touch_tuning_attr("game"));
    assert!(call_active_from("  mCallState=2\n"));
    assert!(!call_active_from("mCallState=0"));
}
