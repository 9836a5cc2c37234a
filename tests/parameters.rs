use arch_sway::parameters::{
    answer_or, network_interfaces, parse_wifi_answer, partition_prefix, predictable_net_name,
    wifi_by_default, Parameters,
};

#[test]
fn dummy_parameters() {
    let p = Parameters::dummy();
    assert!(p.efi);
    assert!(p.wifi_enabled);
    assert_eq!(p.part_num, 0);
    assert_eq!(p.wifi_ssid, "MyWiFi");
    assert_eq!(p.username, "");
    assert_eq!(p.clone().wifi_ssid, "MyWiFi");
}

#[test]
fn answers_fall_back_to_defaults() {
    assert_eq!(answer_or(String::new(), "dhost"), "dhost");
    assert_eq!(answer_or("box".to_string(), "dhost"), "box");
}

#[test]
fn partition_prefix_for_nvme_only() {
    assert_eq!(partition_prefix("nvme0n1"), "p");
    assert_eq!(partition_prefix("sda"), "");
}

#[test]
fn wifi_question() {
    assert!(wifi_by_default("wlan0"));
    assert!(wifi_by_default("wlp1s0"));
    assert!(!wifi_by_default("eth0"));
    assert_eq!(parse_wifi_answer("", true).ok(), Some(true));
    assert_eq!(parse_wifi_answer("", false).ok(), Some(false));
    assert_eq!(parse_wifi_answer("true", false).ok(), Some(true));
    assert_eq!(parse_wifi_answer("false", true).ok(), Some(false));
    match parse_wifi_answer("yes", true) {
        Err(e) => assert_eq!(e.message, "configure wifi is a boolean parameter"),
        Ok(_) => panic!("only true or false are accepted"),
    }
}

#[test]
fn network_interfaces_are_filtered() {
    let names: Vec<String> = ["lo", "wlan0", "eth0", "docker0", "enp3s0", "wlp2s0", "xeth"]
        .iter()
        .map(|s| s.to_string())
        .collect();
    assert_eq!(
        network_interfaces(&names).ok().unwrap(),
        vec!["wlan0", "eth0", "enp3s0", "wlp2s0"]
    );
    assert!(network_interfaces(&vec![]).ok().unwrap().is_empty());
}

#[test]
fn udev_name_is_read() {
    let out = "Load module index\nID_NET_NAMING_SCHEME=v252\nID_NET_NAME_MAC=wlx00\nID_NET_NAME_PATH=wlp1s0\nUnload module index\n";
    assert_eq!(predictable_net_name(out), "wlp1s0");
    assert_eq!(predictable_net_name("nothing\n"), "");
}

#[test]
fn assembled_parameters() {
    let p = Parameters::assemble(
        true,
        "nvme0n1".to_string(),
        "America/Toronto".to_string(),
        "dhost".to_string(),
        "user".to_string(),
        "wlp1s0".to_string(),
        "wlan0".to_string(),
        true,
        "home".to_string(),
        "pw".to_string(),
    );
    assert_eq!(p.part_num, 2);
    assert_eq!(p.part_num_prefix, "p");
    assert_eq!(p.user_id, "1000");
    assert_eq!(p.user_gid, "1000");
    assert_eq!(p.net_dev, "wlp1s0");
    let q = Parameters::assemble(
        false,
        "sda".to_string(),
        String::new(),
        String::new(),
        String::new(),
        String::new(),
        String::new(),
        false,
        String::new(),
        String::new(),
    );
    assert_eq!(q.part_num, 1);
    assert_eq!(q.part_num_prefix, "");
}
