use arch_sway::base_methods::{confirmation, contains_line, nth_piece, replace_lines, LinePattern};
use arch_sway::parameters::Parameters;
use arch_sway::provisioning::{
    command_line, grub_resume_line, hosts_file, iso_label, mem_total_kb, swap_file_offset,
    with_resume_hook,
};
use arch_sway::tasks::{Netplan, StageCompleted, Task, WifiConnect};

#[test]
fn command_line_splits_at_whitespace() {
    let words = command_line("  pacman -Sy   --noconfirm git ").ok().unwrap();
    assert_eq!(words, vec!["pacman", "-Sy", "--noconfirm", "git"]);
    match command_line(" \t ") {
        Err(e) => assert_eq!(e.message, "command cannot be empty"),
        Ok(_) => panic!("an empty command line must be refused"),
    }
}

#[test]
fn mem_total_is_read_from_meminfo() {
    let meminfo = "MemTotal:       32577276 kB\nMemFree:         1234 kB\n";
    assert_eq!(mem_total_kb(meminfo), Some("32577276".to_string()));
    assert_eq!(mem_total_kb("MemFree: 1 kB\n"), None);
    assert_eq!(mem_total_kb(""), None);
}

#[test]
fn swap_offset_is_read_from_filefrag() {
    let out = "Filesystem type is: ef53\nFile size of /swapfile is 4294967296 (1048576 blocks of 4096 bytes)\n ext:     logical_offset:        physical_offset: length:   expected: flags:\n   0:        0..   32767:      34816..     67583:  32768:\n   1:    32768..   63487:      67584..     98303:  30720:\n";
    assert_eq!(swap_file_offset(out), Some("34816".to_string()));
    assert_eq!(swap_file_offset("nothing here\n"), None);
}

#[test]
fn resume_hook_is_added_once() {
    let conf = "MODULES=()\nHOOKS=(base udev autodetect modconf block filesystems keyboard fsck)\n";
    assert_eq!(
        with_resume_hook(conf),
        Some("MODULES=()\nHOOKS=(base udev autodetect modconf block filesystems keyboard fsck resume)\n".to_string())
    );
    let done = "HOOKS=(base udev resume)\n";
    assert_eq!(with_resume_hook(done), None);
}

#[test]
fn grub_line_names_swap_device_and_offset() {
    assert_eq!(
        grub_resume_line(" 1234-abcd\n", "34816 "),
        "GRUB_CMDLINE_LINUX_DEFAULT=\"loglevel=3 quiet resume=UUID=1234-abcd resume_offset=34816\""
    );
}

#[test]
fn hosts_file_names_the_host() {
    assert_eq!(
        hosts_file("dhost"),
        "# Static table lookup for hostnames. # See hosts(5) for details. 127.0.0.1\tlocalhost ::1\t\tlocalhost 127.0.1.1\tdhost.localdomain\tdhost\n"
    );
}

#[test]
fn iso_label_from_image_name() {
    assert_eq!(
        iso_label("/home/user/Downloads/archlinux-2022.10.01-x86_64.iso"),
        Some("ARCH_202210".to_string())
    );
    assert_eq!(iso_label("/tmp/image.iso"), None);
    assert_eq!(iso_label("/tmp/archlinux-2022-x86_64.iso"), None);
}

#[test]
fn pieces_split_like_str_split() {
    assert_eq!(nth_piece("a=b=c", '=', 1), Some("b".to_string()));
    assert_eq!(nth_piece("a=b=c", '=', 2), Some("c".to_string()));
    assert_eq!(nth_piece("a=b=c", '=', 3), None);
    assert_eq!(nth_piece("", '=', 0), Some(String::new()));
}

#[test]
fn lines_are_found_and_rewritten() {
    let text = "# en_US.UTF-8 UTF-8\n#ru_RU.UTF-8 UTF-8\nother\n";
    assert!(contains_line(text, "other"));
    assert!(!contains_line(text, "othe"));
    let pattern = LinePattern::new(r"# *en_US.UTF-8 UTF-8").ok().unwrap();
    assert_eq!(
        replace_lines(text, &pattern, "en_US.UTF-8 UTF-8"),
        "en_US.UTF-8 UTF-8\n#ru_RU.UTF-8 UTF-8\nother"
    );
    let grub = LinePattern::new("GRUB_CMDLINE_LINUX_DEFAULT=.*").ok().unwrap();
    assert_eq!(
        replace_lines("GRUB_CMDLINE_LINUX_DEFAULT=\"quiet\"", &grub, "GRUB_CMDLINE_LINUX_DEFAULT=\"x\""),
        "GRUB_CMDLINE_LINUX_DEFAULT=\"x\""
    );
}

#[test]
fn invalid_pattern_is_refused() {
    match LinePattern::new("foo(bar") {
        Err(e) => assert_eq!(e.message, "invalid regular expression: foo(bar"),
        Ok(_) => panic!("the pattern is invalid"),
    }
}

fn params(wifi: bool) -> Parameters {
    let mut p = Parameters::dummy();
    p.wifi_enabled = wifi;
    p.net_dev = "wlp1s0".to_string();
    p.wifi_ssid = "home".to_string();
    p.wifi_password = "secret".to_string();
    p
}

#[test]
fn netplan_fills_in_the_template() {
    let t = "dev: _NETWORK_INTERFACE_ ssid: _WIFI_SSID_ pw: _WIFI_PASSWORD_";
    match Netplan::new(params(true)) {
        Task::Netplan(n) => {
            assert_eq!(n.render(t), "dev: wlp1s0 ssid: home pw: secret");
            let (template, target) = n.files();
            assert_eq!(template, "netplan-wifi-config.yaml");
            assert_eq!(target, "/etc/netplan/wifi-config.yaml");
        }
        _ => panic!("expected a netplan task"),
    }
    match Netplan::new(params(false)) {
        Task::Netplan(n) => {
            assert_eq!(n.render(t), "dev: wlp1s0 ssid: _WIFI_SSID_ pw: _WIFI_PASSWORD_");
            assert_eq!(n.files().1, "/etc/netplan/eth-config.yaml");
        }
        _ => panic!("expected a netplan task"),
    }
}

#[test]
fn wifi_connects_only_without_a_route() {
    match WifiConnect::new(params(true)) {
        Task::WifiConnect(w) => {
            assert!(w.needs_route_check());
            assert!(w.should_connect(None));
            assert!(w.should_connect(Some(String::new())));
            assert!(!w.should_connect(Some("default via 10.0.0.1".to_string())));
        }
        _ => panic!("expected a wifi task"),
    }
    match WifiConnect::new(params(false)) {
        Task::WifiConnect(w) => {
            assert!(!w.needs_route_check());
            assert!(!w.should_connect(None));
        }
        _ => panic!("expected a wifi task"),
    }
}

#[test]
fn stage_relocation_plan() {
    match StageCompleted::new("chroot_stage_completed", "/mnt", "root") {
        Task::StageCompleted(s) => {
            let plan = s.relocation("root").unwrap();
            assert_eq!(plan.repo_dir, "/root/src/arch-sway");
            assert_eq!(plan.repo_dir_dest, "/mnt/root/src/arch-sway");
            assert_eq!(plan.conf_dir_dest, "/mnt/root/.arch-sway");
            assert_eq!(plan.src_dir_dest, "/mnt/root/src");
            assert_eq!(plan.bin_file_dest, Some("/mnt/usr/local/bin/arch-sway".to_string()));
            assert_eq!(plan.owner, Some("root".to_string()));
        }
        _ => panic!("expected a stage end"),
    }
    match StageCompleted::new("installation_completed", "", "user") {
        Task::StageCompleted(s) => {
            let plan = s.relocation("root").unwrap();
            assert_eq!(plan.conf_dir, "/root/.arch-sway");
            assert_eq!(plan.conf_dir_dest, "/home/user/.arch-sway");
            assert_eq!(plan.bin_file_dest, None);
        }
        _ => panic!("expected a stage end"),
    }
}

#[test]
fn confirmation_ignores_case() {
    assert_eq!(confirmation("Y"), Some(true));
    assert_eq!(confirmation("y"), Some(true));
    assert_eq!(confirmation("N"), Some(false));
    assert_eq!(confirmation("yes"), None);
    assert_eq!(confirmation(""), None);
}

#[test]
fn text_helpers_follow_std() {
    assert_eq!(command_line("a\u{3000}b\u{85}c").ok().unwrap(), vec!["a", "b", "c"]);
    assert!(contains_line("x\r\ny", "x"));
    assert!(!contains_line("x\r", "x"));
    assert_eq!(grub_resume_line("\u{2009}u\u{a0}", "\t1\n"), "GRUB_CMDLINE_LINUX_DEFAULT=\"loglevel=3 quiet resume=UUID=u resume_offset=1\"");
}
