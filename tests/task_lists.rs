use arch_sway::parameters::Parameters;
use arch_sway::task_lists::{installation_list, qemu_list, sync_list};
use arch_sway::tasks::{Info, RequireUser, StageCompleted, TaskSignal, TextFile, User, WifiConnect};

#[test]
fn task_names_and_signals() {
    let check = RequireUser::new("install", "root");
    assert_eq!(check.name(), "check_required_user_root_for_install");
    assert!(matches!(check.signal(), TaskSignal::RequireUser(u) if u == "root"));
    assert_eq!(TextFile::new("/etc/x", "y").name(), "text_file:/etc/x");
    assert_eq!(WifiConnect::new(Parameters::dummy()).name(), "connect_to_wifi_ssid:MyWiFi");
    assert_eq!(Info::new("hi").name(), "");
    assert!(matches!(Info::new("hi").signal(), TaskSignal::Info));
    match StageCompleted::new("done", "/mnt", "root").signal() {
        TaskSignal::StageCompleted(p) => assert_eq!(p, "/mnt/root/.arch-sway/progress"),
        _ => panic!("expected a stage end"),
    }
}

#[test]
fn installation_has_two_stages() {
    let mut p = Parameters::dummy();
    p.username = "user".to_string();
    let r = installation_list(p);
    assert_eq!(r.tasks.len(), 42);
    assert_eq!(r.tasks[15].name(), "chroot_stage_completed");
    match r.tasks[41].signal() {
        TaskSignal::StageCompleted(p) => assert_eq!(p, "/home/user/.arch-sway/progress"),
        _ => panic!("expected a stage end"),
    }
    let names = r.list();
    assert_eq!(names.len(), 39);
    assert_eq!(names[0], "check_required_user_root_for_chroot");
    assert_eq!(names[1], "connect_to_wifi_ssid:MyWiFi");
    let mut sorted = names.clone();
    sorted.sort();
    sorted.dedup();
    assert_eq!(sorted.len(), names.len());
}

#[test]
fn sync_and_qemu_lists() {
    let s = sync_list(Parameters::dummy());
    assert_eq!(s.tasks.len(), 6);
    assert_eq!(s.list()[0], "check_required_user_root_for_config_sync");
    let mut p = Parameters::dummy();
    p.net_dev = "enp3s0".to_string();
    let q = qemu_list(p);
    assert_eq!(q.tasks.len(), 11);
    assert!(q
        .list()
        .contains(&"text_file:/etc/systemd/network/qemu0-enp3s0-uplink.network".to_string()));
}

#[test]
fn user_creation_is_never_recorded() {
    let t = User::new(Parameters::dummy());
    assert_eq!(t.name(), "create_user");
    assert!(matches!(t.signal(), TaskSignal::Info));
}

#[test]
fn workflow_names_in_order() {
    let s = sync_list(Parameters::dummy());
    let names: Vec<String> = s.tasks.iter().map(|t| t.name()).collect();
    assert_eq!(
        names,
        vec![
            "check_required_user_root_for_config_sync",
            "arch_sway_git_repo",
            "add_global_env_variables",
            "create_sway_config_files",
            "bashrc_and_user_bin_dir",
            "",
        ]
    );
    assert!(matches!(s.tasks[5].signal(), TaskSignal::Info));
    let mut p = Parameters::dummy();
    p.net_dev = "enp3s0".to_string();
    let q = qemu_list(p);
    assert_eq!(q.tasks[0].name(), "check_required_user_root_for_qemu_install");
    assert_eq!(
        q.tasks[5].name(),
        "text_file:/etc/systemd/network/qemu0-enp3s0-uplink.network"
    );
    assert!(matches!(q.tasks[10].signal(), TaskSignal::Info));
    let mut p = Parameters::dummy();
    p.username = "user".to_string();
    let r = installation_list(p);
    assert_eq!(r.tasks[4].name(), "create_partitions");
    assert_eq!(r.tasks[5].name(), "create_filesystems");
    assert_eq!(r.tasks[16].name(), "check_required_user_root_for_install");
    for i in [12, 14, 22, 40] {
        assert!(matches!(r.tasks[i].signal(), TaskSignal::Info));
    }
}
