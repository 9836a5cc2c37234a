//! The workflows: ordered task lists for each use of the program.
use vstd::prelude::*;

use crate::parameters::Parameters;
use crate::paths::progress_file_path;
use crate::runner::TaskRunner;
use crate::tasks::{
    Bashrc, Bluetooth, Command, CpuGovernor, Docker, GitRepo, Grub, Hibernation,
    Hostname, Info, Locales, Netplan, Network, Partitions, RequireUser, Resolved,
    SignalModel, StageCompleted, Swap, SwayConfigs, Task, TextFile, User, Variables, WifiConnect, FS,
};

verus! {

/// The name and signal of each task, in order.
pub open spec fn plan_of(tasks: Seq<Task>) -> Seq<(Seq<char>, SignalModel)> {
    tasks.map_values(|t: Task| (t.name_view(), t.signal_view()))
}

/// The installation workflow: the name and signal of each task, in order
/// (an empty name for the informational tasks).
pub open spec fn installation_plan(p: Parameters) -> Seq<(Seq<char>, SignalModel)> {
    let d = SignalModel::Default;
    seq![
        ("check_required_user_root_for_chroot"@, SignalModel::RequireUser("root"@)),
        ("connect_to_wifi_ssid:"@ + p.wifi_ssid@, d),
        ("install_git"@, d),
        ("arch_sway_git_repo"@, d),
        ("create_partitions"@, d),
        ("create_filesystems"@, d),
        ("update_archlinux_keyring"@, d),
        ("pacstrap_packages"@, d),
        ("save_fstab"@, d),
        ("set_timezone"@, d),
        ("configure_locales"@, d),
        ("set_hostname"@, d),
        ("create_user"@, SignalModel::Info),
        ("install_grub_bootloader"@, d),
        (Seq::empty(), SignalModel::Info),
        ("chroot_stage_completed"@, SignalModel::StageCompleted(progress_file_path("/mnt"@, "root"@))),
        ("check_required_user_root_for_install"@, SignalModel::RequireUser("root"@)),
        ("enable_ntp"@, d),
        ("configure_network"@, d),
        ("configure_systemd_resolved"@, d),
        ("netplan_configuration"@, d),
        ("install_sway_packages"@, d),
        (Seq::empty(), SignalModel::Info),
        ("install_utilities_fonts_themes"@, d),
        ("add_global_env_variables"@, d),
        ("create_sway_config_files"@, d),
        ("install_pipewire"@, d),
        ("create_swap_file"@, d),
        ("enable_hibernation_and_suspend"@, d),
        ("text_file:/etc/sysctl.d/01-swappiness.conf"@, d),
        ("set_performance_cpu_governor"@, d),
        ("setup_bluetooth"@, d),
        ("setup_docker"@, d),
        ("install_rust_toolchain"@, d),
        ("install_yay_aur"@, d),
        ("install_aur_packages"@, d),
        ("add_user_to_input_group"@, d),
        ("start_pipewire"@, d),
        ("bashrc_and_user_bin_dir"@, d),
        ("install_desktop_apps"@, d),
        (Seq::empty(), SignalModel::Info),
        ("installation_completed"@, SignalModel::StageCompleted(progress_file_path(Seq::empty(), p.username@))),
    ]
}

/// The configuration refresh workflow: the name and signal of each task.
pub open spec fn sync_plan(p: Parameters) -> Seq<(Seq<char>, SignalModel)> {
    let d = SignalModel::Default;
    seq![
        ("check_required_user_root_for_config_sync"@, SignalModel::RequireUser("root"@)),
        ("arch_sway_git_repo"@, d),
        ("add_global_env_variables"@, d),
        ("create_sway_config_files"@, d),
        ("bashrc_and_user_bin_dir"@, d),
        (Seq::empty(), SignalModel::Info),
    ]
}

/// The virtual machine workflow: the name and signal of each task.
pub open spec fn qemu_plan(p: Parameters) -> Seq<(Seq<char>, SignalModel)> {
    let d = SignalModel::Default;
    seq![
        ("check_required_user_root_for_qemu_install"@, SignalModel::RequireUser("root"@)),
        ("install_qemu_packages"@, d),
        ("add_user_to_libvirt_group"@, d),
        ("text_file:/etc/systemd/network/qemu0.netdev"@, d),
        ("text_file:/etc/systemd/network/qemu0.network"@, d),
        ("text_file:/etc/systemd/network/qemu0-"@ + p.net_dev@ + "-uplink.network"@, d),
        ("text_file:/etc/qemu/bridge.conf"@, d),
        ("enable_libvirtd_service"@, d),
        ("start_networkd_and_libvirtd_services"@, d),
        ("print_services_status"@, d),
        (Seq::empty(), SignalModel::Info),
    ]
}

/// Every named task of the installation has a name of its own, whatever the
/// parameters: a marker left by any of them fixes a single resume point.
pub proof fn lemma_installation_names_distinct(p: Parameters)
    ensures
        forall|i: int, j: int|
            0 <= i < j < installation_plan(p).len() && installation_plan(p)[i].0.len() > 0
                && installation_plan(p)[j].0.len() > 0 ==> #[trigger] installation_plan(p)[i].0
                != #[trigger] installation_plan(p)[j].0,
{
    let plan = installation_plan(p);
    reveal_strlit("/mnt");
    reveal_strlit("add_global_env_variables");
    reveal_strlit("add_user_to_input_group");
    reveal_strlit("arch_sway_git_repo");
    reveal_strlit("bashrc_and_user_bin_dir");
    reveal_strlit("check_required_user_root_for_chroot");
    reveal_strlit("check_required_user_root_for_install");
    reveal_strlit("chroot_stage_completed");
    reveal_strlit("configure_locales");
    reveal_strlit("configure_network");
    reveal_strlit("configure_systemd_resolved");
    reveal_strlit("connect_to_wifi_ssid:");
    reveal_strlit("create_filesystems");
    reveal_strlit("create_partitions");
    reveal_strlit("create_swap_file");
    reveal_strlit("create_sway_config_files");
    reveal_strlit("create_user");
    reveal_strlit("enable_hibernation_and_suspend");
    reveal_strlit("enable_ntp");
    reveal_strlit("install_aur_packages");
    reveal_strlit("install_desktop_apps");
    reveal_strlit("install_git");
    reveal_strlit("install_grub_bootloader");
    reveal_strlit("install_pipewire");
    reveal_strlit("install_rust_toolchain");
    reveal_strlit("install_sway_packages");
    reveal_strlit("install_utilities_fonts_themes");
    reveal_strlit("install_yay_aur");
    reveal_strlit("installation_completed");
    reveal_strlit("netplan_configuration");
    reveal_strlit("pacstrap_packages");
    reveal_strlit("root");
    reveal_strlit("save_fstab");
    reveal_strlit("set_hostname");
    reveal_strlit("set_performance_cpu_governor");
    reveal_strlit("set_timezone");
    reveal_strlit("setup_bluetooth");
    reveal_strlit("setup_docker");
    reveal_strlit("start_pipewire");
    reveal_strlit("text_file:/etc/sysctl.d/01-swappiness.conf");
    reveal_strlit("update_archlinux_keyring");
    assert forall|i: int, j: int|
        0 <= i < j < plan.len() && plan[i].0.len() > 0 && plan[j].0.len() > 0 implies plan[i].0
            != plan[j].0 by {
        let a = plan[i].0;
        let b = plan[j].0;
        if a == b {
            assert(a[0] == b[0]);
            assert(a[9] == b[9]);
            assert(a[a.len() - 1] == b[b.len() - 1]);
        }
    }
}

/// `a`, `b` and `c`, one after another.
fn text3(a: &str, b: &str, c: &str) -> (r: String)
    ensures
        r@ == a@ + b@ + c@,
{
    let mut r = String::from_str(a);
    r.append(b);
    r.append(c);
    r
}

/// The full installation, in two stages: the first runs from the live medium
/// and ends by moving into the installed system's root account; the second
/// runs there and ends by moving to the user's home.
pub fn installation_list(parameters: Parameters) -> (r: TaskRunner)
    requires
        parameters.username@.len() > 0,
    ensures
        plan_of(r.tasks@) == installation_plan(parameters),
{
    let mut r = TaskRunner::new();
    let username = parameters.username.as_str();

    // stage 1: from the live medium, then inside the chroot
    r.add(RequireUser::new("chroot", "root"));
    r.add(WifiConnect::new(parameters.clone()));
    r.add(Command::new("install_git", "pacman -Sy --noconfirm git", false, false));
    r.add(GitRepo::new());
    r.add(Partitions::new(parameters.clone()));
    r.add(FS::new(parameters.clone()));
    r.add(
        Command::new(
            "update_archlinux_keyring",
            "pacman -Sy --noconfirm archlinux-keyring",
            false,
            false,
        ),
    );
    r.add(
        Command::new(
            "pacstrap_packages",
            "pacstrap /mnt linux linux-firmware base base-devel grub efibootmgr dosfstools os-prober mtools systemd-resolvconf wpa_supplicant netplan openssh dnsutils curl git unzip vim sudo man man-pages tmux sysstat bash-completion go",
            false,
            false,
        ),
    );
    r.add(Command::new("save_fstab", "genfstab -U /mnt >> /mnt/etc/fstab", false, true));
    let set_timezone = text3(
        "arch-chroot /mnt ln -sf /usr/share/zoneinfo/",
        parameters.timezone.as_str(),
        " /etc/localtime && arch-chroot /mnt hwclock --systohc",
    );
    r.add(Command::new("set_timezone", set_timezone.as_str(), false, true));
    r.add(Locales::new());
    r.add(Hostname::new(parameters.clone()));
    r.add(User::new(parameters.clone()));
    r.add(Grub::new(parameters.clone()));
    r.add(Info::new("reboot and continue installation as root"));
    proof {
        reveal_strlit("root");
    }
    r.add(StageCompleted::new("chroot_stage_completed", "/mnt", "root"));

    // stage 2: the installed system, as root
    r.add(RequireUser::new("install", "root"));
    r.add(Command::new("enable_ntp", "timedatectl set-ntp true", false, false));
    r.add(Network::new(parameters.clone()));
    r.add(Resolved::new());
    r.add(Netplan::new(parameters.clone()));
    r.add(
        Command::new(
            "install_sway_packages",
            "pacman -Sy --noconfirm sway swaylock swayidle waybar light xorg-xwayland bemenu-wayland libnotify dunst wl-clipboard alacritty",
            false,
            false,
        ),
    );
    r.add(Info::new("base desktop installed"));
    r.add(
        Command::new(
            "install_utilities_fonts_themes",
            "pacman -Sy --noconfirm grim slurp ddcutil lxappearance syslinux lshw pciutils usbutils noto-fonts noto-fonts-cjk noto-fonts-emoji materia-gtk-theme papirus-icon-theme adwaita-qt5",
            false,
            false,
        ),
    );
    r.add(Variables::new());
    r.add(SwayConfigs::new(parameters.clone()));
    r.add(
        Command::new(
            "install_pipewire",
            "pacman -Sy --noconfirm pipewire pipewire-pulse wireplumber gst-plugin-pipewire xdg-desktop-portal-wlr",
            false,
            false,
        ),
    );
    r.add(Swap::new());
    r.add(Hibernation::new());
    r.add(TextFile::new("/etc/sysctl.d/01-swappiness.conf", "vm.swappiness = 1"));
    r.add(CpuGovernor::new());
    r.add(Bluetooth::new());
    r.add(Docker::new(parameters.clone()));
    let rust_toolchain = text3(
        "pacman -Sy --noconfirm rustup && sudo -u ",
        username,
        " -- rustup default stable",
    );
    r.add(Command::new("install_rust_toolchain", rust_toolchain.as_str(), false, true));
    let yay = text3(
        "sudo -u ",
        username,
        " -- bash -c 'mkdir -p ~/src && cd ~/src && git clone https://aur.archlinux.org/yay-git.git && cd yay-git && makepkg --noconfirm -si'",
    );
    r.add(Command::new("install_yay_aur", yay.as_str(), false, true));
    let aur = text3(
        "sudo -u ",
        username,
        " -- bash -c 'yes | yay --noconfirm -Sy google-chrome wdisplays libinput-gestures'",
    );
    r.add(Command::new("install_aur_packages", aur.as_str(), false, true));
    let input_group = text3("usermod -aG input ", username, "");
    r.add(Command::new("add_user_to_input_group", input_group.as_str(), false, false));
    let mut pipewire = text3("systemctl --user -M ", username, "@.host enable pipewire pipewire-pulse && ");
    pipewire.append("systemctl --user -M ");
    pipewire.append(username);
    pipewire.append("@.host start pipewire pipewire-pulse");
    r.add(Command::new("start_pipewire", pipewire.as_str(), false, true));
    r.add(Bashrc::new(parameters.clone()));
    r.add(
        Command::new(
            "install_desktop_apps",
            "sudo pacman -Sy --noconfirm code evince xournalpp telegram-desktop ristretto drawing transmission-gtk vlc pavucontrol thunar",
            false,
            false,
        ),
    );
    r.add(Info::new("installation finished: reboot and run `sway`"));
    proof {
        reveal_strlit("");
    }
    r.add(StageCompleted::new("installation_completed", "", username));
    proof {
        reveal_strlit("check_required_user_");
        reveal_strlit("root");
        reveal_strlit("_for_");
        reveal_strlit("chroot");
        reveal_strlit("install");
        reveal_strlit("check_required_user_root_for_chroot");
        reveal_strlit("check_required_user_root_for_install");
        reveal_strlit("text_file:");
        reveal_strlit("/etc/sysctl.d/01-swappiness.conf");
        reveal_strlit("text_file:/etc/sysctl.d/01-swappiness.conf");
        assert("check_required_user_"@ + "root"@ + "_for_"@ + "chroot"@
            =~= "check_required_user_root_for_chroot"@);
        assert("check_required_user_"@ + "root"@ + "_for_"@ + "install"@
            =~= "check_required_user_root_for_install"@);
        assert("text_file:"@ + "/etc/sysctl.d/01-swappiness.conf"@
            =~= "text_file:/etc/sysctl.d/01-swappiness.conf"@);
        assert(plan_of(r.tasks@) =~= installation_plan(parameters));
    }
    r
}

/// Refreshes the configuration files of an installed system from the
/// repository; runs in one invocation, as root.
pub fn sync_list(parameters: Parameters) -> (r: TaskRunner)
    ensures
        plan_of(r.tasks@) == sync_plan(parameters),
{
    let mut r = TaskRunner::new();
    r.add(RequireUser::new("config_sync", "root"));
    r.add(GitRepo::new());
    r.add(Variables::new());
    r.add(SwayConfigs::new(parameters.clone()));
    r.add(Bashrc::new(parameters));
    r.add(Info::new("config sync finished. `Super+Shift+r` to reload desktop"));
    proof {
        reveal_strlit("check_required_user_");
        reveal_strlit("root");
        reveal_strlit("_for_");
        reveal_strlit("config_sync");
        reveal_strlit("check_required_user_root_for_config_sync");
        assert("check_required_user_"@ + "root"@ + "_for_"@ + "config_sync"@
            =~= "check_required_user_root_for_config_sync"@);
        assert(plan_of(r.tasks@) =~= sync_plan(parameters));
    }
    r
}

/// Installs the virtual machine stack with a bridged network; runs in one
/// invocation, as root.
pub fn qemu_list(parameters: Parameters) -> (r: TaskRunner)
    ensures
        plan_of(r.tasks@) == qemu_plan(parameters),
{
    let mut r = TaskRunner::new();
    r.add(RequireUser::new("qemu_install", "root"));
    r.add(
        Command::new(
            "install_qemu_packages",
            "pacman -Sy --noconfirm qemu-base virt-manager dmidecode",
            false,
            false,
        ),
    );
    let libvirt_group = text3("usermod -a -G libvirt ", parameters.username.as_str(), "");
    r.add(Command::new("add_user_to_libvirt_group", libvirt_group.as_str(), false, false));
    r.add(TextFile::new("/etc/systemd/network/qemu0.netdev", "[NetDev]\nName=qemu0\nKind=bridge"));
    r.add(
        TextFile::new(
            "/etc/systemd/network/qemu0.network",
            "[Match]\nName=qemu0\n\n[Network]\nAddress=10.0.0.1/24\nIPMasquerade=true\nIPForward=true\nDHCPServer=true\n\n[DHCPServer]\nPoolOffset=1\nPoolSize=50\nEmitDNS=yes\nDNS=1.1.1.1",
        ),
    );
    let net_dev = parameters.net_dev.as_str();
    let uplink_path = text3("/etc/systemd/network/qemu0-", net_dev, "-uplink.network");
    let uplink = text3("[Match]\nName=", net_dev, "\n[Network]\nBridge=br0");
    r.add(TextFile::new(uplink_path.as_str(), uplink.as_str()));
    r.add(TextFile::new("/etc/qemu/bridge.conf", "allow qemu0"));
    r.add(Command::new("enable_libvirtd_service", "systemctl enable libvirtd", false, false));
    r.add(
        Command::new(
            "start_networkd_and_libvirtd_services",
            "systemctl restart systemd-networkd libvirtd",
            false,
            false,
        ),
    );
    r.add(
        Command::new(
            "print_services_status",
            "systemctl status systemd-networkd libvirtd | grep -E '(.service|Active:) '",
            true,
            true,
        ),
    );
    r.add(Info::new("done, to open gui run `virt-manager`"));
    proof {
        reveal_strlit("check_required_user_");
        reveal_strlit("root");
        reveal_strlit("_for_");
        reveal_strlit("qemu_install");
        reveal_strlit("check_required_user_root_for_qemu_install");
        reveal_strlit("text_file:");
        reveal_strlit("/etc/systemd/network/qemu0-");
        reveal_strlit("text_file:/etc/systemd/network/qemu0-");
        reveal_strlit("/etc/systemd/network/qemu0.netdev");
        reveal_strlit("/etc/systemd/network/qemu0.network");
        reveal_strlit("/etc/qemu/bridge.conf");
        reveal_strlit("text_file:/etc/systemd/network/qemu0.netdev");
        reveal_strlit("text_file:/etc/systemd/network/qemu0.network");
        reveal_strlit("text_file:/etc/qemu/bridge.conf");
        assert("check_required_user_"@ + "root"@ + "_for_"@ + "qemu_install"@
            =~= "check_required_user_root_for_qemu_install"@);
        assert("text_file:"@ + "/etc/systemd/network/qemu0.netdev"@ =~= "text_file:/etc/systemd/network/qemu0.netdev"@);
        assert("text_file:"@ + "/etc/systemd/network/qemu0.network"@ =~= "text_file:/etc/systemd/network/qemu0.network"@);
        assert("text_file:"@ + "/etc/qemu/bridge.conf"@ =~= "text_file:/etc/qemu/bridge.conf"@);
        assert("text_file:"@ + ("/etc/systemd/network/qemu0-"@ + parameters.net_dev@
            + "-uplink.network"@) =~= "text_file:/etc/systemd/network/qemu0-"@
            + parameters.net_dev@ + "-uplink.network"@);
        assert(plan_of(r.tasks@) =~= qemu_plan(parameters));
    }
    r
}

} // verus!
