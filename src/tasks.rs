//! The provisioning tasks: what each is called and how the runner treats it.
//!
//! The set of task kinds is closed, so a task is a variant of [`Task`]. Its
//! name and its [`TaskSignal`] are computed here; the side effects that a task
//! performs live with the program that drives the runner.
use vstd::prelude::*;

use crate::parameters::Parameters;
use crate::paths::{progress_file, progress_file_path};

verus! {

/// A failed task action, with a message for the operator.
#[derive(Debug)]
pub struct TaskError {
    pub message: String,
}

impl TaskError {
    pub fn new(message: &str) -> (r: TaskError)
        ensures
            r.message@ == message@,
    {
        TaskError { message: String::from_str(message) }
    }
}

/// How the runner treats a task once its action has run.
pub enum TaskSignal {
    /// Success is persisted as the progress marker; failure aborts.
    Default,
    /// Output is shown, nothing is persisted; failure aborts.
    Info,
    /// The action reports the acting user, which must equal the one held
    /// here; nothing is ever persisted.
    RequireUser(String),
    /// Success moves the marker to the progress file held here (in another
    /// execution context) and ends the invocation.
    StageCompleted(String),
}

/// The mathematical value of a [`TaskSignal`].
pub enum SignalModel {
    Default,
    Info,
    RequireUser(Seq<char>),
    StageCompleted(Seq<char>),
}

impl TaskSignal {
    pub open spec fn view(&self) -> SignalModel {
        match self {
            TaskSignal::Default => SignalModel::Default,
            TaskSignal::Info => SignalModel::Info,
            TaskSignal::RequireUser(u) => SignalModel::RequireUser(u@),
            TaskSignal::StageCompleted(p) => SignalModel::StageCompleted(p@),
        }
    }
}

/// Runs a command, either directly or through a shell.
pub struct Command {
    pub name: String,
    pub command: String,
    /// Whether the command's standard output is returned.
    pub output: bool,
    /// Whether the command is a shell script rather than a plain command line.
    pub shell: bool,
}

/// Shows a message; never anchors the progress marker.
pub struct Info {
    pub message: String,
}

/// Ends a stage: moves the program's files into the context of the next
/// stage (chroot root `chroot`, user `user`) and the marker with them. The
/// user is always named: the next stage's home directory depends on it.
pub struct StageCompleted {
    pub name: String,
    pub chroot: String,
    pub user: String,
}

/// Checks that the program runs as `user` before `stage` goes on.
pub struct RequireUser {
    pub stage: String,
    pub user: String,
}

/// Writes `content` to the file at `path`.
pub struct TextFile {
    pub path: String,
    pub content: String,
}

/// Connects to the wireless network of the parameters, if enabled.
pub struct WifiConnect {
    pub parameters: Parameters,
}

/// Enables the system locales and the console keymap.
pub struct Locales;

/// Writes the host name and the static host table.
pub struct Hostname {
    pub parameters: Parameters,
}

/// Creates the unprivileged user and sets default passwords. Its completion
/// is never recorded, so the step is not taken as done on a later run.
pub struct User {
    pub parameters: Parameters,
}

/// Installs and configures the boot loader.
pub struct Grub {
    pub parameters: Parameters,
}

/// Creates the file systems and mounts the root one.
pub struct FS {
    pub parameters: Parameters,
}

/// Writes the partition table of the block device.
pub struct Partitions {
    pub parameters: Parameters,
}

/// Configures DHCP on the network interface.
pub struct Network {
    pub parameters: Parameters,
}

/// Configures and starts the DNS resolver service.
pub struct Resolved;

/// Writes and applies the network configuration.
pub struct Netplan {
    pub parameters: Parameters,
}

/// Adds the desktop's global environment variables.
pub struct Variables;

/// Installs the desktop configuration files for the user.
pub struct SwayConfigs {
    pub parameters: Parameters,
}

/// Obtains the program's own repository checkout.
pub struct GitRepo;

/// Creates and enables a swap file as large as memory.
pub struct Swap;

/// Enables resuming from the swap file.
pub struct Hibernation;

/// Selects the performance CPU frequency governor.
pub struct CpuGovernor;

/// Installs and starts the Bluetooth service.
pub struct Bluetooth;

/// Installs the container engine and admits the user to it.
pub struct Docker {
    pub parameters: Parameters,
}

/// Installs the shell profile and the user's bin directory.
pub struct Bashrc {
    pub parameters: Parameters,
}

/// Builds the helper utilities into the user's bin directory.
pub struct InstallUtils {
    pub parameters: Parameters,
}

/// Installs editor extensions and settings.
pub struct ConfigureIDE {
    pub parameters: Parameters,
}

/// Installs the sandboxed desktop applications.
pub struct FlatpakPackages;

/// One unit of provisioning work.
pub enum Task {
    Command(Command),
    Info(Info),
    StageCompleted(StageCompleted),
    RequireUser(RequireUser),
    TextFile(TextFile),
    WifiConnect(WifiConnect),
    Locales(Locales),
    Hostname(Hostname),
    User(User),
    Grub(Grub),
    FS(FS),
    Partitions(Partitions),
    Network(Network),
    Resolved(Resolved),
    Netplan(Netplan),
    Variables(Variables),
    SwayConfigs(SwayConfigs),
    GitRepo(GitRepo),
    Swap(Swap),
    Hibernation(Hibernation),
    CpuGovernor(CpuGovernor),
    Bluetooth(Bluetooth),
    Docker(Docker),
    Bashrc(Bashrc),
    InstallUtils(InstallUtils),
    ConfigureIDE(ConfigureIDE),
    FlatpakPackages(FlatpakPackages),
}

impl Command {
    pub fn new(name: &str, command: &str, output: bool, shell: bool) -> (r: Task)
        ensures
            r matches Task::Command(c) && c.name@ == name@ && c.command@ == command@
                && c.output == output && c.shell == shell,
    {
        Task::Command(
            Command {
                name: String::from_str(name),
                command: String::from_str(command),
                output,
                shell,
            },
        )
    }
}

impl Info {
    pub fn new(msg: &str) -> (r: Task)
        ensures
            r matches Task::Info(i) && i.message@ == msg@,
    {
        Task::Info(Info { message: String::from_str(msg) })
    }
}

impl StageCompleted {
    pub fn new(name: &str, chroot: &str, user: &str) -> (r: Task)
        requires
            user@.len() > 0,
        ensures
            r matches Task::StageCompleted(s) && s.name@ == name@ && s.chroot@ == chroot@
                && s.user@ == user@,
    {
        Task::StageCompleted(
            StageCompleted {
                name: String::from_str(name),
                chroot: String::from_str(chroot),
                user: String::from_str(user),
            },
        )
    }
}

impl RequireUser {
    pub fn new(stage: &str, user: &str) -> (r: Task)
        ensures
            r matches Task::RequireUser(q) && q.stage@ == stage@ && q.user@ == user@,
    {
        Task::RequireUser(RequireUser { stage: String::from_str(stage), user: String::from_str(user) })
    }
}

impl TextFile {
    pub fn new(path: &str, content: &str) -> (r: Task)
        ensures
            r matches Task::TextFile(t) && t.path@ == path@ && t.content@ == content@,
    {
        Task::TextFile(TextFile { path: String::from_str(path), content: String::from_str(content) })
    }
}

impl WifiConnect {
    pub fn new(parameters: Parameters) -> (r: Task)
        ensures
            r == Task::WifiConnect(WifiConnect { parameters }),
    {
        Task::WifiConnect(WifiConnect { parameters })
    }
}

impl Locales {
    pub fn new() -> (r: Task)
        ensures
            r == Task::Locales(Locales),
    {
        Task::Locales(Locales)
    }
}

impl Hostname {
    pub fn new(parameters: Parameters) -> (r: Task)
        ensures
            r == Task::Hostname(Hostname { parameters }),
    {
        Task::Hostname(Hostname { parameters })
    }
}

impl User {
    pub fn new(parameters: Parameters) -> (r: Task)
        ensures
            r == Task::User(User { parameters }),
    {
        Task::User(User { parameters })
    }
}

impl Grub {
    pub fn new(parameters: Parameters) -> (r: Task)
        ensures
            r == Task::Grub(Grub { parameters }),
    {
        Task::Grub(Grub { parameters })
    }
}

impl FS {
    pub fn new(parameters: Parameters) -> (r: Task)
        ensures
            r == Task::FS(FS { parameters }),
    {
        Task::FS(FS { parameters })
    }
}

impl Partitions {
    pub fn new(parameters: Parameters) -> (r: Task)
        ensures
            r == Task::Partitions(Partitions { parameters }),
    {
        Task::Partitions(Partitions { parameters })
    }
}

impl Network {
    pub fn new(parameters: Parameters) -> (r: Task)
        ensures
            r == Task::Network(Network { parameters }),
    {
        Task::Network(Network { parameters })
    }
}

impl Resolved {
    pub fn new() -> (r: Task)
        ensures
            r == Task::Resolved(Resolved),
    {
        Task::Resolved(Resolved)
    }
}

impl Netplan {
    pub fn new(parameters: Parameters) -> (r: Task)
        ensures
            r == Task::Netplan(Netplan { parameters }),
    {
        Task::Netplan(Netplan { parameters })
    }
}

impl Variables {
    pub fn new() -> (r: Task)
        ensures
            r == Task::Variables(Variables),
    {
        Task::Variables(Variables)
    }
}

impl SwayConfigs {
    pub fn new(parameters: Parameters) -> (r: Task)
        ensures
            r == Task::SwayConfigs(SwayConfigs { parameters }),
    {
        Task::SwayConfigs(SwayConfigs { parameters })
    }
}

impl GitRepo {
    pub fn new() -> (r: Task)
        ensures
            r == Task::GitRepo(GitRepo),
    {
        Task::GitRepo(GitRepo)
    }
}

impl Swap {
    pub fn new() -> (r: Task)
        ensures
            r == Task::Swap(Swap),
    {
        Task::Swap(Swap)
    }
}

impl Hibernation {
    pub fn new() -> (r: Task)
        ensures
            r == Task::Hibernation(Hibernation),
    {
        Task::Hibernation(Hibernation)
    }
}

impl CpuGovernor {
    pub fn new() -> (r: Task)
        ensures
            r == Task::CpuGovernor(CpuGovernor),
    {
        Task::CpuGovernor(CpuGovernor)
    }
}

impl Bluetooth {
    pub fn new() -> (r: Task)
        ensures
            r == Task::Bluetooth(Bluetooth),
    {
        Task::Bluetooth(Bluetooth)
    }
}

impl Docker {
    pub fn new(parameters: Parameters) -> (r: Task)
        ensures
            r == Task::Docker(Docker { parameters }),
    {
        Task::Docker(Docker { parameters })
    }
}

impl Bashrc {
    pub fn new(parameters: Parameters) -> (r: Task)
        ensures
            r == Task::Bashrc(Bashrc { parameters }),
    {
        Task::Bashrc(Bashrc { parameters })
    }
}

impl InstallUtils {
    pub fn new(parameters: Parameters) -> (r: Task)
        ensures
            r == Task::InstallUtils(InstallUtils { parameters }),
    {
        Task::InstallUtils(InstallUtils { parameters })
    }
}

impl ConfigureIDE {
    pub fn new(parameters: Parameters) -> (r: Task)
        ensures
            r == Task::ConfigureIDE(ConfigureIDE { parameters }),
    {
        Task::ConfigureIDE(ConfigureIDE { parameters })
    }
}

impl FlatpakPackages {
    pub fn new() -> (r: Task)
        ensures
            r == Task::FlatpakPackages(FlatpakPackages),
    {
        Task::FlatpakPackages(FlatpakPackages)
    }
}

impl Task {
    /// The task's name; empty for a task that never anchors the marker.
    pub open spec fn name_view(&self) -> Seq<char> {
        match self {
            Task::Command(c) => c.name@,
            Task::Info(_) => Seq::empty(),
            Task::StageCompleted(s) => s.name@,
            Task::RequireUser(q) => "check_required_user_"@ + q.user@ + "_for_"@ + q.stage@,
            Task::TextFile(t) => "text_file:"@ + t.path@,
            Task::WifiConnect(w) => "connect_to_wifi_ssid:"@ + w.parameters.wifi_ssid@,
            Task::Locales(_) => "configure_locales"@,
            Task::Hostname(_) => "set_hostname"@,
            Task::User(_) => "create_user"@,
            Task::Grub(_) => "install_grub_bootloader"@,
            Task::FS(_) => "create_filesystems"@,
            Task::Partitions(_) => "create_partitions"@,
            Task::Network(_) => "configure_network"@,
            Task::Resolved(_) => "configure_systemd_resolved"@,
            Task::Netplan(_) => "netplan_configuration"@,
            Task::Variables(_) => "add_global_env_variables"@,
            Task::SwayConfigs(_) => "create_sway_config_files"@,
            Task::GitRepo(_) => "arch_sway_git_repo"@,
            Task::Swap(_) => "create_swap_file"@,
            Task::Hibernation(_) => "enable_hibernation_and_suspend"@,
            Task::CpuGovernor(_) => "set_performance_cpu_governor"@,
            Task::Bluetooth(_) => "setup_bluetooth"@,
            Task::Docker(_) => "setup_docker"@,
            Task::Bashrc(_) => "bashrc_and_user_bin_dir"@,
            Task::InstallUtils(_) => "install_utilities"@,
            Task::ConfigureIDE(_) => "configure_editor"@,
            Task::FlatpakPackages(_) => "install_flatpak_packages"@,
        }
    }

    /// The signal of the task.
    pub open spec fn signal_view(&self) -> SignalModel {
        match self {
            Task::Info(_) => SignalModel::Info,
            Task::StageCompleted(s) => SignalModel::StageCompleted(
                progress_file_path(s.chroot@, s.user@),
            ),
            Task::RequireUser(q) => SignalModel::RequireUser(q.user@),
            Task::User(_) => SignalModel::Info,
            _ => SignalModel::Default,
        }
    }

    /// The name under which the task's completion is recorded.
    pub fn name(&self) -> (r: String)
        ensures
            r@ == self.name_view(),
    {
        match self {
            Task::Command(c) => c.name.clone(),
            Task::Info(_) => String::new(),
            Task::StageCompleted(s) => s.name.clone(),
            Task::RequireUser(q) => {
                let mut r = String::from_str("check_required_user_");
                r.append(q.user.as_str());
                r.append("_for_");
                r.append(q.stage.as_str());
                r
            },
            Task::TextFile(t) => {
                let mut r = String::from_str("text_file:");
                r.append(t.path.as_str());
                r
            },
            Task::WifiConnect(w) => {
                let mut r = String::from_str("connect_to_wifi_ssid:");
                r.append(w.parameters.wifi_ssid.as_str());
                r
            },
            Task::Locales(_) => String::from_str("configure_locales"),
            Task::Hostname(_) => String::from_str("set_hostname"),
            Task::User(_) => String::from_str("create_user"),
            Task::Grub(_) => String::from_str("install_grub_bootloader"),
            Task::FS(_) => String::from_str("create_filesystems"),
            Task::Partitions(_) => String::from_str("create_partitions"),
            Task::Network(_) => String::from_str("configure_network"),
            Task::Resolved(_) => String::from_str("configure_systemd_resolved"),
            Task::Netplan(_) => String::from_str("netplan_configuration"),
            Task::Variables(_) => String::from_str("add_global_env_variables"),
            Task::SwayConfigs(_) => String::from_str("create_sway_config_files"),
            Task::GitRepo(_) => String::from_str("arch_sway_git_repo"),
            Task::Swap(_) => String::from_str("create_swap_file"),
            Task::Hibernation(_) => String::from_str("enable_hibernation_and_suspend"),
            Task::CpuGovernor(_) => String::from_str("set_performance_cpu_governor"),
            Task::Bluetooth(_) => String::from_str("setup_bluetooth"),
            Task::Docker(_) => String::from_str("setup_docker"),
            Task::Bashrc(_) => String::from_str("bashrc_and_user_bin_dir"),
            Task::InstallUtils(_) => String::from_str("install_utilities"),
            Task::ConfigureIDE(_) => String::from_str("configure_editor"),
            Task::FlatpakPackages(_) => String::from_str("install_flatpak_packages"),
        }
    }

    /// How the runner treats the task once its action has run.
    pub fn signal(&self) -> (r: TaskSignal)
        ensures
            r@ == self.signal_view(),
    {
        match self {
            Task::Info(_) => TaskSignal::Info,
            Task::StageCompleted(s) => TaskSignal::StageCompleted(
                progress_file(s.chroot.as_str(), s.user.as_str()),
            ),
            Task::RequireUser(q) => TaskSignal::RequireUser(q.user.clone()),
            Task::User(_) => TaskSignal::Info,
            _ => TaskSignal::Default,
        }
    }
}

} // verus!
