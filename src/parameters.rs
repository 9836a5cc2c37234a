//! Installation parameters consumed by the provisioning tasks.
use vstd::prelude::*;

use crate::base_methods::{
    has_prefix, lines_of, regex_matches, regex_valid, nth_piece, piece, same_text,
    starts_with, text_lines, texts, LinePattern,
};
use crate::tasks::TaskError;

verus! {

/// What the installation needs to know about the machine and its owner.
pub struct Parameters {
    pub efi: bool,
    pub block_device: String,
    /// Number of the root partition: 2 with an EFI system partition, else 1.
    pub part_num: u8,
    /// Text between device and partition number: "" for `sdaX`, "p" for `nvme0n1pX`.
    pub part_num_prefix: String,
    /// Zone name under /usr/share/zoneinfo, such as "America/Toronto".
    pub timezone: String,
    pub hostname: String,
    pub username: String,
    pub user_id: String,
    pub user_gid: String,
    pub net_dev: String,
    /// Interface name as the live medium calls it (`wlan0`, `eth0`).
    pub net_dev_iso: String,
    pub wifi_enabled: bool,
    pub wifi_ssid: String,
    pub wifi_password: String,
}

impl Clone for Parameters {
    fn clone(&self) -> (r: Self)
        ensures
            r == *self,
    {
        Parameters {
            efi: self.efi,
            block_device: self.block_device.clone(),
            part_num: self.part_num,
            part_num_prefix: self.part_num_prefix.clone(),
            timezone: self.timezone.clone(),
            hostname: self.hostname.clone(),
            username: self.username.clone(),
            user_id: self.user_id.clone(),
            user_gid: self.user_gid.clone(),
            net_dev: self.net_dev.clone(),
            net_dev_iso: self.net_dev_iso.clone(),
            wifi_enabled: self.wifi_enabled,
            wifi_ssid: self.wifi_ssid.clone(),
            wifi_password: self.wifi_password.clone(),
        }
    }
}

impl Parameters {
    /// Placeholder parameters, enough to build and list a workflow without
    /// asking anything.
    pub fn dummy() -> (r: Parameters)
        ensures
            r.efi,
            r.wifi_enabled,
            r.part_num == 0,
            r.wifi_ssid@ == "MyWiFi"@,
            r.block_device@.len() == 0,
            r.part_num_prefix@.len() == 0,
            r.timezone@.len() == 0,
            r.hostname@.len() == 0,
            r.username@.len() == 0,
            r.user_id@.len() == 0,
            r.user_gid@.len() == 0,
            r.net_dev@.len() == 0,
            r.net_dev_iso@.len() == 0,
            r.wifi_password@.len() == 0,
    {
        Parameters {
            efi: true,
            block_device: String::new(),
            part_num: 0,
            part_num_prefix: String::new(),
            timezone: String::new(),
            hostname: String::new(),
            username: String::new(),
            user_id: String::new(),
            user_gid: String::new(),
            net_dev: String::new(),
            net_dev_iso: String::new(),
            wifi_enabled: true,
            wifi_ssid: String::from_str("MyWiFi"),
            wifi_password: String::new(),
        }
    }
}


/// Interface names that can carry the installation's network traffic.
pub open spec fn net_interface_pattern() -> Seq<char> {
    "^(wlan|wlp|eth|enp).*"@
}

/// The entries of `names` that `pattern` matches, in order.
pub open spec fn matching(names: Seq<Seq<char>>, pattern: Seq<char>) -> Seq<Seq<char>>
    decreases names.len(),
{
    if names.len() == 0 {
        Seq::empty()
    } else if regex_matches(pattern, names.last()) {
        matching(names.drop_last(), pattern).push(names.last())
    } else {
        matching(names.drop_last(), pattern)
    }
}

/// The network interfaces among the entries of the system's interface
/// directory.
pub fn network_interfaces(names: &Vec<String>) -> (r: Result<Vec<String>, TaskError>)
    ensures
        r is Ok <==> regex_valid(net_interface_pattern()),
        r matches Ok(v) ==> texts(v@) == matching(texts(names@), net_interface_pattern()),
{
    let pattern = match LinePattern::new("^(wlan|wlp|eth|enp).*") {
        Ok(p) => p,
        Err(e) => return Err(e),
    };
    let mut r: Vec<String> = Vec::new();
    let mut i: usize = 0;
    while i < names.len()
        invariant
            i <= names@.len(),
            pattern@ == net_interface_pattern(),
            texts(r@) == matching(texts(names@.subrange(0, i as int)), net_interface_pattern()),
        decreases names.len() - i,
    {
        assert(texts(names@.subrange(0, i + 1)).drop_last() == texts(names@.subrange(0, i as int)));
        assert(texts(names@.subrange(0, i + 1)).last() == names@[i as int]@);
        if pattern.is_match(names[i].as_str()) {
            let ghost before = r@;
            r.push(names[i].clone());
            assert(texts(r@) == texts(before).push(names@[i as int]@));
        }
        i = i + 1;
    }
    assert(names@.subrange(0, i as int) == names@);
    Ok(r)
}


/// The answer given, or `default` where the answer is empty.
pub fn answer_or(answer: String, default: &str) -> (r: String)
    ensures
        r@ == if answer@.len() == 0 {
            default@
        } else {
            answer@
        },
{
    if answer.unicode_len() == 0 {
        String::from_str(default)
    } else {
        answer
    }
}

/// Text between a block device's name and a partition number: "p" for NVMe
/// devices (`nvme0n1p2`), nothing otherwise (`sda2`).
pub open spec fn partition_prefix_of(block_device: Seq<char>) -> Seq<char> {
    if has_prefix(block_device, "nvme"@) {
        "p"@
    } else {
        Seq::empty()
    }
}

pub fn partition_prefix(block_device: &str) -> (r: String)
    ensures
        r@ == partition_prefix_of(block_device@),
{
    if starts_with(block_device, "nvme") {
        String::from_str("p")
    } else {
        String::new()
    }
}

/// Whether wireless setup is proposed for an interface: for wireless ones.
pub fn wifi_by_default(net_dev_iso: &str) -> (r: bool)
    ensures
        r == (has_prefix(net_dev_iso@, "wlan"@) || has_prefix(net_dev_iso@, "wlp"@)),
{
    starts_with(net_dev_iso, "wlan") || starts_with(net_dev_iso, "wlp")
}

/// Reads the answer to the wireless question: empty for the proposed value,
/// else `true` or `false`.
pub fn parse_wifi_answer(answer: &str, default: bool) -> (r: Result<bool, TaskError>)
    ensures
        answer@.len() == 0 ==> r == Ok::<bool, TaskError>(default),
        answer@ == "true"@ ==> r == Ok::<bool, TaskError>(true),
        answer@ == "false"@ ==> r == Ok::<bool, TaskError>(false),
        answer@.len() > 0 && answer@ != "true"@ && answer@ != "false"@ ==> (r matches Err(e)
            && e.message@ == "configure wifi is a boolean parameter"@),
{
    proof {
        reveal_strlit("true");
        reveal_strlit("false");
    }
    if answer.unicode_len() == 0 {
        Ok(default)
    } else if same_text(answer, "true") {
        Ok(true)
    } else if same_text(answer, "false") {
        Ok(false)
    } else {
        Err(TaskError::new("configure wifi is a boolean parameter"))
    }
}

/// The name that udev gives an interface on the installed system: the value
/// of the last `ID_NET_NAME_PATH=` line of `udevadm test-builtin net_id`
/// output; empty when there is none.
pub open spec fn net_name_in(lines: Seq<Seq<char>>) -> Seq<char>
    decreases lines.len(),
{
    if lines.len() == 0 {
        Seq::empty()
    } else if has_prefix(lines.last(), "ID_NET_NAME_PATH"@) && piece(lines.last(), '=', 1) is Some {
        piece(lines.last(), '=', 1)->Some_0
    } else {
        net_name_in(lines.drop_last())
    }
}

pub fn predictable_net_name(udev_output: &str) -> (r: String)
    ensures
        r@ == net_name_in(lines_of(udev_output@)),
{
    let lines = text_lines(udev_output);
    let ghost all = lines_of(udev_output@);
    let mut r = String::new();
    let mut i: usize = 0;
    while i < lines.len()
        invariant
            i <= lines@.len(),
            all == lines_of(udev_output@),
            lines@.len() == all.len(),
            forall|k: int| 0 <= k < lines@.len() ==> #[trigger] lines@[k]@ == all[k],
            r@ == net_name_in(all.subrange(0, i as int)),
        decreases lines.len() - i,
    {
        assert(all.subrange(0, i + 1).drop_last() == all.subrange(0, i as int));
        assert(all.subrange(0, i + 1).last() == lines@[i as int]@);
        if starts_with(lines[i].as_str(), "ID_NET_NAME_PATH") {
            match nth_piece(lines[i].as_str(), '=', 1) {
                Some(f) => {
                    r = f;
                },
                None => {},
            }
        }
        i = i + 1;
    }
    assert(all.subrange(0, i as int) == all);
    r
}

impl Parameters {
    /// Parameters from the operator's answers (defaults already applied) and
    /// what was found on the machine; the partition layout follows from the
    /// firmware and the device name.
    pub fn assemble(
        efi: bool,
        block_device: String,
        timezone: String,
        hostname: String,
        username: String,
        net_dev: String,
        net_dev_iso: String,
        wifi_enabled: bool,
        wifi_ssid: String,
        wifi_password: String,
    ) -> (r: Parameters)
        ensures
            r.efi == efi,
            r.block_device == block_device,
            r.part_num == if efi {
                2u8
            } else {
                1u8
            },
            r.part_num_prefix@ == partition_prefix_of(block_device@),
            r.timezone == timezone,
            r.hostname == hostname,
            r.username == username,
            r.user_id@ == "1000"@,
            r.user_gid@ == "1000"@,
            r.net_dev == net_dev,
            r.net_dev_iso == net_dev_iso,
            r.wifi_enabled == wifi_enabled,
            r.wifi_ssid == wifi_ssid,
            r.wifi_password == wifi_password,
    {
        let part_num_prefix = partition_prefix(block_device.as_str());
        Parameters {
            efi,
            block_device,
            part_num: if efi {
                2
            } else {
                1
            },
            part_num_prefix,
            timezone,
            hostname,
            username,
            user_id: String::from_str("1000"),
            user_gid: String::from_str("1000"),
            net_dev,
            net_dev_iso,
            wifi_enabled,
            wifi_ssid,
            wifi_password,
        }
    }
}

} // verus!
