//! What the provisioning tasks compute before they act: command lines,
//! generated file contents, the plan of a stage move, and readings of what
//! system tools print.
use vstd::prelude::*;

use crate::base_methods::{
    ends_with, has_prefix, has_suffix, lines_of, nth_piece, piece, replace_all, replaced_all,
    same_text, starts_with, text_lines, text_words, texts, trim_text, trimmed, words_of,
};
use crate::paths::{
    bin_file, bin_file_path, conf_dir, conf_dir_path, repo_dir, repo_dir_path, src_dir,
    src_dir_path,
};
use crate::tasks::{Netplan, StageCompleted, TaskError, WifiConnect};

verus! {

/// Splits a command line into the program and its arguments, at runs of
/// whitespace; an empty command line is refused.
pub fn command_line(cmd: &str) -> (r: Result<Vec<String>, TaskError>)
    ensures
        r is Err <==> words_of(cmd@).len() == 0,
        r matches Ok(w) ==> texts(w@) == words_of(cmd@),
        r matches Err(e) ==> e.message@ == "command cannot be empty"@,
{
    let words = text_words(cmd);
    if words.len() == 0 {
        Err(TaskError::new("command cannot be empty"))
    } else {
        Ok(words)
    }
}

/// The memory size, in kB, that the first `MemTotal:` line of
/// `/proc/meminfo` gives as its second word.
pub open spec fn mem_total_in(lines: Seq<Seq<char>>) -> Option<Seq<char>>
    decreases lines.len(),
{
    if lines.len() == 0 {
        None
    } else if has_prefix(lines[0], "MemTotal:"@) {
        if words_of(lines[0]).len() >= 2 {
            Some(words_of(lines[0])[1])
        } else {
            None
        }
    } else {
        mem_total_in(lines.drop_first())
    }
}

pub fn mem_total_kb(meminfo: &str) -> (r: Option<String>)
    ensures
        r matches Some(m) ==> mem_total_in(lines_of(meminfo@)) == Some(m@),
        r is None ==> mem_total_in(lines_of(meminfo@)) is None,
{
    let lines = text_lines(meminfo);
    let ghost all = lines_of(meminfo@);
    let n = lines.len();
    assert(all.subrange(0, n as int) == all);
    let mut i: usize = 0;
    while i < n
        invariant
            n == lines@.len(),
            i <= n,
            all == lines_of(meminfo@),
            n == all.len(),
            forall|k: int| 0 <= k < n ==> #[trigger] lines@[k]@ == all[k],
            mem_total_in(all) == mem_total_in(all.subrange(i as int, n as int)),
        decreases n - i,
    {
        assert(all.subrange(i as int, n as int).drop_first() == all.subrange(i + 1, n as int));
        assert(all.subrange(i as int, n as int)[0] == lines@[i as int]@);
        if starts_with(lines[i].as_str(), "MemTotal:") {
            let words = text_words(lines[i].as_str());
            if words.len() >= 2 {
                return Some(words[1].clone());
            }
            return None;
        }
        i = i + 1;
    }
    None
}

/// `s` without trailing `..` pairs.
pub open spec fn trim_dot_pairs(s: Seq<char>) -> Seq<char>
    decreases s.len(),
{
    if s.len() >= 2 && s[s.len() - 1] == '.' && s[s.len() - 2] == '.' {
        trim_dot_pairs(s.subrange(0, s.len() - 2))
    } else {
        s
    }
}

/// The physical offset of the first extent that `filefrag -v` lists (the
/// fourth word of the line that starts with `0:`), without its trailing `..`.
pub open spec fn extent_offset_in(lines: Seq<Seq<char>>) -> Option<Seq<char>>
    decreases lines.len(),
{
    if lines.len() == 0 {
        None
    } else if words_of(lines[0]).len() >= 1 && words_of(lines[0])[0] == "0:"@ {
        if words_of(lines[0]).len() >= 4 {
            Some(trim_dot_pairs(words_of(lines[0])[3]))
        } else {
            None
        }
    } else {
        extent_offset_in(lines.drop_first())
    }
}

fn without_dot_pairs(s: &str) -> (r: String)
    ensures
        r@ == trim_dot_pairs(s@),
{
    let mut end = s.unicode_len();
    assert(s@.subrange(0, end as int) == s@);
    while end >= 2 && s.get_char(end - 1) == '.' && s.get_char(end - 2) == '.'
        invariant
            end <= s@.len(),
            trim_dot_pairs(s@.subrange(0, end as int)) == trim_dot_pairs(s@),
        decreases end,
    {
        assert(s@.subrange(0, end as int).subrange(0, end - 2) == s@.subrange(0, end - 2));
        end = end - 2;
    }
    String::from_str(s.substring_char(0, end))
}

pub fn swap_file_offset(filefrag_output: &str) -> (r: Option<String>)
    ensures
        r matches Some(o) ==> extent_offset_in(lines_of(filefrag_output@)) == Some(o@),
        r is None ==> extent_offset_in(lines_of(filefrag_output@)) is None,
{
    let lines = text_lines(filefrag_output);
    let ghost all = lines_of(filefrag_output@);
    let n = lines.len();
    assert(all.subrange(0, n as int) == all);
    let mut i: usize = 0;
    while i < n
        invariant
            n == lines@.len(),
            i <= n,
            all == lines_of(filefrag_output@),
            n == all.len(),
            forall|k: int| 0 <= k < n ==> #[trigger] lines@[k]@ == all[k],
            extent_offset_in(all) == extent_offset_in(all.subrange(i as int, n as int)),
        decreases n - i,
    {
        assert(all.subrange(i as int, n as int).drop_first() == all.subrange(i + 1, n as int));
        assert(all.subrange(i as int, n as int)[0] == lines@[i as int]@);
        let words = text_words(lines[i].as_str());
        if words.len() >= 1 && same_text(words[0].as_str(), "0:") {
            if words.len() >= 4 {
                return Some(without_dot_pairs(words[3].as_str()));
            }
            return None;
        }
        i = i + 1;
    }
    None
}

/// The first `HOOKS=` line of an initramfs configuration that does not end
/// with the `resume` hook yet.
pub open spec fn hooks_line_in(lines: Seq<Seq<char>>) -> Option<Seq<char>>
    decreases lines.len(),
{
    if lines.len() == 0 {
        None
    } else if has_prefix(lines[0], "HOOKS="@) && !has_suffix(lines[0], "resume)"@) {
        Some(lines[0])
    } else {
        hooks_line_in(lines.drop_first())
    }
}

/// The configuration with the `resume` hook added at the end of its hook
/// list; `None` when there is nothing to change.
pub open spec fn with_resume_hook_of(conf: Seq<char>) -> Option<Seq<char>> {
    match hooks_line_in(lines_of(conf)) {
        Some(line) => Some(replaced_all(conf, line, replaced_all(line, ")"@, " resume)"@))),
        None => None,
    }
}

pub fn with_resume_hook(conf: &str) -> (r: Option<String>)
    ensures
        r matches Some(c) ==> with_resume_hook_of(conf@) == Some(c@),
        r is None ==> with_resume_hook_of(conf@) is None,
{
    let lines = text_lines(conf);
    let ghost all = lines_of(conf@);
    let n = lines.len();
    assert(all.subrange(0, n as int) == all);
    let mut i: usize = 0;
    while i < n
        invariant
            n == lines@.len(),
            i <= n,
            all == lines_of(conf@),
            n == all.len(),
            forall|k: int| 0 <= k < n ==> #[trigger] lines@[k]@ == all[k],
            hooks_line_in(all) == hooks_line_in(all.subrange(i as int, n as int)),
        decreases n - i,
    {
        assert(all.subrange(i as int, n as int).drop_first() == all.subrange(i + 1, n as int));
        assert(all.subrange(i as int, n as int)[0] == lines@[i as int]@);
        let line = lines[i].as_str();
        if starts_with(line, "HOOKS=") && !ends_with(line, "resume)") {
            let new_line = replace_all(line, ")", " resume)");
            return Some(replace_all(conf, line, new_line.as_str()));
        }
        i = i + 1;
    }
    None
}

/// The boot loader's default kernel command line, resuming from the swap
/// file on the device with the given UUID at the given offset.
pub open spec fn grub_resume_line_of(uuid: Seq<char>, offset: Seq<char>) -> Seq<char> {
    "GRUB_CMDLINE_LINUX_DEFAULT=\"loglevel=3 quiet resume=UUID="@ + trimmed(uuid)
        + " resume_offset="@ + trimmed(offset) + "\""@
}

pub fn grub_resume_line(uuid: &str, offset: &str) -> (r: String)
    ensures
        r@ == grub_resume_line_of(uuid@, offset@),
{
    let mut r = String::from_str("GRUB_CMDLINE_LINUX_DEFAULT=\"loglevel=3 quiet resume=UUID=");
    let u = trim_text(uuid);
    r.append(u.as_str());
    r.append(" resume_offset=");
    let o = trim_text(offset);
    r.append(o.as_str());
    r.append("\"");
    r
}

/// The static host table for a machine called `hostname`.
pub open spec fn hosts_file_of(hostname: Seq<char>) -> Seq<char> {
    "# Static table lookup for hostnames. # See hosts(5) for details. 127.0.0.1\tlocalhost ::1\t\tlocalhost 127.0.1.1\t"@
        + hostname + ".localdomain\t"@ + hostname + "\n"@
}

pub fn hosts_file(hostname: &str) -> (r: String)
    ensures
        r@ == hosts_file_of(hostname@),
{
    let mut r = String::from_str(
        "# Static table lookup for hostnames. # See hosts(5) for details. 127.0.0.1\tlocalhost ::1\t\tlocalhost 127.0.1.1\t",
    );
    r.append(hostname);
    r.append(".localdomain\t");
    r.append(hostname);
    r.append("\n");
    r
}

/// The last component of a path, as `Path::file_name` gives it.
pub uninterp spec fn file_name_of(path: Seq<char>) -> Option<Seq<char>>;

/// Relies on `std::path::Path::file_name`: the final component of the path,
/// if there is one; the result depends on the characters alone.
#[verifier::external_body]
fn path_file_name(path: &str) -> (r: Option<String>)
    ensures
        r matches Some(n) ==> file_name_of(path@) == Some(n@),
        r is None ==> file_name_of(path@) is None,
{
    std::path::Path::new(path).file_name().and_then(|n| n.to_str()).map(|n| n.to_string())
}

/// The file system label that a boot medium made from an installation image
/// must bear: `ARCH_` and the year and month from the image's file name
/// (`archlinux-2022.10.01-x86_64.iso` gives `ARCH_202210`).
pub open spec fn iso_label_of(iso_path: Seq<char>) -> Option<Seq<char>> {
    match file_name_of(iso_path) {
        Some(name) => match piece(name, '-', 1) {
            Some(date) => match piece(date, '.', 1) {
                Some(month) => Some("ARCH_"@ + piece(date, '.', 0)->Some_0 + month),
                None => None,
            },
            None => None,
        },
        None => None,
    }
}

pub fn iso_label(iso_path: &str) -> (r: Option<String>)
    ensures
        r matches Some(l) ==> iso_label_of(iso_path@) == Some(l@),
        r is None ==> iso_label_of(iso_path@) is None,
{
    let name = match path_file_name(iso_path) {
        Some(n) => n,
        None => return None,
    };
    let date = match nth_piece(name.as_str(), '-', 1) {
        Some(d) => d,
        None => return None,
    };
    let month = match nth_piece(date.as_str(), '.', 1) {
        Some(m) => m,
        None => return None,
    };
    let year = match nth_piece(date.as_str(), '.', 0) {
        Some(y) => y,
        None => return None,
    };
    let mut r = String::from_str("ARCH_");
    r.append(year.as_str());
    r.append(month.as_str());
    Some(r)
}


/// The moves that carry the program's files into the next stage's context.
pub struct Relocation {
    /// Where the program's files are now (current context, acting user).
    pub src_dir: String,
    pub repo_dir: String,
    pub conf_dir: String,
    /// Where they go.
    pub src_dir_dest: String,
    pub repo_dir_dest: String,
    pub conf_dir_dest: String,
    /// Where the program's binary goes, when the next stage is in a chroot.
    pub bin_file_dest: Option<String>,
    /// The user who will own the moved files and gets links to them from the
    /// old places, when the next stage runs as a given user.
    pub owner: Option<String>,
}

impl StageCompleted {
    /// The moves that this stage end performs, run by `current_user` outside
    /// any chroot; `None` when the next stage runs in the same context.
    pub fn relocation(&self, current_user: &str) -> (r: Option<Relocation>)
        ensures
            r is None <==> (self.chroot@.len() == 0 && self.user@.len() == 0),
            r matches Some(p) ==> {
                &&& p.src_dir@ == src_dir_path(Seq::empty(), current_user@)
                &&& p.repo_dir@ == repo_dir_path(Seq::empty(), current_user@)
                &&& p.conf_dir@ == conf_dir_path(Seq::empty(), current_user@)
                &&& p.src_dir_dest@ == src_dir_path(self.chroot@, self.user@)
                &&& p.repo_dir_dest@ == repo_dir_path(self.chroot@, self.user@)
                &&& p.conf_dir_dest@ == conf_dir_path(self.chroot@, self.user@)
                &&& (p.bin_file_dest is Some <==> self.chroot@.len() > 0)
                &&& (p.bin_file_dest matches Some(b) ==> b@ == bin_file_path(self.chroot@))
                &&& (p.owner is Some <==> self.user@.len() > 0)
                &&& (p.owner matches Some(o) ==> o@ == self.user@)
            },
    {
        let chroot = self.chroot.as_str();
        let user = self.user.as_str();
        let has_chroot = chroot.unicode_len() > 0;
        let has_user = user.unicode_len() > 0;
        if !has_chroot && !has_user {
            return None;
        }
        proof {
            reveal_strlit("");
        }
        Some(
            Relocation {
                src_dir: src_dir("", current_user),
                repo_dir: repo_dir("", current_user),
                conf_dir: conf_dir("", current_user),
                src_dir_dest: src_dir(chroot, user),
                repo_dir_dest: repo_dir(chroot, user),
                conf_dir_dest: conf_dir(chroot, user),
                bin_file_dest: if has_chroot {
                    Some(bin_file(chroot))
                } else {
                    None
                },
                owner: if has_user {
                    Some(self.user.clone())
                } else {
                    None
                },
            },
        )
    }
}

impl WifiConnect {
    /// Whether the routing table must be queried at all: only where wireless
    /// setup is enabled.
    pub fn needs_route_check(&self) -> (r: bool)
        ensures
            r == self.parameters.wifi_enabled,
    {
        self.parameters.wifi_enabled
    }

    /// Whether the wireless link must be brought up, given what `ip route
    /// show default` printed (`None`: the query failed): only where wireless
    /// setup is enabled and no default route exists yet.
    pub fn should_connect(&self, default_route: Option<String>) -> (r: bool)
        ensures
            r == (self.parameters.wifi_enabled && !(default_route matches Some(x) && x@.len()
                > 0)),
    {
        if !self.parameters.wifi_enabled {
            return false;
        }
        match default_route {
            Some(route) => route.unicode_len() == 0,
            None => true,
        }
    }
}

impl Netplan {
    /// The network configuration rendered from its template: the interface
    /// and, for a wireless one, the network's name and password filled in.
    pub open spec fn rendered(&self, template: Seq<char>) -> Seq<char> {
        let with_dev = replaced_all(template, "_NETWORK_INTERFACE_"@, self.parameters.net_dev@);
        if self.parameters.wifi_enabled {
            replaced_all(
                replaced_all(with_dev, "_WIFI_SSID_"@, self.parameters.wifi_ssid@),
                "_WIFI_PASSWORD_"@,
                self.parameters.wifi_password@,
            )
        } else {
            with_dev
        }
    }

    pub fn render(&self, template: &str) -> (r: String)
        ensures
            r@ == self.rendered(template@),
    {
        let with_dev = replace_all(template, "_NETWORK_INTERFACE_", self.parameters.net_dev.as_str());
        if self.parameters.wifi_enabled {
            let with_ssid = replace_all(
                with_dev.as_str(),
                "_WIFI_SSID_",
                self.parameters.wifi_ssid.as_str(),
            );
            replace_all(with_ssid.as_str(), "_WIFI_PASSWORD_", self.parameters.wifi_password.as_str())
        } else {
            with_dev
        }
    }

    /// The template under the repository's `assets/files`, and the file that
    /// the rendered configuration is written to.
    pub fn files(&self) -> (r: (String, String))
        ensures
            self.parameters.wifi_enabled ==> r.0@ == "netplan-wifi-config.yaml"@ && r.1@
                == "/etc/netplan/wifi-config.yaml"@,
            !self.parameters.wifi_enabled ==> r.0@ == "netplan-eth-config.yaml"@ && r.1@
                == "/etc/netplan/eth-config.yaml"@,
    {
        if self.parameters.wifi_enabled {
            (String::from_str("netplan-wifi-config.yaml"), String::from_str("/etc/netplan/wifi-config.yaml"))
        } else {
            (String::from_str("netplan-eth-config.yaml"), String::from_str("/etc/netplan/eth-config.yaml"))
        }
    }
}

} // verus!
