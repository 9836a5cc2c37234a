//! Canonical locations of the program's files within an execution context.
//!
//! An execution context is a chroot root (empty: no chroot) and the acting
//! user, whose home directory holds the repository checkout and the
//! configuration directory with the progress marker.
use vstd::prelude::*;

use crate::base_methods::{join_paths, joined, same_text};

verus! {

/// `path` seen from inside the chroot `chroot`; unchanged without a chroot.
pub open spec fn chroot_prefixed(chroot: Seq<char>, path: Seq<char>) -> Seq<char> {
    if chroot.len() > 0 {
        joined(chroot, path)
    } else {
        path
    }
}

/// The home directory of `user`, with a trailing separator.
pub open spec fn home_of(user: Seq<char>) -> Seq<char> {
    if user == "root"@ {
        "/root/"@
    } else {
        "/home/"@ + user + "/"@
    }
}

/// `path` taken relative to the home directory of `user`.
pub open spec fn home_prefixed(user: Seq<char>, path: Seq<char>) -> Seq<char> {
    joined(home_of(user), path)
}

pub open spec fn bin_file_path(chroot: Seq<char>) -> Seq<char> {
    chroot_prefixed(chroot, "/usr/local/bin/arch-sway"@)
}

pub open spec fn src_dir_path(chroot: Seq<char>, user: Seq<char>) -> Seq<char> {
    chroot_prefixed(chroot, home_prefixed(user, "src"@))
}

pub open spec fn repo_dir_path(chroot: Seq<char>, user: Seq<char>) -> Seq<char> {
    chroot_prefixed(chroot, home_prefixed(user, "src/arch-sway"@))
}

pub open spec fn conf_dir_path(chroot: Seq<char>, user: Seq<char>) -> Seq<char> {
    chroot_prefixed(chroot, home_prefixed(user, ".arch-sway"@))
}

pub open spec fn progress_file_path(chroot: Seq<char>, user: Seq<char>) -> Seq<char> {
    conf_dir_path(chroot, user) + "/progress"@
}

pub open spec fn parameters_file_path(chroot: Seq<char>, user: Seq<char>) -> Seq<char> {
    conf_dir_path(chroot, user) + "/parameters.yaml"@
}

/// Places `path` under the chroot root `chroot`, if there is one.
pub fn prefix_chroot(chroot: &str, path: &str) -> (r: String)
    ensures
        r@ == chroot_prefixed(chroot@, path@),
{
    if chroot.unicode_len() > 0 {
        join_paths(chroot, path)
    } else {
        String::from_str(path)
    }
}

/// Places `path` under the home directory of `user` (`/root` for root,
/// `/home/<user>` for anyone else).
pub fn prefix_home(user: &str, path: &str) -> (r: String)
    ensures
        r@ == home_prefixed(user@, path@),
{
    if same_text(user, "root") {
        join_paths("/root/", path)
    } else {
        let mut prefix = String::from_str("/home/");
        prefix.append(user);
        prefix.append("/");
        join_paths(prefix.as_str(), path)
    }
}

/// The installed binary.
pub fn bin_file(chroot: &str) -> (r: String)
    ensures
        r@ == bin_file_path(chroot@),
{
    prefix_chroot(chroot, "/usr/local/bin/arch-sway")
}

/// The directory that holds source checkouts.
pub fn src_dir(chroot: &str, user: &str) -> (r: String)
    ensures
        r@ == src_dir_path(chroot@, user@),
{
    let home = prefix_home(user, "src");
    prefix_chroot(chroot, home.as_str())
}

/// The checkout of the program's own repository.
pub fn repo_dir(chroot: &str, user: &str) -> (r: String)
    ensures
        r@ == repo_dir_path(chroot@, user@),
{
    let home = prefix_home(user, "src/arch-sway");
    prefix_chroot(chroot, home.as_str())
}

/// The configuration directory, which also holds the progress marker.
pub fn conf_dir(chroot: &str, user: &str) -> (r: String)
    ensures
        r@ == conf_dir_path(chroot@, user@),
{
    let home = prefix_home(user, ".arch-sway");
    prefix_chroot(chroot, home.as_str())
}

/// The file that holds the progress marker of the context.
pub fn progress_file(chroot: &str, user: &str) -> (r: String)
    ensures
        r@ == progress_file_path(chroot@, user@),
{
    let mut r = conf_dir(chroot, user);
    r.append("/progress");
    r
}

/// The file that holds the installation parameters of the context.
pub fn parameters_file(chroot: &str, user: &str) -> (r: String)
    ensures
        r@ == parameters_file_path(chroot@, user@),
{
    let mut r = conf_dir(chroot, user);
    r.append("/parameters.yaml");
    r
}

} // verus!
