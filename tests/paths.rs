use arch_sway::base_methods::join_paths;
use arch_sway::paths::{
    bin_file, conf_dir, parameters_file, prefix_chroot, prefix_home, progress_file, repo_dir,
    src_dir,
};

#[test]
fn test_prefix_chroot() {
    assert_eq!(prefix_chroot("", "tmp"), "tmp");
    assert_eq!(prefix_chroot("/mnt", "tmp"), "/mnt/tmp");
    assert_eq!(prefix_chroot("/mnt", "/tmp"), "/mnt/tmp");
}

#[test]
fn test_prefix_home() {
    assert_eq!(prefix_home("user", "apps"), "/home/user/apps");
    assert_eq!(prefix_home("root", "apps"), "/root/apps");
    assert_eq!(prefix_home("root", "/apps"), "/root/apps");
}

#[test]
fn test_path_to_bin_file() {
    assert_eq!(bin_file(""), "/usr/local/bin/arch-sway");
    assert_eq!(bin_file("/mnt"), "/mnt/usr/local/bin/arch-sway");
}

#[test]
fn test_path_to_src_dir() {
    assert_eq!(src_dir("", "user"), "/home/user/src");
    assert_eq!(src_dir("", "root"), "/root/src");
    assert_eq!(src_dir("/mnt", "user"), "/mnt/home/user/src");
}

#[test]
fn test_path_to_repo_dir() {
    assert_eq!(repo_dir("", "user"), "/home/user/src/arch-sway");
    assert_eq!(repo_dir("", "root"), "/root/src/arch-sway");
    assert_eq!(repo_dir("/mnt", "user"), "/mnt/home/user/src/arch-sway");
}

#[test]
fn test_path_to_conf_dir() {
    assert_eq!(conf_dir("", "user"), "/home/user/.arch-sway");
    assert_eq!(conf_dir("", "root"), "/root/.arch-sway");
    assert_eq!(conf_dir("/mnt", "user"), "/mnt/home/user/.arch-sway");
}

#[test]
fn test_path_to_progress_file() {
    assert_eq!(progress_file("", "user"), "/home/user/.arch-sway/progress");
    assert_eq!(progress_file("", "root"), "/root/.arch-sway/progress");
    assert_eq!(
        progress_file("/mnt", "user"),
        "/mnt/home/user/.arch-sway/progress"
    );
}

#[test]
fn parameters_file_sits_beside_the_marker() {
    assert_eq!(parameters_file("", "user"), "/home/user/.arch-sway/parameters.yaml");
    assert_eq!(parameters_file("/mnt", "root"), "/mnt/root/.arch-sway/parameters.yaml");
}

#[test]
fn join_paths_keeps_one_separator() {
    assert_eq!(join_paths("/a//", "//b"), "/a/b");
    assert_eq!(join_paths("a", "b"), "a/b");
    assert_eq!(join_paths("", ""), "/");
    assert_eq!(join_paths("/", "/"), "/");
}
