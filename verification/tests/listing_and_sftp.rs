//! Listing order, metadata rendering and SFTP registry tests.

use ops_console::listing::{build_listing, sort_entries};
use ops_console::sftp::{
    build_file_entry, build_stat_entry, format_id, format_permissions, format_timestamp,
    remote_size_of_stat, FileEntry, RawFileAttr,
};
use ops_console::sftp_registry::SftpRegistry;
use ops_console::text::file_name_of_path;

fn attr(is_dir: bool) -> RawFileAttr {
    RawFileAttr {
        is_dir,
        size: Some(100),
        mtime: None,
        permissions: Some(0o644),
        uid: Some(1000),
        gid: Some(1000),
    }
}

fn names(entries: &Vec<FileEntry>) -> Vec<String> {
    entries.iter().map(|e| e.name.clone()).collect()
}

#[test]
fn listing_orders_directories_first_then_names() {
    // A mix of files and subdirectories: subdirectories come first,
    // case-insensitive name order within each group, whatever the creation
    // order was.
    let creation_order_one: Vec<(String, RawFileAttr)> = vec![
        (String::from("beta.txt"), attr(false)),
        (String::from("zeta"), attr(true)),
        (String::from("Alpha.txt"), attr(false)),
        (String::from("Gamma"), attr(true)),
    ];
    let creation_order_two: Vec<(String, RawFileAttr)> = vec![
        (String::from("Gamma"), attr(true)),
        (String::from("Alpha.txt"), attr(false)),
        (String::from("zeta"), attr(true)),
        (String::from("beta.txt"), attr(false)),
    ];

    let first = build_listing("/srv/data", creation_order_one);
    let second = build_listing("/srv/data", creation_order_two);

    let expected = vec!["Gamma", "zeta", "Alpha.txt", "beta.txt"];
    assert_eq!(names(&first), expected);
    assert_eq!(names(&second), expected);
}

#[test]
fn listing_entry_fields() {
    let raw: Vec<(String, RawFileAttr)> = vec![(
        String::from("notes.txt"),
        RawFileAttr {
            is_dir: false,
            size: Some(512),
            mtime: Some(0),
            permissions: Some(0o755),
            uid: Some(1000),
            gid: Some(100),
        },
    )];
    let listing = build_listing("/home/user/", raw);
    assert_eq!(listing.len(), 1);
    let e = &listing[0];
    assert_eq!(e.name, "notes.txt");
    assert_eq!(e.path, "/home/user/notes.txt");
    assert!(!e.is_dir);
    assert_eq!(e.size, 512);
    assert_eq!(e.modified, "1970-01-01 00:00");
    assert_eq!(e.permissions, "rwxr-xr-x");
    assert_eq!(e.owner, "1000");
    assert_eq!(e.group, "100");
}

#[test]
fn sort_is_a_permutation() {
    let raw: Vec<(String, RawFileAttr)> = vec![
        (String::from("b"), attr(false)),
        (String::from("a"), attr(false)),
        (String::from("a"), attr(true)),
    ];
    let listing = build_listing("/", raw);
    assert_eq!(listing.len(), 3);
    assert_eq!(names(&listing), vec!["a", "a", "b"]);
    assert!(listing[0].is_dir);

    let resorted = sort_entries(listing);
    assert_eq!(names(&resorted), vec!["a", "a", "b"]);
}

#[test]
fn permission_strings() {
    assert_eq!(format_permissions(Some(0o755)), "rwxr-xr-x");
    assert_eq!(format_permissions(Some(0o644)), "rw-r--r--");
    assert_eq!(format_permissions(Some(0o600)), "rw-------");
    assert_eq!(format_permissions(Some(0)), "---------");
    assert_eq!(format_permissions(None), "---------");
}

#[test]
fn timestamp_strings() {
    assert_eq!(format_timestamp(None), "-");
    assert_eq!(format_timestamp(Some(0)), "1970-01-01 00:00");
    assert_eq!(format_timestamp(Some(86400 + 3661)), "1970-01-02 01:01");
}

#[test]
fn ownership_strings() {
    assert_eq!(format_id(Some(0)), "0");
    assert_eq!(format_id(Some(4294967295)), "4294967295");
    assert_eq!(format_id(None), "");
}

#[test]
fn path_last_components() {
    assert_eq!(file_name_of_path("/a/b.txt"), "b.txt");
    assert_eq!(file_name_of_path("b.txt"), "b.txt");
    assert_eq!(file_name_of_path("/a/b/"), "b");
    assert_eq!(file_name_of_path(""), "unknown");
    assert_eq!(file_name_of_path("///"), "unknown");
}

#[test]
fn stat_entry_keeps_path_and_derives_name() {
    let e = build_stat_entry("/var/log/syslog", &attr(false));
    assert_eq!(e.name, "syslog");
    assert_eq!(e.path, "/var/log/syslog");
    // A path with no component falls back to the path itself.
    let root = build_stat_entry("/", &attr(true));
    assert_eq!(root.name, "/");
}

#[test]
fn remote_size_for_resume() {
    assert_eq!(remote_size_of_stat(&None), 0);
    assert_eq!(remote_size_of_stat(&Some(build_stat_entry("/r/f", &attr(false)))), 100);
    // A directory offers nothing to resume against.
    assert_eq!(remote_size_of_stat(&Some(build_stat_entry("/r/d", &attr(true)))), 0);
}

#[test]
fn sftp_operations_require_open() {
    // Every SFTP operation against a session that was never opened fails
    // with the uniform session-not-found condition.
    let reg = SftpRegistry::new();
    assert!(!reg.has_sftp_session("never-opened"));
    let err = reg.require_open("never-opened").unwrap_err();
    assert_eq!(err.message(), "SFTP session not found");
    let err = reg.get_current_path("never-opened").unwrap_err();
    assert_eq!(err.message(), "SFTP session not found");
}

#[test]
fn sftp_open_is_idempotent() {
    let mut reg = SftpRegistry::new();
    reg.open_session("sess-1", "/home/ops");
    assert!(reg.has_sftp_session("sess-1"));
    assert_eq!(reg.get_current_path("sess-1").unwrap(), "/home/ops");

    // Opening again does not reopen or move the cached directory.
    reg.open_session("sess-1", "/somewhere/else");
    assert_eq!(reg.get_current_path("sess-1").unwrap(), "/home/ops");

    reg.close_session("sess-1");
    assert!(!reg.has_sftp_session("sess-1"));
    // Closing an absent wrapper changes nothing.
    reg.close_session("sess-1");
    assert!(reg.require_open("sess-1").is_err());
}

#[test]
fn entry_path_trims_trailing_slashes() {
    let e = build_file_entry("/srv/share///", "file.bin", &attr(false));
    assert_eq!(e.path, "/srv/share/file.bin");
    let f = build_file_entry("/", "top", &attr(true));
    assert_eq!(f.path, "/top");
}
