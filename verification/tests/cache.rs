use std::path::Path;
use wallers::cache::{
    completed_entries, is_download_marker, list_entries, temp_name, CachePath, DirectoryRead,
    EntryRead,
};
use wallers::error::IoError;

fn owned(items: &[&str]) -> Vec<String> {
    items.iter().map(|s| s.to_string()).collect()
}

fn named(name: &str) -> EntryRead {
    EntryRead::Name(name.to_string())
}

#[test]
fn fresh_directory_lists_nothing() {
    assert_eq!(list_entries(&DirectoryRead::Children(Vec::new())), Ok(Vec::new()));
}

#[test]
fn listing_keeps_every_name_in_order() {
    let read =
        DirectoryRead::Children(vec![named("b"), named("a"), named("c.download"), named("a")]);
    assert_eq!(list_entries(&read), Ok(owned(&["b", "a", "c.download", "a"])));
}

#[test]
fn listing_fails_where_directory_was_not_created() {
    let read = DirectoryRead::NotCreated("permission denied".to_string());
    assert_eq!(list_entries(&read), Err(IoError::CreateDir("permission denied".to_string())));
}

#[test]
fn listing_fails_where_directory_was_not_opened() {
    let read = DirectoryRead::NotListed("not a directory".to_string());
    assert_eq!(list_entries(&read), Err(IoError::ReadDir("not a directory".to_string())));
}

#[test]
fn undecodable_name_aborts_the_listing() {
    let read = DirectoryRead::Children(vec![named("a"), EntryRead::Undecodable, named("b")]);
    assert_eq!(list_entries(&read), Err(IoError::UndecodableName));
}

#[test]
fn unreadable_child_aborts_the_listing() {
    let read = DirectoryRead::Children(vec![
        named("a"),
        named("b"),
        EntryRead::Failed("gone".to_string()),
    ]);
    assert_eq!(list_entries(&read), Err(IoError::ReadEntry("gone".to_string())));
}

#[test]
fn first_bad_child_decides_the_error() {
    let read = DirectoryRead::Children(vec![
        named("a"),
        EntryRead::Failed("first".to_string()),
        EntryRead::Undecodable,
        EntryRead::Failed("second".to_string()),
    ]);
    assert_eq!(list_entries(&read), Err(IoError::ReadEntry("first".to_string())));
    let read = DirectoryRead::Children(vec![
        EntryRead::Undecodable,
        EntryRead::Failed("later".to_string()),
        named("a"),
    ]);
    assert_eq!(list_entries(&read), Err(IoError::UndecodableName));
}

#[test]
fn listing_after_one_fetch_holds_the_key() {
    let key = wallers::hash::get_url_hash("http://x");
    let read = DirectoryRead::Children(vec![EntryRead::Name(key.clone())]);
    assert_eq!(list_entries(&read), Ok(vec![key]));
}

#[test]
fn temp_name_replaces_the_extension() {
    assert_eq!(temp_name("abc123.jpg"), "abc123.download");
    assert_eq!(temp_name("a.b.c"), "a.b.download");
    assert_eq!(temp_name("a."), "a.download");
    assert_eq!(temp_name("a..b"), "a..download");
    assert_eq!(temp_name("..a"), "..download");
}

#[test]
fn temp_name_adds_the_extension_where_there_is_none() {
    assert_eq!(temp_name("abc123"), "abc123.download");
    assert_eq!(temp_name("deadbeef"), "deadbeef.download");
    assert_eq!(temp_name(""), ".download");
}

#[test]
fn temp_name_keeps_a_leading_dot() {
    assert_eq!(temp_name(".hidden"), ".hidden.download");
    assert_eq!(temp_name(".hidden.jpg"), ".hidden.download");
}

#[test]
fn temp_name_of_a_temp_name() {
    assert_eq!(temp_name("abc.download"), "abc.download");
    assert_eq!(temp_name(".download"), ".download.download");
}

#[test]
fn temp_name_of_a_cache_key() {
    let key = wallers::hash::get_url_hash("http://x");
    assert_eq!(temp_name(key.as_str()), format!("{}.download", key));
}

#[test]
fn temp_name_agrees_with_path_with_extension() {
    let names = [
        "a", "a.jpg", "a.b.c", ".a", ".a.b", "a.", "a..", "a..b", "...", "ab cd.png",
        "名前.jpeg", "x.download", "UPPER.JPG", "no_ext", "a.tar.gz",
    ];
    for name in names.iter() {
        let by_std = Path::new(name).with_extension("download");
        assert_eq!(temp_name(name), by_std.to_str().unwrap(), "name {:?}", name);
    }
}

#[test]
fn download_markers_end_in_dot_download() {
    assert!(is_download_marker("abc.download"));
    assert!(is_download_marker(".download"));
    assert!(is_download_marker("a.b.download"));
    assert!(!is_download_marker("abc"));
    assert!(!is_download_marker(""));
    assert!(!is_download_marker("download"));
    assert!(!is_download_marker("abcdownload"));
    assert!(!is_download_marker("abc.download.jpg"));
    assert!(!is_download_marker("abc.DOWNLOAD"));
    assert!(!is_download_marker("abc.downloa"));
    assert!(!is_download_marker("abc.download "));
}

#[test]
fn temp_names_are_download_markers() {
    let names = ["", "a", "a.jpg", ".a", "a.b.c", "x.download", "deadbeef"];
    for name in names.iter() {
        assert!(is_download_marker(temp_name(name).as_str()));
    }
}

#[test]
fn cache_keys_are_no_download_markers() {
    let urls = ["", "http://a", "http://b/c.download"];
    for url in urls.iter() {
        let key = wallers::hash::get_url_hash(url);
        assert!(!is_download_marker(key.as_str()));
        assert_ne!(temp_name(key.as_str()), key);
    }
}

#[test]
fn completed_entries_leave_out_the_markers() {
    let names = owned(&["a", "b.download", "c", ".download", "d.jpg", "e.download.bak"]);
    assert_eq!(completed_entries(&names), owned(&["a", "c", "d.jpg", "e.download.bak"]));
    assert_eq!(completed_entries(&Vec::new()), Vec::<String>::new());
    assert_eq!(completed_entries(&owned(&["x.download"])), Vec::<String>::new());
    assert_eq!(completed_entries(&owned(&["k", "k"])), owned(&["k", "k"]));
}

#[test]
fn cache_path_holds_directory_and_name() {
    let path = CachePath::new("/home/u/images", "deadbeef");
    assert_eq!(path.dir, "/home/u/images");
    assert_eq!(path.name, "deadbeef");
    assert_eq!(path.duplicate(), path);
}

#[test]
fn cache_path_temp_is_a_sibling() {
    let path = CachePath::new("/home/u/images", "deadbeef");
    assert_eq!(path.temp(), CachePath::new("/home/u/images", "deadbeef.download"));
    let path = CachePath::new("dir", "abc123.jpg");
    assert_eq!(path.temp(), CachePath::new("dir", "abc123.download"));
}

#[test]
fn error_messages() {
    assert_eq!(IoError::CreateDir("a".to_string()).message(), "a");
    assert_eq!(IoError::ReadDir("b".to_string()).message(), "b");
    assert_eq!(IoError::ReadEntry("c".to_string()).message(), "c");
    assert_eq!(IoError::UndecodableName.message(), "uninterpretable filename");
    assert_eq!(IoError::TempFile("d".to_string()).message(), "d");
    assert_eq!(IoError::Transfer("e".to_string()).message(), "e");
    assert_eq!(IoError::Rename("f".to_string()).message(), "f");
    assert_eq!(IoError::PathNotText.message(), "Could not convert path to string..");
}
