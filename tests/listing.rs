use dir_lister::app_data::AppData;
use dir_lister::file::{File, ScannedEntry};
use dir_lister::files::Files;
use dir_lister::path::join;

fn entry(name: &str, size: Option<u64>) -> Option<ScannedEntry> {
    Some(ScannedEntry { name: name.to_string(), size })
}

fn shown(files: &Files) -> Vec<(String, String, u64)> {
    files
        .files
        .iter()
        .map(|f| (f.name.clone(), f.path.clone(), f.size))
        .collect()
}

#[test]
fn join_puts_a_separator_between() {
    assert_eq!(join("/tmp/x", "a.txt"), "/tmp/x/a.txt");
}

#[test]
fn join_keeps_a_trailing_separator() {
    assert_eq!(join("/tmp/x/", "a.txt"), "/tmp/x/a.txt");
    assert_eq!(join("/", "etc"), "/etc");
}

#[test]
fn join_with_empty_directory_is_the_name() {
    assert_eq!(join("", "a.txt"), "a.txt");
}

#[test]
fn join_with_absolute_name_is_the_name() {
    assert_eq!(join("/tmp/x", "/etc"), "/etc");
}

#[test]
fn join_with_non_ascii_names() {
    assert_eq!(join("/tmp/été", "ñandú.txt"), "/tmp/été/ñandú.txt");
}

#[test]
fn file_from_entry_with_size() {
    let e = ScannedEntry { name: "a.txt".to_string(), size: Some(5) };
    let f = File::from_entry("/tmp/x", &e);
    assert_eq!(f.name, "a.txt");
    assert_eq!(f.path, "/tmp/x/a.txt");
    assert_eq!(f.size, 5);
}

#[test]
fn file_with_unreadable_metadata_has_size_zero() {
    let e = ScannedEntry { name: "locked".to_string(), size: None };
    let f = File::from_entry("/srv", &e);
    assert_eq!(f.name, "locked");
    assert_eq!(f.path, "/srv/locked");
    assert_eq!(f.size, 0);
}

#[test]
fn missing_directory_gives_empty_list() {
    let files = Files::from_scan("/does/not/exist", &None);
    assert_eq!(files.files.len(), 0);
}

#[test]
fn empty_directory_gives_empty_list() {
    let files = Files::from_scan("/tmp/empty", &Some(vec![]));
    assert!(files.files.is_empty());
}

#[test]
fn two_files_with_sizes() {
    let scan = Some(vec![entry("a.txt", Some(5)), entry("b.txt", Some(10))]);
    let files = Files::from_scan("/tmp/x", &scan);
    assert_eq!(files.files.len(), 2);
    let mut got: Vec<(String, u64)> = files.files.iter().map(|f| (f.name.clone(), f.size)).collect();
    got.sort();
    assert_eq!(got, vec![("a.txt".to_string(), 5), ("b.txt".to_string(), 10)]);
}

#[test]
fn one_entry_per_readable_member_in_scan_order() {
    let scan = Some(vec![
        entry("z", Some(1)),
        None,
        entry("m", Some(2)),
        None,
        entry("a", None),
    ]);
    let files = Files::from_scan("/data", &scan);
    assert_eq!(
        shown(&files),
        vec![
            ("z".to_string(), "/data/z".to_string(), 1),
            ("m".to_string(), "/data/m".to_string(), 2),
            ("a".to_string(), "/data/a".to_string(), 0),
        ]
    );
}

#[test]
fn unreadable_metadata_keeps_the_entry() {
    let scan = Some(vec![entry("a.txt", Some(5)), entry("b.bin", None)]);
    let files = Files::from_scan("/tmp/x", &scan);
    assert_eq!(files.files.len(), 2);
    let b = files.files.get(1).unwrap();
    assert_eq!(b.name, "b.bin");
    assert_eq!(b.size, 0);
}

#[test]
fn scans_in_another_order_give_the_same_entries() {
    let first = Files::from_entries(
        "/tmp/x",
        &vec![entry("a.txt", Some(5)), entry("b.txt", Some(10)), None, entry("c", None)],
    );
    let second = Files::from_entries(
        "/tmp/x",
        &vec![entry("c", None), entry("b.txt", Some(10)), entry("a.txt", Some(5)), None],
    );
    let mut x = shown(&first);
    let mut y = shown(&second);
    assert_ne!(x, y);
    x.sort();
    y.sort();
    assert_eq!(x, y);
}

#[test]
fn all_entries_unreadable_gives_empty_list() {
    let files = Files::from_entries("/tmp/x", &vec![None, None]);
    assert_eq!(files.files.len(), 0);
}

#[test]
fn default_files_is_empty() {
    let files = Files::default();
    assert!(files.files.is_empty());
}

#[test]
fn default_app_data_is_empty() {
    let data = AppData::default();
    assert_eq!(data.path, "");
    assert_eq!(data.err, "");
    assert!(data.files.files.is_empty());
}

#[test]
fn load_replaces_the_entries_and_keeps_the_rest() {
    let mut data = AppData::default();
    data.path = "/tmp/x".to_string();
    data.err = "earlier".to_string();
    data.load(&Some(vec![entry("a.txt", Some(5))]));
    assert_eq!(data.path, "/tmp/x");
    assert_eq!(data.err, "earlier");
    assert_eq!(
        shown(&data.files),
        vec![("a.txt".to_string(), "/tmp/x/a.txt".to_string(), 5)]
    );
    data.load(&None);
    assert_eq!(data.path, "/tmp/x");
    assert!(data.files.files.is_empty());
}
