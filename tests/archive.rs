use alphadep::archive::{archive_members, write_archive, write_selection, ArchiveEntry, DeploymentFileArchiveError};
use std::io::Read;

fn strings(v: &[&str]) -> Vec<String> {
    v.iter().map(|s| s.to_string()).collect()
}

#[test]
fn destination_is_never_archived() {
    let paths = strings(&["./alphadep-archive", "src", "src/a.rs", "broken"]);
    let canonical = vec![
        Some("/p/alphadep-archive".to_string()),
        Some("/p/src".to_string()),
        Some("/p/src/a.rs".to_string()),
        None,
    ];
    let r = archive_members(&paths, &canonical, &strings(&["/p/alphadep-archive"]));
    assert_eq!(r, strings(&["src", "src/a.rs", "broken"]));
}

#[test]
fn no_exclusions_keep_every_member() {
    let paths = strings(&["a", "b"]);
    let canonical = vec![Some("/a".to_string()), Some("/b".to_string())];
    assert_eq!(archive_members(&paths, &canonical, &Vec::new()), paths);
}

#[test]
fn archive_round_trip_preserves_content() {
    let entries = vec![
        ArchiveEntry::Directory { path: "src".to_string() },
        ArchiveEntry::File { path: "src/a.rs".to_string(), data: b"fn main() {}\n".to_vec() },
        ArchiveEntry::File { path: "empty.txt".to_string(), data: Vec::new() },
        ArchiveEntry::File { path: "bin.dat".to_string(), data: vec![0, 255, 10, 13, 0] },
    ];
    let bytes = write_archive(&entries).unwrap();
    let mut zip = zip::ZipArchive::new(std::io::Cursor::new(bytes)).unwrap();
    assert_eq!(zip.len(), 4);
    assert!(zip.by_name("src/").unwrap().is_dir());
    for (name, want) in [("src/a.rs", b"fn main() {}\n".to_vec()), ("empty.txt", Vec::new()), ("bin.dat", vec![0, 255, 10, 13, 0])] {
        let mut got = Vec::new();
        zip.by_name(name).unwrap().read_to_end(&mut got).unwrap();
        assert_eq!(got, want);
    }
}

#[test]
fn duplicate_entry_is_an_error() {
    let entries = vec![
        ArchiveEntry::File { path: "a".to_string(), data: vec![1] },
        ArchiveEntry::File { path: "a".to_string(), data: vec![2] },
    ];
    assert!(matches!(write_archive(&entries), Err(DeploymentFileArchiveError::ZipError(_))));
}

#[test]
fn empty_archive_is_valid() {
    let bytes = write_archive(&Vec::new()).unwrap();
    let zip = zip::ZipArchive::new(std::io::Cursor::new(bytes)).unwrap();
    assert_eq!(zip.len(), 0);
}

#[test]
fn entry_names_are_normalized() {
    let entries = vec![
        ArchiveEntry::Directory { path: "./src".to_string() },
        ArchiveEntry::File { path: "./src/a.rs".to_string(), data: b"x".to_vec() },
    ];
    let bytes = write_archive(&entries).unwrap();
    let mut zip = zip::ZipArchive::new(std::io::Cursor::new(bytes)).unwrap();
    assert!(zip.by_name("src/").unwrap().is_dir());
    let mut got = Vec::new();
    zip.by_name("src/a.rs").unwrap().read_to_end(&mut got).unwrap();
    assert_eq!(got, b"x");
}

#[test]
fn names_equal_after_normalization_collide() {
    let entries = vec![
        ArchiveEntry::File { path: "./a".to_string(), data: vec![1] },
        ArchiveEntry::File { path: "a".to_string(), data: vec![2] },
    ];
    assert!(matches!(write_archive(&entries), Err(DeploymentFileArchiveError::ZipError(_))));
}

#[test]
fn selection_archive_skips_its_destination() {
    let entries = vec![
        ArchiveEntry::File { path: "./alphadep-archive".to_string(), data: b"old archive".to_vec() },
        ArchiveEntry::Directory { path: "src".to_string() },
        ArchiveEntry::File { path: "src/a.rs".to_string(), data: b"fn a() {}".to_vec() },
    ];
    let canonical = vec![
        Some("/p/alphadep-archive".to_string()),
        Some("/p/src".to_string()),
        Some("/p/src/a.rs".to_string()),
    ];
    let bytes = write_selection(entries, &canonical, &vec!["/p/alphadep-archive".to_string()]).unwrap();
    let mut zip = zip::ZipArchive::new(std::io::Cursor::new(bytes)).unwrap();
    assert_eq!(zip.len(), 2);
    assert!(zip.by_name("alphadep-archive").is_err());
    let mut got = Vec::new();
    zip.by_name("src/a.rs").unwrap().read_to_end(&mut got).unwrap();
    assert_eq!(got, b"fn a() {}");
}
