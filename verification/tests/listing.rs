use cloud_backup::listing::{
    list_items, parse_rclone_item, precedes_or_equals, read_listing, sort_cloud_files, ListingItem,
};
use cloud_backup::models::CloudFile;

fn item(path: Option<&str>) -> ListingItem {
    ListingItem {
        is_object: true,
        path: path.map(|p| p.to_string()),
        name: None,
        size: None,
        is_dir: None,
        mod_time: None,
        mime_type: None,
    }
}

#[test]
fn an_entry_with_everything() {
    let entry = ListingItem {
        is_object: true,
        path: Some("dir/a.txt".to_string()),
        name: Some("a.txt".to_string()),
        size: Some(12),
        is_dir: Some(false),
        mod_time: Some("2025-01-16T12:34:56.789+01:00".to_string()),
        mime_type: Some("text/plain".to_string()),
    };
    let file = parse_rclone_item(&entry, 5).unwrap().unwrap();
    assert_eq!(file.path, "dir/a.txt");
    assert_eq!(file.name, "a.txt");
    assert_eq!(file.size, 12);
    assert!(!file.is_dir);
    assert_eq!(file.mod_time, 1_737_027_296_789);
    assert_eq!(file.mime_type, Some("text/plain".to_string()));
}

#[test]
fn an_entry_with_only_a_path() {
    let file = parse_rclone_item(&item(Some("dir")), 77).unwrap().unwrap();
    assert_eq!(file.path, "dir");
    assert_eq!(file.name, "dir");
    assert_eq!(file.size, 0);
    assert!(!file.is_dir);
    assert_eq!(file.mod_time, 77);
    assert_eq!(file.mime_type, None);
}

#[test]
fn a_time_that_cannot_be_read_is_now() {
    let mut entry = item(Some("a"));
    entry.mod_time = Some("yesterday".to_string());
    assert_eq!(parse_rclone_item(&entry, 77).unwrap().unwrap().mod_time, 77);
    entry.mod_time = Some("1970-01-01T00:00:01Z".to_string());
    assert_eq!(parse_rclone_item(&entry, 77).unwrap().unwrap().mod_time, 1000);
}

#[test]
fn entries_that_describe_no_file() {
    let mut entry = item(Some("a"));
    entry.is_object = false;
    assert_eq!(parse_rclone_item(&entry, 0).unwrap_err(), "Invalid rclone item format");
    assert_eq!(parse_rclone_item(&item(None), 0).unwrap_err(), "Missing Path in rclone item");
}

#[test]
fn the_order_of_the_dictionary() {
    let le = |a: &str, b: &str| {
        let a: Vec<char> = a.chars().collect();
        let b: Vec<char> = b.chars().collect();
        precedes_or_equals(&a, &b)
    };
    for (a, b) in [("", ""), ("", "a"), ("a", "a"), ("a", "b"), ("a", "ab"), ("B", "a"), ("ab", "b"), ("z", "é")] {
        assert!(le(a, b), "{a} {b}");
        assert_eq!(le(a, b), a <= b);
        assert_eq!(le(b, a), b <= a);
    }
}

fn file(name: &str, is_dir: bool) -> CloudFile {
    CloudFile {
        path: format!("p/{name}"),
        name: name.to_string(),
        size: 0,
        mod_time: 0,
        is_dir,
        mime_type: None,
    }
}

#[test]
fn directories_first_then_names() {
    let files = vec![
        file("b.txt", false),
        file("zeta", true),
        file("a.txt", false),
        file("alpha", true),
        file("B.txt", false),
        file("a.txt", false),
    ];
    let mut expected = files.clone();
    expected.sort_by(|a, b| {
        if a.is_dir != b.is_dir {
            b.is_dir.cmp(&a.is_dir)
        } else {
            a.name.cmp(&b.name)
        }
    });
    let sorted = sort_cloud_files(files);
    let names: Vec<&str> = sorted.iter().map(|f| f.name.as_str()).collect();
    assert_eq!(names, vec!["alpha", "zeta", "B.txt", "a.txt", "a.txt", "b.txt"]);
    let expected_names: Vec<&str> = expected.iter().map(|f| f.name.as_str()).collect();
    assert_eq!(names, expected_names);
    assert!(sort_cloud_files(Vec::new()).is_empty());
}

#[test]
fn a_listing_of_entries() {
    let listing = list_items(&[item(Some("b")), item(Some("a"))], 3).unwrap();
    let paths: Vec<&str> = listing.iter().map(|f| f.path.as_str()).collect();
    assert_eq!(paths, vec!["a", "b"]);
    let failed = list_items(&[item(Some("b")), item(None), item(Some("a"))], 3);
    assert_eq!(failed.unwrap_err(), "Missing Path in rclone item");
    assert!(list_items(&[], 3).unwrap().is_empty());
}

#[test]
fn a_listing_as_the_tool_prints_it() {
    let json = r#"[
        {"Path":"docs","Name":"docs","Size":-1,"MimeType":"inode/directory","ModTime":"2025-01-16T12:00:00.000000000Z","IsDir":true},
        {"Path":"docs/b.txt","Name":"b.txt","Size":5,"MimeType":"text/plain","ModTime":"2025-01-16T12:00:01Z","IsDir":false},
        {"Path":"a.txt","Size":7,"IsDir":"no","ModTime":12}
    ]"#;
    let files = read_listing(json, 99).unwrap();
    assert_eq!(files.len(), 3);
    assert_eq!(files[0].path, "docs");
    assert!(files[0].is_dir);
    assert_eq!(files[0].size, 0);
    assert_eq!(files[0].mod_time, 1_737_028_800_000);
    assert_eq!(files[1].name, "a.txt");
    assert_eq!(files[1].size, 7);
    assert_eq!(files[1].mod_time, 99);
    assert!(!files[1].is_dir);
    assert_eq!(files[1].mime_type, None);
    assert_eq!(files[2].name, "b.txt");
    assert_eq!(files[2].mime_type, Some("text/plain".to_string()));
    assert_eq!(files[2].mod_time, 1_737_028_801_000);
}

#[test]
fn listings_that_cannot_be_read() {
    assert!(read_listing("not json", 0).unwrap_err().starts_with("Failed to parse rclone output: "));
    assert!(read_listing("{}", 0).unwrap_err().starts_with("Failed to parse rclone output: "));
    assert_eq!(read_listing("[1]", 0).unwrap_err(), "Invalid rclone item format");
    assert_eq!(read_listing(r#"[{"Name":"x"}]"#, 0).unwrap_err(), "Missing Path in rclone item");
    assert_eq!(read_listing(r#"[{"Path":5}]"#, 0).unwrap_err(), "Missing Path in rclone item");
    assert!(read_listing("[]", 0).unwrap().is_empty());
}
