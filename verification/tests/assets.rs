use miniref::assets::{
    asset_from, assets_dir, create_asset, mime_type, mime_type_or_binary, note_id, note_path,
    scan_assets, DirectoryEntry,
};

fn file(path: &str) -> DirectoryEntry {
    DirectoryEntry { path: path.to_string(), is_file: true }
}

#[test]
fn asset_discovery_finds_both_files() {
    let entries = vec![file("notes/7.assets/a.png"), file("notes/7.assets/b.pdf")];
    let assets = scan_assets(&entries);
    assert_eq!(assets.len(), 2);
    assert_eq!(assets[0].name, "a.png");
    assert_eq!(assets[0].path, "notes/7.assets/a.png");
    assert_eq!(assets[0].mime_type, "image/png");
    assert_eq!(assets[1].name, "b.pdf");
    assert_eq!(assets[1].mime_type, "application/pdf");
}

#[test]
fn no_assets_directory_means_no_assets() {
    assert!(scan_assets(&Vec::new()).is_empty());
}

#[test]
fn subdirectories_are_ignored() {
    let entries = vec![
        DirectoryEntry { path: "notes/7.assets/sub".to_string(), is_file: false },
        file("notes/7.assets/a.png"),
        DirectoryEntry { path: "notes/7.assets/more.png".to_string(), is_file: false },
    ];
    let assets = scan_assets(&entries);
    assert_eq!(assets.len(), 1);
    assert_eq!(assets[0].name, "a.png");
}

#[test]
fn an_entry_without_a_file_name_is_skipped() {
    let entries = vec![file("notes/7.assets/.."), file("notes/7.assets/c.txt"), file("")];
    let assets = scan_assets(&entries);
    assert_eq!(assets.len(), 1);
    assert_eq!(assets[0].name, "c.txt");
    assert_eq!(assets[0].mime_type, "text/plain");
}

#[test]
fn unknown_extension_falls_back_to_binary() {
    assert_eq!(mime_type("x.no-such-extension"), "application/octet-stream");
    assert_eq!(mime_type("no_extension"), "application/octet-stream");
    assert_eq!(mime_type("PHOTO.PNG"), "image/png");
}

#[test]
fn create_asset_uses_the_final_segment() {
    let asset = create_asset("/srv/notes/7.assets/report.final.pdf").unwrap();
    assert_eq!(asset.name, "report.final.pdf");
    assert_eq!(asset.path, "/srv/notes/7.assets/report.final.pdf");
    assert_eq!(asset.mime_type, "application/pdf");
    assert!(create_asset("/").is_none());
}

#[test]
fn assets_directory_lies_beside_the_note() {
    assert_eq!(assets_dir("notes/42.md"), "notes/42.assets");
    assert_eq!(assets_dir("/srv/notes/a.b.md"), "/srv/notes/a.b.assets");
}

#[test]
fn note_path_joins_root_and_file_name() {
    assert_eq!(note_path("notes", "7"), "notes/7.md");
    assert_eq!(note_path("./notes", "does-not-exist"), "./notes/does-not-exist.md");
}

#[test]
fn note_id_is_the_stem_of_a_markdown_file() {
    assert_eq!(note_id("7.md"), Some("7".to_string()));
    assert_eq!(note_id("a.b.md"), Some("a.b".to_string()));
    assert_eq!(note_id("caf\u{e9}.md"), Some("caf\u{e9}".to_string()));
    assert_eq!(note_id(".md"), None);
    assert_eq!(note_id("md"), None);
    assert_eq!(note_id("7.txt"), None);
    assert_eq!(note_id("7.md.bak"), None);
    assert_eq!(note_id("7.MD"), None);
    assert_eq!(note_id(""), None);
}

#[test]
fn mime_type_or_binary_falls_back() {
    assert_eq!(mime_type_or_binary(Some("image/png".to_string())), "image/png");
    assert_eq!(mime_type_or_binary(None), "application/octet-stream");
}

#[test]
fn asset_from_needs_a_file_name() {
    let asset = asset_from("d/a.png", Some("a.png".to_string()), Some("image/png".to_string()));
    let asset = asset.unwrap();
    assert_eq!(asset.path, "d/a.png");
    assert_eq!(asset.name, "a.png");
    assert_eq!(asset.mime_type, "image/png");
    let unknown = asset_from("d/a.zzz", Some("a.zzz".to_string()), None).unwrap();
    assert_eq!(unknown.mime_type, "application/octet-stream");
    assert!(asset_from("d/..", None, Some("image/png".to_string())).is_none());
}
