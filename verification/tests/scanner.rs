use eloran::model::{FileInfo, Format, Library};
use eloran::scan::{
    comic_cover_entry, comic_page_bounds, comic_page_entry, extract_comic_image_list,
    extractor_for, format_from_name, needs_scan, new_directory_info, new_file_info, plan_upsert,
    scan_action, should_register_directory, Extractor, ScanAction, UpsertPlan,
};

#[test]
fn test_extract_new_file() {
    // the file `library_new_file/Asterix/T01 - Asterix le Gaulois.pdf`,
    // 10 bytes long, found in library `library`
    let validation_file = new_file_info(
        "library",
        Some("T01 - Asterix le Gaulois.pdf"),
        Some("library_new_file/Asterix"),
        1_700_000_000,
        Some(10),
    );
    assert_eq!(validation_file.id, "666");
    assert_eq!(validation_file.name, "T01 - Asterix le Gaulois.pdf");
    assert_eq!(validation_file.library_name, "library");
    assert_eq!(validation_file.parent_path, "library_new_file/Asterix");
    assert_eq!(validation_file.scan_me, 1);
    assert_eq!(validation_file.added_date, 1_700_000_000);
    assert_eq!(validation_file.format, Format::Pdf);
    assert_eq!(validation_file.size, 10);
    assert_eq!(validation_file.total_pages, 0);
    assert_eq!(validation_file.read_by, "");
    assert_eq!(validation_file.bookmarked_by, "");
}

#[test]
fn new_file_without_name_or_size_gets_placeholders() {
    let f = new_file_info("lib", None, None, 5, None);
    assert_eq!(f.name, "unknow file name");
    assert_eq!(f.parent_path, "unknow path");
    assert_eq!(f.size, 0);
    assert_eq!(f.format, Format::Other);
}

#[test]
fn format_comes_from_the_last_extension_in_any_case() {
    assert_eq!(format_from_name("a.EPUB"), Format::Epub);
    assert_eq!(format_from_name("a.tar.cbz"), Format::Cbz);
    assert_eq!(format_from_name("x.Cbr"), Format::Cbr);
    assert_eq!(format_from_name("notes.txt"), Format::Txt);
    assert_eq!(format_from_name("pdf"), Format::Pdf);
    assert_eq!(format_from_name("cover.jpg"), Format::Other);
    assert_eq!(format_from_name("archive"), Format::Other);
}

#[test]
fn a_scan_visits_what_changed_after_the_last_one() {
    assert!(needs_scan(true, 101, 0, 100));
    assert!(needs_scan(true, 100, 1, 100));
    assert!(!needs_scan(true, 100, 0, 100));
    assert!(!needs_scan(true, 99, 999, 100));
    assert!(!needs_scan(false, 500, 0, 100));
}

#[test]
fn new_directories_are_registered_unless_root() {
    assert!(should_register_directory(0, "/data/lib"));
    assert!(!should_register_directory(0, ""));
    assert!(!should_register_directory(1, "/data/lib"));
    let d = new_directory_info("Asterix", "/data/lib");
    assert_eq!(d.id, "666");
    assert_eq!(d.name, "Asterix");
    assert_eq!(d.parent_path, "/data/lib");
    assert_eq!(d.file_count, None);
}

fn found(id: &str, read_by: &str, bookmarked_by: &str) -> FileInfo {
    let mut f = FileInfo::new();
    f.id = id.to_string();
    f.read_by = read_by.to_string();
    f.bookmarked_by = bookmarked_by.to_string();
    f
}

#[test]
fn known_files_keep_their_flags() {
    let new_file = new_file_info("lib", Some("T01.cbz"), Some("/d"), 7, Some(3));
    match plan_upsert(new_file.clone(), Vec::new()) {
        UpsertPlan::Insert(f) => assert_eq!(f.name, "T01.cbz"),
        _ => panic!("a new file is inserted"),
    }
    match plan_upsert(new_file.clone(), vec![found("01ABC", "1,2", "3")]) {
        UpsertPlan::Update(f, id) => {
            assert_eq!(id, "01ABC");
            assert_eq!(f.read_by, "1,2");
            assert_eq!(f.bookmarked_by, "3");
            assert_eq!(f.size, 3);
            assert_eq!(f.added_date, 7);
        }
        _ => panic!("a known file is updated"),
    }
    match plan_upsert(new_file, vec![found("a", "", ""), found("b", "", "")]) {
        UpsertPlan::Corrupted => {}
        _ => panic!("a file known twice is refused"),
    }
}

#[test]
fn scans_run_on_unlocked_directories() {
    assert!(scan_action(false, false) == ScanAction::Missing);
    assert!(scan_action(true, true) == ScanAction::Locked);
    assert!(scan_action(true, false) == ScanAction::Run);
    let l = Library::new();
    assert_eq!(l.id, 0);
    assert_eq!(l.path, "");
}

#[test]
fn extractors_follow_the_format() {
    assert!(extractor_for(Format::Epub) == Extractor::Epub);
    assert!(extractor_for(Format::Pdf) == Extractor::Pdf);
    assert!(extractor_for(Format::Cbz) == Extractor::Comic);
    assert!(extractor_for(Format::Cbr) == Extractor::Comic);
    assert!(extractor_for(Format::Txt) == Extractor::Nothing);
    assert!(extractor_for(Format::Other) == Extractor::Nothing);
}

#[test]
fn comic_pages_are_the_sorted_images() {
    let entries = vec![
        "b/02.JPG".to_string(),
        "ComicInfo.xml".to_string(),
        "b/01.png".to_string(),
        "a/cover.jpeg".to_string(),
        "notes.txt".to_string(),
    ];
    let pages = extract_comic_image_list(entries);
    assert_eq!(pages, vec!["a/cover.jpeg", "b/01.png", "b/02.JPG"]);
    assert_eq!(comic_page_entry(&pages, 0), Some("a/cover.jpeg".to_string()));
    assert_eq!(comic_page_entry(&pages, 2), Some("b/02.JPG".to_string()));
    assert_eq!(comic_page_entry(&pages, 3), None);
    assert_eq!(comic_page_entry(&pages, -1), None);
    assert_eq!(comic_cover_entry(&pages), "a/cover.jpeg");
    assert_eq!(comic_cover_entry(&Vec::new()), "");
    assert!(extract_comic_image_list(Vec::new()).is_empty());
}

#[test]
fn comic_pages_shrink_to_the_size_asked() {
    assert_eq!(comic_page_bounds("800px"), Some((800, 2000)));
    assert_eq!(comic_page_bounds("1000px"), Some((1000, 2500)));
    assert_eq!(comic_page_bounds("orig"), None);
}
