use eloran::model::FileInfo;
use eloran::storage::{
    bookmarks_query, files_from_directory_query, flag_queries, full_path, last_scan_seconds,
    library_from_path, library_name_from_path, library_query, path_lookup, record_id,
    search_directories_query, search_files_query, toggle_user, user_in_list, user_query,
    where_clause, with_record_id,
};

#[test]
fn lookups_filter_by_name_else_by_id() {
    assert_eq!(where_clause(Some("comics"), Some("3")), "WHERE name = 'comics'");
    assert_eq!(where_clause(None, Some("3")), "WHERE id = '3'");
    assert_eq!(where_clause(None, None), "");
    assert_eq!(library_query(None, None), "SELECT * FROM core ;");
    assert_eq!(library_query(Some("comics"), None), "SELECT * FROM core WHERE name = 'comics';");
    assert_eq!(user_query(None, Some("2")), "SELECT * FROM users WHERE id = '2';");
    assert_eq!(
        library_query(Some("Goblin's"), None),
        "SELECT * FROM core WHERE name = 'Goblin''s';"
    );
    assert_eq!(where_clause(None, Some("1' OR '1")), "WHERE id = '1'' OR ''1'");
}

#[test]
fn search_and_bookmark_queries() {
    assert_eq!(
        bookmarks_query(12),
        "SELECT * FROM files WHERE ',' || bookmarked_by || ',' LIKE '%,12,%';"
    );
    // user 1 is not found in a list that holds only user 11
    assert_eq!(
        bookmarks_query(1),
        "SELECT * FROM files WHERE ',' || bookmarked_by || ',' LIKE '%,1,%';"
    );
    assert!(!user_in_list("11", 1));
    assert_eq!(
        search_files_query("l'eau"),
        "SELECT * FROM files WHERE name LIKE '%l''eau%' OR parent_path LIKE '%l''eau%';"
    );
    assert_eq!(
        search_files_query("aste rix"),
        "SELECT * FROM files WHERE name LIKE '%aste rix%' OR parent_path LIKE '%aste rix%';"
    );
    assert_eq!(
        search_directories_query("x"),
        "SELECT * FROM directories WHERE name LIKE '%x%' OR parent_path LIKE '%x%';"
    );
}

#[test]
fn directory_queries_double_quotes() {
    assert_eq!(
        files_from_directory_query("/data/Goblin's", "T'1"),
        "SELECT * FROM files WHERE parent_path = '/data/Goblin''s/T''1'"
    );
    assert_eq!(full_path("/data/lib", "T01.cbz"), "/data/lib/T01.cbz");
}

#[test]
fn libraries_are_named_after_their_last_component() {
    assert_eq!(library_name_from_path("/data/comics/"), "comics");
    assert_eq!(library_name_from_path("/data/comics//"), "comics");
    assert_eq!(library_name_from_path("books"), "books");
    let l = library_from_path("/data/comics/");
    assert_eq!(l.name, "comics");
    assert_eq!(l.path, "/data/comics/");
    assert_eq!(l.id, 0);
    assert_eq!(l.file_count, 0);
    assert_eq!(l.last_successfull_scan_date, 0);
}

#[test]
fn last_scan_defaults_to_never() {
    assert_eq!(last_scan_seconds(None), 0);
    assert_eq!(last_scan_seconds(Some(1234)), 1234);
}

#[test]
fn file_paths_are_looked_up_under_the_library() {
    assert_eq!(
        path_lookup("Asterix/T01.pdf", "lib"),
        ("libAsterix".to_string(), "T01.pdf".to_string())
    );
    assert_eq!(
        path_lookup("a/b/c.cbz", "/data/"),
        ("/data/a/b".to_string(), "c.cbz".to_string())
    );
    assert_eq!(path_lookup("c.cbz", "lib"), ("li".to_string(), "c.cbz".to_string()));
}

#[test]
fn flag_queries_by_kind() {
    let (column, select, update) = flag_queries("bookmark");
    assert_eq!(column, "bookmarked_by");
    assert_eq!(select, "SELECT bookmarked_by FROM files WHERE id = ?;");
    assert_eq!(update, "UPDATE files SET bookmarked_by = ? WHERE id = ?;");
    let (column, select, update) = flag_queries("read_status");
    assert_eq!(column, "read_by");
    assert_eq!(select, "SELECT read_by FROM files WHERE id = ?;");
    assert_eq!(update, "UPDATE files SET read_by = ? WHERE id = ?;");
    let (column, select, update) = flag_queries("other");
    assert_eq!((column.as_str(), select.as_str(), update.as_str()), ("", "", ""));
}

#[test]
fn toggling_adds_then_removes_a_user() {
    assert_eq!(toggle_user("", 3), ("3".to_string(), true));
    assert_eq!(toggle_user("1,2", 3), ("1,2,3".to_string(), true));
    assert_eq!(toggle_user("1,2,3", 2), ("1,3".to_string(), false));
    assert_eq!(toggle_user("7", 7), ("".to_string(), false));
    assert_eq!(toggle_user("10", 1), ("10,1".to_string(), true));
    // lists in no particular order
    assert_eq!(toggle_user("10,2", 2), ("10".to_string(), false));
    assert_eq!(toggle_user("3,1,2", 1), ("3,2".to_string(), false));
    assert_eq!(toggle_user("2,2,5", 2), ("5".to_string(), false));
}

#[test]
fn added_users_are_listed() {
    let (list, added) = toggle_user("4,5", 6);
    assert!(added);
    assert!(user_in_list(&list, 6));
    assert!(!user_in_list("4,5", 6));
    // an id is a whole entry of the list
    assert!(!user_in_list("11", 1));
    assert!(user_in_list("11,1", 1));
    assert!(!user_in_list("", 1));
}

#[test]
fn records_are_stored_under_their_id_or_a_fresh_one() {
    assert_eq!(record_id(Some("01ABC")), "01ABC");
    let fresh = record_id(None);
    assert_eq!(fresh.chars().count(), 26);
    assert_ne!(record_id(None), fresh);
    let mut f = FileInfo::new();
    f.name = "T01.cbz".to_string();
    let stored = with_record_id(f.clone(), Some("X1"));
    assert_eq!(stored.id, "X1");
    assert_eq!(stored.name, "T01.cbz");
    let stored = with_record_id(f, None);
    assert_eq!(stored.id.len(), 26);
    assert_ne!(stored.id, "666");
}
