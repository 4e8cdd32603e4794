use eloran::dates::added_date;
use eloran::html::escape;
use eloran::model::{DirectoryInfo, FileInfo, Role, User};
use eloran::pages::{
    file_size_unit, megabytes_text, next_page_of, previous_page_of, prefs, FileSizeUnit,
};
use eloran::sort::{sort_directories, sort_files, sort_flagged, sort_strings};
use eloran::storage::{library_name_from_path, toggle_user, user_in_list};
use eloran::web::{library_path_from_form, mark_read_needed, search_terms};

#[test]
fn escaped_text_holds_no_markup() {
    let e = escape("<a href=\"x\">&</a>");
    assert_eq!(e, "&lt;a href=&quot;x&quot;&gt;&amp;&lt;/a&gt;");
    assert!(!e.contains('<') && !e.contains('>') && !e.contains('"'));
    assert_eq!(escape("a<") + &escape("b&"), escape("a<b&"));
    assert_eq!(escape("plain text é"), "plain text é");
}

#[test]
fn an_added_user_is_listed() {
    for (list, id) in [("", 5), ("1,2", 3), ("12,13", 1)] {
        let (new_list, added) = toggle_user(list, id);
        assert!(added);
        assert!(user_in_list(&new_list, id));
    }
}

#[test]
fn navigation_stays_in_the_book() {
    assert_eq!(previous_page_of(0), 0);
    assert_eq!(previous_page_of(5), 4);
    assert_eq!(next_page_of(3, 10), 4);
    assert_eq!(next_page_of(9, 10), 9);
    assert_eq!(next_page_of(20, 10), 9);
}

#[test]
fn library_names_hold_no_slash() {
    for path in ["/a/b/", "/", "", "x//y//"] {
        assert!(!library_name_from_path(path).contains('/'));
    }
    assert_eq!(library_name_from_path("x//y//"), "y");
}

#[test]
fn new_library_paths_have_no_trailing_slash() {
    for body in ["path=/a/", "path=%2F%2F", "path=/b"] {
        assert!(!library_path_from_form(body).ends_with('/'));
    }
}

#[test]
fn search_words_hold_no_plus() {
    assert_eq!(search_terms("query=+a+b++"), " a b  ");
}

fn named(name: &str, id: &str) -> FileInfo {
    let mut f = FileInfo::new();
    f.name = name.to_string();
    f.id = id.to_string();
    f
}

#[test]
fn listings_are_sorted_and_keep_every_entry() {
    assert_eq!(
        sort_strings(vec!["b".to_string(), "B".to_string(), "a".to_string(), "ab".to_string()]),
        vec!["B", "a", "ab", "b"]
    );
    let files = sort_files(vec![named("z", "1"), named("a", "2"), named("z", "3"), named("é", "4")]);
    let ids: Vec<&str> = files.iter().map(|f| f.id.as_str()).collect();
    assert_eq!(ids, vec!["2", "1", "3", "4"]);
    let dirs = sort_directories(vec![
        DirectoryInfo { id: "1".into(), name: "b".into(), parent_path: "".into(), file_count: None },
        DirectoryInfo { id: "2".into(), name: "a".into(), parent_path: "".into(), file_count: Some(1) },
    ]);
    assert_eq!(dirs[0].id, "2");
    let flagged = sort_flagged(vec![
        (named("a", "1"), true, false),
        (named("a", "2"), false, true),
        (named("a", "3"), false, false),
    ]);
    let ids: Vec<&str> = flagged.iter().map(|e| e.0.id.as_str()).collect();
    assert_eq!(ids, vec!["3", "2", "1"]);
}

#[test]
fn dates_of_added_files() {
    assert_eq!(added_date(0), "1970-01-01");
    assert_eq!(added_date(1_700_000_000), "2023-11-14");
    assert_eq!(added_date(-86400), "1969-12-31");
    assert_eq!(added_date(253402300799), "9999-12-31");
    assert_eq!(added_date(253402300800), "not available");
    assert_eq!(added_date(i64::MIN), "not available");
}

#[test]
fn file_sizes_by_unit() {
    assert!(file_size_unit(0) == FileSizeUnit::Kilo);
    assert!(file_size_unit(1024 * 1024 - 1) == FileSizeUnit::Kilo);
    assert!(file_size_unit(1024 * 1024) == FileSizeUnit::Mega);
    assert!(file_size_unit(1024 * 1024 * 1024) == FileSizeUnit::Giga);
    assert_eq!(megabytes_text(5 * 1024 * 1024 + 1), "5 MB");
}

#[test]
fn toggles_change_entries_as_they_say() {
    // removed: the entry goes, the other entries stay in order
    let (list, added) = toggle_user("4,44,5", 4);
    assert!(!added);
    assert_eq!(list, "44,5");
    let entries: Vec<&str> = list.split(',').collect();
    assert!(!entries.contains(&"4"));
    // 44 is another user
    assert!(!user_in_list(&list, 4));
    // added: the id is the last entry
    let (list, added) = toggle_user("4,5", 6);
    assert!(added);
    assert_eq!(list.split(',').collect::<Vec<&str>>(), vec!["4", "5", "6"]);
    // the only entry removed leaves one empty entry
    let (list, added) = toggle_user("9", 9);
    assert!(!added);
    assert_eq!(list.split(',').collect::<Vec<&str>>(), vec![""]);
}

#[test]
fn a_removed_user_is_no_longer_listed() {
    let (list, added) = toggle_user("1,2,3", 2);
    assert!(!added);
    assert!(!user_in_list(&list, 2));
    let (list, added) = toggle_user("2", 2);
    assert!(!added);
    assert!(!user_in_list(&list, 2));
}

#[test]
fn toggling_twice_restores_the_list() {
    for (list, id) in [("1,3", 2), ("1,3", 3), ("", 7), ("10,2,30", 2), ("5", 5)] {
        let (once, first) = toggle_user(list, id);
        let (twice, second) = toggle_user(&once, id);
        assert_ne!(first, second);
        assert_eq!(user_in_list(&once, id), first);
        assert_eq!(user_in_list(&twice, id), user_in_list(list, id));
        let mut before: Vec<&str> = list.split(',').filter(|e| !e.is_empty()).collect();
        let mut after: Vec<&str> = twice.split(',').filter(|e| !e.is_empty()).collect();
        before.sort();
        after.sort();
        assert_eq!(before, after);
    }
}

#[test]
fn only_administrators_see_the_administration_entry() {
    let entry = "<li><a href=\"/admin\">Administration</a></li>";
    let admin = User { id: 1, name: "admin".to_string(), password_hash: "h".to_string(), role: Role::Admin };
    let bob = User { id: 2, name: "bob".to_string(), password_hash: "x".to_string(), role: Role::User };
    let carol = User { id: 3, name: "carol".to_string(), password_hash: "y".to_string(), role: Role::User };
    assert!(prefs(&admin).contains(entry));
    assert!(!prefs(&bob).contains(entry));
    assert_eq!(prefs(&bob), prefs(&carol));
}

#[test]
fn a_finished_book_stays_read() {
    let mut read_by = "3,5".to_string();
    // user 5 reads the last page of a book already read: nothing toggles
    if mark_read_needed(9, 10, user_in_list(&read_by, 5)) {
        read_by = toggle_user(&read_by, 5).0;
    }
    assert!(user_in_list(&read_by, 5));
    assert_eq!(read_by, "3,5");
    // user 7 finishes it: the book becomes read for them
    if mark_read_needed(12, 10, user_in_list(&read_by, 7)) {
        read_by = toggle_user(&read_by, 7).0;
    }
    assert!(user_in_list(&read_by, 7));
    assert!(user_in_list(&read_by, 5));
}
