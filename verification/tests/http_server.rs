use eloran::auth::{authenticate, hash_password, keep_if_verified, login_target};
use eloran::model::{DirectoryInfo, FileInfo, Format, Library, Role, User};
use eloran::pages::{login_form, simple_message};
use eloran::web::{
    admin_library_action, admin_refusal, asset_headers, authent_error, comic_page_error, cover_choice,
    cover_wanted, css_asset, custom_css_choice, default_cover, directory_listing,
    download_content_type, download_disposition, epub_reader_text, error_handler, font_asset,
    found_listing, infos_up_link, interface_image, libraries_listing, library_as_directory,
    library_covers_message, library_deleted_message, library_missing_message, mark_read_needed, root_page, library_path_from_decoded,
    library_path_from_form, library_request, library_scanned_message, may_administer,
    new_library_message, new_user_record, plan_user_change, query_parent_path, reader_kind,
    reading_position, root_asset, search_terms, unauthorized_response, unsupported_reader,
    user_missing_message, AdminLibraryAction, AdminRequest, AssetKind, CoverChoice, LibraryRequest, ReaderKind,
    RootPage, UserChange, UserForm,
};

fn user(id: i64, name: &str, role: Role) -> User {
    User { id, password_hash: format!("hash-{}", id), name: name.to_string(), role }
}

#[test]
fn fixed_answers() {
    assert_eq!(unauthorized_response(), "You are not allowed to see this page");
    assert_eq!(authent_error(), "Autentication error");
    assert_eq!(error_handler(), simple_message("server error, please see logs", None));
    assert_eq!(unsupported_reader(), simple_message("no yet supported", None));
    assert_eq!(
        comic_page_error("f1"),
        simple_message("unable to get image", Some("/reader/f1"))
    );
    assert!(may_administer(&user(1, "admin", Role::Admin)));
    assert!(!may_administer(&user(2, "bob", Role::User)));
}

#[test]
fn library_requests() {
    assert!(matches!(library_request(None), LibraryRequest::Libraries));
    match library_request(Some("comics/Asterix/Old")) {
        LibraryRequest::Directory { sub_path, library_name, path_end } => {
            assert_eq!(sub_path, "/comics/Asterix/Old");
            assert_eq!(library_name, "comics");
            assert_eq!(path_end, "/Asterix/Old");
        }
        _ => panic!("a path names a directory"),
    }
    match library_request(Some("comics")) {
        LibraryRequest::Directory { sub_path, library_name, path_end } => {
            assert_eq!(sub_path, "/comics");
            assert_eq!(library_name, "comics");
            assert_eq!(path_end, "");
        }
        _ => panic!("a path names a directory"),
    }
}

fn library(id: i64, name: &str, path: &str, count: i32) -> Library {
    Library {
        id,
        name: name.to_string(),
        path: path.to_string(),
        last_successfull_scan_date: 0,
        last_successfull_extract_date: 0,
        file_count: count,
    }
}

fn file(id: &str, name: &str) -> FileInfo {
    let mut f = FileInfo::new();
    f.id = id.to_string();
    f.name = name.to_string();
    f
}

fn dir(name: &str) -> DirectoryInfo {
    DirectoryInfo {
        id: name.to_string(),
        name: name.to_string(),
        parent_path: "/p".to_string(),
        file_count: None,
    }
}

#[test]
fn listing_of_a_directory() {
    let lib = library(4, "comics", "/data/comics", 0);
    assert_eq!(query_parent_path(Some(&lib), "/Asterix"), "/data/comics/Asterix");
    assert_eq!(
        query_parent_path(None, "/Asterix"),
        "an empty library path should not happen, you should force a full rescan"
    );
    let d = directory_listing(
        user(2, "bob", Role::User),
        Some(lib),
        "/comics/Asterix".to_string(),
        "/data/comics/Asterix".to_string(),
        vec![(file("b", "T02"), false, false), (file("a", "T01"), true, true), (file("c", "T01"), false, true)],
        vec![dir("Zorro"), dir("Alix")],
    );
    let names: Vec<(&str, bool, bool)> =
        d.files_list.iter().map(|e| (e.0.id.as_str(), e.1, e.2)).collect();
    assert_eq!(names, vec![("c", false, true), ("a", true, true), ("b", false, false)]);
    let dirs: Vec<&str> = d.directories_list.iter().map(|d| d.name.as_str()).collect();
    assert_eq!(dirs, vec!["Alix", "Zorro"]);
    assert_eq!(d.library_id, Some(4));
    assert_eq!(d.library_path, "/data/comics/Asterix");
    assert_eq!(d.current_path, Some("/comics/Asterix".to_string()));
    assert_eq!(d.search_query, None);
    let unknown = directory_listing(
        user(2, "bob", Role::User),
        None,
        "/x".to_string(),
        "p".to_string(),
        Vec::new(),
        Vec::new(),
    );
    assert_eq!(unknown.library_id, Some(0));
}

#[test]
fn listing_of_the_libraries() {
    let lib = library(12, "/comics", "/data/comics", 7);
    let d = library_as_directory(&lib);
    assert_eq!(d.id, "12");
    assert_eq!(d.name, "comics");
    assert_eq!(d.parent_path, "");
    assert_eq!(d.file_count, Some(7));
    let listing = libraries_listing(
        user(1, "admin", Role::Admin),
        vec![library(1, "zines", "/z", 1), library(2, "/books", "/b", 2)],
    );
    let names: Vec<&str> = listing.directories_list.iter().map(|d| d.name.as_str()).collect();
    assert_eq!(names, vec!["books", "zines"]);
    assert!(listing.files_list.is_empty());
    assert_eq!(listing.library_id, None);
    assert_eq!(listing.library_path, "/");
    assert_eq!(listing.current_path, Some(String::new()));
}

#[test]
fn listing_of_found_files() {
    let lib = library(1, "comics", "/data/comics", 0);
    let d = found_listing(
        user(2, "bob", Role::User),
        vec![(file("b", "T02"), false, false), (file("a", "T01"), false, true), (file("c", "T01"), true, false)],
        vec![dir("Zorro"), dir("Alix")],
        Some(&lib),
        Some("T0".to_string()),
    );
    let ids: Vec<&str> = d.files_list.iter().map(|e| e.0.id.as_str()).collect();
    // by name alone: files of the same name keep their order
    assert_eq!(ids, vec!["a", "c", "b"]);
    let dirs: Vec<&str> = d.directories_list.iter().map(|d| d.name.as_str()).collect();
    assert_eq!(dirs, vec!["Alix", "Zorro"]);
    assert_eq!(d.library_path, "/data/comics");
    assert_eq!(d.search_query, Some("T0".to_string()));
    assert_eq!(d.current_path, None);
    let reading = found_listing(user(2, "bob", Role::User), Vec::new(), Vec::new(), None, None);
    assert_eq!(reading.library_path, "");
    assert_eq!(reading.search_query, None);
}

#[test]
fn search_words_read_plus_as_space() {
    assert_eq!(search_terms("query=asterix+le+gaulois"), "asterix le gaulois");
    assert_eq!(search_terms("query="), "");
    assert!(!search_terms("query=a++b+").contains('+'));
}

#[test]
fn up_link_of_a_file() {
    assert_eq!(
        infos_up_link("/data/comics/Asterix", "/data/comics", "comics"),
        "/library/comics/Asterix"
    );
    // an unknown library has an empty path: every gap gets the link
    assert_eq!(infos_up_link("ab", "", "x"), "/library/xa/library/xb/library/x");
}

#[test]
fn reading_stays_in_the_book() {
    assert_eq!(reading_position(3, 10), (3, false));
    assert_eq!(reading_position(9, 10), (9, true));
    assert_eq!(reading_position(42, 10), (9, true));
    assert_eq!(reading_position(0, 0), (-1, true));
    assert!(reader_kind(Format::Epub) == ReaderKind::Ebook);
    assert!(reader_kind(Format::Pdf) == ReaderKind::Pdf);
    assert!(reader_kind(Format::Cbz) == ReaderKind::Comic);
    assert!(reader_kind(Format::Cbr) == ReaderKind::Comic);
    assert!(reader_kind(Format::Txt) == ReaderKind::Unsupported);
}

#[test]
fn epub_text_lists_every_chapter() {
    let mut f = FileInfo::new();
    f.parent_path = "/books".to_string();
    f.name = "b.epub".to_string();
    let text = epub_reader_text(
        1,
        2,
        &f,
        Some("Dune".to_string()),
        None,
        &vec![(0, "<p>one</p>".to_string()), (1, "<p>two</p>".to_string())],
    );
    let expected = "page: 1/2<br />\n         fs path: /books-b.epub<br />\n         <h1>title: Dune</h1>\n        <h2>resource: 0/2</h2>\n             toto: toto<br />\n             content: <p>one</p><br />\n             <br /><br />\n            <h2>resource: 1/2</h2>\n             toto: toto<br />\n             content: <p>two</p><br />\n             <br /><br />\n            ";
    assert_eq!(text, expected);
    let empty = epub_reader_text(0, 0, &f, None, Some("c1".to_string()), &Vec::new());
    assert_eq!(
        empty,
        "page: 0/0<br />\n         fs path: /books-b.epub<br />\n         <h1>title: Book title not found</h1>\n        "
    );
}

#[test]
fn covers_and_downloads() {
    assert!(cover_wanted(Format::Cbz));
    assert!(!cover_wanted(Format::Txt));
    assert!(matches!(cover_choice(Format::Pdf, Some(vec![1, 2])), CoverChoice::Stored(c) if c == vec![1, 2]));
    assert!(matches!(cover_choice(Format::Pdf, Some(Vec::new())), CoverChoice::Default));
    assert!(matches!(cover_choice(Format::Pdf, None), CoverChoice::Default));
    assert!(matches!(cover_choice(Format::Other, Some(vec![1])), CoverChoice::Default));
    assert_eq!(download_content_type(Format::Epub), "application/epub+zip");
    assert_eq!(download_content_type(Format::Pdf), "application/pdf");
    assert_eq!(download_content_type(Format::Cbz), "application/vnd.comicbook+zip");
    assert_eq!(download_content_type(Format::Cbr), "application/vnd.comicbook-rar");
    assert_eq!(download_content_type(Format::Txt), "");
    assert_eq!(download_disposition("T01.cbz"), "attachment; filename=\"T01.cbz\"");
}

#[test]
fn new_library_form() {
    assert_eq!(library_path_from_form("path=%2Fdata%2Fmy+comics%2F"), "/data/my comics");
    assert_eq!(library_path_from_form("path=/data/books//"), "/data/books");
    assert_eq!(library_path_from_form("/plain"), "/plain");
    // bytes that are not UTF-8 give an empty path
    assert_eq!(library_path_from_form("path=%FF"), "");
    assert_eq!(library_path_from_decoded(None), "");
    assert_eq!(library_path_from_decoded(Some("a+b/".to_string())), "a b");
    assert_eq!(
        new_library_message("/data"),
        simple_message("new library added, path :  /data<br /><a href=\"/admin\">return</a>", Some("/admin"))
    );
}

#[test]
fn library_form_actions() {
    assert!(admin_library_action("delete=Delete") == AdminLibraryAction::Delete);
    assert!(admin_library_action("full_rescan=Full+Rescan") == AdminLibraryAction::FullRescan);
    assert!(admin_library_action("covers=x") == AdminLibraryAction::Covers);
    assert!(admin_library_action("") == AdminLibraryAction::Unknown);
    assert!(admin_library_action("delete") == AdminLibraryAction::Delete);
    assert_eq!(
        library_deleted_message("comics"),
        simple_message("delete lib id = comics", Some("/admin"))
    );
    assert_eq!(
        library_scanned_message("comics"),
        simple_message(
            "library comics scanned (<a href=\"/admin\">return to admin panel</a>)",
            Some("/admin")
        )
    );
    assert_eq!(
        library_covers_message("3"),
        "TODO : lib id = 3, covers flag toggle (<a href=\"/admin\">return to admin panel</a>)"
    );
}

#[test]
fn new_users() {
    let u = new_user_record("eve".to_string(), "h".to_string(), Some("on"));
    assert_eq!(u.id, 0);
    assert_eq!(u.name, "eve");
    assert_eq!(u.password_hash, "h");
    assert_eq!(u.role, Role::Admin);
    assert_eq!(new_user_record("a".to_string(), "h".to_string(), Some("off")).role, Role::User);
    assert_eq!(new_user_record("a".to_string(), "h".to_string(), None).role, Role::User);
}

fn form(password: &str, is_admin: Option<&str>, update: bool, delete: bool) -> UserForm {
    UserForm {
        password: password.to_string(),
        is_admin: is_admin.map(|s| s.to_string()),
        update: if update { Some("Update".to_string()) } else { None },
        delete: if delete { Some("Delete".to_string()) } else { None },
    }
}

#[test]
fn user_changes() {
    let bob = user(2, "bob", Role::Admin);
    let (change, page) = plan_user_change(bob.clone(), &form("", None, false, true), "new".to_string());
    assert!(matches!(change, UserChange::Delete(u) if u.id == 2));
    assert_eq!(page, simple_message("user bob deleted", Some("/admin")));

    let (change, page) = plan_user_change(bob.clone(), &form("pw", None, true, false), "new".to_string());
    match change {
        UserChange::Update(u) => {
            assert_eq!(u.password_hash, "new");
            assert_eq!(u.role, Role::User);
            assert_eq!(u.name, "bob");
        }
        _ => panic!("an update"),
    }
    assert_eq!(page, simple_message("user bob updated", Some("/admin")));

    let (change, _) = plan_user_change(bob.clone(), &form("", Some("yes"), true, false), "new".to_string());
    match change {
        UserChange::Update(u) => {
            assert_eq!(u.password_hash, "hash-2");
            assert_eq!(u.role, Role::Admin);
        }
        _ => panic!("an update"),
    }

    let first = user(1, "admin", Role::Admin);
    let (change, page) = plan_user_change(first.clone(), &form("", None, false, true), "new".to_string());
    assert!(matches!(change, UserChange::Refuse));
    assert_eq!(page, simple_message("you can't delete admin account", Some("/admin")));
    let (change, _) = plan_user_change(first, &form("", None, true, true), "new".to_string());
    assert!(matches!(change, UserChange::Update(u) if u.role == Role::Admin));
    assert_eq!(
        user_missing_message("9"),
        simple_message("user id 9 does not exists", Some("/admin"))
    );
}

#[test]
fn static_files() {
    let a = root_asset("favicon.ico").unwrap();
    assert_eq!(a.file, "images/favicon.ico");
    assert!(a.kind == AssetKind::Icon);
    assert_eq!(root_asset("site.webmanifest").unwrap().file, "site.webmanifest");
    assert_eq!(root_asset("apple-touch-icon.png").unwrap().file, "images/apple-touch-icon.png");
    assert!(root_asset("web-app-manifest-192x192.png").unwrap().kind == AssetKind::Png);
    assert!(root_asset("robots.txt").is_none());
    assert_eq!(default_cover().file, "images/green_book.svgz");
    assert_eq!(interface_image("lasagna.svgz").file, "images/lasagna.svgz");
    assert_eq!(font_asset("Exo-VariableFont_wght.ttf").unwrap().file, "fonts/Exo-VariableFont_wght.ttf");
    assert!(font_asset("other.ttf").is_none());
    assert!(css_asset("eloran.css").is_none());
    assert_eq!(css_asset("not_found").unwrap().file, "css/not_found");
    let h = asset_headers(&AssetKind::Svgz);
    assert_eq!(
        h,
        vec![
            ("content-type".to_string(), "image/svg+xml".to_string()),
            ("content-encoding".to_string(), "gzip".to_string()),
            ("vary".to_string(), "Accept-Encoding".to_string()),
            ("cache-control".to_string(), "public, max-age=604800".to_string()),
        ]
    );
    assert_eq!(asset_headers(&AssetKind::Css), vec![("content-type".to_string(), "text/css".to_string())]);
    let names = vec!["a.css".to_string(), "eloran.css".to_string(), "old-eloran.css".to_string(), "b".to_string()];
    assert_eq!(custom_css_choice(&names), Some(2));
    assert_eq!(custom_css_choice(&vec!["x.css".to_string()]), None);
}

#[test]
fn logins() {
    assert_eq!(login_target(Some("/reading")), "/reading");
    assert_eq!(login_target(None), "/library");
    let hash = hash_password("secret").unwrap();
    assert_ne!(hash, "secret");
    let mut u = user(3, "carol", Role::User);
    u.password_hash = hash;
    let found = authenticate(Some(u.clone()), "secret");
    assert_eq!(found.map(|u| u.id), Some(3));
    assert!(authenticate(Some(u.clone()), "wrong").is_none());
    assert!(authenticate(None, "secret").is_none());
    assert!(keep_if_verified(Some(u.clone()), false).is_none());
    assert_eq!(keep_if_verified(Some(u), true).map(|u| u.name), Some("carol".to_string()));
}

#[test]
fn administration_is_refused_to_users() {
    let admin = user(1, "admin", Role::Admin);
    let bob = user(2, "bob", Role::User);
    assert!(admin_refusal(&admin, AdminRequest::Panel).is_none());
    assert!(admin_refusal(&admin, AdminRequest::NewUser).is_none());
    assert_eq!(
        admin_refusal(&bob, AdminRequest::Panel),
        Some("You are not allowed to see this page".to_string())
    );
    assert_eq!(
        admin_refusal(&bob, AdminRequest::LibraryForm),
        Some("You are not allowed to see this page".to_string())
    );
    assert_eq!(
        admin_refusal(&bob, AdminRequest::NewLibrary),
        Some("You are not allowed to see this page".to_string())
    );
    assert_eq!(
        admin_refusal(&bob, AdminRequest::NewUser),
        Some(simple_message("your are not allowed to create users", Some("/")))
    );
    assert_eq!(
        admin_refusal(&bob, AdminRequest::ChangeUser),
        Some(simple_message("your are not allowed to modify users", Some("/")))
    );
}

#[test]
fn finished_books_are_marked_read_once() {
    // the last page of a book not read yet marks it read
    assert!(mark_read_needed(9, 10, false));
    assert!(mark_read_needed(42, 10, false));
    // a book already read is not toggled back
    assert!(!mark_read_needed(9, 10, true));
    // a page before the last one marks nothing
    assert!(!mark_read_needed(3, 10, false));
}

#[test]
fn root_answers() {
    assert!(matches!(root_page(true), RootPage::Library));
    match root_page(false) {
        RootPage::Login(page) => assert_eq!(page, login_form()),
        RootPage::Library => panic!("the login page is expected"),
    }
}

#[test]
fn missing_library_answer() {
    assert_eq!(
        library_missing_message(),
        simple_message("unable to find library in database", Some("/admin"))
    );
}

#[test]
fn any_short_password_hashes() {
    for password in ["", "secret", "a much longer pass phrase with spaces"] {
        let hash = hash_password(password);
        assert!(hash.is_ok());
        let mut u = user(4, "dave", Role::User);
        u.password_hash = hash.unwrap();
        assert_eq!(authenticate(Some(u), password).map(|u| u.id), Some(4));
    }
}
