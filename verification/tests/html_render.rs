use eloran::html::{header, menu, render};
use eloran::model::{DirectoryInfo, FileInfo, Format, Library, Role, User};
use eloran::pages::{
    admin, comic_reader, ebook_reader, file_info, flag_toggle, library_display, login_form, logout,
    prefs, simple_message, LibraryDisplay,
};

const HEAD: &str = "<title>Eloran</title><meta charset=\"UTF-8\"><meta name=\"viewport\" content=\"width=device-width\"><link rel=\"stylesheet\" href=\"/css/eloran.css\"><link rel=\"icon\" type=\"image/png\" href=\"/favicon-96x96.png\" sizes=\"96x96\"><link rel=\"icon\" type=\"image/svgz+xml\" href=\"/favicon.svgz\"><link rel=\"shortcut icon\" href=\"/favicon.ico\"><link rel=\"apple-touch-icon\" sizes=\"180x180\" href=\"/apple-touch-icon.png\"><meta name=\"apple-mobile-web-app-title\" content=\"Eloran\"><link rel=\"manifest\" href=\"/site.webmanifest\"><meta http-equiv=\"Cache-Control\" content=\"no-cache, no-store, must-revalidate\"><meta http-equiv=\"Pragma\" content=\"no-cache\"><meta http-equiv=\"Expires\" content=\"0\">";

fn expected_head(redirect: Option<&str>) -> String {
    match redirect {
        Some(url) => format!(
            "{}<meta http-equiv=\"refresh\" content=\"0; url='{}'\">",
            HEAD, url
        ),
        None => HEAD.to_string(),
    }
}

fn expected_page(body: &str, redirect: Option<&str>) -> String {
    format!(
        "<!DOCTYPE html><html><head>{}</head><body class=\"page-library\">{}</body></html>",
        expected_head(redirect),
        body
    )
}

/// The menu: `None` for no user, `Some(true)` for an administrator.
fn expected_menu(user: Option<bool>) -> String {
    let mut m = String::from("<header><div class=\"logo\"><a href=\"/library\">Eloran</a></div><nav><input type=\"checkbox\" id=\"lasagna-checkbox\"><button class=\"rounded-button lasagna-button\"><span class=\"selected-rounded-button\"></span><label for=\"lasagna-checkbox\"><img src=\"/images/lasagna.svgz\"></label></button><ul class=\"menu\"><li><a href=\"/library\" class=\"nav-button nav-button-1\">Library</a></li><li><a href=\"/reading\" class=\"nav-button nav-button-2\">Reading</a></li><li><a href=\"/bookmarks\" class=\"nav-button nav-button-3\">Bookmarks</a></li><input type=\"checkbox\" id=\"prefs-checkbox\"><button class=\"rounded-button prefs-button\"><span class=\"selected-rounded-button\"></span><label for=\"prefs-checkbox\">A</label></button><ul class=\"prefs-menu\"><li><a href=\"/prefs\">Preferences</a></li>");
    if let Some(is_admin) = user {
        if is_admin {
            m.push_str("<li><a href=\"/admin\">Administration</a></li>");
        }
        m.push_str("<li><a href=\"/logout\">Logout</a></li>");
    }
    m.push_str("</ul></ul></nav></header>");
    m
}

#[test]
fn test_headers() {
    let redirect_url = "tests";
    let rendered_headers = render(header(Some(&redirect_url)).as_str(), Some(&redirect_url));
    assert_eq!(
        rendered_headers,
        expected_page(&expected_head(Some("tests")), Some("tests"))
    );
}

#[test]
fn test_simple_message() {
    assert_eq!(
        simple_message("simple", Some("test")),
        expected_page(
            &format!("{}<div><p>simple</p></div>", expected_menu(None)),
            Some("test")
        )
    );
}

#[test]
fn test_prefs() {
    let user = User::default();
    let body = format!(
        "{}<h2>Preferences</h2><div><p>(todo) change password</p><p>(todo) display all files or just readables</p><p>(todo) grid or list view</p><p>(todo) theme : dark or light</p></div>",
        expected_menu(Some(false))
    );
    assert_eq!(prefs(&user), expected_page(&body, None));
}

#[test]
fn test_admin() {
    let user = User::default();
    let library_list = Vec::with_capacity(0);
    let user_list = Vec::with_capacity(0);
    let body = format!(
        "{}<h2>Admin Panel</h2><h3>Libraries Path</h3><div><ul><li><form accept-charset=\"utf-8\" action=\"/admin/library/new\" method=\"post\"><input type=\"text\" name=\"path\" placeholder=\"absolute path\" required><input type=\"submit\" value=\"New library path\"></form></li></ul></div><h3>Options</h3><div><ul><li>periodic library scan sleep time<form accept-charset=\"utf-8\" action=\"/scan_sleep_time\" method=\"post\"><input type=\"text\" name=\"scan_period\" placeholder=\"in seconds\" required><input type=\"submit\" value=\"Update (todo)\"></form></li><li>periodic covers extraction sleep time<form accept-charset=\"utf-8\" action=\"/extract_sleep_time\" method=\"post\"><input type=\"text\" name=\"extract_periode\" placeholder=\"in seconds\" required><input type=\"submit\" value=\"Update (todo)\"></form></li></ul></div><h3>Users</h3><div><ul><li><form accept-charset=\"utf-8\" action=\"/admin/user/new\" method=\"post\"><input type=\"text\" name=\"name\" placeholder=\"name\" required> <input type=\"password\" name=\"password\" placeholder=\"password\" required> <input type=\"checkbox\" id=\"admin_box\" name=\"is_admin\"><label for=\"admin_box\"> Admin </label><input type=\"submit\" value=\"New user\"></form></li></ul></div><h3>Stats</h3><div><ul><li>Number of publication : \u{1f937}</li><li>Number of users : \u{1f937}</li><li>Publication readed : \u{1f937}</li><li>Publication bookmarked : \u{1f937}</li></ul></div>",
        expected_menu(Some(false))
    );
    assert_eq!(admin(&user, library_list, user_list), expected_page(&body, None));
}

#[test]
fn test_login_form() {
    let body = "<div id=\"login\" style=\"text-align: center;\"><br><br><img src=\"/images/library-icon.svgz\"><br><br><p>Please login</p><br><br><p><form accept-charset=\"utf-8\" action=\"/login\" method=\"post\"><input type=\"text\" name=\"username\" placeholder=\"username\" required><br><br><input type=\"password\" name=\"password\" placeholder=\"password\" required><br><br><input type=\"submit\" value=\"Login\"></form></p></div>";
    assert_eq!(login_form(), expected_page(body, None));
}

#[test]
fn test_logout() {
    let body = "<p>Bye !</p><p><a href=\"/\">return home</a></p>";
    assert_eq!(logout(), expected_page(body, Some("/")));
}

#[test]
fn test_file_info() {
    let user = User::default();
    let file = FileInfo::default();
    let current_page: i32 = 2;
    let bookmark_status = false;
    let read_status = true;
    let up_link = String::from("some/up/link");
    // the size is written by the caller, as the page of a file does for
    // sizes under 1 MiB: kilobytes with three decimals
    let pretty_file_size = format!("{:.3} kB", file.size as f32 / 1024.00);
    let body = format!(
        "{}<main><header><a href=\"/library\"><img src=\"/images/library-icon.svgz\"><h1></h1></a></header><section class=\"filters\"><ul class=\"breadcrumb\"><li><a href=\"/library\" class=\"navigation\">Library</a></li><div class=\"border-arrow\"><div class=\"arrow\"></div></div><li class=\"selected\"><a href=\"/library/\"></a></li></ul><div class=\"search\"><form accept-charset=\"utf-8\" action=\"/search\" method=\"post\"><input type=\"submit\" value=\"\"><input type=\"text\" placeholder=\"Search...\" name=\"query\" value=\"\"></form></div></section><div id=\"infos\" style=\"text-align: center;\"><br><br><br><h2><a href=\"some/up/link\" class=\"navigation\">\u{2196}\u{fe0f}  up</a> | <a href=\"/read//2\" class=\"navigation\">\u{1f4d6} read file</a> | <a href=\"/download/\" class=\"navigation\">\u{2935} download</a> | <a href=\"/toggle/bookmark/\">(bookmark)</a> | <a href=\"/toggle/read_status/\">\u{2705} (mark as unread)</a></h2><br><br><a href=\"/read//2\" class=\"navigation\"><img src=\"/cover/\" alt=\"cover\" class=\"infos\"></a><br><br><p style=\"text-align: center;\"><br><br>size : 0.000 kB<br>pages : 2/0<br>type : unknow<br>added : 1970-01-01</p></div></main>",
        expected_menu(Some(false))
    );
    assert_eq!(
        file_info(
            &user,
            &file,
            current_page,
            bookmark_status,
            read_status,
            up_link,
            &pretty_file_size
        ),
        expected_page(&body, None)
    );
}

#[test]
fn test_flag_toggle() {
    let user = User::default();
    let flag_status = true;
    let file_id = "blabla";
    let flag = "read_status";
    let body = format!(
        "{}<div id=\"toggle\"><h2 style=\"text-align: center;\">Marked as read</h2></div>",
        expected_menu(Some(false))
    );
    assert_eq!(
        flag_toggle(&user, flag_status, file_id, flag),
        expected_page(&body, Some("/infos/blabla"))
    );
}

#[test]
fn test_comic_reader() {
    let user = User::default();
    let file = FileInfo::default();
    let page: i32 = 10;
    let body = format!(
        "{}<h1 id=\"navigation\" align=\"center\"><a href=\"/read//9\" class=\"navigation\">\u{23ea}</a> | <a href=\"/read//0\" class=\"navigation\">\u{23ee} start</a> | <a href=\"/infos/\" class=\"navigation\">return to file info</a> | <a href=\"/read//-1\" class=\"navigation\">end \u{23ed}</a> | <a href=\"/read//-1\" class=\"navigation\">\u{23e9}</a></h1><br><br><div class=\"reader-full-page-image\"><picture><source srcset=\"/comic_page//10/800px\" media=\"(max-width: 800px)\" class=\"comic-content\"><source srcset=\"/comic_page//10/1000px\" media=\"(max-width: 1000px)\" class=\"comic-content\"><source srcset=\"/comic_page//10/orig\" class=\"comic-content\"><img src=\"/comic_page//10/orig\" alt=\"TODO_PAGE_NUM\" class=\"comic-content\" usemap=\"reader-full-page-image\"><a href=\"\" style=\"top: 0%; left: 30%; width: 40%; height: 3%;\"></a><a href=\"/read//9\" style=\"top: 0%; left: 0%; width: 30%; height: 100%;\"></a><a href=\"/read//-1\" style=\"top: 0%; left: 70%; width: 30%; height: 100%;\"></a></picture></div>",
        expected_menu(Some(false))
    );
    assert_eq!(comic_reader(&user, &file, page), expected_page(&body, None));
}

#[test]
fn test_ebook_reader() {
    let user = User::default();
    let file = FileInfo::default();
    let epub_content = "Lorem ipsum dolor sit amet";
    let page: i32 = 10;
    let body = format!(
        "{}<h1 id=\"navigation\" align=\"center\"><a href=\"/read//9\" class=\"navigation\">\u{2b05}\u{fe0f}</a> | <a href=\"/read//0\" class=\"navigation\">start</a> | <a href=\"/infos/\" class=\"navigation\">close</a> | <a href=\"/read//-1\" class=\"navigation\">end</a> | <a href=\"/read//-1\" class=\"navigation\">\u{27a1}\u{fe0f}</a></h1><div id=\"epub-content\"><p>Lorem ipsum dolor sit amet</p></div>",
        expected_menu(Some(false))
    );
    assert_eq!(
        ebook_reader(&user, &file, epub_content, page),
        expected_page(&body, None)
    );
}

fn listing_head(search_value: &str) -> String {
    format!(
        "<main><header><a href=\"/library\"><img src=\"/images/library-icon.svgz\"><h1>Library</h1></a></header><section class=\"filters\"><ul class=\"breadcrumb\"><li><a href=\"/library\" class=\"navigation\">Library</a></li>{{CRUMBS}}</ul><div class=\"search\"><form accept-charset=\"utf-8\" action=\"/search\" method=\"post\"><input type=\"submit\" value=\"\"><input type=\"text\" placeholder=\"Search...\" name=\"query\" value=\"{}\"></form></div></section>",
        search_value
    )
}

#[test]
fn test_library() {
    let list_to_display = LibraryDisplay {
        user: User::default(),
        directories_list: Vec::with_capacity(0),
        files_list: Vec::with_capacity(0),
        library_id: None,
        library_path: String::from("some/path"),
        current_path: None,
        search_query: None,
    };
    let body = format!(
        "{}{}<p>Library some/path is empty, please be patient<form action=\"/admin/library/0\" method=\"post\"><div><input type=\"submit\" name=\"full_rescan\" value=\"Force a full rescan\"></div></form></p><section class=\"gallery\"></section></main>",
        expected_menu(Some(false)),
        listing_head("").replace("{CRUMBS}", "")
    );
    assert_eq!(library_display(list_to_display), expected_page(&body, None));
}

#[test]
fn test_menu() {
    let user = User::default();
    let redirect_url = "tests";
    let menu = menu(Some(&user));
    let rendered_menu = render(menu.as_str(), Some(redirect_url));
    assert_eq!(
        rendered_menu,
        expected_page(&expected_menu(Some(false)), Some("tests"))
    );
}

// ---------------------------------------------------------------------
// More pages
// ---------------------------------------------------------------------

fn admin_user() -> User {
    User {
        id: 1,
        password_hash: String::from("hash"),
        name: String::from("admin"),
        role: Role::Admin,
    }
}

#[test]
fn menu_of_an_administrator_has_the_administration_entry() {
    let rendered = menu(Some(&admin_user()));
    assert_eq!(rendered, expected_menu(Some(true)));
    assert!(rendered.contains("<a href=\"/admin\">Administration</a>"));
    let plain = menu(Some(&User::default()));
    assert!(!plain.contains("/admin"));
    assert_eq!(menu(None), expected_menu(None));
}

#[test]
fn simple_message_escapes_the_message() {
    let page = simple_message("a <b> & \"c\"", None);
    assert_eq!(
        page,
        expected_page(
            &format!(
                "{}<div><p>a &lt;b&gt; &amp; &quot;c&quot;</p></div>",
                expected_menu(None)
            ),
            None
        )
    );
}

#[test]
fn flag_toggle_answers_each_flag() {
    let user = User::default();
    let cases = [
        ("bookmark", true, "Bookmark added"),
        ("bookmark", false, "Bookmark deleted"),
        ("read_status", false, "Marked as unread"),
        ("other", true, ""),
    ];
    for (flag, status, answer) in cases {
        let body = format!(
            "{}<div id=\"toggle\"><h2 style=\"text-align: center;\">{}</h2></div>",
            expected_menu(Some(false)),
            answer
        );
        assert_eq!(
            flag_toggle(&user, status, "f1", flag),
            expected_page(&body, Some("/infos/f1"))
        );
    }
}

#[test]
fn admin_lists_libraries_and_users() {
    let user = admin_user();
    let library = Library {
        id: 3,
        name: String::from("comics"),
        path: String::from("/data/comics"),
        last_successfull_scan_date: 0,
        last_successfull_extract_date: 0,
        file_count: 0,
    };
    let reader = User {
        id: 2,
        password_hash: String::new(),
        name: String::from("reader"),
        role: Role::User,
    };
    let page = admin(&user, vec![library], vec![admin_user(), reader]);
    assert!(page.contains("<li class=\"item\"><form action=\"/admin/library/3\" method=\"post\"><div>comics <input type=\"submit\" name=\"delete\" value=\"Delete\"> <input type=\"submit\" name=\"full_rescan\" value=\"Full Rescan\"> <input type=\"submit\" name=\"covers\" value=\"Disable Covers (todo)\"></div></form></li>"));
    assert!(page.contains("<li class=\"item\"><div><form accept-charset=\"utf-8\" action=\"/admin/user/1\" method=\"post\"><label>admin</label> <input type=\"password\" name=\"password\" placeholder=\"password\"> <input type=\"checkbox\" id=\"admin_box\" name=\"is_admin\" checked><label for=\"admin_box\"> Admin </label><input type=\"submit\" name=\"update\" value=\"Update\"> <input type=\"submit\" name=\"delete\" value=\"Delete\"></form></div></li>"));
    assert!(page.contains("<li class=\"item\"><div><form accept-charset=\"utf-8\" action=\"/admin/user/2\" method=\"post\"><label>reader</label> <input type=\"password\" name=\"password\" placeholder=\"password\"> <input type=\"checkbox\" id=\"admin_box\" name=\"is_admin\"><label for=\"admin_box\"> Admin </label>"));
}

fn file(id: &str, name: &str) -> FileInfo {
    FileInfo {
        id: id.to_string(),
        name: name.to_string(),
        library_name: String::from("lib"),
        parent_path: String::from("/data/lib/Asterix"),
        scan_me: 0,
        added_date: 86400,
        format: Format::Cbz,
        size: 10,
        total_pages: 5,
        read_by: String::new(),
        bookmarked_by: String::new(),
    }
}

#[test]
fn library_display_shows_directories_and_files() {
    let d = DirectoryInfo {
        id: String::from("d1"),
        name: String::from("Tome"),
        parent_path: String::from("/data/lib/Asterix"),
        file_count: Some(4),
    };
    let list = LibraryDisplay {
        user: User::default(),
        directories_list: vec![d],
        files_list: vec![(file("f1", "T01.cbz"), true, false), (file("f2", "T02.cbz"), false, true)],
        library_id: Some(1),
        library_path: String::from("/data/lib/Asterix"),
        current_path: Some(String::from("/lib/Asterix")),
        search_query: Some(String::from("T0")),
    };
    let crumbs = "<li><a href=\"/library\"></a></li><div class=\"border-arrow\"><div class=\"arrow\"></div></div><li><a href=\"/library/lib\">lib</a></li><div class=\"border-arrow\"><div class=\"arrow\"></div></div><li class=\"selected\"><a href=\"/library/lib/Asterix\">Asterix</a></li>";
    let gallery = "<section class=\"gallery\"><article class=\"folder\"><a href=\"/library/lib/Asterix/Tome\"><div class=\"cover\"><span class=\"folder-img\"></span><span class=\"folder-nb-items\">4</span></div><div class=\"title\"><h2>Tome</h2></div></a></article><article class=\"file\"><a href=\"/infos/f1\"><div class=\"cover\"><img src=\"/cover/f1\" alt=\"blurred background cover\" class=\"blurred-background\"><img src=\"/cover/f1\" alt=\"cover\" class=\"cover\"></div></a><div class=\"title\"><h2>T01.cbz</h2></div><a href=\"/toggle/bookmark/f1\"><button class=\"favorite bookmarked\"></button></a></article><article class=\"file\"><a href=\"/infos/f2\"><div class=\"cover\"><img src=\"/cover/f2\" alt=\"blurred background cover\" class=\"blurred-background read\"><img src=\"/cover/f2\" alt=\"cover\" class=\"cover read\"></div></a><div class=\"title\"><h2>T02.cbz</h2></div><a href=\"/toggle/bookmark/f2\"><button class=\"favorite\"></button></a></article></section></main>";
    let body = format!(
        "{}{}{}",
        expected_menu(Some(false)),
        listing_head("T0").replace("{CRUMBS}", crumbs),
        gallery
    );
    assert_eq!(library_display(list), expected_page(&body, None));
}

#[test]
fn library_display_without_library_asks_for_one() {
    let list = LibraryDisplay {
        user: User::default(),
        directories_list: Vec::new(),
        files_list: Vec::new(),
        library_id: None,
        library_path: String::from("/"),
        current_path: Some(String::new()),
        search_query: None,
    };
    let body = format!(
        "{}{}<p><br><br><br><a href=\"/admin\">Please add a library in Administration panel</a></p><section class=\"gallery\"></section></main>",
        expected_menu(Some(false)),
        listing_head("").replace("{CRUMBS}", "")
    );
    assert_eq!(library_display(list), expected_page(&body, None));
}

#[test]
fn file_info_of_a_pdf_links_the_cover_to_the_download() {
    let mut f = file("p1", "book.pdf");
    f.format = Format::Pdf;
    f.library_name = String::from("lib");
    f.parent_path = String::from("/data/lib/Asterix/Old");
    let page = file_info(
        &User::default(),
        &f,
        0,
        true,
        false,
        String::from("/library/lib/Asterix/Old"),
        "0.010 kB",
    );
    assert!(page.contains("<h2><a href=\"/library/lib/Asterix/Old\" class=\"navigation\">\u{2196}\u{fe0f}  up</a> | <a href=\"/download/p1\" class=\"navigation\">\u{2935} download</a> | <a href=\"/toggle/bookmark/p1\">\u{2b50} (remove from bookmarks)</a> | <a href=\"/toggle/read_status/p1\">(mark as read)</a></h2>"));
    assert!(page.contains("<a href=\"/download/p1\" class=\"navigation\"><img src=\"/cover/p1\" alt=\"cover\" class=\"infos\"></a>"));
    assert!(page.contains("<li><a href=\"/library/lib\">lib</a></li><div class=\"border-arrow\"><div class=\"arrow\"></div></div><li><a href=\"/library/lib/Asterix\">Asterix</a></li><div class=\"border-arrow\"><div class=\"arrow\"></div></div><li class=\"selected\"><a href=\"/library/lib/Asterix/Old\">Old</a></li>"));
    assert!(page.contains("type : pdf<br>added : 1970-01-02</p>"));
}

#[test]
fn search_listing_links_directories_from_the_root() {
    let d = DirectoryInfo {
        id: String::from("1"),
        name: String::from("comics"),
        parent_path: String::new(),
        file_count: None,
    };
    let d2 = DirectoryInfo {
        id: String::from("2"),
        name: String::from("Old & <new>"),
        parent_path: String::from("/data/comics"),
        file_count: None,
    };
    let list = LibraryDisplay {
        user: User::default(),
        directories_list: vec![d, d2],
        files_list: Vec::new(),
        library_id: None,
        library_path: String::from("/data"),
        current_path: None,
        search_query: Some(String::from("a \"b\"")),
    };
    let gallery = "<section class=\"gallery\"><article class=\"folder\"><a href=\"/library/comics\"><div class=\"cover\"><span class=\"folder-img\"></span></div><div class=\"title\"><h2>comics</h2></div></a></article><article class=\"folder\"><a href=\"/library/Old &amp; &lt;new&gt;\"><div class=\"cover\"><span class=\"folder-img\"></span></div><div class=\"title\"><h2>Old &amp; &lt;new&gt;</h2></div></a></article></section></main>";
    let body = format!(
        "{}{}{}",
        expected_menu(Some(false)),
        listing_head("a &quot;b&quot;").replace("{CRUMBS}", ""),
        gallery
    );
    assert_eq!(library_display(list), expected_page(&body, None));
}

#[test]
fn file_info_outside_its_library_has_an_empty_breadcrumb() {
    let mut f = file("x1", "a.epub");
    f.format = Format::Epub;
    f.library_name = String::from("lib");
    f.parent_path = String::from("/elsewhere/books");
    let page = file_info(&User::default(), &f, 3, false, false, String::from("up"), "1 MB");
    assert!(page.contains("<div class=\"border-arrow\"><div class=\"arrow\"></div></div><li class=\"selected\"><a href=\"/library/\"></a></li></ul>"));
    assert!(page.contains("<a href=\"/read/x1/3\" class=\"navigation\">\u{1f4d6} read file</a>"));
    assert!(page.contains("size : 1 MB<br>pages : 3/5<br>type : epub<br>"));
}
