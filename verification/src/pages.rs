//! The pages of the server, each a whole HTML document.

use vstd::prelude::*;
use crate::html::{esc, escape, menu, menu_html, page_html, push_escaped, render};
use crate::model::{Library, Role, User};
use crate::text::{decimal, i32_to_string, i64_to_string};

verus! {

// ---------------------------------------------------------------------
// Short pages
// ---------------------------------------------------------------------

/// A message alone on a page, with a refresh to `origin` when given.
pub open spec fn simple_message_html(message: Seq<char>, origin: Option<Seq<char>>) -> Seq<char> {
    page_html(menu_html(None) + "<div><p>"@ + esc(message) + "</p></div>"@, origin)
}

/// A page that shows `message` and, when `origin` is given, sends the
/// browser back there.
pub fn simple_message(message: &str, origin: Option<&str>) -> (page: String)
    ensures
        page@ == simple_message_html(message@, crate::html::opt_view(origin)),
{
    let mut body = menu(None);
    body.append("<div><p>");
    push_escaped(&mut body, message);
    body.append("</p></div>");
    render(body.as_str(), origin)
}

/// The body of the preferences page after the menu.
pub const PREFS_BODY: &'static str = "<h2>Preferences</h2><div><p>(todo) change password</p><p>(todo) display all files or just readables</p><p>(todo) grid or list view</p><p>(todo) theme : dark or light</p></div>";

/// The preferences page of `user`.
pub open spec fn prefs_html(user: User) -> Seq<char> {
    page_html(menu_html(Some(user)) + PREFS_BODY@, None)
}

/// The preferences page.
pub fn prefs(user: &User) -> (page: String)
    ensures
        page@ == prefs_html(*user),
{
    let mut body = menu(Some(user));
    body.append(PREFS_BODY);
    render(body.as_str(), None)
}

/// The body of the login page.
pub const LOGIN_BODY: &'static str = "<div id=\"login\" style=\"text-align: center;\"><br><br><img src=\"/images/library-icon.svgz\"><br><br><p>Please login</p><br><br><p><form accept-charset=\"utf-8\" action=\"/login\" method=\"post\"><input type=\"text\" name=\"username\" placeholder=\"username\" required><br><br><input type=\"password\" name=\"password\" placeholder=\"password\" required><br><br><input type=\"submit\" value=\"Login\"></form></p></div>";

/// The login page.
pub open spec fn login_form_html() -> Seq<char> {
    page_html(LOGIN_BODY@, None)
}

/// The login page: a user name and password form posted to `/login`.
pub fn login_form() -> (page: String)
    ensures
        page@ == login_form_html(),
{
    render(LOGIN_BODY, None)
}

/// The body of the logout page.
pub const LOGOUT_BODY: &'static str = "<p>Bye !</p><p><a href=\"/\">return home</a></p>";

/// The logout page.
pub open spec fn logout_html() -> Seq<char> {
    page_html(LOGOUT_BODY@, Some("/"@))
}

/// The logout page, which sends the browser back to `/`.
pub fn logout() -> (page: String)
    ensures
        page@ == logout_html(),
{
    render(LOGOUT_BODY, Some("/"))
}

/// The sentence that answers a flag toggle.
pub open spec fn flag_response(flag: Seq<char>, flag_status: bool) -> Seq<char> {
    if flag == "bookmark"@ {
        if flag_status {
            "Bookmark added"@
        } else {
            "Bookmark deleted"@
        }
    } else if flag == "read_status"@ {
        if flag_status {
            "Marked as read"@
        } else {
            "Marked as unread"@
        }
    } else {
        ""@
    }
}

/// The page that confirms a flag toggle.
pub open spec fn flag_toggle_html(
    user: User,
    flag_status: bool,
    file_id: Seq<char>,
    flag: Seq<char>,
) -> Seq<char> {
    page_html(
        menu_html(Some(user)) + "<div id=\"toggle\"><h2 style=\"text-align: center;\">"@ + esc(
            flag_response(flag, flag_status),
        ) + "</h2></div>"@,
        Some("/infos/"@ + file_id),
    )
}

/// The page that confirms that a bookmark or a read status was set or
/// removed, and sends the browser back to the file's page.
pub fn flag_toggle(user: &User, flag_status: bool, file_id: &str, flag: &str) -> (page: String)
    ensures
        page@ == flag_toggle_html(*user, flag_status, file_id@, flag@),
{
    let response: &str = if crate::text::str_eq(flag, "bookmark") {
        if flag_status {
            "Bookmark added"
        } else {
            "Bookmark deleted"
        }
    } else if crate::text::str_eq(flag, "read_status") {
        if flag_status {
            "Marked as read"
        } else {
            "Marked as unread"
        }
    } else {
        ""
    };
    let mut body = menu(Some(user));
    body.append("<div id=\"toggle\"><h2 style=\"text-align: center;\">");
    push_escaped(&mut body, response);
    body.append("</h2></div>");
    let mut redirect = String::new();
    redirect.append("/infos/");
    redirect.append(file_id);
    render(body.as_str(), Some(redirect.as_str()))
}

// ---------------------------------------------------------------------
// Readers
// ---------------------------------------------------------------------

/// The page before `page`, never below 0.
pub open spec fn previous_page(page: int) -> int {
    if page == 0 {
        0
    } else {
        page - 1
    }
}

/// The page after `page`, never past the last page of a book of
/// `total_pages` pages.
pub open spec fn next_page(page: int, total_pages: int) -> int {
    if page < total_pages - 1 {
        page + 1
    } else {
        total_pages - 1
    }
}

/// The previous page.
pub fn previous_page_of(page: i32) -> (p: i32)
    requires
        page > i32::MIN,
    ensures
        p == previous_page(page as int),
{
    if page == 0 {
        0
    } else {
        page - 1
    }
}

/// The next page.
pub fn next_page_of(page: i32, total_pages: i32) -> (p: i32)
    requires
        total_pages > i32::MIN,
    ensures
        p == next_page(page as int, total_pages as int),
{
    if page < total_pages - 1 {
        page + 1
    } else {
        total_pages - 1
    }
}

/// The link that opens page `page` of file `id` in the reader.
pub open spec fn read_link(id: Seq<char>, page: int) -> Seq<char> {
    "/read/"@ + id + "/"@ + decimal(page)
}

/// Writes the reader link.
pub fn read_link_of(id: &str, page: i32) -> (s: String)
    ensures
        s@ == read_link(id@, page as int),
{
    let mut s = String::new();
    s.append("/read/");
    s.append(id);
    s.append("/");
    let n = i32_to_string(page);
    s.append(n.as_str());
    s
}

/// The link to a comic page image of file `id` at a given size.
pub open spec fn comic_page_link(id: Seq<char>, page: int, size: Seq<char>) -> Seq<char> {
    "/comic_page/"@ + id + "/"@ + decimal(page) + "/"@ + size
}

/// Writes the comic page image link.
pub fn comic_page_link_of(id: &str, page: i32, size: &str) -> (s: String)
    ensures
        s@ == comic_page_link(id@, page as int, size@),
{
    let mut s = String::new();
    s.append("/comic_page/");
    s.append(id);
    s.append("/");
    let n = i32_to_string(page);
    s.append(n.as_str());
    s.append("/");
    s.append(size);
    s
}

/// The navigation bar of the comic reader.
pub open spec fn comic_nav_html(id: Seq<char>, page: int, total_pages: int) -> Seq<char> {
    "<h1 id=\"navigation\" align=\"center\"><a href=\""@ + esc(
        read_link(id, previous_page(page)),
    ) + "\" class=\"navigation\">\u{23ea}</a> | <a href=\""@ + esc(read_link(id, 0))
        + "\" class=\"navigation\">\u{23ee} start</a> | <a href=\""@ + esc("/infos/"@ + id)
        + "\" class=\"navigation\">return to file info</a> | <a href=\""@ + esc(
        read_link(id, total_pages - 1),
    ) + "\" class=\"navigation\">end \u{23ed}</a> | <a href=\""@ + esc(
        read_link(id, next_page(page, total_pages)),
    ) + "\" class=\"navigation\">\u{23e9}</a></h1>"@
}

/// The comic page picture, with its clickable zones.
pub open spec fn comic_picture_html(id: Seq<char>, page: int, total_pages: int) -> Seq<char> {
    "<br><br><div class=\"reader-full-page-image\"><picture><source srcset=\""@ + esc(
        comic_page_link(id, page, "800px"@),
    ) + "\" media=\"(max-width: 800px)\" class=\"comic-content\"><source srcset=\""@ + esc(
        comic_page_link(id, page, "1000px"@),
    ) + "\" media=\"(max-width: 1000px)\" class=\"comic-content\"><source srcset=\""@ + esc(
        comic_page_link(id, page, "orig"@),
    ) + "\" class=\"comic-content\"><img src=\""@ + esc(comic_page_link(id, page, "orig"@))
        + "\" alt=\"TODO_PAGE_NUM\" class=\"comic-content\" usemap=\"reader-full-page-image\"><a href=\"\" style=\"top: 0%; left: 30%; width: 40%; height: 3%;\"></a><a href=\""@
        + esc(read_link(id, previous_page(page)))
        + "\" style=\"top: 0%; left: 0%; width: 30%; height: 100%;\"></a><a href=\""@ + esc(
        read_link(id, next_page(page, total_pages)),
    ) + "\" style=\"top: 0%; left: 70%; width: 30%; height: 100%;\"></a></picture></div>"@
}

/// The comic reader page.
pub open spec fn comic_reader_html(
    user: User,
    id: Seq<char>,
    page: int,
    total_pages: int,
) -> Seq<char> {
    page_html(
        menu_html(Some(user)) + comic_nav_html(id, page, total_pages) + comic_picture_html(
            id,
            page,
            total_pages,
        ),
        None,
    )
}

fn comic_nav(id: &str, page: i32, total_pages: i32) -> (s: String)
    requires
        page > i32::MIN,
        total_pages > i32::MIN,
    ensures
        s@ == comic_nav_html(id@, page as int, total_pages as int),
{
    let previous = previous_page_of(page);
    let next = next_page_of(page, total_pages);
    let mut s = String::new();
    s.append("<h1 id=\"navigation\" align=\"center\"><a href=\"");
    push_escaped(&mut s, read_link_of(id, previous).as_str());
    s.append("\" class=\"navigation\">\u{23ea}</a> | <a href=\"");
    push_escaped(&mut s, read_link_of(id, 0).as_str());
    s.append("\" class=\"navigation\">\u{23ee} start</a> | <a href=\"");
    let mut infos = String::new();
    infos.append("/infos/");
    infos.append(id);
    push_escaped(&mut s, infos.as_str());
    s.append("\" class=\"navigation\">return to file info</a> | <a href=\"");
    push_escaped(&mut s, read_link_of(id, total_pages - 1).as_str());
    s.append("\" class=\"navigation\">end \u{23ed}</a> | <a href=\"");
    push_escaped(&mut s, read_link_of(id, next).as_str());
    s.append("\" class=\"navigation\">\u{23e9}</a></h1>");
    s
}

fn comic_picture(id: &str, page: i32, total_pages: i32) -> (s: String)
    requires
        page > i32::MIN,
        total_pages > i32::MIN,
    ensures
        s@ == comic_picture_html(id@, page as int, total_pages as int),
{
    let previous = previous_page_of(page);
    let next = next_page_of(page, total_pages);
    let mut s = String::new();
    s.append(
        "<br><br><div class=\"reader-full-page-image\"><picture><source srcset=\"",
    );
    push_escaped(&mut s, comic_page_link_of(id, page, "800px").as_str());
    s.append("\" media=\"(max-width: 800px)\" class=\"comic-content\"><source srcset=\"");
    push_escaped(&mut s, comic_page_link_of(id, page, "1000px").as_str());
    s.append("\" media=\"(max-width: 1000px)\" class=\"comic-content\"><source srcset=\"");
    push_escaped(&mut s, comic_page_link_of(id, page, "orig").as_str());
    s.append("\" class=\"comic-content\"><img src=\"");
    push_escaped(&mut s, comic_page_link_of(id, page, "orig").as_str());
    s.append(
        "\" alt=\"TODO_PAGE_NUM\" class=\"comic-content\" usemap=\"reader-full-page-image\"><a href=\"\" style=\"top: 0%; left: 30%; width: 40%; height: 3%;\"></a><a href=\"",
    );
    push_escaped(&mut s, read_link_of(id, previous).as_str());
    s.append("\" style=\"top: 0%; left: 0%; width: 30%; height: 100%;\"></a><a href=\"");
    push_escaped(&mut s, read_link_of(id, next).as_str());
    s.append("\" style=\"top: 0%; left: 70%; width: 30%; height: 100%;\"></a></picture></div>");
    s
}

/// The comic reader: navigation links (previous, first, file info, last,
/// next) and the current page's picture at three sizes.
pub fn comic_reader(user: &User, file: &crate::model::FileInfo, page: i32) -> (html: String)
    requires
        page > i32::MIN,
        file.total_pages > i32::MIN,
    ensures
        html@ == comic_reader_html(*user, file.id@, page as int, file.total_pages as int),
{
    let mut body = menu(Some(user));
    let nav = comic_nav(file.id.as_str(), page, file.total_pages);
    body.append(nav.as_str());
    let picture = comic_picture(file.id.as_str(), page, file.total_pages);
    body.append(picture.as_str());
    render(body.as_str(), None)
}

/// The navigation bar of the ebook reader.
pub open spec fn ebook_nav_html(id: Seq<char>, page: int, total_pages: int) -> Seq<char> {
    "<h1 id=\"navigation\" align=\"center\"><a href=\""@ + esc(
        read_link(id, previous_page(page)),
    ) + "\" class=\"navigation\">\u{2b05}\u{fe0f}</a> | <a href=\""@ + esc(read_link(id, 0))
        + "\" class=\"navigation\">start</a> | <a href=\""@ + esc("/infos/"@ + id)
        + "\" class=\"navigation\">close</a> | <a href=\""@ + esc(read_link(id, total_pages - 1))
        + "\" class=\"navigation\">end</a> | <a href=\""@ + esc(
        read_link(id, next_page(page, total_pages)),
    ) + "\" class=\"navigation\">\u{27a1}\u{fe0f}</a></h1>"@
}

/// The ebook reader page; `content` is inserted as HTML.
pub open spec fn ebook_reader_html(
    user: User,
    id: Seq<char>,
    content: Seq<char>,
    page: int,
    total_pages: int,
) -> Seq<char> {
    page_html(
        menu_html(Some(user)) + ebook_nav_html(id, page, total_pages)
            + "<div id=\"epub-content\"><p>"@ + content + "</p></div>"@,
        None,
    )
}

fn ebook_nav(id: &str, page: i32, total_pages: i32) -> (s: String)
    requires
        page > i32::MIN,
        total_pages > i32::MIN,
    ensures
        s@ == ebook_nav_html(id@, page as int, total_pages as int),
{
    let previous = previous_page_of(page);
    let next = next_page_of(page, total_pages);
    let mut s = String::new();
    s.append("<h1 id=\"navigation\" align=\"center\"><a href=\"");
    push_escaped(&mut s, read_link_of(id, previous).as_str());
    s.append("\" class=\"navigation\">\u{2b05}\u{fe0f}</a> | <a href=\"");
    push_escaped(&mut s, read_link_of(id, 0).as_str());
    s.append("\" class=\"navigation\">start</a> | <a href=\"");
    let mut infos = String::new();
    infos.append("/infos/");
    infos.append(id);
    push_escaped(&mut s, infos.as_str());
    s.append("\" class=\"navigation\">close</a> | <a href=\"");
    push_escaped(&mut s, read_link_of(id, total_pages - 1).as_str());
    s.append("\" class=\"navigation\">end</a> | <a href=\"");
    push_escaped(&mut s, read_link_of(id, next).as_str());
    s.append("\" class=\"navigation\">\u{27a1}\u{fe0f}</a></h1>");
    s
}

/// The ebook reader: navigation links and the book's content as HTML.
pub fn ebook_reader(
    user: &User,
    file: &crate::model::FileInfo,
    epub_content: &str,
    page: i32,
) -> (html: String)
    requires
        page > i32::MIN,
        file.total_pages > i32::MIN,
    ensures
        html@ == ebook_reader_html(
            *user,
            file.id@,
            epub_content@,
            page as int,
            file.total_pages as int,
        ),
{
    let mut body = menu(Some(user));
    let nav = ebook_nav(file.id.as_str(), page, file.total_pages);
    body.append(nav.as_str());
    body.append("<div id=\"epub-content\"><p>");
    body.append(epub_content);
    body.append("</p></div>");
    render(body.as_str(), None)
}

// ---------------------------------------------------------------------
// Administration
// ---------------------------------------------------------------------

/// The head of the administration page, up to the library list.
pub const ADMIN_START: &'static str = "<h2>Admin Panel</h2><h3>Libraries Path</h3><div><ul>";

/// The buttons of a library entry.
pub const ADMIN_LIBRARY_BUTTONS: &'static str = " <input type=\"submit\" name=\"delete\" value=\"Delete\"> <input type=\"submit\" name=\"full_rescan\" value=\"Full Rescan\"> <input type=\"submit\" name=\"covers\" value=\"Disable Covers (todo)\"></div></form></li>";

/// From the new-library form to the user list.
pub const ADMIN_MIDDLE: &'static str = "<li><form accept-charset=\"utf-8\" action=\"/admin/library/new\" method=\"post\"><input type=\"text\" name=\"path\" placeholder=\"absolute path\" required><input type=\"submit\" value=\"New library path\"></form></li></ul></div><h3>Options</h3><div><ul><li>periodic library scan sleep time<form accept-charset=\"utf-8\" action=\"/scan_sleep_time\" method=\"post\"><input type=\"text\" name=\"scan_period\" placeholder=\"in seconds\" required><input type=\"submit\" value=\"Update (todo)\"></form></li><li>periodic covers extraction sleep time<form accept-charset=\"utf-8\" action=\"/extract_sleep_time\" method=\"post\"><input type=\"text\" name=\"extract_periode\" placeholder=\"in seconds\" required><input type=\"submit\" value=\"Update (todo)\"></form></li></ul></div><h3>Users</h3><div><ul>";

/// The admin checkbox of an administrator's entry.
pub const ADMIN_BOX_CHECKED: &'static str = "<input type=\"checkbox\" id=\"admin_box\" name=\"is_admin\" checked>";

/// The admin checkbox of another user's entry.
pub const ADMIN_BOX: &'static str = "<input type=\"checkbox\" id=\"admin_box\" name=\"is_admin\">";

/// The end of a user entry.
pub const ADMIN_USER_END: &'static str = "<label for=\"admin_box\"> Admin </label><input type=\"submit\" name=\"update\" value=\"Update\"> <input type=\"submit\" name=\"delete\" value=\"Delete\"></form></div></li>";

/// From the new-user form to the end of the page.
pub const ADMIN_END: &'static str = "<li><form accept-charset=\"utf-8\" action=\"/admin/user/new\" method=\"post\"><input type=\"text\" name=\"name\" placeholder=\"name\" required> <input type=\"password\" name=\"password\" placeholder=\"password\" required> <input type=\"checkbox\" id=\"admin_box\" name=\"is_admin\"><label for=\"admin_box\"> Admin </label><input type=\"submit\" value=\"New user\"></form></li></ul></div><h3>Stats</h3><div><ul><li>Number of publication : \u{1f937}</li><li>Number of users : \u{1f937}</li><li>Publication readed : \u{1f937}</li><li>Publication bookmarked : \u{1f937}</li></ul></div>";

/// The entry of a library in the administration page.
pub open spec fn admin_library_html(library: Library) -> Seq<char> {
    "<li class=\"item\"><form action=\""@ + esc("/admin/library/"@ + decimal(library.id as int))
        + "\" method=\"post\"><div>"@ + esc(library.name@) + ADMIN_LIBRARY_BUTTONS@
}

/// The entries of the libraries, in order.
pub open spec fn admin_libraries_html(libraries: Seq<Library>) -> Seq<char>
    decreases libraries.len(),
{
    if libraries.len() == 0 {
        Seq::<char>::empty()
    } else {
        admin_libraries_html(libraries.drop_last()) + admin_library_html(libraries.last())
    }
}

/// The entry of a user in the administration page; the admin box is
/// checked for administrators.
pub open spec fn admin_user_html(user: User) -> Seq<char> {
    "<li class=\"item\"><div><form accept-charset=\"utf-8\" action=\""@ + esc(
        "/admin/user/"@ + decimal(user.id as int),
    ) + "\" method=\"post\"><label>"@ + esc(user.name@)
        + "</label> <input type=\"password\" name=\"password\" placeholder=\"password\"> "@ + (
    if user.role == Role::Admin {
        ADMIN_BOX_CHECKED@
    } else {
        ADMIN_BOX@
    }) + ADMIN_USER_END@
}

/// The entries of the users, in order.
pub open spec fn admin_users_html(users: Seq<User>) -> Seq<char>
    decreases users.len(),
{
    if users.len() == 0 {
        Seq::<char>::empty()
    } else {
        admin_users_html(users.drop_last()) + admin_user_html(users.last())
    }
}

/// The administration page.
pub open spec fn admin_html(user: User, libraries: Seq<Library>, users: Seq<User>) -> Seq<char> {
    page_html(
        menu_html(Some(user)) + ADMIN_START@ + admin_libraries_html(libraries) + ADMIN_MIDDLE@
            + admin_users_html(users) + ADMIN_END@,
        None,
    )
}

fn admin_library(library: &Library) -> (s: String)
    ensures
        s@ == admin_library_html(*library),
{
    let mut s = String::new();
    s.append("<li class=\"item\"><form action=\"");
    let mut action = String::new();
    action.append("/admin/library/");
    action.append(i64_to_string(library.id).as_str());
    push_escaped(&mut s, action.as_str());
    s.append("\" method=\"post\"><div>");
    push_escaped(&mut s, library.name.as_str());
    s.append(ADMIN_LIBRARY_BUTTONS);
    s
}

fn admin_user(user: &User) -> (s: String)
    ensures
        s@ == admin_user_html(*user),
{
    let mut s = String::new();
    s.append("<li class=\"item\"><div><form accept-charset=\"utf-8\" action=\"");
    let mut action = String::new();
    action.append("/admin/user/");
    action.append(i64_to_string(user.id).as_str());
    push_escaped(&mut s, action.as_str());
    s.append("\" method=\"post\"><label>");
    push_escaped(&mut s, user.name.as_str());
    s.append("</label> <input type=\"password\" name=\"password\" placeholder=\"password\"> ");
    if user.role == Role::Admin {
        s.append(ADMIN_BOX_CHECKED);
    } else {
        s.append(ADMIN_BOX);
    }
    s.append(ADMIN_USER_END);
    s
}

/// The administration page: the libraries (delete, full rescan), the
/// scan options, the users (password, admin role, delete) and a form for
/// each kind of new entry.
pub fn admin(user: &User, library_list: Vec<Library>, user_list: Vec<User>) -> (page: String)
    ensures
        page@ == admin_html(*user, library_list@, user_list@),
{
    let mut body = menu(Some(user));
    body.append(ADMIN_START);
    let ghost start = body@;
    let mut i: usize = 0;
    while i < library_list.len()
        invariant
            i <= library_list@.len(),
            body@ == start + admin_libraries_html(library_list@.take(i as int)),
        decreases library_list@.len() - i,
    {
        assert(library_list@.take(i as int + 1).drop_last() =~= library_list@.take(i as int));
        let entry = admin_library(&library_list[i]);
        body.append(entry.as_str());
        i = i + 1;
    }
    assert(library_list@.take(library_list@.len() as int) =~= library_list@);
    body.append(ADMIN_MIDDLE);
    let ghost middle = body@;
    let mut j: usize = 0;
    while j < user_list.len()
        invariant
            j <= user_list@.len(),
            body@ == middle + admin_users_html(user_list@.take(j as int)),
        decreases user_list@.len() - j,
    {
        assert(user_list@.take(j as int + 1).drop_last() =~= user_list@.take(j as int));
        let entry = admin_user(&user_list[j]);
        body.append(entry.as_str());
        j = j + 1;
    }
    assert(user_list@.take(user_list@.len() as int) =~= user_list@);
    body.append(ADMIN_END);
    render(body.as_str(), None)
}

// ---------------------------------------------------------------------
// Breadcrumbs
// ---------------------------------------------------------------------

/// The arrow between two breadcrumb entries.
pub const ARROW: &'static str = "<div class=\"border-arrow\"><div class=\"arrow\"></div></div>";

/// The directories `subs` each followed by `/`, glued together: the path
/// that a breadcrumb entry links to, before trailing slashes are cut.
pub open spec fn crumb_path(subs: Seq<Seq<char>>) -> Seq<char>
    decreases subs.len(),
{
    if subs.len() == 0 {
        Seq::<char>::empty()
    } else {
        crumb_path(subs.drop_last()) + subs.last() + "/"@
    }
}

/// One breadcrumb entry: the last directory of `subs`, linking to
/// `prefix` followed by the path up to it.
pub open spec fn crumb_html(prefix: Seq<char>, subs: Seq<Seq<char>>) -> Seq<char> {
    "<li><a href=\""@ + esc(prefix + crate::text::trim_end(crumb_path(subs), '/')) + "\">"@ + esc(
        subs.last(),
    ) + "</a></li>"@ + ARROW@
}

/// The breadcrumb entries of the directories `subs`, in order.
pub open spec fn crumbs_html(prefix: Seq<char>, subs: Seq<Seq<char>>) -> Seq<char>
    decreases subs.len(),
{
    if subs.len() == 0 {
        Seq::<char>::empty()
    } else {
        crumbs_html(prefix, subs.drop_last()) + crumb_html(prefix, subs)
    }
}

/// Writes the breadcrumb entries of the directories of `dirs`
/// (separated by `/`).
fn crumbs(prefix: &str, dirs: &str) -> (s: String)
    ensures
        s@ == crumbs_html(prefix@, crate::text::split(dirs@, '/')),
{
    let subs = crate::text::split_on(dirs, '/');
    let ghost all = subs.deep_view();
    let mut s = String::new();
    let mut acc = String::new();
    let mut i: usize = 0;
    while i < subs.len()
        invariant
            all == subs.deep_view(),
            i <= subs@.len(),
            s@ == crumbs_html(prefix@, all.take(i as int)),
            acc@ == crumb_path(all.take(i as int)),
        decreases subs@.len() - i,
    {
        let ghost taken = all.take(i as int + 1);
        assert(taken.drop_last() =~= all.take(i as int));
        assert(taken.last() == subs@[i as int]@);
        acc.append(subs[i].as_str());
        acc.append("/");
        let trimmed = crate::text::trim_end_char(acc.as_str(), '/');
        let mut link = String::new();
        link.append(prefix);
        link.append(trimmed.as_str());
        s.append("<li><a href=\"");
        push_escaped(&mut s, link.as_str());
        s.append("\">");
        push_escaped(&mut s, subs[i].as_str());
        s.append("</a></li>");
        s.append(ARROW);
        i = i + 1;
    }
    assert(all.take(subs@.len() as int) =~= all);
    s
}

// ---------------------------------------------------------------------
// File page
// ---------------------------------------------------------------------

/// `parts` from the first one equal to `name` on (all dropped if none is).
pub open spec fn drop_until(parts: Seq<Seq<char>>, name: Seq<char>) -> Seq<Seq<char>>
    decreases parts.len(),
{
    if parts.len() == 0 {
        parts
    } else if parts[0] == name {
        parts
    } else {
        drop_until(parts.drop_first(), name)
    }
}

/// The path of a file's directory inside its library: the directories of
/// `parent_path` from the one named like the library on.
pub open spec fn library_relative_path(parent_path: Seq<char>, library_name: Seq<char>) -> Seq<
    char,
> {
    crate::text::join(drop_until(crate::text::split(parent_path, '/'), library_name), "/"@)
}

/// The part of `parts` from the first element equal to `name` on.
fn drop_until_exec(parts: Vec<String>, name: &str) -> (r: Vec<String>)
    ensures
        r.deep_view() == drop_until(parts.deep_view(), name@),
{
    let mut k: usize = 0;
    assert(parts.deep_view().skip(0) =~= parts.deep_view());
    while k < parts.len() && !crate::text::str_eq(parts[k].as_str(), name)
        invariant
            k <= parts@.len(),
            drop_until(parts.deep_view().skip(k as int), name@) == drop_until(
                parts.deep_view(),
                name@,
            ),
        decreases parts@.len() - k,
    {
        assert(parts.deep_view().skip(k as int).drop_first() =~= parts.deep_view().skip(
            k as int + 1,
        ));
        k = k + 1;
    }
    let mut r: Vec<String> = Vec::new();
    let mut j: usize = k;
    while j < parts.len()
        invariant
            k <= j <= parts@.len(),
            r.deep_view() == parts.deep_view().subrange(k as int, j as int),
        decreases parts@.len() - j,
    {
        let c = parts[j].clone();
        let ghost old_r = r.deep_view();
        r.push(c);
        assert(r.deep_view() =~= old_r.push(parts.deep_view()[j as int]));
        j = j + 1;
        assert(r.deep_view() =~= parts.deep_view().subrange(k as int, j as int));
    }
    assert(parts.deep_view().subrange(k as int, parts@.len() as int) =~= parts.deep_view().skip(
        k as int,
    ));
    r
}

/// Writes the path of a file's directory inside its library.
pub fn library_relative_path_of(parent_path: &str, library_name: &str) -> (r: String)
    ensures
        r@ == library_relative_path(parent_path@, library_name@),
{
    let parts = crate::text::split_on(parent_path, '/');
    let kept = drop_until_exec(parts, library_name);
    crate::text::join_with(&kept, "/")
}

/// The breadcrumb of a file's page, from the library root to the file's
/// directory.
pub open spec fn file_breadcrumb_html(path: Seq<char>) -> Seq<char> {
    match crate::text::rsplit_once(path, '/') {
        Some((dirs, last)) => crumbs_html("/library/"@, crate::text::split(dirs, '/'))
            + "<li class=\"selected\"><a href=\""@ + esc("/library/"@ + dirs + "/"@ + last)
            + "\">"@ + esc(last) + "</a></li>"@,
        None => "<li class=\"selected\"><a href=\""@ + esc("/library/"@ + path) + "\">"@ + esc(
            path,
        ) + "</a></li>"@,
    }
}

fn file_breadcrumb(path: &str) -> (s: String)
    ensures
        s@ == file_breadcrumb_html(path@),
{
    match crate::text::rsplit_once_char(path, '/') {
        Some((dirs, last)) => {
            let mut s = crumbs("/library/", dirs.as_str());
            s.append("<li class=\"selected\"><a href=\"");
            let mut link = String::new();
            link.append("/library/");
            link.append(dirs.as_str());
            link.append("/");
            link.append(last.as_str());
            push_escaped(&mut s, link.as_str());
            s.append("\">");
            push_escaped(&mut s, last.as_str());
            s.append("</a></li>");
            s
        },
        None => {
            let mut s = String::new();
            s.append("<li class=\"selected\"><a href=\"");
            let mut link = String::new();
            link.append("/library/");
            link.append(path);
            push_escaped(&mut s, link.as_str());
            s.append("\">");
            push_escaped(&mut s, path);
            s.append("</a></li>");
            s
        },
    }
}

/// The search box of the library pages, holding `value`.
pub open spec fn search_box_html(value: Seq<char>) -> Seq<char> {
    "<div class=\"search\"><form accept-charset=\"utf-8\" action=\"/search\" method=\"post\"><input type=\"submit\" value=\"\"><input type=\"text\" placeholder=\"Search...\" name=\"query\" value=\""@
        + esc(value) + "\"></form></div>"@
}

fn search_box(value: &str) -> (s: String)
    ensures
        s@ == search_box_html(value@),
{
    let mut s = String::new();
    s.append(
        "<div class=\"search\"><form accept-charset=\"utf-8\" action=\"/search\" method=\"post\"><input type=\"submit\" value=\"\"><input type=\"text\" placeholder=\"Search...\" name=\"query\" value=\"",
    );
    push_escaped(&mut s, value);
    s.append("\"></form></div>");
    s
}

/// The link that downloads file `id`.
pub open spec fn download_link(id: Seq<char>) -> Seq<char> {
    "/download/"@ + id
}

/// The action links of a file's page: up, read (not for PDF files),
/// download, bookmark and read status toggles.
pub open spec fn file_actions_html(
    file: crate::model::FileInfo,
    current_page: int,
    bookmark_status: bool,
    read_status: bool,
    up_link: Seq<char>,
) -> Seq<char> {
    "<h2><a href=\""@ + esc(up_link) + "\" class=\"navigation\">\u{2196}\u{fe0f}  up</a> | "@ + (
    if file.format != crate::model::Format::Pdf {
        "<a href=\""@ + esc(read_link(file.id@, current_page))
            + "\" class=\"navigation\">\u{1f4d6} read file</a> | "@
    } else {
        Seq::<char>::empty()
    }) + "<a href=\""@ + esc(download_link(file.id@))
        + "\" class=\"navigation\">\u{2935} download</a> | <a href=\""@ + esc(
        "/toggle/bookmark/"@ + file.id@,
    ) + "\">"@ + (if bookmark_status {
        "\u{2b50} (remove from bookmarks)"@
    } else {
        "(bookmark)"@
    }) + "</a> | <a href=\""@ + esc("/toggle/read_status/"@ + file.id@) + "\">"@ + (
    if read_status {
        "\u{2705} (mark as unread)"@
    } else {
        "(mark as read)"@
    }) + "</a></h2>"@
}

fn file_actions(
    file: &crate::model::FileInfo,
    current_page: i32,
    bookmark_status: bool,
    read_status: bool,
    up_link: &str,
) -> (s: String)
    ensures
        s@ == file_actions_html(*file, current_page as int, bookmark_status, read_status, up_link@),
{
    let mut s = String::new();
    s.append("<h2><a href=\"");
    push_escaped(&mut s, up_link);
    s.append("\" class=\"navigation\">\u{2196}\u{fe0f}  up</a> | ");
    if file.format != crate::model::Format::Pdf {
        s.append("<a href=\"");
        push_escaped(&mut s, read_link_of(file.id.as_str(), current_page).as_str());
        s.append("\" class=\"navigation\">\u{1f4d6} read file</a> | ");
    } else {
        assert(s@ =~= s@ + Seq::<char>::empty());
    }
    s.append("<a href=\"");
    let mut download = String::new();
    download.append("/download/");
    download.append(file.id.as_str());
    push_escaped(&mut s, download.as_str());
    s.append("\" class=\"navigation\">\u{2935} download</a> | <a href=\"");
    let mut bookmark = String::new();
    bookmark.append("/toggle/bookmark/");
    bookmark.append(file.id.as_str());
    push_escaped(&mut s, bookmark.as_str());
    s.append("\">");
    if bookmark_status {
        s.append("\u{2b50} (remove from bookmarks)");
    } else {
        s.append("(bookmark)");
    }
    s.append("</a> | <a href=\"");
    let mut read = String::new();
    read.append("/toggle/read_status/");
    read.append(file.id.as_str());
    push_escaped(&mut s, read.as_str());
    s.append("\">");
    if read_status {
        s.append("\u{2705} (mark as unread)");
    } else {
        s.append("(mark as read)");
    }
    s.append("</a></h2>");
    s
}

/// The cover of a file's page, linking to the reader (or to the download
/// of PDF files), and the file's details.
pub open spec fn file_details_html(
    file: crate::model::FileInfo,
    current_page: int,
    pretty_file_size: Seq<char>,
    pretty_added_date: Seq<char>,
) -> Seq<char> {
    "<br><br><a href=\""@ + esc(
        if file.format != crate::model::Format::Pdf {
            read_link(file.id@, current_page)
        } else {
            download_link(file.id@)
        },
    ) + "\" class=\"navigation\"><img src=\""@ + esc("/cover/"@ + file.id@)
        + "\" alt=\"cover\" class=\"infos\"></a><br><br><p style=\"text-align: center;\">"@ + esc(
        file.name@,
    ) + "<br><br>"@ + esc("size : "@ + pretty_file_size) + "<br>"@ + esc(
        "pages : "@ + decimal(current_page) + "/"@ + decimal(file.total_pages as int),
    ) + "<br>"@ + esc("type : "@ + crate::model::format_label(file.format)) + "<br>"@ + esc(
        "added : "@ + pretty_added_date,
    ) + "</p>"@
}

fn file_details(
    file: &crate::model::FileInfo,
    current_page: i32,
    pretty_file_size: &str,
    pretty_added_date: &str,
) -> (s: String)
    ensures
        s@ == file_details_html(*file, current_page as int, pretty_file_size@, pretty_added_date@),
{
    let mut s = String::new();
    s.append("<br><br><a href=\"");
    if file.format != crate::model::Format::Pdf {
        push_escaped(&mut s, read_link_of(file.id.as_str(), current_page).as_str());
    } else {
        let mut download = String::new();
        download.append("/download/");
        download.append(file.id.as_str());
        push_escaped(&mut s, download.as_str());
    }
    s.append("\" class=\"navigation\"><img src=\"");
    let mut cover = String::new();
    cover.append("/cover/");
    cover.append(file.id.as_str());
    push_escaped(&mut s, cover.as_str());
    s.append("\" alt=\"cover\" class=\"infos\"></a><br><br><p style=\"text-align: center;\">");
    push_escaped(&mut s, file.name.as_str());
    s.append("<br><br>");
    let mut size = String::new();
    size.append("size : ");
    size.append(pretty_file_size);
    push_escaped(&mut s, size.as_str());
    s.append("<br>");
    let mut pages = String::new();
    pages.append("pages : ");
    pages.append(i32_to_string(current_page).as_str());
    pages.append("/");
    pages.append(i32_to_string(file.total_pages).as_str());
    push_escaped(&mut s, pages.as_str());
    s.append("<br>");
    let mut kind = String::new();
    kind.append("type : ");
    kind.append(file.format.label());
    push_escaped(&mut s, kind.as_str());
    s.append("<br>");
    let mut added = String::new();
    added.append("added : ");
    added.append(pretty_added_date);
    push_escaped(&mut s, added.as_str());
    s.append("</p>");
    s
}

/// The page of a file, for a file's details given as text.
pub open spec fn file_info_html(
    user: User,
    file: crate::model::FileInfo,
    current_page: int,
    bookmark_status: bool,
    read_status: bool,
    up_link: Seq<char>,
    pretty_file_size: Seq<char>,
    pretty_added_date: Seq<char>,
) -> Seq<char> {
    page_html(
        menu_html(Some(user))
            + "<main><header><a href=\"/library\"><img src=\"/images/library-icon.svgz\"><h1>"@
            + esc(file.name@)
            + "</h1></a></header><section class=\"filters\"><ul class=\"breadcrumb\"><li><a href=\"/library\" class=\"navigation\">Library</a></li>"@
            + ARROW@ + file_breadcrumb_html(
            library_relative_path(file.parent_path@, file.library_name@),
        ) + "</ul>"@ + search_box_html(""@)
            + "</section><div id=\"infos\" style=\"text-align: center;\"><br><br><br>"@
            + file_actions_html(file, current_page, bookmark_status, read_status, up_link)
            + file_details_html(file, current_page, pretty_file_size, pretty_added_date)
            + "</div></main>"@,
        None,
    )
}

/// The page of a file: breadcrumb, actions, cover and details, with the
/// file size and the date it was added already written as text.
pub fn file_info_page(
    user: &User,
    file: &crate::model::FileInfo,
    current_page: i32,
    bookmark_status: bool,
    read_status: bool,
    up_link: &str,
    pretty_file_size: &str,
    pretty_added_date: &str,
) -> (page: String)
    ensures
        page@ == file_info_html(
            *user,
            *file,
            current_page as int,
            bookmark_status,
            read_status,
            up_link@,
            pretty_file_size@,
            pretty_added_date@,
        ),
{
    let mut body = menu(Some(user));
    body.append("<main><header><a href=\"/library\"><img src=\"/images/library-icon.svgz\"><h1>");
    push_escaped(&mut body, file.name.as_str());
    body.append(
        "</h1></a></header><section class=\"filters\"><ul class=\"breadcrumb\"><li><a href=\"/library\" class=\"navigation\">Library</a></li>",
    );
    body.append(ARROW);
    let path = library_relative_path_of(file.parent_path.as_str(), file.library_name.as_str());
    let crumb = file_breadcrumb(path.as_str());
    body.append(crumb.as_str());
    body.append("</ul>");
    let search = search_box("");
    body.append(search.as_str());
    body.append("</section><div id=\"infos\" style=\"text-align: center;\"><br><br><br>");
    let actions = file_actions(file, current_page, bookmark_status, read_status, up_link);
    body.append(actions.as_str());
    let details = file_details(file, current_page, pretty_file_size, pretty_added_date);
    body.append(details.as_str());
    body.append("</div></main>");
    render(body.as_str(), None)
}

/// The unit in which the page of a file writes its size.
#[derive(PartialEq, Eq, Structural)]
pub enum FileSizeUnit {
    /// Kilobytes with three decimals (sizes under 1 MiB).
    Kilo,
    /// Whole megabytes (sizes under 1 GiB).
    Mega,
    /// Gigabytes with one decimal.
    Giga,
}

/// The unit of a file size: kB under 1 MiB, MB under 1 GiB, else GB.
pub open spec fn file_size_unit_of(size: int) -> FileSizeUnit {
    if size < 1024 * 1024 {
        FileSizeUnit::Kilo
    } else if size >= 1024 && size < 1024 * 1024 * 1024 {
        FileSizeUnit::Mega
    } else {
        FileSizeUnit::Giga
    }
}

/// Chooses the unit of a file size.
pub fn file_size_unit(size: i64) -> (u: FileSizeUnit)
    ensures
        u == file_size_unit_of(size as int),
{
    if size < 1024 * 1024 {
        FileSizeUnit::Kilo
    } else if size >= 1024 && size < 1024 * 1024 * 1024 {
        FileSizeUnit::Mega
    } else {
        FileSizeUnit::Giga
    }
}

/// A size in whole megabytes, as the page of a file writes it: `{n} MB`,
/// the size divided by 1024 twice, rounded down.
pub fn megabytes_text(size: i64) -> (s: String)
    requires
        size >= 0,
    ensures
        s@ == decimal(size / 1024 / 1024) + " MB"@,
{
    let mut s = i64_to_string(size / 1024 / 1024);
    s.append(" MB");
    s
}

/// The page of a file. The file size is written by the caller (it is
/// formatted with floating point); the date the file was added is written
/// here.
pub fn file_info(
    user: &User,
    file: &crate::model::FileInfo,
    current_page: i32,
    bookmark_status: bool,
    read_status: bool,
    up_link: String,
    pretty_file_size: &str,
) -> (page: String)
    ensures
        page@ == file_info_html(
            *user,
            *file,
            current_page as int,
            bookmark_status,
            read_status,
            up_link@,
            pretty_file_size@,
            crate::dates::added_date_text(file.added_date),
        ),
{
    let added = crate::dates::added_date(file.added_date);
    file_info_page(
        user,
        file,
        current_page,
        bookmark_status,
        read_status,
        up_link.as_str(),
        pretty_file_size,
        added.as_str(),
    )
}

// ---------------------------------------------------------------------
// Library listing
// ---------------------------------------------------------------------

/// What a library listing shows: directories, files with their bookmark
/// and read status, where the listing is, and the search that made it.
pub struct LibraryDisplay {
    pub user: User,
    pub directories_list: Vec<crate::model::DirectoryInfo>,
    pub files_list: Vec<(crate::model::FileInfo, bool, bool)>,
    pub library_id: Option<i64>,
    pub library_path: String,
    pub current_path: Option<String>,
    pub search_query: Option<String>,
}

/// The view of an optional string.
pub open spec fn opt_string(o: Option<String>) -> Option<Seq<char>> {
    match o {
        None => None,
        Some(s) => Some(s@),
    }
}

/// The start of a library listing, up to the breadcrumb entries.
pub const LIBRARY_HEAD: &'static str = "<main><header><a href=\"/library\"><img src=\"/images/library-icon.svgz\"><h1>Library</h1></a></header><section class=\"filters\"><ul class=\"breadcrumb\"><li><a href=\"/library\" class=\"navigation\">Library</a></li>";

/// What a listing shows when no library is registered.
pub const NO_LIBRARY: &'static str = "<p><br><br><br><a href=\"/admin\">Please add a library in Administration panel</a></p>";

/// The breadcrumb of a listing of `current_path` (nothing for a path
/// without `/`).
pub open spec fn library_breadcrumb_html(current_path: Option<Seq<char>>) -> Seq<char> {
    match current_path {
        None => Seq::<char>::empty(),
        Some(path) => match crate::text::rsplit_once(path, '/') {
            None => Seq::<char>::empty(),
            Some((dirs, last)) => crumbs_html("/library"@, crate::text::split(dirs, '/'))
                + "<li class=\"selected\"><a href=\""@ + esc("/library"@ + dirs + "/"@ + last)
                + "\">"@ + esc(last) + "</a></li>"@,
        },
    }
}

fn library_breadcrumb(current_path: &Option<String>) -> (s: String)
    ensures
        s@ == library_breadcrumb_html(opt_string(*current_path)),
{
    match current_path {
        None => String::new(),
        Some(path) => match crate::text::rsplit_once_char(path.as_str(), '/') {
            None => String::new(),
            Some((dirs, last)) => {
                let mut s = crumbs("/library", dirs.as_str());
                s.append("<li class=\"selected\"><a href=\"");
                let mut link = String::new();
                link.append("/library");
                link.append(dirs.as_str());
                link.append("/");
                link.append(last.as_str());
                push_escaped(&mut s, link.as_str());
                s.append("\">");
                push_escaped(&mut s, last.as_str());
                s.append("</a></li>");
                s
            },
        },
    }
}

/// What a listing shows when it has neither directory nor file: an
/// invitation to add a library when there is none, else a rescan button.
pub open spec fn empty_notice_html(d: LibraryDisplay) -> Seq<char> {
    if d.directories_list@.len() == 0 && d.files_list@.len() == 0 && d.library_path@ == "/"@ {
        NO_LIBRARY@
    } else if d.directories_list@.len() == 0 && d.files_list@.len() == 0 {
        "<p>"@ + esc("Library "@ + d.library_path@ + " is empty, please be patient"@)
            + "<form action=\""@ + esc(
            "/admin/library/"@ + decimal(
                match d.library_id {
                    Some(id) => id as int,
                    None => 0,
                },
            ),
        ) + "\" method=\"post\"><div><input type=\"submit\" name=\"full_rescan\" value=\"Force a full rescan\"></div></form></p>"@
    } else {
        Seq::<char>::empty()
    }
}

fn empty_notice(d: &LibraryDisplay) -> (s: String)
    ensures
        s@ == empty_notice_html(*d),
{
    let empty = d.directories_list.len() == 0 && d.files_list.len() == 0;
    if empty && crate::text::str_eq(d.library_path.as_str(), "/") {
        crate::text::owned(NO_LIBRARY)
    } else if empty {
        let mut s = String::new();
        s.append("<p>");
        let mut message = String::new();
        message.append("Library ");
        message.append(d.library_path.as_str());
        message.append(" is empty, please be patient");
        push_escaped(&mut s, message.as_str());
        s.append("<form action=\"");
        let id: i64 = match d.library_id {
            Some(id) => id,
            None => 0,
        };
        let mut action = String::new();
        action.append("/admin/library/");
        action.append(i64_to_string(id).as_str());
        push_escaped(&mut s, action.as_str());
        s.append(
            "\" method=\"post\"><div><input type=\"submit\" name=\"full_rescan\" value=\"Force a full rescan\"></div></form></p>",
        );
        s
    } else {
        String::new()
    }
}

/// The link of a directory of a listing of `current_path`.
pub open spec fn directory_link(
    dir: crate::model::DirectoryInfo,
    current_path: Option<Seq<char>>,
) -> Seq<char> {
    if dir.parent_path@.len() == 0 {
        "/library/"@ + dir.name@
    } else {
        "/library"@ + match current_path {
            Some(p) => p,
            None => Seq::<char>::empty(),
        } + "/"@ + dir.name@
    }
}

/// A directory of a listing, with its number of files when known.
pub open spec fn directory_html(
    dir: crate::model::DirectoryInfo,
    current_path: Option<Seq<char>>,
) -> Seq<char> {
    "<article class=\"folder\"><a href=\""@ + esc(directory_link(dir, current_path))
        + "\"><div class=\"cover\"><span class=\"folder-img\"></span>"@ + match dir.file_count {
        Some(n) => "<span class=\"folder-nb-items\">"@ + decimal(n as int) + "</span>"@,
        None => Seq::<char>::empty(),
    } + "</div><div class=\"title\"><h2>"@ + esc(dir.name@) + "</h2></div></a></article>"@
}

/// The directories of a listing, in order.
pub open spec fn directories_html(
    dirs: Seq<crate::model::DirectoryInfo>,
    current_path: Option<Seq<char>>,
) -> Seq<char>
    decreases dirs.len(),
{
    if dirs.len() == 0 {
        Seq::<char>::empty()
    } else {
        directories_html(dirs.drop_last(), current_path) + directory_html(dirs.last(), current_path)
    }
}

fn directory_entry(dir: &crate::model::DirectoryInfo, current_path: &Option<String>) -> (s: String)
    ensures
        s@ == directory_html(*dir, opt_string(*current_path)),
{
    let mut s = String::new();
    s.append("<article class=\"folder\"><a href=\"");
    let mut link = String::new();
    if dir.parent_path.as_str().unicode_len() == 0 {
        link.append("/library/");
        link.append(dir.name.as_str());
    } else {
        link.append("/library");
        match current_path {
            Some(p) => link.append(p.as_str()),
            None => {
                assert(link@ =~= link@ + Seq::<char>::empty());
            },
        }
        link.append("/");
        link.append(dir.name.as_str());
    }
    push_escaped(&mut s, link.as_str());
    s.append("\"><div class=\"cover\"><span class=\"folder-img\"></span>");
    match dir.file_count {
        Some(n) => {
            s.append("<span class=\"folder-nb-items\">");
            s.append(i32_to_string(n).as_str());
            s.append("</span>");
        },
        None => {
            assert(s@ =~= s@ + Seq::<char>::empty());
        },
    }
    s.append("</div><div class=\"title\"><h2>");
    push_escaped(&mut s, dir.name.as_str());
    s.append("</h2></div></a></article>");
    s
}

/// A file of a listing: cover (marked when read), name, bookmark toggle.
pub open spec fn file_entry_html(entry: (crate::model::FileInfo, bool, bool)) -> Seq<char> {
    let (file, bookmarked, read) = entry;
    "<article class=\"file\"><a href=\""@ + esc("/infos/"@ + file.id@)
        + "\"><div class=\"cover\"><img src=\""@ + esc("/cover/"@ + file.id@)
        + "\" alt=\"blurred background cover\" class=\""@ + (if read {
        "blurred-background read"@
    } else {
        "blurred-background"@
    }) + "\"><img src=\""@ + esc("/cover/"@ + file.id@) + "\" alt=\"cover\" class=\""@ + (
    if read {
        "cover read"@
    } else {
        "cover"@
    }) + "\"></div></a><div class=\"title\"><h2>"@ + esc(file.name@) + "</h2></div><a href=\""@
        + esc("/toggle/bookmark/"@ + file.id@) + "\">"@ + (if bookmarked {
        "<button class=\"favorite bookmarked\"></button>"@
    } else {
        "<button class=\"favorite\"></button>"@
    }) + "</a></article>"@
}

/// The files of a listing, in order.
pub open spec fn files_html(files: Seq<(crate::model::FileInfo, bool, bool)>) -> Seq<char>
    decreases files.len(),
{
    if files.len() == 0 {
        Seq::<char>::empty()
    } else {
        files_html(files.drop_last()) + file_entry_html(files.last())
    }
}

fn file_entry(entry: &(crate::model::FileInfo, bool, bool)) -> (s: String)
    ensures
        s@ == file_entry_html(*entry),
{
    let file = &entry.0;
    let bookmarked = entry.1;
    let read = entry.2;
    let mut infos = String::new();
    infos.append("/infos/");
    infos.append(file.id.as_str());
    let mut cover = String::new();
    cover.append("/cover/");
    cover.append(file.id.as_str());
    let mut toggle = String::new();
    toggle.append("/toggle/bookmark/");
    toggle.append(file.id.as_str());
    let mut s = String::new();
    s.append("<article class=\"file\"><a href=\"");
    push_escaped(&mut s, infos.as_str());
    s.append("\"><div class=\"cover\"><img src=\"");
    push_escaped(&mut s, cover.as_str());
    s.append("\" alt=\"blurred background cover\" class=\"");
    if read {
        s.append("blurred-background read");
    } else {
        s.append("blurred-background");
    }
    s.append("\"><img src=\"");
    push_escaped(&mut s, cover.as_str());
    s.append("\" alt=\"cover\" class=\"");
    if read {
        s.append("cover read");
    } else {
        s.append("cover");
    }
    s.append("\"></div></a><div class=\"title\"><h2>");
    push_escaped(&mut s, file.name.as_str());
    s.append("</h2></div><a href=\"");
    push_escaped(&mut s, toggle.as_str());
    s.append("\">");
    if bookmarked {
        s.append("<button class=\"favorite bookmarked\"></button>");
    } else {
        s.append("<button class=\"favorite\"></button>");
    }
    s.append("</a></article>");
    s
}

/// The search box value of a listing: the search that made it, if any.
pub open spec fn search_value(d: LibraryDisplay) -> Seq<char> {
    match d.search_query {
        Some(q) => q@,
        None => Seq::<char>::empty(),
    }
}

/// A library listing page.
pub open spec fn library_display_html(d: LibraryDisplay) -> Seq<char> {
    page_html(
        menu_html(Some(d.user)) + LIBRARY_HEAD@ + library_breadcrumb_html(
            opt_string(d.current_path),
        ) + "</ul>"@ + search_box_html(search_value(d)) + "</section>"@ + empty_notice_html(d)
            + "<section class=\"gallery\">"@ + directories_html(
            d.directories_list@,
            opt_string(d.current_path),
        ) + files_html(d.files_list@) + "</section></main>"@,
        None,
    )
}

/// A library listing: breadcrumb, search box, a notice when it is empty,
/// then its directories and its files.
pub fn library_display(list_to_display: LibraryDisplay) -> (page: String)
    ensures
        page@ == library_display_html(list_to_display),
{
    let d = &list_to_display;
    let mut body = menu(Some(&d.user));
    body.append(LIBRARY_HEAD);
    let crumb = library_breadcrumb(&d.current_path);
    body.append(crumb.as_str());
    body.append("</ul>");
    let search = match &d.search_query {
        Some(q) => search_box(q.as_str()),
        None => {
            let nothing = String::new();
            search_box(nothing.as_str())
        },
    };
    body.append(search.as_str());
    body.append("</section>");
    let notice = empty_notice(d);
    body.append(notice.as_str());
    body.append("<section class=\"gallery\">");
    let ghost start = body@;
    let mut i: usize = 0;
    while i < d.directories_list.len()
        invariant
            i <= d.directories_list@.len(),
            body@ == start + directories_html(
                d.directories_list@.take(i as int),
                opt_string(d.current_path),
            ),
        decreases d.directories_list@.len() - i,
    {
        assert(d.directories_list@.take(i as int + 1).drop_last() =~= d.directories_list@.take(
            i as int,
        ));
        let entry = directory_entry(&d.directories_list[i], &d.current_path);
        body.append(entry.as_str());
        i = i + 1;
    }
    assert(d.directories_list@.take(d.directories_list@.len() as int) =~= d.directories_list@);
    let ghost middle = body@;
    let mut j: usize = 0;
    while j < d.files_list.len()
        invariant
            j <= d.files_list@.len(),
            body@ == middle + files_html(d.files_list@.take(j as int)),
        decreases d.files_list@.len() - j,
    {
        assert(d.files_list@.take(j as int + 1).drop_last() =~= d.files_list@.take(j as int));
        let entry = file_entry(&d.files_list[j]);
        body.append(entry.as_str());
        j = j + 1;
    }
    assert(d.files_list@.take(d.files_list@.len() as int) =~= d.files_list@);
    body.append("</section></main>");
    render(body.as_str(), None)
}

} // verus!
