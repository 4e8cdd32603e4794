//! HTML building blocks: text escaping, the page frame (head and body)
//! and the navigation menu that every page of a signed-in user carries.

use vstd::prelude::*;
use crate::model::{Role, User};

verus! {

/// What a character becomes in HTML text or in an attribute value:
/// `&`, `"`, `<` and `>` become entities, every other character stays.
pub open spec fn escape_char(c: char) -> Seq<char> {
    if c == '&' {
        seq!['&', 'a', 'm', 'p', ';']
    } else if c == '"' {
        seq!['&', 'q', 'u', 'o', 't', ';']
    } else if c == '<' {
        seq!['&', 'l', 't', ';']
    } else if c == '>' {
        seq!['&', 'g', 't', ';']
    } else {
        seq![c]
    }
}

/// `s` as it is written in HTML text or in a quoted attribute value.
pub open spec fn esc(s: Seq<char>) -> Seq<char>
    decreases s.len(),
{
    if s.len() == 0 {
        Seq::<char>::empty()
    } else {
        esc(s.drop_last()) + escape_char(s.last())
    }
}

/// Appends `text` to `out`, escaped for HTML, through horrorshow's
/// escaping writer (`Template::write_to_string` on a `&str`).
/// Claimed: `&`, `"`, `<` and `>` are written as `&amp;`, `&quot;`,
/// `&lt;`, `&gt;` and every other character is copied; writing into a
/// `String` does not fail.
#[verifier::external_body]
pub(crate) fn push_escaped(out: &mut String, text: &str)
    ensures
        final(out)@ == old(out)@ + esc(text@),
{
    let _ = horrorshow::Template::write_to_string(text, out);
}

/// `text` escaped for HTML.
pub fn escape(text: &str) -> (r: String)
    ensures
        r@ == esc(text@),
{
    let mut r = String::new();
    push_escaped(&mut r, text);
    assert(r@ =~= esc(text@));
    r
}

/// The fixed part of every page head.
pub const HEAD_FIXED: &'static str = "<title>Eloran</title><meta charset=\"UTF-8\"><meta name=\"viewport\" content=\"width=device-width\"><link rel=\"stylesheet\" href=\"/css/eloran.css\"><link rel=\"icon\" type=\"image/png\" href=\"/favicon-96x96.png\" sizes=\"96x96\"><link rel=\"icon\" type=\"image/svgz+xml\" href=\"/favicon.svgz\"><link rel=\"shortcut icon\" href=\"/favicon.ico\"><link rel=\"apple-touch-icon\" sizes=\"180x180\" href=\"/apple-touch-icon.png\"><meta name=\"apple-mobile-web-app-title\" content=\"Eloran\"><link rel=\"manifest\" href=\"/site.webmanifest\"><meta http-equiv=\"Cache-Control\" content=\"no-cache, no-store, must-revalidate\"><meta http-equiv=\"Pragma\" content=\"no-cache\"><meta http-equiv=\"Expires\" content=\"0\">";

/// The value of the refresh meta tag that sends the browser to `url`.
pub open spec fn refresh_content(url: Seq<char>) -> Seq<char> {
    "0; url='"@ + url + "'"@
}

/// The page head: title, styles, icons, cache control, and a refresh to
/// `redirect` when one is given.
pub open spec fn header_html(redirect: Option<Seq<char>>) -> Seq<char> {
    match redirect {
        None => HEAD_FIXED@,
        Some(url) => HEAD_FIXED@ + "<meta http-equiv=\"refresh\" content=\""@ + esc(
            refresh_content(url),
        ) + "\">"@,
    }
}

/// Writes the page head.
pub fn header(redirect: Option<&str>) -> (h: String)
    ensures
        h@ == header_html(match redirect {
            None => None,
            Some(u) => Some(u@),
        }),
{
    let mut h = String::new();
    h.append(HEAD_FIXED);
    match redirect {
        None => {},
        Some(url) => {
            let mut content = String::new();
            content.append("0; url='");
            content.append(url);
            content.append("'");
            h.append("<meta http-equiv=\"refresh\" content=\"");
            push_escaped(&mut h, content.as_str());
            h.append("\">");
        },
    }
    h
}

/// A whole page around `body`, with the head that `redirect` asks for.
pub open spec fn page_html(body: Seq<char>, redirect: Option<Seq<char>>) -> Seq<char> {
    "<!DOCTYPE html><html><head>"@ + header_html(redirect) + "</head><body class=\"page-library\">"@
        + body + "</body></html>"@
}

/// `Some(s@)` of an optional string slice.
pub open spec fn opt_view(o: Option<&str>) -> Option<Seq<char>> {
    match o {
        None => None,
        Some(u) => Some(u@),
    }
}

/// Puts `body` into a whole page.
pub fn render(body: &str, redirect: Option<&str>) -> (page: String)
    ensures
        page@ == page_html(body@, opt_view(redirect)),
{
    let h = header(redirect);
    let mut page = String::new();
    page.append("<!DOCTYPE html><html><head>");
    page.append(h.as_str());
    page.append("</head><body class=\"page-library\">");
    page.append(body);
    page.append("</body></html>");
    page
}

/// The menu up to the preferences list.
pub const MENU_START: &'static str = "<header><div class=\"logo\"><a href=\"/library\">Eloran</a></div><nav><input type=\"checkbox\" id=\"lasagna-checkbox\"><button class=\"rounded-button lasagna-button\"><span class=\"selected-rounded-button\"></span><label for=\"lasagna-checkbox\"><img src=\"/images/lasagna.svgz\"></label></button><ul class=\"menu\"><li><a href=\"/library\" class=\"nav-button nav-button-1\">Library</a></li><li><a href=\"/reading\" class=\"nav-button nav-button-2\">Reading</a></li><li><a href=\"/bookmarks\" class=\"nav-button nav-button-3\">Bookmarks</a></li><input type=\"checkbox\" id=\"prefs-checkbox\"><button class=\"rounded-button prefs-button\"><span class=\"selected-rounded-button\"></span><label for=\"prefs-checkbox\">A</label></button><ul class=\"prefs-menu\"><li><a href=\"/prefs\">Preferences</a></li>";

/// The administration entry of the menu.
pub const MENU_ADMIN: &'static str = "<li><a href=\"/admin\">Administration</a></li>";

/// The logout entry of the menu.
pub const MENU_LOGOUT: &'static str = "<li><a href=\"/logout\">Logout</a></li>";

/// The end of the menu.
pub const MENU_END: &'static str = "</ul></ul></nav></header>";

/// The navigation menu. A signed-in user gets a logout entry, and an
/// administrator also gets the administration entry.
pub open spec fn menu_html(user: Option<User>) -> Seq<char> {
    MENU_START@ + match user {
        None => Seq::<char>::empty(),
        Some(u) => (if u.role == Role::Admin {
            MENU_ADMIN@
        } else {
            Seq::<char>::empty()
        }) + MENU_LOGOUT@,
    } + MENU_END@
}

/// Writes the navigation menu.
pub fn menu(user: Option<&User>) -> (m: String)
    ensures
        m@ == menu_html(match user {
            None => None,
            Some(u) => Some(*u),
        }),
{
    let mut m = String::new();
    m.append(MENU_START);
    match user {
        None => {
            assert(m@ =~= m@ + Seq::<char>::empty());
        },
        Some(u) => {
            if u.role == Role::Admin {
                m.append(MENU_ADMIN);
            } else {
                assert(m@ =~= m@ + Seq::<char>::empty());
            }
            m.append(MENU_LOGOUT);
        },
    }
    m.append(MENU_END);
    m
}

} // verus!
