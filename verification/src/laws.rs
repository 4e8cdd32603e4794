//! Laws of the library: what holds of every input of its functions, or
//! between several of them, stated over the specifications that their
//! contracts use.

use vstd::prelude::*;
use crate::html::{esc, escape_char};
use crate::model::Role;
use crate::scan::{comic_pages, is_image_path};
use crate::sort::{
    items_of, key_le, keyed_strings, lemma_sort_items_permute, lemma_sort_keys_follow_items,
    lemma_sort_permutes, lemma_sort_sorted, sort_by_key,
};
use crate::storage::{library_name_text, listed, toggled_list, without_entry};
use crate::text::{
    ascii_lower, last_index, lower, lemma_lacks_pair_concat, lemma_occurrence_has_pair,
    contains, decimal, join, occurs_at, replace_nonempty, seq_lt, split, trim_end,
};
use crate::web::{reading_page, search_terms_of, user_change_of, UserChange};
use crate::pages::{next_page, previous_page};

verus! {

// ---------------------------------------------------------------------
// Escaping
// ---------------------------------------------------------------------

proof fn lemma_escape_char_plain(c: char)
    ensures
        forall|i: int|
            0 <= i < escape_char(c).len() ==> #[trigger] escape_char(c)[i] != '<'
                && escape_char(c)[i] != '>' && escape_char(c)[i] != '"',
{
}

/// Text written into a page through escaping holds no `<`, `>` or `"`:
/// whatever a user or a book names, it cannot open a tag or end an
/// attribute value.
pub proof fn law_escaped_text_has_no_markup(s: Seq<char>)
    ensures
        !esc(s).contains('<'),
        !esc(s).contains('>'),
        !esc(s).contains('"'),
    decreases s.len(),
{
    if s.len() > 0 {
        law_escaped_text_has_no_markup(s.drop_last());
        lemma_escape_char_plain(s.last());
        let a = esc(s.drop_last());
        let b = escape_char(s.last());
        assert(esc(s) == a + b);
        assert forall|i: int| 0 <= i < (a + b).len() implies (a + b)[i] != '<' && (a + b)[i]
            != '>' && (a + b)[i] != '"' by {
            if i < a.len() {
                assert((a + b)[i] == a[i]);
                assert(a.contains(a[i]));
            } else {
                assert((a + b)[i] == b[i - a.len()]);
            }
        }
    }
}

/// Escaping goes character by character: the escaped text of two texts
/// put together is their escaped texts put together.
pub proof fn law_escape_concat(a: Seq<char>, b: Seq<char>)
    ensures
        esc(a + b) == esc(a) + esc(b),
    decreases b.len(),
{
    if b.len() == 0 {
        assert(a + b =~= a);
        assert(esc(a) + esc(b) =~= esc(a));
    } else {
        assert((a + b).drop_last() =~= a + b.drop_last());
        assert((a + b).last() == b.last());
        law_escape_concat(a, b.drop_last());
        assert(esc(a + b) =~= esc(a) + esc(b));
    }
}

// ---------------------------------------------------------------------
// Bookmarks and read status
// ---------------------------------------------------------------------

/// The user ids of a comma-separated list: its non-empty entries.
pub open spec fn ids_of(list: Seq<char>) -> Set<Seq<char>> {
    Set::new(|e: Seq<char>| split(list, ',').contains(e) && e.len() > 0)
}

/// The non-empty entries of a sequence of pieces.
spec fn nonempty_entries(parts: Seq<Seq<char>>) -> Set<Seq<char>> {
    Set::new(|e: Seq<char>| parts.contains(e) && e.len() > 0)
}

proof fn lemma_split_join_entries(parts: Seq<Seq<char>>)
    requires
        forall|i: int| 0 <= i < parts.len() ==> !(#[trigger] parts[i]).contains(','),
    ensures
        nonempty_entries(split(join(parts, ","@), ',')) == nonempty_entries(parts),
{
    reveal_strlit(",");
    assert(","@ =~= seq![',']);
    if parts.len() == 0 {
        assert(split(join(parts, ","@), ',') =~= seq![Seq::<char>::empty()]);
        assert(nonempty_entries(split(join(parts, ","@), ',')) =~= nonempty_entries(parts));
    } else {
        crate::text::lemma_split_join(parts, ',');
    }
}

proof fn lemma_without_entry_contains(parts: Seq<Seq<char>>, id: Seq<char>, e: Seq<char>)
    ensures
        without_entry(parts, id).contains(e) <==> (parts.contains(e) && e != id),
{
    let pred = crate::storage::other_than(id);
    let f = parts.filter(pred);
    if f.contains(e) {
        parts.lemma_filter_contains_rev(pred, e);
        let k = choose|k: int| 0 <= k < f.len() && f[k] == e;
        parts.lemma_filter_pred(pred, k);
    }
    if parts.contains(e) && e != id {
        let k = choose|k: int| 0 <= k < parts.len() && parts[k] == e;
        parts.lemma_filter_contains(pred, k);
    }
}

/// A toggle adds the user's id to the ids of a list when it is not
/// listed, and removes it when it is; every other id stays.
pub proof fn law_toggle_changes_one_id(list: Seq<char>, user_id: int)
    ensures
        ids_of(toggled_list(list, user_id)) == (if listed(list, user_id) {
            ids_of(list).remove(decimal(user_id))
        } else {
            ids_of(list).insert(decimal(user_id))
        }),
{
    let id = decimal(user_id);
    let parts = split(list, ',');
    let t = toggled_list(list, user_id);
    crate::text::lemma_decimal_has_no_comma(user_id);
    crate::text::lemma_split_pieces_lack_separator(list, ',');
    crate::text::lemma_split_not_empty(list, ',');
    assert(ids_of(list) == nonempty_entries(parts));
    assert(ids_of(t) == nonempty_entries(split(t, ',')));
    if !parts.contains(id) {
        if list.len() == 0 {
            assert(parts =~= seq![Seq::<char>::empty()]);
            crate::text::lemma_split_join(seq![id], ',');
            assert(join(seq![id], seq![',']) == id);
            assert(ids_of(t) =~= ids_of(list).insert(id));
        } else {
            let q = parts.push(id);
            assert forall|i: int| 0 <= i < q.len() implies !(#[trigger] q[i]).contains(',') by {
                if i < parts.len() {
                    assert(q[i] == parts[i]);
                }
            }
            lemma_split_join_entries(q);
            assert forall|e: Seq<char>| q.contains(e) <==> (parts.contains(e) || e == id) by {
                if q.contains(e) {
                    let k = choose|k: int| 0 <= k < q.len() && q[k] == e;
                    if k < parts.len() {
                        assert(parts[k] == e);
                    }
                }
                if parts.contains(e) {
                    let k = choose|k: int| 0 <= k < parts.len() && parts[k] == e;
                    assert(q[k] == e);
                }
                if e == id {
                    assert(q[parts.len() as int] == id);
                }
            }
            assert(ids_of(t) =~= ids_of(list).insert(id));
        }
    } else {
        let f = without_entry(parts, id);
        assert forall|i: int| 0 <= i < f.len() implies !(#[trigger] f[i]).contains(',') by {
            assert(f.contains(f[i]));
            lemma_without_entry_contains(parts, id, f[i]);
            let k = choose|k: int| 0 <= k < parts.len() && parts[k] == f[i];
        }
        lemma_split_join_entries(f);
        assert forall|e: Seq<char>| f.contains(e) <==> (parts.contains(e) && e != id) by {
            lemma_without_entry_contains(parts, id, e);
        }
        assert(ids_of(t) =~= ids_of(list).remove(id));
    }
}

/// A toggle flips the status read back: a user not listed is listed
/// after it, and a listed user is no longer listed.
pub proof fn law_toggle_flips_status(list: Seq<char>, user_id: int)
    ensures
        listed(toggled_list(list, user_id), user_id) == !listed(list, user_id),
{
    let id = decimal(user_id);
    let t = toggled_list(list, user_id);
    crate::text::lemma_decimal_has_no_comma(user_id);
    law_toggle_changes_one_id(list, user_id);
    assert(listed(t, user_id) == ids_of(t).contains(id));
    assert(listed(list, user_id) == ids_of(list).contains(id));
}

/// Toggling a user twice answers both ways and gives the list back its
/// user ids: a bookmark set and removed, or removed and set, leaves the
/// bookmarks as they were.
pub proof fn law_toggle_twice_restores_ids(list: Seq<char>, user_id: int)
    ensures
        listed(toggled_list(list, user_id), user_id) != listed(list, user_id),
        ids_of(toggled_list(toggled_list(list, user_id), user_id)) == ids_of(list),
{
    let id = decimal(user_id);
    let t1 = toggled_list(list, user_id);
    crate::text::lemma_decimal_has_no_comma(user_id);
    law_toggle_flips_status(list, user_id);
    law_toggle_changes_one_id(list, user_id);
    law_toggle_changes_one_id(t1, user_id);
    assert(listed(list, user_id) == ids_of(list).contains(id));
    assert(ids_of(toggled_list(t1, user_id)) =~= ids_of(list));
}


/// A finished book stays marked read: after a reader request for its
/// last page (or beyond) the read list holds the reader, and a list that
/// already held the reader is left as it was (never toggled back to
/// unread).
pub proof fn law_finished_book_stays_read(list: Seq<char>, user_id: int, page: int, total_pages: int)
    ensures
        crate::web::reading_page(page, total_pages) == total_pages - 1 ==> listed(
            crate::web::read_list_after_request(list, user_id, page, total_pages),
            user_id,
        ),
        listed(list, user_id) ==> crate::web::read_list_after_request(list, user_id, page, total_pages)
            == list,
{
    law_toggle_flips_status(list, user_id);
}

// ---------------------------------------------------------------------
// Pages
// ---------------------------------------------------------------------

/// The preferences page depends on the user's role alone: no id, name or
/// password hash shows in it.
pub proof fn law_prefs_depend_on_role_alone(u1: crate::model::User, u2: crate::model::User)
    requires
        u1.role == u2.role,
    ensures
        crate::pages::prefs_html(u1) == crate::pages::prefs_html(u2),
{
}

/// The preferences page of an administrator is that of a user with the
/// administration entry of the menu added, and it holds that entry.
pub proof fn law_prefs_admin_entry(admin: crate::model::User, user: crate::model::User)
    requires
        admin.role == Role::Admin,
        user.role == Role::User,
    ensures
        exists|a: Seq<char>, b: Seq<char>|
            crate::pages::prefs_html(user) == a + b && crate::pages::prefs_html(admin) == a
                + crate::html::MENU_ADMIN@ + b,
        contains(crate::pages::prefs_html(admin), crate::html::MENU_ADMIN@),
{
    let head = "<!DOCTYPE html><html><head>"@ + crate::html::header_html(None)
        + "</head><body class=\"page-library\">"@ + crate::html::MENU_START@;
    let tail = crate::html::MENU_LOGOUT@ + crate::html::MENU_END@ + crate::pages::PREFS_BODY@
        + "</body></html>"@;
    let m = crate::html::MENU_ADMIN@;
    assert(crate::html::menu_html(Some(user)) =~= crate::html::MENU_START@ + (
    Seq::<char>::empty() + crate::html::MENU_LOGOUT@) + crate::html::MENU_END@);
    assert(crate::pages::prefs_html(user) =~= head + tail);
    assert(crate::pages::prefs_html(admin) =~= head + m + tail);
    assert((head + m + tail).subrange(head.len() as int, (head.len() + m.len()) as int) =~= m);
    assert(occurs_at(head + m + tail, m, head.len() as int));
}

/// The preferences page holds the administration entry of the menu if and
/// only if the user is an administrator.
pub proof fn law_prefs_admin_entry_iff(u: crate::model::User)
    ensures
        contains(crate::pages::prefs_html(u), crate::html::MENU_ADMIN@) <==> u.role == Role::Admin,
{
    let open_head = "<!DOCTYPE html><html><head>"@;
    let close_head = "</head><body class=\"page-library\">"@;
    let close_body = "</body></html>"@;
    let head = open_head + crate::html::HEAD_FIXED@ + close_head + crate::html::MENU_START@;
    let tail = crate::html::MENU_LOGOUT@ + crate::html::MENU_END@ + crate::pages::PREFS_BODY@ + close_body;
    let m = crate::html::MENU_ADMIN@;
    if u.role == Role::Admin {
        assert(crate::pages::prefs_html(u) =~= head + m + tail);
        assert((head + m + tail).subrange(head.len() as int, (head.len() + m.len()) as int) =~= m);
        assert(occurs_at(head + m + tail, m, head.len() as int));
    } else {
        reveal_strlit("<!DOCTYPE html><html><head>");
        reveal_strlit("<title>Eloran</title><meta charset=\"UTF-8\"><meta name=\"viewport\" content=\"width=device-width\"><link rel=\"stylesheet\" href=\"/css/eloran.css\"><link rel=\"icon\" type=\"image/png\" href=\"/favicon-96x96.png\" sizes=\"96x96\"><link rel=\"icon\" type=\"image/svgz+xml\" href=\"/favicon.svgz\"><link rel=\"shortcut icon\" href=\"/favicon.ico\"><link rel=\"apple-touch-icon\" sizes=\"180x180\" href=\"/apple-touch-icon.png\"><meta name=\"apple-mobile-web-app-title\" content=\"Eloran\"><link rel=\"manifest\" href=\"/site.webmanifest\"><meta http-equiv=\"Cache-Control\" content=\"no-cache, no-store, must-revalidate\"><meta http-equiv=\"Pragma\" content=\"no-cache\"><meta http-equiv=\"Expires\" content=\"0\">");
        reveal_strlit("</head><body class=\"page-library\">");
        reveal_strlit("<header><div class=\"logo\"><a href=\"/library\">Eloran</a></div><nav><input type=\"checkbox\" id=\"lasagna-checkbox\"><button class=\"rounded-button lasagna-button\"><span class=\"selected-rounded-button\"></span><label for=\"lasagna-checkbox\"><img src=\"/images/lasagna.svgz\"></label></button><ul class=\"menu\"><li><a href=\"/library\" class=\"nav-button nav-button-1\">Library</a></li><li><a href=\"/reading\" class=\"nav-button nav-button-2\">Reading</a></li><li><a href=\"/bookmarks\" class=\"nav-button nav-button-3\">Bookmarks</a></li><input type=\"checkbox\" id=\"prefs-checkbox\"><button class=\"rounded-button prefs-button\"><span class=\"selected-rounded-button\"></span><label for=\"prefs-checkbox\">A</label></button><ul class=\"prefs-menu\"><li><a href=\"/prefs\">Preferences</a></li>");
        reveal_strlit("<li><a href=\"/logout\">Logout</a></li>");
        reveal_strlit("</ul></ul></nav></header>");
        reveal_strlit("<h2>Preferences</h2><div><p>(todo) change password</p><p>(todo) display all files or just readables</p><p>(todo) grid or list view</p><p>(todo) theme : dark or light</p></div>");
        reveal_strlit("</body></html>");
        reveal_strlit("<li><a href=\"/admin\">Administration</a></li>");
        let page = head + tail;
        assert(crate::pages::prefs_html(u) =~= page);
        lemma_lacks_pair_concat(open_head, crate::html::HEAD_FIXED@, 'd', 'm');
        lemma_lacks_pair_concat(open_head + crate::html::HEAD_FIXED@, close_head, 'd', 'm');
        lemma_lacks_pair_concat(open_head + crate::html::HEAD_FIXED@ + close_head, crate::html::MENU_START@, 'd', 'm');
        lemma_lacks_pair_concat(head, crate::html::MENU_LOGOUT@, 'd', 'm');
        lemma_lacks_pair_concat(head + crate::html::MENU_LOGOUT@, crate::html::MENU_END@, 'd', 'm');
        lemma_lacks_pair_concat(head + crate::html::MENU_LOGOUT@ + crate::html::MENU_END@, crate::pages::PREFS_BODY@, 'd', 'm');
        lemma_lacks_pair_concat(
            head + crate::html::MENU_LOGOUT@ + crate::html::MENU_END@ + crate::pages::PREFS_BODY@,
            close_body,
            'd',
            'm',
        );
        assert(head + crate::html::MENU_LOGOUT@ + crate::html::MENU_END@ + crate::pages::PREFS_BODY@ + close_body =~= page);
        assert(m[15] == 'd' && m[16] == 'm');
        if contains(page, m) {
            let i = choose|i: int| occurs_at(page, m, i);
            lemma_occurrence_has_pair(page, m, i, 15);
        }
    }
}

// ---------------------------------------------------------------------
// Reading
// ---------------------------------------------------------------------

/// A reader request never shows a page past the last one, and shows the
/// page asked for when the book has it.
pub proof fn law_reading_page_stays_in_book(page: int, total_pages: int)
    ensures
        reading_page(page, total_pages) <= total_pages - 1,
        page <= total_pages - 1 ==> reading_page(page, total_pages) == page,
{
}

/// The reader's links stay in the book: the previous page is never below
/// the first, the next never past the last, and each moves by one page
/// when it can.
pub proof fn law_navigation_stays_in_book(page: int, total_pages: int)
    requires
        0 <= page,
    ensures
        0 <= previous_page(page) <= page,
        page > 0 ==> previous_page(page) == page - 1,
        next_page(page, total_pages) <= total_pages - 1,
        page < total_pages - 1 ==> next_page(page, total_pages) == page + 1,
{
}

// ---------------------------------------------------------------------
// Users
// ---------------------------------------------------------------------

/// The first user (id 1) survives the user form: it is never deleted,
/// and an administrator keeps that role through any update.
pub proof fn law_first_user_is_kept(
    target: crate::model::User,
    form: crate::web::UserForm,
    hashed: Seq<char>,
    change: UserChange,
    page: Seq<char>,
)
    requires
        user_change_of(target, form, hashed, change, page),
        target.id == 1,
    ensures
        !(change is Delete),
        change matches UserChange::Update(u) ==> (target.role == Role::Admin ==> u.role
            == Role::Admin),
{
}

/// A user whose stored hash was made from a password by `hash_password`
/// logs in with that password: the hash verifies it, so the login
/// authenticates that very user.
pub proof fn law_hashed_password_logs_in(u: crate::model::User, password: Seq<char>)
    requires
        crate::auth::password_verifies(password, u.password_hash@),
    ensures
        crate::auth::authenticated(Some(u), password) == Some(u),
{
}

/// A user updated by the user form with a new password, hashed by
/// `hash_password`, then logs in with that password.
pub proof fn law_updated_password_logs_in(
    target: crate::model::User,
    form: crate::web::UserForm,
    hashed: Seq<char>,
    change: UserChange,
    page: Seq<char>,
)
    requires
        user_change_of(target, form, hashed, change, page),
        !(form.delete is Some && target.id != 1),
        form.update is Some,
        form.password@.len() > 0,
        crate::auth::password_verifies(form.password@, hashed),
    ensures
        change matches UserChange::Update(u) && crate::auth::authenticated(Some(u), form.password@)
            == Some(u),
{
}

/// A login under a name that no user has never authenticates.
pub proof fn law_unknown_user_is_refused(password: Seq<char>)
    ensures
        crate::auth::authenticated(None, password) is None,
{
}

// ---------------------------------------------------------------------
// Names and paths
// ---------------------------------------------------------------------

pub proof fn law_library_name_has_no_slash(path: Seq<char>)
    ensures
        !library_name_text(path).contains('/'),
{
    let t = trim_end(path, '/');
    crate::text::lemma_split_pieces_lack_separator(t, '/');
    crate::text::lemma_split_not_empty(t, '/');
    assert(split(t, '/')[split(t, '/').len() - 1] == split(t, '/').last());
}

proof fn lemma_trim_end_clean(s: Seq<char>, c: char)
    ensures
        trim_end(s, c).len() == 0 || trim_end(s, c).last() != c,
    decreases s.len(),
{
    if s.len() > 0 && s.last() == c {
        lemma_trim_end_clean(s.drop_last(), c);
    }
}

/// The path of a new library never ends with `/`.
pub proof fn law_new_library_path_has_no_trailing_slash(decoded: Option<Seq<char>>)
    ensures
        crate::web::new_library_path_of(decoded).len() == 0 || crate::web::new_library_path_of(
            decoded,
        ).last() != '/',
{
    let d = match decoded {
        Some(d) => d,
        None => Seq::<char>::empty(),
    };
    lemma_trim_end_clean(crate::text::replace(d, "+"@, " "@), '/');
}

proof fn lemma_replace_one_char(s: Seq<char>, c: char, d: char)
    requires
        c != d,
    ensures
        !replace_nonempty(s, seq![c], seq![d]).contains(c),
    decreases s.len(),
{
    let pat = seq![c];
    let rep = seq![d];
    if s.len() >= 1 {
        let out = replace_nonempty(s, pat, rep);
        if s.take(1) == pat {
            lemma_replace_one_char(s.skip(1), c, d);
            let rest = replace_nonempty(s.skip(1), pat, rep);
            assert(out == rep + rest);
            assert forall|k: int| 0 <= k < out.len() implies out[k] != c by {
                if k >= 1 {
                    assert(out[k] == rest[k - 1]);
                    assert(rest.contains(rest[k - 1]));
                }
            }
        } else {
            lemma_replace_one_char(s.drop_first(), c, d);
            let rest = replace_nonempty(s.drop_first(), pat, rep);
            assert(out == seq![s[0]] + rest);
            assert(s[0] != c) by {
                if s[0] == c {
                    assert(s.take(1) =~= pat);
                }
            }
            assert forall|k: int| 0 <= k < out.len() implies out[k] != c by {
                if k >= 1 {
                    assert(out[k] == rest[k - 1]);
                    assert(rest.contains(rest[k - 1]));
                }
            }
        }
    }
}

/// The words of a search never hold a `+`: every `+` of the form body is
/// read as a space.
pub proof fn law_search_terms_have_no_plus(body: Seq<char>)
    ensures
        !search_terms_of(body).contains('+'),
{
    reveal_strlit("+");
    reveal_strlit(" ");
    assert("+"@ =~= seq!['+']);
    assert(" "@ =~= seq![' ']);
    lemma_replace_one_char(body.skip(6), '+', ' ');
}

// ---------------------------------------------------------------------
// Formats and case
// ---------------------------------------------------------------------

/// Lowering turns the ASCII capitals `A` to `Z` into `a` to `z` and keeps
/// every other character; the length stays.
pub proof fn law_lower_lowers_ascii_capitals(s: Seq<char>)
    ensures
        lower(s).len() == s.len(),
        forall|i: int|
            0 <= i < s.len() ==> if 'A' <= s[i] <= 'Z' {
                (#[trigger] lower(s)[i]) as u32 == s[i] as u32 + 32 && 'a' <= lower(s)[i] <= 'z'
            } else {
                lower(s)[i] == s[i]
            },
{
}

proof fn lemma_ascii_lower_char(c: char)
    ensures
        (ascii_lower(c) == '.') == (c == '.'),
        ascii_lower(ascii_lower(c)) == ascii_lower(c),
{
}

proof fn lemma_lower_idempotent(s: Seq<char>)
    ensures
        lower(lower(s)) == lower(s),
{
    assert forall|i: int| 0 <= i < s.len() implies lower(lower(s))[i] == lower(s)[i] by {
        lemma_ascii_lower_char(s[i]);
    }
    assert(lower(lower(s)) =~= lower(s));
}

proof fn lemma_lower_keeps_last_dot(s: Seq<char>)
    ensures
        last_index(lower(s), '.') == last_index(s, '.'),
    decreases s.len(),
{
    if s.len() > 0 {
        assert(lower(s).drop_last() =~= lower(s.drop_last()));
        lemma_ascii_lower_char(s.last());
        lemma_lower_keeps_last_dot(s.drop_last());
    }
}

proof fn lemma_last_index_bounds(s: Seq<char>, c: char)
    ensures
        -1 <= last_index(s, c) < s.len(),
    decreases s.len(),
{
    if s.len() > 0 {
        lemma_last_index_bounds(s.drop_last(), c);
    }
}

proof fn lemma_extension_of_lower(name: Seq<char>)
    ensures
        crate::scan::extension(lower(name)) == lower(crate::scan::extension(name)),
{
    lemma_lower_keeps_last_dot(name);
    let i = last_index(name, '.');
    if i >= 0 {
        lemma_last_index_bounds(name, '.');
        assert(lower(name).skip(i + 1) =~= lower(name.skip(i + 1)));
    }
}

/// The format of a file does not depend on the case of its name: a name
/// and the same name in lower case have the same format.
pub proof fn law_format_ignores_case(name: Seq<char>)
    ensures
        crate::scan::format_of_name(lower(name)) == crate::scan::format_of_name(name),
{
    lemma_extension_of_lower(name);
    lemma_lower_idempotent(crate::scan::extension(name));
}

proof fn lemma_last_dot_before_extension(stem: Seq<char>, ext: Seq<char>)
    requires
        !ext.contains('.'),
    ensures
        last_index(stem + seq!['.'] + ext, '.') == stem.len(),
    decreases ext.len(),
{
    let n = stem + seq!['.'] + ext;
    if ext.len() == 0 {
        assert(n.last() == '.');
    } else {
        assert(n.last() == ext.last());
        assert(!ext.drop_last().contains('.')) by {
            if ext.drop_last().contains('.') {
                let k = choose|k: int| 0 <= k < ext.drop_last().len() && ext.drop_last()[k] == '.';
                assert(ext[k] == '.');
            }
        }
        assert(n.drop_last() =~= stem + seq!['.'] + ext.drop_last());
        lemma_last_dot_before_extension(stem, ext.drop_last());
    }
}

/// A file named `stem.ext` (no `.` in `ext`) gets its format from `ext`
/// whatever its case: epub, cbr, cbz, pdf and txt books are known, every
/// other extension is not.
pub proof fn law_format_from_extension(stem: Seq<char>, ext: Seq<char>)
    requires
        !ext.contains('.'),
    ensures
        lower(ext) == "epub"@ ==> crate::scan::format_of_name(stem + seq!['.'] + ext) == crate::model::Format::Epub,
        lower(ext) == "cbr"@ ==> crate::scan::format_of_name(stem + seq!['.'] + ext) == crate::model::Format::Cbr,
        lower(ext) == "cbz"@ ==> crate::scan::format_of_name(stem + seq!['.'] + ext) == crate::model::Format::Cbz,
        lower(ext) == "pdf"@ ==> crate::scan::format_of_name(stem + seq!['.'] + ext) == crate::model::Format::Pdf,
        lower(ext) == "txt"@ ==> crate::scan::format_of_name(stem + seq!['.'] + ext) == crate::model::Format::Txt,
        lower(ext) != "epub"@ && lower(ext) != "cbr"@ && lower(ext) != "cbz"@ && lower(ext) != "pdf"@
            && lower(ext) != "txt"@ ==> crate::scan::format_of_name(stem + seq!['.'] + ext)
            == crate::model::Format::Other,
{
    let n = stem + seq!['.'] + ext;
    lemma_last_dot_before_extension(stem, ext);
    assert(n.skip(stem.len() as int + 1) =~= ext);
    assert(n.take(stem.len() as int) =~= stem);
    assert(crate::scan::extension(n) == ext);
    reveal_strlit("epub");
    reveal_strlit("cbr");
    reveal_strlit("cbz");
    reveal_strlit("pdf");
    reveal_strlit("txt");
    assert("cbr"@ != "epub"@ && "cbz"@ != "epub"@) by {
        assert("epub"@.len() == 4 && "cbr"@.len() == 3 && "cbz"@.len() == 3);
    }
    assert("cbz"@ != "cbr"@) by {
        assert("cbz"@[2] == 'z' && "cbr"@[2] == 'r');
    }
    assert("pdf"@ != "epub"@ && "txt"@ != "epub"@) by {
        assert("pdf"@.len() == 3 && "txt"@.len() == 3);
    }
    assert("pdf"@ != "cbr"@ && "pdf"@ != "cbz"@ && "txt"@ != "cbr"@ && "txt"@ != "cbz"@
        && "txt"@ != "pdf"@) by {
        assert("pdf"@[0] == 'p' && "txt"@[0] == 't' && "cbr"@[0] == 'c' && "cbz"@[0] == 'c');
    }
}

/// An entry of a comic archive is one of its pages exactly when its path,
/// with ASCII letters lowered, holds `.jpg`, `.jpeg` or `.png`.
pub proof fn law_comic_page_membership(entries: Seq<String>, e: String)
    requires
        entries.contains(e),
    ensures
        comic_pages(entries).contains(e) <==> (contains(lower(e@), ".jpg"@) || contains(
            lower(e@),
            ".jpeg"@,
        ) || contains(lower(e@), ".png"@)),
{
    broadcast use vstd::seq_lib::group_to_multiset_ensures;

    let pred = |x: String| is_image_path(x@);
    let f = entries.filter(pred);
    let k = keyed_strings(f);
    assert(items_of(k) =~= f);
    lemma_sort_items_permute(k);
    assert(comic_pages(entries) == items_of(sort_by_key(k)));
    assert(comic_pages(entries).contains(e) <==> f.contains(e)) by {
        assert(comic_pages(entries).to_multiset().count(e) == f.to_multiset().count(e));
    }
    let j = choose|j: int| 0 <= j < entries.len() && entries[j] == e;
    if pred(e) {
        entries.lemma_filter_contains(pred, j);
    }
    if f.contains(e) {
        entries.lemma_filter_contains_rev(pred, e);
        let k2 = choose|k2: int| 0 <= k2 < f.len() && f[k2] == e;
        entries.lemma_filter_pred(pred, k2);
    }
}

// ---------------------------------------------------------------------
// User changes and listing entries
// ---------------------------------------------------------------------

/// An update from the admin panel: the user keeps its id and name, takes
/// the new hash only when a password was typed, becomes an administrator
/// when the admin box is sent as `on` (whatever its role was), keeps its
/// role when the box is sent with another value, and becomes a plain user
/// when the box is not sent, except the first user (id 1).
pub proof fn law_user_update(
    target: crate::model::User,
    form: crate::web::UserForm,
    hashed: Seq<char>,
    change: UserChange,
    page: Seq<char>,
)
    requires
        user_change_of(target, form, hashed, change, page),
        form.update is Some,
        !(form.delete is Some && target.id != 1),
    ensures
        change matches UserChange::Update(u) && {
            &&& u.id == target.id
            &&& u.name == target.name
            &&& form.password@.len() > 0 ==> u.password_hash@ == hashed
            &&& form.password@.len() == 0 ==> u.password_hash@ == target.password_hash@
            &&& (form.is_admin matches Some(v) && v@ == "on"@) ==> u.role == Role::Admin
            &&& (form.is_admin matches Some(v) && v@ != "on"@) ==> u.role == target.role
            &&& (form.is_admin is None && target.id != 1) ==> u.role == Role::User
            &&& (form.is_admin is None && target.id == 1) ==> u.role == target.role
        },
{
}

/// A deletion from the admin panel deletes the user it names, except the
/// first user (id 1); a form that asks for neither is refused.
pub proof fn law_user_delete_or_refuse(
    target: crate::model::User,
    form: crate::web::UserForm,
    hashed: Seq<char>,
    change: UserChange,
    page: Seq<char>,
)
    requires
        user_change_of(target, form, hashed, change, page),
    ensures
        (form.delete is Some && target.id != 1) ==> change == UserChange::Delete(target),
        (form.update is None && !(form.delete is Some && target.id != 1)) ==> change is Refuse,
{
}

/// A file of a listing shows as read by both of its cover images exactly
/// when its read flag is set, whatever its bookmark flag: the entry of a
/// read file is the entry of the same file unread with ` read` added to
/// the classes of its two covers.
pub proof fn law_file_entry_read_mark(file: crate::model::FileInfo, bookmarked: bool)
    ensures
        exists|p: Seq<char>, q: Seq<char>, r: Seq<char>|
            crate::pages::file_entry_html((file, bookmarked, false)) == p
                + "blurred-background\""@ + q + "cover\""@ + r
                && crate::pages::file_entry_html((file, bookmarked, true)) == p
                + "blurred-background read\""@ + q + "cover read\""@ + r,
        contains(crate::pages::file_entry_html((file, bookmarked, true)), "class=\"cover read\""@),
{
    let p = "<article class=\"file\"><a href=\""@ + esc("/infos/"@ + file.id@)
        + "\"><div class=\"cover\"><img src=\""@ + esc("/cover/"@ + file.id@)
        + "\" alt=\"blurred background cover\" class=\""@;
    let q = "><img src=\""@ + esc("/cover/"@ + file.id@) + "\" alt=\"cover\" class=\""@;
    let r = "></div></a><div class=\"title\"><h2>"@ + esc(file.name@) + "</h2></div><a href=\""@
        + esc("/toggle/bookmark/"@ + file.id@) + "\">"@ + (if bookmarked {
        "<button class=\"favorite bookmarked\"></button>"@
    } else {
        "<button class=\"favorite\"></button>"@
    }) + "</a></article>"@;
    reveal_strlit("\"></div></a><div class=\"title\"><h2>");
    reveal_strlit("></div></a><div class=\"title\"><h2>");
    reveal_strlit("\"><img src=\"");
    reveal_strlit("><img src=\"");
    reveal_strlit("blurred-background");
    reveal_strlit("blurred-background\"");
    reveal_strlit("blurred-background read");
    reveal_strlit("blurred-background read\"");
    reveal_strlit("cover");
    reveal_strlit("cover\"");
    reveal_strlit("cover read");
    reveal_strlit("cover read\"");
    reveal_strlit("\" alt=\"cover\" class=\"");
    reveal_strlit("class=\"cover read\"");
    assert(crate::pages::file_entry_html((file, bookmarked, false)) =~= p + "blurred-background\""@ + q
        + "cover\""@ + r);
    assert(crate::pages::file_entry_html((file, bookmarked, true)) =~= p
        + "blurred-background read\""@ + q + "cover read\""@ + r);
    let whole = p + "blurred-background read\""@ + q + "cover read\""@ + r;
    let at = (p + "blurred-background read\""@ + q).len() - 7;
    assert(whole.subrange(at, at + "class=\"cover read\""@.len()) =~= "class=\"cover read\""@);
    assert(occurs_at(whole, "class=\"cover read\""@, at));
}

/// The bookmark flag of a file of a listing changes only its bookmark
/// button: the entries of the file bookmarked and not bookmarked share
/// everything before that button.
pub proof fn law_file_entry_bookmark_mark(file: crate::model::FileInfo, read: bool)
    ensures
        exists|t: Seq<char>|
            crate::pages::file_entry_html((file, true, read)) == t
                + "<button class=\"favorite bookmarked\"></button></a></article>"@
                && crate::pages::file_entry_html((file, false, read)) == t
                + "<button class=\"favorite\"></button></a></article>"@,
{
    let t = crate::pages::file_entry_html((file, true, read)).take(
        crate::pages::file_entry_html((file, true, read)).len() - "<button class=\"favorite bookmarked\"></button></a></article>"@.len(),
    );
    reveal_strlit("<button class=\"favorite bookmarked\"></button>");
    reveal_strlit("<button class=\"favorite\"></button>");
    reveal_strlit("</a></article>");
    reveal_strlit("<button class=\"favorite bookmarked\"></button></a></article>");
    reveal_strlit("<button class=\"favorite\"></button></a></article>");
    assert(crate::pages::file_entry_html((file, true, read)) =~= t
        + "<button class=\"favorite bookmarked\"></button></a></article>"@);
    assert(crate::pages::file_entry_html((file, false, read)) =~= t
        + "<button class=\"favorite\"></button></a></article>"@);
}

// ---------------------------------------------------------------------
// Listings
// ---------------------------------------------------------------------

/// Sorting directories only reorders them, and puts them in the order of
/// their whole names: each name is at most the names after it.
pub proof fn law_directories_sorted_by_name(v: Seq<crate::model::DirectoryInfo>)
    ensures
        crate::sort::sorted_directories(v).to_multiset() == v.to_multiset(),
        forall|i: int, j: int|
            0 <= i < j < crate::sort::sorted_directories(v).len() ==> seq_lt(
                (#[trigger] crate::sort::sorted_directories(v)[i]).name@,
                (#[trigger] crate::sort::sorted_directories(v)[j]).name@,
            ) || crate::sort::sorted_directories(v)[i].name@
                == crate::sort::sorted_directories(v)[j].name@,
{
    let k = crate::sort::keyed_directories(v);
    let key = |d: crate::model::DirectoryInfo| (d.name@, 0int);
    assert(items_of(k) =~= v);
    lemma_sort_items_permute(k);
    lemma_sort_keys_follow_items(k, key);
    lemma_sort_sorted(k);
    let s = sort_by_key(k);
    assert forall|i: int, j: int| 0 <= i < j < s.len() implies seq_lt(
        (#[trigger] items_of(s)[i]).name@,
        (#[trigger] items_of(s)[j]).name@,
    ) || items_of(s)[i].name@ == items_of(s)[j].name@ by {
        assert(key_le(s[i].0, s[j].0));
        assert(s[i].0 == key(s[i].1) && s[j].0 == key(s[j].1));
    }
}

/// Sorting files only reorders them, and puts them in the order of their
/// whole names.
pub proof fn law_files_sorted_by_name(v: Seq<crate::model::FileInfo>)
    ensures
        crate::sort::sorted_files(v).to_multiset() == v.to_multiset(),
        forall|i: int, j: int|
            0 <= i < j < crate::sort::sorted_files(v).len() ==> seq_lt(
                (#[trigger] crate::sort::sorted_files(v)[i]).name@,
                (#[trigger] crate::sort::sorted_files(v)[j]).name@,
            ) || crate::sort::sorted_files(v)[i].name@ == crate::sort::sorted_files(v)[j].name@,
{
    let k = crate::sort::keyed_files(v);
    let key = |f: crate::model::FileInfo| (f.name@, 0int);
    assert(items_of(k) =~= v);
    lemma_sort_items_permute(k);
    lemma_sort_keys_follow_items(k, key);
    lemma_sort_sorted(k);
    let s = sort_by_key(k);
    assert forall|i: int, j: int| 0 <= i < j < s.len() implies seq_lt(
        (#[trigger] items_of(s)[i]).name@,
        (#[trigger] items_of(s)[j]).name@,
    ) || items_of(s)[i].name@ == items_of(s)[j].name@ by {
        assert(key_le(s[i].0, s[j].0));
        assert(s[i].0 == key(s[i].1) && s[j].0 == key(s[j].1));
    }
}

/// Sorting strings only reorders them, and puts them in lexicographic
/// order.
pub proof fn law_strings_sorted(v: Seq<String>)
    ensures
        crate::sort::sorted_strings(v).to_multiset() == v.to_multiset(),
        forall|i: int, j: int|
            0 <= i < j < crate::sort::sorted_strings(v).len() ==> seq_lt(
                (#[trigger] crate::sort::sorted_strings(v)[i])@,
                (#[trigger] crate::sort::sorted_strings(v)[j])@,
            ) || crate::sort::sorted_strings(v)[i]@ == crate::sort::sorted_strings(v)[j]@,
{
    let k = keyed_strings(v);
    let key = |x: String| (x@, 0int);
    assert(items_of(k) =~= v);
    lemma_sort_items_permute(k);
    lemma_sort_keys_follow_items(k, key);
    lemma_sort_sorted(k);
    let s = sort_by_key(k);
    assert forall|i: int, j: int| 0 <= i < j < s.len() implies seq_lt(
        (#[trigger] items_of(s)[i])@,
        (#[trigger] items_of(s)[j])@,
    ) || items_of(s)[i]@ == items_of(s)[j]@ by {
        assert(key_le(s[i].0, s[j].0));
        assert(s[i].0 == key(s[i].1) && s[j].0 == key(s[j].1));
    }
}

/// Sorting files with their bookmark and read flags only reorders them,
/// and orders them by whole name, then, for one name, by the pair of
/// flags as tuples of booleans compare (`false` before `true`, bookmark
/// first).
pub proof fn law_flagged_sorted(v: Seq<(crate::model::FileInfo, bool, bool)>)
    ensures
        crate::sort::sorted_flagged(v).to_multiset() == v.to_multiset(),
        forall|i: int, j: int|
            0 <= i < j < crate::sort::sorted_flagged(v).len() ==> {
                let a = #[trigger] crate::sort::sorted_flagged(v)[i];
                let b = #[trigger] crate::sort::sorted_flagged(v)[j];
                seq_lt(a.0.name@, b.0.name@) || (a.0.name@ == b.0.name@ && ((!a.1 && b.1) || (a.1
                    == b.1 && (!a.2 || b.2))))
            },
{
    let k = crate::sort::keyed_flagged(v);
    let key = |e: (crate::model::FileInfo, bool, bool)| (e.0.name@, crate::sort::flags_rank(e.1, e.2));
    assert(items_of(k) =~= v);
    lemma_sort_items_permute(k);
    lemma_sort_keys_follow_items(k, key);
    lemma_sort_sorted(k);
    let s = sort_by_key(k);
    assert forall|i: int, j: int| 0 <= i < j < s.len() implies {
        let a = #[trigger] items_of(s)[i];
        let b = #[trigger] items_of(s)[j];
        seq_lt(a.0.name@, b.0.name@) || (a.0.name@ == b.0.name@ && ((!a.1 && b.1) || (a.1 == b.1
            && (!a.2 || b.2))))
    } by {
        assert(key_le(s[i].0, s[j].0));
        assert(s[i].0 == key(s[i].1) && s[j].0 == key(s[j].1));
    }
}

// ---------------------------------------------------------------------
// Comic pages
// ---------------------------------------------------------------------

/// The pages of a comic archive are its image entries, each once, in the
/// order of their paths.
pub proof fn law_comic_pages_are_sorted_images(entries: Seq<String>)
    ensures
        comic_pages(entries).len() == entries.filter(|e: String| is_image_path(e@)).len(),
        forall|i: int|
            0 <= i < comic_pages(entries).len() ==> is_image_path(
                (#[trigger] comic_pages(entries)[i])@,
            ) && entries.contains(comic_pages(entries)[i]),
        forall|i: int, j: int|
            0 <= i < j < comic_pages(entries).len() ==> seq_lt(
                (#[trigger] comic_pages(entries)[i])@,
                (#[trigger] comic_pages(entries)[j])@,
            ) || comic_pages(entries)[i]@ == comic_pages(entries)[j]@,
{
    broadcast use vstd::seq_lib::group_to_multiset_ensures;

    let pred = |e: String| is_image_path(e@);
    let f = entries.filter(pred);
    let k = keyed_strings(f);
    let s = sort_by_key(k);
    let p = items_of(s);
    assert(p == comic_pages(entries));
    lemma_sort_permutes(k);
    lemma_sort_sorted(k);
    assert(s.len() == k.len()) by {
        assert(s.to_multiset().len() == k.to_multiset().len());
    }
    assert forall|i: int| 0 <= i < s.len() implies s[i].0 == (s[i].1@, 0int) && pred(s[i].1)
        && entries.contains(s[i].1) by {
        assert(s.contains(s[i]));
        assert(s.to_multiset().count(s[i]) > 0);
        assert(k.contains(s[i]));
        let j = choose|j: int| 0 <= j < k.len() && k[j] == s[i];
        assert(k[j] == ((f[j]@, 0int), f[j]));
        entries.lemma_filter_pred(pred, j);
        assert(f.contains(f[j]));
        entries.lemma_filter_contains_rev(pred, f[j]);
    }
    assert forall|i: int| 0 <= i < p.len() implies is_image_path((#[trigger] p[i])@)
        && entries.contains(p[i]) by {
        assert(p[i] == s[i].1);
    }
    assert forall|i: int, j: int| 0 <= i < j < p.len() implies seq_lt(
        (#[trigger] p[i])@,
        (#[trigger] p[j])@,
    ) || p[i]@ == p[j]@ by {
        assert(p[i] == s[i].1 && p[j] == s[j].1);
        assert(key_le(s[i].0, s[j].0));
    }
}

} // verus!
