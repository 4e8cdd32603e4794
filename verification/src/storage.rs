//! What the storage layer computes besides running queries: the SQL text
//! of the queries built from values, the bookkeeping of the per-file
//! lists of users (bookmarks and read status), and the records built for
//! new libraries.

use vstd::prelude::*;
use crate::model::{FileInfo, Library};
use crate::text::{
    decimal, i64_to_string, join, join_with, owned, replace, replace_str, split, split_on,
    trim_end, trim_end_char,
};

verus! {

// ---------------------------------------------------------------------
// Query text
// ---------------------------------------------------------------------

/// The filter of a lookup by name, else by id, else none; the value is
/// written as an SQL string literal, its quotes doubled.
pub open spec fn where_clause_text(name: Option<Seq<char>>, id: Option<Seq<char>>) -> Seq<char> {
    match name {
        Some(n) => "WHERE name = '"@ + sql_quoted(n) + "'"@,
        None => match id {
            Some(i) => "WHERE id = '"@ + sql_quoted(i) + "'"@,
            None => Seq::<char>::empty(),
        },
    }
}

/// Writes the filter of a lookup by name, else by id, else none.
pub fn where_clause(name: Option<&str>, id: Option<&str>) -> (r: String)
    ensures
        r@ == where_clause_text(crate::html::opt_view(name), crate::html::opt_view(id)),
{
    let mut r = String::new();
    match name {
        Some(n) => {
            r.append("WHERE name = '");
            r.append(replace_str(n, "'", "''").as_str());
            r.append("'");
        },
        None => match id {
            Some(i) => {
                r.append("WHERE id = '");
                r.append(replace_str(i, "'", "''").as_str());
                r.append("'");
            },
            None => {},
        },
    }
    r
}

/// The query of the libraries, all of them or the one named or numbered.
pub open spec fn library_query_text(name: Option<Seq<char>>, id: Option<Seq<char>>) -> Seq<char> {
    "SELECT * FROM core "@ + where_clause_text(name, id) + ";"@
}

/// Writes the query of the libraries.
pub fn library_query(name: Option<&str>, id: Option<&str>) -> (r: String)
    ensures
        r@ == library_query_text(crate::html::opt_view(name), crate::html::opt_view(id)),
{
    let mut r = String::new();
    r.append("SELECT * FROM core ");
    r.append(where_clause(name, id).as_str());
    r.append(";");
    r
}

/// The query of the users, all of them or the one named or numbered.
pub open spec fn user_query_text(name: Option<Seq<char>>, id: Option<Seq<char>>) -> Seq<char> {
    "SELECT * FROM users "@ + where_clause_text(name, id) + ";"@
}

/// Writes the query of the users.
pub fn user_query(name: Option<&str>, id: Option<&str>) -> (r: String)
    ensures
        r@ == user_query_text(crate::html::opt_view(name), crate::html::opt_view(id)),
{
    let mut r = String::new();
    r.append("SELECT * FROM users ");
    r.append(where_clause(name, id).as_str());
    r.append(";");
    r
}

/// The query of the files whose bookmark list has `user_id` as one whole
/// entry: the list, with a comma put before and after it, holds the id
/// between two commas.
pub open spec fn bookmarks_query_text(user_id: int) -> Seq<char> {
    "SELECT * FROM files WHERE ',' || bookmarked_by || ',' LIKE '%,"@ + decimal(user_id)
        + ",%';"@
}

/// Writes the query of a user's bookmarked files.
pub fn bookmarks_query(user_id: i64) -> (r: String)
    ensures
        r@ == bookmarks_query_text(user_id as int),
{
    let mut r = String::new();
    r.append("SELECT * FROM files WHERE ',' || bookmarked_by || ',' LIKE '%,");
    r.append(i64_to_string(user_id).as_str());
    r.append(",%';");
    r
}

/// The query of the number of files stored under a directory path (bound
/// to the path).
pub const DIRECTORY_FILE_COUNT_QUERY: &'static str = "SELECT count(*) FROM files WHERE instr(parent_path, ?) > 0;";

/// The update of a directory's file count (bound to the count, then the
/// directory's id).
pub const SET_DIRECTORY_FILE_COUNT_QUERY: &'static str = "UPDATE directories SET file_count = ? WHERE id = ?;";

/// The query of the files that still need their cover and page count
/// (bound to the most files taken in one round).
pub const FILES_TO_SCAN_QUERY: &'static str = "SELECT * FROM files WHERE scan_me = '1' LIMIT ?;";

/// The query of the rows of `table` whose name or parent path holds `q`;
/// the words are written inside SQL string literals, quotes doubled.
pub open spec fn search_query_text(table: Seq<char>, q: Seq<char>) -> Seq<char> {
    "SELECT * FROM "@ + table + " WHERE name LIKE '%"@ + sql_quoted(q) + "%' OR parent_path LIKE '%"@
        + sql_quoted(q) + "%';"@
}

fn search_query(table: &str, q: &str) -> (r: String)
    ensures
        r@ == search_query_text(table@, q@),
{
    let quoted = replace_str(q, "'", "''");
    let mut r = String::new();
    r.append("SELECT * FROM ");
    r.append(table);
    r.append(" WHERE name LIKE '%");
    r.append(quoted.as_str());
    r.append("%' OR parent_path LIKE '%");
    r.append(quoted.as_str());
    r.append("%';");
    r
}

/// Writes the query of the files whose name or parent path holds `q`.
pub fn search_files_query(q: &str) -> (r: String)
    ensures
        r@ == search_query_text("files"@, q@),
{
    search_query("files", q)
}

/// Writes the query of the directories whose name or parent path holds `q`.
pub fn search_directories_query(q: &str) -> (r: String)
    ensures
        r@ == search_query_text("directories"@, q@),
{
    search_query("directories", q)
}

/// `s` with each `'` doubled, as SQL string literals need.
pub open spec fn sql_quoted(s: Seq<char>) -> Seq<char> {
    replace(s, "'"@, "''"@)
}

/// The query of the files of the directory `directory_name` of
/// `parent_path`.
pub open spec fn files_from_directory_query_text(
    parent_path: Seq<char>,
    directory_name: Seq<char>,
) -> Seq<char> {
    "SELECT * FROM files WHERE parent_path = '"@ + sql_quoted(parent_path) + "/"@ + sql_quoted(
        directory_name,
    ) + "'"@
}

/// Writes the query of the files of a directory.
pub fn files_from_directory_query(parent_path: &str, directory_name: &str) -> (r: String)
    ensures
        r@ == files_from_directory_query_text(parent_path@, directory_name@),
{
    let mut r = String::new();
    r.append("SELECT * FROM files WHERE parent_path = '");
    r.append(replace_str(parent_path, "'", "''").as_str());
    r.append("/");
    r.append(replace_str(directory_name, "'", "''").as_str());
    r.append("'");
    r
}

/// The path of `name` in the directory `parent`.
pub open spec fn full_path_text(parent: Seq<char>, name: Seq<char>) -> Seq<char> {
    parent + "/"@ + name
}

/// Writes the path of `name` in the directory `parent`.
pub fn full_path(parent: &str, name: &str) -> (r: String)
    ensures
        r@ == full_path_text(parent@, name@),
{
    let mut r = String::new();
    r.append(parent);
    r.append("/");
    r.append(name);
    r
}

// ---------------------------------------------------------------------
// Libraries
// ---------------------------------------------------------------------

/// The name of a library: the last component of its path.
pub open spec fn library_name_text(path: Seq<char>) -> Seq<char> {
    split(trim_end(path, '/'), '/').last()
}

/// Writes the name of a library from its path.
pub fn library_name_from_path(path: &str) -> (r: String)
    ensures
        r@ == library_name_text(path@),
{
    let trimmed = trim_end_char(path, '/');
    let mut parts = split_on(trimmed.as_str(), '/');
    proof {
        crate::text::lemma_split_not_empty(trimmed@, '/');
    }
    let ghost all = parts.deep_view();
    let last = parts.pop().unwrap();
    assert(last@ == all.last());
    last
}

/// The record registered for a library path: named after its last
/// component, never scanned yet.
pub fn library_from_path(path: &str) -> (l: Library)
    ensures
        l.id == 0,
        l.name@ == library_name_text(path@),
        l.path@ == path@,
        l.last_successfull_scan_date == 0,
        l.last_successfull_extract_date == 0,
        l.file_count == 0,
{
    Library {
        id: 0,
        name: library_name_from_path(path),
        path: owned(path),
        last_successfull_scan_date: 0,
        last_successfull_extract_date: 0,
        file_count: 0,
    }
}

/// The seconds of the last successful scan: 0 when none was recorded.
pub fn last_scan_seconds(recorded: Option<i64>) -> (secs: u64)
    requires
        recorded matches Some(d) ==> d >= 0,
    ensures
        secs == match recorded {
            Some(d) => d as int,
            None => 0,
        },
{
    match recorded {
        Some(d) => d as u64,
        None => 0,
    }
}

/// The parent path and the name that a file path inside a library is
/// looked up by: the directories of `file_path` each followed by `/`,
/// after `library_name`, less the last character; and the last
/// component.
pub open spec fn path_lookup_text(file_path: Seq<char>, library_name: Seq<char>) -> (
    Seq<char>,
    Seq<char>,
) {
    let parts = split(file_path, '/');
    let joined = library_name + crate::pages::crumb_path(parts.drop_last());
    (
        if joined.len() > 0 {
            joined.drop_last()
        } else {
            joined
        },
        parts.last(),
    )
}

/// Writes the parent path and the name that a file path is looked up by.
pub fn path_lookup(file_path: &str, library_name: &str) -> (r: (String, String))
    ensures
        (r.0@, r.1@) == path_lookup_text(file_path@, library_name@),
{
    let mut parts = split_on(file_path, '/');
    proof {
        crate::text::lemma_split_not_empty(file_path@, '/');
    }
    let ghost all = parts.deep_view();
    let file_name = parts.pop().unwrap();
    assert(parts.deep_view() =~= all.drop_last());
    let mut parent = owned(library_name);
    let mut i: usize = 0;
    while i < parts.len()
        invariant
            i <= parts@.len(),
            parent@ == library_name@ + crate::pages::crumb_path(parts.deep_view().take(i as int)),
        decreases parts@.len() - i,
    {
        assert(parts.deep_view().take(i as int + 1).drop_last() =~= parts.deep_view().take(
            i as int,
        ));
        parent.append(parts[i].as_str());
        parent.append("/");
        i = i + 1;
    }
    assert(parts.deep_view().take(parts@.len() as int) =~= parts.deep_view());
    let chars = crate::text::chars_of(parent.as_str());
    let trimmed = if chars.len() > 0 {
        crate::text::string_of_range(&chars, 0, chars.len() - 1)
    } else {
        parent
    };
    proof {
        if chars@.len() > 0 {
            assert(chars@.subrange(0, chars@.len() - 1) =~= chars@.drop_last());
        }
    }
    (trimmed, file_name)
}

// ---------------------------------------------------------------------
// Bookmarks and read status
// ---------------------------------------------------------------------

/// The queries that read and write one kind of flag (`bookmark` or
/// `read_status`): the column, the select and the update. Other names
/// get empty queries, which the storage refuses.
pub open spec fn flag_queries_text(flag: Seq<char>) -> (Seq<char>, Seq<char>, Seq<char>) {
    if flag == "bookmark"@ {
        (
            "bookmarked_by"@,
            "SELECT bookmarked_by FROM files WHERE id = ?;"@,
            "UPDATE files SET bookmarked_by = ? WHERE id = ?;"@,
        )
    } else if flag == "read_status"@ {
        (
            "read_by"@,
            "SELECT read_by FROM files WHERE id = ?;"@,
            "UPDATE files SET read_by = ? WHERE id = ?;"@,
        )
    } else {
        (Seq::<char>::empty(), Seq::<char>::empty(), Seq::<char>::empty())
    }
}

/// The column, select and update queries of a kind of flag.
pub fn flag_queries(flag: &str) -> (r: (String, String, String))
    ensures
        (r.0@, r.1@, r.2@) == flag_queries_text(flag@),
{
    if crate::text::str_eq(flag, "bookmark") {
        (
            owned("bookmarked_by"),
            owned("SELECT bookmarked_by FROM files WHERE id = ?;"),
            owned("UPDATE files SET bookmarked_by = ? WHERE id = ?;"),
        )
    } else if crate::text::str_eq(flag, "read_status") {
        (
            owned("read_by"),
            owned("SELECT read_by FROM files WHERE id = ?;"),
            owned("UPDATE files SET read_by = ? WHERE id = ?;"),
        )
    } else {
        (String::new(), String::new(), String::new())
    }
}

/// The entries of a comma-separated list of user ids other than `id`,
/// in order.
pub open spec fn without_entry(parts: Seq<Seq<char>>, id: Seq<char>) -> Seq<Seq<char>> {
    parts.filter(other_than(id))
}

/// Whether an entry is other than `id`.
pub open spec fn other_than(id: Seq<char>) -> spec_fn(Seq<char>) -> bool {
    |e: Seq<char>| e != id
}

/// Whether a user is in a comma-separated list of user ids: its id is
/// one whole entry of the list.
pub open spec fn listed(list: Seq<char>, user_id: int) -> bool {
    split(list, ',').contains(decimal(user_id))
}

/// The list after toggling a user: the user's id appended when it is not
/// an entry (the id alone for an empty list), else every entry that is
/// the user's id removed.
pub open spec fn toggled_list(list: Seq<char>, user_id: int) -> Seq<char> {
    let id = decimal(user_id);
    let parts = split(list, ',');
    if !parts.contains(id) {
        if list.len() == 0 {
            id
        } else {
            join(parts.push(id), ","@)
        }
    } else {
        join(without_entry(parts, id), ","@)
    }
}

/// Adds a user to a comma-separated list of user ids, or removes it: the
/// list and whether the user was added (it was not listed) or removed
/// (it was).
pub fn toggle_user(list: &str, user_id: i64) -> (r: (String, bool))
    ensures
        r.1 == !listed(list@, user_id as int),
        r.0@ == toggled_list(list@, user_id as int),
{
    let id = i64_to_string(user_id);
    proof {
        crate::text::lemma_decimal_has_no_comma(user_id as int);
    }
    if list.unicode_len() == 0 {
        proof {
            assert(split(list@, ',') =~= seq![Seq::<char>::empty()]);
            if split(list@, ',').contains(id@) {
                assert(id@ =~= Seq::<char>::empty());
            }
        }
        return (id, true);
    }
    let parts = split_on(list, ',');
    let ghost pred = other_than(id@);
    let mut kept: Vec<String> = Vec::new();
    let mut found = false;
    let mut i: usize = 0;
    while i < parts.len()
        invariant
            i <= parts@.len(),
            pred == other_than(id@),
            kept.deep_view() == parts.deep_view().take(i as int).filter(pred),
            found == parts.deep_view().take(i as int).contains(id@),
        decreases parts@.len() - i,
    {
        reveal_with_fuel(Seq::<_>::filter, 1);
        let ghost before = parts.deep_view().take(i as int);
        assert(parts.deep_view().take(i as int + 1).drop_last() =~= before);
        assert(parts.deep_view().take(i as int + 1) =~= before.push(parts@[i as int]@));
        let ghost next = parts.deep_view().take(i as int + 1);
        if crate::text::str_eq(parts[i].as_str(), id.as_str()) {
            assert(next[i as int] == id@);
            found = true;
        } else {
            let e = parts[i].clone();
            kept.push(e);
            assert(kept.deep_view() =~= before.filter(pred).push(parts@[i as int]@));
            assert(next.contains(id@) == before.contains(id@)) by {
                if next.contains(id@) {
                    let k = choose|k: int| 0 <= k < next.len() && next[k] == id@;
                    assert(k < i && before[k] == id@);
                }
                if before.contains(id@) {
                    let k = choose|k: int| 0 <= k < before.len() && before[k] == id@;
                    assert(next[k] == id@);
                }
            }
        }
        i = i + 1;
    }
    assert(parts.deep_view().take(parts@.len() as int) =~= parts.deep_view());
    if found {
        (join_with(&kept, ","), false)
    } else {
        let mut all = parts;
        let ghost before = all.deep_view();
        let ghost idv = id@;
        all.push(id);
        assert(all.deep_view() =~= before.push(idv));
        (join_with(&all, ","), true)
    }
}

/// Whether a user is in a comma-separated list of user ids.
pub fn user_in_list(list: &str, user_id: i64) -> (r: bool)
    ensures
        r == listed(list@, user_id as int),
{
    let id = i64_to_string(user_id);
    let parts = split_on(list, ',');
    let mut i: usize = 0;
    while i < parts.len()
        invariant
            i <= parts@.len(),
            parts.deep_view() == split(list@, ','),
            id@ == decimal(user_id as int),
            forall|k: int| 0 <= k < i ==> parts.deep_view()[k] != id@,
        decreases parts@.len() - i,
    {
        if crate::text::str_eq(parts[i].as_str(), id.as_str()) {
            assert(parts.deep_view()[i as int] == id@);
            assert(parts.deep_view().contains(id@));
            return true;
        }
        i = i + 1;
    }
    proof {
        if parts.deep_view().contains(id@) {
            let k = choose|k: int| 0 <= k < parts.deep_view().len() && parts.deep_view()[k] == id@;
        }
    }
    false
}


// ---------------------------------------------------------------------
// Record ids
// ---------------------------------------------------------------------

/// `ulid::Ulid::new().to_string()`: a fresh id made from the clock and a
/// random number. Claimed: it has 26 characters (`ULID_LEN`, the length
/// of the crate's base32 writing); nothing else, as it rests on the time
/// and on chance.
#[verifier::external_body]
fn fresh_ulid() -> (id: String)
    ensures
        id@.len() == 26,
{
    ulid::Ulid::new().to_string()
}

/// The id under which a record is stored: the one it is stored again
/// under, else a fresh one.
pub fn record_id(ulid: Option<&str>) -> (id: String)
    ensures
        ulid matches Some(u) ==> id@ == u@,
        ulid is None ==> id@.len() == 26,
{
    match ulid {
        Some(u) => owned(u),
        None => fresh_ulid(),
    }
}

/// A file as it is stored: the record found by the scan under the id of
/// `record_id`, all other fields kept.
pub fn with_record_id(file: FileInfo, ulid: Option<&str>) -> (f: FileInfo)
    ensures
        f == (FileInfo { id: f.id, ..file }),
        ulid matches Some(u) ==> f.id@ == u@,
        ulid is None ==> f.id@.len() == 26,
{
    let mut f = file;
    f.id = record_id(ulid);
    f
}

} // verus!
