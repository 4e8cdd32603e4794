//! What the request handlers decide: how a request path or form body is
//! read, which listing a request shows, what a reader request does, which
//! cover or content type is sent, and what the administration forms change.
//! The handlers themselves, which talk to the storage and the network,
//! call these.

use vstd::prelude::*;
use crate::model::{DirectoryInfo, FileInfo, Format, Library, Role, User};
use crate::pages::{opt_string, simple_message, simple_message_html, LibraryDisplay};
use crate::sort::{
    sort_directories, sort_flagged, sort_flagged_by_name, sorted_directories, sorted_flagged,
    sorted_flagged_by_name,
};
use crate::text::{decimal, owned, replace, split, trim_end, trim_start};

verus! {

// ---------------------------------------------------------------------
// Fixed answers
// ---------------------------------------------------------------------

/// The answer to a request that needs a login or a role the user lacks.
pub open spec fn unauthorized_text() -> Seq<char> {
    "You are not allowed to see this page"@
}

/// The answer to a request that needs a login or a role the user lacks.
pub fn unauthorized_response() -> (s: String)
    ensures
        s@ == unauthorized_text(),
{
    owned("You are not allowed to see this page")
}

/// The answer to a login whose name or password is wrong.
pub fn authent_error() -> (s: String)
    ensures
        s@ == "Autentication error"@,
{
    owned("Autentication error")
}

/// The page of a request that failed on the server's side.
pub fn error_handler() -> (page: String)
    ensures
        page@ == simple_message_html("server error, please see logs"@, None),
{
    simple_message("server error, please see logs", None)
}

/// Whether a user may use the administration pages and forms.
pub fn may_administer(user: &User) -> (r: bool)
    ensures
        r == (user.role == Role::Admin),
{
    match user.role {
        Role::Admin => true,
        Role::User => false,
    }
}

/// The requests of the administration pages and forms.
#[derive(PartialEq, Eq, Structural)]
pub enum AdminRequest {
    /// The administration page.
    Panel,
    /// The form of a library (delete, rescan, covers).
    LibraryForm,
    /// The form that adds a library.
    NewLibrary,
    /// The form that creates a user.
    NewUser,
    /// The form that changes a user.
    ChangeUser,
}

/// The answer that refuses an administration request to a user who is
/// not an administrator, none for an administrator.
pub open spec fn admin_refusal_of(role: Role, request: AdminRequest) -> Option<Seq<char>> {
    if role == Role::Admin {
        None
    } else {
        match request {
            AdminRequest::NewUser => Some(
                simple_message_html("your are not allowed to create users"@, Some("/"@)),
            ),
            AdminRequest::ChangeUser => Some(
                simple_message_html("your are not allowed to modify users"@, Some("/"@)),
            ),
            _ => Some(unauthorized_text()),
        }
    }
}

/// Decides whether an administration request is refused, and with which
/// answer.
pub fn admin_refusal(user: &User, request: AdminRequest) -> (r: Option<String>)
    ensures
        opt_string(r) == admin_refusal_of(user.role, request),
{
    if may_administer(user) {
        None
    } else {
        match request {
            AdminRequest::NewUser => Some(
                simple_message("your are not allowed to create users", Some("/")),
            ),
            AdminRequest::ChangeUser => Some(
                simple_message("your are not allowed to modify users", Some("/")),
            ),
            _ => Some(unauthorized_response()),
        }
    }
}

/// What the root of the site answers.
pub enum RootPage {
    /// A signed-in user is sent on to the library listing.
    Library,
    /// Anyone else gets the login page.
    Login(String),
}

/// The answer of the root of the site: the library for a signed-in user,
/// else the login page.
pub fn root_page(signed_in: bool) -> (r: RootPage)
    ensures
        signed_in ==> r is Library,
        !signed_in ==> (r matches RootPage::Login(p) && p@ == crate::pages::login_form_html()),
{
    if signed_in {
        RootPage::Library
    } else {
        RootPage::Login(crate::pages::login_form())
    }
}

// ---------------------------------------------------------------------
// Listings
// ---------------------------------------------------------------------

/// `(name, end)` cuts `path` at its first `/`: `name` holds no `/`, and
/// `end` is empty or starts with that `/`.
pub open spec fn cut_at_first_slash(path: Seq<char>, name: Seq<char>, end: Seq<char>) -> bool {
    &&& name + end == path
    &&& !name.contains('/')
    &&& (end.len() == 0 || end[0] == '/')
}

/// What a request under `/library` asks for.
pub enum LibraryRequest {
    /// `/library`: the list of the libraries.
    Libraries,
    /// `/library/{path}`: a directory of a library. `sub_path` is `/`
    /// followed by the path, `library_name` its first component and
    /// `path_end` the rest of it from the `/` that follows.
    Directory { sub_path: String, library_name: String, path_end: String },
}

/// Reads the path of a request under `/library`.
pub fn library_request(path: Option<&str>) -> (r: LibraryRequest)
    ensures
        path is None ==> r is Libraries,
        path matches Some(p) ==> (r matches LibraryRequest::Directory {
            sub_path,
            library_name,
            path_end,
        } && sub_path@ == "/"@ + p@ && cut_at_first_slash(p@, library_name@, path_end@)),
{
    match path {
        None => LibraryRequest::Libraries,
        Some(p) => {
            let v = crate::text::chars_of(p);
            let mut i: usize = 0;
            while i < v.len() && v[i] != '/'
                invariant
                    i <= v@.len(),
                    forall|k: int| 0 <= k < i ==> v@[k] != '/',
                decreases v@.len() - i,
            {
                i = i + 1;
            }
            let name = crate::text::string_of_range(&v, 0, i);
            let end = crate::text::string_of_range(&v, i, v.len());
            assert(name@ + end@ =~= p@);
            assert(!name@.contains('/')) by {
                if name@.contains('/') {
                    let k = choose|k: int| 0 <= k < name@.len() && name@[k] == '/';
                    assert(v@[k] == '/');
                }
            }
            LibraryRequest::Directory {
                sub_path: crate::text::concat2("/", p),
                library_name: name,
                path_end: end,
            }
        },
    }
}

/// What a directory listing is read from when the library is unknown.
pub open spec fn missing_library_text() -> Seq<char> {
    "an empty library path should not happen, you should force a full rescan"@
}

/// The stored parent path of the directory asked for: the library's path
/// followed by the rest of the request path.
pub open spec fn query_parent_path_of(library: Option<Library>, path_end: Seq<char>) -> Seq<char> {
    match library {
        Some(l) => l.path@ + path_end,
        None => missing_library_text(),
    }
}

/// The stored parent path of the directory asked for.
pub fn query_parent_path(library: Option<&Library>, path_end: &str) -> (r: String)
    ensures
        r@ == query_parent_path_of(
            match library {
                Some(l) => Some(*l),
                None => None,
            },
            path_end@,
        ),
{
    match library {
        Some(l) => crate::text::concat2(l.path.as_str(), path_end),
        None => owned("an empty library path should not happen, you should force a full rescan"),
    }
}

/// The listing of a directory of a library: its sub-directories by name,
/// its files by name then flags, the library's id (0 when unknown), the
/// stored path and the request path.
pub fn directory_listing(
    user: User,
    library: Option<Library>,
    sub_path: String,
    parent_path: String,
    files: Vec<(FileInfo, bool, bool)>,
    directories: Vec<DirectoryInfo>,
) -> (d: LibraryDisplay)
    ensures
        d.user == user,
        d.directories_list@ == sorted_directories(directories@),
        d.files_list@ == sorted_flagged(files@),
        d.library_id == Some(
            match library {
                Some(l) => l.id,
                None => 0i64,
            },
        ),
        d.library_path == parent_path,
        d.current_path == Some(sub_path),
        d.search_query is None,
{
    let id: i64 = match &library {
        Some(l) => l.id,
        None => 0,
    };
    LibraryDisplay {
        user,
        directories_list: sort_directories(directories),
        files_list: sort_flagged(files),
        library_id: Some(id),
        library_path: parent_path,
        current_path: Some(sub_path),
        search_query: None,
    }
}

/// A library shown as a directory of the list of libraries.
pub open spec fn directory_of_library(d: DirectoryInfo, l: Library) -> bool {
    &&& d.id@ == decimal(l.id as int)
    &&& d.name@ == trim_start(l.name@, '/')
    &&& d.parent_path@.len() == 0
    &&& d.file_count == Some(l.file_count)
}

/// `ds` shows the libraries `ls`, one for one.
pub open spec fn directories_of_libraries(ds: Seq<DirectoryInfo>, ls: Seq<Library>) -> bool {
    &&& ds.len() == ls.len()
    &&& forall|i: int| 0 <= i < ls.len() ==> directory_of_library(#[trigger] ds[i], ls[i])
}

/// A library as an entry of the list of libraries: its id, its name
/// without leading `/`, no parent, its file count.
pub fn library_as_directory(l: &Library) -> (d: DirectoryInfo)
    ensures
        directory_of_library(d, *l),
{
    DirectoryInfo {
        id: crate::text::i64_to_string(l.id),
        name: crate::text::trim_start_char(l.name.as_str(), '/'),
        parent_path: String::new(),
        file_count: Some(l.file_count),
    }
}

/// The list of the libraries, shown as directories in the order of their
/// names, at the root `/` of the listings.
pub fn libraries_listing(user: User, libraries: Vec<Library>) -> (d: LibraryDisplay)
    ensures
        d.user == user,
        exists|ds: Seq<DirectoryInfo>|
            directories_of_libraries(ds, libraries@) && d.directories_list@ == sorted_directories(
                ds,
            ),
        d.files_list@.len() == 0,
        d.library_id is None,
        d.library_path@ == "/"@,
        d.current_path matches Some(p) && p@.len() == 0,
        d.search_query is None,
{
    let mut dirs: Vec<DirectoryInfo> = Vec::new();
    let mut i: usize = 0;
    while i < libraries.len()
        invariant
            i <= libraries@.len(),
            directories_of_libraries(dirs@, libraries@.take(i as int)),
        decreases libraries@.len() - i,
    {
        let d = library_as_directory(&libraries[i]);
        dirs.push(d);
        i = i + 1;
        assert(directories_of_libraries(dirs@, libraries@.take(i as int)));
    }
    assert(libraries@.take(libraries@.len() as int) =~= libraries@);
    let ghost ds = dirs@;
    LibraryDisplay {
        user,
        directories_list: sort_directories(dirs),
        files_list: Vec::new(),
        library_id: None,
        library_path: owned("/"),
        current_path: Some(String::new()),
        search_query: None,
    }
}

/// A listing of files found for a user (reading list, bookmarks, search
/// results): the files in the order of their names, the directories in
/// the order of theirs, under the path of the library given (empty when
/// none; a search needs a library), with the search words when there are
/// some.
pub fn found_listing(
    user: User,
    files: Vec<(FileInfo, bool, bool)>,
    directories: Vec<DirectoryInfo>,
    library: Option<&Library>,
    search_query: Option<String>,
) -> (d: LibraryDisplay)
    requires
        search_query is Some ==> library is Some,
    ensures
        d.user == user,
        d.directories_list@ == sorted_directories(directories@),
        d.files_list@ == sorted_flagged_by_name(files@),
        d.library_id is None,
        d.library_path@ == (match library {
            Some(l) => l.path@,
            None => Seq::<char>::empty(),
        }),
        d.current_path is None,
        d.search_query == search_query,
{
    let path = match library {
        Some(l) => l.path.clone(),
        None => String::new(),
    };
    LibraryDisplay {
        user,
        directories_list: sort_directories(directories),
        files_list: sort_flagged_by_name(files),
        library_id: None,
        library_path: path,
        current_path: None,
        search_query,
    }
}

/// The words searched for, from a search form body `query=words`: the
/// body after `query=`, with `+` read as a space.
pub open spec fn search_terms_of(body: Seq<char>) -> Seq<char> {
    replace(body.skip(6), "+"@, " "@)
}

/// Reads the words of a search form body.
pub fn search_terms(body: &str) -> (q: String)
    requires
        crate::text::occurs_at(body@, "query="@, 0),
    ensures
        q@ == search_terms_of(body@),
{
    proof {
        reveal_strlit("query=");
    }
    let rest = match crate::text::strip_prefix_str(body, "query=") {
        Some(r) => r,
        None => String::new(),
    };
    crate::text::replace_str(rest.as_str(), "+", " ")
}

/// Where the page of a file leads back to: its stored parent path with
/// the library's path replaced by the library's listing.
pub open spec fn up_link_of(
    parent_path: Seq<char>,
    library_path: Seq<char>,
    library_name: Seq<char>,
) -> Seq<char> {
    replace(parent_path, library_path, "/library/"@ + library_name)
}

/// The link from the page of a file back to its directory.
pub fn infos_up_link(parent_path: &str, library_path: &str, library_name: &str) -> (r: String)
    ensures
        r@ == up_link_of(parent_path@, library_path@, library_name@),
{
    let target = crate::text::concat2("/library/", library_name);
    crate::text::replace_str(parent_path, library_path, target.as_str())
}


// ---------------------------------------------------------------------
// Reading
// ---------------------------------------------------------------------

/// The page a reader request shows: the page asked for, or the last page
/// when it asks for more.
pub open spec fn reading_page(page: int, total_pages: int) -> int {
    if page > total_pages - 1 {
        total_pages - 1
    } else {
        page
    }
}

/// The page a reader request shows, and whether it is the last page (the
/// book is then finished: it leaves the reading list and is marked read).
pub fn reading_position(page: i32, total_pages: i32) -> (r: (i32, bool))
    requires
        total_pages > i32::MIN,
    ensures
        r.0 == reading_page(page as int, total_pages as int),
        r.1 == (r.0 == total_pages - 1),
{
    let last = total_pages - 1;
    let shown = if page > last {
        last
    } else {
        page
    };
    (shown, shown == last)
}

/// Whether a reader request marks its book read: when it shows the last
/// page and the book is not read yet. Marking toggles the read list, so a
/// book already read is left as it is and stays read.
pub open spec fn marks_read(page: int, total_pages: int, already_read: bool) -> bool {
    reading_page(page, total_pages) == total_pages - 1 && !already_read
}

/// Whether the reader request for `page` of a book of `total_pages` pages
/// marks the book read, given whether the user has read it already.
pub fn mark_read_needed(page: i32, total_pages: i32, already_read: bool) -> (r: bool)
    requires
        total_pages > i32::MIN,
    ensures
        r == marks_read(page as int, total_pages as int, already_read),
{
    let (_shown, finished) = reading_position(page, total_pages);
    finished && !already_read
}

/// The read list of a book after a reader request for `page`: toggled
/// (which adds the user) when the request marks the book read, else as
/// it was.
pub open spec fn read_list_after_request(
    list: Seq<char>,
    user_id: int,
    page: int,
    total_pages: int,
) -> Seq<char> {
    if marks_read(page, total_pages, crate::storage::listed(list, user_id)) {
        crate::storage::toggled_list(list, user_id)
    } else {
        list
    }
}

/// How a book is read in the browser.
#[derive(PartialEq, Eq, Structural)]
pub enum ReaderKind {
    /// The chapters of an epub in a page.
    Ebook,
    /// The PDF file itself.
    Pdf,
    /// The pages of a comic archive, one image at a time.
    Comic,
    /// No reader yet.
    Unsupported,
}

/// The reader of a format: epub books in the ebook reader, PDF files as
/// they are, cbz and cbr archives in the comic reader; nothing else has a
/// reader yet.
pub open spec fn reader_kind_of(format: Format) -> ReaderKind {
    match format {
        Format::Epub => ReaderKind::Ebook,
        Format::Pdf => ReaderKind::Pdf,
        Format::Cbr | Format::Cbz => ReaderKind::Comic,
        _ => ReaderKind::Unsupported,
    }
}

/// Chooses the reader of a file's format.
pub fn reader_kind(format: Format) -> (k: ReaderKind)
    ensures
        k == reader_kind_of(format),
{
    match format {
        Format::Epub => ReaderKind::Ebook,
        Format::Pdf => ReaderKind::Pdf,
        Format::Cbr => ReaderKind::Comic,
        Format::Cbz => ReaderKind::Comic,
        _ => ReaderKind::Unsupported,
    }
}

/// The page of a format that has no reader.
pub fn unsupported_reader() -> (page: String)
    ensures
        page@ == simple_message_html("no yet supported"@, None),
{
    simple_message("no yet supported", None)
}

/// The page of a comic page that could not be made: a message that sends
/// the browser back to the reader of the file.
pub fn comic_page_error(file_id: &str) -> (page: String)
    ensures
        page@ == simple_message_html("unable to get image"@, Some("/reader/"@ + file_id@)),
{
    let origin = crate::text::concat2("/reader/", file_id);
    simple_message("unable to get image", Some(origin.as_str()))
}

/// The text of an epub shown by the ebook reader: a head with the page,
/// the file and the title, then each chapter with its number, the id of
/// the current resource and its content.
pub open spec fn epub_head(
    page: int,
    total_pages: int,
    parent_path: Seq<char>,
    name: Seq<char>,
    title: Seq<char>,
) -> Seq<char> {
    "page: "@ + decimal(page) + "/"@ + decimal(total_pages) + "<br />\n         fs path: "@
        + parent_path + "-"@ + name + "<br />\n         <h1>title: "@ + title
        + "</h1>\n        "@
}

/// One chapter of the epub text.
pub open spec fn epub_chapter(
    current: int,
    total_pages: int,
    resource_id: Seq<char>,
    content: Seq<char>,
) -> Seq<char> {
    "<h2>resource: "@ + decimal(current) + "/"@ + decimal(total_pages)
        + "</h2>\n             toto: "@ + resource_id + "<br />\n             content: "@
        + content + "<br />\n             <br /><br />\n            "@
}

/// The chapters of the epub text, in order.
pub open spec fn epub_chapters(
    chapters: Seq<(usize, String)>,
    total_pages: int,
    resource_id: Seq<char>,
) -> Seq<char>
    decreases chapters.len(),
{
    if chapters.len() == 0 {
        Seq::<char>::empty()
    } else {
        epub_chapters(chapters.drop_last(), total_pages, resource_id) + epub_chapter(
            chapters.last().0 as int,
            total_pages,
            resource_id,
            chapters.last().1@,
        )
    }
}

/// The epub text: the head, then every chapter. The title defaults to
/// `Book title not found` and the resource id to `toto`.
pub open spec fn epub_text(
    page: int,
    total_pages: int,
    parent_path: Seq<char>,
    name: Seq<char>,
    title: Option<Seq<char>>,
    resource_id: Option<Seq<char>>,
    chapters: Seq<(usize, String)>,
) -> Seq<char> {
    let t = match title {
        Some(t) => t,
        None => "Book title not found"@,
    };
    let id = match resource_id {
        Some(i) => i,
        None => "toto"@,
    };
    epub_head(page, total_pages, parent_path, name, t) + epub_chapters(chapters, total_pages, id)
}

/// Writes the epub text from what the book gave: its title and current
/// resource id if it has them, and its chapters with their numbers.
pub fn epub_reader_text(
    page: i32,
    total_pages: usize,
    file: &FileInfo,
    title: Option<String>,
    resource_id: Option<String>,
    chapters: &Vec<(usize, String)>,
) -> (text: String)
    ensures
        text@ == epub_text(
            page as int,
            total_pages as int,
            file.parent_path@,
            file.name@,
            opt_string(title),
            opt_string(resource_id),
            chapters@,
        ),
{
    let t = match title {
        Some(t) => t,
        None => owned("Book title not found"),
    };
    let id = match resource_id {
        Some(i) => i,
        None => owned("toto"),
    };
    let total = crate::text::usize_to_string(total_pages);
    let mut text = owned("page: ");
    text.append(crate::text::i32_to_string(page).as_str());
    text.append("/");
    text.append(total.as_str());
    text.append("<br />\n         fs path: ");
    text.append(file.parent_path.as_str());
    text.append("-");
    text.append(file.name.as_str());
    text.append("<br />\n         <h1>title: ");
    text.append(t.as_str());
    text.append("</h1>\n        ");
    let ghost head = text@;
    assert(head =~= epub_head(
        page as int,
        total_pages as int,
        file.parent_path@,
        file.name@,
        t@,
    ));
    let mut i: usize = 0;
    while i < chapters.len()
        invariant
            i <= chapters@.len(),
            total@ == decimal(total_pages as int),
            text@ == head + epub_chapters(chapters@.take(i as int), total_pages as int, id@),
        decreases chapters@.len() - i,
    {
        let ghost before = text@;
        text.append("<h2>resource: ");
        text.append(crate::text::usize_to_string(chapters[i].0).as_str());
        text.append("/");
        text.append(total.as_str());
        text.append("</h2>\n             toto: ");
        text.append(id.as_str());
        text.append("<br />\n             content: ");
        text.append(chapters[i].1.as_str());
        text.append("<br />\n             <br /><br />\n            ");
        assert(chapters@.take(i as int + 1).drop_last() =~= chapters@.take(i as int));
        assert(text@ =~= before + epub_chapter(
            chapters@[i as int].0 as int,
            total_pages as int,
            id@,
            chapters@[i as int].1@,
        ));
        i = i + 1;
    }
    assert(chapters@.take(chapters@.len() as int) =~= chapters@);
    text
}

// ---------------------------------------------------------------------
// Covers and downloads
// ---------------------------------------------------------------------

/// Whether files of a format can have a stored cover.
pub open spec fn cover_format(format: Format) -> bool {
    let n = crate::model::format_name(format);
    n == "epub"@ || n == "pdf"@ || n == "cbz"@ || n == "cbr"@ || n == "cb7"@
}

/// Whether the stored cover of a file is looked up.
pub fn cover_wanted(format: Format) -> (r: bool)
    ensures
        r == cover_format(format),
{
    let n = format.as_str();
    crate::text::str_eq(n, "epub") || crate::text::str_eq(n, "pdf") || crate::text::str_eq(
        n,
        "cbz",
    ) || crate::text::str_eq(n, "cbr") || crate::text::str_eq(n, "cb7")
}

/// The cover sent for a file.
pub enum CoverChoice {
    /// The cover stored for it, a JPEG.
    Stored(Vec<u8>),
    /// The default cover image.
    Default,
}

/// The stored cover sent for a file: the one found when its format has
/// covers and it is not empty.
pub open spec fn chosen_cover(format: Format, stored: Option<Vec<u8>>) -> Option<Seq<u8>> {
    match stored {
        Some(c) => if cover_format(format) && c@.len() > 0 {
            Some(c@)
        } else {
            None
        },
        None => None,
    }
}

/// Chooses the cover sent for a file from what the storage holds.
pub fn cover_choice(format: Format, stored: Option<Vec<u8>>) -> (r: CoverChoice)
    ensures
        match r {
            CoverChoice::Stored(c) => chosen_cover(format, stored) == Some(c@),
            CoverChoice::Default => chosen_cover(format, stored) is None,
        },
{
    let wanted = cover_wanted(format);
    match stored {
        Some(c) => if wanted && c.len() > 0 {
            CoverChoice::Stored(c)
        } else {
            CoverChoice::Default
        },
        None => CoverChoice::Default,
    }
}

/// The content type of a downloaded file of a format.
pub open spec fn download_type_of(format: Format) -> Seq<char> {
    match format {
        Format::Epub => "application/epub+zip"@,
        Format::Pdf => "application/pdf"@,
        Format::Cbz => "application/vnd.comicbook+zip"@,
        Format::Cbr => "application/vnd.comicbook-rar"@,
        _ => Seq::<char>::empty(),
    }
}

/// The content type of a downloaded file.
pub fn download_content_type(format: Format) -> (s: &'static str)
    ensures
        s@ == download_type_of(format),
{
    match format {
        Format::Epub => "application/epub+zip",
        Format::Pdf => "application/pdf",
        Format::Cbz => "application/vnd.comicbook+zip",
        Format::Cbr => "application/vnd.comicbook-rar",
        _ => {
            proof {
                reveal_strlit("");
            }
            ""
        },
    }
}

/// The disposition of a downloaded file: an attachment under its name.
pub fn download_disposition(name: &str) -> (s: String)
    ensures
        s@ == "attachment; filename=\""@ + name@ + "\""@,
{
    let mut s = owned("attachment; filename=\"");
    s.append(name);
    s.append("\"");
    s
}


// ---------------------------------------------------------------------
// Administration forms
// ---------------------------------------------------------------------

/// What `urlencoding::decode` gives for a text: the percent-decoded text,
/// or none when the decoded bytes are not UTF-8. A function of the text
/// alone.
pub uninterp spec fn url_decoded(s: Seq<char>) -> Option<Seq<char>>;

/// `urlencoding::decode`. Claimed: the result is the name `url_decoded`
/// of the text, and a text without `%` comes back unchanged (the source
/// borrows such a text as it is). `+` is kept as it is.
#[verifier::external_body]
fn url_decode(s: &str) -> (r: Option<String>)
    ensures
        opt_string(r) == url_decoded(s@),
        !s@.contains('%') ==> opt_string(r) == Some(s@),
{
    match urlencoding::decode(s) {
        Ok(d) => Some(d.into_owned()),
        Err(_) => None,
    }
}

/// The path of a new library, from the decoded form value: `+` read as a
/// space, trailing `/` removed; empty when the value did not decode.
pub open spec fn new_library_path_of(decoded: Option<Seq<char>>) -> Seq<char> {
    let d = match decoded {
        Some(d) => d,
        None => Seq::<char>::empty(),
    };
    trim_end(replace(d, "+"@, " "@), '/')
}

/// The path of a new library from the decoded form value.
pub fn library_path_from_decoded(decoded: Option<String>) -> (path: String)
    ensures
        path@ == new_library_path_of(opt_string(decoded)),
{
    let d = match decoded {
        Some(d) => d,
        None => String::new(),
    };
    let spaced = crate::text::replace_str(d.as_str(), "+", " ");
    crate::text::trim_end_char(spaced.as_str(), '/')
}

/// The value of a form body `name=value`: what follows its last `=`.
pub open spec fn form_value(body: Seq<char>) -> Seq<char> {
    split(body, '=').last()
}

/// The path of a new library from the body of the library form: its
/// value, percent-decoded, `+` read as a space, trailing `/` removed.
pub fn library_path_from_form(body: &str) -> (path: String)
    ensures
        path@ == new_library_path_of(url_decoded(form_value(body@))),
        !form_value(body@).contains('%') ==> path@ == new_library_path_of(
            Some(form_value(body@)),
        ),
{
    let mut parts = crate::text::split_on(body, '=');
    proof {
        crate::text::lemma_split_not_empty(body@, '=');
    }
    let ghost all = parts.deep_view();
    let value = match parts.pop() {
        Some(v) => v,
        None => String::new(),
    };
    assert(value@ == form_value(body@));
    library_path_from_decoded(url_decode(value.as_str()))
}

/// The page that confirms a new library.
pub fn new_library_message(path: &str) -> (page: String)
    ensures
        page@ == simple_message_html(
            "new library added, path :  "@ + path@ + "<br /><a href=\"/admin\">return</a>"@,
            Some("/admin"@),
        ),
{
    let mut msg = owned("new library added, path :  ");
    msg.append(path);
    msg.append("<br /><a href=\"/admin\">return</a>");
    simple_message(msg.as_str(), Some("/admin"))
}

/// What the form of a library asks for, by the name before its first `=`.
#[derive(PartialEq, Eq, Structural)]
pub enum AdminLibraryAction {
    Delete,
    FullRescan,
    Covers,
    Unknown,
}

/// The action of a library form body.
pub open spec fn admin_library_action_of(body: Seq<char>) -> AdminLibraryAction {
    let option = split(body, '=')[0];
    if option == "delete"@ {
        AdminLibraryAction::Delete
    } else if option == "full_rescan"@ {
        AdminLibraryAction::FullRescan
    } else if option == "covers"@ {
        AdminLibraryAction::Covers
    } else {
        AdminLibraryAction::Unknown
    }
}

/// Reads the action of a library form body.
pub fn admin_library_action(body: &str) -> (a: AdminLibraryAction)
    ensures
        a == admin_library_action_of(body@),
{
    let parts = crate::text::split_on(body, '=');
    proof {
        crate::text::lemma_split_not_empty(body@, '=');
    }
    let option = parts[0].as_str();
    assert(option@ == split(body@, '=')[0]);
    if crate::text::str_eq(option, "delete") {
        AdminLibraryAction::Delete
    } else if crate::text::str_eq(option, "full_rescan") {
        AdminLibraryAction::FullRescan
    } else if crate::text::str_eq(option, "covers") {
        AdminLibraryAction::Covers
    } else {
        AdminLibraryAction::Unknown
    }
}

/// The page that confirms the deletion of a library.
pub fn library_deleted_message(name: &str) -> (page: String)
    ensures
        page@ == simple_message_html("delete lib id = "@ + name@, Some("/admin"@)),
{
    let msg = crate::text::concat2("delete lib id = ", name);
    simple_message(msg.as_str(), Some("/admin"))
}

/// The page of a library form that names no known library.
pub fn library_missing_message() -> (page: String)
    ensures
        page@ == simple_message_html("unable to find library in database"@, Some("/admin"@)),
{
    simple_message("unable to find library in database", Some("/admin"))
}

/// The page that confirms the rescan of a library.
pub fn library_scanned_message(name: &str) -> (page: String)
    ensures
        page@ == simple_message_html(
            "library "@ + name@ + " scanned (<a href=\"/admin\">return to admin panel</a>)"@,
            Some("/admin"@),
        ),
{
    let mut msg = owned("library ");
    msg.append(name);
    msg.append(" scanned (<a href=\"/admin\">return to admin panel</a>)");
    simple_message(msg.as_str(), Some("/admin"))
}

/// The answer to the covers action of a library form, which does nothing
/// yet but say so.
pub fn library_covers_message(library_id: &str) -> (s: String)
    ensures
        s@ == "TODO : lib id = "@ + library_id@
            + ", covers flag toggle (<a href=\"/admin\">return to admin panel</a>)"@,
{
    let mut s = owned("TODO : lib id = ");
    s.append(library_id);
    s.append(", covers flag toggle (<a href=\"/admin\">return to admin panel</a>)");
    s
}

/// The role that the admin box of a user form gives: admin when checked
/// (`on`), else user.
pub open spec fn role_from_box(is_admin: Option<Seq<char>>) -> Role {
    if is_admin == Some("on"@) {
        Role::Admin
    } else {
        Role::User
    }
}

/// The record of a user created by the user form: no id yet, the name,
/// the password hash, and the role of the admin box.
pub fn new_user_record(name: String, password_hash: String, is_admin: Option<&str>) -> (u: User)
    ensures
        u.id == 0,
        u.name == name,
        u.password_hash == password_hash,
        u.role == role_from_box(crate::html::opt_view(is_admin)),
{
    let role = match is_admin {
        Some(b) => if crate::text::str_eq(b, "on") {
            Role::Admin
        } else {
            Role::User
        },
        None => Role::User,
    };
    User { id: 0, password_hash, name, role }
}

/// What the form that changes a user sends.
pub struct UserForm {
    pub password: String,
    pub is_admin: Option<String>,
    pub update: Option<String>,
    pub delete: Option<String>,
}

/// What the form that changes a user does.
pub enum UserChange {
    /// The user is deleted.
    Delete(User),
    /// The user is stored again with these values.
    Update(User),
    /// Nothing is changed.
    Refuse,
}

/// The role of a user after an update: admin when the box is checked;
/// unchanged when the box is sent with another value; user when the box
/// is not sent, except for the first user (id 1), which keeps its role.
pub open spec fn updated_role(role: Role, id: i64, is_admin: Option<Seq<char>>) -> Role {
    match is_admin {
        Some(v) => if v == "on"@ {
            Role::Admin
        } else {
            role
        },
        None => if id != 1 {
            Role::User
        } else {
            role
        },
    }
}

/// `u` is `target` updated by the form: the new hash when a password was
/// typed, the role of `updated_role`, the rest unchanged.
pub open spec fn updated_user(target: User, form: UserForm, hashed: Seq<char>, u: User) -> bool {
    &&& u.id == target.id
    &&& u.name == target.name
    &&& u.password_hash@ == (if form.password@.len() > 0 {
        hashed
    } else {
        target.password_hash@
    })
    &&& u.role == updated_role(target.role, target.id, opt_string(form.is_admin))
}

/// The change a user form asks for, and the page that answers it: a
/// deletion when asked, except of the first user (id 1); else an update
/// when asked; else a refusal.
pub open spec fn user_change_of(
    target: User,
    form: UserForm,
    hashed: Seq<char>,
    change: UserChange,
    page: Seq<char>,
) -> bool {
    if form.delete is Some && target.id != 1 {
        &&& change == UserChange::Delete(target)
        &&& page == simple_message_html(
            "user "@ + target.name@ + " deleted"@,
            Some("/admin"@),
        )
    } else if form.update is Some {
        &&& change matches UserChange::Update(u) && updated_user(target, form, hashed, u)
        &&& page == simple_message_html(
            "user "@ + target.name@ + " updated"@,
            Some("/admin"@),
        )
    } else {
        &&& change is Refuse
        &&& page == simple_message_html("you can't delete admin account"@, Some("/admin"@))
    }
}

/// Decides what a user form does to the user it names, given the hash of
/// the password it sent.
pub fn plan_user_change(target: User, form: &UserForm, hashed: String) -> (r: (UserChange, String))
    ensures
        user_change_of(target, *form, hashed@, r.0, r.1@),
{
    if form.delete.is_some() && target.id != 1 {
        let mut msg = owned("user ");
        msg.append(target.name.as_str());
        msg.append(" deleted");
        let page = simple_message(msg.as_str(), Some("/admin"));
        (UserChange::Delete(target), page)
    } else if form.update.is_some() {
        let mut msg = owned("user ");
        msg.append(target.name.as_str());
        msg.append(" updated");
        let page = simple_message(msg.as_str(), Some("/admin"));
        let password_hash = if form.password.as_str().unicode_len() > 0 {
            hashed
        } else {
            target.password_hash
        };
        let role = match &form.is_admin {
            Some(v) => if crate::text::str_eq(v.as_str(), "on") {
                Role::Admin
            } else {
                target.role
            },
            None => if target.id != 1 {
                Role::User
            } else {
                target.role
            },
        };
        (UserChange::Update(User { id: target.id, password_hash, name: target.name, role }), page)
    } else {
        (UserChange::Refuse, simple_message("you can't delete admin account", Some("/admin")))
    }
}

/// The page of a user form that names no known user.
pub fn user_missing_message(user_id: &str) -> (page: String)
    ensures
        page@ == simple_message_html(
            "user id "@ + user_id@ + " does not exists"@,
            Some("/admin"@),
        ),
{
    let mut msg = owned("user id ");
    msg.append(user_id);
    msg.append(" does not exists");
    simple_message(msg.as_str(), Some("/admin"))
}

// ---------------------------------------------------------------------
// Static files
// ---------------------------------------------------------------------

/// The kinds of static files, each with its own headers.
#[derive(PartialEq, Eq, Structural)]
pub enum AssetKind {
    /// A gzipped SVG image.
    Svgz,
    /// A PNG image.
    Png,
    /// A Windows icon.
    Icon,
    /// The web application manifest.
    Manifest,
    /// A stylesheet.
    Css,
    /// A TrueType font.
    Font,
}

/// A static file: where it is read from and its kind.
pub struct Asset {
    pub file: String,
    pub kind: AssetKind,
}

/// The files served at the root of the site, by name.
pub open spec fn root_asset_of(name: Seq<char>) -> Option<(Seq<char>, AssetKind)> {
    if name == "favicon.svgz"@ {
        Some(("images/favicon.svgz"@, AssetKind::Svgz))
    } else if name == "favicon-96x96.png"@ {
        Some(("images/favicon-96x96.png"@, AssetKind::Png))
    } else if name == "favicon.ico"@ {
        Some(("images/favicon.ico"@, AssetKind::Icon))
    } else if name == "apple-touch-icon.png"@ {
        Some(("images/apple-touch-icon.png"@, AssetKind::Png))
    } else if name == "web-app-manifest-192x192.png"@ {
        Some(("images/web-app-manifest-192x192.png"@, AssetKind::Png))
    } else if name == "web-app-manifest-512x512.png"@ {
        Some(("images/web-app-manifest-512x512.png"@, AssetKind::Png))
    } else if name == "site.webmanifest"@ {
        Some(("site.webmanifest"@, AssetKind::Manifest))
    } else {
        None
    }
}

fn asset(file: &str, kind: AssetKind) -> (a: Asset)
    ensures
        a.file@ == file@,
        a.kind == kind,
{
    Asset { file: owned(file), kind }
}

/// The file served at the root of the site under a name, if any.
pub fn root_asset(name: &str) -> (r: Option<Asset>)
    ensures
        match r {
            Some(a) => root_asset_of(name@) == Some((a.file@, a.kind)),
            None => root_asset_of(name@) is None,
        },
{
    if crate::text::str_eq(name, "favicon.svgz") {
        Some(asset("images/favicon.svgz", AssetKind::Svgz))
    } else if crate::text::str_eq(name, "favicon-96x96.png") {
        Some(asset("images/favicon-96x96.png", AssetKind::Png))
    } else if crate::text::str_eq(name, "favicon.ico") {
        Some(asset("images/favicon.ico", AssetKind::Icon))
    } else if crate::text::str_eq(name, "apple-touch-icon.png") {
        Some(asset("images/apple-touch-icon.png", AssetKind::Png))
    } else if crate::text::str_eq(name, "web-app-manifest-192x192.png") {
        Some(asset("images/web-app-manifest-192x192.png", AssetKind::Png))
    } else if crate::text::str_eq(name, "web-app-manifest-512x512.png") {
        Some(asset("images/web-app-manifest-512x512.png", AssetKind::Png))
    } else if crate::text::str_eq(name, "site.webmanifest") {
        Some(asset("site.webmanifest", AssetKind::Manifest))
    } else {
        None
    }
}

/// The default cover, sent for a file without a stored one.
pub fn default_cover() -> (a: Asset)
    ensures
        a.file@ == "images/green_book.svgz"@,
        a.kind == AssetKind::Svgz,
{
    asset("images/green_book.svgz", AssetKind::Svgz)
}

/// An image of the interface, under `/images/`.
pub fn interface_image(path: &str) -> (a: Asset)
    ensures
        a.file@ == "images/"@ + path@,
        a.kind == AssetKind::Svgz,
{
    Asset { file: crate::text::concat2("images/", path), kind: AssetKind::Svgz }
}

/// A font under `/fonts/`: only the Exo font is served.
pub fn font_asset(path: &str) -> (r: Option<Asset>)
    ensures
        r matches Some(a) ==> path@ == "Exo-VariableFont_wght.ttf"@ && a.file@
            == "fonts/Exo-VariableFont_wght.ttf"@ && a.kind == AssetKind::Font,
        r is None ==> path@ != "Exo-VariableFont_wght.ttf"@,
{
    if crate::text::str_eq(path, "Exo-VariableFont_wght.ttf") {
        Some(asset("fonts/Exo-VariableFont_wght.ttf", AssetKind::Font))
    } else {
        None
    }
}

/// A stylesheet under `/css/`: `eloran.css` is the one held in memory
/// (none here), any other is read from the `css` directory.
pub fn css_asset(path: &str) -> (r: Option<Asset>)
    ensures
        r is None <==> path@ == "eloran.css"@,
        r matches Some(a) ==> a.file@ == "css/"@ + path@ && a.kind == AssetKind::Css,
{
    if crate::text::str_eq(path, "eloran.css") {
        None
    } else {
        Some(Asset { file: crate::text::concat2("css/", path), kind: AssetKind::Css })
    }
}

/// The headers of a static file of a kind, names in lower case.
pub open spec fn asset_headers_of(kind: AssetKind) -> Seq<(Seq<char>, Seq<char>)> {
    let cache = ("cache-control"@, "public, max-age=604800"@);
    let vary = ("vary"@, "Accept-Encoding"@);
    match kind {
        AssetKind::Svgz => seq![
            ("content-type"@, "image/svg+xml"@),
            ("content-encoding"@, "gzip"@),
            vary,
            cache,
        ],
        AssetKind::Png => seq![("content-type"@, "image/png"@), vary, cache],
        AssetKind::Icon => seq![("content-type"@, "image/vnd.microsoft.icon"@), vary, cache],
        AssetKind::Manifest => seq![("content-type"@, "application/manifest+json"@), cache],
        AssetKind::Css => seq![("content-type"@, "text/css"@)],
        AssetKind::Font => seq![("content-type"@, "font/ttf"@), cache],
    }
}

fn header_pair(name: &str, value: &str) -> (p: (String, String))
    ensures
        p.0@ == name@,
        p.1@ == value@,
{
    (owned(name), owned(value))
}

/// The headers of a static file of a kind.
pub fn asset_headers(kind: &AssetKind) -> (h: Vec<(String, String)>)
    ensures
        h@.len() == asset_headers_of(*kind).len(),
        forall|i: int|
            0 <= i < h@.len() ==> (#[trigger] h@[i].0@, h@[i].1@) == asset_headers_of(*kind)[i],
{
    let mut h: Vec<(String, String)> = Vec::new();
    match kind {
        AssetKind::Svgz => {
            h.push(header_pair("content-type", "image/svg+xml"));
            h.push(header_pair("content-encoding", "gzip"));
            h.push(header_pair("vary", "Accept-Encoding"));
            h.push(header_pair("cache-control", "public, max-age=604800"));
        },
        AssetKind::Png => {
            h.push(header_pair("content-type", "image/png"));
            h.push(header_pair("vary", "Accept-Encoding"));
            h.push(header_pair("cache-control", "public, max-age=604800"));
        },
        AssetKind::Icon => {
            h.push(header_pair("content-type", "image/vnd.microsoft.icon"));
            h.push(header_pair("vary", "Accept-Encoding"));
            h.push(header_pair("cache-control", "public, max-age=604800"));
        },
        AssetKind::Manifest => {
            h.push(header_pair("content-type", "application/manifest+json"));
            h.push(header_pair("cache-control", "public, max-age=604800"));
        },
        AssetKind::Css => {
            h.push(header_pair("content-type", "text/css"));
        },
        AssetKind::Font => {
            h.push(header_pair("content-type", "font/ttf"));
            h.push(header_pair("cache-control", "public, max-age=604800"));
        },
    }
    h
}

/// Whether a file of the custom stylesheet directory replaces the
/// stylesheet: its name holds `eloran.css`.
pub open spec fn is_custom_css(name: Seq<char>) -> bool {
    crate::text::contains(name, "eloran.css"@)
}

/// Which file of the custom stylesheet directory replaces the stylesheet:
/// the last one, in the order given, whose name holds `eloran.css`.
pub fn custom_css_choice(names: &Vec<String>) -> (r: Option<usize>)
    ensures
        r matches Some(i) ==> i < names@.len() && is_custom_css(names@[i as int]@) && forall|
            j: int,
        |
            i < j < names@.len() ==> !is_custom_css(#[trigger] names@[j]@),
        r is None ==> forall|j: int| 0 <= j < names@.len() ==> !is_custom_css(#[trigger] names@[j]@),
{
    let mut found: Option<usize> = None;
    let mut i: usize = 0;
    while i < names.len()
        invariant
            i <= names@.len(),
            found matches Some(k) ==> k < i && is_custom_css(names@[k as int]@) && forall|
                j: int,
            |
                k < j < i ==> !is_custom_css(#[trigger] names@[j]@),
            found is None ==> forall|j: int| 0 <= j < i ==> !is_custom_css(#[trigger] names@[j]@),
        decreases names@.len() - i,
    {
        if crate::text::contains_str(names[i].as_str(), "eloran.css") {
            found = Some(i);
        }
        i = i + 1;
    }
    found
}

} // verus!
