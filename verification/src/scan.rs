//! The scanner's decisions: which files and directories a scan visits,
//! the record of a newly found file, how a found file is stored, which
//! extractor a file needs, and which entries of a comic archive are its
//! pages.

use vstd::prelude::*;
use crate::model::{DirectoryInfo, FileInfo, Format};
use crate::text::{chars_of, contains, lower, owned, rsplit_once};

verus! {

// ---------------------------------------------------------------------
// New files
// ---------------------------------------------------------------------

/// The extension of a file name: what follows its last `.` (the whole
/// name when it has none).
pub open spec fn extension(name: Seq<char>) -> Seq<char> {
    match rsplit_once(name, '.') {
        Some((_, ext)) => ext,
        None => name,
    }
}

/// The format of a file, from its extension compared without regard to
/// case. (Only ASCII letters are lowered: no other character lowers to
/// the letters of these extensions, so this is `to_lowercase`'s answer.)
pub open spec fn format_of_name(name: Seq<char>) -> Format {
    let ext = lower(extension(name));
    if ext == "epub"@ {
        Format::Epub
    } else if ext == "cbr"@ {
        Format::Cbr
    } else if ext == "cbz"@ {
        Format::Cbz
    } else if ext == "pdf"@ {
        Format::Pdf
    } else if ext == "txt"@ {
        Format::Txt
    } else {
        Format::Other
    }
}

/// The format of a file, from its name.
pub fn format_from_name(name: &str) -> (f: Format)
    ensures
        f == format_of_name(name@),
{
    let ext = match crate::text::rsplit_once_char(name, '.') {
        Some((_, e)) => e,
        None => owned(name),
    };
    let low = crate::text::lower_chars(&chars_of(ext.as_str()));
    let low_str = crate::text::string_of(&low);
    if crate::text::str_eq(low_str.as_str(), "epub") {
        Format::Epub
    } else if crate::text::str_eq(low_str.as_str(), "cbr") {
        Format::Cbr
    } else if crate::text::str_eq(low_str.as_str(), "cbz") {
        Format::Cbz
    } else if crate::text::str_eq(low_str.as_str(), "pdf") {
        Format::Pdf
    } else if crate::text::str_eq(low_str.as_str(), "txt") {
        Format::Txt
    } else {
        Format::Other
    }
}

/// The record of a file found by a scan: its name and directory (or
/// placeholders when the path has none), the time it was found, its size
/// (0 when unknown) and its format; it still needs extraction.
pub open spec fn new_file_record(
    f: FileInfo,
    library_name: Seq<char>,
    file_name: Option<Seq<char>>,
    parent_path: Option<Seq<char>>,
    now_secs: u64,
    size: Option<u64>,
) -> bool {
    let name = match file_name {
        Some(n) => n,
        None => "unknow file name"@,
    };
    &&& f.id@ == "666"@
    &&& f.name@ == name
    &&& f.library_name@ == library_name
    &&& f.parent_path@ == match parent_path {
        Some(p) => p,
        None => "unknow path"@,
    }
    &&& f.added_date == now_secs as i64
    &&& f.scan_me == 1
    &&& f.format == format_of_name(name)
    &&& f.size == match size {
        Some(s) => s as i64,
        None => 0,
    }
    &&& f.total_pages == 0
    &&& f.read_by@.len() == 0
    &&& f.bookmarked_by@.len() == 0
}

/// Builds the record of a file found by a scan.
pub fn new_file_info(
    library_name: &str,
    file_name: Option<&str>,
    parent_path: Option<&str>,
    now_secs: u64,
    size: Option<u64>,
) -> (f: FileInfo)
    ensures
        new_file_record(
            f,
            library_name@,
            crate::html::opt_view(file_name),
            crate::html::opt_view(parent_path),
            now_secs,
            size,
        ),
{
    let name = match file_name {
        Some(n) => owned(n),
        None => owned("unknow file name"),
    };
    let parent = match parent_path {
        Some(p) => owned(p),
        None => owned("unknow path"),
    };
    let format = format_from_name(name.as_str());
    let bytes: u64 = match size {
        Some(s) => s,
        None => 0,
    };
    FileInfo {
        id: owned("666"),
        name,
        library_name: owned(library_name),
        parent_path: parent,
        added_date: now_secs as i64,
        scan_me: 1,
        format,
        size: bytes as i64,
        total_pages: 0,
        read_by: String::new(),
        bookmarked_by: String::new(),
    }
}

// ---------------------------------------------------------------------
// What a scan visits
// ---------------------------------------------------------------------

/// An entry needs a scan when it is of the kind looked for and was
/// changed after the last successful scan (times compared to the
/// nanosecond).
pub open spec fn changed_since(
    is_kind: bool,
    modified_secs: u64,
    modified_nanos: u32,
    last_scan_secs: u64,
) -> bool {
    is_kind && (modified_secs > last_scan_secs || (modified_secs == last_scan_secs
        && modified_nanos > 0))
}

/// Whether a directory (or a file) changed after the last successful
/// scan.
pub fn needs_scan(
    is_kind: bool,
    modified_secs: u64,
    modified_nanos: u32,
    last_scan_secs: u64,
) -> (r: bool)
    ensures
        r == changed_since(is_kind, modified_secs, modified_nanos, last_scan_secs),
{
    is_kind && (modified_secs > last_scan_secs || (modified_secs == last_scan_secs
        && modified_nanos > 0))
}

/// The record of a changed directory found by a scan, before it gets an
/// id of its own.
pub fn new_directory_info(name: &str, parent_path: &str) -> (d: DirectoryInfo)
    ensures
        d.id@ == "666"@,
        d.name@ == name@,
        d.parent_path@ == parent_path@,
        d.file_count is None,
{
    DirectoryInfo {
        id: owned("666"),
        name: owned(name),
        parent_path: owned(parent_path),
        file_count: None,
    }
}

/// A changed directory is registered when the storage does not know it
/// yet and it is not the library root (whose parent path is empty).
pub fn should_register_directory(found: usize, parent_path: &str) -> (r: bool)
    ensures
        r == (found == 0 && parent_path@.len() > 0),
{
    found == 0 && parent_path.unicode_len() > 0
}

/// How a file found by a scan is stored.
pub enum UpsertPlan {
    /// A new file: stored under a new id.
    Insert(FileInfo),
    /// A known file: stored again under its id, keeping its flags.
    Update(FileInfo, String),
    /// The storage knows the file more than once.
    Corrupted,
}

/// The storing of a found file, given the records the storage has for
/// its path.
pub open spec fn upsert_plan(new_file: FileInfo, found: Seq<FileInfo>, plan: UpsertPlan) -> bool {
    if found.len() == 0 {
        plan == UpsertPlan::Insert(new_file)
    } else if found.len() == 1 {
        match plan {
            UpsertPlan::Update(f, id) => id@ == found[0].id@ && f.id == new_file.id && f.name
                == new_file.name && f.library_name == new_file.library_name && f.parent_path
                == new_file.parent_path && f.scan_me == new_file.scan_me && f.added_date
                == new_file.added_date && f.format == new_file.format && f.size == new_file.size
                && f.total_pages == new_file.total_pages && f.read_by == found[0].read_by
                && f.bookmarked_by == found[0].bookmarked_by,
            _ => false,
        }
    } else {
        plan == UpsertPlan::Corrupted
    }
}

/// Decides how a found file is stored: inserted when new; when known
/// once, stored again under its id with its bookmarks and read status
/// kept; refused when known more than once.
pub fn plan_upsert(new_file: FileInfo, found: Vec<FileInfo>) -> (plan: UpsertPlan)
    ensures
        upsert_plan(new_file, found@, plan),
{
    if found.len() == 0 {
        UpsertPlan::Insert(new_file)
    } else if found.len() == 1 {
        let mut f = new_file;
        f.bookmarked_by = found[0].bookmarked_by.clone();
        f.read_by = found[0].read_by.clone();
        UpsertPlan::Update(f, found[0].id.clone())
    } else {
        UpsertPlan::Corrupted
    }
}

/// Whether a scan of a library runs.
#[derive(PartialEq, Eq, Structural)]
pub enum ScanAction {
    /// The library path is not a directory.
    Missing,
    /// Another scan of the library is running.
    Locked,
    /// The scan runs.
    Run,
}

/// A scan runs when the library path is a directory and no other scan
/// of it holds the lock.
pub fn scan_action(is_dir: bool, locked: bool) -> (a: ScanAction)
    ensures
        a == (if !is_dir {
            ScanAction::Missing
        } else if locked {
            ScanAction::Locked
        } else {
            ScanAction::Run
        }),
{
    if !is_dir {
        ScanAction::Missing
    } else if locked {
        ScanAction::Locked
    } else {
        ScanAction::Run
    }
}

// ---------------------------------------------------------------------
// Extraction
// ---------------------------------------------------------------------

/// The extractor of covers and page counts that a file needs.
#[derive(PartialEq, Eq, Structural)]
pub enum Extractor {
    Epub,
    Pdf,
    Comic,
    Nothing,
}

/// The extractor for a format, by its name.
pub open spec fn extractor_of(format: Format) -> Extractor {
    let name = crate::model::format_name(format);
    if name == "epub"@ {
        Extractor::Epub
    } else if name == "pdf"@ {
        Extractor::Pdf
    } else if name == "cbz"@ || name == "cbr"@ || name == "cb7"@ {
        Extractor::Comic
    } else {
        Extractor::Nothing
    }
}

/// Chooses the extractor for a file's format.
pub fn extractor_for(format: Format) -> (e: Extractor)
    ensures
        e == extractor_of(format),
{
    let name = format.as_str();
    if crate::text::str_eq(name, "epub") {
        Extractor::Epub
    } else if crate::text::str_eq(name, "pdf") {
        Extractor::Pdf
    } else if crate::text::str_eq(name, "cbz") || crate::text::str_eq(name, "cbr")
        || crate::text::str_eq(name, "cb7") {
        Extractor::Comic
    } else {
        Extractor::Nothing
    }
}

/// Whether an archive entry is an image: its lowered path holds `.jpg`,
/// `.jpeg` or `.png`.
pub open spec fn is_image_path(path: Seq<char>) -> bool {
    contains(lower(path), ".jpg"@) || contains(lower(path), ".jpeg"@) || contains(
        lower(path),
        ".png"@,
    )
}

/// The pages of a comic archive: its image entries, in path order.
pub open spec fn comic_pages(entries: Seq<String>) -> Seq<String> {
    crate::sort::sorted_strings(entries.filter(|e: String| is_image_path(e@)))
}

fn is_image(path: &str) -> (r: bool)
    ensures
        r == is_image_path(path@),
{
    let low = crate::text::lower_chars(&chars_of(path));
    crate::text::contains_chars(&low, &chars_of(".jpg")) || crate::text::contains_chars(
        &low,
        &chars_of(".jpeg"),
    ) || crate::text::contains_chars(&low, &chars_of(".png"))
}

/// The pages of a comic archive, from the list of its entries.
pub fn extract_comic_image_list(entries: Vec<String>) -> (pages: Vec<String>)
    ensures
        pages@ == comic_pages(entries@),
{
    let ghost pred = |e: String| is_image_path(e@);
    let mut images: Vec<String> = Vec::new();
    let mut i: usize = 0;
    while i < entries.len()
        invariant
            i <= entries@.len(),
            pred == (|e: String| is_image_path(e@)),
            images@ == entries@.take(i as int).filter(pred),
        decreases entries@.len() - i,
    {
        reveal_with_fuel(Seq::<_>::filter, 1);
        assert(entries@.take(i as int + 1).drop_last() =~= entries@.take(i as int));
        if is_image(entries[i].as_str()) {
            let e = entries[i].clone();
            images.push(e);
        }
        i = i + 1;
    }
    assert(entries@.take(entries@.len() as int) =~= entries@);
    crate::sort::sort_strings(images)
}

/// The archive entry a comic's cover is taken from: its first page, or
/// an empty path (which the archive then fails to give) when it has none.
pub fn comic_cover_entry(pages: &Vec<String>) -> (r: String)
    ensures
        pages@.len() > 0 ==> r == pages@[0],
        pages@.len() == 0 ==> r@.len() == 0,
{
    if pages.len() > 0 {
        pages[0].clone()
    } else {
        String::new()
    }
}

/// The archive entry of page `page` of a comic: none for an archive
/// without pages or a page out of range.
pub open spec fn comic_page_entry_of(pages: Seq<String>, page: int) -> Option<String> {
    if pages.len() > 0 && 0 <= page < pages.len() {
        Some(pages[page])
    } else {
        None
    }
}

/// Picks the archive entry of a comic page.
pub fn comic_page_entry(pages: &Vec<String>, page: i32) -> (r: Option<String>)
    ensures
        r == comic_page_entry_of(pages@, page as int),
{
    if pages.len() == 0 || page < 0 || page as usize >= pages.len() {
        None
    } else {
        Some(pages[page as usize].clone())
    }
}

/// The box a comic page is shrunk into for a size asked by the reader:
/// `800px` and `1000px` have one; other sizes keep the image as it is.
pub open spec fn comic_page_bounds_of(size: Seq<char>) -> Option<(u32, u32)> {
    if size == "800px"@ {
        Some((800u32, 2000u32))
    } else if size == "1000px"@ {
        Some((1000u32, 2500u32))
    } else {
        None
    }
}

/// The box a comic page is shrunk into.
pub fn comic_page_bounds(size: &str) -> (r: Option<(u32, u32)>)
    ensures
        r == comic_page_bounds_of(size@),
{
    if crate::text::str_eq(size, "800px") {
        Some((800, 2000))
    } else if crate::text::str_eq(size, "1000px") {
        Some((1000, 2500))
    } else {
        None
    }
}

} // verus!
