//! The records that the library, the storage and the pages share:
//! libraries, files, directories and users.

use vstd::prelude::*;

verus! {

/// A library: a root directory that the scanner walks.
#[derive(Debug, Default, Clone)]
pub struct Library {
    pub id: i64,
    pub name: String,
    pub path: String,
    pub last_successfull_scan_date: i64,
    pub last_successfull_extract_date: i64,
    pub file_count: i32,
}

impl Library {
    /// An empty library record.
    pub fn new() -> (l: Library)
        ensures
            l.id == 0,
            l.name@.len() == 0,
            l.path@.len() == 0,
            l.last_successfull_scan_date == 0,
            l.last_successfull_extract_date == 0,
            l.file_count == 0,
    {
        Library {
            id: 0,
            name: String::new(),
            path: String::new(),
            last_successfull_scan_date: 0,
            last_successfull_extract_date: 0,
            file_count: 0,
        }
    }

    /// A copy of the record.
    pub fn duplicate(&self) -> (l: Library)
        ensures
            l == *self,
    {
        Library {
            id: self.id,
            name: self.name.clone(),
            path: self.path.clone(),
            last_successfull_scan_date: self.last_successfull_scan_date,
            last_successfull_extract_date: self.last_successfull_extract_date,
            file_count: self.file_count,
        }
    }
}

/// The formats a file of a library can have.
#[derive(Debug, Default, Clone, Copy, PartialEq, Eq, Structural)]
pub enum Format {
    Epub,
    Pdf,
    Cbr,
    Cbz,
    Txt,
    Jpg,
    #[default]
    Other,
}

/// The name that the storage and the routes use for a format.
pub open spec fn format_name(f: Format) -> Seq<char> {
    match f {
        Format::Epub => "epub"@,
        Format::Pdf => "pdf"@,
        Format::Cbr => "cbr"@,
        Format::Cbz => "cbz"@,
        Format::Txt => "txt"@,
        Format::Jpg => "jpg"@,
        Format::Other => "Not supported"@,
    }
}

/// The name under which a format is shown to a reader.
pub open spec fn format_label(f: Format) -> Seq<char> {
    match f {
        Format::Epub => "epub"@,
        Format::Pdf => "pdf"@,
        Format::Cbr => "cbr"@,
        Format::Cbz => "cbz"@,
        Format::Txt => "txt"@,
        Format::Jpg => "jpg"@,
        Format::Other => "unknow"@,
    }
}

impl Format {
    /// The name that the storage and the routes use for this format.
    pub fn as_str(&self) -> (s: &'static str)
        ensures
            s@ == format_name(*self),
    {
        match self {
            Format::Epub => "epub",
            Format::Pdf => "pdf",
            Format::Cbr => "cbr",
            Format::Cbz => "cbz",
            Format::Txt => "txt",
            Format::Jpg => "jpg",
            Format::Other => "Not supported",
        }
    }

    /// The name under which this format is shown to a reader.
    pub fn label(&self) -> (s: &'static str)
        ensures
            s@ == format_label(*self),
    {
        match self {
            Format::Epub => "epub",
            Format::Pdf => "pdf",
            Format::Cbr => "cbr",
            Format::Cbz => "cbz",
            Format::Txt => "txt",
            Format::Jpg => "jpg",
            Format::Other => "unknow",
        }
    }
}

/// A file of a library, as the storage keeps it.
/// `read_by` and `bookmarked_by` hold user ids separated by commas.
#[derive(Debug, Default, Clone)]
pub struct FileInfo {
    pub id: String,
    pub name: String,
    pub library_name: String,
    pub parent_path: String,
    pub scan_me: i8,
    pub added_date: i64,
    pub format: Format,
    pub size: i64,
    pub total_pages: i32,
    pub read_by: String,
    pub bookmarked_by: String,
}

impl FileInfo {
    /// The record used when a file is not found.
    pub fn new() -> (f: FileInfo)
        ensures
            f.id@ == "666"@,
            f.name@.len() == 0,
            f.library_name@.len() == 0,
            f.parent_path@.len() == 0,
            f.added_date == 0,
            f.scan_me == 1,
            f.format == Format::Other,
            f.size == 0,
            f.total_pages == 0,
            f.read_by@.len() == 0,
            f.bookmarked_by@.len() == 0,
    {
        FileInfo {
            id: crate::text::owned("666"),
            name: String::new(),
            library_name: String::new(),
            parent_path: String::new(),
            added_date: 0,
            scan_me: 1,
            format: Format::Other,
            size: 0,
            total_pages: 0,
            read_by: String::new(),
            bookmarked_by: String::new(),
        }
    }

    /// A copy of the record.
    pub fn duplicate(&self) -> (f: FileInfo)
        ensures
            f == *self,
    {
        FileInfo {
            id: self.id.clone(),
            name: self.name.clone(),
            library_name: self.library_name.clone(),
            parent_path: self.parent_path.clone(),
            scan_me: self.scan_me,
            added_date: self.added_date,
            format: self.format,
            size: self.size,
            total_pages: self.total_pages,
            read_by: self.read_by.clone(),
            bookmarked_by: self.bookmarked_by.clone(),
        }
    }
}

/// A directory of a library, as the storage keeps it.
#[derive(Debug, Default, Clone)]
pub struct DirectoryInfo {
    pub id: String,
    pub name: String,
    pub parent_path: String,
    pub file_count: Option<i32>,
}

impl DirectoryInfo {
    /// A copy of the record.
    pub fn duplicate(&self) -> (d: DirectoryInfo)
        ensures
            d == *self,
    {
        DirectoryInfo {
            id: self.id.clone(),
            name: self.name.clone(),
            parent_path: self.parent_path.clone(),
            file_count: self.file_count,
        }
    }
}

/// The role of a user.
#[derive(Debug, Default, Clone, Copy, PartialEq, Eq, Structural)]
pub enum Role {
    #[default]
    User,
    Admin,
}

/// A user of the server.
#[derive(Debug, Default, Clone)]
pub struct User {
    pub id: i64,
    pub password_hash: String,
    pub name: String,
    pub role: Role,
}

impl User {
    /// A copy of the record.
    pub fn duplicate(&self) -> (u: User)
        ensures
            u == *self,
    {
        User {
            id: self.id,
            password_hash: self.password_hash.clone(),
            name: self.name.clone(),
            role: self.role,
        }
    }
}

/// What the login form sends.
#[derive(Debug, Clone)]
pub struct Credentials {
    pub username: String,
    pub password: String,
    pub next: Option<String>,
}

} // verus!
