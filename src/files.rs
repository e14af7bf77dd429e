//! File listings of each drive provider and their normalization into one
//! canonical listing.

use vstd::prelude::*;

use crate::provider::{str_eq, Kind};
use crate::text::{decimal_text, opt_view, u32_text};

verus! {

/// A canonical file entry, as text.
pub struct FileView {
    pub id: Seq<char>,
    pub name: Seq<char>,
    pub is_directory: bool,
    pub mime_type: Seq<char>,
    pub size: Option<Seq<char>>,
    pub created_time: Option<Seq<char>>,
    pub modified_time: Option<Seq<char>>,
}

/// A canonical file entry.
#[derive(Debug, Default, Clone, PartialEq, Eq)]
pub struct File {
    pub id: String,
    pub name: String,
    pub is_directory: bool,
    pub mime_type: String,
    pub size: Option<String>,
    pub created_time: Option<String>,
    pub modified_time: Option<String>,
}

impl View for File {
    type V = FileView;

    open spec fn view(&self) -> FileView {
        FileView {
            id: self.id@,
            name: self.name@,
            is_directory: self.is_directory,
            mime_type: self.mime_type@,
            size: opt_view(self.size),
            created_time: opt_view(self.created_time),
            modified_time: opt_view(self.modified_time),
        }
    }
}

/// A point in time without zone: seconds since the Unix epoch, and
/// nanoseconds within the second.
#[derive(Debug, Clone, Copy, PartialEq, Eq, Structural)]
pub struct NaiveTimestamp {
    pub secs: i64,
    pub nanos: u32,
}

/// The text of a zoneless date and time (`YYYY-MM-DD hh:mm:ss`, with a
/// fraction where the nanoseconds are not zero), or `None` where the
/// values name no representable time.
pub uninterp spec fn naive_datetime_text(secs: int, nanos: int) -> Option<Seq<char>>;

/// Relies on `chrono::DateTime::from_timestamp` and `NaiveDateTime`'s
/// `Display`: the rendered time depends on the two numbers alone.
#[verifier::external_body]
fn datetime_text(secs: i64, nanos: u32) -> (r: Option<String>)
    ensures
        opt_view(r) == naive_datetime_text(secs as int, nanos as int),
{
    chrono::DateTime::from_timestamp(secs, nanos).map(|d| d.naive_utc().to_string())
}

/// Google Drive's file entry.
#[derive(Debug, Clone)]
pub struct RawFileGoogle {
    pub id: String,
    pub mime_type: String,
    pub created_time: String,
    pub modified_time: String,
    pub name: String,
    pub size: Option<String>,
}

/// Whether a file is a folder or a file, in Microsoft Graph's listing.
#[derive(Debug, Clone)]
pub enum MSGraphFileOrFolder {
    File { mime_type: String },
    Folder,
}

/// Microsoft Graph's drive item.
#[derive(Debug, Clone)]
pub struct RawFileMSGraph {
    pub created_time: String,
    pub modified_time: String,
    pub id: String,
    pub name: String,
    pub file_or_folder: MSGraphFileOrFolder,
    pub size: Option<u32>,
}

/// Dropbox's file entry; its `.tag` names what it is.
#[derive(Debug, Clone)]
pub struct RawFileDropBox {
    pub id: String,
    pub mime_type: String,
    pub name: String,
    pub client_modified: Option<NaiveTimestamp>,
    pub server_modified: Option<NaiveTimestamp>,
    pub size: Option<String>,
}

/// A file entry of any supported drive provider.
#[derive(Debug, Clone)]
pub enum RawFile {
    Google(RawFileGoogle),
    MSGraph(RawFileMSGraph),
    DropBox(RawFileDropBox),
}

/// The MIME type Google Drive gives a folder.
pub open spec fn google_folder_mime() -> Seq<char> {
    "application/vnd.google-apps.folder"@
}

/// The canonical entry of each provider's file entry.
pub open spec fn file_of(raw: RawFile) -> FileView {
    match raw {
        RawFile::Google(g) => FileView {
            id: g.id@,
            name: g.name@,
            is_directory: g.mime_type@ == google_folder_mime(),
            mime_type: g.mime_type@,
            size: opt_view(g.size),
            created_time: Some(g.created_time@),
            modified_time: Some(g.modified_time@),
        },
        RawFile::MSGraph(m) => FileView {
            id: m.id@,
            name: m.name@,
            is_directory: m.file_or_folder is Folder,
            mime_type: match m.file_or_folder {
                MSGraphFileOrFolder::File { mime_type } => mime_type@,
                MSGraphFileOrFolder::Folder => "folder"@,
            },
            size: match m.size {
                Some(n) => Some(decimal_text(n as nat)),
                None => None,
            },
            created_time: Some(m.created_time@),
            modified_time: Some(m.modified_time@),
        },
        RawFile::DropBox(d) => FileView {
            id: d.id@,
            name: d.name@,
            is_directory: d.mime_type@ == "folder"@,
            mime_type: d.mime_type@,
            size: opt_view(d.size),
            created_time: None,
            modified_time: match d.client_modified {
                Some(t) => naive_datetime_text(t.secs as int, t.nanos as int),
                None => None,
            },
        },
    }
}

impl RawFileGoogle {
    /// Whether the entry is a folder: Google marks one by its MIME type.
    pub fn is_dir(&self) -> (r: bool)
        ensures
            r == (self.mime_type@ == google_folder_mime()),
    {
        str_eq(self.mime_type.as_str(), "application/vnd.google-apps.folder")
    }
}

impl File {
    /// The canonical entry of a provider's file entry.
    pub fn from_raw(raw: RawFile) -> (r: File)
        ensures
            r@ == file_of(raw),
    {
        match raw {
            RawFile::Google(g) => {
                let is_directory = g.is_dir();
                File {
                    id: g.id,
                    name: g.name,
                    is_directory,
                    mime_type: g.mime_type,
                    size: g.size,
                    created_time: Some(g.created_time),
                    modified_time: Some(g.modified_time),
                }
            },
            RawFile::MSGraph(m) => {
                let (is_directory, mime_type) = match m.file_or_folder {
                    MSGraphFileOrFolder::File { mime_type } => (false, mime_type),
                    MSGraphFileOrFolder::Folder => (true, "folder".to_owned()),
                };
                let size = match m.size {
                    Some(n) => Some(u32_text(n)),
                    None => None,
                };
                File {
                    id: m.id,
                    name: m.name,
                    is_directory,
                    mime_type,
                    size,
                    created_time: Some(m.created_time),
                    modified_time: Some(m.modified_time),
                }
            },
            RawFile::DropBox(d) => {
                let is_directory = str_eq(d.mime_type.as_str(), "folder");
                let modified_time = match d.client_modified {
                    Some(t) => datetime_text(t.secs, t.nanos),
                    None => None,
                };
                File {
                    id: d.id,
                    name: d.name,
                    is_directory,
                    mime_type: d.mime_type,
                    size: d.size,
                    created_time: None,
                    modified_time,
                }
            },
        }
    }
}

/// A canonical file listing.
#[derive(Debug, Clone)]
pub struct Files {
    pub kind: Kind,
    pub path: Option<String>,
    pub drive_id: Option<String>,
    pub files: Vec<File>,
}

/// Gathers what a listing needs before it is converted.
#[derive(Debug, Clone)]
pub struct FilesBuilder {
    pub kind: Kind,
    pub path: Option<String>,
    pub drive_id: Option<String>,
    pub raw_files: Vec<RawFile>,
}

/// The canonical entries of a sequence of provider entries, in order.
pub open spec fn files_of(raw: Seq<RawFile>) -> Seq<FileView> {
    raw.map_values(|f: RawFile| file_of(f))
}

/// The views of a sequence of canonical entries.
pub open spec fn file_views(files: Seq<File>) -> Seq<FileView> {
    files.map_values(|f: File| f@)
}

impl FilesBuilder {
    pub fn new(kind: Kind, raw_files: Vec<RawFile>) -> (r: FilesBuilder)
        ensures
            r.kind == kind,
            r.path is None,
            r.drive_id is None,
            r.raw_files@ == raw_files@,
    {
        FilesBuilder { kind, path: None, drive_id: None, raw_files }
    }

    pub fn set_path(self, path: String) -> (r: Self)
        ensures
            r.kind == self.kind,
            opt_view(r.path) == Some(path@),
            r.drive_id == self.drive_id,
            r.raw_files@ == self.raw_files@,
    {
        FilesBuilder { path: Some(path), ..self }
    }

    pub fn set_drive_id(self, drive_id: String) -> (r: Self)
        ensures
            r.kind == self.kind,
            r.path == self.path,
            opt_view(r.drive_id) == Some(drive_id@),
            r.raw_files@ == self.raw_files@,
    {
        FilesBuilder { drive_id: Some(drive_id), ..self }
    }

    /// Converts every entry, keeping their order.
    pub fn build(self) -> (r: Files)
        ensures
            r.kind == self.kind,
            r.path == self.path,
            r.drive_id == self.drive_id,
            file_views(r.files@) == files_of(self.raw_files@),
    {
        let FilesBuilder { kind, path, drive_id, raw_files } = self;
        let ghost all = raw_files@;
        let mut rest = raw_files;
        let mut files: Vec<File> = Vec::new();
        while rest.len() > 0
            invariant
                files@.len() + rest@.len() == all.len(),
                rest@ == all.subrange(files@.len() as int, all.len() as int),
                file_views(files@) == files_of(all.subrange(0, files@.len() as int)),
            decreases rest@.len(),
        {
            let ghost k: int = files@.len() as int;
            let ghost before = files@;
            let raw = rest.remove(0);
            assert(raw == all[k]);
            let file = File::from_raw(raw);
            files.push(file);
            assert(all.subrange(0, k + 1) =~= all.subrange(0, k).push(all[k]));
            assert(files_of(all.subrange(0, k + 1)) =~= files_of(all.subrange(0, k)).push(
                file_of(all[k]),
            ));
            assert(files@ =~= before.push(file));
            assert(file_views(files@) =~= file_views(before).push(file@));
            assert(rest@ =~= all.subrange(k + 1, all.len() as int));
        }
        assert(all.subrange(0, all.len() as int) =~= all);
        Files { kind, path, drive_id, files }
    }
}

/// A builder of Google Drive entries.
pub fn google(data: Vec<RawFileGoogle>) -> (r: FilesBuilder)
    ensures
        r.kind == Kind::Google,
        r.path is None,
        r.drive_id is None,
        r.raw_files@.len() == data@.len(),
        forall|i: int| 0 <= i < data@.len() ==> #[trigger] r.raw_files@[i] == RawFile::Google(data@[i]),
{
    let ghost all = data@;
    let mut rest = data;
    let mut raw: Vec<RawFile> = Vec::new();
    while rest.len() > 0
        invariant
            raw@.len() + rest@.len() == all.len(),
            rest@ == all.subrange(raw@.len() as int, all.len() as int),
            forall|i: int| 0 <= i < raw@.len() ==> #[trigger] raw@[i] == RawFile::Google(all[i]),
        decreases rest@.len(),
    {
        let f = rest.remove(0);
        raw.push(RawFile::Google(f));
    }
    FilesBuilder::new(Kind::Google, raw)
}

/// A builder of Microsoft Graph entries.
pub fn ms_graph(data: Vec<RawFileMSGraph>) -> (r: FilesBuilder)
    ensures
        r.kind == Kind::MSGraph,
        r.path is None,
        r.drive_id is None,
        r.raw_files@.len() == data@.len(),
        forall|i: int| 0 <= i < data@.len() ==> #[trigger] r.raw_files@[i] == RawFile::MSGraph(data@[i]),
{
    let ghost all = data@;
    let mut rest = data;
    let mut raw: Vec<RawFile> = Vec::new();
    while rest.len() > 0
        invariant
            raw@.len() + rest@.len() == all.len(),
            rest@ == all.subrange(raw@.len() as int, all.len() as int),
            forall|i: int| 0 <= i < raw@.len() ==> #[trigger] raw@[i] == RawFile::MSGraph(all[i]),
        decreases rest@.len(),
    {
        let f = rest.remove(0);
        raw.push(RawFile::MSGraph(f));
    }
    FilesBuilder::new(Kind::MSGraph, raw)
}

/// A builder of Dropbox entries.
pub fn drop_box(data: Vec<RawFileDropBox>) -> (r: FilesBuilder)
    ensures
        r.kind == Kind::DropBox,
        r.path is None,
        r.drive_id is None,
        r.raw_files@.len() == data@.len(),
        forall|i: int| 0 <= i < data@.len() ==> #[trigger] r.raw_files@[i] == RawFile::DropBox(data@[i]),
{
    let ghost all = data@;
    let mut rest = data;
    let mut raw: Vec<RawFile> = Vec::new();
    while rest.len() > 0
        invariant
            raw@.len() + rest@.len() == all.len(),
            rest@ == all.subrange(raw@.len() as int, all.len() as int),
            forall|i: int| 0 <= i < raw@.len() ==> #[trigger] raw@[i] == RawFile::DropBox(all[i]),
        decreases rest@.len(),
    {
        let f = rest.remove(0);
        raw.push(RawFile::DropBox(f));
    }
    FilesBuilder::new(Kind::DropBox, raw)
}

} // verus!
