use crate::time::Timestamp;
use vstd::prelude::*;

verus! {

/// Metadata of one uploaded file; its bytes live in the object store.
#[derive(Debug, Clone, PartialEq, Eq)]
pub struct FileInfo {
    pub filename: String,
    pub size: u64,
}

pub struct FileView {
    pub filename: Seq<char>,
    pub size: u64,
}

impl View for FileInfo {
    type V = FileView;

    open spec fn view(&self) -> FileView {
        FileView { filename: self.filename@, size: self.size }
    }
}

/// One freehand whiteboard stroke. The coordinates and the stroke width are
/// rendering hints that the hub never interprets: they are carried as the
/// IEEE 754 bit patterns of the clients' double-precision numbers.
#[derive(Debug, Clone, PartialEq, Eq)]
pub struct PathData {
    pub id: String,
    pub points: Vec<(u64, u64)>,
    pub color: String,
    pub stroke_width: u64,
}

pub struct PathView {
    pub id: Seq<char>,
    pub points: Seq<(u64, u64)>,
    pub color: Seq<char>,
    pub stroke_width: u64,
}

impl View for PathData {
    type V = PathView;

    open spec fn view(&self) -> PathView {
        PathView {
            id: self.id@,
            points: self.points@,
            color: self.color@,
            stroke_width: self.stroke_width,
        }
    }
}

impl PathData {
    /// A stroke has at least one point.
    pub fn is_drawable(&self) -> (r: bool)
        ensures
            r == (self@.points.len() >= 1),
    {
        self.points.len() >= 1
    }
}

/// A live edit message exchanged by the clients of a hub.
#[derive(Debug, Clone, PartialEq, Eq)]
pub enum WsMessage {
    /// A stroke that its author finished drawing.
    PathCompleted(PathData),
}

/// The persisted state of one hub.
#[derive(Debug, Clone, PartialEq, Eq)]
pub struct Hub {
    pub id: String,
    pub content: String,
    pub created_at: Timestamp,
    pub files: Vec<FileInfo>,
    pub whiteboard: Vec<PathData>,
}

pub struct HubView {
    pub id: Seq<char>,
    pub content: Seq<char>,
    pub created_at: Timestamp,
    pub files: Seq<FileView>,
    pub whiteboard: Seq<PathView>,
}

pub open spec fn files_view(files: Seq<FileInfo>) -> Seq<FileView> {
    files.map_values(|f: FileInfo| f@)
}

pub open spec fn paths_view(paths: Seq<PathData>) -> Seq<PathView> {
    paths.map_values(|p: PathData| p@)
}

impl View for Hub {
    type V = HubView;

    open spec fn view(&self) -> HubView {
        HubView {
            id: self.id@,
            content: self.content@,
            created_at: self.created_at,
            files: files_view(self.files@),
            whiteboard: paths_view(self.whiteboard@),
        }
    }
}

/// One change to a hub record.
#[derive(Debug, Clone, PartialEq, Eq)]
pub enum Edit {
    /// Replace the text bin.
    SetText(String),
    /// Append metadata of uploaded files, in upload order.
    AddFiles(Vec<FileInfo>),
    /// Append a completed whiteboard stroke.
    AddPath(PathData),
}

pub enum EditView {
    SetText(Seq<char>),
    AddFiles(Seq<FileView>),
    AddPath(PathView),
}

impl View for Edit {
    type V = EditView;

    open spec fn view(&self) -> EditView {
        match self {
            Edit::SetText(t) => EditView::SetText(t@),
            Edit::AddFiles(fs) => EditView::AddFiles(files_view(fs@)),
            Edit::AddPath(p) => EditView::AddPath(p@),
        }
    }
}

/// A fresh record: empty text, no files and an empty whiteboard.
pub open spec fn fresh_hub(id: Seq<char>, created_at: Timestamp) -> HubView {
    HubView {
        id,
        content: Seq::empty(),
        created_at,
        files: Seq::empty(),
        whiteboard: Seq::empty(),
    }
}

/// What an edit makes of a record. Files and strokes are only ever appended.
pub open spec fn edited(h: HubView, e: EditView) -> HubView {
    match e {
        EditView::SetText(t) => HubView { content: t, ..h },
        EditView::AddFiles(fs) => HubView { files: h.files + fs, ..h },
        EditView::AddPath(p) => HubView { whiteboard: h.whiteboard.push(p), ..h },
    }
}

/// The record that a hub starts with.
pub fn new_hub(id: String, created_at: Timestamp) -> (r: Hub)
    ensures
        r@ == fresh_hub(id@, created_at),
{
    let r = Hub {
        id,
        content: String::new(),
        created_at,
        files: Vec::new(),
        whiteboard: Vec::new(),
    };
    assert(r@.files =~= Seq::<FileView>::empty());
    assert(r@.whiteboard =~= Seq::<PathView>::empty());
    r
}

/// Applies an edit to a record; earlier files and strokes keep their places.
pub fn apply_edit(hub: Hub, edit: Edit) -> (r: Hub)
    ensures
        r@ == edited(hub@, edit@),
        hub@.files.is_prefix_of(r@.files),
        hub@.whiteboard.is_prefix_of(r@.whiteboard),
{
    let mut hub = hub;
    let ghost before = hub@;
    match edit {
        Edit::SetText(text) => {
            hub.content = text;
        },
        Edit::AddFiles(files) => {
            let ghost added = files@;
            let mut files = files;
            hub.files.append(&mut files);
            assert(files_view(hub.files@) =~= before.files + files_view(added));
        },
        Edit::AddPath(path) => {
            let ghost p = path@;
            hub.whiteboard.push(path);
            assert(paths_view(hub.whiteboard@) =~= before.whiteboard.push(p));
        },
    }
    assert(before.files.is_prefix_of(hub@.files));
    assert(before.whiteboard.is_prefix_of(hub@.whiteboard));
    hub
}

} // verus!
