use vstd::prelude::*;

verus! {

/// A snapshot of one node of the remote tree.
#[derive(Clone, Debug)]
pub struct AliyunFile {
    /// Identifier assigned by the drive; `"root"` is reserved for the tree root.
    pub id: String,
    /// Name of the node within its directory.
    pub name: String,
    pub is_dir: bool,
    pub size: u64,
    /// Modification time, in seconds since the Unix epoch.
    pub updated_at: i64,
}

/// The contents of a file snapshot as plain values.
pub struct FileView {
    pub id: Seq<char>,
    pub name: Seq<char>,
    pub is_dir: bool,
    pub size: u64,
    pub updated_at: i64,
}

impl View for AliyunFile {
    type V = FileView;

    open spec fn view(&self) -> FileView {
        FileView {
            id: self.id@,
            name: self.name@,
            is_dir: self.is_dir,
            size: self.size,
            updated_at: self.updated_at,
        }
    }
}

/// The identifier of the synthetic root.
pub open spec fn root_id() -> Seq<char> {
    seq!['r', 'o', 'o', 't']
}

/// The synthetic root directory, as plain values.
pub open spec fn root_view() -> FileView {
    FileView { id: root_id(), name: Seq::empty(), is_dir: true, size: 0, updated_at: 0 }
}

impl AliyunFile {
    /// The synthetic root of the tree; it is never fetched from the drive.
    pub fn new_root() -> (r: AliyunFile)
        ensures
            r@ == root_view(),
    {
        let id = String::from_str("root");
        proof {
            reveal_strlit("root");
            assert(id@ =~= root_id());
        }
        AliyunFile { id, name: String::new(), is_dir: true, size: 0, updated_at: 0 }
    }

    /// A copy of this snapshot.
    pub fn duplicate(&self) -> (r: AliyunFile)
        ensures
            r@ == self@,
    {
        AliyunFile {
            id: self.id.clone(),
            name: self.name.clone(),
            is_dir: self.is_dir,
            size: self.size,
            updated_at: self.updated_at,
        }
    }
}

} // verus!
