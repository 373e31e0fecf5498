//! Unified views of listings and file records, whichever protocol produced them.
use vstd::prelude::*;

use crate::api::v3::models as v3_models;
use crate::api::v4::models as v4_models;
use crate::text::str_eq;

verus! {

/// The legacy protocol's kind string for a directory.
pub open spec fn dir_kind() -> Seq<char> {
    seq!['d', 'i', 'r']
}

/// Whether a legacy entry's kind string marks a directory.
pub fn is_dir_kind(kind: &str) -> (r: bool)
    ensures
        r == (kind@ == dir_kind()),
{
    proof {
        reveal_strlit("dir");
    }
    assert("dir"@ =~= dir_kind());
    str_eq(kind, "dir")
}

/// One file or folder of a listing, in protocol-neutral form.
#[derive(Debug, Clone)]
pub struct FileItem {
    pub name: String,
    pub is_folder: bool,
    pub size: i64,
}

/// `it` presents the legacy entry `o`.
pub open spec fn item_of_v3(it: FileItem, o: v3_models::Object) -> bool {
    &&& it.name@ == o.name@
    &&& it.is_folder == (o.object_type@ == dir_kind())
    &&& it.size == o.size
}

/// `it` presents the current-protocol entry `f`.
pub open spec fn item_of_v4(it: FileItem, f: v4_models::File) -> bool {
    &&& it.name@ == f.name@
    &&& it.is_folder == (f.kind == v4_models::FileType::Folder)
    &&& it.size == f.size
}

fn item_from_v3(o: &v3_models::Object) -> (r: FileItem)
    ensures
        item_of_v3(r, *o),
{
    FileItem { name: o.name.clone(), is_folder: is_dir_kind(o.object_type.as_str()), size: o.size }
}

fn item_from_v4(f: &v4_models::File) -> (r: FileItem)
    ensures
        item_of_v4(r, *f),
{
    let is_folder = match f.kind {
        v4_models::FileType::Folder => true,
        v4_models::FileType::File => false,
    };
    FileItem { name: f.name.clone(), is_folder, size: f.size }
}

/// The entries of a legacy listing, in order.
pub fn items_of_v3(objects: &Vec<v3_models::Object>) -> (r: Vec<FileItem>)
    ensures
        r@.len() == objects@.len(),
        forall|i: int| 0 <= i < objects@.len() ==> item_of_v3(#[trigger] r@[i], objects@[i]),
{
    let mut out: Vec<FileItem> = Vec::new();
    let mut i: usize = 0;
    while i < objects.len()
        invariant
            0 <= i <= objects@.len(),
            out@.len() == i,
            forall|j: int| 0 <= j < i ==> item_of_v3(#[trigger] out@[j], objects@[j]),
        decreases objects@.len() - i,
    {
        out.push(item_from_v3(&objects[i]));
        i = i + 1;
    }
    out
}

/// The entries of a current-protocol listing, in order.
pub fn items_of_v4(files: &Vec<v4_models::File>) -> (r: Vec<FileItem>)
    ensures
        r@.len() == files@.len(),
        forall|i: int| 0 <= i < files@.len() ==> item_of_v4(#[trigger] r@[i], files@[i]),
{
    let mut out: Vec<FileItem> = Vec::new();
    let mut i: usize = 0;
    while i < files.len()
        invariant
            0 <= i <= files@.len(),
            out@.len() == i,
            forall|j: int| 0 <= j < i ==> item_of_v4(#[trigger] out@[j], files@[j]),
        decreases files@.len() - i,
    {
        out.push(item_from_v4(&files[i]));
        i = i + 1;
    }
    out
}

/// `r` is the optional id of an optional storage policy.
pub open spec fn policy_id_of(r: Option<String>, p: Option<v4_models::StoragePolicy>) -> bool {
    match p {
        Some(p) => r is Some && r->Some_0@ == p.id@,
        None => r is None,
    }
}

/// `r` is the optional name of an optional storage policy.
pub open spec fn policy_name_of(r: Option<String>, p: Option<v4_models::StoragePolicy>) -> bool {
    match p {
        Some(p) => r is Some && r->Some_0@ == p.name@,
        None => r is None,
    }
}

/// `r` carries the same optional text as `t`.
pub open spec fn same_opt_text(r: Option<String>, t: Option<String>) -> bool {
    match t {
        Some(t) => r is Some && r->Some_0@ == t@,
        None => r is None,
    }
}

fn policy_id(p: &Option<v4_models::StoragePolicy>) -> (r: Option<String>)
    ensures
        policy_id_of(r, *p),
{
    match p {
        Some(p) => Some(p.id.clone()),
        None => None,
    }
}

fn policy_name(p: &Option<v4_models::StoragePolicy>) -> (r: Option<String>)
    ensures
        policy_name_of(r, *p),
{
    match p {
        Some(p) => Some(p.name.clone()),
        None => None,
    }
}

fn clone_opt_text(t: &Option<String>) -> (r: Option<String>)
    ensures
        same_opt_text(r, *t),
{
    match t {
        Some(t) => Some(t.clone()),
        None => None,
    }
}

/// One page of a directory listing.
#[derive(Debug)]
pub enum FileList {
    V3(v3_models::DirectoryList),
    V4(Box<v4_models::ListResponse>),
}

/// Every page of a directory listing combined.
#[derive(Debug)]
pub enum FileListAll {
    V3(v3_models::DirectoryList),
    V4(Box<v4_models::ListResponse>),
}

impl FileList {
    /// The parent directory's name; the legacy protocol gives its id.
    pub fn parent_name(&self) -> (r: String)
        ensures
            r@ == match self {
                FileList::V3(d) => d.parent@,
                FileList::V4(l) => l.parent.name@,
            },
    {
        match self {
            FileList::V3(d) => d.parent.clone(),
            FileList::V4(l) => l.parent.name.clone(),
        }
    }

    /// The parent directory's id.
    pub fn parent_id(&self) -> (r: String)
        ensures
            r@ == match self {
                FileList::V3(d) => d.parent@,
                FileList::V4(l) => l.parent.id@,
            },
    {
        match self {
            FileList::V3(d) => d.parent.clone(),
            FileList::V4(l) => l.parent.id.clone(),
        }
    }

    /// The parent directory's path; empty under the legacy protocol.
    pub fn parent_path(&self) -> (r: String)
        ensures
            r@ == match self {
                FileList::V3(_) => Seq::<char>::empty(),
                FileList::V4(l) => l.parent.path@,
            },
    {
        match self {
            FileList::V3(_) => String::new(),
            FileList::V4(l) => l.parent.path.clone(),
        }
    }

    /// The storage policy's id (current protocol only).
    pub fn storage_policy_id(&self) -> (r: Option<String>)
        ensures
            match self {
                FileList::V3(_) => r is None,
                FileList::V4(l) => policy_id_of(r, l.storage_policy),
            },
    {
        match self {
            FileList::V3(_) => None,
            FileList::V4(l) => policy_id(&l.storage_policy),
        }
    }

    /// The storage policy's name (current protocol only).
    pub fn storage_policy_name(&self) -> (r: Option<String>)
        ensures
            match self {
                FileList::V3(_) => r is None,
                FileList::V4(l) => policy_name_of(r, l.storage_policy),
            },
    {
        match self {
            FileList::V3(_) => None,
            FileList::V4(l) => policy_name(&l.storage_policy),
        }
    }

    /// The files and folders of the page, in order.
    pub fn items(&self) -> (r: Vec<FileItem>)
        ensures
            match self {
                FileList::V3(d) => r@.len() == d.objects@.len() && forall|i: int|
                    0 <= i < d.objects@.len() ==> item_of_v3(#[trigger] r@[i], d.objects@[i]),
                FileList::V4(l) => r@.len() == l.files@.len() && forall|i: int|
                    0 <= i < l.files@.len() ==> item_of_v4(#[trigger] r@[i], l.files@[i]),
            },
    {
        match self {
            FileList::V3(d) => items_of_v3(&d.objects),
            FileList::V4(l) => items_of_v4(&l.files),
        }
    }

    /// The number of files and folders on the page.
    pub fn total_count(&self) -> (r: usize)
        ensures
            r == match self {
                FileList::V3(d) => d.objects@.len(),
                FileList::V4(l) => l.files@.len(),
            },
    {
        self.items().len()
    }

    /// The token of the next page (current protocol only).
    pub fn next_token(&self) -> (r: Option<String>)
        ensures
            match self {
                FileList::V3(_) => r is None,
                FileList::V4(l) => same_opt_text(r, l.pagination.next_token),
            },
    {
        match self {
            FileList::V3(_) => None,
            FileList::V4(l) => clone_opt_text(&l.pagination.next_token),
        }
    }

    /// The server's count of all items (current protocol only).
    pub fn total_items(&self) -> (r: Option<i64>)
        ensures
            r == match self {
                FileList::V3(_) => None,
                FileList::V4(l) => l.pagination.total_items,
            },
    {
        match self {
            FileList::V3(_) => None,
            FileList::V4(l) => l.pagination.total_items,
        }
    }

    /// Whether a next page exists.
    pub fn has_more_pages(&self) -> (r: bool)
        ensures
            r == match self {
                FileList::V3(_) => false,
                FileList::V4(l) => l.pagination.next_token is Some,
            },
    {
        self.next_token().is_some()
    }
}

impl FileListAll {
    /// The parent directory's name; the legacy protocol gives its id.
    pub fn parent_name(&self) -> (r: String)
        ensures
            r@ == match self {
                FileListAll::V3(d) => d.parent@,
                FileListAll::V4(l) => l.parent.name@,
            },
    {
        match self {
            FileListAll::V3(d) => d.parent.clone(),
            FileListAll::V4(l) => l.parent.name.clone(),
        }
    }

    /// The parent directory's id.
    pub fn parent_id(&self) -> (r: String)
        ensures
            r@ == match self {
                FileListAll::V3(d) => d.parent@,
                FileListAll::V4(l) => l.parent.id@,
            },
    {
        match self {
            FileListAll::V3(d) => d.parent.clone(),
            FileListAll::V4(l) => l.parent.id.clone(),
        }
    }

    /// The parent directory's path; empty under the legacy protocol.
    pub fn parent_path(&self) -> (r: String)
        ensures
            r@ == match self {
                FileListAll::V3(_) => Seq::<char>::empty(),
                FileListAll::V4(l) => l.parent.path@,
            },
    {
        match self {
            FileListAll::V3(_) => String::new(),
            FileListAll::V4(l) => l.parent.path.clone(),
        }
    }

    /// The storage policy's id (current protocol only).
    pub fn storage_policy_id(&self) -> (r: Option<String>)
        ensures
            match self {
                FileListAll::V3(_) => r is None,
                FileListAll::V4(l) => policy_id_of(r, l.storage_policy),
            },
    {
        match self {
            FileListAll::V3(_) => None,
            FileListAll::V4(l) => policy_id(&l.storage_policy),
        }
    }

    /// The storage policy's name (current protocol only).
    pub fn storage_policy_name(&self) -> (r: Option<String>)
        ensures
            match self {
                FileListAll::V3(_) => r is None,
                FileListAll::V4(l) => policy_name_of(r, l.storage_policy),
            },
    {
        match self {
            FileListAll::V3(_) => None,
            FileListAll::V4(l) => policy_name(&l.storage_policy),
        }
    }

    /// The files and folders of all pages, in order.
    pub fn items(&self) -> (r: Vec<FileItem>)
        ensures
            match self {
                FileListAll::V3(d) => r@.len() == d.objects@.len() && forall|i: int|
                    0 <= i < d.objects@.len() ==> item_of_v3(#[trigger] r@[i], d.objects@[i]),
                FileListAll::V4(l) => r@.len() == l.files@.len() && forall|i: int|
                    0 <= i < l.files@.len() ==> item_of_v4(#[trigger] r@[i], l.files@[i]),
            },
    {
        match self {
            FileListAll::V3(d) => items_of_v3(&d.objects),
            FileListAll::V4(l) => items_of_v4(&l.files),
        }
    }

    /// The number of files and folders over all pages.
    pub fn total_count(&self) -> (r: usize)
        ensures
            r == match self {
                FileListAll::V3(d) => d.objects@.len(),
                FileListAll::V4(l) => l.files@.len(),
            },
    {
        self.items().len()
    }

    /// The server's count of all items (current protocol only).
    pub fn total_items(&self) -> (r: Option<i64>)
        ensures
            r == match self {
                FileListAll::V3(_) => None,
                FileListAll::V4(l) => l.pagination.total_items,
            },
    {
        match self {
            FileListAll::V3(_) => None,
            FileListAll::V4(l) => l.pagination.total_items,
        }
    }
}

/// One file record, whichever protocol produced it.
#[derive(Debug, Clone)]
pub enum FileInfo {
    V3(v3_models::Object),
    V4(v4_models::File),
}

impl FileInfo {
    /// The file's name.
    pub fn name(&self) -> (r: String)
        ensures
            r@ == match self {
                FileInfo::V3(o) => o.name@,
                FileInfo::V4(f) => f.name@,
            },
    {
        match self {
            FileInfo::V3(o) => o.name.clone(),
            FileInfo::V4(f) => f.name.clone(),
        }
    }

    /// The file's size in bytes.
    pub fn size(&self) -> (r: i64)
        ensures
            r == match self {
                FileInfo::V3(o) => o.size,
                FileInfo::V4(f) => f.size,
            },
    {
        match self {
            FileInfo::V3(o) => o.size,
            FileInfo::V4(f) => f.size,
        }
    }

    /// Whether the record is a folder.
    pub fn is_folder(&self) -> (r: bool)
        ensures
            r == match self {
                FileInfo::V3(o) => o.object_type@ == dir_kind(),
                FileInfo::V4(f) => f.kind == v4_models::FileType::Folder,
            },
    {
        match self {
            FileInfo::V3(o) => is_dir_kind(o.object_type.as_str()),
            FileInfo::V4(f) => match f.kind {
                v4_models::FileType::Folder => true,
                v4_models::FileType::File => false,
            },
        }
    }

    /// The file's path.
    pub fn path(&self) -> (r: String)
        ensures
            r@ == match self {
                FileInfo::V3(o) => o.path@,
                FileInfo::V4(f) => f.path@,
            },
    {
        match self {
            FileInfo::V3(o) => o.path.clone(),
            FileInfo::V4(f) => f.path.clone(),
        }
    }

    /// When the file was created.
    pub fn created_at(&self) -> (r: String)
        ensures
            r@ == match self {
                FileInfo::V3(o) => o.create_date@,
                FileInfo::V4(f) => f.created_at@,
            },
    {
        match self {
            FileInfo::V3(o) => o.create_date.clone(),
            FileInfo::V4(f) => f.created_at.clone(),
        }
    }

    /// When the file was last changed.
    pub fn updated_at(&self) -> (r: String)
        ensures
            r@ == match self {
                FileInfo::V3(o) => o.date@,
                FileInfo::V4(f) => f.updated_at@,
            },
    {
        match self {
            FileInfo::V3(o) => o.date.clone(),
            FileInfo::V4(f) => f.updated_at.clone(),
        }
    }
}

} // verus!
