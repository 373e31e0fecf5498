//! Deletion of one or many paths, with a per-item report.
//!
//! Under the legacy protocol the targets are grouped by parent directory,
//! so that each parent is listed once, then resolved to identifiers and
//! split into files and folders. Under the current protocol the whole batch
//! goes in one call and, should that fail, one call per path. Either way a
//! failing item is recorded and the batch goes on.
use vstd::prelude::*;

use crate::api::v3::models::{DeleteObjectRequest, DirectoryList, Object};
use crate::api::v4::models::DeleteFileRequest;
use crate::api::v4::uri::uri_scheme;
use crate::cloudreve_api::file::dir_kind;
use crate::cloudreve_api::path::{normalize_path, parent_dir, root_path};
use crate::cloudreve_api::plan::dir_part;
use crate::cloudreve_api::resolve::{find_object, first_named, has_named, is_root, texts};
use crate::error::Error;
use crate::text::{concat_str, decimal, decimal_of, has_prefix, starts_with, str_eq};

verus! {

/// What to delete: a path or a resource URI.
#[derive(Debug, Clone)]
pub enum DeleteTarget {
    Path(String),
    Uri(String),
}

/// The text of a delete target.
pub open spec fn target_text(t: DeleteTarget) -> Seq<char> {
    match t {
        DeleteTarget::Path(s) => s@,
        DeleteTarget::Uri(s) => s@,
    }
}

impl DeleteTarget {
    /// A URI target when `s` carries the URI scheme, a path target otherwise.
    pub fn from_text(s: String) -> (r: DeleteTarget)
        ensures
            has_prefix(s@, uri_scheme()) ==> r == DeleteTarget::Uri(s),
            !has_prefix(s@, uri_scheme()) ==> r == DeleteTarget::Path(s),
    {
        proof {
            reveal_strlit("cloudreve://");
        }
        assert("cloudreve://"@ =~= uri_scheme());
        if starts_with(s.as_str(), "cloudreve://") {
            DeleteTarget::Uri(s)
        } else {
            DeleteTarget::Path(s)
        }
    }

    /// The target's text.
    pub fn as_str(&self) -> (r: &str)
        ensures
            r@ == target_text(*self),
    {
        match self {
            DeleteTarget::Path(s) => s.as_str(),
            DeleteTarget::Uri(s) => s.as_str(),
        }
    }
}

impl From<String> for DeleteTarget {
    fn from(s: String) -> DeleteTarget {
        DeleteTarget::from_text(s)
    }
}

impl vstd::std_specs::convert::FromSpecImpl<String> for DeleteTarget {
    open spec fn obeys_from_spec() -> bool {
        true
    }

    open spec fn from_spec(s: String) -> DeleteTarget {
        if has_prefix(s@, uri_scheme()) {
            DeleteTarget::Uri(s)
        } else {
            DeleteTarget::Path(s)
        }
    }
}

/// The outcome of a batch deletion: how many items went, how many did not,
/// and for each failure the path and the reason.
#[derive(Debug, Default)]
pub struct DeleteResult {
    pub deleted: usize,
    pub failed: usize,
    pub errors: Vec<(String, String)>,
}

/// `e` records a failure of `path` with `reason`.
pub open spec fn is_failure(e: (String, String), path: Seq<char>, reason: Seq<char>) -> bool {
    e.0@ == path && e.1@ == reason
}

/// The reason recorded for a path that its parent's listing lacks.
pub open spec fn not_found_reason() -> Seq<char> {
    seq!['F', 'i', 'l', 'e', ' ', 'n', 'o', 't', ' ', 'f', 'o', 'u', 'n', 'd']
}

impl DeleteResult {
    /// Nothing deleted, nothing failed.
    pub fn empty() -> (r: DeleteResult)
        ensures
            r.deleted == 0,
            r.failed == 0,
            r.errors@.len() == 0,
    {
        DeleteResult { deleted: 0, failed: 0, errors: Vec::new() }
    }

    /// Counts `n` more items as deleted.
    pub fn record_deleted(&mut self, n: usize)
        requires
            old(self).deleted + n <= usize::MAX,
        ensures
            final(self).deleted == old(self).deleted + n,
            final(self).failed == old(self).failed,
            final(self).errors@ == old(self).errors@,
    {
        self.deleted = self.deleted + n;
    }

    /// Records that `path` failed with `reason`.
    pub fn record_failure(&mut self, path: &str, reason: &str)
        requires
            old(self).failed < usize::MAX,
        ensures
            final(self).deleted == old(self).deleted,
            final(self).failed == old(self).failed + 1,
            final(self).errors@.len() == old(self).errors@.len() + 1,
            final(self).errors@.subrange(0, old(self).errors@.len() as int) == old(self).errors@,
            is_failure(final(self).errors@.last(), path@, reason@),
    {
        self.failed = self.failed + 1;
        self.errors.push((String::from_str(path), String::from_str(reason)));
        assert(self.errors@.subrange(0, old(self).errors@.len() as int) =~= old(self).errors@);
    }

    /// Records that `path` was missing from its parent's listing.
    pub fn record_missing(&mut self, path: &str)
        requires
            old(self).failed < usize::MAX,
        ensures
            final(self).deleted == old(self).deleted,
            final(self).failed == old(self).failed + 1,
            final(self).errors@.len() == old(self).errors@.len() + 1,
            final(self).errors@.subrange(0, old(self).errors@.len() as int) == old(self).errors@,
            is_failure(final(self).errors@.last(), path@, not_found_reason()),
    {
        proof {
            reveal_strlit("File not found");
        }
        assert("File not found"@ =~= not_found_reason());
        self.record_failure(path, "File not found");
    }

    /// Records that every path of `paths` failed with the same `reason`.
    pub fn record_all_failed(&mut self, paths: &[&str], reason: &str)
        requires
            old(self).failed + paths@.len() <= usize::MAX,
        ensures
            final(self).deleted == old(self).deleted,
            final(self).failed == old(self).failed + paths@.len(),
            final(self).errors@.len() == old(self).errors@.len() + paths@.len(),
            final(self).errors@.subrange(0, old(self).errors@.len() as int) == old(self).errors@,
            forall|k: int|
                0 <= k < paths@.len() ==> is_failure(
                    #[trigger] final(self).errors@[old(self).errors@.len() + k],
                    paths@[k]@,
                    reason@,
                ),
    {
        let ghost start = self.errors@;
        let mut i: usize = 0;
        while i < paths.len()
            invariant
                0 <= i <= paths@.len(),
                self.deleted == old(self).deleted,
                self.failed == old(self).failed + i,
                old(self).failed + paths@.len() <= usize::MAX,
                start == old(self).errors@,
                self.errors@.len() == start.len() + i,
                self.errors@.subrange(0, start.len() as int) == start,
                forall|k: int|
                    0 <= k < i ==> is_failure(#[trigger] self.errors@[start.len() + k], paths@[k]@, reason@),
            decreases paths@.len() - i,
        {
            let ghost before = self.errors@;
            self.record_failure(paths[i], reason);
            proof {
                assert forall|k: int| 0 <= k < i + 1 implies is_failure(
                    #[trigger] self.errors@[start.len() + k],
                    paths@[k]@,
                    reason@,
                ) by {
                    if k < i {
                        assert(self.errors@.subrange(0, before.len() as int)[start.len() + k]
                            == self.errors@[start.len() + k]);
                    }
                }
                assert(self.errors@.subrange(0, start.len() as int) =~= before.subrange(
                    0,
                    start.len() as int,
                ));
            }
            i = i + 1;
        }
    }

    /// Records the outcome of deleting `path` alone under the current
    /// protocol: the server's code, or the transport's error message. A
    /// non-zero code is reported as `API error code: <code>`.
    pub fn record_single(&mut self, path: &str, outcome: Result<i32, String>)
        requires
            old(self).deleted < usize::MAX,
            old(self).failed < usize::MAX,
        ensures
            outcome == Ok::<i32, String>(0) ==> final(self).deleted == old(self).deleted + 1
                && final(self).failed == old(self).failed && final(self).errors@ == old(self).errors@,
            outcome != Ok::<i32, String>(0) ==> final(self).deleted == old(self).deleted
                && final(self).failed == old(self).failed + 1 && final(self).errors@.len()
                == old(self).errors@.len() + 1 && final(self).errors@.subrange(
                0,
                old(self).errors@.len() as int,
            ) == old(self).errors@ && final(self).errors@.last().0@ == path@,
            outcome is Ok && outcome->Ok_0 != 0 ==> final(self).errors@.last().1@ == seq![
                'A', 'P', 'I', ' ', 'e', 'r', 'r', 'o', 'r', ' ', 'c', 'o', 'd', 'e', ':', ' ',
            ] + decimal_of(outcome->Ok_0 as int),
            outcome is Err ==> final(self).errors@.last().1@ == outcome->Err_0@,
    {
        proof {
            reveal_strlit("API error code: ");
        }
        match outcome {
            Ok(code) => {
                if code == 0 {
                    self.record_deleted(1);
                } else {
                    let msg = concat_str("API error code: ", decimal(code as i64).as_str());
                    self.record_failure(path, msg.as_str());
                }
            },
            Err(m) => {
                self.record_failure(path, m.as_str());
            },
        }
    }
}

/// The paths of a legacy batch grouped by parent directory: `parents` holds
/// each parent once, and `group_of[i]` is the index of the parent of path `i`.
#[derive(Debug, Clone)]
pub struct ParentGroups {
    pub parents: Vec<String>,
    pub group_of: Vec<usize>,
}

/// `g` groups `paths` by their parent directories, each parent once.
pub open spec fn groups_paths(g: ParentGroups, paths: Seq<&str>) -> bool {
    &&& g.group_of@.len() == paths.len()
    &&& forall|i: int|
        0 <= i < paths.len() ==> (#[trigger] g.group_of@[i]) < g.parents@.len() && g.parents@[g.group_of@[i] as int]@
            == dir_part(paths[i]@)
    &&& forall|a: int, b: int|
        0 <= a < b < g.parents@.len() ==> (#[trigger] g.parents@[a])@ != (#[trigger] g.parents@[b])@
}

fn index_of_text(v: &Vec<String>, s: &str) -> (r: Option<usize>)
    ensures
        r matches Some(k) ==> k < v@.len() && v@[k as int]@ == s@,
        r is None ==> forall|k: int| 0 <= k < v@.len() ==> (#[trigger] v@[k])@ != s@,
{
    let mut k: usize = 0;
    while k < v.len()
        invariant
            0 <= k <= v@.len(),
            forall|j: int| 0 <= j < k ==> (#[trigger] v@[j])@ != s@,
        decreases v@.len() - k,
    {
        if str_eq(v[k].as_str(), s) {
            return Some(k);
        }
        k = k + 1;
    }
    None
}

/// Groups the paths of a legacy batch by parent directory, in order of
/// first appearance. The root cannot be deleted: a batch that holds it is
/// refused before any request.
pub fn group_by_parent(paths: &[&str]) -> (r: Result<ParentGroups, Error>)
    ensures
        r is Err <==> exists|i: int| 0 <= i < paths@.len() && is_root(#[trigger] paths@[i]@),
        r matches Err(e) ==> e is InvalidArgument,
        r matches Ok(g) ==> groups_paths(g, paths@),
{
    proof {
        reveal_strlit("/");
    }
    assert("/"@ =~= root_path());
    let mut parents: Vec<String> = Vec::new();
    let mut group_of: Vec<usize> = Vec::new();
    let mut i: usize = 0;
    while i < paths.len()
        invariant
            0 <= i <= paths@.len(),
            group_of@.len() == i,
            forall|j: int| 0 <= j < i ==> !is_root(#[trigger] paths@[j]@),
            forall|j: int|
                0 <= j < i ==> (#[trigger] group_of@[j]) < parents@.len() && parents@[group_of@[j] as int]@
                    == dir_part(paths@[j]@),
            forall|a: int, b: int|
                0 <= a < b < parents@.len() ==> (#[trigger] parents@[a])@ != (#[trigger] parents@[b])@,
        decreases paths@.len() - i,
    {
        proof {
            reveal_strlit("/");
        }
        assert("/"@ =~= root_path());
        let normalized = normalize_path(paths[i]);
        if str_eq(normalized, "/") {
            assert(is_root(paths@[i as int]@));
            return Err(Error::InvalidArgument(String::from_str("Cannot delete root directory")));
        }
        assert(!is_root(paths@[i as int]@));
        let parent = parent_dir(normalized);
        match index_of_text(&parents, parent) {
            Some(k) => {
                group_of.push(k);
            },
            None => {
                let k = parents.len();
                parents.push(String::from_str(parent));
                group_of.push(k);
            },
        }
        i = i + 1;
    }
    let g = ParentGroups { parents, group_of };
    Ok(g)
}

/// The indices of the paths in group `k`, in order.
pub fn members(g: &ParentGroups, k: usize) -> (r: Vec<usize>)
    ensures
        forall|j: int| 0 <= j < r@.len() ==> (#[trigger] r@[j]) < g.group_of@.len() && g.group_of@[r@[j] as int] == k,
        forall|i: usize| i < g.group_of@.len() && g.group_of@[i as int] == k ==> #[trigger] r@.contains(i),
        forall|a: int, b: int| 0 <= a < b < r@.len() ==> (#[trigger] r@[a]) < (#[trigger] r@[b]),
{
    let mut out: Vec<usize> = Vec::new();
    let mut i: usize = 0;
    while i < g.group_of.len()
        invariant
            0 <= i <= g.group_of@.len(),
            forall|j: int| 0 <= j < out@.len() ==> (#[trigger] out@[j]) < i && g.group_of@[out@[j] as int] == k,
            forall|m: usize| m < i && g.group_of@[m as int] == k ==> #[trigger] out@.contains(m),
            forall|a: int, b: int| 0 <= a < b < out@.len() ==> (#[trigger] out@[a]) < (#[trigger] out@[b]),
        decreases g.group_of@.len() - i,
    {
        let ghost before = out@;
        if g.group_of[i] == k {
            out.push(i);
            assert(out@[out@.len() - 1] == i);
        }
        assert forall|m: usize| m < i + 1 && g.group_of@[m as int] == k implies #[trigger] out@.contains(m) by {
            if m < i {
                assert(before.contains(m));
                let w = choose|w: int| 0 <= w < before.len() && before[w] == m;
                assert(out@[w] == m);
            } else {
                assert(out@[out@.len() - 1] == m);
            }
        }
        i = i + 1;
    }
    out
}

/// The identifiers that a listing gives the names of one group, split into
/// files and folders, with the positions of the names it found and of those
/// it lacks, and for each found name the index of its entry.
#[derive(Debug, Clone)]
pub struct GroupResolution {
    pub file_ids: Vec<String>,
    pub folder_ids: Vec<String>,
    pub found: Vec<usize>,
    pub entries: Vec<usize>,
    pub missing: Vec<usize>,
}

/// The identifiers of the entries `entries` of `objects` that are
/// directories exactly when `want_dir`, in order.
pub open spec fn ids_of_kind(objects: Seq<Object>, entries: Seq<usize>, want_dir: bool) -> Seq<Seq<char>>
    decreases entries.len(),
{
    if entries.len() == 0 {
        Seq::<Seq<char>>::empty()
    } else if (objects[entries.last() as int].object_type@ == dir_kind()) == want_dir {
        ids_of_kind(objects, entries.drop_last(), want_dir).push(objects[entries.last() as int].id@)
    } else {
        ids_of_kind(objects, entries.drop_last(), want_dir)
    }
}

/// The positions in `v` increase.
pub open spec fn increasing(v: Seq<usize>) -> bool {
    forall|a: int, b: int| 0 <= a < b < v.len() ==> (#[trigger] v[a]) < (#[trigger] v[b])
}

/// Resolves the names `names` of one group in their parent's listing: each
/// found name is resolved to the first entry of that name, and the ids of
/// those entries are split into files and folders in the order of the names.
pub fn resolve_group(list: &DirectoryList, names: &[&str]) -> (r: GroupResolution)
    ensures
        r.found@.len() + r.missing@.len() == names@.len(),
        r.entries@.len() == r.found@.len(),
        increasing(r.found@),
        increasing(r.missing@),
        forall|j: int| 0 <= j < r.found@.len() ==> (#[trigger] r.found@[j]) < names@.len()
            && first_named(list.objects@, names@[r.found@[j] as int]@, r.entries@[j] as int),
        forall|j: int| 0 <= j < r.missing@.len() ==> (#[trigger] r.missing@[j]) < names@.len()
            && !has_named(list.objects@, names@[r.missing@[j] as int]@),
        forall|j: usize|
            #![trigger r.found@.contains(j)]
            #![trigger r.missing@.contains(j)]
            j < names@.len() ==> (r.found@.contains(j) || r.missing@.contains(j)),
        texts(r.file_ids@) == ids_of_kind(list.objects@, r.entries@, false),
        texts(r.folder_ids@) == ids_of_kind(list.objects@, r.entries@, true),
{
    let mut file_ids: Vec<String> = Vec::new();
    let mut folder_ids: Vec<String> = Vec::new();
    let mut found: Vec<usize> = Vec::new();
    let mut entries: Vec<usize> = Vec::new();
    let mut missing: Vec<usize> = Vec::new();
    let mut j: usize = 0;
    assert(texts(file_ids@) =~= ids_of_kind(list.objects@, entries@, false));
    assert(texts(folder_ids@) =~= ids_of_kind(list.objects@, entries@, true));
    while j < names.len()
        invariant
            0 <= j <= names@.len(),
            found@.len() + missing@.len() == j,
            entries@.len() == found@.len(),
            forall|q: int| 0 <= q < found@.len() ==> (#[trigger] found@[q]) < j
                && first_named(list.objects@, names@[found@[q] as int]@, entries@[q] as int),
            forall|q: int| 0 <= q < missing@.len() ==> (#[trigger] missing@[q]) < j
                && !has_named(list.objects@, names@[missing@[q] as int]@),
            increasing(found@),
            increasing(missing@),
            forall|q: usize|
                #![trigger found@.contains(q)]
                #![trigger missing@.contains(q)]
                q < j ==> (found@.contains(q) || missing@.contains(q)),
            texts(file_ids@) == ids_of_kind(list.objects@, entries@, false),
            texts(folder_ids@) == ids_of_kind(list.objects@, entries@, true),
        decreases names@.len() - j,
    {
        proof {
            reveal_strlit("dir");
        }
        assert("dir"@ =~= dir_kind());
        let ghost found_before = found@;
        let ghost missing_before = missing@;
        let ghost entries_before = entries@;
        match find_object(&list.objects, names[j]) {
            Some(i) => {
                let o = &list.objects[i];
                entries.push(i);
                assert(entries@.drop_last() =~= entries_before);
                if str_eq(o.object_type.as_str(), "dir") {
                    let ghost fb = folder_ids@;
                    folder_ids.push(o.id.clone());
                    assert(texts(folder_ids@) =~= texts(fb).push(o.id@));
                } else {
                    let ghost fb = file_ids@;
                    file_ids.push(o.id.clone());
                    assert(texts(file_ids@) =~= texts(fb).push(o.id@));
                }
                found.push(j);
                assert(found@[found@.len() - 1] == j);
            },
            None => {
                missing.push(j);
                assert(missing@[missing@.len() - 1] == j);
            },
        }
        assert forall|q: usize|
            #![trigger found@.contains(q)]
            #![trigger missing@.contains(q)]
            q < j + 1 implies (found@.contains(q) || missing@.contains(q)) by {
            if q < j {
                if found_before.contains(q) {
                    let w = choose|w: int| 0 <= w < found_before.len() && found_before[w] == q;
                    assert(found@[w] == q);
                } else {
                    assert(missing_before.contains(q));
                    let w = choose|w: int| 0 <= w < missing_before.len() && missing_before[w] == q;
                    assert(missing@[w] == q);
                }
            } else if found@.len() > found_before.len() {
                assert(found@[found@.len() - 1] == q);
            } else {
                assert(missing@[missing@.len() - 1] == q);
            }
        }
        j = j + 1;
    }
    GroupResolution { file_ids, folder_ids, found, entries, missing }
}

/// The legacy request that deletes a group's resolved entries in one call.
pub fn group_delete_request(res: &GroupResolution) -> (r: DeleteObjectRequest<'_>)
    ensures
        r.items@.len() == res.file_ids@.len(),
        r.dirs@.len() == res.folder_ids@.len(),
        forall|k: int| 0 <= k < r.items@.len() ==> (#[trigger] r.items@[k])@ == res.file_ids@[k]@,
        forall|k: int| 0 <= k < r.dirs@.len() ==> (#[trigger] r.dirs@[k])@ == res.folder_ids@[k]@,
        r.force,
        !r.unlink,
{
    let mut items: Vec<&str> = Vec::new();
    let mut k: usize = 0;
    while k < res.file_ids.len()
        invariant
            0 <= k <= res.file_ids@.len(),
            items@.len() == k,
            forall|q: int| 0 <= q < k ==> (#[trigger] items@[q])@ == res.file_ids@[q]@,
        decreases res.file_ids@.len() - k,
    {
        items.push(res.file_ids[k].as_str());
        k = k + 1;
    }
    let mut dirs: Vec<&str> = Vec::new();
    let mut k: usize = 0;
    while k < res.folder_ids.len()
        invariant
            0 <= k <= res.folder_ids@.len(),
            dirs@.len() == k,
            forall|q: int| 0 <= q < k ==> (#[trigger] dirs@[q])@ == res.folder_ids@[q]@,
        decreases res.folder_ids@.len() - k,
    {
        dirs.push(res.folder_ids[k].as_str());
        k = k + 1;
    }
    DeleteObjectRequest { items, dirs, force: true, unlink: false }
}

/// The current-protocol request that deletes the resources `uris` in one
/// call, with the server's default handling of links and the trash.
pub fn delete_files_request(uris: &Vec<String>) -> (r: DeleteFileRequest<'_>)
    ensures
        r.uris@.len() == uris@.len(),
        forall|k: int| 0 <= k < uris@.len() ==> (#[trigger] r.uris@[k])@ == uris@[k]@,
        r.unlink is None,
        r.skip_soft_delete is None,
{
    let mut out: Vec<&str> = Vec::new();
    let mut k: usize = 0;
    while k < uris.len()
        invariant
            0 <= k <= uris@.len(),
            out@.len() == k,
            forall|q: int| 0 <= q < k ==> (#[trigger] out@[q])@ == uris@[q]@,
        decreases uris@.len() - k,
    {
        out.push(uris[k].as_str());
        k = k + 1;
    }
    DeleteFileRequest { uris: out, unlink: None, skip_soft_delete: None }
}

impl DeleteResult {
    /// Records what became of one legacy group once its parent was listed:
    /// each path whose name the listing lacks fails with `File not found`,
    /// in order; then the group's single delete call, made exactly when
    /// some name was found, either deletes all found entries or fails each
    /// of their paths with its error message. Every path of the group is
    /// counted once, as deleted or as failed.
    pub fn finish_group(
        &mut self,
        group_paths: &[&str],
        res: &GroupResolution,
        delete_outcome: Option<Result<(), String>>,
    )
        requires
            res.found@.len() + res.missing@.len() == group_paths@.len(),
            forall|j: int| 0 <= j < res.found@.len() ==> (#[trigger] res.found@[j]) < group_paths@.len(),
            forall|j: int| 0 <= j < res.missing@.len() ==> (#[trigger] res.missing@[j]) < group_paths@.len(),
            delete_outcome is Some <==> res.found@.len() > 0,
            old(self).deleted + group_paths@.len() <= usize::MAX,
            old(self).failed + group_paths@.len() <= usize::MAX,
        ensures
            final(self).deleted + final(self).failed == old(self).deleted + old(self).failed
                + group_paths@.len(),
            final(self).errors@.subrange(0, old(self).errors@.len() as int) == old(self).errors@,
            forall|k: int|
                0 <= k < res.missing@.len() ==> is_failure(
                    #[trigger] final(self).errors@[old(self).errors@.len() + k],
                    group_paths@[res.missing@[k] as int]@,
                    not_found_reason(),
                ),
            !(delete_outcome matches Some(Err(_))) ==> final(self).deleted == old(self).deleted
                + res.found@.len() && final(self).failed == old(self).failed + res.missing@.len()
                && final(self).errors@.len() == old(self).errors@.len() + res.missing@.len(),
            delete_outcome matches Some(Err(m)) ==> final(self).deleted == old(self).deleted
                && final(self).failed == old(self).failed + group_paths@.len()
                && final(self).errors@.len() == old(self).errors@.len() + group_paths@.len()
                && forall|k: int|
                0 <= k < res.found@.len() ==> is_failure(
                    #[trigger] final(self).errors@[old(self).errors@.len() + res.missing@.len() + k],
                    group_paths@[res.found@[k] as int]@,
                    m@,
                ),
    {
        let ghost start = self.errors@;
        let mut k: usize = 0;
        while k < res.missing.len()
            invariant
                0 <= k <= res.missing@.len(),
                res.found@.len() + res.missing@.len() == group_paths@.len(),
                forall|j: int| 0 <= j < res.missing@.len() ==> (#[trigger] res.missing@[j]) < group_paths@.len(),
                self.deleted == old(self).deleted,
                self.failed == old(self).failed + k,
                old(self).failed + group_paths@.len() <= usize::MAX,
                start == old(self).errors@,
                self.errors@.len() == start.len() + k,
                self.errors@.subrange(0, start.len() as int) == start,
                forall|q: int|
                    0 <= q < k ==> is_failure(
                        #[trigger] self.errors@[start.len() + q],
                        group_paths@[res.missing@[q] as int]@,
                        not_found_reason(),
                    ),
            decreases res.missing@.len() - k,
        {
            let ghost before = self.errors@;
            self.record_missing(group_paths[res.missing[k]]);
            proof {
                assert forall|q: int| 0 <= q < k + 1 implies is_failure(
                    #[trigger] self.errors@[start.len() + q],
                    group_paths@[res.missing@[q] as int]@,
                    not_found_reason(),
                ) by {
                    if q < k {
                        assert(self.errors@.subrange(0, before.len() as int)[start.len() + q]
                            == self.errors@[start.len() + q]);
                    }
                }
                assert(self.errors@.subrange(0, start.len() as int) =~= before.subrange(
                    0,
                    start.len() as int,
                ));
            }
            k = k + 1;
        }
        let ghost mid = self.errors@;
        match delete_outcome {
            Some(Err(m)) => {
                let mut sent: Vec<&str> = Vec::new();
                let mut f: usize = 0;
                while f < res.found.len()
                    invariant
                        0 <= f <= res.found@.len(),
                        sent@.len() == f,
                        forall|j: int| 0 <= j < res.found@.len() ==> (#[trigger] res.found@[j]) < group_paths@.len(),
                        forall|q: int| 0 <= q < f ==> (#[trigger] sent@[q])@ == group_paths@[res.found@[q] as int]@,
                    decreases res.found@.len() - f,
                {
                    sent.push(group_paths[res.found[f]]);
                    f = f + 1;
                }
                self.record_all_failed(sent.as_slice(), m.as_str());
                proof {
                    assert forall|q: int| 0 <= q < res.missing@.len() implies is_failure(
                        #[trigger] self.errors@[start.len() + q],
                        group_paths@[res.missing@[q] as int]@,
                        not_found_reason(),
                    ) by {
                        assert(self.errors@.subrange(0, mid.len() as int)[start.len() + q]
                            == self.errors@[start.len() + q]);
                    }
                    assert(self.errors@.subrange(0, start.len() as int) =~= mid.subrange(
                        0,
                        start.len() as int,
                    ));
                }
            },
            _ => {
                self.record_deleted(res.found.len());
            },
        }
    }
}

} // verus!
