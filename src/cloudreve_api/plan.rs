//! Move, rename and copy under the current protocol.
//!
//! The current protocol moves into a directory and renames within one, so a
//! generic move is first told apart from a same-directory rename. Its copy
//! keeps the source name, so a same-directory copy under a new name is
//! emulated by a fixed sequence of calls through a temporary directory. The
//! sequence has no rollback: when one of its middle steps fails, the error
//! is returned and the temporary directory may be left behind.
use vstd::prelude::*;

use crate::api::v4::uri::{path_to_uri, uri_of};
use crate::cloudreve_api::path::{
    root_path, join, join_path, leaf_name, leaf_of, normalize_path, parent_dir, parent_of,
    trim_trailing_slash,
};
use crate::cloudreve_api::resolve::is_root;
use crate::error::Error;
use crate::text::{concat_str, str_eq};

verus! {

/// The directory of `p` once a trailing `/` is dropped.
pub open spec fn dir_part(p: Seq<char>) -> Seq<char> {
    parent_of(trim_trailing_slash(p))
}

/// The name of `p` once a trailing `/` is dropped.
pub open spec fn name_part(p: Seq<char>) -> Seq<char> {
    leaf_of(trim_trailing_slash(p))
}

/// A move from `src` to `dest` stays in one directory and changes the name.
pub open spec fn is_same_dir_rename(src: Seq<char>, dest: Seq<char>) -> bool {
    dir_part(src) == dir_part(dest) && name_part(src) != name_part(dest)
}

/// The call that carries out a move.
#[derive(Debug, Clone)]
pub enum MovePlan {
    /// Rename the resource at `uri` to `new_name`, in place.
    Rename { uri: String, new_name: String },
    /// Move the resource at `src_uri` into the directory at `dst_uri`.
    Move { src_uri: String, dst_uri: String },
}

fn err_root() -> (r: Error)
    ensures
        r is InvalidArgument,
{
    Error::InvalidArgument(String::from_str("Cannot mutate the root directory"))
}

/// Decides how `move(src, dest)` is carried out: a rename when both stay in
/// one directory under different names, otherwise a move of `src` into
/// `dest` taken as the target directory. The root cannot be moved.
pub fn plan_move(src: &str, dest: &str) -> (r: Result<MovePlan, Error>)
    ensures
        is_root(src@) <==> r is Err,
        r matches Err(e) ==> e is InvalidArgument,
        !is_root(src@) && is_same_dir_rename(src@, dest@) ==> (r matches Ok(
            MovePlan::Rename { uri, new_name },
        ) && uri@ == uri_of(src@) && new_name@ == name_part(dest@)),
        !is_root(src@) && !is_same_dir_rename(src@, dest@) ==> (r matches Ok(
            MovePlan::Move { src_uri, dst_uri },
        ) && src_uri@ == uri_of(src@) && dst_uri@ == uri_of(dest@)),
{
    proof {
        reveal_strlit("/");
    }
    assert("/"@ =~= root_path());
    let src_n = normalize_path(src);
    if str_eq(src_n, "/") {
        return Err(err_root());
    }
    let dest_n = normalize_path(dest);
    let src_dir = parent_dir(src_n);
    let dest_dir = parent_dir(dest_n);
    let src_name = leaf_name(src_n);
    let dest_name = leaf_name(dest_n);
    if str_eq(src_dir, dest_dir) && !str_eq(src_name, dest_name) {
        Ok(MovePlan::Rename { uri: path_to_uri(src), new_name: String::from_str(dest_name) })
    } else {
        Ok(MovePlan::Move { src_uri: path_to_uri(src), dst_uri: path_to_uri(dest) })
    }
}

/// The URI to rename for `rename(path, new_name)`; the root cannot be renamed.
pub fn plan_rename(path: &str) -> (r: Result<String, Error>)
    ensures
        is_root(path@) <==> r is Err,
        r matches Err(e) ==> e is InvalidArgument,
        r matches Ok(u) ==> u@ == uri_of(path@),
{
    proof {
        reveal_strlit("/");
    }
    assert("/"@ =~= root_path());
    if str_eq(normalize_path(path), "/") {
        return Err(err_root());
    }
    Ok(path_to_uri(path))
}

/// The URI to delete for `delete(path)`; the root cannot be deleted.
pub fn plan_delete(path: &str) -> (r: Result<String, Error>)
    ensures
        is_root(path@) <==> r is Err,
        r matches Err(e) ==> e is InvalidArgument,
        r matches Ok(u) ==> u@ == uri_of(path@),
{
    proof {
        reveal_strlit("/");
    }
    assert("/"@ =~= root_path());
    if str_eq(normalize_path(path), "/") {
        return Err(Error::InvalidArgument(String::from_str("Cannot delete root directory")));
    }
    Ok(path_to_uri(path))
}

/// One call of a copy.
#[derive(Debug, Clone)]
pub enum CopyStep {
    /// Ask whether something exists at `uri`.
    Probe { uri: String },
    /// Delete the resource at `uri`.
    Delete { uri: String },
    /// Create the directory at `path`.
    CreateDir { path: String },
    /// Copy the resource at `src_uri` into the directory at `dst_uri`.
    Copy { src_uri: String, dst_uri: String },
    /// Rename the resource at `uri` to `new_name`.
    Rename { uri: String, new_name: String },
    /// Move the resource at `src_uri` into the directory at `dst_uri`.
    Move { src_uri: String, dst_uri: String },
}

pub open spec fn is_probe(s: CopyStep, uri: Seq<char>) -> bool {
    s matches CopyStep::Probe { uri: u } && u@ == uri
}

pub open spec fn is_delete(s: CopyStep, uri: Seq<char>) -> bool {
    s matches CopyStep::Delete { uri: u } && u@ == uri
}

pub open spec fn is_create_dir(s: CopyStep, path: Seq<char>) -> bool {
    s matches CopyStep::CreateDir { path: p } && p@ == path
}

pub open spec fn is_copy(s: CopyStep, src: Seq<char>, dst: Seq<char>) -> bool {
    s matches CopyStep::Copy { src_uri, dst_uri } && src_uri@ == src && dst_uri@ == dst
}

pub open spec fn is_rename(s: CopyStep, uri: Seq<char>, name: Seq<char>) -> bool {
    s matches CopyStep::Rename { uri: u, new_name } && u@ == uri && new_name@ == name
}

pub open spec fn is_move(s: CopyStep, src: Seq<char>, dst: Seq<char>) -> bool {
    s matches CopyStep::Move { src_uri, dst_uri } && src_uri@ == src && dst_uri@ == dst
}

/// A copy from `src` to `dest` stays in one directory under a new,
/// non-empty name, which the protocol cannot do in one call.
pub open spec fn needs_emulation(src: Seq<char>, dest: Seq<char>) -> bool {
    is_same_dir_rename(src, dest) && name_part(dest).len() > 0
}

/// The prefix of a temporary directory's name.
pub open spec fn temp_prefix() -> Seq<char> {
    seq!['.', 't', 'e', 'm', 'p', '_', 'c', 'o', 'p', 'y', '_']
}

/// The suffix that sets the intermediate copy apart from its source.
pub open spec fn copy_suffix() -> Seq<char> {
    seq!['_', 'c', 'o', 'p', 'y']
}

/// The temporary directory for a copy to `dest`, named with `tag`.
pub open spec fn temp_dir_of(dest: Seq<char>, tag: Seq<char>) -> Seq<char> {
    join_path(dir_part(dest), temp_prefix() + tag)
}

/// The intermediate name of the copy of `src`.
pub open spec fn copy_name_of(src: Seq<char>) -> Seq<char> {
    name_part(src) + copy_suffix()
}

/// `steps` is the emulated copy of `src` to `dest` through the temporary
/// directory named with `tag`: probe the destination, delete it, create the
/// temporary directory, copy into it, rename the copy there, move it into
/// the destination directory, rename it to the final name, delete the
/// temporary directory.
pub open spec fn is_emulated_copy(steps: Seq<CopyStep>, src: Seq<char>, dest: Seq<char>, tag: Seq<char>) -> bool {
    let dest_uri = uri_of(join_path(dir_part(dest), name_part(dest)));
    let temp = temp_dir_of(dest, tag);
    &&& steps.len() == 8
    &&& is_probe(steps[0], dest_uri)
    &&& is_delete(steps[1], dest_uri)
    &&& is_create_dir(steps[2], temp)
    &&& is_copy(steps[3], uri_of(src), uri_of(temp))
    &&& is_rename(steps[4], uri_of(join_path(temp, name_part(src))), copy_name_of(src))
    &&& is_move(steps[5], uri_of(join_path(temp, copy_name_of(src))), uri_of(dir_part(dest)))
    &&& is_rename(steps[6], uri_of(join_path(dir_part(dest), copy_name_of(src))), name_part(dest))
    &&& is_delete(steps[7], uri_of(temp))
}

/// The calls of a copy, and whether they emulate a copy under a new name.
#[derive(Debug, Clone)]
pub struct CopyPlan {
    pub emulated: bool,
    pub steps: Vec<CopyStep>,
}

/// Plans `copy(src, dest)`. Under a new name in the same directory, the
/// eight-step emulation through a temporary directory named with `tag`;
/// otherwise one copy of `src` into the directory of `dest`.
pub fn plan_copy(src: &str, dest: &str, tag: &str) -> (r: CopyPlan)
    ensures
        r.emulated == needs_emulation(src@, dest@),
        r.emulated ==> is_emulated_copy(r.steps@, src@, dest@, tag@),
        !r.emulated ==> r.steps@.len() == 1 && is_copy(r.steps@[0], uri_of(src@), uri_of(dir_part(dest@))),
{
    let src_n = normalize_path(src);
    let dest_n = normalize_path(dest);
    let src_dir = parent_dir(src_n);
    let src_name = leaf_name(src_n);
    let dest_dir = parent_dir(dest_n);
    let dest_name = leaf_name(dest_n);
    let src_uri = path_to_uri(src);
    let dest_dir_uri = path_to_uri(dest_dir);
    if !(str_eq(src_dir, dest_dir) && !str_eq(src_name, dest_name) && dest_name.unicode_len() > 0) {
        let steps = vec![CopyStep::Copy { src_uri, dst_uri: dest_dir_uri }];
        return CopyPlan { emulated: false, steps };
    }
    proof {
        reveal_strlit(".temp_copy_");
        reveal_strlit("_copy");
    }
    assert(".temp_copy_"@ =~= temp_prefix());
    assert("_copy"@ =~= copy_suffix());
    let dest_uri = path_to_uri(join(dest_dir, dest_name).as_str());
    let temp_name = concat_str(".temp_copy_", tag);
    let temp_dir = join(dest_dir, temp_name.as_str());
    let copy_name = concat_str(src_name, "_copy");
    let mut steps: Vec<CopyStep> = Vec::new();
    steps.push(CopyStep::Probe { uri: dest_uri.clone() });
    steps.push(CopyStep::Delete { uri: dest_uri });
    steps.push(CopyStep::CreateDir { path: temp_dir.clone() });
    steps.push(CopyStep::Copy { src_uri, dst_uri: path_to_uri(temp_dir.as_str()) });
    steps.push(
        CopyStep::Rename {
            uri: path_to_uri(join(temp_dir.as_str(), src_name).as_str()),
            new_name: copy_name.clone(),
        },
    );
    steps.push(
        CopyStep::Move {
            src_uri: path_to_uri(join(temp_dir.as_str(), copy_name.as_str()).as_str()),
            dst_uri: dest_dir_uri,
        },
    );
    steps.push(
        CopyStep::Rename {
            uri: path_to_uri(join(dest_dir, copy_name.as_str()).as_str()),
            new_name: String::from_str(dest_name),
        },
    );
    steps.push(CopyStep::Delete { uri: path_to_uri(temp_dir.as_str()) });
    CopyPlan { emulated: true, steps }
}

/// What follows a step of a copy.
#[derive(Debug, Clone, Copy, PartialEq, Eq, Structural)]
pub enum CopyControl {
    /// Perform the step with this index next.
    Run(usize),
    /// The copy is done and succeeded.
    Finish,
    /// The step failed; its error is the copy's error. Nothing else runs.
    Abort,
}

/// What follows step `step` of a copy plan when it succeeded (`ok`) or
/// failed. A direct copy is one step. In the emulation, a probe that finds
/// the destination leads to its deletion and one that fails skips it (a
/// failed probe counts as absent); the deletion of the destination, the
/// creation of the temporary directory and the final clean-up are best
/// effort; any failure of the four steps from the copy to the final rename
/// aborts.
pub open spec fn copy_next_spec(emulated: bool, step: int, ok: bool) -> CopyControl {
    if !emulated {
        if ok {
            CopyControl::Finish
        } else {
            CopyControl::Abort
        }
    } else if step == 0 {
        if ok {
            CopyControl::Run(1)
        } else {
            CopyControl::Run(2)
        }
    } else if step == 1 || step == 2 {
        CopyControl::Run((step + 1) as usize)
    } else if step <= 6 {
        if ok {
            CopyControl::Run((step + 1) as usize)
        } else {
            CopyControl::Abort
        }
    } else {
        CopyControl::Finish
    }
}

/// What follows step `step` of a copy plan (see `copy_next_spec`).
pub fn copy_next(emulated: bool, step: usize, ok: bool) -> (r: CopyControl)
    requires
        emulated ==> step < 8,
        !emulated ==> step == 0,
    ensures
        r == copy_next_spec(emulated, step as int, ok),
{
    if !emulated {
        if ok {
            CopyControl::Finish
        } else {
            CopyControl::Abort
        }
    } else if step == 0 {
        if ok {
            CopyControl::Run(1)
        } else {
            CopyControl::Run(2)
        }
    } else if step == 1 || step == 2 {
        CopyControl::Run(step + 1)
    } else if step <= 6 {
        if ok {
            CopyControl::Run(step + 1)
        } else {
            CopyControl::Abort
        }
    } else {
        CopyControl::Finish
    }
}

/// The emulated copy runs its steps in order: after each step only the next
/// one (or, after a probe that found nothing, the creation of the temporary
/// directory) can run. When moving the intermediate copy into the
/// destination directory fails, the copy aborts: the final rename and the
/// clean-up never run, and the temporary directory stays.
pub proof fn lemma_emulated_copy_sequence(ok: bool)
    ensures
        copy_next_spec(true, 0, true) == CopyControl::Run(1),
        copy_next_spec(true, 0, false) == CopyControl::Run(2),
        copy_next_spec(true, 1, ok) == CopyControl::Run(2),
        copy_next_spec(true, 2, ok) == CopyControl::Run(3),
        forall|i: int| 3 <= i <= 6 ==> copy_next_spec(true, i, true) == CopyControl::Run((i + 1) as usize),
        forall|i: int| 3 <= i <= 6 ==> copy_next_spec(true, i, false) == CopyControl::Abort,
        copy_next_spec(true, 5, false) == CopyControl::Abort,
        copy_next_spec(true, 7, ok) == CopyControl::Finish,
{
}

} // verus!
