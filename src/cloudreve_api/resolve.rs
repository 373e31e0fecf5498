//! Path-to-identifier resolution under the legacy protocol.
//!
//! The legacy protocol addresses every mutation by an opaque identifier that
//! only a listing of the parent directory reveals. The facade lists the
//! parent on every call (no identifier is cached), then picks the entry by
//! name here, and builds the request from what it found.
use vstd::prelude::*;

use crate::api::v3::models::{
    CopyObjectRequest, DeleteObjectRequest, DirectoryList, MoveObjectRequest, Object,
    RenameObjectRequest, SourceItems,
};
use crate::cloudreve_api::file::{dir_kind, is_dir_kind};
use crate::cloudreve_api::path::{
    leaf_name, leaf_of, normalize_path, parent_dir, parent_of, root_path, trim_trailing_slash,
};
use crate::error::Error;
use crate::text::{concat_str, decimal, decimal_of, str_eq};

verus! {

/// Entry `i` is the first of `objects` whose name is `name`.
pub open spec fn first_named(objects: Seq<Object>, name: Seq<char>, i: int) -> bool {
    &&& 0 <= i < objects.len()
    &&& objects[i].name@ == name
    &&& forall|j: int| 0 <= j < i ==> objects[j].name@ != name
}

/// Some entry of `objects` is named `name`.
pub open spec fn has_named(objects: Seq<Object>, name: Seq<char>) -> bool {
    exists|i: int| 0 <= i < objects.len() && objects[i].name@ == name
}

/// The index of the first entry named `name`, if any.
pub fn find_object(objects: &Vec<Object>, name: &str) -> (r: Option<usize>)
    ensures
        r is None <==> !has_named(objects@, name@),
        r matches Some(i) ==> first_named(objects@, name@, i as int),
{
    let mut i: usize = 0;
    while i < objects.len()
        invariant
            0 <= i <= objects@.len(),
            forall|j: int| 0 <= j < i ==> objects@[j].name@ != name@,
        decreases objects@.len() - i,
    {
        if str_eq(objects[i].name.as_str(), name) {
            return Some(i);
        }
        i = i + 1;
    }
    None
}

/// Where a mutated path lives: its parent directory and its own name.
#[derive(Debug, Clone, Copy)]
pub struct TargetLookup<'a> {
    pub parent: &'a str,
    pub name: &'a str,
}

/// `path` names the root directory once a trailing `/` is dropped.
pub open spec fn is_root(path: Seq<char>) -> bool {
    trim_trailing_slash(path) == root_path()
}

/// The parent directory and leaf name of `path`, after dropping a trailing
/// `/`. The root cannot be mutated: it is refused before any request.
pub fn lookup_target(path: &str) -> (r: Result<TargetLookup<'_>, Error>)
    ensures
        r is Ok <==> !is_root(path@),
        r matches Ok(t) ==> t.parent@ == parent_of(trim_trailing_slash(path@)) && t.name@ == leaf_of(
            trim_trailing_slash(path@),
        ),
        r matches Err(e) ==> e is InvalidArgument,
{
    proof {
        reveal_strlit("/");
    }
    assert("/"@ =~= root_path());
    let normalized = normalize_path(path);
    if str_eq(normalized, "/") {
        return Err(
            Error::InvalidArgument(String::from_str("Cannot mutate the root directory")),
        );
    }
    Ok(TargetLookup { parent: parent_dir(normalized), name: leaf_name(normalized) })
}

/// What a listing reveals of an entry: its identifier and whether it is a
/// directory.
#[derive(Debug, Clone)]
pub struct ResolvedEntry {
    pub id: String,
    pub is_dir: bool,
}

/// `e` is what the first entry named `name` of `objects` reveals.
pub open spec fn resolves_to(objects: Seq<Object>, name: Seq<char>, e: ResolvedEntry) -> bool {
    exists|i: int|
        first_named(objects, name, i) && e.id@ == objects[i].id@ && e.is_dir == (
        objects[i].object_type@ == dir_kind())
}

/// The error for a path that its parent's listing does not hold.
pub fn not_found(path: &str) -> (r: Error)
    ensures
        r matches Error::NotFound(m) && m@ == not_found_text() + path@,
{
    proof {
        reveal_strlit("File not found: ");
    }
    assert("File not found: "@ =~= not_found_text());
    Error::NotFound(concat_str("File not found: ", path))
}

/// The start of a not-found message, which the path follows.
pub open spec fn not_found_text() -> Seq<char> {
    seq!['F', 'i', 'l', 'e', ' ', 'n', 'o', 't', ' ', 'f', 'o', 'u', 'n', 'd', ':', ' ']
}

/// Resolves the entry named `name` in its parent's listing; `path` is only
/// quoted in the error.
pub fn resolve_entry(list: &DirectoryList, path: &str, name: &str) -> (r: Result<
    ResolvedEntry,
    Error,
>)
    ensures
        r is Ok <==> has_named(list.objects@, name@),
        r matches Ok(e) ==> resolves_to(list.objects@, name@, e),
        r is Err ==> (r matches Err(Error::NotFound(m)) && m@ == not_found_text() + path@),
{
    match find_object(&list.objects, name) {
        Some(i) => {
            let o = &list.objects[i];
            let e = ResolvedEntry { id: o.id.clone(), is_dir: is_dir_kind(o.object_type.as_str()) };
            assert(first_named(list.objects@, name@, i as int));
            Ok(e)
        },
        None => Err(not_found(path)),
    }
}

/// The legacy protocol's kind string for a plain file.
pub open spec fn file_kind() -> Seq<char> {
    seq!['f', 'i', 'l', 'e']
}

/// The names of the plain-file entries of `objects`, in listing order.
pub open spec fn file_names(objects: Seq<Object>) -> Seq<Seq<char>>
    decreases objects.len(),
{
    if objects.len() == 0 {
        Seq::<Seq<char>>::empty()
    } else if objects.last().object_type@ == file_kind() {
        file_names(objects.drop_last()).push(objects.last().name@)
    } else {
        file_names(objects.drop_last())
    }
}

/// At most the first ten of `names`.
pub open spec fn first_ten(names: Seq<Seq<char>>) -> Seq<Seq<char>> {
    if names.len() <= 10 {
        names
    } else {
        names.take(10)
    }
}

/// The texts of a vector of strings.
pub open spec fn texts(v: Seq<String>) -> Seq<Seq<char>> {
    v.map_values(|s: String| s@)
}

/// The names of the first ten plain files of a listing, in listing order,
/// for an error hint.
pub fn sample_file_names(objects: &Vec<Object>) -> (r: Vec<String>)
    ensures
        texts(r@) == first_ten(file_names(objects@)),
{
    let mut out: Vec<String> = Vec::new();
    let mut i: usize = 0;
    assert(objects@.subrange(0, 0) =~= Seq::<Object>::empty());
    assert(texts(out@) =~= first_ten(file_names(objects@.subrange(0, 0))));
    while i < objects.len()
        invariant
            0 <= i <= objects@.len(),
            texts(out@) == first_ten(file_names(objects@.subrange(0, i as int))),
        decreases objects@.len() - i,
    {
        proof {
            reveal_strlit("file");
        }
        assert("file"@ =~= file_kind());
        let ghost before = out@;
        let ghost pre = objects@.subrange(0, i as int);
        let ghost cur = objects@.subrange(0, i + 1);
        assert(cur.drop_last() =~= pre);
        assert(cur.last() == objects@[i as int]);
        if str_eq(objects[i].object_type.as_str(), "file") {
            if out.len() < 10 {
                out.push(objects[i].name.clone());
                assert(texts(out@) =~= texts(before).push(objects@[i as int].name@));
                assert(texts(out@) =~= first_ten(file_names(cur)));
            } else {
                assert(file_names(pre).len() >= 10);
                assert(first_ten(file_names(cur)) =~= first_ten(file_names(pre)));
            }
        }
        i = i + 1;
    }
    assert(objects@.subrange(0, objects@.len() as int) =~= objects@);
    out
}

/// The names joined as a list, one per line after the first, each line
/// introduced by `  - `.
pub open spec fn bullet_list(names: Seq<Seq<char>>) -> Seq<char>
    decreases names.len(),
{
    if names.len() == 0 {
        Seq::<char>::empty()
    } else if names.len() == 1 {
        names[0]
    } else {
        bullet_list(names.drop_last()) + seq!['\n', ' ', ' ', '-', ' '] + names.last()
    }
}

/// The not-found message of a rename: the path, a list of the parent's
/// first ten plain files, the parent, and how many files the list holds.
pub open spec fn hint_message(path: Seq<char>, parent: Seq<char>, objects: Seq<Object>) -> Seq<char> {
    not_found_text() + seq!['\''] + path + seq![
        '\'', '.', ' ', 'D', 'i', 'd', ' ', 'y', 'o', 'u', ' ', 'm', 'e', 'a', 'n', ':', '\n', ' ',
        ' ', '-', ' ',
    ] + bullet_list(first_ten(file_names(objects))) + seq![
        '\n', 'A', 'v', 'a', 'i', 'l', 'a', 'b', 'l', 'e', ' ', 'f', 'i', 'l', 'e', 's', ' ', 'i',
        'n', ' ',
    ] + parent + seq![':', ' '] + decimal_of(first_ten(file_names(objects)).len() as int)
}

/// The not-found error of a rename, which lists the names of the parent
/// directory's first ten files to help the caller (see `hint_message`).
pub fn not_found_with_hint(path: &str, parent: &str, objects: &Vec<Object>) -> (r: Error)
    ensures
        r matches Error::NotFound(m) && m@ == hint_message(path@, parent@, objects@),
{
    proof {
        reveal_strlit("File not found: '");
        reveal_strlit("'. Did you mean:\n  - ");
        reveal_strlit("\n  - ");
        reveal_strlit("\nAvailable files in ");
        reveal_strlit(": ");
    }
    assert("File not found: '"@ =~= not_found_text() + seq!['\'']);
    let names = sample_file_names(objects);
    let ghost sample = texts(names@);
    let mut msg = concat_str("File not found: '", path);
    msg.append("'. Did you mean:\n  - ");
    let ghost head = msg@;
    assert(sample.take(0) =~= Seq::<Seq<char>>::empty());
    assert(msg@ =~= head + bullet_list(sample.take(0)));
    let mut i: usize = 0;
    while i < names.len()
        invariant
            0 <= i <= names@.len(),
            sample == texts(names@),
            msg@ == head + bullet_list(sample.take(i as int)),
            "\n  - "@ =~= seq!['\n', ' ', ' ', '-', ' '],
        decreases names@.len() - i,
    {
        let ghost before = msg@;
        assert(sample.take(i + 1).drop_last() =~= sample.take(i as int));
        assert(sample.take(i + 1).last() == names@[i as int]@);
        if i > 0 {
            msg.append("\n  - ");
        } else {
            assert(sample.take(1) =~= seq![names@[0]@]);
        }
        msg.append(names[i].as_str());
        assert(msg@ =~= head + bullet_list(sample.take(i + 1)));
        i = i + 1;
    }
    assert(sample.take(names@.len() as int) =~= sample);
    msg.append("\nAvailable files in ");
    msg.append(parent);
    msg.append(": ");
    let count = decimal(names.len() as i64);
    msg.append(count.as_str());
    assert(msg@ =~= hint_message(path@, parent@, objects@));
    Error::NotFound(msg)
}

/// The source lists of a legacy mutation that names one entry: its id goes
/// to `dirs` for a directory and to `items` otherwise.
pub fn source_items(e: &ResolvedEntry) -> (r: SourceItems<'_>)
    ensures
        e.is_dir ==> r.dirs@.len() == 1 && r.dirs@[0]@ == e.id@ && r.items@.len() == 0,
        !e.is_dir ==> r.items@.len() == 1 && r.items@[0]@ == e.id@ && r.dirs@.len() == 0,
{
    if e.is_dir {
        SourceItems { dirs: vec![e.id.as_str()], items: Vec::new() }
    } else {
        SourceItems { dirs: Vec::new(), items: vec![e.id.as_str()] }
    }
}

/// `s` are the source lists that name exactly the entry `e`.
pub open spec fn names_entry(s: SourceItems, e: ResolvedEntry) -> bool {
    if e.is_dir {
        s.dirs@.len() == 1 && s.dirs@[0]@ == e.id@ && s.items@.len() == 0
    } else {
        s.items@.len() == 1 && s.items@[0]@ == e.id@ && s.dirs@.len() == 0
    }
}

/// The legacy request that renames the entry `e` to `new_name`.
pub fn rename_request<'a>(e: &'a ResolvedEntry, new_name: &'a str) -> (r: RenameObjectRequest<'a>)
    ensures
        r.action@ == seq!['r', 'e', 'n', 'a', 'm', 'e'],
        names_entry(r.src, *e),
        r.new_name@ == new_name@,
{
    proof {
        reveal_strlit("rename");
    }
    let r = RenameObjectRequest { action: "rename", src: source_items(e), new_name };
    assert(r.action@ =~= seq!['r', 'e', 'n', 'a', 'm', 'e']);
    r
}

/// The legacy request that moves the entry `e` out of `src_dir` into `dst`.
pub fn move_request<'a>(src_dir: &'a str, e: &'a ResolvedEntry, dst: &'a str) -> (r: MoveObjectRequest<'a>)
    ensures
        r.action@ == seq!['m', 'o', 'v', 'e'],
        r.src_dir@ == src_dir@,
        names_entry(r.src, *e),
        r.dst@ == dst@,
{
    proof {
        reveal_strlit("move");
    }
    let r = MoveObjectRequest { action: "move", src_dir, src: source_items(e), dst };
    assert(r.action@ =~= seq!['m', 'o', 'v', 'e']);
    r
}

/// The legacy request that copies the entry `e` out of `src_dir` into `dst`.
pub fn copy_request<'a>(src_dir: &'a str, e: &'a ResolvedEntry, dst: &'a str) -> (r: CopyObjectRequest<'a>)
    ensures
        r.src_dir@ == src_dir@,
        names_entry(r.src, *e),
        r.dst@ == dst@,
{
    CopyObjectRequest { src_dir, src: source_items(e), dst }
}

/// The legacy request that deletes the entry `e`, recursively and without
/// unlinking.
pub fn delete_request(e: &ResolvedEntry) -> (r: DeleteObjectRequest<'_>)
    ensures
        names_entry(SourceItems { dirs: r.dirs, items: r.items }, *e),
        r.force,
        !r.unlink,
{
    let s = source_items(e);
    DeleteObjectRequest { items: s.items, dirs: s.dirs, force: true, unlink: false }
}

/// The error of a legacy move whose destination directory cannot be
/// listed; `cause` is the listing's own error message.
pub fn destination_unavailable(dest: &str, cause: &str) -> (r: Error)
    ensures
        r matches Error::InvalidResponse(m) && m@ == seq![
            'D', 'e', 's', 't', 'i', 'n', 'a', 't', 'i', 'o', 'n', ' ', 'd', 'i', 'r', 'e', 'c', 't',
            'o', 'r', 'y', ' ', '\'',
        ] + dest@ + seq![
            '\'', ' ', 'd', 'o', 'e', 's', ' ', 'n', 'o', 't', ' ', 'e', 'x', 'i', 's', 't', ' ', 'o',
            'r', ' ', 'i', 's', ' ', 'n', 'o', 't', ' ', 'a', 'c', 'c', 'e', 's', 's', 'i', 'b', 'l',
            'e', ':', ' ',
        ] + cause@,
{
    proof {
        reveal_strlit("Destination directory '");
        reveal_strlit("' does not exist or is not accessible: ");
    }
    let mut m = concat_str("Destination directory '", dest);
    m.append("' does not exist or is not accessible: ");
    m.append(cause);
    assert(m@ =~= seq![
        'D', 'e', 's', 't', 'i', 'n', 'a', 't', 'i', 'o', 'n', ' ', 'd', 'i', 'r', 'e', 'c', 't',
        'o', 'r', 'y', ' ', '\'',
    ] + dest@ + seq![
        '\'', ' ', 'd', 'o', 'e', 's', ' ', 'n', 'o', 't', ' ', 'e', 'x', 'i', 's', 't', ' ', 'o',
        'r', ' ', 'i', 's', ' ', 'n', 'o', 't', ' ', 'a', 'c', 'c', 'e', 's', 's', 'i', 'b', 'l',
        'e', ':', ' ',
    ] + cause@);
    Error::InvalidResponse(m)
}

} // verus!
