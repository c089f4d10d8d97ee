//! Where evidence may be written: rules on slash-separated paths.

use vstd::prelude::*;

use crate::application::{joined_path, under};
use crate::endpoint::checked_text;
use crate::failure::{ensure, failed, failure, Checked};
use crate::text::{same_text, split, split_at_char, starts_with, texts};

verus! {

/// Whether a piece between slashes counts: it is not empty, and no `.` after the first piece.
pub open spec fn names_entry(piece: Seq<char>, first: bool) -> bool {
    piece.len() > 0 && (first || piece != "."@)
}

pub open spec fn named_pieces(pieces: Seq<Seq<char>>) -> Seq<Seq<char>>
    decreases pieces.len(),
{
    if pieces.len() == 0 {
        seq![]
    } else if names_entry(pieces.last(), pieces.len() == 1) {
        named_pieces(pieces.drop_last()).push(pieces.last())
    } else {
        named_pieces(pieces.drop_last())
    }
}

/// The components of a path after its root.
pub open spec fn components(path: Seq<char>) -> Seq<Seq<char>> {
    named_pieces(split_at_char(path, '/'))
}

pub fn path_components(path: &str) -> (r: Vec<String>)
    ensures
        texts(r@) == components(path@),
{
    let pieces: Vec<String> = split(path, '/');
    let ghost all = texts(pieces@);
    let mut out: Vec<String> = Vec::new();
    let mut i: usize = 0;
    proof {
        assert(all.take(0) =~= seq![]);
        assert(texts(out@) =~= seq![]);
    }
    while i < pieces.len()
        invariant
            i <= pieces.len(),
            all == texts(pieces@),
            texts(out@) == named_pieces(all.take(i as int)),
        decreases pieces.len() - i,
    {
        let piece: &str = pieces[i].as_str();
        proof {
            assert(all[i as int] == piece@);
            assert(all.take(i + 1).drop_last() =~= all.take(i as int));
            assert(all.take(i + 1).last() == piece@);
        }
        if !piece.is_empty() && (i == 0 || !same_text(piece, ".")) {
            let next: String = piece.to_owned();
            proof {
                crate::text::lemma_texts_push(out@, next);
            }
            out.push(next);
        }
        i = i + 1;
    }
    proof {
        assert(all.take(i as int) =~= all);
    }
    out
}

/// Whether a path goes up through a parent.
pub open spec fn climbs(path: Seq<char>) -> bool {
    components(path).contains(".."@)
}

pub fn has_parent_step(path: &str) -> (r: bool)
    ensures
        r == climbs(path@),
{
    let parts: Vec<String> = path_components(path);
    crate::text::listed(&parts, "..")
}

/// Whether a path and a directory start alike: both at the root, or neither. An empty directory
/// starts every path.
pub open spec fn same_start(path: Seq<char>, directory: Seq<char>) -> bool {
    is_absolute(path) == is_absolute(directory) || (!is_absolute(directory) && components(
        directory,
    ).len() == 0)
}

/// Whether a path stands at or below a directory.
pub open spec fn within(path: Seq<char>, directory: Seq<char>) -> bool {
    same_start(path, directory) && components(directory).is_prefix_of(components(path))
}

pub fn is_within(path: &str, directory: &str) -> (r: bool)
    ensures
        r == within(path@, directory@),
{
    let inner: Vec<String> = path_components(path);
    let outer: Vec<String> = path_components(directory);
    let ghost a = texts(inner@);
    let ghost b = texts(outer@);
    if absolute(path) != absolute(directory) && (absolute(directory) || outer.len() > 0) {
        return false;
    }
    if outer.len() > inner.len() {
        return false;
    }
    let mut i: usize = 0;
    while i < outer.len()
        invariant
            i <= outer.len(),
            outer.len() <= inner.len(),
            a == texts(inner@),
            b == texts(outer@),
            b == components(directory@),
            a == components(path@),
            same_start(path@, directory@),
            forall|j: int| 0 <= j < i ==> a[j] == b[j],
        decreases outer.len() - i,
    {
        proof {
            assert(a[i as int] == inner@[i as int]@);
            assert(b[i as int] == outer@[i as int]@);
        }
        if !same_text(inner[i].as_str(), outer[i].as_str()) {
            return false;
        }
        i = i + 1;
    }
    proof {
        assert(b =~= a.subrange(0, b.len() as int));
    }
    true
}

/// A directory holds what stands below a directory that it holds.
pub proof fn containment_chains(a: Seq<char>, b: Seq<char>, c: Seq<char>)
    requires
        within(a, b),
        within(b, c),
    ensures
        within(a, c),
{
    assert(components(c) =~= components(a).subrange(0, components(c).len() as int)) by {
        assert(components(b) =~= components(a).subrange(0, components(b).len() as int));
        assert(components(c) =~= components(b).subrange(0, components(c).len() as int));
    }
}

pub open spec fn is_absolute(path: Seq<char>) -> bool {
    path.len() > 0 && path[0] == '/'
}

pub(crate) fn absolute(path: &str) -> (r: bool)
    ensures
        r == is_absolute(path@),
{
    proof {
        reveal_strlit("/");
    }
    let r: bool = starts_with(path, "/");
    proof {
        if r {
            assert("/"@[0] == path@[0]);
        } else if is_absolute(path@) {
            assert("/"@ =~= path@.subrange(0, 1));
        }
    }
    r
}

/// Where a local evidence output goes: never up through a parent, and inside the checkout only
/// under its build directory.
pub open spec fn prepared(current: Seq<char>, path: Seq<char>) -> Result<Seq<char>, Seq<char>> {
    if climbs(path) {
        Err("evidence output cannot contain parent traversal"@)
    } else if within(under(current, path), current) && !within(
        under(current, path),
        under(current, "target"@),
    ) {
        Err("evidence output inside the checkout must remain under target/"@)
    } else {
        Ok(under(current, path))
    }
}

pub fn prepare_output(current: &str, path: &str) -> (r: Checked<String>)
    ensures
        checked_text(r) == prepared(current@, path@),
{
    ensure(!has_parent_step(path), "evidence output cannot contain parent traversal")?;
    let output: String = joined_path(current, path);
    if is_within(output.as_str(), current) {
        let target: String = joined_path(current, "target");
        ensure(
            is_within(output.as_str(), target.as_str()),
            "evidence output inside the checkout must remain under target/",
        )?;
    }
    Ok(output)
}

/// A prepared output directory starts empty.
pub fn check_empty(entries: u64, message: &str) -> (r: Checked<()>)
    ensures
        r is Ok <==> entries == 0,
        entries > 0 ==> failed(r, message@),
{
    ensure(entries == 0, message)
}

/// Where an external evidence output may be looked for.
pub fn external_output(current: &str, path: &str) -> (r: Checked<String>)
    ensures
        if climbs(under(current@, path@)) {
            failed(r, "output path must not contain parent traversal"@)
        } else {
            r matches Ok(t) && t@ == under(current@, path@)
        },
{
    let output: String = joined_path(current, path);
    ensure(
        !has_parent_step(output.as_str()),
        "output path must not contain parent traversal",
    )?;
    Ok(output)
}

/// A directory with components appended, the first at a position.
pub open spec fn extended(directory: Seq<char>, parts: Seq<Seq<char>>, from: int) -> Seq<char>
    decreases parts.len() - from,
{
    if from < 0 || from >= parts.len() {
        directory
    } else {
        extended(under(directory, parts[from]), parts, from + 1)
    }
}

/// Where an external evidence output goes. Its last `missing` components do not exist yet, and
/// `ancestor` is the canonical form of what stands before them; inside the repository only its
/// build directory is allowed.
pub open spec fn resolved_output_of(
    output: Seq<char>,
    missing: nat,
    ancestor: Seq<char>,
    root: Seq<char>,
    target: Seq<char>,
) -> Result<Seq<char>, Seq<char>> {
    let parts = components(output);
    if missing > parts.len() {
        Err("output path has no existing ancestor"@)
    } else {
        let resolved = extended(ancestor, parts, parts.len() - missing);
        if within(resolved, root) && !within(resolved, target) {
            Err(
                "evidence output inside tracked source paths is forbidden; use target/ or an external directory"@,
            )
        } else {
            Ok(resolved)
        }
    }
}

pub fn validate_output_path(
    output: &str,
    missing: usize,
    ancestor: &str,
    root: &str,
    target: &str,
) -> (r: Checked<String>)
    ensures
        checked_text(r) == resolved_output_of(
            output@,
            missing as nat,
            ancestor@,
            root@,
            target@,
        ),
{
    let parts: Vec<String> = path_components(output);
    let ghost all = texts(parts@);
    ensure(missing <= parts.len(), "output path has no existing ancestor")?;
    let mut resolved: String = ancestor.to_owned();
    let mut i: usize = parts.len() - missing;
    while i < parts.len()
        invariant
            i <= parts.len(),
            missing <= parts.len(),
            all == texts(parts@),
            all == components(output@),
            extended(ancestor@, all, all.len() - missing) == extended(resolved@, all, i as int),
        decreases parts.len() - i,
    {
        proof {
            assert(all[i as int] == parts@[i as int]@);
        }
        resolved = joined_path(resolved.as_str(), parts[i].as_str());
        i = i + 1;
    }
    if is_within(resolved.as_str(), root) && !is_within(resolved.as_str(), target) {
        return Err(
            failure(
                "evidence output inside tracked source paths is forbidden; use target/ or an external directory",
            ),
        );
    }
    Ok(resolved)
}

/// What one is given back as an output is never a tracked source path.
pub proof fn outputs_stay_outside_the_sources(
    output: Seq<char>,
    missing: nat,
    ancestor: Seq<char>,
    root: Seq<char>,
    target: Seq<char>,
)
    ensures
        resolved_output_of(output, missing, ancestor, root, target) matches Ok(resolved) ==> !within(
            resolved,
            root,
        ) || within(resolved, target),
{
}

} // verus!
