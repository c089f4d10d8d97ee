//! Where evidence may be written.

use vstd::prelude::*;

use crate::application::{
    application_binary, file_name, last_position, parent_directory, piece_start, under,
    without_empty_end,
};
use crate::failure::{failed, Checked};
use crate::paths::{
    check_empty, extended, external_output, has_parent_step, is_within, named_pieces,
    path_components, prepare_output, validate_output_path,
};
use crate::text::{split_at_char, texts};

verus! {

/// Whether a path has a component: a piece between slashes that is not empty and, unless it comes
/// first, no single dot.
pub open spec fn has_component(pieces: Seq<Seq<char>>, piece: Seq<char>) -> bool {
    exists|i: int|
        #![trigger pieces[i]]
        0 <= i < pieces.len() && pieces[i] == piece && piece.len() > 0 && (i == 0 || piece != "."@)
}

proof fn lemma_pieces(pieces: Seq<Seq<char>>, piece: Seq<char>)
    ensures
        named_pieces(pieces).contains(piece) <==> has_component(pieces, piece),
    decreases pieces.len(),
{
    if pieces.len() > 0 {
        let before = pieces.drop_last();
        lemma_pieces(before, piece);
        let kept = named_pieces(before);
        let v = named_pieces(pieces);
        assert(pieces[pieces.len() - 1] == pieces.last());
        if has_component(before, piece) {
            let i = choose|i: int|
                #![trigger before[i]]
                0 <= i < before.len() && before[i] == piece && piece.len() > 0 && (i == 0 || piece
                    != "."@);
            assert(pieces[i] == piece);
        }
        if has_component(pieces, piece) {
            let i = choose|i: int|
                #![trigger pieces[i]]
                0 <= i < pieces.len() && pieces[i] == piece && piece.len() > 0 && (i == 0 || piece
                    != "."@);
            if i < before.len() {
                assert(before[i] == piece);
            }
        }
        if crate::paths::names_entry(pieces.last(), pieces.len() == 1) {
            assert(v == kept.push(pieces.last()));
            assert(v[v.len() - 1] == pieces.last());
            if kept.contains(piece) {
                let k = choose|k: int| 0 <= k < kept.len() && kept[k] == piece;
                assert(v[k] == piece);
            }
            if v.contains(piece) && piece != pieces.last() {
                let k = choose|k: int| 0 <= k < v.len() && v[k] == piece;
                assert(kept[k] == piece);
            }
        }
    }
}

/// The components of a path are its pieces between slashes, without the empty ones and without the
/// dots that do not come first.
pub proof fn components_are_pieces(path: &str, piece: Seq<char>, r: Vec<String>)
    requires
        call_ensures(path_components, (path,), r),
    ensures
        texts(r@).contains(piece) <==> has_component(split_at_char(path@, '/'), piece),
{
    lemma_pieces(split_at_char(path@, '/'), piece);
}

/// A path climbs exactly where two dots are one of its pieces.
pub proof fn climbing_paths_are_seen(path: &str, r: bool)
    requires
        call_ensures(has_parent_step, (path,), r),
    ensures
        r <==> split_at_char(path@, '/').contains(".."@),
{
    reveal_strlit("..");
    reveal_strlit(".");
    assert(".."@.len() == 2 && "."@.len() == 1);
    let pieces = split_at_char(path@, '/');
    lemma_pieces(pieces, ".."@);
    if pieces.contains(".."@) {
        let i = choose|i: int| 0 <= i < pieces.len() && pieces[i] == ".."@;
        assert(has_component(pieces, ".."@));
    }
}

/// A path is within a directory exactly where it starts with the directory's components, and both
/// are absolute or both are not; every relative path is within the empty one.
pub proof fn containment_is_by_components(
    path: &str,
    directory: &str,
    inner: Vec<String>,
    outer: Vec<String>,
    r: bool,
)
    requires
        call_ensures(path_components, (path,), inner),
        call_ensures(path_components, (directory,), outer),
        call_ensures(is_within, (path, directory), r),
    ensures
        r <==> {
            let rooted = |p: Seq<char>| p.len() > 0 && p[0] == '/';
            &&& rooted(path@) == rooted(directory@) || (!rooted(directory@) && outer@.len() == 0)
            &&& outer@.len() <= inner@.len()
            &&& forall|i: int|
                #![trigger outer@[i]]
                0 <= i < outer@.len() ==> outer@[i]@ == inner@[i]@
        },
{
    let a = texts(inner@);
    let b = texts(outer@);
    assert(a.len() == inner@.len() && b.len() == outer@.len());
    assert forall|i: int| 0 <= i < a.len() implies #[trigger] a[i] == inner@[i]@ by {}
    assert forall|i: int| 0 <= i < b.len() implies #[trigger] b[i] == outer@[i]@ by {}
    if b.is_prefix_of(a) {
        assert forall|i: int| #![trigger outer@[i]] 0 <= i < outer@.len() implies outer@[i]@
            == inner@[i]@ by {
            assert(b[i] == a.take(b.len() as int)[i]);
            assert(a[i] == inner@[i]@);
        }
    }
    if outer@.len() <= inner@.len() && (forall|i: int|
        #![trigger outer@[i]]
        0 <= i < outer@.len() ==> outer@[i]@ == inner@[i]@) {
        assert forall|i: int| 0 <= i < b.len() implies #[trigger] b[i] == a[i] by {
            assert(outer@[i]@ == inner@[i]@);
        }
        assert(b =~= a.take(b.len() as int));
    }
}

/// Evidence goes outside the checkout or under its target directory, by a path that does not climb.
pub proof fn evidence_stays_out_of_the_checkout(
    current: &str,
    path: &str,
    resolved: &str,
    target: &str,
    climbing: bool,
    inside: bool,
    in_target: bool,
    r: Checked<String>,
)
    requires
        call_ensures(has_parent_step, (path,), climbing),
        resolved@ == under(current@, path@),
        target@ == under(current@, "target"@),
        call_ensures(is_within, (resolved, current), inside),
        call_ensures(is_within, (resolved, target), in_target),
        call_ensures(prepare_output, (current, path), r),
    ensures
        r is Ok <==> !climbing && (inside ==> in_target),
        r matches Ok(t) ==> t@ == resolved@,
        climbing ==> failed(r, "evidence output cannot contain parent traversal"@),
        !climbing && inside && !in_target ==> failed(
            r,
            "evidence output inside the checkout must remain under target/"@,
        ),
{
}

/// A directory is empty exactly where it has no entries.
pub proof fn empty_directories_have_no_entries(entries: u64, message: &str, r: Checked<()>)
    requires
        call_ensures(check_empty, (entries, message), r),
    ensures
        r is Ok <==> entries == 0,
        r is Err ==> failed(r, message@),
{
}

/// An external output is where its path leads from the current directory, and must not climb.
pub proof fn external_outputs_do_not_climb(
    current: &str,
    path: &str,
    resolved: &str,
    climbing: bool,
    r: Checked<String>,
)
    requires
        resolved@ == under(current@, path@),
        call_ensures(has_parent_step, (resolved,), climbing),
        call_ensures(external_output, (current, path), r),
    ensures
        r is Ok <==> !climbing,
        r matches Ok(t) ==> t@ == resolved@,
        r is Err ==> failed(r, "output path must not contain parent traversal"@),
{
}

/// An output path is resolved from its nearest existing ancestor by the components that are
/// missing, and refused where it ends up among tracked sources.
pub proof fn outputs_are_resolved(
    output: &str,
    missing: usize,
    ancestor: &str,
    root: &str,
    target: &str,
    resolved: &str,
    parts: Vec<String>,
    inside: bool,
    in_target: bool,
    r: Checked<String>,
)
    requires
        call_ensures(path_components, (output,), parts),
        resolved@ == extended(ancestor@, texts(parts@), parts@.len() - missing),
        call_ensures(is_within, (resolved, root), inside),
        call_ensures(is_within, (resolved, target), in_target),
        call_ensures(validate_output_path, (output, missing, ancestor, root, target), r),
    ensures
        r is Ok <==> missing <= parts@.len() && (inside ==> in_target),
        r matches Ok(t) ==> t@ == resolved@,
        missing > parts@.len() ==> failed(r, "output path has no existing ancestor"@),
        missing == 0 ==> resolved@ == ancestor@,
        0 < missing <= parts@.len() ==> resolved@ == extended(
            under(ancestor@, parts@[parts@.len() - missing]@),
            texts(parts@),
            parts@.len() - missing + 1,
        ),
{
    assert(texts(parts@).len() == parts@.len());
    if 0 < missing <= parts@.len() {
        assert(texts(parts@)[parts@.len() - missing] == parts@[parts@.len() - missing]@);
    }
}

proof fn lemma_last(s: Seq<char>, at: int, end: int)
    requires
        0 <= at < end <= s.len(),
        s[at] == '/',
        forall|i: int| at < i < end ==> s[i] != '/',
    ensures
        last_position(s, '/', end) == at,
    decreases end,
{
    if at < end - 1 {
        lemma_last(s, at, end - 1);
    }
}

/// Whether a text names an entry of a directory: it is not empty, has no slash, and is no dot.
pub open spec fn entry_name(name: Seq<char>) -> bool {
    name.len() > 0 && !name.contains('/') && name != "."@
}

proof fn lemma_entry(directory: Seq<char>, name: Seq<char>)
    requires
        entry_name(name),
    ensures
        ({
            let path = directory + "/"@ + name;
            &&& piece_start(path) == directory.len() + 1
            &&& without_empty_end(path) == path
            &&& path.take(directory.len() as int) == directory
            &&& file_name(path) == name
        }),
{
    reveal_strlit("/");
    let path = directory + "/"@ + name;
    let n = directory.len() as int;
    assert(path[n] == '/');
    assert forall|i: int| n < i < path.len() implies path[i] != '/' by {
        assert(path[i] == name[i - n - 1]);
        if path[i] == '/' {
            assert(name.contains('/'));
        }
    }
    lemma_last(path, n, path.len() as int);
    assert(path.skip(n + 1) =~= name);
    assert(path.take(n) =~= directory);
}

/// The parent of an entry is the directory that it is named in.
pub proof fn parents_hold_their_entries(
    path: &str,
    above: Seq<char>,
    directory: Seq<char>,
    name: Seq<char>,
    r: Option<String>,
)
    requires
        call_ensures(parent_directory, (path,), r),
        entry_name(directory) && entry_name(name),
        path@ == above + "/"@ + directory + "/"@ + name,
    ensures
        r matches Some(t) && t@ == above + "/"@ + directory,
{
    reveal_strlit("/");
    lemma_entry(above + "/"@ + directory, name);
    lemma_entry(above, directory);
}

/// An application lies beside the running program, or above it where that is in the directory of
/// test programs.
pub proof fn applications_lie_beside(
    executable: &str,
    file: &str,
    above: Seq<char>,
    profile: Seq<char>,
    directory: Seq<char>,
    name: Seq<char>,
    r: Checked<String>,
)
    requires
        call_ensures(application_binary, (executable, file), r),
        entry_name(profile) && entry_name(directory) && entry_name(name),
        executable@ == above + "/"@ + profile + "/"@ + directory + "/"@ + name,
    ensures
        directory == "deps"@ ==> (r matches Ok(t) && t@ == under(above + "/"@ + profile, file@)),
        directory != "deps"@ ==> (r matches Ok(t) && t@ == under(
            above + "/"@ + profile + "/"@ + directory,
            file@,
        )),
{
    reveal_strlit("/");
    lemma_entry(above + "/"@ + profile + "/"@ + directory, name);
    lemma_entry(above + "/"@ + profile, directory);
    lemma_entry(above, profile);
}

} // verus!
