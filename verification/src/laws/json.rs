//! Documents: what stands at a path, and what is required there.

use vstd::prelude::*;

use crate::application::{
    path_text, require_application, require_executable, required_text, required_u64, under_keys,
};
use crate::failure::{failed, Checked};
use crate::json::{at, first_with, found, items, keys_are_found, Json, Tree};
use crate::runs::{
    artifact_references, idle_note, named_output, node_attempt, reference_of, reference_views,
    references_of, Reference, ReferenceView,
};
use crate::text::{decimal, unsigned};

verus! {

/// A key leads into an object where it has it, and a hash with a number leads into a list where it
/// is that long; nothing leads into any other value.
pub proof fn steps_lead_into_objects_and_lists(
    j: &Json,
    path: &str,
    n: nat,
    r: Option<&Json>,
    value: Json,
)
    requires
        call_ensures(Json::find, (j, path), r),
        call_ensures(Json::get, (j, path), value),
        path@.len() > 0,
        !path@.contains(','),
    ensures
        j@ matches Tree::Object(m) ==> (r is Some <==> m.contains_key(path@)),
        j@ matches Tree::Object(m) ==> (m.contains_key(path@) ==> r->Some_0@ == m[path@]),
        j@ matches Tree::List(l) ==> (path@[0] == '#' && unsigned(path@.skip(1), u64::MAX as nat)
            == Some(n) && n < l.len() ==> (r matches Some(e) && e@ == l[n as int])),
        j@ matches Tree::List(l) ==> (path@[0] != '#' ==> r is None),
        !(j@ is Object) && !(j@ is List) ==> r is None,
        r matches Some(e) ==> value@ == e@,
        r is None ==> value@ == Tree::Null,
{
    keys_are_found(j@, path@);
}

/// The empty path leads to the document itself.
pub proof fn empty_paths_lead_nowhere(j: &Json, path: &str, r: Json)
    requires
        call_ensures(Json::get, (j, path), r),
        path@.len() == 0,
    ensures
        r@ == j@,
{
    reveal_strlit("");
    assert(path@ =~= ""@);
    crate::json::lemma_root(j@);
}

/// A path of two parts leads from where the first part leads.
pub proof fn paths_lead_on(j: &Json, path: &str, key: &str, rest: &str, step: Json, r: Json)
    requires
        key@.len() > 0,
        !key@.contains(','),
        rest@.len() > 0,
        path@ == key@ + seq![','] + rest@,
        call_ensures(Json::get, (j, key), step),
        call_ensures(Json::get, (j, path), r),
    ensures
        r@ == at(step@, rest@),
{
    crate::json::paths_compose(j@, key@, rest@);
    keys_are_found(j@, key@);
    if crate::json::stepped(j@, key@) is None {
        lemma_nothing(rest@);
    }
}

proof fn lemma_nothing(rest: Seq<char>)
    requires
        rest.len() > 0,
    ensures
        at(Tree::Null, rest) == Tree::Null,
{
    reveal(found);
    let s = crate::json::segments(rest);
    lemma_some_segment(rest);
}

proof fn lemma_some_segment(rest: Seq<char>)
    requires
        rest.len() > 0,
    ensures
        crate::json::segments(rest).len() > 0,
{
    crate::text::lemma_position(rest, ',', 0);
}

/// What is placed at a path is found there.
pub proof fn placed_values_are_found(j: Json, path: &str, value: Json, written: Json, r: Json)
    requires
        crate::json::takes(j@, crate::json::segments(path@)),
        call_ensures(Json::set, (j, path, value), written),
        call_ensures(Json::get, (&written, path), r),
    ensures
        r@ == value@,
{
    reveal(found);
    crate::json::placed_is_found(j@, crate::json::segments(path@), value@);
}

/// An entry that was added is there under its key, and the others are as they were.
pub proof fn added_entries_are_there(
    j: Json,
    key: &str,
    value: Json,
    other: &str,
    added: Json,
    r: Option<&Json>,
)
    requires
        j@ is Object,
        call_ensures(Json::with, (j, key, value), added),
        call_ensures(Json::entry, (&added, other), r),
    ensures
        added@ is Object,
        other@ == key@ ==> (r matches Some(e) && e@ == value@),
        other@ != key@ ==> (r is Some <==> j@->Object_0.contains_key(other@)),
        other@ != key@ ==> (r matches Some(e) ==> e@ == j@->Object_0[other@]),
{
}

/// An element that was added comes last.
pub proof fn added_elements_come_last(j: Json, value: Json, r: Json)
    requires
        j@ is List,
        call_ensures(Json::and, (j, value), r),
    ensures
        r@ == Tree::List(j@->List_0.push(value@)),
{
}

/// Two documents are the same exactly where they say the same.
pub proof fn same_documents_say_the_same(a: &Json, b: &Json, r: bool)
    requires
        call_ensures(Json::same, (a, b), r),
    ensures
        r <==> a@ == b@,
{
}

/// The element with a text at a field is the first that has it.
pub proof fn first_elements_are_taken(
    j: &Json,
    path: &str,
    field: &str,
    expected: &str,
    i: int,
    r: Option<&Json>,
)
    requires
        call_ensures(Json::item_with, (j, path, field, expected), r),
    ensures
        ({
            let l = items(j@, path@);
            &&& 0 <= i < l.len() && at(l[i], field@) == Tree::Text(expected@) && (forall|k: int|
                0 <= k < i ==> at(#[trigger] l[k], field@) != Tree::Text(expected@)) ==> (
            r matches Some(e) && e@ == l[i])
            &&& (forall|k: int|
                0 <= k < l.len() ==> at(#[trigger] l[k], field@) != Tree::Text(expected@)) ==> r
                is None
        }),
{
    let l = items(j@, path@);
    if 0 <= i < l.len() && at(l[i], field@) == Tree::Text(expected@) && (forall|k: int|
        0 <= k < i ==> at(#[trigger] l[k], field@) != Tree::Text(expected@)) {
        lemma_first(l, field@, Tree::Text(expected@), i, 0);
    }
    if forall|k: int| 0 <= k < l.len() ==> at(#[trigger] l[k], field@) != Tree::Text(expected@) {
        lemma_none(l, field@, Tree::Text(expected@), 0);
    }
}

proof fn lemma_first(l: Seq<Tree>, field: Seq<char>, value: Tree, i: int, from: int)
    requires
        0 <= from <= i < l.len(),
        at(l[i], field) == value,
        forall|k: int| from <= k < i ==> at(#[trigger] l[k], field) != value,
    ensures
        first_with(l, field, value, from) == i,
    decreases i - from,
{
    if from < i {
        lemma_first(l, field, value, i, from + 1);
    }
}

proof fn lemma_none(l: Seq<Tree>, field: Seq<char>, value: Tree, from: int)
    requires
        0 <= from <= l.len(),
        forall|k: int| from <= k < l.len() ==> at(#[trigger] l[k], field) != value,
    ensures
        first_with(l, field, value, from) == l.len(),
    decreases l.len() - from,
{
    if from < l.len() {
        lemma_none(l, field, value, from + 1);
    }
}

/// A required field is reached key by key, and has to be of its kind.
pub proof fn required_fields_are_reached(
    value: &Json,
    keys: &[&str],
    text: Checked<String>,
    number: Checked<u64>,
)
    requires
        call_ensures(required_text, (value, keys), text),
        call_ensures(required_u64, (value, keys), number),
    ensures
        under_keys(value@, keys@) is None ==> failed(text, "JSON field is absent"@) && failed(
            number,
            "JSON field is absent"@,
        ),
        under_keys(value@, keys@) matches Some(Tree::Text(t)) ==> (text matches Ok(s) && s@ == t)
            && failed(number, "JSON field is not an unsigned integer"@),
        under_keys(value@, keys@) matches Some(Tree::Integer(n)) ==> failed(
            text,
            "JSON field is not text"@,
        ) && (0 <= n <= u64::MAX ==> (number matches Ok(v) && v == n)),
        keys@.len() == 0 ==> under_keys(value@, keys@) == Some(value@),
        keys@.len() > 0 ==> (value@ matches Tree::Object(m) ==> under_keys(value@, keys@) == if m.contains_key(
            keys@[0]@,
        ) {
            under_keys(m[keys@[0]@], keys@.skip(1))
        } else {
            None
        }),
        keys@.len() > 0 && !(value@ is Object) ==> under_keys(value@, keys@) is None,
{
}

/// Applications and programs have to be files, and paths texts.
pub proof fn programs_are_files(
    is_file: bool,
    text: Option<&str>,
    application: Checked<()>,
    program: Checked<()>,
    path: Checked<&str>,
)
    requires
        call_ensures(require_application, (is_file,), application),
        call_ensures(require_executable, (is_file,), program),
        call_ensures(path_text, (text,), path),
    ensures
        application is Ok <==> is_file,
        program is Ok <==> is_file,
        text matches Some(t) ==> (path matches Ok(s) && s@ == t@),
        text is None ==> failed(path, "fixture path is not UTF-8"@),
{
}

/// A node's attempt is the latest of the first entry under the node's name.
pub proof fn node_attempts_are_the_latest(read: &Json, name: &str, i: int, r: Checked<String>)
    requires
        call_ensures(node_attempt, (read, name), r),
    ensures
        ({
            let l = items(read@, "value,nodes"@);
            &&& (forall|k: int|
                0 <= k < l.len() ==> at(#[trigger] l[k], "node_id"@) != Tree::Text(name@))
                ==> failed(r, "expected node absent"@)
            &&& 0 <= i < l.len() && at(l[i], "node_id"@) == Tree::Text(name@) && (forall|k: int|
                0 <= k < i ==> at(#[trigger] l[k], "node_id"@) != Tree::Text(name@)) ==> (
            l[i] matches Tree::Object(m) ==> (m.contains_key("latest_attempt_id"@) ==> (
            m["latest_attempt_id"@] matches Tree::Text(t) ==> (r matches Ok(s) && s@ == t))))
        }),
{
    let l = items(read@, "value,nodes"@);
    if forall|k: int| 0 <= k < l.len() ==> at(#[trigger] l[k], "node_id"@) != Tree::Text(name@) {
        lemma_none(l, "node_id"@, Tree::Text(name@), 0);
    }
    if 0 <= i < l.len() && at(l[i], "node_id"@) == Tree::Text(name@) && (forall|k: int|
        0 <= k < i ==> at(#[trigger] l[k], "node_id"@) != Tree::Text(name@)) {
        lemma_first(l, "node_id"@, Tree::Text(name@), i, 0);
        assert(seq!["latest_attempt_id"].skip(1) =~= Seq::<&str>::empty());
        reveal_with_fuel(under_keys, 2);
    }
}

/// A named output is the artifact of the first output under the name.
pub proof fn named_outputs_are_found(attempt: &Json, name: &str, r: Checked<String>)
    requires
        call_ensures(named_output, (attempt, name), r),
    ensures
        !(at(attempt@, "value,outputs"@) is List) ==> failed(r, "attempt outputs absent"@),
        ({
            let l = items(attempt@, "value,outputs"@);
            at(attempt@, "value,outputs"@) is List && (forall|k: int|
                0 <= k < l.len() ==> at(#[trigger] l[k], "name"@) != Tree::Text(name@)) ==> failed(
                r,
                "named output absent"@,
            )
        }),
{
    let l = items(attempt@, "value,outputs"@);
    if forall|k: int| 0 <= k < l.len() ==> at(#[trigger] l[k], "name"@) != Tree::Text(name@) {
        lemma_none(l, "name"@, Tree::Text(name@), 0);
    }
}

proof fn lemma_references(outputs: Seq<Tree>, i: int, n: int)
    requires
        0 <= i < n <= outputs.len(),
        references_of(outputs, n) is Ok,
    ensures
        references_of(outputs, n)->Ok_0.len() == n,
        reference_of(outputs[i]) == Ok::<ReferenceView, Seq<char>>(
            references_of(outputs, n)->Ok_0[i],
        ),
    decreases n,
{
    if i < n - 1 {
        lemma_references(outputs, i, n - 1);
    } else {
        lemma_references_len(outputs, n - 1);
    }
}

proof fn lemma_references_len(outputs: Seq<Tree>, n: int)
    requires
        0 <= n <= outputs.len(),
        references_of(outputs, n) is Ok,
    ensures
        references_of(outputs, n)->Ok_0.len() == n,
    decreases n,
{
    if n > 0 {
        lemma_references_len(outputs, n - 1);
    }
}

/// Every output has a reference with the identity, the digest, the size and, where it has one, the
/// type of its artifact.
pub proof fn outputs_are_referred_to(attempt: &Json, i: int, r: Checked<Vec<Reference>>)
    requires
        call_ensures(artifact_references, (attempt,), r),
        0 <= i < items(attempt@, "value,outputs"@).len(),
    ensures
        !(at(attempt@, "value,outputs"@) is List) ==> failed(r, "evidence outputs absent"@),
        r matches Ok(v) ==> {
            let artifact = at(items(attempt@, "value,outputs"@)[i], "artifact"@);
            let m = artifact->Object_0;
            &&& v@.len() == items(attempt@, "value,outputs"@).len()
            &&& artifact is Object
            &&& m["artifact_id"@] == Tree::Text(v@[i].identity@)
            &&& m["digest"@] == Tree::Text(v@[i].digest@)
            &&& m["size"@] == Tree::Integer(v@[i].size as int)
            &&& at(artifact, "content_type"@) matches Tree::Text(t) ==> (
            v@[i].media_type matches Some(s) && s@ == t)
            &&& !(at(artifact, "content_type"@) is Text) ==> v@[i].media_type is None
        },
{
    if r is Ok {
        let l = items(attempt@, "value,outputs"@);
        let v = r->Ok_0@;
        let views = reference_views(v);
        assert(views.len() == v.len());
        lemma_references_len(l, l.len() as int);
        assert(views[i] == v[i]@);
        lemma_references(l, i, l.len() as int);
        assert(seq!["artifact_id"].skip(1) =~= Seq::<&str>::empty());
        assert(seq!["digest"].skip(1) =~= Seq::<&str>::empty());
        assert(seq!["size"].skip(1) =~= Seq::<&str>::empty());
        reveal_with_fuel(under_keys, 2);
    }
}

/// A role that was not measured is told with its process.
pub proof fn unmeasured_roles_are_told(role: &str, process: u32, r: String)
    requires
        call_ensures(idle_note, (role, process), r),
    ensures
        r@ == "idle role observation not measured on this platform: role="@ + role@ + ", process="@
            + decimal(process as nat),
{
}

} // verus!
