//! Evidence from real providers: what may be granted, disclosed and concluded.

use vstd::prelude::*;
use vstd::utf8::{decode_utf8, valid_utf8};

use crate::application::parent;
use crate::external::{
    artifact_evidence, attempt_for_node, check_fixture, check_injection, check_source,
    endpoint_stopped, execute, explicit_grant, first_named_key, forbidden_values, grant_choice,
    grant_destination, grant_filesystem, grant_operations, grant_secrets, grant_validity, host_line,
    json_string, mapped, mapping_of, model_failure, names_key, parse_mapping,
    qualifies, redaction_check, rust_build_target, scopes_view, secret_sources,
    serve_mock_connection, source_map, validation_steps, Conclusion,
    FixtureFailure, GrantChoice, GrantRequest, ModelNeeds, Scope, ScopeView, Served, Settled,
    Source, SourceView, Unfinished,
};
use crate::failure::{failed, Checked};
use crate::json::{at, items, Json, Tree};
use crate::scenario::text_list;
use crate::text::{decimal, lines_of, occurs, position, texts};

verus! {

/// A fixture needs leave.
pub proof fn fixtures_need_leave(fixture: bool, allow_fixture: bool, r: Checked<()>)
    requires
        call_ensures(check_fixture, (fixture, allow_fixture), r),
    ensures
        r is Ok <==> !fixture || allow_fixture,
        r is Err ==> failed(
            r,
            "--fixture requires --allow-fixture and remains non-qualifying"@,
        ),
{
}

/// Evidence that is not of a fixture needs a clean checkout.
pub proof fn real_evidence_needs_clean_sources(fixture: bool, dirty: bool, r: Checked<()>)
    requires
        call_ensures(check_source, (fixture, dirty), r),
    ensures
        r is Ok <==> fixture || !dirty,
{
}

/// An injected failure fails its own scenario and no other.
pub proof fn injections_fail_their_scenario(
    injected: Option<FixtureFailure>,
    scenario: FixtureFailure,
    r: Checked<()>,
)
    requires
        call_ensures(check_injection, (injected, scenario), r),
    ensures
        r is Err <==> injected == Some(scenario),
        r is Err && scenario == FixtureFailure::Process ==> failed(
            r,
            "fixture-injected process scenario failure"@,
        ),
        r is Err && scenario == FixtureFailure::Model ==> failed(
            r,
            "fixture-injected model scenario failure"@,
        ),
{
}

/// Evidence qualifies exactly where both scenarios do.
pub proof fn both_scenarios_qualify(process: bool, model: bool, r: bool)
    requires
        call_ensures(qualifies, (process, model), r),
    ensures
        r <==> process && model,
{
}

/// Whether a mapping is of a reference to a variable.
pub open spec fn of_variable(
    mapping: Seq<char>,
    reference: Seq<char>,
    variable: Seq<char>,
) -> bool {
    !reference.contains('=') && mapping == reference + "=env:"@ + variable
}

/// Whether a mapping is of a reference to a file.
pub open spec fn of_file(mapping: Seq<char>, reference: Seq<char>, path: Seq<char>) -> bool {
    !reference.contains('=') && mapping == reference + "=file:"@ + path
}

proof fn lemma_mapping(mapping: Seq<char>, reference: Seq<char>, source: Seq<char>)
    ensures
        of_variable(mapping, reference, source) <==> mapping_of(mapping) == Ok::<
            (Seq<char>, SourceView),
            Seq<char>,
        >((reference, SourceView::Environment { variable: source })),
        of_file(mapping, reference, source) <==> mapping_of(mapping) == Ok::<
            (Seq<char>, SourceView),
            Seq<char>,
        >((reference, SourceView::File { path: source })),
{
    reveal_strlit("=env:");
    reveal_strlit("=file:");
    reveal_strlit("env:");
    reveal_strlit("file:");
    crate::text::lemma_position(mapping, '=', 0);
    let p = position(mapping, '=', 0);
    let n = reference.len() as int;
    if of_variable(mapping, reference, source) || of_file(mapping, reference, source) {
        assert(mapping[n] == '=');
        assert(p <= n);
        if p < n {
            assert(reference[p] == mapping[p]);
            assert(reference.contains('='));
        }
        assert(mapping.subrange(0, p) =~= reference);
        let rest = mapping.subrange(p + 1, mapping.len() as int);
        if of_variable(mapping, reference, source) {
            assert(rest =~= "env:"@ + source);
            assert(rest.skip(4) =~= source);
            assert("env:"@.is_prefix_of(rest));
        } else {
            assert(rest =~= "file:"@ + source);
            assert(rest.skip(5) =~= source);
            assert("file:"@.is_prefix_of(rest));
            assert(rest[0] == 'f');
            assert(!"env:"@.is_prefix_of(rest)) by {
                if "env:"@.is_prefix_of(rest) {
                    assert(rest.take(4)[0] == 'e');
                }
            }
        }
    }
    if mapping_of(mapping) matches Ok(m) && m.0 == reference {
        let rest = mapping.subrange(p + 1, mapping.len() as int);
        assert(p < mapping.len());
        assert(!reference.contains('=')) by {
            if reference.contains('=') {
                let k = choose|k: int| 0 <= k < reference.len() && reference[k] == '=';
                assert(mapping[k] == '=');
            }
        }
        if "env:"@.is_prefix_of(rest) {
            assert(rest =~= "env:"@ + rest.skip(4));
            assert("=env:"@ =~= seq!['='] + "env:"@);
            assert(mapping =~= reference + seq!['='] + rest);
            assert(mapping =~= reference + "=env:"@ + rest.skip(4));
        } else if "file:"@.is_prefix_of(rest) {
            assert(rest =~= "file:"@ + rest.skip(5));
            assert("=file:"@ =~= seq!['='] + "file:"@);
            assert(mapping =~= reference + seq!['='] + rest);
            assert(mapping =~= reference + "=file:"@ + rest.skip(5));
        }
    }
}

/// A mapping names the reference before its first equals sign, and behind it a variable or a file;
/// it is taken exactly where it does.
pub proof fn mappings_name_reference_and_source(
    mapping: &str,
    reference: Seq<char>,
    source: Seq<char>,
    r: Checked<(String, Source)>,
)
    requires
        call_ensures(parse_mapping, (mapping,), r),
    ensures
        of_variable(mapping@, reference, source) <==> (r matches Ok(m) && m.0@ == reference
            && m.1@ == (SourceView::Environment { variable: source })),
        of_file(mapping@, reference, source) <==> (r matches Ok(m) && m.0@ == reference && m.1@
            == (SourceView::File { path: source })),
        !mapping@.contains('=') ==> failed(r, "secret source mapping requires reference=source"@),
{
    lemma_mapping(mapping@, reference, source);
    crate::text::lemma_position(mapping@, '=', 0);
    if position(mapping@, '=', 0) < mapping@.len() {
        assert(mapping@.contains('='));
    }
}

/// Whether a list has a source for a reference.
pub open spec fn has_source(v: Seq<(String, Source)>, reference: Seq<char>) -> bool {
    exists|i: int| 0 <= i < v.len() && (#[trigger] v[i]).0@ == reference
}

proof fn lemma_has_source(v: Seq<(String, Source)>, reference: Seq<char>)
    ensures
        source_map(v).contains_key(reference) <==> has_source(v, reference),
    decreases v.len(),
{
    if v.len() > 0 {
        let before = v.drop_last();
        lemma_has_source(before, reference);
        assert(v[v.len() - 1] == v.last());
        if has_source(before, reference) {
            let i = choose|i: int| 0 <= i < before.len() && (#[trigger] before[i]).0@ == reference;
            assert(v[i].0@ == reference);
        }
        if has_source(v, reference) && v.last().0@ != reference {
            let i = choose|i: int| 0 <= i < v.len() && (#[trigger] v[i]).0@ == reference;
            assert(before[i].0@ == reference);
        }
    }
}

proof fn lemma_mapped(mappings: Seq<Seq<char>>, set: Seq<bool>, j: int, n: int)
    requires
        0 <= j < n <= mappings.len(),
        mapped(mappings, set, n) is Ok,
    ensures
        mapping_of(mappings[j]) is Ok,
        mapping_of(mappings[j])->Ok_0.1 is Environment ==> set[j],
        mapped(mappings, set, n)->Ok_0.contains_key(mapping_of(mappings[j])->Ok_0.0),
        (forall|k: int|
            j < k < n ==> (#[trigger] mapping_of(mappings[k]))->Ok_0.0 != mapping_of(
                mappings[j],
            )->Ok_0.0) ==> mapped(mappings, set, n)->Ok_0[mapping_of(mappings[j])->Ok_0.0]
            == mapping_of(mappings[j])->Ok_0.1,
    decreases n,
{
    if j < n - 1 {
        lemma_mapped(mappings, set, j, n - 1);
        if forall|k: int|
            j < k < n ==> (#[trigger] mapping_of(mappings[k]))->Ok_0.0 != mapping_of(
                mappings[j],
            )->Ok_0.0 {
            assert(mapping_of(mappings[n - 1])->Ok_0.0 != mapping_of(mappings[j])->Ok_0.0);
        }
    }
}

proof fn lemma_all_mapped(
    required: Seq<Seq<char>>,
    sources: Map<Seq<char>, SourceView>,
    k: int,
    from: int,
)
    requires
        0 <= from <= k < required.len(),
        crate::external::first_unmapped(required, sources, from) is None,
    ensures
        sources.contains_key(required[k]),
    decreases k - from,
{
    if from < k {
        lemma_all_mapped(required, sources, k, from + 1);
    }
}

/// Where there are mappings, every required secret has a source, every mapping can be read, and a
/// variable that is mapped is set; without any, the sentinel file is the one source.
pub proof fn required_secrets_have_a_source(
    mappings: &Vec<String>,
    set: &Vec<bool>,
    required: &Vec<String>,
    sentinel: &str,
    reference: Seq<char>,
    source: Seq<char>,
    j: int,
    k: int,
    r: Checked<Vec<(String, Source)>>,
)
    requires
        call_ensures(secret_sources, (mappings, set, required, sentinel), r),
        0 <= j < mappings@.len(),
        set@.len() == mappings@.len(),
    ensures
        r matches Ok(v) ==> {
            &&& 0 <= k < required@.len() ==> has_source(v@, required@[k]@)
            &&& of_variable(mappings@[j]@, reference, source) ==> set@[j] && has_source(
                v@,
                reference,
            )
            &&& of_file(mappings@[j]@, reference, source) ==> has_source(v@, reference)
            &&& !mappings@[j]@.contains('=') ==> false
        },
{
    if r is Ok {
        let v = r->Ok_0@;
        let all = texts(mappings@);
        let m = mapped(all, set@, all.len() as int)->Ok_0;
        assert(all.len() == mappings@.len());
        assert(all[j] == mappings@[j]@);
        assert(source_map(v) == m);
        lemma_mapped(all, set@, j, all.len() as int);
        lemma_mapping(mappings@[j]@, reference, source);
        lemma_has_source(v, reference);
        crate::text::lemma_position(mappings@[j]@, '=', 0);
        if position(mappings@[j]@, '=', 0) < mappings@[j]@.len() {
            assert(mappings@[j]@.contains('='));
        }
        if 0 <= k < required@.len() {
            assert(texts(required@).len() == required@.len());
            assert(texts(required@)[k] == required@[k]@);
            lemma_all_mapped(texts(required@), m, k, 0);
            lemma_has_source(v, required@[k]@);
        }
    }
}

/// The last mapping of a reference gives its source.
pub proof fn last_mappings_stand(
    mappings: &Vec<String>,
    set: &Vec<bool>,
    required: &Vec<String>,
    sentinel: &str,
    reference: Seq<char>,
    source: Seq<char>,
    j: int,
    r: Checked<Vec<(String, Source)>>,
)
    requires
        call_ensures(secret_sources, (mappings, set, required, sentinel), r),
        0 <= j < mappings@.len(),
        set@.len() == mappings@.len(),
        forall|k: int, other: Seq<char>|
            j < k < mappings@.len() ==> !of_variable(mappings@[k]@, reference, other) && !of_file(
                mappings@[k]@,
                reference,
                other,
            ),
    ensures
        r matches Ok(v) ==> (of_variable(mappings@[j]@, reference, source) ==> source_map(
            v@,
        )[reference] == (SourceView::Environment { variable: source })) && (of_file(
            mappings@[j]@,
            reference,
            source,
        ) ==> source_map(v@)[reference] == (SourceView::File { path: source })),
{
    if r is Ok {
        let all = texts(mappings@);
        assert(all.len() == mappings@.len());
        assert(all[j] == mappings@[j]@);
        lemma_mapped(all, set@, j, all.len() as int);
        lemma_mapping(mappings@[j]@, reference, source);
        if of_variable(mappings@[j]@, reference, source) || of_file(
            mappings@[j]@,
            reference,
            source,
        ) {
            assert forall|k: int| j < k < all.len() implies (#[trigger] mapping_of(
                all[k],
            ))->Ok_0.0 != reference by {
                assert(all[k] == mappings@[k]@);
                lemma_mapped(all, set@, k, all.len() as int);
                match mapping_of(all[k])->Ok_0.1 {
                    SourceView::Environment { variable } => {
                        lemma_mapping(all[k], reference, variable);
                        assert(!of_variable(mappings@[k]@, reference, variable));
                    },
                    SourceView::File { path } => {
                        lemma_mapping(all[k], reference, path);
                        assert(!of_file(mappings@[k]@, reference, path));
                    },
                }
            }
        }
    }
}

/// What must not be disclosed is every value that is not empty.
pub proof fn empty_values_are_not_forbidden(values: Vec<Vec<u8>>, i: int, r: Vec<Vec<u8>>)
    requires
        call_ensures(forbidden_values, (values,), r),
    ensures
        0 <= i < values@.len() && values@[i]@.len() > 0 ==> r@.contains(values@[i]),
        0 <= i < r@.len() ==> r@[i]@.len() > 0,
{
    broadcast use vstd::seq_lib::group_filter_ensures;

    let f = |v: Vec<u8>| v@.len() > 0;
    assert(r@ == values@.filter(f));
    if 0 <= i < values@.len() && values@[i]@.len() > 0 {
        assert(f(values@[i]));
        assert(values@.filter(f).contains(values@[i]));
    }
    if 0 <= i < r@.len() {
        assert(f(values@.filter(f)[i]));
    }
}

/// Whether a text holds a word, whatever the case of its ASCII letters.
pub open spec fn holds_word(text: Seq<char>, word: Seq<char>) -> bool {
    occurs(
        text.map_values(
            |c: char|
                if 'A' <= c && c <= 'Z' {
                    (c as u32 + 32) as char
                } else {
                    c
                },
        ),
        word,
    )
}

proof fn lemma_word(text: Seq<char>, key: Seq<char>, quoted: Seq<char>)
    requires
        "\""@ + key + "\""@ == quoted,
    ensures
        names_key(text, key) == holds_word(text, quoted),
{
    assert(crate::external::in_lowercase(text) =~= text.map_values(
        |c: char|
            if 'A' <= c && c <= 'Z' {
                (c as u32 + 32) as char
            } else {
                c
            },
    ));
}

/// A report passes exactly where it holds no forbidden value and, where it is text, none of four
/// keys in quotes; a report that passes is handed on as it is.
pub proof fn reports_disclose_nothing(
    bytes: Vec<u8>,
    forbidden: &Vec<Vec<u8>>,
    r: Checked<Option<String>>,
)
    requires
        call_ensures(redaction_check, (bytes, forbidden), r),
    ensures
        (exists|i: int|
            #![trigger forbidden@[i]]
            0 <= i < forbidden@.len() && forbidden@[i]@.len() > 0 && occurs(
                bytes@,
                forbidden@[i]@,
            )) ==> failed(r, "redaction validation found a secret value in the report"@),
        r is Ok <==> (forall|i: int|
            #![trigger forbidden@[i]]
            0 <= i < forbidden@.len() && forbidden@[i]@.len() > 0 ==> !occurs(
                bytes@,
                forbidden@[i]@,
            )) && (valid_utf8(bytes@) ==> {
            let t = decode_utf8(bytes@);
            &&& !holds_word(t, "\"authorization\""@)
            &&& !holds_word(t, "\"full_prompt\""@)
            &&& !holds_word(t, "\"full_output\""@)
            &&& !holds_word(t, "\"environment\""@)
        }),
        r matches Ok(Some(t)) ==> valid_utf8(bytes@) && t@ == decode_utf8(bytes@),
        r matches Ok(None) ==> !valid_utf8(bytes@),
{
    let t = decode_utf8(bytes@);
    reveal_strlit("\"");
    reveal_strlit("authorization");
    reveal_strlit("full_prompt");
    reveal_strlit("full_output");
    reveal_strlit("environment");
    reveal_strlit("\"authorization\"");
    reveal_strlit("\"full_prompt\"");
    reveal_strlit("\"full_output\"");
    reveal_strlit("\"environment\"");
    assert("\""@ + "authorization"@ + "\""@ =~= "\"authorization\""@);
    assert("\""@ + "full_prompt"@ + "\""@ =~= "\"full_prompt\""@);
    assert("\""@ + "full_output"@ + "\""@ =~= "\"full_output\""@);
    assert("\""@ + "environment"@ + "\""@ =~= "\"environment\""@);
    lemma_word(t, "authorization"@, "\"authorization\""@);
    lemma_word(t, "full_prompt"@, "\"full_prompt\""@);
    lemma_word(t, "full_output"@, "\"full_output\""@);
    lemma_word(t, "environment"@, "\"environment\""@);
    reveal_with_fuel(first_named_key, 5);
    assert(crate::external::forbidden_keys()[0] == "authorization"@);
    assert(crate::external::forbidden_keys()[1] == "full_prompt"@);
    assert(crate::external::forbidden_keys()[2] == "full_output"@);
    assert(crate::external::forbidden_keys()[3] == "environment"@);
}

proof fn lemma_host(lines: Seq<Seq<char>>, target: Seq<char>, i: int, from: int)
    requires
        0 <= from <= i < lines.len(),
        lines[i] == "host: "@ + target,
        forall|j: int| from <= j < i ==> !"host: "@.is_prefix_of(#[trigger] lines[j]),
    ensures
        host_line(lines, from) == Some(target),
    decreases i - from,
{
    if from < i {
        lemma_host(lines, target, i, from + 1);
    } else {
        assert(lines[i].skip("host: "@.len() as int) =~= target);
        assert("host: "@.is_prefix_of(lines[i]));
    }
}

proof fn lemma_no_host(lines: Seq<Seq<char>>, from: int)
    requires
        0 <= from <= lines.len(),
        forall|j: int| from <= j < lines.len() ==> !"host: "@.is_prefix_of(#[trigger] lines[j]),
    ensures
        host_line(lines, from) is None,
    decreases lines.len() - from,
{
    if from < lines.len() {
        lemma_no_host(lines, from + 1);
    }
}

/// The build target is what the first host line names, and a query without one is refused.
pub proof fn build_targets_are_hosts(
    succeeded: bool,
    stdout: &str,
    target: Seq<char>,
    i: int,
    r: Checked<String>,
)
    requires
        call_ensures(rust_build_target, (succeeded, stdout), r),
    ensures
        !succeeded ==> failed(r, "rustc build-target query failed"@),
        succeeded && 0 <= i < lines_of(stdout@).len() && lines_of(stdout@)[i] == "host: "@ + target
            && (forall|j: int|
            0 <= j < i ==> !"host: "@.is_prefix_of(#[trigger] lines_of(stdout@)[j])) ==> if target.len()
            > 0 {
            r matches Ok(t) && t@ == target
        } else {
            failed(r, "rustc build-target query omitted the host triple"@)
        },
        succeeded && (forall|j: int|
            0 <= j < lines_of(stdout@).len() ==> !"host: "@.is_prefix_of(
                #[trigger] lines_of(stdout@)[j],
            )) ==> failed(r, "rustc build-target query omitted the host triple"@),
{
    let lines = lines_of(stdout@);
    if 0 <= i < lines.len() && lines[i] == "host: "@ + target && (forall|j: int|
        0 <= j < i ==> !"host: "@.is_prefix_of(#[trigger] lines[j])) {
        lemma_host(lines, target, i, 0);
    }
    if forall|j: int| 0 <= j < lines.len() ==> !"host: "@.is_prefix_of(#[trigger] lines[j]) {
        lemma_no_host(lines, 0);
    }
}

/// The session and the repository are granted whole, and the directories of the two programs for
/// execution alone; nothing else is granted.
pub proof fn directories_are_granted(
    session: &str,
    repository: &str,
    agent: &str,
    helper: &str,
    i: int,
    r: Checked<Vec<Scope>>,
)
    requires
        call_ensures(grant_filesystem, (session, repository, agent, helper), r),
    ensures
        r is Ok <==> parent(agent@) is Some && parent(helper@) is Some,
        r is Err ==> failed(r, "process executable has no parent"@),
        r matches Ok(v) ==> {
            &&& 2 <= v@.len() <= 4
            &&& v@[0].path@ == session@ && v@[0].read && v@[0].write && v@[0].execute
            &&& v@[1].path@ == repository@ && v@[1].read && v@[1].write && v@[1].execute
            &&& 2 <= i < v@.len() ==> !v@[i].read && !v@[i].write && v@[i].execute && (Some(
                v@[i].path@,
            ) == parent(agent@) || Some(v@[i].path@) == parent(helper@))
        },
{
    if r is Ok {
        let v = r->Ok_0@;
        let s = crate::external::scope_views(v);
        assert(s.len() == v.len());
        assert forall|k: int| 0 <= k < v.len() implies #[trigger] s[k] == v[k]@ by {}
        assert(scopes_view(r) == Ok::<Seq<ScopeView>, Seq<char>>(s));
        assert(s[0] == v[0]@ && s[1] == v[1]@);
        if 2 <= i < v.len() {
            assert(s[i] == v[i]@);
        }
    }
}

/// Programs are executed and workflows inspected; a model is asked only where there is one.
pub proof fn operations_are_granted(model: bool, r: Vec<&'static str>)
    requires
        call_ensures(grant_operations, (model,), r),
    ensures
        model ==> r@ == seq!["model.generate", "process.execute", "workflow.inspect"],
        !model ==> r@ == seq!["process.execute", "workflow.inspect"],
{
}

/// A secret is granted exactly where it is required and has a source.
pub proof fn secrets_with_a_source_are_granted(
    required: &Vec<String>,
    sources: &Vec<(String, Source)>,
    secret: Seq<char>,
    r: Vec<String>,
)
    requires
        call_ensures(grant_secrets, (required, sources), r),
    ensures
        texts(r@).contains(secret) <==> texts(required@).contains(secret) && has_source(
            sources@,
            secret,
        ),
{
    let n = required@.len() as int;
    assert(texts(required@).len() == n);
    crate::external::granted_secrets_are_those_with_a_source(
        texts(required@),
        source_map(sources@),
        n,
        secret,
    );
    assert(texts(required@).take(n) =~= texts(required@));
    lemma_has_source(sources@, secret);
}

/// A grant is valid from a minute ago for a day, as far as the clock goes.
pub proof fn grants_last_a_day(now: u64, r: (u64, u64))
    requires
        call_ensures(grant_validity, (now,), r),
    ensures
        now >= 60000 ==> r.0 == now - 60000,
        now < 60000 ==> r.0 == 0,
        now + 86400000 <= u64::MAX ==> r.1 == now + 86400000,
        now + 86400000 > u64::MAX ==> r.1 == u64::MAX,
{
}

/// The controlled endpoint serves chat completions and nothing else, and logs sixty-four requests.
pub proof fn completions_alone_are_served(request: &str, logged: usize, r: Checked<Served>)
    requires
        call_ensures(serve_mock_connection, (request, logged), r),
    ensures
        r is Err <==> logged == 64,
        r is Err ==> failed(r, "fixture request log exceeds bound"@),
        r matches Ok(s) ==> {
            &&& lines_of(request@).len() > 0 ==> s.line@ == lines_of(request@)[0]
            &&& s.counted <==> s.line@ == "POST /v1/chat/completions HTTP/1.1"@
            &&& !s.counted ==> s.response@
                == "HTTP/1.1 404 Not Found\r\nContent-Length: 0\r\nConnection: close\r\n\r\n"@
        },
{
}

proof fn lemma_first_node(l: Seq<Tree>, node: Seq<char>, i: int, from: int)
    requires
        0 <= from <= i < l.len(),
        at(l[i], "node_id"@) == Tree::Text(node),
        forall|j: int| from <= j < i ==> at(#[trigger] l[j], "node_id"@) != Tree::Text(node),
    ensures
        crate::json::first_with(l, "node_id"@, Tree::Text(node), from) == i,
    decreases i - from,
{
    if from < i {
        lemma_first_node(l, node, i, from + 1);
    }
}

/// A node's attempt is the latest that the first entry of the node names.
pub proof fn latest_attempts_are_taken(run: &Json, node: &str, i: int, r: Checked<String>)
    requires
        call_ensures(attempt_for_node, (run, node), r),
    ensures
        ({
            let l = items(run@, "nodes"@);
            0 <= i < l.len() && at(l[i], "node_id"@) == Tree::Text(node@) && (forall|j: int|
                0 <= j < i ==> at(#[trigger] l[j], "node_id"@) != Tree::Text(node@)) ==> match at(
                l[i],
                "latest_attempt_id"@,
            ) {
                Tree::Text(t) => r matches Ok(s) && s@ == t,
                _ => failed(r, "node "@ + node@ + " has no attempt"@),
            }
        }),
        r is Err ==> failed(r, "node "@ + node@ + " has no attempt"@),
{
    let l = items(run@, "nodes"@);
    if 0 <= i < l.len() && at(l[i], "node_id"@) == Tree::Text(node@) && (forall|j: int|
        0 <= j < i ==> at(#[trigger] l[j], "node_id"@) != Tree::Text(node@)) {
        lemma_first_node(l, node@, i, 0);
    }
}

/// A response's text is under its name.
pub proof fn responses_hold_texts(value: &Json, name: &str, r: Checked<String>)
    requires
        call_ensures(json_string, (value, name), r),
    ensures
        r is Ok <==> (value@ matches Tree::Object(m) && m.contains_key(name@) && m[name@] is Text),
        r matches Ok(s) ==> Tree::Text(s@) == value@->Object_0[name@],
        r is Err ==> failed(r, "command response omitted "@ + name@),
{
}

/// What a stopped endpoint leaves behind says whether its task finished.
pub proof fn stopped_endpoints_are_told(task_finished: bool, error: &str, r: String)
    requires
        call_ensures(endpoint_stopped, (task_finished, error), r),
    ensures
        task_finished ==> r@
            == "fixture model endpoint stopped before model scenario (task_finished="@ + "true"@
            + "): "@ + error@,
        !task_finished ==> r@
            == "fixture model endpoint stopped before model scenario (task_finished="@ + "false"@
            + "): "@ + error@,
{
}

/// A result that was not accepted is why a model run failed, with the reason; otherwise its attempt
/// did not complete.
pub proof fn refused_results_are_told(
    acceptance: Option<&Json>,
    attempt: &Json,
    known: &Unfinished,
    r: String,
)
    requires
        call_ensures(model_failure, (acceptance, attempt, known), r),
    ensures
        acceptance matches Some(a) ==> (at(a@, "result_acceptance,accepted"@) == Tree::Bool(false)
            ==> r@ == "model result not accepted: "@ + crate::scenario::text_or_empty(
            a@,
            "result_acceptance,reason"@,
        ) + "; invocation terminal="@ + (match at(attempt@, "terminal"@) {
            Tree::Text(t) => t,
            _ => "unobserved"@,
        })),
        acceptance is None || at(acceptance->Some_0@, "result_acceptance,accepted"@) != Tree::Bool(
            false,
        ) ==> r@ == "model attempt did not complete; fixture_requests="@ + decimal(
            known.fixture_requests as nat,
        ) + "; fixture_request_lines="@ + known.request_lines@ + "; worker_failure="@
            + known.worker_failure@ + "; attempt_state="@ + crate::scenario::text_or_empty(
            attempt@,
            "state"@,
        ) + "; progress="@ + decimal(
            (match at(attempt@, "progress_observations"@) {
                Tree::Integer(n) => if 0 <= n <= u64::MAX {
                    n
                } else {
                    0
                },
                _ => 0,
            }) as nat,
        ) + "; terminal="@ + known.terminal@ + "; outputs="@ + known.outputs@,
{
}

proof fn lemma_scheme(origin: Seq<char>, scheme: Seq<char>, rest: Seq<char>)
    requires
        origin == scheme + "://"@ + rest,
        !scheme.contains(':'),
    ensures
        crate::text::divided_at(origin, "://"@) == Some((scheme, rest)),
{
    reveal_strlit("://");
    lemma_scheme_end(origin, scheme, rest, 0);
    assert(origin.subrange(0, scheme.len() as int) =~= scheme);
    assert(origin.subrange(scheme.len() as int + 3, origin.len() as int) =~= rest);
}

proof fn lemma_scheme_end(origin: Seq<char>, scheme: Seq<char>, rest: Seq<char>, from: int)
    requires
        origin == scheme + "://"@ + rest,
        !scheme.contains(':'),
        0 <= from <= scheme.len(),
    ensures
        crate::text::first_occurrence(origin, "://"@, from) == Some(scheme.len() as int),
    decreases scheme.len() - from,
{
    reveal_strlit("://");
    if from < scheme.len() {
        assert(origin[from] == scheme[from]);
        assert(!crate::text::occurs_at(origin, "://"@, from)) by {
            if crate::text::occurs_at(origin, "://"@, from) {
                assert(origin.subrange(from, from + 3)[0] == origin[from]);
                assert(scheme[from] == ':');
            }
        }
        lemma_scheme_end(origin, scheme, rest, from + 1);
    } else {
        assert(origin.subrange(from, from + 3) =~= "://"@);
        assert(crate::text::occurs_at(origin, "://"@, from));
    }
}

/// A destination is what an origin names behind its scheme.
pub proof fn destinations_follow_the_scheme(
    origin: &str,
    scheme: Seq<char>,
    rest: Seq<char>,
    r: Checked<String>,
)
    requires
        call_ensures(grant_destination, (origin,), r),
    ensures
        origin@ == scheme + "://"@ + rest && !scheme.contains(':') ==> (r matches Ok(t) && t@
            == rest),
        r is Err ==> failed(r, "model endpoint origin is invalid"@),
{
    if origin@ == scheme + "://"@ + rest && !scheme.contains(':') {
        lemma_scheme(origin@, scheme, rest);
    }
}

/// A grant without a model has no profile and no destination; one with a model has its profile and
/// what its origin names behind the scheme. Either has the secrets that have a source.
pub proof fn grants_follow_the_model(
    model: Option<&ModelNeeds>,
    agent_secrets: &Vec<String>,
    sources: &Vec<(String, Source)>,
    secret: Seq<char>,
    scheme: Seq<char>,
    rest: Seq<char>,
    r: Checked<GrantChoice>,
)
    requires
        call_ensures(grant_choice, (model, agent_secrets, sources), r),
    ensures
        model is None ==> (r matches Ok(g) && g@.profiles.len() == 0 && g@.destinations.len() == 0
            && g@.operations == seq!["process.execute"@, "workflow.inspect"@] && (
        g@.secrets.contains(secret) <==> texts(agent_secrets@).contains(secret) && has_source(
            sources@,
            secret,
        ))),
        model matches Some(m) ==> (m.endpoint_origin@ == scheme + "://"@ + rest
            && !scheme.contains(':') ==> (r matches Ok(g) && g@.profiles == seq![m.profile_id@]
            && g@.destinations == seq![rest] && g@.operations == seq![
            "model.generate"@,
            "process.execute"@,
            "workflow.inspect"@,
        ] && (g@.secrets.contains(secret) <==> texts(m.secret_refs@).contains(secret)
            && has_source(sources@, secret)))),
{
    lemma_has_source(sources@, secret);
    let required = match model {
        None => texts(agent_secrets@),
        Some(m) => texts(m.secret_refs@),
    };
    let n = required.len() as int;
    crate::external::granted_secrets_are_those_with_a_source(
        required,
        source_map(sources@),
        n,
        secret,
    );
    assert(required.take(n) =~= required);
    if model matches Some(m) && m.endpoint_origin@ == scheme + "://"@ + rest && !scheme.contains(
        ':',
    ) {
        lemma_scheme(model->Some_0.endpoint_origin@, scheme, rest);
    }
}

/// A grant is for one workflow and its capabilities, gives the chosen operations, directories,
/// networks and secrets, keeps the daemon's configuration and audit closed, and is bounded in cost,
/// time, number and size.
pub proof fn grants_are_explicit(
    request: &GrantRequest,
    model: Option<&ModelNeeds>,
    agent_secrets: &Vec<String>,
    sources: &Vec<(String, Source)>,
    chosen: Checked<GrantChoice>,
    valid: (u64, u64),
    r: Checked<Json>,
)
    requires
        call_ensures(grant_choice, (model, agent_secrets, sources), chosen),
        call_ensures(grant_validity, (request.now,), valid),
        call_ensures(explicit_grant, (request, model, agent_secrets, sources), r),
    ensures
        r is Ok ==> chosen is Ok && parent(request.agent@) is Some && parent(request.helper@)
            is Some,
        chosen is Ok && parent(request.agent@) is Some && parent(request.helper@) is Some ==> r
            is Ok,
        r matches Ok(grant) ==> (chosen matches Ok(g) ==> exists|scopes: Seq<ScopeView>|
            grant@ == #[trigger] grant_with(
                request.workflow@,
                texts(request.capabilities@),
                scopes,
                g@.operations,
                g@.profiles,
                g@.destinations,
                g@.secrets,
                valid,
            ) && crate::external::filesystem_of(
                request.session@,
                request.repository@,
                request.agent@,
                request.helper@,
            ) == Ok::<Seq<ScopeView>, Seq<char>>(scopes)),
{
    if r is Ok {
        let g = chosen->Ok_0@;
        let scopes = crate::external::filesystem_of(
            request.session@,
            request.repository@,
            request.agent@,
            request.helper@,
        )->Ok_0;
        assert(crate::external::scope_trees(scopes) =~= scopes.map_values(
            |scope: ScopeView| scope_entry(scope),
        ));
        assert(r->Ok_0@ == grant_with(
            request.workflow@,
            texts(request.capabilities@),
            scopes,
            g.operations,
            g.profiles,
            g.destinations,
            g.secrets,
            valid,
        ));
    }
}

/// A granted directory, and what may be done in it.
pub open spec fn scope_entry(scope: ScopeView) -> Tree {
    Tree::Object(
        map![
            "path"@ => Tree::Text(scope.path),
            "read"@ => Tree::Bool(scope.read),
            "write"@ => Tree::Bool(scope.write),
            "execute"@ => Tree::Bool(scope.execute),
        ],
    )
}

/// A grant of the given parts.
pub open spec fn grant_with(
    workflow: Seq<char>,
    capabilities: Seq<Seq<char>>,
    scopes: Seq<ScopeView>,
    operations: Seq<Seq<char>>,
    profiles: Seq<Seq<char>>,
    destinations: Seq<Seq<char>>,
    secrets: Seq<Seq<char>>,
    valid: (u64, u64),
) -> Tree {
    let only = |values: Seq<Seq<char>>|
        Tree::Object(map!["type"@ => Tree::Text("only"@), "values"@ => text_list(values)]);
    let kind = |name: Seq<char>| Tree::Object(map!["type"@ => Tree::Text(name)]);
    Tree::Object(
        map![
            "resources"@ => Tree::Object(
                map![
                    "workflow_run"@ => Tree::Object(
                        map![
                            "type"@ => Tree::Text("workflow"@),
                            "workflow"@ => Tree::Text(workflow),
                        ],
                    ),
                    "capability"@ => Tree::Object(
                        map![
                            "type"@ => Tree::Text("allow"@),
                            "maximum_side_effect"@ => Tree::Text("unknown"@),
                            "identities"@ => only(capabilities),
                            "operations"@ => only(operations),
                        ],
                    ),
                    "filesystem"@ => Tree::List(
                        scopes.map_values(|scope: ScopeView| scope_entry(scope)),
                    ),
                    "network"@ => Tree::Object(
                        map![
                            "profiles"@ => text_list(profiles),
                            "destinations"@ => text_list(destinations),
                        ],
                    ),
                    "secrets"@ => text_list(secrets),
                    "artifacts"@ => Tree::Object(
                        map![
                            "type"@ => Tree::Text("allow"@),
                            "identities"@ => kind("any"@),
                            "sensitivities"@ => text_list(
                                seq!["public"@, "internal"@, "restricted"@],
                            ),
                        ],
                    ),
                    "layouts"@ => kind("none"@),
                    "peers"@ => kind("none"@),
                    "daemon"@ => Tree::Object(
                        map![
                            "readiness"@ => Tree::Bool(true),
                            "detailed_health"@ => Tree::Bool(true),
                            "own_authority"@ => Tree::Bool(true),
                            "configuration"@ => Tree::Bool(false),
                            "audit"@ => Tree::Bool(false),
                        ],
                    ),
                    "workspace"@ => Tree::Object(
                        map![
                            "scopes"@ => Tree::List(seq![]),
                            "allow_any_in_run"@ => Tree::Bool(true),
                        ],
                    ),
                ],
            ),
            "budget"@ => Tree::Object(
                map![
                    "cost_minor"@ => Tree::Integer(1000000000),
                    "duration_ms"@ => Tree::Integer(604800000),
                    "invocations"@ => Tree::Integer(10000),
                    "artifact_bytes"@ => Tree::Integer(17179869184),
                    "units"@ => Tree::Integer(1000000000),
                    "concurrency"@ => Tree::Integer(32),
                ],
            ),
            "valid_from"@ => Tree::Integer(valid.0 as int),
            "valid_until"@ => Tree::Integer(valid.1 as int),
            "dangerous_allow_broad_authority"@ => Tree::Bool(true),
        ],
    )
}

/// Every output has a row with its artifact, its digest, its size, its type and its name, under the
/// role where there is one.
pub proof fn outputs_are_evidence(role: Option<&str>, read: &Json, i: int, r: Json)
    requires
        call_ensures(artifact_evidence, (role, read), r),
    ensures
        r@ is List,
        r@->List_0.len() == items(read@, "outputs"@).len(),
        0 <= i < r@->List_0.len() ==> {
            let output = items(read@, "outputs"@)[i];
            let name = match at(output, "name"@) {
                Tree::Text(t) => t,
                _ => Seq::<char>::empty(),
            };
            r@->List_0[i] == Tree::Object(
                map![
                    "artifact_id"@ => at(output, "artifact,artifact_id"@),
                    "digest"@ => at(output, "artifact,digest"@),
                    "size"@ => at(output, "artifact,size"@),
                    "content_type"@ => at(output, "artifact,content_type"@),
                    "role"@ => Tree::Text(
                        match role {
                            Some(t) => t@ + ":"@ + name,
                            None => name,
                        },
                    ),
                ],
            )
        },
{
    if 0 <= i < r@->List_0.len() {
        let output = items(read@, "outputs"@)[i];
        let named = match role {
            Some(t) => Some(t@),
            None => None,
        };
        assert(r@->List_0[i] == crate::external::artifact_row(
            crate::external::output_role(named, output),
            output,
        ));
    }
}

/// Evidence qualifies exactly where both scenarios ended with evidence that says so; a scenario
/// that was not reached is pending, and the first failure is the reason.
pub proof fn conclusions_follow_the_scenarios(
    fixture: bool,
    allow_fixture: bool,
    process: Option<Checked<Json>>,
    model: Option<Checked<Json>>,
    ended: Option<&str>,
    r: Checked<Conclusion>,
)
    requires
        call_ensures(execute, (fixture, allow_fixture, process, model, ended), r),
    ensures
        r is Ok <==> !fixture || allow_fixture,
        r matches Ok(c) ==> {
            &&& c.fixture_mode == fixture
            &&& c.qualifying <==> (process matches Some(Ok(p)) && at(p@, "qualifying"@)
                == Tree::Bool(true)) && (model matches Some(Ok(m)) && at(m@, "qualifying"@)
                == Tree::Bool(true))
            &&& process is None <==> c.process is Pending
            &&& model is None <==> c.model is Pending
            &&& process matches Some(Ok(p)) ==> (c.process matches Settled::Complete { evidence }
                && evidence@ == p@)
            &&& model matches Some(Ok(m)) ==> (c.model matches Settled::Complete { evidence }
                && evidence@ == m@)
            &&& process matches Some(Err(f)) ==> (c.process matches Settled::Failed { reason }
                && reason@ == f.message@) && (c.failure_reason matches Some(t) && t@ == f.message@)
            &&& model matches Some(Err(f)) ==> (c.model matches Settled::Failed { reason }
                && reason@ == f.message@) && c.failure_reason is Some
            &&& !(process matches Some(Err(_))) ==> (model matches Some(Err(f)) ==> (
            c.failure_reason matches Some(t) && t@ == f.message@))
            &&& !(process matches Some(Err(_))) && !(model matches Some(Err(_))) ==> (ended is None
                <==> c.failure_reason is None)
        },
{
}

/// Three validations are made of a configured session, and none of another.
pub proof fn configured_sessions_are_validated(configured: bool, r: Vec<&'static str>)
    requires
        call_ensures(validation_steps, (configured,), r),
    ensures
        configured ==> r@.len() == 3,
        !configured ==> r@.len() == 0,
{
}

} // verus!
