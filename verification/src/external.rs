//! The rules of external evidence: its sources, its grants, its controlled endpoint, its waits and
//! its redaction.

use vstd::prelude::*;
use vstd::utf8::*;

use crate::application::{document_result, parent, parent_directory, words, Poll};
use crate::endpoint::lowered;
use crate::failure::{ensure, failed, failure, Checked};
use crate::http_fixture::decoded;
use crate::json::{at, items, keys_are_found, with, Json, Tree};
use crate::scenario::{
    build, listed_document, name_list, text_list, text_or_empty, text_or_nothing,
};
use crate::scripts::documents::EXTERNAL_REPORT;
use crate::text::{
    after_prefix, chars_of, contains_bytes, contains_chars, decimal, divided, divided_at, joined, joined3,
    lines, lines_of, number_text, occurs, same_text, split_once, split_once_at, strip_prefix, texts,
};

verus! {

/// Fixture evidence is only made by someone who acknowledged that it never qualifies.
pub fn check_fixture(fixture: bool, allow_fixture: bool) -> (r: Checked<()>)
    ensures
        if fixture && !allow_fixture {
            failed(r, "--fixture requires --allow-fixture and remains non-qualifying"@)
        } else {
            r is Ok
        },
{
    ensure(
        !fixture || allow_fixture,
        "--fixture requires --allow-fixture and remains non-qualifying",
    )
}

/// Real evidence names its source by commit and tree, so the checkout has to be clean.
pub fn check_source(fixture: bool, dirty: bool) -> (r: Checked<()>)
    ensures
        if !fixture && dirty {
            failed(
                r,
                "qualifying real evidence requires a clean Milkdrift checkout so commit/tree identify the tested source"@,
            )
        } else {
            r is Ok
        },
{
    ensure(
        fixture || !dirty,
        "qualifying real evidence requires a clean Milkdrift checkout so commit/tree identify the tested source",
    )
}

/// A fault that a contract test injects.
#[derive(Clone, Copy, PartialEq, Eq, Structural)]
pub enum FixtureFailure {
    Process,
    Model,
}

/// A scenario that a fault is injected into fails before it runs.
pub fn check_injection(injected: Option<FixtureFailure>, scenario: FixtureFailure) -> (r: Checked<
    (),
>)
    ensures
        if injected == Some(scenario) {
            failed(
                r,
                match scenario {
                    FixtureFailure::Process => "fixture-injected process scenario failure"@,
                    FixtureFailure::Model => "fixture-injected model scenario failure"@,
                },
            )
        } else {
            r is Ok
        },
{
    match (injected, scenario) {
        (Some(FixtureFailure::Process), FixtureFailure::Process) => Err(
            failure("fixture-injected process scenario failure"),
        ),
        (Some(FixtureFailure::Model), FixtureFailure::Model) => Err(
            failure("fixture-injected model scenario failure"),
        ),
        _ => Ok(()),
    }
}

/// A report qualifies only where both of its scenarios do.
pub fn qualifies(process: bool, model: bool) -> (r: bool)
    ensures
        r == (process && model),
{
    process && model
}

/// Where a secret comes from.
pub enum Source {
    Environment { variable: String },
    File { path: String },
}

pub enum SourceView {
    Environment { variable: Seq<char> },
    File { path: Seq<char> },
}

impl View for Source {
    type V = SourceView;

    open spec fn view(&self) -> SourceView {
        match *self {
            Source::Environment { variable } => SourceView::Environment { variable: variable@ },
            Source::File { path } => SourceView::File { path: path@ },
        }
    }
}

/// A mapping of a secret reference: `reference=env:VARIABLE` or `reference=file:PATH`.
pub open spec fn mapping_of(mapping: Seq<char>) -> Result<(Seq<char>, SourceView), Seq<char>> {
    match divided(mapping, '=') {
        None => Err("secret source mapping requires reference=source"@),
        Some((reference, source)) => match after_prefix(source, "env:"@) {
            Some(variable) => Ok((reference, SourceView::Environment { variable })),
            None => match after_prefix(source, "file:"@) {
                Some(path) => Ok((reference, SourceView::File { path })),
                None => Err("secret source must use env: or file:"@),
            },
        },
    }
}

pub open spec fn mapping_view(r: Checked<(String, Source)>) -> Result<
    (Seq<char>, SourceView),
    Seq<char>,
> {
    match r {
        Ok((reference, source)) => Ok((reference@, source@)),
        Err(e) => Err(e.message@),
    }
}

pub fn parse_mapping(mapping: &str) -> (r: Checked<(String, Source)>)
    ensures
        mapping_view(r) == mapping_of(mapping@),
{
    match split_once(mapping, '=') {
        None => Err(failure("secret source mapping requires reference=source")),
        Some((reference, source)) => match strip_prefix(source.as_str(), "env:") {
            Some(variable) => Ok((reference, Source::Environment { variable })),
            None => match strip_prefix(source.as_str(), "file:") {
                Some(path) => Ok((reference, Source::File { path })),
                None => Err(failure("secret source must use env: or file:")),
            },
        },
    }
}

/// The sources of the first `n` mappings, the last for each reference; `set` tells which of the
/// named variables are set.
pub open spec fn mapped(mappings: Seq<Seq<char>>, set: Seq<bool>, n: int) -> Result<
    Map<Seq<char>, SourceView>,
    Seq<char>,
>
    decreases n,
{
    if n <= 0 {
        Ok(Map::empty())
    } else {
        match mapped(mappings, set, n - 1) {
            Err(e) => Err(e),
            Ok(before) => match mapping_of(mappings[n - 1]) {
                Err(e) => Err(e),
                Ok((reference, SourceView::Environment { variable })) => if set[n - 1] {
                    Ok(before.insert(reference, SourceView::Environment { variable }))
                } else {
                    Err("required secret environment variable "@ + variable + " is not set"@)
                },
                Ok((reference, source)) => Ok(before.insert(reference, source)),
            },
        }
    }
}

proof fn lemma_mapping_fails(mappings: Seq<Seq<char>>, set: Seq<bool>, m: int, n: int)
    requires
        0 <= m <= n,
        mapped(mappings, set, m) is Err,
    ensures
        mapped(mappings, set, n) == mapped(mappings, set, m),
    decreases n - m,
{
    if m < n {
        lemma_mapping_fails(mappings, set, m, n - 1);
    }
}

/// What a list of references and sources maps, the last for each reference.
pub open spec fn source_map(v: Seq<(String, Source)>) -> Map<Seq<char>, SourceView>
    decreases v.len(),
{
    if v.len() == 0 {
        Map::empty()
    } else {
        source_map(v.drop_last()).insert(v.last().0@, v.last().1@)
    }
}

fn maps(v: &Vec<(String, Source)>, reference: &str) -> (r: bool)
    ensures
        r == source_map(v@).contains_key(reference@),
{
    let mut i: usize = 0;
    proof {
        assert(v@.take(0) =~= seq![]);
    }
    while i < v.len()
        invariant
            i <= v.len(),
            !source_map(v@.take(i as int)).contains_key(reference@),
        decreases v.len() - i,
    {
        proof {
            assert(v@.take(i + 1).drop_last() =~= v@.take(i as int));
            assert(v@.take(i + 1).last() == v@[i as int]);
        }
        if same_text(v[i].0.as_str(), reference) {
            proof {
                lemma_stays_mapped(v@, i + 1, reference@);
            }
            return true;
        }
        i = i + 1;
    }
    proof {
        assert(v@.take(i as int) =~= v@);
    }
    false
}

proof fn lemma_stays_mapped(v: Seq<(String, Source)>, n: int, reference: Seq<char>)
    requires
        0 <= n <= v.len(),
        source_map(v.take(n)).contains_key(reference),
    ensures
        source_map(v).contains_key(reference),
    decreases v.len() - n,
{
    if n < v.len() {
        assert(v.take(n + 1).drop_last() =~= v.take(n));
        lemma_stays_mapped(v, n + 1, reference);
    } else {
        assert(v.take(n) =~= v);
    }
}

/// The first of some references that has no source.
pub open spec fn first_unmapped(
    required: Seq<Seq<char>>,
    sources: Map<Seq<char>, SourceView>,
    from: int,
) -> Option<Seq<char>>
    decreases required.len() - from,
{
    if from < 0 || from >= required.len() {
        None
    } else if sources.contains_key(required[from]) {
        first_unmapped(required, sources, from + 1)
    } else {
        Some(required[from])
    }
}

/// The sources of a run: those that were mapped, where they cover every required reference. With
/// none at all, one unused file stands in.
pub open spec fn sources_of(
    mappings: Seq<Seq<char>>,
    set: Seq<bool>,
    required: Seq<Seq<char>>,
    sentinel: Seq<char>,
) -> Result<Map<Seq<char>, SourceView>, Seq<char>> {
    match mapped(mappings, set, mappings.len() as int) {
        Err(e) => Err(e),
        Ok(m) => match first_unmapped(required, m, 0) {
            Some(reference) => Err(
                "missing --secret-source mapping for required reference "@ + reference,
            ),
            None => if mappings.len() == 0 {
                Ok(
                    Map::<Seq<char>, SourceView>::empty().insert(
                        "secret:unused-evidence-sentinel"@,
                        SourceView::File { path: sentinel },
                    ),
                )
            } else {
                Ok(m)
            },
        },
    }
}

pub open spec fn sources_view(r: Checked<Vec<(String, Source)>>) -> Result<
    Map<Seq<char>, SourceView>,
    Seq<char>,
> {
    match r {
        Ok(v) => Ok(source_map(v@)),
        Err(e) => Err(e.message@),
    }
}

proof fn lemma_source_push(v: Seq<(String, Source)>, next: (String, Source))
    ensures
        source_map(v.push(next)) == source_map(v).insert(next.0@, next.1@),
{
    assert(v.push(next).drop_last() =~= v);
}

pub fn secret_sources(
    mappings: &Vec<String>,
    set: &Vec<bool>,
    required: &Vec<String>,
    sentinel: &str,
) -> (r: Checked<Vec<(String, Source)>>)
    requires
        set.len() == mappings.len(),
    ensures
        sources_view(r) == sources_of(texts(mappings@), set@, texts(required@), sentinel@),
{
    let ghost all = texts(mappings@);
    let ghost wanted = texts(required@);
    let mut v: Vec<(String, Source)> = Vec::new();
    let mut i: usize = 0;
    while i < mappings.len()
        invariant
            i <= mappings.len(),
            set.len() == mappings.len(),
            all == texts(mappings@),
            wanted == texts(required@),
            mapped(all, set@, i as int) == Ok::<Map<Seq<char>, SourceView>, Seq<char>>(
                source_map(v@),
            ),
        decreases mappings.len() - i,
    {
        proof {
            assert(all[i as int] == mappings@[i as int]@);
            if mapped(all, set@, i + 1) is Err {
                lemma_mapping_fails(all, set@, i + 1, all.len() as int);
            }
        }
        let (reference, source): (String, Source) = parse_mapping(mappings[i].as_str())?;
        if let Source::Environment { variable } = &source {
            if !set[i] {
                return Err(
                    failure(
                        joined3(
                            "required secret environment variable ",
                            variable.as_str(),
                            " is not set",
                        ).as_str(),
                    ),
                );
            }
        }
        proof {
            lemma_source_push(v@, (reference, source));
        }
        v.push((reference, source));
        i = i + 1;
    }
    let mut k: usize = 0;
    while k < required.len()
        invariant
            k <= required.len(),
            wanted == texts(required@),
            all == texts(mappings@),
            mapped(all, set@, all.len() as int) == Ok::<Map<Seq<char>, SourceView>, Seq<char>>(
                source_map(v@),
            ),
            first_unmapped(wanted, source_map(v@), 0) == first_unmapped(
                wanted,
                source_map(v@),
                k as int,
            ),
        decreases required.len() - k,
    {
        proof {
            assert(wanted[k as int] == required@[k as int]@);
        }
        if !maps(&v, required[k].as_str()) {
            return Err(
                failure(
                    joined(
                        "missing --secret-source mapping for required reference ",
                        required[k].as_str(),
                    ).as_str(),
                ),
            );
        }
        k = k + 1;
    }
    if mappings.len() == 0 {
        let mut only: Vec<(String, Source)> = Vec::new();
        let unused: (String, Source) = (
            "secret:unused-evidence-sentinel".to_owned(),
            Source::File { path: sentinel.to_owned() },
        );
        proof {
            lemma_source_push(only@, unused);
        }
        only.push(unused);
        return Ok(only);
    }
    Ok(v)
}

/// A secret value takes part in redaction unless it is empty.
pub fn forbidden_values(values: Vec<Vec<u8>>) -> (r: Vec<Vec<u8>>)
    ensures
        r@ == values@.filter(|v: Vec<u8>| v@.len() > 0),
{
    let ghost all = values@;
    let ghost keep = |v: Vec<u8>| v@.len() > 0;
    let mut rest: Vec<Vec<u8>> = values;
    let mut out: Vec<Vec<u8>> = Vec::new();
    proof {
        reveal(Seq::filter);
        assert(all.skip(0) =~= all);
    }
    while rest.len() > 0
        invariant
            keep == (|v: Vec<u8>| v@.len() > 0),
            rest@.len() <= all.len(),
            rest@ == all.skip(all.len() - rest@.len()),
            out@ == all.take(all.len() - rest@.len()).filter(keep),
        decreases rest.len(),
    {
        let ghost n = all.len() - rest@.len();
        let value: Vec<u8> = rest.remove(0);
        proof {
            reveal(Seq::filter);
            assert(value == all[n]);
            assert(all.take(n + 1).drop_last() =~= all.take(n));
            assert(all.take(n + 1).last() == all[n]);
            assert(rest@ =~= all.skip(n + 1));
        }
        if value.len() > 0 {
            out.push(value);
        }
    }
    proof {
        assert(all.take(all.len() as int) =~= all);
    }
    out
}

/// A text with its ASCII uppercase letters made lowercase.
pub open spec fn in_lowercase(s: Seq<char>) -> Seq<char> {
    s.map_values(|c: char| lowered(c))
}

fn lowercase(s: &str) -> (r: Vec<char>)
    ensures
        r@ == in_lowercase(s@),
{
    let chars: Vec<char> = chars_of(s);
    let mut out: Vec<char> = Vec::new();
    let mut i: usize = 0;
    while i < chars.len()
        invariant
            i <= chars.len(),
            chars@ == s@,
            out@ == in_lowercase(s@).take(i as int),
        decreases chars.len() - i,
    {
        let next: char = crate::endpoint::lower(chars[i]);
        proof {
            assert(in_lowercase(s@).take(i + 1) =~= in_lowercase(s@).take(i as int).push(next));
        }
        out.push(next);
        i = i + 1;
    }
    proof {
        assert(in_lowercase(s@).take(i as int) =~= in_lowercase(s@));
    }
    out
}

/// Whether a report holds one of some secret values.
pub open spec fn discloses(bytes: Seq<u8>, forbidden: Seq<Vec<u8>>) -> bool {
    exists|i: int|
        #![trigger forbidden[i]]
        0 <= i < forbidden.len() && forbidden[i]@.len() > 0 && occurs(bytes, forbidden[i]@)
}

fn holds_secret(bytes: &Vec<u8>, forbidden: &Vec<Vec<u8>>) -> (r: bool)
    ensures
        r == discloses(bytes@, forbidden@),
{
    let mut i: usize = 0;
    while i < forbidden.len()
        invariant
            i <= forbidden.len(),
            forall|j: int|
                #![trigger forbidden@[j]]
                0 <= j < i ==> !(forbidden@[j]@.len() > 0 && occurs(bytes@, forbidden@[j]@)),
        decreases forbidden.len() - i,
    {
        if forbidden[i].len() > 0 && contains_bytes(bytes.as_slice(), forbidden[i].as_slice()) {
            return true;
        }
        i = i + 1;
    }
    false
}

/// The keys that no report has.
pub open spec fn forbidden_keys() -> Seq<Seq<char>> {
    seq!["authorization"@, "full_prompt"@, "full_output"@, "environment"@]
}

pub open spec fn names_key(text: Seq<char>, key: Seq<char>) -> bool {
    occurs(in_lowercase(text), "\""@ + key + "\""@)
}

pub open spec fn first_named_key(text: Seq<char>, from: int) -> Option<Seq<char>>
    decreases 4 - from,
{
    if from < 0 || from >= 4 {
        None
    } else if names_key(text, forbidden_keys()[from]) {
        Some(forbidden_keys()[from])
    } else {
        first_named_key(text, from + 1)
    }
}

/// What redaction makes of a report's bytes: refused where they hold a secret value or a forbidden
/// key, none where they are no text, and otherwise the text.
pub open spec fn redaction_of(bytes: Seq<u8>, forbidden: Seq<Vec<u8>>) -> Result<
    Option<Seq<char>>,
    Seq<char>,
> {
    if discloses(bytes, forbidden) {
        Err("redaction validation found a secret value in the report"@)
    } else if !valid_utf8(bytes) {
        Ok(None)
    } else {
        match first_named_key(decode_utf8(bytes), 0) {
            Some(key) => Err("redaction validation found forbidden key "@ + key),
            None => Ok(Some(decode_utf8(bytes))),
        }
    }
}

pub open spec fn redaction_view(r: Checked<Option<String>>) -> Result<Option<Seq<char>>, Seq<char>> {
    match r {
        Ok(Some(t)) => Ok(Some(t@)),
        Ok(None) => Ok(None),
        Err(e) => Err(e.message@),
    }
}

fn named_key(text: &str) -> (r: Option<&'static str>)
    ensures
        match r {
            Some(key) => first_named_key(text@, 0) == Some(key@),
            None => first_named_key(text@, 0) is None,
        },
{
    let lower: Vec<char> = lowercase(text);
    let keys: Vec<&'static str> = vec!["authorization", "full_prompt", "full_output", "environment"];
    proof {
        assert(keys@[0]@ == forbidden_keys()[0]);
        assert(keys@[1]@ == forbidden_keys()[1]);
        assert(keys@[2]@ == forbidden_keys()[2]);
        assert(keys@[3]@ == forbidden_keys()[3]);
    }
    let mut i: usize = 0;
    while i < keys.len()
        invariant
            i <= keys.len(),
            keys@.len() == 4,
            lower@ == in_lowercase(text@),
            forall|j: int| 0 <= j < 4 ==> (#[trigger] keys@[j])@ == forbidden_keys()[j],
            first_named_key(text@, 0) == first_named_key(text@, i as int),
        decreases keys.len() - i,
    {
        let quoted: String = joined3("\"", keys[i], "\"");
        if contains_chars(&lower, &chars_of(quoted.as_str())) {
            return Some(keys[i]);
        }
        i = i + 1;
    }
    None
}

pub fn redaction_check(bytes: Vec<u8>, forbidden: &Vec<Vec<u8>>) -> (r: Checked<Option<String>>)
    ensures
        redaction_view(r) == redaction_of(bytes@, forbidden@),
{
    ensure(
        !holds_secret(&bytes, forbidden),
        "redaction validation found a secret value in the report",
    )?;
    match decoded(bytes) {
        None => Ok(None),
        Some(text) => match named_key(text.as_str()) {
            Some(key) => Err(
                failure(joined("redaction validation found forbidden key ", key).as_str()),
            ),
            None => Ok(Some(text)),
        },
    }
}

/// A report that passes redaction holds none of the forbidden values and none of the forbidden
/// keys, in any letter case.
pub proof fn passed_reports_disclose_nothing(bytes: Seq<u8>, forbidden: Seq<Vec<u8>>, i: int, k: int)
    requires
        redaction_of(bytes, forbidden) matches Ok(Some(_)),
        0 <= i < forbidden.len(),
        forbidden[i]@.len() > 0,
        0 <= k < 4,
    ensures
        !occurs(bytes, forbidden[i]@),
        !names_key(decode_utf8(bytes), forbidden_keys()[k]),
{
    let text = decode_utf8(bytes);
    reveal_with_fuel(first_named_key, 5);
}

/// The host triple that the compiler states: the rest of the first line that starts with `host: `.
pub open spec fn host_line(lines: Seq<Seq<char>>, from: int) -> Option<Seq<char>>
    decreases lines.len() - from,
{
    if from < 0 || from >= lines.len() {
        None
    } else {
        match after_prefix(lines[from], "host: "@) {
            Some(t) => Some(t),
            None => host_line(lines, from + 1),
        }
    }
}

pub fn rust_build_target(succeeded: bool, stdout: &str) -> (r: Checked<String>)
    ensures
        if !succeeded {
            failed(r, "rustc build-target query failed"@)
        } else {
            match host_line(lines_of(stdout@), 0) {
                Some(t) => if t.len() > 0 {
                    r matches Ok(target) && target@ == t
                } else {
                    failed(r, "rustc build-target query omitted the host triple"@)
                },
                None => failed(r, "rustc build-target query omitted the host triple"@),
            }
        },
{
    ensure(succeeded, "rustc build-target query failed")?;
    let all: Vec<String> = lines(stdout);
    let ghost views = texts(all@);
    let mut i: usize = 0;
    while i < all.len()
        invariant
            i <= all.len(),
            succeeded,
            views == texts(all@),
            views == lines_of(stdout@),
            host_line(views, 0) == host_line(views, i as int),
        decreases all.len() - i,
    {
        proof {
            assert(views[i as int] == all@[i as int]@);
        }
        if let Some(target) = strip_prefix(all[i].as_str(), "host: ") {
            ensure(
                !target.as_str().is_empty(),
                "rustc build-target query omitted the host triple",
            )?;
            return Ok(target);
        }
        i = i + 1;
    }
    Err(failure("rustc build-target query omitted the host triple"))
}

/// A directory and what a grant allows there.
pub struct Scope {
    pub path: String,
    pub read: bool,
    pub write: bool,
    pub execute: bool,
}

pub struct ScopeView {
    pub path: Seq<char>,
    pub read: bool,
    pub write: bool,
    pub execute: bool,
}

impl View for Scope {
    type V = ScopeView;

    open spec fn view(&self) -> ScopeView {
        ScopeView {
            path: self.path@,
            read: self.read,
            write: self.write,
            execute: self.execute,
        }
    }
}

pub open spec fn scope_views(v: Seq<Scope>) -> Seq<ScopeView> {
    v.map_values(|s: Scope| s@)
}

pub open spec fn whole_scope(path: Seq<char>) -> ScopeView {
    ScopeView { path, read: true, write: true, execute: true }
}

pub open spec fn execute_scope(path: Seq<char>) -> ScopeView {
    ScopeView { path, read: false, write: false, execute: true }
}

pub open spec fn with_scope(scopes: Seq<ScopeView>, scope: ScopeView) -> Seq<ScopeView> {
    if scopes.contains(scope) {
        scopes
    } else {
        scopes.push(scope)
    }
}

/// The directories of a grant: the session and the repository whole, and the execution of the
/// agent's and the helpers' own programs.
pub open spec fn filesystem_of(
    session: Seq<char>,
    repository: Seq<char>,
    agent: Seq<char>,
    helper: Seq<char>,
) -> Result<Seq<ScopeView>, Seq<char>> {
    match (parent(agent), parent(helper)) {
        (Some(a), Some(h)) => Ok(
            with_scope(
                with_scope(
                    seq![whole_scope(session), whole_scope(repository)],
                    execute_scope(a),
                ),
                execute_scope(h),
            ),
        ),
        _ => Err("process executable has no parent"@),
    }
}

fn add_scope(v: &mut Vec<Scope>, path: &str)
    ensures
        scope_views(final(v)@) == with_scope(scope_views(old(v)@), execute_scope(path@)),
{
    let ghost all = scope_views(v@);
    let mut i: usize = 0;
    while i < v.len()
        invariant
            i <= v.len(),
            all == scope_views(v@),
            all == scope_views(old(v)@),
            forall|j: int| 0 <= j < i ==> all[j] != execute_scope(path@),
        decreases v.len() - i,
    {
        proof {
            assert(all[i as int] == v@[i as int]@);
        }
        if same_text(v[i].path.as_str(), path) && !v[i].read && !v[i].write && v[i].execute {
            proof {
                assert(all.contains(execute_scope(path@)));
            }
            return ;
        }
        i = i + 1;
    }
    let next: Scope = Scope { path: path.to_owned(), read: false, write: false, execute: true };
    proof {
        assert(scope_views(v@.push(next)) =~= all.push(next@));
    }
    v.push(next);
}

pub open spec fn scopes_view(r: Checked<Vec<Scope>>) -> Result<Seq<ScopeView>, Seq<char>> {
    match r {
        Ok(v) => Ok(scope_views(v@)),
        Err(e) => Err(e.message@),
    }
}

pub fn grant_filesystem(session: &str, repository: &str, agent: &str, helper: &str) -> (r: Checked<
    Vec<Scope>,
>)
    ensures
        scopes_view(r) == filesystem_of(session@, repository@, agent@, helper@),
{
    let mut v: Vec<Scope> = vec![
        Scope { path: session.to_owned(), read: true, write: true, execute: true },
        Scope { path: repository.to_owned(), read: true, write: true, execute: true },
    ];
    proof {
        assert(scope_views(v@) =~= seq![whole_scope(session@), whole_scope(repository@)]);
    }
    match (parent_directory(agent), parent_directory(helper)) {
        (Some(a), Some(h)) => {
            add_scope(&mut v, a.as_str());
            add_scope(&mut v, h.as_str());
            Ok(v)
        },
        _ => Err(failure("process executable has no parent")),
    }
}

/// A grant never gives more than execution outside the session and the repository.
pub proof fn grants_only_execute_programs(
    session: Seq<char>,
    repository: Seq<char>,
    agent: Seq<char>,
    helper: Seq<char>,
    i: int,
)
    requires
        filesystem_of(session, repository, agent, helper) is Ok,
        0 <= i < filesystem_of(session, repository, agent, helper)->Ok_0.len(),
    ensures
        ({
            let scope = filesystem_of(session, repository, agent, helper)->Ok_0[i];
            scope.read || scope.write ==> scope.path == session || scope.path == repository
        }),
{
}

/// What a granted actor may ask for, in order.
pub fn grant_operations(model: bool) -> (r: Vec<&'static str>)
    ensures
        r@ == (if model {
            seq!["model.generate", "process.execute", "workflow.inspect"]
        } else {
            seq!["process.execute", "workflow.inspect"]
        }),
{
    let r: Vec<&'static str> = if model {
        vec!["model.generate", "process.execute", "workflow.inspect"]
    } else {
        vec!["process.execute", "workflow.inspect"]
    };
    proof {
        assert(r@ =~= (if model {
            seq!["model.generate", "process.execute", "workflow.inspect"]
        } else {
            seq!["process.execute", "workflow.inspect"]
        }));
    }
    r
}

/// The destination of a granted endpoint: what follows the scheme of its origin.
pub fn grant_destination(origin: &str) -> (r: Checked<String>)
    ensures
        match divided_at(origin@, "://"@) {
            Some((_, destination)) => r matches Ok(t) && t@ == destination,
            None => failed(r, "model endpoint origin is invalid"@),
        },
{
    match split_once_at(origin, "://") {
        Some((_, destination)) => Ok(destination),
        None => Err(failure("model endpoint origin is invalid")),
    }
}

/// The required secrets that have a source, in order.
pub open spec fn granted_secrets(
    required: Seq<Seq<char>>,
    sources: Map<Seq<char>, SourceView>,
    n: int,
) -> Seq<Seq<char>>
    decreases n,
{
    if n <= 0 {
        seq![]
    } else if sources.contains_key(required[n - 1]) {
        granted_secrets(required, sources, n - 1).push(required[n - 1])
    } else {
        granted_secrets(required, sources, n - 1)
    }
}

pub fn grant_secrets(required: &Vec<String>, sources: &Vec<(String, Source)>) -> (r: Vec<String>)
    ensures
        texts(r@) == granted_secrets(
            texts(required@),
            source_map(sources@),
            required@.len() as int,
        ),
{
    let ghost all = texts(required@);
    let mut out: Vec<String> = Vec::new();
    let mut i: usize = 0;
    proof {
        assert(texts(out@) =~= seq![]);
    }
    while i < required.len()
        invariant
            i <= required.len(),
            all == texts(required@),
            texts(out@) == granted_secrets(all, source_map(sources@), i as int),
        decreases required.len() - i,
    {
        proof {
            assert(all[i as int] == required@[i as int]@);
        }
        if maps(sources, required[i].as_str()) {
            let next: String = required[i].as_str().to_owned();
            proof {
                crate::text::lemma_texts_push(out@, next);
            }
            out.push(next);
        }
        i = i + 1;
    }
    out
}

/// When a grant made at a moment holds: from a minute before it to a day after it, as far as the
/// clock reaches.
pub open spec fn validity_of(now: u64) -> (int, int) {
    (
        if now >= 60000 {
            now - 60000
        } else {
            0
        },
        if now <= u64::MAX - 86400000 {
            now + 86400000
        } else {
            u64::MAX as int
        },
    )
}

pub fn grant_validity(now: u64) -> (r: (u64, u64))
    ensures
        (r.0 as int, r.1 as int) == validity_of(now),
{
    (now.saturating_sub(60000), now.saturating_add(86400000))
}

/// The most requests that the controlled endpoint logs.
pub const MAX_LOGGED_REQUESTS: usize = 64;

/// The one request that the controlled endpoint serves.
pub const SERVED_REQUEST: &'static str = "POST /v1/chat/completions HTTP/1.1";

/// The stream that the controlled endpoint answers with.
pub const SERVED_BODY: &'static str = "data: {\"id\":\"fixture-response\",\"model\":\"fixture-model\",\"choices\":[{\"delta\":{\"content\":\"{\\\"ok\\\":\"},\"finish_reason\":null}]}\n\ndata: {\"id\":\"fixture-response\",\"model\":\"fixture-model\",\"choices\":[{\"delta\":{\"content\":\"true}\"},\"finish_reason\":\"stop\"}],\"usage\":{\"prompt_tokens\":19,\"completion_tokens\":4}}\n\ndata: [DONE]\n\n";

/// What the controlled endpoint does with a request: the line it logs, whether the request counts
/// as served, and the response.
pub struct Served {
    pub line: String,
    pub counted: bool,
    pub response: String,
}

/// The first line of a request, empty where it has none.
pub open spec fn request_line_of(request: Seq<char>) -> Seq<char> {
    if lines_of(request).len() > 0 {
        lines_of(request)[0]
    } else {
        ""@
    }
}

pub fn serve_mock_connection(request: &str, logged: usize) -> (r: Checked<Served>)
    ensures
        if logged == MAX_LOGGED_REQUESTS {
            failed(r, "fixture request log exceeds bound"@)
        } else {
            r matches Ok(served) && served.line@ == request_line_of(request@) && served.counted == (
            request_line_of(request@) == SERVED_REQUEST@) && served.response@ == (
            if request_line_of(request@) == SERVED_REQUEST@ {
                crate::http_fixture::response_of("text/event-stream"@, SERVED_BODY@)
            } else {
                "HTTP/1.1 404 Not Found\r\nContent-Length: 0\r\nConnection: close\r\n\r\n"@
            })
        },
{
    let all: Vec<String> = lines(request);
    let line: String = if all.len() > 0 {
        proof {
            assert(texts(all@)[0] == all@[0]@);
        }
        all[0].as_str().to_owned()
    } else {
        "".to_owned()
    };
    ensure(logged != MAX_LOGGED_REQUESTS, "fixture request log exceeds bound")?;
    let counted: bool = same_text(line.as_str(), SERVED_REQUEST);
    let response: String = if counted {
        crate::http_fixture::response("text/event-stream", SERVED_BODY)
    } else {
        "HTTP/1.1 404 Not Found\r\nContent-Length: 0\r\nConnection: close\r\n\r\n".to_owned()
    };
    Ok(Served { line, counted, response })
}

/// What one look at a run found: whether it is the expected state, whether it is terminal, and the
/// rendered state.
pub struct Look {
    pub expected: bool,
    pub terminal: bool,
    pub rendered: String,
}

/// A wait for a run's state. A look that did not come back before the deadline is none; `last` is
/// the rendered state of the look before.
pub fn wait_for_run(
    run: &str,
    look: Option<&Look>,
    last: &str,
    expired: bool,
    timeout_secs: u64,
) -> (r: Poll<()>)
    ensures
        ({
            let overdue = |seen: Seq<char>|
                "run "@ + run@ + " did not reach the expected state within "@ + decimal(
                    timeout_secs as nat,
                ) + " seconds; last="@ + seen;
            match look {
                None => crate::application::poll_fails(r, overdue(last@)),
                Some(l) => if l.expected {
                    r is Ready
                } else if l.terminal {
                    crate::application::poll_fails(
                        r,
                        "run "@ + run@ + " reached unexpected terminal state: "@ + l.rendered@,
                    )
                } else if expired {
                    crate::application::poll_fails(r, overdue(l.rendered@))
                } else {
                    r is Again
                },
            }
        }),
{
    match look {
        None => Poll::Failed { message: overdue_text(run, timeout_secs, last) },
        Some(l) => if l.expected {
            Poll::Ready { value: () }
        } else if l.terminal {
            Poll::Failed {
                message: joined(
                    joined3("run ", run, " reached unexpected terminal state: ").as_str(),
                    l.rendered.as_str(),
                ),
            }
        } else if expired {
            Poll::Failed { message: overdue_text(run, timeout_secs, l.rendered.as_str()) }
        } else {
            Poll::Again
        },
    }
}

fn overdue_text(run: &str, timeout_secs: u64, seen: &str) -> (r: String)
    ensures
        r@ == "run "@ + run@ + " did not reach the expected state within "@ + decimal(
            timeout_secs as nat,
        ) + " seconds; last="@ + seen@,
{
    let head: String = joined3("run ", run, " did not reach the expected state within ");
    let bound: String = joined3(
        head.as_str(),
        number_text(timeout_secs).as_str(),
        " seconds; last=",
    );
    joined(bound.as_str(), seen)
}

/// The attempt of a run's node.
pub fn attempt_for_node(run: &Json, node: &str) -> (r: Checked<String>)
    ensures
        match crate::json::element_with(
            crate::json::items(run@, "nodes"@),
            "node_id"@,
            Tree::Text(node@),
        ) {
            Some(found) => match at(found, "latest_attempt_id"@) {
                Tree::Text(t) => r matches Ok(s) && s@ == t,
                _ => failed(r, "node "@ + node@ + " has no attempt"@),
            },
            None => failed(r, "node "@ + node@ + " has no attempt"@),
        },
{
    match run.item_with("nodes", "node_id", node) {
        Some(found) => match found.text_at("latest_attempt_id") {
            Some(t) => Ok(t),
            None => Err(failure(joined3("node ", node, " has no attempt").as_str())),
        },
        None => Err(failure(joined3("node ", node, " has no attempt").as_str())),
    }
}

/// A text of a command's response.
pub fn json_string(value: &Json, name: &str) -> (r: Checked<String>)
    ensures
        match value@ {
            Tree::Object(m) => if m.contains_key(name@) && m[name@] is Text {
                r matches Ok(s) && s@ == m[name@]->Text_0
            } else {
                failed(r, "command response omitted "@ + name@)
            },
            _ => failed(r, "command response omitted "@ + name@),
        },
{
    match value.entry(name) {
        Some(Json::Text(t)) => Ok(t.as_str().to_owned()),
        _ => Err(failure(joined("command response omitted ", name).as_str())),
    }
}

/// What is known, as rendered text, of a model run that did not complete.
pub struct Unfinished {
    pub fixture_requests: u64,
    pub request_lines: String,
    pub worker_failure: String,
    pub terminal: String,
    pub outputs: String,
}

/// Why a model run did not succeed: its result was not accepted, or its attempt did not complete.
pub open spec fn model_failure_of(
    acceptance: Option<Tree>,
    attempt: Tree,
    requests: nat,
    request_lines: Seq<char>,
    worker_failure: Seq<char>,
    terminal: Seq<char>,
    outputs: Seq<char>,
) -> Seq<char> {
    if acceptance matches Some(a) && at(a, "result_acceptance,accepted"@) == Tree::Bool(false) {
        "model result not accepted: "@ + text_or_empty(
            acceptance->Some_0,
            "result_acceptance,reason"@,
        ) + "; invocation terminal="@ + (match at(attempt, "terminal"@) {
            Tree::Text(t) => t,
            _ => "unobserved"@,
        })
    } else {
        "model attempt did not complete; fixture_requests="@ + decimal(requests)
            + "; fixture_request_lines="@ + request_lines + "; worker_failure="@ + worker_failure
            + "; attempt_state="@ + text_or_empty(attempt, "state"@) + "; progress="@ + decimal(
            progress_of(attempt) as nat,
        ) + "; terminal="@ + terminal + "; outputs="@ + outputs
    }
}

pub open spec fn progress_of(attempt: Tree) -> u64 {
    match crate::json::unsigned_at(attempt, "progress_observations"@) {
        Some(n) => n,
        None => 0,
    }
}

pub fn model_failure(acceptance: Option<&Json>, attempt: &Json, known: &Unfinished) -> (r: String)
    ensures
        r@ == model_failure_of(
            crate::json::tree_option(acceptance),
            attempt@,
            known.fixture_requests as nat,
            known.request_lines@,
            known.worker_failure@,
            known.terminal@,
            known.outputs@,
        ),
{
    if let Some(a) = acceptance {
        if a.is_flag("result_acceptance,accepted", false) {
            let reason: String = crate::scenario::text_or_nothing(a, "result_acceptance,reason");
            let terminal: String = match attempt.text_at("terminal") {
                Some(t) => t,
                None => "unobserved".to_owned(),
            };
            return joined(
                joined3(
                    "model result not accepted: ",
                    reason.as_str(),
                    "; invocation terminal=",
                ).as_str(),
                terminal.as_str(),
            );
        }
    }
    let progress: u64 = match attempt.number_at("progress_observations") {
        Some(n) => n,
        None => 0,
    };
    let a: String = joined3(
        "model attempt did not complete; fixture_requests=",
        number_text(known.fixture_requests).as_str(),
        "; fixture_request_lines=",
    );
    let b: String = joined3(a.as_str(), known.request_lines.as_str(), "; worker_failure=");
    let c: String = joined3(b.as_str(), known.worker_failure.as_str(), "; attempt_state=");
    let d: String = joined3(
        c.as_str(),
        crate::scenario::text_or_nothing(attempt, "state").as_str(),
        "; progress=",
    );
    let e: String = joined3(d.as_str(), number_text(progress).as_str(), "; terminal=");
    let f: String = joined3(e.as_str(), known.terminal.as_str(), "; outputs=");
    joined(f.as_str(), known.outputs.as_str())
}

/// Why the controlled endpoint cannot serve the model scenario.
pub fn endpoint_stopped(task_finished: bool, error: &str) -> (r: String)
    ensures
        r@ == "fixture model endpoint stopped before model scenario (task_finished="@ + (
        if task_finished {
            "true"@
        } else {
            "false"@
        }) + "): "@ + error@,
{
    let finished: &str = if task_finished {
        "true"
    } else {
        "false"
    };
    let head: String = joined3(
        "fixture model endpoint stopped before model scenario (task_finished=",
        finished,
        "): ",
    );
    joined(head.as_str(), error)
}

/// What a model asks of a grant.
pub struct ModelNeeds {
    pub profile_id: String,
    pub endpoint_origin: String,
    pub secret_refs: Vec<String>,
}

/// What a grant gives beside its directories.
pub struct GrantChoice {
    pub operations: Vec<&'static str>,
    pub profiles: Vec<String>,
    pub destinations: Vec<String>,
    pub secrets: Vec<String>,
}

pub struct GrantChoiceView {
    pub operations: Seq<Seq<char>>,
    pub profiles: Seq<Seq<char>>,
    pub destinations: Seq<Seq<char>>,
    pub secrets: Seq<Seq<char>>,
}

impl View for GrantChoice {
    type V = GrantChoiceView;

    open spec fn view(&self) -> GrantChoiceView {
        GrantChoiceView {
            operations: words(self.operations@),
            profiles: texts(self.profiles@),
            destinations: texts(self.destinations@),
            secrets: texts(self.secrets@),
        }
    }
}

/// What a grant gives beside its directories: with a model, generation, the model's one network
/// profile and destination, and the model's secrets that have a source; without one, no network,
/// and the agent's secrets that have a source.
pub open spec fn choice_of(
    model: Option<ModelNeeds>,
    agent_secrets: Seq<Seq<char>>,
    sources: Map<Seq<char>, SourceView>,
) -> Result<GrantChoiceView, Seq<char>> {
    match model {
        None => Ok(
            GrantChoiceView {
                operations: seq!["process.execute"@, "workflow.inspect"@],
                profiles: seq![],
                destinations: seq![],
                secrets: granted_secrets(agent_secrets, sources, agent_secrets.len() as int),
            },
        ),
        Some(m) => match divided_at(m.endpoint_origin@, "://"@) {
            None => Err("model endpoint origin is invalid"@),
            Some((_, destination)) => Ok(
                GrantChoiceView {
                    operations: seq!["model.generate"@, "process.execute"@, "workflow.inspect"@],
                    profiles: seq![m.profile_id@],
                    destinations: seq![destination],
                    secrets: granted_secrets(
                        texts(m.secret_refs@),
                        sources,
                        m.secret_refs@.len() as int,
                    ),
                },
            ),
        },
    }
}

pub open spec fn needs_of(model: Option<&ModelNeeds>) -> Option<ModelNeeds> {
    match model {
        Some(m) => Some(*m),
        None => None,
    }
}

pub fn grant_choice(
    model: Option<&ModelNeeds>,
    agent_secrets: &Vec<String>,
    sources: &Vec<(String, Source)>,
) -> (r: Checked<GrantChoice>)
    ensures
        match choice_of(needs_of(model), texts(agent_secrets@), source_map(sources@)) {
            Ok(choice) => r matches Ok(g) && g@ == choice,
            Err(message) => failed(r, message),
        },
{
    let mut profiles: Vec<String> = Vec::new();
    let mut destinations: Vec<String> = Vec::new();
    let operations: Vec<&'static str> = grant_operations(model.is_some());
    proof {
        assert(texts(profiles@) =~= seq![]);
        assert(texts(destinations@) =~= seq![]);
        assert(words(operations@) =~= (if model is Some {
            seq!["model.generate"@, "process.execute"@, "workflow.inspect"@]
        } else {
            seq!["process.execute"@, "workflow.inspect"@]
        }));
    }
    match model {
        None => {
            let secrets: Vec<String> = grant_secrets(agent_secrets, sources);
            Ok(GrantChoice { operations, profiles, destinations, secrets })
        },
        Some(m) => {
            let destination: String = grant_destination(m.endpoint_origin.as_str())?;
            profiles.push(m.profile_id.as_str().to_owned());
            destinations.push(destination);
            proof {
                assert(texts(profiles@) =~= seq![m.profile_id@]);
                assert(texts(destinations@) =~= seq![destination@]);
            }
            let secrets: Vec<String> = grant_secrets(&m.secret_refs, sources);
            Ok(GrantChoice { operations, profiles, destinations, secrets })
        },
    }
}

/// What a grant is made for, and when: one workflow and its capabilities, the session's and the
/// repository's directories, and the agent's and the helpers' programs.
pub struct GrantRequest {
    pub workflow: String,
    pub capabilities: Vec<String>,
    pub session: String,
    pub repository: String,
    pub agent: String,
    pub helper: String,
    pub now: u64,
}

/// A granted directory.
pub open spec fn scope_tree(scope: ScopeView) -> Tree {
    Tree::Object(
        map![
            "path"@ => Tree::Text(scope.path),
            "read"@ => Tree::Bool(scope.read),
            "write"@ => Tree::Bool(scope.write),
            "execute"@ => Tree::Bool(scope.execute),
        ],
    )
}

pub open spec fn scope_trees(scopes: Seq<ScopeView>) -> Seq<Tree> {
    scopes.map_values(|scope: ScopeView| scope_tree(scope))
}

fn scope_list(v: &Vec<Scope>) -> (r: Json)
    ensures
        r@ == Tree::List(scope_trees(scope_views(v@))),
{
    let ghost wanted = scope_trees(scope_views(v@));
    let mut out: Json = Json::list();
    let mut i: usize = 0;
    proof {
        assert(out@->List_0 =~= wanted.take(0));
    }
    while i < v.len()
        invariant
            i <= v.len(),
            wanted == scope_trees(scope_views(v@)),
            out@ == Tree::List(wanted.take(i as int)),
        decreases v.len() - i,
    {
        let scope: Json = Json::object().with("path", Json::text(v[i].path.as_str())).with(
            "read",
            Json::flag(v[i].read),
        ).with("write", Json::flag(v[i].write)).with("execute", Json::flag(v[i].execute));
        proof {
            assert(scope_views(v@)[i as int] == v@[i as int]@);
            assert(wanted.take(i + 1) =~= wanted.take(i as int).push(scope@));
        }
        out = out.and(scope);
        i = i + 1;
    }
    proof {
        assert(wanted.take(i as int) =~= wanted);
    }
    out
}

/// A scope that is only its kind.
pub open spec fn kind_tree(kind: Seq<char>) -> Tree {
    Tree::Object(map!["type"@ => Tree::Text(kind)])
}

/// A choice of exactly some values.
pub open spec fn only_tree(values: Seq<Seq<char>>) -> Tree {
    Tree::Object(map!["type"@ => Tree::Text("only"@), "values"@ => text_list(values)])
}

/// The capabilities and operations of a grant.
pub open spec fn capability_tree(
    capabilities: Seq<Seq<char>>,
    operations: Seq<Seq<char>>,
) -> Tree {
    Tree::Object(
        map![
            "type"@ => Tree::Text("allow"@),
            "maximum_side_effect"@ => Tree::Text("unknown"@),
            "identities"@ => only_tree(capabilities),
            "operations"@ => only_tree(operations),
        ],
    )
}

/// The artifacts of a grant: any, up to restricted ones.
pub open spec fn artifact_scope_tree() -> Tree {
    Tree::Object(
        map![
            "type"@ => Tree::Text("allow"@),
            "identities"@ => kind_tree("any"@),
            "sensitivities"@ => text_list(seq!["public"@, "internal"@, "restricted"@]),
        ],
    )
}

/// What a grant gives of the daemon: its readiness, its health and the actor's own authority, and
/// neither its configuration nor its audit.
pub open spec fn daemon_tree() -> Tree {
    Tree::Object(
        map![
            "readiness"@ => Tree::Bool(true),
            "detailed_health"@ => Tree::Bool(true),
            "own_authority"@ => Tree::Bool(true),
            "configuration"@ => Tree::Bool(false),
            "audit"@ => Tree::Bool(false),
        ],
    )
}

/// The budget of a grant.
pub open spec fn grant_budget_tree() -> Tree {
    Tree::Object(
        map![
            "cost_minor"@ => Tree::Integer(1000000000),
            "duration_ms"@ => Tree::Integer(604800000),
            "invocations"@ => Tree::Integer(10000),
            "artifact_bytes"@ => Tree::Integer(17179869184),
            "units"@ => Tree::Integer(1000000000),
            "concurrency"@ => Tree::Integer(32),
        ],
    )
}

/// What a grant reaches.
pub open spec fn resources_tree(
    workflow: Seq<char>,
    capabilities: Seq<Seq<char>>,
    scopes: Seq<ScopeView>,
    choice: GrantChoiceView,
) -> Tree {
    Tree::Object(
        map![
            "workflow_run"@ => Tree::Object(
                map!["type"@ => Tree::Text("workflow"@), "workflow"@ => Tree::Text(workflow)],
            ),
            "capability"@ => capability_tree(capabilities, choice.operations),
            "filesystem"@ => Tree::List(scope_trees(scopes)),
            "network"@ => Tree::Object(
                map![
                    "profiles"@ => text_list(choice.profiles),
                    "destinations"@ => text_list(choice.destinations),
                ],
            ),
            "secrets"@ => text_list(choice.secrets),
            "artifacts"@ => artifact_scope_tree(),
            "layouts"@ => kind_tree("none"@),
            "peers"@ => kind_tree("none"@),
            "daemon"@ => daemon_tree(),
            "workspace"@ => Tree::Object(
                map!["scopes"@ => Tree::List(seq![]), "allow_any_in_run"@ => Tree::Bool(true)],
            ),
        ],
    )
}

/// The whole grant: what it reaches, its budget, when it holds, and the acknowledgement that
/// artifact and workspace identities are run-wide.
pub open spec fn grant_tree(
    workflow: Seq<char>,
    capabilities: Seq<Seq<char>>,
    scopes: Seq<ScopeView>,
    choice: GrantChoiceView,
    now: u64,
) -> Tree {
    Tree::Object(
        map![
            "resources"@ => resources_tree(workflow, capabilities, scopes, choice),
            "budget"@ => grant_budget_tree(),
            "valid_from"@ => Tree::Integer(validity_of(now).0),
            "valid_until"@ => Tree::Integer(validity_of(now).1),
            "dangerous_allow_broad_authority"@ => Tree::Bool(true),
        ],
    )
}

/// What one actor is granted: one workflow, exact capabilities, operations, directories,
/// destinations and secrets, fixed budgets and a fixed period. A program without a directory and,
/// behind it, an endpoint without a scheme are refused.
pub fn explicit_grant(
    request: &GrantRequest,
    model: Option<&ModelNeeds>,
    agent_secrets: &Vec<String>,
    sources: &Vec<(String, Source)>,
) -> (r: Checked<Json>)
    ensures
        match (
            filesystem_of(request.session@, request.repository@, request.agent@, request.helper@),
            choice_of(needs_of(model), texts(agent_secrets@), source_map(sources@)),
        ) {
            (Err(message), _) => failed(r, message),
            (Ok(_), Err(message)) => failed(r, message),
            (Ok(scopes), Ok(choice)) => r matches Ok(grant) && grant@ == grant_tree(
                request.workflow@,
                texts(request.capabilities@),
                scopes,
                choice,
                request.now,
            ),
        },
{
    let scopes: Vec<Scope> = grant_filesystem(
        request.session.as_str(),
        request.repository.as_str(),
        request.agent.as_str(),
        request.helper.as_str(),
    )?;
    let choice: GrantChoice = grant_choice(model, agent_secrets, sources)?;
    let (from, until): (u64, u64) = grant_validity(request.now);
    let resources: Json = grant_resources(request, &scopes, &choice);
    let budget: Json = Json::object().with("cost_minor", Json::number(1000000000)).with(
        "duration_ms",
        Json::number(604800000),
    ).with("invocations", Json::number(10000)).with(
        "artifact_bytes",
        Json::number(17179869184),
    ).with("units", Json::number(1000000000)).with("concurrency", Json::number(32));
    Ok(
        Json::object().with("resources", resources).with("budget", budget).with(
            "valid_from",
            Json::number(from),
        ).with("valid_until", Json::number(until)).with(
            "dangerous_allow_broad_authority",
            Json::flag(true),
        ),
    )
}

fn word_list(v: &Vec<&'static str>) -> (r: Json)
    ensures
        r@ == text_list(words(v@)),
{
    let ghost wanted = text_list(words(v@))->List_0;
    let mut out: Json = Json::list();
    let mut i: usize = 0;
    proof {
        assert(out@->List_0 =~= wanted.take(0));
    }
    while i < v.len()
        invariant
            i <= v.len(),
            wanted == text_list(words(v@))->List_0,
            out@ == Tree::List(wanted.take(i as int)),
        decreases v.len() - i,
    {
        let value: Json = Json::text(v[i]);
        proof {
            assert(words(v@)[i as int] == v@[i as int]@);
            assert(wanted.take(i + 1) =~= wanted.take(i as int).push(value@));
        }
        out = out.and(value);
        i = i + 1;
    }
    proof {
        assert(wanted.take(i as int) =~= wanted);
    }
    out
}

fn kind(name: &str) -> (r: Json)
    ensures
        r@ == kind_tree(name@),
{
    Json::object().with("type", Json::text(name))
}

fn only(values: Json) -> (r: Json)
    ensures
        r@ == Tree::Object(
            map!["type"@ => Tree::Text("only"@), "values"@ => values@],
        ),
{
    Json::object().with("type", Json::text("only")).with("values", values)
}

fn grant_resources(request: &GrantRequest, scopes: &Vec<Scope>, choice: &GrantChoice) -> (r: Json)
    ensures
        r@ == resources_tree(
            request.workflow@,
            texts(request.capabilities@),
            scope_views(scopes@),
            choice@,
        ),
{
    let run: Json = kind("workflow").with("workflow", Json::text(request.workflow.as_str()));
    let operations: Json = word_list(&choice.operations);
    let capability: Json = kind("allow").with("maximum_side_effect", Json::text("unknown")).with(
        "identities",
        only(name_list(&request.capabilities)),
    ).with("operations", only(operations));
    let network: Json = Json::object().with("profiles", name_list(&choice.profiles)).with(
        "destinations",
        name_list(&choice.destinations),
    );
    let sensitivities: Vec<&'static str> = vec!["public", "internal", "restricted"];
    proof {
        assert(words(sensitivities@) =~= seq!["public"@, "internal"@, "restricted"@]);
    }
    let artifacts: Json = kind("allow").with("identities", kind("any")).with(
        "sensitivities",
        word_list(&sensitivities),
    );
    let daemon: Json = Json::object().with("readiness", Json::flag(true)).with(
        "detailed_health",
        Json::flag(true),
    ).with("own_authority", Json::flag(true)).with("configuration", Json::flag(false)).with(
        "audit",
        Json::flag(false),
    );
    let workspace: Json = Json::object().with("scopes", Json::list()).with(
        "allow_any_in_run",
        Json::flag(true),
    );
    Json::object().with("workflow_run", run).with("capability", capability).with(
        "filesystem",
        scope_list(scopes),
    ).with("network", network).with("secrets", name_list(&choice.secrets)).with(
        "artifacts",
        artifacts,
    ).with("layouts", kind("none")).with("peers", kind("none")).with("daemon", daemon).with(
        "workspace",
        workspace,
    )
}

/// A grant never gives the daemon's configuration or its audit.
pub proof fn grants_keep_the_daemon_closed(
    workflow: Seq<char>,
    capabilities: Seq<Seq<char>>,
    scopes: Seq<ScopeView>,
    choice: GrantChoiceView,
    now: u64,
)
    ensures
        ({
            let grant = grant_tree(workflow, capabilities, scopes, choice, now);
            let daemon = at(at(grant, "resources"@), "daemon"@);
            &&& daemon == daemon_tree()
            &&& at(daemon, "configuration"@) == Tree::Bool(false)
            &&& at(daemon, "audit"@) == Tree::Bool(false)
        }),
{
    reveal_strlit("resources");
    reveal_strlit("budget");
    reveal_strlit("valid_from");
    reveal_strlit("valid_until");
    reveal_strlit("dangerous_allow_broad_authority");
    assert("resources"@.len() == 9);
    assert("budget"@.len() == 6);
    assert("valid_from"@.len() == 10);
    assert("valid_until"@.len() == 11);
    assert("dangerous_allow_broad_authority"@.len() == 31);
    reveal_strlit("daemon");
    reveal_strlit("workspace");
    assert("daemon"@.len() == 6);
    assert("workspace"@.len() == 9);
    reveal_strlit("configuration");
    reveal_strlit("audit");
    assert("configuration"@.len() == 13);
    assert("audit"@.len() == 5);
    let grant = grant_tree(workflow, capabilities, scopes, choice, now);
    keys_are_found(grant, "resources"@);
    keys_are_found(at(grant, "resources"@), "daemon"@);
    keys_are_found(daemon_tree(), "configuration"@);
    keys_are_found(daemon_tree(), "audit"@);
}

/// Every granted secret is required and has a source, and every required secret with a source is
/// granted.
pub proof fn granted_secrets_are_those_with_a_source(
    required: Seq<Seq<char>>,
    sources: Map<Seq<char>, SourceView>,
    n: int,
    secret: Seq<char>,
)
    requires
        0 <= n <= required.len(),
    ensures
        granted_secrets(required, sources, n).contains(secret) <==> required.take(n).contains(secret)
            && sources.contains_key(secret),
    decreases n,
{
    if n > 0 {
        granted_secrets_are_those_with_a_source(required, sources, n - 1, secret);
        let before = granted_secrets(required, sources, n - 1);
        assert(required.take(n) =~= required.take(n - 1).push(required[n - 1]));
        assert(required.take(n).contains(secret) <==> required.take(n - 1).contains(secret)
            || secret == required[n - 1]) by {
            if required.take(n - 1).contains(secret) {
                let i = choose|i: int|
                    0 <= i < n - 1 && (#[trigger] required.take(n - 1)[i]) == secret;
                assert(required.take(n)[i] == secret);
            }
            if secret == required[n - 1] {
                assert(required.take(n)[n - 1] == secret);
            }
        }
        let longer = before.push(required[n - 1]);
        assert(longer.contains(secret) <==> before.contains(secret) || secret == required[n - 1])
            by {
            if before.contains(secret) {
                let i = choose|i: int| 0 <= i < before.len() && before[i] == secret;
                assert(longer[i] == secret);
            }
            if secret == required[n - 1] {
                assert(longer[before.len() as int] == secret);
            }
        }
    }
}

/// The evidence of one output: its artifact, and what it was for.
pub open spec fn artifact_row(role: Seq<char>, output: Tree) -> Tree {
    Tree::Object(
        map![
            "artifact_id"@ => at(output, "artifact,artifact_id"@),
            "digest"@ => at(output, "artifact,digest"@),
            "size"@ => at(output, "artifact,size"@),
            "content_type"@ => at(output, "artifact,content_type"@),
            "role"@ => Tree::Text(role),
        ],
    )
}

/// What an output was for: its name, behind the role of its attempt where there is one.
pub open spec fn output_role(role: Option<Seq<char>>, output: Tree) -> Seq<char> {
    match role {
        Some(r) => r + ":"@ + text_or_empty(output, "name"@),
        None => text_or_empty(output, "name"@),
    }
}

/// The evidence of an attempt's outputs, in their order.
pub open spec fn artifact_rows(role: Option<Seq<char>>, outputs: Seq<Tree>) -> Seq<Tree> {
    outputs.map_values(|output: Tree| artifact_row(output_role(role, output), output))
}

pub fn artifact_evidence(role: Option<&str>, read: &Json) -> (r: Json)
    ensures
        r@ == Tree::List(
            artifact_rows(
                match role {
                    Some(t) => Some(t@),
                    None => None,
                },
                items(read@, "outputs"@),
            ),
        ),
{
    let ghost named = match role {
        Some(t) => Some(t@),
        None => None,
    };
    let ghost wanted = artifact_rows(named, items(read@, "outputs"@));
    let n: usize = read.count("outputs");
    let mut out: Json = Json::list();
    let mut i: usize = 0;
    proof {
        assert(out@->List_0 =~= wanted.take(0));
    }
    while i < n
        invariant
            i <= n,
            n == items(read@, "outputs"@).len(),
            named == (match role {
                Some(t) => Some(t@),
                None => None,
            }),
            wanted == artifact_rows(named, items(read@, "outputs"@)),
            out@ == Tree::List(wanted.take(i as int)),
        decreases n - i,
    {
        let output: &Json = read.item("outputs", i);
        let name: String = text_or_nothing(output, "name");
        let full: String = match role {
            Some(t) => joined3(t, ":", name.as_str()),
            None => name,
        };
        let row: Json = Json::object().with("artifact_id", output.get("artifact,artifact_id")).with(
            "digest",
            output.get("artifact,digest"),
        ).with("size", output.get("artifact,size")).with(
            "content_type",
            output.get("artifact,content_type"),
        ).with("role", Json::text(full.as_str()));
        proof {
            assert(row@->Object_0 =~= artifact_row(output_role(named, output@), output@)->Object_0);
            assert(wanted.take(i + 1) =~= wanted.take(i as int).push(row@));
        }
        out = out.and(row);
        i = i + 1;
    }
    proof {
        assert(wanted.take(i as int) =~= wanted);
    }
    out
}

/// How far one scenario of a run came.
pub enum Settled {
    /// It was not reached.
    Pending { reason: String },
    /// It failed.
    Failed { reason: String },
    /// It has evidence.
    Complete { evidence: Json },
}

/// A scenario qualifies only by evidence that does.
pub open spec fn settled_qualifies(s: Settled) -> bool {
    s matches Settled::Complete { evidence } && at(evidence@, "qualifying"@) == Tree::Bool(true)
}

/// What a run came to.
pub struct Conclusion {
    pub fixture_mode: bool,
    pub process: Settled,
    pub model: Settled,
    pub qualifying: bool,
    pub failure_reason: Option<String>,
}

fn settle(result: Option<Checked<Json>>, pending: &str) -> (r: (Settled, Option<String>))
    ensures
        match result {
            None => r.0 matches Settled::Pending { reason } && reason@ == pending@ && r.1 is None,
            Some(Err(f)) => (r.0 matches Settled::Failed { reason } && reason@ == f.message@) && (
            r.1 matches Some(t) && t@ == f.message@),
            Some(Ok(e)) => r.0 matches Settled::Complete { evidence } && evidence@ == e@
                && r.1 is None,
        },
{
    match result {
        None => (Settled::Pending { reason: pending.to_owned() }, None),
        Some(Err(f)) => (
            Settled::Failed { reason: f.message.as_str().to_owned() },
            Some(f.message.as_str().to_owned()),
        ),
        Some(Ok(evidence)) => (Settled::Complete { evidence }, None),
    }
}

fn qualifying(s: &Settled) -> (r: bool)
    ensures
        r == settled_qualifies(*s),
{
    match s {
        Settled::Complete { evidence } => evidence.is_flag("qualifying", true),
        _ => false,
    }
}

/// The reason of a run that failed: that of its first failed scenario, or of what else ended it.
pub open spec fn failure_of(
    process: Option<Checked<Json>>,
    model: Option<Checked<Json>>,
    ended: Option<Seq<char>>,
) -> Option<Seq<char>> {
    match (process, model) {
        (Some(Err(f)), _) => Some(f.message@),
        (_, Some(Err(f))) => Some(f.message@),
        _ => ended,
    }
}

/// The conclusion of a run, from what its scenarios gave, where they were reached, and from what
/// else ended it.
pub fn execute(
    fixture: bool,
    allow_fixture: bool,
    process: Option<Checked<Json>>,
    model: Option<Checked<Json>>,
    ended: Option<&str>,
) -> (r: Checked<Conclusion>)
    ensures
        if fixture && !allow_fixture {
            failed(r, "--fixture requires --allow-fixture and remains non-qualifying"@)
        } else {
            r matches Ok(c) && c.fixture_mode == fixture && c.qualifying == (settled_qualifies(
                c.process,
            ) && settled_qualifies(c.model)) && crate::text::text_option(c.failure_reason)
                == failure_of(
                process,
                model,
                match ended {
                    Some(t) => Some(t@),
                    None => None,
                },
            ) && (match process {
                None => c.process matches Settled::Pending { reason } && reason@
                    == "process scenario has not run"@,
                Some(Err(f)) => c.process matches Settled::Failed { reason } && reason@ == f.message@,
                Some(Ok(e)) => c.process matches Settled::Complete { evidence } && evidence@ == e@,
            }) && (match model {
                None => c.model matches Settled::Pending { reason } && reason@
                    == "model scenario has not run"@,
                Some(Err(f)) => c.model matches Settled::Failed { reason } && reason@ == f.message@,
                Some(Ok(e)) => c.model matches Settled::Complete { evidence } && evidence@ == e@,
            })
        },
{
    check_fixture(fixture, allow_fixture)?;
    let (first, first_failure): (Settled, Option<String>) = settle(
        process,
        "process scenario has not run",
    );
    let (second, second_failure): (Settled, Option<String>) = settle(
        model,
        "model scenario has not run",
    );
    let failure_reason: Option<String> = match first_failure {
        Some(t) => Some(t),
        None => match second_failure {
            Some(t) => Some(t),
            None => match ended {
                Some(t) => Some(t.to_owned()),
                None => None,
            },
        },
    };
    let both: bool = qualifies(qualifying(&first), qualifying(&second));
    Ok(
        Conclusion {
            fixture_mode: fixture,
            process: first,
            model: second,
            qualifying: both,
            failure_reason,
        },
    )
}

/// What the report of a conclusion is built from.
pub open spec fn report_known(facts: Tree, c: Conclusion) -> Tree {
    with(
        with(
            with(facts, "fixture_mode"@, Tree::Bool(c.fixture_mode)),
            "failure_reason"@,
            match c.failure_reason {
                Some(t) => Tree::Text(t@),
                None => Tree::Null,
            },
        ),
        "qualifying"@,
        Tree::Bool(c.qualifying),
    )
}

/// The report of a conclusion, beside the facts of its run.
pub fn evidence_report(facts: Json, c: &Conclusion) -> (r: Checked<Json>)
    requires
        facts@ is Object,
    ensures
        document_result(r) == listed_document(EXTERNAL_REPORT@, report_known(facts@, *c)),
{
    let reason: Json = match &c.failure_reason {
        Some(t) => Json::text(t.as_str()),
        None => Json::Null,
    };
    let known: Json = facts.with("fixture_mode", Json::flag(c.fixture_mode)).with(
        "failure_reason",
        reason,
    ).with("qualifying", Json::flag(c.qualifying));
    build(EXTERNAL_REPORT.as_slice(), known)
}

/// What was validated before any scenario began; nothing where the configuration failed.
pub fn validation_steps(configured: bool) -> (r: Vec<&'static str>)
    ensures
        r@ == (if configured {
            seq![
                "process profile schema + executable identity validation",
                "model endpoint profile schema validation",
                "daemon configuration validation before storage open",
            ]
        } else {
            Seq::<&'static str>::empty()
        }),
{
    let mut r: Vec<&'static str> = Vec::new();
    if configured {
        r.push("process profile schema + executable identity validation");
        r.push("model endpoint profile schema validation");
        r.push("daemon configuration validation before storage open");
    }
    proof {
        assert(configured ==> r@ =~= seq![
            "process profile schema + executable identity validation",
            "model endpoint profile schema validation",
            "daemon configuration validation before storage open",
        ]);
    }
    r
}

} // verus!
