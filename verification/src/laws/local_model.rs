//! The profiles and the lanes of local models.

use vstd::prelude::*;

use crate::endpoint::{parsed_url, HostView};
use crate::failure::{failed, Checked};
use crate::json::{at, items, Json, Tree};
use crate::local_model::{
    check_initial_page, check_secrets, follow_line, inspect_profile, observe_success,
    parse_secret_source, validate_mode, validate_real_profile, Mode, ModelFacts,
    SuccessObservation,
};
use crate::text::{occurs, texts};

verus! {

/// A secret source is divided at its first equals sign, and neither side is empty: put together
/// again the sides are what was given.
pub proof fn secret_sources_are_divided_once(value: &str, r: Checked<(String, String)>)
    requires
        call_ensures(parse_secret_source, (value,), r),
    ensures
        r matches Ok((reference, path)) ==> value@ == reference@ + seq!['='] + path@
            && reference@.len() > 0 && path@.len() > 0 && !reference@.contains('='),
        !value@.contains('=') ==> failed(r, "secret source must be REFERENCE=FILE"@),
{
    crate::text::lemma_position(value@, '=', 0);
    let p = crate::text::position(value@, '=', 0);
    if value@.contains('=') {
        let i = choose|i: int| 0 <= i < value@.len() && value@[i] == '=';
        assert(value@[i] == '=');
    }
    if r is Ok {
        let (reference, path) = r->Ok_0;
        assert(value@ =~= reference@ + seq!['='] + path@);
        assert(!reference@.contains('='));
    }
}

/// A deterministic lane takes neither a profile nor a secret, and a real one never runs without a
/// profile.
pub proof fn lanes_keep_to_their_arguments(
    mode: Mode,
    has_profile: bool,
    secret_sources: usize,
    r: Checked<()>,
)
    requires
        call_ensures(validate_mode, (mode, has_profile, secret_sources), r),
    ensures
        mode == Mode::Deterministic ==> (r is Ok <==> !has_profile && secret_sources == 0),
        mode == Mode::OperatorRealEndpoint ==> (r is Ok <==> has_profile),
{
}

/// A real profile is accepted only where it maps chat completions and reaches a loopback endpoint
/// over plain HTTP under its development policy, with redirects denied and no ambient proxy; and
/// one that does is accepted.
pub proof fn real_profiles_stay_local(
    mode: Mode,
    value: &Json,
    facts: &ModelFacts,
    url: Seq<char>,
    r: Checked<()>,
)
    requires
        call_ensures(validate_real_profile, (mode, value, facts), r),
        value@ matches Tree::Object(m) && m.contains_key("base_url"@) && m["base_url"@]
            == Tree::Text(url),
    ensures
        facts.protocol@ != "open_ai_compatible"@ ==> r is Err,
        facts.protocol@ == "open_ai_compatible"@ && mode == Mode::Deterministic ==> r is Ok,
        facts.protocol@ == "open_ai_compatible"@ && mode == Mode::OperatorRealEndpoint ==> (r is Ok
            <==> {
            &&& parsed_url(url) matches Ok(u) && u.scheme == "http"@ && match u.host {
                None => false,
                Some(HostView::V4 { bits, text }) => 0x7f00_0000 <= bits < 0x8000_0000,
                Some(HostView::V6 { wide, text }) => wide == 1,
                Some(HostView::Domain { name }) => crate::endpoint::same_letters(
                    name,
                    "localhost"@,
                ),
            }
            &&& at(value@, "local_development"@) == Tree::Bool(true)
            &&& at(value@, "redirect"@) == Tree::Text("deny"@)
            &&& at(value@, "proxy"@) == Tree::Text("disabled"@)
        }),
{
    assert(seq!["base_url"].skip(1) =~= Seq::<&str>::empty());
    reveal_with_fuel(crate::application::under_keys, 2);
}

/// The facts of a profile are those that it states: its revision, its protocol, its model, its
/// streaming and its secret, under the identity that was given.
pub proof fn facts_are_those_of_the_profile(
    profile_id: &str,
    value: &Json,
    r: Checked<ModelFacts>,
)
    requires
        call_ensures(inspect_profile, (profile_id, value), r),
    ensures
        r matches Ok(f) ==> {
            &&& f.profile_id@ == profile_id@
            &&& at(value@, "revision"@) == Tree::Integer(f.revision as int)
            &&& at(value@, "features"@) is List
            &&& f.streaming <==> items(value@, "features"@).contains(Tree::Text("streaming"@))
            &&& f.secret matches Some(s) ==> at(value@, "auth,secret"@) == Tree::Text(s@)
            &&& f.secret is None ==> !(at(value@, "auth,secret"@) is Text)
        },
        !(at(value@, "features"@) is List) ==> r is Err,
        !(at(value@, "revision"@) is Integer) ==> r is Err,
{
}

/// Secrets are accepted exactly where no reference is given twice and the profile's own is given.
pub proof fn secrets_are_given_once(references: &Vec<String>, facts: &ModelFacts, r: Checked<()>)
    requires
        call_ensures(check_secrets, (references, facts), r),
    ensures
        r is Ok <==> (forall|i: int, j: int|
            0 <= i < j < references@.len() ==> (#[trigger] references@[i])@ != (
            #[trigger] references@[j])@) && (facts.secret matches Some(s) ==> exists|i: int|
            0 <= i < references@.len() && (#[trigger] references@[i])@ == s@),
{
    let t = texts(references@);
    assert(t.len() == references@.len());
    assert(forall|i: int| 0 <= i < t.len() ==> #[trigger] t[i] == references@[i]@);
    lemma_repeated(t, 0);
    if forall|i: int, j: int|
        0 <= i < j < references@.len() ==> (#[trigger] references@[i])@ != (
        #[trigger] references@[j])@ {
        assert forall|i: int, j: int| 0 <= i < j < t.len() implies #[trigger] t[i]
            != #[trigger] t[j] by {
            assert(references@[i]@ != references@[j]@);
        }
    }
    if r is Ok {
        assert forall|i: int, j: int| 0 <= i < j < references@.len() implies (
        #[trigger] references@[i])@ != (#[trigger] references@[j])@ by {
            assert(t[i] != t[j]);
        }
    }
    if facts.secret is Some {
        let s = facts.secret->Some_0@;
        if t.contains(s) {
            let i = choose|i: int| 0 <= i < t.len() && t[i] == s;
            assert(references@[i]@ == s);
        }
        if exists|i: int| 0 <= i < references@.len() && (#[trigger] references@[i])@ == s {
            let i = choose|i: int| 0 <= i < references@.len() && (#[trigger] references@[i])@ == s;
            assert(t[i] == s);
        }
    }
}

proof fn lemma_repeated(t: Seq<Seq<char>>, from: int)
    requires
        0 <= from <= t.len(),
    ensures
        crate::local_model::first_repeated(t, from) is None <==> forall|i: int, j: int|
            0 <= i < j < t.len() && from <= j ==> #[trigger] t[i] != #[trigger] t[j],
    decreases t.len() - from,
{
    if from < t.len() {
        let head = t.take(from);
        if head.contains(t[from]) {
            let i = choose|i: int| 0 <= i < head.len() && head[i] == t[from];
            assert(t[i] == t[from]);
        } else {
            lemma_repeated(t, from + 1);
            assert forall|i: int| 0 <= i < from implies t[i] != t[from] by {
                assert(head[i] == t[i]);
                if t[i] == t[from] {
                    assert(head.contains(t[from]));
                }
            }
        }
    }
}

/// A success tells how often the attempt progressed, whether its usage is known, and how many
/// artifacts it left.
pub proof fn successes_tell_what_was_seen(
    attempt: &Json,
    finish_reason: bool,
    response_identity: bool,
    r: SuccessObservation,
)
    requires
        call_ensures(observe_success, (attempt, finish_reason, response_identity), r),
    ensures
        at(attempt@, "progress_observations"@) matches Tree::Integer(n) ==> (0 <= n <= u64::MAX
            ==> r.progress == n),
        !(at(attempt@, "progress_observations"@) is Integer) ==> r.progress == 0,
        r.usage_input <==> (at(attempt@, "usage,input_units"@) matches Tree::Integer(n) && 0 <= n
            <= u64::MAX),
        r.usage_output <==> (at(attempt@, "usage,output_units"@) matches Tree::Integer(n) && 0 <= n
            <= u64::MAX),
        r.finish_reason == finish_reason && r.response_identity == response_identity,
        r.artifacts == items(attempt@, "outputs"@).len(),
{
}

/// A followed line ends the stream exactly where nothing was read, and is refused where it is
/// longer than 128 KiB or the queue is full.
pub proof fn followed_lines_are_bounded(read: u64, queued: u64, r: Checked<bool>)
    requires
        call_ensures(follow_line, (read, queued), r),
    ensures
        (r matches Ok(more) && !more) <==> read == 0,
        read > 131072 ==> failed(r, "timeline line exceeds bound"@),
        0 < read <= 131072 && queued >= 64 ==> failed(
            r,
            "timeline observation queue overflow"@,
        ),
        0 < read <= 131072 && queued < 64 ==> (r matches Ok(more)
            && more),
{
}

/// A follower starts only with a line that names the timeline.
pub proof fn followers_start_with_the_page(line: &str, r: Checked<()>)
    requires
        call_ensures(check_initial_page, (line,), r),
    ensures
        r is Ok <==> occurs(line@, "run.timeline"@),
{
}

} // verus!
