//! The review of a controller by a real model.

use vstd::prelude::*;
use vstd::utf8::encode_utf8;

use crate::endpoint::parsed_url;
use crate::failure::{failed, Checked};
use crate::json::{at, items, Json, Tree};
use crate::review::{
    accept_facts_size, accept_review, approves_repair, check_agent, check_billing, check_endpoint,
    check_facts, extend_network, verify_count, Decision,
};
use crate::text::trimmed;

verus! {

/// An agent is accepted exactly where it needs no secret and runs the local provider of the
/// approved profile.
pub proof fn agents_are_local(value: &Json, r: Checked<()>)
    requires
        call_ensures(check_agent, (value,), r),
    ensures
        r is Ok <==> {
            let argv = items(value@, "profile,arguments"@);
            &&& at(value@, "profile,environment,secrets"@) matches Tree::Object(m) && m.dom()
                =~= Set::empty()
            &&& at(value@, "profile,arguments"@) is List
            &&& argv.contains(Tree::Text("--oss"@))
            &&& exists|i: int|
                #![trigger argv[i]]
                0 <= i < argv.len() - 1 && argv[i] == Tree::Text("--local-provider"@) && argv[i + 1]
                    == Tree::Text("lmstudio"@)
        },
{
}

/// An endpoint is accepted exactly where it is one of two loopback names and takes no credential.
pub proof fn review_endpoints_are_loopback(profile: &Json, url: Seq<char>, r: Checked<()>)
    requires
        call_ensures(check_endpoint, (profile,), r),
        profile@ matches Tree::Object(m) && m.contains_key("base_url"@) && m["base_url"@]
            == Tree::Text(url),
    ensures
        r is Ok <==> (parsed_url(url) matches Ok(u) && (u.host_text == Some("127.0.0.1"@)
            || u.host_text == Some("localhost"@))) && at(profile@, "auth,type"@) == Tree::Text(
            "no_auth"@,
        ),
{
    assert(seq!["base_url"].skip(1) =~= Seq::<&str>::empty());
    reveal_with_fuel(crate::application::under_keys, 2);
}

/// Nothing that is billed is asked, facts of another model are not taken, and facts are bounded.
pub proof fn facts_are_of_the_asked_model(
    facts: &Json,
    profile: &Json,
    matched: Checked<()>,
    billed: Checked<()>,
    size: u64,
    sized: Checked<()>,
)
    requires
        call_ensures(check_facts, (facts, profile), matched),
        call_ensures(check_billing, (profile,), billed),
        call_ensures(accept_facts_size, (size,), sized),
    ensures
        matched is Ok <==> at(facts@, "model"@) == at(profile@, "model"@) && at(facts@, "base_url"@)
            == at(profile@, "base_url"@) && at(facts@, "inspected"@) is Object && at(
            facts@,
            "operator_declared"@,
        ) is Object && at(facts@, "unknown"@) is List,
        billed is Ok <==> at(profile@, "billing,type"@) == Tree::Text("unbilled"@),
        sized is Ok <==> size <= 262144,
{
}

/// A network is extended by exactly one profile and one destination, behind those it had.
pub proof fn networks_grow_at_their_end(
    network: Json,
    identity: &str,
    destination: &str,
    r: Checked<Json>,
)
    requires
        call_ensures(extend_network, (network, identity, destination), r),
    ensures
        r is Ok <==> at(network@, "profiles"@) is List && at(network@, "destinations"@) is List,
        !(at(network@, "profiles"@) is List) ==> failed(r, "network profiles missing"@),
{
}

/// A repair is approved exactly by the approving word with a reason of at most two kibibytes that
/// is more than white space.
pub proof fn repairs_need_a_reason(decision: &Option<Decision>, r: bool)
    requires
        call_ensures(approves_repair, (decision,), r),
    ensures
        r <==> (decision matches Some(d) && d.repair@ == "approved_repair"@ && trimmed(
            d.reason@,
        ).len() > 0 && encode_utf8(d.reason@).len() <= 2048),
{
}

/// A review is accepted exactly where the model stopped by itself, its decision approves the
/// repair, and both sides of its usage are known.
pub proof fn reviews_finish_usefully(
    body: &Json,
    decision: &Option<Decision>,
    attempt: &Json,
    r: Checked<()>,
)
    requires
        call_ensures(accept_review, (body, decision, attempt), r),
    ensures
        r is Ok <==> {
            &&& at(body@, "finish_reason"@) == Tree::Text("stop"@)
            &&& decision matches Some(d) && d.repair@ == "approved_repair"@ && trimmed(
                d.reason@,
            ).len() > 0 && encode_utf8(d.reason@).len() <= 2048
            &&& at(attempt@, "value,usage,input_units"@) matches Tree::Integer(n) && 0 <= n
                <= u64::MAX
            &&& at(attempt@, "value,usage,output_units"@) matches Tree::Integer(n) && 0 <= n
                <= u64::MAX
        },
{
}

/// A controlled review was entered exactly twice.
pub proof fn controlled_reviews_are_entered_twice(
    controlled: bool,
    invocations: u64,
    r: Checked<()>,
)
    requires
        call_ensures(verify_count, (controlled, invocations), r),
    ensures
        r is Ok <==> !controlled || invocations == 2,
{
}

} // verus!
