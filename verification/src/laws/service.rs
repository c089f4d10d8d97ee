//! What is observed of a deployed booking service.

use vstd::prelude::*;
use vstd::utf8::encode_utf8;

use crate::application::under;
use crate::digest::blake3_hex;
use crate::json::{at, found, items, Json, Tree};
use crate::slotbook::service::{
    accept_input, accept_response, active, availability_path, booking, candidate_subject,
    check_candidate, check_contract, check_deployment, check_owner, cleared, container_identity,
    container_output, form_bytes, form_query, inspected, launch_arguments, mount_count,
    mounts_read_only, observation, path, ready, service_base, service_token, unobserved, violated,
    Finding, Launch, Subject, Verdict,
};
use crate::text::{decimal, occurs, split_at_char, trimmed, unsigned};

verus! {

/// An input is taken up to sixty-four kibibytes, and only there.
pub proof fn inputs_are_bounded(size: u64, r: Verdict<()>)
    requires
        call_ensures(accept_input, (size,), r),
    ensures
        r is Ok <==> size <= 65536,
        r is Err ==> violated(r, "verifier input exceeds bound"@),
{
}

/// A contract is understood exactly in its second version and with at most thirty-two checks.
pub proof fn contracts_are_understood(schema_version: u32, required_checks: u64, r: Verdict<()>)
    requires
        call_ensures(check_contract, (schema_version, required_checks), r),
    ensures
        r is Ok <==> schema_version == 2 && required_checks <= 32,
        r is Err ==> violated(r, "unsupported verifier contract"@),
{
}

/// A subject names the digest and the size that it declares, and one byte more than the size is
/// read of it; a subject that declares both is taken.
pub proof fn subjects_are_as_declared(subject: &Json, r: Verdict<Subject>)
    requires
        call_ensures(candidate_subject, (subject,), r),
    ensures
        r matches Ok(s) ==> at(subject@, "artifact,digest"@) == Tree::Text(s.digest@) && at(
            subject@,
            "artifact,size_bytes"@,
        ) == Tree::Integer(s.size as int) && s.read_bound == s.size + 1,
        found(subject@, "artifact"@) is Some && at(subject@, "artifact,digest"@) is Text && (at(
            subject@,
            "artifact,size_bytes"@,
        ) matches Tree::Integer(n) && 0 <= n < u64::MAX) ==> r is Ok,
        found(subject@, "artifact"@) is None ==> unobserved(r, "candidate subject absent"@),
{
}

/// A candidate is accepted exactly where it has the size that its subject declares and its digest,
/// bare or as a content identity.
pub proof fn candidates_are_their_subjects(bytes: &[u8], subject: &Subject, r: Verdict<()>)
    requires
        call_ensures(check_candidate, (bytes, subject), r),
    ensures
        r is Ok <==> bytes@.len() == subject.size && (subject.digest@ == blake3_hex(bytes@)
            || subject.digest@ == "b3_"@ + blake3_hex(bytes@)),
        bytes@.len() != subject.size ==> violated(r, "candidate size differs from subject"@),
        r is Err && bytes@.len() == subject.size ==> violated(
            r,
            "candidate bytes differ from subject"@,
        ),
{
}

/// A credential is what stands between the blanks, of one byte up to a kibibyte.
pub proof fn credentials_are_bounded(text: &str, r: Verdict<String>)
    requires
        call_ensures(service_token, (text,), r),
    ensures
        r is Ok <==> 1 <= encode_utf8(trimmed(text@)).len() <= 1024,
        r matches Ok(t) ==> t@ == trimmed(text@),
        r is Err ==> violated(r, "invalid verifier credential"@),
{
}

/// A response is accepted exactly where it is within sixteen kibibytes and does not hold the
/// credential anywhere.
pub proof fn responses_hold_no_credential(bytes: &[u8], token: &str, r: Verdict<()>)
    requires
        call_ensures(accept_response, (bytes, token), r),
    ensures
        r is Ok <==> bytes@.len() <= 16384 && !occurs(bytes@, encode_utf8(token@)),
        bytes@.len() > 16384 ==> violated(r, "candidate response exceeds bound"@),
        r is Err && bytes@.len() <= 16384 ==> violated(
            r,
            "candidate disclosed service credential"@,
        ),
{
}

/// What a container command wrote is taken exactly where the command succeeded and wrote at most a
/// mebibyte; a command that failed leaves the check unobserved.
pub proof fn container_outputs_are_bounded(succeeded: bool, size: u64, r: Verdict<()>)
    requires
        call_ensures(container_output, (succeeded, size), r),
    ensures
        r is Ok <==> succeeded && size <= 1048576,
        !succeeded ==> unobserved(r, "container observation unavailable"@),
        succeeded && size > 1048576 ==> violated(r, "container observation exceeds bound"@),
{
}

/// A launch is refused exactly where one of the four limits is absent. Otherwise it is a detached
/// container without capabilities or privileges, on a read-only root, that writes to its data
/// directory alone and listens on the loopback address alone.
pub proof fn launches_are_confined(launch: &Launch, limits: &Json, r: Verdict<Vec<String>>)
    requires
        call_ensures(launch_arguments, (launch, limits), r),
    ensures
        r matches Ok(v) ==> {
            &&& v@.len() == 26
            &&& v@[0]@ == "run"@ && v@[1]@ == "--detach"@ && v@[2]@ == "--pull=never"@ && v@[3]@
                == "--replace=false"@
            &&& v@[4]@ == "--name="@ + launch.container@
            &&& v@[5]@ == "--cidfile="@ + under(launch.directory@, "container.cid"@)
            &&& v@[6]@ == "--label=org.milkdrift.verification="@ + launch.evaluation@
            &&& v@[7]@ == "--label=org.milkdrift.platform="@ + launch.platform_owner@
            &&& v@[8]@ == "--log-driver=none"@ && v@[9]@ == "--read-only"@ && v@[10]@
                == "--read-only-tmpfs=false"@
            &&& v@[12]@ == "--cap-drop=all"@ && v@[13]@ == "--security-opt=no-new-privileges"@
                && v@[14]@ == "--userns=auto:size=65536"@
            &&& v@[15]@ == "--network=pasta:--no-map-gw"@ && v@[16]@ == "--publish=127.0.0.1::8080"@
            &&& v@[21]@ == "--volume="@ + launch.candidate@ + ":/candidate/app:ro"@
            &&& v@[22]@ == "--volume="@ + under(launch.directory@, "config"@) + ":/config:ro"@
            &&& v@[23]@ == "--volume="@ + under(launch.directory@, "data"@) + ":/data:U"@
            &&& v@[24]@ == "--entrypoint=/candidate/app"@ && v@[25]@ == launch.image@
        },
        r is Err ==> unobserved(r, "container limit absent"@),
{
    if r is Ok {
        let v = r->Ok_0@;
        assert(crate::text::texts(v).len() == v.len());
        assert forall|i: int| 0 <= i < v.len() implies (#[trigger] v[i])@ == crate::text::texts(
            v,
        )[i] by {}
    }
}

/// The limits of a launch are the four that are declared, the memory limit for swap too, and the
/// processor share is its percentage with two places.
pub proof fn launches_are_limited(
    launch: &Launch,
    limits: &Json,
    temporary: u64,
    memory: u64,
    percent: u64,
    pids: u64,
    r: Verdict<Vec<String>>,
)
    requires
        call_ensures(launch_arguments, (launch, limits), r),
        at(limits@, "temporary_bytes"@) == Tree::Integer(temporary as int),
        at(limits@, "memory_bytes"@) == Tree::Integer(memory as int),
        at(limits@, "cpu_percent"@) == Tree::Integer(percent as int),
        at(limits@, "pids"@) == Tree::Integer(pids as int),
    ensures
        r matches Ok(v) && {
            &&& v@[11]@ == "--tmpfs=/tmp:rw,size="@ + decimal(temporary as nat)
            &&& v@[17]@ == "--memory="@ + decimal(memory as nat)
            &&& v@[18]@ == "--memory-swap="@ + decimal(memory as nat)
            &&& v@[19]@ == "--cpus="@ + (decimal((percent / 100) as nat) + "."@ + seq![
                crate::text::digit((percent % 100 / 10) as nat),
                crate::text::digit((percent % 10) as nat),
            ])
            &&& v@[20]@ == "--pids-limit="@ + decimal(pids as nat)
        },
{
    let v = r->Ok_0@;
    assert(crate::text::texts(v).len() == v.len());
    assert forall|i: int| 0 <= i < v.len() implies (#[trigger] v[i])@ == crate::text::texts(
        v,
    )[i] by {}
}

/// A container identity is sixty-four hexadecimal digits between blanks, and nothing else is.
pub proof fn container_identities_are_digests(text: &str, r: Verdict<String>)
    requires
        call_ensures(container_identity, (text,), r),
    ensures
        r is Ok <==> trimmed(text@).len() == 64 && forall|i: int|
            #![trigger trimmed(text@)[i]]
            0 <= i < 64 ==> {
                let c = trimmed(text@)[i];
                ('0' <= c && c <= '9') || ('a' <= c && c <= 'f') || ('A' <= c && c <= 'F')
            },
        r matches Ok(t) ==> t@ == trimmed(text@),
        r is Err ==> violated(r, "container identity invalid"@),
{
}

/// A service is reached on the loopback address at the port behind the last colon.
pub proof fn services_are_on_loopback(published: &str, r: Verdict<String>)
    requires
        call_ensures(service_base, (published,), r),
    ensures
        r is Ok <==> unsigned(split_at_char(trimmed(published@), ':').last(), 65535) is Some,
        unsigned(split_at_char(trimmed(published@), ':').last(), 65535) matches Some(port) ==> (
        r matches Ok(t) && t@ == "http://127.0.0.1:"@ + decimal(port)),
        r is Err ==> r->Err_0 is Unobserved,
{
}

/// A service is ready where it answers with status 200, and is asked a hundred times at most.
pub proof fn readiness_is_awaited(status: Option<u16>, asked: u64, r: Verdict<bool>)
    requires
        call_ensures(ready, (status, asked), r),
    ensures
        r == Ok::<bool, Finding>(true) <==> status == Some(200u16),
        r == Ok::<bool, Finding>(false) <==> status != Some(200u16) && asked < 100,
        status != Some(200u16) && asked >= 100 ==> unobserved(
            r,
            "candidate readiness not observed"@,
        ),
{
}

/// An inspection is the first entry of the list.
pub proof fn first_inspections_are_taken(value: &Json, r: Verdict<Json>)
    requires
        call_ensures(inspected, (value,), r),
    ensures
        r is Ok <==> (value@ matches Tree::List(l) && l.len() > 0),
        r matches Ok(j) ==> j@ == value@->List_0[0],
        r is Err ==> unobserved(r, "container inspection absent"@),
{
}

/// A container is cleaned up exactly where both of its labels are those of the evaluation.
pub proof fn only_owned_containers_are_cleaned(
    state: &Json,
    platform_owner: &str,
    evaluation: &str,
    r: Verdict<()>,
)
    requires
        call_ensures(check_owner, (state, platform_owner, evaluation), r),
    ensures
        r is Ok <==> at(state@, "Config,Labels,org.milkdrift.platform"@) == Tree::Text(
            platform_owner@,
        ) && at(state@, "Config,Labels,org.milkdrift.verification"@) == Tree::Text(evaluation@),
        r is Err ==> violated(r, "verifier cleanup ownership differs"@),
{
}

/// A booking asks for the quantity, from the start to the end, under the name.
pub proof fn bookings_ask_for_their_parts(
    name: &str,
    start: &str,
    end: &str,
    quantity: u64,
    r: Json,
)
    requires
        call_ensures(booking, (name, start, end, quantity), r),
    ensures
        r@ == Tree::Object(
            map![
                "name"@ => Tree::Text(name@),
                "start"@ => Tree::Text(start@),
                "end"@ => Tree::Text(end@),
                "quantity"@ => Tree::Integer(quantity as int),
            ],
        ),
{
}

/// Availability is asked for with both ends of the interval, each as a form writes it.
pub proof fn availability_is_asked_for_an_interval(start: &str, end: &str, r: String)
    requires
        call_ensures(availability_path, (start, end), r),
    ensures
        r@ == "/availability?"@ + form_bytes(encode_utf8("start"@)) + seq!['='] + form_bytes(
            encode_utf8(start@),
        ) + seq!['&'] + form_bytes(encode_utf8("end"@)) + seq!['='] + form_bytes(
            encode_utf8(end@),
        ),
{
    let pairs = seq![("start"@, start@), ("end"@, end@)];
    assert(pairs.drop_last() =~= seq![("start"@, start@)]);
    assert(pairs.last() == ("end"@, end@));
    assert(pairs.drop_last().last() == ("start"@, start@));
    reveal_with_fuel(form_query, 3);
    assert(r@ =~= "/availability?"@ + form_bytes(encode_utf8("start"@)) + seq!['='] + form_bytes(
        encode_utf8(start@),
    ) + seq!['&'] + form_bytes(encode_utf8("end"@)) + seq!['='] + form_bytes(encode_utf8(end@)));
}

/// A form writes letters, digits and four marks as they are, a blank as a plus sign, and any other
/// byte as a percent sign and its two hexadecimal digits.
pub proof fn forms_escape_bytes(before: Seq<u8>, b: u8)
    ensures
        form_bytes(Seq::<u8>::empty()).len() == 0,
        form_bytes(before.push(b)) == form_bytes(before) + (if (0x30 <= b <= 0x39) || (0x41 <= b
            <= 0x5a) || (0x61 <= b <= 0x7a) || b == 0x2a || b == 0x2d || b == 0x2e || b == 0x5f {
            seq![b as char]
        } else if b == 0x20 {
            seq!['+']
        } else {
            let digit = |n: u8|
                if n < 10 {
                    (0x30 + n) as char
                } else {
                    (0x37 + n) as char
                };
            seq!['%', digit(b / 16), digit(b % 16)]
        }),
{
    assert(before.push(b).drop_last() =~= before);
    assert(before.push(b).last() == b);
}

/// Bookings are those of a list that comes with status 200.
pub proof fn bookings_are_listed(status: u16, body: &Json, r: Verdict<Json>)
    requires
        call_ensures(active, (status, body), r),
    ensures
        r is Ok <==> status == 200 && body@ is List,
        r matches Ok(j) ==> j@ == body@,
        r is Err ==> violated(r, "private bookings unavailable"@),
{
}

/// A booking is at the path of its identity, and has none without one.
pub proof fn bookings_are_at_their_identity(item: &Json, rendered: &str, r: Verdict<String>)
    requires
        call_ensures(path, (item, rendered), r),
    ensures
        r is Ok <==> found(item@, "id"@) is Some,
        found(item@, "id"@) matches Some(Tree::Text(id)) ==> (r matches Ok(p) && p@
            == "/reservations/"@ + id),
        r matches Ok(p) ==> (!(found(item@, "id"@)->Some_0 is Text) ==> p@ == "/reservations/"@
            + rendered@),
        r is Err ==> unobserved(r, "booking identity absent"@),
{
}

/// A fixture is cleared exactly by status 200.
pub proof fn fixtures_are_cleared(status: u16, r: Verdict<()>)
    requires
        call_ensures(cleared, (status,), r),
    ensures
        r is Ok <==> status == 200,
        r is Err ==> violated(r, "fixture cleanup refused"@),
{
}

/// What is reported of a check: that it passed, that it did not and why, or that it was not
/// observed, without the reason.
pub proof fn observations_tell_the_verdict(name: &str, result: &Verdict<()>, r: Json)
    requires
        call_ensures(observation, (name, result), r),
    ensures
        r@ is Object,
        *result is Ok ==> r@ == Tree::Object(
            map![
                "name"@ => Tree::Text(name@),
                "passed"@ => Tree::Bool(true),
                "diagnostic"@ => Tree::Text("observed declared check"@),
            ],
        ),
        *result matches Err(Finding::Violation { message }) ==> r@ == Tree::Object(
            map![
                "name"@ => Tree::Text(name@),
                "passed"@ => Tree::Bool(false),
                "diagnostic"@ => Tree::Text(message@),
            ],
        ),
        *result matches Err(Finding::Unobserved { message }) ==> r@ == Tree::Object(
            map![
                "name"@ => Tree::Text(name@),
                "passed"@ => Tree::Null,
                "diagnostic"@ => Tree::Text("declared check could not be observed"@),
            ],
        ),
{
}

/// Whether a mount puts a source at a destination without leave to write.
pub open spec fn sealed_mount(m: Tree, destination: Seq<char>, source: Seq<char>) -> bool {
    at(m, "Destination"@) == Tree::Text(destination) && at(m, "Source"@) == Tree::Text(source)
        && at(m, "RW"@) == Tree::Bool(false)
}

/// Whether exactly one of the first `n` mounts is a sealed one.
pub open spec fn sealed_once(
    mounts: Seq<Tree>,
    destination: Seq<char>,
    source: Seq<char>,
    n: int,
) -> bool {
    exists|i: int|
        0 <= i < n && sealed_mount(#[trigger] mounts[i], destination, source) && forall|j: int|
            0 <= j < n && sealed_mount(#[trigger] mounts[j], destination, source) ==> j == i
}

proof fn lemma_mounts(mounts: Seq<Tree>, destination: Seq<char>, source: Seq<char>, n: int)
    requires
        0 <= n <= mounts.len(),
    ensures
        mount_count(mounts, destination, source, n) == 0 <==> forall|i: int|
            0 <= i < n ==> !sealed_mount(#[trigger] mounts[i], destination, source),
        mount_count(mounts, destination, source, n) == 1 <==> sealed_once(
            mounts,
            destination,
            source,
            n,
        ),
    decreases n,
{
    if n > 0 {
        lemma_mounts(mounts, destination, source, n - 1);
        let m = mounts[n - 1];
        assert(mounts_read_only(m, destination, source) == sealed_mount(m, destination, source));
        let before = mount_count(mounts, destination, source, n - 1);
        if sealed_mount(m, destination, source) {
            if before == 0 {
                assert(sealed_once(mounts, destination, source, n));
            } else {
                let i = choose|i: int|
                    0 <= i < n - 1 && sealed_mount(#[trigger] mounts[i], destination, source);
                assert(sealed_mount(mounts[i], destination, source));
                assert(!sealed_once(mounts, destination, source, n));
            }
        } else {
            if before == 1 {
                let i = choose|i: int|
                    0 <= i < n - 1 && sealed_mount(#[trigger] mounts[i], destination, source)
                        && forall|j: int|
                        0 <= j < n - 1 && sealed_mount(#[trigger] mounts[j], destination, source)
                            ==> j == i;
                assert(sealed_mount(mounts[i], destination, source));
                assert(sealed_once(mounts, destination, source, n));
            }
            if sealed_once(mounts, destination, source, n) {
                let i = choose|i: int|
                    0 <= i < n && sealed_mount(#[trigger] mounts[i], destination, source)
                        && forall|j: int|
                        0 <= j < n && sealed_mount(#[trigger] mounts[j], destination, source) ==> j
                            == i;
                assert(sealed_mount(mounts[i], destination, source));
                assert(sealed_once(mounts, destination, source, n - 1));
            }
        }
    }
}

/// A deployment is accepted exactly where it runs the image on a read-only root, the candidate and
/// the configuration are each mounted once and sealed, and nothing else is mounted but the data,
/// the temporary files and what the container needs of its own.
pub proof fn deployments_are_sealed(
    state: &Json,
    image_identity: &str,
    candidate: &str,
    config: &str,
    r: Verdict<()>,
)
    requires
        call_ensures(check_deployment, (state, image_identity, candidate, config), r),
    ensures
        r is Ok <==> {
            let mounts = items(state@, "Mounts"@);
            let n = mounts.len() as int;
            &&& at(state@, "Image"@) matches Tree::Text(t) && crate::text::without_prefixes(
                t,
                "sha256:"@,
            ) == image_identity@
            &&& at(state@, "HostConfig,ReadonlyRootfs"@) == Tree::Bool(true)
            &&& at(state@, "Mounts"@) is List
            &&& sealed_once(mounts, "/candidate/app"@, candidate@, n)
            &&& sealed_once(mounts, "/config"@, config@, n)
            &&& forall|i: int|
                #![trigger mounts[i]]
                0 <= i < n ==> {
                    let d = at(mounts[i], "Destination"@);
                    ||| d == Tree::Text("/candidate/app"@)
                    ||| d == Tree::Text("/config"@)
                    ||| d == Tree::Text("/data"@)
                    ||| d == Tree::Text("/tmp"@)
                    ||| d == Tree::Text("/dev/shm"@)
                    ||| d == Tree::Text("/etc/hosts"@)
                    ||| d == Tree::Text("/etc/hostname"@)
                    ||| d == Tree::Text("/etc/resolv.conf"@)
                }
        },
{
    let mounts = items(state@, "Mounts"@);
    lemma_mounts(mounts, "/candidate/app"@, candidate@, mounts.len() as int);
    lemma_mounts(mounts, "/config"@, config@, mounts.len() as int);
}

} // verus!
