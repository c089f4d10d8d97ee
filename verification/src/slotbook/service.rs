//! The finite verifier of a Slotbook candidate: its input, its isolated service and its findings.

use vstd::prelude::*;
use vstd::string::*;
use vstd::utf8::encode_utf8;

use crate::application::joined_path;
use crate::application::under;
use crate::digest::{blake3_hex, content_digest, content_identity, identity_of};
use crate::json::{at, found, items, key_count, lemma_root, unsigned_at, Json, Tree};
use crate::text::{
    contains, contains_bytes, decimal, digit, joined, joined3, number_problem, number_text, occurs,
    parse_number, same_text, split, split_at_char, texts, trim, trim_prefixes, trimmed, unsigned,
    without_prefixes,
};

verus! {

/// Why a check gives no pass: it was refuted, or it could not be observed.
#[derive(Debug)]
pub enum Finding {
    Violation { message: String },
    Unobserved { message: String },
}

pub type Verdict<T> = Result<T, Finding>;

pub enum FindingView {
    Violation { message: Seq<char> },
    Unobserved { message: Seq<char> },
}

pub open spec fn finding_view(f: Finding) -> FindingView {
    match f {
        Finding::Violation { message } => FindingView::Violation { message: message@ },
        Finding::Unobserved { message } => FindingView::Unobserved { message: message@ },
    }
}

pub open spec fn violated<T>(r: Verdict<T>, message: Seq<char>) -> bool {
    r matches Err(Finding::Violation { message: m }) && m@ == message
}

pub open spec fn unobserved<T>(r: Verdict<T>, message: Seq<char>) -> bool {
    r matches Err(Finding::Unobserved { message: m }) && m@ == message
}

fn violation(message: &str) -> (r: Finding)
    ensures
        finding_view(r) == (FindingView::Violation { message: message@ }),
{
    Finding::Violation { message: message.to_owned() }
}

fn unseen(message: &str) -> (r: Finding)
    ensures
        finding_view(r) == (FindingView::Unobserved { message: message@ }),
{
    Finding::Unobserved { message: message.to_owned() }
}

/// A check that refutes the candidate where it does not hold.
pub fn require(condition: bool, message: &str) -> (r: Verdict<()>)
    ensures
        condition ==> r is Ok,
        !condition ==> violated(r, message@),
{
    if condition {
        Ok(())
    } else {
        Err(violation(message))
    }
}

/// The longest verifier input, in bytes.
pub const MAX_INPUT_BYTES: u64 = 65_536;

/// The longest candidate response, in bytes.
pub const MAX_RESPONSE_BYTES: u64 = 16_384;

/// The longest container observation, in bytes.
pub const MAX_OBSERVATION_BYTES: u64 = 1_048_576;

/// Whether the verifier takes an input of which one byte more than the bound was read at most.
pub fn accept_input(size: u64) -> (r: Verdict<()>)
    ensures
        size <= MAX_INPUT_BYTES ==> r is Ok,
        size > MAX_INPUT_BYTES ==> violated(r, "verifier input exceeds bound"@),
{
    require(size <= MAX_INPUT_BYTES, "verifier input exceeds bound")
}

/// Whether the verifier speaks a specification's contract.
pub fn check_contract(schema_version: u32, required_checks: u64) -> (r: Verdict<()>)
    ensures
        schema_version == 2 && required_checks <= 32 ==> r is Ok,
        !(schema_version == 2 && required_checks <= 32) ==> violated(
            r,
            "unsupported verifier contract"@,
        ),
{
    require(schema_version == 2 && required_checks <= 32, "unsupported verifier contract")
}

/// The subject of a verification: the candidate's digest and size, and how many bytes to read of
/// it at most.
#[derive(Debug)]
pub struct Subject {
    pub digest: String,
    pub size: u64,
    pub read_bound: u64,
}

/// The subject that a specification names.
pub fn candidate_subject(subject: &Json) -> (r: Verdict<Subject>)
    ensures
        match (
            found(subject@, "artifact"@),
            at(subject@, "artifact,digest"@),
            unsigned_at(subject@, "artifact,size_bytes"@),
        ) {
            (None, _, _) => unobserved(r, "candidate subject absent"@),
            (Some(_), Tree::Text(digest), Some(size)) => if size == u64::MAX {
                unobserved(r, "candidate size overflows"@)
            } else {
                r matches Ok(s) && s.digest@ == digest && s.size == size && s.read_bound == size
                    + 1
            },
            (Some(_), Tree::Text(_), None) => unobserved(r, "candidate size absent"@),
            (Some(_), _, _) => unobserved(r, "candidate digest absent"@),
        },
{
    if subject.find("artifact").is_none() {
        return Err(unseen("candidate subject absent"));
    }
    let digest: String = match subject.text_at("artifact,digest") {
        Some(t) => t,
        None => {
            return Err(unseen("candidate digest absent"));
        },
    };
    let size: u64 = match subject.number_at("artifact,size_bytes") {
        Some(n) => n,
        None => {
            return Err(unseen("candidate size absent"));
        },
    };
    if size == u64::MAX {
        return Err(unseen("candidate size overflows"));
    }
    Ok(Subject { digest, size, read_bound: size + 1 })
}

/// Whether a digest names some bytes, with or without the identity's prefix.
pub open spec fn names_bytes(digest: Seq<char>, bytes: Seq<u8>) -> bool {
    digest == identity_of(bytes) || digest == blake3_hex(bytes)
}

/// Whether the candidate is the subject: the bytes that were read of it have the subject's size
/// and its digest.
pub fn check_candidate(bytes: &[u8], subject: &Subject) -> (r: Verdict<()>)
    ensures
        if bytes@.len() != subject.size {
            violated(r, "candidate size differs from subject"@)
        } else if !names_bytes(subject.digest@, bytes@) {
            violated(r, "candidate bytes differ from subject"@)
        } else {
            r is Ok
        },
{
    require(bytes.len() as u64 == subject.size, "candidate size differs from subject")?;
    let identity: String = content_identity(bytes);
    let digest: String = content_digest(bytes);
    require(
        same_text(identity.as_str(), subject.digest.as_str()) || same_text(
            digest.as_str(),
            subject.digest.as_str(),
        ),
        "candidate bytes differ from subject",
    )
}

/// The service credential in a token file's text: 1 to 1024 bytes without surrounding space.
pub fn service_token(text: &str) -> (r: Verdict<String>)
    ensures
        ({
            let size = vstd::utf8::encode_utf8(trimmed(text@)).len();
            if 0 < size <= 1024 {
                r matches Ok(t) && t@ == trimmed(text@)
            } else {
                violated(r, "invalid verifier credential"@)
            }
        }),
{
    let token: String = trim(text);
    let size: usize = token.as_str().as_bytes().len();
    require(size > 0 && size <= 1024, "invalid verifier credential")?;
    Ok(token)
}

/// Whether the verifier keeps an answer of the candidate: it is bounded and does not disclose the
/// service credential.
pub fn accept_response(bytes: &[u8], token: &str) -> (r: Verdict<()>)
    ensures
        if bytes@.len() > MAX_RESPONSE_BYTES {
            violated(r, "candidate response exceeds bound"@)
        } else if occurs(bytes@, vstd::utf8::encode_utf8(token@)) {
            violated(r, "candidate disclosed service credential"@)
        } else {
            r is Ok
        },
{
    require(bytes.len() as u64 <= MAX_RESPONSE_BYTES, "candidate response exceeds bound")?;
    require(
        !contains_bytes(bytes, token.as_bytes()),
        "candidate disclosed service credential",
    )
}

/// What a container command's end tells.
pub fn container_output(succeeded: bool, size: u64) -> (r: Verdict<()>)
    ensures
        if !succeeded {
            unobserved(r, "container observation unavailable"@)
        } else if size > MAX_OBSERVATION_BYTES {
            violated(r, "container observation exceeds bound"@)
        } else {
            r is Ok
        },
{
    if !succeeded {
        return Err(unseen("container observation unavailable"));
    }
    require(size <= MAX_OBSERVATION_BYTES, "container observation exceeds bound")
}

/// What the isolated container of a candidate is launched with.
#[derive(Debug)]
pub struct Launch {
    pub container: String,
    pub directory: String,
    pub evaluation: String,
    pub platform_owner: String,
    pub candidate: String,
    pub image: String,
}

/// The processor share of a limit in percent.
pub open spec fn cpu_share(percent: u64) -> Seq<char> {
    decimal((percent / 100) as nat) + "."@ + seq![
        digit((percent % 100 / 10) as nat),
        digit((percent % 10) as nat),
    ]
}

fn cpu_text(percent: u64) -> (r: String)
    ensures
        r@ == cpu_share(percent),
{
    let rest: u64 = percent % 100;
    let tail: String = if rest < 10 {
        joined("0", number_text(rest).as_str())
    } else {
        number_text(rest)
    };
    proof {
        reveal_with_fuel(decimal, 3);
        reveal_strlit("0");
        assert(tail@ =~= seq![
            digit((percent % 100 / 10) as nat),
            digit((percent % 10) as nat),
        ]);
    }
    joined3(number_text(percent / 100).as_str(), ".", tail.as_str())
}

/// The container limits that a launch reads, in the order in which it reads them.
pub open spec fn limits_of(limits: Tree) -> Option<(u64, u64, u64, u64)> {
    match (
        unsigned_at(limits, "temporary_bytes"@),
        unsigned_at(limits, "memory_bytes"@),
        unsigned_at(limits, "cpu_percent"@),
        unsigned_at(limits, "pids"@),
    ) {
        (Some(t), Some(m), Some(c), Some(p)) => Some((t, m, c, p)),
        _ => None,
    }
}

/// The command line that launches a candidate: detached, read-only, without capabilities, with
/// its own user namespace and bounded in memory, processor share and processes.
pub open spec fn launch_words(
    container: Seq<char>,
    directory: Seq<char>,
    evaluation: Seq<char>,
    platform_owner: Seq<char>,
    candidate: Seq<char>,
    image: Seq<char>,
    limits: (u64, u64, u64, u64),
) -> Seq<Seq<char>> {
    seq![
        "run"@,
        "--detach"@,
        "--pull=never"@,
        "--replace=false"@,
        "--name="@ + container,
        "--cidfile="@ + under(directory, "container.cid"@),
        "--label=org.milkdrift.verification="@ + evaluation,
        "--label=org.milkdrift.platform="@ + platform_owner,
        "--log-driver=none"@,
        "--read-only"@,
        "--read-only-tmpfs=false"@,
        "--tmpfs=/tmp:rw,size="@ + decimal(limits.0 as nat),
        "--cap-drop=all"@,
        "--security-opt=no-new-privileges"@,
        "--userns=auto:size=65536"@,
        "--network=pasta:--no-map-gw"@,
        "--publish=127.0.0.1::8080"@,
        "--memory="@ + decimal(limits.1 as nat),
        "--memory-swap="@ + decimal(limits.1 as nat),
        "--cpus="@ + cpu_share(limits.2),
        "--pids-limit="@ + decimal(limits.3 as nat),
        "--volume="@ + candidate + ":/candidate/app:ro"@,
        "--volume="@ + under(directory, "config"@) + ":/config:ro"@,
        "--volume="@ + under(directory, "data"@) + ":/data:U"@,
        "--entrypoint=/candidate/app"@,
        image,
    ]
}

fn limit(limits: &Json, name: &str) -> (r: Verdict<u64>)
    ensures
        match unsigned_at(limits@, name@) {
            Some(n) => r == Ok::<u64, Finding>(n),
            None => unobserved(r, "container limit absent"@),
        },
{
    match limits.number_at(name) {
        Some(n) => Ok(n),
        None => Err(unseen("container limit absent")),
    }
}

pub fn launch_arguments(launch: &Launch, limits: &Json) -> (r: Verdict<Vec<String>>)
    ensures
        match limits_of(limits@) {
            None => unobserved(r, "container limit absent"@),
            Some(l) => r matches Ok(v) && texts(v@) == launch_words(
                launch.container@,
                launch.directory@,
                launch.evaluation@,
                launch.platform_owner@,
                launch.candidate@,
                launch.image@,
                l,
            ),
        },
{
    let temporary: u64 = limit(limits, "temporary_bytes")?;
    let memory: u64 = limit(limits, "memory_bytes")?;
    let cpu: u64 = limit(limits, "cpu_percent")?;
    let pids: u64 = limit(limits, "pids")?;
    let directory: &str = launch.directory.as_str();
    let memory_text: String = number_text(memory);
    let v: Vec<String> = vec![
        "run".to_owned(),
        "--detach".to_owned(),
        "--pull=never".to_owned(),
        "--replace=false".to_owned(),
        joined("--name=", launch.container.as_str()),
        joined("--cidfile=", joined_path(directory, "container.cid").as_str()),
        joined("--label=org.milkdrift.verification=", launch.evaluation.as_str()),
        joined("--label=org.milkdrift.platform=", launch.platform_owner.as_str()),
        "--log-driver=none".to_owned(),
        "--read-only".to_owned(),
        "--read-only-tmpfs=false".to_owned(),
        joined("--tmpfs=/tmp:rw,size=", number_text(temporary).as_str()),
        "--cap-drop=all".to_owned(),
        "--security-opt=no-new-privileges".to_owned(),
        "--userns=auto:size=65536".to_owned(),
        "--network=pasta:--no-map-gw".to_owned(),
        "--publish=127.0.0.1::8080".to_owned(),
        joined("--memory=", memory_text.as_str()),
        joined("--memory-swap=", memory_text.as_str()),
        joined("--cpus=", cpu_text(cpu).as_str()),
        joined("--pids-limit=", number_text(pids).as_str()),
        joined3("--volume=", launch.candidate.as_str(), ":/candidate/app:ro"),
        joined3("--volume=", joined_path(directory, "config").as_str(), ":/config:ro"),
        joined3("--volume=", joined_path(directory, "data").as_str(), ":/data:U"),
        "--entrypoint=/candidate/app".to_owned(),
        launch.image.as_str().to_owned(),
    ];
    proof {
        assert(texts(v@) =~= launch_words(
            launch.container@,
            launch.directory@,
            launch.evaluation@,
            launch.platform_owner@,
            launch.candidate@,
            launch.image@,
            limits_of(limits@)->Some_0,
        ));
    }
    Ok(v)
}

pub open spec fn is_hex(c: char) -> bool {
    ('0' <= c && c <= '9') || ('a' <= c && c <= 'f') || ('A' <= c && c <= 'F')
}

/// A container identity: 64 hexadecimal digits.
pub open spec fn identifies_container(t: Seq<char>) -> bool {
    t.len() == 64 && forall|i: int| 0 <= i < t.len() ==> is_hex(#[trigger] t[i])
}

/// The identity of the launched container, as its file records it.
pub fn container_identity(text: &str) -> (r: Verdict<String>)
    ensures
        if identifies_container(trimmed(text@)) {
            r matches Ok(t) && t@ == trimmed(text@)
        } else {
            violated(r, "container identity invalid"@)
        },
{
    let identity: String = trim(text);
    let chars: Vec<char> = crate::text::chars_of(identity.as_str());
    let mut fine: bool = chars.len() == 64;
    let mut i: usize = 0;
    while i < chars.len()
        invariant
            i <= chars.len(),
            chars@ == identity@,
            fine == (identity@.len() == 64 && forall|j: int|
                0 <= j < i ==> is_hex(#[trigger] identity@[j])),
        decreases chars.len() - i,
    {
        let c: char = chars[i];
        fine = fine && (('0' <= c && c <= '9') || ('a' <= c && c <= 'f') || ('A' <= c && c <= 'F'));
        i = i + 1;
    }
    require(fine, "container identity invalid")?;
    Ok(identity)
}

/// The base address of the launched service, from the published port that the container reports.
pub fn service_base(published: &str) -> (r: Verdict<String>)
    ensures
        ({
            let text = split_at_char(trimmed(published@), ':').last();
            match unsigned(text, u16::MAX as nat) {
                Some(port) => r matches Ok(base) && base@ == "http://127.0.0.1:"@ + decimal(port),
                None => unobserved(r, number_problem(text, u16::MAX as nat)),
            }
        }),
{
    let parts: Vec<String> = split(trim(published).as_str(), ':');
    proof {
        crate::text::lemma_position(trimmed(published@), ':', 0);
        assert(texts(parts@).len() > 0);
        assert(texts(parts@).last() == parts@[parts@.len() - 1]@);
    }
    match parse_number(parts[parts.len() - 1].as_str(), u16::MAX as u64) {
        Ok(port) => Ok(joined("http://127.0.0.1:", number_text(port).as_str())),
        Err(reason) => Err(unseen(reason)),
    }
}

/// How often readiness is asked for at most.
pub const READY_ATTEMPTS: u64 = 100;

/// What an answer to the readiness request leads to, after `asked` requests. The status is absent
/// where the request failed.
pub fn ready(status: Option<u16>, asked: u64) -> (r: Verdict<bool>)
    ensures
        if status == Some(200u16) {
            r == Ok::<bool, Finding>(true)
        } else if asked < READY_ATTEMPTS {
            r == Ok::<bool, Finding>(false)
        } else {
            unobserved(r, "candidate readiness not observed"@)
        },
{
    match status {
        Some(200) => Ok(true),
        _ => if asked < READY_ATTEMPTS {
            Ok(false)
        } else {
            Err(unseen("candidate readiness not observed"))
        },
    }
}

/// The first document of a container inspection.
pub fn inspected(value: &Json) -> (r: Verdict<Json>)
    ensures
        match value@ {
            Tree::List(l) => if l.len() > 0 {
                r matches Ok(j) && j@ == l[0]
            } else {
                unobserved(r, "container inspection absent"@)
            },
            _ => unobserved(r, "container inspection absent"@),
        },
{
    match value {
        Json::List(v) => {
            proof {
                crate::json::lemma_trees(v@);
            }
            if v.len() > 0 {
                Ok(v[0].copy())
            } else {
                Err(unseen("container inspection absent"))
            }
        },
        _ => Err(unseen("container inspection absent")),
    }
}

/// Whether the verifier owns a container that it is about to remove.
pub fn check_owner(state: &Json, platform_owner: &str, evaluation: &str) -> (r: Verdict<()>)
    ensures
        ({
            let owned = at(state@, "Config,Labels,org.milkdrift.platform"@) == Tree::Text(
                platform_owner@,
            ) && at(state@, "Config,Labels,org.milkdrift.verification"@) == Tree::Text(evaluation@);
            &&& owned ==> r is Ok
            &&& !owned ==> violated(r, "verifier cleanup ownership differs"@)
        }),
{
    require(
        state.is_text("Config,Labels,org.milkdrift.platform", platform_owner) && state.is_text(
            "Config,Labels,org.milkdrift.verification",
            evaluation,
        ),
        "verifier cleanup ownership differs",
    )
}

/// The body of a booking request.
pub fn booking(name: &str, start: &str, end: &str, quantity: u64) -> (r: Json)
    ensures
        r@ == Tree::Object(
            map![
                "name"@ => Tree::Text(name@),
                "start"@ => Tree::Text(start@),
                "end"@ => Tree::Text(end@),
                "quantity"@ => Tree::Integer(quantity as int),
            ],
        ),
{
    let r: Json = Json::object().with("name", Json::text(name)).with(
        "start",
        Json::text(start),
    ).with("end", Json::text(end)).with("quantity", Json::number(quantity));
    proof {
        assert(r@->Object_0 =~= map![
            "name"@ => Tree::Text(name@),
            "start"@ => Tree::Text(start@),
            "end"@ => Tree::Text(end@),
            "quantity"@ => Tree::Integer(quantity as int),
        ]);
    }
    r
}

/// The names and values of a form.
pub open spec fn pair_views(pairs: Seq<(String, String)>) -> Seq<(Seq<char>, Seq<char>)> {
    pairs.map_values(|p: (String, String)| (p.0@, p.1@))
}

/// Whether the form encoding keeps a byte: a letter, a digit or one of four marks.
pub open spec fn form_keeps(b: u8) -> bool {
    ||| 0x30 <= b <= 0x39
    ||| 0x41 <= b <= 0x5a
    ||| 0x61 <= b <= 0x7a
    ||| b == 0x2a
    ||| b == 0x2d
    ||| b == 0x2e
    ||| b == 0x5f
}

/// One of the sixteen digits, in upper case.
pub open spec fn hex_digit(n: u8) -> char {
    if n < 10 {
        (0x30 + n) as char
    } else {
        (0x37 + n) as char
    }
}

/// One byte in the form encoding: kept, a blank as a plus sign, or percent-encoded.
pub open spec fn form_byte(b: u8) -> Seq<char> {
    if form_keeps(b) {
        seq![b as char]
    } else if b == 0x20 {
        seq!['+']
    } else {
        seq!['%', hex_digit(b / 16), hex_digit(b % 16)]
    }
}

/// Some bytes in the form encoding.
pub open spec fn form_bytes(bytes: Seq<u8>) -> Seq<char>
    decreases bytes.len(),
{
    if bytes.len() == 0 {
        seq![]
    } else {
        form_bytes(bytes.drop_last()) + form_byte(bytes.last())
    }
}

/// Some names and values in the form encoding: `name=value`, each by its bytes, with an ampersand
/// between two pairs.
pub open spec fn form_query(pairs: Seq<(Seq<char>, Seq<char>)>) -> Seq<char>
    decreases pairs.len(),
{
    if pairs.len() == 0 {
        seq![]
    } else {
        let (name, value) = pairs.last();
        let before = if pairs.len() == 1 {
            seq![]
        } else {
            form_query(pairs.drop_last()) + seq!['&']
        };
        before + form_bytes(encode_utf8(name)) + seq!['='] + form_bytes(encode_utf8(value))
    }
}

/// Calls `url::form_urlencoded::Serializer::extend_pairs` on an empty text, and `finish`. It
/// writes each pair as its name, an equals sign and its value, with an ampersand before every pair
/// but the first. Of the bytes of a name or a value it keeps letters, digits and the marks `*`,
/// `-`, `.` and `_`; it writes a blank as a plus sign and every other byte as a percent sign and
/// two digits.
#[verifier::external_body]
fn form_encoded(pairs: &Vec<(String, String)>) -> (r: String)
    ensures
        r@ == form_query(pair_views(pairs@)),
{
    url::form_urlencoded::Serializer::new(String::new()).extend_pairs(pairs).finish()
}

/// The path that asks for the remaining capacity of an interval.
pub fn availability_path(start: &str, end: &str) -> (r: String)
    ensures
        r@ == "/availability?"@ + form_query(seq![("start"@, start@), ("end"@, end@)]),
{
    let mut pairs: Vec<(String, String)> = Vec::new();
    pairs.push(("start".to_owned(), start.to_owned()));
    pairs.push(("end".to_owned(), end.to_owned()));
    proof {
        assert(pair_views(pairs@) =~= seq![("start"@, start@), ("end"@, end@)]);
    }
    joined("/availability?", form_encoded(&pairs).as_str())
}

/// An availability answer states exactly the asked resource and interval.
pub open spec fn states_availability(
    status: u16,
    body: Tree,
    resource: Tree,
    start: Seq<char>,
    end: Seq<char>,
) -> bool {
    &&& status == 200
    &&& body is Object && key_count(body) == 4
    &&& at(body, "resource"@) == resource
    &&& at(body, "start"@) == Tree::Text(start)
    &&& at(body, "end"@) == Tree::Text(end)
}

/// The remaining capacity that a public answer states. `rendered` is the answer as text.
pub fn remaining(
    status: u16,
    body: &Json,
    rendered: &str,
    resource: &Json,
    start: &str,
    end: &str,
) -> (r: Verdict<u64>)
    ensures
        if !states_availability(status, body@, resource@, start@, end@) {
            violated(r, "availability contract differs"@)
        } else if occurs(rendered@, "Ada"@) || occurs(rendered@, "Bo"@) {
            violated(r, "public response disclosed private names"@)
        } else {
            match unsigned_at(body@, "remaining"@) {
                Some(n) => r == Ok::<u64, Finding>(n),
                None => unobserved(r, "remaining capacity absent"@),
            }
        },
{
    proof {
        lemma_root(body@);
        lemma_root(resource@);
    }
    require(
        status == 200 && body.is_object("") && body.keys("") == 4 && body.agrees(
            "resource",
            resource,
            "",
        ) && body.is_text("start", start) && body.is_text("end", end),
        "availability contract differs",
    )?;
    require(
        !contains(rendered, "Ada") && !contains(rendered, "Bo"),
        "public response disclosed private names",
    )?;
    match body.number_at("remaining") {
        Some(n) => Ok(n),
        None => Err(unseen("remaining capacity absent")),
    }
}

/// A capacity is taken only from an answer with status 200 and exactly four fields, whose
/// resource, start and end are the very ones that were asked for, that discloses no name, and that
/// states this number; an answer for anything else is a violation.
pub proof fn capacity_is_of_what_was_asked(
    status: u16,
    body: &Json,
    rendered: &str,
    resource: &Json,
    start: &str,
    end: &str,
    r: Verdict<u64>,
)
    requires
        call_ensures(remaining, (status, body, rendered, resource, start, end), r),
    ensures
        r matches Ok(n) ==> {
            &&& status == 200
            &&& body@ matches Tree::Object(m) && m.dom().len() == 4
            &&& at(body@, "resource"@) == resource@
            &&& at(body@, "start"@) == Tree::Text(start@)
            &&& at(body@, "end"@) == Tree::Text(end@)
            &&& at(body@, "remaining"@) == Tree::Integer(n as int)
            &&& !occurs(rendered@, "Ada"@) && !occurs(rendered@, "Bo"@)
        },
        status != 200 ==> violated(r, "availability contract differs"@),
        !(body@ is Object) ==> violated(r, "availability contract differs"@),
        body@ matches Tree::Object(m) && m.dom().len() != 4 ==> violated(
            r,
            "availability contract differs"@,
        ),
        at(body@, "resource"@) != resource@ ==> violated(r, "availability contract differs"@),
        at(body@, "start"@) != Tree::Text(start@) ==> violated(
            r,
            "availability contract differs"@,
        ),
        at(body@, "end"@) != Tree::Text(end@) ==> violated(r, "availability contract differs"@),
        ({
            &&& status == 200
            &&& body@ matches Tree::Object(m) && m.dom().len() == 4
            &&& at(body@, "resource"@) == resource@
            &&& at(body@, "start"@) == Tree::Text(start@)
            &&& at(body@, "end"@) == Tree::Text(end@)
            &&& !occurs(rendered@, "Ada"@) && !occurs(rendered@, "Bo"@)
        }) ==> (at(body@, "remaining"@) matches Tree::Integer(n) ==> (0 <= n <= u64::MAX ==> r == Ok::<
            u64,
            Finding,
        >(n as u64))),
{
}

/// The bookings that a private answer lists.
pub fn active(status: u16, body: &Json) -> (r: Verdict<Json>)
    ensures
        if status == 200 && body@ is List {
            r matches Ok(l) && l@ == body@
        } else {
            violated(r, "private bookings unavailable"@)
        },
{
    proof {
        lemma_root(body@);
    }
    require(status == 200 && body.is_list(""), "private bookings unavailable")?;
    Ok(body.copy())
}

/// The path of a booking: its identity as text, or as it is rendered where it is no text.
pub fn path(item: &Json, rendered: &str) -> (r: Verdict<String>)
    ensures
        match found(item@, "id"@) {
            None => unobserved(r, "booking identity absent"@),
            Some(Tree::Text(id)) => r matches Ok(p) && p@ == "/reservations/"@ + id,
            Some(_) => r matches Ok(p) && p@ == "/reservations/"@ + rendered@,
        },
{
    match item.find("id") {
        None => Err(unseen("booking identity absent")),
        Some(Json::Text(id)) => Ok(joined("/reservations/", id.as_str())),
        Some(_) => Ok(joined("/reservations/", rendered)),
    }
}

/// Whether a booking that the verifier clears was cancelled.
pub fn cleared(status: u16) -> (r: Verdict<()>)
    ensures
        status == 200 ==> r is Ok,
        status != 200 ==> violated(r, "fixture cleanup refused"@),
{
    require(status == 200, "fixture cleanup refused")
}

/// A read-only mount of exactly this source.
pub open spec fn mounts_read_only(m: Tree, destination: Seq<char>, source: Seq<char>) -> bool {
    &&& at(m, "Destination"@) == Tree::Text(destination)
    &&& at(m, "Source"@) == Tree::Text(source)
    &&& at(m, "RW"@) == Tree::Bool(false)
}

/// How many of the first `n` mounts are such a mount.
pub open spec fn mount_count(
    mounts: Seq<Tree>,
    destination: Seq<char>,
    source: Seq<char>,
    n: int,
) -> nat
    decreases n,
{
    if n <= 0 {
        0
    } else {
        mount_count(mounts, destination, source, n - 1) + if mounts_read_only(
            mounts[n - 1],
            destination,
            source,
        ) {
            1nat
        } else {
            0nat
        }
    }
}

/// A mount that a candidate may have.
pub open spec fn expected_mount(m: Tree) -> bool {
    at(m, "Destination"@) matches Tree::Text(t) && (t == "/candidate/app"@ || t == "/config"@ || t
        == "/data"@ || t == "/tmp"@ || t == "/dev/shm"@ || t == "/etc/hosts"@ || t
        == "/etc/hostname"@ || t == "/etc/resolv.conf"@)
}

/// The deployment runs exactly the declared image, with a read-only root.
pub open spec fn runs_image(state: Tree, image_identity: Seq<char>) -> bool {
    &&& at(state, "Image"@) matches Tree::Text(t) && without_prefixes(t, "sha256:"@)
        == image_identity
    &&& at(state, "HostConfig,ReadonlyRootfs"@) == Tree::Bool(true)
}

fn count_mounts(state: &Json, destination: &str, source: &str) -> (r: usize)
    ensures
        r == mount_count(
            items(state@, "Mounts"@),
            destination@,
            source@,
            items(state@, "Mounts"@).len() as int,
        ),
{
    let n: usize = state.count("Mounts");
    let ghost mounts = items(state@, "Mounts"@);
    let mut count: usize = 0;
    let mut i: usize = 0;
    while i < n
        invariant
            i <= n,
            n == mounts.len(),
            mounts == items(state@, "Mounts"@),
            count <= i,
            count == mount_count(mounts, destination@, source@, i as int),
        decreases n - i,
    {
        let m: &Json = state.item("Mounts", i);
        if m.is_text("Destination", destination) && m.is_text("Source", source) && m.is_flag(
            "RW",
            false,
        ) {
            count = count + 1;
        }
        i = i + 1;
    }
    count
}

fn expected(m: &Json) -> (r: bool)
    ensures
        r == expected_mount(m@),
{
    match m.text_at("Destination") {
        Some(t) => {
            let d: &str = t.as_str();
            same_text(d, "/candidate/app") || same_text(d, "/config") || same_text(d, "/data")
                || same_text(d, "/tmp") || same_text(d, "/dev/shm") || same_text(d, "/etc/hosts")
                || same_text(d, "/etc/hostname") || same_text(d, "/etc/resolv.conf")
        },
        None => false,
    }
}

/// Whether the candidate runs as declared: the exact image behind a read-only root, exactly one
/// read-only mount of the candidate and of its configuration, and no unexpected mount.
pub fn check_deployment(
    state: &Json,
    image_identity: &str,
    candidate: &str,
    config: &str,
) -> (r: Verdict<()>)
    ensures
        ({
            let mounts = items(state@, "Mounts"@);
            if !runs_image(state@, image_identity@) {
                violated(r, "candidate image or root protection differs"@)
            } else if !(at(state@, "Mounts"@) is List) {
                unobserved(r, "mounts absent"@)
            } else if mount_count(mounts, "/candidate/app"@, candidate@, mounts.len() as int) != 1
                || mount_count(mounts, "/config"@, config@, mounts.len() as int) != 1 {
                violated(r, "candidate/config mount differs"@)
            } else if exists|i: int|
                #![trigger mounts[i]]
                0 <= i < mounts.len() && !expected_mount(mounts[i]) {
                violated(r, "unexpected candidate mount"@)
            } else {
                r is Ok
            }
        }),
{
    let right_image: bool = match state.text_at("Image") {
        Some(t) => same_text(trim_prefixes(t.as_str(), "sha256:").as_str(), image_identity),
        None => false,
    };
    require(
        right_image && state.is_flag("HostConfig,ReadonlyRootfs", true),
        "candidate image or root protection differs",
    )?;
    if !state.is_list("Mounts") {
        return Err(unseen("mounts absent"));
    }
    require(
        count_mounts(state, "/candidate/app", candidate) == 1,
        "candidate/config mount differs",
    )?;
    require(count_mounts(state, "/config", config) == 1, "candidate/config mount differs")?;
    let n: usize = state.count("Mounts");
    let ghost mounts = items(state@, "Mounts"@);
    let mut i: usize = 0;
    while i < n
        invariant
            i <= n,
            n == mounts.len(),
            mounts == items(state@, "Mounts"@),
            runs_image(state@, image_identity@),
            at(state@, "Mounts"@) is List,
            mount_count(mounts, "/candidate/app"@, candidate@, mounts.len() as int) == 1,
            mount_count(mounts, "/config"@, config@, mounts.len() as int) == 1,
            forall|j: int| 0 <= j < i ==> expected_mount(#[trigger] mounts[j]),
        decreases n - i,
    {
        let m: &Json = state.item("Mounts", i);
        if !expected(m) {
            proof {
                assert(!expected_mount(mounts[i as int]));
            }
            return Err(violation("unexpected candidate mount"));
        }
        i = i + 1;
    }
    Ok(())
}

pub open spec fn verdict_view(r: Verdict<()>) -> Option<FindingView> {
    match r {
        Ok(_) => None,
        Err(f) => Some(finding_view(f)),
    }
}

/// What a check's end is reported as: a pass, a refutation with its reason, or nothing observed.
pub open spec fn observation_of(name: Seq<char>, finding: Option<FindingView>) -> Tree {
    let (passed, diagnostic) = match finding {
        None => (Tree::Bool(true), "observed declared check"@),
        Some(FindingView::Violation { message }) => (Tree::Bool(false), message),
        Some(FindingView::Unobserved { message }) => (
            Tree::Null,
            "declared check could not be observed"@,
        ),
    };
    Tree::Object(
        map![
            "name"@ => Tree::Text(name),
            "passed"@ => passed,
            "diagnostic"@ => Tree::Text(diagnostic),
        ],
    )
}

pub fn observation(name: &str, result: &Verdict<()>) -> (r: Json)
    ensures
        r@ == observation_of(name@, verdict_view(*result)),
{
    let (passed, diagnostic): (Json, String) = match result {
        Ok(_) => (Json::Bool(true), "observed declared check".to_owned()),
        Err(Finding::Violation { message }) => (Json::Bool(false), message.as_str().to_owned()),
        Err(Finding::Unobserved { message: _ }) => (
            Json::Null,
            "declared check could not be observed".to_owned(),
        ),
    };
    let r: Json = Json::object().with("name", Json::text(name)).with("passed", passed).with(
        "diagnostic",
        Json::Text(diagnostic),
    );
    proof {
        assert(r@->Object_0 =~= observation_of(name@, verdict_view(*result))->Object_0);
    }
    r
}

/// Only a check that was observed and held is reported as passed.
pub proof fn passes_are_observed(name: Seq<char>, finding: Option<FindingView>)
    ensures
        observation_of(name, finding)->Object_0["passed"@] == Tree::Bool(true) <==> finding is None,
{
    reveal_strlit("name");
    reveal_strlit("passed");
    reveal_strlit("diagnostic");
    assert("diagnostic"@.len() != "passed"@.len());
    assert("name"@.len() != "passed"@.len());
}

} // verus!
