//! Bounded observation of a followed run timeline.

use vstd::prelude::*;

use crate::failure::{ensure, failed, failure, Checked, Failure};
use crate::json::{at, Json, Tree};
use crate::text::joined;

verus! {

/// The longest line that a follower accepts, in bytes.
pub const MAX_LINE_BYTES: u64 = 131_072;

/// The structural witnesses that a follower keeps of a stream.
#[derive(Clone, Copy, Debug, PartialEq, Eq, Structural)]
pub struct Observations {
    /// The bounded initial page was seen.
    pub page: bool,
    /// An update was seen since the last reconnection.
    pub update: bool,
}

impl Default for Observations {
    fn default() -> (r: Observations)
        ensures
            r == (Observations { page: false, update: false }),
    {
        Observations { page: false, update: false }
    }
}

/// One line of a stream: how many bytes it has, and its document or why it is none.
#[derive(Debug)]
pub struct StreamLine {
    pub size: u64,
    pub document: Result<Json, String>,
}

pub struct LineView {
    pub size: u64,
    pub document: Result<Tree, Seq<char>>,
}

impl View for StreamLine {
    type V = LineView;

    open spec fn view(&self) -> LineView {
        LineView {
            size: self.size,
            document: match self.document {
                Ok(j) => Ok(j@),
                Err(e) => Err(e@),
            },
        }
    }
}

/// A document that announces a reconnection.
pub open spec fn reconnecting(v: Tree) -> bool {
    &&& at(v, "type"@) == Tree::Text("run.timeline"@)
    &&& at(v, "status"@) == Tree::Text("reconnecting"@)
    &&& at(v, "final"@) == Tree::Bool(false)
    &&& at(v, "error,retryable"@) == Tree::Bool(true)
}

/// A document that reports an update of the run.
pub open spec fn updating(v: Tree) -> bool {
    let kind = at(v, "value,observation,type"@);
    kind == Tree::Text("timeline"@) || kind == Tree::Text("run_status"@)
}

pub open spec fn text_or(v: Tree, path: Seq<char>, other: Seq<char>) -> Seq<char> {
    match at(v, path) {
        Tree::Text(t) => t,
        _ => other,
    }
}

/// The witnesses after one line and whether it was the initial page, or why the line is refused.
pub open spec fn observed_line(o: Observations, line: LineView) -> Result<
    (Observations, bool),
    Seq<char>,
> {
    if line.size > MAX_LINE_BYTES {
        Err("timeline line exceeds bound"@)
    } else {
        match line.document {
            Err(e) => Err(e),
            Ok(v) => if reconnecting(v) {
                Ok((Observations { update: false, ..o }, false))
            } else if at(v, "status"@) != Tree::Text("success"@) || at(v, "error"@) != Tree::Null {
                Err(
                    "timeline CLI reported "@ + text_or(v, "status"@, "missing status"@) + (": "@
                        + text_or(v, "error,classification"@, "missing classification"@)),
                )
            } else if at(v, "type"@) == Tree::Text("run.timeline"@) && !o.page {
                Ok((Observations { page: true, ..o }, true))
            } else if at(v, "type"@) == Tree::Text("run.observation"@) {
                if updating(v) {
                    Ok((Observations { update: true, ..o }, false))
                } else {
                    Err("run observation requires resynchronization or closed"@)
                }
            } else {
                Err("unexpected timeline document"@)
            },
        }
    }
}

/// The witnesses of the first `n` lines of a stream.
pub open spec fn observed(lines: Seq<LineView>, n: int) -> Result<Observations, Seq<char>>
    decreases n,
{
    if n <= 0 {
        Ok(Observations { page: false, update: false })
    } else {
        match observed(lines, n - 1) {
            Err(e) => Err(e),
            Ok(o) => match observed_line(o, lines[n - 1]) {
                Err(e) => Err(e),
                Ok((next, _)) => Ok(next),
            },
        }
    }
}

fn text_at_or(v: &Json, path: &str, other: &str) -> (r: String)
    ensures
        r@ == text_or(v@, path@, other@),
{
    match v.text_at(path) {
        Some(t) => t,
        None => other.to_owned(),
    }
}

impl Observations {
    /// What one more line of the stream shows. The flag tells that the initial page arrived.
    pub fn observe_line(&mut self, line: &StreamLine) -> (r: Checked<bool>)
        ensures
            match observed_line(*old(self), line@) {
                Ok((next, ready)) => r == Ok::<bool, Failure>(ready) && *final(self) == next,
                Err(message) => failed(r, message) && *final(self) == *old(self),
            },
    {
        ensure(line.size <= MAX_LINE_BYTES, "timeline line exceeds bound")?;
        let v: &Json = match &line.document {
            Err(e) => {
                return Err(failure(e.as_str()));
            },
            Ok(v) => v,
        };
        if v.is_text("type", "run.timeline") && v.is_text("status", "reconnecting") && v.is_flag(
            "final",
            false,
        ) && v.is_flag("error,retryable", true) {
            self.update = false;
            return Ok(false);
        }
        if !v.is_text("status", "success") || !v.is_null("error") {
            let head: String = joined(
                "timeline CLI reported ",
                text_at_or(v, "status", "missing status").as_str(),
            );
            let tail: String = joined(
                ": ",
                text_at_or(v, "error,classification", "missing classification").as_str(),
            );
            return Err(failure(joined(head.as_str(), tail.as_str()).as_str()));
        }
        if v.is_text("type", "run.timeline") && !self.page {
            self.page = true;
            return Ok(true);
        }
        if v.is_text("type", "run.observation") {
            ensure(
                v.is_text("value,observation,type", "timeline") || v.is_text(
                    "value,observation,type",
                    "run_status",
                ),
                "run observation requires resynchronization or closed",
            )?;
            self.update = true;
            return Ok(false);
        }
        Err(failure("unexpected timeline document"))
    }

    /// Whether a follower that ended has seen both its page and a later update.
    pub fn finish(&self) -> (r: Checked<()>)
        ensures
            r is Ok <==> self.page && self.update,
            r is Err ==> failed(
                r,
                "timeline follow did not expose both its bounded page and resumed observations"@,
            ),
    {
        ensure(
            self.page && self.update,
            "timeline follow did not expose both its bounded page and resumed observations",
        )
    }
}

pub open spec fn line_views(v: Seq<StreamLine>) -> Seq<LineView> {
    v.map_values(|l: StreamLine| l@)
}

/// What a whole stream shows: every line counts, up to the first that is refused.
pub fn observe(lines: &Vec<StreamLine>) -> (r: Checked<Observations>)
    ensures
        match observed(line_views(lines@), lines@.len() as int) {
            Ok(o) => r == Ok::<Observations, Failure>(o),
            Err(message) => failed(r, message),
        },
{
    let mut seen: Observations = Observations { page: false, update: false };
    let ghost all = line_views(lines@);
    let mut i: usize = 0;
    while i < lines.len()
        invariant
            i <= lines.len(),
            all == line_views(lines@),
            observed(all, i as int) == Ok::<Observations, Seq<char>>(seen),
        decreases lines.len() - i,
    {
        proof {
            assert(all[i as int] == lines@[i as int]@);
        }
        match seen.observe_line(&lines[i]) {
            Ok(_) => {},
            Err(f) => {
                proof {
                    lemma_refusal_stays(all, i + 1, all.len() as int);
                }
                return Err(f);
            },
        }
        i = i + 1;
    }
    Ok(seen)
}

proof fn lemma_refusal_stays(lines: Seq<LineView>, m: int, n: int)
    requires
        0 <= m <= n,
        observed(lines, m) is Err,
    ensures
        observed(lines, n) == observed(lines, m),
    decreases n - m,
{
    if m < n {
        lemma_refusal_stays(lines, m, n - 1);
    }
}

/// A reconnection forgets earlier updates: whatever came before it, only an observation that
/// follows it shows the run again, and the initial page is never forgotten.
pub proof fn reconnection_requires_a_later_observation(lines: Seq<LineView>, reconnect: LineView)
    requires
        observed(lines, lines.len() as int) is Ok,
        reconnect.size <= MAX_LINE_BYTES,
        reconnect.document matches Ok(v) && reconnecting(v),
    ensures
        ({
            let before = observed(lines, lines.len() as int)->Ok_0;
            observed(lines.push(reconnect), lines.len() as int + 1) == Ok::<Observations, Seq<char>>(
                Observations { page: before.page, update: false },
            )
        }),
{
    lemma_prefix(lines, reconnect, lines.len() as int);
}

proof fn lemma_prefix(lines: Seq<LineView>, more: LineView, n: int)
    requires
        0 <= n <= lines.len(),
    ensures
        observed(lines.push(more), n) == observed(lines, n),
    decreases n,
{
    if n > 0 {
        lemma_prefix(lines, more, n - 1);
        assert(lines.push(more)[n - 1] == lines[n - 1]);
    }
}

/// A stream is read through its last line: one refused line refuses every longer stream.
pub proof fn refusals_are_not_outlived(lines: Seq<LineView>, n: int)
    requires
        0 <= n <= lines.len(),
        observed(lines, n) is Err,
    ensures
        observed(lines, lines.len() as int) == observed(lines, n),
{
    lemma_refusal_stays(lines, n, lines.len() as int);
}

/// A stream that was accepted goes on with one more bounded line. A successful observation without
/// an error is accepted where it is of the type `timeline` or of the type `run_status`, and shows
/// an update; any other type is refused. The initial page is accepted once, a retryable
/// reconnection forgets the update, and everything else is refused.
pub proof fn streams_go_on(
    before: &Vec<StreamLine>,
    o: Observations,
    after: &Vec<StreamLine>,
    r: Checked<Observations>,
    line: LineView,
    v: Tree,
)
    requires
        call_ensures(observe, (before,), Ok(o)),
        call_ensures(observe, (after,), r),
        after@.len() == before@.len() + 1,
        forall|i: int| 0 <= i < before@.len() ==> (#[trigger] after@[i])@ == before@[i]@,
        after@[before@.len() as int]@ == line,
        line.document == Ok::<Tree, Seq<char>>(v),
    ensures
        line.size > 131_072 ==> failed(r, "timeline line exceeds bound"@),
        line.size <= 131_072 && at(v, "status"@) == Tree::Text("success"@) && at(v, "error"@)
            == Tree::Null && at(v, "type"@) == Tree::Text("run.observation"@) ==> {
            let kind = at(v, "value,observation,type"@);
            &&& kind == Tree::Text("timeline"@) || kind == Tree::Text("run_status"@) ==> r == Ok::<
                Observations,
                Failure,
            >(Observations { page: o.page, update: true })
            &&& kind != Tree::Text("timeline"@) && kind != Tree::Text("run_status"@) ==> failed(
                r,
                "run observation requires resynchronization or closed"@,
            )
        },
        line.size <= 131_072 && at(v, "status"@) == Tree::Text("success"@) && at(v, "error"@)
            == Tree::Null && at(v, "type"@) == Tree::Text("run.timeline"@) ==> {
            &&& !o.page ==> r == Ok::<Observations, Failure>(
                Observations { page: true, update: o.update },
            )
            &&& o.page ==> failed(r, "unexpected timeline document"@)
        },
        line.size <= 131_072 && at(v, "status"@) == Tree::Text("success"@) && at(v, "error"@)
            == Tree::Null && at(v, "type"@) != Tree::Text("run.observation"@) && at(v, "type"@)
            != Tree::Text("run.timeline"@) ==> failed(r, "unexpected timeline document"@),
        line.size <= 131_072 && at(v, "status"@) == Tree::Text("reconnecting"@) && at(v, "type"@)
            == Tree::Text("run.timeline"@) && at(v, "final"@) == Tree::Bool(false) && at(
            v,
            "error,retryable"@,
        ) == Tree::Bool(true) ==> r == Ok::<Observations, Failure>(
            Observations { page: o.page, update: false },
        ),
        at(v, "status"@) != Tree::Text("success"@) && !(at(v, "status"@) == Tree::Text(
            "reconnecting"@,
        ) && at(v, "type"@) == Tree::Text("run.timeline"@) && at(v, "final"@) == Tree::Bool(false)
            && at(v, "error,retryable"@) == Tree::Bool(true)) ==> r is Err,
        at(v, "status"@) == Tree::Text("success"@) && at(v, "error"@) != Tree::Null ==> r is Err,
{
    reveal_strlit("success");
    reveal_strlit("reconnecting");
    assert("success"@.len() != "reconnecting"@.len());
    reveal_strlit("run.timeline");
    reveal_strlit("run.observation");
    assert("run.timeline"@.len() != "run.observation"@.len());
    let a = line_views(before@);
    let b = line_views(after@);
    assert(b =~= a.push(line));
    lemma_prefix(a, line, a.len() as int);
}

/// An empty stream shows nothing, and a line that is no document refuses its stream with the
/// reason.
pub proof fn streams_start_empty(lines: &Vec<StreamLine>, r: Checked<Observations>)
    requires
        call_ensures(observe, (lines,), r),
    ensures
        lines@.len() == 0 ==> r == Ok::<Observations, Failure>(
            Observations { page: false, update: false },
        ),
        forall|i: int|
            0 <= i < lines@.len() && ((#[trigger] lines@[i]).size > 131_072 || lines@[i].document
                is Err) ==> r is Err,
{
    let all = line_views(lines@);
    assert forall|i: int|
        0 <= i < lines@.len() && ((#[trigger] lines@[i]).size > 131_072 || lines@[i].document
            is Err) implies r is Err by {
        assert(all[i] == lines@[i]@);
        assert(observed(all, i + 1) is Err);
        lemma_refusal_stays(all, i + 1, all.len() as int);
    }
}

/// One more line is judged of itself and of whether the page was seen: a follower that looks at the
/// lines one by one sees what the whole stream shows.
pub proof fn observations_are_accepted(o: Observations, line: LineView, v: Tree)
    requires
        line.size <= 131_072,
        line.document == Ok::<Tree, Seq<char>>(v),
        at(v, "status"@) == Tree::Text("success"@),
        at(v, "error"@) == Tree::Null,
        at(v, "type"@) == Tree::Text("run.observation"@),
    ensures
        at(v, "value,observation,type"@) == Tree::Text("timeline"@) || at(
            v,
            "value,observation,type"@,
        ) == Tree::Text("run_status"@) ==> observed_line(o, line) == Ok::<
            (Observations, bool),
            Seq<char>,
        >((Observations { page: o.page, update: true }, false)),
        at(v, "value,observation,type"@) != Tree::Text("timeline"@) && at(
            v,
            "value,observation,type"@,
        ) != Tree::Text("run_status"@) ==> observed_line(o, line) is Err,
{
    reveal_strlit("success");
    reveal_strlit("reconnecting");
    assert("success"@.len() != "reconnecting"@.len());
    reveal_strlit("run.timeline");
    reveal_strlit("run.observation");
    assert("run.timeline"@.len() != "run.observation"@.len());
}

/// A follower that ended is complete exactly where both the page and a later update were seen.
pub proof fn followers_end_with_both(o: &Observations, r: Checked<()>)
    requires
        call_ensures(Observations::finish, (o,), r),
    ensures
        r is Ok <==> o.page && o.update,
        !o.page || !o.update ==> failed(
            r,
            "timeline follow did not expose both its bounded page and resumed observations"@,
        ),
{
}

} // verus!
