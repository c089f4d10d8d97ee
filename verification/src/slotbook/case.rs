//! Operator-owned cases of the maintained application. Neither a candidate nor its worker supplies
//! expected responses: the protected application configuration selects a case.

use vstd::prelude::*;

use crate::failure::{failed, failure, Checked};
use crate::json::{at, found, unsigned_at, Json, Tree};
use crate::text::same_text;

verus! {

/// One declared case: the capacity, the booked quantity and the instants that its checks use.
#[derive(Clone, Copy, Debug)]
pub struct Case {
    pub capacity: u64,
    pub quantity: u32,
    pub start: &'static str,
    pub end: &'static str,
    pub overlap: &'static str,
    pub adjacent_end: &'static str,
    pub before: &'static str,
    pub cutoff: &'static str,
}

pub struct CaseView {
    pub capacity: u64,
    pub quantity: u32,
    pub start: Seq<char>,
    pub end: Seq<char>,
    pub overlap: Seq<char>,
    pub adjacent_end: Seq<char>,
    pub before: Seq<char>,
    pub cutoff: Seq<char>,
}

impl View for Case {
    type V = CaseView;

    open spec fn view(&self) -> CaseView {
        CaseView {
            capacity: self.capacity,
            quantity: self.quantity,
            start: self.start@,
            end: self.end@,
            overlap: self.overlap@,
            adjacent_end: self.adjacent_end@,
            before: self.before@,
            cutoff: self.cutoff@,
        }
    }
}

/// The declared cases, by resource, capacity and cancellation notice in seconds.
pub open spec fn case_of(resource: Seq<char>, capacity: u64, notice: u64) -> Option<CaseView> {
    if resource == "pottery"@ && capacity == 2 && notice == 0 {
        Some(
            CaseView {
                capacity,
                quantity: 1,
                start: "2027-04-10T10:00:00Z"@,
                end: "2027-04-10T11:00:00Z"@,
                overlap: "2027-04-10T10:30:00Z"@,
                adjacent_end: "2027-04-10T12:00:00Z"@,
                before: "2027-04-10T09:59:00Z"@,
                cutoff: "2027-04-10T10:00:00Z"@,
            },
        )
    } else if resource == "camera"@ && capacity == 1 && notice == 0 {
        Some(
            CaseView {
                capacity,
                quantity: 1,
                start: "2027-05-03T09:00:00Z"@,
                end: "2027-05-03T12:00:00Z"@,
                overlap: "2027-05-03T11:00:00Z"@,
                adjacent_end: "2027-05-03T13:00:00Z"@,
                before: "2027-05-03T08:59:00Z"@,
                cutoff: "2027-05-03T09:00:00Z"@,
            },
        )
    } else if resource == "tripod"@ && capacity == 2 && notice == 3600 {
        Some(
            CaseView {
                capacity,
                quantity: 2,
                start: "2027-05-04T09:00:00Z"@,
                end: "2027-05-04T12:00:00Z"@,
                overlap: "2027-05-04T11:00:00Z"@,
                adjacent_end: "2027-05-04T13:00:00Z"@,
                before: "2027-05-04T07:59:00Z"@,
                cutoff: "2027-05-04T08:00:00Z"@,
            },
        )
    } else if resource == "yoga"@ && capacity == 4 && notice == 7200 {
        Some(
            CaseView {
                capacity,
                quantity: 2,
                start: "2027-06-08T17:00:00Z"@,
                end: "2027-06-08T18:00:00Z"@,
                overlap: "2027-06-08T17:30:00Z"@,
                adjacent_end: "2027-06-08T19:00:00Z"@,
                before: "2027-06-08T14:59:00Z"@,
                cutoff: "2027-06-08T15:00:00Z"@,
            },
        )
    } else if resource == "ceramics"@ && capacity == 6 && notice == 86400 {
        Some(
            CaseView {
                capacity,
                quantity: 3,
                start: "2027-06-09T18:00:00Z"@,
                end: "2027-06-09T20:00:00Z"@,
                overlap: "2027-06-09T19:00:00Z"@,
                adjacent_end: "2027-06-09T21:00:00Z"@,
                before: "2027-06-08T17:59:00Z"@,
                cutoff: "2027-06-08T18:00:00Z"@,
            },
        )
    } else {
        None
    }
}

/// The case that an application configuration selects, or why it selects none.
pub open spec fn selected(value: Tree) -> Result<CaseView, Seq<char>> {
    match (at(value, "resource"@), unsigned_at(value, "capacity"@)) {
        (Tree::Text(resource), Some(capacity)) => {
            let notice = match found(value, "cancellation_notice_seconds"@) {
                None => Some(0u64),
                Some(_) => unsigned_at(value, "cancellation_notice_seconds"@),
            };
            match notice {
                None => Err("invalid cancellation notice"@),
                Some(n) => match case_of(resource, capacity, n) {
                    Some(c) => Ok(c),
                    None => Err(
                        "application configuration is outside the declared Slotbook cases"@,
                    ),
                },
            }
        },
        (Tree::Text(_), None) => Err("capacity absent"@),
        _ => Err("resource absent"@),
    }
}

impl Case {
    pub fn from_application(value: &Json) -> (r: Checked<Case>)
        ensures
            match selected(value@) {
                Ok(c) => r matches Ok(case) && case@ == c,
                Err(message) => failed(r, message),
            },
    {
        let resource: String = match value.text_at("resource") {
            Some(t) => t,
            None => {
                return Err(failure("resource absent"));
            },
        };
        let capacity: u64 = match value.number_at("capacity") {
            Some(n) => n,
            None => {
                return Err(failure("capacity absent"));
            },
        };
        let notice: u64 = match value.find("cancellation_notice_seconds") {
            None => 0,
            Some(_) => match value.number_at("cancellation_notice_seconds") {
                Some(n) => n,
                None => {
                    return Err(failure("invalid cancellation notice"));
                },
            },
        };
        let name: &str = resource.as_str();
        if same_text(name, "pottery") && capacity == 2 && notice == 0 {
            return Ok(
                Case {
                    capacity,
                    quantity: 1,
                    start: "2027-04-10T10:00:00Z",
                    end: "2027-04-10T11:00:00Z",
                    overlap: "2027-04-10T10:30:00Z",
                    adjacent_end: "2027-04-10T12:00:00Z",
                    before: "2027-04-10T09:59:00Z",
                    cutoff: "2027-04-10T10:00:00Z",
                },
            );
        }
        if same_text(name, "camera") && capacity == 1 && notice == 0 {
            return Ok(
                Case {
                    capacity,
                    quantity: 1,
                    start: "2027-05-03T09:00:00Z",
                    end: "2027-05-03T12:00:00Z",
                    overlap: "2027-05-03T11:00:00Z",
                    adjacent_end: "2027-05-03T13:00:00Z",
                    before: "2027-05-03T08:59:00Z",
                    cutoff: "2027-05-03T09:00:00Z",
                },
            );
        }
        if same_text(name, "tripod") && capacity == 2 && notice == 3600 {
            return Ok(
                Case {
                    capacity,
                    quantity: 2,
                    start: "2027-05-04T09:00:00Z",
                    end: "2027-05-04T12:00:00Z",
                    overlap: "2027-05-04T11:00:00Z",
                    adjacent_end: "2027-05-04T13:00:00Z",
                    before: "2027-05-04T07:59:00Z",
                    cutoff: "2027-05-04T08:00:00Z",
                },
            );
        }
        if same_text(name, "yoga") && capacity == 4 && notice == 7200 {
            return Ok(
                Case {
                    capacity,
                    quantity: 2,
                    start: "2027-06-08T17:00:00Z",
                    end: "2027-06-08T18:00:00Z",
                    overlap: "2027-06-08T17:30:00Z",
                    adjacent_end: "2027-06-08T19:00:00Z",
                    before: "2027-06-08T14:59:00Z",
                    cutoff: "2027-06-08T15:00:00Z",
                },
            );
        }
        if same_text(name, "ceramics") && capacity == 6 && notice == 86400 {
            return Ok(
                Case {
                    capacity,
                    quantity: 3,
                    start: "2027-06-09T18:00:00Z",
                    end: "2027-06-09T20:00:00Z",
                    overlap: "2027-06-09T19:00:00Z",
                    adjacent_end: "2027-06-09T21:00:00Z",
                    before: "2027-06-08T17:59:00Z",
                    cutoff: "2027-06-08T18:00:00Z",
                },
            );
        }
        Err(failure("application configuration is outside the declared Slotbook cases"))
    }
}

/// The number of two decimal digits.
pub open spec fn two_digits(s: Seq<char>, i: int) -> int {
    (s[i] as int - '0' as int) * 10 + (s[i + 1] as int - '0' as int)
}

/// The seconds of an instant since the start of its month, written `YYYY-MM-DDTHH:MM:SSZ`.
pub open spec fn month_seconds(s: Seq<char>) -> int {
    (two_digits(s, 8) * 86400 + two_digits(s, 11) * 3600) + (two_digits(s, 14) * 60 + two_digits(
        s,
        17,
    ))
}

/// Whether two instants lie in the same month.
pub open spec fn same_month(a: Seq<char>, b: Seq<char>) -> bool {
    a.len() == 20 && b.len() == 20 && a.take(7) == b.take(7)
}

/// Every declared case keeps its notice: its cutoff lies exactly the notice before its start, its
/// last free instant a minute before the cutoff, its overlap inside the booked interval and its adjacent
/// booking behind it, and its quantity fits its capacity.
pub proof fn cases_keep_their_notice(resource: Seq<char>, capacity: u64, notice: u64)
    requires
        case_of(resource, capacity, notice) is Some,
    ensures
        ({
            let c = case_of(resource, capacity, notice)->Some_0;
            &&& same_month(c.cutoff, c.start) && same_month(c.before, c.start)
            &&& same_month(c.overlap, c.start) && same_month(c.end, c.start) && same_month(
                c.adjacent_end,
                c.start,
            )
            &&& month_seconds(c.cutoff) + notice == month_seconds(c.start)
            &&& month_seconds(c.before) + 60 == month_seconds(c.cutoff)
            &&& month_seconds(c.start) < month_seconds(c.overlap) < month_seconds(c.end)
                < month_seconds(c.adjacent_end)
            &&& 0 < c.quantity <= capacity
        }),
{
    let c = case_of(resource, capacity, notice)->Some_0;
    if resource == "pottery"@ && capacity == 2 && notice == 0 {
        reveal_strlit("2027-04-10T10:00:00Z");
        reveal_strlit("2027-04-10T11:00:00Z");
        reveal_strlit("2027-04-10T10:30:00Z");
        reveal_strlit("2027-04-10T12:00:00Z");
        reveal_strlit("2027-04-10T09:59:00Z");
    } else if resource == "camera"@ && capacity == 1 && notice == 0 {
        reveal_strlit("2027-05-03T09:00:00Z");
        reveal_strlit("2027-05-03T12:00:00Z");
        reveal_strlit("2027-05-03T11:00:00Z");
        reveal_strlit("2027-05-03T13:00:00Z");
        reveal_strlit("2027-05-03T08:59:00Z");
    } else if resource == "tripod"@ && capacity == 2 && notice == 3600 {
        reveal_strlit("2027-05-04T09:00:00Z");
        reveal_strlit("2027-05-04T12:00:00Z");
        reveal_strlit("2027-05-04T11:00:00Z");
        reveal_strlit("2027-05-04T13:00:00Z");
        reveal_strlit("2027-05-04T07:59:00Z");
        reveal_strlit("2027-05-04T08:00:00Z");
    } else if resource == "yoga"@ && capacity == 4 && notice == 7200 {
        reveal_strlit("2027-06-08T17:00:00Z");
        reveal_strlit("2027-06-08T18:00:00Z");
        reveal_strlit("2027-06-08T17:30:00Z");
        reveal_strlit("2027-06-08T19:00:00Z");
        reveal_strlit("2027-06-08T14:59:00Z");
        reveal_strlit("2027-06-08T15:00:00Z");
    } else {
        reveal_strlit("2027-06-09T18:00:00Z");
        reveal_strlit("2027-06-09T20:00:00Z");
        reveal_strlit("2027-06-09T19:00:00Z");
        reveal_strlit("2027-06-09T21:00:00Z");
        reveal_strlit("2027-06-08T17:59:00Z");
        reveal_strlit("2027-06-08T18:00:00Z");
    }
    assert(c.cutoff.take(7) =~= c.start.take(7));
    assert(c.before.take(7) =~= c.start.take(7));
    assert(c.overlap.take(7) =~= c.start.take(7));
    assert(c.end.take(7) =~= c.start.take(7));
    assert(c.adjacent_end.take(7) =~= c.start.take(7));
}

} // verus!
