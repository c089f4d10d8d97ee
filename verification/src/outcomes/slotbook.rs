//! What finished checks and qualifications of the Slotbook method have shown.

use vstd::prelude::*;

use crate::findings::{
    beginnings_pass, elements_filled, elements_with, endings_pass, every_element, follows_by_one,
    is_check, items_of, lemma_apart, lemma_elements, lemma_four_words, lemma_one_digit,
    lemma_one_word, lemma_three_digits, lemma_three_words, lemma_two_words, lemma_under, said,
    saw_contains, saw_differs, saw_each, saw_empty, saw_false, saw_follows, saw_is, saw_isnot,
    saw_len, saw_matching, saw_matching_filled, saw_nonempty, saw_null, saw_num, saw_same, saw_true,
    stays, stays_beside, stays_through, text_has, touches, unchanged, was_awaited, was_kept,
    was_made, was_put, was_said, was_worded,
};
use crate::json::{at, lemma_single_segment, segments, Tree};
use crate::makers::{
    made_active, made_availability_path, made_booking_path, made_failed_checks, made_finishing_edge,
    made_first_booking, made_forged_checks, made_linked_runs, made_method_mutations,
    made_peer_capability, made_remaining, made_rendered, made_repair_mutations, makes_active,
    makes_availability_path, makes_booking_path, makes_failed_checks, makes_finishing_edge,
    makes_first_booking, makes_forged_checks, makes_forged_inputs, makes_linked_runs,
    makes_method_mutations, makes_outer_mutations, makes_outer_peer_task, makes_outer_task,
    makes_peer_capability, makes_peer_origin_config, makes_peer_provider_config,
    makes_peer_relationship, makes_publication_config, makes_published_descriptor,
    makes_published_method, makes_remaining, makes_rendered, makes_repair_mutations,
    makes_repair_proposal, makes_seed_inputs, makes_slotbook_policy,
    makes_slotbook_protected_recipe, makes_slotbook_requirement, makes_slotbook_scope,
    makes_slotbook_session_config, makes_slotbook_worker_recipe,
};
use crate::record::{finished, finished_scenarios_are_recorded, passed};
use crate::scenario::{arguments, document_of, number_of, parts};
use crate::scripts::documents::{
    FORGED_INPUTS, OUTER_MUTATIONS, OUTER_PEER_TASK, OUTER_TASK, PEER_ORIGIN_CONFIG,
    PEER_PROVIDER_CONFIG, PEER_RELATIONSHIP, PUBLICATION_CONFIG, PUBLISHED_DESCRIPTOR,
    PUBLISHED_METHOD, REPAIR_PROPOSAL, SEED_INPUTS, SLOTBOOK_POLICY, SLOTBOOK_PROTECTED_RECIPE,
    SLOTBOOK_REQUIREMENT, SLOTBOOK_SCOPE, SLOTBOOK_SESSION_CONFIG, SLOTBOOK_WORKER_RECIPE,
};
use crate::scripts::slotbook::{
    AUTHENTICATED_MUTATION, CANCELLATION_POLICY, CAPACITY_AND_INTERVALS, DURABLE_BOOKINGS,
    PUBLIC_AVAILABILITY, QUALIFY_COMPLETED, QUALIFY_DIRECT, QUALIFY_HANDOFF, QUALIFY_LINK,
    QUALIFY_NO_DEPLOYMENT, QUALIFY_OPEN, QUALIFY_OUTER_RESULT, QUALIFY_PEER, QUALIFY_PUBLISH,
    QUALIFY_RENEWED, QUALIFY_REPAIR, QUALIFY_SERVED, QUALIFY_WORKFLOW, SESSION_PEER, SESSION_PLAIN,
    SESSION_PUBLISHED, SLOTBOOK_PREPARE, SLOTBOOK_SESSION,
};
use crate::slotbook::qualification::failed_names;

verus! {

proof fn lemma_availability_was_observed(known: Tree, answers: Seq<(Tree, bool)>, record: Seq<Tree>)
    requires
        passed(PUBLIC_AVAILABILITY@, known, answers, record),
    ensures
        made_remaining(said(record, 4), at(known, "resource"@), Tree::Text("2027-04-10T10:00:00Z"@), Tree::Text("2027-04-10T11:00:00Z"@)) is Ok
            && at(
                made_remaining(said(record, 4), at(known, "resource"@), Tree::Text("2027-04-10T10:00:00Z"@), Tree::Text("2027-04-10T11:00:00Z"@))->Ok_0,
                "count"@,
            )
                == Tree::Integer(2),
        at(said(record, 9), "status"@) == Tree::Integer(201),
        made_remaining(said(record, 14), at(known, "resource"@), Tree::Text("2027-04-10T10:00:00Z"@), Tree::Text("2027-04-10T11:00:00Z"@)) is Ok
            && at(
                made_remaining(said(record, 14), at(known, "resource"@), Tree::Text("2027-04-10T10:00:00Z"@), Tree::Text("2027-04-10T11:00:00Z"@))->Ok_0,
                "count"@,
            )
                == Tree::Integer(1),
        made_availability_path(
            Tree::Text("2027-04-10T10:00:00Z"@),
            Tree::Text("2027-04-10T11:00:00Z"@),
        )
            == Ok::<Tree, Seq<char>>(at(record[4], "query"@)),
        made_availability_path(
            Tree::Text("2027-04-10T10:00:00Z"@),
            Tree::Text("2027-04-10T11:00:00Z"@),
        )
            == Ok::<Tree, Seq<char>>(at(record[14], "query"@)),
{
    let l = PUBLIC_AVAILABILITY@;
    reveal_strlit("2");
    reveal_strlit("left");
    reveal_strlit("reply");
    reveal_strlit("remaining seen resource =2027-04-10T10:00:00Z =2027-04-10T11:00:00Z");
    reveal_strlit("remaining");
    reveal_strlit("seen resource =2027-04-10T10:00:00Z =2027-04-10T11:00:00Z");
    reveal_strlit("seen");
    reveal_strlit("resource =2027-04-10T10:00:00Z =2027-04-10T11:00:00Z");
    reveal_strlit("resource");
    reveal_strlit("=2027-04-10T10:00:00Z =2027-04-10T11:00:00Z");
    reveal_strlit("=2027-04-10T10:00:00Z");
    reveal_strlit("=2027-04-10T11:00:00Z");
    reveal_strlit("");
    reveal_strlit("cleared");
    reveal_strlit("query");
    reveal_strlit("2027-04-10T10:00:00Z");
    reveal_strlit("2027-04-10T11:00:00Z");
    reveal_strlit("count");
    reveal_strlit("left,count");
    reveal_strlit("201");
    reveal_strlit("answer");
    reveal_strlit("status");
    reveal_strlit("answer,status");
    reveal_strlit("1");
    reveal_strlit("availability-path =2027-04-10T10:00:00Z =2027-04-10T11:00:00Z");
    reveal_strlit("availability-path");
    lemma_one_digit("2"@);
    assert(number_of("2"@) == Some(2u64));
    assert("left"@.len() == 4);
    assert("reply"@.len() == 5);
    assert(
        "=2027-04-10T10:00:00Z =2027-04-10T11:00:00Z"@
            =~= "=2027-04-10T10:00:00Z"@ + seq![' '] + "=2027-04-10T11:00:00Z"@
    );
    lemma_two_words(
        "=2027-04-10T10:00:00Z"@,
        "=2027-04-10T11:00:00Z"@,
        "=2027-04-10T10:00:00Z =2027-04-10T11:00:00Z"@,
    );
    assert(
        "resource =2027-04-10T10:00:00Z =2027-04-10T11:00:00Z"@
            =~= "resource"@ + seq![' '] + "=2027-04-10T10:00:00Z =2027-04-10T11:00:00Z"@
    );
    lemma_four_words(
        "resource"@,
        "=2027-04-10T10:00:00Z =2027-04-10T11:00:00Z"@,
        "resource =2027-04-10T10:00:00Z =2027-04-10T11:00:00Z"@,
    );
    assert(
        "seen resource =2027-04-10T10:00:00Z =2027-04-10T11:00:00Z"@
            =~= "seen"@ + seq![' '] + "resource =2027-04-10T10:00:00Z =2027-04-10T11:00:00Z"@
    );
    lemma_four_words(
        "seen"@,
        "resource =2027-04-10T10:00:00Z =2027-04-10T11:00:00Z"@,
        "seen resource =2027-04-10T10:00:00Z =2027-04-10T11:00:00Z"@,
    );
    assert(
        "remaining seen resource =2027-04-10T10:00:00Z =2027-04-10T11:00:00Z"@
            =~= "remaining"@ + seq![' '] + "seen resource =2027-04-10T10:00:00Z =2027-04-10T11:00:00Z"@
    );
    lemma_four_words(
        "remaining"@,
        "seen resource =2027-04-10T10:00:00Z =2027-04-10T11:00:00Z"@,
        "remaining seen resource =2027-04-10T10:00:00Z =2027-04-10T11:00:00Z"@,
    );
    assert(
        parts("remaining seen resource =2027-04-10T10:00:00Z =2027-04-10T11:00:00Z"@)
            =~= seq![
                "remaining"@,
                "seen"@,
                "resource"@,
                "=2027-04-10T10:00:00Z"@,
                "=2027-04-10T11:00:00Z"@,
            ]
    );
    assert("seen"@.len() == 4);
    assert("resource"@.len() == 8);
    lemma_apart(""@, "resource"@, 0);
    lemma_apart("cleared"@, "resource"@, 0);
    lemma_apart("query"@, "resource"@, 0);
    lemma_apart("seen"@, "resource"@, 0);
    assert("=2027-04-10T10:00:00Z"@.len() == 21);
    assert("=2027-04-10T10:00:00Z"@.skip(1) =~= "2027-04-10T10:00:00Z"@);
    assert("=2027-04-10T11:00:00Z"@.len() == 21);
    assert("=2027-04-10T11:00:00Z"@.skip(1) =~= "2027-04-10T11:00:00Z"@);
    assert(
        parts("remaining seen resource =2027-04-10T10:00:00Z =2027-04-10T11:00:00Z"@).skip(1)
            =~= seq!["seen"@, "resource"@, "=2027-04-10T10:00:00Z"@, "=2027-04-10T11:00:00Z"@]
    );
    assert("left,count"@ =~= "left"@ + seq![','] + "count"@);
    lemma_three_digits("201"@);
    assert(number_of("201"@) == Some(201u64));
    assert("answer"@.len() == 6);
    assert("answer,status"@ =~= "answer"@ + seq![','] + "status"@);
    lemma_one_digit("1"@);
    assert(number_of("1"@) == Some(1u64));
    lemma_apart("left"@, "resource"@, 0);
    lemma_apart("answer"@, "resource"@, 0);
    assert(
        "availability-path =2027-04-10T10:00:00Z =2027-04-10T11:00:00Z"@
            =~= "availability-path"@ + seq![' '] + "=2027-04-10T10:00:00Z =2027-04-10T11:00:00Z"@
    );
    lemma_four_words(
        "availability-path"@,
        "=2027-04-10T10:00:00Z =2027-04-10T11:00:00Z"@,
        "availability-path =2027-04-10T10:00:00Z =2027-04-10T11:00:00Z"@,
    );
    assert(
        parts("availability-path =2027-04-10T10:00:00Z =2027-04-10T11:00:00Z"@)
            =~= seq!["availability-path"@, "=2027-04-10T10:00:00Z"@, "=2027-04-10T11:00:00Z"@]
    );
    assert(
        parts("availability-path =2027-04-10T10:00:00Z =2027-04-10T11:00:00Z"@).skip(1)
            =~= seq!["=2027-04-10T10:00:00Z"@, "=2027-04-10T11:00:00Z"@]
    );
    assert(made_remaining(said(record, 4), at(known, "resource"@), Tree::Text("2027-04-10T10:00:00Z"@), Tree::Text("2027-04-10T11:00:00Z"@)) is Ok
            && at(
                made_remaining(said(record, 4), at(known, "resource"@), Tree::Text("2027-04-10T10:00:00Z"@), Tree::Text("2027-04-10T11:00:00Z"@))->Ok_0,
                "count"@,
            )
                == Tree::Integer(2)) by {
        was_made(l, known, answers, record, 6);
        was_said(l, known, answers, record, 5);
        assert(forall|j: int|
            0 <= j < 6 ==> is_check((#[trigger] l[j]).0@) || !touches(l[j].1@, "resource"@));
        stays_through(l, known, answers, record, 0, 6, "resource"@);
        let args6 = arguments(
            parts("remaining seen resource =2027-04-10T10:00:00Z =2027-04-10T11:00:00Z"@).skip(1),
            record[6],
        );
        assert(
            args6
                =~= seq![
                    said(record, 4),
                    at(known, "resource"@),
                    Tree::Text("2027-04-10T10:00:00Z"@),
                    Tree::Text("2027-04-10T11:00:00Z"@),
                ]
        );
        makes_remaining(args6, record[6]);
        unchanged(l, known, answers, record, 7);
        lemma_under(record[8], "left"@, "count"@, "left,count"@);
        saw_num(l, known, answers, record, 8, 2);
    }
    assert(at(said(record, 9), "status"@) == Tree::Integer(201)) by {
        was_said(l, known, answers, record, 10);
        unchanged(l, known, answers, record, 11);
        lemma_under(record[12], "answer"@, "status"@, "answer,status"@);
        saw_num(l, known, answers, record, 12, 201);
    }
    assert(made_remaining(said(record, 14), at(known, "resource"@), Tree::Text("2027-04-10T10:00:00Z"@), Tree::Text("2027-04-10T11:00:00Z"@)) is Ok
            && at(
                made_remaining(said(record, 14), at(known, "resource"@), Tree::Text("2027-04-10T10:00:00Z"@), Tree::Text("2027-04-10T11:00:00Z"@))->Ok_0,
                "count"@,
            )
                == Tree::Integer(1)) by {
        was_made(l, known, answers, record, 16);
        was_said(l, known, answers, record, 15);
        assert(forall|j: int|
            0 <= j < 16 ==> is_check((#[trigger] l[j]).0@) || !touches(l[j].1@, "resource"@));
        stays_through(l, known, answers, record, 0, 16, "resource"@);
        let args16 = arguments(
            parts("remaining seen resource =2027-04-10T10:00:00Z =2027-04-10T11:00:00Z"@).skip(1),
            record[16],
        );
        assert(
            args16
                =~= seq![
                    said(record, 14),
                    at(known, "resource"@),
                    Tree::Text("2027-04-10T10:00:00Z"@),
                    Tree::Text("2027-04-10T11:00:00Z"@),
                ]
        );
        makes_remaining(args16, record[16]);
        unchanged(l, known, answers, record, 17);
        lemma_under(record[18], "left"@, "count"@, "left,count"@);
        saw_num(l, known, answers, record, 18, 1);
    }
    assert(made_availability_path(
            Tree::Text("2027-04-10T10:00:00Z"@),
            Tree::Text("2027-04-10T11:00:00Z"@),
        )
            == Ok::<Tree, Seq<char>>(at(record[4], "query"@))) by {
        was_made(l, known, answers, record, 3);
        let args3 = arguments(
            parts("availability-path =2027-04-10T10:00:00Z =2027-04-10T11:00:00Z"@).skip(1),
            record[3],
        );
        assert(
            args3
                =~= seq![Tree::Text("2027-04-10T10:00:00Z"@), Tree::Text("2027-04-10T11:00:00Z"@)]
        );
        makes_availability_path(args3, record[3]);
    }
    assert(made_availability_path(
            Tree::Text("2027-04-10T10:00:00Z"@),
            Tree::Text("2027-04-10T11:00:00Z"@),
        )
            == Ok::<Tree, Seq<char>>(at(record[14], "query"@))) by {
        was_made(l, known, answers, record, 13);
        let args13 = arguments(
            parts("availability-path =2027-04-10T10:00:00Z =2027-04-10T11:00:00Z"@).skip(1),
            record[13],
        );
        assert(
            args13
                =~= seq![Tree::Text("2027-04-10T10:00:00Z"@), Tree::Text("2027-04-10T11:00:00Z"@)]
        );
        makes_availability_path(args13, record[13]);
    }
}

/// The availability check finishes only where the service answered two remaining places, then a
/// booking with 201, then one remaining place.
pub proof fn availability_was_observed(
    known: Tree,
    answers: Seq<(Tree, bool)>,
) -> (record: Seq<Tree>)
    requires
        known is Object,
        finished(PUBLIC_AVAILABILITY@, known, answers),
    ensures
        passed(PUBLIC_AVAILABILITY@, known, answers, record),
        PUBLIC_AVAILABILITY@[4].2@ == "get $query none"@,
        made_remaining(said(record, 4), at(known, "resource"@), Tree::Text("2027-04-10T10:00:00Z"@), Tree::Text("2027-04-10T11:00:00Z"@)) is Ok
            && at(
                made_remaining(said(record, 4), at(known, "resource"@), Tree::Text("2027-04-10T10:00:00Z"@), Tree::Text("2027-04-10T11:00:00Z"@))->Ok_0,
                "count"@,
            )
                == Tree::Integer(2),
        PUBLIC_AVAILABILITY@[9].2@ == "book Ada 2027-04-10T10:00:00Z 2027-04-10T11:00:00Z 1 token"@,
        at(said(record, 9), "status"@) == Tree::Integer(201),
        PUBLIC_AVAILABILITY@[14].2@ == "get $query none"@,
        made_remaining(said(record, 14), at(known, "resource"@), Tree::Text("2027-04-10T10:00:00Z"@), Tree::Text("2027-04-10T11:00:00Z"@)) is Ok
            && at(
                made_remaining(said(record, 14), at(known, "resource"@), Tree::Text("2027-04-10T10:00:00Z"@), Tree::Text("2027-04-10T11:00:00Z"@))->Ok_0,
                "count"@,
            )
                == Tree::Integer(1),
        made_availability_path(
            Tree::Text("2027-04-10T10:00:00Z"@),
            Tree::Text("2027-04-10T11:00:00Z"@),
        )
            == Ok::<Tree, Seq<char>>(at(record[4], "query"@)),
        made_availability_path(
            Tree::Text("2027-04-10T10:00:00Z"@),
            Tree::Text("2027-04-10T11:00:00Z"@),
        )
            == Ok::<Tree, Seq<char>>(at(record[14], "query"@)),
{
    let record = finished_scenarios_are_recorded(PUBLIC_AVAILABILITY@, known, answers);
    lemma_availability_was_observed(known, answers, record);
    record
}

proof fn lemma_authentication_was_observed_1(
    known: Tree,
    answers: Seq<(Tree, bool)>,
    record: Seq<Tree>,
)
    requires
        passed(AUTHENTICATED_MUTATION@, known, answers, record),
    ensures
        at(said(record, 8), "status"@) == Tree::Integer(401),
        made_active(said(record, 12)) is Ok
            && made_active(said(record, 3)) is Ok
            && at(made_active(said(record, 12))->Ok_0, "items"@)
                == at(made_active(said(record, 3))->Ok_0, "items"@),
        at(said(record, 18), "status"@) == Tree::Integer(401),
        made_active(said(record, 22)) is Ok
            && made_active(said(record, 3)) is Ok
            && at(made_active(said(record, 22))->Ok_0, "items"@)
                == at(made_active(said(record, 3))->Ok_0, "items"@),
        at(said(record, 28), "status"@) == Tree::Integer(201),
        at(said(record, 33), "status"@) == Tree::Integer(401),
{
    let l = AUTHENTICATED_MUTATION@;
    reveal_strlit("401");
    reveal_strlit("answer");
    reveal_strlit("reply");
    reveal_strlit("status");
    reveal_strlit("answer,status");
    reveal_strlit("after");
    reveal_strlit("rows");
    reveal_strlit("active");
    reveal_strlit("seen");
    reveal_strlit("active seen");
    reveal_strlit("items");
    reveal_strlit("rows,items");
    reveal_strlit("before");
    reveal_strlit("");
    reveal_strlit("201");
    reveal_strlit("booked");
    reveal_strlit("booked,status");
    lemma_three_digits("401"@);
    assert(number_of("401"@) == Some(401u64));
    assert("answer"@.len() == 6);
    assert("reply"@.len() == 5);
    assert("answer,status"@ =~= "answer"@ + seq![','] + "status"@);
    assert("after"@[0] != "reply"@[0]);
    assert("rows"@.len() == 4);
    assert("active seen"@ =~= "active"@ + seq![' '] + "seen"@);
    lemma_two_words("active"@, "seen"@, "active seen"@);
    assert(parts("active seen"@) =~= seq!["active"@, "seen"@]);
    assert("seen"@.len() == 4);
    assert(parts("active seen"@).skip(1) =~= seq!["seen"@]);
    assert("rows,items"@ =~= "rows"@ + seq![','] + "items"@);
    assert("before"@.len() == 6);
    lemma_apart(""@, "before"@, 0);
    lemma_apart("answer"@, "before"@, 0);
    lemma_apart("seen"@, "before"@, 0);
    lemma_apart("rows"@, "before"@, 0);
    lemma_apart("after"@, "before"@, 0);
    lemma_three_digits("201"@);
    assert(number_of("201"@) == Some(201u64));
    assert("booked"@.len() == 6);
    assert("booked,status"@ =~= "booked"@ + seq![','] + "status"@);
    assert(at(said(record, 8), "status"@) == Tree::Integer(401)) by {
        was_said(l, known, answers, record, 9);
        unchanged(l, known, answers, record, 10);
        lemma_under(record[11], "answer"@, "status"@, "answer,status"@);
        saw_num(l, known, answers, record, 11, 401);
    }
    assert(made_active(said(record, 12)) is Ok
            && made_active(said(record, 3)) is Ok
            && at(made_active(said(record, 12))->Ok_0, "items"@)
                == at(made_active(said(record, 3))->Ok_0, "items"@)) by {
        was_kept(l, known, answers, record, 16);
        was_made(l, known, answers, record, 14);
        was_said(l, known, answers, record, 13);
        let args14 = arguments(parts("active seen"@).skip(1), record[14]);
        assert(args14 =~= seq![said(record, 12)]);
        makes_active(args14, record[14]);
        unchanged(l, known, answers, record, 15);
        lemma_under(record[16], "rows"@, "items"@, "rows,items"@);
        was_kept(l, known, answers, record, 7);
        was_made(l, known, answers, record, 5);
        was_said(l, known, answers, record, 4);
        let args5 = arguments(parts("active seen"@).skip(1), record[5]);
        assert(args5 =~= seq![said(record, 3)]);
        makes_active(args5, record[5]);
        unchanged(l, known, answers, record, 6);
        lemma_under(record[7], "rows"@, "items"@, "rows,items"@);
        assert(forall|j: int|
            8 <= j < 17 ==> is_check((#[trigger] l[j]).0@) || !touches(l[j].1@, "before"@));
        stays_through(l, known, answers, record, 8, 17, "before"@);
        saw_same(l, known, answers, record, 17);
    }
    assert(at(said(record, 18), "status"@) == Tree::Integer(401)) by {
        was_said(l, known, answers, record, 19);
        unchanged(l, known, answers, record, 20);
        lemma_under(record[21], "answer"@, "status"@, "answer,status"@);
        saw_num(l, known, answers, record, 21, 401);
    }
    assert(made_active(said(record, 22)) is Ok
            && made_active(said(record, 3)) is Ok
            && at(made_active(said(record, 22))->Ok_0, "items"@)
                == at(made_active(said(record, 3))->Ok_0, "items"@)) by {
        was_kept(l, known, answers, record, 26);
        was_made(l, known, answers, record, 24);
        was_said(l, known, answers, record, 23);
        let args24 = arguments(parts("active seen"@).skip(1), record[24]);
        assert(args24 =~= seq![said(record, 22)]);
        makes_active(args24, record[24]);
        unchanged(l, known, answers, record, 25);
        lemma_under(record[26], "rows"@, "items"@, "rows,items"@);
        was_kept(l, known, answers, record, 7);
        was_made(l, known, answers, record, 5);
        was_said(l, known, answers, record, 4);
        let args5 = arguments(parts("active seen"@).skip(1), record[5]);
        assert(args5 =~= seq![said(record, 3)]);
        makes_active(args5, record[5]);
        unchanged(l, known, answers, record, 6);
        lemma_under(record[7], "rows"@, "items"@, "rows,items"@);
        assert(forall|j: int|
            8 <= j < 27 ==> is_check((#[trigger] l[j]).0@) || !touches(l[j].1@, "before"@));
        stays_through(l, known, answers, record, 8, 27, "before"@);
        saw_same(l, known, answers, record, 27);
    }
    assert(at(said(record, 28), "status"@) == Tree::Integer(201)) by {
        was_said(l, known, answers, record, 29);
        unchanged(l, known, answers, record, 30);
        lemma_under(record[31], "booked"@, "status"@, "booked,status"@);
        saw_num(l, known, answers, record, 31, 201);
    }
    assert(at(said(record, 33), "status"@) == Tree::Integer(401)) by {
        was_said(l, known, answers, record, 34);
        unchanged(l, known, answers, record, 35);
        lemma_under(record[36], "answer"@, "status"@, "answer,status"@);
        saw_num(l, known, answers, record, 36, 401);
    }
}

proof fn lemma_authentication_was_observed_2(
    known: Tree,
    answers: Seq<(Tree, bool)>,
    record: Seq<Tree>,
)
    requires
        passed(AUTHENTICATED_MUTATION@, known, answers, record),
    ensures
        made_remaining(said(record, 38), at(known, "resource"@), Tree::Text("2027-04-10T10:00:00Z"@), Tree::Text("2027-04-10T11:00:00Z"@)) is Ok
            && at(
                made_remaining(said(record, 38), at(known, "resource"@), Tree::Text("2027-04-10T10:00:00Z"@), Tree::Text("2027-04-10T11:00:00Z"@))->Ok_0,
                "count"@,
            )
                == Tree::Integer(1),
        at(said(record, 44), "status"@) == Tree::Integer(401),
        made_remaining(said(record, 49), at(known, "resource"@), Tree::Text("2027-04-10T10:00:00Z"@), Tree::Text("2027-04-10T11:00:00Z"@)) is Ok
            && at(
                made_remaining(said(record, 49), at(known, "resource"@), Tree::Text("2027-04-10T10:00:00Z"@), Tree::Text("2027-04-10T11:00:00Z"@))->Ok_0,
                "count"@,
            )
                == Tree::Integer(1),
        at(said(record, 55), "status"@) == Tree::Integer(200),
        made_remaining(said(record, 60), at(known, "resource"@), Tree::Text("2027-04-10T10:00:00Z"@), Tree::Text("2027-04-10T11:00:00Z"@)) is Ok
            && at(
                made_remaining(said(record, 60), at(known, "resource"@), Tree::Text("2027-04-10T10:00:00Z"@), Tree::Text("2027-04-10T11:00:00Z"@))->Ok_0,
                "count"@,
            )
                == Tree::Integer(2),
        made_booking_path(at(said(record, 28), "body"@))
            == Ok::<Tree, Seq<char>>(at(record[33], "place"@)),
{
    let l = AUTHENTICATED_MUTATION@;
    reveal_strlit("1");
    reveal_strlit("left");
    reveal_strlit("reply");
    reveal_strlit("remaining seen resource =2027-04-10T10:00:00Z =2027-04-10T11:00:00Z");
    reveal_strlit("remaining");
    reveal_strlit("seen resource =2027-04-10T10:00:00Z =2027-04-10T11:00:00Z");
    reveal_strlit("seen");
    reveal_strlit("resource =2027-04-10T10:00:00Z =2027-04-10T11:00:00Z");
    reveal_strlit("resource");
    reveal_strlit("=2027-04-10T10:00:00Z =2027-04-10T11:00:00Z");
    reveal_strlit("=2027-04-10T10:00:00Z");
    reveal_strlit("=2027-04-10T11:00:00Z");
    reveal_strlit("");
    reveal_strlit("cleared");
    reveal_strlit("rows");
    reveal_strlit("before");
    reveal_strlit("answer");
    reveal_strlit("after");
    reveal_strlit("booked");
    reveal_strlit("place");
    reveal_strlit("query");
    reveal_strlit("2027-04-10T10:00:00Z");
    reveal_strlit("2027-04-10T11:00:00Z");
    reveal_strlit("count");
    reveal_strlit("left,count");
    reveal_strlit("401");
    reveal_strlit("status");
    reveal_strlit("answer,status");
    reveal_strlit("200");
    reveal_strlit("2");
    reveal_strlit("booking-path");
    reveal_strlit("booked,body");
    reveal_strlit("booking-path booked,body");
    reveal_strlit("body");
    lemma_one_digit("1"@);
    assert(number_of("1"@) == Some(1u64));
    assert("left"@.len() == 4);
    assert("reply"@.len() == 5);
    assert(
        "=2027-04-10T10:00:00Z =2027-04-10T11:00:00Z"@
            =~= "=2027-04-10T10:00:00Z"@ + seq![' '] + "=2027-04-10T11:00:00Z"@
    );
    lemma_two_words(
        "=2027-04-10T10:00:00Z"@,
        "=2027-04-10T11:00:00Z"@,
        "=2027-04-10T10:00:00Z =2027-04-10T11:00:00Z"@,
    );
    assert(
        "resource =2027-04-10T10:00:00Z =2027-04-10T11:00:00Z"@
            =~= "resource"@ + seq![' '] + "=2027-04-10T10:00:00Z =2027-04-10T11:00:00Z"@
    );
    lemma_four_words(
        "resource"@,
        "=2027-04-10T10:00:00Z =2027-04-10T11:00:00Z"@,
        "resource =2027-04-10T10:00:00Z =2027-04-10T11:00:00Z"@,
    );
    assert(
        "seen resource =2027-04-10T10:00:00Z =2027-04-10T11:00:00Z"@
            =~= "seen"@ + seq![' '] + "resource =2027-04-10T10:00:00Z =2027-04-10T11:00:00Z"@
    );
    lemma_four_words(
        "seen"@,
        "resource =2027-04-10T10:00:00Z =2027-04-10T11:00:00Z"@,
        "seen resource =2027-04-10T10:00:00Z =2027-04-10T11:00:00Z"@,
    );
    assert(
        "remaining seen resource =2027-04-10T10:00:00Z =2027-04-10T11:00:00Z"@
            =~= "remaining"@ + seq![' '] + "seen resource =2027-04-10T10:00:00Z =2027-04-10T11:00:00Z"@
    );
    lemma_four_words(
        "remaining"@,
        "seen resource =2027-04-10T10:00:00Z =2027-04-10T11:00:00Z"@,
        "remaining seen resource =2027-04-10T10:00:00Z =2027-04-10T11:00:00Z"@,
    );
    assert(
        parts("remaining seen resource =2027-04-10T10:00:00Z =2027-04-10T11:00:00Z"@)
            =~= seq![
                "remaining"@,
                "seen"@,
                "resource"@,
                "=2027-04-10T10:00:00Z"@,
                "=2027-04-10T11:00:00Z"@,
            ]
    );
    assert("seen"@.len() == 4);
    assert("resource"@.len() == 8);
    lemma_apart(""@, "resource"@, 0);
    lemma_apart("cleared"@, "resource"@, 0);
    lemma_apart("seen"@, "resource"@, 0);
    lemma_apart("rows"@, "resource"@, 1);
    lemma_apart("before"@, "resource"@, 0);
    lemma_apart("answer"@, "resource"@, 0);
    lemma_apart("after"@, "resource"@, 0);
    lemma_apart("booked"@, "resource"@, 0);
    lemma_apart("place"@, "resource"@, 0);
    lemma_apart("query"@, "resource"@, 0);
    assert("=2027-04-10T10:00:00Z"@.len() == 21);
    assert("=2027-04-10T10:00:00Z"@.skip(1) =~= "2027-04-10T10:00:00Z"@);
    assert("=2027-04-10T11:00:00Z"@.len() == 21);
    assert("=2027-04-10T11:00:00Z"@.skip(1) =~= "2027-04-10T11:00:00Z"@);
    assert(
        parts("remaining seen resource =2027-04-10T10:00:00Z =2027-04-10T11:00:00Z"@).skip(1)
            =~= seq!["seen"@, "resource"@, "=2027-04-10T10:00:00Z"@, "=2027-04-10T11:00:00Z"@]
    );
    assert("left,count"@ =~= "left"@ + seq![','] + "count"@);
    lemma_three_digits("401"@);
    assert(number_of("401"@) == Some(401u64));
    assert("answer"@.len() == 6);
    assert("answer,status"@ =~= "answer"@ + seq![','] + "status"@);
    lemma_apart("left"@, "resource"@, 0);
    lemma_three_digits("200"@);
    assert(number_of("200"@) == Some(200u64));
    lemma_one_digit("2"@);
    assert(number_of("2"@) == Some(2u64));
    assert("booking-path booked,body"@ =~= "booking-path"@ + seq![' '] + "booked,body"@);
    lemma_two_words("booking-path"@, "booked,body"@, "booking-path booked,body"@);
    assert(parts("booking-path booked,body"@) =~= seq!["booking-path"@, "booked,body"@]);
    assert("booked,body"@.len() == 11);
    assert("booked"@.len() == 6);
    assert("booked,body"@ =~= "booked"@ + seq![','] + "body"@);
    assert(parts("booking-path booked,body"@).skip(1) =~= seq!["booked,body"@]);
    assert(made_remaining(said(record, 38), at(known, "resource"@), Tree::Text("2027-04-10T10:00:00Z"@), Tree::Text("2027-04-10T11:00:00Z"@)) is Ok
            && at(
                made_remaining(said(record, 38), at(known, "resource"@), Tree::Text("2027-04-10T10:00:00Z"@), Tree::Text("2027-04-10T11:00:00Z"@))->Ok_0,
                "count"@,
            )
                == Tree::Integer(1)) by {
        was_made(l, known, answers, record, 40);
        was_said(l, known, answers, record, 39);
        assert(forall|j: int|
            0 <= j < 40 ==> is_check((#[trigger] l[j]).0@) || !touches(l[j].1@, "resource"@));
        stays_through(l, known, answers, record, 0, 40, "resource"@);
        let args40 = arguments(
            parts("remaining seen resource =2027-04-10T10:00:00Z =2027-04-10T11:00:00Z"@).skip(1),
            record[40],
        );
        assert(
            args40
                =~= seq![
                    said(record, 38),
                    at(known, "resource"@),
                    Tree::Text("2027-04-10T10:00:00Z"@),
                    Tree::Text("2027-04-10T11:00:00Z"@),
                ]
        );
        makes_remaining(args40, record[40]);
        unchanged(l, known, answers, record, 41);
        lemma_under(record[42], "left"@, "count"@, "left,count"@);
        saw_num(l, known, answers, record, 42, 1);
    }
    assert(at(said(record, 44), "status"@) == Tree::Integer(401)) by {
        was_said(l, known, answers, record, 45);
        unchanged(l, known, answers, record, 46);
        lemma_under(record[47], "answer"@, "status"@, "answer,status"@);
        saw_num(l, known, answers, record, 47, 401);
    }
    assert(made_remaining(said(record, 49), at(known, "resource"@), Tree::Text("2027-04-10T10:00:00Z"@), Tree::Text("2027-04-10T11:00:00Z"@)) is Ok
            && at(
                made_remaining(said(record, 49), at(known, "resource"@), Tree::Text("2027-04-10T10:00:00Z"@), Tree::Text("2027-04-10T11:00:00Z"@))->Ok_0,
                "count"@,
            )
                == Tree::Integer(1)) by {
        was_made(l, known, answers, record, 51);
        was_said(l, known, answers, record, 50);
        assert(forall|j: int|
            0 <= j < 51 ==> is_check((#[trigger] l[j]).0@) || !touches(l[j].1@, "resource"@));
        stays_through(l, known, answers, record, 0, 51, "resource"@);
        let args51 = arguments(
            parts("remaining seen resource =2027-04-10T10:00:00Z =2027-04-10T11:00:00Z"@).skip(1),
            record[51],
        );
        assert(
            args51
                =~= seq![
                    said(record, 49),
                    at(known, "resource"@),
                    Tree::Text("2027-04-10T10:00:00Z"@),
                    Tree::Text("2027-04-10T11:00:00Z"@),
                ]
        );
        makes_remaining(args51, record[51]);
        unchanged(l, known, answers, record, 52);
        lemma_under(record[53], "left"@, "count"@, "left,count"@);
        saw_num(l, known, answers, record, 53, 1);
    }
    assert(at(said(record, 55), "status"@) == Tree::Integer(200)) by {
        was_said(l, known, answers, record, 56);
        unchanged(l, known, answers, record, 57);
        lemma_under(record[58], "answer"@, "status"@, "answer,status"@);
        saw_num(l, known, answers, record, 58, 200);
    }
    assert(made_remaining(said(record, 60), at(known, "resource"@), Tree::Text("2027-04-10T10:00:00Z"@), Tree::Text("2027-04-10T11:00:00Z"@)) is Ok
            && at(
                made_remaining(said(record, 60), at(known, "resource"@), Tree::Text("2027-04-10T10:00:00Z"@), Tree::Text("2027-04-10T11:00:00Z"@))->Ok_0,
                "count"@,
            )
                == Tree::Integer(2)) by {
        was_made(l, known, answers, record, 62);
        was_said(l, known, answers, record, 61);
        assert(forall|j: int|
            0 <= j < 62 ==> is_check((#[trigger] l[j]).0@) || !touches(l[j].1@, "resource"@));
        stays_through(l, known, answers, record, 0, 62, "resource"@);
        let args62 = arguments(
            parts("remaining seen resource =2027-04-10T10:00:00Z =2027-04-10T11:00:00Z"@).skip(1),
            record[62],
        );
        assert(
            args62
                =~= seq![
                    said(record, 60),
                    at(known, "resource"@),
                    Tree::Text("2027-04-10T10:00:00Z"@),
                    Tree::Text("2027-04-10T11:00:00Z"@),
                ]
        );
        makes_remaining(args62, record[62]);
        unchanged(l, known, answers, record, 63);
        lemma_under(record[64], "left"@, "count"@, "left,count"@);
        saw_num(l, known, answers, record, 64, 2);
    }
    assert(made_booking_path(at(said(record, 28), "body"@))
            == Ok::<Tree, Seq<char>>(at(record[33], "place"@))) by {
        was_made(l, known, answers, record, 32);
        was_said(l, known, answers, record, 29);
        unchanged(l, known, answers, record, 30);
        unchanged(l, known, answers, record, 31);
        lemma_under(record[32], "booked"@, "body"@, "booked,body"@);
        let args32 = arguments(parts("booking-path booked,body"@).skip(1), record[32]);
        assert(args32 =~= seq![at(said(record, 28), "body"@)]);
        makes_booking_path(args32, record[32]);
    }
}

proof fn lemma_authentication_was_observed_3(
    known: Tree,
    answers: Seq<(Tree, bool)>,
    record: Seq<Tree>,
)
    requires
        passed(AUTHENTICATED_MUTATION@, known, answers, record),
    ensures
        made_availability_path(
            Tree::Text("2027-04-10T10:00:00Z"@),
            Tree::Text("2027-04-10T11:00:00Z"@),
        )
            == Ok::<Tree, Seq<char>>(at(record[38], "query"@)),
        made_booking_path(at(said(record, 28), "body"@))
            == Ok::<Tree, Seq<char>>(at(record[44], "place"@)),
        made_availability_path(
            Tree::Text("2027-04-10T10:00:00Z"@),
            Tree::Text("2027-04-10T11:00:00Z"@),
        )
            == Ok::<Tree, Seq<char>>(at(record[49], "query"@)),
        made_booking_path(at(said(record, 28), "body"@))
            == Ok::<Tree, Seq<char>>(at(record[55], "place"@)),
        made_availability_path(
            Tree::Text("2027-04-10T10:00:00Z"@),
            Tree::Text("2027-04-10T11:00:00Z"@),
        )
            == Ok::<Tree, Seq<char>>(at(record[60], "query"@)),
{
    let l = AUTHENTICATED_MUTATION@;
    reveal_strlit("query");
    reveal_strlit("availability-path =2027-04-10T10:00:00Z =2027-04-10T11:00:00Z");
    reveal_strlit("availability-path");
    reveal_strlit("=2027-04-10T10:00:00Z =2027-04-10T11:00:00Z");
    reveal_strlit("=2027-04-10T10:00:00Z");
    reveal_strlit("=2027-04-10T11:00:00Z");
    reveal_strlit("2027-04-10T10:00:00Z");
    reveal_strlit("2027-04-10T11:00:00Z");
    reveal_strlit("place");
    reveal_strlit("booking-path");
    reveal_strlit("booked,body");
    reveal_strlit("booking-path booked,body");
    reveal_strlit("booked");
    reveal_strlit("reply");
    reveal_strlit("");
    reveal_strlit("answer");
    reveal_strlit("seen");
    reveal_strlit("left");
    reveal_strlit("body");
    assert(
        "=2027-04-10T10:00:00Z =2027-04-10T11:00:00Z"@
            =~= "=2027-04-10T10:00:00Z"@ + seq![' '] + "=2027-04-10T11:00:00Z"@
    );
    lemma_two_words(
        "=2027-04-10T10:00:00Z"@,
        "=2027-04-10T11:00:00Z"@,
        "=2027-04-10T10:00:00Z =2027-04-10T11:00:00Z"@,
    );
    assert(
        "availability-path =2027-04-10T10:00:00Z =2027-04-10T11:00:00Z"@
            =~= "availability-path"@ + seq![' '] + "=2027-04-10T10:00:00Z =2027-04-10T11:00:00Z"@
    );
    lemma_four_words(
        "availability-path"@,
        "=2027-04-10T10:00:00Z =2027-04-10T11:00:00Z"@,
        "availability-path =2027-04-10T10:00:00Z =2027-04-10T11:00:00Z"@,
    );
    assert(
        parts("availability-path =2027-04-10T10:00:00Z =2027-04-10T11:00:00Z"@)
            =~= seq!["availability-path"@, "=2027-04-10T10:00:00Z"@, "=2027-04-10T11:00:00Z"@]
    );
    assert("=2027-04-10T10:00:00Z"@.len() == 21);
    assert("=2027-04-10T10:00:00Z"@.skip(1) =~= "2027-04-10T10:00:00Z"@);
    assert("=2027-04-10T11:00:00Z"@.len() == 21);
    assert("=2027-04-10T11:00:00Z"@.skip(1) =~= "2027-04-10T11:00:00Z"@);
    assert(
        parts("availability-path =2027-04-10T10:00:00Z =2027-04-10T11:00:00Z"@).skip(1)
            =~= seq!["=2027-04-10T10:00:00Z"@, "=2027-04-10T11:00:00Z"@]
    );
    assert("booking-path booked,body"@ =~= "booking-path"@ + seq![' '] + "booked,body"@);
    lemma_two_words("booking-path"@, "booked,body"@, "booking-path booked,body"@);
    assert(parts("booking-path booked,body"@) =~= seq!["booking-path"@, "booked,body"@]);
    assert("booked,body"@.len() == 11);
    assert("booked"@.len() == 6);
    assert("reply"@.len() == 5);
    lemma_apart("place"@, "booked"@, 0);
    lemma_apart(""@, "booked"@, 0);
    lemma_apart("answer"@, "booked"@, 0);
    lemma_apart("query"@, "booked"@, 0);
    lemma_apart("seen"@, "booked"@, 0);
    lemma_apart("left"@, "booked"@, 0);
    assert("booked,body"@ =~= "booked"@ + seq![','] + "body"@);
    assert(parts("booking-path booked,body"@).skip(1) =~= seq!["booked,body"@]);
    assert(made_availability_path(
            Tree::Text("2027-04-10T10:00:00Z"@),
            Tree::Text("2027-04-10T11:00:00Z"@),
        )
            == Ok::<Tree, Seq<char>>(at(record[38], "query"@))) by {
        was_made(l, known, answers, record, 37);
        let args37 = arguments(
            parts("availability-path =2027-04-10T10:00:00Z =2027-04-10T11:00:00Z"@).skip(1),
            record[37],
        );
        assert(
            args37
                =~= seq![Tree::Text("2027-04-10T10:00:00Z"@), Tree::Text("2027-04-10T11:00:00Z"@)]
        );
        makes_availability_path(args37, record[37]);
    }
    assert(made_booking_path(at(said(record, 28), "body"@))
            == Ok::<Tree, Seq<char>>(at(record[44], "place"@))) by {
        was_made(l, known, answers, record, 43);
        was_said(l, known, answers, record, 29);
        assert(forall|j: int|
            30 <= j < 43 ==> is_check((#[trigger] l[j]).0@) || !touches(l[j].1@, "booked"@));
        stays_through(l, known, answers, record, 30, 43, "booked"@);
        lemma_under(record[43], "booked"@, "body"@, "booked,body"@);
        let args43 = arguments(parts("booking-path booked,body"@).skip(1), record[43]);
        assert(args43 =~= seq![at(said(record, 28), "body"@)]);
        makes_booking_path(args43, record[43]);
    }
    assert(made_availability_path(
            Tree::Text("2027-04-10T10:00:00Z"@),
            Tree::Text("2027-04-10T11:00:00Z"@),
        )
            == Ok::<Tree, Seq<char>>(at(record[49], "query"@))) by {
        was_made(l, known, answers, record, 48);
        let args48 = arguments(
            parts("availability-path =2027-04-10T10:00:00Z =2027-04-10T11:00:00Z"@).skip(1),
            record[48],
        );
        assert(
            args48
                =~= seq![Tree::Text("2027-04-10T10:00:00Z"@), Tree::Text("2027-04-10T11:00:00Z"@)]
        );
        makes_availability_path(args48, record[48]);
    }
    assert(made_booking_path(at(said(record, 28), "body"@))
            == Ok::<Tree, Seq<char>>(at(record[55], "place"@))) by {
        was_made(l, known, answers, record, 54);
        was_said(l, known, answers, record, 29);
        assert(forall|j: int|
            30 <= j < 54 ==> is_check((#[trigger] l[j]).0@) || !touches(l[j].1@, "booked"@));
        stays_through(l, known, answers, record, 30, 54, "booked"@);
        lemma_under(record[54], "booked"@, "body"@, "booked,body"@);
        let args54 = arguments(parts("booking-path booked,body"@).skip(1), record[54]);
        assert(args54 =~= seq![at(said(record, 28), "body"@)]);
        makes_booking_path(args54, record[54]);
    }
    assert(made_availability_path(
            Tree::Text("2027-04-10T10:00:00Z"@),
            Tree::Text("2027-04-10T11:00:00Z"@),
        )
            == Ok::<Tree, Seq<char>>(at(record[60], "query"@))) by {
        was_made(l, known, answers, record, 59);
        let args59 = arguments(
            parts("availability-path =2027-04-10T10:00:00Z =2027-04-10T11:00:00Z"@).skip(1),
            record[59],
        );
        assert(
            args59
                =~= seq![Tree::Text("2027-04-10T10:00:00Z"@), Tree::Text("2027-04-10T11:00:00Z"@)]
        );
        makes_availability_path(args59, record[59]);
    }
}

/// The authentication check finishes only where creations and cancellations without the token, or
/// with an incorrect one, were answered with 401 and left the bookings and the remaining places as
/// they were, and those with the token were accepted.
pub proof fn authentication_was_observed(
    known: Tree,
    answers: Seq<(Tree, bool)>,
) -> (record: Seq<Tree>)
    requires
        known is Object,
        finished(AUTHENTICATED_MUTATION@, known, answers),
    ensures
        passed(AUTHENTICATED_MUTATION@, known, answers, record),
        AUTHENTICATED_MUTATION@[8].2@
            == "book Ada 2027-04-10T10:00:00Z 2027-04-10T11:00:00Z 1 none"@,
        at(said(record, 8), "status"@) == Tree::Integer(401),
        AUTHENTICATED_MUTATION@[12].2@ == "get /reservations token"@,
        AUTHENTICATED_MUTATION@[3].2@ == "get /reservations token"@,
        made_active(said(record, 12)) is Ok
            && made_active(said(record, 3)) is Ok
            && at(made_active(said(record, 12))->Ok_0, "items"@)
                == at(made_active(said(record, 3))->Ok_0, "items"@),
        AUTHENTICATED_MUTATION@[18].2@
            == "book Ada 2027-04-10T10:00:00Z 2027-04-10T11:00:00Z 1 incorrect"@,
        at(said(record, 18), "status"@) == Tree::Integer(401),
        AUTHENTICATED_MUTATION@[22].2@ == "get /reservations token"@,
        made_active(said(record, 22)) is Ok
            && made_active(said(record, 3)) is Ok
            && at(made_active(said(record, 22))->Ok_0, "items"@)
                == at(made_active(said(record, 3))->Ok_0, "items"@),
        AUTHENTICATED_MUTATION@[28].2@
            == "book Ada 2027-04-10T10:00:00Z 2027-04-10T11:00:00Z 1 token"@,
        at(said(record, 28), "status"@) == Tree::Integer(201),
        AUTHENTICATED_MUTATION@[33].2@ == "delete $place none"@,
        at(said(record, 33), "status"@) == Tree::Integer(401),
        AUTHENTICATED_MUTATION@[38].2@ == "get $query none"@,
        made_remaining(said(record, 38), at(known, "resource"@), Tree::Text("2027-04-10T10:00:00Z"@), Tree::Text("2027-04-10T11:00:00Z"@)) is Ok
            && at(
                made_remaining(said(record, 38), at(known, "resource"@), Tree::Text("2027-04-10T10:00:00Z"@), Tree::Text("2027-04-10T11:00:00Z"@))->Ok_0,
                "count"@,
            )
                == Tree::Integer(1),
        AUTHENTICATED_MUTATION@[44].2@ == "delete $place incorrect"@,
        at(said(record, 44), "status"@) == Tree::Integer(401),
        AUTHENTICATED_MUTATION@[49].2@ == "get $query none"@,
        made_remaining(said(record, 49), at(known, "resource"@), Tree::Text("2027-04-10T10:00:00Z"@), Tree::Text("2027-04-10T11:00:00Z"@)) is Ok
            && at(
                made_remaining(said(record, 49), at(known, "resource"@), Tree::Text("2027-04-10T10:00:00Z"@), Tree::Text("2027-04-10T11:00:00Z"@))->Ok_0,
                "count"@,
            )
                == Tree::Integer(1),
        AUTHENTICATED_MUTATION@[55].2@ == "delete $place token"@,
        at(said(record, 55), "status"@) == Tree::Integer(200),
        AUTHENTICATED_MUTATION@[60].2@ == "get $query none"@,
        made_remaining(said(record, 60), at(known, "resource"@), Tree::Text("2027-04-10T10:00:00Z"@), Tree::Text("2027-04-10T11:00:00Z"@)) is Ok
            && at(
                made_remaining(said(record, 60), at(known, "resource"@), Tree::Text("2027-04-10T10:00:00Z"@), Tree::Text("2027-04-10T11:00:00Z"@))->Ok_0,
                "count"@,
            )
                == Tree::Integer(2),
        made_booking_path(at(said(record, 28), "body"@))
            == Ok::<Tree, Seq<char>>(at(record[33], "place"@)),
        made_availability_path(
            Tree::Text("2027-04-10T10:00:00Z"@),
            Tree::Text("2027-04-10T11:00:00Z"@),
        )
            == Ok::<Tree, Seq<char>>(at(record[38], "query"@)),
        made_booking_path(at(said(record, 28), "body"@))
            == Ok::<Tree, Seq<char>>(at(record[44], "place"@)),
        made_availability_path(
            Tree::Text("2027-04-10T10:00:00Z"@),
            Tree::Text("2027-04-10T11:00:00Z"@),
        )
            == Ok::<Tree, Seq<char>>(at(record[49], "query"@)),
        made_booking_path(at(said(record, 28), "body"@))
            == Ok::<Tree, Seq<char>>(at(record[55], "place"@)),
        made_availability_path(
            Tree::Text("2027-04-10T10:00:00Z"@),
            Tree::Text("2027-04-10T11:00:00Z"@),
        )
            == Ok::<Tree, Seq<char>>(at(record[60], "query"@)),
{
    let record = finished_scenarios_are_recorded(AUTHENTICATED_MUTATION@, known, answers);
    lemma_authentication_was_observed_1(known, answers, record);
    lemma_authentication_was_observed_2(known, answers, record);
    lemma_authentication_was_observed_3(known, answers, record);
    record
}

proof fn lemma_capacity_was_observed_1(known: Tree, answers: Seq<(Tree, bool)>, record: Seq<Tree>)
    requires
        passed(CAPACITY_AND_INTERVALS@, known, answers, record),
    ensures
        at(said(record, 3), "status"@) == Tree::Integer(400),
        at(said(record, 7), "status"@) == Tree::Integer(400),
        at(said(record, 11), "status"@) == Tree::Integer(400),
        at(said(record, 15), "status"@) == Tree::Integer(400),
        made_active(said(record, 19)) is Ok
            && at(made_active(said(record, 19))->Ok_0, "items"@) is List
            && items_of(at(made_active(said(record, 19))->Ok_0, "items"@)).len() == 0,
        at(said(record, 25), "status"@) == Tree::Integer(201),
{
    let l = CAPACITY_AND_INTERVALS@;
    reveal_strlit("400");
    reveal_strlit("answer");
    reveal_strlit("reply");
    reveal_strlit("status");
    reveal_strlit("answer,status");
    reveal_strlit("before");
    reveal_strlit("rows");
    reveal_strlit("active");
    reveal_strlit("seen");
    reveal_strlit("active seen");
    reveal_strlit("items");
    reveal_strlit("rows,items");
    reveal_strlit("201");
    lemma_three_digits("400"@);
    assert(number_of("400"@) == Some(400u64));
    assert("answer"@.len() == 6);
    assert("reply"@.len() == 5);
    assert("answer,status"@ =~= "answer"@ + seq![','] + "status"@);
    assert("before"@.len() == 6);
    assert("rows"@.len() == 4);
    assert("active seen"@ =~= "active"@ + seq![' '] + "seen"@);
    lemma_two_words("active"@, "seen"@, "active seen"@);
    assert(parts("active seen"@) =~= seq!["active"@, "seen"@]);
    assert("seen"@.len() == 4);
    assert(parts("active seen"@).skip(1) =~= seq!["seen"@]);
    assert("rows,items"@ =~= "rows"@ + seq![','] + "items"@);
    lemma_three_digits("201"@);
    assert(number_of("201"@) == Some(201u64));
    assert(at(said(record, 3), "status"@) == Tree::Integer(400)) by {
        was_said(l, known, answers, record, 4);
        unchanged(l, known, answers, record, 5);
        lemma_under(record[6], "answer"@, "status"@, "answer,status"@);
        saw_num(l, known, answers, record, 6, 400);
    }
    assert(at(said(record, 7), "status"@) == Tree::Integer(400)) by {
        was_said(l, known, answers, record, 8);
        unchanged(l, known, answers, record, 9);
        lemma_under(record[10], "answer"@, "status"@, "answer,status"@);
        saw_num(l, known, answers, record, 10, 400);
    }
    assert(at(said(record, 11), "status"@) == Tree::Integer(400)) by {
        was_said(l, known, answers, record, 12);
        unchanged(l, known, answers, record, 13);
        lemma_under(record[14], "answer"@, "status"@, "answer,status"@);
        saw_num(l, known, answers, record, 14, 400);
    }
    assert(at(said(record, 15), "status"@) == Tree::Integer(400)) by {
        was_said(l, known, answers, record, 16);
        unchanged(l, known, answers, record, 17);
        lemma_under(record[18], "answer"@, "status"@, "answer,status"@);
        saw_num(l, known, answers, record, 18, 400);
    }
    assert(made_active(said(record, 19)) is Ok
            && at(made_active(said(record, 19))->Ok_0, "items"@) is List
            && items_of(at(made_active(said(record, 19))->Ok_0, "items"@)).len() == 0) by {
        was_kept(l, known, answers, record, 23);
        was_made(l, known, answers, record, 21);
        was_said(l, known, answers, record, 20);
        let args21 = arguments(parts("active seen"@).skip(1), record[21]);
        assert(args21 =~= seq![said(record, 19)]);
        makes_active(args21, record[21]);
        unchanged(l, known, answers, record, 22);
        lemma_under(record[23], "rows"@, "items"@, "rows,items"@);
        saw_empty(l, known, answers, record, 24);
    }
    assert(at(said(record, 25), "status"@) == Tree::Integer(201)) by {
        was_said(l, known, answers, record, 26);
        unchanged(l, known, answers, record, 27);
        lemma_under(record[28], "answer"@, "status"@, "answer,status"@);
        saw_num(l, known, answers, record, 28, 201);
    }
}

proof fn lemma_capacity_was_observed_2(known: Tree, answers: Seq<(Tree, bool)>, record: Seq<Tree>)
    requires
        passed(CAPACITY_AND_INTERVALS@, known, answers, record),
    ensures
        elements_with(items_of(at(said(record, 29), "answers"@)), "status"@, Tree::Integer(201))
            == 1,
        elements_with(items_of(at(said(record, 29), "answers"@)), "status"@, Tree::Integer(409))
            == 1,
        made_remaining(said(record, 35), at(known, "resource"@), Tree::Text("2027-04-10T10:00:00Z"@), Tree::Text("2027-04-10T11:00:00Z"@)) is Ok
            && at(
                made_remaining(said(record, 35), at(known, "resource"@), Tree::Text("2027-04-10T10:00:00Z"@), Tree::Text("2027-04-10T11:00:00Z"@))->Ok_0,
                "count"@,
            )
                == Tree::Integer(0),
        made_active(said(record, 40)) is Ok
            && items_of(at(made_active(said(record, 40))->Ok_0, "items"@)).len() == 2,
        at(said(record, 51), "status"@) == Tree::Integer(409),
        made_active(said(record, 55)) is Ok
            && made_active(said(record, 46)) is Ok
            && at(made_active(said(record, 55))->Ok_0, "items"@)
                == at(made_active(said(record, 46))->Ok_0, "items"@),
{
    let l = CAPACITY_AND_INTERVALS@;
    reveal_strlit("contenders");
    reveal_strlit("reply");
    reveal_strlit("answers");
    reveal_strlit("contenders,answers");
    reveal_strlit("1");
    reveal_strlit("1 num status 201");
    reveal_strlit("num status 201");
    reveal_strlit("num");
    reveal_strlit("status");
    reveal_strlit("201");
    reveal_strlit("else");
    reveal_strlit("plus");
    reveal_strlit("1 num status 409");
    reveal_strlit("num status 409");
    reveal_strlit("409");
    reveal_strlit("0");
    reveal_strlit("left");
    reveal_strlit("remaining seen resource =2027-04-10T10:00:00Z =2027-04-10T11:00:00Z");
    reveal_strlit("remaining");
    reveal_strlit("seen resource =2027-04-10T10:00:00Z =2027-04-10T11:00:00Z");
    reveal_strlit("seen");
    reveal_strlit("resource =2027-04-10T10:00:00Z =2027-04-10T11:00:00Z");
    reveal_strlit("resource");
    reveal_strlit("=2027-04-10T10:00:00Z =2027-04-10T11:00:00Z");
    reveal_strlit("=2027-04-10T10:00:00Z");
    reveal_strlit("=2027-04-10T11:00:00Z");
    reveal_strlit("");
    reveal_strlit("cleared");
    reveal_strlit("answer");
    reveal_strlit("rows");
    reveal_strlit("before");
    reveal_strlit("query");
    reveal_strlit("2027-04-10T10:00:00Z");
    reveal_strlit("2027-04-10T11:00:00Z");
    reveal_strlit("count");
    reveal_strlit("left,count");
    reveal_strlit("2");
    reveal_strlit("held");
    reveal_strlit("active");
    reveal_strlit("active seen");
    reveal_strlit("items");
    reveal_strlit("rows,items");
    reveal_strlit("answer,status");
    reveal_strlit("after");
    assert("contenders"@.len() == 10);
    assert("reply"@.len() == 5);
    assert("contenders,answers"@ =~= "contenders"@ + seq![','] + "answers"@);
    assert("num status 201"@ =~= "num"@ + seq![' '] + "status"@ + seq![' '] + "201"@);
    lemma_three_words("num"@, "status"@, "201"@, "num status 201"@);
    assert("1 num status 201"@ =~= "1"@ + seq![' '] + "num status 201"@);
    lemma_four_words("1"@, "num status 201"@, "1 num status 201"@);
    assert(parts("1 num status 201"@) =~= seq!["1"@, "num"@, "status"@, "201"@]);
    lemma_one_digit("1"@);
    assert(number_of("1"@) == Some(1u64));
    lemma_three_digits("201"@);
    assert(number_of("201"@) == Some(201u64));
    assert("status"@.len() == 6);
    assert("else"@.len() == 4);
    assert("plus"@.len() == 4);
    assert("201"@.len() == 3);
    assert("num status 409"@ =~= "num"@ + seq![' '] + "status"@ + seq![' '] + "409"@);
    lemma_three_words("num"@, "status"@, "409"@, "num status 409"@);
    assert("1 num status 409"@ =~= "1"@ + seq![' '] + "num status 409"@);
    lemma_four_words("1"@, "num status 409"@, "1 num status 409"@);
    assert(parts("1 num status 409"@) =~= seq!["1"@, "num"@, "status"@, "409"@]);
    lemma_three_digits("409"@);
    assert(number_of("409"@) == Some(409u64));
    assert("409"@.len() == 3);
    lemma_one_digit("0"@);
    assert(number_of("0"@) == Some(0u64));
    assert("left"@.len() == 4);
    assert(
        "=2027-04-10T10:00:00Z =2027-04-10T11:00:00Z"@
            =~= "=2027-04-10T10:00:00Z"@ + seq![' '] + "=2027-04-10T11:00:00Z"@
    );
    lemma_two_words(
        "=2027-04-10T10:00:00Z"@,
        "=2027-04-10T11:00:00Z"@,
        "=2027-04-10T10:00:00Z =2027-04-10T11:00:00Z"@,
    );
    assert(
        "resource =2027-04-10T10:00:00Z =2027-04-10T11:00:00Z"@
            =~= "resource"@ + seq![' '] + "=2027-04-10T10:00:00Z =2027-04-10T11:00:00Z"@
    );
    lemma_four_words(
        "resource"@,
        "=2027-04-10T10:00:00Z =2027-04-10T11:00:00Z"@,
        "resource =2027-04-10T10:00:00Z =2027-04-10T11:00:00Z"@,
    );
    assert(
        "seen resource =2027-04-10T10:00:00Z =2027-04-10T11:00:00Z"@
            =~= "seen"@ + seq![' '] + "resource =2027-04-10T10:00:00Z =2027-04-10T11:00:00Z"@
    );
    lemma_four_words(
        "seen"@,
        "resource =2027-04-10T10:00:00Z =2027-04-10T11:00:00Z"@,
        "seen resource =2027-04-10T10:00:00Z =2027-04-10T11:00:00Z"@,
    );
    assert(
        "remaining seen resource =2027-04-10T10:00:00Z =2027-04-10T11:00:00Z"@
            =~= "remaining"@ + seq![' '] + "seen resource =2027-04-10T10:00:00Z =2027-04-10T11:00:00Z"@
    );
    lemma_four_words(
        "remaining"@,
        "seen resource =2027-04-10T10:00:00Z =2027-04-10T11:00:00Z"@,
        "remaining seen resource =2027-04-10T10:00:00Z =2027-04-10T11:00:00Z"@,
    );
    assert(
        parts("remaining seen resource =2027-04-10T10:00:00Z =2027-04-10T11:00:00Z"@)
            =~= seq![
                "remaining"@,
                "seen"@,
                "resource"@,
                "=2027-04-10T10:00:00Z"@,
                "=2027-04-10T11:00:00Z"@,
            ]
    );
    assert("seen"@.len() == 4);
    assert("resource"@.len() == 8);
    lemma_apart(""@, "resource"@, 0);
    lemma_apart("cleared"@, "resource"@, 0);
    lemma_apart("answer"@, "resource"@, 0);
    lemma_apart("seen"@, "resource"@, 0);
    lemma_apart("rows"@, "resource"@, 1);
    lemma_apart("before"@, "resource"@, 0);
    lemma_apart("contenders"@, "resource"@, 0);
    lemma_apart("query"@, "resource"@, 0);
    assert("=2027-04-10T10:00:00Z"@.len() == 21);
    assert("=2027-04-10T10:00:00Z"@.skip(1) =~= "2027-04-10T10:00:00Z"@);
    assert("=2027-04-10T11:00:00Z"@.len() == 21);
    assert("=2027-04-10T11:00:00Z"@.skip(1) =~= "2027-04-10T11:00:00Z"@);
    assert(
        parts("remaining seen resource =2027-04-10T10:00:00Z =2027-04-10T11:00:00Z"@).skip(1)
            =~= seq!["seen"@, "resource"@, "=2027-04-10T10:00:00Z"@, "=2027-04-10T11:00:00Z"@]
    );
    assert("left,count"@ =~= "left"@ + seq![','] + "count"@);
    lemma_one_digit("2"@);
    assert(number_of("2"@) == Some(2u64));
    assert("held"@.len() == 4);
    assert("rows"@.len() == 4);
    assert("active seen"@ =~= "active"@ + seq![' '] + "seen"@);
    lemma_two_words("active"@, "seen"@, "active seen"@);
    assert(parts("active seen"@) =~= seq!["active"@, "seen"@]);
    assert(parts("active seen"@).skip(1) =~= seq!["seen"@]);
    assert("rows,items"@ =~= "rows"@ + seq![','] + "items"@);
    assert("answer"@.len() == 6);
    assert("answer,status"@ =~= "answer"@ + seq![','] + "status"@);
    assert("after"@[0] != "reply"@[0]);
    assert("before"@.len() == 6);
    lemma_apart(""@, "before"@, 0);
    lemma_apart("answer"@, "before"@, 0);
    lemma_apart("seen"@, "before"@, 0);
    lemma_apart("rows"@, "before"@, 0);
    lemma_apart("after"@, "before"@, 0);
    assert(elements_with(items_of(at(said(record, 29), "answers"@)), "status"@, Tree::Integer(201))
            == 1) by {
        was_said(l, known, answers, record, 30);
        unchanged(l, known, answers, record, 31);
        lemma_under(record[32], "contenders"@, "answers"@, "contenders,answers"@);
        saw_matching(l, known, answers, record, 32, "1"@, "status"@, "201"@, 1, 201);
    }
    assert(elements_with(items_of(at(said(record, 29), "answers"@)), "status"@, Tree::Integer(409))
            == 1) by {
        was_said(l, known, answers, record, 30);
        unchanged(l, known, answers, record, 31);
        unchanged(l, known, answers, record, 32);
        lemma_under(record[33], "contenders"@, "answers"@, "contenders,answers"@);
        saw_matching(l, known, answers, record, 33, "1"@, "status"@, "409"@, 1, 409);
    }
    assert(made_remaining(said(record, 35), at(known, "resource"@), Tree::Text("2027-04-10T10:00:00Z"@), Tree::Text("2027-04-10T11:00:00Z"@)) is Ok
            && at(
                made_remaining(said(record, 35), at(known, "resource"@), Tree::Text("2027-04-10T10:00:00Z"@), Tree::Text("2027-04-10T11:00:00Z"@))->Ok_0,
                "count"@,
            )
                == Tree::Integer(0)) by {
        was_made(l, known, answers, record, 37);
        was_said(l, known, answers, record, 36);
        assert(forall|j: int|
            0 <= j < 37 ==> is_check((#[trigger] l[j]).0@) || !touches(l[j].1@, "resource"@));
        stays_through(l, known, answers, record, 0, 37, "resource"@);
        let args37 = arguments(
            parts("remaining seen resource =2027-04-10T10:00:00Z =2027-04-10T11:00:00Z"@).skip(1),
            record[37],
        );
        assert(
            args37
                =~= seq![
                    said(record, 35),
                    at(known, "resource"@),
                    Tree::Text("2027-04-10T10:00:00Z"@),
                    Tree::Text("2027-04-10T11:00:00Z"@),
                ]
        );
        makes_remaining(args37, record[37]);
        unchanged(l, known, answers, record, 38);
        lemma_under(record[39], "left"@, "count"@, "left,count"@);
        saw_num(l, known, answers, record, 39, 0);
    }
    assert(made_active(said(record, 40)) is Ok
            && items_of(at(made_active(said(record, 40))->Ok_0, "items"@)).len() == 2) by {
        was_kept(l, known, answers, record, 44);
        was_made(l, known, answers, record, 42);
        was_said(l, known, answers, record, 41);
        let args42 = arguments(parts("active seen"@).skip(1), record[42]);
        assert(args42 =~= seq![said(record, 40)]);
        makes_active(args42, record[42]);
        unchanged(l, known, answers, record, 43);
        lemma_under(record[44], "rows"@, "items"@, "rows,items"@);
        saw_len(l, known, answers, record, 45, 2);
    }
    assert(at(said(record, 51), "status"@) == Tree::Integer(409)) by {
        was_said(l, known, answers, record, 52);
        unchanged(l, known, answers, record, 53);
        lemma_under(record[54], "answer"@, "status"@, "answer,status"@);
        saw_num(l, known, answers, record, 54, 409);
    }
    assert(made_active(said(record, 55)) is Ok
            && made_active(said(record, 46)) is Ok
            && at(made_active(said(record, 55))->Ok_0, "items"@)
                == at(made_active(said(record, 46))->Ok_0, "items"@)) by {
        was_kept(l, known, answers, record, 59);
        was_made(l, known, answers, record, 57);
        was_said(l, known, answers, record, 56);
        let args57 = arguments(parts("active seen"@).skip(1), record[57]);
        assert(args57 =~= seq![said(record, 55)]);
        makes_active(args57, record[57]);
        unchanged(l, known, answers, record, 58);
        lemma_under(record[59], "rows"@, "items"@, "rows,items"@);
        was_kept(l, known, answers, record, 50);
        was_made(l, known, answers, record, 48);
        was_said(l, known, answers, record, 47);
        let args48 = arguments(parts("active seen"@).skip(1), record[48]);
        assert(args48 =~= seq![said(record, 46)]);
        makes_active(args48, record[48]);
        unchanged(l, known, answers, record, 49);
        lemma_under(record[50], "rows"@, "items"@, "rows,items"@);
        assert(forall|j: int|
            51 <= j < 60 ==> is_check((#[trigger] l[j]).0@) || !touches(l[j].1@, "before"@));
        stays_through(l, known, answers, record, 51, 60, "before"@);
        saw_same(l, known, answers, record, 60);
    }
}

proof fn lemma_capacity_was_observed_3(known: Tree, answers: Seq<(Tree, bool)>, record: Seq<Tree>)
    requires
        passed(CAPACITY_AND_INTERVALS@, known, answers, record),
    ensures
        at(said(record, 61), "status"@) == Tree::Integer(201),
        made_remaining(said(record, 66), at(known, "resource"@), Tree::Text("2027-04-10T11:00:00Z"@), Tree::Text("2027-04-10T12:00:00Z"@)) is Ok
            && at(
                made_remaining(said(record, 66), at(known, "resource"@), Tree::Text("2027-04-10T11:00:00Z"@), Tree::Text("2027-04-10T12:00:00Z"@))->Ok_0,
                "count"@,
            )
                == Tree::Integer(1),
        made_availability_path(
            Tree::Text("2027-04-10T10:00:00Z"@),
            Tree::Text("2027-04-10T11:00:00Z"@),
        )
            == Ok::<Tree, Seq<char>>(at(record[35], "query"@)),
        made_availability_path(
            Tree::Text("2027-04-10T11:00:00Z"@),
            Tree::Text("2027-04-10T12:00:00Z"@),
        )
            == Ok::<Tree, Seq<char>>(at(record[66], "query"@)),
{
    let l = CAPACITY_AND_INTERVALS@;
    reveal_strlit("201");
    reveal_strlit("answer");
    reveal_strlit("reply");
    reveal_strlit("status");
    reveal_strlit("answer,status");
    reveal_strlit("1");
    reveal_strlit("left");
    reveal_strlit("remaining seen resource =2027-04-10T11:00:00Z =2027-04-10T12:00:00Z");
    reveal_strlit("remaining");
    reveal_strlit("seen resource =2027-04-10T11:00:00Z =2027-04-10T12:00:00Z");
    reveal_strlit("seen");
    reveal_strlit("resource =2027-04-10T11:00:00Z =2027-04-10T12:00:00Z");
    reveal_strlit("resource");
    reveal_strlit("=2027-04-10T11:00:00Z =2027-04-10T12:00:00Z");
    reveal_strlit("=2027-04-10T11:00:00Z");
    reveal_strlit("=2027-04-10T12:00:00Z");
    reveal_strlit("");
    reveal_strlit("cleared");
    reveal_strlit("rows");
    reveal_strlit("before");
    reveal_strlit("contenders");
    reveal_strlit("query");
    reveal_strlit("held");
    reveal_strlit("after");
    reveal_strlit("2027-04-10T11:00:00Z");
    reveal_strlit("2027-04-10T12:00:00Z");
    reveal_strlit("count");
    reveal_strlit("left,count");
    reveal_strlit("availability-path =2027-04-10T10:00:00Z =2027-04-10T11:00:00Z");
    reveal_strlit("availability-path");
    reveal_strlit("=2027-04-10T10:00:00Z =2027-04-10T11:00:00Z");
    reveal_strlit("=2027-04-10T10:00:00Z");
    reveal_strlit("2027-04-10T10:00:00Z");
    reveal_strlit("availability-path =2027-04-10T11:00:00Z =2027-04-10T12:00:00Z");
    lemma_three_digits("201"@);
    assert(number_of("201"@) == Some(201u64));
    assert("answer"@.len() == 6);
    assert("reply"@.len() == 5);
    assert("answer,status"@ =~= "answer"@ + seq![','] + "status"@);
    lemma_one_digit("1"@);
    assert(number_of("1"@) == Some(1u64));
    assert("left"@.len() == 4);
    assert(
        "=2027-04-10T11:00:00Z =2027-04-10T12:00:00Z"@
            =~= "=2027-04-10T11:00:00Z"@ + seq![' '] + "=2027-04-10T12:00:00Z"@
    );
    lemma_two_words(
        "=2027-04-10T11:00:00Z"@,
        "=2027-04-10T12:00:00Z"@,
        "=2027-04-10T11:00:00Z =2027-04-10T12:00:00Z"@,
    );
    assert(
        "resource =2027-04-10T11:00:00Z =2027-04-10T12:00:00Z"@
            =~= "resource"@ + seq![' '] + "=2027-04-10T11:00:00Z =2027-04-10T12:00:00Z"@
    );
    lemma_four_words(
        "resource"@,
        "=2027-04-10T11:00:00Z =2027-04-10T12:00:00Z"@,
        "resource =2027-04-10T11:00:00Z =2027-04-10T12:00:00Z"@,
    );
    assert(
        "seen resource =2027-04-10T11:00:00Z =2027-04-10T12:00:00Z"@
            =~= "seen"@ + seq![' '] + "resource =2027-04-10T11:00:00Z =2027-04-10T12:00:00Z"@
    );
    lemma_four_words(
        "seen"@,
        "resource =2027-04-10T11:00:00Z =2027-04-10T12:00:00Z"@,
        "seen resource =2027-04-10T11:00:00Z =2027-04-10T12:00:00Z"@,
    );
    assert(
        "remaining seen resource =2027-04-10T11:00:00Z =2027-04-10T12:00:00Z"@
            =~= "remaining"@ + seq![' '] + "seen resource =2027-04-10T11:00:00Z =2027-04-10T12:00:00Z"@
    );
    lemma_four_words(
        "remaining"@,
        "seen resource =2027-04-10T11:00:00Z =2027-04-10T12:00:00Z"@,
        "remaining seen resource =2027-04-10T11:00:00Z =2027-04-10T12:00:00Z"@,
    );
    assert(
        parts("remaining seen resource =2027-04-10T11:00:00Z =2027-04-10T12:00:00Z"@)
            =~= seq![
                "remaining"@,
                "seen"@,
                "resource"@,
                "=2027-04-10T11:00:00Z"@,
                "=2027-04-10T12:00:00Z"@,
            ]
    );
    assert("seen"@.len() == 4);
    assert("resource"@.len() == 8);
    lemma_apart(""@, "resource"@, 0);
    lemma_apart("cleared"@, "resource"@, 0);
    lemma_apart("answer"@, "resource"@, 0);
    lemma_apart("seen"@, "resource"@, 0);
    lemma_apart("rows"@, "resource"@, 1);
    lemma_apart("before"@, "resource"@, 0);
    lemma_apart("contenders"@, "resource"@, 0);
    lemma_apart("query"@, "resource"@, 0);
    lemma_apart("left"@, "resource"@, 0);
    lemma_apart("held"@, "resource"@, 0);
    lemma_apart("after"@, "resource"@, 0);
    assert("=2027-04-10T11:00:00Z"@.len() == 21);
    assert("=2027-04-10T11:00:00Z"@.skip(1) =~= "2027-04-10T11:00:00Z"@);
    assert("=2027-04-10T12:00:00Z"@.len() == 21);
    assert("=2027-04-10T12:00:00Z"@.skip(1) =~= "2027-04-10T12:00:00Z"@);
    assert(
        parts("remaining seen resource =2027-04-10T11:00:00Z =2027-04-10T12:00:00Z"@).skip(1)
            =~= seq!["seen"@, "resource"@, "=2027-04-10T11:00:00Z"@, "=2027-04-10T12:00:00Z"@]
    );
    assert("left,count"@ =~= "left"@ + seq![','] + "count"@);
    assert(
        "=2027-04-10T10:00:00Z =2027-04-10T11:00:00Z"@
            =~= "=2027-04-10T10:00:00Z"@ + seq![' '] + "=2027-04-10T11:00:00Z"@
    );
    lemma_two_words(
        "=2027-04-10T10:00:00Z"@,
        "=2027-04-10T11:00:00Z"@,
        "=2027-04-10T10:00:00Z =2027-04-10T11:00:00Z"@,
    );
    assert(
        "availability-path =2027-04-10T10:00:00Z =2027-04-10T11:00:00Z"@
            =~= "availability-path"@ + seq![' '] + "=2027-04-10T10:00:00Z =2027-04-10T11:00:00Z"@
    );
    lemma_four_words(
        "availability-path"@,
        "=2027-04-10T10:00:00Z =2027-04-10T11:00:00Z"@,
        "availability-path =2027-04-10T10:00:00Z =2027-04-10T11:00:00Z"@,
    );
    assert(
        parts("availability-path =2027-04-10T10:00:00Z =2027-04-10T11:00:00Z"@)
            =~= seq!["availability-path"@, "=2027-04-10T10:00:00Z"@, "=2027-04-10T11:00:00Z"@]
    );
    assert("=2027-04-10T10:00:00Z"@.len() == 21);
    assert("=2027-04-10T10:00:00Z"@.skip(1) =~= "2027-04-10T10:00:00Z"@);
    assert(
        parts("availability-path =2027-04-10T10:00:00Z =2027-04-10T11:00:00Z"@).skip(1)
            =~= seq!["=2027-04-10T10:00:00Z"@, "=2027-04-10T11:00:00Z"@]
    );
    assert(
        "availability-path =2027-04-10T11:00:00Z =2027-04-10T12:00:00Z"@
            =~= "availability-path"@ + seq![' '] + "=2027-04-10T11:00:00Z =2027-04-10T12:00:00Z"@
    );
    lemma_four_words(
        "availability-path"@,
        "=2027-04-10T11:00:00Z =2027-04-10T12:00:00Z"@,
        "availability-path =2027-04-10T11:00:00Z =2027-04-10T12:00:00Z"@,
    );
    assert(
        parts("availability-path =2027-04-10T11:00:00Z =2027-04-10T12:00:00Z"@)
            =~= seq!["availability-path"@, "=2027-04-10T11:00:00Z"@, "=2027-04-10T12:00:00Z"@]
    );
    assert(
        parts("availability-path =2027-04-10T11:00:00Z =2027-04-10T12:00:00Z"@).skip(1)
            =~= seq!["=2027-04-10T11:00:00Z"@, "=2027-04-10T12:00:00Z"@]
    );
    assert(at(said(record, 61), "status"@) == Tree::Integer(201)) by {
        was_said(l, known, answers, record, 62);
        unchanged(l, known, answers, record, 63);
        lemma_under(record[64], "answer"@, "status"@, "answer,status"@);
        saw_num(l, known, answers, record, 64, 201);
    }
    assert(made_remaining(said(record, 66), at(known, "resource"@), Tree::Text("2027-04-10T11:00:00Z"@), Tree::Text("2027-04-10T12:00:00Z"@)) is Ok
            && at(
                made_remaining(said(record, 66), at(known, "resource"@), Tree::Text("2027-04-10T11:00:00Z"@), Tree::Text("2027-04-10T12:00:00Z"@))->Ok_0,
                "count"@,
            )
                == Tree::Integer(1)) by {
        was_made(l, known, answers, record, 68);
        was_said(l, known, answers, record, 67);
        assert(forall|j: int|
            0 <= j < 68 ==> is_check((#[trigger] l[j]).0@) || !touches(l[j].1@, "resource"@));
        stays_through(l, known, answers, record, 0, 68, "resource"@);
        let args68 = arguments(
            parts("remaining seen resource =2027-04-10T11:00:00Z =2027-04-10T12:00:00Z"@).skip(1),
            record[68],
        );
        assert(
            args68
                =~= seq![
                    said(record, 66),
                    at(known, "resource"@),
                    Tree::Text("2027-04-10T11:00:00Z"@),
                    Tree::Text("2027-04-10T12:00:00Z"@),
                ]
        );
        makes_remaining(args68, record[68]);
        unchanged(l, known, answers, record, 69);
        lemma_under(record[70], "left"@, "count"@, "left,count"@);
        saw_num(l, known, answers, record, 70, 1);
    }
    assert(made_availability_path(
            Tree::Text("2027-04-10T10:00:00Z"@),
            Tree::Text("2027-04-10T11:00:00Z"@),
        )
            == Ok::<Tree, Seq<char>>(at(record[35], "query"@))) by {
        was_made(l, known, answers, record, 34);
        let args34 = arguments(
            parts("availability-path =2027-04-10T10:00:00Z =2027-04-10T11:00:00Z"@).skip(1),
            record[34],
        );
        assert(
            args34
                =~= seq![Tree::Text("2027-04-10T10:00:00Z"@), Tree::Text("2027-04-10T11:00:00Z"@)]
        );
        makes_availability_path(args34, record[34]);
    }
    assert(made_availability_path(
            Tree::Text("2027-04-10T11:00:00Z"@),
            Tree::Text("2027-04-10T12:00:00Z"@),
        )
            == Ok::<Tree, Seq<char>>(at(record[66], "query"@))) by {
        was_made(l, known, answers, record, 65);
        let args65 = arguments(
            parts("availability-path =2027-04-10T11:00:00Z =2027-04-10T12:00:00Z"@).skip(1),
            record[65],
        );
        assert(
            args65
                =~= seq![Tree::Text("2027-04-10T11:00:00Z"@), Tree::Text("2027-04-10T12:00:00Z"@)]
        );
        makes_availability_path(args65, record[65]);
    }
}

/// The capacity check finishes only where every invalid interval and quantity was answered with 400
/// and nothing was booked, one of two contenders was booked and the other refused, the refusal of a
/// further booking changed nothing, and an adjacent interval was free.
pub proof fn capacity_was_observed(known: Tree, answers: Seq<(Tree, bool)>) -> (record: Seq<Tree>)
    requires
        known is Object,
        finished(CAPACITY_AND_INTERVALS@, known, answers),
    ensures
        passed(CAPACITY_AND_INTERVALS@, known, answers, record),
        CAPACITY_AND_INTERVALS@[3].2@
            == "book Ada 2027-04-10T11:00:00Z 2027-04-10T10:00:00Z 1 token"@,
        at(said(record, 3), "status"@) == Tree::Integer(400),
        CAPACITY_AND_INTERVALS@[7].2@
            == "book Ada 2027-04-10T10:00:00Z 2027-04-10T10:00:00Z 1 token"@,
        at(said(record, 7), "status"@) == Tree::Integer(400),
        CAPACITY_AND_INTERVALS@[11].2@ == "book Ada not-a-date 2027-04-10T11:00:00Z 1 token"@,
        at(said(record, 11), "status"@) == Tree::Integer(400),
        CAPACITY_AND_INTERVALS@[15].2@
            == "book Ada 2027-04-10T10:00:00Z 2027-04-10T11:00:00Z 0 token"@,
        at(said(record, 15), "status"@) == Tree::Integer(400),
        CAPACITY_AND_INTERVALS@[19].2@ == "get /reservations token"@,
        made_active(said(record, 19)) is Ok
            && at(made_active(said(record, 19))->Ok_0, "items"@) is List
            && items_of(at(made_active(said(record, 19))->Ok_0, "items"@)).len() == 0,
        CAPACITY_AND_INTERVALS@[25].2@
            == "book Ada 2027-04-10T10:00:00Z 2027-04-10T11:00:00Z 1 token"@,
        at(said(record, 25), "status"@) == Tree::Integer(201),
        CAPACITY_AND_INTERVALS@[29].2@ == "contend"@,
        elements_with(items_of(at(said(record, 29), "answers"@)), "status"@, Tree::Integer(201))
            == 1,
        elements_with(items_of(at(said(record, 29), "answers"@)), "status"@, Tree::Integer(409))
            == 1,
        CAPACITY_AND_INTERVALS@[35].2@ == "get $query none"@,
        made_remaining(said(record, 35), at(known, "resource"@), Tree::Text("2027-04-10T10:00:00Z"@), Tree::Text("2027-04-10T11:00:00Z"@)) is Ok
            && at(
                made_remaining(said(record, 35), at(known, "resource"@), Tree::Text("2027-04-10T10:00:00Z"@), Tree::Text("2027-04-10T11:00:00Z"@))->Ok_0,
                "count"@,
            )
                == Tree::Integer(0),
        CAPACITY_AND_INTERVALS@[40].2@ == "get /reservations token"@,
        made_active(said(record, 40)) is Ok
            && items_of(at(made_active(said(record, 40))->Ok_0, "items"@)).len() == 2,
        CAPACITY_AND_INTERVALS@[51].2@
            == "book Ada 2027-04-10T10:00:00Z 2027-04-10T11:00:00Z 1 token"@,
        at(said(record, 51), "status"@) == Tree::Integer(409),
        CAPACITY_AND_INTERVALS@[55].2@ == "get /reservations token"@,
        CAPACITY_AND_INTERVALS@[46].2@ == "get /reservations token"@,
        made_active(said(record, 55)) is Ok
            && made_active(said(record, 46)) is Ok
            && at(made_active(said(record, 55))->Ok_0, "items"@)
                == at(made_active(said(record, 46))->Ok_0, "items"@),
        CAPACITY_AND_INTERVALS@[61].2@
            == "book Ada 2027-04-10T11:00:00Z 2027-04-10T12:00:00Z 1 token"@,
        at(said(record, 61), "status"@) == Tree::Integer(201),
        CAPACITY_AND_INTERVALS@[66].2@ == "get $query none"@,
        made_remaining(said(record, 66), at(known, "resource"@), Tree::Text("2027-04-10T11:00:00Z"@), Tree::Text("2027-04-10T12:00:00Z"@)) is Ok
            && at(
                made_remaining(said(record, 66), at(known, "resource"@), Tree::Text("2027-04-10T11:00:00Z"@), Tree::Text("2027-04-10T12:00:00Z"@))->Ok_0,
                "count"@,
            )
                == Tree::Integer(1),
        made_availability_path(
            Tree::Text("2027-04-10T10:00:00Z"@),
            Tree::Text("2027-04-10T11:00:00Z"@),
        )
            == Ok::<Tree, Seq<char>>(at(record[35], "query"@)),
        made_availability_path(
            Tree::Text("2027-04-10T11:00:00Z"@),
            Tree::Text("2027-04-10T12:00:00Z"@),
        )
            == Ok::<Tree, Seq<char>>(at(record[66], "query"@)),
{
    let record = finished_scenarios_are_recorded(CAPACITY_AND_INTERVALS@, known, answers);
    lemma_capacity_was_observed_1(known, answers, record);
    lemma_capacity_was_observed_2(known, answers, record);
    lemma_capacity_was_observed_3(known, answers, record);
    record
}

proof fn lemma_durability_was_observed_1(known: Tree, answers: Seq<(Tree, bool)>, record: Seq<Tree>)
    requires
        passed(DURABLE_BOOKINGS@, known, answers, record),
    ensures
        at(said(record, 3), "status"@) == Tree::Integer(201),
        at(said(record, 7), "status"@) == Tree::Integer(201),
        at(said(record, 11), "status"@) == Tree::Integer(409),
        at(said(record, 22), "status"@) == Tree::Integer(200),
        at(said(record, 26), "status"@) == Tree::Integer(201),
        at(said(record, 38), "value,State,Running"@) == Tree::Bool(false),
{
    let l = DURABLE_BOOKINGS@;
    reveal_strlit("201");
    reveal_strlit("answer");
    reveal_strlit("reply");
    reveal_strlit("status");
    reveal_strlit("answer,status");
    reveal_strlit("409");
    reveal_strlit("200");
    reveal_strlit("state");
    reveal_strlit("value,State,Running");
    reveal_strlit("state,value,State,Running");
    lemma_three_digits("201"@);
    assert(number_of("201"@) == Some(201u64));
    assert("answer"@.len() == 6);
    assert("reply"@.len() == 5);
    assert("answer,status"@ =~= "answer"@ + seq![','] + "status"@);
    lemma_three_digits("409"@);
    assert(number_of("409"@) == Some(409u64));
    lemma_three_digits("200"@);
    assert(number_of("200"@) == Some(200u64));
    assert("state"@[0] != "reply"@[0]);
    assert("state,value,State,Running"@ =~= "state"@ + seq![','] + "value,State,Running"@);
    assert(at(said(record, 3), "status"@) == Tree::Integer(201)) by {
        was_said(l, known, answers, record, 4);
        unchanged(l, known, answers, record, 5);
        lemma_under(record[6], "answer"@, "status"@, "answer,status"@);
        saw_num(l, known, answers, record, 6, 201);
    }
    assert(at(said(record, 7), "status"@) == Tree::Integer(201)) by {
        was_said(l, known, answers, record, 8);
        unchanged(l, known, answers, record, 9);
        lemma_under(record[10], "answer"@, "status"@, "answer,status"@);
        saw_num(l, known, answers, record, 10, 201);
    }
    assert(at(said(record, 11), "status"@) == Tree::Integer(409)) by {
        was_said(l, known, answers, record, 12);
        unchanged(l, known, answers, record, 13);
        lemma_under(record[14], "answer"@, "status"@, "answer,status"@);
        saw_num(l, known, answers, record, 14, 409);
    }
    assert(at(said(record, 22), "status"@) == Tree::Integer(200)) by {
        was_said(l, known, answers, record, 23);
        unchanged(l, known, answers, record, 24);
        lemma_under(record[25], "answer"@, "status"@, "answer,status"@);
        saw_num(l, known, answers, record, 25, 200);
    }
    assert(at(said(record, 26), "status"@) == Tree::Integer(201)) by {
        was_said(l, known, answers, record, 27);
        unchanged(l, known, answers, record, 28);
        lemma_under(record[29], "answer"@, "status"@, "answer,status"@);
        saw_num(l, known, answers, record, 29, 201);
    }
    assert(at(said(record, 38), "value,State,Running"@) == Tree::Bool(false)) by {
        was_said(l, known, answers, record, 39);
        unchanged(l, known, answers, record, 40);
        lemma_under(record[41], "state"@, "value,State,Running"@, "state,value,State,Running"@);
        saw_false(l, known, answers, record, 41);
    }
}

proof fn lemma_durability_was_observed_2(known: Tree, answers: Seq<(Tree, bool)>, record: Seq<Tree>)
    requires
        passed(DURABLE_BOOKINGS@, known, answers, record),
    ensures
        made_active(said(record, 48)) is Ok
            && made_active(said(record, 30)) is Ok
            && at(made_active(said(record, 48))->Ok_0, "items"@)
                == at(made_active(said(record, 30))->Ok_0, "items"@),
        made_remaining(said(record, 55), at(known, "resource"@), Tree::Text("2027-04-10T10:00:00Z"@), Tree::Text("2027-04-10T11:00:00Z"@)) is Ok
            && at(
                made_remaining(said(record, 55), at(known, "resource"@), Tree::Text("2027-04-10T10:00:00Z"@), Tree::Text("2027-04-10T11:00:00Z"@))->Ok_0,
                "count"@,
            )
                == Tree::Integer(0),
        made_active(said(record, 15)) is Ok
            && made_first_booking(at(made_active(said(record, 15))->Ok_0, "items"@)) is Ok
            && made_booking_path(
                made_first_booking(at(made_active(said(record, 15))->Ok_0, "items"@))->Ok_0,
            )
                == Ok::<Tree, Seq<char>>(at(record[22], "place"@)),
        made_availability_path(
            Tree::Text("2027-04-10T10:00:00Z"@),
            Tree::Text("2027-04-10T11:00:00Z"@),
        )
            == Ok::<Tree, Seq<char>>(at(record[55], "query"@)),
{
    let l = DURABLE_BOOKINGS@;
    reveal_strlit("after");
    reveal_strlit("reply");
    reveal_strlit("rows");
    reveal_strlit("active");
    reveal_strlit("seen");
    reveal_strlit("active seen");
    reveal_strlit("items");
    reveal_strlit("rows,items");
    reveal_strlit("before");
    reveal_strlit("");
    reveal_strlit("stopped");
    reveal_strlit("state");
    reveal_strlit("removed");
    reveal_strlit("launched");
    reveal_strlit("0");
    reveal_strlit("left");
    reveal_strlit("remaining seen resource =2027-04-10T10:00:00Z =2027-04-10T11:00:00Z");
    reveal_strlit("remaining");
    reveal_strlit("seen resource =2027-04-10T10:00:00Z =2027-04-10T11:00:00Z");
    reveal_strlit("resource =2027-04-10T10:00:00Z =2027-04-10T11:00:00Z");
    reveal_strlit("resource");
    reveal_strlit("=2027-04-10T10:00:00Z =2027-04-10T11:00:00Z");
    reveal_strlit("=2027-04-10T10:00:00Z");
    reveal_strlit("=2027-04-10T11:00:00Z");
    reveal_strlit("cleared");
    reveal_strlit("answer");
    reveal_strlit("held");
    reveal_strlit("item");
    reveal_strlit("place");
    reveal_strlit("query");
    reveal_strlit("2027-04-10T10:00:00Z");
    reveal_strlit("2027-04-10T11:00:00Z");
    reveal_strlit("count");
    reveal_strlit("left,count");
    reveal_strlit("booking-path");
    reveal_strlit("booking-path item");
    reveal_strlit("first-booking");
    reveal_strlit("first-booking held");
    reveal_strlit("availability-path =2027-04-10T10:00:00Z =2027-04-10T11:00:00Z");
    reveal_strlit("availability-path");
    assert("after"@[0] != "reply"@[0]);
    assert("rows"@.len() == 4);
    assert("reply"@.len() == 5);
    assert("active seen"@ =~= "active"@ + seq![' '] + "seen"@);
    lemma_two_words("active"@, "seen"@, "active seen"@);
    assert(parts("active seen"@) =~= seq!["active"@, "seen"@]);
    assert("seen"@.len() == 4);
    assert(parts("active seen"@).skip(1) =~= seq!["seen"@]);
    assert("rows,items"@ =~= "rows"@ + seq![','] + "items"@);
    assert("before"@.len() == 6);
    lemma_apart(""@, "before"@, 0);
    lemma_apart("stopped"@, "before"@, 0);
    lemma_apart("state"@, "before"@, 0);
    lemma_apart("removed"@, "before"@, 0);
    lemma_apart("launched"@, "before"@, 0);
    lemma_apart("seen"@, "before"@, 0);
    lemma_apart("rows"@, "before"@, 0);
    lemma_apart("after"@, "before"@, 0);
    lemma_one_digit("0"@);
    assert(number_of("0"@) == Some(0u64));
    assert("left"@.len() == 4);
    assert(
        "=2027-04-10T10:00:00Z =2027-04-10T11:00:00Z"@
            =~= "=2027-04-10T10:00:00Z"@ + seq![' '] + "=2027-04-10T11:00:00Z"@
    );
    lemma_two_words(
        "=2027-04-10T10:00:00Z"@,
        "=2027-04-10T11:00:00Z"@,
        "=2027-04-10T10:00:00Z =2027-04-10T11:00:00Z"@,
    );
    assert(
        "resource =2027-04-10T10:00:00Z =2027-04-10T11:00:00Z"@
            =~= "resource"@ + seq![' '] + "=2027-04-10T10:00:00Z =2027-04-10T11:00:00Z"@
    );
    lemma_four_words(
        "resource"@,
        "=2027-04-10T10:00:00Z =2027-04-10T11:00:00Z"@,
        "resource =2027-04-10T10:00:00Z =2027-04-10T11:00:00Z"@,
    );
    assert(
        "seen resource =2027-04-10T10:00:00Z =2027-04-10T11:00:00Z"@
            =~= "seen"@ + seq![' '] + "resource =2027-04-10T10:00:00Z =2027-04-10T11:00:00Z"@
    );
    lemma_four_words(
        "seen"@,
        "resource =2027-04-10T10:00:00Z =2027-04-10T11:00:00Z"@,
        "seen resource =2027-04-10T10:00:00Z =2027-04-10T11:00:00Z"@,
    );
    assert(
        "remaining seen resource =2027-04-10T10:00:00Z =2027-04-10T11:00:00Z"@
            =~= "remaining"@ + seq![' '] + "seen resource =2027-04-10T10:00:00Z =2027-04-10T11:00:00Z"@
    );
    lemma_four_words(
        "remaining"@,
        "seen resource =2027-04-10T10:00:00Z =2027-04-10T11:00:00Z"@,
        "remaining seen resource =2027-04-10T10:00:00Z =2027-04-10T11:00:00Z"@,
    );
    assert(
        parts("remaining seen resource =2027-04-10T10:00:00Z =2027-04-10T11:00:00Z"@)
            =~= seq![
                "remaining"@,
                "seen"@,
                "resource"@,
                "=2027-04-10T10:00:00Z"@,
                "=2027-04-10T11:00:00Z"@,
            ]
    );
    assert("resource"@.len() == 8);
    lemma_apart(""@, "resource"@, 0);
    lemma_apart("cleared"@, "resource"@, 0);
    lemma_apart("answer"@, "resource"@, 0);
    lemma_apart("seen"@, "resource"@, 0);
    lemma_apart("rows"@, "resource"@, 1);
    lemma_apart("held"@, "resource"@, 0);
    lemma_apart("item"@, "resource"@, 0);
    lemma_apart("place"@, "resource"@, 0);
    lemma_apart("before"@, "resource"@, 0);
    lemma_apart("stopped"@, "resource"@, 0);
    lemma_apart("state"@, "resource"@, 0);
    lemma_apart("removed"@, "resource"@, 2);
    lemma_apart("launched"@, "resource"@, 0);
    lemma_apart("after"@, "resource"@, 0);
    lemma_apart("query"@, "resource"@, 0);
    assert("=2027-04-10T10:00:00Z"@.len() == 21);
    assert("=2027-04-10T10:00:00Z"@.skip(1) =~= "2027-04-10T10:00:00Z"@);
    assert("=2027-04-10T11:00:00Z"@.len() == 21);
    assert("=2027-04-10T11:00:00Z"@.skip(1) =~= "2027-04-10T11:00:00Z"@);
    assert(
        parts("remaining seen resource =2027-04-10T10:00:00Z =2027-04-10T11:00:00Z"@).skip(1)
            =~= seq!["seen"@, "resource"@, "=2027-04-10T10:00:00Z"@, "=2027-04-10T11:00:00Z"@]
    );
    assert("left,count"@ =~= "left"@ + seq![','] + "count"@);
    assert("booking-path item"@ =~= "booking-path"@ + seq![' '] + "item"@);
    lemma_two_words("booking-path"@, "item"@, "booking-path item"@);
    assert(parts("booking-path item"@) =~= seq!["booking-path"@, "item"@]);
    assert("item"@.len() == 4);
    assert("first-booking held"@ =~= "first-booking"@ + seq![' '] + "held"@);
    lemma_two_words("first-booking"@, "held"@, "first-booking held"@);
    assert(parts("first-booking held"@) =~= seq!["first-booking"@, "held"@]);
    assert("held"@.len() == 4);
    assert(parts("first-booking held"@).skip(1) =~= seq!["held"@]);
    assert(parts("booking-path item"@).skip(1) =~= seq!["item"@]);
    assert(
        "availability-path =2027-04-10T10:00:00Z =2027-04-10T11:00:00Z"@
            =~= "availability-path"@ + seq![' '] + "=2027-04-10T10:00:00Z =2027-04-10T11:00:00Z"@
    );
    lemma_four_words(
        "availability-path"@,
        "=2027-04-10T10:00:00Z =2027-04-10T11:00:00Z"@,
        "availability-path =2027-04-10T10:00:00Z =2027-04-10T11:00:00Z"@,
    );
    assert(
        parts("availability-path =2027-04-10T10:00:00Z =2027-04-10T11:00:00Z"@)
            =~= seq!["availability-path"@, "=2027-04-10T10:00:00Z"@, "=2027-04-10T11:00:00Z"@]
    );
    assert(
        parts("availability-path =2027-04-10T10:00:00Z =2027-04-10T11:00:00Z"@).skip(1)
            =~= seq!["=2027-04-10T10:00:00Z"@, "=2027-04-10T11:00:00Z"@]
    );
    assert(made_active(said(record, 48)) is Ok
            && made_active(said(record, 30)) is Ok
            && at(made_active(said(record, 48))->Ok_0, "items"@)
                == at(made_active(said(record, 30))->Ok_0, "items"@)) by {
        was_kept(l, known, answers, record, 52);
        was_made(l, known, answers, record, 50);
        was_said(l, known, answers, record, 49);
        let args50 = arguments(parts("active seen"@).skip(1), record[50]);
        assert(args50 =~= seq![said(record, 48)]);
        makes_active(args50, record[50]);
        unchanged(l, known, answers, record, 51);
        lemma_under(record[52], "rows"@, "items"@, "rows,items"@);
        was_kept(l, known, answers, record, 34);
        was_made(l, known, answers, record, 32);
        was_said(l, known, answers, record, 31);
        let args32 = arguments(parts("active seen"@).skip(1), record[32]);
        assert(args32 =~= seq![said(record, 30)]);
        makes_active(args32, record[32]);
        unchanged(l, known, answers, record, 33);
        lemma_under(record[34], "rows"@, "items"@, "rows,items"@);
        assert(forall|j: int|
            35 <= j < 53 ==> is_check((#[trigger] l[j]).0@) || !touches(l[j].1@, "before"@));
        stays_through(l, known, answers, record, 35, 53, "before"@);
        saw_same(l, known, answers, record, 53);
    }
    assert(made_remaining(said(record, 55), at(known, "resource"@), Tree::Text("2027-04-10T10:00:00Z"@), Tree::Text("2027-04-10T11:00:00Z"@)) is Ok
            && at(
                made_remaining(said(record, 55), at(known, "resource"@), Tree::Text("2027-04-10T10:00:00Z"@), Tree::Text("2027-04-10T11:00:00Z"@))->Ok_0,
                "count"@,
            )
                == Tree::Integer(0)) by {
        was_made(l, known, answers, record, 57);
        was_said(l, known, answers, record, 56);
        assert(forall|j: int|
            0 <= j < 57 ==> is_check((#[trigger] l[j]).0@) || !touches(l[j].1@, "resource"@));
        stays_through(l, known, answers, record, 0, 57, "resource"@);
        let args57 = arguments(
            parts("remaining seen resource =2027-04-10T10:00:00Z =2027-04-10T11:00:00Z"@).skip(1),
            record[57],
        );
        assert(
            args57
                =~= seq![
                    said(record, 55),
                    at(known, "resource"@),
                    Tree::Text("2027-04-10T10:00:00Z"@),
                    Tree::Text("2027-04-10T11:00:00Z"@),
                ]
        );
        makes_remaining(args57, record[57]);
        unchanged(l, known, answers, record, 58);
        lemma_under(record[59], "left"@, "count"@, "left,count"@);
        saw_num(l, known, answers, record, 59, 0);
    }
    assert(made_active(said(record, 15)) is Ok
            && made_first_booking(at(made_active(said(record, 15))->Ok_0, "items"@)) is Ok
            && made_booking_path(
                made_first_booking(at(made_active(said(record, 15))->Ok_0, "items"@))->Ok_0,
            )
                == Ok::<Tree, Seq<char>>(at(record[22], "place"@))) by {
        was_made(l, known, answers, record, 21);
        was_made(l, known, answers, record, 20);
        was_kept(l, known, answers, record, 19);
        was_made(l, known, answers, record, 17);
        was_said(l, known, answers, record, 16);
        let args17 = arguments(parts("active seen"@).skip(1), record[17]);
        assert(args17 =~= seq![said(record, 15)]);
        makes_active(args17, record[17]);
        unchanged(l, known, answers, record, 18);
        lemma_under(record[19], "rows"@, "items"@, "rows,items"@);
        let args20 = arguments(parts("first-booking held"@).skip(1), record[20]);
        assert(args20 =~= seq![at(made_active(said(record, 15))->Ok_0, "items"@)]);
        makes_first_booking(args20, record[20]);
        let args21 = arguments(parts("booking-path item"@).skip(1), record[21]);
        assert(
            args21
                =~= seq![made_first_booking(at(made_active(said(record, 15))->Ok_0, "items"@))->Ok_0]
        );
        makes_booking_path(args21, record[21]);
    }
    assert(made_availability_path(
            Tree::Text("2027-04-10T10:00:00Z"@),
            Tree::Text("2027-04-10T11:00:00Z"@),
        )
            == Ok::<Tree, Seq<char>>(at(record[55], "query"@))) by {
        was_made(l, known, answers, record, 54);
        let args54 = arguments(
            parts("availability-path =2027-04-10T10:00:00Z =2027-04-10T11:00:00Z"@).skip(1),
            record[54],
        );
        assert(
            args54
                =~= seq![Tree::Text("2027-04-10T10:00:00Z"@), Tree::Text("2027-04-10T11:00:00Z"@)]
        );
        makes_availability_path(args54, record[54]);
    }
}

/// The durability check finishes only where the container was seen stopped, and the bookings after
/// its recreation were those before.
pub proof fn durability_was_observed(known: Tree, answers: Seq<(Tree, bool)>) -> (record: Seq<Tree>)
    requires
        known is Object,
        finished(DURABLE_BOOKINGS@, known, answers),
    ensures
        passed(DURABLE_BOOKINGS@, known, answers, record),
        DURABLE_BOOKINGS@[3].2@ == "book Ada 2027-04-10T10:00:00Z 2027-04-10T11:00:00Z 1 token"@,
        at(said(record, 3), "status"@) == Tree::Integer(201),
        DURABLE_BOOKINGS@[7].2@ == "book Bo 2027-04-10T10:00:00Z 2027-04-10T11:00:00Z 1 token"@,
        at(said(record, 7), "status"@) == Tree::Integer(201),
        DURABLE_BOOKINGS@[11].2@ == "book Ada 2027-04-10T10:00:00Z 2027-04-10T11:00:00Z 1 token"@,
        at(said(record, 11), "status"@) == Tree::Integer(409),
        DURABLE_BOOKINGS@[22].2@ == "delete $place token"@,
        at(said(record, 22), "status"@) == Tree::Integer(200),
        DURABLE_BOOKINGS@[26].2@ == "book Ada 2027-04-10T10:00:00Z 2027-04-10T11:00:00Z 1 token"@,
        at(said(record, 26), "status"@) == Tree::Integer(201),
        DURABLE_BOOKINGS@[38].2@ == "container inspect"@,
        at(said(record, 38), "value,State,Running"@) == Tree::Bool(false),
        DURABLE_BOOKINGS@[48].2@ == "get /reservations token"@,
        DURABLE_BOOKINGS@[30].2@ == "get /reservations token"@,
        made_active(said(record, 48)) is Ok
            && made_active(said(record, 30)) is Ok
            && at(made_active(said(record, 48))->Ok_0, "items"@)
                == at(made_active(said(record, 30))->Ok_0, "items"@),
        DURABLE_BOOKINGS@[55].2@ == "get $query none"@,
        made_remaining(said(record, 55), at(known, "resource"@), Tree::Text("2027-04-10T10:00:00Z"@), Tree::Text("2027-04-10T11:00:00Z"@)) is Ok
            && at(
                made_remaining(said(record, 55), at(known, "resource"@), Tree::Text("2027-04-10T10:00:00Z"@), Tree::Text("2027-04-10T11:00:00Z"@))->Ok_0,
                "count"@,
            )
                == Tree::Integer(0),
        DURABLE_BOOKINGS@[15].2@ == "get /reservations token"@,
        made_active(said(record, 15)) is Ok
            && made_first_booking(at(made_active(said(record, 15))->Ok_0, "items"@)) is Ok
            && made_booking_path(
                made_first_booking(at(made_active(said(record, 15))->Ok_0, "items"@))->Ok_0,
            )
                == Ok::<Tree, Seq<char>>(at(record[22], "place"@)),
        made_availability_path(
            Tree::Text("2027-04-10T10:00:00Z"@),
            Tree::Text("2027-04-10T11:00:00Z"@),
        )
            == Ok::<Tree, Seq<char>>(at(record[55], "query"@)),
{
    let record = finished_scenarios_are_recorded(DURABLE_BOOKINGS@, known, answers);
    lemma_durability_was_observed_1(known, answers, record);
    lemma_durability_was_observed_2(known, answers, record);
    record
}

proof fn lemma_cancellation_was_observed_1(
    known: Tree,
    answers: Seq<(Tree, bool)>,
    record: Seq<Tree>,
)
    requires
        passed(CANCELLATION_POLICY@, known, answers, record),
    ensures
        at(said(record, 3), "status"@) == Tree::Integer(201),
        at(said(record, 9), "status"@) == Tree::Integer(200),
        at(said(record, 14), "status"@) == Tree::Integer(200),
        made_remaining(said(record, 19), at(known, "resource"@), Tree::Text("2027-04-10T10:00:00Z"@), Tree::Text("2027-04-10T11:00:00Z"@)) is Ok
            && at(
                made_remaining(said(record, 19), at(known, "resource"@), Tree::Text("2027-04-10T10:00:00Z"@), Tree::Text("2027-04-10T11:00:00Z"@))->Ok_0,
                "count"@,
            )
                == Tree::Integer(2),
        at(said(record, 24), "status"@) == Tree::Integer(201),
        at(said(record, 31), "status"@) == Tree::Integer(409),
{
    let l = CANCELLATION_POLICY@;
    reveal_strlit("201");
    reveal_strlit("booked");
    reveal_strlit("reply");
    reveal_strlit("status");
    reveal_strlit("booked,status");
    reveal_strlit("200");
    reveal_strlit("answer");
    reveal_strlit("answer,status");
    reveal_strlit("2");
    reveal_strlit("left");
    reveal_strlit("remaining seen resource =2027-04-10T10:00:00Z =2027-04-10T11:00:00Z");
    reveal_strlit("remaining");
    reveal_strlit("seen resource =2027-04-10T10:00:00Z =2027-04-10T11:00:00Z");
    reveal_strlit("seen");
    reveal_strlit("resource =2027-04-10T10:00:00Z =2027-04-10T11:00:00Z");
    reveal_strlit("resource");
    reveal_strlit("=2027-04-10T10:00:00Z =2027-04-10T11:00:00Z");
    reveal_strlit("=2027-04-10T10:00:00Z");
    reveal_strlit("=2027-04-10T11:00:00Z");
    reveal_strlit("");
    reveal_strlit("cleared");
    reveal_strlit("selected");
    reveal_strlit("place");
    reveal_strlit("query");
    reveal_strlit("2027-04-10T10:00:00Z");
    reveal_strlit("2027-04-10T11:00:00Z");
    reveal_strlit("count");
    reveal_strlit("left,count");
    reveal_strlit("409");
    lemma_three_digits("201"@);
    assert(number_of("201"@) == Some(201u64));
    assert("booked"@.len() == 6);
    assert("reply"@.len() == 5);
    assert("booked,status"@ =~= "booked"@ + seq![','] + "status"@);
    lemma_three_digits("200"@);
    assert(number_of("200"@) == Some(200u64));
    assert("answer"@.len() == 6);
    assert("answer,status"@ =~= "answer"@ + seq![','] + "status"@);
    lemma_one_digit("2"@);
    assert(number_of("2"@) == Some(2u64));
    assert("left"@.len() == 4);
    assert(
        "=2027-04-10T10:00:00Z =2027-04-10T11:00:00Z"@
            =~= "=2027-04-10T10:00:00Z"@ + seq![' '] + "=2027-04-10T11:00:00Z"@
    );
    lemma_two_words(
        "=2027-04-10T10:00:00Z"@,
        "=2027-04-10T11:00:00Z"@,
        "=2027-04-10T10:00:00Z =2027-04-10T11:00:00Z"@,
    );
    assert(
        "resource =2027-04-10T10:00:00Z =2027-04-10T11:00:00Z"@
            =~= "resource"@ + seq![' '] + "=2027-04-10T10:00:00Z =2027-04-10T11:00:00Z"@
    );
    lemma_four_words(
        "resource"@,
        "=2027-04-10T10:00:00Z =2027-04-10T11:00:00Z"@,
        "resource =2027-04-10T10:00:00Z =2027-04-10T11:00:00Z"@,
    );
    assert(
        "seen resource =2027-04-10T10:00:00Z =2027-04-10T11:00:00Z"@
            =~= "seen"@ + seq![' '] + "resource =2027-04-10T10:00:00Z =2027-04-10T11:00:00Z"@
    );
    lemma_four_words(
        "seen"@,
        "resource =2027-04-10T10:00:00Z =2027-04-10T11:00:00Z"@,
        "seen resource =2027-04-10T10:00:00Z =2027-04-10T11:00:00Z"@,
    );
    assert(
        "remaining seen resource =2027-04-10T10:00:00Z =2027-04-10T11:00:00Z"@
            =~= "remaining"@ + seq![' '] + "seen resource =2027-04-10T10:00:00Z =2027-04-10T11:00:00Z"@
    );
    lemma_four_words(
        "remaining"@,
        "seen resource =2027-04-10T10:00:00Z =2027-04-10T11:00:00Z"@,
        "remaining seen resource =2027-04-10T10:00:00Z =2027-04-10T11:00:00Z"@,
    );
    assert(
        parts("remaining seen resource =2027-04-10T10:00:00Z =2027-04-10T11:00:00Z"@)
            =~= seq![
                "remaining"@,
                "seen"@,
                "resource"@,
                "=2027-04-10T10:00:00Z"@,
                "=2027-04-10T11:00:00Z"@,
            ]
    );
    assert("seen"@.len() == 4);
    assert("resource"@.len() == 8);
    lemma_apart(""@, "resource"@, 0);
    lemma_apart("cleared"@, "resource"@, 0);
    lemma_apart("booked"@, "resource"@, 0);
    lemma_apart("selected"@, "resource"@, 0);
    lemma_apart("place"@, "resource"@, 0);
    lemma_apart("answer"@, "resource"@, 0);
    lemma_apart("query"@, "resource"@, 0);
    lemma_apart("seen"@, "resource"@, 0);
    assert("=2027-04-10T10:00:00Z"@.len() == 21);
    assert("=2027-04-10T10:00:00Z"@.skip(1) =~= "2027-04-10T10:00:00Z"@);
    assert("=2027-04-10T11:00:00Z"@.len() == 21);
    assert("=2027-04-10T11:00:00Z"@.skip(1) =~= "2027-04-10T11:00:00Z"@);
    assert(
        parts("remaining seen resource =2027-04-10T10:00:00Z =2027-04-10T11:00:00Z"@).skip(1)
            =~= seq!["seen"@, "resource"@, "=2027-04-10T10:00:00Z"@, "=2027-04-10T11:00:00Z"@]
    );
    assert("left,count"@ =~= "left"@ + seq![','] + "count"@);
    lemma_three_digits("409"@);
    assert(number_of("409"@) == Some(409u64));
    assert(at(said(record, 3), "status"@) == Tree::Integer(201)) by {
        was_said(l, known, answers, record, 4);
        unchanged(l, known, answers, record, 5);
        lemma_under(record[6], "booked"@, "status"@, "booked,status"@);
        saw_num(l, known, answers, record, 6, 201);
    }
    assert(at(said(record, 9), "status"@) == Tree::Integer(200)) by {
        was_said(l, known, answers, record, 10);
        unchanged(l, known, answers, record, 11);
        lemma_under(record[12], "answer"@, "status"@, "answer,status"@);
        saw_num(l, known, answers, record, 12, 200);
    }
    assert(at(said(record, 14), "status"@) == Tree::Integer(200)) by {
        was_said(l, known, answers, record, 15);
        unchanged(l, known, answers, record, 16);
        lemma_under(record[17], "answer"@, "status"@, "answer,status"@);
        saw_num(l, known, answers, record, 17, 200);
    }
    assert(made_remaining(said(record, 19), at(known, "resource"@), Tree::Text("2027-04-10T10:00:00Z"@), Tree::Text("2027-04-10T11:00:00Z"@)) is Ok
            && at(
                made_remaining(said(record, 19), at(known, "resource"@), Tree::Text("2027-04-10T10:00:00Z"@), Tree::Text("2027-04-10T11:00:00Z"@))->Ok_0,
                "count"@,
            )
                == Tree::Integer(2)) by {
        was_made(l, known, answers, record, 21);
        was_said(l, known, answers, record, 20);
        assert(forall|j: int|
            0 <= j < 21 ==> is_check((#[trigger] l[j]).0@) || !touches(l[j].1@, "resource"@));
        stays_through(l, known, answers, record, 0, 21, "resource"@);
        let args21 = arguments(
            parts("remaining seen resource =2027-04-10T10:00:00Z =2027-04-10T11:00:00Z"@).skip(1),
            record[21],
        );
        assert(
            args21
                =~= seq![
                    said(record, 19),
                    at(known, "resource"@),
                    Tree::Text("2027-04-10T10:00:00Z"@),
                    Tree::Text("2027-04-10T11:00:00Z"@),
                ]
        );
        makes_remaining(args21, record[21]);
        unchanged(l, known, answers, record, 22);
        lemma_under(record[23], "left"@, "count"@, "left,count"@);
        saw_num(l, known, answers, record, 23, 2);
    }
    assert(at(said(record, 24), "status"@) == Tree::Integer(201)) by {
        was_said(l, known, answers, record, 25);
        unchanged(l, known, answers, record, 26);
        lemma_under(record[27], "booked"@, "status"@, "booked,status"@);
        saw_num(l, known, answers, record, 27, 201);
    }
    assert(at(said(record, 31), "status"@) == Tree::Integer(409)) by {
        was_said(l, known, answers, record, 32);
        unchanged(l, known, answers, record, 33);
        lemma_under(record[34], "answer"@, "status"@, "answer,status"@);
        saw_num(l, known, answers, record, 34, 409);
    }
}

proof fn lemma_cancellation_was_observed_2(
    known: Tree,
    answers: Seq<(Tree, bool)>,
    record: Seq<Tree>,
)
    requires
        passed(CANCELLATION_POLICY@, known, answers, record),
    ensures
        made_remaining(said(record, 36), at(known, "resource"@), Tree::Text("2027-04-10T10:00:00Z"@), Tree::Text("2027-04-10T11:00:00Z"@)) is Ok
            && at(
                made_remaining(said(record, 36), at(known, "resource"@), Tree::Text("2027-04-10T10:00:00Z"@), Tree::Text("2027-04-10T11:00:00Z"@))->Ok_0,
                "count"@,
            )
                == Tree::Integer(1),
        at(said(record, 44), "status"@) == Tree::Integer(409),
        made_remaining(said(record, 49), at(known, "resource"@), Tree::Text("2027-04-10T10:00:00Z"@), Tree::Text("2027-04-10T11:00:00Z"@)) is Ok
            && at(
                made_remaining(said(record, 49), at(known, "resource"@), Tree::Text("2027-04-10T10:00:00Z"@), Tree::Text("2027-04-10T11:00:00Z"@))->Ok_0,
                "count"@,
            )
                == Tree::Integer(1),
        made_booking_path(at(said(record, 3), "body"@))
            == Ok::<Tree, Seq<char>>(at(record[8], "selected"@)),
        made_booking_path(at(said(record, 3), "body"@))
            == Ok::<Tree, Seq<char>>(at(record[9], "place"@)),
        made_booking_path(at(said(record, 3), "body"@))
            == Ok::<Tree, Seq<char>>(at(record[14], "place"@)),
{
    let l = CANCELLATION_POLICY@;
    reveal_strlit("1");
    reveal_strlit("left");
    reveal_strlit("reply");
    reveal_strlit("remaining seen resource =2027-04-10T10:00:00Z =2027-04-10T11:00:00Z");
    reveal_strlit("remaining");
    reveal_strlit("seen resource =2027-04-10T10:00:00Z =2027-04-10T11:00:00Z");
    reveal_strlit("seen");
    reveal_strlit("resource =2027-04-10T10:00:00Z =2027-04-10T11:00:00Z");
    reveal_strlit("resource");
    reveal_strlit("=2027-04-10T10:00:00Z =2027-04-10T11:00:00Z");
    reveal_strlit("=2027-04-10T10:00:00Z");
    reveal_strlit("=2027-04-10T11:00:00Z");
    reveal_strlit("");
    reveal_strlit("cleared");
    reveal_strlit("booked");
    reveal_strlit("selected");
    reveal_strlit("place");
    reveal_strlit("answer");
    reveal_strlit("query");
    reveal_strlit("set");
    reveal_strlit("2027-04-10T10:00:00Z");
    reveal_strlit("2027-04-10T11:00:00Z");
    reveal_strlit("count");
    reveal_strlit("left,count");
    reveal_strlit("409");
    reveal_strlit("status");
    reveal_strlit("answer,status");
    reveal_strlit("booking-path");
    reveal_strlit("booked,body");
    reveal_strlit("booking-path booked,body");
    reveal_strlit("body");
    lemma_one_digit("1"@);
    assert(number_of("1"@) == Some(1u64));
    assert("left"@.len() == 4);
    assert("reply"@.len() == 5);
    assert(
        "=2027-04-10T10:00:00Z =2027-04-10T11:00:00Z"@
            =~= "=2027-04-10T10:00:00Z"@ + seq![' '] + "=2027-04-10T11:00:00Z"@
    );
    lemma_two_words(
        "=2027-04-10T10:00:00Z"@,
        "=2027-04-10T11:00:00Z"@,
        "=2027-04-10T10:00:00Z =2027-04-10T11:00:00Z"@,
    );
    assert(
        "resource =2027-04-10T10:00:00Z =2027-04-10T11:00:00Z"@
            =~= "resource"@ + seq![' '] + "=2027-04-10T10:00:00Z =2027-04-10T11:00:00Z"@
    );
    lemma_four_words(
        "resource"@,
        "=2027-04-10T10:00:00Z =2027-04-10T11:00:00Z"@,
        "resource =2027-04-10T10:00:00Z =2027-04-10T11:00:00Z"@,
    );
    assert(
        "seen resource =2027-04-10T10:00:00Z =2027-04-10T11:00:00Z"@
            =~= "seen"@ + seq![' '] + "resource =2027-04-10T10:00:00Z =2027-04-10T11:00:00Z"@
    );
    lemma_four_words(
        "seen"@,
        "resource =2027-04-10T10:00:00Z =2027-04-10T11:00:00Z"@,
        "seen resource =2027-04-10T10:00:00Z =2027-04-10T11:00:00Z"@,
    );
    assert(
        "remaining seen resource =2027-04-10T10:00:00Z =2027-04-10T11:00:00Z"@
            =~= "remaining"@ + seq![' '] + "seen resource =2027-04-10T10:00:00Z =2027-04-10T11:00:00Z"@
    );
    lemma_four_words(
        "remaining"@,
        "seen resource =2027-04-10T10:00:00Z =2027-04-10T11:00:00Z"@,
        "remaining seen resource =2027-04-10T10:00:00Z =2027-04-10T11:00:00Z"@,
    );
    assert(
        parts("remaining seen resource =2027-04-10T10:00:00Z =2027-04-10T11:00:00Z"@)
            =~= seq![
                "remaining"@,
                "seen"@,
                "resource"@,
                "=2027-04-10T10:00:00Z"@,
                "=2027-04-10T11:00:00Z"@,
            ]
    );
    assert("seen"@.len() == 4);
    assert("resource"@.len() == 8);
    lemma_apart(""@, "resource"@, 0);
    lemma_apart("cleared"@, "resource"@, 0);
    lemma_apart("booked"@, "resource"@, 0);
    lemma_apart("selected"@, "resource"@, 0);
    lemma_apart("place"@, "resource"@, 0);
    lemma_apart("answer"@, "resource"@, 0);
    lemma_apart("query"@, "resource"@, 0);
    lemma_apart("seen"@, "resource"@, 0);
    lemma_apart("left"@, "resource"@, 0);
    lemma_apart("set"@, "resource"@, 0);
    assert("=2027-04-10T10:00:00Z"@.len() == 21);
    assert("=2027-04-10T10:00:00Z"@.skip(1) =~= "2027-04-10T10:00:00Z"@);
    assert("=2027-04-10T11:00:00Z"@.len() == 21);
    assert("=2027-04-10T11:00:00Z"@.skip(1) =~= "2027-04-10T11:00:00Z"@);
    assert(
        parts("remaining seen resource =2027-04-10T10:00:00Z =2027-04-10T11:00:00Z"@).skip(1)
            =~= seq!["seen"@, "resource"@, "=2027-04-10T10:00:00Z"@, "=2027-04-10T11:00:00Z"@]
    );
    assert("left,count"@ =~= "left"@ + seq![','] + "count"@);
    lemma_three_digits("409"@);
    assert(number_of("409"@) == Some(409u64));
    assert("answer"@.len() == 6);
    assert("answer,status"@ =~= "answer"@ + seq![','] + "status"@);
    assert("booking-path booked,body"@ =~= "booking-path"@ + seq![' '] + "booked,body"@);
    lemma_two_words("booking-path"@, "booked,body"@, "booking-path booked,body"@);
    assert(parts("booking-path booked,body"@) =~= seq!["booking-path"@, "booked,body"@]);
    assert("booked,body"@.len() == 11);
    assert("booked"@.len() == 6);
    assert("booked,body"@ =~= "booked"@ + seq![','] + "body"@);
    assert(parts("booking-path booked,body"@).skip(1) =~= seq!["booked,body"@]);
    lemma_apart("selected"@, "booked"@, 0);
    lemma_apart("place"@, "booked"@, 0);
    lemma_apart(""@, "booked"@, 0);
    lemma_apart("answer"@, "booked"@, 0);
    assert(made_remaining(said(record, 36), at(known, "resource"@), Tree::Text("2027-04-10T10:00:00Z"@), Tree::Text("2027-04-10T11:00:00Z"@)) is Ok
            && at(
                made_remaining(said(record, 36), at(known, "resource"@), Tree::Text("2027-04-10T10:00:00Z"@), Tree::Text("2027-04-10T11:00:00Z"@))->Ok_0,
                "count"@,
            )
                == Tree::Integer(1)) by {
        was_made(l, known, answers, record, 38);
        was_said(l, known, answers, record, 37);
        assert(forall|j: int|
            0 <= j < 38 ==> is_check((#[trigger] l[j]).0@) || !touches(l[j].1@, "resource"@));
        stays_through(l, known, answers, record, 0, 38, "resource"@);
        let args38 = arguments(
            parts("remaining seen resource =2027-04-10T10:00:00Z =2027-04-10T11:00:00Z"@).skip(1),
            record[38],
        );
        assert(
            args38
                =~= seq![
                    said(record, 36),
                    at(known, "resource"@),
                    Tree::Text("2027-04-10T10:00:00Z"@),
                    Tree::Text("2027-04-10T11:00:00Z"@),
                ]
        );
        makes_remaining(args38, record[38]);
        unchanged(l, known, answers, record, 39);
        lemma_under(record[40], "left"@, "count"@, "left,count"@);
        saw_num(l, known, answers, record, 40, 1);
    }
    assert(at(said(record, 44), "status"@) == Tree::Integer(409)) by {
        was_said(l, known, answers, record, 45);
        unchanged(l, known, answers, record, 46);
        lemma_under(record[47], "answer"@, "status"@, "answer,status"@);
        saw_num(l, known, answers, record, 47, 409);
    }
    assert(made_remaining(said(record, 49), at(known, "resource"@), Tree::Text("2027-04-10T10:00:00Z"@), Tree::Text("2027-04-10T11:00:00Z"@)) is Ok
            && at(
                made_remaining(said(record, 49), at(known, "resource"@), Tree::Text("2027-04-10T10:00:00Z"@), Tree::Text("2027-04-10T11:00:00Z"@))->Ok_0,
                "count"@,
            )
                == Tree::Integer(1)) by {
        was_made(l, known, answers, record, 51);
        was_said(l, known, answers, record, 50);
        assert(forall|j: int|
            0 <= j < 51 ==> is_check((#[trigger] l[j]).0@) || !touches(l[j].1@, "resource"@));
        stays_through(l, known, answers, record, 0, 51, "resource"@);
        let args51 = arguments(
            parts("remaining seen resource =2027-04-10T10:00:00Z =2027-04-10T11:00:00Z"@).skip(1),
            record[51],
        );
        assert(
            args51
                =~= seq![
                    said(record, 49),
                    at(known, "resource"@),
                    Tree::Text("2027-04-10T10:00:00Z"@),
                    Tree::Text("2027-04-10T11:00:00Z"@),
                ]
        );
        makes_remaining(args51, record[51]);
        unchanged(l, known, answers, record, 52);
        lemma_under(record[53], "left"@, "count"@, "left,count"@);
        saw_num(l, known, answers, record, 53, 1);
    }
    assert(made_booking_path(at(said(record, 3), "body"@))
            == Ok::<Tree, Seq<char>>(at(record[8], "selected"@))) by {
        was_made(l, known, answers, record, 7);
        was_said(l, known, answers, record, 4);
        unchanged(l, known, answers, record, 5);
        unchanged(l, known, answers, record, 6);
        lemma_under(record[7], "booked"@, "body"@, "booked,body"@);
        let args7 = arguments(parts("booking-path booked,body"@).skip(1), record[7]);
        assert(args7 =~= seq![at(said(record, 3), "body"@)]);
        makes_booking_path(args7, record[7]);
    }
    assert(made_booking_path(at(said(record, 3), "body"@))
            == Ok::<Tree, Seq<char>>(at(record[9], "place"@))) by {
        was_made(l, known, answers, record, 8);
        was_said(l, known, answers, record, 4);
        assert(forall|j: int|
            5 <= j < 8 ==> is_check((#[trigger] l[j]).0@) || !touches(l[j].1@, "booked"@));
        stays_through(l, known, answers, record, 5, 8, "booked"@);
        lemma_under(record[8], "booked"@, "body"@, "booked,body"@);
        let args8 = arguments(parts("booking-path booked,body"@).skip(1), record[8]);
        assert(args8 =~= seq![at(said(record, 3), "body"@)]);
        makes_booking_path(args8, record[8]);
    }
    assert(made_booking_path(at(said(record, 3), "body"@))
            == Ok::<Tree, Seq<char>>(at(record[14], "place"@))) by {
        was_made(l, known, answers, record, 13);
        was_said(l, known, answers, record, 4);
        assert(forall|j: int|
            5 <= j < 13 ==> is_check((#[trigger] l[j]).0@) || !touches(l[j].1@, "booked"@));
        stays_through(l, known, answers, record, 5, 13, "booked"@);
        lemma_under(record[13], "booked"@, "body"@, "booked,body"@);
        let args13 = arguments(parts("booking-path booked,body"@).skip(1), record[13]);
        assert(args13 =~= seq![at(said(record, 3), "body"@)]);
        makes_booking_path(args13, record[13]);
    }
}

proof fn lemma_cancellation_was_observed_3(
    known: Tree,
    answers: Seq<(Tree, bool)>,
    record: Seq<Tree>,
)
    requires
        passed(CANCELLATION_POLICY@, known, answers, record),
    ensures
        made_availability_path(
            Tree::Text("2027-04-10T10:00:00Z"@),
            Tree::Text("2027-04-10T11:00:00Z"@),
        )
            == Ok::<Tree, Seq<char>>(at(record[19], "query"@)),
        made_booking_path(at(said(record, 24), "body"@))
            == Ok::<Tree, Seq<char>>(at(record[31], "place"@)),
        made_availability_path(
            Tree::Text("2027-04-10T10:00:00Z"@),
            Tree::Text("2027-04-10T11:00:00Z"@),
        )
            == Ok::<Tree, Seq<char>>(at(record[36], "query"@)),
        made_booking_path(at(said(record, 24), "body"@))
            == Ok::<Tree, Seq<char>>(at(record[44], "place"@)),
        made_availability_path(
            Tree::Text("2027-04-10T10:00:00Z"@),
            Tree::Text("2027-04-10T11:00:00Z"@),
        )
            == Ok::<Tree, Seq<char>>(at(record[49], "query"@)),
{
    let l = CANCELLATION_POLICY@;
    reveal_strlit("query");
    reveal_strlit("availability-path =2027-04-10T10:00:00Z =2027-04-10T11:00:00Z");
    reveal_strlit("availability-path");
    reveal_strlit("=2027-04-10T10:00:00Z =2027-04-10T11:00:00Z");
    reveal_strlit("=2027-04-10T10:00:00Z");
    reveal_strlit("=2027-04-10T11:00:00Z");
    reveal_strlit("2027-04-10T10:00:00Z");
    reveal_strlit("2027-04-10T11:00:00Z");
    reveal_strlit("place");
    reveal_strlit("booking-path");
    reveal_strlit("booked,body");
    reveal_strlit("booking-path booked,body");
    reveal_strlit("booked");
    reveal_strlit("reply");
    reveal_strlit("");
    reveal_strlit("set");
    reveal_strlit("body");
    reveal_strlit("answer");
    reveal_strlit("seen");
    reveal_strlit("left");
    assert(
        "=2027-04-10T10:00:00Z =2027-04-10T11:00:00Z"@
            =~= "=2027-04-10T10:00:00Z"@ + seq![' '] + "=2027-04-10T11:00:00Z"@
    );
    lemma_two_words(
        "=2027-04-10T10:00:00Z"@,
        "=2027-04-10T11:00:00Z"@,
        "=2027-04-10T10:00:00Z =2027-04-10T11:00:00Z"@,
    );
    assert(
        "availability-path =2027-04-10T10:00:00Z =2027-04-10T11:00:00Z"@
            =~= "availability-path"@ + seq![' '] + "=2027-04-10T10:00:00Z =2027-04-10T11:00:00Z"@
    );
    lemma_four_words(
        "availability-path"@,
        "=2027-04-10T10:00:00Z =2027-04-10T11:00:00Z"@,
        "availability-path =2027-04-10T10:00:00Z =2027-04-10T11:00:00Z"@,
    );
    assert(
        parts("availability-path =2027-04-10T10:00:00Z =2027-04-10T11:00:00Z"@)
            =~= seq!["availability-path"@, "=2027-04-10T10:00:00Z"@, "=2027-04-10T11:00:00Z"@]
    );
    assert("=2027-04-10T10:00:00Z"@.len() == 21);
    assert("=2027-04-10T10:00:00Z"@.skip(1) =~= "2027-04-10T10:00:00Z"@);
    assert("=2027-04-10T11:00:00Z"@.len() == 21);
    assert("=2027-04-10T11:00:00Z"@.skip(1) =~= "2027-04-10T11:00:00Z"@);
    assert(
        parts("availability-path =2027-04-10T10:00:00Z =2027-04-10T11:00:00Z"@).skip(1)
            =~= seq!["=2027-04-10T10:00:00Z"@, "=2027-04-10T11:00:00Z"@]
    );
    assert("booking-path booked,body"@ =~= "booking-path"@ + seq![' '] + "booked,body"@);
    lemma_two_words("booking-path"@, "booked,body"@, "booking-path booked,body"@);
    assert(parts("booking-path booked,body"@) =~= seq!["booking-path"@, "booked,body"@]);
    assert("booked,body"@.len() == 11);
    assert("booked"@.len() == 6);
    assert("reply"@.len() == 5);
    lemma_apart(""@, "booked"@, 0);
    lemma_apart("set"@, "booked"@, 0);
    assert("booked,body"@ =~= "booked"@ + seq![','] + "body"@);
    assert(parts("booking-path booked,body"@).skip(1) =~= seq!["booked,body"@]);
    lemma_apart("place"@, "booked"@, 0);
    lemma_apart("answer"@, "booked"@, 0);
    lemma_apart("query"@, "booked"@, 0);
    lemma_apart("seen"@, "booked"@, 0);
    lemma_apart("left"@, "booked"@, 0);
    assert(made_availability_path(
            Tree::Text("2027-04-10T10:00:00Z"@),
            Tree::Text("2027-04-10T11:00:00Z"@),
        )
            == Ok::<Tree, Seq<char>>(at(record[19], "query"@))) by {
        was_made(l, known, answers, record, 18);
        let args18 = arguments(
            parts("availability-path =2027-04-10T10:00:00Z =2027-04-10T11:00:00Z"@).skip(1),
            record[18],
        );
        assert(
            args18
                =~= seq![Tree::Text("2027-04-10T10:00:00Z"@), Tree::Text("2027-04-10T11:00:00Z"@)]
        );
        makes_availability_path(args18, record[18]);
    }
    assert(made_booking_path(at(said(record, 24), "body"@))
            == Ok::<Tree, Seq<char>>(at(record[31], "place"@))) by {
        was_made(l, known, answers, record, 30);
        was_said(l, known, answers, record, 25);
        assert(forall|j: int|
            26 <= j < 30 ==> is_check((#[trigger] l[j]).0@) || !touches(l[j].1@, "booked"@));
        stays_through(l, known, answers, record, 26, 30, "booked"@);
        lemma_under(record[30], "booked"@, "body"@, "booked,body"@);
        let args30 = arguments(parts("booking-path booked,body"@).skip(1), record[30]);
        assert(args30 =~= seq![at(said(record, 24), "body"@)]);
        makes_booking_path(args30, record[30]);
    }
    assert(made_availability_path(
            Tree::Text("2027-04-10T10:00:00Z"@),
            Tree::Text("2027-04-10T11:00:00Z"@),
        )
            == Ok::<Tree, Seq<char>>(at(record[36], "query"@))) by {
        was_made(l, known, answers, record, 35);
        let args35 = arguments(
            parts("availability-path =2027-04-10T10:00:00Z =2027-04-10T11:00:00Z"@).skip(1),
            record[35],
        );
        assert(
            args35
                =~= seq![Tree::Text("2027-04-10T10:00:00Z"@), Tree::Text("2027-04-10T11:00:00Z"@)]
        );
        makes_availability_path(args35, record[35]);
    }
    assert(made_booking_path(at(said(record, 24), "body"@))
            == Ok::<Tree, Seq<char>>(at(record[44], "place"@))) by {
        was_made(l, known, answers, record, 43);
        was_said(l, known, answers, record, 25);
        assert(forall|j: int|
            26 <= j < 43 ==> is_check((#[trigger] l[j]).0@) || !touches(l[j].1@, "booked"@));
        stays_through(l, known, answers, record, 26, 43, "booked"@);
        lemma_under(record[43], "booked"@, "body"@, "booked,body"@);
        let args43 = arguments(parts("booking-path booked,body"@).skip(1), record[43]);
        assert(args43 =~= seq![at(said(record, 24), "body"@)]);
        makes_booking_path(args43, record[43]);
    }
    assert(made_availability_path(
            Tree::Text("2027-04-10T10:00:00Z"@),
            Tree::Text("2027-04-10T11:00:00Z"@),
        )
            == Ok::<Tree, Seq<char>>(at(record[49], "query"@))) by {
        was_made(l, known, answers, record, 48);
        let args48 = arguments(
            parts("availability-path =2027-04-10T10:00:00Z =2027-04-10T11:00:00Z"@).skip(1),
            record[48],
        );
        assert(
            args48
                =~= seq![Tree::Text("2027-04-10T10:00:00Z"@), Tree::Text("2027-04-10T11:00:00Z"@)]
        );
        makes_availability_path(args48, record[48]);
    }
}

/// The cancellation check finishes only where a repeated cancellation was accepted and released the
/// place, and one at or behind the cutoff was refused and released none.
pub proof fn cancellation_was_observed(
    known: Tree,
    answers: Seq<(Tree, bool)>,
) -> (record: Seq<Tree>)
    requires
        known is Object,
        finished(CANCELLATION_POLICY@, known, answers),
    ensures
        passed(CANCELLATION_POLICY@, known, answers, record),
        CANCELLATION_POLICY@[3].2@ == "book Ada 2027-04-10T10:00:00Z 2027-04-10T11:00:00Z 1 token"@,
        at(said(record, 3), "status"@) == Tree::Integer(201),
        CANCELLATION_POLICY@[9].2@ == "delete $place token"@,
        at(said(record, 9), "status"@) == Tree::Integer(200),
        CANCELLATION_POLICY@[14].2@ == "delete $place token"@,
        at(said(record, 14), "status"@) == Tree::Integer(200),
        CANCELLATION_POLICY@[19].2@ == "get $query none"@,
        made_remaining(said(record, 19), at(known, "resource"@), Tree::Text("2027-04-10T10:00:00Z"@), Tree::Text("2027-04-10T11:00:00Z"@)) is Ok
            && at(
                made_remaining(said(record, 19), at(known, "resource"@), Tree::Text("2027-04-10T10:00:00Z"@), Tree::Text("2027-04-10T11:00:00Z"@))->Ok_0,
                "count"@,
            )
                == Tree::Integer(2),
        CANCELLATION_POLICY@[24].2@
            == "book Ada 2027-04-10T10:00:00Z 2027-04-10T11:00:00Z 1 token"@,
        at(said(record, 24), "status"@) == Tree::Integer(201),
        CANCELLATION_POLICY@[31].2@ == "delete $place token"@,
        at(said(record, 31), "status"@) == Tree::Integer(409),
        CANCELLATION_POLICY@[36].2@ == "get $query none"@,
        made_remaining(said(record, 36), at(known, "resource"@), Tree::Text("2027-04-10T10:00:00Z"@), Tree::Text("2027-04-10T11:00:00Z"@)) is Ok
            && at(
                made_remaining(said(record, 36), at(known, "resource"@), Tree::Text("2027-04-10T10:00:00Z"@), Tree::Text("2027-04-10T11:00:00Z"@))->Ok_0,
                "count"@,
            )
                == Tree::Integer(1),
        CANCELLATION_POLICY@[44].2@ == "delete $place token"@,
        at(said(record, 44), "status"@) == Tree::Integer(409),
        CANCELLATION_POLICY@[49].2@ == "get $query none"@,
        made_remaining(said(record, 49), at(known, "resource"@), Tree::Text("2027-04-10T10:00:00Z"@), Tree::Text("2027-04-10T11:00:00Z"@)) is Ok
            && at(
                made_remaining(said(record, 49), at(known, "resource"@), Tree::Text("2027-04-10T10:00:00Z"@), Tree::Text("2027-04-10T11:00:00Z"@))->Ok_0,
                "count"@,
            )
                == Tree::Integer(1),
        made_booking_path(at(said(record, 3), "body"@))
            == Ok::<Tree, Seq<char>>(at(record[8], "selected"@)),
        made_booking_path(at(said(record, 3), "body"@))
            == Ok::<Tree, Seq<char>>(at(record[9], "place"@)),
        made_booking_path(at(said(record, 3), "body"@))
            == Ok::<Tree, Seq<char>>(at(record[14], "place"@)),
        made_availability_path(
            Tree::Text("2027-04-10T10:00:00Z"@),
            Tree::Text("2027-04-10T11:00:00Z"@),
        )
            == Ok::<Tree, Seq<char>>(at(record[19], "query"@)),
        made_booking_path(at(said(record, 24), "body"@))
            == Ok::<Tree, Seq<char>>(at(record[31], "place"@)),
        made_availability_path(
            Tree::Text("2027-04-10T10:00:00Z"@),
            Tree::Text("2027-04-10T11:00:00Z"@),
        )
            == Ok::<Tree, Seq<char>>(at(record[36], "query"@)),
        made_booking_path(at(said(record, 24), "body"@))
            == Ok::<Tree, Seq<char>>(at(record[44], "place"@)),
        made_availability_path(
            Tree::Text("2027-04-10T10:00:00Z"@),
            Tree::Text("2027-04-10T11:00:00Z"@),
        )
            == Ok::<Tree, Seq<char>>(at(record[49], "query"@)),
{
    let record = finished_scenarios_are_recorded(CANCELLATION_POLICY@, known, answers);
    lemma_cancellation_was_observed_1(known, answers, record);
    lemma_cancellation_was_observed_2(known, answers, record);
    lemma_cancellation_was_observed_3(known, answers, record);
    record
}

proof fn lemma_seed_was_refused_1(known: Tree, answers: Seq<(Tree, bool)>, record: Seq<Tree>)
    requires
        passed(QUALIFY_OPEN@, known, answers, record),
    ensures
        at(said(record, 2), "state"@) == Tree::Text("prepared"@),
        at(said(record, 2), "version"@) == Tree::Integer(0),
        at(said(record, 8), "pending"@) == Tree::Null,
        at(said(record, 8), "desired_running"@) == Tree::Bool(false),
        at(said(record, 24), "pending"@) == Tree::Null,
        at(at(said(record, 46), "evaluation"@), "complete"@) == Tree::Bool(true),
{
    let l = QUALIFY_OPEN@;
    reveal_strlit("prepared");
    reveal_strlit("reply");
    reveal_strlit("state");
    reveal_strlit("prepared,state");
    reveal_strlit("0");
    reveal_strlit("version");
    reveal_strlit("prepared,version");
    reveal_strlit("pending");
    reveal_strlit("state,pending");
    reveal_strlit("desired_running");
    reveal_strlit("state,desired_running");
    reveal_strlit("held");
    reveal_strlit("held,pending");
    reveal_strlit("failure");
    reveal_strlit("read");
    reveal_strlit("evaluation");
    reveal_strlit("read,evaluation");
    reveal_strlit("failed");
    reveal_strlit("complete");
    reveal_strlit("failure,complete");
    assert("prepared"@.len() == 8);
    assert("reply"@.len() == 5);
    assert("prepared,state"@ =~= "prepared"@ + seq![','] + "state"@);
    lemma_one_digit("0"@);
    assert(number_of("0"@) == Some(0u64));
    assert("prepared,version"@ =~= "prepared"@ + seq![','] + "version"@);
    assert("state"@[0] != "reply"@[0]);
    assert("state,pending"@ =~= "state"@ + seq![','] + "pending"@);
    assert("state,desired_running"@ =~= "state"@ + seq![','] + "desired_running"@);
    assert("held"@.len() == 4);
    assert("held,pending"@ =~= "held"@ + seq![','] + "pending"@);
    assert("failure"@.len() == 7);
    assert("read"@.len() == 4);
    assert("read,evaluation"@ =~= "read"@ + seq![','] + "evaluation"@);
    lemma_apart("failed"@, "failure"@, 4);
    assert("failure,complete"@ =~= "failure"@ + seq![','] + "complete"@);
    assert(at(said(record, 2), "state"@) == Tree::Text("prepared"@)) by {
        was_said(l, known, answers, record, 3);
        lemma_under(record[4], "prepared"@, "state"@, "prepared,state"@);
        saw_is(l, known, answers, record, 4);
    }
    assert(at(said(record, 2), "version"@) == Tree::Integer(0)) by {
        was_said(l, known, answers, record, 3);
        unchanged(l, known, answers, record, 4);
        lemma_under(record[5], "prepared"@, "version"@, "prepared,version"@);
        saw_num(l, known, answers, record, 5, 0);
    }
    assert(at(said(record, 8), "pending"@) == Tree::Null) by {
        was_said(l, known, answers, record, 9);
        lemma_under(record[10], "state"@, "pending"@, "state,pending"@);
        saw_null(l, known, answers, record, 10);
    }
    assert(at(said(record, 8), "desired_running"@) == Tree::Bool(false)) by {
        was_said(l, known, answers, record, 9);
        unchanged(l, known, answers, record, 10);
        lemma_under(record[11], "state"@, "desired_running"@, "state,desired_running"@);
        saw_false(l, known, answers, record, 11);
    }
    assert(at(said(record, 24), "pending"@) == Tree::Null) by {
        was_said(l, known, answers, record, 25);
        lemma_under(record[26], "held"@, "pending"@, "held,pending"@);
        saw_null(l, known, answers, record, 26);
    }
    assert(at(at(said(record, 46), "evaluation"@), "complete"@) == Tree::Bool(true)) by {
        was_kept(l, known, answers, record, 48);
        was_said(l, known, answers, record, 47);
        lemma_under(record[48], "read"@, "evaluation"@, "read,evaluation"@);
        stays(l, known, answers, record, 49, "failure"@);
        lemma_under(record[50], "failure"@, "complete"@, "failure,complete"@);
        saw_true(l, known, answers, record, 50);
    }
}

proof fn lemma_seed_was_refused_2(known: Tree, answers: Seq<(Tree, bool)>, record: Seq<Tree>)
    requires
        passed(QUALIFY_OPEN@, known, answers, record),
    ensures
        made_failed_checks(at(said(record, 46), "evaluation"@)) is Ok
            && items_of(made_failed_checks(at(said(record, 46), "evaluation"@))->Ok_0).len() == 2,
        made_failed_checks(at(said(record, 46), "evaluation"@)) is Ok
            && at(made_failed_checks(at(said(record, 46), "evaluation"@))->Ok_0, "#0"@)
                == Tree::Text("authenticated-mutation"@),
        made_failed_checks(at(said(record, 46), "evaluation"@)) is Ok
            && at(made_failed_checks(at(said(record, 46), "evaluation"@))->Ok_0, "#1"@)
                == Tree::Text("durable-bookings"@),
        at(at(record[77], "terminal"@), "event,kind,terminal,status"@) != Tree::Text("success"@),
        made_rendered(at(at(record[77], "terminal"@), "event,kind,terminal"@)) is Ok
            && text_has(
                made_rendered(at(at(record[77], "terminal"@), "event,kind,terminal"@))->Ok_0,
                "verification is failed"@,
            ),
        at(said(record, 80), "generation"@) == Tree::Integer(1),
{
    let l = QUALIFY_OPEN@;
    reveal_strlit("2");
    reveal_strlit("failed");
    reveal_strlit("reply");
    reveal_strlit("failed-checks");
    reveal_strlit("failure");
    reveal_strlit("failed-checks failure");
    reveal_strlit("read");
    reveal_strlit("evaluation");
    reveal_strlit("read,evaluation");
    reveal_strlit("#0");
    reveal_strlit("failed,#0");
    reveal_strlit("#1");
    reveal_strlit("failed,#1");
    reveal_strlit("terminal");
    reveal_strlit("event,kind,terminal,status");
    reveal_strlit("terminal,event,kind,terminal,status");
    reveal_strlit("rendered");
    reveal_strlit("terminal,event,kind,terminal");
    reveal_strlit("rendered terminal,event,kind,terminal");
    reveal_strlit("event,kind,terminal");
    reveal_strlit("1");
    reveal_strlit("unchanged");
    reveal_strlit("generation");
    reveal_strlit("unchanged,generation");
    lemma_one_digit("2"@);
    assert(number_of("2"@) == Some(2u64));
    assert("failed"@.len() == 6);
    assert("reply"@.len() == 5);
    assert("failed-checks failure"@ =~= "failed-checks"@ + seq![' '] + "failure"@);
    lemma_two_words("failed-checks"@, "failure"@, "failed-checks failure"@);
    assert(parts("failed-checks failure"@) =~= seq!["failed-checks"@, "failure"@]);
    assert("failure"@.len() == 7);
    assert("read"@.len() == 4);
    assert("read,evaluation"@ =~= "read"@ + seq![','] + "evaluation"@);
    assert(parts("failed-checks failure"@).skip(1) =~= seq!["failure"@]);
    assert("failed,#0"@ =~= "failed"@ + seq![','] + "#0"@);
    assert("failed,#1"@ =~= "failed"@ + seq![','] + "#1"@);
    assert("terminal"@.len() == 8);
    assert(
        "terminal,event,kind,terminal,status"@
            =~= "terminal"@ + seq![','] + "event,kind,terminal,status"@
    );
    assert("rendered"@.len() == 8);
    assert(
        "rendered terminal,event,kind,terminal"@
            =~= "rendered"@ + seq![' '] + "terminal,event,kind,terminal"@
    );
    lemma_two_words(
        "rendered"@,
        "terminal,event,kind,terminal"@,
        "rendered terminal,event,kind,terminal"@,
    );
    assert(
        parts("rendered terminal,event,kind,terminal"@)
            =~= seq!["rendered"@, "terminal,event,kind,terminal"@]
    );
    assert("terminal,event,kind,terminal"@.len() == 28);
    assert("terminal,event,kind,terminal"@ =~= "terminal"@ + seq![','] + "event,kind,terminal"@);
    assert(
        parts("rendered terminal,event,kind,terminal"@).skip(1)
            =~= seq!["terminal,event,kind,terminal"@]
    );
    lemma_one_digit("1"@);
    assert(number_of("1"@) == Some(1u64));
    assert("unchanged"@.len() == 9);
    assert("unchanged,generation"@ =~= "unchanged"@ + seq![','] + "generation"@);
    assert(made_failed_checks(at(said(record, 46), "evaluation"@)) is Ok
            && items_of(made_failed_checks(at(said(record, 46), "evaluation"@))->Ok_0).len() == 2) by {
        was_made(l, known, answers, record, 49);
        was_kept(l, known, answers, record, 48);
        was_said(l, known, answers, record, 47);
        lemma_under(record[48], "read"@, "evaluation"@, "read,evaluation"@);
        let args49 = arguments(parts("failed-checks failure"@).skip(1), record[49]);
        assert(args49 =~= seq![at(said(record, 46), "evaluation"@)]);
        makes_failed_checks(args49, record[49]);
        unchanged(l, known, answers, record, 50);
        saw_len(l, known, answers, record, 51, 2);
    }
    assert(made_failed_checks(at(said(record, 46), "evaluation"@)) is Ok
            && at(made_failed_checks(at(said(record, 46), "evaluation"@))->Ok_0, "#0"@)
                == Tree::Text("authenticated-mutation"@)) by {
        was_made(l, known, answers, record, 49);
        was_kept(l, known, answers, record, 48);
        was_said(l, known, answers, record, 47);
        lemma_under(record[48], "read"@, "evaluation"@, "read,evaluation"@);
        let args49 = arguments(parts("failed-checks failure"@).skip(1), record[49]);
        assert(args49 =~= seq![at(said(record, 46), "evaluation"@)]);
        makes_failed_checks(args49, record[49]);
        unchanged(l, known, answers, record, 50);
        unchanged(l, known, answers, record, 51);
        lemma_under(record[52], "failed"@, "#0"@, "failed,#0"@);
        saw_is(l, known, answers, record, 52);
    }
    assert(made_failed_checks(at(said(record, 46), "evaluation"@)) is Ok
            && at(made_failed_checks(at(said(record, 46), "evaluation"@))->Ok_0, "#1"@)
                == Tree::Text("durable-bookings"@)) by {
        was_made(l, known, answers, record, 49);
        was_kept(l, known, answers, record, 48);
        was_said(l, known, answers, record, 47);
        lemma_under(record[48], "read"@, "evaluation"@, "read,evaluation"@);
        let args49 = arguments(parts("failed-checks failure"@).skip(1), record[49]);
        assert(args49 =~= seq![at(said(record, 46), "evaluation"@)]);
        makes_failed_checks(args49, record[49]);
        unchanged(l, known, answers, record, 50);
        unchanged(l, known, answers, record, 51);
        unchanged(l, known, answers, record, 52);
        lemma_under(record[53], "failed"@, "#1"@, "failed,#1"@);
        saw_is(l, known, answers, record, 53);
    }
    assert(at(at(record[77], "terminal"@), "event,kind,terminal,status"@) != Tree::Text("success"@)) by {
        lemma_under(
            record[77],
            "terminal"@,
            "event,kind,terminal,status"@,
            "terminal,event,kind,terminal,status"@,
        );
        saw_isnot(l, known, answers, record, 77);
    }
    assert(made_rendered(at(at(record[77], "terminal"@), "event,kind,terminal"@)) is Ok
            && text_has(
                made_rendered(at(at(record[77], "terminal"@), "event,kind,terminal"@))->Ok_0,
                "verification is failed"@,
            )) by {
        was_made(l, known, answers, record, 78);
        unchanged(l, known, answers, record, 77);
        lemma_under(
            record[78],
            "terminal"@,
            "event,kind,terminal"@,
            "terminal,event,kind,terminal"@,
        );
        let args78 = arguments(parts("rendered terminal,event,kind,terminal"@).skip(1), record[78]);
        assert(args78 =~= seq![at(at(record[77], "terminal"@), "event,kind,terminal"@)]);
        makes_rendered(args78, record[78]);
        saw_contains(l, known, answers, record, 79);
    }
    assert(at(said(record, 80), "generation"@) == Tree::Integer(1)) by {
        was_said(l, known, answers, record, 81);
        lemma_under(record[82], "unchanged"@, "generation"@, "unchanged,generation"@);
        saw_num(l, known, answers, record, 82, 1);
    }
}

proof fn lemma_seed_was_refused_3(known: Tree, answers: Seq<(Tree, bool)>, record: Seq<Tree>)
    requires
        passed(QUALIFY_OPEN@, known, answers, record),
    ensures
        at(said(record, 80), "observed_running"@) == Tree::Bool(false),
        at(said(record, 80), "pending"@) == Tree::Null,
        document_of(SEED_INPUTS@, record[28]) == Ok::<Tree, Seq<char>>(at(record[29], "seeded"@)),
        made_failed_checks(at(said(record, 46), "evaluation"@))
            == Ok::<Tree, Seq<char>>(at(record[50], "failed"@)),
        made_forged_checks(said(record, 58))
            == Ok::<Tree, Seq<char>>(at(record[61], "forged_report"@)),
        document_of(FORGED_INPUTS@, at(record[67], "claim"@))
            == Ok::<Tree, Seq<char>>(at(record[68], "claimed"@)),
{
    let l = QUALIFY_OPEN@;
    reveal_strlit("unchanged");
    reveal_strlit("reply");
    reveal_strlit("observed_running");
    reveal_strlit("unchanged,observed_running");
    reveal_strlit("pending");
    reveal_strlit("unchanged,pending");
    reveal_strlit("seeded");
    reveal_strlit("seed-inputs");
    reveal_strlit("failed");
    reveal_strlit("failed-checks");
    reveal_strlit("failure");
    reveal_strlit("failed-checks failure");
    reveal_strlit("read");
    reveal_strlit("evaluation");
    reveal_strlit("read,evaluation");
    reveal_strlit("forged_report");
    reveal_strlit("forged-checks");
    reveal_strlit("report");
    reveal_strlit("forged-checks report");
    reveal_strlit("claimed");
    reveal_strlit("forged-inputs");
    reveal_strlit("claim");
    reveal_strlit("forged-inputs claim");
    assert("unchanged"@.len() == 9);
    assert("reply"@.len() == 5);
    assert("unchanged,observed_running"@ =~= "unchanged"@ + seq![','] + "observed_running"@);
    assert("unchanged,pending"@ =~= "unchanged"@ + seq![','] + "pending"@);
    lemma_one_word("seed-inputs"@);
    assert(parts("seed-inputs"@) =~= seq!["seed-inputs"@]);
    assert(parts("seed-inputs"@).skip(1) =~= seq![]);
    assert("failed-checks failure"@ =~= "failed-checks"@ + seq![' '] + "failure"@);
    lemma_two_words("failed-checks"@, "failure"@, "failed-checks failure"@);
    assert(parts("failed-checks failure"@) =~= seq!["failed-checks"@, "failure"@]);
    assert("failure"@.len() == 7);
    assert("read"@.len() == 4);
    assert("read,evaluation"@ =~= "read"@ + seq![','] + "evaluation"@);
    assert(parts("failed-checks failure"@).skip(1) =~= seq!["failure"@]);
    assert("forged-checks report"@ =~= "forged-checks"@ + seq![' '] + "report"@);
    lemma_two_words("forged-checks"@, "report"@, "forged-checks report"@);
    assert(parts("forged-checks report"@) =~= seq!["forged-checks"@, "report"@]);
    assert("report"@.len() == 6);
    assert(parts("forged-checks report"@).skip(1) =~= seq!["report"@]);
    assert("forged-inputs claim"@ =~= "forged-inputs"@ + seq![' '] + "claim"@);
    lemma_two_words("forged-inputs"@, "claim"@, "forged-inputs claim"@);
    assert(parts("forged-inputs claim"@) =~= seq!["forged-inputs"@, "claim"@]);
    assert("claim"@.len() == 5);
    assert(parts("forged-inputs claim"@).skip(1) =~= seq!["claim"@]);
    assert(at(said(record, 80), "observed_running"@) == Tree::Bool(false)) by {
        was_said(l, known, answers, record, 81);
        unchanged(l, known, answers, record, 82);
        lemma_under(record[83], "unchanged"@, "observed_running"@, "unchanged,observed_running"@);
        saw_false(l, known, answers, record, 83);
    }
    assert(at(said(record, 80), "pending"@) == Tree::Null) by {
        was_said(l, known, answers, record, 81);
        unchanged(l, known, answers, record, 82);
        unchanged(l, known, answers, record, 83);
        lemma_under(record[84], "unchanged"@, "pending"@, "unchanged,pending"@);
        saw_null(l, known, answers, record, 84);
    }
    assert(document_of(SEED_INPUTS@, record[28]) == Ok::<Tree, Seq<char>>(at(record[29], "seeded"@))) by {
        was_made(l, known, answers, record, 28);
        let args28 = arguments(parts("seed-inputs"@).skip(1), record[28]);
        assert(args28 =~= seq![]);
        makes_seed_inputs(args28, record[28]);
    }
    assert(made_failed_checks(at(said(record, 46), "evaluation"@))
            == Ok::<Tree, Seq<char>>(at(record[50], "failed"@))) by {
        was_made(l, known, answers, record, 49);
        was_kept(l, known, answers, record, 48);
        was_said(l, known, answers, record, 47);
        lemma_under(record[48], "read"@, "evaluation"@, "read,evaluation"@);
        let args49 = arguments(parts("failed-checks failure"@).skip(1), record[49]);
        assert(args49 =~= seq![at(said(record, 46), "evaluation"@)]);
        makes_failed_checks(args49, record[49]);
    }
    assert(made_forged_checks(said(record, 58))
            == Ok::<Tree, Seq<char>>(at(record[61], "forged_report"@))) by {
        was_made(l, known, answers, record, 60);
        was_said(l, known, answers, record, 59);
        let args60 = arguments(parts("forged-checks report"@).skip(1), record[60]);
        assert(args60 =~= seq![said(record, 58)]);
        makes_forged_checks(args60, record[60]);
    }
    assert(document_of(FORGED_INPUTS@, at(record[67], "claim"@))
            == Ok::<Tree, Seq<char>>(at(record[68], "claimed"@))) by {
        was_made(l, known, answers, record, 67);
        let args67 = arguments(parts("forged-inputs claim"@).skip(1), record[67]);
        assert(args67 =~= seq![at(record[67], "claim"@)]);
        makes_forged_inputs(args67, record[67]);
    }
}

proof fn lemma_seed_was_refused_4(known: Tree, answers: Seq<(Tree, bool)>, record: Seq<Tree>)
    requires
        passed(QUALIFY_OPEN@, known, answers, record),
    ensures
        made_rendered(at(at(record[77], "terminal"@), "event,kind,terminal"@))
            == Ok::<Tree, Seq<char>>(at(record[79], "rendered"@)),
{
    let l = QUALIFY_OPEN@;
    reveal_strlit("rendered");
    reveal_strlit("terminal,event,kind,terminal");
    reveal_strlit("rendered terminal,event,kind,terminal");
    reveal_strlit("terminal");
    reveal_strlit("reply");
    reveal_strlit("event,kind,terminal");
    assert(
        "rendered terminal,event,kind,terminal"@
            =~= "rendered"@ + seq![' '] + "terminal,event,kind,terminal"@
    );
    lemma_two_words(
        "rendered"@,
        "terminal,event,kind,terminal"@,
        "rendered terminal,event,kind,terminal"@,
    );
    assert(
        parts("rendered terminal,event,kind,terminal"@)
            =~= seq!["rendered"@, "terminal,event,kind,terminal"@]
    );
    assert("terminal,event,kind,terminal"@.len() == 28);
    assert("terminal"@.len() == 8);
    assert("reply"@.len() == 5);
    assert("terminal,event,kind,terminal"@ =~= "terminal"@ + seq![','] + "event,kind,terminal"@);
    assert(
        parts("rendered terminal,event,kind,terminal"@).skip(1)
            =~= seq!["terminal,event,kind,terminal"@]
    );
    assert(made_rendered(at(at(record[77], "terminal"@), "event,kind,terminal"@))
            == Ok::<Tree, Seq<char>>(at(record[79], "rendered"@))) by {
        was_made(l, known, answers, record, 78);
        unchanged(l, known, answers, record, 77);
        lemma_under(
            record[78],
            "terminal"@,
            "event,kind,terminal"@,
            "terminal,event,kind,terminal"@,
        );
        let args78 = arguments(parts("rendered terminal,event,kind,terminal"@).skip(1), record[78]);
        assert(args78 =~= seq![at(at(record[77], "terminal"@), "event,kind,terminal"@)]);
        makes_rendered(args78, record[78]);
    }
}

/// The names of the failed checks of an evaluation with two of them.
proof fn lemma_two_failed(evaluation: Tree, first: Seq<char>, second: Seq<char>)
    requires
        made_failed_checks(evaluation) is Ok,
        items_of(made_failed_checks(evaluation)->Ok_0).len() == 2,
        at(made_failed_checks(evaluation)->Ok_0, "#0"@) == Tree::Text(first),
        at(made_failed_checks(evaluation)->Ok_0, "#1"@) == Tree::Text(second),
    ensures
        ({
            let checks = items_of(at(evaluation, "checks"@));
            failed_names(checks, checks.len() as int) == Some(seq![first, second])
        }),
{
    let checks = items_of(at(evaluation, "checks"@));
    let names = failed_names(checks, checks.len() as int)->Some_0;
    let listed = made_failed_checks(evaluation)->Ok_0;
    let l = items_of(listed);
    lemma_elements(listed);
    assert(l =~= names.map_values(|t: Seq<char>| Tree::Text(t)));
    assert(names.len() == 2);
    assert(l[0] == Tree::Text(names[0]));
    assert(l[1] == Tree::Text(names[1]));
    assert(names =~= seq![first, second]);
}

/// The first part of a qualification finishes only where the target was prepared and not running,
/// the seed failed exactly the two declared checks, and a fabricated report was refused and left
/// the target as it was.
pub proof fn seed_was_refused(known: Tree, answers: Seq<(Tree, bool)>) -> (record: Seq<Tree>)
    requires
        known is Object,
        finished(QUALIFY_OPEN@, known, answers),
    ensures
        passed(QUALIFY_OPEN@, known, answers, record),
        QUALIFY_OPEN@[2].2@
            == "resource protected-prepare success slotbook-test 0 prepare --recipe $recipe_name --digest $recipe_digest"@,
        at(said(record, 2), "state"@) == Tree::Text("prepared"@),
        at(said(record, 2), "version"@) == Tree::Integer(0),
        QUALIFY_OPEN@[8].2@ == "resource protected-before success slotbook-test 0 inspect"@,
        at(said(record, 8), "pending"@) == Tree::Null,
        at(said(record, 8), "desired_running"@) == Tree::Bool(false),
        QUALIFY_OPEN@[24].2@ == "resource worker-inspect success slotbook-build 0 inspect"@,
        at(said(record, 24), "pending"@) == Tree::Null,
        QUALIFY_OPEN@[46].2@
            == "resource seed-evidence success slotbook-test 0 evidence --evaluation $evaluation"@,
        at(at(said(record, 46), "evaluation"@), "complete"@) == Tree::Bool(true),
        made_failed_checks(at(said(record, 46), "evaluation"@)) is Ok
            && items_of(made_failed_checks(at(said(record, 46), "evaluation"@))->Ok_0).len() == 2,
        made_failed_checks(at(said(record, 46), "evaluation"@)) is Ok
            && at(made_failed_checks(at(said(record, 46), "evaluation"@))->Ok_0, "#0"@)
                == Tree::Text("authenticated-mutation"@),
        made_failed_checks(at(said(record, 46), "evaluation"@)) is Ok
            && at(made_failed_checks(at(said(record, 46), "evaluation"@))->Ok_0, "#1"@)
                == Tree::Text("durable-bookings"@),
        at(at(record[77], "terminal"@), "event,kind,terminal,status"@) != Tree::Text("success"@),
        made_rendered(at(at(record[77], "terminal"@), "event,kind,terminal"@)) is Ok
            && text_has(
                made_rendered(at(at(record[77], "terminal"@), "event,kind,terminal"@))->Ok_0,
                "verification is failed"@,
            ),
        QUALIFY_OPEN@[80].2@ == "resource after-forged-report success slotbook-test 0 inspect"@,
        at(said(record, 80), "generation"@) == Tree::Integer(1),
        at(said(record, 80), "observed_running"@) == Tree::Bool(false),
        at(said(record, 80), "pending"@) == Tree::Null,
        document_of(SEED_INPUTS@, record[28]) == Ok::<Tree, Seq<char>>(at(record[29], "seeded"@)),
        made_failed_checks(at(said(record, 46), "evaluation"@))
            == Ok::<Tree, Seq<char>>(at(record[50], "failed"@)),
        QUALIFY_OPEN@[58].2@
            == "resource failed-report success slotbook-test 0 evidence --evaluation $evaluation"@,
        made_forged_checks(said(record, 58))
            == Ok::<Tree, Seq<char>>(at(record[61], "forged_report"@)),
        document_of(FORGED_INPUTS@, at(record[67], "claim"@))
            == Ok::<Tree, Seq<char>>(at(record[68], "claimed"@)),
        made_rendered(at(at(record[77], "terminal"@), "event,kind,terminal"@))
            == Ok::<Tree, Seq<char>>(at(record[79], "rendered"@)),
        ({
            let checks = items_of(at(at(said(record, 46), "evaluation"@), "checks"@));
            failed_names(checks, checks.len() as int) == Some(
                seq!["authenticated-mutation"@, "durable-bookings"@],
            )
        }),
{
    let record = finished_scenarios_are_recorded(QUALIFY_OPEN@, known, answers);
    lemma_seed_was_refused_1(known, answers, record);
    lemma_seed_was_refused_2(known, answers, record);
    lemma_seed_was_refused_3(known, answers, record);
    lemma_seed_was_refused_4(known, answers, record);
    lemma_two_failed(
        at(said(record, 46), "evaluation"@),
        "authenticated-mutation"@,
        "durable-bookings"@,
    );
    record
}

proof fn lemma_publication_was_linked(known: Tree, answers: Seq<(Tree, bool)>, record: Seq<Tree>)
    requires
        passed(QUALIFY_LINK@, known, answers, record),
    ensures
        made_linked_runs(said(record, 0), at(known, "public"@), at(known, "mode"@)) is Ok
            && items_of(
                made_linked_runs(said(record, 0), at(known, "public"@), at(known, "mode"@))->Ok_0,
            ).len()
                == 1,
        items_of(at(said(record, 10), "blockers"@)).len() > 0,
        made_linked_runs(said(record, 0), at(known, "public"@), at(known, "mode"@))
            == Ok::<Tree, Seq<char>>(at(record[3], "linked"@)),
{
    let l = QUALIFY_LINK@;
    reveal_strlit("1");
    reveal_strlit("linked");
    reveal_strlit("reply");
    reveal_strlit("linked-runs inventory public mode");
    reveal_strlit("linked-runs");
    reveal_strlit("inventory public mode");
    reveal_strlit("inventory");
    reveal_strlit("public mode");
    reveal_strlit("public");
    reveal_strlit("mode");
    reveal_strlit("poll");
    reveal_strlit("wait");
    reveal_strlit("");
    reveal_strlit("held");
    reveal_strlit("blockers");
    reveal_strlit("held,blockers");
    lemma_one_digit("1"@);
    assert(number_of("1"@) == Some(1u64));
    assert("linked"@.len() == 6);
    assert("reply"@.len() == 5);
    assert("public mode"@ =~= "public"@ + seq![' '] + "mode"@);
    lemma_two_words("public"@, "mode"@, "public mode"@);
    assert("inventory public mode"@ =~= "inventory"@ + seq![' '] + "public mode"@);
    lemma_four_words("inventory"@, "public mode"@, "inventory public mode"@);
    assert(
        "linked-runs inventory public mode"@
            =~= "linked-runs"@ + seq![' '] + "inventory public mode"@
    );
    lemma_four_words(
        "linked-runs"@,
        "inventory public mode"@,
        "linked-runs inventory public mode"@,
    );
    assert(
        parts("linked-runs inventory public mode"@)
            =~= seq!["linked-runs"@, "inventory"@, "public"@, "mode"@]
    );
    assert("inventory"@.len() == 9);
    assert("poll"@[0] != "wait"@[0]);
    lemma_apart(""@, "inventory"@, 0);
    assert("public"@.len() == 6);
    lemma_apart("inventory"@, "public"@, 0);
    lemma_apart(""@, "public"@, 0);
    assert("mode"@.len() == 4);
    lemma_apart("inventory"@, "mode"@, 0);
    lemma_apart(""@, "mode"@, 0);
    assert(
        parts("linked-runs inventory public mode"@).skip(1)
            =~= seq!["inventory"@, "public"@, "mode"@]
    );
    assert("held"@.len() == 4);
    assert("held,blockers"@ =~= "held"@ + seq![','] + "blockers"@);
    assert(made_linked_runs(said(record, 0), at(known, "public"@), at(known, "mode"@)) is Ok
            && items_of(
                made_linked_runs(said(record, 0), at(known, "public"@), at(known, "mode"@))->Ok_0,
            ).len()
                == 1) by {
        was_made(l, known, answers, record, 2);
        was_awaited(l, known, answers, record, 0);
        stays(l, known, answers, record, 1, "inventory"@);
        stays(l, known, answers, record, 0, "public"@);
        stays(l, known, answers, record, 1, "public"@);
        stays(l, known, answers, record, 0, "mode"@);
        stays(l, known, answers, record, 1, "mode"@);
        let args2 = arguments(parts("linked-runs inventory public mode"@).skip(1), record[2]);
        assert(args2 =~= seq![said(record, 0), at(known, "public"@), at(known, "mode"@)]);
        makes_linked_runs(args2, record[2]);
        saw_len(l, known, answers, record, 3, 1);
    }
    assert(items_of(at(said(record, 10), "blockers"@)).len() > 0) by {
        was_said(l, known, answers, record, 11);
        lemma_under(record[12], "held"@, "blockers"@, "held,blockers"@);
        saw_nonempty(l, known, answers, record, 12);
    }
    assert(made_linked_runs(said(record, 0), at(known, "public"@), at(known, "mode"@))
            == Ok::<Tree, Seq<char>>(at(record[3], "linked"@))) by {
        was_made(l, known, answers, record, 2);
        was_awaited(l, known, answers, record, 0);
        stays(l, known, answers, record, 1, "inventory"@);
        stays(l, known, answers, record, 0, "public"@);
        stays(l, known, answers, record, 1, "public"@);
        stays(l, known, answers, record, 0, "mode"@);
        stays(l, known, answers, record, 1, "mode"@);
        let args2 = arguments(parts("linked-runs inventory public mode"@).skip(1), record[2]);
        assert(args2 =~= seq![said(record, 0), at(known, "public"@), at(known, "mode"@)]);
        makes_linked_runs(args2, record[2]);
    }
}

/// A published call finishes its start only where exactly one internal run belongs to it and it
/// holds the worker.
pub proof fn publication_was_linked(known: Tree, answers: Seq<(Tree, bool)>) -> (record: Seq<Tree>)
    requires
        known is Object,
        finished(QUALIFY_LINK@, known, answers),
    ensures
        passed(QUALIFY_LINK@, known, answers, record),
        QUALIFY_LINK@[0].2@ == "list-internal"@,
        made_linked_runs(said(record, 0), at(known, "public"@), at(known, "mode"@)) is Ok
            && items_of(
                made_linked_runs(said(record, 0), at(known, "public"@), at(known, "mode"@))->Ok_0,
            ).len()
                == 1,
        QUALIFY_LINK@[10].2@
            == "resource published-lifetime-hold success slotbook-build 0 inspect"@,
        items_of(at(said(record, 10), "blockers"@)).len() > 0,
        made_linked_runs(said(record, 0), at(known, "public"@), at(known, "mode"@))
            == Ok::<Tree, Seq<char>>(at(record[3], "linked"@)),
{
    let record = finished_scenarios_are_recorded(QUALIFY_LINK@, known, answers);
    lemma_publication_was_linked(known, answers, record);
    record
}

proof fn lemma_editing_was_handed_on(known: Tree, answers: Seq<(Tree, bool)>, record: Seq<Tree>)
    requires
        passed(QUALIFY_HANDOFF@, known, answers, record),
    ensures
        items_of(at(said(record, 0), "blockers"@)).len() == 2,
        elements_filled(items_of(at(said(record, 0), "blockers"@)), "editing"@) == 1,
{
    let l = QUALIFY_HANDOFF@;
    reveal_strlit("2");
    reveal_strlit("held");
    reveal_strlit("reply");
    reveal_strlit("poll");
    reveal_strlit("wait");
    reveal_strlit("");
    reveal_strlit("blockers");
    reveal_strlit("held,blockers");
    reveal_strlit("1");
    reveal_strlit("1 nonempty editing");
    reveal_strlit("nonempty editing");
    reveal_strlit("nonempty");
    reveal_strlit("editing");
    reveal_strlit("else");
    reveal_strlit("plus");
    lemma_one_digit("2"@);
    assert(number_of("2"@) == Some(2u64));
    assert("held"@.len() == 4);
    assert("reply"@.len() == 5);
    assert("poll"@[0] != "wait"@[0]);
    lemma_apart(""@, "held"@, 0);
    assert("held,blockers"@ =~= "held"@ + seq![','] + "blockers"@);
    lemma_one_digit("1"@);
    assert(number_of("1"@) == Some(1u64));
    assert("nonempty editing"@ =~= "nonempty"@ + seq![' '] + "editing"@);
    lemma_two_words("nonempty"@, "editing"@, "nonempty editing"@);
    assert("1 nonempty editing"@ =~= "1"@ + seq![' '] + "nonempty editing"@);
    lemma_four_words("1"@, "nonempty editing"@, "1 nonempty editing"@);
    assert("editing"@.len() == 7);
    assert("else"@.len() == 4);
    assert("plus"@.len() == 4);
    assert(parts("1 nonempty editing"@) =~= seq!["1"@, "nonempty"@, "editing"@]);
    assert(items_of(at(said(record, 0), "blockers"@)).len() == 2) by {
        was_awaited(l, known, answers, record, 0);
        stays(l, known, answers, record, 1, "held"@);
        lemma_under(record[2], "held"@, "blockers"@, "held,blockers"@);
        saw_len(l, known, answers, record, 2, 2);
    }
    assert(elements_filled(items_of(at(said(record, 0), "blockers"@)), "editing"@) == 1) by {
        was_awaited(l, known, answers, record, 0);
        stays(l, known, answers, record, 1, "held"@);
        unchanged(l, known, answers, record, 2);
        lemma_under(record[3], "held"@, "blockers"@, "held,blockers"@);
        saw_matching_filled(l, known, answers, record, 3, "1"@, "editing"@, 1);
    }
}

/// A handed-on call has two holds on the worker, of which exactly one edits.
pub proof fn editing_was_handed_on(known: Tree, answers: Seq<(Tree, bool)>) -> (record: Seq<Tree>)
    requires
        known is Object,
        finished(QUALIFY_HANDOFF@, known, answers),
    ensures
        passed(QUALIFY_HANDOFF@, known, answers, record),
        QUALIFY_HANDOFF@[0].2@ == "holds slotbook-build"@,
        items_of(at(said(record, 0), "blockers"@)).len() == 2,
        elements_filled(items_of(at(said(record, 0), "blockers"@)), "editing"@) == 1,
{
    let record = finished_scenarios_are_recorded(QUALIFY_HANDOFF@, known, answers);
    lemma_editing_was_handed_on(known, answers, record);
    record
}

proof fn lemma_agreement_was_satisfied(known: Tree, answers: Seq<(Tree, bool)>, record: Seq<Tree>)
    requires
        passed(QUALIFY_COMPLETED@, known, answers, record),
    ensures
        at(at(said(record, 0), "value"@), "terminal"@) == Tree::Text("succeeded"@),
        at(at(said(record, 0), "value"@), "agreement_adoptions"@) == Tree::Integer(1),
{
    let l = QUALIFY_COMPLETED@;
    reveal_strlit("completed");
    reveal_strlit("reply");
    reveal_strlit("waited");
    reveal_strlit("value");
    reveal_strlit("waited,value");
    reveal_strlit("terminal");
    reveal_strlit("completed,terminal");
    reveal_strlit("1");
    reveal_strlit("agreement_adoptions");
    reveal_strlit("completed,agreement_adoptions");
    assert("completed"@.len() == 9);
    assert("reply"@.len() == 5);
    assert("waited"@.len() == 6);
    assert("waited,value"@ =~= "waited"@ + seq![','] + "value"@);
    assert("completed,terminal"@ =~= "completed"@ + seq![','] + "terminal"@);
    lemma_one_digit("1"@);
    assert(number_of("1"@) == Some(1u64));
    assert("completed,agreement_adoptions"@ =~= "completed"@ + seq![','] + "agreement_adoptions"@);
    assert(at(at(said(record, 0), "value"@), "terminal"@) == Tree::Text("succeeded"@)) by {
        was_kept(l, known, answers, record, 2);
        was_said(l, known, answers, record, 1);
        lemma_under(record[2], "waited"@, "value"@, "waited,value"@);
        lemma_under(record[3], "completed"@, "terminal"@, "completed,terminal"@);
        saw_is(l, known, answers, record, 3);
    }
    assert(at(at(said(record, 0), "value"@), "agreement_adoptions"@) == Tree::Integer(1)) by {
        was_kept(l, known, answers, record, 2);
        was_said(l, known, answers, record, 1);
        lemma_under(record[2], "waited"@, "value"@, "waited,value"@);
        unchanged(l, known, answers, record, 3);
        lemma_under(
            record[4],
            "completed"@,
            "agreement_adoptions"@,
            "completed,agreement_adoptions"@,
        );
        saw_num(l, known, answers, record, 4, 1);
    }
}

/// A method is complete only where its run succeeded and adopted its agreement once.
pub proof fn agreement_was_satisfied(known: Tree, answers: Seq<(Tree, bool)>) -> (record: Seq<Tree>)
    requires
        known is Object,
        finished(QUALIFY_COMPLETED@, known, answers),
    ensures
        passed(QUALIFY_COMPLETED@, known, answers, record),
        QUALIFY_COMPLETED@[0].2@ == "call run-wait success operator run wait $link,internal"@,
        at(at(said(record, 0), "value"@), "terminal"@) == Tree::Text("succeeded"@),
        at(at(said(record, 0), "value"@), "agreement_adoptions"@) == Tree::Integer(1),
{
    let record = finished_scenarios_are_recorded(QUALIFY_COMPLETED@, known, answers);
    lemma_agreement_was_satisfied(known, answers, record);
    record
}

proof fn lemma_caller_succeeded(known: Tree, answers: Seq<(Tree, bool)>, record: Seq<Tree>)
    requires
        passed(QUALIFY_OUTER_RESULT@, known, answers, record),
    ensures
        at(said(record, 0), "value,terminal"@) == Tree::Text("succeeded"@),
{
    let l = QUALIFY_OUTER_RESULT@;
    reveal_strlit("outer_result");
    reveal_strlit("reply");
    reveal_strlit("value,terminal");
    reveal_strlit("outer_result,value,terminal");
    assert("outer_result"@.len() == 12);
    assert("reply"@.len() == 5);
    assert("outer_result,value,terminal"@ =~= "outer_result"@ + seq![','] + "value,terminal"@);
    assert(at(said(record, 0), "value,terminal"@) == Tree::Text("succeeded"@)) by {
        was_said(l, known, answers, record, 1);
        lemma_under(record[2], "outer_result"@, "value,terminal"@, "outer_result,value,terminal"@);
        saw_is(l, known, answers, record, 2);
    }
}

/// An outer workflow is complete only where its run succeeded.
pub proof fn caller_succeeded(known: Tree, answers: Seq<(Tree, bool)>) -> (record: Seq<Tree>)
    requires
        known is Object,
        finished(QUALIFY_OUTER_RESULT@, known, answers),
    ensures
        passed(QUALIFY_OUTER_RESULT@, known, answers, record),
        QUALIFY_OUTER_RESULT@[0].2@ == "call outer-result success origin run wait slotbook-caller"@,
        at(said(record, 0), "value,terminal"@) == Tree::Text("succeeded"@),
{
    let record = finished_scenarios_are_recorded(QUALIFY_OUTER_RESULT@, known, answers);
    lemma_caller_succeeded(known, answers, record);
    record
}

proof fn lemma_publication_was_served_1(known: Tree, answers: Seq<(Tree, bool)>, record: Seq<Tree>)
    requires
        passed(QUALIFY_SERVED@, known, answers, record),
    ensures
        at(said(record, 0), "pending"@) == Tree::Null,
        at(said(record, 0), "observed_running"@) == Tree::Bool(true),
        at(at(said(record, 5), "evaluation"@), "complete"@) == Tree::Bool(true),
        items_of(at(at(said(record, 5), "evaluation"@), "checks"@)).len() > 0,
        every_element(
            items_of(at(at(said(record, 5), "evaluation"@), "checks"@)),
            "passed"@,
            Tree::Bool(true),
        ),
        said(record, 15) == Tree::Bool(true),
{
    let l = QUALIFY_SERVED@;
    reveal_strlit("after");
    reveal_strlit("reply");
    reveal_strlit("pending");
    reveal_strlit("after,pending");
    reveal_strlit("observed_running");
    reveal_strlit("after,observed_running");
    reveal_strlit("accepted");
    reveal_strlit("read");
    reveal_strlit("evaluation");
    reveal_strlit("read,evaluation");
    reveal_strlit("complete");
    reveal_strlit("accepted,complete");
    reveal_strlit("checks");
    reveal_strlit("accepted,checks");
    reveal_strlit("true");
    reveal_strlit("passed");
    reveal_strlit("true passed");
    reveal_strlit("else");
    reveal_strlit("plus");
    reveal_strlit("matching");
    assert("after"@[0] != "reply"@[0]);
    assert("after,pending"@ =~= "after"@ + seq![','] + "pending"@);
    assert("after,observed_running"@ =~= "after"@ + seq![','] + "observed_running"@);
    assert("accepted"@.len() == 8);
    assert("reply"@.len() == 5);
    assert("read"@.len() == 4);
    assert("read,evaluation"@ =~= "read"@ + seq![','] + "evaluation"@);
    assert("accepted,complete"@ =~= "accepted"@ + seq![','] + "complete"@);
    assert("accepted,checks"@ =~= "accepted"@ + seq![','] + "checks"@);
    assert("true passed"@ =~= "true"@ + seq![' '] + "passed"@);
    lemma_two_words("true"@, "passed"@, "true passed"@);
    assert("passed"@.len() == 6);
    assert("else"@.len() == 4);
    assert("plus"@.len() == 4);
    assert("matching"@.len() == 8);
    assert(at(said(record, 0), "pending"@) == Tree::Null) by {
        was_said(l, known, answers, record, 1);
        lemma_under(record[2], "after"@, "pending"@, "after,pending"@);
        saw_null(l, known, answers, record, 2);
    }
    assert(at(said(record, 0), "observed_running"@) == Tree::Bool(true)) by {
        was_said(l, known, answers, record, 1);
        unchanged(l, known, answers, record, 2);
        lemma_under(record[3], "after"@, "observed_running"@, "after,observed_running"@);
        saw_true(l, known, answers, record, 3);
    }
    assert(at(at(said(record, 5), "evaluation"@), "complete"@) == Tree::Bool(true)) by {
        was_kept(l, known, answers, record, 7);
        was_said(l, known, answers, record, 6);
        lemma_under(record[7], "read"@, "evaluation"@, "read,evaluation"@);
        lemma_under(record[8], "accepted"@, "complete"@, "accepted,complete"@);
        saw_true(l, known, answers, record, 8);
    }
    assert(items_of(at(at(said(record, 5), "evaluation"@), "checks"@)).len() > 0) by {
        was_kept(l, known, answers, record, 7);
        was_said(l, known, answers, record, 6);
        lemma_under(record[7], "read"@, "evaluation"@, "read,evaluation"@);
        unchanged(l, known, answers, record, 8);
        lemma_under(record[9], "accepted"@, "checks"@, "accepted,checks"@);
        saw_nonempty(l, known, answers, record, 9);
    }
    assert(every_element(
            items_of(at(at(said(record, 5), "evaluation"@), "checks"@)),
            "passed"@,
            Tree::Bool(true),
        )) by {
        was_kept(l, known, answers, record, 7);
        was_said(l, known, answers, record, 6);
        lemma_under(record[7], "read"@, "evaluation"@, "read,evaluation"@);
        unchanged(l, known, answers, record, 8);
        unchanged(l, known, answers, record, 9);
        lemma_under(record[10], "accepted"@, "checks"@, "accepted,checks"@);
        saw_each(l, known, answers, record, 10, "passed"@);
    }
    assert(said(record, 15) == Tree::Bool(true)) by {
        was_said(l, known, answers, record, 16);
        saw_true(l, known, answers, record, 17);
    }
}

proof fn lemma_publication_was_served_2(known: Tree, answers: Seq<(Tree, bool)>, record: Seq<Tree>)
    requires
        passed(QUALIFY_SERVED@, known, answers, record),
    ensures
        said(record, 27) == Tree::Bool(true),
        at(said(record, 37), "succeeded"@) == Tree::Bool(true),
        at(said(record, 37), "bounded"@) == Tree::Bool(true),
        at(said(record, 37), "body,status"@) == Tree::Text("ready"@),
        at(said(record, 44), "generation"@) == at(said(record, 0), "generation"@),
        at(said(record, 44), "observed_running"@) == Tree::Bool(true),
{
    let l = QUALIFY_SERVED@;
    reveal_strlit("matching");
    reveal_strlit("reply");
    reveal_strlit("health");
    reveal_strlit("succeeded");
    reveal_strlit("health,succeeded");
    reveal_strlit("bounded");
    reveal_strlit("health,bounded");
    reveal_strlit("body,status");
    reveal_strlit("health,body,status");
    reveal_strlit("reopened");
    reveal_strlit("generation");
    reveal_strlit("reopened,generation");
    reveal_strlit("after");
    reveal_strlit("accepted_id");
    reveal_strlit("");
    reveal_strlit("read");
    reveal_strlit("accepted");
    reveal_strlit("verified");
    reveal_strlit("verified_artifact");
    reveal_strlit("downloaded");
    reveal_strlit("service_row");
    reveal_strlit("service");
    reveal_strlit("deployed");
    reveal_strlit("mounted");
    reveal_strlit("mount_source");
    reveal_strlit("saved");
    reveal_strlit("refusal");
    reveal_strlit("timeline");
    reveal_strlit("restarted");
    reveal_strlit("after,generation");
    reveal_strlit("observed_running");
    reveal_strlit("reopened,observed_running");
    assert("matching"@.len() == 8);
    assert("reply"@.len() == 5);
    assert("health"@.len() == 6);
    assert("health,succeeded"@ =~= "health"@ + seq![','] + "succeeded"@);
    assert("health,bounded"@ =~= "health"@ + seq![','] + "bounded"@);
    assert("health,body,status"@ =~= "health"@ + seq![','] + "body,status"@);
    assert("reopened"@.len() == 8);
    assert("reopened,generation"@ =~= "reopened"@ + seq![','] + "generation"@);
    assert("after"@[0] != "reply"@[0]);
    lemma_apart("accepted_id"@, "after"@, 1);
    lemma_apart(""@, "after"@, 0);
    lemma_apart("read"@, "after"@, 0);
    lemma_apart("accepted"@, "after"@, 1);
    lemma_apart("verified"@, "after"@, 0);
    lemma_apart("verified_artifact"@, "after"@, 0);
    lemma_apart("downloaded"@, "after"@, 0);
    lemma_apart("matching"@, "after"@, 0);
    lemma_apart("service_row"@, "after"@, 0);
    lemma_apart("service"@, "after"@, 0);
    lemma_apart("deployed"@, "after"@, 0);
    lemma_apart("mounted"@, "after"@, 0);
    lemma_apart("mount_source"@, "after"@, 0);
    lemma_apart("saved"@, "after"@, 0);
    lemma_apart("refusal"@, "after"@, 0);
    lemma_apart("timeline"@, "after"@, 0);
    lemma_apart("health"@, "after"@, 0);
    lemma_apart("restarted"@, "after"@, 0);
    lemma_apart("reopened"@, "after"@, 0);
    assert("after,generation"@ =~= "after"@ + seq![','] + "generation"@);
    assert("reopened,observed_running"@ =~= "reopened"@ + seq![','] + "observed_running"@);
    assert(said(record, 27) == Tree::Bool(true)) by {
        was_said(l, known, answers, record, 28);
        saw_true(l, known, answers, record, 29);
    }
    assert(at(said(record, 37), "succeeded"@) == Tree::Bool(true)) by {
        was_said(l, known, answers, record, 38);
        lemma_under(record[39], "health"@, "succeeded"@, "health,succeeded"@);
        saw_true(l, known, answers, record, 39);
    }
    assert(at(said(record, 37), "bounded"@) == Tree::Bool(true)) by {
        was_said(l, known, answers, record, 38);
        unchanged(l, known, answers, record, 39);
        lemma_under(record[40], "health"@, "bounded"@, "health,bounded"@);
        saw_true(l, known, answers, record, 40);
    }
    assert(at(said(record, 37), "body,status"@) == Tree::Text("ready"@)) by {
        was_said(l, known, answers, record, 38);
        unchanged(l, known, answers, record, 39);
        unchanged(l, known, answers, record, 40);
        lemma_under(record[41], "health"@, "body,status"@, "health,body,status"@);
        saw_is(l, known, answers, record, 41);
    }
    assert(at(said(record, 44), "generation"@) == at(said(record, 0), "generation"@)) by {
        was_said(l, known, answers, record, 45);
        lemma_under(record[46], "reopened"@, "generation"@, "reopened,generation"@);
        was_said(l, known, answers, record, 1);
        assert(forall|j: int|
            2 <= j < 46 ==> is_check((#[trigger] l[j]).0@) || !touches(l[j].1@, "after"@));
        stays_through(l, known, answers, record, 2, 46, "after"@);
        lemma_under(record[46], "after"@, "generation"@, "after,generation"@);
        saw_same(l, known, answers, record, 46);
    }
    assert(at(said(record, 44), "observed_running"@) == Tree::Bool(true)) by {
        was_said(l, known, answers, record, 45);
        unchanged(l, known, answers, record, 46);
        lemma_under(record[47], "reopened"@, "observed_running"@, "reopened,observed_running"@);
        saw_true(l, known, answers, record, 47);
    }
}

/// A publication is served only where the target runs, the accepted evaluation is complete and
/// passed every check, the downloaded and the mounted artifact are the corrected candidate, the
/// service is healthy, and a restart kept its generation and kept it running.
pub proof fn publication_was_served(known: Tree, answers: Seq<(Tree, bool)>) -> (record: Seq<Tree>)
    requires
        known is Object,
        finished(QUALIFY_SERVED@, known, answers),
    ensures
        passed(QUALIFY_SERVED@, known, answers, record),
        QUALIFY_SERVED@[0].2@ == "resource published-inspect success slotbook-test 0 inspect"@,
        at(said(record, 0), "pending"@) == Tree::Null,
        at(said(record, 0), "observed_running"@) == Tree::Bool(true),
        QUALIFY_SERVED@[5].2@
            == "resource accepted-evidence success slotbook-test 0 evidence --evaluation $accepted_id"@,
        at(at(said(record, 5), "evaluation"@), "complete"@) == Tree::Bool(true),
        items_of(at(at(said(record, 5), "evaluation"@), "checks"@)).len() > 0,
        every_element(
            items_of(at(at(said(record, 5), "evaluation"@), "checks"@)),
            "passed"@,
            Tree::Bool(true),
        ),
        QUALIFY_SERVED@[15].2@ == "matches-candidate $paths,deployed"@,
        said(record, 15) == Tree::Bool(true),
        QUALIFY_SERVED@[27].2@ == "matches-candidate $mount_source"@,
        said(record, 27) == Tree::Bool(true),
        QUALIFY_SERVED@[37].2@ == "health"@,
        at(said(record, 37), "succeeded"@) == Tree::Bool(true),
        at(said(record, 37), "bounded"@) == Tree::Bool(true),
        at(said(record, 37), "body,status"@) == Tree::Text("ready"@),
        QUALIFY_SERVED@[44].2@ == "resource reopened-inspect success slotbook-test 0 inspect"@,
        at(said(record, 44), "generation"@) == at(said(record, 0), "generation"@),
        at(said(record, 44), "observed_running"@) == Tree::Bool(true),
{
    let record = finished_scenarios_are_recorded(QUALIFY_SERVED@, known, answers);
    lemma_publication_was_served_1(known, answers, record);
    lemma_publication_was_served_2(known, answers, record);
    record
}

proof fn lemma_replay_deployed_nothing(known: Tree, answers: Seq<(Tree, bool)>, record: Seq<Tree>)
    requires
        passed(QUALIFY_NO_DEPLOYMENT@, known, answers, record),
    ensures
        at(said(record, 0), "generation"@) == at(at(known, "after"@), "generation"@),
        at(said(record, 0), "version"@) == at(at(known, "after"@), "version"@),
{
    let l = QUALIFY_NO_DEPLOYMENT@;
    reveal_strlit("unmoved");
    reveal_strlit("reply");
    reveal_strlit("generation");
    reveal_strlit("unmoved,generation");
    reveal_strlit("after");
    reveal_strlit("");
    reveal_strlit("after,generation");
    reveal_strlit("version");
    reveal_strlit("unmoved,version");
    reveal_strlit("after,version");
    assert("unmoved"@.len() == 7);
    assert("reply"@.len() == 5);
    assert("unmoved,generation"@ =~= "unmoved"@ + seq![','] + "generation"@);
    assert("after"@[0] != "reply"@[0]);
    lemma_apart(""@, "after"@, 0);
    lemma_apart("unmoved"@, "after"@, 0);
    assert("after,generation"@ =~= "after"@ + seq![','] + "generation"@);
    assert("unmoved,version"@ =~= "unmoved"@ + seq![','] + "version"@);
    assert("after,version"@ =~= "after"@ + seq![','] + "version"@);
    assert(at(said(record, 0), "generation"@) == at(at(known, "after"@), "generation"@)) by {
        was_said(l, known, answers, record, 1);
        lemma_under(record[2], "unmoved"@, "generation"@, "unmoved,generation"@);
        stays(l, known, answers, record, 0, "after"@);
        stays(l, known, answers, record, 1, "after"@);
        lemma_under(record[2], "after"@, "generation"@, "after,generation"@);
        saw_same(l, known, answers, record, 2);
    }
    assert(at(said(record, 0), "version"@) == at(at(known, "after"@), "version"@)) by {
        was_said(l, known, answers, record, 1);
        unchanged(l, known, answers, record, 2);
        lemma_under(record[3], "unmoved"@, "version"@, "unmoved,version"@);
        assert(forall|j: int|
            0 <= j < 3 ==> is_check((#[trigger] l[j]).0@) || !touches(l[j].1@, "after"@));
        stays_through(l, known, answers, record, 0, 3, "after"@);
        lemma_under(record[3], "after"@, "version"@, "after,version"@);
        saw_same(l, known, answers, record, 3);
    }
}

/// A replayed call finishes only where the target has the generation and the version from before.
pub proof fn replay_deployed_nothing(known: Tree, answers: Seq<(Tree, bool)>) -> (record: Seq<Tree>)
    requires
        known is Object,
        finished(QUALIFY_NO_DEPLOYMENT@, known, answers),
    ensures
        passed(QUALIFY_NO_DEPLOYMENT@, known, answers, record),
        QUALIFY_NO_DEPLOYMENT@[0].2@
            == "resource wrapper-replay-no-deployment success slotbook-test 0 inspect"@,
        at(said(record, 0), "generation"@) == at(at(known, "after"@), "generation"@),
        at(said(record, 0), "version"@) == at(at(known, "after"@), "version"@),
{
    let record = finished_scenarios_are_recorded(QUALIFY_NO_DEPLOYMENT@, known, answers);
    lemma_replay_deployed_nothing(known, answers, record);
    record
}

proof fn lemma_renewal_was_observed_1(known: Tree, answers: Seq<(Tree, bool)>, record: Seq<Tree>)
    requires
        passed(QUALIFY_RENEWED@, known, answers, record),
    ensures
        at(at(said(record, 12), "evaluation"@), "complete"@) == Tree::Bool(true),
        items_of(at(at(said(record, 12), "evaluation"@), "checks"@)).len() > 0,
        every_element(
            items_of(at(at(said(record, 12), "evaluation"@), "checks"@)),
            "passed"@,
            Tree::Bool(true),
        ),
        at(said(record, 18), "evaluation,identity"@) != at(said(record, 9), "evaluation,identity"@),
        at(at(said(record, 21), "evaluation"@), "subject"@)
            == at(at(said(record, 12), "evaluation"@), "subject"@),
{
    let l = QUALIFY_RENEWED@;
    reveal_strlit("direct_checks");
    reveal_strlit("reply");
    reveal_strlit("read");
    reveal_strlit("evaluation");
    reveal_strlit("read,evaluation");
    reveal_strlit("complete");
    reveal_strlit("direct_checks,complete");
    reveal_strlit("checks");
    reveal_strlit("direct_checks,checks");
    reveal_strlit("true");
    reveal_strlit("passed");
    reveal_strlit("true passed");
    reveal_strlit("else");
    reveal_strlit("plus");
    reveal_strlit("renewed_id");
    reveal_strlit("renewed");
    reveal_strlit("evaluation,identity");
    reveal_strlit("renewed,evaluation,identity");
    reveal_strlit("");
    reveal_strlit("renewed_checks");
    reveal_strlit("direct_id");
    reveal_strlit("direct");
    reveal_strlit("direct,evaluation,identity");
    reveal_strlit("subject");
    reveal_strlit("renewed_checks,subject");
    reveal_strlit("direct_checks,subject");
    assert("direct_checks"@.len() == 13);
    assert("reply"@.len() == 5);
    assert("read"@.len() == 4);
    assert("read,evaluation"@ =~= "read"@ + seq![','] + "evaluation"@);
    assert("direct_checks,complete"@ =~= "direct_checks"@ + seq![','] + "complete"@);
    assert("direct_checks,checks"@ =~= "direct_checks"@ + seq![','] + "checks"@);
    assert("true passed"@ =~= "true"@ + seq![' '] + "passed"@);
    lemma_two_words("true"@, "passed"@, "true passed"@);
    assert("passed"@.len() == 6);
    assert("else"@.len() == 4);
    assert("plus"@.len() == 4);
    assert("renewed_id"@.len() == 10);
    assert("renewed"@.len() == 7);
    assert("renewed,evaluation,identity"@ =~= "renewed"@ + seq![','] + "evaluation,identity"@);
    lemma_apart(""@, "renewed_id"@, 0);
    lemma_apart("read"@, "renewed_id"@, 2);
    lemma_apart("renewed_checks"@, "renewed_id"@, 8);
    assert("direct_id"@.len() == 9);
    assert("direct"@.len() == 6);
    assert("direct,evaluation,identity"@ =~= "direct"@ + seq![','] + "evaluation,identity"@);
    lemma_apart(""@, "direct_id"@, 0);
    lemma_apart("read"@, "direct_id"@, 0);
    lemma_apart("direct_checks"@, "direct_id"@, 7);
    lemma_apart("renewed"@, "direct_id"@, 0);
    lemma_apart("renewed_id"@, "direct_id"@, 0);
    lemma_apart("renewed_checks"@, "direct_id"@, 0);
    assert("renewed_checks"@.len() == 14);
    assert("renewed_checks,subject"@ =~= "renewed_checks"@ + seq![','] + "subject"@);
    lemma_apart(""@, "direct_checks"@, 0);
    lemma_apart("renewed"@, "direct_checks"@, 0);
    lemma_apart("renewed_id"@, "direct_checks"@, 0);
    lemma_apart("read"@, "direct_checks"@, 0);
    lemma_apart("renewed_checks"@, "direct_checks"@, 0);
    assert("direct_checks,subject"@ =~= "direct_checks"@ + seq![','] + "subject"@);
    assert(at(at(said(record, 12), "evaluation"@), "complete"@) == Tree::Bool(true)) by {
        was_kept(l, known, answers, record, 14);
        was_said(l, known, answers, record, 13);
        lemma_under(record[14], "read"@, "evaluation"@, "read,evaluation"@);
        lemma_under(record[15], "direct_checks"@, "complete"@, "direct_checks,complete"@);
        saw_true(l, known, answers, record, 15);
    }
    assert(items_of(at(at(said(record, 12), "evaluation"@), "checks"@)).len() > 0) by {
        was_kept(l, known, answers, record, 14);
        was_said(l, known, answers, record, 13);
        lemma_under(record[14], "read"@, "evaluation"@, "read,evaluation"@);
        unchanged(l, known, answers, record, 15);
        lemma_under(record[16], "direct_checks"@, "checks"@, "direct_checks,checks"@);
        saw_nonempty(l, known, answers, record, 16);
    }
    assert(every_element(
            items_of(at(at(said(record, 12), "evaluation"@), "checks"@)),
            "passed"@,
            Tree::Bool(true),
        )) by {
        was_kept(l, known, answers, record, 14);
        was_said(l, known, answers, record, 13);
        lemma_under(record[14], "read"@, "evaluation"@, "read,evaluation"@);
        unchanged(l, known, answers, record, 15);
        unchanged(l, known, answers, record, 16);
        lemma_under(record[17], "direct_checks"@, "checks"@, "direct_checks,checks"@);
        saw_each(l, known, answers, record, 17, "passed"@);
    }
    assert(at(said(record, 18), "evaluation,identity"@) != at(said(record, 9), "evaluation,identity"@)) by {
        was_kept(l, known, answers, record, 20);
        was_said(l, known, answers, record, 19);
        lemma_under(record[20], "renewed"@, "evaluation,identity"@, "renewed,evaluation,identity"@);
        assert(forall|j: int|
            21 <= j < 24 ==> is_check((#[trigger] l[j]).0@) || !touches(l[j].1@, "renewed_id"@));
        stays_through(l, known, answers, record, 21, 24, "renewed_id"@);
        was_kept(l, known, answers, record, 11);
        was_said(l, known, answers, record, 10);
        lemma_under(record[11], "direct"@, "evaluation,identity"@, "direct,evaluation,identity"@);
        assert(forall|j: int|
            12 <= j < 24 ==> is_check((#[trigger] l[j]).0@) || !touches(l[j].1@, "direct_id"@));
        stays_through(l, known, answers, record, 12, 24, "direct_id"@);
        saw_differs(l, known, answers, record, 24);
    }
    assert(at(at(said(record, 21), "evaluation"@), "subject"@)
            == at(at(said(record, 12), "evaluation"@), "subject"@)) by {
        was_kept(l, known, answers, record, 23);
        was_said(l, known, answers, record, 22);
        lemma_under(record[23], "read"@, "evaluation"@, "read,evaluation"@);
        unchanged(l, known, answers, record, 24);
        lemma_under(record[25], "renewed_checks"@, "subject"@, "renewed_checks,subject"@);
        was_kept(l, known, answers, record, 14);
        was_said(l, known, answers, record, 13);
        lemma_under(record[14], "read"@, "evaluation"@, "read,evaluation"@);
        assert(forall|j: int|
            15 <= j < 25 ==> is_check((#[trigger] l[j]).0@) || !touches(l[j].1@, "direct_checks"@));
        stays_through(l, known, answers, record, 15, 25, "direct_checks"@);
        lemma_under(record[25], "direct_checks"@, "subject"@, "direct_checks,subject"@);
        saw_same(l, known, answers, record, 25);
    }
}

proof fn lemma_renewal_was_observed_2(known: Tree, answers: Seq<(Tree, bool)>, record: Seq<Tree>)
    requires
        passed(QUALIFY_RENEWED@, known, answers, record),
    ensures
        at(at(said(record, 21), "evaluation"@), "complete"@) == Tree::Bool(true),
        items_of(at(at(said(record, 21), "evaluation"@), "checks"@)).len() > 0,
        every_element(
            items_of(at(at(said(record, 21), "evaluation"@), "checks"@)),
            "passed"@,
            Tree::Bool(true),
        ),
        at(said(record, 29), "evaluation"@) == at(said(record, 12), "evaluation"@),
        at(said(record, 35), "pending"@) == Tree::Null,
{
    let l = QUALIFY_RENEWED@;
    reveal_strlit("renewed_checks");
    reveal_strlit("reply");
    reveal_strlit("read");
    reveal_strlit("evaluation");
    reveal_strlit("read,evaluation");
    reveal_strlit("complete");
    reveal_strlit("renewed_checks,complete");
    reveal_strlit("checks");
    reveal_strlit("renewed_checks,checks");
    reveal_strlit("true");
    reveal_strlit("passed");
    reveal_strlit("true passed");
    reveal_strlit("else");
    reveal_strlit("plus");
    reveal_strlit("prior_checks");
    reveal_strlit("direct_checks");
    reveal_strlit("");
    reveal_strlit("renewed");
    reveal_strlit("renewed_id");
    reveal_strlit("published");
    reveal_strlit("pending");
    reveal_strlit("published,pending");
    assert("renewed_checks"@.len() == 14);
    assert("reply"@.len() == 5);
    assert("read"@.len() == 4);
    assert("read,evaluation"@ =~= "read"@ + seq![','] + "evaluation"@);
    assert("renewed_checks,complete"@ =~= "renewed_checks"@ + seq![','] + "complete"@);
    assert("renewed_checks,checks"@ =~= "renewed_checks"@ + seq![','] + "checks"@);
    assert("true passed"@ =~= "true"@ + seq![' '] + "passed"@);
    lemma_two_words("true"@, "passed"@, "true passed"@);
    assert("passed"@.len() == 6);
    assert("else"@.len() == 4);
    assert("plus"@.len() == 4);
    assert("prior_checks"@.len() == 12);
    assert("direct_checks"@.len() == 13);
    lemma_apart(""@, "direct_checks"@, 0);
    lemma_apart("renewed"@, "direct_checks"@, 0);
    lemma_apart("renewed_id"@, "direct_checks"@, 0);
    lemma_apart("read"@, "direct_checks"@, 0);
    lemma_apart("renewed_checks"@, "direct_checks"@, 0);
    lemma_apart("prior_checks"@, "direct_checks"@, 0);
    assert("published"@.len() == 9);
    assert("published,pending"@ =~= "published"@ + seq![','] + "pending"@);
    assert(at(at(said(record, 21), "evaluation"@), "complete"@) == Tree::Bool(true)) by {
        was_kept(l, known, answers, record, 23);
        was_said(l, known, answers, record, 22);
        lemma_under(record[23], "read"@, "evaluation"@, "read,evaluation"@);
        unchanged(l, known, answers, record, 24);
        unchanged(l, known, answers, record, 25);
        lemma_under(record[26], "renewed_checks"@, "complete"@, "renewed_checks,complete"@);
        saw_true(l, known, answers, record, 26);
    }
    assert(items_of(at(at(said(record, 21), "evaluation"@), "checks"@)).len() > 0) by {
        was_kept(l, known, answers, record, 23);
        was_said(l, known, answers, record, 22);
        lemma_under(record[23], "read"@, "evaluation"@, "read,evaluation"@);
        unchanged(l, known, answers, record, 24);
        unchanged(l, known, answers, record, 25);
        unchanged(l, known, answers, record, 26);
        lemma_under(record[27], "renewed_checks"@, "checks"@, "renewed_checks,checks"@);
        saw_nonempty(l, known, answers, record, 27);
    }
    assert(every_element(
            items_of(at(at(said(record, 21), "evaluation"@), "checks"@)),
            "passed"@,
            Tree::Bool(true),
        )) by {
        was_kept(l, known, answers, record, 23);
        was_said(l, known, answers, record, 22);
        lemma_under(record[23], "read"@, "evaluation"@, "read,evaluation"@);
        assert(forall|j: int|
            24 <= j < 28
                ==> is_check((#[trigger] l[j]).0@) || !touches(l[j].1@, "renewed_checks"@));
        stays_through(l, known, answers, record, 24, 28, "renewed_checks"@);
        lemma_under(record[28], "renewed_checks"@, "checks"@, "renewed_checks,checks"@);
        saw_each(l, known, answers, record, 28, "passed"@);
    }
    assert(at(said(record, 29), "evaluation"@) == at(said(record, 12), "evaluation"@)) by {
        was_kept(l, known, answers, record, 31);
        was_said(l, known, answers, record, 30);
        lemma_under(record[31], "read"@, "evaluation"@, "read,evaluation"@);
        was_kept(l, known, answers, record, 14);
        was_said(l, known, answers, record, 13);
        lemma_under(record[14], "read"@, "evaluation"@, "read,evaluation"@);
        assert(forall|j: int|
            15 <= j < 32 ==> is_check((#[trigger] l[j]).0@) || !touches(l[j].1@, "direct_checks"@));
        stays_through(l, known, answers, record, 15, 32, "direct_checks"@);
        saw_same(l, known, answers, record, 32);
    }
    assert(at(said(record, 35), "pending"@) == Tree::Null) by {
        was_said(l, known, answers, record, 36);
        lemma_under(record[37], "published"@, "pending"@, "published,pending"@);
        saw_null(l, known, answers, record, 37);
    }
}

proof fn lemma_renewal_was_observed_3(known: Tree, answers: Seq<(Tree, bool)>, record: Seq<Tree>)
    requires
        passed(QUALIFY_RENEWED@, known, answers, record),
    ensures
        follows_by_one(at(said(record, 35), "generation"@), at(at(known, "after"@), "generation"@)),
        at(said(record, 35), "observed_running"@) == Tree::Bool(true),
        at(said(record, 51), "generation"@) == at(said(record, 35), "generation"@),
        at(said(record, 51), "version"@) == at(said(record, 35), "version"@),
        at(said(record, 55), "Id"@) == at(said(record, 45), "Id"@),
{
    let l = QUALIFY_RENEWED@;
    reveal_strlit("published");
    reveal_strlit("reply");
    reveal_strlit("generation");
    reveal_strlit("published,generation");
    reveal_strlit("after");
    reveal_strlit("");
    reveal_strlit("refusal");
    reveal_strlit("direct_version");
    reveal_strlit("candidate_artifact");
    reveal_strlit("candidate_digest");
    reveal_strlit("candidate_media");
    reveal_strlit("candidate_size");
    reveal_strlit("direct");
    reveal_strlit("direct_id");
    reveal_strlit("read");
    reveal_strlit("direct_checks");
    reveal_strlit("renewed");
    reveal_strlit("renewed_id");
    reveal_strlit("renewed_checks");
    reveal_strlit("prior_checks");
    reveal_strlit("publication");
    reveal_strlit("after,generation");
    reveal_strlit("observed_running");
    reveal_strlit("published,observed_running");
    reveal_strlit("replayed");
    reveal_strlit("replayed,generation");
    reveal_strlit("service_row");
    reveal_strlit("service");
    reveal_strlit("prior");
    reveal_strlit("restarted");
    reveal_strlit("version");
    reveal_strlit("replayed,version");
    reveal_strlit("published,version");
    reveal_strlit("again");
    reveal_strlit("Id");
    reveal_strlit("again,Id");
    reveal_strlit("prior,Id");
    assert("published"@.len() == 9);
    assert("reply"@.len() == 5);
    assert("published,generation"@ =~= "published"@ + seq![','] + "generation"@);
    assert("after"@[0] != "reply"@[0]);
    lemma_apart(""@, "after"@, 0);
    lemma_apart("refusal"@, "after"@, 0);
    lemma_apart("direct_version"@, "after"@, 0);
    lemma_apart("candidate_artifact"@, "after"@, 0);
    lemma_apart("candidate_digest"@, "after"@, 0);
    lemma_apart("candidate_media"@, "after"@, 0);
    lemma_apart("candidate_size"@, "after"@, 0);
    lemma_apart("direct"@, "after"@, 0);
    lemma_apart("direct_id"@, "after"@, 0);
    lemma_apart("read"@, "after"@, 0);
    lemma_apart("direct_checks"@, "after"@, 0);
    lemma_apart("renewed"@, "after"@, 0);
    lemma_apart("renewed_id"@, "after"@, 0);
    lemma_apart("renewed_checks"@, "after"@, 0);
    lemma_apart("prior_checks"@, "after"@, 0);
    lemma_apart("publication"@, "after"@, 0);
    lemma_apart("published"@, "after"@, 0);
    assert("after,generation"@ =~= "after"@ + seq![','] + "generation"@);
    assert("published,observed_running"@ =~= "published"@ + seq![','] + "observed_running"@);
    assert("replayed"@.len() == 8);
    assert("replayed,generation"@ =~= "replayed"@ + seq![','] + "generation"@);
    lemma_apart("service_row"@, "published"@, 0);
    lemma_apart("service"@, "published"@, 0);
    lemma_apart(""@, "published"@, 0);
    lemma_apart("prior"@, "published"@, 1);
    lemma_apart("restarted"@, "published"@, 0);
    lemma_apart("publication"@, "published"@, 5);
    lemma_apart("replayed"@, "published"@, 0);
    assert("replayed,version"@ =~= "replayed"@ + seq![','] + "version"@);
    assert("published,version"@ =~= "published"@ + seq![','] + "version"@);
    assert("again"@[0] != "reply"@[0]);
    assert("again,Id"@ =~= "again"@ + seq![','] + "Id"@);
    assert("prior"@[0] != "reply"@[0]);
    lemma_apart(""@, "prior"@, 0);
    lemma_apart("restarted"@, "prior"@, 0);
    lemma_apart("publication"@, "prior"@, 1);
    lemma_apart("replayed"@, "prior"@, 0);
    lemma_apart("again"@, "prior"@, 0);
    assert("prior,Id"@ =~= "prior"@ + seq![','] + "Id"@);
    assert(follows_by_one(at(said(record, 35), "generation"@), at(at(known, "after"@), "generation"@))) by {
        was_said(l, known, answers, record, 36);
        unchanged(l, known, answers, record, 37);
        unchanged(l, known, answers, record, 38);
        unchanged(l, known, answers, record, 39);
        lemma_under(record[40], "published"@, "generation"@, "published,generation"@);
        assert(forall|j: int|
            0 <= j < 40 ==> is_check((#[trigger] l[j]).0@) || !touches(l[j].1@, "after"@));
        stays_through(l, known, answers, record, 0, 40, "after"@);
        lemma_under(record[40], "after"@, "generation"@, "after,generation"@);
        saw_follows(l, known, answers, record, 40);
    }
    assert(at(said(record, 35), "observed_running"@) == Tree::Bool(true)) by {
        was_said(l, known, answers, record, 36);
        assert(forall|j: int|
            37 <= j < 41 ==> is_check((#[trigger] l[j]).0@) || !touches(l[j].1@, "published"@));
        stays_through(l, known, answers, record, 37, 41, "published"@);
        lemma_under(record[41], "published"@, "observed_running"@, "published,observed_running"@);
        saw_true(l, known, answers, record, 41);
    }
    assert(at(said(record, 51), "generation"@) == at(said(record, 35), "generation"@)) by {
        was_said(l, known, answers, record, 52);
        lemma_under(record[53], "replayed"@, "generation"@, "replayed,generation"@);
        was_said(l, known, answers, record, 36);
        assert(forall|j: int|
            37 <= j < 53 ==> is_check((#[trigger] l[j]).0@) || !touches(l[j].1@, "published"@));
        stays_through(l, known, answers, record, 37, 53, "published"@);
        lemma_under(record[53], "published"@, "generation"@, "published,generation"@);
        saw_same(l, known, answers, record, 53);
    }
    assert(at(said(record, 51), "version"@) == at(said(record, 35), "version"@)) by {
        was_said(l, known, answers, record, 52);
        unchanged(l, known, answers, record, 53);
        lemma_under(record[54], "replayed"@, "version"@, "replayed,version"@);
        was_said(l, known, answers, record, 36);
        assert(forall|j: int|
            37 <= j < 54 ==> is_check((#[trigger] l[j]).0@) || !touches(l[j].1@, "published"@));
        stays_through(l, known, answers, record, 37, 54, "published"@);
        lemma_under(record[54], "published"@, "version"@, "published,version"@);
        saw_same(l, known, answers, record, 54);
    }
    assert(at(said(record, 55), "Id"@) == at(said(record, 45), "Id"@)) by {
        was_said(l, known, answers, record, 56);
        lemma_under(record[57], "again"@, "Id"@, "again,Id"@);
        was_said(l, known, answers, record, 46);
        assert(forall|j: int|
            47 <= j < 57 ==> is_check((#[trigger] l[j]).0@) || !touches(l[j].1@, "prior"@));
        stays_through(l, known, answers, record, 47, 57, "prior"@);
        lemma_under(record[57], "prior"@, "Id"@, "prior,Id"@);
        saw_same(l, known, answers, record, 57);
    }
}

proof fn lemma_renewal_was_observed_4(known: Tree, answers: Seq<(Tree, bool)>, record: Seq<Tree>)
    requires
        passed(QUALIFY_RENEWED@, known, answers, record),
    ensures
        at(said(record, 55), "State,StartedAt"@) == at(said(record, 45), "State,StartedAt"@),
        at(said(record, 59), "evaluation"@) == at(known, "failure"@),
        at(said(record, 70), "state"@) == Tree::Text("removed"@),
        at(said(record, 78), "state"@) == Tree::Text("removed"@),
{
    let l = QUALIFY_RENEWED@;
    reveal_strlit("again");
    reveal_strlit("reply");
    reveal_strlit("State,StartedAt");
    reveal_strlit("again,State,StartedAt");
    reveal_strlit("prior");
    reveal_strlit("");
    reveal_strlit("restarted");
    reveal_strlit("publication");
    reveal_strlit("replayed");
    reveal_strlit("prior,State,StartedAt");
    reveal_strlit("retained");
    reveal_strlit("read");
    reveal_strlit("evaluation");
    reveal_strlit("read,evaluation");
    reveal_strlit("failure");
    reveal_strlit("refusal");
    reveal_strlit("direct_version");
    reveal_strlit("candidate_artifact");
    reveal_strlit("candidate_digest");
    reveal_strlit("candidate_media");
    reveal_strlit("candidate_size");
    reveal_strlit("direct");
    reveal_strlit("direct_id");
    reveal_strlit("direct_checks");
    reveal_strlit("renewed");
    reveal_strlit("renewed_id");
    reveal_strlit("renewed_checks");
    reveal_strlit("prior_checks");
    reveal_strlit("published");
    reveal_strlit("service_row");
    reveal_strlit("service");
    reveal_strlit("removed");
    reveal_strlit("state");
    reveal_strlit("removed,state");
    assert("again"@[0] != "reply"@[0]);
    assert("again,State,StartedAt"@ =~= "again"@ + seq![','] + "State,StartedAt"@);
    assert("prior"@[0] != "reply"@[0]);
    lemma_apart(""@, "prior"@, 0);
    lemma_apart("restarted"@, "prior"@, 0);
    lemma_apart("publication"@, "prior"@, 1);
    lemma_apart("replayed"@, "prior"@, 0);
    lemma_apart("again"@, "prior"@, 0);
    assert("prior,State,StartedAt"@ =~= "prior"@ + seq![','] + "State,StartedAt"@);
    assert("retained"@.len() == 8);
    assert("reply"@.len() == 5);
    assert("read"@.len() == 4);
    assert("read,evaluation"@ =~= "read"@ + seq![','] + "evaluation"@);
    assert("failure"@.len() == 7);
    lemma_apart(""@, "failure"@, 0);
    lemma_apart("refusal"@, "failure"@, 0);
    lemma_apart("direct_version"@, "failure"@, 0);
    lemma_apart("candidate_artifact"@, "failure"@, 0);
    lemma_apart("candidate_digest"@, "failure"@, 0);
    lemma_apart("candidate_media"@, "failure"@, 0);
    lemma_apart("candidate_size"@, "failure"@, 0);
    lemma_apart("direct"@, "failure"@, 0);
    lemma_apart("direct_id"@, "failure"@, 0);
    lemma_apart("read"@, "failure"@, 0);
    lemma_apart("direct_checks"@, "failure"@, 0);
    lemma_apart("renewed"@, "failure"@, 0);
    lemma_apart("renewed_id"@, "failure"@, 0);
    lemma_apart("renewed_checks"@, "failure"@, 0);
    lemma_apart("prior_checks"@, "failure"@, 0);
    lemma_apart("publication"@, "failure"@, 0);
    lemma_apart("published"@, "failure"@, 0);
    lemma_apart("service_row"@, "failure"@, 0);
    lemma_apart("service"@, "failure"@, 0);
    lemma_apart("prior"@, "failure"@, 0);
    lemma_apart("restarted"@, "failure"@, 0);
    lemma_apart("replayed"@, "failure"@, 0);
    lemma_apart("again"@, "failure"@, 0);
    lemma_apart("retained"@, "failure"@, 0);
    assert("removed"@.len() == 7);
    assert("removed,state"@ =~= "removed"@ + seq![','] + "state"@);
    assert(at(said(record, 55), "State,StartedAt"@) == at(said(record, 45), "State,StartedAt"@)) by {
        was_said(l, known, answers, record, 56);
        unchanged(l, known, answers, record, 57);
        lemma_under(record[58], "again"@, "State,StartedAt"@, "again,State,StartedAt"@);
        was_said(l, known, answers, record, 46);
        assert(forall|j: int|
            47 <= j < 58 ==> is_check((#[trigger] l[j]).0@) || !touches(l[j].1@, "prior"@));
        stays_through(l, known, answers, record, 47, 58, "prior"@);
        lemma_under(record[58], "prior"@, "State,StartedAt"@, "prior,State,StartedAt"@);
        saw_same(l, known, answers, record, 58);
    }
    assert(at(said(record, 59), "evaluation"@) == at(known, "failure"@)) by {
        was_kept(l, known, answers, record, 61);
        was_said(l, known, answers, record, 60);
        lemma_under(record[61], "read"@, "evaluation"@, "read,evaluation"@);
        assert(forall|j: int|
            0 <= j < 62 ==> is_check((#[trigger] l[j]).0@) || !touches(l[j].1@, "failure"@));
        stays_through(l, known, answers, record, 0, 62, "failure"@);
        saw_same(l, known, answers, record, 62);
    }
    assert(at(said(record, 70), "state"@) == Tree::Text("removed"@)) by {
        was_said(l, known, answers, record, 71);
        lemma_under(record[72], "removed"@, "state"@, "removed,state"@);
        saw_is(l, known, answers, record, 72);
    }
    assert(at(said(record, 78), "state"@) == Tree::Text("removed"@)) by {
        was_said(l, known, answers, record, 79);
        lemma_under(record[80], "removed"@, "state"@, "removed,state"@);
        saw_is(l, known, answers, record, 80);
    }
}

/// The last part of a qualification finishes only where a direct and a renewed evaluation passed
/// every check of one subject, the renewal left earlier evidence as it was, the renewed publication
/// runs, its exact replay changed neither generation, version nor container, the failed evidence is
/// still there, and both resources were removed.
pub proof fn renewal_was_observed(known: Tree, answers: Seq<(Tree, bool)>) -> (record: Seq<Tree>)
    requires
        known is Object,
        finished(QUALIFY_RENEWED@, known, answers),
    ensures
        passed(QUALIFY_RENEWED@, known, answers, record),
        QUALIFY_RENEWED@[12].2@
            == "resource direct-evidence success slotbook-test 0 evidence --evaluation $direct_id"@,
        at(at(said(record, 12), "evaluation"@), "complete"@) == Tree::Bool(true),
        items_of(at(at(said(record, 12), "evaluation"@), "checks"@)).len() > 0,
        every_element(
            items_of(at(at(said(record, 12), "evaluation"@), "checks"@)),
            "passed"@,
            Tree::Bool(true),
        ),
        QUALIFY_RENEWED@[18].2@
            == "resource renew-evaluate success slotbook-test $direct_version evaluate --artifact $candidate_artifact --digest $candidate_digest --media-type $candidate_media --size-bytes $candidate_size"@,
        QUALIFY_RENEWED@[9].2@
            == "resource direct-evaluate success slotbook-test $direct_version evaluate --artifact $candidate_artifact --digest $candidate_digest --media-type $candidate_media --size-bytes $candidate_size"@,
        at(said(record, 18), "evaluation,identity"@) != at(said(record, 9), "evaluation,identity"@),
        QUALIFY_RENEWED@[21].2@
            == "resource renew-evidence success slotbook-test 0 evidence --evaluation $renewed_id"@,
        at(at(said(record, 21), "evaluation"@), "subject"@)
            == at(at(said(record, 12), "evaluation"@), "subject"@),
        at(at(said(record, 21), "evaluation"@), "complete"@) == Tree::Bool(true),
        items_of(at(at(said(record, 21), "evaluation"@), "checks"@)).len() > 0,
        every_element(
            items_of(at(at(said(record, 21), "evaluation"@), "checks"@)),
            "passed"@,
            Tree::Bool(true),
        ),
        QUALIFY_RENEWED@[29].2@
            == "resource prior-evidence-unchanged success slotbook-test 0 evidence --evaluation $direct_id"@,
        at(said(record, 29), "evaluation"@) == at(said(record, 12), "evaluation"@),
        QUALIFY_RENEWED@[35].2@ == "resource direct-published success slotbook-test 0 inspect"@,
        at(said(record, 35), "pending"@) == Tree::Null,
        follows_by_one(at(said(record, 35), "generation"@), at(at(known, "after"@), "generation"@)),
        at(said(record, 35), "observed_running"@) == Tree::Bool(true),
        QUALIFY_RENEWED@[51].2@ == "resource after-exact-replay success slotbook-test 0 inspect"@,
        at(said(record, 51), "generation"@) == at(said(record, 35), "generation"@),
        at(said(record, 51), "version"@) == at(said(record, 35), "version"@),
        QUALIFY_RENEWED@[55].2@ == "container-inspect $service"@,
        QUALIFY_RENEWED@[45].2@ == "container-inspect $service"@,
        at(said(record, 55), "Id"@) == at(said(record, 45), "Id"@),
        at(said(record, 55), "State,StartedAt"@) == at(said(record, 45), "State,StartedAt"@),
        QUALIFY_RENEWED@[59].2@
            == "resource failure-retained success slotbook-test 0 evidence --evaluation $evaluation"@,
        at(said(record, 59), "evaluation"@) == at(known, "failure"@),
        QUALIFY_RENEWED@[70].2@
            == "resource removed-slotbook-test success slotbook-test 0 inspect"@,
        at(said(record, 70), "state"@) == Tree::Text("removed"@),
        QUALIFY_RENEWED@[78].2@
            == "resource removed-slotbook-build success slotbook-build 0 inspect"@,
        at(said(record, 78), "state"@) == Tree::Text("removed"@),
{
    let record = finished_scenarios_are_recorded(QUALIFY_RENEWED@, known, answers);
    lemma_renewal_was_observed_1(known, answers, record);
    lemma_renewal_was_observed_2(known, answers, record);
    lemma_renewal_was_observed_3(known, answers, record);
    lemma_renewal_was_observed_4(known, answers, record);
    record
}

proof fn lemma_offer_was_drawn_up(known: Tree, answers: Seq<(Tree, bool)>, record: Seq<Tree>)
    requires
        passed(QUALIFY_PUBLISH@, known, answers, record),
    ensures
        document_of(PUBLISHED_DESCRIPTOR@, at(record[7], "offer"@))
            == Ok::<Tree, Seq<char>>(at(record[8], "described"@)),
        document_of(PUBLISHED_METHOD@, at(record[11], "offer"@))
            == Ok::<Tree, Seq<char>>(at(record[12], "offered"@)),
{
    let l = QUALIFY_PUBLISH@;
    reveal_strlit("described");
    reveal_strlit("published-descriptor");
    reveal_strlit("offer");
    reveal_strlit("published-descriptor offer");
    reveal_strlit("offered");
    reveal_strlit("published-method");
    reveal_strlit("published-method offer");
    assert("published-descriptor offer"@ =~= "published-descriptor"@ + seq![' '] + "offer"@);
    lemma_two_words("published-descriptor"@, "offer"@, "published-descriptor offer"@);
    assert(parts("published-descriptor offer"@) =~= seq!["published-descriptor"@, "offer"@]);
    assert("offer"@.len() == 5);
    assert(parts("published-descriptor offer"@).skip(1) =~= seq!["offer"@]);
    assert("published-method offer"@ =~= "published-method"@ + seq![' '] + "offer"@);
    lemma_two_words("published-method"@, "offer"@, "published-method offer"@);
    assert(parts("published-method offer"@) =~= seq!["published-method"@, "offer"@]);
    assert(parts("published-method offer"@).skip(1) =~= seq!["offer"@]);
    assert(document_of(PUBLISHED_DESCRIPTOR@, at(record[7], "offer"@))
            == Ok::<Tree, Seq<char>>(at(record[8], "described"@))) by {
        was_made(l, known, answers, record, 7);
        let args7 = arguments(parts("published-descriptor offer"@).skip(1), record[7]);
        assert(args7 =~= seq![at(record[7], "offer"@)]);
        makes_published_descriptor(args7, record[7]);
    }
    assert(document_of(PUBLISHED_METHOD@, at(record[11], "offer"@))
            == Ok::<Tree, Seq<char>>(at(record[12], "offered"@))) by {
        was_made(l, known, answers, record, 11);
        let args11 = arguments(parts("published-method offer"@).skip(1), record[11]);
        assert(args11 =~= seq![at(record[11], "offer"@)]);
        makes_published_method(args11, record[11]);
    }
}

proof fn lemma_caller_was_drawn_up_1(known: Tree, answers: Seq<(Tree, bool)>, record: Seq<Tree>)
    requires
        passed(QUALIFY_WORKFLOW@, known, answers, record),
    ensures
        document_of(OUTER_TASK@, at(record[3], "job"@))
            == Ok::<Tree, Seq<char>>(at(record[4], "task"@)),
        made_finishing_edge() == Ok::<Tree, Seq<char>>(at(record[7], "finish"@)),
{
    let l = QUALIFY_WORKFLOW@;
    reveal_strlit("task");
    reveal_strlit("outer-task");
    reveal_strlit("job");
    reveal_strlit("outer-task job");
    reveal_strlit("finish");
    reveal_strlit("finishing-edge");
    assert("outer-task job"@ =~= "outer-task"@ + seq![' '] + "job"@);
    lemma_two_words("outer-task"@, "job"@, "outer-task job"@);
    assert(parts("outer-task job"@) =~= seq!["outer-task"@, "job"@]);
    assert("job"@.len() == 3);
    assert(parts("outer-task job"@).skip(1) =~= seq!["job"@]);
    lemma_one_word("finishing-edge"@);
    assert(parts("finishing-edge"@) =~= seq!["finishing-edge"@]);
    assert(parts("finishing-edge"@).skip(1) =~= seq![]);
    assert(document_of(OUTER_TASK@, at(record[3], "job"@))
            == Ok::<Tree, Seq<char>>(at(record[4], "task"@))) by {
        was_made(l, known, answers, record, 3);
        let args3 = arguments(parts("outer-task job"@).skip(1), record[3]);
        assert(args3 =~= seq![at(record[3], "job"@)]);
        makes_outer_task(args3, record[3]);
    }
    assert(made_finishing_edge() == Ok::<Tree, Seq<char>>(at(record[7], "finish"@))) by {
        was_made(l, known, answers, record, 6);
        let args6 = arguments(parts("finishing-edge"@).skip(1), record[6]);
        assert(args6 =~= seq![]);
        makes_finishing_edge(args6, record[6]);
    }
}

proof fn lemma_caller_was_drawn_up_2(known: Tree, answers: Seq<(Tree, bool)>, record: Seq<Tree>)
    requires
        passed(QUALIFY_WORKFLOW@, known, answers, record),
    ensures
        document_of(OUTER_MUTATIONS@, at(record[8], "plan"@))
            == Ok::<Tree, Seq<char>>(at(record[9], "outer_mutations"@)),
{
    let l = QUALIFY_WORKFLOW@;
    reveal_strlit("outer_mutations");
    reveal_strlit("outer-mutations");
    reveal_strlit("plan");
    reveal_strlit("outer-mutations plan");
    assert("outer-mutations plan"@ =~= "outer-mutations"@ + seq![' '] + "plan"@);
    lemma_two_words("outer-mutations"@, "plan"@, "outer-mutations plan"@);
    assert(parts("outer-mutations plan"@) =~= seq!["outer-mutations"@, "plan"@]);
    assert("plan"@.len() == 4);
    assert(parts("outer-mutations plan"@).skip(1) =~= seq!["plan"@]);
    assert(document_of(OUTER_MUTATIONS@, at(record[8], "plan"@))
            == Ok::<Tree, Seq<char>>(at(record[9], "outer_mutations"@))) by {
        was_made(l, known, answers, record, 8);
        let args8 = arguments(parts("outer-mutations plan"@).skip(1), record[8]);
        assert(args8 =~= seq![at(record[8], "plan"@)]);
        makes_outer_mutations(args8, record[8]);
    }
}

proof fn lemma_peer_was_drawn_up_1(known: Tree, answers: Seq<(Tree, bool)>, record: Seq<Tree>)
    requires
        passed(QUALIFY_PEER@, known, answers, record),
    ensures
        made_peer_capability(at(said(record, 2), "value"@))
            == Ok::<Tree, Seq<char>>(at(record[5], "capability"@)),
        document_of(OUTER_TASK@, at(record[7], "job"@))
            == Ok::<Tree, Seq<char>>(at(record[8], "task"@)),
{
    let l = QUALIFY_PEER@;
    reveal_strlit("capability");
    reveal_strlit("peer-capability");
    reveal_strlit("catalog,value");
    reveal_strlit("peer-capability catalog,value");
    reveal_strlit("catalog");
    reveal_strlit("reply");
    reveal_strlit("value");
    reveal_strlit("task");
    reveal_strlit("outer-task");
    reveal_strlit("job");
    reveal_strlit("outer-task job");
    assert("peer-capability catalog,value"@ =~= "peer-capability"@ + seq![' '] + "catalog,value"@);
    lemma_two_words("peer-capability"@, "catalog,value"@, "peer-capability catalog,value"@);
    assert(parts("peer-capability catalog,value"@) =~= seq!["peer-capability"@, "catalog,value"@]);
    assert("catalog,value"@.len() == 13);
    assert("catalog"@.len() == 7);
    assert("reply"@.len() == 5);
    assert("catalog,value"@ =~= "catalog"@ + seq![','] + "value"@);
    assert(parts("peer-capability catalog,value"@).skip(1) =~= seq!["catalog,value"@]);
    assert("outer-task job"@ =~= "outer-task"@ + seq![' '] + "job"@);
    lemma_two_words("outer-task"@, "job"@, "outer-task job"@);
    assert(parts("outer-task job"@) =~= seq!["outer-task"@, "job"@]);
    assert("job"@.len() == 3);
    assert(parts("outer-task job"@).skip(1) =~= seq!["job"@]);
    assert(made_peer_capability(at(said(record, 2), "value"@))
            == Ok::<Tree, Seq<char>>(at(record[5], "capability"@))) by {
        was_made(l, known, answers, record, 4);
        was_said(l, known, answers, record, 3);
        lemma_under(record[4], "catalog"@, "value"@, "catalog,value"@);
        let args4 = arguments(parts("peer-capability catalog,value"@).skip(1), record[4]);
        assert(args4 =~= seq![at(said(record, 2), "value"@)]);
        makes_peer_capability(args4, record[4]);
    }
    assert(document_of(OUTER_TASK@, at(record[7], "job"@))
            == Ok::<Tree, Seq<char>>(at(record[8], "task"@))) by {
        was_made(l, known, answers, record, 7);
        let args7 = arguments(parts("outer-task job"@).skip(1), record[7]);
        assert(args7 =~= seq![at(record[7], "job"@)]);
        makes_outer_task(args7, record[7]);
    }
}

proof fn lemma_peer_was_drawn_up_2(known: Tree, answers: Seq<(Tree, bool)>, record: Seq<Tree>)
    requires
        passed(QUALIFY_PEER@, known, answers, record),
    ensures
        document_of(OUTER_PEER_TASK@, at(record[9], "job"@))
            == Ok::<Tree, Seq<char>>(at(record[10], "task"@)),
        made_finishing_edge() == Ok::<Tree, Seq<char>>(at(record[13], "finish"@)),
{
    let l = QUALIFY_PEER@;
    reveal_strlit("task");
    reveal_strlit("outer-peer-task");
    reveal_strlit("job");
    reveal_strlit("outer-peer-task job");
    reveal_strlit("finish");
    reveal_strlit("finishing-edge");
    assert("outer-peer-task job"@ =~= "outer-peer-task"@ + seq![' '] + "job"@);
    lemma_two_words("outer-peer-task"@, "job"@, "outer-peer-task job"@);
    assert(parts("outer-peer-task job"@) =~= seq!["outer-peer-task"@, "job"@]);
    assert("job"@.len() == 3);
    assert(parts("outer-peer-task job"@).skip(1) =~= seq!["job"@]);
    lemma_one_word("finishing-edge"@);
    assert(parts("finishing-edge"@) =~= seq!["finishing-edge"@]);
    assert(parts("finishing-edge"@).skip(1) =~= seq![]);
    assert(document_of(OUTER_PEER_TASK@, at(record[9], "job"@))
            == Ok::<Tree, Seq<char>>(at(record[10], "task"@))) by {
        was_made(l, known, answers, record, 9);
        let args9 = arguments(parts("outer-peer-task job"@).skip(1), record[9]);
        assert(args9 =~= seq![at(record[9], "job"@)]);
        makes_outer_peer_task(args9, record[9]);
    }
    assert(made_finishing_edge() == Ok::<Tree, Seq<char>>(at(record[13], "finish"@))) by {
        was_made(l, known, answers, record, 12);
        let args12 = arguments(parts("finishing-edge"@).skip(1), record[12]);
        assert(args12 =~= seq![]);
        makes_finishing_edge(args12, record[12]);
    }
}

proof fn lemma_peer_was_drawn_up_3(known: Tree, answers: Seq<(Tree, bool)>, record: Seq<Tree>)
    requires
        passed(QUALIFY_PEER@, known, answers, record),
    ensures
        document_of(OUTER_MUTATIONS@, at(record[14], "plan"@))
            == Ok::<Tree, Seq<char>>(at(record[15], "outer_mutations"@)),
{
    let l = QUALIFY_PEER@;
    reveal_strlit("outer_mutations");
    reveal_strlit("outer-mutations");
    reveal_strlit("plan");
    reveal_strlit("outer-mutations plan");
    assert("outer-mutations plan"@ =~= "outer-mutations"@ + seq![' '] + "plan"@);
    lemma_two_words("outer-mutations"@, "plan"@, "outer-mutations plan"@);
    assert(parts("outer-mutations plan"@) =~= seq!["outer-mutations"@, "plan"@]);
    assert("plan"@.len() == 4);
    assert(parts("outer-mutations plan"@).skip(1) =~= seq!["plan"@]);
    assert(document_of(OUTER_MUTATIONS@, at(record[14], "plan"@))
            == Ok::<Tree, Seq<char>>(at(record[15], "outer_mutations"@))) by {
        was_made(l, known, answers, record, 14);
        let args14 = arguments(parts("outer-mutations plan"@).skip(1), record[14]);
        assert(args14 =~= seq![at(record[14], "plan"@)]);
        makes_outer_mutations(args14, record[14]);
    }
}

/// The method that is published and then invoked is the one drawn up from the worker of the host's
/// catalog, the governed revision and the authority that were read.
pub proof fn offer_was_drawn_up(known: Tree, answers: Seq<(Tree, bool)>) -> (record: Seq<Tree>)
    requires
        known is Object,
        finished(QUALIFY_PUBLISH@ + QUALIFY_DIRECT@, known, answers),
    ensures
        passed(QUALIFY_PUBLISH@ + QUALIFY_DIRECT@, known, answers, record),
        document_of(PUBLISHED_DESCRIPTOR@, at(record[7], "offer"@))
            == Ok::<Tree, Seq<char>>(at(record[8], "described"@)),
        document_of(PUBLISHED_METHOD@, at(record[11], "offer"@))
            == Ok::<Tree, Seq<char>>(at(record[12], "offered"@)),
{
    let record = finished_scenarios_are_recorded(
        QUALIFY_PUBLISH@ + QUALIFY_DIRECT@,
        known,
        answers,
    );
    beginnings_pass(QUALIFY_PUBLISH@, QUALIFY_DIRECT@, known, answers, record);
    endings_pass(QUALIFY_PUBLISH@, QUALIFY_DIRECT@, known, answers, record);
    let first = record.take(23);
    let rest = record.skip(22);
    lemma_offer_was_drawn_up(known, answers, first);
    assert(forall|i: int| 0 <= i < rest.len() ==> rest[i] == #[trigger] record[22 + i]);
    record
}

/// The workflow that calls a published method is drawn up from the governed repair step, and the
/// method as it is for a direct call.
pub proof fn caller_was_drawn_up(known: Tree, answers: Seq<(Tree, bool)>) -> (record: Seq<Tree>)
    requires
        known is Object,
        finished(QUALIFY_PUBLISH@ + QUALIFY_WORKFLOW@, known, answers),
    ensures
        passed(QUALIFY_PUBLISH@ + QUALIFY_WORKFLOW@, known, answers, record),
        document_of(PUBLISHED_DESCRIPTOR@, at(record[7], "offer"@))
            == Ok::<Tree, Seq<char>>(at(record[8], "described"@)),
        document_of(PUBLISHED_METHOD@, at(record[11], "offer"@))
            == Ok::<Tree, Seq<char>>(at(record[12], "offered"@)),
        document_of(OUTER_TASK@, at(record[25], "job"@))
            == Ok::<Tree, Seq<char>>(at(record[26], "task"@)),
        made_finishing_edge() == Ok::<Tree, Seq<char>>(at(record[29], "finish"@)),
        document_of(OUTER_MUTATIONS@, at(record[30], "plan"@))
            == Ok::<Tree, Seq<char>>(at(record[31], "outer_mutations"@)),
{
    let record = finished_scenarios_are_recorded(
        QUALIFY_PUBLISH@ + QUALIFY_WORKFLOW@,
        known,
        answers,
    );
    beginnings_pass(QUALIFY_PUBLISH@, QUALIFY_WORKFLOW@, known, answers, record);
    endings_pass(QUALIFY_PUBLISH@, QUALIFY_WORKFLOW@, known, answers, record);
    let first = record.take(23);
    let rest = record.skip(22);
    lemma_offer_was_drawn_up(known, answers, first);
    lemma_caller_was_drawn_up_1(record[22], answers, rest);
    lemma_caller_was_drawn_up_2(record[22], answers, rest);
    assert(forall|i: int| 0 <= i < rest.len() ==> rest[i] == #[trigger] record[22 + i]);
    record
}

/// The workflow of a peer calls the capability of the peer in its own catalog, and is drawn up from
/// the governed repair step; the method is published as it is for a direct call.
pub proof fn peer_was_drawn_up(known: Tree, answers: Seq<(Tree, bool)>) -> (record: Seq<Tree>)
    requires
        known is Object,
        finished(QUALIFY_PUBLISH@ + QUALIFY_PEER@, known, answers),
    ensures
        passed(QUALIFY_PUBLISH@ + QUALIFY_PEER@, known, answers, record),
        document_of(PUBLISHED_DESCRIPTOR@, at(record[7], "offer"@))
            == Ok::<Tree, Seq<char>>(at(record[8], "described"@)),
        document_of(PUBLISHED_METHOD@, at(record[11], "offer"@))
            == Ok::<Tree, Seq<char>>(at(record[12], "offered"@)),
        QUALIFY_PEER@[2].2@ == "call origin-catalog success origin capability list"@,
        made_peer_capability(at(said(record, 24), "value"@))
            == Ok::<Tree, Seq<char>>(at(record[27], "capability"@)),
        document_of(OUTER_TASK@, at(record[29], "job"@))
            == Ok::<Tree, Seq<char>>(at(record[30], "task"@)),
        document_of(OUTER_PEER_TASK@, at(record[31], "job"@))
            == Ok::<Tree, Seq<char>>(at(record[32], "task"@)),
        made_finishing_edge() == Ok::<Tree, Seq<char>>(at(record[35], "finish"@)),
        document_of(OUTER_MUTATIONS@, at(record[36], "plan"@))
            == Ok::<Tree, Seq<char>>(at(record[37], "outer_mutations"@)),
{
    let record = finished_scenarios_are_recorded(QUALIFY_PUBLISH@ + QUALIFY_PEER@, known, answers);
    beginnings_pass(QUALIFY_PUBLISH@, QUALIFY_PEER@, known, answers, record);
    endings_pass(QUALIFY_PUBLISH@, QUALIFY_PEER@, known, answers, record);
    let first = record.take(23);
    let rest = record.skip(22);
    lemma_offer_was_drawn_up(known, answers, first);
    lemma_peer_was_drawn_up_1(record[22], answers, rest);
    lemma_peer_was_drawn_up_2(record[22], answers, rest);
    lemma_peer_was_drawn_up_3(record[22], answers, rest);
    assert(forall|i: int| 0 <= i < rest.len() ==> rest[i] == #[trigger] record[22 + i]);
    record
}

proof fn lemma_repair_was_drawn_up(known: Tree, answers: Seq<(Tree, bool)>, record: Seq<Tree>)
    requires
        passed(QUALIFY_REPAIR@, known, answers, record),
    ensures
        document_of(REPAIR_PROPOSAL@, at(record[11], "repair"@))
            == Ok::<Tree, Seq<char>>(at(record[12], "proposed"@)),
{
    let l = QUALIFY_REPAIR@;
    reveal_strlit("proposed");
    reveal_strlit("repair-proposal");
    reveal_strlit("repair");
    reveal_strlit("repair-proposal repair");
    assert("repair-proposal repair"@ =~= "repair-proposal"@ + seq![' '] + "repair"@);
    lemma_two_words("repair-proposal"@, "repair"@, "repair-proposal repair"@);
    assert(parts("repair-proposal repair"@) =~= seq!["repair-proposal"@, "repair"@]);
    assert("repair"@.len() == 6);
    assert(parts("repair-proposal repair"@).skip(1) =~= seq!["repair"@]);
    assert(document_of(REPAIR_PROPOSAL@, at(record[11], "repair"@))
            == Ok::<Tree, Seq<char>>(at(record[12], "proposed"@))) by {
        was_made(l, known, answers, record, 11);
        let args11 = arguments(parts("repair-proposal repair"@).skip(1), record[11]);
        assert(args11 =~= seq![at(record[11], "repair"@)]);
        makes_repair_proposal(args11, record[11]);
    }
}

/// The repair that is proposed is the one drawn up from the observed run, its revision, the
/// authored mutations, the failed evaluation and the candidate.
pub proof fn repair_was_drawn_up(known: Tree, answers: Seq<(Tree, bool)>) -> (record: Seq<Tree>)
    requires
        known is Object,
        finished(QUALIFY_REPAIR@, known, answers),
    ensures
        passed(QUALIFY_REPAIR@, known, answers, record),
        document_of(REPAIR_PROPOSAL@, at(record[11], "repair"@))
            == Ok::<Tree, Seq<char>>(at(record[12], "proposed"@)),
{
    let record = finished_scenarios_are_recorded(QUALIFY_REPAIR@, known, answers);
    lemma_repair_was_drawn_up(known, answers, record);
    record
}

proof fn lemma_example_was_authored_1(known: Tree, answers: Seq<(Tree, bool)>, record: Seq<Tree>)
    requires
        passed(SLOTBOOK_PREPARE@, known, answers, record),
    ensures
        document_of(SLOTBOOK_POLICY@, record[9])
            == Ok::<Tree, Seq<char>>(at(record[10], "policy"@)),
        document_of(SLOTBOOK_REQUIREMENT@, record[14])
            == Ok::<Tree, Seq<char>>(at(record[15], "requirement"@)),
{
    let l = SLOTBOOK_PREPARE@;
    reveal_strlit("policy");
    reveal_strlit("slotbook-policy");
    reveal_strlit("requirement");
    reveal_strlit("slotbook-requirement");
    lemma_one_word("slotbook-policy"@);
    assert(parts("slotbook-policy"@) =~= seq!["slotbook-policy"@]);
    assert(parts("slotbook-policy"@).skip(1) =~= seq![]);
    lemma_one_word("slotbook-requirement"@);
    assert(parts("slotbook-requirement"@) =~= seq!["slotbook-requirement"@]);
    assert(parts("slotbook-requirement"@).skip(1) =~= seq![]);
    assert(document_of(SLOTBOOK_POLICY@, record[9])
            == Ok::<Tree, Seq<char>>(at(record[10], "policy"@))) by {
        was_made(l, known, answers, record, 9);
        let args9 = arguments(parts("slotbook-policy"@).skip(1), record[9]);
        assert(args9 =~= seq![]);
        makes_slotbook_policy(args9, record[9]);
    }
    assert(document_of(SLOTBOOK_REQUIREMENT@, record[14])
            == Ok::<Tree, Seq<char>>(at(record[15], "requirement"@))) by {
        was_made(l, known, answers, record, 14);
        let args14 = arguments(parts("slotbook-requirement"@).skip(1), record[14]);
        assert(args14 =~= seq![]);
        makes_slotbook_requirement(args14, record[14]);
    }
}

proof fn lemma_example_was_authored_2(known: Tree, answers: Seq<(Tree, bool)>, record: Seq<Tree>)
    requires
        passed(SLOTBOOK_PREPARE@, known, answers, record),
    ensures
        document_of(SLOTBOOK_REQUIREMENT@, record[14]) is Ok
            && made_method_mutations(
                document_of(SLOTBOOK_REQUIREMENT@, record[14])->Ok_0,
                at(known, "target_version"@),
            )
                == Ok::<Tree, Seq<char>>(at(record[16], "mutations"@)),
        document_of(SLOTBOOK_SCOPE@, record[18]) == Ok::<Tree, Seq<char>>(at(record[19], "scope"@)),
{
    let l = SLOTBOOK_PREPARE@;
    reveal_strlit("mutations");
    reveal_strlit("method-mutations requirement target_version");
    reveal_strlit("method-mutations");
    reveal_strlit("requirement target_version");
    reveal_strlit("requirement");
    reveal_strlit("target_version");
    reveal_strlit("reply");
    reveal_strlit("slotbook-requirement");
    reveal_strlit("");
    reveal_strlit("root");
    reveal_strlit("token");
    reveal_strlit("clock_file");
    reveal_strlit("verifier_copy");
    reveal_strlit("verifier");
    reveal_strlit("policy");
    reveal_strlit("policy_file");
    reveal_strlit("described");
    reveal_strlit("scope");
    reveal_strlit("slotbook-scope");
    assert("requirement target_version"@ =~= "requirement"@ + seq![' '] + "target_version"@);
    lemma_two_words("requirement"@, "target_version"@, "requirement target_version"@);
    assert(
        "method-mutations requirement target_version"@
            =~= "method-mutations"@ + seq![' '] + "requirement target_version"@
    );
    lemma_four_words(
        "method-mutations"@,
        "requirement target_version"@,
        "method-mutations requirement target_version"@,
    );
    assert(
        parts("method-mutations requirement target_version"@)
            =~= seq!["method-mutations"@, "requirement"@, "target_version"@]
    );
    assert("requirement"@.len() == 11);
    assert("reply"@.len() == 5);
    lemma_one_word("slotbook-requirement"@);
    assert(parts("slotbook-requirement"@) =~= seq!["slotbook-requirement"@]);
    assert(parts("slotbook-requirement"@).skip(1) =~= seq![]);
    assert("target_version"@.len() == 14);
    lemma_apart(""@, "target_version"@, 0);
    lemma_apart("root"@, "target_version"@, 0);
    lemma_apart("token"@, "target_version"@, 1);
    lemma_apart("clock_file"@, "target_version"@, 0);
    lemma_apart("verifier_copy"@, "target_version"@, 0);
    lemma_apart("verifier"@, "target_version"@, 0);
    lemma_apart("policy"@, "target_version"@, 0);
    lemma_apart("policy_file"@, "target_version"@, 0);
    lemma_apart("described"@, "target_version"@, 0);
    lemma_apart("requirement"@, "target_version"@, 0);
    assert(
        parts("method-mutations requirement target_version"@).skip(1)
            =~= seq!["requirement"@, "target_version"@]
    );
    lemma_one_word("slotbook-scope"@);
    assert(parts("slotbook-scope"@) =~= seq!["slotbook-scope"@]);
    assert(parts("slotbook-scope"@).skip(1) =~= seq![]);
    assert(document_of(SLOTBOOK_REQUIREMENT@, record[14]) is Ok
            && made_method_mutations(
                document_of(SLOTBOOK_REQUIREMENT@, record[14])->Ok_0,
                at(known, "target_version"@),
            )
                == Ok::<Tree, Seq<char>>(at(record[16], "mutations"@))) by {
        was_made(l, known, answers, record, 15);
        was_made(l, known, answers, record, 14);
        let args14 = arguments(parts("slotbook-requirement"@).skip(1), record[14]);
        assert(args14 =~= seq![]);
        makes_slotbook_requirement(args14, record[14]);
        assert(forall|j: int|
            0 <= j < 15 ==> is_check((#[trigger] l[j]).0@) || !touches(l[j].1@, "target_version"@));
        stays_through(l, known, answers, record, 0, 15, "target_version"@);
        let args15 = arguments(
            parts("method-mutations requirement target_version"@).skip(1),
            record[15],
        );
        assert(
            args15
                =~= seq![
                    document_of(SLOTBOOK_REQUIREMENT@, record[14])->Ok_0,
                    at(known, "target_version"@),
                ]
        );
        makes_method_mutations(args15, record[15]);
    }
    assert(document_of(SLOTBOOK_SCOPE@, record[18]) == Ok::<Tree, Seq<char>>(at(record[19], "scope"@))) by {
        was_made(l, known, answers, record, 18);
        let args18 = arguments(parts("slotbook-scope"@).skip(1), record[18]);
        assert(args18 =~= seq![]);
        makes_slotbook_scope(args18, record[18]);
    }
}

proof fn lemma_example_was_authored_3(known: Tree, answers: Seq<(Tree, bool)>, record: Seq<Tree>)
    requires
        passed(SLOTBOOK_PREPARE@, known, answers, record),
    ensures
        document_of(SLOTBOOK_PROTECTED_RECIPE@, record[31])
            == Ok::<Tree, Seq<char>>(at(record[32], "protected"@)),
        document_of(SLOTBOOK_WORKER_RECIPE@, record[34])
            == Ok::<Tree, Seq<char>>(at(record[35], "worker"@)),
{
    let l = SLOTBOOK_PREPARE@;
    reveal_strlit("protected");
    reveal_strlit("slotbook-protected-recipe");
    reveal_strlit("worker");
    reveal_strlit("slotbook-worker-recipe");
    lemma_one_word("slotbook-protected-recipe"@);
    assert(parts("slotbook-protected-recipe"@) =~= seq!["slotbook-protected-recipe"@]);
    assert(parts("slotbook-protected-recipe"@).skip(1) =~= seq![]);
    lemma_one_word("slotbook-worker-recipe"@);
    assert(parts("slotbook-worker-recipe"@) =~= seq!["slotbook-worker-recipe"@]);
    assert(parts("slotbook-worker-recipe"@).skip(1) =~= seq![]);
    assert(document_of(SLOTBOOK_PROTECTED_RECIPE@, record[31])
            == Ok::<Tree, Seq<char>>(at(record[32], "protected"@))) by {
        was_made(l, known, answers, record, 31);
        let args31 = arguments(parts("slotbook-protected-recipe"@).skip(1), record[31]);
        assert(args31 =~= seq![]);
        makes_slotbook_protected_recipe(args31, record[31]);
    }
    assert(document_of(SLOTBOOK_WORKER_RECIPE@, record[34])
            == Ok::<Tree, Seq<char>>(at(record[35], "worker"@))) by {
        was_made(l, known, answers, record, 34);
        let args34 = arguments(parts("slotbook-worker-recipe"@).skip(1), record[34]);
        assert(args34 =~= seq![]);
        makes_slotbook_worker_recipe(args34, record[34]);
    }
}

proof fn lemma_example_was_authored_4(known: Tree, answers: Seq<(Tree, bool)>, record: Seq<Tree>)
    requires
        passed(SLOTBOOK_PREPARE@, known, answers, record),
    ensures
        document_of(SLOTBOOK_REQUIREMENT@, record[14]) is Ok
            && made_repair_mutations(document_of(SLOTBOOK_REQUIREMENT@, record[14])->Ok_0)
                == Ok::<Tree, Seq<char>>(at(record[38], "repair"@)),
{
    let l = SLOTBOOK_PREPARE@;
    reveal_strlit("repair");
    reveal_strlit("repair-mutations");
    reveal_strlit("requirement");
    reveal_strlit("repair-mutations requirement");
    reveal_strlit("reply");
    reveal_strlit("slotbook-requirement");
    reveal_strlit("mutations");
    reveal_strlit("");
    reveal_strlit("mutations_file");
    reveal_strlit("scope");
    reveal_strlit("scope_file");
    reveal_strlit("created");
    reveal_strlit("policy_digest");
    reveal_strlit("governed");
    reveal_strlit("agreement");
    reveal_strlit("token_file");
    reveal_strlit("token_digest");
    reveal_strlit("verifier_digest");
    reveal_strlit("verifier");
    reveal_strlit("protected");
    reveal_strlit("saved");
    reveal_strlit("worker");
    assert("repair-mutations requirement"@ =~= "repair-mutations"@ + seq![' '] + "requirement"@);
    lemma_two_words("repair-mutations"@, "requirement"@, "repair-mutations requirement"@);
    assert(parts("repair-mutations requirement"@) =~= seq!["repair-mutations"@, "requirement"@]);
    assert("requirement"@.len() == 11);
    assert("reply"@.len() == 5);
    lemma_one_word("slotbook-requirement"@);
    assert(parts("slotbook-requirement"@) =~= seq!["slotbook-requirement"@]);
    assert(parts("slotbook-requirement"@).skip(1) =~= seq![]);
    lemma_apart("mutations"@, "requirement"@, 0);
    lemma_apart(""@, "requirement"@, 0);
    lemma_apart("mutations_file"@, "requirement"@, 0);
    lemma_apart("scope"@, "requirement"@, 0);
    lemma_apart("scope_file"@, "requirement"@, 0);
    lemma_apart("created"@, "requirement"@, 0);
    lemma_apart("policy_digest"@, "requirement"@, 0);
    lemma_apart("governed"@, "requirement"@, 0);
    lemma_apart("agreement"@, "requirement"@, 0);
    lemma_apart("token_file"@, "requirement"@, 0);
    lemma_apart("token_digest"@, "requirement"@, 0);
    lemma_apart("verifier_digest"@, "requirement"@, 0);
    lemma_apart("verifier"@, "requirement"@, 0);
    lemma_apart("protected"@, "requirement"@, 0);
    lemma_apart("saved"@, "requirement"@, 0);
    lemma_apart("worker"@, "requirement"@, 0);
    assert(parts("repair-mutations requirement"@).skip(1) =~= seq!["requirement"@]);
    assert(document_of(SLOTBOOK_REQUIREMENT@, record[14]) is Ok
            && made_repair_mutations(document_of(SLOTBOOK_REQUIREMENT@, record[14])->Ok_0)
                == Ok::<Tree, Seq<char>>(at(record[38], "repair"@))) by {
        was_made(l, known, answers, record, 37);
        was_made(l, known, answers, record, 14);
        let args14 = arguments(parts("slotbook-requirement"@).skip(1), record[14]);
        assert(args14 =~= seq![]);
        makes_slotbook_requirement(args14, record[14]);
        assert(forall|j: int|
            15 <= j < 37 ==> is_check((#[trigger] l[j]).0@) || !touches(l[j].1@, "requirement"@));
        stays_through(l, known, answers, record, 15, 37, "requirement"@);
        let args37 = arguments(parts("repair-mutations requirement"@).skip(1), record[37]);
        assert(args37 =~= seq![document_of(SLOTBOOK_REQUIREMENT@, record[14])->Ok_0]);
        makes_repair_mutations(args37, record[37]);
    }
}

/// Every document of the example is the one that the library draws up from what is known by then:
/// the policy, the requirement, the method, the scope, both recipes and the repair.
pub proof fn example_was_authored(known: Tree, answers: Seq<(Tree, bool)>) -> (record: Seq<Tree>)
    requires
        known is Object,
        finished(SLOTBOOK_PREPARE@, known, answers),
    ensures
        passed(SLOTBOOK_PREPARE@, known, answers, record),
        document_of(SLOTBOOK_POLICY@, record[9])
            == Ok::<Tree, Seq<char>>(at(record[10], "policy"@)),
        document_of(SLOTBOOK_REQUIREMENT@, record[14])
            == Ok::<Tree, Seq<char>>(at(record[15], "requirement"@)),
        document_of(SLOTBOOK_REQUIREMENT@, record[14]) is Ok
            && made_method_mutations(
                document_of(SLOTBOOK_REQUIREMENT@, record[14])->Ok_0,
                at(known, "target_version"@),
            )
                == Ok::<Tree, Seq<char>>(at(record[16], "mutations"@)),
        document_of(SLOTBOOK_SCOPE@, record[18]) == Ok::<Tree, Seq<char>>(at(record[19], "scope"@)),
        document_of(SLOTBOOK_PROTECTED_RECIPE@, record[31])
            == Ok::<Tree, Seq<char>>(at(record[32], "protected"@)),
        document_of(SLOTBOOK_WORKER_RECIPE@, record[34])
            == Ok::<Tree, Seq<char>>(at(record[35], "worker"@)),
        document_of(SLOTBOOK_REQUIREMENT@, record[14]) is Ok
            && made_repair_mutations(document_of(SLOTBOOK_REQUIREMENT@, record[14])->Ok_0)
                == Ok::<Tree, Seq<char>>(at(record[38], "repair"@)),
{
    let record = finished_scenarios_are_recorded(SLOTBOOK_PREPARE@, known, answers);
    lemma_example_was_authored_1(known, answers, record);
    lemma_example_was_authored_2(known, answers, record);
    lemma_example_was_authored_3(known, answers, record);
    lemma_example_was_authored_4(known, answers, record);
    record
}

proof fn lemma_session_was_bootstrapped_1(
    known: Tree,
    answers: Seq<(Tree, bool)>,
    record: Seq<Tree>,
)
    requires
        passed(SLOTBOOK_SESSION@, known, answers, record),
    ensures
        at(said(record, 2), "succeeded"@) == Tree::Bool(true),
        at(said(record, 6), "succeeded"@) == Tree::Bool(true),
{
    let l = SLOTBOOK_SESSION@;
    reveal_strlit("protected_output");
    reveal_strlit("reply");
    reveal_strlit("succeeded");
    reveal_strlit("protected_output,succeeded");
    reveal_strlit("worker_output");
    reveal_strlit("worker_output,succeeded");
    assert("protected_output"@.len() == 16);
    assert("reply"@.len() == 5);
    assert("protected_output,succeeded"@ =~= "protected_output"@ + seq![','] + "succeeded"@);
    assert("worker_output"@.len() == 13);
    assert("worker_output,succeeded"@ =~= "worker_output"@ + seq![','] + "succeeded"@);
    assert(at(said(record, 2), "succeeded"@) == Tree::Bool(true)) by {
        was_said(l, known, answers, record, 3);
        lemma_under(record[4], "protected_output"@, "succeeded"@, "protected_output,succeeded"@);
        saw_true(l, known, answers, record, 4);
    }
    assert(at(said(record, 6), "succeeded"@) == Tree::Bool(true)) by {
        was_said(l, known, answers, record, 7);
        lemma_under(record[8], "worker_output"@, "succeeded"@, "worker_output,succeeded"@);
        saw_true(l, known, answers, record, 8);
    }
}

proof fn lemma_session_was_bootstrapped_2(
    known: Tree,
    answers: Seq<(Tree, bool)>,
    record: Seq<Tree>,
)
    requires
        passed(SLOTBOOK_SESSION@, known, answers, record),
    ensures
        document_of(SLOTBOOK_SESSION_CONFIG@, record[12])
            == Ok::<Tree, Seq<char>>(at(record[13], "config"@)),
{
    let l = SLOTBOOK_SESSION@;
    reveal_strlit("config");
    reveal_strlit("slotbook-session-config");
    lemma_one_word("slotbook-session-config"@);
    assert(parts("slotbook-session-config"@) =~= seq!["slotbook-session-config"@]);
    assert(parts("slotbook-session-config"@).skip(1) =~= seq![]);
    assert(document_of(SLOTBOOK_SESSION_CONFIG@, record[12])
            == Ok::<Tree, Seq<char>>(at(record[13], "config"@))) by {
        was_made(l, known, answers, record, 12);
        let args12 = arguments(parts("slotbook-session-config"@).skip(1), record[12]);
        assert(args12 =~= seq![]);
        makes_slotbook_session_config(args12, record[12]);
    }
}

proof fn lemma_session_was_configured_last(
    known: Tree,
    answers: Seq<(Tree, bool)>,
    record: Seq<Tree>,
)
    requires
        passed(SESSION_PLAIN@, known, answers, record),
    ensures
        at(said(record, 2), "succeeded"@) == Tree::Bool(true),
{
    let l = SESSION_PLAIN@;
    reveal_strlit("checked");
    reveal_strlit("reply");
    reveal_strlit("succeeded");
    reveal_strlit("checked,succeeded");
    assert("checked"@.len() == 7);
    assert("reply"@.len() == 5);
    assert("checked,succeeded"@ =~= "checked"@ + seq![','] + "succeeded"@);
    assert(at(said(record, 2), "succeeded"@) == Tree::Bool(true)) by {
        was_said(l, known, answers, record, 3);
        lemma_under(record[4], "checked"@, "succeeded"@, "checked,succeeded"@);
        saw_true(l, known, answers, record, 4);
    }
}

/// A session is brought up only where both recipes were bootstrapped, under the configuration that
/// the library draws up from what was read, and its daemon accepts it.
pub proof fn session_was_configured(known: Tree, answers: Seq<(Tree, bool)>) -> (record: Seq<Tree>)
    requires
        known is Object,
        finished(SLOTBOOK_SESSION@ + SESSION_PLAIN@, known, answers),
    ensures
        passed(SLOTBOOK_SESSION@ + SESSION_PLAIN@, known, answers, record),
        SLOTBOOK_SESSION@[2].2@ == "bootstrap protected-recipe.json"@,
        at(said(record, 2), "succeeded"@) == Tree::Bool(true),
        SLOTBOOK_SESSION@[6].2@ == "bootstrap worker-recipe.json --preview"@,
        at(said(record, 6), "succeeded"@) == Tree::Bool(true),
        document_of(SLOTBOOK_SESSION_CONFIG@, record[12])
            == Ok::<Tree, Seq<char>>(at(record[13], "config"@)),
        SESSION_PLAIN@[2].2@ == "check-config daemon"@,
        at(said(record, 15), "succeeded"@) == Tree::Bool(true),
{
    let record = finished_scenarios_are_recorded(
        SLOTBOOK_SESSION@ + SESSION_PLAIN@,
        known,
        answers,
    );
    beginnings_pass(SLOTBOOK_SESSION@, SESSION_PLAIN@, known, answers, record);
    endings_pass(SLOTBOOK_SESSION@, SESSION_PLAIN@, known, answers, record);
    let first = record.take(14);
    let rest = record.skip(13);
    lemma_session_was_bootstrapped_1(known, answers, first);
    lemma_session_was_bootstrapped_2(known, answers, first);
    lemma_session_was_configured_last(record[13], answers, rest);
    assert(forall|i: int| 0 <= i < rest.len() ==> rest[i] == #[trigger] record[13 + i]);
    record
}

proof fn lemma_publication_was_configured_last(
    known: Tree,
    answers: Seq<(Tree, bool)>,
    record: Seq<Tree>,
)
    requires
        passed(SESSION_PUBLISHED@, known, answers, record),
    ensures
        document_of(PUBLICATION_CONFIG@, at(record[4], "offer"@))
            == Ok::<Tree, Seq<char>>(at(record[5], "config"@)),
        at(said(record, 7), "succeeded"@) == Tree::Bool(true),
{
    let l = SESSION_PUBLISHED@;
    reveal_strlit("config");
    reveal_strlit("publication-config");
    reveal_strlit("offer");
    reveal_strlit("publication-config offer");
    reveal_strlit("checked");
    reveal_strlit("reply");
    reveal_strlit("succeeded");
    reveal_strlit("checked,succeeded");
    assert("publication-config offer"@ =~= "publication-config"@ + seq![' '] + "offer"@);
    lemma_two_words("publication-config"@, "offer"@, "publication-config offer"@);
    assert(parts("publication-config offer"@) =~= seq!["publication-config"@, "offer"@]);
    assert("offer"@.len() == 5);
    assert(parts("publication-config offer"@).skip(1) =~= seq!["offer"@]);
    assert("checked"@.len() == 7);
    assert("reply"@.len() == 5);
    assert("checked,succeeded"@ =~= "checked"@ + seq![','] + "succeeded"@);
    assert(document_of(PUBLICATION_CONFIG@, at(record[4], "offer"@))
            == Ok::<Tree, Seq<char>>(at(record[5], "config"@))) by {
        was_made(l, known, answers, record, 4);
        let args4 = arguments(parts("publication-config offer"@).skip(1), record[4]);
        assert(args4 =~= seq![at(record[4], "offer"@)]);
        makes_publication_config(args4, record[4]);
    }
    assert(at(said(record, 7), "succeeded"@) == Tree::Bool(true)) by {
        was_said(l, known, answers, record, 8);
        lemma_under(record[9], "checked"@, "succeeded"@, "checked,succeeded"@);
        saw_true(l, known, answers, record, 9);
    }
}

/// A session with a publication is brought up only where both recipes were bootstrapped; its
/// configuration is drawn up for the consumer's credential, and its daemon accepts it.
pub proof fn publication_was_configured(
    known: Tree,
    answers: Seq<(Tree, bool)>,
) -> (record: Seq<Tree>)
    requires
        known is Object,
        finished(SLOTBOOK_SESSION@ + SESSION_PUBLISHED@, known, answers),
    ensures
        passed(SLOTBOOK_SESSION@ + SESSION_PUBLISHED@, known, answers, record),
        SLOTBOOK_SESSION@[2].2@ == "bootstrap protected-recipe.json"@,
        at(said(record, 2), "succeeded"@) == Tree::Bool(true),
        SLOTBOOK_SESSION@[6].2@ == "bootstrap worker-recipe.json --preview"@,
        at(said(record, 6), "succeeded"@) == Tree::Bool(true),
        document_of(SLOTBOOK_SESSION_CONFIG@, record[12])
            == Ok::<Tree, Seq<char>>(at(record[13], "config"@)),
        document_of(PUBLICATION_CONFIG@, at(record[17], "offer"@))
            == Ok::<Tree, Seq<char>>(at(record[18], "config"@)),
        SESSION_PUBLISHED@[7].2@ == "check-config daemon"@,
        at(said(record, 20), "succeeded"@) == Tree::Bool(true),
{
    let record = finished_scenarios_are_recorded(
        SLOTBOOK_SESSION@ + SESSION_PUBLISHED@,
        known,
        answers,
    );
    beginnings_pass(SLOTBOOK_SESSION@, SESSION_PUBLISHED@, known, answers, record);
    endings_pass(SLOTBOOK_SESSION@, SESSION_PUBLISHED@, known, answers, record);
    let first = record.take(14);
    let rest = record.skip(13);
    lemma_session_was_bootstrapped_1(known, answers, first);
    lemma_session_was_bootstrapped_2(known, answers, first);
    lemma_publication_was_configured_last(record[13], answers, rest);
    assert(forall|i: int| 0 <= i < rest.len() ==> rest[i] == #[trigger] record[13 + i]);
    record
}

proof fn lemma_peers_were_configured_last_1(
    known: Tree,
    answers: Seq<(Tree, bool)>,
    record: Seq<Tree>,
)
    requires
        passed(SESSION_PEER@, known, answers, record),
    ensures
        document_of(PUBLICATION_CONFIG@, at(record[4], "offer"@))
            == Ok::<Tree, Seq<char>>(at(record[5], "config"@)),
        document_of(PEER_RELATIONSHIP@, at(record[9], "caller"@))
            == Ok::<Tree, Seq<char>>(at(record[10], "caller_relationship"@)),
{
    let l = SESSION_PEER@;
    reveal_strlit("config");
    reveal_strlit("publication-config");
    reveal_strlit("offer");
    reveal_strlit("publication-config offer");
    reveal_strlit("caller_relationship");
    reveal_strlit("peer-relationship");
    reveal_strlit("caller");
    reveal_strlit("peer-relationship caller");
    assert("publication-config offer"@ =~= "publication-config"@ + seq![' '] + "offer"@);
    lemma_two_words("publication-config"@, "offer"@, "publication-config offer"@);
    assert(parts("publication-config offer"@) =~= seq!["publication-config"@, "offer"@]);
    assert("offer"@.len() == 5);
    assert(parts("publication-config offer"@).skip(1) =~= seq!["offer"@]);
    assert("peer-relationship caller"@ =~= "peer-relationship"@ + seq![' '] + "caller"@);
    lemma_two_words("peer-relationship"@, "caller"@, "peer-relationship caller"@);
    assert(parts("peer-relationship caller"@) =~= seq!["peer-relationship"@, "caller"@]);
    assert("caller"@.len() == 6);
    assert(parts("peer-relationship caller"@).skip(1) =~= seq!["caller"@]);
    assert(document_of(PUBLICATION_CONFIG@, at(record[4], "offer"@))
            == Ok::<Tree, Seq<char>>(at(record[5], "config"@))) by {
        was_made(l, known, answers, record, 4);
        let args4 = arguments(parts("publication-config offer"@).skip(1), record[4]);
        assert(args4 =~= seq![at(record[4], "offer"@)]);
        makes_publication_config(args4, record[4]);
    }
    assert(document_of(PEER_RELATIONSHIP@, at(record[9], "caller"@))
            == Ok::<Tree, Seq<char>>(at(record[10], "caller_relationship"@))) by {
        was_made(l, known, answers, record, 9);
        let args9 = arguments(parts("peer-relationship caller"@).skip(1), record[9]);
        assert(args9 =~= seq![at(record[9], "caller"@)]);
        makes_peer_relationship(args9, record[9]);
    }
}

proof fn lemma_peers_were_configured_last_2(
    known: Tree,
    answers: Seq<(Tree, bool)>,
    record: Seq<Tree>,
)
    requires
        passed(SESSION_PEER@, known, answers, record),
    ensures
        document_of(PEER_PROVIDER_CONFIG@, at(record[13], "provider"@))
            == Ok::<Tree, Seq<char>>(at(record[14], "config"@)),
        document_of(PEER_RELATIONSHIP@, at(record[16], "target"@))
            == Ok::<Tree, Seq<char>>(at(record[17], "target_relationship"@)),
{
    let l = SESSION_PEER@;
    reveal_strlit("config");
    reveal_strlit("peer-provider-config");
    reveal_strlit("provider");
    reveal_strlit("peer-provider-config provider");
    reveal_strlit("target_relationship");
    reveal_strlit("peer-relationship");
    reveal_strlit("target");
    reveal_strlit("peer-relationship target");
    assert("peer-provider-config provider"@ =~= "peer-provider-config"@ + seq![' '] + "provider"@);
    lemma_two_words("peer-provider-config"@, "provider"@, "peer-provider-config provider"@);
    assert(parts("peer-provider-config provider"@) =~= seq!["peer-provider-config"@, "provider"@]);
    assert("provider"@.len() == 8);
    assert(parts("peer-provider-config provider"@).skip(1) =~= seq!["provider"@]);
    assert("peer-relationship target"@ =~= "peer-relationship"@ + seq![' '] + "target"@);
    lemma_two_words("peer-relationship"@, "target"@, "peer-relationship target"@);
    assert(parts("peer-relationship target"@) =~= seq!["peer-relationship"@, "target"@]);
    assert("target"@.len() == 6);
    assert(parts("peer-relationship target"@).skip(1) =~= seq!["target"@]);
    assert(document_of(PEER_PROVIDER_CONFIG@, at(record[13], "provider"@))
            == Ok::<Tree, Seq<char>>(at(record[14], "config"@))) by {
        was_made(l, known, answers, record, 13);
        let args13 = arguments(parts("peer-provider-config provider"@).skip(1), record[13]);
        assert(args13 =~= seq![at(record[13], "provider"@)]);
        makes_peer_provider_config(args13, record[13]);
    }
    assert(document_of(PEER_RELATIONSHIP@, at(record[16], "target"@))
            == Ok::<Tree, Seq<char>>(at(record[17], "target_relationship"@))) by {
        was_made(l, known, answers, record, 16);
        let args16 = arguments(parts("peer-relationship target"@).skip(1), record[16]);
        assert(args16 =~= seq![at(record[16], "target"@)]);
        makes_peer_relationship(args16, record[16]);
    }
}

proof fn lemma_peers_were_configured_last_3(
    known: Tree,
    answers: Seq<(Tree, bool)>,
    record: Seq<Tree>,
)
    requires
        passed(SESSION_PEER@, known, answers, record),
    ensures
        document_of(PEER_ORIGIN_CONFIG@, at(record[22], "origin"@))
            == Ok::<Tree, Seq<char>>(at(record[23], "origin_config"@)),
        at(said(record, 27), "succeeded"@) == Tree::Bool(true),
{
    let l = SESSION_PEER@;
    reveal_strlit("origin_config");
    reveal_strlit("peer-origin-config");
    reveal_strlit("origin");
    reveal_strlit("peer-origin-config origin");
    reveal_strlit("checked");
    reveal_strlit("reply");
    reveal_strlit("succeeded");
    reveal_strlit("checked,succeeded");
    assert("peer-origin-config origin"@ =~= "peer-origin-config"@ + seq![' '] + "origin"@);
    lemma_two_words("peer-origin-config"@, "origin"@, "peer-origin-config origin"@);
    assert(parts("peer-origin-config origin"@) =~= seq!["peer-origin-config"@, "origin"@]);
    assert("origin"@.len() == 6);
    assert(parts("peer-origin-config origin"@).skip(1) =~= seq!["origin"@]);
    assert("checked"@.len() == 7);
    assert("reply"@.len() == 5);
    assert("checked,succeeded"@ =~= "checked"@ + seq![','] + "succeeded"@);
    assert(document_of(PEER_ORIGIN_CONFIG@, at(record[22], "origin"@))
            == Ok::<Tree, Seq<char>>(at(record[23], "origin_config"@))) by {
        was_made(l, known, answers, record, 22);
        let args22 = arguments(parts("peer-origin-config origin"@).skip(1), record[22]);
        assert(args22 =~= seq![at(record[22], "origin"@)]);
        makes_peer_origin_config(args22, record[22]);
    }
    assert(at(said(record, 27), "succeeded"@) == Tree::Bool(true)) by {
        was_said(l, known, answers, record, 28);
        lemma_under(record[29], "checked"@, "succeeded"@, "checked,succeeded"@);
        saw_true(l, known, answers, record, 29);
    }
}

proof fn lemma_peers_were_configured_last_4(
    known: Tree,
    answers: Seq<(Tree, bool)>,
    record: Seq<Tree>,
)
    requires
        passed(SESSION_PEER@, known, answers, record),
    ensures
        at(said(record, 30), "succeeded"@) == Tree::Bool(true),
{
    let l = SESSION_PEER@;
    reveal_strlit("origin_checked");
    reveal_strlit("reply");
    reveal_strlit("succeeded");
    reveal_strlit("origin_checked,succeeded");
    assert("origin_checked"@.len() == 14);
    assert("reply"@.len() == 5);
    assert("origin_checked,succeeded"@ =~= "origin_checked"@ + seq![','] + "succeeded"@);
    assert(at(said(record, 30), "succeeded"@) == Tree::Bool(true)) by {
        was_said(l, known, answers, record, 31);
        lemma_under(record[32], "origin_checked"@, "succeeded"@, "origin_checked,succeeded"@);
        saw_true(l, known, answers, record, 32);
    }
}

/// A session with a peer is brought up only where both recipes were bootstrapped; the
/// configurations of a host and of its peer are drawn up from each other's endpoints, and each
/// daemon accepts its own.
pub proof fn peers_were_configured(known: Tree, answers: Seq<(Tree, bool)>) -> (record: Seq<Tree>)
    requires
        known is Object,
        finished(SLOTBOOK_SESSION@ + SESSION_PEER@, known, answers),
    ensures
        passed(SLOTBOOK_SESSION@ + SESSION_PEER@, known, answers, record),
        SLOTBOOK_SESSION@[2].2@ == "bootstrap protected-recipe.json"@,
        at(said(record, 2), "succeeded"@) == Tree::Bool(true),
        SLOTBOOK_SESSION@[6].2@ == "bootstrap worker-recipe.json --preview"@,
        at(said(record, 6), "succeeded"@) == Tree::Bool(true),
        document_of(SLOTBOOK_SESSION_CONFIG@, record[12])
            == Ok::<Tree, Seq<char>>(at(record[13], "config"@)),
        document_of(PUBLICATION_CONFIG@, at(record[17], "offer"@))
            == Ok::<Tree, Seq<char>>(at(record[18], "config"@)),
        document_of(PEER_RELATIONSHIP@, at(record[22], "caller"@))
            == Ok::<Tree, Seq<char>>(at(record[23], "caller_relationship"@)),
        document_of(PEER_PROVIDER_CONFIG@, at(record[26], "provider"@))
            == Ok::<Tree, Seq<char>>(at(record[27], "config"@)),
        document_of(PEER_RELATIONSHIP@, at(record[29], "target"@))
            == Ok::<Tree, Seq<char>>(at(record[30], "target_relationship"@)),
        document_of(PEER_ORIGIN_CONFIG@, at(record[35], "origin"@))
            == Ok::<Tree, Seq<char>>(at(record[36], "origin_config"@)),
        SESSION_PEER@[27].2@ == "check-config daemon"@,
        at(said(record, 40), "succeeded"@) == Tree::Bool(true),
        SESSION_PEER@[30].2@ == "check-config origin"@,
        at(said(record, 43), "succeeded"@) == Tree::Bool(true),
{
    let record = finished_scenarios_are_recorded(SLOTBOOK_SESSION@ + SESSION_PEER@, known, answers);
    beginnings_pass(SLOTBOOK_SESSION@, SESSION_PEER@, known, answers, record);
    endings_pass(SLOTBOOK_SESSION@, SESSION_PEER@, known, answers, record);
    let first = record.take(14);
    let rest = record.skip(13);
    lemma_session_was_bootstrapped_1(known, answers, first);
    lemma_session_was_bootstrapped_2(known, answers, first);
    lemma_peers_were_configured_last_1(record[13], answers, rest);
    lemma_peers_were_configured_last_2(record[13], answers, rest);
    lemma_peers_were_configured_last_3(record[13], answers, rest);
    lemma_peers_were_configured_last_4(record[13], answers, rest);
    assert(forall|i: int| 0 <= i < rest.len() ==> rest[i] == #[trigger] record[13 + i]);
    record
}

proof fn lemma_prepared_1(known: Tree, answers: Seq<(Tree, bool)>, record: Seq<Tree>)
    requires
        passed(SLOTBOOK_PREPARE@, known, answers, record),
    ensures
        at(record[44], "summary,root"@) == said(record, 0),
{
    let l = SLOTBOOK_PREPARE@;
    reveal_strlit("summary");
    reveal_strlit("reply");
    reveal_strlit("root");
    reveal_strlit("");
    reveal_strlit("token");
    reveal_strlit("clock_file");
    reveal_strlit("verifier_copy");
    reveal_strlit("verifier");
    reveal_strlit("policy");
    reveal_strlit("policy_file");
    reveal_strlit("described");
    reveal_strlit("requirement");
    reveal_strlit("mutations");
    reveal_strlit("mutations_file");
    reveal_strlit("scope");
    reveal_strlit("scope_file");
    reveal_strlit("created");
    reveal_strlit("policy_digest");
    reveal_strlit("governed");
    reveal_strlit("agreement");
    reveal_strlit("token_file");
    reveal_strlit("token_digest");
    reveal_strlit("verifier_digest");
    reveal_strlit("protected");
    reveal_strlit("saved");
    reveal_strlit("worker");
    reveal_strlit("repair");
    reveal_strlit("summary,root");
    reveal_strlit("summary,agreement");
    reveal_strlit("summary,policy");
    reveal_strlit("candidate_lane");
    reveal_strlit("summary,candidate_lane");
    assert("summary"@.len() == 7);
    assert("reply"@.len() == 5);
    assert("root"@.len() == 4);
    lemma_apart(""@, "root"@, 0);
    lemma_apart("token"@, "root"@, 0);
    lemma_apart("clock_file"@, "root"@, 0);
    lemma_apart("verifier_copy"@, "root"@, 0);
    lemma_apart("verifier"@, "root"@, 0);
    lemma_apart("policy"@, "root"@, 0);
    lemma_apart("policy_file"@, "root"@, 0);
    lemma_apart("described"@, "root"@, 0);
    lemma_apart("requirement"@, "root"@, 1);
    lemma_apart("mutations"@, "root"@, 0);
    lemma_apart("mutations_file"@, "root"@, 0);
    lemma_apart("scope"@, "root"@, 0);
    lemma_apart("scope_file"@, "root"@, 0);
    lemma_apart("created"@, "root"@, 0);
    lemma_apart("policy_digest"@, "root"@, 0);
    lemma_apart("governed"@, "root"@, 0);
    lemma_apart("agreement"@, "root"@, 0);
    lemma_apart("token_file"@, "root"@, 0);
    lemma_apart("token_digest"@, "root"@, 0);
    lemma_apart("verifier_digest"@, "root"@, 0);
    lemma_apart("protected"@, "root"@, 0);
    lemma_apart("saved"@, "root"@, 0);
    lemma_apart("worker"@, "root"@, 0);
    lemma_apart("repair"@, "root"@, 1);
    assert("summary,root"@ =~= "summary"@ + seq![','] + "root"@);
    assert("summary,agreement"@ =~= "summary"@ + seq![','] + "agreement"@);
    lemma_under(Tree::Null, "summary"@, "agreement"@, "summary,agreement"@);
    lemma_single_segment("agreement"@);
    assert("agreement"@.len() == 9);
    assert("summary,agreement"@.len() == 17);
    assert(segments("summary,agreement"@)[1] == "agreement"@);
    assert("summary,policy"@ =~= "summary"@ + seq![','] + "policy"@);
    lemma_under(Tree::Null, "summary"@, "policy"@, "summary,policy"@);
    lemma_single_segment("policy"@);
    assert("policy"@.len() == 6);
    assert("summary,policy"@.len() == 14);
    assert(segments("summary,policy"@)[1] == "policy"@);
    assert("summary,candidate_lane"@ =~= "summary"@ + seq![','] + "candidate_lane"@);
    lemma_under(Tree::Null, "summary"@, "candidate_lane"@, "summary,candidate_lane"@);
    lemma_single_segment("candidate_lane"@);
    assert("candidate_lane"@.len() == 14);
    assert("summary,candidate_lane"@.len() == 22);
    assert(segments("summary,candidate_lane"@)[1] == "candidate_lane"@);
    assert(at(record[44], "summary,root"@) == said(record, 0)) by {
        was_said(l, known, answers, record, 1);
        assert(forall|j: int|
            2 <= j < 40 ==> is_check((#[trigger] l[j]).0@) || !touches(l[j].1@, "root"@));
        stays_through(l, known, answers, record, 2, 40, "root"@);
        was_put(l, known, answers, record, 40);
        lemma_under(record[41], "summary"@, "root"@, "summary,root"@);
        stays_beside(l, known, answers, record, 41, "summary"@, "root"@);
        stays_beside(l, known, answers, record, 42, "summary"@, "root"@);
        stays_beside(l, known, answers, record, 43, "summary"@, "root"@);
        lemma_under(record[44], "summary"@, "root"@, "summary,root"@);
    }
}

proof fn lemma_prepared_2(known: Tree, answers: Seq<(Tree, bool)>, record: Seq<Tree>)
    requires
        passed(SLOTBOOK_PREPARE@, known, answers, record),
    ensures
        at(record[44], "summary,agreement"@) == at(said(record, 24), "agreement"@),
{
    let l = SLOTBOOK_PREPARE@;
    reveal_strlit("summary");
    reveal_strlit("reply");
    reveal_strlit("agreement");
    reveal_strlit("governed");
    reveal_strlit("governed,agreement");
    reveal_strlit("token_file");
    reveal_strlit("token_digest");
    reveal_strlit("verifier_digest");
    reveal_strlit("verifier");
    reveal_strlit("protected");
    reveal_strlit("");
    reveal_strlit("saved");
    reveal_strlit("worker");
    reveal_strlit("repair");
    reveal_strlit("summary,root");
    reveal_strlit("summary,agreement");
    reveal_strlit("policy");
    reveal_strlit("summary,policy");
    reveal_strlit("candidate_lane");
    reveal_strlit("summary,candidate_lane");
    assert("summary"@.len() == 7);
    assert("reply"@.len() == 5);
    assert("agreement"@.len() == 9);
    assert("governed"@.len() == 8);
    assert("governed,agreement"@ =~= "governed"@ + seq![','] + "agreement"@);
    lemma_apart("token_file"@, "agreement"@, 0);
    lemma_apart("token_digest"@, "agreement"@, 0);
    lemma_apart("verifier_digest"@, "agreement"@, 0);
    lemma_apart("verifier"@, "agreement"@, 0);
    lemma_apart("protected"@, "agreement"@, 0);
    lemma_apart(""@, "agreement"@, 0);
    lemma_apart("saved"@, "agreement"@, 0);
    lemma_apart("worker"@, "agreement"@, 0);
    lemma_apart("repair"@, "agreement"@, 0);
    lemma_apart("summary,root"@, "agreement"@, 0);
    assert("summary,agreement"@ =~= "summary"@ + seq![','] + "agreement"@);
    assert("summary,policy"@ =~= "summary"@ + seq![','] + "policy"@);
    lemma_under(Tree::Null, "summary"@, "policy"@, "summary,policy"@);
    lemma_single_segment("policy"@);
    assert("policy"@.len() == 6);
    assert("summary,policy"@.len() == 14);
    assert(segments("summary,policy"@)[1] == "policy"@);
    assert("summary,candidate_lane"@ =~= "summary"@ + seq![','] + "candidate_lane"@);
    lemma_under(Tree::Null, "summary"@, "candidate_lane"@, "summary,candidate_lane"@);
    lemma_single_segment("candidate_lane"@);
    assert("candidate_lane"@.len() == 14);
    assert("summary,candidate_lane"@.len() == 22);
    assert(segments("summary,candidate_lane"@)[1] == "candidate_lane"@);
    assert(at(record[44], "summary,agreement"@) == at(said(record, 24), "agreement"@)) by {
        was_kept(l, known, answers, record, 26);
        was_said(l, known, answers, record, 25);
        lemma_under(record[26], "governed"@, "agreement"@, "governed,agreement"@);
        assert(forall|j: int|
            27 <= j < 41 ==> is_check((#[trigger] l[j]).0@) || !touches(l[j].1@, "agreement"@));
        stays_through(l, known, answers, record, 27, 41, "agreement"@);
        was_put(l, known, answers, record, 41);
        lemma_under(record[42], "summary"@, "agreement"@, "summary,agreement"@);
        stays_beside(l, known, answers, record, 42, "summary"@, "agreement"@);
        stays_beside(l, known, answers, record, 43, "summary"@, "agreement"@);
        lemma_under(record[44], "summary"@, "agreement"@, "summary,agreement"@);
    }
}

proof fn lemma_prepared_3(known: Tree, answers: Seq<(Tree, bool)>, record: Seq<Tree>)
    requires
        passed(SLOTBOOK_PREPARE@, known, answers, record),
    ensures
        at(record[44], "summary,policy"@) == at(said(record, 12), "digest"@),
{
    let l = SLOTBOOK_PREPARE@;
    reveal_strlit("summary");
    reveal_strlit("reply");
    reveal_strlit("policy_digest");
    reveal_strlit("described");
    reveal_strlit("requirement");
    reveal_strlit("mutations");
    reveal_strlit("");
    reveal_strlit("mutations_file");
    reveal_strlit("scope");
    reveal_strlit("scope_file");
    reveal_strlit("created");
    reveal_strlit("digest");
    reveal_strlit("described,digest");
    reveal_strlit("governed");
    reveal_strlit("agreement");
    reveal_strlit("token_file");
    reveal_strlit("token_digest");
    reveal_strlit("verifier_digest");
    reveal_strlit("verifier");
    reveal_strlit("protected");
    reveal_strlit("saved");
    reveal_strlit("worker");
    reveal_strlit("repair");
    reveal_strlit("summary,root");
    reveal_strlit("summary,agreement");
    reveal_strlit("policy");
    reveal_strlit("summary,policy");
    reveal_strlit("candidate_lane");
    reveal_strlit("summary,candidate_lane");
    assert("summary"@.len() == 7);
    assert("reply"@.len() == 5);
    assert("policy_digest"@.len() == 13);
    assert("described"@.len() == 9);
    lemma_apart("requirement"@, "described"@, 0);
    lemma_apart("mutations"@, "described"@, 0);
    lemma_apart(""@, "described"@, 0);
    lemma_apart("mutations_file"@, "described"@, 0);
    lemma_apart("scope"@, "described"@, 0);
    lemma_apart("scope_file"@, "described"@, 0);
    lemma_apart("created"@, "described"@, 0);
    assert("described,digest"@ =~= "described"@ + seq![','] + "digest"@);
    lemma_apart(""@, "policy_digest"@, 0);
    lemma_apart("governed"@, "policy_digest"@, 0);
    lemma_apart("agreement"@, "policy_digest"@, 0);
    lemma_apart("token_file"@, "policy_digest"@, 0);
    lemma_apart("token_digest"@, "policy_digest"@, 0);
    lemma_apart("verifier_digest"@, "policy_digest"@, 0);
    lemma_apart("verifier"@, "policy_digest"@, 0);
    lemma_apart("protected"@, "policy_digest"@, 1);
    lemma_apart("saved"@, "policy_digest"@, 0);
    lemma_apart("worker"@, "policy_digest"@, 0);
    lemma_apart("repair"@, "policy_digest"@, 0);
    lemma_apart("summary,root"@, "policy_digest"@, 0);
    lemma_apart("summary,agreement"@, "policy_digest"@, 0);
    assert("summary,policy"@ =~= "summary"@ + seq![','] + "policy"@);
    assert("summary,candidate_lane"@ =~= "summary"@ + seq![','] + "candidate_lane"@);
    lemma_under(Tree::Null, "summary"@, "candidate_lane"@, "summary,candidate_lane"@);
    lemma_single_segment("candidate_lane"@);
    assert("candidate_lane"@.len() == 14);
    assert("policy"@.len() == 6);
    assert("summary,candidate_lane"@.len() == 22);
    assert(segments("summary,candidate_lane"@)[1] == "candidate_lane"@);
    assert(at(record[44], "summary,policy"@) == at(said(record, 12), "digest"@)) by {
        was_kept(l, known, answers, record, 23);
        was_said(l, known, answers, record, 13);
        assert(forall|j: int|
            14 <= j < 23 ==> is_check((#[trigger] l[j]).0@) || !touches(l[j].1@, "described"@));
        stays_through(l, known, answers, record, 14, 23, "described"@);
        lemma_under(record[23], "described"@, "digest"@, "described,digest"@);
        assert(forall|j: int|
            24 <= j < 42 ==> is_check((#[trigger] l[j]).0@) || !touches(l[j].1@, "policy_digest"@));
        stays_through(l, known, answers, record, 24, 42, "policy_digest"@);
        was_put(l, known, answers, record, 42);
        lemma_under(record[43], "summary"@, "policy"@, "summary,policy"@);
        stays_beside(l, known, answers, record, 43, "summary"@, "policy"@);
        lemma_under(record[44], "summary"@, "policy"@, "summary,policy"@);
    }
}

proof fn lemma_prepared_4(known: Tree, answers: Seq<(Tree, bool)>, record: Seq<Tree>)
    requires
        passed(SLOTBOOK_PREPARE@, known, answers, record),
    ensures
        at(record[44], "summary,candidate_lane"@)
            == Tree::Text("compiled seeded fixtures, not model output"@),
{
    let l = SLOTBOOK_PREPARE@;
    reveal_strlit("summary");
    reveal_strlit("reply");
    assert("summary"@.len() == 7);
    assert("reply"@.len() == 5);
    assert(at(record[44], "summary,candidate_lane"@)
            == Tree::Text("compiled seeded fixtures, not model output"@)) by {
        was_worded(l, known, answers, record, 43);
    }
}

/// A prepared example is summed up by the very directory, agreement and policy digest that were
/// answered, and says that its candidates are seeded fixtures.
pub proof fn preparation_is_summed_up(
    known: Tree,
    answers: Seq<(Tree, bool)>,
) -> (record: Seq<Tree>)
    requires
        known is Object,
        finished(SLOTBOOK_PREPARE@, known, answers),
    ensures
        passed(SLOTBOOK_PREPARE@, known, answers, record),
        SLOTBOOK_PREPARE@[0].2@ == "directory"@,
        at(record[44], "summary,root"@) == said(record, 0),
        SLOTBOOK_PREPARE@[24].2@
            == "local blueprint govern $paths,base --scope $scope_file --name slotbook-agreement --effect-policy $policy_digest --author human:operator --output $paths,governed"@,
        at(record[44], "summary,agreement"@) == at(said(record, 24), "agreement"@),
        SLOTBOOK_PREPARE@[12].2@ == "local blueprint effect-policy $policy_file"@,
        at(record[44], "summary,policy"@) == at(said(record, 12), "digest"@),
        at(record[44], "summary,candidate_lane"@)
            == Tree::Text("compiled seeded fixtures, not model output"@),
{
    let record = finished_scenarios_are_recorded(SLOTBOOK_PREPARE@, known, answers);
    lemma_prepared_1(known, answers, record);
    lemma_prepared_2(known, answers, record);
    lemma_prepared_3(known, answers, record);
    lemma_prepared_4(known, answers, record);
    record
}

} // verus!
