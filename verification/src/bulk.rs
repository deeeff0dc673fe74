//! Bulk operations: one action applied to each of a caller-supplied list of
//! targets, in the caller's order, with the outcome of every target
//! recorded.  A target that fails never stops the targets after it.

use crate::ident::{canonical_id, well_formed_id, BackendId};
use crate::json::{member_views, Json, JsonView};
use crate::text::{join2, texts};
use vstd::prelude::*;
use vstd::string::*;

verus! {

/// What became of one target of a bulk operation.
#[derive(Debug, PartialEq, Eq)]
pub enum ItemOutcome {
    /// The backend accepted the item and returned this entity.
    Succeeded(Json),
    /// The item failed, for this reason.
    Failed(String),
}

/// The model of an item's outcome.
pub enum ItemOutcomeView {
    Succeeded(JsonView),
    Failed(Seq<char>),
}

impl View for ItemOutcome {
    type V = ItemOutcomeView;

    open spec fn view(&self) -> ItemOutcomeView {
        match self {
            ItemOutcome::Succeeded(entity) => ItemOutcomeView::Succeeded(entity@),
            ItemOutcome::Failed(reason) => ItemOutcomeView::Failed(reason@),
        }
    }
}

/// The models of a run of outcomes.
pub open spec fn outcome_views(outcomes: Seq<ItemOutcome>) -> Seq<ItemOutcomeView> {
    Seq::new(outcomes.len(), |i: int| outcomes[i]@)
}

/// The reason recorded for a target whose text is not an identifier.
pub open spec fn invalid_target_reason(raw: Seq<char>) -> Seq<char> {
    "Invalid agent_id: Invalid LettaId format: "@ + raw
}

/// The outcomes after every malformed target from the first unhandled one
/// up to the next well-formed one has been recorded as failed.
pub open spec fn skip_malformed(
    targets: Seq<Seq<char>>,
    outcomes: Seq<ItemOutcomeView>,
) -> Seq<ItemOutcomeView>
    decreases targets.len() - outcomes.len(),
{
    if outcomes.len() >= targets.len() || well_formed_id(targets[outcomes.len() as int]) {
        outcomes
    } else {
        skip_malformed(
            targets,
            outcomes.push(
                ItemOutcomeView::Failed(invalid_target_reason(targets[outcomes.len() as int])),
            ),
        )
    }
}

/// The entry reported for a target that failed.
pub open spec fn error_entry(target: Seq<char>, reason: Seq<char>) -> JsonView {
    JsonView::Object(
        seq![
            ("agent_id"@, JsonView::Str(target)),
            ("success"@, JsonView::Bool(false)),
            ("error"@, JsonView::Str(reason)),
        ],
    )
}

/// The entries of the first `upto` targets that failed, in order.
pub open spec fn error_entries(
    targets: Seq<Seq<char>>,
    outcomes: Seq<ItemOutcomeView>,
    upto: int,
) -> Seq<JsonView>
    decreases upto,
{
    if upto <= 0 {
        seq![]
    } else {
        match outcomes[upto - 1] {
            ItemOutcomeView::Succeeded(_) => error_entries(targets, outcomes, upto - 1),
            ItemOutcomeView::Failed(reason) => error_entries(targets, outcomes, upto - 1).push(
                error_entry(targets[upto - 1], reason),
            ),
        }
    }
}

/// How many of the first `upto` outcomes are failures.
pub open spec fn failures(outcomes: Seq<ItemOutcomeView>, upto: int) -> nat
    decreases upto,
{
    if upto <= 0 {
        0
    } else if outcomes[upto - 1] is Failed {
        failures(outcomes, upto - 1) + 1
    } else {
        failures(outcomes, upto - 1)
    }
}

/// How many of the first `upto` outcomes are successes.
pub open spec fn successes(outcomes: Seq<ItemOutcomeView>, upto: int) -> nat
    decreases upto,
{
    if upto <= 0 {
        0
    } else if outcomes[upto - 1] is Succeeded {
        successes(outcomes, upto - 1) + 1
    } else {
        successes(outcomes, upto - 1)
    }
}

/// Of `upto` handled targets, those that did not fail succeeded.
pub proof fn lemma_successes_and_failures(outcomes: Seq<ItemOutcomeView>, upto: int)
    requires
        0 <= upto <= outcomes.len(),
    ensures
        successes(outcomes, upto) + failures(outcomes, upto) == upto,
    decreases upto,
{
    if upto > 0 {
        lemma_successes_and_failures(outcomes, upto - 1);
    }
}

/// The error list has one entry for each failure, and each entry names the
/// target that failed, with the reason recorded for it.
pub proof fn lemma_error_entries(
    targets: Seq<Seq<char>>,
    outcomes: Seq<ItemOutcomeView>,
    upto: int,
)
    requires
        0 <= upto <= outcomes.len(),
    ensures
        error_entries(targets, outcomes, upto).len() == failures(outcomes, upto),
        forall|k: int|
            0 <= k < error_entries(targets, outcomes, upto).len() ==> exists|i: int|
                0 <= i < upto && outcomes[i] is Failed && #[trigger] error_entries(
                    targets,
                    outcomes,
                    upto,
                )[k] == error_entry(targets[i], outcomes[i]->Failed_0),
    decreases upto,
{
    if upto > 0 {
        lemma_error_entries(targets, outcomes, upto - 1);
        let before = error_entries(targets, outcomes, upto - 1);
        let now = error_entries(targets, outcomes, upto);
        assert forall|k: int| 0 <= k < now.len() implies exists|i: int|
            0 <= i < upto && outcomes[i] is Failed && #[trigger] now[k] == error_entry(
                targets[i],
                outcomes[i]->Failed_0,
            ) by {
            if k < before.len() {
                assert(now[k] == before[k]);
                let i = choose|i: int|
                    0 <= i < upto - 1 && outcomes[i] is Failed && before[k] == error_entry(
                        targets[i],
                        outcomes[i]->Failed_0,
                    );
                assert(0 <= i < upto && outcomes[i] is Failed && now[k] == error_entry(
                    targets[i],
                    outcomes[i]->Failed_0,
                ));
            } else {
                assert(outcomes[upto - 1] is Failed);
                assert(now[k] == error_entry(targets[upto - 1], outcomes[upto - 1]->Failed_0));
            }
        }
    }
}

/// Records every malformed target from the first unhandled one on, and
/// parses the next well-formed one.  `None` means that no target is left.
#[verifier::loop_isolation(false)]
pub fn next_target(targets: &Vec<String>, outcomes: &mut Vec<ItemOutcome>) -> (next: Option<
    BackendId,
>)
    requires
        old(outcomes)@.len() <= targets@.len(),
    ensures
        outcome_views(final(outcomes)@) == skip_malformed(
            texts(targets@),
            outcome_views(old(outcomes)@),
        ),
        final(outcomes)@.len() <= targets@.len(),
        match next {
            Some(id) => final(outcomes)@.len() < targets@.len() && id@ == canonical_id(
                targets@[final(outcomes)@.len() as int]@,
            ),
            None => final(outcomes)@.len() == targets@.len(),
        },
{
    let ghost start = outcome_views(outcomes@);
    let ghost names = texts(targets@);
    loop
        invariant
            names == texts(targets@),
            outcomes@.len() <= targets@.len(),
            skip_malformed(names, outcome_views(outcomes@)) == skip_malformed(names, start),
        decreases targets@.len() - outcomes@.len(),
    {
        let at = outcomes.len();
        let ghost seen = outcome_views(outcomes@);
        if at >= targets.len() {
            assert(skip_malformed(names, seen) == seen);
            return None;
        }
        assert(names[at as int] == targets@[at as int]@);
        match BackendId::parse(targets[at].as_str()) {
            Ok(id) => {
                assert(skip_malformed(names, seen) == seen);
                return Some(id);
            },
            Err(raw) => {
                let reason = join2("Invalid agent_id: Invalid LettaId format: ", raw.as_str());
                outcomes.push(ItemOutcome::Failed(reason));
                assert(outcome_views(outcomes@) =~= seen.push(
                    ItemOutcomeView::Failed(invalid_target_reason(names[at as int])),
                ));
            },
        }
    }
}

/// The entry for a target that failed.
pub fn make_error_entry(target: &String, reason: String) -> (entry: Json)
    ensures
        entry@ == error_entry(target@, reason@),
{
    let mut members: Vec<(String, Json)> = Vec::new();
    members.push((String::from_str("agent_id"), Json::text(target.clone())));
    members.push((String::from_str("success"), Json::boolean(false)));
    members.push((String::from_str("error"), Json::text(reason)));
    assert(member_views(members@) =~= seq![
        ("agent_id"@, JsonView::Str(target@)),
        ("success"@, JsonView::Bool(false)),
        ("error"@, JsonView::Str(reason@)),
    ]);
    Json::object(members)
}

/// Skipping malformed targets keeps what was recorded, records only
/// failures, one for each malformed target passed, and stops at a
/// well-formed target or at the end.
pub proof fn lemma_skip_malformed(targets: Seq<Seq<char>>, outcomes: Seq<ItemOutcomeView>)
    requires
        outcomes.len() <= targets.len(),
    ensures
        outcomes.len() <= skip_malformed(targets, outcomes).len() <= targets.len(),
        skip_malformed(targets, outcomes).subrange(0, outcomes.len() as int) == outcomes,
        forall|i: int|
            outcomes.len() <= i < skip_malformed(targets, outcomes).len() ==> !well_formed_id(
                targets[i],
            ) && #[trigger] skip_malformed(targets, outcomes)[i] == ItemOutcomeView::Failed(
                invalid_target_reason(targets[i]),
            ),
        skip_malformed(targets, outcomes).len() < targets.len() ==> well_formed_id(
            targets[skip_malformed(targets, outcomes).len() as int],
        ),
    decreases targets.len() - outcomes.len(),
{
    if outcomes.len() < targets.len() && !well_formed_id(targets[outcomes.len() as int]) {
        let next = outcomes.push(
            ItemOutcomeView::Failed(invalid_target_reason(targets[outcomes.len() as int])),
        );
        lemma_skip_malformed(targets, next);
        let reached = skip_malformed(targets, outcomes);
        assert(reached == skip_malformed(targets, next));
        assert(reached.subrange(0, outcomes.len() as int) =~= next.subrange(
            0,
            outcomes.len() as int,
        )) by {
            assert(reached.subrange(0, next.len() as int) == next);
            assert forall|i: int| 0 <= i < outcomes.len() implies reached.subrange(
                0,
                outcomes.len() as int,
            )[i] == next[i] by {
                assert(reached.subrange(0, next.len() as int)[i] == reached[i]);
            }
        }
        assert(next.subrange(0, outcomes.len() as int) =~= outcomes);
        assert forall|i: int| outcomes.len() <= i < reached.len() implies !well_formed_id(
            targets[i],
        ) && #[trigger] reached[i] == ItemOutcomeView::Failed(
            invalid_target_reason(targets[i]),
        ) by {
            if i == outcomes.len() {
                assert(reached.subrange(0, next.len() as int)[i] == reached[i]);
                assert(next[i] == ItemOutcomeView::Failed(invalid_target_reason(targets[i])));
            }
        }
    } else {
        assert(skip_malformed(targets, outcomes).subrange(0, outcomes.len() as int) =~= outcomes);
    }
}

} // verus!
