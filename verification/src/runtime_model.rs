//! What a setup comes to, against any runtime and against a complete one.
//!
//! The first part holds whatever the runtime answers. The second part puts
//! the setup against a runtime that has every class and method the override
//! needs, and says what a whole setup then does to the process and what it
//! reports: the first installs the override, a second one takes it out again.

use vstd::prelude::*;
use crate::identity::{spoofed_identifier, IdentityOverrideModel};
use crate::setup::{answers, first_action, step, RuntimeAnswer, RuntimeRequest, SetupAction};

verus! {

/// The place of a request in the series, counted from 0.
pub open spec fn position(request: RuntimeRequest) -> nat {
    match request {
        RuntimeRequest::LookupRootClass => 0,
        RuntimeRequest::RegisterOverrideClass => 1,
        RuntimeRequest::LookupBundleClass => 2,
        RuntimeRequest::LookupIdentityMethod => 3,
        RuntimeRequest::LookupOverrideClass => 4,
        RuntimeRequest::LookupOverrideMethod => 5,
        RuntimeRequest::ExchangeImplementations => 6,
        RuntimeRequest::QueryBundleIdentifier => 7,
    }
}

/// The number of requests in the series.
pub open spec fn series_length() -> nat {
    8
}

/// The setup after the runtime gave `replies`, oldest first, starting from
/// the action `pending` in a process in the state `process`.
pub open spec fn after_replies(
    pending: SetupAction,
    process: IdentityOverrideModel,
    replies: Seq<RuntimeAnswer>,
) -> (SetupAction, IdentityOverrideModel)
    decreases replies.len(),
{
    if replies.len() == 0 {
        (pending, process)
    } else {
        let before = after_replies(pending, process, replies.drop_last());
        step(before.0, before.1, replies.last())
    }
}

/// An answer that says that something is missing ends the setup, whatever
/// was asked, and changes nothing in the process.
pub proof fn lemma_missing_is_fatal(request: RuntimeRequest, process: IdentityOverrideModel)
    ensures
        step(SetupAction::Ask(request), process, RuntimeAnswer::Missing) == (
            SetupAction::Abort,
            process,
        ),
{
}

/// A setup that is over stays over, with the same result, and changes the
/// process no more.
pub proof fn lemma_end_is_final(
    pending: SetupAction,
    process: IdentityOverrideModel,
    answer: RuntimeAnswer,
)
    requires
        !(pending is Ask),
    ensures
        step(pending, process, answer) == (pending, process),
{
}

/// The setup reports `true` exactly when the main bundle, asked after the
/// exchange, gave the spoofed identifier. It reports `false` when the bundle
/// gave another identifier or none.
pub proof fn lemma_report_is_the_identifier_check(
    process: IdentityOverrideModel,
    identifier: Option<Seq<char>>,
)
    ensures
        step(
            SetupAction::Ask(RuntimeRequest::QueryBundleIdentifier),
            process,
            RuntimeAnswer::Identifier(identifier),
        ) == (SetupAction::Finished(identifier == Some(spoofed_identifier())), process),
{
}

/// The request at a place of the series.
pub open spec fn request_at(place: nat) -> RuntimeRequest {
    if place == 0 {
        RuntimeRequest::LookupRootClass
    } else if place == 1 {
        RuntimeRequest::RegisterOverrideClass
    } else if place == 2 {
        RuntimeRequest::LookupBundleClass
    } else if place == 3 {
        RuntimeRequest::LookupIdentityMethod
    } else if place == 4 {
        RuntimeRequest::LookupOverrideClass
    } else if place == 5 {
        RuntimeRequest::LookupOverrideMethod
    } else if place == 6 {
        RuntimeRequest::ExchangeImplementations
    } else {
        RuntimeRequest::QueryBundleIdentifier
    }
}

/// The process once a setup has got the requests before `place` answered:
/// the class is registered once the registration is behind, and the
/// implementations are exchanged once the exchange is.
pub open spec fn process_at(process: IdentityOverrideModel, place: nat) -> IdentityOverrideModel {
    IdentityOverrideModel {
        class_registered: process.class_registered || place > position(
            RuntimeRequest::RegisterOverrideClass,
        ),
        active: process.active != (place > position(RuntimeRequest::ExchangeImplementations)),
    }
}

/// Whether each of the first `count` replies answers the request that was
/// pending when it came, in a setup that started at the place `first`.
pub open spec fn answered(first: nat, replies: Seq<RuntimeAnswer>, count: int) -> bool {
    forall|i: int|
        0 <= i < count ==> answers(request_at((first + i) as nat), #[trigger] replies[i])
}

/// Where a setup stands after any replies at all.
///
/// A setup walks the series from its first request for as long as each reply
/// answers the request that is pending, and no further:
/// - it still asks when all replies did, and then for the request that many
///   places on. So the exchange is asked for only when both classes and both
///   methods were found, and the identifier only after the exchange;
/// - it has finished when the replies went through to the end of the series,
///   and reports whether the reply to the last request was the spoofed
///   identifier; replies that came later changed nothing;
/// - it was aborted at the first reply that did not answer its request.
/// In each case the process holds the registration and the exchange exactly
/// where the setup has got past them.
pub proof fn lemma_setup_progress(process: IdentityOverrideModel, replies: Seq<RuntimeAnswer>)
    ensures
        ({
            let first = position(first_action(process)->Ask_0);
            let (pending, after) = after_replies(first_action(process), process, replies);
            match pending {
                SetupAction::Ask(request) => {
                    &&& first + replies.len() < series_length()
                    &&& request == request_at(first + replies.len())
                    &&& answered(first, replies, replies.len() as int)
                    &&& after == process_at(process, first + replies.len())
                },
                SetupAction::Finished(outcome) => {
                    &&& first + replies.len() >= series_length()
                    &&& answered(first, replies, series_length() - first)
                    &&& outcome == (replies[series_length() - first - 1]
                        == RuntimeAnswer::Identifier(Some(spoofed_identifier())))
                    &&& after == process.registered().exchanged()
                },
                SetupAction::Abort => exists|k: int|
                    {
                        &&& 0 <= k < replies.len()
                        &&& first + k < series_length()
                        &&& answered(first, replies, k)
                        &&& !answers(request_at((first + k) as nat), #[trigger] replies[k])
                        &&& after == process_at(process, (first + k) as nat)
                    },
            }
        }),
    decreases replies.len(),
{
    let first = position(first_action(process)->Ask_0);
    if replies.len() > 0 {
        let earlier = replies.drop_last();
        lemma_setup_progress(process, earlier);
        let before = after_replies(first_action(process), process, earlier);
        let (pending, after) = after_replies(first_action(process), process, replies);
        assert((pending, after) == step(before.0, before.1, replies.last()));
        assert forall|i: int| 0 <= i < earlier.len() implies earlier[i] == replies[i] by {}
        match before.0 {
            SetupAction::Ask(request) => {
                assert(replies[earlier.len() as int] == replies.last());
                if !answers(request, replies.last()) {
                    let k = earlier.len() as int;
                    assert(answered(first, replies, k));
                    assert(!answers(request_at((first + k) as nat), replies[k]));
                } else {
                    assert(answered(first, replies, replies.len() as int));
                }
            },
            SetupAction::Finished(outcome) => {
                assert(answered(first, replies, series_length() - first));
            },
            SetupAction::Abort => {
                let k = choose|k: int|
                    {
                        &&& 0 <= k < earlier.len()
                        &&& first + k < series_length()
                        &&& answered(first, earlier, k)
                        &&& !answers(request_at((first + k) as nat), #[trigger] earlier[k])
                        &&& before.1 == process_at(process, (first + k) as nat)
                    };
                assert(answered(first, replies, k));
                assert(!answers(request_at((first + k) as nat), replies[k]));
            },
        }
    }
}

/// The exchange is asked for only when every reply before it said `Found`:
/// when the runtime has both classes and both methods. Up to then the
/// process was changed by the registration at most.
pub proof fn lemma_exchange_needs_every_lookup(
    process: IdentityOverrideModel,
    replies: Seq<RuntimeAnswer>,
)
    requires
        after_replies(first_action(process), process, replies).0 == SetupAction::Ask(
            RuntimeRequest::ExchangeImplementations,
        ),
    ensures
        forall|i: int| 0 <= i < replies.len() ==> #[trigger] replies[i] is Found,
        after_replies(first_action(process), process, replies).1 == process.registered(),
{
    lemma_setup_progress(process, replies);
    let first = position(first_action(process)->Ask_0);
    assert forall|i: int| 0 <= i < replies.len() implies #[trigger] replies[i] is Found by {
        assert(answers(request_at((first + i) as nat), replies[i]));
    }
}

/// A setup is over after as many replies as the series has requests, at the
/// latest.
pub proof fn lemma_setup_ends(process: IdentityOverrideModel, replies: Seq<RuntimeAnswer>)
    requires
        replies.len() >= series_length(),
    ensures
        !(after_replies(first_action(process), process, replies).0 is Ask),
{
    lemma_setup_progress(process, replies);
}

/// What a runtime that has the bundle class and its identity method answers
/// to `request`, in a process in the state `process` whose bundle has the
/// identifier `genuine`.
///
/// It registers the override class once and refuses to register it again. It
/// answers the identity query by the implementation that the method table
/// holds for it at that time.
pub open spec fn complete_runtime_answer(
    request: RuntimeRequest,
    process: IdentityOverrideModel,
    genuine: Option<Seq<char>>,
) -> RuntimeAnswer {
    match request {
        RuntimeRequest::LookupRootClass => RuntimeAnswer::Found,
        RuntimeRequest::RegisterOverrideClass => if process.class_registered {
            RuntimeAnswer::Missing
        } else {
            RuntimeAnswer::Found
        },
        RuntimeRequest::LookupBundleClass => RuntimeAnswer::Found,
        RuntimeRequest::LookupIdentityMethod => RuntimeAnswer::Found,
        RuntimeRequest::LookupOverrideClass => if process.class_registered {
            RuntimeAnswer::Found
        } else {
            RuntimeAnswer::Missing
        },
        RuntimeRequest::LookupOverrideMethod => if process.class_registered {
            RuntimeAnswer::Found
        } else {
            RuntimeAnswer::Missing
        },
        RuntimeRequest::ExchangeImplementations => RuntimeAnswer::Exchanged,
        RuntimeRequest::QueryBundleIdentifier => RuntimeAnswer::Identifier(
            process.visible_identifier(genuine),
        ),
    }
}

/// The setup after at most `steps` requests were put to a complete runtime.
pub open spec fn against_complete_runtime(
    pending: SetupAction,
    process: IdentityOverrideModel,
    genuine: Option<Seq<char>>,
    steps: nat,
) -> (SetupAction, IdentityOverrideModel)
    decreases steps,
{
    match pending {
        SetupAction::Ask(request) if steps > 0 => {
            let next = step(pending, process, complete_runtime_answer(request, process, genuine));
            against_complete_runtime(next.0, next.1, genuine, (steps - 1) as nat)
        },
        _ => (pending, process),
    }
}

/// A whole setup against a complete runtime: how it ends, and the process
/// after it.
pub open spec fn apply(process: IdentityOverrideModel, genuine: Option<Seq<char>>) -> (
    SetupAction,
    IdentityOverrideModel,
) {
    against_complete_runtime(first_action(process), process, genuine, series_length())
}

/// Against a complete runtime a setup always finishes. It leaves the override
/// class registered and the implementations exchanged once more than before,
/// and it reports whether the identity query, as it is answered after the
/// exchange, gives the spoofed identifier.
pub proof fn lemma_apply(process: IdentityOverrideModel, genuine: Option<Seq<char>>)
    ensures
        apply(process, genuine) == (
            SetupAction::Finished(
                process.exchanged().visible_identifier(genuine) == Some(spoofed_identifier()),
            ),
            process.registered().exchanged(),
        ),
{
    reveal_with_fuel(against_complete_runtime, 9);
}

/// The first setup in a process installs the override and reports `true`,
/// whatever the bundle's own identifier is, and also where it has none.
pub proof fn lemma_first_apply_installs(genuine: Option<Seq<char>>)
    ensures
        apply(IdentityOverrideModel::unapplied(), genuine) == (
            SetupAction::Finished(true),
            IdentityOverrideModel { class_registered: true, active: true },
        ),
{
    lemma_apply(IdentityOverrideModel::unapplied(), genuine);
}

/// A second setup in the same process takes the override out again: the
/// identity query then gives the bundle's own identifier, and the setup
/// reports `false`.
///
/// This does not hold of a process whose bundle has the spoofed identifier
/// of its own: there the query gives it with and without the override.
pub proof fn lemma_second_apply_reverts(genuine: Option<Seq<char>>)
    requires
        genuine != Some(spoofed_identifier()),
    ensures
        ({
            let first = apply(IdentityOverrideModel::unapplied(), genuine);
            let second = apply(first.1, genuine);
            &&& second.0 == SetupAction::Finished(false)
            &&& !second.1.active
            &&& second.1.visible_identifier(genuine) == genuine
            &&& second.1.visible_identifier(genuine) != Some(spoofed_identifier())
        }),
{
    lemma_first_apply_installs(genuine);
    lemma_apply(IdentityOverrideModel { class_registered: true, active: true }, genuine);
}

} // verus!
