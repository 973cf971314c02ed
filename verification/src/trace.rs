//! Whole runs, and what holds of every one of them.

use crate::invocation::{chosen, conflicting, FlagsView, ModeView};
use crate::message::MessageView;
use crate::session::{first_step, last_step, next, ReplyView, RequestView, StateView, StepView};
use vstd::prelude::*;

verus! {

/// The steps taken from `state` as `replies` arrive in their order. The run
/// stops where the replies end, and at a reply that the state does not wait for.
pub open spec fn steps_from(state: StateView, replies: Seq<ReplyView>) -> Seq<StepView>
    decreases replies.len(),
{
    if replies.len() == 0 {
        Seq::empty()
    } else {
        match next(state, replies.first()) {
            Some(step) => seq![step] + steps_from(step.state, replies.drop_first()),
            None => Seq::empty(),
        }
    }
}

/// The steps of a run in `mode` whose requests are answered by `replies`.
pub open spec fn run(mode: ModeView, replies: Seq<ReplyView>) -> Seq<StepView> {
    seq![first_step(mode)] + steps_from(StateView::Opening(mode), replies)
}

/// The four things that a run can be for.
#[derive(Clone, Copy, Debug, PartialEq, Eq, Structural)]
pub enum Work {
    StoresKey,
    DeletesKey,
    PrintsKey,
    AsksQuestion,
}

/// What `mode` is for.
pub open spec fn work_of(mode: ModeView) -> Work {
    match mode {
        ModeView::StoreKey(_) => Work::StoresKey,
        ModeView::DeleteKey => Work::DeletesKey,
        ModeView::PrintKey => Work::PrintsKey,
        ModeView::AskQuestion(_) => Work::AsksQuestion,
    }
}

/// The work that `step` does, if any: it has a secret written, has the secret
/// removed, shows the key, or sends a question.
pub open spec fn done_by(step: StepView) -> Option<Work> {
    match step.request {
        RequestView::SetSecret(_) => Some(Work::StoresKey),
        RequestView::DeleteSecret => Some(Work::DeletesKey),
        RequestView::Complete { .. } => Some(Work::AsksQuestion),
        _ => if exists|i: int| 0 <= i < step.messages.len() && step.messages[i] is KeyValue {
            Some(Work::PrintsKey)
        } else {
            None
        },
    }
}

/// `steps` do work at position `at` and nowhere else.
pub open spec fn works_only_at(steps: Seq<StepView>, at: int) -> bool {
    &&& 0 <= at < steps.len()
    &&& done_by(steps[at]) is Some
    &&& forall|i: int| 0 <= i < steps.len() && i != at ==> done_by(#[trigger] steps[i]) is None
}

/// The run has ended, with status 0.
pub open spec fn ended_well(steps: Seq<StepView>) -> bool {
    steps.len() > 0 && steps.last().request == RequestView::Exit(0)
}

/// The work that can still be done from `state`.
spec fn pending(state: StateView) -> Option<Work> {
    match state {
        StateView::Opening(mode) => Some(work_of(mode)),
        StateView::Revealing => Some(Work::PrintsKey),
        StateView::Unlocking(_) => Some(Work::AsksQuestion),
        StateView::Prompting(_) => Some(Work::AsksQuestion),
        _ => None,
    }
}

proof fn lemma_work_is_pending(state: StateView, replies: Seq<ReplyView>)
    ensures
        forall|i: int|
            0 <= i < steps_from(state, replies).len() ==> {
                let done = done_by(#[trigger] steps_from(state, replies)[i]);
                done is None || done == pending(state)
            },
    decreases replies.len(),
{
    if replies.len() > 0 {
        if let Some(step) = next(state, replies.first()) {
            lemma_work_is_pending(step.state, replies.drop_first());
            let rest = steps_from(step.state, replies.drop_first());
            assert forall|i: int| 0 <= i < steps_from(state, replies).len() implies {
                let done = done_by(#[trigger] steps_from(state, replies)[i]);
                done is None || done == pending(state)
            } by {
                if i > 0 {
                    assert(steps_from(state, replies)[i] == rest[i - 1]);
                }
            }
        }
    }
}

/// Flags that do not exclude each other select exactly one mode: storing if a
/// value to store was given, else deleting or printing if that flag is set,
/// and asking a question if none of the three is.
pub proof fn lemma_flags_select_one_mode(flags: FlagsView)
    requires
        !conflicting(flags),
    ensures
        chosen(flags) is Ok,
        work_of(chosen(flags)->Ok_0) == Work::StoresKey <==> flags.store_key is Some,
        work_of(chosen(flags)->Ok_0) == Work::DeletesKey <==> flags.delete_key,
        work_of(chosen(flags)->Ok_0) == Work::PrintsKey <==> flags.print_key,
        work_of(chosen(flags)->Ok_0) == Work::AsksQuestion <==> flags.store_key is None
            && !flags.delete_key && !flags.print_key,
{
}

/// Whatever the replies, no step of a run does the work of another mode than
/// the one selected.
pub proof fn lemma_only_the_selected_mode_works(mode: ModeView, replies: Seq<ReplyView>)
    ensures
        forall|i: int|
            0 <= i < run(mode, replies).len() ==> {
                let done = done_by(#[trigger] run(mode, replies)[i]);
                done is None || done == Some(work_of(mode))
            },
{
    lemma_work_is_pending(StateView::Opening(mode), replies);
    let rest = steps_from(StateView::Opening(mode), replies);
    assert forall|i: int| 0 <= i < run(mode, replies).len() implies {
        let done = done_by(#[trigger] run(mode, replies)[i]);
        done is None || done == Some(work_of(mode))
    } by {
        if i > 0 {
            assert(run(mode, replies)[i] == rest[i - 1]);
        }
    }
}

/// A run that ends with status 0 has done the work of its mode, in exactly one
/// of its steps.
pub proof fn lemma_successful_run_works_once(mode: ModeView, replies: Seq<ReplyView>)
    requires
        ended_well(run(mode, replies)),
    ensures
        exists|at: int|
            works_only_at(run(mode, replies), at) && done_by(run(mode, replies)[at]) == Some(
                work_of(mode),
            ),
{
    reveal_with_fuel(steps_from, 6);
    let steps = run(mode, replies);
    match mode {
        ModeView::StoreKey(_) => {
            assert(works_only_at(steps, 1));
        },
        ModeView::DeleteKey => {
            assert(works_only_at(steps, 1));
        },
        ModeView::PrintKey => {
            assert(steps[2].messages[0] is KeyValue);
            assert(works_only_at(steps, 2));
        },
        ModeView::AskQuestion(tokens) => {
            if tokens.len() == 0 {
                assert(works_only_at(steps, 3));
            } else {
                assert(works_only_at(steps, 2));
            }
        },
    }
}

/// No reply of the driver carries a secret.
pub open spec fn without_secret(replies: Seq<ReplyView>) -> bool {
    forall|i: int| 0 <= i < replies.len() ==> !(#[trigger] replies[i] is Secret)
}

/// `step` sends a question that is authorised by `credential`.
pub open spec fn sends_with(step: StepView, credential: Seq<char>) -> bool {
    step.request matches RequestView::Complete { credential: used, .. } && used == credential
}

/// One of the first `count` replies hands over `secret`.
pub open spec fn replied_within(replies: Seq<ReplyView>, count: int, secret: Seq<char>) -> bool {
    exists|j: int| 0 <= j < count && j < replies.len() && replies[j] == ReplyView::Secret(secret)
}

/// A question sent from `state` is authorised by the credential that the
/// state holds, or by a secret replied since.
proof fn lemma_credential_was_replied(state: StateView, replies: Seq<ReplyView>)
    ensures
        forall|i: int, credential: Seq<char>|
            0 <= i < steps_from(state, replies).len() && #[trigger] sends_with(
                steps_from(state, replies)[i],
                credential,
            ) ==> state == StateView::Prompting(credential) || replied_within(
                replies,
                i + 1,
                credential,
            ),
    decreases replies.len(),
{
    if replies.len() > 0 {
        if let Some(step) = next(state, replies.first()) {
            let later = replies.drop_first();
            lemma_credential_was_replied(step.state, later);
            let rest = steps_from(step.state, later);
            assert forall|i: int, credential: Seq<char>|
                0 <= i < steps_from(state, replies).len() && #[trigger] sends_with(
                    steps_from(state, replies)[i],
                    credential,
                ) implies state == StateView::Prompting(credential) || replied_within(
                replies,
                i + 1,
                credential,
            ) by {
                if i == 0 {
                    if state != StateView::Prompting(credential) {
                        assert(replies[0] == ReplyView::Secret(credential));
                    }
                } else {
                    assert(steps_from(state, replies)[i] == rest[i - 1]);
                    if step.state == StateView::Prompting(credential) {
                        assert(replies[0] == ReplyView::Secret(credential));
                    } else {
                        let j = choose|j: int|
                            0 <= j < i && j < later.len() && later[j] == ReplyView::Secret(
                                credential,
                            );
                        assert(replies[j + 1] == ReplyView::Secret(credential));
                    }
                }
            }
        }
    }
}

/// The completion service is only asked on behalf of a credential that the
/// store handed over: a step that sends a question is authorised by the
/// secret of a reply that came before it, taken as it was.
pub proof fn lemma_question_carries_a_replied_secret(mode: ModeView, replies: Seq<ReplyView>)
    ensures
        forall|i: int, credential: Seq<char>|
            0 <= i < run(mode, replies).len() && #[trigger] sends_with(
                run(mode, replies)[i],
                credential,
            ) ==> replied_within(replies, i, credential),
{
    lemma_credential_was_replied(StateView::Opening(mode), replies);
    let rest = steps_from(StateView::Opening(mode), replies);
    assert forall|i: int, credential: Seq<char>|
        0 <= i < run(mode, replies).len() && #[trigger] sends_with(
            run(mode, replies)[i],
            credential,
        ) implies replied_within(replies, i, credential) by {
        if i > 0 {
            assert(run(mode, replies)[i] == rest[i - 1]);
        }
    }
}

/// A run to which the store never hands a secret sends nothing to the
/// completion service, in whatever mode and whatever else is replied.
pub proof fn lemma_no_secret_no_question(mode: ModeView, replies: Seq<ReplyView>)
    requires
        without_secret(replies),
    ensures
        forall|i: int|
            0 <= i < run(mode, replies).len() ==> !(#[trigger] run(mode, replies)[i].request
                is Complete),
{
    lemma_question_carries_a_replied_secret(mode, replies);
    assert forall|i: int| 0 <= i < run(mode, replies).len() implies !(#[trigger] run(
        mode,
        replies,
    )[i].request is Complete) by {
        if let RequestView::Complete { credential, .. } = run(mode, replies)[i].request {
            assert(sends_with(run(mode, replies)[i], credential));
            let j = choose|j: int|
                0 <= j < i && j < replies.len() && replies[j] == ReplyView::Secret(credential);
            assert(replies[j] is Secret);
        }
    }
}

/// Where the secret cannot be read, a run that needs it takes three steps: it
/// opens the entry, asks for the secret, and ends with status 1 and the advice
/// to store a key. This holds for every reason of the failure, and whatever
/// replies might follow.
pub proof fn lemma_missing_key_ends_run(
    mode: ModeView,
    reason: Seq<char>,
    later: Seq<ReplyView>,
)
    requires
        mode is PrintKey || mode is AskQuestion,
    ensures
        ({
            let steps = run(mode, seq![ReplyView::Done, ReplyView::Failed(reason)] + later);
            &&& steps.len() == 3
            &&& steps[0] == first_step(mode)
            &&& steps[1].messages == Seq::<MessageView>::empty()
            &&& steps[1].request == RequestView::GetSecret
            &&& steps[2] == last_step(seq![MessageView::KeyMissing], 1)
        }),
{
    reveal_with_fuel(steps_from, 4);
}

/// The library hands secrets on as they are: the store is asked to keep
/// exactly the value given for storing, and the key shown is exactly the
/// secret that the store gave back.
pub proof fn lemma_secret_passes_unchanged(secret: Seq<char>, later: Seq<ReplyView>)
    ensures
        run(ModeView::StoreKey(secret), seq![ReplyView::Done] + later)[1].request
            == RequestView::SetSecret(secret),
        ({
            let replies = seq![ReplyView::Done, ReplyView::Secret(secret)] + later;
            let steps = run(ModeView::PrintKey, replies);
            &&& steps.len() == 3
            &&& steps[1].request == RequestView::GetSecret
            &&& steps[2] == last_step(seq![MessageView::KeyValue(secret)], 0)
        }),
{
    reveal_with_fuel(steps_from, 4);
}

} // verus!
