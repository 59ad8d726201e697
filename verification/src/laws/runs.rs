//! A message is run at most once, and how it ended is recorded as Codex confirmed it.
use crate::codex_execution::TurnIdentity;
use crate::direct_store::{
    abandon_direct_unknown, direct_recovery_offer, direct_unknown_blocker, recover_direct_unknown,
    DirectRecoveryOffer, Hold, PrepareFacts, RecoverFacts, RecoveryFacts, RunRecord, SendFacts,
    SendState,
};
use crate::domain::RequestState;
use crate::text::{opt_view, utf8_len};
use vstd::prelude::*;

verus! {

/// A run ends as Codex confirmed it: `completed` is recorded as completed and needs its stored
/// answer, `failed` as failed, `interrupted` as cancelled, and no other status ends it. Only the
/// turn that was recorded ends the run.
pub proof fn runs_end_as_confirmed(
    rec: &mut RunRecord,
    identity: &TurnIdentity,
    status: &str,
    has_answer: bool,
    r: Result<(), &'static str>,
)
    requires
        call_ensures(RunRecord::finish_direct, (rec, identity, status, has_answer), r),
    ensures
        r is Ok && status@ == "completed"@ ==> final(rec).state == RequestState::Completed
            && has_answer,
        r is Ok && status@ == "failed"@ ==> final(rec).state == RequestState::Failed,
        r is Ok && status@ == "interrupted"@ ==> final(rec).state == RequestState::Cancelled,
        r is Ok ==> (final(rec).state == RequestState::Completed <==> status@ == "completed"@),
        r is Ok ==> (final(rec).state == RequestState::Failed <==> status@ == "failed"@),
        r is Ok ==> (final(rec).state == RequestState::Cancelled <==> status@ == "interrupted"@),
        r is Ok ==> final(rec).send == Some(SendState::Terminal),
        r is Ok <==> {
            &&& status@ == "completed"@ && has_answer || status@ == "failed"@ || status@
                == "interrupted"@
            &&& old(rec).send == Some(SendState::Acked) || old(rec).send == Some(SendState::Unknown)
            &&& old(rec).codex_thread is Some && old(rec).codex_thread->0@ == identity.thread_id@
            &&& old(rec).codex_turn is Some && old(rec).codex_turn->0@ == identity.turn_id@
            &&& old(rec).state == RequestState::Running || old(rec).state
                == RequestState::ApprovalRequired || old(rec).state == RequestState::CancelRequested
                || old(rec).state == RequestState::Unknown
        },
        r is Ok ==> final(rec).started == old(rec).started && final(rec).eligible
            == old(rec).eligible,
        r is Ok ==> opt_view(final(rec).codex_thread) == opt_view(old(rec).codex_thread)
            && opt_view(final(rec).codex_turn) == opt_view(old(rec).codex_turn),
        r is Ok && old(rec).hold is Held && old(rec).hold->Held_0 < i64::MAX ==> final(rec).hold
            is Released && final(rec).hold->Released_0 == old(rec).hold->Held_0 + 1,
        r is Ok && !(old(rec).hold is Held) ==> final(rec).hold == old(rec).hold,
        r is Err ==> final(rec)@ == old(rec)@ && final(rec).state == old(rec).state,
{
    reveal_strlit("completed");
    reveal_strlit("failed");
    reveal_strlit("interrupted");
    assert("completed"@.len() == 9 && "failed"@.len() == 6 && "interrupted"@.len() == 11);
}

/// A message is sent only once it was prepared and while it is queued, was never sent, is eligible
/// and may be: nothing is being restored, its conversation is neither paused nor occupied and has a
/// model, its project is active, fewer than two runs are going on and no earlier message waits.
/// Sending is recorded as such, and the conversation is then held.
pub proof fn messages_are_sent_when_due(
    rec: &mut RunRecord,
    f: &SendFacts,
    r: Result<(), &'static str>,
)
    requires
        call_ensures(RunRecord::begin_direct_send, (rec, f), r),
    ensures
        r is Ok <==> {
            &&& old(rec).send == Some(SendState::Prepared)
            &&& old(rec).state == RequestState::Queued
            &&& !old(rec).started
            &&& old(rec).eligible
            &&& !f.recovery_pending
            &&& !f.paused
            &&& f.dispatchable
            &&& f.has_model
            &&& f.project_active
            &&& !f.model_validating
            &&& f.occupied < 2
            &&& !f.conversation_occupied
            &&& !f.earlier_waiting
        },
        r is Ok ==> final(rec).state == RequestState::Sending && final(rec).started
            && !final(rec).eligible && final(rec).send == Some(SendState::Sending)
            && final(rec).hold == Hold::Held(f.generation),
        r is Ok ==> opt_view(final(rec).codex_thread) == opt_view(old(rec).codex_thread)
            && opt_view(final(rec).codex_turn) == opt_view(old(rec).codex_turn),
        r is Err ==> final(rec)@ == old(rec)@,
{
}

/// A message that was ever sent is neither prepared nor sent again.
pub proof fn sent_messages_are_not_sent_again(
    rec: &mut RunRecord,
    f: &SendFacts,
    p: &PrepareFacts,
    sent: Result<(), &'static str>,
    prepared: Result<bool, &'static str>,
)
    requires
        rec.started,
        call_ensures(RunRecord::begin_direct_send, (rec, f), sent)
            || call_ensures(RunRecord::prepare_direct, (rec, p), prepared),
    ensures
        call_ensures(RunRecord::begin_direct_send, (rec, f), sent) ==> sent is Err,
        call_ensures(RunRecord::prepare_direct, (rec, p), prepared) ==> prepared is Err,
{
}

/// A message is prepared while it is queued, unsent and eligible, in the folder that its
/// conversation is bound to, and where no proxy executed it or its conversation.
pub proof fn messages_are_prepared_unsent(
    rec: &mut RunRecord,
    f: &PrepareFacts,
    r: Result<bool, &'static str>,
)
    requires
        call_ensures(RunRecord::prepare_direct, (rec, f), r),
    ensures
        r is Ok <==> {
            &&& old(rec).state == RequestState::Queued
            &&& !old(rec).started
            &&& old(rec).eligible
            &&& !f.proxy_identity
            &&& f.binding_kept
            &&& f.direct_mode || (!f.proxy_boundary && !f.legacy_execution)
            &&& old(rec).send is None || old(rec).send == Some(SendState::Prepared)
        },
        r is Ok ==> r->Ok_0 == (old(rec).send is None),
        r is Ok ==> final(rec).send == Some(SendState::Prepared) && final(rec).state
            == RequestState::Queued && !final(rec).started && final(rec).eligible && final(rec).hold
            == old(rec).hold,
        r is Err ==> final(rec)@ == old(rec)@,
{
}

/// The thread of a run is recorded while it is being sent, and a conversation that has a thread
/// keeps it.
pub proof fn conversations_keep_their_thread(
    rec: &mut RunRecord,
    bound: Option<&str>,
    thread: &str,
    r: Result<(), &'static str>,
)
    requires
        call_ensures(RunRecord::record_direct_thread, (rec, bound, thread), r),
    ensures
        r is Ok <==> old(rec).send == Some(SendState::Sending) && (bound is None || bound->0@
            == thread@),
        r is Ok ==> final(rec).codex_thread is Some && final(rec).codex_thread->0@ == thread@
            && opt_view(final(rec).codex_turn) == opt_view(old(rec).codex_turn),
        r is Ok ==> final(rec).state == old(rec).state && final(rec).send == old(rec).send
            && final(rec).started == old(rec).started && final(rec).hold == old(rec).hold,
        r is Err ==> final(rec)@ == old(rec)@,
{
}

/// A turn that Codex reported is recorded as running, in the thread of its conversation.
pub proof fn reported_turns_run(
    rec: &mut RunRecord,
    bound: Option<&str>,
    thread: &str,
    turn: &str,
    r: Result<(), &'static str>,
)
    requires
        call_ensures(RunRecord::acknowledge_direct_turn, (rec, bound, thread, turn), r),
    ensures
        r is Ok <==> old(rec).send == Some(SendState::Sending) && old(rec).state
            == RequestState::Sending && (bound is None || bound->0@ == thread@),
        r is Ok ==> final(rec).state == RequestState::Running && final(rec).send == Some(
            SendState::Acked,
        ) && final(rec).codex_thread is Some && final(rec).codex_thread->0@ == thread@
            && final(rec).codex_turn is Some && final(rec).codex_turn->0@ == turn@,
        r is Ok ==> final(rec).started == old(rec).started && final(rec).hold == old(rec).hold,
        r is Err ==> final(rec)@ == old(rec)@,
{
}

/// A run whose outcome is open is recorded as unknown, and as nothing else: it keeps its hold, its
/// thread and its turn. One that is unsent or ended is left as it is.
pub proof fn open_outcomes_are_unknown(rec: &mut RunRecord, r: Result<(), &'static str>)
    requires
        call_ensures(RunRecord::mark_direct_unknown, (rec,), r),
    ensures
        r is Ok <==> old(rec).state == RequestState::Sending || old(rec).state
            == RequestState::Running || old(rec).state == RequestState::ApprovalRequired || old(
            rec).state == RequestState::CancelRequested || old(rec).state == RequestState::Unknown,
        r is Ok ==> final(rec).state == RequestState::Unknown && final(rec).hold == old(rec).hold
            && final(rec).started == old(rec).started && final(rec).eligible == old(rec).eligible,
        r is Ok && (old(rec).send == Some(SendState::Sending) || old(rec).send == Some(
            SendState::Acked,
        )) ==> final(rec).send == Some(SendState::Unknown),
        r is Ok ==> opt_view(final(rec).codex_thread) == opt_view(old(rec).codex_thread)
            && opt_view(final(rec).codex_turn) == opt_view(old(rec).codex_turn),
        r is Err ==> final(rec)@ == old(rec)@,
{
}

/// After a restart every run that was being sent or going on is unknown, and no other changes. None
/// is sent again.
pub proof fn restarts_leave_runs_unknown(rec: &mut RunRecord, r: bool)
    requires
        call_ensures(RunRecord::fence_direct_after_restart, (rec,), r),
    ensures
        r <==> old(rec).send == Some(SendState::Sending) || old(rec).send == Some(SendState::Acked),
        !r ==> final(rec)@ == old(rec)@ && final(rec).state == old(rec).state,
        r ==> final(rec).send == Some(SendState::Unknown),
        r && old(rec).state != RequestState::Completed && old(rec).state != RequestState::Failed
            && old(rec).state != RequestState::Cancelled ==> final(rec).state
            == RequestState::Unknown,
        r && (old(rec).state == RequestState::Completed || old(rec).state == RequestState::Failed
            || old(rec).state == RequestState::Cancelled) ==> final(rec).state == old(rec).state,
        final(rec).started == old(rec).started,
        final(rec).eligible == old(rec).eligible,
        final(rec).hold == old(rec).hold,
{
}

/// A run fails before it is sent only while it is queued and was never sent; it is then recorded as
/// failed and is not sent any more.
pub proof fn unsent_runs_fail(rec: &mut RunRecord, r: Result<(), &'static str>)
    requires
        call_ensures(RunRecord::fail_direct_before_send, (rec,), r),
    ensures
        r is Ok <==> old(rec).state == RequestState::Queued && !old(rec).started,
        r is Ok ==> final(rec).state == RequestState::Failed && !final(rec).eligible
            && !final(rec).started && final(rec).send == old(rec).send,
        r is Err ==> final(rec)@ == old(rec)@,
{
}

/// A waiting message is cancelled only while it was never sent; it is then recorded as cancelled and
/// is not sent any more.
pub proof fn waiting_messages_are_cancelled(rec: &mut RunRecord, r: Result<(), &'static str>)
    requires
        call_ensures(RunRecord::cancel_unsent, (rec,), r),
    ensures
        r is Ok <==> (old(rec).state == RequestState::Received || old(rec).state
            == RequestState::Queued) && !old(rec).started,
        r is Ok ==> final(rec).state == RequestState::Cancelled && !final(rec).eligible
            && !final(rec).started && final(rec).send == old(rec).send,
        r is Err ==> final(rec)@ == old(rec)@,
{
}

/// Only the hold of a run whose outcome is unknown is released, and only under the generation that
/// it has. The run stays unknown.
pub proof fn holds_are_released_as_named(
    rec: &mut RunRecord,
    generation: i64,
    r: Result<(), &'static str>,
)
    requires
        call_ensures(RunRecord::release, (rec, generation), r),
        generation < i64::MAX,
    ensures
        r is Ok <==> old(rec).state == RequestState::Unknown && old(rec).send == Some(
            SendState::Unknown,
        ) && old(rec).hold == Hold::Held(generation),
        r is Ok ==> final(rec).state == RequestState::Unknown && final(rec).send == Some(
            SendState::Unknown,
        ) && final(rec).hold is Released && final(rec).hold->Released_0 == generation + 1
            && final(rec).started == old(rec).started,
        r is Err ==> final(rec)@ == old(rec)@,
{
}

/// An operator gives an unknown run up with a reason, and only where its conversation holds and
/// runs nothing else.
pub proof fn runs_are_abandoned_with_a_reason(
    reason: &str,
    rec: &mut RunRecord,
    generation: i64,
    active: bool,
    another_hold: bool,
    r: Result<(), &'static str>,
)
    requires
        call_ensures(abandon_direct_unknown, (reason, rec, generation, active, another_hold), r),
        generation < i64::MAX,
    ensures
        r is Ok ==> reason@.len() > 0 && utf8_len(reason@) <= 1024 && !active && !another_hold
            && old(rec).state == RequestState::Unknown && old(rec).hold == Hold::Held(generation)
            && final(rec).hold is Released && final(rec).hold->Released_0 == generation + 1,
        r is Ok ==> final(rec).state == RequestState::Unknown && final(rec).send == old(rec).send
            && final(rec).started == old(rec).started,
        r is Err ==> final(rec)@ == old(rec)@,
{
}

/// A conversation is blocked exactly by a run whose outcome is unknown and which still holds it.
pub proof fn unknown_runs_block(runs: &Vec<RunRecord>, r: bool)
    requires
        call_ensures(direct_unknown_blocker, (runs,), r),
    ensures
        r <==> exists|i: int|
            0 <= i < runs@.len() && (#[trigger] runs@[i]).state == RequestState::Unknown
                && runs@[i].hold is Held,
{
    if r {
        let i = choose|i: int|
            0 <= i < runs@.len() && crate::direct_store::blocks((#[trigger] runs@[i])@);
        assert(runs@[i].state == RequestState::Unknown);
    }
    if !r {
        assert forall|i: int| 0 <= i < runs@.len() implies (#[trigger] runs@[i]).state
            != RequestState::Unknown || !(runs@[i].hold is Held) by {
            assert(!crate::direct_store::blocks(runs@[i]@));
        }
    }
}

/// Recovery is offered for the one run that is unknown, where nothing else holds its conversation or
/// goes on; and what was offered is done only while nothing changed since.
pub proof fn recovery_is_of_the_one_unknown_run(
    f: &RecoveryFacts,
    offer: Option<DirectRecoveryOffer>,
    o: &DirectRecoveryOffer,
    now: &RecoverFacts,
    r: Result<bool, &'static str>,
)
    requires
        call_ensures(direct_recovery_offer, (f,), offer),
        call_ensures(recover_direct_unknown, (o, now), r),
    ensures
        offer is Some <==> !f.restore_pending && f.uncertain@.len() == 1 && f.held == 1 && !f.busy,
        offer is Some ==> offer->0.request_id@ == f.uncertain@[0].0@ && offer->0.generation
            == f.uncertain@[0].1 && offer->0.waiting == f.waiting && offer->0.pause_revision
            == f.pause_revision && offer->0.next_sequence == f.next_sequence,
        r == Ok::<bool, &'static str>(true) <==> {
            &&& !now.handled
            &&& !now.restore_pending
            &&& now.pause_revision == o.pause_revision
            &&& now.next_sequence == o.next_sequence
            &&& now.matching == 1
            &&& now.held == 1
            &&& !now.active
            &&& !now.unsafe_waiting
            &&& now.waiting == o.waiting
        },
        now.handled <==> r == Ok::<bool, &'static str>(false),
{
}

/// A request that ended stays as it ended, one that was sent is never unsent again, and none skips
/// being sent.
pub proof fn states_move_forward(s: RequestState, next: RequestState, r: bool)
    requires
        call_ensures(RequestState::allows, (s, next), r),
    ensures
        s == next ==> r,
        r && (s == RequestState::Completed || s == RequestState::Failed || s
            == RequestState::Cancelled) ==> next == s,
        r && s != next && next == RequestState::Queued ==> s == RequestState::Received,
        r && s != next ==> next != RequestState::Received,
        r && s != next && next == RequestState::Sending ==> s == RequestState::Queued,
        r && (next == RequestState::Running || next == RequestState::Completed) && s != next ==> s
            != RequestState::Received && s != RequestState::Queued,
        s == RequestState::Received && next == RequestState::Queued ==> r,
        s == RequestState::Queued && next == RequestState::Sending ==> r,
        s == RequestState::Sending && next == RequestState::Running ==> r,
        (s == RequestState::Received || s == RequestState::Queued) && (next == RequestState::Failed
            || next == RequestState::Cancelled) ==> r,
        (s == RequestState::Sending || s == RequestState::Running || s
            == RequestState::ApprovalRequired || s == RequestState::CancelRequested || s
            == RequestState::Unknown) && (next == RequestState::Completed || next
            == RequestState::Failed || next == RequestState::Cancelled || next
            == RequestState::Unknown || next == RequestState::Running || next
            == RequestState::ApprovalRequired || next == RequestState::CancelRequested) ==> r,
{
}

/// The states are stored under their own names, are read back as they were stored, and the ended
/// ones are the completed, the failed and the cancelled.
pub proof fn states_are_stored_by_name(
    s: RequestState,
    name: &'static str,
    back: Result<RequestState, &'static str>,
    ended: bool,
)
    requires
        call_ensures(RequestState::as_str, (s,), name),
        call_ensures(RequestState::parse, (name,), back),
        call_ensures(RequestState::terminal, (s,), ended),
    ensures
        back == Ok::<RequestState, &'static str>(s),
        ended <==> s == RequestState::Completed || s == RequestState::Failed || s
            == RequestState::Cancelled,
        s == RequestState::Received <==> name@ == "RECEIVED"@,
        s == RequestState::Queued <==> name@ == "QUEUED"@,
        s == RequestState::Sending <==> name@ == "SENDING"@,
        s == RequestState::Running <==> name@ == "RUNNING"@,
        s == RequestState::ApprovalRequired <==> name@ == "APPROVAL_REQUIRED"@,
        s == RequestState::CancelRequested <==> name@ == "CANCEL_REQUESTED"@,
        s == RequestState::Completed <==> name@ == "COMPLETED"@,
        s == RequestState::Failed <==> name@ == "FAILED"@,
        s == RequestState::Cancelled <==> name@ == "CANCELLED"@,
        s == RequestState::Unknown <==> name@ == "UNKNOWN"@,
{
    assert(s.name() == name@);
    crate::domain::names_are_distinct(s, back->Ok_0);
    reveal_strlit("RECEIVED");
    reveal_strlit("QUEUED");
    reveal_strlit("SENDING");
    reveal_strlit("RUNNING");
    reveal_strlit("APPROVAL_REQUIRED");
    reveal_strlit("CANCEL_REQUESTED");
    reveal_strlit("COMPLETED");
    reveal_strlit("FAILED");
    reveal_strlit("CANCELLED");
    reveal_strlit("UNKNOWN");
    assert("RECEIVED"@.len() == 8 && "QUEUED"@.len() == 6 && "SENDING"@.len() == 7 && "RUNNING"@.len() == 7 && "APPROVAL_REQUIRED"@.len() == 17 && "CANCEL_REQUESTED"@.len() == 16 && "COMPLETED"@.len() == 9 && "FAILED"@.len() == 6 && "CANCELLED"@.len() == 9 && "UNKNOWN"@.len() == 7);
    assert("QUEUED"@[0] != "FAILED"@[0]);
    assert("SENDING"@[0] != "RUNNING"@[0]);
    assert("SENDING"@[0] != "UNKNOWN"@[0]);
    assert("RUNNING"@[0] != "UNKNOWN"@[0]);
    assert("COMPLETED"@[1] != "CANCELLED"@[1]);
}

} // verus!
