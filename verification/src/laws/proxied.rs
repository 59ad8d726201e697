//! Requests that run behind a proxy: how they are taken in, watched, stopped and delivered.
use crate::application::{
    admit_loop, check_stream, delivery_loop, discover_approvals, failure_message,
    interruption_with_evidence, judge_event, monitor_loop, needs_lookup,
    scheduler_open, status_card, waiting_notice, AdmissionFacts, AdmissionStep, App, DeliveryStage,
    Incoming, Output, Start, StatusCard, WatchStep,
};
use crate::commands::is_text_control;
use crate::config::{Discord, Limits};
use crate::direct_application::Location;
use crate::discord::should_respond;
use crate::domain::RequestState;
use crate::json::{Json, JsonView};
use crate::text::{utf8_len, views};
use vstd::prelude::*;

verus! {

/// Only what the allowed user wrote in the guild counts; a command is no request, and a request is
/// taken only where it is one to be answered.
pub proof fn messages_count_as_what_they_are(
    v: &Json,
    discord: &Discord,
    bot: Option<&str>,
    content: &str,
    r: Incoming,
    control: bool,
    answered: bool,
)
    requires
        call_ensures(App::classify, (v, discord, bot), r),
        call_ensures(is_text_control, (content,), control),
        call_ensures(should_respond, (bot, v, discord.response_mode), answered),
        v@.at("content"@) == JsonView::Text(content@),
    ensures
        ({
            let own = v@.at("guild_id"@) == JsonView::Text(discord.guild_id@) && v@.at("author"@).at(
                "id"@,
            ) == JsonView::Text(discord.allowed_user_id@) && v@.at("author"@).at("bot"@)
                != JsonView::Bool(true) && v@.at("webhook_id"@) == JsonView::Null;
            &&& r == Incoming::Command <==> own && control
            &&& r == Incoming::Request <==> own && !control && answered
        }),
{
}

/// A conversation is held in an open channel or thread of the guild.
pub proof fn proxied_conversations_are_in_open_channels(
    v: &Json,
    channel: &str,
    guild: &str,
    r: Result<Location, &'static str>,
    parent: &Json,
    id: &str,
    p: Result<(), &'static str>,
)
    requires
        call_ensures(App::verify_location, (v, channel, guild), r),
        call_ensures(App::verify_parent, (parent, id, guild), p),
    ensures
        r is Ok ==> v@.at("id"@) == JsonView::Text(channel@) && v@.at("guild_id"@)
            == JsonView::Text(guild@),
        r is Ok && r->Ok_0 is Fine ==> v@.at("type"@) == JsonView::Unsigned(0),
        r is Ok && r->Ok_0 is Below ==> (v@.at("type"@) == JsonView::Unsigned(11) || v@.at("type"@)
            == JsonView::Unsigned(12)) && v@.at("thread_metadata"@).at("archived"@)
            != JsonView::Bool(true) && v@.at("thread_metadata"@).at("locked"@) != JsonView::Bool(
            true,
        ) && v@.at("parent_id"@) == JsonView::Text(r->Ok_0->Below_0@),
        p is Ok <==> parent@.at("id"@) == JsonView::Text(id@) && parent@.at("guild_id"@)
            == JsonView::Text(guild@) && (parent@.at("type"@) == JsonView::Unsigned(0) || parent@.at(
            "type"@,
        ) == JsonView::Unsigned(15)),
{
}

/// A request is taken in only where the place and the model allow it and the gateway is ready for
/// it.
pub proof fn requests_are_taken_in_when_ready(
    f: &AdmissionFacts,
    limits: &Limits,
    r: AdmissionStep,
)
    requires
        call_ensures(admit_loop, (f, limits), r),
    ensures
        r is Reserve <==> f.placed && f.model_chosen && !f.reloading && !f.recovering
            && f.proxy_ready && f.connected && f.readable && f.workers < limits.queue_global,
{
    let k = r@;
}

/// A request is started as it was admitted: by the allowed user and with the same input.
pub proof fn admitted_input_is_started(
    author: &str,
    allowed: &str,
    now: &str,
    admitted: &str,
    r: Result<(), &'static str>,
)
    requires
        call_ensures(App::check_input, (author, allowed, now, admitted), r),
    ensures
        r is Ok <==> author@ == allowed@ && now@ == admitted@,
{
}

/// A request counts as refused only where the proxy says that it is busy; any other failure is looked
/// up and never repeated.
pub proof fn only_busy_answers_are_refusals(error: Option<(u16, &str)>, r: Start)
    requires
        call_ensures(App::execute, (error,), r),
    ensures
        r == Start::Busy <==> error is Some && (error->0).0 == 409 && ((error->0).1@
            == "provider_busy"@ || (error->0).1@ == "workspace_busy"@ || (error->0).1@
            == "conversation_busy"@),
{
}

/// The response that was started is the one that the receipt names.
pub proof fn started_responses_are_named(v: &Json, r: Result<String, &'static str>)
    requires
        call_ensures(App::started_response, (v,), r),
    ensures
        r is Ok <==> v@.at("resource"@).at("type"@) == JsonView::Text("response"@) && v@.at(
            "resource"@,
        ).at("id"@) is Text,
        r is Ok ==> v@.at("resource"@).at("id"@) == JsonView::Text(r->Ok_0@),
{
}

/// A stop counts as done only where the proxy confirms it, and as requested where it is pending.
pub proof fn stops_count_as_confirmed(answer: &Json, r: Option<RequestState>)
    requires
        call_ensures(App::interrupt, (answer,), r),
    ensures
        ({
            let s = answer@.at("stop_status"@);
            &&& r == Some(RequestState::Cancelled) <==> s == JsonView::Text(
                "cancelled_before_start"@,
            ) || s == JsonView::Text("interrupted"@)
            &&& r == Some(RequestState::CancelRequested) <==> s == JsonView::Text(
                "waiting_for_start"@,
            ) || s == JsonView::Text("interrupt_pending"@)
            &&& r is Some ==> r->0 == RequestState::Cancelled || r->0
                == RequestState::CancelRequested
        }),
{
    reveal_strlit("cancelled_before_start");
    reveal_strlit("interrupted");
    reveal_strlit("waiting_for_start");
    reveal_strlit("interrupt_pending");
    assert("cancelled_before_start"@.len() == 22 && "interrupted"@.len() == 11 && "waiting_for_start"@.len() == 17 && "interrupt_pending"@.len() == 17);
    assert("waiting_for_start"@[0] != "interrupt_pending"@[0]);
}

/// What is hidden from answers are the token, the key, the two folders and what was retired.
pub proof fn the_keys_are_hidden(
    token: &str,
    key: &str,
    state_dir: &str,
    temp_dir: &str,
    retired: &Vec<String>,
    r: Vec<String>,
    i: int,
)
    requires
        call_ensures(App::secrets, (token, key, state_dir, temp_dir, retired), r),
    ensures
        views(r@).contains(token@),
        views(r@).contains(key@),
        views(r@).contains(state_dir@),
        views(r@).contains(temp_dir@),
        0 <= i < retired@.len() ==> views(r@).contains(retired@[i]@),
{
    let all = views(r@);
    assert(all[0] == token@ && all[1] == key@ && all[2] == state_dir@ && all[3] == temp_dir@);
    if 0 <= i < retired@.len() {
        assert(all[4 + i] == views(retired@)[i]);
        assert(views(retired@)[i] == retired@[i]@);
    }
}

/// A control that was not accepted is unknown, not done.
pub proof fn unconfirmed_controls_are_unknown(accepted: bool, r: (&'static str, &'static str))
    requires
        call_ensures(App::finish_operation, (accepted,), r),
    ensures
        accepted ==> r.0@ == "ACCEPTED"@ && r.1@ == "WRITTEN"@,
        !accepted ==> r.0@ == "UNKNOWN"@ && r.1@ == "UNKNOWN"@,
{
}

/// A response that goes on is watched by one watcher at a time, not more often than every five
/// seconds.
pub proof fn responses_are_watched_while_they_go_on(
    dispatching: bool,
    has_response: bool,
    state: RequestState,
    watched: bool,
    since: Option<u64>,
    r: bool,
    stop: bool,
    has_thread: bool,
    due: (bool, bool),
    lookup: bool,
)
    requires
        call_ensures(App::watch_due, (dispatching, has_response, state, watched, since), r),
        call_ensures(monitor_loop, (state, stop, has_thread), due),
        call_ensures(needs_lookup, (state,), lookup),
    ensures
        ({
            let ended = state == RequestState::Completed || state == RequestState::Failed || state
                == RequestState::Cancelled;
            &&& r <==> !dispatching && has_response && !ended && !watched && (since is None
                || since->0 >= 5_000)
            &&& due.0 <==> stop && !ended
            &&& due.1 <==> has_thread && (state == RequestState::Running || state
                == RequestState::ApprovalRequired)
            &&& lookup <==> state == RequestState::Sending || state == RequestState::Running
                || state == RequestState::ApprovalRequired || state == RequestState::CancelRequested
                || state == RequestState::Unknown
        }),
{
}

/// The next request is started only while the gateway is ready and fewer than two run.
pub proof fn at_most_two_proxied_runs_go_on(
    reloading: bool,
    recovering: bool,
    proxy_ready: bool,
    connected: bool,
    jobs: usize,
    r: bool,
    silent: u64,
    stream: Result<(), &'static str>,
)
    requires
        call_ensures(scheduler_open, (reloading, recovering, proxy_ready, connected, jobs), r),
        call_ensures(check_stream, (silent,), stream),
    ensures
        r <==> !reloading && !recovering && proxy_ready && connected && jobs < 2,
        stream is Ok <==> silent < 90_000,
{
}

/// An event is heard only for the response that is watched: a piece of another answer, or an approval
/// of another turn, is an error.
pub proof fn events_are_of_the_watched_response(
    event: &str,
    data: &Result<Json, String>,
    response: Option<&str>,
    thread: Option<&str>,
    turn: Option<&str>,
    r: Result<WatchStep, String>,
)
    requires
        call_ensures(judge_event, (event, data, response, thread, turn), r),
    ensures
        r is Ok && r->Ok_0 is Delta ==> event@ == "response.delta"@ && *data is Ok
            && (*data)->Ok_0@.at("delta"@) == JsonView::Text(r->Ok_0->Delta_0@),
        r is Ok && r->Ok_0 is Delta && response is Some ==> (*data)->Ok_0@.at("response_id"@)
            == JsonView::Text(response->0@),
        r is Ok && r->Ok_0 is DiscoverApprovals ==> event@ == "approval_requested"@ && *data is Ok,
        r is Ok && r->Ok_0 is DiscoverApprovals && thread is Some && turn is Some
            ==> (*data)->Ok_0@.at("threadId"@) == JsonView::Text(thread->0@)
            && (*data)->Ok_0@.at("turnId"@) == JsonView::Text(turn->0@),
        event@ == "snapshot"@ || event@ == "gap"@ || event@ == "response.execution_terminal"@
            || event@ == "response.output_ready"@ || event@ == "response.output_failed"@ ==> r is Ok
            && r->Ok_0 is Reconcile,
        r is Ok && r->Ok_0 is Reconcile ==> event@ == "snapshot"@ || event@ == "gap"@ || event@
            == "response.execution_terminal"@ || event@ == "response.output_ready"@ || event@
            == "response.output_failed"@,
{
    let k = r->Ok_0@;
}

/// An approval is taken up only for the thread and the turn that run.
pub proof fn approvals_are_of_the_running_turn(
    v: &Json,
    thread: Option<&str>,
    turn: &str,
    r: Result<Option<i64>, &'static str>,
)
    requires
        call_ensures(discover_approvals, (v, thread, turn), r),
    ensures
        r is Ok ==> v@.at("details"@).at("turnId"@) == JsonView::Text(turn@),
        r is Ok && thread is Some ==> v@.at("details"@).at("threadId"@) == JsonView::Text(
            thread->0@,
        ),
{
}

/// A piece of an answer is appended where it fits and the answer is not done, and never otherwise.
pub proof fn pieces_are_appended_in_order(
    o: &mut Output,
    delta: &str,
    total: usize,
    limits: &Limits,
    now: u64,
)
    requires
        call_ensures(Output::receive, (o, delta, total, limits, now), ()),
    ensures
        final(o).text@ == old(o).text@ + delta@ || final(o).text@ == old(o).text@,
        !old(o).done && total + utf8_len(delta@) <= limits.output_total_bytes && utf8_len(
            old(o).text@,
        ) + utf8_len(delta@) <= limits.output_bytes ==> final(o).text@ == old(o).text@ + delta@
            && final(o).last_progress == now,
        old(o).done ==> final(o).text@ == old(o).text@,
        utf8_len(old(o).text@) + utf8_len(delta@) > limits.output_bytes ==> final(o).text@ == old(
            o).text@,
        final(o).thread == old(o).thread,
        final(o).done == old(o).done,
{
}

/// Silence is told after two minutes without progress, and an answer is let go of only once it is
/// done and its time is over.
pub proof fn answers_are_kept_for_their_time(o: &Output, now: u64, silent: bool, expired: bool)
    requires
        call_ensures(Output::silent, (o, now), silent),
        call_ensures(Output::expired, (o, now), expired),
    ensures
        silent <==> !o.done && now > o.last_progress + 120_000,
        expired <==> o.done && now >= o.created + o.retention,
{
}

/// An answer is let go of only once every stage of its delivery was confirmed, and a loss is told
/// before.
pub proof fn answers_are_delivered_in_stages(
    stage: DeliveryStage,
    confirmed: bool,
    done: bool,
    lost: bool,
    r: DeliveryStage,
)
    requires
        call_ensures(delivery_loop, (stage, confirmed, done, lost), r),
    ensures
        !confirmed || !done ==> r == DeliveryStage::Later,
        confirmed && done && stage == DeliveryStage::Parts ==> r == DeliveryStage::Trim,
        confirmed && done && stage == DeliveryStage::Trim ==> r == DeliveryStage::ClearDraft,
        confirmed && done && stage == DeliveryStage::ClearDraft && lost ==> r
            == DeliveryStage::Loss,
        confirmed && done && stage == DeliveryStage::ClearDraft && !lost ==> r
            == DeliveryStage::Delivered,
        confirmed && done && stage == DeliveryStage::Loss ==> r == DeliveryStage::Delivered,
        stage == DeliveryStage::Later ==> r == DeliveryStage::Later,
{
}

/// The user is told that the user stopped or declined only where that is so.
pub proof fn interruptions_are_told_truly(
    code: Option<&str>,
    stopped: bool,
    declined: bool,
    r: &'static str,
)
    requires
        call_ensures(interruption_with_evidence, (code, stopped, declined), r),
    ensures
        r@ == "停止操作により作業を中断しました。"@ ==> stopped || code is Some && (code->0@
            == "user_stop"@ || code->0@ == "v2_stop_observed"@),
        r@
            == "作業は中断しています。この依頼では、利用者によるMCP要求の拒否を送信済みです。"@
            ==> declined || code is Some && code->0@ == "mcp_user_declined"@,
        code is None && stopped ==> r@ == "停止操作により作業を中断しました。"@,
        code is None && !stopped && declined ==> r@
            == "作業は中断しています。この依頼では、利用者によるMCP要求の拒否を送信済みです。"@,
{
    reveal_strlit("user_stop");
    reveal_strlit("v2_stop_observed");
    reveal_strlit("mcp_user_declined");
    reveal_strlit("unsupported_interaction");
    reveal_strlit("unsupported_interaction_schema");
    reveal_strlit("interaction_expired");
    reveal_strlit("interaction_events_lost");
    reveal_strlit("interaction_connection_lost");
    assert("user_stop"@.len() == 9 && "v2_stop_observed"@.len() == 16 && "mcp_user_declined"@.len() == 17 && "unsupported_interaction"@.len() == 23 && "unsupported_interaction_schema"@.len() == 30 && "interaction_expired"@.len() == 19 && "interaction_events_lost"@.len() == 23 && "interaction_connection_lost"@.len() == 27);
    assert("unsupported_interaction"@[0] != "interaction_events_lost"@[0]);
    reveal_strlit("停止操作により作業を中断しました。");
    reveal_strlit("作業は中断しています。この依頼では、利用者によるMCP要求の拒否を送信済みです。");
    reveal_strlit("必要な承認・入力画面に未対応のため実行できませんでした。利用者による拒否ではありません。");
    reveal_strlit("承認・入力の期限が切れたため停止しました。利用者による拒否ではありません。");
    reveal_strlit("実行側の接続・対話情報を失ったため停止しました。利用者による拒否ではありません。");
    reveal_strlit("作業は中断されていますが、理由を確定できません。利用者の拒否・停止とは断定していません。/status で確認してください。");
    assert("停止操作により作業を中断しました。"@.len() == 17 && "作業は中断しています。この依頼では、利用者によるMCP要求の拒否を送信済みです。"@.len() == 40 && "必要な承認・入力画面に未対応のため実行できませんでした。利用者による拒否ではありません。"@.len() == 44 && "承認・入力の期限が切れたため停止しました。利用者による拒否ではありません。"@.len() == 37 && "実行側の接続・対話情報を失ったため停止しました。利用者による拒否ではありません。"@.len() == 40 && "作業は中断されていますが、理由を確定できません。利用者の拒否・停止とは断定していません。/status で確認してください。"@.len() == 62);
    assert("作業は中断しています。この依頼では、利用者によるMCP要求の拒否を送信済みです。"@[0] != "実行側の接続・対話情報を失ったため停止しました。利用者による拒否ではありません。"@[0]);
}

/// The card of a request is cleared where it goes on or completed, and shows the failure, the
/// interruption or the unknown outcome where there is one.
pub proof fn cards_show_how_a_request_stands(
    state: &str,
    error: Option<&str>,
    had: bool,
    stopped: bool,
    declined: bool,
    r: StatusCard,
    failure: &'static str,
    interruption: &'static str,
)
    requires
        call_ensures(status_card, (state, error, had, stopped, declined), r),
        call_ensures(failure_message, (error,), failure),
        call_ensures(interruption_with_evidence, (error, stopped, declined), interruption),
    ensures
        r is Clear <==> had && (state@ == "COMPLETED"@ || state@ == "RUNNING"@ || state@
            == "APPROVAL_REQUIRED"@),
        state@ == "FAILED"@ ==> r is Show && r->Show_0@ == failure@,
        state@ == "CANCELLED"@ ==> r is Show && r->Show_0@ == interruption@,
        state@ == "CANCEL_REQUESTED"@ ==> r is Show && r->Show_0@
            == "中断を要求しました。停止の確認を待っています。"@,
        state@ == "UNKNOWN"@ ==> r is Show && r->Show_0@
            == "作業の状態を確認できません。再実行せず保留しています。/status で確認してください。"@,
        r is Show ==> state@ == "FAILED"@ || state@ == "CANCELLED"@ || state@ == "CANCEL_REQUESTED"@
            || state@ == "UNKNOWN"@,
{
    reveal_strlit("COMPLETED");
    reveal_strlit("RUNNING");
    reveal_strlit("APPROVAL_REQUIRED");
    reveal_strlit("FAILED");
    reveal_strlit("CANCELLED");
    reveal_strlit("CANCEL_REQUESTED");
    reveal_strlit("UNKNOWN");
    assert("COMPLETED"@.len() == 9 && "RUNNING"@.len() == 7 && "APPROVAL_REQUIRED"@.len() == 17 && "FAILED"@.len() == 6 && "CANCELLED"@.len() == 9 && "CANCEL_REQUESTED"@.len() == 16 && "UNKNOWN"@.len() == 7);
    assert("COMPLETED"@[1] != "CANCELLED"@[1]);
    assert("RUNNING"@[0] != "UNKNOWN"@[0]);
}

/// The user is told that a message waits only where it does.
pub proof fn waiting_messages_are_told(paused: bool, active: bool, r: Option<&'static str>)
    requires
        call_ensures(waiting_notice, (paused, active), r),
    ensures
        r is Some <==> paused || active,
        paused ==> r->0@
            == "受け付けました。一時停止中のため待機します。/resume で再開できます。"@,
        !paused && active ==> r->0@
            == "受け付けました。先の作業が終わるまで待機します。"@,
{
}

} // verus!
