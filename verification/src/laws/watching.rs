//! How a run is watched until its end, and when the next one is started.
use crate::codec::{compact, compact_text, document};
use crate::codex_execution::TurnIdentity;
use crate::codex_transport::Event;
use crate::config::Limits;
use crate::direct_buttons::ApprovalCard;
use crate::direct_daemon::{
    admit_loop, chosen, control_loop, drive, scheduler_loop, start_failed, typing, typing_loop,
    watch_failed, AdmitStep, ControlStep, DriveStep, RunNews, Signal,
};
use crate::direct_run_actor::{finish_if_ready, Ending, RunStep, RunWatch};
use crate::domain::RequestState;
use crate::json::{alike, Json, JsonView};
use crate::tables::Table;
use crate::text::views;
use vstd::prelude::*;

verus! {

/// A run is finished only on the news that its own turn, in its own thread, was completed; the end of
/// the connection or a broken one leaves it unknown, a request of Codex is put to the user, and what
/// is said of another turn ends nothing.
pub proof fn runs_finish_on_their_own_turn(
    w: &mut RunWatch,
    event: Option<&Event>,
    run: &TurnIdentity,
    now: u128,
    r: Result<RunStep, &'static str>,
)
    requires
        call_ensures(RunWatch::hear, (w, event, run, now), r),
    ensures
        r is Ok && r->Ok_0 is Finish ==> event is Some && event->0@ is Notification
            && event->0@->Notification_0 == "turn/completed"@ && event->0@->Notification_1.at(
            "threadId"@,
        ) == JsonView::Text(run.thread_id@) && event->0@->Notification_1.at("turn"@).at("id"@)
            == JsonView::Text(run.turn_id@),
        event is Some && event->0@ is Notification && event->0@->Notification_0
            == "turn/completed"@ && event->0@->Notification_1.at("threadId"@) == JsonView::Text(
            run.thread_id@,
        ) && event->0@->Notification_1.at("turn"@).at("id"@) == JsonView::Text(run.turn_id@) ==> r
            is Ok && r->Ok_0 is Finish,
        event is None || event->0@ is Closed ==> r is Ok && r->Ok_0 is Unknown
            && r->Ok_0->Unknown_0@ == "runtime_closed"@,
        event is Some && (event->0@ is ProtocolError || event->0@ is InvalidServerRequest) ==> r
            is Ok && r->Ok_0 is Unknown && r->Ok_0->Unknown_0@ == "runtime_protocol_error"@,
        event is Some && event->0@ is ServerRequest <==> r is Ok && r->Ok_0 is Register,
        r is Ok && r->Ok_0 is Unknown ==> event is None || !(event->0@ is Notification),
{
    reveal_strlit("item/started");
    reveal_strlit("serverRequest/resolved");
    reveal_strlit("turn/completed");
    assert("item/started"@.len() == 12 && "serverRequest/resolved"@.len() == 22 && "turn/completed"@.len() == 14);
    let k = r->Ok_0@;
}

/// A request of Codex is settled only by the news of it in the thread of the run, under the identity
/// that it came with; and it is settled once.
pub proof fn requests_are_settled_by_their_news(
    w: &mut RunWatch,
    event: Option<&Event>,
    run: &TurnIdentity,
    now: u128,
    r: Result<RunStep, &'static str>,
)
    requires
        call_ensures(RunWatch::hear, (w, event, run, now), r),
        event is Some,
        event->0@ is Notification,
    ensures
        ({
            let method = event->0@->Notification_0;
            let params = event->0@->Notification_1;
            let id = params.get("requestId"@);
            let key = compact_text(document(id->0));
            let waits = id is Some && old(w)@.requests.contains_key(key);
            &&& r is Ok && r->Ok_0 is Resolve <==> method == "serverRequest/resolved"@ && params.at(
                "threadId"@,
            ) == JsonView::Text(run.thread_id@) && waits
            &&& r is Ok && r->Ok_0 is Resolve ==> r->Ok_0->Resolve_0@ == old(w)@.requests[key]
                && !final(w)@.requests.contains_key(key)
            &&& !(r is Ok && r->Ok_0 is Resolve) ==> final(w)@.requests == old(w)@.requests
        }),
{
    reveal_strlit("item/started");
    reveal_strlit("serverRequest/resolved");
    reveal_strlit("turn/completed");
    assert("item/started"@.len() == 12 && "serverRequest/resolved"@.len() == 22 && "turn/completed"@.len() == 14);
    let k = r->Ok_0@;
}

/// A tool call that Codex announces in the run is remembered as it was announced; announced again with
/// other content under the same identity it proves nothing any more.
pub proof fn announced_calls_are_remembered(
    w: &mut RunWatch,
    event: Option<&Event>,
    run: &TurnIdentity,
    now: u128,
    r: Result<RunStep, &'static str>,
    id: Seq<char>,
)
    requires
        call_ensures(RunWatch::hear, (w, event, run, now), r),
        event is Some,
        event->0@ is Notification,
    ensures
        ({
            let params = event->0@->Notification_1;
            let item = params.at("item"@);
            let announced = event->0@->Notification_0 == "item/started"@ && params.at("threadId"@)
                == JsonView::Text(run.thread_id@) && params.at("turnId"@) == JsonView::Text(
                run.turn_id@,
            ) && item.at("type"@) == JsonView::Text("mcpToolCall"@) && item.at("id"@)
                == JsonView::Text(id);
            let before = old(w)@.items;
            let after = final(w)@.items;
            let small = compact(document(item)).len() <= 65536;
            &&& announced && small && !before.contains_key(id) && before.dom().len() < 128
                ==> after.contains_key(id) && after[id] == Some(item)
            &&& announced && before.contains_key(id) && (before[id] is None || !small || !alike(
                before[id]->0,
                item,
            )) ==> after.contains_key(id) && after[id] is None
            &&& announced && small && before.contains_key(id) && before[id] is Some && alike(
                before[id]->0,
                item,
            ) ==> after == before
            &&& !announced && before.contains_key(id) ==> after.contains_key(id) && after[id]
                == before[id]
            &&& !announced && !before.contains_key(id) ==> !after.contains_key(id)
        }),
{
    reveal_strlit("item/started");
    reveal_strlit("serverRequest/resolved");
    reveal_strlit("turn/completed");
    assert("item/started"@.len() == 12 && "serverRequest/resolved"@.len() == 22 && "turn/completed"@.len() == 14);
}

/// A look at the turn finishes the run where the turn is completed, failed or interrupted, and else
/// goes on; only a closed runtime without any status leaves it unknown.
pub proof fn looks_finish_ended_turns(
    w: &mut RunWatch,
    status: Option<&str>,
    closed: bool,
    now: u128,
    r: RunStep,
)
    requires
        call_ensures(RunWatch::look, (w, status, closed, now), r),
    ensures
        r is Finish <==> status is Some && (status->0@ == "completed"@ || status->0@ == "failed"@
            || status->0@ == "interrupted"@),
        r is Unknown <==> status is None && closed,
        r is Unknown ==> r->Unknown_0@ == "runtime_closed"@,
        r is Wait || r is Finish || r is Unknown,
        r is Finish && old(w).terminal_seen is None ==> final(w).terminal_seen == Some(now),
        old(w).terminal_seen is Some ==> final(w).terminal_seen == old(w).terminal_seen,
        !(r is Finish) ==> final(w).terminal_seen == old(w).terminal_seen,
{
    let k = r@;
}

/// What an ended turn held is waited for for a minute, and then the run is unknown.
pub proof fn content_is_waited_for(w: &RunWatch, now: u128, r: RunStep)
    requires
        call_ensures(RunWatch::overdue, (w, now), r),
    ensures
        r is Unknown <==> w.terminal_seen is Some && now > w.terminal_seen->0 + 60_000_000_000,
        r is Unknown ==> r->Unknown_0@ == "terminal_content_unavailable"@,
        r is Unknown || r is Wait,
{
    let k = r@;
}

/// The end of a run is delivered where delivery says so; an ended request that was not delivered
/// waits for delivery, and any other stays open.
pub proof fn endings_are_as_stored(delivered: bool, state: RequestState, r: Ending)
    requires
        call_ensures(finish_if_ready, (delivered, state), r),
    ensures
        r == Ending::Delivered <==> delivered,
        r == Ending::DeliveryPending <==> !delivered && (state == RequestState::Completed || state
            == RequestState::Failed || state == RequestState::Cancelled),
{
}

proof fn choices_are_fair(all: Seq<Seq<char>>, busy: Set<Seq<char>>, room: nat, n: nat)
    requires
        n <= all.len(),
    ensures
        ({
            let c = chosen(all, busy, room, n);
            &&& c.len() <= room
            &&& c.no_duplicates()
            &&& forall|i: int|
                0 <= i < c.len() ==> !busy.contains(#[trigger] c[i]) && all.take(n as int).contains(
                    c[i],
                )
            &&& forall|i: int|
                0 <= i < n && !busy.contains(#[trigger] all[i]) && !c.contains(all[i]) ==> c.len()
                    == room
        }),
    decreases n,
{
    if n > 0 {
        let m = (n - 1) as nat;
        choices_are_fair(all, busy, room, m);
        let before = chosen(all, busy, room, m);
        let c = chosen(all, busy, room, n);
        assert(forall|x: Seq<char>|
            all.take(m as int).contains(x) ==> all.take(n as int).contains(x)) by {
            assert forall|x: Seq<char>| all.take(m as int).contains(x) implies all.take(
                n as int,
            ).contains(x) by {
                let i = choose|i: int| 0 <= i < m && all.take(m as int)[i] == x;
                assert(all.take(n as int)[i] == x);
            }
        }
        assert(all.take(n as int)[m as int] == all[m as int]);
        assert forall|i: int| 0 <= i < n && !busy.contains(#[trigger] all[i]) && !c.contains(
            all[i],
        ) implies c.len() == room by {
            if i < m {
                if before.contains(all[i]) {
                    let k = choose|k: int| 0 <= k < before.len() && before[k] == all[i];
                    assert(c[k] == all[i]);
                }
            } else {
                if c == before.push(all[m as int]) {
                    assert(c[before.len() as int] == all[i]);
                }
            }
        }
    }
}

/// At most two runs go on at once. What is started was waiting, is not going on already and is not
/// started twice; and no waiting one is passed over while there is room.
pub proof fn at_most_two_runs_go_on(
    candidates: &Vec<String>,
    busy: &mut Table<bool>,
    jobs: usize,
    connected: bool,
    r: Vec<String>,
    k: int,
)
    requires
        call_ensures(scheduler_loop, (candidates, busy, jobs, connected), r),
    ensures
        !connected ==> r@.len() == 0,
        jobs >= 2 ==> r@.len() == 0,
        r@.len() + jobs <= 2 || r@.len() == 0,
        views(r@).no_duplicates(),
        0 <= k < r@.len() ==> !old(busy).map().contains_key(r@[k]@) && views(
            candidates@,
        ).contains(r@[k]@) && final(busy).map().contains_key(r@[k]@),
        connected && 0 <= k < candidates@.len() && !old(busy).map().contains_key(candidates@[k]@)
            && !views(r@).contains(candidates@[k]@) ==> r@.len() + jobs >= 2,
{
    let all = views(candidates@);
    let done = views(r@);
    assert(done.len() == r@.len());
    if connected {
        let room = if jobs >= 2 { 0nat } else { (2 - jobs) as nat };
        choices_are_fair(all, old(busy).map().dom(), room, all.len());
        assert(all.take(all.len() as int) =~= all);
        if 0 <= k < r@.len() {
            assert(done[k] == r@[k]@);
            assert(done.to_set().contains(done[k]));
            assert(final(busy).map().dom().contains(done[k]));
        }
        if 0 <= k < candidates@.len() {
            assert(all[k] == candidates@[k]@);
        }
    } else {
        assert(done =~= Seq::<Seq<char>>::empty());
    }
}

/// Messages are admitted only while the service is connected and there is a worker for them; the
/// allowed user is told where there is none, in the channel of the message.
pub proof fn messages_are_admitted_by_workers(
    m: &Json,
    connected: bool,
    workers: usize,
    limits: &Limits,
    guild: &str,
    user: &str,
    r: AdmitStep,
)
    requires
        call_ensures(admit_loop, (m, connected, workers, limits, guild, user), r),
    ensures
        r is Admit <==> connected && workers < limits.queue_global,
        r is Busy ==> connected && m@.at("guild_id"@) == JsonView::Text(guild@) && m@.at(
            "author"@,
        ).at("id"@) == JsonView::Text(user@) && m@.at("id"@) == JsonView::Text(r->target@) && m@.at(
            "channel_id"@,
        ) == JsonView::Text(r->thread@),
{
    let k = r@;
}

/// A start that failed is told as unsent only while the request is still queued.
pub proof fn failed_starts_are_unsent(
    state: RequestState,
    r: Option<(&'static str, &'static str)>,
    failed: bool,
    watched: Option<&'static str>,
)
    requires
        call_ensures(start_failed, (state,), r),
        call_ensures(watch_failed, (failed, state), watched),
    ensures
        r is Some <==> state == RequestState::Queued,
        r is Some ==> (r->0).0@ == "direct_pre_send_failed"@,
        watched is Some <==> failed && (state == RequestState::Sending || state
            == RequestState::Running || state == RequestState::ApprovalRequired || state
            == RequestState::CancelRequested),
{
}

/// Commands are registered when the service connects, and at most thirty-two are served at once.
pub proof fn commands_are_served(
    signal: Signal,
    workers: usize,
    r: Result<ControlStep, &'static str>,
)
    requires
        call_ensures(control_loop, (signal, workers), r),
    ensures
        signal is Connected ==> r == Ok::<ControlStep, &'static str>(ControlStep::Register),
        signal is Reconnected ==> r == Ok::<ControlStep, &'static str>(ControlStep::Identify),
        r == Ok::<ControlStep, &'static str>(ControlStep::Serve) <==> signal is Interaction
            && workers < 32,
        signal is Closed <==> r is Err,
{
}

/// A run is over when it ended, waits for delivery or is unknown, and goes on else; the user is told
/// where the answer was not delivered or the outcome is unknown.
pub proof fn runs_are_over_once_ended(
    news: &RunNews,
    request: &str,
    cards: &mut Table<ApprovalCard>,
    r: DriveStep,
    id: Seq<char>,
)
    requires
        call_ensures(drive, (news, request, cards), r),
    ensures
        r.over <==> news is Terminal || news is DeliveryPending || news is ResultUnknown,
        news is DeliveryPending ==> r.notice->0@
            == "回答は保存されましたが、Discordへの配信を確認できません。/status で状態を確認してください。AIは再実行しません。"@,
        news is ResultUnknown && news->ResultUnknown_0@ == "terminal_content_unavailable"@
            ==> r.notice->0@
            == "Codexの作業終了は確認できましたが、回答や成果物の取得を確定できません。新しい依頼は保留します。/status で状態を確認し、運用者に復旧を依頼してください。AIは再実行していません。"@,
        news is ResultUnknown && news->ResultUnknown_0@ != "terminal_content_unavailable"@
            ==> r.notice->0@
            == "作業の状態を確認できず、新しい依頼は保留します。/status で確認し、必要なら /stop で待機列を止めてください。運用者による復旧が必要です。AIは再実行していません。"@,
        r.notice is Some <==> news is UnsupportedApproval || news is DeliveryPending || news
            is ResultUnknown,
        final(cards).map().contains_key(id) ==> old(cards).map().contains_key(id),
        old(cards).map().contains_key(id) && !final(cards).map().contains_key(id) ==> {
            ||| news is ApprovalResolved && news->ApprovalResolved_0@ == id
            ||| news is ApprovalInvalidated && old(cards).map()[id].request_id@ == request@ && old(
                cards).map()[id].input_generation < news->ApprovalInvalidated_0
        },
        news is ApprovalResolved ==> !final(cards).map().contains_key(
            news->ApprovalResolved_0@,
        ),
        news is ApprovalInvalidated && old(cards).map().contains_key(id) && old(cards).map()[id].request_id@ == request@ && old(
            cards).map()[id].input_generation < news->ApprovalInvalidated_0 ==> !final(
            cards).map().contains_key(id),
        final(cards).map().contains_key(id) ==> final(cards).map()[id] == old(cards).map()[id],
{
}

proof fn typing_is_for_the_working(
    active: Seq<Seq<char>>,
    cards: Map<Seq<char>, ApprovalCard>,
    n: nat,
    x: Seq<char>,
)
    requires
        n <= active.len(),
    ensures
        typing(active, cards, n).contains(x) <==> active.take(n as int).contains(x) && !(exists|
            id: Seq<char>,
        | #[trigger]
            cards.contains_key(id) && cards[id].thread_id@ == x),
    decreases n,
{
    if n > 0 {
        let m = (n - 1) as nat;
        typing_is_for_the_working(active, cards, m, x);
        let before = typing(active, cards, m);
        let after = typing(active, cards, n);
        let last = active[m as int];
        assert(active.take(n as int) =~= active.take(m as int).push(last));
        assert(active.take(n as int).contains(x) <==> active.take(m as int).contains(x) || last
            == x) by {
            if active.take(m as int).contains(x) {
                let i = choose|i: int| 0 <= i < m && active.take(m as int)[i] == x;
                assert(active.take(n as int)[i] == x);
            }
            if last == x {
                assert(active.take(n as int)[m as int] == x);
            }
        }
        if after == before.push(last) {
            assert(after.contains(x) <==> before.contains(x) || last == x) by {
                if before.contains(x) {
                    let i = choose|i: int| 0 <= i < before.len() && before[i] == x;
                    assert(after[i] == x);
                }
                if last == x {
                    assert(after[before.len() as int] == x);
                }
            }
        }
    }
}

/// A conversation shows that something is written while it works, and not while it waits for a
/// decision.
pub proof fn typing_is_shown_while_working(
    active: &Vec<String>,
    cards: &Table<ApprovalCard>,
    connected: bool,
    r: Vec<String>,
    x: Seq<char>,
)
    requires
        call_ensures(typing_loop, (active, cards, connected), r),
    ensures
        views(r@).contains(x) <==> connected && views(active@).contains(x) && !(exists|
            id: Seq<char>,
        | #[trigger]
            cards.map().contains_key(id) && cards.map()[id].thread_id@ == x),
{
    typing_is_for_the_working(views(active@), cards.map(), active@.len(), x);
    assert(views(active@).take(active@.len() as int) =~= views(active@));
}

} // verus!
