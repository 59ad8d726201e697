//! What the commands and buttons of the user do.
use crate::codex_execution::TurnIdentity;
use crate::commands::named_option;
use crate::direct_application::DirectControlOutcome;
use crate::direct_commands::{
    acknowledged_first, command, control_reply, control_step, effort_selection, handle_interaction,
    model_selection, recovery_after_backup, recovery_button, recovery_menu, recovery_reply,
    resume_reply, ControlEvent, ControlStep, DirectCommand, DirectRoute,
};
use crate::direct_control_store::{BoundRun, ControlState, Operation};
use crate::direct_store::DirectRecoveryOffer;
use crate::json::{lookup, Json, JsonView};
use crate::operations::{
    approval_body, reserve_control, steer_body, steer_turn, ControlTarget, Deciding, ModelLine,
};
use crate::domain::RequestState;
use crate::text::{begins, opt_view, utf8_len};
use vstd::prelude::*;

verus! {

/// Only the allowed user in the guild is served; another guild is left alone and another user is
/// refused. What is acknowledged at once is just what is not served.
pub proof fn only_the_allowed_user_is_served(
    v: &Json,
    guild: &str,
    user: &str,
    r: Result<DirectRoute, &'static str>,
    first: bool,
)
    requires
        call_ensures(handle_interaction, (v, guild, user), r),
        call_ensures(acknowledged_first, (v, guild, user), first),
    ensures
        r is Ok && r->Ok_0 != DirectRoute::Foreign && r->Ok_0 != DirectRoute::Stranger ==> {
            &&& v@.at("guild_id"@) == JsonView::Text(guild@)
            &&& v@.at("member"@).at("user"@).at("id"@) == JsonView::Text(user@) || v@.at("user"@).at(
                "id"@,
            ) == JsonView::Text(user@)
            &&& !first
        },
        r is Ok ==> v@.at("id"@) is Text && v@.at("token"@) is Text,
        r is Ok && r->Ok_0 == DirectRoute::Foreign <==> v@.at("id"@) is Text && v@.at("token"@)
            is Text && v@.at("guild_id"@) != JsonView::Text(guild@),
        r is Ok && r->Ok_0 == DirectRoute::Stranger ==> first,
        r is Ok && r->Ok_0 == DirectRoute::Foreign ==> first,
{
}

/// A pressed component goes where its identity says, and a command where its name says.
pub proof fn interactions_go_where_they_say(
    v: &Json,
    guild: &str,
    user: &str,
    r: Result<DirectRoute, &'static str>,
)
    requires
        call_ensures(handle_interaction, (v, guild, user), r),
        r is Ok,
        r->Ok_0 != DirectRoute::Foreign,
        r->Ok_0 != DirectRoute::Stranger,
    ensures
        ({
            let custom = v@.at("data"@).at("custom_id"@);
            let name = v@.at("data"@).at("name"@);
            &&& r->Ok_0 == DirectRoute::ModelChoice ==> custom is Text && begins(
                custom->Text_0,
                "direct:model:"@,
            )
            &&& r->Ok_0 == DirectRoute::EffortChoice ==> custom is Text && begins(
                custom->Text_0,
                "direct:effort:"@,
            )
            &&& r->Ok_0 == DirectRoute::Recovery ==> custom is Text && begins(
                custom->Text_0,
                "direct:recover:"@,
            )
            &&& custom is Text && begins(custom->Text_0, "direct:model:"@) ==> r->Ok_0
                == DirectRoute::ModelChoice
            &&& custom is Text && begins(custom->Text_0, "direct:effort:"@) ==> r->Ok_0
                == DirectRoute::EffortChoice
            &&& custom is Text && begins(custom->Text_0, "direct:recover:"@) ==> r->Ok_0
                == DirectRoute::Recovery
            &&& r->Ok_0 == DirectRoute::Approval ==> custom is Text
            &&& custom is Text ==> r->Ok_0 != DirectRoute::Command && r->Ok_0
                != DirectRoute::RecoveryMenu
            &&& !(custom is Text) && name == JsonView::Text("recover"@) ==> r->Ok_0
                == DirectRoute::RecoveryMenu
            &&& r->Ok_0 == DirectRoute::RecoveryMenu ==> name == JsonView::Text("recover"@)
            &&& r->Ok_0 == DirectRoute::ModelMenu ==> name == JsonView::Text("model"@)
            &&& r->Ok_0 == DirectRoute::EffortMenu ==> name == JsonView::Text("effort"@)
            &&& !(custom is Text) && (name == JsonView::Text("stop"@) || name == JsonView::Text(
                "cancel"@,
            ) || name == JsonView::Text("resume"@) || name == JsonView::Text("status"@) || name
                == JsonView::Text("steer"@) || name == JsonView::Text("get"@)) ==> r->Ok_0
                == DirectRoute::Command
        }),
{
    reveal_strlit("direct:model:");
    reveal_strlit("direct:effort:");
    reveal_strlit("direct:recover:");
    assert("direct:model:"@.len() == 13 && "direct:effort:"@.len() == 14 && "direct:recover:"@.len() == 15);
    reveal_strlit("model");
    reveal_strlit("effort");
    reveal_strlit("recover");
    reveal_strlit("stop");
    reveal_strlit("cancel");
    reveal_strlit("resume");
    reveal_strlit("status");
    reveal_strlit("steer");
    reveal_strlit("get");
    assert("model"@.len() == 5 && "effort"@.len() == 6 && "recover"@.len() == 7 && "stop"@.len() == 4 && "cancel"@.len() == 6 && "resume"@.len() == 6 && "status"@.len() == 6 && "steer"@.len() == 5 && "get"@.len() == 3);
    assert("model"@[0] != "steer"@[0]);
    assert("effort"@[0] != "cancel"@[0]);
    assert("effort"@[0] != "resume"@[0]);
    assert("effort"@[0] != "status"@[0]);
    assert("cancel"@[0] != "resume"@[0]);
    assert("cancel"@[0] != "status"@[0]);
    assert("resume"@[0] != "status"@[0]);
    let custom = v@.at("data"@).at("custom_id"@);
    if custom is Text {
        let c = custom->Text_0;
        if begins(c, "direct:effort:"@) {
            assert(c[7] == "direct:effort:"@[7]);
            assert(!begins(c, "direct:model:"@)) by {
                if begins(c, "direct:model:"@) {
                    assert(c.take("direct:model:"@.len() as int)[7] == c[7]);
                    assert(c.take("direct:effort:"@.len() as int)[7] == c[7]);
                }
            }
        }
        if begins(c, "direct:recover:"@) {
            assert(!begins(c, "direct:model:"@)) by {
                if begins(c, "direct:model:"@) {
                    assert(c.take("direct:model:"@.len() as int)[7] == c[7]);
                    assert(c.take("direct:recover:"@.len() as int)[7] == c[7]);
                }
            }
            assert(!begins(c, "direct:effort:"@)) by {
                if begins(c, "direct:effort:"@) {
                    assert(c.take("direct:effort:"@.len() as int)[7] == c[7]);
                    assert(c.take("direct:recover:"@.len() as int)[7] == c[7]);
                }
            }
        }
    }
}

proof fn options_are_found(list: Seq<JsonView>, name: Seq<char>, from: nat)
    requires
        from <= list.len(),
    ensures
        match named_option(list, name, from) {
            Some(o) => exists|i: int|
                from <= i < list.len() && #[trigger] list[i] == o && o.at("name"@) == JsonView::Text(
                    name,
                ),
            None => forall|i: int|
                from <= i < list.len() ==> (#[trigger] list[i]).at("name"@) != JsonView::Text(name),
        },
    decreases list.len() - from,
{
    if from < list.len() {
        options_are_found(list, name, from + 1);
        if list[from as int].at("name"@) == JsonView::Text(name) {
            assert(list[from as int] == named_option(list, name, from)->0);
        }
    }
}

/// A command does what its name says, with the text that its option gives.
pub proof fn commands_do_what_they_say(
    v: &Json,
    limit: usize,
    r: Result<DirectCommand, &'static str>,
)
    requires
        call_ensures(command, (v, limit), r),
    ensures
        ({
            let name = v@.at("data"@).at("name"@);
            let options = v@.at("data"@).at("options"@);
            &&& name == JsonView::Text("status"@) <==> r is Ok && r->Ok_0 is Status
            &&& name == JsonView::Text("models"@) <==> r is Ok && r->Ok_0 is Models
            &&& name == JsonView::Text("model"@) <==> r is Ok && r->Ok_0 is Model
            &&& name == JsonView::Text("effort"@) <==> r is Ok && r->Ok_0 is Effort
            &&& name == JsonView::Text("workspace"@) <==> r is Ok && r->Ok_0 is Workspace
            &&& name == JsonView::Text("get"@) <==> r is Ok && r->Ok_0 is Get
            &&& name == JsonView::Text("resume"@) <==> r is Ok && r->Ok_0 is Resume
            &&& name == JsonView::Text("cancel"@) <==> r is Ok && r->Ok_0 is Cancel
            &&& name == JsonView::Text("stop"@) <==> r is Ok && r->Ok_0 is Stop
            &&& r is Ok && r->Ok_0 is Steer ==> name == JsonView::Text("steer"@)
            &&& name == JsonView::Text("steer"@) ==> r is Err || r->Ok_0 is Steer
            &&& r is Ok && r->Ok_0 is Steer ==> utf8_len(r->Ok_0->Steer_0@) <= limit
                && r->Ok_0->Steer_0@.len() > 0 && options is Array && exists|i: int|
                0 <= i < options->Array_0.len() && (#[trigger] options->Array_0[i]).at("name"@)
                    == JsonView::Text("text"@) && options->Array_0[i].at("value"@)
                    == JsonView::Text(r->Ok_0->Steer_0@)
            &&& r is Ok && r->Ok_0 is Model && r->Ok_0->Model_0 is Some ==> options is Array
                && exists|i: int|
                0 <= i < options->Array_0.len() && (#[trigger] options->Array_0[i]).at("name"@)
                    == JsonView::Text("id"@) && options->Array_0[i].at("value"@) == JsonView::Text(
                    r->Ok_0->Model_0->0@,
                )
            &&& r is Ok && r->Ok_0 is Effort && r->Ok_0->Effort_0 is Some ==> options is Array
                && exists|i: int|
                0 <= i < options->Array_0.len() && (#[trigger] options->Array_0[i]).at("name"@)
                    == JsonView::Text("level"@) && options->Array_0[i].at("value"@)
                    == JsonView::Text(r->Ok_0->Effort_0->0@)
            &&& r is Ok && r->Ok_0 is Get && r->Ok_0->Get_0 is Some ==> options is Array && exists|
                i: int,
            |
                0 <= i < options->Array_0.len() && (#[trigger] options->Array_0[i]).at("name"@)
                    == JsonView::Text("path"@) && options->Array_0[i].at("value"@)
                    == JsonView::Text(r->Ok_0->Get_0->0@)
        }),
{
    reveal_strlit("status");
    reveal_strlit("models");
    reveal_strlit("model");
    reveal_strlit("effort");
    reveal_strlit("workspace");
    reveal_strlit("get");
    reveal_strlit("resume");
    reveal_strlit("cancel");
    reveal_strlit("stop");
    reveal_strlit("steer");
    assert("status"@.len() == 6 && "models"@.len() == 6 && "model"@.len() == 5 && "effort"@.len() == 6 && "workspace"@.len() == 9 && "get"@.len() == 3 && "resume"@.len() == 6 && "cancel"@.len() == 6 && "stop"@.len() == 4 && "steer"@.len() == 5);
    assert("status"@[0] != "models"@[0]);
    assert("status"@[0] != "effort"@[0]);
    assert("status"@[0] != "resume"@[0]);
    assert("status"@[0] != "cancel"@[0]);
    assert("models"@[0] != "effort"@[0]);
    assert("models"@[0] != "resume"@[0]);
    assert("models"@[0] != "cancel"@[0]);
    assert("model"@[0] != "steer"@[0]);
    assert("effort"@[0] != "resume"@[0]);
    assert("effort"@[0] != "cancel"@[0]);
    assert("resume"@[0] != "cancel"@[0]);
    let options = v@.at("data"@).at("options"@);
    let k = r->Ok_0@;
    if options is Array {
        options_are_found(options->Array_0, "text"@, 0);
        options_are_found(options->Array_0, "id"@, 0);
        options_are_found(options->Array_0, "level"@, 0);
        options_are_found(options->Array_0, "path"@, 0);
    }
}

/// A control that a run did not take is done without it, and one whose outcome is open is reported
/// as failed, not as done.
pub proof fn controls_without_a_run_are_done_in_the_store(event: ControlEvent, r: ControlStep)
    requires
        call_ensures(control_step, (event,), r),
    ensures
        r is Done <==> event is Replied,
        event is Replied ==> r->Done_0 == event->Replied_0,
        r is Fail <==> event is SendTimedOut || event is ReplyTimedOut,
        event is NoRun ==> r is WithoutRun && !r->closed,
        event is RunClosed || event is ReplyDropped ==> r is WithoutRun && r->closed,
{
    let k = r@;
}

/// The user is told what a control did.
pub proof fn controls_are_told_as_they_went(
    stop: bool,
    closed: bool,
    outcome: DirectControlOutcome,
    r: &'static str,
)
    requires
        call_ensures(control_reply, (stop, closed, outcome), r),
        !(closed && stop),
    ensures
        outcome is WaitingCancelled <==> r@
            == "直近の待機依頼を取り消しました。実行中の依頼は継続します。"@,
        outcome is InterruptAccepted <==> r@
            == "中断をCodexへ要求しました。完了確認は /status で行ってください。"@,
        outcome is Paused <==> r@ == "待機列を一時停止しました。/resume で再開できます。"@,
        outcome is NothingActive <==> r@
            == "取り消せる待機依頼も実行中の依頼もありません。"@,
{
    reveal_strlit("直近の待機依頼を取り消しました。実行中の依頼は継続します。");
    reveal_strlit("中断をCodexへ要求しました。完了確認は /status で行ってください。");
    reveal_strlit("待機列を一時停止しました。/resume で再開できます。");
    reveal_strlit("取り消せる待機依頼も実行中の依頼もありません。");
    reveal_strlit("実行中の操作へ接続できません。/status で状態を確認してください。");
    assert("直近の待機依頼を取り消しました。実行中の依頼は継続します。"@.len() == 29 && "中断をCodexへ要求しました。完了確認は /status で行ってください。"@.len() == 39 && "待機列を一時停止しました。/resume で再開できます。"@.len() == 29 && "取り消せる待機依頼も実行中の依頼もありません。"@.len() == 23 && "実行中の操作へ接続できません。/status で状態を確認してください。"@.len() == 36);
    assert("直近の待機依頼を取り消しました。実行中の依頼は継続します。"@[0] != "待機列を一時停止しました。/resume で再開できます。"@[0]);
}

/// The user is told that the queue goes on, or that a conversation was recovered, only where it was.
pub proof fn success_is_told_where_it_is(
    changed: bool,
    resumed: &'static str,
    done: bool,
    recovered: &'static str,
)
    requires
        call_ensures(resume_reply, (changed,), resumed),
        call_ensures(recovery_reply, (done,), recovered),
    ensures
        changed <==> resumed@ == "待機列を再開しました。"@,
        done ==> recovered@
            == "この会話を再開しました。前の作業は再実行していません。次の新しい投稿からCodexの文脈で作業できます。Discordの履歴と作業ファイルは残っています。"@,
        !done ==> recovered@
            == "復旧を完了できませんでした。前の作業は再実行していません。/status を確認し、/recover を開き直してください。繰り返し失敗する場合はGatewayの運用者に連絡してください。"@,
{
    reveal_strlit("待機列を再開しました。");
    reveal_strlit("待機列はすでに再開済みか、再開できない状態です。/status で確認してください。");
    assert("待機列を再開しました。"@.len() == 11 && "待機列はすでに再開済みか、再開できない状態です。/status で確認してください。"@.len() == 42);
}

/// An interrupt is sent once, and only to the turn that the conversation runs while it is active.
pub proof fn interrupts_reach_the_running_turn(
    op: &mut Operation,
    request: &str,
    bound: Option<&BoundRun>,
    identity: &TurnIdentity,
    active: bool,
    r: Result<(), &'static str>,
)
    requires
        call_ensures(
            Operation::begin_direct_interrupt,
            (op, request, bound, identity, active),
            r,
        ),
    ensures
        r is Ok <==> {
            &&& old(op).kind@ == "stop"@ || old(op).kind@ == "cancel"@
            &&& old(op).state == ControlState::NotSent
            &&& old(op).target is None || old(op).target->0@ == request@
            &&& bound is Some
            &&& bound->0.discord_thread@ == old(op).thread@
            &&& bound->0.codex_thread@ == identity.thread_id@
            &&& bound->0.codex_turn@ == identity.turn_id@
            &&& active
        },
        r is Ok ==> final(op).state == ControlState::Sending && opt_view(final(op).target) == Some(
            request@,
        ) && final(op).thread == old(op).thread && final(op).kind == old(op).kind,
        r is Err ==> *final(op) == *old(op),
{
}

/// Further input is sent once, to an active request.
pub proof fn steering_is_sent_once(
    request: &str,
    thread: Option<&str>,
    active: bool,
    handled: bool,
    r: Result<Operation, &'static str>,
)
    requires
        call_ensures(Operation::begin_direct_steer, (request, thread, active, handled), r),
    ensures
        r is Ok <==> thread is Some && active && !handled,
        r is Ok ==> r->Ok_0.kind@ == "direct_steer"@ && r->Ok_0.thread@ == thread->0@ && opt_view(
            r->Ok_0.target,
        ) == Some(request@) && r->Ok_0.state == ControlState::Sending,
{
}

/// A control that was being sent is recorded as sent where it was acknowledged, and as unknown where
/// it was not; any other is left as it is.
pub proof fn controls_end_as_acknowledged(
    op: &mut Operation,
    acknowledged: bool,
    r: Result<(), &'static str>,
)
    requires
        call_ensures(Operation::finish_direct_control, (op, acknowledged), r),
    ensures
        r is Ok <==> old(op).state == ControlState::Sending && (old(op).kind@ == "stop"@ || old(
            op).kind@ == "cancel"@ || old(op).kind@ == "direct_steer"@),
        r is Ok && acknowledged ==> final(op).state == ControlState::Sent,
        r is Ok && !acknowledged ==> final(op).state == ControlState::Unknown,
        r is Ok ==> final(op).target == old(op).target && final(op).thread == old(op).thread
            && final(op).kind == old(op).kind,
        r is Err ==> *final(op) == *old(op),
{
}

/// A choice from a menu is the one value that was picked in it.
pub proof fn choices_are_the_values_picked(
    v: &Json,
    custom: &str,
    model: Result<String, &'static str>,
    effort: Result<String, &'static str>,
)
    requires
        call_ensures(model_selection, (v, custom), model),
        call_ensures(effort_selection, (v, custom), effort),
    ensures
        model is Ok || effort is Ok ==> v@.at("data"@).at("component_type"@) == JsonView::Unsigned(
            3,
        ) && v@.at("data"@).at("values"@) is Array && v@.at("data"@).at("values"@)->Array_0.len()
            == 1,
        model is Ok ==> v@.at("data"@).at("values"@)->Array_0[0] == JsonView::Text(model->Ok_0@)
            && begins(custom@, "direct:model:"@),
        effort is Ok ==> v@.at("data"@).at("values"@)->Array_0[0] == JsonView::Text(effort->Ok_0@)
            && begins(custom@, "direct:effort:"@),
{
}

/// A recovery is offered only where no run goes on, with a button, and does nothing by itself.
pub proof fn recoveries_are_offered_while_idle(
    active: bool,
    offer: Option<&DirectRecoveryOffer>,
    r: (String, Option<Json>),
    after: Result<(), &'static str>,
)
    requires
        call_ensures(recovery_menu, (active, offer), r),
        call_ensures(recovery_after_backup, (active,), after),
    ensures
        r.1 is Some <==> !active && offer is Some,
        after is Ok <==> !active,
{
}

/// The button of a recovery recovers just what was offered, while it still is and nothing runs.
pub proof fn recoveries_do_what_was_offered(
    menu: (String, Option<Json>),
    custom: &str,
    o: &DirectRecoveryOffer,
    now: Option<&DirectRecoveryOffer>,
    active: bool,
    r: Result<(), &'static str>,
)
    requires
        call_ensures(recovery_menu, (false, Some(o)), menu),
        menu.1 is Some,
        (menu.1->0)@.item(0).at("components"@).item(0).at("custom_id"@) == JsonView::Text(custom@),
        crate::text::unseparated(o.request_id@, ':'),
        o.request_id@.len() > 0,
        o.generation >= 0,
        call_ensures(recovery_button, (custom, active, now), r),
    ensures
        r is Ok <==> !active && now is Some && now->0.request_id@ == o.request_id@
            && now->0.generation == o.generation && now->0.pause_revision == o.pause_revision
            && now->0.next_sequence == o.next_sequence,
{
    reveal_with_fuel(lookup, 3);
    let bar = (menu.1->0)@->Array_0[0]->Object_0;
    assert(bar[0].0 == "components"@);
    let key = bar[0].1->Array_0[0]->Object_0;
    assert(key[0].0 == "custom_id"@);
    assert(custom@ == crate::direct_commands::recovery_identity(*o));
    if now is Some {
        crate::button_laws::recoveries_are_confirmed_as_offered(*o, *now->0);
    }
}

/// The later choice of a model is the one that stays, in whatever order the two are settled.
pub proof fn later_choices_stay(
    line: &mut ModelLine,
    duplicate: bool,
    r: Result<i64, &'static str>,
)
    requires
        call_ensures(ModelLine::begin_choice, (line, duplicate), r),
        old(line).newest < i64::MAX,
    ensures
        r is Ok <==> !duplicate,
        r is Ok ==> r->Ok_0 > old(line).newest && final(line).newest == r->Ok_0
            && final(line).newest_choice == r->Ok_0,
        final(line).selected@ == old(line).selected@,
        final(line).revision == old(line).revision,
        r is Err ==> final(line)@ == old(line)@,
{
}

/// A choice is applied only while it is the newest and still checked, and then it is what is
/// selected; any other changes nothing.
pub proof fn only_the_newest_choice_applies(
    line: &mut ModelLine,
    place: i64,
    validating: bool,
    model: &str,
    r: (bool, &'static str),
)
    requires
        call_ensures(ModelLine::settle_choice, (line, place, validating, model), r),
        old(line).revision < i64::MAX,
    ensures
        r.0 <==> old(line).newest_choice == place && validating,
        r.0 ==> final(line).selected@ == model@ && final(line).revision == old(line).revision + 1
            && r.1@ == "APPLIED"@,
        !r.0 ==> final(line)@ == old(line)@ && r.1@ == "SUPERSEDED"@,
        final(line).newest_choice == old(line).newest_choice,
{
}

/// Further input reaches the turn that runs, and no other.
pub proof fn further_input_names_the_running_turn(
    state: Option<RequestState>,
    turn: Option<&'static str>,
    r: Result<&'static str, &'static str>,
    t: &str,
    input: &str,
    body: Json,
)
    requires
        call_ensures(steer_turn, (state, turn), r),
        call_ensures(steer_body, (t, input), body),
    ensures
        r is Ok <==> state == Some(RequestState::Running) && turn is Some,
        r is Ok ==> r->Ok_0@ == turn->0@,
        body@.at("expected_turn_id"@) == JsonView::Text(t@),
        body@.at("input"@) == JsonView::Text(input@),
{
    reveal_strlit("expected_turn_id");
    reveal_strlit("input");
    assert("expected_turn_id"@.len() == 16 && "input"@.len() == 5);
    assert(body@->Object_0[0].0 == "expected_turn_id"@ && body@->Object_0[1].0 == "input"@);
    reveal_with_fuel(lookup, 3);
}

/// A decision is sent as it was taken, for the thread and the turn that asked.
pub proof fn decisions_are_sent_as_taken(
    decision: &str,
    thread: Option<&str>,
    turn: Option<&str>,
    body: Json,
)
    requires
        call_ensures(approval_body, (decision, thread, turn), body),
    ensures
        body@.at("decision"@) == JsonView::Text(decision@),
        thread is Some ==> body@.at("expected_thread_id"@) == JsonView::Text(thread->0@),
        turn is Some ==> body@.at("expected_turn_id"@) == JsonView::Text(turn->0@),
        thread is None ==> body@.at("expected_thread_id"@) == JsonView::Null,
        turn is None ==> body@.at("expected_turn_id"@) == JsonView::Null,
{
    reveal_strlit("decision");
    reveal_strlit("expected_thread_id");
    reveal_strlit("expected_turn_id");
    assert("decision"@.len() == 8 && "expected_thread_id"@.len() == 18 && "expected_turn_id"@.len() == 16);
    let m = body@->Object_0;
    assert(m[0].0 == "decision"@ && m[1].0 == "expected_thread_id"@ && m[2].0
        == "expected_turn_id"@);
    reveal_with_fuel(lookup, 4);
}

/// A control is taken up once, for the very turn that runs and was not stopped; a decision only while
/// the approval is pending, undecided and not expired.
pub proof fn controls_are_taken_up_while_running(
    duplicate: bool,
    t: &ControlTarget,
    turn: Option<&str>,
    thread: Option<&str>,
    deciding: Deciding,
    request: &str,
    now: i64,
    r: Result<(), &'static str>,
)
    requires
        call_ensures(reserve_control, (duplicate, t, turn, thread, deciding, request, now), r),
    ensures
        r is Ok <==> {
            &&& !duplicate
            &&& turn is Some && opt_view(t.turn_id) == Some(turn->0@)
            &&& thread is Some && opt_view(t.proxy_thread_id) == Some(thread->0@)
            &&& t.state == RequestState::Running || t.state == RequestState::ApprovalRequired
            &&& !t.stop_requested
            &&& deciding is Approval ==> deciding->Approval_0 is Some && {
                let a = deciding->Approval_0->0;
                &&& a.request_id@ == request@
                &&& !a.decided
                &&& a.pending
                &&& a.expires_at is None || a.expires_at->0 > now
            }
        },
{
}

} // verus!
