//! What the commands and buttons of the user do where requests run behind a proxy.
use crate::approval_ui::{
    approval_can_accept, approval_paths, refresh_approval, safe_text, typing_tick, ApprovalView,
};
use crate::command_replies::{
    approve, approve_reply, check_creation, check_steer_text, check_title, choose_model,
    created_thread, entry_from, new_conversation, resume_reply, stop_reply, ApprovalCheck, NewPlace,
};
use crate::commands::{
    answer_control, before_conversation, command, component, control_loop, control_slot, stop_meant,
    text_control_command, urgency, AppRoute, Component, ControlAnswer, ControlPlan, TextCommand,
    Urgency,
};
use crate::domain::{Conversation, RequestState};
use crate::json::{lookup, Json, JsonView};
use crate::text::{begins, ends, pieces, utf8_len, views, words};
use vstd::prelude::*;

verus! {

/// Stopping and cancelling are told from other operations by their name or their button, and are
/// urgent; so is declining.
pub proof fn stopping_is_urgent(v: &Json, u: Urgency, jobs: usize, slot: bool)
    requires
        call_ensures(urgency, (v,), u),
        call_ensures(control_slot, (jobs, u.urgent), slot),
    ensures
        ({
            let name = v@.at("data"@).at("name"@);
            let custom = v@.at("data"@).at("custom_id"@);
            &&& u.stop <==> name == JsonView::Text("stop"@) || custom is Text && begins(
                custom->Text_0,
                "stop:"@,
            )
            &&& u.cancel <==> name == JsonView::Text("cancel"@)
            &&& u.stop || u.cancel ==> u.urgent
            &&& custom is Text && ends(custom->Text_0, ":decline"@) ==> u.urgent
            &&& slot <==> jobs < 8 || u.urgent && jobs < 10
        }),
{
}

/// Only the allowed user in the guild is served, and a stop of that user is stored however busy the
/// gateway is.
pub proof fn stops_of_the_user_are_stored(
    v: &Json,
    guild: &str,
    user: &str,
    jobs: usize,
    r: ControlPlan,
)
    requires
        call_ensures(control_loop, (v, guild, user, jobs), r),
    ensures
        ({
            let own = v@.at("guild_id"@) == JsonView::Text(guild@) && (v@.at("member"@).at(
                "user"@,
            ).at("id"@) == JsonView::Text(user@) || !(v@.at("member"@).at("user"@).at("id"@) is Text)
                && v@.at("user"@).at("id"@) == JsonView::Text(user@));
            let name = v@.at("data"@).at("name"@);
            &&& r.pause || r.cancel || r.serve ==> own
            &&& own && name == JsonView::Text("stop"@) ==> r.pause
            &&& own && name == JsonView::Text("cancel"@) ==> r.cancel
            &&& own && jobs < 8 ==> r.serve
            &&& r.pause ==> name == JsonView::Text("stop"@) || v@.at("data"@).at("custom_id"@)
                is Text && begins(v@.at("data"@).at("custom_id"@)->Text_0, "stop:"@)
            &&& r.cancel ==> name == JsonView::Text("cancel"@)
        }),
{
}

/// The button of a request stops that request only.
pub proof fn stop_buttons_stop_their_request(v: &Json, active: Option<&str>, r: bool)
    requires
        call_ensures(stop_meant, (v, active), r),
    ensures
        !(v@.at("data"@).at("custom_id"@) is Text) ==> r,
        v@.at("data"@).at("custom_id"@) is Text && r ==> active is Some && ends(
            v@.at("data"@).at("custom_id"@)->Text_0,
            active->0@,
        ),
{
    if v@.at("data"@).at("custom_id"@) is Text && r {
        rest_ends_the_text(v@.at("data"@).at("custom_id"@)->Text_0, "stop:"@);
    }
}

proof fn rest_ends_the_text(s: Seq<char>, p: Seq<char>)
    ensures
        ends(s, crate::commands::without_beginning(s, p)),
    decreases s.len(),
{
    let r = crate::commands::without_beginning(s, p);
    if p.len() > 0 && begins(s, p) {
        let t = s.skip(p.len() as int);
        rest_ends_the_text(t, p);
        assert(s.skip(s.len() - r.len()) =~= t.skip(t.len() - r.len()));
    } else {
        assert(s.skip(0) =~= s);
    }
}

/// A control whose outcome is not confirmed is told as such, and an approval that succeeded is told by
/// its card.
pub proof fn unconfirmed_controls_are_told(
    approval: bool,
    outcome: Option<String>,
    r: ControlAnswer,
)
    requires
        call_ensures(answer_control, (approval, outcome), r),
    ensures
        r is Failure <==> approval && outcome is None,
        !approval && outcome is None ==> r is Reply && r->Reply_0@
            == "操作を完了確認できませんでした。/status で確認してください。実行要求の自動再送はしません。"@,
        !approval && outcome is Some && outcome->0@.len() > 0 ==> r is Reply && r->Reply_0@
            == outcome->0@,
        approval && outcome is Some ==> r is Quiet,
{
    let k = r@;
}

/// A component goes where its identity says.
pub proof fn components_go_where_they_say(v: &Json, r: Component)
    requires
        call_ensures(component, (v,), r),
    ensures
        ({
            let custom = v@.at("data"@).at("custom_id"@);
            &&& r == Component::Policy <==> custom is Text && begins(custom->Text_0, "ma6:"@)
            &&& r == Component::Inline ==> custom is Text && begins(custom->Text_0, "mi:"@)
            &&& r == Component::Turn ==> custom is Text && begins(custom->Text_0, "mt:"@)
            &&& r == Component::Form ==> custom is Text && begins(custom->Text_0, "mcp:"@)
            &&& r == Component::Approval ==> custom is Text && begins(custom->Text_0, "approval:"@)
                && v@.at("type"@) == JsonView::Unsigned(3)
            &&& !(custom is Text) ==> r == Component::Command
        }),
{
}

/// A command in a message changes the model only where it names one, and is never sent as a request.
pub proof fn written_commands_choose_models(
    content: &str,
    attached: bool,
    r: TextCommand,
)
    requires
        call_ensures(text_control_command, (content, attached), r),
    ensures
        r is Run ==> words(content@).len() > 0 && (words(content@)[0] == "/model"@ || words(
            content@,
        )[0] == "/models"@) && !attached,
        r is Run && r->model is Some ==> words(content@)[0] == "/model"@ && r->name@ == "model"@
            && r->model->0@.len() > 0,
        words(content@).len() == 1 && words(content@)[0] == "/models"@ && !attached ==> r is Run
            && r->name@ == "models"@ && r->model is None,
        words(content@).len() == 1 && words(content@)[0] == "/model"@ && !attached ==> r is Run
            && r->name@ == "model"@ && r->model is None,
{
    let k = r@;
    reveal_strlit("/model");
    reveal_strlit("/models");
    reveal_strlit("/project");
    assert("/model"@.len() == 6 && "/models"@.len() == 7 && "/project"@.len() == 8);
}

/// While the gateway recovers or reloads, only the status, stopping and cancelling are served.
pub proof fn stopping_is_served_during_recovery(
    v: &Json,
    stopped: bool,
    busy: bool,
    r: Result<Option<AppRoute>, &'static str>,
)
    requires
        call_ensures(before_conversation, (v, stopped, busy), r),
    ensures
        ({
            let name = v@.at("data"@).at("name"@);
            &&& r is Ok && busy && !stopped ==> name == JsonView::Text("status"@) || name
                == JsonView::Text("stop"@) || name == JsonView::Text("cancel"@)
            &&& v@.at("channel_id"@) is Text && v@.at("id"@) is Text && (name == JsonView::Text(
                "stop"@,
            ) || name == JsonView::Text("cancel"@) || name == JsonView::Text("status"@)) ==> r is Ok
            &&& r is Ok && r->Ok_0 is Some && r->Ok_0->0 is Models ==> name == JsonView::Text(
                "models"@,
            )
            &&& r is Ok && r->Ok_0 is Some && r->Ok_0->0 is New ==> name == JsonView::Text("new"@)
        }),
{
    reveal_strlit("status");
    reveal_strlit("stop");
    reveal_strlit("cancel");
    reveal_strlit("project");
    reveal_strlit("models");
    reveal_strlit("new");
    assert("status"@.len() == 6 && "stop"@.len() == 4 && "cancel"@.len() == 6 && "project"@.len() == 7 && "models"@.len() == 6 && "new"@.len() == 3);
    assert("status"@[0] != "cancel"@[0]);
    assert("status"@[0] != "models"@[0]);
    assert("cancel"@[0] != "models"@[0]);
    reveal_strlit("");
    let k = r->Ok_0->0@;
    assert("models"@.len() > 0 && "new"@.len() > 0);
}

/// A command does what its name says, and a button of an approval what it names.
pub proof fn proxied_commands_do_what_they_say(
    v: &Json,
    stopped: bool,
    r: Result<AppRoute, &'static str>,
)
    requires
        call_ensures(command, (v, stopped), r),
    ensures
        ({
            let name = v@.at("data"@).at("name"@);
            let custom = v@.at("data"@).at("custom_id"@);
            &&& r is Ok && r->Ok_0 is Stop ==> stopped
            &&& stopped && name != JsonView::Text("model"@) ==> r is Ok && r->Ok_0 is Stop
            &&& r is Ok && r->Ok_0 is Status ==> name == JsonView::Text("status"@)
            &&& r is Ok && r->Ok_0 is Cancel ==> name == JsonView::Text("cancel"@)
            &&& r is Ok && r->Ok_0 is Resume ==> name == JsonView::Text("resume"@)
            &&& r is Ok && r->Ok_0 is Steer ==> name == JsonView::Text("steer"@)
            &&& r is Ok && r->Ok_0 is RetryMenu ==> name == JsonView::Text("retry"@)
            &&& !stopped && !(custom is Text) && name == JsonView::Text("status"@) ==> r is Ok
                && r->Ok_0 is Status
            &&& !stopped && !(custom is Text) && name == JsonView::Text("cancel"@) ==> r is Ok
                && r->Ok_0 is Cancel
            &&& !stopped && !(custom is Text) && name == JsonView::Text("resume"@) ==> r is Ok
                && r->Ok_0 is Resume
            &&& r is Ok && r->Ok_0 is Approve ==> custom is Text && pieces(
                custom->Text_0,
                ':',
            ).len() == 3 && pieces(custom->Text_0, ':')[0] == "approval"@ && pieces(
                custom->Text_0,
                ':',
            )[1] == r->Ok_0->approval@ && pieces(custom->Text_0, ':')[2] == r->Ok_0->decision@
        }),
{
    reveal_strlit("status");
    reveal_strlit("cancel");
    reveal_strlit("resume");
    reveal_strlit("model");
    reveal_strlit("mcp");
    reveal_strlit("steer");
    reveal_strlit("workspace");
    reveal_strlit("retry");
    reveal_strlit("get");
    assert("status"@.len() == 6 && "cancel"@.len() == 6 && "resume"@.len() == 6 && "model"@.len() == 5 && "mcp"@.len() == 3 && "steer"@.len() == 5 && "workspace"@.len() == 9 && "retry"@.len() == 5 && "get"@.len() == 3);
    assert("status"@[0] != "cancel"@[0]);
    assert("status"@[0] != "resume"@[0]);
    assert("cancel"@[0] != "resume"@[0]);
    assert("model"@[0] != "steer"@[0]);
    assert("model"@[0] != "retry"@[0]);
    assert("mcp"@[0] != "get"@[0]);
    assert("steer"@[0] != "retry"@[0]);
    reveal_strlit("");
    let k = r->Ok_0@;
}

/// A decision is sent only for an approval of this conversation and of the turn that runs, while it is
/// pending and offers that decision. There are three decisions.
pub proof fn offered_decisions_are_sent(
    current: &Json,
    decision: &str,
    request_thread: &str,
    thread: &str,
    proxy_thread: Option<&str>,
    turn: Option<&str>,
    r: Result<ApprovalCheck, &'static str>,
)
    requires
        call_ensures(approve, (current, decision, request_thread, thread, proxy_thread, turn), r),
    ensures
        r is Ok ==> decision@ == "accept"@ || decision@ == "decline"@ || decision@ == "cancel"@,
        r is Ok ==> request_thread@ == thread@,
        r is Ok && proxy_thread is Some ==> current@.at("details"@).at("threadId"@)
            == JsonView::Text(proxy_thread->0@),
        r is Ok && turn is Some ==> current@.at("details"@).at("turnId"@) == JsonView::Text(
            turn->0@,
        ),
        r is Ok && r->Ok_0 == ApprovalCheck::Send ==> current@.at("state"@) == JsonView::Text(
            "pending"@,
        ) && current@.at("available_decisions"@).lists(decision@),
        r is Ok && current@.at("state"@) == JsonView::Text("pending"@) ==> r->Ok_0
            == ApprovalCheck::Send,
{
}

/// The user is told that the operation was accepted only where it was.
pub proof fn decisions_are_told_as_taken(check: ApprovalCheck, decision: &str, r: &'static str)
    requires
        call_ensures(approve_reply, (check, decision), r),
    ensures
        r@ == "今回の操作を承認しました。続きの回答はこの会話に届きます。"@ <==> check
            != ApprovalCheck::Closed && decision@ == "accept"@,
        check != ApprovalCheck::Closed && decision@ == "decline"@ ==> r@
            == "この操作を拒否しました。"@,
        check != ApprovalCheck::Closed && decision@ == "cancel"@ ==> r@
            == "この承認を取り消しました。"@,
{
    reveal_strlit("accept");
    reveal_strlit("decline");
    reveal_strlit("cancel");
    assert("accept"@.len() == 6 && "decline"@.len() == 7 && "cancel"@.len() == 6);
    assert("accept"@[0] != "cancel"@[0]);
    reveal_strlit("今回の操作を承認しました。続きの回答はこの会話に届きます。");
    reveal_strlit("この操作を拒否しました。");
    reveal_strlit("この承認を取り消しました。");
    reveal_strlit("この承認は回答済み、または期限切れです。元の作業は再実行していません。");
    assert("今回の操作を承認しました。続きの回答はこの会話に届きます。"@.len() == 29 && "この操作を拒否しました。"@.len() == 12 && "この承認を取り消しました。"@.len() == 13 && "この承認は回答済み、または期限切れです。元の作業は再実行していません。"@.len() == 35);
}

/// Stopping and resuming are told as they went.
pub proof fn stopping_and_resuming_are_told(
    interrupting: bool,
    stopped: &'static str,
    fresh: bool,
    changed: bool,
    resumed: &'static str,
)
    requires
        call_ensures(stop_reply, (interrupting,), stopped),
        call_ensures(resume_reply, (fresh, changed), resumed),
    ensures
        interrupting ==> stopped@
            == "待機列を一時停止しました。実行中の依頼へ中断を要求しています。停止完了は /status で確認してください。"@,
        !interrupting ==> stopped@ == "待機列を一時停止しました。/resume で再開できます。"@,
        !fresh ==> resumed@ == "この操作は受付済みです。"@,
        fresh && changed ==> resumed@
            == "待機列の自動開始を再開しました。UNKNOWNや権限・接続の問題は別途解消が必要です。"@,
        fresh && !changed ==> resumed@ == "後続の停止操作などにより再開しませんでした。"@,
{
}

proof fn entries_are_found(list: Seq<JsonView>, id: Seq<char>, from: nat)
    requires
        from <= list.len(),
    ensures
        match entry_from(list, id, from) {
            Some(v) => v.at("id"@) == JsonView::Text(id) && list.contains(v),
            None => forall|i: int|
                from <= i < list.len() ==> (#[trigger] list[i]).at("id"@) != JsonView::Text(id),
        },
    decreases list.len() - from,
{
    if from < list.len() {
        entries_are_found(list, id, from + 1);
        if list[from as int].at("id"@) == JsonView::Text(id) {
            assert(list.contains(list[from as int]));
        }
    }
}

/// A model is chosen only where it is listed, and a conversation that began does not change its
/// provider.
pub proof fn conversations_keep_their_provider(
    models: &Json,
    desired: &str,
    c: &Conversation,
    r: Result<(), &'static str>,
)
    requires
        call_ensures(choose_model, (models, desired, c), r),
        r is Ok,
    ensures
        ({
            let list = models@.at("data"@);
            &&& list is Array
            &&& exists|i: int|
                0 <= i < list->Array_0.len() && (#[trigger] list->Array_0[i]).at("id"@)
                    == JsonView::Text(desired@)
            &&& c.proxy_thread_id is Some ==> exists|i: int, j: int|
                0 <= i < list->Array_0.len() && 0 <= j < list->Array_0.len() && (
                #[trigger] list->Array_0[i]).at("id"@) == JsonView::Text(desired@) && (
                #[trigger] list->Array_0[j]).at("id"@) == JsonView::Text(
                    if c.effective_model is Some {
                        c.effective_model->0@
                    } else {
                        c.selected_model@
                    },
                ) && list->Array_0[i].at("owned_by"@) == list->Array_0[j].at("owned_by"@)
        }),
{
    let list = models@.at("data"@)->Array_0;
    let current = if c.effective_model is Some {
        c.effective_model->0@
    } else {
        c.selected_model@
    };
    entries_are_found(list, desired@, 0);
    entries_are_found(list, current, 0);
    let a = entry_from(list, desired@, 0)->0;
    let i = choose|i: int| 0 <= i < list.len() && list[i] == a;
    assert(list[i].at("id"@) == JsonView::Text(desired@));
    if c.proxy_thread_id is Some {
        let b = entry_from(list, current, 0)->0;
        let j = choose|j: int| 0 <= j < list.len() && list[j] == b;
        assert(list[j].at("id"@) == JsonView::Text(current));
    }
}

/// A conversation is created once, in a text channel or forum of the guild, and counts as created
/// only under the receipt of that channel.
pub proof fn conversations_are_created_in_channels(
    channel: &Json,
    guild: &str,
    r: Result<NewPlace, &'static str>,
    receipt: &Json,
    id: &str,
    created: Result<String, &'static str>,
    first: bool,
    attempt: Result<(), &'static str>,
    title: &str,
    named: Result<(), &'static str>,
)
    requires
        call_ensures(new_conversation, (channel, guild), r),
        call_ensures(created_thread, (receipt, id, guild), created),
        call_ensures(check_creation, (first,), attempt),
        call_ensures(check_title, (title,), named),
    ensures
        r is Ok ==> channel@.at("guild_id"@) == JsonView::Text(guild@) && (channel@.at("type"@)
            == JsonView::Unsigned(0) || channel@.at("type"@) == JsonView::Unsigned(15)),
        r is Ok && r->Ok_0 is Channel ==> channel@.at("id"@) == JsonView::Text(
            r->Ok_0->Channel_0@,
        ),
        created is Ok <==> receipt@.at("id"@) is Text && receipt@.at("parent_id"@) == JsonView::Text(
            id@,
        ) && receipt@.at("guild_id"@) == JsonView::Text(guild@),
        attempt is Ok <==> first,
        named is Ok <==> 1 <= title@.len() <= 100,
{
}

/// Further input is not empty and stays within its limit.
pub proof fn further_input_is_bounded(s: &str, limit: usize, r: Result<(), &'static str>)
    requires
        call_ensures(check_steer_text, (s, limit), r),
        r is Ok,
    ensures
        s@.len() > 0,
        utf8_len(s@) <= limit,
{
}

/// An operation can be accepted only where it is shown what is accepted: a command, or the files it
/// changes; and only where accepting is offered. More than the files, a whole folder, is never
/// accepted.
pub proof fn only_shown_operations_are_accepted(
    view: &Json,
    r: bool,
    d: &Json,
    paths: Option<Vec<String>>,
)
    requires
        call_ensures(approval_can_accept, (view,), r),
        view@.at("details"@) == d@,
        call_ensures(approval_paths, (d,), paths),
    ensures
        r ==> view@.at("available_decisions"@).lists("accept"@),
        r ==> d@.at("command"@) is Text && d@.at("command"@)->Text_0.len() > 0 || paths is Some,
        paths is Some ==> d@.at("grantRoot"@) == JsonView::Null && paths->0@.len() > 0,
        d@.at("command"@) is Text && !crate::text::blank(d@.at("command"@)->Text_0) && view@.at(
            "available_decisions"@,
        ).lists("accept"@) ==> r,
{
    if paths is Some {
        assert(views(paths->0@).len() == paths->0@.len());
    }
}

/// The buttons of an approval decide what they say, of this approval, and accepting is offered only
/// where it can be; an approval that is not open any more has none.
pub proof fn approval_buttons_decide_what_they_say(
    answer: Option<&Json>,
    id: &str,
    thread: Option<&str>,
    turn: Option<&str>,
    state: RequestState,
    local: &str,
    now: i64,
    r: Result<ApprovalView, &'static str>,
    can: bool,
    i: int,
)
    requires
        call_ensures(refresh_approval, (answer, id, thread, turn, state, local, now), r),
        answer is Some ==> call_ensures(approval_can_accept, (answer->0,), can),
        r is Ok,
        r->Ok_0.components@ != JsonView::Array(Seq::empty()),
    ensures
        ({
            let v = answer->0@;
            let buttons = r->Ok_0.components@.item(0).at("components"@);
            let custom = buttons.item(i).at("custom_id"@);
            let label = buttons.item(i).at("label"@);
            &&& answer is Some
            &&& !r->Ok_0.closed
            &&& v.at("id"@) == JsonView::Text(id@)
            &&& v.at("state"@) == JsonView::Text("pending"@)
            &&& state != RequestState::Completed && state != RequestState::Failed && state
                != RequestState::Cancelled
            &&& thread is Some ==> v.at("details"@).at("threadId"@) == JsonView::Text(thread->0@)
            &&& turn is Some ==> v.at("details"@).at("turnId"@) == JsonView::Text(turn->0@)
            &&& buttons is Array
            &&& 0 <= i < buttons->Array_0.len() ==> {
                ||| can && custom == JsonView::Text("approval:"@ + id@ + ":accept"@) && label
                    == JsonView::Text("今回のみ承認"@)
                ||| v.at("available_decisions"@).lists("decline"@) && custom == JsonView::Text(
                    "approval:"@ + id@ + ":decline"@,
                ) && label == JsonView::Text("拒否"@)
                ||| v.at("available_decisions"@).lists("cancel"@) && custom == JsonView::Text(
                    "approval:"@ + id@ + ":cancel"@,
                ) && label == JsonView::Text("取消"@)
            }
        }),
{
    reveal_strlit("custom_id");
    reveal_strlit("label");
    reveal_strlit("style");
    reveal_strlit("type");
    assert("custom_id"@.len() == 9 && "label"@.len() == 5 && "style"@.len() == 5 && "type"@.len() == 4);
    assert("label"@[0] != "style"@[0]);
    reveal_with_fuel(lookup, 5);
    let bar = r->Ok_0.components@->Array_0[0]->Object_0;
    assert(bar[0].0 == "components"@);
    let buttons = bar[0].1->Array_0;
    if 0 <= i < buttons.len() {
        let m = buttons[i]->Object_0;
        assert(m[0].0 == "custom_id"@ && m[1].0 == "label"@);
    }
}

/// A card says that an operation was accepted only where the acceptance was sent.
pub proof fn cards_say_how_an_approval_went(
    answer: Option<&Json>,
    id: &str,
    thread: Option<&str>,
    turn: Option<&str>,
    state: RequestState,
    local: &str,
    now: i64,
    r: Result<ApprovalView, &'static str>,
)
    requires
        call_ensures(refresh_approval, (answer, id, thread, turn, state, local, now), r),
        r is Ok,
        answer is Some,
        answer->0@.at("state"@) != JsonView::Text("pending"@),
    ensures
        r->Ok_0.text@ == "承認をCodexへ送りました。続きの回答はこの会話に届きます。"@
            <==> answer->0@.at("state"@) == JsonView::Text("approved"@) && answer->0@.at(
            "reply_status"@,
        ) == JsonView::Text("written"@),
        answer->0@.at("state"@) == JsonView::Text("denied"@) ==> r->Ok_0.text@
            == "この操作を拒否しました。"@,
        answer->0@.at("state"@) == JsonView::Text("cancelled"@) ==> r->Ok_0.text@
            == "この承認を取り消しました。"@,
        answer->0@.at("state"@) == JsonView::Text("expired"@) ==> r->Ok_0.text@
            == "承認の期限が切れました。このボタンからは実行できません。"@,
{
    reveal_strlit("approved");
    reveal_strlit("denied");
    reveal_strlit("cancelled");
    reveal_strlit("expired");
    assert("approved"@.len() == 8 && "denied"@.len() == 6 && "cancelled"@.len() == 9 && "expired"@.len() == 7);
    reveal_strlit("承認をCodexへ送りました。続きの回答はこの会話に届きます。");
    reveal_strlit("この操作を拒否しました。");
    reveal_strlit("この承認を取り消しました。");
    reveal_strlit("承認の期限が切れました。このボタンからは実行できません。");
    reveal_strlit("作業が終了したため、この承認は操作できません。");
    reveal_strlit("承認の送信状況を確認しています。重複送信せずに待っています。");
    assert("承認をCodexへ送りました。続きの回答はこの会話に届きます。"@.len() == 31 && "この操作を拒否しました。"@.len() == 12 && "この承認を取り消しました。"@.len() == 13 && "承認の期限が切れました。このボタンからは実行できません。"@.len() == 28 && "作業が終了したため、この承認は操作できません。"@.len() == 23 && "承認の送信状況を確認しています。重複送信せずに待っています。"@.len() == 30);
}

/// Something is shown as written only while the request runs and nothing waits for the user.
pub proof fn writing_is_shown_while_running(
    state: RequestState,
    approval: bool,
    dialogue: bool,
    r: bool,
)
    requires
        call_ensures(typing_tick, (state, approval, dialogue), r),
    ensures
        r <==> (state == RequestState::Sending || state == RequestState::Running) && !approval
            && !dialogue,
{
}

/// What is quoted mentions nobody and does not leave its quotation.
pub proof fn quotations_mention_nobody(s: &str, limit: usize, r: String, i: int)
    requires
        call_ensures(safe_text, (s, limit), r),
        0 <= i < r@.len(),
    ensures
        r@[i] != '@',
        r@[i] != '`',
{
    crate::approval_ui::quoted_text_is_harmless(s@, limit as nat, i);
}

} // verus!
