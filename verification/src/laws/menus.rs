//! What the user is shown to choose from, and what the user is told.
use crate::codex_execution::{ModelPages, PageStep};
use crate::codex_transport::TransportError;
use crate::config::Limits;
use crate::direct_commands::{
    effort_selected, get_reply, model_selected, status_reply, workspace_reply,
};
use crate::direct_daemon::{accepted_notice, refused_notice, Notice};
use crate::direct_menus::{effort_menu, model_menu, options_among};
use crate::direct_models::{DirectModel, DirectReasoningEffort};
use crate::domain::{Conversation, RequestState};
use crate::json::{lookup, trees, Json, JsonView};
use crate::text::{begins, holds, utf8_len, views};
use vstd::prelude::*;

verus! {

/// A text that ends a longer one, or begins it, stands in it.
proof fn parts_stand_in_the_whole(a: Seq<char>, b: Seq<char>, c: Seq<char>)
    ensures
        holds(a + b + c, b),
        holds(a + b, b),
        holds(a + b, a),
{
    assert((a + b + c).subrange(a.len() as int, a.len() as int + b.len()) =~= b);
    assert((a + b).subrange(a.len() as int, a.len() as int + b.len()) =~= b);
    assert((a + b).subrange(0, 0 + a.len() as int) =~= a);
}

/// The choices of a menu: entries of the list, in their order, at most twenty-five, the current one
/// and no other marked.
proof fn choices_are_entries(entries: Seq<(Seq<char>, Seq<char>)>, current: Seq<char>, n: nat)
    requires
        n <= entries.len(),
    ensures
        ({
            let shown = options_among(entries, current, n);
            &&& shown.len() <= 25
            &&& shown.len() <= n
            &&& forall|i: int|
                0 <= i < shown.len() ==> exists|k: int|
                    0 <= k < n && (#[trigger] shown[i]).at("value"@) == JsonView::Text(
                        (#[trigger] entries[k]).0,
                    ) && shown[i].at("label"@) == JsonView::Text(entries[k].0) && (shown[i].at(
                        "default"@,
                    ) == JsonView::Bool(entries[k].0 == current))
            &&& forall|k: int|
                0 <= k < n && utf8_len((#[trigger] entries[k]).0) <= 100 && shown.len() < 25
                    ==> exists|i: int|
                    0 <= i < shown.len() && (#[trigger] shown[i]).at("value"@) == JsonView::Text(
                        entries[k].0,
                    )
        }),
    decreases n,
{
    reveal_strlit("default");
    reveal_strlit("description");
    reveal_strlit("label");
    reveal_strlit("value");
    assert("default"@.len() == 7 && "description"@.len() == 11 && "label"@.len() == 5 && "value"@.len() == 5);
    assert("label"@[0] != "value"@[0]);
    reveal_with_fuel(lookup, 5);
    if n > 0 {
        let m = (n - 1) as nat;
        choices_are_entries(entries, current, m);
        let before = options_among(entries, current, m);
        let shown = options_among(entries, current, n);
        let e = entries[m as int];
        if utf8_len(e.0) <= 100 && before.len() < 25 {
            let last = shown[before.len() as int];
            let o = last->Object_0;
            assert(o[0].0 == "default"@ && o[1].0 == "description"@ && o[2].0 == "label"@ && o[3].0
                == "value"@);
            assert(last.at("value"@) == JsonView::Text(e.0));
            assert forall|i: int| 0 <= i < shown.len() implies exists|k: int|
                0 <= k < n && (#[trigger] shown[i]).at("value"@) == JsonView::Text(
                    (#[trigger] entries[k]).0,
                ) && shown[i].at("label"@) == JsonView::Text(entries[k].0) && (shown[i].at(
                    "default"@,
                ) == JsonView::Bool(entries[k].0 == current)) by {
                if i < before.len() {
                    assert(shown[i] == before[i]);
                    let k = choose|k: int|
                        0 <= k < m && before[i].at("value"@) == JsonView::Text(
                            (#[trigger] entries[k]).0,
                        ) && before[i].at("label"@) == JsonView::Text(entries[k].0) && (
                        before[i].at("default"@) == JsonView::Bool(entries[k].0 == current));
                    assert(shown[i].at("value"@) == JsonView::Text(entries[k].0));
                } else {
                    assert(shown[i].at("value"@) == JsonView::Text(entries[m as int].0));
                }
            }
            assert forall|k: int|
                0 <= k < n && utf8_len((#[trigger] entries[k]).0) <= 100 && shown.len()
                    < 25 implies exists|i: int|
                0 <= i < shown.len() && (#[trigger] shown[i]).at("value"@) == JsonView::Text(
                    entries[k].0,
                ) by {
                if k < m {
                    let i = choose|i: int|
                        0 <= i < before.len() && (#[trigger] before[i]).at("value"@)
                            == JsonView::Text(entries[k].0);
                    assert(shown[i] == before[i]);
                } else {
                    assert(shown[before.len() as int].at("value"@) == JsonView::Text(entries[k].0));
                }
            }
        }
    }
}

/// The menu of models offers models of the list only, each under its own identity, marks the one that
/// is selected, takes one of them, and is read back as a choice of models.
pub proof fn the_menu_offers_the_models(
    models: &Vec<DirectModel>,
    current: &str,
    interaction: &str,
    r: (String, Json),
    i: int,
)
    requires
        call_ensures(model_menu, (models, current, interaction), r),
        r.1@ != JsonView::Array(Seq::empty()),
    ensures
        ({
            let menu = r.1@.item(0).at("components"@).item(0);
            let options = menu.at("options"@);
            &&& menu.at("custom_id"@) == JsonView::Text("direct:model:"@ + interaction@)
            &&& menu.at("min_values"@) == JsonView::Unsigned(1)
            &&& menu.at("max_values"@) == JsonView::Unsigned(1)
            &&& options is Array
            &&& options->Array_0.len() <= 25
            &&& 0 <= i < options->Array_0.len() ==> exists|k: int|
                0 <= k < models@.len() && options->Array_0[i].at("value"@) == JsonView::Text(
                    (#[trigger] models@[k]).id@,
                ) && options->Array_0[i].at("default"@) == JsonView::Bool(
                    models@[k].id@ == current@,
                )
        }),
{
    reveal_strlit("custom_id");
    reveal_strlit("max_values");
    reveal_strlit("min_values");
    reveal_strlit("options");
    reveal_strlit("placeholder");
    reveal_strlit("type");
    assert("custom_id"@.len() == 9 && "max_values"@.len() == 10 && "min_values"@.len() == 10 && "options"@.len() == 7 && "placeholder"@.len() == 11 && "type"@.len() == 4);
    assert("max_values"@[1] != "min_values"@[1]);
    reveal_with_fuel(lookup, 7);
    let entries = crate::direct_menus::model_entries(crate::direct_models::model_views(models@));
    choices_are_entries(entries, current@, entries.len());
    let bar = r.1@->Array_0[0]->Object_0;
    assert(bar[0].0 == "components"@);
    let menu = bar[0].1->Array_0[0]->Object_0;
    assert(menu[0].0 == "custom_id"@ && menu[1].0 == "max_values"@ && menu[2].0 == "min_values"@
        && menu[3].0 == "options"@);
    let shown = menu[3].1->Array_0;
    if 0 <= i < shown.len() {
        let k = choose|k: int|
            0 <= k < entries.len() && shown[i].at("value"@) == JsonView::Text(
                (#[trigger] entries[k]).0,
            ) && shown[i].at("label"@) == JsonView::Text(entries[k].0) && (shown[i].at("default"@)
                == JsonView::Bool(entries[k].0 == current@));
        assert(entries[k].0 == models@[k].id@);
    }
}

/// The menu of efforts offers efforts of the model only, each under its own name, and marks the one
/// that is selected.
pub proof fn the_menu_offers_the_efforts(
    efforts: &Vec<DirectReasoningEffort>,
    current: &str,
    interaction: &str,
    r: (String, Json),
    i: int,
)
    requires
        call_ensures(effort_menu, (efforts, current, interaction), r),
        r.1@ != JsonView::Array(Seq::empty()),
    ensures
        ({
            let menu = r.1@.item(0).at("components"@).item(0);
            let options = menu.at("options"@);
            &&& menu.at("custom_id"@) == JsonView::Text("direct:effort:"@ + interaction@)
            &&& options is Array
            &&& options->Array_0.len() <= 25
            &&& 0 <= i < options->Array_0.len() ==> exists|k: int|
                0 <= k < efforts@.len() && options->Array_0[i].at("value"@) == JsonView::Text(
                    (#[trigger] efforts@[k]).id@,
                ) && options->Array_0[i].at("default"@) == JsonView::Bool(
                    efforts@[k].id@ == current@,
                )
        }),
{
    reveal_strlit("custom_id");
    reveal_strlit("max_values");
    reveal_strlit("min_values");
    reveal_strlit("options");
    reveal_strlit("placeholder");
    reveal_strlit("type");
    assert("custom_id"@.len() == 9 && "max_values"@.len() == 10 && "min_values"@.len() == 10 && "options"@.len() == 7 && "placeholder"@.len() == 11 && "type"@.len() == 4);
    assert("max_values"@[1] != "min_values"@[1]);
    reveal_with_fuel(lookup, 7);
    let entries = crate::direct_models::effort_views(efforts@);
    choices_are_entries(entries, current@, entries.len());
    let bar = r.1@->Array_0[0]->Object_0;
    assert(bar[0].0 == "components"@);
    let menu = bar[0].1->Array_0[0]->Object_0;
    assert(menu[0].0 == "custom_id"@ && menu[1].0 == "max_values"@ && menu[2].0 == "min_values"@
        && menu[3].0 == "options"@);
    let shown = menu[3].1->Array_0;
    if 0 <= i < shown.len() {
        let k = choose|k: int|
            0 <= k < entries.len() && shown[i].at("value"@) == JsonView::Text(
                (#[trigger] entries[k]).0,
            ) && shown[i].at("label"@) == JsonView::Text(entries[k].0) && (shown[i].at("default"@)
                == JsonView::Bool(entries[k].0 == current@));
        assert(entries[k].0 == efforts@[k].id@);
    }
}

/// The lines of a text, each of a head and what it tells, stand in it.
proof fn lines_stand_in_the_text(
    s: Seq<char>,
    h1: Seq<char>,
    v1: Seq<char>,
    h2: Seq<char>,
    v2: Seq<char>,
    h3: Seq<char>,
    v3: Seq<char>,
    h4: Seq<char>,
    v4: Seq<char>,
    h5: Seq<char>,
    rest: Seq<char>,
)
    requires
        s == h1 + v1 + h2 + v2 + h3 + v3 + h4 + v4 + h5 + rest,
    ensures
        begins(s, h1 + v1),
        holds(s, h2 + v2 + h3),
        holds(s, h3 + v3 + h4),
        holds(s, h4 + v4 + h5),
{
    let a = h1 + v1;
    assert(s.take(a.len() as int) =~= a);
    let b = h2 + v2 + h3;
    let c = v3 + h4 + v4 + h5 + rest;
    assert(s =~= a + b + c);
    parts_stand_in_the_whole(a, b, c);
    let a2 = h1 + v1 + h2 + v2;
    let b2 = h3 + v3 + h4;
    let c2 = v4 + h5 + rest;
    assert(s =~= a2 + b2 + c2);
    parts_stand_in_the_whole(a2, b2, c2);
    let a3 = h1 + v1 + h2 + v2 + h3 + v3;
    let b3 = h4 + v4 + h5;
    assert(s =~= a3 + b3 + rest);
    parts_stand_in_the_whole(a3, b3, rest);
}

/// The status names what runs, whether the queue is stopped, and the model and the effort that are
/// selected.
pub proof fn the_status_tells_what_is(
    active: Option<RequestState>,
    c: &Conversation,
    blocked: bool,
    r: String,
)
    requires
        call_ensures(status_reply, (active, c, blocked), r),
    ensures
        active == Some(RequestState::Running) ==> begins(r@, "実行中: "@ + "RUNNING"@),
        active == Some(RequestState::ApprovalRequired) ==> begins(
            r@,
            "実行中: "@ + "APPROVAL_REQUIRED"@,
        ),
        active is None ==> begins(r@, "実行中: "@ + "なし"@),
        c.paused ==> holds(r@, "\n待機列: "@ + "停止中"@ + "\n選択モデル: "@),
        !c.paused ==> holds(r@, "\n待機列: "@ + "再開済み"@ + "\n選択モデル: "@),
        holds(r@, "\n選択モデル: "@ + c.selected_model@ + "\n推論レベル: "@),
        holds(r@, "\n推論レベル: "@ + c.selected_reasoning_effort@ + "\n会話状態: "@),
{
    let first = match active {
        Some(s) => s.name(),
        None => "なし"@,
    };
    let queue = if c.paused {
        "停止中"@
    } else {
        "再開済み"@
    };
    let tail = if blocked {
        "\n前の作業が結果不明です。/recover で復旧内容を確認できます。/resume だけでは解除されません。"@
    } else {
        Seq::<char>::empty()
    };
    let head = "実行中: "@ + first + "\n待機列: "@ + queue + "\n選択モデル: "@ + c.selected_model@
        + "\n推論レベル: "@ + c.selected_reasoning_effort@ + "\n会話状態: "@;
    assert(r@ =~= head + (c.continuation@ + tail));
    lines_stand_in_the_text(
        r@,
        "実行中: "@,
        first,
        "\n待機列: "@,
        queue,
        "\n選択モデル: "@,
        c.selected_model@,
        "\n推論レベル: "@,
        c.selected_reasoning_effort@,
        "\n会話状態: "@,
        c.continuation@ + tail,
    );
}

/// The user is told the model that was chosen and that it applies, or the one that stays.
pub proof fn choices_are_told_as_they_hold(
    applied: bool,
    current: &str,
    adjusted: Option<&str>,
    r: String,
    effort: String,
)
    requires
        call_ensures(model_selected, (applied, current, adjusted), r),
        call_ensures(effort_selected, (applied, current), effort),
    ensures
        holds(r@, current@),
        holds(effort@, current@),
        applied ==> begins(r@, "選択中のモデルを "@) && begins(effort@, "選択中の推論レベルを "@),
        !applied ==> begins(r@, "より新しいモデル選択が優先されています。"@) && begins(
            effort@,
            "より新しい推論レベル選択が優先されています。"@,
        ),
        applied && adjusted is Some ==> holds(r@, adjusted->0@),
{
    let none = Seq::<char>::empty();
    let p = "選択中のモデルを "@;
    let q = "選択中の推論レベルを "@;
    reveal_strlit("より新しいモデル選択が優先されています。");
    reveal_strlit("より新しいモデル選択が優先されています。現在のモデル: ");
    reveal_strlit("より新しい推論レベル選択が優先されています。");
    reveal_strlit("より新しい推論レベル選択が優先されています。現在: ");
    if applied {
        let rest = r@.skip((p.len() + current@.len()) as int);
        assert(r@ =~= p + current@ + rest);
        assert(r@.take(p.len() as int) =~= p);
        parts_stand_in_the_whole(p, current@, rest);
        let end = effort@.skip((q.len() + current@.len()) as int);
        assert(effort@ =~= q + current@ + end);
        assert(effort@.take(q.len() as int) =~= q);
        parts_stand_in_the_whole(q, current@, end);
        if adjusted is Some {
            let head = p + current@
                + " に変更しました。このモデルで使えるよう、推論レベルは "@;
            parts_stand_in_the_whole(
                head,
                adjusted->0@,
                " に合わせました。次の依頼から使います。"@,
            );
        }
    } else {
        let a = "より新しいモデル選択が優先されています。現在のモデル: "@;
        let b = "より新しい推論レベル選択が優先されています。現在: "@;
        let sa = "より新しいモデル選択が優先されています。"@;
        let sb = "より新しい推論レベル選択が優先されています。"@;
        assert(r@.take(sa.len() as int) =~= sa);
        assert(effort@.take(sb.len() as int) =~= sb);
        parts_stand_in_the_whole(a, current@, none);
        parts_stand_in_the_whole(b, current@, none);
    }
}

/// The user is told that the message was taken but waits only where it does.
pub proof fn waiting_is_told_where_it_is(blocked: bool, paused: bool, r: Option<&'static str>)
    requires
        call_ensures(accepted_notice, (blocked, paused), r),
    ensures
        r is Some <==> blocked || paused,
        !blocked && paused ==> r->0@
            == "受け付けました。待機列は停止中です。/resume で再開、/cancel でこの待機依頼を取り消せます。"@,
{
}

/// Only the allowed user is told why a message was refused, in the channel of the message and in
/// answer to it.
pub proof fn refusals_are_told_to_the_user(
    m: &Json,
    guild: &str,
    user: &str,
    reason: &str,
    limits: &Limits,
    r: Option<Notice>,
)
    requires
        call_ensures(refused_notice, (m, guild, user, reason, limits), r),
    ensures
        r is Some <==> m@.at("guild_id"@) == JsonView::Text(guild@) && m@.at("author"@).at("id"@)
            == JsonView::Text(user@) && m@.at("channel_id"@) is Text && m@.at("id"@) is Text,
        r is Some ==> m@.at("id"@) == JsonView::Text(r->0.target@) && m@.at("channel_id"@)
            == JsonView::Text(r->0.thread@),
{
}

/// The user is told that a file was sent only where it was.
pub proof fn files_are_told_as_sent_where_they_were(sent: bool, name: &str, r: String)
    requires
        call_ensures(get_reply, (sent, name), r),
    ensures
        sent ==> r@ == name@ + " の保存版をこの会話に送信しました。"@,
        !sent ==> r@
            == "成果物の送信結果を確認できません。会話内の添付を確認してください。重複を避けるため自動再送はしません。"@,
{
}

/// The folder that is told is the one that the conversation is bound to, or will be.
pub proof fn the_folder_told_is_the_one_used(
    bound: Option<&str>,
    root: &str,
    thread: &str,
    r: String,
)
    requires
        call_ensures(workspace_reply, (bound, root, thread), r),
    ensures
        bound is Some ==> holds(r@, bound->0@),
        bound is None ==> holds(r@, thread@) && holds(r@, root@),
{
    reveal_strlit("/");
    let none = Seq::<char>::empty();
    if bound is Some {
        parts_stand_in_the_whole(
            "この会話の作業フォルダー: "@,
            bound->0@,
            "\n保存先設定を変えても、この会話は同じ場所を使います。"@,
        );
    } else {
        let head = "この会話の最初の依頼から使う作業フォルダー: "@;
        let path = crate::paths::path_joined(root@, thread@);
        let mid = if root@.len() == 0 || root@.last() == '/' {
            none
        } else {
            "/"@
        };
        assert(path =~= root@ + mid + thread@);
        assert(r@ =~= (head + root@ + mid) + thread@);
        parts_stand_in_the_whole(head + root@ + mid, thread@, none);
        assert(r@ =~= head + root@ + (mid + thread@));
        parts_stand_in_the_whole(head, root@, mid + thread@);
    }
}

/// Every page of the list of models is added whole and in order, no page is read twice, and at most
/// a hundred are.
pub proof fn pages_of_models_are_added(
    p: &mut ModelPages,
    page: &Json,
    r: Result<PageStep, TransportError>,
)
    requires
        call_ensures(ModelPages::list_models, (p, page), r),
    ensures
        r is Ok ==> page@.at("data"@) is Array && trees(final(p).models@) == trees(old(p).models@)
            + page@.at("data"@)->Array_0,
        r is Ok && r->Ok_0 is Done ==> page@.at("nextCursor"@) == JsonView::Null,
        r is Ok && r->Ok_0 is More ==> page@.at("nextCursor"@) == JsonView::Text(
            r->Ok_0->More_0@,
        ) && r->Ok_0->More_0@.len() > 0 && !views(old(p).seen@).contains(r->Ok_0->More_0@)
            && old(p).seen@.len() < 99,
        page@.at("data"@) is Array && page@.at("nextCursor"@) == JsonView::Null ==> r is Ok
            && r->Ok_0 is Done,
{
    assert(views(old(p).seen@).len() == old(p).seen@.len());
}

/// A page is asked for by its cursor.
pub proof fn pages_are_asked_for_by_cursor(cursor: Option<&str>, r: Json)
    requires
        call_ensures(ModelPages::request, (cursor,), r),
    ensures
        cursor is Some ==> r@.at("cursor"@) == JsonView::Text(cursor->0@),
        cursor is None ==> r@.at("cursor"@) == JsonView::Null,
        r@.at("includeHidden"@) == JsonView::Bool(false),
        r@.at("limit"@) == JsonView::Unsigned(100),
{
    reveal_strlit("cursor");
    reveal_strlit("includeHidden");
    reveal_strlit("limit");
    assert("cursor"@.len() == 6 && "includeHidden"@.len() == 13 && "limit"@.len() == 5);
    let m = r@->Object_0;
    assert(m[0].0 == "cursor"@ && m[1].0 == "includeHidden"@ && m[2].0 == "limit"@);
    reveal_with_fuel(lookup, 4);
}

} // verus!
