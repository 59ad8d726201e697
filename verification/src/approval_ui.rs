//! Approval cards of the runtime behind a proxy.
use crate::components::{button, button_view, row, row_view};
use crate::domain::RequestState;
use crate::json::{empty_array, trees, Json, JsonView};
use crate::numbers::{decimal, decimal_text};
use crate::text::{
    blank, chars_of, control, is_blank, is_control, join, joined, opt_str, replace, replaced, same,
    same_option, some_same, utf16_width, views,
};
use vstd::prelude::*;
use vstd::string::*;

verus! {

/// Whether a character of a text is shown.
pub open spec fn visible(c: char) -> bool {
    !control(c) || c == '\n' || c == '\t'
}

/// What stands where a text is cut.
pub open spec fn cut_mark() -> Seq<char> {
    "\n…（長いため省略。内容を確認できない場合は取消してください）"@
}

/// What is shown of the first `n` characters of a text, its width, and whether it was cut.
pub open spec fn shown_within(s: Seq<char>, limit: nat, n: nat) -> (Seq<char>, nat, bool)
    decreases n,
{
    if n == 0 || n > s.len() {
        (Seq::empty(), 0, false)
    } else {
        let (out, used, cut) = shown_within(s, limit, (n - 1) as nat);
        let c = s[n - 1];
        if cut || !visible(c) {
            (out, used, cut)
        } else if used + utf16_width(c) > limit {
            (out + cut_mark(), used, true)
        } else {
            (out.push(c), used + utf16_width(c), false)
        }
    }
}

/// A text without markup that could leave its place or notify anyone, cut at so many UTF-16 units.
pub open spec fn safe_form(s: Seq<char>, limit: nat) -> Seq<char> {
    let t = replaced(replaced(s, '`', 'ˋ'), '@', '＠');
    shown_within(t, limit, t.len()).0
}

pub fn safe_text(s: &str, limit: usize) -> (r: String)
    ensures
        r@ == safe_form(s@, limit as nat),
{
    let first = replace(s, '`', 'ˋ');
    let normalized = replace(first.as_str(), '@', '＠');
    let v = chars_of(normalized.as_str());
    let ghost t = normalized@;
    let mut out: String = String::new();
    let mut used: usize = 0;
    let mut cut = false;
    let mut i: usize = 0;
    while i < v.len()
        invariant
            i <= v@.len(),
            v@ == t,
            used <= limit,
            shown_within(t, limit as nat, i as nat) == (out@, used as nat, cut),
        decreases v@.len() - i,
    {
        let c = v[i];
        if !cut && (!is_control(c) || c == '\n' || c == '\t') {
            let w: usize = if c as u32 >= 0x10000 { 2 } else { 1 };
            if w > limit - used {
                out.append("\n…（長いため省略。内容を確認できない場合は取消してください）");
                cut = true;
            } else {
                used = used + w;
                out.push(c);
            }
        }
        i += 1;
    }
    out
}

/// No quoted text can end the code block around it or notify anyone: neither a backquote nor an at
/// sign is left in it.
pub proof fn quoted_text_is_harmless(s: Seq<char>, limit: nat, i: int)
    requires
        0 <= i < safe_form(s, limit).len(),
    ensures
        safe_form(s, limit)[i] != '`',
        safe_form(s, limit)[i] != '@',
{
    let t = replaced(replaced(s, '`', 'ˋ'), '@', '＠');
    lemma_harmless(t, limit, t.len());
}

proof fn lemma_harmless(t: Seq<char>, limit: nat, n: nat)
    requires
        forall|k: int| 0 <= k < t.len() ==> #[trigger] t[k] != '`' && t[k] != '@',
    ensures
        forall|k: int|
            0 <= k < shown_within(t, limit, n).0.len() ==> #[trigger] shown_within(t, limit, n).0[k]
                != '`' && shown_within(t, limit, n).0[k] != '@',
    decreases n,
{
    reveal_strlit("\n…（長いため省略。内容を確認できない場合は取消してください）");
    if n > 0 && n <= t.len() {
        lemma_harmless(t, limit, (n - 1) as nat);
        let (out, used, cut) = shown_within(t, limit, (n - 1) as nat);
        let c = t[n - 1];
        let now = shown_within(t, limit, n).0;
        assert(c != '`' && c != '@');
        assert forall|k: int| 0 <= k < now.len() implies #[trigger] now[k] != '`' && now[k] != '@' by {
            if k < out.len() {
                assert(now[k] == out[k]);
                assert(shown_within(t, limit, (n - 1) as nat).0[k] != '`');
            } else if cut || !visible(c) {
            } else if used + utf16_width(c) > limit {
                assert(now[k] == cut_mark()[k - out.len()]);
            } else {
                assert(now[k] == c);
            }
        }
    }
}

/// The keys of an object.
pub open spec fn keys_of(m: Seq<(Seq<char>, JsonView)>) -> Seq<Seq<char>> {
    m.map_values(|x: (Seq<char>, JsonView)| x.0)
}

/// Whether there is at least one path and none is blank.
pub open spec fn usable_paths(p: Seq<Seq<char>>) -> bool {
    p.len() > 0 && forall|i: int| 0 <= i < p.len() ==> !blank(#[trigger] p[i])
}

/// The texts of a list of texts.
pub open spec fn texts_of(v: Seq<JsonView>) -> Option<Seq<Seq<char>>> {
    if forall|i: int| 0 <= i < v.len() ==> (#[trigger] v[i]) is Text {
        Some(v.map_values(|j: JsonView| j.text()->0))
    } else {
        None
    }
}

/// The files that an approval is about. An approval that would grant a whole directory has none.
pub open spec fn paths_of(d: JsonView) -> Option<Seq<Seq<char>>> {
    if d.at("grantRoot"@) != JsonView::Null {
        None
    } else if d.at("changes"@) is Object {
        let p = keys_of(d.at("changes"@)->Object_0);
        if usable_paths(p) {
            Some(p)
        } else {
            None
        }
    } else {
        match d.at("paths"@).array() {
            None => None,
            Some(v) => match texts_of(v) {
                None => None,
                Some(p) => if usable_paths(p) {
                    Some(p)
                } else {
                    None
                },
            },
        }
    }
}

fn all_usable(p: &Vec<String>) -> (r: bool)
    ensures
        r == usable_paths(views(p@)),
{
    let ghost all = views(p@);
    let mut i: usize = 0;
    while i < p.len()
        invariant
            i <= p@.len(),
            all == views(p@),
            forall|j: int| 0 <= j < i ==> !blank(#[trigger] all[j]),
        decreases p@.len() - i,
    {
        assert(all[i as int] == p@[i as int]@);
        if is_blank(p[i].as_str()) {
            return false;
        }
        i += 1;
    }
    p.len() > 0
}

/// The files that an approval is about.
pub fn approval_paths(d: &Json) -> (r: Option<Vec<String>>)
    ensures
        match paths_of(d@) {
            Some(p) => r is Some && views(r->0@) == p,
            None => r is None,
        },
{
    if !d.at("grantRoot").is_null() {
        return None;
    }
    let mut paths: Vec<String> = Vec::new();
    assert(views(paths@) =~= Seq::<Seq<char>>::empty());
    match d.at("changes").as_object() {
        Some(members) => {
            let ghost m = d@.at("changes"@)->Object_0;
            let mut i: usize = 0;
            assert(views(paths@) =~= keys_of(m.take(0)));
            while i < members.len()
                invariant
                    i <= members@.len(),
                    members@.len() == m.len(),
                    forall|j: int|
                        0 <= j < m.len() ==> m[j] == ((#[trigger] members@[j]).key@, members@[j].value@),
                    views(paths@) == keys_of(m.take(i as int)),
                decreases members@.len() - i,
            {
                let ghost before = views(paths@);
                assert(m[i as int].0 == members@[i as int].key@);
                paths.push(members[i].key.clone());
                i += 1;
                assert(views(paths@) =~= before.push(m[i - 1].0));
                assert(views(paths@) =~= keys_of(m.take(i as int)));
            }
            assert(m.take(m.len() as int) =~= m);
        },
        None => {
            let list = match d.at("paths").as_array() {
                Some(v) => v,
                None => return None,
            };
            let ghost all = d@.at("paths"@).array()->0;
            let mut i: usize = 0;
            while i < list.len()
                invariant
                    i <= list@.len(),
                    list@.len() == all.len(),
                    d@.at("grantRoot"@) == JsonView::Null,
                    !(d@.at("changes"@) is Object),
                    d@.at("paths"@).array() == Some(all),
                    forall|j: int| 0 <= j < all.len() ==> #[trigger] list@[j]@ == all[j],
                    forall|j: int| 0 <= j < i ==> (#[trigger] all[j]) is Text,
                    views(paths@).len() == i,
                    forall|j: int| 0 <= j < i ==> #[trigger] views(paths@)[j] == all[j].text()->0,
                decreases list@.len() - i,
            {
                assert(list@[i as int]@ == all[i as int]);
                match list[i].as_str() {
                    None => {
                        assert(!(all[i as int] is Text));
                        return None;
                    },
                    Some(s) => {
                        let ghost before = views(paths@);
                        paths.push(s.to_owned());
                        assert(views(paths@) =~= before.push(s@));
                    },
                }
                i += 1;
            }
            assert(views(paths@) =~= all.map_values(|j: JsonView| j.text()->0));
        },
    }
    if all_usable(&paths) {
        Some(paths)
    } else {
        None
    }
}

/// The command that an approval is about, where it is not blank.
pub open spec fn command_of(d: JsonView) -> Option<Seq<char>> {
    match d.at("command"@).text() {
        Some(s) => if blank(s) {
            None
        } else {
            Some(s)
        },
        None => None,
    }
}

/// Whether an approval can be accepted: what it is about is known, and acceptance is offered.
pub open spec fn acceptable(view: JsonView) -> bool {
    let d = view.at("details"@);
    (command_of(d) is Some || paths_of(d) is Some) && view.at("available_decisions"@).lists("accept"@)
}

fn filled<'a>(j: &'a Json) -> (r: Option<&'a str>)
    ensures
        opt_str(r) == match j@.text() {
            Some(s) => if blank(s) {
                None
            } else {
                Some(s)
            },
            None => None,
        },
{
    match j.as_str() {
        Some(s) => {
            if is_blank(s) {
                None
            } else {
                Some(s)
            }
        },
        None => None,
    }
}

pub fn approval_can_accept(view: &Json) -> (r: bool)
    ensures
        r == acceptable(view@),
{
    let d = view.at("details");
    (filled(d.at("command")).is_some() || approval_paths(d).is_some()) && view.at(
        "available_decisions",
    ).lists("accept")
}

/// The title of an approval.
pub open spec fn approval_title(d: JsonView) -> Seq<char> {
    let kind = d.at("kind"@).text();
    if kind == Some("command"@) {
        "コマンドの実行許可"@
    } else if kind == Some("file_change"@) || paths_of(d) is Some {
        "ファイル変更の許可"@
    } else {
        "操作の実行許可"@
    }
}

/// The lines of the first eight files.
pub open spec fn path_lines(p: Seq<Seq<char>>) -> Seq<Seq<char>> {
    let n: int = if p.len() < 8 {
        p.len() as int
    } else {
        8
    };
    p.take(n).map_values(|s: Seq<char>| "• "@ + safe_form(s, 100))
}

/// The paragraphs that say what an approval is about.
pub open spec fn subject_lines(d: JsonView) -> Seq<Seq<char>> {
    match command_of(d) {
        Some(c) => seq!["実行する内容：\n```text\n"@ + safe_form(c, 950) + "\n```"@],
        None => match paths_of(d) {
            Some(p) => {
                let first = seq!["対象ファイル：\n"@ + joined(path_lines(p), "\n"@)];
                if p.len() > 8 {
                    first.push(
                        "ほか"@ + decimal((p.len() - 8) as nat)
                            + "件は省略しています。全対象を確認できない場合は取消してください。"@,
                    )
                } else {
                    first
                }
            },
            None => seq![
                "操作内容・許可範囲を確認できないため、承認ボタンを表示していません。「取消」でこの要求を取り消し、このメッセージを運用者へ伝えてください。"@,
            ],
        },
    }
}

/// The paragraph that says what accepting means.
pub open spec fn acceptance_lines(view: JsonView) -> Seq<Seq<char>> {
    let d = view.at("details"@);
    if acceptable(view) {
        seq![
            "「今回のみ承認」は、この操作だけを許可します。以後の操作を自動承認する設定には変えません。"@,
        ]
    } else if paths_of(d) is Some || command_of(d) is Some {
        seq![
            "この要求では今回のみの承認を選べません。「取消」で取り消し、運用者へ確認してください。"@,
        ]
    } else {
        Seq::empty()
    }
}

/// The purpose of an approval, where it is given.
pub open spec fn reason_lines(d: JsonView) -> Seq<Seq<char>> {
    match d.at("reason"@).text() {
        Some(s) => if blank(s) {
            Seq::empty()
        } else {
            seq!["目的："@ + safe_form(s, 500)]
        },
        None => Seq::empty(),
    }
}

/// The text of an approval card.
pub open spec fn description(view: JsonView) -> Seq<char> {
    let d = view.at("details"@);
    joined(
        seq!["**"@ + approval_title(d) + "が必要です**"@] + reason_lines(d) + subject_lines(d)
            + acceptance_lines(view),
        "\n\n"@,
    )
}

/// The text of an approval card.
pub fn approval_description(view: &Json) -> (r: String)
    ensures
        r@ == description(view@),
{
    let d = view.at("details");
    let paths = approval_paths(d);
    let kind = d.at("kind").as_str();
    let title = if some_same(kind, "command") {
        "コマンドの実行許可"
    } else if some_same(kind, "file_change") || paths.is_some() {
        "ファイル変更の許可"
    } else {
        "操作の実行許可"
    };
    let mut lines: Vec<String> = Vec::new();
    lines.push(String::from_str("**").concat(title).concat("が必要です**"));
    let ghost head = seq!["**"@ + approval_title(d@) + "が必要です**"@];
    assert(views(lines@) =~= head);
    if let Some(s) = filled(d.at("reason")) {
        let safe = safe_text(s, 500);
        lines.push(String::from_str("目的：").concat(safe.as_str()));
    }
    assert(views(lines@) =~= head + reason_lines(d@));
    let command = filled(d.at("command"));
    match command {
        Some(c) => {
            let safe = safe_text(c, 950);
            lines.push(
                String::from_str("実行する内容：\n```text\n").concat(safe.as_str()).concat("\n```"),
            );
        },
        None => match &paths {
            Some(p) => {
                let ghost all = views(p@);
                let n: usize = if p.len() < 8 { p.len() } else { 8 };
                let mut items: Vec<String> = Vec::new();
                let mut i: usize = 0;
                assert(views(items@) =~= all.take(0).map_values(
                    |s: Seq<char>| "• "@ + safe_form(s, 100),
                ));
                while i < n
                    invariant
                        i <= n <= p@.len(),
                        all == views(p@),
                        views(items@) == all.take(i as int).map_values(
                            |s: Seq<char>| "• "@ + safe_form(s, 100),
                        ),
                    decreases n - i,
                {
                    assert(all[i as int] == p@[i as int]@);
                    let safe = safe_text(p[i].as_str(), 100);
                    let line = String::from_str("• ").concat(safe.as_str());
                    let ghost before = views(items@);
                    let ghost added = line@;
                    items.push(line);
                    i += 1;
                    assert(views(items@) =~= before.push(added));
                    assert(views(items@) =~= all.take(i as int).map_values(
                        |s: Seq<char>| "• "@ + safe_form(s, 100),
                    ));
                }
                assert(views(items@) =~= path_lines(all));
                let list = join(&items, "\n");
                lines.push(String::from_str("対象ファイル：\n").concat(list.as_str()));
                if p.len() > 8 {
                    let rest = decimal_text((p.len() - 8) as u64);
                    lines.push(
                        String::from_str("ほか").concat(rest.as_str()).concat(
                            "件は省略しています。全対象を確認できない場合は取消してください。",
                        ),
                    );
                }
            },
            None => {
                lines.push(
                    String::from_str(
                        "操作内容・許可範囲を確認できないため、承認ボタンを表示していません。「取消」でこの要求を取り消し、このメッセージを運用者へ伝えてください。",
                    ),
                );
            },
        },
    }
    assert(views(lines@) =~= head + reason_lines(d@) + subject_lines(d@));
    if approval_can_accept(view) {
        lines.push(
            String::from_str(
                "「今回のみ承認」は、この操作だけを許可します。以後の操作を自動承認する設定には変えません。",
            ),
        );
    } else if paths.is_some() || command.is_some() {
        lines.push(
            String::from_str(
                "この要求では今回のみの承認を選べません。「取消」で取り消し、運用者へ確認してください。",
            ),
        );
    }
    assert(views(lines@) =~= head + reason_lines(d@) + subject_lines(d@) + acceptance_lines(view@));
    join(&lines, "\n\n")
}

/// An approval card: its text (to be redacted where it describes the operation), its buttons, and
/// whether the approval is settled.
pub struct ApprovalView {
    pub text: String,
    pub components: Json,
    pub closed: bool,
}

/// The buttons of an open approval: those of the decisions that are offered, and acceptance only
/// where the operation is known.
pub open spec fn open_buttons(v: JsonView, id: Seq<char>) -> Seq<JsonView> {
    let offered = v.at("available_decisions"@);
    let accept = if acceptable(v) {
        seq![button_view("approval:"@ + id + ":accept"@, "今回のみ承認"@, 3)]
    } else {
        Seq::empty()
    };
    let decline = if offered.lists("decline"@) {
        seq![button_view("approval:"@ + id + ":decline"@, "拒否"@, 4)]
    } else {
        Seq::empty()
    };
    let cancel = if offered.lists("cancel"@) {
        seq![button_view("approval:"@ + id + ":cancel"@, "取消"@, 2)]
    } else {
        Seq::empty()
    };
    accept + decline + cancel
}

/// Whether an approval can still be decided.
pub open spec fn still_open(v: JsonView, state: RequestState, local: Seq<char>, now: i64) -> bool {
    v.at("state"@).says("pending"@) && !state.ended() && local == "PENDING"@ && (v.at(
        "expires_at_ms"@,
    ).signed() is None || v.at("expires_at_ms"@).signed()->0 > now)
}

/// What the card of a settled or unclear approval says, and whether it is settled.
pub open spec fn settled_text(v: Option<JsonView>, state: RequestState) -> (Seq<char>, bool) {
    match v {
        Some(v) => {
            let s = v.at("state"@);
            if s.says("approved"@) && v.at("reply_status"@).says("written"@) {
                ("承認をCodexへ送りました。続きの回答はこの会話に届きます。"@, true)
            } else if s.says("denied"@) {
                ("この操作を拒否しました。"@, true)
            } else if s.says("cancelled"@) {
                ("この承認を取り消しました。"@, true)
            } else if s.says("expired"@) {
                ("承認の期限が切れました。このボタンからは実行できません。"@, true)
            } else if state.ended() {
                ("作業が終了したため、この承認は操作できません。"@, true)
            } else {
                ("承認の送信状況を確認しています。重複送信せずに待っています。"@, false)
            }
        },
        None => if state.ended() {
            ("作業が終了したため、この承認は操作できません。"@, true)
        } else {
            ("承認の状態を確認できません。接続の回復を待っています。"@, false)
        },
    }
}

/// Whether an approval is that of a request.
pub open spec fn right_target(
    v: JsonView,
    id: Seq<char>,
    thread: Option<Seq<char>>,
    turn: Option<Seq<char>>,
) -> bool {
    v.at("id"@).says(id) && v.at("details"@).at("threadId"@).text() == thread && v.at("details"@).at(
        "turnId"@,
    ).text() == turn
}

/// The card of an approval. `answer` is what the proxy says of it, where it answered.
pub fn refresh_approval(
    answer: Option<&Json>,
    id: &str,
    thread: Option<&str>,
    turn: Option<&str>,
    state: RequestState,
    local: &str,
    now: i64,
) -> (r: Result<ApprovalView, &'static str>)
    ensures
        answer is Some && !right_target(answer->0@, id@, opt_str(thread), opt_str(turn)) ==> r is Err
            && r->Err_0@ == "approval target mismatch"@,
        answer is Some && right_target(answer->0@, id@, opt_str(thread), opt_str(turn)) && still_open(
            answer->0@,
            state,
            local@,
            now,
        ) ==> {
            &&& r is Ok
            &&& r->Ok_0.text@ == description(answer->0@)
            &&& !r->Ok_0.closed
            &&& r->Ok_0.components@ == if open_buttons(answer->0@, id@).len() == 0 {
                JsonView::Array(Seq::empty())
            } else {
                row_view(open_buttons(answer->0@, id@))
            }
        },
        (answer is Some && right_target(answer->0@, id@, opt_str(thread), opt_str(turn))
            && !still_open(answer->0@, state, local@, now)) || answer is None ==> {
            let (said, settled) = settled_text(
                match answer {
                    Some(v) => Some(v@),
                    None => None,
                },
                state,
            );
            &&& r is Ok
            &&& r->Ok_0.text@ == said
            &&& r->Ok_0.closed == settled
            &&& r->Ok_0.components@ == JsonView::Array(Seq::empty())
        },
{
    let (said, closed) = match answer {
        None => {
            if state.terminal() {
                ("作業が終了したため、この承認は操作できません。", true)
            } else {
                ("承認の状態を確認できません。接続の回復を待っています。", false)
            }
        },
        Some(v) => {
            let d = v.at("details");
            if !(v.at("id").is_text(id) && same_option(d.at("threadId").as_str(), thread)
                && same_option(d.at("turnId").as_str(), turn)) {
                return Err("approval target mismatch");
            }
            let s = v.at("state");
            let in_time = match v.at("expires_at_ms").as_i64() {
                Some(t) => t > now,
                None => true,
            };
            if s.is_text("pending") && !state.terminal() && same(local, "PENDING") && in_time {
                let offered = v.at("available_decisions");
                let base = String::from_str("approval:").concat(id);
                let mut buttons: Vec<Json> = Vec::new();
                let accept = approval_can_accept(v);
                if accept {
                    let custom = base.clone().concat(":accept");
                    buttons.push(button(custom.as_str(), "今回のみ承認", 3));
                }
                let decline = offered.lists("decline");
                if decline {
                    let custom = base.clone().concat(":decline");
                    buttons.push(button(custom.as_str(), "拒否", 4));
                }
                let cancel = offered.lists("cancel");
                if cancel {
                    let custom = base.clone().concat(":cancel");
                    buttons.push(button(custom.as_str(), "取消", 2));
                }
                assert(trees(buttons@) =~= open_buttons(v@, id@));
                assert(trees(buttons@).len() == buttons@.len());
                let components = if buttons.len() == 0 {
                    empty_array()
                } else {
                    row(buttons)
                };
                return Ok(
                    ApprovalView { text: approval_description(v), components, closed: false },
                );
            }
            if s.is_text("approved") && v.at("reply_status").is_text("written") {
                ("承認をCodexへ送りました。続きの回答はこの会話に届きます。", true)
            } else if s.is_text("denied") {
                ("この操作を拒否しました。", true)
            } else if s.is_text("cancelled") {
                ("この承認を取り消しました。", true)
            } else if s.is_text("expired") {
                ("承認の期限が切れました。このボタンからは実行できません。", true)
            } else if state.terminal() {
                ("作業が終了したため、この承認は操作できません。", true)
            } else {
                ("承認の送信状況を確認しています。重複送信せずに待っています。", false)
            }
        },
    };
    Ok(ApprovalView { text: said.to_owned(), components: empty_array(), closed })
}

/// Whether the conversation of a request is shown as busy: it is sent or runs, and waits for no
/// decision of the user.
pub fn typing_tick(state: RequestState, approval_open: bool, dialogue_open: bool) -> (r: bool)
    ensures
        r == ((state == RequestState::Sending || state == RequestState::Running) && !approval_open
            && !dialogue_open),
{
    (state == RequestState::Sending || state == RequestState::Running) && !approval_open
        && !dialogue_open
}

} // verus!
