//! What the commands of the runtime behind a proxy answer.
use crate::application::{
    failure_message, failure_text, interruption_evidence_text, interruption_with_evidence,
};
use crate::domain::{Conversation, RequestState};
use crate::files::{check_number, number_objection};
use crate::json::{object1, object2, object3, text, Json, JsonView};
use crate::numbers::{signed_decimal, signed_text};
use crate::text::{
    blank, borrowed, byte_len, chars_of, is_blank, join, joined, opt_str, opt_view, same, utf8_len,
    views,
};
use vstd::prelude::*;
use vstd::string::*;

verus! {

/// What a count of a status is about.
#[derive(Clone, Copy, Debug, PartialEq, Eq, Structural)]
pub enum Counted {
    Deliveries,
    Images,
    Interactions,
}

/// The label of a state in a status.
pub open spec fn count_label(kind: Counted, state: Seq<char>) -> Seq<char> {
    match kind {
        Counted::Deliveries => state,
        Counted::Images => if state == "DONE"@ {
            "確認済み"@
        } else if state == "WATCHING"@ {
            "登録・配信を確認中"@
        } else if state == "UNSUPPORTED"@ {
            "追跡対象外"@
        } else if state == "EXPIRED"@ {
            "照会期限切れ"@
        } else {
            "未完了・確認が必要"@
        },
        Counted::Interactions => if state == "pending"@ {
            "回答待ち"@
        } else if state == "sending"@ {
            "送信確認中"@
        } else if state == "submitted"@ {
            "回答送信済み"@
        } else if state == "unknown"@ {
            "結果不明"@
        } else {
            "照合中"@
        },
    }
}

/// One count of a status.
pub open spec fn count_text(kind: Counted, state: Seq<char>, n: int) -> Seq<char> {
    if kind == Counted::Deliveries {
        count_label(kind, state) + ": "@ + signed_decimal(n)
    } else {
        count_label(kind, state) + " "@ + signed_decimal(n) + "件"@
    }
}

/// The counts of a status.
pub open spec fn counts_text(kind: Counted, v: Seq<(String, i64)>) -> Seq<char> {
    joined(v.map_values(|x: (String, i64)| count_text(kind, x.0@, x.1 as int)), " / "@)
}

fn label_of<'a>(kind: Counted, state: &'a str) -> (r: &'a str)
    ensures
        r@ == count_label(kind, state@),
{
    match kind {
        Counted::Deliveries => state,
        Counted::Images => {
            if same(state, "DONE") {
                "確認済み"
            } else if same(state, "WATCHING") {
                "登録・配信を確認中"
            } else if same(state, "UNSUPPORTED") {
                "追跡対象外"
            } else if same(state, "EXPIRED") {
                "照会期限切れ"
            } else {
                "未完了・確認が必要"
            }
        },
        Counted::Interactions => {
            if same(state, "pending") {
                "回答待ち"
            } else if same(state, "sending") {
                "送信確認中"
            } else if same(state, "submitted") {
                "回答送信済み"
            } else if same(state, "unknown") {
                "結果不明"
            } else {
                "照合中"
            }
        },
    }
}

fn counts(kind: Counted, v: &Vec<(String, i64)>) -> (r: String)
    ensures
        r@ == counts_text(kind, v@),
{
    let mut lines: Vec<String> = Vec::new();
    let mut i: usize = 0;
    while i < v.len()
        invariant
            i <= v@.len(),
            views(lines@) == v@.take(i as int).map_values(
                |x: (String, i64)| count_text(kind, x.0@, x.1 as int),
            ),
        decreases v@.len() - i,
    {
        let n = signed_text(v[i].1);
        let mut line = String::from_str(label_of(kind, v[i].0.as_str()));
        if kind == Counted::Deliveries {
            line.append(": ");
            line.append(n.as_str());
        } else {
            line.append(" ");
            line.append(n.as_str());
            line.append("件");
        }
        let ghost before = views(lines@);
        let ghost added = line@;
        lines.push(line);
        i += 1;
        assert(views(lines@) =~= before.push(added));
        assert(views(lines@) =~= v@.take(i as int).map_values(
            |x: (String, i64)| count_text(kind, x.0@, x.1 as int),
        ));
    }
    assert(v@.take(v@.len() as int) =~= v@);
    join(&lines, " / ")
}

/// How the last request of a conversation ended.
#[derive(Debug)]
pub struct LastRequest {
    pub state: String,
    pub code: Option<String>,
    pub stopped: bool,
    pub declined: bool,
}

/// What a status tells.
#[derive(Debug)]
pub struct StatusFacts {
    pub active: Option<RequestState>,
    pub last: Option<LastRequest>,
    pub deliveries: Vec<(String, i64)>,
    pub images: Vec<(String, i64)>,
    pub interactions: Vec<(String, i64)>,
    pub preparation: Option<String>,
    pub proxy_ready: bool,
}

/// What a status says of the last request.
pub open spec fn last_text(last: Option<LastRequest>) -> Seq<char> {
    match last {
        Some(l) => if l.state@ == "CANCELLED"@ {
            "直前の依頼: "@ + interruption_evidence_text(opt_view(l.code), l.stopped, l.declined)
                + "\n"@
        } else if l.state@ == "FAILED"@ {
            "直前の依頼: "@ + failure_text(opt_view(l.code)) + "\n"@
        } else {
            Seq::empty()
        },
        None => Seq::empty(),
    }
}

/// The status of a conversation.
pub open spec fn status_text(f: StatusFacts, c: Conversation) -> Seq<char> {
    let head = last_text(f.last) + "状態: "@ + match f.active {
        Some(s) => s.name(),
        None => "実行中なし"@,
    } + "\n待機列: "@ + if c.paused {
        "停止中"@
    } else {
        "再開済み"@
    } + "\n会話継続: "@ + c.continuation@ + "\n選択モデル: "@ + c.selected_model@ + "\n実行モデル: "@
        + match c.effective_model {
        Some(m) => m@,
        None => "未実行"@,
    } + "\nProxy: "@ + if f.proxy_ready {
        "利用可能"@
    } else {
        "確認中／利用不可"@
    } + "\n確定回答と成果物はProxyの保存期限内に再取得します。"@;
    let deliveries = if f.deliveries@.len() == 0 {
        Seq::empty()
    } else {
        "\n配信: "@ + counts_text(Counted::Deliveries, f.deliveries@)
            + "\n再送が必要なら /retry（同じ保存版を送ります）。"@
    };
    let images = if f.images@.len() == 0 {
        Seq::empty()
    } else {
        "\n画像: "@ + counts_text(Counted::Images, f.images@)
    };
    let interactions = if f.interactions@.len() == 0 {
        Seq::empty()
    } else {
        "\nMCP承認・入力: "@ + counts_text(Counted::Interactions, f.interactions@)
    };
    let preparation = match f.preparation {
        Some(s) => if f.active is Some {
            "\n"@ + s@
        } else {
            Seq::empty()
        },
        None => Seq::empty(),
    };
    let help = if c.continuation@ == "NEW_CONVERSATION_REQUIRED"@ {
        "\n会話の接続状態を確認する必要があります。実行中・結果不明の依頼がある場合は、その確認が終わるまで新しい実行を保留します。"@
    } else {
        Seq::empty()
    };
    head + deliveries + images + interactions + preparation + help
}

/// The status of a conversation. It is redacted before it is shown.
pub fn status_reply(f: &StatusFacts, c: &Conversation) -> (r: String)
    ensures
        r@ == status_text(*f, *c),
{
    let mut out: String = String::new();
    match &f.last {
        Some(l) => {
            let cancelled = same(l.state.as_str(), "CANCELLED");
            if cancelled || same(l.state.as_str(), "FAILED") {
                out = String::from_str("直前の依頼: ");
                if cancelled {
                    out.append(
                        interruption_with_evidence(borrowed(&l.code), l.stopped, l.declined),
                    );
                } else {
                    out.append(failure_message(borrowed(&l.code)));
                }
                out.append("\n");
            }
        },
        None => {},
    }
    assert(out@ =~= last_text(f.last));
    out.append("状態: ");
    match f.active {
        Some(s) => out.append(s.as_str()),
        None => out.append("実行中なし"),
    }
    out.append("\n待機列: ");
    out.append(
        if c.paused {
            "停止中"
        } else {
            "再開済み"
        },
    );
    out.append("\n会話継続: ");
    out.append(c.continuation.as_str());
    out.append("\n選択モデル: ");
    out.append(c.selected_model.as_str());
    out.append("\n実行モデル: ");
    match &c.effective_model {
        Some(m) => out.append(m.as_str()),
        None => out.append("未実行"),
    }
    out.append("\nProxy: ");
    out.append(
        if f.proxy_ready {
            "利用可能"
        } else {
            "確認中／利用不可"
        },
    );
    out.append("\n確定回答と成果物はProxyの保存期限内に再取得します。");
    let ghost head = out@;
    let mut deliveries: String = String::new();
    if f.deliveries.len() > 0 {
        let list = counts(Counted::Deliveries, &f.deliveries);
        deliveries = String::from_str("\n配信: ").concat(list.as_str()).concat(
            "\n再送が必要なら /retry（同じ保存版を送ります）。",
        );
    }
    out.append(deliveries.as_str());
    let mut images: String = String::new();
    if f.images.len() > 0 {
        let list = counts(Counted::Images, &f.images);
        images = String::from_str("\n画像: ").concat(list.as_str());
    }
    out.append(images.as_str());
    let mut interactions: String = String::new();
    if f.interactions.len() > 0 {
        let list = counts(Counted::Interactions, &f.interactions);
        interactions = String::from_str("\nMCP承認・入力: ").concat(list.as_str());
    }
    out.append(interactions.as_str());
    let mut preparation: String = String::new();
    if let (Some(s), Some(_)) = (&f.preparation, f.active) {
        preparation = String::from_str("\n").concat(s.as_str());
    }
    out.append(preparation.as_str());
    let mut help: String = String::new();
    if same(c.continuation.as_str(), "NEW_CONVERSATION_REQUIRED") {
        help = String::from_str(
            "\n会話の接続状態を確認する必要があります。実行中・結果不明の依頼がある場合は、その確認が終わるまで新しい実行を保留します。",
        );
    }
    out.append(help.as_str());
    out
}

/// What a cancellation answers.
pub open spec fn cancel_text(
    waiting: bool,
    state: RequestState,
    guild: Seq<char>,
    thread: Seq<char>,
    message: Seq<char>,
    paused: bool,
) -> Seq<char> {
    let result = if waiting {
        "待機中の依頼を1件取り消しました。Codexには実行させません。"@
    } else if state == RequestState::Cancelled {
        "依頼の停止を確認しました。"@
    } else if state == RequestState::Completed || state == RequestState::Failed {
        "依頼はすでに終了していました。実行済みの変更は元に戻りません。"@
    } else {
        "取消要求を保存しました。停止の確認が取れるまで後続を保留します。/status で確認してください。"@
    };
    let head = result + "\n対象: https://discord.com/channels/"@ + guild + "/"@ + thread + "/"@
        + message;
    if paused {
        head
            + "\n待機列は一時停止中です。残った依頼を進めるには /resume を使ってください。"@
    } else {
        head
    }
}

/// What a cancellation answers, from the state of the request afterwards.
pub fn cancel_reply(
    waiting: bool,
    state: RequestState,
    guild: &str,
    thread: &str,
    message: &str,
    paused: bool,
) -> (r: String)
    ensures
        r@ == cancel_text(waiting, state, guild@, thread@, message@, paused),
{
    let result = if waiting {
        "待機中の依頼を1件取り消しました。Codexには実行させません。"
    } else if state == RequestState::Cancelled {
        "依頼の停止を確認しました。"
    } else if state == RequestState::Completed || state == RequestState::Failed {
        "依頼はすでに終了していました。実行済みの変更は元に戻りません。"
    } else {
        "取消要求を保存しました。停止の確認が取れるまで後続を保留します。/status で確認してください。"
    };
    let mut out = String::from_str(result).concat("\n対象: https://discord.com/channels/").concat(
        guild,
    ).concat("/").concat(thread).concat("/").concat(message);
    if paused {
        out.append(
            "\n待機列は一時停止中です。残った依頼を進めるには /resume を使ってください。",
        );
    }
    out
}

/// What a stop answers.
pub fn stop_reply(interrupting: bool) -> (r: &'static str)
    ensures
        r@ == if interrupting {
            "待機列を一時停止しました。実行中の依頼へ中断を要求しています。停止完了は /status で確認してください。"@
        } else {
            "待機列を一時停止しました。/resume で再開できます。"@
        },
{
    if interrupting {
        "待機列を一時停止しました。実行中の依頼へ中断を要求しています。停止完了は /status で確認してください。"
    } else {
        "待機列を一時停止しました。/resume で再開できます。"
    }
}

/// What a resumption answers: whether it was taken before, and whether it changed anything.
pub fn resume_reply(fresh: bool, changed: bool) -> (r: &'static str)
    ensures
        r@ == if !fresh {
            "この操作は受付済みです。"@
        } else if changed {
            "待機列の自動開始を再開しました。UNKNOWNや権限・接続の問題は別途解消が必要です。"@
        } else {
            "後続の停止操作などにより再開しませんでした。"@
        },
{
    if !fresh {
        "この操作は受付済みです。"
    } else if changed {
        "待機列の自動開始を再開しました。UNKNOWNや権限・接続の問題は別途解消が必要です。"
    } else {
        "後続の停止操作などにより再開しませんでした。"
    }
}

/// Whether the tag of a forum must be chosen.
pub open spec fn tag_required(channel: JsonView) -> bool {
    channel.at("type"@) == JsonView::Unsigned(15) && channel.at("flags"@).unsigned() is Some
        && channel.at("flags"@).unsigned()->0 & 16 != 0
}

/// Where a new conversation can be opened.
pub enum NewPlace {
    Channel(String),
    /// The forum asks for a tag, which only the user can choose.
    TagRequired,
}

/// What is wrong with a channel as the parent of a new conversation.
pub open spec fn parent_objection(channel: JsonView, guild: Seq<char>) -> Option<Seq<char>> {
    if !channel.at("guild_id"@).says(guild) || (channel.at("type"@) != JsonView::Unsigned(0)
        && channel.at("type"@) != JsonView::Unsigned(15)) {
        Some("unsupported conversation parent"@)
    } else if channel.at("id"@).text() is None {
        Some("channel identity missing"@)
    } else {
        None
    }
}

/// Whether a title has one to a hundred characters.
pub fn check_title(title: &str) -> (r: Result<(), &'static str>)
    ensures
        r is Ok <==> 1 <= title@.len() <= 100,
        r is Err ==> r->Err_0@ == "invalid thread title"@,
{
    let n: usize = chars_of(title).len();
    if 1 <= n && n <= 100 {
        Ok(())
    } else {
        Err("invalid thread title")
    }
}

/// Where a new conversation is opened.
pub fn new_conversation(channel: &Json, guild: &str) -> (r: Result<NewPlace, &'static str>)
    ensures
        match parent_objection(channel@, guild@) {
            Some(e) => r is Err && r->Err_0@ == e,
            None => if tag_required(channel@) {
                r is Ok && r->Ok_0 is TagRequired
            } else {
                r is Ok && r->Ok_0 is Channel && channel@.at("id"@).says(r->Ok_0->Channel_0@)
            },
        },
{
    if !channel.at("guild_id").is_text(guild) || (!channel.at("type").is_number(0) && !channel.at(
        "type",
    ).is_number(15)) {
        return Err("unsupported conversation parent");
    }
    let id = match channel.at("id").as_str() {
        Some(s) => s,
        None => return Err("channel identity missing"),
    };
    if channel.at("type").is_number(15) {
        if let Some(flags) = channel.at("flags").as_u64() {
            if flags & 16 != 0 {
                return Ok(NewPlace::TagRequired);
            }
        }
    }
    Ok(NewPlace::Channel(id.to_owned()))
}

/// The thread that Discord reports to have created.
pub fn created_thread(receipt: &Json, channel: &str, guild: &str) -> (r: Result<
    String,
    &'static str,
>)
    ensures
        ({
            let id = receipt@.at("id"@).text();
            if id is None {
                r is Err && r->Err_0@ == "thread receipt missing"@
            } else if !(receipt@.at("parent_id"@).says(channel@) && receipt@.at("guild_id"@).says(
                guild@,
            )) {
                r is Err && r->Err_0@ == "thread receipt mismatch"@
            } else {
                r is Ok && r->Ok_0@ == "会話を作成しました: <#"@ + id->0
                    + ">\nこのスレッドへの通常投稿が作業依頼になります。"@
            }
        }),
{
    let id = match receipt.at("id").as_str() {
        Some(s) => s,
        None => return Err("thread receipt missing"),
    };
    if !(receipt.at("parent_id").is_text(channel) && receipt.at("guild_id").is_text(guild)) {
        return Err("thread receipt mismatch");
    }
    Ok(
        String::from_str("会話を作成しました: <#").concat(id).concat(
            ">\nこのスレッドへの通常投稿が作業依頼になります。",
        ),
    )
}

/// The body that creates a thread: one of a forum needs a first message.
pub open spec fn thread_body(channel: JsonView, title: Seq<char>) -> Result<JsonView, Seq<char>> {
    let kind = channel.at("type"@).unsigned();
    if blank(title) || title.len() > 100 {
        Err("invalid title"@)
    } else if kind == Some(0u64) {
        Ok(
            JsonView::Object(
                seq![
                    ("auto_archive_duration"@, JsonView::Unsigned(1440)),
                    ("name"@, JsonView::Text(title)),
                    ("type"@, JsonView::Unsigned(11)),
                ],
            ),
        )
    } else if kind == Some(15u64) {
        Ok(
            JsonView::Object(
                seq![
                    ("auto_archive_duration"@, JsonView::Unsigned(1440)),
                    (
                        "message"@,
                        JsonView::Object(
                            seq![
                                ("allowed_mentions"@, crate::discord::no_mentions()),
                                (
                                    "content"@,
                                    JsonView::Text(
                                        "ここで新しい会話を始められます。Botに話しかけてください。"@,
                                    ),
                                ),
                            ],
                        ),
                    ),
                    ("name"@, JsonView::Text(title)),
                ],
            ),
        )
    } else {
        Err("unsupported thread parent"@)
    }
}

pub fn new_thread_body(channel: &Json, title: &str) -> (r: Result<Json, &'static str>)
    ensures
        match thread_body(channel@, title@) {
            Ok(v) => r is Ok && r->Ok_0@ == v,
            Err(e) => r is Err && r->Err_0@ == e,
        },
{
    if is_blank(title) || chars_of(title).len() > 100 {
        return Err("invalid title");
    }
    match channel.at("type").as_u64() {
        Some(0) => Ok(
            object3(
                "auto_archive_duration",
                Json::Unsigned(1440),
                "name",
                text(title),
                "type",
                Json::Unsigned(11),
            ),
        ),
        Some(15) => Ok(
            object3(
                "auto_archive_duration",
                Json::Unsigned(1440),
                "message",
                object2(
                    "allowed_mentions",
                    object1("parse", crate::json::empty_array()),
                    "content",
                    text("ここで新しい会話を始められます。Botに話しかけてください。"),
                ),
                "name",
                text(title),
            ),
        ),
        _ => Err("unsupported thread parent"),
    }
}

/// The names of the first models of a list, at most 25.
pub open spec fn model_names(list: Seq<JsonView>, n: nat) -> Seq<Seq<char>>
    decreases n,
{
    if n == 0 || n > list.len() {
        Seq::empty()
    } else {
        let before = model_names(list, (n - 1) as nat);
        match list[n - 1].at("id"@).text() {
            Some(s) => if before.len() < 25 {
                before.push(s)
            } else {
                before
            },
            None => before,
        }
    }
}

/// The list of models that a proxy offers.
pub fn model_list(models: &Json) -> (r: String)
    ensures
        r@ == "モデル一覧（最大25件）\n"@ + joined(
            match models@.at("data"@).array() {
                Some(list) => model_names(list, list.len()),
                None => Seq::empty(),
            },
            "\n"@,
        ) + "\n/model id:モデルID で選択できます。"@,
{
    let mut names: Vec<String> = Vec::new();
    assert(views(names@) =~= Seq::<Seq<char>>::empty());
    match models.at("data").as_array() {
        None => {},
        Some(list) => {
            let ghost all = models@.at("data"@).array()->0;
            let mut i: usize = 0;
            while i < list.len()
                invariant
                    i <= list@.len(),
                    list@.len() == all.len(),
                    forall|j: int| 0 <= j < all.len() ==> #[trigger] list@[j]@ == all[j],
                    views(names@) == model_names(all, i as nat),
                decreases list@.len() - i,
            {
                assert(list@[i as int]@ == all[i as int]);
                let ghost before = views(names@);
                if let Some(s) = list[i].at("id").as_str() {
                    if names.len() < 25 {
                        names.push(s.to_owned());
                        assert(views(names@) =~= before.push(s@));
                    }
                }
                i += 1;
            }
        },
    }
    let all_names = join(&names, "\n");
    String::from_str("モデル一覧（最大25件）\n").concat(all_names.as_str()).concat(
        "\n/model id:モデルID で選択できます。",
    )
}

/// The first entry of a list with an identity, from a position on.
pub open spec fn entry_from(list: Seq<JsonView>, id: Seq<char>, from: nat) -> Option<JsonView>
    decreases list.len() - from,
{
    if from >= list.len() {
        None
    } else if list[from as int].at("id"@).says(id) {
        Some(list[from as int])
    } else {
        entry_from(list, id, from + 1)
    }
}

fn find_entry<'a>(list: &'a Vec<Json>, id: &str, Ghost(all): Ghost<Seq<JsonView>>) -> (r: Option<
    &'a Json,
>)
    requires
        list@.len() == all.len(),
        forall|j: int| 0 <= j < all.len() ==> #[trigger] list@[j]@ == all[j],
    ensures
        match entry_from(all, id@, 0) {
            Some(v) => r is Some && r->0@ == v,
            None => r is None,
        },
{
    let mut i: usize = 0;
    while i < list.len()
        invariant
            i <= list@.len(),
            list@.len() == all.len(),
            forall|j: int| 0 <= j < all.len() ==> #[trigger] list@[j]@ == all[j],
            entry_from(all, id@, 0) == entry_from(all, id@, i as nat),
        decreases list@.len() - i,
    {
        assert(list@[i as int]@ == all[i as int]);
        if list[i].at("id").is_text(id) {
            return Some(&list[i]);
        }
        i += 1;
    }
    None
}

/// What forbids the choice of a model: it must be offered, and a conversation that has begun stays
/// with its provider.
pub open spec fn model_objection(models: JsonView, desired: Seq<char>, c: Conversation) -> Option<
    Seq<char>,
> {
    let current = match c.effective_model {
        Some(m) => m@,
        None => c.selected_model@,
    };
    match models.at("data"@).array() {
        None => Some("model list unavailable"@),
        Some(list) => {
            let next = entry_from(list, desired, 0);
            let previous = entry_from(list, current, 0);
            if next is None {
                Some("model unavailable"@)
            } else if c.proxy_thread_id is None {
                None
            } else if previous is None {
                Some("current provider unknown"@)
            } else if !(next->0.at("owned_by"@) is Text && next->0.at("owned_by"@)
                == previous->0.at("owned_by"@)) {
                Some("provider change requires new conversation"@)
            } else {
                None
            }
        },
    }
}

/// Whether a model can be chosen in a conversation.
pub fn choose_model(models: &Json, desired: &str, c: &Conversation) -> (r: Result<(), &'static str>)
    ensures
        match model_objection(models@, desired@, *c) {
            Some(e) => r is Err && r->Err_0@ == e,
            None => r is Ok,
        },
{
    let list = match models.at("data").as_array() {
        Some(v) => v,
        None => return Err("model list unavailable"),
    };
    let ghost all = models@.at("data"@).array()->0;
    let next = match find_entry(list, desired, Ghost(all)) {
        Some(v) => v,
        None => return Err("model unavailable"),
    };
    if c.proxy_thread_id.is_none() {
        return Ok(());
    }
    let current = match &c.effective_model {
        Some(m) => m.as_str(),
        None => c.selected_model.as_str(),
    };
    let previous = match find_entry(list, current, Ghost(all)) {
        Some(v) => v,
        None => return Err("current provider unknown"),
    };
    if next.at("owned_by").as_str().is_some() && next.at("owned_by").same_as(
        previous.at("owned_by"),
    ) {
        Ok(())
    } else {
        Err("provider change requires new conversation")
    }
}

/// What the choice of a model answers. `applied` says whether no newer choice overtook it.
pub fn model_reply(outcome: Result<bool, &str>, desired: &str) -> (r: String)
    ensures
        r@ == match outcome {
            Ok(true) => "次に開始する依頼のモデルを "@ + desired@
                + " にしました。実行中のTurnには適用しません。"@,
            Ok(false) => "より新しいモデル選択があるため、この操作は適用しませんでした。"@,
            Err(e) => if e@ == "model unavailable"@ {
                "そのモデルIDは利用できません。/models の一覧から id 欄に入力してください。"@
            } else if e@ == "provider change requires new conversation"@ {
                "別Providerへの変更には /new で新しい会話を作成してください。"@
            } else {
                "モデルを変更できませんでした。Proxyの接続と /models を確認してください。"@
            },
        },
{
    match outcome {
        Ok(applied) => {
            if applied {
                String::from_str("次に開始する依頼のモデルを ").concat(desired).concat(
                    " にしました。実行中のTurnには適用しません。",
                )
            } else {
                String::from_str(
                    "より新しいモデル選択があるため、この操作は適用しませんでした。",
                )
            }
        },
        Err(e) => {
            if same(e, "model unavailable") {
                String::from_str(
                    "そのモデルIDは利用できません。/models の一覧から id 欄に入力してください。",
                )
            } else if same(e, "provider change requires new conversation") {
                String::from_str(
                    "別Providerへの変更には /new で新しい会話を作成してください。",
                )
            } else {
                String::from_str(
                    "モデルを変更できませんでした。Proxyの接続と /models を確認してください。",
                )
            }
        },
    }
}

/// Whether a model identity is short enough.
pub fn check_model_id(desired: &str) -> (r: Result<(), &'static str>)
    ensures
        r is Ok <==> utf8_len(desired@) <= 256,
        r is Err ==> r->Err_0@ == "model ID too long"@,
{
    if byte_len(desired) <= 256 {
        Ok(())
    } else {
        Err("model ID too long")
    }
}

/// What decides on an approval.
#[derive(Clone, Copy, Debug, PartialEq, Eq, Structural)]
pub enum ApprovalCheck {
    Send,
    /// It was answered or has expired: nothing is sent.
    Closed,
}

/// What forbids a decision on an approval.
pub open spec fn approve_objection(
    current: JsonView,
    decision: Seq<char>,
    request_thread: Seq<char>,
    thread: Seq<char>,
    proxy_thread: Option<Seq<char>>,
    turn: Option<Seq<char>>,
) -> Option<Seq<char>> {
    if decision != "accept"@ && decision != "decline"@ && decision != "cancel"@ {
        Some("decision prohibited"@)
    } else if request_thread != thread {
        Some("approval conversation mismatch"@)
    } else if current.at("details"@).at("threadId"@).text() != proxy_thread || current.at(
        "details"@,
    ).at("turnId"@).text() != turn {
        Some("approval identity mismatch"@)
    } else if current.at("state"@).says("pending"@) && !current.at("available_decisions"@).lists(
        decision,
    ) {
        Some("decision unavailable"@)
    } else {
        None
    }
}

/// Whether a decision on an approval is sent: only one that is offered, for this conversation and
/// turn, while the approval is open.
pub fn approve(
    current: &Json,
    decision: &str,
    request_thread: &str,
    thread: &str,
    proxy_thread: Option<&str>,
    turn: Option<&str>,
) -> (r: Result<ApprovalCheck, &'static str>)
    ensures
        match approve_objection(
            current@,
            decision@,
            request_thread@,
            thread@,
            opt_str(proxy_thread),
            opt_str(turn),
        ) {
            Some(e) => r is Err && r->Err_0@ == e,
            None => r == Ok::<ApprovalCheck, &'static str>(
                if current@.at("state"@).says("pending"@) {
                    ApprovalCheck::Send
                } else {
                    ApprovalCheck::Closed
                },
            ),
        },
{
    if !same(decision, "accept") && !same(decision, "decline") && !same(decision, "cancel") {
        return Err("decision prohibited");
    }
    if !same(request_thread, thread) {
        return Err("approval conversation mismatch");
    }
    let details = current.at("details");
    if !crate::text::same_option(details.at("threadId").as_str(), proxy_thread)
        || !crate::text::same_option(details.at("turnId").as_str(), turn) {
        return Err("approval identity mismatch");
    }
    if !current.at("state").is_text("pending") {
        return Ok(ApprovalCheck::Closed);
    }
    if !current.at("available_decisions").lists(decision) {
        return Err("decision unavailable");
    }
    Ok(ApprovalCheck::Send)
}

/// What a decision on an approval answers.
pub fn approve_reply(check: ApprovalCheck, decision: &str) -> (r: &'static str)
    ensures
        r@ == if check == ApprovalCheck::Closed {
            "この承認は回答済み、または期限切れです。元の作業は再実行していません。"@
        } else if decision@ == "accept"@ {
            "今回の操作を承認しました。続きの回答はこの会話に届きます。"@
        } else if decision@ == "decline"@ {
            "この操作を拒否しました。"@
        } else {
            "この承認を取り消しました。"@
        },
{
    if check == ApprovalCheck::Closed {
        "この承認は回答済み、または期限切れです。元の作業は再実行していません。"
    } else if same(decision, "accept") {
        "今回の操作を承認しました。続きの回答はこの会話に届きます。"
    } else if same(decision, "decline") {
        "この操作を拒否しました。"
    } else {
        "この承認を取り消しました。"
    }
}

/// Whether additional instructions are neither blank nor too long.
pub fn check_steer_text(s: &str, limit: usize) -> (r: Result<(), &'static str>)
    ensures
        r is Ok <==> !blank(s@) && utf8_len(s@) <= limit,
        r is Err ==> r->Err_0@ == "steer text invalid"@,
{
    if !is_blank(s) && byte_len(s) <= limit {
        Ok(())
    } else {
        Err("steer text invalid")
    }
}

/// Something that a command answers in one fixed way.
#[derive(Clone, Copy, Debug, PartialEq, Eq, Structural)]
pub enum Note {
    /// There is no conversation here and none can begin.
    NotHere,
    NothingToCancel,
    /// The forum asks for a tag, which only the user can choose.
    TagRequired,
    SteerAccepted,
}

pub open spec fn note_text(n: Note) -> Seq<char> {
    match n {
        Note::NotHere => "この場所では会話できません。Botの閲覧権限とチャンネルの種類を確認してください。"@,
        Note::NothingToCancel => "取り消せる依頼はありません。"@,
        Note::TagRequired => "このフォーラムはタグの指定が必要です。Discordの「投稿を作成」からタグを選んで会話を作ってください。作成した投稿ではそのままBotと話せます。"@,
        Note::SteerAccepted => "対象Turnへの追加指示が受け付けられました。停止が必要な場合は /stop を使ってください。"@,
    }
}

pub fn note(n: Note) -> (r: &'static str)
    ensures
        r@ == note_text(n),
{
    match n {
        Note::NotHere => "この場所では会話できません。Botの閲覧権限とチャンネルの種類を確認してください。",
        Note::NothingToCancel => "取り消せる依頼はありません。",
        Note::TagRequired => "このフォーラムはタグの指定が必要です。Discordの「投稿を作成」からタグを選んで会話を作ってください。作成した投稿ではそのままBotと話せます。",
        Note::SteerAccepted => "対象Turnへの追加指示が受け付けられました。停止が必要な場合は /stop を使ってください。",
    }
}

/// What the question for the model answers.
pub fn model_question(selected: &str) -> (r: String)
    ensures
        r@ == "選択中のモデル: "@ + selected@
            + "\n/models で一覧、/model の id 欄で変更できます。"@,
{
    String::from_str("選択中のモデル: ").concat(selected).concat(
        "\n/models で一覧、/model の id 欄で変更できます。",
    )
}

/// What is wrong with the place in which a new conversation is asked for.
pub open spec fn origin_objection(place: JsonView, guild: Seq<char>) -> Option<Seq<char>> {
    let parent = place.at("parent_id"@).text();
    if !place.at("guild_id"@).says(guild) {
        Some("channel guild mismatch"@)
    } else if !in_thread(place) {
        None
    } else if parent is None {
        Some("parent missing"@)
    } else {
        number_objection(parent->0)
    }
}

/// Whether a place is a thread.
pub open spec fn in_thread(place: JsonView) -> bool {
    place.at("type"@).unsigned() == Some(11u64) || place.at("type"@).unsigned() == Some(12u64)
}

/// The channel above the place in which a new conversation is asked for, where that is a thread.
pub fn conversation_parent<'a>(place: &'a Json, guild: &str) -> (r: Result<
    Option<&'a str>,
    &'static str,
>)
    ensures
        match origin_objection(place@, guild@) {
            Some(e) => r is Err && r->Err_0@ == e,
            None => r is Ok && opt_str(r->Ok_0) == if in_thread(place@) {
                place@.at("parent_id"@).text()
            } else {
                None
            },
        },
{
    if !place.at("guild_id").is_text(guild) {
        return Err("channel guild mismatch");
    }
    match place.at("type").as_u64() {
        Some(11) | Some(12) => match place.at("parent_id").as_str() {
            None => Err("parent missing"),
            Some(parent) => match check_number(parent) {
                Err(e) => Err(e),
                Ok(()) => Ok(Some(parent)),
            },
        },
        _ => Ok(None),
    }
}

/// Whether a thread may be created: an interaction creates one at most, and is not sent again where
/// it is unknown what became of it.
pub fn check_creation(first: bool) -> (r: Result<(), &'static str>)
    ensures
        r is Ok <==> first,
        r is Err ==> r->Err_0@ == "thread creation already attempted"@,
{
    if first {
        Ok(())
    } else {
        Err("thread creation already attempted")
    }
}

} // verus!
