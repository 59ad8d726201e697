//! Interactions and commands of the direct runtime.
use crate::commands::{
    custom_begins, find_option, option, option_item, option_text,
};
use crate::components::{button, button_view, row, row_view};
use crate::direct_application::DirectControlOutcome;
use crate::direct_models::{model_views, DirectModel, ModelView};
use crate::direct_store::DirectRecoveryOffer;
use crate::domain::{Conversation, RequestState};
use crate::files::number_objection;
use crate::json::{trees, Json, JsonView};
use crate::numbers::{
    decimal, decimal_text, signed_decimal, signed_fault, signed_number, signed_of, signed_text,
};
use crate::paths::{join_path, path_joined};
use crate::text::{
    begins, blank, byte_len, first_chars, is_blank, join, joined, opt_str, opt_view, pieces, same,
    some_same, split, starts_with, strip_prefix, take_chars, utf8_len, views,
};
use vstd::prelude::*;
use vstd::string::*;

verus! {

/// What an interaction is for.
#[derive(Clone, Copy, Debug, PartialEq, Eq, Structural)]
pub enum DirectRoute {
    /// Of another guild: acknowledged and left alone.
    Foreign,
    /// Of another user: acknowledged and refused.
    Stranger,
    ModelChoice,
    EffortChoice,
    Recovery,
    Approval,
    ModelMenu,
    EffortMenu,
    RecoveryMenu,
    Command,
}

/// The user of an interaction.
pub open spec fn interaction_user(v: JsonView) -> Option<Seq<char>> {
    match v.at("member"@).at("user"@).at("id"@).text() {
        Some(s) => Some(s),
        None => v.at("user"@).at("id"@).text(),
    }
}

/// Whether an option of a command is given.
pub open spec fn has_option(v: JsonView, name: Seq<char>) -> bool {
    option_item(v, name) is Some
}

/// What an interaction of the authorized user is for.
pub open spec fn user_route(v: JsonView) -> DirectRoute {
    let name = v.at("data"@).at("name"@);
    if v.at("data"@).at("custom_id"@).text() is Some {
        if custom_begins(v, "direct:model:"@) {
            DirectRoute::ModelChoice
        } else if custom_begins(v, "direct:effort:"@) {
            DirectRoute::EffortChoice
        } else if custom_begins(v, "direct:recover:"@) {
            DirectRoute::Recovery
        } else {
            DirectRoute::Approval
        }
    } else if name.says("model"@) && !has_option(v, "id"@) {
        DirectRoute::ModelMenu
    } else if name.says("effort"@) && !has_option(v, "level"@) {
        DirectRoute::EffortMenu
    } else if name.says("recover"@) {
        DirectRoute::RecoveryMenu
    } else {
        DirectRoute::Command
    }
}

/// What an interaction is for: only the authorized user in the guild reaches anything.
pub open spec fn direct_route(v: JsonView, guild: Seq<char>, user: Seq<char>) -> Result<
    DirectRoute,
    Seq<char>,
> {
    if v.at("id"@).text() is None {
        Err("Discord interaction ID missing"@)
    } else if v.at("token"@).text() is None {
        Err("Discord interaction token missing"@)
    } else if !v.at("guild_id"@).says(guild) {
        Ok(DirectRoute::Foreign)
    } else if interaction_user(v) != Some(user) {
        if v.at("application_id"@).text() is None {
            Err("application ID missing"@)
        } else {
            Ok(DirectRoute::Stranger)
        }
    } else if v.at("channel_id"@).text() is None {
        Err("Discord channel missing"@)
    } else if v.at("application_id"@).text() is None {
        Err("application ID missing"@)
    } else {
        Ok(user_route(v))
    }
}

/// What an interaction is for.
pub fn handle_interaction(v: &Json, guild: &str, user: &str) -> (r: Result<
    DirectRoute,
    &'static str,
>)
    ensures
        match direct_route(v@, guild@, user@) {
            Ok(route) => r == Ok::<DirectRoute, &'static str>(route),
            Err(e) => r is Err && r->Err_0@ == e,
        },
{
    if v.at("id").as_str().is_none() {
        return Err("Discord interaction ID missing");
    }
    if v.at("token").as_str().is_none() {
        return Err("Discord interaction token missing");
    }
    if !v.at("guild_id").is_text(guild) {
        return Ok(DirectRoute::Foreign);
    }
    let who = match v.at("member").at("user").at("id").as_str() {
        Some(s) => Some(s),
        None => v.at("user").at("id").as_str(),
    };
    if !some_same(who, user) {
        return if v.at("application_id").as_str().is_none() {
            Err("application ID missing")
        } else {
            Ok(DirectRoute::Stranger)
        };
    }
    if v.at("channel_id").as_str().is_none() {
        return Err("Discord channel missing");
    }
    if v.at("application_id").as_str().is_none() {
        return Err("application ID missing");
    }
    match v.at("data").at("custom_id").as_str() {
        Some(custom) => {
            if starts_with(custom, "direct:model:") {
                Ok(DirectRoute::ModelChoice)
            } else if starts_with(custom, "direct:effort:") {
                Ok(DirectRoute::EffortChoice)
            } else if starts_with(custom, "direct:recover:") {
                Ok(DirectRoute::Recovery)
            } else {
                Ok(DirectRoute::Approval)
            }
        },
        None => {
            let name = v.at("data").at("name");
            if name.is_text("model") && find_option(v, "id").is_none() {
                Ok(DirectRoute::ModelMenu)
            } else if name.is_text("effort") && find_option(v, "level").is_none() {
                Ok(DirectRoute::EffortMenu)
            } else if name.is_text("recover") {
                Ok(DirectRoute::RecoveryMenu)
            } else {
                Ok(DirectRoute::Command)
            }
        },
    }
}

/// Whether an interaction is acknowledged before anything else is looked at: one of another guild or
/// of another user. It is acknowledged although it is then refused or fails.
pub fn acknowledged_first(v: &Json, guild: &str, user: &str) -> (r: bool)
    ensures
        r == (v@.at("id"@).text() is Some && v@.at("token"@).text() is Some && (!v@.at(
            "guild_id"@,
        ).says(guild@) || interaction_user(v@) != Some(user@))),
{
    let who = match v.at("member").at("user").at("id").as_str() {
        Some(s) => Some(s),
        None => v.at("user").at("id").as_str(),
    };
    v.at("id").as_str().is_some() && v.at("token").as_str().is_some() && (!v.at("guild_id").is_text(
        guild,
    ) || !some_same(who, user))
}

/// What a stranger is answered.
pub fn stranger_refused() -> (r: &'static str)
    ensures
        r@ == "この操作は許可された利用者だけが実行できます。"@,
{
    "この操作は許可された利用者だけが実行できます。"
}

/// Nobody but the authorized user reaches anything, and nothing of another guild is handled.
pub proof fn only_the_user_is_served(v: JsonView, guild: Seq<char>, user: Seq<char>)
    requires
        interaction_user(v) != Some(user) || !v.at("guild_id"@).says(guild),
        direct_route(v, guild, user) is Ok,
    ensures
        direct_route(v, guild, user)->Ok_0 == DirectRoute::Foreign || direct_route(v, guild, user)->Ok_0
            == DirectRoute::Stranger,
{
}

/// What a command asks for.
pub enum DirectCommand {
    Status,
    Models(u64),
    Model(Option<String>),
    Effort(Option<String>),
    Workspace,
    Get(Option<String>),
    Resume,
    Cancel,
    Stop,
    Steer(String),
    Unavailable,
}

/// The mathematical form of a `DirectCommand`.
pub enum DirectCommandView {
    Status,
    Models(u64),
    Model(Option<Seq<char>>),
    Effort(Option<Seq<char>>),
    Workspace,
    Get(Option<Seq<char>>),
    Resume,
    Cancel,
    Stop,
    Steer(Seq<char>),
    Unavailable,
}

impl View for DirectCommand {
    type V = DirectCommandView;

    open spec fn view(&self) -> DirectCommandView {
        match self {
            DirectCommand::Status => DirectCommandView::Status,
            DirectCommand::Models(n) => DirectCommandView::Models(*n),
            DirectCommand::Model(s) => DirectCommandView::Model(opt_view(*s)),
            DirectCommand::Effort(s) => DirectCommandView::Effort(opt_view(*s)),
            DirectCommand::Workspace => DirectCommandView::Workspace,
            DirectCommand::Get(s) => DirectCommandView::Get(opt_view(*s)),
            DirectCommand::Resume => DirectCommandView::Resume,
            DirectCommand::Cancel => DirectCommandView::Cancel,
            DirectCommand::Stop => DirectCommandView::Stop,
            DirectCommand::Steer(s) => DirectCommandView::Steer(s@),
            DirectCommand::Unavailable => DirectCommandView::Unavailable,
        }
    }
}

/// The page of models that is asked for, the first unless given.
pub open spec fn asked_models_page(v: JsonView) -> u64 {
    match option_item(v, "page"@) {
        Some(o) => match o.at("value"@).unsigned() {
            Some(n) => n,
            None => 1,
        },
        None => 1,
    }
}

/// What a command asks for.
pub open spec fn direct_command(v: JsonView, text_limit: nat) -> Result<DirectCommandView, Seq<char>> {
    let name = v.at("data"@).at("name"@).text();
    if name is None {
        Err("command name missing"@)
    } else if name == Some("status"@) {
        Ok(DirectCommandView::Status)
    } else if name == Some("models"@) {
        Ok(DirectCommandView::Models(asked_models_page(v)))
    } else if name == Some("model"@) {
        Ok(DirectCommandView::Model(option_text(v, "id"@)))
    } else if name == Some("effort"@) {
        Ok(DirectCommandView::Effort(option_text(v, "level"@)))
    } else if name == Some("workspace"@) {
        Ok(DirectCommandView::Workspace)
    } else if name == Some("get"@) {
        Ok(DirectCommandView::Get(option_text(v, "path"@)))
    } else if name == Some("resume"@) {
        Ok(DirectCommandView::Resume)
    } else if name == Some("cancel"@) {
        Ok(DirectCommandView::Cancel)
    } else if name == Some("stop"@) {
        Ok(DirectCommandView::Stop)
    } else if name == Some("steer"@) {
        match option_text(v, "text"@) {
            None => Err("steer text missing"@),
            Some(s) => if blank(s) || utf8_len(s) > text_limit {
                Err("steer text invalid"@)
            } else {
                Ok(DirectCommandView::Steer(s))
            },
        }
    } else {
        Ok(DirectCommandView::Unavailable)
    }
}

fn owned(o: Option<&str>) -> (r: Option<String>)
    ensures
        opt_view(r) == opt_str(o),
{
    match o {
        Some(s) => Some(s.to_owned()),
        None => None,
    }
}

/// What a command asks for.
pub fn command(v: &Json, text_limit: usize) -> (r: Result<DirectCommand, &'static str>)
    ensures
        match direct_command(v@, text_limit as nat) {
            Ok(c) => r is Ok && r->Ok_0@ == c,
            Err(e) => r is Err && r->Err_0@ == e,
        },
{
    let name = match v.at("data").at("name").as_str() {
        Some(s) => s,
        None => return Err("command name missing"),
    };
    if same(name, "status") {
        Ok(DirectCommand::Status)
    } else if same(name, "models") {
        let page: u64 = match find_option(v, "page") {
            Some(o) => match o.at("value").as_u64() {
                Some(n) => n,
                None => 1,
            },
            None => 1,
        };
        Ok(DirectCommand::Models(page))
    } else if same(name, "model") {
        Ok(DirectCommand::Model(owned(option(v, "id"))))
    } else if same(name, "effort") {
        Ok(DirectCommand::Effort(owned(option(v, "level"))))
    } else if same(name, "workspace") {
        Ok(DirectCommand::Workspace)
    } else if same(name, "get") {
        Ok(DirectCommand::Get(owned(option(v, "path"))))
    } else if same(name, "resume") {
        Ok(DirectCommand::Resume)
    } else if same(name, "cancel") {
        Ok(DirectCommand::Cancel)
    } else if same(name, "stop") {
        Ok(DirectCommand::Stop)
    } else if same(name, "steer") {
        match option(v, "text") {
            None => Err("steer text missing"),
            Some(s) => {
                if is_blank(s) || byte_len(s) > text_limit {
                    Err("steer text invalid")
                } else {
                    Ok(DirectCommand::Steer(s.to_owned()))
                }
            },
        }
    } else {
        Ok(DirectCommand::Unavailable)
    }
}

/// The status of a conversation.
pub open spec fn direct_status(active: Option<RequestState>, c: Conversation, blocked: bool) -> Seq<char> {
    let head = "実行中: "@ + match active {
        Some(s) => s.name(),
        None => "なし"@,
    } + "\n待機列: "@ + if c.paused {
        "停止中"@
    } else {
        "再開済み"@
    } + "\n選択モデル: "@ + c.selected_model@ + "\n推論レベル: "@ + c.selected_reasoning_effort@
        + "\n会話状態: "@ + c.continuation@;
    if blocked {
        head
            + "\n前の作業が結果不明です。/recover で復旧内容を確認できます。/resume だけでは解除されません。"@
    } else {
        head
    }
}

pub fn status_reply(active: Option<RequestState>, c: &Conversation, blocked: bool) -> (r: String)
    ensures
        r@ == direct_status(active, *c, blocked),
{
    let mut out = String::from_str("実行中: ");
    match active {
        Some(s) => out.append(s.as_str()),
        None => out.append("なし"),
    }
    out.append("\n待機列: ");
    out.append(
        if c.paused {
            "停止中"
        } else {
            "再開済み"
        },
    );
    out.append("\n選択モデル: ");
    out.append(c.selected_model.as_str());
    out.append("\n推論レベル: ");
    out.append(c.selected_reasoning_effort.as_str());
    out.append("\n会話状態: ");
    out.append(c.continuation.as_str());
    if blocked {
        out.append(
            "\n前の作業が結果不明です。/recover で復旧内容を確認できます。/resume だけでは解除されません。",
        );
    }
    out
}

/// Position of the first model of a page of eight.
pub open spec fn page_start(page: nat) -> nat {
    if page == 0 {
        0
    } else {
        ((page - 1) * 8) as nat
    }
}

/// One line of the list of models.
pub open spec fn model_line(m: ModelView) -> Seq<char> {
    m.id + " — "@ + first_chars(m.display_name, 80)
}

/// The lines of a page of models.
pub open spec fn model_lines(models: Seq<ModelView>, start: nat) -> Seq<Seq<char>> {
    let end = if start + 8 < models.len() {
        start + 8
    } else {
        models.len()
    };
    if start >= models.len() {
        Seq::empty()
    } else {
        models.subrange(start as int, end as int).map_values(|m: ModelView| model_line(m))
    }
}

/// A page of the list of models.
pub open spec fn models_text(models: Seq<ModelView>, page: nat) -> Seq<char> {
    let start = page_start(page);
    let head = "利用可能なモデル（全"@ + decimal(models.len()) + "件、ページ"@ + decimal(page)
        + "）:\n"@ + joined(model_lines(models, start), "\n"@);
    if start + 8 < models.len() {
        head + "\n続き: /models page:"@ + decimal(page + 1)
    } else {
        head
    }
}

/// A page of the list of models.
pub fn models_reply(models: &Vec<DirectModel>, page: u64) -> (r: Result<String, &'static str>)
    ensures
        ({
            let all = model_views(models@);
            let shown = page_start(page as nat) < all.len() || (all.len() == 0 && page == 1);
            if shown {
                r is Ok && r->Ok_0@ == models_text(all, page as nat)
            } else {
                r is Err && r->Err_0@ == "model catalog page is empty"@
            }
        }),
{
    let ghost all = model_views(models@);
    let total: usize = models.len();
    let before: u64 = if page == 0 { 0 } else { page - 1 };
    if before > total as u64 / 8 {
        return Err("model catalog page is empty");
    }
    let start: usize = (before * 8) as usize;
    if !(start < total || (total == 0 && page == 1)) {
        return Err("model catalog page is empty");
    }
    let end: usize = if total - start > 8 { start + 8 } else { total };
    let mut lines: Vec<String> = Vec::new();
    let mut i: usize = start;
    let ghost shown = all.subrange(start as int, end as int);
    assert(views(lines@) =~= all.subrange(start as int, start as int).map_values(
        |m: ModelView| model_line(m),
    ));
    while i < end
        invariant
            start <= i <= end <= models@.len(),
            all == model_views(models@),
            views(lines@) == all.subrange(start as int, i as int).map_values(
                |m: ModelView| model_line(m),
            ),
        decreases end - i,
    {
        let m = &models[i];
        assert(all[i as int] == m@);
        let name = take_chars(m.display_name.as_str(), 80);
        let line = String::from_str(m.id.as_str()).concat(" — ").concat(name.as_str());
        let ghost earlier = views(lines@);
        let ghost added = line@;
        lines.push(line);
        i += 1;
        assert(views(lines@) =~= earlier.push(added));
        assert(views(lines@) =~= all.subrange(start as int, i as int).map_values(
            |m: ModelView| model_line(m),
        ));
    }
    assert(views(lines@) =~= model_lines(all, start as nat));
    let names = join(&lines, "\n");
    let count = decimal_text(total as u64);
    let number = decimal_text(page);
    let mut out = String::from_str("利用可能なモデル（全").concat(count.as_str()).concat("件、ページ").concat(
        number.as_str(),
    ).concat("）:\n").concat(names.as_str());
    if total - start > 8 {
        let next = decimal_text(page + 1);
        out.append("\n続き: /models page:");
        out.append(next.as_str());
    }
    Ok(out)
}

/// What the choice of a model by a command answers.
pub fn model_reply(model: &str, adjusted: Option<&str>) -> (r: String)
    ensures
        r@ == match opt_str(adjusted) {
            Some(e) => "次の依頼からモデルを "@ + model@
                + " に変更しました。このモデルで使えるよう、推論レベルは "@ + e + " に合わせました。"@,
            None => "次の依頼からモデルを "@ + model@ + " に変更しました。"@,
        },
{
    let head = String::from_str("次の依頼からモデルを ").concat(model);
    match adjusted {
        Some(e) => head.concat(
            " に変更しました。このモデルで使えるよう、推論レベルは ",
        ).concat(e).concat(" に合わせました。"),
        None => head.concat(" に変更しました。"),
    }
}

/// What the question for the model answers.
pub fn model_current(selected: &str) -> (r: String)
    ensures
        r@ == "選択中のモデル: "@ + selected@ + "\n/models で一覧を確認できます。"@,
{
    String::from_str("選択中のモデル: ").concat(selected).concat(
        "\n/models で一覧を確認できます。",
    )
}

/// What the choice of a reasoning level by a command answers.
pub fn effort_reply(effort: &str) -> (r: String)
    ensures
        r@ == "次の依頼から推論レベルを "@ + effort@ + " に変更しました。"@,
{
    String::from_str("次の依頼から推論レベルを ").concat(effort).concat(" に変更しました。")
}

/// What the question for the reasoning level answers.
pub fn effort_current(selected: &str) -> (r: String)
    ensures
        r@ == "選択中の推論レベル: "@ + selected@
            + "\n/effort の level 欄へ文字列を直接入力することもできます。"@,
{
    String::from_str("選択中の推論レベル: ").concat(selected).concat(
        "\n/effort の level 欄へ文字列を直接入力することもできます。",
    )
}

/// What the question for the working folder answers: a folder that is in use stays, whatever the
/// configuration says later.
pub fn workspace_reply(bound: Option<&str>, root: &str, thread: &str) -> (r: String)
    ensures
        r@ == match opt_str(bound) {
            Some(path) => "この会話の作業フォルダー: "@ + path
                + "\n保存先設定を変えても、この会話は同じ場所を使います。"@,
            None => "この会話の最初の依頼から使う作業フォルダー: "@ + path_joined(root@, thread@),
        },
{
    match bound {
        Some(path) => String::from_str("この会話の作業フォルダー: ").concat(path).concat(
            "\n保存先設定を変えても、この会話は同じ場所を使います。",
        ),
        None => {
            let path = join_path(root, thread);
            String::from_str("この会話の最初の依頼から使う作業フォルダー: ").concat(path.as_str())
        },
    }
}

/// What a file that could not be taken answers.
pub fn capture_failed(error: &str) -> (r: &'static str)
    ensures
        r@ == if error@ == "previous artifact delivery is still unconfirmed"@ {
            "同じファイルの前回の送信結果を確認できません。会話内の添付を確認してください。重複を避けるため、新たな送信はしていません。"@
        } else {
            "このファイルを取得できませんでした。この会話で作成したファイルの相対パス、容量、ファイルの更新状態を確認してください。AIは再実行していません。"@
        },
{
    if same(error, "previous artifact delivery is still unconfirmed") {
        "同じファイルの前回の送信結果を確認できません。会話内の添付を確認してください。重複を避けるため、新たな送信はしていません。"
    } else {
        "このファイルを取得できませんでした。この会話で作成したファイルの相対パス、容量、ファイルの更新状態を確認してください。AIは再実行していません。"
    }
}

/// What the delivery of a file answers.
pub fn get_reply(sent: bool, name: &str) -> (r: String)
    ensures
        r@ == if sent {
            name@ + " の保存版をこの会話に送信しました。"@
        } else {
            "成果物の送信結果を確認できません。会話内の添付を確認してください。重複を避けるため自動再送はしません。"@
        },
{
    if sent {
        String::from_str(name).concat(" の保存版をこの会話に送信しました。")
    } else {
        String::from_str(
            "成果物の送信結果を確認できません。会話内の添付を確認してください。重複を避けるため自動再送はしません。",
        )
    }
}

/// One line of the list of artifacts: shown name and path.
pub open spec fn artifact_line(a: (String, String)) -> Seq<char> {
    a.0@ + " — "@ + a.1@
}

/// The lines of the first twenty artifacts.
pub open spec fn artifact_lines(v: Seq<(String, String)>) -> Seq<Seq<char>> {
    let n: int = if v.len() < 20 {
        v.len() as int
    } else {
        20
    };
    v.take(n).map_values(|a: (String, String)| artifact_line(a))
}

/// The list of the artifacts of a conversation.
pub fn get_list(artifacts: &Vec<(String, String)>) -> (r: String)
    ensures
        r@ == if artifacts@.len() == 0 {
            "この会話に登録された成果物はまだありません。作成したファイルは /get の path 欄に相対パスを指定して取得できます。"@
        } else {
            "この会話の成果物:\n"@ + first_chars(joined(artifact_lines(artifacts@), "\n"@), 1800)
        },
{
    if artifacts.len() == 0 {
        return String::from_str(
            "この会話に登録された成果物はまだありません。作成したファイルは /get の path 欄に相対パスを指定して取得できます。",
        );
    }
    let n: usize = if artifacts.len() < 20 { artifacts.len() } else { 20 };
    let mut lines: Vec<String> = Vec::new();
    let mut i: usize = 0;
    while i < n
        invariant
            i <= n <= artifacts@.len(),
            views(lines@) == artifacts@.take(i as int).map_values(
                |a: (String, String)| artifact_line(a),
            ),
        decreases n - i,
    {
        let line = String::from_str(artifacts[i].0.as_str()).concat(" — ").concat(
            artifacts[i].1.as_str(),
        );
        let ghost before = views(lines@);
        let ghost added = line@;
        lines.push(line);
        i += 1;
        assert(views(lines@) =~= before.push(added));
        assert(views(lines@) =~= artifacts@.take(i as int).map_values(
            |a: (String, String)| artifact_line(a),
        ));
    }
    assert(views(lines@) =~= artifact_lines(artifacts@));
    let all = join(&lines, "\n");
    let shown = take_chars(all.as_str(), 1800);
    String::from_str("この会話の成果物:\n").concat(shown.as_str())
}

/// What a resumption answers.
pub fn resume_reply(changed: bool) -> (r: &'static str)
    ensures
        r@ == if changed {
            "待機列を再開しました。"@
        } else {
            "待機列はすでに再開済みか、再開できない状態です。/status で確認してください。"@
        },
{
    if changed {
        "待機列を再開しました。"
    } else {
        "待機列はすでに再開済みか、再開できない状態です。/status で確認してください。"
    }
}

/// What happened to a control that was handed to a run.
#[derive(Clone, Copy, Debug, PartialEq, Eq, Structural)]
pub enum ControlEvent {
    /// No run of this conversation is active.
    NoRun,
    SendTimedOut,
    /// The run ended before it took the control.
    RunClosed,
    ReplyTimedOut,
    /// The run ended before it answered.
    ReplyDropped,
    Replied(DirectControlOutcome),
}

/// How a control goes on.
#[derive(Clone, Copy, Debug, PartialEq, Eq)]
pub enum ControlStep {
    /// Do it in the store, without a run. `closed` says whether there was one.
    WithoutRun { closed: bool },
    Done(DirectControlOutcome),
    Fail(&'static str),
}

/// How a control goes on, with the text of a failure.
#[verifier::ext_equal]
pub enum ControlStepView {
    WithoutRun { closed: bool },
    Done(DirectControlOutcome),
    Fail(Seq<char>),
}

impl View for ControlStep {
    type V = ControlStepView;

    open spec fn view(&self) -> ControlStepView {
        match *self {
            ControlStep::WithoutRun { closed } => ControlStepView::WithoutRun { closed },
            ControlStep::Done(o) => ControlStepView::Done(o),
            ControlStep::Fail(e) => ControlStepView::Fail(e@),
        }
    }
}

/// How a stop or cancellation goes on. It is handed to the run that is active; where that run is
/// gone, the store alone is changed.
pub fn control_step(event: ControlEvent) -> (r: ControlStep)
    ensures
        r@ == match event {
            ControlEvent::NoRun => ControlStepView::WithoutRun { closed: false },
            ControlEvent::RunClosed => ControlStepView::WithoutRun { closed: true },
            ControlEvent::ReplyDropped => ControlStepView::WithoutRun { closed: true },
            ControlEvent::SendTimedOut => ControlStepView::Fail("direct control send timed out"@),
            ControlEvent::ReplyTimedOut => ControlStepView::Fail(
                "direct control response timed out"@,
            ),
            ControlEvent::Replied(o) => ControlStepView::Done(o),
        },
{
    match event {
        ControlEvent::NoRun => ControlStep::WithoutRun { closed: false },
        ControlEvent::RunClosed => ControlStep::WithoutRun { closed: true },
        ControlEvent::ReplyDropped => ControlStep::WithoutRun { closed: true },
        ControlEvent::SendTimedOut => ControlStep::Fail("direct control send timed out"),
        ControlEvent::ReplyTimedOut => ControlStep::Fail("direct control response timed out"),
        ControlEvent::Replied(o) => ControlStep::Done(o),
    }
}

/// What a stop or cancellation answers.
pub open spec fn control_text(stop: bool, closed: bool, outcome: DirectControlOutcome) -> Seq<char> {
    if closed && stop {
        "待機列を停止しました。前の作業への中断は確認できません。Gatewayの運用者に状態確認を依頼してください。/status でも状態を確認できます。"@
    } else {
        match outcome {
            DirectControlOutcome::WaitingCancelled => "直近の待機依頼を取り消しました。実行中の依頼は継続します。"@,
            DirectControlOutcome::InterruptAccepted => "中断をCodexへ要求しました。完了確認は /status で行ってください。"@,
            DirectControlOutcome::Paused => "待機列を一時停止しました。/resume で再開できます。"@,
            DirectControlOutcome::NothingActive => "取り消せる待機依頼も実行中の依頼もありません。"@,
            DirectControlOutcome::ActiveRunUnavailable => "実行中の操作へ接続できません。/status で状態を確認してください。"@,
        }
    }
}

pub fn control_reply(stop: bool, closed: bool, outcome: DirectControlOutcome) -> (r: &'static str)
    ensures
        r@ == control_text(stop, closed, outcome),
{
    if closed && stop {
        return "待機列を停止しました。前の作業への中断は確認できません。Gatewayの運用者に状態確認を依頼してください。/status でも状態を確認できます。";
    }
    match outcome {
        DirectControlOutcome::WaitingCancelled => "直近の待機依頼を取り消しました。実行中の依頼は継続します。",
        DirectControlOutcome::InterruptAccepted => "中断をCodexへ要求しました。完了確認は /status で行ってください。",
        DirectControlOutcome::Paused => "待機列を一時停止しました。/resume で再開できます。",
        DirectControlOutcome::NothingActive => "取り消せる待機依頼も実行中の依頼もありません。",
        DirectControlOutcome::ActiveRunUnavailable => "実行中の操作へ接続できません。/status で状態を確認してください。",
    }
}

/// A menu in which something is chosen.
#[derive(Clone, Copy, Debug, PartialEq, Eq, Structural)]
pub enum Menu {
    Models,
    Efforts,
}

/// How the identity of a menu begins.
pub open spec fn menu_prefix(menu: Menu) -> Seq<char> {
    match menu {
        Menu::Models => "direct:model:"@,
        Menu::Efforts => "direct:effort:"@,
    }
}

/// What is wrong with a choice in a menu: it comes from the menu of one interaction and names
/// exactly one entry.
pub open spec fn choice_objection(v: JsonView, custom: Seq<char>, menu: Menu) -> Option<Seq<char>> {
    let values = v.at("data"@).at("values"@).array();
    let models = menu == Menu::Models;
    if v.at("data"@).at("component_type"@) != JsonView::Unsigned(3) {
        Some(
            if models {
                "model choice component type is invalid"@
            } else {
                "reasoning effort component type is invalid"@
            },
        )
    } else if !begins(custom, menu_prefix(menu)) {
        Some(
            if models {
                "model menu identity missing"@
            } else {
                "reasoning effort menu identity missing"@
            },
        )
    } else if number_objection(custom.skip(menu_prefix(menu).len() as int)) is Some {
        number_objection(custom.skip(menu_prefix(menu).len() as int))
    } else if values is None {
        Some(
            if models {
                "model choice missing"@
            } else {
                "reasoning effort choice missing"@
            },
        )
    } else if values->0.len() != 1 {
        Some(
            if models {
                "exactly one model must be selected"@
            } else {
                "exactly one reasoning effort must be selected"@
            },
        )
    } else if values->0[0].text() is None {
        Some(
            if models {
                "model choice is not text"@
            } else {
                "reasoning effort choice is not text"@
            },
        )
    } else {
        None
    }
}

/// The value that was chosen in the menu of models or reasoning levels.
fn menu_choice(v: &Json, custom: &str, menu: Menu) -> (r: Result<String, &'static str>)
    ensures
        match choice_objection(v@, custom@, menu) {
            Some(e) => r is Err && r->Err_0@ == e,
            None => r is Ok && v@.at("data"@).at("values"@).item(0).says(r->Ok_0@),
        },
{
    let models = menu == Menu::Models;
    if !v.at("data").at("component_type").is_number(3) {
        return Err(
            if models {
                "model choice component type is invalid"
            } else {
                "reasoning effort component type is invalid"
            },
        );
    }
    let prefix = if models {
        "direct:model:"
    } else {
        "direct:effort:"
    };
    let source = match strip_prefix(custom, prefix) {
        Some(s) => s,
        None => return Err(
            if models {
                "model menu identity missing"
            } else {
                "reasoning effort menu identity missing"
            },
        ),
    };
    if let Err(e) = crate::files::check_number(source.as_str()) {
        return Err(e);
    }
    let values = match v.at("data").at("values").as_array() {
        Some(list) => list,
        None => return Err(
            if models {
                "model choice missing"
            } else {
                "reasoning effort choice missing"
            },
        ),
    };
    if values.len() != 1 {
        return Err(
            if models {
                "exactly one model must be selected"
            } else {
                "exactly one reasoning effort must be selected"
            },
        );
    }
    match values[0].as_str() {
        Some(s) => Ok(s.to_owned()),
        None => Err(
            if models {
                "model choice is not text"
            } else {
                "reasoning effort choice is not text"
            },
        ),
    }
}

/// The model that was chosen in the menu.
pub fn model_selection(v: &Json, custom: &str) -> (r: Result<String, &'static str>)
    ensures
        match choice_objection(v@, custom@, Menu::Models) {
            Some(e) => r is Err && r->Err_0@ == e,
            None => r is Ok && v@.at("data"@).at("values"@).item(0).says(r->Ok_0@),
        },
{
    menu_choice(v, custom, Menu::Models)
}

/// The reasoning level that was chosen in the menu.
pub fn effort_selection(v: &Json, custom: &str) -> (r: Result<String, &'static str>)
    ensures
        match choice_objection(v@, custom@, Menu::Efforts) {
            Some(e) => r is Err && r->Err_0@ == e,
            None => r is Ok && v@.at("data"@).at("values"@).item(0).says(r->Ok_0@),
        },
{
    menu_choice(v, custom, Menu::Efforts)
}

/// What is answered where a choice in a menu could not be made.
pub fn choice_failed(menu: Menu) -> (r: &'static str)
    ensures
        r@ == match menu {
            Menu::Models => "モデルを変更できませんでした。/model を開き直して選択してください。"@,
            Menu::Efforts => "推論レベルを変更できませんでした。/effort を開き直して選択してください。"@,
        },
{
    match menu {
        Menu::Models => "モデルを変更できませんでした。/model を開き直して選択してください。",
        Menu::Efforts => "推論レベルを変更できませんでした。/effort を開き直して選択してください。",
    }
}

/// What is answered where a menu could not be shown.
pub fn menu_failed(menu: Menu) -> (r: &'static str)
    ensures
        r@ == match menu {
            Menu::Models => "モデル候補を取得できませんでした。少し待って /model を開き直してください。"@,
            Menu::Efforts => "推論レベル候補を取得できませんでした。少し待って /effort を開き直してください。"@,
        },
{
    match menu {
        Menu::Models => "モデル候補を取得できませんでした。少し待って /model を開き直してください。",
        Menu::Efforts => "推論レベル候補を取得できませんでした。少し待って /effort を開き直してください。",
    }
}

/// What the choice of a model in the menu answers. `current` is the model afterwards.
pub fn model_selected(applied: bool, current: &str, adjusted: Option<&str>) -> (r: String)
    ensures
        r@ == if applied {
            match opt_str(adjusted) {
                Some(e) => "選択中のモデルを "@ + current@
                    + " に変更しました。このモデルで使えるよう、推論レベルは "@ + e
                    + " に合わせました。次の依頼から使います。"@,
                None => "選択中のモデルを "@ + current@ + " に変更しました。次の依頼から使います。"@,
            }
        } else {
            "より新しいモデル選択が優先されています。現在のモデル: "@ + current@
        },
{
    if !applied {
        return String::from_str(
            "より新しいモデル選択が優先されています。現在のモデル: ",
        ).concat(current);
    }
    let head = String::from_str("選択中のモデルを ").concat(current);
    match adjusted {
        Some(e) => head.concat(
            " に変更しました。このモデルで使えるよう、推論レベルは ",
        ).concat(e).concat(" に合わせました。次の依頼から使います。"),
        None => head.concat(" に変更しました。次の依頼から使います。"),
    }
}

/// What the choice of a reasoning level in the menu answers.
pub fn effort_selected(applied: bool, current: &str) -> (r: String)
    ensures
        r@ == if applied {
            "選択中の推論レベルを "@ + current@ + " に変更しました。次の依頼から使います。"@
        } else {
            "より新しい推論レベル選択が優先されています。現在: "@ + current@
        },
{
    if applied {
        String::from_str("選択中の推論レベルを ").concat(current).concat(
            " に変更しました。次の依頼から使います。",
        )
    } else {
        String::from_str("より新しい推論レベル選択が優先されています。現在: ").concat(current)
    }
}

/// The identity of the button that confirms a recovery.
pub open spec fn recovery_identity(o: DirectRecoveryOffer) -> Seq<char> {
    "direct:recover:"@ + o.request_id@ + ":"@ + signed_decimal(o.generation as int) + ":"@
        + signed_decimal(o.pause_revision as int) + ":"@ + signed_decimal(o.next_sequence as int)
}

/// What a recovery would do, and the button that confirms it.
pub fn recovery_menu(active: bool, offer: Option<&DirectRecoveryOffer>) -> (r: (String, Option<Json>))
    ensures
        active ==> r.0@
            == "この会話ではまだ作業が動いています。/status で確認し、必要なら /stop を使ってください。"@
            && r.1 is None,
        !active && offer is None ==> r.0@
            == "この会話に安全に解除できる結果不明の依頼はありません。/status で状態を確認してください。"@
            && r.1 is None,
        !active && offer is Some ==> {
            &&& r.0@
                == "この会話の前の作業は結果を確認できず、次の依頼が止まっています。\n復旧すると、前の作業は再実行せず記録を残し、Codexの会話文脈を新しくします。未送信の待機依頼"@
                + signed_decimal(offer->0.waiting as int)
                + "件は取り消します。Discordの履歴と作業ファイルは残ります。\n続ける場合は確認ボタンを押してください。次の新しい投稿から作業できます。"@
            &&& r.1 is Some
            &&& (r.1->0)@ == row_view(
                seq![button_view(recovery_identity(*offer->0), "新しい文脈で会話を再開"@, 4)],
            )
        },
{
    if active {
        return (
            String::from_str(
                "この会話ではまだ作業が動いています。/status で確認し、必要なら /stop を使ってください。",
            ),
            None,
        );
    }
    match offer {
        None => (
            String::from_str(
                "この会話に安全に解除できる結果不明の依頼はありません。/status で状態を確認してください。",
            ),
            None,
        ),
        Some(o) => {
            let waiting = signed_text(o.waiting);
            let text = String::from_str(
                "この会話の前の作業は結果を確認できず、次の依頼が止まっています。\n復旧すると、前の作業は再実行せず記録を残し、Codexの会話文脈を新しくします。未送信の待機依頼",
            ).concat(waiting.as_str()).concat(
                "件は取り消します。Discordの履歴と作業ファイルは残ります。\n続ける場合は確認ボタンを押してください。次の新しい投稿から作業できます。",
            );
            let a = signed_text(o.generation);
            let b = signed_text(o.pause_revision);
            let c = signed_text(o.next_sequence);
            let id = String::from_str("direct:recover:").concat(o.request_id.as_str()).concat(":").concat(
                a.as_str(),
            ).concat(":").concat(b.as_str()).concat(":").concat(c.as_str());
            let mut items: Vec<Json> = Vec::new();
            items.push(button(id.as_str(), "新しい文脈で会話を再開", 4));
            assert(trees(items@) =~= seq![
                button_view(recovery_identity(*o), "新しい文脈で会話を再開"@, 4),
            ]);
            (text, Some(row(items)))
        },
    }
}

/// What forbids a recovery that was confirmed: it must be exactly the one that was offered, and
/// still be offered.
pub open spec fn recovery_objection(
    custom: Seq<char>,
    active: bool,
    offer: Option<DirectRecoveryOffer>,
) -> Option<Seq<char>> {
    let p = pieces(custom.skip("direct:recover:"@.len() as int), ':');
    if !begins(custom, "direct:recover:"@) {
        Some("recovery identity missing"@)
    } else if p.len() != 4 {
        Some("recovery identity invalid"@)
    } else if signed_of(p[1]) is None {
        signed_fault(p[1])
    } else if signed_of(p[2]) is None {
        signed_fault(p[2])
    } else if signed_of(p[3]) is None {
        signed_fault(p[3])
    } else if p[0].len() == 0 || signed_of(p[1])->0 < 0 {
        Some("recovery identity invalid"@)
    } else if active {
        Some("direct run still active"@)
    } else if offer is None {
        Some("recovery no longer available"@)
    } else if !(offer->0.request_id@ == p[0] && offer->0.generation == signed_of(p[1])->0
        && offer->0.pause_revision == signed_of(p[2])->0 && offer->0.next_sequence == signed_of(
        p[3],
    )->0) {
        Some("recovery offer changed"@)
    } else {
        None
    }
}

/// Whether a recovery that was confirmed may be carried out.
pub fn recovery_button(custom: &str, active: bool, offer: Option<&DirectRecoveryOffer>) -> (r: Result<
    (),
    &'static str,
>)
    ensures
        match recovery_objection(
            custom@,
            active,
            match offer {
                Some(o) => Some(*o),
                None => None,
            },
        ) {
            Some(e) => r is Err && r->Err_0@ == e,
            None => r is Ok,
        },
{
    let identity = match strip_prefix(custom, "direct:recover:") {
        Some(s) => s,
        None => return Err("recovery identity missing"),
    };
    let p = split(identity.as_str(), ':');
    let ghost list = pieces(identity@, ':');
    assert(views(p@).len() == p@.len());
    if p.len() != 4 {
        return Err("recovery identity invalid");
    }
    assert(list[0] == p@[0]@ && list[1] == p@[1]@ && list[2] == p@[2]@ && list[3] == p@[3]@);
    let generation: i64 = match signed_number(p[1].as_str()) {
        Ok(n) => n,
        Err(e) => return Err(e),
    };
    let pause_revision: i64 = match signed_number(p[2].as_str()) {
        Ok(n) => n,
        Err(e) => return Err(e),
    };
    let next_sequence: i64 = match signed_number(p[3].as_str()) {
        Ok(n) => n,
        Err(e) => return Err(e),
    };
    if p[0].as_str().is_empty() || generation < 0 {
        return Err("recovery identity invalid");
    }
    if active {
        return Err("direct run still active");
    }
    match offer {
        None => Err("recovery no longer available"),
        Some(o) => {
            if same(o.request_id.as_str(), p[0].as_str()) && o.generation == generation
                && o.pause_revision == pause_revision && o.next_sequence == next_sequence {
                Ok(())
            } else {
                Err("recovery offer changed")
            }
        },
    }
}

/// Whether a recovery goes on once its backup is made: no run may have begun meanwhile.
pub fn recovery_after_backup(active: bool) -> (r: Result<(), &'static str>)
    ensures
        r is Ok <==> !active,
        r is Err ==> r->Err_0@ == "direct run started during recovery"@,
{
    if active {
        Err("direct run started during recovery")
    } else {
        Ok(())
    }
}

/// What is answered where it could not be found out what to recover.
pub fn recovery_menu_failed() -> (r: &'static str)
    ensures
        r@ == "復旧対象を確認できませんでした。少し待って /recover を開き直してください。"@,
{
    "復旧対象を確認できませんでした。少し待って /recover を開き直してください。"
}

/// What is answered where a command failed: nothing is sent to the model again by itself.
pub fn command_failed() -> (r: &'static str)
    ensures
        r@
            == "操作を確認できませんでした。/status で状態を確認し、必要なら /stop してください。AIへ同じ指示を自動再送しません。"@,
{
    "操作を確認できませんでした。/status で状態を確認し、必要なら /stop してください。AIへ同じ指示を自動再送しません。"
}

/// What a recovery answers.
pub fn recovery_reply(done: bool) -> (r: &'static str)
    ensures
        r@ == if done {
            "この会話を再開しました。前の作業は再実行していません。次の新しい投稿からCodexの文脈で作業できます。Discordの履歴と作業ファイルは残っています。"@
        } else {
            "復旧を完了できませんでした。前の作業は再実行していません。/status を確認し、/recover を開き直してください。繰り返し失敗する場合はGatewayの運用者に連絡してください。"@
        },
{
    if done {
        "この会話を再開しました。前の作業は再実行していません。次の新しい投稿からCodexの文脈で作業できます。Discordの履歴と作業ファイルは残っています。"
    } else {
        "復旧を完了できませんでした。前の作業は再実行していません。/status を確認し、/recover を開き直してください。繰り返し失敗する場合はGatewayの運用者に連絡してください。"
    }
}

} // verus!
