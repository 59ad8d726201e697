//! Commands of the runtime behind a proxy: which text is one, and what each does.
use crate::json::{text, Json, JsonView};
use crate::text::{
    begins, ends, ends_with, opt_str, opt_view, pieces, same, some_same, split, split_words,
    starts_with, strip_prefix, trim, trimmed, views, words,
};
use vstd::prelude::*;
use vstd::string::*;

verus! {

/// Whether a word is a command of the gateway.
pub open spec fn command_word(w: Seq<char>) -> bool {
    w == "/project"@ || w == "/model"@ || w == "/models"@ || w == "/new"@ || w == "/status"@ || w
        == "/stop"@ || w == "/cancel"@ || w == "/resume"@ || w == "/steer"@ || w == "/get"@ || w
        == "/workspace"@ || w == "/retry"@ || w == "/mcp"@
}

/// Whether the first word of a text is a command: other text and paths are left alone.
pub open spec fn text_control(s: Seq<char>) -> bool {
    words(s).len() > 0 && command_word(words(s)[0])
}

pub fn is_text_control(text: &str) -> (r: bool)
    ensures
        r == text_control(text@),
{
    let parts = split_words(text);
    assert(views(parts@).len() == parts@.len());
    if parts.len() == 0 {
        return false;
    }
    let w = parts[0].as_str();
    assert(views(parts@)[0] == w@);
    same(w, "/project") || same(w, "/model") || same(w, "/models") || same(w, "/new") || same(
        w,
        "/status",
    ) || same(w, "/stop") || same(w, "/cancel") || same(w, "/resume") || same(w, "/steer") || same(
        w,
        "/get",
    ) || same(w, "/workspace") || same(w, "/retry") || same(w, "/mcp")
}

/// Ordinary prose and paths are never taken for a command: a command is one word with a slash at its
/// beginning and nowhere else.
pub proof fn prose_and_paths_are_untouched(s: Seq<char>)
    requires
        words(s).len() > 0 ==> words(s)[0].len() > 0 && (words(s)[0][0] != '/' || exists|i: int|
            0 < i < words(s)[0].len() && #[trigger] words(s)[0][i] == '/'),
    ensures
        !text_control(s),
{
    reveal_strlit("/project");
    reveal_strlit("/model");
    reveal_strlit("/models");
    reveal_strlit("/new");
    reveal_strlit("/status");
    reveal_strlit("/stop");
    reveal_strlit("/cancel");
    reveal_strlit("/resume");
    reveal_strlit("/steer");
    reveal_strlit("/get");
    reveal_strlit("/workspace");
    reveal_strlit("/retry");
    reveal_strlit("/mcp");
    if text_control(s) {
        let w = words(s)[0];
        assert(command_word(w));
        assert(w[0] == '/');
        assert forall|i: int| 0 < i < w.len() implies w[i] != '/' by {}
    }
}

/// The first of some options with a name, from a position on.
pub open spec fn named_option(list: Seq<JsonView>, name: Seq<char>, from: nat) -> Option<JsonView>
    decreases list.len() - from,
{
    if from >= list.len() {
        None
    } else if list[from as int].at("name"@).says(name) {
        Some(list[from as int])
    } else {
        named_option(list, name, from + 1)
    }
}

/// The option of a command with a name.
pub open spec fn option_item(v: JsonView, name: Seq<char>) -> Option<JsonView> {
    match v.at("data"@).at("options"@).array() {
        Some(list) => named_option(list, name, 0),
        None => None,
    }
}

/// The text of an option of a command.
pub open spec fn option_text(v: JsonView, name: Seq<char>) -> Option<Seq<char>> {
    match option_item(v, name) {
        Some(o) => o.at("value"@).text(),
        None => None,
    }
}

/// The option of a command with a name.
pub fn find_option<'a>(v: &'a Json, name: &str) -> (r: Option<&'a Json>)
    ensures
        match option_item(v@, name@) {
            Some(o) => r is Some && r->0@ == o,
            None => r is None,
        },
{
    match v.at("data").at("options").as_array() {
        None => None,
        Some(list) => {
            let ghost all = v@.at("data"@).at("options"@).array()->0;
            let mut i: usize = 0;
            while i < list.len()
                invariant
                    i <= list@.len(),
                    list@.len() == all.len(),
                    v@.at("data"@).at("options"@).array() == Some(all),
                    forall|j: int| 0 <= j < all.len() ==> #[trigger] list@[j]@ == all[j],
                    named_option(all, name@, 0) == named_option(all, name@, i as nat),
                decreases list@.len() - i,
            {
                assert(list@[i as int]@ == all[i as int]);
                if list[i].at("name").is_text(name) {
                    return Some(&list[i]);
                }
                i += 1;
            }
            None
        },
    }
}

/// The text of an option of a command.
pub fn option<'a>(v: &'a Json, name: &str) -> (r: Option<&'a str>)
    ensures
        opt_str(r) == option_text(v@, name@),
{
    match find_option(v, name) {
        Some(o) => o.at("value").as_str(),
        None => None,
    }
}

/// How urgent a control is.
#[derive(Clone, Copy, Debug, PartialEq, Eq, Structural)]
pub struct Urgency {
    pub stop: bool,
    pub cancel: bool,
    /// Let in although other controls are in progress.
    pub urgent: bool,
}

/// Whether the identity of a component begins with a text.
pub open spec fn custom_begins(v: JsonView, p: Seq<char>) -> bool {
    let c = v.at("data"@).at("custom_id"@).text();
    c is Some && begins(c->0, p)
}

/// Whether the identity of a component ends with a text.
pub open spec fn custom_ends(v: JsonView, p: Seq<char>) -> bool {
    let c = v.at("data"@).at("custom_id"@).text();
    c is Some && ends(c->0, p)
}

fn is_custom(v: &Json, p: &str) -> (r: bool)
    ensures
        r == custom_begins(v@, p@),
{
    match v.at("data").at("custom_id").as_str() {
        Some(s) => starts_with(s, p),
        None => false,
    }
}

/// How urgent a control is: stopping, cancelling and declining go before everything else.
pub open spec fn urgency_of(v: JsonView) -> Urgency {
    let stop = v.at("data"@).at("name"@).says("stop"@) || custom_begins(v, "stop:"@);
    let cancel = v.at("data"@).at("name"@).says("cancel"@);
    Urgency {
        stop,
        cancel,
        urgent: stop || cancel || custom_begins(v, "ma6:decline:"@) || custom_begins(
            v,
            "mt:revoke"@,
        ) || custom_ends(v, ":decline"@),
    }
}

/// How urgent a control is.
pub fn urgency(v: &Json) -> (r: Urgency)
    ensures
        r == urgency_of(v@),
{
    let stop = v.at("data").at("name").is_text("stop") || is_custom(v, "stop:");
    let cancel = v.at("data").at("name").is_text("cancel");
    let declining = match v.at("data").at("custom_id").as_str() {
        Some(s) => ends_with(s, ":decline"),
        None => false,
    };
    Urgency {
        stop,
        cancel,
        urgent: stop || cancel || is_custom(v, "ma6:decline:") || is_custom(v, "mt:revoke") || declining,
    }
}

/// Whether a control is handled while others are in progress.
pub fn control_slot(jobs: usize, urgent: bool) -> (r: bool)
    ensures
        r == (jobs < 10 && (jobs < 8 || urgent)),
{
    jobs < 10 && (jobs < 8 || urgent)
}

/// What is done with a control.
#[derive(Clone, Copy, Debug, PartialEq, Eq, Structural)]
pub struct ControlPlan {
    /// Store that the conversation is paused.
    pub pause: bool,
    /// Store that the latest request is cancelled.
    pub cancel: bool,
    /// Carry it out.
    pub serve: bool,
}

/// Whether an interaction is one of the user in the guild.
pub open spec fn of_user(v: JsonView, guild: Seq<char>, user: Seq<char>) -> bool {
    v.at("guild_id"@).says(guild) && crate::direct_commands::interaction_user(v) == Some(user)
}

/// What is done with a control: stopping and cancelling are stored although every place is taken.
pub open spec fn control_plan(v: JsonView, guild: Seq<char>, user: Seq<char>, jobs: nat) -> ControlPlan {
    let u = urgency_of(v);
    if !of_user(v, guild, user) || (jobs >= 8 && !u.urgent) {
        ControlPlan { pause: false, cancel: false, serve: false }
    } else {
        ControlPlan { pause: u.stop, cancel: u.cancel, serve: jobs < 10 }
    }
}

/// What is done with a control.
pub fn control_loop(v: &Json, guild: &str, user: &str, jobs: usize) -> (r: ControlPlan)
    ensures
        r == control_plan(v@, guild@, user@, jobs as nat),
{
    let u = urgency(v);
    let who = match v.at("member").at("user").at("id").as_str() {
        Some(s) => Some(s),
        None => v.at("user").at("id").as_str(),
    };
    let own = v.at("guild_id").is_text(guild) && some_same(who, user);
    if !own || (jobs >= 8 && !u.urgent) {
        ControlPlan { pause: false, cancel: false, serve: false }
    } else {
        ControlPlan { pause: u.stop, cancel: u.cancel, serve: jobs < 10 }
    }
}

/// A stop of the user is stored however many controls are in progress.
pub proof fn stops_are_always_stored(v: JsonView, guild: Seq<char>, user: Seq<char>, jobs: nat)
    requires
        of_user(v, guild, user),
        urgency_of(v).stop,
    ensures
        control_plan(v, guild, user, jobs).pause,
{
}

/// A text without so many copies of a beginning as it has.
pub open spec fn without_beginning(s: Seq<char>, p: Seq<char>) -> Seq<char>
    decreases s.len(),
{
    if p.len() > 0 && begins(s, p) {
        without_beginning(s.skip(p.len() as int), p)
    } else {
        s
    }
}

/// Whether a stop meant the request that is active: a button stops only the request it was shown for.
pub fn stop_meant(v: &Json, active: Option<&str>) -> (r: bool)
    ensures
        r == match v@.at("data"@).at("custom_id"@).text() {
            None => true,
            Some(c) => opt_str(active) == Some(without_beginning(c, "stop:"@)),
        },
{
    match v.at("data").at("custom_id").as_str() {
        None => true,
        Some(custom) => {
            let mut rest = custom.to_owned();
            proof {
                reveal_strlit("stop:");
            }
            while starts_with(rest.as_str(), "stop:")
                invariant
                    "stop:"@.len() == 5,
                    without_beginning(rest@, "stop:"@) == without_beginning(custom@, "stop:"@),
                decreases rest@.len(),
            {
                match strip_prefix(rest.as_str(), "stop:") {
                    Some(s) => {
                        rest = s;
                    },
                    None => {},
                }
            }
            some_same(active, rest.as_str())
        },
    }
}

/// How the outcome of a control is told.
#[derive(Debug)]
pub enum ControlAnswer {
    /// Nothing is said: the card of the approval, or nothing at all, says it.
    Quiet,
    /// A message of its own says that something failed.
    Failure(&'static str),
    Reply(String),
}

/// The mathematical form of a `ControlAnswer`.
pub enum ControlAnswerView {
    Quiet,
    Failure(Seq<char>),
    Reply(Seq<char>),
}

impl View for ControlAnswer {
    type V = ControlAnswerView;

    open spec fn view(&self) -> ControlAnswerView {
        match self {
            ControlAnswer::Quiet => ControlAnswerView::Quiet,
            ControlAnswer::Failure(s) => ControlAnswerView::Failure(s@),
            ControlAnswer::Reply(s) => ControlAnswerView::Reply(s@),
        }
    }
}

/// How the outcome of a control is told; `outcome` is its answer, where it came in time.
pub open spec fn control_answer(approval: bool, outcome: Option<Seq<char>>) -> ControlAnswerView {
    if approval {
        match outcome {
            Some(_) => ControlAnswerView::Quiet,
            None => ControlAnswerView::Failure(
                "操作を完了確認できませんでした。元の承認カードで状態を確認してください。承認の自動再送はしません。"@,
            ),
        }
    } else {
        match outcome {
            Some(s) => if s.len() == 0 {
                ControlAnswerView::Quiet
            } else {
                ControlAnswerView::Reply(s)
            },
            None => ControlAnswerView::Reply(
                "操作を完了確認できませんでした。/status で確認してください。実行要求の自動再送はしません。"@,
            ),
        }
    }
}

/// How the outcome of a control is told.
pub fn answer_control(approval: bool, outcome: Option<String>) -> (r: ControlAnswer)
    ensures
        r@ == control_answer(approval, opt_view(outcome)),
{
    match outcome {
        Some(s) => {
            if approval || s.as_str().is_empty() {
                ControlAnswer::Quiet
            } else {
                ControlAnswer::Reply(s)
            }
        },
        None => {
            if approval {
                ControlAnswer::Failure(
                    "操作を完了確認できませんでした。元の承認カードで状態を確認してください。承認の自動再送はしません。",
                )
            } else {
                ControlAnswer::Reply(
                    String::from_str(
                        "操作を完了確認できませんでした。/status で確認してください。実行要求の自動再送はしません。",
                    ),
                )
            }
        },
    }
}

/// Which part of the gateway a component belongs to.
#[derive(Clone, Copy, Debug, PartialEq, Eq, Structural)]
pub enum Component {
    Policy,
    Inline,
    Turn,
    Form,
    Approval,
    Command,
}

/// Which part of the gateway handles an interaction.
pub fn component(v: &Json) -> (r: Component)
    ensures
        r == if custom_begins(v@, "ma6:"@) {
            Component::Policy
        } else if custom_begins(v@, "mi:"@) {
            Component::Inline
        } else if custom_begins(v@, "mt:"@) {
            Component::Turn
        } else if custom_begins(v@, "mcp:"@) {
            Component::Form
        } else if v@.at("type"@) == JsonView::Unsigned(3) && custom_begins(v@, "approval:"@) {
            Component::Approval
        } else {
            Component::Command
        },
{
    if is_custom(v, "ma6:") {
        Component::Policy
    } else if is_custom(v, "mi:") {
        Component::Inline
    } else if is_custom(v, "mt:") {
        Component::Turn
    } else if is_custom(v, "mcp:") {
        Component::Form
    } else if v.at("type").is_number(3) && is_custom(v, "approval:") {
        Component::Approval
    } else {
        Component::Command
    }
}

/// What a command that was written as text comes to.
pub enum TextCommand {
    Reply(&'static str),
    /// Run the command of this name, with the model that is asked for.
    Run { name: &'static str, model: Option<String> },
}

/// The mathematical form of a `TextCommand`.
pub enum TextCommandView {
    Reply(Seq<char>),
    Run(Seq<char>, Option<Seq<char>>),
}

impl View for TextCommand {
    type V = TextCommandView;

    open spec fn view(&self) -> TextCommandView {
        match self {
            TextCommand::Reply(s) => TextCommandView::Reply(s@),
            TextCommand::Run { name, model } => TextCommandView::Run(name@, opt_view(*model)),
        }
    }
}

/// The model that a word names, with or without `id:` before it.
pub open spec fn model_word(w: Seq<char>) -> Seq<char> {
    trimmed(
        if begins(w, "id:"@) {
            w.skip("id:"@.len() as int)
        } else {
            w
        },
    )
}

/// Whether a command that was written as text is handled: it must have an identity and be no older
/// than what was handled before.
pub fn check_message<'a>(v: &'a Json, admissible: bool) -> (r: Result<&'a str, &'static str>)
    ensures
        v@.at("id"@).text() is None ==> r is Err && r->Err_0@ == "message ID missing"@,
        v@.at("id"@).text() is Some && !admissible ==> r is Err && r->Err_0@
            == "old command message"@,
        v@.at("id"@).text() is Some && admissible ==> r is Ok && v@.at("id"@).says(r->Ok_0@),
{
    match v.at("id").as_str() {
        None => Err("message ID missing"),
        Some(id) => {
            if admissible {
                Ok(id)
            } else {
                Err("old command message")
            }
        },
    }
}

/// What a command that was written as text comes to. Only the choice of a model is handled as text.
pub open spec fn text_command_of(content: Seq<char>, has_attachment: bool) -> TextCommandView {
    let p = words(content);
    let name = if p.len() > 0 {
        p[0]
    } else {
        Seq::empty()
    };
    if name == "/project"@ {
        TextCommandView::Reply(
            "作業先の登録は不要になりました。Proxyが会話ごとのワークを自動で用意します。そのまま話しかけてください。"@,
        )
    } else if name != "/model"@ && name != "/models"@ {
        TextCommandView::Reply(
            "この操作はDiscordのコマンド選択から実行してください。AIへの作業依頼としては送っていません。"@,
        )
    } else if has_attachment {
        TextCommandView::Reply(
            "モデル操作にはファイルを添付せず、/model モデルID と送ってください。"@,
        )
    } else if p.len() == 1 {
        TextCommandView::Run(
            if name == "/model"@ {
                "model"@
            } else {
                "models"@
            },
            None,
        )
    } else {
        let asked = if name == "/model"@ && p.len() == 2 {
            Some(model_word(p[1]))
        } else if name == "/model"@ && p.len() == 3 && p[1] == "id:"@ {
            Some(p[2])
        } else {
            None
        };
        match asked {
            None => TextCommandView::Reply(
                "一覧は /models、確認は /model、変更は /model chatgpt/gpt-5.6-terra の形式で送ってください。"@,
            ),
            Some(m) => if m.len() == 0 {
                TextCommandView::Reply(
                    "変更先のモデルIDを指定してください。/models で一覧を確認できます。"@,
                )
            } else {
                TextCommandView::Run("model"@, Some(m))
            },
        }
    }
}

/// What a command that was written as text comes to.
pub fn text_control_command(content: &str, has_attachment: bool) -> (r: TextCommand)
    ensures
        r@ == text_command_of(content@, has_attachment),
{
    let parts = split_words(content);
    let ghost p = words(content@);
    assert(views(parts@).len() == parts@.len());
    proof {
        reveal_strlit("/project");
        reveal_strlit("/model");
        reveal_strlit("/models");
        assert("/project"@.len() == 8 && "/model"@.len() == 6 && "/models"@.len() == 7);
    }
    if parts.len() == 0 {
        return TextCommand::Reply(
            "この操作はDiscordのコマンド選択から実行してください。AIへの作業依頼としては送っていません。",
        );
    }
    let name = parts[0].as_str();
    assert(p[0] == name@);
    if same(name, "/project") {
        return TextCommand::Reply(
            "作業先の登録は不要になりました。Proxyが会話ごとのワークを自動で用意します。そのまま話しかけてください。",
        );
    }
    let single = same(name, "/model");
    if !single && !same(name, "/models") {
        return TextCommand::Reply(
            "この操作はDiscordのコマンド選択から実行してください。AIへの作業依頼としては送っていません。",
        );
    }
    if has_attachment {
        return TextCommand::Reply(
            "モデル操作にはファイルを添付せず、/model モデルID と送ってください。",
        );
    }
    if parts.len() == 1 {
        return TextCommand::Run { name: if single { "model" } else { "models" }, model: None };
    }
    let asked: Option<String> = if single && parts.len() == 2 {
        assert(p[1] == parts@[1]@);
        match strip_prefix(parts[1].as_str(), "id:") {
            Some(rest) => Some(trim(rest.as_str())),
            None => Some(trim(parts[1].as_str())),
        }
    } else if single && parts.len() == 3 {
        assert(p[1] == parts@[1]@ && p[2] == parts@[2]@);
        if same(parts[1].as_str(), "id:") {
            Some(parts[2].clone())
        } else {
            None
        }
    } else {
        None
    };
    match asked {
        None => TextCommand::Reply(
            "一覧は /models、確認は /model、変更は /model chatgpt/gpt-5.6-terra の形式で送ってください。",
        ),
        Some(m) => {
            if m.as_str().is_empty() {
                TextCommand::Reply(
                    "変更先のモデルIDを指定してください。/models で一覧を確認できます。",
                )
            } else {
                TextCommand::Run { name: "model", model: Some(m) }
            }
        },
    }
}

/// What a command does.
pub enum AppRoute {
    ProjectSelection,
    ProjectObsolete,
    Models,
    New(String),
    ModelMenu,
    Stop,
    Selection { custom: String, value: Option<String> },
    Retry { custom: String, value: Option<String> },
    Approve { approval: String, decision: String },
    Status,
    Cancel,
    Resume,
    Model(String),
    Mcp { app: String, token: String },
    Steer(String),
    Workspace,
    RetryMenu,
    SharedArtifacts,
    Artifact(Option<String>),
}

/// The mathematical form of an `AppRoute`.
pub enum AppRouteView {
    ProjectSelection,
    ProjectObsolete,
    Models,
    New(Seq<char>),
    ModelMenu,
    Stop,
    Selection(Seq<char>, Option<Seq<char>>),
    Retry(Seq<char>, Option<Seq<char>>),
    Approve(Seq<char>, Seq<char>),
    Status,
    Cancel,
    Resume,
    Model(Seq<char>),
    Mcp(Seq<char>, Seq<char>),
    Steer(Seq<char>),
    Workspace,
    RetryMenu,
    SharedArtifacts,
    Artifact(Option<Seq<char>>),
}

impl View for AppRoute {
    type V = AppRouteView;

    open spec fn view(&self) -> AppRouteView {
        match self {
            AppRoute::ProjectSelection => AppRouteView::ProjectSelection,
            AppRoute::ProjectObsolete => AppRouteView::ProjectObsolete,
            AppRoute::Models => AppRouteView::Models,
            AppRoute::New(s) => AppRouteView::New(s@),
            AppRoute::ModelMenu => AppRouteView::ModelMenu,
            AppRoute::Stop => AppRouteView::Stop,
            AppRoute::Selection { custom, value } => AppRouteView::Selection(
                custom@,
                opt_view(*value),
            ),
            AppRoute::Retry { custom, value } => AppRouteView::Retry(custom@, opt_view(*value)),
            AppRoute::Approve { approval, decision } => AppRouteView::Approve(
                approval@,
                decision@,
            ),
            AppRoute::Status => AppRouteView::Status,
            AppRoute::Cancel => AppRouteView::Cancel,
            AppRoute::Resume => AppRouteView::Resume,
            AppRoute::Model(s) => AppRouteView::Model(s@),
            AppRoute::Mcp { app, token } => AppRouteView::Mcp(app@, token@),
            AppRoute::Steer(s) => AppRouteView::Steer(s@),
            AppRoute::Workspace => AppRouteView::Workspace,
            AppRoute::RetryMenu => AppRouteView::RetryMenu,
            AppRoute::SharedArtifacts => AppRouteView::SharedArtifacts,
            AppRoute::Artifact(p) => AppRouteView::Artifact(opt_view(*p)),
        }
    }
}

/// The name of a command, or nothing.
pub open spec fn command_name(v: JsonView) -> Seq<char> {
    match v.at("data"@).at("name"@).text() {
        Some(s) => s,
        None => Seq::empty(),
    }
}

/// What a command does before its conversation is looked up, where that is not needed. While the
/// gateway recovers or reloads, only looking, stopping and cancelling is possible.
pub open spec fn early_route(v: JsonView, stopped: bool, busy: bool) -> Result<
    Option<AppRouteView>,
    Seq<char>,
> {
    let name = command_name(v);
    let exempt = name == "status"@ || name == "stop"@ || name == "cancel"@;
    if v.at("channel_id"@).text() is None {
        Err("missing channel"@)
    } else if v.at("id"@).text() is None {
        Err("missing interaction"@)
    } else if !exempt && !stopped && busy {
        Err("recovery or reload pending"@)
    } else if custom_begins(v, "model-"@) {
        Ok(Some(AppRouteView::ProjectSelection))
    } else if name == "project"@ {
        Ok(Some(AppRouteView::ProjectObsolete))
    } else if name == "models"@ {
        Ok(Some(AppRouteView::Models))
    } else if name == "new"@ {
        match option_text(v, "title"@) {
            Some(t) => Ok(Some(AppRouteView::New(t))),
            None => Err("title required"@),
        }
    } else {
        Ok(None)
    }
}

/// The value that was chosen in a menu.
pub open spec fn chosen(v: JsonView) -> Option<Seq<char>> {
    v.at("data"@).at("values"@).item(0).text()
}

/// The approval and decision that a button names.
pub open spec fn approval_route(custom: Seq<char>) -> Result<AppRouteView, Seq<char>> {
    let p = pieces(custom, ':');
    if p[0] != "approval"@ {
        Err("unknown component"@)
    } else if p.len() < 2 {
        Err("approval ID required"@)
    } else if p.len() < 3 {
        Err("decision required"@)
    } else if p.len() > 3 {
        Err("invalid component"@)
    } else {
        Ok(AppRouteView::Approve(p[1], p[2]))
    }
}

/// What a slash command does in its conversation.
pub open spec fn slash_route(v: JsonView) -> Result<AppRouteView, Seq<char>> {
    let name = command_name(v);
    if name == "status"@ {
        Ok(AppRouteView::Status)
    } else if name == "cancel"@ {
        Ok(AppRouteView::Cancel)
    } else if name == "resume"@ {
        Ok(AppRouteView::Resume)
    } else if name == "model"@ {
        Ok(
            AppRouteView::Model(
                trimmed(
                    match option_text(v, "id"@) {
                        Some(s) => s,
                        None => Seq::empty(),
                    },
                ),
            ),
        )
    } else if name == "mcp"@ {
        if v.at("application_id"@).text() is None {
            Err("application missing"@)
        } else if v.at("token"@).text() is None {
            Err("token missing"@)
        } else {
            Ok(AppRouteView::Mcp(v.at("application_id"@).text()->0, v.at("token"@).text()->0))
        }
    } else if name == "steer"@ {
        match option_text(v, "text"@) {
            Some(s) => Ok(AppRouteView::Steer(s)),
            None => Err("text required"@),
        }
    } else if name == "workspace"@ {
        Ok(AppRouteView::Workspace)
    } else if name == "retry"@ {
        Ok(AppRouteView::RetryMenu)
    } else if name == "get"@ {
        if option_text(v, "scope"@) == Some("shared"@) {
            if option_text(v, "path"@) is Some {
                Err("shared listing does not take path"@)
            } else {
                Ok(AppRouteView::SharedArtifacts)
            }
        } else {
            Ok(AppRouteView::Artifact(option_text(v, "path"@)))
        }
    } else {
        Err("unknown command"@)
    }
}

/// What a command does in its conversation.
pub open spec fn late_route(v: JsonView, stopped: bool) -> Result<AppRouteView, Seq<char>> {
    let name = command_name(v);
    let custom = v.at("data"@).at("custom_id"@).text();
    if name == "model"@ && option_text(v, "id"@) is None {
        Ok(AppRouteView::ModelMenu)
    } else if stopped {
        Ok(AppRouteView::Stop)
    } else if custom_begins(v, "pick:"@) || custom_begins(v, "page:"@) {
        Ok(AppRouteView::Selection(custom->0, chosen(v)))
    } else if custom_begins(v, "retry:"@) || custom_begins(v, "resend:"@) {
        Ok(AppRouteView::Retry(custom->0, chosen(v)))
    } else if custom is Some {
        approval_route(custom->0)
    } else {
        slash_route(v)
    }
}

fn name_of<'a>(v: &'a Json) -> (r: &'a str)
    ensures
        r@ == command_name(v@),
{
    proof {
        reveal_strlit("");
        assert(""@ =~= Seq::<char>::empty());
    }
    match v.at("data").at("name").as_str() {
        Some(s) => s,
        None => "",
    }
}

fn owned(o: Option<&str>) -> (r: Option<String>)
    ensures
        opt_view(r) == opt_str(o),
{
    match o {
        Some(s) => Some(s.to_owned()),
        None => None,
    }
}

/// What a command does before its conversation is looked up, where that is not needed.
pub fn before_conversation(v: &Json, stopped: bool, busy: bool) -> (r: Result<
    Option<AppRoute>,
    &'static str,
>)
    ensures
        match early_route(v@, stopped, busy) {
            Err(e) => r is Err && r->Err_0@ == e,
            Ok(None) => r is Ok && r->Ok_0 is None,
            Ok(Some(route)) => r is Ok && r->Ok_0 is Some && r->Ok_0->0@ == route,
        },
{
    if v.at("channel_id").as_str().is_none() {
        return Err("missing channel");
    }
    if v.at("id").as_str().is_none() {
        return Err("missing interaction");
    }
    let name = name_of(v);
    let exempt = same(name, "status") || same(name, "stop") || same(name, "cancel");
    if !exempt && !stopped && busy {
        return Err("recovery or reload pending");
    }
    if is_custom(v, "model-") {
        return Ok(Some(AppRoute::ProjectSelection));
    }
    if same(name, "project") {
        return Ok(Some(AppRoute::ProjectObsolete));
    }
    if same(name, "models") {
        return Ok(Some(AppRoute::Models));
    }
    if same(name, "new") {
        return match option(v, "title") {
            Some(t) => Ok(Some(AppRoute::New(t.to_owned()))),
            None => Err("title required"),
        };
    }
    Ok(None)
}

fn approval_button(custom: &str) -> (r: Result<AppRoute, &'static str>)
    ensures
        match approval_route(custom@) {
            Ok(route) => r is Ok && r->Ok_0@ == route,
            Err(e) => r is Err && r->Err_0@ == e,
        },
{
    let p = split(custom, ':');
    let ghost list = pieces(custom@, ':');
    proof {
        crate::text::lemma_pieces_nonempty(custom@, ':');
        assert(views(p@).len() == p@.len());
        assert(list[0] == p@[0]@);
    }
    if !same(p[0].as_str(), "approval") {
        return Err("unknown component");
    }
    if p.len() < 2 {
        return Err("approval ID required");
    }
    if p.len() < 3 {
        return Err("decision required");
    }
    if p.len() > 3 {
        return Err("invalid component");
    }
    assert(list[1] == p@[1]@ && list[2] == p@[2]@);
    Ok(AppRoute::Approve { approval: p[1].clone(), decision: p[2].clone() })
}

fn slash_command(v: &Json) -> (r: Result<AppRoute, &'static str>)
    ensures
        match slash_route(v@) {
            Ok(route) => r is Ok && r->Ok_0@ == route,
            Err(e) => r is Err && r->Err_0@ == e,
        },
{
    let name = name_of(v);
    if same(name, "status") {
        Ok(AppRoute::Status)
    } else if same(name, "cancel") {
        Ok(AppRoute::Cancel)
    } else if same(name, "resume") {
        Ok(AppRoute::Resume)
    } else if same(name, "model") {
        proof {
            reveal_strlit("");
            assert(""@ =~= Seq::<char>::empty());
        }
        let id = match option(v, "id") {
            Some(s) => s,
            None => "",
        };
        Ok(AppRoute::Model(trim(id)))
    } else if same(name, "mcp") {
        match (v.at("application_id").as_str(), v.at("token").as_str()) {
            (None, _) => Err("application missing"),
            (Some(_), None) => Err("token missing"),
            (Some(app), Some(token)) => Ok(
                AppRoute::Mcp { app: app.to_owned(), token: token.to_owned() },
            ),
        }
    } else if same(name, "steer") {
        match option(v, "text") {
            Some(s) => Ok(AppRoute::Steer(s.to_owned())),
            None => Err("text required"),
        }
    } else if same(name, "workspace") {
        Ok(AppRoute::Workspace)
    } else if same(name, "retry") {
        Ok(AppRoute::RetryMenu)
    } else if same(name, "get") {
        if some_same(option(v, "scope"), "shared") {
            if option(v, "path").is_some() {
                Err("shared listing does not take path")
            } else {
                Ok(AppRoute::SharedArtifacts)
            }
        } else {
            Ok(AppRoute::Artifact(owned(option(v, "path"))))
        }
    } else {
        Err("unknown command")
    }
}

/// What a command does in its conversation.
pub fn command(v: &Json, stopped: bool) -> (r: Result<AppRoute, &'static str>)
    ensures
        match late_route(v@, stopped) {
            Ok(route) => r is Ok && r->Ok_0@ == route,
            Err(e) => r is Err && r->Err_0@ == e,
        },
{
    if same(name_of(v), "model") && option(v, "id").is_none() {
        return Ok(AppRoute::ModelMenu);
    }
    if stopped {
        return Ok(AppRoute::Stop);
    }
    match v.at("data").at("custom_id").as_str() {
        None => slash_command(v),
        Some(custom) => {
            let value = owned(v.at("data").at("values").item(0).as_str());
            if starts_with(custom, "pick:") || starts_with(custom, "page:") {
                Ok(AppRoute::Selection { custom: custom.to_owned(), value })
            } else if starts_with(custom, "retry:") || starts_with(custom, "resend:") {
                Ok(AppRoute::Retry { custom: custom.to_owned(), value })
            } else {
                approval_button(custom)
            }
        },
    }
}

/// Stopping and cancelling is never held up by a recovery or reload.
pub proof fn stopping_is_always_possible(v: JsonView, stopped: bool, busy: bool)
    requires
        v.at("channel_id"@).text() is Some,
        v.at("id"@).text() is Some,
        stopped || command_name(v) == "stop"@ || command_name(v) == "cancel"@,
        !custom_begins(v, "model-"@),
        command_name(v) != "new"@,
    ensures
        early_route(v, stopped, busy) is Ok,
{
}

} // verus!
