//! Messages and decisions of the runtime behind a proxy.
use crate::codec::{parsed_tree, read};
use crate::config::{Discord, Limits};
use crate::direct_application::Location;
use crate::domain::{held, hidden_texts, mask, shown, Redactor, RequestState};
use crate::json::{Json, JsonView};
use crate::text::{
    begins, byte_len, opt_str, same, same_option, some_same, starts_with, utf8_len, views,
};
use vstd::prelude::*;
use vstd::string::*;

verus! {

/// Whether a code says that a dialogue was lost or is not supported.
pub open spec fn dialogue_code(code: Option<Seq<char>>) -> bool {
    code == Some("unsupported_interaction"@) || code == Some("unsupported_interaction_schema"@)
        || code == Some("interaction_expired"@) || code == Some("interaction_events_lost"@) || code
        == Some("interaction_connection_lost"@)
}

/// Why a request was interrupted.
pub open spec fn interruption_text(code: Option<Seq<char>>) -> Seq<char> {
    if code == Some("unsupported_interaction"@) || code == Some("unsupported_interaction_schema"@) {
        "必要な承認・入力画面に未対応のため実行できませんでした。利用者による拒否ではありません。"@
    } else if code == Some("interaction_expired"@) {
        "承認・入力の期限が切れたため停止しました。利用者による拒否ではありません。"@
    } else if code == Some("interaction_events_lost"@) || code == Some(
        "interaction_connection_lost"@,
    ) {
        "実行側の接続・対話情報を失ったため停止しました。利用者による拒否ではありません。"@
    } else if code == Some("user_stop"@) || code == Some("v2_stop_observed"@) {
        "停止操作により作業を中断しました。"@
    } else if code == Some("mcp_user_declined"@) {
        "作業は中断しています。この依頼では、利用者によるMCP要求の拒否を送信済みです。"@
    } else {
        "作業は中断されていますが、理由を確定できません。利用者の拒否・停止とは断定していません。/status で確認してください。"@
    }
}

pub fn interruption_message(code: Option<&str>) -> (r: &'static str)
    ensures
        r@ == interruption_text(opt_str(code)),
{
    if some_same(code, "unsupported_interaction") || some_same(code, "unsupported_interaction_schema") {
        "必要な承認・入力画面に未対応のため実行できませんでした。利用者による拒否ではありません。"
    } else if some_same(code, "interaction_expired") {
        "承認・入力の期限が切れたため停止しました。利用者による拒否ではありません。"
    } else if some_same(code, "interaction_events_lost") || some_same(
        code,
        "interaction_connection_lost",
    ) {
        "実行側の接続・対話情報を失ったため停止しました。利用者による拒否ではありません。"
    } else if some_same(code, "user_stop") || some_same(code, "v2_stop_observed") {
        "停止操作により作業を中断しました。"
    } else if some_same(code, "mcp_user_declined") {
        "作業は中断しています。この依頼では、利用者によるMCP要求の拒否を送信済みです。"
    } else {
        "作業は中断されていますが、理由を確定できません。利用者の拒否・停止とは断定していません。/status で確認してください。"
    }
}

fn is_dialogue_code(code: Option<&str>) -> (r: bool)
    ensures
        r == dialogue_code(opt_str(code)),
{
    some_same(code, "unsupported_interaction") || some_same(code, "unsupported_interaction_schema")
        || some_same(code, "interaction_expired") || some_same(code, "interaction_events_lost")
        || some_same(code, "interaction_connection_lost")
}

/// Why a request failed.
pub open spec fn failure_text(code: Option<Seq<char>>) -> Seq<char> {
    if dialogue_code(code) {
        interruption_text(code)
    } else if code == Some("proxy_busy"@) {
        "Proxyが混み合っていたため開始できませんでした。少し待って、新しいメッセージとして依頼してください。この依頼は自動再送しません。"@
    } else if code == Some("proxy_capacity"@) {
        "Proxyの保存容量が不足しており開始できませんでした。空き容量を確認してください。"@
    } else if code == Some("workspace_access_revoked"@) {
        "Proxyが作業先へのアクセスを拒否しました。作業先の権限を確認してください。"@
    } else if code == Some("proxy_invalid_cwd"@) {
        "Proxyが作業フォルダーを拒否したため、実行を開始していません。Proxy側の作業先の許可設定を確認してください。自動再実行はしません。"@
    } else if code == Some("proxy_start_rejected"@) {
        "Proxyが依頼を開始前に拒否しました。接続・モデル・作業先の設定を確認してください。自動再実行はしません。"@
    } else {
        "作業を完了できませんでした。/status で確認してください。"@
    }
}

pub fn failure_message(code: Option<&str>) -> (r: &'static str)
    ensures
        r@ == failure_text(opt_str(code)),
{
    if is_dialogue_code(code) {
        interruption_message(code)
    } else if some_same(code, "proxy_busy") {
        "Proxyが混み合っていたため開始できませんでした。少し待って、新しいメッセージとして依頼してください。この依頼は自動再送しません。"
    } else if some_same(code, "proxy_capacity") {
        "Proxyの保存容量が不足しており開始できませんでした。空き容量を確認してください。"
    } else if some_same(code, "workspace_access_revoked") {
        "Proxyが作業先へのアクセスを拒否しました。作業先の権限を確認してください。"
    } else if some_same(code, "proxy_invalid_cwd") {
        "Proxyが作業フォルダーを拒否したため、実行を開始していません。Proxy側の作業先の許可設定を確認してください。自動再実行はしません。"
    } else if some_same(code, "proxy_start_rejected") {
        "Proxyが依頼を開始前に拒否しました。接続・モデル・作業先の設定を確認してください。自動再実行はしません。"
    } else {
        "作業を完了できませんでした。/status で確認してください。"
    }
}

/// Why a request was interrupted, given whether it was stopped and whether the user declined: a lost
/// dialogue outweighs both, a stop outweighs a refusal.
pub open spec fn interruption_evidence_text(
    code: Option<Seq<char>>,
    stopped: bool,
    declined: bool,
) -> Seq<char> {
    if dialogue_code(code) {
        interruption_text(code)
    } else if stopped {
        interruption_text(Some("user_stop"@))
    } else if declined {
        interruption_text(Some("mcp_user_declined"@))
    } else {
        interruption_text(code)
    }
}

pub fn interruption_with_evidence(code: Option<&str>, stopped: bool, declined: bool) -> (r: &'static str)
    ensures
        r@ == interruption_evidence_text(opt_str(code), stopped, declined),
{
    if is_dialogue_code(code) {
        return interruption_message(code);
    }
    if stopped {
        return interruption_message(Some("user_stop"));
    }
    if declined {
        return interruption_message(Some("mcp_user_declined"));
    }
    interruption_message(code)
}

/// What becomes of the status card of a request.
pub enum StatusCard {
    Clear,
    Show(&'static str),
    Leave,
}

/// The text of a status card.
pub open spec fn status_card_text(
    state: Seq<char>,
    error: Option<Seq<char>>,
    stopped: bool,
    declined: bool,
) -> Option<Seq<char>> {
    if state == "FAILED"@ {
        Some(failure_text(error))
    } else if state == "CANCELLED"@ {
        Some(interruption_evidence_text(error, stopped, declined))
    } else if state == "CANCEL_REQUESTED"@ {
        Some("中断を要求しました。停止の確認を待っています。"@)
    } else if state == "UNKNOWN"@ {
        Some(
            "作業の状態を確認できません。再実行せず保留しています。/status で確認してください。"@,
        )
    } else {
        None
    }
}

/// Whether a status card is out of date once the request goes on or is complete.
pub open spec fn status_obsolete(state: Seq<char>) -> bool {
    state == "COMPLETED"@ || state == "RUNNING"@ || state == "APPROVAL_REQUIRED"@
}

pub fn status_card(
    state: &str,
    error: Option<&str>,
    had_card: bool,
    stopped: bool,
    declined: bool,
) -> (r: StatusCard)
    ensures
        had_card && status_obsolete(state@) ==> r is Clear,
        !(had_card && status_obsolete(state@)) ==> match status_card_text(
            state@,
            opt_str(error),
            stopped,
            declined,
        ) {
            Some(s) => r is Show && r->Show_0@ == s,
            None => r is Leave,
        },
{
    if had_card && (same(state, "COMPLETED") || same(state, "RUNNING") || same(
        state,
        "APPROVAL_REQUIRED",
    )) {
        return StatusCard::Clear;
    }
    if same(state, "FAILED") {
        StatusCard::Show(failure_message(error))
    } else if same(state, "CANCELLED") {
        StatusCard::Show(interruption_with_evidence(error, stopped, declined))
    } else if same(state, "CANCEL_REQUESTED") {
        StatusCard::Show("中断を要求しました。停止の確認を待っています。")
    } else if same(state, "UNKNOWN") {
        StatusCard::Show(
            "作業の状態を確認できません。再実行せず保留しています。/status で確認してください。",
        )
    } else {
        StatusCard::Leave
    }
}

/// An answer while it is received. Times are in milliseconds.
#[derive(Debug)]
pub struct Output {
    pub thread: String,
    pub text: String,
    pub done: bool,
    pub lost: bool,
    pub created: u64,
    pub last_progress: u64,
    pub retention: u64,
}

impl Output {
    /// Adds a piece of the answer, where the answers together and this answer stay within their
    /// limits. `total` is the length of all answers.
    pub fn receive(&mut self, delta: &str, total: usize, limits: &Limits, now: u64)
        ensures
            ({
                let n = utf8_len(delta@);
                let fits = total + n <= limits.output_total_bytes && !old(self).done && utf8_len(
                    old(self).text@,
                ) + n <= limits.output_bytes;
                &&& final(self).text@ == if fits {
                    old(self).text@ + delta@
                } else {
                    old(self).text@
                }
                &&& final(self).last_progress == if fits {
                    now
                } else {
                    old(self).last_progress
                }
            }),
            final(self).thread == old(self).thread,
            final(self).done == old(self).done,
            final(self).lost == old(self).lost,
            final(self).created == old(self).created,
            final(self).retention == old(self).retention,
    {
        let n: usize = byte_len(delta);
        let have: usize = byte_len(self.text.as_str());
        if total <= limits.output_total_bytes && n <= limits.output_total_bytes - total && !self.done
            && have <= limits.output_bytes && n <= limits.output_bytes - have {
            self.text.append(delta);
            self.last_progress = now;
        }
    }

    /// Whether nothing was received for two minutes.
    pub fn silent(&self, now: u64) -> (r: bool)
        ensures
            r == (!self.done && now - self.last_progress > 120_000),
    {
        !self.done && now > self.last_progress && now - self.last_progress > 120_000
    }

    /// Whether a complete answer was kept long enough.
    pub fn expired(&self, now: u64) -> (r: bool)
        ensures
            r == (self.done && now - self.created >= self.retention),
    {
        self.done && now >= self.created && now - self.created >= self.retention
    }
}

/// What is done with an answer that is shown while it is received.
#[derive(Clone, Copy, Debug, PartialEq, Eq, Structural)]
pub enum DeliveryStage {
    /// Show the parts of the text.
    Parts,
    /// Remove the parts that are too many.
    Trim,
    /// Remove the draft.
    ClearDraft,
    /// Say that a part of the answer is missing.
    Loss,
    /// The answer is delivered: let go of it.
    Delivered,
    /// Try again later.
    Later,
}

/// What is said of an answer beside its text.
#[derive(Clone, Copy, Debug, PartialEq, Eq, Structural)]
pub enum AnswerNote {
    /// Nothing was received for two minutes.
    Silent,
    /// A part of the answer is missing.
    Loss,
    /// The whole answer cannot be had any more.
    Unavailable,
    /// The input could not be read.
    Rejected,
}

pub open spec fn answer_note_text(n: AnswerNote) -> Seq<char> {
    match n {
        AnswerNote::Silent => "この案内の時点で120秒以上、新しい回答テキストを受信していません。作業停止とは断定できません。/status と /stop を利用できます。"@,
        AnswerNote::Loss => "回答表示に欠落があります。再実行はしていません。"@,
        AnswerNote::Unavailable => "再起動または配信失敗により、回答全文を再取得できません。実行状態は別途確認します。自動再実行はしません。"@,
        AnswerNote::Rejected => "入力を確認できなかったため、実行していません。"@,
    }
}

pub fn answer_note(n: AnswerNote) -> (r: &'static str)
    ensures
        r@ == answer_note_text(n),
{
    match n {
        AnswerNote::Silent => "この案内の時点で120秒以上、新しい回答テキストを受信していません。作業停止とは断定できません。/status と /stop を利用できます。",
        AnswerNote::Loss => "回答表示に欠落があります。再実行はしていません。",
        AnswerNote::Unavailable => "再起動または配信失敗により、回答全文を再取得できません。実行状態は別途確認します。自動再実行はしません。",
        AnswerNote::Rejected => "入力を確認できなかったため、実行していません。",
    }
}

/// The identity of the notice that an answer is silent: one for each request.
pub fn progress_id(request: &str) -> (r: String)
    ensures
        r@ == "progress-"@ + request@,
{
    String::from_str("progress-").concat(request)
}

/// Whether a notice speaks of a resource that failed, and is shown in a way of its own.
pub fn is_resource_notice(id: &str) -> (r: bool)
    ensures
        r == begins(id@, "resource-error-"@),
{
    starts_with(id, "resource-error-")
}

/// What follows from a step, confirmed or not.
pub open spec fn delivery_after(stage: DeliveryStage, confirmed: bool, done: bool, lost: bool) -> DeliveryStage {
    if !confirmed || !done {
        DeliveryStage::Later
    } else {
        match stage {
            DeliveryStage::Parts => DeliveryStage::Trim,
            DeliveryStage::Trim => DeliveryStage::ClearDraft,
            DeliveryStage::ClearDraft => if lost {
                DeliveryStage::Loss
            } else {
                DeliveryStage::Delivered
            },
            DeliveryStage::Loss => DeliveryStage::Delivered,
            DeliveryStage::Delivered => DeliveryStage::Delivered,
            DeliveryStage::Later => DeliveryStage::Later,
        }
    }
}

/// What follows from a step, confirmed or not. An answer is let go only once it is complete and
/// every step was confirmed.
pub fn delivery_loop(stage: DeliveryStage, confirmed: bool, done: bool, lost: bool) -> (r: DeliveryStage)
    ensures
        r == delivery_after(stage, confirmed, done, lost),
{
    if !confirmed || !done {
        return DeliveryStage::Later;
    }
    match stage {
        DeliveryStage::Parts => DeliveryStage::Trim,
        DeliveryStage::Trim => DeliveryStage::ClearDraft,
        DeliveryStage::ClearDraft => {
            if lost {
                DeliveryStage::Loss
            } else {
                DeliveryStage::Delivered
            }
        },
        DeliveryStage::Loss => DeliveryStage::Delivered,
        DeliveryStage::Delivered => DeliveryStage::Delivered,
        DeliveryStage::Later => DeliveryStage::Later,
    }
}

/// An answer that is incomplete, or a step of whose delivery is not confirmed, is never let go.
pub proof fn answers_are_kept_until_delivered(stage: DeliveryStage, confirmed: bool, done: bool, lost: bool)
    requires
        delivery_after(stage, confirmed, done, lost) == DeliveryStage::Delivered,
    ensures
        confirmed,
        done,
        lost ==> stage != DeliveryStage::ClearDraft,
{
}

/// What follows from an event of a response.
#[derive(Debug)]
pub enum WatchStep {
    /// Read the state of the response.
    Reconcile,
    /// Look at its images now.
    PollImages,
    /// Add a piece to the answer.
    Delta(String),
    /// Look for requests for approval.
    DiscoverApprovals,
    Skip,
}

/// The mathematical form of a `WatchStep`.
pub enum WatchStepView {
    Reconcile,
    PollImages,
    Delta(Seq<char>),
    DiscoverApprovals,
    Skip,
}

impl View for WatchStep {
    type V = WatchStepView;

    open spec fn view(&self) -> WatchStepView {
        match self {
            WatchStep::Reconcile => WatchStepView::Reconcile,
            WatchStep::PollImages => WatchStepView::PollImages,
            WatchStep::Delta(s) => WatchStepView::Delta(s@),
            WatchStep::DiscoverApprovals => WatchStepView::DiscoverApprovals,
            WatchStep::Skip => WatchStepView::Skip,
        }
    }
}

/// Whether an event says that the state of a response changed.
pub open spec fn changes_state(event: Seq<char>) -> bool {
    event == "snapshot"@ || event == "gap"@ || event == "response.execution_terminal"@ || event
        == "response.output_ready"@ || event == "response.output_failed"@
}

/// What follows from an event of a response, with its data as they were read.
pub open spec fn watch_step(
    event: Seq<char>,
    data: Result<JsonView, Seq<char>>,
    response: Option<Seq<char>>,
    thread: Option<Seq<char>>,
    turn: Option<Seq<char>>,
) -> Result<WatchStepView, Seq<char>> {
    if changes_state(event) {
        Ok(WatchStepView::Reconcile)
    } else if event == "response.generated_images_changed"@ {
        Ok(WatchStepView::PollImages)
    } else if event == "response.delta"@ {
        match data {
            Err(e) => Err(e),
            Ok(v) => if v.at("response_id"@).text() != response {
                Err("delta target mismatch"@)
            } else {
                match v.at("delta"@).text() {
                    Some(s) => Ok(WatchStepView::Delta(s)),
                    None => Ok(WatchStepView::Skip),
                }
            },
        }
    } else if event == "approval_requested"@ {
        match data {
            Err(e) => Err(e),
            Ok(v) => if v.at("threadId"@).text() != thread || v.at("turnId"@).text() != turn {
                Err("event target mismatch"@)
            } else {
                Ok(WatchStepView::DiscoverApprovals)
            },
        }
    } else {
        Ok(WatchStepView::Skip)
    }
}

/// What follows from an event of a response, with its data as they were read.
pub fn judge_event(
    event: &str,
    data: &Result<Json, String>,
    response: Option<&str>,
    thread: Option<&str>,
    turn: Option<&str>,
) -> (r: Result<WatchStep, String>)
    ensures
        match watch_step(
            event@,
            match *data {
                Ok(v) => Ok(v@),
                Err(e) => Err(e@),
            },
            opt_str(response),
            opt_str(thread),
            opt_str(turn),
        ) {
            Ok(v) => r is Ok && r->Ok_0@ == v,
            Err(e) => r is Err && r->Err_0@ == e,
        },
{
    if same(event, "snapshot") || same(event, "gap") || same(event, "response.execution_terminal")
        || same(event, "response.output_ready") || same(event, "response.output_failed") {
        Ok(WatchStep::Reconcile)
    } else if same(event, "response.generated_images_changed") {
        Ok(WatchStep::PollImages)
    } else if same(event, "response.delta") {
        match data {
            Err(e) => Err(e.clone()),
            Ok(v) => {
                if !same_option(v.at("response_id").as_str(), response) {
                    return Err(String::from_str("delta target mismatch"));
                }
                match v.at("delta").as_str() {
                    Some(s) => Ok(WatchStep::Delta(s.to_owned())),
                    None => Ok(WatchStep::Skip),
                }
            },
        }
    } else if same(event, "approval_requested") {
        match data {
            Err(e) => Err(e.clone()),
            Ok(v) => {
                if !(same_option(v.at("threadId").as_str(), thread) && same_option(
                    v.at("turnId").as_str(),
                    turn,
                )) {
                    return Err(String::from_str("event target mismatch"));
                }
                Ok(WatchStep::DiscoverApprovals)
            },
        }
    } else {
        Ok(WatchStep::Skip)
    }
}

/// What follows from an event of a response.
pub fn watch_events(
    event: &str,
    data: &str,
    response: Option<&str>,
    thread: Option<&str>,
    turn: Option<&str>,
) -> (r: Result<WatchStep, String>)
    ensures
        match watch_step(
            event@,
            parsed_tree(data@),
            opt_str(response),
            opt_str(thread),
            opt_str(turn),
        ) {
            Ok(v) => r is Ok && r->Ok_0@ == v,
            Err(e) => r is Err && r->Err_0@ == e,
        },
{
    judge_event(event, &read(data), response, thread, turn)
}

/// Whether a stream of events is still alive, so many milliseconds after its last byte.
pub fn check_stream(silent: u64) -> (r: Result<(), &'static str>)
    ensures
        r is Ok <==> silent < 90_000,
        r is Err ==> r->Err_0@ == "Turn monitor silent"@,
{
    if silent < 90_000 {
        Ok(())
    } else {
        Err("Turn monitor silent")
    }
}

/// What to do for a request that runs: interrupt it, look for requests for approval.
pub fn monitor_loop(state: RequestState, stop_requested: bool, has_thread: bool) -> (r: (bool, bool))
    ensures
        r.0 == (stop_requested && !state.ended()),
        r.1 == ((state == RequestState::Running || state == RequestState::ApprovalRequired)
            && has_thread),
{
    (
        stop_requested && !state.terminal(),
        (state == RequestState::Running || state == RequestState::ApprovalRequired) && has_thread,
    )
}

/// The turn whose approvals are looked for.
pub fn approvals_of(turn: Option<&str>) -> (r: Result<&str, &'static str>)
    ensures
        turn is Some ==> r is Ok && r->Ok_0@ == turn->0@,
        turn is None ==> r is Err && r->Err_0@ == "Turn unknown"@,
{
    match turn {
        Some(t) => Ok(t),
        None => Err("Turn unknown"),
    }
}

/// The identity of an approval in a list of the proxy.
pub fn approval_id<'a>(entry: &'a Json) -> (r: Result<&'a str, &'static str>)
    ensures
        match entry@.at("approval_id"@).text() {
            Some(id) => r is Ok && r->Ok_0@ == id,
            None => r is Err && r->Err_0@ == "approval ID missing"@,
        },
{
    match entry.at("approval_id").as_str() {
        Some(id) => Ok(id),
        None => Err("approval ID missing"),
    }
}

/// When an approval that the proxy has ends, where it belongs to the request.
pub fn discover_approvals(v: &Json, thread: Option<&str>, turn: &str) -> (r: Result<
    Option<i64>,
    &'static str,
>)
    ensures
        if v@.at("details"@).at("threadId"@).text() == opt_str(thread) && v@.at("details"@).at(
            "turnId"@,
        ).text() == Some(turn@) {
            r is Ok && r->Ok_0 == v@.at("expires_at_ms"@).signed()
        } else {
            r is Err && r->Err_0@ == "approval target mismatch"@
        },
{
    let d = v.at("details");
    if same_option(d.at("threadId").as_str(), thread) && d.at("turnId").is_text(turn) {
        Ok(v.at("expires_at_ms").as_i64())
    } else {
        Err("approval target mismatch")
    }
}

/// What is wrong with a channel as the place of a conversation, apart from its parent.
pub open spec fn place_objection(v: JsonView, channel: Seq<char>, guild: Seq<char>) -> Option<
    Seq<char>,
> {
    let kind = v.at("type"@).unsigned();
    let meta = v.at("thread_metadata"@);
    if !v.at("id"@).says(channel) || !v.at("guild_id"@).says(guild) {
        Some("channel identity mismatch"@)
    } else if kind == Some(0u64) {
        None
    } else if kind == Some(11u64) || kind == Some(12u64) {
        if meta.at("archived"@).is_true() || meta.at("locked"@).is_true() {
            Some("conversation closed"@)
        } else if v.at("parent_id"@).text() is None {
            Some("parent missing"@)
        } else {
            None
        }
    } else {
        Some("unsupported conversation location"@)
    }
}

/// What an incoming message is for the runtime behind a proxy.
#[derive(Clone, Copy, Debug, PartialEq, Eq, Structural)]
pub enum Incoming {
    Ignored,
    Command,
    Request,
}

/// Whether a message comes from the authorized user in the guild and was written by a person.
pub open spec fn from_user(v: JsonView, guild: Seq<char>, user: Seq<char>) -> bool {
    v.at("guild_id"@).says(guild) && v.at("author"@).at("id"@).says(user) && !v.at("author"@).at(
        "bot"@,
    ).is_true() && v.at("webhook_id"@) == JsonView::Null
}

/// What is known when a request of the user is to be taken in.
#[derive(Clone, Copy, Debug)]
pub struct AdmissionFacts {
    /// Whether the place can host a conversation.
    pub placed: bool,
    /// Whether the conversation has a model.
    pub model_chosen: bool,
    pub reloading: bool,
    pub recovering: bool,
    pub proxy_ready: bool,
    pub connected: bool,
    /// Whether the conversation is stored.
    pub known: bool,
    /// Whether the message can be read.
    pub readable: bool,
    /// How many requests are being taken in.
    pub workers: usize,
}

/// What becomes of a request of the user.
#[derive(Clone, Copy, Debug)]
pub enum AdmissionStep {
    Skip,
    Notice(&'static str),
    /// Reserve its place in the order, then look at its input.
    Reserve,
}

/// The mathematical form of an `AdmissionStep`.
pub enum AdmissionStepView {
    Skip,
    Notice(Seq<char>),
    Reserve,
}

impl View for AdmissionStep {
    type V = AdmissionStepView;

    open spec fn view(&self) -> AdmissionStepView {
        match self {
            AdmissionStep::Skip => AdmissionStepView::Skip,
            AdmissionStep::Notice(s) => AdmissionStepView::Notice(s@),
            AdmissionStep::Reserve => AdmissionStepView::Reserve,
        }
    }
}

/// What becomes of a request of the user.
pub open spec fn admission_of(f: AdmissionFacts, room: nat) -> AdmissionStepView {
    if !f.placed {
        AdmissionStepView::Notice(
            "この場所では会話を開始できません。通常チャンネルか開いているスレッドで、Botの閲覧権限を確認してください。"@,
        )
    } else if !f.model_chosen {
        AdmissionStepView::Notice(
            "初期モデルを選んでください。/model を開くと選択メニューが表示されます。cwd登録は不要です。選択後にもう一度話しかけてください。"@,
        )
    } else if f.reloading || f.recovering || !f.proxy_ready || !f.connected {
        if f.known {
            AdmissionStepView::Notice("受付停止中です。/status で状態を確認してください。"@)
        } else {
            AdmissionStepView::Skip
        }
    } else if !f.readable || f.workers >= room {
        AdmissionStepView::Skip
    } else {
        AdmissionStepView::Reserve
    }
}

/// What becomes of a request of the user.
pub fn admit_loop(f: &AdmissionFacts, limits: &Limits) -> (r: AdmissionStep)
    ensures
        r@ == admission_of(*f, limits.queue_global as nat),
{
    if !f.placed {
        return AdmissionStep::Notice(
            "この場所では会話を開始できません。通常チャンネルか開いているスレッドで、Botの閲覧権限を確認してください。",
        );
    }
    if !f.model_chosen {
        return AdmissionStep::Notice(
            "初期モデルを選んでください。/model を開くと選択メニューが表示されます。cwd登録は不要です。選択後にもう一度話しかけてください。",
        );
    }
    if f.reloading || f.recovering || !f.proxy_ready || !f.connected {
        return if f.known {
            AdmissionStep::Notice("受付停止中です。/status で状態を確認してください。")
        } else {
            AdmissionStep::Skip
        };
    }
    if !f.readable || f.workers >= limits.queue_global {
        return AdmissionStep::Skip;
    }
    AdmissionStep::Reserve
}

/// Nothing is taken in while the gateway reloads, recovers or is cut off.
pub proof fn a_closed_gateway_takes_nothing_in(f: AdmissionFacts, room: nat)
    requires
        f.reloading || f.recovering || !f.proxy_ready || !f.connected,
    ensures
        !(admission_of(f, room) is Reserve),
{
}

/// What the user is told of a request whose place could not be reserved.
pub fn reserve_failed(known: bool) -> (r: Option<&'static str>)
    ensures
        known ==> r is Some && r->0@
            == "受付できませんでした。待機上限または会話の安全確認が必要な状態です。/status で確認できます。この投稿はAIへ送信していません。"@,
        !known ==> r is None,
{
    if known {
        Some(
            "受付できませんでした。待機上限または会話の安全確認が必要な状態です。/status で確認できます。この投稿はAIへ送信していません。",
        )
    } else {
        None
    }
}

/// What the user is told of a request that has to wait.
pub fn waiting_notice(paused: bool, active: bool) -> (r: Option<&'static str>)
    ensures
        paused ==> r is Some && r->0@
            == "受け付けました。一時停止中のため待機します。/resume で再開できます。"@,
        !paused && active ==> r is Some && r->0@ == "受け付けました。先の作業が終わるまで待機します。"@,
        !paused && !active ==> r is None,
{
    if paused {
        Some("受け付けました。一時停止中のため待機します。/resume で再開できます。")
    } else if active {
        Some("受け付けました。先の作業が終わるまで待機します。")
    } else {
        None
    }
}

/// What a command that was written as text is answered: at most eight are carried out at once.
/// `outcome` is its own answer, where it was carried out in time.
pub fn text_control_notice<'a>(controls: usize, outcome: Option<&'a str>) -> (r: &'a str)
    ensures
        r@ == if controls >= 8 {
            "操作が混み合っています。少し待ってから操作してください。AIには送っていません。"@
        } else {
            match opt_str(outcome) {
                Some(s) => s,
                None => "操作の適用を確認できませんでした。/model または /status で確認してください。AIには送っていません。"@,
            }
        },
{
    if controls >= 8 {
        return "操作が混み合っています。少し待ってから操作してください。AIには送っていません。";
    }
    match outcome {
        Some(s) => s,
        None => "操作の適用を確認できませんでした。/model または /status で確認してください。AIには送っていません。",
    }
}

/// Whether requests may start now, in the runtime behind a proxy.
pub fn scheduler_open(reloading: bool, recovering: bool, proxy_ready: bool, connected: bool, jobs: usize) -> (r:
    bool)
    ensures
        r == (!reloading && !recovering && proxy_ready && connected && jobs < 2),
{
    !reloading && !recovering && proxy_ready && connected && jobs < 2
}

/// Whether the outcome of a request is looked up once its task has ended.
pub fn needs_lookup(state: RequestState) -> (r: bool)
    ensures
        r == (state != RequestState::Queued && state != RequestState::Received && !state.ended()),
{
    state != RequestState::Queued && state != RequestState::Received && !state.terminal()
}

/// How the start of a request went.
#[derive(Clone, Copy, Debug, PartialEq, Eq, Structural)]
pub enum Start {
    /// The proxy is busy: the request fails and is not repeated.
    Busy,
    /// Look up what became of it.
    Reconcile,
}

/// Decides on messages and requests of the runtime behind a proxy.
pub struct App;

impl App {
    /// What an incoming message is.
    pub fn classify(v: &Json, discord: &Discord, bot: Option<&str>) -> (r: Incoming)
        ensures
            ({
                let own = from_user(v@, discord.guild_id@, discord.allowed_user_id@);
                let command = crate::commands::text_control(
                    crate::direct_application::content_of(v@),
                );
                r == if !own {
                    Incoming::Ignored
                } else if command {
                    Incoming::Command
                } else if crate::discord::to_be_answered(v@, discord.response_mode, opt_str(bot)) {
                    Incoming::Request
                } else {
                    Incoming::Ignored
                }
            }),
    {
        if !(v.at("guild_id").is_text(discord.guild_id.as_str()) && v.at("author").at("id").is_text(
            discord.allowed_user_id.as_str(),
        ) && !v.at("author").at("bot").is_bool(true) && v.at("webhook_id").is_null()) {
            return Incoming::Ignored;
        }
        proof {
            reveal_strlit("");
            assert(""@ =~= Seq::<char>::empty());
        }
        let content = match v.at("content").as_str() {
            Some(s) => s,
            None => "",
        };
        if crate::commands::is_text_control(content) {
            Incoming::Command
        } else if crate::discord::should_respond(bot, v, discord.response_mode) {
            Incoming::Request
        } else {
            Incoming::Ignored
        }
    }

    /// Whether a channel can host a conversation.
    pub fn verify_location(v: &Json, channel: &str, guild: &str) -> (r: Result<
        Location,
        &'static str,
    >)
        ensures
            match place_objection(v@, channel@, guild@) {
                Some(e) => r is Err && r->Err_0@ == e,
                None => {
                    &&& r is Ok
                    &&& v@.at("type"@).unsigned() == Some(0u64) ==> r->Ok_0 is Fine
                    &&& v@.at("type"@).unsigned() != Some(0u64) ==> r->Ok_0 is Below && v@.at(
                        "parent_id"@,
                    ).says(r->Ok_0->Below_0@)
                },
            },
    {
        if !(v.at("id").is_text(channel) && v.at("guild_id").is_text(guild)) {
            return Err("channel identity mismatch");
        }
        match v.at("type").as_u64() {
            Some(0) => Ok(Location::Fine),
            Some(n) => {
                if n != 11 && n != 12 {
                    return Err("unsupported conversation location");
                }
                let meta = v.at("thread_metadata");
                if meta.at("archived").is_bool(true) || meta.at("locked").is_bool(true) {
                    return Err("conversation closed");
                }
                match v.at("parent_id").as_str() {
                    Some(s) => Ok(Location::Below(s.to_owned())),
                    None => Err("parent missing"),
                }
            },
            None => Err("unsupported conversation location"),
        }
    }

    /// Whether the parent of a thread can hold conversations.
    pub fn verify_parent(parent: &Json, id: &str, guild: &str) -> (r: Result<(), &'static str>)
        ensures
            r is Ok <==> parent@.at("id"@).says(id@) && parent@.at("guild_id"@).says(guild@) && (
            parent@.at("type"@) == JsonView::Unsigned(0) || parent@.at("type"@)
                == JsonView::Unsigned(15)),
            r is Err ==> r->Err_0@ == "parent mismatch"@,
    {
        if parent.at("id").is_text(id) && parent.at("guild_id").is_text(guild) && (parent.at(
            "type",
        ).is_number(0) || parent.at("type").is_number(15)) {
            Ok(())
        } else {
            Err("parent mismatch")
        }
    }

    /// Whether the input of a waiting request is still what was admitted.
    pub fn check_input(author: &str, allowed: &str, input_digest: &str, admitted: &str) -> (r: Result<
        (),
        &'static str,
    >)
        ensures
            author@ != allowed@ ==> r is Err && r->Err_0@ == "input author changed"@,
            author@ == allowed@ && input_digest@ != admitted@ ==> r is Err && r->Err_0@
                == "input changed after admission"@,
            author@ == allowed@ && input_digest@ == admitted@ ==> r is Ok,
    {
        if !same(author, allowed) {
            return Err("input author changed");
        }
        if !same(input_digest, admitted) {
            return Err("input changed after admission");
        }
        Ok(())
    }

    /// What follows from an error of the start of a request.
    pub fn execute(error: Option<(u16, &str)>) -> (r: Start)
        ensures
            r == match error {
                Some((status, code)) => if status == 409 && (code@ == "provider_busy"@ || code@
                    == "workspace_busy"@ || code@ == "conversation_busy"@) {
                    Start::Busy
                } else {
                    Start::Reconcile
                },
                None => Start::Reconcile,
            },
    {
        match error {
            Some((status, code)) => {
                if status == 409 && (same(code, "provider_busy") || same(code, "workspace_busy")
                    || same(code, "conversation_busy")) {
                    Start::Busy
                } else {
                    Start::Reconcile
                }
            },
            None => Start::Reconcile,
        }
    }

    /// The response that the proxy started for a request.
    pub fn started_response(receipt: &Json) -> (r: Result<String, &'static str>)
        ensures
            !receipt@.at("resource"@).at("type"@).says("response"@) ==> r is Err && r->Err_0@
                == "execution receipt mismatch"@,
            receipt@.at("resource"@).at("type"@).says("response"@) ==> match receipt@.at(
                "resource"@,
            ).at("id"@).text() {
                Some(id) => r is Ok && r->Ok_0@ == id,
                None => r is Err && r->Err_0@ == "execution receipt without identity"@,
            },
    {
        let resource = receipt.at("resource");
        if !resource.at("type").is_text("response") {
            return Err("execution receipt mismatch");
        }
        match resource.at("id").as_str() {
            Some(id) => Ok(id.to_owned()),
            None => Err("execution receipt without identity"),
        }
    }

    /// The texts that are masked wherever they would be shown: the credentials, those that were in
    /// use before, and the places of the private state.
    pub fn secrets(token: &str, key: &str, state_dir: &str, temp_dir: &str, retired: &Vec<String>) -> (r: Vec<
        String,
    >)
        ensures
            views(r@) == seq![token@, key@, state_dir@, temp_dir@] + views(retired@),
    {
        let mut r: Vec<String> = Vec::new();
        r.push(token.to_owned());
        r.push(key.to_owned());
        r.push(state_dir.to_owned());
        r.push(temp_dir.to_owned());
        let ghost head = seq![token@, key@, state_dir@, temp_dir@];
        let ghost all = views(retired@);
        assert(views(r@) =~= head + all.take(0));
        let mut i: usize = 0;
        while i < retired.len()
            invariant
                i <= retired@.len(),
                all == views(retired@),
                views(r@) == head + all.take(i as int),
            decreases retired@.len() - i,
        {
            let ghost before = views(r@);
            assert(all[i as int] == retired@[i as int]@);
            r.push(retired[i].clone());
            i += 1;
            assert(views(r@) =~= before.push(all[i - 1]));
            assert(views(r@) =~= head + all.take(i as int));
        }
        assert(all.take(all.len() as int) =~= all);
        r
    }

    /// The state that an answer to a stop stands for, where it stands for one.
    pub fn interrupt(answer: &Json) -> (r: Option<RequestState>)
        ensures
            r == ({
                let s = answer@.at("stop_status"@).text();
                if s == Some("cancelled_before_start"@) || s == Some("interrupted"@) {
                    Some(RequestState::Cancelled)
                } else if s == Some("waiting_for_start"@) || s == Some("interrupt_pending"@) {
                    Some(RequestState::CancelRequested)
                } else {
                    None
                }
            }),
    {
        let s = answer.at("stop_status").as_str();
        if some_same(s, "cancelled_before_start") || some_same(s, "interrupted") {
            Some(RequestState::Cancelled)
        } else if some_same(s, "waiting_for_start") || some_same(s, "interrupt_pending") {
            Some(RequestState::CancelRequested)
        } else {
            None
        }
    }

    /// A text with every known secret masked.
    pub fn redact(secrets: Vec<String>, text: &str) -> (r: String)
        ensures
            ({
                let hidden = hidden_texts(secrets@);
                r@ == shown(hidden, text@) + if held(hidden, text@).len() == 0 {
                    Seq::empty()
                } else {
                    mask()
                }
            }),
    {
        let mut redactor = Redactor::new(secrets);
        let ghost start = redactor.waiting();
        let mut out = redactor.push(text);
        assert(start + text@ =~= text@);
        let rest = redactor.finish();
        out.append(rest.as_str());
        out
    }

    /// The state and send state that a control operation ends in.
    pub fn finish_operation(accepted: bool) -> (r: (&'static str, &'static str))
        ensures
            accepted ==> r.0@ == "ACCEPTED"@ && r.1@ == "WRITTEN"@,
            !accepted ==> r.0@ == "UNKNOWN"@ && r.1@ == "UNKNOWN"@,
    {
        if accepted {
            ("ACCEPTED", "WRITTEN")
        } else {
            ("UNKNOWN", "UNKNOWN")
        }
    }

    /// Whether a request is to be watched for events now.
    pub fn watch_due(
        dispatching: bool,
        has_response: bool,
        state: RequestState,
        watched: bool,
        since_attempt: Option<u64>,
    ) -> (r: bool)
        ensures
            r == (!dispatching && has_response && !state.ended() && !watched && !(since_attempt is Some
                && since_attempt->0 < 5_000)),
    {
        let recent = match since_attempt {
            Some(ms) => ms < 5_000,
            None => false,
        };
        !dispatching && has_response && !state.terminal() && !watched && !recent
    }
}

} // verus!
