//! The buttons of an approval: what is shown when, and which decision is sent.
use crate::components::{button, button_view, row, row_view};
use crate::direct_approval::{
    grantable, DirectInteraction, InteractionKind, InteractionView, ManualDecision,
};
use crate::direct_menus::{
    approval_detail, can_accept, can_cancel, can_decline, detail_pages, rejection_view,
    DirectCoordinator,
};
use crate::json::{
    empty_array, member, member_views, object, object1, object2, text, trees, Json, JsonView,
    Member,
};
use crate::numbers::{decimal, decimal_text, parse_unsigned, unsigned_of};
use crate::text::{contains, holds, opt_str, opt_view, pieces, same, some_same, split, views};
use vstd::prelude::*;
use vstd::string::*;

verus! {

/// A request for approval that is shown in Discord.
#[derive(Debug)]
pub struct ApprovalCard {
    pub request_id: String,
    pub thread_id: String,
    pub fingerprint: String,
    pub operation: DirectInteraction,
    pub input_generation: u64,
    pub highest_viewed_page: Option<usize>,
}

/// A button that was pressed.
pub struct Button {
    pub action: String,
    pub card: String,
    pub extra: Option<String>,
}

/// The action, card and page that the identity of a button names.
pub open spec fn button_of(custom: Seq<char>) -> Option<(Seq<char>, Seq<char>, Option<Seq<char>>)> {
    let p = pieces(custom, ':');
    if (p.len() == 3 || p.len() == 4) && p[0] == "direct"@ {
        Some(
            (
                p[1],
                p[2],
                if p.len() == 4 {
                    Some(p[3])
                } else {
                    None
                },
            ),
        )
    } else {
        None
    }
}

/// Reads the identity of a button.
pub fn read_button(custom: &str) -> (r: Option<Button>)
    ensures
        match button_of(custom@) {
            None => r is None,
            Some((action, card, extra)) => {
                &&& r is Some
                &&& r->0.action@ == action
                &&& r->0.card@ == card
                &&& opt_view(r->0.extra) == extra
            },
        },
{
    let p = split(custom, ':');
    let ghost list = pieces(custom@, ':');
    assert(views(p@).len() == p@.len());
    if p.len() != 3 && p.len() != 4 {
        return None;
    }
    assert(list[0] == p@[0]@ && list[1] == p@[1]@ && list[2] == p@[2]@);
    if !same(p[0].as_str(), "direct") {
        return None;
    }
    let extra: Option<String> = if p.len() == 4 {
        assert(list[3] == p@[3]@);
        Some(p[3].clone())
    } else {
        None
    };
    Some(Button { action: p[1].clone(), card: p[2].clone(), extra })
}

/// What is sent to the run that asked.
#[derive(Clone, Copy, Debug, PartialEq, Eq, Structural)]
pub enum RunRequest {
    /// Tell the app server that this form of request is not supported.
    Reject { input_generation: u64 },
    Tool { decision: ManualDecision, run_grant: bool, input_generation: u64 },
    Manual { decision: ManualDecision, input_generation: u64 },
}

/// The generation of the input that a card was shown in.
pub open spec fn generation_of(request: RunRequest) -> u64 {
    match request {
        RunRequest::Reject { input_generation } => input_generation,
        RunRequest::Tool { input_generation, .. } => input_generation,
        RunRequest::Manual { input_generation, .. } => input_generation,
    }
}

impl RunRequest {
    /// The generation of the input that the card was shown in.
    pub fn generation(self) -> (r: u64)
        ensures
            r == generation_of(self),
    {
        match self {
            RunRequest::Reject { input_generation } => input_generation,
            RunRequest::Tool { input_generation, .. } => input_generation,
            RunRequest::Manual { input_generation, .. } => input_generation,
        }
    }
}

/// What follows from pressing a button.
pub enum ButtonStep {
    /// Acknowledge the button and tell the user this.
    Answer(&'static str),
    /// Answer with this callback; the page counts as viewed.
    Show { page: usize, callback: Json },
    /// Acknowledge the button and send this to the run.
    Send(RunRequest),
}

/// The mathematical form of a `ButtonStep`.
pub enum ButtonStepView {
    Answer(Seq<char>),
    Show(nat, JsonView),
    Send(RunRequest),
}

impl View for ButtonStep {
    type V = ButtonStepView;

    open spec fn view(&self) -> ButtonStepView {
        match self {
            ButtonStep::Answer(s) => ButtonStepView::Answer(s@),
            ButtonStep::Show { page, callback } => ButtonStepView::Show(*page as nat, callback@),
            ButtonStep::Send(r) => ButtonStepView::Send(*r),
        }
    }
}

/// The page that a button asks for.
pub open spec fn asked_page(action: Seq<char>, extra: Option<Seq<char>>) -> Option<nat> {
    if action == "detail"@ {
        Some(0)
    } else if extra is None {
        None
    } else {
        unsigned_of(extra->0, usize::MAX as nat)
    }
}

/// Whether a page may be opened: the first always, another only after the one before it.
pub open spec fn page_allowed(
    action: Seq<char>,
    page: Option<nat>,
    total: nat,
    highest: Option<usize>,
) -> bool {
    page is Some && page->0 < total && (action == "detail"@ || (highest is Some && page->0 <= highest->0
        + 1))
}

/// The buttons below a page: accepting is offered on the last page alone.
pub open spec fn page_buttons(v: InteractionView, card: Seq<char>, page: nat, total: nat) -> Seq<
    JsonView,
> {
    let back = if page > 0 {
        seq![button_view("direct:page:"@ + card + ":"@ + decimal((page - 1) as nat), "前へ"@, 2)]
    } else {
        Seq::empty()
    };
    let next = if page + 1 < total {
        seq![button_view("direct:page:"@ + card + ":"@ + decimal(page + 1), "次へ"@, 1)]
    } else {
        Seq::empty()
    };
    let accept = if page + 1 == total && can_accept(v) {
        let once = seq![button_view("direct:accept:"@ + card, "今回だけ許可"@, 3)];
        if grantable(v) is Some {
            once.push(button_view("direct:run:"@ + card, "この依頼中、このツールを許可"@, 3))
        } else {
            once
        }
    } else {
        Seq::empty()
    };
    (back + next + accept).push(rejection_view(v, card))
}

/// The callback that shows a page: the first privately, the others in its place.
pub open spec fn page_callback(v: InteractionView, card: Seq<char>, page: nat, first: bool) -> JsonView {
    let pages = detail_pages(v);
    let shown = seq![
        (
            "allowed_mentions"@,
            JsonView::Object(seq![("parse"@, JsonView::Array(Seq::empty()))]),
        ),
        ("components"@, row_view(page_buttons(v, card, page, pages.len()))),
        ("content"@, JsonView::Text(pages[page as int])),
    ];
    JsonView::Object(
        seq![
            (
                "data"@,
                JsonView::Object(
                    if first {
                        shown.push(("flags"@, JsonView::Unsigned(64)))
                    } else {
                        shown
                    },
                ),
            ),
            (
                "type"@,
                JsonView::Unsigned(
                    if first {
                        4
                    } else {
                        7
                    },
                ),
            ),
        ],
    )
}

/// The decision that an action stands for.
pub open spec fn action_decision(action: Seq<char>) -> Option<ManualDecision> {
    if action == "accept"@ || action == "run"@ {
        Some(ManualDecision::AcceptOnce)
    } else if action == "decline"@ {
        Some(ManualDecision::Decline)
    } else if action == "cancel"@ {
        Some(ManualDecision::Cancel)
    } else if action == "reject"@ {
        Some(ManualDecision::Decline)
    } else {
        None
    }
}

/// What is sent for an action.
pub open spec fn request_for(action: Seq<char>, kind: InteractionKind, input_generation: u64) -> RunRequest {
    let decision = action_decision(action)->0;
    if action == "reject"@ {
        RunRequest::Reject { input_generation }
    } else if kind == InteractionKind::UserInput || kind == InteractionKind::McpElicitation {
        RunRequest::Tool { decision, run_grant: action == "run"@, input_generation }
    } else {
        RunRequest::Manual { decision, input_generation }
    }
}

/// What follows from an action on a card of this conversation.
pub open spec fn card_step(
    action: Seq<char>,
    id: Seq<char>,
    extra: Option<Seq<char>>,
    card: ApprovalCard,
    active: Option<Seq<char>>,
) -> ButtonStepView {
    let v = card.operation@;
    let total = detail_pages(v).len();
    let accepting = action == "accept"@ || action == "run"@;
    if action == "detail"@ || action == "page"@ {
        let page = asked_page(action, extra);
        if !page_allowed(action, page, total, card.highest_viewed_page) {
            ButtonStepView::Answer(
                "このページはまだ開けません。元の確認画面から順番に確認してください。"@,
            )
        } else {
            ButtonStepView::Show(page->0, page_callback(v, id, page->0, action == "detail"@))
        }
    } else if action_decision(action) is None {
        ButtonStepView::Answer("このボタンは使用できません。"@)
    } else if accepting && !can_accept(v) {
        ButtonStepView::Answer(
            "この確認形式には許可を返せません。取り消すか、/stop で作業を中断してください。"@,
        )
    } else if accepting && !(card.highest_viewed_page is Some && card.highest_viewed_page->0 + 1
        == total) {
        ButtonStepView::Answer(
            "操作内容の全ページを確認してから許可してください。元の確認画面で「自分だけに表示して確認」を開き、最後のページまで進んでください。"@,
        )
    } else if (action == "decline"@ && !can_decline(v)) || (action == "run"@ && grantable(v) is None)
        || (action == "cancel"@ && !can_cancel(v)) || (action == "reject"@ && (can_decline(v)
        || can_cancel(v))) {
        ButtonStepView::Answer(
            "この確認画面の選択肢は現在の要求と一致しません。/status で状態を確認してください。"@,
        )
    } else if active != Some(card.request_id@) {
        ButtonStepView::Answer("元の実行は終了しました。この確認は適用していません。"@)
    } else {
        ButtonStepView::Send(request_for(action, v.kind, card.input_generation))
    }
}

/// What follows from pressing a button in a conversation.
pub open spec fn button_step(
    custom: Seq<char>,
    card: Option<ApprovalCard>,
    thread: Seq<char>,
    active: Option<Seq<char>>,
) -> ButtonStepView {
    match button_of(custom) {
        None => ButtonStepView::Answer(
            "この確認画面は使用できません。/status で作業状態を確認してください。"@,
        ),
        Some((action, id, extra)) => if (action == "page"@) != (extra is Some) {
            ButtonStepView::Answer(
                "この確認画面のページ指定は使用できません。元の確認を開き直してください。"@,
            )
        } else if card is None || card->0.thread_id@ != thread {
            ButtonStepView::Answer("この確認は終了しました。/status で作業状態を確認してください。"@)
        } else {
            card_step(action, id, extra, card->0, active)
        },
    }
}

/// Nothing is accepted before its last page was viewed, nor for another run than the one that
/// asked, nor where acceptance is not possible.
pub proof fn acceptance_needs_the_last_page(
    custom: Seq<char>,
    card: Option<ApprovalCard>,
    thread: Seq<char>,
    active: Option<Seq<char>>,
    request: RunRequest,
)
    requires
        button_step(custom, card, thread, active) == ButtonStepView::Send(request),
        request is Manual && request->Manual_decision == ManualDecision::AcceptOnce
            || request is Tool && request->Tool_decision == ManualDecision::AcceptOnce,
    ensures
        card is Some,
        card->0.highest_viewed_page is Some,
        card->0.highest_viewed_page->0 + 1 == detail_pages(card->0.operation@).len(),
        active == Some(card->0.request_id@),
        card->0.thread_id@ == thread,
        can_accept(card->0.operation@),
        generation_of(request) == card->0.input_generation,
{
    reveal_strlit("accept");
    reveal_strlit("run");
    reveal_strlit("decline");
    reveal_strlit("cancel");
    reveal_strlit("reject");
}

/// The highest page that was viewed once another page is viewed.
pub open spec fn highest_after(highest: Option<nat>, page: nat) -> nat {
    match highest {
        None => page,
        Some(h) => if h >= page {
            h
        } else {
            page
        },
    }
}

/// The highest page after the first `n` views.
pub open spec fn highest_of(views: Seq<nat>, n: nat) -> Option<nat>
    decreases n,
{
    if n == 0 || n > views.len() {
        None
    } else {
        Some(highest_after(highest_of(views, (n - 1) as nat), views[n - 1]))
    }
}

/// Whether each view was allowed: the first page, or one not beyond the page after the highest.
pub open spec fn viewed_in_order(views: Seq<nat>) -> bool {
    forall|i: int|
        0 <= i < views.len() ==> #[trigger] views[i] == 0 || (highest_of(views, i as nat) is Some
            && views[i] <= highest_of(views, i as nat)->0 + 1)
}

/// Whoever has reached a page has viewed every page before it.
pub proof fn every_page_was_viewed(views: Seq<nat>, n: nat, page: nat)
    requires
        viewed_in_order(views),
        n <= views.len(),
        highest_of(views, n) is Some,
        page <= highest_of(views, n)->0,
    ensures
        views.take(n as int).contains(page),
    decreases n,
{
    let before = highest_of(views, (n - 1) as nat);
    let last = views[n - 1];
    if last == page {
        assert(views.take(n as int)[n - 1] == page);
    } else {
        assert(views[n - 1] == last);
        every_page_was_viewed(views, (n - 1) as nat, page);
        let earlier = views.take(n - 1);
        let i = choose|i: int| 0 <= i < earlier.len() && earlier[i] == page;
        assert(views.take(n as int)[i] == page);
    }
}

impl ApprovalCard {
    /// Records that a page was viewed.
    pub fn viewed(&mut self, page: usize)
        ensures
            final(self).highest_viewed_page is Some,
            final(self).highest_viewed_page->0 == highest_after(
                match old(self).highest_viewed_page {
                    Some(h) => Some(h as nat),
                    None => None,
                },
                page as nat,
            ),
            final(self).request_id == old(self).request_id,
            final(self).thread_id == old(self).thread_id,
            final(self).fingerprint == old(self).fingerprint,
            final(self).operation == old(self).operation,
            final(self).input_generation == old(self).input_generation,
    {
        let highest: usize = match self.highest_viewed_page {
            None => page,
            Some(h) => {
                if h >= page {
                    h
                } else {
                    page
                }
            },
        };
        self.highest_viewed_page = Some(highest);
    }
}

fn page_button(card: &str, page: usize, label: &str, style: u64) -> (r: Json)
    ensures
        r@ == button_view("direct:page:"@ + card@ + ":"@ + decimal(page as nat), label@, style),
{
    let number = decimal_text(page as u64);
    let id = String::from_str("direct:page:").concat(card).concat(":").concat(number.as_str());
    button(id.as_str(), label, style)
}

fn make_buttons(operation: &DirectInteraction, card: &str, page: usize, total: usize) -> (r: Vec<Json>)
    requires
        page < total,
    ensures
        trees(r@) == page_buttons(operation@, card@, page as nat, total as nat),
{
    let ghost v = operation@;
    let mut out: Vec<Json> = Vec::new();
    let ghost back = if page > 0 {
        seq![button_view("direct:page:"@ + card@ + ":"@ + decimal((page - 1) as nat), "前へ"@, 2)]
    } else {
        Seq::<JsonView>::empty()
    };
    if page > 0 {
        out.push(page_button(card, page - 1, "前へ", 2));
    }
    assert(trees(out@) =~= back);
    let ghost next = if page + 1 < total {
        seq![button_view("direct:page:"@ + card@ + ":"@ + decimal((page + 1) as nat), "次へ"@, 1)]
    } else {
        Seq::<JsonView>::empty()
    };
    if page + 1 < total {
        out.push(page_button(card, page + 1, "次へ", 1));
    }
    assert(trees(out@) =~= back + next);
    let ghost once = seq![button_view("direct:accept:"@ + card@, "今回だけ許可"@, 3)];
    let ghost accept = if page + 1 == total && can_accept(v) {
        if grantable(v) is Some {
            once.push(button_view("direct:run:"@ + card@, "この依頼中、このツールを許可"@, 3))
        } else {
            once
        }
    } else {
        Seq::<JsonView>::empty()
    };
    if page + 1 == total && DirectCoordinator::answerable(operation) {
        let id = String::from_str("direct:accept:").concat(card);
        out.push(button(id.as_str(), "今回だけ許可", 3));
        if operation.run_grant_tool().is_some() {
            let id = String::from_str("direct:run:").concat(card);
            out.push(button(id.as_str(), "この依頼中、このツールを許可", 3));
        }
    }
    assert(trees(out@) =~= back + next + accept);
    out.push(DirectCoordinator::rejection_button(operation, card));
    assert(trees(out@) =~= (back + next + accept).push(rejection_view(v, card@)));
    out
}

fn show_page(operation: &DirectInteraction, card: &str, page: usize, first: bool, pages: &Vec<String>) -> (r:
    Json)
    requires
        views(pages@) == detail_pages(operation@),
        page < pages@.len(),
    ensures
        r@ == page_callback(operation@, card@, page as nat, first),
{
    let ghost v = operation@;
    let buttons = make_buttons(operation, card, page, pages.len());
    assert(views(pages@).len() == pages@.len());
    assert(views(pages@)[page as int] == pages@[page as int]@);
    let mut data: Vec<Member> = Vec::new();
    data.push(member("allowed_mentions", object1("parse", empty_array())));
    data.push(member("components", row(buttons)));
    data.push(member("content", text(pages[page].as_str())));
    let ghost shown = seq![
        (
            "allowed_mentions"@,
            JsonView::Object(seq![("parse"@, JsonView::Array(Seq::empty()))]),
        ),
        ("components"@, row_view(page_buttons(v, card@, page as nat, pages@.len()))),
        ("content"@, JsonView::Text(detail_pages(v)[page as int])),
    ];
    assert(member_views(data@) =~= shown);
    if first {
        data.push(member("flags", Json::Unsigned(64)));
        assert(member_views(data@) =~= shown.push(("flags"@, JsonView::Unsigned(64))));
    }
    let callback: u64 = if first { 4 } else { 7 };
    object2("data", object(data), "type", Json::Unsigned(callback))
}

fn decision_for(action: &str) -> (r: Option<ManualDecision>)
    ensures
        r == action_decision(action@),
{
    if same(action, "accept") || same(action, "run") {
        Some(ManualDecision::AcceptOnce)
    } else if same(action, "decline") {
        Some(ManualDecision::Decline)
    } else if same(action, "cancel") {
        Some(ManualDecision::Cancel)
    } else if same(action, "reject") {
        Some(ManualDecision::Decline)
    } else {
        None
    }
}

fn on_card(pressed: &Button, card: &ApprovalCard, active: Option<&str>) -> (r: ButtonStep)
    ensures
        r@ == card_step(
            pressed.action@,
            pressed.card@,
            opt_view(pressed.extra),
            *card,
            opt_str(active),
        ),
{
    let action = pressed.action.as_str();
    let operation = &card.operation;
    let pages = match approval_detail(operation) {
        Ok(p) => p,
        Err(e) => return ButtonStep::Answer(e),
    };
    assert(views(pages@).len() == pages@.len());
    if same(action, "detail") || same(action, "page") {
        let first = same(action, "detail");
        let page: Option<usize> = if first {
            Some(0)
        } else {
            match &pressed.extra {
                Some(s) => match parse_unsigned(s.as_str(), usize::MAX as u64) {
                    Some(n) => Some(n as usize),
                    None => None,
                },
                None => None,
            }
        };
        return match page {
            Some(p) => {
                let reached = match card.highest_viewed_page {
                    Some(h) => p <= h || p - 1 == h,
                    None => false,
                };
                if p < pages.len() && (first || reached) {
                    ButtonStep::Show {
                        page: p,
                        callback: show_page(operation, pressed.card.as_str(), p, first, &pages),
                    }
                } else {
                    ButtonStep::Answer(
                        "このページはまだ開けません。元の確認画面から順番に確認してください。",
                    )
                }
            },
            None => ButtonStep::Answer(
                "このページはまだ開けません。元の確認画面から順番に確認してください。",
            ),
        };
    }
    let decision = match decision_for(action) {
        Some(d) => d,
        None => return ButtonStep::Answer("このボタンは使用できません。"),
    };
    let accepting = same(action, "accept") || same(action, "run");
    if accepting && !DirectCoordinator::answerable(operation) {
        return ButtonStep::Answer(
            "この確認形式には許可を返せません。取り消すか、/stop で作業を中断してください。",
        );
    }
    let complete = match card.highest_viewed_page {
        Some(h) => h == pages.len() - 1,
        None => false,
    };
    if accepting && !complete {
        return ButtonStep::Answer(
            "操作内容の全ページを確認してから許可してください。元の確認画面で「自分だけに表示して確認」を開き、最後のページまで進んでください。",
        );
    }
    if (same(action, "decline") && !DirectCoordinator::declineable(operation)) || (same(
        action,
        "run",
    ) && operation.run_grant_tool().is_none()) || (same(action, "cancel")
        && !DirectCoordinator::cancelable(operation)) || (same(action, "reject") && (
    DirectCoordinator::declineable(operation) || DirectCoordinator::cancelable(operation))) {
        return ButtonStep::Answer(
            "この確認画面の選択肢は現在の要求と一致しません。/status で状態を確認してください。",
        );
    }
    if !some_same(active, card.request_id.as_str()) {
        return ButtonStep::Answer("元の実行は終了しました。この確認は適用していません。");
    }
    let input_generation: u64 = card.input_generation;
    if same(action, "reject") {
        ButtonStep::Send(RunRequest::Reject { input_generation })
    } else if operation.kind == InteractionKind::UserInput || operation.kind
        == InteractionKind::McpElicitation {
        ButtonStep::Send(
            RunRequest::Tool { decision, run_grant: same(action, "run"), input_generation },
        )
    } else {
        ButtonStep::Send(RunRequest::Manual { decision, input_generation })
    }
}

/// What follows from pressing a button of an approval. `card` is the card that the button names,
/// `active` the request that runs in this conversation.
pub fn approval_button(custom: &str, card: Option<&ApprovalCard>, thread: &str, active: Option<&str>) -> (r:
    ButtonStep)
    ensures
        r@ == button_step(
            custom@,
            match card {
                Some(c) => Some(*c),
                None => None,
            },
            thread@,
            opt_str(active),
        ),
{
    let pressed = match read_button(custom) {
        Some(b) => b,
        None => return ButtonStep::Answer(
            "この確認画面は使用できません。/status で作業状態を確認してください。",
        ),
    };
    if same(pressed.action.as_str(), "page") != pressed.extra.is_some() {
        return ButtonStep::Answer(
            "この確認画面のページ指定は使用できません。元の確認を開き直してください。",
        );
    }
    match card {
        Some(c) => {
            if same(c.thread_id.as_str(), thread) {
                on_card(&pressed, c, active)
            } else {
                ButtonStep::Answer("この確認は終了しました。/status で作業状態を確認してください。")
            }
        },
        None => ButtonStep::Answer(
            "この確認は終了しました。/status で作業状態を確認してください。",
        ),
    }
}

/// What the user is told once the run took a decision.
pub open spec fn feedback_text(action: Seq<char>) -> Seq<char> {
    if action == "reject"@ {
        "この確認形式には対応できないため、Codexへ形式未対応エラーを返しました。/status で作業結果を確認してください。"@
    } else if action == "decline"@ {
        "この操作を拒否しました。続きの回答はこの会話に届きます。"@
    } else if action == "cancel"@ {
        "この確認を取り消しました。続きの回答はこの会話に届きます。"@
    } else if action == "run"@ {
        "この依頼中、同じMCPツールの後続呼出しを許可しました。引数が変わる操作も対象です。追加指示・停止・依頼終了で失効します。"@
    } else {
        "この操作だけを許可しました。続きの回答はこの会話に届きます。"@
    }
}

pub fn feedback(action: &str) -> (r: &'static str)
    ensures
        r@ == feedback_text(action@),
{
    if same(action, "reject") {
        "この確認形式には対応できないため、Codexへ形式未対応エラーを返しました。/status で作業結果を確認してください。"
    } else if same(action, "decline") {
        "この操作を拒否しました。続きの回答はこの会話に届きます。"
    } else if same(action, "cancel") {
        "この確認を取り消しました。続きの回答はこの会話に届きます。"
    } else if same(action, "run") {
        "この依頼中、同じMCPツールの後続呼出しを許可しました。引数が変わる操作も対象です。追加指示・停止・依頼終了で失効します。"
    } else {
        "この操作だけを許可しました。続きの回答はこの会話に届きます。"
    }
}

/// What the user is told when the run did not take a decision: whether the card is out of date,
/// still open, or in an unknown state.
pub fn decision_failed(error: &str, state: Option<&str>) -> (r: &'static str)
    ensures
        r@ == if holds(error@, "earlier input generation"@) {
            "追加指示の前の確認画面です。このボタンは使えません。新しい確認が届いた場合は、そちらを開いてください。"@
        } else if opt_str(state) == Some("PENDING"@) {
            "この選択はCodexへ送信されませんでした。元の確認画面はまだ有効です。少し待って開き直すか、拒否または /stop を使ってください。"@
        } else {
            "確認の結果を確定できません。再度押さず、/status で作業状態を確認してください。"@
        },
{
    if contains(error, "earlier input generation") {
        "追加指示の前の確認画面です。このボタンは使えません。新しい確認が届いた場合は、そちらを開いてください。"
    } else if some_same(state, "PENDING") {
        "この選択はCodexへ送信されませんでした。元の確認画面はまだ有効です。少し待って開き直すか、拒否または /stop を使ってください。"
    } else {
        "確認の結果を確定できません。再度押さず、/status で作業状態を確認してください。"
    }
}

} // verus!
