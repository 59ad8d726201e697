//! The loops around the conversations: admission, scheduling, watching runs, controls.
use crate::direct_buttons::ApprovalCard;
use crate::direct_menus::{input_rejection_message, rejection_text};
use crate::config::Limits;
use crate::domain::RequestState;
use crate::json::{Json, JsonView};
use crate::tables::{distinct, stands, Table};
use crate::text::{same, views};
use vstd::prelude::*;
use vstd::string::*;

verus! {

/// How many requests run at once.
pub const MAX_RUNS: usize = 2;

/// How many controls are served at once.
pub const MAX_CONTROLS: usize = 32;

/// What becomes of a message.
#[derive(Debug)]
pub enum AdmitStep {
    Skip,
    /// Tell the user that there is no room.
    Busy { target: String, thread: String },
    Admit,
}

/// The mathematical form of an `AdmitStep`.
pub enum AdmitStepView {
    Skip,
    Busy(Seq<char>, Seq<char>),
    Admit,
}

impl View for AdmitStep {
    type V = AdmitStepView;

    open spec fn view(&self) -> AdmitStepView {
        match self {
            AdmitStep::Skip => AdmitStepView::Skip,
            AdmitStep::Busy { target, thread } => AdmitStepView::Busy(target@, thread@),
            AdmitStep::Admit => AdmitStepView::Admit,
        }
    }
}

/// The message and its channel, where the user sent it in the guild.
pub open spec fn addressee(m: JsonView, guild: Seq<char>, user: Seq<char>) -> Option<
    (Seq<char>, Seq<char>),
> {
    if m.at("guild_id"@).says(guild) && m.at("author"@).at("id"@).says(user) && m.at(
        "channel_id"@,
    ).text() is Some && m.at("id"@).text() is Some {
        Some((m.at("id"@).text()->0, m.at("channel_id"@).text()->0))
    } else {
        None
    }
}

fn find_addressee(m: &Json, guild: &str, user: &str) -> (r: Option<(String, String)>)
    ensures
        match addressee(m@, guild@, user@) {
            Some((id, thread)) => r is Some && (r->0).0@ == id && (r->0).1@ == thread,
            None => r is None,
        },
{
    if !(m.at("guild_id").is_text(guild) && m.at("author").at("id").is_text(user)) {
        return None;
    }
    match (m.at("channel_id").as_str(), m.at("id").as_str()) {
        (Some(thread), Some(id)) => Some((id.to_owned(), thread.to_owned())),
        _ => None,
    }
}

/// What becomes of a message while so many are being taken in.
pub open spec fn admission_step(
    m: JsonView,
    connected: bool,
    workers: nat,
    room: nat,
    guild: Seq<char>,
    user: Seq<char>,
) -> AdmitStepView {
    if !connected {
        AdmitStepView::Skip
    } else if workers < room {
        AdmitStepView::Admit
    } else {
        match addressee(m, guild, user) {
            Some((id, thread)) => AdmitStepView::Busy(id, thread),
            None => AdmitStepView::Skip,
        }
    }
}

/// What becomes of a message while so many are being taken in.
pub fn admit_loop(
    message: &Json,
    connected: bool,
    workers: usize,
    limits: &Limits,
    guild: &str,
    user: &str,
) -> (r: AdmitStep)
    ensures
        r@ == admission_step(
            message@,
            connected,
            workers as nat,
            limits.queue_global as nat,
            guild@,
            user@,
        ),
{
    if !connected {
        return AdmitStep::Skip;
    }
    if workers < limits.queue_global {
        return AdmitStep::Admit;
    }
    match find_addressee(message, guild, user) {
        Some((target, thread)) => AdmitStep::Busy { target, thread },
        None => AdmitStep::Skip,
    }
}

/// What the user is told when there is no room.
pub fn busy_notice() -> (r: &'static str)
    ensures
        r@
            == "受付処理が混み合っています。この投稿はAIへ送っていません。少し待ってから新しい投稿で依頼してください。"@,
{
    "受付処理が混み合っています。この投稿はAIへ送っていません。少し待ってから新しい投稿で依頼してください。"
}

/// What the user is told of an accepted request that does not start.
pub fn accepted_notice(blocked: bool, paused: bool) -> (r: Option<&'static str>)
    ensures
        blocked ==> r is Some && r->0@
            == "前の作業の結果を確認できず、この依頼はまだCodexへ送っていません。/recover で内容を確認して会話を復旧できます。復旧時に未送信依頼は取り消されるため、必要な指示を改めて投稿してください。"@,
        !blocked && paused ==> r is Some && r->0@
            == "受け付けました。待機列は停止中です。/resume で再開、/cancel でこの待機依頼を取り消せます。"@,
        !blocked && !paused ==> r is None,
{
    if blocked {
        Some(
            "前の作業の結果を確認できず、この依頼はまだCodexへ送っていません。/recover で内容を確認して会話を復旧できます。復旧時に未送信依頼は取り消されるため、必要な指示を改めて投稿してください。",
        )
    } else if paused {
        Some(
            "受け付けました。待機列は停止中です。/resume で再開、/cancel でこの待機依頼を取り消せます。",
        )
    } else {
        None
    }
}

/// A text for a message in a channel.
#[derive(Debug)]
pub struct Notice {
    pub target: String,
    pub thread: String,
    pub text: String,
}

/// What the user is told of a message that could not be taken in. Nobody else is told anything.
pub fn refused_notice(message: &Json, guild: &str, user: &str, reason: &str, limits: &Limits) -> (r:
    Option<Notice>)
    ensures
        match addressee(message@, guild@, user@) {
            Some((id, thread)) => {
                &&& r is Some
                &&& r->0.target@ == id
                &&& r->0.thread@ == thread
                &&& r->0.text@ == rejection_text(reason@, *limits)
            },
            None => r is None,
        },
{
    match find_addressee(message, guild, user) {
        Some((target, thread)) => Some(
            Notice { target, thread, text: input_rejection_message(reason, limits) },
        ),
        None => None,
    }
}

/// The requests among the first `n` that start, given those that run and the room that is left.
pub open spec fn chosen(candidates: Seq<Seq<char>>, busy: Set<Seq<char>>, room: nat, n: nat) -> Seq<
    Seq<char>,
>
    decreases n,
{
    if n == 0 || n > candidates.len() {
        Seq::empty()
    } else {
        let before = chosen(candidates, busy, room, (n - 1) as nat);
        let id = candidates[n - 1];
        if before.len() >= room || busy.contains(id) || before.contains(id) {
            before
        } else {
            before.push(id)
        }
    }
}

/// The room that is left.
pub open spec fn room_left(jobs: nat) -> nat {
    if jobs >= MAX_RUNS {
        0
    } else {
        (MAX_RUNS - jobs) as nat
    }
}

/// At most two requests run at once, none of them twice, and the older comes first.
pub proof fn at_most_two_at_once(candidates: Seq<Seq<char>>, busy: Set<Seq<char>>, jobs: nat)
    requires
        jobs <= MAX_RUNS,
    ensures
        jobs + chosen(candidates, busy, room_left(jobs), candidates.len()).len() <= MAX_RUNS,
        chosen(candidates, busy, room_left(jobs), candidates.len()).no_duplicates(),
        forall|i: int|
            0 <= i < chosen(candidates, busy, room_left(jobs), candidates.len()).len()
                ==> !busy.contains(
                #[trigger] chosen(candidates, busy, room_left(jobs), candidates.len())[i],
            ),
{
    lemma_chosen(candidates, busy, room_left(jobs), candidates.len());
}

proof fn lemma_chosen(candidates: Seq<Seq<char>>, busy: Set<Seq<char>>, room: nat, n: nat)
    ensures
        chosen(candidates, busy, room, n).len() <= room,
        chosen(candidates, busy, room, n).no_duplicates(),
        forall|i: int|
            0 <= i < chosen(candidates, busy, room, n).len() ==> !busy.contains(
                #[trigger] chosen(candidates, busy, room, n)[i],
            ),
    decreases n,
{
    if n > 0 && n <= candidates.len() {
        lemma_chosen(candidates, busy, room, (n - 1) as nat);
    }
}

/// Which of the waiting requests start now. They count as running from here on.
pub fn scheduler_loop(
    candidates: &Vec<String>,
    busy: &mut Table<bool>,
    jobs: usize,
    connected: bool,
) -> (r: Vec<String>)
    requires
        old(busy).wf(),
    ensures
        final(busy).wf(),
        !connected ==> r@.len() == 0 && final(busy).map() == old(busy).map(),
        connected ==> {
            &&& views(r@) == chosen(
                views(candidates@),
                old(busy).map().dom(),
                room_left(jobs as nat),
                candidates@.len(),
            )
            &&& final(busy).map().dom() == old(busy).map().dom().union(views(r@).to_set())
        },
{
    let mut r: Vec<String> = Vec::new();
    if !connected {
        return r;
    }
    let ghost all = views(candidates@);
    let ghost first = busy.map().dom();
    let room: usize = if jobs >= MAX_RUNS { 0 } else { MAX_RUNS - jobs };
    let mut i: usize = 0;
    assert(views(r@) =~= Seq::<Seq<char>>::empty());
    assert(busy.map().dom() =~= first.union(views(r@).to_set()));
    while i < candidates.len()
        invariant
            i <= candidates@.len(),
            all == views(candidates@),
            busy.wf(),
            room == room_left(jobs as nat),
            views(r@) == chosen(all, first, room as nat, i as nat),
            busy.map().dom() == first.union(views(r@).to_set()),
        decreases candidates@.len() - i,
    {
        assert(all[i as int] == candidates@[i as int]@);
        let ghost before = views(r@);
        assert(before.len() == r@.len());
        let id = candidates[i].as_str();
        assert(before.to_set().contains(id@) == before.contains(id@));
        if r.len() < room && !busy.holds(id) {
            busy.insert(id, true);
            r.push(id.to_owned());
            assert(views(r@) =~= before.push(id@));
            assert(before.push(id@).to_set() =~= before.to_set().insert(id@)) by {
                assert(before.push(id@)[before.len() as int] == id@);
                assert forall|x: Seq<char>| before.to_set().insert(id@).contains(x) implies
                    #[trigger] before.push(id@).to_set().contains(x) by {
                    if x != id@ {
                        let k = choose|k: int| 0 <= k < before.len() && before[k] == x;
                        assert(before.push(id@)[k] == x);
                    }
                }
                assert forall|x: Seq<char>| #[trigger] before.push(id@).to_set().contains(x) implies
                    before.to_set().insert(id@).contains(x) by {
                    let k = choose|k: int|
                        0 <= k < before.push(id@).len() && before.push(id@)[k] == x;
                    if k < before.len() {
                        assert(before[k] == x);
                    }
                }
            }
            assert(busy.map().dom() =~= first.union(views(r@).to_set()));
        }
        i += 1;
    }
    r
}

/// Whether a card is open in a conversation.
pub open spec fn deciding(cards: Map<Seq<char>, ApprovalCard>, thread: Seq<char>) -> bool {
    exists|id: Seq<char>| #[trigger] cards.contains_key(id) && cards[id].thread_id@ == thread
}

fn is_deciding(cards: &Table<ApprovalCard>, thread: &str) -> (r: bool)
    requires
        cards.wf(),
    ensures
        r == deciding(cards.map(), thread@),
{
    proof {
        cards.lemma_entries();
    }
    let mut i: usize = 0;
    while i < cards.entries.len()
        invariant
            i <= cards.entries@.len(),
            cards.wf(),
            forall|k: int|
                0 <= k < i ==> (#[trigger] cards.entries@[k]).1.thread_id@ != thread@,
            forall|k: int|
                0 <= k < cards.entries@.len() ==> cards.map().contains_key(
                    (#[trigger] cards.entries@[k]).0@,
                ) && cards.map()[cards.entries@[k].0@] == cards.entries@[k].1,
            forall|id: Seq<char>| #[trigger]
                cards.map().contains_key(id) ==> stands(cards.entries@, id),
        decreases cards.entries@.len() - i,
    {
        if same(cards.entries[i].1.thread_id.as_str(), thread) {
            assert(cards.map().contains_key(cards.entries@[i as int].0@));
            return true;
        }
        i += 1;
    }
    proof {
        if deciding(cards.map(), thread@) {
            let id = choose|id: Seq<char>| #[trigger]
                cards.map().contains_key(id) && cards.map()[id].thread_id@ == thread@;
            assert(stands(cards.entries@, id));
            let k = choose|k: int|
                0 <= k < cards.entries@.len() && (#[trigger] cards.entries@[k]).0@ == id;
            assert(cards.map()[cards.entries@[k].0@] == cards.entries@[k].1);
        }
    }
    false
}

/// The conversations among the first `n` in which no decision is awaited.
pub open spec fn typing(active: Seq<Seq<char>>, cards: Map<Seq<char>, ApprovalCard>, n: nat) -> Seq<
    Seq<char>,
>
    decreases n,
{
    if n == 0 || n > active.len() {
        Seq::empty()
    } else {
        let before = typing(active, cards, (n - 1) as nat);
        if deciding(cards, active[n - 1]) {
            before
        } else {
            before.push(active[n - 1])
        }
    }
}

/// The conversations that show that something is being written: those with a run, unless it waits
/// for the user's decision.
pub fn typing_loop(active: &Vec<String>, cards: &Table<ApprovalCard>, connected: bool) -> (r: Vec<
    String,
>)
    requires
        cards.wf(),
    ensures
        views(r@) == if connected {
            typing(views(active@), cards.map(), active@.len())
        } else {
            Seq::empty()
        },
{
    let mut r: Vec<String> = Vec::new();
    assert(views(r@) =~= Seq::<Seq<char>>::empty());
    if !connected {
        return r;
    }
    let ghost all = views(active@);
    let mut i: usize = 0;
    while i < active.len()
        invariant
            i <= active@.len(),
            all == views(active@),
            cards.wf(),
            views(r@) == typing(all, cards.map(), i as nat),
        decreases active@.len() - i,
    {
        assert(all[i as int] == active@[i as int]@);
        if !is_deciding(cards, active[i].as_str()) {
            let ghost before = views(r@);
            r.push(active[i].clone());
            assert(views(r@) =~= before.push(all[i as int]));
        }
        i += 1;
    }
    r
}

/// What is stored and told when a request could not be started.
pub fn start_failed(state: RequestState) -> (r: Option<(&'static str, &'static str)>)
    ensures
        match r {
            Some((reason, said)) => state == RequestState::Queued && reason@
                == "direct_pre_send_failed"@ && said@
                == "依頼の入力確認またはCodexの開始準備に失敗しました。この依頼をAIへ送信していません。内容と接続を確認して、新しい投稿で依頼してください。"@,
            None => state != RequestState::Queued,
        },
{
    if state == RequestState::Queued {
        Some(
            (
                "direct_pre_send_failed",
                "依頼の入力確認またはCodexの開始準備に失敗しました。この依頼をAIへ送信していません。内容と接続を確認して、新しい投稿で依頼してください。",
            ),
        )
    } else {
        None
    }
}

/// What a run tells the coordinator, apart from a new card.
#[derive(Debug)]
pub enum RunNews {
    ApprovalResolved(String),
    ApprovalInvalidated(u64),
    UnsupportedApproval,
    Terminal,
    DeliveryPending,
    ResultUnknown(String),
}

/// A card to close: its identity and conversation.
#[derive(Debug)]
pub struct ClosedCard {
    pub id: String,
    pub thread: String,
}

/// What the coordinator does with news of a run: the cards to close with a text, a notice for the
/// user, and whether the run is over.
#[derive(Debug)]
pub struct DriveStep {
    pub closed: Vec<ClosedCard>,
    pub closing: &'static str,
    pub notice: Option<&'static str>,
    pub over: bool,
}

/// The text of a card that is over.
pub open spec fn closing_text(news: RunNews) -> Seq<char> {
    match news {
        RunNews::ApprovalInvalidated(
            _,
        ) => "追加指示を受けたため、この確認は終了しました。新しい確認が届いた場合は、そちらを開いてください。"@,
        _ => "このMCP承認・入力は終了しました。"@,
    }
}

/// What the user is told of news.
pub open spec fn news_notice(news: RunNews) -> Option<Seq<char>> {
    match news {
        RunNews::UnsupportedApproval => Some(
            "Codexから未対応の確認形式が届いたため、その要求には形式未対応を返しました。続く回答を待ってください。/status で作業状態を確認できます。AIは再実行していません。"@,
        ),
        RunNews::DeliveryPending => Some(
            "回答は保存されましたが、Discordへの配信を確認できません。/status で状態を確認してください。AIは再実行しません。"@,
        ),
        RunNews::ResultUnknown(reason) => if reason@ == "terminal_content_unavailable"@ {
            Some(
                "Codexの作業終了は確認できましたが、回答や成果物の取得を確定できません。新しい依頼は保留します。/status で状態を確認し、運用者に復旧を依頼してください。AIは再実行していません。"@,
            )
        } else {
            Some(
                "作業の状態を確認できず、新しい依頼は保留します。/status で確認し、必要なら /stop で待機列を止めてください。運用者による復旧が必要です。AIは再実行していません。"@,
            )
        },
        _ => None,
    }
}

/// Whether a run is over with news.
pub open spec fn run_over(news: RunNews) -> bool {
    news is Terminal || news is DeliveryPending || news is ResultUnknown
}

/// Whether news closes a card of a request.
pub open spec fn closes(news: RunNews, request: Seq<char>, id: Seq<char>, card: ApprovalCard) -> bool {
    match news {
        RunNews::ApprovalResolved(x) => id == x@,
        RunNews::ApprovalInvalidated(generation) => card.request_id@ == request
            && card.input_generation < generation,
        _ => false,
    }
}

/// Whether a list names exactly the cards of a table that a rule closes.
pub open spec fn names_closed(
    list: Seq<ClosedCard>,
    cards: Map<Seq<char>, ApprovalCard>,
    rule: spec_fn(Seq<char>, ApprovalCard) -> bool,
) -> bool {
    &&& forall|i: int|
        0 <= i < list.len() ==> cards.contains_key((#[trigger] list[i]).id@) && rule(
            list[i].id@,
            cards[list[i].id@],
        ) && list[i].thread@ == cards[list[i].id@].thread_id@
    &&& forall|id: Seq<char>| #[trigger]
        cards.contains_key(id) && rule(id, cards[id]) ==> exists|i: int|
            0 <= i < list.len() && (#[trigger] list[i]).id@ == id
    &&& forall|i: int, j: int| 0 <= i < j < list.len() ==> (#[trigger] list[i]).id@ != (
    #[trigger] list[j]).id@
}

/// The cards that stay.
pub open spec fn kept_cards(
    cards: Map<Seq<char>, ApprovalCard>,
    rule: spec_fn(Seq<char>, ApprovalCard) -> bool,
) -> Map<Seq<char>, ApprovalCard> {
    Map::new(
        |id: Seq<char>| cards.contains_key(id) && !rule(id, cards[id]),
        |id: Seq<char>| cards[id],
    )
}

/// Takes the cards of a request out of a table: all of them, or those before a generation.
fn take_cards(cards: &mut Table<ApprovalCard>, request: &str, before: Option<u64>) -> (r: Vec<
    ClosedCard,
>)
    requires
        old(cards).wf(),
    ensures
        final(cards).wf(),
        names_closed(
            r@,
            old(cards).map(),
            |id: Seq<char>, c: ApprovalCard|
                c.request_id@ == request@ && (before is None || c.input_generation < before->0),
        ),
        final(cards).map() == kept_cards(
            old(cards).map(),
            |id: Seq<char>, c: ApprovalCard|
                c.request_id@ == request@ && (before is None || c.input_generation < before->0),
        ),
{
    let ghost rule = |id: Seq<char>, c: ApprovalCard|
        c.request_id@ == request@ && (before is None || c.input_generation < before->0);
    let ghost first = cards.map();
    let ghost entries = cards.entries@;
    proof {
        cards.lemma_entries();
    }
    let mut r: Vec<ClosedCard> = Vec::new();
    let mut i: usize = 0;
    while i < cards.entries.len()
        invariant
            i <= cards.entries@.len(),
            cards.entries@ == entries,
            cards.wf(),
            distinct(entries),
            first == cards.map(),
            rule == (|id: Seq<char>, c: ApprovalCard|
                c.request_id@ == request@ && (before is None || c.input_generation < before->0)),
            forall|k: int|
                0 <= k < entries.len() ==> first.contains_key((#[trigger] entries[k]).0@)
                    && first[entries[k].0@] == entries[k].1,
            forall|k: int|
                0 <= k < r@.len() ==> first.contains_key((#[trigger] r@[k]).id@) && rule(
                    r@[k].id@,
                    first[r@[k].id@],
                ) && r@[k].thread@ == first[r@[k].id@].thread_id@,
            forall|k: int, l: int|
                0 <= k < r@.len() && i <= l < entries.len() ==> (#[trigger] r@[k]).id@ != (
                #[trigger] entries[l]).0@,
            forall|k: int, l: int|
                0 <= k < l < r@.len() ==> (#[trigger] r@[k]).id@ != (#[trigger] r@[l]).id@,
            forall|k: int|
                0 <= k < i && rule((#[trigger] entries[k]).0@, entries[k].1) ==> exists|l: int|
                    0 <= l < r@.len() && (#[trigger] r@[l]).id@ == entries[k].0@,
        decreases cards.entries@.len() - i,
    {
        let early = match before {
            None => true,
            Some(g) => cards.entries[i].1.input_generation < g,
        };
        let ghost list = r@;
        if same(cards.entries[i].1.request_id.as_str(), request) && early {
            assert(rule(entries[i as int].0@, entries[i as int].1));
            r.push(
                ClosedCard {
                    id: cards.entries[i].0.clone(),
                    thread: cards.entries[i].1.thread_id.clone(),
                },
            );
            assert forall|k: int|
                0 <= k <= i && rule((#[trigger] entries[k]).0@, entries[k].1) implies exists|l: int|
                0 <= l < r@.len() && (#[trigger] r@[l]).id@ == entries[k].0@ by {
                if k < i {
                    let l = choose|l: int|
                        0 <= l < list.len() && (#[trigger] list[l]).id@ == entries[k].0@;
                    assert(r@[l].id@ == entries[k].0@);
                } else {
                    assert(r@[list.len() as int].id@ == entries[k].0@);
                }
            }
            assert forall|k: int, l: int|
                0 <= k < r@.len() && i < l < entries.len() implies (#[trigger] r@[k]).id@ != (
            #[trigger] entries[l]).0@ by {
                if k < list.len() {
                    assert(r@[k] == list[k]);
                } else {
                    assert(entries[i as int].0@ != entries[l].0@);
                }
            }
            assert forall|k: int, l: int| 0 <= k < l < r@.len() implies (#[trigger] r@[k]).id@ != (
            #[trigger] r@[l]).id@ by {
                assert(r@[k] == list[k]);
                if l == list.len() {
                    assert(list[k].id@ != entries[i as int].0@);
                }
            }
        }
        i += 1;
    }
    assert(names_closed(r@, first, rule)) by {
        assert forall|id: Seq<char>| #[trigger]
            first.contains_key(id) && rule(id, first[id]) implies exists|k: int|
            0 <= k < r@.len() && (#[trigger] r@[k]).id@ == id by {
            assert(stands(entries, id));
            let e = choose|e: int| 0 <= e < entries.len() && (#[trigger] entries[e]).0@ == id;
            assert(rule(entries[e].0@, entries[e].1));
        }
    }
    let mut j: usize = 0;
    while j < r.len()
        invariant
            j <= r@.len(),
            cards.wf(),
            names_closed(r@, first, rule),
            forall|id: Seq<char>| #[trigger]
                cards.map().contains_key(id) <==> first.contains_key(id) && !exists|k: int|
                    0 <= k < j && (#[trigger] r@[k]).id@ == id,
            forall|id: Seq<char>| #[trigger] cards.map().contains_key(id) ==> cards.map()[id] == first[id],
        decreases r@.len() - j,
    {
        let ghost now = cards.map();
        let _ = cards.remove(r[j].id.as_str());
        assert forall|id: Seq<char>| #[trigger]
            cards.map().contains_key(id) <==> first.contains_key(id) && !exists|k: int|
                0 <= k < j + 1 && (#[trigger] r@[k]).id@ == id by {
            if id == r@[j as int].id@ {
            } else {
                assert(cards.map().contains_key(id) == now.contains_key(id));
            }
        }
        j += 1;
    }
    assert(cards.map() =~= kept_cards(first, rule));
    r
}

/// What the coordinator does with news of a run of a request.
pub fn drive(news: &RunNews, request: &str, cards: &mut Table<ApprovalCard>) -> (r: DriveStep)
    requires
        old(cards).wf(),
    ensures
        final(cards).wf(),
        r.closing@ == closing_text(*news),
        r.over == run_over(*news),
        match news_notice(*news) {
            Some(s) => r.notice is Some && r.notice->0@ == s,
            None => r.notice is None,
        },
        names_closed(
            r.closed@,
            old(cards).map(),
            |id: Seq<char>, c: ApprovalCard| closes(*news, request@, id, c),
        ),
        final(cards).map() == kept_cards(
            old(cards).map(),
            |id: Seq<char>, c: ApprovalCard| closes(*news, request@, id, c),
        ),
{
    let ghost rule = |id: Seq<char>, c: ApprovalCard| closes(*news, request@, id, c);
    let ghost first = cards.map();
    let mut closed: Vec<ClosedCard> = Vec::new();
    let mut closing = "このMCP承認・入力は終了しました。";
    let mut notice: Option<&'static str> = None;
    let mut over = false;
    match news {
        RunNews::ApprovalResolved(id) => {
            if let Some(card) = cards.remove(id.as_str()) {
                closed.push(ClosedCard { id: id.clone(), thread: card.thread_id });
            }
            assert(cards.map() =~= kept_cards(first, rule));
            assert(names_closed(closed@, first, rule)) by {
                if first.contains_key(id@) {
                    assert(closed@[0].id@ == id@);
                }
            }
        },
        RunNews::ApprovalInvalidated(generation) => {
            closing = "追加指示を受けたため、この確認は終了しました。新しい確認が届いた場合は、そちらを開いてください。";
            closed = take_cards(cards, request, Some(*generation));
            let ghost taken = |id: Seq<char>, c: ApprovalCard|
                c.request_id@ == request@ && (Some(*generation) is None || c.input_generation < Some(
                    *generation,
                )->0);
            assert(cards.map() =~= kept_cards(first, rule));
            assert(names_closed(closed@, first, rule)) by {
                assert forall|id: Seq<char>| #[trigger]
                    first.contains_key(id) && rule(id, first[id]) implies exists|i: int|
                    0 <= i < closed@.len() && (#[trigger] closed@[i]).id@ == id by {
                    assert(taken(id, first[id]));
                }
            }
        },
        RunNews::UnsupportedApproval => {
            notice = Some(
                "Codexから未対応の確認形式が届いたため、その要求には形式未対応を返しました。続く回答を待ってください。/status で作業状態を確認できます。AIは再実行していません。",
            );
        },
        RunNews::Terminal => {
            over = true;
        },
        RunNews::DeliveryPending => {
            notice = Some(
                "回答は保存されましたが、Discordへの配信を確認できません。/status で状態を確認してください。AIは再実行しません。",
            );
            over = true;
        },
        RunNews::ResultUnknown(reason) => {
            notice = if same(reason.as_str(), "terminal_content_unavailable") {
                Some(
                    "Codexの作業終了は確認できましたが、回答や成果物の取得を確定できません。新しい依頼は保留します。/status で状態を確認し、運用者に復旧を依頼してください。AIは再実行していません。",
                )
            } else {
                Some(
                    "作業の状態を確認できず、新しい依頼は保留します。/status で確認し、必要なら /stop で待機列を止めてください。運用者による復旧が必要です。AIは再実行していません。",
                )
            };
            over = true;
        },
    }
    assert(cards.map() =~= kept_cards(first, rule));
    DriveStep { closed, closing, notice, over }
}

/// The cards that a request leaves open when its run is over; all of them are closed.
pub fn leftover_cards(request: &str, cards: &mut Table<ApprovalCard>) -> (r: Vec<ClosedCard>)
    requires
        old(cards).wf(),
    ensures
        final(cards).wf(),
        names_closed(
            r@,
            old(cards).map(),
            |id: Seq<char>, c: ApprovalCard| c.request_id@ == request@,
        ),
        final(cards).map() == kept_cards(
            old(cards).map(),
            |id: Seq<char>, c: ApprovalCard| c.request_id@ == request@,
        ),
{
    let ghost rule = |id: Seq<char>, c: ApprovalCard| c.request_id@ == request@;
    let ghost first = cards.map();
    let r = take_cards(cards, request, None);
    let ghost none: Option<u64> = None;
    let ghost taken = |id: Seq<char>, c: ApprovalCard|
        c.request_id@ == request@ && (none is None || c.input_generation < none->0);
    assert(cards.map() =~= kept_cards(first, rule));
    assert(names_closed(r@, first, rule)) by {
        assert forall|id: Seq<char>| #[trigger]
            first.contains_key(id) && rule(id, first[id]) implies exists|i: int|
            0 <= i < r@.len() && (#[trigger] r@[i]).id@ == id by {
            assert(taken(id, first[id]));
        }
    }
    r
}

/// The reason to store when watching a run failed: its outcome is then unknown.
pub fn watch_failed(failed: bool, state: RequestState) -> (r: Option<&'static str>)
    ensures
        match r {
            Some(reason) => failed && (state == RequestState::Sending || state
                == RequestState::Running || state == RequestState::ApprovalRequired || state
                == RequestState::CancelRequested) && reason@ == "direct_actor_failed"@,
            None => !failed || !(state == RequestState::Sending || state == RequestState::Running
                || state == RequestState::ApprovalRequired || state
                == RequestState::CancelRequested),
        },
{
    if failed && (state == RequestState::Sending || state == RequestState::Running || state
        == RequestState::ApprovalRequired || state == RequestState::CancelRequested) {
        Some("direct_actor_failed")
    } else {
        None
    }
}

/// What Discord tells the control loop.
#[derive(Clone, Copy, Debug, PartialEq, Eq, Structural)]
pub enum Signal {
    Connected,
    Reconnected,
    Interaction,
    Message,
    Closed,
}

/// What the control loop does.
#[derive(Clone, Copy, Debug, PartialEq, Eq, Structural)]
pub enum ControlStep {
    /// Register the commands; requests are served from then on.
    Register,
    /// Look up the bot's own identity; requests are served from then on.
    Identify,
    Serve,
    Skip,
}

pub fn control_loop(signal: Signal, workers: usize) -> (r: Result<ControlStep, &'static str>)
    ensures
        match signal {
            Signal::Connected => r == Ok::<ControlStep, &'static str>(ControlStep::Register),
            Signal::Reconnected => r == Ok::<ControlStep, &'static str>(ControlStep::Identify),
            Signal::Interaction => r == Ok::<ControlStep, &'static str>(
                if workers < MAX_CONTROLS {
                    ControlStep::Serve
                } else {
                    ControlStep::Skip
                },
            ),
            Signal::Message => r == Ok::<ControlStep, &'static str>(ControlStep::Skip),
            Signal::Closed => r is Err && r->Err_0@ == "Discord control channel closed"@,
        },
{
    match signal {
        Signal::Connected => Ok(ControlStep::Register),
        Signal::Reconnected => Ok(ControlStep::Identify),
        Signal::Interaction => {
            if workers < MAX_CONTROLS {
                Ok(ControlStep::Serve)
            } else {
                Ok(ControlStep::Skip)
            }
        },
        Signal::Message => Ok(ControlStep::Skip),
        Signal::Closed => Err("Discord control channel closed"),
    }
}

} // verus!
