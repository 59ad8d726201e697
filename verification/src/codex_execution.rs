//! The operations of the Codex app server: what each sends, and what each answer must confirm.
use crate::codex_transport::{TransportError, TransportErrorView};
use crate::json::{
    array, array1, copies, object2, object3, object4, object5, object6, text, trees, Json, JsonView,
};
use crate::text::{opt_str, opt_view, same, some_same, views};
use vstd::prelude::*;

verus! {

/// How a turn is executed.
#[derive(Debug)]
pub struct ExecutionOptions {
    pub cwd: String,
    pub model: String,
    pub model_provider: String,
    pub sandbox: String,
    pub approval_policy: String,
    pub network_access: bool,
}

/// One turn of one Codex thread.
#[derive(Debug, PartialEq, Eq)]
pub struct TurnIdentity {
    pub thread_id: String,
    pub turn_id: String,
}

impl TurnIdentity {
    /// A copy of the identity.
    pub fn copy(&self) -> (r: TurnIdentity)
        ensures
            r.thread_id@ == self.thread_id@,
            r.turn_id@ == self.turn_id@,
    {
        TurnIdentity { thread_id: self.thread_id.clone(), turn_id: self.turn_id.clone() }
    }
}

/// What was read of a turn.
#[derive(Debug)]
pub struct TurnSnapshot {
    pub identity: TurnIdentity,
    pub status: String,
    pub final_text: Option<String>,
    pub items_view_full: bool,
    pub items: Vec<Json>,
}

/// The identity that an answer reports under `outer`.
pub open spec fn reported(result: JsonView, outer: Seq<char>) -> Option<Seq<char>> {
    result.at(outer).at("id"@).text()
}

/// The sandbox that a turn runs in, for the policies that exist.
pub open spec fn sandbox_policy(options: ExecutionOptions) -> Option<JsonView> {
    if options.sandbox@ == "workspace-write"@ {
        Some(
            JsonView::Object(
                seq![
                    ("networkAccess"@, JsonView::Bool(options.network_access)),
                    ("type"@, JsonView::Text("workspaceWrite"@)),
                    ("writableRoots"@, JsonView::Array(seq![JsonView::Text(options.cwd@)])),
                ],
            ),
        )
    } else if options.sandbox@ == "read-only"@ {
        Some(
            JsonView::Object(
                seq![
                    ("networkAccess"@, JsonView::Bool(options.network_access)),
                    ("type"@, JsonView::Text("readOnly"@)),
                ],
            ),
        )
    } else {
        None
    }
}

/// Whether an item is an agent message that belongs to the answer and holds text.
pub open spec fn answer_item(item: JsonView) -> bool {
    item.at("type"@).says("agentMessage"@) && !item.at("phase"@).says("commentary"@) && item.at(
        "text"@,
    ) is Text
}

/// The text of the last answer item among the first `n`.
pub open spec fn last_answer(items: Seq<JsonView>, n: nat) -> Option<Seq<char>>
    decreases n,
{
    if n == 0 || n > items.len() {
        None
    } else if answer_item(items[n - 1]) {
        items[n - 1].at("text"@).text()
    } else {
        last_answer(items, (n - 1) as nat)
    }
}

/// Position of the first turn with an identity, or the number of turns.
pub open spec fn turn_position(turns: Seq<JsonView>, id: Seq<char>, from: nat) -> nat
    decreases turns.len() - from,
{
    if from >= turns.len() {
        turns.len()
    } else if turns[from as int].at("id"@).says(id) {
        from
    } else {
        turn_position(turns, id, from + 1)
    }
}

/// What an answer to `thread/read` says of a turn.
pub open spec fn turn_read(result: JsonView, thread: Seq<char>, turn: Seq<char>) -> Result<
    JsonView,
    TransportErrorView,
> {
    if reported(result, "thread"@) != Some(thread) {
        Err(TransportErrorView::Protocol("thread/read identity mismatch"@))
    } else {
        match result.at("thread"@).at("turns"@).array() {
            None => Err(TransportErrorView::Protocol("thread/read has no turns"@)),
            Some(turns) => {
                let at = turn_position(turns, turn, 0);
                if at >= turns.len() {
                    Err(TransportErrorView::ResultUnknown("turn absent from thread/read"@))
                } else if turns[at as int].at("status"@).text() is None {
                    Err(TransportErrorView::Protocol("turn status absent"@))
                } else if turns[at as int].at("items"@).array() is None {
                    Err(TransportErrorView::Protocol("turn items absent"@))
                } else {
                    Ok(turns[at as int])
                }
            },
        }
    }
}

/// The operations of the app server.
pub struct CodexExecution;

impl CodexExecution {
    /// Parameters of `thread/start`.
    pub fn start_thread(options: &ExecutionOptions) -> (r: Json)
        ensures
            r@ == JsonView::Object(
                seq![
                    ("approvalPolicy"@, JsonView::Text(options.approval_policy@)),
                    ("cwd"@, JsonView::Text(options.cwd@)),
                    ("model"@, JsonView::Text(options.model@)),
                    ("modelProvider"@, JsonView::Text(options.model_provider@)),
                    ("sandbox"@, JsonView::Text(options.sandbox@)),
                ],
            ),
    {
        object5(
            "approvalPolicy",
            text(options.approval_policy.as_str()),
            "cwd",
            text(options.cwd.as_str()),
            "model",
            text(options.model.as_str()),
            "modelProvider",
            text(options.model_provider.as_str()),
            "sandbox",
            text(options.sandbox.as_str()),
        )
    }

    /// The thread that `thread/start` created.
    pub fn thread_started(result: &Json) -> (r: Result<String, TransportError>)
        ensures
            match reported(result@, "thread"@) {
                Some(id) => r is Ok && r->Ok_0@ == id,
                None => r is Err && r->Err_0@ == TransportErrorView::ResultUnknown(
                    "thread/start response has no thread ID"@,
                ),
            },
    {
        match result.at("thread").at("id").as_str() {
            Some(id) => Ok(id.to_owned()),
            None => Err(TransportError::result_unknown("thread/start response has no thread ID")),
        }
    }

    /// Parameters of `thread/resume`.
    pub fn resume_thread(thread_id: &str, options: &ExecutionOptions) -> (r: Json)
        ensures
            r@ == JsonView::Object(
                seq![
                    ("cwd"@, JsonView::Text(options.cwd@)),
                    ("model"@, JsonView::Text(options.model@)),
                    ("modelProvider"@, JsonView::Text(options.model_provider@)),
                    ("threadId"@, JsonView::Text(thread_id@)),
                ],
            ),
    {
        object4(
            "cwd",
            text(options.cwd.as_str()),
            "model",
            text(options.model.as_str()),
            "modelProvider",
            text(options.model_provider.as_str()),
            "threadId",
            text(thread_id),
        )
    }

    /// `thread/resume` must report the thread that was asked for.
    pub fn thread_resumed(result: &Json, thread_id: &str) -> (r: Result<(), TransportError>)
        ensures
            r is Ok <==> reported(result@, "thread"@) == Some(thread_id@),
            r is Err ==> r->Err_0@ == TransportErrorView::ResultUnknown(
                "thread/resume returned a different thread"@,
            ),
    {
        if some_same(result.at("thread").at("id").as_str(), thread_id) {
            Ok(())
        } else {
            Err(TransportError::result_unknown("thread/resume returned a different thread"))
        }
    }

    /// Parameters of `turn/start`. Nothing is sent without input or under an unknown sandbox.
    pub fn start_turn(thread_id: &str, options: &ExecutionOptions, input: Vec<Json>) -> (r: Result<
        Json,
        TransportError,
    >)
        ensures
            input@.len() == 0 ==> r is Err && r->Err_0@ == TransportErrorView::NotSent(
                "empty turn input"@,
            ),
            input@.len() > 0 && sandbox_policy(*options) is None ==> r is Err && r->Err_0@
                == TransportErrorView::NotSent("invalid sandbox policy"@),
            input@.len() > 0 && sandbox_policy(*options) is Some ==> r is Ok && r->Ok_0@
                == JsonView::Object(
                seq![
                    ("approvalPolicy"@, JsonView::Text(options.approval_policy@)),
                    ("cwd"@, JsonView::Text(options.cwd@)),
                    ("input"@, JsonView::Array(trees(input@))),
                    ("model"@, JsonView::Text(options.model@)),
                    ("sandboxPolicy"@, sandbox_policy(*options)->0),
                    ("threadId"@, JsonView::Text(thread_id@)),
                ],
            ),
    {
        if input.len() == 0 {
            return Err(TransportError::not_sent("empty turn input"));
        }
        let policy = if same(options.sandbox.as_str(), "workspace-write") {
            object3(
                "networkAccess",
                Json::Bool(options.network_access),
                "type",
                text("workspaceWrite"),
                "writableRoots",
                array1(text(options.cwd.as_str())),
            )
        } else if same(options.sandbox.as_str(), "read-only") {
            object2("networkAccess", Json::Bool(options.network_access), "type", text("readOnly"))
        } else {
            return Err(TransportError::not_sent("invalid sandbox policy"));
        };
        Ok(
            object6(
                "approvalPolicy",
                text(options.approval_policy.as_str()),
                "cwd",
                text(options.cwd.as_str()),
                "input",
                array(input),
                "model",
                text(options.model.as_str()),
                "sandboxPolicy",
                policy,
                "threadId",
                text(thread_id),
            ),
        )
    }

    /// The turn that `turn/start` created in a thread.
    pub fn turn_started(result: &Json, thread_id: &str) -> (r: Result<TurnIdentity, TransportError>)
        ensures
            match reported(result@, "turn"@) {
                Some(id) => r is Ok && r->Ok_0.thread_id@ == thread_id@ && r->Ok_0.turn_id@ == id,
                None => r is Err && r->Err_0@ == TransportErrorView::ResultUnknown(
                    "turn/start response has no turn ID"@,
                ),
            },
    {
        match result.at("turn").at("id").as_str() {
            Some(id) => Ok(
                TurnIdentity { thread_id: thread_id.to_owned(), turn_id: id.to_owned() },
            ),
            None => Err(TransportError::result_unknown("turn/start response has no turn ID")),
        }
    }

    /// Parameters of `thread/read`.
    pub fn read_thread(identity: &TurnIdentity) -> (r: Json)
        ensures
            r@ == JsonView::Object(
                seq![
                    ("includeTurns"@, JsonView::Bool(true)),
                    ("threadId"@, JsonView::Text(identity.thread_id@)),
                ],
            ),
    {
        object2("includeTurns", Json::Bool(true), "threadId", text(identity.thread_id.as_str()))
    }

    /// What an answer to `thread/read` says of exactly this turn.
    pub fn read_turn(result: &Json, identity: &TurnIdentity) -> (r: Result<
        TurnSnapshot,
        TransportError,
    >)
        ensures
            match turn_read(result@, identity.thread_id@, identity.turn_id@) {
                Err(e) => r is Err && r->Err_0@ == e,
                Ok(turn) => {
                    &&& r is Ok
                    &&& r->Ok_0.identity.thread_id@ == identity.thread_id@
                    &&& r->Ok_0.identity.turn_id@ == identity.turn_id@
                    &&& r->Ok_0.status@ == turn.at("status"@).text()->0
                    &&& r->Ok_0.items_view_full == turn.at("itemsView"@).says("full"@)
                    &&& trees(r->Ok_0.items@) == turn.at("items"@).array()->0
                    &&& opt_view(r->Ok_0.final_text) == last_answer(
                        turn.at("items"@).array()->0,
                        turn.at("items"@).array()->0.len(),
                    )
                },
            },
    {
        if !some_same(result.at("thread").at("id").as_str(), identity.thread_id.as_str()) {
            return Err(TransportError::protocol("thread/read identity mismatch"));
        }
        let turns = match result.at("thread").at("turns").as_array() {
            Some(v) => v,
            None => return Err(TransportError::protocol("thread/read has no turns")),
        };
        let ghost list = result@.at("thread"@).at("turns"@).array()->0;
        let mut i: usize = 0;
        while i < turns.len() && !turns[i].at("id").is_text(identity.turn_id.as_str())
            invariant
                i <= turns@.len(),
                turns@.len() == list.len(),
                forall|j: int| 0 <= j < turns@.len() ==> #[trigger] turns@[j]@ == list[j],
                turn_position(list, identity.turn_id@, 0) == turn_position(
                    list,
                    identity.turn_id@,
                    i as nat,
                ),
            decreases turns@.len() - i,
        {
            i += 1;
        }
        if i == turns.len() {
            return Err(TransportError::result_unknown("turn absent from thread/read"));
        }
        let turn = &turns[i];
        assert(turn@ == list[i as int]);
        let status = match turn.at("status").as_str() {
            Some(s) => s.to_owned(),
            None => return Err(TransportError::protocol("turn status absent")),
        };
        let items = match turn.at("items").as_array() {
            Some(v) => v,
            None => return Err(TransportError::protocol("turn items absent")),
        };
        let ghost shown = turn@.at("items"@).array()->0;
        assert(trees(items@) =~= shown);
        let mut final_text: Option<String> = None;
        let mut n: usize = items.len();
        while n > 0
            invariant_except_break
                final_text is None,
                last_answer(shown, n as nat) == last_answer(shown, shown.len()),
            invariant
                n <= items@.len(),
                trees(items@) == shown,
            ensures
                opt_view(final_text) == last_answer(shown, shown.len()),
            decreases n,
        {
            let item = &items[n - 1];
            assert(trees(items@)[n - 1] == item@);
            if item.at("type").is_text("agentMessage") && !item.at("phase").is_text("commentary") {
                if let Some(s) = item.at("text").as_str() {
                    final_text = Some(s.to_owned());
                    break;
                }
            }
            n -= 1;
        }
        Ok(
            TurnSnapshot {
                identity: identity.copy(),
                status,
                final_text,
                items_view_full: turn.at("itemsView").is_text("full"),
                items: copies(items),
            },
        )
    }

    /// Parameters of `turn/interrupt`.
    pub fn interrupt(identity: &TurnIdentity) -> (r: Json)
        ensures
            r@ == JsonView::Object(
                seq![
                    ("threadId"@, JsonView::Text(identity.thread_id@)),
                    ("turnId"@, JsonView::Text(identity.turn_id@)),
                ],
            ),
    {
        object2(
            "threadId",
            text(identity.thread_id.as_str()),
            "turnId",
            text(identity.turn_id.as_str()),
        )
    }

    /// Parameters of `turn/steer`. Nothing is sent without input.
    pub fn steer(identity: &TurnIdentity, input: Vec<Json>) -> (r: Result<Json, TransportError>)
        ensures
            input@.len() == 0 ==> r is Err && r->Err_0@ == TransportErrorView::NotSent(
                "empty steer input"@,
            ),
            input@.len() > 0 ==> r is Ok && r->Ok_0@ == JsonView::Object(
                seq![
                    ("expectedTurnId"@, JsonView::Text(identity.turn_id@)),
                    ("input"@, JsonView::Array(trees(input@))),
                    ("threadId"@, JsonView::Text(identity.thread_id@)),
                ],
            ),
    {
        if input.len() == 0 {
            return Err(TransportError::not_sent("empty steer input"));
        }
        Ok(
            object3(
                "expectedTurnId",
                text(identity.turn_id.as_str()),
                "input",
                array(input),
                "threadId",
                text(identity.thread_id.as_str()),
            ),
        )
    }

    /// `turn/steer` must confirm the turn that was steered.
    pub fn steered(result: &Json, identity: &TurnIdentity) -> (r: Result<(), TransportError>)
        ensures
            r is Ok <==> result@.at("turnId"@).says(identity.turn_id@),
            r is Err ==> r->Err_0@ == TransportErrorView::ResultUnknown(
                "turn/steer did not confirm the expected turn"@,
            ),
    {
        if result.at("turnId").is_text(identity.turn_id.as_str()) {
            Ok(())
        } else {
            Err(TransportError::result_unknown("turn/steer did not confirm the expected turn"))
        }
    }
}

/// The pages of the model list that were read so far.
pub struct ModelPages {
    pub models: Vec<Json>,
    pub seen: Vec<String>,
}

/// How reading goes on after a page.
pub enum PageStep {
    Done,
    More(String),
}

/// What a page of the model list asks for next.
pub open spec fn page_step(page: JsonView, seen: Seq<Seq<char>>) -> Result<
    Option<Seq<char>>,
    TransportErrorView,
> {
    let cursor = page.at("nextCursor"@);
    if page.at("data"@).array() is None {
        Err(TransportErrorView::Protocol("model/list missing data"@))
    } else if cursor == JsonView::Null {
        Ok(None)
    } else if cursor.text() is None || cursor.text()->0.len() == 0 {
        Err(TransportErrorView::Protocol("model/list invalid cursor"@))
    } else if seen.contains(cursor.text()->0) {
        Err(TransportErrorView::Protocol("model/list repeated cursor"@))
    } else if seen.len() >= 99 {
        Err(TransportErrorView::Protocol("model/list exceeded 100 pages"@))
    } else {
        Ok(Some(cursor.text()->0))
    }
}

/// A text, or null where there is none.
pub open spec fn text_or_null(s: Option<Seq<char>>) -> JsonView {
    match s {
        Some(c) => JsonView::Text(c),
        None => JsonView::Null,
    }
}

/// Whether a text is among others.
pub fn listed(list: &Vec<String>, s: &str) -> (r: bool)
    ensures
        r == views(list@).contains(s@),
{
    let mut i: usize = 0;
    while i < list.len()
        invariant
            i <= list@.len(),
            forall|j: int| 0 <= j < i ==> #[trigger] views(list@)[j] != s@,
        decreases list@.len() - i,
    {
        assert(views(list@)[i as int] == list@[i as int]@);
        if same(list[i].as_str(), s) {
            return true;
        }
        i += 1;
    }
    false
}

impl ModelPages {
    pub fn new() -> (r: ModelPages)
        ensures
            r.models@.len() == 0,
            r.seen@.len() == 0,
    {
        ModelPages { models: Vec::new(), seen: Vec::new() }
    }

    /// Parameters of `model/list` for the page at a cursor.
    pub fn request(cursor: Option<&str>) -> (r: Json)
        ensures
            r@ == JsonView::Object(
                seq![
                    ("cursor"@, text_or_null(opt_str(cursor))),
                    ("includeHidden"@, JsonView::Bool(false)),
                    ("limit"@, JsonView::Unsigned(100)),
                ],
            ),
    {
        let at = match cursor {
            Some(c) => text(c),
            None => Json::Null,
        };
        assert(at@ == text_or_null(opt_str(cursor)));
        object3("cursor", at, "includeHidden", Json::Bool(false), "limit", Json::Unsigned(100))
    }

    /// Adds a page. At most a hundred pages are read, and no cursor twice, so reading ends.
    pub fn list_models(&mut self, page: &Json) -> (r: Result<PageStep, TransportError>)
        ensures
            match page_step(page@, views(old(self).seen@)) {
                Err(e) => r is Err && r->Err_0@ == e,
                Ok(None) => {
                    &&& r is Ok
                    &&& r->Ok_0 is Done
                    &&& trees(final(self).models@) == trees(old(self).models@) + page@.at(
                        "data"@,
                    ).array()->0
                    &&& views(final(self).seen@) == views(old(self).seen@)
                },
                Ok(Some(next)) => {
                    &&& r is Ok
                    &&& r->Ok_0 is More
                    &&& r->Ok_0->More_0@ == next
                    &&& trees(final(self).models@) == trees(old(self).models@) + page@.at(
                        "data"@,
                    ).array()->0
                    &&& views(final(self).seen@) == views(old(self).seen@).push(next)
                },
            },
            r is Err && page@.at("data"@).array() is None ==> *final(self) == *old(self),
    {
        let data = match page.at("data").as_array() {
            Some(v) => v,
            None => return Err(TransportError::protocol("model/list missing data")),
        };
        let ghost list = page@.at("data"@).array()->0;
        let ghost before = trees(self.models@);
        assert(trees(data@) =~= list);
        let mut more = copies(data);
        let ghost added = more@;
        self.models.append(&mut more);
        assert(trees(self.models@) =~= before + trees(added));
        let cursor = page.at("nextCursor");
        if cursor.is_null() {
            return Ok(PageStep::Done);
        }
        match cursor.as_str() {
            None => Err(TransportError::protocol("model/list invalid cursor")),
            Some(next) => {
                if next.is_empty() {
                    return Err(TransportError::protocol("model/list invalid cursor"));
                }
                if listed(&self.seen, next) {
                    return Err(TransportError::protocol("model/list repeated cursor"));
                }
                if self.seen.len() >= 99 {
                    return Err(TransportError::protocol("model/list exceeded 100 pages"));
                }
                let ghost seen = views(self.seen@);
                self.seen.push(next.to_owned());
                assert(views(self.seen@) =~= seen.push(next@));
                Ok(PageStep::More(next.to_owned()))
            },
        }
    }
}

} // verus!
