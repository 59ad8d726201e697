//! Delivery of messages to Discord: each part is sent once, and what is uncertain is only looked up.
use crate::codec::{compact, document, encode, sha256_hex};
use crate::discord::{owned_by, owns_message};
use crate::domain::digest;
use crate::json::{
    array2, empty_array, member, member_views, object, object1, object5, text, Json, JsonView,
    Member,
};
use crate::pages::{
    glued, lemma_glued_letters, lemma_letter_width, letters, paged, pages_keep_the_limit,
    pages_keep_the_text, paginate, single_letters,
};
use crate::text::{
    borrowed, chars_of, opt_str, opt_view, same, some_same, text_of, utf16_count, utf16_len, views,
};
use vstd::prelude::*;
use vstd::utf8::*;

verus! {

/// Most UTF-16 units in a message of Discord.
pub const MESSAGE_UNITS: usize = 2000;

/// Most UTF-16 units in one part of an answer.
pub const PART_UNITS: usize = 1800;

/// The key by which Discord recognises a message that was sent before.
pub open spec fn nonce_of(id: Seq<char>) -> Seq<char> {
    sha256_hex(encode_utf8(id)).take(24)
}

pub fn nonce(id: &str) -> (r: String)
    ensures
        r@ == nonce_of(id@),
        r@.len() == 24,
{
    let hex = digest(id.as_bytes());
    let v = chars_of(hex.as_str());
    let r = text_of(&v, 0, 24);
    assert(r@ =~= nonce_of(id@));
    r
}

/// Cuts an answer into parts.
pub fn chunks(text: &str) -> (r: Vec<String>)
    ensures
        views(r@) == paged(letters(text@), PART_UNITS as nat),
        glued(views(r@)) == text@,
        forall|i: int| 0 <= i < r@.len() ==> utf16_len(#[trigger] views(r@)[i]) <= PART_UNITS,
{
    let pieces = single_letters(text);
    let r = paginate(&pieces, PART_UNITS);
    proof {
        let l = letters(text@);
        pages_keep_the_text(l, PART_UNITS as nat);
        lemma_glued_letters(text@);
        assert forall|i: int| 0 <= i < l.len() implies utf16_len(#[trigger] l[i]) <= PART_UNITS by {
            lemma_letter_width(text@[i]);
        }
        pages_keep_the_limit(l, PART_UNITS as nat);
    }
    r
}

/// Whether a member of a component belongs to its identity. Discord adds numeric identities and
/// spells out defaults; those do not.
pub open spec fn identifying(key: Seq<char>, value: JsonView) -> bool {
    ||| key == "type"@ || key == "style"@ || key == "label"@ || key == "custom_id"@ || key
        == "components"@ || key == "url"@ || key == "options"@ || key == "value"@ || key
        == "description"@ || key == "placeholder"@ || key == "emoji"@ || key == "name"@
    ||| key == "id"@ && value is Text
    ||| (key == "min_values"@ || key == "max_values"@) && value != JsonView::Unsigned(1)
    ||| (key == "default"@ || key == "animated"@ || key == "disabled"@) && value.is_true()
}

fn is_identifying(key: &str, value: &Json) -> (r: bool)
    ensures
        r == identifying(key@, value@),
{
    same(key, "type") || same(key, "style") || same(key, "label") || same(key, "custom_id") || same(
        key,
        "components",
    ) || same(key, "url") || same(key, "options") || same(key, "value") || same(key, "description")
        || same(key, "placeholder") || same(key, "emoji") || same(key, "name") || (same(key, "id")
        && value.as_str().is_some()) || ((same(key, "min_values") || same(key, "max_values"))
        && !value.is_number(1)) || ((same(key, "default") || same(key, "animated") || same(
        key,
        "disabled",
    )) && value.is_bool(true))
}

/// The identity of message components.
pub open spec fn canonical(j: JsonView) -> JsonView
    decreases j, 0nat,
{
    match j {
        JsonView::Array(v) => JsonView::Array(
            Seq::new(
                v.len(),
                |i: int| if 0 <= i < v.len() { canonical(v[i]) } else { JsonView::Null },
            ),
        ),
        JsonView::Object(m) => JsonView::Object(canonical_members(m, m.len())),
        _ => j,
    }
}

/// The identifying ones among the first `n` members.
pub open spec fn canonical_members(m: Seq<(Seq<char>, JsonView)>, n: nat) -> Seq<
    (Seq<char>, JsonView),
>
    decreases m, n,
{
    if n == 0 || n > m.len() {
        Seq::empty()
    } else {
        let rest = canonical_members(m, (n - 1) as nat);
        if identifying(m[n - 1].0, m[n - 1].1) {
            rest.push((m[n - 1].0, canonical(m[n - 1].1)))
        } else {
            rest
        }
    }
}

pub fn canonical_components(v: &Json) -> (r: Json)
    ensures
        r@ == canonical(v@),
    decreases v,
{
    match v {
        Json::Array(items) => {
            let mut out: Vec<Json> = Vec::new();
            let mut i: usize = 0;
            while i < items.len()
                invariant
                    i <= items@.len(),
                    *v == Json::Array(*items),
                    out@.len() == i,
                    forall|j: int| 0 <= j < i ==> (#[trigger] out@[j])@ == canonical(items@[j]@),
                decreases items@.len() - i,
            {
                assert(decreases_to!(v->Array_0 => items[i as int]));
                let c = canonical_components(&items[i]);
                out.push(c);
                i += 1;
            }
            let r = Json::Array(out);
            assert(r@->Array_0 =~= canonical(v@)->Array_0);
            r
        },
        Json::Object(members) => {
            let ghost m = v@->Object_0;
            let mut out: Vec<Member> = Vec::new();
            let mut i: usize = 0;
            assert(member_views(out@) =~= Seq::<(Seq<char>, JsonView)>::empty());
            while i < members.len()
                invariant
                    i <= members@.len(),
                    *v == Json::Object(*members),
                    v@ == JsonView::Object(m),
                    member_views(out@) == canonical_members(m, i as nat),
                decreases members@.len() - i,
            {
                assert(decreases_to!(v->Object_0 => members[i as int]));
                assert(m[i as int] == (members@[i as int].key@, members@[i as int].value@));
                let ghost before = member_views(out@);
                if is_identifying(members[i].key.as_str(), &members[i].value) {
                    let c = canonical_components(&members[i].value);
                    let kept = member(members[i].key.as_str(), c);
                    let ghost pair = (kept.key@, kept.value@);
                    out.push(kept);
                    assert(member_views(out@) =~= before.push(pair));
                }
                i += 1;
            }
            object(out)
        },
        _ => v.copy(),
    }
}

/// Taking the identity twice changes nothing.
pub proof fn canonical_is_stable(j: JsonView)
    ensures
        canonical(canonical(j)) == canonical(j),
    decreases j, 0nat,
{
    match j {
        JsonView::Array(v) => {
            let c = canonical(j)->Array_0;
            assert forall|i: int| 0 <= i < v.len() implies canonical(#[trigger] c[i]) == c[i] by {
                canonical_is_stable(v[i]);
            }
            assert(canonical(canonical(j))->Array_0 =~= c);
        },
        JsonView::Object(m) => {
            lemma_members_stable(m, m.len());
        },
        _ => {},
    }
}

proof fn lemma_members_stable(m: Seq<(Seq<char>, JsonView)>, n: nat)
    requires
        n <= m.len(),
    ensures
        canonical_members(canonical_members(m, n), canonical_members(m, n).len())
            == canonical_members(m, n),
    decreases m, n,
{
    if n > 0 {
        lemma_members_stable(m, (n - 1) as nat);
        let rest = canonical_members(m, (n - 1) as nat);
        let (key, value) = m[n - 1];
        if identifying(key, value) {
            canonical_is_stable(value);
            let all = canonical_members(m, n);
            assert(all.drop_last() =~= rest);
            lemma_members_prefix(rest, (key, canonical(value)), rest.len());
            assert(identifying(key, canonical(value)));
        }
    }
}

proof fn lemma_members_prefix(m: Seq<(Seq<char>, JsonView)>, x: (Seq<char>, JsonView), n: nat)
    requires
        n <= m.len(),
    ensures
        canonical_members(m.push(x), n) == canonical_members(m, n),
    decreases n,
{
    if n > 0 {
        lemma_members_prefix(m, x, (n - 1) as nat);
    }
}

/// A member that does not identify a component makes no difference, wherever it stands: what
/// Discord adds to a receipt does not change the identity.
pub proof fn defaults_make_no_difference(
    m: Seq<(Seq<char>, JsonView)>,
    at: int,
    x: (Seq<char>, JsonView),
)
    requires
        0 <= at <= m.len(),
        !identifying(x.0, x.1),
    ensures
        canonical(JsonView::Object(m.insert(at, x))) == canonical(JsonView::Object(m)),
{
    lemma_inserted(m, at, x, m.len());
}

proof fn lemma_inserted(m: Seq<(Seq<char>, JsonView)>, at: int, x: (Seq<char>, JsonView), n: nat)
    requires
        0 <= at <= m.len(),
        !identifying(x.0, x.1),
        n <= m.len(),
    ensures
        n < at ==> canonical_members(m.insert(at, x), n) == canonical_members(m, n),
        n >= at ==> canonical_members(m.insert(at, x), n + 1) == canonical_members(m, n),
    decreases n,
{
    reveal_with_fuel(canonical_members, 3);
    let w = m.insert(at, x);
    if n < at {
        if n > 0 {
            lemma_inserted(m, at, x, (n - 1) as nat);
            assert(w[n - 1] == m[n - 1]);
        }
    } else if n == at {
        assert(w[n as int] == x);
        if n > 0 {
            lemma_inserted(m, at, x, (n - 1) as nat);
            assert(w[n - 1] == m[n - 1]);
        }
    } else {
        lemma_inserted(m, at, x, (n - 1) as nat);
        assert(w[n as int] == m[n - 1]);
    }
}

/// The digest of what a message shows.
pub open spec fn shown_digest(content: Seq<char>, components: JsonView) -> Seq<char> {
    sha256_hex(
        compact(
            document(JsonView::Array(seq![JsonView::Text(content), canonical(components)])),
        ),
    )
}

pub fn message_digest(content: &str, components: &Json) -> (r: String)
    ensures
        r@ == shown_digest(content@, components@),
{
    let both = array2(text(content), canonical_components(components));
    digest(encode(&both).as_slice())
}

/// What is stored of a part that was sent before.
#[derive(Debug)]
pub struct Record {
    pub id: String,
    pub message: Option<String>,
    pub state: String,
    pub confirmed: Option<String>,
    pub pending: Option<String>,
}

/// The mathematical form of a `Record`.
#[verifier::ext_equal]
pub struct RecordView {
    pub id: Seq<char>,
    pub message: Option<Seq<char>>,
    pub state: Seq<char>,
    pub confirmed: Option<Seq<char>>,
    pub pending: Option<Seq<char>>,
}

impl View for Record {
    type V = RecordView;

    open spec fn view(&self) -> RecordView {
        RecordView {
            id: self.id@,
            message: opt_view(self.message),
            state: self.state@,
            confirmed: opt_view(self.confirmed),
            pending: opt_view(self.pending),
        }
    }
}

/// What is stored of a part, where something is.
pub open spec fn stored(record: Option<Record>) -> Option<RecordView> {
    match record {
        Some(r) => Some(r@),
        None => None,
    }
}

/// The record of a part that is about to be sent for the first time.
pub open spec fn first_record(id: Seq<char>, hash: Seq<char>) -> RecordView {
    RecordView {
        id,
        message: None,
        state: "POST_PENDING"@,
        confirmed: None,
        pending: Some(hash),
    }
}

/// A record whose message is about to be changed.
pub open spec fn about_to_change(r: RecordView, hash: Seq<char>) -> RecordView {
    RecordView { state: "PATCH_PENDING"@, pending: Some(hash), ..r }
}

/// A record once Discord is known to show a content: only the content that is pending is confirmed.
pub open spec fn confirmed_by(r: RecordView, message: Seq<char>, hash: Seq<char>) -> RecordView {
    if r.pending == Some(hash) {
        RecordView {
            message: Some(message),
            state: "CONFIRMED"@,
            confirmed: Some(hash),
            pending: None,
            ..r
        }
    } else {
        r
    }
}

impl Record {
    /// The record of a part that is about to be sent for the first time.
    pub fn first(id: &str, hash: &str) -> (r: Record)
        ensures
            r@ == first_record(id@, hash@),
    {
        Record {
            id: id.to_owned(),
            message: None,
            state: "POST_PENDING".to_owned(),
            confirmed: None,
            pending: Some(hash.to_owned()),
        }
    }

    /// Stores that the message is about to be changed.
    pub fn change(&mut self, hash: &str)
        ensures
            final(self)@ == about_to_change(old(self)@, hash@),
    {
        self.state = "PATCH_PENDING".to_owned();
        self.pending = Some(hash.to_owned());
    }

    /// Stores that Discord shows a content under a message. Returns whether that content was
    /// pending.
    pub fn confirm(&mut self, message: &str, hash: &str) -> (r: bool)
        ensures
            r == (old(self)@.pending == Some(hash@)),
            final(self)@ == confirmed_by(old(self)@, message@, hash@),
    {
        if !some_same(borrowed(&self.pending), hash) {
            return false;
        }
        self.message = Some(message.to_owned());
        self.state = "CONFIRMED".to_owned();
        self.confirmed = Some(hash.to_owned());
        self.pending = None;
        true
    }

    /// Stores that Discord shows an image: only a first send that is pending is confirmed.
    pub fn confirm_direct_image(&mut self, message: &str, hash: &str) -> (r: Result<(), &'static str>)
        ensures
            ({
                let due = old(self)@.state == "POST_PENDING"@ && old(self)@.pending == Some(hash@);
                &&& due ==> r is Ok && final(self)@ == confirmed_by(old(self)@, message@, hash@)
                &&& !due ==> r is Err && r->Err_0@ == "image delivery acknowledgement changed"@
                    && final(self)@ == old(self)@
            }),
    {
        if !same(self.state.as_str(), "POST_PENDING") || !self.confirm(message, hash) {
            return Err("image delivery acknowledgement changed");
        }
        Ok(())
    }
}

/// A content that was confirmed is not sent again, and another content changes the same message.
pub proof fn confirmed_parts_are_settled(r: RecordView, message: Seq<char>, hash: Seq<char>, other: Seq<char>)
    requires
        r.pending == Some(hash),
        other != hash,
    ensures
        text_plan(Some(confirmed_by(r, message, hash)), hash) == TextPlanView::Settled(true),
        text_plan(Some(confirmed_by(r, message, hash)), other) == TextPlanView::Patch(message),
{
}

/// A part that is on its way is looked up, whatever content is asked for; no second message is sent.
pub proof fn parts_on_their_way_are_looked_up(id: Seq<char>, r: RecordView, hash: Seq<char>, other: Seq<char>)
    ensures
        text_plan(Some(first_record(id, hash)), other) is Reconcile,
        text_plan(Some(about_to_change(r, hash)), other) is Reconcile,
{
    reveal_strlit("POST_PENDING");
    reveal_strlit("PATCH_PENDING");
    reveal_strlit("CONFIRMED");
    assert("POST_PENDING"@.len() == 12 && "PATCH_PENDING"@.len() == 13 && "CONFIRMED"@.len() == 9);
}

/// What to do with a part.
pub enum TextPlan {
    /// Nothing is to be done; whether Discord shows this content.
    Settled(bool),
    /// An earlier send is uncertain: look it up by its nonce. `current` says whether that send was
    /// of this very content.
    Reconcile { current: bool },
    /// Send a new message. Its intent is stored first.
    Post,
    /// Change the message that was sent. Its intent is stored first.
    Patch(String),
}

/// The mathematical form of a `TextPlan`.
pub enum TextPlanView {
    Settled(bool),
    Reconcile(bool),
    Post,
    Patch(Seq<char>),
}

impl View for TextPlan {
    type V = TextPlanView;

    open spec fn view(&self) -> TextPlanView {
        match self {
            TextPlan::Settled(b) => TextPlanView::Settled(*b),
            TextPlan::Reconcile { current } => TextPlanView::Reconcile(*current),
            TextPlan::Post => TextPlanView::Post,
            TextPlan::Patch(m) => TextPlanView::Patch(m@),
        }
    }
}

/// The plan for a part whose content has the given digest.
pub open spec fn text_plan(record: Option<RecordView>, hash: Seq<char>) -> TextPlanView {
    match record {
        None => TextPlanView::Post,
        Some(r) => if r.state == "CONFIRMED"@ {
            if r.confirmed == Some(hash) {
                TextPlanView::Settled(true)
            } else {
                match r.message {
                    Some(m) => TextPlanView::Patch(m),
                    None => TextPlanView::Post,
                }
            }
        } else {
            TextPlanView::Reconcile(r.pending == Some(hash))
        },
    }
}

/// A part whose last send is not confirmed is never sent again, whatever content is asked for: it
/// is only looked up.
pub proof fn uncertain_parts_are_not_resent(r: RecordView, hash: Seq<char>)
    requires
        r.state != "CONFIRMED"@,
    ensures
        text_plan(Some(r), hash) is Reconcile,
{
}

/// A new message is sent only where none was recorded, or where the recorded one is confirmed
/// without an identity.
pub proof fn posts_are_first(record: Option<RecordView>, hash: Seq<char>)
    requires
        text_plan(record, hash) is Post,
    ensures
        record is None || (record->0.state == "CONFIRMED"@ && record->0.message is None),
{
}

/// What is left of a delivery after Discord answered.
pub enum Receipt {
    /// The message is there and confirms the content.
    Confirm(String),
    /// The outcome is open; the stored intent stays.
    Uncertain,
}

/// Which of the rows of surplus parts can be removed.
pub enum Surplus {
    Reconcile,
    Remove(String),
}

/// Sending, looking up and removing messages.
pub struct Delivery;

impl Delivery {
    /// What to do with a part, from what is stored of it. A status that is being deleted is cleared
    /// first; where that does not succeed, nothing is sent.
    pub fn text(content: &str, components: &Json, cleared: bool, record: Option<Record>) -> (r: Result<
        TextPlan,
        &'static str,
    >)
        ensures
            utf16_len(content@) > MESSAGE_UNITS ==> r is Err && r->Err_0@
                == "Discord text exceeds limit"@,
            utf16_len(content@) <= MESSAGE_UNITS ==> r is Ok && r->Ok_0@ == if !cleared {
                TextPlanView::Settled(false)
            } else {
                text_plan(stored(record), shown_digest(content@, components@))
            },
    {
        if utf16_count(content) > MESSAGE_UNITS {
            return Err("Discord text exceeds limit");
        }
        if !cleared {
            return Ok(TextPlan::Settled(false));
        }
        let hash = message_digest(content, components);
        match record {
            None => Ok(TextPlan::Post),
            Some(r) => {
                if same(r.state.as_str(), "CONFIRMED") {
                    if some_same(borrowed(&r.confirmed), hash.as_str()) {
                        Ok(TextPlan::Settled(true))
                    } else {
                        match r.message {
                            Some(m) => Ok(TextPlan::Patch(m)),
                            None => Ok(TextPlan::Post),
                        }
                    }
                } else {
                    Ok(
                        TextPlan::Reconcile {
                            current: some_same(borrowed(&r.pending), hash.as_str()),
                        },
                    )
                }
            },
        }
    }

    /// The body of a message.
    pub fn body(content: &str, components: &Json, id: &str) -> (r: Json)
        ensures
            r@ == JsonView::Object(
                seq![
                    (
                        "allowed_mentions"@,
                        JsonView::Object(seq![("parse"@, JsonView::Array(Seq::empty()))]),
                    ),
                    ("components"@, components@),
                    ("content"@, JsonView::Text(content@)),
                    ("enforce_nonce"@, JsonView::Bool(true)),
                    ("nonce"@, JsonView::Text(nonce_of(id@))),
                ],
            ),
    {
        let key = nonce(id);
        object5(
            "allowed_mentions",
            object1("parse", empty_array()),
            "components",
            components.copy(),
            "content",
            text(content),
            "enforce_nonce",
            Json::Bool(true),
            "nonce",
            text(key.as_str()),
        )
    }

    /// What an answer to a send means. Without a readable answer the stored intent is
    /// authoritative.
    pub fn receipt(answer: Option<&Json>, thread: &str) -> (r: Result<Receipt, &'static str>)
        ensures
            match answer {
                None => r is Ok && r->Ok_0 is Uncertain,
                Some(v) => if v@.at("id"@).text() is None {
                    r is Err && r->Err_0@ == "Discord receipt missing"@
                } else if !v@.at("channel_id"@).says(thread@) {
                    r is Err && r->Err_0@ == "Discord receipt channel mismatch"@
                } else {
                    r is Ok && r->Ok_0 is Confirm && r->Ok_0->Confirm_0@ == v@.at("id"@).text()->0
                },
            },
    {
        match answer {
            None => Ok(Receipt::Uncertain),
            Some(v) => match v.at("id").as_str() {
                None => Err("Discord receipt missing"),
                Some(id) => {
                    if v.at("channel_id").is_text(thread) {
                        Ok(Receipt::Confirm(id.to_owned()))
                    } else {
                        Err("Discord receipt channel mismatch")
                    }
                },
            },
        }
    }

    /// The message among those of a channel that carries the nonce of a delivery.
    pub fn find<'a>(messages: &'a Json, id: &str) -> (r: Option<&'a Json>)
        ensures
            match first_with_nonce(messages@, nonce_of(id@)) {
                Some(v) => r is Some && r->0@ == v,
                None => r is None,
            },
    {
        let key = nonce(id);
        match messages.as_array() {
            None => None,
            Some(list) => {
                let ghost all = messages@.array()->0;
                let mut i: usize = 0;
                while i < list.len()
                    invariant
                        i <= list@.len(),
                        list@.len() == all.len(),
                        messages@ == JsonView::Array(all),
                        key@ == nonce_of(id@),
                        forall|j: int| 0 <= j < all.len() ==> #[trigger] list@[j]@ == all[j],
                        nonce_from(all, key@, 0) == nonce_from(all, key@, i as nat),
                    decreases list@.len() - i,
                {
                    assert(list@[i as int]@ == all[i as int]);
                    if list[i].at("nonce").is_text(key.as_str()) {
                        return Some(&list[i]);
                    }
                    i += 1;
                }
                None
            },
        }
    }

    /// The message that confirms an uncertain send: it must be the bot's own, show the content of
    /// the stored intent and stand in the channel.
    pub fn reconcile(found: Option<&Json>, bot: Option<&str>, thread: &str, pending: Option<&str>) -> (r:
        Option<String>)
        ensures
            opt_view(r) == match (found, opt_str(pending)) {
                (Some(v), Some(hash)) => confirms(v@, opt_str(bot), thread@, hash),
                _ => None,
            },
    {
        match (found, pending) {
            (Some(v), Some(hash)) => {
                if !owns_message(bot, v) {
                    return None;
                }
                let content = match v.at("content").as_str() {
                    Some(s) => s,
                    None => "",
                };
                let none = empty_array();
                let components = match v.at("components") {
                    Json::Array(_) => v.at("components"),
                    _ => &none,
                };
                proof {
                    reveal_strlit("");
                    assert(""@ =~= Seq::<char>::empty());
                }
                let actual = message_digest(content, components);
                if same(actual.as_str(), hash) && v.at("channel_id").is_text(thread) {
                    match v.at("id").as_str() {
                        Some(id) => Some(id.to_owned()),
                        None => None,
                    }
                } else {
                    None
                }
            },
            _ => None,
        }
    }

    /// What to do with a stored part that is no longer wanted: what is uncertain is looked up first,
    /// and only a known message is removed.
    pub fn trim_parts(state: &str, message: Option<String>) -> (r: Result<Surplus, &'static str>)
        ensures
            state@ != "CONFIRMED"@ && state@ != "DELETE_PENDING"@ ==> r is Ok && r->Ok_0 is Reconcile,
            (state@ == "CONFIRMED"@ || state@ == "DELETE_PENDING"@) && message is None ==> r is Err
                && r->Err_0@ == "surplus message identity missing"@,
            (state@ == "CONFIRMED"@ || state@ == "DELETE_PENDING"@) && message is Some ==> r is Ok
                && r->Ok_0 is Remove && r->Ok_0->Remove_0@ == message->0@,
    {
        if !same(state, "CONFIRMED") && !same(state, "DELETE_PENDING") {
            return Ok(Surplus::Reconcile);
        }
        match message {
            Some(m) => Ok(Surplus::Remove(m)),
            None => Err("surplus message identity missing"),
        }
    }
}

/// The first message from a position on that carries a nonce.
pub open spec fn nonce_from(all: Seq<JsonView>, key: Seq<char>, from: nat) -> Option<JsonView>
    decreases all.len() - from,
{
    if from >= all.len() {
        None
    } else if all[from as int].at("nonce"@).says(key) {
        Some(all[from as int])
    } else {
        nonce_from(all, key, from + 1)
    }
}

/// The first message that carries a nonce.
pub open spec fn first_with_nonce(messages: JsonView, key: Seq<char>) -> Option<JsonView> {
    match messages.array() {
        Some(all) => nonce_from(all, key, 0),
        None => None,
    }
}

/// The identity of a message that confirms an intent.
pub open spec fn confirms(
    v: JsonView,
    bot: Option<Seq<char>>,
    thread: Seq<char>,
    hash: Seq<char>,
) -> Option<Seq<char>> {
    let content = match v.at("content"@).text() {
        Some(s) => s,
        None => Seq::empty(),
    };
    let components = if v.at("components"@) is Array {
        v.at("components"@)
    } else {
        JsonView::Array(Seq::empty())
    };
    if owned_by(v, bot) && shown_digest(content, components) == hash && v.at("channel_id"@).says(
        thread,
    ) {
        v.at("id"@).text()
    } else {
        None
    }
}

} // verus!
