//! The answer is delivered whole, in parts, and none of them twice.
use crate::codec::{canonical_uuid, sha256_hex};
use crate::delivery::{
    chunks, message_digest, nonce, nonce_from, Delivery, Receipt, Record, Surplus, TextPlan,
};
use crate::direct_content::{DirectContent, StoredAnswer};
use crate::direct_delivery::direct_answer;
use crate::domain::RequestState;
use crate::json::{lookup, Json, JsonView};
use crate::pages::{letters, placed};
use crate::text::{lemma_utf16_concat, opt_view, utf16_len, utf16_width, utf8_len, views};
use vstd::prelude::*;
use vstd::utf8::encode_utf8;

verus! {

/// Where the first `k` parts end.
pub open spec fn end_of(parts: Seq<Seq<char>>, k: nat) -> nat
    decreases k,
{
    if k == 0 || k > parts.len() {
        0
    } else {
        end_of(parts, (k - 1) as nat) + parts[k - 1].len()
    }
}

proof fn ends_stay(a: Seq<Seq<char>>, b: Seq<Seq<char>>, k: nat)
    requires
        k <= a.len() <= b.len(),
        forall|i: int| 0 <= i < a.len() ==> a[i] == #[trigger] b[i],
    ensures
        end_of(a, k) == end_of(b, k),
    decreases k,
{
    if k > 0 {
        ends_stay(a, b, (k - 1) as nat);
        assert(a[k - 1] == b[k - 1]);
    }
}

proof fn one_letter(c: char)
    ensures
        utf16_len(seq![c]) == utf16_width(c),
        1 <= utf16_width(c) <= 2,
{
    assert(seq![c].drop_last() =~= Seq::<char>::empty());
    assert(seq![c].last() == c);
    assert(utf16_len(Seq::<char>::empty()) == 0);
    reveal_with_fuel(utf16_len, 2);
}

/// How the letters of a text are placed in parts.
proof fn parts_are_placed(text: Seq<char>, n: nat)
    requires
        n <= text.len(),
    ensures
        ({
            let (done, current) = placed(letters(text), 1800, n);
            let end = end_of(done, done.len());
            &&& end + current.len() == n
            &&& current == text.subrange(end as int, n as int)
            &&& utf16_len(current) <= 1800
            &&& n > 0 ==> current.len() > 0
            &&& forall|k: int|
                0 <= k < done.len() ==> {
                    &&& end_of(done, k as nat) + (#[trigger] done[k]).len() == end_of(
                        done,
                        (k + 1) as nat,
                    )
                    &&& end_of(done, (k + 1) as nat) <= end
                    &&& done[k] == text.subrange(
                        end_of(done, k as nat) as int,
                        end_of(done, (k + 1) as nat) as int,
                    )
                    &&& done[k].len() > 0
                    &&& 1799 <= utf16_len(done[k]) <= 1800
                }
        }),
    decreases n,
{
    if n > 0 {
        let m = (n - 1) as nat;
        parts_are_placed(text, m);
        let (done, current) = placed(letters(text), 1800, m);
        let piece = letters(text)[m as int];
        assert(piece == seq![text[m as int]]);
        one_letter(text[m as int]);
        lemma_utf16_concat(current, piece);
        let end = end_of(done, done.len());
        if utf16_len(current) + utf16_len(piece) > 1800 {
            let next = done.push(current);
            assert(current.len() > 0) by {
                if m == 0 {
                    assert(utf16_len(current) == 0);
                }
            }
            ends_stay(done, next, done.len());
            assert(end_of(next, next.len()) == end + current.len());
            assert(piece =~= text.subrange(m as int, n as int));
            assert forall|k: int| 0 <= k < next.len() implies {
                &&& end_of(next, k as nat) + (#[trigger] next[k]).len() == end_of(
                    next,
                    (k + 1) as nat,
                )
                &&& end_of(next, (k + 1) as nat) <= end_of(next, next.len())
                &&& next[k] == text.subrange(
                    end_of(next, k as nat) as int,
                    end_of(next, (k + 1) as nat) as int,
                )
                &&& next[k].len() > 0
                &&& 1799 <= utf16_len(next[k]) <= 1800
            } by {
                if k < done.len() {
                    assert(next[k] == done[k]);
                    ends_stay(done, next, k as nat);
                    ends_stay(done, next, (k + 1) as nat);
                }
            }
        } else {
            assert(current + piece =~= text.subrange(end as int, n as int));
        }
    } else {
        assert(text.subrange(0, 0) =~= Seq::<char>::empty());
        assert(utf16_len(Seq::<char>::empty()) == 0);
    }
}

/// The parts of an answer are its stretches, one after the other, from its first letter to its last:
/// nothing is lost, repeated or put in another order. No part is empty, each fits into a message,
/// and only the last one is not full.
pub proof fn answers_are_delivered_whole(text: &str, r: Vec<String>)
    requires
        call_ensures(chunks, (text,), r),
    ensures
        ({
            let parts = views(r@);
            &&& end_of(parts, parts.len()) == text@.len()
            &&& forall|k: int|
                0 <= k < parts.len() ==> {
                    &&& end_of(parts, (k + 1) as nat) == end_of(parts, k as nat) + (
                    #[trigger] parts[k]).len()
                    &&& parts[k] == text@.subrange(
                        end_of(parts, k as nat) as int,
                        end_of(parts, (k + 1) as nat) as int,
                    )
                    &&& parts[k].len() > 0
                    &&& utf16_len(parts[k]) <= 1800
                    &&& k < parts.len() - 1 ==> utf16_len(parts[k]) >= 1799
                }
        }),
{
    let parts = views(r@);
    let n = text@.len();
    assert(letters(text@).len() == n);
    parts_are_placed(text@, n);
    let (done, current) = placed(letters(text@), 1800, n);
    if current.len() > 0 {
        assert(parts == done.push(current));
        ends_stay(done, parts, done.len());
        assert(end_of(parts, parts.len()) == end_of(done, done.len()) + current.len());
        assert forall|k: int| 0 <= k < parts.len() implies {
            &&& end_of(parts, (k + 1) as nat) == end_of(parts, k as nat) + (
            #[trigger] parts[k]).len()
            &&& parts[k] == text@.subrange(
                end_of(parts, k as nat) as int,
                end_of(parts, (k + 1) as nat) as int,
            )
            &&& parts[k].len() > 0
            &&& utf16_len(parts[k]) <= 1800
            &&& k < parts.len() - 1 ==> utf16_len(parts[k]) >= 1799
        } by {
            if k < done.len() {
                assert(parts[k] == done[k]);
                ends_stay(done, parts, k as nat);
                ends_stay(done, parts, (k + 1) as nat);
            }
        }
    } else {
        assert(parts == done);
    }
}

/// An answer is delivered into the conversation that asked, once it is completed and saved.
pub proof fn answers_go_to_their_conversation(
    request_thread: &str,
    thread: &str,
    state: RequestState,
    saved: bool,
    r: Result<(), &'static str>,
)
    requires
        call_ensures(direct_answer, (request_thread, thread, state, saved), r),
    ensures
        r is Ok <==> request_thread@ == thread@ && state == RequestState::Completed && saved,
{
}

/// A part that was never sent is posted, one that the service confirmed as it stands is left, one
/// that was confirmed with other content is changed in place, and one whose sending is uncertain is
/// looked up and never sent again.
pub proof fn parts_are_sent_once(
    content: &str,
    components: &Json,
    cleared: bool,
    record: Option<Record>,
    hash: String,
    r: Result<TextPlan, &'static str>,
)
    requires
        call_ensures(Delivery::text, (content, components, cleared, record), r),
        call_ensures(message_digest, (content, components), hash),
    ensures
        r is Err <==> utf16_len(content@) > 2000,
        r is Ok && !cleared ==> r->Ok_0 == TextPlan::Settled(false),
        r is Ok && cleared && record is None ==> r->Ok_0 is Post,
        r is Ok && r->Ok_0 is Post ==> cleared && (record is None || record->0.state@
            == "CONFIRMED"@ && record->0.message is None && opt_view(record->0.confirmed) != Some(
            hash@,
        )),
        r is Ok && cleared && record is Some && record->0.state@ != "CONFIRMED"@ ==> r->Ok_0
            is Reconcile && r->Ok_0->current == (opt_view(record->0.pending) == Some(hash@)),
        r is Ok && cleared && record is Some && record->0.state@ == "CONFIRMED"@ && opt_view(
            record->0.confirmed,
        ) == Some(hash@) ==> r->Ok_0 == TextPlan::Settled(true),
        r is Ok && cleared && record is Some && record->0.state@ == "CONFIRMED"@ && opt_view(
            record->0.confirmed,
        ) != Some(hash@) && record->0.message is Some ==> r->Ok_0 is Patch && r->Ok_0->Patch_0@
            == record->0.message->0@,
        r == Ok::<TextPlan, &'static str>(TextPlan::Settled(true)) ==> record is Some
            && record->0.state@ == "CONFIRMED"@ && opt_view(record->0.confirmed) == Some(hash@),
{
}

/// A message carries the part as it is, mentions nobody, and bears a mark by which it is found
/// again and which the service enforces.
pub proof fn parts_are_sent_as_they_are(
    content: &str,
    components: &Json,
    id: &str,
    r: Json,
    mark: String,
)
    requires
        call_ensures(Delivery::body, (content, components, id), r),
        call_ensures(nonce, (id,), mark),
    ensures
        r@.at("content"@) == JsonView::Text(content@),
        r@.at("components"@) == components@,
        r@.at("nonce"@) == JsonView::Text(mark@),
        r@.at("enforce_nonce"@) == JsonView::Bool(true),
        r@.at("allowed_mentions"@).at("parse"@) == JsonView::Array(Seq::empty()),
{
    reveal_strlit("allowed_mentions");
    reveal_strlit("components");
    reveal_strlit("content");
    reveal_strlit("enforce_nonce");
    reveal_strlit("nonce");
    assert("allowed_mentions"@.len() == 16 && "components"@.len() == 10 && "content"@.len() == 7 && "enforce_nonce"@.len() == 13 && "nonce"@.len() == 5);
    let m = r@->Object_0;
    assert(m[0].0 == "allowed_mentions"@ && m[1].0 == "components"@ && m[2].0 == "content"@
        && m[3].0 == "enforce_nonce"@ && m[4].0 == "nonce"@);
    reveal_with_fuel(lookup, 6);
}

/// The intent of a message is stored before it is sent: what is pending is what is to be shown, and
/// nothing is confirmed yet.
pub proof fn intents_are_pending(id: &str, hash: &str, r: Record)
    requires
        call_ensures(Record::first, (id, hash), r),
    ensures
        r.id@ == id@,
        r.state@ == "POST_PENDING"@,
        r.pending is Some && r.pending->0@ == hash@,
        r.confirmed is None,
        r.message is None,
{
    assert(r@.pending is Some);
    assert(r@.confirmed is None);
    assert(r@.message is None);
}

/// The intent of a change keeps the message that is changed.
pub proof fn changes_are_pending(rec: &mut Record, hash: &str)
    requires
        call_ensures(Record::change, (rec, hash), ()),
    ensures
        final(rec).state@ == "PATCH_PENDING"@,
        opt_view(final(rec).pending) == Some(hash@),
        opt_view(final(rec).message) == opt_view(old(rec).message),
        opt_view(final(rec).confirmed) == opt_view(old(rec).confirmed),
        final(rec).id@ == old(rec).id@,
{
}

/// Only what is pending is confirmed, under the message that shows it.
pub proof fn only_what_is_pending_is_confirmed(
    rec: &mut Record,
    message: &str,
    hash: &str,
    r: bool,
)
    requires
        call_ensures(Record::confirm, (rec, message, hash), r),
    ensures
        r <==> opt_view(old(rec).pending) == Some(hash@),
        r ==> final(rec).state@ == "CONFIRMED"@ && opt_view(final(rec).message) == Some(message@)
            && opt_view(final(rec).confirmed) == Some(hash@) && opt_view(final(rec).pending) is None
            && final(rec).id@ == old(rec).id@,
        !r ==> final(rec)@ == old(rec)@,
{
}

/// A picture is confirmed only while the very upload of it is pending.
pub proof fn only_pending_pictures_are_confirmed(
    rec: &mut Record,
    message: &str,
    hash: &str,
    r: Result<(), &'static str>,
)
    requires
        call_ensures(Record::confirm_direct_image, (rec, message, hash), r),
    ensures
        r is Ok <==> old(rec).state@ == "POST_PENDING"@ && opt_view(old(rec).pending) == Some(
            hash@,
        ),
        r is Ok ==> final(rec).state@ == "CONFIRMED"@ && opt_view(final(rec).message) == Some(
            message@,
        ) && opt_view(final(rec).confirmed) == Some(hash@) && opt_view(final(rec).pending) is None,
        r is Err ==> final(rec)@ == old(rec)@,
{
}

/// A message counts as sent under the identity that the service gives, in the conversation that it
/// was meant for; without an answer it is uncertain.
pub proof fn receipts_are_of_the_conversation(
    answer: Option<&Json>,
    thread: &str,
    r: Result<Receipt, &'static str>,
)
    requires
        call_ensures(Delivery::receipt, (answer, thread), r),
    ensures
        answer is None <==> r is Ok && r->Ok_0 is Uncertain,
        r is Ok && r->Ok_0 is Confirm ==> answer is Some && answer->0@.at("id"@) == JsonView::Text(
            r->Ok_0->Confirm_0@,
        ) && answer->0@.at("channel_id"@) == JsonView::Text(thread@),
        answer is Some && answer->0@.at("id"@) is Text && answer->0@.at("channel_id"@)
            == JsonView::Text(thread@) ==> r is Ok && r->Ok_0 is Confirm,
{
}

proof fn marks_are_found(all: Seq<JsonView>, key: Seq<char>, from: nat)
    requires
        from <= all.len(),
    ensures
        match nonce_from(all, key, from) {
            Some(v) => exists|i: int|
                from <= i < all.len() && #[trigger] all[i] == v && v.at("nonce"@) == JsonView::Text(
                    key,
                ),
            None => forall|i: int|
                from <= i < all.len() ==> (#[trigger] all[i]).at("nonce"@) != JsonView::Text(key),
        },
    decreases all.len() - from,
{
    if from < all.len() {
        marks_are_found(all, key, from + 1);
        if all[from as int].at("nonce"@) == JsonView::Text(key) {
            assert(all[from as int] == nonce_from(all, key, from)->0);
        }
    }
}

/// A message is found again by the mark that it was sent with, and is not missed where it is listed.
pub proof fn sent_messages_are_found_again(
    messages: &Json,
    id: &str,
    r: Option<&Json>,
    mark: String,
)
    requires
        call_ensures(Delivery::find, (messages, id), r),
        call_ensures(nonce, (id,), mark),
        messages@ is Array,
    ensures
        r is Some ==> r->0@.at("nonce"@) == JsonView::Text(mark@) && exists|i: int|
            0 <= i < messages@->Array_0.len() && #[trigger] messages@->Array_0[i] == r->0@,
        r is None ==> forall|i: int|
            0 <= i < messages@->Array_0.len() ==> (#[trigger] messages@->Array_0[i]).at("nonce"@)
                != JsonView::Text(mark@),
{
    marks_are_found(messages@->Array_0, mark@, 0);
}

/// A message that is found again confirms what was pending only where the bot wrote it in that
/// conversation and it shows just that.
pub proof fn found_messages_confirm_what_they_show(
    found: Option<&Json>,
    bot: Option<&str>,
    thread: &str,
    pending: Option<&str>,
    r: Option<String>,
    content: &str,
    components: &Json,
    shown: String,
)
    requires
        call_ensures(Delivery::reconcile, (found, bot, thread, pending), r),
        call_ensures(message_digest, (content, components), shown),
        found is Some,
        found->0@.at("content"@) == JsonView::Text(content@),
        found->0@.at("components"@) == components@,
        components@ is Array,
    ensures
        r is Some <==> {
            &&& bot is Some
            &&& pending is Some
            &&& found->0@.at("author"@).at("id"@) == JsonView::Text(bot->0@)
            &&& found->0@.at("channel_id"@) == JsonView::Text(thread@)
            &&& pending->0@ == shown@
            &&& found->0@.at("id"@) is Text
        },
        r is Some ==> found->0@.at("id"@) == JsonView::Text(r->0@),
{
}

/// Nothing is confirmed by a message that is not found, or while nothing is pending.
pub proof fn missing_messages_confirm_nothing(
    found: Option<&Json>,
    bot: Option<&str>,
    thread: &str,
    pending: Option<&str>,
    r: Option<String>,
)
    requires
        call_ensures(Delivery::reconcile, (found, bot, thread, pending), r),
        found is None || pending is None || bot is None,
    ensures
        r is None,
{
}

/// A surplus part is removed only where it is known which message it is and its sending is settled.
pub proof fn surplus_parts_are_removed(
    state: &str,
    message: Option<String>,
    r: Result<Surplus, &'static str>,
)
    requires
        call_ensures(Delivery::trim_parts, (state, message), r),
    ensures
        r is Ok && r->Ok_0 is Remove <==> (state@ == "CONFIRMED"@ || state@ == "DELETE_PENDING"@)
            && message is Some,
        r is Ok && r->Ok_0 is Remove ==> r->Ok_0->Remove_0@ == message->0@,
        r is Ok && r->Ok_0 is Reconcile <==> state@ != "CONFIRMED"@ && state@ != "DELETE_PENDING"@,
{
}

/// An answer that is stored is read back as it was, and bytes that are not the stored ones are
/// refused.
pub proof fn answers_are_read_back(
    request: &str,
    text: &str,
    max: usize,
    saved: Result<StoredAnswer, &'static str>,
    bytes: &Vec<u8>,
    r: Result<String, String>,
    file: Result<(), &'static str>,
    is_file: bool,
    len: u64,
)
    requires
        call_ensures(DirectContent::save_answer, (request, text, max), saved),
        saved is Ok,
        call_ensures(DirectContent::read_answer, (&saved->Ok_0, bytes), r),
        call_ensures(DirectContent::check_file, (&saved->Ok_0, is_file, len, max), file),
    ensures
        bytes@ == encode_utf8(text@) ==> r is Ok && r->Ok_0@ == text@,
        r is Ok ==> encode_utf8(r->Ok_0@) == bytes@ && bytes@.len() == utf8_len(text@) && sha256_hex(
            bytes@,
        ) == sha256_hex(encode_utf8(text@)),
        utf8_len(text@) <= max,
        saved->Ok_0.bytes == utf8_len(text@),
        saved->Ok_0.sha256@ == sha256_hex(encode_utf8(text@)),
        saved->Ok_0.relative_path@ == "direct-answers/"@ + (canonical_uuid(request@)->0 + ".txt"@),
        canonical_uuid(request@) is Some,
        file is Ok <==> is_file && len == utf8_len(text@),
{
    let s = saved->Ok_0;
    if bytes@ == encode_utf8(text@) {
        assert(crate::direct_content::records(s, request@, text@));
        crate::direct_content::kept_answers_are_read_back(s, request@, text@, text@);
        if r is Ok {
            crate::direct_content::kept_answers_are_read_back(s, request@, text@, r->Ok_0@);
        }
    }
}

/// An answer within its limit is stored.
pub proof fn answers_within_the_limit_are_stored(
    request: &str,
    text: &str,
    max: usize,
    saved: Result<StoredAnswer, &'static str>,
)
    requires
        call_ensures(DirectContent::save_answer, (request, text, max), saved),
    ensures
        saved is Ok <==> canonical_uuid(request@) is Some && utf8_len(text@) <= max,
{
}

/// What is kept of an answer counts only where it is the answer.
pub proof fn kept_answers_are_the_answer(kept: &str, text: &str, r: Result<(), &'static str>)
    requires
        call_ensures(DirectContent::check_kept, (kept, text), r),
    ensures
        r is Ok <==> kept@ == text@,
{
}

} // verus!
