//! Decisions that are shown in the conversation: what may stand on such a card, and what a press on
//! it needs.
use crate::codec::{compact, document, encode, sha256_hex};
use crate::components::{button, button_view, row, row_view};
use crate::delivery::{canonical, canonical_components};
use crate::domain::digest;
use crate::fields::{
    all_boolean, are_boolean, has_all, has_fields, is_one, knows_only, moderate_text, names,
    only_known, says_one, text_objection,
};
use crate::json::{alike, array2, empty_array, text, trees, Json, JsonView};
use crate::mcp_grants::{
    code_block, eligible_for_turn, fenced, moment, timestamp, turn_eligible, Capabilities, McpRecord,
};
use crate::numbers::{signed_decimal, signed_text};
use crate::text::{
    byte_len, chars_of, control, directional, is_control, is_directional, join, joined, opt_str,
    pieces, same, split, utf16_count, utf16_len, utf8_len, views,
};
use vstd::prelude::*;
use vstd::std_specs::vec::*;
use vstd::string::*;

verus! {

/// How many bytes the description of a card may have.
pub const MAX_PRESENTATION_BYTES: usize = 32768;

/// How many UTF-16 units a card may show.
pub const MAX_DISPLAY_UNITS: usize = 1400;

/// How many fields a card may show.
pub const MAX_DISPLAY_FIELDS: usize = 8;

/// How long a card may stay open, in milliseconds.
pub const CARD_MILLIS: i64 = 600_000;

/// What a card confirms once it is pressed.
#[derive(Debug)]
pub struct Receipt {
    pub token: String,
    pub message_id: String,
    pub card_digest: String,
}

/// Why a value is not a text of moderate length.
pub open spec fn string_objection(v: JsonView) -> Option<Seq<char>> {
    text_objection(v, "presentation string missing"@, "presentation string limit"@)
}

fn string<'a>(v: &'a Json) -> (r: Result<&'a str, &'static str>)
    ensures
        match string_objection(v@) {
            None => r is Ok && Some(r->Ok_0@) == v@.text(),
            Some(e) => r is Err && r->Err_0@ == e,
        },
{
    moderate_text(v, "presentation string missing", "presentation string limit")
}

/// When a card closes, in milliseconds since 1970.
pub open spec fn expiry_of(v: JsonView) -> Result<int, Seq<char>> {
    match string_objection(v.at("expires_at"@)) {
        Some(e) => Err(e),
        None => moment(v.at("expires_at"@)),
    }
}

/// When a card closes, in milliseconds since 1970.
pub fn expiry(v: &Json) -> (r: Result<i64, String>)
    ensures
        match expiry_of(v@) {
            Ok(t) => r is Ok && r->Ok_0 == t,
            Err(e) => r is Err && r->Err_0@ == e,
        },
{
    match string(v.at("expires_at")) {
        Err(e) => Err(String::from_str(e)),
        Ok(_) => timestamp(v.at("expires_at")),
    }
}

/// Why a decision is not shown in the conversation.
pub open spec fn known_reasons() -> Seq<Seq<char>> {
    seq![
        "private_arguments"@,
        "unsupported_renderer"@,
        "unknown_arguments"@,
        "information_incomplete"@,
        "display_too_large"@,
        "operation_unavailable"@,
        "interaction_closed"@,
        "presentation_limit"@,
    ]
}

/// Whether this is a reason why a decision is not shown in the conversation.
pub fn known_reason(s: &str) -> (r: bool)
    ensures
        r == known_reasons().contains(s@),
{
    let r = same(s, "private_arguments") || same(s, "unsupported_renderer") || same(
        s,
        "unknown_arguments",
    ) || same(s, "information_incomplete") || same(s, "display_too_large") || same(
        s,
        "operation_unavailable",
    ) || same(s, "interaction_closed") || same(s, "presentation_limit");
    proof {
        let k = known_reasons();
        assert(k[0] == "private_arguments"@ && k[1] == "unsupported_renderer"@ && k[2]
            == "unknown_arguments"@ && k[3] == "information_incomplete"@ && k[4]
            == "display_too_large"@ && k[5] == "operation_unavailable"@ && k[6]
            == "interaction_closed"@ && k[7] == "presentation_limit"@);
    }
    r
}

/// Whether a text holds only characters that can be shown as they are.
pub open spec fn displayable(s: Seq<char>) -> bool {
    s.len() > 0 && forall|i: int|
        0 <= i < s.len() ==> !control(#[trigger] s[i]) && !directional(s[i])
}

/// Why a value cannot be shown.
pub open spec fn shown_objection(v: JsonView) -> Option<Seq<char>> {
    match v.text() {
        None => Some("display string"@),
        Some(s) => if displayable(s) {
            None
        } else {
            Some("invalid display characters"@)
        },
    }
}

/// A text that can be shown as it is.
pub fn display_string(v: &Json) -> (r: Result<&str, &'static str>)
    ensures
        match shown_objection(v@) {
            None => r is Ok && Some(r->Ok_0@) == v@.text(),
            Some(e) => r is Err && r->Err_0@ == e,
        },
{
    let s = match v.as_str() {
        Some(s) => s,
        None => {
            return Err("display string");
        },
    };
    let c = chars_of(s);
    let mut i: usize = 0;
    while i < c.len()
        invariant
            i <= c@.len(),
            c@ == s@,
            v@.text() == Some(s@),
            forall|j: int| 0 <= j < i ==> !control(#[trigger] s@[j]) && !directional(s@[j]),
        decreases c@.len() - i,
    {
        if is_control(c[i]) || is_directional(c[i]) {
            return Err("invalid display characters");
        }
        i += 1;
    }
    if c.len() == 0 {
        return Err("invalid display characters");
    }
    Ok(s)
}

/// The fields of the description of a card.
pub open spec fn presentation_fields() -> Seq<Seq<char>> {
    seq![
        "interaction_id"@,
        "response_id"@,
        "turn_id"@,
        "revision"@,
        "scope_fingerprint"@,
        "presentation_id"@,
        "presentation_fingerprint"@,
        "profile"@,
        "renderer"@,
        "audience"@,
        "state"@,
        "reason"@,
        "expires_at"@,
        "display"@,
        "actions"@,
    ]
}

/// Why the description of a card is not one on its face.
pub open spec fn head_objection(v: JsonView) -> Option<Seq<char>> {
    let audience = v.at("audience"@);
    if compact(document(v)).len() > MAX_PRESENTATION_BYTES {
        Some("presentation byte limit"@)
    } else if !only_known(v, presentation_fields()) {
        Some("unknown presentation field"@)
    } else if !has_all(v, presentation_fields()) {
        Some("missing presentation field"@)
    } else if string_objection(v.at("interaction_id"@)) is Some {
        string_objection(v.at("interaction_id"@))
    } else if string_objection(v.at("response_id"@)) is Some {
        string_objection(v.at("response_id"@))
    } else if !(v.at("revision"@).signed() is Some && v.at("revision"@).signed()->0 > 0 && v.at(
        "profile"@,
    ).says("source-conversation-v1"@)) {
        Some("presentation profile/revision"@)
    } else if !audience.at("kind"@).says("source_conversation"@) {
        Some("presentation audience"@)
    } else if string_objection(audience.at("channel_id"@)) is Some {
        string_objection(audience.at("channel_id"@))
    } else if utf8_len(audience.at("channel_id"@).text()->0) > 128 {
        Some("presentation audience"@)
    } else {
        None
    }
}

fn check_head(v: &Json) -> (r: Result<(), &'static str>)
    ensures
        match head_objection(v@) {
            None => r is Ok,
            Some(e) => r is Err && r->Err_0@ == e,
        },
{
    if encode(v).len() > MAX_PRESENTATION_BYTES {
        return Err("presentation byte limit");
    }
    let fields: Vec<&str> = vec![
        "interaction_id",
        "response_id",
        "turn_id",
        "revision",
        "scope_fingerprint",
        "presentation_id",
        "presentation_fingerprint",
        "profile",
        "renderer",
        "audience",
        "state",
        "reason",
        "expires_at",
        "display",
        "actions",
    ];
    assert(names(fields@) =~= presentation_fields());
    if !knows_only(v, &fields) {
        return Err("unknown presentation field");
    }
    if !has_fields(v, &fields) {
        return Err("missing presentation field");
    }
    match string(v.at("interaction_id")) {
        Err(e) => {
            return Err(e);
        },
        Ok(_) => {},
    }
    match string(v.at("response_id")) {
        Err(e) => {
            return Err(e);
        },
        Ok(_) => {},
    }
    let positive = match v.at("revision").as_i64() {
        Some(n) => n > 0,
        None => false,
    };
    if !(positive && v.at("profile").is_text("source-conversation-v1")) {
        return Err("presentation profile/revision");
    }
    let audience = v.at("audience");
    if !audience.at("kind").is_text("source_conversation") {
        return Err("presentation audience");
    }
    match string(audience.at("channel_id")) {
        Err(e) => Err(e),
        Ok(s) => {
            if byte_len(s) > 128 {
                Err("presentation audience")
            } else {
                Ok(())
            }
        },
    }
}

/// The fields that are texts where they have a value.
pub open spec fn optional_texts() -> Seq<Seq<char>> {
    seq![
        "turn_id"@,
        "scope_fingerprint"@,
        "presentation_id"@,
        "presentation_fingerprint"@,
        "expires_at"@,
    ]
}

/// The first objection to one of the first `n` optional texts.
pub open spec fn optional_objection(v: JsonView, keys: Seq<Seq<char>>, n: nat) -> Option<Seq<char>>
    decreases n,
{
    if n == 0 || n > keys.len() {
        None
    } else {
        let e = optional_objection(v, keys, (n - 1) as nat);
        if e is Some {
            e
        } else if v.at(keys[n - 1]) == JsonView::Null {
            None
        } else {
            string_objection(v.at(keys[n - 1]))
        }
    }
}

proof fn lemma_optional_objection(v: JsonView, keys: Seq<Seq<char>>, i: nat, n: nat)
    requires
        i <= n <= keys.len(),
        optional_objection(v, keys, i) is Some,
    ensures
        optional_objection(v, keys, n) == optional_objection(v, keys, i),
    decreases n,
{
    if i < n {
        lemma_optional_objection(v, keys, i, (n - 1) as nat);
    }
}

fn check_optional(v: &Json, keys: &Vec<&str>) -> (r: Result<(), &'static str>)
    ensures
        match optional_objection(v@, names(keys@), keys@.len()) {
            None => r is Ok,
            Some(e) => r is Err && r->Err_0@ == e,
        },
{
    let ghost all = names(keys@);
    let mut i: usize = 0;
    while i < keys.len()
        invariant
            i <= keys@.len(),
            all == names(keys@),
            optional_objection(v@, all, i as nat) is None,
        decreases keys@.len() - i,
    {
        assert(all[i as int] == keys@[i as int]@);
        if !v.at(keys[i]).is_null() {
            match string(v.at(keys[i])) {
                Ok(_) => {},
                Err(e) => {
                    proof {
                        lemma_optional_objection(v@, all, (i + 1) as nat, all.len());
                    }
                    return Err(e);
                },
            }
        }
        i += 1;
    }
    Ok(())
}

/// The forms in which an operation is shown.
pub open spec fn renderers() -> Seq<Seq<char>> {
    seq!["browser-find-v1"@, "browser-navigate-v1"@, "browser-tabs-list-v1"@]
}

/// Why the state of a card is not one.
pub open spec fn state_objection(v: JsonView) -> Option<Seq<char>> {
    let state = v.at("state"@);
    let reason = v.at("reason"@);
    let identified = !state.says("unavailable"@) && !reason.says("presentation_limit"@);
    let optional = optional_objection(v, optional_texts(), optional_texts().len());
    if string_objection(state) is Some {
        string_objection(state)
    } else if !(state.says("inline"@) || state.says("private_required"@) || state.says(
        "unavailable"@,
    )) {
        Some("unknown presentation state"@)
    } else if state.says("inline"@) && reason != JsonView::Null {
        Some("inline reason"@)
    } else if !state.says("inline"@) && string_objection(reason) is Some {
        string_objection(reason)
    } else if !state.says("inline"@) && !known_reasons().contains(reason.text()->0) {
        Some("unknown reason"@)
    } else if optional is Some {
        optional
    } else if identified && string_objection(v.at("presentation_id"@)) is Some {
        string_objection(v.at("presentation_id"@))
    } else if identified && string_objection(v.at("presentation_fingerprint"@)) is Some {
        string_objection(v.at("presentation_fingerprint"@))
    } else if identified && expiry_of(v) is Err {
        Some(expiry_of(v)->Err_0)
    } else if v.at("renderer"@) != JsonView::Null && string_objection(v.at("renderer"@)) is Some {
        string_objection(v.at("renderer"@))
    } else if v.at("renderer"@) != JsonView::Null && !says_one(v.at("renderer"@), renderers()) {
        Some("unknown renderer"@)
    } else {
        None
    }
}

fn check_state(v: &Json) -> (r: Result<(), String>)
    ensures
        match state_objection(v@) {
            None => r is Ok,
            Some(e) => r is Err && r->Err_0@ == e,
        },
{
    let state = v.at("state");
    let reason = v.at("reason");
    match string(state) {
        Err(e) => {
            return Err(String::from_str(e));
        },
        Ok(_) => {},
    }
    let inline = state.is_text("inline");
    if !(inline || state.is_text("private_required") || state.is_text("unavailable")) {
        return Err(String::from_str("unknown presentation state"));
    }
    if inline {
        if !reason.is_null() {
            return Err(String::from_str("inline reason"));
        }
    } else {
        match string(reason) {
            Err(e) => {
                return Err(String::from_str(e));
            },
            Ok(s) => {
                if !known_reason(s) {
                    return Err(String::from_str("unknown reason"));
                }
            },
        }
    }
    let optional: Vec<&str> = vec![
        "turn_id",
        "scope_fingerprint",
        "presentation_id",
        "presentation_fingerprint",
        "expires_at",
    ];
    assert(names(optional@) =~= optional_texts());
    match check_optional(v, &optional) {
        Err(e) => {
            return Err(String::from_str(e));
        },
        Ok(()) => {},
    }
    if !state.is_text("unavailable") && !reason.is_text("presentation_limit") {
        match string(v.at("presentation_id")) {
            Err(e) => {
                return Err(String::from_str(e));
            },
            Ok(_) => {},
        }
        match string(v.at("presentation_fingerprint")) {
            Err(e) => {
                return Err(String::from_str(e));
            },
            Ok(_) => {},
        }
        match expiry(v) {
            Err(e) => {
                return Err(e);
            },
            Ok(_) => {},
        }
    }
    if !v.at("renderer").is_null() {
        match string(v.at("renderer")) {
            Err(e) => {
                return Err(String::from_str(e));
            },
            Ok(_) => {},
        }
        let known: Vec<&str> = vec!["browser-find-v1", "browser-navigate-v1", "browser-tabs-list-v1"];
        assert(names(known@) =~= renderers());
        if !is_one(v.at("renderer"), &known) {
            return Err(String::from_str("unknown renderer"));
        }
    }
    Ok(())
}

/// The actions of a card.
pub open spec fn action_names() -> Seq<Seq<char>> {
    seq!["allow_once"@, "allow_turn_tool"@, "decline"@, "open_private_details"@]
}

/// Why the actions of a card do not fit its state.
pub open spec fn action_objection(v: JsonView) -> Option<Seq<char>> {
    let a = v.at("actions"@);
    let state = v.at("state"@);
    if !all_boolean(a, action_names()) {
        Some("invalid action type"@)
    } else if state.says("inline"@) {
        if !(a.at("allow_once"@).is_true() && a.at("decline"@).is_true() && a.at(
            "open_private_details"@,
        ).is_false() && v.at("renderer"@) != JsonView::Null) {
            Some("invalid inline actions"@)
        } else if string_objection(v.at("turn_id"@)) is Some {
            string_objection(v.at("turn_id"@))
        } else {
            string_objection(v.at("scope_fingerprint"@))
        }
    } else if state.says("private_required"@) {
        if !(a.at("allow_once"@).is_false() && a.at("allow_turn_tool"@).is_false() && a.at(
            "open_private_details"@,
        ).is_true() && a.at("decline"@).is_true()) {
            Some("invalid private actions"@)
        } else {
            None
        }
    } else {
        if !(a.at("allow_once"@).is_false() && a.at("allow_turn_tool"@).is_false() && a.at(
            "open_private_details"@,
        ).is_false()) {
            Some("invalid unavailable actions"@)
        } else {
            None
        }
    }
}

fn check_actions(v: &Json) -> (r: Result<(), &'static str>)
    ensures
        match action_objection(v@) {
            None => r is Ok,
            Some(e) => r is Err && r->Err_0@ == e,
        },
{
    let a = v.at("actions");
    let state = v.at("state");
    let actions: Vec<&str> = vec!["allow_once", "allow_turn_tool", "decline", "open_private_details"];
    assert(names(actions@) =~= action_names());
    if !are_boolean(a, &actions) {
        return Err("invalid action type");
    }
    if state.is_text("inline") {
        if !(a.at("allow_once").is_bool(true) && a.at("decline").is_bool(true) && a.at(
            "open_private_details",
        ).is_bool(false) && !v.at("renderer").is_null()) {
            return Err("invalid inline actions");
        }
        match string(v.at("turn_id")) {
            Err(e) => {
                return Err(e);
            },
            Ok(_) => {},
        }
        match string(v.at("scope_fingerprint")) {
            Err(e) => Err(e),
            Ok(_) => Ok(()),
        }
    } else if state.is_text("private_required") {
        if !(a.at("allow_once").is_bool(false) && a.at("allow_turn_tool").is_bool(false) && a.at(
            "open_private_details",
        ).is_bool(true) && a.at("decline").is_bool(true)) {
            return Err("invalid private actions");
        }
        Ok(())
    } else {
        if !(a.at("allow_once").is_bool(false) && a.at("allow_turn_tool").is_bool(false) && a.at(
            "open_private_details",
        ).is_bool(false)) {
            return Err("invalid unavailable actions");
        }
        Ok(())
    }
}

/// What may be left out of a card.
pub open spec fn omission_words() -> Seq<Seq<char>> {
    seq![
        "private_arguments"@,
        "unknown_arguments"@,
        "information_incomplete"@,
        "display_too_large"@,
    ]
}

/// Why a piece of a card cannot be shown.
pub open spec fn piece_objection(v: JsonView, omission: bool) -> Option<Seq<char>> {
    if shown_objection(v) is Some {
        shown_objection(v)
    } else if omission && !says_one(v, omission_words()) {
        Some("unknown omission"@)
    } else {
        None
    }
}

/// The first objection to one of the first `n` pieces.
pub open spec fn pieces_objection(v: Seq<JsonView>, omission: bool, n: nat) -> Option<Seq<char>>
    decreases n,
{
    if n == 0 || n > v.len() {
        None
    } else {
        let e = pieces_objection(v, omission, (n - 1) as nat);
        if e is Some {
            e
        } else {
            piece_objection(v[n - 1], omission)
        }
    }
}

proof fn lemma_pieces_objection(v: Seq<JsonView>, omission: bool, i: nat, n: nat)
    requires
        i <= n <= v.len(),
        pieces_objection(v, omission, i) is Some,
    ensures
        pieces_objection(v, omission, n) == pieces_objection(v, omission, i),
    decreases n,
{
    if i < n {
        lemma_pieces_objection(v, omission, i, (n - 1) as nat);
    }
}

/// How many UTF-16 units the first `n` pieces have.
pub open spec fn pieces_units(v: Seq<JsonView>, n: nat) -> nat
    decreases n,
{
    if n == 0 || n > v.len() {
        0
    } else {
        pieces_units(v, (n - 1) as nat) + utf16_len(v[n - 1].text()->0)
    }
}

/// The labels and values of the fields of a card, in order.
pub open spec fn field_pieces(f: Seq<JsonView>) -> Seq<JsonView> {
    Seq::new(
        2 * f.len(),
        |i: int| if i % 2 == 0 {
            f[i / 2].at("label"@)
        } else {
            f[i / 2].at("value"@)
        },
    )
}

/// The documents that some references stand for.
pub open spec fn refs(v: Seq<&Json>) -> Seq<JsonView> {
    v.map_values(|j: &Json| j@)
}

/// A number of units, as far as it matters.
pub open spec fn capped(n: nat) -> nat {
    if n > MAX_DISPLAY_UNITS {
        (MAX_DISPLAY_UNITS + 1) as nat
    } else {
        n
    }
}

fn check_pieces(v: &Vec<&Json>, omission: bool, start: usize) -> (r: Result<usize, &'static str>)
    requires
        start <= MAX_DISPLAY_UNITS + 1,
    ensures
        match pieces_objection(refs(v@), omission, v@.len()) {
            None => r is Ok && r->Ok_0 == capped(start as nat + pieces_units(refs(v@), v@.len())),
            Some(e) => r is Err && r->Err_0@ == e,
        },
{
    let ghost all = refs(v@);
    let words: Vec<&str> = vec![
        "private_arguments",
        "unknown_arguments",
        "information_incomplete",
        "display_too_large",
    ];
    assert(names(words@) =~= omission_words());
    let mut units: usize = start;
    let mut i: usize = 0;
    while i < v.len()
        invariant
            i <= v@.len(),
            all == refs(v@),
            names(words@) == omission_words(),
            units <= MAX_DISPLAY_UNITS + 1,
            pieces_objection(all, omission, i as nat) is None,
            units == capped(start as nat + pieces_units(all, i as nat)),
        decreases v@.len() - i,
    {
        assert(all[i as int] == v@[i as int]@);
        match display_string(v[i]) {
            Err(e) => {
                proof {
                    lemma_pieces_objection(all, omission, (i + 1) as nat, all.len());
                }
                return Err(e);
            },
            Ok(s) => {
                if omission && !is_one(v[i], &words) {
                    proof {
                        lemma_pieces_objection(all, omission, (i + 1) as nat, all.len());
                    }
                    return Err("unknown omission");
                }
                let n: usize = utf16_count(s);
                if n > MAX_DISPLAY_UNITS || units + n > MAX_DISPLAY_UNITS {
                    units = MAX_DISPLAY_UNITS + 1;
                } else {
                    units = units + n;
                }
            },
        }
        i += 1;
    }
    Ok(units)
}

fn refs_of(v: &Vec<Json>) -> (r: Vec<&Json>)
    ensures
        refs(r@) == trees(v@),
{
    let ghost all = trees(v@);
    let mut out: Vec<&Json> = Vec::new();
    let mut i: usize = 0;
    while i < v.len()
        invariant
            i <= v@.len(),
            all == trees(v@),
            out@.len() == i,
            forall|j: int| 0 <= j < i ==> (#[trigger] out@[j])@ == all[j],
        decreases v@.len() - i,
    {
        assert(all[i as int] == v@[i as int]@);
        out.push(&v[i]);
        i += 1;
    }
    assert(refs(out@) =~= all);
    out
}

fn field_refs(v: &Vec<Json>) -> (r: Vec<&Json>)
    requires
        v@.len() <= MAX_DISPLAY_FIELDS,
    ensures
        refs(r@) == field_pieces(trees(v@)),
{
    let ghost all = trees(v@);
    let ghost want = field_pieces(all);
    let mut out: Vec<&Json> = Vec::new();
    let mut i: usize = 0;
    while i < v.len()
        invariant
            i <= v@.len() <= MAX_DISPLAY_FIELDS,
            all == trees(v@),
            want == field_pieces(all),
            out@.len() == 2 * i,
            forall|j: int| 0 <= j < 2 * i ==> (#[trigger] out@[j])@ == want[j],
        decreases v@.len() - i,
    {
        assert(all[i as int] == v@[i as int]@);
        assert(want[2 * i as int] == all[i as int].at("label"@));
        assert(want[2 * i + 1] == all[i as int].at("value"@));
        out.push(v[i].at("label"));
        out.push(v[i].at("value"));
        i += 1;
    }
    assert(refs(out@) =~= want);
    out
}

/// Why a card cannot be shown.
pub open spec fn display_objection(v: JsonView) -> Option<Seq<char>> {
    let d = v.at("display"@);
    let inline = v.at("state"@).says("inline"@);
    let provenance = d.at("provenance"@);
    let fields = d.at("fields"@).array();
    let limitations = d.at("limitations"@).array();
    let omissions = d.at("omissions"@).array();
    if !(d.at("disclosure"@).says("source_conversation"@) && (provenance.says(
        "proxy_verified_call"@,
    ) || provenance.says("unavailable"@))) {
        Some("invalid disclosure"@)
    } else if inline && !provenance.says("proxy_verified_call"@) {
        Some("unverified inline"@)
    } else if shown_objection(d.at("title"@)) is Some {
        shown_objection(d.at("title"@))
    } else if fields is None {
        Some("fields"@)
    } else if fields->0.len() > MAX_DISPLAY_FIELDS {
        Some("too many fields"@)
    } else if pieces_objection(field_pieces(fields->0), false, 2 * fields->0.len()) is Some {
        pieces_objection(field_pieces(fields->0), false, 2 * fields->0.len())
    } else if limitations is None {
        Some("limitations"@)
    } else if pieces_objection(limitations->0, false, limitations->0.len()) is Some {
        pieces_objection(limitations->0, false, limitations->0.len())
    } else if omissions is None {
        Some("omissions"@)
    } else if pieces_objection(omissions->0, true, omissions->0.len()) is Some {
        pieces_objection(omissions->0, true, omissions->0.len())
    } else if shown_units(d) > MAX_DISPLAY_UNITS {
        Some("display text limit"@)
    } else if inline && omissions->0.len() > 0 {
        Some("incomplete inline"@)
    } else {
        None
    }
}

/// How many UTF-16 units a card shows.
pub open spec fn shown_units(d: JsonView) -> nat {
    let fields = d.at("fields"@).array()->0;
    let limitations = d.at("limitations"@).array()->0;
    let omissions = d.at("omissions"@).array()->0;
    utf16_len(d.at("title"@).text()->0) + pieces_units(field_pieces(fields), 2 * fields.len())
        + pieces_units(limitations, limitations.len()) + pieces_units(omissions, omissions.len())
}

fn check_display(v: &Json) -> (r: Result<(), &'static str>)
    ensures
        match display_objection(v@) {
            None => r is Ok,
            Some(e) => r is Err && r->Err_0@ == e,
        },
{
    let d = v.at("display");
    let inline = v.at("state").is_text("inline");
    let provenance = d.at("provenance");
    let verified = provenance.is_text("proxy_verified_call");
    if !(d.at("disclosure").is_text("source_conversation") && (verified || provenance.is_text(
        "unavailable",
    ))) {
        return Err("invalid disclosure");
    }
    if inline && !verified {
        return Err("unverified inline");
    }
    let title: usize = match display_string(d.at("title")) {
        Err(e) => {
            return Err(e);
        },
        Ok(s) => {
            let n: usize = utf16_count(s);
            if n > MAX_DISPLAY_UNITS {
                MAX_DISPLAY_UNITS + 1
            } else {
                n
            }
        },
    };
    let fields = match d.at("fields").as_array() {
        Some(v) => v,
        None => {
            return Err("fields");
        },
    };
    assert(trees(fields@) =~= d@.at("fields"@).array()->0);
    assert(trees(fields@).len() == fields@.len());
    if fields.len() > MAX_DISPLAY_FIELDS {
        return Err("too many fields");
    }
    let parts = field_refs(fields);
    assert(refs(parts@).len() == parts@.len());
    let units: usize = match check_pieces(&parts, false, title) {
        Err(e) => {
            return Err(e);
        },
        Ok(n) => n,
    };
    let limitations = match d.at("limitations").as_array() {
        Some(v) => v,
        None => {
            return Err("limitations");
        },
    };
    assert(trees(limitations@) =~= d@.at("limitations"@).array()->0);
    let parts = refs_of(limitations);
    assert(refs(parts@).len() == parts@.len());
    let units: usize = match check_pieces(&parts, false, units) {
        Err(e) => {
            return Err(e);
        },
        Ok(n) => n,
    };
    let omissions = match d.at("omissions").as_array() {
        Some(v) => v,
        None => {
            return Err("omissions");
        },
    };
    assert(trees(omissions@) =~= d@.at("omissions"@).array()->0);
    assert(trees(omissions@).len() == omissions@.len());
    let parts = refs_of(omissions);
    assert(refs(parts@).len() == parts@.len());
    let units: usize = match check_pieces(&parts, true, units) {
        Err(e) => {
            return Err(e);
        },
        Ok(n) => n,
    };
    assert(units == capped(shown_units(d@)));
    if units > MAX_DISPLAY_UNITS {
        return Err("display text limit");
    }
    if inline && omissions.len() > 0 {
        return Err("incomplete inline");
    }
    Ok(())
}

/// Why the description of a card is not accepted.
pub open spec fn presentation_objection(v: JsonView) -> Option<Seq<char>> {
    if head_objection(v) is Some {
        head_objection(v)
    } else if state_objection(v) is Some {
        state_objection(v)
    } else if action_objection(v) is Some {
        action_objection(v)
    } else {
        display_objection(v)
    }
}

/// Whether the description of a card is accepted, by its structure alone.
pub fn validate_presentation(v: &Json) -> (r: Result<(), String>)
    ensures
        match presentation_objection(v@) {
            None => r is Ok,
            Some(e) => r is Err && r->Err_0@ == e,
        },
{
    match check_head(v) {
        Err(e) => {
            return Err(String::from_str(e));
        },
        Ok(()) => {},
    }
    match check_state(v) {
        Err(e) => {
            return Err(e);
        },
        Ok(()) => {},
    }
    match check_actions(v) {
        Err(e) => {
            return Err(String::from_str(e));
        },
        Ok(()) => {},
    }
    match check_display(v) {
        Ok(()) => Ok(()),
        Err(e) => Err(String::from_str(e)),
    }
}

/// A card that allows anything in the conversation shows the whole, verified operation; any other
/// card allows nothing there.
pub proof fn only_whole_cards_allow(v: JsonView)
    requires
        presentation_objection(v) is None,
        v.at("actions"@).at("allow_once"@).is_true() || v.at("actions"@).at(
            "allow_turn_tool"@,
        ).is_true(),
    ensures
        v.at("state"@).says("inline"@),
        v.at("display"@).at("provenance"@).says("proxy_verified_call"@),
        v.at("display"@).at("omissions"@) == JsonView::Array(Seq::empty()),
        v.at("reason"@) == JsonView::Null,
{
    let o = v.at("display"@).at("omissions"@);
    assert(o is Array);
    assert(o->Array_0 =~= Seq::empty());
}

/// A text as a code block that it cannot end.
pub fn fence(s: &str) -> (r: String)
    ensures
        r@ == fenced(s@),
{
    code_block(s)
}

/// The identity of the button that opens the details of a request.
pub open spec fn details_id(rec: McpRecord) -> Seq<char> {
    "mt:details:"@ + rec.id@ + ":"@ + signed_decimal(rec.revision as int)
}

/// The identity of the button that declines a request.
pub open spec fn decline_id(rec: McpRecord) -> Seq<char> {
    "mcp:"@ + rec.id@ + ":"@ + signed_decimal(rec.revision as int) + ":decline"@
}

fn details_button(rec: &McpRecord) -> (r: Json)
    ensures
        r@ == button_view(details_id(*rec), "本人限定で確認"@, 1),
{
    let n = signed_text(rec.revision);
    let id = String::from_str("mt:details:").concat(rec.id.as_str()).concat(":").concat(n.as_str());
    button(id.as_str(), "本人限定で確認", 1)
}

fn decline_button(rec: &McpRecord) -> (r: Json)
    ensures
        r@ == button_view(decline_id(*rec), "拒否"@, 4),
{
    let n = signed_text(rec.revision);
    let id = String::from_str("mcp:").concat(rec.id.as_str()).concat(":").concat(n.as_str()).concat(
        ":decline",
    );
    button(id.as_str(), "拒否", 4)
}

/// A row of buttons, where there are any.
pub open spec fn row_of(v: Seq<JsonView>) -> JsonView {
    if v.len() == 0 {
        JsonView::Array(Seq::empty())
    } else {
        row_view(v)
    }
}

fn make_row(v: Vec<Json>) -> (r: Json)
    ensures
        r@ == row_of(trees(v@)),
{
    assert(trees(v@).len() == v@.len());
    if v.len() == 0 {
        empty_array()
    } else {
        row(v)
    }
}

/// The text of a card that cannot show its operation.
pub open spec fn fallback_text(reason: Seq<char>, private: bool) -> Seq<char> {
    reason + "\n"@ + if private {
        "本人限定で内容を確認してから、許可するか選んでください。作業停止は /stop。"@
    } else {
        "許可せず、拒否または /stop で停止してください。解消しない場合は運用者に確認してください。"@
    }
}

/// The buttons of a card that cannot show its operation.
pub open spec fn fallback_buttons(rec: McpRecord, private: bool, decline: bool) -> Seq<JsonView> {
    let details = if private {
        seq![button_view(details_id(rec), "本人限定で確認"@, 1)]
    } else {
        Seq::empty()
    };
    let no = if decline {
        seq![button_view(decline_id(rec), "拒否"@, 4)]
    } else {
        Seq::empty()
    };
    details + no
}

/// A card that cannot show its operation.
pub fn fallback(rec: &McpRecord, reason: &str, private: bool, decline: bool) -> (r: (String, Json))
    ensures
        r.0@ == fallback_text(reason@, private),
        r.1@ == row_of(fallback_buttons(*rec, private, decline)),
{
    let mut buttons: Vec<Json> = Vec::new();
    if private {
        buttons.push(details_button(rec));
    }
    if decline {
        buttons.push(decline_button(rec));
    }
    assert(trees(buttons@) =~= fallback_buttons(*rec, private, decline));
    (
        String::from_str(reason).concat("\n").concat(
            if private {
                "本人限定で内容を確認してから、許可するか選んでください。作業停止は /stop。"
            } else {
                "許可せず、拒否または /stop で停止してください。解消しない場合は運用者に確認してください。"
            },
        ),
        make_row(buttons),
    )
}

/// The lines of the first `n` fields.
pub open spec fn field_lines(f: Seq<JsonView>, n: nat) -> Seq<Seq<char>>
    decreases n,
{
    if n == 0 || n > f.len() {
        Seq::empty()
    } else {
        field_lines(f, (n - 1) as nat).push(
            f[n - 1].at("label"@).text()->0 + "："@ + f[n - 1].at("value"@).text()->0,
        )
    }
}

/// The lines of the first `n` limitations.
pub open spec fn limitation_lines(f: Seq<JsonView>, n: nat) -> Seq<Seq<char>>
    decreases n,
{
    if n == 0 || n > f.len() {
        Seq::empty()
    } else {
        limitation_lines(f, (n - 1) as nat).push(f[n - 1].text()->0)
    }
}

/// What a card shows of its operation.
pub open spec fn card_lines(d: JsonView) -> Seq<char> {
    let f = d.at("fields"@).array()->0;
    let l = d.at("limitations"@).array()->0;
    joined(
        seq![d.at("title"@).text()->0] + field_lines(f, f.len()) + limitation_lines(l, l.len()),
        "\n"@,
    )
}

/// The text of a card.
pub open spec fn card_text(v: JsonView) -> Seq<char> {
    let shown = fenced(card_lines(v.at("display"@)));
    if v.at("state"@).says("inline"@) {
        shown + if v.at("actions"@).at("allow_turn_tool"@).is_true() {
            "\nこの依頼の同じツールを別の引数でも許可します。追加発言・停止・終了・最大10分で失効します。取消は /mcp。"@
        } else {
            Seq::empty()
        } + "\n「今回だけ許可」は、この呼出し1回だけを許可します。"@
    } else {
        shown
    }
}

/// The buttons of a card.
pub open spec fn card_buttons(v: JsonView, rec: McpRecord, view: Seq<char>) -> Seq<JsonView> {
    let a = v.at("actions"@);
    let main = if v.at("state"@).says("inline"@) {
        if a.at("allow_turn_tool"@).is_true() {
            seq![
                button_view("mi:"@ + view + ":turn"@, "この依頼中、このツールを許可"@, 3),
                button_view("mi:"@ + view + ":once"@, "今回だけ許可"@, 3),
            ]
        } else {
            seq![button_view("mi:"@ + view + ":once"@, "今回だけ許可"@, 3)]
        }
    } else if a.at("open_private_details"@).is_true() {
        seq![button_view(details_id(rec), "本人限定で確認"@, 1)]
    } else {
        Seq::empty()
    };
    let no = if a.at("decline"@).is_true() {
        seq![button_view(decline_id(rec), "拒否"@, 4)]
    } else {
        Seq::empty()
    };
    main + no
}

/// A card.
#[derive(Debug)]
pub struct Card {
    pub text: String,
    pub components: Json,
    /// Whether it allows the operation in the conversation.
    pub inline: bool,
}

fn lines_of(d: &Json, title: &str) -> (r: String)
    requires
        d@.at("title"@).text() == Some(title@),
        d@.at("fields"@).array() is Some,
        d@.at("limitations"@).array() is Some,
        pieces_objection(
            field_pieces(d@.at("fields"@).array()->0),
            false,
            2 * d@.at("fields"@).array()->0.len(),
        ) is None,
        pieces_objection(
            d@.at("limitations"@).array()->0,
            false,
            d@.at("limitations"@).array()->0.len(),
        ) is None,
    ensures
        r@ == card_lines(d@),
{
    let mut lines: Vec<String> = Vec::new();
    lines.push(title.to_owned());
    let ghost head = seq![title@];
    assert(views(lines@) =~= head);
    let ghost f = d@.at("fields"@).array()->0;
    let ghost l = d@.at("limitations"@).array()->0;
    assert(views(lines@) =~= head + field_lines(f, 0));
    if let Some(list) = d.at("fields").as_array() {
        let mut i: usize = 0;
        while i < list.len()
            invariant
                i <= list@.len(),
                list@.len() == f.len(),
                forall|j: int| 0 <= j < f.len() ==> #[trigger] list@[j]@ == f[j],
                pieces_objection(field_pieces(f), false, 2 * f.len()) is None,
                views(lines@) == head + field_lines(f, i as nat),
            decreases list@.len() - i,
        {
            assert(list@[i as int]@ == f[i as int]);
            proof {
                lemma_piece_accepted(field_pieces(f), 2 * i as int, 2 * f.len());
                lemma_piece_accepted(field_pieces(f), 2 * i + 1, 2 * f.len());
                assert(field_pieces(f)[2 * i as int] == f[i as int].at("label"@));
                assert(field_pieces(f)[2 * i + 1] == f[i as int].at("value"@));
            }
            if let Some(label) = list[i].at("label").as_str() {
                if let Some(value) = list[i].at("value").as_str() {
                    let ghost before = views(lines@);
                    lines.push(String::from_str(label).concat("：").concat(value));
                    assert(views(lines@) =~= before.push(label@ + "："@ + value@));
                }
            }
            i += 1;
            assert(views(lines@) =~= head + field_lines(f, i as nat));
        }
    }
    let ghost upto = head + field_lines(f, f.len());
    assert(views(lines@) =~= upto + limitation_lines(l, 0));
    if let Some(list) = d.at("limitations").as_array() {
        let mut i: usize = 0;
        while i < list.len()
            invariant
                i <= list@.len(),
                list@.len() == l.len(),
                forall|j: int| 0 <= j < l.len() ==> #[trigger] list@[j]@ == l[j],
                pieces_objection(l, false, l.len()) is None,
                views(lines@) == upto + limitation_lines(l, i as nat),
            decreases list@.len() - i,
        {
            assert(list@[i as int]@ == l[i as int]);
            proof {
                lemma_piece_accepted(l, i as int, l.len());
            }
            if let Some(s) = list[i].as_str() {
                let ghost before = views(lines@);
                lines.push(s.to_owned());
                assert(views(lines@) =~= before.push(s@));
            }
            i += 1;
            assert(views(lines@) =~= upto + limitation_lines(l, i as nat));
        }
    }
    join(&lines, "\n")
}

proof fn lemma_piece_accepted(v: Seq<JsonView>, i: int, n: nat)
    requires
        0 <= i < n <= v.len(),
        pieces_objection(v, false, n) is None,
    ensures
        v[i].text() is Some,
    decreases n,
{
    if i < n - 1 {
        lemma_piece_accepted(v, i, (n - 1) as nat);
    }
}

/// The card of an accepted description; where it would be too long for a message, one that says so
/// and allows nothing.
pub fn card(v: &Json, rec: &McpRecord, view: &str) -> (r: Card)
    requires
        presentation_objection(v@) is None,
    ensures
        shows_card(r, v@, *rec, view@),
{
    let d = v.at("display");
    let a = v.at("actions");
    let title = match d.at("title").as_str() {
        Some(s) => s,
        None => "",
    };
    let lines = lines_of(d, title);
    let mut text = fence(lines.as_str());
    let mut buttons: Vec<Json> = Vec::new();
    let inline = v.at("state").is_text("inline");
    if inline {
        if a.at("allow_turn_tool").is_bool(true) {
            text.append(
                "\nこの依頼の同じツールを別の引数でも許可します。追加発言・停止・終了・最大10分で失効します。取消は /mcp。",
            );
            let id = String::from_str("mi:").concat(view).concat(":turn");
            buttons.push(button(id.as_str(), "この依頼中、このツールを許可", 3));
        }
        text.append("\n「今回だけ許可」は、この呼出し1回だけを許可します。");
        let id = String::from_str("mi:").concat(view).concat(":once");
        buttons.push(button(id.as_str(), "今回だけ許可", 3));
    } else if a.at("open_private_details").is_bool(true) {
        buttons.push(details_button(rec));
    }
    let decline = a.at("decline").is_bool(true);
    if decline {
        buttons.push(decline_button(rec));
    }
    assert(text@ =~= card_text(v@));
    assert(trees(buttons@) =~= card_buttons(v@, *rec, view@));
    if utf16_count(text.as_str()) > 2000 {
        let (t, b) = fallback(
            rec,
            "操作内容が長いため、最初のカードには全体を表示できません。",
            !v.at("state").is_text("unavailable"),
            decline,
        );
        return Card { text: t, components: b, inline: false };
    }
    Card { text, components: make_row(buttons), inline }
}

/// The digest of a card as it is shown.
pub open spec fn card_digest_of(t: Seq<char>, components: JsonView) -> Seq<char> {
    sha256_hex(
        compact(document(JsonView::Array(seq![JsonView::Text(t), canonical(components)]))),
    )
}

pub fn card_digest(t: &str, components: &Json) -> (r: String)
    ensures
        r@ == card_digest_of(t@, components@),
{
    digest(encode(&array2(text(t), canonical_components(components))).as_slice())
}

/// The tool that a form of showing is for.
pub open spec fn tool_of(renderer: JsonView) -> Option<Seq<char>> {
    if renderer.says("browser-find-v1"@) {
        Some("browser_find"@)
    } else if renderer.says("browser-navigate-v1"@) {
        Some("browser_navigate"@)
    } else if renderer.says("browser-tabs-list-v1"@) {
        Some("browser_tabs"@)
    } else {
        None
    }
}

/// Why the description of a card is not that of an operation.
pub open spec fn binding_objection(
    p: JsonView,
    op: JsonView,
    context: JsonView,
    rec: McpRecord,
    caps: Capabilities,
    now: i64,
) -> Option<Seq<char>> {
    let expires = expiry_of(p);
    let dated = p.at("expires_at"@) != JsonView::Null;
    let inline = p.at("state"@).says("inline"@);
    if !caps.inline {
        Some("inline capability unavailable"@)
    } else if presentation_objection(p) is Some {
        presentation_objection(p)
    } else if !(p.at("interaction_id"@).says(rec.remote@) && p.at("response_id"@).says(rec.response@)
        && p.at("revision"@).signed() == Some(rec.revision) && alike(p.at("turn_id"@), op.at("turn_id"@))
        && alike(p.at("scope_fingerprint"@), op.at("scope_fingerprint"@))) {
        Some("presentation identity mismatch"@)
    } else if !alike(p.at("audience"@).at("channel_id"@), context.at("channel_id"@)) {
        Some("presentation audience mismatch"@)
    } else if dated && expires is Err {
        Some(expires->Err_0)
    } else if dated && !(expires->Ok_0 <= rec.expires && now < expires->Ok_0 <= now + CARD_MILLIS) {
        Some("presentation expired"@)
    } else if inline && !(op.at("binding_status"@).says("verified"@) && op.at("unavailable_reason"@)
        == JsonView::Null && op.at("arguments"@) is Object && op.at("redacted_paths"@)
        == JsonView::Array(Seq::empty())) {
        Some("operation unavailable"@)
    } else if inline && tool_of(p.at("renderer"@)) is None {
        Some("renderer missing"@)
    } else if inline && !op.at("tool"@).says(tool_of(p.at("renderer"@))->0) {
        Some("renderer/tool mismatch"@)
    } else if inline && p.at("actions"@).at("allow_turn_tool"@).is_true() && !eligible_for_turn(
        op,
        caps,
    ) {
        Some("turn grant ineligible"@)
    } else {
        None
    }
}

/// Whether the description of a card is that of an operation, for this conversation and moment.
pub fn presentation(
    p: &Json,
    op: &Json,
    context: &Json,
    rec: &McpRecord,
    caps: Capabilities,
    now: i64,
) -> (r: Result<(), String>)
    requires
        now <= i64::MAX - CARD_MILLIS,
    ensures
        match binding_objection(p@, op@, context@, *rec, caps, now) {
            None => r is Ok,
            Some(e) => r is Err && r->Err_0@ == e,
        },
{
    if !caps.inline {
        return Err(String::from_str("inline capability unavailable"));
    }
    match validate_presentation(p) {
        Err(e) => {
            return Err(e);
        },
        Ok(()) => {},
    }
    let same_revision = match p.at("revision").as_i64() {
        Some(n) => n == rec.revision,
        None => false,
    };
    if !(p.at("interaction_id").is_text(rec.remote.as_str()) && p.at("response_id").is_text(
        rec.response.as_str(),
    ) && same_revision && p.at("turn_id").same_as(op.at("turn_id")) && p.at(
        "scope_fingerprint",
    ).same_as(op.at("scope_fingerprint"))) {
        return Err(String::from_str("presentation identity mismatch"));
    }
    if !p.at("audience").at("channel_id").same_as(context.at("channel_id")) {
        return Err(String::from_str("presentation audience mismatch"));
    }
    if !p.at("expires_at").is_null() {
        match expiry(p) {
            Err(e) => {
                return Err(e);
            },
            Ok(t) => {
                if !(t <= rec.expires && t > now && t <= now + CARD_MILLIS) {
                    return Err(String::from_str("presentation expired"));
                }
            },
        }
    }
    if p.at("state").is_text("inline") {
        if !(op.at("binding_status").is_text("verified") && op.at("unavailable_reason").is_null()
            && op.at("arguments").is_object() && crate::direct_approval::is_empty_array(
            op.at("redacted_paths"),
        )) {
            return Err(String::from_str("operation unavailable"));
        }
        let renderer = p.at("renderer");
        let tool = if renderer.is_text("browser-find-v1") {
            "browser_find"
        } else if renderer.is_text("browser-navigate-v1") {
            "browser_navigate"
        } else if renderer.is_text("browser-tabs-list-v1") {
            "browser_tabs"
        } else {
            return Err(String::from_str("renderer missing"));
        };
        if !op.at("tool").is_text(tool) {
            return Err(String::from_str("renderer/tool mismatch"));
        }
        if p.at("actions").at("allow_turn_tool").is_bool(true) && !turn_eligible(op, caps) {
            return Err(String::from_str("turn grant ineligible"));
        }
    }
    Ok(())
}

/// The digest of the description of a card.
pub fn snapshot(p: &Json) -> (r: String)
    ensures
        r@ == sha256_hex(compact(document(p@))),
{
    digest(encode(p).as_slice())
}

/// What is shown of a decision.
#[derive(Debug)]
pub enum InlineStep {
    /// Close what was open and show this card, which allows nothing.
    Closed(Card),
    /// Open a view for this description.
    Open { presentation_id: String, token: String, expires: i64, snapshot: String },
}

/// What is shown of a decision. `p` is its description, where an acceptable one was read.
pub fn render_inline_mcp(p: Option<&Json>, rec: &McpRecord) -> (r: InlineStep)
    requires
        p is Some ==> presentation_objection(p->0@) is None,
    ensures
        match p {
            None => {
                &&& r is Closed
                &&& r->Closed_0.text@ == fallback_text("操作内容をまだ確認できません。"@, false)
                &&& r->Closed_0.components@ == row_of(fallback_buttons(*rec, false, true))
                &&& !r->Closed_0.inline
            },
            Some(p) => if p@.at("state"@).says("inline"@) {
                &&& r is Open
                &&& Some(r->presentation_id@) == p@.at("presentation_id"@).text()
                &&& Some(r->token@) == p@.at("presentation_fingerprint"@).text()
                &&& expiry_of(p@) is Ok
                &&& r->expires == expiry_of(p@)->Ok_0
                &&& r->snapshot@ == sha256_hex(compact(document(p@)))
            } else {
                r is Closed && !r->Closed_0.inline && shows_card(r->Closed_0, p@, *rec, ""@)
            },
        },
{
    match p {
        None => {
            let (text, components) = fallback(rec, "操作内容をまだ確認できません。", false, true);
            InlineStep::Closed(Card { text, components, inline: false })
        },
        Some(p) => {
            if !p.at("state").is_text("inline") {
                return InlineStep::Closed(card(p, rec, ""));
            }
            proof {
                lemma_inline_is_identified(p@);
            }
            let id = match p.at("presentation_id").as_str() {
                Some(s) => s,
                None => "",
            };
            let token = match p.at("presentation_fingerprint").as_str() {
                Some(s) => s,
                None => "",
            };
            let expires: i64 = match expiry(p) {
                Ok(t) => t,
                Err(_) => 0,
            };
            InlineStep::Open {
                presentation_id: id.to_owned(),
                token: token.to_owned(),
                expires,
                snapshot: snapshot(p),
            }
        },
    }
}

/// What is shown of a decision, with everything that was read for it checked first: where the
/// description is missing or does not fit the operation, a card that allows nothing.
pub fn show_inline(
    p: Option<&Json>,
    op: &Json,
    context: &Json,
    rec: &McpRecord,
    caps: Capabilities,
    now: i64,
) -> (r: InlineStep)
    requires
        now <= i64::MAX - CARD_MILLIS,
    ensures
        ({
            let unusable = p is None || binding_objection(p->0@, op@, context@, *rec, caps, now) is Some;
            &&& unusable ==> {
                &&& r is Closed
                &&& r->Closed_0.text@ == fallback_text("操作内容をまだ確認できません。"@, false)
                &&& r->Closed_0.components@ == row_of(fallback_buttons(*rec, false, true))
                &&& !r->Closed_0.inline
            }
            &&& !unusable && p->0@.at("state"@).says("inline"@) ==> {
                &&& r is Open
                &&& Some(r->presentation_id@) == p->0@.at("presentation_id"@).text()
                &&& Some(r->token@) == p->0@.at("presentation_fingerprint"@).text()
                &&& expiry_of(p->0@) is Ok
                &&& r->expires == expiry_of(p->0@)->Ok_0
                &&& r->snapshot@ == sha256_hex(compact(document(p->0@)))
            }
            &&& !unusable && !p->0@.at("state"@).says("inline"@) ==> r is Closed
                && !r->Closed_0.inline && shows_card(r->Closed_0, p->0@, *rec, ""@)
        }),
{
    let usable = match p {
        None => None,
        Some(v) => match presentation(v, op, context, rec, caps, now) {
            Ok(()) => Some(v),
            Err(_) => None,
        },
    };
    render_inline_mcp(usable, rec)
}

/// Whether a card is that of a description.
pub open spec fn shows_card(c: Card, v: JsonView, rec: McpRecord, view: Seq<char>) -> bool {
    if utf16_len(card_text(v)) > 2000 {
        &&& c.text@ == fallback_text(
            "操作内容が長いため、最初のカードには全体を表示できません。"@,
            !v.at("state"@).says("unavailable"@),
        )
        &&& c.components@ == row_of(
            fallback_buttons(
                rec,
                !v.at("state"@).says("unavailable"@),
                v.at("actions"@).at("decline"@).is_true(),
            ),
        )
        &&& !c.inline
    } else {
        &&& c.text@ == card_text(v)
        &&& c.components@ == row_of(card_buttons(v, rec, view))
        &&& c.inline == v.at("state"@).says("inline"@)
    }
}

/// The card of a description, where it is accepted.
pub fn accepted_card(v: &Json, rec: &McpRecord, view: &str) -> (r: Result<Card, String>)
    ensures
        match presentation_objection(v@) {
            Some(e) => r is Err && r->Err_0@ == e,
            None => r is Ok && shows_card(r->Ok_0, v@, *rec, view@),
        },
{
    match validate_presentation(v) {
        Err(e) => Err(e),
        Ok(()) => Ok(card(v, rec, view)),
    }
}

proof fn lemma_inline_is_identified(p: JsonView)
    requires
        presentation_objection(p) is None,
        p.at("state"@).says("inline"@),
    ensures
        p.at("presentation_id"@).text() is Some,
        p.at("presentation_fingerprint"@).text() is Some,
        expiry_of(p) is Ok,
{
    reveal_strlit("inline");
    reveal_strlit("unavailable");
    assert("inline"@.len() != "unavailable"@.len());
    assert(!p.at("state"@).says("unavailable"@));
    assert(p.at("reason"@) == JsonView::Null);
}

/// Whether a view may be opened again: under one token the content does not change.
pub fn check_token(stored: Option<&str>, snapshot: &str) -> (r: Result<(), &'static str>)
    ensures
        r is Ok <==> stored is None || stored->0@ == snapshot@,
        r is Err ==> r->Err_0@ == "presentation token reused for changed content"@,
{
    match stored {
        None => Ok(()),
        Some(s) => {
            if same(s, snapshot) {
                Ok(())
            } else {
                Err("presentation token reused for changed content")
            }
        },
    }
}

/// The view and whether the tool is meant for the whole run, of a button on a card.
pub open spec fn inline_route(custom: Option<Seq<char>>, recovering: bool) -> Result<
    (Seq<char>, bool),
    Seq<char>,
> {
    if recovering {
        Err("復旧確認中です"@)
    } else {
        match custom {
            None => Err("button"@),
            Some(c) => {
                let p = pieces(c, ':');
                if p.len() == 3 && p[0] == "mi"@ && (p[2] == "once"@ || p[2] == "turn"@) {
                    Ok((p[1], p[2] == "turn"@))
                } else {
                    Err("invalid control"@)
                }
            },
        }
    }
}

/// What a button on a card asks for.
pub fn handle_inline_mcp(custom: Option<&str>, recovering: bool) -> (r: Result<
    (String, bool),
    &'static str,
>)
    ensures
        match inline_route(opt_str(custom), recovering) {
            Ok((view, turn)) => r is Ok && (r->Ok_0).0@ == view && (r->Ok_0).1 == turn,
            Err(e) => r is Err && r->Err_0@ == e,
        },
{
    if recovering {
        return Err("復旧確認中です");
    }
    match custom {
        None => Err("button"),
        Some(c) => {
            let p = split(c, ':');
            let ghost all = pieces(c@, ':');
            assert(views(p@).len() == p@.len());
            assert forall|i: int| 0 <= i < p@.len() implies #[trigger] p@[i]@ == all[i] by {
                assert(views(p@)[i] == p@[i]@);
            }
            if p.len() == 3 && same(p[0].as_str(), "mi") && (same(p[2].as_str(), "once") || same(
                p[2].as_str(),
                "turn",
            )) {
                Ok((p[1].clone(), same(p[2].as_str(), "turn")))
            } else {
                Err("invalid control")
            }
        },
    }
}

/// Why a press on a card does not allow its operation. `revision` and `shown` are the revision and
/// the snapshot of the view that was pressed; `p` is the description as it is now.
pub open spec fn press_objection(
    p: JsonView,
    rec: McpRecord,
    revision: i64,
    shown: Seq<char>,
    turn: bool,
    message: Option<Seq<char>>,
) -> Option<Seq<char>> {
    if rec.revision != revision {
        Some("old revision"@)
    } else if !(p.at("state"@).says("inline"@) && sha256_hex(compact(document(p))) == shown) {
        Some("changed presentation"@)
    } else if turn && !p.at("actions"@).at("allow_turn_tool"@).is_true() {
        Some("turn not allowed"@)
    } else if utf16_len(card_text(p)) > 2000 {
        Some("supplement required"@)
    } else if message is None {
        Some("message identity"@)
    } else {
        None
    }
}

/// What a press on a card has to confirm: the description is still the one that was shown, and the
/// card with this digest was delivered in the pressed message.
pub fn press(
    p: &Json,
    rec: &McpRecord,
    view: &str,
    revision: i64,
    shown: &str,
    turn: bool,
    message: Option<&str>,
) -> (r: Result<Receipt, &'static str>)
    requires
        presentation_objection(p@) is None,
    ensures
        match press_objection(p@, *rec, revision, shown@, turn, opt_str(message)) {
            Some(e) => r is Err && r->Err_0@ == e,
            None => {
                &&& r is Ok
                &&& Some(r->Ok_0.token@) == p@.at("presentation_fingerprint"@).text()
                &&& Some(r->Ok_0.message_id@) == opt_str(message)
                &&& r->Ok_0.card_digest@ == card_digest_of(
                    card_text(p@),
                    row_of(card_buttons(p@, *rec, view@)),
                )
            },
        },
{
    if rec.revision != revision {
        return Err("old revision");
    }
    let hash = snapshot(p);
    if !(p.at("state").is_text("inline") && same(hash.as_str(), shown)) {
        return Err("changed presentation");
    }
    if turn && !p.at("actions").at("allow_turn_tool").is_bool(true) {
        return Err("turn not allowed");
    }
    let c = card(p, rec, view);
    if !c.inline {
        return Err("supplement required");
    }
    let message = match message {
        Some(m) => m,
        None => {
            return Err("message identity");
        },
    };
    proof {
        lemma_inline_is_identified(p@);
    }
    let token = match p.at("presentation_fingerprint").as_str() {
        Some(s) => s,
        None => "",
    };
    Ok(
        Receipt {
            token: token.to_owned(),
            message_id: message.to_owned(),
            card_digest: card_digest(c.text.as_str(), &c.components),
        },
    )
}

/// What a press on a card has to confirm, with everything that is read for it checked first.
pub fn confirm_press(
    p: &Json,
    op: &Json,
    context: &Json,
    rec: &McpRecord,
    caps: Capabilities,
    now: i64,
    view: &str,
    revision: i64,
    shown: &str,
    turn: bool,
    message: Option<&str>,
) -> (r: Result<Receipt, String>)
    requires
        now <= i64::MAX - CARD_MILLIS,
    ensures
        match binding_objection(p@, op@, context@, *rec, caps, now) {
            Some(e) => r is Err && r->Err_0@ == e,
            None => match press_objection(p@, *rec, revision, shown@, turn, opt_str(message)) {
                Some(e) => r is Err && r->Err_0@ == e,
                None => {
                    &&& r is Ok
                    &&& Some(r->Ok_0.token@) == p@.at("presentation_fingerprint"@).text()
                    &&& Some(r->Ok_0.message_id@) == opt_str(message)
                    &&& r->Ok_0.card_digest@ == card_digest_of(
                        card_text(p@),
                        row_of(card_buttons(p@, *rec, view@)),
                    )
                },
            },
        },
{
    match presentation(p, op, context, rec, caps, now) {
        Err(e) => Err(e),
        Ok(()) => match press(p, rec, view, revision, shown, turn, message) {
            Ok(receipt) => Ok(receipt),
            Err(e) => Err(String::from_str(e)),
        },
    }
}

/// A press allows only what the pressed card showed: the description has the digest of the one that
/// was shown, and a permission for the run only where the card offered it.
pub proof fn presses_allow_what_was_shown(
    p: JsonView,
    rec: McpRecord,
    revision: i64,
    shown: Seq<char>,
    turn: bool,
    message: Option<Seq<char>>,
)
    requires
        press_objection(p, rec, revision, shown, turn, message) is None,
    ensures
        sha256_hex(compact(document(p))) == shown,
        p.at("state"@).says("inline"@),
        turn ==> p.at("actions"@).at("allow_turn_tool"@).is_true(),
        rec.revision == revision,
{
}

/// Whether the delivery of a card is confirmed.
pub fn check_confirmed(confirmed: bool) -> (r: Result<(), &'static str>)
    ensures
        r is Ok <==> confirmed,
        r is Err ==> r->Err_0@ == "表示の送信確認ができません"@,
{
    if confirmed {
        Ok(())
    } else {
        Err("表示の送信確認ができません")
    }
}

/// What the user is told of a press that allowed nothing.
pub fn press_failed() -> (r: &'static str)
    ensures
        r@
            == "このカードからの許可を確認できませんでした。最新のカードで内容を確認し直してください。回答の送信結果は元のカードで確認できます。許可は自動再送しません。"@,
{
    "このカードからの許可を確認できませんでした。最新のカードで内容を確認し直してください。回答の送信結果は元のカードで確認できます。許可は自動再送しません。"
}

} // verus!
