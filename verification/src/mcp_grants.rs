//! Details of an operation for the requester alone, and permissions that last for one run.
use crate::codec::{compact, document, encode, parse_timestamp, sha256_hex, timestamp_nanos};
use crate::domain::digest;
use crate::fields::{
    agree, all_null, are_null, check_texts, do_agree, has_all, has_fields, is_one, moderate_text,
    names, says_one, text_objection, texts_objection,
};
use crate::json::{alike, array, member, member_views, object, Json, JsonView, Member};
use crate::text::{
    chars_of, lemma_utf16_concat, opt_view, repeat, repeated, replace, replaced, same_option,
    utf16_len, utf16_width,
};
use vstd::prelude::*;
use vstd::std_specs::vec::*;
use vstd::string::*;

verus! {

/// How many characters of the details stand on a page.
pub const PAGE_CHARS: usize = 500;

/// How many permissions a run may have.
pub const MAX_GRANTS: usize = 16;

/// How many bytes the arguments of an operation may have.
pub const MAX_ARGUMENT_BYTES: usize = 65536;

/// How long details stay open, in milliseconds.
pub const DETAIL_MILLIS: i64 = 600_000;

/// What the proxy can do for the approval of operations.
#[derive(Clone, Copy, Debug, PartialEq, Eq, Structural)]
pub struct Capabilities {
    pub details: bool,
    pub turn: bool,
    pub inline: bool,
}

impl Default for Capabilities {
    fn default() -> (r: Capabilities)
        ensures
            r == (Capabilities { details: false, turn: false, inline: false }),
    {
        Capabilities { details: false, turn: false, inline: false }
    }
}

/// What the proxy says it can do, counted only where it has exactly the agreed limits.
pub open spec fn capabilities_of(v: JsonView) -> Capabilities {
    let d = v.at("mcp_operation_details"@);
    let t = v.at("mcp_turn_approval"@);
    let i = v.at("mcp_inline_approval"@);
    Capabilities {
        inline: i.at("enabled"@).is_true() && i.at("profile"@).says("source-conversation-v1"@) && i.at(
            "max_response_bytes"@,
        ) == JsonView::Unsigned(32768) && i.at("max_display_text_utf16_units"@)
            == JsonView::Unsigned(1400) && i.at("max_display_fields"@) == JsonView::Unsigned(8)
            && i.at("max_presentations_per_interaction"@) == JsonView::Unsigned(4),
        details: d.at("enabled"@).is_true() && d.at("profile"@).says("native-item-id-v1"@) && d.at(
            "max_argument_bytes"@,
        ) == JsonView::Unsigned(65536) && d.at("disclosure"@).says("requester_only"@),
        turn: t.at("enabled"@).is_true() && t.at("profile"@).says("native-item-id-v1"@) && t.at(
            "max_grants"@,
        ) == JsonView::Unsigned(16) && t.at("ttl_seconds"@) == JsonView::Unsigned(600) && t.at(
            "max_records"@,
        ) == JsonView::Unsigned(256),
    }
}

impl Capabilities {
    pub fn parse(v: &Json) -> (r: Capabilities)
        ensures
            r == capabilities_of(v@),
    {
        let d = v.at("mcp_operation_details");
        let t = v.at("mcp_turn_approval");
        let i = v.at("mcp_inline_approval");
        Capabilities {
            inline: i.at("enabled").is_bool(true) && i.at("profile").is_text(
                "source-conversation-v1",
            ) && i.at("max_response_bytes").is_number(32768) && i.at(
                "max_display_text_utf16_units",
            ).is_number(1400) && i.at("max_display_fields").is_number(8) && i.at(
                "max_presentations_per_interaction",
            ).is_number(4),
            details: d.at("enabled").is_bool(true) && d.at("profile").is_text("native-item-id-v1")
                && d.at("max_argument_bytes").is_number(65536) && d.at("disclosure").is_text(
                "requester_only",
            ),
            turn: t.at("enabled").is_bool(true) && t.at("profile").is_text("native-item-id-v1")
                && t.at("max_grants").is_number(16) && t.at("ttl_seconds").is_number(600) && t.at(
                "max_records",
            ).is_number(256),
        }
    }
}

/// Nanoseconds as whole milliseconds, without the rest.
pub open spec fn millis_of(nanos: int) -> int {
    if nanos >= 0 {
        nanos / 1_000_000
    } else {
        -((-nanos) / 1_000_000)
    }
}

/// The moment that a value denotes, in milliseconds since 1970.
pub open spec fn moment(v: JsonView) -> Result<int, Seq<char>> {
    match v.text() {
        None => Err("timestamp"@),
        Some(s) => match timestamp_nanos(s) {
            Err(e) => Err(e),
            Ok(n) => Ok(millis_of(n)),
        },
    }
}

/// The moment that a value denotes, in milliseconds since 1970.
pub fn timestamp(v: &Json) -> (r: Result<i64, String>)
    ensures
        match moment(v@) {
            Ok(t) => r is Ok && r->Ok_0 == t,
            Err(e) => r is Err && r->Err_0@ == e,
        },
{
    match v.as_str() {
        None => Err(String::from_str("timestamp")),
        Some(s) => match parse_timestamp(s) {
            Err(e) => Err(e),
            Ok(n) => {
                if n >= 0 {
                    Ok((n / 1_000_000) as i64)
                } else {
                    let m: i128 = 0 - n;
                    Ok(0 - ((m / 1_000_000) as i64))
                }
            },
        },
    }
}

/// Why a field is not a text of moderate length.
pub open spec fn field_objection(v: JsonView, k: Seq<char>) -> Option<Seq<char>> {
    text_objection(v.at(k), "string missing"@, "string limit"@)
}

pub(crate) fn text<'a>(v: &'a Json, k: &str) -> (r: Result<&'a str, &'static str>)
    ensures
        match field_objection(v@, k@) {
            None => r is Ok && Some(r->Ok_0@) == v@.at(k@).text(),
            Some(e) => r is Err && r->Err_0@ == e,
        },
{
    moderate_text(v.at(k), "string missing", "string limit")
}

/// What identifies the scope of an operation, and nothing else.
pub open spec fn scope_members(scope: JsonView) -> Seq<(Seq<char>, JsonView)> {
    seq![
        ("config_generation"@, scope.at("config_generation"@)),
        ("context"@, scope.at("context"@)),
        ("conversation_id"@, scope.at("conversation_id"@)),
        ("input_generation"@, scope.at("input_generation"@)),
        ("instance_id"@, scope.at("instance_id"@)),
        ("recovery_generation"@, scope.at("recovery_generation"@)),
        ("response_id"@, scope.at("response_id"@)),
        ("server"@, scope.at("server"@)),
        ("tool"@, scope.at("tool"@)),
        ("turn_id"@, scope.at("turn_id"@)),
        ("workspace_id"@, scope.at("workspace_id"@)),
    ]
}

/// What identifies the scope of an operation, and nothing else.
pub fn canonical_scope(scope: &Json) -> (r: Json)
    ensures
        r@ == JsonView::Object(scope_members(scope@)),
{
    let members: Vec<Member> = vec![
        member("config_generation", scope.at("config_generation").copy()),
        member("context", scope.at("context").copy()),
        member("conversation_id", scope.at("conversation_id").copy()),
        member("input_generation", scope.at("input_generation").copy()),
        member("instance_id", scope.at("instance_id").copy()),
        member("recovery_generation", scope.at("recovery_generation").copy()),
        member("response_id", scope.at("response_id").copy()),
        member("server", scope.at("server").copy()),
        member("tool", scope.at("tool").copy()),
        member("turn_id", scope.at("turn_id").copy()),
        member("workspace_id", scope.at("workspace_id").copy()),
    ];
    assert(member_views(members@) =~= scope_members(scope@));
    object(members)
}

/// The digest of the scope of an operation.
pub open spec fn scope_digest(scope: JsonView) -> Seq<char> {
    sha256_hex(compact(document(JsonView::Object(scope_members(scope)))))
}

/// The digest of the scope of an operation.
pub fn digest_of_scope(scope: &Json) -> (r: String)
    ensures
        r@ == scope_digest(scope@),
{
    digest(encode(&canonical_scope(scope)).as_slice())
}

/// A text without markup that could notify anyone or open a code block.
pub open spec fn plain(s: Seq<char>) -> Seq<char> {
    replaced(replaced(s, '@', '＠'), '`', '｀')
}

pub fn safe(s: &str) -> (r: String)
    ensures
        r@ == plain(s@),
{
    let first = replace(s, '@', '＠');
    replace(first.as_str(), '`', '｀')
}

/// How many backquotes end the first `n` characters.
pub open spec fn tail_run(s: Seq<char>, n: nat) -> nat
    decreases n,
{
    if n == 0 || n > s.len() || s[n - 1] != '`' {
        0
    } else {
        tail_run(s, (n - 1) as nat) + 1
    }
}

/// How many backquotes stand in a row at most among the first `n` characters.
pub open spec fn longest_run(s: Seq<char>, n: nat) -> nat
    decreases n,
{
    if n == 0 || n > s.len() {
        0
    } else {
        let before = longest_run(s, (n - 1) as nat);
        if tail_run(s, n) > before {
            tail_run(s, n)
        } else {
            before
        }
    }
}

/// How many backquotes fence a text in: three, or more than stand in a row in it.
pub open spec fn fence_width(s: Seq<char>) -> nat {
    let n = longest_run(s, s.len());
    if n >= usize::MAX {
        usize::MAX as nat
    } else if n < 2 {
        3
    } else {
        n + 1
    }
}

/// A text as a code block.
pub open spec fn fenced(s: Seq<char>) -> Seq<char> {
    repeated('`', fence_width(s)) + "\n"@ + s + "\n"@ + repeated('`', fence_width(s))
}

proof fn lemma_runs(s: Seq<char>, n: nat)
    requires
        n <= s.len(),
    ensures
        tail_run(s, n) <= longest_run(s, n) <= n,
        n > 0 ==> longest_run(s, (n - 1) as nat) <= longest_run(s, n),
    decreases n,
{
    if n > 0 {
        lemma_runs(s, (n - 1) as nat);
    }
}

/// A text as a code block that it cannot end.
pub fn code_block(s: &str) -> (r: String)
    ensures
        r@ == fenced(s@),
{
    let v = chars_of(s);
    let mut longest: usize = 0;
    let mut run: usize = 0;
    let mut i: usize = 0;
    while i < v.len()
        invariant
            i <= v@.len(),
            v@ == s@,
            run == tail_run(s@, i as nat),
            longest == longest_run(s@, i as nat),
            run <= longest <= i,
        decreases v@.len() - i,
    {
        if v[i] == '`' {
            run = run + 1;
            if run > longest {
                longest = run;
            }
        } else {
            run = 0;
        }
        i += 1;
    }
    let width: usize = if longest == usize::MAX {
        usize::MAX
    } else if longest < 2 {
        3
    } else {
        longest + 1
    };
    let fence = repeat('`', width);
    String::from_str(fence.as_str()).concat("\n").concat(s).concat("\n").concat(fence.as_str())
}

/// A code block holds its text unchanged.
pub proof fn blocks_hold_their_text(s: Seq<char>)
    ensures
        ({
            let at = fence_width(s) + 1;
            fenced(s).subrange(at as int, (at + s.len()) as int) == s
        }),
{
    let at = fence_width(s) + 1;
    reveal_strlit("\n");
    assert(fenced(s).subrange(at as int, (at + s.len()) as int) =~= s);
}

/// No row of backquotes in a text is as long as the fence around it.
pub proof fn texts_do_not_end_their_block(s: Seq<char>, from: int, k: nat)
    requires
        0 <= from,
        from + k <= s.len(),
        s.len() < usize::MAX,
        forall|i: int| from <= i < from + k ==> #[trigger] s[i] == '`',
    ensures
        k < fence_width(s),
{
    lemma_tail_run(s, from, k);
    lemma_runs(s, (from + k) as nat);
    lemma_longest_grows(s, (from + k) as nat, s.len());
    lemma_runs(s, s.len());
}

proof fn lemma_tail_run(s: Seq<char>, from: int, k: nat)
    requires
        0 <= from,
        from + k <= s.len(),
        forall|i: int| from <= i < from + k ==> #[trigger] s[i] == '`',
    ensures
        tail_run(s, (from + k) as nat) >= k,
    decreases k,
{
    if k > 0 {
        lemma_tail_run(s, from, (k - 1) as nat);
        assert(s[from + k - 1] == '`');
    }
}

proof fn lemma_longest_grows(s: Seq<char>, i: nat, n: nat)
    requires
        i <= n <= s.len(),
    ensures
        longest_run(s, i) <= longest_run(s, n),
    decreases n,
{
    if i < n {
        lemma_longest_grows(s, i, (n - 1) as nat);
    }
}

proof fn lemma_units(s: Seq<char>, n: nat)
    requires
        n <= s.len(),
    ensures
        utf16_len(s.take(n as int)) + longest_run(s, n) <= 2 * n,
        utf16_len(s.take((n - tail_run(s, n)) as int)) + longest_run(s, (n - tail_run(s, n)) as nat)
            <= 2 * (n - tail_run(s, n)),
        utf16_len(s.take(n as int)) == utf16_len(s.take((n - tail_run(s, n)) as int)) + tail_run(s, n),
        tail_run(s, n) <= n,
    decreases n,
{
    lemma_runs(s, n);
    if n == 0 {
        assert(s.take(0) =~= Seq::<char>::empty());
    } else {
        let m = (n - 1) as nat;
        lemma_units(s, m);
        let c = s[n - 1];
        assert(s.take(n as int).drop_last() =~= s.take(m as int));
        assert(s.take(n as int).last() == c);
        assert(utf16_len(s.take(n as int)) == utf16_len(s.take(m as int)) + utf16_width(c));
        if c == '`' {
            assert(n - tail_run(s, n) == m - tail_run(s, m));
            if tail_run(s, n) > longest_run(s, m) {
                let base = (n - tail_run(s, n)) as nat;
                assert(utf16_len(s.take(base as int)) <= 2 * base);
            }
        }
    }
}

/// A page of details fits in a message as a code block, whatever it holds, with room for the
/// explanation.
pub proof fn pages_of_code_fit(s: Seq<char>)
    requires
        s.len() <= PAGE_CHARS,
    ensures
        utf16_len(fenced(s)) <= 1504,
{
    let n = s.len();
    let w = fence_width(s);
    let fence = repeated('`', w);
    lemma_units(s, n);
    assert(s.take(n as int) =~= s);
    lemma_runs(s, n);
    lemma_fence_units(w);
    reveal_strlit("\n");
    let line = "\n"@;
    assert(line =~= Seq::<char>::empty().push('\n'));
    assert(line.drop_last() =~= Seq::<char>::empty());
    assert(utf16_len(line.drop_last()) == 0);
    assert(utf16_len(line) == 1);
    lemma_utf16_concat(fence, line);
    lemma_utf16_concat(fence + line, s);
    lemma_utf16_concat(fence + line + s, line);
    lemma_utf16_concat(fence + line + s + line, fence);
}

proof fn lemma_fence_units(w: nat)
    ensures
        utf16_len(repeated('`', w)) == w,
    decreases w,
{
    let r = repeated('`', w);
    if w > 0 {
        lemma_fence_units((w - 1) as nat);
        assert(r.drop_last() =~= repeated('`', (w - 1) as nat));
        assert(r.last() == '`');
    }
}

/// What is known of the scope of a request.
#[derive(Debug)]
pub struct ScopeFacts {
    pub instance_id: String,
    pub generation: String,
    pub response_id: Option<String>,
    pub turn_id: Option<String>,
    pub conversation_id: String,
    pub workspace_id: String,
    pub context: Json,
}

/// The texts of a scope.
pub open spec fn scope_texts() -> Seq<Seq<char>> {
    seq![
        "instance_id"@,
        "recovery_generation"@,
        "response_id"@,
        "turn_id"@,
        "conversation_id"@,
        "workspace_id"@,
        "server"@,
        "tool"@,
        "config_generation"@,
    ]
}

/// Whether a scope is that of a request.
pub open spec fn same_scope(scope: JsonView, f: ScopeFacts) -> bool {
    scope.at("instance_id"@).says(f.instance_id@) && scope.at("recovery_generation"@).says(
        f.generation@,
    ) && scope.at("response_id"@).text() == opt_view(f.response_id) && scope.at("turn_id"@).text()
        == opt_view(f.turn_id) && scope.at("conversation_id"@).says(f.conversation_id@) && scope.at(
        "workspace_id"@,
    ).says(f.workspace_id@) && alike(scope.at("context"@), f.context@)
}

/// Why a scope is not that of a request.
pub open spec fn scope_objection(scope: JsonView, f: ScopeFacts) -> Option<Seq<char>> {
    let texts = texts_objection(
        scope,
        scope_texts(),
        "string missing"@,
        "string limit"@,
        scope_texts().len(),
    );
    if scope.get("context"@) is None {
        Some("context missing"@)
    } else if !same_scope(scope, f) {
        Some("許可の対象がこの作業と一致しません"@)
    } else if texts is Some {
        texts
    } else if scope.at("input_generation"@).unsigned() is None {
        Some("input generation missing"@)
    } else {
        None
    }
}

/// Whether a scope is that of a request.
pub fn scope_matches(scope: &Json, f: &ScopeFacts) -> (r: Result<(), &'static str>)
    ensures
        match scope_objection(scope@, *f) {
            None => r is Ok,
            Some(e) => r is Err && r->Err_0@ == e,
        },
{
    if scope.get("context").is_none() {
        return Err("context missing");
    }
    if !(scope.at("instance_id").is_text(f.instance_id.as_str()) && scope.at(
        "recovery_generation",
    ).is_text(f.generation.as_str()) && same_option(
        scope.at("response_id").as_str(),
        crate::text::borrowed(&f.response_id),
    ) && same_option(scope.at("turn_id").as_str(), crate::text::borrowed(&f.turn_id)) && scope.at(
        "conversation_id",
    ).is_text(f.conversation_id.as_str()) && scope.at("workspace_id").is_text(
        f.workspace_id.as_str(),
    ) && scope.at("context").same_as(&f.context)) {
        return Err("許可の対象がこの作業と一致しません");
    }
    let keys: Vec<&str> = vec![
        "instance_id",
        "recovery_generation",
        "response_id",
        "turn_id",
        "conversation_id",
        "workspace_id",
        "server",
        "tool",
        "config_generation",
    ];
    assert(names(keys@) =~= scope_texts());
    match check_texts(scope, &keys, "string missing", "string limit") {
        Err(e) => {
            return Err(e);
        },
        Ok(()) => {},
    }
    if scope.at("input_generation").as_u64().is_none() {
        return Err("input generation missing");
    }
    Ok(())
}

/// A request for a decision that the proxy relays, as it is stored.
#[derive(Debug)]
pub struct McpRecord {
    pub id: String,
    pub request: String,
    pub remote: String,
    pub response: String,
    pub revision: i64,
    pub expires: i64,
}

/// The fields of an operation.
pub open spec fn operation_fields() -> Seq<Seq<char>> {
    seq![
        "call_id"@,
        "server"@,
        "tool"@,
        "binding_status"@,
        "unavailable_reason"@,
        "config_generation"@,
        "input_generation"@,
        "scope"@,
        "scope_fingerprint"@,
        "turn_grant_eligible"@,
        "ineligible_reason"@,
        "arguments"@,
        "redacted_paths"@,
    ]
}

/// Why an operation cannot be shown.
pub open spec fn unavailable_reasons() -> Seq<Seq<char>> {
    seq!["stable_call_id_unavailable"@, "operation_details_expired"@]
}

/// Why an operation cannot be permitted for the whole run.
pub open spec fn ineligible_reasons() -> Seq<Seq<char>> {
    seq![
        "binding_unavailable"@,
        "high_risk_tool"@,
        "redacted_arguments"@,
        "approval_context_required"@,
        "tool_not_allowlisted"@,
        "config_changed"@,
        "input_changed"@,
    ]
}

/// The fields that an unavailable operation lacks.
pub open spec fn hidden_fields() -> Seq<Seq<char>> {
    seq![
        "call_id"@,
        "server"@,
        "tool"@,
        "config_generation"@,
        "input_generation"@,
        "scope"@,
        "scope_fingerprint"@,
        "arguments"@,
    ]
}

/// The fields that an operation shares with its scope.
pub open spec fn shared_fields() -> Seq<Seq<char>> {
    seq!["server"@, "tool"@, "config_generation"@, "input_generation"@]
}

/// The texts of a verified operation.
pub open spec fn verified_texts() -> Seq<Seq<char>> {
    seq!["call_id"@, "server"@, "tool"@, "config_generation"@, "scope_fingerprint"@]
}

/// Whether every element of an array is a text.
pub open spec fn array_of_texts(v: JsonView) -> bool {
    v.array() is Some && forall|i: int|
        0 <= i < v.array()->0.len() ==> (#[trigger] v.array()->0[i]) is Text
}

fn is_array_of_texts(v: &Json) -> (r: bool)
    ensures
        r == array_of_texts(v@),
{
    match v.as_array() {
        None => false,
        Some(list) => {
            let ghost all = v@.array()->0;
            let mut i: usize = 0;
            while i < list.len()
                invariant
                    i <= list@.len(),
                    list@.len() == all.len(),
                    v@.array() == Some(all),
                    forall|j: int| 0 <= j < all.len() ==> #[trigger] list@[j]@ == all[j],
                    forall|j: int| 0 <= j < i ==> (#[trigger] all[j]) is Text,
                decreases list@.len() - i,
            {
                assert(list@[i as int]@ == all[i as int]);
                if list[i].as_str().is_none() {
                    assert(!(v@.array()->0[i as int] is Text));
                    return false;
                }
                i += 1;
            }
            true
        },
    }
}

/// Whether an operation is the one that was asked for.
pub open spec fn same_operation(v: JsonView, rec: McpRecord, revision: i64, turn: Option<Seq<char>>) -> bool {
    v.at("interaction_id"@).says(rec.remote@) && v.at("response_id"@).says(rec.response@) && v.at(
        "revision"@,
    ).signed() == Some(revision) && v.at("disclosure"@).says("requester_only"@) && v.at(
        "turn_id"@,
    ).text() == turn
}

/// Why the description of an operation is unusable on its face.
pub open spec fn shape_objection(v: JsonView, revision: i64) -> Option<Seq<char>> {
    let binding = v.at("binding_status"@);
    let reason = v.at("unavailable_reason"@);
    let ineligible = v.at("ineligible_reason"@);
    if !has_all(v, operation_fields()) {
        Some("operation field missing"@)
    } else if !((binding.says("verified"@) || binding.says("unavailable"@)) && v.at(
        "turn_grant_eligible"@,
    ) is Bool) {
        Some("invalid operation state"@)
    } else if !array_of_texts(v.at("redacted_paths"@)) {
        Some("invalid redaction metadata"@)
    } else if !(says_one(reason, unavailable_reasons()) || reason == JsonView::Null) {
        Some("unknown unavailable reason"@)
    } else if !(says_one(ineligible, ineligible_reasons()) || ineligible == JsonView::Null) {
        Some("unknown ineligible reason"@)
    } else if revision < 1 {
        Some("invalid revision"@)
    } else {
        None
    }
}

/// Why the description of an operation contradicts what it says of its availability.
pub open spec fn binding_objection(v: JsonView, f: ScopeFacts) -> Option<Seq<char>> {
    if v.at("binding_status"@).says("unavailable"@) {
        if !all_null(v, hidden_fields()) {
            Some("unavailable metadata mismatch"@)
        } else if !(v.at("turn_grant_eligible"@).is_false() && v.at("unavailable_reason"@).says(
            "stable_call_id_unavailable"@,
        ) && v.at("ineligible_reason"@).says("binding_unavailable"@)) {
            Some("unavailable state mismatch"@)
        } else {
            None
        }
    } else {
        let scope = scope_objection(v.at("scope"@), f);
        if scope is Some {
            scope
        } else if !agree(v, v.at("scope"@), shared_fields()) {
            Some("scope metadata mismatch"@)
        } else {
            texts_objection(
                v,
                verified_texts(),
                "string missing"@,
                "string limit"@,
                verified_texts().len(),
            )
        }
    }
}

/// Why the description of an operation is not accepted.
pub open spec fn operation_objection(
    v: JsonView,
    rec: McpRecord,
    revision: i64,
    f: ScopeFacts,
    caps: Capabilities,
) -> Option<Seq<char>> {
    if !caps.details {
        Some("操作詳細は現在利用できません"@)
    } else if !same_operation(v, rec, revision, opt_view(f.turn_id)) {
        Some("操作詳細の対応が一致しません"@)
    } else if shape_objection(v, revision) is Some {
        shape_objection(v, revision)
    } else if binding_objection(v, f) is Some {
        binding_objection(v, f)
    } else if !(v.at("arguments"@) == JsonView::Null || v.at("arguments"@) is Object) {
        Some("invalid arguments"@)
    } else if compact(document(v.at("arguments"@))).len() > MAX_ARGUMENT_BYTES {
        Some("arguments oversized"@)
    } else {
        None
    }
}

fn check_shape(v: &Json, revision: i64) -> (r: Result<(), &'static str>)
    ensures
        match shape_objection(v@, revision) {
            None => r is Ok,
            Some(e) => r is Err && r->Err_0@ == e,
        },
{
    let fields: Vec<&str> = vec![
        "call_id",
        "server",
        "tool",
        "binding_status",
        "unavailable_reason",
        "config_generation",
        "input_generation",
        "scope",
        "scope_fingerprint",
        "turn_grant_eligible",
        "ineligible_reason",
        "arguments",
        "redacted_paths",
    ];
    assert(names(fields@) =~= operation_fields());
    if !has_fields(v, &fields) {
        return Err("operation field missing");
    }
    let binding = v.at("binding_status");
    if !((binding.is_text("verified") || binding.is_text("unavailable")) && v.at(
        "turn_grant_eligible",
    ).as_bool().is_some()) {
        return Err("invalid operation state");
    }
    if !is_array_of_texts(v.at("redacted_paths")) {
        return Err("invalid redaction metadata");
    }
    let unavailable: Vec<&str> = vec!["stable_call_id_unavailable", "operation_details_expired"];
    assert(names(unavailable@) =~= unavailable_reasons());
    let reason = v.at("unavailable_reason");
    if !(is_one(reason, &unavailable) || reason.is_null()) {
        return Err("unknown unavailable reason");
    }
    let reasons: Vec<&str> = vec![
        "binding_unavailable",
        "high_risk_tool",
        "redacted_arguments",
        "approval_context_required",
        "tool_not_allowlisted",
        "config_changed",
        "input_changed",
    ];
    assert(names(reasons@) =~= ineligible_reasons());
    let ineligible = v.at("ineligible_reason");
    if !(is_one(ineligible, &reasons) || ineligible.is_null()) {
        return Err("unknown ineligible reason");
    }
    if revision < 1 {
        return Err("invalid revision");
    }
    Ok(())
}

fn check_binding(v: &Json, f: &ScopeFacts) -> (r: Result<(), &'static str>)
    requires
        v@.at("binding_status"@).says("unavailable"@) || v@.at("binding_status"@).says("verified"@),
    ensures
        match binding_objection(v@, *f) {
            None => r is Ok,
            Some(e) => r is Err && r->Err_0@ == e,
        },
{
    if v.at("binding_status").is_text("unavailable") {
        let hidden: Vec<&str> = vec![
            "call_id",
            "server",
            "tool",
            "config_generation",
            "input_generation",
            "scope",
            "scope_fingerprint",
            "arguments",
        ];
        assert(names(hidden@) =~= hidden_fields());
        if !are_null(v, &hidden) {
            return Err("unavailable metadata mismatch");
        }
        if !(v.at("turn_grant_eligible").is_bool(false) && v.at("unavailable_reason").is_text(
            "stable_call_id_unavailable",
        ) && v.at("ineligible_reason").is_text("binding_unavailable")) {
            return Err("unavailable state mismatch");
        }
        Ok(())
    } else {
        match scope_matches(v.at("scope"), f) {
            Err(e) => {
                return Err(e);
            },
            Ok(()) => {},
        }
        let shared: Vec<&str> = vec!["server", "tool", "config_generation", "input_generation"];
        assert(names(shared@) =~= shared_fields());
        if !do_agree(v, v.at("scope"), &shared) {
            return Err("scope metadata mismatch");
        }
        let texts: Vec<&str> = vec![
            "call_id",
            "server",
            "tool",
            "config_generation",
            "scope_fingerprint",
        ];
        assert(names(texts@) =~= verified_texts());
        check_texts(v, &texts, "string missing", "string limit")
    }
}

/// Whether the description of an operation is accepted: it is the one that was asked for, complete,
/// and in the scope of the request.
pub fn mcp_operation(
    v: &Json,
    rec: &McpRecord,
    revision: i64,
    f: &ScopeFacts,
    caps: Capabilities,
) -> (r: Result<(), &'static str>)
    ensures
        match operation_objection(v@, *rec, revision, *f, caps) {
            None => r is Ok,
            Some(e) => r is Err && r->Err_0@ == e,
        },
{
    if !caps.details {
        return Err("操作詳細は現在利用できません");
    }
    let same_revision = match v.at("revision").as_i64() {
        Some(n) => n == revision,
        None => false,
    };
    if !(v.at("interaction_id").is_text(rec.remote.as_str()) && v.at("response_id").is_text(
        rec.response.as_str(),
    ) && same_revision && v.at("disclosure").is_text("requester_only") && same_option(
        v.at("turn_id").as_str(),
        crate::text::borrowed(&f.turn_id),
    )) {
        return Err("操作詳細の対応が一致しません");
    }
    match check_shape(v, revision) {
        Err(e) => {
            return Err(e);
        },
        Ok(()) => {},
    }
    match check_binding(v, f) {
        Err(e) => {
            return Err(e);
        },
        Ok(()) => {},
    }
    let arguments = v.at("arguments");
    if !(arguments.is_null() || arguments.is_object()) {
        return Err("invalid arguments");
    }
    if encode(arguments).len() > MAX_ARGUMENT_BYTES {
        return Err("arguments oversized");
    }
    Ok(())
}

/// An operation that is accepted as verified belongs to the turn, the conversation and the context
/// of the request.
pub proof fn verified_operations_belong_to_the_request(
    v: JsonView,
    rec: McpRecord,
    revision: i64,
    f: ScopeFacts,
    caps: Capabilities,
)
    requires
        operation_objection(v, rec, revision, f, caps) is None,
        v.at("binding_status"@).says("verified"@),
    ensures
        same_scope(v.at("scope"@), f),
        v.at("interaction_id"@).says(rec.remote@),
        v.at("turn_id"@).text() == opt_view(f.turn_id),
        v.at("tool"@) == v.at("scope"@).at("tool"@),
        v.at("server"@) == v.at("scope"@).at("server"@),
{
    reveal_strlit("verified");
    reveal_strlit("unavailable");
    assert("verified"@.len() != "unavailable"@.len());
    assert(shared_fields()[0] == "server"@ && shared_fields()[1] == "tool"@);
    assert(scope_texts()[6] == "server"@ && scope_texts()[7] == "tool"@);
    reveal_with_fuel(texts_objection, 10);
}

/// Whether the content of an operation can be shown.
pub open spec fn showable(v: JsonView) -> bool {
    v.at("binding_status"@).says("verified"@) && v.at("unavailable_reason"@) == JsonView::Null && v.at(
        "arguments"@,
    ) is Object
}

pub fn is_showable(v: &Json) -> (r: bool)
    ensures
        r == showable(v@),
{
    v.at("binding_status").is_text("verified") && v.at("unavailable_reason").is_null() && v.at(
        "arguments",
    ).is_object()
}

/// Whether a tool may be permitted for the whole run.
pub open spec fn eligible_for_turn(v: JsonView, caps: Capabilities) -> bool {
    &&& caps.details
    &&& caps.turn
    &&& v.at("turn_grant_eligible"@).is_true()
    &&& v.at("binding_status"@).says("verified"@)
    &&& v.at("unavailable_reason"@) == JsonView::Null
    &&& v.at("ineligible_reason"@) == JsonView::Null
    &&& v.at("scope"@).at("context"@) is Object
    &&& v.at("redacted_paths"@) == JsonView::Array(Seq::empty())
    &&& v.at("tool"@).text() is Some
    &&& v.at("tool"@).text()->0.len() > 0
    &&& !v.at("tool"@).says("browser_evaluate"@)
    &&& !v.at("tool"@).says("browser_run_code_unsafe"@)
}

/// Whether a tool may be permitted for the whole run.
pub fn turn_eligible(v: &Json, caps: Capabilities) -> (r: bool)
    ensures
        r == eligible_for_turn(v@, caps),
{
    let whole = crate::direct_approval::is_empty_array(v.at("redacted_paths"));
    let named = match v.at("tool").as_str() {
        Some(s) => !s.is_empty(),
        None => false,
    };
    caps.details && caps.turn && v.at("turn_grant_eligible").is_bool(true) && v.at(
        "binding_status",
    ).is_text("verified") && v.at("unavailable_reason").is_null() && v.at(
        "ineligible_reason",
    ).is_null() && v.at("scope").at("context").is_object() && whole && named && !v.at("tool").is_text(
        "browser_evaluate",
    ) && !v.at("tool").is_text("browser_run_code_unsafe")
}

/// Tools that run code are never permitted for a whole run.
pub proof fn code_is_never_permitted_for_a_run(v: JsonView, caps: Capabilities)
    requires
        v.at("tool"@).says("browser_evaluate"@) || v.at("tool"@).says("browser_run_code_unsafe"@),
    ensures
        !eligible_for_turn(v, caps),
{
}

} // verus!
