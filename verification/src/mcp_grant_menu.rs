//! The permissions of a run: listing them and taking them back.
use crate::codec::{
    compact, compact_form, compact_text, document, encode, parsed_tree, read, sha256_hex,
};
use crate::domain::digest;
use crate::fields::{is_one, names, says_one};
use crate::json::{
    array, array3, empty_array, object2, object3, object4, text as json_text, trees, Json, JsonView,
};
use crate::mcp_grants::{
    canonical_scope, field_objection, moment, plain, safe, scope_matches, scope_members,
    scope_objection, text, timestamp, Capabilities, ScopeFacts, MAX_GRANTS,
};
use crate::numbers::{signed_decimal, signed_text};
use crate::text::{first_chars, join, joined, same, take_chars, views};
use vstd::prelude::*;
use vstd::std_specs::vec::*;
use vstd::string::*;

verus! {

/// What is prepared for the permissions of a request before it is sent.
#[derive(Clone, Copy, Debug, PartialEq, Eq, Structural)]
pub struct ContextPlan {
    /// Fix the policy that the request is sent with.
    pub fix_policy: bool,
    /// Store the context of the run.
    pub create: bool,
    /// Store that decisions are shown in the conversation.
    pub inline: bool,
}

/// What is prepared for the permissions of a request. `modern` says whether the proxy offers
/// policies, `offered` whether the guarding one is among them, `fixed` whether the request has one.
pub fn prepare_mcp_context(caps: Capabilities, modern: bool, offered: bool, fixed: bool) -> (r: Result<
    ContextPlan,
    &'static str,
>)
    ensures
        modern && !offered ==> r is Err && r->Err_0@
            == "選択したMCPポリシーを利用できません。Proxyの設定を確認してください"@,
        !modern && fixed ==> r is Err && r->Err_0@
            == "0.6 capability or selected policy is unavailable"@,
        (modern && offered) || (!modern && !fixed) ==> r == Ok::<ContextPlan, &'static str>(
            ContextPlan {
                fix_policy: modern,
                create: modern || caps.details || caps.turn,
                inline: !modern && caps.inline && caps.details,
            },
        ),
{
    if modern && !offered {
        return Err("選択したMCPポリシーを利用できません。Proxyの設定を確認してください");
    }
    if !modern && fixed {
        return Err("0.6 capability or selected policy is unavailable");
    }
    Ok(
        ContextPlan {
            fix_policy: modern,
            create: modern || caps.details || caps.turn,
            inline: !modern && caps.inline && caps.details,
        },
    )
}

/// The name under which the proxy knows the user.
pub fn principal_id(instance: &str, user: &str) -> (r: String)
    ensures
        r@ == sha256_hex(
            compact(
                document(
                    JsonView::Array(
                        seq![
                            JsonView::Text("mcp-principal-v1"@),
                            JsonView::Text(instance@),
                            JsonView::Text(user@),
                        ],
                    ),
                ),
            ),
        ),
{
    digest(
        encode(&array3(json_text("mcp-principal-v1"), json_text(instance), json_text(user))).as_slice(),
    )
}

/// The name under which the proxy knows a conversation.
pub fn channel_id(instance: &str, guild: &str, thread: &str) -> (r: String)
    ensures
        r@ == sha256_hex(
            compact(
                document(
                    JsonView::Array(
                        seq![
                            JsonView::Text("mcp-channel-v1"@),
                            JsonView::Text(instance@),
                            JsonView::Text(guild@),
                            JsonView::Text(thread@),
                        ],
                    ),
                ),
            ),
        ),
{
    let v: Vec<Json> = vec![
        json_text("mcp-channel-v1"),
        json_text(instance),
        json_text(guild),
        json_text(thread),
    ];
    assert(trees(v@) =~= seq![
        JsonView::Text("mcp-channel-v1"@),
        JsonView::Text(instance@),
        JsonView::Text(guild@),
        JsonView::Text(thread@),
    ]);
    digest(encode(&array(v)).as_slice())
}

/// What the proxy is told of who asks.
pub fn run_context(principal: &str, channel: &str, run: &str) -> (r: Json)
    ensures
        r@ == JsonView::Object(
            seq![
                ("channel_id"@, JsonView::Text(channel@)),
                ("principal_id"@, JsonView::Text(principal@)),
                ("run_id"@, JsonView::Text(run@)),
            ],
        ),
{
    object3(
        "channel_id",
        json_text(channel),
        "principal_id",
        json_text(principal),
        "run_id",
        json_text(run),
    )
}

/// Why a list of permissions is not that of a run.
pub open spec fn list_objection(list: JsonView, response: Seq<char>) -> Option<Seq<char>> {
    if !list.at("response_id"@).says(response) {
        Some("grant list response mismatch"@)
    } else if list.at("data"@).array() is None {
        Some("grant list missing"@)
    } else if list.at("data"@).array()->0.len() > MAX_GRANTS {
        Some("grant count"@)
    } else {
        None
    }
}

/// The permissions in the list of a run.
pub fn grant_list<'a>(list: &'a Json, response: &str) -> (r: Result<&'a Vec<Json>, &'static str>)
    ensures
        match list_objection(list@, response@) {
            None => r is Ok && Some(trees(r->Ok_0@)) == list@.at("data"@).array(),
            Some(e) => r is Err && r->Err_0@ == e,
        },
{
    if !list.at("response_id").is_text(response) {
        return Err("grant list response mismatch");
    }
    match list.at("data").as_array() {
        None => Err("grant list missing"),
        Some(v) => {
            assert(trees(v@) =~= list@.at("data"@).array()->0);
            assert(trees(v@).len() == v@.len());
            if v.len() > MAX_GRANTS {
                Err("grant count")
            } else {
                Ok(v)
            }
        },
    }
}

/// The states of a permission.
pub open spec fn grant_states() -> Seq<Seq<char>> {
    seq!["pending"@, "active"@, "suspended"@, "revoked"@, "expired"@]
}

/// Why a permission ended.
pub open spec fn grant_reasons() -> Seq<Seq<char>> {
    seq![
        "operator_revoked"@,
        "scope_ended"@,
        "run_ended"@,
        "catalog_failed"@,
        "catalog_changed"@,
        "policy_changed"@,
        "config_changed"@,
        "input_changed"@,
        "expired"@,
        "runtime_restarted"@,
    ]
}

/// How often a permission was applied.
pub open spec fn applied(grant: JsonView) -> Option<i64> {
    match grant.at("application_count"@).signed() {
        Some(n) => if n >= 0 {
            Some(n)
        } else {
            None
        },
        None => None,
    }
}

fn read_applied(grant: &Json) -> (r: Option<i64>)
    ensures
        r == applied(grant@),
{
    match grant.at("application_count").as_i64() {
        Some(n) => {
            if n >= 0 {
                Some(n)
            } else {
                None
            }
        },
        None => None,
    }
}

/// Why a permission is not one of a request; `seen` are those that were listed before it.
pub open spec fn grant_objection(grant: JsonView, seen: Seq<Seq<char>>, f: ScopeFacts) -> Option<
    Seq<char>,
> {
    let state = grant.at("state"@);
    if field_objection(grant, "grant_id"@) is Some {
        field_objection(grant, "grant_id"@)
    } else if seen.contains(grant.at("grant_id"@).text()->0) {
        Some("duplicate grant"@)
    } else if scope_objection(grant.at("scope"@), f) is Some {
        scope_objection(grant.at("scope"@), f)
    } else if grant.at("scope"@).at("context"@) == JsonView::Null {
        Some("grant context missing"@)
    } else if field_objection(grant, "state"@) is Some {
        field_objection(grant, "state"@)
    } else if !says_one(state, grant_states()) {
        Some("unknown grant state"@)
    } else if (state.says("revoked"@) || state.says("expired"@)) && !says_one(
        grant.at("reason"@),
        grant_reasons(),
    ) {
        Some("grant reason missing"@)
    } else if moment(grant.at("created_at"@)) is Err {
        Some(moment(grant.at("created_at"@))->Err_0)
    } else if moment(grant.at("expires_at"@)) is Err {
        Some(moment(grant.at("expires_at"@))->Err_0)
    } else if field_objection(grant, "initial_interaction_id"@) is Some {
        field_objection(grant, "initial_interaction_id"@)
    } else if applied(grant) is None {
        Some("count missing"@)
    } else {
        None
    }
}

fn is_seen(seen: &Vec<String>, s: &str) -> (r: bool)
    ensures
        r == views(seen@).contains(s@),
{
    let ghost all = views(seen@);
    let mut i: usize = 0;
    while i < seen.len()
        invariant
            i <= seen@.len(),
            all == views(seen@),
            forall|j: int| 0 <= j < i ==> #[trigger] all[j] != s@,
        decreases seen@.len() - i,
    {
        assert(all[i as int] == seen@[i as int]@);
        if same(seen[i].as_str(), s) {
            return true;
        }
        i += 1;
    }
    false
}

/// Whether a permission is one of a request, listed once.
pub fn check_grant(grant: &Json, seen: &Vec<String>, f: &ScopeFacts) -> (r: Result<
    (),
    String,
>)
    ensures
        match grant_objection(grant@, views(seen@), *f) {
            None => r is Ok,
            Some(e) => r is Err && r->Err_0@ == e,
        },
{
    match text(grant, "grant_id") {
        Err(e) => {
            return Err(String::from_str(e));
        },
        Ok(id) => {
            if is_seen(seen, id) {
                return Err(String::from_str("duplicate grant"));
            }
        },
    }
    match scope_matches(grant.at("scope"), f) {
        Err(e) => {
            return Err(String::from_str(e));
        },
        Ok(()) => {},
    }
    if grant.at("scope").at("context").is_null() {
        return Err(String::from_str("grant context missing"));
    }
    match text(grant, "state") {
        Err(e) => {
            return Err(String::from_str(e));
        },
        Ok(_) => {},
    }
    let state = grant.at("state");
    let states: Vec<&str> = vec!["pending", "active", "suspended", "revoked", "expired"];
    assert(names(states@) =~= grant_states());
    if !is_one(state, &states) {
        return Err(String::from_str("unknown grant state"));
    }
    if state.is_text("revoked") || state.is_text("expired") {
        let reasons: Vec<&str> = vec![
            "operator_revoked",
            "scope_ended",
            "run_ended",
            "catalog_failed",
            "catalog_changed",
            "policy_changed",
            "config_changed",
            "input_changed",
            "expired",
            "runtime_restarted",
        ];
        assert(names(reasons@) =~= grant_reasons());
        if !is_one(grant.at("reason"), &reasons) {
            return Err(String::from_str("grant reason missing"));
        }
    }
    match timestamp(grant.at("created_at")) {
        Err(e) => {
            return Err(e);
        },
        Ok(_) => {},
    }
    match timestamp(grant.at("expires_at")) {
        Err(e) => {
            return Err(e);
        },
        Ok(_) => {},
    }
    match text(grant, "initial_interaction_id") {
        Err(e) => {
            return Err(String::from_str(e));
        },
        Ok(_) => {},
    }
    if read_applied(grant).is_none() {
        return Err(String::from_str("count missing"));
    }
    Ok(())
}

/// Whether a permission was given under the policy that the request was sent with. `same_policy` is
/// there where a policy was recorded.
pub fn check_selection(same_policy: Option<bool>) -> (r: Result<(), &'static str>)
    ensures
        r is Ok <==> same_policy == Some(true),
        same_policy is None ==> r is Err && r->Err_0@ == "missing v06 selection"@,
        same_policy == Some(false) ==> r is Err && r->Err_0@ == "grant selection mismatch"@,
{
    match same_policy {
        None => Err("missing v06 selection"),
        Some(same_policy) => {
            if same_policy {
                Ok(())
            } else {
                Err("grant selection mismatch")
            }
        },
    }
}

/// What the command for the permissions answers. `latest` is the newest request of the conversation
/// that was executed: its permissions are shown by themselves.
pub fn latest_mcp_grants(latest: Option<&str>) -> (r: &'static str)
    ensures
        r@ == if latest is None {
            "この会話にはまだ作業がありません。"@
        } else {
            ""@
        },
{
    match latest {
        None => "この会話にはまだ作業がありません。",
        Some(_) => "",
    }
}

/// What is stored of the scope of a permission.
pub open spec fn stored_form(grant: JsonView, modern: bool) -> JsonView {
    if modern {
        JsonView::Object(
            seq![
                ("execution_policy"@, grant.at("execution_policy"@)),
                ("grant_policy"@, grant.at("grant_policy"@)),
                ("scope"@, grant.at("scope"@)),
            ],
        )
    } else {
        JsonView::Object(scope_members(grant.at("scope"@)))
    }
}

/// What is stored of the scope of a permission.
pub fn stored_scope(grant: &Json, modern: bool) -> (r: String)
    ensures
        r@ == compact_text(document(stored_form(grant@, modern))),
{
    if modern {
        compact_form(
            &object3(
                "execution_policy",
                grant.at("execution_policy").copy(),
                "grant_policy",
                grant.at("grant_policy").copy(),
                "scope",
                grant.at("scope").copy(),
            ),
        )
    } else {
        compact_form(&canonical_scope(grant.at("scope")))
    }
}

/// Whether the scope of a permission is what was stored of it before.
pub fn check_stored(stored: Option<&str>, scope: &str) -> (r: Result<(), &'static str>)
    ensures
        r is Ok <==> stored is None || stored->0@ == scope@,
        r is Err ==> r->Err_0@ == "grant scope changed"@,
{
    match stored {
        None => Ok(()),
        Some(s) => {
            if same(s, scope) {
                Ok(())
            } else {
                Err("grant scope changed")
            }
        },
    }
}

/// The state of a permission in words.
pub open spec fn state_label(state: JsonView) -> Seq<char> {
    if state.says("active"@) {
        "有効"@
    } else if state.says("pending"@) {
        "最初の回答を確認中"@
    } else if state.says("suspended"@) {
        "結果不明・適用停止"@
    } else if state.says("revoked"@) {
        "取消済み"@
    } else {
        "失効"@
    }
}

/// The server and the tool of a scope.
pub open spec fn tool_name(scope: JsonView) -> Seq<char> {
    plain(scope.at("server"@).text()->0) + " / "@ + plain(scope.at("tool"@).text()->0)
}

/// The texts among the first `n` elements, without markup.
pub open spec fn plain_texts(v: Seq<JsonView>, n: nat) -> Seq<Seq<char>>
    decreases n,
{
    if n == 0 || n > v.len() {
        Seq::empty()
    } else {
        let before = plain_texts(v, (n - 1) as nat);
        match v[n - 1].text() {
            Some(s) => before.push(plain(s)),
            None => before,
        }
    }
}

fn safe_texts(v: &Vec<Json>) -> (r: String)
    ensures
        r@ == joined(plain_texts(trees(v@), v@.len()), " / "@),
{
    let ghost all = trees(v@);
    let mut list: Vec<String> = Vec::new();
    let mut i: usize = 0;
    assert(views(list@) =~= Seq::<Seq<char>>::empty());
    while i < v.len()
        invariant
            i <= v@.len(),
            all == trees(v@),
            views(list@) == plain_texts(all, i as nat),
        decreases v@.len() - i,
    {
        assert(all[i as int] == v@[i as int]@);
        if let Some(s) = v[i].as_str() {
            let ghost before = views(list@);
            list.push(safe(s));
            assert(views(list@) =~= before.push(plain(s@)));
        }
        i += 1;
    }
    join(&list, " / ")
}

/// What became of taking a permission back.
#[derive(Debug)]
pub struct RevokeOutcome {
    pub state: String,
    pub in_flight: Option<i64>,
}

/// Why the entry of a permission cannot be written.
pub open spec fn entry_objection(grant: JsonView, modern: bool) -> Option<Seq<char>> {
    let scope = grant.at("scope"@);
    let policy = grant.at("grant_policy"@);
    if field_objection(scope, "server"@) is Some {
        field_objection(scope, "server"@)
    } else if field_objection(scope, "tool"@) is Some {
        field_objection(scope, "tool"@)
    } else if grant.at("expires_at"@).text() is None {
        Some("timestamp"@)
    } else if applied(grant) is None {
        Some("count missing"@)
    } else if modern && policy.at("eligible_operations"@).array() is None {
        Some("grant operations"@)
    } else if modern && policy.at("always_confirm_operations"@).array() is None {
        Some("confirm operations"@)
    } else {
        None
    }
}

/// Whether a permission is applied now, in words.
pub open spec fn availability_line(grant: JsonView) -> Seq<char> {
    let state = grant.at("availability"@).at("state"@);
    if state.says("refreshing"@) {
        "定義を更新中です。同じ定義の確認後に適用を再評価します。"@
    } else if state.says("inactive"@) {
        "この許可は現在、自動適用しません。取消は引き続き利用できます。"@
    } else {
        "適用時に対象・引数・期限を再確認します。"@
    }
}

/// The line of a permission.
pub open spec fn grant_line(grant: JsonView) -> Seq<char> {
    first_chars(tool_name(grant.at("scope"@)), 45) + ": "@ + state_label(grant.at("state"@))
        + "・適用送信 "@ + signed_decimal(applied(grant)->0 as int) + "件（成功件数ではありません）\n期限: "@
        + grant.at("expires_at"@).text()->0
}

/// What a permission covers, in words.
pub open spec fn operations_line(grant: JsonView) -> Seq<char> {
    let policy = grant.at("grant_policy"@);
    let eligible = policy.at("eligible_operations"@).array()->0;
    let confirm = policy.at("always_confirm_operations"@).array()->0;
    "依頼中の許可対象: "@ + joined(plain_texts(eligible, eligible.len()), " / "@)
        + "\n毎回確認する操作: "@ + joined(plain_texts(confirm, confirm.len()), " / "@)
}

/// What became of taking a permission back, in words.
pub open spec fn revoke_line(o: RevokeOutcome) -> Seq<char> {
    match o.in_flight {
        Some(n) => "取消確認済み・取消時の送信中/結果不明 "@ + signed_decimal(n as int) + "件"@,
        None => "取消確認中（"@ + o.state@ + "）。この一覧を開き直すと元の取消を照会します。"@,
    }
}

/// The lines of a permission.
pub open spec fn entry_lines(grant: JsonView, modern: bool, outcome: Option<RevokeOutcome>) -> Seq<
    Seq<char>,
> {
    let first = if modern {
        seq![availability_line(grant), grant_line(grant), operations_line(grant)]
    } else {
        seq![grant_line(grant)]
    };
    match outcome {
        Some(o) => first.push(revoke_line(o)),
        None => first,
    }
}

/// Whether a permission can be taken back, or that is still uncertain.
pub open spec fn revocable(grant: JsonView, outcome: Option<RevokeOutcome>) -> bool {
    let state = grant.at("state"@);
    state.says("pending"@) || state.says("active"@) || state.says("suspended"@) || (outcome is Some
        && outcome->0.state@ != "succeeded"@)
}

/// An option of a menu of permissions.
pub open spec fn grant_option(label: Seq<char>, local: Seq<char>) -> JsonView {
    JsonView::Object(seq![("label"@, JsonView::Text(label)), ("value"@, JsonView::Text(local))])
}

/// A menu to take back one of some permissions.
pub open spec fn revoke_menu(request: Seq<char>, placeholder: Seq<char>, options: Seq<JsonView>) -> JsonView {
    if options.len() == 0 {
        JsonView::Array(Seq::empty())
    } else {
        crate::components::row_view(
            seq![
                JsonView::Object(
                    seq![
                        ("custom_id"@, JsonView::Text("mt:revoke-menu:"@ + request)),
                        ("options"@, JsonView::Array(options)),
                        ("placeholder"@, JsonView::Text(placeholder)),
                        ("type"@, JsonView::Unsigned(3)),
                    ],
                ),
            ],
        )
    }
}

fn menu_of(request: &str, placeholder: &str, options: Vec<Json>) -> (r: Json)
    ensures
        r@ == revoke_menu(request@, placeholder@, trees(options@)),
{
    assert(trees(options@).len() == options@.len());
    if options.len() == 0 {
        return empty_array();
    }
    let id = String::from_str("mt:revoke-menu:").concat(request);
    let mut items: Vec<Json> = Vec::new();
    let ghost all = trees(options@);
    items.push(
        object4(
            "custom_id",
            json_text(id.as_str()),
            "options",
            array(options),
            "placeholder",
            json_text(placeholder),
            "type",
            Json::Unsigned(3),
        ),
    );
    assert(trees(items@) =~= seq![
        JsonView::Object(
            seq![
                ("custom_id"@, JsonView::Text("mt:revoke-menu:"@ + request@)),
                ("options"@, JsonView::Array(all)),
                ("placeholder"@, JsonView::Text(placeholder@)),
                ("type"@, JsonView::Unsigned(3)),
            ],
        ),
    ]);
    crate::components::row(items)
}

/// The list of the permissions of a run, entry by entry.
#[derive(Debug)]
pub struct GrantMenu {
    pub modern: bool,
    pub entries: usize,
    pub lines: Vec<String>,
    pub controls: Vec<Json>,
}

impl GrantMenu {
    pub fn new(modern: bool) -> (r: GrantMenu)
        ensures
            r.modern == modern,
            r.entries == 0,
            views(r.lines@) == seq!["この作業のMCP許可（本人限定）"@],
            trees(r.controls@) == Seq::<JsonView>::empty(),
    {
        let r = GrantMenu {
            modern,
            entries: 0,
            lines: vec![String::from_str("この作業のMCP許可（本人限定）")],
            controls: Vec::new(),
        };
        assert(views(r.lines@) =~= seq!["この作業のMCP許可（本人限定）"@]);
        assert(trees(r.controls@) =~= Seq::<JsonView>::empty());
        r
    }

    /// Adds a permission.
    pub fn push(&mut self, grant: &Json, local: &str, outcome: Option<&RevokeOutcome>) -> (r: Result<
        (),
        &'static str,
    >)
        requires
            old(self).entries < usize::MAX,
        ensures
            final(self).modern == old(self).modern,
            ({
                let o = match outcome {
                    Some(x) => Some(*x),
                    None => None,
                };
                match entry_objection(grant@, old(self).modern) {
                    Some(e) => r is Err && r->Err_0@ == e && *final(self) == *old(self),
                    None => {
                        &&& r is Ok
                        &&& final(self).entries == old(self).entries + 1
                        &&& views(final(self).lines@) == views(old(self).lines@) + entry_lines(
                            grant@,
                            old(self).modern,
                            o,
                        )
                        &&& trees(final(self).controls@) == trees(old(self).controls@) + if revocable(
                            grant@,
                            o,
                        ) {
                            seq![
                                grant_option(
                                    first_chars(tool_name(grant@.at("scope"@)), 45),
                                    local@,
                                ),
                            ]
                        } else {
                            Seq::empty()
                        }
                    },
                }
            }),
    {
        let scope = grant.at("scope");
        let server = match text(scope, "server") {
            Ok(s) => s,
            Err(e) => {
                return Err(e);
            },
        };
        let tool = match text(scope, "tool") {
            Ok(s) => s,
            Err(e) => {
                return Err(e);
            },
        };
        let expires = match grant.at("expires_at").as_str() {
            Some(s) => s,
            None => {
                return Err("timestamp");
            },
        };
        let count: i64 = match read_applied(grant) {
            Some(n) => n,
            None => {
                return Err("count missing");
            },
        };
        let policy = grant.at("grant_policy");
        let mut covered = String::new();
        if self.modern {
            let eligible = match policy.at("eligible_operations").as_array() {
                Some(v) => v,
                None => {
                    return Err("grant operations");
                },
            };
            let confirm = match policy.at("always_confirm_operations").as_array() {
                Some(v) => v,
                None => {
                    return Err("confirm operations");
                },
            };
            assert(trees(eligible@) =~= grant@.at("grant_policy"@).at("eligible_operations"@).array()->0);
            assert(trees(confirm@) =~= grant@.at("grant_policy"@).at(
                "always_confirm_operations"@,
            ).array()->0);
            let may = safe_texts(eligible);
            let must = safe_texts(confirm);
            covered = String::from_str("依頼中の許可対象: ").concat(may.as_str()).concat(
                "\n毎回確認する操作: ",
            ).concat(must.as_str());
        }
        let server = safe(server);
        let tool = safe(tool);
        let name = String::from_str(server.as_str()).concat(" / ").concat(tool.as_str());
        let short = take_chars(name.as_str(), 45);
        let state = grant.at("state");
        let label = if state.is_text("active") {
            "有効"
        } else if state.is_text("pending") {
            "最初の回答を確認中"
        } else if state.is_text("suspended") {
            "結果不明・適用停止"
        } else if state.is_text("revoked") {
            "取消済み"
        } else {
            "失効"
        };
        let number = signed_text(count);
        let line = String::from_str(short.as_str()).concat(": ").concat(label).concat(
            "・適用送信 ",
        ).concat(number.as_str()).concat("件（成功件数ではありません）\n期限: ").concat(expires);
        let ghost before = views(self.lines@);
        let ghost o = match outcome {
            Some(x) => Some(*x),
            None => None,
        };
        if self.modern {
            let available = grant.at("availability").at("state");
            let said = if available.is_text("refreshing") {
                "定義を更新中です。同じ定義の確認後に適用を再評価します。"
            } else if available.is_text("inactive") {
                "この許可は現在、自動適用しません。取消は引き続き利用できます。"
            } else {
                "適用時に対象・引数・期限を再確認します。"
            };
            self.lines.push(said.to_owned());
            self.lines.push(line);
            self.lines.push(covered);
            assert(views(self.lines@) =~= before + seq![
                availability_line(grant@),
                grant_line(grant@),
                operations_line(grant@),
            ]);
        } else {
            self.lines.push(line);
            assert(views(self.lines@) =~= before + seq![grant_line(grant@)]);
        }
        let mut uncertain = false;
        if let Some(x) = outcome {
            let said = match x.in_flight {
                Some(n) => {
                    let number = signed_text(n);
                    String::from_str("取消確認済み・取消時の送信中/結果不明 ").concat(
                        number.as_str(),
                    ).concat("件")
                },
                None => String::from_str("取消確認中（").concat(x.state.as_str()).concat(
                    "）。この一覧を開き直すと元の取消を照会します。",
                ),
            };
            self.lines.push(said);
            uncertain = !same(x.state.as_str(), "succeeded");
        }
        assert(views(self.lines@) =~= before + entry_lines(grant@, self.modern, o));
        let ghost earlier = trees(self.controls@);
        if state.is_text("pending") || state.is_text("active") || state.is_text("suspended")
            || uncertain {
            self.controls.push(
                object2("label", json_text(short.as_str()), "value", json_text(local)),
            );
            assert(trees(self.controls@) =~= earlier.push(
                grant_option(first_chars(tool_name(grant@.at("scope"@)), 45), local@),
            ));
        }
        assert(trees(self.controls@) =~= earlier + if revocable(grant@, o) {
            seq![grant_option(first_chars(tool_name(grant@.at("scope"@)), 45), local@)]
        } else {
            Seq::empty()
        });
        self.entries = self.entries + 1;
        Ok(())
    }

    /// The whole list, with a menu to take a permission back.
    pub fn mcp_grant_menu(self, request: &str) -> (r: (String, Json))
        ensures
            r.0@ == joined(
                views(self.lines@) + if self.entries == 0 {
                    seq!["この作業のターン限定許可はありません。"@]
                } else {
                    Seq::empty()
                } + seq![
                    "取消は以後の適用を止めます。実行済みの操作は戻りません。作業全体の停止は /stop。"@,
                ],
                "\n"@,
            ),
            r.1@ == revoke_menu(request@, "取り消す許可を選択"@, trees(self.controls@)),
    {
        let mut lines = self.lines;
        let ghost before = views(lines@);
        if self.entries == 0 {
            lines.push(String::from_str("この作業のターン限定許可はありません。"));
        }
        lines.push(
            String::from_str(
                "取消は以後の適用を止めます。実行済みの操作は戻りません。作業全体の停止は /stop。",
            ),
        );
        assert(views(lines@) =~= before + if self.entries == 0 {
            seq!["この作業のターン限定許可はありません。"@]
        } else {
            Seq::empty()
        } + seq![
            "取消は以後の適用を止めます。実行済みの操作は戻りません。作業全体の停止は /stop。"@,
        ]);
        (join(&lines, "\n"), menu_of(request, "取り消す許可を選択", self.controls))
    }
}

/// How many applications were under way when a permission was taken back, where the proxy confirms
/// that it was.
pub open spec fn revoked_count(v: JsonView, remote: Seq<char>) -> Option<i64> {
    if v.at("kind"@).says("mcp_grant.revoke"@) && v.at("resource"@).at("type"@).says("mcp_grant"@)
        && v.at("resource"@).at("id"@).says(remote) && v.at("state"@).says("succeeded"@) {
        match v.at("in_flight_or_unknown_count"@).signed() {
            Some(n) => if n >= 0 {
                Some(n)
            } else {
                None
            },
            None => None,
        }
    } else {
        None
    }
}

/// What the proxy says of taking a permission back; `None` where nothing is confirmed.
pub fn refresh_mcp_revoke(v: Option<&Json>, remote: &str) -> (r: Option<i64>)
    ensures
        r == match v {
            Some(v) => revoked_count(v@, remote@),
            None => None,
        },
{
    match v {
        None => None,
        Some(v) => {
            if v.at("kind").is_text("mcp_grant.revoke") && v.at("resource").at("type").is_text(
                "mcp_grant",
            ) && v.at("resource").at("id").is_text(remote) && v.at("state").is_text("succeeded") {
                match v.at("in_flight_or_unknown_count").as_i64() {
                    Some(n) => {
                        if n >= 0 {
                            Some(n)
                        } else {
                            None
                        }
                    },
                    None => None,
                }
            } else {
                None
            }
        },
    }
}

/// What was read of a text, in mathematical form.
pub open spec fn as_read(r: Result<Json, String>) -> Result<JsonView, Seq<char>> {
    match r {
        Ok(j) => Ok(j@),
        Err(e) => Err(e@),
    }
}

/// Why a permission may not be taken back from a conversation. `saved` is what is stored of it.
pub open spec fn revoke_objection(
    request_thread: Seq<char>,
    thread: Seq<char>,
    saved: Result<JsonView, Seq<char>>,
    f: ScopeFacts,
    modern: bool,
    caps: Capabilities,
) -> Option<Seq<char>> {
    if request_thread != thread {
        Some("許可の会話が一致しません"@)
    } else if saved is Err {
        Some(saved->Err_0)
    } else if scope_objection(scope_in(saved->Ok_0), f) is Some {
        scope_objection(scope_in(saved->Ok_0), f)
    } else if !(modern || caps.turn) {
        Some("ターン許可は現在利用できません"@)
    } else {
        None
    }
}

/// Whether a permission may be taken back from a conversation. `saved` is the text that is stored of
/// its scope.
pub fn check_revoke(
    request_thread: &str,
    thread: &str,
    saved: &str,
    f: &ScopeFacts,
    modern: bool,
    caps: Capabilities,
) -> (r: Result<(), String>)
    ensures
        match revoke_objection(request_thread@, thread@, parsed_tree(saved@), *f, modern, caps) {
            None => r is Ok,
            Some(e) => r is Err && r->Err_0@ == e,
        },
{
    judge_revoke(request_thread, thread, &read(saved), f, modern, caps)
}

/// Whether a permission may be taken back from a conversation, with what is stored of it as it was
/// read.
pub fn judge_revoke(
    request_thread: &str,
    thread: &str,
    saved: &Result<Json, String>,
    f: &ScopeFacts,
    modern: bool,
    caps: Capabilities,
) -> (r: Result<(), String>)
    ensures
        match revoke_objection(request_thread@, thread@, as_read(*saved), *f, modern, caps) {
            None => r is Ok,
            Some(e) => r is Err && r->Err_0@ == e,
        },
{
    if !same(request_thread, thread) {
        return Err(String::from_str("許可の会話が一致しません"));
    }
    match saved {
        Err(e) => {
            return Err(e.clone());
        },
        Ok(v) => match scope_matches(saved_scope(v), f) {
            Err(e) => {
                return Err(String::from_str(e));
            },
            Ok(()) => {},
        },
    }
    if !(modern || caps.turn) {
        return Err(String::from_str("ターン許可は現在利用できません"));
    }
    Ok(())
}

/// Whether the permissions of a request may be listed in a conversation.
pub fn check_listing(request_thread: &str, thread: &str, modern: bool, caps: Capabilities, response: Option<&str>) -> (r:
    Result<(), &'static str>)
    ensures
        request_thread@ != thread@ ==> r is Err && r->Err_0@ == "作業が一致しません"@,
        request_thread@ == thread@ && !(modern || caps.turn) ==> r is Err && r->Err_0@
            == "ターン許可は現在利用できません"@,
        request_thread@ == thread@ && (modern || caps.turn) && response is None ==> r is Err
            && r->Err_0@ == "Response missing"@,
        request_thread@ == thread@ && (modern || caps.turn) && response is Some ==> r is Ok,
{
    if !same(request_thread, thread) {
        return Err("作業が一致しません");
    }
    if !(modern || caps.turn) {
        return Err("ターン許可は現在利用できません");
    }
    if response.is_none() {
        return Err("Response missing");
    }
    Ok(())
}

/// The scope in what is stored of a permission.
pub open spec fn scope_in(saved: JsonView) -> JsonView {
    match saved.get("scope"@) {
        Some(v) => v,
        None => saved,
    }
}

/// The scope in what is stored of a permission.
pub fn saved_scope(saved: &Json) -> (r: &Json)
    ensures
        r@ == scope_in(saved@),
{
    match saved.get("scope") {
        Some(v) => v,
        None => saved,
    }
}

/// How a permission is taken back.
#[derive(Debug)]
pub enum RevokePlan {
    /// Store the key, then ask for it.
    Send(String),
    /// Look up what became of the earlier request.
    Look(String),
}

/// How a permission is taken back. Once a request for it was stored, only that one is looked up: no
/// other is sent.
pub fn revoke_mcp_grant(stored: Option<&str>, id: &str) -> (r: RevokePlan)
    ensures
        match stored {
            Some(key) => r is Look && r->Look_0@ == key@,
            None => r is Send && r->Send_0@ == "revoke-"@ + id@,
        },
{
    match stored {
        Some(key) => RevokePlan::Look(key.to_owned()),
        None => RevokePlan::Send(String::from_str("revoke-").concat(id)),
    }
}

/// What the user is told of taking a permission back.
pub open spec fn revoke_text(count: Option<i64>) -> Seq<char> {
    match count {
        Some(n) => "この許可の新たな適用を停止しました。取消時点の送信中・結果不明は"@ + signed_decimal(
            n as int,
        ) + "件です。既に実行した操作は戻りません。作業停止は /stop。"@,
        None => "取消の完了をまだ確認できません。/mcp で状態を確認してください。再度取消を選んだ場合は元の操作を照会し、別の取消要求は送りません。"@,
    }
}

/// The state that is stored of taking a permission back, and what the user is told.
pub fn revoke_reply(count: Option<i64>) -> (r: (&'static str, String))
    ensures
        r.0@ == if count is Some {
            "succeeded"@
        } else {
            "unknown"@
        },
        r.1@ == revoke_text(count),
{
    match count {
        Some(n) => {
            let number = signed_text(n);
            (
                "succeeded",
                String::from_str("この許可の新たな適用を停止しました。取消時点の送信中・結果不明は").concat(
                    number.as_str(),
                ).concat("件です。既に実行した操作は戻りません。作業停止は /stop。"),
            )
        },
        None => (
            "unknown",
            String::from_str(
                "取消の完了をまだ確認できません。/mcp で状態を確認してください。再度取消を選んだ場合は元の操作を照会し、別の取消要求は送りません。",
            ),
        ),
    }
}

/// A permission as it is stored, with its scope as it was read.
#[derive(Debug)]
pub struct SavedGrant {
    pub id: String,
    pub saved: Result<Json, String>,
}

/// The mathematical form of a `SavedGrant`.
#[verifier::ext_equal]
pub struct SavedView {
    pub id: Seq<char>,
    pub saved: Result<JsonView, Seq<char>>,
}

impl View for SavedGrant {
    type V = SavedView;

    open spec fn view(&self) -> SavedView {
        SavedView { id: self.id@, saved: as_read(self.saved) }
    }
}

/// The permissions of a list.
pub open spec fn saved_views(g: Seq<SavedGrant>) -> Seq<SavedView> {
    g.map_values(|x: SavedGrant| x@)
}

/// The permissions whose identities and scopes are stored as texts.
pub open spec fn saved_texts(rows: Seq<(String, String)>) -> Seq<SavedView> {
    rows.map_values(|x: (String, String)| SavedView { id: x.0@, saved: parsed_tree(x.1@) })
}

/// Why a stored permission is not listed.
pub open spec fn saved_objection(g: SavedView, f: ScopeFacts) -> Option<Seq<char>> {
    let scope = g.saved->Ok_0.at("scope"@);
    if g.saved is Err {
        Some(g.saved->Err_0)
    } else if scope_objection(scope, f) is Some {
        scope_objection(scope, f)
    } else if field_objection(scope, "server"@) is Some {
        field_objection(scope, "server"@)
    } else {
        field_objection(scope, "tool"@)
    }
}

/// The first objection to one of the first `n` stored permissions.
pub open spec fn first_saved_objection(g: Seq<SavedView>, f: ScopeFacts, n: nat) -> Option<Seq<char>>
    decreases n,
{
    if n == 0 || n > g.len() {
        None
    } else {
        let e = first_saved_objection(g, f, (n - 1) as nat);
        if e is Some {
            e
        } else {
            saved_objection(g[n - 1], f)
        }
    }
}

proof fn lemma_saved_objection(g: Seq<SavedView>, f: ScopeFacts, i: nat, n: nat)
    requires
        i <= n <= g.len(),
        first_saved_objection(g, f, i) is Some,
    ensures
        first_saved_objection(g, f, n) == first_saved_objection(g, f, i),
    decreases n,
{
    if i < n {
        lemma_saved_objection(g, f, i, (n - 1) as nat);
    }
}

/// The options of some stored permissions.
pub open spec fn saved_options(g: Seq<SavedView>) -> Seq<JsonView> {
    g.map_values(
        |x: SavedView| grant_option(first_chars(tool_name(x.saved->Ok_0.at("scope"@)), 80), x.id),
    )
}

/// What the user is told where the list of permissions cannot be had: those that are stored can be
/// taken back. Each row holds an identity and the text of a scope.
pub fn saved_v06_grants(
    request: &str,
    request_thread: &str,
    thread: &str,
    rows: &Vec<(String, String)>,
    f: &ScopeFacts,
) -> (r: Result<(&'static str, Json), String>)
    ensures
        request_thread@ != thread@ ==> r is Err && r->Err_0@ == "grant conversation mismatch"@,
        request_thread@ == thread@ ==> match first_saved_objection(saved_texts(rows@), *f, saved_texts(rows@).len()) {
            Some(e) => r is Err && r->Err_0@ == e,
            None => {
                &&& r is Ok
                &&& (r->Ok_0).0@
                    == "現在の許可一覧を取得できません。許可がないという意味ではありません。保存済みの許可は下から取消できます。すべての操作を止める場合は /stop を使ってください。状態を読み直すには /mcp を実行してください。"@
                &&& (r->Ok_0).1@ == revoke_menu(
                    request@,
                    "保存済みの許可を取り消す"@,
                    saved_options(saved_texts(rows@)),
                )
            },
        },
{
    let ghost all = saved_texts(rows@);
    let mut list: Vec<SavedGrant> = Vec::new();
    let mut i: usize = 0;
    assert(saved_views(list@) =~= all.take(0));
    while i < rows.len()
        invariant
            i <= rows@.len(),
            all == saved_texts(rows@),
            saved_views(list@) == all.take(i as int),
        decreases rows@.len() - i,
    {
        let ghost before = saved_views(list@);
        let row = SavedGrant { id: rows[i].0.clone(), saved: read(rows[i].1.as_str()) };
        let ghost added = row@;
        list.push(row);
        assert(added == all[i as int]);
        i += 1;
        assert(saved_views(list@) =~= before.push(added));
        assert(saved_views(list@) =~= all.take(i as int));
    }
    assert(saved_views(list@) =~= all);
    list_saved(request, request_thread, thread, &list, f)
}

/// What the user is told where the list of permissions cannot be had, with the scopes as they were
/// read.
pub fn list_saved(
    request: &str,
    request_thread: &str,
    thread: &str,
    rows: &Vec<SavedGrant>,
    f: &ScopeFacts,
) -> (r: Result<(&'static str, Json), String>)
    ensures
        request_thread@ != thread@ ==> r is Err && r->Err_0@ == "grant conversation mismatch"@,
        request_thread@ == thread@ ==> match first_saved_objection(saved_views(rows@), *f, saved_views(rows@).len()) {
            Some(e) => r is Err && r->Err_0@ == e,
            None => {
                &&& r is Ok
                &&& (r->Ok_0).0@
                    == "現在の許可一覧を取得できません。許可がないという意味ではありません。保存済みの許可は下から取消できます。すべての操作を止める場合は /stop を使ってください。状態を読み直すには /mcp を実行してください。"@
                &&& (r->Ok_0).1@ == revoke_menu(
                    request@,
                    "保存済みの許可を取り消す"@,
                    saved_options(saved_views(rows@)),
                )
            },
        },
{
    if !same(request_thread, thread) {
        return Err(String::from_str("grant conversation mismatch"));
    }
    let ghost all = saved_views(rows@);
    let mut options: Vec<Json> = Vec::new();
    let mut i: usize = 0;
    assert(trees(options@) =~= saved_options(all.take(0)));
    while i < rows.len()
        invariant
            i <= rows@.len(),
            request_thread@ == thread@,
            all == saved_views(rows@),
            first_saved_objection(all, *f, i as nat) is None,
            trees(options@) == saved_options(all.take(i as int)),
        decreases rows@.len() - i,
    {
        assert(all[i as int] == rows@[i as int]@);
        let mut name = String::new();
        let checked: Result<(), String> = match &rows[i].saved {
            Err(e) => Err(e.clone()),
            Ok(saved) => {
                let scope = saved.at("scope");
                match scope_matches(scope, f) {
                    Err(e) => Err(String::from_str(e)),
                    Ok(()) => match text(scope, "server") {
                        Err(e) => Err(String::from_str(e)),
                        Ok(server) => match text(scope, "tool") {
                            Err(e) => Err(String::from_str(e)),
                            Ok(tool) => {
                                let server = safe(server);
                                let tool = safe(tool);
                                name = String::from_str(server.as_str()).concat(" / ").concat(
                                    tool.as_str(),
                                );
                                Ok(())
                            },
                        },
                    },
                }
            },
        };
        match checked {
            Err(e) => {
                proof {
                    assert(saved_objection(all[i as int], *f) == Some(e@));
                    lemma_saved_objection(all, *f, (i + 1) as nat, all.len());
                }
                return Err(e);
            },
            Ok(()) => {},
        }
        let label = take_chars(name.as_str(), 80);
        let ghost before = trees(options@);
        options.push(
            object2("label", json_text(label.as_str()), "value", json_text(rows[i].id.as_str())),
        );
        i += 1;
        assert(trees(options@) =~= before.push(
            grant_option(
                first_chars(tool_name(all[i - 1].saved->Ok_0.at("scope"@)), 80),
                all[i - 1].id,
            ),
        ));
        assert(trees(options@) =~= saved_options(all.take(i as int)));
    }
    assert(all.take(all.len() as int) =~= all);
    Ok(
        (
            "現在の許可一覧を取得できません。許可がないという意味ではありません。保存済みの許可は下から取消できます。すべての操作を止める場合は /stop を使ってください。状態を読み直すには /mcp を実行してください。",
            menu_of(request, "保存済みの許可を取り消す", options),
        ),
    )
}

} // verus!
