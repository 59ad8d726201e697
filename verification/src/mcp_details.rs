//! The private pages with the content of an operation, and the buttons on them.
use crate::codec::{compact_form, compact_text, document, indented, pretty};
use crate::components::{button, button_view, row, row_view};
use crate::json::{trees, Json, JsonView};
use crate::mcp_grants::{
    code_block, digest_of_scope, eligible_for_turn, fenced, field_objection, scope_digest, showable,
    turn_eligible, Capabilities, DETAIL_MILLIS, PAGE_CHARS,
};
use crate::numbers::{
    decimal, decimal_text, signed_decimal, signed_fault, signed_number, signed_of, signed_text,
    unsigned_fault, unsigned_number, unsigned_of,
};
use crate::text::{
    begins, chars_of, opt_str, pieces, same, split, starts_with, text_of, views,
};
use vstd::prelude::*;
use vstd::string::*;

verus! {

/// The content of an operation, and what identifies it.
#[derive(Debug)]
pub struct Details {
    pub fingerprint: String,
    pub scope_digest: String,
    pub body: String,
}

/// The content of an operation in words, before secrets are masked.
pub open spec fn details_body(v: JsonView) -> Seq<char> {
    "操作詳細（実イベント由来・本人限定）\nサーバー: "@ + v.at("server"@).text()->0 + "\nツール: "@ + v.at(
        "tool"@,
    ).text()->0 + "\n\n実引数・実行コード：\n"@ + indented(document(v.at("arguments"@)))
        + "\n\n秘匿箇所: "@ + compact_text(document(v.at("redacted_paths"@)))
}

/// Why the content of an operation cannot be put into words.
pub open spec fn details_objection(v: JsonView) -> Option<Seq<char>> {
    if field_objection(v, "scope_fingerprint"@) is Some {
        field_objection(v, "scope_fingerprint"@)
    } else if field_objection(v, "server"@) is Some {
        field_objection(v, "server"@)
    } else {
        field_objection(v, "tool"@)
    }
}

/// The content of an operation, where it can be shown.
pub fn open_details(v: &Json) -> (r: Result<Option<Details>, &'static str>)
    ensures
        !showable(v@) ==> r is Ok && r->Ok_0 is None,
        showable(v@) ==> match details_objection(v@) {
            Some(e) => r is Err && r->Err_0@ == e,
            None => {
                &&& r is Ok
                &&& r->Ok_0 is Some
                &&& Some(r->Ok_0->0.fingerprint@) == v@.at("scope_fingerprint"@).text()
                &&& r->Ok_0->0.scope_digest@ == scope_digest(v@.at("scope"@))
                &&& r->Ok_0->0.body@ == details_body(v@)
            },
        },
{
    if !crate::mcp_grants::is_showable(v) {
        return Ok(None);
    }
    let fingerprint = match crate::mcp_grants::text(v, "scope_fingerprint") {
        Ok(s) => s,
        Err(e) => {
            return Err(e);
        },
    };
    let server = match crate::mcp_grants::text(v, "server") {
        Ok(s) => s,
        Err(e) => {
            return Err(e);
        },
    };
    let tool = match crate::mcp_grants::text(v, "tool") {
        Ok(s) => s,
        Err(e) => {
            return Err(e);
        },
    };
    let arguments = pretty(v.at("arguments"));
    let hidden = compact_form(v.at("redacted_paths"));
    let body = String::from_str("操作詳細（実イベント由来・本人限定）\nサーバー: ").concat(server).concat(
        "\nツール: ",
    ).concat(tool).concat("\n\n実引数・実行コード：\n").concat(arguments.as_str()).concat(
        "\n\n秘匿箇所: ",
    ).concat(hidden.as_str());
    Ok(
        Some(
            Details {
                fingerprint: fingerprint.to_owned(),
                scope_digest: digest_of_scope(v.at("scope")),
                body,
            },
        ),
    )
}

/// What is said of an operation that cannot be shown.
pub fn unavailable_text() -> (r: &'static str)
    ensures
        r@
            == "実際の操作内容を取得できません。許可せず元のカードから拒否するか、/stop で停止してください。"@,
{
    "実際の操作内容を取得できません。許可せず元のカードから拒否するか、/stop で停止してください。"
}

/// When details close: with the request, ten minutes from now at the latest.
pub fn details_expiry(expires: i64, now: i64) -> (r: i64)
    requires
        now <= i64::MAX - DETAIL_MILLIS,
    ensures
        r == if expires < now + DETAIL_MILLIS {
            expires as int
        } else {
            now + DETAIL_MILLIS
        },
{
    if expires < now + DETAIL_MILLIS {
        expires
    } else {
        now + DETAIL_MILLIS
    }
}

/// The text of the pages: the masked content, and whether anything was masked in it.
pub open spec fn paged_body(body: Seq<char>, redacted: Seq<char>) -> Seq<char> {
    redacted + "\nGatewayによる追加秘匿: "@ + if redacted != body {
        "あり（伏字を含みます）"@
    } else {
        "なし"@
    }
}

/// How many pages a text has.
pub open spec fn page_count(s: Seq<char>) -> nat {
    ((s.len() + PAGE_CHARS - 1) / PAGE_CHARS as int) as nat
}

/// A page of a text.
pub open spec fn page_of(s: Seq<char>, page: nat) -> Seq<char> {
    let from = page * PAGE_CHARS as nat;
    s.subrange(
        from as int,
        if from + PAGE_CHARS < s.len() {
            (from + PAGE_CHARS) as int
        } else {
            s.len() as int
        },
    )
}

/// The pages of a text hold it whole, in order: each character stands on its page.
pub proof fn pages_hold_the_text(s: Seq<char>, i: int)
    requires
        0 <= i < s.len(),
    ensures
        ({
            let page = (i / PAGE_CHARS as int) as nat;
            let at = i % PAGE_CHARS as int;
            page < page_count(s) && at < page_of(s, page).len() && page_of(s, page)[at] == s[i]
        }),
{
    let page = i / 500;
    let at = i % 500;
    assert(i == page * 500 + at);
    assert(page * 500 <= i);
    assert(page_count(s) * 500 >= s.len()) by {
        let n = s.len() + 499;
        assert(n == (n / 500) * 500 + n % 500);
    }
}

/// The buttons on a page.
pub open spec fn details_buttons(
    view: Seq<char>,
    local: Seq<char>,
    revision: i64,
    page: nat,
    total: nat,
    eligible: bool,
) -> Seq<JsonView> {
    let back = if page > 0 {
        seq![button_view("mt:page:"@ + view + ":"@ + decimal((page - 1) as nat), "前へ"@, 2)]
    } else {
        Seq::empty()
    };
    let forth = if page + 1 < total {
        seq![button_view("mt:page:"@ + view + ":"@ + decimal(page + 1), "次へ"@, 2)]
    } else {
        Seq::empty()
    };
    let once = seq![button_view("mt:once:"@ + view, "今回だけ許可"@, 3)];
    let turn = if eligible {
        seq![button_view("mt:turn:"@ + view, "この依頼中、このツールを許可"@, 3)]
    } else {
        Seq::empty()
    };
    let decline = seq![
        button_view("mcp:"@ + local + ":"@ + signed_decimal(revision as int) + ":decline"@, "拒否"@, 4),
    ];
    back + forth + once + turn + decline
}

/// The text of a page.
pub open spec fn details_text(whole: Seq<char>, page: nat, eligible: bool) -> Seq<char> {
    decimal(page + 1) + "/"@ + decimal(page_count(whole)) + "ページ\n"@ + fenced(page_of(whole, page))
        + "\n"@ + if eligible {
        "ターン許可は引数変更も含み、サイトや読取りだけに限定されません。最大10分・この作業の終了まで有効です。Steerや停止で失効します。/mcp で確認・取消できます。"@
    } else {
        "この操作はターン許可の対象外です。内容を確認できる場合だけ、今回だけ許可してください。"@
    }
}

/// A page with the content of an operation.
#[derive(Debug)]
pub struct DetailsPage {
    pub text: String,
    pub components: Json,
}

/// A page with the content of an operation: what it permits stands with its buttons. An operation
/// in which anything was masked is never permitted for the whole run.
pub fn show_mcp_details(
    v: &Json,
    body: &str,
    redacted: &str,
    caps: Capabilities,
    view: &str,
    local: &str,
    revision: i64,
    page: usize,
) -> (r: Result<DetailsPage, &'static str>)
    ensures
        ({
            let whole = paged_body(body@, redacted@);
            let eligible = redacted@ == body@ && eligible_for_turn(v@, caps);
            if page >= page_count(whole) {
                r is Err && r->Err_0@ == "ページがありません"@
            } else {
                &&& r is Ok
                &&& r->Ok_0.text@ == details_text(whole, page as nat, eligible)
                &&& r->Ok_0.components@ == row_view(
                    details_buttons(
                        view@,
                        local@,
                        revision,
                        page as nat,
                        page_count(whole),
                        eligible,
                    ),
                )
            }
        }),
{
    let masked = !same(redacted, body);
    let whole = String::from_str(redacted).concat("\nGatewayによる追加秘匿: ").concat(
        if masked {
            "あり（伏字を含みます）"
        } else {
            "なし"
        },
    );
    let chars = chars_of(whole.as_str());
    let n: usize = chars.len();
    let total: usize = n / PAGE_CHARS + (if n % PAGE_CHARS == 0 {
        0usize
    } else {
        1usize
    });
    assert(total == page_count(whole@)) by {
        let m = n + 499;
        assert(m == (m / 500) * 500 + m % 500);
    }
    if page >= total {
        return Err("ページがありません");
    }
    assert(page * PAGE_CHARS < n) by (nonlinear_arith)
        requires
            page < total,
            total == n / PAGE_CHARS + (if n % PAGE_CHARS == 0 { 0int } else { 1int }),
            PAGE_CHARS == 500,
    ;
    let from: usize = page * PAGE_CHARS;
    let to: usize = if n - from > PAGE_CHARS { from + PAGE_CHARS } else { n };
    let part = text_of(&chars, from, to);
    assert(part@ =~= page_of(whole@, page as nat));
    let eligible = !masked && turn_eligible(v, caps);
    let mut buttons: Vec<Json> = Vec::new();
    if page > 0 {
        let number = decimal_text((page - 1) as u64);
        let id = String::from_str("mt:page:").concat(view).concat(":").concat(number.as_str());
        buttons.push(button(id.as_str(), "前へ", 2));
    }
    if page + 1 < total {
        let number = decimal_text((page + 1) as u64);
        let id = String::from_str("mt:page:").concat(view).concat(":").concat(number.as_str());
        buttons.push(button(id.as_str(), "次へ", 2));
    }
    let once = String::from_str("mt:once:").concat(view);
    buttons.push(button(once.as_str(), "今回だけ許可", 3));
    if eligible {
        let turn = String::from_str("mt:turn:").concat(view);
        buttons.push(button(turn.as_str(), "この依頼中、このツールを許可", 3));
    }
    let number = signed_text(revision);
    let decline = String::from_str("mcp:").concat(local).concat(":").concat(number.as_str()).concat(
        ":decline",
    );
    buttons.push(button(decline.as_str(), "拒否", 4));
    assert(trees(buttons@) =~= details_buttons(
        view@,
        local@,
        revision,
        page as nat,
        total as nat,
        eligible,
    ));
    let block = code_block(part.as_str());
    let at = decimal_text((page + 1) as u64);
    let of = decimal_text(total as u64);
    let text = String::from_str(at.as_str()).concat("/").concat(of.as_str()).concat("ページ\n").concat(
        block.as_str(),
    ).concat("\n").concat(
        if eligible {
            "ターン許可は引数変更も含み、サイトや読取りだけに限定されません。最大10分・この作業の終了まで有効です。Steerや停止で失効します。/mcp で確認・取消できます。"
        } else {
            "この操作はターン許可の対象外です。内容を確認できる場合だけ、今回だけ許可してください。"
        },
    );
    Ok(DetailsPage { text, components: row(buttons) })
}

/// Details that are open.
#[derive(Debug)]
pub struct DetailView {
    pub interaction: String,
    pub viewer: String,
    pub revision: i64,
    pub fingerprint: String,
    pub scope_digest: String,
    pub expires: i64,
}

/// Whether open details are those of an operation as it is now.
pub open spec fn current_view(
    d: DetailView,
    local: Seq<char>,
    user: Seq<char>,
    revision: i64,
    fingerprint: Seq<char>,
    scope: Seq<char>,
    now: i64,
) -> bool {
    d.interaction@ == local && d.viewer@ == user && d.revision == revision && d.fingerprint@
        == fingerprint && d.scope_digest@ == scope && d.expires > now
}

/// Whether open details are those of an operation as it is now.
pub fn check_mcp_view(
    d: &DetailView,
    local: &str,
    user: &str,
    revision: i64,
    fingerprint: &str,
    scope: &str,
    now: i64,
) -> (r: Result<(), &'static str>)
    ensures
        r is Ok <==> current_view(*d, local@, user@, revision, fingerprint@, scope@, now),
        r is Err ==> r->Err_0@ == "古い詳細画面です。元のカードから開き直してください"@,
{
    if same(d.interaction.as_str(), local) && same(d.viewer.as_str(), user) && d.revision == revision
        && same(d.fingerprint.as_str(), fingerprint) && same(d.scope_digest.as_str(), scope)
        && d.expires > now {
        Ok(())
    } else {
        Err("古い詳細画面です。元のカードから開き直してください")
    }
}

/// Whether the user pressed a control in the guild.
pub open spec fn pressed_by_user(event: JsonView, guild: Seq<char>, user: Seq<char>) -> bool {
    event.at("type"@) == JsonView::Unsigned(3) && event.at("guild_id"@).says(guild) && event.at(
        "member"@,
    ).at("user"@).at("id"@).says(user)
}

/// Whether the user pressed a control in the guild.
pub fn check_press(event: &Json, guild: &str, user: &str) -> (r: Result<(), &'static str>)
    ensures
        r is Ok <==> pressed_by_user(event@, guild@, user@),
        r is Err ==> r->Err_0@ == "操作権限がありません"@,
{
    if event.at("type").is_number(3) && event.at("guild_id").is_text(guild) && event.at("member").at(
        "user",
    ).at("id").is_text(user) {
        Ok(())
    } else {
        Err("操作権限がありません")
    }
}

/// Whether the answer to a control replaces the message that holds it.
pub fn replaces_message(custom: &str) -> (r: bool)
    ensures
        r == (begins(custom@, "mt:page:"@) || begins(custom@, "mt:once:"@) || begins(
            custom@,
            "mt:turn:"@,
        ) || begins(custom@, "mt:revoke-menu:"@)),
{
    starts_with(custom, "mt:page:") || starts_with(custom, "mt:once:") || starts_with(
        custom,
        "mt:turn:",
    ) || starts_with(custom, "mt:revoke-menu:")
}

/// What a control asks for.
#[derive(Debug)]
pub enum TurnRoute {
    /// Open the details of a request at a revision.
    Details { local: String, revision: i64 },
    /// List the permissions of a request.
    Grants { request: String },
    /// Take a permission back.
    Revoke { grant: String },
    /// Turn to a page of open details.
    Page { view: String, page: usize },
    /// Permit the operation, or the tool for the whole run.
    Permit { view: String, turn: bool },
}

/// The mathematical form of a `TurnRoute`.
pub enum TurnRouteView {
    Details(Seq<char>, i64),
    Grants(Seq<char>),
    Revoke(Seq<char>),
    Page(Seq<char>, nat),
    Permit(Seq<char>, bool),
}

impl View for TurnRoute {
    type V = TurnRouteView;

    open spec fn view(&self) -> TurnRouteView {
        match self {
            TurnRoute::Details { local, revision } => TurnRouteView::Details(local@, *revision),
            TurnRoute::Grants { request } => TurnRouteView::Grants(request@),
            TurnRoute::Revoke { grant } => TurnRouteView::Revoke(grant@),
            TurnRoute::Page { view, page } => TurnRouteView::Page(view@, *page as nat),
            TurnRoute::Permit { view, turn } => TurnRouteView::Permit(view@, *turn),
        }
    }
}

/// What a control asks for; `chosen` is what was chosen in a menu.
pub open spec fn turn_route(custom: Seq<char>, chosen: Option<Seq<char>>, recovering: bool) -> Result<
    TurnRouteView,
    Seq<char>,
> {
    let p = pieces(custom, ':');
    if recovering {
        Err("復旧確認中です"@)
    } else if !(p.len() >= 3 && p[0] == "mt"@) {
        Err("invalid control"@)
    } else if p[1] == "details"@ {
        if p.len() < 4 {
            Err("revision"@)
        } else {
            match signed_of(p[3]) {
                Some(n) => Ok(TurnRouteView::Details(p[2], n as i64)),
                None => Err(signed_fault(p[3])->0),
            }
        }
    } else if p[1] == "grants"@ {
        Ok(TurnRouteView::Grants(p[2]))
    } else if p[1] == "revoke-menu"@ {
        match chosen {
            Some(s) => Ok(TurnRouteView::Revoke(s)),
            None => Err("取消対象を選んでください"@),
        }
    } else if p[1] == "revoke"@ {
        Ok(TurnRouteView::Revoke(p[2]))
    } else if p[1] == "page"@ {
        if p.len() < 4 {
            Err("page"@)
        } else {
            match unsigned_of(p[3], usize::MAX as nat) {
                Some(n) => Ok(TurnRouteView::Page(p[2], n)),
                None => Err(unsigned_fault(p[3], usize::MAX as nat)->0),
            }
        }
    } else if p[1] == "once"@ {
        Ok(TurnRouteView::Permit(p[2], false))
    } else if p[1] == "turn"@ {
        Ok(TurnRouteView::Permit(p[2], true))
    } else {
        Err("invalid action"@)
    }
}

/// What a control asks for.
pub fn handle_mcp_turn(custom: &str, chosen: Option<&str>, recovering: bool) -> (r: Result<
    TurnRoute,
    &'static str,
>)
    ensures
        match turn_route(custom@, opt_str(chosen), recovering) {
            Ok(v) => r is Ok && r->Ok_0@ == v,
            Err(e) => r is Err && r->Err_0@ == e,
        },
{
    if recovering {
        return Err("復旧確認中です");
    }
    let p = split(custom, ':');
    let ghost all = pieces(custom@, ':');
    assert(views(p@).len() == p@.len());
    assert forall|i: int| 0 <= i < p@.len() implies #[trigger] p@[i]@ == all[i] by {
        assert(views(p@)[i] == p@[i]@);
    }
    if !(p.len() >= 3 && same(p[0].as_str(), "mt")) {
        return Err("invalid control");
    }
    let action = p[1].as_str();
    let target = p[2].as_str();
    if same(action, "details") {
        if p.len() < 4 {
            return Err("revision");
        }
        match signed_number(p[3].as_str()) {
            Ok(revision) => Ok(TurnRoute::Details { local: target.to_owned(), revision }),
            Err(e) => Err(e),
        }
    } else if same(action, "grants") {
        Ok(TurnRoute::Grants { request: target.to_owned() })
    } else if same(action, "revoke-menu") {
        match chosen {
            Some(s) => Ok(TurnRoute::Revoke { grant: s.to_owned() }),
            None => Err("取消対象を選んでください"),
        }
    } else if same(action, "revoke") {
        Ok(TurnRoute::Revoke { grant: target.to_owned() })
    } else if same(action, "page") {
        if p.len() < 4 {
            return Err("page");
        }
        match unsigned_number(p[3].as_str(), usize::MAX as u64) {
            Ok(n) => Ok(TurnRoute::Page { view: target.to_owned(), page: n as usize }),
            Err(e) => Err(e),
        }
    } else if same(action, "once") {
        Ok(TurnRoute::Permit { view: target.to_owned(), turn: false })
    } else if same(action, "turn") {
        Ok(TurnRoute::Permit { view: target.to_owned(), turn: true })
    } else {
        Err("invalid action")
    }
}

/// Why an operation is not permitted from its details.
pub open spec fn permit_objection(v: JsonView, turn: bool, masked: bool, caps: Capabilities) -> Option<
    Seq<char>,
> {
    if !showable(v) {
        Some("操作内容が失効しました"@)
    } else if turn && masked {
        Some("秘匿を含む操作は個別確認してください"@)
    } else if turn && !eligible_for_turn(v, caps) {
        Some("この操作はターン許可できません"@)
    } else {
        None
    }
}

/// Whether an operation is permitted from its details. `masked` says whether a secret was masked in
/// its arguments.
pub fn check_permit(v: &Json, turn: bool, masked: bool, caps: Capabilities) -> (r: Result<
    (),
    &'static str,
>)
    ensures
        match permit_objection(v@, turn, masked, caps) {
            None => r is Ok,
            Some(e) => r is Err && r->Err_0@ == e,
        },
{
    if !crate::mcp_grants::is_showable(v) {
        return Err("操作内容が失効しました");
    }
    if turn && masked {
        return Err("秘匿を含む操作は個別確認してください");
    }
    if turn && !turn_eligible(v, caps) {
        return Err("この操作はターン許可できません");
    }
    Ok(())
}

/// What the user is told once a control was handled.
pub fn turn_reply(handled: bool) -> (r: &'static str)
    ensures
        handled ==> r@ == "許可の回答を送りました。作業結果は元の会話で確認してください。"@,
        !handled ==> r@
            == "操作を確認できませんでした。古い画面・期限・権限・Proxyの状態を確認するため、元のカードまたは /mcp から開き直してください。許可は自動再送しません。"@,
{
    if handled {
        "許可の回答を送りました。作業結果は元の会話で確認してください。"
    } else {
        "操作を確認できませんでした。古い画面・期限・権限・Proxyの状態を確認するため、元のカードまたは /mcp から開き直してください。許可は自動再送しません。"
    }
}

/// Only an operation whose content can be shown whole, without anything masked, is permitted for the
/// whole run.
pub proof fn masked_operations_are_permitted_once_at_most(v: JsonView, masked: bool, caps: Capabilities)
    requires
        permit_objection(v, true, masked, caps) is None,
    ensures
        !masked,
        showable(v),
        v.at("redacted_paths"@) == JsonView::Array(Seq::empty()),
{
}

} // verus!
