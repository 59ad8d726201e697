//! What the direct runtime shows: menus, rejections of input, and the pages of an approval.
use crate::codec::{document, indented, pretty};
use crate::components::{
    button, button_view, menu_option, option_view, row, row_view, select, select_view,
};
use crate::config::Limits;
use crate::direct_approval::{
    grantable, manual_reply, tool_reply, DirectInteraction, InteractionKind, InteractionView,
    ManualDecision,
};
use crate::direct_models::{effort_views, model_views, DirectModel, DirectReasoningEffort, ModelView};
use crate::json::{empty_array, object2, trees, Json, JsonView};
use crate::numbers::{
    decimal, decimal_text, hexadecimal, hexadecimal_text, lemma_decimal_len, lemma_hexadecimal,
};
use crate::pages::{glued, paged, pages_keep_the_limit, pages_keep_the_text, paginate};
use crate::text::{
    byte_len, chars_of, contains, control, directional, first_chars, holds, is_control,
    is_directional, lemma_utf16_bounds, lemma_utf16_concat, same, take_chars, utf16_len, utf8_len,
    views,
};
use vstd::prelude::*;
use vstd::string::*;

verus! {

/// Nearest integer to `n / d`; of two equally near ones the even one.
pub open spec fn nearest(n: nat, d: nat) -> nat
    recommends
        d > 0,
{
    let q = n / d;
    let r = n % d;
    if 2 * r > d || (2 * r == d && q % 2 == 1) {
        q + 1
    } else {
        q
    }
}

/// The double-precision value of an integer.
pub open spec fn as_double(n: nat, unit: nat) -> nat
    recommends
        unit > 0,
    decreases (if n >= unit * 0x20_0000_0000_0000 { n - unit } else { 0 }),
    when unit > 0
{
    if n < unit * 0x20_0000_0000_0000 {
        nearest(n, unit) * unit
    } else {
        as_double(n, unit * 2)
    }
}

/// A number of bytes in mebibytes with one decimal place.
pub open spec fn mebibytes(bytes: nat) -> Seq<char> {
    let tenths = nearest(as_double(bytes, 1) * 10, 0x10_0000);
    decimal(tenths / 10) + "."@ + decimal(tenths % 10) + " MiB"@
}

fn nearest_of(n: u128, d: u128) -> (r: u128)
    requires
        0 < d < 0x1_0000_0000_0000_0000_0000,
        n < 0x1_0000_0000_0000_0000_0000,
    ensures
        r == nearest(n as nat, d as nat),
        r <= n + 1,
{
    let q: u128 = n / d;
    let m: u128 = n % d;
    assert(q <= n) by (nonlinear_arith)
        requires
            q == n / d,
            d > 0,
    ;
    if 2 * m > d || (2 * m == d && q % 2 == 1) {
        q + 1
    } else {
        q
    }
}

fn double_of(n: u64) -> (r: u128)
    ensures
        r == as_double(n as nat, 1),
        r <= 0x2_0000_0000_0000_0000,
{
    let wide: u128 = n as u128;
    let mut unit: u128 = 1;
    let mut k: u32 = 0;
    while wide >= unit * 0x20_0000_0000_0000
        invariant
            wide == n,
            k <= 11,
            1 <= unit <= 2048,
            k == 0 ==> unit == 1,
            k == 1 ==> unit == 2,
            k == 2 ==> unit == 4,
            k == 3 ==> unit == 8,
            k == 4 ==> unit == 16,
            k == 5 ==> unit == 32,
            k == 6 ==> unit == 64,
            k == 7 ==> unit == 128,
            k == 8 ==> unit == 256,
            k == 9 ==> unit == 512,
            k == 10 ==> unit == 1024,
            k == 11 ==> unit == 2048,
            as_double(n as nat, 1) == as_double(n as nat, unit as nat),
        decreases 11 - k,
    {
        unit = unit * 2;
        k += 1;
    }
    let q: u128 = nearest_of(wide, unit);
    assert(q * unit <= 0x2_0000_0000_0000_0000) by (nonlinear_arith)
        requires
            q <= wide / unit + 1,
            wide <= 0xffff_ffff_ffff_ffff,
            1 <= unit <= 2048,
    ;
    q * unit
}

fn mebibyte_text(bytes: usize) -> (r: String)
    ensures
        r@ == mebibytes(bytes as nat),
{
    let value: u128 = double_of(bytes as u64);
    let tenths: u128 = nearest_of(value * 10, 0x10_0000);
    assert(tenths / 10 <= u64::MAX) by {
        assert(tenths <= value * 10 / 0x10_0000 + 1);
    }
    let whole = decimal_text((tenths / 10) as u64);
    let part = decimal_text((tenths % 10) as u64);
    whole.concat(".").concat(part.as_str()).concat(" MiB")
}

/// What the user is told when an input is refused for a reason.
pub open spec fn rejection_text(reason: Seq<char>, limits: Limits) -> Seq<char> {
    if holds(reason, "too many attachments"@) {
        "添付ファイルは1回につき"@ + decimal(limits.attachments as nat)
            + "件までです。件数を減らして新しい投稿で送り直してください。AIへは送信していません。"@
    } else if holds(reason, "attachment too large"@) || holds(reason, "attachment byte limit"@) {
        "添付ファイル1件の上限は"@ + mebibytes(limits.attachment_bytes as nat)
            + "です。ファイルを小さくするか分割して、新しい投稿で送り直してください。AIへは送信していません。"@
    } else if holds(reason, "total input limit"@) || holds(reason, "encoded request size exceeded"@) {
        "本文と添付の合計が1回の上限"@ + mebibytes(limits.input_bytes as nat)
            + "を超えています。添付を減らすか分割して、新しい投稿で送り直してください。AIへは送信していません。"@
    } else if holds(reason, "text too large"@) {
        "本文が上限（"@ + decimal(limits.text_bytes as nat / 1024)
            + " KiB）を超えています。短くするか複数の投稿に分けてください。AIへは送信していません。"@
    } else if holds(reason, "attachment fetch"@) || holds(reason, "attachment unavailable"@) || holds(
        reason,
        "attachment read"@,
    ) {
        "添付ファイルをDiscordから取得できませんでした。ファイルを添付し直し、新しい投稿で送り直してください。AIへは送信していません。"@
    } else if holds(reason, "image pixel limit"@) || holds(reason, "unsupported image"@) || holds(
        reason,
        "animated image"@,
    ) {
        "この画像形式または画像サイズには対応できません。PNG・JPEG・WebPの静止画像へ変換して、新しい投稿で送り直してください。AIへは送信していません。"@
    } else {
        "受付できませんでした。本文や添付を確認して、新しい投稿で送り直してください。解決しない場合は /status の内容を運用者へ伝えてください。AIへは送信していません。"@
    }
}

/// Tells the user why an input was refused and what to do next.
pub fn input_rejection_message(reason: &str, limits: &Limits) -> (r: String)
    ensures
        r@ == rejection_text(reason@, *limits),
{
    if contains(reason, "too many attachments") {
        let n = decimal_text(limits.attachments as u64);
        String::from_str("添付ファイルは1回につき").concat(n.as_str()).concat(
            "件までです。件数を減らして新しい投稿で送り直してください。AIへは送信していません。",
        )
    } else if contains(reason, "attachment too large") || contains(reason, "attachment byte limit") {
        let n = mebibyte_text(limits.attachment_bytes);
        String::from_str("添付ファイル1件の上限は").concat(n.as_str()).concat(
            "です。ファイルを小さくするか分割して、新しい投稿で送り直してください。AIへは送信していません。",
        )
    } else if contains(reason, "total input limit") || contains(
        reason,
        "encoded request size exceeded",
    ) {
        let n = mebibyte_text(limits.input_bytes);
        String::from_str("本文と添付の合計が1回の上限").concat(n.as_str()).concat(
            "を超えています。添付を減らすか分割して、新しい投稿で送り直してください。AIへは送信していません。",
        )
    } else if contains(reason, "text too large") {
        let n = decimal_text((limits.text_bytes / 1024) as u64);
        String::from_str("本文が上限（").concat(n.as_str()).concat(
            " KiB）を超えています。短くするか複数の投稿に分けてください。AIへは送信していません。",
        )
    } else if contains(reason, "attachment fetch") || contains(reason, "attachment unavailable")
        || contains(reason, "attachment read") {
        String::from_str(
            "添付ファイルをDiscordから取得できませんでした。ファイルを添付し直し、新しい投稿で送り直してください。AIへは送信していません。",
        )
    } else if contains(reason, "image pixel limit") || contains(reason, "unsupported image")
        || contains(reason, "animated image") {
        String::from_str(
            "この画像形式または画像サイズには対応できません。PNG・JPEG・WebPの静止画像へ変換して、新しい投稿で送り直してください。AIへは送信していません。",
        )
    } else {
        String::from_str(
            "受付できませんでした。本文や添付を確認して、新しい投稿で送り直してください。解決しない場合は /status の内容を運用者へ伝えてください。AIへは送信していません。",
        )
    }
}

/// The options of a menu from the first `n` entries: at most 25, and none with a name over 100
/// bytes.
pub open spec fn options_among(
    entries: Seq<(Seq<char>, Seq<char>)>,
    current: Seq<char>,
    n: nat,
) -> Seq<JsonView>
    decreases n,
{
    if n == 0 || n > entries.len() {
        Seq::empty()
    } else {
        let before = options_among(entries, current, (n - 1) as nat);
        let (id, description) = entries[n - 1];
        if utf8_len(id) <= 100 && before.len() < 25 {
            before.push(option_view(id, first_chars(description, 100), id == current))
        } else {
            before
        }
    }
}

/// The options of a menu.
pub open spec fn options_of(entries: Seq<(Seq<char>, Seq<char>)>, current: Seq<char>) -> Seq<
    JsonView,
> {
    options_among(entries, current, entries.len())
}

/// Name and shown name of each model.
pub open spec fn model_entries(models: Seq<ModelView>) -> Seq<(Seq<char>, Seq<char>)> {
    models.map_values(|m: ModelView| (m.id, m.display_name))
}

proof fn lemma_options_len(entries: Seq<(Seq<char>, Seq<char>)>, current: Seq<char>, n: nat)
    ensures
        options_among(entries, current, n).len() <= 25,
        options_among(entries, current, n).len() <= n,
    decreases n,
{
    if n > 0 && n <= entries.len() {
        lemma_options_len(entries, current, (n - 1) as nat);
    }
}

/// The text above the menu of models.
pub open spec fn model_menu_text(models: Seq<ModelView>, current: Seq<char>) -> Seq<char> {
    let shown = options_of(model_entries(models), current).len();
    let head = "選択中のモデル: "@ + current + "\n次に使うモデルを選んでください。"@;
    let full = if shown >= models.len() {
        head
    } else {
        head + "\n一覧に収まらない残り"@ + decimal((models.len() - shown) as nat)
            + "件は /models でIDを確認し、/model の id 欄に入力できます。"@
    };
    if shown == 0 {
        full
            + "\nこの画面に表示できる候補はありません。/models でIDを確認し、/model の id 欄に入力してください。"@
    } else {
        full
    }
}

/// The menu of models and the text above it.
pub fn model_menu(models: &Vec<DirectModel>, current: &str, interaction: &str) -> (r: (String, Json))
    ensures
        r.0@ == model_menu_text(model_views(models@), current@),
        ({
            let options = options_of(model_entries(model_views(models@)), current@);
            r.1@ == if options.len() == 0 {
                JsonView::Array(Seq::empty())
            } else {
                row_view(
                    seq![select_view("direct:model:"@ + interaction@, "モデルを選択"@, options)],
                )
            }
        }),
{
    let ghost entries = model_entries(model_views(models@));
    let mut options: Vec<Json> = Vec::new();
    let mut i: usize = 0;
    assert(trees(options@) =~= Seq::<JsonView>::empty());
    while i < models.len()
        invariant
            i <= models@.len(),
            entries == model_entries(model_views(models@)),
            trees(options@) == options_among(entries, current@, i as nat),
        decreases models@.len() - i,
    {
        let m = &models[i];
        assert(entries[i as int] == (m.id@, m.display_name@));
        let ghost before = trees(options@);
        if byte_len(m.id.as_str()) <= 100 && options.len() < 25 {
            let description = take_chars(m.display_name.as_str(), 100);
            let o = menu_option(
                m.id.as_str(),
                description.as_str(),
                same(m.id.as_str(), current),
            );
            let ghost shown = o@;
            options.push(o);
            assert(trees(options@) =~= before.push(shown));
        }
        i += 1;
    }
    proof {
        lemma_options_len(entries, current@, entries.len());
        assert(trees(options@).len() == options@.len());
    }
    let mut text = String::from_str("選択中のモデル: ").concat(current).concat(
        "\n次に使うモデルを選んでください。",
    );
    if options.len() < models.len() {
        let omitted = decimal_text((models.len() - options.len()) as u64);
        text.append("\n一覧に収まらない残り");
        text.append(omitted.as_str());
        text.append("件は /models でIDを確認し、/model の id 欄に入力できます。");
    }
    if options.len() == 0 {
        text.append(
            "\nこの画面に表示できる候補はありません。/models でIDを確認し、/model の id 欄に入力してください。",
        );
        return (text, empty_array());
    }
    let id = String::from_str("direct:model:").concat(interaction);
    let mut items: Vec<Json> = Vec::new();
    items.push(select(id.as_str(), "モデルを選択", options));
    assert(trees(items@) =~= seq![
        select_view("direct:model:"@ + interaction@, "モデルを選択"@, options_of(entries, current@)),
    ]);
    (text, row(items))
}

/// The text above the menu of reasoning levels.
pub open spec fn effort_menu_text(
    entries: Seq<(Seq<char>, Seq<char>)>,
    current: Seq<char>,
) -> Seq<char> {
    let head = "選択中の推論レベル: "@ + current + "\n次に使う推論レベルを選んでください。"@;
    if options_of(entries, current).len() == 0 {
        head + "\n選択中のモデルで利用可能な候補を取得できませんでした。"@
    } else {
        head
    }
}

/// The menu of reasoning levels and the text above it.
pub fn effort_menu(efforts: &Vec<DirectReasoningEffort>, current: &str, interaction: &str) -> (r: (
    String,
    Json,
))
    ensures
        r.0@ == effort_menu_text(effort_views(efforts@), current@),
        ({
            let options = options_of(effort_views(efforts@), current@);
            r.1@ == if options.len() == 0 {
                JsonView::Array(Seq::empty())
            } else {
                row_view(
                    seq![select_view("direct:effort:"@ + interaction@, "推論レベルを選択"@, options)],
                )
            }
        }),
{
    let ghost entries = effort_views(efforts@);
    let mut options: Vec<Json> = Vec::new();
    let mut i: usize = 0;
    assert(trees(options@) =~= Seq::<JsonView>::empty());
    while i < efforts.len()
        invariant
            i <= efforts@.len(),
            entries == effort_views(efforts@),
            trees(options@) == options_among(entries, current@, i as nat),
        decreases efforts@.len() - i,
    {
        let e = &efforts[i];
        assert(entries[i as int] == (e.id@, e.description@));
        let ghost before = trees(options@);
        if byte_len(e.id.as_str()) <= 100 && options.len() < 25 {
            let description = take_chars(e.description.as_str(), 100);
            let o = menu_option(
                e.id.as_str(),
                description.as_str(),
                same(e.id.as_str(), current),
            );
            let ghost shown = o@;
            options.push(o);
            assert(trees(options@) =~= before.push(shown));
        }
        i += 1;
    }
    assert(trees(options@).len() == options@.len());
    let mut text = String::from_str("選択中の推論レベル: ").concat(current).concat(
        "\n次に使う推論レベルを選んでください。",
    );
    if options.len() == 0 {
        text.append("\n選択中のモデルで利用可能な候補を取得できませんでした。");
        return (text, empty_array());
    }
    let id = String::from_str("direct:effort:").concat(interaction);
    let mut items: Vec<Json> = Vec::new();
    items.push(select(id.as_str(), "推論レベルを選択", options));
    assert(trees(items@) =~= seq![
        select_view(
            "direct:effort:"@ + interaction@,
            "推論レベルを選択"@,
            options_of(entries, current@),
        ),
    ]);
    (text, row(items))
}

/// The name that a document gives under a key, or another text.
pub open spec fn text_or(j: JsonView, other: Seq<char>) -> Seq<char> {
    match j.text() {
        Some(s) => s,
        None => other,
    }
}

/// The evidence of an interaction, or null.
pub open spec fn evidence_or_null(v: InteractionView) -> JsonView {
    match v.evidence {
        Some(j) => j,
        None => JsonView::Null,
    }
}

/// The whole content of an operation, for the private view of the one who decides on it.
pub open spec fn detail_text(v: InteractionView) -> Seq<char> {
    let p = v.params;
    let body = if v.kind == InteractionKind::McpElicitation && tool_reply(
        v,
        ManualDecision::AcceptOnce,
    ) is Ok {
        "MCPツール実行の確認（本人限定）\nサーバー: "@ + text_or(p.at("serverName"@), "不明"@)
            + "\nツール: "@ + text_or(
            evidence_or_null(v).at("tool"@),
            text_or(p.at("message"@), "ツール名を確認できません"@),
        ) + "\n実引数（Codexからの原文）:\n"@ + indented(
            document(p.at("_meta"@).at("tool_params"@)),
        ) + "\n「今回だけ許可」は、この操作1件だけです。"@
    } else {
        "Codexが求めた操作の実引数（本人限定）:\n"@ + indented(
            document(
                JsonView::Object(
                    seq![("matched_mcp_call"@, evidence_or_null(v)), ("upstream_request"@, p)],
                ),
            ),
        ) + "\n内容を確認して選んでください。"@
    };
    if grantable(v) is Some {
        body
            + "\n「この依頼中、このツールを許可」は、同じ依頼内の同じサーバー／ツールに限り、引数が変わる後続呼出しも許可します。追加指示・停止・依頼終了で失効します。"@
    } else {
        body
    }
}

/// Whether a character has a meaning in Discord's markup.
pub open spec fn markup(c: char) -> bool {
    c == '\\' || c == '`' || c == '*' || c == '_' || c == '{' || c == '}' || c == '[' || c == ']'
        || c == '(' || c == ')' || c == '#' || c == '+' || c == '-' || c == '.' || c == '!' || c
        == '|' || c == '>' || c == '~' || c == '<' || c == '@'
}

/// How a character is written so that it shows as itself: invisible ones by their number, markup
/// behind a backslash.
pub open spec fn escaped_char(c: char) -> Seq<char> {
    if c == '\n' {
        seq![c]
    } else if control(c) || directional(c) {
        "\\u{"@ + hexadecimal(c as nat) + "}"@
    } else if markup(c) {
        seq!['\\', c]
    } else {
        seq![c]
    }
}

/// The escaped characters of a text.
pub open spec fn escaped_chars(s: Seq<char>) -> Seq<Seq<char>> {
    s.map_values(|c: char| escaped_char(c))
}

/// Most UTF-16 units of content on one page.
pub const PAGE_UNITS: usize = 1750;

/// Most UTF-16 units of a page with its heading.
pub const PAGE_LIMIT: usize = 1900;

/// A page with its heading.
pub open spec fn page_text(index: nat, total: nat, chunk: Seq<char>) -> Seq<char> {
    "操作詳細 "@ + decimal(index + 1) + "/"@ + decimal(total) + "ページ（本人限定）\n"@ + chunk
}

/// The chunks of content that an approval is shown in.
pub open spec fn detail_chunks(v: InteractionView) -> Seq<Seq<char>> {
    paged(escaped_chars(detail_text(v)), PAGE_UNITS as nat)
}

/// The pages that an approval is shown on.
pub open spec fn detail_pages(v: InteractionView) -> Seq<Seq<char>> {
    let chunks = detail_chunks(v);
    Seq::new(chunks.len(), |i: int| page_text(i as nat, chunks.len(), chunks[i]))
}

proof fn lemma_escaped_width(c: char)
    ensures
        1 <= utf16_len(escaped_char(c)) <= 12 * 2,
        escaped_char(c).len() >= 1,
{
    let e = escaped_char(c);
    if c != '\n' && (control(c) || directional(c)) {
        reveal_strlit("\\u{");
        reveal_strlit("}");
        lemma_hexadecimal(c as nat);
    }
    lemma_utf16_bounds(e);
}

/// Nothing of the content is lost between the pages, and no page exceeds its limit.
pub proof fn detail_is_shown_whole(v: InteractionView)
    ensures
        glued(detail_chunks(v)) == glued(escaped_chars(detail_text(v))),
        forall|i: int|
            0 <= i < detail_chunks(v).len() ==> utf16_len(#[trigger] detail_chunks(v)[i]) <= PAGE_UNITS,
{
    let pieces = escaped_chars(detail_text(v));
    pages_keep_the_text(pieces, PAGE_UNITS as nat);
    assert forall|i: int| 0 <= i < pieces.len() implies utf16_len(#[trigger] pieces[i]) <= PAGE_UNITS by {
        lemma_escaped_width(detail_text(v)[i]);
    }
    pages_keep_the_limit(pieces, PAGE_UNITS as nat);
}

proof fn lemma_page_width(index: nat, total: nat, chunk: Seq<char>)
    requires
        index < u64::MAX,
        total <= u64::MAX,
        utf16_len(chunk) <= PAGE_UNITS,
    ensures
        utf16_len(page_text(index, total, chunk)) <= PAGE_LIMIT,
{
    let a = "操作詳細 "@;
    let b = decimal(index + 1);
    let c = "/"@;
    let d = decimal(total);
    let e = "ページ（本人限定）\n"@;
    reveal_strlit("操作詳細 ");
    reveal_strlit("/");
    reveal_strlit("ページ（本人限定）\n");
    lemma_decimal_len(index + 1);
    lemma_decimal_len(total);
    lemma_utf16_bounds(a);
    lemma_utf16_bounds(b);
    lemma_utf16_bounds(c);
    lemma_utf16_bounds(d);
    lemma_utf16_bounds(e);
    lemma_utf16_concat(a, b);
    lemma_utf16_concat(a + b, c);
    lemma_utf16_concat(a + b + c, d);
    lemma_utf16_concat(a + b + c + d, e);
    lemma_utf16_concat(a + b + c + d + e, chunk);
}

proof fn lemma_detail_not_empty(v: InteractionView)
    ensures
        detail_chunks(v).len() > 0,
{
    let s = detail_text(v);
    reveal_strlit("\n「今回だけ許可」は、この操作1件だけです。");
    reveal_strlit("\n内容を確認して選んでください。");
    assert(s.len() > 0);
    let pieces = escaped_chars(s);
    assert(pieces.last() == escaped_char(s.last()));
    lemma_escaped_width(s.last());
    assert(glued(pieces).len() > 0);
    pages_keep_the_text(pieces, PAGE_UNITS as nat);
}

fn is_markup(c: char) -> (r: bool)
    ensures
        r == markup(c),
{
    c == '\\' || c == '`' || c == '*' || c == '_' || c == '{' || c == '}' || c == '[' || c == ']'
        || c == '(' || c == ')' || c == '#' || c == '+' || c == '-' || c == '.' || c == '!' || c
        == '|' || c == '>' || c == '~' || c == '<' || c == '@'
}

fn escape(c: char) -> (r: String)
    ensures
        r@ == escaped_char(c),
{
    if c == '\n' {
        let mut s: String = String::new();
        s.push(c);
        assert(s@ =~= seq![c]);
        s
    } else if is_control(c) || is_directional(c) {
        let n = hexadecimal_text(c as u32);
        String::from_str("\\u{").concat(n.as_str()).concat("}")
    } else if is_markup(c) {
        let mut s: String = String::new();
        s.push('\\');
        s.push(c);
        assert(s@ =~= seq!['\\', c]);
        s
    } else {
        let mut s: String = String::new();
        s.push(c);
        assert(s@ =~= seq![c]);
        s
    }
}

fn escape_all(s: &str) -> (r: Vec<String>)
    ensures
        views(r@) == escaped_chars(s@),
{
    let v = chars_of(s);
    let mut out: Vec<String> = Vec::new();
    let mut i: usize = 0;
    while i < v.len()
        invariant
            i <= v@.len(),
            v@ == s@,
            views(out@) == escaped_chars(s@.take(i as int)),
        decreases v@.len() - i,
    {
        let e = escape(v[i]);
        let ghost before = views(out@);
        let ghost piece = e@;
        out.push(e);
        i += 1;
        assert(views(out@) =~= before.push(piece));
        assert(views(out@) =~= escaped_chars(s@.take(i as int)));
    }
    assert(s@.take(s@.len() as int) =~= s@);
    out
}

fn text_of_or<'a>(j: &'a Json, other: &'a str) -> (r: &'a str)
    ensures
        r@ == text_or(j@, other@),
{
    match j.as_str() {
        Some(s) => s,
        None => other,
    }
}

fn whole_detail(operation: &DirectInteraction) -> (r: String)
    ensures
        r@ == detail_text(operation@),
{
    let p = &operation.params;
    let none = Json::Null;
    let evidence: &Json = match &operation.mcp_evidence {
        Some(j) => j,
        None => &none,
    };
    assert(evidence@ == evidence_or_null(operation@));
    let mut out: String = String::new();
    if operation.kind == InteractionKind::McpElicitation && operation.mcp_tool_decision(
        ManualDecision::AcceptOnce,
    ).is_ok() {
        let args = pretty(p.at("_meta").at("tool_params"));
        let tool = text_of_or(
            evidence.at("tool"),
            text_of_or(p.at("message"), "ツール名を確認できません"),
        );
        out = String::from_str("MCPツール実行の確認（本人限定）\nサーバー: ").concat(
            text_of_or(p.at("serverName"), "不明"),
        ).concat("\nツール: ").concat(tool).concat("\n実引数（Codexからの原文）:\n").concat(
            args.as_str(),
        ).concat("\n「今回だけ許可」は、この操作1件だけです。");
    } else {
        let both = object2("matched_mcp_call", evidence.copy(), "upstream_request", p.copy());
        let rendered = pretty(&both);
        out = String::from_str("Codexが求めた操作の実引数（本人限定）:\n").concat(rendered.as_str()).concat(
            "\n内容を確認して選んでください。",
        );
    }
    if operation.run_grant_tool().is_some() {
        out.append(
            "\n「この依頼中、このツールを許可」は、同じ依頼内の同じサーバー／ツールに限り、引数が変わる後続呼出しも許可します。追加指示・停止・依頼終了で失効します。",
        );
    }
    out
}

/// The pages on which the whole operation is shown to the one who decides on it. There is at least
/// one, and each fits a message.
pub fn approval_detail(operation: &DirectInteraction) -> (r: Result<Vec<String>, &'static str>)
    ensures
        r is Ok,
        views(r->Ok_0@) == detail_pages(operation@),
        r->Ok_0@.len() > 0,
        forall|i: int| 0 <= i < r->Ok_0@.len() ==> utf16_len((#[trigger] r->Ok_0@[i])@) <= PAGE_LIMIT,
{
    let detail = whole_detail(operation);
    let pieces = escape_all(detail.as_str());
    let chunks = paginate(&pieces, PAGE_UNITS);
    let ghost list = detail_chunks(operation@);
    proof {
        lemma_detail_not_empty(operation@);
        detail_is_shown_whole(operation@);
        assert(views(chunks@).len() == chunks@.len());
    }
    let total: usize = chunks.len();
    let total_text = decimal_text(total as u64);
    let mut out: Vec<String> = Vec::new();
    let mut i: usize = 0;
    while i < chunks.len()
        invariant
            i <= chunks@.len() == total,
            views(chunks@) == list,
            list == detail_chunks(operation@),
            list.len() == chunks@.len(),
            forall|k: int| 0 <= k < list.len() ==> utf16_len(#[trigger] list[k]) <= PAGE_UNITS,
            total_text@ == decimal(total as nat),
            out@.len() == i,
            forall|k: int|
                0 <= k < i ==> (#[trigger] out@[k])@ == page_text(k as nat, list.len(), list[k]),
            forall|k: int| 0 <= k < i ==> utf16_len((#[trigger] out@[k])@) <= PAGE_LIMIT,
        decreases chunks@.len() - i,
    {
        assert(list[i as int] == chunks@[i as int]@);
        let index = decimal_text(i as u64 + 1);
        let page = String::from_str("操作詳細 ").concat(index.as_str()).concat("/").concat(
            total_text.as_str(),
        ).concat("ページ（本人限定）\n").concat(chunks[i].as_str());
        proof {
            lemma_page_width(i as nat, total as nat, list[i as int]);
        }
        out.push(page);
        i += 1;
    }
    assert(views(out@) =~= detail_pages(operation@));
    Ok(out)
}

/// Whether an interaction can be accepted.
pub open spec fn can_accept(v: InteractionView) -> bool {
    if v.kind == InteractionKind::CommandApproval || v.kind == InteractionKind::FileChangeApproval {
        manual_reply(v, ManualDecision::AcceptOnce) is Ok
    } else {
        tool_reply(v, ManualDecision::AcceptOnce) is Ok
    }
}

/// Whether an interaction can be declined.
pub open spec fn can_decline(v: InteractionView) -> bool {
    if v.kind == InteractionKind::CommandApproval || v.kind == InteractionKind::FileChangeApproval {
        manual_reply(v, ManualDecision::Decline) is Ok
    } else {
        tool_reply(v, ManualDecision::Decline) is Ok
    }
}

/// Whether an interaction can be cancelled.
pub open spec fn can_cancel(v: InteractionView) -> bool {
    (v.kind == InteractionKind::CommandApproval || v.kind == InteractionKind::FileChangeApproval)
        && manual_reply(v, ManualDecision::Cancel) is Ok
}

/// The button that ends an interaction without accepting it.
pub open spec fn rejection_view(v: InteractionView, id: Seq<char>) -> JsonView {
    if can_decline(v) {
        button_view("direct:decline:"@ + id, "拒否"@, 4)
    } else if can_cancel(v) {
        button_view("direct:cancel:"@ + id, "取り消し"@, 4)
    } else {
        button_view("direct:reject:"@ + id, "未対応の確認を終了"@, 4)
    }
}

/// Decides what a Discord user may do with the requests of the app server.
pub struct DirectCoordinator;

impl DirectCoordinator {
    fn by_hand(operation: &DirectInteraction) -> (r: bool)
        ensures
            r == (operation@.kind == InteractionKind::CommandApproval || operation@.kind
                == InteractionKind::FileChangeApproval),
    {
        operation.kind == InteractionKind::CommandApproval || operation.kind
            == InteractionKind::FileChangeApproval
    }

    pub fn answerable(operation: &DirectInteraction) -> (r: bool)
        ensures
            r == can_accept(operation@),
    {
        if Self::by_hand(operation) {
            operation.manual_decision(ManualDecision::AcceptOnce).is_ok()
        } else {
            operation.mcp_tool_decision(ManualDecision::AcceptOnce).is_ok()
        }
    }

    pub fn declineable(operation: &DirectInteraction) -> (r: bool)
        ensures
            r == can_decline(operation@),
    {
        if Self::by_hand(operation) {
            operation.manual_decision(ManualDecision::Decline).is_ok()
        } else {
            operation.mcp_tool_decision(ManualDecision::Decline).is_ok()
        }
    }

    pub fn cancelable(operation: &DirectInteraction) -> (r: bool)
        ensures
            r == can_cancel(operation@),
    {
        Self::by_hand(operation) && operation.manual_decision(ManualDecision::Cancel).is_ok()
    }

    pub fn rejection_button(operation: &DirectInteraction, id: &str) -> (r: Json)
        ensures
            r@ == rejection_view(operation@, id@),
    {
        if Self::declineable(operation) {
            let id = String::from_str("direct:decline:").concat(id);
            button(id.as_str(), "拒否", 4)
        } else if Self::cancelable(operation) {
            let id = String::from_str("direct:cancel:").concat(id);
            button(id.as_str(), "取り消し", 4)
        } else {
            let id = String::from_str("direct:reject:").concat(id);
            button(id.as_str(), "未対応の確認を終了", 4)
        }
    }

    /// The public card of an interaction: its category and two buttons. What the operation would do
    /// is not on it.
    pub fn show_approval(operation: &DirectInteraction, id: &str) -> (r: (String, Json))
        ensures
            r.0@ == "Codexが"@ + subject(operation@)
                + "の確認を求めています。内容を確認して選んでください。"@,
            r.1@ == row_view(
                seq![
                    button_view("direct:detail:"@ + id@, "自分だけに表示して確認"@, 1),
                    rejection_view(operation@, id@),
                ],
            ),
    {
        let mut text = String::from_str("Codexが");
        match &operation.mcp_evidence {
            Some(e) => {
                let name = String::from_str("MCP操作 ").concat(text_of_or(e.at("server"), "不明")).concat(
                    " / ",
                ).concat(text_of_or(e.at("tool"), "不明"));
                text.append(name.as_str());
            },
            None => {
                if operation.kind == InteractionKind::McpElicitation && operation.mcp_tool_decision(
                    ManualDecision::AcceptOnce,
                ).is_ok() {
                    text.append("MCP操作");
                } else {
                    text.append(kind_label(operation.kind));
                }
            },
        }
        text.append("の確認を求めています。内容を確認して選んでください。");
        let detail = String::from_str("direct:detail:").concat(id);
        let mut items: Vec<Json> = Vec::new();
        items.push(button(detail.as_str(), "自分だけに表示して確認", 1));
        items.push(Self::rejection_button(operation, id));
        assert(trees(items@) =~= seq![
            button_view("direct:detail:"@ + id@, "自分だけに表示して確認"@, 1),
            rejection_view(operation@, id@),
        ]);
        (text, row(items))
    }
}

/// The category of an interaction.
pub open spec fn kind_name(kind: InteractionKind) -> Seq<char> {
    match kind {
        InteractionKind::CommandApproval => "コマンド実行"@,
        InteractionKind::FileChangeApproval => "ファイル変更"@,
        InteractionKind::UserInput => "追加入力"@,
        InteractionKind::PermissionsApproval => "権限変更"@,
        InteractionKind::McpElicitation => "MCP入力"@,
        InteractionKind::DynamicTool => "ツール操作"@,
    }
}

fn kind_label(kind: InteractionKind) -> (s: &'static str)
    ensures
        s@ == kind_name(kind),
{
    match kind {
        InteractionKind::CommandApproval => "コマンド実行",
        InteractionKind::FileChangeApproval => "ファイル変更",
        InteractionKind::UserInput => "追加入力",
        InteractionKind::PermissionsApproval => "権限変更",
        InteractionKind::McpElicitation => "MCP入力",
        InteractionKind::DynamicTool => "ツール操作",
    }
}

/// What the public card says that a decision is asked for.
pub open spec fn subject(v: InteractionView) -> Seq<char> {
    match v.evidence {
        Some(e) => "MCP操作 "@ + text_or(e.at("server"@), "不明"@) + " / "@ + text_or(
            e.at("tool"@),
            "不明"@,
        ),
        None => if v.kind == InteractionKind::McpElicitation && tool_reply(
            v,
            ManualDecision::AcceptOnce,
        ) is Ok {
            "MCP操作"@
        } else {
            kind_name(v.kind)
        },
    }
}

/// The public card never depends on the parameters of a command or file change, beyond which
/// buttons are offered: it shows the category alone.
pub proof fn card_hides_arguments(v: InteractionView)
    requires
        v.evidence is None,
        v.kind != InteractionKind::McpElicitation,
    ensures
        subject(v) == kind_name(v.kind),
{
}

} // verus!
