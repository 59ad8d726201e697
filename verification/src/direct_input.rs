//! The input of a prompt in the form that the app server takes.
use crate::json::{object2, object3, text, trees, Json, JsonView};
use crate::text::{begins, same, some_same, starts_with};
use vstd::prelude::*;

verus! {

/// Whether a URL holds an image of a kind that is accepted.
pub open spec fn image_data(url: Seq<char>) -> bool {
    begins(url, "data:image/png;base64,"@) || begins(url, "data:image/jpeg;base64,"@) || begins(
        url,
        "data:image/webp;base64,"@,
    )
}

/// The detail that an image is looked at with: high unless given.
pub open spec fn detail_of(item: JsonView) -> Seq<char> {
    match item.at("detail"@).text() {
        Some(s) => s,
        None => "high"@,
    }
}

/// One piece of input.
pub open spec fn converted(item: JsonView) -> Result<JsonView, Seq<char>> {
    let kind = item.at("type"@).text();
    if kind == Some("input_text"@) {
        match item.at("text"@).text() {
            None => Err("validated text missing"@),
            Some(s) => Ok(
                JsonView::Object(
                    seq![("text"@, JsonView::Text(s)), ("type"@, JsonView::Text("text"@))],
                ),
            ),
        }
    } else if kind == Some("input_image"@) {
        match item.at("image_url"@).text() {
            None => Err("validated image missing"@),
            Some(url) => {
                let d = detail_of(item);
                if !image_data(url) {
                    Err("validated image origin changed"@)
                } else if d != "auto"@ && d != "low"@ && d != "high"@ && d != "original"@ {
                    Err("unsupported image detail"@)
                } else {
                    Ok(
                        JsonView::Object(
                            seq![
                                ("detail"@, JsonView::Text(d)),
                                ("type"@, JsonView::Text("image"@)),
                                ("url"@, JsonView::Text(url)),
                            ],
                        ),
                    )
                }
            },
        }
    } else {
        Err("unsupported validated input type"@)
    }
}

/// The first `n` pieces of input, or what is wrong with the first faulty one.
pub open spec fn converted_all(items: Seq<JsonView>, n: nat) -> Result<Seq<JsonView>, Seq<char>>
    decreases n,
{
    if n == 0 || n > items.len() {
        Ok(Seq::empty())
    } else {
        match converted_all(items, (n - 1) as nat) {
            Err(e) => Err(e),
            Ok(done) => match converted(items[n - 1]) {
                Err(e) => Err(e),
                Ok(j) => Ok(done.push(j)),
            },
        }
    }
}

/// The input that the app server takes.
pub open spec fn input_of(prepared: JsonView) -> Result<Seq<JsonView>, Seq<char>> {
    let messages = prepared.array();
    let content = prepared.item(0).at("content"@).array();
    if messages is None {
        Err("validated input is not an array"@)
    } else if messages->0.len() != 1 || !prepared.item(0).at("role"@).says("user"@) {
        Err("validated user input shape changed"@)
    } else if content is None {
        Err("validated content is not an array"@)
    } else if content->0.len() == 0 {
        Err("empty Codex input"@)
    } else {
        converted_all(content->0, content->0.len())
    }
}

fn convert(item: &Json) -> (r: Result<Json, &'static str>)
    ensures
        match converted(item@) {
            Ok(j) => r is Ok && r->Ok_0@ == j,
            Err(e) => r is Err && r->Err_0@ == e,
        },
{
    let kind = item.at("type").as_str();
    if some_same(kind, "input_text") {
        match item.at("text").as_str() {
            None => Err("validated text missing"),
            Some(s) => Ok(object2("text", text(s), "type", text("text"))),
        }
    } else if some_same(kind, "input_image") {
        match item.at("image_url").as_str() {
            None => Err("validated image missing"),
            Some(url) => {
                if !(starts_with(url, "data:image/png;base64,") || starts_with(
                    url,
                    "data:image/jpeg;base64,",
                ) || starts_with(url, "data:image/webp;base64,")) {
                    return Err("validated image origin changed");
                }
                let d = match item.at("detail").as_str() {
                    Some(s) => s,
                    None => "high",
                };
                if !same(d, "auto") && !same(d, "low") && !same(d, "high") && !same(d, "original") {
                    return Err("unsupported image detail");
                }
                Ok(object3("detail", text(d), "type", text("image"), "url", text(url)))
            },
        }
    } else {
        Err("unsupported validated input type")
    }
}

proof fn lemma_converted_error(items: Seq<JsonView>, n: nat)
    requires
        n <= items.len(),
        converted_all(items, n) is Err,
    ensures
        converted_all(items, items.len()) == converted_all(items, n),
    decreases items.len() - n,
{
    if n < items.len() {
        lemma_converted_error(items, n + 1);
    }
}

/// The input that the app server takes.
pub fn app_server_input(prepared: &Json) -> (r: Result<Vec<Json>, &'static str>)
    ensures
        match input_of(prepared@) {
            Ok(v) => r is Ok && trees(r->Ok_0@) == v,
            Err(e) => r is Err && r->Err_0@ == e,
        },
{
    let messages = match prepared.as_array() {
        Some(v) => v,
        None => return Err("validated input is not an array"),
    };
    let first = prepared.item(0);
    if messages.len() != 1 || !first.at("role").is_text("user") {
        return Err("validated user input shape changed");
    }
    let content = match first.at("content").as_array() {
        Some(v) => v,
        None => return Err("validated content is not an array"),
    };
    let ghost items = first@.at("content"@).array()->0;
    if content.len() == 0 {
        return Err("empty Codex input");
    }
    let mut out: Vec<Json> = Vec::new();
    let mut i: usize = 0;
    assert(trees(out@) =~= Seq::<JsonView>::empty());
    while i < content.len()
        invariant
            i <= content@.len(),
            content@.len() == items.len(),
            input_of(prepared@) == converted_all(items, items.len()),
            forall|j: int| 0 <= j < items.len() ==> #[trigger] content@[j]@ == items[j],
            converted_all(items, i as nat) == Ok::<Seq<JsonView>, Seq<char>>(trees(out@)),
        decreases content@.len() - i,
    {
        assert(content@[i as int]@ == items[i as int]);
        let ghost before = trees(out@);
        match convert(&content[i]) {
            Ok(j) => {
                let ghost shown = j@;
                out.push(j);
                assert(trees(out@) =~= before.push(shown));
            },
            Err(e) => {
                proof {
                    lemma_converted_error(items, (i + 1) as nat);
                }
                return Err(e);
            },
        }
        i += 1;
    }
    Ok(out)
}

} // verus!
