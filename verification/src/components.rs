//! Buttons and menus of Discord messages.
use crate::json::{array, array1, object2, object4, object6, text, trees, Json, JsonView};
use vstd::prelude::*;

verus! {

/// A button.
pub open spec fn button_view(id: Seq<char>, label: Seq<char>, style: u64) -> JsonView {
    JsonView::Object(
        seq![
            ("custom_id"@, JsonView::Text(id)),
            ("label"@, JsonView::Text(label)),
            ("style"@, JsonView::Unsigned(style)),
            ("type"@, JsonView::Unsigned(2)),
        ],
    )
}

pub fn button(id: &str, label: &str, style: u64) -> (r: Json)
    ensures
        r@ == button_view(id@, label@, style),
{
    object4(
        "custom_id",
        text(id),
        "label",
        text(label),
        "style",
        Json::Unsigned(style),
        "type",
        Json::Unsigned(2),
    )
}

/// One row of components.
pub open spec fn row_view(items: Seq<JsonView>) -> JsonView {
    JsonView::Array(
        seq![
            JsonView::Object(
                seq![("components"@, JsonView::Array(items)), ("type"@, JsonView::Unsigned(1))],
            ),
        ],
    )
}

pub fn row(items: Vec<Json>) -> (r: Json)
    ensures
        r@ == row_view(trees(items@)),
{
    array1(object2("components", array(items), "type", Json::Unsigned(1)))
}

/// A menu to choose one of some options.
pub open spec fn select_view(
    id: Seq<char>,
    placeholder: Seq<char>,
    options: Seq<JsonView>,
) -> JsonView {
    JsonView::Object(
        seq![
            ("custom_id"@, JsonView::Text(id)),
            ("max_values"@, JsonView::Unsigned(1)),
            ("min_values"@, JsonView::Unsigned(1)),
            ("options"@, JsonView::Array(options)),
            ("placeholder"@, JsonView::Text(placeholder)),
            ("type"@, JsonView::Unsigned(3)),
        ],
    )
}

pub fn select(id: &str, placeholder: &str, options: Vec<Json>) -> (r: Json)
    ensures
        r@ == select_view(id@, placeholder@, trees(options@)),
{
    object6(
        "custom_id",
        text(id),
        "max_values",
        Json::Unsigned(1),
        "min_values",
        Json::Unsigned(1),
        "options",
        array(options),
        "placeholder",
        text(placeholder),
        "type",
        Json::Unsigned(3),
    )
}

/// An option of a menu.
pub open spec fn option_view(id: Seq<char>, description: Seq<char>, chosen: bool) -> JsonView {
    JsonView::Object(
        seq![
            ("default"@, JsonView::Bool(chosen)),
            ("description"@, JsonView::Text(description)),
            ("label"@, JsonView::Text(id)),
            ("value"@, JsonView::Text(id)),
        ],
    )
}

pub fn menu_option(id: &str, description: &str, chosen: bool) -> (r: Json)
    ensures
        r@ == option_view(id@, description@, chosen),
{
    object4(
        "default",
        Json::Bool(chosen),
        "description",
        text(description),
        "label",
        text(id),
        "value",
        text(id),
    )
}

} // verus!
