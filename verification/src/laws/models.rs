//! Which models and efforts can be chosen, and which choice holds.
use crate::direct_model_store::{select_direct_model, Choice, EarlierChoice};
use crate::direct_models::{
    catalog_objection, first_effort_objection, has_effort, model_of, model_position, model_views,
    models_of, DirectModel, DirectModelCatalog, ModelView,
};
use crate::json::{trees, Json, JsonView};
use crate::numbers::signed_of;
use crate::text::utf8_len;
use vstd::prelude::*;

verus! {

proof fn models_are_placed(models: Seq<ModelView>, id: Seq<char>, from: nat)
    requires
        from <= models.len(),
    ensures
        ({
            let at = model_position(models, id, from);
            &&& from <= at <= models.len()
            &&& at < models.len() ==> models[at as int].id == id
            &&& forall|i: int| from <= i < at ==> (#[trigger] models[i]).id != id
        }),
    decreases models.len() - from,
{
    if from < models.len() && models[from as int].id != id {
        models_are_placed(models, id, from + 1);
    }
}

/// A model is found exactly where the list holds it, and what is found is that model.
pub proof fn listed_models_are_found(
    c: &DirectModelCatalog,
    id: &str,
    found: Result<&DirectModel, &'static str>,
    valid: Result<(), &'static str>,
    i: int,
)
    requires
        call_ensures(DirectModelCatalog::find, (c, id), found),
        call_ensures(DirectModelCatalog::validate, (c, id), valid),
    ensures
        found is Ok ==> found->Ok_0@.id == id@ && exists|k: int|
            0 <= k < c.models@.len() && (#[trigger] c.models@[k])@ == found->Ok_0@,
        0 <= i < c.models@.len() && c.models@[i].id@ == id@ ==> found is Ok && valid is Ok,
        valid is Ok <==> found is Ok,
{
    let all = model_views(c.models@);
    models_are_placed(all, id@, 0);
    let at = model_position(all, id@, 0);
    if at < all.len() {
        assert(c.models@[at as int]@ == all[at as int]);
    }
    if 0 <= i < c.models@.len() {
        assert(all[i] == c.models@[i]@);
    }
}

/// An effort can be chosen exactly where the model is listed and supports it.
pub proof fn efforts_are_those_of_the_model(
    c: &DirectModelCatalog,
    id: &str,
    effort: &str,
    found: Result<&DirectModel, &'static str>,
    r: Result<(), &'static str>,
)
    requires
        call_ensures(DirectModelCatalog::find, (c, id), found),
        call_ensures(DirectModelCatalog::validate_effort, (c, id, effort), r),
    ensures
        r is Ok <==> found is Ok && exists|k: int|
            0 <= k < found->Ok_0@.efforts.len() && (#[trigger] found->Ok_0@.efforts[k]).0 == effort@,
{
}

proof fn every_item_is_a_model(items: Seq<JsonView>, from: int, i: int)
    requires
        0 <= from <= i < items.len(),
        catalog_objection(items, from) is None,
    ensures
        model_of(items[i]) is Ok,
    decreases i - from,
{
    if from < i {
        every_item_is_a_model(items, from + 1, i);
    }
}

proof fn every_entry_is_an_effort(entries: Seq<JsonView>, from: int, i: int)
    requires
        0 <= from <= i < entries.len(),
        first_effort_objection(entries, from) is None,
    ensures
        entries[i].at("reasoningEffort"@) is Text,
    decreases i - from,
{
    if from < i {
        every_entry_is_an_effort(entries, from + 1, i);
    }
}

/// The list holds every model that Codex reports, in its order and under its own identity and name,
/// no identity twice, and each with a default effort that it supports.
pub proof fn reported_models_are_listed(
    raw: &Vec<Json>,
    r: Result<DirectModelCatalog, &'static str>,
    i: int,
    j: int,
)
    requires
        call_ensures(DirectModelCatalog::list, (raw,), r),
        r is Ok,
    ensures
        r->Ok_0.models@.len() == raw@.len(),
        0 <= i < raw@.len() ==> {
            let m = r->Ok_0.models@[i];
            &&& raw@[i]@.at("id"@) == JsonView::Text(m.id@)
            &&& raw@[i]@.at("displayName"@) == JsonView::Text(m.display_name@)
            &&& raw@[i]@.at("defaultReasoningEffort"@) == JsonView::Text(
                m.default_reasoning_effort@,
            )
            &&& raw@[i]@.at("supportedReasoningEfforts"@) is Array
            &&& m.supported_reasoning_efforts@.len() == raw@[i]@.at(
                "supportedReasoningEfforts"@,
            )->Array_0.len()
            &&& 0 <= j < m.supported_reasoning_efforts@.len() ==> raw@[i]@.at(
                "supportedReasoningEfforts"@,
            )->Array_0[j].at("reasoningEffort"@) == JsonView::Text(
                m.supported_reasoning_efforts@[j].id@,
            )
            &&& exists|k: int|
                0 <= k < m.supported_reasoning_efforts@.len() && (
                #[trigger] m.supported_reasoning_efforts@[k]).id@ == m.default_reasoning_effort@
        },
        0 <= i < j < raw@.len() ==> r->Ok_0.models@[i].id@ != r->Ok_0.models@[j].id@,
{
    let items = trees(raw@);
    let all = model_views(r->Ok_0.models@);
    assert(all.len() == r->Ok_0.models@.len());
    assert(items.len() == raw@.len());
    if 0 <= i < raw@.len() {
        every_item_is_a_model(items, 0, i);
        assert(items[i] == raw@[i]@);
        assert(all[i] == models_of(items)[i]);
        assert(all[i] == r->Ok_0.models@[i]@);
        let m = r->Ok_0.models@[i];
        let efforts = crate::direct_models::effort_views(m.supported_reasoning_efforts@);
        let entries = raw@[i]@.at("supportedReasoningEfforts"@)->Array_0;
        assert(efforts == crate::direct_models::efforts_of(entries));
        assert(efforts.len() == m.supported_reasoning_efforts@.len());
        assert(has_effort(efforts, m.default_reasoning_effort@));
        let k = choose|k: int|
            0 <= k < efforts.len() && (#[trigger] efforts[k]).0 == m.default_reasoning_effort@;
        assert(m.supported_reasoning_efforts@[k].id@ == efforts[k].0);
        if 0 <= j < efforts.len() {
            every_entry_is_an_effort(entries, 0, j);
            assert(efforts[j].0 == m.supported_reasoning_efforts@[j].id@);
        }
    }
    if 0 <= i < j < raw@.len() {
        assert(all[j] == r->Ok_0.models@[j]@);
        assert(all[i].id != all[j].id);
    }
}

/// A choice applies where it is newer than every choice before, has the outcome that it had where it
/// was handled before, and is superseded else.
pub proof fn newer_choices_apply(
    interaction: &str,
    thread: &str,
    model: &str,
    direct: bool,
    earlier: Option<EarlierChoice>,
    latest: i64,
    r: Result<Choice, &'static str>,
)
    requires
        call_ensures(
            select_direct_model,
            (interaction, thread, model, direct, earlier, latest),
            r,
        ),
    ensures
        r is Ok ==> direct && 0 < model@.len() && utf8_len(model@) <= 128 && signed_of(
            interaction@,
        ) is Some && signed_of(interaction@)->0 > 0,
        r is Ok && r->Ok_0 is Apply <==> r is Ok && earlier is None && signed_of(interaction@)->0
            > latest,
        r is Ok && r->Ok_0 is Apply ==> r->Ok_0->Apply_0 == signed_of(interaction@)->0
            && r->Ok_0->Apply_0 > latest,
        r is Ok && earlier is Some ==> r->Ok_0 == Choice::Again(earlier->0.applied)
            && earlier->0.thread@ == thread@ && earlier->0.model@ == model@,
        r is Ok && r->Ok_0 is Superseded ==> earlier is None && signed_of(interaction@)->0
            <= latest,
{
}

} // verus!
