//! The models that Codex offers and their reasoning levels.
use crate::codex_execution::listed;
use crate::direct_approval::{is_short_text, short_text};
use crate::json::{Json, JsonView};
use crate::text::{byte_len, same, utf8_len, views};
use vstd::prelude::*;

verus! {

#[derive(Debug, PartialEq, Eq)]
pub struct DirectReasoningEffort {
    pub id: String,
    pub description: String,
}

#[derive(Debug, PartialEq, Eq)]
pub struct DirectModel {
    pub id: String,
    pub display_name: String,
    pub default_reasoning_effort: String,
    pub supported_reasoning_efforts: Vec<DirectReasoningEffort>,
}

/// The mathematical form of a reasoning level: name and description.
pub open spec fn effort_views(v: Seq<DirectReasoningEffort>) -> Seq<(Seq<char>, Seq<char>)> {
    v.map_values(|e: DirectReasoningEffort| (e.id@, e.description@))
}

/// The mathematical form of a model.
pub struct ModelView {
    pub id: Seq<char>,
    pub display_name: Seq<char>,
    pub default_effort: Seq<char>,
    pub efforts: Seq<(Seq<char>, Seq<char>)>,
}

impl View for DirectModel {
    type V = ModelView;

    open spec fn view(&self) -> ModelView {
        ModelView {
            id: self.id@,
            display_name: self.display_name@,
            default_effort: self.default_reasoning_effort@,
            efforts: effort_views(self.supported_reasoning_efforts@),
        }
    }
}

pub open spec fn model_views(v: Seq<DirectModel>) -> Seq<ModelView> {
    v.map_values(|m: DirectModel| m@)
}

/// What is wrong with an entry of the list of reasoning levels, given the names before it.
pub open spec fn effort_objection(entries: Seq<JsonView>, i: int) -> Option<Seq<char>> {
    let name = entries[i].at("reasoningEffort"@).text();
    let description = entries[i].at("description"@).text();
    if name is None {
        Some("Codex reasoning effort missing"@)
    } else if description is None {
        Some("Codex reasoning effort description missing"@)
    } else if name->0.len() == 0 || utf8_len(name->0) > 64 || utf8_len(description->0) > 256
        || exists|j: int| 0 <= j < i && (#[trigger] entries[j]).at("reasoningEffort"@).says(name->0) {
        Some("Codex reasoning effort identity invalid"@)
    } else {
        None
    }
}

/// What is wrong with the first faulty entry from position `i` on.
pub open spec fn first_effort_objection(entries: Seq<JsonView>, i: int) -> Option<Seq<char>>
    decreases entries.len() - i,
{
    if i < 0 || i >= entries.len() {
        None
    } else if effort_objection(entries, i) is Some {
        effort_objection(entries, i)
    } else {
        first_effort_objection(entries, i + 1)
    }
}

/// The reasoning levels that a list names.
pub open spec fn efforts_of(entries: Seq<JsonView>) -> Seq<(Seq<char>, Seq<char>)> {
    entries.map_values(
        |e: JsonView| (e.at("reasoningEffort"@).text()->0, e.at("description"@).text()->0),
    )
}

/// Whether one of some levels has a name.
pub open spec fn has_effort(efforts: Seq<(Seq<char>, Seq<char>)>, id: Seq<char>) -> bool {
    exists|i: int| 0 <= i < efforts.len() && (#[trigger] efforts[i]).0 == id
}

/// The model that an entry of the catalog describes.
pub open spec fn model_of(item: JsonView) -> Result<ModelView, Seq<char>> {
    let id = item.at("id"@).text();
    let name = item.at("displayName"@).text();
    let default_effort = item.at("defaultReasoningEffort"@).text();
    let entries = item.at("supportedReasoningEfforts"@).array();
    if id is None {
        Err("Codex model ID missing"@)
    } else if name is None {
        Err("Codex model name missing"@)
    } else if !short_text(item.at("id"@), 128) || !short_text(item.at("displayName"@), 256) {
        Err("Codex model identity invalid"@)
    } else if default_effort is None {
        Err("Codex default reasoning effort missing"@)
    } else if entries is None {
        Err("Codex reasoning effort catalog missing"@)
    } else if entries->0.len() == 0 || entries->0.len() > 32 {
        Err("Codex reasoning effort catalog invalid"@)
    } else if first_effort_objection(entries->0, 0) is Some {
        Err(first_effort_objection(entries->0, 0)->0)
    } else if !has_effort(efforts_of(entries->0), default_effort->0) {
        Err("Codex default reasoning effort is unsupported"@)
    } else {
        Ok(
            ModelView {
                id: id->0,
                display_name: name->0,
                default_effort: default_effort->0,
                efforts: efforts_of(entries->0),
            },
        )
    }
}

/// The error of the first faulty entry of a catalog from position `i` on.
pub open spec fn catalog_objection(items: Seq<JsonView>, i: int) -> Option<Seq<char>>
    decreases items.len() - i,
{
    if i < 0 || i >= items.len() {
        None
    } else {
        match model_of(items[i]) {
            Err(e) => Some(e),
            Ok(_) => catalog_objection(items, i + 1),
        }
    }
}

/// The models of a catalog without faults.
pub open spec fn models_of(items: Seq<JsonView>) -> Seq<ModelView> {
    items.map_values(|j: JsonView| model_of(j)->Ok_0)
}

/// Whether no two models share an identity.
pub open spec fn distinct_models(models: Seq<ModelView>) -> bool {
    forall|i: int, j: int|
        0 <= i < j < models.len() ==> (#[trigger] models[i]).id != (#[trigger] models[j]).id
}

/// The catalog that Codex reports.
pub open spec fn catalog_of(items: Seq<JsonView>) -> Result<Seq<ModelView>, Seq<char>> {
    if items.len() > 10000 {
        Err("Codex model catalog is too large"@)
    } else if catalog_objection(items, 0) is Some {
        Err(catalog_objection(items, 0)->0)
    } else if !distinct_models(models_of(items)) {
        Err("duplicate Codex model ID"@)
    } else {
        Ok(models_of(items))
    }
}

/// The position of the first model with an identity.
pub open spec fn model_position(models: Seq<ModelView>, id: Seq<char>, from: nat) -> nat
    decreases models.len() - from,
{
    if from >= models.len() {
        models.len()
    } else if models[from as int].id == id {
        from
    } else {
        model_position(models, id, from + 1)
    }
}

fn read_efforts(entries: &Vec<Json>, Ghost(list): Ghost<Seq<JsonView>>) -> (r: Result<
    Vec<DirectReasoningEffort>,
    &'static str,
>)
    requires
        entries@.len() == list.len(),
        forall|i: int| 0 <= i < list.len() ==> #[trigger] entries@[i]@ == list[i],
    ensures
        match first_effort_objection(list, 0) {
            Some(e) => r is Err && r->Err_0@ == e,
            None => r is Ok && effort_views(r->Ok_0@) == efforts_of(list),
        },
{
    let mut out: Vec<DirectReasoningEffort> = Vec::new();
    let mut seen: Vec<String> = Vec::new();
    let mut i: usize = 0;
    assert(effort_views(out@) =~= efforts_of(list.take(0)));
    while i < entries.len()
        invariant
            i <= entries@.len(),
            entries@.len() == list.len(),
            forall|k: int| 0 <= k < list.len() ==> #[trigger] entries@[k]@ == list[k],
            first_effort_objection(list, 0) == first_effort_objection(list, i as int),
            effort_views(out@) == efforts_of(list.take(i as int)),
            seen@.len() == i,
            forall|k: int|
                0 <= k < i ==> (#[trigger] list[k]).at("reasoningEffort"@).says(views(seen@)[k]),
        decreases entries@.len() - i,
    {
        let entry = &entries[i];
        assert(entry@ == list[i as int]);
        let effort = match entry.at("reasoningEffort").as_str() {
            Some(s) => s,
            None => return Err("Codex reasoning effort missing"),
        };
        let description = match entry.at("description").as_str() {
            Some(s) => s,
            None => return Err("Codex reasoning effort description missing"),
        };
        let again = listed(&seen, effort);
        proof {
            let dup = exists|j: int|
                0 <= j < i && (#[trigger] list[j]).at("reasoningEffort"@).says(effort@);
            if again {
                let j = choose|j: int| 0 <= j < views(seen@).len() && views(seen@)[j] == effort@;
                assert(list[j].at("reasoningEffort"@).says(effort@));
            }
            if dup {
                let j = choose|j: int|
                    0 <= j < i && (#[trigger] list[j]).at("reasoningEffort"@).says(effort@);
                assert(views(seen@)[j] == effort@);
            }
            assert(again == dup);
        }
        if effort.is_empty() || byte_len(effort) > 64 || byte_len(description) > 256 || again {
            return Err("Codex reasoning effort identity invalid");
        }
        let ghost before = effort_views(out@);
        let ghost names = views(seen@);
        out.push(
            DirectReasoningEffort { id: effort.to_owned(), description: description.to_owned() },
        );
        seen.push(effort.to_owned());
        assert(effort_views(out@) =~= before.push((effort@, description@)));
        assert(views(seen@) =~= names.push(effort@));
        i += 1;
        assert(efforts_of(list.take(i as int)) =~= efforts_of(list.take(i - 1)).push(
            (effort@, description@),
        ));
    }
    assert(list.take(list.len() as int) =~= list);
    Ok(out)
}

fn effort_known(efforts: &Vec<DirectReasoningEffort>, id: &str) -> (r: bool)
    ensures
        r == has_effort(effort_views(efforts@), id@),
{
    let ghost all = effort_views(efforts@);
    let mut i: usize = 0;
    while i < efforts.len()
        invariant
            i <= efforts@.len(),
            all == effort_views(efforts@),
            forall|j: int| 0 <= j < i ==> (#[trigger] all[j]).0 != id@,
        decreases efforts@.len() - i,
    {
        assert(all[i as int].0 == efforts@[i as int].id@);
        if same(efforts[i].id.as_str(), id) {
            return true;
        }
        i += 1;
    }
    false
}

fn read_model(item: &Json) -> (r: Result<DirectModel, &'static str>)
    ensures
        match model_of(item@) {
            Err(e) => r is Err && r->Err_0@ == e,
            Ok(m) => r is Ok && r->Ok_0@ == m,
        },
{
    let id = match item.at("id").as_str() {
        Some(s) => s,
        None => return Err("Codex model ID missing"),
    };
    let display = match item.at("displayName").as_str() {
        Some(s) => s,
        None => return Err("Codex model name missing"),
    };
    if !is_short_text(item.at("id"), 128) || !is_short_text(item.at("displayName"), 256) {
        return Err("Codex model identity invalid");
    }
    let default_effort = match item.at("defaultReasoningEffort").as_str() {
        Some(s) => s,
        None => return Err("Codex default reasoning effort missing"),
    };
    let entries = match item.at("supportedReasoningEfforts").as_array() {
        Some(v) => v,
        None => return Err("Codex reasoning effort catalog missing"),
    };
    if entries.len() == 0 || entries.len() > 32 {
        return Err("Codex reasoning effort catalog invalid");
    }
    let ghost list = item@.at("supportedReasoningEfforts"@).array()->0;
    let efforts = match read_efforts(entries, Ghost(list)) {
        Ok(v) => v,
        Err(e) => return Err(e),
    };
    if !effort_known(&efforts, default_effort) {
        return Err("Codex default reasoning effort is unsupported");
    }
    Ok(
        DirectModel {
            id: id.to_owned(),
            display_name: display.to_owned(),
            default_reasoning_effort: default_effort.to_owned(),
            supported_reasoning_efforts: efforts,
        },
    )
}

/// The model catalog, which Codex reports and nobody may choose outside of.
#[derive(Debug)]
pub struct DirectModelCatalog {
    pub models: Vec<DirectModel>,
}

impl DirectModelCatalog {
    /// Reads the catalog that Codex reported.
    pub fn list(raw: &Vec<Json>) -> (r: Result<DirectModelCatalog, &'static str>)
        ensures
            match catalog_of(crate::json::trees(raw@)) {
                Err(e) => r is Err && r->Err_0@ == e,
                Ok(models) => r is Ok && model_views(r->Ok_0.models@) == models,
            },
    {
        let ghost items = crate::json::trees(raw@);
        if raw.len() > 10000 {
            return Err("Codex model catalog is too large");
        }
        let mut models: Vec<DirectModel> = Vec::new();
        let mut ids: Vec<String> = Vec::new();
        let mut duplicate = false;
        let mut i: usize = 0;
        assert(model_views(models@) =~= models_of(items.take(0)));
        while i < raw.len()
            invariant
                i <= raw@.len(),
                raw@.len() <= 10000,
                items == crate::json::trees(raw@),
                catalog_objection(items, 0) == catalog_objection(items, i as int),
                model_views(models@) == models_of(items.take(i as int)),
                ids@.len() == i,
                models@.len() == i,
                forall|k: int| 0 <= k < i ==> views(ids@)[k] == (#[trigger] model_views(models@)[k]).id,
                duplicate == !distinct_models(model_views(models@)),
            decreases raw@.len() - i,
        {
            assert(items[i as int] == raw@[i as int]@);
            let m = match read_model(&raw[i]) {
                Ok(m) => m,
                Err(e) => return Err(e),
            };
            let again = listed(&ids, m.id.as_str());
            let ghost before = model_views(models@);
            let ghost names = views(ids@);
            let ghost model = m@;
            ids.push(m.id.clone());
            models.push(m);
            assert(model_views(models@) =~= before.push(model));
            assert(views(ids@) =~= names.push(model.id));
            proof {
                let after = model_views(models@);
                if again {
                    let j = choose|j: int| 0 <= j < names.len() && names[j] == model.id;
                    assert(before[j].id == model.id);
                    assert(after[j].id == after[i as int].id);
                }
                if !distinct_models(before) {
                    let (j, k): (int, int) = choose|j: int, k: int|
                        0 <= j < k < before.len() && (#[trigger] before[j]).id == (
                        #[trigger] before[k]).id;
                    assert(after[j].id == after[k].id);
                }
                if !again && distinct_models(before) {
                    assert forall|j: int, k: int| 0 <= j < k < after.len() implies (
                    #[trigger] after[j]).id != (#[trigger] after[k]).id by {
                        if k == i {
                            assert(names[j] == before[j].id);
                            assert(names.contains(before[j].id));
                        } else {
                            assert(before[j].id != before[k].id);
                        }
                    }
                }
            }
            if again {
                duplicate = true;
            }
            i += 1;
            assert(models_of(items.take(i as int)) =~= models_of(items.take(i - 1)).push(model));
        }
        assert(items.take(items.len() as int) =~= items);
        if duplicate {
            return Err("duplicate Codex model ID");
        }
        Ok(DirectModelCatalog { models })
    }

    /// The model with an identity.
    pub fn find(&self, id: &str) -> (r: Result<&DirectModel, &'static str>)
        ensures
            ({
                let all = model_views(self.models@);
                let at = model_position(all, id@, 0);
                if at < all.len() {
                    r is Ok && r->Ok_0@ == all[at as int]
                } else {
                    r is Err && r->Err_0@ == "requested Codex model is unavailable"@
                }
            }),
    {
        let ghost all = model_views(self.models@);
        let mut i: usize = 0;
        while i < self.models.len()
            invariant
                i <= self.models@.len(),
                all == model_views(self.models@),
                model_position(all, id@, 0) == model_position(all, id@, i as nat),
            decreases self.models@.len() - i,
        {
            assert(all[i as int] == self.models@[i as int]@);
            if same(self.models[i].id.as_str(), id) {
                return Ok(&self.models[i]);
            }
            i += 1;
        }
        Err("requested Codex model is unavailable")
    }

    /// Whether a model is offered.
    pub fn validate(&self, id: &str) -> (r: Result<(), &'static str>)
        ensures
            r is Ok <==> model_position(model_views(self.models@), id@, 0) < self.models@.len(),
            r is Err ==> r->Err_0@ == "requested Codex model is unavailable"@,
    {
        match self.find(id) {
            Ok(_) => Ok(()),
            Err(e) => Err(e),
        }
    }

    /// Whether a model is offered with a reasoning level.
    pub fn validate_effort(&self, model_id: &str, effort: &str) -> (r: Result<(), &'static str>)
        ensures
            ({
                let all = model_views(self.models@);
                let at = model_position(all, model_id@, 0);
                if at >= all.len() {
                    r is Err && r->Err_0@ == "requested Codex model is unavailable"@
                } else if !has_effort(all[at as int].efforts, effort@) {
                    r is Err && r->Err_0@
                        == "requested reasoning effort is unavailable for the selected model"@
                } else {
                    r is Ok
                }
            }),
    {
        match self.find(model_id) {
            Err(e) => Err(e),
            Ok(model) => {
                if effort_known(&model.supported_reasoning_efforts, effort) {
                    Ok(())
                } else {
                    Err("requested reasoning effort is unavailable for the selected model")
                }
            },
        }
    }
}

/// The level that a model uses by default is one that it offers.
pub proof fn default_effort_is_offered(item: JsonView)
    requires
        model_of(item) is Ok,
    ensures
        has_effort(model_of(item)->Ok_0.efforts, model_of(item)->Ok_0.default_effort),
{
}

} // verus!
