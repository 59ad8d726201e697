//! The pictures of a response behind a proxy: what is announced stays, and waiting for them ends.
use crate::generated_images::{
    after_failure, after_snapshot, apply_image_snapshot, check_watch, claim_artifact,
    generated_images_loop, history_objection, image_progress, items_objection,
    poll_generated_images, position, settle_deadline, tightened, ImageNotice, ItemView, LookupError,
    Progress, Snapshot, SnapshotView, Watch, Watched,
};
use crate::json::{Json, JsonView};
use crate::text::opt_view;
use vstd::prelude::*;

verus! {

proof fn positions_are_found(items: Seq<ItemView>, id: Seq<char>, n: nat)
    requires
        n <= items.len(),
    ensures
        match position(items, id, n) {
            Some(k) => 0 <= k < n && items[k].image_id == id,
            None => forall|k: int| 0 <= k < n ==> (#[trigger] items[k]).image_id != id,
        },
    decreases n,
{
    if n > 0 {
        positions_are_found(items, id, (n - 1) as nat);
    }
}

proof fn earlier_items_stay(items: Seq<ItemView>, before: Seq<ItemView>, n: nat, k: int)
    requires
        n <= before.len(),
        0 <= k < n,
        history_objection(items, before, n) is None,
    ensures
        exists|j: int|
            0 <= j < items.len() && (#[trigger] items[j]).image_id == before[k].image_id
                && items[j].ordinal == before[k].ordinal && (before[k].state == "ready"@
                ==> items[j].state == "ready"@ && items[j].artifact_id == before[k].artifact_id)
                && (before[k].artifact_id is Some ==> items[j].artifact_id
                == before[k].artifact_id),
    decreases n,
{
    if k < n - 1 {
        earlier_items_stay(items, before, (n - 1) as nat, k);
    } else {
        positions_are_found(items, before[k].image_id, items.len());
        let j = position(items, before[k].image_id, items.len())->0;
        assert(items[j].image_id == before[k].image_id);
    }
}

proof fn items_are_sound(s: SnapshotView, n: nat, k: int)
    requires
        n <= s.items.len(),
        0 <= k < n,
        items_objection(s, n) is None,
    ensures
        s.items[k].ordinal < 64,
        s.items[k].state == "creating"@ || s.items[k].state == "ready"@ || s.items[k].state
            == "failed"@ || s.items[k].state == "unknown"@,
        s.state == "complete"@ ==> s.items[k].state != "creating"@,
        s.items[k].state == "ready"@ ==> s.items[k].artifact_id is Some,
        forall|j: int|
            0 <= j < k ==> (#[trigger] s.items[j]).image_id != s.items[k].image_id
                && s.items[j].ordinal != s.items[k].ordinal,
    decreases n,
{
    if k < n - 1 {
        items_are_sound(s, (n - 1) as nat, k);
    }
}

/// A list of pictures holds each once and in one place; where it is complete none is still being
/// made, and a ready one can be fetched.
pub proof fn lists_hold_each_picture_once(
    s: &Snapshot,
    previous: Option<&Snapshot>,
    sound: bool,
    r: Result<(), String>,
    k: int,
    j: int,
)
    requires
        call_ensures(Snapshot::validate, (s, previous, sound), r),
        r is Ok,
        0 <= k < s.items@.len(),
    ensures
        sound,
        s.items@.len() <= 64,
        s.items@[k].ordinal < 64,
        s.state@ == "complete"@ ==> s.items@[k].state@ != "creating"@,
        s.items@[k].state@ == "ready"@ ==> s.items@[k].artifact_id is Some,
        0 <= j < k ==> s.items@[j].image_id@ != s.items@[k].image_id@ && s.items@[j].ordinal
            != s.items@[k].ordinal,
        s.state@ == "pending"@ || s.state@ == "complete"@ || s.state@ == "unknown"@,
{
    let v = s@;
    assert(v.items.len() == s.items@.len());
    items_are_sound(v, v.items.len(), k);
    assert(v.items[k] == s.items@[k]@);
    if 0 <= j < k {
        assert(v.items[j] == s.items@[j]@);
    }
}

/// A picture that was announced stays in every later list, in its place; a ready one stays ready with
/// the same content; and a complete list does not change any more.
pub proof fn announced_pictures_stay(
    s: &Snapshot,
    p: &Snapshot,
    sound: bool,
    r: Result<(), String>,
    k: int,
)
    requires
        call_ensures(Snapshot::validate, (s, Some(p), sound), r),
        r is Ok,
    ensures
        s.response_id@ == p.response_id@,
        s.conversation_id@ == p.conversation_id@,
        s.workspace_id@ == p.workspace_id@,
        s.revision >= p.revision,
        p.state@ == "complete"@ ==> s.state@ == "complete"@ && s.items@.len() == p.items@.len(),
        s.revision == p.revision ==> s@ == p@,
        0 <= k < p.items@.len() ==> exists|j: int|
            0 <= j < s.items@.len() && (#[trigger] s.items@[j]).image_id@ == p.items@[k].image_id@
                && s.items@[j].ordinal == p.items@[k].ordinal && (p.items@[k].state@ == "ready"@
                ==> s.items@[j].state@ == "ready"@ && opt_view(s.items@[j].artifact_id) == opt_view(
                p.items@[k].artifact_id,
            )),
{
    let a = s@;
    let b = p@;
    assert(a.items.len() == s.items@.len() && b.items.len() == p.items@.len());
    if 0 <= k < p.items@.len() {
        earlier_items_stay(a.items, b.items, b.items.len(), k);
        let j = choose|j: int|
            0 <= j < a.items.len() && (#[trigger] a.items[j]).image_id == b.items[k].image_id
                && a.items[j].ordinal == b.items[k].ordinal && (b.items[k].state == "ready"@
                ==> a.items[j].state == "ready"@ && a.items[j].artifact_id
                == b.items[k].artifact_id) && (b.items[k].artifact_id is Some
                ==> a.items[j].artifact_id == b.items[k].artifact_id);
        assert(b.items[k] == p.items@[k]@);
        assert(a.items[j] == s.items@[j]@);
        assert(s.items@[j].image_id@ == p.items@[k].image_id@);
    }
}

/// A list is stored only for the response that is watched, on the instance and generation that it was
/// watched on.
pub proof fn lists_are_of_the_watched_response(
    s: &Snapshot,
    w: &Watched,
    previous: Option<&Snapshot>,
    instance: &str,
    generation: &str,
    recovering: bool,
    sound: bool,
    r: Result<(), String>,
    polled: Result<(), &'static str>,
    watch: Result<(), &'static str>,
)
    requires
        call_ensures(
            apply_image_snapshot,
            (s, w, previous, instance, generation, recovering, sound),
            r,
        ),
        call_ensures(poll_generated_images, (s, w), polled),
        call_ensures(check_watch, (w, instance, generation), watch),
    ensures
        r is Ok ==> !recovering && w.instance@ == instance@ && w.generation@ == generation@
            && s.response_id@ == w.response@ && s.conversation_id@ == w.conversation@
            && s.workspace_id@ == w.workspace@,
        polled is Ok <==> s.response_id@ == w.response@ && s.conversation_id@ == w.conversation@
            && s.workspace_id@ == w.workspace@,
        watch is Ok <==> w.instance@ == instance@ && w.generation@ == generation@,
{
}

/// Pictures are handed out in the order of their places, and none is left out.
pub proof fn pictures_are_in_order(s: &Snapshot, r: Vec<usize>, k: int, l: int, j: int)
    requires
        call_ensures(Snapshot::in_order, (s,), r),
    ensures
        r@.len() == s.items@.len(),
        0 <= k < l < r@.len() ==> r@[k] < s.items@.len() && r@[l] < s.items@.len()
            && s.items@[r@[k] as int].ordinal < s.items@[r@[l] as int].ordinal,
        0 <= j < s.items@.len() ==> exists|i: int| 0 <= i < r@.len() && #[trigger] r@[i] == j,
{
    if 0 <= j < s.items@.len() {
        assert(crate::generated_images::placed_at(r@, j));
    }
}

/// A picture is claimed once: what was claimed stays, what exists is taken, and else the new one is
/// made.
pub proof fn pictures_are_claimed_once(
    claimed: Option<&str>,
    existing: Option<&str>,
    id: &str,
    r: (String, bool, bool),
)
    requires
        call_ensures(claim_artifact, (claimed, existing, id), r),
    ensures
        r.1 <==> claimed is None && existing is None,
        r.2 <==> claimed is None,
        claimed is Some ==> r.0@ == claimed->0@,
        claimed is None && existing is Some ==> r.0@ == existing->0@,
        claimed is None && existing is None ==> r.0@ == id@,
{
}

/// Pictures are looked for only where the proxy offers them for this instance and generation.
pub proof fn pictures_are_looked_for_where_offered(
    caps: &Json,
    instance: &str,
    generation: &str,
    r: Option<u64>,
)
    requires
        call_ensures(generated_images_loop, (caps, instance, generation), r),
    ensures
        r is Some <==> caps@.at("features"@).at("generated_image_artifacts"@) == JsonView::Bool(true)
            && caps@.at("features"@).at("response_generated_images"@) == JsonView::Bool(true)
            && caps@.at("instance_id"@) == JsonView::Text(instance@) && caps@.at(
            "recovery_generation"@,
        ) == JsonView::Text(generation@),
        r is Some ==> 1 <= r->0 <= 315360000,
{
}

/// A failed lookup is repeated later, until the deadline; one that can never succeed ends with its own
/// state.
pub proof fn failed_lookups_end(
    e: Option<&LookupError>,
    attempts: u32,
    deadline: Option<i64>,
    now: i64,
    r: Watch,
)
    requires
        call_ensures(after_failure, (e, attempts, deadline, now), r),
        now <= i64::MAX - 60000,
    ensures
        deadline is Some && deadline->0 <= now <==> r.state@ == "TIMED_OUT"@,
        r.state@ != "TIMED_OUT"@ && e is None ==> r.state@ == "WATCHING"@,
        r.state@ != "TIMED_OUT"@ && e is Some && e->0.code@ == "generated_images_not_tracked"@
            ==> r.state@ == "UNSUPPORTED"@,
        r.state@ != "TIMED_OUT"@ && e is Some && e->0.code@ != "generated_images_not_tracked"@
            && e->0.status == 410 ==> r.state@ == "EXPIRED"@,
        r.state@ != "TIMED_OUT"@ && e is Some && e->0.code@ != "generated_images_not_tracked"@
            && e->0.status == 403 ==> r.state@ == "BLOCKED"@,
        now + 5000 <= r.next_poll <= now + 60000,
        r.attempts <= 6,
{
    reveal_strlit("TIMED_OUT");
    reveal_strlit("UNSUPPORTED");
    reveal_strlit("EXPIRED");
    reveal_strlit("BLOCKED");
    reveal_strlit("WATCHING");
    assert("TIMED_OUT"@.len() == 9 && "UNSUPPORTED"@.len() == 11 && "EXPIRED"@.len() == 7 && "BLOCKED"@.len() == 7 && "WATCHING"@.len() == 8);
    assert("EXPIRED"@[0] != "BLOCKED"@[0]);
}

/// A list that changed is looked at again soon, one that did not ever later, and none later than after
/// a minute.
pub proof fn unchanged_lists_are_looked_at_later(same: bool, attempts: u32, now: i64, r: (u32, i64))
    requires
        call_ensures(after_snapshot, (same, attempts, now), r),
        now <= i64::MAX - 60000,
    ensures
        !same ==> r.0 == 0 && r.1 == now + 5000,
        same ==> 0 < r.0 <= 6 && now + 10000 <= r.1 <= now + 60000,
{
}

/// The earlier of two deadlines holds, and a deadline lies as far ahead as is granted.
pub proof fn the_earlier_deadline_holds(
    deadline: Option<i64>,
    limit: Option<i64>,
    r: Option<i64>,
    grace: u64,
    now: i64,
    end: i64,
)
    requires
        call_ensures(tightened, (deadline, limit), r),
        call_ensures(settle_deadline, (grace, now), end),
        1 <= grace <= 315360000,
    ensures
        r is None <==> deadline is None && limit is None,
        deadline is Some ==> r is Some && r->0 <= deadline->0,
        limit is Some ==> r is Some && r->0 <= limit->0,
        r is Some ==> r == deadline || r == limit,
        end >= now,
        now + grace * 1000 <= i64::MAX ==> end == now + grace * 1000,
{
}

/// The user is told that all pictures were delivered only where they were.
pub proof fn delivery_of_pictures_is_told_truly(
    p: &Progress,
    errors: Vec<String>,
    r: Option<ImageNotice>,
)
    requires
        call_ensures(image_progress, (p, errors), r),
    ensures
        r is Some && r->0 is Done <==> opt_view(p.inventory) == Some("complete"@) && p.total
            == p.ready && p.ready == p.delivered,
        r is Some && r->0 is Done && p.total == 0 ==> r->0->Done_0@
            == "画像の確認が終わりました。この回答に生成画像はありません。"@,
        r is Some && r->0 is Show && p.state@ == "TIMED_OUT"@ ==> r->0->trouble is Some,
        r is Some && r->0 is Show && r->0->waiting is Some ==> p.state@ == "WATCHING"@,
{
    if r is Some && r->0 is Show {
        assert(opt_view(r->0->trouble) is Some <==> r->0->trouble is Some);
        assert(opt_view(r->0->waiting) is Some <==> r->0->waiting is Some);
    }
}

} // verus!
