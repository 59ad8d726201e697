//! Images that the proxy announces for a response: which announcements are accepted, how they are
//! watched, what the user is told.
use crate::codec::{
    compact, decode_png, document, encode, guess_picture, measure_picture, parse_timestamp,
    picture_format, picture_size, png_fault, timestamp_nanos, Picture,
};
use crate::json::{Json, JsonView};
use crate::numbers::{signed_decimal, signed_text};
use crate::text::{borrowed, join, joined, opt_view, same, same_option, some_same, views};
use vstd::prelude::*;
use vstd::string::*;

verus! {

/// How many images a response may have.
pub const MAX_IMAGES: usize = 64;

/// How many bytes an announcement may have.
pub const MAX_SNAPSHOT_BYTES: usize = 131072;

/// How many bytes of memory the decoding of an image may take.
pub const MAX_DECODE_BYTES: u64 = 268435456;

/// Why something failed.
#[derive(Debug, PartialEq)]
pub struct ImageError {
    pub code: String,
}

/// An image of a response.
#[derive(Debug, PartialEq)]
pub struct ImageItem {
    pub image_id: String,
    pub ordinal: u64,
    pub state: String,
    pub artifact_id: Option<String>,
    pub error: Option<ImageError>,
}

/// What is known of the images of a response.
#[derive(Debug, PartialEq)]
pub struct Snapshot {
    pub response_id: String,
    pub conversation_id: String,
    pub workspace_id: String,
    pub revision: u64,
    pub state: String,
    pub items: Vec<ImageItem>,
    pub error: Option<ImageError>,
    pub expires_at: Option<String>,
}

/// The mathematical form of an `ImageItem`.
pub struct ItemView {
    pub image_id: Seq<char>,
    pub ordinal: u64,
    pub state: Seq<char>,
    pub artifact_id: Option<Seq<char>>,
    pub error: Option<Seq<char>>,
}

/// The mathematical form of a `Snapshot`.
pub struct SnapshotView {
    pub response_id: Seq<char>,
    pub conversation_id: Seq<char>,
    pub workspace_id: Seq<char>,
    pub revision: u64,
    pub state: Seq<char>,
    pub items: Seq<ItemView>,
    pub error: Option<Seq<char>>,
    pub expires_at: Option<Seq<char>>,
}

/// The code of an error, where there is one.
pub open spec fn error_view(e: Option<ImageError>) -> Option<Seq<char>> {
    match e {
        Some(e) => Some(e.code@),
        None => None,
    }
}

impl View for ImageItem {
    type V = ItemView;

    open spec fn view(&self) -> ItemView {
        ItemView {
            image_id: self.image_id@,
            ordinal: self.ordinal,
            state: self.state@,
            artifact_id: opt_view(self.artifact_id),
            error: error_view(self.error),
        }
    }
}

/// The images of a list.
pub open spec fn item_views(v: Seq<ImageItem>) -> Seq<ItemView> {
    v.map_values(|i: ImageItem| i@)
}

impl View for Snapshot {
    type V = SnapshotView;

    open spec fn view(&self) -> SnapshotView {
        SnapshotView {
            response_id: self.response_id@,
            conversation_id: self.conversation_id@,
            workspace_id: self.workspace_id@,
            revision: self.revision,
            state: self.state@,
            items: item_views(self.items@),
            error: error_view(self.error),
            expires_at: opt_view(self.expires_at),
        }
    }
}

/// Whether an image has the identity or the place of one before it.
pub open spec fn repeats(items: Seq<ItemView>, i: int) -> bool {
    exists|j: int|
        0 <= j < i && ((#[trigger] items[j]).image_id == items[i].image_id || items[j].ordinal
            == items[i].ordinal)
}

/// Why the image at a position is not accepted.
pub open spec fn item_objection(s: SnapshotView, i: int) -> Option<Seq<char>> {
    let item = s.items[i];
    if repeats(s.items, i) || item.ordinal >= MAX_IMAGES {
        Some("duplicate image identity"@)
    } else if !(item.state == "creating"@ || item.state == "ready"@ || item.state == "failed"@
        || item.state == "unknown"@) {
        Some("invalid image item state"@)
    } else if s.state == "complete"@ && item.state == "creating"@ {
        Some("incomplete final image inventory"@)
    } else if item.state == "ready"@ && item.artifact_id is None {
        Some("image artifact missing"@)
    } else {
        None
    }
}

/// The first objection to one of the first `n` images.
pub open spec fn items_objection(s: SnapshotView, n: nat) -> Option<Seq<char>>
    decreases n,
{
    if n == 0 || n > s.items.len() {
        None
    } else {
        let e = items_objection(s, (n - 1) as nat);
        if e is Some {
            e
        } else {
            item_objection(s, n - 1)
        }
    }
}

/// Whether an image with this identity is among some images, at this position first.
pub open spec fn first_at(items: Seq<ItemView>, id: Seq<char>, k: int) -> bool {
    0 <= k < items.len() && items[k].image_id == id && forall|j: int|
        0 <= j < k ==> (#[trigger] items[j]).image_id != id
}

/// Where an image stands among some images.
pub open spec fn position(items: Seq<ItemView>, id: Seq<char>, n: nat) -> Option<int>
    decreases n,
{
    if n == 0 || n > items.len() {
        None
    } else {
        let before = position(items, id, (n - 1) as nat);
        if before is Some {
            before
        } else if items[n - 1].image_id == id {
            Some(n - 1)
        } else {
            None
        }
    }
}

/// Why some images do not continue one that was known before.
pub open spec fn continued_objection(items: Seq<ItemView>, old: ItemView) -> Option<Seq<char>> {
    match position(items, old.image_id, items.len()) {
        None => Some("image disappeared"@),
        Some(k) => {
            let item = items[k];
            if item.ordinal != old.ordinal {
                Some("image ordinal changed"@)
            } else if old.state == "ready"@ && !(item.state == "ready"@ && item.artifact_id
                == old.artifact_id) {
                Some("ready image changed"@)
            } else if old.artifact_id is Some && item.artifact_id != old.artifact_id {
                Some("image artifact changed"@)
            } else {
                None
            }
        },
    }
}

/// The first of the first `n` images of before that is not continued.
pub open spec fn history_objection(items: Seq<ItemView>, old: Seq<ItemView>, n: nat) -> Option<Seq<char>>
    decreases n,
{
    if n == 0 || n > old.len() {
        None
    } else {
        let e = history_objection(items, old, (n - 1) as nat);
        if e is Some {
            e
        } else {
            continued_objection(items, old[n - 1])
        }
    }
}

/// Why an announcement does not follow an earlier one.
pub open spec fn succession_objection(s: SnapshotView, p: SnapshotView) -> Option<Seq<char>> {
    if !(s.response_id == p.response_id && s.conversation_id == p.conversation_id && s.workspace_id
        == p.workspace_id && s.revision >= p.revision) {
        Some("image inventory identity changed"@)
    } else if s.revision == p.revision && s != p {
        Some("image revision reused"@)
    } else if p.state == "complete"@ && !(s.state == "complete"@ && s.items.len() == p.items.len()) {
        Some("final image inventory changed"@)
    } else {
        history_objection(s.items, p.items, p.items.len())
    }
}

/// Why an announcement is not accepted. `sound` says whether every identity in it can stand in a
/// path.
pub open spec fn snapshot_objection(s: SnapshotView, p: Option<SnapshotView>, sound: bool) -> Option<
    Seq<char>,
> {
    if !sound {
        Some("unusable image identity"@)
    } else if s.revision > i64::MAX || s.items.len() > MAX_IMAGES {
        Some("image inventory limit"@)
    } else if !(s.state == "pending"@ || s.state == "complete"@ || s.state == "unknown"@) {
        Some("invalid image inventory state"@)
    } else if s.expires_at is Some && timestamp_nanos(s.expires_at->0) is Err {
        Some(timestamp_nanos(s.expires_at->0)->Err_0)
    } else if items_objection(s, s.items.len()) is Some {
        items_objection(s, s.items.len())
    } else {
        match p {
            None => None,
            Some(p) => succession_objection(s, p),
        }
    }
}

proof fn lemma_items_objection(s: SnapshotView, i: nat, n: nat)
    requires
        i <= n <= s.items.len(),
        items_objection(s, i) is Some,
    ensures
        items_objection(s, n) == items_objection(s, i),
    decreases n,
{
    if i < n {
        lemma_items_objection(s, i, (n - 1) as nat);
    }
}

proof fn lemma_history_objection(items: Seq<ItemView>, old: Seq<ItemView>, i: nat, n: nat)
    requires
        i <= n <= old.len(),
        history_objection(items, old, i) is Some,
    ensures
        history_objection(items, old, n) == history_objection(items, old, i),
    decreases n,
{
    if i < n {
        lemma_history_objection(items, old, i, (n - 1) as nat);
    }
}

proof fn lemma_position_first(items: Seq<ItemView>, id: Seq<char>, k: int, n: nat)
    requires
        0 <= k < n <= items.len(),
        first_at(items, id, k),
    ensures
        position(items, id, n) == Some(k),
    decreases n,
{
    if n == k + 1 {
        lemma_position_none(items, id, k as nat);
    } else {
        lemma_position_first(items, id, k, (n - 1) as nat);
    }
}

proof fn lemma_position_none(items: Seq<ItemView>, id: Seq<char>, n: nat)
    requires
        n <= items.len(),
        forall|j: int| 0 <= j < n ==> (#[trigger] items[j]).image_id != id,
    ensures
        position(items, id, n) is None,
    decreases n,
{
    if n > 0 {
        lemma_position_none(items, id, (n - 1) as nat);
    }
}

impl ImageError {
    fn same_error(a: &Option<ImageError>, b: &Option<ImageError>) -> (r: bool)
        ensures
            r == (error_view(*a) == error_view(*b)),
    {
        match (a, b) {
            (None, None) => true,
            (Some(x), Some(y)) => same(x.code.as_str(), y.code.as_str()),
            _ => false,
        }
    }
}

impl ImageItem {
    fn same_item(&self, other: &ImageItem) -> (r: bool)
        ensures
            r == (self@ == other@),
    {
        same(self.image_id.as_str(), other.image_id.as_str()) && self.ordinal == other.ordinal && same(
            self.state.as_str(),
            other.state.as_str(),
        ) && same_option(borrowed(&self.artifact_id), borrowed(&other.artifact_id))
            && ImageError::same_error(&self.error, &other.error)
    }
}

impl Snapshot {
    fn same_snapshot(&self, other: &Snapshot) -> (r: bool)
        ensures
            r == (self@ == other@),
    {
        if !(same(self.response_id.as_str(), other.response_id.as_str()) && same(
            self.conversation_id.as_str(),
            other.conversation_id.as_str(),
        ) && same(self.workspace_id.as_str(), other.workspace_id.as_str()) && self.revision
            == other.revision && same(self.state.as_str(), other.state.as_str())
            && ImageError::same_error(&self.error, &other.error) && same_option(
            borrowed(&self.expires_at),
            borrowed(&other.expires_at),
        )) {
            return false;
        }
        let ghost a = item_views(self.items@);
        let ghost b = item_views(other.items@);
        if self.items.len() != other.items.len() {
            assert(a.len() != b.len());
            return false;
        }
        let mut i: usize = 0;
        while i < self.items.len()
            invariant
                i <= self.items@.len(),
                self.items@.len() == other.items@.len(),
                a == item_views(self.items@),
                b == item_views(other.items@),
                self@.items == a,
                other@.items == b,
                forall|j: int| 0 <= j < i ==> #[trigger] a[j] == b[j],
            decreases self.items@.len() - i,
        {
            assert(a[i as int] == self.items@[i as int]@ && b[i as int] == other.items@[i as int]@);
            if !self.items[i].same_item(&other.items[i]) {
                assert(a[i as int] != b[i as int]);
                return false;
            }
            i += 1;
        }
        assert(a =~= b);
        true
    }

    fn find(&self, id: &str) -> (r: Option<usize>)
        ensures
            match r {
                Some(k) => first_at(self@.items, id@, k as int),
                None => forall|j: int|
                    0 <= j < self@.items.len() ==> (#[trigger] self@.items[j]).image_id != id@,
            },
    {
        let ghost all = self@.items;
        let mut i: usize = 0;
        while i < self.items.len()
            invariant
                i <= self.items@.len(),
                all == item_views(self.items@),
                all == self@.items,
                forall|j: int| 0 <= j < i ==> (#[trigger] all[j]).image_id != id@,
            decreases self.items@.len() - i,
        {
            assert(all[i as int] == self.items@[i as int]@);
            if same(self.items[i].image_id.as_str(), id) {
                return Some(i);
            }
            i += 1;
        }
        None
    }

    fn does_repeat(&self, i: usize) -> (r: bool)
        requires
            i < self.items@.len(),
        ensures
            r == repeats(self@.items, i as int),
    {
        let ghost all = self@.items;
        assert(all[i as int] == self.items@[i as int]@);
        let mut j: usize = 0;
        while j < i
            invariant
                j <= i < self.items@.len(),
                all == item_views(self.items@),
                all == self@.items,
                all[i as int] == self.items@[i as int]@,
                forall|k: int|
                    0 <= k < j ==> (#[trigger] all[k]).image_id != all[i as int].image_id
                        && all[k].ordinal != all[i as int].ordinal,
            decreases i - j,
        {
            assert(all[j as int] == self.items@[j as int]@);
            if same(self.items[j].image_id.as_str(), self.items[i].image_id.as_str())
                || self.items[j].ordinal == self.items[i].ordinal {
                return true;
            }
            j += 1;
        }
        false
    }

    fn check_item(&self, i: usize) -> (r: Result<(), &'static str>)
        requires
            i < self.items@.len(),
        ensures
            match item_objection(self@, i as int) {
                None => r is Ok,
                Some(e) => r is Err && r->Err_0@ == e,
            },
    {
        assert(self@.items[i as int] == self.items@[i as int]@);
        let item = &self.items[i];
        let state = item.state.as_str();
        if self.does_repeat(i) || item.ordinal >= MAX_IMAGES as u64 {
            return Err("duplicate image identity");
        }
        if !(same(state, "creating") || same(state, "ready") || same(state, "failed") || same(
            state,
            "unknown",
        )) {
            return Err("invalid image item state");
        }
        if same(self.state.as_str(), "complete") && same(state, "creating") {
            return Err("incomplete final image inventory");
        }
        if same(state, "ready") && item.artifact_id.is_none() {
            return Err("image artifact missing");
        }
        Ok(())
    }

    fn check_continued(&self, old: &ImageItem) -> (r: Result<(), &'static str>)
        ensures
            match continued_objection(self@.items, old@) {
                None => r is Ok,
                Some(e) => r is Err && r->Err_0@ == e,
            },
    {
        let ghost all = self@.items;
        match self.find(old.image_id.as_str()) {
            None => {
                proof {
                    lemma_position_none(all, old@.image_id, all.len());
                }
                Err("image disappeared")
            },
            Some(k) => {
                proof {
                    lemma_position_first(all, old@.image_id, k as int, all.len());
                    assert(all[k as int] == self.items@[k as int]@);
                }
                let item = &self.items[k];
                if item.ordinal != old.ordinal {
                    return Err("image ordinal changed");
                }
                let kept = same_option(borrowed(&item.artifact_id), borrowed(&old.artifact_id));
                if same(old.state.as_str(), "ready") && !(same(item.state.as_str(), "ready") && kept) {
                    return Err("ready image changed");
                }
                if old.artifact_id.is_some() && !kept {
                    return Err("image artifact changed");
                }
                Ok(())
            },
        }
    }

    fn check_succession(&self, p: &Snapshot) -> (r: Result<(), &'static str>)
        ensures
            match succession_objection(self@, p@) {
                None => r is Ok,
                Some(e) => r is Err && r->Err_0@ == e,
            },
    {
        if !(same(self.response_id.as_str(), p.response_id.as_str()) && same(
            self.conversation_id.as_str(),
            p.conversation_id.as_str(),
        ) && same(self.workspace_id.as_str(), p.workspace_id.as_str()) && self.revision
            >= p.revision) {
            return Err("image inventory identity changed");
        }
        if self.revision == p.revision && !self.same_snapshot(p) {
            return Err("image revision reused");
        }
        assert(self@.items.len() == self.items@.len() && p@.items.len() == p.items@.len());
        if same(p.state.as_str(), "complete") && !(same(self.state.as_str(), "complete")
            && self.items.len() == p.items.len()) {
            return Err("final image inventory changed");
        }
        let ghost whole = history_objection(self@.items, p@.items, p@.items.len());
        assert(succession_objection(self@, p@) == whole);
        let mut i: usize = 0;
        while i < p.items.len()
            invariant
                i <= p.items@.len(),
                p@.items == item_views(p.items@),
                history_objection(self@.items, p@.items, i as nat) is None,
                whole == history_objection(self@.items, p@.items, p@.items.len()),
                succession_objection(self@, p@) == whole,
            decreases p.items@.len() - i,
        {
            assert(p@.items[i as int] == p.items@[i as int]@);
            match self.check_continued(&p.items[i]) {
                Err(e) => {
                    proof {
                        lemma_history_objection(self@.items, p@.items, (i + 1) as nat, p@.items.len());
                    }
                    return Err(e);
                },
                Ok(()) => {},
            }
            i += 1;
        }
        Ok(())
    }

    /// Whether an announcement is accepted after an earlier one. `sound` says whether every identity
    /// in it can stand in a path.
    pub fn validate(&self, previous: Option<&Snapshot>, sound: bool) -> (r: Result<(), String>)
        ensures
            match snapshot_objection(
                self@,
                match previous {
                    Some(p) => Some(p@),
                    None => None,
                },
                sound,
            ) {
                None => r is Ok,
                Some(e) => r is Err && r->Err_0@ == e,
            },
    {
        if !sound {
            return Err(String::from_str("unusable image identity"));
        }
        assert(self@.items.len() == self.items@.len());
        if self.revision > i64::MAX as u64 || self.items.len() > MAX_IMAGES {
            return Err(String::from_str("image inventory limit"));
        }
        let state = self.state.as_str();
        if !(same(state, "pending") || same(state, "complete") || same(state, "unknown")) {
            return Err(String::from_str("invalid image inventory state"));
        }
        if let Some(t) = borrowed(&self.expires_at) {
            if let Err(e) = parse_timestamp(t) {
                return Err(e);
            }
        }
        let ghost whole = items_objection(self@, self@.items.len());
        let mut i: usize = 0;
        while i < self.items.len()
            invariant
                i <= self.items@.len(),
                self@.items.len() == self.items@.len(),
                items_objection(self@, i as nat) is None,
                whole == items_objection(self@, self@.items.len()),
                whole is Some ==> snapshot_objection(
                    self@,
                    match previous {
                        Some(p) => Some(p@),
                        None => None,
                    },
                    sound,
                ) == whole,
            decreases self.items@.len() - i,
        {
            match self.check_item(i) {
                Err(e) => {
                    proof {
                        lemma_items_objection(self@, (i + 1) as nat, self@.items.len());
                    }
                    return Err(String::from_str(e));
                },
                Ok(()) => {},
            }
            i += 1;
        }
        match previous {
            None => Ok(()),
            Some(p) => match self.check_succession(p) {
                Ok(()) => Ok(()),
                Err(e) => Err(String::from_str(e)),
            },
        }
    }

    /// The identities that have to stand in a path.
    pub fn identities(&self) -> (r: Vec<String>)
        ensures
            views(r@) == identities_of(self@),
    {
        let mut r: Vec<String> = Vec::new();
        r.push(self.response_id.clone());
        r.push(self.conversation_id.clone());
        r.push(self.workspace_id.clone());
        let ghost head = seq![self@.response_id, self@.conversation_id, self@.workspace_id];
        assert(views(r@) =~= head + item_identities(self@.items, 0));
        let mut i: usize = 0;
        while i < self.items.len()
            invariant
                i <= self.items@.len(),
                self@.items == item_views(self.items@),
                views(r@) == head + item_identities(self@.items, i as nat),
            decreases self.items@.len() - i,
        {
            let ghost before = views(r@);
            assert(self@.items[i as int] == self.items@[i as int]@);
            let item = &self.items[i];
            r.push(item.image_id.clone());
            assert(views(r@) =~= before.push(item@.image_id));
            if let Some(a) = &item.artifact_id {
                r.push(a.clone());
            }
            let ghost middle = views(r@);
            assert(middle =~= before.push(item@.image_id) + optional_text(item@.artifact_id));
            if let Some(e) = &item.error {
                r.push(e.code.clone());
            }
            assert(views(r@) =~= middle + optional_text(item@.error));
            i += 1;
            assert(views(r@) =~= head + item_identities(self@.items, i as nat));
        }
        let ghost before = views(r@);
        if let Some(e) = &self.error {
            r.push(e.code.clone());
        }
        assert(views(r@) =~= before + optional_text(self@.error));
        r
    }

    /// The positions of the images by their places.
    pub fn in_order(&self) -> (r: Vec<usize>)
        requires
            items_objection(self@, self@.items.len()) is None,
        ensures
            r@.len() == self.items@.len(),
            forall|k: int| 0 <= k < r@.len() ==> (#[trigger] r@[k]) < self.items@.len(),
            forall|k: int, l: int|
                0 <= k < l < r@.len() ==> self.items@[(#[trigger] r@[k]) as int].ordinal
                    < self.items@[(#[trigger] r@[l]) as int].ordinal,
            forall|j: int|
                0 <= j < self.items@.len() ==> #[trigger] placed_at(r@, j),
            by_place(self.items@, r@),
    {
        let ghost all = self@.items;
        assert(all.len() == self.items@.len());
        assert forall|j: int| 0 <= j < all.len() implies (#[trigger] all[j]).ordinal < MAX_IMAGES && !repeats(all, j) by {
            lemma_item_accepted(self@, j, all.len());
        }
        let mut r: Vec<usize> = Vec::new();
        let mut o: u64 = 0;
        while o < MAX_IMAGES as u64
            invariant
                o <= MAX_IMAGES,
                all == item_views(self.items@),
                all.len() == self.items@.len(),
                forall|j: int| 0 <= j < all.len() ==> !repeats(all, j),
                forall|k: int|
                    0 <= k < r@.len() ==> (#[trigger] r@[k]) < self.items@.len()
                        && self.items@[r@[k] as int].ordinal < o,
                forall|k: int, l: int|
                    0 <= k < l < r@.len() ==> self.items@[(#[trigger] r@[k]) as int].ordinal
                        < self.items@[(#[trigger] r@[l]) as int].ordinal,
                forall|j: int|
                    0 <= j < self.items@.len() && (#[trigger] self.items@[j]).ordinal < o ==> placed_at(
                        r@,
                        j,
                    ),
            decreases MAX_IMAGES - o,
        {
            let ghost before = r@;
            let mut i: usize = 0;
            let mut found: Option<usize> = None;
            while i < self.items.len()
                invariant
                    i <= self.items@.len(),
                    match found {
                        Some(f) => f < i && self.items@[f as int].ordinal == o,
                        None => forall|j: int|
                            0 <= j < i ==> (#[trigger] self.items@[j]).ordinal != o,
                    },
                decreases self.items@.len() - i,
            {
                if self.items[i].ordinal == o {
                    found = Some(i);
                }
                i += 1;
            }
            if let Some(f) = found {
                r.push(f);
                assert forall|j: int|
                    0 <= j < self.items@.len() && (#[trigger] self.items@[j]).ordinal < o + 1 implies placed_at(
                    r@,
                    j,
                ) by {
                    if self.items@[j].ordinal < o {
                        assert(placed_at(before, j));
                        let k = choose|k: int| 0 <= k < before.len() && #[trigger] before[k] == j;
                        assert(r@[k] == j);
                    } else {
                        assert(j == f) by {
                            assert(all[j] == self.items@[j]@ && all[f as int] == self.items@[f as int]@);
                            if j < f {
                                assert(repeats(all, f as int)) by {
                                    assert(all[j].ordinal == all[f as int].ordinal);
                                }
                            } else if f < j {
                                assert(repeats(all, j)) by {
                                    assert(all[f as int].ordinal == all[j].ordinal);
                                }
                            }
                        }
                        assert(r@[before.len() as int] == j);
                    }
                }
            }
            o += 1;
        }
        assert forall|j: int| 0 <= j < self.items@.len() implies #[trigger] placed_at(r@, j) by {
            assert(all[j] == self.items@[j]@);
            assert(self.items@[j].ordinal < MAX_IMAGES);
        }
        proof {
            lemma_as_many(r@, self.items@.len());
        }
        r
    }
}

/// Whether positions are those of all items, by the place of each.
pub open spec fn by_place(items: Seq<ImageItem>, r: Seq<usize>) -> bool {
    &&& r.len() == items.len()
    &&& forall|k: int| 0 <= k < r.len() ==> (#[trigger] r[k]) < items.len()
    &&& forall|k: int, l: int|
        0 <= k < l < r.len() ==> items[(#[trigger] r[k]) as int].ordinal < items[(
        #[trigger] r[l]) as int].ordinal
    &&& forall|j: int| 0 <= j < items.len() ==> #[trigger] placed_at(r, j)
}

/// Whether a position is in a list.
pub open spec fn placed_at(r: Seq<usize>, j: int) -> bool {
    exists|k: int| 0 <= k < r.len() && #[trigger] r[k] == j
}

/// A list of different positions below `n` that holds every one of them has `n` elements.
proof fn lemma_as_many(r: Seq<usize>, n: nat)
    requires
        forall|k: int| 0 <= k < r.len() ==> (#[trigger] r[k]) < n,
        forall|k: int, l: int| 0 <= k < l < r.len() ==> #[trigger] r[k] != #[trigger] r[l],
        forall|j: int| 0 <= j < n ==> #[trigger] placed_at(r, j),
    ensures
        r.len() == n,
{
    let ints = r.map_values(|x: usize| x as int);
    assert(ints.no_duplicates());
    ints.unique_seq_to_set();
    let range = vstd::set_lib::set_int_range(0, n as int);
    vstd::set_lib::lemma_int_range(0, n as int);
    assert(ints.to_set() =~= range) by {
        assert forall|x: int| range.contains(x) implies #[trigger] ints.to_set().contains(x) by {
            assert(placed_at(r, x));
            let k = choose|k: int| 0 <= k < r.len() && #[trigger] r[k] == x;
            assert(ints[k] == x);
        }
        assert forall|x: int| #[trigger] ints.to_set().contains(x) implies range.contains(x) by {
            let k = choose|k: int| 0 <= k < ints.len() && ints[k] == x;
            assert(r[k] < n);
        }
    }
}

proof fn lemma_item_accepted(s: SnapshotView, i: int, n: nat)
    requires
        0 <= i < n <= s.items.len(),
        items_objection(s, n) is None,
    ensures
        item_objection(s, i) is None,
    decreases n,
{
    if i < n - 1 {
        lemma_item_accepted(s, i, (n - 1) as nat);
    }
}

/// A text that may be absent, as a list.
pub open spec fn optional_text(o: Option<Seq<char>>) -> Seq<Seq<char>> {
    match o {
        Some(s) => seq![s],
        None => Seq::empty(),
    }
}

/// The identities of the first `n` images.
pub open spec fn item_identities(items: Seq<ItemView>, n: nat) -> Seq<Seq<char>>
    decreases n,
{
    if n == 0 || n > items.len() {
        Seq::empty()
    } else {
        item_identities(items, (n - 1) as nat).push(items[n - 1].image_id) + optional_text(
            items[n - 1].artifact_id,
        ) + optional_text(items[n - 1].error)
    }
}

/// The identities that have to stand in a path.
pub open spec fn identities_of(s: SnapshotView) -> Seq<Seq<char>> {
    seq![s.response_id, s.conversation_id, s.workspace_id] + item_identities(
        s.items,
        s.items.len(),
    ) + optional_text(s.error)
}

/// Whether each announcement in a history was accepted after the one before it.
pub open spec fn accepted_history(h: Seq<SnapshotView>) -> bool {
    forall|i: int|
        1 <= i < h.len() ==> snapshot_objection(#[trigger] h[i], Some(h[i - 1]), true) is None
}

proof fn lemma_continued(items: Seq<ItemView>, old: Seq<ItemView>, k: int, n: nat)
    requires
        0 <= k < n <= old.len(),
        history_objection(items, old, n) is None,
    ensures
        continued_objection(items, old[k]) is None,
    decreases n,
{
    if k < n - 1 {
        lemma_continued(items, old, k, (n - 1) as nat);
    }
}

proof fn lemma_position_right(items: Seq<ItemView>, id: Seq<char>, n: nat)
    requires
        position(items, id, n) is Some,
    ensures
        0 <= position(items, id, n)->0 < n <= items.len(),
        items[position(items, id, n)->0].image_id == id,
    decreases n,
{
    if n > 0 && n <= items.len() {
        if position(items, id, (n - 1) as nat) is Some {
            lemma_position_right(items, id, (n - 1) as nat);
        }
    }
}

/// An image that was announced stays announced with its place, and one that was ready stays ready
/// with its artifact, through every later announcement that is accepted.
pub proof fn announced_images_stay(h: Seq<SnapshotView>, i: int, j: int, k: int) -> (at: int)
    requires
        accepted_history(h),
        0 <= i <= j < h.len(),
        0 <= k < h[i].items.len(),
    ensures
        0 <= at < h[j].items.len(),
        h[j].items[at].image_id == h[i].items[k].image_id,
        h[j].items[at].ordinal == h[i].items[k].ordinal,
        h[i].items[k].state == "ready"@ ==> h[j].items[at].state == "ready"@,
        h[i].items[k].artifact_id is Some ==> h[j].items[at].artifact_id
            == h[i].items[k].artifact_id,
    decreases j - i,
{
    if i == j {
        k
    } else {
        let before = announced_images_stay(h, i, j - 1, k);
        assert(snapshot_objection(h[j], Some(h[j - 1]), true) is None);
        let items = h[j].items;
        let old = h[j - 1].items;
        lemma_continued(items, old, before, old.len());
        lemma_position_right(items, old[before].image_id, items.len());
        position(items, old[before].image_id, items.len())->0
    }
}

/// Which delivery an artifact has in a conversation: the one that claims it, else the oldest that
/// exists, else a new one. Says whether a delivery is made and whether a claim is stored.
pub fn claim_artifact(claimed: Option<&str>, existing: Option<&str>, id: &str) -> (r: (String, bool, bool))
    ensures
        claimed is Some ==> r.0@ == claimed->0@ && !r.1 && !r.2,
        claimed is None && existing is Some ==> r.0@ == existing->0@ && !r.1 && r.2,
        claimed is None && existing is None ==> r.0@ == id@ && r.1 && r.2,
{
    match claimed {
        Some(c) => (c.to_owned(), false, false),
        None => match existing {
            Some(e) => (e.to_owned(), false, true),
            None => (id.to_owned(), true, true),
        },
    }
}

/// Whether the proxy announces images, for the instance and generation that are bound.
pub open spec fn announces_images(caps: JsonView, instance: Seq<char>, generation: Seq<char>) -> bool {
    caps.at("features"@).at("generated_image_artifacts"@).is_true() && caps.at("features"@).at(
        "response_generated_images"@,
    ).is_true() && caps.at("instance_id"@).says(instance) && caps.at("recovery_generation"@).says(
        generation,
    )
}

/// How long images may be awaited after the end of a request, in seconds.
pub open spec fn grace_of(caps: JsonView) -> int {
    let n: int = match caps.at("limits"@).at("generated_images_settle_seconds"@).unsigned() {
        Some(n) => n as int,
        None => 600,
    };
    if n < 1 {
        1
    } else if n > 315360000 {
        315360000
    } else {
        n
    }
}

/// How long images are awaited after the end of a request, where the proxy announces any.
pub fn generated_images_loop(caps: &Json, instance: &str, generation: &str) -> (r: Option<u64>)
    ensures
        announces_images(caps@, instance@, generation@) ==> r is Some && r->0 == grace_of(caps@),
        !announces_images(caps@, instance@, generation@) ==> r is None,
{
    if !(caps.at("features").at("generated_image_artifacts").is_bool(true) && caps.at("features").at(
        "response_generated_images",
    ).is_bool(true) && caps.at("instance_id").is_text(instance) && caps.at(
        "recovery_generation",
    ).is_text(generation)) {
        return None;
    }
    let n: u64 = match caps.at("limits").at("generated_images_settle_seconds").as_u64() {
        Some(n) => n,
        None => 600,
    };
    if n < 1 {
        Some(1)
    } else if n > 315360000 {
        Some(315360000)
    } else {
        Some(n)
    }
}

/// What the proxy answered in place of an announcement.
#[derive(Debug)]
pub struct LookupError {
    pub code: String,
    pub status: u16,
}

/// What is stored of a lookup that failed: the state of the watch and a code.
pub open spec fn failed_lookup(e: Option<LookupError>) -> (Seq<char>, Seq<char>) {
    match e {
        Some(e) => if e.code@ == "generated_images_not_tracked"@ {
            ("UNSUPPORTED"@, e.code@)
        } else if e.status == 410 {
            ("EXPIRED"@, e.code@)
        } else if e.status == 403 {
            ("BLOCKED"@, e.code@)
        } else {
            ("WATCHING"@, "image_lookup_unconfirmed"@)
        },
        None => ("WATCHING"@, "image_lookup_unconfirmed"@),
    }
}

/// How long to wait after so many attempts, in milliseconds: five seconds, doubled each time, with a
/// limit.
pub open spec fn backoff(attempts: nat, limit: int) -> int {
    let d: int = if attempts >= 4 {
        80000
    } else if attempts == 3 {
        40000
    } else if attempts == 2 {
        20000
    } else if attempts == 1 {
        10000
    } else {
        5000
    };
    if d < limit {
        d
    } else {
        limit
    }
}

fn wait_after(attempts: u32, limit: i64) -> (r: i64)
    ensures
        r == backoff(attempts as nat, limit as int),
{
    let d: i64 = if attempts >= 4 {
        80000
    } else if attempts == 3 {
        40000
    } else if attempts == 2 {
        20000
    } else if attempts == 1 {
        10000
    } else {
        5000
    };
    if d < limit {
        d
    } else {
        limit
    }
}

/// One more attempt, counted up to six.
pub open spec fn counted(attempts: nat) -> nat {
    if attempts + 1 < 6 {
        attempts + 1
    } else {
        6
    }
}

/// What is stored after a lookup.
#[derive(Debug)]
pub struct Watch {
    pub state: String,
    pub code: Option<String>,
    pub attempts: u32,
    pub next_poll: i64,
}

/// What is stored after a lookup that failed.
pub fn after_failure(e: Option<&LookupError>, attempts: u32, deadline: Option<i64>, now: i64) -> (r: Watch)
    requires
        now <= i64::MAX - 60000,
    ensures
        ({
            let (state, code) = failed_lookup(
                match e {
                    Some(x) => Some(*x),
                    None => None,
                },
            );
            &&& r.state@ == if deadline is Some && deadline->0 <= now {
                "TIMED_OUT"@
            } else {
                state
            }
            &&& opt_view(r.code) == Some(code)
            &&& r.attempts == counted(attempts as nat)
            &&& r.next_poll == now + backoff(attempts as nat, 60000)
        }),
{
    let (state, code) = match e {
        Some(x) => {
            if same(x.code.as_str(), "generated_images_not_tracked") {
                ("UNSUPPORTED", x.code.as_str())
            } else if x.status == 410 {
                ("EXPIRED", x.code.as_str())
            } else if x.status == 403 {
                ("BLOCKED", x.code.as_str())
            } else {
                ("WATCHING", "image_lookup_unconfirmed")
            }
        },
        None => ("WATCHING", "image_lookup_unconfirmed"),
    };
    let late = match deadline {
        Some(d) => d <= now,
        None => false,
    };
    Watch {
        state: if late {
            String::from_str("TIMED_OUT")
        } else {
            state.to_owned()
        },
        code: Some(code.to_owned()),
        attempts: if attempts < 5 {
            attempts + 1
        } else {
            6
        },
        next_poll: now + wait_after(attempts, 60000),
    }
}

/// When and how often a response is looked at again after an announcement: later and later while
/// nothing changes.
pub fn after_snapshot(same_revision: bool, attempts: u32, now: i64) -> (r: (u32, i64))
    requires
        now <= i64::MAX - 60000,
    ensures
        r.0 == if same_revision {
            counted(attempts as nat)
        } else {
            0
        },
        r.1 == now + 5000 + if same_revision {
            backoff(attempts as nat, 55000)
        } else {
            0
        },
{
    if same_revision {
        (
            if attempts < 5 {
                attempts + 1
            } else {
                6
            },
            now + 5000 + wait_after(attempts, 55000),
        )
    } else {
        (0, now + 5000)
    }
}

/// The earlier of two moments, where both are known.
pub open spec fn earlier(a: Option<i64>, b: Option<i64>) -> Option<i64> {
    match (a, b) {
        (Some(x), Some(y)) => Some(
            if x < y {
                x
            } else {
                y
            },
        ),
        (Some(x), None) => Some(x),
        (None, y) => y,
    }
}

/// The deadline of a watch, with one more limit.
pub fn tightened(deadline: Option<i64>, limit: Option<i64>) -> (r: Option<i64>)
    ensures
        r == earlier(deadline, limit),
{
    match (deadline, limit) {
        (Some(x), Some(y)) => Some(
            if x < y {
                x
            } else {
                y
            },
        ),
        (Some(x), None) => Some(x),
        (None, y) => y,
    }
}

/// The deadline that the end of a request sets.
pub fn settle_deadline(grace: u64, now: i64) -> (r: i64)
    requires
        1 <= grace <= 315360000,
    ensures
        r == if now + grace * 1000 > i64::MAX {
            i64::MAX as int
        } else {
            now + grace * 1000
        },
{
    let wait: i64 = (grace * 1000) as i64;
    if now > i64::MAX - wait {
        i64::MAX
    } else {
        now + wait
    }
}

/// A response that is watched.
#[derive(Debug)]
pub struct Watched {
    pub instance: String,
    pub generation: String,
    pub response: String,
    pub conversation: String,
    pub workspace: String,
}

/// Whether a watch belongs to the instance and generation that are bound.
pub fn check_watch(w: &Watched, instance: &str, generation: &str) -> (r: Result<(), &'static str>)
    ensures
        r is Ok <==> w.instance@ == instance@ && w.generation@ == generation@,
        r is Err ==> r->Err_0@ == "image recovery reconciliation required"@,
{
    if same(w.instance.as_str(), instance) && same(w.generation.as_str(), generation) {
        Ok(())
    } else {
        Err("image recovery reconciliation required")
    }
}

/// Whether an announcement is small enough to be read.
pub fn check_size(v: &Json) -> (r: Result<(), &'static str>)
    ensures
        r is Ok <==> compact(document(v@)).len() <= MAX_SNAPSHOT_BYTES,
        r is Err ==> r->Err_0@ == "image snapshot too large"@,
{
    if encode(v).len() <= MAX_SNAPSHOT_BYTES {
        Ok(())
    } else {
        Err("image snapshot too large")
    }
}

/// Whether an announcement is about the response that is watched.
pub fn poll_generated_images(s: &Snapshot, w: &Watched) -> (r: Result<(), &'static str>)
    ensures
        r is Ok <==> s@.response_id == w.response@ && s@.conversation_id == w.conversation@
            && s@.workspace_id == w.workspace@,
        r is Err ==> r->Err_0@ == "image source mismatch"@,
{
    if same(s.response_id.as_str(), w.response.as_str()) && same(
        s.conversation_id.as_str(),
        w.conversation.as_str(),
    ) && same(s.workspace_id.as_str(), w.workspace.as_str()) {
        Ok(())
    } else {
        Err("image source mismatch")
    }
}

/// Why an announcement is not stored.
pub open spec fn apply_objection(
    s: SnapshotView,
    w: Watched,
    previous: Option<SnapshotView>,
    instance: Seq<char>,
    generation: Seq<char>,
    recovering: bool,
    sound: bool,
) -> Option<Seq<char>> {
    if recovering {
        Some("recovery pending"@)
    } else if !(w.instance@ == instance && w.generation@ == generation && s.response_id
        == w.response@ && s.conversation_id == w.conversation@ && s.workspace_id == w.workspace@) {
        Some("image watch identity mismatch"@)
    } else {
        snapshot_objection(s, previous, sound)
    }
}

/// Whether an announcement is stored.
pub fn apply_image_snapshot(
    s: &Snapshot,
    w: &Watched,
    previous: Option<&Snapshot>,
    instance: &str,
    generation: &str,
    recovering: bool,
    sound: bool,
) -> (r: Result<(), String>)
    ensures
        match apply_objection(
            s@,
            *w,
            match previous {
                Some(p) => Some(p@),
                None => None,
            },
            instance@,
            generation@,
            recovering,
            sound,
        ) {
            None => r is Ok,
            Some(e) => r is Err && r->Err_0@ == e,
        },
{
    if recovering {
        return Err(String::from_str("recovery pending"));
    }
    if !(same(w.instance.as_str(), instance) && same(w.generation.as_str(), generation) && same(
        s.response_id.as_str(),
        w.response.as_str(),
    ) && same(s.conversation_id.as_str(), w.conversation.as_str()) && same(
        s.workspace_id.as_str(),
        w.workspace.as_str(),
    )) {
        return Err(String::from_str("image watch identity mismatch"));
    }
    s.validate(previous, sound)
}

/// How far the images of a response are.
#[derive(Debug)]
pub struct Progress {
    pub state: String,
    pub inventory: Option<String>,
    pub total: i64,
    pub ready: i64,
    pub delivered: i64,
    /// Whether the request ended some time ago.
    pub waiting_long: bool,
    /// Whether the delivery of an image failed.
    pub failed_delivery: bool,
}

/// What the user is told of the images of a response.
#[derive(Debug)]
pub enum ImageNotice {
    /// All is done: change the notice that stands, if one does.
    Done(String),
    /// Show or change the notice, perhaps twice.
    Show { waiting: Option<String>, trouble: Option<String> },
}

/// Whether all images are delivered.
pub open spec fn all_delivered(p: Progress) -> bool {
    opt_view(p.inventory) == Some("complete"@) && p.total == p.ready && p.ready == p.delivered
}

/// What is said once all images are delivered.
pub open spec fn done_text(total: i64) -> Seq<char> {
    if total == 0 {
        "画像の確認が終わりました。この回答に生成画像はありません。"@
    } else {
        "画像"@ + signed_decimal(total as int) + "件の配信を確認できました。"@
    }
}

/// What is said while images are on their way.
pub open spec fn waiting_text(p: Progress) -> Option<Seq<char>> {
    if p.state@ == "WATCHING"@ && (p.total > p.delivered || (opt_view(p.inventory) == Some(
        "pending"@,
    ) && p.waiting_long)) {
        if p.total > 0 {
            Some(
                "画像を準備・送信中です（"@ + signed_decimal(p.total as int) + "件中"@ + signed_decimal(
                    p.delivered as int,
                ) + "件配信済み）。もう少しお待ちください。"@,
            )
        } else {
            Some("画像の有無・準備状況を確認しています。もう少しお待ちください。"@)
        }
    } else {
        None
    }
}

/// What is said where images may be missing; `errors` are the messages of failed deliveries.
pub open spec fn trouble_text(p: Progress, errors: Seq<Seq<char>>) -> Option<Seq<char>> {
    let complete = opt_view(p.inventory) == Some("complete"@);
    if opt_view(p.inventory) == Some("unknown"@) || p.state@ == "TIMED_OUT"@ || p.state@ == "EXPIRED"@
        || p.state@ == "BLOCKED"@ || (complete && (p.ready < p.total || p.failed_delivery)) {
        let head = if complete {
            "画像"@ + signed_decimal(p.total as int) + "件中"@ + signed_decimal(p.delivered as int)
                + "件を配信済みです。一部の画像の登録・配信を確認できていません。AIは再実行していません。"@
        } else {
            "画像を"@ + signed_decimal(p.delivered as int)
                + "件配信済みです。画像の総件数・登録完了を確認できていません。AIは再実行していません。"@
        };
        Some(joined(seq![head] + errors, "\n"@))
    } else {
        None
    }
}

/// What the user is told of the images of a response.
pub fn image_progress(p: &Progress, errors: Vec<String>) -> (r: Option<ImageNotice>)
    ensures
        if all_delivered(*p) {
            r is Some && r->0 is Done && r->0->Done_0@ == done_text(p.total)
        } else if p.state@ == "UNSUPPORTED"@ || p.state@ == "DONE"@ {
            r is None
        } else {
            &&& r is Some
            &&& r->0 is Show
            &&& opt_view(r->0->waiting) == waiting_text(*p)
            &&& opt_view(r->0->trouble) == trouble_text(*p, views(errors@))
        },
{
    let inventory = borrowed(&p.inventory);
    let complete = some_same(inventory, "complete");
    let total = signed_text(p.total);
    let delivered = signed_text(p.delivered);
    if complete && p.total == p.ready && p.ready == p.delivered {
        return Some(
            ImageNotice::Done(
                if p.total == 0 {
                    String::from_str("画像の確認が終わりました。この回答に生成画像はありません。")
                } else {
                    String::from_str("画像").concat(total.as_str()).concat("件の配信を確認できました。")
                },
            ),
        );
    }
    let state = p.state.as_str();
    if same(state, "UNSUPPORTED") || same(state, "DONE") {
        return None;
    }
    let waiting = if same(state, "WATCHING") && (p.total > p.delivered || (some_same(
        inventory,
        "pending",
    ) && p.waiting_long)) {
        if p.total > 0 {
            Some(
                String::from_str("画像を準備・送信中です（").concat(total.as_str()).concat("件中").concat(
                    delivered.as_str(),
                ).concat("件配信済み）。もう少しお待ちください。"),
            )
        } else {
            Some(
                String::from_str("画像の有無・準備状況を確認しています。もう少しお待ちください。"),
            )
        }
    } else {
        None
    };
    let trouble = if some_same(inventory, "unknown") || same(state, "TIMED_OUT") || same(
        state,
        "EXPIRED",
    ) || same(state, "BLOCKED") || (complete && (p.ready < p.total || p.failed_delivery)) {
        let head = if complete {
            String::from_str("画像").concat(total.as_str()).concat("件中").concat(
                delivered.as_str(),
            ).concat(
                "件を配信済みです。一部の画像の登録・配信を確認できていません。AIは再実行していません。",
            )
        } else {
            String::from_str("画像を").concat(delivered.as_str()).concat(
                "件配信済みです。画像の総件数・登録完了を確認できていません。AIは再実行していません。",
            )
        };
        let mut lines: Vec<String> = Vec::new();
        let ghost first = head@;
        lines.push(head);
        let ghost all = views(errors@);
        assert(views(lines@) =~= seq![first] + all.take(0));
        let mut i: usize = 0;
        while i < errors.len()
            invariant
                i <= errors@.len(),
                all == views(errors@),
                views(lines@) == seq![first] + all.take(i as int),
            decreases errors@.len() - i,
        {
            let ghost before = views(lines@);
            assert(all[i as int] == errors@[i as int]@);
            lines.push(errors[i].clone());
            i += 1;
            assert(views(lines@) =~= before.push(all[i - 1]));
            assert(views(lines@) =~= seq![first] + all.take(i as int));
        }
        assert(all.take(all.len() as int) =~= all);
        Some(join(&lines, "\n"))
    } else {
        None
    };
    Some(ImageNotice::Show { waiting, trouble })
}

/// How much memory the decoding of an image may take.
pub open spec fn decode_memory(max_pixels: u64) -> u64 {
    if max_pixels * 8 < MAX_DECODE_BYTES {
        (max_pixels * 8) as u64
    } else {
        MAX_DECODE_BYTES
    }
}

/// Why a file is not an image that is delivered.
pub open spec fn png_objection(bytes: Seq<u8>, max_pixels: u64) -> Option<Seq<char>> {
    let size = picture_size(bytes, Picture::Png);
    if picture_format(bytes) is Err {
        Some(picture_format(bytes)->Err_0)
    } else if picture_format(bytes)->Ok_0 != Picture::Png {
        Some("PNG required"@)
    } else if size is Err {
        Some(size->Err_0)
    } else if !((size->Ok_0).0 > 0 && (size->Ok_0).1 > 0 && (size->Ok_0).0 * (size->Ok_0).1
        <= max_pixels) {
        Some("image dimensions exceeded"@)
    } else {
        png_fault(bytes, decode_memory(max_pixels))
    }
}

/// Whether what the header and the decoding of a file say makes it an image that is delivered.
pub fn judge_png(
    format: &Result<Picture, String>,
    size: &Result<(u32, u32), String>,
    fault: Option<String>,
    max_pixels: u64,
) -> (r: Result<(), String>)
    ensures
        ({
            let e = if *format is Err {
                Some((*format)->Err_0@)
            } else if (*format)->Ok_0 != Picture::Png {
                Some("PNG required"@)
            } else if *size is Err {
                Some((*size)->Err_0@)
            } else if !(((*size)->Ok_0).0 > 0 && ((*size)->Ok_0).1 > 0 && ((*size)->Ok_0).0 * (
            (*size)->Ok_0).1 <= max_pixels) {
                Some("image dimensions exceeded"@)
            } else {
                opt_view(fault)
            };
            match e {
                None => r is Ok,
                Some(e) => r is Err && r->Err_0@ == e,
            }
        }),
{
    match format {
        Err(e) => {
            return Err(e.clone());
        },
        Ok(Picture::Png) => {},
        Ok(_) => {
            return Err(String::from_str("PNG required"));
        },
    }
    let (w, h): (u32, u32) = match size {
        Err(e) => {
            return Err(e.clone());
        },
        Ok(s) => *s,
    };
    assert(w as int * h as int <= 0xffff_ffff * 0xffff_ffff) by (nonlinear_arith)
        requires
            0 <= w <= 0xffff_ffff,
            0 <= h <= 0xffff_ffff,
    ;
    if !(w > 0 && h > 0 && (w as u64) * (h as u64) <= max_pixels) {
        return Err(String::from_str("image dimensions exceeded"));
    }
    match fault {
        Some(e) => Err(e),
        None => Ok(()),
    }
}

/// Whether a file is an image that is delivered: a PNG of moderate size that decodes within a limit
/// of memory.
pub fn validate_png(bytes: &[u8], max_pixels: u64) -> (r: Result<(), String>)
    ensures
        match png_objection(bytes@, max_pixels) {
            None => r is Ok,
            Some(e) => r is Err && r->Err_0@ == e,
        },
{
    let format = guess_picture(bytes);
    let size = measure_picture(bytes, Picture::Png);
    match judge_png(&format, &size, None, max_pixels) {
        Err(e) => {
            return Err(e);
        },
        Ok(()) => {},
    }
    let memory: u64 = if max_pixels < MAX_DECODE_BYTES / 8 { max_pixels * 8 } else { MAX_DECODE_BYTES };
    judge_png(&format, &size, decode_png(bytes, memory), max_pixels)
}

} // verus!
