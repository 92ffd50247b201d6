//! Game UI values: on-screen keyboard states and kinds, background seasons, best-fit font
//! sizes and the record of text components waiting for machine translations.

use vstd::prelude::*;
use crate::fnv_maps::{component_map_entries, component_map_insert, component_map_remove, component_texts, new_component_map, ComponentMap};
use crate::fnv_maps::{new_object_set, object_members, object_set_clear, object_set_contains, object_set_insert, object_set_is_empty, ObjectSet};

verus! {

/// State of the on-screen keyboard.
#[derive(Clone, Copy, Debug, PartialEq, Eq, Structural)]
pub enum Status {
    Visible,
    Done,
    Canceled,
    LostFocus,
}

impl Status {
    pub open spec fn spec_value(self) -> int {
        match self {
            Status::Visible => 0,
            Status::Done => 1,
            Status::Canceled => 2,
            Status::LostFocus => 3,
        }
    }

    /// The keyboard state the engine's integer stands for, if any.
    pub fn from_value(v: i32) -> (r: Option<Status>)
        ensures forall|s: Status| r == Some(s) <==> s.spec_value() == v,
    {
        match v {
            0 => Some(Status::Visible),
            1 => Some(Status::Done),
            2 => Some(Status::Canceled),
            3 => Some(Status::LostFocus),
            _ => None,
        }
    }
}

/// Kind of on-screen keyboard to open.
#[derive(Clone, Copy, Debug, PartialEq, Eq, Structural)]
pub enum TouchScreenKeyboardType {
    Default,
    ASCIICapable,
    NumbersAndPunctuation,
    URL,
    NumberPad,
    PhonePad,
    NamePhonePad,
    EmailAddress,
    NintendoNetworkAccount,
    Social,
    Search,
    DecimalPad,
    OneTimeCode,
}

impl TouchScreenKeyboardType {
    pub open spec fn spec_value(self) -> int {
        match self {
            TouchScreenKeyboardType::Default => 0,
            TouchScreenKeyboardType::ASCIICapable => 1,
            TouchScreenKeyboardType::NumbersAndPunctuation => 2,
            TouchScreenKeyboardType::URL => 3,
            TouchScreenKeyboardType::NumberPad => 4,
            TouchScreenKeyboardType::PhonePad => 5,
            TouchScreenKeyboardType::NamePhonePad => 6,
            TouchScreenKeyboardType::EmailAddress => 7,
            TouchScreenKeyboardType::NintendoNetworkAccount => 8,
            TouchScreenKeyboardType::Social => 9,
            TouchScreenKeyboardType::Search => 10,
            TouchScreenKeyboardType::DecimalPad => 11,
            TouchScreenKeyboardType::OneTimeCode => 12,
        }
    }

    /// The integer the engine uses for this keyboard kind.
    pub fn value(self) -> (v: i32)
        ensures v == self.spec_value(),
    {
        match self {
            TouchScreenKeyboardType::Default => 0,
            TouchScreenKeyboardType::ASCIICapable => 1,
            TouchScreenKeyboardType::NumbersAndPunctuation => 2,
            TouchScreenKeyboardType::URL => 3,
            TouchScreenKeyboardType::NumberPad => 4,
            TouchScreenKeyboardType::PhonePad => 5,
            TouchScreenKeyboardType::NamePhonePad => 6,
            TouchScreenKeyboardType::EmailAddress => 7,
            TouchScreenKeyboardType::NintendoNetworkAccount => 8,
            TouchScreenKeyboardType::Social => 9,
            TouchScreenKeyboardType::Search => 10,
            TouchScreenKeyboardType::DecimalPad => 11,
            TouchScreenKeyboardType::OneTimeCode => 12,
        }
    }
}

/// Season shown in the game's home background.
#[derive(Clone, Copy, Debug, PartialEq, Eq, Structural)]
pub enum BgSeason {
    NoSeason,
    Spring,
    Summer,
    Fall,
    Winter,
    CherryBlossom,
}

impl Default for BgSeason {
    fn default() -> (r: Self)
        ensures r == BgSeason::NoSeason,
    {
        BgSeason::NoSeason
    }
}

impl BgSeason {
    pub open spec fn spec_value(self) -> int {
        match self {
            BgSeason::NoSeason => 0,
            BgSeason::Spring => 1,
            BgSeason::Summer => 2,
            BgSeason::Fall => 3,
            BgSeason::Winter => 4,
            BgSeason::CherryBlossom => 5,
        }
    }

    /// The integer the game uses for this season.
    pub fn value(self) -> (v: i32)
        ensures v == self.spec_value(),
    {
        match self {
            BgSeason::NoSeason => 0,
            BgSeason::Spring => 1,
            BgSeason::Summer => 2,
            BgSeason::Fall => 3,
            BgSeason::Winter => 4,
            BgSeason::CherryBlossom => 5,
        }
    }

    /// The season the game's integer stands for, if any.
    pub fn from_value(v: i32) -> (r: Option<BgSeason>)
        ensures forall|s: BgSeason| r == Some(s) <==> s.spec_value() == v,
    {
        match v {
            0 => Some(BgSeason::NoSeason),
            1 => Some(BgSeason::Spring),
            2 => Some(BgSeason::Summer),
            3 => Some(BgSeason::Fall),
            4 => Some(BgSeason::Winter),
            5 => Some(BgSeason::CherryBlossom),
            _ => None,
        }
    }

    /// Whether this season comes before `other` in the game's order.
    pub fn is_before(self, other: BgSeason) -> (r: bool)
        ensures r == (self.spec_value() < other.spec_value()),
    {
        self.value() < other.value()
    }
}

/// Font sizes that best-fit resizing of a text may use.
#[derive(Clone, Copy, Debug, PartialEq, Eq, Structural)]
pub struct BestFitSizes {
    pub min_size: i32,
    pub max_size: i32,
}

/// Best-fit sizes that let a text of font size `cur_size` shrink down to size 10 (or its
/// own size, when smaller) and never grow.
pub fn set_best_fit_downscale(cur_size: i32) -> (r: BestFitSizes)
    ensures
        r.min_size == (if cur_size < 10 { cur_size } else { 10 }),
        r.max_size == cur_size,
        r.min_size <= r.max_size,
{
    let min_size = if cur_size < 10 { cur_size } else { 10 };
    BestFitSizes { min_size, max_size: cur_size }
}

/// Text components whose text may still be replaced by a machine translation: each
/// component with the original text it shows.
pub struct TextTracker {
    pub entries: ComponentMap,
}

/// Whether `entries` lists the map `m`: each entry once, with its text.
pub open spec fn lists_components(entries: Seq<(usize, String)>, m: Map<usize, Seq<char>>) -> bool {
    &&& forall|i: int| 0 <= i < entries.len() ==> #[trigger] m.contains_key(entries[i].0) && m[entries[i].0] == entries[i].1@
    &&& forall|i: int, j: int| 0 <= i < j < entries.len() ==> #[trigger] entries[i].0 != #[trigger] entries[j].0
    &&& forall|k: usize| #[trigger] m.contains_key(k) ==> exists|i: int| 0 <= i < entries.len() && entries[i].0 == k
}

/// Updates for translation number `c`, whose original is `original`, from the first `j`
/// listed components that show it: component and translation number.
pub open spec fn updates_for(entries: Seq<(usize, String)>, original: Seq<char>, c: int, j: int) -> Seq<(usize, usize)>
    decreases j,
{
    if j <= 0 {
        Seq::empty()
    } else if entries[j - 1].1@ == original {
        updates_for(entries, original, c, j - 1).push((entries[j - 1].0, c as usize))
    } else {
        updates_for(entries, original, c, j - 1)
    }
}

/// Updates for the first `c` finished translations, translation by translation.
pub open spec fn all_updates(entries: Seq<(usize, String)>, completed: Seq<(String, String)>, c: int) -> Seq<(usize, usize)>
    decreases c,
{
    if c <= 0 {
        Seq::empty()
    } else {
        all_updates(entries, completed, c - 1) + updates_for(entries, completed[c - 1].0@, c - 1, entries.len() as int)
    }
}

/// Whether component `k` shows the original of finished translation `c`.
pub open spec fn is_update(m: Map<usize, Seq<char>>, completed: Seq<(String, String)>, k: usize, c: usize) -> bool {
    c < completed.len() && m.contains_key(k) && m[k] == completed[c as int].0@
}

proof fn lemma_updates_for(entries: Seq<(usize, String)>, original: Seq<char>, c: int, j: int)
    requires
        0 <= j <= entries.len(),
        0 <= c <= usize::MAX,
        forall|a: int, b: int| 0 <= a < b < entries.len() ==> #[trigger] entries[a].0 != #[trigger] entries[b].0,
    ensures
        forall|x: (usize, usize)| #[trigger] updates_for(entries, original, c, j).contains(x)
            <==> (x.1 == c && exists|i: int| 0 <= i < j && #[trigger] entries[i].0 == x.0 && entries[i].1@ == original),
        updates_for(entries, original, c, j).no_duplicates(),
        forall|i: int| 0 <= i < updates_for(entries, original, c, j).len() ==> (#[trigger] updates_for(entries, original, c, j)[i]).1 == c,
    decreases j,
{
    if j > 0 {
        lemma_updates_for(entries, original, c, j - 1);
        let prev = updates_for(entries, original, c, j - 1);
        let cur = updates_for(entries, original, c, j);
        if entries[j - 1].1@ == original {
            let y = (entries[j - 1].0, c as usize);
            assert(cur == prev.push(y));
            assert forall|x: (usize, usize)| #[trigger] cur.contains(x)
                <==> (x.1 == c && exists|i: int| 0 <= i < j && #[trigger] entries[i].0 == x.0 && entries[i].1@ == original) by {
                if cur.contains(x) {
                    let p = choose|p: int| 0 <= p < cur.len() && #[trigger] cur[p] == x;
                    if p < prev.len() {
                        assert(prev.contains(x));
                    } else {
                        assert(x == y);
                    }
                }
                if x.1 == c && exists|i: int| 0 <= i < j && #[trigger] entries[i].0 == x.0 && entries[i].1@ == original {
                    let i = choose|i: int| 0 <= i < j && #[trigger] entries[i].0 == x.0 && entries[i].1@ == original;
                    if i < j - 1 {
                        assert(prev.contains(x));
                        let p = choose|p: int| 0 <= p < prev.len() && #[trigger] prev[p] == x;
                        assert(cur[p] == x);
                    } else {
                        assert(cur[prev.len() as int] == x);
                    }
                }
            }
            assert forall|a: int, b: int| 0 <= a < cur.len() && 0 <= b < cur.len() && a != b implies cur[a] != cur[b] by {
                if a < prev.len() && b < prev.len() {
                    assert(prev[a] != prev[b]);
                } else if a < prev.len() {
                    assert(prev.contains(prev[a]));
                    let i = choose|i: int| 0 <= i < j - 1 && #[trigger] entries[i].0 == prev[a].0 && entries[i].1@ == original;
                    assert(entries[i].0 != entries[j - 1].0);
                } else {
                    assert(prev.contains(prev[b]));
                    let i = choose|i: int| 0 <= i < j - 1 && #[trigger] entries[i].0 == prev[b].0 && entries[i].1@ == original;
                    assert(entries[i].0 != entries[j - 1].0);
                }
            }
        } else {
            assert(cur == prev);
            assert forall|x: (usize, usize)| #[trigger] cur.contains(x)
                <==> (x.1 == c && exists|i: int| 0 <= i < j && #[trigger] entries[i].0 == x.0 && entries[i].1@ == original) by {
                if x.1 == c && exists|i: int| 0 <= i < j && #[trigger] entries[i].0 == x.0 && entries[i].1@ == original {
                    let i = choose|i: int| 0 <= i < j && #[trigger] entries[i].0 == x.0 && entries[i].1@ == original;
                    assert(i != j - 1);
                }
            }
        }
    }
}

proof fn lemma_all_updates(entries: Seq<(usize, String)>, completed: Seq<(String, String)>, c: int)
    requires
        0 <= c <= completed.len(),
        completed.len() <= usize::MAX,
        forall|a: int, b: int| 0 <= a < b < entries.len() ==> #[trigger] entries[a].0 != #[trigger] entries[b].0,
    ensures
        forall|x: (usize, usize)| #[trigger] all_updates(entries, completed, c).contains(x)
            <==> (x.1 < c && exists|i: int| 0 <= i < entries.len() && #[trigger] entries[i].0 == x.0
                && entries[i].1@ == completed[x.1 as int].0@),
        all_updates(entries, completed, c).no_duplicates(),
        forall|i: int, j: int| 0 <= i < j < all_updates(entries, completed, c).len()
            ==> (#[trigger] all_updates(entries, completed, c)[i]).1 <= (#[trigger] all_updates(entries, completed, c)[j]).1,
        forall|i: int| 0 <= i < all_updates(entries, completed, c).len() ==> (#[trigger] all_updates(entries, completed, c)[i]).1 < c,
    decreases c,
{
    if c > 0 {
        lemma_all_updates(entries, completed, c - 1);
        let n = entries.len() as int;
        lemma_updates_for(entries, completed[c - 1].0@, c - 1, n);
        let prev = all_updates(entries, completed, c - 1);
        let blk = updates_for(entries, completed[c - 1].0@, c - 1, n);
        let cur = all_updates(entries, completed, c);
        assert(cur == prev + blk);
        assert forall|x: (usize, usize)| #[trigger] cur.contains(x)
            <==> (x.1 < c && exists|i: int| 0 <= i < entries.len() && #[trigger] entries[i].0 == x.0
                && entries[i].1@ == completed[x.1 as int].0@) by {
            if cur.contains(x) {
                let p = choose|p: int| 0 <= p < cur.len() && #[trigger] cur[p] == x;
                if p < prev.len() {
                    assert(prev.contains(x));
                } else {
                    assert(blk[p - prev.len()] == x);
                    assert(blk.contains(x));
                }
            }
            if x.1 < c && exists|i: int| 0 <= i < entries.len() && #[trigger] entries[i].0 == x.0
                && entries[i].1@ == completed[x.1 as int].0@ {
                if x.1 < c - 1 {
                    assert(prev.contains(x));
                    let p = choose|p: int| 0 <= p < prev.len() && #[trigger] prev[p] == x;
                    assert(cur[p] == x);
                } else {
                    assert(blk.contains(x));
                    let p = choose|p: int| 0 <= p < blk.len() && #[trigger] blk[p] == x;
                    assert(cur[prev.len() + p] == x);
                }
            }
        }
        assert forall|a: int, b: int| 0 <= a < cur.len() && 0 <= b < cur.len() && a != b implies cur[a] != cur[b] by {
            if a < prev.len() && b < prev.len() {
                assert(prev[a] != prev[b]);
            } else if a >= prev.len() && b >= prev.len() {
                assert(blk[a - prev.len()] != blk[b - prev.len()]);
            } else if a < prev.len() {
                assert(prev[a].1 < c - 1);
                assert(blk[b - prev.len()].1 == c - 1);
            } else {
                assert(prev[b].1 < c - 1);
                assert(blk[a - prev.len()].1 == c - 1);
            }
        }
        assert forall|i: int, j: int| 0 <= i < j < cur.len() implies (#[trigger] cur[i]).1 <= (#[trigger] cur[j]).1 by {
            if j < prev.len() {
                assert(prev[i].1 <= prev[j].1);
            } else if i >= prev.len() {
                assert(blk[i - prev.len()].1 == c - 1);
                assert(blk[j - prev.len()].1 == c - 1);
            } else {
                assert(prev[i].1 < c - 1);
                assert(blk[j - prev.len()].1 == c - 1);
            }
        }
        assert forall|i: int| 0 <= i < cur.len() implies (#[trigger] cur[i]).1 < c by {
            if i < prev.len() {
                assert(prev[i].1 < c - 1);
            } else {
                assert(blk[i - prev.len()].1 == c - 1);
            }
        }
    }
}

impl TextTracker {
    /// Nothing tracked.
    pub fn new() -> (r: Self)
        ensures component_texts(r.entries) =~= Map::empty(),
    {
        TextTracker { entries: new_component_map() }
    }

    /// Records that `component` now shows `original`, replacing what was recorded for it.
    pub fn track(&mut self, component: usize, original: String)
        ensures component_texts(final(self).entries) == component_texts(old(self).entries).insert(component, original@),
    {
        component_map_insert(&mut self.entries, component, original);
    }

    /// Applies finished translations: first forgets the components in `dead` (those whose
    /// engine object is gone), then answers, translation by translation, the components
    /// that show its original, as pairs of component and translation number. Within one
    /// translation the components come in the map's own order, which is left unsaid.
    pub fn apply_translations(&mut self, dead: &Vec<usize>, completed: &Vec<(String, String)>) -> (r: Vec<(usize, usize)>)
        ensures
            component_texts(final(self).entries) == component_texts(old(self).entries).remove_keys(dead@.to_set()),
            forall|x: (usize, usize)| #[trigger] r@.contains(x) <==> is_update(component_texts(final(self).entries), completed@, x.0, x.1),
            r@.no_duplicates(),
            forall|i: int, j: int| 0 <= i < j < r@.len() ==> (#[trigger] r@[i]).1 <= (#[trigger] r@[j]).1,
    {
        let mut d: usize = 0;
        while d < dead.len()
            invariant
                d <= dead@.len(),
                component_texts(self.entries) == component_texts(old(self).entries).remove_keys(dead@.take(d as int).to_set()),
            decreases dead.len() - d,
        {
            let ghost prev = component_texts(self.entries);
            component_map_remove(&mut self.entries, dead[d]);
            proof {
                assert(dead@.take(d + 1).to_set() =~= dead@.take(d as int).to_set().insert(dead@[d as int])) by {
                    assert(dead@.take(d + 1) == dead@.take(d as int).push(dead@[d as int]));
                    assert forall|x: usize| dead@.take(d + 1).to_set().contains(x)
                        <==> dead@.take(d as int).to_set().insert(dead@[d as int]).contains(x) by {
                        if dead@.take(d + 1).contains(x) {
                            let p = choose|p: int| 0 <= p < d + 1 && #[trigger] dead@.take(d + 1)[p] == x;
                            if p < d {
                                assert(dead@.take(d as int)[p] == x);
                            }
                        }
                        if dead@.take(d as int).contains(x) {
                            let p = choose|p: int| 0 <= p < d && #[trigger] dead@.take(d as int)[p] == x;
                            assert(dead@.take(d + 1)[p] == x);
                        }
                        if x == dead@[d as int] {
                            assert(dead@.take(d + 1)[d as int] == x);
                        }
                    }
                }
                assert(component_texts(self.entries) =~= component_texts(old(self).entries).remove_keys(dead@.take(d + 1).to_set()));
            }
            d = d + 1;
        }
        proof {
            assert(dead@.take(dead@.len() as int) == dead@);
        }
        let entries = component_map_entries(&self.entries);
        let ghost m = component_texts(self.entries);
        let mut out: Vec<(usize, usize)> = Vec::new();
        let mut c: usize = 0;
        while c < completed.len()
            invariant
                c <= completed@.len(),
                lists_components(entries@, m),
                out@ == all_updates(entries@, completed@, c as int),
            decreases completed.len() - c,
        {
            let ghost base = out@;
            let mut j: usize = 0;
            while j < entries.len()
                invariant
                    c < completed@.len(),
                    j <= entries@.len(),
                    base == all_updates(entries@, completed@, c as int),
                    out@ == base + updates_for(entries@, completed@[c as int].0@, c as int, j as int),
                decreases entries.len() - j,
            {
                if crate::text::str_equal(entries[j].1.as_str(), completed[c].0.as_str()) {
                    out.push((entries[j].0, c));
                    proof {
                        assert(base + updates_for(entries@, completed@[c as int].0@, c as int, j + 1)
                            == (base + updates_for(entries@, completed@[c as int].0@, c as int, j as int)).push(
                            (entries@[j as int].0, c)));
                    }
                }
                j = j + 1;
            }
            c = c + 1;
        }
        proof {
            assert(completed@.len() <= usize::MAX);
            lemma_all_updates(entries@, completed@, completed@.len() as int);
            let r = out@;
            assert forall|x: (usize, usize)| #[trigger] r.contains(x) <==> is_update(m, completed@, x.0, x.1) by {
                if r.contains(x) {
                    let i = choose|i: int| 0 <= i < entries@.len() && #[trigger] entries@[i].0 == x.0
                        && entries@[i].1@ == completed@[x.1 as int].0@;
                    assert(m.contains_key(entries@[i].0));
                }
                if is_update(m, completed@, x.0, x.1) {
                    let i = choose|i: int| 0 <= i < entries@.len() && #[trigger] entries@[i].0 == x.0;
                    assert(m.contains_key(entries@[i].0));
                }
            }
        }
        out
    }
}

/// Game interface objects hidden by the overlay's "hide game UI" toggle.
pub struct GameUiToggle {
    pub disabled: ObjectSet,
}

/// What toggling does for the objects `objects` (each with whether it is shown now): with
/// nothing hidden, hide the shown ones and remember them; otherwise show again the
/// remembered ones among `objects` and forget all. Answers each object to change with
/// whether to show it.
pub open spec fn toggle_commands(disabled: Set<usize>, objects: Seq<(usize, bool)>, i: int) -> Seq<(usize, bool)>
    decreases i,
{
    if i <= 0 {
        Seq::empty()
    } else {
        let prev = toggle_commands(disabled, objects, i - 1);
        let (id, shown) = objects[i - 1];
        if disabled == Set::<usize>::empty() {
            if shown { prev.push((id, false)) } else { prev }
        } else if disabled.contains(id) {
            prev.push((id, true))
        } else {
            prev
        }
    }
}

/// The objects that commands change.
pub open spec fn command_ids(cmds: Seq<(usize, bool)>) -> Seq<usize> {
    cmds.map_values(|c: (usize, bool)| c.0)
}

/// The same objects, each to be shown.
pub open spec fn show_all(cmds: Seq<(usize, bool)>) -> Seq<(usize, bool)> {
    cmds.map_values(|c: (usize, bool)| (c.0, true))
}

impl GameUiToggle {
    pub fn new() -> (r: Self)
        ensures object_members(r.disabled) == Set::<usize>::empty(),
    {
        GameUiToggle { disabled: new_object_set() }
    }

    /// Hides the shown game interface, or shows again what was hidden.
    pub fn toggle_game_ui(&mut self, objects: &Vec<(usize, bool)>) -> (r: Vec<(usize, bool)>)
        ensures
            r@ == toggle_commands(object_members(old(self).disabled), objects@, objects@.len() as int),
            object_members(old(self).disabled) == Set::<usize>::empty()
                ==> object_members(final(self).disabled) == command_ids(r@).to_set(),
            object_members(old(self).disabled) != Set::<usize>::empty()
                ==> object_members(final(self).disabled) == Set::<usize>::empty(),
    {
        let hiding = object_set_is_empty(&self.disabled);
        let ghost before = object_members(self.disabled);
        let mut out: Vec<(usize, bool)> = Vec::new();
        let mut i: usize = 0;
        proof {
            assert(command_ids(out@).to_set() =~= Set::<usize>::empty());
        }
        while i < objects.len()
            invariant
                i <= objects@.len(),
                hiding == (before == Set::<usize>::empty()),
                out@ == toggle_commands(before, objects@, i as int),
                hiding ==> object_members(self.disabled) == command_ids(out@).to_set(),
                !hiding ==> object_members(self.disabled) == before,
            decreases objects.len() - i,
        {
            let (id, shown) = objects[i];
            if hiding {
                if shown {
                    let ghost old_out = out@;
                    out.push((id, false));
                    object_set_insert(&mut self.disabled, id);
                    proof {
                        let a = command_ids(old_out);
                        let b = command_ids(out@);
                        assert(b == a.push(id));
                        assert forall|x: usize| b.contains(x) <==> a.contains(x) || x == id by {
                            if b.contains(x) {
                                let k = choose|k: int| 0 <= k < b.len() && b[k] == x;
                                if k < a.len() {
                                    assert(a[k] == x);
                                }
                            }
                            if a.contains(x) {
                                let k = choose|k: int| 0 <= k < a.len() && a[k] == x;
                                assert(b[k] == x);
                            }
                            if x == id {
                                assert(b[a.len() as int] == x);
                            }
                        }
                        assert(b.to_set() =~= a.to_set().insert(id));
                    }
                }
            } else if object_set_contains(&self.disabled, id) {
                out.push((id, true));
            }
            i = i + 1;
        }
        if !hiding {
            object_set_clear(&mut self.disabled);
        }
        out
    }
}

proof fn lemma_hidden_members(objects: Seq<(usize, bool)>, i: int)
    requires 0 <= i <= objects.len(),
    ensures
        forall|id: usize| #[trigger] command_ids(toggle_commands(Set::empty(), objects, i)).contains(id)
            <==> exists|k: int| 0 <= k < i && #[trigger] objects[k] == (id, true),
    decreases i,
{
    if i > 0 {
        lemma_hidden_members(objects, i - 1);
        let prev = toggle_commands(Set::empty(), objects, i - 1);
        let cur = toggle_commands(Set::empty(), objects, i);
        let pm = command_ids(prev);
        let cm = command_ids(cur);
        assert forall|id: usize| #[trigger] cm.contains(id) <==> exists|k: int| 0 <= k < i && #[trigger] objects[k] == (id, true) by {
            if objects[i - 1].1 {
                assert(cur == prev.push((objects[i - 1].0, false)));
                assert(cm == pm.push(objects[i - 1].0));
                if cm.contains(id) {
                    let x = choose|x: int| 0 <= x < cm.len() && cm[x] == id;
                    if x < pm.len() {
                        assert(pm[x] == id);
                        assert(pm.contains(id));
                    } else {
                        assert(objects[i - 1] == (id, true));
                    }
                }
                if exists|k: int| 0 <= k < i && #[trigger] objects[k] == (id, true) {
                    let k = choose|k: int| 0 <= k < i && #[trigger] objects[k] == (id, true);
                    if k < i - 1 {
                        assert(pm.contains(id));
                        let x = choose|x: int| 0 <= x < pm.len() && pm[x] == id;
                        assert(cm[x] == id);
                    } else {
                        assert(cm[pm.len() as int] == id);
                    }
                }
            } else {
                assert(cur == prev);
                if exists|k: int| 0 <= k < i && #[trigger] objects[k] == (id, true) {
                    let k = choose|k: int| 0 <= k < i && #[trigger] objects[k] == (id, true);
                    assert(k != i - 1);
                }
            }
        }
    } else {
        assert(command_ids(toggle_commands(Set::empty(), objects, 0)) =~= Seq::<usize>::empty());
    }
}

proof fn lemma_show_again(objects: Seq<(usize, bool)>, hidden: Set<usize>, i: int)
    requires
        0 <= i <= objects.len(),
        hidden != Set::<usize>::empty(),
        forall|a: int, b: int| 0 <= a < b < objects.len() ==> (#[trigger] objects[a]).0 != (#[trigger] objects[b]).0,
        forall|id: usize| #[trigger] hidden.contains(id) <==> exists|k: int| 0 <= k < objects.len() && #[trigger] objects[k] == (id, true),
    ensures
        toggle_commands(hidden, objects, i) == show_all(toggle_commands(Set::empty(), objects, i)),
    decreases i,
{
    if i > 0 {
        lemma_show_again(objects, hidden, i - 1);
        let (id, shown) = objects[i - 1];
        if hidden.contains(id) {
            let k = choose|k: int| 0 <= k < objects.len() && #[trigger] objects[k] == (id, true);
            if k != i - 1 {
                if k < i - 1 {
                    assert(objects[k].0 != objects[i - 1].0);
                } else {
                    assert(objects[i - 1].0 != objects[k].0);
                }
            }
            assert(shown);
        } else {
            if shown {
                assert(objects[i - 1] == (id, true));
            }
        }
        let e = toggle_commands(Set::<usize>::empty(), objects, i - 1);
        if shown {
            assert(toggle_commands(Set::empty(), objects, i) == e.push((id, false)));
            assert(show_all(e.push((id, false))) =~= show_all(e).push((id, true)));
        } else {
            assert(toggle_commands(Set::empty(), objects, i) == e);
        }
    } else {
        assert(show_all(toggle_commands(Set::empty(), objects, 0)) =~= Seq::<(usize, bool)>::empty());
    }
}

/// Toggling the game interface twice over the same objects (each object once) shows again
/// exactly what the first toggle hid.
pub proof fn law_toggle_round_trip(objects: Seq<(usize, bool)>)
    requires
        forall|a: int, b: int| 0 <= a < b < objects.len() ==> (#[trigger] objects[a]).0 != (#[trigger] objects[b]).0,
        toggle_commands(Set::empty(), objects, objects.len() as int).len() > 0,
    ensures
        toggle_commands(command_ids(toggle_commands(Set::empty(), objects, objects.len() as int)).to_set(), objects, objects.len() as int)
            == show_all(toggle_commands(Set::empty(), objects, objects.len() as int)),
{
    let n = objects.len() as int;
    lemma_hidden_members(objects, n);
    let ids = command_ids(toggle_commands(Set::empty(), objects, n));
    let hidden = ids.to_set();
    assert(hidden.contains(ids[0]));
    assert forall|id: usize| #[trigger] hidden.contains(id)
        <==> exists|k: int| 0 <= k < objects.len() && #[trigger] objects[k] == (id, true) by {
        assert(hidden.contains(id) == ids.contains(id));
    }
    lemma_show_again(objects, hidden, n);
}

} // verus!
