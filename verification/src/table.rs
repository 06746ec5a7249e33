//! A table of antennas keyed by station name and kept in name order: the
//! behaviour of a sorted map from names to positions.

use vstd::prelude::*;

use crate::names::{
    compare_names, lemma_name_lt_irreflexive, lemma_name_lt_total, lemma_name_lt_transitive,
    name_lt, names_equal, NameOrder,
};

verus! {

/// An earth-fixed station position. Each coordinate is in units of 10⁻⁸ m
/// (ten nanometres), so that every surveyed coordinate is held exactly.
#[derive(Clone, Copy, Debug, PartialEq, Eq, Structural)]
pub struct Position {
    pub x: i64,
    pub y: i64,
    pub z: i64,
}

/// How many units of a `Position` coordinate make one metre.
pub const POSITION_UNITS_PER_METRE: i64 = 100_000_000;

/// One station of an array.
pub struct Antenna {
    pub name: String,
    pub position: Position,
}

/// Stations keyed by name. Names are unique and kept in increasing order, so
/// iterating the table walks the stations in name order.
pub struct AntennaTable {
    antennas: Vec<Antenna>,
}

/// The abstract content of a table: (name, position) pairs in walking order.
pub open spec fn antenna_view(a: Antenna) -> (Seq<char>, Position) {
    (a.name@, a.position)
}

impl View for AntennaTable {
    type V = Seq<(Seq<char>, Position)>;

    closed spec fn view(&self) -> Seq<(Seq<char>, Position)> {
        self.antennas@.map_values(|a: Antenna| antenna_view(a))
    }
}

/// Names strictly increase along the sequence (so no name occurs twice).
pub open spec fn names_increasing(s: Seq<(Seq<char>, Position)>) -> bool {
    forall|i: int, j: int| 0 <= i < j < s.len() ==> name_lt(#[trigger] s[i].0, #[trigger] s[j].0)
}

/// The number of leading entries whose names come before `name`: where a
/// station of that name stands, or would stand, in a sorted table.
pub open spec fn insertion_point(s: Seq<(Seq<char>, Position)>, name: Seq<char>) -> int
    decreases s.len(),
{
    if s.len() == 0 {
        0
    } else if name_lt(s[0].0, name) {
        1 + insertion_point(s.drop_first(), name)
    } else {
        0
    }
}

/// The table after setting the position of `name`: an entry of that name takes
/// the new position in place, otherwise the pair goes in before the first
/// entry whose name does not come before `name`.
pub open spec fn insert_entry(s: Seq<(Seq<char>, Position)>, name: Seq<char>, position: Position) -> Seq<(Seq<char>, Position)>
    decreases s.len(),
{
    if s.len() == 0 {
        seq![(name, position)]
    } else if name_lt(s[0].0, name) {
        seq![s[0]] + insert_entry(s.drop_first(), name, position)
    } else if s[0].0 == name {
        seq![(name, position)] + s.drop_first()
    } else {
        seq![(name, position)] + s
    }
}

/// The position stored under `name`, if any (the first entry of that name).
pub open spec fn lookup(s: Seq<(Seq<char>, Position)>, name: Seq<char>) -> Option<Position>
    decreases s.len(),
{
    if s.len() == 0 {
        None
    } else if s[0].0 == name {
        Some(s[0].1)
    } else {
        lookup(s.drop_first(), name)
    }
}

/// The table built from `entries` one after the other, as a sorted map is
/// built from a list of pairs.
pub open spec fn table_of(entries: Seq<(&str, Position)>) -> Seq<(Seq<char>, Position)>
    decreases entries.len(),
{
    if entries.len() == 0 {
        seq![]
    } else {
        insert_entry(table_of(entries.drop_last()), entries.last().0@, entries.last().1)
    }
}

/// The position given last to `name` in `entries`, if any.
pub open spec fn last_given(entries: Seq<(&str, Position)>, name: Seq<char>) -> Option<Position>
    decreases entries.len(),
{
    if entries.len() == 0 {
        None
    } else if entries.last().0@ == name {
        Some(entries.last().1)
    } else {
        last_given(entries.drop_last(), name)
    }
}

/// Facts that pin down the insertion point.
proof fn lemma_insertion_point(s: Seq<(Seq<char>, Position)>, name: Seq<char>)
    ensures
        0 <= insertion_point(s, name) <= s.len(),
        forall|j: int| 0 <= j < insertion_point(s, name) ==> name_lt(#[trigger] s[j].0, name),
        insertion_point(s, name) < s.len() ==> !name_lt(s[insertion_point(s, name)].0, name),
    decreases s.len(),
{
    if s.len() > 0 && name_lt(s[0].0, name) {
        lemma_insertion_point(s.drop_first(), name);
        assert forall|j: int| 0 <= j < insertion_point(s, name) implies name_lt(
            #[trigger] s[j].0,
            name,
        ) by {
            if j > 0 {
                assert(s[j] == s.drop_first()[j - 1]);
            }
        }
    }
}

/// Setting a position either overwrites the entry at the insertion point or
/// inserts a new entry there.
proof fn lemma_insert_entry_shape(s: Seq<(Seq<char>, Position)>, name: Seq<char>, position: Position)
    ensures
        ({
            let i = insertion_point(s, name);
            insert_entry(s, name, position) == if i < s.len() && s[i].0 == name {
                s.update(i, (name, position))
            } else {
                s.insert(i, (name, position))
            }
        }),
    decreases s.len(),
{
    if s.len() == 0 {
        assert(s.insert(0, (name, position)) =~= seq![(name, position)]);
    } else if name_lt(s[0].0, name) {
        let t = s.drop_first();
        lemma_insert_entry_shape(t, name, position);
        lemma_insertion_point(t, name);
        let i = insertion_point(t, name);
        if i < t.len() && t[i].0 == name {
            assert(seq![s[0]] + t.update(i, (name, position)) =~= s.update(i + 1, (name, position)));
        } else {
            assert(seq![s[0]] + t.insert(i, (name, position)) =~= s.insert(i + 1, (name, position)));
        }
    } else if s[0].0 == name {
        assert(seq![(name, position)] + s.drop_first() =~= s.update(0, (name, position)));
    } else {
        assert(seq![(name, position)] + s =~= s.insert(0, (name, position)));
    }
}

/// Setting a position keeps the names strictly increasing.
pub proof fn lemma_insert_keeps_order(s: Seq<(Seq<char>, Position)>, name: Seq<char>, position: Position)
    requires
        names_increasing(s),
    ensures
        names_increasing(insert_entry(s, name, position)),
{
    lemma_insertion_point(s, name);
    lemma_insert_entry_shape(s, name, position);
    let i = insertion_point(s, name);
    let r = insert_entry(s, name, position);
    if i < s.len() && s[i].0 == name {
        assert forall|a: int, b: int| 0 <= a < b < r.len() implies name_lt(
            #[trigger] r[a].0,
            #[trigger] r[b].0,
        ) by {
            assert(r[a].0 == s[a].0);
            assert(r[b].0 == s[b].0);
        }
    } else {
        if i < s.len() {
            lemma_name_lt_total(s[i].0, name);
        }
        assert forall|a: int, b: int| 0 <= a < b < r.len() implies name_lt(
            #[trigger] r[a].0,
            #[trigger] r[b].0,
        ) by {
            if b < i {
                assert(r[a] == s[a] && r[b] == s[b]);
            } else if b == i {
                assert(r[a] == s[a]);
            } else if a < i {
                assert(r[a] == s[a] && r[b] == s[b - 1]);
                if b - 1 > i {
                    assert(name_lt(s[i].0, s[b - 1].0));
                    lemma_name_lt_transitive(name, s[i].0, s[b - 1].0);
                }
                lemma_name_lt_transitive(s[a].0, name, s[b - 1].0);
            } else if a == i {
                assert(r[b] == s[b - 1]);
                if b - 1 > i {
                    assert(name_lt(s[i].0, s[b - 1].0));
                    lemma_name_lt_transitive(name, s[i].0, s[b - 1].0);
                }
            } else {
                assert(r[a] == s[a - 1] && r[b] == s[b - 1]);
            }
        }
    }
}

/// Reading after setting: the name that was set gives the new position, and
/// every other name gives what it gave before.
pub proof fn lemma_insert_then_lookup(
    s: Seq<(Seq<char>, Position)>,
    name: Seq<char>,
    position: Position,
    other: Seq<char>,
)
    ensures
        lookup(insert_entry(s, name, position), name) == Some(position),
        other != name ==> lookup(insert_entry(s, name, position), other) == lookup(s, other),
    decreases s.len(),
{
    if s.len() == 0 {
        let r = insert_entry(s, name, position);
        assert(r.drop_first() =~= s);
    } else {
        let t = s.drop_first();
        if name_lt(s[0].0, name) {
            lemma_name_lt_irreflexive(name);
            lemma_insert_then_lookup(t, name, position, other);
            let r = insert_entry(s, name, position);
            assert(r.drop_first() =~= insert_entry(t, name, position));
        } else if s[0].0 == name {
            let r = insert_entry(s, name, position);
            assert(r.drop_first() =~= t);
        } else {
            let r = insert_entry(s, name, position);
            assert(r.drop_first() =~= s);
        }
    }
}

/// A list of pairs whose names strictly increase from each pair to the next.
pub open spec fn list_in_name_order(entries: Seq<(&str, Position)>) -> bool {
    forall|i: int| 0 <= i < entries.len() - 1 ==> name_lt(#[trigger] entries[i].0@, entries[i + 1].0@)
}

/// A list of pairs as table content.
pub open spec fn entries_view(entries: Seq<(&str, Position)>) -> Seq<(Seq<char>, Position)> {
    entries.map_values(|e: (&str, Position)| (e.0@, e.1))
}

proof fn lemma_list_order_all_pairs(entries: Seq<(&str, Position)>, i: int, j: int)
    requires
        list_in_name_order(entries),
        0 <= i < j < entries.len(),
    ensures
        name_lt(entries[i].0@, entries[j].0@),
    decreases j - i,
{
    if j > i + 1 {
        lemma_list_order_all_pairs(entries, i, j - 1);
        assert(name_lt(entries[j - 1].0@, entries[j].0@));
        lemma_name_lt_transitive(entries[i].0@, entries[j - 1].0@, entries[j].0@);
    } else {
        assert(name_lt(entries[i].0@, entries[i + 1].0@));
    }
}

/// A list already in strict name order is its own table: building the table
/// neither reorders nor merges anything.
pub proof fn lemma_table_of_ordered_list(entries: Seq<(&str, Position)>)
    requires
        list_in_name_order(entries),
    ensures
        table_of(entries) == entries_view(entries),
    decreases entries.len(),
{
    if entries.len() > 0 {
        let d = entries.drop_last();
        assert forall|i: int| 0 <= i < d.len() - 1 implies name_lt(#[trigger] d[i].0@, d[i + 1].0@) by {
            assert(d[i] == entries[i] && d[i + 1] == entries[i + 1]);
        }
        lemma_table_of_ordered_list(d);
        let t = entries_view(d);
        let k = entries.last().0@;
        let p = entries.last().1;
        assert forall|j: int| 0 <= j < t.len() implies name_lt(#[trigger] t[j].0, k) by {
            lemma_list_order_all_pairs(entries, j, entries.len() - 1);
            assert(t[j].0 == entries[j].0@);
        }
        lemma_insertion_point(t, k);
        lemma_insert_entry_shape(t, k, p);
        assert(insertion_point(t, k) == t.len());
        assert(t.insert(t.len() as int, (k, p)) =~= entries_view(entries));
    }
}

/// A table built from a list of pairs keeps its names strictly increasing.
pub proof fn lemma_table_of_ordered(entries: Seq<(&str, Position)>)
    ensures
        names_increasing(table_of(entries)),
    decreases entries.len(),
{
    if entries.len() > 0 {
        lemma_table_of_ordered(entries.drop_last());
        lemma_insert_keeps_order(
            table_of(entries.drop_last()),
            entries.last().0@,
            entries.last().1,
        );
    }
}

/// A table built from a list of pairs holds, under each name, the position
/// given last to that name.
pub proof fn lemma_table_of_lookup(entries: Seq<(&str, Position)>, name: Seq<char>)
    ensures
        lookup(table_of(entries), name) == last_given(entries, name),
    decreases entries.len(),
{
    if entries.len() > 0 {
        lemma_table_of_lookup(entries.drop_last(), name);
        lemma_insert_then_lookup(
            table_of(entries.drop_last()),
            entries.last().0@,
            entries.last().1,
            name,
        );
    }
}

/// The stations left after applying a selection mask: byte `i` of the mask
/// belongs to the `i`-th station in walking order, a zero byte drops that
/// station, and stations past the end of the mask are kept.
pub open spec fn masked(s: Seq<(Seq<char>, Position)>, mask: Seq<u8>) -> Seq<(Seq<char>, Position)>
    decreases s.len(),
{
    if s.len() == 0 || mask.len() == 0 {
        s
    } else if mask[0] == 0 {
        masked(s.drop_first(), mask.drop_first())
    } else {
        seq![s[0]] + masked(s.drop_first(), mask.drop_first())
    }
}

/// Whether the station at `index` survives `mask`.
pub open spec fn selected(mask: Seq<u8>, index: int) -> bool {
    index >= mask.len() || mask[index] != 0
}

/// Masking a sequence with one more station at its end decides that station
/// by its own mask byte.
proof fn lemma_masked_push(
    s: Seq<(Seq<char>, Position)>,
    x: (Seq<char>, Position),
    mask: Seq<u8>,
)
    ensures
        masked(s.push(x), mask) == if selected(mask, s.len() as int) {
            masked(s, mask).push(x)
        } else {
            masked(s, mask)
        },
    decreases s.len(),
{
    let r = masked(s.push(x), mask);
    let sx = s.push(x);
    if mask.len() == 0 {
        assert(r == sx);
    } else if s.len() == 0 {
        assert(sx.drop_first() =~= s);
        if mask[0] == 0 {
            assert(r == masked(s, mask.drop_first()));
        } else {
            assert(r == seq![sx[0]] + masked(s, mask.drop_first()));
            assert(seq![x] + s =~= sx);
        }
    } else {
        let t = s.drop_first();
        let m = mask.drop_first();
        lemma_masked_push(t, x, m);
        assert(sx.drop_first() =~= t.push(x));
        assert(selected(m, t.len() as int) == selected(mask, s.len() as int));
        if mask[0] == 0 {
            assert(r == masked(t.push(x), m));
            assert(masked(s, mask) == masked(t, m));
        } else {
            assert(r == seq![s[0]] + masked(t.push(x), m));
            assert(masked(s, mask) == seq![s[0]] + masked(t, m));
            let mt = masked(t, m);
            assert(seq![s[0]] + mt.push(x) =~= (seq![s[0]] + mt).push(x));
        }
    }
}

/// Every station left by a mask is one of the stations masked.
proof fn lemma_masked_from(s: Seq<(Seq<char>, Position)>, mask: Seq<u8>)
    ensures
        forall|k: int| 0 <= k < masked(s, mask).len() ==> s.contains(#[trigger] masked(s, mask)[k]),
    decreases s.len(),
{
    let r = masked(s, mask);
    if s.len() > 0 && mask.len() > 0 {
        let t = s.drop_first();
        let m = masked(t, mask.drop_first());
        lemma_masked_from(t, mask.drop_first());
        assert forall|k: int| 0 <= k < r.len() implies s.contains(#[trigger] r[k]) by {
            if mask[0] == 0 {
                assert(r == m);
                assert(t.contains(m[k]));
                let j = choose|j: int| 0 <= j < t.len() && t[j] == m[k];
                assert(s[j + 1] == r[k]);
            } else if k == 0 {
                assert(s[0] == r[0]);
            } else {
                assert(r == seq![s[0]] + m);
                assert(r[k] == m[k - 1]);
                assert(t.contains(m[k - 1]));
                let j = choose|j: int| 0 <= j < t.len() && t[j] == m[k - 1];
                assert(s[j + 1] == r[k]);
            }
        }
    } else {
        assert forall|k: int| 0 <= k < r.len() implies s.contains(#[trigger] r[k]) by {
            assert(s[k] == r[k]);
        }
    }
}

/// Masking keeps the stations in name order.
pub proof fn lemma_masked_keeps_order(s: Seq<(Seq<char>, Position)>, mask: Seq<u8>)
    requires
        names_increasing(s),
    ensures
        names_increasing(masked(s, mask)),
    decreases s.len(),
{
    if s.len() > 0 && mask.len() > 0 {
        let t = s.drop_first();
        assert(names_increasing(t)) by {
            assert forall|a: int, b: int| 0 <= a < b < t.len() implies name_lt(
                #[trigger] t[a].0,
                #[trigger] t[b].0,
            ) by {
                assert(t[a] == s[a + 1] && t[b] == s[b + 1]);
            }
        }
        lemma_masked_keeps_order(t, mask.drop_first());
        if mask[0] != 0 {
            let m = masked(t, mask.drop_first());
            let r = masked(s, mask);
            lemma_masked_from(t, mask.drop_first());
            assert forall|a: int, b: int| 0 <= a < b < r.len() implies name_lt(
                #[trigger] r[a].0,
                #[trigger] r[b].0,
            ) by {
                assert(r[b] == m[b - 1]);
                if a == 0 {
                    assert(t.contains(m[b - 1]));
                    let j = choose|j: int| 0 <= j < t.len() && t[j] == m[b - 1];
                    assert(s[j + 1] == t[j]);
                } else {
                    assert(r[a] == m[a - 1]);
                }
            }
        }
    }
}

/// The stations a mask leaves are exactly those at selected places.
proof fn lemma_masked_members(s: Seq<(Seq<char>, Position)>, mask: Seq<u8>, x: (Seq<char>, Position))
    ensures
        masked(s, mask).contains(x) <==> exists|j: int|
            0 <= j < s.len() && selected(mask, j) && #[trigger] s[j] == x,
    decreases s.len(),
{
    let r = masked(s, mask);
    if s.len() == 0 || mask.len() == 0 {
        if r.contains(x) {
            let j = choose|j: int| 0 <= j < r.len() && r[j] == x;
            assert(selected(mask, j) && s[j] == x);
        }
        if exists|j: int| 0 <= j < s.len() && selected(mask, j) && #[trigger] s[j] == x {
            let j = choose|j: int| 0 <= j < s.len() && selected(mask, j) && #[trigger] s[j] == x;
            assert(r[j] == x);
        }
    } else {
        let t = s.drop_first();
        let m = mask.drop_first();
        let rt = masked(t, m);
        lemma_masked_members(t, m, x);
        if r.contains(x) {
            let k = choose|k: int| 0 <= k < r.len() && r[k] == x;
            if mask[0] != 0 && k == 0 {
                assert(selected(mask, 0) && s[0] == x);
            } else {
                let k2 = if mask[0] == 0 { k } else { k - 1 };
                assert(rt[k2] == x);
                assert(rt.contains(x));
                let j = choose|j: int| 0 <= j < t.len() && selected(m, j) && #[trigger] t[j] == x;
                assert(selected(mask, j + 1) && s[j + 1] == x);
            }
        }
        if exists|j: int| 0 <= j < s.len() && selected(mask, j) && #[trigger] s[j] == x {
            let j = choose|j: int| 0 <= j < s.len() && selected(mask, j) && #[trigger] s[j] == x;
            if j == 0 {
                assert(r[0] == x);
            } else {
                assert(selected(m, j - 1) && t[j - 1] == x);
                assert(rt.contains(x));
                let k = choose|k: int| 0 <= k < rt.len() && rt[k] == x;
                if mask[0] == 0 {
                    assert(r[k] == x);
                } else {
                    assert(r[k + 1] == x);
                }
            }
        }
    }
}

/// In a table with unique names, the station at `index` survives a mask
/// exactly when its mask byte is non-zero or lies past the end of the mask.
pub proof fn lemma_mask_keeps_exactly_selected(
    s: Seq<(Seq<char>, Position)>,
    mask: Seq<u8>,
    index: int,
)
    requires
        names_increasing(s),
        0 <= index < s.len(),
    ensures
        masked(s, mask).contains(s[index]) <==> (index >= mask.len() || mask[index] != 0),
{
    lemma_masked_members(s, mask, s[index]);
    if masked(s, mask).contains(s[index]) {
        let j = choose|j: int| 0 <= j < s.len() && selected(mask, j) && #[trigger] s[j] == s[index];
        if j != index {
            if j < index {
                assert(name_lt(s[j].0, s[index].0));
            } else {
                assert(name_lt(s[index].0, s[j].0));
            }
            lemma_name_lt_irreflexive(s[index].0);
        }
    }
}

/// A mask without zero bytes among the stations it covers keeps every station;
/// in particular an empty mask keeps them all.
pub proof fn lemma_mask_without_zeros(s: Seq<(Seq<char>, Position)>, mask: Seq<u8>)
    requires
        forall|i: int| 0 <= i < s.len() && i < mask.len() ==> #[trigger] mask[i] != 0,
    ensures
        masked(s, mask) == s,
    decreases s.len(),
{
    if s.len() > 0 && mask.len() > 0 {
        let t = s.drop_first();
        let m = mask.drop_first();
        assert forall|i: int| 0 <= i < t.len() && i < m.len() implies #[trigger] m[i] != 0 by {
            assert(m[i] == mask[i + 1]);
        }
        lemma_mask_without_zeros(t, m);
        assert(mask[0] != 0);
        assert(seq![s[0]] + t =~= s);
    }
}

impl AntennaTable {
    /// The table's invariant: station names strictly increase.
    pub open spec fn wf(&self) -> bool {
        names_increasing(self@)
    }

    /// An empty table.
    pub fn new() -> (r: AntennaTable)
        ensures
            r.wf(),
            r@ == Seq::<(Seq<char>, Position)>::empty(),
    {
        let r = AntennaTable { antennas: Vec::new() };
        assert(r@ =~= Seq::<(Seq<char>, Position)>::empty());
        r
    }

    /// The number of stations.
    pub fn len(&self) -> (r: usize)
        ensures
            r == self@.len(),
    {
        self.antennas.len()
    }

    /// The name of the station at `index` in walking order.
    pub fn name(&self, index: usize) -> (r: String)
        requires
            index < self@.len(),
        ensures
            r@ == self@[index as int].0,
    {
        self.antennas[index].name.clone()
    }

    /// The position of the station at `index` in walking order.
    pub fn position(&self, index: usize) -> (r: Position)
        requires
            index < self@.len(),
        ensures
            r == self@[index as int].1,
    {
        self.antennas[index].position
    }

    /// Drops the stations that `mask` deselects: byte `i` belongs to the
    /// `i`-th station in name order, a zero byte drops it, and stations past
    /// the end of the mask stay.
    pub fn retain_by_mask(&mut self, mask: &[u8])
        requires
            old(self).wf(),
        ensures
            final(self).wf(),
            final(self)@ == masked(old(self)@, mask@),
    {
        let ghost s = self@;
        let n = self.antennas.len();
        let mut kept: Vec<Antenna> = Vec::new();
        let mut i: usize = 0;
        assert(s.take(0) =~= Seq::<(Seq<char>, Position)>::empty());
        assert(kept@.map_values(|a: Antenna| antenna_view(a)) =~= masked(s.take(0), mask@));
        while i < n
            invariant
                n == s.len(),
                s == self@,
                i <= n,
                kept@.map_values(|a: Antenna| antenna_view(a)) == masked(s.take(i as int), mask@),
            decreases n - i,
        {
            proof {
                lemma_masked_push(s.take(i as int), s[i as int], mask@);
                assert(s.take(i + 1) =~= s.take(i as int).push(s[i as int]));
            }
            if i >= mask.len() || mask[i] != 0 {
                let antenna = Antenna {
                    name: self.antennas[i].name.clone(),
                    position: self.antennas[i].position,
                };
                let ghost before = kept@;
                kept.push(antenna);
                assert(kept@.map_values(|a: Antenna| antenna_view(a)) =~= before.map_values(
                    |a: Antenna| antenna_view(a),
                ).push(s[i as int]));
            }
            i = i + 1;
        }
        assert(s.take(n as int) =~= s);
        proof {
            lemma_masked_keeps_order(s, mask@);
        }
        self.antennas = kept;
    }

    /// Where a station called `name` stands, or would stand.
    fn insertion_index(&self, name: &str) -> (r: usize)
        ensures
            r == insertion_point(self@, name@),
    {
        let n = self.antennas.len();
        let ghost s = self@;
        let mut i: usize = 0;
        assert(s.skip(0) =~= s);
        loop
            invariant
                n == s.len(),
                s == self@,
                i <= n,
                insertion_point(s, name@) == i + insertion_point(s.skip(i as int), name@),
            ensures
                insertion_point(s, name@) == i,
            decreases n - i,
        {
            if i == n {
                assert(s.skip(i as int).len() == 0);
                break;
            }
            assert(s.skip(i as int)[0] == s[i as int]);
            assert(s[i as int].0 == self.antennas@[i as int].name@);
            match compare_names(self.antennas[i].name.as_str(), name) {
                NameOrder::Less => {
                    assert(s.skip(i as int).drop_first() =~= s.skip(i + 1));
                    i = i + 1;
                },
                _ => {
                    break;
                },
            }
        }
        i
    }

    /// Sets the position of the station called `name`: an existing station of
    /// that name is given the new position, otherwise the station is added in
    /// name order.
    pub fn insert(&mut self, name: String, position: Position)
        requires
            old(self).wf(),
        ensures
            final(self).wf(),
            final(self)@ == insert_entry(old(self)@, name@, position),
    {
        let ghost s = self@;
        proof {
            lemma_insertion_point(s, name@);
            lemma_insert_entry_shape(s, name@, position);
            lemma_insert_keeps_order(s, name@, position);
        }
        let i = self.insertion_index(name.as_str());
        let antenna = Antenna { name, position };
        if i < self.antennas.len() && names_equal(self.antennas[i].name.as_str(), antenna.name.as_str()) {
            self.antennas.set(i, antenna);
            assert(self@ =~= s.update(i as int, (antenna.name@, position)));
        } else {
            self.antennas.insert(i, antenna);
            assert(self@ =~= s.insert(i as int, (antenna.name@, position)));
        }
    }

    /// The table built from `entries` in order, a later pair of the same name
    /// overriding an earlier one.
    pub fn from_entries(entries: &[(&str, Position)]) -> (r: AntennaTable)
        ensures
            r.wf(),
            r@ == table_of(entries@),
    {
        let mut table = AntennaTable::new();
        let n = entries.len();
        let mut i: usize = 0;
        while i < n
            invariant
                n == entries@.len(),
                i <= n,
                table.wf(),
                table@ == table_of(entries@.take(i as int)),
            decreases n - i,
        {
            let (name, position) = entries[i];
            assert(entries@.take(i + 1).drop_last() =~= entries@.take(i as int));
            table.insert(String::from_str(name), position);
            i = i + 1;
        }
        assert(entries@.take(n as int) =~= entries@);
        table
    }
}

} // verus!
