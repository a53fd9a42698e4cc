//! Stable sorting.
use crate::ids::Uuid;
use crate::text::char_list;
use vstd::prelude::*;

verus! {

/// A key with a total order.
pub trait SortKey: Sized {
    /// Whether this key comes before another, or they rank the same.
    spec fn at_most(self, other: Self) -> bool;

    /// Of two keys at least one comes first.
    proof fn total(a: Self, b: Self)
        ensures
            a.at_most(b) || b.at_most(a),
    ;

    /// The order carries over.
    proof fn transitive(a: Self, b: Self, c: Self)
        requires
            a.at_most(b),
            b.at_most(c),
        ensures
            a.at_most(c),
    ;

    /// Whether this key comes before another, or they rank the same.
    fn is_at_most(&self, other: &Self) -> (r: bool)
        ensures
            r == self.at_most(*other),
    ;
}

/// Whether `order` lists each position of `keys` once, by ascending key, and
/// positions whose keys rank the same in their own order.
pub open spec fn is_stable_order<K: SortKey>(keys: Seq<K>, order: Seq<usize>) -> bool {
    &&& order.len() == keys.len()
    &&& forall|i: int| 0 <= i < order.len() ==> (#[trigger] order[i]) < keys.len()
    &&& order.no_duplicates()
    &&& in_order(keys, order)
}

/// Whether listed positions come by ascending key, and those whose keys rank
/// the same in their own order.
pub open spec fn in_order<K: SortKey>(keys: Seq<K>, order: Seq<usize>) -> bool {
    forall|i: int, j: int|
        0 <= i < j < order.len() ==> {
            &&& keys[(#[trigger] order[i]) as int].at_most(keys[(#[trigger] order[j]) as int])
            &&& keys[order[j] as int].at_most(keys[order[i] as int]) ==> order[i] < order[j]
        }
}

/// The positions of `keys` in the order of a stable sort.
pub fn stable_order<K: SortKey>(keys: &Vec<K>) -> (r: Vec<usize>)
    ensures
        is_stable_order(keys@, r@),
{
    let mut order: Vec<usize> = Vec::new();
    let mut next: usize = 0;
    while next < keys.len()
        invariant
            next <= keys@.len(),
            order@.len() == next,
            forall|i: int| 0 <= i < order@.len() ==> (#[trigger] order@[i]) < next,
            order@.no_duplicates(),
            in_order(keys@, order@),
        decreases keys.len() - next,
    {
        let mut place: usize = order.len();
        while place > 0 && !keys[order[place - 1]].is_at_most(&keys[next])
            invariant
                place <= order@.len(),
                next < keys@.len(),
                order@.len() == next,
                forall|i: int| 0 <= i < order@.len() ==> (#[trigger] order@[i]) < next,
                forall|i: int|
                    place <= i < order@.len() ==> !keys@[(#[trigger] order@[i]) as int].at_most(
                        keys@[next as int],
                    ),
            decreases place,
        {
            place = place - 1;
        }
        let ghost before = order@;
        order.insert(place, next);
        proof {
            lemma_insertion(keys@, before, order@, next, place as int);
        }
        next = next + 1;
    }
    order
}

proof fn lemma_insertion<K: SortKey>(
    keys: Seq<K>,
    before: Seq<usize>,
    after: Seq<usize>,
    next: usize,
    place: int,
)
    requires
        before.len() == next,
        next < keys.len(),
        0 <= place <= before.len(),
        after == before.insert(place, next),
        forall|i: int| 0 <= i < before.len() ==> (#[trigger] before[i]) < next,
        before.no_duplicates(),
        in_order(keys, before),
        forall|i: int|
            place <= i < before.len() ==> !keys[(#[trigger] before[i]) as int].at_most(
                keys[next as int],
            ),
        place > 0 ==> keys[before[place - 1] as int].at_most(keys[next as int]),
    ensures
        after.len() == next + 1,
        forall|i: int| 0 <= i < after.len() ==> (#[trigger] after[i]) < next + 1,
        after.no_duplicates(),
        in_order(keys, after),
{
    assert forall|i: int, j: int| 0 <= i < j < after.len() implies {
        &&& keys[(#[trigger] after[i]) as int].at_most(keys[(#[trigger] after[j]) as int])
        &&& keys[after[j] as int].at_most(keys[after[i] as int]) ==> after[i] < after[j]
    } by {
        let x = if i < place {
            i
        } else {
            i - 1
        };
        let y = if j < place {
            j
        } else {
            j - 1
        };
        if i != place && j != place {
            assert(after[i] == before[x] && after[j] == before[y]);
        } else if j == place {
            assert(after[i] == before[i] && after[j] == next);
            if i < place - 1 {
                assert(keys[before[i] as int].at_most(keys[before[place - 1] as int]));
                K::transitive(
                    keys[before[i] as int],
                    keys[before[place - 1] as int],
                    keys[next as int],
                );
            }
        } else {
            assert(after[i] == next && after[j] == before[j - 1]);
            assert(!keys[before[j - 1] as int].at_most(keys[next as int]));
            K::total(keys[before[j - 1] as int], keys[next as int]);
        }
    }
    assert forall|i: int, j: int|
        0 <= i < after.len() && 0 <= j < after.len() && i != j implies after[i] != after[j] by {
        let x = if i < place {
            i
        } else {
            i - 1
        };
        let y = if j < place {
            j
        } else {
            j - 1
        };
        if i != place && j != place {
            assert(after[i] == before[x] && after[j] == before[y]);
        } else if j == place {
            assert(after[i] == before[x]);
        } else {
            assert(after[j] == before[y]);
        }
    }
    assert forall|i: int| 0 <= i < after.len() implies (#[trigger] after[i]) < next + 1 by {
        if i < place {
            assert(after[i] == before[i]);
        } else if i > place {
            assert(after[i] == before[i - 1]);
        }
    }
}

/// A stable order lists every position.
pub proof fn lemma_order_covers<K: SortKey>(keys: Seq<K>, order: Seq<usize>, i: int)
    requires
        is_stable_order(keys, order),
        0 <= i < keys.len(),
    ensures
        exists|at: int| 0 <= at < order.len() && #[trigger] order[at] == i,
{
    lemma_all_listed(order, i);
}

proof fn lemma_all_listed(order: Seq<usize>, i: int)
    requires
        forall|k: int| 0 <= k < order.len() ==> (#[trigger] order[k]) < order.len(),
        order.no_duplicates(),
        0 <= i < order.len(),
    ensures
        exists|at: int| 0 <= at < order.len() && #[trigger] order[at] == i,
{
    let n = order.len();
    let listed = order.map_values(|p: usize| p as int);
    assert(listed.no_duplicates()) by {
        assert forall|a: int, b: int|
            0 <= a < listed.len() && 0 <= b < listed.len() && a != b implies listed[a] != listed[b] by {
            assert(order[a] != order[b]);
        }
    }
    let all = vstd::set_lib::set_int_range(0, n as int);
    vstd::set_lib::lemma_int_range(0, n as int);
    listed.unique_seq_to_set();
    assert(listed.to_set().subset_of(all)) by {
        assert forall|x: int| listed.to_set().contains(x) implies all.contains(x) by {
            let a = choose|a: int| 0 <= a < listed.len() && listed[a] == x;
            assert(order[a] < n);
        }
    }
    vstd::set_lib::lemma_subset_equality(listed.to_set(), all);
    assert(all.contains(i));
    assert(listed.contains(i));
    let a = choose|a: int| 0 <= a < listed.len() && listed[a] == i;
    assert(order[a] == i);
}

/// The rows at the listed positions, in the order of the list.
pub open spec fn arranged<T>(rows: Seq<T>, order: Seq<usize>) -> Seq<T> {
    order.map_values(|i: usize| rows[i as int])
}

/// Puts rows into the order of a list of their positions.
pub fn arrange<T>(rows: Vec<T>, order: &Vec<usize>) -> (r: Vec<T>)
    requires
        forall|i: int| 0 <= i < order@.len() ==> (#[trigger] order@[i]) < rows@.len(),
        order@.no_duplicates(),
    ensures
        r@ == arranged(rows@, order@),
{
    let ghost given = rows@;
    let n: usize = rows.len();
    let mut rows = rows;
    let mut slots: Vec<Option<T>> = Vec::new();
    while rows.len() > 0
        invariant
            n == given.len(),
            rows@.len() + slots@.len() == n,
            rows@ == given.take(rows@.len() as int),
            forall|k: int| 0 <= k < slots@.len() ==> #[trigger] slots@[k] == Some(given[n - 1 - k]),
        decreases rows.len(),
    {
        let ghost last = rows@.len() - 1;
        let row = rows.pop();
        slots.push(row);
        proof {
            assert(given.take(last + 1)[last] == given[last]);
            assert(rows@ =~= given.take(last));
        }
    }
    let mut result: Vec<T> = Vec::new();
    let mut i: usize = 0;
    while i < order.len()
        invariant
            i <= order@.len(),
            n == given.len(),
            slots@.len() == n,
            forall|k: int| 0 <= k < order@.len() ==> (#[trigger] order@[k]) < given.len(),
            order@.no_duplicates(),
            result@.len() == i,
            forall|k: int| 0 <= k < i ==> #[trigger] result@[k] == given[order@[k] as int],
            forall|k: int|
                i <= k < order@.len() ==> slots@[n - 1 - (#[trigger] order@[k])] == Some(
                    given[order@[k] as int],
                ),
        decreases order.len() - i,
    {
        assert(order@[i as int] < given.len());
        let at: usize = n - 1 - order[i];
        let ghost before = slots@;
        assert(before[n - 1 - order@[i as int]] == Some(given[order@[i as int] as int]));
        let row = slots[at].take();
        match row {
            Some(value) => result.push(value),
            None => {},
        }
        proof {
            assert forall|k: int| i + 1 <= k < order@.len() implies slots@[n - 1 - (
            #[trigger] order@[k])] == Some(given[order@[k] as int]) by {
                assert(order@[k] != order@[i as int]);
                assert(before[n - 1 - order@[k]] == Some(given[order@[k] as int]));
            }
        }
        i = i + 1;
    }
    assert(result@ =~= arranged(given, order@));
    result
}

/// The order of texts: by their first characters that differ, and a text before
/// any that continues it.
pub open spec fn text_at_most(a: Seq<char>, b: Seq<char>) -> bool
    decreases a.len(),
{
    if a.len() == 0 {
        true
    } else if b.len() == 0 {
        false
    } else if a[0] != b[0] {
        a[0] < b[0]
    } else {
        text_at_most(a.drop_first(), b.drop_first())
    }
}

pub proof fn lemma_text_order_total(a: Seq<char>, b: Seq<char>)
    ensures
        text_at_most(a, b) || text_at_most(b, a),
    decreases a.len(),
{
    if a.len() > 0 && b.len() > 0 && a[0] == b[0] {
        lemma_text_order_total(a.drop_first(), b.drop_first());
    }
}

pub proof fn lemma_text_order_transitive(a: Seq<char>, b: Seq<char>, c: Seq<char>)
    requires
        text_at_most(a, b),
        text_at_most(b, c),
    ensures
        text_at_most(a, c),
    decreases a.len(),
{
    if a.len() > 0 && b.len() > 0 && c.len() > 0 && a[0] == b[0] && b[0] == c[0] {
        lemma_text_order_transitive(a.drop_first(), b.drop_first(), c.drop_first());
    }
}

/// Texts that rank the same are the same.
pub proof fn lemma_text_order_antisymmetric(a: Seq<char>, b: Seq<char>)
    requires
        text_at_most(a, b),
        text_at_most(b, a),
    ensures
        a == b,
    decreases a.len(),
{
    if a.len() > 0 && b.len() > 0 {
        lemma_text_order_antisymmetric(a.drop_first(), b.drop_first());
        assert(a =~= seq![a[0]] + a.drop_first());
        assert(b =~= seq![b[0]] + b.drop_first());
    } else {
        assert(a =~= b);
    }
}

/// Whether a text comes before another, or they are the same.
pub fn is_text_at_most(a: &str, b: &str) -> (r: bool)
    ensures
        r == text_at_most(a@, b@),
{
    let x = char_list(a);
    let y = char_list(b);
    let mut i: usize = 0;
    assert(x@.skip(0) =~= a@);
    assert(y@.skip(0) =~= b@);
    while i < x.len() && i < y.len()
        invariant
            x@ == a@,
            y@ == b@,
            i <= x@.len(),
            i <= y@.len(),
            text_at_most(a@, b@) == text_at_most(x@.skip(i as int), y@.skip(i as int)),
        decreases x.len() - i,
    {
        proof {
            assert(x@.skip(i as int).drop_first() =~= x@.skip(i + 1));
            assert(y@.skip(i as int).drop_first() =~= y@.skip(i + 1));
        }
        if x[i] != y[i] {
            return x[i] < y[i];
        }
        i = i + 1;
    }
    i >= x.len()
}

/// A text as a key.
pub struct TextKey {
    pub text: String,
}

impl SortKey for TextKey {
    open spec fn at_most(self, other: Self) -> bool {
        text_at_most(self.text@, other.text@)
    }

    proof fn total(a: Self, b: Self) {
        lemma_text_order_total(a.text@, b.text@);
    }

    proof fn transitive(a: Self, b: Self, c: Self) {
        lemma_text_order_transitive(a.text@, b.text@, c.text@);
    }

    fn is_at_most(&self, other: &Self) -> (r: bool) {
        is_text_at_most(self.text.as_str(), other.text.as_str())
    }
}

/// A number as a key, the smallest first.
pub struct NumberKey {
    pub number: i64,
}

impl SortKey for NumberKey {
    open spec fn at_most(self, other: Self) -> bool {
        self.number <= other.number
    }

    proof fn total(a: Self, b: Self) {
    }

    proof fn transitive(a: Self, b: Self, c: Self) {
    }

    fn is_at_most(&self, other: &Self) -> (r: bool) {
        self.number <= other.number
    }
}

/// A cost with an identifier as a key: the highest cost first, and of equal
/// costs the smallest identifier first.
pub struct CostKey {
    pub cost: i64,
    pub id: Uuid,
}

impl SortKey for CostKey {
    open spec fn at_most(self, other: Self) -> bool {
        self.cost > other.cost || (self.cost == other.cost && self.id.value <= other.id.value)
    }

    proof fn total(a: Self, b: Self) {
    }

    proof fn transitive(a: Self, b: Self, c: Self) {
    }

    fn is_at_most(&self, other: &Self) -> (r: bool) {
        self.cost > other.cost || (self.cost == other.cost && self.id.value <= other.id.value)
    }
}

/// A cost with a name as a key: the highest cost first, and equal costs by name.
pub struct NamedCostKey {
    pub cost: i64,
    pub name: String,
}

impl SortKey for NamedCostKey {
    open spec fn at_most(self, other: Self) -> bool {
        self.cost > other.cost || (self.cost == other.cost && text_at_most(self.name@, other.name@))
    }

    proof fn total(a: Self, b: Self) {
        lemma_text_order_total(a.name@, b.name@);
    }

    proof fn transitive(a: Self, b: Self, c: Self) {
        if a.cost == b.cost && b.cost == c.cost {
            lemma_text_order_transitive(a.name@, b.name@, c.name@);
        }
    }

    fn is_at_most(&self, other: &Self) -> (r: bool) {
        self.cost > other.cost || (self.cost == other.cost && is_text_at_most(
            self.name.as_str(),
            other.name.as_str(),
        ))
    }
}

/// Whether a list holds the rows of another, each as often, in the order of
/// their keys, and rows whose keys rank the same in their former order.
pub open spec fn is_sorted_from<T, K: SortKey>(
    rows: Seq<T>,
    key: spec_fn(T) -> K,
    sorted: Seq<T>,
) -> bool {
    exists|order: Seq<usize>| #[trigger]
        is_stable_order(rows.map_values(key), order) && sorted == arranged(rows, order)
}

/// Puts rows into the order of their keys.
pub(crate) fn sort_by_keys<T, K: SortKey>(
    rows: Vec<T>,
    keys: &Vec<K>,
    Ghost(key): Ghost<spec_fn(T) -> K>,
) -> (r: Vec<T>)
    requires
        keys@ == rows@.map_values(key),
    ensures
        is_sorted_from(rows@, key, r@),
        r@.len() == rows@.len(),
{
    let order = stable_order(keys);
    arrange(rows, &order)
}

/// Sorting keeps each row as often as it was there.
pub proof fn law_sorting_keeps_rows<T, K: SortKey>(
    rows: Seq<T>,
    key: spec_fn(T) -> K,
    sorted: Seq<T>,
)
    requires
        is_sorted_from(rows, key, sorted),
    ensures
        sorted.len() == rows.len(),
        forall|i: int| 0 <= i < sorted.len() ==> rows.contains(#[trigger] sorted[i]),
        forall|i: int| 0 <= i < rows.len() ==> sorted.contains(#[trigger] rows[i]),
        sorted.to_multiset() =~= rows.to_multiset(),
{
    let keys = rows.map_values(key);
    let order = choose|order: Seq<usize>| #[trigger]
        is_stable_order(keys, order) && sorted == arranged(rows, order);
    assert forall|i: int| 0 <= i < sorted.len() implies rows.contains(#[trigger] sorted[i]) by {
        assert(sorted[i] == rows[order[i] as int]);
    }
    assert forall|i: int| 0 <= i < rows.len() implies sorted.contains(#[trigger] rows[i]) by {
        lemma_order_covers(keys, order, i);
        let at = choose|at: int| 0 <= at < order.len() && #[trigger] order[at] == i;
        assert(sorted[at] == rows[i]);
    }
    lemma_arranged_multiset(rows, order);
}

proof fn lemma_arranged_multiset<T>(rows: Seq<T>, order: Seq<usize>)
    requires
        order.len() == rows.len(),
        forall|k: int| 0 <= k < order.len() ==> (#[trigger] order[k]) < order.len(),
        order.no_duplicates(),
    ensures
        arranged(rows, order).to_multiset() =~= rows.to_multiset(),
    decreases rows.len(),
{
    broadcast use vstd::seq_lib::group_to_multiset_ensures;

    let n = rows.len();
    if n == 0 {
        assert(arranged(rows, order) =~= rows);
    } else {
        lemma_all_listed(order, n - 1);
        let at = choose|at: int| 0 <= at < order.len() && #[trigger] order[at] == n - 1;
        let shorter = order.remove(at);
        assert forall|k: int| 0 <= k < shorter.len() implies (#[trigger] shorter[k]) < shorter.len() by {
            let from = if k < at {
                k
            } else {
                k + 1
            };
            assert(shorter[k] == order[from]);
            assert(order[from] != order[at]);
        }
        assert forall|a: int, b: int|
            0 <= a < shorter.len() && 0 <= b < shorter.len() && a != b implies shorter[a]
            != shorter[b] by {
            let x = if a < at {
                a
            } else {
                a + 1
            };
            let y = if b < at {
                b
            } else {
                b + 1
            };
            assert(shorter[a] == order[x] && shorter[b] == order[y]);
        }
        lemma_arranged_multiset(rows.drop_last(), shorter);
        let sorted = arranged(rows, order);
        assert(sorted.remove(at) =~= arranged(rows.drop_last(), shorter));
        assert(rows =~= rows.drop_last().push(rows.last()));
        assert(sorted[at] == rows.last());
        assert(sorted.remove(at).to_multiset() == sorted.to_multiset().remove(rows.last()));
        assert(sorted.contains(rows.last()));
        assert(sorted.to_multiset() =~= sorted.to_multiset().remove(rows.last()).insert(
            rows.last(),
        ));
    }
}

/// Sorted rows come by ascending key.
pub proof fn law_sorted_rows_ascend<T, K: SortKey>(
    rows: Seq<T>,
    key: spec_fn(T) -> K,
    sorted: Seq<T>,
    i: int,
    j: int,
)
    requires
        is_sorted_from(rows, key, sorted),
        0 <= i < j < sorted.len(),
    ensures
        key(sorted[i]).at_most(key(sorted[j])),
{
    let keys = rows.map_values(key);
    let order = choose|order: Seq<usize>| #[trigger]
        is_stable_order(keys, order) && sorted == arranged(rows, order);
    assert(sorted[i] == rows[order[i] as int]);
    assert(sorted[j] == rows[order[j] as int]);
    assert(keys[order[i] as int].at_most(keys[order[j] as int]));
}

/// Texts are ordered by the first characters that differ, and a text comes
/// before those that go on after it.
pub proof fn law_texts_are_ordered_by_their_first_difference(a: Seq<char>, b: Seq<char>, p: int)
    requires
        0 <= p <= a.len(),
        p <= b.len(),
        forall|k: int| 0 <= k < p ==> #[trigger] a[k] == b[k],
    ensures
        p == a.len() ==> text_at_most(a, b),
        p == a.len() && p < b.len() ==> !text_at_most(b, a),
        p < a.len() && p < b.len() && a[p] < b[p] ==> text_at_most(a, b) && !text_at_most(b, a),
    decreases p,
{
    if p > 0 {
        let x = a.drop_first();
        let y = b.drop_first();
        assert(a[0] == b[0]);
        assert forall|k: int| 0 <= k < p - 1 implies #[trigger] x[k] == y[k] by {
            assert(a[k + 1] == b[k + 1]);
        }
        law_texts_are_ordered_by_their_first_difference(x, y, p - 1);
        if p < a.len() && p < b.len() {
            assert(x[p - 1] == a[p] && y[p - 1] == b[p]);
        }
    }
}

/// Numbers come in their order; costs come from the highest down, and equal
/// costs by identifier or by name.
pub proof fn law_keys_rank_as_they_say(
    a: NumberKey,
    b: NumberKey,
    x: CostKey,
    y: CostKey,
    s: NamedCostKey,
    t: NamedCostKey,
    u: TextKey,
    v: TextKey,
)
    ensures
        a.at_most(b) <==> a.number <= b.number,
        x.cost > y.cost ==> x.at_most(y) && !y.at_most(x),
        x.cost == y.cost ==> (x.at_most(y) <==> x.id.value <= y.id.value),
        s.cost > t.cost ==> s.at_most(t) && !t.at_most(s),
        s.cost == t.cost ==> (s.at_most(t) <==> text_at_most(s.name@, t.name@)),
        u.at_most(v) <==> text_at_most(u.text@, v.text@),
{
}

} // verus!
