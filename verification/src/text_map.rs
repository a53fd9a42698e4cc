//! A map from texts, kept in their order.
use crate::sort::{
    is_text_at_most, lemma_text_order_antisymmetric, lemma_text_order_total,
    lemma_text_order_transitive, text_at_most,
};
use crate::text::same_text;
use vstd::prelude::*;

verus! {

/// Values under texts. The texts ascend, and none occurs twice.
pub struct TextMap<V> {
    entries: Vec<(String, V)>,
}

/// Whether a text comes before another.
pub open spec fn text_before(a: Seq<char>, b: Seq<char>) -> bool {
    text_at_most(a, b) && a != b
}

/// Whether the texts of entries ascend, so that none occurs twice.
pub open spec fn ascending<V>(entries: Seq<(String, V)>) -> bool {
    forall|i: int, j: int|
        0 <= i < j < entries.len() ==> text_before(
            (#[trigger] entries[i]).0@,
            (#[trigger] entries[j]).0@,
        )
}

/// Whether an entry has a text.
pub open spec fn holds_at<V>(entries: Seq<(String, V)>, key: Seq<char>, at: int) -> bool {
    0 <= at < entries.len() && entries[at].0@ == key
}

/// The values of entries under their texts.
pub open spec fn entries_map<V>(entries: Seq<(String, V)>) -> Map<Seq<char>, V> {
    Map::new(
        |key: Seq<char>| exists|at: int| holds_at(entries, key, at),
        |key: Seq<char>| entries[choose|at: int| holds_at(entries, key, at)].1,
    )
}

/// Entries hold what their map holds.
pub proof fn lemma_entry<V>(entries: Seq<(String, V)>, at: int)
    requires
        ascending(entries),
        0 <= at < entries.len(),
    ensures
        entries_map(entries).contains_key(entries[at].0@),
        entries_map(entries)[entries[at].0@] == entries[at].1,
{
    let key = entries[at].0@;
    assert(holds_at(entries, key, at));
    let other = choose|k: int| holds_at(entries, key, k);
    assert(holds_at(entries, key, other));
    if other < at {
        assert(text_before(entries[other].0@, entries[at].0@));
    } else if at < other {
        assert(text_before(entries[at].0@, entries[other].0@));
    }
}

impl<V> View for TextMap<V> {
    type V = Map<Seq<char>, V>;

    closed spec fn view(&self) -> Map<Seq<char>, V> {
        entries_map(self.entries@)
    }
}

impl<V> TextMap<V> {
    /// Whether the texts ascend.
    pub closed spec fn well_formed(self) -> bool {
        ascending(self.entries@)
    }

    /// An empty map.
    pub fn new() -> (r: Self)
        ensures
            r.well_formed(),
            r@ == Map::<Seq<char>, V>::empty(),
    {
        let r = TextMap { entries: Vec::new() };
        assert(r@ =~= Map::<Seq<char>, V>::empty());
        r
    }

    fn place(&self, key: &str) -> (r: usize)
        requires
            self.well_formed(),
        ensures
            r <= self.entries@.len(),
            forall|i: int| 0 <= i < r ==> text_before((#[trigger] self.entries@[i]).0@, key@),
            forall|i: int|
                r <= i < self.entries@.len() ==> text_at_most(
                    key@,
                    (#[trigger] self.entries@[i]).0@,
                ),
    {
        let mut at: usize = 0;
        while at < self.entries.len() && !is_text_at_most(key, self.entries[at].0.as_str())
            invariant
                at <= self.entries@.len(),
                forall|i: int| 0 <= i < at ==> text_before((#[trigger] self.entries@[i]).0@, key@),
            decreases self.entries.len() - at,
        {
            proof {
                lemma_text_order_total(key@, self.entries@[at as int].0@);
                assert(self.entries@[at as int].0@ != key@) by {
                    lemma_text_order_total(key@, key@);
                }
            }
            at = at + 1;
        }
        proof {
            assert forall|i: int| at <= i < self.entries@.len() implies text_at_most(
                key@,
                (#[trigger] self.entries@[i]).0@,
            ) by {
                if i > at {
                    assert(text_before(self.entries@[at as int].0@, self.entries@[i].0@));
                    lemma_text_order_transitive(
                        key@,
                        self.entries@[at as int].0@,
                        self.entries@[i].0@,
                    );
                }
            }
        }
        at
    }

    /// The value under a text, if there is one.
    pub fn get(&self, key: &str) -> (r: Option<&V>)
        requires
            self.well_formed(),
        ensures
            match r {
                Some(value) => self@.contains_key(key@) && self@[key@] == *value,
                None => !self@.contains_key(key@),
            },
    {
        let at: usize = self.place(key);
        if at < self.entries.len() && same_text(self.entries[at].0.as_str(), key) {
            proof {
                lemma_entry(self.entries@, at as int);
            }
            return Some(&self.entries[at].1);
        }
        proof {
            assert forall|k: int| !holds_at(self.entries@, key@, k) by {
                if holds_at(self.entries@, key@, k) && k > at {
                    assert(text_before(self.entries@[at as int].0@, self.entries@[k].0@));
                    assert(text_at_most(key@, self.entries@[at as int].0@));
                    lemma_text_order_antisymmetric(key@, self.entries@[at as int].0@);
                }
            }
        }
        None
    }

    /// Puts a value under a text, in place of the one that was there.
    pub fn insert(&mut self, key: String, value: V)
        requires
            old(self).well_formed(),
        ensures
            final(self).well_formed(),
            final(self)@ == old(self)@.insert(key@, value),
    {
        let at: usize = self.place(key.as_str());
        let ghost before = self.entries@;
        let present: bool = at < self.entries.len() && same_text(
            self.entries[at].0.as_str(),
            key.as_str(),
        );
        if present {
            let _ = self.entries.remove(at);
        }
        let ghost rest = self.entries@;
        proof {
            assert forall|i: int, j: int| 0 <= i < j < rest.len() implies text_before(
                (#[trigger] rest[i]).0@,
                (#[trigger] rest[j]).0@,
            ) by {
                if present {
                    let x = if i < at {
                        i
                    } else {
                        i + 1
                    };
                    let y = if j < at {
                        j
                    } else {
                        j + 1
                    };
                    assert(rest[i] == before[x] && rest[j] == before[y]);
                }
            }
            assert forall|i: int| at <= i < rest.len() implies text_before(
                key@,
                (#[trigger] rest[i]).0@,
            ) by {
                if present {
                    assert(rest[i] == before[i + 1]);
                    assert(text_before(before[at as int].0@, before[i + 1].0@));
                } else {
                    assert(rest[i] == before[i]);
                    if before[i].0@ == key@ {
                        if i > at {
                            assert(text_before(before[at as int].0@, before[i].0@));
                            lemma_text_order_antisymmetric(key@, before[at as int].0@);
                        }
                    }
                }
            }
            assert forall|i: int| 0 <= i < at implies text_before(
                (#[trigger] rest[i]).0@,
                key@,
            ) by {
                assert(rest[i] == before[i]);
            }
        }
        self.entries.insert(at, (key, value));
        proof {
            lemma_inserted(before, rest, self.entries@, key, value, at as int, present);
        }
    }

    /// The entries, in the order of their texts.
    pub fn into_entries(self) -> (r: Vec<(String, V)>)
        requires
            self.well_formed(),
        ensures
            ascending(r@),
            entries_map(r@) == self@,
    {
        self.entries
    }
}

proof fn lemma_inserted<V>(
    before: Seq<(String, V)>,
    rest: Seq<(String, V)>,
    after: Seq<(String, V)>,
    key: String,
    value: V,
    at: int,
    present: bool,
)
    requires
        ascending(before),
        ascending(rest),
        0 <= at <= rest.len(),
        after == rest.insert(at, (key, value)),
        present ==> at < before.len() && before[at].0@ == key@ && rest == before.remove(at),
        !present ==> rest == before,
        forall|i: int| 0 <= i < at ==> text_before((#[trigger] rest[i]).0@, key@),
        forall|i: int| at <= i < rest.len() ==> text_before(key@, (#[trigger] rest[i]).0@),
    ensures
        ascending(after),
        entries_map(after) == entries_map(before).insert(key@, value),
{
    assert forall|i: int, j: int| 0 <= i < j < after.len() implies text_before(
        (#[trigger] after[i]).0@,
        (#[trigger] after[j]).0@,
    ) by {
        let x = if i < at {
            i
        } else {
            i - 1
        };
        let y = if j < at {
            j
        } else {
            j - 1
        };
        if i != at && j != at {
            assert(after[i] == rest[x] && after[j] == rest[y]);
        } else if i == at {
            assert(after[j] == rest[j - 1]);
        } else {
            assert(after[i] == rest[i]);
        }
    }
    let left = entries_map(after);
    let right = entries_map(before).insert(key@, value);
    assert forall|k: Seq<char>| left.contains_key(k) <==> right.contains_key(k) by {
        if left.contains_key(k) {
            let i = choose|i: int| holds_at(after, k, i);
            assert(holds_at(after, k, i));
            if i != at {
                let x = if i < at {
                    i
                } else {
                    i - 1
                };
                assert(after[i] == rest[x]);
                let y = if present && x >= at {
                    x + 1
                } else {
                    x
                };
                assert(holds_at(before, k, y));
            }
        }
        if right.contains_key(k) {
            if k == key@ {
                assert(holds_at(after, k, at));
            } else {
                let i = choose|i: int| holds_at(before, k, i);
                assert(holds_at(before, k, i));
                let x = if present && i > at {
                    i - 1
                } else {
                    i
                };
                assert(rest[x] == before[i]);
                let y = if x < at {
                    x
                } else {
                    x + 1
                };
                assert(after[y] == rest[x]);
                assert(holds_at(after, k, y));
            }
        }
    }
    assert forall|k: Seq<char>| left.contains_key(k) implies left[k] == right[k] by {
        let i = choose|i: int| holds_at(after, k, i);
        assert(holds_at(after, k, i));
        lemma_entry(after, i);
        if i == at {
            assert(k == key@);
        } else {
            let x = if i < at {
                i
            } else {
                i - 1
            };
            assert(after[i] == rest[x]);
            let y = if present && x >= at {
                x + 1
            } else {
                x
            };
            assert(rest[x] == before[y]);
            lemma_entry(before, y);
            assert(k != key@);
        }
    }
    assert(left =~= right);
}

/// Of two texts either one comes before the other, or they are the same.
pub proof fn law_texts_come_one_before_the_other(a: Seq<char>, b: Seq<char>)
    ensures
        text_before(a, b) || text_before(b, a) || a == b,
        !(text_before(a, b) && text_before(b, a)),
        !text_before(a, a),
    decreases a.len(),
{
    if a.len() > 0 && b.len() > 0 && a[0] == b[0] {
        law_texts_come_one_before_the_other(a.drop_first(), b.drop_first());
        assert(a =~= seq![a[0]] + a.drop_first());
        assert(b =~= seq![b[0]] + b.drop_first());
    } else if a.len() == 0 && b.len() == 0 {
        assert(a =~= b);
    }
}

/// Every entry is found under its own text, with its own value, and no text is
/// found that no entry has.
pub proof fn law_entries_are_found_by_their_text<V>(
    entries: Seq<(String, V)>,
    at: int,
    key: Seq<char>,
)
    requires
        ascending(entries),
    ensures
        0 <= at < entries.len() ==> entries_map(entries).contains_key(entries[at].0@)
            && entries_map(entries)[entries[at].0@] == entries[at].1,
        (forall|k: int| 0 <= k < entries.len() ==> (#[trigger] entries[k]).0@ != key)
            ==> !entries_map(entries).contains_key(key),
{
    if 0 <= at < entries.len() {
        lemma_entry(entries, at);
    }
}

} // verus!
