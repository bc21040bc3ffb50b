//! Ordered sets of texts.

use vstd::prelude::*;

use crate::text;
use crate::text::chars_of;

verus! {

/// The first difference of two texts stands at `i`, and `a` comes first there.
pub open spec fn less_at(a: Seq<char>, b: Seq<char>, i: int) -> bool {
    &&& 0 <= i <= a.len()
    &&& i < b.len()
    &&& forall|j: int| 0 <= j < i ==> #[trigger] a[j] == b[j]
    &&& (i == a.len() || a[i] < b[i])
}

/// `a` comes before `b` in lexicographic order.
pub open spec fn text_less(a: Seq<char>, b: Seq<char>) -> bool {
    exists|i: int| #[trigger] less_at(a, b, i)
}

/// The texts stand in strictly ascending order.
pub open spec fn ascending(items: Seq<Seq<char>>) -> bool {
    forall|i: int, j: int|
        0 <= i < j < items.len() ==> text_less(#[trigger] items[i], #[trigger] items[j])
}

/// The order is transitive.
pub proof fn lemma_text_less_transitive(a: Seq<char>, b: Seq<char>, c: Seq<char>)
    requires
        text_less(a, b),
        text_less(b, c),
    ensures
        text_less(a, c),
{
    let i = choose|i: int| #[trigger] less_at(a, b, i);
    let k = choose|k: int| #[trigger] less_at(b, c, k);
    let m = if i <= k {
        i
    } else {
        k
    };
    assert forall|j: int| 0 <= j < m implies #[trigger] a[j] == c[j] by {
        assert(a[j] == b[j]);
        assert(b[j] == c[j]);
    }
    if k < i {
        assert(a[k] == b[k]);
    } else if i < k {
        assert(b[i] == c[i]);
    }
    assert(less_at(a, c, m));
}

/// No text comes before itself.
pub proof fn lemma_text_less_irreflexive(a: Seq<char>)
    ensures
        !text_less(a, a),
{
}

/// Where one text stands relative to another.
#[derive(Clone, Copy, Debug, PartialEq, Eq, Structural)]
pub enum Place {
    Before,
    Same,
    After,
}

/// Compares two texts.
pub fn place(a: &str, b: &str) -> (place: Place)
    ensures
        match place {
            Place::Before => text_less(a@, b@),
            Place::Same => a@ == b@,
            Place::After => text_less(b@, a@),
        },
{
    let x = chars_of(a);
    let y = chars_of(b);
    let mut i: usize = 0;
    while i < x.len() && i < y.len()
        invariant
            i <= x.len(),
            i <= y.len(),
            x@ == a@,
            y@ == b@,
            forall|j: int| 0 <= j < i ==> #[trigger] a@[j] == b@[j],
        decreases x.len() - i,
    {
        if x[i] < y[i] {
            assert(less_at(a@, b@, i as int));
            return Place::Before;
        }
        if y[i] < x[i] {
            assert(less_at(b@, a@, i as int));
            return Place::After;
        }
        i += 1;
    }
    if i < y.len() {
        assert(less_at(a@, b@, i as int));
        Place::Before
    } else if i < x.len() {
        assert(less_at(b@, a@, i as int));
        Place::After
    } else {
        assert(a@ =~= b@);
        Place::Same
    }
}

/// Puts one text into its place, unless it is there already.
fn place_text(sorted: &mut Vec<String>, item: &String)
    requires
        ascending(text::texts(old(sorted)@)),
    ensures
        ascending(text::texts(final(sorted)@)),
        forall|t: Seq<char>|
            #![trigger text::texts(final(sorted)@).contains(t)]
            text::texts(final(sorted)@).contains(t) <==> text::texts(old(sorted)@).contains(t) || t == item@,
{
    let ghost before = text::texts(sorted@);
    let mut p: usize = 0;
    while p < sorted.len()
        invariant
            p <= sorted@.len(),
            *sorted == *old(sorted),
            before == text::texts(sorted@),
            ascending(before),
            forall|j: int| 0 <= j < p ==> text_less(#[trigger] before[j], item@),
        decreases sorted@.len() - p,
    {
        match place(sorted[p].as_str(), item.as_str()) {
            Place::Before => {
                assert(before[p as int] == sorted@[p as int]@);
                p += 1;
            },
            Place::Same => {
                assert(before[p as int] == item@);
                return;
            },
            Place::After => {
                proof {
                    assert(before[p as int] == sorted@[p as int]@);
                    assert forall|j: int| p <= j < before.len() implies text_less(
                        item@,
                        #[trigger] before[j],
                    ) by {
                        if j > p {
                            lemma_text_less_transitive(item@, before[p as int], before[j]);
                        }
                    }
                }
                sorted.insert(p, item.clone());
                proof {
                    lemma_inserted(before, text::texts(sorted@), p as int, item@);
                }
                return;
            },
        }
    }
    sorted.insert(p, item.clone());
    proof {
        lemma_inserted(before, text::texts(sorted@), p as int, item@);
    }
}

proof fn lemma_inserted(before: Seq<Seq<char>>, after: Seq<Seq<char>>, p: int, item: Seq<char>)
    requires
        0 <= p <= before.len(),
        ascending(before),
        after =~= before.insert(p, item),
        forall|j: int| 0 <= j < p ==> text_less(#[trigger] before[j], item),
        forall|j: int| p <= j < before.len() ==> text_less(item, #[trigger] before[j]),
    ensures
        ascending(after),
        forall|t: Seq<char>|
            #![trigger after.contains(t)]
            after.contains(t) <==> before.contains(t) || t == item,
{
    assert forall|i: int, j: int| 0 <= i < j < after.len() implies text_less(
        #[trigger] after[i],
        #[trigger] after[j],
    ) by {
        let a = if i < p {
            i
        } else {
            i - 1
        };
        let b = if j < p {
            j
        } else {
            j - 1
        };
        if i != p {
            assert(after[i] == before[a]);
        }
        if j != p {
            assert(after[j] == before[b]);
        }
    }
    assert forall|t: Seq<char>| #![trigger after.contains(t)] after.contains(t) implies (
    before.contains(t) || t == item) by {
        let i = choose|i: int| 0 <= i < after.len() && after[i] == t;
        if i < p {
            assert(before[i] == t);
        } else if i > p {
            assert(before[i - 1] == t);
        }
    }
    assert forall|t: Seq<char>|
        #![trigger after.contains(t)]
        before.contains(t) || t == item implies after.contains(t) by {
        if t == item {
            assert(after[p] == item);
        } else {
            let i = choose|i: int| 0 <= i < before.len() && before[i] == t;
            if i < p {
                assert(after[i] == t);
            } else {
                assert(after[i + 1] == t);
            }
        }
    }
}

/// The same texts, each once, in ascending order.
pub open spec fn is_sorted_set_of(sorted: Seq<Seq<char>>, items: Seq<Seq<char>>) -> bool {
    &&& ascending(sorted)
    &&& forall|t: Seq<char>|
        #![trigger sorted.contains(t)]
        #![trigger items.contains(t)]
        sorted.contains(t) <==> items.contains(t)
}

/// A sorted set is empty exactly when there is nothing to sort.
pub proof fn lemma_sorted_set_empty(sorted: Seq<Seq<char>>, items: Seq<Seq<char>>)
    requires
        is_sorted_set_of(sorted, items),
    ensures
        sorted.len() == 0 <==> items.len() == 0,
{
    if sorted.len() > 0 {
        assert(sorted.contains(sorted[0]));
        assert(items.contains(sorted[0]));
    }
    if items.len() > 0 {
        assert(items.contains(items[0]));
        assert(sorted.contains(items[0]));
    }
}

/// Sorts texts and drops repetitions.
pub fn sorted_set(items: &Vec<String>) -> (sorted: Vec<String>)
    ensures
        is_sorted_set_of(text::texts(sorted@), text::texts(items@)),
{
    let mut sorted: Vec<String> = Vec::new();
    let ghost all = text::texts(items@);
    let mut i: usize = 0;
    while i < items.len()
        invariant
            i <= items@.len(),
            all == text::texts(items@),
            ascending(text::texts(sorted@)),
            forall|t: Seq<char>|
                #![trigger text::texts(sorted@).contains(t)]
                text::texts(sorted@).contains(t) <==> all.take(i as int).contains(t),
        decreases items@.len() - i,
    {
        let ghost before = text::texts(sorted@);
        place_text(&mut sorted, &items[i]);
        proof {
            assert(all.take(i + 1) =~= all.take(i as int).push(items@[i as int]@));
            assert forall|t: Seq<char>|
                #![trigger text::texts(sorted@).contains(t)]
                text::texts(sorted@).contains(t) <==> all.take(i + 1).contains(t) by {
                let shorter = all.take(i as int);
                let longer = all.take(i + 1);
                assert(before.contains(t) <==> shorter.contains(t));
                if longer.contains(t) {
                    let k = choose|k: int| 0 <= k < longer.len() && longer[k] == t;
                    if k < i {
                        assert(shorter[k] == t);
                    }
                }
                if shorter.contains(t) {
                    let k = choose|k: int| 0 <= k < shorter.len() && shorter[k] == t;
                    assert(longer[k] == t);
                }
                if t == items@[i as int]@ {
                    assert(longer[i as int] == t);
                }
            }
        }
        i += 1;
    }
    assert(all.take(all.len() as int) =~= all);
    sorted
}

/// Two ascending lists with the same members are the same list.
pub proof fn sorted_set_is_unique(a: Seq<Seq<char>>, b: Seq<Seq<char>>, items: Seq<Seq<char>>)
    requires
        is_sorted_set_of(a, items),
        is_sorted_set_of(b, items),
    ensures
        a == b,
    decreases a.len(),
{
    lemma_same_members(a, b);
}

proof fn lemma_same_members(a: Seq<Seq<char>>, b: Seq<Seq<char>>)
    requires
        ascending(a),
        ascending(b),
        forall|t: Seq<char>|
            #![trigger a.contains(t)]
            #![trigger b.contains(t)]
            a.contains(t) <==> b.contains(t),
    ensures
        a == b,
    decreases a.len(),
{
    if a.len() == 0 {
        if b.len() > 0 {
            assert(b.contains(b[0]));
        }
        assert(a =~= b);
    } else {
        assert(a.contains(a.last()));
        assert(b.contains(a.last()));
        assert(b.len() > 0);
        assert(b.contains(b.last()));
        assert(a.contains(b.last()));
        let i = choose|i: int| 0 <= i < a.len() && a[i] == b.last();
        let k = choose|k: int| 0 <= k < b.len() && b[k] == a.last();
        if a.last() != b.last() {
            assert(text_less(a[i], a[a.len() - 1]));
            assert(text_less(b[k], b[b.len() - 1]));
            lemma_text_less_transitive(b.last(), a.last(), b.last());
            lemma_text_less_irreflexive(b.last());
        }
        let x = a.drop_last();
        let y = b.drop_last();
        assert forall|t: Seq<char>|
            #![trigger x.contains(t)]
            #![trigger y.contains(t)]
            x.contains(t) <==> y.contains(t) by {
            lemma_text_less_irreflexive(a.last());
            if x.contains(t) {
                let p = choose|p: int| 0 <= p < x.len() && x[p] == t;
                assert(a[p] == t);
                assert(text_less(a[p], a[a.len() - 1]));
                assert(a.contains(t));
                let q = choose|q: int| 0 <= q < b.len() && b[q] == t;
                assert(q != b.len() - 1);
                assert(y[q] == t);
            }
            if y.contains(t) {
                let p = choose|p: int| 0 <= p < y.len() && y[p] == t;
                assert(b[p] == t);
                assert(text_less(b[p], b[b.len() - 1]));
                assert(b.contains(t));
                let q = choose|q: int| 0 <= q < a.len() && a[q] == t;
                assert(q != a.len() - 1);
                assert(x[q] == t);
            }
        }
        lemma_same_members(x, y);
        assert(a =~= x.push(a.last()));
        assert(b =~= y.push(b.last()));
    }
}

} // verus!
