//! The order of variable names, and the stable sort of the captured
//! environment by name.

use vstd::prelude::*;

verus! {

/// Whether the text `a` comes before the text `b` or equals it, in the
/// lexicographic order of their characters: the first character in which
/// they differ decides, and a text comes before its extensions.
pub open spec fn text_le(a: Seq<char>, b: Seq<char>) -> bool
    decreases a.len(),
{
    if a.len() == 0 {
        true
    } else if b.len() == 0 {
        false
    } else if a.first() != b.first() {
        a.first() < b.first()
    } else {
        text_le(a.drop_first(), b.drop_first())
    }
}

/// A name with its value.
pub type Entry = (Seq<char>, Seq<char>);

/// Whether the names of `entries` ascend.
pub open spec fn sorted(entries: Seq<Entry>) -> bool {
    forall|i: int, j: int|
        0 <= i <= j < entries.len() ==> text_le(
            (#[trigger] entries[i]).0,
            (#[trigger] entries[j]).0,
        )
}

/// The number of entries at the front of `entries` whose names come before
/// `name` or equal it. In a sorted sequence this is the place of the first
/// entry with a later name.
pub open spec fn insertion_point(entries: Seq<Entry>, name: Seq<char>) -> nat
    decreases entries.len(),
{
    if entries.len() == 0 || !text_le(entries.first().0, name) {
        0
    } else {
        1 + insertion_point(entries.drop_first(), name)
    }
}

/// The entries sorted by name. Entries with equal names keep the order in
/// which they were given: each entry is placed behind every entry given
/// before it whose name is not later.
pub open spec fn sorted_by_name(entries: Seq<Entry>) -> Seq<Entry>
    decreases entries.len(),
{
    if entries.len() == 0 {
        Seq::empty()
    } else {
        let before = sorted_by_name(entries.drop_last());
        before.insert(insertion_point(before, entries.last().0) as int, entries.last())
    }
}

/// Of two texts, one comes before the other or equals it.
pub proof fn lemma_text_le_total(a: Seq<char>, b: Seq<char>)
    ensures
        text_le(a, b) || text_le(b, a),
    decreases a.len(),
{
    if a.len() > 0 && b.len() > 0 && a.first() == b.first() {
        lemma_text_le_total(a.drop_first(), b.drop_first());
    }
}

/// The order of texts is transitive.
pub proof fn lemma_text_le_transitive(a: Seq<char>, b: Seq<char>, c: Seq<char>)
    requires
        text_le(a, b),
        text_le(b, c),
    ensures
        text_le(a, c),
    decreases a.len(),
{
    if a.len() > 0 && b.len() > 0 && c.len() > 0 && a.first() == b.first() && b.first()
        == c.first() {
        lemma_text_le_transitive(a.drop_first(), b.drop_first(), c.drop_first());
    }
}

/// Two texts that each come before the other or equal it are equal.
pub proof fn lemma_text_le_antisymmetric(a: Seq<char>, b: Seq<char>)
    requires
        text_le(a, b),
        text_le(b, a),
    ensures
        a == b,
    decreases a.len(),
{
    if a.len() > 0 && b.len() > 0 {
        lemma_text_le_antisymmetric(a.drop_first(), b.drop_first());
        assert(a =~= seq![a.first()] + a.drop_first());
        assert(b =~= seq![b.first()] + b.drop_first());
    } else {
        assert(a =~= b);
    }
}

/// The insertion point lies within the sequence, every entry before it has
/// a name that is not later than `name`, and the entry at it, if there is
/// one, has a later name.
pub proof fn lemma_insertion_point(entries: Seq<Entry>, name: Seq<char>)
    ensures
        insertion_point(entries, name) <= entries.len(),
        forall|i: int|
            0 <= i < insertion_point(entries, name) ==> text_le((#[trigger] entries[i]).0, name),
        insertion_point(entries, name) < entries.len() ==> !text_le(
            entries[insertion_point(entries, name) as int].0,
            name,
        ),
    decreases entries.len(),
{
    if entries.len() > 0 && text_le(entries.first().0, name) {
        let rest = entries.drop_first();
        lemma_insertion_point(rest, name);
        assert forall|i: int| 0 <= i < insertion_point(entries, name) implies text_le(
            (#[trigger] entries[i]).0,
            name,
        ) by {
            if i > 0 {
                assert(entries[i] == rest[i - 1]);
            }
        }
        if insertion_point(entries, name) < entries.len() {
            assert(entries[insertion_point(entries, name) as int] == rest[insertion_point(
                rest,
                name,
            ) as int]);
        }
    }
}

/// Placing an entry at its insertion point keeps a sorted sequence sorted.
pub proof fn lemma_insert_keeps_sorted(entries: Seq<Entry>, entry: Entry)
    requires
        sorted(entries),
    ensures
        sorted(entries.insert(insertion_point(entries, entry.0) as int, entry)),
{
    let p = insertion_point(entries, entry.0) as int;
    let after = entries.insert(p, entry);
    lemma_insertion_point(entries, entry.0);
    assert forall|i: int, j: int| 0 <= i <= j < after.len() implies text_le(
        (#[trigger] after[i]).0,
        (#[trigger] after[j]).0,
    ) by {
        if i == j {
            lemma_text_le_total(after[i].0, after[i].0);
        } else if j < p {
            assert(after[i] == entries[i] && after[j] == entries[j]);
        } else if j == p {
            assert(after[i] == entries[i]);
        } else if i < p {
            assert(after[i] == entries[i] && after[j] == entries[j - 1]);
        } else if i == p {
            // The entry at the insertion point has a later name, and so has
            // every entry behind it.
            assert(after[j] == entries[j - 1]);
            lemma_text_le_total(entries[p].0, entry.0);
            assert(text_le(entries[p].0, entries[j - 1].0));
            lemma_text_le_transitive(entry.0, entries[p].0, entries[j - 1].0);
        } else {
            assert(after[i] == entries[i - 1] && after[j] == entries[j - 1]);
        }
    }
}

/// Sorting by name yields the same entries, each as often as it was given,
/// with their names ascending.
pub proof fn lemma_sorted_by_name(entries: Seq<Entry>)
    ensures
        sorted(sorted_by_name(entries)),
        sorted_by_name(entries).len() == entries.len(),
        sorted_by_name(entries).to_multiset() == entries.to_multiset(),
    decreases entries.len(),
{
    broadcast use vstd::seq_lib::group_to_multiset_ensures;

    if entries.len() > 0 {
        let before = sorted_by_name(entries.drop_last());
        lemma_sorted_by_name(entries.drop_last());
        lemma_insertion_point(before, entries.last().0);
        lemma_insert_keeps_sorted(before, entries.last());
        let p = insertion_point(before, entries.last().0) as int;
        vstd::seq_lib::to_multiset_insert(before, p, entries.last());
        assert(entries =~= entries.drop_last().push(entries.last()));
        vstd::seq_lib::to_multiset_build(entries.drop_last(), entries.last());
    } else {
        assert(entries =~= Seq::<Entry>::empty());
    }
}

/// The values that `entries` give to `name`, in the order of the entries.
pub open spec fn values_of(entries: Seq<Entry>, name: Seq<char>) -> Seq<Seq<char>>
    decreases entries.len(),
{
    if entries.len() == 0 {
        Seq::empty()
    } else {
        let before = values_of(entries.drop_last(), name);
        if entries.last().0 == name {
            before.push(entries.last().1)
        } else {
            before
        }
    }
}

/// The values of a name in two sequences put together are its values in the
/// first followed by its values in the second.
pub proof fn lemma_values_of_concat(a: Seq<Entry>, b: Seq<Entry>, name: Seq<char>)
    ensures
        values_of(a + b, name) == values_of(a, name) + values_of(b, name),
    decreases b.len(),
{
    if b.len() == 0 {
        assert(a + b =~= a);
        assert(values_of(a, name) + values_of(b, name) =~= values_of(a, name));
    } else {
        assert((a + b).drop_last() =~= a + b.drop_last());
        assert((a + b).last() == b.last());
        lemma_values_of_concat(a, b.drop_last(), name);
        if b.last().0 == name {
            assert(values_of(a, name) + values_of(b.drop_last(), name).push(b.last().1) =~= (
                values_of(a, name) + values_of(b.drop_last(), name)).push(b.last().1));
        }
    }
}

/// A name that no entry has is given no value.
pub proof fn lemma_values_of_absent(entries: Seq<Entry>, name: Seq<char>)
    requires
        forall|i: int| 0 <= i < entries.len() ==> (#[trigger] entries[i]).0 != name,
    ensures
        values_of(entries, name) == Seq::<Seq<char>>::empty(),
    decreases entries.len(),
{
    if entries.len() > 0 {
        assert forall|i: int| 0 <= i < entries.drop_last().len() implies (
        #[trigger] entries.drop_last()[i]).0 != name by {
            assert(entries.drop_last()[i] == entries[i]);
        }
        lemma_values_of_absent(entries.drop_last(), name);
        assert(entries.last() == entries[entries.len() - 1]);
    }
}

/// Sorting by name is stable: each name is given the same values in the
/// same order before and after.
pub proof fn lemma_sort_is_stable(entries: Seq<Entry>, name: Seq<char>)
    ensures
        values_of(sorted_by_name(entries), name) == values_of(entries, name),
    decreases entries.len(),
{
    if entries.len() > 0 {
        let entry = entries.last();
        let before = sorted_by_name(entries.drop_last());
        let p = insertion_point(before, entry.0) as int;
        lemma_sort_is_stable(entries.drop_last(), name);
        lemma_sorted_by_name(entries.drop_last());
        lemma_insertion_point(before, entry.0);
        let front = before.take(p);
        let back = before.skip(p);
        assert(before =~= front + back);
        assert(before.insert(p, entry) =~= (front + seq![entry]) + back);
        lemma_values_of_concat(front, back, name);
        lemma_values_of_concat(front + seq![entry], back, name);
        lemma_values_of_concat(front, seq![entry], name);
        let single = seq![entry];
        assert(single.len() == 1 && single.last() == entry);
        assert(single.drop_last() =~= Seq::<Entry>::empty());
        assert(values_of(single.drop_last(), name) =~= Seq::<Seq<char>>::empty());
        assert(values_of(single, name) =~= if entry.0 == name {
            seq![entry.1]
        } else {
            Seq::empty()
        });
        if entry.0 == name {
            // Every entry from the insertion point on has a later name.
            assert forall|i: int| 0 <= i < back.len() implies (#[trigger] back[i]).0 != name by {
                assert(back[i] == before[p + i]);
                assert(text_le(before[p].0, before[p + i].0));
            }
            lemma_values_of_absent(back, name);
            assert(values_of(front, name) + seq![entry.1] + Seq::<Seq<char>>::empty()
                =~= values_of(front, name).push(entry.1));
            assert(values_of(front, name) + Seq::<Seq<char>>::empty() =~= values_of(
                front,
                name,
            ));
        } else {
            assert(values_of(front, name) + Seq::<Seq<char>>::empty() =~= values_of(
                front,
                name,
            ));
        }
    }
}

/// Returns whether the text `a` comes before the text `b` or equals it.
pub fn chars_le(a: &Vec<char>, b: &Vec<char>) -> (le: bool)
    ensures
        le == text_le(a@, b@),
{
    let mut i: usize = 0;
    proof {
        assert(a@.skip(0) =~= a@);
        assert(b@.skip(0) =~= b@);
    }
    while i < a.len() && i < b.len()
        invariant
            i <= a.len(),
            i <= b.len(),
            text_le(a@, b@) == text_le(a@.skip(i as int), b@.skip(i as int)),
        decreases a.len() - i,
    {
        proof {
            assert(a@.skip(i as int).drop_first() =~= a@.skip(i + 1));
            assert(b@.skip(i as int).drop_first() =~= b@.skip(i + 1));
        }
        if a[i] != b[i] {
            return a[i] < b[i];
        }
        i += 1;
    }
    i == a.len()
}

} // verus!
