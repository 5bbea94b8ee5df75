//! Buffering of paged records under a first-seen rule: a record whose key was
//! already seen is dropped when it repeats the first record exactly, and the
//! page is rejected when it contradicts it.
use vstd::prelude::*;

verus! {

/// A record that carries an identifying key.
pub trait Keyed: View + Sized {
    /// The key of a record model.
    spec fn key_of(v: Self::V) -> Seq<char>;

    fn record_key_matches(&self, other: &Self) -> (r: bool)
        ensures
            r == (Self::key_of(self@) == Self::key_of(other@)),
    ;

    fn record_equals(&self, other: &Self) -> (r: bool)
        ensures
            r == (self@ == other@),
    ;

    fn record_clone(&self) -> (r: Self)
        ensures
            r@ == self@,
    ;
}

/// The models of a sequence of records.
pub open spec fn views<T: View>(s: Seq<T>) -> Seq<T::V> {
    s.map_values(|t: T| t@)
}

pub open spec fn has_key<T: Keyed>(acc: Seq<T::V>, k: Seq<char>) -> bool {
    exists|i: int| 0 <= i < acc.len() && T::key_of(#[trigger] acc[i]) == k
}

/// No two records of `acc` share a key.
pub open spec fn unique_keys<T: Keyed>(acc: Seq<T::V>) -> bool {
    forall|i: int, j: int|
        0 <= i < acc.len() && 0 <= j < acc.len() && i != j ==> T::key_of(#[trigger] acc[i])
            != T::key_of(#[trigger] acc[j])
}

/// Some record of `acc` has the key of `item` but differs from it.
pub open spec fn contradicts<T: Keyed>(acc: Seq<T::V>, item: T::V) -> bool {
    exists|i: int| 0 <= i < acc.len() && T::key_of(#[trigger] acc[i]) == T::key_of(item) && acc[i] != item
}

/// Adds one record under the first-seen rule; `None` on a contradiction.
pub open spec fn merge_step<T: Keyed>(acc: Seq<T::V>, item: T::V) -> Option<Seq<T::V>> {
    if contradicts::<T>(acc, item) {
        None
    } else if has_key::<T>(acc, T::key_of(item)) {
        Some(acc)
    } else {
        Some(acc.push(item))
    }
}

/// Adds the records of `page`, in order, under the first-seen rule.
pub open spec fn merge<T: Keyed>(acc: Seq<T::V>, page: Seq<T::V>) -> Option<Seq<T::V>>
    decreases page.len(),
{
    if page.len() == 0 {
        Some(acc)
    } else {
        match merge::<T>(acc, page.drop_last()) {
            Some(a) => merge_step::<T>(a, page.last()),
            None => None,
        }
    }
}

/// Merges `page` into `acc` under the first-seen rule. Returns `false`, and
/// leaves `acc` in an unspecified state, when the page contradicts a record
/// seen before.
pub fn merge_first_seen<T: Keyed>(page: &Vec<T>, acc: &mut Vec<T>) -> (ok: bool)
    requires
        unique_keys::<T>(views(old(acc)@)),
    ensures
        ok == merge::<T>(views(old(acc)@), views(page@)) is Some,
        ok ==> Some(views(final(acc)@)) == merge::<T>(views(old(acc)@), views(page@)),
{
    let ghost start = views(acc@);
    let mut i: usize = 0;
    while i < page.len()
        invariant
            i <= page@.len(),
            start == views(old(acc)@),
            merge::<T>(start, views(page@).take(i as int)) == Some(views(acc@)),
            unique_keys::<T>(views(acc@)),
        decreases page@.len() - i,
    {
        proof {
            assert(views(page@).take(i + 1).drop_last() =~= views(page@).take(i as int));
        }
        let item = &page[i];
        let mut found: Option<usize> = None;
        let mut j: usize = 0;
        while j < acc.len()
            invariant
                j <= acc@.len(),
                found is None ==> forall|k: int|
                    0 <= k < j ==> T::key_of(#[trigger] views(acc@)[k]) != T::key_of(item@),
                found matches Some(f) ==> f < acc@.len() && T::key_of(views(acc@)[f as int])
                    == T::key_of(item@),
            decreases acc@.len() - j,
        {
            if found.is_none() && acc[j].record_key_matches(item) {
                found = Some(j);
            }
            j = j + 1;
        }
        match found {
            Some(f) => {
                if !acc[f].record_equals(item) {
                    proof {
                        assert(contradicts::<T>(views(acc@), item@)) by {
                            assert(views(acc@)[f as int] == acc@[f as int]@);
                        }
                        assert(views(page@).take(i + 1).last() == item@);
                        assert(merge::<T>(start, views(page@).take(i + 1)) is None);
                        lemma_merge_none_stays::<T>(start, views(page@), i as int + 1);
                    }
                    return false;
                }
                proof {
                    assert(has_key::<T>(views(acc@), T::key_of(item@)));
                    assert(!contradicts::<T>(views(acc@), item@)) by {
                        if contradicts::<T>(views(acc@), item@) {
                            let k = choose|k: int|
                                0 <= k < views(acc@).len() && T::key_of(#[trigger] views(acc@)[k])
                                    == T::key_of(item@) && views(acc@)[k] != item@;
                            assert(k == f);
                        }
                    }
                }
            },
            None => {
                proof {
                    assert(!has_key::<T>(views(acc@), T::key_of(item@)));
                    assert(!contradicts::<T>(views(acc@), item@));
                }
                let copy = item.record_clone();
                let ghost before = views(acc@);
                acc.push(copy);
                proof {
                    assert(views(acc@) =~= before.push(item@));
                    assert(unique_keys::<T>(views(acc@))) by {
                        assert forall|a: int, b: int|
                            0 <= a < views(acc@).len() && 0 <= b < views(acc@).len() && a != b
                                implies T::key_of(#[trigger] views(acc@)[a]) != T::key_of(
                                #[trigger] views(acc@)[b],
                            ) by {
                            if a == before.len() as int {
                                assert(views(acc@)[b] == before[b]);
                            } else if b == before.len() as int {
                                assert(views(acc@)[a] == before[a]);
                            } else {
                                assert(views(acc@)[a] == before[a]);
                                assert(views(acc@)[b] == before[b]);
                            }
                        }
                    }
                }
            },
        }
        i = i + 1;
    }
    proof {
        assert(views(page@).take(page@.len() as int) =~= views(page@));
    }
    true
}

/// Once a prefix of the page contradicts earlier records, so does every longer prefix.
proof fn lemma_merge_none_stays<T: Keyed>(acc: Seq<T::V>, page: Seq<T::V>, n: int)
    requires
        0 < n <= page.len(),
        merge::<T>(acc, page.take(n)) is None,
    ensures
        merge::<T>(acc, page) is None,
    decreases page.len() - n,
{
    if n < page.len() {
        assert(page.take(n + 1).drop_last() =~= page.take(n));
        lemma_merge_none_stays::<T>(acc, page, n + 1);
    } else {
        assert(page.take(n) =~= page);
    }
}

/// Buffering never produces two records with one key: merging a page into
/// records with distinct keys yields records with distinct keys.
pub proof fn lemma_merge_keeps_keys_unique<T: Keyed>(acc: Seq<T::V>, page: Seq<T::V>)
    requires
        unique_keys::<T>(acc),
        merge::<T>(acc, page) is Some,
    ensures
        unique_keys::<T>(merge::<T>(acc, page).unwrap()),
    decreases page.len(),
{
    if page.len() > 0 {
        lemma_merge_keeps_keys_unique::<T>(acc, page.drop_last());
        let a = merge::<T>(acc, page.drop_last()).unwrap();
        let item = page.last();
        if !has_key::<T>(a, T::key_of(item)) {
            let r = a.push(item);
            assert forall|x: int, y: int|
                0 <= x < r.len() && 0 <= y < r.len() && x != y implies T::key_of(#[trigger] r[x])
                != T::key_of(#[trigger] r[y]) by {
                if x == a.len() as int {
                    assert(r[y] == a[y]);
                } else if y == a.len() as int {
                    assert(r[x] == a[x]);
                } else {
                    assert(r[x] == a[x]);
                    assert(r[y] == a[y]);
                }
            }
        }
    }
}

/// Buffering keeps what came before: the earlier records stay, in order, at
/// the front of the result.
pub proof fn lemma_merge_extends<T: Keyed>(acc: Seq<T::V>, page: Seq<T::V>)
    requires
        merge::<T>(acc, page) is Some,
    ensures
        merge::<T>(acc, page).unwrap().len() >= acc.len(),
        merge::<T>(acc, page).unwrap().subrange(0, acc.len() as int) == acc,
    decreases page.len(),
{
    if page.len() > 0 {
        lemma_merge_extends::<T>(acc, page.drop_last());
        let a = merge::<T>(acc, page.drop_last()).unwrap();
        let r = merge::<T>(acc, page).unwrap();
        if r != a {
            assert(r == a.push(page.last()));
            assert(r.subrange(0, acc.len() as int) =~= a.subrange(0, acc.len() as int));
        }
    }
}

/// Buffering loses no record: every record of an accepted page is in the
/// result, either as its first occurrence or as an exact repetition of it.
pub proof fn lemma_merge_keeps_every_record<T: Keyed>(acc: Seq<T::V>, page: Seq<T::V>)
    requires
        merge::<T>(acc, page) is Some,
    ensures
        forall|i: int| 0 <= i < page.len() ==> merge::<T>(acc, page).unwrap().contains(#[trigger] page[i]),
        forall|i: int| 0 <= i < acc.len() ==> merge::<T>(acc, page).unwrap().contains(#[trigger] acc[i]),
    decreases page.len(),
{
    if page.len() > 0 {
        let front = page.drop_last();
        lemma_merge_keeps_every_record::<T>(acc, front);
        let a = merge::<T>(acc, front).unwrap();
        let r = merge::<T>(acc, page).unwrap();
        let item = page.last();
        assert forall|v: T::V| #[trigger] a.contains(v) implies r.contains(v) by {
            let k = choose|k: int| 0 <= k < a.len() && a[k] == v;
            if r != a {
                assert(r == a.push(item));
                assert(r[k] == v);
            }
        }
        assert(r.contains(item)) by {
            if r == a {
                let k = choose|k: int| 0 <= k < a.len() && T::key_of(#[trigger] a[k]) == T::key_of(item);
                assert(a[k] == item);
            } else {
                assert(r[a.len() as int] == item);
            }
        }
        assert forall|i: int| 0 <= i < page.len() implies r.contains(#[trigger] page[i]) by {
            if i < page.len() - 1 {
                assert(front[i] == page[i]);
                assert(a.contains(front[i]));
            }
        }
        assert forall|i: int| 0 <= i < acc.len() implies r.contains(#[trigger] acc[i]) by {
            assert(a.contains(acc[i]));
        }
    }
}

/// Buffering invents no record: every record of the result was seen before
/// or came with the page.
pub proof fn lemma_merge_only_seen_records<T: Keyed>(acc: Seq<T::V>, page: Seq<T::V>)
    requires
        merge::<T>(acc, page) is Some,
    ensures
        forall|i: int|
            0 <= i < merge::<T>(acc, page).unwrap().len() ==> acc.contains(
                #[trigger] merge::<T>(acc, page).unwrap()[i],
            ) || page.contains(merge::<T>(acc, page).unwrap()[i]),
    decreases page.len(),
{
    if page.len() > 0 {
        let front = page.drop_last();
        lemma_merge_only_seen_records::<T>(acc, front);
        let a = merge::<T>(acc, front).unwrap();
        let r = merge::<T>(acc, page).unwrap();
        assert forall|i: int| 0 <= i < r.len() implies acc.contains(#[trigger] r[i]) || page.contains(r[i]) by {
            if i < a.len() {
                assert(r[i] == a[i]);
                if !acc.contains(a[i]) {
                    assert(front.contains(a[i]));
                    let k = choose|k: int| 0 <= k < front.len() && front[k] == a[i];
                    assert(page[k] == a[i]);
                }
            } else {
                assert(r[i] == page.last());
                assert(page[page.len() - 1] == page.last());
            }
        }
    }
}

/// Buffering adds at most one record per record of the page.
pub proof fn lemma_merge_len<T: Keyed>(acc: Seq<T::V>, page: Seq<T::V>)
    requires
        merge::<T>(acc, page) is Some,
    ensures
        merge::<T>(acc, page).unwrap().len() <= acc.len() + page.len(),
    decreases page.len(),
{
    if page.len() > 0 {
        lemma_merge_len::<T>(acc, page.drop_last());
    }
}


/// Buffering two pages one after the other is buffering the two pages
/// joined: the first-seen rule does not depend on where a page ends.
pub proof fn lemma_merge_concat<T: Keyed>(acc: Seq<T::V>, first: Seq<T::V>, second: Seq<T::V>)
    ensures
        merge::<T>(acc, first + second) == match merge::<T>(acc, first) {
            Some(a) => merge::<T>(a, second),
            None => None,
        },
    decreases second.len(),
{
    if second.len() == 0 {
        assert(first + second =~= first);
    } else {
        lemma_merge_concat::<T>(acc, first, second.drop_last());
        assert((first + second).drop_last() =~= first + second.drop_last());
        assert((first + second).last() == second.last());
    }
}

} // verus!
