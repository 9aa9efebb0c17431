//! Tables as sequences of records, and the selections, orderings and
//! revisions that every repository is built from.

use vstd::prelude::*;
use crate::error::DbResult;
use crate::error::Error;
use crate::values::id_is;
use crate::values::is_named;
use crate::values::RecordId;
use crate::values::Table;

verus! {

/// A row of a table: it carries the identity that the store gave it, and can
/// be copied exactly.
pub trait Record: Sized {
    /// The identity of the record, once the store has assigned one.
    spec fn record_id(&self) -> Option<RecordId>;

    fn id(&self) -> (r: &Option<RecordId>)
        ensures
            *r == self.record_id(),
    ;

    fn duplicate(&self) -> (r: Self)
        ensures
            r == *self,
    ;

    /// The record as the store files it under `id`.
    spec fn filed(self, id: RecordId) -> Self;

    fn file_under(self, id: RecordId) -> (r: Self)
        ensures
            r == self.filed(id),
            r.record_id() == Some(id),
    ;
}

/// The records of `table` that are filed under `key`.
pub open spec fn keyed<T: Record>(table: Table, key: Seq<char>) -> spec_fn(T) -> bool {
    |t: T| is_named(t.record_id(), table, key)
}

/// Whether two identities are both present and name the same record.
pub open spec fn same_identity(a: Option<RecordId>, b: Option<RecordId>) -> bool {
    match (a, b) {
        (Some(x), Some(y)) => x.names(y.table, y.key@),
        _ => false,
    }
}

/// No two records of the table carry the same identity.
pub open spec fn ids_unique<T: Record>(s: Seq<T>) -> bool {
    forall|i: int, j: int|
        0 <= i < j < s.len() ==> !same_identity(
            #[trigger] s[i].record_id(),
            #[trigger] s[j].record_id(),
        )
}

/// `i` is the position of the first record of `s` that satisfies `pred`.
pub open spec fn is_first_match<T>(s: Seq<T>, pred: spec_fn(T) -> bool, i: int) -> bool {
    &&& 0 <= i < s.len()
    &&& pred(s[i])
    &&& forall|j: int| 0 <= j < i ==> !pred(#[trigger] s[j])
}

/// The position of the first record that satisfies `pred`, or the length of
/// the sequence when none does.
pub open spec fn first_index<T>(s: Seq<T>, pred: spec_fn(T) -> bool) -> int {
    if exists|i: int| is_first_match(s, pred, i) {
        choose|i: int| is_first_match(s, pred, i)
    } else {
        s.len() as int
    }
}

/// The first record that satisfies `pred`, if there is one.
pub open spec fn first_match<T>(s: Seq<T>, pred: spec_fn(T) -> bool) -> Option<T> {
    let i = first_index(s, pred);
    if i < s.len() {
        Some(s[i])
    } else {
        None
    }
}

/// The sequence with `apply` applied to the first record that satisfies `pred`.
pub open spec fn revise_first<T>(s: Seq<T>, pred: spec_fn(T) -> bool, apply: spec_fn(T) -> T) -> Seq<T> {
    let i = first_index(s, pred);
    if i < s.len() {
        s.update(i, apply(s[i]))
    } else {
        s
    }
}

/// What `revise_first` hands back: the revised record, if one was found.
pub open spec fn revised_first<T>(s: Seq<T>, pred: spec_fn(T) -> bool, apply: spec_fn(T) -> T) -> Option<T> {
    match first_match(s, pred) {
        Some(t) => Some(apply(t)),
        None => None,
    }
}

/// The sequence with `apply` applied to every record that satisfies `pred`.
pub open spec fn revise_all<T>(s: Seq<T>, pred: spec_fn(T) -> bool, apply: spec_fn(T) -> T) -> Seq<T> {
    Seq::new(s.len(), |i: int| if pred(s[i]) { apply(s[i]) } else { s[i] })
}

/// `x` placed into `s` behind every record that it does not come before.
pub open spec fn placed<T>(s: Seq<T>, x: T, before: spec_fn(T, T) -> bool) -> Seq<T>
    decreases s.len(),
{
    if s.len() == 0 || !before(x, s.last()) {
        s.push(x)
    } else {
        placed(s.drop_last(), x, before).push(s.last())
    }
}

/// The records of `s` in the order that `before` gives; records of which
/// neither comes before the other keep the order they had in `s`.
pub open spec fn ordered<T>(s: Seq<T>, before: spec_fn(T, T) -> bool) -> Seq<T>
    decreases s.len(),
{
    if s.len() == 0 {
        s
    } else {
        placed(ordered(s.drop_last(), before), s.last(), before)
    }
}

/// At most the first `n` records of `s`.
pub open spec fn limited<T>(s: Seq<T>, n: nat) -> Seq<T> {
    if n < s.len() {
        s.take(n as int)
    } else {
        s
    }
}

/// The sum of `amount` over the records of `s`.
pub open spec fn total<T>(s: Seq<T>, amount: spec_fn(T) -> int) -> int
    decreases s.len(),
{
    if s.len() == 0 {
        0
    } else {
        total(s.drop_last(), amount) + amount(s.last())
    }
}

/// The first match is the one position that `is_first_match` holds of.
pub proof fn lemma_first_index<T>(s: Seq<T>, pred: spec_fn(T) -> bool, i: int)
    requires
        is_first_match(s, pred, i),
    ensures
        first_index(s, pred) == i,
        first_match(s, pred) == Some(s[i]),
{
    let k = choose|k: int| is_first_match(s, pred, k);
    assert(is_first_match(s, pred, k));
    if k < i {
        assert(!pred(s[k]));
    } else if i < k {
        assert(!pred(s[i]));
    }
}

/// Where no record satisfies `pred` there is no first match.
pub proof fn lemma_no_first_index<T>(s: Seq<T>, pred: spec_fn(T) -> bool)
    requires
        forall|j: int| 0 <= j < s.len() ==> !pred(#[trigger] s[j]),
    ensures
        first_index(s, pred) == s.len(),
        first_match(s, pred) == None::<T>,
{
    if exists|i: int| is_first_match(s, pred, i) {
        let k = choose|k: int| is_first_match(s, pred, k);
        assert(pred(s[k]));
    }
}

/// The first match, where there is one, satisfies `pred` and is the first to.
pub proof fn lemma_first_index_is_first<T>(s: Seq<T>, pred: spec_fn(T) -> bool)
    ensures
        0 <= first_index(s, pred) <= s.len(),
        first_index(s, pred) < s.len() ==> is_first_match(s, pred, first_index(s, pred)),
        first_index(s, pred) == s.len() ==> forall|j: int|
            0 <= j < s.len() ==> !pred(#[trigger] s[j]),
{
    if exists|i: int| is_first_match(s, pred, i) {
    } else {
        assert forall|j: int| 0 <= j < s.len() implies !pred(#[trigger] s[j]) by {
            if pred(s[j]) {
                lemma_some_first_match(s, pred, j);
            }
        }
    }
}

/// Where some record satisfies `pred`, one of them is the first.
proof fn lemma_some_first_match<T>(s: Seq<T>, pred: spec_fn(T) -> bool, j: int)
    requires
        0 <= j < s.len(),
        pred(s[j]),
    ensures
        exists|i: int| is_first_match(s, pred, i),
    decreases j,
{
    if forall|k: int| 0 <= k < j ==> !pred(#[trigger] s[k]) {
        assert(is_first_match(s, pred, j));
    } else {
        let k = choose|k: int| 0 <= k < j && pred(#[trigger] s[k]);
        lemma_some_first_match(s, pred, k);
    }
}

/// Placing a record keeps every record that was there and adds the new one.
pub proof fn lemma_placed_multiset<T>(s: Seq<T>, x: T, before: spec_fn(T, T) -> bool)
    ensures
        placed(s, x, before).to_multiset() == s.to_multiset().insert(x),
        placed(s, x, before).len() == s.len() + 1,
    decreases s.len(),
{
    broadcast use vstd::seq_lib::group_to_multiset_ensures;

    if s.len() == 0 || !before(x, s.last()) {
    } else {
        lemma_placed_multiset(s.drop_last(), x, before);
        assert(s == s.drop_last().push(s.last()));
        assert(placed(s, x, before).to_multiset() =~= s.to_multiset().insert(x));
    }
}

/// Ordering a sequence neither loses nor invents a record.
pub proof fn lemma_ordered_multiset<T>(s: Seq<T>, before: spec_fn(T, T) -> bool)
    ensures
        ordered(s, before).to_multiset() == s.to_multiset(),
        ordered(s, before).len() == s.len(),
    decreases s.len(),
{
    broadcast use vstd::seq_lib::group_to_multiset_ensures;

    if s.len() == 0 {
    } else {
        lemma_ordered_multiset(s.drop_last(), before);
        lemma_placed_multiset(ordered(s.drop_last(), before), s.last(), before);
        assert(s == s.drop_last().push(s.last()));
    }
}

/// Every record of an ordered sequence is a record of the sequence that was ordered.
pub proof fn lemma_ordered_members<T>(s: Seq<T>, before: spec_fn(T, T) -> bool)
    ensures
        forall|x: T| ordered(s, before).contains(x) <==> s.contains(x),
{
    broadcast use vstd::seq_lib::group_to_multiset_ensures;

    lemma_ordered_multiset(s, before);
    assert forall|x: T| ordered(s, before).contains(x) <==> s.contains(x) by {
        assert(ordered(s, before).to_multiset().count(x) == s.to_multiset().count(x));
    }
}

/// What holds of every record of a sequence holds of every record of it, ordered.
pub proof fn lemma_ordered_all<T>(s: Seq<T>, before: spec_fn(T, T) -> bool, pred: spec_fn(T) -> bool)
    requires
        forall|i: int| 0 <= i < s.len() ==> pred(#[trigger] s[i]),
    ensures
        forall|i: int|
            0 <= i < ordered(s, before).len() ==> pred(#[trigger] ordered(s, before)[i]),
{
    lemma_ordered_members(s, before);
    let o = ordered(s, before);
    assert forall|i: int| 0 <= i < o.len() implies pred(#[trigger] o[i]) by {
        assert(o.contains(o[i]));
        assert(s.contains(o[i]));
        let j = choose|j: int| 0 <= j < s.len() && s[j] == o[i];
        assert(pred(s[j]));
    }
}


/// Placing `x` puts it at the one position behind which every record comes
/// after it and before which the nearest record does not.
pub proof fn lemma_placed_at<T>(s: Seq<T>, x: T, before: spec_fn(T, T) -> bool, p: int)
    requires
        0 <= p <= s.len(),
        forall|j: int| p <= j < s.len() ==> before(x, #[trigger] s[j]),
        p == 0 || !before(x, s[p - 1]),
    ensures
        placed(s, x, before) == s.insert(p, x),
    decreases s.len() - p,
{
    if p == s.len() {
        assert(s.push(x) =~= s.insert(p, x));
    } else {
        assert(before(x, s[s.len() - 1]));
        lemma_placed_at(s.drop_last(), x, before, p);
        assert(s.drop_last().insert(p, x).push(s.last()) =~= s.insert(p, x));
    }
}

/// `keep` computes `pred`.
pub open spec fn decides<T, F: Fn(&T) -> bool>(keep: F, pred: spec_fn(T) -> bool) -> bool {
    &&& forall|t: T| #[trigger] call_requires(keep, (&t,))
    &&& forall|t: T, b: bool| #[trigger] call_ensures(keep, (&t,), b) ==> b == pred(t)
}

/// `change` computes `apply`.
pub open spec fn rewrites<T, G: Fn(&T) -> T>(change: G, apply: spec_fn(T) -> T) -> bool {
    &&& forall|t: T| #[trigger] call_requires(change, (&t,))
    &&& forall|t: T, n: T| #[trigger] call_ensures(change, (&t,), n) ==> n == apply(t)
}

/// `precedes` computes `before`.
pub open spec fn arranges<T, B: Fn(&T, &T) -> bool>(precedes: B, before: spec_fn(T, T) -> bool) -> bool {
    &&& forall|a: T, b: T| #[trigger] call_requires(precedes, (&a, &b))
    &&& forall|a: T, b: T, r: bool| #[trigger] call_ensures(precedes, (&a, &b), r) ==> r == before(a, b)
}

/// `value` computes `amount`.
pub open spec fn measures<T, V: Fn(&T) -> i64>(value: V, amount: spec_fn(T) -> int) -> bool {
    &&& forall|t: T| #[trigger] call_requires(value, (&t,))
    &&& forall|t: T, v: i64| #[trigger] call_ensures(value, (&t,), v) ==> v == amount(t)
}

/// The records that satisfy `pred`, in the order of the table.
pub(crate) fn select<T: Record, F: Fn(&T) -> bool>(
    table: &Vec<T>,
    keep: F,
    Ghost(pred): Ghost<spec_fn(T) -> bool>,
) -> (r: Vec<T>)
    requires
        decides(keep, pred),
    ensures
        r@ == table@.filter(pred),
        forall|i: int| 0 <= i < r.len() ==> pred(#[trigger] r@[i]),
{
    let mut out: Vec<T> = Vec::new();
    let mut i: usize = 0;
    while i < table.len()
        invariant
            i <= table.len(),
            decides(keep, pred),
            out@ == table@.take(i as int).filter(pred),
        decreases table.len() - i,
    {
        proof {
            reveal(Seq::filter);
            assert(table@.take(i + 1).drop_last() == table@.take(i as int));
        }
        if keep(&table[i]) {
            out.push(table[i].duplicate());
        }
        i += 1;
    }
    proof {
        assert(table@.take(table.len() as int) == table@);
        broadcast use vstd::seq_lib::group_filter_ensures;

    }
    out
}

/// The records that satisfy `pred`, in the order that `before` gives.
pub(crate) fn select_ordered<T: Record, F: Fn(&T) -> bool, B: Fn(&T, &T) -> bool>(
    table: &Vec<T>,
    keep: F,
    precedes: B,
    Ghost(pred): Ghost<spec_fn(T) -> bool>,
    Ghost(before): Ghost<spec_fn(T, T) -> bool>,
) -> (r: Vec<T>)
    requires
        decides(keep, pred),
        arranges(precedes, before),
    ensures
        r@ == ordered(table@.filter(pred), before),
        r.len() == table@.filter(pred).len(),
        forall|i: int| 0 <= i < r.len() ==> pred(#[trigger] r@[i]),
        ranks(before) ==> in_order(r@, before),
{
    let mut out: Vec<T> = Vec::new();
    let mut i: usize = 0;
    while i < table.len()
        invariant
            i <= table.len(),
            decides(keep, pred),
            arranges(precedes, before),
            out@ == ordered(table@.take(i as int).filter(pred), before),
        decreases table.len() - i,
    {
        proof {
            reveal(Seq::filter);
            assert(table@.take(i + 1).drop_last() == table@.take(i as int));
        }
        if keep(&table[i]) {
            let mut p: usize = out.len();
            let mut searching = true;
            while searching && p > 0
                invariant
                    i < table.len(),
                    p <= out.len(),
                    arranges(precedes, before),
                    forall|j: int| p <= j < out.len() ==> before(table@[i as int], #[trigger] out@[j]),
                    !searching ==> (p == 0 || !before(table@[i as int], out@[p - 1])),
                decreases p + (if searching { 1int } else { 0int }),
            {
                if precedes(&table[i], &out[p - 1]) {
                    p -= 1;
                } else {
                    searching = false;
                }
            }
            proof {
                lemma_placed_at(out@, table@[i as int], before, p as int);
                let kept = table@.take(i + 1).filter(pred);
                assert(kept == table@.take(i as int).filter(pred).push(table@[i as int]));
                assert(kept.drop_last() == table@.take(i as int).filter(pred));
            }
            out.insert(p, table[i].duplicate());
        }
        i += 1;
    }
    proof {
        assert(table@.take(table.len() as int) == table@);
        broadcast use vstd::seq_lib::group_filter_ensures;

        lemma_ordered_multiset(table@.filter(pred), before);
        lemma_ordered_all(table@.filter(pred), before, pred);
        if ranks(before) {
            law_ordered_in_order(table@.filter(pred), before);
        }
    }
    out
}

/// The position of the first record that satisfies `pred`.
pub(crate) fn locate<T, F: Fn(&T) -> bool>(
    table: &Vec<T>,
    keep: F,
    Ghost(pred): Ghost<spec_fn(T) -> bool>,
) -> (r: Option<usize>)
    requires
        decides(keep, pred),
    ensures
        match r {
            Some(i) => i == first_index(table@, pred) && i < table.len() && pred(table@[i as int]),
            None => first_index(table@, pred) == table.len() && first_match(table@, pred)
                == None::<T>,
        },
{
    let mut i: usize = 0;
    while i < table.len()
        invariant
            i <= table.len(),
            decides(keep, pred),
            forall|j: int| 0 <= j < i ==> !pred(#[trigger] table@[j]),
        decreases table.len() - i,
    {
        if keep(&table[i]) {
            proof {
                lemma_first_index(table@, pred, i as int);
            }
            return Some(i);
        }
        i += 1;
    }
    proof {
        lemma_no_first_index(table@, pred);
    }
    None
}

/// The first record that satisfies `pred`.
pub(crate) fn find<T: Record, F: Fn(&T) -> bool>(
    table: &Vec<T>,
    keep: F,
    Ghost(pred): Ghost<spec_fn(T) -> bool>,
) -> (r: Option<T>)
    requires
        decides(keep, pred),
    ensures
        r == first_match(table@, pred),
        r is Some ==> pred(r.unwrap()) && table@.contains(r.unwrap()),
        r is None ==> forall|j: int| 0 <= j < table.len() ==> !pred(#[trigger] table@[j]),
{
    proof {
        lemma_first_index_is_first(table@, pred);
    }
    match locate(table, keep, Ghost(pred)) {
        Some(i) => Some(table[i].duplicate()),
        None => None,
    }
}

/// Whether any record satisfies `pred`.
pub(crate) fn any<T, F: Fn(&T) -> bool>(
    table: &Vec<T>,
    keep: F,
    Ghost(pred): Ghost<spec_fn(T) -> bool>,
) -> (r: bool)
    requires
        decides(keep, pred),
    ensures
        r == (first_match(table@, pred) is Some),
        r == exists|j: int| 0 <= j < table.len() && pred(#[trigger] table@[j]),
{
    proof {
        lemma_first_index_is_first(table@, pred);
    }
    locate(table, keep, Ghost(pred)).is_some()
}

/// The number of records that satisfy `pred`.
pub(crate) fn count<T, F: Fn(&T) -> bool>(
    table: &Vec<T>,
    keep: F,
    Ghost(pred): Ghost<spec_fn(T) -> bool>,
) -> (r: usize)
    requires
        decides(keep, pred),
    ensures
        r == table@.filter(pred).len(),
{
    let mut n: usize = 0;
    let mut i: usize = 0;
    while i < table.len()
        invariant
            i <= table.len(),
            n <= i,
            decides(keep, pred),
            n == table@.take(i as int).filter(pred).len(),
        decreases table.len() - i,
    {
        proof {
            reveal(Seq::filter);
            assert(table@.take(i + 1).drop_last() == table@.take(i as int));
        }
        if keep(&table[i]) {
            n += 1;
        }
        i += 1;
    }
    proof {
        assert(table@.take(table.len() as int) == table@);
    }
    n
}

/// The limit that a caller asked for, or the one that holds where none was asked for.
pub open spec fn limit_or(limit: Option<u32>, default: u32) -> nat {
    match limit {
        Some(n) => n as nat,
        None => default as nat,
    }
}

/// At most as many records, from the first on, as `limit` says, or as
/// `default` says where `limit` says nothing.
pub(crate) fn capped<T>(records: Vec<T>, limit: Option<u32>, default: u32) -> (r: Vec<T>)
    ensures
        r@ == limited(records@, limit_or(limit, default)),
        r.len() <= limit_or(limit, default),
        r.len() <= records.len(),
        forall|i: int| 0 <= i < r.len() ==> r@[i] == records@[i],
{
    let n = match limit {
        Some(n) => n,
        None => default,
    };
    let mut records = records;
    records.truncate(n as usize);
    records
}

/// Rewrites the first record that satisfies `pred`, and hands back the record as rewritten.
pub(crate) fn rewrite_first<T: Record, F: Fn(&T) -> bool, G: Fn(&T) -> T>(
    table: &mut Vec<T>,
    keep: F,
    change: G,
    Ghost(pred): Ghost<spec_fn(T) -> bool>,
    Ghost(apply): Ghost<spec_fn(T) -> T>,
) -> (r: Option<T>)
    requires
        decides(keep, pred),
        rewrites(change, apply),
    ensures
        final(table)@ == revise_first(old(table)@, pred, apply),
        r == revised_first(old(table)@, pred, apply),
        final(table).len() == old(table).len(),
{
    match locate(table, keep, Ghost(pred)) {
        Some(i) => {
            let next = change(&table[i]);
            let back = next.duplicate();
            table.set(i, next);
            Some(back)
        },
        None => None,
    }
}

/// Rewrites every record that satisfies `pred`, and hands back the records as rewritten.
pub(crate) fn rewrite_all<T: Record, F: Fn(&T) -> bool, G: Fn(&T) -> T>(
    table: &mut Vec<T>,
    keep: F,
    change: G,
    Ghost(pred): Ghost<spec_fn(T) -> bool>,
    Ghost(apply): Ghost<spec_fn(T) -> T>,
) -> (r: Vec<T>)
    requires
        decides(keep, pred),
        rewrites(change, apply),
    ensures
        final(table)@ == revise_all(old(table)@, pred, apply),
        r@ == old(table)@.filter(pred).map_values(apply),
        final(table).len() == old(table).len(),
{
    let mut out: Vec<T> = Vec::new();
    let mut i: usize = 0;
    while i < table.len()
        invariant
            i <= table.len(),
            table.len() == old(table).len(),
            decides(keep, pred),
            rewrites(change, apply),
            forall|j: int| 0 <= j < i ==> #[trigger] table@[j] == revise_all(old(table)@, pred, apply)[j],
            forall|j: int| i <= j < table.len() ==> #[trigger] table@[j] == old(table)@[j],
            out@ == old(table)@.take(i as int).filter(pred).map_values(apply),
        decreases table.len() - i,
    {
        proof {
            reveal(Seq::filter);
            assert(old(table)@.take(i + 1).drop_last() == old(table)@.take(i as int));
        }
        if keep(&table[i]) {
            let next = change(&table[i]);
            proof {
                let kept = old(table)@.take(i as int).filter(pred);
                assert(kept.push(old(table)@[i as int]).map_values(apply) =~= kept.map_values(
                    apply,
                ).push(apply(old(table)@[i as int])));
            }
            out.push(next.duplicate());
            table.set(i, next);
        }
        i += 1;
    }
    proof {
        assert(old(table)@.take(table.len() as int) == old(table)@);
        assert(table@ =~= revise_all(old(table)@, pred, apply));
    }
    out
}


/// Some record of the table is filed under `key` of `table`.
pub open spec fn holds<T: Record>(s: Seq<T>, table: Table, key: Seq<char>) -> bool {
    exists|i: int| 0 <= i < s.len() && is_named(#[trigger] s[i].record_id(), table, key)
}

/// The first record filed under `key`.
pub(crate) fn find_by_id<T: Record>(records: &Vec<T>, table: Table, key: &String) -> (r: Option<T>)
    ensures
        r == first_match(records@, keyed(table, key@)),
        r is Some ==> is_named(r.unwrap().record_id(), table, key@),
        r is Some <==> holds(records@, table, key@),
{
    let keep = |t: &T| -> (b: bool)
        ensures
            b == keyed::<T>(table, key@)(*t),
        { id_is(t.id(), table, key) };
    find(records, keep, Ghost(keyed(table, key@)))
}

/// The position of the first record filed under `key`.
pub(crate) fn locate_by_id<T: Record>(records: &Vec<T>, table: Table, key: &String) -> (r: Option<
    usize,
>)
    ensures
        match r {
            Some(i) => i == first_index(records@, keyed(table, key@)) && i < records.len()
                && is_named(records@[i as int].record_id(), table, key@),
            None => first_index(records@, keyed::<T>(table, key@)) == records.len(),
        },
        r is Some <==> holds(records@, table, key@),
{
    let keep = |t: &T| -> (b: bool)
        ensures
            b == keyed::<T>(table, key@)(*t),
        { id_is(t.id(), table, key) };
    proof {
        lemma_first_index_is_first(records@, keyed::<T>(table, key@));
    }
    locate(records, keep, Ghost(keyed(table, key@)))
}

/// Rewrites the first record filed under `key`, and hands back the record as rewritten.
pub(crate) fn rewrite_by_id<T: Record, G: Fn(&T) -> T>(
    records: &mut Vec<T>,
    table: Table,
    key: &String,
    change: G,
    Ghost(apply): Ghost<spec_fn(T) -> T>,
) -> (r: Option<T>)
    requires
        rewrites(change, apply),
    ensures
        final(records)@ == revise_first(old(records)@, keyed(table, key@), apply),
        r == revised_first(old(records)@, keyed(table, key@), apply),
        r is Some <==> holds(old(records)@, table, key@),
        final(records).len() == old(records).len(),
{
    let keep = |t: &T| -> (b: bool)
        ensures
            b == keyed::<T>(table, key@)(*t),
        { id_is(t.id(), table, key) };
    proof {
        lemma_first_index_is_first(records@, keyed::<T>(table, key@));
    }
    rewrite_first(records, keep, change, Ghost(keyed(table, key@)), Ghost(apply))
}

/// Files a record that carries its identity: it joins the table at the end,
/// unless a record of that identity is there already.
pub(crate) fn file<T: Record>(records: &mut Vec<T>, record: T) -> (r: DbResult<Option<T>>)
    requires
        record.record_id() is Some,
    ensures
        match r {
            Ok(filed) => filed == Some(record) && final(records)@ == old(records)@.push(record)
                && !holds(
                old(records)@,
                record.record_id().unwrap().table,
                record.record_id().unwrap().key@,
            ),
            Err(e) => e == Error::Duplicate(record.record_id().unwrap().key) && final(records)@
                == old(records)@ && holds(
                old(records)@,
                record.record_id().unwrap().table,
                record.record_id().unwrap().key@,
            ),
        },
{
    let taken = match record.id() {
        Some(rid) => locate_by_id(records, rid.table, &rid.key).is_some(),
        None => false,
    };
    if taken {
        match record.id() {
            Some(rid) => Err(Error::Duplicate(rid.key.clone())),
            None => Ok(None),
        }
    } else {
        let back = record.duplicate();
        records.push(record);
        Ok(Some(back))
    }
}

/// Filing a record of a new identity keeps identities unique.
pub proof fn lemma_push_keeps_ids_unique<T: Record>(s: Seq<T>, record: T)
    requires
        ids_unique(s),
        record.record_id() is Some ==> !holds(
            s,
            record.record_id().unwrap().table,
            record.record_id().unwrap().key@,
        ),
    ensures
        ids_unique(s.push(record)),
{
    let t = s.push(record);
    assert forall|i: int, j: int| 0 <= i < j < t.len() implies !same_identity(
        #[trigger] t[i].record_id(),
        #[trigger] t[j].record_id(),
    ) by {
        if j == s.len() {
            if same_identity(t[i].record_id(), t[j].record_id()) {
                assert(is_named(
                    s[i].record_id(),
                    record.record_id().unwrap().table,
                    record.record_id().unwrap().key@,
                ));
            }
        } else {
            assert(t[i] == s[i] && t[j] == s[j]);
        }
    }
}

/// Filing keeps the identities of a table apart: whether the record is
/// filed or refused, no two records of the table carry one identity after,
/// where none did before.
pub proof fn law_filing_keeps_ids_unique<T: Record>(
    before: Seq<T>,
    after: Seq<T>,
    record: T,
    answer: DbResult<Option<T>>,
)
    requires
        ids_unique(before),
        record.record_id() is Some,
        files(before, after, record, answer),
    ensures
        ids_unique(after),
{
    let id = record.record_id().unwrap();
    if !holds(before, id.table, id.key@) {
        lemma_push_keeps_ids_unique(before, record);
    }
}

/// Rewriting keeps the identities of a table apart, where what is
/// rewritten keeps its identity.
pub proof fn law_revising_keeps_ids_unique<T: Record>(
    before: Seq<T>,
    pred: spec_fn(T) -> bool,
    apply: spec_fn(T) -> T,
)
    requires
        ids_unique(before),
        forall|t: T| #[trigger] apply(t).record_id() == t.record_id(),
    ensures
        ids_unique(revise_first(before, pred, apply)),
        ids_unique(revise_all(before, pred, apply)),
{
    let one = revise_first(before, pred, apply);
    let all = revise_all(before, pred, apply);
    lemma_first_index_is_first(before, pred);
    assert forall|i: int, j: int| 0 <= i < j < one.len() implies !same_identity(
        #[trigger] one[i].record_id(),
        #[trigger] one[j].record_id(),
    ) by {
        assert(one[i].record_id() == before[i].record_id());
        assert(one[j].record_id() == before[j].record_id());
    }
    assert forall|i: int, j: int| 0 <= i < j < all.len() implies !same_identity(
        #[trigger] all[i].record_id(),
        #[trigger] all[j].record_id(),
    ) by {
        assert(all[i].record_id() == before[i].record_id());
        assert(all[j].record_id() == before[j].record_id());
    }
}


/// The first record of a sequence, if it has one.
pub open spec fn first_of<T>(s: Seq<T>) -> Option<T> {
    if s.len() > 0 {
        Some(s[0])
    } else {
        None
    }
}

/// `derive` computes `spec_derive`.
pub open spec fn derives<T, U, D: Fn(&T) -> Option<U>>(
    derive: D,
    spec_derive: spec_fn(T) -> Option<U>,
) -> bool {
    &&& forall|t: T| #[trigger] call_requires(derive, (&t,))
    &&& forall|t: T, u: Option<U>| #[trigger]
        call_ensures(derive, (&t,), u) ==> u == spec_derive(t)
}

/// `turn` computes `spec_turn`.
pub open spec fn turns<T, U, D: Fn(&T) -> U>(turn: D, spec_turn: spec_fn(T) -> U) -> bool {
    &&& forall|t: T| #[trigger] call_requires(turn, (&t,))
    &&& forall|t: T, u: U| #[trigger] call_ensures(turn, (&t,), u) ==> u == spec_turn(t)
}

/// What `derive` makes of the records of the table, in their order, where it
/// makes anything of them.
pub(crate) fn collect<T, U, D: Fn(&T) -> Option<U>>(
    table: &Vec<T>,
    derive: D,
    Ghost(spec_derive): Ghost<spec_fn(T) -> Option<U>>,
) -> (r: Vec<U>)
    requires
        derives(derive, spec_derive),
    ensures
        r@ == table@.filter_map(spec_derive),
{
    let mut out: Vec<U> = Vec::new();
    let mut i: usize = 0;
    while i < table.len()
        invariant
            i <= table.len(),
            derives(derive, spec_derive),
            out@ == table@.take(i as int).filter_map(spec_derive),
        decreases table.len() - i,
    {
        proof {
            reveal(Seq::filter_map);
            assert(table@.take(i + 1).drop_last() == table@.take(i as int));
        }
        match derive(&table[i]) {
            Some(u) => {
                out.push(u);
            },
            None => {},
        }
        i += 1;
    }
    proof {
        assert(table@.take(table.len() as int) == table@);
    }
    out
}

/// What `turn` makes of each record of the table, in their order.
pub(crate) fn convert<T, U, D: Fn(&T) -> U>(
    table: &Vec<T>,
    turn: D,
    Ghost(spec_turn): Ghost<spec_fn(T) -> U>,
) -> (r: Vec<U>)
    requires
        turns(turn, spec_turn),
    ensures
        r@ == table@.map_values(spec_turn),
{
    let mut out: Vec<U> = Vec::new();
    let mut i: usize = 0;
    while i < table.len()
        invariant
            i <= table.len(),
            turns(turn, spec_turn),
            out@ == table@.take(i as int).map_values(spec_turn),
        decreases table.len() - i,
    {
        let u = turn(&table[i]);
        proof {
            assert(table@.take(i + 1).map_values(spec_turn) =~= table@.take(i as int).map_values(
                spec_turn,
            ).push(spec_turn(table@[i as int])));
        }
        out.push(u);
        i += 1;
    }
    proof {
        assert(table@.take(table.len() as int) == table@);
    }
    out
}

/// The rows in the order that `before` gives.
pub(crate) fn arrange<U, B: Fn(&U, &U) -> bool>(
    rows: Vec<U>,
    precedes: B,
    Ghost(before): Ghost<spec_fn(U, U) -> bool>,
) -> (r: Vec<U>)
    requires
        arranges(precedes, before),
    ensures
        r@ == ordered(rows@, before),
        r.len() == rows.len(),
        ranks(before) ==> in_order(r@, before),
{
    let mut rest = rows;
    let mut out: Vec<U> = Vec::new();
    let ghost mut done: int = 0;
    while rest.len() > 0
        invariant
            arranges(precedes, before),
            0 <= done <= rows.len(),
            rest@ == rows@.skip(done),
            out@ == ordered(rows@.take(done), before),
        decreases rest.len(),
    {
        let x = rest.remove(0);
        let mut p: usize = out.len();
        let mut searching = true;
        while searching && p > 0
            invariant
                p <= out.len(),
                arranges(precedes, before),
                forall|j: int| p <= j < out.len() ==> before(x, #[trigger] out@[j]),
                !searching ==> (p == 0 || !before(x, out@[p - 1])),
            decreases p + (if searching { 1int } else { 0int }),
        {
            if precedes(&x, &out[p - 1]) {
                p -= 1;
            } else {
                searching = false;
            }
        }
        proof {
            lemma_placed_at(out@, x, before, p as int);
            assert(x == rows@[done]);
            assert(rows@.take(done + 1).drop_last() == rows@.take(done));
            assert(rows@.skip(done).remove(0) == rows@.skip(done + 1));
            done = done + 1;
        }
        out.insert(p, x);
    }
    proof {
        assert(rows@.take(rows.len() as int) == rows@);
        lemma_ordered_multiset(rows@, before);
        if ranks(before) {
            law_ordered_in_order(rows@, before);
        }
    }
    out
}

/// How many records satisfy `pred`, and the sum of `amount` over them.
pub(crate) fn tally<T, F: Fn(&T) -> bool, V: Fn(&T) -> i64>(
    table: &Vec<T>,
    keep: F,
    value: V,
    Ghost(pred): Ghost<spec_fn(T) -> bool>,
    Ghost(amount): Ghost<spec_fn(T) -> int>,
) -> (r: (usize, i128))
    requires
        decides(keep, pred),
        measures(value, amount),
    ensures
        r.0 == table@.filter(pred).len(),
        r.1 == total(table@.filter(pred), amount),
        r.0 * (i64::MIN as int) <= r.1 <= r.0 * (i64::MAX as int),
{
    let mut n: usize = 0;
    let mut acc: i128 = 0;
    let mut i: usize = 0;
    while i < table.len()
        invariant
            i <= table.len(),
            n <= i,
            decides(keep, pred),
            measures(value, amount),
            n == table@.take(i as int).filter(pred).len(),
            acc == total(table@.take(i as int).filter(pred), amount),
            n * (-0x8000_0000_0000_0000) <= acc <= n * 0x7fff_ffff_ffff_ffff,
        decreases table.len() - i,
    {
        proof {
            reveal(Seq::filter);
            assert(table@.take(i + 1).drop_last() == table@.take(i as int));
        }
        if keep(&table[i]) {
            let v: i64 = value(&table[i]);
            proof {
                let kept = table@.take(i + 1).filter(pred);
                assert(kept.drop_last() == table@.take(i as int).filter(pred));
            }
            acc = acc + v as i128;
            n += 1;
        }
        i += 1;
    }
    proof {
        assert(table@.take(table.len() as int) == table@);
    }
    (n, acc)
}

/// The selection from a single record that satisfies `pred` is that record.
proof fn lemma_filter_one<T>(x: T, pred: spec_fn(T) -> bool)
    requires
        pred(x),
    ensures
        seq![x].filter(pred) == seq![x],
{
    reveal(Seq::filter);
    assert(seq![x].drop_last() == Seq::<T>::empty());
    assert(Seq::<T>::empty().filter(pred) == Seq::<T>::empty());
}

/// Two sequences that satisfy `pred` at the same positions have their first
/// match at the same position.
pub proof fn lemma_first_index_alike<T>(a: Seq<T>, b: Seq<T>, pred: spec_fn(T) -> bool)
    requires
        a.len() == b.len(),
        forall|i: int| 0 <= i < a.len() ==> pred(#[trigger] a[i]) == pred(b[i]),
    ensures
        first_index(a, pred) == first_index(b, pred),
{
    lemma_first_index_is_first(a, pred);
    let i = first_index(a, pred);
    if i < a.len() {
        assert forall|j: int| 0 <= j < i implies !pred(#[trigger] b[j]) by {
            assert(!pred(a[j]));
        }
        lemma_first_index(b, pred, i);
    } else {
        assert forall|j: int| 0 <= j < b.len() implies !pred(#[trigger] b[j]) by {
            assert(!pred(a[j]));
        }
        lemma_no_first_index(b, pred);
    }
}

/// The first match of a sequence with one record more at its end: the
/// first of the sequence, or the new record where the sequence has none
/// and the record satisfies `pred`.
pub proof fn lemma_first_index_push<T>(s: Seq<T>, x: T, pred: spec_fn(T) -> bool)
    ensures
        first_index(s.push(x), pred) == (if first_index(s, pred) < s.len() {
            first_index(s, pred)
        } else if pred(x) {
            s.len() as int
        } else {
            s.len() as int + 1
        }),
{
    lemma_first_index_is_first(s, pred);
    let t = s.push(x);
    let i = first_index(s, pred);
    if i < s.len() {
        assert forall|j: int| 0 <= j < i implies !pred(#[trigger] t[j]) by {
            assert(t[j] == s[j]);
        }
        assert(t[i] == s[i]);
        lemma_first_index(t, pred, i);
    } else if pred(x) {
        assert forall|j: int| 0 <= j < s.len() implies !pred(#[trigger] t[j]) by {
            assert(t[j] == s[j]);
        }
        lemma_first_index(t, pred, s.len() as int);
    } else {
        assert forall|j: int| 0 <= j < t.len() implies !pred(#[trigger] t[j]) by {
            if j < s.len() {
                assert(t[j] == s[j]);
            }
        }
        lemma_no_first_index(t, pred);
    }
}

/// Where exactly one record satisfies `pred`, the selection holds that record alone.
pub proof fn lemma_filter_single<T>(s: Seq<T>, pred: spec_fn(T) -> bool, i: int)
    requires
        0 <= i < s.len(),
        pred(s[i]),
        forall|j: int| 0 <= j < s.len() && j != i ==> !pred(#[trigger] s[j]),
    ensures
        s.filter(pred) == seq![s[i]],
{
    let head = s.take(i);
    let tail = s.skip(i + 1);
    assert(s == head + (seq![s[i]] + tail));
    Seq::filter_distributes_over_add(head, seq![s[i]] + tail, pred);
    Seq::filter_distributes_over_add(seq![s[i]], tail, pred);
    head.lemma_all_neg_filter_empty(pred);
    tail.lemma_all_neg_filter_empty(pred);
    lemma_filter_one(s[i], pred);
    assert(head.filter(pred) + (seq![s[i]] + tail.filter(pred)) =~= seq![s[i]]);
}


/// What filing `record` does to a table, and what it answers: the record
/// joins the table at the end, unless its identity is taken.
pub open spec fn files<T: Record>(
    before: Seq<T>,
    after: Seq<T>,
    record: T,
    answer: DbResult<Option<T>>,
) -> bool {
    let id = record.record_id().unwrap();
    if holds(before, id.table, id.key@) {
        after == before && answer == Err::<Option<T>, Error>(Error::Duplicate(id.key))
    } else {
        after == before.push(record) && answer == Ok::<Option<T>, Error>(Some(record))
    }
}

/// Files `data` under `key` of `table`.
pub(crate) fn create<T: Record>(records: &mut Vec<T>, data: T, table: Table, key: String) -> (r:
    DbResult<Option<T>>)
    ensures
        files(old(records)@, final(records)@, data.filed(RecordId { table, key }), r),
{
    file(records, data.file_under(RecordId::new(table, key)))
}


/// The record that `id` refers to: the first that is filed under it.
pub open spec fn referred<T: Record>(s: Seq<T>, id: RecordId) -> Option<T> {
    first_match(s, keyed(id.table, id.key@))
}

/// The record that `id` refers to, where there is an `id`.
pub open spec fn referred_opt<T: Record>(s: Seq<T>, id: Option<RecordId>) -> Option<T> {
    match id {
        Some(id) => referred(s, id),
        None => None,
    }
}

/// The record that `id` refers to.
pub(crate) fn follow<T: Record>(records: &Vec<T>, id: &RecordId) -> (r: Option<T>)
    ensures
        r == referred(records@, *id),
{
    find_by_id(records, id.table, &id.key)
}

/// The record that `id` refers to, where there is an `id`.
pub(crate) fn follow_opt<T: Record>(records: &Vec<T>, id: &Option<RecordId>) -> (r: Option<T>)
    ensures
        r == referred_opt(records@, *id),
{
    match id {
        Some(id) => follow(records, id),
        None => None,
    }
}


/// The records of a batch as the store files them: each under the key that
/// comes with it.
pub open spec fn keyed_batch<T: Record>(batch: Seq<(String, T)>, table: Table) -> Seq<T> {
    batch.map_values(|p: (String, T)| p.1.filed(RecordId { table, key: p.0 }))
}

/// Whether the `k`-th record of a batch finds its identity taken, by a
/// record of the table or by an earlier record of the batch.
pub open spec fn clashes<T: Record>(before: Seq<T>, records: Seq<T>, k: int) -> bool {
    holds(
        before + records.take(k),
        records[k].record_id().unwrap().table,
        records[k].record_id().unwrap().key@,
    )
}

/// What filing a batch does to a table, and what it answers: all records
/// join the table at the end, in their order, or, where one of them finds
/// its identity taken, none does.
pub open spec fn files_all<T: Record>(
    before: Seq<T>,
    after: Seq<T>,
    records: Seq<T>,
    answer: DbResult<Vec<T>>,
) -> bool {
    match answer {
        Ok(filed) => {
            &&& filed@ == records
            &&& after == before + records
            &&& forall|k: int| 0 <= k < records.len() ==> !clashes(before, records, k)
        },
        Err(e) => {
            &&& after == before
            &&& exists|k: int|
                {
                    &&& 0 <= k < records.len()
                    &&& #[trigger] clashes(before, records, k)
                    &&& forall|j: int| 0 <= j < k ==> !clashes(before, records, j)
                    &&& e == Error::Duplicate(records[k].record_id().unwrap().key)
                }
        },
    }
}

/// Files a batch of records, each under the key that comes with it: all of
/// them, or none.
pub(crate) fn create_all<T: Record>(records: &mut Vec<T>, batch: &Vec<(String, T)>, table: Table)
    -> (r: DbResult<Vec<T>>)
    ensures
        files_all(old(records)@, final(records)@, keyed_batch(batch@, table), r),
{
    let ghost wanted = keyed_batch(batch@, table);
    let start = records.len();
    let mut out: Vec<T> = Vec::new();
    let mut i: usize = 0;
    while i < batch.len()
        invariant
            i <= batch.len(),
            wanted == keyed_batch(batch@, table),
            start == old(records).len(),
            records@ == old(records)@ + wanted.take(i as int),
            out@ == wanted.take(i as int),
            forall|k: int| 0 <= k < i ==> !clashes(old(records)@, wanted, k),
        decreases batch.len() - i,
    {
        let key = batch[i].0.clone();
        let record = batch[i].1.duplicate().file_under(RecordId::new(table, key));
        assert(record == wanted[i as int]);
        match file(records, record) {
            Ok(filed) => {
                match filed {
                    Some(back) => {
                        out.push(back);
                    },
                    None => {},
                }
                proof {
                    assert(wanted.take(i + 1) =~= wanted.take(i as int).push(wanted[i as int]));
                    assert(records@ =~= old(records)@ + wanted.take(i + 1));
                }
            },
            Err(e) => {
                proof {
                    assert(clashes(old(records)@, wanted, i as int));
                }
                records.truncate(start);
                assert(records@ =~= old(records)@);
                return Err(e);
            },
        }
        i += 1;
    }
    proof {
        assert(wanted.take(batch.len() as int) =~= wanted);
    }
    Ok(out)
}


/// Placing a record adds that record and no other.
proof fn lemma_placed_members<T>(s: Seq<T>, x: T, before: spec_fn(T, T) -> bool)
    ensures
        forall|i: int|
            0 <= i < placed(s, x, before).len() ==> #[trigger] placed(s, x, before)[i] == x
                || s.contains(placed(s, x, before)[i]),
{
    broadcast use vstd::seq_lib::group_to_multiset_ensures;

    lemma_placed_multiset(s, x, before);
    let p = placed(s, x, before);
    assert forall|i: int| 0 <= i < p.len() implies #[trigger] p[i] == x || s.contains(p[i]) by {
        assert(p.to_multiset().count(p[i]) > 0);
        if p[i] != x {
            assert(s.to_multiset().count(p[i]) > 0);
        }
    }
}

/// No record of the sequence comes before a record that stands earlier in it.
pub open spec fn in_order<T>(s: Seq<T>, before: spec_fn(T, T) -> bool) -> bool {
    forall|i: int, j: int| 0 <= i < j < s.len() ==> !before(#[trigger] s[j], #[trigger] s[i])
}

/// `before` orders records as a ranking does: of two records at most one
/// comes before the other, and a record that comes before neither of two
/// records that are ranked alike is ranked like them.
pub open spec fn ranks<T>(before: spec_fn(T, T) -> bool) -> bool {
    &&& forall|a: T, b: T| #[trigger] before(a, b) ==> !before(b, a)
    &&& forall|a: T, b: T, c: T|
        !(#[trigger] before(a, b)) && !(#[trigger] before(b, c)) ==> !before(a, c)
}

/// An order by a number ranks: where a record comes before another exactly
/// when its number is the lower, the order is a ranking.
pub proof fn law_numbers_rank<T>(before: spec_fn(T, T) -> bool, number: spec_fn(T) -> int)
    requires
        forall|a: T, b: T| #[trigger] before(a, b) == (number(a) < number(b)),
    ensures
        ranks(before),
{
    assert forall|a: T, b: T, c: T|
        !(#[trigger] before(a, b)) && !(#[trigger] before(b, c)) implies !before(a, c) by {
        assert(before(a, c) == (number(a) < number(c)));
    }
}

/// Placing a record into a sequence that is in order leaves it in order.
proof fn lemma_placed_in_order<T>(s: Seq<T>, x: T, before: spec_fn(T, T) -> bool)
    requires
        ranks(before),
        in_order(s, before),
    ensures
        in_order(placed(s, x, before), before),
    decreases s.len(),
{
    let p = placed(s, x, before);
    if s.len() == 0 {
    } else if !before(x, s.last()) {
        assert forall|i: int, j: int| 0 <= i < j < p.len() implies !before(
            #[trigger] p[j],
            #[trigger] p[i],
        ) by {
            if j == s.len() {
                if i < s.len() - 1 {
                    assert(!before(s[s.len() - 1], s[i]));
                }
            }
        }
    } else {
        let front = s.drop_last();
        let q = placed(front, x, before);
        assert forall|i: int, j: int| 0 <= i < j < front.len() implies !before(
            #[trigger] front[j],
            #[trigger] front[i],
        ) by {
            assert(front[j] == s[j] && front[i] == s[i]);
        }
        lemma_placed_in_order(front, x, before);
        lemma_placed_members(front, x, before);
        lemma_placed_multiset(front, x, before);
        assert forall|i: int, j: int| 0 <= i < j < p.len() implies !before(
            #[trigger] p[j],
            #[trigger] p[i],
        ) by {
            if j == q.len() {
                assert(p[i] == q[i]);
                if q[i] != x {
                    let k = choose|k: int| 0 <= k < front.len() && front[k] == q[i];
                    assert(!before(s[s.len() - 1], s[k]));
                }
            } else {
                assert(p[i] == q[i] && p[j] == q[j]);
            }
        }
    }
}

/// The first records of a sequence that is in order are in order.
pub proof fn lemma_limited_in_order<T>(s: Seq<T>, n: nat, before: spec_fn(T, T) -> bool)
    requires
        in_order(s, before),
    ensures
        in_order(limited(s, n), before),
{
    let l = limited(s, n);
    assert forall|i: int, j: int| 0 <= i < j < l.len() implies !before(
        #[trigger] l[j],
        #[trigger] l[i],
    ) by {
        assert(l[i] == s[i] && l[j] == s[j]);
    }
}

/// A listing in the order that a ranking gives is in order: no record of it
/// comes before a record that stands earlier.
pub proof fn law_ordered_in_order<T>(s: Seq<T>, before: spec_fn(T, T) -> bool)
    requires
        ranks(before),
    ensures
        in_order(ordered(s, before), before),
    decreases s.len(),
{
    if s.len() > 0 {
        law_ordered_in_order(s.drop_last(), before);
        lemma_placed_in_order(ordered(s.drop_last(), before), s.last(), before);
    }
}

/// A listing that selects records of one school only, however it is
/// ordered and limited, holds no record of another school.
pub proof fn law_tenant_isolation<T>(
    table: Seq<T>,
    pred: spec_fn(T) -> bool,
    before: spec_fn(T, T) -> bool,
    n: nat,
    school_of: spec_fn(T) -> RecordId,
    school: Seq<char>,
    other: Seq<char>,
)
    requires
        school != other,
        forall|r: T| #[trigger] pred(r) ==> school_of(r).names(Table::Schools, school),
    ensures
        forall|i: int|
            0 <= i < table.filter(pred).len() ==> !school_of(#[trigger] table.filter(pred)[i]).names(
                Table::Schools,
                other,
            ),
        forall|i: int|
            0 <= i < limited(ordered(table.filter(pred), before), n).len() ==> !school_of(
                #[trigger] limited(ordered(table.filter(pred), before), n)[i],
            ).names(Table::Schools, other),
{
    broadcast use vstd::seq_lib::group_filter_ensures;

    let found = table.filter(pred);
    assert forall|i: int| 0 <= i < found.len() implies pred(#[trigger] found[i]) by {}
    lemma_ordered_all(found, before, pred);
    let listed = limited(ordered(found, before), n);
    assert forall|i: int| 0 <= i < listed.len() implies !school_of(#[trigger] listed[i]).names(
        Table::Schools,
        other,
    ) by {
        assert(listed[i] == ordered(found, before)[i]);
        assert(pred(ordered(found, before)[i]));
    }
}

} // verus!
