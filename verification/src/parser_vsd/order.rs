//! What holds of the order in which a directory visits its slots.

use super::directory::bucket_members;
use super::directory::dispatch_order;
use super::directory::explicit_members;
use super::directory::in_bucket;
use super::directory::leftover_members;
use super::pointer::bucket_of;
use super::pointer::Bucket;
use super::pointer::Pointer;
use vstd::prelude::*;
use vstd::seq_lib::lemma_no_dup_in_concat;

verus! {

/// Whether `slot` of `table` holds a pointer.
pub open spec fn in_use(table: Seq<Pointer>, slot: int) -> bool {
    0 <= slot < table.len() && !table[slot].spec_is_empty()
}

/// The stage of a visit in which `slot` has its turn: name lists are
/// stage 0, name indices stage 1, font tables stage 2, the generic slots
/// that the explicit order names stage 3, the other generic slots stage 4.
pub open spec fn stage(table: Seq<Pointer>, entries: Seq<u32>, slot: u32) -> int {
    match bucket_of(table[slot as int].spec_tag()) {
        Bucket::NameList => 0,
        Bucket::NameIndex => 1,
        Bucket::FontFaces => 2,
        Bucket::Generic => if entries.contains(slot) {
            3
        } else {
            4
        },
    }
}

proof fn lemma_bucket_members(table: Seq<Pointer>, bucket: Bucket, n: nat)
    requires
        n <= table.len() <= u32::MAX,
    ensures
        forall|k: int|
            0 <= k < bucket_members(table, bucket, n).len() ==> (#[trigger] bucket_members(
                table,
                bucket,
                n,
            )[k]) < n && in_bucket(table, bucket_members(table, bucket, n)[k] as int, bucket),
        forall|k: int, l: int|
            0 <= k < l < bucket_members(table, bucket, n).len() ==> (#[trigger] bucket_members(
                table,
                bucket,
                n,
            )[k]) < (#[trigger] bucket_members(table, bucket, n)[l]),
        forall|i: int|
            0 <= i < n && in_bucket(table, i, bucket) ==> bucket_members(table, bucket, n).contains(
                i as u32,
            ),
    decreases n,
{
    if n > 0 {
        let before = bucket_members(table, bucket, (n - 1) as nat);
        let now = bucket_members(table, bucket, n);
        lemma_bucket_members(table, bucket, (n - 1) as nat);
        assert forall|i: int| 0 <= i < n && in_bucket(table, i, bucket) implies now.contains(
            i as u32,
        ) by {
            if i < n - 1 {
                let k = choose|k: int| 0 <= k < before.len() && before[k] == i as u32;
                assert(now[k] == i as u32);
            } else {
                assert(now[now.len() - 1] == i as u32);
            }
        }
    }
}

proof fn lemma_leftover_members(table: Seq<Pointer>, entries: Seq<u32>, n: nat)
    requires
        n <= table.len() <= u32::MAX,
    ensures
        forall|k: int|
            0 <= k < leftover_members(table, entries, n).len() ==> (#[trigger] leftover_members(
                table,
                entries,
                n,
            )[k]) < n && in_bucket(
                table,
                leftover_members(table, entries, n)[k] as int,
                Bucket::Generic,
            ) && !entries.contains(leftover_members(table, entries, n)[k]),
        forall|k: int, l: int|
            0 <= k < l < leftover_members(table, entries, n).len() ==> (#[trigger] leftover_members(
                table,
                entries,
                n,
            )[k]) < (#[trigger] leftover_members(table, entries, n)[l]),
        forall|i: int|
            0 <= i < n && in_bucket(table, i, Bucket::Generic) && !entries.contains(i as u32)
                ==> leftover_members(table, entries, n).contains(i as u32),
    decreases n,
{
    if n > 0 {
        let before = leftover_members(table, entries, (n - 1) as nat);
        let now = leftover_members(table, entries, n);
        lemma_leftover_members(table, entries, (n - 1) as nat);
        assert forall|i: int|
            0 <= i < n && in_bucket(table, i, Bucket::Generic) && !entries.contains(
                i as u32,
            ) implies now.contains(i as u32) by {
            if i < n - 1 {
                let k = choose|k: int| 0 <= k < before.len() && before[k] == i as u32;
                assert(now[k] == i as u32);
            } else {
                assert(now[now.len() - 1] == i as u32);
            }
        }
    }
}

proof fn lemma_explicit_members(table: Seq<Pointer>, entries: Seq<u32>, n: nat)
    requires
        n <= entries.len(),
    ensures
        forall|k: int|
            0 <= k < explicit_members(table, entries, n).len() ==> in_bucket(
                table,
                (#[trigger] explicit_members(table, entries, n)[k]) as int,
                Bucket::Generic,
            ) && entries.take(n as int).contains(explicit_members(table, entries, n)[k]),
        explicit_members(table, entries, n).no_duplicates(),
        forall|x: u32|
            in_bucket(table, x as int, Bucket::Generic) && entries.take(n as int).contains(x)
                ==> explicit_members(table, entries, n).contains(x),
    decreases n,
{
    if n > 0 {
        let before = explicit_members(table, entries, (n - 1) as nat);
        let now = explicit_members(table, entries, n);
        let slot = entries[n - 1];
        let seen = entries.take(n - 1);
        let seen_now = entries.take(n as int);
        lemma_explicit_members(table, entries, (n - 1) as nat);
        assert(seen_now =~= seen.push(slot));
        assert forall|x: u32| seen.contains(x) implies seen_now.contains(x) by {
            let w = choose|w: int| 0 <= w < seen.len() && seen[w] == x;
            assert(seen_now[w] == x);
        }
        assert(seen_now.contains(slot)) by {
            assert(seen_now[n - 1] == slot);
        }
        assert forall|x: u32|
            in_bucket(table, x as int, Bucket::Generic) && seen_now.contains(
                x,
            ) implies now.contains(x) by {
            if seen.contains(x) {
                let k = choose|k: int| 0 <= k < before.len() && before[k] == x;
                assert(now[k] == x);
            } else {
                let w = choose|w: int| 0 <= w < seen_now.len() && seen_now[w] == x;
                assert(x == slot);
                assert(now[now.len() - 1] == x);
            }
        }
    }
}

proof fn lemma_rising_has_no_duplicates(slots: Seq<u32>)
    requires
        forall|k: int, l: int| 0 <= k < l < slots.len() ==> (#[trigger] slots[k]) < (#[trigger] slots[l]),
    ensures
        slots.no_duplicates(),
{
    assert forall|k: int, l: int| 0 <= k < slots.len() && 0 <= l < slots.len() && k != l implies slots[k]
        != slots[l] by {
        if k < l {
            assert(slots[k] < slots[l]);
        } else {
            assert(slots[l] < slots[k]);
        }
    }
}

/// Every slot in the visiting order is in use and has its place by its
/// stage: a slot of an earlier stage comes before a slot of a later one.
pub proof fn lemma_order_goes_by_stage(table: Seq<Pointer>, entries: Seq<u32>, i: int, j: int)
    requires
        table.len() <= u32::MAX,
        0 <= i <= j < dispatch_order(table, entries).len(),
    ensures
        in_use(table, dispatch_order(table, entries)[i] as int),
        stage(table, entries, dispatch_order(table, entries)[i]) <= stage(
            table,
            entries,
            dispatch_order(table, entries)[j],
        ),
{
    let names = bucket_members(table, Bucket::NameList, table.len());
    let indices = bucket_members(table, Bucket::NameIndex, table.len());
    let fonts = bucket_members(table, Bucket::FontFaces, table.len());
    let named = explicit_members(table, entries, entries.len());
    let others = leftover_members(table, entries, table.len());
    lemma_parts(table, entries);
    let order = dispatch_order(table, entries);
    assert(order == names + indices + fonts + named + others);
    let a = names.len() as int;
    let b = a + indices.len();
    let c = b + fonts.len();
    let d = c + named.len();
    assert forall|p: int| 0 <= p < order.len() implies in_use(table, (#[trigger] order[p]) as int)
        && stage(table, entries, order[p]) == (if p < a {
        0int
    } else if p < b {
        1int
    } else if p < c {
        2int
    } else if p < d {
        3int
    } else {
        4int
    }) by {
        if p < a {
            assert(order[p] == names[p]);
        } else if p < b {
            assert(order[p] == indices[p - a]);
        } else if p < c {
            assert(order[p] == fonts[p - b]);
        } else if p < d {
            assert(order[p] == named[p - c]);
        } else {
            assert(order[p] == others[p - d]);
        }
    }
}

/// What is known of the five parts of the visiting order.
proof fn lemma_parts(table: Seq<Pointer>, entries: Seq<u32>)
    requires
        table.len() <= u32::MAX,
    ensures
        forall|k: int|
            #![trigger bucket_members(table, Bucket::NameList, table.len())[k]]
            0 <= k < bucket_members(table, Bucket::NameList, table.len()).len() ==> in_bucket(
                table,
                bucket_members(table, Bucket::NameList, table.len())[k] as int,
                Bucket::NameList,
            ),
        forall|k: int|
            #![trigger bucket_members(table, Bucket::NameIndex, table.len())[k]]
            0 <= k < bucket_members(table, Bucket::NameIndex, table.len()).len() ==> in_bucket(
                table,
                bucket_members(table, Bucket::NameIndex, table.len())[k] as int,
                Bucket::NameIndex,
            ),
        forall|k: int|
            #![trigger bucket_members(table, Bucket::FontFaces, table.len())[k]]
            0 <= k < bucket_members(table, Bucket::FontFaces, table.len()).len() ==> in_bucket(
                table,
                bucket_members(table, Bucket::FontFaces, table.len())[k] as int,
                Bucket::FontFaces,
            ),
        forall|k: int|
            #![trigger explicit_members(table, entries, entries.len())[k]]
            0 <= k < explicit_members(table, entries, entries.len()).len() ==> in_bucket(
                table,
                explicit_members(table, entries, entries.len())[k] as int,
                Bucket::Generic,
            ) && entries.contains(explicit_members(table, entries, entries.len())[k]),
        forall|k: int|
            #![trigger leftover_members(table, entries, table.len())[k]]
            0 <= k < leftover_members(table, entries, table.len()).len() ==> in_bucket(
                table,
                leftover_members(table, entries, table.len())[k] as int,
                Bucket::Generic,
            ) && !entries.contains(leftover_members(table, entries, table.len())[k]),
        bucket_members(table, Bucket::NameList, table.len()).no_duplicates(),
        bucket_members(table, Bucket::NameIndex, table.len()).no_duplicates(),
        bucket_members(table, Bucket::FontFaces, table.len()).no_duplicates(),
        explicit_members(table, entries, entries.len()).no_duplicates(),
        leftover_members(table, entries, table.len()).no_duplicates(),
{
    lemma_bucket_members(table, Bucket::NameList, table.len());
    lemma_bucket_members(table, Bucket::NameIndex, table.len());
    lemma_bucket_members(table, Bucket::FontFaces, table.len());
    lemma_explicit_members(table, entries, entries.len());
    lemma_leftover_members(table, entries, table.len());
    assert(entries.take(entries.len() as int) =~= entries);
    lemma_rising_has_no_duplicates(bucket_members(table, Bucket::NameList, table.len()));
    lemma_rising_has_no_duplicates(bucket_members(table, Bucket::NameIndex, table.len()));
    lemma_rising_has_no_duplicates(bucket_members(table, Bucket::FontFaces, table.len()));
    lemma_rising_has_no_duplicates(leftover_members(table, entries, table.len()));
}

/// The visiting order holds every slot that is in use, each once, and
/// nothing else: a directory visits each of its pointers exactly once.
pub proof fn lemma_every_slot_is_visited_once(table: Seq<Pointer>, entries: Seq<u32>)
    requires
        table.len() <= u32::MAX,
    ensures
        dispatch_order(table, entries).no_duplicates(),
        forall|slot: u32|
            dispatch_order(table, entries).contains(slot) <==> in_use(table, slot as int),
{
    let names = bucket_members(table, Bucket::NameList, table.len());
    let indices = bucket_members(table, Bucket::NameIndex, table.len());
    let fonts = bucket_members(table, Bucket::FontFaces, table.len());
    let named = explicit_members(table, entries, entries.len());
    let others = leftover_members(table, entries, table.len());
    let order = dispatch_order(table, entries);
    lemma_parts(table, entries);
    lemma_no_dup_in_concat(names, indices);
    lemma_no_dup_in_concat(names + indices, fonts);
    lemma_no_dup_in_concat(names + indices + fonts, named);
    lemma_no_dup_in_concat(names + indices + fonts + named, others);
    assert forall|slot: u32| order.contains(slot) implies in_use(table, slot as int) by {
        let p = choose|p: int| 0 <= p < order.len() && order[p] == slot;
        lemma_order_goes_by_stage(table, entries, p, p);
    }
    assert forall|slot: u32| in_use(table, slot as int) implies order.contains(slot) by {
        lemma_bucket_members(table, Bucket::NameList, table.len());
        lemma_bucket_members(table, Bucket::NameIndex, table.len());
        lemma_bucket_members(table, Bucket::FontFaces, table.len());
        lemma_explicit_members(table, entries, entries.len());
        lemma_leftover_members(table, entries, table.len());
        assert(entries.take(entries.len() as int) =~= entries);
        let a = names.len() as int;
        let b = a + indices.len();
        let c = b + fonts.len();
        let d = c + named.len();
        match bucket_of(table[slot as int].spec_tag()) {
            Bucket::NameList => {
                assert(in_bucket(table, slot as int, Bucket::NameList));
                let k = choose|k: int| 0 <= k < names.len() && names[k] == slot;
                assert(order[k] == slot);
            },
            Bucket::NameIndex => {
                assert(in_bucket(table, slot as int, Bucket::NameIndex));
                let k = choose|k: int| 0 <= k < indices.len() && indices[k] == slot;
                assert(order[a + k] == slot);
            },
            Bucket::FontFaces => {
                assert(in_bucket(table, slot as int, Bucket::FontFaces));
                let k = choose|k: int| 0 <= k < fonts.len() && fonts[k] == slot;
                assert(order[b + k] == slot);
            },
            Bucket::Generic => {
                assert(in_bucket(table, slot as int, Bucket::Generic));
                if entries.contains(slot) {
                    let k = choose|k: int| 0 <= k < named.len() && named[k] == slot;
                    assert(order[c + k] == slot);
                } else {
                    let k = choose|k: int| 0 <= k < others.len() && others[k] == slot;
                    assert(order[d + k] == slot);
                }
            },
        }
    }
}

/// The place among the first `n` entries that names the slot at place
/// `at` of the explicitly ordered slots.
pub open spec fn mention(table: Seq<Pointer>, entries: Seq<u32>, n: nat, at: int) -> int
    decreases n,
{
    if n == 0 {
        0
    } else if at < explicit_members(table, entries, (n - 1) as nat).len() {
        mention(table, entries, (n - 1) as nat, at)
    } else {
        n - 1
    }
}

proof fn lemma_mention(table: Seq<Pointer>, entries: Seq<u32>, n: nat)
    requires
        n <= entries.len(),
    ensures
        forall|k: int|
            0 <= k < explicit_members(table, entries, n).len() ==> {
                let m = #[trigger] mention(table, entries, n, k);
                &&& 0 <= m < n
                &&& entries[m] == explicit_members(table, entries, n)[k]
                &&& !entries.take(m).contains(entries[m])
            },
        forall|k: int, l: int|
            0 <= k < l < explicit_members(table, entries, n).len() ==> (#[trigger] mention(
                table,
                entries,
                n,
                k,
            )) < (#[trigger] mention(table, entries, n, l)),
    decreases n,
{
    if n > 0 {
        let before = explicit_members(table, entries, (n - 1) as nat);
        let now = explicit_members(table, entries, n);
        lemma_mention(table, entries, (n - 1) as nat);
        assert forall|k: int| 0 <= k < now.len() implies {
            let m = #[trigger] mention(table, entries, n, k);
            &&& 0 <= m < n
            &&& entries[m] == now[k]
            &&& !entries.take(m).contains(entries[m])
            &&& (k < before.len() ==> m == mention(table, entries, (n - 1) as nat, k) && m < n - 1)
            &&& (k >= before.len() ==> m == n - 1)
        } by {
            if k < before.len() {
                assert(now[k] == before[k]);
                assert(mention(table, entries, n, k) == mention(table, entries, (n - 1) as nat, k));
            } else {
                assert(now == before.push(entries[n - 1]));
                assert(mention(table, entries, n, k) == n - 1);
            }
        }
        assert forall|k: int, l: int| 0 <= k < l < now.len() implies (#[trigger] mention(
            table,
            entries,
            n,
            k,
        )) < (#[trigger] mention(table, entries, n, l)) by {
            if l < before.len() {
                assert(mention(table, entries, (n - 1) as nat, k) < mention(
                    table,
                    entries,
                    (n - 1) as nat,
                    l,
                ));
            }
        }
    }
}

/// The slots that the explicit order names are visited in the order in
/// which it names them first: each stands for an entry that names it and
/// that no earlier entry repeats, and these entries come one after the
/// other.
pub proof fn lemma_named_slots_keep_their_order(
    table: Seq<Pointer>,
    entries: Seq<u32>,
    i: int,
    j: int,
)
    requires
        0 <= i <= j < explicit_members(table, entries, entries.len()).len(),
    ensures
        ({
            let first = mention(table, entries, entries.len(), i);
            let second = mention(table, entries, entries.len(), j);
            &&& 0 <= first <= second < entries.len()
            &&& i < j ==> first < second
            &&& entries[first] == explicit_members(table, entries, entries.len())[i]
            &&& entries[second] == explicit_members(table, entries, entries.len())[j]
            &&& !entries.take(first).contains(entries[first])
            &&& !entries.take(second).contains(entries[second])
        }),
{
    lemma_mention(table, entries, entries.len());
}

} // verus!
