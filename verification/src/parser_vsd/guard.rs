//! The cycle guard: no directory is expanded while it is being expanded.

use super::directory::dispatch_order;
use super::directory::header_of;
use super::directory::order_entries;
use super::directory::pointer_table;
use super::error::ParseError;
use super::pointer::category_of;
use super::pointer::Pointer;
use super::vsd_parser::chunk_of;
use super::vsd_parser::closing;
use super::vsd_parser::content;
use super::vsd_parser::depth_left;
use super::vsd_parser::dispatched;
use super::vsd_parser::dispatched_all;
use super::vsd_parser::is_directory;
use super::vsd_parser::opening;
use super::vsd_parser::resolved;
use super::vsd_parser::Notification;
use vstd::prelude::*;

verus! {

/// The directories that are open after `trace`, when those in `open` were
/// open before it: `None` where the trace enters a directory that is open
/// at that moment, or leaves one that is not.
pub open spec fn open_after(trace: Seq<Notification>, open: Set<u32>) -> Option<Set<u32>>
    decreases trace.len(),
{
    if trace.len() == 0 {
        Some(open)
    } else {
        match open_after(trace.drop_last(), open) {
            None => None,
            Some(now) => match trace.last() {
                Notification::EnterDirectory { offset } => if now.contains(offset) {
                    None
                } else {
                    Some(now.insert(offset))
                },
                Notification::LeaveDirectory { offset } => if now.contains(offset) {
                    Some(now.remove(offset))
                } else {
                    None
                },
                _ => Some(now),
            },
        }
    }
}

/// Whether `trace` enters and leaves no directory.
pub open spec fn flat(trace: Seq<Notification>) -> bool {
    forall|i: int|
        0 <= i < trace.len() ==> !((#[trigger] trace[i]) is EnterDirectory) && !(trace[i]
            is LeaveDirectory)
}

/// What the visit of a chunk tells when the chunk is not expanded.
pub open spec fn flat_visit(pointer: Pointer, index: u32, level: nat) -> Seq<Notification> {
    let category = category_of(pointer.spec_tag());
    seq![Notification::Visit { index, level: level as u32, pointer }] + opening(category, index)
        + content(pointer, index) + closing(category, index)
}

proof fn lemma_open_after_concat(first: Seq<Notification>, second: Seq<Notification>, open: Set<u32>)
    ensures
        open_after(first + second, open) == match open_after(first, open) {
            None => None,
            Some(now) => open_after(second, now),
        },
    decreases second.len(),
{
    if second.len() == 0 {
        assert(first + second =~= first);
    } else {
        assert((first + second).drop_last() =~= first + second.drop_last());
        assert((first + second).last() == second.last());
        lemma_open_after_concat(first, second.drop_last(), open);
    }
}

proof fn lemma_open_after_flat(trace: Seq<Notification>, open: Set<u32>)
    requires
        flat(trace),
    ensures
        open_after(trace, open) == Some(open),
    decreases trace.len(),
{
    if trace.len() > 0 {
        assert(flat(trace.drop_last()));
        lemma_open_after_flat(trace.drop_last(), open);
        assert(trace.last() == trace[trace.len() - 1]);
    }
}

proof fn lemma_flat_visit_is_flat(pointer: Pointer, index: u32, level: nat)
    ensures
        flat(flat_visit(pointer, index, level)),
        flat(
            seq![Notification::Visit { index, level: level as u32, pointer }] + opening(
                category_of(pointer.spec_tag()),
                index,
            ) + content(pointer, index),
        ),
        flat(closing(category_of(pointer.spec_tag()), index)),
{
}

/// A chunk whose offset is open is visited but not expanded, and the visit
/// succeeds: a pointer back into a directory that is being expanded ends
/// the branch there, without an error.
pub proof fn lemma_open_offset_is_not_expanded(
    doc: Seq<u8>,
    pointer: Pointer,
    index: u32,
    level: nat,
    open: Set<u32>,
)
    requires
        open.contains(pointer.offset),
    ensures
        dispatched(doc, pointer, index, level, open) == Ok::<Seq<Notification>, ParseError>(
            flat_visit(pointer, index, level),
        ),
        flat(flat_visit(pointer, index, level)),
{
    lemma_flat_visit_is_flat(pointer, index, level);
}

/// Every visit keeps the guard: on the way through its trace a directory
/// is entered only while it is not open, each one that is entered is left
/// again, and at the end the open directories are those of the start.
pub proof fn lemma_visit_keeps_guard(
    doc: Seq<u8>,
    pointer: Pointer,
    index: u32,
    level: nat,
    open: Set<u32>,
)
    requires
        dispatched(doc, pointer, index, level, open).is_ok(),
    ensures
        open_after(dispatched(doc, pointer, index, level, open).unwrap(), open) == Some(open),
    decreases depth_left(level), 0nat, 0nat,
{
    let category = category_of(pointer.spec_tag());
    let head = seq![Notification::Visit { index, level: level as u32, pointer }] + opening(
        category,
        index,
    ) + content(pointer, index);
    let tail = closing(category, index);
    lemma_flat_visit_is_flat(pointer, index, level);
    lemma_open_after_flat(head, open);
    lemma_open_after_flat(tail, open);
    if !is_directory(pointer) || open.contains(pointer.offset) {
        lemma_open_after_concat(head, tail, open);
    } else {
        let inside = open.insert(pointer.offset);
        let inner = resolved(doc, chunk_of(doc, pointer), pointer.spec_shift(), level + 1, inside);
        lemma_directory_keeps_guard(
            doc,
            chunk_of(doc, pointer),
            pointer.spec_shift(),
            level + 1,
            inside,
        );
        let enter = seq![Notification::EnterDirectory { offset: pointer.offset }];
        let leave = seq![Notification::LeaveDirectory { offset: pointer.offset }];
        assert(open_after(enter, open) == Some(inside)) by {
            reveal_with_fuel(open_after, 3);
            assert(enter.drop_last() =~= Seq::<Notification>::empty());
        }
        assert(open_after(leave, inside) == Some(open)) by {
            reveal_with_fuel(open_after, 3);
            assert(leave.drop_last() =~= Seq::<Notification>::empty());
            assert(inside.remove(pointer.offset) =~= open);
        }
        lemma_open_after_concat(head, enter, open);
        lemma_open_after_concat(head + enter, inner.unwrap(), open);
        lemma_open_after_concat(head + enter + inner.unwrap(), leave, open);
        lemma_open_after_concat(head + enter + inner.unwrap() + leave, tail, open);
    }
}

/// Every expansion of a directory keeps the guard.
pub proof fn lemma_directory_keeps_guard(
    doc: Seq<u8>,
    chunk: Seq<u8>,
    shift: u32,
    level: nat,
    open: Set<u32>,
)
    requires
        resolved(doc, chunk, shift, level, open).is_ok(),
    ensures
        open_after(resolved(doc, chunk, shift, level, open).unwrap(), open) == Some(open),
    decreases depth_left(level), 2nat, 0nat,
{
    let header = header_of(chunk, shift).unwrap();
    let table = pointer_table(chunk, header.pointer_count as nat);
    let entries = order_entries(
        chunk,
        20 * header.pointer_count,
        header.spec_order_len() as nat,
    );
    lemma_visits_keep_guard(
        doc,
        table,
        dispatch_order(table, entries),
        0,
        level,
        open,
    );
}

/// Every run of visits keeps the guard.
pub proof fn lemma_visits_keep_guard(
    doc: Seq<u8>,
    table: Seq<Pointer>,
    order: Seq<u32>,
    from: nat,
    level: nat,
    open: Set<u32>,
)
    requires
        dispatched_all(doc, table, order, from, level, open).is_ok(),
    ensures
        open_after(dispatched_all(doc, table, order, from, level, open).unwrap(), open) == Some(
            open,
        ),
    decreases depth_left(level), 1nat, order.len() - from,
{
    if from < order.len() {
        let index = order[from as int];
        let first = dispatched(doc, table[index as int], index, level + 1, open);
        let rest = dispatched_all(doc, table, order, from + 1, level, open);
        lemma_visit_keeps_guard(doc, table[index as int], index, level + 1, open);
        lemma_visits_keep_guard(doc, table, order, from + 1, level, open);
        lemma_open_after_concat(first.unwrap(), rest.unwrap(), open);
    }
}

} // verus!
