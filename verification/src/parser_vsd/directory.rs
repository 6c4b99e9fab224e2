//! Directories: the header of a directory chunk, its table of pointers,
//! and the order in which the pointers are visited.

use super::error::ParseError;
use super::pointer::bucket_of;
use super::pointer::Bucket;
use super::pointer::Pointer;
use super::pointer::pointer_at;
use super::vsdinternal_stream::SeekFrom;
use super::vsdinternal_stream::VSDInternalStream;
use crate::bytes::read_u32;
use crate::bytes::u32_le;
use crate::utils::read_u32_checked;
use crate::utils::skip_bytes;
use vstd::prelude::*;

verus! {

/// The two counts at the head of a directory.
#[derive(Clone, Copy, Debug, PartialEq, Eq, Structural)]
pub struct DirectoryHeader {
    /// Number of entries in the explicit visiting order, as declared.
    pub list_size: u32,
    /// Number of records in the table of pointers.
    pub pointer_count: u32,
}

impl DirectoryHeader {
    /// Number of entries in the explicit visiting order that count: a
    /// declared size of one or less means that there is no such order.
    pub open spec fn spec_order_len(self) -> u32 {
        if self.list_size <= 1 {
            0
        } else {
            self.list_size
        }
    }

    /// Number of entries in the explicit visiting order that count.
    pub fn order_len(&self) -> (n: u32)
        ensures
            n == self.spec_order_len(),
    {
        if self.list_size <= 1 {
            0
        } else {
            self.list_size
        }
    }
}

/// Where the header of a directory stands in its chunk: four bytes before
/// the place named by the number at `shift`, counted from `shift`.
pub open spec fn header_position(chunk: Seq<u8>, shift: u32) -> int {
    u32_le(chunk, shift as int) + shift - 4
}

/// The header of the directory in `chunk`, or why it cannot be read.
pub open spec fn header_of(chunk: Seq<u8>, shift: u32) -> Result<DirectoryHeader, ParseError> {
    let at = header_position(chunk, shift);
    if chunk.len() < shift + 4 {
        Err(ParseError::Io)
    } else if at < 0 {
        Err(ParseError::Seek)
    } else if chunk.len() < at + 8 {
        Err(ParseError::Io)
    } else {
        Ok(
            DirectoryHeader {
                list_size: u32_le(chunk, at) as u32,
                pointer_count: u32_le(chunk, at + 4) as u32,
            },
        )
    }
}

/// Where the cursor stands once the header has been read, or has failed
/// to be: behind the header and the four bytes after it, at the place of
/// a refused seek, or at the end of a chunk that was too short.
pub open spec fn cursor_after_header(chunk: Seq<u8>, shift: u32) -> int {
    let at = header_position(chunk, shift);
    if chunk.len() < shift + 4 {
        chunk.len() as int
    } else if at < 0 {
        shift + 4
    } else if chunk.len() < at + 12 {
        chunk.len() as int
    } else {
        at + 12
    }
}

/// The first `count` pointer records of `chunk`, which start at its first
/// byte.
pub open spec fn pointer_table(chunk: Seq<u8>, count: nat) -> Seq<Pointer> {
    Seq::new(count, |i: int| pointer_at(chunk, 20 * i))
}

/// The entries of the explicit visiting order that stand complete in
/// `chunk` from `start` on, at most `count`.
pub open spec fn order_entries(chunk: Seq<u8>, start: int, count: nat) -> Seq<u32> {
    let fit = (chunk.len() - start) / 4;
    let n = if count <= fit {
        count
    } else {
        fit as nat
    };
    Seq::new(n, |k: int| u32_le(chunk, start + 4 * k) as u32)
}

/// Whether slot `i` of `table` is in use and belongs to `bucket`.
pub open spec fn in_bucket(table: Seq<Pointer>, i: int, bucket: Bucket) -> bool {
    0 <= i < table.len() && !table[i].spec_is_empty() && bucket_of(table[i].spec_tag()) == bucket
}

/// The slots below `upto` that belong to `bucket`, in rising order.
pub open spec fn bucket_members(table: Seq<Pointer>, bucket: Bucket, upto: nat) -> Seq<u32>
    decreases upto,
{
    if upto == 0 {
        Seq::empty()
    } else {
        let before = bucket_members(table, bucket, (upto - 1) as nat);
        if in_bucket(table, upto - 1, bucket) {
            before.push((upto - 1) as u32)
        } else {
            before
        }
    }
}

/// The generic slots that the first `upto` entries name, each at the
/// place where it is named first.
pub open spec fn explicit_members(table: Seq<Pointer>, entries: Seq<u32>, upto: nat) -> Seq<u32>
    decreases upto,
{
    if upto == 0 {
        Seq::empty()
    } else {
        let before = explicit_members(table, entries, (upto - 1) as nat);
        let slot = entries[upto - 1];
        if in_bucket(table, slot as int, Bucket::Generic) && !entries.take(upto - 1).contains(slot) {
            before.push(slot)
        } else {
            before
        }
    }
}

/// The generic slots below `upto` that no entry names, in rising order.
pub open spec fn leftover_members(table: Seq<Pointer>, entries: Seq<u32>, upto: nat) -> Seq<u32>
    decreases upto,
{
    if upto == 0 {
        Seq::empty()
    } else {
        let before = leftover_members(table, entries, (upto - 1) as nat);
        if in_bucket(table, upto - 1, Bucket::Generic) && !entries.contains((upto - 1) as u32) {
            before.push((upto - 1) as u32)
        } else {
            before
        }
    }
}

/// The slots of `table` in the order in which a directory visits them:
/// name lists, name indices, font tables, the generic slots that the
/// explicit order names, then the generic slots that it does not name.
pub open spec fn dispatch_order(table: Seq<Pointer>, entries: Seq<u32>) -> Seq<u32> {
    bucket_members(table, Bucket::NameList, table.len()) + bucket_members(
        table,
        Bucket::NameIndex,
        table.len(),
    ) + bucket_members(table, Bucket::FontFaces, table.len()) + explicit_members(
        table,
        entries,
        entries.len(),
    ) + leftover_members(table, entries, table.len())
}

/// Reads the header of the directory in `input`, which leaves the cursor
/// behind it.
pub fn read_pointer_info(input: &mut VSDInternalStream, shift: u32) -> (r: Result<
    DirectoryHeader,
    ParseError,
>)
    ensures
        final(input)@ == old(input)@,
        r == header_of(old(input)@, shift),
        final(input).pos() == cursor_after_header(old(input)@, shift),
{
    input.seek(SeekFrom::Start(shift as u64));
    let offset: u32 = match read_u32_checked(input) {
        Ok(value) => value,
        Err(_) => {
            return Err(ParseError::Io);
        },
    };
    let target: u64 = offset as u64 + shift as u64;
    if target < 4 {
        return Err(ParseError::Seek);
    }
    input.seek(SeekFrom::Start(target - 4));
    let list_size: u32 = match read_u32_checked(input) {
        Ok(value) => value,
        Err(_) => {
            return Err(ParseError::Io);
        },
    };
    let pointer_count: u32 = match read_u32_checked(input) {
        Ok(value) => value,
        Err(_) => {
            return Err(ParseError::Io);
        },
    };
    let _ = skip_bytes(input, 4);
    Ok(DirectoryHeader { list_size, pointer_count })
}

/// Decodes the table of `count` pointers at the start of `chunk`.  A chunk
/// too short to hold them all is an error.
pub fn read_pointers(chunk: &[u8], count: u32) -> (r: Result<Vec<Pointer>, ParseError>)
    ensures
        20 * count <= chunk@.len() ==> r.is_ok() && r.unwrap()@ == pointer_table(
            chunk@,
            count as nat,
        ),
        20 * count > chunk@.len() ==> r == Err::<Vec<Pointer>, ParseError>(ParseError::Io),
{
    if chunk.len() / 20 < count as usize {
        return Err(ParseError::Io);
    }
    let mut table: Vec<Pointer> = Vec::new();
    let mut i: u32 = 0;
    while i < count
        invariant
            i <= count,
            20 * count <= chunk.len(),
            table@ == pointer_table(chunk@, i as nat),
        decreases count - i,
    {
        table.push(Pointer::decode(chunk, 20 * (i as usize)));
        assert(table@ =~= pointer_table(chunk@, (i + 1) as nat));
        i += 1;
    }
    Ok(table)
}

/// Reads the explicit visiting order: up to `count` numbers from `start`
/// on.  Entries that the chunk is too short for are left out.
pub fn read_order(chunk: &[u8], start: usize, count: u32) -> (entries: Vec<u32>)
    requires
        start <= chunk.len(),
    ensures
        entries@ == order_entries(chunk@, start as int, count as nat),
{
    let fit: usize = (chunk.len() - start) / 4;
    let n: usize = if count as usize <= fit {
        count as usize
    } else {
        fit
    };
    let mut entries: Vec<u32> = Vec::new();
    let mut k: usize = 0;
    while k < n
        invariant
            k <= n,
            start + 4 * n <= chunk.len(),
            entries@ == Seq::new(k as nat, |j: int| u32_le(chunk@, start + 4 * j) as u32),
        decreases n - k,
    {
        entries.push(read_u32(chunk, start + 4 * k));
        assert(entries@ =~= Seq::new((k + 1) as nat, |j: int| u32_le(chunk@, start + 4 * j) as u32));
        k += 1;
    }
    entries
}

/// Appends to `order` the slots of `table` that belong to `bucket`.
fn push_bucket(table: &Vec<Pointer>, bucket: Bucket, order: &mut Vec<u32>)
    requires
        table.len() <= u32::MAX,
        forall|j: int| 0 <= j < old(order)@.len() ==> (#[trigger] old(order)@[j]) < table.len(),
    ensures
        final(order)@ == old(order)@ + bucket_members(table@, bucket, table@.len()),
        forall|j: int| 0 <= j < final(order)@.len() ==> (#[trigger] final(order)@[j]) < table.len(),
{
    let mut i: usize = 0;
    assert(order@ =~= old(order)@ + bucket_members(table@, bucket, 0));
    while i < table.len()
        invariant
            i <= table.len() <= u32::MAX,
            order@ == old(order)@ + bucket_members(table@, bucket, i as nat),
            forall|j: int| 0 <= j < order@.len() ==> (#[trigger] order@[j]) < table.len(),
        decreases table.len() - i,
    {
        let pointer: Pointer = table[i];
        if !pointer.is_empty() && pointer.bucket() == bucket {
            order.push(i as u32);
        }
        assert(order@ =~= old(order)@ + bucket_members(table@, bucket, (i + 1) as nat));
        i += 1;
    }
}

/// Puts the slots of a directory in visiting order.
pub fn order_pointers(table: &Vec<Pointer>, entries: &Vec<u32>) -> (order: Vec<u32>)
    requires
        table.len() <= u32::MAX,
    ensures
        order@ == dispatch_order(table@, entries@),
        forall|j: int| 0 <= j < order@.len() ==> (#[trigger] order@[j]) < table.len(),
{
    let mut order: Vec<u32> = Vec::new();
    push_bucket(table, Bucket::NameList, &mut order);
    push_bucket(table, Bucket::NameIndex, &mut order);
    push_bucket(table, Bucket::FontFaces, &mut order);
    let ghost head = order@;
    let mut named: Vec<bool> = vec![false; table.len()];
    let mut k: usize = 0;
    assert(order@ =~= head + explicit_members(table@, entries@, 0));
    while k < entries.len()
        invariant
            k <= entries.len(),
            named.len() == table.len(),
            table.len() <= u32::MAX,
            forall|i: int|
                0 <= i < table.len() ==> named@[i] == #[trigger] entries@.take(k as int).contains(
                    i as u32,
                ),
            order@ == head + explicit_members(table@, entries@, k as nat),
            forall|j: int| 0 <= j < order@.len() ==> (#[trigger] order@[j]) < table.len(),
        decreases entries.len() - k,
    {
        let slot: u32 = entries[k];
        proof {
            let before = entries@.take(k as int);
            let after = entries@.take(k + 1);
            assert(after =~= before.push(slot));
            assert forall|x: u32| after.contains(x) == (before.contains(x) || x == slot) by {
                if before.contains(x) {
                    let w = choose|w: int| 0 <= w < before.len() && before[w] == x;
                    assert(after[w] == x);
                }
                if x == slot {
                    assert(after[k as int] == x);
                }
            }
        }
        if (slot as usize) < table.len() {
            let pointer: Pointer = table[slot as usize];
            assert(named@[slot as int] == entries@.take(k as int).contains(slot as int as u32));
            if !pointer.is_empty() && pointer.bucket() == Bucket::Generic && !named[slot as usize] {
                order.push(slot);
            }
            named.set(slot as usize, true);
        }
        assert forall|i: int| 0 <= i < table.len() implies named@[i] == #[trigger] entries@.take(
            k + 1,
        ).contains(i as u32) by {
            assert(entries@.take(k + 1).contains(i as u32) == (entries@.take(k as int).contains(
                i as u32,
            ) || i as u32 == slot));
        }
        assert(order@ =~= head + explicit_members(table@, entries@, (k + 1) as nat));
        k += 1;
    }
    assert(entries@.take(entries@.len() as int) =~= entries@);
    let ghost middle = order@;
    let mut i: usize = 0;
    assert(order@ =~= middle + leftover_members(table@, entries@, 0));
    while i < table.len()
        invariant
            i <= table.len() <= u32::MAX,
            named.len() == table.len(),
            forall|j: int| 0 <= j < table.len() ==> named@[j] == #[trigger] entries@.contains(j as u32),
            order@ == middle + leftover_members(table@, entries@, i as nat),
            forall|j: int| 0 <= j < order@.len() ==> (#[trigger] order@[j]) < table.len(),
        decreases table.len() - i,
    {
        let pointer: Pointer = table[i];
        if !pointer.is_empty() && pointer.bucket() == Bucket::Generic && !named[i] {
            order.push(i as u32);
        }
        assert(order@ =~= middle + leftover_members(table@, entries@, (i + 1) as nat));
        i += 1;
    }
    order
}

} // verus!
