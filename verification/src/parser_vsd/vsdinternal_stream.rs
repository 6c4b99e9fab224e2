//! Chunks: decoded byte buffers with a read cursor, and the block
//! decompression that produces them.

use vstd::prelude::*;
use vstd::slice::slice_subrange;
use vstd::slice::slice_to_vec;

verus! {

/// Size of the circular history window that back-references address.
pub const WINDOW_SIZE: usize = 4096;

/// The byte in slot `slot` of the history window after `out` has been
/// produced.  The window starts out all zero and every produced byte is
/// written to the slot after the previous one, wrapping at the window's
/// end; so a slot holds the last byte of `out` whose index is congruent to
/// the slot's number, and zero where there is none.
pub open spec fn window_byte(out: Seq<u8>, slot: int) -> u8 {
    let n = out.len() as int;
    let lap = n - n % 4096 + slot;
    let i = if lap < n {
        lap
    } else {
        lap - 4096
    };
    if i >= 0 {
        out[i]
    } else {
        0
    }
}

/// Number of bytes that a back-reference with second byte `addr2` copies.
pub open spec fn back_length(addr2: u8) -> int {
    (addr2 & 0x0F) + 3
}

/// The pointer as stored in the two bytes of a back-reference.
pub open spec fn back_pointer(addr1: u8, addr2: u8) -> int {
    (((addr2 as u32) & 0xF0) << 4 | (addr1 as u32)) as int
}

/// The window slot at which a back-reference starts to copy (before
/// wrapping at the window's end).
pub open spec fn back_start(addr1: u8, addr2: u8) -> int {
    let pointer = back_pointer(addr1, addr2);
    if pointer > 4078 {
        pointer - 4078
    } else {
        pointer + 18
    }
}

/// `out` followed by `count` bytes copied from the window, starting at
/// slot `from`.  Each copied byte enters the window before the next one is
/// read, so a copy may run into the bytes that it has just produced.
pub open spec fn copy_back(out: Seq<u8>, from: int, count: nat) -> Seq<u8>
    decreases count,
{
    if count == 0 {
        out
    } else {
        copy_back(out.push(window_byte(out, from % 4096)), from + 1, (count - 1) as nat)
    }
}

/// What the token stream `input` expands to, from position `at` on, when
/// `out` has been produced so far.  `left` tokens remain in the current
/// group and `flags` holds their flag bits, the next token's bit lowest.
///
/// With no token left a flag byte opens a group of eight.  A set bit is a
/// literal: one byte, copied.  A clear bit is a back-reference of two
/// bytes.  A token that the input ends in the middle of is dropped.
pub open spec fn expand(input: Seq<u8>, at: int, flags: int, left: nat, out: Seq<u8>) -> Seq<u8>
    decreases input.len() - at, left,
{
    if at < 0 || at >= input.len() {
        out
    } else if left == 0 {
        expand(input, at + 1, input[at] as int, 8, out)
    } else if flags % 2 == 1 {
        expand(input, at + 1, flags / 2, (left - 1) as nat, out.push(input[at]))
    } else if at + 1 >= input.len() {
        out
    } else {
        expand(
            input,
            at + 2,
            flags / 2,
            (left - 1) as nat,
            copy_back(out, back_start(input[at], input[at + 1]), back_length(input[at + 1]) as nat),
        )
    }
}

/// The bytes of a compressed chunk, decompressed.
pub open spec fn decompressed(input: Seq<u8>) -> Seq<u8> {
    expand(input, 0, 0, 0, Seq::empty())
}

/// The part of `source` that a chunk of declared length `size` is made of.
pub open spec fn stored(source: Seq<u8>, size: int) -> Seq<u8> {
    if size <= 0 {
        Seq::empty()
    } else if size < source.len() {
        source.take(size)
    } else {
        source
    }
}

/// The content of a chunk that is made from the bytes `source`, of which it
/// takes at most `size`.  Fewer than two bytes make an empty chunk.
pub open spec fn materialized(source: Seq<u8>, size: int, compressed: bool) -> Seq<u8> {
    let raw = stored(source, size);
    if raw.len() < 2 {
        Seq::empty()
    } else if compressed {
        decompressed(raw)
    } else {
        raw
    }
}

/// The simplest encoding of `data` that the decoder accepts: groups of up
/// to eight literals, each group behind a flag byte with all bits set.
pub open spec fn literal_encoding(data: Seq<u8>) -> Seq<u8>
    decreases data.len(),
{
    if data.len() == 0 {
        Seq::empty()
    } else if data.len() <= 8 {
        seq![0xFFu8] + data
    } else {
        seq![0xFFu8] + data.take(8) + literal_encoding(data.skip(8))
    }
}

/// Where a seek asks the cursor to go.
#[derive(Clone, Copy, Debug, PartialEq, Eq)]
pub enum SeekFrom {
    /// So many bytes from the start.
    Start(u64),
    /// So many bytes from the end; negative is towards the start.
    End(i64),
    /// So many bytes from the current position.
    Current(i64),
}

/// The position that a seek arrives at in a buffer of `len` bytes with the
/// cursor at `cur`: the position asked for, moved into `0..=len`.
pub open spec fn seek_target(pos: SeekFrom, len: int, cur: int) -> int {
    let wanted = match pos {
        SeekFrom::Start(offset) => offset as int,
        SeekFrom::End(offset) => len + offset,
        SeekFrom::Current(offset) => cur + offset,
    };
    if wanted < 0 {
        0
    } else if wanted > len {
        len
    } else {
        wanted
    }
}

/// A decoded chunk with a read cursor.
#[derive(Debug)]
pub struct VSDInternalStream {
    buffer: Vec<u8>,
    offset: usize,
}

impl View for VSDInternalStream {
    type V = Seq<u8>;

    /// The decoded bytes.
    closed spec fn view(&self) -> Seq<u8> {
        self.buffer@
    }
}

proof fn lemma_window_push(out: Seq<u8>, b: u8, slot: int)
    requires
        0 <= slot < 4096,
    ensures
        window_byte(out.push(b), slot) == if slot == out.len() % 4096 {
            b
        } else {
            window_byte(out, slot)
        },
{
}

proof fn lemma_back_reference_bounds(addr1: u8, addr2: u8)
    ensures
        3 <= back_length(addr2) <= 18,
        0 <= back_pointer(addr1, addr2) <= 4095,
        1 <= back_start(addr1, addr2) <= 4096,
{
    assert(0 <= (addr2 & 0x0F) <= 15) by (bit_vector);
    assert((((addr2 as u32) & 0xF0) << 4 | (addr1 as u32)) <= 4095) by (bit_vector);
}

impl VSDInternalStream {
    #[verifier::type_invariant]
    spec fn cursor_in_buffer(self) -> bool {
        self.offset <= self.buffer.len()
    }

    /// The cursor: the index of the next byte to read.
    pub closed spec fn pos(&self) -> int {
        self.offset as int
    }

    /// Makes the chunk that starts at the beginning of `input` and is
    /// declared `size` bytes long: the bytes themselves, or what they
    /// decompress to.  An input that ends early shortens the chunk.
    pub fn new(input: &[u8], size: usize, compressed: bool) -> (s: Self)
        ensures
            s@ == materialized(input@, size as int, compressed),
            s.pos() == 0,
            input@.len() < 2 || size < 2 ==> s@.len() == 0,
    {
        let available: usize = if size < input.len() {
            size
        } else {
            input.len()
        };
        let raw = slice_subrange(input, 0, available);
        assert(raw@ == stored(input@, size as int));
        if available < 2 {
            Self { buffer: Vec::new(), offset: 0 }
        } else if !compressed {
            Self { buffer: slice_to_vec(raw), offset: 0 }
        } else {
            Self::decompress_buffer(raw)
        }
    }

    /// Decompresses a whole token stream.  Input that ends inside a token
    /// loses that token; nothing is an error.
    pub fn decompress_buffer(input: &[u8]) -> (s: Self)
        ensures
            s@ == decompressed(input@),
            s.pos() == 0,
            input@.len() < 2 ==> s@.len() == 0,
    {
        let mut output: Vec<u8> = Vec::new();
        let mut history: Vec<u8> = vec![0u8; WINDOW_SIZE];
        let mut pos: usize = 0;
        let mut offset: usize = 0;
        let mut flags: u8 = 0;
        let mut left: u8 = 0;
        while offset < input.len()
            invariant
                offset <= input.len(),
                left <= 8,
                history.len() == 4096,
                pos == output@.len() % 4096,
                forall|k: int| 0 <= k < 4096 ==> history@[k] == #[trigger] window_byte(output@, k),
                decompressed(input@) == expand(
                    input@,
                    offset as int,
                    flags as int,
                    left as nat,
                    output@,
                ),
                left > 0 ==> offset >= 1,
                input@.len() < 2 ==> output@.len() == 0,
            decreases input.len() - offset,
        {
            if left == 0 {
                flags = input[offset];
                left = 8;
                offset += 1;
            } else if flags % 2 == 1 {
                let value: u8 = input[offset];
                proof {
                    assert forall|k: int| 0 <= k < 4096 implies (if k == pos {
                        value
                    } else {
                        history@[k]
                    }) == #[trigger] window_byte(output@.push(value), k) by {
                        lemma_window_push(output@, value, k);
                    }
                }
                history.set(pos, value);
                output.push(value);
                pos = if pos + 1 == WINDOW_SIZE {
                    0
                } else {
                    pos + 1
                };
                offset += 1;
                flags = flags / 2;
                left -= 1;
            } else if offset + 1 >= input.len() {
                offset = input.len();
            } else {
                let addr1: u8 = input[offset];
                let addr2: u8 = input[offset + 1];
                proof {
                    lemma_back_reference_bounds(addr1, addr2);
                }
                let length: usize = ((addr2 & 0x0F) + 3) as usize;
                let stored_pointer: u32 = ((addr2 as u32) & 0xF0) << 4 | (addr1 as u32);
                let pointer: usize = if stored_pointer > 4078 {
                    (stored_pointer - 4078) as usize
                } else {
                    (stored_pointer + 18) as usize
                };
                let ghost before = output@;
                let mut j: usize = 0;
                while j < length
                    invariant
                        j <= length <= 18,
                        1 <= pointer <= 4096,
                        history.len() == 4096,
                        pos == output@.len() % 4096,
                        forall|k: int|
                            0 <= k < 4096 ==> history@[k] == #[trigger] window_byte(output@, k),
                        copy_back(before, pointer as int, length as nat) == copy_back(
                            output@,
                            pointer + j,
                            (length - j) as nat,
                        ),
                    decreases length - j,
                {
                    let value: u8 = history[(pointer + j) % WINDOW_SIZE];
                    proof {
                        assert forall|k: int| 0 <= k < 4096 implies (if k == pos {
                            value
                        } else {
                            history@[k]
                        }) == #[trigger] window_byte(output@.push(value), k) by {
                            lemma_window_push(output@, value, k);
                        }
                    }
                    history.set(pos, value);
                    output.push(value);
                    pos = if pos + 1 == WINDOW_SIZE {
                        0
                    } else {
                        pos + 1
                    };
                    j += 1;
                }
                offset += 2;
                flags = flags / 2;
                left -= 1;
            }
        }
        Self { buffer: output, offset: 0 }
    }

    /// The decoded bytes.
    pub fn as_slice(&self) -> (bytes: &[u8])
        ensures
            bytes@ == self@,
    {
        self.buffer.as_slice()
    }

    /// Number of decoded bytes.
    pub fn get_size(&self) -> (n: usize)
        ensures
            n == self@.len(),
    {
        self.buffer.len()
    }

    /// Whether the cursor stands at the end of the buffer.
    pub fn is_end(&self) -> (end: bool)
        ensures
            end == (self.pos() >= self@.len()),
    {
        self.offset >= self.buffer.len()
    }

    /// The cursor's position.
    pub fn tell(&self) -> (at: u64)
        ensures
            at == self.pos(),
            0 <= self.pos() <= self@.len(),
    {
        proof {
            use_type_invariant(self);
        }
        self.offset as u64
    }

    /// Copies bytes from the cursor on into the front of `buf`, as many as
    /// there are, at most `buf.len()`, and moves the cursor past them.
    /// Returns their number: zero at the end of the buffer.
    pub fn read(&mut self, buf: &mut [u8]) -> (count: usize)
        ensures
            final(self)@ == old(self)@,
            0 <= old(self).pos() <= old(self)@.len(),
            count == if old(buf)@.len() <= old(self)@.len() - old(self).pos() {
                old(buf)@.len() as int
            } else {
                old(self)@.len() - old(self).pos()
            },
            final(self).pos() == old(self).pos() + count,
            final(buf)@ == old(self)@.subrange(old(self).pos(), old(self).pos() + count)
                + old(buf)@.skip(count as int),
    {
        proof {
            use_type_invariant(&*self);
        }
        let available: usize = self.buffer.len() - self.offset;
        let count: usize = if buf.len() <= available {
            buf.len()
        } else {
            available
        };
        let start: usize = self.offset;
        let mut i: usize = 0;
        while i < count
            invariant
                i <= count,
                start + count <= self.buffer.len(),
                count <= buf@.len(),
                buf@.len() == old(buf)@.len(),
                self.buffer@ == old(self).buffer@,
                self.offset == start,
                forall|k: int| 0 <= k < i ==> buf@[k] == self.buffer@[start + k],
                forall|k: int| i <= k < buf@.len() ==> buf@[k] == old(buf)@[k],
            decreases count - i,
        {
            buf[i] = self.buffer[start + i];
            i += 1;
        }
        self.offset = start + count;
        assert(buf@ =~= old(self)@.subrange(start as int, start + count) + old(buf)@.skip(
            count as int,
        ));
        count
    }

    /// Moves the cursor.  A position before the start becomes the start,
    /// one past the end becomes the end.  Returns the new position.
    pub fn seek(&mut self, pos: SeekFrom) -> (at: u64)
        ensures
            final(self)@ == old(self)@,
            final(self).pos() == seek_target(pos, old(self)@.len() as int, old(self).pos()),
            at == final(self).pos(),
    {
        proof {
            use_type_invariant(&*self);
        }
        let len: usize = self.buffer.len();
        let target: usize = match pos {
            SeekFrom::Start(offset) => {
                if offset > len as u64 {
                    len
                } else {
                    offset as usize
                }
            },
            SeekFrom::End(offset) => Self::moved(len, offset, len),
            SeekFrom::Current(offset) => Self::moved(self.offset, offset, len),
        };
        self.offset = target;
        target as u64
    }

    /// `base + delta`, moved into `0..=len`.
    fn moved(base: usize, delta: i64, len: usize) -> (at: usize)
        requires
            base <= len,
        ensures
            at == if base + delta < 0 {
                0
            } else if base + delta > len {
                len as int
            } else {
                base + delta
            },
    {
        if delta >= 0 {
            let room: usize = len - base;
            if delta as u64 > room as u64 {
                len
            } else {
                base + delta as usize
            }
        } else {
            let back: u64 = if delta == i64::MIN {
                0x8000_0000_0000_0000
            } else {
                (-delta) as u64
            };
            if back > base as u64 {
                0
            } else {
                base - back as usize
            }
        }
    }
}

/// Encodes `data` as literals only.
pub fn encode_literals(data: &[u8]) -> (encoded: Vec<u8>)
    ensures
        encoded@ == literal_encoding(data@),
{
    let mut encoded: Vec<u8> = Vec::new();
    let mut i: usize = 0;
    assert(data@.skip(0) =~= data@);
    assert(encoded@ + literal_encoding(data@) =~= literal_encoding(data@));
    while i < data.len()
        invariant
            i <= data.len(),
            literal_encoding(data@) == encoded@ + literal_encoding(data@.skip(i as int)),
        decreases data.len() - i,
    {
        let rest: usize = data.len() - i;
        let group: usize = if rest <= 8 {
            rest
        } else {
            8
        };
        let ghost before = encoded@;
        encoded.push(0xFF);
        let mut j: usize = 0;
        while j < group
            invariant
                j <= group,
                i + group <= data.len(),
                encoded@ == before + seq![0xFFu8] + data@.subrange(i as int, i + j),
            decreases group - j,
        {
            encoded.push(data[i + j]);
            assert(data@.subrange(i as int, i + j).push(data@[i + j]) =~= data@.subrange(
                i as int,
                i + j + 1,
            ));
            j += 1;
        }
        proof {
            let tail = data@.skip(i as int);
            assert(tail.take(group as int) =~= data@.subrange(i as int, i + group));
            assert(tail.skip(group as int) =~= data@.skip(i + group));
            if rest <= 8 {
                assert(tail.take(group as int) =~= tail);
                assert(literal_encoding(data@.skip(i + group)) =~= Seq::<u8>::empty());
            }
            assert(encoded@ + literal_encoding(data@.skip(i + group)) =~= before
                + literal_encoding(tail));
        }
        i += group;
    }
    assert(data@.skip(data@.len() as int) =~= Seq::<u8>::empty());
    encoded
}

/// Flag bits of `left` literals: `left` ones.
spec fn all_literals(left: nat) -> int
    decreases left,
{
    if left == 0 {
        0
    } else {
        2 * all_literals((left - 1) as nat) + 1
    }
}

proof fn lemma_expand_literals(input: Seq<u8>, at: int, left: nat, out: Seq<u8>, count: nat)
    requires
        0 <= at,
        at + count <= input.len(),
        count <= left,
    ensures
        expand(input, at, all_literals(left), left, out) == expand(
            input,
            at + count,
            all_literals((left - count) as nat),
            (left - count) as nat,
            out + input.subrange(at, at + count),
        ),
    decreases count,
{
    if count == 0 {
        assert(out + input.subrange(at, at) =~= out);
    } else {
        lemma_expand_literals(input, at + 1, (left - 1) as nat, out.push(input[at]), (count - 1) as nat);
        assert(out.push(input[at]) + input.subrange(at + 1, at + count) =~= out + input.subrange(
            at,
            at + count,
        ));
    }
}

proof fn lemma_expand_groups(input: Seq<u8>, at: int, flags: int, out: Seq<u8>, data: Seq<u8>)
    requires
        0 <= at <= input.len(),
        input.skip(at) == literal_encoding(data),
    ensures
        expand(input, at, flags, 0, out) == out + data,
    decreases data.len(),
{
    let tail = input.skip(at);
    if data.len() == 0 {
        assert(tail.len() == 0);
        assert(out + data =~= out);
    } else {
        assert(all_literals(8) == 255) by {
            reveal_with_fuel(all_literals, 9);
        }
        if data.len() <= 8 {
            assert(tail =~= seq![0xFFu8] + data);
            assert(tail[0] == 0xFF);
            assert(input[at] == 0xFF);
            assert(input.len() == at + 1 + data.len());
            assert forall|k: int| 0 <= k < data.len() implies input[at + 1 + k] == data[k] by {
                assert(tail[1 + k] == data[k]);
            }
            assert(input.subrange(at + 1, at + 1 + data.len()) =~= data);
            lemma_expand_literals(input, at + 1, 8, out, data.len());
        } else {
            let rest = literal_encoding(data.skip(8));
            let head = seq![0xFFu8] + data.take(8);
            assert(tail =~= head + rest);
            assert(head.len() == 9);
            assert(tail[0] == head[0]);
            assert(input[at] == 0xFF);
            assert(input.len() == at + 9 + rest.len());
            assert forall|k: int| 0 <= k < 8 implies input[at + 1 + k] == data.take(8)[k] by {
                assert(tail[1 + k] == head[1 + k]);
            }
            assert(input.subrange(at + 1, at + 9) =~= data.take(8));
            assert forall|k: int| 0 <= k < rest.len() implies input[at + 9 + k] == rest[k] by {
                assert(tail[9 + k] == rest[k]);
            }
            assert(input.skip(at + 9) =~= rest);
            lemma_expand_literals(input, at + 1, 8, out, 8);
            lemma_expand_groups(input, at + 9, 0, out + data.take(8), data.skip(8));
            assert(out + data.take(8) + data.skip(8) =~= out + data);
        }
    }
}

/// Round trip: what the literal encoder writes, the decoder turns back into
/// the bytes that were encoded.
pub proof fn lemma_decompress_inverts_encoding(data: Seq<u8>)
    ensures
        decompressed(literal_encoding(data)) == data,
{
    let input = literal_encoding(data);
    assert(input.skip(0) =~= input);
    lemma_expand_groups(input, 0, 0, Seq::empty(), data);
    assert(Seq::<u8>::empty() + data =~= data);
}

/// Round trip through a chunk: a chunk made from the literal encoding of
/// `data`, declared with its full length, holds `data`.
pub proof fn lemma_chunk_inverts_encoding(data: Seq<u8>)
    ensures
        materialized(literal_encoding(data), literal_encoding(data).len() as int, true) == data,
{
    lemma_decompress_inverts_encoding(data);
    let input = literal_encoding(data);
    if data.len() == 0 {
    } else if data.len() <= 8 {
        assert(input.len() == 1 + data.len());
    } else {
        assert(input.len() == 9 + literal_encoding(data.skip(8)).len());
    }
}

} // verus!
