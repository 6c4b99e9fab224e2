//! The compressed stream as a sequence of tokens, and what decompression
//! makes of any such sequence.

use super::vsdinternal_stream::back_length;
use super::vsdinternal_stream::back_start;
use super::vsdinternal_stream::copy_back;
use super::vsdinternal_stream::decompressed;
use super::vsdinternal_stream::expand;
use vstd::prelude::*;

verus! {

/// One token of a compressed stream.
pub enum Token {
    /// One byte, to be copied.
    Literal(u8),
    /// A back-reference, as its two bytes.
    Copy { addr1: u8, addr2: u8 },
}

/// The bytes of one token.
pub open spec fn token_bytes(token: Token) -> Seq<u8> {
    match token {
        Token::Literal(byte) => seq![byte],
        Token::Copy { addr1, addr2 } => seq![addr1, addr2],
    }
}

/// What one token adds to the output `out`.
pub open spec fn after_token(token: Token, out: Seq<u8>) -> Seq<u8> {
    match token {
        Token::Literal(byte) => out.push(byte),
        Token::Copy { addr1, addr2 } => copy_back(
            out,
            back_start(addr1, addr2),
            back_length(addr2) as nat,
        ),
    }
}

/// The flag bits of the first `count` tokens: the bit of the first token
/// lowest, set for a literal.
pub open spec fn group_flags(tokens: Seq<Token>, count: nat) -> int
    decreases count,
{
    if count == 0 {
        0
    } else {
        (if tokens[0] is Literal {
            1int
        } else {
            0int
        }) + 2 * group_flags(tokens.skip(1), (count - 1) as nat)
    }
}

/// The bytes of the first `count` tokens, one token after the other.
pub open spec fn group_bytes(tokens: Seq<Token>, count: nat) -> Seq<u8>
    decreases count,
{
    if count == 0 {
        Seq::empty()
    } else {
        token_bytes(tokens[0]) + group_bytes(tokens.skip(1), (count - 1) as nat)
    }
}

/// What the first `count` tokens add to the output `out`.
pub open spec fn after_tokens(tokens: Seq<Token>, count: nat, out: Seq<u8>) -> Seq<u8>
    decreases count,
{
    if count == 0 {
        out
    } else {
        after_tokens(tokens.skip(1), (count - 1) as nat, after_token(tokens[0], out))
    }
}

/// Number of tokens in the first group of `tokens`.
pub open spec fn group_size(tokens: Seq<Token>) -> nat {
    if tokens.len() < 8 {
        tokens.len()
    } else {
        8
    }
}

/// The stream that holds `tokens`: groups of eight, each behind its flag
/// byte; the last group may be smaller.
pub open spec fn token_stream(tokens: Seq<Token>) -> Seq<u8>
    decreases tokens.len(),
{
    if tokens.len() == 0 {
        Seq::empty()
    } else {
        let size = group_size(tokens);
        seq![group_flags(tokens, size) as u8] + group_bytes(tokens, size) + token_stream(
            tokens.skip(size as int),
        )
    }
}

proof fn lemma_group_flags_bound(tokens: Seq<Token>, count: nat)
    requires
        count <= 8,
    ensures
        0 <= group_flags(tokens, count) < 256,
        count <= 7 ==> group_flags(tokens, count) < 128,
        count <= 6 ==> group_flags(tokens, count) < 64,
        count <= 5 ==> group_flags(tokens, count) < 32,
        count <= 4 ==> group_flags(tokens, count) < 16,
        count <= 3 ==> group_flags(tokens, count) < 8,
        count <= 2 ==> group_flags(tokens, count) < 4,
        count <= 1 ==> group_flags(tokens, count) < 2,
        count == 0 ==> group_flags(tokens, count) == 0,
    decreases count,
{
    if count > 0 {
        lemma_group_flags_bound(tokens.skip(1), (count - 1) as nat);
    }
}

proof fn lemma_after_tokens_split(tokens: Seq<Token>, first: nat, out: Seq<u8>)
    requires
        first <= tokens.len(),
    ensures
        after_tokens(tokens, tokens.len(), out) == after_tokens(
            tokens.skip(first as int),
            (tokens.len() - first) as nat,
            after_tokens(tokens, first, out),
        ),
    decreases first,
{
    if first == 0 {
        assert(tokens.skip(0) =~= tokens);
    } else {
        let rest = tokens.skip(1);
        lemma_after_tokens_split(rest, (first - 1) as nat, after_token(tokens[0], out));
        assert(rest.skip(first - 1) =~= tokens.skip(first as int));
    }
}

/// The decoder, standing in `input` at `at` with `count` tokens of a group
/// before it, whose bytes follow, reads the tokens.
proof fn lemma_expand_group(
    input: Seq<u8>,
    at: int,
    tokens: Seq<Token>,
    count: nat,
    left: nat,
    out: Seq<u8>,
)
    requires
        0 <= at,
        count <= tokens.len(),
        count <= left <= 8,
        at + group_bytes(tokens, count).len() <= input.len(),
        input.subrange(at, at + group_bytes(tokens, count).len()) == group_bytes(tokens, count),
    ensures
        expand(input, at, group_flags(tokens, count), left, out) == expand(
            input,
            at + group_bytes(tokens, count).len(),
            0,
            (left - count) as nat,
            after_tokens(tokens, count, out),
        ),
    decreases count,
{
    if count > 0 {
        let bytes = group_bytes(tokens, count);
        let rest = tokens.skip(1);
        let rest_bytes = group_bytes(rest, (count - 1) as nat);
        let here = token_bytes(tokens[0]);
        let flags = group_flags(tokens, count);
        let rest_flags = group_flags(rest, (count - 1) as nat);
        assert(bytes == here + rest_bytes);
        let window = input.subrange(at, at + bytes.len());
        assert forall|k: int| 0 <= k < here.len() implies input[at + k] == here[k] by {
            assert(window[k] == bytes[k]);
        }
        assert(input.subrange(at + here.len(), at + bytes.len()) =~= rest_bytes) by {
            assert forall|k: int| 0 <= k < rest_bytes.len() implies input[at + here.len() + k]
                == rest_bytes[k] by {
                assert(window[here.len() + k] == bytes[here.len() + k]);
            }
        }
        lemma_expand_group(
            input,
            at + here.len(),
            rest,
            (count - 1) as nat,
            (left - 1) as nat,
            after_token(tokens[0], out),
        );
        match tokens[0] {
            Token::Literal(byte) => {
                assert(flags % 2 == 1 && flags / 2 == rest_flags);
                assert(here.len() == 1 && here[0] == byte);
                assert(input[at + 0] == here[0]);
            },
            Token::Copy { addr1, addr2 } => {
                assert(flags % 2 == 0 && flags / 2 == rest_flags);
                assert(here.len() == 2 && here[0] == addr1 && here[1] == addr2);
                assert(input[at + 0] == here[0]);
                assert(input[at + 1] == here[1]);
            },
        }
    }
}

proof fn lemma_expand_stream(input: Seq<u8>, at: int, flags: int, tokens: Seq<Token>, out: Seq<u8>)
    requires
        0 <= at <= input.len(),
        input.skip(at) == token_stream(tokens),
    ensures
        expand(input, at, flags, 0, out) == after_tokens(tokens, tokens.len(), out),
    decreases tokens.len(),
{
    let tail = input.skip(at);
    if tokens.len() > 0 {
        let size = group_size(tokens);
        let group_flag = group_flags(tokens, size);
        let bytes = group_bytes(tokens, size);
        let rest = tokens.skip(size as int);
        let head = seq![group_flag as u8] + bytes;
        lemma_group_flags_bound(tokens, size);
        assert(tail == head + token_stream(rest));
        assert(tail.len() == head.len() + token_stream(rest).len());
        assert(input[at] == tail[0]);
        assert(tail[0] == head[0]);
        assert(input[at] as int == group_flag);
        assert(input.subrange(at + 1, at + 1 + bytes.len()) =~= bytes) by {
            assert forall|k: int| 0 <= k < bytes.len() implies input[at + 1 + k] == bytes[k] by {
                assert(tail[1 + k] == head[1 + k]);
            }
        }
        lemma_expand_group(input, at + 1, tokens, size, 8, out);
        let next = at + 1 + bytes.len();
        let now = after_tokens(tokens, size, out);
        assert(input.skip(next) =~= token_stream(rest)) by {
            assert forall|k: int| 0 <= k < token_stream(rest).len() implies input[next + k]
                == token_stream(rest)[k] by {
                assert(tail[head.len() + k] == token_stream(rest)[k]);
            }
        }
        lemma_after_tokens_split(tokens, size, out);
        if size == 8 {
            lemma_expand_stream(input, next, 0, rest, now);
        } else {
            assert(rest.len() == 0);
            assert(next == input.len());
        }
    } else {
        assert(tail.len() == 0);
    }
}

/// Decompression reads back any stream of tokens: what it makes of the
/// stream that holds `tokens` is what the tokens add, one after the other,
/// to an empty output.  So whatever an encoder of this scheme writes, the
/// decoder turns into the bytes that the encoder's tokens stand for.
pub proof fn lemma_decompress_reads_tokens(tokens: Seq<Token>)
    ensures
        decompressed(token_stream(tokens)) == after_tokens(tokens, tokens.len(), Seq::empty()),
{
    let input = token_stream(tokens);
    assert(input.skip(0) =~= input);
    lemma_expand_stream(input, 0, 0, tokens, Seq::empty());
}

} // verus!
