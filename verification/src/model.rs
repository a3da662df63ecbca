//! The mathematical model of the MD5 digest: modular 32-bit arithmetic,
//! the four round functions, the 64-round compression of one block, the
//! block-by-block folding of a message, and the padding and serialization
//! rules.  `md5_digest` is the single reference that the executable
//! `Context` is proved against.
use vstd::prelude::*;

use crate::consts::{k_spec, s_spec, INIT_A, INIT_B, INIT_C, INIT_D};

verus! {

/// Addition of two 32-bit words, wrapping modulo `2^32`.
pub open spec fn w_add(x: u32, y: u32) -> u32 {
    if x + y > 0xffff_ffff {
        (x + y - 0x1_0000_0000) as u32
    } else {
        (x + y) as u32
    }
}

/// Circular left rotation of a 32-bit word by `n` bits.
pub open spec fn rotl(x: u32, n: u32) -> u32
    recommends
        0 < n < 32,
{
    (x << n) | (x >> ((32 - n) as u32))
}

/// The first round function: each bit of the result is chosen from `y`
/// or `z` according to the corresponding bit of `x`.
pub open spec fn f_spec(x: u32, y: u32, z: u32) -> u32 {
    (x & y) | (!x & z)
}

/// The second round function: the same selection with the roles of `x`
/// and `z` exchanged.
pub open spec fn g_spec(x: u32, y: u32, z: u32) -> u32 {
    (x & z) | (y & !z)
}

/// The third round function: bitwise parity.
pub open spec fn h_spec(x: u32, y: u32, z: u32) -> u32 {
    x ^ y ^ z
}

/// The fourth round function.
pub open spec fn i_spec(x: u32, y: u32, z: u32) -> u32 {
    y ^ (x | !z)
}

/// The nonlinear mix of round `i`, applied to the registers `b`, `c`, `d`:
/// rounds are grouped sixteen at a time, one round function per group.
pub open spec fn mix(i: int, b: u32, c: u32, d: u32) -> u32
    recommends
        0 <= i < 64,
{
    if i < 16 {
        f_spec(b, c, d)
    } else if i < 32 {
        g_spec(b, c, d)
    } else if i < 48 {
        h_spec(b, c, d)
    } else {
        i_spec(b, c, d)
    }
}

/// Which of the sixteen words of the block round `i` mixes in.
pub open spec fn word_index(i: int) -> int
    recommends
        0 <= i < 64,
{
    if i < 16 {
        i
    } else if i < 32 {
        ((i * 5) + 1) % 16
    } else if i < 48 {
        ((i * 3) + 5) % 16
    } else {
        (i * 7) % 16
    }
}

/// The `j`-th 32-bit word of a 64-byte block, read little-endian.
pub open spec fn word_at(block: Seq<u8>, j: int) -> u32
    recommends
        block.len() == 64,
        0 <= j < 16,
{
    (block[4 * j] as u32) | ((block[4 * j + 1] as u32) << 8u32) | ((block[4 * j + 2] as u32)
        << 16u32) | ((block[4 * j + 3] as u32) << 24u32)
}

/// One round of the compression function on the register file
/// `(a, b, c, d)`.
pub open spec fn round(block: Seq<u8>, r: (u32, u32, u32, u32), i: int) -> (u32, u32, u32, u32)
    recommends
        block.len() == 64,
        0 <= i < 64,
{
    let (a, b, c, d) = r;
    let t = w_add(w_add(w_add(a, mix(i, b, c, d)), k_spec(i)), word_at(block, word_index(i)));
    (d, w_add(b, rotl(t, s_spec(i))), b, c)
}

/// The register file after the first `n` rounds on one block.
pub open spec fn rounds(block: Seq<u8>, r: (u32, u32, u32, u32), n: int) -> (u32, u32, u32, u32)
    recommends
        block.len() == 64,
        0 <= n <= 64,
    decreases n,
{
    if n <= 0 {
        r
    } else {
        round(block, rounds(block, r, n - 1), n - 1)
    }
}

/// One application of the compression function: run the 64 rounds on the
/// block and add the result back into the accumulator.
pub open spec fn compress(acc: (u32, u32, u32, u32), block: Seq<u8>) -> (u32, u32, u32, u32)
    recommends
        block.len() == 64,
{
    let (a, b, c, d) = rounds(block, acc, 64);
    (w_add(acc.0, a), w_add(acc.1, b), w_add(acc.2, c), w_add(acc.3, d))
}

/// The standard initial accumulator.
pub open spec fn init_state() -> (u32, u32, u32, u32) {
    (INIT_A, INIT_B, INIT_C, INIT_D)
}

/// The accumulator after compressing the first `n` 64-byte blocks of
/// `msg`, starting from the initial accumulator.
pub open spec fn state_after(msg: Seq<u8>, n: int) -> (u32, u32, u32, u32)
    recommends
        0 <= n,
        64 * n <= msg.len(),
    decreases n,
{
    if n <= 0 {
        init_state()
    } else {
        compress(state_after(msg, n - 1), msg.subrange(64 * (n - 1), 64 * n))
    }
}

/// How many padding bytes a message of `len` bytes receives: enough to
/// reach 56 modulo 64, so that the 8-byte length field completes a block.
pub open spec fn pad_len(len: nat) -> nat {
    if len % 64 < 56 {
        (56 - len % 64) as nat
    } else {
        (120 - len % 64) as nat
    }
}

/// The padding itself: one `0x80` marker byte, then zeros.
pub open spec fn pad_bytes(len: nat) -> Seq<u8> {
    Seq::new(pad_len(len), |i: int| if i == 0 { 0x80u8 } else { 0u8 })
}

/// A 32-bit word as four little-endian bytes.
pub open spec fn u32_le_bytes(x: u32) -> Seq<u8> {
    seq![
        (x & 0xff) as u8,
        ((x >> 8u32) & 0xff) as u8,
        ((x >> 16u32) & 0xff) as u8,
        ((x >> 24u32) & 0xff) as u8,
    ]
}

/// A 64-bit word as eight little-endian bytes.
pub open spec fn u64_le_bytes(x: u64) -> Seq<u8> {
    seq![
        (x & 0xff) as u8,
        ((x >> 8u64) & 0xff) as u8,
        ((x >> 16u64) & 0xff) as u8,
        ((x >> 24u64) & 0xff) as u8,
        ((x >> 32u64) & 0xff) as u8,
        ((x >> 40u64) & 0xff) as u8,
        ((x >> 48u64) & 0xff) as u8,
        ((x >> 56u64) & 0xff) as u8,
    ]
}

/// The length field appended after the padding: the bit length of the
/// message, modulo `2^64`, little-endian.
pub open spec fn length_bytes(len: nat) -> Seq<u8> {
    u64_le_bytes((((len * 8) % 0x1_0000_0000_0000_0000) as u64))
}

/// The padded message: the message, the padding, and the length field.
/// Its length is always a multiple of 64.
pub open spec fn padded(msg: Seq<u8>) -> Seq<u8> {
    msg + pad_bytes(msg.len()) + length_bytes(msg.len())
}

/// The four accumulator words serialized little-endian, first word first.
pub open spec fn digest_bytes(acc: (u32, u32, u32, u32)) -> Seq<u8> {
    u32_le_bytes(acc.0) + u32_le_bytes(acc.1) + u32_le_bytes(acc.2) + u32_le_bytes(acc.3)
}

/// The MD5 digest of a message: compress every block of the padded
/// message in order, then serialize the accumulator.
pub open spec fn md5_digest(msg: Seq<u8>) -> Seq<u8> {
    digest_bytes(state_after(padded(msg), padded(msg).len() as int / 64))
}

/// Reducing a byte count modulo `2^64` does not change its value
/// modulo 64, since 64 divides `2^64`.
pub proof fn lemma_mod64_carries(n: nat)
    ensures
        (n % 0x1_0000_0000_0000_0000) % 64 == n % 64,
{
    vstd::arithmetic::div_mod::lemma_mod_mod(n as int, 64, 0x0400_0000_0000_0000);
    assert(64 * 0x0400_0000_0000_0000 == 0x1_0000_0000_0000_0000);
}

/// The accumulator after `n` blocks depends only on the first `64 * n`
/// bytes: two messages that agree there agree on the accumulator.
pub proof fn lemma_state_after_prefix(m1: Seq<u8>, m2: Seq<u8>, n: int)
    requires
        0 <= n,
        64 * n <= m1.len(),
        64 * n <= m2.len(),
        forall|j: int| 0 <= j < 64 * n ==> m1[j] == m2[j],
    ensures
        state_after(m1, n) == state_after(m2, n),
    decreases n,
{
    if n > 0 {
        lemma_state_after_prefix(m1, m2, n - 1);
        assert(m1.subrange(64 * (n - 1), 64 * n) =~= m2.subrange(64 * (n - 1), 64 * n));
    }
}

/// Block count: padding rounds `len + 9` (one marker byte and the
/// eight length bytes) up to the next multiple of 64, so the padded
/// message of a message of `len` bytes holds exactly
/// `(len + 9 + 63) / 64` blocks — and the compression function is
/// applied exactly once per block.
pub proof fn lemma_block_count(msg: Seq<u8>)
    ensures
        padded(msg).len() % 64 == 0,
        padded(msg).len() == 64 * ((msg.len() + 72) / 64),
{
    let len = msg.len() as int;
    vstd::arithmetic::div_mod::lemma_fundamental_div_mod(len, 64);
    let q = len / 64;
    let r = len % 64;
    if r < 56 {
        assert(padded(msg).len() == 64 * q + 64);
        vstd::arithmetic::div_mod::lemma_fundamental_div_mod_converse_div(len + 72, 64, q + 1, r
            + 8);
        vstd::arithmetic::div_mod::lemma_fundamental_div_mod_converse_mod(
            padded(msg).len() as int,
            64,
            q + 1,
            0,
        );
    } else {
        assert(padded(msg).len() == 64 * q + 128);
        vstd::arithmetic::div_mod::lemma_fundamental_div_mod_converse_div(len + 72, 64, q + 2, r
            - 56);
        vstd::arithmetic::div_mod::lemma_fundamental_div_mod_converse_mod(
            padded(msg).len() as int,
            64,
            q + 2,
            0,
        );
    }
}

} // verus!
