//! A streaming MD5 context with a verified core: bytes are fed in
//! arbitrary chunks through `read`, every completed 64-byte block is
//! compressed by `step`, and `finish` pads the stream, compresses the
//! final block(s), and serializes the accumulator into the 16-byte
//! digest.  The digest returned by `finish` is proved equal to
//! `model::md5_digest` of exactly the bytes fed.
use vstd::prelude::*;

pub mod consts;
pub mod model;
pub mod util;

pub use crate::consts::{DIGEST_LEN, INPUT_BUFFER_LEN};
use crate::consts::{INIT_A, INIT_B, INIT_C, INIT_D};
use crate::model::{compress, digest_bytes, init_state, length_bytes, lemma_mod64_carries,
    lemma_state_after_prefix, md5_digest, pad_bytes, pad_len, padded, round, rounds, state_after,
    u32_le_bytes, u64_le_bytes, word_at, word_index};
use vstd::arithmetic::div_mod::{lemma_add_mod_noop, lemma_fundamental_div_mod,
    lemma_mul_mod_noop_left, lemma_sub_mod_noop};

verus! {

/// The streaming hash state: the count of bytes received, the 64-byte
/// block buffer, the four-word accumulator, the digest buffer, and a
/// ghost record of every byte fed so far.
pub struct Context {
    size: u64,
    input: [u8; INPUT_BUFFER_LEN],
    digest: [u8; DIGEST_LEN],
    buffer: [u32; 4],
    fed: Ghost<Seq<u8>>,
}

impl Context {
    /// The bytes fed so far through `read`.
    pub closed spec fn bytes_fed(self) -> Seq<u8> {
        self.fed@
    }

    /// The four accumulator words.
    pub closed spec fn acc(self) -> (u32, u32, u32, u32) {
        (self.buffer[0], self.buffer[1], self.buffer[2], self.buffer[3])
    }

    /// The contents of the 64-byte block buffer.
    pub closed spec fn block(self) -> Seq<u8> {
        self.input@
    }

    /// The running byte count.
    pub closed spec fn count(self) -> u64 {
        self.size
    }

    /// A context is well formed when its concrete fields agree with the
    /// record of fed bytes: the count is the number of bytes fed (modulo
    /// `2^64`), the accumulator is the fold of the compression function
    /// over every completed block, and the block buffer holds the bytes
    /// of the block still in progress.
    pub closed spec fn wf(self) -> bool {
        &&& self.size == self.fed@.len() % 0x1_0000_0000_0000_0000
        &&& self.acc() == state_after(self.fed@, (self.fed@.len() / 64) as int)
        &&& forall|j: int|
            0 <= j < self.fed@.len() % 64 ==> self.input@[j] == self.fed@[self.fed@.len() - (
            self.fed@.len() % 64) + j]
    }

    /// A fresh context: nothing fed, the accumulator at its standard
    /// initial value.
    pub fn new() -> (r: Self)
        ensures
            r.wf(),
            r.bytes_fed() == Seq::<u8>::empty(),
    {
        let r = Self {
            size: 0,
            input: [0; INPUT_BUFFER_LEN],
            digest: [0; DIGEST_LEN],
            buffer: [INIT_A, INIT_B, INIT_C, INIT_D],
            fed: Ghost(Seq::empty()),
        };
        proof {
            assert(r.acc() == init_state());
        }
        r
    }

    /// Compress the 64-byte block currently resident in the buffer into
    /// the accumulator: run the 64 rounds and add the result back.  Only
    /// the accumulator changes; the count, the block buffer, and the
    /// record of fed bytes stay as they were.
    pub fn step(&mut self)
        ensures
            final(self).acc() == compress(old(self).acc(), old(self).block()),
            final(self).block() == old(self).block(),
            final(self).count() == old(self).count(),
            final(self).bytes_fed() == old(self).bytes_fed(),
    {
        let mut a = self.buffer[0];
        let mut b = self.buffer[1];
        let mut c = self.buffer[2];
        let mut d = self.buffer[3];
        let ghost acc0 = self.acc();
        let ghost blk = self.input@;
        let mut i: usize = 0;
        while i < 64
            invariant
                i <= 64,
                *self == *old(self),
                blk == self.input@,
                acc0 == self.acc(),
                (a, b, c, d) == rounds(blk, acc0, i as int),
            decreases 64 - i,
        {
            let e: u32;
            let g: usize;
            if i < 16 {
                e = util::f(b, c, d);
                g = i;
            } else if i < 32 {
                e = util::g(b, c, d);
                g = ((i * 5) + 1) % 16;
            } else if i < 48 {
                e = util::h(b, c, d);
                g = ((i * 3) + 5) % 16;
            } else {
                e = util::i(b, c, d);
                g = (i * 7) % 16;
            }
            assert(g == word_index(i as int));
            let g4 = g * 4;
            let w: u32 = (self.input[g4] as u32) | ((self.input[g4 + 1] as u32) << 8u32) | ((
            self.input[g4 + 2] as u32) << 16u32) | ((self.input[g4 + 3] as u32) << 24u32);
            assert(w == word_at(blk, g as int));
            let k = consts::k_at(i);
            let s = consts::s_at(i);
            proof {
                consts::lemma_s_spec_in_range(i as int);
            }
            let t = a.wrapping_add(e).wrapping_add(k).wrapping_add(w);
            a = d;
            d = c;
            c = b;
            b = b.wrapping_add(util::rotate_u32_left(t, s));
            proof {
                assert((a, b, c, d) == round(blk, rounds(blk, acc0, i as int), i as int));
            }
            i = i + 1;
        }
        self.buffer[0] = self.buffer[0].wrapping_add(a);
        self.buffer[1] = self.buffer[1].wrapping_add(b);
        self.buffer[2] = self.buffer[2].wrapping_add(c);
        self.buffer[3] = self.buffer[3].wrapping_add(d);
    }

    /// Feed a single byte: record it, store it at the rolling offset in
    /// the block buffer, and compress the block if this byte completed
    /// one.
    fn push_byte(&mut self, byte: u8)
        requires
            old(self).wf(),
        ensures
            final(self).wf(),
            final(self).bytes_fed() == old(self).bytes_fed() + seq![byte],
    {
        let ghost m0 = self.fed@;
        let ghost m1 = m0 + seq![byte];
        proof {
            lemma_mod64_carries(m0.len());
        }
        let offset = (self.size % 64) as usize;
        self.input[offset] = byte;
        self.size = self.size.wrapping_add(1);
        self.fed = Ghost(m1);
        proof {
            lemma_add_mod_noop(m0.len() as int, 1, 0x1_0000_0000_0000_0000);
            assert(self.size == m1.len() % 0x1_0000_0000_0000_0000);
            lemma_mod64_carries(m1.len());
        }
        if self.size % 64 == 0 {
            proof {
                assert(m1.len() % 64 == 0);
                lemma_fundamental_div_mod(m1.len() as int, 64);
                let n1 = (m1.len() / 64) as int;
                assert(64 * n1 == m1.len());
                assert(m1.subrange(64 * (n1 - 1), 64 * n1) =~= self.input@);
            }
            self.step();
            proof {
                let n1 = (m1.len() / 64) as int;
                lemma_state_after_prefix(m1, m0, n1 - 1);
                assert(m0.len() / 64 == n1 - 1);
                assert(state_after(m1, n1) == compress(
                    state_after(m1, n1 - 1),
                    m1.subrange(64 * (n1 - 1), 64 * n1),
                ));
            }
        } else {
            proof {
                assert(m1.len() / 64 == m0.len() / 64);
                lemma_state_after_prefix(m1, m0, (m0.len() / 64) as int);
            }
        }
    }

    /// Feed a byte sequence of any length, in order, as a continuation
    /// of the stream fed so far.  The bytes recorded afterwards are the
    /// old record with `buf` appended; together with `finish`, this is
    /// the streaming contract: only the concatenation of all chunks ever
    /// fed determines the digest.
    pub fn read(&mut self, buf: &[u8])
        requires
            old(self).wf(),
        ensures
            final(self).wf(),
            final(self).bytes_fed() == old(self).bytes_fed() + buf@,
    {
        let mut i: usize = 0;
        while i < buf.len()
            invariant
                i <= buf.len(),
                self.wf(),
                self.bytes_fed() == old(self).bytes_fed() + buf@.subrange(0, i as int),
            decreases buf.len() - i,
        {
            self.push_byte(buf[i]);
            proof {
                assert(old(self).bytes_fed() + buf@.subrange(0, i as int) + seq![buf@[i as int]]
                    =~= old(self).bytes_fed() + buf@.subrange(0, i as int + 1));
            }
            i = i + 1;
        }
        proof {
            assert(buf@.subrange(0, buf@.len() as int) =~= buf@);
        }
    }

    /// Terminal operation: pad the stream with a `0x80` marker and
    /// zeros up to 56 modulo 64, append the original bit length as a
    /// 64-bit little-endian value, compress the final block, and
    /// serialize the accumulator little-endian into the 16-byte digest.
    /// The digest is exactly `md5_digest` of the bytes fed.
    #[verifier::rlimit(100)]
    pub fn finish(self) -> (digest: [u8; DIGEST_LEN])
        requires
            self.wf(),
        ensures
            digest@ == md5_digest(self.bytes_fed()),
    {
        let mut this = self;
        let ghost msg = this.fed@;
        proof {
            lemma_mod64_carries(msg.len());
        }
        // Insert the padding: one marker byte, then zeros, through the
        // same per-byte path that `read` uses.
        let offset = (this.size % 64) as usize;
        let padding_len: usize = if offset < 56 {
            56 - offset
        } else {
            (56 + INPUT_BUFFER_LEN) - offset
        };
        assert(padding_len == pad_len(msg.len()));
        this.push_byte(0x80);
        proof {
            assert(pad_bytes(msg.len()).subrange(0, 1) =~= seq![0x80u8]);
        }
        let mut j: usize = 1;
        while j < padding_len
            invariant
                1 <= j <= padding_len,
                this.wf(),
                padding_len == pad_len(msg.len()),
                this.bytes_fed() == msg + pad_bytes(msg.len()).subrange(0, j as int),
            decreases padding_len - j,
        {
            this.push_byte(0x00);
            proof {
                assert(msg + pad_bytes(msg.len()).subrange(0, j as int) + seq![0x00u8] =~= msg
                    + pad_bytes(msg.len()).subrange(0, j as int + 1));
            }
            j = j + 1;
        }
        let ghost fed1 = msg + pad_bytes(msg.len());
        proof {
            assert(pad_bytes(msg.len()).subrange(0, pad_len(msg.len()) as int) =~= pad_bytes(
                msg.len(),
            ));
            assert(this.bytes_fed() == fed1);
            lemma_add_mod_noop(msg.len() as int, pad_len(msg.len()) as int, 64);
            assert(fed1.len() % 64 == 56);
            lemma_mod64_carries(fed1.len());
        }
        // The accumulator now covers every completed block of the
        // padded-but-for-the-length stream.
        let ghost acc1 = this.acc();
        proof {
            assert(acc1 == state_after(fed1, (fed1.len() / 64) as int));
        }
        // Restore the count to the original message length and append
        // the bit length, little-endian, in the last eight bytes.
        this.size = this.size.wrapping_sub(padding_len as u64);
        proof {
            lemma_sub_mod_noop(fed1.len() as int, padding_len as int, 0x1_0000_0000_0000_0000);
            vstd::arithmetic::div_mod::lemma_small_mod(
                padding_len as nat,
                0x1_0000_0000_0000_0000,
            );
            assert(this.size == msg.len() % 0x1_0000_0000_0000_0000);
        }
        let bits = this.size.wrapping_mul(8);
        proof {
            lemma_mul_mod_noop_left(msg.len() as int, 8, 0x1_0000_0000_0000_0000);
            assert(bits == ((msg.len() * 8) % 0x1_0000_0000_0000_0000) as u64);
            assert(u64_le_bytes(bits) == length_bytes(msg.len()));
            assert((bits & 0xff) < 256 && ((bits >> 8u64) & 0xff) < 256 && ((bits >> 16u64)
                & 0xff) < 256 && ((bits >> 24u64) & 0xff) < 256 && ((bits >> 32u64) & 0xff) < 256
                && ((bits >> 40u64) & 0xff) < 256 && ((bits >> 48u64) & 0xff) < 256 && ((bits
                >> 56u64) & 0xff) < 256) by (bit_vector);
        }
        this.input[56] = (bits & 0xff) as u8;
        this.input[57] = ((bits >> 8u64) & 0xff) as u8;
        this.input[58] = ((bits >> 16u64) & 0xff) as u8;
        this.input[59] = ((bits >> 24u64) & 0xff) as u8;
        this.input[60] = ((bits >> 32u64) & 0xff) as u8;
        this.input[61] = ((bits >> 40u64) & 0xff) as u8;
        this.input[62] = ((bits >> 48u64) & 0xff) as u8;
        this.input[63] = ((bits >> 56u64) & 0xff) as u8;
        // Compress the final block.
        let ghost whole = padded(msg);
        proof {
            assert(whole == fed1 + length_bytes(msg.len()));
            assert(whole.len() == fed1.len() + 8);
            lemma_add_mod_noop(fed1.len() as int, 8, 64);
            assert(whole.len() % 64 == 0);
            lemma_fundamental_div_mod(whole.len() as int, 64);
            lemma_fundamental_div_mod(fed1.len() as int, 64);
            let n = (whole.len() / 64) as int;
            assert(64 * n == whole.len());
            assert(fed1.len() / 64 == n - 1);
            assert(whole.subrange(64 * (n - 1), 64 * n) =~= this.input@);
            lemma_state_after_prefix(whole, fed1, n - 1);
        }
        this.step();
        let ghost accf = this.acc();
        proof {
            let n = (whole.len() / 64) as int;
            assert(accf == state_after(whole, n));
            assert(digest_bytes(accf) == md5_digest(msg));
        }
        // Serialize the accumulator, word by word, little-endian.
        let w0 = this.buffer[0];
        let w1 = this.buffer[1];
        let w2 = this.buffer[2];
        let w3 = this.buffer[3];
        proof {
            assert(forall|w: u32|
                (w & 0xff) < 256 && ((w >> 8u32) & 0xff) < 256 && ((w >> 16u32) & 0xff) < 256
                    && ((w >> 24u32) & 0xff) < 256) by (bit_vector);
        }
        this.digest[0] = (w0 & 0xff) as u8;
        this.digest[1] = ((w0 >> 8u32) & 0xff) as u8;
        this.digest[2] = ((w0 >> 16u32) & 0xff) as u8;
        this.digest[3] = ((w0 >> 24u32) & 0xff) as u8;
        this.digest[4] = (w1 & 0xff) as u8;
        this.digest[5] = ((w1 >> 8u32) & 0xff) as u8;
        this.digest[6] = ((w1 >> 16u32) & 0xff) as u8;
        this.digest[7] = ((w1 >> 24u32) & 0xff) as u8;
        this.digest[8] = (w2 & 0xff) as u8;
        this.digest[9] = ((w2 >> 8u32) & 0xff) as u8;
        this.digest[10] = ((w2 >> 16u32) & 0xff) as u8;
        this.digest[11] = ((w2 >> 24u32) & 0xff) as u8;
        this.digest[12] = (w3 & 0xff) as u8;
        this.digest[13] = ((w3 >> 8u32) & 0xff) as u8;
        this.digest[14] = ((w3 >> 16u32) & 0xff) as u8;
        this.digest[15] = ((w3 >> 24u32) & 0xff) as u8;
        proof {
            assert(this.digest@ =~= digest_bytes(accf));
        }
        this.digest
    }
}

/// Determinism and chunking invariance.  `read` records exactly the
/// bytes fed, whatever the chunk boundaries, and the digest that
/// `finish` returns is `md5_digest` of that record alone.  So two
/// contexts that received the same byte stream — however differently it
/// was cut into `read` calls — are finished with the same digest.
pub proof fn lemma_digest_of_stream(c1: Context, c2: Context)
    requires
        c1.bytes_fed() == c2.bytes_fed(),
    ensures
        md5_digest(c1.bytes_fed()) == md5_digest(c2.bytes_fed()),
{
}

} // verus!
