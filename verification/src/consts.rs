//! The fixed tables of the MD5 algorithm: the initial accumulator words,
//! the 64 per-round additive constants, and the 64 per-round rotation
//! amounts.  Each table is given once as a `spec` function (the reference
//! for all contracts) and once as an executable lookup proved against it.
use vstd::prelude::*;

verus! {

/// Length of a digest, in bytes.
pub const DIGEST_LEN: usize = 16;

/// Length of the input block buffer, in bytes (one 512-bit block).
pub const INPUT_BUFFER_LEN: usize = 64;

/// Initial value of the first accumulator word.
pub const INIT_A: u32 = 0x6745_2301;

/// Initial value of the second accumulator word.
pub const INIT_B: u32 = 0xefcd_ab89;

/// Initial value of the third accumulator word.
pub const INIT_C: u32 = 0x98ba_dcfe;

/// Initial value of the fourth accumulator word.
pub const INIT_D: u32 = 0x1032_5476;

/// The additive constant of round `i` (the standard MD5 sine table).
pub open spec fn k_spec(i: int) -> u32
    recommends
        0 <= i < 64,
{
    if i == 0 { 0xd76a_a478 } else if i == 1 { 0xe8c7_b756 } else if i == 2 { 0x2420_70db }
    else if i == 3 { 0xc1bd_ceee } else if i == 4 { 0xf57c_0faf } else if i == 5 { 0x4787_c62a }
    else if i == 6 { 0xa830_4613 } else if i == 7 { 0xfd46_9501 } else if i == 8 { 0x6980_98d8 }
    else if i == 9 { 0x8b44_f7af } else if i == 10 { 0xffff_5bb1 } else if i == 11 { 0x895c_d7be }
    else if i == 12 { 0x6b90_1122 } else if i == 13 { 0xfd98_7193 } else if i == 14 { 0xa679_438e }
    else if i == 15 { 0x49b4_0821 } else if i == 16 { 0xf61e_2562 } else if i == 17 { 0xc040_b340 }
    else if i == 18 { 0x265e_5a51 } else if i == 19 { 0xe9b6_c7aa } else if i == 20 { 0xd62f_105d }
    else if i == 21 { 0x0244_1453 } else if i == 22 { 0xd8a1_e681 } else if i == 23 { 0xe7d3_fbc8 }
    else if i == 24 { 0x21e1_cde6 } else if i == 25 { 0xc337_07d6 } else if i == 26 { 0xf4d5_0d87 }
    else if i == 27 { 0x455a_14ed } else if i == 28 { 0xa9e3_e905 } else if i == 29 { 0xfcef_a3f8 }
    else if i == 30 { 0x676f_02d9 } else if i == 31 { 0x8d2a_4c8a } else if i == 32 { 0xfffa_3942 }
    else if i == 33 { 0x8771_f681 } else if i == 34 { 0x6d9d_6122 } else if i == 35 { 0xfde5_380c }
    else if i == 36 { 0xa4be_ea44 } else if i == 37 { 0x4bde_cfa9 } else if i == 38 { 0xf6bb_4b60 }
    else if i == 39 { 0xbebf_bc70 } else if i == 40 { 0x289b_7ec6 } else if i == 41 { 0xeaa1_27fa }
    else if i == 42 { 0xd4ef_3085 } else if i == 43 { 0x0488_1d05 } else if i == 44 { 0xd9d4_d039 }
    else if i == 45 { 0xe6db_99e5 } else if i == 46 { 0x1fa2_7cf8 } else if i == 47 { 0xc4ac_5665 }
    else if i == 48 { 0xf429_2244 } else if i == 49 { 0x432a_ff97 } else if i == 50 { 0xab94_23a7 }
    else if i == 51 { 0xfc93_a039 } else if i == 52 { 0x655b_59c3 } else if i == 53 { 0x8f0c_cc92 }
    else if i == 54 { 0xffef_f47d } else if i == 55 { 0x8584_5dd1 } else if i == 56 { 0x6fa8_7e4f }
    else if i == 57 { 0xfe2c_e6e0 } else if i == 58 { 0xa301_4314 } else if i == 59 { 0x4e08_11a1 }
    else if i == 60 { 0xf753_7e82 } else if i == 61 { 0xbd3a_f235 } else if i == 62 { 0x2ad7_d2bb }
    else { 0xeb86_d391 }
}

/// Executable lookup of the additive constant of round `i`.
pub fn k_at(i: usize) -> (r: u32)
    requires
        i < 64,
    ensures
        r == k_spec(i as int),
{
    if i == 0 { 0xd76a_a478 } else if i == 1 { 0xe8c7_b756 } else if i == 2 { 0x2420_70db }
    else if i == 3 { 0xc1bd_ceee } else if i == 4 { 0xf57c_0faf } else if i == 5 { 0x4787_c62a }
    else if i == 6 { 0xa830_4613 } else if i == 7 { 0xfd46_9501 } else if i == 8 { 0x6980_98d8 }
    else if i == 9 { 0x8b44_f7af } else if i == 10 { 0xffff_5bb1 } else if i == 11 { 0x895c_d7be }
    else if i == 12 { 0x6b90_1122 } else if i == 13 { 0xfd98_7193 } else if i == 14 { 0xa679_438e }
    else if i == 15 { 0x49b4_0821 } else if i == 16 { 0xf61e_2562 } else if i == 17 { 0xc040_b340 }
    else if i == 18 { 0x265e_5a51 } else if i == 19 { 0xe9b6_c7aa } else if i == 20 { 0xd62f_105d }
    else if i == 21 { 0x0244_1453 } else if i == 22 { 0xd8a1_e681 } else if i == 23 { 0xe7d3_fbc8 }
    else if i == 24 { 0x21e1_cde6 } else if i == 25 { 0xc337_07d6 } else if i == 26 { 0xf4d5_0d87 }
    else if i == 27 { 0x455a_14ed } else if i == 28 { 0xa9e3_e905 } else if i == 29 { 0xfcef_a3f8 }
    else if i == 30 { 0x676f_02d9 } else if i == 31 { 0x8d2a_4c8a } else if i == 32 { 0xfffa_3942 }
    else if i == 33 { 0x8771_f681 } else if i == 34 { 0x6d9d_6122 } else if i == 35 { 0xfde5_380c }
    else if i == 36 { 0xa4be_ea44 } else if i == 37 { 0x4bde_cfa9 } else if i == 38 { 0xf6bb_4b60 }
    else if i == 39 { 0xbebf_bc70 } else if i == 40 { 0x289b_7ec6 } else if i == 41 { 0xeaa1_27fa }
    else if i == 42 { 0xd4ef_3085 } else if i == 43 { 0x0488_1d05 } else if i == 44 { 0xd9d4_d039 }
    else if i == 45 { 0xe6db_99e5 } else if i == 46 { 0x1fa2_7cf8 } else if i == 47 { 0xc4ac_5665 }
    else if i == 48 { 0xf429_2244 } else if i == 49 { 0x432a_ff97 } else if i == 50 { 0xab94_23a7 }
    else if i == 51 { 0xfc93_a039 } else if i == 52 { 0x655b_59c3 } else if i == 53 { 0x8f0c_cc92 }
    else if i == 54 { 0xffef_f47d } else if i == 55 { 0x8584_5dd1 } else if i == 56 { 0x6fa8_7e4f }
    else if i == 57 { 0xfe2c_e6e0 } else if i == 58 { 0xa301_4314 } else if i == 59 { 0x4e08_11a1 }
    else if i == 60 { 0xf753_7e82 } else if i == 61 { 0xbd3a_f235 } else if i == 62 { 0x2ad7_d2bb }
    else { 0xeb86_d391 }
}

/// The left-rotation amount of round `i`.  Each group of sixteen rounds
/// cycles through four fixed amounts.
pub open spec fn s_spec(i: int) -> u32
    recommends
        0 <= i < 64,
{
    if i < 16 {
        if i % 4 == 0 { 7 } else if i % 4 == 1 { 12 } else if i % 4 == 2 { 17 } else { 22 }
    } else if i < 32 {
        if i % 4 == 0 { 5 } else if i % 4 == 1 { 9 } else if i % 4 == 2 { 14 } else { 20 }
    } else if i < 48 {
        if i % 4 == 0 { 4 } else if i % 4 == 1 { 11 } else if i % 4 == 2 { 16 } else { 23 }
    } else {
        if i % 4 == 0 { 6 } else if i % 4 == 1 { 10 } else if i % 4 == 2 { 15 } else { 21 }
    }
}

/// Executable lookup of the rotation amount of round `i`.
pub fn s_at(i: usize) -> (r: u32)
    requires
        i < 64,
    ensures
        r == s_spec(i as int),
{
    if i < 16 {
        if i % 4 == 0 { 7 } else if i % 4 == 1 { 12 } else if i % 4 == 2 { 17 } else { 22 }
    } else if i < 32 {
        if i % 4 == 0 { 5 } else if i % 4 == 1 { 9 } else if i % 4 == 2 { 14 } else { 20 }
    } else if i < 48 {
        if i % 4 == 0 { 4 } else if i % 4 == 1 { 11 } else if i % 4 == 2 { 16 } else { 23 }
    } else {
        if i % 4 == 0 { 6 } else if i % 4 == 1 { 10 } else if i % 4 == 2 { 15 } else { 21 }
    }
}

/// Every rotation amount in the table is a proper rotation: strictly
/// between zero and the word width.
pub proof fn lemma_s_spec_in_range(i: int)
    requires
        0 <= i < 64,
    ensures
        0 < s_spec(i) < 32,
{
}

} // verus!
