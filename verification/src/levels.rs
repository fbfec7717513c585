//! Normalisation of colour samples: for each channel, the binary32 value of
//! `(level / 255 - mean) / deviation` for every 8-bit level, as bit patterns.
//!
//! The means are 0.485, 0.456 and 0.406 and the deviations 0.229, 0.224 and
//! 0.225 for red, green and blue; the division by 255, the subtraction and the
//! division by the deviation are each rounded to binary32.

use crate::score::{doubled, Score};
use vstd::prelude::*;

verus! {

/// The normalised red channel: entry `v` encodes `(v / 255 - mean) / deviation`
/// for this channel, each step rounded to binary32.
pub const RED_LEVELS: [u32; 256] = [
    0xc0078bbd, 0xc006732b, 0xc0055a98, 0xc0044206, 0xc0032973, 0xc00210e1, 0xc000f84f, 0xbfffbf78,
    0xbffd8e54, 0xbffb5d2f, 0xbff92c0a, 0xbff6fae5, 0xbff4c9c0, 0xbff2989b, 0xbff06776, 0xbfee3652,
    0xbfec052d, 0xbfe9d408, 0xbfe7a2e3, 0xbfe571be, 0xbfe34099, 0xbfe10f75, 0xbfdede50, 0xbfdcad2b,
    0xbfda7c06, 0xbfd84ae1, 0xbfd619bc, 0xbfd3e898, 0xbfd1b773, 0xbfcf864e, 0xbfcd5529, 0xbfcb2404,
    0xbfc8f2df, 0xbfc6c1bb, 0xbfc49096, 0xbfc25f71, 0xbfc02e4c, 0xbfbdfd27, 0xbfbbcc02, 0xbfb99ade,
    0xbfb769b9, 0xbfb53894, 0xbfb3076f, 0xbfb0d64a, 0xbfaea525, 0xbfac7401, 0xbfaa42dc, 0xbfa811b7,
    0xbfa5e092, 0xbfa3af6d, 0xbfa17e48, 0xbf9f4d24, 0xbf9d1bff, 0xbf9aeada, 0xbf98b9b5, 0xbf968890,
    0xbf94576b, 0xbf922646, 0xbf8ff522, 0xbf8dc3fd, 0xbf8b92d7, 0xbf8961b3, 0xbf87308e, 0xbf84ff69,
    0xbf82ce44, 0xbf809d1f, 0xbf7cd7f4, 0xbf7875aa, 0xbf741360, 0xbf6fb117, 0xbf6b4ecd, 0xbf66ec83,
    0xbf628a3a, 0xbf5e27f0, 0xbf59c5a6, 0xbf55635d, 0xbf510113, 0xbf4c9ec9, 0xbf483c80, 0xbf43da36,
    0xbf3f77ec, 0xbf3b15a3, 0xbf36b359, 0xbf32510f, 0xbf2deec6, 0xbf298c7c, 0xbf252a32, 0xbf20c7e9,
    0xbf1c659f, 0xbf180355, 0xbf13a10c, 0xbf0f3ec2, 0xbf0adc78, 0xbf067a2f, 0xbf0217e5, 0xbefb6b36,
    0xbef2a6a3, 0xbee9e210, 0xbee11d7c, 0xbed858e9, 0xbecf9456, 0xbec6cfc2, 0xbebe0b2f, 0xbeb5469c,
    0xbeac8208, 0xbea3bd75, 0xbe9af8e2, 0xbe92344e, 0xbe896fbb, 0xbe80ab28, 0xbe6fcd28, 0xbe5e4402,
    0xbe4cbadb, 0xbe3b31b4, 0xbe29a88e, 0xbe181f67, 0xbe069640, 0xbdea1a33, 0xbdc707e5, 0xbda3f598,
    0xbd80e34b, 0xbd3ba1fb, 0xbceafac0, 0xbc3d6314, 0x3bb65eae, 0x3cb9e0e1, 0x3d23150b, 0x3d6939a6,
    0x3d97af32, 0x3dbac17f, 0x3dddd3cd, 0x3e00730d, 0x3e11fc34, 0x3e23855a, 0x3e350e81, 0x3e4697a8,
    0x3e5820cf, 0x3e69a9f5, 0x3e7b331c, 0x3e865e21, 0x3e8f22b5, 0x3e97e748, 0x3ea0abdb, 0x3ea9706f,
    0x3eb23502, 0x3ebaf995, 0x3ec3be29, 0x3ecc82bc, 0x3ed5474f, 0x3ede0be3, 0x3ee6d076, 0x3eef9509,
    0x3ef8599d, 0x3f008f18, 0x3f04f162, 0x3f0953ab, 0x3f0db5f5, 0x3f12183f, 0x3f167a88, 0x3f1adcd2,
    0x3f1f3f1c, 0x3f23a165, 0x3f2803af, 0x3f2c65f9, 0x3f30c843, 0x3f352a8c, 0x3f398cd6, 0x3f3def20,
    0x3f425169, 0x3f46b3b3, 0x3f4b15fd, 0x3f4f7846, 0x3f53da90, 0x3f583cda, 0x3f5c9f23, 0x3f61016d,
    0x3f6563b7, 0x3f69c600, 0x3f6e284a, 0x3f728a94, 0x3f76ecdd, 0x3f7b4f27, 0x3f7fb171, 0x3f8209dd,
    0x3f843b02, 0x3f866c27, 0x3f889d4c, 0x3f8ace71, 0x3f8cff95, 0x3f8f30ba, 0x3f9161df, 0x3f939304,
    0x3f95c429, 0x3f97f54e, 0x3f9a2672, 0x3f9c5797, 0x3f9e88bc, 0x3fa0b9e1, 0x3fa2eb06, 0x3fa51c2b,
    0x3fa74d4f, 0x3fa97e74, 0x3fabaf99, 0x3fade0be, 0x3fb011e3, 0x3fb24308, 0x3fb4742c, 0x3fb6a551,
    0x3fb8d676, 0x3fbb079b, 0x3fbd38c0, 0x3fbf69e5, 0x3fc19b09, 0x3fc3cc2e, 0x3fc5fd53, 0x3fc82e78,
    0x3fca5f9d, 0x3fcc90c2, 0x3fcec1e6, 0x3fd0f30b, 0x3fd32430, 0x3fd55555, 0x3fd7867a, 0x3fd9b79f,
    0x3fdbe8c3, 0x3fde19e8, 0x3fe04b0d, 0x3fe27c32, 0x3fe4ad57, 0x3fe6de7c, 0x3fe90fa1, 0x3feb40c5,
    0x3fed71ea, 0x3fefa30f, 0x3ff1d434, 0x3ff40559, 0x3ff6367e, 0x3ff867a2, 0x3ffa98c7, 0x3ffcc9ec,
    0x3ffefb11, 0x4000961b, 0x4001aead, 0x4002c740, 0x4003dfd2, 0x4004f865, 0x400610f7, 0x40072989,
    0x4008421c, 0x40095aae, 0x400a7341, 0x400b8bd3, 0x400ca465, 0x400dbcf8, 0x400ed58a, 0x400fee1d,
];

/// The normalised green channel: entry `v` encodes `(v / 255 - mean) / deviation`
/// for this channel, each step rounded to binary32.
pub const GREEN_LEVELS: [u32; 256] = [
    0xc0024924, 0xc0012a4f, 0xc0000b79, 0xbffdd947, 0xbffb9b9b, 0xbff95df0, 0xbff72044, 0xbff4e299,
    0xbff2a4ee, 0xbff06742, 0xbfee2997, 0xbfebebec, 0xbfe9ae40, 0xbfe77095, 0xbfe532e9, 0xbfe2f53e,
    0xbfe0b793, 0xbfde79e7, 0xbfdc3c3c, 0xbfd9fe91, 0xbfd7c0e5, 0xbfd5833a, 0xbfd3458e, 0xbfd107e3,
    0xbfceca38, 0xbfcc8c8c, 0xbfca4ee1, 0xbfc81136, 0xbfc5d38a, 0xbfc395df, 0xbfc15834, 0xbfbf1a88,
    0xbfbcdcdc, 0xbfba9f30, 0xbfb86185, 0xbfb623da, 0xbfb3e62e, 0xbfb1a883, 0xbfaf6ad7, 0xbfad2d2c,
    0xbfaaef81, 0xbfa8b1d5, 0xbfa6742a, 0xbfa4367f, 0xbfa1f8d3, 0xbf9fbb28, 0xbf9d7d7c, 0xbf9b3fd1,
    0xbf990226, 0xbf96c47a, 0xbf9486cf, 0xbf924924, 0xbf900b78, 0xbf8dcdcd, 0xbf8b9022, 0xbf895277,
    0xbf8714cb, 0xbf84d720, 0xbf829975, 0xbf805bc9, 0xbf7c3c3c, 0xbf77c0e5, 0xbf73458e, 0xbf6eca37,
    0xbf6a4ee0, 0xbf65d389, 0xbf615832, 0xbf5cdcdb, 0xbf586185, 0xbf53e62e, 0xbf4f6ad7, 0xbf4aef80,
    0xbf46742a, 0xbf41f8d3, 0xbf3d7d7c, 0xbf390225, 0xbf3486cf, 0xbf300b78, 0xbf2b9021, 0xbf2714ca,
    0xbf229974, 0xbf1e1e1d, 0xbf19a2c6, 0xbf152770, 0xbf10ac19, 0xbf0c30c2, 0xbf07b56b, 0xbf033a15,
    0xbefd7d7c, 0xbef486ce, 0xbeeb9021, 0xbee29973, 0xbed9a2c6, 0xbed0ac18, 0xbec7b56b, 0xbebebebd,
    0xbeb5c810, 0xbeacd162, 0xbea3dab5, 0xbe9ae407, 0xbe91ed5a, 0xbe88f6ac, 0xbe7ffffe, 0xbe6e12a3,
    0xbe5c2548, 0xbe4a37ed, 0xbe384a92, 0xbe265d37, 0xbe146fdc, 0xbe028281, 0xbde12a4c, 0xbdbd4f96,
    0xbd9974e0, 0xbd6b3455, 0xbd237ee9, 0xbcb792fa, 0xbba0a089, 0x3c4e856b, 0x3cf6ad8d, 0x3d430c32,
    0x3d8560cf, 0x3da93b85, 0x3dcd163b, 0x3df0f0f1, 0x3e0a65d3, 0x3e1c532e, 0x3e2e4089, 0x3e402de4,
    0x3e521b48, 0x3e6408a3, 0x3e75f5fe, 0x3e83f1ad, 0x3e8ce85a, 0x3e95df08, 0x3e9ed5b5, 0x3ea7cc62,
    0x3eb0c310, 0x3eb9b9bd, 0x3ec2b06b, 0x3ecba718, 0x3ed49dc6, 0x3edd9473, 0x3ee68b21, 0x3eef81ce,
    0x3ef8787c, 0x3f00b795, 0x3f0532eb, 0x3f09ae42, 0x3f0e2999, 0x3f12a4f0, 0x3f172046, 0x3f1b9b9d,
    0x3f2016f4, 0x3f24924b, 0x3f290da1, 0x3f2d88f8, 0x3f32044f, 0x3f367fa6, 0x3f3afafc, 0x3f3f7653,
    0x3f43f1aa, 0x3f486d01, 0x3f4ce857, 0x3f5163ae, 0x3f55df05, 0x3f5a5a5b, 0x3f5ed5b2, 0x3f635109,
    0x3f67cc60, 0x3f6c47b6, 0x3f70c30d, 0x3f753e64, 0x3f79b9bb, 0x3f7e3511, 0x3f815834, 0x3f8395df,
    0x3f85d38b, 0x3f881136, 0x3f8a4ee2, 0x3f8c8c8d, 0x3f8eca38, 0x3f9107e4, 0x3f93458f, 0x3f95833a,
    0x3f97c0e6, 0x3f99fe91, 0x3f9c3c3d, 0x3f9e79e8, 0x3fa0b793, 0x3fa2f53f, 0x3fa532ea, 0x3fa77095,
    0x3fa9ae41, 0x3fabebec, 0x3fae2997, 0x3fb06743, 0x3fb2a4ee, 0x3fb4e29a, 0x3fb72045, 0x3fb95df0,
    0x3fbb9b9c, 0x3fbdd947, 0x3fc016f2, 0x3fc2549e, 0x3fc49249, 0x3fc6cff5, 0x3fc90da0, 0x3fcb4b4b,
    0x3fcd88f7, 0x3fcfc6a2, 0x3fd2044d, 0x3fd441f9, 0x3fd67fa4, 0x3fd8bd50, 0x3fdafafb, 0x3fdd38a6,
    0x3fdf7652, 0x3fe1b3fd, 0x3fe3f1a8, 0x3fe62f54, 0x3fe86cff, 0x3feaaaaa, 0x3fece856, 0x3fef2601,
    0x3ff163ad, 0x3ff3a158, 0x3ff5df03, 0x3ff81caf, 0x3ffa5a5a, 0x3ffc9805, 0x3ffed5b1, 0x400089ae,
    0x4001a884, 0x4002c759, 0x4003e62f, 0x40050505, 0x400623db, 0x400742b0, 0x40086186, 0x4009805c,
    0x400a9f31, 0x400bbe07, 0x400cdcdd, 0x400dfbb2, 0x400f1a87, 0x4010395e, 0x40115833, 0x4012770a,
    0x401395de, 0x4014b4b5, 0x4015d38a, 0x4016f260, 0x40181135, 0x4019300c, 0x401a4ee0, 0x401b6db7,
];

/// The normalised blue channel: entry `v` encodes `(v / 255 - mean) / deviation`
/// for this channel, each step rounded to binary32.
pub const BLUE_LEVELS: [u32; 256] = [
    0xbfe6f809, 0xbfe4bcea, 0xbfe281cc, 0xbfe046ad, 0xbfde0b8e, 0xbfdbd070, 0xbfd99551, 0xbfd75a32,
    0xbfd51f14, 0xbfd2e3f5, 0xbfd0a8d6, 0xbfce6db8, 0xbfcc3299, 0xbfc9f77a, 0xbfc7bc5c, 0xbfc5813d,
    0xbfc3461e, 0xbfc10b00, 0xbfbecfe1, 0xbfbc94c2, 0xbfba59a4, 0xbfb81e85, 0xbfb5e366, 0xbfb3a848,
    0xbfb16d29, 0xbfaf320a, 0xbfacf6ec, 0xbfaabbcd, 0xbfa880ae, 0xbfa64590, 0xbfa40a71, 0xbfa1cf52,
    0xbf9f9432, 0xbf9d5914, 0xbf9b1df5, 0xbf98e2d6, 0xbf96a7b8, 0xbf946c99, 0xbf92317a, 0xbf8ff65c,
    0xbf8dbb3e, 0xbf8b801f, 0xbf894500, 0xbf8709e2, 0xbf84cec3, 0xbf8293a4, 0xbf805886, 0xbf7c3ace,
    0xbf77c491, 0xbf734e53, 0xbf6ed816, 0xbf6a61d9, 0xbf65eb9b, 0xbf61755e, 0xbf5cff21, 0xbf5888e3,
    0xbf5412a6, 0xbf4f9c69, 0xbf4b262b, 0xbf46afee, 0xbf4239b1, 0xbf3dc373, 0xbf394d36, 0xbf34d6f9,
    0xbf3060ba, 0xbf2bea7d, 0xbf27743f, 0xbf22fe02, 0xbf1e87c5, 0xbf1a1187, 0xbf159b4a, 0xbf11250d,
    0xbf0caecf, 0xbf083892, 0xbf03c255, 0xbefe982f, 0xbef5abb4, 0xbeecbf39, 0xbee3d2bf, 0xbedae644,
    0xbed1f9c9, 0xbec90d4f, 0xbec020d4, 0xbeb73459, 0xbeae47df, 0xbea55b64, 0xbe9c6ee9, 0xbe93826e,
    0xbe8a95f4, 0xbe81a979, 0xbe7179fd, 0xbe5fa107, 0xbe4dc812, 0xbe3bef1d, 0xbe2a1627, 0xbe183d32,
    0xbe06643d, 0xbde9168f, 0xbdc564a4, 0xbda1b2b9, 0xbd7c019d, 0xbd349dc7, 0xbcda73e4, 0xbc175872,
    0x3c0636e4, 0x3cd1e31d, 0x3d305564, 0x3d77b939, 0x3d9f8e87, 0x3dc34072, 0x3de6f25d, 0x3e055224,
    0x3e172b19, 0x3e29040f, 0x3e3add04, 0x3e4cb5f9, 0x3e5e8eef, 0x3e7067e4, 0x3e81206d, 0x3e8a0ce7,
    0x3e92f962, 0x3e9be5dd, 0x3ea4d257, 0x3eadbed2, 0x3eb6ab4d, 0x3ebf97c7, 0x3ec88442, 0x3ed170bd,
    0x3eda5d3c, 0x3ee349b7, 0x3eec3631, 0x3ef522ac, 0x3efe0f27, 0x3f037dd1, 0x3f07f40e, 0x3f0c6a4b,
    0x3f10e089, 0x3f1556c6, 0x3f19cd03, 0x3f1e4341, 0x3f22b97e, 0x3f272fbb, 0x3f2ba5f9, 0x3f301c36,
    0x3f349273, 0x3f3908b1, 0x3f3d7eee, 0x3f41f52b, 0x3f466b69, 0x3f4ae1a6, 0x3f4f57e3, 0x3f53ce21,
    0x3f58445e, 0x3f5cba9b, 0x3f6130d9, 0x3f65a716, 0x3f6a1d54, 0x3f6e9391, 0x3f7309ce, 0x3f77800c,
    0x3f7bf649, 0x3f803643, 0x3f827162, 0x3f84ac80, 0x3f86e79f, 0x3f8922be, 0x3f8b5ddc, 0x3f8d98fb,
    0x3f8fd41a, 0x3f920f38, 0x3f944a57, 0x3f968576, 0x3f98c094, 0x3f9afbb3, 0x3f9d36d2, 0x3f9f71f0,
    0x3fa1ad0f, 0x3fa3e82e, 0x3fa6234d, 0x3fa85e6b, 0x3faa998a, 0x3facd4a9, 0x3faf0fc7, 0x3fb14ae6,
    0x3fb38605, 0x3fb5c123, 0x3fb7fc42, 0x3fba3761, 0x3fbc727f, 0x3fbead9e, 0x3fc0e8bd, 0x3fc323db,
    0x3fc55efa, 0x3fc79a19, 0x3fc9d537, 0x3fcc1056, 0x3fce4b75, 0x3fd08693, 0x3fd2c1b2, 0x3fd4fcd1,
    0x3fd737ef, 0x3fd9730e, 0x3fdbae2d, 0x3fdde94b, 0x3fe0246a, 0x3fe25f89, 0x3fe49aa7, 0x3fe6d5c6,
    0x3fe910e5, 0x3feb4c03, 0x3fed8722, 0x3fefc241, 0x3ff1fd5f, 0x3ff4387e, 0x3ff6739d, 0x3ff8aebb,
    0x3ffae9da, 0x3ffd24f9, 0x3fff6017, 0x4000cd9b, 0x4001eb2a, 0x400308ba, 0x40042649, 0x400543d8,
    0x40066168, 0x40077ef7, 0x40089c86, 0x4009ba16, 0x400ad7a5, 0x400bf534, 0x400d12c4, 0x400e3053,
    0x400f4de3, 0x40106b71, 0x40118902, 0x4012a690, 0x4013c420, 0x4014e1ae, 0x4015ff3f, 0x40171ccd,
    0x40183a5e, 0x401957ec, 0x401a757c, 0x401b930a, 0x401cb09b, 0x401dce29, 0x401eebba, 0x40200948,
    0x402126d8, 0x40224467, 0x402361f7, 0x40247f85, 0x40259d16, 0x4026baa4, 0x4027d834, 0x4028f5c3,
];

/// The bit pattern of the normalised value of intensity `level` in colour
/// channel `channel` (0 red, 1 green, 2 blue).
pub open spec fn normalized_bits(channel: int, level: int) -> u32 {
    if channel == 0 {
        RED_LEVELS[level]
    } else if channel == 1 {
        GREEN_LEVELS[level]
    } else {
        BLUE_LEVELS[level]
    }
}

/// The normalised value of one colour sample.
pub fn normalize(channel: usize, level: u8) -> (r: u32)
    requires
        channel < 3,
    ensures
        r == normalized_bits(channel as int, level as int),
{
    if channel == 0 {
        RED_LEVELS[level as usize]
    } else if channel == 1 {
        GREEN_LEVELS[level as usize]
    } else {
        BLUE_LEVELS[level as usize]
    }
}

/// Every normalised value is a finite number.
pub proof fn normalized_is_finite(channel: int, level: int)
    requires
        0 <= channel < 3,
        0 <= level < 256,
    ensures
        (Score { bits: normalized_bits(channel, level) }).is_finite(),
{
}

#[verifier::rlimit(100)]
#[verifier::spinoff_prover]
proof fn lemma_red_step(level: int)
    requires
        0 <= level < 255,
    ensures
        level + 1 < 124 ==> RED_LEVELS[level] > RED_LEVELS[level + 1] >= 0x8000_0000u32,
        level + 1 == 124 ==> RED_LEVELS[level] >= 0x8000_0000u32 > RED_LEVELS[level + 1],
        level >= 124 ==> RED_LEVELS[level] < RED_LEVELS[level + 1] < 0x8000_0000u32,
{
}

#[verifier::rlimit(100)]
#[verifier::spinoff_prover]
proof fn lemma_green_step(level: int)
    requires
        0 <= level < 255,
    ensures
        level + 1 < 117 ==> GREEN_LEVELS[level] > GREEN_LEVELS[level + 1] >= 0x8000_0000u32,
        level + 1 == 117 ==> GREEN_LEVELS[level] >= 0x8000_0000u32 > GREEN_LEVELS[level + 1],
        level >= 117 ==> GREEN_LEVELS[level] < GREEN_LEVELS[level + 1] < 0x8000_0000u32,
{
}

#[verifier::rlimit(100)]
#[verifier::spinoff_prover]
proof fn lemma_blue_step(level: int)
    requires
        0 <= level < 255,
    ensures
        level + 1 < 104 ==> BLUE_LEVELS[level] > BLUE_LEVELS[level + 1] >= 0x8000_0000u32,
        level + 1 == 104 ==> BLUE_LEVELS[level] >= 0x8000_0000u32 > BLUE_LEVELS[level + 1],
        level >= 104 ==> BLUE_LEVELS[level] < BLUE_LEVELS[level + 1] < 0x8000_0000u32,
{
}

/// The order key of a normalised value.
pub open spec fn normalized_key(channel: int, level: int) -> int {
    (Score { bits: normalized_bits(channel, level) }).key()
}

/// Within a channel the next brighter sample has a larger normalised value.
pub proof fn normalized_step(channel: int, level: int)
    requires
        0 <= channel < 3,
        0 <= level < 255,
    ensures
        normalized_key(channel, level) < normalized_key(channel, level + 1),
{
    if channel == 0 {
        lemma_red_step(level);
    } else if channel == 1 {
        lemma_green_step(level);
    } else {
        lemma_blue_step(level);
    }
}

/// Within a channel normalisation keeps the order of the samples.
pub proof fn normalized_is_increasing(channel: int, darker: int, brighter: int)
    requires
        0 <= channel < 3,
        0 <= darker < brighter < 256,
    ensures
        normalized_key(channel, darker) < normalized_key(channel, brighter),
    decreases brighter - darker,
{
    normalized_step(channel, brighter - 1);
    if darker < brighter - 1 {
        normalized_is_increasing(channel, darker, brighter - 1);
    }
}

/// Normalisation loses nothing: within a channel, two samples with the same
/// normalised value are the same sample.
pub proof fn normalized_is_injective(channel: int, a: int, b: int)
    requires
        0 <= channel < 3,
        0 <= a < 256,
        0 <= b < 256,
        normalized_bits(channel, a) == normalized_bits(channel, b),
    ensures
        a == b,
{
    if a < b {
        normalized_is_increasing(channel, a, b);
    } else if b < a {
        normalized_is_increasing(channel, b, a);
    }
}

/// The mean of a channel, in thousandths.
pub open spec fn mean_milli(channel: int) -> int {
    if channel == 0 {
        485
    } else if channel == 1 {
        456
    } else {
        406
    }
}

/// The deviation of a channel, in thousandths.
pub open spec fn deviation_milli(channel: int) -> int {
    if channel == 0 {
        229
    } else if channel == 1 {
        224
    } else {
        225
    }
}

/// How far undoing the normalisation of `level` misses `level`, in units of
/// a thousandth of 2^-40 of a level: for the stored value `n`, this is
/// `(n * deviation + mean) * 255 - level` in exact arithmetic.
pub open spec fn round_trip_error(channel: int, level: int) -> int {
    let stored = Score { bits: normalized_bits(channel, level) };
    (stored.fixed40() * deviation_milli(channel) + mean_milli(channel) * 0x100_0000_0000) * 255
        - level * 1000 * 0x100_0000_0000
}

/// The value in units of 2^-40 of a number with magnitude `mag`, for
/// exponents from 119 to 128: one linear piece for each exponent.
spec fn piecewise_fixed40(mag: int) -> int {
    if mag < 0x3c000000 {
        (mag - 0x3b000000) * 512
    } else if mag < 0x3c800000 {
        (mag - 0x3b800000) * 1024
    } else if mag < 0x3d000000 {
        (mag - 0x3c000000) * 2048
    } else if mag < 0x3d800000 {
        (mag - 0x3c800000) * 4096
    } else if mag < 0x3e000000 {
        (mag - 0x3d000000) * 8192
    } else if mag < 0x3e800000 {
        (mag - 0x3d800000) * 16384
    } else if mag < 0x3f000000 {
        (mag - 0x3e000000) * 32768
    } else if mag < 0x3f800000 {
        (mag - 0x3e800000) * 65536
    } else if mag < 0x40000000 {
        (mag - 0x3f000000) * 131072
    } else {
        (mag - 0x3f800000) * 262144
    }
}

proof fn lemma_piecewise(stored: Score)
    requires
        119 <= stored.exponent() <= 128,
    ensures
        doubled(stored.significand(), (stored.exponent() - 110) as nat) == piecewise_fixed40(
            stored.magnitude(),
        ),
{
    reveal_with_fuel(doubled, 20);
}

/// The round-trip error of a stored bit pattern, with the value taken
/// piece by piece.
spec fn piecewise_error(bits: u32, channel: int, level: int) -> int {
    let mag = bits as int % 0x8000_0000;
    let size = piecewise_fixed40(mag);
    let value = if bits >= 0x8000_0000u32 {
        -size
    } else {
        size
    };
    (value * deviation_milli(channel) + mean_milli(channel) * 0x100_0000_0000) * 255 - level * 1000
        * 0x100_0000_0000
}

#[verifier::rlimit(100)]
#[verifier::spinoff_prover]
proof fn lemma_red_round_trip(level: int)
    requires
        0 <= level < 256,
    ensures
        0x3b80_0000 <= RED_LEVELS[level] as int % 0x8000_0000 < 0x4080_0000,
        -0x100_0000_0000 <= piecewise_error(RED_LEVELS[level], 0, level) <= 0x100_0000_0000,
{
}

#[verifier::rlimit(100)]
#[verifier::spinoff_prover]
proof fn lemma_green_round_trip(level: int)
    requires
        0 <= level < 256,
    ensures
        0x3b80_0000 <= GREEN_LEVELS[level] as int % 0x8000_0000 < 0x4080_0000,
        -0x100_0000_0000 <= piecewise_error(GREEN_LEVELS[level], 1, level) <= 0x100_0000_0000,
{
}

#[verifier::rlimit(100)]
#[verifier::spinoff_prover]
proof fn lemma_blue_round_trip(level: int)
    requires
        0 <= level < 256,
    ensures
        0x3b80_0000 <= BLUE_LEVELS[level] as int % 0x8000_0000 < 0x4080_0000,
        -0x100_0000_0000 <= piecewise_error(BLUE_LEVELS[level], 2, level) <= 0x100_0000_0000,
{
}

/// Undoing the normalisation gives the sample back. Every stored value is a
/// normal number `n`, and `(n * deviation + mean) * 255`, in exact
/// arithmetic, is within a thousandth of the level that was normalised.
pub proof fn normalization_round_trips(channel: int, level: int)
    requires
        0 <= channel < 3,
        0 <= level < 256,
    ensures
        119 <= (Score { bits: normalized_bits(channel, level) }).exponent() <= 128,
        -0x100_0000_0000 <= round_trip_error(channel, level) <= 0x100_0000_0000,
{
    if channel == 0 {
        lemma_red_round_trip(level);
    } else if channel == 1 {
        lemma_green_round_trip(level);
    } else {
        lemma_blue_round_trip(level);
    }
    lemma_piecewise(Score { bits: normalized_bits(channel, level) });
}

} // verus!
