//! Lookup tables of the sampled oscillator and the timer oscillators.
use vstd::prelude::*;

verus! {

/// Phase increments (the 16 integral bits of a 24-bit phase) at 48120 Hz for twice the frequency of MIDI notes 116 to 128, one entry per 1/8 semitone: `round(2 f / 48120 * 65536)`.
#[verifier::opaque]
pub const LUT_RES_OSCILLATOR_INCREMENTS: [u16; 97] = [
    18100, 18231, 18363, 18496, 18630, 18765, 18901, 19038, 19176, 19315, 19455, 19596,
    19738, 19881, 20025, 20170, 20316, 20463, 20612, 20761, 20912, 21063, 21216, 21369,
    21524, 21680, 21837, 21996, 22155, 22316, 22477, 22640, 22804, 22969, 23136, 23304,
    23472, 23642, 23814, 23986, 24160, 24335, 24512, 24689, 24868, 25048, 25230, 25413,
    25597, 25782, 25969, 26157, 26347, 26538, 26730, 26924, 27119, 27315, 27513, 27713,
    27914, 28116, 28320, 28525, 28731, 28940, 29149, 29361, 29573, 29788, 30004, 30221,
    30440, 30661, 30883, 31106, 31332, 31559, 31788, 32018, 32250, 32484, 32719, 32956,
    33195, 33436, 33678, 33922, 34168, 34415, 34665, 34916, 35169, 35424, 35680, 35939,
    36199,
];

/// Dual-slope timer periods at 32 MHz with prescaler 8 over MIDI notes 24 to 36, one entry per 1/8 semitone: `round(32e6 / (16 f))`.
#[verifier::opaque]
pub const LUT_RES_TIMER_COUNT: [u16; 97] = [
    61156, 60716, 60279, 59846, 59415, 58988, 58563, 58142, 57724, 57308, 56896, 56487,
    56080, 55677, 55276, 54879, 54484, 54092, 53703, 53316, 52933, 52552, 52174, 51799,
    51426, 51056, 50689, 50324, 49962, 49603, 49246, 48891, 48540, 48190, 47844, 47500,
    47158, 46819, 46482, 46147, 45815, 45486, 45158, 44834, 44511, 44191, 43873, 43557,
    43244, 42933, 42624, 42317, 42013, 41711, 41410, 41113, 40817, 40523, 40232, 39942,
    39655, 39370, 39086, 38805, 38526, 38249, 37974, 37700, 37429, 37160, 36893, 36627,
    36364, 36102, 35842, 35584, 35328, 35074, 34822, 34571, 34323, 34076, 33831, 33587,
    33346, 33106, 32868, 32631, 32396, 32163, 31932, 31702, 31474, 31248, 31023, 30800,
    30578,
];

/// Sample-and-hold rates of the bit-crushed sine: 0 (no crushing), then `round(65535 * 2^(-i / 40))`.
#[verifier::opaque]
pub const LUT_RES_BITCRUSHER_INCREMENTS: [u16; 256] = [
    0, 64409, 63303, 62215, 61146, 60096, 59063, 58049, 57052, 56071, 55108, 54161,
    53231, 52316, 51418, 50534, 49666, 48813, 47974, 47150, 46340, 45544, 44762, 43993,
    43237, 42494, 41764, 41047, 40342, 39648, 38967, 38298, 37640, 36993, 36358, 35733,
    35119, 34516, 33923, 33340, 32768, 32205, 31651, 31108, 30573, 30048, 29532, 29024,
    28526, 28036, 27554, 27081, 26615, 26158, 25709, 25267, 24833, 24407, 23987, 23575,
    23170, 22772, 22381, 21996, 21618, 21247, 20882, 20523, 20171, 19824, 19484, 19149,
    18820, 18497, 18179, 17867, 17560, 17258, 16962, 16670, 16384, 16102, 15826, 15554,
    15287, 15024, 14766, 14512, 14263, 14018, 13777, 13540, 13308, 13079, 12854, 12634,
    12417, 12203, 11994, 11788, 11585, 11386, 11190, 10998, 10809, 10624, 10441, 10262,
    10085, 9912, 9742, 9574, 9410, 9248, 9089, 8933, 8780, 8629, 8481, 8335,
    8192, 8051, 7913, 7777, 7643, 7512, 7383, 7256, 7131, 7009, 6889, 6770,
    6654, 6540, 6427, 6317, 6208, 6102, 5997, 5894, 5793, 5693, 5595, 5499,
    5405, 5312, 5221, 5131, 5043, 4956, 4871, 4787, 4705, 4624, 4545, 4467,
    4390, 4315, 4240, 4168, 4096, 4026, 3956, 3888, 3822, 3756, 3691, 3628,
    3566, 3504, 3444, 3385, 3327, 3270, 3214, 3158, 3104, 3051, 2998, 2947,
    2896, 2847, 2798, 2750, 2702, 2656, 2610, 2565, 2521, 2478, 2435, 2394,
    2352, 2312, 2272, 2233, 2195, 2157, 2120, 2084, 2048, 2013, 1978, 1944,
    1911, 1878, 1846, 1814, 1783, 1752, 1722, 1693, 1663, 1635, 1607, 1579,
    1552, 1525, 1499, 1473, 1448, 1423, 1399, 1375, 1351, 1328, 1305, 1283,
    1261, 1239, 1218, 1197, 1176, 1156, 1136, 1117, 1097, 1079, 1060, 1042,
    1024, 1006, 989, 972, 955, 939, 923, 907, 891, 876, 861, 846,
    832, 817, 803, 790,
];

/// Band-limited triangles (zones 0 to 7: the odd harmonics below 24 kHz of the top note of each 16-note zone above note 12, as bytes around 127.5) and stepped 4-bit triangles (zones 8 to 15, levels 0 to 15 times 17).
#[verifier::opaque]
pub const WAVEFORM_TABLE: [[u8; 513]; 16] = [
    [
        128, 128, 129, 130, 131, 132, 133, 134, 135, 136, 137, 138,
        139, 140, 141, 142, 143, 144, 145, 146, 147, 148, 149, 150,
        151, 152, 153, 154, 155, 156, 157, 158, 159, 160, 161, 162,
        163, 164, 165, 166, 167, 168, 169, 170, 171, 172, 173, 174,
        175, 176, 177, 178, 179, 180, 181, 182, 183, 184, 185, 186,
        187, 188, 189, 190, 191, 192, 193, 194, 195, 196, 197, 198,
        199, 200, 201, 202, 203, 204, 205, 206, 207, 208, 209, 210,
        211, 212, 213, 214, 215, 216, 217, 218, 219, 220, 221, 222,
        223, 224, 225, 226, 227, 228, 229, 230, 231, 232, 233, 234,
        235, 236, 237, 238, 239, 240, 241, 242, 243, 244, 245, 246,
        247, 248, 249, 250, 251, 252, 253, 254, 255, 254, 253, 252,
        251, 250, 249, 248, 247, 246, 245, 244, 243, 242, 241, 240,
        239, 238, 237, 236, 235, 234, 233, 232, 231, 230, 229, 228,
        227, 226, 225, 224, 223, 222, 221, 220, 219, 218, 217, 216,
        215, 214, 213, 212, 211, 210, 209, 208, 207, 206, 205, 204,
        203, 202, 201, 200, 199, 198, 197, 196, 195, 194, 193, 192,
        191, 190, 189, 188, 187, 186, 185, 184, 183, 182, 181, 180,
        179, 178, 177, 176, 175, 174, 173, 172, 171, 170, 169, 168,
        167, 166, 165, 164, 163, 162, 161, 160, 159, 158, 157, 156,
        155, 154, 153, 152, 151, 150, 149, 148, 147, 146, 145, 144,
        143, 142, 141, 140, 139, 138, 137, 136, 135, 134, 133, 132,
        131, 130, 129, 128, 128, 127, 126, 125, 124, 123, 122, 121,
        120, 119, 118, 117, 116, 115, 114, 113, 112, 111, 110, 109,
        108, 107, 106, 105, 104, 103, 102, 101, 100, 99, 98, 97,
        96, 95, 94, 93, 92, 91, 90, 89, 88, 87, 86, 85,
        84, 83, 82, 81, 80, 79, 78, 77, 76, 75, 74, 73,
        72, 71, 70, 69, 68, 67, 66, 65, 64, 63, 62, 61,
        60, 59, 58, 57, 56, 55, 54, 53, 52, 51, 50, 49,
        48, 47, 46, 45, 44, 43, 42, 41, 40, 39, 38, 37,
        36, 35, 34, 33, 32, 31, 30, 29, 28, 27, 26, 25,
        24, 23, 22, 21, 20, 19, 18, 17, 16, 15, 14, 13,
        12, 11, 10, 9, 8, 7, 6, 5, 4, 3, 2, 1,
        0, 1, 2, 3, 4, 5, 6, 7, 8, 9, 10, 11,
        12, 13, 14, 15, 16, 17, 18, 19, 20, 21, 22, 23,
        24, 25, 26, 27, 28, 29, 30, 31, 32, 33, 34, 35,
        36, 37, 38, 39, 40, 41, 42, 43, 44, 45, 46, 47,
        48, 49, 50, 51, 52, 53, 54, 55, 56, 57, 58, 59,
        60, 61, 62, 63, 64, 65, 66, 67, 68, 69, 70, 71,
        72, 73, 74, 75, 76, 77, 78, 79, 80, 81, 82, 83,
        84, 85, 86, 87, 88, 89, 90, 91, 92, 93, 94, 95,
        96, 97, 98, 99, 100, 101, 102, 103, 104, 105, 106, 107,
        108, 109, 110, 111, 112, 113, 114, 115, 116, 117, 118, 119,
        120, 121, 122, 123, 124, 125, 126, 127, 128,
    ],
    [
        128, 128, 129, 130, 131, 132, 133, 134, 135, 136, 137, 138,
        139, 140, 141, 142, 143, 144, 145, 146, 147, 148, 149, 150,
        151, 152, 153, 154, 155, 156, 157, 158, 159, 160, 161, 162,
        163, 164, 165, 166, 167, 168, 169, 170, 171, 172, 173, 174,
        175, 176, 177, 178, 179, 180, 181, 182, 183, 184, 185, 186,
        187, 188, 189, 190, 191, 192, 193, 194, 195, 196, 197, 198,
        199, 200, 201, 202, 203, 204, 205, 206, 207, 208, 209, 210,
        211, 212, 213, 214, 215, 216, 217, 218, 219, 220, 221, 222,
        223, 224, 225, 226, 227, 228, 229, 230, 231, 232, 233, 234,
        235, 236, 237, 238, 239, 240, 241, 242, 243, 244, 245, 246,
        247, 248, 249, 250, 251, 252, 253, 254, 255, 254, 253, 252,
        251, 250, 249, 248, 247, 246, 245, 244, 243, 242, 241, 240,
        239, 238, 237, 236, 235, 234, 233, 232, 231, 230, 229, 228,
        227, 226, 225, 224, 223, 222, 221, 220, 219, 218, 217, 216,
        215, 214, 213, 212, 211, 210, 209, 208, 207, 206, 205, 204,
        203, 202, 201, 200, 199, 198, 197, 196, 195, 194, 193, 192,
        191, 190, 189, 188, 187, 186, 185, 184, 183, 182, 181, 180,
        179, 178, 177, 176, 175, 174, 173, 172, 171, 170, 169, 168,
        167, 166, 165, 164, 163, 162, 161, 160, 159, 158, 157, 156,
        155, 154, 153, 152, 151, 150, 149, 148, 147, 146, 145, 144,
        143, 142, 141, 140, 139, 138, 137, 136, 135, 134, 133, 132,
        131, 130, 129, 128, 128, 127, 126, 125, 124, 123, 122, 121,
        120, 119, 118, 117, 116, 115, 114, 113, 112, 111, 110, 109,
        108, 107, 106, 105, 104, 103, 102, 101, 100, 99, 98, 97,
        96, 95, 94, 93, 92, 91, 90, 89, 88, 87, 86, 85,
        84, 83, 82, 81, 80, 79, 78, 77, 76, 75, 74, 73,
        72, 71, 70, 69, 68, 67, 66, 65, 64, 63, 62, 61,
        60, 59, 58, 57, 56, 55, 54, 53, 52, 51, 50, 49,
        48, 47, 46, 45, 44, 43, 42, 41, 40, 39, 38, 37,
        36, 35, 34, 33, 32, 31, 30, 29, 28, 27, 26, 25,
        24, 23, 22, 21, 20, 19, 18, 17, 16, 15, 14, 13,
        12, 11, 10, 9, 8, 7, 6, 5, 4, 3, 2, 1,
        0, 1, 2, 3, 4, 5, 6, 7, 8, 9, 10, 11,
        12, 13, 14, 15, 16, 17, 18, 19, 20, 21, 22, 23,
        24, 25, 26, 27, 28, 29, 30, 31, 32, 33, 34, 35,
        36, 37, 38, 39, 40, 41, 42, 43, 44, 45, 46, 47,
        48, 49, 50, 51, 52, 53, 54, 55, 56, 57, 58, 59,
        60, 61, 62, 63, 64, 65, 66, 67, 68, 69, 70, 71,
        72, 73, 74, 75, 76, 77, 78, 79, 80, 81, 82, 83,
        84, 85, 86, 87, 88, 89, 90, 91, 92, 93, 94, 95,
        96, 97, 98, 99, 100, 101, 102, 103, 104, 105, 106, 107,
        108, 109, 110, 111, 112, 113, 114, 115, 116, 117, 118, 119,
        120, 121, 122, 123, 124, 125, 126, 127, 128,
    ],
    [
        128, 128, 129, 131, 132, 133, 134, 134, 136, 137, 138, 139,
        140, 141, 142, 143, 144, 145, 146, 147, 148, 149, 150, 151,
        152, 153, 154, 155, 156, 157, 158, 159, 160, 161, 162, 163,
        164, 165, 166, 167, 168, 169, 170, 171, 172, 173, 174, 175,
        176, 177, 178, 179, 180, 181, 182, 183, 184, 185, 186, 187,
        188, 189, 190, 191, 192, 193, 194, 195, 196, 197, 198, 199,
        200, 201, 202, 203, 204, 205, 206, 207, 208, 209, 210, 211,
        212, 213, 214, 215, 216, 217, 218, 219, 220, 221, 222, 223,
        224, 225, 226, 227, 228, 229, 230, 231, 232, 233, 234, 235,
        236, 237, 238, 239, 240, 241, 242, 243, 244, 245, 246, 247,
        248, 249, 250, 250, 251, 253, 254, 255, 255, 255, 254, 253,
        251, 250, 250, 249, 248, 247, 246, 245, 244, 243, 242, 241,
        240, 239, 238, 237, 236, 235, 234, 233, 232, 231, 230, 229,
        228, 227, 226, 225, 224, 223, 222, 221, 220, 219, 218, 217,
        216, 215, 214, 213, 212, 211, 210, 209, 208, 207, 206, 205,
        204, 203, 202, 201, 200, 199, 198, 197, 196, 195, 194, 193,
        192, 191, 190, 189, 188, 187, 186, 185, 184, 183, 182, 181,
        180, 179, 178, 177, 176, 175, 174, 173, 172, 171, 170, 169,
        168, 167, 166, 165, 164, 163, 162, 161, 160, 159, 158, 157,
        156, 155, 154, 153, 152, 151, 150, 149, 148, 147, 146, 145,
        144, 143, 142, 141, 140, 139, 138, 137, 136, 134, 134, 133,
        132, 131, 129, 128, 128, 127, 126, 124, 123, 122, 121, 121,
        119, 118, 117, 116, 115, 114, 113, 112, 111, 110, 109, 108,
        107, 106, 105, 104, 103, 102, 101, 100, 99, 98, 97, 96,
        95, 94, 93, 92, 91, 90, 89, 88, 87, 86, 85, 84,
        83, 82, 81, 80, 79, 78, 77, 76, 75, 74, 73, 72,
        71, 70, 69, 68, 67, 66, 65, 64, 63, 62, 61, 60,
        59, 58, 57, 56, 55, 54, 53, 52, 51, 50, 49, 48,
        47, 46, 45, 44, 43, 42, 41, 40, 39, 38, 37, 36,
        35, 34, 33, 32, 31, 30, 29, 28, 27, 26, 25, 24,
        23, 22, 21, 20, 19, 18, 17, 16, 15, 14, 13, 12,
        11, 10, 9, 8, 7, 6, 5, 5, 4, 2, 1, 0,
        0, 0, 1, 2, 4, 5, 5, 6, 7, 8, 9, 10,
        11, 12, 13, 14, 15, 16, 17, 18, 19, 20, 21, 22,
        23, 24, 25, 26, 27, 28, 29, 30, 31, 32, 33, 34,
        35, 36, 37, 38, 39, 40, 41, 42, 43, 44, 45, 46,
        47, 48, 49, 50, 51, 52, 53, 54, 55, 56, 57, 58,
        59, 60, 61, 62, 63, 64, 65, 66, 67, 68, 69, 70,
        71, 72, 73, 74, 75, 76, 77, 78, 79, 80, 81, 82,
        83, 84, 85, 86, 87, 88, 89, 90, 91, 92, 93, 94,
        95, 96, 97, 98, 99, 100, 101, 102, 103, 104, 105, 106,
        107, 108, 109, 110, 111, 112, 113, 114, 115, 116, 117, 118,
        119, 121, 121, 122, 123, 124, 126, 127, 128,
    ],
    [
        128, 128, 129, 130, 131, 133, 134, 135, 136, 137, 138, 139,
        140, 141, 142, 143, 144, 145, 146, 147, 148, 149, 150, 151,
        152, 153, 154, 155, 156, 157, 158, 159, 160, 161, 162, 163,
        164, 165, 166, 167, 168, 169, 170, 171, 172, 173, 174, 175,
        176, 177, 178, 179, 180, 181, 182, 183, 184, 185, 186, 187,
        188, 189, 190, 191, 192, 193, 194, 195, 196, 197, 198, 199,
        200, 201, 202, 203, 204, 205, 206, 207, 208, 209, 210, 211,
        212, 213, 214, 215, 216, 217, 218, 219, 220, 221, 222, 223,
        224, 225, 226, 227, 228, 229, 230, 231, 232, 233, 234, 235,
        236, 237, 238, 239, 240, 241, 242, 243, 244, 245, 246, 247,
        248, 250, 251, 252, 253, 254, 254, 255, 255, 255, 254, 254,
        253, 252, 251, 250, 248, 247, 246, 245, 244, 243, 242, 241,
        240, 239, 238, 237, 236, 235, 234, 233, 232, 231, 230, 229,
        228, 227, 226, 225, 224, 223, 222, 221, 220, 219, 218, 217,
        216, 215, 214, 213, 212, 211, 210, 209, 208, 207, 206, 205,
        204, 203, 202, 201, 200, 199, 198, 197, 196, 195, 194, 193,
        192, 191, 190, 189, 188, 187, 186, 185, 184, 183, 182, 181,
        180, 179, 178, 177, 176, 175, 174, 173, 172, 171, 170, 169,
        168, 167, 166, 165, 164, 163, 162, 161, 160, 159, 158, 157,
        156, 155, 154, 153, 152, 151, 150, 149, 148, 147, 146, 145,
        144, 143, 142, 141, 140, 139, 138, 137, 136, 135, 134, 133,
        131, 130, 129, 128, 128, 127, 126, 125, 124, 122, 121, 120,
        119, 118, 117, 116, 115, 114, 113, 112, 111, 110, 109, 108,
        107, 106, 105, 104, 103, 102, 101, 100, 99, 98, 97, 96,
        95, 94, 93, 92, 91, 90, 89, 88, 87, 86, 85, 84,
        83, 82, 81, 80, 79, 78, 77, 76, 75, 74, 73, 72,
        71, 70, 69, 68, 67, 66, 65, 64, 63, 62, 61, 60,
        59, 58, 57, 56, 55, 54, 53, 52, 51, 50, 49, 48,
        47, 46, 45, 44, 43, 42, 41, 40, 39, 38, 37, 36,
        35, 34, 33, 32, 31, 30, 29, 28, 27, 26, 25, 24,
        23, 22, 21, 20, 19, 18, 17, 16, 15, 14, 13, 12,
        11, 10, 9, 8, 7, 5, 4, 3, 2, 1, 1, 0,
        0, 0, 1, 1, 2, 3, 4, 5, 7, 8, 9, 10,
        11, 12, 13, 14, 15, 16, 17, 18, 19, 20, 21, 22,
        23, 24, 25, 26, 27, 28, 29, 30, 31, 32, 33, 34,
        35, 36, 37, 38, 39, 40, 41, 42, 43, 44, 45, 46,
        47, 48, 49, 50, 51, 52, 53, 54, 55, 56, 57, 58,
        59, 60, 61, 62, 63, 64, 65, 66, 67, 68, 69, 70,
        71, 72, 73, 74, 75, 76, 77, 78, 79, 80, 81, 82,
        83, 84, 85, 86, 87, 88, 89, 90, 91, 92, 93, 94,
        95, 96, 97, 98, 99, 100, 101, 102, 103, 104, 105, 106,
        107, 108, 109, 110, 111, 112, 113, 114, 115, 116, 117, 118,
        119, 120, 121, 122, 124, 125, 126, 127, 128,
    ],
    [
        128, 129, 130, 131, 132, 133, 134, 135, 136, 137, 138, 139,
        140, 141, 142, 143, 144, 145, 146, 147, 148, 149, 150, 151,
        152, 153, 154, 155, 156, 157, 158, 159, 160, 161, 162, 163,
        164, 165, 167, 168, 169, 170, 171, 172, 173, 174, 175, 176,
        177, 178, 179, 180, 181, 182, 183, 184, 185, 186, 187, 188,
        189, 190, 191, 192, 193, 194, 195, 196, 197, 198, 199, 200,
        201, 202, 204, 205, 206, 207, 208, 209, 210, 211, 212, 213,
        214, 215, 216, 217, 218, 219, 220, 221, 222, 223, 224, 224,
        225, 226, 227, 228, 229, 230, 231, 233, 234, 235, 236, 237,
        238, 240, 241, 242, 243, 244, 246, 247, 248, 249, 250, 251,
        252, 252, 253, 254, 254, 254, 255, 255, 255, 255, 255, 254,
        254, 254, 253, 252, 252, 251, 250, 249, 248, 247, 246, 244,
        243, 242, 241, 240, 238, 237, 236, 235, 234, 233, 231, 230,
        229, 228, 227, 226, 225, 224, 224, 223, 222, 221, 220, 219,
        218, 217, 216, 215, 214, 213, 212, 211, 210, 209, 208, 207,
        206, 205, 204, 202, 201, 200, 199, 198, 197, 196, 195, 194,
        193, 192, 191, 190, 189, 188, 187, 186, 185, 184, 183, 182,
        181, 180, 179, 178, 177, 176, 175, 174, 173, 172, 171, 170,
        169, 168, 167, 165, 164, 163, 162, 161, 160, 159, 158, 157,
        156, 155, 154, 153, 152, 151, 150, 149, 148, 147, 146, 145,
        144, 143, 142, 141, 140, 139, 138, 137, 136, 135, 134, 133,
        132, 131, 130, 129, 128, 126, 125, 124, 123, 122, 121, 120,
        119, 118, 117, 116, 115, 114, 113, 112, 111, 110, 109, 108,
        107, 106, 105, 104, 103, 102, 101, 100, 99, 98, 97, 96,
        95, 94, 93, 92, 91, 90, 88, 87, 86, 85, 84, 83,
        82, 81, 80, 79, 78, 77, 76, 75, 74, 73, 72, 71,
        70, 69, 68, 67, 66, 65, 64, 63, 62, 61, 60, 59,
        58, 57, 56, 55, 54, 53, 51, 50, 49, 48, 47, 46,
        45, 44, 43, 42, 41, 40, 39, 38, 37, 36, 35, 34,
        33, 32, 31, 31, 30, 29, 28, 27, 26, 25, 24, 22,
        21, 20, 19, 18, 17, 15, 14, 13, 12, 11, 9, 8,
        7, 6, 5, 4, 3, 3, 2, 1, 1, 1, 0, 0,
        0, 0, 0, 1, 1, 1, 2, 3, 3, 4, 5, 6,
        7, 8, 9, 11, 12, 13, 14, 15, 17, 18, 19, 20,
        21, 22, 24, 25, 26, 27, 28, 29, 30, 31, 31, 32,
        33, 34, 35, 36, 37, 38, 39, 40, 41, 42, 43, 44,
        45, 46, 47, 48, 49, 50, 51, 53, 54, 55, 56, 57,
        58, 59, 60, 61, 62, 63, 64, 65, 66, 67, 68, 69,
        70, 71, 72, 73, 74, 75, 76, 77, 78, 79, 80, 81,
        82, 83, 84, 85, 86, 87, 88, 90, 91, 92, 93, 94,
        95, 96, 97, 98, 99, 100, 101, 102, 103, 104, 105, 106,
        107, 108, 109, 110, 111, 112, 113, 114, 115, 116, 117, 118,
        119, 120, 121, 122, 123, 124, 125, 126, 127,
    ],
    [
        128, 129, 130, 131, 132, 133, 135, 136, 137, 138, 139, 140,
        141, 143, 144, 145, 146, 147, 148, 149, 150, 151, 152, 154,
        155, 156, 157, 158, 159, 160, 161, 162, 163, 164, 165, 166,
        166, 167, 168, 169, 170, 171, 172, 173, 174, 175, 176, 177,
        178, 179, 180, 181, 182, 183, 184, 185, 186, 187, 188, 189,
        190, 191, 192, 193, 194, 195, 196, 197, 198, 200, 201, 202,
        203, 204, 205, 207, 208, 209, 210, 212, 213, 214, 215, 217,
        218, 219, 220, 222, 223, 224, 225, 227, 228, 229, 230, 232,
        233, 234, 235, 236, 237, 239, 240, 241, 242, 243, 244, 245,
        246, 246, 247, 248, 249, 250, 250, 251, 251, 252, 253, 253,
        253, 254, 254, 254, 255, 255, 255, 255, 255, 255, 255, 255,
        255, 254, 254, 254, 253, 253, 253, 252, 251, 251, 250, 250,
        249, 248, 247, 246, 246, 245, 244, 243, 242, 241, 240, 239,
        237, 236, 235, 234, 233, 232, 230, 229, 228, 227, 225, 224,
        223, 222, 220, 219, 218, 217, 215, 214, 213, 212, 210, 209,
        208, 207, 205, 204, 203, 202, 201, 200, 198, 197, 196, 195,
        194, 193, 192, 191, 190, 189, 188, 187, 186, 185, 184, 183,
        182, 181, 180, 179, 178, 177, 176, 175, 174, 173, 172, 171,
        170, 169, 168, 167, 166, 166, 165, 164, 163, 162, 161, 160,
        159, 158, 157, 156, 155, 154, 152, 151, 150, 149, 148, 147,
        146, 145, 144, 143, 141, 140, 139, 138, 137, 136, 135, 133,
        132, 131, 130, 129, 128, 126, 125, 124, 123, 122, 120, 119,
        118, 117, 116, 115, 114, 112, 111, 110, 109, 108, 107, 106,
        105, 104, 103, 101, 100, 99, 98, 97, 96, 95, 94, 93,
        92, 91, 90, 89, 89, 88, 87, 86, 85, 84, 83, 82,
        81, 80, 79, 78, 77, 76, 75, 74, 73, 72, 71, 70,
        69, 68, 67, 66, 65, 64, 63, 62, 61, 60, 59, 58,
        57, 55, 54, 53, 52, 51, 50, 48, 47, 46, 45, 43,
        42, 41, 40, 38, 37, 36, 35, 33, 32, 31, 30, 28,
        27, 26, 25, 23, 22, 21, 20, 19, 18, 16, 15, 14,
        13, 12, 11, 10, 9, 9, 8, 7, 6, 5, 5, 4,
        4, 3, 2, 2, 2, 1, 1, 1, 0, 0, 0, 0,
        0, 0, 0, 0, 0, 1, 1, 1, 2, 2, 2, 3,
        4, 4, 5, 5, 6, 7, 8, 9, 9, 10, 11, 12,
        13, 14, 15, 16, 18, 19, 20, 21, 22, 23, 25, 26,
        27, 28, 30, 31, 32, 33, 35, 36, 37, 38, 40, 41,
        42, 43, 45, 46, 47, 48, 50, 51, 52, 53, 54, 55,
        57, 58, 59, 60, 61, 62, 63, 64, 65, 66, 67, 68,
        69, 70, 71, 72, 73, 74, 75, 76, 77, 78, 79, 80,
        81, 82, 83, 84, 85, 86, 87, 88, 89, 89, 90, 91,
        92, 93, 94, 95, 96, 97, 98, 99, 100, 101, 103, 104,
        105, 106, 107, 108, 109, 110, 111, 112, 114, 115, 116, 117,
        118, 119, 120, 122, 123, 124, 125, 126, 127,
    ],
    [
        128, 129, 131, 132, 134, 135, 137, 138, 140, 142, 143, 145,
        146, 148, 149, 151, 152, 154, 155, 157, 158, 160, 162, 163,
        165, 166, 167, 169, 170, 172, 173, 175, 176, 178, 179, 181,
        182, 183, 185, 186, 188, 189, 190, 192, 193, 194, 196, 197,
        198, 200, 201, 202, 203, 205, 206, 207, 208, 210, 211, 212,
        213, 214, 215, 217, 218, 219, 220, 221, 222, 223, 224, 225,
        226, 227, 228, 229, 230, 231, 232, 233, 234, 234, 235, 236,
        237, 238, 238, 239, 240, 241, 241, 242, 243, 243, 244, 245,
        245, 246, 246, 247, 248, 248, 249, 249, 250, 250, 250, 251,
        251, 252, 252, 252, 253, 253, 253, 253, 254, 254, 254, 254,
        254, 255, 255, 255, 255, 255, 255, 255, 255, 255, 255, 255,
        255, 255, 255, 255, 254, 254, 254, 254, 254, 253, 253, 253,
        253, 252, 252, 252, 251, 251, 250, 250, 250, 249, 249, 248,
        248, 247, 246, 246, 245, 245, 244, 243, 243, 242, 241, 241,
        240, 239, 238, 238, 237, 236, 235, 234, 234, 233, 232, 231,
        230, 229, 228, 227, 226, 225, 224, 223, 222, 221, 220, 219,
        218, 217, 215, 214, 213, 212, 211, 210, 208, 207, 206, 205,
        203, 202, 201, 200, 198, 197, 196, 194, 193, 192, 190, 189,
        188, 186, 185, 183, 182, 181, 179, 178, 176, 175, 173, 172,
        170, 169, 167, 166, 165, 163, 162, 160, 158, 157, 155, 154,
        152, 151, 149, 148, 146, 145, 143, 142, 140, 138, 137, 135,
        134, 132, 131, 129, 128, 126, 124, 123, 121, 120, 118, 117,
        115, 113, 112, 110, 109, 107, 106, 104, 103, 101, 100, 98,
        97, 95, 93, 92, 90, 89, 88, 86, 85, 83, 82, 80,
        79, 77, 76, 74, 73, 72, 70, 69, 67, 66, 65, 63,
        62, 61, 59, 58, 57, 55, 54, 53, 52, 50, 49, 48,
        47, 45, 44, 43, 42, 41, 40, 38, 37, 36, 35, 34,
        33, 32, 31, 30, 29, 28, 27, 26, 25, 24, 23, 22,
        21, 21, 20, 19, 18, 17, 17, 16, 15, 14, 14, 13,
        12, 12, 11, 10, 10, 9, 9, 8, 7, 7, 6, 6,
        5, 5, 5, 4, 4, 3, 3, 3, 2, 2, 2, 2,
        1, 1, 1, 1, 1, 0, 0, 0, 0, 0, 0, 0,
        0, 0, 0, 0, 0, 0, 0, 0, 1, 1, 1, 1,
        1, 2, 2, 2, 2, 3, 3, 3, 4, 4, 5, 5,
        5, 6, 6, 7, 7, 8, 9, 9, 10, 10, 11, 12,
        12, 13, 14, 14, 15, 16, 17, 17, 18, 19, 20, 21,
        21, 22, 23, 24, 25, 26, 27, 28, 29, 30, 31, 32,
        33, 34, 35, 36, 37, 38, 40, 41, 42, 43, 44, 45,
        47, 48, 49, 50, 52, 53, 54, 55, 57, 58, 59, 61,
        62, 63, 65, 66, 67, 69, 70, 72, 73, 74, 76, 77,
        79, 80, 82, 83, 85, 86, 88, 89, 90, 92, 93, 95,
        97, 98, 100, 101, 103, 104, 106, 107, 109, 110, 112, 113,
        115, 117, 118, 120, 121, 123, 124, 126, 127,
    ],
    [
        128, 129, 131, 132, 134, 135, 137, 138, 140, 142, 143, 145,
        146, 148, 149, 151, 152, 154, 155, 157, 158, 160, 162, 163,
        165, 166, 167, 169, 170, 172, 173, 175, 176, 178, 179, 181,
        182, 183, 185, 186, 188, 189, 190, 192, 193, 194, 196, 197,
        198, 200, 201, 202, 203, 205, 206, 207, 208, 210, 211, 212,
        213, 214, 215, 217, 218, 219, 220, 221, 222, 223, 224, 225,
        226, 227, 228, 229, 230, 231, 232, 233, 234, 234, 235, 236,
        237, 238, 238, 239, 240, 241, 241, 242, 243, 243, 244, 245,
        245, 246, 246, 247, 248, 248, 249, 249, 250, 250, 250, 251,
        251, 252, 252, 252, 253, 253, 253, 253, 254, 254, 254, 254,
        254, 255, 255, 255, 255, 255, 255, 255, 255, 255, 255, 255,
        255, 255, 255, 255, 254, 254, 254, 254, 254, 253, 253, 253,
        253, 252, 252, 252, 251, 251, 250, 250, 250, 249, 249, 248,
        248, 247, 246, 246, 245, 245, 244, 243, 243, 242, 241, 241,
        240, 239, 238, 238, 237, 236, 235, 234, 234, 233, 232, 231,
        230, 229, 228, 227, 226, 225, 224, 223, 222, 221, 220, 219,
        218, 217, 215, 214, 213, 212, 211, 210, 208, 207, 206, 205,
        203, 202, 201, 200, 198, 197, 196, 194, 193, 192, 190, 189,
        188, 186, 185, 183, 182, 181, 179, 178, 176, 175, 173, 172,
        170, 169, 167, 166, 165, 163, 162, 160, 158, 157, 155, 154,
        152, 151, 149, 148, 146, 145, 143, 142, 140, 138, 137, 135,
        134, 132, 131, 129, 128, 126, 124, 123, 121, 120, 118, 117,
        115, 113, 112, 110, 109, 107, 106, 104, 103, 101, 100, 98,
        97, 95, 93, 92, 90, 89, 88, 86, 85, 83, 82, 80,
        79, 77, 76, 74, 73, 72, 70, 69, 67, 66, 65, 63,
        62, 61, 59, 58, 57, 55, 54, 53, 52, 50, 49, 48,
        47, 45, 44, 43, 42, 41, 40, 38, 37, 36, 35, 34,
        33, 32, 31, 30, 29, 28, 27, 26, 25, 24, 23, 22,
        21, 21, 20, 19, 18, 17, 17, 16, 15, 14, 14, 13,
        12, 12, 11, 10, 10, 9, 9, 8, 7, 7, 6, 6,
        5, 5, 5, 4, 4, 3, 3, 3, 2, 2, 2, 2,
        1, 1, 1, 1, 1, 0, 0, 0, 0, 0, 0, 0,
        0, 0, 0, 0, 0, 0, 0, 0, 1, 1, 1, 1,
        1, 2, 2, 2, 2, 3, 3, 3, 4, 4, 5, 5,
        5, 6, 6, 7, 7, 8, 9, 9, 10, 10, 11, 12,
        12, 13, 14, 14, 15, 16, 17, 17, 18, 19, 20, 21,
        21, 22, 23, 24, 25, 26, 27, 28, 29, 30, 31, 32,
        33, 34, 35, 36, 37, 38, 40, 41, 42, 43, 44, 45,
        47, 48, 49, 50, 52, 53, 54, 55, 57, 58, 59, 61,
        62, 63, 65, 66, 67, 69, 70, 72, 73, 74, 76, 77,
        79, 80, 82, 83, 85, 86, 88, 89, 90, 92, 93, 95,
        97, 98, 100, 101, 103, 104, 106, 107, 109, 110, 112, 113,
        115, 117, 118, 120, 121, 123, 124, 126, 127,
    ],
    [
        0, 0, 0, 0, 0, 0, 0, 0, 0, 0, 0, 0,
        0, 0, 0, 0, 17, 17, 17, 17, 17, 17, 17, 17,
        17, 17, 17, 17, 17, 17, 17, 17, 34, 34, 34, 34,
        34, 34, 34, 34, 34, 34, 34, 34, 34, 34, 34, 34,
        51, 51, 51, 51, 51, 51, 51, 51, 51, 51, 51, 51,
        51, 51, 51, 51, 68, 68, 68, 68, 68, 68, 68, 68,
        68, 68, 68, 68, 68, 68, 68, 68, 85, 85, 85, 85,
        85, 85, 85, 85, 85, 85, 85, 85, 85, 85, 85, 85,
        102, 102, 102, 102, 102, 102, 102, 102, 102, 102, 102, 102,
        102, 102, 102, 102, 119, 119, 119, 119, 119, 119, 119, 119,
        119, 119, 119, 119, 119, 119, 119, 119, 136, 136, 136, 136,
        136, 136, 136, 136, 136, 136, 136, 136, 136, 136, 136, 136,
        153, 153, 153, 153, 153, 153, 153, 153, 153, 153, 153, 153,
        153, 153, 153, 153, 170, 170, 170, 170, 170, 170, 170, 170,
        170, 170, 170, 170, 170, 170, 170, 170, 187, 187, 187, 187,
        187, 187, 187, 187, 187, 187, 187, 187, 187, 187, 187, 187,
        204, 204, 204, 204, 204, 204, 204, 204, 204, 204, 204, 204,
        204, 204, 204, 204, 221, 221, 221, 221, 221, 221, 221, 221,
        221, 221, 221, 221, 221, 221, 221, 221, 238, 238, 238, 238,
        238, 238, 238, 238, 238, 238, 238, 238, 238, 238, 238, 238,
        255, 255, 255, 255, 255, 255, 255, 255, 255, 255, 255, 255,
        255, 255, 255, 255, 255, 255, 255, 255, 255, 255, 255, 255,
        255, 255, 255, 255, 255, 255, 255, 255, 238, 238, 238, 238,
        238, 238, 238, 238, 238, 238, 238, 238, 238, 238, 238, 238,
        221, 221, 221, 221, 221, 221, 221, 221, 221, 221, 221, 221,
        221, 221, 221, 221, 204, 204, 204, 204, 204, 204, 204, 204,
        204, 204, 204, 204, 204, 204, 204, 204, 187, 187, 187, 187,
        187, 187, 187, 187, 187, 187, 187, 187, 187, 187, 187, 187,
        170, 170, 170, 170, 170, 170, 170, 170, 170, 170, 170, 170,
        170, 170, 170, 170, 153, 153, 153, 153, 153, 153, 153, 153,
        153, 153, 153, 153, 153, 153, 153, 153, 136, 136, 136, 136,
        136, 136, 136, 136, 136, 136, 136, 136, 136, 136, 136, 136,
        119, 119, 119, 119, 119, 119, 119, 119, 119, 119, 119, 119,
        119, 119, 119, 119, 102, 102, 102, 102, 102, 102, 102, 102,
        102, 102, 102, 102, 102, 102, 102, 102, 85, 85, 85, 85,
        85, 85, 85, 85, 85, 85, 85, 85, 85, 85, 85, 85,
        68, 68, 68, 68, 68, 68, 68, 68, 68, 68, 68, 68,
        68, 68, 68, 68, 51, 51, 51, 51, 51, 51, 51, 51,
        51, 51, 51, 51, 51, 51, 51, 51, 34, 34, 34, 34,
        34, 34, 34, 34, 34, 34, 34, 34, 34, 34, 34, 34,
        17, 17, 17, 17, 17, 17, 17, 17, 17, 17, 17, 17,
        17, 17, 17, 17, 0, 0, 0, 0, 0, 0, 0, 0,
        0, 0, 0, 0, 0, 0, 0, 0, 0,
    ],
    [
        0, 0, 0, 0, 0, 0, 0, 0, 0, 0, 0, 0,
        0, 0, 0, 0, 17, 17, 17, 17, 17, 17, 17, 17,
        17, 17, 17, 17, 17, 17, 17, 17, 34, 34, 34, 34,
        34, 34, 34, 34, 34, 34, 34, 34, 34, 34, 34, 34,
        51, 51, 51, 51, 51, 51, 51, 51, 51, 51, 51, 51,
        51, 51, 51, 51, 68, 68, 68, 68, 68, 68, 68, 68,
        68, 68, 68, 68, 68, 68, 68, 68, 85, 85, 85, 85,
        85, 85, 85, 85, 85, 85, 85, 85, 85, 85, 85, 85,
        102, 102, 102, 102, 102, 102, 102, 102, 102, 102, 102, 102,
        102, 102, 102, 102, 119, 119, 119, 119, 119, 119, 119, 119,
        119, 119, 119, 119, 119, 119, 119, 119, 136, 136, 136, 136,
        136, 136, 136, 136, 136, 136, 136, 136, 136, 136, 136, 136,
        153, 153, 153, 153, 153, 153, 153, 153, 153, 153, 153, 153,
        153, 153, 153, 153, 170, 170, 170, 170, 170, 170, 170, 170,
        170, 170, 170, 170, 170, 170, 170, 170, 187, 187, 187, 187,
        187, 187, 187, 187, 187, 187, 187, 187, 187, 187, 187, 187,
        204, 204, 204, 204, 204, 204, 204, 204, 204, 204, 204, 204,
        204, 204, 204, 204, 221, 221, 221, 221, 221, 221, 221, 221,
        221, 221, 221, 221, 221, 221, 221, 221, 238, 238, 238, 238,
        238, 238, 238, 238, 238, 238, 238, 238, 238, 238, 238, 238,
        255, 255, 255, 255, 255, 255, 255, 255, 255, 255, 255, 255,
        255, 255, 255, 255, 255, 255, 255, 255, 255, 255, 255, 255,
        255, 255, 255, 255, 255, 255, 255, 255, 238, 238, 238, 238,
        238, 238, 238, 238, 238, 238, 238, 238, 238, 238, 238, 238,
        221, 221, 221, 221, 221, 221, 221, 221, 221, 221, 221, 221,
        221, 221, 221, 221, 204, 204, 204, 204, 204, 204, 204, 204,
        204, 204, 204, 204, 204, 204, 204, 204, 187, 187, 187, 187,
        187, 187, 187, 187, 187, 187, 187, 187, 187, 187, 187, 187,
        170, 170, 170, 170, 170, 170, 170, 170, 170, 170, 170, 170,
        170, 170, 170, 170, 153, 153, 153, 153, 153, 153, 153, 153,
        153, 153, 153, 153, 153, 153, 153, 153, 136, 136, 136, 136,
        136, 136, 136, 136, 136, 136, 136, 136, 136, 136, 136, 136,
        119, 119, 119, 119, 119, 119, 119, 119, 119, 119, 119, 119,
        119, 119, 119, 119, 102, 102, 102, 102, 102, 102, 102, 102,
        102, 102, 102, 102, 102, 102, 102, 102, 85, 85, 85, 85,
        85, 85, 85, 85, 85, 85, 85, 85, 85, 85, 85, 85,
        68, 68, 68, 68, 68, 68, 68, 68, 68, 68, 68, 68,
        68, 68, 68, 68, 51, 51, 51, 51, 51, 51, 51, 51,
        51, 51, 51, 51, 51, 51, 51, 51, 34, 34, 34, 34,
        34, 34, 34, 34, 34, 34, 34, 34, 34, 34, 34, 34,
        17, 17, 17, 17, 17, 17, 17, 17, 17, 17, 17, 17,
        17, 17, 17, 17, 0, 0, 0, 0, 0, 0, 0, 0,
        0, 0, 0, 0, 0, 0, 0, 0, 0,
    ],
    [
        0, 0, 0, 0, 0, 0, 0, 0, 0, 0, 0, 0,
        0, 0, 0, 0, 17, 17, 17, 17, 17, 17, 17, 17,
        17, 17, 17, 17, 17, 17, 17, 17, 34, 34, 34, 34,
        34, 34, 34, 34, 34, 34, 34, 34, 34, 34, 34, 34,
        51, 51, 51, 51, 51, 51, 51, 51, 51, 51, 51, 51,
        51, 51, 51, 51, 68, 68, 68, 68, 68, 68, 68, 68,
        68, 68, 68, 68, 68, 68, 68, 68, 85, 85, 85, 85,
        85, 85, 85, 85, 85, 85, 85, 85, 85, 85, 85, 85,
        102, 102, 102, 102, 102, 102, 102, 102, 102, 102, 102, 102,
        102, 102, 102, 102, 119, 119, 119, 119, 119, 119, 119, 119,
        119, 119, 119, 119, 119, 119, 119, 119, 136, 136, 136, 136,
        136, 136, 136, 136, 136, 136, 136, 136, 136, 136, 136, 136,
        153, 153, 153, 153, 153, 153, 153, 153, 153, 153, 153, 153,
        153, 153, 153, 153, 170, 170, 170, 170, 170, 170, 170, 170,
        170, 170, 170, 170, 170, 170, 170, 170, 187, 187, 187, 187,
        187, 187, 187, 187, 187, 187, 187, 187, 187, 187, 187, 187,
        204, 204, 204, 204, 204, 204, 204, 204, 204, 204, 204, 204,
        204, 204, 204, 204, 221, 221, 221, 221, 221, 221, 221, 221,
        221, 221, 221, 221, 221, 221, 221, 221, 238, 238, 238, 238,
        238, 238, 238, 238, 238, 238, 238, 238, 238, 238, 238, 238,
        255, 255, 255, 255, 255, 255, 255, 255, 255, 255, 255, 255,
        255, 255, 255, 255, 255, 255, 255, 255, 255, 255, 255, 255,
        255, 255, 255, 255, 255, 255, 255, 255, 238, 238, 238, 238,
        238, 238, 238, 238, 238, 238, 238, 238, 238, 238, 238, 238,
        221, 221, 221, 221, 221, 221, 221, 221, 221, 221, 221, 221,
        221, 221, 221, 221, 204, 204, 204, 204, 204, 204, 204, 204,
        204, 204, 204, 204, 204, 204, 204, 204, 187, 187, 187, 187,
        187, 187, 187, 187, 187, 187, 187, 187, 187, 187, 187, 187,
        170, 170, 170, 170, 170, 170, 170, 170, 170, 170, 170, 170,
        170, 170, 170, 170, 153, 153, 153, 153, 153, 153, 153, 153,
        153, 153, 153, 153, 153, 153, 153, 153, 136, 136, 136, 136,
        136, 136, 136, 136, 136, 136, 136, 136, 136, 136, 136, 136,
        119, 119, 119, 119, 119, 119, 119, 119, 119, 119, 119, 119,
        119, 119, 119, 119, 102, 102, 102, 102, 102, 102, 102, 102,
        102, 102, 102, 102, 102, 102, 102, 102, 85, 85, 85, 85,
        85, 85, 85, 85, 85, 85, 85, 85, 85, 85, 85, 85,
        68, 68, 68, 68, 68, 68, 68, 68, 68, 68, 68, 68,
        68, 68, 68, 68, 51, 51, 51, 51, 51, 51, 51, 51,
        51, 51, 51, 51, 51, 51, 51, 51, 34, 34, 34, 34,
        34, 34, 34, 34, 34, 34, 34, 34, 34, 34, 34, 34,
        17, 17, 17, 17, 17, 17, 17, 17, 17, 17, 17, 17,
        17, 17, 17, 17, 0, 0, 0, 0, 0, 0, 0, 0,
        0, 0, 0, 0, 0, 0, 0, 0, 0,
    ],
    [
        0, 0, 0, 0, 0, 0, 0, 0, 0, 0, 0, 0,
        0, 0, 0, 0, 17, 17, 17, 17, 17, 17, 17, 17,
        17, 17, 17, 17, 17, 17, 17, 17, 34, 34, 34, 34,
        34, 34, 34, 34, 34, 34, 34, 34, 34, 34, 34, 34,
        51, 51, 51, 51, 51, 51, 51, 51, 51, 51, 51, 51,
        51, 51, 51, 51, 68, 68, 68, 68, 68, 68, 68, 68,
        68, 68, 68, 68, 68, 68, 68, 68, 85, 85, 85, 85,
        85, 85, 85, 85, 85, 85, 85, 85, 85, 85, 85, 85,
        102, 102, 102, 102, 102, 102, 102, 102, 102, 102, 102, 102,
        102, 102, 102, 102, 119, 119, 119, 119, 119, 119, 119, 119,
        119, 119, 119, 119, 119, 119, 119, 119, 136, 136, 136, 136,
        136, 136, 136, 136, 136, 136, 136, 136, 136, 136, 136, 136,
        153, 153, 153, 153, 153, 153, 153, 153, 153, 153, 153, 153,
        153, 153, 153, 153, 170, 170, 170, 170, 170, 170, 170, 170,
        170, 170, 170, 170, 170, 170, 170, 170, 187, 187, 187, 187,
        187, 187, 187, 187, 187, 187, 187, 187, 187, 187, 187, 187,
        204, 204, 204, 204, 204, 204, 204, 204, 204, 204, 204, 204,
        204, 204, 204, 204, 221, 221, 221, 221, 221, 221, 221, 221,
        221, 221, 221, 221, 221, 221, 221, 221, 238, 238, 238, 238,
        238, 238, 238, 238, 238, 238, 238, 238, 238, 238, 238, 238,
        255, 255, 255, 255, 255, 255, 255, 255, 255, 255, 255, 255,
        255, 255, 255, 255, 255, 255, 255, 255, 255, 255, 255, 255,
        255, 255, 255, 255, 255, 255, 255, 255, 238, 238, 238, 238,
        238, 238, 238, 238, 238, 238, 238, 238, 238, 238, 238, 238,
        221, 221, 221, 221, 221, 221, 221, 221, 221, 221, 221, 221,
        221, 221, 221, 221, 204, 204, 204, 204, 204, 204, 204, 204,
        204, 204, 204, 204, 204, 204, 204, 204, 187, 187, 187, 187,
        187, 187, 187, 187, 187, 187, 187, 187, 187, 187, 187, 187,
        170, 170, 170, 170, 170, 170, 170, 170, 170, 170, 170, 170,
        170, 170, 170, 170, 153, 153, 153, 153, 153, 153, 153, 153,
        153, 153, 153, 153, 153, 153, 153, 153, 136, 136, 136, 136,
        136, 136, 136, 136, 136, 136, 136, 136, 136, 136, 136, 136,
        119, 119, 119, 119, 119, 119, 119, 119, 119, 119, 119, 119,
        119, 119, 119, 119, 102, 102, 102, 102, 102, 102, 102, 102,
        102, 102, 102, 102, 102, 102, 102, 102, 85, 85, 85, 85,
        85, 85, 85, 85, 85, 85, 85, 85, 85, 85, 85, 85,
        68, 68, 68, 68, 68, 68, 68, 68, 68, 68, 68, 68,
        68, 68, 68, 68, 51, 51, 51, 51, 51, 51, 51, 51,
        51, 51, 51, 51, 51, 51, 51, 51, 34, 34, 34, 34,
        34, 34, 34, 34, 34, 34, 34, 34, 34, 34, 34, 34,
        17, 17, 17, 17, 17, 17, 17, 17, 17, 17, 17, 17,
        17, 17, 17, 17, 0, 0, 0, 0, 0, 0, 0, 0,
        0, 0, 0, 0, 0, 0, 0, 0, 0,
    ],
    [
        0, 0, 0, 0, 0, 0, 0, 0, 0, 0, 0, 0,
        0, 0, 0, 0, 17, 17, 17, 17, 17, 17, 17, 17,
        17, 17, 17, 17, 17, 17, 17, 17, 34, 34, 34, 34,
        34, 34, 34, 34, 34, 34, 34, 34, 34, 34, 34, 34,
        51, 51, 51, 51, 51, 51, 51, 51, 51, 51, 51, 51,
        51, 51, 51, 51, 68, 68, 68, 68, 68, 68, 68, 68,
        68, 68, 68, 68, 68, 68, 68, 68, 85, 85, 85, 85,
        85, 85, 85, 85, 85, 85, 85, 85, 85, 85, 85, 85,
        102, 102, 102, 102, 102, 102, 102, 102, 102, 102, 102, 102,
        102, 102, 102, 102, 119, 119, 119, 119, 119, 119, 119, 119,
        119, 119, 119, 119, 119, 119, 119, 119, 136, 136, 136, 136,
        136, 136, 136, 136, 136, 136, 136, 136, 136, 136, 136, 136,
        153, 153, 153, 153, 153, 153, 153, 153, 153, 153, 153, 153,
        153, 153, 153, 153, 170, 170, 170, 170, 170, 170, 170, 170,
        170, 170, 170, 170, 170, 170, 170, 170, 187, 187, 187, 187,
        187, 187, 187, 187, 187, 187, 187, 187, 187, 187, 187, 187,
        204, 204, 204, 204, 204, 204, 204, 204, 204, 204, 204, 204,
        204, 204, 204, 204, 221, 221, 221, 221, 221, 221, 221, 221,
        221, 221, 221, 221, 221, 221, 221, 221, 238, 238, 238, 238,
        238, 238, 238, 238, 238, 238, 238, 238, 238, 238, 238, 238,
        255, 255, 255, 255, 255, 255, 255, 255, 255, 255, 255, 255,
        255, 255, 255, 255, 255, 255, 255, 255, 255, 255, 255, 255,
        255, 255, 255, 255, 255, 255, 255, 255, 238, 238, 238, 238,
        238, 238, 238, 238, 238, 238, 238, 238, 238, 238, 238, 238,
        221, 221, 221, 221, 221, 221, 221, 221, 221, 221, 221, 221,
        221, 221, 221, 221, 204, 204, 204, 204, 204, 204, 204, 204,
        204, 204, 204, 204, 204, 204, 204, 204, 187, 187, 187, 187,
        187, 187, 187, 187, 187, 187, 187, 187, 187, 187, 187, 187,
        170, 170, 170, 170, 170, 170, 170, 170, 170, 170, 170, 170,
        170, 170, 170, 170, 153, 153, 153, 153, 153, 153, 153, 153,
        153, 153, 153, 153, 153, 153, 153, 153, 136, 136, 136, 136,
        136, 136, 136, 136, 136, 136, 136, 136, 136, 136, 136, 136,
        119, 119, 119, 119, 119, 119, 119, 119, 119, 119, 119, 119,
        119, 119, 119, 119, 102, 102, 102, 102, 102, 102, 102, 102,
        102, 102, 102, 102, 102, 102, 102, 102, 85, 85, 85, 85,
        85, 85, 85, 85, 85, 85, 85, 85, 85, 85, 85, 85,
        68, 68, 68, 68, 68, 68, 68, 68, 68, 68, 68, 68,
        68, 68, 68, 68, 51, 51, 51, 51, 51, 51, 51, 51,
        51, 51, 51, 51, 51, 51, 51, 51, 34, 34, 34, 34,
        34, 34, 34, 34, 34, 34, 34, 34, 34, 34, 34, 34,
        17, 17, 17, 17, 17, 17, 17, 17, 17, 17, 17, 17,
        17, 17, 17, 17, 0, 0, 0, 0, 0, 0, 0, 0,
        0, 0, 0, 0, 0, 0, 0, 0, 0,
    ],
    [
        0, 0, 0, 0, 0, 0, 0, 0, 0, 0, 0, 0,
        0, 0, 0, 0, 17, 17, 17, 17, 17, 17, 17, 17,
        17, 17, 17, 17, 17, 17, 17, 17, 34, 34, 34, 34,
        34, 34, 34, 34, 34, 34, 34, 34, 34, 34, 34, 34,
        51, 51, 51, 51, 51, 51, 51, 51, 51, 51, 51, 51,
        51, 51, 51, 51, 68, 68, 68, 68, 68, 68, 68, 68,
        68, 68, 68, 68, 68, 68, 68, 68, 85, 85, 85, 85,
        85, 85, 85, 85, 85, 85, 85, 85, 85, 85, 85, 85,
        102, 102, 102, 102, 102, 102, 102, 102, 102, 102, 102, 102,
        102, 102, 102, 102, 119, 119, 119, 119, 119, 119, 119, 119,
        119, 119, 119, 119, 119, 119, 119, 119, 136, 136, 136, 136,
        136, 136, 136, 136, 136, 136, 136, 136, 136, 136, 136, 136,
        153, 153, 153, 153, 153, 153, 153, 153, 153, 153, 153, 153,
        153, 153, 153, 153, 170, 170, 170, 170, 170, 170, 170, 170,
        170, 170, 170, 170, 170, 170, 170, 170, 187, 187, 187, 187,
        187, 187, 187, 187, 187, 187, 187, 187, 187, 187, 187, 187,
        204, 204, 204, 204, 204, 204, 204, 204, 204, 204, 204, 204,
        204, 204, 204, 204, 221, 221, 221, 221, 221, 221, 221, 221,
        221, 221, 221, 221, 221, 221, 221, 221, 238, 238, 238, 238,
        238, 238, 238, 238, 238, 238, 238, 238, 238, 238, 238, 238,
        255, 255, 255, 255, 255, 255, 255, 255, 255, 255, 255, 255,
        255, 255, 255, 255, 255, 255, 255, 255, 255, 255, 255, 255,
        255, 255, 255, 255, 255, 255, 255, 255, 238, 238, 238, 238,
        238, 238, 238, 238, 238, 238, 238, 238, 238, 238, 238, 238,
        221, 221, 221, 221, 221, 221, 221, 221, 221, 221, 221, 221,
        221, 221, 221, 221, 204, 204, 204, 204, 204, 204, 204, 204,
        204, 204, 204, 204, 204, 204, 204, 204, 187, 187, 187, 187,
        187, 187, 187, 187, 187, 187, 187, 187, 187, 187, 187, 187,
        170, 170, 170, 170, 170, 170, 170, 170, 170, 170, 170, 170,
        170, 170, 170, 170, 153, 153, 153, 153, 153, 153, 153, 153,
        153, 153, 153, 153, 153, 153, 153, 153, 136, 136, 136, 136,
        136, 136, 136, 136, 136, 136, 136, 136, 136, 136, 136, 136,
        119, 119, 119, 119, 119, 119, 119, 119, 119, 119, 119, 119,
        119, 119, 119, 119, 102, 102, 102, 102, 102, 102, 102, 102,
        102, 102, 102, 102, 102, 102, 102, 102, 85, 85, 85, 85,
        85, 85, 85, 85, 85, 85, 85, 85, 85, 85, 85, 85,
        68, 68, 68, 68, 68, 68, 68, 68, 68, 68, 68, 68,
        68, 68, 68, 68, 51, 51, 51, 51, 51, 51, 51, 51,
        51, 51, 51, 51, 51, 51, 51, 51, 34, 34, 34, 34,
        34, 34, 34, 34, 34, 34, 34, 34, 34, 34, 34, 34,
        17, 17, 17, 17, 17, 17, 17, 17, 17, 17, 17, 17,
        17, 17, 17, 17, 0, 0, 0, 0, 0, 0, 0, 0,
        0, 0, 0, 0, 0, 0, 0, 0, 0,
    ],
    [
        0, 0, 0, 0, 0, 0, 0, 0, 0, 0, 0, 0,
        0, 0, 0, 0, 17, 17, 17, 17, 17, 17, 17, 17,
        17, 17, 17, 17, 17, 17, 17, 17, 34, 34, 34, 34,
        34, 34, 34, 34, 34, 34, 34, 34, 34, 34, 34, 34,
        51, 51, 51, 51, 51, 51, 51, 51, 51, 51, 51, 51,
        51, 51, 51, 51, 68, 68, 68, 68, 68, 68, 68, 68,
        68, 68, 68, 68, 68, 68, 68, 68, 85, 85, 85, 85,
        85, 85, 85, 85, 85, 85, 85, 85, 85, 85, 85, 85,
        102, 102, 102, 102, 102, 102, 102, 102, 102, 102, 102, 102,
        102, 102, 102, 102, 119, 119, 119, 119, 119, 119, 119, 119,
        119, 119, 119, 119, 119, 119, 119, 119, 136, 136, 136, 136,
        136, 136, 136, 136, 136, 136, 136, 136, 136, 136, 136, 136,
        153, 153, 153, 153, 153, 153, 153, 153, 153, 153, 153, 153,
        153, 153, 153, 153, 170, 170, 170, 170, 170, 170, 170, 170,
        170, 170, 170, 170, 170, 170, 170, 170, 187, 187, 187, 187,
        187, 187, 187, 187, 187, 187, 187, 187, 187, 187, 187, 187,
        204, 204, 204, 204, 204, 204, 204, 204, 204, 204, 204, 204,
        204, 204, 204, 204, 221, 221, 221, 221, 221, 221, 221, 221,
        221, 221, 221, 221, 221, 221, 221, 221, 238, 238, 238, 238,
        238, 238, 238, 238, 238, 238, 238, 238, 238, 238, 238, 238,
        255, 255, 255, 255, 255, 255, 255, 255, 255, 255, 255, 255,
        255, 255, 255, 255, 255, 255, 255, 255, 255, 255, 255, 255,
        255, 255, 255, 255, 255, 255, 255, 255, 238, 238, 238, 238,
        238, 238, 238, 238, 238, 238, 238, 238, 238, 238, 238, 238,
        221, 221, 221, 221, 221, 221, 221, 221, 221, 221, 221, 221,
        221, 221, 221, 221, 204, 204, 204, 204, 204, 204, 204, 204,
        204, 204, 204, 204, 204, 204, 204, 204, 187, 187, 187, 187,
        187, 187, 187, 187, 187, 187, 187, 187, 187, 187, 187, 187,
        170, 170, 170, 170, 170, 170, 170, 170, 170, 170, 170, 170,
        170, 170, 170, 170, 153, 153, 153, 153, 153, 153, 153, 153,
        153, 153, 153, 153, 153, 153, 153, 153, 136, 136, 136, 136,
        136, 136, 136, 136, 136, 136, 136, 136, 136, 136, 136, 136,
        119, 119, 119, 119, 119, 119, 119, 119, 119, 119, 119, 119,
        119, 119, 119, 119, 102, 102, 102, 102, 102, 102, 102, 102,
        102, 102, 102, 102, 102, 102, 102, 102, 85, 85, 85, 85,
        85, 85, 85, 85, 85, 85, 85, 85, 85, 85, 85, 85,
        68, 68, 68, 68, 68, 68, 68, 68, 68, 68, 68, 68,
        68, 68, 68, 68, 51, 51, 51, 51, 51, 51, 51, 51,
        51, 51, 51, 51, 51, 51, 51, 51, 34, 34, 34, 34,
        34, 34, 34, 34, 34, 34, 34, 34, 34, 34, 34, 34,
        17, 17, 17, 17, 17, 17, 17, 17, 17, 17, 17, 17,
        17, 17, 17, 17, 0, 0, 0, 0, 0, 0, 0, 0,
        0, 0, 0, 0, 0, 0, 0, 0, 0,
    ],
    [
        0, 0, 0, 0, 0, 0, 0, 0, 0, 0, 0, 0,
        0, 0, 0, 0, 17, 17, 17, 17, 17, 17, 17, 17,
        17, 17, 17, 17, 17, 17, 17, 17, 34, 34, 34, 34,
        34, 34, 34, 34, 34, 34, 34, 34, 34, 34, 34, 34,
        51, 51, 51, 51, 51, 51, 51, 51, 51, 51, 51, 51,
        51, 51, 51, 51, 68, 68, 68, 68, 68, 68, 68, 68,
        68, 68, 68, 68, 68, 68, 68, 68, 85, 85, 85, 85,
        85, 85, 85, 85, 85, 85, 85, 85, 85, 85, 85, 85,
        102, 102, 102, 102, 102, 102, 102, 102, 102, 102, 102, 102,
        102, 102, 102, 102, 119, 119, 119, 119, 119, 119, 119, 119,
        119, 119, 119, 119, 119, 119, 119, 119, 136, 136, 136, 136,
        136, 136, 136, 136, 136, 136, 136, 136, 136, 136, 136, 136,
        153, 153, 153, 153, 153, 153, 153, 153, 153, 153, 153, 153,
        153, 153, 153, 153, 170, 170, 170, 170, 170, 170, 170, 170,
        170, 170, 170, 170, 170, 170, 170, 170, 187, 187, 187, 187,
        187, 187, 187, 187, 187, 187, 187, 187, 187, 187, 187, 187,
        204, 204, 204, 204, 204, 204, 204, 204, 204, 204, 204, 204,
        204, 204, 204, 204, 221, 221, 221, 221, 221, 221, 221, 221,
        221, 221, 221, 221, 221, 221, 221, 221, 238, 238, 238, 238,
        238, 238, 238, 238, 238, 238, 238, 238, 238, 238, 238, 238,
        255, 255, 255, 255, 255, 255, 255, 255, 255, 255, 255, 255,
        255, 255, 255, 255, 255, 255, 255, 255, 255, 255, 255, 255,
        255, 255, 255, 255, 255, 255, 255, 255, 238, 238, 238, 238,
        238, 238, 238, 238, 238, 238, 238, 238, 238, 238, 238, 238,
        221, 221, 221, 221, 221, 221, 221, 221, 221, 221, 221, 221,
        221, 221, 221, 221, 204, 204, 204, 204, 204, 204, 204, 204,
        204, 204, 204, 204, 204, 204, 204, 204, 187, 187, 187, 187,
        187, 187, 187, 187, 187, 187, 187, 187, 187, 187, 187, 187,
        170, 170, 170, 170, 170, 170, 170, 170, 170, 170, 170, 170,
        170, 170, 170, 170, 153, 153, 153, 153, 153, 153, 153, 153,
        153, 153, 153, 153, 153, 153, 153, 153, 136, 136, 136, 136,
        136, 136, 136, 136, 136, 136, 136, 136, 136, 136, 136, 136,
        119, 119, 119, 119, 119, 119, 119, 119, 119, 119, 119, 119,
        119, 119, 119, 119, 102, 102, 102, 102, 102, 102, 102, 102,
        102, 102, 102, 102, 102, 102, 102, 102, 85, 85, 85, 85,
        85, 85, 85, 85, 85, 85, 85, 85, 85, 85, 85, 85,
        68, 68, 68, 68, 68, 68, 68, 68, 68, 68, 68, 68,
        68, 68, 68, 68, 51, 51, 51, 51, 51, 51, 51, 51,
        51, 51, 51, 51, 51, 51, 51, 51, 34, 34, 34, 34,
        34, 34, 34, 34, 34, 34, 34, 34, 34, 34, 34, 34,
        17, 17, 17, 17, 17, 17, 17, 17, 17, 17, 17, 17,
        17, 17, 17, 17, 0, 0, 0, 0, 0, 0, 0, 0,
        0, 0, 0, 0, 0, 0, 0, 0, 0,
    ],
];

/// The band-limited triangle of zone 6, read by the bit-crushed sine.
#[verifier::opaque]
pub const WAV_RES_BANDLIMITED_TRIANGLE_6: [u8; 513] = [
    128, 129, 131, 132, 134, 135, 137, 138, 140, 142, 143, 145,
    146, 148, 149, 151, 152, 154, 155, 157, 158, 160, 162, 163,
    165, 166, 167, 169, 170, 172, 173, 175, 176, 178, 179, 181,
    182, 183, 185, 186, 188, 189, 190, 192, 193, 194, 196, 197,
    198, 200, 201, 202, 203, 205, 206, 207, 208, 210, 211, 212,
    213, 214, 215, 217, 218, 219, 220, 221, 222, 223, 224, 225,
    226, 227, 228, 229, 230, 231, 232, 233, 234, 234, 235, 236,
    237, 238, 238, 239, 240, 241, 241, 242, 243, 243, 244, 245,
    245, 246, 246, 247, 248, 248, 249, 249, 250, 250, 250, 251,
    251, 252, 252, 252, 253, 253, 253, 253, 254, 254, 254, 254,
    254, 255, 255, 255, 255, 255, 255, 255, 255, 255, 255, 255,
    255, 255, 255, 255, 254, 254, 254, 254, 254, 253, 253, 253,
    253, 252, 252, 252, 251, 251, 250, 250, 250, 249, 249, 248,
    248, 247, 246, 246, 245, 245, 244, 243, 243, 242, 241, 241,
    240, 239, 238, 238, 237, 236, 235, 234, 234, 233, 232, 231,
    230, 229, 228, 227, 226, 225, 224, 223, 222, 221, 220, 219,
    218, 217, 215, 214, 213, 212, 211, 210, 208, 207, 206, 205,
    203, 202, 201, 200, 198, 197, 196, 194, 193, 192, 190, 189,
    188, 186, 185, 183, 182, 181, 179, 178, 176, 175, 173, 172,
    170, 169, 167, 166, 165, 163, 162, 160, 158, 157, 155, 154,
    152, 151, 149, 148, 146, 145, 143, 142, 140, 138, 137, 135,
    134, 132, 131, 129, 128, 126, 124, 123, 121, 120, 118, 117,
    115, 113, 112, 110, 109, 107, 106, 104, 103, 101, 100, 98,
    97, 95, 93, 92, 90, 89, 88, 86, 85, 83, 82, 80,
    79, 77, 76, 74, 73, 72, 70, 69, 67, 66, 65, 63,
    62, 61, 59, 58, 57, 55, 54, 53, 52, 50, 49, 48,
    47, 45, 44, 43, 42, 41, 40, 38, 37, 36, 35, 34,
    33, 32, 31, 30, 29, 28, 27, 26, 25, 24, 23, 22,
    21, 21, 20, 19, 18, 17, 17, 16, 15, 14, 14, 13,
    12, 12, 11, 10, 10, 9, 9, 8, 7, 7, 6, 6,
    5, 5, 5, 4, 4, 3, 3, 3, 2, 2, 2, 2,
    1, 1, 1, 1, 1, 0, 0, 0, 0, 0, 0, 0,
    0, 0, 0, 0, 0, 0, 0, 0, 1, 1, 1, 1,
    1, 2, 2, 2, 2, 3, 3, 3, 4, 4, 5, 5,
    5, 6, 6, 7, 7, 8, 9, 9, 10, 10, 11, 12,
    12, 13, 14, 14, 15, 16, 17, 17, 18, 19, 20, 21,
    21, 22, 23, 24, 25, 26, 27, 28, 29, 30, 31, 32,
    33, 34, 35, 36, 37, 38, 40, 41, 42, 43, 44, 45,
    47, 48, 49, 50, 52, 53, 54, 55, 57, 58, 59, 61,
    62, 63, 65, 66, 67, 69, 70, 72, 73, 74, 76, 77,
    79, 80, 82, 83, 85, 86, 88, 89, 90, 92, 93, 95,
    97, 98, 100, 101, 103, 104, 106, 107, 109, 110, 112, 113,
    115, 117, 118, 120, 121, 123, 124, 126, 127,
];

} // verus!
