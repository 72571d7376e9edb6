//! Lookup tables of the macro-oscillator.
use vstd::prelude::*;

verus! {

/// Phase increments per sample (2^32 = one cycle) at 96 kHz over the octave from MIDI note 128 to 140, one entry per 1/8 semitone: `floor(2^32 / 96000 * 440 * 2^((n - 69) / 12))`.
#[verifier::opaque]
pub const LUT_OSCILLATOR_INCREMENTS: [u32; 97] = [
    594573364, 598881888, 603221633, 607592826, 611995694, 616430467, 620897376, 625396654, 629928536, 634493258, 639091058, 643722175,
    648386851, 653085330, 657817855, 662584675, 667386036, 672222191, 677093390, 681999888, 686941940, 691919804, 696933740, 701984010,
    707070875, 712194602, 717355458, 722553711, 727789633, 733063497, 738375577, 743726151, 749115497, 754543897, 760011633, 765518991,
    771066257, 776653721, 782281674, 787950409, 793660223, 799411412, 805204277, 811039119, 816916243, 822835954, 828798563, 834804379,
    840853716, 846946888, 853084215, 859266014, 865492610, 871764326, 878081490, 884444431, 890853479, 897308971, 903811242, 910360631,
    916957479, 923602131, 930294933, 937036233, 943826384, 950665739, 957554655, 964493491, 971482608, 978522372, 985613148, 992755307,
    999949221, 1007195266, 1014493818, 1021845258, 1029249970, 1036708340, 1044220756, 1051787610, 1059409296, 1067086213, 1074818759, 1082607339,
    1090452358, 1098354226, 1106313353, 1114330156, 1122405051, 1130538461, 1138730809, 1146982522, 1155294030, 1163665767, 1172098168, 1180591675,
    1189146729,
];

/// Periods over the same octave: `floor(96000 / f * 65536 * 4096 / 16)` for the note frequency `f`.
#[verifier::opaque]
pub const LUT_OSCILLATOR_DELAYS: [u32; 97] = [
    121192098, 120320209, 119454591, 118595202, 117741995, 116894926, 116053951, 115219026, 114390109, 113567154, 112750120, 111938964,
    111133644, 110334118, 109540343, 108752279, 107969885, 107193120, 106421942, 105656313, 104896192, 104141540, 103392316, 102648483,
    101910001, 101176832, 100448938, 99726280, 99008821, 98296524, 97589351, 96887266, 96190232, 95498213, 94811172, 94129074,
    93451883, 92779564, 92112082, 91449402, 90791489, 90138310, 89489830, 88846015, 88206832, 87572247, 86942228, 86316741,
    85695754, 85079235, 84467151, 83859471, 83256163, 82657195, 82062536, 81472155, 80886021, 80304105, 79726375, 79152801,
    78583353, 78018003, 77456719, 76899474, 76346238, 75796982, 75251677, 74710295, 74172809, 73639189, 73109408, 72583438,
    72061253, 71542824, 71028125, 70517129, 70009809, 69506139, 69006092, 68509643, 68016765, 67527434, 67041622, 66559306,
    66080460, 65605059, 65133078, 64664492, 64199278, 63737410, 63278865, 62823619, 62371649, 61922930, 61477439, 61035153,
    60596049,
];

/// One cycle of a sine, 256 points plus a guard point: `round(32767 * sin(2 pi i / 256))`.
#[verifier::opaque]
pub const WAV_SINE: [i16; 257] = [
    0, 804, 1608, 2410, 3212, 4011, 4808, 5602, 6393, 7179, 7962, 8739,
    9512, 10278, 11039, 11793, 12539, 13279, 14010, 14732, 15446, 16151, 16846, 17530,
    18204, 18868, 19519, 20159, 20787, 21403, 22005, 22594, 23170, 23731, 24279, 24811,
    25329, 25832, 26319, 26790, 27245, 27683, 28105, 28510, 28898, 29268, 29621, 29956,
    30273, 30571, 30852, 31113, 31356, 31580, 31785, 31971, 32137, 32285, 32412, 32521,
    32609, 32678, 32728, 32757, 32767, 32757, 32728, 32678, 32609, 32521, 32412, 32285,
    32137, 31971, 31785, 31580, 31356, 31113, 30852, 30571, 30273, 29956, 29621, 29268,
    28898, 28510, 28105, 27683, 27245, 26790, 26319, 25832, 25329, 24811, 24279, 23731,
    23170, 22594, 22005, 21403, 20787, 20159, 19519, 18868, 18204, 17530, 16846, 16151,
    15446, 14732, 14010, 13279, 12539, 11793, 11039, 10278, 9512, 8739, 7962, 7179,
    6393, 5602, 4808, 4011, 3212, 2410, 1608, 804, 0, -804, -1608, -2410,
    -3212, -4011, -4808, -5602, -6393, -7179, -7962, -8739, -9512, -10278, -11039, -11793,
    -12539, -13279, -14010, -14732, -15446, -16151, -16846, -17530, -18204, -18868, -19519, -20159,
    -20787, -21403, -22005, -22594, -23170, -23731, -24279, -24811, -25329, -25832, -26319, -26790,
    -27245, -27683, -28105, -28510, -28898, -29268, -29621, -29956, -30273, -30571, -30852, -31113,
    -31356, -31580, -31785, -31971, -32137, -32285, -32412, -32521, -32609, -32678, -32728, -32757,
    -32767, -32757, -32728, -32678, -32609, -32521, -32412, -32285, -32137, -31971, -31785, -31580,
    -31356, -31113, -30852, -30571, -30273, -29956, -29621, -29268, -28898, -28510, -28105, -27683,
    -27245, -26790, -26319, -25832, -25329, -24811, -24279, -23731, -23170, -22594, -22005, -21403,
    -20787, -20159, -19519, -18868, -18204, -17530, -16846, -16151, -15446, -14732, -14010, -13279,
    -12539, -11793, -11039, -10278, -9512, -8739, -7962, -7179, -6393, -5602, -4808, -4011,
    -3212, -2410, -1608, -804, 0,
];

/// Exponential segment curve: `round(65535 * (1 - e^(-4 i / 256)) / (1 - e^-4))`.
#[verifier::opaque]
pub const LUT_ENV_EXPO: [u16; 257] = [
    0, 1035, 2054, 3057, 4045, 5017, 5974, 6916, 7844, 8758, 9657, 10542,
    11414, 12272, 13116, 13948, 14767, 15573, 16366, 17148, 17917, 18674, 19419, 20153,
    20876, 21587, 22287, 22977, 23656, 24324, 24982, 25629, 26267, 26895, 27513, 28121,
    28720, 29310, 29891, 30462, 31025, 31579, 32124, 32661, 33190, 33710, 34223, 34727,
    35224, 35712, 36194, 36668, 37134, 37593, 38046, 38491, 38929, 39360, 39785, 40203,
    40615, 41020, 41419, 41812, 42199, 42580, 42955, 43324, 43687, 44045, 44397, 44743,
    45085, 45421, 45751, 46077, 46398, 46713, 47024, 47330, 47631, 47928, 48220, 48507,
    48790, 49069, 49343, 49613, 49879, 50140, 50398, 50652, 50901, 51147, 51389, 51627,
    51862, 52093, 52320, 52544, 52765, 52981, 53195, 53405, 53612, 53816, 54017, 54214,
    54409, 54600, 54789, 54974, 55157, 55337, 55514, 55688, 55860, 56029, 56195, 56359,
    56520, 56679, 56835, 56989, 57140, 57289, 57436, 57581, 57723, 57863, 58001, 58137,
    58270, 58402, 58532, 58659, 58785, 58908, 59030, 59150, 59268, 59384, 59498, 59611,
    59721, 59831, 59938, 60044, 60148, 60250, 60351, 60450, 60548, 60645, 60739, 60833,
    60924, 61015, 61104, 61192, 61278, 61363, 61446, 61529, 61610, 61690, 61768, 61846,
    61922, 61997, 62071, 62143, 62215, 62285, 62355, 62423, 62490, 62556, 62621, 62685,
    62749, 62811, 62872, 62932, 62991, 63050, 63107, 63164, 63220, 63275, 63329, 63382,
    63434, 63486, 63536, 63586, 63635, 63684, 63731, 63778, 63825, 63870, 63915, 63959,
    64002, 64045, 64087, 64128, 64169, 64209, 64249, 64288, 64326, 64364, 64401, 64437,
    64473, 64509, 64544, 64578, 64612, 64645, 64678, 64710, 64742, 64773, 64804, 64834,
    64864, 64893, 64922, 64951, 64979, 65006, 65033, 65060, 65086, 65112, 65138, 65163,
    65188, 65212, 65236, 65260, 65283, 65306, 65328, 65350, 65372, 65394, 65415, 65436,
    65456, 65476, 65496, 65516, 65535,
];

/// Segment phase increments for 128 segment times `t = 1 ms * 10^(4 i / 127)` at a 4 kHz control rate: `floor(2^32 / (4000 t))`.
#[verifier::opaque]
pub const LUT_ENV_PORTAMENTO_INCREMENTS: [u32; 128] = [
    1073741824, 998628156, 928769069, 863796979, 803370014, 747170221, 694901888, 646289989, 601078738, 559030242, 519923251, 483551992,
    449725086, 418264543, 389004824, 361791971, 336482794, 312944122, 291052099, 270691533, 251755292, 234143737, 217764199, 202530493,
    188362461, 175185555, 162930440, 151532632, 140932159, 131073242, 121904006, 113376205, 105444966, 98068558, 91208167, 84827694,
    78893568, 73374564, 68241643, 63467795, 59027902, 54898602, 51058167, 47486390, 44164477, 41074949, 38201548, 35529157,
    33043713, 30732138, 28582270, 26582795, 24723195, 22993682, 21385158, 19889158, 18497811, 17203795, 16000303, 14881001,
    13840000, 12871822, 11971373, 11133914, 10355041, 9630653, 8956940, 8330357, 7747607, 7205622, 6701553, 6232745,
    5796733, 5391222, 5014079, 4663319, 4337096, 4033694, 3751517, 3489079, 3245000, 3017996, 2806872, 2610517,
    2427898, 2258054, 2100092, 1953180, 1816545, 1689469, 1571282, 1461363, 1359133, 1264055, 1175628, 1093386,
    1016899, 945761, 879600, 818068, 760840, 707615, 658114, 612076, 569258, 529435, 492399, 457953,
    425917, 396122, 368411, 342639, 318669, 296377, 275644, 256361, 238427, 221748, 206235, 191808,
    178390, 165911, 154305, 143510, 133471, 124134, 115450, 107374,
];

/// Filter frequency coefficient per MIDI note `i`: `round(32768 * 2 sin(pi f / 96000))` with `f` the note frequency, capped at 16 kHz.
#[verifier::opaque]
pub const LUT_SVF_CUTOFF: [u16; 257] = [
    18, 19, 20, 21, 22, 23, 25, 26, 28, 29, 31, 33,
    35, 37, 39, 42, 44, 47, 50, 53, 56, 59, 62, 66,
    70, 74, 79, 83, 88, 94, 99, 105, 111, 118, 125, 132,
    140, 149, 157, 167, 177, 187, 198, 210, 223, 236, 250, 265,
    281, 297, 315, 334, 353, 374, 397, 420, 445, 472, 500, 530,
    561, 594, 630, 667, 707, 749, 793, 841, 891, 944, 1000, 1059,
    1122, 1189, 1260, 1334, 1414, 1498, 1587, 1681, 1781, 1887, 1999, 2118,
    2244, 2377, 2519, 2668, 2827, 2995, 3173, 3361, 3561, 3773, 3997, 4234,
    4485, 4752, 5034, 5332, 5648, 5983, 6338, 6714, 7111, 7533, 7978, 8450,
    8950, 9478, 10037, 10629, 11255, 11917, 12617, 13357, 14139, 14965, 15838, 16759,
    17731, 18757, 19838, 20977, 22175, 23437, 24762, 26153, 27612, 29140, 30737, 32404,
    32768, 32768, 32768, 32768, 32768, 32768, 32768, 32768, 32768, 32768, 32768, 32768,
    32768, 32768, 32768, 32768, 32768, 32768, 32768, 32768, 32768, 32768, 32768, 32768,
    32768, 32768, 32768, 32768, 32768, 32768, 32768, 32768, 32768, 32768, 32768, 32768,
    32768, 32768, 32768, 32768, 32768, 32768, 32768, 32768, 32768, 32768, 32768, 32768,
    32768, 32768, 32768, 32768, 32768, 32768, 32768, 32768, 32768, 32768, 32768, 32768,
    32768, 32768, 32768, 32768, 32768, 32768, 32768, 32768, 32768, 32768, 32768, 32768,
    32768, 32768, 32768, 32768, 32768, 32768, 32768, 32768, 32768, 32768, 32768, 32768,
    32768, 32768, 32768, 32768, 32768, 32768, 32768, 32768, 32768, 32768, 32768, 32768,
    32768, 32768, 32768, 32768, 32768, 32768, 32768, 32768, 32768, 32768, 32768, 32768,
    32768, 32768, 32768, 32768, 32768, 32768, 32768, 32768, 32768, 32768, 32768, 32768,
    32768, 32768, 32768, 32768, 32768,
];

/// Filter damping per resonance step `i`: `round(32767 / q)` with `q = 0.5 * 200^(i / 256)`.
#[verifier::opaque]
pub const LUT_SVF_DAMP: [u16; 257] = [
    65534, 64192, 62877, 61589, 60327, 59091, 57881, 56695, 55534, 54397, 53282, 52191,
    51122, 50075, 49049, 48044, 47060, 46096, 45152, 44227, 43321, 42434, 41564, 40713,
    39879, 39062, 38262, 37478, 36711, 35959, 35222, 34501, 33794, 33102, 32424, 31759,
    31109, 30472, 29847, 29236, 28637, 28051, 27476, 26913, 26362, 25822, 25293, 24775,
    24267, 23770, 23283, 22806, 22339, 21882, 21434, 20994, 20564, 20143, 19731, 19326,
    18931, 18543, 18163, 17791, 17426, 17069, 16720, 16377, 16042, 15713, 15391, 15076,
    14767, 14465, 14169, 13878, 13594, 13316, 13043, 12776, 12514, 12258, 12007, 11761,
    11520, 11284, 11053, 10826, 10604, 10387, 10174, 9966, 9762, 9562, 9366, 9174,
    8986, 8802, 8622, 8445, 8272, 8103, 7937, 7774, 7615, 7459, 7306, 7157,
    7010, 6866, 6726, 6588, 6453, 6321, 6191, 6065, 5940, 5819, 5699, 5583,
    5468, 5356, 5247, 5139, 5034, 4931, 4830, 4731, 4634, 4539, 4446, 4355,
    4266, 4178, 4093, 4009, 3927, 3846, 3768, 3690, 3615, 3541, 3468, 3397,
    3328, 3259, 3193, 3127, 3063, 3001, 2939, 2879, 2820, 2762, 2706, 2650,
    2596, 2543, 2491, 2440, 2390, 2341, 2293, 2246, 2200, 2155, 2111, 2067,
    2025, 1983, 1943, 1903, 1864, 1826, 1788, 1752, 1716, 1681, 1646, 1613,
    1580, 1547, 1516, 1485, 1454, 1424, 1395, 1367, 1339, 1311, 1284, 1258,
    1232, 1207, 1182, 1158, 1134, 1111, 1088, 1066, 1044, 1023, 1002, 981,
    961, 942, 922, 903, 885, 867, 849, 832, 815, 798, 782, 766,
    750, 734, 719, 705, 690, 676, 662, 649, 635, 622, 610, 597,
    585, 573, 561, 550, 538, 527, 517, 506, 496, 486, 476, 466,
    456, 447, 438, 429, 420, 411, 403, 395, 387, 379, 371, 363,
    356, 349, 342, 335, 328,
];

/// Sine wavefolder curve over `x` in -1..1: `sin(2 pi x)`, scaled to full range.
#[verifier::opaque]
pub const WS_SINE_FOLD: [i16; 257] = [
    0, 1608, 3212, 4808, 6393, 7962, 9512, 11039, 12539, 14010, 15446, 16846,
    18204, 19519, 20787, 22005, 23170, 24279, 25329, 26319, 27245, 28105, 28898, 29621,
    30273, 30852, 31356, 31785, 32137, 32412, 32609, 32728, 32767, 32728, 32609, 32412,
    32137, 31785, 31356, 30852, 30273, 29621, 28898, 28105, 27245, 26319, 25329, 24279,
    23170, 22005, 20787, 19519, 18204, 16846, 15446, 14010, 12539, 11039, 9512, 7962,
    6393, 4808, 3212, 1608, 0, -1608, -3212, -4808, -6393, -7962, -9512, -11039,
    -12539, -14010, -15446, -16846, -18204, -19519, -20787, -22005, -23170, -24279, -25329, -26319,
    -27245, -28105, -28898, -29621, -30273, -30852, -31356, -31785, -32137, -32412, -32609, -32728,
    -32767, -32728, -32609, -32412, -32137, -31785, -31356, -30852, -30273, -29621, -28898, -28105,
    -27245, -26319, -25329, -24279, -23170, -22005, -20787, -19519, -18204, -16846, -15446, -14010,
    -12539, -11039, -9512, -7962, -6393, -4808, -3212, -1608, 0, 1608, 3212, 4808,
    6393, 7962, 9512, 11039, 12539, 14010, 15446, 16846, 18204, 19519, 20787, 22005,
    23170, 24279, 25329, 26319, 27245, 28105, 28898, 29621, 30273, 30852, 31356, 31785,
    32137, 32412, 32609, 32728, 32767, 32728, 32609, 32412, 32137, 31785, 31356, 30852,
    30273, 29621, 28898, 28105, 27245, 26319, 25329, 24279, 23170, 22005, 20787, 19519,
    18204, 16846, 15446, 14010, 12539, 11039, 9512, 7962, 6393, 4808, 3212, 1608,
    0, -1608, -3212, -4808, -6393, -7962, -9512, -11039, -12539, -14010, -15446, -16846,
    -18204, -19519, -20787, -22005, -23170, -24279, -25329, -26319, -27245, -28105, -28898, -29621,
    -30273, -30852, -31356, -31785, -32137, -32412, -32609, -32728, -32767, -32728, -32609, -32412,
    -32137, -31785, -31356, -30852, -30273, -29621, -28898, -28105, -27245, -26319, -25329, -24279,
    -23170, -22005, -20787, -19519, -18204, -16846, -15446, -14010, -12539, -11039, -9512, -7962,
    -6393, -4808, -3212, -1608, -1608,
];

/// Triangle wavefolder curve over `x` in -1..1: a triangle of period 1 in `x`, scaled to full range.
#[verifier::opaque]
pub const WS_TRI_FOLD: [i16; 257] = [
    0, 1024, 2048, 3072, 4096, 5120, 6144, 7168, 8192, 9216, 10240, 11264,
    12288, 13312, 14336, 15360, 16384, 17407, 18431, 19455, 20479, 21503, 22527, 23551,
    24575, 25599, 26623, 27647, 28671, 29695, 30719, 31743, 32767, 31743, 30719, 29695,
    28671, 27647, 26623, 25599, 24575, 23551, 22527, 21503, 20479, 19455, 18431, 17407,
    16384, 15360, 14336, 13312, 12288, 11264, 10240, 9216, 8192, 7168, 6144, 5120,
    4096, 3072, 2048, 1024, 0, -1024, -2048, -3072, -4096, -5120, -6144, -7168,
    -8192, -9216, -10240, -11264, -12288, -13312, -14336, -15360, -16384, -17407, -18431, -19455,
    -20479, -21503, -22527, -23551, -24575, -25599, -26623, -27647, -28671, -29695, -30719, -31743,
    -32767, -31743, -30719, -29695, -28671, -27647, -26623, -25599, -24575, -23551, -22527, -21503,
    -20479, -19455, -18431, -17407, -16384, -15360, -14336, -13312, -12288, -11264, -10240, -9216,
    -8192, -7168, -6144, -5120, -4096, -3072, -2048, -1024, 0, 1024, 2048, 3072,
    4096, 5120, 6144, 7168, 8192, 9216, 10240, 11264, 12288, 13312, 14336, 15360,
    16384, 17407, 18431, 19455, 20479, 21503, 22527, 23551, 24575, 25599, 26623, 27647,
    28671, 29695, 30719, 31743, 32767, 31743, 30719, 29695, 28671, 27647, 26623, 25599,
    24575, 23551, 22527, 21503, 20479, 19455, 18431, 17407, 16384, 15360, 14336, 13312,
    12288, 11264, 10240, 9216, 8192, 7168, 6144, 5120, 4096, 3072, 2048, 1024,
    0, -1024, -2048, -3072, -4096, -5120, -6144, -7168, -8192, -9216, -10240, -11264,
    -12288, -13312, -14336, -15360, -16384, -17407, -18431, -19455, -20479, -21503, -22527, -23551,
    -24575, -25599, -26623, -27647, -28671, -29695, -30719, -31743, -32767, -31743, -30719, -29695,
    -28671, -27647, -26623, -25599, -24575, -23551, -22527, -21503, -20479, -19455, -18431, -17407,
    -16384, -15360, -14336, -13312, -12288, -11264, -10240, -9216, -8192, -7168, -6144, -5120,
    -4096, -3072, -2048, -1024, -1024,
];

/// Hard overdrive curve over `x` in -1..1: `tanh(8 x)`, scaled to full range.
#[verifier::opaque]
pub const WS_VIOLENT_OVERDRIVE: [i16; 257] = [
    -32767, -32767, -32767, -32767, -32767, -32767, -32767, -32767, -32767, -32767, -32767, -32767,
    -32767, -32767, -32767, -32767, -32767, -32767, -32767, -32767, -32767, -32767, -32767, -32767,
    -32767, -32767, -32767, -32767, -32767, -32767, -32767, -32767, -32767, -32767, -32766, -32766,
    -32766, -32766, -32766, -32766, -32766, -32766, -32766, -32765, -32765, -32765, -32765, -32764,
    -32764, -32764, -32763, -32763, -32762, -32761, -32761, -32760, -32759, -32758, -32757, -32755,
    -32754, -32752, -32750, -32748, -32745, -32742, -32739, -32735, -32731, -32726, -32720, -32714,
    -32707, -32699, -32690, -32680, -32669, -32656, -32641, -32624, -32605, -32583, -32559, -32532,
    -32500, -32465, -32425, -32380, -32328, -32270, -32205, -32131, -32047, -31952, -31845, -31725,
    -31588, -31435, -31261, -31066, -30846, -30599, -30321, -30009, -29659, -29267, -28829, -28340,
    -27796, -27190, -26518, -25775, -24955, -24053, -23065, -21986, -20812, -19541, -18173, -16706,
    -15142, -13486, -11742, -9919, -8025, -6073, -4075, -2045, 0, 2045, 4075, 6073,
    8025, 9919, 11742, 13486, 15142, 16706, 18173, 19541, 20812, 21986, 23065, 24053,
    24955, 25775, 26518, 27190, 27796, 28340, 28829, 29267, 29659, 30009, 30321, 30599,
    30846, 31066, 31261, 31435, 31588, 31725, 31845, 31952, 32047, 32131, 32205, 32270,
    32328, 32380, 32425, 32465, 32500, 32532, 32559, 32583, 32605, 32624, 32641, 32656,
    32669, 32680, 32690, 32699, 32707, 32714, 32720, 32726, 32731, 32735, 32739, 32742,
    32745, 32748, 32750, 32752, 32754, 32755, 32757, 32758, 32759, 32760, 32761, 32761,
    32762, 32763, 32763, 32764, 32764, 32764, 32765, 32765, 32765, 32765, 32766, 32766,
    32766, 32766, 32766, 32766, 32766, 32766, 32766, 32767, 32767, 32767, 32767, 32767,
    32767, 32767, 32767, 32767, 32767, 32767, 32767, 32767, 32767, 32767, 32767, 32767,
    32767, 32767, 32767, 32767, 32767, 32767, 32767, 32767, 32767, 32767, 32767, 32767,
    32767, 32767, 32767, 32767, 32767,
];

/// Soft overdrive curve over `x` in -1..1: `tanh(2 x)`, scaled to full range.
#[verifier::opaque]
pub const WS_MODERATE_OVERDRIVE: [i16; 257] = [
    -32767, -32729, -32690, -32649, -32608, -32565, -32520, -32475, -32428, -32379, -32329, -32278,
    -32225, -32171, -32114, -32057, -31997, -31936, -31873, -31808, -31741, -31672, -31601, -31527,
    -31452, -31375, -31295, -31213, -31129, -31042, -30952, -30860, -30766, -30668, -30568, -30465,
    -30359, -30250, -30138, -30023, -29905, -29783, -29658, -29530, -29398, -29262, -29123, -28980,
    -28833, -28682, -28527, -28368, -28205, -28037, -27865, -27689, -27508, -27322, -27132, -26937,
    -26737, -26532, -26322, -26107, -25886, -25661, -25430, -25193, -24951, -24703, -24450, -24191,
    -23926, -23655, -23378, -23095, -22806, -22511, -22210, -21902, -21589, -21269, -20942, -20610,
    -20271, -19925, -19573, -19215, -18851, -18480, -18102, -17719, -17329, -16933, -16530, -16122,
    -15707, -15287, -14860, -14427, -13989, -13545, -13096, -12641, -12180, -11715, -11245, -10769,
    -10289, -9804, -9315, -8822, -8325, -7824, -7319, -6811, -6299, -5785, -5268, -4749,
    -4227, -3703, -3177, -2650, -2122, -1592, -1062, -531, 0, 531, 1062, 1592,
    2122, 2650, 3177, 3703, 4227, 4749, 5268, 5785, 6299, 6811, 7319, 7824,
    8325, 8822, 9315, 9804, 10289, 10769, 11245, 11715, 12180, 12641, 13096, 13545,
    13989, 14427, 14860, 15287, 15707, 16122, 16530, 16933, 17329, 17719, 18102, 18480,
    18851, 19215, 19573, 19925, 20271, 20610, 20942, 21269, 21589, 21902, 22210, 22511,
    22806, 23095, 23378, 23655, 23926, 24191, 24450, 24703, 24951, 25193, 25430, 25661,
    25886, 26107, 26322, 26532, 26737, 26937, 27132, 27322, 27508, 27689, 27865, 28037,
    28205, 28368, 28527, 28682, 28833, 28980, 29123, 29262, 29398, 29530, 29658, 29783,
    29905, 30023, 30138, 30250, 30359, 30465, 30568, 30668, 30766, 30860, 30952, 31042,
    31129, 31213, 31295, 31375, 31452, 31527, 31601, 31672, 31741, 31808, 31873, 31936,
    31997, 32057, 32114, 32171, 32225, 32278, 32329, 32379, 32428, 32475, 32520, 32565,
    32608, 32649, 32690, 32729, 32729,
];

/// Band-limited pulse train of zone 0: the cosine harmonics below 48 kHz of MIDI note 32, normalized to full range.
#[verifier::opaque]
pub const WAV_BANDLIMITED_COMB_0: [i16; 257] = [
    32767, -948, 694, -434, 104, 83, -227, 185, -132, -20, 77, -148,
    86, -54, -55, 67, -107, 36, -16, -69, 54, -77, 3, 6,
    -72, 40, -53, -20, 18, -68, 24, -32, -35, 22, -60, 8,
    -16, -45, 21, -50, -7, -3, -50, 17, -38, -20, 5, -50,
    9, -26, -30, 9, -47, -1, -16, -38, 10, -40, -10, -7,
    -42, 7, -33, -20, 0, -42, 2, -24, -28, 4, -40, -5,
    -15, -34, 5, -36, -12, -8, -38, 3, -30, -20, -3, -39,
    -1, -22, -27, 1, -37, -7, -15, -32, 2, -33, -13, -9,
    -35, 0, -28, -20, -4, -36, -3, -22, -26, -1, -35, -8,
    -15, -31, 0, -32, -14, -9, -35, -1, -27, -21, -4, -36,
    -4, -21, -26, -1, -34, -9, -15, -31, 0, -31, -15, -9,
    -34, -1, -26, -21, -4, -36, -4, -21, -27, -1, -35, -9,
    -14, -32, 0, -31, -15, -8, -35, -1, -26, -22, -3, -36,
    -4, -20, -28, 0, -35, -9, -13, -33, 2, -32, -15, -7,
    -37, 1, -27, -22, -1, -39, -3, -20, -30, 3, -38, -8,
    -12, -36, 5, -34, -15, -5, -40, 4, -28, -24, 2, -42,
    0, -20, -33, 7, -42, -7, -10, -40, 10, -38, -16, -1,
    -47, 9, -30, -26, 9, -50, 5, -20, -38, 17, -50, -3,
    -7, -50, 21, -45, -16, 8, -60, 22, -35, -32, 24, -68,
    18, -20, -53, 40, -72, 6, 3, -77, 54, -69, -16, 36,
    -107, 67, -55, -54, 86, -148, 77, -20, -132, 185, -227, 83,
    104, -434, 694, -948, 32767,
];

/// Band-limited pulse train of zone 1: the cosine harmonics below 48 kHz of MIDI note 40, normalized to full range.
#[verifier::opaque]
pub const WAV_BANDLIMITED_COMB_1: [i16; 257] = [
    32767, 2237, -388, -707, 314, 292, -341, -172, 247, 6, -258, 10,
    152, -114, -158, 85, 52, -152, -62, 93, -34, -136, 10, 59,
    -90, -90, 48, 6, -109, -35, 50, -46, -96, 9, 24, -80,
    -62, 31, -14, -89, -22, 28, -51, -75, 9, 5, -74, -46,
    22, -26, -77, -15, 15, -54, -61, 8, -7, -69, -36, 14,
    -34, -68, -10, 5, -56, -51, 7, -17, -66, -28, 8, -40,
    -60, -6, -4, -57, -43, 5, -24, -62, -22, 3, -45, -54,
    -4, -10, -58, -36, 4, -30, -59, -17, -1, -48, -48, -2,
    -16, -58, -30, 2, -35, -56, -12, -6, -51, -43, -1, -22,
    -57, -25, 0, -40, -52, -9, -11, -53, -38, 0, -27, -56,
    -20, -3, -44, -48, -6, -15, -55, -33, 0, -33, -55, -15,
    -6, -48, -44, -3, -20, -56, -27, 0, -38, -53, -11, -9,
    -52, -40, 0, -25, -57, -22, -1, -43, -51, -6, -12, -56,
    -35, 2, -30, -58, -16, -2, -48, -48, -1, -17, -59, -30,
    4, -36, -58, -10, -4, -54, -45, 3, -22, -62, -24, 5,
    -43, -57, -4, -6, -60, -40, 8, -28, -66, -17, 7, -51,
    -56, 5, -10, -68, -34, 14, -36, -69, -7, 8, -61, -54,
    15, -15, -77, -26, 22, -46, -74, 5, 9, -75, -51, 28,
    -22, -89, -14, 31, -62, -80, 24, 9, -96, -46, 50, -35,
    -109, 6, 48, -90, -90, 59, 10, -136, -34, 93, -62, -152,
    52, 85, -158, -114, 152, 10, -258, 6, 247, -172, -341, 292,
    314, -707, -388, 2237, 32767,
];

/// Band-limited pulse train of zone 2: the cosine harmonics below 48 kHz of MIDI note 48, normalized to full range.
#[verifier::opaque]
pub const WAV_BANDLIMITED_COMB_2: [i16; 257] = [
    32767, 1474, -1426, 1123, -947, 567, -370, 25, 88, -314, 290, -377,
    231, -226, 25, -6, -172, 139, -248, 140, -181, 24, -41, -115,
    74, -188, 96, -158, 24, -59, -84, 37, -153, 69, -143, 22,
    -70, -63, 13, -129, 50, -133, 21, -78, -49, -5, -111, 35,
    -124, 19, -83, -38, -19, -96, 23, -116, 17, -87, -30, -31,
    -84, 13, -110, 15, -90, -23, -40, -74, 4, -103, 13, -91,
    -17, -48, -65, -5, -97, 10, -92, -13, -55, -57, -12, -91,
    7, -93, -9, -61, -50, -19, -86, 4, -93, -6, -67, -43,
    -26, -80, 1, -92, -4, -72, -37, -33, -74, -3, -91, -2,
    -76, -31, -39, -69, -7, -90, -1, -79, -25, -45, -63, -11,
    -88, 0, -83, -20, -51, -57, -16, -85, 0, -85, -16, -57,
    -51, -20, -83, 0, -88, -11, -63, -45, -25, -79, -1, -90,
    -7, -69, -39, -31, -76, -2, -91, -3, -74, -33, -37, -72,
    -4, -92, 1, -80, -26, -43, -67, -6, -93, 4, -86, -19,
    -50, -61, -9, -93, 7, -91, -12, -57, -55, -13, -92, 10,
    -97, -5, -65, -48, -17, -91, 13, -103, 4, -74, -40, -23,
    -90, 15, -110, 13, -84, -31, -30, -87, 17, -116, 23, -96,
    -19, -38, -83, 19, -124, 35, -111, -5, -49, -78, 21, -133,
    50, -129, 13, -63, -70, 22, -143, 69, -153, 37, -84, -59,
    24, -158, 96, -188, 74, -115, -41, 24, -181, 140, -248, 139,
    -172, -6, 25, -226, 231, -377, 290, -314, 88, 25, -370, 567,
    -947, 1123, -1426, 1474, 32767,
];

/// Band-limited pulse train of zone 3: the cosine harmonics below 48 kHz of MIDI note 56, normalized to full range.
#[verifier::opaque]
pub const WAV_BANDLIMITED_COMB_3: [i16; 257] = [
    32767, -3341, -2767, -1946, -1042, -227, 363, 653, 649, 421, 84, -242,
    -459, -517, -421, -224, 0, 174, 248, 208, 79, -88, -235, -314,
    -305, -218, -88, 39, 119, 130, 72, -31, -142, -222, -246, -209,
    -127, -30, 49, 82, 62, -3, -89, -164, -205, -198, -147, -73,
    0, 45, 49, 11, -53, -122, -171, -184, -157, -102, -37, 14,
    35, 18, -29, -90, -142, -168, -160, -122, -66, -14, 18, 18,
    -13, -63, -115, -151, -158, -135, -90, -39, 0, 14, -2, -42,
    -91, -132, -152, -143, -109, -62, -19, 5, 3, -25, -69, -113,
    -142, -146, -123, -83, -39, -6, 4, -13, -49, -93, -129, -144,
    -134, -101, -58, -20, 0, -5, -32, -74, -114, -139, -140, -117,
    -78, -37, -7, -1, -18, -55, -96, -129, -142, -129, -96, -55,
    -18, -1, -7, -37, -78, -117, -140, -139, -114, -74, -32, -5,
    0, -20, -58, -101, -134, -144, -129, -93, -49, -13, 4, -6,
    -39, -83, -123, -146, -142, -113, -69, -25, 3, 5, -19, -62,
    -109, -143, -152, -132, -91, -42, -2, 14, 0, -39, -90, -135,
    -158, -151, -115, -63, -13, 18, 18, -14, -66, -122, -160, -168,
    -142, -90, -29, 18, 35, 14, -37, -102, -157, -184, -171, -122,
    -53, 11, 49, 45, 0, -73, -147, -198, -205, -164, -89, -3,
    62, 82, 49, -30, -127, -209, -246, -222, -142, -31, 72, 130,
    119, 39, -88, -218, -305, -314, -235, -88, 79, 208, 248, 174,
    0, -224, -421, -517, -459, -242, 84, 421, 649, 653, 363, -227,
    -1042, -1946, -2767, -3341, 32767,
];

/// Band-limited pulse train of zone 4: the cosine harmonics below 48 kHz of MIDI note 64, normalized to full range.
#[verifier::opaque]
pub const WAV_BANDLIMITED_COMB_4: [i16; 257] = [
    32767, -3947, 3373, -3061, 2165, -1658, 709, -290, -448, 566, -957, 727,
    -809, 345, -289, -211, 209, -577, 399, -579, 232, -288, -123, 65,
    -414, 249, -468, 173, -285, -77, -15, -320, 160, -400, 136, -283,
    -49, -66, -258, 99, -352, 109, -279, -30, -102, -212, 54, -315,
    86, -275, -16, -130, -177, 17, -284, 67, -270, -7, -151, -148,
    -13, -258, 50, -265, 0, -168, -124, -39, -235, 35, -259, 5,
    -182, -104, -61, -215, 19, -252, 7, -193, -86, -82, -195, 5,
    -245, 8, -203, -71, -100, -177, -10, -237, 8, -210, -57, -118,
    -160, -24, -228, 7, -216, -45, -133, -143, -38, -219, 4, -220,
    -35, -148, -127, -52, -209, 0, -224, -25, -162, -112, -67, -198,
    -4, -225, -17, -175, -96, -81, -187, -10, -226, -10, -187, -81,
    -96, -175, -17, -225, -4, -198, -67, -112, -162, -25, -224, 0,
    -209, -52, -127, -148, -35, -220, 4, -219, -38, -143, -133, -45,
    -216, 7, -228, -24, -160, -118, -57, -210, 8, -237, -10, -177,
    -100, -71, -203, 8, -245, 5, -195, -82, -86, -193, 7, -252,
    19, -215, -61, -104, -182, 5, -259, 35, -235, -39, -124, -168,
    0, -265, 50, -258, -13, -148, -151, -7, -270, 67, -284, 17,
    -177, -130, -16, -275, 86, -315, 54, -212, -102, -30, -279, 109,
    -352, 99, -258, -66, -49, -283, 136, -400, 160, -320, -15, -77,
    -285, 173, -468, 249, -414, 65, -123, -288, 232, -579, 399, -577,
    209, -211, -289, 345, -809, 727, -957, 566, -448, -290, 709, -1658,
    2165, -3061, 3373, -3947, 32767,
];

/// Band-limited pulse train of zone 5: the cosine harmonics below 48 kHz of MIDI note 72, normalized to full range.
#[verifier::opaque]
pub const WAV_BANDLIMITED_COMB_5: [i16; 257] = [
    32767, 11274, -7338, 1965, 1389, -3037, 1749, -206, -1600, 1418, -841, -737,
    1010, -1082, -154, 573, -1085, 220, 153, -933, 415, -206, -691, 455,
    -472, -415, 373, -629, -154, 207, -673, 54, 0, -619, 183, -207,
    -492, 225, -377, -325, 185, -488, -153, 82, -526, -7, -59, -495,
    89, -207, -406, 125, -335, -284, 98, -422, -152, 20, -454, -37,
    -90, -430, 41, -208, -360, 70, -313, -260, 49, -385, -151, -16,
    -412, -54, -108, -392, 12, -210, -332, 37, -300, -245, 19, -363,
    -149, -38, -386, -64, -121, -368, -5, -212, -314, 18, -293, -235,
    0, -350, -147, -53, -371, -69, -129, -354, -14, -214, -302, 6,
    -291, -227, -11, -343, -144, -62, -363, -70, -136, -345, -18, -218,
    -295, 1, -291, -222, -17, -342, -141, -68, -360, -68, -141, -342,
    -17, -222, -291, 1, -295, -218, -18, -345, -136, -70, -363, -62,
    -144, -343, -11, -227, -291, 6, -302, -214, -14, -354, -129, -69,
    -371, -53, -147, -350, 0, -235, -293, 18, -314, -212, -5, -368,
    -121, -64, -386, -38, -149, -363, 19, -245, -300, 37, -332, -210,
    12, -392, -108, -54, -412, -16, -151, -385, 49, -260, -313, 70,
    -360, -208, 41, -430, -90, -37, -454, 20, -152, -422, 98, -284,
    -335, 125, -406, -207, 89, -495, -59, -7, -526, 82, -153, -488,
    185, -325, -377, 225, -492, -207, 183, -619, 0, 54, -673, 207,
    -154, -629, 373, -415, -472, 455, -691, -206, 415, -933, 153, 220,
    -1085, 573, -154, -1082, 1010, -737, -841, 1418, -1600, -206, 1749, -3037,
    1389, 1965, -7338, 11274, 32767,
];

/// Band-limited pulse train of zone 6: the cosine harmonics below 48 kHz of MIDI note 80, normalized to full range.
#[verifier::opaque]
pub const WAV_BANDLIMITED_COMB_6: [i16; 257] = [
    32767, 22838, 3386, -7219, -3777, 2986, 2907, -1757, -3094, 64, 2060, 103,
    -2132, -1160, 1038, 863, -1106, -1549, 62, 949, -229, -1391, -675, 604,
    341, -918, -1062, 61, 540, -358, -1084, -466, 406, 95, -825, -816,
    58, 321, -427, -910, -347, 289, -51, -766, -663, 55, 180, -471,
    -795, -269, 208, -151, -724, -556, 51, 79, -501, -710, -212, 146,
    -225, -690, -475, 46, 0, -523, -642, -169, 96, -283, -661, -410,
    40, -65, -539, -585, -134, 53, -330, -636, -355, 34, -120, -551,
    -536, -106, 15, -371, -612, -307, 27, -169, -560, -491, -82, -21,
    -406, -589, -265, 18, -213, -567, -449, -62, -55, -438, -566, -226,
    9, -255, -571, -410, -44, -88, -467, -542, -190, -2, -295, -574,
    -371, -28, -121, -494, -519, -155, -14, -333, -575, -333, -14, -155,
    -519, -494, -121, -28, -371, -574, -295, -2, -190, -542, -467, -88,
    -44, -410, -571, -255, 9, -226, -566, -438, -55, -62, -449, -567,
    -213, 18, -265, -589, -406, -21, -82, -491, -560, -169, 27, -307,
    -612, -371, 15, -106, -536, -551, -120, 34, -355, -636, -330, 53,
    -134, -585, -539, -65, 40, -410, -661, -283, 96, -169, -642, -523,
    0, 46, -475, -690, -225, 146, -212, -710, -501, 79, 51, -556,
    -724, -151, 208, -269, -795, -471, 180, 55, -663, -766, -51, 289,
    -347, -910, -427, 321, 58, -816, -825, 95, 406, -466, -1084, -358,
    540, 61, -1062, -918, 341, 604, -675, -1391, -229, 949, 62, -1549,
    -1106, 863, 1038, -1160, -2132, 103, 2060, 64, -3094, -1757, 2907, 2986,
    -3777, -7219, 3386, 22838, 32767,
];

/// Band-limited pulse train of zone 7: the cosine harmonics below 48 kHz of MIDI note 88, normalized to full range.
#[verifier::opaque]
pub const WAV_BANDLIMITED_COMB_7: [i16; 257] = [
    32767, 28499, 17639, 4968, -4421, -7676, -5332, -520, 3134, 3584, 1216, -1863,
    -3464, -2735, -520, 1447, 1833, 557, -1297, -2360, -1959, -521, 837, 1151,
    284, -1049, -1853, -1589, -521, 523, 791, 136, -910, -1564, -1373, -522,
    334, 569, 44, -822, -1379, -1233, -523, 207, 421, -18, -761, -1251,
    -1136, -524, 117, 315, -62, -717, -1157, -1066, -525, 51, 236, -95,
    -683, -1087, -1013, -527, 0, 177, -119, -657, -1033, -972, -529, -40,
    131, -137, -636, -991, -941, -531, -71, 95, -151, -619, -958, -917,
    -533, -97, 67, -161, -605, -931, -898, -536, -117, 45, -168, -593,
    -910, -884, -538, -133, 28, -173, -583, -894, -875, -542, -147, 15,
    -176, -574, -882, -868, -546, -157, 7, -176, -567, -873, -865, -550,
    -165, 2, -174, -560, -867, -864, -555, -171, 0, -171, -555, -864,
    -867, -560, -174, 2, -165, -550, -865, -873, -567, -176, 7, -157,
    -546, -868, -882, -574, -176, 15, -147, -542, -875, -894, -583, -173,
    28, -133, -538, -884, -910, -593, -168, 45, -117, -536, -898, -931,
    -605, -161, 67, -97, -533, -917, -958, -619, -151, 95, -71, -531,
    -941, -991, -636, -137, 131, -40, -529, -972, -1033, -657, -119, 177,
    0, -527, -1013, -1087, -683, -95, 236, 51, -525, -1066, -1157, -717,
    -62, 315, 117, -524, -1136, -1251, -761, -18, 421, 207, -523, -1233,
    -1379, -822, 44, 569, 334, -522, -1373, -1564, -910, 136, 791, 523,
    -521, -1589, -1853, -1049, 284, 1151, 837, -521, -1959, -2360, -1297, 557,
    1833, 1447, -520, -2735, -3464, -1863, 1216, 3584, 3134, -520, -5332, -7676,
    -4421, 4968, 17639, 28499, 32767,
];

/// Band-limited pulse train of zone 8: the cosine harmonics below 48 kHz of MIDI note 96, normalized to full range.
#[verifier::opaque]
pub const WAV_BANDLIMITED_COMB_8: [i16; 257] = [
    32767, 31090, 26360, 19413, 11446, 3765, -2475, -6494, -8015, -7278, -4940, -1891,
    965, 2915, 3579, 2954, 1376, -612, -2420, -3568, -3806, -3154, -1876, -385,
    883, 1587, 1572, 894, -208, -1390, -2312, -2725, -2543, -1852, -880, 79,
    749, 953, 655, -35, -900, -1680, -2154, -2199, -1818, -1140, -373, 256,
    570, 489, 51, -605, -1279, -1776, -1955, -1774, -1298, -674, -88, 289,
    352, 93, -406, -991, -1489, -1757, -1721, -1399, -892, -353, 59, 227,
    105, -264, -768, -1255, -1583, -1658, -1463, -1059, -570, -140, 105, 95,
    -162, -587, -1053, -1421, -1585, -1499, -1191, -755, -321, -18, 68, -88,
    -436, -872, -1266, -1502, -1512, -1295, -917, -491, -143, 24, -38, -309,
    -707, -1114, -1409, -1505, -1376, -1060, -652, -273, -36, -9, -201, -554,
    -962, -1305, -1480, -1437, -1189, -809, -410, -111, 0, -111, -410, -809,
    -1189, -1437, -1480, -1305, -962, -554, -201, -9, -36, -273, -652, -1060,
    -1376, -1505, -1409, -1114, -707, -309, -38, 24, -143, -491, -917, -1295,
    -1512, -1502, -1266, -872, -436, -88, 68, -18, -321, -755, -1191, -1499,
    -1585, -1421, -1053, -587, -162, 95, 105, -140, -570, -1059, -1463, -1658,
    -1583, -1255, -768, -264, 105, 227, 59, -353, -892, -1399, -1721, -1757,
    -1489, -991, -406, 93, 352, 289, -88, -674, -1298, -1774, -1955, -1776,
    -1279, -605, 51, 489, 570, 256, -373, -1140, -1818, -2199, -2154, -1680,
    -900, -35, 655, 953, 749, 79, -880, -1852, -2543, -2725, -2312, -1390,
    -208, 894, 1572, 1587, 883, -385, -1876, -3154, -3806, -3568, -2420, -612,
    1376, 2954, 3579, 2915, 965, -1891, -4940, -7278, -8015, -6494, -2475, 3765,
    11446, 19413, 26360, 31090, 32767,
];

/// Band-limited pulse train of zone 9: the cosine harmonics below 48 kHz of MIDI note 104, normalized to full range.
#[verifier::opaque]
pub const WAV_BANDLIMITED_COMB_9: [i16; 257] = [
    32767, 32056, 29976, 26684, 22421, 17500, 12270, 7089, 2296, -1821, -5044, -7243,
    -8380, -8510, -7767, -6352, -4503, -2476, -516, 1162, 2398, 3093, 3216, 2803,
    1946, 781, -532, -1829, -2956, -3793, -4258, -4320, -3995, -3346, -2469, -1480,
    -505, 339, 958, 1287, 1300, 1011, 467, -255, -1059, -1844, -2516, -2997,
    -3236, -3213, -2939, -2456, -1832, -1147, -486, 70, 457, 631, 578, 311,
    -132, -691, -1295, -1868, -2341, -2657, -2782, -2704, -2439, -2022, -1509, -964,
    -457, -47, 215, 300, 202, -65, -465, -945, -1445, -1903, -2262, -2481,
    -2533, -2415, -2144, -1756, -1300, -834, -416, -96, 85, 109, -27, -304,
    -686, -1124, -1564, -1950, -2236, -2387, -2385, -2231, -1946, -1567, -1140, -721,
    -360, -103, 20, -6, -178, -473, -853, -1272, -1676, -2016, -2248, -2345,
    -2296, -2105, -1798, -1413, -998, -606, -284, -73, 0, -73, -284, -606,
    -998, -1413, -1798, -2105, -2296, -2345, -2248, -2016, -1676, -1272, -853, -473,
    -178, -6, 20, -103, -360, -721, -1140, -1567, -1946, -2231, -2385, -2387,
    -2236, -1950, -1564, -1124, -686, -304, -27, 109, 85, -96, -416, -834,
    -1300, -1756, -2144, -2415, -2533, -2481, -2262, -1903, -1445, -945, -465, -65,
    202, 300, 215, -47, -457, -964, -1509, -2022, -2439, -2704, -2782, -2657,
    -2340, -1868, -1295, -691, -132, 311, 578, 631, 457, 70, -486, -1147,
    -1832, -2456, -2939, -3213, -3236, -2997, -2516, -1844, -1059, -255, 467, 1011,
    1300, 1287, 958, 339, -505, -1480, -2469, -3346, -3995, -4320, -4258, -3793,
    -2956, -1829, -532, 781, 1946, 2803, 3216, 3093, 2398, 1162, -516, -2476,
    -4503, -6352, -7767, -8510, -8380, -7243, -5044, -1821, 2296, 7089, 12270, 17500,
    22421, 26684, 29976, 32056, 32767,
];

/// Band-limited pulse train of zone 10: the cosine harmonics below 48 kHz of MIDI note 112, normalized to full range.
#[verifier::opaque]
pub const WAV_BANDLIMITED_COMB_10: [i16; 257] = [
    32767, 32455, 31530, 30022, 27978, 25465, 22561, 19357, 15952, 12449, 8950, 5556,
    2359, -557, -3124, -5286, -7004, -8260, -9049, -9387, -9303, -8842, -8060, -7022,
    -5799, -4464, -3092, -1752, -507, 586, 1483, 2153, 2574, 2741, 2660, 2347,
    1832, 1150, 346, -535, -1442, -2328, -3150, -3866, -4444, -4860, -5100, -5156,
    -5034, -4746, -4313, -3762, -3127, -2443, -1748, -1078, -468, 53, 458, 731,
    861, 844, 686, 399, 0, -486, -1032, -1607, -2181, -2723, -3205, -3603,
    -3897, -4075, -4129, -4058, -3869, -3574, -3190, -2740, -2248, -1740, -1246, -789,
    -395, -83, 132, 239, 234, 119, -99, -406, -785, -1216, -1674, -2135,
    -2574, -2969, -3298, -3544, -3696, -3745, -3691, -3536, -3291, -2968, -2586, -2165,
    -1728, -1299, -901, -554, -277, -85, 13, 12, -88, -280, -556, -898,
    -1289, -1708, -2132, -2539, -2906, -3214, -3447, -3592, -3641, -3592, -3447, -3214,
    -2906, -2539, -2132, -1708, -1289, -898, -556, -280, -88, 12, 13, -85,
    -277, -554, -901, -1299, -1728, -2165, -2586, -2968, -3291, -3536, -3691, -3745,
    -3696, -3544, -3298, -2969, -2574, -2135, -1674, -1216, -785, -406, -99, 119,
    234, 239, 132, -83, -395, -789, -1246, -1740, -2248, -2740, -3190, -3574,
    -3869, -4058, -4129, -4075, -3897, -3603, -3205, -2723, -2181, -1607, -1032, -486,
    0, 399, 686, 844, 861, 731, 458, 53, -468, -1078, -1748, -2443,
    -3127, -3762, -4313, -4746, -5034, -5156, -5100, -4860, -4444, -3866, -3150, -2328,
    -1442, -535, 346, 1150, 1832, 2347, 2660, 2741, 2574, 2153, 1483, 586,
    -507, -1752, -3092, -4464, -5799, -7022, -8060, -8842, -9303, -9387, -9049, -8260,
    -7004, -5286, -3124, -557, 2359, 5556, 8950, 12449, 15952, 19357, 22561, 25465,
    27978, 30022, 31530, 32455, 32767,
];

/// Band-limited pulse train of zone 11: the cosine harmonics below 48 kHz of MIDI note 120, normalized to full range.
#[verifier::opaque]
pub const WAV_BANDLIMITED_COMB_11: [i16; 257] = [
    32767, 32659, 32334, 31798, 31055, 30113, 28983, 27676, 26206, 24589, 22841, 20981,
    19028, 17001, 14922, 12811, 10689, 8575, 6492, 4457, 2489, 606, -1176, -2844,
    -4383, -5784, -7036, -8134, -9071, -9845, -10454, -10901, -11187, -11319, -11302, -11145,
    -10858, -10452, -9939, -9334, -8650, -7902, -7105, -6274, -5424, -4570, -3727, -2908,
    -2126, -1393, -718, -112, 417, 864, 1223, 1491, 1666, 1748, 1738, 1640,
    1456, 1194, 858, 457, 0, -505, -1047, -1616, -2202, -2795, -3383, -3957,
    -4507, -5024, -5500, -5928, -6299, -6611, -6857, -7034, -7142, -7178, -7145, -7042,
    -6874, -6643, -6356, -6017, -5634, -5213, -4763, -4292, -3809, -3321, -2838, -2368,
    -1919, -1500, -1116, -775, -481, -241, -57, 67, 131, 133, 73, -46,
    -223, -454, -734, -1058, -1421, -1815, -2234, -2669, -3114, -3560, -4000, -4425,
    -4829, -5203, -5542, -5840, -6091, -6290, -6436, -6524, -6553, -6524, -6436, -6290,
    -6091, -5840, -5542, -5203, -4829, -4425, -4000, -3560, -3114, -2669, -2234, -1815,
    -1421, -1058, -734, -454, -223, -46, 73, 133, 131, 67, -57, -241,
    -481, -775, -1116, -1500, -1919, -2368, -2838, -3321, -3809, -4292, -4763, -5213,
    -5634, -6017, -6356, -6643, -6874, -7042, -7145, -7178, -7142, -7034, -6857, -6611,
    -6299, -5928, -5500, -5024, -4507, -3957, -3383, -2795, -2202, -1616, -1047, -505,
    0, 457, 858, 1194, 1456, 1640, 1738, 1748, 1666, 1491, 1223, 864,
    417, -112, -718, -1393, -2126, -2908, -3727, -4570, -5424, -6274, -7105, -7902,
    -8650, -9334, -9939, -10452, -10858, -11145, -11302, -11319, -11187, -10901, -10454, -9845,
    -9071, -8134, -7036, -5784, -4383, -2844, -1176, 606, 2489, 4457, 6492, 8575,
    10689, 12811, 14922, 17001, 19028, 20981, 22841, 24589, 26206, 27676, 28983, 30113,
    31055, 31798, 32334, 32659, 32767,
];

/// Band-limited pulse train of zone 12: the cosine harmonics below 48 kHz of MIDI note 128, normalized to full range.
#[verifier::opaque]
pub const WAV_BANDLIMITED_COMB_12: [i16; 257] = [
    32767, 32721, 32583, 32354, 32034, 31626, 31130, 30549, 29885, 29141, 28321, 27426,
    26463, 25433, 24342, 23194, 21994, 20746, 19457, 18130, 16771, 15387, 13981, 12561,
    11131, 9696, 8264, 6838, 5425, 4030, 2657, 1312, 0, -1275, -2508, -3696,
    -4834, -5919, -6948, -7917, -8824, -9667, -10443, -11151, -11789, -12357, -12854, -13280,
    -13634, -13918, -14132, -14277, -14354, -14366, -14314, -14200, -14028, -13800, -13519, -13189,
    -12812, -12394, -11936, -11445, -10922, -10374, -9803, -9215, -8612, -8001, -7385, -6768,
    -6154, -5547, -4952, -4371, -3809, -3269, -2754, -2268, -1812, -1390, -1004, -656,
    -347, -80, 145, 327, 465, 558, 607, 612, 573, 491, 367, 203,
    0, -240, -516, -824, -1163, -1530, -1923, -2337, -2771, -3221, -3684, -4156,
    -4635, -5117, -5599, -6076, -6547, -7008, -7456, -7887, -8299, -8690, -9055, -9394,
    -9703, -9981, -10226, -10436, -10609, -10746, -10844, -10903, -10922, -10903, -10844, -10746,
    -10609, -10436, -10226, -9981, -9703, -9394, -9055, -8690, -8299, -7887, -7456, -7008,
    -6547, -6076, -5599, -5117, -4635, -4156, -3684, -3221, -2771, -2337, -1923, -1530,
    -1163, -824, -516, -240, 0, 203, 367, 491, 573, 612, 607, 558,
    465, 327, 145, -80, -347, -656, -1004, -1390, -1812, -2268, -2754, -3269,
    -3809, -4371, -4952, -5547, -6154, -6768, -7385, -8001, -8612, -9215, -9803, -10374,
    -10922, -11445, -11936, -12394, -12812, -13189, -13519, -13800, -14028, -14200, -14314, -14366,
    -14354, -14277, -14132, -13918, -13634, -13280, -12854, -12357, -11789, -11151, -10443, -9667,
    -8824, -7917, -6948, -5919, -4834, -3696, -2508, -1275, 0, 1312, 2657, 4030,
    5425, 6838, 8264, 9696, 11131, 12561, 13981, 15387, 16771, 18130, 19457, 20746,
    21994, 23194, 24342, 25433, 26463, 27426, 28321, 29141, 29885, 30549, 31130, 31626,
    32034, 32354, 32583, 32721, 32767,
];

/// Band-limited pulse train of zone 13: the cosine harmonics below 48 kHz of MIDI note 136, normalized to full range.
#[verifier::opaque]
pub const WAV_BANDLIMITED_COMB_13: [i16; 257] = [
    32767, 32742, 32668, 32545, 32373, 32153, 31884, 31568, 31205, 30796, 30341, 29843,
    29300, 28716, 28090, 27425, 26721, 25980, 25204, 24394, 23551, 22678, 21776, 20847,
    19892, 18914, 17915, 16897, 15861, 14810, 13745, 12670, 11585, 10493, 9397, 8297,
    7197, 6099, 5004, 3914, 2832, 1760, 700, -347, -1379, -2393, -3389, -4363,
    -5315, -6243, -7145, -8020, -8867, -9683, -10468, -11221, -11940, -12625, -13274, -13887,
    -14463, -15001, -15501, -15962, -16383, -16766, -17109, -17411, -17675, -17898, -18082, -18227,
    -18333, -18400, -18430, -18422, -18378, -18299, -18184, -18036, -17855, -17642, -17398, -17126,
    -16825, -16498, -16146, -15770, -15372, -14953, -14516, -14061, -13590, -13105, -12608, -12101,
    -11585, -11062, -10534, -10002, -9468, -8935, -8403, -7875, -7353, -6837, -6329, -5832,
    -5347, -4875, -4417, -3975, -3551, -3146, -2761, -2397, -2056, -1737, -1444, -1175,
    -932, -717, -528, -368, -236, -133, -59, -15, 0, -15, -59, -133,
    -236, -368, -528, -717, -932, -1175, -1444, -1737, -2056, -2397, -2761, -3146,
    -3551, -3975, -4417, -4875, -5347, -5832, -6329, -6837, -7353, -7875, -8403, -8935,
    -9468, -10002, -10534, -11062, -11585, -12101, -12608, -13105, -13590, -14061, -14516, -14953,
    -15372, -15770, -16146, -16498, -16825, -17126, -17398, -17642, -17855, -18036, -18184, -18299,
    -18378, -18422, -18430, -18400, -18333, -18227, -18082, -17898, -17675, -17411, -17109, -16766,
    -16384, -15962, -15501, -15001, -14463, -13887, -13274, -12625, -11940, -11221, -10468, -9683,
    -8867, -8020, -7145, -6243, -5315, -4363, -3389, -2393, -1379, -347, 700, 1760,
    2832, 3914, 5004, 6099, 7197, 8297, 9397, 10493, 11585, 12670, 13745, 14810,
    15861, 16897, 17915, 18914, 19892, 20847, 21776, 22678, 23551, 24394, 25204, 25980,
    26721, 27425, 28090, 28716, 29300, 29843, 30341, 30796, 31205, 31568, 31884, 32153,
    32373, 32545, 32668, 32742, 32767,
];

/// Band-limited pulse train of zone 14: the cosine harmonics below 48 kHz of MIDI note 144, normalized to full range.
#[verifier::opaque]
pub const WAV_BANDLIMITED_COMB_14: [i16; 257] = [
    32767, 32757, 32728, 32678, 32609, 32521, 32412, 32285, 32137, 31971, 31785, 31580,
    31356, 31113, 30852, 30571, 30273, 29956, 29621, 29268, 28898, 28510, 28105, 27683,
    27245, 26790, 26319, 25832, 25329, 24811, 24279, 23731, 23170, 22594, 22005, 21403,
    20787, 20159, 19519, 18868, 18204, 17530, 16846, 16151, 15446, 14732, 14010, 13279,
    12539, 11793, 11039, 10278, 9512, 8739, 7962, 7179, 6393, 5602, 4808, 4011,
    3212, 2410, 1608, 804, 0, -804, -1608, -2410, -3212, -4011, -4808, -5602,
    -6393, -7179, -7962, -8739, -9512, -10278, -11039, -11793, -12539, -13279, -14010, -14732,
    -15446, -16151, -16846, -17530, -18204, -18868, -19519, -20159, -20787, -21403, -22005, -22594,
    -23170, -23731, -24279, -24811, -25329, -25832, -26319, -26790, -27245, -27683, -28105, -28510,
    -28898, -29268, -29621, -29956, -30273, -30571, -30852, -31113, -31356, -31580, -31785, -31971,
    -32137, -32285, -32412, -32521, -32609, -32678, -32728, -32757, -32767, -32757, -32728, -32678,
    -32609, -32521, -32412, -32285, -32137, -31971, -31785, -31580, -31356, -31113, -30852, -30571,
    -30273, -29956, -29621, -29268, -28898, -28510, -28105, -27683, -27245, -26790, -26319, -25832,
    -25329, -24811, -24279, -23731, -23170, -22594, -22005, -21403, -20787, -20159, -19519, -18868,
    -18204, -17530, -16846, -16151, -15446, -14732, -14010, -13279, -12539, -11793, -11039, -10278,
    -9512, -8739, -7962, -7179, -6393, -5602, -4808, -4011, -3212, -2410, -1608, -804,
    0, 804, 1608, 2410, 3212, 4011, 4808, 5602, 6393, 7179, 7962, 8739,
    9512, 10278, 11039, 11793, 12539, 13279, 14010, 14732, 15446, 16151, 16846, 17530,
    18204, 18868, 19519, 20159, 20787, 21403, 22005, 22594, 23170, 23731, 24279, 24811,
    25329, 25832, 26319, 26790, 27245, 27683, 28105, 28510, 28898, 29268, 29621, 29956,
    30273, 30571, 30852, 31113, 31356, 31580, 31785, 31971, 32137, 32285, 32412, 32521,
    32609, 32678, 32728, 32757, 32767,
];

} // verus!
