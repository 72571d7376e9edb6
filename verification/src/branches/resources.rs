//! Lookup tables of the dual Bernoulli gate.
use vstd::prelude::*;

verus! {

/// `linear_table`: an 8-bit ADC reading scaled linearly onto the full 16-bit
/// threshold range (entry `i` is `i * 65535 / 255`).
pub const LINEAR_TABLE: [u16; 256] = [
    0, 257, 514, 771, 1028, 1285, 1542, 1799,
    2056, 2313, 2570, 2827, 3084, 3341, 3598, 3855,
    4112, 4369, 4626, 4883, 5140, 5397, 5654, 5911,
    6168, 6425, 6682, 6939, 7196, 7453, 7710, 7967,
    8224, 8481, 8738, 8995, 9252, 9509, 9766, 10023,
    10280, 10537, 10794, 11051, 11308, 11565, 11822, 12079,
    12336, 12593, 12850, 13107, 13364, 13621, 13878, 14135,
    14392, 14649, 14906, 15163, 15420, 15677, 15934, 16191,
    16448, 16705, 16962, 17219, 17476, 17733, 17990, 18247,
    18504, 18761, 19018, 19275, 19532, 19789, 20046, 20303,
    20560, 20817, 21074, 21331, 21588, 21845, 22102, 22359,
    22616, 22873, 23130, 23387, 23644, 23901, 24158, 24415,
    24672, 24929, 25186, 25443, 25700, 25957, 26214, 26471,
    26728, 26985, 27242, 27499, 27756, 28013, 28270, 28527,
    28784, 29041, 29298, 29555, 29812, 30069, 30326, 30583,
    30840, 31097, 31354, 31611, 31868, 32125, 32382, 32639,
    32896, 33153, 33410, 33667, 33924, 34181, 34438, 34695,
    34952, 35209, 35466, 35723, 35980, 36237, 36494, 36751,
    37008, 37265, 37522, 37779, 38036, 38293, 38550, 38807,
    39064, 39321, 39578, 39835, 40092, 40349, 40606, 40863,
    41120, 41377, 41634, 41891, 42148, 42405, 42662, 42919,
    43176, 43433, 43690, 43947, 44204, 44461, 44718, 44975,
    45232, 45489, 45746, 46003, 46260, 46517, 46774, 47031,
    47288, 47545, 47802, 48059, 48316, 48573, 48830, 49087,
    49344, 49601, 49858, 50115, 50372, 50629, 50886, 51143,
    51400, 51657, 51914, 52171, 52428, 52685, 52942, 53199,
    53456, 53713, 53970, 54227, 54484, 54741, 54998, 55255,
    55512, 55769, 56026, 56283, 56540, 56797, 57054, 57311,
    57568, 57825, 58082, 58339, 58596, 58853, 59110, 59367,
    59624, 59881, 60138, 60395, 60652, 60909, 61166, 61423,
    61680, 61937, 62194, 62451, 62708, 62965, 63222, 63479,
    63736, 63993, 64250, 64507, 64764, 65021, 65278, 65535,
];

} // verus!
