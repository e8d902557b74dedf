//! Bold font: packed glyph bitmaps with per-block offset tables.

use vstd::prelude::*;

verus! {

/// Tallest extent (height + y offset) of any glyph in this font.
pub const MAX_HEIGHT: u8 = 30;

/// Offsets into the packed data for code points U+0020..=U+007E.
pub const BASIC_LATIN: [u16; 95] = [
    0,  // U+0020  
    2,  // U+0021 !
    5,  // U+0022 "
    7,  // U+0023 #
    13,  // U+0024 $
    22,  // U+0025 %
    32,  // U+0026 &
    43,  // U+0027 apostrophe
    45,  // U+0028 (
    51,  // U+0029 )
    57,  // U+002A *
    62,  // U+002B +
    67,  // U+002C ,
    69,  // U+002D -
    71,  // U+002E .
    73,  // U+002F /
    81,  // U+0030 0
    90,  // U+0031 1
    94,  // U+0032 2
    103,  // U+0033 3
    112,  // U+0034 4
    122,  // U+0035 5
    131,  // U+0036 6
    140,  // U+0037 7
    149,  // U+0038 8
    158,  // U+0039 9
    167,  // U+003A :
    170,  // U+003B ;
    174,  // U+003C <
    179,  // U+003D =
    183,  // U+003E >
    188,  // U+003F ?
    197,  // U+0040 @
    207,  // U+0041 A
    217,  // U+0042 B
    226,  // U+0043 C
    235,  // U+0044 D
    244,  // U+0045 E
    252,  // U+0046 F
    260,  // U+0047 G
    269,  // U+0048 H
    278,  // U+0049 I
    281,  // U+004A J
    290,  // U+004B K
    299,  // U+004C L
    307,  // U+004D M
    317,  // U+004E N
    326,  // U+004F O
    335,  // U+0050 P
    344,  // U+0051 Q
    354,  // U+0052 R
    363,  // U+0053 S
    372,  // U+0054 T
    382,  // U+0055 U
    391,  // U+0056 V
    401,  // U+0057 W
    413,  // U+0058 X
    421,  // U+0059 Y
    429,  // U+005A Z
    437,  // U+005B [
    442,  // U+005C backslash
    450,  // U+005D ]
    455,  // U+005E ^
    458,  // U+005F _
    461,  // U+0060 `
    463,  // U+0061 a
    469,  // U+0062 b
    477,  // U+0063 c
    483,  // U+0064 d
    491,  // U+0065 e
    497,  // U+0066 f
    504,  // U+0067 g
    512,  // U+0068 h
    520,  // U+0069 i
    523,  // U+006A j
    530,  // U+006B k
    538,  // U+006C l
    541,  // U+006D m
    551,  // U+006E n
    557,  // U+006F o
    563,  // U+0070 p
    571,  // U+0071 q
    579,  // U+0072 r
    585,  // U+0073 s
    591,  // U+0074 t
    598,  // U+0075 u
    604,  // U+0076 v
    610,  // U+0077 w
    620,  // U+0078 x
    626,  // U+0079 y
    636,  // U+007A z
    642,  // U+007B {
    648,  // U+007C |
    652,  // U+007D }
    658,  // U+007E ~
];

/// Offsets into the packed data for code points U+00A0..=U+00FF.
pub const LATIN_1: [u16; 96] = [
    661,  // U+00A0
    663,  // U+00A1
    666,  // U+00A2
    674,  // U+00A3
    683,  // U+00A4
    691,  // U+00A5
    699,  // U+00A6
    703,  // U+00A7
    713,  // U+00A8
    715,  // U+00A9
    725,  // U+00AA
    730,  // U+00AB
    736,  // U+00AC
    740,  // U+00AD
    742,  // U+00AE
    752,  // U+00AF
    754,  // U+00B0
    758,  // U+00B1
    764,  // U+00B2
    768,  // U+00B3
    772,  // U+00B4
    774,  // U+00B5
    785,  // U+00B6
    797,  // U+00B7
    799,  // U+00B8
    801,  // U+00B9
    805,  // U+00BA
    810,  // U+00BB
    816,  // U+00BC
    829,  // U+00BD
    842,  // U+00BE
    855,  // U+00BF
    863,  // U+00C0
    876,  // U+00C1
    889,  // U+00C2
    902,  // U+00C3
    915,  // U+00C4
    927,  // U+00C5
    939,  // U+00C6
    952,  // U+00C7
    963,  // U+00C8
    973,  // U+00C9
    983,  // U+00CA
    993,  // U+00CB
    1002,  // U+00CC
    1007,  // U+00CD
    1012,  // U+00CE
    1019,  // U+00CF
    1025,  // U+00D0
    1035,  // U+00D1
    1046,  // U+00D2
    1057,  // U+00D3
    1068,  // U+00D4
    1079,  // U+00D5
    1090,  // U+00D6
    1100,  // U+00D7
    1105,  // U+00D8
    1116,  // U+00D9
    1127,  // U+00DA
    1138,  // U+00DB
    1149,  // U+00DC
    1159,  // U+00DD
    1169,  // U+00DE
    1177,  // U+00DF
    1186,  // U+00E0
    1194,  // U+00E1
    1202,  // U+00E2
    1210,  // U+00E3
    1218,  // U+00E4
    1226,  // U+00E5
    1236,  // U+00E6
    1246,  // U+00E7
    1254,  // U+00E8
    1262,  // U+00E9
    1270,  // U+00EA
    1278,  // U+00EB
    1286,  // U+00EC
    1291,  // U+00ED
    1296,  // U+00EE
    1302,  // U+00EF
    1307,  // U+00F0
    1315,  // U+00F1
    1323,  // U+00F2
    1331,  // U+00F3
    1339,  // U+00F4
    1347,  // U+00F5
    1355,  // U+00F6
    1363,  // U+00F7
    1368,  // U+00F8
    1376,  // U+00F9
    1384,  // U+00FA
    1392,  // U+00FB
    1400,  // U+00FC
    1408,  // U+00FD
    1420,  // U+00FE
    1429,  // U+00FF
];

/// Offsets into the packed data for code points U+0152..=U+0153.
pub const LATIN_EXTENDED_A: [u16; 2] = [
    1440,  // U+0152
    1453,  // U+0153
];

/// Offsets into the packed data for code points U+2018..=U+2022.
pub const GENERAL_PUNCTUATION: [u16; 11] = [
    1463,  // U+2018
    1465,  // U+2019
    1467,  // U+201A
    1469,  // U+201B
    1471,  // U+201C
    1475,  // U+201D
    1479,  // U+201E
    1483,  // U+201F
    1487,  // U+2020
    1495,  // U+2021
    1504,  // U+2022
];

/// Offsets into the packed data for code points U+20AC..=U+20AC.
pub const CURRENCY_SYMBOLS: [u16; 1] = [
    1510,  // U+20AC
];

/// Offsets into the packed data for code points U+FFFD..=U+FFFD.
pub const SPECIALS: [u16; 1] = [
    1520,  // U+FFFD
];

/// Packed glyph records, words 0..88.
pub const DATA_0: [u32; 88] = [
    0x0006020e, 0x00000000, 0x00031206, 0xffffffff, 0xffc0fc00, 0x00080406, 0xffffffff, 0x00100a06,
    0x03fc03fc, 0x3fff3fff, 0x0ff00ff0, 0xfffcfffc, 0x3fc03fc0, 0x000b1604, 0x0e01c0fe, 0x1fceefdd,
    0xfb87703e, 0x07c03e07, 0xc0ee1dc3, 0xb877eefd, 0xdcfe1fc0, 0xe01c0000, 0x00101206, 0x3fff3fff,
    0xf3cff3cf, 0xf3fcf3fc, 0x3ff03ff0, 0x03c003c0, 0x0ffc0ffc, 0x3fcf3fcf, 0xf3cff3cf, 0xf0fcf0fc,
    0x00111206, 0x0f8007c0, 0x0e38071c, 0x03b801dc, 0x0038001c, 0x003b801d, 0xc0383b9c, 0x1dce0387,
    0x01c383b9, 0xc1dc3f83, 0x9fc1c000, 0x00040406, 0xffff0000, 0x00071604, 0x0e1ce1c3, 0x873870e1,
    0xc3870e1c, 0x38703870, 0xe1c0e1c0, 0x00071604, 0xe1c0e1c3, 0x8703870e, 0x1c3870e1, 0xc3873870,
    0xe1ce1c00, 0x000c0a08, 0x0f00f0ff, 0xffff3fc3, 0xfc3fc3fc, 0xf0ff0f00, 0x000c0a0a, 0x0f00f00f,
    0x00f0ffff, 0xff0f00f0, 0x0f00f000, 0x00050616, 0x39ce7e70, 0x000c020e, 0xffffff00, 0x00040216,
    0xff000000, 0x000b1404, 0x00e01c03, 0x80703807, 0x00e01c0e, 0x01c03807, 0x0380700e, 0x01c0e01c,
    0x03807000, 0x000e1206, 0x0fc03f03, 0xcf0f3cf0, 0x3fc0ff03, 0xfc0ff03f, 0xc0ff03fc, 0x0ff03fc0,
];

/// Packed glyph records, words 88..176.
pub const DATA_1: [u32; 88] = [
    0xf3cf0f3c, 0x0fc03f00, 0x00051206, 0x39fff39c, 0xe739ce73, 0x9ce739c0, 0x000e1206, 0x0ff03fc3,
    0xc3cf0ff0, 0x3fc0f003, 0xc00f00f0, 0x03c03c00, 0xf00f003c, 0x03c00f00, 0xfffffff0, 0x000e1206,
    0xfffffff0, 0x0f003c03, 0xc00f00fc, 0x03f000f0, 0x03c003c0, 0x0f003c00, 0xff0f3c3c, 0x3fc0ff00,
    0x00101206, 0x003c003c, 0x00fc00fc, 0x03fc03fc, 0x0f3c0f3c, 0x3c3c3c3c, 0xf03cf03c, 0xffffffff,
    0x003c003c, 0x003c003c, 0x000e1206, 0xffffffff, 0x003c00f0, 0x03c00fff, 0x3ffc003c, 0x00f003c0,
    0x0f003c00, 0xff03fc0f, 0x3ff0ffc0, 0x000e1206, 0x0ff03fc3, 0xc00f00f0, 0x03c00fff, 0x3ffcf03f,
    0xc0ff03fc, 0x0ff03fc0, 0xff03fc0f, 0x3ff0ffc0, 0x000e1206, 0xfffffff0, 0x03c00f00, 0xf003c00f,
    0x003c03c0, 0x0f003c00, 0xf00f003c, 0x00f003c0, 0x0f003c00, 0x000e1206, 0x3ff0ffcf, 0x03fc0ff0,
    0x3fc0f3ff, 0x0ffcf03f, 0xc0ff03fc, 0x0ff03fc0, 0xff03fc0f, 0x3ff0ffc0, 0x000e1206, 0x3ff0ffcf,
    0x03fc0ff0, 0x3fc0ff03, 0xfc0ff03f, 0xc0f3ffcf, 0xff003c00, 0xf00f003c, 0x3fc0ff00, 0x00040c0c,
    0xff000000, 0x00ff0000, 0x0006100c, 0x3cf00000, 0x00000003, 0xcf3cff3c, 0x00090e0a, 0x0381c381,
];

/// Packed glyph records, words 176..264.
pub const DATA_2: [u32; 88] = [
    0xc381c381, 0xc0381c03, 0x81c0381c, 0x000c080e, 0xffffff00, 0x00000000, 0x00ffffff, 0x00090e0a,
    0xe0700e07, 0x00e0700e, 0x070e070e, 0x070e0700, 0x000e1206, 0x3ff0ffcf, 0x03fc0ff0, 0x3fc0f00f,
    0x003c03c0, 0x0f00f003, 0xc00f003c, 0x00000000, 0x0f003c00, 0x00121008, 0x0ffc03ff, 0x03c0f0f0,
    0x3cf3fffc, 0xfffff3ff, 0xfcffff3f, 0xffcfff3f, 0xf3cffc3c, 0x000f0000, 0xff003fc0, 0x00101206,
    0x03c003c0, 0x03c003c0, 0x0ff00ff0, 0x0ff00ff0, 0x3c3c3c3c, 0x3c3c3c3c, 0xffffffff, 0xf00ff00f,
    0xf00ff00f, 0x000e1206, 0xfff3ffcf, 0x03fc0ff0, 0x3fc0ffff, 0x3ffcf03f, 0xc0ff03fc, 0x0ff03fc0,
    0xff03fc0f, 0xfff3ffc0, 0x000e1206, 0x3ff0ffcf, 0x03fc0ff0, 0x03c00f00, 0x3c00f003, 0xc00f003c,
    0x00f003c0, 0x0f03fc0f, 0x3ff0ffc0, 0x000e1206, 0xffc3ff0f, 0x0f3c3cf0, 0x3fc0ff03, 0xfc0ff03f,
    0xc0ff03fc, 0x0ff03fc0, 0xff0f3c3c, 0xffc3ff00, 0x000c1206, 0xfffffff0, 0x0f00f00f, 0x00f00f00,
    0xffcffcf0, 0x0f00f00f, 0x00f00f00, 0xffffff00, 0x000c1206, 0xfffffff0, 0x0f00f00f, 0x00f00f00,
    0xffcffcf0, 0x0f00f00f, 0x00f00f00, 0xf00f0000, 0x000e1206, 0x3ff0ffcf, 0x03fc0ff0, 0x03c00f00,
];

/// Packed glyph records, words 264..352.
pub const DATA_3: [u32; 88] = [
    0x3c00f3ff, 0xcfff03fc, 0x0ff03fc0, 0xff03fc0f, 0x3ff0ffc0, 0x000e1206, 0xf03fc0ff, 0x03fc0ff0,
    0x3fc0ff03, 0xfc0fffff, 0xffff03fc, 0x0ff03fc0, 0xff03fc0f, 0xf03fc0f0, 0x00031206, 0xffffffff,
    0xfffffc00, 0x000e1206, 0x003c00f0, 0x03c00f00, 0x3c00f003, 0xc00f003c, 0x00f003c0, 0x0ff03fc0,
    0xff03fc0f, 0x3ff0ffc0, 0x000e1206, 0xf03fc0ff, 0x0f3c3cf3, 0xc3cf0ff0, 0x3fc0fc03, 0xf00ff03f,
    0xc0f3c3cf, 0x0f0f3c3c, 0xf03fc0f0, 0x000c1206, 0xf00f00f0, 0x0f00f00f, 0x00f00f00, 0xf00f00f0,
    0x0f00f00f, 0x00f00f00, 0xffffff00, 0x00101206, 0xf00ff00f, 0xfc3ffc3f, 0xffffffff, 0xf3cff3cf,
    0xf00ff00f, 0xf00ff00f, 0xf00ff00f, 0xf00ff00f, 0xf00ff00f, 0x000e1206, 0xfc3ff0ff, 0xc3ff0fff,
    0x3ffcfff3, 0xffcff3ff, 0xcfff3ffc, 0xfff0ffc3, 0xff0ffc3f, 0xf03fc0f0, 0x000e1206, 0x3ff0ffcf,
    0x03fc0ff0, 0x3fc0ff03, 0xfc0ff03f, 0xc0ff03fc, 0x0ff03fc0, 0xff03fc0f, 0x3ff0ffc0, 0x000e1206,
    0xfff3ffcf, 0x03fc0ff0, 0x3fc0ff03, 0xfc0ffff3, 0xffcf003c, 0x00f003c0, 0x0f003c00, 0xf003c000,
    0x000d1606, 0x3fe1ff38, 0x0fc07e03, 0xf01f80fc, 0x07e03f01, 0xf80fc07e, 0x03f01f80, 0xfc073fe1,
];

/// Packed glyph records, words 352..440.
pub const DATA_4: [u32; 88] = [
    0xff00e007, 0x000f807c, 0x000e1206, 0xfff3ffcf, 0x03fc0ff0, 0x3fc0ff03, 0xfc0ffff3, 0xffcf3c3c,
    0xf0f0f3c3, 0xcf03fc0f, 0xf03fc0f0, 0x000e1206, 0x3ff0ffcf, 0x03fc0ff0, 0x03c00f00, 0x3c003ff0,
    0xffc003c0, 0x0f003c00, 0xff03fc0f, 0x3ff0ffc0, 0x00101206, 0xffffffff, 0x03c003c0, 0x03c003c0,
    0x03c003c0, 0x03c003c0, 0x03c003c0, 0x03c003c0, 0x03c003c0, 0x03c003c0, 0x000e1206, 0xf03fc0ff,
    0x03fc0ff0, 0x3fc0ff03, 0xfc0ff03f, 0xc0ff03fc, 0x0ff03fc0, 0xff03fc0f, 0x3ff0ffc0, 0x00101206,
    0xf00ff00f, 0xf00ff00f, 0xf00ff00f, 0x3c3c3c3c, 0x3c3c3c3c, 0x0ff00ff0, 0x0ff00ff0, 0x03c003c0,
    0x03c003c0, 0x00131206, 0xe000fc00, 0x1f8003f0, 0x007e0e0f, 0xc1c1ce38, 0xe1c71c3b, 0xbb877770,
    0xeeee1ddd, 0xc0e0e01c, 0x1c038380, 0x70700e0e, 0x01c1c000, 0x000c1206, 0xf0ff0ff0, 0xff0f3fc3,
    0xfc3fc3fc, 0x0f00f03f, 0xc3fc3fc3, 0xfcf0ff0f, 0xf0ff0f00, 0x000c1206, 0xf0ff0ff0, 0xff0ff0ff,
    0x0f3fc3fc, 0x3fc3fc0f, 0x00f00f00, 0xf00f00f0, 0x0f00f000, 0x000c1206, 0xffffff00, 0xf00f03c0,
    0x3c03c03c, 0x0f00f03c, 0x03c03c03, 0xc0f00f00, 0xffffff00, 0x00051604, 0xfff9ce73, 0x9ce739ce,
];

/// Packed glyph records, words 440..528.
pub const DATA_5: [u32; 88] = [
    0x739ce739, 0xcffc0000, 0x000b1404, 0xe01c0380, 0x70038070, 0x0e01c00e, 0x01c03807, 0x00380700,
    0xe01c00e0, 0x1c038070, 0x00051604, 0xffce739c, 0xe739ce73, 0x9ce739ce, 0x7ffc0000, 0x00080806,
    0x3c3c3c3c, 0xffffffff, 0x00120216, 0xffffffff, 0xf0000000, 0x00060406, 0xf3c3cf00, 0x000b0e0a,
    0x3f87f383, 0xf0700e01, 0xcff9ffe0, 0xfc1f83f0, 0x73fe7fc0, 0x000c1206, 0xf00f00f0, 0x0f00ffcf,
    0xfcf0ff0f, 0xf0ff0ff0, 0xff0ff0ff, 0x0ff0ff0f, 0xffcffc00, 0x000b0e0a, 0x3f87f383, 0xf07e01c0,
    0x380700e0, 0x1c0383f0, 0x73f87f00, 0x000c1206, 0x00f00f00, 0xf00f3ff3, 0xfff0ff0f, 0xf0ff0ff0,
    0xff0ff0ff, 0x0ff0ff0f, 0x3ff3ff00, 0x000b0e0a, 0x3f87f383, 0xf07e0fc1, 0xffffffe0, 0x1c0383f0,
    0x73f87f00, 0x000a1206, 0x0fc3f3c0, 0xf0ff3fc3, 0xc0f03c0f, 0x03c0f03c, 0x0f03c0f0, 0x3c0f0000,
    0x000b140a, 0x3fe7ff83, 0xf07e0fc1, 0xf83f07e0, 0xfc1f83f0, 0x73fe7fc0, 0x3807e0fc, 0x1cfe1fc0,
    0x000c1206, 0xf00f00f0, 0x0f00ffcf, 0xfcfcffcf, 0xf0ff0ff0, 0xff0ff0ff, 0x0ff0ff0f, 0xf0ff0f00,
    0x00031206, 0xfc0fffff, 0xfffffc00, 0x00081806, 0x0f0f0000, 0x0f0f0f0f, 0x0f0f0f0f, 0x0f0f0f0f,
];

/// Packed glyph records, words 528..616.
pub const DATA_6: [u32; 88] = [
    0x0f0f0f0f, 0x0f0ffcfc, 0x000c1206, 0xf00f00f0, 0x0f00f0ff, 0x0ff3cf3c, 0xff0ff0fc, 0x0fc0ff0f,
    0xf0f3cf3c, 0xf0ff0f00, 0x00031206, 0xffffffff, 0xfffffc00, 0x00140e0a, 0xffcfcffc, 0xfcfcfcff,
    0xcfcff0f0, 0xff0f0ff0, 0xf0ff0f0f, 0xf0f0ff0f, 0x0ff0f0ff, 0x0f0ff0f0, 0xff0f0f00, 0x000b0e0a,
    0xef9df3e3, 0xfc7e0fc1, 0xf83f07e0, 0xfc1f83f0, 0x7e0fc1c0, 0x000b0e0a, 0x3f87f383, 0xf07e0fc1,
    0xf83f07e0, 0xfc1f83f0, 0x73f87f00, 0x000c120a, 0xffcffcf0, 0xff0ff0ff, 0x0ff0ff0f, 0xf0ff0ff0,
    0xff0fffcf, 0xfcf00f00, 0xf00f0000, 0x000c120a, 0x3ff3fff0, 0xff0ff0ff, 0x0ff0ff0f, 0xf0ff0ff0,
    0xff0f3ff3, 0xff00f00f, 0x00f00f00, 0x000b0e0a, 0xeffdffe0, 0x7c0e01c0, 0x380700e0, 0x1c038070,
    0x0e01c000, 0x000b0e0a, 0x3f87f383, 0xf07e01c0, 0x0fe1fc00, 0xe01f83f0, 0x73f87f00, 0x000a1206,
    0x3c0f03c0, 0xf0ff3fc3, 0xc0f03c0f, 0x03c0f03c, 0x0f03c0f0, 0x0fc3f000, 0x000b0e0a, 0xe0fc1f83,
    0xf07e0fc1, 0xf83f07e0, 0xfc1f8ff1, 0xf3ee7dc0, 0x000b0e0a, 0xe0fc1f83, 0xf07e0fc1, 0xcee1dc3b,
    0x87703807, 0x00e01c00, 0x00140e0a, 0xf0f0ff0f, 0x0ff0f0ff, 0x0f0f3fff, 0xc3fffc3f, 0xffc3fffc,
];

/// Packed glyph records, words 616..704.
pub const DATA_7: [u32; 88] = [
    0x0f0f00f0, 0xf00f0f00, 0xf0f00f0f, 0x00f0f000, 0x000b0e0a, 0xe0fc1f83, 0xf073b877, 0x0380703b,
    0x877383f0, 0x7e0fc1c0, 0x000e140a, 0x3c3cf0f3, 0xc3cf0f3c, 0x3cf0f0ff, 0x03fc0ff0, 0x3fc03c00,
    0xf003c00f, 0x00f003c0, 0x0f003c0f, 0xc03f0000, 0x000b0e0a, 0xfffffc03, 0x80703807, 0x03807038,
    0x07038070, 0x0fffffc0, 0x00071604, 0x0e1ce1c3, 0x870e1c38, 0x73870387, 0x0e1c3870, 0xe1c0e1c0,
    0x00041604, 0xffffffff, 0xffffffff, 0xffffff00, 0x00071604, 0xe1c0e1c3, 0x870e1c38, 0x70387387,
    0x0e1c3870, 0xe1ce1c00, 0x000e0406, 0x3f3cfcff, 0x3f3cfc00, 0x0006020e, 0x00000000, 0x00031206,
    0xfc0fffff, 0xfffffc00, 0x000c1208, 0x0f00f03f, 0xc3fcffff, 0xffff0ff0, 0xff0ff0ff, 0x0ff0ffff,
    0xff3fc3fc, 0x0f00f000, 0x000e1206, 0x03f00fc0, 0xf003c00f, 0x003c00f0, 0x03c0ffc3, 0xff03c00f,
    0x003c00f0, 0x03c00f00, 0xfffffff0, 0x000e1006, 0x3cf0f3c0, 0xfc03f03c, 0xf0f3cf03, 0xfc0ff03f,
    0xc0f3cf0f, 0x3c0fc03f, 0x03cf0f3c, 0x000c1206, 0xf0ff0f3f, 0xc3fcffff, 0xff0f00f0, 0xffffff0f,
    0x00f00f00, 0xf00f00f0, 0x0f00f000, 0x00041604, 0xffffffff, 0xff00ffff, 0xffffff00, 0x000d1606,
];

/// Packed glyph records, words 704..792.
pub const DATA_8: [u32; 88] = [
    0x3fe1ff38, 0x0fc07e00, 0x7000f807, 0xc0e3e71f, 0x380fc073, 0xe39f1c0f, 0x807c0038, 0x01f80fc0,
    0x73fe1ff0, 0x00080206, 0xffff0000, 0x00121008, 0x0ffc03ff, 0x03c0f0f0, 0x3cf3f3fc, 0xfcfff03f,
    0xfc0fff03, 0xffc0ff3f, 0x3fcfcf3c, 0x0f0f03c0, 0xffc03ff0, 0x00090e06, 0x3e1f00e0, 0x73f9ff8f,
    0xc73f9fc0, 0x000ffffc, 0x000e0a0e, 0x0f3c3cf3, 0xcf0f3cf3, 0xc3cf03cf, 0x0f3c0f3c, 0x3cf00000,
    0x000c060e, 0xffffff00, 0xf00f00f0, 0x0f000000, 0x000c020e, 0xffffff00, 0x00121008, 0x0ffc03ff,
    0x03c0f0f0, 0x3cfff3ff, 0xfcfff3ff, 0xfcfffff3, 0xfffcfff3, 0xfffcff3c, 0x0f0f03c0, 0xffc03ff0,
    0x00080206, 0xffff0000, 0x000a0806, 0x3f0fcf3f, 0xcff3fcf3, 0xf0fc0000, 0x000b0e0a, 0x0e01c038,
    0x070fffff, 0xc380700e, 0x01c00000, 0x0fffffc0, 0x00080a02, 0xffff0f0f, 0xfffff0f0, 0xffff0000,
    0x00080a02, 0xffff0f0f, 0xffff0f0f, 0xffff0000, 0x00060406, 0x3cff3c00, 0x0011120a, 0x038381c1,
    0xc0e0e070, 0x70e0e070, 0x7038381c, 0x1c0e0e07, 0x070e0e07, 0x0703fee1, 0xff738001, 0xc000e000,
    0x70000000, 0x00101606, 0x3fff3fff, 0xfffcfffc, 0xfffcfffc, 0xfffcfffc, 0x3ffc3ffc, 0x03fc03fc,
];

/// Packed glyph records, words 792..880.
pub const DATA_9: [u32; 88] = [
    0x03fc03fc, 0x03fc03fc, 0x03fc03fc, 0x03fc03fc, 0x03fc03fc, 0x00040210, 0xff000000, 0x00050618,
    0xe70e7ffc, 0x00080a02, 0x3c3cfcfc, 0x3c3c3c3c, 0xffff0000, 0x00090e06, 0x3e1f38fc, 0x7e3f1f8f,
    0xc73e1f00, 0x000ffffc, 0x000e0a0e, 0xf3c3cf03, 0xcf0f3c0f, 0x3c3cf3cf, 0x0f3cf3c3, 0xcf000000,
    0x00131402, 0x380e0701, 0xc3e0387c, 0x07038380, 0x70700e0e, 0x01c1c0fe, 0xe01fdc00, 0x03bb8077,
    0x7038ee07, 0x1dc0e3f8, 0x1c7f0e00, 0xe1c01c38, 0x03870070, 0x00131402, 0x380e0701, 0xc3e0387c,
    0x07038380, 0x70700e0e, 0x01c1c0fe, 0xe01fdc00, 0x03bf8077, 0xf0380e07, 0x01c0e3f8, 0x1c7f0e0e,
    0x01c1c038, 0x3f8707f0, 0x00131402, 0xfe0e1fc1, 0xc0383807, 0x070fe381, 0xfc70038e, 0x0071c0fe,
    0xe01fdc00, 0x03bb8077, 0x7038ee07, 0x1dc0e3f8, 0x1c7f0e00, 0xe1c01c38, 0x03870070, 0x000c1206,
    0x0f00f000, 0x00000f00, 0xf00f00f0, 0x3c03c0f0, 0x0f00f0ff, 0x0ff0ff0f, 0x3fc3fc00, 0x00101800,
    0x0f000f00, 0x03c003c0, 0x00000000, 0x03c003c0, 0x03c003c0, 0x0ff00ff0, 0x0ff00ff0, 0x3c3c3c3c,
    0x3c3c3c3c, 0xffffffff, 0xf00ff00f, 0xf00ff00f, 0x00101800, 0x00f000f0, 0x03c003c0, 0x00000000,
];

/// Packed glyph records, words 880..968.
pub const DATA_10: [u32; 88] = [
    0x03c003c0, 0x03c003c0, 0x0ff00ff0, 0x0ff00ff0, 0x3c3c3c3c, 0x3c3c3c3c, 0xffffffff, 0xf00ff00f,
    0xf00ff00f, 0x00101800, 0x03c003c0, 0x0ff00ff0, 0x00000000, 0x03c003c0, 0x03c003c0, 0x0ff00ff0,
    0x0ff00ff0, 0x3c3c3c3c, 0x3c3c3c3c, 0xffffffff, 0xf00ff00f, 0xf00ff00f, 0x00101800, 0x0fcf0fcf,
    0x3cfc3cfc, 0x00000000, 0x03c003c0, 0x03c003c0, 0x0ff00ff0, 0x0ff00ff0, 0x3c3c3c3c, 0x3c3c3c3c,
    0xffffffff, 0xf00ff00f, 0xf00ff00f, 0x00101602, 0x0ff00ff0, 0x00000000, 0x03c003c0, 0x03c003c0,
    0x0ff00ff0, 0x0ff00ff0, 0x3c3c3c3c, 0x3c3c3c3c, 0xffffffff, 0xf00ff00f, 0xf00ff00f, 0x00101602,
    0x03c003c0, 0x0ff00ff0, 0x03c003c0, 0x03c003c0, 0x0ff00ff0, 0x0ff00ff0, 0x3c3c3c3c, 0x3c3c3c3c,
    0xffffffff, 0xf00ff00f, 0xf00ff00f, 0x00151206, 0x00fff807, 0xffc0ee00, 0x0770003b, 0x8001dc00,
    0x38e001c7, 0x000fffe0, 0x7fff0e0e, 0x00707003, 0x83801c1c, 0x0380e01c, 0x0700e03f, 0xff01ffc0,
    0x000d1806, 0x3fe1ff38, 0x0fc07e00, 0x7003801c, 0x00e00700, 0x3801c00e, 0x00700380, 0xfc073fe1,
    0xff00e007, 0x000e0070, 0x0e007000, 0x000c1800, 0x3c03c00f, 0x00f00000, 0x00ffffff, 0xf00f00f0,
];

/// Packed glyph records, words 968..1056.
pub const DATA_11: [u32; 88] = [
    0x0f00f00f, 0x00ffcffc, 0xf00f00f0, 0x0f00f00f, 0x00ffffff, 0x000c1800, 0x03c03c0f, 0x00f00000,
    0x00ffffff, 0xf00f00f0, 0x0f00f00f, 0x00ffcffc, 0xf00f00f0, 0x0f00f00f, 0x00ffffff, 0x000c1800,
    0x0f00f03f, 0xc3fc0000, 0x00ffffff, 0xf00f00f0, 0x0f00f00f, 0x00ffcffc, 0xf00f00f0, 0x0f00f00f,
    0x00ffffff, 0x000b1602, 0x3b877000, 0x000fffff, 0xf80700e0, 0x1c038070, 0x0ff9ff38, 0x0700e01c,
    0x0380700f, 0xffffc000, 0x00051800, 0xe70e7000, 0xe739ce73, 0x9ce739ce, 0x739ce700, 0x00051800,
    0x39f9c003, 0x9ce739ce, 0x739ce739, 0xce739c00, 0x00081800, 0x3c3cffff, 0x00003c3c, 0x3c3c3c3c,
    0x3c3c3c3c, 0x3c3c3c3c, 0x3c3c3c3c, 0x00071602, 0xefdc0003, 0x870e1c38, 0x70e1c387, 0x0e1c3870,
    0xe1c38700, 0x00101206, 0x3ff03ff0, 0x3c3c3c3c, 0x3c0f3c0f, 0x3c0f3c0f, 0xff0fff0f, 0x3c0f3c0f,
    0x3c0f3c0f, 0x3c3c3c3c, 0x3ff03ff0, 0x000d1800, 0x3e39f1f8, 0xf9c7c000, 0x0003e0ff, 0x07f83fc1,
    0xfb8fdc7e, 0xe3f71f8e, 0xfc77e3bf, 0x1df83fc1, 0xfe0ff07f, 0x80fc0700, 0x000d1800, 0x0e007000,
    0xe0070000, 0x0000ff87, 0xfce03f01, 0xf80fc07e, 0x03f01f80, 0xfc07e03f, 0x01f80fc0, 0x7e03f01c,
];

/// Packed glyph records, words 1056..1144.
pub const DATA_12: [u32; 88] = [
    0xff87fc00, 0x000d1800, 0x03801c03, 0x801c0000, 0x0000ff87, 0xfce03f01, 0xf80fc07e, 0x03f01f80,
    0xfc07e03f, 0x01f80fc0, 0x7e03f01c, 0xff87fc00, 0x000d1800, 0x0e00700e, 0xe0770000, 0x0000ff87,
    0xfce03f01, 0xf80fc07e, 0x03f01f80, 0xfc07e03f, 0x01f80fc0, 0x7e03f01c, 0xff87fc00, 0x000d1800,
    0x3e39f1f8, 0xf9c7c000, 0x0000ff87, 0xfce03f01, 0xf80fc07e, 0x03f01f80, 0xfc07e03f, 0x01f80fc0,
    0x7e03f01c, 0xff87fc00, 0x000d1602, 0x38e1c700, 0x000003fe, 0x1ff380fc, 0x07e03f01, 0xf80fc07e,
    0x03f01f80, 0xfc07e03f, 0x01f80fc0, 0x73fe1ff0, 0x000c0a0e, 0xf0ff0f3f, 0xc3fc0f00, 0xf03fc3fc,
    0xf0ff0f00, 0x00111206, 0x0ffb87fd, 0xce038701, 0xc383e1c1, 0xf0e3b871, 0xdc3b8e1d, 0xc70f8387,
    0xc1c380e1, 0xc073e039, 0xf01c0ff8, 0x07fc0000, 0x000d1800, 0x0e007000, 0xe0070000, 0x000380fc,
    0x07e03f01, 0xf80fc07e, 0x03f01f80, 0xfc07e03f, 0x01f80fc0, 0x7e03f01c, 0xff87fc00, 0x000d1800,
    0x03801c03, 0x801c0000, 0x000380fc, 0x07e03f01, 0xf80fc07e, 0x03f01f80, 0xfc07e03f, 0x01f80fc0,
    0x7e03f01c, 0xff87fc00, 0x000d1800, 0x0e00700e, 0xe0770000, 0x000380fc, 0x07e03f01, 0xf80fc07e,
];

/// Packed glyph records, words 1144..1232.
pub const DATA_13: [u32; 88] = [
    0x03f01f80, 0xfc07e03f, 0x01f80fc0, 0x7e03f01c, 0xff87fc00, 0x000d1602, 0x38e1c700, 0x00000e03,
    0xf01f80fc, 0x07e03f01, 0xf80fc07e, 0x03f01f80, 0xfc07e03f, 0x01f80fc0, 0x73fe1ff0, 0x000c1800,
    0x0780781e, 0x01e00000, 0x00f0ff0f, 0xf0ff0ff0, 0xff0f3fc3, 0xfc3fc3fc, 0x0f00f00f, 0x00f00f00,
    0xf00f00f0, 0x000c1206, 0xf00f00f0, 0x0f00ffcf, 0xfcf0ff0f, 0xf0ff0ff0, 0xff0fffcf, 0xfcf00f00,
    0xf00f0000, 0x000e1206, 0x3fc0ff0f, 0x0f3c3cf3, 0xc3cf0ff0, 0x3fc0ff03, 0xfc0f3f3c, 0xfcf03fc0,
    0xff03fc0f, 0xfff3ffc0, 0x000b1404, 0x0e01c00e, 0x01c00000, 0x0fe1fce0, 0xfc1cff9f, 0xfe0fc1f8,
    0x3f07e0fc, 0x1cff9ff0, 0x000b1404, 0x0e01c0e0, 0x1c000000, 0x0fe1fce0, 0xfc1cff9f, 0xfe0fc1f8,
    0x3f07e0fc, 0x1cff9ff0, 0x000b1404, 0x0e01c0ee, 0x1dc00000, 0x0fe1fce0, 0xfc1cff9f, 0xfe0fc1f8,
    0x3f07e0fc, 0x1cff9ff0, 0x000b1404, 0x3ee7dfbe, 0x77c00000, 0x0fe1fce0, 0xfc1cff9f, 0xfe0fc1f8,
    0x3f07e0fc, 0x1cff9ff0, 0x000c1206, 0x3fc3fc00, 0x00003fc3, 0xfcf0ff0f, 0x3ff3fff0, 0xff0ff0ff,
    0x0ff0ff0f, 0x3ff3ff00, 0x000c1800, 0x3f03f0f3, 0xcf3cf3cf, 0x3c3f03f0, 0x0000003f, 0xc3fcf0ff,
];

/// Packed glyph records, words 1232..1320.
pub const DATA_14: [u32; 88] = [
    0x0f3ff3ff, 0xf0ff0ff0, 0xff0ff0ff, 0x0f3ff3ff, 0x00140e0a, 0x3fffc3ff, 0xfcf0f0ff, 0x0f0f00f0,
    0xf00f0f3f, 0xfff3ffff, 0xf0f00f0f, 0x00f0f0ff, 0x0f0f3fff, 0xc3fffc00, 0x000c120a, 0x3fc3fcf0,
    0xff0ff00f, 0x00f00f00, 0xf00f00f0, 0xff0f3fc3, 0xfc0f00f0, 0x3c03c000, 0x000b1404, 0x38070038,
    0x07000000, 0x0fe1fce0, 0xfc1f83f0, 0x7ffffff8, 0x0700e0fc, 0x1cfe1fc0, 0x000b1404, 0x0e01c0e0,
    0x1c000000, 0x0fe1fce0, 0xfc1f83f0, 0x7ffffff8, 0x0700e0fc, 0x1cfe1fc0, 0x000b1404, 0x0e01c0ee,
    0x1dc00000, 0x0fe1fce0, 0xfc1f83f0, 0x7ffffff8, 0x0700e0fc, 0x1cfe1fc0, 0x000c1206, 0x3fc3fc00,
    0x00003fc3, 0xfcf0ff0f, 0xf0ff0fff, 0xfffff00f, 0x00f0ff0f, 0x3fc3fc00, 0x00061404, 0xf3c3cf00,
    0x03cf3cf3, 0xcf3cf3cf, 0x3cf3cf00, 0x00061404, 0x3cff3c00, 0x0f3cf3cf, 0x3cf3cf3c, 0xf3cf3c00,
    0x00081404, 0x3c3cffff, 0x00003c3c, 0x3c3c3c3c, 0x3c3c3c3c, 0x3c3c3c3c, 0x00071206, 0xefdc0003,
    0x870e1c38, 0x70e1c387, 0x0e1c3870, 0x000b1305, 0xe01f00ee, 0x1fcfe1df, 0x03e1c738, 0xfc1f83f0,
    0x7e0fc1f8, 0x3f1ce387, 0xc0f80000, 0x000b1404, 0x3ee7dfbe, 0x77c00000, 0x3be77cf8, 0xff1f83f0,
];

/// Packed glyph records, words 1320..1408.
pub const DATA_15: [u32; 88] = [
    0x7e0fc1f8, 0x3f07e0fc, 0x1f83f070, 0x000b1404, 0x38070038, 0x07000000, 0x0fe1fce0, 0xfc1f83f0,
    0x7e0fc1f8, 0x3f07e0fc, 0x1cfe1fc0, 0x000b1404, 0x03807038, 0x07000000, 0x0fe1fce0, 0xfc1f83f0,
    0x7e0fc1f8, 0x3f07e0fc, 0x1cfe1fc0, 0x000b1404, 0x0e01c0ee, 0x1dc00000, 0x0fe1fce0, 0xfc1f83f0,
    0x7e0fc1f8, 0x3f07e0fc, 0x1cfe1fc0, 0x000b1404, 0x3ee7dfbe, 0x77c00000, 0x0fe1fce0, 0xfc1f83f0,
    0x7e0fc1f8, 0x3f07e0fc, 0x1cfe1fc0, 0x000c1206, 0x3fc3fc00, 0x00003fc3, 0xfcf0ff0f, 0xf0ff0ff0,
    0xff0ff0ff, 0x0ff0ff0f, 0x3fc3fc00, 0x000c0a0a, 0x0f00f000, 0x0000ffff, 0xff000000, 0x0f00f000,
    0x00100e0a, 0x0fff0fff, 0x3c3c3c3c, 0x3cfc3cfc, 0x3ffc3ffc, 0x3f3c3f3c, 0x3c3c3c3c, 0xfff0fff0,
    0x000b1404, 0x38070038, 0x07000000, 0x383f07e0, 0xfc1f83f0, 0x7e0fc1f8, 0x3f07e3fc, 0x7cfb9f70,
    0x000b1404, 0x03807038, 0x07000000, 0x383f07e0, 0xfc1f83f0, 0x7e0fc1f8, 0x3f07e3fc, 0x7cfb9f70,
    0x000b1404, 0x0e01c0ee, 0x1dc00000, 0x383f07e0, 0xfc1f83f0, 0x7e0fc1f8, 0x3f07e3fc, 0x7cfb9f70,
    0x000c1206, 0x3fc3fc00, 0x0000f0ff, 0x0ff0ff0f, 0xf0ff0ff0, 0xff0ff0ff, 0x0ff3ff3f, 0x3ff3ff00,
];

/// Packed glyph records, words 1408..1496.
pub const DATA_16: [u32; 88] = [
    0x000d1a04, 0x03801c03, 0x801c0000, 0x0000e0e7, 0x073839c1, 0xce0e7070, 0xee07703b, 0x81dc0380,
    0x1c00e007, 0x00e00700, 0x3801c0f8, 0x07c00000, 0x000b1606, 0xe01c0380, 0x700ff9ff, 0x383f07e0,
    0xfc1f83f0, 0x7e0fc1f8, 0x3f07ff9f, 0xf380700e, 0x01c00000, 0x000d1806, 0x0ee07700, 0x00000383,
    0x9c1ce0e7, 0x073839c1, 0xc3b81dc0, 0xee07700e, 0x00700380, 0x1c03801c, 0x00e00703, 0xe01f0000,
    0x00151206, 0x3feff9ff, 0x7ff80e01, 0xc0700e03, 0x80701c03, 0x80e01c07, 0x00e03fe7, 0x01ff380e,
    0x01c0700e, 0x0380701c, 0x0380e01c, 0x07003fef, 0xf9ff7fc0, 0x00140e0a, 0x3fffc3ff, 0xfcf0f0ff,
    0x0f0ff0f0, 0xff0f0ff0, 0xffff0fff, 0xf0f00f0f, 0x00f0f0ff, 0x0f0f3fff, 0xc3fffc00, 0x00050604,
    0x39f9ce70, 0x00050604, 0x39ce7e70, 0x00050616, 0x39ce7e70, 0x00050604, 0xe739c39c, 0x000c0604,
    0x3cf3cff3, 0xcf3cf3cf, 0x3c000000, 0x000c0604, 0x3cf3cf3c, 0xf3cff3cf, 0x3c000000, 0x000c0616,
    0x3cf3cf3c, 0xf3cff3cf, 0x3c000000, 0x000c0604, 0xf3cf3cf3, 0xcf3c3cf3, 0xcf000000, 0x000c1206,
    0x0f00f00f, 0x00f0ffff, 0xff0f00f0, 0x0f00f00f, 0x00f00f00, 0xf00f00f0, 0x0f00f000, 0x000b1606,
];

/// Packed glyph records, words 1496..1533.
pub const DATA_17: [u32; 37] = [
    0x0e01c038, 0x070fffff, 0xc380700e, 0x01c03807, 0x00e01c03, 0x8070ffff, 0xfc380700, 0xe01c0000,
    0x000d0c0a, 0x3fe1ff3f, 0xffffffff, 0xffffffff, 0xffffffff, 0xcff87fc0, 0x00121008, 0x03ff00ff,
    0xc0f03c3c, 0x0f3c000f, 0x000fffc3, 0xfff03c00, 0x0f000fff, 0xc3fff00f, 0x03c3c0f0, 0x3ff00ffc,
    0x00131404, 0x00e0001c, 0x000fe001, 0xfc00fbe0, 0x1f7c0fbb, 0xe1f77cff, 0xeffffdff, 0xfeffffdf,
    0xf3fff87f, 0xff03ef80, 0x7df003f8, 0x007f0003, 0x80007000,
];

/// Total words of packed glyph data.
pub const DATA_LEN: usize = 1533;

/// All packed glyph records in one sequence: a header word for each
/// glyph, then `ceil(w*h/32)` payload words of row-major pixels.
#[verifier::opaque]
pub open spec fn data() -> Seq<u32> {
    DATA_0@ + DATA_1@ + DATA_2@ + DATA_3@ + DATA_4@ + DATA_5@ + DATA_6@ + DATA_7@ + DATA_8@ + DATA_9@ + DATA_10@ + DATA_11@ + DATA_12@ + DATA_13@ + DATA_14@ + DATA_15@ + DATA_16@ + DATA_17@
}

/// This font's tables, for specifications.
#[verifier::opaque]
pub open spec fn model() -> crate::fonts::FontModel {
    crate::fonts::FontModel {
        basic_latin: BASIC_LATIN@,
        latin_1: LATIN_1@,
        latin_extended_a: LATIN_EXTENDED_A@,
        general_punctuation: GENERAL_PUNCTUATION@,
        currency_symbols: CURRENCY_SYMBOLS@,
        specials: SPECIALS@,
        data: data(),
        max_height: MAX_HEIGHT,
    }
}

/// Word `i` of the packed glyph data.
pub fn data_at(i: usize) -> (w: u32)
    requires
        i < DATA_LEN,
    ensures
        w == data()[i as int],
{
    proof {
        reveal(data);
    }
    if i < 88 {
        DATA_0[i]
    } else if i < 176 {
        DATA_1[i - 88]
    } else if i < 264 {
        DATA_2[i - 176]
    } else if i < 352 {
        DATA_3[i - 264]
    } else if i < 440 {
        DATA_4[i - 352]
    } else if i < 528 {
        DATA_5[i - 440]
    } else if i < 616 {
        DATA_6[i - 528]
    } else if i < 704 {
        DATA_7[i - 616]
    } else if i < 792 {
        DATA_8[i - 704]
    } else if i < 880 {
        DATA_9[i - 792]
    } else if i < 968 {
        DATA_10[i - 880]
    } else if i < 1056 {
        DATA_11[i - 968]
    } else if i < 1144 {
        DATA_12[i - 1056]
    } else if i < 1232 {
        DATA_13[i - 1144]
    } else if i < 1320 {
        DATA_14[i - 1232]
    } else if i < 1408 {
        DATA_15[i - 1320]
    } else if i < 1496 {
        DATA_16[i - 1408]
    } else {
        DATA_17[i - 1496]
    }
}

/// The packed data array has exactly `DATA_LEN` words.
pub proof fn lemma_data_len()
    ensures
        data().len() == DATA_LEN,
{
    reveal(data);
}

/// Offset into the packed data of the glyph record for `c`; characters
/// outside the mapped blocks fall back to the replacement glyph.
pub fn get_glyph_pattern_offset(c: char) -> (off: usize)
    ensures
        off == crate::fonts::offset_of(model(), c),
{
    proof {
        reveal(model);
    }
    let cp = c as u32;
    if 0x20 <= cp && cp <= 0x7E {
        BASIC_LATIN[(cp - 0x20) as usize] as usize
    } else if 0xA0 <= cp && cp <= 0xFF {
        LATIN_1[(cp - 0xA0) as usize] as usize
    } else if 0x152 <= cp && cp <= 0x153 {
        LATIN_EXTENDED_A[(cp - 0x152) as usize] as usize
    } else if 0x2018 <= cp && cp <= 0x2022 {
        GENERAL_PUNCTUATION[(cp - 0x2018) as usize] as usize
    } else if cp == 0x20AC {
        CURRENCY_SYMBOLS[0] as usize
    } else {
        SPECIALS[0] as usize
    }
}

} // verus!
