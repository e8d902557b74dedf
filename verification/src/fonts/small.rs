//! Small font: packed glyph bitmaps with per-block offset tables.

use vstd::prelude::*;

verus! {

/// Tallest extent (height + y offset) of any glyph in this font.
pub const MAX_HEIGHT: u8 = 24;

/// Offsets into the packed data for code points U+0020..=U+007E.
pub const BASIC_LATIN: [u16; 95] = [
    0,  // U+0020  
    2,  // U+0021 !
    4,  // U+0022 "
    6,  // U+0023 #
    11,  // U+0024 $
    18,  // U+0025 %
    26,  // U+0026 &
    34,  // U+0027 apostrophe
    36,  // U+0028 (
    41,  // U+0029 )
    46,  // U+002A *
    51,  // U+002B +
    56,  // U+002C ,
    58,  // U+002D -
    60,  // U+002E .
    62,  // U+002F /
    67,  // U+0030 0
    73,  // U+0031 1
    76,  // U+0032 2
    82,  // U+0033 3
    88,  // U+0034 4
    94,  // U+0035 5
    100,  // U+0036 6
    106,  // U+0037 7
    112,  // U+0038 8
    118,  // U+0039 9
    124,  // U+003A :
    126,  // U+003B ;
    129,  // U+003C <
    132,  // U+003D =
    135,  // U+003E >
    138,  // U+003F ?
    143,  // U+0040 @
    151,  // U+0041 A
    157,  // U+0042 B
    163,  // U+0043 C
    169,  // U+0044 D
    175,  // U+0045 E
    180,  // U+0046 F
    185,  // U+0047 G
    191,  // U+0048 H
    197,  // U+0049 I
    199,  // U+004A J
    205,  // U+004B K
    211,  // U+004C L
    216,  // U+004D M
    224,  // U+004E N
    230,  // U+004F O
    236,  // U+0050 P
    242,  // U+0051 Q
    248,  // U+0052 R
    254,  // U+0053 S
    260,  // U+0054 T
    266,  // U+0055 U
    272,  // U+0056 V
    278,  // U+0057 W
    286,  // U+0058 X
    292,  // U+0059 Y
    298,  // U+005A Z
    303,  // U+005B [
    307,  // U+005C backslash
    312,  // U+005D ]
    316,  // U+005E ^
    318,  // U+005F _
    320,  // U+0060 `
    322,  // U+0061 a
    326,  // U+0062 b
    331,  // U+0063 c
    335,  // U+0064 d
    340,  // U+0065 e
    344,  // U+0066 f
    349,  // U+0067 g
    354,  // U+0068 h
    359,  // U+0069 i
    361,  // U+006A j
    366,  // U+006B k
    371,  // U+006C l
    373,  // U+006D m
    379,  // U+006E n
    383,  // U+006F o
    387,  // U+0070 p
    392,  // U+0071 q
    397,  // U+0072 r
    401,  // U+0073 s
    405,  // U+0074 t
    409,  // U+0075 u
    413,  // U+0076 v
    418,  // U+0077 w
    424,  // U+0078 x
    429,  // U+0079 y
    435,  // U+007A z
    439,  // U+007B {
    444,  // U+007C |
    447,  // U+007D }
    452,  // U+007E ~
];

/// Offsets into the packed data for code points U+00A0..=U+00FF.
pub const LATIN_1: [u16; 96] = [
    455,  // U+00A0
    457,  // U+00A1
    459,  // U+00A2
    465,  // U+00A3
    471,  // U+00A4
    477,  // U+00A5
    483,  // U+00A6
    486,  // U+00A7
    493,  // U+00A8
    495,  // U+00A9
    504,  // U+00AA
    508,  // U+00AB
    513,  // U+00AC
    516,  // U+00AD
    518,  // U+00AE
    527,  // U+00AF
    529,  // U+00B0
    532,  // U+00B1
    537,  // U+00B2
    540,  // U+00B3
    543,  // U+00B4
    545,  // U+00B5
    552,  // U+00B6
    560,  // U+00B7
    562,  // U+00B8
    564,  // U+00B9
    567,  // U+00BA
    571,  // U+00BB
    576,  // U+00BC
    589,  // U+00BD
    602,  // U+00BE
    615,  // U+00BF
    620,  // U+00C0
    628,  // U+00C1
    636,  // U+00C2
    644,  // U+00C3
    652,  // U+00C4
    659,  // U+00C5
    667,  // U+00C6
    675,  // U+00C7
    682,  // U+00C8
    688,  // U+00C9
    694,  // U+00CA
    700,  // U+00CB
    706,  // U+00CC
    710,  // U+00CD
    714,  // U+00CE
    719,  // U+00CF
    724,  // U+00D0
    731,  // U+00D1
    739,  // U+00D2
    747,  // U+00D3
    755,  // U+00D4
    763,  // U+00D5
    771,  // U+00D6
    778,  // U+00D7
    783,  // U+00D8
    791,  // U+00D9
    799,  // U+00DA
    807,  // U+00DB
    815,  // U+00DC
    822,  // U+00DD
    830,  // U+00DE
    835,  // U+00DF
    841,  // U+00E0
    846,  // U+00E1
    851,  // U+00E2
    856,  // U+00E3
    861,  // U+00E4
    866,  // U+00E5
    872,  // U+00E6
    878,  // U+00E7
    883,  // U+00E8
    888,  // U+00E9
    893,  // U+00EA
    898,  // U+00EB
    903,  // U+00EC
    906,  // U+00ED
    909,  // U+00EE
    913,  // U+00EF
    917,  // U+00F0
    922,  // U+00F1
    927,  // U+00F2
    932,  // U+00F3
    937,  // U+00F4
    942,  // U+00F5
    947,  // U+00F6
    952,  // U+00F7
    957,  // U+00F8
    963,  // U+00F9
    968,  // U+00FA
    973,  // U+00FB
    978,  // U+00FC
    983,  // U+00FD
    991,  // U+00FE
    997,  // U+00FF
];

/// Offsets into the packed data for code points U+0152..=U+0153.
pub const LATIN_EXTENDED_A: [u16; 2] = [
    1004,  // U+0152
    1012,  // U+0153
];

/// Offsets into the packed data for code points U+2018..=U+2022.
pub const GENERAL_PUNCTUATION: [u16; 11] = [
    1018,  // U+2018
    1020,  // U+2019
    1022,  // U+201A
    1024,  // U+201B
    1026,  // U+201C
    1029,  // U+201D
    1032,  // U+201E
    1035,  // U+201F
    1038,  // U+2020
    1041,  // U+2021
    1046,  // U+2022
];

/// Offsets into the packed data for code points U+20AC..=U+20AC.
pub const CURRENCY_SYMBOLS: [u16; 1] = [
    1051,  // U+20AC
];

/// Offsets into the packed data for code points U+FFFD..=U+FFFD.
pub const SPECIALS: [u16; 1] = [
    1058,  // U+FFFD
];

/// Packed glyph records, words 0..88.
pub const DATA_0: [u32; 88] = [
    0x0004020b, 0x00000000, 0x00020e06, 0xfffff0f0, 0x00060406, 0xcf3cf300, 0x000a0a04, 0x0cc33fff,
    0xff330ccf, 0xffffcc33, 0x00000000, 0x000a1204, 0x0c0303f0, 0xfcccf33c, 0xc3303f0f, 0xc0cc33cc,
    0xf333f0fc, 0x0c030000, 0x00100e06, 0x3fff3fff, 0xc30cc30c, 0xc330c330, 0x3cfc3cfc, 0x03c303c3,
    0x0cc30cc3, 0x303c303c, 0x000e1004, 0x0f003c03, 0x0c0c3033, 0x00cc00c0, 0x03003330, 0xcccc0c30,
    0x30c3330c, 0xc3c0cf03, 0x00020406, 0xff000000, 0x00061204, 0x0c330cc3, 0x0c30c30c, 0x30c3030c,
    0x0c300000, 0x00061204, 0xc3030c0c, 0x30c30c30, 0xc30c330c, 0xc3000000, 0x000a0a06, 0x0c030ccf,
    0x333f0fc3, 0x30ccc0f0, 0x30000000, 0x000a0a08, 0x0c0300c0, 0x30fffff0, 0xc0300c03, 0x00000000,
    0x00040612, 0x3333cc00, 0x0008020c, 0xffff0000, 0x00020212, 0xf0000000, 0x00081004, 0x03030303,
    0x0c0c0c0c, 0x30303030, 0xc0c0c0c0, 0x000a0e06, 0x3f0fcc0f, 0x03c0f03c, 0x0f03c0f0, 0x3c0f033f,
    0x0fc00000, 0x00040e06, 0x33ff3333, 0x33333300, 0x000a0e06, 0x3f0fcc0f, 0x0300c030, 0x300c0c03,
    0x0300c0ff, 0xfff00000, 0x000a0e06, 0xfffff030, 0x0c0c0303, 0xf0fc00c0, 0x3c0f033f, 0x0fc00000,
];

/// Packed glyph records, words 88..176.
pub const DATA_1: [u32; 88] = [
    0x000a0e06, 0x0300c0f0, 0x3c330ccc, 0x330cffff, 0xf0300c03, 0x00c00000, 0x000a0e06, 0xfffffc03,
    0x00ff3fc0, 0x0c0300c0, 0x3c0f033f, 0x0fc00000, 0x000a0e06, 0x0f03c300, 0xc0c0300f, 0xf3fcc0f0,
    0x3c0f033f, 0x0fc00000, 0x000a0e06, 0xfffff00c, 0x030300c0, 0x300c0c03, 0x00c0300c, 0x03000000,
    0x000a0e06, 0x3f0fcc0f, 0x03c0f033, 0xf0fcc0f0, 0x3c0f033f, 0x0fc00000, 0x000a0e06, 0x3f0fcc0f,
    0x03c0f033, 0xfcff00c0, 0x30300c3c, 0x0f000000, 0x00020a0a, 0xf000f000, 0x00040e0a, 0x33000000,
    0x3333cc00, 0x00060a08, 0x0c330cc3, 0x030c0c30, 0x000a060a, 0xfffff000, 0x00fffff0, 0x00060a08,
    0xc3030c0c, 0x330cc300, 0x00080e06, 0x3c3cc3c3, 0x03030c0c, 0x30300000, 0x30300000, 0x000e1006,
    0x0fc03f03, 0x030c0cc3, 0xcf0f3ccc, 0xf333cccf, 0x333c3f30, 0xfc3000c0, 0x00fc03f0, 0x000a0e06,
    0x0c0300c0, 0x30330cc3, 0x30ccffff, 0xfc0f03c0, 0xf0300000, 0x000a0e06, 0xff3fcc0f, 0x03c0f03f,
    0xf3fcc0f0, 0x3c0f03ff, 0x3fc00000, 0x000a0e06, 0x3f0fcc0f, 0x03c0300c, 0x0300c030, 0x0c0f033f,
    0x0fc00000, 0x000a0e06, 0xfc3f0c33, 0x0cc0f03c, 0x0f03c0f0, 0x3c330cfc, 0x3f000000, 0x00080e06,
];

/// Packed glyph records, words 176..264.
pub const DATA_2: [u32; 88] = [
    0xffffc0c0, 0xc0c0fcfc, 0xc0c0c0c0, 0xffff0000, 0x00080e06, 0xffffc0c0, 0xc0c0fcfc, 0xc0c0c0c0,
    0xc0c00000, 0x000a0e06, 0x3f0fcc0f, 0x03c0300c, 0x3f0fc0f0, 0x3c0f033f, 0x0fc00000, 0x000a0e06,
    0xc0f03c0f, 0x03c0f03f, 0xffffc0f0, 0x3c0f03c0, 0xf0300000, 0x00020e06, 0xfffffff0, 0x000a0e06,
    0x00c0300c, 0x0300c030, 0x0c03c0f0, 0x3c0f033f, 0x0fc00000, 0x000a0e06, 0xc0f03c33, 0x0ccc330f,
    0x03c0cc33, 0x0c330cc0, 0xf0300000, 0x00080e06, 0xc0c0c0c0, 0xc0c0c0c0, 0xc0c0c0c0, 0xffff0000,
    0x000e0e06, 0xc00f003f, 0x03fc0fcc, 0xcf333c30, 0xf0c3c00f, 0x003c00f0, 0x03c00f00, 0x30000000,
    0x000a0e06, 0xf0fc3f0f, 0xc3ccf33c, 0xcf33c3f0, 0xfc3f0fc0, 0xf0300000, 0x000a0e06, 0x3f0fcc0f,
    0x03c0f03c, 0x0f03c0f0, 0x3c0f033f, 0x0fc00000, 0x000a0e06, 0xff3fcc0f, 0x03c0f03f, 0xf3fcc030,
    0x0c0300c0, 0x30000000, 0x000a1006, 0x3f0fcc0f, 0x03c0f03c, 0x0f03c0f0, 0x3ccf333f, 0x0fc0300c,
    0x000a0e06, 0xff3fcc0f, 0x03c0f03f, 0xf3fccc33, 0x0c330cc0, 0xf0300000, 0x000a0e06, 0x3f0fcc0f,
    0x03c03003, 0xf0fc00c0, 0x3c0f033f, 0x0fc00000, 0x000a0e06, 0xfffff0c0, 0x300c0300, 0xc0300c03,
];

/// Packed glyph records, words 264..352.
pub const DATA_3: [u32; 88] = [
    0x00c0300c, 0x03000000, 0x000a0e06, 0xc0f03c0f, 0x03c0f03c, 0x0f03c0f0, 0x3c0f033f, 0x0fc00000,
    0x000a0e06, 0xc0f03c0f, 0x03c0f033, 0x30cc330c, 0xc0c0300c, 0x03000000, 0x000e0e06, 0xc00f003c,
    0x00f00333, 0x30ccc333, 0x0ccc0cc0, 0x3300cc03, 0x300cc033, 0x00000000, 0x000a0e06, 0xc0f03c0f,
    0x03330cc0, 0xc030330c, 0xcc0f03c0, 0xf0300000, 0x000a0e06, 0xc0f03c0f, 0x03330cc0, 0xc0300c03,
    0x00c0300c, 0x03000000, 0x00080e06, 0xffff0303, 0x0c0c3030, 0xc0c0c0c0, 0xffff0000, 0x00041204,
    0xffcccccc, 0xcccccccc, 0xff000000, 0x00081004, 0xc0c0c0c0, 0x30303030, 0x0c0c0c0c, 0x03030303,
    0x00041204, 0xff333333, 0x33333333, 0xff000000, 0x00060406, 0x30ccf300, 0x000c0212, 0xffffff00,
    0x00040406, 0xcc330000, 0x00080a0a, 0x3c3c0303, 0x3f3fc3c3, 0x3f3f0000, 0x00080e06, 0xc0c0c0c0,
    0xfcfcc3c3, 0xc3c3c3c3, 0xfcfc0000, 0x00080a0a, 0x3c3cc3c3, 0xc0c0c3c3, 0x3c3c0000, 0x00080e06,
    0x03030303, 0x3f3fc3c3, 0xc3c3c3c3, 0x3f3f0000, 0x00080a0a, 0x3c3cc3c3, 0xffffc0c0, 0x3c3c0000,
    0x00080e06, 0x0f0f3030, 0xfcfc3030, 0x30303030, 0x30300000, 0x00080e0a, 0x3f3fc3c3, 0xc3c3c3c3,
];

/// Packed glyph records, words 352..440.
pub const DATA_4: [u32; 88] = [
    0x3f3f0303, 0x3c3c0000, 0x00080e06, 0xc0c0c0c0, 0xfcfcc3c3, 0xc3c3c3c3, 0xc3c30000, 0x00020e06,
    0xf0fffff0, 0x00061206, 0x0c30000c, 0x30c30c30, 0xc30c30c3, 0xf3c00000, 0x00080e06, 0xc0c0c0c0,
    0xc3c3cccc, 0xf0f0cccc, 0xc3c30000, 0x00020e06, 0xfffffff0, 0x000e0a0a, 0xfcf3f3cc, 0x30f0c3c3,
    0x0f0c3c30, 0xf0c3c30f, 0x0c300000, 0x00080a0a, 0xfcfcc3c3, 0xc3c3c3c3, 0xc3c30000, 0x00080a0a,
    0x3c3cc3c3, 0xc3c3c3c3, 0x3c3c0000, 0x00080e0a, 0xfcfcc3c3, 0xc3c3c3c3, 0xfcfcc0c0, 0xc0c00000,
    0x00080e0a, 0x3f3fc3c3, 0xc3c3c3c3, 0x3f3f0303, 0x03030000, 0x00080a0a, 0xcfcff0f0, 0xc0c0c0c0,
    0xc0c00000, 0x00080a0a, 0x3f3fc0c0, 0x3c3c0303, 0xfcfc0000, 0x00060e06, 0x30c30cff, 0xf30c30c3,
    0x0c0c3000, 0x00080a0a, 0xc3c3c3c3, 0xc3c3c3c3, 0x3f3f0000, 0x000a0a0a, 0xc0f03330, 0xcc330cc0,
    0xc0300c03, 0x00000000, 0x000e0a0a, 0xc00f0033, 0x330ccc33, 0x30ccc0cc, 0x03300cc0, 0x33000000,
    0x000a0a0a, 0xc0f03330, 0xcc0c0303, 0x30ccc0f0, 0x30000000, 0x000a0e0a, 0xc0f03c0f, 0x03330cc3,
    0x30cc0c03, 0x00c030f0, 0x3c000000, 0x00080a0a, 0xffff0c0c, 0x3030c0c0, 0xffff0000, 0x00061204,
];

/// Packed glyph records, words 440..528.
pub const DATA_5: [u32; 88] = [
    0x0c330c30, 0xc30cc303, 0x0c30c30c, 0x0c300000, 0x00021204, 0xffffffff, 0xf0000000, 0x00061204,
    0xc3030c30, 0xc30c0c33, 0x0c30c30c, 0xc3000000, 0x000a0406, 0x3ccf3cf3, 0x3c000000, 0x0004020b,
    0x00000000, 0x00020e06, 0xf0fffff0, 0x000a0e06, 0x0c0303f0, 0xfcccf33c, 0xc330ccf3, 0x33f0fc0c,
    0x03000000, 0x000a0e06, 0x0f03c300, 0xc0300c0f, 0xc3f0300c, 0x030cc3ff, 0x3fc00000, 0x000a0e06,
    0xc0f033f0, 0xfcc0f03c, 0x0f03c0f0, 0x33f0fcc0, 0xf0300000, 0x000a0e06, 0xc0f03330, 0xccfffff0,
    0xc030ffff, 0xf0c0300c, 0x03000000, 0x00021204, 0xffff0fff, 0xf0000000, 0x000a1204, 0x3f0fcc0f,
    0x03c03003, 0xf0fcc0f0, 0x33f0fc00, 0xc03c0f03, 0x3f0fc000, 0x00060206, 0xcf300000, 0x00101004,
    0x0ff00ff0, 0x300c300c, 0xc3c3c3c3, 0xcc03cc03, 0xcc03cc03, 0xc3c3c3c3, 0x300c300c, 0x0ff00ff0,
    0x00060e04, 0x30ccf33c, 0xfcf33cf0, 0x00fff000, 0x000c0a0a, 0x0c30c330, 0xc30cc30c, 0x3030c30c,
    0x0c30c300, 0x0008060c, 0xffff0303, 0x03030000, 0x0008020c, 0xffff0000, 0x00101004, 0x0ff00ff0,
    0x300c300c, 0xcfc3cfc3, 0xcc33cc33, 0xcfc3cfc3, 0xcc33cc33, 0x300c300c, 0x0ff00ff0, 0x00060206,
];

/// Packed glyph records, words 528..616.
pub const DATA_6: [u32; 88] = [
    0xfff00000, 0x00080804, 0x3c3cc3c3, 0xc3c33c3c, 0x000a0c08, 0x0c0300c0, 0x30fffff0, 0xc0300c03,
    0x0fffff00, 0x00060a02, 0xfff0c3ff, 0xfc30fff0, 0x00060a02, 0xfff0c3ff, 0xf0c3fff0, 0x00040406,
    0x33cc0000, 0x000c0e0a, 0x0c30c30c, 0x30c330c3, 0x0c30c30c, 0x3f33f3c0, 0x0c00c00c, 0x00000000,
    0x000c1206, 0x3ff3fffc, 0xcfccfccf, 0xcc3cc3cc, 0x0cc0cc0c, 0xc0cc0cc0, 0xcc0cc0cc, 0x0cc0cc00,
    0x0002020e, 0xf0000000, 0x00040414, 0x33cc0000, 0x00060a02, 0x30cf3c30, 0xc30cfff0, 0x00080c06,
    0x3c3cc3c3, 0xc3c33c3c, 0x0000ffff, 0x000c0a0a, 0xc30c3030, 0xc30c0c30, 0xc330c30c, 0xc30c3000,
    0x00121400, 0x300c0c03, 0x0f00c3c0, 0x3030300c, 0x0c030300, 0xc0c0fcc0, 0x3f30000c, 0xcc033303,
    0x0cc0c330, 0x30fc0c3f, 0x0c00c300, 0x30c00c30, 0x03000000, 0x00121400, 0x300c0c03, 0x0f00c3c0,
    0x3030300c, 0x0c030300, 0xc0c0fcc0, 0x3f30000c, 0xfc033f03, 0x00c0c030, 0x30fc0c3f, 0x0c0c0303,
    0x00c0fc30, 0x3f000000, 0x00121400, 0xfc0c3f03, 0x00c0c030, 0x30fc303f, 0x0c00c300, 0x30c0fcc0,
    0x3f30000c, 0xcc033303, 0x0cc0c330, 0x30fc0c3f, 0x0c00c300, 0x30c00c30, 0x03000000, 0x00080e06,
];

/// Packed glyph records, words 616..704.
pub const DATA_7: [u32; 88] = [
    0x0c0c0000, 0x0c0c3030, 0xc0c0c3c3, 0x3c3c0000, 0x000a1400, 0x300c00c0, 0x30000000, 0xc0300c03,
    0x0330cc33, 0x0ccfffff, 0xc0f03c0f, 0x03000000, 0x000a1400, 0x0300c0c0, 0x30000000, 0xc0300c03,
    0x0330cc33, 0x0ccfffff, 0xc0f03c0f, 0x03000000, 0x000a1400, 0x0c030330, 0xcc000000, 0xc0300c03,
    0x0330cc33, 0x0ccfffff, 0xc0f03c0f, 0x03000000, 0x000a1400, 0x3ccf3cf3, 0x3c000000, 0xc0300c03,
    0x0330cc33, 0x0ccfffff, 0xc0f03c0f, 0x03000000, 0x000a1202, 0x330cc000, 0x000c0300, 0xc030330c,
    0xc330ccff, 0xfffc0f03, 0xc0f03000, 0x000a1400, 0x3f0fcc0f, 0x033f0fc0, 0xc0300c03, 0x0330cc33,
    0x0ccfffff, 0xc0f03c0f, 0x03000000, 0x00100e06, 0x03ff03ff, 0x0cc00cc0, 0x0cc00cc0, 0x3ffc3ffc,
    0x30c030c0, 0xc0c0c0c0, 0xc0ffc0ff, 0x000a1206, 0x3f0fcc0f, 0x03c0300c, 0x0300c030, 0x0c0f033f,
    0x0fc0c030, 0x300c0000, 0x00081400, 0x30300c0c, 0x0000ffff, 0xc0c0c0c0, 0xfcfcc0c0, 0xc0c0ffff,
    0x00081400, 0x0c0c3030, 0x0000ffff, 0xc0c0c0c0, 0xfcfcc0c0, 0xc0c0ffff, 0x00081400, 0x3030cccc,
    0x0000ffff, 0xc0c0c0c0, 0xfcfcc0c0, 0xc0c0ffff, 0x00081202, 0xcccc0000, 0xffffc0c0, 0xc0c0fcfc,
];

/// Packed glyph records, words 704..792.
pub const DATA_8: [u32; 88] = [
    0xc0c0c0c0, 0xffff0000, 0x00041400, 0xcc330033, 0x33333333, 0x33330000, 0x00041400, 0x33cc00cc,
    0xcccccccc, 0xcccc0000, 0x00061400, 0x30ccf300, 0x030c30c3, 0x0c30c30c, 0x30c30c00, 0x00061202,
    0xcf300030, 0xc30c30c3, 0x0c30c30c, 0x30c00000, 0x000c0e06, 0x3f03f030, 0xc30c3033, 0x03fc3fc3,
    0x30330330, 0xc30c3f03, 0xf0000000, 0x000a1400, 0x3ccf3cf3, 0x3c00000f, 0x0fc3f0fc, 0x3ccf33cc,
    0xf33c3f0f, 0xc3f0fc0f, 0x03000000, 0x000a1400, 0x300c00c0, 0x30000003, 0xf0fcc0f0, 0x3c0f03c0,
    0xf03c0f03, 0xc0f033f0, 0xfc000000, 0x000a1400, 0x0300c0c0, 0x30000003, 0xf0fcc0f0, 0x3c0f03c0,
    0xf03c0f03, 0xc0f033f0, 0xfc000000, 0x000a1400, 0x0c030330, 0xcc000003, 0xf0fcc0f0, 0x3c0f03c0,
    0xf03c0f03, 0xc0f033f0, 0xfc000000, 0x000a1400, 0x3ccf3cf3, 0x3c000003, 0xf0fcc0f0, 0x3c0f03c0,
    0xf03c0f03, 0xc0f033f0, 0xfc000000, 0x000a1202, 0x330cc000, 0x003f0fcc, 0x0f03c0f0, 0x3c0f03c0,
    0xf03c0f03, 0x3f0fc000, 0x000a0a0a, 0xc0f03330, 0xcc0c0303, 0x30ccc0f0, 0x30000000, 0x000e0e06,
    0x0fcc3f33, 0x030c0c30, 0xf0c3c333, 0x0ccc3c30, 0xf0c3030c, 0x0ccfc33f, 0x00000000, 0x000a1400,
];

/// Packed glyph records, words 792..880.
pub const DATA_9: [u32; 88] = [
    0x300c00c0, 0x3000000c, 0x0f03c0f0, 0x3c0f03c0, 0xf03c0f03, 0xc0f033f0, 0xfc000000, 0x000a1400,
    0x0300c0c0, 0x3000000c, 0x0f03c0f0, 0x3c0f03c0, 0xf03c0f03, 0xc0f033f0, 0xfc000000, 0x000a1400,
    0x0c030330, 0xcc00000c, 0x0f03c0f0, 0x3c0f03c0, 0xf03c0f03, 0xc0f033f0, 0xfc000000, 0x000a1202,
    0x330cc000, 0x00c0f03c, 0x0f03c0f0, 0x3c0f03c0, 0xf03c0f03, 0x3f0fc000, 0x000a1400, 0x0300c0c0,
    0x3000000c, 0x0f03c0f0, 0x3330cc0c, 0x0300c030, 0x0c0300c0, 0x30000000, 0x00080e06, 0xc0c0c0fc,
    0xfcc3c3c3, 0xc3fcfcc0, 0xc0c00000, 0x000a0e06, 0x3c0f0c33, 0x0ccc330c, 0xc330c330, 0xcc0f03cf,
    0x33c00000, 0x00081004, 0x30300c0c, 0x00003c3c, 0xc3c33f3f, 0xc3c33f3f, 0x00081004, 0x0c0c3030,
    0x00003c3c, 0xc3c33f3f, 0xc3c33f3f, 0x00081004, 0x0c0c3333, 0x00003c3c, 0xc3c33f3f, 0xc3c33f3f,
    0x00081004, 0x3333cccc, 0x00003c3c, 0xc3c33f3f, 0xc3c33f3f, 0x00080e06, 0x33330000, 0x3c3cc3c3,
    0x3f3fc3c3, 0x3f3f0000, 0x00081202, 0x3c3cc3c3, 0x3c3c0000, 0x3c3cc3c3, 0x3f3fc3c3, 0x3f3f0000,
    0x000e0a0a, 0x3cf0f3c0, 0x30c0c33f, 0xfcfffc30, 0x30c03cf0, 0xf3c00000, 0x00080e0a, 0x3c3cc3c3,
];

/// Packed glyph records, words 880..968.
pub const DATA_10: [u32; 88] = [
    0xc0c0c3c3, 0x3c3c0c0c, 0x30300000, 0x00081004, 0x30300c0c, 0x00003c3c, 0xc3c3ffff, 0xc0c03c3c,
    0x00081004, 0x0c0c3030, 0x00003c3c, 0xc3c3ffff, 0xc0c03f3f, 0x00081004, 0x3030cccc, 0x00003c3c,
    0xc3c3ffff, 0xc0c03c3c, 0x00080e06, 0xc3c30000, 0x3c3cc3c3, 0xffffc0c0, 0x3f3f0000, 0x00041004,
    0xcc330033, 0x33333333, 0x00041004, 0x33cc00cc, 0xcccccccc, 0x00061004, 0x30ccf300, 0x030c30c3,
    0x0c30c30c, 0x00060e06, 0xcf300030, 0xc30c30c3, 0x0c30c000, 0x00081004, 0xc0cc3cf0, 0xcc0c3333,
    0xc3c3c3c3, 0xc3c33c3c, 0x00081004, 0x3333cccc, 0x0000fcfc, 0xc3c3c3c3, 0xc3c3c3c3, 0x00081004,
    0x30300c0c, 0x00003c3c, 0xc3c3c3c3, 0xc3c33c3c, 0x00081004, 0x0c0c3030, 0x00003c3c, 0xc3c3c3c3,
    0xc3c33c3c, 0x00081004, 0x3030cccc, 0x00003c3c, 0xc3c3c3c3, 0xc3c33c3c, 0x00081004, 0x3333cccc,
    0x00003c3c, 0xc3c3c3c3, 0xc3c33c3c, 0x00080e06, 0xc3c30000, 0x3c3cc3c3, 0xc3c3c3c3, 0x3c3c0000,
    0x000a0a08, 0x0c030000, 0x00fffff0, 0x00000c03, 0x00000000, 0x000c0c08, 0x0f30f330, 0xc30c33c3,
    0x3c3cc3cc, 0x30c30ccf, 0x0cf00000, 0x00081004, 0x30300c0c, 0x0000c3c3, 0xc3c3c3c3, 0xc3c33f3f,
];

/// Packed glyph records, words 968..1056.
pub const DATA_11: [u32; 88] = [
    0x00081004, 0x0c0c3030, 0x0000c3c3, 0xc3c3c3c3, 0xc3c33f3f, 0x00081004, 0x3030cccc, 0x0000c3c3,
    0xc3c3c3c3, 0xc3c33f3f, 0x00080e06, 0xc3c30000, 0xc3c3c3c3, 0xc3c3c3c3, 0x3f3f0000, 0x000a1404,
    0x0300c0c0, 0x3000000c, 0x0f03c0f0, 0x3330cc33, 0x0cc0c030, 0x0c030f03, 0xc0000000, 0x00081206,
    0xc0c0c0c0, 0xfcfcc3c3, 0xc3c3c3c3, 0xfcfcc0c0, 0xc0c00000, 0x000a1206, 0x330cc000, 0x00c0f03c,
    0x0f03330c, 0xc330cc0c, 0x0300c030, 0xf03c0000, 0x00100e06, 0x3fff3fff, 0xc0c0c0c0, 0xc0c0c0c0,
    0xc0fcc0fc, 0xc0c0c0c0, 0xc0c0c0c0, 0x3fff3fff, 0x000e0a0a, 0x3cf0f3cc, 0x30f0c3c3, 0xff0ffc30,
    0x30c03ff0, 0xffc00000, 0x00040604, 0x33cccc00, 0x00040604, 0x3333cc00, 0x00040612, 0x3333cc00,
    0x00040604, 0xcccc3300, 0x00080604, 0x3333cccc, 0xcccc0000, 0x00080604, 0x33333333, 0xcccc0000,
    0x00080612, 0x33333333, 0xcccc0000, 0x00080604, 0xcccccccc, 0x33330000, 0x00060a04, 0x30cfff30,
    0xc30c30c0, 0x00061206, 0x30c30cff, 0xf30c30c3, 0x0cfff30c, 0x30c00000, 0x000a0a08, 0x3f0fcfff,
    0xffffffff, 0xffff3f0f, 0xc0000000, 0x000c0e04, 0x0fc0fc30, 0x3303ff0f, 0xf0300300, 0xff0ff030,
];

/// Packed glyph records, words 1056..1071.
pub const DATA_12: [u32; 15] = [
    0x33030fc0, 0xfc000000, 0x00121402, 0x00c00030, 0x003f000f, 0xc00f3c03, 0xcf03ccf0, 0xf33cffcf,
    0xfff3fff3, 0xfffcff3f, 0xff0fffc0, 0xf3c03cf0, 0x03f000fc, 0x000c0003, 0x00000000,
];

/// Total words of packed glyph data.
pub const DATA_LEN: usize = 1071;

/// All packed glyph records in one sequence: a header word for each
/// glyph, then `ceil(w*h/32)` payload words of row-major pixels.
#[verifier::opaque]
pub open spec fn data() -> Seq<u32> {
    DATA_0@ + DATA_1@ + DATA_2@ + DATA_3@ + DATA_4@ + DATA_5@ + DATA_6@ + DATA_7@ + DATA_8@ + DATA_9@ + DATA_10@ + DATA_11@ + DATA_12@
}

/// This font's tables, for specifications.
#[verifier::opaque]
pub open spec fn model() -> crate::fonts::FontModel {
    crate::fonts::FontModel {
        basic_latin: BASIC_LATIN@,
        latin_1: LATIN_1@,
        latin_extended_a: LATIN_EXTENDED_A@,
        general_punctuation: GENERAL_PUNCTUATION@,
        currency_symbols: CURRENCY_SYMBOLS@,
        specials: SPECIALS@,
        data: data(),
        max_height: MAX_HEIGHT,
    }
}

/// Word `i` of the packed glyph data.
pub fn data_at(i: usize) -> (w: u32)
    requires
        i < DATA_LEN,
    ensures
        w == data()[i as int],
{
    proof {
        reveal(data);
    }
    if i < 88 {
        DATA_0[i]
    } else if i < 176 {
        DATA_1[i - 88]
    } else if i < 264 {
        DATA_2[i - 176]
    } else if i < 352 {
        DATA_3[i - 264]
    } else if i < 440 {
        DATA_4[i - 352]
    } else if i < 528 {
        DATA_5[i - 440]
    } else if i < 616 {
        DATA_6[i - 528]
    } else if i < 704 {
        DATA_7[i - 616]
    } else if i < 792 {
        DATA_8[i - 704]
    } else if i < 880 {
        DATA_9[i - 792]
    } else if i < 968 {
        DATA_10[i - 880]
    } else if i < 1056 {
        DATA_11[i - 968]
    } else {
        DATA_12[i - 1056]
    }
}

/// The packed data array has exactly `DATA_LEN` words.
pub proof fn lemma_data_len()
    ensures
        data().len() == DATA_LEN,
{
    reveal(data);
}

/// Offset into the packed data of the glyph record for `c`; characters
/// outside the mapped blocks fall back to the replacement glyph.
pub fn get_glyph_pattern_offset(c: char) -> (off: usize)
    ensures
        off == crate::fonts::offset_of(model(), c),
{
    proof {
        reveal(model);
    }
    let cp = c as u32;
    if 0x20 <= cp && cp <= 0x7E {
        BASIC_LATIN[(cp - 0x20) as usize] as usize
    } else if 0xA0 <= cp && cp <= 0xFF {
        LATIN_1[(cp - 0xA0) as usize] as usize
    } else if 0x152 <= cp && cp <= 0x153 {
        LATIN_EXTENDED_A[(cp - 0x152) as usize] as usize
    } else if 0x2018 <= cp && cp <= 0x2022 {
        GENERAL_PUNCTUATION[(cp - 0x2018) as usize] as usize
    } else if cp == 0x20AC {
        CURRENCY_SYMBOLS[0] as usize
    } else {
        SPECIALS[0] as usize
    }
}

} // verus!
