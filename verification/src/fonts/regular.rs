//! Regular font: packed glyph bitmaps with per-block offset tables.

use vstd::prelude::*;

verus! {

/// Tallest extent (height + y offset) of any glyph in this font.
pub const MAX_HEIGHT: u8 = 30;

/// Offsets into the packed data for code points U+0020..=U+007E.
pub const BASIC_LATIN: [u16; 95] = [
    0,  // U+0020  
    2,  // U+0021 !
    5,  // U+0022 "
    7,  // U+0023 #
    13,  // U+0024 $
    21,  // U+0025 %
    30,  // U+0026 &
    40,  // U+0027 apostrophe
    42,  // U+0028 (
    48,  // U+0029 )
    54,  // U+002A *
    59,  // U+002B +
    64,  // U+002C ,
    66,  // U+002D -
    68,  // U+002E .
    70,  // U+002F /
    78,  // U+0030 0
    86,  // U+0031 1
    90,  // U+0032 2
    98,  // U+0033 3
    106,  // U+0034 4
    115,  // U+0035 5
    123,  // U+0036 6
    131,  // U+0037 7
    139,  // U+0038 8
    147,  // U+0039 9
    155,  // U+003A :
    157,  // U+003B ;
    160,  // U+003C <
    165,  // U+003D =
    169,  // U+003E >
    174,  // U+003F ?
    182,  // U+0040 @
    191,  // U+0041 A
    200,  // U+0042 B
    208,  // U+0043 C
    216,  // U+0044 D
    224,  // U+0045 E
    231,  // U+0046 F
    238,  // U+0047 G
    246,  // U+0048 H
    254,  // U+0049 I
    257,  // U+004A J
    265,  // U+004B K
    273,  // U+004C L
    280,  // U+004D M
    289,  // U+004E N
    297,  // U+004F O
    305,  // U+0050 P
    313,  // U+0051 Q
    323,  // U+0052 R
    331,  // U+0053 S
    339,  // U+0054 T
    348,  // U+0055 U
    356,  // U+0056 V
    365,  // U+0057 W
    377,  // U+0058 X
    384,  // U+0059 Y
    391,  // U+005A Z
    398,  // U+005B [
    402,  // U+005C backslash
    410,  // U+005D ]
    414,  // U+005E ^
    417,  // U+005F _
    419,  // U+0060 `
    421,  // U+0061 a
    427,  // U+0062 b
    434,  // U+0063 c
    440,  // U+0064 d
    447,  // U+0065 e
    453,  // U+0066 f
    459,  // U+0067 g
    467,  // U+0068 h
    474,  // U+0069 i
    477,  // U+006A j
    483,  // U+006B k
    490,  // U+006C l
    493,  // U+006D m
    502,  // U+006E n
    508,  // U+006F o
    514,  // U+0070 p
    521,  // U+0071 q
    528,  // U+0072 r
    534,  // U+0073 s
    540,  // U+0074 t
    546,  // U+0075 u
    552,  // U+0076 v
    558,  // U+0077 w
    567,  // U+0078 x
    573,  // U+0079 y
    582,  // U+007A z
    588,  // U+007B {
    594,  // U+007C |
    597,  // U+007D }
    603,  // U+007E ~
];

/// Offsets into the packed data for code points U+00A0..=U+00FF.
pub const LATIN_1: [u16; 96] = [
    606,  // U+00A0
    608,  // U+00A1
    611,  // U+00A2
    618,  // U+00A3
    626,  // U+00A4
    633,  // U+00A5
    640,  // U+00A6
    643,  // U+00A7
    653,  // U+00A8
    655,  // U+00A9
    664,  // U+00AA
    669,  // U+00AB
    674,  // U+00AC
    677,  // U+00AD
    679,  // U+00AE
    688,  // U+00AF
    690,  // U+00B0
    693,  // U+00B1
    699,  // U+00B2
    702,  // U+00B3
    705,  // U+00B4
    707,  // U+00B5
    717,  // U+00B6
    728,  // U+00B7
    730,  // U+00B8
    732,  // U+00B9
    735,  // U+00BA
    740,  // U+00BB
    745,  // U+00BC
    758,  // U+00BD
    771,  // U+00BE
    784,  // U+00BF
    791,  // U+00C0
    803,  // U+00C1
    815,  // U+00C2
    827,  // U+00C3
    839,  // U+00C4
    850,  // U+00C5
    861,  // U+00C6
    874,  // U+00C7
    884,  // U+00C8
    893,  // U+00C9
    902,  // U+00CA
    911,  // U+00CB
    919,  // U+00CC
    923,  // U+00CD
    927,  // U+00CE
    933,  // U+00CF
    939,  // U+00D0
    948,  // U+00D1
    958,  // U+00D2
    968,  // U+00D3
    978,  // U+00D4
    988,  // U+00D5
    998,  // U+00D6
    1008,  // U+00D7
    1013,  // U+00D8
    1023,  // U+00D9
    1033,  // U+00DA
    1043,  // U+00DB
    1053,  // U+00DC
    1063,  // U+00DD
    1072,  // U+00DE
    1079,  // U+00DF
    1087,  // U+00E0
    1095,  // U+00E1
    1103,  // U+00E2
    1111,  // U+00E3
    1119,  // U+00E4
    1126,  // U+00E5
    1135,  // U+00E6
    1144,  // U+00E7
    1151,  // U+00E8
    1159,  // U+00E9
    1167,  // U+00EA
    1175,  // U+00EB
    1182,  // U+00EC
    1186,  // U+00ED
    1190,  // U+00EE
    1195,  // U+00EF
    1200,  // U+00F0
    1207,  // U+00F1
    1215,  // U+00F2
    1223,  // U+00F3
    1231,  // U+00F4
    1239,  // U+00F5
    1247,  // U+00F6
    1254,  // U+00F7
    1259,  // U+00F8
    1267,  // U+00F9
    1275,  // U+00FA
    1283,  // U+00FB
    1291,  // U+00FC
    1298,  // U+00FD
    1309,  // U+00FE
    1317,  // U+00FF
];

/// Offsets into the packed data for code points U+0152..=U+0153.
pub const LATIN_EXTENDED_A: [u16; 2] = [
    1327,  // U+0152
    1340,  // U+0153
];

/// Offsets into the packed data for code points U+2018..=U+2022.
pub const GENERAL_PUNCTUATION: [u16; 11] = [
    1349,  // U+2018
    1351,  // U+2019
    1353,  // U+201A
    1355,  // U+201B
    1357,  // U+201C
    1360,  // U+201D
    1363,  // U+201E
    1366,  // U+201F
    1369,  // U+2020
    1376,  // U+2021
    1384,  // U+2022
];

/// Offsets into the packed data for code points U+20AC..=U+20AC.
pub const CURRENCY_SYMBOLS: [u16; 1] = [
    1390,  // U+20AC
];

/// Offsets into the packed data for code points U+FFFD..=U+FFFD.
pub const SPECIALS: [u16; 1] = [
    1399,  // U+FFFD
];

/// Packed glyph records, words 0..88.
pub const DATA_0: [u32; 88] = [
    0x0004020e, 0x00000000, 0x00021206, 0xfffffff0, 0xf0000000, 0x00060406, 0xcf3cf300, 0x000e0a06,
    0x03300cc3, 0xffcfff0c, 0xc0330fff, 0x3ffc3300, 0xcc000000, 0x000a1604, 0x0c0303f0, 0xfcccf33c,
    0xc3303c0f, 0x00f03c0c, 0xc330cc33, 0xccf333f0, 0xfc0c0300, 0x000e1206, 0x3ffcfffc, 0x30f0c3c3,
    0x330cc3cc, 0x0f300300, 0x0c00cf03, 0x3c330ccc, 0x3c30f0c3, 0xc0f303c0, 0x00101206, 0x0f000f00,
    0x30c030c0, 0x33003300, 0x0c000c00, 0x33003300, 0xc0ccc0cc, 0xc030c030, 0xc0ccc0cc, 0x3f033f03,
    0x00020406, 0xff000000, 0x00061604, 0x0c330c30, 0xcc30c30c, 0x30c30c30, 0x30c30c0c, 0x30000000,
    0x00061604, 0xc3030c30, 0xc0c30c30, 0xc30c30c3, 0x30c30cc3, 0x00000000, 0x000a0a08, 0x0c030ccf,
    0x333f0fc3, 0x30ccc0f0, 0x30000000, 0x000a0a0a, 0x0c0300c0, 0x30fffff0, 0xc0300c03, 0x00000000,
    0x00040616, 0x3333cc00, 0x000a020e, 0xfffff000, 0x00020216, 0xf0000000, 0x000a1404, 0x00c0300c,
    0x030300c0, 0x300c0c03, 0x00c03030, 0x0c0300c0, 0xc0300c03, 0x00000000, 0x000c1206, 0x0f00f030,
    0xc30cc03c, 0x03c03c03, 0xc03c03c0, 0x3c03c03c, 0x0330c30c, 0x0f00f000, 0x00041206, 0x33ff3333,
];

/// Packed glyph records, words 88..176.
pub const DATA_1: [u32; 88] = [
    0x33333333, 0x33000000, 0x000c1206, 0x0fc0fc30, 0x3303c03c, 0x03003003, 0x00c00c03, 0x00300c00,
    0xc0300300, 0xffffff00, 0x000c1206, 0xffffff00, 0xc00c0300, 0x300f00f0, 0x00c00c00, 0x30030030,
    0x03c0cc0c, 0x3f03f000, 0x000e1206, 0x003000c0, 0x0f003c03, 0x300cc0c3, 0x030c3030, 0xc0cc0330,
    0x0cffffff, 0xf003000c, 0x003000c0, 0x000c1206, 0xffffffc0, 0x0c00c00c, 0x00ffcffc, 0x00300300,
    0x30030030, 0x03c03c03, 0x3fc3fc00, 0x000c1206, 0x0fc0fc30, 0x0300c00c, 0x00ffcffc, 0xc03c03c0,
    0x3c03c03c, 0x03c03c03, 0x3fc3fc00, 0x000c1206, 0xffffff00, 0x300300c0, 0x0c00c00c, 0x03003003,
    0x00300c00, 0xc00c00c0, 0x0c00c000, 0x000c1206, 0x3fc3fcc0, 0x3c03c03c, 0x033fc3fc, 0xc03c03c0,
    0x3c03c03c, 0x03c03c03, 0x3fc3fc00, 0x000c1206, 0x3fc3fcc0, 0x3c03c03c, 0x03c03c03, 0xc03c033f,
    0xf3ff0030, 0x0300c00c, 0x3f03f000, 0x00020c0c, 0xf0000f00, 0x0004100c, 0x33000000, 0x003333cc,
    0x00080e0a, 0x03030c0c, 0x3030c0c0, 0x30300c0c, 0x03030000, 0x000a080e, 0xfffff000, 0x0000000f,
    0xffff0000, 0x00080e0a, 0xc0c03030, 0x0c0c0303, 0x0c0c3030, 0xc0c00000, 0x000c1206, 0x3fc3fcc0,
];

/// Packed glyph records, words 176..264.
pub const DATA_2: [u32; 88] = [
    0x3c03c03c, 0x0300c00c, 0x0300300c, 0x00c00c00, 0xc0000000, 0x0c00c000, 0x00101008, 0x0ff00ff0,
    0x300c300c, 0xc3f3c3f3, 0xcc33cc33, 0xcc33cc33, 0xc3fcc3fc, 0x30003000, 0x0fc00fc0, 0x000e1206,
    0x03000c00, 0x3000c00c, 0xc03300cc, 0x03303030, 0xc0c3030c, 0x0cffffff, 0xfc00f003, 0xc00f0030,
    0x000c1206, 0xffcffcc0, 0x3c03c03c, 0x03ffcffc, 0xc03c03c0, 0x3c03c03c, 0x03c03c03, 0xffcffc00,
    0x000c1206, 0x3fc3fcc0, 0x3c03c00c, 0x00c00c00, 0xc00c00c0, 0x0c00c00c, 0x00c03c03, 0x3fc3fc00,
    0x000c1206, 0xff0ff0c0, 0xcc0cc03c, 0x03c03c03, 0xc03c03c0, 0x3c03c03c, 0x03c0cc0c, 0xff0ff000,
    0x000a1206, 0xfffffc03, 0x00c0300c, 0x0300ff3f, 0xcc0300c0, 0x300c0300, 0xfffff000, 0x000a1206,
    0xfffffc03, 0x00c0300c, 0x0300ff3f, 0xcc0300c0, 0x300c0300, 0xc0300000, 0x000c1206, 0x3fc3fcc0,
    0x3c03c00c, 0x00c00c00, 0xc3fc3fc0, 0x3c03c03c, 0x03c03c03, 0x3fc3fc00, 0x000c1206, 0xc03c03c0,
    0x3c03c03c, 0x03c03c03, 0xffffffc0, 0x3c03c03c, 0x03c03c03, 0xc03c0300, 0x00021206, 0xffffffff,
    0xf0000000, 0x000c1206, 0x00300300, 0x30030030, 0x03003003, 0x00300300, 0x3003c03c, 0x03c03c03,
];

/// Packed glyph records, words 264..352.
pub const DATA_3: [u32; 88] = [
    0x3fc3fc00, 0x000c1206, 0xc03c03c0, 0xcc0cc30c, 0x30cc0cc0, 0xf00f00cc, 0x0cc0c30c, 0x30c0cc0c,
    0xc03c0300, 0x000a1206, 0xc0300c03, 0x00c0300c, 0x0300c030, 0x0c0300c0, 0x300c0300, 0xfffff000,
    0x000e1206, 0xc00f003f, 0x03fc0fcc, 0xcf333c30, 0xf0c3c00f, 0x003c00f0, 0x03c00f00, 0x3c00f003,
    0xc00f0030, 0x000c1206, 0xf03f03f0, 0x3f03cc3c, 0xc3cc3cc3, 0xc33c33c3, 0x3c33c0fc, 0x0fc0fc0f,
    0xc03c0300, 0x000c1206, 0x3fc3fcc0, 0x3c03c03c, 0x03c03c03, 0xc03c03c0, 0x3c03c03c, 0x03c03c03,
    0x3fc3fc00, 0x000c1206, 0xffcffcc0, 0x3c03c03c, 0x03c03c03, 0xffcffcc0, 0x0c00c00c, 0x00c00c00,
    0xc00c0000, 0x000c1606, 0x3fc3fcc0, 0x3c03c03c, 0x03c03c03, 0xc03c03c0, 0x3c03c03c, 0x03c03c03,
    0x3fc3fc03, 0x003000f0, 0x0f000000, 0x000c1206, 0xffcffcc0, 0x3c03c03c, 0x03c03c03, 0xffcffcc3,
    0x0c30c0cc, 0x0cc03c03, 0xc03c0300, 0x000c1206, 0x3fc3fcc0, 0x3c03c00c, 0x00c00c00, 0x3fc3fc00,
    0x30030030, 0x03c03c03, 0x3fc3fc00, 0x000e1206, 0xfffffff0, 0x3000c003, 0x000c0030, 0x00c00300,
    0x0c003000, 0xc003000c, 0x003000c0, 0x03000c00, 0x000c1206, 0xc03c03c0, 0x3c03c03c, 0x03c03c03,
];

/// Packed glyph records, words 352..440.
pub const DATA_4: [u32; 88] = [
    0xc03c03c0, 0x3c03c03c, 0x03c03c03, 0x3fc3fc00, 0x000e1206, 0xc00f003c, 0x00f003c0, 0x0f003303,
    0x0c0c3030, 0xc0c0cc03, 0x300cc033, 0x003000c0, 0x03000c00, 0x00121206, 0xc000f000, 0x3c000f00,
    0x03c0c0f0, 0x30330c30, 0xc30c3333, 0x0cccc333, 0x30cccc0c, 0x0c030300, 0xc0c03030, 0x0c0c0303,
    0x00000000, 0x000a1206, 0xc0f03c0f, 0x03330cc3, 0x30cc0c03, 0x0330cc33, 0x0ccc0f03, 0xc0f03000,
    0x000a1206, 0xc0f03c0f, 0x03c0f033, 0x30cc330c, 0xc0c0300c, 0x0300c030, 0x0c030000, 0x000a1206,
    0xfffff00c, 0x030300c0, 0x300c0c03, 0x0300c030, 0x0c0c0300, 0xfffff000, 0x00041604, 0xffcccccc,
    0xcccccccc, 0xccccff00, 0x000a1404, 0xc0300c03, 0x00300c03, 0x00c00c03, 0x00c03003, 0x00c0300c,
    0x00c0300c, 0x03000000, 0x00041604, 0xff333333, 0x33333333, 0x3333ff00, 0x00060806, 0x30c30ccf,
    0x3cf30000, 0x00100216, 0xffffffff, 0x00040406, 0xcc330000, 0x000a0e0a, 0x3f0fcc0f, 0x0300c033,
    0xfcffc0f0, 0x3c0f033f, 0xcff00000, 0x000a1206, 0xc0300c03, 0x00ff3fcc, 0x0f03c0f0, 0x3c0f03c0,
    0xf03c0f03, 0xff3fc000, 0x000a0e0a, 0x3f0fcc0f, 0x03c0300c, 0x0300c030, 0x0c0f033f, 0x0fc00000,
];

/// Packed glyph records, words 440..528.
pub const DATA_5: [u32; 88] = [
    0x000a1206, 0x00c0300c, 0x033fcffc, 0x0f03c0f0, 0x3c0f03c0, 0xf03c0f03, 0x3fcff000, 0x000a0e0a,
    0x3f0fcc0f, 0x03c0f03f, 0xffffc030, 0x0c0f033f, 0x0fc00000, 0x00081206, 0x0f0f3030, 0xfcfc3030,
    0x30303030, 0x30303030, 0x30300000, 0x000a140a, 0x3fcffc0f, 0x03c0f03c, 0x0f03c0f0, 0x3c0f033f,
    0xcff00c03, 0xc0f033f0, 0xfc000000, 0x000a1206, 0xc0300c03, 0x00cf33cf, 0x0fc3c0f0, 0x3c0f03c0,
    0xf03c0f03, 0xc0f03000, 0x00021206, 0xf0ffffff, 0xf0000000, 0x00061806, 0x0c30000c, 0x30c30c30,
    0xc30c30c3, 0x0c30c30c, 0x3f3c0000, 0x000a1206, 0xc0300c03, 0x00c0f03c, 0x330ccc33, 0x0f03c0cc,
    0x330c330c, 0xc0f03000, 0x00021206, 0xffffffff, 0xf0000000, 0x00120e0a, 0xcf0f33c3, 0xcf0f0fc3,
    0xc3c0c0f0, 0x303c0c0f, 0x0303c0c0, 0xf0303c0c, 0x0f0303c0, 0xc0f03030, 0x000a0e0a, 0xcf33cf0f,
    0xc3c0f03c, 0x0f03c0f0, 0x3c0f03c0, 0xf0300000, 0x000a0e0a, 0x3f0fcc0f, 0x03c0f03c, 0x0f03c0f0,
    0x3c0f033f, 0x0fc00000, 0x000a120a, 0xff3fcc0f, 0x03c0f03c, 0x0f03c0f0, 0x3c0f03ff, 0x3fcc0300,
    0xc0300000, 0x000a120a, 0x3fcffc0f, 0x03c0f03c, 0x0f03c0f0, 0x3c0f033f, 0xcff00c03, 0x00c03000,
];

/// Packed glyph records, words 528..616.
pub const DATA_6: [u32; 88] = [
    0x000a0e0a, 0xcff3ff03, 0xc0c0300c, 0x0300c030, 0x0c0300c0, 0x30000000, 0x000a0e0a, 0x3f0fcc0f,
    0x03c03003, 0xf0fc00c0, 0x3c0f033f, 0x0fc00000, 0x00081206, 0x30303030, 0xfcfc3030, 0x30303030,
    0x30303030, 0x0f0f0000, 0x000a0e0a, 0xc0f03c0f, 0x03c0f03c, 0x0f03c0f0, 0x3c3f0f3c, 0xcf300000,
    0x000a0e0a, 0xc0f03c0f, 0x03c0f033, 0x30cc330c, 0xc0c0300c, 0x03000000, 0x00120e0a, 0xc0c0f030,
    0x3c0c0f03, 0x0333330c, 0xccc33330, 0xcccc0c0c, 0x030300c0, 0xc030300c, 0x0c030300, 0x000a0e0a,
    0xc0f03c0f, 0x03330cc0, 0xc030330c, 0xcc0f03c0, 0xf0300000, 0x000c140a, 0x30330330, 0x33033033,
    0x030cc0cc, 0x0cc0cc03, 0x00300300, 0x300c00c0, 0x0c00c0f0, 0x0f000000, 0x000a0e0a, 0xfffff00c,
    0x030300c0, 0xc030300c, 0x0c0300ff, 0xfff00000, 0x00061604, 0x0c330c30, 0xc30c30cc, 0x3030c30c,
    0x30c30c0c, 0x30000000, 0x00021604, 0xffffffff, 0xfff00000, 0x00061604, 0xc3030c30, 0xc30c30c0,
    0xc330c30c, 0x30c30cc3, 0x00000000, 0x000c0406, 0x3c33c3c3, 0xcc3c0000, 0x0004020e, 0x00000000,
    0x00021206, 0xf0ffffff, 0xf0000000, 0x000a1208, 0x0c0303f0, 0xfcccf33c, 0xc330cc33, 0x0cc330cc,
];

/// Packed glyph records, words 616..704.
pub const DATA_7: [u32; 88] = [
    0xf333f0fc, 0x0c030000, 0x000c1206, 0x03c03c0c, 0x00c00c00, 0xc00c00c0, 0xff0ff030, 0x03003003,
    0x00300300, 0xffffff00, 0x000c1006, 0x30c30c0f, 0x00f030c3, 0x0cc03c03, 0xc03c0330, 0xc30c0f00,
    0xf030c30c, 0x000a1206, 0xc0f03330, 0xccfffff0, 0xc030ffff, 0xf0c0300c, 0x0300c030, 0x0c030000,
    0x00021604, 0xfffff0ff, 0xfff00000, 0x000c1606, 0x3fc3fcc0, 0x3c03c00c, 0x003c03c0, 0xc3cc3cc0,
    0x3c033c33, 0xc303c03c, 0x003003c0, 0x3c033fc3, 0xfc000000, 0x00060206, 0xcf300000, 0x00101008,
    0x0ff00ff0, 0x300c300c, 0xc3c3c3c3, 0xcc03cc03, 0xcc03cc03, 0xc3c3c3c3, 0x300c300c, 0x0ff00ff0,
    0x00080e06, 0x3c3c0303, 0x3f3fc3c3, 0x3f3f0000, 0xffff0000, 0x000c0a0e, 0x0c30c330, 0xc30cc30c,
    0x3030c30c, 0x0c30c300, 0x000a060e, 0xfffff00c, 0x0300c030, 0x000a020e, 0xfffff000, 0x00101008,
    0x0ff00ff0, 0x300c300c, 0xcfc3cfc3, 0xcc33cc33, 0xcfc3cfc3, 0xcc33cc33, 0x300c300c, 0x0ff00ff0,
    0x00060206, 0xfff00000, 0x00080806, 0x3c3cc3c3, 0xc3c33c3c, 0x000a0e0a, 0x0c0300c0, 0x30fffff0,
    0xc0300c03, 0x000000ff, 0xfff00000, 0x00060a02, 0xfff0c3ff, 0xfc30fff0, 0x00060a02, 0xfff0c3ff,
];

/// Packed glyph records, words 704..792.
pub const DATA_8: [u32; 88] = [
    0xf0c3fff0, 0x00040406, 0x33cc0000, 0x0010120a, 0x03030303, 0x03030303, 0x0c0c0c0c, 0x0c0c0c0c,
    0x0c0c0c0c, 0x30303030, 0x3fcc3fcc, 0xc000c000, 0xc000c000, 0x000e1606, 0x3ffcffff, 0xf33fccff,
    0x33fccff3, 0x3fcc3f30, 0xfcc03300, 0xcc03300c, 0xc03300cc, 0x03300cc0, 0x3300cc03, 0x300cc000,
    0x00020210, 0xf0000000, 0x00040618, 0xcc33ff00, 0x00060a02, 0x30cf3c30, 0xc30cfff0, 0x00080e06,
    0x3c3cc3c3, 0xc3c3c3c3, 0x3c3c0000, 0xffff0000, 0x000c0a0e, 0xc30c3030, 0xc30c0c30, 0xc330c30c,
    0xc30c3000, 0x00121402, 0x300c0c03, 0x0f00c3c0, 0x3030300c, 0x0c030300, 0xc0c0fcc0, 0x3f30000c,
    0xcc033303, 0x0cc0c330, 0x30fc0c3f, 0x0c00c300, 0x30c00c30, 0x03000000, 0x00121402, 0x300c0c03,
    0x0f00c3c0, 0x3030300c, 0x0c030300, 0xc0c0fcc0, 0x3f30000c, 0xfc033f03, 0x00c0c030, 0x30fc0c3f,
    0x0c0c0303, 0x00c0fc30, 0x3f000000, 0x00121402, 0xfc0c3f03, 0x00c0c030, 0x30fc303f, 0x0c00c300,
    0x30c0fcc0, 0x3f30000c, 0xcc033303, 0x0cc0c330, 0x30fc0c3f, 0x0c00c300, 0x30c00c30, 0x03000000,
    0x000a1206, 0x0c030000, 0x000c0300, 0xc030300c, 0x0c0300c0, 0xf03c0f03, 0x3f0fc000, 0x000e1800,
];

/// Packed glyph records, words 792..880.
pub const DATA_9: [u32; 88] = [
    0x0c003000, 0x3000c000, 0x00000030, 0x00c00300, 0x0c00cc03, 0x300cc033, 0x03030c0c, 0x3030c0cf,
    0xffffffc0, 0x0f003c00, 0xf0030000, 0x000e1800, 0x00c00300, 0x3000c000, 0x00000030, 0x00c00300,
    0x0c00cc03, 0x300cc033, 0x03030c0c, 0x3030c0cf, 0xffffffc0, 0x0f003c00, 0xf0030000, 0x000e1800,
    0x03000c00, 0xcc033000, 0x00000030, 0x00c00300, 0x0c00cc03, 0x300cc033, 0x03030c0c, 0x3030c0cf,
    0xffffffc0, 0x0f003c00, 0xf0030000, 0x000e1800, 0x0f0c3c33, 0x0f0c3c00, 0x00000030, 0x00c00300,
    0x0c00cc03, 0x300cc033, 0x03030c0c, 0x3030c0cf, 0xffffffc0, 0x0f003c00, 0xf0030000, 0x000e1602,
    0x0cc03300, 0x00000003, 0x000c0030, 0x00c00cc0, 0x3300cc03, 0x303030c0, 0xc3030c0c, 0xfffffffc,
    0x00f003c0, 0x0f003000, 0x000e1602, 0x03000c00, 0xcc033003, 0x000c0030, 0x00c00cc0, 0x3300cc03,
    0x303030c0, 0xc3030c0c, 0xfffffffc, 0x00f003c0, 0x0f003000, 0x00141206, 0x00fff00f, 0xff033000,
    0x33000330, 0x0033000c, 0x3000c300, 0x0fffc0ff, 0xfc303003, 0x03003030, 0x030300c0, 0x300c0300,
    0xc03ffc03, 0xff000000, 0x000c1806, 0x3fc3fcc0, 0x3c03c00c, 0x00c00c00, 0xc00c00c0, 0x0c00c00c,
];

/// Packed glyph records, words 880..968.
pub const DATA_10: [u32; 88] = [
    0x00c03c03, 0x3fc3fc03, 0x003000c0, 0x0c030030, 0x000a1800, 0x300c00c0, 0x3000000f, 0xffffc030,
    0x0c0300c0, 0x300ff3fc, 0xc0300c03, 0x00c0300f, 0xffff0000, 0x000a1800, 0x0300c0c0, 0x3000000f,
    0xffffc030, 0x0c0300c0, 0x300ff3fc, 0xc0300c03, 0x00c0300f, 0xffff0000, 0x000a1800, 0x0c030330,
    0xcc00000f, 0xffffc030, 0x0c0300c0, 0x300ff3fc, 0xc0300c03, 0x00c0300f, 0xffff0000, 0x000a1602,
    0x330cc000, 0x00fffffc, 0x0300c030, 0x0c0300ff, 0x3fcc0300, 0xc0300c03, 0x00fffff0, 0x00041800,
    0xcc330033, 0x33333333, 0x33333333, 0x00041800, 0x33cc00cc, 0xcccccccc, 0xcccccccc, 0x00061800,
    0x30ccf300, 0x030c30c3, 0x0c30c30c, 0x30c30c30, 0xc30c0000, 0x00061602, 0xcf300030, 0xc30c30c3,
    0x0c30c30c, 0x30c30c30, 0xc0000000, 0x000e1206, 0x3fc0ff03, 0x030c0c30, 0x0cc03300, 0xcc03fc0f,
    0xf03300cc, 0x03300cc0, 0x33030c0c, 0x3fc0ff00, 0x000c1800, 0x3c33c3c3, 0xcc3c0000, 0x00f03f03,
    0xf03f03cc, 0x3cc3cc3c, 0xc3c33c33, 0xc33c33c0, 0xfc0fc0fc, 0x0fc03c03, 0x000c1800, 0x0c00c003,
    0x00300000, 0x003fc3fc, 0xc03c03c0, 0x3c03c03c, 0x03c03c03, 0xc03c03c0, 0x3c03c03c, 0x033fc3fc,
];

/// Packed glyph records, words 968..1056.
pub const DATA_11: [u32; 88] = [
    0x000c1800, 0x0300300c, 0x00c00000, 0x003fc3fc, 0xc03c03c0, 0x3c03c03c, 0x03c03c03, 0xc03c03c0,
    0x3c03c03c, 0x033fc3fc, 0x000c1800, 0x0c00c033, 0x03300000, 0x003fc3fc, 0xc03c03c0, 0x3c03c03c,
    0x03c03c03, 0xc03c03c0, 0x3c03c03c, 0x033fc3fc, 0x000c1800, 0x3c33c3c3, 0xcc3c0000, 0x003fc3fc,
    0xc03c03c0, 0x3c03c03c, 0x03c03c03, 0xc03c03c0, 0x3c03c03c, 0x033fc3fc, 0x000c1602, 0x30c30c00,
    0x00003fc3, 0xfcc03c03, 0xc03c03c0, 0x3c03c03c, 0x03c03c03, 0xc03c03c0, 0x3c033fc3, 0xfc000000,
    0x000a0a0e, 0xc0f03330, 0xcc0c0303, 0x30ccc0f0, 0x30000000, 0x00101206, 0x0ff30ff3, 0x300c300c,
    0x303c303c, 0x30cc30cc, 0x330c330c, 0x3c0c3c0c, 0x300c300c, 0xf00cf00c, 0x0ff00ff0, 0x000c1800,
    0x0c00c003, 0x00300000, 0x00c03c03, 0xc03c03c0, 0x3c03c03c, 0x03c03c03, 0xc03c03c0, 0x3c03c03c,
    0x033fc3fc, 0x000c1800, 0x0300300c, 0x00c00000, 0x00c03c03, 0xc03c03c0, 0x3c03c03c, 0x03c03c03,
    0xc03c03c0, 0x3c03c03c, 0x033fc3fc, 0x000c1800, 0x0c00c033, 0x03300000, 0x00c03c03, 0xc03c03c0,
    0x3c03c03c, 0x03c03c03, 0xc03c03c0, 0x3c03c03c, 0x033fc3fc, 0x000c1602, 0x30c30c00, 0x0000c03c,
];

/// Packed glyph records, words 1056..1144.
pub const DATA_12: [u32; 88] = [
    0x03c03c03, 0xc03c03c0, 0x3c03c03c, 0x03c03c03, 0xc03c03c0, 0x3c033fc3, 0xfc000000, 0x000a1800,
    0x06018180, 0x6000000c, 0x0f03c0f0, 0x3c0f0333, 0x0cc330cc, 0x0c0300c0, 0x300c0300, 0xc0300000,
    0x000a1206, 0xc0300c03, 0x00ff3fcc, 0x0f03c0f0, 0x3c0f03ff, 0x3fcc0300, 0xc0300000, 0x000c1206,
    0x3f03f0c0, 0xcc0cc30c, 0x30cc0cc0, 0xcc0cc0c3, 0xcc3cc03c, 0x03c03c03, 0xcfccfc00, 0x000a1404,
    0x0c030030, 0x0c000003, 0xf0fcc0f0, 0x33fcffc0, 0xf03c0f03, 0xc0f033fc, 0xff000000, 0x000a1404,
    0x0c030300, 0xc0000003, 0xf0fcc0f0, 0x33fcffc0, 0xf03c0f03, 0xc0f033fc, 0xff000000, 0x000a1404,
    0x0c030330, 0xcc000003, 0xf0fcc0f0, 0x33fcffc0, 0xf03c0f03, 0xc0f033fc, 0xff000000, 0x000a1404,
    0x3ccf3cf3, 0x3c000003, 0xf0fcc0f0, 0x33fcffc0, 0xf03c0f03, 0xc0f033fc, 0xff000000, 0x000a1206,
    0x330cc000, 0x003f0fcc, 0x0f033fcf, 0xfc0f03c0, 0xf03c0f03, 0x3fcff000, 0x000a1800, 0x3c0f0c33,
    0x0cc330c3, 0xc0f00000, 0x03f0fcc0, 0xf033fcff, 0xc0f03c0f, 0x03c0f033, 0xfcff0000, 0x00120e0a,
    0x3f3f0fcf, 0xcc0c0f03, 0x0300c0c0, 0x3033fffc, 0xffffc0c0, 0x30300c0c, 0x0f03033f, 0x3f0fcfc0,
];

/// Packed glyph records, words 1144..1232.
pub const DATA_13: [u32; 88] = [
    0x000a120a, 0x3f0fcc0f, 0x03c0300c, 0x0300c030, 0x0c0f033f, 0x0fc0c030, 0x300c0000, 0x000a1404,
    0x300c00c0, 0x30000003, 0xf0fcc0f0, 0x3c0f03ff, 0xfffc0300, 0xc0f033f0, 0xfc000000, 0x000a1404,
    0x0c030300, 0xc0000003, 0xf0fcc0f0, 0x3c0f03ff, 0xfffc0300, 0xc0f033f0, 0xfc000000, 0x000a1404,
    0x0c030330, 0xcc000003, 0xf0fcc0f0, 0x3c0f03ff, 0xfffc0300, 0xc0f033f0, 0xfc000000, 0x000a1206,
    0x330cc000, 0x003f0fcc, 0x0f03c0f0, 0x3fffffc0, 0x300c0f03, 0x3f0fc000, 0x00041404, 0xcc330033,
    0x33333333, 0x33330000, 0x00041404, 0x33cc00cc, 0xcccccccc, 0xcccc0000, 0x00061404, 0x30ccf300,
    0x030c30c3, 0x0c30c30c, 0x30c30c00, 0x00061206, 0xcf300030, 0xc30c30c3, 0x0c30c30c, 0x30c00000,
    0x000a1305, 0xc03c0330, 0xfcfc33c0, 0xf0c330f0, 0x3c0f03c0, 0xf03c0f0c, 0xc30f03c0, 0x000a1404,
    0x3ccf3cf3, 0x3c00000c, 0xf33cf0fc, 0x3c0f03c0, 0xf03c0f03, 0xc0f03c0f, 0x03000000, 0x000a1404,
    0x300c00c0, 0x30000003, 0xf0fcc0f0, 0x3c0f03c0, 0xf03c0f03, 0xc0f033f0, 0xfc000000, 0x000a1404,
    0x0300c0c0, 0x30000003, 0xf0fcc0f0, 0x3c0f03c0, 0xf03c0f03, 0xc0f033f0, 0xfc000000, 0x000a1404,
];

/// Packed glyph records, words 1232..1320.
pub const DATA_14: [u32; 88] = [
    0x0c030330, 0xcc000003, 0xf0fcc0f0, 0x3c0f03c0, 0xf03c0f03, 0xc0f033f0, 0xfc000000, 0x000a1404,
    0x3ccf3cf3, 0x3c000003, 0xf0fcc0f0, 0x3c0f03c0, 0xf03c0f03, 0xc0f033f0, 0xfc000000, 0x000a1206,
    0x330cc000, 0x003f0fcc, 0x0f03c0f0, 0x3c0f03c0, 0xf03c0f03, 0x3f0fc000, 0x000a0a0a, 0x0c030000,
    0x00fffff0, 0x00000c03, 0x00000000, 0x000e0e0a, 0x0fcc3f33, 0x030c0c30, 0xf0c3c333, 0x0ccc3c30,
    0xf0c3030c, 0x0ccfc33f, 0x00000000, 0x000a1404, 0x300c00c0, 0x3000000c, 0x0f03c0f0, 0x3c0f03c0,
    0xf03c0f03, 0xc3f0f3cc, 0xf3000000, 0x000a1404, 0x0300c0c0, 0x3000000c, 0x0f03c0f0, 0x3c0f03c0,
    0xf03c0f03, 0xc3f0f3cc, 0xf3000000, 0x000a1404, 0x0c030330, 0xcc00000c, 0x0f03c0f0, 0x3c0f03c0,
    0xf03c0f03, 0xc3f0f3cc, 0xf3000000, 0x000a1206, 0x330cc000, 0x00c0f03c, 0x0f03c0f0, 0x3c0f03c0,
    0xf03c3f0f, 0x3ccf3000, 0x000c1a04, 0x0300300c, 0x00c00000, 0x00303303, 0x30330330, 0x33030cc0,
    0xcc0cc0cc, 0x03003003, 0x00300c00, 0xc00c00c0, 0xf00f0000, 0x000a1606, 0xc0300c03, 0x00ff3fcc,
    0x0f03c0f0, 0x3c0f03c0, 0xf03c0f03, 0xff3fcc03, 0x00c03000, 0x000c1806, 0x0cc0cc00, 0x00003033,
];

/// Packed glyph records, words 1320..1408.
pub const DATA_15: [u32; 88] = [
    0x03303303, 0x3033030c, 0xc0cc0cc0, 0xcc030030, 0x0300300c, 0x00c00c00, 0xc0f00f00, 0x00141206,
    0x3fcff3fc, 0xffc0300c, 0x0300c030, 0x0c0300c0, 0x300c0300, 0xc03fcc03, 0xfcc0300c, 0x0300c030,
    0x0c0300c0, 0x300c0300, 0x3fcff3fc, 0xff000000, 0x00120e0a, 0x3f3f0fcf, 0xcc0c0f03, 0x03c0c0f0,
    0x303c0fff, 0x03ffc0c0, 0x30300c0c, 0x0f03033f, 0x3f0fcfc0, 0x00040604, 0x33cccc00, 0x00040604,
    0x3333cc00, 0x00040616, 0x3333cc00, 0x00040604, 0xcccc3300, 0x000a0604, 0x30cc3c33, 0x0cc330c0,
    0x000a0604, 0x30cc330c, 0xc3c330c0, 0x000a0616, 0x30cc330c, 0xc3c330c0, 0x000a0604, 0xc330cc33,
    0x0c30cc30, 0x000a1206, 0x0c0300c0, 0x30fffff0, 0xc0300c03, 0x00c0300c, 0x0300c030, 0x0c030000,
    0x000a1606, 0x0c0300c0, 0x30fffff0, 0xc0300c03, 0x00c0300c, 0x0300c030, 0xfffff0c0, 0x300c0300,
    0x000c0c0a, 0x3fc3fcff, 0xffffffff, 0xffffffff, 0xffffff3f, 0xc3fc0000, 0x00101008, 0x03fc03fc,
    0x0c030c03, 0x30003000, 0xfff0fff0, 0x30003000, 0xfff0fff0, 0x0c030c03, 0x03fc03fc, 0x00121404,
    0x00c00030, 0x003f000f, 0xc00f3c03, 0xcf03ccf0, 0xf33cffcf, 0xfff3fff3, 0xfffcff3f, 0xff0fffc0,
];

/// Packed glyph records, words 1408..1412.
pub const DATA_16: [u32; 4] = [
    0xf3c03cf0, 0x03f000fc, 0x000c0003, 0x00000000,
];

/// Total words of packed glyph data.
pub const DATA_LEN: usize = 1412;

/// All packed glyph records in one sequence: a header word for each
/// glyph, then `ceil(w*h/32)` payload words of row-major pixels.
#[verifier::opaque]
pub open spec fn data() -> Seq<u32> {
    DATA_0@ + DATA_1@ + DATA_2@ + DATA_3@ + DATA_4@ + DATA_5@ + DATA_6@ + DATA_7@ + DATA_8@ + DATA_9@ + DATA_10@ + DATA_11@ + DATA_12@ + DATA_13@ + DATA_14@ + DATA_15@ + DATA_16@
}

/// This font's tables, for specifications.
#[verifier::opaque]
pub open spec fn model() -> crate::fonts::FontModel {
    crate::fonts::FontModel {
        basic_latin: BASIC_LATIN@,
        latin_1: LATIN_1@,
        latin_extended_a: LATIN_EXTENDED_A@,
        general_punctuation: GENERAL_PUNCTUATION@,
        currency_symbols: CURRENCY_SYMBOLS@,
        specials: SPECIALS@,
        data: data(),
        max_height: MAX_HEIGHT,
    }
}

/// Word `i` of the packed glyph data.
pub fn data_at(i: usize) -> (w: u32)
    requires
        i < DATA_LEN,
    ensures
        w == data()[i as int],
{
    proof {
        reveal(data);
    }
    if i < 88 {
        DATA_0[i]
    } else if i < 176 {
        DATA_1[i - 88]
    } else if i < 264 {
        DATA_2[i - 176]
    } else if i < 352 {
        DATA_3[i - 264]
    } else if i < 440 {
        DATA_4[i - 352]
    } else if i < 528 {
        DATA_5[i - 440]
    } else if i < 616 {
        DATA_6[i - 528]
    } else if i < 704 {
        DATA_7[i - 616]
    } else if i < 792 {
        DATA_8[i - 704]
    } else if i < 880 {
        DATA_9[i - 792]
    } else if i < 968 {
        DATA_10[i - 880]
    } else if i < 1056 {
        DATA_11[i - 968]
    } else if i < 1144 {
        DATA_12[i - 1056]
    } else if i < 1232 {
        DATA_13[i - 1144]
    } else if i < 1320 {
        DATA_14[i - 1232]
    } else if i < 1408 {
        DATA_15[i - 1320]
    } else {
        DATA_16[i - 1408]
    }
}

/// The packed data array has exactly `DATA_LEN` words.
pub proof fn lemma_data_len()
    ensures
        data().len() == DATA_LEN,
{
    reveal(data);
}

/// Offset into the packed data of the glyph record for `c`; characters
/// outside the mapped blocks fall back to the replacement glyph.
pub fn get_glyph_pattern_offset(c: char) -> (off: usize)
    ensures
        off == crate::fonts::offset_of(model(), c),
{
    proof {
        reveal(model);
    }
    let cp = c as u32;
    if 0x20 <= cp && cp <= 0x7E {
        BASIC_LATIN[(cp - 0x20) as usize] as usize
    } else if 0xA0 <= cp && cp <= 0xFF {
        LATIN_1[(cp - 0xA0) as usize] as usize
    } else if 0x152 <= cp && cp <= 0x153 {
        LATIN_EXTENDED_A[(cp - 0x152) as usize] as usize
    } else if 0x2018 <= cp && cp <= 0x2022 {
        GENERAL_PUNCTUATION[(cp - 0x2018) as usize] as usize
    } else if cp == 0x20AC {
        CURRENCY_SYMBOLS[0] as usize
    } else {
        SPECIALS[0] as usize
    }
}

} // verus!
