//! The fixed decomposition table.
//!
//! Each entry pairs one precomposed character with the codepoint sequence
//! (one to four characters) that the target filesystem stores for it.  The
//! table is given as an indexed family of entries: `key_at` and `parts_at`
//! are the specification-level source of truth, and `entry_at` hands the
//! same data to executable code.  Lookups in both directions are linear
//! scans verified against the recursive scan functions below.

use vstd::prelude::*;

verus! {

/// Number of entries in the table.
pub open spec fn table_len() -> int {
    163
}

/// The composed character of entry `i`.
pub open spec fn key_at(i: int) -> char {
    if i == 0 {
        '\u{00C0}'
    } else if i == 1 {
        '\u{00C1}'
    } else if i == 2 {
        '\u{00C2}'
    } else if i == 3 {
        '\u{00C3}'
    } else if i == 4 {
        '\u{00C4}'
    } else if i == 5 {
        '\u{00C5}'
    } else if i == 6 {
        '\u{00C7}'
    } else if i == 7 {
        '\u{00C8}'
    } else if i == 8 {
        '\u{00C9}'
    } else if i == 9 {
        '\u{00CA}'
    } else if i == 10 {
        '\u{00CB}'
    } else if i == 11 {
        '\u{00CC}'
    } else if i == 12 {
        '\u{00CD}'
    } else if i == 13 {
        '\u{00CE}'
    } else if i == 14 {
        '\u{00CF}'
    } else if i == 15 {
        '\u{00D1}'
    } else if i == 16 {
        '\u{00D2}'
    } else if i == 17 {
        '\u{00D3}'
    } else if i == 18 {
        '\u{00D4}'
    } else if i == 19 {
        '\u{00D5}'
    } else if i == 20 {
        '\u{00D6}'
    } else if i == 21 {
        '\u{00D9}'
    } else if i == 22 {
        '\u{00DA}'
    } else if i == 23 {
        '\u{00DB}'
    } else if i == 24 {
        '\u{00DC}'
    } else if i == 25 {
        '\u{00DD}'
    } else if i == 26 {
        '\u{00E0}'
    } else if i == 27 {
        '\u{00E1}'
    } else if i == 28 {
        '\u{00E2}'
    } else if i == 29 {
        '\u{00E3}'
    } else if i == 30 {
        '\u{00E4}'
    } else if i == 31 {
        '\u{00E5}'
    } else if i == 32 {
        '\u{00E7}'
    } else if i == 33 {
        '\u{00E8}'
    } else if i == 34 {
        '\u{00E9}'
    } else if i == 35 {
        '\u{00EA}'
    } else if i == 36 {
        '\u{00EB}'
    } else if i == 37 {
        '\u{00EC}'
    } else if i == 38 {
        '\u{00ED}'
    } else if i == 39 {
        '\u{00EE}'
    } else if i == 40 {
        '\u{00EF}'
    } else if i == 41 {
        '\u{00F1}'
    } else if i == 42 {
        '\u{00F2}'
    } else if i == 43 {
        '\u{00F3}'
    } else if i == 44 {
        '\u{00F4}'
    } else if i == 45 {
        '\u{00F5}'
    } else if i == 46 {
        '\u{00F6}'
    } else if i == 47 {
        '\u{00F9}'
    } else if i == 48 {
        '\u{00FA}'
    } else if i == 49 {
        '\u{00FB}'
    } else if i == 50 {
        '\u{00FC}'
    } else if i == 51 {
        '\u{00FD}'
    } else if i == 52 {
        '\u{00FF}'
    } else if i == 53 {
        '\u{0100}'
    } else if i == 54 {
        '\u{0101}'
    } else if i == 55 {
        '\u{0112}'
    } else if i == 56 {
        '\u{0113}'
    } else if i == 57 {
        '\u{012A}'
    } else if i == 58 {
        '\u{012B}'
    } else if i == 59 {
        '\u{014C}'
    } else if i == 60 {
        '\u{014D}'
    } else if i == 61 {
        '\u{016A}'
    } else if i == 62 {
        '\u{016B}'
    } else if i == 63 {
        '\u{010C}'
    } else if i == 64 {
        '\u{010D}'
    } else if i == 65 {
        '\u{0160}'
    } else if i == 66 {
        '\u{0161}'
    } else if i == 67 {
        '\u{017D}'
    } else if i == 68 {
        '\u{017E}'
    } else if i == 69 {
        '\u{1E15}'
    } else if i == 70 {
        '\u{1E17}'
    } else if i == 71 {
        '\u{1E37}'
    } else if i == 72 {
        '\u{1E39}'
    } else if i == 73 {
        '\u{03AC}'
    } else if i == 74 {
        '\u{03AD}'
    } else if i == 75 {
        '\u{03AE}'
    } else if i == 76 {
        '\u{03AF}'
    } else if i == 77 {
        '\u{03CC}'
    } else if i == 78 {
        '\u{03CD}'
    } else if i == 79 {
        '\u{03CE}'
    } else if i == 80 {
        '\u{03CA}'
    } else if i == 81 {
        '\u{03CB}'
    } else if i == 82 {
        '\u{0390}'
    } else if i == 83 {
        '\u{03B0}'
    } else if i == 84 {
        '\u{1F40}'
    } else if i == 85 {
        '\u{1F41}'
    } else if i == 86 {
        '\u{1F42}'
    } else if i == 87 {
        '\u{1F43}'
    } else if i == 88 {
        '\u{1F44}'
    } else if i == 89 {
        '\u{1F45}'
    } else if i == 90 {
        '\u{1F78}'
    } else if i == 91 {
        '\u{1FC3}'
    } else if i == 92 {
        '\u{1F90}'
    } else if i == 93 {
        '\u{1F91}'
    } else if i == 94 {
        '\u{1F92}'
    } else if i == 95 {
        '\u{1F93}'
    } else if i == 96 {
        '\u{1F94}'
    } else if i == 97 {
        '\u{1F95}'
    } else if i == 98 {
        '\u{1F96}'
    } else if i == 99 {
        '\u{1F97}'
    } else if i == 100 {
        '\u{1FBC}'
    } else if i == 101 {
        '\u{1F88}'
    } else if i == 102 {
        '\u{1F89}'
    } else if i == 103 {
        '\u{1F8A}'
    } else if i == 104 {
        '\u{1F8B}'
    } else if i == 105 {
        '\u{1F8C}'
    } else if i == 106 {
        '\u{1F8D}'
    } else if i == 107 {
        '\u{1F8E}'
    } else if i == 108 {
        '\u{1F8F}'
    } else if i == 109 {
        '\u{1FD2}'
    } else if i == 110 {
        '\u{1FD7}'
    } else if i == 111 {
        '\u{304C}'
    } else if i == 112 {
        '\u{304E}'
    } else if i == 113 {
        '\u{3050}'
    } else if i == 114 {
        '\u{3052}'
    } else if i == 115 {
        '\u{3054}'
    } else if i == 116 {
        '\u{3056}'
    } else if i == 117 {
        '\u{3058}'
    } else if i == 118 {
        '\u{305A}'
    } else if i == 119 {
        '\u{305C}'
    } else if i == 120 {
        '\u{305E}'
    } else if i == 121 {
        '\u{3060}'
    } else if i == 122 {
        '\u{3062}'
    } else if i == 123 {
        '\u{3065}'
    } else if i == 124 {
        '\u{3067}'
    } else if i == 125 {
        '\u{3069}'
    } else if i == 126 {
        '\u{3070}'
    } else if i == 127 {
        '\u{3071}'
    } else if i == 128 {
        '\u{3073}'
    } else if i == 129 {
        '\u{3074}'
    } else if i == 130 {
        '\u{3076}'
    } else if i == 131 {
        '\u{3077}'
    } else if i == 132 {
        '\u{3079}'
    } else if i == 133 {
        '\u{307A}'
    } else if i == 134 {
        '\u{307C}'
    } else if i == 135 {
        '\u{307D}'
    } else if i == 136 {
        '\u{3094}'
    } else if i == 137 {
        '\u{30AC}'
    } else if i == 138 {
        '\u{30AE}'
    } else if i == 139 {
        '\u{30B0}'
    } else if i == 140 {
        '\u{30B2}'
    } else if i == 141 {
        '\u{30B4}'
    } else if i == 142 {
        '\u{30B6}'
    } else if i == 143 {
        '\u{30B8}'
    } else if i == 144 {
        '\u{30BA}'
    } else if i == 145 {
        '\u{30BC}'
    } else if i == 146 {
        '\u{30BE}'
    } else if i == 147 {
        '\u{30C0}'
    } else if i == 148 {
        '\u{30C2}'
    } else if i == 149 {
        '\u{30C5}'
    } else if i == 150 {
        '\u{30C7}'
    } else if i == 151 {
        '\u{30C9}'
    } else if i == 152 {
        '\u{30D0}'
    } else if i == 153 {
        '\u{30D1}'
    } else if i == 154 {
        '\u{30D3}'
    } else if i == 155 {
        '\u{30D4}'
    } else if i == 156 {
        '\u{30D6}'
    } else if i == 157 {
        '\u{30D7}'
    } else if i == 158 {
        '\u{30D9}'
    } else if i == 159 {
        '\u{30DA}'
    } else if i == 160 {
        '\u{30DC}'
    } else if i == 161 {
        '\u{30DD}'
    } else if i == 162 {
        '\u{30F4}'
    } else {
        '\u{0000}'
    }
}

/// The decomposed sequence of entry `i`.
pub open spec fn parts_at(i: int) -> Seq<char> {
    if i == 0 {
        seq!['\u{0041}', '\u{0300}']
    } else if i == 1 {
        seq!['\u{0041}', '\u{0301}']
    } else if i == 2 {
        seq!['\u{0041}', '\u{0302}']
    } else if i == 3 {
        seq!['\u{0041}', '\u{0303}']
    } else if i == 4 {
        seq!['\u{0041}', '\u{0308}']
    } else if i == 5 {
        seq!['\u{0041}', '\u{030A}']
    } else if i == 6 {
        seq!['\u{0043}', '\u{0327}']
    } else if i == 7 {
        seq!['\u{0045}', '\u{0300}']
    } else if i == 8 {
        seq!['\u{0045}', '\u{0301}']
    } else if i == 9 {
        seq!['\u{0045}', '\u{0302}']
    } else if i == 10 {
        seq!['\u{0045}', '\u{0308}']
    } else if i == 11 {
        seq!['\u{0049}', '\u{0300}']
    } else if i == 12 {
        seq!['\u{0049}', '\u{0301}']
    } else if i == 13 {
        seq!['\u{0049}', '\u{0302}']
    } else if i == 14 {
        seq!['\u{0049}', '\u{0308}']
    } else if i == 15 {
        seq!['\u{004E}', '\u{0303}']
    } else if i == 16 {
        seq!['\u{004F}', '\u{0300}']
    } else if i == 17 {
        seq!['\u{004F}', '\u{0301}']
    } else if i == 18 {
        seq!['\u{004F}', '\u{0302}']
    } else if i == 19 {
        seq!['\u{004F}', '\u{0303}']
    } else if i == 20 {
        seq!['\u{004F}', '\u{0308}']
    } else if i == 21 {
        seq!['\u{0055}', '\u{0300}']
    } else if i == 22 {
        seq!['\u{0055}', '\u{0301}']
    } else if i == 23 {
        seq!['\u{0055}', '\u{0302}']
    } else if i == 24 {
        seq!['\u{0055}', '\u{0308}']
    } else if i == 25 {
        seq!['\u{0059}', '\u{0301}']
    } else if i == 26 {
        seq!['\u{0061}', '\u{0300}']
    } else if i == 27 {
        seq!['\u{0061}', '\u{0301}']
    } else if i == 28 {
        seq!['\u{0061}', '\u{0302}']
    } else if i == 29 {
        seq!['\u{0061}', '\u{0303}']
    } else if i == 30 {
        seq!['\u{0061}', '\u{0308}']
    } else if i == 31 {
        seq!['\u{0061}', '\u{030A}']
    } else if i == 32 {
        seq!['\u{0063}', '\u{0327}']
    } else if i == 33 {
        seq!['\u{0065}', '\u{0300}']
    } else if i == 34 {
        seq!['\u{0065}', '\u{0301}']
    } else if i == 35 {
        seq!['\u{0065}', '\u{0302}']
    } else if i == 36 {
        seq!['\u{0065}', '\u{0308}']
    } else if i == 37 {
        seq!['\u{0069}', '\u{0300}']
    } else if i == 38 {
        seq!['\u{0069}', '\u{0301}']
    } else if i == 39 {
        seq!['\u{0069}', '\u{0302}']
    } else if i == 40 {
        seq!['\u{0069}', '\u{0308}']
    } else if i == 41 {
        seq!['\u{006E}', '\u{0303}']
    } else if i == 42 {
        seq!['\u{006F}', '\u{0300}']
    } else if i == 43 {
        seq!['\u{006F}', '\u{0301}']
    } else if i == 44 {
        seq!['\u{006F}', '\u{0302}']
    } else if i == 45 {
        seq!['\u{006F}', '\u{0303}']
    } else if i == 46 {
        seq!['\u{006F}', '\u{0308}']
    } else if i == 47 {
        seq!['\u{0075}', '\u{0300}']
    } else if i == 48 {
        seq!['\u{0075}', '\u{0301}']
    } else if i == 49 {
        seq!['\u{0075}', '\u{0302}']
    } else if i == 50 {
        seq!['\u{0075}', '\u{0308}']
    } else if i == 51 {
        seq!['\u{0079}', '\u{0301}']
    } else if i == 52 {
        seq!['\u{0079}', '\u{0308}']
    } else if i == 53 {
        seq!['\u{0041}', '\u{0304}']
    } else if i == 54 {
        seq!['\u{0061}', '\u{0304}']
    } else if i == 55 {
        seq!['\u{0045}', '\u{0304}']
    } else if i == 56 {
        seq!['\u{0065}', '\u{0304}']
    } else if i == 57 {
        seq!['\u{0049}', '\u{0304}']
    } else if i == 58 {
        seq!['\u{0069}', '\u{0304}']
    } else if i == 59 {
        seq!['\u{004F}', '\u{0304}']
    } else if i == 60 {
        seq!['\u{006F}', '\u{0304}']
    } else if i == 61 {
        seq!['\u{0055}', '\u{0304}']
    } else if i == 62 {
        seq!['\u{0075}', '\u{0304}']
    } else if i == 63 {
        seq!['\u{0043}', '\u{030C}']
    } else if i == 64 {
        seq!['\u{0063}', '\u{030C}']
    } else if i == 65 {
        seq!['\u{0053}', '\u{030C}']
    } else if i == 66 {
        seq!['\u{0073}', '\u{030C}']
    } else if i == 67 {
        seq!['\u{005A}', '\u{030C}']
    } else if i == 68 {
        seq!['\u{007A}', '\u{030C}']
    } else if i == 69 {
        seq!['\u{0065}', '\u{0304}', '\u{0300}']
    } else if i == 70 {
        seq!['\u{0065}', '\u{0304}', '\u{0301}']
    } else if i == 71 {
        seq!['\u{006C}', '\u{0323}']
    } else if i == 72 {
        seq!['\u{006C}', '\u{0323}', '\u{0304}']
    } else if i == 73 {
        seq!['\u{03B1}', '\u{0301}']
    } else if i == 74 {
        seq!['\u{03B5}', '\u{0301}']
    } else if i == 75 {
        seq!['\u{03B7}', '\u{0301}']
    } else if i == 76 {
        seq!['\u{03B9}', '\u{0301}']
    } else if i == 77 {
        seq!['\u{03BF}', '\u{0301}']
    } else if i == 78 {
        seq!['\u{03C5}', '\u{0301}']
    } else if i == 79 {
        seq!['\u{03C9}', '\u{0301}']
    } else if i == 80 {
        seq!['\u{03B9}', '\u{0308}']
    } else if i == 81 {
        seq!['\u{03C5}', '\u{0308}']
    } else if i == 82 {
        seq!['\u{03B9}', '\u{0308}', '\u{0301}']
    } else if i == 83 {
        seq!['\u{03C5}', '\u{0308}', '\u{0301}']
    } else if i == 84 {
        seq!['\u{03BF}', '\u{0313}']
    } else if i == 85 {
        seq!['\u{03BF}', '\u{0314}']
    } else if i == 86 {
        seq!['\u{03BF}', '\u{0313}', '\u{0300}']
    } else if i == 87 {
        seq!['\u{03BF}', '\u{0314}', '\u{0300}']
    } else if i == 88 {
        seq!['\u{03BF}', '\u{0313}', '\u{0301}']
    } else if i == 89 {
        seq!['\u{03BF}', '\u{0314}', '\u{0301}']
    } else if i == 90 {
        seq!['\u{03BF}', '\u{0300}']
    } else if i == 91 {
        seq!['\u{03B7}', '\u{0345}']
    } else if i == 92 {
        seq!['\u{03B7}', '\u{0345}', '\u{0313}']
    } else if i == 93 {
        seq!['\u{03B7}', '\u{0345}', '\u{0314}']
    } else if i == 94 {
        seq!['\u{03B7}', '\u{0345}', '\u{0313}', '\u{0300}']
    } else if i == 95 {
        seq!['\u{03B7}', '\u{0345}', '\u{0314}', '\u{0300}']
    } else if i == 96 {
        seq!['\u{03B7}', '\u{0345}', '\u{0313}', '\u{0301}']
    } else if i == 97 {
        seq!['\u{03B7}', '\u{0345}', '\u{0314}', '\u{0301}']
    } else if i == 98 {
        seq!['\u{03B7}', '\u{0345}', '\u{0313}', '\u{0342}']
    } else if i == 99 {
        seq!['\u{03B7}', '\u{0345}', '\u{0314}', '\u{0342}']
    } else if i == 100 {
        seq!['\u{0391}', '\u{0345}']
    } else if i == 101 {
        seq!['\u{0391}', '\u{0345}', '\u{0313}']
    } else if i == 102 {
        seq!['\u{0391}', '\u{0345}', '\u{0314}']
    } else if i == 103 {
        seq!['\u{0391}', '\u{0345}', '\u{0313}', '\u{0300}']
    } else if i == 104 {
        seq!['\u{0391}', '\u{0345}', '\u{0314}', '\u{0300}']
    } else if i == 105 {
        seq!['\u{0391}', '\u{0345}', '\u{0313}', '\u{0301}']
    } else if i == 106 {
        seq!['\u{0391}', '\u{0345}', '\u{0314}', '\u{0301}']
    } else if i == 107 {
        seq!['\u{0391}', '\u{0345}', '\u{0313}', '\u{0342}']
    } else if i == 108 {
        seq!['\u{0391}', '\u{0345}', '\u{0314}', '\u{0342}']
    } else if i == 109 {
        seq!['\u{03B9}', '\u{0308}', '\u{0300}']
    } else if i == 110 {
        seq!['\u{03B9}', '\u{0308}', '\u{0342}']
    } else if i == 111 {
        seq!['\u{304B}', '\u{3099}']
    } else if i == 112 {
        seq!['\u{304D}', '\u{3099}']
    } else if i == 113 {
        seq!['\u{304F}', '\u{3099}']
    } else if i == 114 {
        seq!['\u{3051}', '\u{3099}']
    } else if i == 115 {
        seq!['\u{3053}', '\u{3099}']
    } else if i == 116 {
        seq!['\u{3055}', '\u{3099}']
    } else if i == 117 {
        seq!['\u{3057}', '\u{3099}']
    } else if i == 118 {
        seq!['\u{3059}', '\u{3099}']
    } else if i == 119 {
        seq!['\u{305B}', '\u{3099}']
    } else if i == 120 {
        seq!['\u{305D}', '\u{3099}']
    } else if i == 121 {
        seq!['\u{305F}', '\u{3099}']
    } else if i == 122 {
        seq!['\u{3061}', '\u{3099}']
    } else if i == 123 {
        seq!['\u{3064}', '\u{3099}']
    } else if i == 124 {
        seq!['\u{3066}', '\u{3099}']
    } else if i == 125 {
        seq!['\u{3068}', '\u{3099}']
    } else if i == 126 {
        seq!['\u{306F}', '\u{3099}']
    } else if i == 127 {
        seq!['\u{306F}', '\u{309A}']
    } else if i == 128 {
        seq!['\u{3072}', '\u{3099}']
    } else if i == 129 {
        seq!['\u{3072}', '\u{309A}']
    } else if i == 130 {
        seq!['\u{3075}', '\u{3099}']
    } else if i == 131 {
        seq!['\u{3075}', '\u{309A}']
    } else if i == 132 {
        seq!['\u{3078}', '\u{3099}']
    } else if i == 133 {
        seq!['\u{3078}', '\u{309A}']
    } else if i == 134 {
        seq!['\u{307B}', '\u{3099}']
    } else if i == 135 {
        seq!['\u{307B}', '\u{309A}']
    } else if i == 136 {
        seq!['\u{3046}', '\u{3099}']
    } else if i == 137 {
        seq!['\u{30AB}', '\u{3099}']
    } else if i == 138 {
        seq!['\u{30AD}', '\u{3099}']
    } else if i == 139 {
        seq!['\u{30AF}', '\u{3099}']
    } else if i == 140 {
        seq!['\u{30B1}', '\u{3099}']
    } else if i == 141 {
        seq!['\u{30B3}', '\u{3099}']
    } else if i == 142 {
        seq!['\u{30B5}', '\u{3099}']
    } else if i == 143 {
        seq!['\u{30B7}', '\u{3099}']
    } else if i == 144 {
        seq!['\u{30B9}', '\u{3099}']
    } else if i == 145 {
        seq!['\u{30BB}', '\u{3099}']
    } else if i == 146 {
        seq!['\u{30BD}', '\u{3099}']
    } else if i == 147 {
        seq!['\u{30BF}', '\u{3099}']
    } else if i == 148 {
        seq!['\u{30C1}', '\u{3099}']
    } else if i == 149 {
        seq!['\u{30C4}', '\u{3099}']
    } else if i == 150 {
        seq!['\u{30C6}', '\u{3099}']
    } else if i == 151 {
        seq!['\u{30C8}', '\u{3099}']
    } else if i == 152 {
        seq!['\u{30CF}', '\u{3099}']
    } else if i == 153 {
        seq!['\u{30CF}', '\u{309A}']
    } else if i == 154 {
        seq!['\u{30D2}', '\u{3099}']
    } else if i == 155 {
        seq!['\u{30D2}', '\u{309A}']
    } else if i == 156 {
        seq!['\u{30D5}', '\u{3099}']
    } else if i == 157 {
        seq!['\u{30D5}', '\u{309A}']
    } else if i == 158 {
        seq!['\u{30D8}', '\u{3099}']
    } else if i == 159 {
        seq!['\u{30D8}', '\u{309A}']
    } else if i == 160 {
        seq!['\u{30DB}', '\u{3099}']
    } else if i == 161 {
        seq!['\u{30DB}', '\u{309A}']
    } else if i == 162 {
        seq!['\u{30A6}', '\u{3099}']
    } else {
        Seq::empty()
    }
}

/// Entry `i` as executable values: the composed character and its
/// decomposed sequence.
pub fn entry_at(i: usize) -> (e: (char, Vec<char>))
    requires
        i < table_len(),
    ensures
        e.0 == key_at(i as int),
        e.1@ == parts_at(i as int),
{
    if i == 0 {
        ('\u{00C0}', vec!['\u{0041}', '\u{0300}'])
    } else if i == 1 {
        ('\u{00C1}', vec!['\u{0041}', '\u{0301}'])
    } else if i == 2 {
        ('\u{00C2}', vec!['\u{0041}', '\u{0302}'])
    } else if i == 3 {
        ('\u{00C3}', vec!['\u{0041}', '\u{0303}'])
    } else if i == 4 {
        ('\u{00C4}', vec!['\u{0041}', '\u{0308}'])
    } else if i == 5 {
        ('\u{00C5}', vec!['\u{0041}', '\u{030A}'])
    } else if i == 6 {
        ('\u{00C7}', vec!['\u{0043}', '\u{0327}'])
    } else if i == 7 {
        ('\u{00C8}', vec!['\u{0045}', '\u{0300}'])
    } else if i == 8 {
        ('\u{00C9}', vec!['\u{0045}', '\u{0301}'])
    } else if i == 9 {
        ('\u{00CA}', vec!['\u{0045}', '\u{0302}'])
    } else if i == 10 {
        ('\u{00CB}', vec!['\u{0045}', '\u{0308}'])
    } else if i == 11 {
        ('\u{00CC}', vec!['\u{0049}', '\u{0300}'])
    } else if i == 12 {
        ('\u{00CD}', vec!['\u{0049}', '\u{0301}'])
    } else if i == 13 {
        ('\u{00CE}', vec!['\u{0049}', '\u{0302}'])
    } else if i == 14 {
        ('\u{00CF}', vec!['\u{0049}', '\u{0308}'])
    } else if i == 15 {
        ('\u{00D1}', vec!['\u{004E}', '\u{0303}'])
    } else if i == 16 {
        ('\u{00D2}', vec!['\u{004F}', '\u{0300}'])
    } else if i == 17 {
        ('\u{00D3}', vec!['\u{004F}', '\u{0301}'])
    } else if i == 18 {
        ('\u{00D4}', vec!['\u{004F}', '\u{0302}'])
    } else if i == 19 {
        ('\u{00D5}', vec!['\u{004F}', '\u{0303}'])
    } else if i == 20 {
        ('\u{00D6}', vec!['\u{004F}', '\u{0308}'])
    } else if i == 21 {
        ('\u{00D9}', vec!['\u{0055}', '\u{0300}'])
    } else if i == 22 {
        ('\u{00DA}', vec!['\u{0055}', '\u{0301}'])
    } else if i == 23 {
        ('\u{00DB}', vec!['\u{0055}', '\u{0302}'])
    } else if i == 24 {
        ('\u{00DC}', vec!['\u{0055}', '\u{0308}'])
    } else if i == 25 {
        ('\u{00DD}', vec!['\u{0059}', '\u{0301}'])
    } else if i == 26 {
        ('\u{00E0}', vec!['\u{0061}', '\u{0300}'])
    } else if i == 27 {
        ('\u{00E1}', vec!['\u{0061}', '\u{0301}'])
    } else if i == 28 {
        ('\u{00E2}', vec!['\u{0061}', '\u{0302}'])
    } else if i == 29 {
        ('\u{00E3}', vec!['\u{0061}', '\u{0303}'])
    } else if i == 30 {
        ('\u{00E4}', vec!['\u{0061}', '\u{0308}'])
    } else if i == 31 {
        ('\u{00E5}', vec!['\u{0061}', '\u{030A}'])
    } else if i == 32 {
        ('\u{00E7}', vec!['\u{0063}', '\u{0327}'])
    } else if i == 33 {
        ('\u{00E8}', vec!['\u{0065}', '\u{0300}'])
    } else if i == 34 {
        ('\u{00E9}', vec!['\u{0065}', '\u{0301}'])
    } else if i == 35 {
        ('\u{00EA}', vec!['\u{0065}', '\u{0302}'])
    } else if i == 36 {
        ('\u{00EB}', vec!['\u{0065}', '\u{0308}'])
    } else if i == 37 {
        ('\u{00EC}', vec!['\u{0069}', '\u{0300}'])
    } else if i == 38 {
        ('\u{00ED}', vec!['\u{0069}', '\u{0301}'])
    } else if i == 39 {
        ('\u{00EE}', vec!['\u{0069}', '\u{0302}'])
    } else if i == 40 {
        ('\u{00EF}', vec!['\u{0069}', '\u{0308}'])
    } else if i == 41 {
        ('\u{00F1}', vec!['\u{006E}', '\u{0303}'])
    } else if i == 42 {
        ('\u{00F2}', vec!['\u{006F}', '\u{0300}'])
    } else if i == 43 {
        ('\u{00F3}', vec!['\u{006F}', '\u{0301}'])
    } else if i == 44 {
        ('\u{00F4}', vec!['\u{006F}', '\u{0302}'])
    } else if i == 45 {
        ('\u{00F5}', vec!['\u{006F}', '\u{0303}'])
    } else if i == 46 {
        ('\u{00F6}', vec!['\u{006F}', '\u{0308}'])
    } else if i == 47 {
        ('\u{00F9}', vec!['\u{0075}', '\u{0300}'])
    } else if i == 48 {
        ('\u{00FA}', vec!['\u{0075}', '\u{0301}'])
    } else if i == 49 {
        ('\u{00FB}', vec!['\u{0075}', '\u{0302}'])
    } else if i == 50 {
        ('\u{00FC}', vec!['\u{0075}', '\u{0308}'])
    } else if i == 51 {
        ('\u{00FD}', vec!['\u{0079}', '\u{0301}'])
    } else if i == 52 {
        ('\u{00FF}', vec!['\u{0079}', '\u{0308}'])
    } else if i == 53 {
        ('\u{0100}', vec!['\u{0041}', '\u{0304}'])
    } else if i == 54 {
        ('\u{0101}', vec!['\u{0061}', '\u{0304}'])
    } else if i == 55 {
        ('\u{0112}', vec!['\u{0045}', '\u{0304}'])
    } else if i == 56 {
        ('\u{0113}', vec!['\u{0065}', '\u{0304}'])
    } else if i == 57 {
        ('\u{012A}', vec!['\u{0049}', '\u{0304}'])
    } else if i == 58 {
        ('\u{012B}', vec!['\u{0069}', '\u{0304}'])
    } else if i == 59 {
        ('\u{014C}', vec!['\u{004F}', '\u{0304}'])
    } else if i == 60 {
        ('\u{014D}', vec!['\u{006F}', '\u{0304}'])
    } else if i == 61 {
        ('\u{016A}', vec!['\u{0055}', '\u{0304}'])
    } else if i == 62 {
        ('\u{016B}', vec!['\u{0075}', '\u{0304}'])
    } else if i == 63 {
        ('\u{010C}', vec!['\u{0043}', '\u{030C}'])
    } else if i == 64 {
        ('\u{010D}', vec!['\u{0063}', '\u{030C}'])
    } else if i == 65 {
        ('\u{0160}', vec!['\u{0053}', '\u{030C}'])
    } else if i == 66 {
        ('\u{0161}', vec!['\u{0073}', '\u{030C}'])
    } else if i == 67 {
        ('\u{017D}', vec!['\u{005A}', '\u{030C}'])
    } else if i == 68 {
        ('\u{017E}', vec!['\u{007A}', '\u{030C}'])
    } else if i == 69 {
        ('\u{1E15}', vec!['\u{0065}', '\u{0304}', '\u{0300}'])
    } else if i == 70 {
        ('\u{1E17}', vec!['\u{0065}', '\u{0304}', '\u{0301}'])
    } else if i == 71 {
        ('\u{1E37}', vec!['\u{006C}', '\u{0323}'])
    } else if i == 72 {
        ('\u{1E39}', vec!['\u{006C}', '\u{0323}', '\u{0304}'])
    } else if i == 73 {
        ('\u{03AC}', vec!['\u{03B1}', '\u{0301}'])
    } else if i == 74 {
        ('\u{03AD}', vec!['\u{03B5}', '\u{0301}'])
    } else if i == 75 {
        ('\u{03AE}', vec!['\u{03B7}', '\u{0301}'])
    } else if i == 76 {
        ('\u{03AF}', vec!['\u{03B9}', '\u{0301}'])
    } else if i == 77 {
        ('\u{03CC}', vec!['\u{03BF}', '\u{0301}'])
    } else if i == 78 {
        ('\u{03CD}', vec!['\u{03C5}', '\u{0301}'])
    } else if i == 79 {
        ('\u{03CE}', vec!['\u{03C9}', '\u{0301}'])
    } else if i == 80 {
        ('\u{03CA}', vec!['\u{03B9}', '\u{0308}'])
    } else if i == 81 {
        ('\u{03CB}', vec!['\u{03C5}', '\u{0308}'])
    } else if i == 82 {
        ('\u{0390}', vec!['\u{03B9}', '\u{0308}', '\u{0301}'])
    } else if i == 83 {
        ('\u{03B0}', vec!['\u{03C5}', '\u{0308}', '\u{0301}'])
    } else if i == 84 {
        ('\u{1F40}', vec!['\u{03BF}', '\u{0313}'])
    } else if i == 85 {
        ('\u{1F41}', vec!['\u{03BF}', '\u{0314}'])
    } else if i == 86 {
        ('\u{1F42}', vec!['\u{03BF}', '\u{0313}', '\u{0300}'])
    } else if i == 87 {
        ('\u{1F43}', vec!['\u{03BF}', '\u{0314}', '\u{0300}'])
    } else if i == 88 {
        ('\u{1F44}', vec!['\u{03BF}', '\u{0313}', '\u{0301}'])
    } else if i == 89 {
        ('\u{1F45}', vec!['\u{03BF}', '\u{0314}', '\u{0301}'])
    } else if i == 90 {
        ('\u{1F78}', vec!['\u{03BF}', '\u{0300}'])
    } else if i == 91 {
        ('\u{1FC3}', vec!['\u{03B7}', '\u{0345}'])
    } else if i == 92 {
        ('\u{1F90}', vec!['\u{03B7}', '\u{0345}', '\u{0313}'])
    } else if i == 93 {
        ('\u{1F91}', vec!['\u{03B7}', '\u{0345}', '\u{0314}'])
    } else if i == 94 {
        ('\u{1F92}', vec!['\u{03B7}', '\u{0345}', '\u{0313}', '\u{0300}'])
    } else if i == 95 {
        ('\u{1F93}', vec!['\u{03B7}', '\u{0345}', '\u{0314}', '\u{0300}'])
    } else if i == 96 {
        ('\u{1F94}', vec!['\u{03B7}', '\u{0345}', '\u{0313}', '\u{0301}'])
    } else if i == 97 {
        ('\u{1F95}', vec!['\u{03B7}', '\u{0345}', '\u{0314}', '\u{0301}'])
    } else if i == 98 {
        ('\u{1F96}', vec!['\u{03B7}', '\u{0345}', '\u{0313}', '\u{0342}'])
    } else if i == 99 {
        ('\u{1F97}', vec!['\u{03B7}', '\u{0345}', '\u{0314}', '\u{0342}'])
    } else if i == 100 {
        ('\u{1FBC}', vec!['\u{0391}', '\u{0345}'])
    } else if i == 101 {
        ('\u{1F88}', vec!['\u{0391}', '\u{0345}', '\u{0313}'])
    } else if i == 102 {
        ('\u{1F89}', vec!['\u{0391}', '\u{0345}', '\u{0314}'])
    } else if i == 103 {
        ('\u{1F8A}', vec!['\u{0391}', '\u{0345}', '\u{0313}', '\u{0300}'])
    } else if i == 104 {
        ('\u{1F8B}', vec!['\u{0391}', '\u{0345}', '\u{0314}', '\u{0300}'])
    } else if i == 105 {
        ('\u{1F8C}', vec!['\u{0391}', '\u{0345}', '\u{0313}', '\u{0301}'])
    } else if i == 106 {
        ('\u{1F8D}', vec!['\u{0391}', '\u{0345}', '\u{0314}', '\u{0301}'])
    } else if i == 107 {
        ('\u{1F8E}', vec!['\u{0391}', '\u{0345}', '\u{0313}', '\u{0342}'])
    } else if i == 108 {
        ('\u{1F8F}', vec!['\u{0391}', '\u{0345}', '\u{0314}', '\u{0342}'])
    } else if i == 109 {
        ('\u{1FD2}', vec!['\u{03B9}', '\u{0308}', '\u{0300}'])
    } else if i == 110 {
        ('\u{1FD7}', vec!['\u{03B9}', '\u{0308}', '\u{0342}'])
    } else if i == 111 {
        ('\u{304C}', vec!['\u{304B}', '\u{3099}'])
    } else if i == 112 {
        ('\u{304E}', vec!['\u{304D}', '\u{3099}'])
    } else if i == 113 {
        ('\u{3050}', vec!['\u{304F}', '\u{3099}'])
    } else if i == 114 {
        ('\u{3052}', vec!['\u{3051}', '\u{3099}'])
    } else if i == 115 {
        ('\u{3054}', vec!['\u{3053}', '\u{3099}'])
    } else if i == 116 {
        ('\u{3056}', vec!['\u{3055}', '\u{3099}'])
    } else if i == 117 {
        ('\u{3058}', vec!['\u{3057}', '\u{3099}'])
    } else if i == 118 {
        ('\u{305A}', vec!['\u{3059}', '\u{3099}'])
    } else if i == 119 {
        ('\u{305C}', vec!['\u{305B}', '\u{3099}'])
    } else if i == 120 {
        ('\u{305E}', vec!['\u{305D}', '\u{3099}'])
    } else if i == 121 {
        ('\u{3060}', vec!['\u{305F}', '\u{3099}'])
    } else if i == 122 {
        ('\u{3062}', vec!['\u{3061}', '\u{3099}'])
    } else if i == 123 {
        ('\u{3065}', vec!['\u{3064}', '\u{3099}'])
    } else if i == 124 {
        ('\u{3067}', vec!['\u{3066}', '\u{3099}'])
    } else if i == 125 {
        ('\u{3069}', vec!['\u{3068}', '\u{3099}'])
    } else if i == 126 {
        ('\u{3070}', vec!['\u{306F}', '\u{3099}'])
    } else if i == 127 {
        ('\u{3071}', vec!['\u{306F}', '\u{309A}'])
    } else if i == 128 {
        ('\u{3073}', vec!['\u{3072}', '\u{3099}'])
    } else if i == 129 {
        ('\u{3074}', vec!['\u{3072}', '\u{309A}'])
    } else if i == 130 {
        ('\u{3076}', vec!['\u{3075}', '\u{3099}'])
    } else if i == 131 {
        ('\u{3077}', vec!['\u{3075}', '\u{309A}'])
    } else if i == 132 {
        ('\u{3079}', vec!['\u{3078}', '\u{3099}'])
    } else if i == 133 {
        ('\u{307A}', vec!['\u{3078}', '\u{309A}'])
    } else if i == 134 {
        ('\u{307C}', vec!['\u{307B}', '\u{3099}'])
    } else if i == 135 {
        ('\u{307D}', vec!['\u{307B}', '\u{309A}'])
    } else if i == 136 {
        ('\u{3094}', vec!['\u{3046}', '\u{3099}'])
    } else if i == 137 {
        ('\u{30AC}', vec!['\u{30AB}', '\u{3099}'])
    } else if i == 138 {
        ('\u{30AE}', vec!['\u{30AD}', '\u{3099}'])
    } else if i == 139 {
        ('\u{30B0}', vec!['\u{30AF}', '\u{3099}'])
    } else if i == 140 {
        ('\u{30B2}', vec!['\u{30B1}', '\u{3099}'])
    } else if i == 141 {
        ('\u{30B4}', vec!['\u{30B3}', '\u{3099}'])
    } else if i == 142 {
        ('\u{30B6}', vec!['\u{30B5}', '\u{3099}'])
    } else if i == 143 {
        ('\u{30B8}', vec!['\u{30B7}', '\u{3099}'])
    } else if i == 144 {
        ('\u{30BA}', vec!['\u{30B9}', '\u{3099}'])
    } else if i == 145 {
        ('\u{30BC}', vec!['\u{30BB}', '\u{3099}'])
    } else if i == 146 {
        ('\u{30BE}', vec!['\u{30BD}', '\u{3099}'])
    } else if i == 147 {
        ('\u{30C0}', vec!['\u{30BF}', '\u{3099}'])
    } else if i == 148 {
        ('\u{30C2}', vec!['\u{30C1}', '\u{3099}'])
    } else if i == 149 {
        ('\u{30C5}', vec!['\u{30C4}', '\u{3099}'])
    } else if i == 150 {
        ('\u{30C7}', vec!['\u{30C6}', '\u{3099}'])
    } else if i == 151 {
        ('\u{30C9}', vec!['\u{30C8}', '\u{3099}'])
    } else if i == 152 {
        ('\u{30D0}', vec!['\u{30CF}', '\u{3099}'])
    } else if i == 153 {
        ('\u{30D1}', vec!['\u{30CF}', '\u{309A}'])
    } else if i == 154 {
        ('\u{30D3}', vec!['\u{30D2}', '\u{3099}'])
    } else if i == 155 {
        ('\u{30D4}', vec!['\u{30D2}', '\u{309A}'])
    } else if i == 156 {
        ('\u{30D6}', vec!['\u{30D5}', '\u{3099}'])
    } else if i == 157 {
        ('\u{30D7}', vec!['\u{30D5}', '\u{309A}'])
    } else if i == 158 {
        ('\u{30D9}', vec!['\u{30D8}', '\u{3099}'])
    } else if i == 159 {
        ('\u{30DA}', vec!['\u{30D8}', '\u{309A}'])
    } else if i == 160 {
        ('\u{30DC}', vec!['\u{30DB}', '\u{3099}'])
    } else if i == 161 {
        ('\u{30DD}', vec!['\u{30DB}', '\u{309A}'])
    } else {
        ('\u{30F4}', vec!['\u{30A6}', '\u{3099}'])
    }
}

/// Number of entries, as an executable value.
pub fn table_entry_count() -> (n: usize)
    ensures
        n as int == table_len(),
{
    163
}

/// Forward scan from entry `i` on: the decomposition of the first entry
/// whose key is `c`.
pub open spec fn fwd_from(i: int, c: char) -> Option<Seq<char>>
    decreases table_len() - i,
{
    if i < 0 || i >= table_len() {
        None
    } else if key_at(i) == c {
        Some(parts_at(i))
    } else {
        fwd_from(i + 1, c)
    }
}

/// The decomposition the table maps `c` to, if any.
pub open spec fn lookup_fwd(c: char) -> Option<Seq<char>> {
    fwd_from(0, c)
}

/// Reverse scan from entry `i` on: the key of the first entry whose
/// decomposition is exactly `d`.
pub open spec fn rev_from(i: int, d: Seq<char>) -> Option<char>
    decreases table_len() - i,
{
    if i < 0 || i >= table_len() {
        None
    } else if parts_at(i) == d {
        Some(key_at(i))
    } else {
        rev_from(i + 1, d)
    }
}

/// The composed character whose decomposition is exactly `d`, if any.
pub open spec fn lookup_rev(d: Seq<char>) -> Option<char> {
    rev_from(0, d)
}

/// Whether some entry at `i` or later has a decomposition strictly
/// longer than `d` that starts with `d`.
pub open spec fn ext_from(i: int, d: Seq<char>) -> bool
    decreases table_len() - i,
{
    if i < 0 || i >= table_len() {
        false
    } else if parts_at(i).len() > d.len() && parts_at(i).take(d.len() as int) == d {
        true
    } else {
        ext_from(i + 1, d)
    }
}

/// Whether `d` is a proper prefix of some entry's decomposition.
pub open spec fn has_ext(d: Seq<char>) -> bool {
    ext_from(0, d)
}

/// A forward hit names an entry: the first index at or after `i` whose
/// key is `c`.
pub proof fn lemma_fwd_witness(i: int, c: char)
    requires
        fwd_from(i, c) is Some,
    ensures
        exists|j: int|
            i <= j < table_len() && key_at(j) == c && fwd_from(i, c) == Some(parts_at(j)),
    decreases table_len() - i,
{
    if 0 <= i < table_len() && key_at(i) == c {
        assert(i <= i < table_len() && key_at(i) == c && fwd_from(i, c) == Some(parts_at(i)));
    } else {
        lemma_fwd_witness(i + 1, c);
    }
}


/// A reverse hit names an entry: some entry's decomposition is exactly
/// `d` and its key is the scan's answer.
pub proof fn lemma_rev_witness(i: int, d: Seq<char>)
    requires
        rev_from(i, d) is Some,
    ensures
        exists|j: int|
            i <= j < table_len() && parts_at(j) == d && rev_from(i, d) == Some(key_at(j)),
    decreases table_len() - i,
{
    if 0 <= i < table_len() && parts_at(i) == d {
        assert(i <= i < table_len() && parts_at(i) == d && rev_from(i, d) == Some(key_at(i)));
    } else {
        lemma_rev_witness(i + 1, d);
    }
}



/// An entry strictly extending `d` makes the extension scan hit.
pub proof fn lemma_ext_intro(i: int, j: int, d: Seq<char>)
    requires
        0 <= i <= j < table_len(),
        parts_at(j).len() > d.len(),
        parts_at(j).take(d.len() as int) == d,
    ensures
        ext_from(i, d),
    decreases table_len() - i,
{
    if !(parts_at(i).len() > d.len() && parts_at(i).take(d.len() as int) == d) {
        lemma_ext_intro(i + 1, j, d);
    }
}

/// Whether two character vectors hold the same characters.
pub(crate) fn chars_eq(a: &Vec<char>, b: &Vec<char>) -> (r: bool)
    ensures
        r == (a@ == b@),
{
    if a.len() != b.len() {
        proof {
            assert(a@.len() != b@.len());
        }
        return false;
    }
    let mut k: usize = 0;
    while k < a.len()
        invariant
            a@.len() == b@.len(),
            k <= a@.len(),
            forall|m: int| 0 <= m < k ==> a@[m] == b@[m],
        decreases a@.len() - k,
    {
        if a[k] != b[k] {
            proof {
                assert(a@[k as int] != b@[k as int]);
            }
            return false;
        }
        k = k + 1;
    }
    proof {
        assert(a@ =~= b@);
    }
    true
}

/// Whether `w` is strictly longer than `p` and starts with `p`.
fn proper_prefix_of(p: &Vec<char>, w: &Vec<char>) -> (r: bool)
    ensures
        r == (w@.len() > p@.len() && w@.take(p@.len() as int) == p@),
{
    if w.len() <= p.len() {
        return false;
    }
    let mut k: usize = 0;
    while k < p.len()
        invariant
            w@.len() > p@.len(),
            k <= p@.len(),
            forall|m: int| 0 <= m < k ==> w@[m] == p@[m],
        decreases p@.len() - k,
    {
        if w[k] != p[k] {
            proof {
                assert(w@.take(p@.len() as int)[k as int] != p@[k as int]);
            }
            return false;
        }
        k = k + 1;
    }
    proof {
        assert(w@.take(p@.len() as int) =~= p@);
    }
    true
}

/// The table entry for `c`, if `c` has one.
pub fn find_fwd(c: char) -> (r: Option<Vec<char>>)
    ensures
        r is Some <==> lookup_fwd(c) is Some,
        r is Some ==> lookup_fwd(c) == Some(r->0@),
{
    let n = table_entry_count();
    let mut i: usize = 0;
    while i < n
        invariant
            n as int == table_len(),
            i <= n,
            lookup_fwd(c) == fwd_from(i as int, c),
        decreases n - i,
    {
        let e = entry_at(i);
        if e.0 == c {
            return Some(e.1);
        }
        i = i + 1;
    }
    None
}

/// The composed character whose decomposition is exactly `d`, if any.
pub fn find_rev(d: &Vec<char>) -> (r: Option<char>)
    ensures
        r == lookup_rev(d@),
{
    let n = table_entry_count();
    let mut i: usize = 0;
    while i < n
        invariant
            n as int == table_len(),
            i <= n,
            lookup_rev(d@) == rev_from(i as int, d@),
        decreases n - i,
    {
        let e = entry_at(i);
        if chars_eq(&e.1, d) {
            return Some(e.0);
        }
        i = i + 1;
    }
    None
}

/// Whether `d` is a proper prefix of some entry's decomposition.
pub fn find_ext(d: &Vec<char>) -> (r: bool)
    ensures
        r == has_ext(d@),
{
    let n = table_entry_count();
    let mut i: usize = 0;
    while i < n
        invariant
            n as int == table_len(),
            i <= n,
            has_ext(d@) == ext_from(i as int, d@),
        decreases n - i,
    {
        let e = entry_at(i);
        if proper_prefix_of(d, &e.1) {
            return true;
        }
        i = i + 1;
    }
    false
}

} // verus!
