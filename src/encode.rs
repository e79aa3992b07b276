//! Phoneme tokens as 16-bit codes: a base phoneme in the low 10 bits and a
//! diacritic in the next 6 bits.
use vstd::prelude::*;
use vstd::string::StrSliceExecFns;
use vstd::string::StringExecFns;

verus! {

/// Number of entries in the base phoneme table.
pub const PHONEME_COUNT: usize = 135;

/// Number of diacritic slots, the empty slot 0 included.
pub const DIACRITIC_COUNT: usize = 49;

/// The base phoneme at index `i` of the fixed X-SAMPA table.
pub open spec fn phoneme_symbol(i: int) -> Seq<char> {
    if i < 0 || i >= PHONEME_COUNT {
        Seq::empty()
    } else {
        if i < 67 {
            if i < 33 {
                if i < 16 {
                    if i < 8 {
                        if i < 4 {
                            if i < 2 {
                                if i < 1 {
                                    "sil"@
                                } else {
                                    "br"@
                                }
                            } else {
                                if i < 3 {
                                    "pau"@
                                } else {
                                    "cl"@
                                }
                            }
                        } else {
                            if i < 6 {
                                if i < 5 {
                                    "<RES>"@
                                } else {
                                    "<RES>"@
                                }
                            } else {
                                if i < 7 {
                                    "<RES>"@
                                } else {
                                    "<RES>"@
                                }
                            }
                        }
                    } else {
                        if i < 12 {
                            if i < 10 {
                                if i < 9 {
                                    "a"@
                                } else {
                                    "b"@
                                }
                            } else {
                                if i < 11 {
                                    "b_<"@
                                } else {
                                    "c"@
                                }
                            }
                        } else {
                            if i < 14 {
                                if i < 13 {
                                    "d"@
                                } else {
                                    "d`"@
                                }
                            } else {
                                if i < 15 {
                                    "d_<"@
                                } else {
                                    "e"@
                                }
                            }
                        }
                    }
                } else {
                    if i < 24 {
                        if i < 20 {
                            if i < 18 {
                                if i < 17 {
                                    "f"@
                                } else {
                                    "g"@
                                }
                            } else {
                                if i < 19 {
                                    "g_<"@
                                } else {
                                    "h"@
                                }
                            }
                        } else {
                            if i < 22 {
                                if i < 21 {
                                    "h\\"@
                                } else {
                                    "i"@
                                }
                            } else {
                                if i < 23 {
                                    "j"@
                                } else {
                                    "j\\"@
                                }
                            }
                        }
                    } else {
                        if i < 28 {
                            if i < 26 {
                                if i < 25 {
                                    "k"@
                                } else {
                                    "l"@
                                }
                            } else {
                                if i < 27 {
                                    "l`"@
                                } else {
                                    "l\\"@
                                }
                            }
                        } else {
                            if i < 30 {
                                if i < 29 {
                                    "m"@
                                } else {
                                    "n"@
                                }
                            } else {
                                if i < 31 {
                                    "n`"@
                                } else {
                                    if i < 32 {
                                        "o"@
                                    } else {
                                        "p"@
                                    }
                                }
                            }
                        }
                    }
                }
            } else {
                if i < 50 {
                    if i < 41 {
                        if i < 37 {
                            if i < 35 {
                                if i < 34 {
                                    "p\\"@
                                } else {
                                    "q"@
                                }
                            } else {
                                if i < 36 {
                                    "r"@
                                } else {
                                    "r`"@
                                }
                            }
                        } else {
                            if i < 39 {
                                if i < 38 {
                                    "r\\"@
                                } else {
                                    "r\\`"@
                                }
                            } else {
                                if i < 40 {
                                    "s"@
                                } else {
                                    "s`"@
                                }
                            }
                        }
                    } else {
                        if i < 45 {
                            if i < 43 {
                                if i < 42 {
                                    "s\\"@
                                } else {
                                    "t"@
                                }
                            } else {
                                if i < 44 {
                                    "t`"@
                                } else {
                                    "u"@
                                }
                            }
                        } else {
                            if i < 47 {
                                if i < 46 {
                                    "v"@
                                } else {
                                    "v\\"@
                                }
                            } else {
                                if i < 48 {
                                    "w"@
                                } else {
                                    if i < 49 {
                                        "x"@
                                    } else {
                                        "x\\"@
                                    }
                                }
                            }
                        }
                    }
                } else {
                    if i < 58 {
                        if i < 54 {
                            if i < 52 {
                                if i < 51 {
                                    "y"@
                                } else {
                                    "z"@
                                }
                            } else {
                                if i < 53 {
                                    "z`"@
                                } else {
                                    "z\\"@
                                }
                            }
                        } else {
                            if i < 56 {
                                if i < 55 {
                                    "A"@
                                } else {
                                    "B"@
                                }
                            } else {
                                if i < 57 {
                                    "B\\"@
                                } else {
                                    "C"@
                                }
                            }
                        }
                    } else {
                        if i < 62 {
                            if i < 60 {
                                if i < 59 {
                                    "D"@
                                } else {
                                    "E"@
                                }
                            } else {
                                if i < 61 {
                                    "F"@
                                } else {
                                    "G"@
                                }
                            }
                        } else {
                            if i < 64 {
                                if i < 63 {
                                    "G\\"@
                                } else {
                                    "G\\_<"@
                                }
                            } else {
                                if i < 65 {
                                    "H"@
                                } else {
                                    if i < 66 {
                                        "H\\"@
                                    } else {
                                        "I"@
                                    }
                                }
                            }
                        }
                    }
                }
            }
        } else {
            if i < 101 {
                if i < 84 {
                    if i < 75 {
                        if i < 71 {
                            if i < 69 {
                                if i < 68 {
                                    "I\\"@
                                } else {
                                    "J"@
                                }
                            } else {
                                if i < 70 {
                                    "J\\"@
                                } else {
                                    "J\\_<"@
                                }
                            }
                        } else {
                            if i < 73 {
                                if i < 72 {
                                    "K"@
                                } else {
                                    "K\\"@
                                }
                            } else {
                                if i < 74 {
                                    "L"@
                                } else {
                                    "L\\"@
                                }
                            }
                        }
                    } else {
                        if i < 79 {
                            if i < 77 {
                                if i < 76 {
                                    "M"@
                                } else {
                                    "M\\"@
                                }
                            } else {
                                if i < 78 {
                                    "N"@
                                } else {
                                    "N\\"@
                                }
                            }
                        } else {
                            if i < 81 {
                                if i < 80 {
                                    "O"@
                                } else {
                                    "O\\"@
                                }
                            } else {
                                if i < 82 {
                                    "P"@
                                } else {
                                    if i < 83 {
                                        "Q"@
                                    } else {
                                        "R"@
                                    }
                                }
                            }
                        }
                    }
                } else {
                    if i < 92 {
                        if i < 88 {
                            if i < 86 {
                                if i < 85 {
                                    "R\\"@
                                } else {
                                    "S"@
                                }
                            } else {
                                if i < 87 {
                                    "T"@
                                } else {
                                    "U"@
                                }
                            }
                        } else {
                            if i < 90 {
                                if i < 89 {
                                    "U\\"@
                                } else {
                                    "V"@
                                }
                            } else {
                                if i < 91 {
                                    "W"@
                                } else {
                                    "X"@
                                }
                            }
                        }
                    } else {
                        if i < 96 {
                            if i < 94 {
                                if i < 93 {
                                    "X\\"@
                                } else {
                                    "Y"@
                                }
                            } else {
                                if i < 95 {
                                    "Z"@
                                } else {
                                    "."@
                                }
                            }
                        } else {
                            if i < 98 {
                                if i < 97 {
                                    "\""@
                                } else {
                                    "%"@
                                }
                            } else {
                                if i < 99 {
                                    "'"@
                                } else {
                                    if i < 100 {
                                        ":"@
                                    } else {
                                        ":\\"@
                                    }
                                }
                            }
                        }
                    }
                }
            } else {
                if i < 118 {
                    if i < 109 {
                        if i < 105 {
                            if i < 103 {
                                if i < 102 {
                                    "-"@
                                } else {
                                    "@"@
                                }
                            } else {
                                if i < 104 {
                                    "@\\"@
                                } else {
                                    "@`"@
                                }
                            }
                        } else {
                            if i < 107 {
                                if i < 106 {
                                    "{"@
                                } else {
                                    "}"@
                                }
                            } else {
                                if i < 108 {
                                    "1"@
                                } else {
                                    "2"@
                                }
                            }
                        }
                    } else {
                        if i < 113 {
                            if i < 111 {
                                if i < 110 {
                                    "3"@
                                } else {
                                    "3\\"@
                                }
                            } else {
                                if i < 112 {
                                    "4"@
                                } else {
                                    "5"@
                                }
                            }
                        } else {
                            if i < 115 {
                                if i < 114 {
                                    "6"@
                                } else {
                                    "7"@
                                }
                            } else {
                                if i < 116 {
                                    "8"@
                                } else {
                                    if i < 117 {
                                        "9"@
                                    } else {
                                        "&"@
                                    }
                                }
                            }
                        }
                    }
                } else {
                    if i < 126 {
                        if i < 122 {
                            if i < 120 {
                                if i < 119 {
                                    "?"@
                                } else {
                                    "?\\"@
                                }
                            } else {
                                if i < 121 {
                                    "*"@
                                } else {
                                    "/"@
                                }
                            }
                        } else {
                            if i < 124 {
                                if i < 123 {
                                    "<"@
                                } else {
                                    "<\\"@
                                }
                            } else {
                                if i < 125 {
                                    ">"@
                                } else {
                                    ">\\"@
                                }
                            }
                        }
                    } else {
                        if i < 130 {
                            if i < 128 {
                                if i < 127 {
                                    "^"@
                                } else {
                                    "!"@
                                }
                            } else {
                                if i < 129 {
                                    "!\\"@
                                } else {
                                    "|"@
                                }
                            }
                        } else {
                            if i < 132 {
                                if i < 131 {
                                    "|\\"@
                                } else {
                                    "||"@
                                }
                            } else {
                                if i < 133 {
                                    "|\\|\\"@
                                } else {
                                    if i < 134 {
                                        "=\\"@
                                    } else {
                                        "-\\"@
                                    }
                                }
                            }
                        }
                    }
                }
            }
        }
    }
}

/// The diacritic at index `i`; index 0 stands for no diacritic.
pub open spec fn diacritic_symbol(i: int) -> Seq<char> {
    if i < 0 || i >= DIACRITIC_COUNT {
        Seq::empty()
    } else {
        if i < 24 {
            if i < 12 {
                if i < 6 {
                    if i < 3 {
                        if i < 1 {
                            ""@
                        } else {
                            if i < 2 {
                                "\""@
                            } else {
                                "+"@
                            }
                        }
                    } else {
                        if i < 4 {
                            "-"@
                        } else {
                            if i < 5 {
                                "/"@
                            } else {
                                "0"@
                            }
                        }
                    }
                } else {
                    if i < 9 {
                        if i < 7 {
                            "<"@
                        } else {
                            if i < 8 {
                                "="@
                            } else {
                                ">"@
                            }
                        }
                    } else {
                        if i < 10 {
                            "?"@
                        } else {
                            if i < 11 {
                                "\\"@
                            } else {
                                "^"@
                            }
                        }
                    }
                }
            } else {
                if i < 18 {
                    if i < 15 {
                        if i < 13 {
                            "}"@
                        } else {
                            if i < 14 {
                                "`"@
                            } else {
                                "~"@
                            }
                        }
                    } else {
                        if i < 16 {
                            "A"@
                        } else {
                            if i < 17 {
                                "a"@
                            } else {
                                "B"@
                            }
                        }
                    }
                } else {
                    if i < 21 {
                        if i < 19 {
                            "B_L"@
                        } else {
                            if i < 20 {
                                "c"@
                            } else {
                                "d"@
                            }
                        }
                    } else {
                        if i < 22 {
                            "e"@
                        } else {
                            if i < 23 {
                                "<F>"@
                            } else {
                                "F"@
                            }
                        }
                    }
                }
            }
        } else {
            if i < 36 {
                if i < 30 {
                    if i < 27 {
                        if i < 25 {
                            "G"@
                        } else {
                            if i < 26 {
                                "H"@
                            } else {
                                "H_T"@
                            }
                        }
                    } else {
                        if i < 28 {
                            "h"@
                        } else {
                            if i < 29 {
                                "j"@
                            } else {
                                "k"@
                            }
                        }
                    }
                } else {
                    if i < 33 {
                        if i < 31 {
                            "L"@
                        } else {
                            if i < 32 {
                                "l"@
                            } else {
                                "M"@
                            }
                        }
                    } else {
                        if i < 34 {
                            "m"@
                        } else {
                            if i < 35 {
                                "N"@
                            } else {
                                "n"@
                            }
                        }
                    }
                }
            } else {
                if i < 42 {
                    if i < 39 {
                        if i < 37 {
                            "O"@
                        } else {
                            if i < 38 {
                                "o"@
                            } else {
                                "q"@
                            }
                        }
                    } else {
                        if i < 40 {
                            "<R>"@
                        } else {
                            if i < 41 {
                                "R"@
                            } else {
                                "R_F"@
                            }
                        }
                    }
                } else {
                    if i < 45 {
                        if i < 43 {
                            "r"@
                        } else {
                            if i < 44 {
                                "T"@
                            } else {
                                "t"@
                            }
                        }
                    } else {
                        if i < 47 {
                            if i < 46 {
                                "v"@
                            } else {
                                "w"@
                            }
                        } else {
                            if i < 48 {
                                "X"@
                            } else {
                                "x"@
                            }
                        }
                    }
                }
            }
        }
    }
}

/// The silence, pause, breath and closure markers.
pub open spec fn is_silence_token(s: Seq<char>) -> bool {
    s == "sil"@ || s == "pau"@ || s == "br"@ || s == "cl"@
}

/// Position of the first `_` of `s` at or after `i`, or `s.len()` if none.
pub open spec fn underscore_from(s: Seq<char>, i: int) -> int
    decreases s.len() - i,
{
    if i < 0 || i >= s.len() {
        s.len() as int
    } else if s[i] == '_' {
        i
    } else {
        underscore_from(s, i + 1)
    }
}

/// Where a token splits into base and diacritic.
pub open spec fn split_point(s: Seq<char>) -> int {
    underscore_from(s, 0)
}

/// The text before the first `_` (the whole token if there is none).
pub open spec fn base_part(s: Seq<char>) -> Seq<char> {
    s.subrange(0, split_point(s))
}

/// The text after the first `_`.
pub open spec fn diacritic_part(s: Seq<char>) -> Seq<char> {
    s.subrange(split_point(s) + 1, s.len() as int)
}

/// First index at or after `i` whose base phoneme is `s`, or 0 if none.
pub open spec fn phoneme_index_from(s: Seq<char>, i: int) -> int
    decreases PHONEME_COUNT - i,
{
    if i < 0 || i >= PHONEME_COUNT {
        0
    } else if phoneme_symbol(i) == s {
        i
    } else {
        phoneme_index_from(s, i + 1)
    }
}

/// First index at or after `i` whose diacritic is `s`, or 0 if none.
pub open spec fn diacritic_index_from(s: Seq<char>, i: int) -> int
    decreases DIACRITIC_COUNT - i,
{
    if i < 1 || i >= DIACRITIC_COUNT {
        0
    } else if diacritic_symbol(i) == s {
        i
    } else {
        diacritic_index_from(s, i + 1)
    }
}

/// Table index of a base phoneme; unknown names fall back to 0 (`sil`).
pub open spec fn phoneme_index(s: Seq<char>) -> int {
    phoneme_index_from(s, 0)
}

/// Table index of a diacritic; unknown names fall back to 0 (none).
pub open spec fn diacritic_index(s: Seq<char>) -> int {
    diacritic_index_from(s, 1)
}

/// The diacritic index that a token carries.
pub open spec fn token_diacritic(s: Seq<char>) -> int {
    if split_point(s) < s.len() {
        diacritic_index(diacritic_part(s))
    } else {
        0
    }
}

/// The code of a token.
pub open spec fn encoded(s: Seq<char>) -> int {
    phoneme_index(base_part(s)) + 1024 * token_diacritic(s)
}

/// Bits 0 to 9 of a code.
pub open spec fn code_base(c: u16) -> int {
    c as int % 1024
}

/// Bits 10 to 15 of a code.
pub open spec fn code_diacritic(c: u16) -> int {
    c as int / 1024
}

/// A code whose two parts name entries of the tables.
pub open spec fn is_valid_code(c: u16) -> bool {
    code_base(c) < PHONEME_COUNT && code_diacritic(c) < DIACRITIC_COUNT
}

/// The token that a code stands for.
pub open spec fn decoded(c: u16) -> Seq<char> {
    if code_diacritic(c) == 0 {
        phoneme_symbol(code_base(c))
    } else {
        phoneme_symbol(code_base(c)) + seq!['_'] + diacritic_symbol(code_diacritic(c))
    }
}

/// The token written with base entry `i` and diacritic slot `j`.
pub open spec fn table_token(i: int, j: int) -> Seq<char> {
    if j == 0 {
        phoneme_symbol(i)
    } else {
        phoneme_symbol(i) + seq!['_'] + diacritic_symbol(j)
    }
}

fn phoneme_text(i: usize) -> (r: &'static str)
    requires
        i < PHONEME_COUNT,
    ensures
        r@ == phoneme_symbol(i as int),
{
    match i {
        0 => "sil",
        1 => "br",
        2 => "pau",
        3 => "cl",
        4 => "<RES>",
        5 => "<RES>",
        6 => "<RES>",
        7 => "<RES>",
        8 => "a",
        9 => "b",
        10 => "b_<",
        11 => "c",
        12 => "d",
        13 => "d`",
        14 => "d_<",
        15 => "e",
        16 => "f",
        17 => "g",
        18 => "g_<",
        19 => "h",
        20 => "h\\",
        21 => "i",
        22 => "j",
        23 => "j\\",
        24 => "k",
        25 => "l",
        26 => "l`",
        27 => "l\\",
        28 => "m",
        29 => "n",
        30 => "n`",
        31 => "o",
        32 => "p",
        33 => "p\\",
        34 => "q",
        35 => "r",
        36 => "r`",
        37 => "r\\",
        38 => "r\\`",
        39 => "s",
        40 => "s`",
        41 => "s\\",
        42 => "t",
        43 => "t`",
        44 => "u",
        45 => "v",
        46 => "v\\",
        47 => "w",
        48 => "x",
        49 => "x\\",
        50 => "y",
        51 => "z",
        52 => "z`",
        53 => "z\\",
        54 => "A",
        55 => "B",
        56 => "B\\",
        57 => "C",
        58 => "D",
        59 => "E",
        60 => "F",
        61 => "G",
        62 => "G\\",
        63 => "G\\_<",
        64 => "H",
        65 => "H\\",
        66 => "I",
        67 => "I\\",
        68 => "J",
        69 => "J\\",
        70 => "J\\_<",
        71 => "K",
        72 => "K\\",
        73 => "L",
        74 => "L\\",
        75 => "M",
        76 => "M\\",
        77 => "N",
        78 => "N\\",
        79 => "O",
        80 => "O\\",
        81 => "P",
        82 => "Q",
        83 => "R",
        84 => "R\\",
        85 => "S",
        86 => "T",
        87 => "U",
        88 => "U\\",
        89 => "V",
        90 => "W",
        91 => "X",
        92 => "X\\",
        93 => "Y",
        94 => "Z",
        95 => ".",
        96 => "\"",
        97 => "%",
        98 => "'",
        99 => ":",
        100 => ":\\",
        101 => "-",
        102 => "@",
        103 => "@\\",
        104 => "@`",
        105 => "{",
        106 => "}",
        107 => "1",
        108 => "2",
        109 => "3",
        110 => "3\\",
        111 => "4",
        112 => "5",
        113 => "6",
        114 => "7",
        115 => "8",
        116 => "9",
        117 => "&",
        118 => "?",
        119 => "?\\",
        120 => "*",
        121 => "/",
        122 => "<",
        123 => "<\\",
        124 => ">",
        125 => ">\\",
        126 => "^",
        127 => "!",
        128 => "!\\",
        129 => "|",
        130 => "|\\",
        131 => "||",
        132 => "|\\|\\",
        133 => "=\\",
        _ => "-\\",
    }
}
fn diacritic_text(i: usize) -> (r: &'static str)
    requires
        i < DIACRITIC_COUNT,
    ensures
        r@ == diacritic_symbol(i as int),
{
    match i {
        0 => "",
        1 => "\"",
        2 => "+",
        3 => "-",
        4 => "/",
        5 => "0",
        6 => "<",
        7 => "=",
        8 => ">",
        9 => "?",
        10 => "\\",
        11 => "^",
        12 => "}",
        13 => "`",
        14 => "~",
        15 => "A",
        16 => "a",
        17 => "B",
        18 => "B_L",
        19 => "c",
        20 => "d",
        21 => "e",
        22 => "<F>",
        23 => "F",
        24 => "G",
        25 => "H",
        26 => "H_T",
        27 => "h",
        28 => "j",
        29 => "k",
        30 => "L",
        31 => "l",
        32 => "M",
        33 => "m",
        34 => "N",
        35 => "n",
        36 => "O",
        37 => "o",
        38 => "q",
        39 => "<R>",
        40 => "R",
        41 => "R_F",
        42 => "r",
        43 => "T",
        44 => "t",
        45 => "v",
        46 => "w",
        47 => "X",
        _ => "x",
    }
}
/// Compares two strings character by character.
pub(crate) fn same_text(a: &str, b: &str) -> (r: bool)
    ensures
        r == (a@ == b@),
{
    let n = a.unicode_len();
    let m = b.unicode_len();
    if n != m {
        return false;
    }
    let mut i: usize = 0;
    while i < n
        invariant
            n == a@.len(),
            m == b@.len(),
            n == m,
            i <= n,
            forall|j: int| 0 <= j < i ==> a@[j] == b@[j],
        decreases n - i,
    {
        if a.get_char(i) != b.get_char(i) {
            return false;
        }
        i = i + 1;
    }
    assert(a@ =~= b@);
    true
}

fn find_phoneme(s: &str) -> (r: usize)
    ensures
        r == phoneme_index(s@),
        r < PHONEME_COUNT,
{
    let mut i: usize = 0;
    while i < PHONEME_COUNT
        invariant
            i <= PHONEME_COUNT,
            phoneme_index_from(s@, 0) == phoneme_index_from(s@, i as int),
        decreases PHONEME_COUNT - i,
    {
        if same_text(phoneme_text(i), s) {
            return i;
        }
        i = i + 1;
    }
    0
}

fn find_diacritic(s: &str) -> (r: usize)
    ensures
        r == diacritic_index(s@),
        r < DIACRITIC_COUNT,
{
    let mut i: usize = 1;
    while i < DIACRITIC_COUNT
        invariant
            1 <= i <= DIACRITIC_COUNT,
            diacritic_index_from(s@, 1) == diacritic_index_from(s@, i as int),
        decreases DIACRITIC_COUNT - i,
    {
        if same_text(diacritic_text(i), s) {
            return i;
        }
        i = i + 1;
    }
    0
}

/// Encoder and decoder of phoneme tokens.
pub struct PhonemeEncoder;

impl PhonemeEncoder {
    /// Splits the token at its first `_` and packs the base phoneme's index
    /// with the diacritic's index shifted left by 10 bits.
    pub fn encode(data: &str) -> (r: u16)
        ensures
            r as int == encoded(data@),
    {
        let n = data.unicode_len();
        let mut k: usize = 0;
        while k < n && data.get_char(k) != '_'
            invariant
                n == data@.len(),
                k <= n,
                underscore_from(data@, 0) == underscore_from(data@, k as int),
            decreases n - k,
        {
            k = k + 1;
        }
        let base = data.substring_char(0, k);
        let p = find_phoneme(base);
        let mut d: usize = 0;
        if k < n {
            let diacritic = data.substring_char(k + 1, n);
            d = find_diacritic(diacritic);
        }
        (p as u16) + (d as u16) * 1024
    }

    /// The token of a code: the base alone when the diacritic bits are zero,
    /// else `base_diacritic`.
    pub fn decode(data: u16) -> (r: String)
        requires
            is_valid_code(data),
        ensures
            r@ == decoded(data),
    {
        let base = data & 0x3ff;
        let diacritic = data >> 10;
        assert(data & 0x3ff == data % 1024) by (bit_vector);
        assert(data >> 10 == data / 1024) by (bit_vector);
        let mut out = String::from_str(phoneme_text(base as usize));
        if diacritic != 0 {
            out.append("_");
            out.append(diacritic_text(diacritic as usize));
            proof {
                reveal_strlit("_");
            }
        }
        out
    }

    /// Whether the token is one of the silence, pause, breath or closure markers.
    pub fn is_silence(data: &str) -> (r: bool)
        ensures
            r == is_silence_token(data@),
    {
        same_text(data, "sil") || same_text(data, "pau") || same_text(data, "br") || same_text(
            data,
            "cl",
        )
    }
}

proof fn lemma_underscore_scan(s: Seq<char>, k: int, n: int)
    requires
        0 <= k <= n <= s.len(),
        n == s.len() || s[n] == '_',
        forall|j: int| k <= j < n ==> s[j] != '_',
    ensures
        underscore_from(s, k) == n,
    decreases n - k,
{
    if k < n {
        lemma_underscore_scan(s, k + 1, n);
    }
}

proof fn lemma_phoneme_index_range(s: Seq<char>, i: int)
    ensures
        0 <= phoneme_index_from(s, i) < PHONEME_COUNT,
    decreases PHONEME_COUNT - i,
{
    if 0 <= i < PHONEME_COUNT && phoneme_symbol(i) != s {
        lemma_phoneme_index_range(s, i + 1);
    }
}

proof fn lemma_diacritic_index_range(s: Seq<char>, i: int)
    ensures
        0 <= diacritic_index_from(s, i) < DIACRITIC_COUNT,
    decreases DIACRITIC_COUNT - i,
{
    if 1 <= i < DIACRITIC_COUNT && diacritic_symbol(i) != s {
        lemma_diacritic_index_range(s, i + 1);
    }
}

proof fn lemma_phoneme_found(s: Seq<char>, i: int, k: int)
    requires
        0 <= i <= k < PHONEME_COUNT,
        phoneme_symbol(k) == s,
    ensures
        i <= phoneme_index_from(s, i) <= k,
        phoneme_symbol(phoneme_index_from(s, i)) == s,
    decreases k - i,
{
    if phoneme_symbol(i) != s {
        lemma_phoneme_found(s, i + 1, k);
    }
}

proof fn lemma_diacritic_found(s: Seq<char>, i: int, k: int)
    requires
        1 <= i <= k < DIACRITIC_COUNT,
        diacritic_symbol(k) == s,
    ensures
        i <= diacritic_index_from(s, i) <= k,
        diacritic_symbol(diacritic_index_from(s, i)) == s,
    decreases k - i,
{
    if diacritic_symbol(i) != s {
        lemma_diacritic_found(s, i + 1, k);
    }
}

/// Every token encodes within 16 bits: the base phoneme's index is below
/// 2^10 and the diacritic's index below 2^6, and the code's low 10 bits and
/// high 6 bits give them back.
pub proof fn lemma_encoding_range(t: Seq<char>)
    ensures
        0 <= encoded(t) < 0x10000,
        0 <= phoneme_index(base_part(t)) < 0x400,
        0 <= token_diacritic(t) < 0x40,
        code_base(encoded(t) as u16) == phoneme_index(base_part(t)),
        code_diacritic(encoded(t) as u16) == token_diacritic(t),
        is_valid_code(encoded(t) as u16),
{
    lemma_phoneme_index_range(base_part(t), 0);
    if split_point(t) < t.len() {
        lemma_diacritic_index_range(diacritic_part(t), 1);
    }
    let p = phoneme_index(base_part(t));
    let d = token_diacritic(t);
    assert((p + 1024 * d) % 1024 == p && (p + 1024 * d) / 1024 == d) by (nonlinear_arith)
        requires
            0 <= p < 1024,
            0 <= d < 64,
    ;
}

/// A token written from the tables: a base entry holding no `_` of its own,
/// alone or followed by `_` and a diacritic.
pub open spec fn is_table_token(t: Seq<char>) -> bool {
    exists|i: int, j: int|
        0 <= i < PHONEME_COUNT && 0 <= j < DIACRITIC_COUNT && !phoneme_symbol(i).contains('_')
            && t == #[trigger] table_token(i, j)
}

/// Decoding the code of a token written from the tables gives the token
/// back: a base phoneme alone, or `base_diacritic`, where the base entry
/// holds no `_` of its own.
pub proof fn lemma_round_trip(i: int, j: int)
    requires
        0 <= i < PHONEME_COUNT,
        0 <= j < DIACRITIC_COUNT,
        !phoneme_symbol(i).contains('_'),
    ensures
        is_valid_code(encoded(table_token(i, j)) as u16),
        decoded(encoded(table_token(i, j)) as u16) == table_token(i, j),
{
    let b = phoneme_symbol(i);
    let t = table_token(i, j);
    if j == 0 {
        assert forall|q: int| 0 <= q < t.len() implies t[q] != '_' by {
            if t[q] == '_' {
                assert(b.contains('_'));
            }
        }
        lemma_underscore_scan(t, 0, t.len() as int);
        assert(base_part(t) =~= b);
    } else {
        let n = b.len() as int;
        assert forall|q: int| 0 <= q < n implies t[q] != '_' by {
            assert(t[q] == b[q]);
            if t[q] == '_' {
                assert(b.contains('_'));
            }
        }
        assert(t[n] == '_');
        lemma_underscore_scan(t, 0, n);
        assert(base_part(t) =~= b);
        assert(diacritic_part(t) =~= diacritic_symbol(j));
        lemma_diacritic_found(diacritic_symbol(j), 1, j);
    }
    lemma_phoneme_found(b, 0, i);
    lemma_encoding_range(t);
}

/// The round trip, stated of any table token.
pub proof fn lemma_table_token_round_trip(t: Seq<char>)
    requires
        is_table_token(t),
    ensures
        is_valid_code(encoded(t) as u16),
        decoded(encoded(t) as u16) == t,
{
    let (i, j) = choose|i: int, j: int|
        0 <= i < PHONEME_COUNT && 0 <= j < DIACRITIC_COUNT && !phoneme_symbol(i).contains('_')
            && t == #[trigger] table_token(i, j);
    lemma_round_trip(i, j);
}

} // verus!
