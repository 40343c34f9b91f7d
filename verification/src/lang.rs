//! The analyzed languages, and reading a language choice from user text.
use vstd::prelude::*;
use vstd::string::StrSliceExecFns;

use crate::strutil::concat2;

verus! {

/// One analyzed language, selecting a backend.
#[derive(Clone, Copy, Debug, PartialEq, Eq, Structural)]
pub enum Lang {
    Rust,
    Go,
    Python,
    Typescript,
}

/// ASCII lowering of one character.
pub open spec fn spec_lower_char(c: char) -> char {
    match c {
        'A' => 'a',
        'B' => 'b',
        'C' => 'c',
        'D' => 'd',
        'E' => 'e',
        'F' => 'f',
        'G' => 'g',
        'H' => 'h',
        'I' => 'i',
        'J' => 'j',
        'K' => 'k',
        'L' => 'l',
        'M' => 'm',
        'N' => 'n',
        'O' => 'o',
        'P' => 'p',
        'Q' => 'q',
        'R' => 'r',
        'S' => 's',
        'T' => 't',
        'U' => 'u',
        'V' => 'v',
        'W' => 'w',
        'X' => 'x',
        'Y' => 'y',
        'Z' => 'z',
        _ => c,
    }
}

/// ASCII lowering of one character.
pub fn lower_char(c: char) -> (r: char)
    ensures
        r == spec_lower_char(c),
{
    match c {
        'A' => 'a',
        'B' => 'b',
        'C' => 'c',
        'D' => 'd',
        'E' => 'e',
        'F' => 'f',
        'G' => 'g',
        'H' => 'h',
        'I' => 'i',
        'J' => 'j',
        'K' => 'k',
        'L' => 'l',
        'M' => 'm',
        'N' => 'n',
        'O' => 'o',
        'P' => 'p',
        'Q' => 'q',
        'R' => 'r',
        'S' => 's',
        'T' => 't',
        'U' => 'u',
        'V' => 'v',
        'W' => 'w',
        'X' => 'x',
        'Y' => 'y',
        'Z' => 'z',
        _ => c,
    }
}

/// ASCII lowering of a character sequence.
pub open spec fn spec_lower(s: Seq<char>) -> Seq<char> {
    s.map_values(|c: char| spec_lower_char(c))
}

/// Whether the ASCII lowering of `s` is exactly `kw`.
pub fn eq_lower(s: &str, kw: &str) -> (r: bool)
    ensures
        r == (spec_lower(s@) == kw@),
{
    let ns = s.unicode_len();
    let nk = kw.unicode_len();
    if ns != nk {
        assert(spec_lower(s@).len() == s@.len());
        return false;
    }
    let mut i: usize = 0;
    while i < ns
        invariant
            i <= ns,
            ns == s@.len(),
            ns == kw@.len(),
            forall|j: int| 0 <= j < i ==> spec_lower(s@)[j] == kw@[j],
        decreases ns - i,
    {
        if lower_char(s.get_char(i)) != kw.get_char(i) {
            assert(spec_lower(s@)[i as int] != kw@[i as int]);
            return false;
        }
        assert(spec_lower(s@)[i as int] == kw@[i as int]);
        i += 1;
    }
    assert(spec_lower(s@) =~= kw@);
    true
}

/// The language a piece of user text names, letter case ignored.
pub open spec fn spec_parse_language(s: Seq<char>) -> Option<Lang> {
    let low = spec_lower(s);
    if low == "rust"@ || low == "rs"@ {
        Some(Lang::Rust)
    } else if low == "go"@ {
        Some(Lang::Go)
    } else if low == "python"@ || low == "py"@ {
        Some(Lang::Python)
    } else if low == "typescript"@ || low == "ts"@ {
        Some(Lang::Typescript)
    } else {
        None
    }
}

impl Lang {
    /// Reads a language choice from user text, letter case ignored; an
    /// unknown name is reported back in the error.
    pub fn from_str(s: &str) -> (r: core::result::Result<Lang, String>)
        ensures
            match r {
                Ok(l) => spec_parse_language(s@) == Some(l),
                Err(e) => spec_parse_language(s@) is None && e@ == "Unknown language: "@ + s@,
            },
    {
        if eq_lower(s, "rust") || eq_lower(s, "rs") {
            Ok(Lang::Rust)
        } else if eq_lower(s, "go") {
            Ok(Lang::Go)
        } else if eq_lower(s, "python") || eq_lower(s, "py") {
            Ok(Lang::Python)
        } else if eq_lower(s, "typescript") || eq_lower(s, "ts") {
            Ok(Lang::Typescript)
        } else {
            Err(concat2("Unknown language: ", s))
        }
    }
}

} // verus!
