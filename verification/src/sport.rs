use vstd::prelude::*;

use crate::error::SleeperError;

verus! {

use vstd::string::StringExecFns;

/// The sports the upstream API serves.
#[derive(Clone, Copy, Debug, PartialEq, Eq)]
pub enum SleeperSport {
    NFL,
    NBA,
    LCS,
}

/// `c` with an ASCII uppercase letter replaced by its lowercase form; any
/// other character is unchanged.
pub open spec fn lower_char(c: char) -> char {
    if 'A' <= c && c <= 'Z' {
        ((c as u8 + 32) as u8) as char
    } else {
        c
    }
}

/// `s` folded to lowercase character by character (ASCII case folding).
pub open spec fn lower_chars(s: Seq<char>) -> Seq<char> {
    s.map_values(|c: char| lower_char(c))
}

/// The sport a raw tag string denotes: the tag is compared against the
/// canonical codes ignoring ASCII letter case.
pub open spec fn spec_sport_of(s: Seq<char>) -> Option<SleeperSport> {
    if lower_chars(s) == "nfl"@ {
        Some(SleeperSport::NFL)
    } else if lower_chars(s) == "nba"@ {
        Some(SleeperSport::NBA)
    } else if lower_chars(s) == "lcs"@ {
        Some(SleeperSport::LCS)
    } else {
        None
    }
}

/// The canonical lowercase code of a sport, as it appears in request paths.
pub open spec fn spec_sport_code(sport: SleeperSport) -> Seq<char> {
    match sport {
        SleeperSport::NFL => "nfl"@,
        SleeperSport::NBA => "nba"@,
        SleeperSport::LCS => "lcs"@,
    }
}

fn lower_char_exec(c: char) -> (r: char)
    ensures
        r == lower_char(c),
{
    if 'A' <= c && c <= 'Z' {
        (c as u8 + 32) as char
    } else {
        c
    }
}

/// Whether `s`, folded to lowercase, equals `code` exactly.
pub(crate) fn matches_code(s: &str, code: &str) -> (r: bool)
    ensures
        r == (lower_chars(s@) == code@),
{
    let n = s.unicode_len();
    if n != code.unicode_len() {
        assert(lower_chars(s@).len() != code@.len());
        return false;
    }
    let mut i: usize = 0;
    while i < n
        invariant
            n == s@.len(),
            n == code@.len(),
            0 <= i <= n,
            forall|j: int| 0 <= j < i ==> lower_char(s@[j]) == code@[j],
        decreases n - i,
    {
        let c = lower_char_exec(s.get_char(i));
        let d = code.get_char(i);
        if c != d {
            assert(lower_chars(s@)[i as int] != code@[i as int]);
            return false;
        }
        i += 1;
    }
    proof {
        assert(lower_chars(s@) =~= code@);
    }
    true
}

impl SleeperSport {
    /// Parses a sport tag, ignoring ASCII letter case. An unknown tag is
    /// rejected with `InvalidSport` carrying the tag as it was given.
    pub fn from_str(s: &str) -> (r: Result<SleeperSport, SleeperError>)
        ensures
            match r {
                Ok(sport) => spec_sport_of(s@) == Some(sport),
                Err(e) => spec_sport_of(s@) is None && (e matches SleeperError::InvalidSport(raw)
                    && raw@ == s@),
            },
    {
        if matches_code(s, "nfl") {
            Ok(SleeperSport::NFL)
        } else if matches_code(s, "nba") {
            Ok(SleeperSport::NBA)
        } else if matches_code(s, "lcs") {
            Ok(SleeperSport::LCS)
        } else {
            Err(SleeperError::InvalidSport(String::from_str(s)))
        }
    }

    /// Renders the canonical lowercase code of the sport.
    pub fn to_string(&self) -> (r: String)
        ensures
            r@ == spec_sport_code(*self),
    {
        match self {
            SleeperSport::NFL => String::from_str("nfl"),
            SleeperSport::NBA => String::from_str("nba"),
            SleeperSport::LCS => String::from_str("lcs"),
        }
    }
}

/// Law: a tag accepted by `from_str` renders back to exactly the lowercase
/// folding of the tag, which is the canonical code.
pub proof fn lemma_sport_parse_then_render(s: Seq<char>)
    requires
        spec_sport_of(s) is Some,
    ensures
        spec_sport_code(spec_sport_of(s)->Some_0) == lower_chars(s),
{
}

/// Law: rendering a sport and parsing the code back returns the same sport.
pub proof fn lemma_sport_render_then_parse(sport: SleeperSport)
    ensures
        spec_sport_of(spec_sport_code(sport)) == Some(sport),
{
    reveal_strlit("nfl");
    reveal_strlit("nba");
    reveal_strlit("lcs");
    assert(lower_chars("nfl"@) =~= "nfl"@);
    assert(lower_chars("nba"@) =~= "nba"@);
    assert(lower_chars("lcs"@) =~= "lcs"@);
    assert("nba"@[1] == 'b' && "nfl"@[1] == 'f');
    assert("lcs"@[0] == 'l' && "nfl"@[0] == 'n' && "nba"@[0] == 'n');
}

} // verus!
