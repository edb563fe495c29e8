use vstd::prelude::*;
use vstd::string::StrSliceExecFns;

verus! {

#[verifier::external_type_specification]
#[verifier::external_body]
pub struct ExCountry(iso_country::Country);

/// The country value that iso_country's table gives for an alpha-2 code.
pub uninterp spec fn country_named(alpha2: Seq<char>) -> iso_country::Country;

/// Marker for the United States market.
#[derive(Debug, Clone, Copy, PartialEq, Eq, Structural)]
pub struct USMarket;

/// Marker for the Hong Kong market.
#[derive(Debug, Clone, Copy, PartialEq, Eq, Structural)]
pub struct HKMarket;

/// Marker for the mainland China market.
#[derive(Debug, Clone, Copy, PartialEq, Eq, Structural)]
pub struct CNMarket;

/// Marker for the Singapore market.
#[derive(Debug, Clone, Copy, PartialEq, Eq, Structural)]
pub struct SGMarket;

/// The closed set of supported markets. Two values are equal exactly when
/// their short codes are equal.
#[derive(Debug, Clone, Copy, PartialEq, Eq, Structural)]
pub enum Market {
    US(USMarket),
    HK(HKMarket),
    CN(CNMarket),
    SG(SGMarket),
}

/// A code that names no supported market.
#[derive(Debug, Clone, PartialEq, Eq)]
pub struct UnknownMarket {
    pub code: String,
}

/// The short code of a market.
pub open spec fn code_of(m: Market) -> Seq<char> {
    match m {
        Market::US(_) => seq!['U', 'S'],
        Market::HK(_) => seq!['H', 'K'],
        Market::CN(_) => seq!['C', 'N'],
        Market::SG(_) => seq!['S', 'G'],
    }
}

/// The IANA time-zone name of a market.
pub open spec fn zone_of(m: Market) -> Seq<char> {
    match m {
        Market::US(_) => "America/New_York"@,
        Market::HK(_) => "Asia/Hong_Kong"@,
        Market::CN(_) => "Asia/Shanghai"@,
        Market::SG(_) => "Asia/Singapore"@,
    }
}

/// Unicode's LATIN SMALL LETTER LONG S, whose upper case is `S`.
pub const LONG_S: u32 = 0x17F;

/// `c` upper-cases to the upper-case ASCII letter `upper`: it is that letter,
/// its lower-case form, or, for `S`, the long s. No other character's upper
/// case is one of the letters of the supported codes.
pub open spec fn same_letter(c: char, upper: char) -> bool {
    c == upper || (c as u32) == (upper as u32) + 32 || (upper == 'S' && (c as u32) == LONG_S)
}

/// `s` upper-cases to `code` (made of upper-case ASCII letters).
pub open spec fn spells(s: Seq<char>, code: Seq<char>) -> bool {
    s.len() == code.len() && forall|i: int| 0 <= i < s.len() ==> same_letter(#[trigger] s[i], code[i])
}

/// The market whose code is the upper case of `s`.
pub open spec fn market_of_code(s: Seq<char>) -> Option<Market> {
    if spells(s, seq!['U', 'S']) {
        Some(Market::US(USMarket))
    } else if spells(s, seq!['H', 'K']) {
        Some(Market::HK(HKMarket))
    } else if spells(s, seq!['C', 'N']) {
        Some(Market::CN(CNMarket))
    } else if spells(s, seq!['S', 'G']) {
        Some(Market::SG(SGMarket))
    } else {
        None
    }
}

/// The market whose code is exactly `s`, letter case included.
pub open spec fn market_of_exact_code(s: Seq<char>) -> Option<Market> {
    if s == seq!['U', 'S'] {
        Some(Market::US(USMarket))
    } else if s == seq!['H', 'K'] {
        Some(Market::HK(HKMarket))
    } else if s == seq!['C', 'N'] {
        Some(Market::CN(CNMarket))
    } else if s == seq!['S', 'G'] {
        Some(Market::SG(SGMarket))
    } else {
        None
    }
}

fn letter_matches(c: char, upper: char) -> (r: bool)
    requires
        'A' <= upper <= 'Z',
    ensures
        r == same_letter(c, upper),
{
    c == upper || (c as u32) == (upper as u32) + 32 || (upper == 'S' && (c as u32) == LONG_S)
}

fn spells_code(s: &str, a: char, b: char) -> (r: bool)
    requires
        'A' <= a <= 'Z',
        'A' <= b <= 'Z',
    ensures
        r == spells(s@, seq![a, b]),
{
    let n = s.unicode_len();
    if n != 2 {
        return false;
    }
    let c0 = s.get_char(0);
    let c1 = s.get_char(1);
    let r = letter_matches(c0, a) && letter_matches(c1, b);
    proof {
        let code = seq![a, b];
        if r {
            assert forall|i: int| 0 <= i < s@.len() implies same_letter(#[trigger] s@[i], code[i]) by {
                if i == 0 {
                } else {
                    assert(i == 1);
                }
            }
        } else {
            if !same_letter(c0, a) {
                assert(!same_letter(s@[0], code[0]));
            } else {
                assert(!same_letter(s@[1], code[1]));
            }
        }
    }
    r
}

fn exact_code(s: &str, a: char, b: char) -> (r: bool)
    ensures
        r == (s@ == seq![a, b]),
{
    let n = s.unicode_len();
    if n != 2 {
        return false;
    }
    let c0 = s.get_char(0);
    let c1 = s.get_char(1);
    let r = c0 == a && c1 == b;
    proof {
        if r {
            assert(s@ =~= seq![a, b]);
        } else {
            assert(s@[0] != seq![a, b][0] || s@[1] != seq![a, b][1]);
        }
    }
    r
}

impl Market {
    /// Case-insensitive lookup of a market by its short code.
    pub fn from_str(s: &str) -> (r: Option<Market>)
        ensures
            r == market_of_code(s@),
    {
        if spells_code(s, 'U', 'S') {
            Some(Market::US(USMarket))
        } else if spells_code(s, 'H', 'K') {
            Some(Market::HK(HKMarket))
        } else if spells_code(s, 'C', 'N') {
            Some(Market::CN(CNMarket))
        } else if spells_code(s, 'S', 'G') {
            Some(Market::SG(SGMarket))
        } else {
            None
        }
    }

    /// Case-insensitive parse of a short code; an unsupported code is an
    /// `UnknownMarket` error that carries the code.
    pub fn parse(s: &str) -> (r: Result<Market, UnknownMarket>)
        ensures
            market_of_code(s@) matches Some(m) ==> r == Ok::<Market, UnknownMarket>(m),
            market_of_code(s@) is None ==> (r matches Err(e) && e.code@ == s@),
    {
        match Market::from_str(s) {
            Some(m) => Ok(m),
            None => Err(UnknownMarket { code: s.to_owned() }),
        }
    }

    /// The short code of the market.
    pub fn market_type(&self) -> (r: &'static str)
        ensures
            r@ == code_of(*self),
    {
        proof {
            reveal_strlit("US");
            reveal_strlit("HK");
            reveal_strlit("CN");
            reveal_strlit("SG");
        }
        match self {
            Market::US(_) => "US",
            Market::HK(_) => "HK",
            Market::CN(_) => "CN",
            Market::SG(_) => "SG",
        }
    }

    /// The IANA name of the market's time zone.
    pub fn time_zone(&self) -> (r: &'static str)
        ensures
            r@ == zone_of(*self),
    {
        match self {
            Market::US(_) => "America/New_York",
            Market::HK(_) => "Asia/Hong_Kong",
            Market::CN(_) => "Asia/Shanghai",
            Market::SG(_) => "Asia/Singapore",
        }
    }

    /// The ISO 3166-1 alpha-2 code of the market's country.
    pub fn country_alpha2(&self) -> (r: &'static str)
        ensures
            r@ == code_of(*self),
    {
        self.market_type()
    }

    /// The market's country.
    pub fn country_code(&self) -> (r: iso_country::Country)
        ensures
            r == country_named(code_of(*self)),
    {
        country_from_alpha2(self.country_alpha2())
    }

    /// The text form of a market: its short code.
    pub fn serialize(&self) -> (r: String)
        ensures
            r@ == code_of(*self),
    {
        self.market_type().to_owned()
    }

    /// Reads the text form of a market, which is its short code exactly.
    pub fn deserialize(s: &str) -> (r: Result<Market, UnknownMarket>)
        ensures
            market_of_exact_code(s@) matches Some(m) ==> r == Ok::<Market, UnknownMarket>(m),
            market_of_exact_code(s@) is None ==> (r matches Err(e) && e.code@ == s@),
    {
        if exact_code(s, 'U', 'S') {
            Ok(Market::US(USMarket))
        } else if exact_code(s, 'H', 'K') {
            Ok(Market::HK(HKMarket))
        } else if exact_code(s, 'C', 'N') {
            Ok(Market::CN(CNMarket))
        } else if exact_code(s, 'S', 'G') {
            Ok(Market::SG(SGMarket))
        } else {
            Err(UnknownMarket { code: s.to_owned() })
        }
    }
}

/// The alpha-2 codes of the supported markets' countries.
pub open spec fn is_market_country(alpha2: Seq<char>) -> bool {
    alpha2 == seq!['U', 'S'] || alpha2 == seq!['H', 'K'] || alpha2 == seq!['C', 'N'] || alpha2
        == seq!['S', 'G']
}

/// Relies on iso_country's `Country::from_str`, a lookup of the alpha-2 code
/// in the crate's code table, which holds US, HK, CN and SG.
#[verifier::external_body]
fn country_from_alpha2(alpha2: &str) -> (r: iso_country::Country)
    requires
        is_market_country(alpha2@),
    ensures
        r == country_named(alpha2@),
{
    alpha2.parse().unwrap()
}

/// Parsing any letter-case spelling of a market's code gives that market,
/// whose code is the upper-case spelling.
pub proof fn law_parse_any_case(m: Market, s: Seq<char>)
    requires
        spells(s, code_of(m)),
    ensures
        market_of_code(s) == Some(m),
        code_of(market_of_code(s).unwrap()) == code_of(m),
{
    assert(same_letter(s[0], code_of(m)[0]));
    assert(same_letter(s[1], code_of(m)[1]));
}

/// A market's text form reads back as the same market.
pub proof fn law_serialize_round_trip(m: Market)
    ensures
        market_of_exact_code(code_of(m)) == Some(m),
{
}

} // verus!
