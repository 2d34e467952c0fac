//! Zodiac signs and the mapping of ecliptic longitudes onto them.
use vstd::prelude::*;
use vstd::arithmetic::div_mod::{lemma_mod_multiples_vanish, lemma_small_mod};

verus! {

/// Millidegrees in a full turn of the ecliptic.
pub const TURN: i64 = 360000;

/// Millidegrees covered by one sign.
pub const SIGN_WIDTH: i64 = 30000;

/// An ecliptic longitude in thousandths of a degree, not reduced to one turn.
///
/// A longitude `x` in degrees is written `floor(1000 * x)`: the sign of `x` is
/// the sign of that value, since flooring commutes with the reduction modulo a
/// turn and with the division by the width of a sign.
#[derive(Clone, Copy, Debug, PartialEq, Eq, Structural)]
pub struct Longitude {
    pub millidegrees: i64,
}

/// The twelve signs of the tropical zodiac, in ecliptic order from 0 degrees.
#[derive(Clone, Copy, Debug, PartialEq, Eq, Structural)]
pub enum ZodiacSign {
    Aries,
    Taurus,
    Gemini,
    Cancer,
    Leo,
    Virgo,
    Libra,
    Scorpio,
    Sagittarius,
    Capricorn,
    Aquarius,
    Pisces,
}

/// The position of a longitude within its turn, in `[0, TURN)`.
pub open spec fn reduced(m: int) -> int {
    m % (TURN as int)
}

/// The index of the sector that holds a longitude, in `[0, 12)`.
pub open spec fn sector_of(m: int) -> int {
    reduced(m) / (SIGN_WIDTH as int)
}

/// The sign at a position of the table, counted from aries.
pub open spec fn sign_at(i: int) -> ZodiacSign {
    if i == 0 {
        ZodiacSign::Aries
    } else if i == 1 {
        ZodiacSign::Taurus
    } else if i == 2 {
        ZodiacSign::Gemini
    } else if i == 3 {
        ZodiacSign::Cancer
    } else if i == 4 {
        ZodiacSign::Leo
    } else if i == 5 {
        ZodiacSign::Virgo
    } else if i == 6 {
        ZodiacSign::Libra
    } else if i == 7 {
        ZodiacSign::Scorpio
    } else if i == 8 {
        ZodiacSign::Sagittarius
    } else if i == 9 {
        ZodiacSign::Capricorn
    } else if i == 10 {
        ZodiacSign::Aquarius
    } else {
        ZodiacSign::Pisces
    }
}

/// The sign that a longitude in millidegrees falls in.
pub open spec fn sign_of_spec(m: int) -> ZodiacSign {
    sign_at(sector_of(m))
}

/// The lower-case names of the twelve signs.
pub open spec fn sign_names() -> Set<Seq<char>> {
    set![
        "aries"@,
        "taurus"@,
        "gemini"@,
        "cancer"@,
        "leo"@,
        "virgo"@,
        "libra"@,
        "scorpio"@,
        "sagittarius"@,
        "capricorn"@,
        "aquarius"@,
        "pisces"@,
    ]
}

impl ZodiacSign {
    /// The lower-case name of the sign.
    pub open spec fn name_spec(self) -> Seq<char> {
        match self {
            ZodiacSign::Aries => "aries"@,
            ZodiacSign::Taurus => "taurus"@,
            ZodiacSign::Gemini => "gemini"@,
            ZodiacSign::Cancer => "cancer"@,
            ZodiacSign::Leo => "leo"@,
            ZodiacSign::Virgo => "virgo"@,
            ZodiacSign::Libra => "libra"@,
            ZodiacSign::Scorpio => "scorpio"@,
            ZodiacSign::Sagittarius => "sagittarius"@,
            ZodiacSign::Capricorn => "capricorn"@,
            ZodiacSign::Aquarius => "aquarius"@,
            ZodiacSign::Pisces => "pisces"@,
        }
    }

    /// The sign at position `i` of the table; positions wrap around every twelve.
    pub fn from_index(i: usize) -> (r: ZodiacSign)
        ensures
            r == sign_at((i % 12) as int),
    {
        let k: usize = i % 12;
        if k == 0 {
            ZodiacSign::Aries
        } else if k == 1 {
            ZodiacSign::Taurus
        } else if k == 2 {
            ZodiacSign::Gemini
        } else if k == 3 {
            ZodiacSign::Cancer
        } else if k == 4 {
            ZodiacSign::Leo
        } else if k == 5 {
            ZodiacSign::Virgo
        } else if k == 6 {
            ZodiacSign::Libra
        } else if k == 7 {
            ZodiacSign::Scorpio
        } else if k == 8 {
            ZodiacSign::Sagittarius
        } else if k == 9 {
            ZodiacSign::Capricorn
        } else if k == 10 {
            ZodiacSign::Aquarius
        } else {
            ZodiacSign::Pisces
        }
    }

    /// The lower-case name of the sign, such as `"aries"`.
    pub fn name(&self) -> (r: String)
        ensures
            r@ == self.name_spec(),
            sign_names().contains(r@),
    {
        let s: &str = match self {
            ZodiacSign::Aries => "aries",
            ZodiacSign::Taurus => "taurus",
            ZodiacSign::Gemini => "gemini",
            ZodiacSign::Cancer => "cancer",
            ZodiacSign::Leo => "leo",
            ZodiacSign::Virgo => "virgo",
            ZodiacSign::Libra => "libra",
            ZodiacSign::Scorpio => "scorpio",
            ZodiacSign::Sagittarius => "sagittarius",
            ZodiacSign::Capricorn => "capricorn",
            ZodiacSign::Aquarius => "aquarius",
            ZodiacSign::Pisces => "pisces",
        };
        s.to_string()
    }
}

/// The sign that a longitude falls in: the longitude is reduced into one turn
/// (negative values wrap forward) and its 30-degree sector is looked up.
pub fn sign_of(lon: Longitude) -> (r: ZodiacSign)
    ensures
        r == sign_of_spec(lon.millidegrees as int),
{
    let m: i64 = lon.millidegrees;
    let rem: i64 = m % TURN;
    let norm: i64 = if rem < 0 {
        rem + TURN
    } else {
        rem
    };
    assert(norm as int == reduced(m as int));
    let sector: usize = (norm / SIGN_WIDTH) as usize;
    ZodiacSign::from_index(sector)
}

/// The name of the sign that a longitude falls in.
pub fn sign_name_from_longitude(lon: Longitude) -> (r: String)
    ensures
        r@ == sign_of_spec(lon.millidegrees as int).name_spec(),
        sign_names().contains(r@),
{
    sign_of(lon).name()
}

/// Every sign's name is one of the twelve names.
pub proof fn lemma_name_in_table(s: ZodiacSign)
    ensures
        sign_names().contains(s.name_spec()),
{
}

/// A longitude and the same longitude moved by any whole number of turns fall
/// in the same sign.
pub proof fn lemma_sign_periodic(m: int, k: int)
    ensures
        sign_of_spec(m) == sign_of_spec(m + (TURN as int) * k),
{
    lemma_mod_multiples_vanish(k, m, TURN as int);
    assert(m + (TURN as int) * k == (TURN as int) * k + m);
}

/// Within the first turn, a longitude falls in the sign at index
/// `floor(m / SIGN_WIDTH)` of the table.
pub proof fn lemma_sign_in_first_turn(m: int)
    requires
        0 <= m < TURN,
    ensures
        sign_of_spec(m) == sign_at(m / (SIGN_WIDTH as int)),
        0 <= m / (SIGN_WIDTH as int) < 12,
{
    lemma_small_mod(m as nat, TURN as nat);
}

} // verus!
