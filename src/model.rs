//! The author resource and its request payloads.
use vstd::prelude::*;
use vstd::arithmetic::div_mod::lemma_mod_multiples_vanish;

verus! {

/// Whether `y` is a leap year of the proleptic Gregorian calendar.
pub open spec fn is_leap(y: int) -> bool {
    (y % 4 == 0 && y % 100 != 0) || y % 400 == 0
}

/// The number of days of month `m` (1 to 12) in year `y`.
pub open spec fn days_in_month(y: int, m: int) -> int {
    if m == 2 {
        if is_leap(y) { 29 } else { 28 }
    } else if m == 4 || m == 6 || m == 9 || m == 11 {
        30
    } else {
        31
    }
}

/// Month 1 to 12, and a day that the month has.
pub open spec fn date_valid(y: int, m: int, d: int) -> bool {
    1 <= m <= 12 && 1 <= d <= days_in_month(y, m)
}

/// Leap-year test; the year is first moved by a multiple of 400 years so
/// that the remainders are taken of a non-negative number.
fn leap_year(y: i32) -> (r: bool)
    ensures
        r == is_leap(y as int),
{
    let x: u64 = (y as i64 + SHIFT) as u64;
    proof {
        let k = SHIFT as int / 400;
        assert(x as int == 4 * (100 * k) + y as int);
        assert(x as int == 100 * (4 * k) + y as int);
        assert(x as int == 400 * k + y as int);
        lemma_mod_multiples_vanish(100 * k, y as int, 4);
        lemma_mod_multiples_vanish(4 * k, y as int, 100);
        lemma_mod_multiples_vanish(k, y as int, 400);
    }
    (x % 4 == 0 && x % 100 != 0) || x % 400 == 0
}

/// A multiple of 400 larger than any negative `i32` is in magnitude.
const SHIFT: i64 = 2147484000;

/// A calendar date, as year, month (1 to 12) and day of month; always a day
/// that exists.
#[derive(Clone, Copy, Debug, PartialEq, Eq, Structural)]
pub struct Date {
    year: i32,
    month: u8,
    day: u8,
}

impl Date {
    #[verifier::type_invariant]
    spec fn inv(&self) -> bool {
        date_valid(self.year as int, self.month as int, self.day as int)
    }

    pub closed spec fn year_of(&self) -> int {
        self.year as int
    }

    pub closed spec fn month_of(&self) -> int {
        self.month as int
    }

    pub closed spec fn day_of(&self) -> int {
        self.day as int
    }

    /// The date with these parts, if that day exists.
    pub fn new(year: i32, month: u8, day: u8) -> (r: Option<Date>)
        ensures
            r is Some <==> date_valid(year as int, month as int, day as int),
            r matches Some(d) ==> d.year_of() == year && d.month_of() == month && d.day_of() == day,
    {
        let leap = leap_year(year);
        let days: u8 = if month == 2 {
            if leap { 29 } else { 28 }
        } else if month == 4 || month == 6 || month == 9 || month == 11 {
            30
        } else {
            31
        };
        if 1 <= month && month <= 12 && 1 <= day && day <= days {
            Some(Date { year, month, day })
        } else {
            None
        }
    }

    pub fn year(&self) -> (r: i32)
        ensures
            r == self.year_of(),
    {
        self.year
    }

    pub fn month(&self) -> (r: u8)
        ensures
            r == self.month_of(),
            1 <= r <= 12,
    {
        proof {
            use_type_invariant(self);
        }
        self.month
    }

    pub fn day(&self) -> (r: u8)
        ensures
            r == self.day_of(),
            1 <= r <= days_in_month(self.year_of(), self.month_of()),
    {
        proof {
            use_type_invariant(self);
        }
        self.day
    }
}

/// A stored author row.
#[derive(Clone, Debug)]
pub struct Author {
    pub id: i32,
    pub name: String,
    pub email: String,
    pub date_of_birth: Option<Date>,
}

/// Mathematical view of an author row.
pub struct AuthorView {
    pub id: int,
    pub name: Seq<char>,
    pub email: Seq<char>,
    pub date_of_birth: Option<Date>,
}

impl View for Author {
    type V = AuthorView;

    open spec fn view(&self) -> AuthorView {
        AuthorView {
            id: self.id as int,
            name: self.name@,
            email: self.email@,
            date_of_birth: self.date_of_birth,
        }
    }
}

impl Author {
    /// A field-by-field copy of this row.
    pub fn copied(&self) -> (r: Author)
        ensures
            r@ == self@,
    {
        Author {
            id: self.id,
            name: self.name.clone(),
            email: self.email.clone(),
            date_of_birth: self.date_of_birth,
        }
    }
}

/// Payload of a create request.
#[derive(Clone, Debug)]
pub struct CreateAuthorDto {
    pub name: String,
    pub email: String,
    pub date_of_birth: Option<Date>,
}

/// Payload of a partial update: only the fields present are changed.
#[derive(Clone, Debug)]
pub struct UpdateAuthorDto {
    pub name: Option<String>,
    pub email: Option<String>,
    pub date_of_birth: Option<Date>,
}

/// View of an optional text field.
pub open spec fn opt_view(s: Option<String>) -> Option<Seq<char>> {
    match s {
        Some(v) => Some(v@),
        None => None,
    }
}

} // verus!
