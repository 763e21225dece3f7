//! An exact percentage, held as a ratio of two integers.
use vstd::prelude::*;
use crate::text::{decimal, int_text, int_to_text};

verus! {

/// Largest magnitude that a numerator may have.
pub const NUMER_BOUND: u64 = 0xFFFF_FFFF_FFFF_FFFF;

/// A fraction where `1` stands for one hundred percent: `numer / denom`.
///
/// The value is not clamped: the mute marker, minus one percent, lies outside
/// `[0, 1]` on purpose.
#[derive(Clone, Copy, Debug, PartialEq, Eq, Structural)]
pub struct Percentage {
    numer: i128,
    denom: u64,
}

/// Nearest whole percent to `100 * numer / denom`, halves rounded away from zero.
pub open spec fn rounded_percent(numer: int, denom: int) -> int
    recommends
        denom > 0,
{
    if numer >= 0 {
        (200 * numer + denom) / (2 * denom)
    } else {
        -((200 * (-numer) + denom) / (2 * denom))
    }
}

/// The text `"{p}%"` for a whole percent `p`.
pub open spec fn percent_text(p: int) -> Seq<char> {
    int_text(p) + seq!['%']
}

impl Percentage {
    /// The numerator of the fraction.
    pub closed spec fn numer_spec(self) -> int {
        self.numer as int
    }

    /// The denominator of the fraction.
    pub closed spec fn denom_spec(self) -> int {
        self.denom as int
    }

    /// The fraction as a pair of numerator and denominator.
    pub open spec fn ratio(self) -> (int, int) {
        (self.numer_spec(), self.denom_spec())
    }

    /// A well-formed percentage has a positive denominator and a bounded numerator.
    pub open spec fn wf(self) -> bool {
        &&& self.denom_spec() > 0
        &&& -(NUMER_BOUND as int) <= self.numer_spec() <= NUMER_BOUND as int
    }

    /// Two percentages stand for the same fraction.
    pub open spec fn same_value(self, other: Percentage) -> bool {
        self.numer_spec() * other.denom_spec() == other.numer_spec() * self.denom_spec()
    }

    /// Whole percent shown for this value.
    pub open spec fn shown(self) -> int {
        rounded_percent(self.numer_spec(), self.denom_spec())
    }

    /// The fraction `numer / denom`.
    pub fn new(numer: i128, denom: u64) -> (r: Percentage)
        requires
            denom > 0,
            -(NUMER_BOUND as int) <= numer <= NUMER_BOUND as int,
        ensures
            r.wf(),
            r.numer_spec() == numer,
            r.denom_spec() == denom,
    {
        Percentage { numer, denom }
    }

    /// Zero percent.
    pub fn zero() -> (r: Percentage)
        ensures
            r.wf(),
            r.numer_spec() == 0,
            r.denom_spec() == 1,
    {
        Percentage { numer: 0, denom: 1 }
    }

    /// A whole percent `p`, as the fraction `p / 100`.
    pub fn from_percent(p: u8) -> (r: Percentage)
        ensures
            r.wf(),
            r.numer_spec() == p,
            r.denom_spec() == 100,
    {
        Percentage { numer: p as i128, denom: 100 }
    }

    /// The marker for muted audio output: minus one percent.
    pub fn muted() -> (r: Percentage)
        ensures
            r.wf(),
            r.numer_spec() == -1,
            r.denom_spec() == 100,
    {
        Percentage { numer: -1, denom: 100 }
    }

    /// Whether this is exactly the muted marker.
    pub fn is_muted(&self) -> (r: bool)
        ensures
            r == (self.numer_spec() == -1 && self.denom_spec() == 100),
    {
        self.numer == -1 && self.denom == 100
    }

    /// The numerator and denominator of the fraction.
    pub fn get_value(&self) -> (r: (i128, u64))
        ensures
            r.0 == self.numer_spec(),
            r.1 == self.denom_spec(),
    {
        (self.numer, self.denom)
    }

    /// The nearest whole percent, halves rounded away from zero.
    pub fn rounded(&self) -> (r: i128)
        requires
            self.wf(),
        ensures
            r == self.shown(),
    {
        let d: i128 = self.denom as i128;
        if self.numer >= 0 {
            (200 * self.numer + d) / (2 * d)
        } else {
            -((200 * (-self.numer) + d) / (2 * d))
        }
    }

    /// The value as text: the nearest whole percent followed by `%`.
    pub fn render(&self) -> (r: String)
        requires
            self.wf(),
        ensures
            r@ == percent_text(self.shown()),
    {
        let p = self.rounded();
        let mut s = int_to_text(p);
        s.append("%");
        proof {
            reveal_strlit("%");
        }
        assert(s@ =~= percent_text(self.shown()));
        s
    }
}

/// A whole percent `p` from 0 to 100, held as `p / 100`, is shown as `p` and
/// rendered as the decimal digits of `p` followed by `%`.
pub proof fn lemma_whole_percent_renders(q: Percentage, p: int)
    requires
        0 <= p <= 100,
        q.ratio() == (p, 100int),
    ensures
        q.shown() == p,
        percent_text(q.shown()) == decimal(p as nat) + seq!['%'],
{
    assert((200 * p + 100) / 200 == p) by (nonlinear_arith)
        requires
            0 <= p,
    {
    }
}

/// The mute marker keeps its exact value, minus one hundredth, is shown as
/// minus one percent, and differs in value from every zero percentage.
pub proof fn lemma_mute_distinct(m: Percentage, z: Percentage)
    requires
        m.ratio() == (-1int, 100int),
        z.wf(),
        z.numer_spec() == 0,
    ensures
        m.shown() == -1,
        z.shown() == 0,
        !m.same_value(z),
        percent_text(m.shown()) == seq!['-', '1', '%'],
{
    let d = z.denom_spec();
    assert((200 * 0 + d) / (2 * d) == 0) by (nonlinear_arith)
        requires
            d > 0,
    {
    }
    assert(-1 * z.denom_spec() != 0);
    assert(decimal(1) == seq!['1']);
    assert(percent_text(-1) =~= seq!['-', '1', '%']);
}

} // verus!
