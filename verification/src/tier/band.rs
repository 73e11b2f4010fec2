use vstd::prelude::*;

verus! {

/// Number of decimals of the oracle's SCRT/USD rate.
pub const DECIMALS: u8 = 18;

/// One USD in the oracle's fixed-point unit: 10^18.
pub const ONE_USD: u128 = 1_000_000_000_000_000_000;

/// Conversion between uscrt and USD amounts by the rate that the Band
/// oracle reported.
pub struct BandProtocol {
    scrt_per_usd: u128,
}

impl BandProtocol {
    /// The rate, in units of `ONE_USD`, by which the converter works.
    pub closed spec fn rate(&self) -> u128 {
        self.scrt_per_usd
    }

    /// USD value of `uscrt` uscrt at this rate, rounded down.
    pub open spec fn usd_of(&self, uscrt: int) -> int {
        (uscrt * self.rate()) / (ONE_USD as int)
    }

    /// uscrt amount worth `usd` USD at this rate, rounded down.
    pub open spec fn uscrt_of(&self, usd: int) -> int {
        (usd * ONE_USD) / (self.rate() as int)
    }

    /// USD value of uscrt, and uscrt worth of USD, at this rate, rounded
    /// down, with 18 decimals.
    pub proof fn lemma_conversions(&self, x: int)
        ensures
            self.usd_of(x) == (x * self.rate()) / 1_000_000_000_000_000_000int,
            self.uscrt_of(x) == (x * 1_000_000_000_000_000_000int) / (self.rate() as int),
    {
    }

    /// A converter with the given rate.
    pub fn new_with_value(scrt_per_usd: u128) -> (r: Self)
        ensures
            r.rate() == scrt_per_usd,
    {
        BandProtocol { scrt_per_usd }
    }

    /// The rate: uscrt per USD, in units of `ONE_USD`.
    pub fn scrt_per_usd(&self) -> (r: u128)
        ensures
            r == self.rate(),
    {
        self.scrt_per_usd
    }

    /// USD value of `uscrt`: `uscrt * rate / 10^18`, rounded down.
    pub fn usd_amount(&self, uscrt: u128) -> (r: u128)
        requires
            uscrt * self.rate() <= u128::MAX,
        ensures
            r == self.usd_of(uscrt as int),
    {
        uscrt.checked_mul(self.scrt_per_usd).unwrap() / ONE_USD
    }

    /// uscrt amount worth `usd`: `usd * 10^18 / rate`, rounded down.
    pub fn uscrt_amount(&self, usd: u128) -> (r: u128)
        requires
            usd * ONE_USD <= u128::MAX,
            self.rate() > 0,
        ensures
            r == self.uscrt_of(usd as int),
    {
        usd.checked_mul(ONE_USD).unwrap() / self.scrt_per_usd
    }
}

/// Converting uscrt to USD and back never gives more uscrt than there was;
/// when `uscrt * rate` is a whole number of USD units the round trip gives
/// back exactly the amount it started from.
pub proof fn lemma_uscrt_round_trip(band: BandProtocol, uscrt: u128)
    requires
        band.rate() > 0,
    ensures
        band.uscrt_of(band.usd_of(uscrt as int)) <= uscrt,
        (uscrt * band.rate()) % (ONE_USD as int) == 0 ==> band.uscrt_of(band.usd_of(uscrt as int))
            == uscrt,
{
    let r = band.rate() as int;
    let o = ONE_USD as int;
    let x = uscrt as int;
    let p = x * r;
    let q = p / o;
    assert(0 <= p) by (nonlinear_arith)
        requires
            p == x * r,
            x >= 0,
            r > 0,
    ;
    assert(q * o <= p) by (nonlinear_arith)
        requires
            q == p / o,
            o > 0,
            p >= 0,
    ;
    assert(0 <= q * o) by (nonlinear_arith)
        requires
            q == p / o,
            o > 0,
            p >= 0,
    ;
    assert((q * o) / r <= p / r) by (nonlinear_arith)
        requires
            q * o <= p,
            0 <= q * o,
            r > 0,
    ;
    assert(p / r == x) by (nonlinear_arith)
        requires
            p == x * r,
            r > 0,
    ;
    if p % o == 0 {
        assert(q * o == p) by (nonlinear_arith)
            requires
                q == p / o,
                o > 0,
                p % o == 0,
        ;
    }
}

/// Converting USD to uscrt and back never gives more USD than there was.
pub proof fn lemma_usd_round_trip(band: BandProtocol, usd: u128)
    requires
        band.rate() > 0,
    ensures
        band.usd_of(band.uscrt_of(usd as int)) <= usd,
{
    let r = band.rate() as int;
    let o = ONE_USD as int;
    let u = usd as int;
    let p = u * o;
    let q = p / r;
    assert(0 <= p) by (nonlinear_arith)
        requires
            p == u * o,
            u >= 0,
            o > 0,
    ;
    assert(0 <= q * r <= p) by (nonlinear_arith)
        requires
            q == p / r,
            r > 0,
            p >= 0,
    ;
    assert((q * r) / o <= p / o) by (nonlinear_arith)
        requires
            q * r <= p,
            0 <= q * r,
            o > 0,
    ;
    assert(p / o == u) by (nonlinear_arith)
        requires
            p == u * o,
            o > 0,
    ;
}

} // verus!
