//! The SCL high and low counts, and the formulas that give them.

use vstd::arithmetic::div_mod::{lemma_div_is_ordered, lemma_fundamental_div_mod};
use vstd::prelude::*;

verus! {

/// Nanoseconds times kHz make millionths of a clock tick.
pub const MICRO: u64 = 1000000;

/// The counts to store in the SCL timing registers, for each speed.
#[derive(Clone, Copy, Debug, PartialEq, Eq, Structural)]
pub struct DwI2cSclLHCnt {
    /// Standard speed HCNT value.
    pub ss_hcnt: u16,
    /// Standard speed LCNT value.
    pub ss_lcnt: u16,
    /// Fast speed HCNT value.
    pub fs_hcnt: u16,
    /// Fast speed LCNT value.
    pub fs_lcnt: u16,
    /// Fast speed plus HCNT value.
    pub fp_hcnt: u16,
    /// Fast speed plus LCNT value.
    pub fp_lcnt: u16,
    /// High speed HCNT value.
    pub hs_hcnt: u16,
    /// High speed LCNT value.
    pub hs_lcnt: u16,
}

/// `x / divisor`, rounded to the nearest integer, a half rounded up.
pub open spec fn round_div(x: int, divisor: int) -> int {
    (x + divisor / 2) / divisor
}

/// The clock ticks that `ns` nanoseconds take at `ic_clk` kHz, rounded to
/// the nearest tick.
pub open spec fn ticks(ic_clk: u32, ns: int) -> int {
    round_div(ic_clk * ns, MICRO as int)
}

/// The low count for a low period of `tlow` ns and a fall time of `tf` ns:
/// the ticks of both, less one, plus `offset`.
pub open spec fn scl_lcnt_spec(ic_clk: u32, tlow: u32, tf: u32, offset: u32) -> int {
    ticks(ic_clk, tlow + tf) - 1 + offset
}

/// The high count for a period of `tsymbol` ns. Where `cond` holds the
/// period is tHIGH and the count is its ticks less eight. Where it does not
/// the period is tHD;STA, the fall time `tf` is added to it and the count is
/// the ticks less three. `offset` is added in both cases.
pub open spec fn scl_hcnt_spec(ic_clk: u32, tsymbol: u32, tf: u32, cond: bool, offset: u32) -> int {
    if cond {
        ticks(ic_clk, tsymbol as int) - 8 + offset
    } else {
        ticks(ic_clk, tsymbol + tf) - 3 + offset
    }
}

/// The product of the low count fits in 64 bits, and the count is not
/// below zero and fits in 32.
pub open spec fn scl_lcnt_fits(ic_clk: u32, tlow: u32, tf: u32, offset: u32) -> bool {
    &&& ic_clk * (tlow + tf) + MICRO / 2 <= u64::MAX
    &&& 0 <= ticks(ic_clk, tlow + tf) - 1
    &&& scl_lcnt_spec(ic_clk, tlow, tf, offset) <= u32::MAX
}

/// The product of the high count fits in 64 bits, and the count is not
/// below zero and fits in 32.
pub open spec fn scl_hcnt_fits(ic_clk: u32, tsymbol: u32, tf: u32, cond: bool, offset: u32) -> bool {
    if cond {
        &&& 0 <= ticks(ic_clk, tsymbol as int) - 8
        &&& scl_hcnt_spec(ic_clk, tsymbol, tf, cond, offset) <= u32::MAX
    } else {
        &&& ic_clk * (tsymbol + tf) + MICRO / 2 <= u64::MAX
        &&& 0 <= ticks(ic_clk, tsymbol + tf) - 3
        &&& scl_hcnt_spec(ic_clk, tsymbol, tf, cond, offset) <= u32::MAX
    }
}

/// The counts for a controller clock of `ic_clk` kHz and the given fall
/// times of SCL and SDA, in ns, in the low 16 bits of each. Standard speed
/// always; fast speed, or fast speed plus in its place; high speed where
/// the bus runs at it, else what `prev` holds.
pub open spec fn lhcnt_spec(
    prev: DwI2cSclLHCnt,
    ic_clk: u32,
    scl_fall_ns: u32,
    sda_fall_ns: u32,
    fast_plus: bool,
    high_speed: bool,
) -> DwI2cSclLHCnt {
    DwI2cSclLHCnt {
        ss_lcnt: (scl_lcnt_spec(ic_clk, 4700, scl_fall_ns, 0) % 0x1_0000) as u16,
        ss_hcnt: (scl_hcnt_spec(ic_clk, 4000, sda_fall_ns, false, 0) % 0x1_0000) as u16,
        fs_lcnt: (scl_lcnt_spec(ic_clk, if fast_plus { 500 } else { 1300 }, scl_fall_ns, 0)
            % 0x1_0000) as u16,
        fs_hcnt: (scl_hcnt_spec(ic_clk, if fast_plus { 260 } else { 600 }, sda_fall_ns, false, 0)
            % 0x1_0000) as u16,
        hs_lcnt: if high_speed {
            (scl_lcnt_spec(ic_clk, 320, scl_fall_ns, 0) % 0x1_0000) as u16
        } else {
            prev.hs_lcnt
        },
        hs_hcnt: if high_speed {
            (scl_hcnt_spec(ic_clk, 160, sda_fall_ns, false, 0) % 0x1_0000) as u16
        } else {
            prev.hs_hcnt
        },
        ..prev
    }
}

/// Every count of `lhcnt_spec` can be computed in the machine's integers.
pub open spec fn lhcnt_fits(
    ic_clk: u32,
    scl_fall_ns: u32,
    sda_fall_ns: u32,
    fast_plus: bool,
    high_speed: bool,
) -> bool {
    &&& scl_lcnt_fits(ic_clk, 4700, scl_fall_ns, 0)
    &&& scl_hcnt_fits(ic_clk, 4000, sda_fall_ns, false, 0)
    &&& scl_lcnt_fits(ic_clk, if fast_plus { 500 } else { 1300 }, scl_fall_ns, 0)
    &&& scl_hcnt_fits(ic_clk, if fast_plus { 260 } else { 600 }, sda_fall_ns, false, 0)
    &&& high_speed ==> scl_lcnt_fits(ic_clk, 320, scl_fall_ns, 0)
    &&& high_speed ==> scl_hcnt_fits(ic_clk, 160, sda_fall_ns, false, 0)
}

/// The fall time to compute with: 300 ns where none is given.
pub open spec fn fall_time_or_default(fall_ns: u32) -> u32 {
    if fall_ns == 0 {
        300
    } else {
        fall_ns
    }
}

proof fn lemma_low_16_bits(v: u32)
    by (bit_vector)
    ensures
        v as u16 == v % 0x1_0000,
{
}

/// The low 16 bits of a count.
pub fn low_16_bits(v: u32) -> (r: u16)
    ensures
        r == v % 0x1_0000,
{
    proof {
        lemma_low_16_bits(v);
    }
    #[verifier::truncate]
    (v as u16)
}

proof fn lemma_low_32_bits(q: u64)
    by (bit_vector)
    ensures
        q as u32 == q % 0x1_0000_0000,
{
}

proof fn lemma_product_fits(a: u32, b: u32)
    by (nonlinear_arith)
    ensures
        0 <= a * b <= 0xffff_ffff * 0xffff_ffff,
{
}

/// Counts of zero.
pub open spec fn zero_counts() -> DwI2cSclLHCnt {
    DwI2cSclLHCnt {
        ss_hcnt: 0,
        ss_lcnt: 0,
        fs_hcnt: 0,
        fs_lcnt: 0,
        fp_hcnt: 0,
        fp_lcnt: 0,
        hs_hcnt: 0,
        hs_lcnt: 0,
    }
}

impl Default for DwI2cSclLHCnt {
    /// Counts of zero.
    fn default() -> (r: Self)
        ensures
            r == zero_counts(),
    {
        DwI2cSclLHCnt::new()
    }
}

impl DwI2cSclLHCnt {
    /// Counts of zero.
    pub fn new() -> (r: Self)
        ensures
            r == (DwI2cSclLHCnt {
                ss_hcnt: 0,
                ss_lcnt: 0,
                fs_hcnt: 0,
                fs_lcnt: 0,
                fp_hcnt: 0,
                fp_lcnt: 0,
                hs_hcnt: 0,
                hs_lcnt: 0,
            }),
    {
        DwI2cSclLHCnt {
            ss_hcnt: 0,
            ss_lcnt: 0,
            fs_hcnt: 0,
            fs_lcnt: 0,
            fp_hcnt: 0,
            fp_lcnt: 0,
            hs_hcnt: 0,
            hs_lcnt: 0,
        }
    }

    /// `x / divisor`, rounded to the nearest integer, a half rounded up.
    pub fn div_round_closest(x: u64, divisor: u64) -> (q: u64)
        requires
            divisor > 0,
            x + divisor / 2 <= u64::MAX,
        ensures
            q == round_div(x as int, divisor as int),
    {
        (x + divisor / 2) / divisor
    }

    /// `x / divisor`, rounded to the nearest integer, in 32 bits: of a
    /// quotient that needs more, the low 32 bits.
    pub fn div_round_closest_ull(x: u64, divisor: u64) -> (r: u32)
        requires
            divisor > 0,
            x + divisor / 2 <= u64::MAX,
        ensures
            r == round_div(x as int, divisor as int) % 0x1_0000_0000,
    {
        let q: u64 = Self::div_round_closest(x, divisor);
        proof {
            lemma_low_32_bits(q);
        }
        #[verifier::truncate]
        (q as u32)
    }

    /// The low count of SCL.
    ///
    /// The core starts counting the low period as soon as it pulls the line
    /// low, so the fall time of the signal counts toward it:
    /// `IC_[FS]S_SCL_LCNT + 1 >= IC_CLK * (tLOW + tf)`.
    pub fn scl_lcnt(ic_clk: u32, tlow: u32, tf: u32, offset: u32) -> (r: u32)
        requires
            scl_lcnt_fits(ic_clk, tlow, tf, offset),
        ensures
            r == scl_lcnt_spec(ic_clk, tlow, tf, offset),
    {
        let ns: u64 = tlow as u64 + tf as u64;
        assert(ic_clk as u64 * ns == ic_clk * (tlow + tf)) by (nonlinear_arith)
            requires
                ns == tlow + tf,
        ;
        let right: u64 = ic_clk as u64 * ns;
        let count: u64 = Self::div_round_closest(right, MICRO) - 1 + offset as u64;
        count as u32
    }

    /// Whether `scl_lcnt` can be computed for these arguments.
    pub fn scl_lcnt_in_range(ic_clk: u32, tlow: u32, tf: u32, offset: u32) -> (b: bool)
        ensures
            b == scl_lcnt_fits(ic_clk, tlow, tf, offset),
    {
        let ns: u64 = tlow as u64 + tf as u64;
        assert(ic_clk as u64 * ns == ic_clk * (tlow + tf)) by (nonlinear_arith)
            requires
                ns == tlow + tf,
        ;
        match (ic_clk as u64).checked_mul(ns) {
            None => false,
            Some(right) => {
                if right > u64::MAX - MICRO / 2 {
                    false
                } else {
                    let t = Self::div_round_closest(right, MICRO);
                    t >= 1 && t - 1 <= u32::MAX as u64 - offset as u64
                }
            },
        }
    }

    /// Whether `scl_hcnt` can be computed for these arguments.
    pub fn scl_hcnt_in_range(ic_clk: u32, tsymbol: u32, tf: u32, cond: bool, offset: u32) -> (b:
        bool)
        ensures
            b == scl_hcnt_fits(ic_clk, tsymbol, tf, cond, offset),
    {
        if cond {
            proof {
                lemma_product_fits(ic_clk, tsymbol);
            }
            let right: u64 = ic_clk as u64 * tsymbol as u64;
            let t = Self::div_round_closest(right, MICRO);
            t >= 8 && t - 8 <= u32::MAX as u64 - offset as u64
        } else {
            let ns: u64 = tsymbol as u64 + tf as u64;
            assert(ic_clk as u64 * ns == ic_clk * (tsymbol + tf)) by (nonlinear_arith)
                requires
                    ns == tsymbol + tf,
            ;
            match (ic_clk as u64).checked_mul(ns) {
                None => false,
                Some(right) => {
                    if right > u64::MAX - MICRO / 2 {
                        false
                    } else {
                        let t = Self::div_round_closest(right, MICRO);
                        t >= 3 && t - 3 <= u32::MAX as u64 - offset as u64
                    }
                },
            }
        }
    }

    /// The high count of SCL.
    ///
    /// With `cond` the count follows the tHIGH rule of the manual,
    /// `IC_[FS]S_SCL_HCNT + (1+4+3) >= IC_CLK * tHIGH`. Without it the count
    /// follows the rule that also meets tHD;STA,
    /// `IC_[FS]S_SCL_HCNT + 3 >= IC_CLK * (tHD;STA + tf)`.
    pub fn scl_hcnt(ic_clk: u32, tsymbol: u32, tf: u32, cond: bool, offset: u32) -> (r: u32)
        requires
            scl_hcnt_fits(ic_clk, tsymbol, tf, cond, offset),
        ensures
            r == scl_hcnt_spec(ic_clk, tsymbol, tf, cond, offset),
    {
        if cond {
            proof {
                lemma_product_fits(ic_clk, tsymbol);
            }
            let right: u64 = ic_clk as u64 * tsymbol as u64;
            let count: u64 = Self::div_round_closest(right, MICRO) - 8 + offset as u64;
            count as u32
        } else {
            let ns: u64 = tsymbol as u64 + tf as u64;
            assert(ic_clk as u64 * ns == ic_clk * (tsymbol + tf)) by (nonlinear_arith)
                requires
                    ns == tsymbol + tf,
            ;
            let right: u64 = ic_clk as u64 * ns;
            let count: u64 = Self::div_round_closest(right, MICRO) - 3 + offset as u64;
            count as u32
        }
    }
}

/// `round_div` gives the nearest integer, a half rounded up: the quotient
/// `q` is the one with `q * d - d / 2 <= x < (q + 1) * d - d / 2`.
pub proof fn lemma_round_div_nearest(x: int, divisor: int)
    requires
        0 <= x,
        0 < divisor,
    ensures
        round_div(x, divisor) * divisor <= x + divisor / 2 < (round_div(x, divisor) + 1) * divisor,
{
    let y = x + divisor / 2;
    lemma_fundamental_div_mod(y, divisor);
    assert(y == divisor * (y / divisor) + y % divisor);
    assert(0 <= y % divisor < divisor);
    assert(divisor * (y / divisor) == (y / divisor) * divisor) by (nonlinear_arith);
    assert((y / divisor + 1) * divisor == (y / divisor) * divisor + divisor) by (nonlinear_arith);
}

/// A longer time never takes fewer ticks.
pub proof fn lemma_round_div_monotone(x: int, y: int, divisor: int)
    requires
        x <= y,
        0 < divisor,
    ensures
        round_div(x, divisor) <= round_div(y, divisor),
{
    lemma_div_is_ordered(x + divisor / 2, y + divisor / 2, divisor);
}

/// The low count is the nearest tick count of the low period and the fall
/// time, less one, plus the offset: with `q` the count plus one less the
/// offset, `q * 10^6 <= ic_clk * (tlow + tf) + 500000 < (q + 1) * 10^6`.
pub proof fn lemma_scl_lcnt_rounds(ic_clk: u32, tlow: u32, tf: u32, offset: u32)
    ensures
        ({
            let q = scl_lcnt_spec(ic_clk, tlow, tf, offset) + 1 - offset;
            q * MICRO <= ic_clk * (tlow + tf) + MICRO / 2 < (q + 1) * MICRO
        }),
{
    assert(0 <= ic_clk * (tlow + tf)) by (nonlinear_arith);
    lemma_round_div_nearest(ic_clk * (tlow + tf), MICRO as int);
}

/// The high count is the nearest tick count of its period, less eight under
/// the tHIGH rule and less three under the tHD;STA rule, plus the offset.
pub proof fn lemma_scl_hcnt_rounds(ic_clk: u32, tsymbol: u32, tf: u32, cond: bool, offset: u32)
    ensures
        ({
            let ns = if cond {
                tsymbol as int
            } else {
                tsymbol + tf
            };
            let q = scl_hcnt_spec(ic_clk, tsymbol, tf, cond, offset) + (if cond {
                8int
            } else {
                3int
            }) - offset;
            q * MICRO <= ic_clk * ns + MICRO / 2 < (q + 1) * MICRO
        }),
{
    let ns = if cond {
        tsymbol as int
    } else {
        tsymbol + tf
    };
    assert(0 <= ic_clk * ns) by (nonlinear_arith)
        requires
            0 <= ns,
    ;
    lemma_round_div_nearest(ic_clk * ns, MICRO as int);
}

/// The low count does not fall when the clock, the low period or the fall
/// time grows.
pub proof fn lemma_scl_lcnt_monotone(
    clk_a: u32,
    tlow_a: u32,
    tf_a: u32,
    clk_b: u32,
    tlow_b: u32,
    tf_b: u32,
    offset: u32,
)
    requires
        clk_a <= clk_b,
        tlow_a <= tlow_b,
        tf_a <= tf_b,
    ensures
        scl_lcnt_spec(clk_a, tlow_a, tf_a, offset) <= scl_lcnt_spec(clk_b, tlow_b, tf_b, offset),
{
    assert(clk_a * (tlow_a + tf_a) <= clk_b * (tlow_b + tf_b)) by (nonlinear_arith)
        requires
            0 <= clk_a <= clk_b,
            0 <= tlow_a + tf_a <= tlow_b + tf_b,
    ;
    lemma_round_div_monotone(
        clk_a * (tlow_a + tf_a),
        clk_b * (tlow_b + tf_b),
        MICRO as int,
    );
}

/// The high count does not fall when the clock, the period or the fall time
/// grows.
pub proof fn lemma_scl_hcnt_monotone(
    clk_a: u32,
    tsymbol_a: u32,
    tf_a: u32,
    clk_b: u32,
    tsymbol_b: u32,
    tf_b: u32,
    cond: bool,
    offset: u32,
)
    requires
        clk_a <= clk_b,
        tsymbol_a <= tsymbol_b,
        tf_a <= tf_b,
    ensures
        scl_hcnt_spec(clk_a, tsymbol_a, tf_a, cond, offset) <= scl_hcnt_spec(
            clk_b,
            tsymbol_b,
            tf_b,
            cond,
            offset,
        ),
{
    if cond {
        assert(clk_a * tsymbol_a <= clk_b * tsymbol_b) by (nonlinear_arith)
            requires
                0 <= clk_a <= clk_b,
                0 <= tsymbol_a <= tsymbol_b,
        ;
        lemma_round_div_monotone(clk_a * tsymbol_a, clk_b * tsymbol_b, MICRO as int);
    } else {
        assert(clk_a * (tsymbol_a + tf_a) <= clk_b * (tsymbol_b + tf_b)) by (nonlinear_arith)
            requires
                0 <= clk_a <= clk_b,
                0 <= tsymbol_a + tf_a <= tsymbol_b + tf_b,
        ;
        lemma_round_div_monotone(
            clk_a * (tsymbol_a + tf_a),
            clk_b * (tsymbol_b + tf_b),
            MICRO as int,
        );
    }
}

/// A fall time of zero counts as 300 ns: the counts computed for fall
/// times of zero are those computed for 300 ns.
pub proof fn lemma_zero_fall_time_is_default(
    prev: DwI2cSclLHCnt,
    ic_clk: u32,
    fast_plus: bool,
    high_speed: bool,
)
    ensures
        lhcnt_spec(
            prev,
            ic_clk,
            fall_time_or_default(0),
            fall_time_or_default(0),
            fast_plus,
            high_speed,
        ) == lhcnt_spec(
            prev,
            ic_clk,
            fall_time_or_default(300),
            fall_time_or_default(300),
            fast_plus,
            high_speed,
        ),
{
}

} // verus!
