//! The UI board's PLL configuration register, whose divider fields are
//! exposed bit by bit: writing splits a value into its bits, reading
//! reassembles them, and the two are proved inverse.

use vstd::prelude::*;

verus! {

/// The PLL configuration bits the firmware reads and writes.
pub struct PllCfgr {
    /// Input divider, bit 0.
    pub pllm0: bool,
    /// Input divider, bit 1.
    pub pllm1: bool,
    /// Input divider, bit 2.
    pub pllm2: bool,
    /// Input divider, bit 3.
    pub pllm3: bool,
    /// Input divider, bit 4.
    pub pllm4: bool,
    /// Input divider, bit 5.
    pub pllm5: bool,
    /// Multiplier, bit 0.
    pub plln0: bool,
    /// Multiplier, bit 1.
    pub plln1: bool,
    /// Multiplier, bit 2.
    pub plln2: bool,
    /// Multiplier, bit 3.
    pub plln3: bool,
    /// Multiplier, bit 4.
    pub plln4: bool,
    /// Multiplier, bit 5.
    pub plln5: bool,
    /// Multiplier, bit 6.
    pub plln6: bool,
    /// Multiplier, bit 7.
    pub plln7: bool,
    /// System divider, bit 0.
    pub pllp0: bool,
    /// System divider, bit 1.
    pub pllp1: bool,
    /// Peripheral divider, bit 0.
    pub pllq0: bool,
    /// Peripheral divider, bit 1.
    pub pllq1: bool,
    /// Peripheral divider, bit 2.
    pub pllq2: bool,
    /// Peripheral divider, bit 3.
    pub pllq3: bool,
    /// Whether the PLL runs from the external oscillator.
    pub pllsrc: bool,
}

/// Bit `k` of `v`.
pub open spec fn bit_of(v: u8, k: u8) -> bool {
    (v >> k) & 1 == 1
}

impl PllCfgr {
    /// A register with every bit clear.
    pub fn new() -> (r: PllCfgr)
        ensures
            r == (PllCfgr {
                pllm0: false,
                pllm1: false,
                pllm2: false,
                pllm3: false,
                pllm4: false,
                pllm5: false,
                plln0: false,
                plln1: false,
                plln2: false,
                plln3: false,
                plln4: false,
                plln5: false,
                plln6: false,
                plln7: false,
                pllp0: false,
                pllp1: false,
                pllq0: false,
                pllq1: false,
                pllq2: false,
                pllq3: false,
                pllsrc: false,
            }),
    {
        PllCfgr {
            pllm0: false,
            pllm1: false,
            pllm2: false,
            pllm3: false,
            pllm4: false,
            pllm5: false,
            plln0: false,
            plln1: false,
            plln2: false,
            plln3: false,
            plln4: false,
            plln5: false,
            plln6: false,
            plln7: false,
            pllp0: false,
            pllp1: false,
            pllq0: false,
            pllq1: false,
            pllq2: false,
            pllq3: false,
            pllsrc: false,
        }
    }
}

/// Write the six input-divider bits.  The divider must fit its field;
/// the firmware asserts on anything wider.
pub fn write_pll_m(r: &mut PllCfgr, pll_m: u8)
    requires
        pll_m < 64,
    ensures
        *final(r) == (PllCfgr {
            pllm5: bit_of(pll_m, 5),
            pllm4: bit_of(pll_m, 4),
            pllm3: bit_of(pll_m, 3),
            pllm2: bit_of(pll_m, 2),
            pllm1: bit_of(pll_m, 1),
            pllm0: bit_of(pll_m, 0),
            ..*old(r)
        }),
{
    r.pllm5 = (pll_m >> 5) & 0x1 == 1;
    r.pllm4 = (pll_m >> 4) & 0x1 == 1;
    r.pllm3 = (pll_m >> 3) & 0x1 == 1;
    r.pllm2 = (pll_m >> 2) & 0x1 == 1;
    r.pllm1 = (pll_m >> 1) & 0x1 == 1;
    r.pllm0 = (pll_m >> 0) & 0x1 == 1;
}

/// Write the eight multiplier bits.
pub fn write_pll_n(r: &mut PllCfgr, pll_n: u8)
    ensures
        *final(r) == (PllCfgr {
            plln7: bit_of(pll_n, 7),
            plln6: bit_of(pll_n, 6),
            plln5: bit_of(pll_n, 5),
            plln4: bit_of(pll_n, 4),
            plln3: bit_of(pll_n, 3),
            plln2: bit_of(pll_n, 2),
            plln1: bit_of(pll_n, 1),
            plln0: bit_of(pll_n, 0),
            ..*old(r)
        }),
{
    r.plln7 = (pll_n >> 7) & 0x1 == 1;
    r.plln6 = (pll_n >> 6) & 0x1 == 1;
    r.plln5 = (pll_n >> 5) & 0x1 == 1;
    r.plln4 = (pll_n >> 4) & 0x1 == 1;
    r.plln3 = (pll_n >> 3) & 0x1 == 1;
    r.plln2 = (pll_n >> 2) & 0x1 == 1;
    r.plln1 = (pll_n >> 1) & 0x1 == 1;
    r.plln0 = (pll_n >> 0) & 0x1 == 1;
}

/// Write the two system-divider bits.  The divider must fit its field;
/// the firmware asserts on anything wider.
pub fn write_pll_p(r: &mut PllCfgr, pll_p: u8)
    requires
        pll_p < 4,
    ensures
        *final(r) == (PllCfgr { pllp1: bit_of(pll_p, 1), pllp0: bit_of(pll_p, 0), ..*old(r) }),
{
    r.pllp1 = (pll_p >> 1) & 0x1 == 1;
    r.pllp0 = (pll_p >> 0) & 0x1 == 1;
}

/// Write the four peripheral-divider bits.  The divider must fit its
/// field; the firmware asserts on anything wider.
pub fn write_pll_q(r: &mut PllCfgr, pll_q: u8)
    requires
        pll_q < 16,
    ensures
        *final(r) == (PllCfgr {
            pllq3: bit_of(pll_q, 3),
            pllq2: bit_of(pll_q, 2),
            pllq1: bit_of(pll_q, 1),
            pllq0: bit_of(pll_q, 0),
            ..*old(r)
        }),
{
    r.pllq3 = (pll_q >> 3) & 0x1 == 1;
    r.pllq2 = (pll_q >> 2) & 0x1 == 1;
    r.pllq1 = (pll_q >> 1) & 0x1 == 1;
    r.pllq0 = (pll_q >> 0) & 0x1 == 1;
}

/// One bit back as the bottom of a byte.
fn bit_u8(b: bool) -> (v: u8)
    ensures
        v == (if b {
            1u8
        } else {
            0u8
        }),
{
    if b {
        1
    } else {
        0
    }
}

/// Reassemble the eight multiplier bits; reading after a write returns
/// the written value.
pub fn read_pll_n(r: &PllCfgr) -> (v: u8)
    ensures
        bit_of(v, 7) == r.plln7 && bit_of(v, 6) == r.plln6 && bit_of(v, 5) == r.plln5 && bit_of(
            v,
            4,
        ) == r.plln4 && bit_of(v, 3) == r.plln3 && bit_of(v, 2) == r.plln2 && bit_of(v, 1)
            == r.plln1 && bit_of(v, 0) == r.plln0,
{
    let v = (bit_u8(r.plln7) << 7) | (bit_u8(r.plln6) << 6) | (bit_u8(r.plln5) << 5) | (bit_u8(
        r.plln4,
    ) << 4) | (bit_u8(r.plln3) << 3) | (bit_u8(r.plln2) << 2) | (bit_u8(r.plln1) << 1) | bit_u8(
        r.plln0,
    );
    proof {
        let b7 = if r.plln7 { 1u8 } else { 0u8 };
        let b6 = if r.plln6 { 1u8 } else { 0u8 };
        let b5 = if r.plln5 { 1u8 } else { 0u8 };
        let b4 = if r.plln4 { 1u8 } else { 0u8 };
        let b3 = if r.plln3 { 1u8 } else { 0u8 };
        let b2 = if r.plln2 { 1u8 } else { 0u8 };
        let b1 = if r.plln1 { 1u8 } else { 0u8 };
        let b0 = if r.plln0 { 1u8 } else { 0u8 };
        assert((((b7 << 7) | (b6 << 6) | (b5 << 5) | (b4 << 4) | (b3 << 3) | (b2 << 2) | (b1 << 1)
            | b0) >> 7) & 1 == b7 && (((b7 << 7) | (b6 << 6) | (b5 << 5) | (b4 << 4) | (b3 << 3) | (
        b2 << 2) | (b1 << 1) | b0) >> 6) & 1 == b6 && (((b7 << 7) | (b6 << 6) | (b5 << 5) | (b4
            << 4) | (b3 << 3) | (b2 << 2) | (b1 << 1) | b0) >> 5) & 1 == b5 && (((b7 << 7) | (b6
            << 6) | (b5 << 5) | (b4 << 4) | (b3 << 3) | (b2 << 2) | (b1 << 1) | b0) >> 4) & 1 == b4
            && (((b7 << 7) | (b6 << 6) | (b5 << 5) | (b4 << 4) | (b3 << 3) | (b2 << 2) | (b1 << 1)
            | b0) >> 3) & 1 == b3 && (((b7 << 7) | (b6 << 6) | (b5 << 5) | (b4 << 4) | (b3 << 3) | (
        b2 << 2) | (b1 << 1) | b0) >> 2) & 1 == b2 && (((b7 << 7) | (b6 << 6) | (b5 << 5) | (b4
            << 4) | (b3 << 3) | (b2 << 2) | (b1 << 1) | b0) >> 1) & 1 == b1 && (((b7 << 7) | (b6
            << 6) | (b5 << 5) | (b4 << 4) | (b3 << 3) | (b2 << 2) | (b1 << 1) | b0) >> 0) & 1 == b0)
            by (bit_vector)
            requires
                b7 < 2 && b6 < 2 && b5 < 2 && b4 < 2 && b3 < 2 && b2 < 2 && b1 < 2 && b0 < 2,
        ;
    }
    v
}

/// Reassemble the two system-divider bits.
pub fn read_pll_p(r: &PllCfgr) -> (v: u8)
    ensures
        bit_of(v, 1) == r.pllp1 && bit_of(v, 0) == r.pllp0,
        v < 4,
{
    let v = (bit_u8(r.pllp1) << 1) | bit_u8(r.pllp0);
    proof {
        let b1 = if r.pllp1 { 1u8 } else { 0u8 };
        let b0 = if r.pllp0 { 1u8 } else { 0u8 };
        assert((((b1 << 1) | b0) >> 1) & 1 == b1 && (((b1 << 1) | b0) >> 0) & 1 == b0 && ((b1 << 1)
            | b0) < 4) by (bit_vector)
            requires
                b1 < 2 && b0 < 2,
        ;
    }
    v
}

/// Reassemble the four peripheral-divider bits.
pub fn read_pll_q(r: &PllCfgr) -> (v: u8)
    ensures
        bit_of(v, 3) == r.pllq3 && bit_of(v, 2) == r.pllq2 && bit_of(v, 1) == r.pllq1 && bit_of(
            v,
            0,
        ) == r.pllq0,
        v < 16,
{
    let v = (bit_u8(r.pllq3) << 3) | (bit_u8(r.pllq2) << 2) | (bit_u8(r.pllq1) << 1) | bit_u8(
        r.pllq0,
    );
    proof {
        let b3 = if r.pllq3 { 1u8 } else { 0u8 };
        let b2 = if r.pllq2 { 1u8 } else { 0u8 };
        let b1 = if r.pllq1 { 1u8 } else { 0u8 };
        let b0 = if r.pllq0 { 1u8 } else { 0u8 };
        assert((((b3 << 3) | (b2 << 2) | (b1 << 1) | b0) >> 3) & 1 == b3 && (((b3 << 3) | (b2 << 2)
            | (b1 << 1) | b0) >> 2) & 1 == b2 && (((b3 << 3) | (b2 << 2) | (b1 << 1) | b0) >> 1) & 1
            == b1 && (((b3 << 3) | (b2 << 2) | (b1 << 1) | b0) >> 0) & 1 == b0 && ((b3 << 3) | (b2
            << 2) | (b1 << 1) | b0) < 16) by (bit_vector)
            requires
                b3 < 2 && b2 < 2 && b1 < 2 && b0 < 2,
        ;
    }
    v
}

/// Writing a multiplier and reading it back returns the written value.
pub proof fn lemma_pll_n_roundtrip(v: u8)
    ensures
        forall|w: u8|
            (bit_of(w, 7) == bit_of(v, 7) && bit_of(w, 6) == bit_of(v, 6) && bit_of(w, 5) == bit_of(
                v,
                5,
            ) && bit_of(w, 4) == bit_of(v, 4) && bit_of(w, 3) == bit_of(v, 3) && bit_of(w, 2)
                == bit_of(v, 2) && bit_of(w, 1) == bit_of(v, 1) && bit_of(w, 0) == bit_of(v, 0))
                ==> w == v,
{
    assert forall|w: u8|
        (bit_of(w, 7) == bit_of(v, 7) && bit_of(w, 6) == bit_of(v, 6) && bit_of(w, 5) == bit_of(
            v,
            5,
        ) && bit_of(w, 4) == bit_of(v, 4) && bit_of(w, 3) == bit_of(v, 3) && bit_of(w, 2) == bit_of(
            v,
            2,
        ) && bit_of(w, 1) == bit_of(v, 1) && bit_of(w, 0) == bit_of(v, 0)) implies w == v by {
        assert(((((w >> 7) & 1 == 1) == ((v >> 7) & 1 == 1)) && (((w >> 6) & 1 == 1) == ((v >> 6)
            & 1 == 1)) && (((w >> 5) & 1 == 1) == ((v >> 5) & 1 == 1)) && (((w >> 4) & 1 == 1) == ((v
            >> 4) & 1 == 1)) && (((w >> 3) & 1 == 1) == ((v >> 3) & 1 == 1)) && (((w >> 2) & 1 == 1)
            == ((v >> 2) & 1 == 1)) && (((w >> 1) & 1 == 1) == ((v >> 1) & 1 == 1)) && (((w >> 0) & 1
            == 1) == ((v >> 0) & 1 == 1))) ==> w == v) by (bit_vector);
    }
}

} // verus!
