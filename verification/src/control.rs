use vstd::prelude::*;

verus! {

/// SR-IOV Control register, semantic form: five single-bit flags, with the
/// reserved span (bits 5..=15) absent.
#[derive(Debug, Clone, PartialEq, Eq, Structural)]
pub struct SrIovControl {
    /// VF Enable (bit 0).
    pub vf_enable: bool,
    /// VF Migration Enable (bit 1).
    pub vf_mig_enable: bool,
    /// VF Migration Interrupt Enable (bit 2).
    pub vf_mig_int_enable: bool,
    /// VF MSE (bit 3).
    pub vf_mse: bool,
    /// ARI Capable Hierarchy (bit 4).
    pub ari_capable: bool,
}

/// SR-IOV Control register, layout form: the exact 16-bit on-wire pattern,
/// reserved span included.
#[derive(Debug, Clone, Copy, PartialEq, Eq, Structural)]
pub struct SrIovControlProto {
    /// The packed register value, bit 0 least significant.
    pub bits: u16,
}

/// The 16-bit pattern that places the five flags at bits 0..=4 and zero-fills
/// the reserved span.
pub open spec fn pack_control(
    vf_enable: bool,
    vf_mig_enable: bool,
    vf_mig_int_enable: bool,
    vf_mse: bool,
    ari_capable: bool,
) -> u16 {
    (if vf_enable {
        1u16
    } else {
        0u16
    }) | (if vf_mig_enable {
        2u16
    } else {
        0u16
    }) | (if vf_mig_int_enable {
        4u16
    } else {
        0u16
    }) | (if vf_mse {
        8u16
    } else {
        0u16
    }) | (if ari_capable {
        16u16
    } else {
        0u16
    })
}

/// The semantic form that a raw 16-bit Control register decodes to.
pub open spec fn control_of_word(word: u16) -> SrIovControl {
    SrIovControl {
        vf_enable: word & 1 == 1,
        vf_mig_enable: (word >> 1) & 1 == 1,
        vf_mig_int_enable: (word >> 2) & 1 == 1,
        vf_mse: (word >> 3) & 1 == 1,
        ari_capable: (word >> 4) & 1 == 1,
    }
}

/// The raw 16-bit register that a semantic Control value encodes to.
pub open spec fn control_word(c: SrIovControl) -> u16 {
    pack_control(c.vf_enable, c.vf_mig_enable, c.vf_mig_int_enable, c.vf_mse, c.ari_capable)
}

impl SrIovControlProto {
    /// VF Enable: bit 0 of the packed register.
    pub fn vf_enable(&self) -> (r: bool)
        ensures
            r == control_of_word(self.bits).vf_enable,
    {
        self.bits & 1 == 1
    }

    /// VF Migration Enable: bit 1 of the packed register.
    pub fn vf_mig_enable(&self) -> (r: bool)
        ensures
            r == control_of_word(self.bits).vf_mig_enable,
    {
        (self.bits >> 1) & 1 == 1
    }

    /// VF Migration Interrupt Enable: bit 2 of the packed register.
    pub fn vf_mig_int_enable(&self) -> (r: bool)
        ensures
            r == control_of_word(self.bits).vf_mig_int_enable,
    {
        (self.bits >> 2) & 1 == 1
    }

    /// VF MSE: bit 3 of the packed register.
    pub fn vf_mse(&self) -> (r: bool)
        ensures
            r == control_of_word(self.bits).vf_mse,
    {
        (self.bits >> 3) & 1 == 1
    }

    /// ARI Capable Hierarchy: bit 4 of the packed register.
    pub fn ari_capable(&self) -> (r: bool)
        ensures
            r == control_of_word(self.bits).ari_capable,
    {
        (self.bits >> 4) & 1 == 1
    }

    /// Packs a semantic value: the five flags at bits 0..=4, reserved bits
    /// zero.
    pub fn pack(data: &SrIovControl) -> (r: Self)
        ensures
            r.bits == control_word(*data),
    {
        SrIovControlProto {
            bits: (if data.vf_enable {
                1u16
            } else {
                0u16
            }) | (if data.vf_mig_enable {
                2u16
            } else {
                0u16
            }) | (if data.vf_mig_int_enable {
                4u16
            } else {
                0u16
            }) | (if data.vf_mse {
                8u16
            } else {
                0u16
            }) | (if data.ari_capable {
                16u16
            } else {
                0u16
            }),
        }
    }

    /// Unpacks the layout form into the semantic form; reserved bits are read
    /// but discarded.
    pub fn unpack(&self) -> (r: SrIovControl)
        ensures
            r == control_of_word(self.bits),
    {
        SrIovControl {
            vf_enable: self.vf_enable(),
            vf_mig_enable: self.vf_mig_enable(),
            vf_mig_int_enable: self.vf_mig_int_enable(),
            vf_mse: self.vf_mse(),
            ari_capable: self.ari_capable(),
        }
    }
}

impl SrIovControl {
    /// Decodes a raw 16-bit Control register; total, never fails.
    pub fn decode(word: u16) -> (r: Self)
        ensures
            r == control_of_word(word),
    {
        SrIovControlProto { bits: word }.unpack()
    }

    /// Encodes back to the raw 16-bit register: the five flags at bits 0..=4,
    /// reserved bits zero.
    pub fn encode(&self) -> (r: u16)
        ensures
            r == control_word(*self),
    {
        SrIovControlProto::pack(self).bits
    }
}

/// Round-trip law: decoding an encoded Control value gives it back, for every
/// semantic value (each flag exactly fills its declared 1-bit width).
pub proof fn lemma_control_round_trip(c: SrIovControl)
    ensures
        control_of_word(control_word(c)) == c,
{
    let b0 = c.vf_enable;
    let b1 = c.vf_mig_enable;
    let b2 = c.vf_mig_int_enable;
    let b3 = c.vf_mse;
    let b4 = c.ari_capable;
    assert({
        let w = pack_control(b0, b1, b2, b3, b4);
        &&& (w & 1 == 1 <==> b0)
        &&& ((w >> 1) & 1 == 1 <==> b1)
        &&& ((w >> 2) & 1 == 1 <==> b2)
        &&& ((w >> 3) & 1 == 1 <==> b3)
        &&& ((w >> 4) & 1 == 1 <==> b4)
    }) by (bit_vector);
}

/// Reserved-bit zeroing: every encoded Control value has zeros throughout the
/// reserved span, bits 5..=15.
pub proof fn lemma_control_reserved_zero(c: SrIovControl)
    ensures
        control_word(c) & 0xffe0 == 0,
{
    let b0 = c.vf_enable;
    let b1 = c.vf_mig_enable;
    let b2 = c.vf_mig_int_enable;
    let b3 = c.vf_mse;
    let b4 = c.ari_capable;
    assert(pack_control(b0, b1, b2, b3, b4) & 0xffe0 == 0) by (bit_vector);
}

/// Field independence: flipping one bit of the raw register changes exactly
/// the one semantic flag declared at that bit, and none when the bit lies in
/// the reserved span.
pub proof fn lemma_control_bit_independence(word: u16, i: u16)
    requires
        i < 16,
    ensures
        ({
            let before = control_of_word(word);
            let after = control_of_word(word ^ (1u16 << i));
            &&& (after.vf_enable != before.vf_enable) <==> i == 0
            &&& (after.vf_mig_enable != before.vf_mig_enable) <==> i == 1
            &&& (after.vf_mig_int_enable != before.vf_mig_int_enable) <==> i == 2
            &&& (after.vf_mse != before.vf_mse) <==> i == 3
            &&& (after.ari_capable != before.ari_capable) <==> i == 4
        }),
{
    assert({
        let e = word ^ (1u16 << i);
        &&& ((e & 1 == 1) != (word & 1 == 1) <==> i == 0)
        &&& ((((e >> 1) & 1) == 1) != (((word >> 1) & 1) == 1) <==> i == 1)
        &&& ((((e >> 2) & 1) == 1) != (((word >> 2) & 1) == 1) <==> i == 2)
        &&& ((((e >> 3) & 1) == 1) != (((word >> 3) & 1) == 1) <==> i == 3)
        &&& ((((e >> 4) & 1) == 1) != (((word >> 4) & 1) == 1) <==> i == 4)
    }) by (bit_vector)
        requires
            i < 16,
    ;
}

} // verus!
