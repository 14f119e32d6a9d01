use vstd::prelude::*;

verus! {

/// SR-IOV Status register, semantic form: one flag, with the reserved span
/// (bits 1..=15) absent.
#[derive(Debug, Clone, PartialEq, Eq, Structural)]
pub struct SrIovStatus {
    /// VF Migration Status (bit 0).
    pub vf_migration: bool,
}

/// SR-IOV Status register, layout form: the exact 16-bit on-wire pattern,
/// reserved span included.
#[derive(Debug, Clone, Copy, PartialEq, Eq, Structural)]
pub struct SrIovStatusProto {
    /// The packed register value, bit 0 least significant.
    pub bits: u16,
}

/// The 16-bit pattern that places the flag at bit 0 and zero-fills the
/// reserved span.
pub open spec fn pack_status(vf_migration: bool) -> u16 {
    if vf_migration {
        1u16
    } else {
        0u16
    }
}

/// The semantic form that a raw 16-bit Status register decodes to.
pub open spec fn status_of_word(word: u16) -> SrIovStatus {
    SrIovStatus { vf_migration: word & 1 == 1 }
}

/// The raw 16-bit register that a semantic Status value encodes to.
pub open spec fn status_word(s: SrIovStatus) -> u16 {
    pack_status(s.vf_migration)
}

impl SrIovStatusProto {
    /// VF Migration Status: bit 0 of the packed register.
    pub fn vf_migration(&self) -> (r: bool)
        ensures
            r == status_of_word(self.bits).vf_migration,
    {
        self.bits & 1 == 1
    }

    /// Packs a semantic value: the flag at bit 0, reserved bits zero.
    pub fn pack(data: &SrIovStatus) -> (r: Self)
        ensures
            r.bits == status_word(*data),
    {
        SrIovStatusProto {
            bits: if data.vf_migration {
                1u16
            } else {
                0u16
            },
        }
    }

    /// Unpacks the layout form into the semantic form; reserved bits are read
    /// but discarded.
    pub fn unpack(&self) -> (r: SrIovStatus)
        ensures
            r == status_of_word(self.bits),
    {
        SrIovStatus { vf_migration: self.vf_migration() }
    }
}

impl SrIovStatus {
    /// Decodes a raw 16-bit Status register; total, never fails.
    pub fn decode(word: u16) -> (r: Self)
        ensures
            r == status_of_word(word),
    {
        SrIovStatusProto { bits: word }.unpack()
    }

    /// Encodes back to the raw 16-bit register: the flag at bit 0, reserved
    /// bits zero.
    pub fn encode(&self) -> (r: u16)
        ensures
            r == status_word(*self),
    {
        SrIovStatusProto::pack(self).bits
    }
}

/// Round-trip law: decoding an encoded Status value gives it back, for every
/// semantic value.
pub proof fn lemma_status_round_trip(s: SrIovStatus)
    ensures
        status_of_word(status_word(s)) == s,
{
    let b = s.vf_migration;
    assert(pack_status(b) & 1 == 1 <==> b) by (bit_vector);
}

/// Reserved-bit zeroing: every encoded Status value has zeros throughout the
/// reserved span, bits 1..=15.
pub proof fn lemma_status_reserved_zero(s: SrIovStatus)
    ensures
        status_word(s) & 0xfffe == 0,
{
    let b = s.vf_migration;
    assert(pack_status(b) & 0xfffe == 0) by (bit_vector);
}

/// Field independence: flipping one bit of the raw register changes the one
/// semantic flag exactly when that bit is bit 0, and nothing otherwise.
pub proof fn lemma_status_bit_independence(word: u16, i: u16)
    requires
        i < 16,
    ensures
        ({
            let before = status_of_word(word);
            let after = status_of_word(word ^ (1u16 << i));
            (after.vf_migration != before.vf_migration) <==> i == 0
        }),
{
    assert((((word ^ (1u16 << i)) & 1) == 1) != ((word & 1) == 1) <==> i == 0) by (bit_vector)
        requires
            i < 16,
    ;
}

} // verus!
