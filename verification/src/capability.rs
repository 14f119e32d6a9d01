use vstd::prelude::*;

verus! {

/// SR-IOV Capabilities register, semantic form: only the meaningful fields,
/// with the reserved span (bits 2..=20) absent.
#[derive(Debug, Clone, PartialEq, Eq, Structural)]
pub struct SrIovCapability {
    /// VF Migration Capable (bit 0).
    pub vf_migration: bool,
    /// ARI Capable Hierarchy Preserved (bit 1).
    pub ari_preserved: bool,
    /// VF Migration Interrupt Message Number (bits 21..=31, an 11-bit field).
    pub vf_mig_int: u16,
}

/// SR-IOV Capabilities register, layout form: the exact 32-bit on-wire
/// pattern, reserved span included.
#[derive(Debug, Clone, Copy, PartialEq, Eq, Structural)]
pub struct SrIovCapabilityProto {
    /// The packed register value, bit 0 least significant.
    pub bits: u32,
}

/// The 32-bit pattern that places the given field values at their declared
/// bit offsets, truncates `vf_mig_int` to its declared 11-bit width, and
/// zero-fills the reserved span.
pub open spec fn pack_capability(vf_migration: bool, ari_preserved: bool, vf_mig_int: u16) -> u32 {
    (if vf_migration {
        1u32
    } else {
        0u32
    }) | (if ari_preserved {
        2u32
    } else {
        0u32
    }) | (((vf_mig_int & 0x7ff) as u32) << 21)
}

/// The semantic form that a raw 32-bit Capabilities register decodes to.
pub open spec fn capability_of_dword(dword: u32) -> SrIovCapability {
    SrIovCapability {
        vf_migration: dword & 1 == 1,
        ari_preserved: (dword >> 1) & 1 == 1,
        vf_mig_int: ((dword >> 21) & 0x7ff) as u16,
    }
}

/// The raw 32-bit register that a semantic Capabilities value encodes to.
pub open spec fn capability_dword(c: SrIovCapability) -> u32 {
    pack_capability(c.vf_migration, c.ari_preserved, c.vf_mig_int)
}

impl SrIovCapabilityProto {
    /// VF Migration Capable: bit 0 of the packed register.
    pub fn vf_migration(&self) -> (r: bool)
        ensures
            r == capability_of_dword(self.bits).vf_migration,
    {
        self.bits & 1 == 1
    }

    /// ARI Capable Hierarchy Preserved: bit 1 of the packed register.
    pub fn ari_preserved(&self) -> (r: bool)
        ensures
            r == capability_of_dword(self.bits).ari_preserved,
    {
        (self.bits >> 1) & 1 == 1
    }

    /// VF Migration Interrupt Message Number: bits 21..=31 of the packed
    /// register.
    pub fn vf_mig_int(&self) -> (r: u16)
        ensures
            r == capability_of_dword(self.bits).vf_mig_int,
    {
        ((self.bits >> 21) & 0x7ff) as u16
    }

    /// Packs a semantic value: each field at its declared offset, truncated to
    /// its declared width, reserved bits zero.
    pub fn pack(data: &SrIovCapability) -> (r: Self)
        ensures
            r.bits == capability_dword(*data),
    {
        SrIovCapabilityProto {
            bits: (if data.vf_migration {
                1u32
            } else {
                0u32
            }) | (if data.ari_preserved {
                2u32
            } else {
                0u32
            }) | (((data.vf_mig_int & 0x7ff) as u32) << 21),
        }
    }

    /// Unpacks the layout form into the semantic form; reserved bits are read
    /// but discarded.
    pub fn unpack(&self) -> (r: SrIovCapability)
        ensures
            r == capability_of_dword(self.bits),
    {
        SrIovCapability {
            vf_migration: self.vf_migration(),
            ari_preserved: self.ari_preserved(),
            vf_mig_int: self.vf_mig_int(),
        }
    }
}

impl SrIovCapability {
    /// Decodes a raw 32-bit Capabilities register; total, never fails.
    pub fn decode(dword: u32) -> (r: Self)
        ensures
            r == capability_of_dword(dword),
    {
        SrIovCapabilityProto { bits: dword }.unpack()
    }

    /// Encodes back to the raw 32-bit register: fields at their declared
    /// offsets, `vf_mig_int` masked to 11 bits, reserved bits zero.
    pub fn encode(&self) -> (r: u32)
        ensures
            r == capability_dword(*self),
    {
        SrIovCapabilityProto::pack(self).bits
    }
}

/// Round-trip law: decoding an encoded Capabilities value gives it back, for
/// every value whose `vf_mig_int` fits its declared 11-bit width.
pub proof fn lemma_capability_round_trip(c: SrIovCapability)
    requires
        c.vf_mig_int < 0x800,
    ensures
        capability_of_dword(capability_dword(c)) == c,
{
    let m = c.vf_migration;
    let a = c.ari_preserved;
    let v = c.vf_mig_int;
    assert(pack_capability(m, a, v) & 1 == 1 <==> m) by (bit_vector);
    assert((pack_capability(m, a, v) >> 1) & 1 == 1 <==> a) by (bit_vector);
    assert(((pack_capability(m, a, v) >> 21) & 0x7ff) as u16 == v) by (bit_vector)
        requires
            v < 0x800,
    ;
}

/// Reserved-bit zeroing: every encoded Capabilities value has zeros throughout
/// the reserved span, bits 2..=20.
pub proof fn lemma_capability_reserved_zero(c: SrIovCapability)
    ensures
        capability_dword(c) & 0x001f_fffc == 0,
{
    let m = c.vf_migration;
    let a = c.ari_preserved;
    let v = c.vf_mig_int;
    assert(pack_capability(m, a, v) & 0x001f_fffc == 0) by (bit_vector);
}

/// Truncation law: encoding masks `vf_mig_int` to its declared 11-bit width,
/// so a value wider than 11 bits encodes exactly as its low 11 bits do.
pub proof fn lemma_capability_truncates(c: SrIovCapability)
    ensures
        capability_dword(c) == capability_dword(
            SrIovCapability { vf_mig_int: c.vf_mig_int & 0x7ff, ..c },
        ),
{
    let m = c.vf_migration;
    let a = c.ari_preserved;
    let v = c.vf_mig_int;
    assert(pack_capability(m, a, v) == pack_capability(m, a, v & 0x7ff)) by (bit_vector);
}

/// Field independence: flipping one bit of the raw register changes exactly
/// the one semantic field declared at that bit, and none when the bit lies in
/// the reserved span.
pub proof fn lemma_capability_bit_independence(dword: u32, i: u32)
    requires
        i < 32,
    ensures
        ({
            let before = capability_of_dword(dword);
            let after = capability_of_dword(dword ^ (1u32 << i));
            &&& (after.vf_migration != before.vf_migration) <==> i == 0
            &&& (after.ari_preserved != before.ari_preserved) <==> i == 1
            &&& (after.vf_mig_int != before.vf_mig_int) <==> i >= 21
        }),
{
    assert(((dword ^ (1u32 << i)) & 1 == 1) != (dword & 1 == 1) <==> i == 0) by (bit_vector)
        requires
            i < 32,
    ;
    assert((((dword ^ (1u32 << i)) >> 1) & 1 == 1) != ((dword >> 1) & 1 == 1) <==> i == 1)
        by (bit_vector)
        requires
            i < 32,
    ;
    assert((((dword ^ (1u32 << i)) >> 21) & 0x7ff) as u16 != ((dword >> 21) & 0x7ff) as u16 <==> i
        >= 21) by (bit_vector)
        requires
            i < 32,
    ;
}

} // verus!
