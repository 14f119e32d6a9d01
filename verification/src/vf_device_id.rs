use vstd::prelude::*;

verus! {

/// VF Device ID register, semantic form: the 16-bit device identifier, with
/// the reserved low half absent.
#[derive(Debug, Clone, PartialEq, Eq, Structural)]
pub struct SrIovVfDeviceId {
    /// VF Device ID (bits 16..=31).
    pub vf_device_id: u16,
}

/// VF Device ID register, layout form: the exact 32-bit on-wire pattern,
/// reserved low half included.
#[derive(Debug, Clone, Copy, PartialEq, Eq, Structural)]
pub struct SrIovVfDeviceIdProto {
    /// The packed register value, bit 0 least significant.
    pub bits: u32,
}

/// The 32-bit pattern that places the device identifier in the high half and
/// zero-fills the reserved low half.
pub open spec fn pack_vf_device_id(vf_device_id: u16) -> u32 {
    (vf_device_id as u32) << 16
}

/// The semantic form that a raw 32-bit VF Device ID register decodes to.
pub open spec fn vf_device_id_of_dword(dword: u32) -> SrIovVfDeviceId {
    SrIovVfDeviceId { vf_device_id: ((dword >> 16) & 0xffff) as u16 }
}

/// The raw 32-bit register that a semantic VF Device ID value encodes to.
pub open spec fn vf_device_id_dword(d: SrIovVfDeviceId) -> u32 {
    pack_vf_device_id(d.vf_device_id)
}

impl SrIovVfDeviceIdProto {
    /// VF Device ID: the high half of the packed register.
    pub fn vf_device_id(&self) -> (r: u16)
        ensures
            r == vf_device_id_of_dword(self.bits).vf_device_id,
    {
        ((self.bits >> 16) & 0xffff) as u16
    }

    /// The reserved low half, as read from the wire; callers discard it.
    pub fn rsvdp(&self) -> (r: u16)
        ensures
            r == (self.bits & 0xffff) as u16,
    {
        (self.bits & 0xffff) as u16
    }

    /// Packs a semantic value: the device identifier in the high half,
    /// reserved low half zero.
    pub fn pack(data: &SrIovVfDeviceId) -> (r: Self)
        ensures
            r.bits == vf_device_id_dword(*data),
    {
        SrIovVfDeviceIdProto { bits: (data.vf_device_id as u32) << 16 }
    }

    /// Unpacks the layout form into the semantic form; the reserved low half
    /// is read but discarded.
    pub fn unpack(&self) -> (r: SrIovVfDeviceId)
        ensures
            r == vf_device_id_of_dword(self.bits),
    {
        SrIovVfDeviceId { vf_device_id: self.vf_device_id() }
    }
}

impl SrIovVfDeviceId {
    /// Decodes a raw 32-bit VF Device ID register; total, never fails.
    pub fn decode(dword: u32) -> (r: Self)
        ensures
            r == vf_device_id_of_dword(dword),
    {
        SrIovVfDeviceIdProto { bits: dword }.unpack()
    }

    /// Encodes back to the raw 32-bit register: the device identifier in the
    /// high half, reserved low half zero.
    pub fn encode(&self) -> (r: u32)
        ensures
            r == vf_device_id_dword(*self),
    {
        SrIovVfDeviceIdProto::pack(self).bits
    }
}

/// Round-trip law: decoding an encoded VF Device ID value gives it back, for
/// every semantic value (the identifier exactly fills its declared 16-bit
/// width).
pub proof fn lemma_vf_device_id_round_trip(d: SrIovVfDeviceId)
    ensures
        vf_device_id_of_dword(vf_device_id_dword(d)) == d,
{
    let v = d.vf_device_id;
    assert(((((v as u32) << 16) >> 16) & 0xffff) as u16 == v) by (bit_vector);
}

/// Reserved-bit zeroing: every encoded VF Device ID value has a zero reserved
/// low half.
pub proof fn lemma_vf_device_id_reserved_zero(d: SrIovVfDeviceId)
    ensures
        vf_device_id_dword(d) & 0x0000_ffff == 0,
{
    let v = d.vf_device_id;
    assert(((v as u32) << 16) & 0x0000_ffff == 0) by (bit_vector);
}

/// Field independence: flipping one bit of the raw register changes the one
/// semantic field exactly when that bit lies in the high half, and nothing
/// when it lies in the reserved low half.
pub proof fn lemma_vf_device_id_bit_independence(dword: u32, i: u32)
    requires
        i < 32,
    ensures
        ({
            let before = vf_device_id_of_dword(dword);
            let after = vf_device_id_of_dword(dword ^ (1u32 << i));
            (after.vf_device_id != before.vf_device_id) <==> i >= 16
        }),
{
    assert(((((dword ^ (1u32 << i)) >> 16) & 0xffff) as u16) != (((dword >> 16) & 0xffff) as u16)
        <==> i >= 16) by (bit_vector)
        requires
            i < 32,
    ;
}

} // verus!
