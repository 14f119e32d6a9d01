use vstd::prelude::*;

verus! {

/// Function Dependency Link register, semantic form: the 8-bit link value,
/// with the reserved high byte absent.
#[derive(Debug, Clone, PartialEq, Eq, Structural)]
pub struct SrIovFunctionDepLink {
    /// Function Dependency Link (bits 0..=7).
    pub function_dependency_link: u8,
}

/// Function Dependency Link register, layout form: the exact 16-bit on-wire
/// pattern, reserved high byte included.
#[derive(Debug, Clone, Copy, PartialEq, Eq, Structural)]
pub struct SrIovFunctionDepLinkProto {
    /// The packed register value, bit 0 least significant.
    pub bits: u16,
}

/// The 16-bit pattern that places the link value in the low byte and
/// zero-fills the reserved high byte.
pub open spec fn pack_function_dep_link(function_dependency_link: u8) -> u16 {
    function_dependency_link as u16
}

/// The semantic form that a raw 16-bit Function Dependency Link register
/// decodes to.
pub open spec fn function_dep_link_of_word(word: u16) -> SrIovFunctionDepLink {
    SrIovFunctionDepLink { function_dependency_link: (word & 0xff) as u8 }
}

/// The raw 16-bit register that a semantic Function Dependency Link value
/// encodes to.
pub open spec fn function_dep_link_word(f: SrIovFunctionDepLink) -> u16 {
    pack_function_dep_link(f.function_dependency_link)
}

impl SrIovFunctionDepLinkProto {
    /// Function Dependency Link: the low byte of the packed register.
    pub fn function_dependency_link(&self) -> (r: u8)
        ensures
            r == function_dep_link_of_word(self.bits).function_dependency_link,
    {
        (self.bits & 0xff) as u8
    }

    /// The reserved high byte, as read from the wire; callers discard it.
    pub fn rsvdp(&self) -> (r: u8)
        ensures
            r == ((self.bits >> 8) & 0xff) as u8,
    {
        ((self.bits >> 8) & 0xff) as u8
    }

    /// Packs a semantic value: the link value in the low byte, reserved high
    /// byte zero.
    pub fn pack(data: &SrIovFunctionDepLink) -> (r: Self)
        ensures
            r.bits == function_dep_link_word(*data),
    {
        SrIovFunctionDepLinkProto { bits: data.function_dependency_link as u16 }
    }

    /// Unpacks the layout form into the semantic form; the reserved high byte
    /// is read but discarded.
    pub fn unpack(&self) -> (r: SrIovFunctionDepLink)
        ensures
            r == function_dep_link_of_word(self.bits),
    {
        SrIovFunctionDepLink { function_dependency_link: self.function_dependency_link() }
    }
}

impl SrIovFunctionDepLink {
    /// Decodes a raw 16-bit Function Dependency Link register; total, never
    /// fails.
    pub fn decode(word: u16) -> (r: Self)
        ensures
            r == function_dep_link_of_word(word),
    {
        SrIovFunctionDepLinkProto { bits: word }.unpack()
    }

    /// Encodes back to the raw 16-bit register: the link value in the low
    /// byte, reserved high byte zero.
    pub fn encode(&self) -> (r: u16)
        ensures
            r == function_dep_link_word(*self),
    {
        SrIovFunctionDepLinkProto::pack(self).bits
    }
}

/// Round-trip law: decoding an encoded Function Dependency Link value gives it
/// back, for every semantic value (the link exactly fills its declared 8-bit
/// width).
pub proof fn lemma_function_dep_link_round_trip(f: SrIovFunctionDepLink)
    ensures
        function_dep_link_of_word(function_dep_link_word(f)) == f,
{
    let v = f.function_dependency_link;
    assert(((v as u16) & 0xff) as u8 == v) by (bit_vector);
}

/// Reserved-bit zeroing: every encoded Function Dependency Link value has a
/// zero reserved high byte.
pub proof fn lemma_function_dep_link_reserved_zero(f: SrIovFunctionDepLink)
    ensures
        function_dep_link_word(f) & 0xff00 == 0,
{
    let v = f.function_dependency_link;
    assert((v as u16) & 0xff00 == 0) by (bit_vector);
}

/// Field independence: flipping one bit of the raw register changes the one
/// semantic field exactly when that bit lies in the low byte, and nothing when
/// it lies in the reserved high byte.
pub proof fn lemma_function_dep_link_bit_independence(word: u16, i: u16)
    requires
        i < 16,
    ensures
        ({
            let before = function_dep_link_of_word(word);
            let after = function_dep_link_of_word(word ^ (1u16 << i));
            (after.function_dependency_link != before.function_dependency_link) <==> i < 8
        }),
{
    assert((((word ^ (1u16 << i)) & 0xff) as u8) != ((word & 0xff) as u8) <==> i < 8)
        by (bit_vector)
        requires
            i < 16,
    ;
}

} // verus!
