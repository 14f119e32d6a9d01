use vstd::prelude::*;

verus! {

/// Byte order under which a multi-byte register scalar is read.
#[derive(Debug, Clone, Copy, PartialEq, Eq, Structural)]
pub enum Endian {
    Little,
    Big,
}

/// The sole failure of this crate: the buffer holds fewer bytes than the next
/// fixed-width field needs.
#[derive(Debug, Clone, Copy, PartialEq, Eq, Structural)]
pub enum DecodeError {
    BufferTooShort,
}

/// The 16-bit scalar that two consecutive bytes of `bytes` at `off` encode
/// under byte order `endian`.
pub open spec fn u16_at(bytes: Seq<u8>, off: int, endian: Endian) -> u16 {
    match endian {
        Endian::Little => (bytes[off] as u16) | ((bytes[off + 1] as u16) << 8),
        Endian::Big => ((bytes[off] as u16) << 8) | (bytes[off + 1] as u16),
    }
}

/// The 32-bit scalar that four consecutive bytes of `bytes` at `off` encode
/// under byte order `endian`.
pub open spec fn u32_at(bytes: Seq<u8>, off: int, endian: Endian) -> u32 {
    match endian {
        Endian::Little => (bytes[off] as u32) | ((bytes[off + 1] as u32) << 8) | ((bytes[off + 2]
            as u32) << 16) | ((bytes[off + 3] as u32) << 24),
        Endian::Big => ((bytes[off] as u32) << 24) | ((bytes[off + 1] as u32) << 16) | ((bytes[off
            + 2] as u32) << 8) | (bytes[off + 3] as u32),
    }
}

/// Consumes exactly two bytes of `bytes` at the cursor `*offset` and advances
/// the cursor; fails, leaving the cursor in place, exactly when fewer than two
/// bytes remain.
pub fn read_u16(bytes: &[u8], offset: &mut usize, endian: Endian) -> (r: Result<u16, DecodeError>)
    ensures
        *old(offset) + 2 <= bytes@.len() ==> {
            &&& r matches Ok(v) && v == u16_at(bytes@, *old(offset) as int, endian)
            &&& *final(offset) == *old(offset) + 2
        },
        *old(offset) + 2 > bytes@.len() ==> {
            &&& r matches Err(e) && e == DecodeError::BufferTooShort
            &&& *final(offset) == *old(offset)
        },
{
    if bytes.len() < 2 || *offset > bytes.len() - 2 {
        return Err(DecodeError::BufferTooShort);
    }
    let b0 = bytes[*offset];
    let b1 = bytes[*offset + 1];
    let v: u16 = match endian {
        Endian::Little => (b0 as u16) | ((b1 as u16) << 8),
        Endian::Big => ((b0 as u16) << 8) | (b1 as u16),
    };
    *offset = *offset + 2;
    Ok(v)
}

/// Consumes exactly four bytes of `bytes` at the cursor `*offset` and advances
/// the cursor; fails, leaving the cursor in place, exactly when fewer than four
/// bytes remain.
pub fn read_u32(bytes: &[u8], offset: &mut usize, endian: Endian) -> (r: Result<u32, DecodeError>)
    ensures
        *old(offset) + 4 <= bytes@.len() ==> {
            &&& r matches Ok(v) && v == u32_at(bytes@, *old(offset) as int, endian)
            &&& *final(offset) == *old(offset) + 4
        },
        *old(offset) + 4 > bytes@.len() ==> {
            &&& r matches Err(e) && e == DecodeError::BufferTooShort
            &&& *final(offset) == *old(offset)
        },
{
    if bytes.len() < 4 || *offset > bytes.len() - 4 {
        return Err(DecodeError::BufferTooShort);
    }
    let b0 = bytes[*offset];
    let b1 = bytes[*offset + 1];
    let b2 = bytes[*offset + 2];
    let b3 = bytes[*offset + 3];
    let v: u32 = match endian {
        Endian::Little => (b0 as u32) | ((b1 as u32) << 8) | ((b2 as u32) << 16) | ((b3
            as u32) << 24),
        Endian::Big => ((b0 as u32) << 24) | ((b1 as u32) << 16) | ((b2 as u32) << 8) | (b3
            as u32),
    };
    *offset = *offset + 4;
    Ok(v)
}

} // verus!
