use vstd::prelude::*;
use crate::capability::SrIovCapability;
use crate::capability::capability_of_dword;
use crate::control::SrIovControl;
use crate::control::control_of_word;
use crate::function_dep_link::SrIovFunctionDepLink;
use crate::function_dep_link::function_dep_link_of_word;
use crate::reader::DecodeError;
use crate::reader::Endian;
use crate::reader::read_u16;
use crate::reader::read_u32;
use crate::reader::u16_at;
use crate::reader::u32_at;
use crate::status::SrIovStatus;
use crate::status::status_of_word;
use crate::vf_device_id::SrIovVfDeviceId;
use crate::vf_device_id::vf_device_id_of_dword;

verus! {

/// Total fixed width of the SR-IOV extended capability structure, in bytes.
pub const SRIOV_SIZE: usize = 60;

/// The six 32-bit VF Base Address Registers at offsets 0x20..=0x37. Their
/// inner layout belongs to the base-address-register collaborator; this core
/// carries each as the raw dword it read at the shared cursor.
#[derive(Debug, Clone, PartialEq, Eq, Structural)]
pub struct BaseAddressesNormal {
    /// VF BAR 0 (offset 0x20).
    pub bar0: u32,
    /// VF BAR 1 (offset 0x24).
    pub bar1: u32,
    /// VF BAR 2 (offset 0x28).
    pub bar2: u32,
    /// VF BAR 3 (offset 0x2C).
    pub bar3: u32,
    /// VF BAR 4 (offset 0x30).
    pub bar4: u32,
    /// VF BAR 5 (offset 0x34).
    pub bar5: u32,
}

/// The full SR-IOV extended capability structure: one member per hardware
/// register, in the specification's offset order.
#[derive(Debug, Clone, PartialEq, Eq, Structural)]
pub struct SingleRootIoVirtualization {
    /// SR-IOV Capabilities (offset 0x00).
    pub sriov_capability: SrIovCapability,
    /// SR-IOV Control (offset 0x04).
    pub sriov_control: SrIovControl,
    /// SR-IOV Status (offset 0x06).
    pub sriov_status: SrIovStatus,
    /// InitialVFs (offset 0x08).
    pub sriov_initial_vfs: u16,
    /// TotalVFs (offset 0x0A).
    pub sriov_total_vfs: u16,
    /// NumVFs (offset 0x0C).
    pub sriov_num_vfs: u16,
    /// Function Dependency Link (offset 0x0E).
    pub sriov_function_denpendency_link: SrIovFunctionDepLink,
    /// First VF Offset (offset 0x10).
    pub sriov_first_vf_offset: u16,
    /// VF Stride (offset 0x12).
    pub sriov_vf_stride: u16,
    /// VF Device ID (offset 0x14).
    pub sriov_vf_device_id: SrIovVfDeviceId,
    /// Supported Page Sizes (offset 0x18).
    pub sriov_supported_page_sizes: u32,
    /// System Page Size (offset 0x1C).
    pub sriov_system_page_size: u32,
    /// VF BAR 0 through VF BAR 5 (offsets 0x20..=0x37).
    pub sriov_vf_bar: BaseAddressesNormal,
    /// VF Migration State Array Offset (offset 0x38), carried as the raw
    /// dword; its inner layout belongs to the interrupt-table collaborator.
    pub sriov_vf_migration_state_array_offset: u32,
}

/// The structure that the first `SRIOV_SIZE` bytes of `bytes` decode to under
/// byte order `endian`: each register taken at its fixed offset, in the
/// specification's order.
pub open spec fn sriov_of_bytes(bytes: Seq<u8>, endian: Endian) -> SingleRootIoVirtualization {
    SingleRootIoVirtualization {
        sriov_capability: capability_of_dword(u32_at(bytes, 0, endian)),
        sriov_control: control_of_word(u16_at(bytes, 4, endian)),
        sriov_status: status_of_word(u16_at(bytes, 6, endian)),
        sriov_initial_vfs: u16_at(bytes, 8, endian),
        sriov_total_vfs: u16_at(bytes, 10, endian),
        sriov_num_vfs: u16_at(bytes, 12, endian),
        sriov_function_denpendency_link: function_dep_link_of_word(u16_at(bytes, 14, endian)),
        sriov_first_vf_offset: u16_at(bytes, 16, endian),
        sriov_vf_stride: u16_at(bytes, 18, endian),
        sriov_vf_device_id: vf_device_id_of_dword(u32_at(bytes, 20, endian)),
        sriov_supported_page_sizes: u32_at(bytes, 24, endian),
        sriov_system_page_size: u32_at(bytes, 28, endian),
        sriov_vf_bar: BaseAddressesNormal {
            bar0: u32_at(bytes, 32, endian),
            bar1: u32_at(bytes, 36, endian),
            bar2: u32_at(bytes, 40, endian),
            bar3: u32_at(bytes, 44, endian),
            bar4: u32_at(bytes, 48, endian),
            bar5: u32_at(bytes, 52, endian),
        },
        sriov_vf_migration_state_array_offset: u32_at(bytes, 56, endian),
    }
}

impl SingleRootIoVirtualization {
    /// Decodes the capability structure from the start of `bytes`, reading
    /// each register in offset order against one forward-only cursor, and
    /// returns it with the count of bytes consumed, always `SRIOV_SIZE`.
    /// Succeeds exactly when `SRIOV_SIZE` bytes are available; a shorter
    /// buffer is a hard failure, surfaced as soon as a register read crosses
    /// the end, and no partial structure is returned.
    pub fn try_read(bytes: &[u8], endian: Endian) -> (r: Result<
        (SingleRootIoVirtualization, usize),
        DecodeError,
    >)
        ensures
            bytes@.len() >= SRIOV_SIZE ==> {
                &&& r matches Ok(p)
                &&& p.0 == sriov_of_bytes(bytes@, endian)
                &&& p.1 == SRIOV_SIZE
            },
            bytes@.len() < SRIOV_SIZE ==> (r matches Err(e) && e == DecodeError::BufferTooShort),
    {
        let mut offset: usize = 0;
        let capability_raw = match read_u32(bytes, &mut offset, endian) {
            Ok(v) => v,
            Err(e) => { return Err(e); },
        };
        let control_raw = match read_u16(bytes, &mut offset, endian) {
            Ok(v) => v,
            Err(e) => { return Err(e); },
        };
        let status_raw = match read_u16(bytes, &mut offset, endian) {
            Ok(v) => v,
            Err(e) => { return Err(e); },
        };
        let initial_vfs = match read_u16(bytes, &mut offset, endian) {
            Ok(v) => v,
            Err(e) => { return Err(e); },
        };
        let total_vfs = match read_u16(bytes, &mut offset, endian) {
            Ok(v) => v,
            Err(e) => { return Err(e); },
        };
        let num_vfs = match read_u16(bytes, &mut offset, endian) {
            Ok(v) => v,
            Err(e) => { return Err(e); },
        };
        let function_dep_link_raw = match read_u16(bytes, &mut offset, endian) {
            Ok(v) => v,
            Err(e) => { return Err(e); },
        };
        let first_vf_offset = match read_u16(bytes, &mut offset, endian) {
            Ok(v) => v,
            Err(e) => { return Err(e); },
        };
        let vf_stride = match read_u16(bytes, &mut offset, endian) {
            Ok(v) => v,
            Err(e) => { return Err(e); },
        };
        let vf_device_id_raw = match read_u32(bytes, &mut offset, endian) {
            Ok(v) => v,
            Err(e) => { return Err(e); },
        };
        let supported_page_sizes = match read_u32(bytes, &mut offset, endian) {
            Ok(v) => v,
            Err(e) => { return Err(e); },
        };
        let system_page_size = match read_u32(bytes, &mut offset, endian) {
            Ok(v) => v,
            Err(e) => { return Err(e); },
        };
        let bar0 = match read_u32(bytes, &mut offset, endian) {
            Ok(v) => v,
            Err(e) => { return Err(e); },
        };
        let bar1 = match read_u32(bytes, &mut offset, endian) {
            Ok(v) => v,
            Err(e) => { return Err(e); },
        };
        let bar2 = match read_u32(bytes, &mut offset, endian) {
            Ok(v) => v,
            Err(e) => { return Err(e); },
        };
        let bar3 = match read_u32(bytes, &mut offset, endian) {
            Ok(v) => v,
            Err(e) => { return Err(e); },
        };
        let bar4 = match read_u32(bytes, &mut offset, endian) {
            Ok(v) => v,
            Err(e) => { return Err(e); },
        };
        let bar5 = match read_u32(bytes, &mut offset, endian) {
            Ok(v) => v,
            Err(e) => { return Err(e); },
        };
        let migration_state_array_offset = match read_u32(bytes, &mut offset, endian) {
            Ok(v) => v,
            Err(e) => { return Err(e); },
        };
        let decoded = SingleRootIoVirtualization {
            sriov_capability: SrIovCapability::decode(capability_raw),
            sriov_control: SrIovControl::decode(control_raw),
            sriov_status: SrIovStatus::decode(status_raw),
            sriov_initial_vfs: initial_vfs,
            sriov_total_vfs: total_vfs,
            sriov_num_vfs: num_vfs,
            sriov_function_denpendency_link: SrIovFunctionDepLink::decode(function_dep_link_raw),
            sriov_first_vf_offset: first_vf_offset,
            sriov_vf_stride: vf_stride,
            sriov_vf_device_id: SrIovVfDeviceId::decode(vf_device_id_raw),
            sriov_supported_page_sizes: supported_page_sizes,
            sriov_system_page_size: system_page_size,
            sriov_vf_bar: BaseAddressesNormal { bar0, bar1, bar2, bar3, bar4, bar5 },
            sriov_vf_migration_state_array_offset: migration_state_array_offset,
        };
        Ok((decoded, offset))
    }
}

} // verus!
