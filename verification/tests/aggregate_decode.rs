use sriov_cap::reader::{read_u16, read_u32, DecodeError, Endian};
use sriov_cap::sriov::{SingleRootIoVirtualization, SRIOV_SIZE};

#[test]
fn reader_u16_little_and_big_endian() {
    let bytes = [0x12u8, 0x34];
    let mut offset = 0usize;
    assert_eq!(read_u16(&bytes, &mut offset, Endian::Little), Ok(0x3412));
    assert_eq!(offset, 2);
    offset = 0;
    assert_eq!(read_u16(&bytes, &mut offset, Endian::Big), Ok(0x1234));
    assert_eq!(offset, 2);
}

#[test]
fn reader_u32_little_and_big_endian() {
    let bytes = [0x12u8, 0x34, 0x56, 0x78];
    let mut offset = 0usize;
    assert_eq!(read_u32(&bytes, &mut offset, Endian::Little), Ok(0x7856_3412));
    assert_eq!(offset, 4);
    offset = 0;
    assert_eq!(read_u32(&bytes, &mut offset, Endian::Big), Ok(0x1234_5678));
    assert_eq!(offset, 4);
}

#[test]
fn reader_fails_and_keeps_cursor_when_short() {
    let bytes = [0xAAu8, 0xBB, 0xCC];
    let mut offset = 2usize;
    assert_eq!(
        read_u16(&bytes, &mut offset, Endian::Little),
        Err(DecodeError::BufferTooShort)
    );
    assert_eq!(offset, 2);
    let mut offset = 0usize;
    assert_eq!(
        read_u32(&bytes, &mut offset, Endian::Big),
        Err(DecodeError::BufferTooShort)
    );
    assert_eq!(offset, 0);
}

/// The byte stream of the reference scenario: capability dword 0x00000002,
/// control word 0x0001, InitialVFs 4, TotalVFs 0x20, NumVFs 0x10, then
/// `08 00 04 00 AB 00 00 00 00 10 00 00 00 20 00 00`, padded with zeros to
/// the structure's 60 bytes.
fn scenario_bytes() -> Vec<u8> {
    let mut bytes = vec![
        0x02, 0x00, 0x00, 0x00, // SR-IOV Capabilities
        0x01, 0x00, // SR-IOV Control
        0x00, 0x00, // SR-IOV Status
        0x04, 0x00, // InitialVFs
        0x20, 0x00, // TotalVFs
        0x10, 0x00, // NumVFs
        0x00, 0x00, // Function Dependency Link
        0x08, 0x00, // First VF Offset
        0x04, 0x00, // VF Stride
        0xAB, 0x00, 0x00, 0x00, // VF Device ID
        0x00, 0x10, 0x00, 0x00, // Supported Page Sizes
        0x00, 0x20, 0x00, 0x00, // System Page Size
    ];
    bytes.resize(60, 0);
    bytes
}

#[test]
fn scenario_stream_decodes_in_register_order() {
    let bytes = scenario_bytes();
    let (s, consumed) =
        SingleRootIoVirtualization::try_read(&bytes, Endian::Little).unwrap();
    assert_eq!(consumed, 60);
    // Capability dword 0x00000002: bit 0 clear, bit 1 set.
    assert!(!s.sriov_capability.vf_migration);
    assert!(s.sriov_capability.ari_preserved);
    assert_eq!(s.sriov_capability.vf_mig_int, 0);
    assert!(s.sriov_control.vf_enable);
    assert!(!s.sriov_control.vf_mig_enable);
    assert!(!s.sriov_status.vf_migration);
    assert_eq!(s.sriov_initial_vfs, 4);
    assert_eq!(s.sriov_total_vfs, 0x20);
    assert_eq!(s.sriov_num_vfs, 0x10);
    // The word at the Function Dependency Link's offset 0x0E is zero; the
    // 0xAB byte lies at offset 0x14, the low (reserved) byte of the VF
    // Device ID dword, so it reaches no semantic field.
    assert_eq!(s.sriov_function_denpendency_link.function_dependency_link, 0);
    assert_eq!(s.sriov_first_vf_offset, 8);
    assert_eq!(s.sriov_vf_stride, 4);
    assert_eq!(s.sriov_vf_device_id.vf_device_id, 0);
    assert_eq!(s.sriov_supported_page_sizes, 0x0000_1000);
    assert_eq!(s.sriov_system_page_size, 0x0000_2000);
    assert_eq!(s.sriov_vf_bar.bar0, 0);
    assert_eq!(s.sriov_vf_migration_state_array_offset, 0);
}

#[test]
fn full_stream_fills_every_member() {
    let bytes: Vec<u8> = vec![
        0x03, 0x00, 0xA0, 0xB4, // capability: both flags, vf_mig_int 0x5A5
        0x1F, 0x00, // control: all five flags
        0x01, 0x00, // status: vf_migration
        0x02, 0x01, // InitialVFs 0x0102
        0x04, 0x03, // TotalVFs 0x0304
        0x06, 0x05, // NumVFs 0x0506
        0xAB, 0xCD, // Function Dependency Link 0xAB, reserved byte 0xCD
        0x08, 0x07, // First VF Offset 0x0708
        0x0A, 0x09, // VF Stride 0x090A
        0x34, 0x12, 0xEF, 0xBE, // VF Device ID 0xBEEF, reserved 0x1234
        0x44, 0x33, 0x22, 0x11, // Supported Page Sizes 0x11223344
        0x88, 0x77, 0x66, 0x55, // System Page Size 0x55667788
        0xA3, 0xA2, 0xA1, 0xA0, // VF BAR 0
        0x01, 0x00, 0x00, 0x00, // VF BAR 1
        0x02, 0x00, 0x00, 0x00, // VF BAR 2
        0x03, 0x00, 0x00, 0x00, // VF BAR 3
        0x04, 0x00, 0x00, 0x00, // VF BAR 4
        0x05, 0x00, 0x00, 0x00, // VF BAR 5
        0xEF, 0xBE, 0xAD, 0xDE, // VF Migration State Array Offset
    ];
    assert_eq!(bytes.len(), 60);
    let (s, consumed) =
        SingleRootIoVirtualization::try_read(&bytes, Endian::Little).unwrap();
    assert_eq!(consumed, SRIOV_SIZE);
    assert!(s.sriov_capability.vf_migration);
    assert!(s.sriov_capability.ari_preserved);
    assert_eq!(s.sriov_capability.vf_mig_int, 0x5A5);
    assert!(s.sriov_control.vf_enable);
    assert!(s.sriov_control.vf_mig_enable);
    assert!(s.sriov_control.vf_mig_int_enable);
    assert!(s.sriov_control.vf_mse);
    assert!(s.sriov_control.ari_capable);
    assert!(s.sriov_status.vf_migration);
    assert_eq!(s.sriov_initial_vfs, 0x0102);
    assert_eq!(s.sriov_total_vfs, 0x0304);
    assert_eq!(s.sriov_num_vfs, 0x0506);
    assert_eq!(s.sriov_function_denpendency_link.function_dependency_link, 0xAB);
    assert_eq!(s.sriov_first_vf_offset, 0x0708);
    assert_eq!(s.sriov_vf_stride, 0x090A);
    assert_eq!(s.sriov_vf_device_id.vf_device_id, 0xBEEF);
    assert_eq!(s.sriov_supported_page_sizes, 0x1122_3344);
    assert_eq!(s.sriov_system_page_size, 0x5566_7788);
    assert_eq!(s.sriov_vf_bar.bar0, 0xA0A1_A2A3);
    assert_eq!(s.sriov_vf_bar.bar1, 1);
    assert_eq!(s.sriov_vf_bar.bar2, 2);
    assert_eq!(s.sriov_vf_bar.bar3, 3);
    assert_eq!(s.sriov_vf_bar.bar4, 4);
    assert_eq!(s.sriov_vf_bar.bar5, 5);
    assert_eq!(s.sriov_vf_migration_state_array_offset, 0xDEAD_BEEF);
}

#[test]
fn big_endian_stream_reverses_each_scalar() {
    let mut bytes = vec![0u8; 60];
    bytes[3] = 0x01; // capability dword 0x00000001: vf_migration
    bytes[8] = 0x00;
    bytes[9] = 0x04; // InitialVFs 4 in big-endian
    bytes[20] = 0xBE;
    bytes[21] = 0xEF; // VF Device ID dword 0xBEEF0000: id 0xBEEF
    let (s, consumed) = SingleRootIoVirtualization::try_read(&bytes, Endian::Big).unwrap();
    assert_eq!(consumed, 60);
    assert!(s.sriov_capability.vf_migration);
    assert_eq!(s.sriov_initial_vfs, 4);
    assert_eq!(s.sriov_vf_device_id.vf_device_id, 0xBEEF);
}

#[test]
fn decode_consumes_exactly_sixty_bytes() {
    let bytes = vec![0u8; 61];
    let (_, consumed) =
        SingleRootIoVirtualization::try_read(&bytes, Endian::Little).unwrap();
    assert_eq!(consumed, 60);
}

#[test]
fn every_short_buffer_fails_whole() {
    // A 59-byte or shorter buffer fails with the buffer-too-short condition,
    // wherever the next register boundary falls.
    for len in [0usize, 1, 3, 4, 5, 13, 14, 31, 32, 55, 56, 59] {
        let bytes = vec![0u8; len];
        assert_eq!(
            SingleRootIoVirtualization::try_read(&bytes, Endian::Little),
            Err(DecodeError::BufferTooShort),
            "a {len}-byte buffer must fail whole"
        );
    }
}
