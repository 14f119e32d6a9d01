//! Decoder and encoder for the PCI Express Single Root I/O Virtualization
//! (SR-IOV) extended capability register block.
//!
//! Each hardware register exists in two forms: a packed layout form (the exact
//! on-wire bit pattern, reserved spans included) and a semantic form (only the
//! meaningful fields, typed as `bool` or a minimal-width unsigned integer).
//! Conversion between the two is pure and proved loss-free for every semantic
//! value whose fields fit their declared bit widths; reserved spans always
//! encode as zero. The aggregate structure decodes as one strict left-to-right
//! pass over a byte buffer, consuming exactly 60 bytes or failing whole.

/// Sequential byte readers for fixed-width register scalars.
pub mod reader;

/// The 32-bit SR-IOV Capabilities register.
pub mod capability;

/// The 16-bit SR-IOV Control register.
pub mod control;

/// The 16-bit SR-IOV Status register.
pub mod status;

/// The 16-bit Function Dependency Link register.
pub mod function_dep_link;

/// The 32-bit VF Device ID register.
pub mod vf_device_id;

/// The full SR-IOV extended capability structure.
pub mod sriov;
