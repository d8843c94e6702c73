//! The guest memory map handed to the firmware: a header followed by entries
//! `[start, end)` of UEFI memory types.
use vstd::prelude::*;
use vstd::bytes::{spec_u32_to_le_bytes, spec_u64_to_le_bytes, u32_to_le_bytes, u64_to_le_bytes};

verus! {

/// UEFI memory types (`EFI_MEMORY_TYPE`).
#[derive(Clone, Copy, Debug, PartialEq, Eq, Structural)]
pub enum MemType {
    Reserved,
    LoaderCode,
    LoaderData,
    BootServicesCode,
    BootServicesData,
    RuntimeServicesCode,
    RuntimeServicesData,
    ConventionalMemory,
    UnusableMemory,
    ACPIReclaimMemory,
    ACPIMemoryNVS,
    MMIO,
    MMIOPortSpace,
    PalCode,
    PersistentMemory,
}

/// The number UEFI gives each memory type.
pub open spec fn mem_type_code(t: MemType) -> u32 {
    match t {
        MemType::Reserved => 0,
        MemType::LoaderCode => 1,
        MemType::LoaderData => 2,
        MemType::BootServicesCode => 3,
        MemType::BootServicesData => 4,
        MemType::RuntimeServicesCode => 5,
        MemType::RuntimeServicesData => 6,
        MemType::ConventionalMemory => 7,
        MemType::UnusableMemory => 8,
        MemType::ACPIReclaimMemory => 9,
        MemType::ACPIMemoryNVS => 10,
        MemType::MMIO => 11,
        MemType::MMIOPortSpace => 12,
        MemType::PalCode => 13,
        MemType::PersistentMemory => 14,
    }
}

impl MemType {
    pub fn code(self) -> (r: u32)
        ensures
            r == mem_type_code(self),
    {
        match self {
            MemType::Reserved => 0,
            MemType::LoaderCode => 1,
            MemType::LoaderData => 2,
            MemType::BootServicesCode => 3,
            MemType::BootServicesData => 4,
            MemType::RuntimeServicesCode => 5,
            MemType::RuntimeServicesData => 6,
            MemType::ConventionalMemory => 7,
            MemType::UnusableMemory => 8,
            MemType::ACPIReclaimMemory => 9,
            MemType::ACPIMemoryNVS => 10,
            MemType::MMIO => 11,
            MemType::MMIOPortSpace => 12,
            MemType::PalCode => 13,
            MemType::PersistentMemory => 14,
        }
    }
}

/// One entry: guest physical addresses `[start, end)` of type `mem_type`.
#[derive(Clone, Copy, Debug, PartialEq, Eq, Structural)]
pub struct MemMap {
    pub start: u64,
    pub end: u64,
    pub mem_type: u32,
}

/// An entry as bytes: start, end (little-endian 64-bit) and type (little-endian 32-bit).
pub open spec fn mem_map_entry_bytes(e: MemMap) -> Seq<u8> {
    spec_u64_to_le_bytes(e.start) + spec_u64_to_le_bytes(e.end) + spec_u32_to_le_bytes(e.mem_type)
}

impl MemMap {
    pub fn as_bytes(&self) -> (r: Vec<u8>)
        ensures
            r@ == mem_map_entry_bytes(*self),
    {
        let mut out = u64_to_le_bytes(self.start);
        out.extend_from_slice(u64_to_le_bytes(self.end).as_slice());
        out.extend_from_slice(u32_to_le_bytes(self.mem_type).as_slice());
        out
    }
}

/// The header: a magic number and the number of entries that follow.
#[derive(Clone, Copy, Debug, PartialEq, Eq, Structural)]
pub struct MemMapHeader {
    pub mgk_num: u32,
    pub length: u32,
}

/// The header as bytes: magic, then entry count (each little-endian 32-bit).
pub open spec fn mem_map_header_bytes(h: MemMapHeader) -> Seq<u8> {
    spec_u32_to_le_bytes(h.mgk_num) + spec_u32_to_le_bytes(h.length)
}

impl MemMapHeader {
    pub fn as_bytes(&self) -> (r: Vec<u8>)
        ensures
            r@ == mem_map_header_bytes(*self),
    {
        let mut out = u32_to_le_bytes(self.mgk_num);
        out.extend_from_slice(u32_to_le_bytes(self.length).as_slice());
        out
    }
}

} // verus!
