//! COFF characteristics modelled as explicit bit sets.
//!
//! A flag set is reconstructed losslessly from the raw integer carried by the
//! file or section header and can be rendered back to it; an integer with a
//! bit outside the named set is rejected, so absence of a flag set stays
//! distinguishable from an empty one.

use vstd::prelude::*;

verus! {

/// Relocation info stripped from the file.
pub const FILE_RELOCS_STRIPPED: u16 = 0x0001;
/// The image is valid and can be run.
pub const FILE_EXECUTABLE_IMAGE: u16 = 0x0002;
/// COFF line numbers were removed (deprecated, should be zero).
pub const FILE_LINE_NUMS_STRIPPED: u16 = 0x0004;
/// COFF local symbol table entries were removed (deprecated, should be zero).
pub const FILE_LOCAL_SYMS_STRIPPED: u16 = 0x0008;
/// Obsolete: aggressively trim the working set.
pub const FILE_AGGRESSIVE_WS_TRIM: u16 = 0x0010;
/// The application can handle addresses beyond 2 GB.
pub const FILE_LARGE_ADDRESS_AWARE: u16 = 0x0020;
/// Reserved for future use.
pub const FILE_RESERVED: u16 = 0x0040;
/// Little endian byte order (deprecated, should be zero).
pub const FILE_BYTES_REVERSED_LO: u16 = 0x0080;
/// The machine uses 32-bit words.
pub const FILE_IS32BIT_MACHINE: u16 = 0x0100;
/// Debugging information was removed from the image.
pub const FILE_DEBUG_STRIPPED: u16 = 0x0200;
/// Copy to the swap file when run from removable media.
pub const FILE_REMOVABLE_RUN_FROM_SWAP: u16 = 0x0400;
/// Copy to the swap file when run from network media.
pub const FILE_NET_RUN_FROM_SWAP: u16 = 0x0800;
/// The file is a system file, not a user program.
pub const FILE_SYSTEM: u16 = 0x1000;
/// The file is a dynamic-link library.
pub const FILE_DLL: u16 = 0x2000;
/// Run only on a uniprocessor machine.
pub const FILE_UP_SYSTEM_ONLY: u16 = 0x4000;
/// Big endian byte order (deprecated, should be zero).
pub const FILE_BYTES_REVERSED_HI: u16 = 0x8000;

/// Every file-characteristics bit above, combined: the whole 16-bit word.
pub const FILE_FLAG_BITS: u16 = 0xffff;

/// The section should not be padded to the next boundary (object files only).
pub const SCN_TYPE_NO_PAD: u32 = 0x0000_0008;
/// The section contains executable code.
pub const SCN_CNT_CODE: u32 = 0x0000_0020;
/// The section contains initialized data.
pub const SCN_CNT_INITIALIZED_DATA: u32 = 0x0000_0040;
/// The section contains uninitialized data.
pub const SCN_CNT_UNINITIALIZED_DATA: u32 = 0x0000_0080;
/// Reserved for future use.
pub const SCN_LNK_OTHER: u32 = 0x0000_0100;
/// The section contains comments or other information (object files only).
pub const SCN_LNK_INFO: u32 = 0x0000_0200;
/// The section will not become part of the image (object files only).
pub const SCN_LNK_REMOVE: u32 = 0x0000_0800;
/// The section contains COMDAT data (object files only).
pub const SCN_LNK_COMDAT: u32 = 0x0000_1000;
/// The section contains data referenced through the global pointer.
pub const SCN_GPREL: u32 = 0x0000_8000;
/// Reserved for future use.
pub const SCN_MEM_PURGEABLE: u32 = 0x0002_0000;
/// Reserved for future use.
pub const SCN_MEM_LOCKED: u32 = 0x0004_0000;
/// Reserved for future use.
pub const SCN_MEM_PRELOAD: u32 = 0x0008_0000;
/// Alignment field of the section (object files only), a four-bit encoding
/// ranging from 1-byte to 8192-byte alignment.
pub const SCN_ALIGN_BITS: u32 = 0x00f0_0000;
/// The section contains extended relocations.
pub const SCN_LNK_NRELOC_OVFL: u32 = 0x0100_0000;
/// The section can be discarded as needed.
pub const SCN_MEM_DISCARDABLE: u32 = 0x0200_0000;
/// The section cannot be cached.
pub const SCN_MEM_NOT_CACHED: u32 = 0x0400_0000;
/// The section is not pageable.
pub const SCN_MEM_NOT_PAGED: u32 = 0x0800_0000;
/// The section can be shared in memory.
pub const SCN_MEM_SHARED: u32 = 0x1000_0000;
/// The section can be executed as code.
pub const SCN_MEM_EXECUTE: u32 = 0x2000_0000;
/// The section can be read.
pub const SCN_MEM_READ: u32 = 0x4000_0000;
/// The section can be written to.
pub const SCN_MEM_WRITE: u32 = 0x8000_0000;

/// Every named section-characteristics bit, the four reserved low bits and
/// the alignment field included.
pub const SCN_FLAG_BITS: u32 = 0xfffe_9fff;

/// The COFF file-characteristics word, as a named bit set.
#[derive(Clone, Copy, Debug, PartialEq, Eq, Structural)]
pub struct CoffFileFlags {
    pub bits: u16,
}

/// What `CoffFileFlags::from_bits` accepts and returns.
pub open spec fn spec_file_flags_from_bits(bits: u16) -> Option<CoffFileFlags> {
    if bits & !FILE_FLAG_BITS == 0 {
        Some(CoffFileFlags { bits })
    } else {
        None
    }
}

impl CoffFileFlags {
    /// Reconstruct the flag set from the raw characteristics word.
    ///
    /// Every bit of the word is a named file characteristic, so
    /// reconstruction never fails; the result renders back to the same word.
    pub fn from_bits(bits: u16) -> (r: Option<Self>)
        ensures
            r == spec_file_flags_from_bits(bits),
            r == Some(CoffFileFlags { bits }),
    {
        proof {
            assert(bits & !FILE_FLAG_BITS == 0) by (bit_vector);
        }
        if bits & !FILE_FLAG_BITS == 0 {
            Some(CoffFileFlags { bits })
        } else {
            None
        }
    }

    /// The raw characteristics word the set was built from.
    pub fn to_bits(&self) -> (r: u16)
        ensures
            r == self.bits,
    {
        self.bits
    }

    /// Whether every bit of `mask` is set.
    pub fn contains(&self, mask: u16) -> (r: bool)
        ensures
            r == (self.bits & mask == mask),
    {
        self.bits & mask == mask
    }
}

/// The COFF section-characteristics word, as a named bit set.
#[derive(Clone, Copy, Debug, PartialEq, Eq, Structural)]
pub struct CoffSectionFlags {
    pub bits: u32,
}

/// What `CoffSectionFlags::from_bits` accepts and returns: words with a bit
/// outside the named set are rejected.
pub open spec fn spec_section_flags_from_bits(bits: u32) -> Option<CoffSectionFlags> {
    if bits & !SCN_FLAG_BITS == 0 {
        Some(CoffSectionFlags { bits })
    } else {
        None
    }
}

impl CoffSectionFlags {
    /// Reconstruct the flag set from the raw characteristics word, or reject
    /// a word holding an unnamed bit.
    ///
    /// On success the result renders back to the same word.
    pub fn from_bits(bits: u32) -> (r: Option<Self>)
        ensures
            r == spec_section_flags_from_bits(bits),
            r matches Some(f) ==> f.bits == bits,
            r is Some <==> bits & !SCN_FLAG_BITS == 0,
    {
        if bits & !SCN_FLAG_BITS == 0 {
            Some(CoffSectionFlags { bits })
        } else {
            None
        }
    }

    /// The raw characteristics word the set was built from.
    pub fn to_bits(&self) -> (r: u32)
        ensures
            r == self.bits,
    {
        self.bits
    }

    /// Whether every bit of `mask` is set.
    pub fn contains(&self, mask: u32) -> (r: bool)
        ensures
            r == (self.bits & mask == mask),
    {
        self.bits & mask == mask
    }
}

} // verus!
