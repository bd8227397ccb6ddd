//! The rights of a page, from the flags of the ELF section that it holds.

use vstd::prelude::*;

verus! {

/// ELF section flag: the section can be written.
pub const ELF_SECTION_WRITABLE: u64 = 0x1;

/// ELF section flag: the section is loaded to memory.
pub const ELF_SECTION_ALLOCATED: u64 = 0x2;

/// ELF section flag: the section holds code.
pub const ELF_SECTION_EXECUTABLE: u64 = 0x4;

/// Page table flag: the page is mapped.
pub const PAGE_PRESENT: u64 = 0x1;

/// Page table flag: the page can be written.
pub const PAGE_WRITABLE: u64 = 0x2;

/// Page table flag: no code runs from the page.
pub const PAGE_NO_EXECUTE: u64 = 0x8000_0000_0000_0000;

/// The page table flags for a section with the ELF flags `section`: present
/// if allocated, writable if writable, not executable unless executable.
pub open spec fn spec_page_flags(section: u64) -> u64 {
    (if section & ELF_SECTION_ALLOCATED != 0 {
        PAGE_PRESENT
    } else {
        0
    }) | (if section & ELF_SECTION_WRITABLE != 0 {
        PAGE_WRITABLE
    } else {
        0
    }) | (if section & ELF_SECTION_EXECUTABLE == 0 {
        PAGE_NO_EXECUTE
    } else {
        0
    })
}

/// The page table flags for a section with the ELF flags `section`.
pub fn get_flags_from_elf_section(section: u64) -> (flags: u64)
    ensures
        flags == spec_page_flags(section),
{
    let present: u64 = if section & ELF_SECTION_ALLOCATED != 0 {
        PAGE_PRESENT
    } else {
        0
    };
    let writable: u64 = if section & ELF_SECTION_WRITABLE != 0 {
        PAGE_WRITABLE
    } else {
        0
    };
    let no_execute: u64 = if section & ELF_SECTION_EXECUTABLE == 0 {
        PAGE_NO_EXECUTE
    } else {
        0
    };
    present | writable | no_execute
}

/// Address of the VGA text buffer, which the kernel keeps mapped.
pub const VGA_BUFFER_ADDRESS: u64 = 0xb8000;

/// A section of the kernel image as the boot loader reports it.
#[derive(Debug, Clone, Copy, PartialEq, Eq, Structural)]
pub struct Section {
    /// Address of the first byte.
    pub addr: u64,
    /// Number of bytes.
    pub size: u64,
    /// ELF section flags.
    pub flags: u64,
}

/// A run of frames to map onto themselves with the same flags.
#[derive(Debug, Clone, Copy, PartialEq, Eq, Structural)]
pub struct Mapping {
    /// The first frame.
    pub first_frame: u64,
    /// The last frame.
    pub last_frame: u64,
    /// Page table flags.
    pub flags: u64,
}

/// Why the kernel cannot be mapped anew.
#[derive(Debug, Clone, Copy, PartialEq, Eq, Structural)]
pub enum RemapError {
    /// A loaded section does not begin at a page boundary.
    Unaligned,
}

impl Section {
    /// Whether the section is loaded to memory.
    pub open spec fn is_allocated(self) -> bool {
        self.flags & ELF_SECTION_ALLOCATED != 0
    }

    /// The frames of the section with the flags that the section asks for.
    /// A section that would pass the end of memory ends there.
    pub open spec fn frames(self) -> Mapping {
        Mapping {
            first_frame: self.addr / 4096,
            last_frame: if self.addr + self.size - 1 > u64::MAX {
                u64::MAX / 4096
            } else {
                ((self.addr + self.size - 1) / 4096) as u64
            },
            flags: spec_page_flags(self.flags),
        }
    }

    /// What the new page table of the kernel maps for the section, each
    /// frame onto itself: nothing for a section that is not loaded or is
    /// empty, the frames of any other. A loaded section must begin at a page
    /// boundary.
    pub open spec fn spec_mapping(self) -> Result<Option<Mapping>, RemapError> {
        if !self.is_allocated() {
            Ok(None)
        } else if self.addr % 4096 != 0 {
            Err(RemapError::Unaligned)
        } else if self.size == 0 {
            Ok(None)
        } else {
            Ok(Some(self.frames()))
        }
    }

    /// What the new page table of the kernel maps for the section.
    pub fn mapping(&self) -> (r: Result<Option<Mapping>, RemapError>)
        ensures
            r == self.spec_mapping(),
    {
        if self.flags & ELF_SECTION_ALLOCATED == 0 {
            return Ok(None);
        }
        if self.addr % 4096 != 0 {
            return Err(RemapError::Unaligned);
        }
        if self.size == 0 {
            return Ok(None);
        }
        let last = match self.addr.checked_add(self.size - 1) {
            Some(last) => last / 4096,
            None => u64::MAX / 4096,
        };
        Ok(
            Some(
                Mapping {
                    first_frame: self.addr / 4096,
                    last_frame: last,
                    flags: get_flags_from_elf_section(self.flags),
                },
            ),
        )
    }
}

/// The frame of the VGA text buffer, present and writable.
pub open spec fn spec_vga_mapping() -> Mapping {
    Mapping {
        first_frame: VGA_BUFFER_ADDRESS / 4096,
        last_frame: VGA_BUFFER_ADDRESS / 4096,
        flags: PAGE_PRESENT | PAGE_WRITABLE,
    }
}

/// The frame of the VGA text buffer, present and writable.
pub fn vga_mapping() -> (mapping: Mapping)
    ensures
        mapping == spec_vga_mapping(),
{
    Mapping {
        first_frame: VGA_BUFFER_ADDRESS / 4096,
        last_frame: VGA_BUFFER_ADDRESS / 4096,
        flags: PAGE_PRESENT | PAGE_WRITABLE,
    }
}

/// The frames of the boot information, which lies from `start` to before
/// `end`, present and no more.
pub open spec fn spec_multiboot_mapping(start: u64, end: u64) -> Mapping {
    Mapping {
        first_frame: start / 4096,
        last_frame: if end == 0 {
            0
        } else {
            ((end - 1) / 4096) as u64
        },
        flags: PAGE_PRESENT,
    }
}

/// The frames of the boot information, present and no more.
pub fn multiboot_mapping(start: u64, end: u64) -> (mapping: Mapping)
    ensures
        mapping == spec_multiboot_mapping(start, end),
{
    let last = if end == 0 {
        0
    } else {
        (end - 1) / 4096
    };
    Mapping { first_frame: start / 4096, last_frame: last, flags: PAGE_PRESENT }
}

} // verus!
