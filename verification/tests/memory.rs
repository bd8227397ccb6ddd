use julios::memory::frame_allocator::AreaFrameAllocator;
use julios::memory::frame_allocator::MemoryArea;
use julios::memory::frame_allocator::TinyAllocator;
use julios::memory::frame_allocator::MAX_AREAS;
use julios::memory::frame_allocator::PAGE_SIZE;
use julios::memory::paging::get_flags_from_elf_section;
use julios::memory::paging::multiboot_mapping;
use julios::memory::paging::vga_mapping;
use julios::memory::paging::Mapping;
use julios::memory::paging::RemapError;
use julios::memory::paging::Section;
use julios::memory::paging::ELF_SECTION_ALLOCATED;
use julios::memory::paging::ELF_SECTION_EXECUTABLE;
use julios::memory::paging::ELF_SECTION_WRITABLE;
use julios::memory::paging::PAGE_NO_EXECUTE;
use julios::memory::paging::PAGE_PRESENT;
use julios::memory::paging::PAGE_WRITABLE;

fn allocator(kernel: (u64, u64), multiboot: (u64, u64), list: &[(u64, u64)]) -> AreaFrameAllocator {
    let mut areas = [MemoryArea { base_addr: 0, length: 0 }; 32];
    for (i, (base_addr, length)) in list.iter().enumerate() {
        areas[i] = MemoryArea { base_addr: *base_addr, length: *length };
    }
    AreaFrameAllocator::new(kernel.0, kernel.1, multiboot.0, multiboot.1, areas, list.len())
}

fn drain(allocator: &mut AreaFrameAllocator) -> Vec<u64> {
    let mut frames = Vec::new();
    while let Some(frame) = allocator.allocate_frame() {
        frames.push(frame);
        assert!(frames.len() < 10_000);
    }
    assert_eq!(allocator.allocate_frame(), None);
    frames
}

#[test]
fn frames_of_one_area_lowest_first() {
    assert_eq!(PAGE_SIZE, 4096);
    assert_eq!(MAX_AREAS, 32);
    let mut a = allocator((0x10_0000, 0x10_0fff), (0x20_0000, 0x20_0fff), &[(0x3000, 0x4000)]);
    assert_eq!(a.next_free_frame(), 3);
    assert_eq!(drain(&mut a), vec![3, 4, 5, 6]);
    assert_eq!(a.next_free_frame(), 7);
}

#[test]
fn kernel_and_boot_information_are_kept_clear() {
    let mut a = allocator((0x2800, 0x3fff), (0x6000, 0x6001), &[(0x0, 0xa000)]);
    assert_eq!(drain(&mut a), vec![0, 1, 4, 5, 7, 8, 9]);
    let mut b = allocator((0x0, 0x1fff), (0x2000, 0x2fff), &[(0x0, 0x5000)]);
    assert_eq!(drain(&mut b), vec![3, 4]);
    let mut c = allocator((0x0, 0xffff_ffff), (0, 0), &[(0x0, 0x5000)]);
    assert_eq!(drain(&mut c), Vec::<u64>::new());
}

#[test]
fn areas_are_taken_by_address_whatever_their_order() {
    let far = (0x10_0000_0000, 0x10_0000_0000 + 1);
    let mut a = allocator(far, far, &[(0x9000, 0x2000), (0x1000, 0x2000), (0x5000, 0x1000)]);
    assert_eq!(drain(&mut a), vec![1, 2, 5, 9, 10]);
    let mut b = allocator(far, far, &[(0x4000, 0x4000), (0x0, 0x6000), (0x5000, 0x1)]);
    assert_eq!(drain(&mut b), vec![0, 1, 2, 3, 4, 5, 6, 7]);
    let mut c = allocator(far, far, &[(0x1800, 0x1000)]);
    assert_eq!(drain(&mut c), vec![1, 2]);
}

#[test]
fn empty_and_overlong_areas() {
    let far = (0x10_0000_0000, 0x10_0000_0000 + 1);
    let mut a = allocator(far, far, &[(0x1000, 0), (0x3000, 0x1000), (0, 0)]);
    assert_eq!(drain(&mut a), vec![3]);
    let mut none = allocator(far, far, &[]);
    assert_eq!(none.allocate_frame(), None);
    let top = u64::MAX / 4096;
    let mut end = allocator(far, far, &[(u64::MAX - 0x1fff, u64::MAX)]);
    assert_eq!(drain(&mut end), vec![top - 1, top]);
    let mut skip = allocator((0, u64::MAX), far, &[(0x1000, 0x1000)]);
    assert_eq!(skip.allocate_frame(), None);
}

#[test]
fn only_the_counted_areas_are_used() {
    let far = (0x10_0000_0000, 0x10_0000_0000 + 1);
    let areas = [MemoryArea { base_addr: 0x7000, length: 0x1000 }; 32];
    let mut two = AreaFrameAllocator::new(far.0, far.1, far.0, far.1, areas, 0);
    assert_eq!(two.allocate_frame(), None);
    let mut all = AreaFrameAllocator::new(far.0, far.1, far.0, far.1, areas, 1000);
    assert_eq!(drain(&mut all), vec![7]);
}

#[test]
fn the_tiny_allocator_holds_three_frames() {
    let far = (0x10_0000_0000, 0x10_0000_0000 + 1);
    let mut big = allocator(far, far, &[(0x0, 0x5000)]);
    let mut tiny =
        TinyAllocator::new([big.allocate_frame(), big.allocate_frame(), big.allocate_frame()]);
    assert_eq!(big.allocate_frame(), Some(3));
    assert_eq!(tiny.allocate_frame(), Some(0));
    assert_eq!(tiny.allocate_frame(), Some(1));
    assert!(tiny.deallocate_frame(9));
    assert_eq!(tiny.allocate_frame(), Some(9));
    assert_eq!(tiny.allocate_frame(), Some(2));
    assert_eq!(tiny.allocate_frame(), None);
    assert!(tiny.deallocate_frame(5));
    assert!(tiny.deallocate_frame(6));
    assert!(tiny.deallocate_frame(7));
    assert!(!tiny.deallocate_frame(8));
    assert_eq!(tiny.allocate_frame(), Some(5));
    assert!(tiny.deallocate_frame(8));
    assert_eq!(tiny.allocate_frame(), Some(8));
    assert_eq!(tiny.allocate_frame(), Some(6));
    assert_eq!(tiny.allocate_frame(), Some(7));
    let mut few = allocator(far, far, &[(0x0, 0x1000)]);
    let mut short =
        TinyAllocator::new([few.allocate_frame(), few.allocate_frame(), few.allocate_frame()]);
    assert_eq!(short.allocate_frame(), Some(0));
    assert_eq!(short.allocate_frame(), None);
    let mut given = TinyAllocator::new([None, Some(4), None]);
    assert_eq!(given.allocate_frame(), Some(4));
    assert_eq!(given.allocate_frame(), None);
}

#[test]
fn page_flags_of_sections() {
    assert_eq!((ELF_SECTION_WRITABLE, ELF_SECTION_ALLOCATED, ELF_SECTION_EXECUTABLE), (1, 2, 4));
    assert_eq!((PAGE_PRESENT, PAGE_WRITABLE, PAGE_NO_EXECUTE), (1, 2, 1 << 63));
    assert_eq!(get_flags_from_elf_section(0), 1 << 63);
    assert_eq!(get_flags_from_elf_section(2), 1 | 1 << 63);
    assert_eq!(get_flags_from_elf_section(3), 3 | 1 << 63);
    assert_eq!(get_flags_from_elf_section(6), 1);
    assert_eq!(get_flags_from_elf_section(7), 3);
    assert_eq!(get_flags_from_elf_section(4), 0);
    assert_eq!(get_flags_from_elf_section(0xfff8 | 1), 2 | 1 << 63);
}

#[test]
fn what_is_mapped_for_a_section() {
    let text = Section { addr: 0x10_0000, size: 0x2345, flags: 6 };
    assert_eq!(text.mapping(), Ok(Some(Mapping { first_frame: 0x100, last_frame: 0x102, flags: 1 })));
    let data = Section { addr: 0x20_0000, size: 0x1000, flags: 3 };
    assert_eq!(
        data.mapping(),
        Ok(Some(Mapping { first_frame: 0x200, last_frame: 0x200, flags: 3 | 1 << 63 }))
    );
    assert_eq!(Section { addr: 0x1234, size: 0x10, flags: 0 }.mapping(), Ok(None));
    assert_eq!(Section { addr: 0x1234, size: 0x10, flags: 4 }.mapping(), Ok(None));
    assert_eq!(Section { addr: 0x1234, size: 0x10, flags: 2 }.mapping(), Err(RemapError::Unaligned));
    assert_eq!(Section { addr: 0x1234, size: 0, flags: 2 }.mapping(), Err(RemapError::Unaligned));
    assert_eq!(Section { addr: 0x3000, size: 0, flags: 2 }.mapping(), Ok(None));
    let top = u64::MAX / 4096;
    assert_eq!(
        Section { addr: u64::MAX - 0xfff, size: u64::MAX, flags: 2 }.mapping(),
        Ok(Some(Mapping { first_frame: top, last_frame: top, flags: 1 | 1 << 63 }))
    );
}

#[test]
fn the_console_and_the_boot_information_stay_mapped() {
    assert_eq!(vga_mapping(), Mapping { first_frame: 0xb8, last_frame: 0xb8, flags: 3 });
    assert_eq!(multiboot_mapping(0x9500, 0xb000), Mapping { first_frame: 9, last_frame: 10, flags: 1 });
    assert_eq!(multiboot_mapping(0x9500, 0xb001), Mapping { first_frame: 9, last_frame: 11, flags: 1 });
    assert_eq!(multiboot_mapping(0, 0), Mapping { first_frame: 0, last_frame: 0, flags: 1 });
}
