//! The allocator of physical frames: it hands out, lowest first, the frames
//! of the memory areas that neither the kernel nor the boot information
//! lies in.

use vstd::prelude::*;

verus! {

/// Size in bytes of a frame.
pub const PAGE_SIZE: u64 = 4096;

/// How many memory areas an allocator keeps.
pub const MAX_AREAS: usize = 32;

/// A memory area that the boot loader reports as usable.
#[derive(Debug, Clone, Copy, PartialEq, Eq, Structural)]
pub struct MemoryArea {
    /// Address of the first byte.
    pub base_addr: u64,
    /// Number of bytes.
    pub length: u64,
}

impl MemoryArea {
    /// Whether the area holds a byte at all.
    pub open spec fn is_empty(self) -> bool {
        self.length == 0
    }

    /// The frame of the first byte.
    pub open spec fn first_frame(self) -> int {
        self.base_addr as int / 4096
    }

    /// The frame of the last byte; the last frame of memory for an area
    /// that would pass the end of memory.
    pub open spec fn last_frame(self) -> int {
        if self.base_addr + self.length - 1 > u64::MAX {
            u64::MAX as int / 4096
        } else {
            (self.base_addr + self.length - 1) / 4096
        }
    }

    /// Whether the frame `frame` holds a byte of the area.
    pub open spec fn holds(self, frame: int) -> bool {
        !self.is_empty() && self.first_frame() <= frame <= self.last_frame()
    }

    /// The frame of the first byte.
    pub fn start_frame(&self) -> (frame: u64)
        ensures
            frame == self.first_frame(),
    {
        self.base_addr / PAGE_SIZE
    }

    /// The frame of the last byte of an area that is not empty.
    pub fn end_frame(&self) -> (frame: u64)
        requires
            !self.is_empty(),
        ensures
            frame == self.last_frame(),
            frame >= self.first_frame(),
    {
        match self.base_addr.checked_add(self.length - 1) {
            Some(last) => last / PAGE_SIZE,
            None => u64::MAX / PAGE_SIZE,
        }
    }
}

/// The smaller of two numbers.
pub open spec fn min_usize(a: usize, b: usize) -> usize {
    if a <= b {
        a
    } else {
        b
    }
}

/// What a frame allocator holds.
pub struct AreaFrameAllocatorView {
    /// The lowest frame that was not looked at yet.
    pub next_free_frame: u64,
    /// The area that frames are taken from.
    pub current_area: Option<MemoryArea>,
    /// The usable memory areas.
    pub areas: Seq<MemoryArea>,
    /// First frame of the kernel.
    pub kernel_start: u64,
    /// Last frame of the kernel.
    pub kernel_end: u64,
    /// First frame of the boot information.
    pub multiboot_start: u64,
    /// Last frame of the boot information.
    pub multiboot_end: u64,
}

impl AreaFrameAllocatorView {
    /// Whether `frame` lies in a usable area.
    pub open spec fn usable(self, frame: int) -> bool {
        exists|i: int| 0 <= i < self.areas.len() && #[trigger] self.areas[i].holds(frame)
    }

    /// Whether `frame` is taken by the kernel or the boot information.
    pub open spec fn reserved(self, frame: int) -> bool {
        self.kernel_start <= frame <= self.kernel_end || self.multiboot_start <= frame
            <= self.multiboot_end
    }

    /// Whether `frame` can be handed out: it lies in a usable area and is
    /// not reserved.
    pub open spec fn free(self, frame: int) -> bool {
        self.usable(frame) && !self.reserved(frame)
    }

    /// That the current area is one of the areas and begins at or before
    /// the next frame; without a current area, no area reaches the next
    /// frame.
    pub open spec fn wf(self) -> bool {
        match self.current_area {
            Some(area) => {
                &&& !area.is_empty()
                &&& area.first_frame() <= self.next_free_frame
                &&& exists|i: int| 0 <= i < self.areas.len() && #[trigger] self.areas[i] == area
            },
            None => forall|i: int|
                0 <= i < self.areas.len() ==> !(#[trigger] self.areas[i]).is_empty()
                    ==> self.areas[i].last_frame() < self.next_free_frame,
        }
    }
}

/// The allocator of physical frames. It needs no heap: the heap is made of
/// the frames that it hands out.
pub struct AreaFrameAllocator {
    next_free_frame: u64,
    current_area: Option<MemoryArea>,
    areas: [MemoryArea; 32],
    count: usize,
    kernel_start: u64,
    kernel_end: u64,
    multiboot_start: u64,
    multiboot_end: u64,
}

impl View for AreaFrameAllocator {
    type V = AreaFrameAllocatorView;

    closed spec fn view(&self) -> AreaFrameAllocatorView {
        AreaFrameAllocatorView {
            next_free_frame: self.next_free_frame,
            current_area: self.current_area,
            areas: self.areas@.take(self.count as int),
            kernel_start: self.kernel_start,
            kernel_end: self.kernel_end,
            multiboot_start: self.multiboot_start,
            multiboot_end: self.multiboot_end,
        }
    }
}

impl AreaFrameAllocator {
    #[verifier::type_invariant]
    closed spec fn inv(&self) -> bool {
        &&& self@.wf()
        &&& self.count <= 32
        &&& self.kernel_end <= u64::MAX / 4096
        &&& self.multiboot_end <= u64::MAX / 4096
        &&& self.next_free_frame <= u64::MAX / 4096 + 1
    }

    /// An allocator for the first `count` of `memory_areas` that keeps clear
    /// of the kernel, which lies from the address `kernel_start` to
    /// `kernel_end`, and of the boot information from `multiboot_start` to
    /// `multiboot_end`.
    pub fn new(
        kernel_start: u64,
        kernel_end: u64,
        multiboot_start: u64,
        multiboot_end: u64,
        memory_areas: [MemoryArea; 32],
        count: usize,
    ) -> (allocator: AreaFrameAllocator)
        ensures
            allocator@.areas == memory_areas@.take(min_usize(count, 32) as int),
            allocator@.kernel_start == kernel_start / 4096,
            allocator@.kernel_end == kernel_end / 4096,
            allocator@.multiboot_start == multiboot_start / 4096,
            allocator@.multiboot_end == multiboot_end / 4096,
            allocator@.wf(),
            forall|frame: int| 0 <= frame < allocator@.next_free_frame ==> !allocator@.usable(frame),
    {
        let count = if count < MAX_AREAS {
            count
        } else {
            MAX_AREAS
        };
        let current_area = Self::choose_next_area(&memory_areas, count, 0);
        let next_free_frame = match current_area {
            Some(area) => area.start_frame(),
            None => 0,
        };
        proof {
            let areas = memory_areas@.take(count as int);
            let started = AreaFrameAllocatorView {
                next_free_frame,
                current_area,
                areas,
                kernel_start: (kernel_start / PAGE_SIZE) as u64,
                kernel_end: (kernel_end / PAGE_SIZE) as u64,
                multiboot_start: (multiboot_start / PAGE_SIZE) as u64,
                multiboot_end: (multiboot_end / PAGE_SIZE) as u64,
            };
            match current_area {
                Some(area) => {
                    let k = choose|k: int| 0 <= k < areas.len() && #[trigger] areas[k] == area;
                    assert(started.areas[k] == area);
                },
                None => {
                    assert forall|i: int|
                        0 <= i < started.areas.len() && !(#[trigger] started.areas[i]).is_empty()
                        implies started.areas[i].last_frame() < 0 by {
                        assert(areas[i] == started.areas[i]);
                    }
                },
            }
            assert(started.wf());
        }
        let allocator = AreaFrameAllocator {
            next_free_frame,
            current_area,
            areas: memory_areas,
            count,
            kernel_start: kernel_start / PAGE_SIZE,
            kernel_end: kernel_end / PAGE_SIZE,
            multiboot_start: multiboot_start / PAGE_SIZE,
            multiboot_end: multiboot_end / PAGE_SIZE,
        };
        assert forall|frame: int| 0 <= frame < allocator@.next_free_frame implies !allocator@.usable(
            frame,
        ) by {
            if allocator@.usable(frame) {
                let i = choose|i: int|
                    0 <= i < allocator@.areas.len() && #[trigger] allocator@.areas[i].holds(frame);
                assert(allocator@.areas[i].base_addr >= current_area.unwrap().base_addr);
            }
        }
        allocator
    }

    /// The area with the lowest base address among those of `areas` that
    /// reach the frame `next` or a later one; the first of them when several
    /// begin at the same address.
    fn choose_next_area(all: &[MemoryArea; 32], count: usize, next: u64) -> (chosen: Option<
        MemoryArea,
    >)
        requires
            count <= 32,
        ensures
            ({
                let areas = all@.take(count as int);
                match chosen {
                    Some(area) => {
                        &&& !area.is_empty()
                        &&& area.last_frame() >= next
                        &&& exists|i: int| 0 <= i < areas.len() && #[trigger] areas[i] == area
                        &&& forall|i: int|
                            0 <= i < areas.len() && !(#[trigger] areas[i]).is_empty()
                                && areas[i].last_frame() >= next ==> areas[i].base_addr
                                >= area.base_addr
                    },
                    None => forall|i: int|
                        0 <= i < areas.len() ==> !(#[trigger] areas[i]).is_empty()
                            ==> areas[i].last_frame() < next,
                }
            }),
    {
        let ghost areas = all@.take(count as int);
        let mut chosen: Option<MemoryArea> = None;
        let mut i: usize = 0;
        while i < count
            invariant
                i <= count <= 32,
                areas == all@.take(count as int),
                match chosen {
                    Some(area) => {
                        &&& !area.is_empty()
                        &&& area.last_frame() >= next
                        &&& exists|j: int| 0 <= j < i && #[trigger] areas[j] == area
                        &&& forall|j: int|
                            0 <= j < i && !(#[trigger] areas[j]).is_empty()
                                && areas[j].last_frame() >= next ==> areas[j].base_addr
                                >= area.base_addr
                    },
                    None => forall|j: int|
                        0 <= j < i ==> !(#[trigger] areas[j]).is_empty() ==> areas[j].last_frame()
                            < next,
                },
            decreases count - i,
        {
            let area = all[i];
            assert(areas[i as int] == area);
            if area.length > 0 && area.end_frame() >= next {
                let better = match chosen {
                    Some(best) => area.base_addr < best.base_addr,
                    None => true,
                };
                if better {
                    chosen = Some(area);
                }
            }
            i += 1;
        }
        chosen
    }

    /// Hands out the lowest free frame that was not looked at yet, and
    /// looks at no frame twice. `None` when no free frame is left.
    pub fn allocate_frame(&mut self) -> (frame: Option<u64>)
        ensures
            final(self)@.wf(),
            final(self)@ == (AreaFrameAllocatorView {
                next_free_frame: final(self)@.next_free_frame,
                current_area: final(self)@.current_area,
                ..old(self)@
            }),
            match frame {
                Some(f) => {
                    &&& old(self)@.next_free_frame <= f
                    &&& old(self)@.free(f as int)
                    &&& final(self)@.next_free_frame == f + 1
                    &&& forall|g: int| old(self)@.next_free_frame <= g < f ==> !old(self)@.free(g)
                },
                None => forall|g: int| old(self)@.next_free_frame <= g ==> !old(self)@.free(g),
            },
    {
        proof {
            use_type_invariant(&*self);
        }
        let mut next = self.next_free_frame;
        let mut current = self.current_area;
        let ghost view = self@;
        let mut result: Option<u64> = None;
        loop
            invariant_except_break
                forall|g: int| view.next_free_frame <= g < next ==> !view.free(g),
            invariant
                view == old(self)@,
                *self == *old(self),
                self.count <= 32,
                view.areas == self.areas@.take(self.count as int),
                view.next_free_frame <= next <= u64::MAX / 4096 + 1,
                view.kernel_end <= u64::MAX / 4096,
                view.multiboot_end <= u64::MAX / 4096,
                (AreaFrameAllocatorView { next_free_frame: next, current_area: current, ..view }).wf(),
            ensures
                (AreaFrameAllocatorView { next_free_frame: next, current_area: current, ..view }).wf(),
                next <= u64::MAX / 4096 + 1,
                *self == *old(self),
                match result {
                    Some(f) => {
                        &&& view.next_free_frame <= f
                        &&& view.free(f as int)
                        &&& next == f + 1
                        &&& forall|g: int| view.next_free_frame <= g < f ==> !view.free(g)
                    },
                    None => forall|g: int| view.next_free_frame <= g ==> !view.free(g),
                },
            decreases
                    u64::MAX / 4096 + 1 - next,
                    (match current {
                        Some(area) => if next > area.last_frame() {
                            1int
                        } else {
                            0int
                        },
                        None => 0int,
                    }),
        {
            let area = match current {
                Some(area) => area,
                None => {
                    let ghost now = AreaFrameAllocatorView {
                        next_free_frame: next,
                        current_area: current,
                        ..view
                    };
                    assert forall|g: int| view.next_free_frame <= g implies !view.free(g) by {
                        if g >= next && view.usable(g) {
                            let i = choose|i: int|
                                0 <= i < view.areas.len() && #[trigger] view.areas[i].holds(g);
                            assert(now.areas[i] == view.areas[i]);
                            assert(view.areas[i].last_frame() < next);
                        }
                    }
                    result = None;
                    break ;
                },
            };
            let frame = next;
            let ghost k = choose|k: int| 0 <= k < view.areas.len() && #[trigger] view.areas[k] == area;
            if frame > area.end_frame() {
                // The area is used up: go on with the next one.
                current = Self::choose_next_area(&self.areas, self.count, next);
                match current {
                    Some(chosen) => {
                        let first = chosen.start_frame();
                        if next < first {
                            assert forall|g: int| next <= g < first implies !view.usable(g) by {
                                if view.usable(g) {
                                    let i = choose|i: int|
                                        0 <= i < view.areas.len() && #[trigger] view.areas[i].holds(
                                            g,
                                        );
                                    assert(view.areas[i].base_addr >= chosen.base_addr);
                                }
                            }
                            next = first;
                        }
                        let ghost c = choose|c: int|
                            0 <= c < view.areas.len() && #[trigger] view.areas[c] == chosen;
                        assert((AreaFrameAllocatorView {
                            next_free_frame: next,
                            current_area: current,
                            ..view
                        }).areas[c] == chosen);
                    },
                    None => {},
                }
            } else if frame >= self.kernel_start && frame <= self.kernel_end {
                // The kernel lies here.
                next = self.kernel_end + 1;
                assert((AreaFrameAllocatorView {
                    next_free_frame: next,
                    current_area: current,
                    ..view
                }).areas[k] == area);
            } else if frame >= self.multiboot_start && frame <= self.multiboot_end {
                // The boot information lies here.
                next = self.multiboot_end + 1;
                assert((AreaFrameAllocatorView {
                    next_free_frame: next,
                    current_area: current,
                    ..view
                }).areas[k] == area);
            } else {
                next = frame + 1;
                assert(area.holds(frame as int));
                assert(view.areas[k].holds(frame as int));
                assert((AreaFrameAllocatorView {
                    next_free_frame: next,
                    current_area: current,
                    ..view
                }).areas[k] == area);
                result = Some(frame);
                break ;
            }
        }
        proof {
            let between = AreaFrameAllocatorView { next_free_frame: next, ..view };
            match view.current_area {
                Some(area) => {
                    let k = choose|k: int|
                        0 <= k < view.areas.len() && #[trigger] view.areas[k] == area;
                    assert(between.areas[k] == area);
                },
                None => {
                    assert forall|i: int|
                        0 <= i < between.areas.len() && !(#[trigger] between.areas[i]).is_empty()
                        implies between.areas[i].last_frame() < next by {
                        assert(view.areas[i] == between.areas[i]);
                    }
                },
            }
            assert(between.wf());
        }
        self.next_free_frame = next;
        self.current_area = current;
        result
    }

    /// The lowest frame that was not looked at yet.
    pub fn next_free_frame(&self) -> (frame: u64)
        ensures
            frame == self@.next_free_frame,
    {
        self.next_free_frame
    }
}

/// An allocator of at most three frames, for the page tables that a
/// temporary mapping needs.
pub struct TinyAllocator {
    frames: [Option<u64>; 3],
}

impl View for TinyAllocator {
    type V = Seq<Option<u64>>;

    closed spec fn view(&self) -> Seq<Option<u64>> {
        self.frames@
    }
}

/// The first slot of `slots` that holds a frame, or three.
pub open spec fn first_held(slots: Seq<Option<u64>>) -> int {
    if slots[0] is Some {
        0
    } else if slots[1] is Some {
        1
    } else if slots[2] is Some {
        2
    } else {
        3
    }
}

/// The first slot of `slots` that holds no frame, or three.
pub open spec fn first_empty(slots: Seq<Option<u64>>) -> int {
    if slots[0] is None {
        0
    } else if slots[1] is None {
        1
    } else if slots[2] is None {
        2
    } else {
        3
    }
}

impl TinyAllocator {
    /// An allocator with the three `frames`.
    pub fn new(frames: [Option<u64>; 3]) -> (tiny: TinyAllocator)
        ensures
            tiny@ == frames@,
            tiny@.len() == 3,
    {
        TinyAllocator { frames }
    }

    /// Hands out the frame of the first slot that holds one; `None` when
    /// all three are empty.
    pub fn allocate_frame(&mut self) -> (frame: Option<u64>)
        ensures
            final(self)@.len() == 3,
            frame == if first_held(old(self)@) < 3 {
                old(self)@[first_held(old(self)@)]
            } else {
                None
            },
            final(self)@ == if first_held(old(self)@) < 3 {
                old(self)@.update(first_held(old(self)@), None)
            } else {
                old(self)@
            },
    {
        let mut i: usize = 0;
        while i < 3
            invariant
                i <= 3,
                self@ == old(self)@,
                self@.len() == 3,
                forall|j: int| 0 <= j < i ==> self@[j] is None,
            decreases 3 - i,
        {
            if self.frames[i].is_some() {
                let frame = self.frames[i];
                self.frames[i] = None;
                return frame;
            }
            i += 1;
        }
        None
    }

    /// Takes `frame` back into the first empty slot. Returns whether there
    /// was one; a frame that finds none is not kept.
    pub fn deallocate_frame(&mut self, frame: u64) -> (kept: bool)
        ensures
            final(self)@.len() == 3,
            kept == (first_empty(old(self)@) < 3),
            final(self)@ == if kept {
                old(self)@.update(first_empty(old(self)@), Some(frame))
            } else {
                old(self)@
            },
    {
        let mut i: usize = 0;
        while i < 3
            invariant
                i <= 3,
                self@ == old(self)@,
                self@.len() == 3,
                forall|j: int| 0 <= j < i ==> self@[j] is Some,
            decreases 3 - i,
        {
            if self.frames[i].is_none() {
                self.frames[i] = Some(frame);
                return true;
            }
            i += 1;
        }
        false
    }
}

} // verus!
