//! The image relocator: moves the application image up to the next large-page
//! boundary.
//!
//! [`move_kernel`] plans the move. The caller installs the staging mapping,
//! lets [`copy_image`] move the bytes inside the window that this mapping
//! opens, and then installs the final mapping.

use vstd::prelude::*;
use crate::align::{align_up, lemma_align_enclose, spec_align_up};
use crate::error::BootError;
use crate::paging::{
    lemma_resolve_after_request, resolve, MappingRequest, PageFlags, PageSize, BASE_PAGE_SIZE,
    LARGE_PAGE_SIZE,
};

verus! {

/// How the application image is moved.
#[derive(Clone, Copy, Debug, PartialEq, Eq, Structural)]
pub struct RelocationPlan {
    /// Where the image lies in physical memory before the move.
    pub original_physical_address: usize,
    /// Where the image expects to be mapped.
    pub original_virtual_address: usize,
    /// Bytes of the image that must survive the move.
    pub file_size: usize,
    /// Where the image lies in physical memory after the move.
    pub new_physical_address: usize,
    /// Distance of the move in bytes.
    pub displacement: usize,
    /// Bytes of the window in which the copy works: the image before the move
    /// and after it.
    pub window_size: usize,
    /// Writable mapping of the window onto the original location, to be
    /// installed before the copy.
    pub staging_mapping: MappingRequest,
    /// Writable mapping of the image onto its new location, to be installed
    /// after the copy.
    pub final_mapping: MappingRequest,
}

impl RelocationPlan {
    /// The plan moves the image up to a large-page boundary, by less than one
    /// large page, and its window ends inside the address space.
    pub open spec fn wf(self) -> bool {
        &&& self.new_physical_address == spec_align_up(
            self.original_physical_address as int,
            LARGE_PAGE_SIZE as int,
        )
        &&& self.new_physical_address % LARGE_PAGE_SIZE == 0
        &&& self.displacement == self.new_physical_address - self.original_physical_address
        &&& self.displacement < LARGE_PAGE_SIZE
        &&& self.window_size == self.file_size + self.displacement
        &&& self.original_virtual_address + self.window_size <= usize::MAX
        &&& self.staging_mapping == (MappingRequest {
            page_size: PageSize::Base,
            virtual_address: self.original_virtual_address,
            physical_address: self.original_physical_address,
            page_count: (self.window_size / BASE_PAGE_SIZE) as usize,
            flags: PageFlags::Writable,
        })
        &&& self.final_mapping == (MappingRequest {
            page_size: PageSize::Base,
            virtual_address: self.original_virtual_address,
            physical_address: self.new_physical_address,
            page_count: (self.file_size / BASE_PAGE_SIZE) as usize,
            flags: PageFlags::Writable,
        })
    }
}

/// Whether a move can be planned: the new location, the window's size and the
/// window's end must all be addresses.
pub open spec fn relocatable(physical_address: usize, virtual_address: usize, file_size: usize) -> bool {
    let new_physical_address = spec_align_up(physical_address as int, LARGE_PAGE_SIZE as int);
    &&& new_physical_address <= usize::MAX
    &&& virtual_address + file_size + (new_physical_address - physical_address) <= usize::MAX
}

/// Plans the move of the image of `file_size` bytes that lies at
/// `physical_address` and is mapped at `virtual_address`.
pub fn move_kernel(physical_address: usize, virtual_address: usize, file_size: usize) -> (plan:
    Result<RelocationPlan, BootError>)
    ensures
        !relocatable(physical_address, virtual_address, file_size) ==> plan == Err::<
            RelocationPlan,
            BootError,
        >(BootError::AddressOverflow),
        relocatable(physical_address, virtual_address, file_size) ==> {
            &&& plan matches Ok(plan)
            &&& plan.wf()
            &&& plan.original_physical_address == physical_address
            &&& plan.original_virtual_address == virtual_address
            &&& plan.file_size == file_size
        },
{
    proof {
        lemma_align_enclose(physical_address as int, LARGE_PAGE_SIZE as int);
    }
    let new_physical_address: usize = match align_up(physical_address, LARGE_PAGE_SIZE) {
        Some(address) => address,
        None => {
            return Err(BootError::AddressOverflow);
        },
    };
    let displacement: usize = new_physical_address - physical_address;
    let window_size: usize = match file_size.checked_add(displacement) {
        Some(size) => size,
        None => {
            return Err(BootError::AddressOverflow);
        },
    };
    if virtual_address > usize::MAX - window_size {
        return Err(BootError::AddressOverflow);
    }
    Ok(
        RelocationPlan {
            original_physical_address: physical_address,
            original_virtual_address: virtual_address,
            file_size,
            new_physical_address,
            displacement,
            window_size,
            staging_mapping: MappingRequest {
                page_size: PageSize::Base,
                virtual_address,
                physical_address,
                page_count: window_size / BASE_PAGE_SIZE,
                flags: PageFlags::Writable,
            },
            final_mapping: MappingRequest {
                page_size: PageSize::Base,
                virtual_address,
                physical_address: new_physical_address,
                page_count: file_size / BASE_PAGE_SIZE,
                flags: PageFlags::Writable,
            },
        },
    )
}

/// The window after the first `file_size` bytes have been moved up by
/// `displacement`: the moved bytes at their new place, every other byte as it
/// was.
pub open spec fn relocated(window: Seq<u8>, file_size: int, displacement: int) -> Seq<u8> {
    Seq::new(
        window.len(),
        |j: int|
            if displacement <= j < displacement + file_size {
                window[j - displacement]
            } else {
                window[j]
            },
    )
}

/// Once the bytes are moved and the final mapping is installed, byte `i` of the
/// image is found at the virtual address where it was before: the final
/// mapping leads there to the physical byte that the staging mapping showed
/// `displacement` further up, and the copy has put the image's byte `i` there.
pub proof fn lemma_moved_image_keeps_its_place(plan: RelocationPlan, window: Seq<u8>, i: int)
    requires
        plan.wf(),
        window.len() == plan.window_size,
        0 <= i < plan.file_size,
    ensures
        plan.final_mapping.translate(plan.original_virtual_address + i)
            == plan.staging_mapping.translate(
            plan.original_virtual_address + plan.displacement + i,
        ),
        relocated(window, plan.file_size as int, plan.displacement as int)[plan.displacement + i]
            == window[i],
{
}

/// Where the image's addresses lead once both mappings of the plan have been
/// carried out: the whole pages of the image lead to the new location; what
/// the staging mapping covered beyond them still leads to the original
/// location; every other address is as it was.
pub proof fn lemma_mappings_after_move(
    before: Seq<MappingRequest>,
    plan: RelocationPlan,
    address: int,
)
    requires
        plan.wf(),
    ensures
        plan.final_mapping.covers(address) ==> plan.staging_mapping.covers(address),
        plan.final_mapping.covers(address) ==> resolve(
            before.push(plan.staging_mapping).push(plan.final_mapping),
            address,
        ) == Some(
            (
                plan.new_physical_address + (address - plan.original_virtual_address),
                PageFlags::Writable,
            ),
        ),
        plan.staging_mapping.covers(address) && !plan.final_mapping.covers(address) ==> resolve(
            before.push(plan.staging_mapping).push(plan.final_mapping),
            address,
        ) == Some(
            (
                plan.original_physical_address + (address - plan.original_virtual_address),
                PageFlags::Writable,
            ),
        ),
        !plan.staging_mapping.covers(address) ==> resolve(
            before.push(plan.staging_mapping).push(plan.final_mapping),
            address,
        ) == resolve(before, address),
{
    lemma_resolve_after_request(before, plan.staging_mapping, address);
    lemma_resolve_after_request(before.push(plan.staging_mapping), plan.final_mapping, address);
    let final_pages = plan.file_size / BASE_PAGE_SIZE;
    let staging_pages = plan.window_size / BASE_PAGE_SIZE;
    assert(final_pages <= staging_pages);
    assert(plan.final_mapping.page_count == final_pages);
    assert(plan.staging_mapping.page_count == staging_pages);
    assert(plan.final_mapping.length() == final_pages * BASE_PAGE_SIZE);
    assert(plan.staging_mapping.length() == staging_pages * BASE_PAGE_SIZE);
}

/// Moves the first `file_size` bytes of `window` up by `displacement`, the
/// highest byte first, so that no byte is overwritten before it has been read
/// even where the old and the new place overlap.
pub fn copy_image(window: &mut [u8], file_size: usize, displacement: usize) -> (copied: Result<
    (),
    BootError,
>)
    ensures
        file_size + displacement > old(window)@.len() ==> copied == Err::<(), BootError>(
            BootError::WindowTooSmall,
        ) && final(window)@ == old(window)@,
        file_size + displacement <= old(window)@.len() ==> copied is Ok && final(window)@
            == relocated(old(window)@, file_size as int, displacement as int),
        copied is Ok ==> forall|i: int|
            0 <= i < file_size ==> final(window)@[displacement + i] == old(window)@[i],
{
    let length: usize = window.len();
    if file_size > length || displacement > length - file_size {
        return Err(BootError::WindowTooSmall);
    }
    let mut i: usize = file_size;
    while i > 0
        invariant
            i <= file_size,
            file_size + displacement <= length,
            window@.len() == length,
            length == old(window)@.len(),
            forall|j: int|
                0 <= j < length ==> window@[j] == (if displacement + i <= j < displacement
                    + file_size {
                    old(window)@[j - displacement]
                } else {
                    old(window)@[j]
                }),
        decreases i,
    {
        i -= 1;
        let byte: u8 = window[i];
        window[displacement + i] = byte;
    }
    assert(window@ =~= relocated(old(window)@, file_size as int, displacement as int));
    Ok(())
}

} // verus!
