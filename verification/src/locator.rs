//! The image locator: from the boot information to the application image and
//! the memory that is left for the allocator.
//!
//! The boot information block may lie anywhere in physical memory, so nothing
//! in it can be read before its page is mapped. The locator therefore works in
//! three steps, and the caller maps and reads between them:
//! [`boot_info_mapping`], [`modules_mapping`], [`find_kernel`]. A caller that
//! cannot hold the module list in one piece walks it with a [`ModuleScan`]
//! in place of the third step.

use vstd::prelude::*;
use crate::align::{align_up, lemma_align_down_is_aligned, lemma_align_enclose, spec_align_up};
use crate::bootinfo::{highest_end, lemma_highest_end_is_maximum, Module};
use crate::error::BootError;
use crate::paging::{MappingRequest, BASE_PAGE_SIZE, LARGE_PAGE_SIZE};

verus! {

/// Where the application image lies and what the caller has to do about it.
#[derive(Clone, Copy, Debug, PartialEq, Eq, Structural)]
pub struct KernelLocation {
    /// Physical address of the image's ELF header.
    pub start_address: usize,
    /// Lowest address that the physical memory allocator may hand out.
    pub allocator_floor: usize,
    /// The mapping under which the image's ELF header can be read.
    pub header_mapping: MappingRequest,
}

/// The lowest address left to the allocator: one large page past the highest
/// module end, rounded up to a large page.
pub open spec fn allocator_floor(modules: Seq<Module>) -> int {
    spec_align_up(highest_end(modules) + LARGE_PAGE_SIZE, LARGE_PAGE_SIZE as int)
}

/// What `find_kernel` answers for a module list.
pub open spec fn locate(modules: Seq<Module>) -> Result<KernelLocation, BootError> {
    if modules.len() == 0 {
        Err(BootError::NoModules)
    } else if modules[0].start_address == 0 {
        Err(BootError::ZeroStartAddress)
    } else if allocator_floor(modules) > usize::MAX {
        Err(BootError::AddressOverflow)
    } else {
        Ok(
            KernelLocation {
                start_address: modules[0].start_address,
                allocator_floor: allocator_floor(modules) as usize,
                header_mapping: MappingRequest::spec_identity_page(modules[0].start_address),
            },
        )
    }
}

/// The allocator floor is a large-page boundary and lies at least one large
/// page above the end of every module.
pub proof fn lemma_allocator_floor_clears_modules(modules: Seq<Module>)
    ensures
        allocator_floor(modules) % (LARGE_PAGE_SIZE as int) == 0,
        allocator_floor(modules) >= LARGE_PAGE_SIZE,
        forall|i: int|
            0 <= i < modules.len() ==> allocator_floor(modules) >= (#[trigger] modules[i]).end_address
                + LARGE_PAGE_SIZE,
{
    lemma_highest_end_is_maximum(modules);
    lemma_align_enclose(highest_end(modules) + LARGE_PAGE_SIZE, LARGE_PAGE_SIZE as int);
}

/// First step: checks the address that the bootstrap left for the boot
/// information block and says which page to map before the block is read.
pub fn boot_info_mapping(boot_info_address: usize) -> (mapping: Result<MappingRequest, BootError>)
    ensures
        boot_info_address == 0 ==> mapping == Err::<MappingRequest, BootError>(
            BootError::MissingBootInfo,
        ),
        boot_info_address != 0 ==> mapping == Ok::<MappingRequest, BootError>(
            MappingRequest::spec_identity_page(boot_info_address),
        ),
{
    if boot_info_address == 0 {
        Err(BootError::MissingBootInfo)
    } else {
        Ok(MappingRequest::identity_page(boot_info_address))
    }
}

/// Second step: takes the address of the module list as read from the boot
/// information block and says which page to map before the list is read.
pub fn modules_mapping(modules_address: Option<usize>) -> (mapping: Result<
    MappingRequest,
    BootError,
>)
    ensures
        modules_address is None ==> mapping == Err::<MappingRequest, BootError>(
            BootError::MissingModulesInfo,
        ),
        modules_address matches Some(address) ==> mapping == Ok::<MappingRequest, BootError>(
            MappingRequest::spec_identity_page(address),
        ),
{
    match modules_address {
        None => Err(BootError::MissingModulesInfo),
        Some(address) => Ok(MappingRequest::identity_page(address)),
    }
}

/// The locator's memory while it walks the module list: whether it has seen a
/// module, where the first one starts and the highest end so far. It lets the
/// caller hand over the modules one by one as it reads them.
pub struct ModuleScan {
    found_module: bool,
    start_address: usize,
    end_address: usize,
    visited: Ghost<Seq<Module>>,
}

impl View for ModuleScan {
    type V = Seq<Module>;

    /// The modules visited so far, in the order of the visits.
    closed spec fn view(&self) -> Seq<Module> {
        self.visited@
    }
}

impl ModuleScan {
    #[verifier::type_invariant]
    spec fn wf(self) -> bool {
        &&& self.found_module <==> self.visited@.len() > 0
        &&& self.found_module ==> self.start_address == self.visited@[0].start_address
        &&& self.end_address == highest_end(self.visited@)
    }

    /// A scan that has visited no module yet.
    pub fn new() -> (scan: Self)
        ensures
            scan@ == Seq::<Module>::empty(),
    {
        ModuleScan {
            found_module: false,
            start_address: 0,
            end_address: 0,
            visited: Ghost(Seq::empty()),
        }
    }

    /// Takes the next module of the list.
    pub fn visit(&mut self, module: Module)
        ensures
            final(self)@ == old(self)@.push(module),
    {
        proof {
            use_type_invariant(&*self);
            assert(self.visited@.push(module).drop_last() =~= self.visited@);
        }
        let start_address: usize = if self.found_module {
            self.start_address
        } else {
            module.start_address
        };
        let end_address: usize = if module.end_address > self.end_address {
            module.end_address
        } else {
            self.end_address
        };
        *self = ModuleScan {
            found_module: true,
            start_address,
            end_address,
            visited: Ghost(self.visited@.push(module)),
        };
    }

    /// Answers for the modules visited: where the application image lies and
    /// what is left to the allocator.
    pub fn finish(&self) -> (located: Result<KernelLocation, BootError>)
        ensures
            located == locate(self@),
    {
        proof {
            use_type_invariant(self);
            lemma_align_enclose(highest_end(self@) + LARGE_PAGE_SIZE, LARGE_PAGE_SIZE as int);
        }
        if !self.found_module {
            return Err(BootError::NoModules);
        }
        if self.start_address == 0 {
            return Err(BootError::ZeroStartAddress);
        }
        let raised: usize = match self.end_address.checked_add(LARGE_PAGE_SIZE) {
            Some(raised) => raised,
            None => {
                return Err(BootError::AddressOverflow);
            },
        };
        match align_up(raised, LARGE_PAGE_SIZE) {
            Some(floor) => Ok(
                KernelLocation {
                    start_address: self.start_address,
                    allocator_floor: floor,
                    header_mapping: MappingRequest::identity_page(self.start_address),
                },
            ),
            None => Err(BootError::AddressOverflow),
        }
    }
}

/// Third step: finds the application image in the module list. The image is
/// the first module of the list, whatever the addresses of the others. The
/// allocator gets what lies above all modules, with one large page to spare.
pub fn find_kernel(modules: &[Module]) -> (located: Result<KernelLocation, BootError>)
    ensures
        located == locate(modules@),
        located matches Ok(location) ==> {
            &&& modules@.len() > 0
            &&& location.start_address == modules@[0].start_address
            &&& location.start_address != 0
            &&& location.allocator_floor == spec_align_up(
                highest_end(modules@) + LARGE_PAGE_SIZE,
                LARGE_PAGE_SIZE as int,
            )
            &&& location.allocator_floor % LARGE_PAGE_SIZE == 0
            &&& forall|i: int|
                0 <= i < modules@.len() ==> location.allocator_floor >= (#[trigger] modules@[i]).end_address
                    + LARGE_PAGE_SIZE
            &&& location.header_mapping.covers(location.start_address as int)
        },
{
    let count: usize = modules.len();
    let mut scan = ModuleScan::new();
    let mut index: usize = 0;
    while index < count
        invariant
            index <= count,
            count == modules@.len(),
            scan@ == modules@.take(index as int),
        decreases count - index,
    {
        scan.visit(modules[index]);
        index += 1;
        proof {
            assert(modules@.take(index as int) =~= modules@.take(index - 1).push(
                modules@[index - 1],
            ));
        }
    }
    proof {
        assert(modules@.take(count as int) =~= modules@);
        lemma_allocator_floor_clears_modules(modules@);
        lemma_align_down_is_aligned(modules@[0].start_address as int, BASE_PAGE_SIZE as int);
    }
    scan.finish()
}

} // verus!
