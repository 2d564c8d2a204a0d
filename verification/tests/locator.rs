use hermit_loader::bootinfo::Module;
use hermit_loader::error::BootError;
use hermit_loader::locator::{
    boot_info_mapping, find_kernel, modules_mapping, KernelLocation, ModuleScan,
};
use hermit_loader::paging::{MappingRequest, PageFlags, PageSize};

fn module(start_address: usize, end_address: usize) -> Module {
    Module { start_address, end_address }
}

#[test]
fn one_module_reserves_a_large_page_above_it() {
    let located = find_kernel(&[module(0x20_0000, 0x30_0000)]).unwrap();
    assert_eq!(located.start_address, 0x20_0000);
    assert_eq!(located.allocator_floor, 0x60_0000);
    assert_eq!(located.allocator_floor % 0x20_0000, 0);
    assert!(located.allocator_floor >= 0x30_0000 + 0x20_0000);
}

#[test]
fn find_kernel_gives_the_whole_location() {
    assert_eq!(
        find_kernel(&[module(0x10_0800, 0x18_0000)]),
        Ok(KernelLocation {
            start_address: 0x10_0800,
            allocator_floor: 0x40_0000,
            header_mapping: MappingRequest {
                page_size: PageSize::Base,
                virtual_address: 0x10_0000,
                physical_address: 0x10_0000,
                page_count: 1,
                flags: PageFlags::Empty,
            },
        })
    );
}

#[test]
fn first_module_wins_over_lower_addresses() {
    let modules = [
        module(0x80_0000, 0x90_0000),
        module(0x20_0000, 0x30_0000),
        module(0x40_0000, 0x50_0000),
    ];
    let located = find_kernel(&modules).unwrap();
    assert_eq!(located.start_address, 0x80_0000);
}

#[test]
fn floor_follows_the_highest_end() {
    let modules = [
        module(0x20_0000, 0x30_0000),
        module(0x80_0000, 0x91_2345),
        module(0x40_0000, 0x50_0000),
    ];
    let located = find_kernel(&modules).unwrap();
    assert_eq!(located.start_address, 0x20_0000);
    assert_eq!(located.allocator_floor, 0xc0_0000);
    for m in modules {
        assert!(located.allocator_floor >= m.end_address + 0x20_0000);
    }
}

#[test]
fn floor_of_an_aligned_end_is_one_large_page_above() {
    let located = find_kernel(&[module(0x20_0000, 0x40_0000)]).unwrap();
    assert_eq!(located.allocator_floor, 0x60_0000);
}

#[test]
fn floor_of_an_end_just_above_a_boundary() {
    let located = find_kernel(&[module(0x20_0000, 0x40_0001)]).unwrap();
    assert_eq!(located.allocator_floor, 0x80_0000);
}

#[test]
fn empty_module_list_is_fatal() {
    assert_eq!(find_kernel(&[]), Err(BootError::NoModules));
}

#[test]
fn first_module_at_zero_is_fatal() {
    assert_eq!(find_kernel(&[module(0, 0x1000)]), Err(BootError::ZeroStartAddress));
    assert_eq!(
        find_kernel(&[module(0, 0x1000), module(0x20_0000, 0x30_0000)]),
        Err(BootError::ZeroStartAddress)
    );
}

#[test]
fn floor_beyond_the_address_space_is_fatal() {
    assert_eq!(find_kernel(&[module(0x20_0000, usize::MAX)]), Err(BootError::AddressOverflow));
    assert_eq!(
        find_kernel(&[module(0x20_0000, usize::MAX - 0x20_0000)]),
        Err(BootError::AddressOverflow)
    );
    assert_eq!(
        find_kernel(&[module(0x20_0000, 0x30_0000), module(0x40_0000, usize::MAX - 0x3f_fffe)]),
        Err(BootError::AddressOverflow)
    );
}

#[test]
fn highest_floor_that_fits() {
    let top = usize::MAX - 0x1f_ffff;
    let located = find_kernel(&[module(0x20_0000, top - 0x20_0000)]).unwrap();
    assert_eq!(located.allocator_floor, top);
}

#[test]
fn header_mapping_covers_the_start() {
    let located = find_kernel(&[module(0x20_0abc, 0x30_0000)]).unwrap();
    let mapping = located.header_mapping;
    assert_eq!(mapping.virtual_address, 0x20_0000);
    assert_eq!(mapping.physical_address, 0x20_0000);
    assert_eq!(mapping.page_count, 1);
    assert_eq!(mapping.flags, PageFlags::Empty);
    assert!(mapping.virtual_address <= located.start_address);
    assert!(located.start_address < mapping.virtual_address + 0x1000);
}

#[test]
fn missing_boot_information_is_fatal() {
    let refused = boot_info_mapping(0);
    assert_eq!(refused, Err(BootError::MissingBootInfo));
    assert_eq!(refused.unwrap_err().message(), "Could not find Multiboot information");
}

#[test]
fn boot_information_page_is_identity_mapped() {
    assert_eq!(
        boot_info_mapping(0x9500),
        Ok(MappingRequest {
            page_size: PageSize::Base,
            virtual_address: 0x9000,
            physical_address: 0x9000,
            page_count: 1,
            flags: PageFlags::Empty,
        })
    );
}

#[test]
fn missing_module_information_is_fatal() {
    assert_eq!(modules_mapping(None), Err(BootError::MissingModulesInfo));
}

#[test]
fn module_list_page_is_identity_mapped() {
    assert_eq!(modules_mapping(Some(0x1_0010)), Ok(MappingRequest::identity_page(0x1_0010)));
    assert_eq!(modules_mapping(Some(0x1_0010)).unwrap().virtual_address, 0x1_0000);
    assert_eq!(modules_mapping(Some(0)), Ok(MappingRequest::identity_page(0)));
}

#[test]
fn every_error_has_its_message() {
    assert_eq!(BootError::MissingBootInfo.message(), "Could not find Multiboot information");
    assert_eq!(
        BootError::MissingModulesInfo.message(),
        "Could not find module information in the Multiboot information"
    );
    assert_eq!(
        BootError::NoModules.message(),
        "Could not find a single module in the Multiboot information"
    );
    assert_eq!(BootError::ZeroStartAddress.message(), "The first module starts at address zero");
    assert_eq!(BootError::AddressOverflow.message(), "An address does not fit in a machine word");
    assert_eq!(BootError::WindowTooSmall.message(), "The memory window is too small");
}

#[test]
fn scan_without_visits_finds_no_module() {
    assert_eq!(ModuleScan::new().finish(), Err(BootError::NoModules));
}

#[test]
fn scan_answers_as_find_kernel_does() {
    let lists: [&[Module]; 5] = [
        &[],
        &[Module { start_address: 0x20_0000, end_address: 0x30_0000 }],
        &[
            Module { start_address: 0x80_0000, end_address: 0x90_0000 },
            Module { start_address: 0x20_0000, end_address: 0xa1_0000 },
        ],
        &[
            Module { start_address: 0, end_address: 0x1000 },
            Module { start_address: 0x20_0000, end_address: 0x30_0000 },
        ],
        &[Module { start_address: 0x1000, end_address: usize::MAX }],
    ];
    for list in lists {
        let mut scan = ModuleScan::new();
        for m in list {
            scan.visit(*m);
        }
        assert_eq!(scan.finish(), find_kernel(list));
    }
}

#[test]
fn scan_keeps_the_first_start_and_the_highest_end() {
    let mut scan = ModuleScan::new();
    scan.visit(module(0x50_0000, 0x58_0000));
    assert_eq!(scan.finish().unwrap().allocator_floor, 0x80_0000);
    scan.visit(module(0x10_0000, 0x9f_ffff));
    assert_eq!(scan.finish().unwrap().start_address, 0x50_0000);
    assert_eq!(scan.finish().unwrap().allocator_floor, 0xc0_0000);
    scan.visit(module(0x30_0000, 0x40_0000));
    assert_eq!(scan.finish().unwrap().start_address, 0x50_0000);
    assert_eq!(scan.finish().unwrap().allocator_floor, 0xc0_0000);
}
