use hermit_loader::paging::{MappingRequest, PageFlags, PageSize, BASE_PAGE_SIZE, LARGE_PAGE_SIZE};

#[test]
fn page_sizes() {
    assert_eq!(BASE_PAGE_SIZE, 4096);
    assert_eq!(LARGE_PAGE_SIZE, 2 * 1024 * 1024);
    assert_eq!(PageSize::Base.size(), 4096);
    assert_eq!(PageSize::Large.size(), 2 * 1024 * 1024);
    assert_eq!(PageSize::Large.size() % PageSize::Base.size(), 0);
}

#[test]
fn identity_page_maps_the_page_around_the_address() {
    let request = MappingRequest::identity_page(0x12_3456);
    assert_eq!(
        request,
        MappingRequest {
            page_size: PageSize::Base,
            virtual_address: 0x12_3000,
            physical_address: 0x12_3000,
            page_count: 1,
            flags: PageFlags::Empty,
        }
    );
}

#[test]
fn identity_page_of_a_page_boundary_starts_there() {
    let request = MappingRequest::identity_page(0x9000);
    assert_eq!(request.virtual_address, 0x9000);
    assert_eq!(request.physical_address, 0x9000);
    assert_eq!(request.page_count, 1);
}

#[test]
fn identity_page_of_the_last_address() {
    let request = MappingRequest::identity_page(usize::MAX);
    assert_eq!(request.virtual_address, usize::MAX - 0xfff);
    assert_eq!(request.physical_address, usize::MAX - 0xfff);
}
