//! Page size classes and the requests handed to the address-space mapper.

use vstd::prelude::*;
use crate::align::{align_down, lemma_align_down_is_aligned, spec_align_down};

verus! {

/// Bytes in a base page.
pub const BASE_PAGE_SIZE: usize = 0x1000;

/// Bytes in a large page.
pub const LARGE_PAGE_SIZE: usize = 0x20_0000;

/// The granularity of a mapping.
#[derive(Clone, Copy, Debug, PartialEq, Eq, Structural)]
pub enum PageSize {
    Base,
    Large,
}

impl PageSize {
    /// Bytes in one page of this class; also the alignment it needs.
    pub open spec fn spec_size(self) -> int {
        match self {
            PageSize::Base => BASE_PAGE_SIZE as int,
            PageSize::Large => LARGE_PAGE_SIZE as int,
        }
    }

    /// Bytes in one page of this class.
    pub fn size(self) -> (bytes: usize)
        ensures
            bytes == self.spec_size(),
    {
        match self {
            PageSize::Base => BASE_PAGE_SIZE,
            PageSize::Large => LARGE_PAGE_SIZE,
        }
    }
}

/// Protection of a mapping.
#[derive(Clone, Copy, Debug, PartialEq, Eq, Structural)]
pub enum PageFlags {
    /// Present and read-only.
    Empty,
    /// Present and writable.
    Writable,
}

/// One call on the address-space mapper: `page_count` pages of `page_size`
/// bytes, the first at `virtual_address` and backed by `physical_address`.
#[derive(Clone, Copy, Debug, PartialEq, Eq, Structural)]
pub struct MappingRequest {
    pub page_size: PageSize,
    pub virtual_address: usize,
    pub physical_address: usize,
    pub page_count: usize,
    pub flags: PageFlags,
}

impl MappingRequest {
    /// Bytes of virtual address space that the request maps.
    pub open spec fn length(self) -> int {
        self.page_count * self.page_size.spec_size()
    }

    /// Whether the request maps the virtual address `address`.
    pub open spec fn covers(self, address: int) -> bool {
        self.virtual_address <= address < self.virtual_address + self.length()
    }

    /// The physical address behind a virtual address that the request maps.
    pub open spec fn translate(self, address: int) -> int
        recommends
            self.covers(address),
    {
        self.physical_address + (address - self.virtual_address)
    }

    /// The read-only identity mapping of the one base page that holds
    /// `address`.
    pub open spec fn spec_identity_page(address: usize) -> MappingRequest {
        MappingRequest {
            page_size: PageSize::Base,
            virtual_address: spec_align_down(address as int, BASE_PAGE_SIZE as int) as usize,
            physical_address: spec_align_down(address as int, BASE_PAGE_SIZE as int) as usize,
            page_count: 1,
            flags: PageFlags::Empty,
        }
    }

    /// Builds the read-only identity mapping of the base page that holds
    /// `address`, so that what lies at `address` can be read.
    pub fn identity_page(address: usize) -> (request: MappingRequest)
        ensures
            request == Self::spec_identity_page(address),
            request.covers(address as int),
            request.translate(address as int) == address,
    {
        proof {
            lemma_align_down_is_aligned(address as int, BASE_PAGE_SIZE as int);
        }
        let page_address: usize = align_down(address, BASE_PAGE_SIZE);
        MappingRequest {
            page_size: PageSize::Base,
            virtual_address: page_address,
            physical_address: page_address,
            page_count: 1,
            flags: PageFlags::Empty,
        }
    }
}

/// Where a virtual address leads once `requests` have been carried out in
/// order: to the physical address and with the protection that the latest
/// request covering it gives, and nowhere if no request covers it.
pub open spec fn resolve(requests: Seq<MappingRequest>, address: int) -> Option<(int, PageFlags)>
    decreases requests.len(),
{
    if requests.len() == 0 {
        None
    } else if requests.last().covers(address) {
        Some((requests.last().translate(address), requests.last().flags))
    } else {
        resolve(requests.drop_last(), address)
    }
}

/// A request decides every address that it covers and leaves the others as
/// they were.
pub proof fn lemma_resolve_after_request(
    requests: Seq<MappingRequest>,
    request: MappingRequest,
    address: int,
)
    ensures
        request.covers(address) ==> resolve(requests.push(request), address) == Some(
            (request.translate(address), request.flags),
        ),
        !request.covers(address) ==> resolve(requests.push(request), address) == resolve(
            requests,
            address,
        ),
{
    assert(requests.push(request).drop_last() =~= requests);
}

/// Carrying out the same request once more changes nothing.
pub proof fn lemma_remapping_is_idempotent(
    requests: Seq<MappingRequest>,
    request: MappingRequest,
    address: int,
)
    ensures
        resolve(requests.push(request).push(request), address) == resolve(
            requests.push(request),
            address,
        ),
{
    lemma_resolve_after_request(requests, request, address);
    lemma_resolve_after_request(requests.push(request), request, address);
}

/// A large page is made of whole base pages.
pub proof fn lemma_large_page_holds_base_pages()
    ensures
        PageSize::Large.spec_size() % PageSize::Base.spec_size() == 0,
        PageSize::Large.spec_size() == 512 * PageSize::Base.spec_size(),
{
    assert(0x20_0000int % 0x1000int == 0);
}

} // verus!
