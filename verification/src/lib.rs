//! Verified core of a second-stage boot loader for a unikernel.
//!
//! The loader runs right after a multiboot-style bootstrap. It finds the
//! application image among the loaded modules, moves it to a large-page
//! boundary, fills the boot parameter block inside the image and hands over
//! control. This crate holds every decision of that sequence as a function on
//! plain values; touching page tables, raw memory and the processor is left to
//! the caller.

pub mod align;
pub mod bootinfo;
pub mod diagnostic;
pub mod error;
pub mod launcher;
pub mod locator;
pub mod paging;
pub mod relocator;
