//! The boot parameter injector: fills the boot parameter block at the start of
//! the relocated image.
//!
//! The block is an agreement between the loader and the image. Its fields are
//! machine words of eight bytes, lowest byte first, at fixed offsets from the
//! image's base.

use vstd::prelude::*;
use crate::bootinfo::CommandLine;
use crate::error::BootError;
use crate::paging::MappingRequest;

verus! {

/// Offset of the physical base address of the image.
pub const KERNEL_OFFSET_BASE: usize = 0x08;

/// Offset of the size of the memory that the image may use.
pub const KERNEL_OFFSET_IMAGE_SIZE: usize = 0x38;

/// Offset of the I/O address of the console.
pub const KERNEL_OFFSET_UARTPORT: usize = 0x98;

/// Offset of the address of the command line.
pub const KERNEL_OFFSET_CMDLINE: usize = 0xA0;

/// Offset of the length of the command line.
pub const KERNEL_OFFSET_CMDSIZE: usize = 0xA8;

/// Bytes from the image's base to the end of the last field of the block.
pub const BOOT_PARAMETER_BLOCK_SIZE: usize = 0xB0;

/// Bytes in a field of the block.
pub const WORD_SIZE: usize = 8;

/// I/O address of the serial line that carries the console.
pub const SERIAL_PORT_ADDRESS: u16 = 0x3F8;

/// Speed of the console's serial line in bits per second.
pub const SERIAL_PORT_BAUDRATE: u32 = 115200;

/// Byte `index` of the machine word `value`, counted from the lowest.
pub open spec fn word_byte(value: u64, index: int) -> u8 {
    ((value >> ((8 * index) as u64)) & 0xff) as u8
}

/// `bytes` with the machine word `value` stored at `offset`.
pub open spec fn put_word(bytes: Seq<u8>, offset: int, value: u64) -> Seq<u8> {
    Seq::new(
        bytes.len(),
        |j: int|
            if offset <= j < offset + WORD_SIZE {
                word_byte(value, j - offset)
            } else {
                bytes[j]
            },
    )
}

/// `image` with the boot parameter block filled in: the base address, the
/// memory size and the console's address always, the command line's address and
/// length only where there is a command line.
pub open spec fn with_boot_parameters(
    image: Seq<u8>,
    new_physical_address: usize,
    mem_size: usize,
    command_line: Option<CommandLine>,
) -> Seq<u8> {
    let with_base = put_word(image, KERNEL_OFFSET_BASE as int, new_physical_address as u64);
    let with_size = put_word(with_base, KERNEL_OFFSET_IMAGE_SIZE as int, mem_size as u64);
    let with_port = put_word(with_size, KERNEL_OFFSET_UARTPORT as int, SERIAL_PORT_ADDRESS as u64);
    match command_line {
        Some(line) => put_word(
            put_word(with_port, KERNEL_OFFSET_CMDLINE as int, line.address as u64),
            KERNEL_OFFSET_CMDSIZE as int,
            line.size as u64,
        ),
        None => with_port,
    }
}

/// Whether the byte at `offset` belongs to the field that starts at `field`.
pub open spec fn in_field(offset: int, field: usize) -> bool {
    field <= offset < field + WORD_SIZE
}

/// Stores the machine word `value` at `offset`, lowest byte first.
fn write_word(image: &mut [u8], offset: usize, value: u64)
    requires
        offset + WORD_SIZE <= old(image)@.len(),
    ensures
        final(image)@ == put_word(old(image)@, offset as int, value),
{
    let length: usize = image.len();
    let mut index: usize = 0;
    while index < WORD_SIZE
        invariant
            index <= WORD_SIZE,
            offset + WORD_SIZE <= length,
            image@.len() == length,
            old(image)@.len() == length,
            forall|j: int|
                0 <= j < image@.len() ==> image@[j] == (if offset <= j < offset + index {
                    word_byte(value, j - offset)
                } else {
                    old(image)@[j]
                }),
        decreases WORD_SIZE - index,
    {
        let shift: u64 = 8 * (index as u64);
        let low: u64 = (value >> shift) & 0xff;
        assert(low <= 0xff) by (bit_vector)
            requires
                low == (value >> shift) & 0xff,
        ;
        image[offset + index] = low as u8;
        index += 1;
    }
    assert(image@ =~= put_word(old(image)@, offset as int, value));
}

/// Says which page to map before the command line is read, if the bootstrap
/// passed one on.
pub fn command_line_mapping(command_line_address: Option<usize>) -> (mapping: Option<
    MappingRequest,
>)
    ensures
        command_line_address is None ==> mapping is None,
        command_line_address matches Some(address) ==> mapping == Some(
            MappingRequest::spec_identity_page(address),
        ),
{
    match command_line_address {
        Some(address) => Some(MappingRequest::identity_page(address)),
        None => None,
    }
}

/// Fills the boot parameter block of the image whose first bytes are `image`.
/// Without a command line the two fields for it stay as they are. An image
/// too short to hold the block is left alone.
pub fn boot_kernel(
    image: &mut [u8],
    new_physical_address: usize,
    mem_size: usize,
    command_line: Option<CommandLine>,
) -> (filled: Result<(), BootError>)
    ensures
        old(image)@.len() < BOOT_PARAMETER_BLOCK_SIZE ==> filled == Err::<(), BootError>(
            BootError::WindowTooSmall,
        ) && final(image)@ == old(image)@,
        old(image)@.len() >= BOOT_PARAMETER_BLOCK_SIZE ==> filled is Ok && final(image)@
            == with_boot_parameters(old(image)@, new_physical_address, mem_size, command_line),
        filled is Ok ==> forall|j: int|
            0 <= j < old(image)@.len() && !in_field(j, KERNEL_OFFSET_BASE) && !in_field(
                j,
                KERNEL_OFFSET_IMAGE_SIZE,
            ) && !in_field(j, KERNEL_OFFSET_UARTPORT) && !(command_line is Some && (in_field(
                j,
                KERNEL_OFFSET_CMDLINE,
            ) || in_field(j, KERNEL_OFFSET_CMDSIZE))) ==> final(image)@[j] == old(image)@[j],
{
    if image.len() < BOOT_PARAMETER_BLOCK_SIZE {
        return Err(BootError::WindowTooSmall);
    }
    write_word(image, KERNEL_OFFSET_BASE, new_physical_address as u64);
    write_word(image, KERNEL_OFFSET_IMAGE_SIZE, mem_size as u64);
    write_word(image, KERNEL_OFFSET_UARTPORT, SERIAL_PORT_ADDRESS as u64);
    if let Some(line) = command_line {
        write_word(image, KERNEL_OFFSET_CMDLINE, line.address as u64);
        write_word(image, KERNEL_OFFSET_CMDSIZE, line.size as u64);
    }
    Ok(())
}

} // verus!
