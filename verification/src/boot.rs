//! The conventions by which a kernel image and a device tree blob are
//! placed in memory before the machine starts.

use crate::platform::MEMORY_BASE;
use vstd::prelude::*;

verus! {

/// The size of the header at the start of a kernel file, which is not
/// loaded.
pub const KERNEL_HEADER_SIZE: usize = 0x1000;

/// Where the images go and where execution starts.
#[derive(Debug, PartialEq, Eq, Clone, Copy, Structural)]
pub struct BootAddresses {
    pub kernel_load_address: usize,
    pub entry_point: usize,
    pub dtb_load_address: usize,
}

/// The addresses to boot with, where some are left to their defaults: the
/// kernel goes to the start of the default RAM, execution starts at the
/// kernel's load address, and the device tree blob goes as many bytes
/// above the kernel's load address as the blob is long. There are none if
/// that last address would lie beyond the address space.
pub open spec fn spec_boot_addresses(
    kernel_load_address: Option<usize>,
    entry_point: Option<usize>,
    dtb_load_address: Option<usize>,
    dtb_len: usize,
) -> Option<BootAddresses> {
    let kernel = match kernel_load_address {
        Some(address) => address,
        None => MEMORY_BASE,
    };
    let entry = match entry_point {
        Some(address) => address,
        None => kernel,
    };
    match dtb_load_address {
        Some(dtb) => Some(
            BootAddresses { kernel_load_address: kernel, entry_point: entry, dtb_load_address: dtb },
        ),
        None => if kernel + dtb_len <= usize::MAX {
            Some(
                BootAddresses {
                    kernel_load_address: kernel,
                    entry_point: entry,
                    dtb_load_address: (kernel + dtb_len) as usize,
                },
            )
        } else {
            None
        },
    }
}

/// Fills in the addresses that were not given.
pub fn boot_addresses(
    kernel_load_address: Option<usize>,
    entry_point: Option<usize>,
    dtb_load_address: Option<usize>,
    dtb_len: usize,
) -> (addresses: Option<BootAddresses>)
    ensures
        addresses == spec_boot_addresses(
            kernel_load_address,
            entry_point,
            dtb_load_address,
            dtb_len,
        ),
{
    let kernel = match kernel_load_address {
        Some(address) => address,
        None => MEMORY_BASE,
    };
    let entry = match entry_point {
        Some(address) => address,
        None => kernel,
    };
    let dtb = match dtb_load_address {
        Some(address) => address,
        None => match kernel.checked_add(dtb_len) {
            Some(address) => address,
            None => {
                return None;
            },
        },
    };
    Some(BootAddresses { kernel_load_address: kernel, entry_point: entry, dtb_load_address: dtb })
}

/// Strips the header from a kernel file: what is left is the image to
/// load. A file shorter than the header has no image.
pub fn strip_kernel_header(kernel: Vec<u8>) -> (image: Option<Vec<u8>>)
    ensures
        image is Some <==> kernel@.len() >= KERNEL_HEADER_SIZE,
        image is Some ==> image.unwrap()@ == kernel@.subrange(
            KERNEL_HEADER_SIZE as int,
            kernel@.len() as int,
        ),
{
    let mut kernel = kernel;
    if kernel.len() < KERNEL_HEADER_SIZE {
        return None;
    }
    Some(kernel.split_off(KERNEL_HEADER_SIZE))
}

} // verus!
