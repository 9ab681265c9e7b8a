//! A grayscale image filter meant to run inside a sandboxed guest, together with the
//! protocol pieces around it: a bump allocator over the guest's linear memory, the
//! pointer/length calling convention, and the decisions of the host-side process driver.
mod codec;
mod driver;
mod entry;
mod memory;
mod pipeline;

pub use codec::{
    decodes, has_png_signature, luma_height, luma_pixels, luma_width, png_of, png_signature, starts_with_png_signature, GrayImage,
    PNG_SIGNATURE_LEN,
};
pub use driver::{exit_code_for, Action, ChildExit, Driver, Event, Phase, Report};
pub use entry::{delivered, grayscale, store_result};
pub use memory::{
    allocate, dealloc, disjoint, le_bytes, lemma_empty_alloc_release, lemma_live_regions_disjoint,
    span, GuestMemory, HEAP_BASE, MEMORY_LIMIT,
};
pub use pipeline::{encode_gray, gray_png, transform, TransformError};
