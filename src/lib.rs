//! Small verified building blocks: a typestate data processor, a fixed
//! capacity byte-backed string, a delayed value driven by elapsed time, and
//! the bookkeeping rules of a four-byte-granular allocator.

mod allocator;
mod const_string;
mod delayed;
mod processor;
mod states;

pub use allocator::{vetted, AllocRefusal, WhimsicalAllocator, GRANULE};
pub use const_string::ConstString;
pub use delayed::DelayedValue;
pub use processor::{empty_data_message, upper_of, DataProcessor};
pub use states::{Initial, Processed, Validated};
