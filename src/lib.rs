//! In-place decompression of a zlib, gzip or raw deflate region inside an
//! editable byte container, with rollback when the stream turns out bad.

mod container;
mod inflate;
mod region;

pub use container::{ChangeEvent, TextContainer};
pub use inflate::{detect_format, Format, Inflater};
pub use region::{
    decompress_region_polling, validate_region, zlib_available_p, zlib_decompress_region,
    RegionError, CHUNK_SIZE,
};
