//! A small encoder for dynamically typed values ("variants") and named,
//! ordered argument lists ("variant functions"), serialized into a compact
//! little-endian binary wire format.
//!
//! [`Variant`] is a closed tagged union of value kinds, each with a fixed
//! numeric type tag and a fixed or length-prefixed payload. Both it and the
//! call frame expose `pack`, which appends their byte-exact encoding to an
//! in-memory buffer; the encoding itself is specified by spec functions and
//! proved against the executable code.

mod variant;
mod variant_function;

pub use variant::Variant;
pub use variant::int_variant_of;
pub use variant::le4_value;
pub use variant::lemma_encoding_shape;
pub use variant::lemma_signed_conversion_by_value;
pub use variant::lemma_str_payload;
pub use variant::lemma_u32_le_bytes_value;
pub use variant::lemma_unsigned_conversion_by_value;
pub use variant::u32_le_bytes;
pub use variant::uint_variant_of;
pub use variant_function::VariantFunction;
pub use variant_function::args_encoding;
pub use variant_function::args_size;
pub use variant_function::lemma_args_encoding_size;
pub use variant_function::lemma_empty_frame;
pub use variant_function::lemma_frame_size;
