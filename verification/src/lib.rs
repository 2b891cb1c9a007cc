//! A fixed-width wire format for a closed error taxonomy.
//!
//! Every [`taxonomy::PopApiError`] has a four-byte image, and every four-byte
//! value decodes to exactly one error. Shapes that the decoder does not
//! recognise degrade to `Unspecified`, which keeps the raw positional bytes.
//!
//! Wire contract: a tagged union is written as one discriminant byte, the
//! zero-based position of the variant in its declaration, followed by the
//! variant's fields in declaration order. The result is cut or zero-padded to
//! four bytes. As a scalar the four bytes are read little-endian.

pub mod taxonomy;
pub mod discriminant;
pub mod encoder;
pub mod decoder;
pub mod scalar;
pub mod laws;
