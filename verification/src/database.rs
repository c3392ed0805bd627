//! What the library decides about stored records.

pub mod api_keys;
