//! Bit-packed records: a dense, byte-aligned binary layout for an ordered
//! list of typed fields, with verified bit-range accessors and schema
//! validation.
//!
//! A schema ([`schema::FieldSpec`]) declares fields in order; validation
//! rejects any defective schema before a record exists, the layout planner
//! hands each field the bit range it occupies, and a [`record::Record`]
//! owns the packed bytes that the accessors read and write. The accessors
//! rest on the bit engine of [`storage::PackedStorage`], whose contracts
//! are stated over the bit-sequence model in [`bitmath`]. Width tags
//! ([`specifier::Specifier`]) describe the built-in field widths and their
//! carrier types. A small command builder ([`command`]) rounds the crate
//! out.

pub mod bitmath;
pub mod command;
pub mod record;
pub mod schema;
pub mod specifier;
pub mod storage;
