//! Propagation of distributed-tracing context across an RPC boundary.
//!
//! The crate bridges two key-value abstractions: the text-map carrier that a
//! trace propagator reads and writes, and an RPC metadata map with its own
//! key-syntax and value-encoding rules.  Writes that violate the metadata
//! rules are silently discarded, so propagation can never fail the request it
//! rides on; reads treat values that are not plain text as absent.
//!
//! The `sanitize` module states the metadata validity rules and the model of
//! a carrier write.  The `carrier` module holds the adapter over the metadata
//! map itself.  The `scope` module states the LIFO discipline that governs
//! the ambient (execution-unit-local) context slot.

mod carrier;
mod sanitize;
mod scope;

pub use carrier::carrier_get;
pub use carrier::carrier_keys;
pub use carrier::carrier_set;
pub use carrier::ascii_text;
pub use carrier::entry_names;
pub use sanitize::ascii_lower;
pub use sanitize::ends_with_bin;
pub use sanitize::is_text_value;
pub use sanitize::is_valid_ascii_key;
pub use sanitize::is_valid_ascii_value;
pub use sanitize::has_room;
pub use sanitize::set_effective;
pub use sanitize::NAME_ROOM_LIMIT;
pub use sanitize::lemma_set_idempotent;
pub use sanitize::lemma_set_invalid_discarded;
pub use sanitize::lemma_write_then_read_back;
pub use sanitize::lower_char;
pub use sanitize::set_allowed;
pub use sanitize::set_names_model;
pub use sanitize::set_text_model;
pub use sanitize::text_char;
pub use sanitize::valid_key_char;
pub use sanitize::valid_value_char;
pub use scope::ContextStack;
pub use scope::current_of;
pub use scope::lemma_guard_lifo_restore;
