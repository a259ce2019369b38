//! A builder generator: from the structural description of a named-fields
//! record it derives a companion builder description (one slot per field,
//! optional-wrapper fields unwrapped to their inner type), and it gives the
//! generated builder's behaviour itself as a verified state machine: slots
//! are filled one at a time, and `build` checks the required fields in
//! declaration order before producing the record's values.

pub mod builder;
pub mod generate;
pub mod laws;
pub mod types;
