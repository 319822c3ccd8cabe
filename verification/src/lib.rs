//! PostgreSQL frontend logic for a SQLite-compatible engine: statement
//! classification, session state, literal handling, schema bookkeeping and
//! the table-valued-function rewrite.
pub mod text;
pub mod error;
pub mod literal;
pub mod session_state;
pub mod compat_state;
pub mod statement;
pub mod settings;
pub mod schema;
pub mod copy_from;
pub mod special;
pub mod srf;
