//! A typed, low-level intermediate representation for a compiler backend,
//! together with the pass that lowers its calls to a platform's native (C)
//! calling convention: values too large to pass in machine registers are
//! passed and returned through memory instead of by value.

pub mod builders;
pub mod c_calling_convention;
pub mod ir;
pub mod module;
pub mod names;
pub mod types;
