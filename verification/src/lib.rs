//! Small, self-contained demonstrations of basic language mechanics, each
//! stated with a contract: nested loops that hand a value outward, integer
//! arithmetic, and the rules of bindings (immutable, mutable, shadowed,
//! constant). Every demonstration returns the text it has to show, line by
//! line, and leaves the writing of it to the caller.

pub mod control_flow;
pub mod data_types;
pub mod decimal;
pub mod variables;
