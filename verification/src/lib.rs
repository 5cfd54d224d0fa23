//! A typed, control-flow-explicit, SSA-oriented intermediate representation
//! for a source-to-bytecode compiler, together with a canonical, deterministic
//! text rendering of every type, expression and instruction.

pub mod block;
pub mod expr;
pub mod expr_printer;
pub mod insn;
pub mod insn_printer;
pub mod lir_type;
pub mod lowering;
pub mod printer;
pub mod text;
pub mod vartable;
