//! The instruction set: effectful statements and block terminators built
//! from expressions and variable references.

use vstd::prelude::*;
use vstd::string::StringExecFns;
use crate::expr::Expr;
use crate::expr::Operand;
use crate::lir_type::InternalCallTy;
use crate::lir_type::PhiInput;

verus! {

/// A platform-defined status code returned by a `ReturnCode` terminator.
#[derive(Debug, Clone, Copy, PartialEq, Eq)]
pub enum ReturnCode {
    Success,
    FunctionSelectorInvalid,
    AbiEncodingInvalid,
    InvalidDataError,
    AccountDataTooSmall,
    InvalidProgramId,
}

/// The semantics of a cross-contract call: a regular call, a delegate call
/// running in the caller's context, or a static call that disallows state
/// mutation in the callee.
#[derive(Debug, Clone, Copy, PartialEq, Eq)]
pub enum CallTy {
    Regular,
    Delegate,
    Static,
}

/// An instruction: a side-effecting statement or a block terminator.
#[derive(Debug)]
pub enum Insn {
    Nop,
    /// Binds a fresh SSA identity to an expression's value: the sole way a
    /// new identity acquires a value.
    Assign { res: usize, expr: Expr },
    /// Writes `data` to the memory address `dest`.
    Store { dest: Operand, data: Operand },
    PushMemory { res: usize, array: usize, value: Operand },
    PopMemory { res: usize, array: usize },
    /// Deploys a new contract or program instance.
    Constructor {
        success: Option<usize>,
        res: usize,
        contract_no: usize,
        constructor_no: Option<usize>,
        encoded_args: Operand,
        value: Option<Operand>,
        gas: Operand,
        salt: Option<Operand>,
        address: Option<Operand>,
        seeds: Option<Operand>,
        accounts: Option<Operand>,
    },
    LoadStorage { res: usize, storage: Operand },
    ClearStorage { storage: Operand },
    SetStorage { value: Operand, storage: Operand },
    SetStorageBytes { value: Operand, storage: Operand, offset: Operand },
    /// Appends to a storage array.
    PushStorage { res: usize, value: Option<Operand>, storage: Operand },
    /// Removes from a storage array, optionally producing the removed value.
    PopStorage { res: Option<usize>, storage: Operand },
    /// Calls a function of the same compilation unit.
    Call { res: Vec<usize>, call: InternalCallTy, args: Vec<Operand> },
    /// Diagnostic output.
    Print { operand: Operand },
    MemCopy { src: Operand, dest: Operand, bytes: Operand },
    /// A cross-contract call; an absent optional field renders as `_` in its
    /// slot, keeping every other slot in fixed position.
    ExternalCall {
        success: Option<usize>,
        address: Option<Operand>,
        accounts: Option<Operand>,
        seeds: Option<Operand>,
        payload: Operand,
        value: Operand,
        gas: Operand,
        callty: CallTy,
        flags: Option<Operand>,
    },
    ValueTransfer { success: Option<usize>, address: Operand, value: Operand },
    SelfDestruct { recipient: Operand },
    EmitEvent { event_no: usize, topics: Vec<Operand>, data: Operand },
    WriteBuffer { buf: Operand, offset: Operand, value: Operand },
    /// Unconditional branch terminator.
    Branch { block: usize },
    /// Conditional branch terminator.
    BranchCond { cond: Operand, true_block: usize, false_block: usize },
    /// Multi-way branch terminator.
    Switch { cond: Operand, cases: Vec<(Operand, usize)>, default: usize },
    Return { value: Vec<Operand> },
    /// Terminator returning a raw buffer to the caller.
    ReturnData { data: Operand, data_len: Operand },
    /// Terminator returning a platform-defined status code.
    ReturnCode { code: ReturnCode },
    /// Abnormal-exit terminator.
    AssertFailure { encoded_args: Option<Operand> },
    /// Placeholder terminator for a not-yet-lowered construct; `reachable`
    /// records whether static analysis determined this point is live.
    Unimplemented { reachable: bool },
    /// Phi pseudo-instruction: the value is `vars[i].operand` iff control
    /// arrived from `vars[i].block_no`. Must stand first in its block.
    Phi { res: usize, vars: Vec<PhiInput> },
}

/// A status code's rendering inside `return_code "...";`.
pub open spec fn return_code_str(c: ReturnCode) -> Seq<char> {
    match c {
        ReturnCode::Success => "success"@,
        ReturnCode::FunctionSelectorInvalid => "function selector invalid"@,
        ReturnCode::AbiEncodingInvalid => "abi encoding invalid"@,
        ReturnCode::InvalidDataError => "invalid data error"@,
        ReturnCode::AccountDataTooSmall => "account data too small"@,
        ReturnCode::InvalidProgramId => "invalid program id"@,
    }
}

/// A call type's rendering inside `call_ext [...]`.
pub open spec fn call_ty_str(c: CallTy) -> Seq<char> {
    match c {
        CallTy::Regular => "regular"@,
        CallTy::Delegate => "delegate"@,
        CallTy::Static => "static"@,
    }
}

/// Appends a status code's rendering to `s`.
pub fn write_return_code(s: &mut String, c: &ReturnCode)
    ensures
        final(s)@ == old(s)@ + return_code_str(*c),
{
    match c {
        ReturnCode::Success => {
            s.append("success");
        }
        ReturnCode::FunctionSelectorInvalid => {
            s.append("function selector invalid");
        }
        ReturnCode::AbiEncodingInvalid => {
            s.append("abi encoding invalid");
        }
        ReturnCode::InvalidDataError => {
            s.append("invalid data error");
        }
        ReturnCode::AccountDataTooSmall => {
            s.append("account data too small");
        }
        ReturnCode::InvalidProgramId => {
            s.append("invalid program id");
        }
    }
}

/// Appends a call type's rendering to `s`.
pub fn write_call_ty(s: &mut String, c: &CallTy)
    ensures
        final(s)@ == old(s)@ + call_ty_str(*c),
{
    match c {
        CallTy::Regular => {
            s.append("regular");
        }
        CallTy::Delegate => {
            s.append("delegate");
        }
        CallTy::Static => {
            s.append("static");
        }
    }
}

} // verus!
