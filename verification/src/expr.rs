//! The expression algebra: pure, value-producing nodes parameterized over
//! the type system, and the rendering of operands and operators.

use vstd::prelude::*;
use vstd::string::StringExecFns;
use crate::lir_type::Type;
use crate::lir_type::type_str;
use crate::lir_type::write_type;
use crate::text::dec_str;
use crate::text::write_dec;
use crate::text::write_dec_usize;

verus! {

/// An integer literal's value in sign-magnitude form. The magnitude is a
/// `u128`, so constants with magnitudes up to 2^128 - 1 are representable;
/// the widest IR integer types admit larger constants, which this
/// representation cannot hold.
#[derive(Debug, Clone, Copy, PartialEq, Eq)]
pub struct Numeral {
    pub negative: bool,
    pub magnitude: u128,
}

impl Numeral {
    pub fn new(negative: bool, magnitude: u128) -> (r: Numeral)
        ensures
            r.negative == negative,
            r.magnitude == magnitude,
    {
        Numeral { negative, magnitude }
    }
}

/// A reference to a value usable inside an expression: a variable identity,
/// an integer constant, or a boolean constant. Immutable once constructed.
#[derive(Debug)]
pub enum Operand {
    Id { id: usize },
    NumberLiteral { value: Numeral, ty: Type },
    BoolLiteral { value: bool },
}

/// Binary operators; the `overflowing` tag marks operations whose overflow
/// behavior is wrapping rather than checked, which the printer surfaces.
#[derive(Debug, Clone, Copy, PartialEq, Eq)]
pub enum BinaryOperator {
    Add { overflowing: bool },
    Sub { overflowing: bool },
    Mul { overflowing: bool },
    Pow { overflowing: bool },
    Div,
    UDiv,
    Mod,
    UMod,
    Eq,
    Neq,
    Lt,
    ULt,
    Lte,
    ULte,
    Gt,
    UGt,
    Gte,
    UGte,
    BitAnd,
    BitOr,
    BitXor,
    Shl,
    Shr,
    UShr,
}

/// Unary operators.
#[derive(Debug, Clone, Copy, PartialEq, Eq)]
pub enum UnaryOperator {
    Not,
    Neg { overflowing: bool },
    BitNot,
}

/// One side of a string comparison or concatenation: either a compile-time
/// byte constant or a runtime operand, so constant-folding opportunities are
/// visible directly in the type.
#[derive(Debug)]
pub enum StringLocation {
    CompileTime(Vec<u8>),
    RunTime(Box<Operand>),
}

/// A display-format specifier for one formatted argument.
#[derive(Debug, Clone, Copy, PartialEq, Eq)]
pub enum FormatSpec {
    Default,
    Binary,
    Hex,
}

/// A pure, side-effect-free computation producing a typed value.
#[derive(Debug)]
pub enum Expr {
    BinaryExpr { operator: BinaryOperator, left: Box<Operand>, right: Box<Operand> },
    UnaryExpr { operator: UnaryOperator, right: Box<Operand> },
    /// Read of a variable's current (sole, SSA) value.
    Id { id: usize },
    /// Runtime-constructed array literal.
    ArrayLiteral { ty: Type, values: Vec<Operand> },
    /// Fully compile-time constant array literal, placeable in read-only
    /// storage by later stages.
    ConstArrayLiteral { ty: Type, values: Vec<Operand> },
    BytesLiteral { ty: Type, value: Vec<u8> },
    StructLiteral { values: Vec<Operand> },
    /// Generic type reinterpretation.
    Cast { operand: Box<Operand>, to_ty: Type },
    /// Fixed-width-bytes to dynamic-bytes conversion (or back), which changes
    /// representation, not just bit pattern.
    BytesCast { operand: Box<Operand>, to_ty: Type },
    SignExt { operand: Box<Operand>, to_ty: Type },
    ZeroExt { operand: Box<Operand>, to_ty: Type },
    /// Integer width reduction; out-of-range values are the emitting pass's
    /// responsibility to guard, not checked at this layer.
    Trunc { operand: Box<Operand>, to_ty: Type },
    /// Allocates a dynamic buffer of the given element type and runtime size;
    /// a present initializer is a compile-time byte sequence copied into it.
    AllocDynamicBytes { ty: Type, size: Box<Operand>, initializer: Option<Vec<u8>> },
    /// Address-of.
    GetRef { operand: Box<Operand> },
    /// Dereference.
    Load { operand: Box<Operand> },
    StructMember { operand: Box<Operand>, member: usize },
    Subscript { arr: Box<Operand>, index: Box<Operand> },
    /// Raw pointer arithmetic in bytes, used for manual buffer walking.
    AdvancePointer { pointer: Box<Operand>, bytes_offset: Box<Operand> },
    /// Reference to the current function's nth parameter.
    FunctionArg { arg_no: usize },
    FormatString { args: Vec<(FormatSpec, Operand)> },
    /// Reference to another function by its compiled-unit id, usable as a
    /// first-class value.
    InternalFunctionCfg { cfg_no: usize },
    Keccak256 { args: Vec<Operand> },
    StringCompare { left: StringLocation, right: StringLocation },
    StringConcat { left: StringLocation, right: StringLocation },
    /// Reads a persistent-storage array's length without loading elements.
    StorageArrayLength { array: Box<Operand> },
    /// The data returned by the most recent external call in this context.
    ReturnData,
    NumberLiteral { value: Numeral, ty: Type },
    BoolLiteral { value: bool },
}

/// An integer literal's rendering: an optional minus sign and the decimal
/// magnitude. A negative zero renders as plain `0`.
pub open spec fn numeral_str(v: Numeral) -> Seq<char> {
    if v.negative && v.magnitude != 0 {
        "-"@ + dec_str(v.magnitude as nat)
    } else {
        dec_str(v.magnitude as nat)
    }
}

/// An operand's rendering: `%<id>` for a variable, `<ty>(<value>)` for an
/// integer constant, `true`/`false` for a boolean constant.
pub open spec fn operand_str(o: Operand) -> Seq<char> {
    match o {
        Operand::Id { id } => "%"@ + dec_str(id as nat),
        Operand::NumberLiteral { value, ty } => type_str(ty) + "("@ + numeral_str(value) + ")"@,
        Operand::BoolLiteral { value } => if value {
            "true"@
        } else {
            "false"@
        },
    }
}

/// A binary operator's symbol; overflowing (wrapping) forms carry an `(of)`
/// prefix and unsigned forms of signedness-sensitive operators a `(u)` prefix.
pub open spec fn binary_operator_str(op: BinaryOperator) -> Seq<char> {
    match op {
        BinaryOperator::Add { overflowing } => if overflowing {
            "(of)+"@
        } else {
            "+"@
        },
        BinaryOperator::Sub { overflowing } => if overflowing {
            "(of)-"@
        } else {
            "-"@
        },
        BinaryOperator::Mul { overflowing } => if overflowing {
            "(of)*"@
        } else {
            "*"@
        },
        BinaryOperator::Pow { overflowing } => if overflowing {
            "(of)**"@
        } else {
            "**"@
        },
        BinaryOperator::Div => "/"@,
        BinaryOperator::UDiv => "(u)/"@,
        BinaryOperator::Mod => "%"@,
        BinaryOperator::UMod => "(u)%"@,
        BinaryOperator::Eq => "=="@,
        BinaryOperator::Neq => "!="@,
        BinaryOperator::Lt => "<"@,
        BinaryOperator::ULt => "(u)<"@,
        BinaryOperator::Lte => "<="@,
        BinaryOperator::ULte => "(u)<="@,
        BinaryOperator::Gt => ">"@,
        BinaryOperator::UGt => "(u)>"@,
        BinaryOperator::Gte => ">="@,
        BinaryOperator::UGte => "(u)>="@,
        BinaryOperator::BitAnd => "&"@,
        BinaryOperator::BitOr => "|"@,
        BinaryOperator::BitXor => "^"@,
        BinaryOperator::Shl => "<<"@,
        BinaryOperator::Shr => ">>"@,
        BinaryOperator::UShr => "(u)>>"@,
    }
}

/// A unary operator's symbol.
pub open spec fn unary_operator_str(op: UnaryOperator) -> Seq<char> {
    match op {
        UnaryOperator::Not => "!"@,
        UnaryOperator::Neg { overflowing } => if overflowing {
            "(of)-"@
        } else {
            "-"@
        },
        UnaryOperator::BitNot => "~"@,
    }
}

/// Appends an integer literal's rendering to `s`.
pub fn write_numeral(s: &mut String, v: &Numeral)
    ensures
        final(s)@ == old(s)@ + numeral_str(*v),
{
    let ghost pre = s@;
    if v.negative && v.magnitude != 0 {
        s.append("-");
        write_dec(s, v.magnitude);
        proof {
            assert(s@ =~= pre + numeral_str(*v));
        }
    } else {
        write_dec(s, v.magnitude);
    }
}

/// Appends an operand's rendering to `s`.
pub fn write_operand(s: &mut String, o: &Operand)
    ensures
        final(s)@ == old(s)@ + operand_str(*o),
{
    let ghost pre = s@;
    match o {
        Operand::Id { id } => {
            s.append("%");
            write_dec_usize(s, *id);
            proof {
                assert(s@ =~= pre + operand_str(*o));
            }
        }
        Operand::NumberLiteral { value, ty } => {
            write_type(s, ty);
            s.append("(");
            write_numeral(s, value);
            s.append(")");
            proof {
                assert(s@ =~= pre + operand_str(*o));
            }
        }
        Operand::BoolLiteral { value } => {
            if *value {
                s.append("true");
            } else {
                s.append("false");
            }
        }
    }
}

/// Appends a binary operator's symbol to `s`.
pub fn write_binary_operator(s: &mut String, op: &BinaryOperator)
    ensures
        final(s)@ == old(s)@ + binary_operator_str(*op),
{
    match op {
        BinaryOperator::Add { overflowing } => {
            if *overflowing {
                s.append("(of)+");
            } else {
                s.append("+");
            }
        }
        BinaryOperator::Sub { overflowing } => {
            if *overflowing {
                s.append("(of)-");
            } else {
                s.append("-");
            }
        }
        BinaryOperator::Mul { overflowing } => {
            if *overflowing {
                s.append("(of)*");
            } else {
                s.append("*");
            }
        }
        BinaryOperator::Pow { overflowing } => {
            if *overflowing {
                s.append("(of)**");
            } else {
                s.append("**");
            }
        }
        BinaryOperator::Div => {
            s.append("/");
        }
        BinaryOperator::UDiv => {
            s.append("(u)/");
        }
        BinaryOperator::Mod => {
            s.append("%");
        }
        BinaryOperator::UMod => {
            s.append("(u)%");
        }
        BinaryOperator::Eq => {
            s.append("==");
        }
        BinaryOperator::Neq => {
            s.append("!=");
        }
        BinaryOperator::Lt => {
            s.append("<");
        }
        BinaryOperator::ULt => {
            s.append("(u)<");
        }
        BinaryOperator::Lte => {
            s.append("<=");
        }
        BinaryOperator::ULte => {
            s.append("(u)<=");
        }
        BinaryOperator::Gt => {
            s.append(">");
        }
        BinaryOperator::UGt => {
            s.append("(u)>");
        }
        BinaryOperator::Gte => {
            s.append(">=");
        }
        BinaryOperator::UGte => {
            s.append("(u)>=");
        }
        BinaryOperator::BitAnd => {
            s.append("&");
        }
        BinaryOperator::BitOr => {
            s.append("|");
        }
        BinaryOperator::BitXor => {
            s.append("^");
        }
        BinaryOperator::Shl => {
            s.append("<<");
        }
        BinaryOperator::Shr => {
            s.append(">>");
        }
        BinaryOperator::UShr => {
            s.append("(u)>>");
        }
    }
}

/// Appends a unary operator's symbol to `s`.
pub fn write_unary_operator(s: &mut String, op: &UnaryOperator)
    ensures
        final(s)@ == old(s)@ + unary_operator_str(*op),
{
    match op {
        UnaryOperator::Not => {
            s.append("!");
        }
        UnaryOperator::Neg { overflowing } => {
            if *overflowing {
                s.append("(of)-");
            } else {
                s.append("-");
            }
        }
        UnaryOperator::BitNot => {
            s.append("~");
        }
    }
}

} // verus!
