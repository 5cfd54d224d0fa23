//! The canonical rendering of expressions, and the list helpers shared with
//! the instruction printer.

use vstd::prelude::*;
use vstd::string::StringExecFns;
use crate::expr::Expr;
use crate::expr::FormatSpec;
use crate::expr::Operand;
use crate::expr::StringLocation;
use crate::expr::binary_operator_str;
use crate::expr::numeral_str;
use crate::expr::operand_str;
use crate::expr::unary_operator_str;
use crate::expr::write_binary_operator;
use crate::expr::write_numeral;
use crate::expr::write_operand;
use crate::expr::write_unary_operator;
use crate::lir_type::Type;
use crate::lir_type::type_str;
use crate::lir_type::write_type;
use crate::text::dec_str;
use crate::text::hex_byte_str;
use crate::text::write_dec;
use crate::text::write_dec_usize;
use crate::text::write_hex_byte;

verus! {

broadcast use vstd::std_specs::vec::group_vec_axioms, vstd::seq::group_seq_axioms;

/// Operands separated by `, `.
pub open spec fn operand_list_str(ops: Seq<Operand>) -> Seq<char>
    decreases ops,
{
    if ops.len() == 0 {
        Seq::empty()
    } else if ops.len() == 1 {
        operand_str(ops.last())
    } else {
        operand_list_str(ops.drop_last()) + ", "@ + operand_str(ops.last())
    }
}

/// Bytes as two-digit lower-case hexadecimal, separated by `sep`.
pub open spec fn bytes_hex_str(bs: Seq<u8>, sep: Seq<char>) -> Seq<char>
    decreases bs,
{
    if bs.len() == 0 {
        Seq::empty()
    } else if bs.len() == 1 {
        hex_byte_str(bs.last())
    } else {
        bytes_hex_str(bs.drop_last(), sep) + sep + hex_byte_str(bs.last())
    }
}

/// Bytes as decimal numbers separated by `, `, as a compile-time string
/// constant's contents are rendered.
pub open spec fn bytes_dec_str(bs: Seq<u8>) -> Seq<char>
    decreases bs,
{
    if bs.len() == 0 {
        Seq::empty()
    } else if bs.len() == 1 {
        dec_str(bs.last() as nat)
    } else {
        bytes_dec_str(bs.drop_last()) + ", "@ + dec_str(bs.last() as nat)
    }
}

/// A compile-time byte constant renders as a quoted decimal byte list; a
/// runtime side renders as its operand.
pub open spec fn string_location_str(l: StringLocation) -> Seq<char> {
    match l {
        StringLocation::CompileTime(bs) => "\"["@ + bytes_dec_str(bs@) + "]\""@,
        StringLocation::RunTime(op) => operand_str(*op),
    }
}

/// One formatted argument: the operand alone for the default specifier,
/// else the specifier and the operand separated by a space.
pub open spec fn format_arg_str(spec: FormatSpec, arg: Operand) -> Seq<char> {
    match spec {
        FormatSpec::Default => operand_str(arg),
        FormatSpec::Binary => ":b "@ + operand_str(arg),
        FormatSpec::Hex => ":x "@ + operand_str(arg),
    }
}

/// Formatted arguments separated by `, `.
pub open spec fn format_args_str(args: Seq<(FormatSpec, Operand)>) -> Seq<char>
    decreases args,
{
    if args.len() == 0 {
        Seq::empty()
    } else if args.len() == 1 {
        format_arg_str(args.last().0, args.last().1)
    } else {
        format_args_str(args.drop_last()) + ", "@ + format_arg_str(args.last().0, args.last().1)
    }
}

/// Whether the printer has a defined textual form for this expression: an
/// `AllocDynamicBytes` is renderable only at a pointer type. Reaching an
/// unsupported variant is an internal-compiler-error, so the printer
/// excludes it by precondition rather than substituting a default.
pub open spec fn expr_printable(e: Expr) -> bool {
    match e {
        Expr::AllocDynamicBytes { ty, .. } => ty is Ptr,
        _ => true,
    }
}

/// The canonical rendering of an expression. This grammar is an external
/// interface: downstream tests compare it byte for byte.
pub open spec fn expr_str(e: Expr) -> Seq<char> {
    match e {
        Expr::BinaryExpr { operator, left, right } => operand_str(*left) + " "@
            + binary_operator_str(operator) + " "@ + operand_str(*right),
        Expr::UnaryExpr { operator, right } => unary_operator_str(operator) + operand_str(*right),
        Expr::Id { id } => "%"@ + dec_str(id as nat),
        Expr::ArrayLiteral { ty, values } => type_str(ty) + " ["@ + operand_list_str(values@)
            + "]"@,
        Expr::ConstArrayLiteral { ty, values } => "const "@ + type_str(ty) + " ["@
            + operand_list_str(values@) + "]"@,
        Expr::BytesLiteral { ty, value } => type_str(ty) + " hex\""@
            + bytes_hex_str(value@, "_"@) + "\""@,
        Expr::StructLiteral { values } => "struct { "@ + operand_list_str(values@) + " }"@,
        Expr::Cast { operand, to_ty } => "(cast "@ + operand_str(*operand) + " as "@
            + type_str(to_ty) + ")"@,
        Expr::BytesCast { operand, to_ty } => "(cast "@ + operand_str(*operand) + " as "@
            + type_str(to_ty) + ")"@,
        Expr::SignExt { operand, to_ty } => "(sext "@ + operand_str(*operand) + " to "@
            + type_str(to_ty) + ")"@,
        Expr::ZeroExt { operand, to_ty } => "(zext "@ + operand_str(*operand) + " to "@
            + type_str(to_ty) + ")"@,
        Expr::Trunc { operand, to_ty } => "(trunc "@ + operand_str(*operand) + " to "@
            + type_str(to_ty) + ")"@,
        Expr::AllocDynamicBytes { ty, size, initializer } => "alloc "@
            + type_str(*ty.arrow_Ptr_0()) + "["@ + operand_str(*size) + "]"@
            + match initializer {
                Option::None => Seq::<char>::empty(),
                Option::Some(bs) => " {"@ + bytes_hex_str(bs@, ", "@) + "}"@,
            },
        Expr::GetRef { operand } => "&"@ + operand_str(*operand),
        Expr::Load { operand } => "*"@ + operand_str(*operand),
        Expr::StructMember { operand, member } => operand_str(*operand) + "->"@
            + dec_str(member as nat),
        Expr::Subscript { arr, index } => operand_str(*arr) + "["@ + operand_str(*index) + "]"@,
        Expr::AdvancePointer { pointer, bytes_offset } => "ptr_add("@ + operand_str(*pointer)
            + ", "@ + operand_str(*bytes_offset) + ")"@,
        Expr::FunctionArg { arg_no } => "arg#"@ + dec_str(arg_no as nat),
        Expr::FormatString { args } => "fmt_str("@ + format_args_str(args@) + ")"@,
        Expr::InternalFunctionCfg { cfg_no } => "function#"@ + dec_str(cfg_no as nat),
        Expr::Keccak256 { args } => "keccak256("@ + operand_list_str(args@) + ")"@,
        Expr::StringCompare { left, right } => "strcmp("@ + string_location_str(left) + ", "@
            + string_location_str(right) + ")"@,
        Expr::StringConcat { left, right } => "strcat("@ + string_location_str(left) + ", "@
            + string_location_str(right) + ")"@,
        Expr::StorageArrayLength { array } => "storage_arr_len("@ + operand_str(*array) + ")"@,
        Expr::ReturnData => "(extern_call_ret_data)"@,
        Expr::NumberLiteral { value, ty } => type_str(ty) + "("@ + numeral_str(value) + ")"@,
        Expr::BoolLiteral { value } => if value {
            "true"@
        } else {
            "false"@
        },
    }
}

/// Appends operands separated by `, ` to `s`.
pub fn write_operand_list(s: &mut String, ops: &Vec<Operand>)
    ensures
        final(s)@ == old(s)@ + operand_list_str(ops@),
{
    let ghost pre = s@;
    let mut i: usize = 0;
    while i < ops.len()
        invariant
            i <= ops.len(),
            s@ == pre + operand_list_str(ops@.take(i as int)),
        decreases ops.len() - i,
    {
        if i != 0 {
            s.append(", ");
        }
        write_operand(s, &ops[i]);
        proof {
            assert(ops@.take(i as int + 1).drop_last() =~= ops@.take(i as int));
            assert(ops@.take(i as int + 1).last() == ops@[i as int]);
            assert(s@ =~= pre + operand_list_str(ops@.take(i as int + 1)));
        }
        i = i + 1;
    }
    proof {
        assert(ops@.take(ops@.len() as int) =~= ops@);
    }
}

/// Appends bytes in two-digit hexadecimal separated by `sep` to `s`.
fn write_bytes_hex(s: &mut String, bs: &Vec<u8>, sep: &str)
    ensures
        final(s)@ == old(s)@ + bytes_hex_str(bs@, sep@),
{
    let ghost pre = s@;
    let mut i: usize = 0;
    while i < bs.len()
        invariant
            i <= bs.len(),
            s@ == pre + bytes_hex_str(bs@.take(i as int), sep@),
        decreases bs.len() - i,
    {
        if i != 0 {
            s.append(sep);
        }
        write_hex_byte(s, bs[i]);
        proof {
            assert(bs@.take(i as int + 1).drop_last() =~= bs@.take(i as int));
            assert(bs@.take(i as int + 1).last() == bs@[i as int]);
            assert(s@ =~= pre + bytes_hex_str(bs@.take(i as int + 1), sep@));
        }
        i = i + 1;
    }
    proof {
        assert(bs@.take(bs@.len() as int) =~= bs@);
    }
}

/// Appends bytes in decimal separated by `, ` to `s`.
fn write_bytes_dec(s: &mut String, bs: &Vec<u8>)
    ensures
        final(s)@ == old(s)@ + bytes_dec_str(bs@),
{
    let ghost pre = s@;
    let mut i: usize = 0;
    while i < bs.len()
        invariant
            i <= bs.len(),
            s@ == pre + bytes_dec_str(bs@.take(i as int)),
        decreases bs.len() - i,
    {
        if i != 0 {
            s.append(", ");
        }
        write_dec(s, bs[i] as u128);
        proof {
            assert(bs@.take(i as int + 1).drop_last() =~= bs@.take(i as int));
            assert(bs@.take(i as int + 1).last() == bs@[i as int]);
            assert(s@ =~= pre + bytes_dec_str(bs@.take(i as int + 1)));
        }
        i = i + 1;
    }
    proof {
        assert(bs@.take(bs@.len() as int) =~= bs@);
    }
}

/// Appends one side of a string operation to `s`.
fn write_string_location(s: &mut String, l: &StringLocation)
    ensures
        final(s)@ == old(s)@ + string_location_str(*l),
{
    let ghost pre = s@;
    match l {
        StringLocation::CompileTime(bs) => {
            s.append("\"[");
            write_bytes_dec(s, bs);
            s.append("]\"");
            proof {
                assert(s@ =~= pre + string_location_str(*l));
            }
        }
        StringLocation::RunTime(op) => {
            write_operand(s, op);
        }
    }
}

/// Appends formatted arguments separated by `, ` to `s`.
fn write_format_args(s: &mut String, args: &Vec<(FormatSpec, Operand)>)
    ensures
        final(s)@ == old(s)@ + format_args_str(args@),
{
    let ghost pre = s@;
    let mut i: usize = 0;
    while i < args.len()
        invariant
            i <= args.len(),
            s@ == pre + format_args_str(args@.take(i as int)),
        decreases args.len() - i,
    {
        if i != 0 {
            s.append(", ");
        }
        let ghost mid = s@;
        match &args[i].0 {
            FormatSpec::Default => {}
            FormatSpec::Binary => {
                s.append(":b ");
            }
            FormatSpec::Hex => {
                s.append(":x ");
            }
        }
        write_operand(s, &args[i].1);
        proof {
            assert(s@ =~= mid + format_arg_str(args@[i as int].0, args@[i as int].1));
            assert(args@.take(i as int + 1).drop_last() =~= args@.take(i as int));
            assert(args@.take(i as int + 1).last() == args@[i as int]);
            assert(s@ =~= pre + format_args_str(args@.take(i as int + 1)));
        }
        i = i + 1;
    }
    proof {
        assert(args@.take(args@.len() as int) =~= args@);
    }
}

/// Appends an expression's canonical rendering to `s`.
#[verifier::rlimit(100)]
pub fn write_expr(s: &mut String, e: &Expr)
    requires
        expr_printable(*e),
    ensures
        final(s)@ == old(s)@ + expr_str(*e),
{
    let ghost pre = s@;
    match e {
        Expr::BinaryExpr { operator, left, right } => {
            write_operand(s, left);
            s.append(" ");
            write_binary_operator(s, operator);
            s.append(" ");
            write_operand(s, right);
            proof {
                assert(s@ =~= pre + expr_str(*e));
            }
        }
        Expr::UnaryExpr { operator, right } => {
            write_unary_operator(s, operator);
            write_operand(s, right);
            proof {
                assert(s@ =~= pre + expr_str(*e));
            }
        }
        Expr::Id { id } => {
            s.append("%");
            write_dec_usize(s, *id);
            proof {
                assert(s@ =~= pre + expr_str(*e));
            }
        }
        Expr::ArrayLiteral { ty, values } => {
            write_type(s, ty);
            s.append(" [");
            write_operand_list(s, values);
            s.append("]");
            proof {
                assert(s@ =~= pre + expr_str(*e));
            }
        }
        Expr::ConstArrayLiteral { ty, values } => {
            s.append("const ");
            write_type(s, ty);
            s.append(" [");
            write_operand_list(s, values);
            s.append("]");
            proof {
                assert(s@ =~= pre + expr_str(*e));
            }
        }
        Expr::BytesLiteral { ty, value } => {
            write_type(s, ty);
            s.append(" hex\"");
            write_bytes_hex(s, value, "_");
            s.append("\"");
            proof {
                assert(s@ =~= pre + expr_str(*e));
            }
        }
        Expr::StructLiteral { values } => {
            s.append("struct { ");
            write_operand_list(s, values);
            s.append(" }");
            proof {
                assert(s@ =~= pre + expr_str(*e));
            }
        }
        Expr::Cast { operand, to_ty } => {
            s.append("(cast ");
            write_operand(s, operand);
            s.append(" as ");
            write_type(s, to_ty);
            s.append(")");
            proof {
                assert(s@ =~= pre + expr_str(*e));
            }
        }
        Expr::BytesCast { operand, to_ty } => {
            s.append("(cast ");
            write_operand(s, operand);
            s.append(" as ");
            write_type(s, to_ty);
            s.append(")");
            proof {
                assert(s@ =~= pre + expr_str(*e));
            }
        }
        Expr::SignExt { operand, to_ty } => {
            s.append("(sext ");
            write_operand(s, operand);
            s.append(" to ");
            write_type(s, to_ty);
            s.append(")");
            proof {
                assert(s@ =~= pre + expr_str(*e));
            }
        }
        Expr::ZeroExt { operand, to_ty } => {
            s.append("(zext ");
            write_operand(s, operand);
            s.append(" to ");
            write_type(s, to_ty);
            s.append(")");
            proof {
                assert(s@ =~= pre + expr_str(*e));
            }
        }
        Expr::Trunc { operand, to_ty } => {
            s.append("(trunc ");
            write_operand(s, operand);
            s.append(" to ");
            write_type(s, to_ty);
            s.append(")");
            proof {
                assert(s@ =~= pre + expr_str(*e));
            }
        }
        Expr::AllocDynamicBytes { ty, size, initializer } => {
            s.append("alloc ");
            match ty {
                Type::Ptr(inner) => {
                    write_type(s, inner);
                }
                _ => {
                    proof {
                        assert(false);
                    }
                }
            }
            s.append("[");
            write_operand(s, size);
            s.append("]");
            match initializer {
                Option::None => {}
                Option::Some(bs) => {
                    s.append(" {");
                    write_bytes_hex(s, bs, ", ");
                    s.append("}");
                }
            }
            proof {
                assert(s@ =~= pre + expr_str(*e));
            }
        }
        Expr::GetRef { operand } => {
            s.append("&");
            write_operand(s, operand);
            proof {
                assert(s@ =~= pre + expr_str(*e));
            }
        }
        Expr::Load { operand } => {
            s.append("*");
            write_operand(s, operand);
            proof {
                assert(s@ =~= pre + expr_str(*e));
            }
        }
        Expr::StructMember { operand, member } => {
            write_operand(s, operand);
            s.append("->");
            write_dec_usize(s, *member);
            proof {
                assert(s@ =~= pre + expr_str(*e));
            }
        }
        Expr::Subscript { arr, index } => {
            write_operand(s, arr);
            s.append("[");
            write_operand(s, index);
            s.append("]");
            proof {
                assert(s@ =~= pre + expr_str(*e));
            }
        }
        Expr::AdvancePointer { pointer, bytes_offset } => {
            s.append("ptr_add(");
            write_operand(s, pointer);
            s.append(", ");
            write_operand(s, bytes_offset);
            s.append(")");
            proof {
                assert(s@ =~= pre + expr_str(*e));
            }
        }
        Expr::FunctionArg { arg_no } => {
            s.append("arg#");
            write_dec_usize(s, *arg_no);
            proof {
                assert(s@ =~= pre + expr_str(*e));
            }
        }
        Expr::FormatString { args } => {
            s.append("fmt_str(");
            write_format_args(s, args);
            s.append(")");
            proof {
                assert(s@ =~= pre + expr_str(*e));
            }
        }
        Expr::InternalFunctionCfg { cfg_no } => {
            s.append("function#");
            write_dec_usize(s, *cfg_no);
            proof {
                assert(s@ =~= pre + expr_str(*e));
            }
        }
        Expr::Keccak256 { args } => {
            s.append("keccak256(");
            write_operand_list(s, args);
            s.append(")");
            proof {
                assert(s@ =~= pre + expr_str(*e));
            }
        }
        Expr::StringCompare { left, right } => {
            s.append("strcmp(");
            write_string_location(s, left);
            s.append(", ");
            write_string_location(s, right);
            s.append(")");
            proof {
                assert(s@ =~= pre + expr_str(*e));
            }
        }
        Expr::StringConcat { left, right } => {
            s.append("strcat(");
            write_string_location(s, left);
            s.append(", ");
            write_string_location(s, right);
            s.append(")");
            proof {
                assert(s@ =~= pre + expr_str(*e));
            }
        }
        Expr::StorageArrayLength { array } => {
            s.append("storage_arr_len(");
            write_operand(s, array);
            s.append(")");
            proof {
                assert(s@ =~= pre + expr_str(*e));
            }
        }
        Expr::ReturnData => {
            s.append("(extern_call_ret_data)");
        }
        Expr::NumberLiteral { value, ty } => {
            write_type(s, ty);
            s.append("(");
            write_numeral(s, value);
            s.append(")");
            proof {
                assert(s@ =~= pre + expr_str(*e));
            }
        }
        Expr::BoolLiteral { value } => {
            if *value {
                s.append("true");
            } else {
                s.append("false");
            }
        }
    }
}

} // verus!
