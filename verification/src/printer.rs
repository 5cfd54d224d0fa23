//! The canonical printer: a pure rendering of any type, expression or
//! instruction, used for snapshot-style verification and human inspection.

use vstd::prelude::*;
use crate::expr::Expr;
use crate::expr::Operand;
use crate::expr::operand_str;
use crate::expr::write_operand;
use crate::expr_printer::expr_printable;
use crate::expr_printer::expr_str;
use crate::expr_printer::write_expr;
use crate::insn::Insn;
use crate::insn_printer::insn_printable;
use crate::insn_printer::insn_str;
use crate::insn_printer::write_insn;
use crate::lir_type::Type;
use crate::lir_type::type_str;
use crate::lir_type::write_type;
use crate::vartable::Vartable;

verus! {

/// Renders IR fragments to their canonical text. The printer carries the
/// function's variable table, the only context a rendering may consult: a
/// variable reference always renders as `%<identity>`, so the produced text
/// depends on nothing but the value printed.
pub struct Printer {
    pub vartable: Vartable,
}

impl Printer {
    pub fn new(vartable: Vartable) -> (r: Printer)
        ensures
            r.vartable == vartable,
    {
        Printer { vartable }
    }

    /// The canonical text of an operand.
    pub fn print_operand(&self, op: &Operand) -> (r: String)
        ensures
            r@ == operand_str(*op),
    {
        let mut s = String::new();
        write_operand(&mut s, op);
        proof {
            assert(s@ =~= operand_str(*op));
        }
        s
    }

    /// The canonical text of a type.
    pub fn print_ty(&self, ty: &Type) -> (r: String)
        ensures
            r@ == type_str(*ty),
    {
        let mut s = String::new();
        write_type(&mut s, ty);
        proof {
            assert(s@ =~= type_str(*ty));
        }
        s
    }

    /// The canonical text of an expression. Printing a variant with no
    /// defined form is an internal-compiler-error, excluded by precondition;
    /// `Expr::is_printable` decides it.
    pub fn print_expr(&self, expr: &Expr) -> (r: String)
        requires
            expr_printable(*expr),
        ensures
            r@ == expr_str(*expr),
    {
        let mut s = String::new();
        write_expr(&mut s, expr);
        proof {
            assert(s@ =~= expr_str(*expr));
        }
        s
    }

    /// The canonical text of an instruction, ending in `;`.
    pub fn print_insn(&self, insn: &Insn) -> (r: String)
        requires
            insn_printable(*insn),
        ensures
            r@ == insn_str(*insn),
    {
        let mut s = String::new();
        write_insn(&mut s, insn);
        proof {
            assert(s@ =~= insn_str(*insn));
        }
        s
    }
}

impl Expr {
    /// Whether the printer has a defined textual form for this expression.
    pub fn is_printable(&self) -> (r: bool)
        ensures
            r == expr_printable(*self),
    {
        match self {
            Expr::AllocDynamicBytes { ty, .. } => match ty {
                Type::Ptr(_) => true,
                _ => false,
            },
            _ => true,
        }
    }
}

impl Insn {
    /// Whether the printer has a defined textual form for this instruction.
    pub fn is_printable(&self) -> (r: bool)
        ensures
            r == insn_printable(*self),
    {
        match self {
            Insn::Assign { expr, .. } => expr.is_printable(),
            _ => true,
        }
    }
}

/// Printer determinism: an expression's rendering is a function of the
/// expression value alone, so printing the same value twice yields
/// identical text.
pub proof fn lemma_print_expr_deterministic(e1: Expr, e2: Expr)
    requires
        e1 == e2,
    ensures
        expr_str(e1) == expr_str(e2),
{
}

/// Printer determinism: an instruction's rendering is a function of the
/// instruction value alone, so printing the same value twice yields
/// identical text.
pub proof fn lemma_print_insn_deterministic(i1: Insn, i2: Insn)
    requires
        i1 == i2,
    ensures
        insn_str(i1) == insn_str(i2),
{
}

/// Printer determinism for types.
pub proof fn lemma_print_ty_deterministic(t1: Type, t2: Type)
    requires
        t1 == t2,
    ensures
        type_str(t1) == type_str(t2),
{
}

} // verus!
