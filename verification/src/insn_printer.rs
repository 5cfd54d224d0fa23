//! The canonical rendering of instructions.

use vstd::prelude::*;
use vstd::string::StringExecFns;
use crate::expr::Operand;
use crate::expr::operand_str;
use crate::expr::write_operand;
use crate::expr_printer::expr_printable;
use crate::expr_printer::expr_str;
use crate::expr_printer::operand_list_str;
use crate::expr_printer::write_expr;
use crate::expr_printer::write_operand_list;
use crate::insn::CallTy;
use crate::insn::Insn;
use crate::insn::call_ty_str;
use crate::insn::return_code_str;
use crate::insn::write_call_ty;
use crate::insn::write_return_code;
use crate::lir_type::InternalCallTy;
use crate::lir_type::PhiInput;
use crate::text::dec_str;
use crate::text::write_dec_usize;

verus! {

broadcast use vstd::std_specs::vec::group_vec_axioms, vstd::seq::group_seq_axioms;

/// Result identities separated by `, `, each as `%<id>`.
pub open spec fn res_list_str(ids: Seq<usize>) -> Seq<char>
    decreases ids,
{
    if ids.len() == 0 {
        Seq::empty()
    } else if ids.len() == 1 {
        "%"@ + dec_str(ids.last() as nat)
    } else {
        res_list_str(ids.drop_last()) + ", %"@ + dec_str(ids.last() as nat)
    }
}

/// Phi inputs separated by `, `, each as `[<operand>, block#<id>]`, in the
/// order constructed.
pub open spec fn phi_inputs_str(vars: Seq<PhiInput>) -> Seq<char>
    decreases vars,
{
    if vars.len() == 0 {
        Seq::empty()
    } else if vars.len() == 1 {
        phi_input_str(vars.last())
    } else {
        phi_inputs_str(vars.drop_last()) + ", "@ + phi_input_str(vars.last())
    }
}

/// One phi input: `[<operand>, block#<id>]`.
pub open spec fn phi_input_str(v: PhiInput) -> Seq<char> {
    "["@ + operand_str(v.operand) + ", block#"@ + dec_str(v.block_no as nat) + "]"@
}

/// Switch cases separated by `, `, each as `<operand> => block#<id>`.
pub open spec fn switch_cases_str(cases: Seq<(Operand, usize)>) -> Seq<char>
    decreases cases,
{
    if cases.len() == 0 {
        Seq::empty()
    } else if cases.len() == 1 {
        operand_str(cases.last().0) + " => block#"@ + dec_str(cases.last().1 as nat)
    } else {
        switch_cases_str(cases.drop_last()) + ", "@ + operand_str(cases.last().0) + " => block#"@
            + dec_str(cases.last().1 as nat)
    }
}

/// An optional operand's slot: the operand, or `_` when absent, so every
/// slot keeps its fixed position.
pub open spec fn opt_operand_str(o: Option<Operand>) -> Seq<char> {
    match o {
        Option::Some(op) => operand_str(op),
        Option::None => "_"@,
    }
}

/// An optional labeled slot: `label:<operand>` when present, a bare `_`
/// when absent; the slot keeps its fixed position either way.
pub open spec fn labeled_opt_str(label: Seq<char>, o: Option<Operand>) -> Seq<char> {
    match o {
        Option::Some(op) => label + operand_str(op),
        Option::None => "_"@,
    }
}

/// An optional identity's slot: the decimal identity, or `_` when absent.
pub open spec fn opt_no_str(n: Option<usize>) -> Seq<char> {
    match n {
        Option::Some(i) => dec_str(i as nat),
        Option::None => "_"@,
    }
}

/// An optional success identity before ` = `: empty when absent, so the
/// surface form, not just a field, changes with its presence.
pub open spec fn success_prefix_str(n: Option<usize>) -> Seq<char> {
    match n {
        Option::Some(i) => "%"@ + dec_str(i as nat) + " = "@,
        Option::None => Seq::<char>::empty(),
    }
}

/// A callee's rendering: `function#<id>` for a direct call, the operand for
/// a runtime-computed callee, `builtin#<id>` for an intrinsic.
pub open spec fn internal_call_ty_str(c: InternalCallTy) -> Seq<char> {
    match c {
        InternalCallTy::Static { cfg_no } => "function#"@ + dec_str(cfg_no as nat),
        InternalCallTy::Dynamic(op) => operand_str(op),
        InternalCallTy::Builtin { ast_func_no } => "builtin#"@ + dec_str(ast_func_no as nat),
    }
}

/// A constructor instruction's results and callee header, through the
/// closing parenthesis and one space.
pub open spec fn constructor_head_str(
    success: Option<usize>,
    res: usize,
    constructor_no: Option<usize>,
    contract_no: usize,
) -> Seq<char> {
    "%"@ + dec_str(res as nat) + match success {
        Option::Some(s) => ", %"@ + dec_str(s as nat),
        Option::None => Seq::<char>::empty(),
    } + " = constructor(no: "@ + opt_no_str(constructor_no) + ", contract_no:"@
        + dec_str(contract_no as nat) + ") "@
}

/// A constructor instruction's salt, value and gas slots, through one
/// trailing space.
pub open spec fn constructor_opts_str(
    salt: Option<Operand>,
    value: Option<Operand>,
    gas: Operand,
) -> Seq<char> {
    labeled_opt_str("salt:"@, salt) + " "@ + labeled_opt_str("value:"@, value) + " gas:"@
        + operand_str(gas) + " "@
}

/// A constructor instruction's address, seeds, argument-buffer and accounts
/// slots, through the closing `;`.
pub open spec fn constructor_tail_str(
    address: Option<Operand>,
    seeds: Option<Operand>,
    encoded_args: Operand,
    accounts: Option<Operand>,
) -> Seq<char> {
    labeled_opt_str("address:"@, address) + " "@ + labeled_opt_str("seeds:"@, seeds)
        + " encoded-buffer:"@ + operand_str(encoded_args) + " "@
        + labeled_opt_str("accounts:"@, accounts) + ";"@
}

/// A cross-contract call's results, call type and address, through the
/// address slot.
pub open spec fn external_call_head_str(
    success: Option<usize>,
    callty: CallTy,
    address: Option<Operand>,
) -> Seq<char> {
    success_prefix_str(success) + "call_ext ["@ + call_ty_str(callty) + "] "@
        + labeled_opt_str("address:"@, address)
}

/// A cross-contract call's payload, value and gas slots.
pub open spec fn external_call_mid_str(payload: Operand, value: Operand, gas: Operand) -> Seq<
    char,
> {
    " payload:"@ + operand_str(payload) + " value:"@ + operand_str(value) + " gas:"@
        + operand_str(gas)
}

/// A cross-contract call's accounts, seeds and flags slots, through the
/// closing `;`.
pub open spec fn external_call_tail_str(
    accounts: Option<Operand>,
    seeds: Option<Operand>,
    flags: Option<Operand>,
) -> Seq<char> {
    " "@ + labeled_opt_str("accounts:"@, accounts) + " "@ + labeled_opt_str("seeds:"@, seeds)
        + " _ "@ + labeled_opt_str("flags:"@, flags) + ";"@
}

/// Whether the printer has a defined textual form for this instruction.
pub open spec fn insn_printable(i: Insn) -> bool {
    match i {
        Insn::Assign { expr, .. } => expr_printable(expr),
        _ => true,
    }
}

/// The canonical rendering of an instruction, ending in `;`. This grammar is
/// an external interface: downstream tests compare it byte for byte.
pub open spec fn insn_str(i: Insn) -> Seq<char> {
    match i {
        Insn::Nop => "nop;"@,
        Insn::Assign { res, expr } => "%"@ + dec_str(res as nat) + " = "@ + expr_str(expr) + ";"@,
        Insn::Store { dest, data } => "store "@ + operand_str(data) + " to "@ + operand_str(dest)
            + ";"@,
        Insn::PushMemory { res, array, value } => "%"@ + dec_str(res as nat) + " = push_mem %"@
            + dec_str(array as nat) + " "@ + operand_str(value) + ";"@,
        Insn::PopMemory { res, array } => "%"@ + dec_str(res as nat) + " = pop_mem %"@
            + dec_str(array as nat) + ";"@,
        Insn::Constructor {
            success,
            res,
            contract_no,
            constructor_no,
            encoded_args,
            value,
            gas,
            salt,
            address,
            seeds,
            accounts,
        } => constructor_head_str(success, res, constructor_no, contract_no)
            + constructor_opts_str(salt, value, gas)
            + constructor_tail_str(address, seeds, encoded_args, accounts),
        Insn::LoadStorage { res, storage } => "%"@ + dec_str(res as nat) + " = load_storage "@
            + operand_str(storage) + ";"@,
        Insn::ClearStorage { storage } => "clear_storage "@ + operand_str(storage) + ";"@,
        Insn::SetStorage { value, storage } => "set_storage "@ + operand_str(storage) + " "@
            + operand_str(value) + ";"@,
        Insn::SetStorageBytes { value, storage, offset } => "set_storage_bytes "@
            + operand_str(storage) + " offset:"@ + operand_str(offset) + " value:"@
            + operand_str(value) + ";"@,
        Insn::PushStorage { res, value, storage } => "%"@ + dec_str(res as nat)
            + " = push_storage "@ + operand_str(storage) + " "@ + opt_operand_str(value) + ";"@,
        Insn::PopStorage { res, storage } => match res {
            Option::Some(r) => "%"@ + dec_str(r as nat) + " = pop_storage "@
                + operand_str(storage) + ";"@,
            Option::None => "pop_storage "@ + operand_str(storage) + ";"@,
        },
        Insn::Call { res, call, args } => (if res.len() == 0 {
            Seq::<char>::empty()
        } else {
            res_list_str(res@) + " = "@
        }) + "call "@ + internal_call_ty_str(call) + "("@ + operand_list_str(args@) + ");"@,
        Insn::Print { operand } => "print "@ + operand_str(operand) + ";"@,
        Insn::MemCopy { src, dest, bytes } => "memcopy "@ + operand_str(src) + " to "@
            + operand_str(dest) + " for "@ + operand_str(bytes) + " bytes;"@,
        Insn::ExternalCall { success, address, accounts, seeds, payload, value, gas, callty, flags }
            => external_call_head_str(success, callty, address)
            + external_call_mid_str(payload, value, gas)
            + external_call_tail_str(accounts, seeds, flags),
        Insn::ValueTransfer { success, address, value } => success_prefix_str(success)
            + "transfer "@ + operand_str(value) + " to "@ + operand_str(address) + ";"@,
        Insn::SelfDestruct { recipient } => "self_destruct "@ + operand_str(recipient) + ";"@,
        Insn::EmitEvent { event_no, topics, data } => "emit event#"@ + dec_str(event_no as nat)
            + " to topics["@ + operand_list_str(topics@) + "], data: "@ + operand_str(data) + ";"@,
        Insn::WriteBuffer { buf, offset, value } => "write_buf "@ + operand_str(buf) + " offset:"@
            + operand_str(offset) + " value:"@ + operand_str(value) + ";"@,
        Insn::Branch { block } => "br block#"@ + dec_str(block as nat) + ";"@,
        Insn::BranchCond { cond, true_block, false_block } => "cbr "@ + operand_str(cond)
            + " block#"@ + dec_str(true_block as nat) + " else block#"@
            + dec_str(false_block as nat) + ";"@,
        Insn::Switch { cond, cases, default } => "switch "@ + operand_str(cond) + " cases: ["@
            + switch_cases_str(cases@) + "] default: block#"@ + dec_str(default as nat) + ";"@,
        Insn::Return { value } => "return "@ + operand_list_str(value@) + ";"@,
        Insn::ReturnData { data, data_len } => "return_data "@ + operand_str(data)
            + " of length "@ + operand_str(data_len) + ";"@,
        Insn::ReturnCode { code } => "return_code \""@ + return_code_str(code) + "\";"@,
        Insn::AssertFailure { encoded_args } => match encoded_args {
            Option::Some(op) => "assert_failure "@ + operand_str(op) + ";"@,
            Option::None => "assert_failure;"@,
        },
        Insn::Unimplemented { reachable } => if reachable {
            "unimplemented: reachable;"@
        } else {
            "unimplemented: unreachable;"@
        },
        Insn::Phi { res, vars } => "%"@ + dec_str(res as nat) + " = phi "@ + phi_inputs_str(vars@)
            + ";"@,
    }
}

/// Appends result identities separated by `, ` to `s`.
fn write_res_list(s: &mut String, ids: &Vec<usize>)
    ensures
        final(s)@ == old(s)@ + res_list_str(ids@),
{
    let ghost pre = s@;
    let mut i: usize = 0;
    while i < ids.len()
        invariant
            i <= ids.len(),
            s@ == pre + res_list_str(ids@.take(i as int)),
        decreases ids.len() - i,
    {
        if i != 0 {
            s.append(", %");
        } else {
            s.append("%");
        }
        write_dec_usize(s, ids[i]);
        proof {
            assert(ids@.take(i as int + 1).drop_last() =~= ids@.take(i as int));
            assert(ids@.take(i as int + 1).last() == ids@[i as int]);
            assert(s@ =~= pre + res_list_str(ids@.take(i as int + 1)));
        }
        i = i + 1;
    }
    proof {
        assert(ids@.take(ids@.len() as int) =~= ids@);
    }
}

/// Appends phi inputs separated by `, ` to `s`.
fn write_phi_inputs(s: &mut String, vars: &Vec<PhiInput>)
    ensures
        final(s)@ == old(s)@ + phi_inputs_str(vars@),
{
    let ghost pre = s@;
    let mut i: usize = 0;
    while i < vars.len()
        invariant
            i <= vars.len(),
            s@ == pre + phi_inputs_str(vars@.take(i as int)),
        decreases vars.len() - i,
    {
        if i != 0 {
            s.append(", ");
        }
        let ghost mid = s@;
        s.append("[");
        write_operand(s, &vars[i].operand);
        s.append(", block#");
        write_dec_usize(s, vars[i].block_no);
        s.append("]");
        proof {
            assert(s@ =~= mid + phi_input_str(vars@[i as int]));
            assert(vars@.take(i as int + 1).drop_last() =~= vars@.take(i as int));
            assert(vars@.take(i as int + 1).last() == vars@[i as int]);
            assert(s@ =~= pre + phi_inputs_str(vars@.take(i as int + 1)));
        }
        i = i + 1;
    }
    proof {
        assert(vars@.take(vars@.len() as int) =~= vars@);
    }
}

/// Appends switch cases separated by `, ` to `s`.
fn write_switch_cases(s: &mut String, cases: &Vec<(Operand, usize)>)
    ensures
        final(s)@ == old(s)@ + switch_cases_str(cases@),
{
    let ghost pre = s@;
    let mut i: usize = 0;
    while i < cases.len()
        invariant
            i <= cases.len(),
            s@ == pre + switch_cases_str(cases@.take(i as int)),
        decreases cases.len() - i,
    {
        if i != 0 {
            s.append(", ");
        }
        write_operand(s, &cases[i].0);
        s.append(" => block#");
        write_dec_usize(s, cases[i].1);
        proof {
            assert(cases@.take(i as int + 1).drop_last() =~= cases@.take(i as int));
            assert(cases@.take(i as int + 1).last() == cases@[i as int]);
            assert(s@ =~= pre + switch_cases_str(cases@.take(i as int + 1)));
        }
        i = i + 1;
    }
    proof {
        assert(cases@.take(cases@.len() as int) =~= cases@);
    }
}

/// Appends an optional labeled slot, a bare `_` when absent, to `s`.
fn write_labeled_opt(s: &mut String, label: &str, o: &Option<Operand>)
    ensures
        final(s)@ == old(s)@ + labeled_opt_str(label@, *o),
{
    let ghost pre = s@;
    match o {
        Option::Some(op) => {
            s.append(label);
            write_operand(s, op);
            proof {
                assert(s@ =~= pre + labeled_opt_str(label@, *o));
            }
        }
        Option::None => {
            s.append("_");
        }
    }
}

/// Appends an optional operand's slot, `_` when absent, to `s`.
fn write_opt_operand(s: &mut String, o: &Option<Operand>)
    ensures
        final(s)@ == old(s)@ + opt_operand_str(*o),
{
    match o {
        Option::Some(op) => {
            write_operand(s, op);
        }
        Option::None => {
            s.append("_");
        }
    }
}

/// Appends an optional success identity and ` = `, or nothing, to `s`.
fn write_success_prefix(s: &mut String, n: &Option<usize>)
    ensures
        final(s)@ == old(s)@ + success_prefix_str(*n),
{
    let ghost pre = s@;
    match n {
        Option::Some(i) => {
            s.append("%");
            write_dec_usize(s, *i);
            s.append(" = ");
            proof {
                assert(s@ =~= pre + success_prefix_str(*n));
            }
        }
        Option::None => {}
    }
}

/// Appends a callee's rendering to `s`.
fn write_internal_call_ty(s: &mut String, c: &InternalCallTy)
    ensures
        final(s)@ == old(s)@ + internal_call_ty_str(*c),
{
    let ghost pre = s@;
    match c {
        InternalCallTy::Static { cfg_no } => {
            s.append("function#");
            write_dec_usize(s, *cfg_no);
            proof {
                assert(s@ =~= pre + internal_call_ty_str(*c));
            }
        }
        InternalCallTy::Dynamic(op) => {
            write_operand(s, op);
        }
        InternalCallTy::Builtin { ast_func_no } => {
            s.append("builtin#");
            write_dec_usize(s, *ast_func_no);
            proof {
                assert(s@ =~= pre + internal_call_ty_str(*c));
            }
        }
    }
}

/// Appends a constructor instruction's rendering to `s`.
#[verifier::rlimit(100)]
#[verifier::spinoff_prover]
fn write_constructor_insn(s: &mut String, i: &Insn)
    requires
        *i is Constructor,
    ensures
        final(s)@ == old(s)@ + insn_str(*i),
{
    let ghost pre = s@;
    match i {
        Insn::Constructor {
            success,
            res,
            contract_no,
            constructor_no,
            encoded_args,
            value,
            gas,
            salt,
            address,
            seeds,
            accounts,
        } => {
            s.append("%");
            write_dec_usize(s, *res);
            match success {
                Option::Some(su) => {
                    s.append(", %");
                    write_dec_usize(s, *su);
                }
                Option::None => {}
            }
            s.append(" = constructor(no: ");
            match constructor_no {
                Option::Some(n) => {
                    write_dec_usize(s, *n);
                }
                Option::None => {
                    s.append("_");
                }
            }
            s.append(", contract_no:");
            write_dec_usize(s, *contract_no);
            s.append(") ");
            let ghost header = s@;
            proof {
                assert(header =~= pre + constructor_head_str(
                    *success,
                    *res,
                    *constructor_no,
                    *contract_no,
                ));
            }
            write_labeled_opt(s, "salt:", salt);
            s.append(" ");
            write_labeled_opt(s, "value:", value);
            s.append(" gas:");
            write_operand(s, gas);
            s.append(" ");
            let ghost opts_done = s@;
            proof {
                assert(opts_done =~= header + constructor_opts_str(*salt, *value, *gas));
            }
            write_labeled_opt(s, "address:", address);
            s.append(" ");
            write_labeled_opt(s, "seeds:", seeds);
            s.append(" encoded-buffer:");
            write_operand(s, encoded_args);
            s.append(" ");
            write_labeled_opt(s, "accounts:", accounts);
            s.append(";");
            proof {
                assert(s@ =~= opts_done + constructor_tail_str(
                    *address,
                    *seeds,
                    *encoded_args,
                    *accounts,
                ));
                assert(s@ =~= pre + insn_str(*i));
            }
        }
        _ => {
            proof {
                assert(false);
            }
        }
    }
}

/// Appends a cross-contract call instruction's rendering to `s`.
#[verifier::rlimit(100)]
fn write_external_call_insn(s: &mut String, i: &Insn)
    requires
        *i is ExternalCall,
    ensures
        final(s)@ == old(s)@ + insn_str(*i),
{
    let ghost pre = s@;
    match i {
        Insn::ExternalCall { success, address, accounts, seeds, payload, value, gas, callty, flags
        } => {
            write_success_prefix(s, success);
            s.append("call_ext [");
            write_call_ty(s, callty);
            s.append("] ");
            write_labeled_opt(s, "address:", address);
            let ghost head = s@;
            proof {
                assert(head =~= pre + external_call_head_str(*success, *callty, *address));
            }
            s.append(" payload:");
            write_operand(s, payload);
            s.append(" value:");
            write_operand(s, value);
            s.append(" gas:");
            write_operand(s, gas);
            let ghost mid = s@;
            proof {
                assert(mid =~= head + external_call_mid_str(*payload, *value, *gas));
            }
            s.append(" ");
            write_labeled_opt(s, "accounts:", accounts);
            s.append(" ");
            write_labeled_opt(s, "seeds:", seeds);
            s.append(" _ ");
            write_labeled_opt(s, "flags:", flags);
            s.append(";");
            proof {
                assert(s@ =~= mid + external_call_tail_str(*accounts, *seeds, *flags));
                assert(s@ =~= pre + insn_str(*i));
            }
        }
        _ => {
            proof {
                assert(false);
            }
        }
    }
}

/// Appends an instruction's canonical rendering to `s`.
#[verifier::rlimit(100)]
pub fn write_insn(s: &mut String, i: &Insn)
    requires
        insn_printable(*i),
    ensures
        final(s)@ == old(s)@ + insn_str(*i),
{
    let ghost pre = s@;
    match i {
        Insn::Nop => {
            s.append("nop;");
        }
        Insn::Assign { res, expr } => {
            s.append("%");
            write_dec_usize(s, *res);
            s.append(" = ");
            write_expr(s, expr);
            s.append(";");
            proof {
                assert(s@ =~= pre + insn_str(*i));
            }
        }
        Insn::Store { dest, data } => {
            s.append("store ");
            write_operand(s, data);
            s.append(" to ");
            write_operand(s, dest);
            s.append(";");
            proof {
                assert(s@ =~= pre + insn_str(*i));
            }
        }
        Insn::PushMemory { res, array, value } => {
            s.append("%");
            write_dec_usize(s, *res);
            s.append(" = push_mem %");
            write_dec_usize(s, *array);
            s.append(" ");
            write_operand(s, value);
            s.append(";");
            proof {
                assert(s@ =~= pre + insn_str(*i));
            }
        }
        Insn::PopMemory { res, array } => {
            s.append("%");
            write_dec_usize(s, *res);
            s.append(" = pop_mem %");
            write_dec_usize(s, *array);
            s.append(";");
            proof {
                assert(s@ =~= pre + insn_str(*i));
            }
        }
        Insn::Constructor { .. } => {
            write_constructor_insn(s, i);
        }
        Insn::LoadStorage { res, storage } => {
            s.append("%");
            write_dec_usize(s, *res);
            s.append(" = load_storage ");
            write_operand(s, storage);
            s.append(";");
            proof {
                assert(s@ =~= pre + insn_str(*i));
            }
        }
        Insn::ClearStorage { storage } => {
            s.append("clear_storage ");
            write_operand(s, storage);
            s.append(";");
            proof {
                assert(s@ =~= pre + insn_str(*i));
            }
        }
        Insn::SetStorage { value, storage } => {
            s.append("set_storage ");
            write_operand(s, storage);
            s.append(" ");
            write_operand(s, value);
            s.append(";");
            proof {
                assert(s@ =~= pre + insn_str(*i));
            }
        }
        Insn::SetStorageBytes { value, storage, offset } => {
            s.append("set_storage_bytes ");
            write_operand(s, storage);
            s.append(" offset:");
            write_operand(s, offset);
            s.append(" value:");
            write_operand(s, value);
            s.append(";");
            proof {
                assert(s@ =~= pre + insn_str(*i));
            }
        }
        Insn::PushStorage { res, value, storage } => {
            s.append("%");
            write_dec_usize(s, *res);
            s.append(" = push_storage ");
            write_operand(s, storage);
            s.append(" ");
            write_opt_operand(s, value);
            s.append(";");
            proof {
                assert(s@ =~= pre + insn_str(*i));
            }
        }
        Insn::PopStorage { res, storage } => {
            match res {
                Option::Some(r) => {
                    s.append("%");
                    write_dec_usize(s, *r);
                    s.append(" = pop_storage ");
                }
                Option::None => {
                    s.append("pop_storage ");
                }
            }
            write_operand(s, storage);
            s.append(";");
            proof {
                assert(s@ =~= pre + insn_str(*i));
            }
        }
        Insn::Call { res, call, args } => {
            if res.len() > 0 {
                write_res_list(s, res);
                s.append(" = ");
            }
            s.append("call ");
            write_internal_call_ty(s, call);
            s.append("(");
            write_operand_list(s, args);
            s.append(");");
            proof {
                assert(s@ =~= pre + insn_str(*i));
            }
        }
        Insn::Print { operand } => {
            s.append("print ");
            write_operand(s, operand);
            s.append(";");
            proof {
                assert(s@ =~= pre + insn_str(*i));
            }
        }
        Insn::MemCopy { src, dest, bytes } => {
            s.append("memcopy ");
            write_operand(s, src);
            s.append(" to ");
            write_operand(s, dest);
            s.append(" for ");
            write_operand(s, bytes);
            s.append(" bytes;");
            proof {
                assert(s@ =~= pre + insn_str(*i));
            }
        }
        Insn::ExternalCall { .. } => {
            write_external_call_insn(s, i);
        }
        Insn::ValueTransfer { success, address, value } => {
            write_success_prefix(s, success);
            s.append("transfer ");
            write_operand(s, value);
            s.append(" to ");
            write_operand(s, address);
            s.append(";");
            proof {
                assert(s@ =~= pre + insn_str(*i));
            }
        }
        Insn::SelfDestruct { recipient } => {
            s.append("self_destruct ");
            write_operand(s, recipient);
            s.append(";");
            proof {
                assert(s@ =~= pre + insn_str(*i));
            }
        }
        Insn::EmitEvent { event_no, topics, data } => {
            s.append("emit event#");
            write_dec_usize(s, *event_no);
            s.append(" to topics[");
            write_operand_list(s, topics);
            s.append("], data: ");
            write_operand(s, data);
            s.append(";");
            proof {
                assert(s@ =~= pre + insn_str(*i));
            }
        }
        Insn::WriteBuffer { buf, offset, value } => {
            s.append("write_buf ");
            write_operand(s, buf);
            s.append(" offset:");
            write_operand(s, offset);
            s.append(" value:");
            write_operand(s, value);
            s.append(";");
            proof {
                assert(s@ =~= pre + insn_str(*i));
            }
        }
        Insn::Branch { block } => {
            s.append("br block#");
            write_dec_usize(s, *block);
            s.append(";");
            proof {
                assert(s@ =~= pre + insn_str(*i));
            }
        }
        Insn::BranchCond { cond, true_block, false_block } => {
            s.append("cbr ");
            write_operand(s, cond);
            s.append(" block#");
            write_dec_usize(s, *true_block);
            s.append(" else block#");
            write_dec_usize(s, *false_block);
            s.append(";");
            proof {
                assert(s@ =~= pre + insn_str(*i));
            }
        }
        Insn::Switch { cond, cases, default } => {
            s.append("switch ");
            write_operand(s, cond);
            s.append(" cases: [");
            write_switch_cases(s, cases);
            s.append("] default: block#");
            write_dec_usize(s, *default);
            s.append(";");
            proof {
                assert(s@ =~= pre + insn_str(*i));
            }
        }
        Insn::Return { value } => {
            s.append("return ");
            write_operand_list(s, value);
            s.append(";");
            proof {
                assert(s@ =~= pre + insn_str(*i));
            }
        }
        Insn::ReturnData { data, data_len } => {
            s.append("return_data ");
            write_operand(s, data);
            s.append(" of length ");
            write_operand(s, data_len);
            s.append(";");
            proof {
                assert(s@ =~= pre + insn_str(*i));
            }
        }
        Insn::ReturnCode { code } => {
            s.append("return_code \"");
            write_return_code(s, code);
            s.append("\";");
            proof {
                assert(s@ =~= pre + insn_str(*i));
            }
        }
        Insn::AssertFailure { encoded_args } => {
            match encoded_args {
                Option::Some(op) => {
                    s.append("assert_failure ");
                    write_operand(s, op);
                    s.append(";");
                }
                Option::None => {
                    s.append("assert_failure;");
                }
            }
            proof {
                assert(s@ =~= pre + insn_str(*i));
            }
        }
        Insn::Unimplemented { reachable } => {
            if *reachable {
                s.append("unimplemented: reachable;");
            } else {
                s.append("unimplemented: unreachable;");
            }
        }
        Insn::Phi { res, vars } => {
            s.append("%");
            write_dec_usize(s, *res);
            s.append(" = phi ");
            write_phi_inputs(s, vars);
            s.append(";");
            proof {
                assert(s@ =~= pre + insn_str(*i));
            }
        }
    }
}

} // verus!
