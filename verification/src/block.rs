//! Basic blocks and a function's IR: block well-formedness (phis first,
//! then plain instructions, then exactly one terminator) and static single
//! assignment (at most one instruction defines any variable identity).

use vstd::prelude::*;
use crate::insn::Insn;

verus! {

broadcast use vstd::std_specs::vec::group_vec_axioms, vstd::seq::group_seq_axioms;

/// An ordered sequence of instructions, referenced by its index in the
/// enclosing function's block list.
#[derive(Debug)]
pub struct Block {
    pub instructions: Vec<Insn>,
}

/// A function's IR: its basic blocks and the index of the entry block.
/// Phi inputs and branch targets reference blocks by index, never by
/// structural links, so the block graph holds no cycles of ownership.
#[derive(Debug)]
pub struct FunctionIr {
    pub blocks: Vec<Block>,
    pub entry_block: usize,
}

/// Whether this instruction is a phi pseudo-instruction.
pub open spec fn is_phi_insn(i: Insn) -> bool {
    i is Phi
}

/// Whether this instruction ends a block and determines its successors:
/// a branch, conditional branch, switch, return, or abnormal exit.
pub open spec fn is_terminator_insn(i: Insn) -> bool {
    ||| i is Branch
    ||| i is BranchCond
    ||| i is Switch
    ||| i is Return
    ||| i is ReturnData
    ||| i is ReturnCode
    ||| i is AssertFailure
    ||| i is Unimplemented
}

/// Block well-formedness: read in order, the instructions are zero or more
/// phis, then zero or more non-terminators, then exactly one terminator.
pub open spec fn block_well_formed(b: Block) -> bool {
    &&& b.instructions@.len() >= 1
    &&& is_terminator_insn(b.instructions@.last())
    &&& forall|i: int|
        0 <= i < b.instructions@.len() - 1 ==> !is_terminator_insn(#[trigger] b.instructions@[i])
    &&& forall|i: int, j: int|
        0 <= i <= j < b.instructions@.len() && is_phi_insn(#[trigger] b.instructions@[j])
            ==> is_phi_insn(#[trigger] b.instructions@[i])
}

/// The variable identities that one instruction defines, in slot order:
/// an assignment's or phi's result, a call's results, and the optional
/// success or popped-value identities.
pub open spec fn insn_defs(i: Insn) -> Seq<usize> {
    match i {
        Insn::Assign { res, .. } => seq![res],
        Insn::PushMemory { res, .. } => seq![res],
        Insn::PopMemory { res, .. } => seq![res],
        Insn::Constructor { success, res, .. } => seq![res] + opt_id_seq(success),
        Insn::LoadStorage { res, .. } => seq![res],
        Insn::PushStorage { res, .. } => seq![res],
        Insn::PopStorage { res, .. } => opt_id_seq(res),
        Insn::Call { res, .. } => res@,
        Insn::ExternalCall { success, .. } => opt_id_seq(success),
        Insn::ValueTransfer { success, .. } => opt_id_seq(success),
        Insn::Phi { res, .. } => seq![res],
        _ => Seq::empty(),
    }
}

/// An optional identity as a sequence of zero or one identities.
pub open spec fn opt_id_seq(o: Option<usize>) -> Seq<usize> {
    match o {
        Option::Some(i) => seq![i],
        Option::None => Seq::empty(),
    }
}

/// The identities defined by a sequence of instructions, in order.
pub open spec fn insns_defs(s: Seq<Insn>) -> Seq<usize>
    decreases s,
{
    if s.len() == 0 {
        Seq::empty()
    } else {
        insns_defs(s.drop_last()) + insn_defs(s.last())
    }
}

/// The identities defined by a sequence of blocks, in order.
pub open spec fn blocks_defs(bs: Seq<Block>) -> Seq<usize>
    decreases bs,
{
    if bs.len() == 0 {
        Seq::empty()
    } else {
        blocks_defs(bs.drop_last()) + insns_defs(bs.last().instructions@)
    }
}

/// Every identity defined anywhere in a function, in block and then
/// instruction order.
pub open spec fn func_defs(f: FunctionIr) -> Seq<usize> {
    blocks_defs(f.blocks@)
}

/// No identity occurs twice in a sequence.
pub open spec fn seq_distinct(s: Seq<usize>) -> bool {
    forall|i: int, j: int| 0 <= i < j < s.len() ==> s[i] != s[j]
}

/// Static single assignment: no variable identity is defined by two
/// instruction slots anywhere in the function.
pub open spec fn ssa_unique(f: FunctionIr) -> bool {
    seq_distinct(func_defs(f))
}

impl Insn {
    /// Whether this instruction is a phi pseudo-instruction.
    pub fn is_phi(&self) -> (r: bool)
        ensures
            r == is_phi_insn(*self),
    {
        match self {
            Insn::Phi { .. } => true,
            _ => false,
        }
    }

    /// Whether this instruction is a block terminator.
    pub fn is_terminator(&self) -> (r: bool)
        ensures
            r == is_terminator_insn(*self),
    {
        match self {
            Insn::Branch { .. } => true,
            Insn::BranchCond { .. } => true,
            Insn::Switch { .. } => true,
            Insn::Return { .. } => true,
            Insn::ReturnData { .. } => true,
            Insn::ReturnCode { .. } => true,
            Insn::AssertFailure { .. } => true,
            Insn::Unimplemented { .. } => true,
            _ => false,
        }
    }

    /// The identities this instruction defines, in slot order.
    pub fn defined_ids(&self) -> (r: Vec<usize>)
        ensures
            r@ == insn_defs(*self),
    {
        let mut r: Vec<usize> = Vec::new();
        match self {
            Insn::Assign { res, .. } => {
                r.push(*res);
            }
            Insn::PushMemory { res, .. } => {
                r.push(*res);
            }
            Insn::PopMemory { res, .. } => {
                r.push(*res);
            }
            Insn::Constructor { success, res, .. } => {
                r.push(*res);
                match success {
                    Option::Some(s) => {
                        r.push(*s);
                    }
                    Option::None => {}
                }
            }
            Insn::LoadStorage { res, .. } => {
                r.push(*res);
            }
            Insn::PushStorage { res, .. } => {
                r.push(*res);
            }
            Insn::PopStorage { res, .. } => {
                match res {
                    Option::Some(i) => {
                        r.push(*i);
                    }
                    Option::None => {}
                }
            }
            Insn::Call { res, .. } => {
                let mut i: usize = 0;
                while i < res.len()
                    invariant
                        i <= res.len(),
                        r@ == res@.take(i as int),
                    decreases res.len() - i,
                {
                    r.push(res[i]);
                    proof {
                        assert(r@ =~= res@.take(i as int + 1));
                    }
                    i = i + 1;
                }
                proof {
                    assert(r@ =~= res@);
                }
            }
            Insn::ExternalCall { success, .. } => {
                match success {
                    Option::Some(s) => {
                        r.push(*s);
                    }
                    Option::None => {}
                }
            }
            Insn::ValueTransfer { success, .. } => {
                match success {
                    Option::Some(s) => {
                        r.push(*s);
                    }
                    Option::None => {}
                }
            }
            Insn::Phi { res, .. } => {
                r.push(*res);
            }
            _ => {}
        }
        proof {
            assert(r@ =~= insn_defs(*self));
        }
        r
    }
}

impl Block {
    /// Decides block well-formedness: phis (if any) first, then
    /// non-terminators, then exactly one terminator.
    pub fn is_well_formed(&self) -> (r: bool)
        ensures
            r == block_well_formed(*self),
    {
        let n = self.instructions.len();
        if n == 0 {
            return false;
        }
        if !self.instructions[n - 1].is_terminator() {
            return false;
        }
        let mut i: usize = 0;
        while i < n - 1
            invariant
                n == self.instructions@.len(),
                n >= 1,
                i <= n - 1,
                forall|k: int|
                    0 <= k < i ==> !is_terminator_insn(#[trigger] self.instructions@[k]),
            decreases n - 1 - i,
        {
            if self.instructions[i].is_terminator() {
                return false;
            }
            i = i + 1;
        }
        let mut seen_non_phi = false;
        let mut j: usize = 0;
        while j < n
            invariant
                n == self.instructions@.len(),
                j <= n,
                seen_non_phi == exists|k: int|
                    0 <= k < j && !is_phi_insn(#[trigger] self.instructions@[k]),
                forall|a: int, b: int|
                    0 <= a <= b < j && is_phi_insn(#[trigger] self.instructions@[b])
                        ==> is_phi_insn(#[trigger] self.instructions@[a]),
            decreases n - j,
        {
            if self.instructions[j].is_phi() {
                if seen_non_phi {
                    proof {
                        let k = choose|k: int|
                            0 <= k < j && !is_phi_insn(#[trigger] self.instructions@[k]);
                        assert(!block_well_formed(*self)) by {
                            assert(0 <= k <= j < self.instructions@.len());
                            assert(is_phi_insn(self.instructions@[j as int]));
                            assert(!is_phi_insn(self.instructions@[k]));
                        }
                    }
                    return false;
                }
            } else {
                seen_non_phi = true;
            }
            j = j + 1;
        }
        true
    }
}

impl FunctionIr {
    /// Every identity defined in the function, in block and then
    /// instruction order.
    pub fn defined_ids(&self) -> (r: Vec<usize>)
        ensures
            r@ == func_defs(*self),
    {
        let mut r: Vec<usize> = Vec::new();
        let mut b: usize = 0;
        while b < self.blocks.len()
            invariant
                b <= self.blocks.len(),
                r@ == blocks_defs(self.blocks@.take(b as int)),
            decreases self.blocks.len() - b,
        {
            let insns = &self.blocks[b].instructions;
            let ghost block_pre = r@;
            let mut i: usize = 0;
            while i < insns.len()
                invariant
                    i <= insns.len(),
                    insns == &self.blocks@[b as int].instructions,
                    r@ == block_pre + insns_defs(insns@.take(i as int)),
                decreases insns.len() - i,
            {
                let mut defs = insns[i].defined_ids();
                r.append(&mut defs);
                proof {
                    assert(insns@.take(i as int + 1).drop_last() =~= insns@.take(i as int));
                    assert(insns@.take(i as int + 1).last() == insns@[i as int]);
                    assert(r@ =~= block_pre + insns_defs(insns@.take(i as int + 1)));
                }
                i = i + 1;
            }
            proof {
                assert(insns@.take(insns@.len() as int) =~= insns@);
                assert(self.blocks@.take(b as int + 1).drop_last() =~= self.blocks@.take(b as int));
                assert(self.blocks@.take(b as int + 1).last() == self.blocks@[b as int]);
                assert(r@ =~= blocks_defs(self.blocks@.take(b as int + 1)));
            }
            b = b + 1;
        }
        proof {
            assert(self.blocks@.take(self.blocks@.len() as int) =~= self.blocks@);
        }
        r
    }

    /// Decides static single assignment: no identity is defined twice.
    pub fn is_ssa_unique(&self) -> (r: bool)
        ensures
            r == ssa_unique(*self),
    {
        let defs = self.defined_ids();
        let mut i: usize = 0;
        while i < defs.len()
            invariant
                i <= defs.len(),
                defs@ == func_defs(*self),
                forall|a: int, b: int| 0 <= a < b < i ==> defs@[a] != defs@[b],
            decreases defs.len() - i,
        {
            let mut j: usize = 0;
            while j < i
                invariant
                    j <= i < defs.len(),
                    defs@ == func_defs(*self),
                    forall|a: int, b: int| 0 <= a < b < i ==> defs@[a] != defs@[b],
                    forall|a: int| 0 <= a < j ==> defs@[a] != defs@[i as int],
                decreases i - j,
            {
                if defs[j] == defs[i] {
                    return false;
                }
                j = j + 1;
            }
            i = i + 1;
        }
        true
    }
}

/// Block well-formedness gives the exact shape: the one terminator stands
/// at the end and nowhere else, and the phis form a prefix.
pub proof fn lemma_block_shape(b: Block)
    requires
        block_well_formed(b),
    ensures
        forall|i: int|
            0 <= i < b.instructions@.len()
                ==> (is_terminator_insn(#[trigger] b.instructions@[i])
                <==> i == b.instructions@.len() - 1),
        forall|i: int, j: int|
            0 <= i <= j < b.instructions@.len() && is_phi_insn(#[trigger] b.instructions@[j])
                ==> is_phi_insn(#[trigger] b.instructions@[i]),
{
}

/// Static single assignment, stated per variable: under `ssa_unique`, any
/// two defining slots that bind the same identity are the same slot, so at
/// most one instruction defines each variable.
pub proof fn lemma_at_most_one_def(f: FunctionIr, v: usize, i: int, j: int)
    requires
        ssa_unique(f),
        0 <= i < func_defs(f).len(),
        0 <= j < func_defs(f).len(),
        func_defs(f)[i] == v,
        func_defs(f)[j] == v,
    ensures
        i == j,
{
}

} // verus!
