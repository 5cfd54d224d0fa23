//! The low-level type system the IR's values are typed with, and its
//! canonical text rendering.

use vstd::prelude::*;
use vstd::string::StringExecFns;
use crate::expr::Operand;
use crate::text::dec_str;
use crate::text::write_dec;
use crate::text::write_dec_usize;

verus! {

broadcast use vstd::std_specs::vec::group_vec_axioms, vstd::seq::group_seq_axioms;

/// One dimension of an array type: a fixed length (held as a `u128`, so
/// bounded by 2^128 - 1), a length stored alongside the data, or a fixed
/// but unspecified length used in generic contexts.
#[derive(Debug, Clone, Copy, PartialEq, Eq)]
pub enum ArrayLength {
    Fixed(u128),
    Dynamic,
    AnyFixed,
}

/// A struct layout reference, extended with a Vector type: the lower-level
/// representation shared by source strings and dynamic byte arrays.
#[derive(Debug, PartialEq, Eq)]
pub enum StructType {
    UserDefined(usize),
    SolAccountInfo,
    SolAccountMeta,
    SolParameters,
    ExternalFunction,
    /// Vector represents a length-prefixed buffer of its element type.
    Vector(Box<Type>),
}

/// The closed set of machine-representable types. Integer widths and pointer
/// sizes are target-platform parameters, fixed once per compilation unit.
#[derive(Debug, PartialEq, Eq)]
pub enum Type {
    Bool,
    /// Signed integer of an explicit bit width.
    Int(u16),
    /// Unsigned integer of an explicit bit width.
    Uint(u16),
    /// Fixed-width byte sequence.
    Bytes(u8),
    /// Pointer to a value in a generic address space.
    Ptr(Box<Type>),
    /// Pointer into persistent storage; true marks a write-once location.
    StoragePtr(bool, Box<Type>),
    /// First-class function signature.
    Function { params: Vec<Type>, rets: Vec<Type> },
    /// Associative storage type; mappings exist solely in persistent storage.
    Mapping { key_ty: Box<Type>, value_ty: Box<Type> },
    /// Possibly multi-dimensional array.
    Array(Box<Type>, Vec<ArrayLength>),
    /// Reference to a structure layout.
    Struct(StructType),
    /// Fat reference: address of data plus an accompanying length.
    Slice(Box<Type>),
}

/// How a call instruction resolves its callee: direct, computed at runtime,
/// or a compiler intrinsic.
#[derive(Debug)]
pub enum InternalCallTy {
    Static { cfg_no: usize },
    Dynamic(Operand),
    Builtin { ast_func_no: usize },
}

/// One phi-merge input: if control reaches the current block via
/// `block_no`, the merged value equals `operand`.
#[derive(Debug)]
pub struct PhiInput {
    pub operand: Operand,
    pub block_no: usize,
}

impl PhiInput {
    pub fn new(operand: Operand, block_no: usize) -> (r: PhiInput)
        ensures
            r.operand == operand,
            r.block_no == block_no,
    {
        Self { operand, block_no }
    }
}

/// One array dimension's rendering: `[n]`, `[]` or `[?]`.
pub open spec fn array_length_str(l: ArrayLength) -> Seq<char> {
    match l {
        ArrayLength::Fixed(n) => "["@ + dec_str(n as nat) + "]"@,
        ArrayLength::Dynamic => "[]"@,
        ArrayLength::AnyFixed => "[?]"@,
    }
}

/// A sequence of array dimensions, rendered outer to inner.
pub open spec fn dims_str(ds: Seq<ArrayLength>) -> Seq<char>
    decreases ds.len(),
{
    if ds.len() == 0 {
        Seq::empty()
    } else {
        dims_str(ds.drop_last()) + array_length_str(ds.last())
    }
}

/// A struct layout reference's rendering: its tag, or `vector<T>`.
pub open spec fn struct_type_str(st: StructType) -> Seq<char>
    decreases st,
{
    match st {
        StructType::UserDefined(i) => dec_str(i as nat),
        StructType::SolAccountInfo => "SolAccountInfo"@,
        StructType::SolAccountMeta => "SolAccountMeta"@,
        StructType::SolParameters => "SolParameters"@,
        StructType::ExternalFunction => "ExternalFunction"@,
        StructType::Vector(elem_ty) => "vector<"@ + type_str(*elem_ty) + ">"@,
    }
}

/// The canonical, purely structural rendering of a type. This grammar is an
/// external interface: downstream tests compare it byte for byte.
pub open spec fn type_str(t: Type) -> Seq<char>
    decreases t,
{
    match t {
        Type::Bool => "bool"@,
        Type::Int(width) => "int"@ + dec_str(width as nat),
        Type::Uint(width) => "uint"@ + dec_str(width as nat),
        Type::Bytes(width) => "bytes"@ + dec_str(width as nat),
        Type::Ptr(ty) => "ptr<"@ + type_str(*ty) + ">"@,
        Type::StoragePtr(immutable, ty) => if immutable {
            "const_storage_ptr<"@ + type_str(*ty) + ">"@
        } else {
            "storage_ptr<"@ + type_str(*ty) + ">"@
        },
        Type::Function { params, rets } => "fn("@ + type_list_str(params@) + ")"@
            + if rets.len() == 0 {
                " -> ()"@
            } else {
                " -> ("@ + type_list_str(rets@) + ")"@
            },
        Type::Mapping { key_ty, value_ty } => "mapping<"@ + type_str(*key_ty) + " -> "@
            + type_str(*value_ty) + ">"@,
        Type::Array(ty, dims) => type_str(*ty) + dims_str(dims@),
        Type::Struct(st) => "struct."@ + struct_type_str(st),
        Type::Slice(ty) => "slice<"@ + type_str(*ty) + ">"@,
    }
}

/// Types separated by `, `.
pub open spec fn type_list_str(ts: Seq<Type>) -> Seq<char>
    decreases ts,
{
    if ts.len() == 0 {
        Seq::empty()
    } else if ts.len() == 1 {
        type_str(ts.last())
    } else {
        type_list_str(ts.drop_last()) + ", "@ + type_str(ts.last())
    }
}

/// Structural equality of struct layout references: the same tag, with a
/// vector's element type compared structurally.
pub open spec fn struct_type_eq(a: StructType, b: StructType) -> bool
    decreases a,
{
    match (a, b) {
        (StructType::UserDefined(i), StructType::UserDefined(j)) => i == j,
        (StructType::SolAccountInfo, StructType::SolAccountInfo) => true,
        (StructType::SolAccountMeta, StructType::SolAccountMeta) => true,
        (StructType::SolParameters, StructType::SolParameters) => true,
        (StructType::ExternalFunction, StructType::ExternalFunction) => true,
        (StructType::Vector(e1), StructType::Vector(e2)) => type_eq(*e1, *e2),
        _ => false,
    }
}

/// Structural equality of types: the same shape with equal widths, tags and
/// dimensions, comparing the contents of type lists element by element.
pub open spec fn type_eq(a: Type, b: Type) -> bool
    decreases a,
{
    match (a, b) {
        (Type::Bool, Type::Bool) => true,
        (Type::Int(w1), Type::Int(w2)) => w1 == w2,
        (Type::Uint(w1), Type::Uint(w2)) => w1 == w2,
        (Type::Bytes(w1), Type::Bytes(w2)) => w1 == w2,
        (Type::Ptr(t1), Type::Ptr(t2)) => type_eq(*t1, *t2),
        (Type::StoragePtr(i1, t1), Type::StoragePtr(i2, t2)) => i1 == i2 && type_eq(*t1, *t2),
        (
            Type::Function { params: p1, rets: r1 },
            Type::Function { params: p2, rets: r2 },
        ) => {
            &&& p1@.len() == p2@.len()
            &&& r1@.len() == r2@.len()
            &&& forall|i: int| 0 <= i < p1@.len() ==> type_eq(#[trigger] p1@[i], p2@[i])
            &&& forall|i: int| 0 <= i < r1@.len() ==> type_eq(#[trigger] r1@[i], r2@[i])
        },
        (
            Type::Mapping { key_ty: k1, value_ty: v1 },
            Type::Mapping { key_ty: k2, value_ty: v2 },
        ) => type_eq(*k1, *k2) && type_eq(*v1, *v2),
        (Type::Array(t1, d1), Type::Array(t2, d2)) => type_eq(*t1, *t2) && d1@ == d2@,
        (Type::Struct(s1), Type::Struct(s2)) => struct_type_eq(s1, s2),
        (Type::Slice(t1), Type::Slice(t2)) => type_eq(*t1, *t2),
        _ => false,
    }
}

/// The printer respects structural equality: structurally equal struct
/// layout references render identically.
pub proof fn lemma_struct_type_eq_same_text(a: StructType, b: StructType)
    requires
        struct_type_eq(a, b),
    ensures
        struct_type_str(a) == struct_type_str(b),
    decreases a,
{
    match (a, b) {
        (StructType::Vector(e1), StructType::Vector(e2)) => {
            lemma_type_eq_same_text(*e1, *e2);
        }
        _ => {}
    }
}

/// The printer respects structural equality: structurally equal types
/// render identically, so a value's canonical text depends only on the
/// type's contents, never on how the value was built.
pub proof fn lemma_type_eq_same_text(a: Type, b: Type)
    requires
        type_eq(a, b),
    ensures
        type_str(a) == type_str(b),
    decreases a,
{
    match (a, b) {
        (Type::Ptr(t1), Type::Ptr(t2)) => {
            lemma_type_eq_same_text(*t1, *t2);
        }
        (Type::StoragePtr(_, t1), Type::StoragePtr(_, t2)) => {
            lemma_type_eq_same_text(*t1, *t2);
        }
        (
            Type::Function { params: p1, rets: r1 },
            Type::Function { params: p2, rets: r2 },
        ) => {
            lemma_type_list_eq_same_text(p1@, p2@);
            lemma_type_list_eq_same_text(r1@, r2@);
        }
        (
            Type::Mapping { key_ty: k1, value_ty: v1 },
            Type::Mapping { key_ty: k2, value_ty: v2 },
        ) => {
            lemma_type_eq_same_text(*k1, *k2);
            lemma_type_eq_same_text(*v1, *v2);
        }
        (Type::Array(t1, d1), Type::Array(t2, d2)) => {
            lemma_type_eq_same_text(*t1, *t2);
        }
        (Type::Struct(s1), Type::Struct(s2)) => {
            lemma_struct_type_eq_same_text(s1, s2);
        }
        (Type::Slice(t1), Type::Slice(t2)) => {
            lemma_type_eq_same_text(*t1, *t2);
        }
        _ => {}
    }
}

/// Lists of pairwise structurally equal types render identically.
proof fn lemma_type_list_eq_same_text(s1: Seq<Type>, s2: Seq<Type>)
    requires
        s1.len() == s2.len(),
        forall|i: int| 0 <= i < s1.len() ==> type_eq(#[trigger] s1[i], s2[i]),
    ensures
        type_list_str(s1) == type_list_str(s2),
    decreases s1,
{
    if s1.len() == 0 {
    } else if s1.len() == 1 {
        lemma_type_eq_same_text(s1[0], s2[0]);
        assert(s1.last() == s1[0]);
        assert(s2.last() == s2[0]);
    } else {
        assert(forall|i: int|
            0 <= i < s1.drop_last().len() ==> type_eq(#[trigger] s1.drop_last()[i],
            s2.drop_last()[i]));
        lemma_type_list_eq_same_text(s1.drop_last(), s2.drop_last());
        lemma_type_eq_same_text(s1[s1.len() - 1], s2[s2.len() - 1]);
        assert(s1.last() == s1[s1.len() - 1]);
        assert(s2.last() == s2[s2.len() - 1]);
    }
}

/// Appends one array dimension to `s`.
fn write_array_length(s: &mut String, l: &ArrayLength)
    ensures
        final(s)@ == old(s)@ + array_length_str(*l),
{
    let ghost pre = s@;
    match l {
        ArrayLength::Fixed(n) => {
            s.append("[");
            write_dec(s, *n);
            s.append("]");
            proof {
                assert(s@ =~= pre + array_length_str(*l));
            }
        }
        ArrayLength::Dynamic => {
            s.append("[]");
        }
        ArrayLength::AnyFixed => {
            s.append("[?]");
        }
    }
}

/// Appends an array's dimensions, outer to inner, to `s`.
fn write_dims(s: &mut String, ds: &Vec<ArrayLength>)
    ensures
        final(s)@ == old(s)@ + dims_str(ds@),
{
    let ghost pre = s@;
    let mut i: usize = 0;
    while i < ds.len()
        invariant
            i <= ds.len(),
            s@ == pre + dims_str(ds@.take(i as int)),
        decreases ds.len() - i,
    {
        write_array_length(s, &ds[i]);
        proof {
            assert(ds@.take(i as int + 1).drop_last() =~= ds@.take(i as int));
            assert(ds@.take(i as int + 1).last() == ds@[i as int]);
            assert(s@ =~= pre + dims_str(ds@.take(i as int + 1)));
        }
        i = i + 1;
    }
    proof {
        assert(ds@.take(ds@.len() as int) =~= ds@);
    }
}

/// Appends a struct layout reference's rendering to `s`.
pub fn write_struct_type(s: &mut String, st: &StructType)
    ensures
        final(s)@ == old(s)@ + struct_type_str(*st),
    decreases *st,
{
    let ghost pre = s@;
    match st {
        StructType::UserDefined(i) => {
            write_dec_usize(s, *i);
        }
        StructType::SolAccountInfo => {
            s.append("SolAccountInfo");
        }
        StructType::SolAccountMeta => {
            s.append("SolAccountMeta");
        }
        StructType::SolParameters => {
            s.append("SolParameters");
        }
        StructType::ExternalFunction => {
            s.append("ExternalFunction");
        }
        StructType::Vector(elem_ty) => {
            s.append("vector<");
            write_type(s, elem_ty);
            s.append(">");
            proof {
                assert(s@ =~= pre + struct_type_str(*st));
            }
        }
    }
}

/// Appends a type's canonical rendering to `s`.
pub fn write_type(s: &mut String, t: &Type)
    ensures
        final(s)@ == old(s)@ + type_str(*t),
    decreases *t,
{
    let ghost pre = s@;
    match t {
        Type::Bool => {
            s.append("bool");
        }
        Type::Int(width) => {
            s.append("int");
            write_dec(s, *width as u128);
            proof {
                assert(s@ =~= pre + type_str(*t));
            }
        }
        Type::Uint(width) => {
            s.append("uint");
            write_dec(s, *width as u128);
            proof {
                assert(s@ =~= pre + type_str(*t));
            }
        }
        Type::Bytes(width) => {
            s.append("bytes");
            write_dec(s, *width as u128);
            proof {
                assert(s@ =~= pre + type_str(*t));
            }
        }
        Type::Ptr(ty) => {
            s.append("ptr<");
            write_type(s, ty);
            s.append(">");
            proof {
                assert(s@ =~= pre + type_str(*t));
            }
        }
        Type::StoragePtr(immutable, ty) => {
            if *immutable {
                s.append("const_storage_ptr<");
            } else {
                s.append("storage_ptr<");
            }
            write_type(s, ty);
            s.append(">");
            proof {
                assert(s@ =~= pre + type_str(*t));
            }
        }
        Type::Function { params, rets } => {
            s.append("fn(");
            write_type_list(s, params);
            s.append(")");
            if rets.len() == 0 {
                s.append(" -> ()");
            } else {
                s.append(" -> (");
                write_type_list(s, rets);
                s.append(")");
            }
            proof {
                assert(s@ =~= pre + type_str(*t));
            }
        }
        Type::Mapping { key_ty, value_ty } => {
            s.append("mapping<");
            write_type(s, key_ty);
            s.append(" -> ");
            write_type(s, value_ty);
            s.append(">");
            proof {
                assert(s@ =~= pre + type_str(*t));
            }
        }
        Type::Array(ty, dims) => {
            write_type(s, ty);
            write_dims(s, dims);
            proof {
                assert(s@ =~= pre + type_str(*t));
            }
        }
        Type::Struct(st) => {
            s.append("struct.");
            write_struct_type(s, st);
            proof {
                assert(s@ =~= pre + type_str(*t));
            }
        }
        Type::Slice(ty) => {
            s.append("slice<");
            write_type(s, ty);
            s.append(">");
            proof {
                assert(s@ =~= pre + type_str(*t));
            }
        }
    }
}

/// Appends types separated by `, ` to `s`.
fn write_type_list(s: &mut String, ts: &Vec<Type>)
    ensures
        final(s)@ == old(s)@ + type_list_str(ts@),
    decreases ts@,
{
    let ghost pre = s@;
    let mut i: usize = 0;
    while i < ts.len()
        invariant
            i <= ts.len(),
            s@ == pre + type_list_str(ts@.take(i as int)),
        decreases ts.len() - i,
    {
        if i != 0 {
            s.append(", ");
        }
        write_type(s, &ts[i]);
        proof {
            assert(ts@.take(i as int + 1).drop_last() =~= ts@.take(i as int));
            assert(ts@.take(i as int + 1).last() == ts@[i as int]);
            assert(s@ =~= pre + type_list_str(ts@.take(i as int + 1)));
        }
        i = i + 1;
    }
    proof {
        assert(ts@.take(ts@.len() as int) =~= ts@);
    }
}

impl StructType {
    /// The canonical text of this struct layout reference.
    pub fn to_text(&self) -> (r: String)
        ensures
            r@ == struct_type_str(*self),
    {
        let mut s = String::new();
        write_struct_type(&mut s, self);
        proof {
            assert(s@ =~= struct_type_str(*self));
        }
        s
    }
}

impl Type {
    /// The canonical text of this type. Rendering is purely structural and
    /// therefore stable across compiler runs for identical input.
    pub fn to_text(&self) -> (r: String)
        ensures
            r@ == type_str(*self),
    {
        let mut s = String::new();
        write_type(&mut s, self);
        proof {
            assert(s@ =~= type_str(*self));
        }
        s
    }
}

} // verus!
