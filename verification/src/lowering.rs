//! Lowering of the source language's richer type system into the closed set
//! of machine-representable types. The mapping is total and deterministic
//! for a fixed set of target-platform size parameters, which are chosen once
//! per compilation unit and never inferred per expression.

use vstd::prelude::*;
use crate::lir_type::ArrayLength;
use crate::lir_type::StructType;
use crate::lir_type::Type;
use crate::lir_type::struct_type_eq;
use crate::lir_type::type_eq;

verus! {

broadcast use vstd::std_specs::vec::group_vec_axioms, vstd::seq::group_seq_axioms;

/// Target-platform size parameters, fixed once per compilation unit.
#[derive(Debug, Clone, Copy, PartialEq, Eq)]
pub struct TargetParams {
    /// Width of an account address, in bytes.
    pub address_length: u8,
    /// Width of a function selector, in bytes.
    pub selector_length: u8,
}

/// A source-level struct layout reference, as semantic analysis resolves it.
#[derive(Debug, Clone, Copy, PartialEq, Eq)]
pub enum AstStructType {
    AccountInfo,
    AccountMeta,
    ExternalFunction,
    SolParameters,
    UserDefined(usize),
}

/// A source-level (high-level) type, as the well-typed AST presents it.
#[derive(Debug)]
pub enum AstType {
    Bool,
    Int(u16),
    Uint(u16),
    Bytes(u8),
    /// An account address; its width is a platform parameter.
    Address,
    /// An enumeration, representable by a one-byte unsigned integer.
    Enum,
    /// A function selector; its width is a platform parameter.
    FunctionSelector,
    /// A text string; lowers exactly as `DynamicBytes` does.
    StringType,
    /// A dynamic byte array; lowers to a pointer to a length-prefixed vector.
    DynamicBytes,
    Array(Box<AstType>, Vec<ArrayLength>),
    Struct(AstStructType),
    Mapping { key: Box<AstType>, value: Box<AstType> },
    Function { params: Vec<AstType>, rets: Vec<AstType> },
    Slice(Box<AstType>),
    /// A memory reference to a value of another source type.
    Ref(Box<AstType>),
    /// A storage reference; true marks an immutable (write-once) location.
    StorageRef(bool, Box<AstType>),
}

/// The lowered form of a source struct reference.
pub open spec fn spec_lower_struct_type(t: AstStructType) -> StructType {
    match t {
        AstStructType::AccountInfo => StructType::SolAccountInfo,
        AstStructType::AccountMeta => StructType::SolAccountMeta,
        AstStructType::ExternalFunction => StructType::ExternalFunction,
        AstStructType::SolParameters => StructType::SolParameters,
        AstStructType::UserDefined(i) => StructType::UserDefined(i),
    }
}

/// Whether `r` is the lowered shape shared by source strings and dynamic
/// byte arrays: a pointer to a length-prefixed byte vector. The IR need not
/// distinguish the two, since their layout and permitted operations are
/// identical.
pub open spec fn is_vector_of_bytes(r: Type) -> bool {
    match r {
        Type::Ptr(inner) => match *inner {
            Type::Struct(st) => match st {
                StructType::Vector(elem) => *elem == Type::Bytes(1),
                _ => false,
            },
            _ => false,
        },
        _ => false,
    }
}

/// Whether `r` is the lowered form of the source type `t` under the platform
/// parameters `p`. `lemma_lowering_deterministic` shows the relation admits
/// at most one `r` per `t`, and `lower_type` produces it for every `t`.
pub open spec fn lowers_to(t: AstType, p: TargetParams, r: Type) -> bool
    decreases t,
{
    match t {
        AstType::Bool => r == Type::Bool,
        AstType::Int(w) => r == Type::Int(w),
        AstType::Uint(w) => r == Type::Uint(w),
        AstType::Bytes(w) => r == Type::Bytes(w),
        AstType::Address => r == Type::Bytes(p.address_length),
        AstType::Enum => r == Type::Uint(8),
        AstType::FunctionSelector => r == Type::Uint((8 * p.selector_length) as u16),
        AstType::StringType => is_vector_of_bytes(r),
        AstType::DynamicBytes => is_vector_of_bytes(r),
        AstType::Array(elem, dims) => match r {
            Type::Ptr(inner) => match *inner {
                Type::Array(lowered_elem, lowered_dims) => lowers_to(*elem, p, *lowered_elem)
                    && lowered_dims@ == dims@,
                _ => false,
            },
            _ => false,
        },
        AstType::Struct(st) => r == Type::Ptr(
            Box::new(Type::Struct(spec_lower_struct_type(st))),
        ),
        AstType::Mapping { key, value } => match r {
            Type::Mapping { key_ty, value_ty } => lowers_to(*key, p, *key_ty)
                && lowers_to(*value, p, *value_ty),
            _ => false,
        },
        AstType::Function { params, rets } => match r {
            Type::Ptr(inner) => match *inner {
                Type::Function { params: lp, rets: lr } => {
                    &&& lp@.len() == params@.len()
                    &&& lr@.len() == rets@.len()
                    &&& forall|i: int|
                        0 <= i < params@.len() ==> lowers_to(params@[i], p, #[trigger] lp@[i])
                    &&& forall|i: int|
                        0 <= i < rets@.len() ==> lowers_to(rets@[i], p, #[trigger] lr@[i])
                },
                _ => false,
            },
            _ => false,
        },
        AstType::Slice(elem) => match r {
            Type::Slice(lowered) => lowers_to(*elem, p, *lowered),
            _ => false,
        },
        AstType::Ref(inner) => match r {
            Type::Ptr(lowered) => lowers_to(*inner, p, *lowered),
            _ => false,
        },
        AstType::StorageRef(immutable, inner) => match r {
            Type::StoragePtr(im, lowered) => im == immutable && lowers_to(*inner, p, *lowered),
            _ => false,
        },
    }
}

/// Lowers a source struct reference.
pub fn lower_struct_type(t: &AstStructType) -> (r: StructType)
    ensures
        r == spec_lower_struct_type(*t),
{
    match t {
        AstStructType::AccountInfo => StructType::SolAccountInfo,
        AstStructType::AccountMeta => StructType::SolAccountMeta,
        AstStructType::ExternalFunction => StructType::ExternalFunction,
        AstStructType::SolParameters => StructType::SolParameters,
        AstStructType::UserDefined(i) => StructType::UserDefined(*i),
    }
}

/// Lowers a source type under the given platform parameters. Total: every
/// source type is accepted and produces its one lowered form.
pub fn lower_type(t: &AstType, p: &TargetParams) -> (r: Type)
    ensures
        lowers_to(*t, *p, r),
    decreases *t,
{
    match t {
        AstType::Bool => Type::Bool,
        AstType::Int(w) => Type::Int(*w),
        AstType::Uint(w) => Type::Uint(*w),
        AstType::Bytes(w) => Type::Bytes(*w),
        AstType::Address => Type::Bytes(p.address_length),
        AstType::Enum => Type::Uint(8),
        AstType::FunctionSelector => Type::Uint(8 * p.selector_length as u16),
        AstType::StringType => Type::Ptr(
            Box::new(Type::Struct(StructType::Vector(Box::new(Type::Bytes(1))))),
        ),
        AstType::DynamicBytes => Type::Ptr(
            Box::new(Type::Struct(StructType::Vector(Box::new(Type::Bytes(1))))),
        ),
        AstType::Array(elem, dims) => {
            let lowered = lower_type(elem, p);
            let mut ds: Vec<ArrayLength> = Vec::new();
            let mut i: usize = 0;
            while i < dims.len()
                invariant
                    i <= dims.len(),
                    ds@ == dims@.take(i as int),
                decreases dims.len() - i,
            {
                ds.push(dims[i]);
                proof {
                    assert(ds@ =~= dims@.take(i as int + 1));
                }
                i = i + 1;
            }
            proof {
                assert(ds@ =~= dims@);
            }
            Type::Ptr(Box::new(Type::Array(Box::new(lowered), ds)))
        }
        AstType::Struct(st) => Type::Ptr(Box::new(Type::Struct(lower_struct_type(st)))),
        AstType::Mapping { key, value } => Type::Mapping {
            key_ty: Box::new(lower_type(key, p)),
            value_ty: Box::new(lower_type(value, p)),
        },
        AstType::Function { params, rets } => Type::Ptr(
            Box::new(
                Type::Function {
                    params: lower_type_list(params, p),
                    rets: lower_type_list(rets, p),
                },
            ),
        ),
        AstType::Slice(elem) => Type::Slice(Box::new(lower_type(elem, p))),
        AstType::Ref(inner) => Type::Ptr(Box::new(lower_type(inner, p))),
        AstType::StorageRef(immutable, inner) => Type::StoragePtr(
            *immutable,
            Box::new(lower_type(inner, p)),
        ),
    }
}

/// Lowers each type of a list in order.
fn lower_type_list(ts: &Vec<AstType>, p: &TargetParams) -> (r: Vec<Type>)
    ensures
        r@.len() == ts@.len(),
        forall|i: int| 0 <= i < ts@.len() ==> lowers_to(ts@[i], *p, #[trigger] r@[i]),
    decreases ts@,
{
    let mut r: Vec<Type> = Vec::new();
    let mut i: usize = 0;
    while i < ts.len()
        invariant
            i <= ts.len(),
            r@.len() == i,
            forall|j: int| 0 <= j < i ==> lowers_to(ts@[j], *p, #[trigger] r@[j]),
        decreases ts.len() - i,
    {
        r.push(lower_type(&ts[i], p));
        i = i + 1;
    }
    r
}

/// Lowering is deterministic: a source type has at most one lowered form,
/// up to structural equality of type contents, under fixed platform
/// parameters. Together with `lower_type`, which is total, every source
/// type maps to exactly one `Type`.
pub proof fn lemma_lowering_deterministic(t: AstType, p: TargetParams, r1: Type, r2: Type)
    requires
        lowers_to(t, p, r1),
        lowers_to(t, p, r2),
    ensures
        type_eq(r1, r2),
    decreases t,
{
    match t {
        AstType::StringType => {
            lemma_vector_of_bytes_eq(r1, r2);
        }
        AstType::DynamicBytes => {
            lemma_vector_of_bytes_eq(r1, r2);
        }
        AstType::Struct(st) => {
            assert(struct_type_eq(spec_lower_struct_type(st), spec_lower_struct_type(st)));
            assert(type_eq(
                Type::Struct(spec_lower_struct_type(st)),
                Type::Struct(spec_lower_struct_type(st)),
            ));
            assert(type_eq(r1, r2));
        }
        AstType::Array(elem, dims) => {
            if let Type::Ptr(inner1) = r1 {
                if let Type::Ptr(inner2) = r2 {
                    if let Type::Array(e1, d1) = *inner1 {
                        if let Type::Array(e2, d2) = *inner2 {
                            lemma_lowering_deterministic(*elem, p, *e1, *e2);
                            assert(type_eq(*inner1, *inner2));
                            assert(type_eq(r1, r2));
                        }
                    }
                }
            }
        }
        AstType::Mapping { key, value } => {
            if let Type::Mapping { key_ty: k1, value_ty: v1 } = r1 {
                if let Type::Mapping { key_ty: k2, value_ty: v2 } = r2 {
                    lemma_lowering_deterministic(*key, p, *k1, *k2);
                    lemma_lowering_deterministic(*value, p, *v1, *v2);
                    assert(type_eq(r1, r2));
                }
            }
        }
        AstType::Function { params, rets } => {
            if let Type::Ptr(inner1) = r1 {
                if let Type::Ptr(inner2) = r2 {
                    if let Type::Function { params: lp1, rets: lr1 } = *inner1 {
                        if let Type::Function { params: lp2, rets: lr2 } = *inner2 {
                            assert forall|i: int| 0 <= i < lp1@.len() implies type_eq(
                                #[trigger] lp1@[i],
                                lp2@[i],
                            ) by {
                                lemma_lowering_deterministic(params@[i], p, lp1@[i], lp2@[i]);
                            }
                            assert forall|i: int| 0 <= i < lr1@.len() implies type_eq(
                                #[trigger] lr1@[i],
                                lr2@[i],
                            ) by {
                                lemma_lowering_deterministic(rets@[i], p, lr1@[i], lr2@[i]);
                            }
                            assert(type_eq(*inner1, *inner2));
                            assert(type_eq(r1, r2));
                        }
                    }
                }
            }
        }
        AstType::Slice(elem) => {
            if let Type::Slice(l1) = r1 {
                if let Type::Slice(l2) = r2 {
                    lemma_lowering_deterministic(*elem, p, *l1, *l2);
                    assert(type_eq(r1, r2));
                }
            }
        }
        AstType::Ref(inner) => {
            if let Type::Ptr(l1) = r1 {
                if let Type::Ptr(l2) = r2 {
                    lemma_lowering_deterministic(*inner, p, *l1, *l2);
                    assert(type_eq(r1, r2));
                }
            }
        }
        AstType::StorageRef(_, inner) => {
            if let Type::StoragePtr(_, l1) = r1 {
                if let Type::StoragePtr(_, l2) = r2 {
                    lemma_lowering_deterministic(*inner, p, *l1, *l2);
                    assert(type_eq(r1, r2));
                }
            }
        }
        AstType::Bool => {
            assert(type_eq(r1, r2));
        }
        AstType::Int(_) => {
            assert(type_eq(r1, r2));
        }
        AstType::Uint(_) => {
            assert(type_eq(r1, r2));
        }
        AstType::Bytes(_) => {
            assert(type_eq(r1, r2));
        }
        AstType::Address => {
            assert(type_eq(r1, r2));
        }
        AstType::Enum => {
            assert(type_eq(r1, r2));
        }
        AstType::FunctionSelector => {
            assert(type_eq(r1, r2));
        }
    }
}

/// The one lowered form also has one canonical text: any two lowered forms
/// of the same source type under the same platform parameters render
/// identically, which snapshot tests rely on across compiler runs.
pub proof fn lemma_lowering_text_deterministic(t: AstType, p: TargetParams, r1: Type, r2: Type)
    requires
        lowers_to(t, p, r1),
        lowers_to(t, p, r2),
    ensures
        crate::lir_type::type_str(r1) == crate::lir_type::type_str(r2),
{
    lemma_lowering_deterministic(t, p, r1, r2);
    crate::lir_type::lemma_type_eq_same_text(r1, r2);
}

/// Two pointers to a length-prefixed byte vector are structurally equal.
proof fn lemma_vector_of_bytes_eq(r1: Type, r2: Type)
    requires
        is_vector_of_bytes(r1),
        is_vector_of_bytes(r2),
    ensures
        type_eq(r1, r2),
{
    if let Type::Ptr(inner1) = r1 {
        if let Type::Ptr(inner2) = r2 {
            if let Type::Struct(s1) = *inner1 {
                if let Type::Struct(s2) = *inner2 {
                    if let StructType::Vector(e1) = s1 {
                        if let StructType::Vector(e2) = s2 {
                            assert(type_eq(*e1, *e2));
                            assert(struct_type_eq(s1, s2));
                            assert(type_eq(*inner1, *inner2));
                        }
                    }
                }
            }
        }
    }
}

} // verus!
