//! Transport: moving terms along paths between types.
//!
//! Transport (also called "substitution" or "cast") moves a term of type A
//! to a term of type B given a path/equality between A and B.

use vstd::prelude::*;
use crate::path::{PathTerm, TypeExpr, TypeModel, Term, TermModel};
use crate::identity::{IdentityProof, IdentityType, proof_src, proof_tgt};

verus! {

/// A type family indexed by some parameter.
#[derive(Debug, Clone, PartialEq)]
pub struct TypeFamily {
    pub name: String,
    pub param_type: TypeExpr,
    pub body: TypeExpr,
}

impl TypeFamily {
    /// A type family with the given name, parameter type and body.
    pub fn new(name: &str, param_type: TypeExpr, body: TypeExpr) -> (r: Self)
        ensures
            r.name@ == name@,
            r.param_type == param_type,
            r.body == body,
    {
        TypeFamily { name: String::from_str(name), param_type, body }
    }
}

/// Transport operation result.
#[derive(Debug, Clone, PartialEq)]
pub struct TransportResult {
    /// The source type.
    pub source_type: TypeExpr,
    /// The target type.
    pub target_type: TypeExpr,
    /// The input term name.
    pub input: String,
    /// The output term name (transported).
    pub output: String,
    /// The path/proof used for transport.
    pub along: String,
}

/// The name a path endpoint is known by: a variable's name, else `term`.
pub open spec fn source_name(t: TermModel) -> Seq<char> {
    match t {
        TermModel::Var(s) => s,
        _ => "term"@,
    }
}

/// The name of a transported term: `transport(var, term)`.
pub open spec fn transport_text(var: Seq<char>, term: Seq<char>) -> Seq<char> {
    "transport("@ + var + ", "@ + term + ")"@
}

/// How a path is named when transporting along it: `path_<src>_<tgt>`.
pub open spec fn path_along_text(p: PathTerm) -> Seq<char> {
    "path_"@ + source_name(p.src@) + "_"@ + source_name(p.tgt@)
}

/// `r` is the result of transporting `term` along `path`: the type stays the
/// path's type, and the output is `transport(var, term)`.
pub open spec fn is_transport_along(r: TransportResult, path: PathTerm, term: Seq<char>) -> bool {
    &&& r.source_type == path.ty
    &&& r.target_type == path.ty
    &&& r.input@ == term
    &&& r.output@ == transport_text(path.var@, term)
    &&& r.along@ == path_along_text(path)
}

fn term_source_name(t: &Term) -> (r: String)
    ensures
        r@ == source_name(t@),
{
    match t {
        Term::Var(s) => s.clone(),
        _ => String::from_str("term"),
    }
}

/// Transport a term along a path between types.
///
/// Given `p : Path U A B` and `a : A`, produces `transport(p, a) : B`.
pub fn transport_along_path(path: &PathTerm, term: &str) -> (r: TransportResult)
    ensures
        is_transport_along(r, *path, term@),
{
    let mut output = String::from_str("transport(");
    output.append(path.var.as_str());
    output.append(", ");
    output.append(term);
    output.append(")");
    let mut along = String::from_str("path_");
    along.append(term_source_name(&path.src).as_str());
    along.append("_");
    along.append(term_source_name(&path.tgt).as_str());
    TransportResult {
        source_type: path.ty.clone(),
        target_type: path.ty.clone(),
        input: String::from_str(term),
        output,
        along,
    }
}

/// Transport along an identity proof.
pub fn transport_along_id(id_type: &IdentityType, proof_of_eq: &IdentityProof, term: &str) -> (r: TransportResult)
    ensures
        r.source_type@ == TypeModel::Named(id_type.ty_name@),
        r.target_type@ == TypeModel::Named(id_type.ty_name@),
        r.input@ == term@,
        r.output@ == "transport_id("@ + proof_src(*proof_of_eq) + ", "@ + term@ + ")"@,
        r.along@ == id_type.lhs@ + "_eq_"@ + id_type.rhs@,
{
    let mut output = String::from_str("transport_id(");
    output.append(proof_of_eq.src());
    output.append(", ");
    output.append(term);
    output.append(")");
    let mut along = id_type.lhs.clone();
    along.append("_eq_");
    along.append(id_type.rhs.as_str());
    TransportResult {
        source_type: TypeExpr::Named(id_type.ty_name.clone()),
        target_type: TypeExpr::Named(id_type.ty_name.clone()),
        input: String::from_str(term),
        output,
        along,
    }
}

/// Subst: the Leibniz principle — substitute equals for equals.
///
/// If `p : a =_A b` and `C : A → Type`, then `subst(p, c_a) : C(b)`.
pub fn subst(motive: &TypeFamily, proof_of_eq: &IdentityProof, term: &str) -> (r: TransportResult)
    ensures
        r.source_type == motive.body,
        r.target_type == motive.body,
        r.input@ == term@,
        r.output@ == "subst("@ + proof_src(*proof_of_eq) + ", "@ + term@ + ")"@,
        r.along@ == "eq_"@ + proof_src(*proof_of_eq) + "_"@ + proof_tgt(*proof_of_eq),
{
    let mut output = String::from_str("subst(");
    output.append(proof_of_eq.src());
    output.append(", ");
    output.append(term);
    output.append(")");
    let mut along = String::from_str("eq_");
    along.append(proof_of_eq.src());
    along.append("_");
    along.append(proof_of_eq.tgt());
    TransportResult {
        source_type: motive.body.clone(),
        target_type: motive.body.clone(),
        input: String::from_str(term),
        output,
        along,
    }
}

/// Transport composition: transport along `p`, then transport the result along `q`.
pub fn transport_compose(p: &PathTerm, q: &PathTerm, term: &str) -> (r: (TransportResult, TransportResult))
    ensures
        is_transport_along(r.0, *p, term@),
        is_transport_along(r.1, *q, r.0.output@),
        r.1.output@ == transport_text(q.var@, transport_text(p.var@, term@)),
{
    let t1 = transport_along_path(p, term);
    let t2 = transport_along_path(q, t1.output.as_str());
    (t1, t2)
}

/// Transport inversion: transporting along p⁻¹ undoes transport along p;
/// the input is the forward transport's output and the output is the original term.
pub fn transport_inv(path: &PathTerm, term: &str) -> (r: TransportResult)
    ensures
        r.source_type == path.ty,
        r.target_type == path.ty,
        r.input@ == transport_text(path.var@, term@),
        r.output@ == term@,
        r.along@ == "inv_"@ + path_along_text(*path),
{
    let forward = transport_along_path(path, term);
    let mut along = String::from_str("inv_");
    along.append(forward.along.as_str());
    TransportResult {
        source_type: forward.target_type.clone(),
        target_type: forward.source_type.clone(),
        input: forward.output.clone(),
        output: String::from_str(term),
        along,
    }
}

/// Transport in a constant type family is the identity.
pub fn transport_const(ty: TypeExpr, term: &str) -> (r: TransportResult)
    ensures
        r.source_type == ty,
        r.target_type == ty,
        r.input@ == term@,
        r.output@ == term@,
        r.along@ == "const"@,
{
    TransportResult {
        source_type: ty.clone(),
        target_type: ty,
        input: String::from_str(term),
        output: String::from_str(term),
        along: String::from_str("const"),
    }
}

} // verus!
