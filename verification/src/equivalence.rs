//! Equivalences: contractible fibers, half-adjoint equivalences, univalence.
//!
//! An equivalence `f : A ≃ B` is a function with a quasi-inverse plus
//! coherence conditions. The univalence axiom states that
//! `(A = B) ≃ (A ≃ B)` for types in a universe.

use vstd::prelude::*;
use crate::path::{TypeExpr, TypeModel};
use crate::homotopy::{Function, same_signature};

verus! {

/// A quasi-inverse: a function with left and right inverses.
#[derive(Debug, Clone, PartialEq)]
pub struct QuasiInverse {
    pub f: Function,
    pub g: Function,
    /// Homotopy g∘f ~ id
    pub left_inv: String,
    /// Homotopy f∘g ~ id
    pub right_inv: String,
}

/// An equivalence between types A and B.
#[derive(Debug, Clone, PartialEq)]
pub struct Equivalence {
    pub name: String,
    pub source_type: TypeExpr,
    pub target_type: TypeExpr,
    pub forward: String,
    pub backward: String,
    /// homotopy g∘f ~ id
    pub left_triangle: String,
    /// homotopy f∘g ~ id
    pub right_triangle: String,
}

/// The mathematical value of an [`Equivalence`].
pub struct EquivModel {
    pub name: Seq<char>,
    pub source: TypeModel,
    pub target: TypeModel,
    pub forward: Seq<char>,
    pub backward: Seq<char>,
    pub left_triangle: Seq<char>,
    pub right_triangle: Seq<char>,
}

impl View for Equivalence {
    type V = EquivModel;

    open spec fn view(&self) -> EquivModel {
        EquivModel {
            name: self.name@,
            source: self.source_type@,
            target: self.target_type@,
            forward: self.forward@,
            backward: self.backward@,
            left_triangle: self.left_triangle@,
            right_triangle: self.right_triangle@,
        }
    }
}

/// The equivalence built from a name, two types and the two maps; its
/// triangles are named `<name>_left_tri` and `<name>_right_tri`.
pub open spec fn equiv_model(name: Seq<char>, source: TypeModel, target: TypeModel, forward: Seq<char>, backward: Seq<char>) -> EquivModel {
    EquivModel {
        name,
        source,
        target,
        forward,
        backward,
        left_triangle: name + "_left_tri"@,
        right_triangle: name + "_right_tri"@,
    }
}

/// The composite `b ∘ a` of `a : A ≃ B` and `b : B ≃ C`.
pub open spec fn compose_model(a: EquivModel, b: EquivModel) -> EquivModel {
    equiv_model(
        b.name + "_∘"@ + a.name,
        a.source,
        b.target,
        b.forward + "∘"@ + a.forward,
        a.backward + "∘"@ + b.backward,
    )
}

/// The inverse `B ≃ A` of `a : A ≃ B`.
pub open spec fn inverse_model(a: EquivModel) -> EquivModel {
    equiv_model(a.name + "_inv"@, a.target, a.source, a.backward, a.forward)
}

/// Errors in equivalence operations.
#[derive(Debug, Clone, Copy, PartialEq, Eq, Structural)]
pub enum EquivError {
    TypeMismatch,
    NotContractible,
}

impl Equivalence {
    /// Create an equivalence from forward/backward maps.
    pub fn new(name: &str, src: TypeExpr, tgt: TypeExpr, fwd: &str, bwd: &str) -> (r: Self)
        ensures
            r@ == equiv_model(name@, src@, tgt@, fwd@, bwd@),
            r.source_type == src,
            r.target_type == tgt,
    {
        let mut left_triangle = String::from_str(name);
        left_triangle.append("_left_tri");
        let mut right_triangle = String::from_str(name);
        right_triangle.append("_right_tri");
        Equivalence {
            name: String::from_str(name),
            source_type: src,
            target_type: tgt,
            forward: String::from_str(fwd),
            backward: String::from_str(bwd),
            left_triangle,
            right_triangle,
        }
    }

    /// The identity equivalence: A ≃ A, named `id_equiv`, with `id` both ways.
    pub fn identity(ty: TypeExpr) -> (r: Self)
        ensures
            r@ == equiv_model("id_equiv"@, ty@, ty@, "id"@, "id"@),
            r.source_type == ty,
            r.target_type == ty,
    {
        Equivalence::new("id_equiv", ty.clone(), ty, "id", "id")
    }

    /// Compose two equivalences: if A ≃ B and B ≃ C, then A ≃ C.
    pub fn compose(&self, other: &Equivalence) -> (r: Result<Equivalence, EquivError>)
        ensures
            self.target_type@ != other.source_type@ ==> r == Err::<Equivalence, EquivError>(EquivError::TypeMismatch),
            self.target_type@ == other.source_type@ ==> (r matches Ok(e) && e@ == compose_model(self@, other@)
                && e.source_type == self.source_type && e.target_type == other.target_type),
    {
        if !self.target_type.same_as(&other.source_type) {
            return Err(EquivError::TypeMismatch);
        }
        let mut name = other.name.clone();
        name.append("_∘");
        name.append(self.name.as_str());
        let mut fwd = other.forward.clone();
        fwd.append("∘");
        fwd.append(self.forward.as_str());
        let mut bwd = self.backward.clone();
        bwd.append("∘");
        bwd.append(other.backward.as_str());
        Ok(
            Equivalence::new(
                name.as_str(),
                self.source_type.clone(),
                other.target_type.clone(),
                fwd.as_str(),
                bwd.as_str(),
            ),
        )
    }

    /// Inverse equivalence: if A ≃ B, then B ≃ A.
    pub fn inverse(&self) -> (r: Equivalence)
        ensures
            r@ == inverse_model(self@),
            r.source_type == self.target_type,
            r.target_type == self.source_type,
    {
        let mut name = self.name.clone();
        name.append("_inv");
        Equivalence::new(
            name.as_str(),
            self.target_type.clone(),
            self.source_type.clone(),
            self.backward.as_str(),
            self.forward.as_str(),
        )
    }

    /// Is this the identity equivalence (`id` both ways)?
    pub fn is_identity(&self) -> (r: bool)
        ensures
            r == (self.forward@ == "id"@ && self.backward@ == "id"@),
    {
        let id = String::from_str("id");
        self.forward == id && self.backward == id
    }
}

/// Composition of equivalences is associative.
pub proof fn lemma_compose_associative(a: EquivModel, b: EquivModel, c: EquivModel)
    ensures
        compose_model(compose_model(a, b), c) == compose_model(a, compose_model(b, c)),
{
    let l = compose_model(compose_model(a, b), c);
    let r = compose_model(a, compose_model(b, c));
    assert(l.name =~= r.name);
    assert(l.forward =~= r.forward);
    assert(l.backward =~= r.backward);
    assert(l.left_triangle =~= r.left_triangle);
    assert(l.right_triangle =~= r.right_triangle);
}

/// Inverting twice restores the types and the maps; the inverse of a
/// composite is the composite of the inverses in reverse order (in types and maps).
pub proof fn lemma_inverse_laws(a: EquivModel, b: EquivModel)
    ensures
        inverse_model(inverse_model(a)).source == a.source,
        inverse_model(inverse_model(a)).target == a.target,
        inverse_model(inverse_model(a)).forward == a.forward,
        inverse_model(inverse_model(a)).backward == a.backward,
        inverse_model(compose_model(a, b)).source == compose_model(inverse_model(b), inverse_model(a)).source,
        inverse_model(compose_model(a, b)).target == compose_model(inverse_model(b), inverse_model(a)).target,
        inverse_model(compose_model(a, b)).forward == compose_model(inverse_model(b), inverse_model(a)).forward,
        inverse_model(compose_model(a, b)).backward == compose_model(inverse_model(b), inverse_model(a)).backward,
{
}

/// A fiber of a function f : A → B over a point b : B is { a : A | f(a) = b }.
#[derive(Debug, Clone, PartialEq)]
pub struct Fiber {
    pub function_name: String,
    pub base_point: String,
    pub elements: Vec<String>,
}

impl Fiber {
    /// The empty fiber of a function over a point.
    pub fn new(func: &str, base: &str) -> (r: Self)
        ensures
            r.function_name@ == func@,
            r.base_point@ == base@,
            r.elements@.len() == 0,
    {
        Fiber { function_name: String::from_str(func), base_point: String::from_str(base), elements: Vec::new() }
    }

    /// Add an element to the fiber.
    pub fn add_element(&mut self, elem: &str)
        ensures
            final(self).function_name == old(self).function_name,
            final(self).base_point == old(self).base_point,
            final(self).elements@.len() == old(self).elements@.len() + 1,
            final(self).elements@.drop_last() == old(self).elements@,
            final(self).elements@.last()@ == elem@,
    {
        self.elements.push(String::from_str(elem));
        assert(self.elements@.drop_last() =~= old(self).elements@);
    }

    /// Is this fiber contractible (exactly one element)?
    pub fn is_contractible(&self) -> (r: bool)
        ensures
            r == (self.elements@.len() == 1),
    {
        self.elements.len() == 1
    }
}

/// Check if a function is an equivalence by checking that all its fibers are contractible.
pub fn is_equivalence_by_fibers(fibers: &[Fiber]) -> (r: bool)
    ensures
        r == forall|i: int| 0 <= i < fibers@.len() ==> (#[trigger] fibers@[i]).elements@.len() == 1,
{
    let mut i: usize = 0;
    while i < fibers.len()
        invariant
            i <= fibers@.len(),
            forall|k: int| 0 <= k < i ==> (#[trigger] fibers@[k]).elements@.len() == 1,
        decreases fibers@.len() - i,
    {
        if !fibers[i].is_contractible() {
            return false;
        }
        i = i + 1;
    }
    true
}

/// Half-adjoint equivalence: an equivalence with an extra coherence.
#[derive(Debug, Clone, PartialEq)]
pub struct HalfAdjointEquiv {
    pub equiv: Equivalence,
    /// The adjustment homotopy.
    pub adjustment: String,
}

impl HalfAdjointEquiv {
    /// Promote a quasi-inverse to a half-adjoint equivalence.
    pub fn from_quasi_inverse(qi: &QuasiInverse) -> (r: HalfAdjointEquiv)
        ensures
            r.equiv@ == equiv_model("hae_"@ + qi.f.name@, qi.f.domain@, qi.f.codomain@, qi.f.name@, qi.g.name@),
            r.equiv.source_type == qi.f.domain,
            r.equiv.target_type == qi.f.codomain,
            r.adjustment@ == "adj_"@ + qi.f.name@,
    {
        let mut name = String::from_str("hae_");
        name.append(qi.f.name.as_str());
        let mut adjustment = String::from_str("adj_");
        adjustment.append(qi.f.name.as_str());
        HalfAdjointEquiv {
            equiv: Equivalence::new(
                name.as_str(),
                qi.f.domain.clone(),
                qi.f.codomain.clone(),
                qi.f.name.as_str(),
                qi.g.name.as_str(),
            ),
            adjustment,
        }
    }
}

/// Univalence: the map (A = B) → (A ≃ B) is an equivalence.
#[derive(Debug, Clone, Copy, PartialEq, Eq, Structural)]
pub struct Univalence {
    pub universe_level: usize,
}

/// Witness of univalence: an equality between types arising from an equivalence.
#[derive(Debug, Clone, PartialEq)]
pub struct UnivalenceWitness {
    pub source: TypeExpr,
    pub target: TypeExpr,
    pub equivalence_name: String,
    pub universe: usize,
}

impl Univalence {
    /// Univalence at a universe level.
    pub fn new(level: usize) -> (r: Self)
        ensures
            r.universe_level == level,
    {
        Univalence { universe_level: level }
    }

    /// The univalence map: idtoeqv : (A = B) → (A ≃ B), by transport.
    pub fn id_to_equiv(&self, a: &TypeExpr, b: &TypeExpr) -> (r: Equivalence)
        ensures
            r@ == equiv_model("idtoeqv"@, a@, b@, "transport"@, "transport_inv"@),
            r.source_type == *a,
            r.target_type == *b,
    {
        Equivalence::new("idtoeqv", a.clone(), b.clone(), "transport", "transport_inv")
    }

    /// Apply univalence: from an equivalence, get an equality of its types.
    pub fn ua(&self, equiv: &Equivalence) -> (r: UnivalenceWitness)
        ensures
            r.source == equiv.source_type,
            r.target == equiv.target_type,
            r.equivalence_name@ == equiv.name@,
            r.universe == self.universe_level,
    {
        UnivalenceWitness {
            source: equiv.source_type.clone(),
            target: equiv.target_type.clone(),
            equivalence_name: equiv.name.clone(),
            universe: self.universe_level,
        }
    }
}

/// Witness of function extensionality.
#[derive(Debug, Clone, PartialEq)]
pub struct FunExtWitness {
    pub f: String,
    pub g: String,
    pub num_points: usize,
}

/// Function extensionality: if two functions are pointwise equal, they are equal.
/// The functions must have the same domain and codomain.
pub fn funext(f: &Function, g: &Function, pointwise_paths: &[String]) -> (r: Result<FunExtWitness, EquivError>)
    ensures
        !same_signature(*f, *g) ==> r == Err::<FunExtWitness, EquivError>(EquivError::TypeMismatch),
        same_signature(*f, *g) ==> (r matches Ok(w) && w.f@ == f.name@ && w.g@ == g.name@ && w.num_points
            == pointwise_paths@.len()),
{
    if !f.domain.same_as(&g.domain) || !f.codomain.same_as(&g.codomain) {
        return Err(EquivError::TypeMismatch);
    }
    Ok(FunExtWitness { f: f.name.clone(), g: g.name.clone(), num_points: pointwise_paths.len() })
}

/// The identity equivalence is neutral for composition in types: composing
/// it before an equivalence out of the same type, or after one into the same
/// type, gives an equivalence between the same two types with the same maps
/// up to the `id` factor.
pub proof fn lemma_identity_composes(ty: TypeModel, e: EquivModel)
    ensures
        e.source == ty ==> {
            let c = compose_model(equiv_model("id_equiv"@, ty, ty, "id"@, "id"@), e);
            &&& c.source == e.source
            &&& c.target == e.target
            &&& c.forward == e.forward + "∘"@ + "id"@
            &&& c.backward == "id"@ + "∘"@ + e.backward
        },
        e.target == ty ==> {
            let c = compose_model(e, equiv_model("id_equiv"@, ty, ty, "id"@, "id"@));
            &&& c.source == e.source
            &&& c.target == e.target
            &&& c.forward == "id"@ + "∘"@ + e.forward
            &&& c.backward == e.backward + "∘"@ + "id"@
        },
{
}

/// Univalence round trip: the witness obtained by `ua` from the equivalence
/// `idtoeqv` gives for two types relates exactly those two types.
pub proof fn lemma_ua_of_id_to_equiv(a: TypeExpr, b: TypeExpr, e: Equivalence, w: UnivalenceWitness)
    requires
        e.source_type == a,
        e.target_type == b,
        w.source == e.source_type,
        w.target == e.target_type,
    ensures
        w.source == a,
        w.target == b,
{
}

} // verus!
