//! Identity types: propositional equality vs definitional equality.
//!
//! The identity type `Id_A(a, b)` is the type of witnesses that `a` and `b`
//! are equal. Unlike definitional equality (a relation of the metatheory),
//! propositional equality is a type whose terms are proofs.

use vstd::prelude::*;
use crate::path::Term;

verus! {

/// The nature of equality between two terms.
#[derive(Debug, Clone, PartialEq)]
pub enum Equality {
    /// Definitional (judgmental) equality: the terms compute to the same normal form.
    Definitional,
    /// Propositional equality: there exists a path/proof connecting them.
    Propositional(IdentityProof),
}

/// A proof of propositional equality.
#[derive(Debug, PartialEq)]
pub enum IdentityProof {
    /// Reflexivity: a = a.
    Refl(String),
    /// A path between terms: name, source, target.
    Path(String, String, String),
    /// Composed proof.
    Compose(Box<IdentityProof>, Box<IdentityProof>),
    /// Inverted proof.
    Inv(Box<IdentityProof>),
    /// By congruence.
    Cong(String, Box<IdentityProof>),
    /// By transport.
    Transport(String, Box<IdentityProof>),
}

/// The source of an equality proof.
pub open spec fn proof_src(p: IdentityProof) -> Seq<char>
    decreases p,
{
    match p {
        IdentityProof::Refl(a) => a@,
        IdentityProof::Path(_, s, _) => s@,
        IdentityProof::Compose(q, _) => proof_src(*q),
        IdentityProof::Inv(q) => proof_tgt(*q),
        IdentityProof::Cong(_, q) => proof_src(*q),
        IdentityProof::Transport(_, q) => proof_src(*q),
    }
}

/// The target of an equality proof.
pub open spec fn proof_tgt(p: IdentityProof) -> Seq<char>
    decreases p,
{
    match p {
        IdentityProof::Refl(a) => a@,
        IdentityProof::Path(_, _, t) => t@,
        IdentityProof::Compose(_, q) => proof_tgt(*q),
        IdentityProof::Inv(q) => proof_src(*q),
        IdentityProof::Cong(_, q) => proof_tgt(*q),
        IdentityProof::Transport(_, q) => proof_tgt(*q),
    }
}

/// A proof is well formed when each composition joins a proof ending where
/// the next one starts.
pub open spec fn proof_wf(p: IdentityProof) -> bool
    decreases p,
{
    match p {
        IdentityProof::Refl(_) => true,
        IdentityProof::Path(_, _, _) => true,
        IdentityProof::Compose(a, b) => proof_wf(*a) && proof_wf(*b) && proof_tgt(*a) == proof_src(*b),
        IdentityProof::Inv(q) => proof_wf(*q),
        IdentityProof::Cong(_, q) => proof_wf(*q),
        IdentityProof::Transport(_, q) => proof_wf(*q),
    }
}

/// The normal form of a proof: reflexivity is dropped from compositions and
/// the inverse of reflexivity is reflexivity; congruence and transport
/// proofs are left as they are.
pub open spec fn normalize_spec(p: IdentityProof) -> IdentityProof
    decreases p,
{
    match p {
        IdentityProof::Compose(a, b) => {
            let an = normalize_spec(*a);
            let bn = normalize_spec(*b);
            if an is Refl {
                bn
            } else if bn is Refl {
                an
            } else {
                IdentityProof::Compose(Box::new(an), Box::new(bn))
            }
        },
        IdentityProof::Inv(q) => {
            let qn = normalize_spec(*q);
            if qn is Refl {
                qn
            } else {
                IdentityProof::Inv(Box::new(qn))
            }
        },
        _ => p,
    }
}

impl Clone for IdentityProof {
    fn clone(&self) -> (r: Self)
        ensures
            r == *self,
        decreases self,
    {
        match self {
            IdentityProof::Refl(a) => IdentityProof::Refl(a.clone()),
            IdentityProof::Path(n, s, t) => IdentityProof::Path(n.clone(), s.clone(), t.clone()),
            IdentityProof::Compose(a, b) => IdentityProof::Compose(
                Box::new((**a).clone()),
                Box::new((**b).clone()),
            ),
            IdentityProof::Inv(q) => IdentityProof::Inv(Box::new((**q).clone())),
            IdentityProof::Cong(f, q) => IdentityProof::Cong(f.clone(), Box::new((**q).clone())),
            IdentityProof::Transport(f, q) => IdentityProof::Transport(
                f.clone(),
                Box::new((**q).clone()),
            ),
        }
    }
}

impl IdentityProof {
    /// Source of the equality proof.
    pub fn src(&self) -> (r: &str)
        ensures
            r@ == proof_src(*self),
        decreases self,
    {
        match self {
            IdentityProof::Refl(a) => a.as_str(),
            IdentityProof::Path(_, s, _) => s.as_str(),
            IdentityProof::Compose(p, _) => (**p).src(),
            IdentityProof::Inv(p) => (**p).tgt(),
            IdentityProof::Cong(_, p) => (**p).src(),
            IdentityProof::Transport(_, p) => (**p).src(),
        }
    }

    /// Target of the equality proof.
    pub fn tgt(&self) -> (r: &str)
        ensures
            r@ == proof_tgt(*self),
        decreases self,
    {
        match self {
            IdentityProof::Refl(a) => a.as_str(),
            IdentityProof::Path(_, _, t) => t.as_str(),
            IdentityProof::Compose(_, q) => (**q).tgt(),
            IdentityProof::Inv(p) => (**p).src(),
            IdentityProof::Cong(_, p) => (**p).tgt(),
            IdentityProof::Transport(_, p) => (**p).tgt(),
        }
    }

    /// Is this proof reflexivity?
    pub fn is_refl(&self) -> (r: bool)
        ensures
            r == (*self is Refl),
    {
        matches!(self, IdentityProof::Refl(_))
    }
}


/// Identity type: `Id_A(a, b)`.
#[derive(Debug, Clone, PartialEq)]
pub struct IdentityType {
    pub ty_name: String,
    pub lhs: String,
    pub rhs: String,
}

impl IdentityType {
    /// The identity type of `lhs` and `rhs` in the named type.
    pub fn new(ty_name: &str, lhs: &str, rhs: &str) -> (r: Self)
        ensures
            r.ty_name@ == ty_name@,
            r.lhs@ == lhs@,
            r.rhs@ == rhs@,
    {
        IdentityType {
            ty_name: String::from_str(ty_name),
            lhs: String::from_str(lhs),
            rhs: String::from_str(rhs),
        }
    }

    /// Is this a reflexive identity type (both sides the same term)?
    pub fn is_refl(&self) -> (r: bool)
        ensures
            r == (self.lhs@ == self.rhs@),
    {
        self.lhs == self.rhs
    }
}

/// Whether a known equality answers the question "is `a` equal to `b` in
/// type `ty_name`?", in either direction.
pub open spec fn answers(entry: (IdentityType, IdentityProof), ty_name: Seq<char>, a: Seq<char>, b: Seq<char>) -> bool {
    &&& entry.0.ty_name@ == ty_name
    &&& (entry.0.lhs@ == a && entry.0.rhs@ == b) || (entry.0.lhs@ == b && entry.0.rhs@ == a)
}

/// An identity context: tracks known equalities in scope.
#[derive(Debug, Clone)]
pub struct IdentityContext {
    /// Known propositional equalities.
    pub equalities: Vec<(IdentityType, IdentityProof)>,
}

impl Default for IdentityContext {
    fn default() -> (r: Self)
        ensures
            r.equalities@.len() == 0,
    {
        IdentityContext { equalities: Vec::new() }
    }
}

/// Errors in identity operations.
#[derive(Debug, Clone, Copy, PartialEq, Eq, Structural)]
pub enum IdentityError {
    EndpointMismatch,
    NotEqual,
    TypeMismatch,
}

impl IdentityContext {
    /// The empty context.
    pub fn new() -> (r: Self)
        ensures
            r.equalities@.len() == 0,
    {
        IdentityContext::default()
    }

    /// Record an equality with its proof.
    pub fn assume_equal(&mut self, id_type: IdentityType, proof: IdentityProof)
        ensures
            final(self).equalities@ == old(self).equalities@.push((id_type, proof)),
    {
        self.equalities.push((id_type, proof));
    }

    /// Check if two terms are definitionally equal (same name).
    pub fn definitional_equal(&self, a: &str, b: &str) -> (r: bool)
        ensures
            r == (a@ == b@),
    {
        String::from_str(a) == String::from_str(b)
    }

    /// Find the proof of the first known equality between `a` and `b` (in
    /// either direction) in the named type.
    pub fn propositional_equal(&self, ty_name: &str, a: &str, b: &str) -> (r: Option<&IdentityProof>)
        ensures
            r is None <==> forall|i: int|
                0 <= i < self.equalities@.len() ==> !answers(#[trigger] self.equalities@[i], ty_name@, a@, b@),
            r matches Some(p) ==> exists|i: int|
                0 <= i < self.equalities@.len() && answers(self.equalities@[i], ty_name@, a@, b@)
                    && (forall|j: int| 0 <= j < i ==> !answers(#[trigger] self.equalities@[j], ty_name@, a@, b@))
                    && *p == self.equalities@[i].1,
    {
        let tn = String::from_str(ty_name);
        let sa = String::from_str(a);
        let sb = String::from_str(b);
        let mut i: usize = 0;
        while i < self.equalities.len()
            invariant
                i <= self.equalities@.len(),
                tn@ == ty_name@,
                sa@ == a@,
                sb@ == b@,
                forall|j: int| 0 <= j < i ==> !answers(#[trigger] self.equalities@[j], ty_name@, a@, b@),
            decreases self.equalities@.len() - i,
        {
            let id = &self.equalities[i].0;
            if id.ty_name == tn && ((id.lhs == sa && id.rhs == sb) || (id.lhs == sb && id.rhs == sa)) {
                return Some(&self.equalities[i].1);
            }
            i = i + 1;
        }
        None
    }

    /// Compose two equality proofs: transitivity. The first must end where the second starts.
    pub fn compose_proofs(&self, p: IdentityProof, q: IdentityProof) -> (r: Result<IdentityProof, IdentityError>)
        ensures
            proof_tgt(p) != proof_src(q) ==> r == Err::<IdentityProof, IdentityError>(IdentityError::EndpointMismatch),
            proof_tgt(p) == proof_src(q) ==> r == Ok::<IdentityProof, IdentityError>(
                IdentityProof::Compose(Box::new(p), Box::new(q)),
            ),
    {
        let same = String::from_str(p.tgt()) == String::from_str(q.src());
        if !same {
            return Err(IdentityError::EndpointMismatch);
        }
        Ok(IdentityProof::Compose(Box::new(p), Box::new(q)))
    }

    /// Invert an equality proof: symmetry.
    pub fn invert_proof(&self, p: IdentityProof) -> (r: IdentityProof)
        ensures
            r == IdentityProof::Inv(Box::new(p)),
    {
        IdentityProof::Inv(Box::new(p))
    }

    /// A type is a proposition here if every known equality in it is proved by reflexivity.
    pub fn is_proposition(&self, ty_name: &str) -> (r: bool)
        ensures
            r == forall|i: int|
                0 <= i < self.equalities@.len() && #[trigger] self.equalities@[i].0.ty_name@ == ty_name@
                    ==> self.equalities@[i].1 is Refl,
    {
        let tn = String::from_str(ty_name);
        let mut i: usize = 0;
        while i < self.equalities.len()
            invariant
                i <= self.equalities@.len(),
                tn@ == ty_name@,
                forall|j: int|
                    0 <= j < i && #[trigger] self.equalities@[j].0.ty_name@ == ty_name@
                        ==> self.equalities@[j].1 is Refl,
            decreases self.equalities@.len() - i,
        {
            if self.equalities[i].0.ty_name == tn && !self.equalities[i].1.is_refl() {
                return false;
            }
            i = i + 1;
        }
        true
    }
}

/// Result of applying the J-rule.
#[derive(Debug, Clone, PartialEq)]
pub struct JResult {
    pub motive: String,
    pub base: String,
    pub target: String,
    pub result: String,
}

/// J-rule (path induction): the eliminator for identity types.
///
/// Given a motive C and a base case `c : C(x, refl)`, yields
/// `J(c, y, p) : C(y, p)`, written `J(motive, base, target)`.
pub fn j_rule(motive_name: &str, base_case: &str, target: &str, _proof: &IdentityProof) -> (r: JResult)
    ensures
        r.motive@ == motive_name@,
        r.base@ == base_case@,
        r.target@ == target@,
        r.result@ == "J("@ + motive_name@ + ", "@ + base_case@ + ", "@ + target@ + ")"@,
{
    let mut result = String::from_str("J(");
    result.append(motive_name);
    result.append(", ");
    result.append(base_case);
    result.append(", ");
    result.append(target);
    result.append(")");
    JResult {
        motive: String::from_str(motive_name),
        base: String::from_str(base_case),
        target: String::from_str(target),
        result,
    }
}

/// Definitional equality checker for simple terms: syntactic identity.
pub fn definitionally_equal(a: &Term, b: &Term) -> (r: bool)
    ensures
        r == (a@ == b@),
{
    a.same_as(b)
}

/// Computes the normal form of an identity proof for definitional checking.
pub fn normalize_proof(prf: &IdentityProof) -> (r: IdentityProof)
    ensures
        r == normalize_spec(*prf),
    decreases prf,
{
    match prf {
        IdentityProof::Compose(p, q) => {
            let pn = normalize_proof(&**p);
            let qn = normalize_proof(&**q);
            if pn.is_refl() {
                qn
            } else if qn.is_refl() {
                pn
            } else {
                IdentityProof::Compose(Box::new(pn), Box::new(qn))
            }
        },
        IdentityProof::Inv(p) => {
            let pn = normalize_proof(&**p);
            if pn.is_refl() {
                pn
            } else {
                IdentityProof::Inv(Box::new(pn))
            }
        },
        _ => prf.clone(),
    }
}

/// Normalizing a normal form changes nothing.
pub proof fn lemma_normalize_idempotent(p: IdentityProof)
    ensures
        normalize_spec(normalize_spec(p)) == normalize_spec(p),
    decreases p,
{
    match p {
        IdentityProof::Compose(a, b) => {
            lemma_normalize_idempotent(*a);
            lemma_normalize_idempotent(*b);
        },
        IdentityProof::Inv(q) => {
            lemma_normalize_idempotent(*q);
        },
        _ => {},
    }
}

/// Normalizing a well-formed proof keeps it well formed and keeps what it
/// proves: the same source and the same target.
pub proof fn lemma_normalize_preserves_endpoints(p: IdentityProof)
    requires
        proof_wf(p),
    ensures
        proof_wf(normalize_spec(p)),
        proof_src(normalize_spec(p)) == proof_src(p),
        proof_tgt(normalize_spec(p)) == proof_tgt(p),
    decreases p,
{
    match p {
        IdentityProof::Compose(a, b) => {
            lemma_normalize_preserves_endpoints(*a);
            lemma_normalize_preserves_endpoints(*b);
        },
        IdentityProof::Inv(q) => {
            lemma_normalize_preserves_endpoints(*q);
        },
        _ => {},
    }
}

/// Inversion swaps the endpoints, so inverting twice proves the original
/// equality again; composing well-formed proofs whose endpoints meet gives a
/// well-formed proof from the first source to the second target.
pub proof fn lemma_inverse_and_composition(p: IdentityProof, q: IdentityProof)
    ensures
        proof_src(IdentityProof::Inv(Box::new(p))) == proof_tgt(p),
        proof_tgt(IdentityProof::Inv(Box::new(p))) == proof_src(p),
        proof_src(IdentityProof::Inv(Box::new(IdentityProof::Inv(Box::new(p))))) == proof_src(p),
        proof_tgt(IdentityProof::Inv(Box::new(IdentityProof::Inv(Box::new(p))))) == proof_tgt(p),
        proof_wf(p) && proof_wf(q) && proof_tgt(p) == proof_src(q) ==> {
            let c = IdentityProof::Compose(Box::new(p), Box::new(q));
            &&& proof_wf(c)
            &&& proof_src(c) == proof_src(p)
            &&& proof_tgt(c) == proof_tgt(q)
        },
{
}
/// After recording that `a = b` in a type, the context answers the
/// question "is `a` equal to `b`?" and, by symmetry, "is `b` equal to `a`?"
/// in that type; earlier answers stay.
pub proof fn lemma_assumed_equality_is_found(
    before: Seq<(IdentityType, IdentityProof)>,
    after: Seq<(IdentityType, IdentityProof)>,
    id: IdentityType,
    p: IdentityProof,
)
    requires
        after == before.push((id, p)),
    ensures
        answers(after.last(), id.ty_name@, id.lhs@, id.rhs@),
        answers(after.last(), id.ty_name@, id.rhs@, id.lhs@),
        exists|i: int| 0 <= i < after.len() && answers(#[trigger] after[i], id.ty_name@, id.lhs@, id.rhs@),
        exists|i: int| 0 <= i < after.len() && answers(#[trigger] after[i], id.ty_name@, id.rhs@, id.lhs@),
        forall|i: int| 0 <= i < before.len() ==> #[trigger] after[i] == before[i],
{
    assert(after[after.len() - 1] == (id, p));
}

/// Each kind of proof proves a fixed equation: reflexivity proves `a = a`,
/// a named path its own endpoints, a composite from the first proof's source
/// to the second's target, congruence and transport the same equation as
/// the proof they are built on; only inversion swaps the endpoints.
pub proof fn lemma_proof_endpoints(a: String, n: String, s: String, t: String, f: String, p: IdentityProof, q: IdentityProof)
    ensures
        proof_src(IdentityProof::Refl(a)) == a@,
        proof_tgt(IdentityProof::Refl(a)) == a@,
        proof_src(IdentityProof::Path(n, s, t)) == s@,
        proof_tgt(IdentityProof::Path(n, s, t)) == t@,
        proof_src(IdentityProof::Compose(Box::new(p), Box::new(q))) == proof_src(p),
        proof_tgt(IdentityProof::Compose(Box::new(p), Box::new(q))) == proof_tgt(q),
        proof_src(IdentityProof::Inv(Box::new(p))) == proof_tgt(p),
        proof_tgt(IdentityProof::Inv(Box::new(p))) == proof_src(p),
        proof_src(IdentityProof::Cong(f, Box::new(p))) == proof_src(p),
        proof_tgt(IdentityProof::Cong(f, Box::new(p))) == proof_tgt(p),
        proof_src(IdentityProof::Transport(f, Box::new(p))) == proof_src(p),
        proof_tgt(IdentityProof::Transport(f, Box::new(p))) == proof_tgt(p),
{
}

/// A proof built only from reflexivity by composition and inversion.
pub open spec fn trivial_proof(p: IdentityProof) -> bool
    decreases p,
{
    match p {
        IdentityProof::Refl(_) => true,
        IdentityProof::Compose(a, b) => trivial_proof(*a) && trivial_proof(*b),
        IdentityProof::Inv(q) => trivial_proof(*q),
        _ => false,
    }
}

/// Normalization collapses a proof to reflexivity exactly when the proof is
/// built from reflexivity alone; it keeps a composite or inverse of
/// non-trivial normal forms as that composite or inverse, and leaves
/// reflexivity, named paths, congruence and transport proofs as they are.
pub proof fn lemma_normalize_shape(p: IdentityProof, a: IdentityProof, b: IdentityProof)
    ensures
        normalize_spec(p) is Refl <==> trivial_proof(p),
        !(normalize_spec(a) is Refl) && !(normalize_spec(b) is Refl) ==> normalize_spec(
            IdentityProof::Compose(Box::new(a), Box::new(b)),
        ) == IdentityProof::Compose(Box::new(normalize_spec(a)), Box::new(normalize_spec(b))),
        normalize_spec(a) is Refl ==> normalize_spec(IdentityProof::Compose(Box::new(a), Box::new(b)))
            == normalize_spec(b),
        !(normalize_spec(a) is Refl) && normalize_spec(b) is Refl ==> normalize_spec(
            IdentityProof::Compose(Box::new(a), Box::new(b)),
        ) == normalize_spec(a),
        !(normalize_spec(a) is Refl) ==> normalize_spec(IdentityProof::Inv(Box::new(a)))
            == IdentityProof::Inv(Box::new(normalize_spec(a))),
        normalize_spec(a) is Refl ==> normalize_spec(IdentityProof::Inv(Box::new(a))) == normalize_spec(a),
        (p is Refl || p is Path || p is Cong || p is Transport) ==> normalize_spec(p) == p,
    decreases p,
{
    match p {
        IdentityProof::Compose(x, y) => {
            lemma_normalize_shape(*x, a, b);
            lemma_normalize_shape(*y, a, b);
        },
        IdentityProof::Inv(x) => {
            lemma_normalize_shape(*x, a, b);
        },
        _ => {},
    }
}

/// Looking up an equality does not depend on the order of its two sides,
/// and only an entry in the asked type, whose sides are exactly the two
/// terms, answers.
pub proof fn lemma_answers_symmetric(e: (IdentityType, IdentityProof), t: Seq<char>, a: Seq<char>, b: Seq<char>)
    ensures
        answers(e, t, a, b) == answers(e, t, b, a),
        answers(e, t, a, b) ==> e.0.ty_name@ == t,
        answers(e, t, a, b) ==> (e.0.lhs@ == a || e.0.lhs@ == b) && (e.0.rhs@ == a || e.0.rhs@ == b),
{
}

} // verus!
