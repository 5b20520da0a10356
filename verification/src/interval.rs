//! The interval of cubical type theory.
//!
//! The interval `I` has two endpoints `i0` and `i1` and represents a
//! continuous line segment used to construct paths and higher cubes.

use vstd::prelude::*;
use crate::text::{decimal, push_decimal};

verus! {

/// A point of the interval: one of its two endpoints or a variable.
#[derive(Debug, Clone, Copy, PartialEq, Eq, Structural)]
pub enum Interval {
    /// Left endpoint (0)
    I0,
    /// Right endpoint (1)
    I1,
    /// A named/de Bruijn variable representing a generic interval point.
    Var(usize),
}

/// Negation: the endpoints swap, a variable stays.
pub open spec fn neg_spec(a: Interval) -> Interval {
    match a {
        Interval::I0 => Interval::I1,
        Interval::I1 => Interval::I0,
        Interval::Var(n) => Interval::Var(n),
    }
}

/// Meet (minimum): `i0` absorbs, `i1` is neutral, a point met with itself
/// is itself, and the meet of two different variables is taken
/// conservatively as `i0`.
pub open spec fn meet_spec(a: Interval, b: Interval) -> Interval {
    if a is I0 || b is I0 {
        Interval::I0
    } else if a is I1 {
        b
    } else if b is I1 {
        a
    } else if a == b {
        a
    } else {
        Interval::I0
    }
}

/// Join (maximum): `i1` absorbs, `i0` is neutral, a point joined with
/// itself is itself, and the join of two different variables is taken
/// conservatively as `i1`.
pub open spec fn join_spec(a: Interval, b: Interval) -> Interval {
    if a is I1 || b is I1 {
        Interval::I1
    } else if a is I0 {
        b
    } else if b is I0 {
        a
    } else if a == b {
        a
    } else {
        Interval::I1
    }
}

/// How an interval point is written: `i0`, `i1`, or `i_n` for variable `n`.
pub open spec fn interval_text(a: Interval) -> Seq<char> {
    match a {
        Interval::I0 => "i0"@,
        Interval::I1 => "i1"@,
        Interval::Var(n) => "i_"@ + decimal(n as nat),
    }
}

impl Interval {
    /// The left endpoint (0).
    pub fn i0() -> (r: Self)
        ensures
            r == Interval::I0,
    {
        Interval::I0
    }

    /// The right endpoint (1).
    pub fn i1() -> (r: Self)
        ensures
            r == Interval::I1,
    {
        Interval::I1
    }

    /// Fresh interval variable.
    pub fn var(n: usize) -> (r: Self)
        ensures
            r == Interval::Var(n),
    {
        Interval::Var(n)
    }

    /// Is this the left endpoint?
    pub fn is_i0(&self) -> (r: bool)
        ensures
            r == (*self is I0),
    {
        matches!(self, Interval::I0)
    }

    /// Is this the right endpoint?
    pub fn is_i1(&self) -> (r: bool)
        ensures
            r == (*self is I1),
    {
        matches!(self, Interval::I1)
    }

    /// Is this a variable?
    pub fn is_var(&self) -> (r: bool)
        ensures
            r == (*self is Var),
    {
        matches!(self, Interval::Var(_))
    }

    /// Negate the interval: i0 ↔ i1, vars stay.
    pub fn neg(&self) -> (r: Self)
        ensures
            r == neg_spec(*self),
    {
        match self {
            Interval::I0 => Interval::I1,
            Interval::I1 => Interval::I0,
            Interval::Var(n) => Interval::Var(*n),
        }
    }

    /// Minimum (meet) of two interval points.
    pub fn meet(&self, other: &Self) -> (r: Self)
        ensures
            r == meet_spec(*self, *other),
    {
        match (self, other) {
            (Interval::I0, _) | (_, Interval::I0) => Interval::I0,
            (Interval::I1, x) | (x, Interval::I1) => *x,
            (Interval::Var(m), Interval::Var(n)) => if *m == *n {
                Interval::Var(*m)
            } else {
                Interval::I0
            },
        }
    }

    /// Maximum (join) of two interval points.
    pub fn join(&self, other: &Self) -> (r: Self)
        ensures
            r == join_spec(*self, *other),
    {
        match (self, other) {
            (Interval::I1, _) | (_, Interval::I1) => Interval::I1,
            (Interval::I0, x) | (x, Interval::I0) => *x,
            (Interval::Var(m), Interval::Var(n)) => if *m == *n {
                Interval::Var(*m)
            } else {
                Interval::I1
            },
        }
    }

    /// The written form: `i0`, `i1` or `i_n`.
    pub fn to_string(&self) -> (s: String)
        ensures
            s@ == interval_text(*self),
    {
        match self {
            Interval::I0 => String::from_str("i0"),
            Interval::I1 => String::from_str("i1"),
            Interval::Var(n) => {
                let mut s = String::from_str("i_");
                push_decimal(&mut s, *n);
                s
            },
        }
    }
}

impl core::ops::Not for Interval {
    type Output = Self;

    fn not(self) -> (r: Self)
        ensures
            r == neg_spec(self),
    {
        self.neg()
    }
}

impl vstd::std_specs::ops::NotSpecImpl for Interval {
    open spec fn obeys_not_spec() -> bool {
        true
    }

    open spec fn not_req(self) -> bool {
        true
    }

    open spec fn not_spec(self) -> Self {
        neg_spec(self)
    }
}

impl core::ops::BitAnd for Interval {
    type Output = Self;

    fn bitand(self, rhs: Self) -> (r: Self)
        ensures
            r == meet_spec(self, rhs),
    {
        self.meet(&rhs)
    }
}

impl vstd::std_specs::ops::BitAndSpecImpl for Interval {
    open spec fn obeys_bitand_spec() -> bool {
        true
    }

    open spec fn bitand_req(self, rhs: Self) -> bool {
        true
    }

    open spec fn bitand_spec(self, rhs: Self) -> Self {
        meet_spec(self, rhs)
    }
}

impl core::ops::BitOr for Interval {
    type Output = Self;

    fn bitor(self, rhs: Self) -> (r: Self)
        ensures
            r == join_spec(self, rhs),
    {
        self.join(&rhs)
    }
}

impl vstd::std_specs::ops::BitOrSpecImpl for Interval {
    open spec fn obeys_bitor_spec() -> bool {
        true
    }

    open spec fn bitor_req(self, rhs: Self) -> bool {
        true
    }

    open spec fn bitor_spec(self, rhs: Self) -> Self {
        join_spec(self, rhs)
    }
}

/// Negation is an involution: `¬¬a = a`.
pub proof fn lemma_neg_involutive(a: Interval)
    ensures
        neg_spec(neg_spec(a)) == a,
{
}

/// Meet and join are idempotent: a point met or joined with itself is itself.
pub proof fn lemma_meet_join_idempotent(a: Interval)
    ensures
        meet_spec(a, a) == a,
        join_spec(a, a) == a,
{
}

/// Two different variables are combined conservatively: their meet is the
/// left endpoint `i0` and their join the right endpoint `i1`, whatever the
/// variables; the meet and join of any two points are always one of the two
/// points or an endpoint.
pub proof fn lemma_distinct_variables(m: usize, n: usize, a: Interval, b: Interval)
    ensures
        m != n ==> meet_spec(Interval::Var(m), Interval::Var(n)) == Interval::I0,
        m != n ==> join_spec(Interval::Var(m), Interval::Var(n)) == Interval::I1,
        meet_spec(a, b) == a || meet_spec(a, b) == b || meet_spec(a, b) == Interval::I0,
        join_spec(a, b) == a || join_spec(a, b) == b || join_spec(a, b) == Interval::I1,
{
}

/// Meet and join are commutative and associative.
pub proof fn lemma_meet_join_comm_assoc(a: Interval, b: Interval, c: Interval)
    ensures
        meet_spec(a, b) == meet_spec(b, a),
        join_spec(a, b) == join_spec(b, a),
        meet_spec(a, meet_spec(b, c)) == meet_spec(meet_spec(a, b), c),
        join_spec(a, join_spec(b, c)) == join_spec(join_spec(a, b), c),
{
}

/// The endpoints are the bounds: `i0` absorbs and `i1` is neutral for meet,
/// `i1` absorbs and `i0` is neutral for join.
pub proof fn lemma_endpoint_bounds(a: Interval)
    ensures
        meet_spec(Interval::I0, a) == Interval::I0,
        meet_spec(Interval::I1, a) == a,
        join_spec(Interval::I1, a) == Interval::I1,
        join_spec(Interval::I0, a) == a,
{
}

/// De Morgan: negation exchanges meet and join.
pub proof fn lemma_de_morgan(a: Interval, b: Interval)
    ensures
        neg_spec(meet_spec(a, b)) == join_spec(neg_spec(a), neg_spec(b)),
        neg_spec(join_spec(a, b)) == meet_spec(neg_spec(a), neg_spec(b)),
{
}

/// A face constraint: a mapping from interval variables to endpoints.
#[derive(Debug, Clone, PartialEq)]
pub struct Face {
    /// Map from variable index to which endpoint it's constrained to.
    pub constraints: Vec<(usize, Interval)>,
}

impl Face {
    /// The face with no constraints.
    pub fn empty() -> (r: Self)
        ensures
            r.constraints@ == Seq::<(usize, Interval)>::empty(),
    {
        Face { constraints: Vec::new() }
    }

    /// The face constraining one variable to an endpoint.
    pub fn constrain(var: usize, endpoint: Interval) -> (r: Self)
        ensures
            r.constraints@ == seq![(var, endpoint)],
    {
        let mut constraints = Vec::new();
        constraints.push((var, endpoint));
        Face { constraints }
    }

    /// Whether the face has no constraints.
    pub fn is_empty(&self) -> (r: bool)
        ensures
            r == (self.constraints@.len() == 0),
    {
        self.constraints.len() == 0
    }

    /// Check if this face is satisfied by a given substitution: every
    /// constraint occurs in the substitution.
    pub fn satisfied_by(&self, sub: &[(usize, Interval)]) -> (r: bool)
        ensures
            r == forall|i: int|
                0 <= i < self.constraints@.len() ==> #[trigger] sub@.contains(self.constraints@[i]),
    {
        let mut i: usize = 0;
        while i < self.constraints.len()
            invariant
                i <= self.constraints@.len(),
                forall|k: int| 0 <= k < i ==> #[trigger] sub@.contains(self.constraints@[k]),
            decreases self.constraints@.len() - i,
        {
            let (v, ep) = self.constraints[i];
            let mut found = false;
            let mut j: usize = 0;
            while j < sub.len()
                invariant
                    j <= sub@.len(),
                    found == exists|m: int| 0 <= m < j && sub@[m] == (v, ep),
                decreases sub@.len() - j,
            {
                let (sv, sep) = sub[j];
                if sv == v && sep == ep {
                    found = true;
                }
                j = j + 1;
            }
            if !found {
                assert(!sub@.contains(self.constraints@[i as int]));
                return false;
            }
            i = i + 1;
        }
        true
    }
}

/// Face map: assigns an interval endpoint to one dimension.
#[derive(Debug, Clone, Copy, PartialEq, Eq, Structural)]
pub struct FaceMap {
    pub dim: usize,
    pub face_at: Interval,
}

impl FaceMap {
    /// The i-th face map δ_i^0: set dimension i to i0.
    pub fn face_0(dim: usize) -> (r: Self)
        ensures
            r == (FaceMap { dim, face_at: Interval::I0 }),
    {
        FaceMap { dim, face_at: Interval::I0 }
    }

    /// The i-th face map δ_i^1: set dimension i to i1.
    pub fn face_1(dim: usize) -> (r: Self)
        ensures
            r == (FaceMap { dim, face_at: Interval::I1 }),
    {
        FaceMap { dim, face_at: Interval::I1 }
    }
}

/// Degeneracy map: projects away a dimension.
#[derive(Debug, Clone, Copy, PartialEq, Eq, Structural)]
pub struct Degeneracy {
    pub dim: usize,
}

impl Degeneracy {
    /// The degeneracy that drops dimension `dim`.
    pub fn new(dim: usize) -> (r: Self)
        ensures
            r == (Degeneracy { dim }),
    {
        Degeneracy { dim }
    }
}

} // verus!
