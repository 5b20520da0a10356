//! Cubical types: cubes, face maps, degeneracies, and cubical sets.
//!
//! Models n-dimensional cubes with boundary maps and compositions.

use vstd::prelude::*;
use crate::interval::{FaceMap, Degeneracy, Interval};

verus! {

/// An n-dimensional cube is represented by its dimension.
#[derive(Debug, Clone, Copy, PartialEq, Eq, Structural, PartialOrd, Ord, Hash)]
pub struct Cube {
    pub dim: usize,
}

/// A face of a cube, obtained by applying a face map.
#[derive(Debug, Clone, Copy, PartialEq, Eq, Structural)]
pub struct CubeFace {
    pub cube: Cube,
    pub face_map: FaceMap,
}

impl Cube {
    /// The point (0-dimensional cube).
    pub fn point() -> (r: Self)
        ensures
            r.dim == 0,
    {
        Cube { dim: 0 }
    }

    /// The interval (1-dimensional cube).
    pub fn interval() -> (r: Self)
        ensures
            r.dim == 1,
    {
        Cube { dim: 1 }
    }

    /// The square (2-dimensional cube).
    pub fn square() -> (r: Self)
        ensures
            r.dim == 2,
    {
        Cube { dim: 2 }
    }

    /// A cube of given dimension.
    pub fn n(dim: usize) -> (r: Self)
        ensures
            r.dim == dim,
    {
        Cube { dim }
    }

    /// The boundary of a cube: for each dimension `i`, the faces at `i = 0`
    /// and `i = 1`, each an (n-1)-dimensional cube.
    pub fn boundary(&self) -> (r: Vec<CubeFace>)
        ensures
            r@.len() == 2 * self.dim,
            forall|i: int|
                0 <= i < self.dim ==> {
                    &&& #[trigger] r@[2 * i] == CubeFace {
                        cube: Cube { dim: (self.dim - 1) as usize },
                        face_map: FaceMap { dim: i as usize, face_at: Interval::I0 },
                    }
                    &&& r@[2 * i + 1] == CubeFace {
                        cube: Cube { dim: (self.dim - 1) as usize },
                        face_map: FaceMap { dim: i as usize, face_at: Interval::I1 },
                    }
                },
    {
        let mut faces: Vec<CubeFace> = Vec::new();
        if self.dim == 0 {
            return faces;
        }
        let mut i: usize = 0;
        while i < self.dim
            invariant
                self.dim > 0,
                i <= self.dim,
                faces@.len() == 2 * i,
                forall|k: int|
                    0 <= k < i ==> {
                        &&& #[trigger] faces@[2 * k] == CubeFace {
                            cube: Cube { dim: (self.dim - 1) as usize },
                            face_map: FaceMap { dim: k as usize, face_at: Interval::I0 },
                        }
                        &&& faces@[2 * k + 1] == CubeFace {
                            cube: Cube { dim: (self.dim - 1) as usize },
                            face_map: FaceMap { dim: k as usize, face_at: Interval::I1 },
                        }
                    },
            decreases self.dim - i,
        {
            faces.push(CubeFace { cube: Cube::n(self.dim - 1), face_map: FaceMap::face_0(i) });
            faces.push(CubeFace { cube: Cube::n(self.dim - 1), face_map: FaceMap::face_1(i) });
            i = i + 1;
        }
        faces
    }

    /// All degeneracies: the projections that drop one of the dimensions.
    pub fn degeneracies(&self) -> (r: Vec<Degeneracy>)
        ensures
            r@.len() == self.dim,
            forall|i: int| 0 <= i < self.dim ==> #[trigger] r@[i] == (Degeneracy { dim: i as usize }),
    {
        let mut degs: Vec<Degeneracy> = Vec::new();
        let mut i: usize = 0;
        while i < self.dim
            invariant
                i <= self.dim,
                degs@.len() == i,
                forall|k: int| 0 <= k < i ==> #[trigger] degs@[k] == (Degeneracy { dim: k as usize }),
            decreases self.dim - i,
        {
            degs.push(Degeneracy::new(i));
            i = i + 1;
        }
        degs
    }
}

/// A term in a cubical type, living at a certain dimension.
#[derive(Debug, Clone, PartialEq)]
pub struct CubicalTerm<T: Clone + PartialEq> {
    pub dim: usize,
    pub value: T,
    /// Boundary: face maps to lower-dimensional terms (indices into the type's terms).
    pub boundary: Vec<(FaceMap, usize)>,
}

/// A cubical type: a presheaf on the cube category, represented as a list of
/// terms, each at some dimension.
#[derive(Debug, Clone, PartialEq)]
pub struct CubicalType<T: Clone + PartialEq> {
    /// The name of this cubical type.
    pub name: String,
    /// Terms at each dimension. dim 0 = points, dim 1 = paths, etc.
    pub terms: Vec<CubicalTerm<T>>,
}

/// `new` extends `old` by one term and keeps the name and every earlier term.
pub open spec fn extends_by_one<T: Clone + PartialEq>(old: CubicalType<T>, new: CubicalType<T>) -> bool {
    &&& new.name == old.name
    &&& new.terms@.len() == old.terms@.len() + 1
    &&& new.terms@.subrange(0, old.terms@.len() as int) == old.terms@
}

impl<T: Clone + PartialEq> CubicalType<T> {
    /// An empty cubical type with the given name.
    pub fn new(name: &str) -> (r: Self)
        ensures
            r.name@ == name@,
            r.terms@.len() == 0,
    {
        CubicalType { name: String::from_str(name), terms: Vec::new() }
    }

    /// Add a point (0-dim term); returns its index.
    pub fn add_point(&mut self, value: T) -> (idx: usize)
        ensures
            idx == old(self).terms@.len(),
            extends_by_one(*old(self), *final(self)),
            final(self).terms@[idx as int].dim == 0,
            final(self).terms@[idx as int].value == value,
            final(self).terms@[idx as int].boundary@ == Seq::<(FaceMap, usize)>::empty(),
    {
        let idx = self.terms.len();
        self.terms.push(CubicalTerm { dim: 0, value, boundary: Vec::new() });
        assert(self.terms@.subrange(0, idx as int) =~= old(self).terms@);
        idx
    }

    /// Add a path (1-dim term) between two points; returns its index.
    pub fn add_path(&mut self, value: T, src: usize, tgt: usize) -> (idx: usize)
        ensures
            idx == old(self).terms@.len(),
            extends_by_one(*old(self), *final(self)),
            final(self).terms@[idx as int].dim == 1,
            final(self).terms@[idx as int].value == value,
            final(self).terms@[idx as int].boundary@ == seq![
                (FaceMap { dim: 0, face_at: Interval::I0 }, src),
                (FaceMap { dim: 0, face_at: Interval::I1 }, tgt),
            ],
    {
        let idx = self.terms.len();
        let mut boundary = Vec::new();
        boundary.push((FaceMap::face_0(0), src));
        boundary.push((FaceMap::face_1(0), tgt));
        self.terms.push(CubicalTerm { dim: 1, value, boundary });
        assert(self.terms@.subrange(0, idx as int) =~= old(self).terms@);
        idx
    }

    /// Add a square (2-dim term) bounded by four paths; returns its index.
    pub fn add_square(&mut self, value: T, bottom: usize, top: usize, left: usize, right: usize) -> (idx: usize)
        ensures
            idx == old(self).terms@.len(),
            extends_by_one(*old(self), *final(self)),
            final(self).terms@[idx as int].dim == 2,
            final(self).terms@[idx as int].value == value,
            final(self).terms@[idx as int].boundary@ == seq![
                (FaceMap { dim: 1, face_at: Interval::I0 }, bottom),
                (FaceMap { dim: 1, face_at: Interval::I1 }, top),
                (FaceMap { dim: 0, face_at: Interval::I0 }, left),
                (FaceMap { dim: 0, face_at: Interval::I1 }, right),
            ],
    {
        let idx = self.terms.len();
        let mut boundary = Vec::new();
        boundary.push((FaceMap::face_0(1), bottom));
        boundary.push((FaceMap::face_1(1), top));
        boundary.push((FaceMap::face_0(0), left));
        boundary.push((FaceMap::face_1(0), right));
        self.terms.push(CubicalTerm { dim: 2, value, boundary });
        assert(self.terms@.subrange(0, idx as int) =~= old(self).terms@);
        idx
    }

    /// Get all terms at a given dimension, in order.
    pub fn terms_at_dim(&self, dim: usize) -> (r: Vec<&CubicalTerm<T>>)
        ensures
            r@.map_values(|t: &CubicalTerm<T>| *t) == self.terms@.filter(
                |t: CubicalTerm<T>| t.dim == dim,
            ),
    {
        let ghost pred = |t: CubicalTerm<T>| t.dim == dim;
        let mut r: Vec<&CubicalTerm<T>> = Vec::new();
        let mut i: usize = 0;
        while i < self.terms.len()
            invariant
                i <= self.terms@.len(),
                pred == (|t: CubicalTerm<T>| t.dim == dim),
                r@.map_values(|t: &CubicalTerm<T>| *t) == self.terms@.take(i as int).filter(pred),
            decreases self.terms@.len() - i,
        {
            reveal_with_fuel(Seq::<_>::filter, 1);
            assert(self.terms@.take(i + 1).drop_last() =~= self.terms@.take(i as int));
            let ghost before = r@;
            if self.terms[i].dim == dim {
                r.push(&self.terms[i]);
                assert(r@.map_values(|t: &CubicalTerm<T>| *t) =~= before.map_values(
                    |t: &CubicalTerm<T>| *t,
                ).push(self.terms@[i as int]));
            } else {
                assert(r@ == before);
            }
            i = i + 1;
        }
        assert(self.terms@.take(self.terms@.len() as int) =~= self.terms@);
        r
    }
}

/// Composition structure for cubical types.
#[derive(Debug, Clone, PartialEq)]
pub struct Composition<T: Clone + PartialEq> {
    /// The cube being filled.
    pub cube: Cube,
    /// The tube: sides of the composition.
    pub tube: Vec<CubicalTerm<T>>,
    /// The cap: the bottom face being extended.
    pub cap: CubicalTerm<T>,
    /// The resulting composed term.
    pub result: CubicalTerm<T>,
}

/// Kan filling condition: every open box has a filler.
pub trait CubicalKan<T: Clone + PartialEq> {
    /// Compose a term from a tube and a cap (an index into `ty`'s terms).
    fn compose(&self, ty: &mut CubicalType<T>, tube: &[usize], cap: usize) -> usize
        requires
            cap < old(ty).terms@.len(),
            old(ty).terms@[cap as int].dim < usize::MAX,
    ;

    /// Fill an open box.
    fn fill(&self, ty: &mut CubicalType<T>, tube: &[usize], cap: usize) -> usize
        requires
            cap < old(ty).terms@.len(),
            old(ty).terms@[cap as int].dim < usize::MAX,
    ;
}

/// Standard Kan operations for discrete cubical types.
pub struct DiscreteKan;

/// The boundary the discrete filler gives: both faces of dimension `i` are
/// tube side `i`, and the bottom face (of the new top dimension) is the cap.
pub open spec fn kan_boundary(boundary: Seq<(FaceMap, usize)>, tube: Seq<usize>, cap: usize, cap_dim: usize) -> bool {
    &&& boundary.len() == 2 * tube.len() + 1
    &&& forall|i: int|
        0 <= i < tube.len() ==> {
            &&& #[trigger] boundary[2 * i] == (FaceMap { dim: i as usize, face_at: Interval::I0 }, tube[i])
            &&& boundary[2 * i + 1] == (FaceMap { dim: i as usize, face_at: Interval::I1 }, tube[i])
        }
    &&& boundary[2 * tube.len() as int] == (FaceMap { dim: cap_dim, face_at: Interval::I0 }, cap)
}

impl DiscreteKan {
    fn filler<T: Clone + PartialEq>(ty: &mut CubicalType<T>, tube: &[usize], cap: usize) -> (idx: usize)
        requires
            cap < old(ty).terms@.len(),
            old(ty).terms@[cap as int].dim < usize::MAX,
        ensures
            idx == old(ty).terms@.len(),
            extends_by_one(*old(ty), *final(ty)),
            final(ty).terms@[idx as int].dim == old(ty).terms@[cap as int].dim + 1,
            cloned(old(ty).terms@[cap as int].value, final(ty).terms@[idx as int].value),
            kan_boundary(final(ty).terms@[idx as int].boundary@, tube@, cap, old(ty).terms@[cap as int].dim),
    {
        let cap_dim = ty.terms[cap].dim;
        let dim = cap_dim + 1;
        let idx = ty.terms.len();
        let value = ty.terms[cap].value.clone();
        let mut boundary: Vec<(FaceMap, usize)> = Vec::new();
        let mut i: usize = 0;
        while i < tube.len()
            invariant
                i <= tube@.len(),
                boundary@.len() == 2 * i,
                forall|k: int|
                    0 <= k < i ==> {
                        &&& #[trigger] boundary@[2 * k] == (FaceMap { dim: k as usize, face_at: Interval::I0 }, tube@[k])
                        &&& boundary@[2 * k + 1] == (FaceMap { dim: k as usize, face_at: Interval::I1 }, tube@[k])
                    },
            decreases tube@.len() - i,
        {
            boundary.push((FaceMap::face_0(i), tube[i]));
            boundary.push((FaceMap::face_1(i), tube[i]));
            i = i + 1;
        }
        boundary.push((FaceMap::face_0(dim - 1), cap));
        ty.terms.push(CubicalTerm { dim, value, boundary });
        assert(ty.terms@.subrange(0, idx as int) =~= old(ty).terms@);
        idx
    }
}

impl<T: Clone + PartialEq + Default> CubicalKan<T> for DiscreteKan {
    /// Adds one term a dimension above the cap, with the cap's value, the
    /// tube sides as both faces of each dimension and the cap as bottom face.
    fn compose(&self, ty: &mut CubicalType<T>, tube: &[usize], cap: usize) -> (idx: usize)
        ensures
            idx == old(ty).terms@.len(),
            extends_by_one(*old(ty), *final(ty)),
            final(ty).terms@[idx as int].dim == old(ty).terms@[cap as int].dim + 1,
            cloned(old(ty).terms@[cap as int].value, final(ty).terms@[idx as int].value),
            kan_boundary(final(ty).terms@[idx as int].boundary@, tube@, cap, old(ty).terms@[cap as int].dim),
    {
        DiscreteKan::filler(ty, tube, cap)
    }

    /// Filling is the same operation as composing.
    fn fill(&self, ty: &mut CubicalType<T>, tube: &[usize], cap: usize) -> (idx: usize)
        ensures
            idx == old(ty).terms@.len(),
            extends_by_one(*old(ty), *final(ty)),
            final(ty).terms@[idx as int].dim == old(ty).terms@[cap as int].dim + 1,
            cloned(old(ty).terms@[cap as int].value, final(ty).terms@[idx as int].value),
            kan_boundary(final(ty).terms@[idx as int].boundary@, tube@, cap, old(ty).terms@[cap as int].dim),
    {
        DiscreteKan::filler(ty, tube, cap)
    }
}

} // verus!
