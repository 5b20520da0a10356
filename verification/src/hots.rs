//! Higher inductive types: circles, spheres, intervals, suspensions, truncations.
//!
//! Higher inductive types add path (and higher cell) constructors to the
//! point constructors of ordinary inductive types.

use vstd::prelude::*;
use crate::path::{TypeExpr, TypeModel, Term, TermModel, PathTerm};
use crate::text::{decimal, push_decimal};

verus! {

/// The circle S¹: one point (base) and one loop (loop).
#[derive(Debug, Clone, PartialEq)]
pub struct Circle {
    /// The base point.
    pub base: String,
    /// The loop path: base = base.
    pub loop_path: PathTerm,
}

/// Result of circle recursion.
#[derive(Debug, Clone, PartialEq)]
pub struct CircleRec {
    pub base_image: String,
    pub loop_image: PathTerm,
}

/// A path over variable `var` in the named type from one named point to
/// another, with body the variable `body`.
pub open spec fn is_named_path(p: PathTerm, ty: Seq<char>, src: Seq<char>, tgt: Seq<char>, var: Seq<char>, body: Seq<char>) -> bool {
    &&& p.ty@ == TypeModel::Named(ty)
    &&& p.src@ == TermModel::Var(src)
    &&& p.tgt@ == TermModel::Var(tgt)
    &&& p.var@ == var
    &&& p.body@ == TermModel::Var(body)
}

fn named_path(ty: &str, src: &str, tgt: &str, var: &str, body: &str) -> (p: PathTerm)
    ensures
        is_named_path(p, ty@, src@, tgt@, var@, body@),
{
    PathTerm {
        ty: TypeExpr::Named(String::from_str(ty)),
        src: Box::new(Term::Var(String::from_str(src))),
        tgt: Box::new(Term::Var(String::from_str(tgt))),
        var: String::from_str(var),
        body: Box::new(Term::Var(String::from_str(body))),
    }
}

impl Circle {
    /// Construct the circle with its point and path constructors.
    pub fn new() -> (r: Self)
        ensures
            r.base@ == "base"@,
            is_named_path(r.loop_path, "S¹"@, "base"@, "base"@, "i"@, "loop"@),
    {
        Circle { base: String::from_str("base"), loop_path: named_path("S¹", "base", "base", "i", "loop") }
    }

    /// The recursion principle for S¹: given b : B and l : b = b, a map S¹ → B.
    pub fn rec(&self, b: &str, l: &PathTerm) -> (r: CircleRec)
        ensures
            r.base_image@ == b@,
            r.loop_image == *l,
    {
        CircleRec { base_image: String::from_str(b), loop_image: l.clone() }
    }
}

impl Default for Circle {
    fn default() -> (r: Self)
        ensures
            r.base@ == "base"@,
            is_named_path(r.loop_path, "S¹"@, "base"@, "base"@, "i"@, "loop"@),
    {
        Self::new()
    }
}

/// The circle's loop is a loop: it starts and ends at the base point.
pub proof fn lemma_circle_loop_is_refl(c: Circle)
    requires
        is_named_path(c.loop_path, "S¹"@, "base"@, "base"@, "i"@, "loop"@),
    ensures
        c.loop_path.src@ == c.loop_path.tgt@,
{
}

/// A constructor for a sphere: either a point or a higher cell.
#[derive(Debug, Clone, PartialEq)]
pub enum SphereConstructor {
    Point(String),
    /// Cell of dimension n, connecting boundary to base.
    Cell { dim: usize, name: String },
}

/// The mathematical value of a [`SphereConstructor`].
pub enum ConstructorModel {
    Point(Seq<char>),
    Cell(usize, Seq<char>),
}

impl View for SphereConstructor {
    type V = ConstructorModel;

    open spec fn view(&self) -> ConstructorModel {
        match *self {
            SphereConstructor::Point(p) => ConstructorModel::Point(p@),
            SphereConstructor::Cell { dim, name } => ConstructorModel::Cell(dim, name@),
        }
    }
}

/// The n-sphere Sⁿ.
#[derive(Debug, Clone, PartialEq)]
pub struct Sphere {
    pub dimension: usize,
    pub base: String,
    /// For S⁰: two points. For Sⁿ (n≥1): base + one n-dimensional cell.
    pub constructors: Vec<SphereConstructor>,
}

/// The constructors of a sphere, as models.
pub open spec fn constructors_view(s: Sphere) -> Seq<ConstructorModel> {
    s.constructors@.map_values(|c: SphereConstructor| c@)
}

/// The constructors of Sⁿ: `north` and `south` for n = 0; otherwise the
/// point `base` and one n-cell, named `loop` for n = 1, `surf` for n = 2 in
/// the named constructors and `cell_<n>` in the generic one.
pub open spec fn sphere_cell_constructors(n: usize, cell: Seq<char>) -> Seq<ConstructorModel> {
    seq![ConstructorModel::Point("base"@), ConstructorModel::Cell(n, cell)]
}

/// S⁰ as built: two points, north and south, with base north.
pub open spec fn is_s0(s: Sphere) -> bool {
    &&& s.dimension == 0
    &&& s.base@ == "north"@
    &&& constructors_view(s) == seq![ConstructorModel::Point("north"@), ConstructorModel::Point("south"@)]
}

impl Sphere {
    /// S⁰: two points, north and south.
    pub fn s0() -> (r: Self)
        ensures
            is_s0(r),
    {
        let mut constructors = Vec::new();
        constructors.push(SphereConstructor::Point(String::from_str("north")));
        constructors.push(SphereConstructor::Point(String::from_str("south")));
        let r = Sphere { dimension: 0, base: String::from_str("north"), constructors };
        assert(constructors_view(r) =~= seq![
            ConstructorModel::Point("north"@),
            ConstructorModel::Point("south"@),
        ]);
        r
    }

    fn with_cell(n: usize, cell: String) -> (r: Self)
        ensures
            r.dimension == n,
            r.base@ == "base"@,
            constructors_view(r) == sphere_cell_constructors(n, cell@),
    {
        let mut constructors = Vec::new();
        constructors.push(SphereConstructor::Point(String::from_str("base")));
        constructors.push(SphereConstructor::Cell { dim: n, name: cell });
        let r = Sphere { dimension: n, base: String::from_str("base"), constructors };
        assert(constructors_view(r) =~= sphere_cell_constructors(n, r.constructors@[1]->name@));
        r
    }

    /// S¹: the circle, base and a 1-cell `loop`.
    pub fn s1() -> (r: Self)
        ensures
            r.dimension == 1,
            r.base@ == "base"@,
            constructors_view(r) == sphere_cell_constructors(1, "loop"@),
    {
        Sphere::with_cell(1, String::from_str("loop"))
    }

    /// S²: base point and a 2-cell `surf` (like the surface of a globe).
    pub fn s2() -> (r: Self)
        ensures
            r.dimension == 2,
            r.base@ == "base"@,
            constructors_view(r) == sphere_cell_constructors(2, "surf"@),
    {
        Sphere::with_cell(2, String::from_str("surf"))
    }

    /// Generic Sⁿ: S⁰ for n = 0, else base and an n-cell `cell_<n>`.
    pub fn sn(n: usize) -> (r: Self)
        ensures
            n == 0 ==> is_s0(r),
            n > 0 ==> r.dimension == n && r.base@ == "base"@ && constructors_view(r)
                == sphere_cell_constructors(n, "cell_"@ + decimal(n as nat)),
    {
        if n == 0 {
            return Self::s0();
        }
        let mut cell = String::from_str("cell_");
        push_decimal(&mut cell, n);
        Sphere::with_cell(n, cell)
    }

    /// Suspension: ΣX has two points (north, south) and a meridian for each point of X.
    pub fn suspend(base_type: &str) -> (r: Suspension)
        ensures
            r.base_type@ == base_type@,
            r.north@ == "north"@,
            r.south@ == "south"@,
            r.meridians@.len() == 0,
    {
        Suspension {
            base_type: String::from_str(base_type),
            north: String::from_str("north"),
            south: String::from_str("south"),
            meridians: Vec::new(),
        }
    }
}

/// The interval as a higher inductive type: two endpoints and a path between them.
#[derive(Debug, Clone, PartialEq)]
pub struct IntervalHIT {
    pub left: String,
    pub right: String,
    pub seg: PathTerm,
}

/// Result of interval recursion.
#[derive(Debug, Clone, PartialEq)]
pub struct IntervalRec {
    pub left_image: String,
    pub right_image: String,
    pub seg_image: PathTerm,
}

impl IntervalHIT {
    /// The interval: endpoints `i0`, `i1` and the segment between them.
    pub fn new() -> (r: Self)
        ensures
            r.left@ == "i0"@,
            r.right@ == "i1"@,
            is_named_path(r.seg, "Interval"@, "i0"@, "i1"@, "t"@, "seg"@),
    {
        IntervalHIT {
            left: String::from_str("i0"),
            right: String::from_str("i1"),
            seg: named_path("Interval", "i0", "i1", "t", "seg"),
        }
    }

    /// Recursion: given a, b : B and p : a = b, a map Interval → B.
    pub fn rec(&self, a: &str, b: &str, p: &PathTerm) -> (r: IntervalRec)
        ensures
            r.left_image@ == a@,
            r.right_image@ == b@,
            r.seg_image == *p,
    {
        IntervalRec { left_image: String::from_str(a), right_image: String::from_str(b), seg_image: p.clone() }
    }
}

impl Default for IntervalHIT {
    fn default() -> (r: Self)
        ensures
            r.left@ == "i0"@,
            r.right@ == "i1"@,
            is_named_path(r.seg, "Interval"@, "i0"@, "i1"@, "t"@, "seg"@),
    {
        Self::new()
    }
}

/// Suspension of a type.
#[derive(Debug, Clone, PartialEq)]
pub struct Suspension {
    pub base_type: String,
    pub north: String,
    pub south: String,
    /// (point name, meridian name) pairs.
    pub meridians: Vec<(String, String)>,
}

/// The meridians of a suspension, as characters.
pub open spec fn meridians_view(s: Suspension) -> Seq<(Seq<char>, Seq<char>)> {
    s.meridians@.map_values(|m: (String, String)| (m.0@, m.1@))
}

/// The name of the meridian added at position `idx`: `merid_<idx>`.
pub open spec fn meridian_name(idx: nat) -> Seq<char> {
    "merid_"@ + decimal(idx)
}

impl Suspension {
    /// Add a meridian through a point; it is named by its position.
    pub fn add_meridian(&mut self, point: &str)
        ensures
            final(self).base_type == old(self).base_type,
            final(self).north == old(self).north,
            final(self).south == old(self).south,
            meridians_view(*final(self)) == meridians_view(*old(self)).push(
                (point@, meridian_name(old(self).meridians@.len())),
            ),
    {
        let idx = self.meridians.len();
        let mut name = String::from_str("merid_");
        push_decimal(&mut name, idx);
        self.meridians.push((String::from_str(point), name));
        assert(meridians_view(*self) =~= meridians_view(*old(self)).push(
            (point@, meridian_name(old(self).meridians@.len())),
        ));
    }

    /// Suspension of Sⁿ: a meridian through each point constructor of Sⁿ
    /// (north and south for n = 0, the base point otherwise).
    pub fn suspend_sphere(n: usize) -> (r: Self)
        ensures
            r.base_type@ == "S"@ + decimal(n as nat),
            r.north@ == "north"@,
            r.south@ == "south"@,
            n == 0 ==> meridians_view(r) == seq![
                ("north"@, meridian_name(0)),
                ("south"@, meridian_name(1)),
            ],
            n > 0 ==> meridians_view(r) == seq![("base"@, meridian_name(0))],
    {
        let sn = Sphere::sn(n);
        let mut base_type = String::from_str("S");
        push_decimal(&mut base_type, n);
        let mut susp = Suspension {
            base_type,
            north: String::from_str("north"),
            south: String::from_str("south"),
            meridians: Vec::new(),
        };
        let ghost cs = constructors_view(sn);
        assert(meridians_view(susp) =~= Seq::<(Seq<char>, Seq<char>)>::empty());
        let mut i: usize = 0;
        while i < sn.constructors.len()
            invariant
                i <= sn.constructors@.len(),
                cs == constructors_view(sn),
                susp.base_type@ == "S"@ + decimal(n as nat),
                susp.north@ == "north"@,
                susp.south@ == "south"@,
                meridians_view(susp) == point_meridians(cs.take(i as int), 0),
            decreases sn.constructors@.len() - i,
        {
            proof {
                lemma_point_meridians_push(cs.take(i as int), cs[i as int], 0);
                assert(cs.take(i + 1) =~= cs.take(i as int).push(cs[i as int]));
            }
            match &sn.constructors[i] {
                SphereConstructor::Point(name) => {
                    proof {
                        lemma_point_meridians_len(cs.take(i as int), 0);
                    }
                    susp.add_meridian(name.as_str());
                },
                SphereConstructor::Cell { .. } => {},
            }
            i = i + 1;
        }
        proof {
            assert(cs.take(cs.len() as int) =~= cs);
            reveal_with_fuel(point_meridians, 3);
        }
        susp
    }
}

/// The meridians added, in order, through the point constructors of `cs`,
/// numbering them from `start`.
pub open spec fn point_meridians(cs: Seq<ConstructorModel>, start: nat) -> Seq<(Seq<char>, Seq<char>)>
    decreases cs.len(),
{
    if cs.len() == 0 {
        Seq::empty()
    } else {
        match cs[0] {
            ConstructorModel::Point(p) => seq![(p, meridian_name(start))] + point_meridians(
                cs.drop_first(),
                start + 1,
            ),
            ConstructorModel::Cell(_, _) => point_meridians(cs.drop_first(), start),
        }
    }
}

proof fn lemma_point_meridians_len(cs: Seq<ConstructorModel>, start: nat)
    ensures
        point_meridians(cs, start).len() <= cs.len(),
    decreases cs.len(),
{
    if cs.len() > 0 {
        lemma_point_meridians_len(cs.drop_first(), if cs[0] is Point { start + 1 } else { start });
    }
}

proof fn lemma_point_meridians_push(cs: Seq<ConstructorModel>, c: ConstructorModel, start: nat)
    ensures
        point_meridians(cs.push(c), start) == match c {
            ConstructorModel::Point(p) => point_meridians(cs, start).push(
                (p, meridian_name(start + point_meridians(cs, start).len())),
            ),
            ConstructorModel::Cell(_, _) => point_meridians(cs, start),
        },
    decreases cs.len(),
{
    if cs.len() == 0 {
        assert(cs.push(c).drop_first() =~= Seq::<ConstructorModel>::empty());
        assert(point_meridians(Seq::<ConstructorModel>::empty(), start + 1).len() == 0);
        assert(point_meridians(Seq::<ConstructorModel>::empty(), start).len() == 0);
        assert(point_meridians(cs, start).len() == 0);
        assert(cs.push(c)[0] == c);
        assert(point_meridians(cs.push(c), start) =~= match c {
            ConstructorModel::Point(p) => point_meridians(cs, start).push(
                (p, meridian_name(start + point_meridians(cs, start).len())),
            ),
            ConstructorModel::Cell(_, _) => point_meridians(cs, start),
        });
    } else {
        assert(cs.push(c).drop_first() =~= cs.drop_first().push(c));
        let next = if cs[0] is Point { start + 1 } else { start };
        lemma_point_meridians_push(cs.drop_first(), c, next);
        match cs[0] {
            ConstructorModel::Point(p) => {
                assert(point_meridians(cs.push(c), start) =~= match c {
                    ConstructorModel::Point(q) => point_meridians(cs, start).push(
                        (q, meridian_name(start + point_meridians(cs, start).len())),
                    ),
                    ConstructorModel::Cell(_, _) => point_meridians(cs, start),
                });
            },
            ConstructorModel::Cell(_, _) => {},
        }
    }
}

/// Truncation: ‖A‖ₙ is the n-truncation of A.
#[derive(Debug, Clone, PartialEq)]
pub struct Truncation {
    pub original_type: String,
    /// -1 = contractible, 0 = hProp, 1 = hSet, etc.
    pub truncation_level: isize,
}

/// The name of a truncation level.
pub open spec fn level_name_spec(level: isize) -> Seq<char> {
    if level == -2 || level == -1 {
        "contractible"@
    } else if level == 0 {
        "hProp"@
    } else if level == 1 {
        "hSet"@
    } else if level == 2 {
        "hGroupoid"@
    } else {
        "n-type"@
    }
}

impl Truncation {
    /// The truncation of a type at a level.
    pub fn new(ty_name: &str, level: isize) -> (r: Self)
        ensures
            r.original_type@ == ty_name@,
            r.truncation_level == level,
    {
        Truncation { original_type: String::from_str(ty_name), truncation_level: level }
    }

    /// Is this a proposition (0-truncated)?
    pub fn is_prop(&self) -> (r: bool)
        ensures
            r == (self.truncation_level == 0),
    {
        self.truncation_level == 0
    }

    /// Is this a set (1-truncated)?
    pub fn is_set(&self) -> (r: bool)
        ensures
            r == (self.truncation_level == 1),
    {
        self.truncation_level == 1
    }

    /// Is this contractible (-1-truncated)?
    pub fn is_contractible(&self) -> (r: bool)
        ensures
            r == (self.truncation_level == -1),
    {
        self.truncation_level == -1
    }

    /// The unit type is the (-2)-truncation (contractible).
    pub fn unit() -> (r: Self)
        ensures
            r.original_type@ == "Unit"@,
            r.truncation_level == -2,
    {
        Truncation { original_type: String::from_str("Unit"), truncation_level: -2 }
    }

    /// Truncation level name.
    pub fn level_name(&self) -> (r: &'static str)
        ensures
            r@ == level_name_spec(self.truncation_level),
    {
        match self.truncation_level {
            -2 => "contractible",
            -1 => "contractible",
            0 => "hProp",
            1 => "hSet",
            2 => "hGroupoid",
            _ => "n-type",
        }
    }
}

/// Propositional truncation: ‖A‖ (0-truncation).
pub fn prop_truncation(ty_name: &str) -> (r: Truncation)
    ensures
        r.original_type@ == ty_name@,
        r.truncation_level == 0,
{
    Truncation::new(ty_name, 0)
}

/// Pushout: given f : A → B, g : A → C, the pushout B +ᴬ C.
#[derive(Debug, Clone, PartialEq)]
pub struct Pushout {
    pub left: String,
    pub right: String,
    pub glue: Vec<String>,
}

impl Pushout {
    /// A pushout of two types with no glue yet.
    pub fn new(left: &str, right: &str) -> (r: Self)
        ensures
            r.left@ == left@,
            r.right@ == right@,
            r.glue@.len() == 0,
    {
        Pushout { left: String::from_str(left), right: String::from_str(right), glue: Vec::new() }
    }

    /// Add a glue path.
    pub fn add_glue(&mut self, name: &str)
        ensures
            final(self).left == old(self).left,
            final(self).right == old(self).right,
            final(self).glue@.len() == old(self).glue@.len() + 1,
            final(self).glue@.drop_last() == old(self).glue@,
            final(self).glue@.last()@ == name@,
    {
        self.glue.push(String::from_str(name));
        assert(self.glue@.drop_last() =~= old(self).glue@);
    }
}

/// Coequalizer: given f, g : A → B, identify f(a) and g(a) for all a.
#[derive(Debug, Clone, PartialEq)]
pub struct Coequalizer {
    pub f: String,
    pub g: String,
    pub identified: Vec<(String, String)>,
}

impl Coequalizer {
    /// A coequalizer of two maps with nothing identified yet.
    pub fn new(f: &str, g: &str) -> (r: Self)
        ensures
            r.f@ == f@,
            r.g@ == g@,
            r.identified@.len() == 0,
    {
        Coequalizer { f: String::from_str(f), g: String::from_str(g), identified: Vec::new() }
    }

    /// Identify two points.
    pub fn identify(&mut self, a: &str, b: &str)
        ensures
            final(self).f == old(self).f,
            final(self).g == old(self).g,
            final(self).identified@.len() == old(self).identified@.len() + 1,
            final(self).identified@.drop_last() == old(self).identified@,
            final(self).identified@.last().0@ == a@,
            final(self).identified@.last().1@ == b@,
    {
        self.identified.push((String::from_str(a), String::from_str(b)));
        assert(self.identified@.drop_last() =~= old(self).identified@);
    }
}

} // verus!
