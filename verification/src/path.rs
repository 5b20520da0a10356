//! Path types: paths between terms, path composition, and path inversion.
//!
//! A path `p : Path A a b` witnesses that `a` and `b` are (propositionally)
//! equal in type `A`.

use vstd::prelude::*;
use crate::text::{decimal, push_decimal};

verus! {

/// A type expression in a simple type theory.
#[derive(Debug, PartialEq, Eq, Hash)]
pub enum TypeExpr {
    Unit,
    Bool,
    Int,
    String,
    /// Named type (e.g. user-defined)
    Named(String),
    /// Function type: domain, codomain
    Arrow(Box<TypeExpr>, Box<TypeExpr>),
    /// Product type
    Product(Box<TypeExpr>, Box<TypeExpr>),
    /// Sum type
    Sum(Box<TypeExpr>, Box<TypeExpr>),
    /// Path type: Path ty a b
    Path(Box<TypeExpr>, String, String),
    /// Universe level
    Universe(usize),
}

/// The mathematical value of a [`TypeExpr`]: names are character sequences.
pub enum TypeModel {
    Unit,
    Bool,
    Int,
    Str,
    Named(Seq<char>),
    Arrow(Box<TypeModel>, Box<TypeModel>),
    Product(Box<TypeModel>, Box<TypeModel>),
    Sum(Box<TypeModel>, Box<TypeModel>),
    Path(Box<TypeModel>, Seq<char>, Seq<char>),
    Universe(usize),
}

/// The model of a type expression.
pub open spec fn type_model(t: TypeExpr) -> TypeModel
    decreases t,
{
    match t {
        TypeExpr::Unit => TypeModel::Unit,
        TypeExpr::Bool => TypeModel::Bool,
        TypeExpr::Int => TypeModel::Int,
        TypeExpr::String => TypeModel::Str,
        TypeExpr::Named(n) => TypeModel::Named(n@),
        TypeExpr::Arrow(a, b) => TypeModel::Arrow(Box::new(type_model(*a)), Box::new(type_model(*b))),
        TypeExpr::Product(a, b) => TypeModel::Product(
            Box::new(type_model(*a)),
            Box::new(type_model(*b)),
        ),
        TypeExpr::Sum(a, b) => TypeModel::Sum(Box::new(type_model(*a)), Box::new(type_model(*b))),
        TypeExpr::Path(a, x, y) => TypeModel::Path(Box::new(type_model(*a)), x@, y@),
        TypeExpr::Universe(n) => TypeModel::Universe(n),
    }
}

impl View for TypeExpr {
    type V = TypeModel;

    open spec fn view(&self) -> TypeModel {
        type_model(*self)
    }
}

/// How a type expression is written: `Unit`, `(A → B)`, `(A × B)`, `(A + B)`,
/// `Path[A] a b`, `U3`, and a named type by its name.
pub open spec fn type_text(t: TypeModel) -> Seq<char>
    decreases t,
{
    match t {
        TypeModel::Unit => "Unit"@,
        TypeModel::Bool => "Bool"@,
        TypeModel::Int => "Int"@,
        TypeModel::Str => "String"@,
        TypeModel::Named(n) => n,
        TypeModel::Arrow(a, b) => "("@ + type_text(*a) + " → "@ + type_text(*b) + ")"@,
        TypeModel::Product(a, b) => "("@ + type_text(*a) + " × "@ + type_text(*b) + ")"@,
        TypeModel::Sum(a, b) => "("@ + type_text(*a) + " + "@ + type_text(*b) + ")"@,
        TypeModel::Path(a, x, y) => "Path["@ + type_text(*a) + "] "@ + x + " "@ + y,
        TypeModel::Universe(n) => "U"@ + decimal(n as nat),
    }
}

impl Clone for TypeExpr {
    fn clone(&self) -> (r: Self)
        ensures
            r == *self,
        decreases self,
    {
        match self {
            TypeExpr::Unit => TypeExpr::Unit,
            TypeExpr::Bool => TypeExpr::Bool,
            TypeExpr::Int => TypeExpr::Int,
            TypeExpr::String => TypeExpr::String,
            TypeExpr::Named(n) => TypeExpr::Named(n.clone()),
            TypeExpr::Arrow(a, b) => TypeExpr::Arrow(Box::new((**a).clone()), Box::new((**b).clone())),
            TypeExpr::Product(a, b) => TypeExpr::Product(
                Box::new((**a).clone()),
                Box::new((**b).clone()),
            ),
            TypeExpr::Sum(a, b) => TypeExpr::Sum(Box::new((**a).clone()), Box::new((**b).clone())),
            TypeExpr::Path(a, x, y) => TypeExpr::Path(Box::new((**a).clone()), x.clone(), y.clone()),
            TypeExpr::Universe(n) => TypeExpr::Universe(*n),
        }
    }
}

impl TypeExpr {
    /// Whether two type expressions are the same type (same constructors, same names).
    pub fn same_as(&self, other: &TypeExpr) -> (r: bool)
        ensures
            r == (self@ == other@),
        decreases self,
    {
        match (self, other) {
            (TypeExpr::Unit, TypeExpr::Unit) => true,
            (TypeExpr::Bool, TypeExpr::Bool) => true,
            (TypeExpr::Int, TypeExpr::Int) => true,
            (TypeExpr::String, TypeExpr::String) => true,
            (TypeExpr::Named(x), TypeExpr::Named(y)) => *x == *y,
            (TypeExpr::Arrow(a, b), TypeExpr::Arrow(c, d)) => (**a).same_as(&**c) && (**b).same_as(&**d),
            (TypeExpr::Product(a, b), TypeExpr::Product(c, d)) => (**a).same_as(&**c) && (**b).same_as(
                &**d,
            ),
            (TypeExpr::Sum(a, b), TypeExpr::Sum(c, d)) => (**a).same_as(&**c) && (**b).same_as(&**d),
            (TypeExpr::Path(a, x, y), TypeExpr::Path(c, u, v)) => (**a).same_as(&**c) && *x == *u
                && *y == *v,
            (TypeExpr::Universe(n), TypeExpr::Universe(m)) => *n == *m,
            _ => false,
        }
    }

    /// Appends the written form of this type expression to `s`.
    fn write_to(&self, s: &mut String)
        ensures
            final(s)@ == old(s)@ + type_text(self@),
        decreases self,
    {
        match self {
            TypeExpr::Unit => s.append("Unit"),
            TypeExpr::Bool => s.append("Bool"),
            TypeExpr::Int => s.append("Int"),
            TypeExpr::String => s.append("String"),
            TypeExpr::Named(n) => s.append(n.as_str()),
            TypeExpr::Arrow(a, b) => {
                s.append("(");
                (**a).write_to(s);
                s.append(" → ");
                (**b).write_to(s);
                s.append(")");
            },
            TypeExpr::Product(a, b) => {
                s.append("(");
                (**a).write_to(s);
                s.append(" × ");
                (**b).write_to(s);
                s.append(")");
            },
            TypeExpr::Sum(a, b) => {
                s.append("(");
                (**a).write_to(s);
                s.append(" + ");
                (**b).write_to(s);
                s.append(")");
            },
            TypeExpr::Path(a, x, y) => {
                s.append("Path[");
                (**a).write_to(s);
                s.append("] ");
                s.append(x.as_str());
                s.append(" ");
                s.append(y.as_str());
            },
            TypeExpr::Universe(n) => {
                s.append("U");
                push_decimal(s, *n);
            },
        }
    }

    /// The written form of this type expression, e.g. `(Bool → Int)`.
    pub fn to_string(&self) -> (s: String)
        ensures
            s@ == type_text(self@),
    {
        let mut s = String::new();
        self.write_to(&mut s);
        s
    }
}


/// A term of the type theory.
#[derive(Debug, PartialEq, Eq, Hash)]
pub enum Term {
    Var(String),
    Lit(Literal),
    /// Lambda abstraction
    Lam(String, Box<Term>),
    /// Application
    App(Box<Term>, Box<Term>),
    /// Pair
    Pair(Box<Term>, Box<Term>),
    /// First projection
    Fst(Box<Term>),
    /// Second projection
    Snd(Box<Term>),
    /// Reflexivity: the constant path
    Refl(Box<Term>),
    /// Path application: p @ i where p is a path and i is an interval variable
    PathApp(String, String),
}

/// A literal value.
#[derive(Debug, PartialEq, Eq, Hash)]
pub enum Literal {
    Unit,
    Bool(bool),
    Int(i64),
    Str(String),
}

/// The mathematical value of a [`Literal`].
pub enum LiteralModel {
    Unit,
    Bool(bool),
    Int(i64),
    Str(Seq<char>),
}

/// The mathematical value of a [`Term`]: names are character sequences.
pub enum TermModel {
    Var(Seq<char>),
    Lit(LiteralModel),
    Lam(Seq<char>, Box<TermModel>),
    App(Box<TermModel>, Box<TermModel>),
    Pair(Box<TermModel>, Box<TermModel>),
    Fst(Box<TermModel>),
    Snd(Box<TermModel>),
    Refl(Box<TermModel>),
    PathApp(Seq<char>, Seq<char>),
}

impl View for Literal {
    type V = LiteralModel;

    open spec fn view(&self) -> LiteralModel {
        match *self {
            Literal::Unit => LiteralModel::Unit,
            Literal::Bool(b) => LiteralModel::Bool(b),
            Literal::Int(i) => LiteralModel::Int(i),
            Literal::Str(s) => LiteralModel::Str(s@),
        }
    }
}

/// The model of a term.
pub open spec fn term_model(t: Term) -> TermModel
    decreases t,
{
    match t {
        Term::Var(x) => TermModel::Var(x@),
        Term::Lit(l) => TermModel::Lit(l@),
        Term::Lam(x, b) => TermModel::Lam(x@, Box::new(term_model(*b))),
        Term::App(a, b) => TermModel::App(Box::new(term_model(*a)), Box::new(term_model(*b))),
        Term::Pair(a, b) => TermModel::Pair(Box::new(term_model(*a)), Box::new(term_model(*b))),
        Term::Fst(a) => TermModel::Fst(Box::new(term_model(*a))),
        Term::Snd(a) => TermModel::Snd(Box::new(term_model(*a))),
        Term::Refl(a) => TermModel::Refl(Box::new(term_model(*a))),
        Term::PathApp(p, i) => TermModel::PathApp(p@, i@),
    }
}

impl View for Term {
    type V = TermModel;

    open spec fn view(&self) -> TermModel {
        term_model(*self)
    }
}

impl Clone for Literal {
    fn clone(&self) -> (r: Self)
        ensures
            r == *self,
    {
        match self {
            Literal::Unit => Literal::Unit,
            Literal::Bool(b) => Literal::Bool(*b),
            Literal::Int(i) => Literal::Int(*i),
            Literal::Str(s) => Literal::Str(s.clone()),
        }
    }
}

impl Literal {
    /// Whether two literals are the same value.
    pub fn same_as(&self, other: &Literal) -> (r: bool)
        ensures
            r == (self@ == other@),
    {
        match (self, other) {
            (Literal::Unit, Literal::Unit) => true,
            (Literal::Bool(a), Literal::Bool(b)) => *a == *b,
            (Literal::Int(a), Literal::Int(b)) => *a == *b,
            (Literal::Str(a), Literal::Str(b)) => *a == *b,
            _ => false,
        }
    }
}

impl Clone for Term {
    fn clone(&self) -> (r: Self)
        ensures
            r == *self,
        decreases self,
    {
        match self {
            Term::Var(x) => Term::Var(x.clone()),
            Term::Lit(l) => Term::Lit(l.clone()),
            Term::Lam(x, b) => Term::Lam(x.clone(), Box::new((**b).clone())),
            Term::App(a, b) => Term::App(Box::new((**a).clone()), Box::new((**b).clone())),
            Term::Pair(a, b) => Term::Pair(Box::new((**a).clone()), Box::new((**b).clone())),
            Term::Fst(a) => Term::Fst(Box::new((**a).clone())),
            Term::Snd(a) => Term::Snd(Box::new((**a).clone())),
            Term::Refl(a) => Term::Refl(Box::new((**a).clone())),
            Term::PathApp(p, i) => Term::PathApp(p.clone(), i.clone()),
        }
    }
}

impl Term {
    /// Whether two terms are syntactically the same.
    pub fn same_as(&self, other: &Term) -> (r: bool)
        ensures
            r == (self@ == other@),
        decreases self,
    {
        match (self, other) {
            (Term::Var(x), Term::Var(y)) => *x == *y,
            (Term::Lit(a), Term::Lit(b)) => a.same_as(b),
            (Term::Lam(x, a), Term::Lam(y, b)) => *x == *y && (**a).same_as(&**b),
            (Term::App(a, b), Term::App(c, d)) => (**a).same_as(&**c) && (**b).same_as(&**d),
            (Term::Pair(a, b), Term::Pair(c, d)) => (**a).same_as(&**c) && (**b).same_as(&**d),
            (Term::Fst(a), Term::Fst(b)) => (**a).same_as(&**b),
            (Term::Snd(a), Term::Snd(b)) => (**a).same_as(&**b),
            (Term::Refl(a), Term::Refl(b)) => (**a).same_as(&**b),
            (Term::PathApp(p, i), Term::PathApp(q, j)) => *p == *q && *i == *j,
            _ => false,
        }
    }
}

/// A path between terms: `Path A a b`, written as a body over an interval variable.
#[derive(Debug, PartialEq)]
pub struct PathTerm {
    /// The type this path lives in.
    pub ty: TypeExpr,
    /// The source endpoint.
    pub src: Box<Term>,
    /// The target endpoint.
    pub tgt: Box<Term>,
    /// The interval variable name.
    pub var: String,
    /// The body: a term parameterized by the interval.
    pub body: Box<Term>,
}

impl Clone for PathTerm {
    fn clone(&self) -> (r: Self)
        ensures
            r == *self,
    {
        PathTerm {
            ty: self.ty.clone(),
            src: Box::new((*self.src).clone()),
            tgt: Box::new((*self.tgt).clone()),
            var: self.var.clone(),
            body: Box::new((*self.body).clone()),
        }
    }
}

/// The inverse of a path: the endpoints swap, everything else stays.
pub open spec fn inverse_spec(p: PathTerm) -> PathTerm {
    PathTerm { ty: p.ty, src: p.tgt, tgt: p.src, var: p.var, body: p.body }
}

/// Errors in path operations.
#[derive(Debug, Clone, Copy, PartialEq, Eq, Structural)]
pub enum PathError {
    TypeMismatch,
    EndpointMismatch,
    InvalidComposition,
    NonPathTerm,
}

impl PathTerm {
    /// The reflexive (constant) path at a term, over the interval variable `i`.
    pub fn refl(ty: TypeExpr, term: Term) -> (r: Self)
        ensures
            r.ty == ty,
            *r.src == term,
            *r.tgt == term,
            r.var@ == "i"@,
            *r.body == term,
            r.src@ == r.tgt@,
    {
        let var = String::from_str("i");
        PathTerm {
            ty,
            src: Box::new(term.clone()),
            tgt: Box::new(term.clone()),
            var,
            body: Box::new(term),
        }
    }

    /// Invert a path: p⁻¹ goes from b to a.
    pub fn inverse(&self) -> (r: Self)
        ensures
            r == inverse_spec(*self),
    {
        PathTerm {
            ty: self.ty.clone(),
            src: Box::new((*self.tgt).clone()),
            tgt: Box::new((*self.src).clone()),
            var: self.var.clone(),
            body: Box::new((*self.body).clone()),
        }
    }

    /// Compose two paths: p · q where p : a → b, q : b → c.
    pub fn compose(&self, other: &PathTerm) -> (r: Result<PathTerm, PathError>)
        ensures
            self.ty@ != other.ty@ ==> r == Err::<PathTerm, PathError>(PathError::TypeMismatch),
            self.ty@ == other.ty@ && self.tgt@ != other.src@ ==> r == Err::<PathTerm, PathError>(
                PathError::EndpointMismatch,
            ),
            self.ty@ == other.ty@ && self.tgt@ == other.src@ ==> r is Ok,
            r matches Ok(c) ==> {
                &&& c.ty == self.ty
                &&& c.src == self.src
                &&& c.tgt == other.tgt
                &&& c.var@ == "j"@
                &&& c.body@ == TermModel::Var("composed"@)
            },
    {
        if !self.ty.same_as(&other.ty) {
            return Err(PathError::TypeMismatch);
        }
        if !(*self.tgt).same_as(&*other.src) {
            return Err(PathError::EndpointMismatch);
        }
        Ok(PathTerm {
            ty: self.ty.clone(),
            src: Box::new((*self.src).clone()),
            tgt: Box::new((*other.tgt).clone()),
            var: String::from_str("j"),
            body: Box::new(Term::Var(String::from_str("composed"))),
        })
    }

    /// Apply the path at an endpoint: `false` (0) gives the source, `true` (1) the target.
    pub fn at_endpoint(&self, endpoint: bool) -> (r: &Term)
        ensures
            *r == if endpoint { *self.tgt } else { *self.src },
    {
        if endpoint {
            &*self.tgt
        } else {
            &*self.src
        }
    }

    /// Is this a reflexive path (same source and target)?
    pub fn is_refl(&self) -> (r: bool)
        ensures
            r == (self.src@ == self.tgt@),
    {
        (*self.src).same_as(&*self.tgt)
    }
}

/// The link into position `i` of a list of paths composes: same type as the
/// first path, and the previous path ends where path `i` starts.
pub open spec fn link_ok(paths: Seq<PathTerm>, i: int) -> bool {
    &&& paths[i].ty@ == paths[0].ty@
    &&& paths[i - 1].tgt@ == paths[i].src@
}

/// The error at a link that does not compose.
pub open spec fn link_error(paths: Seq<PathTerm>, i: int) -> PathError {
    if paths[i].ty@ != paths[0].ty@ {
        PathError::TypeMismatch
    } else {
        PathError::EndpointMismatch
    }
}

/// Path composition using homogeneous composition (hcomp): composes the paths in turn.
pub fn hcomp_path(_ty: TypeExpr, paths: &[PathTerm]) -> (r: Result<PathTerm, PathError>)
    ensures
        paths@.len() == 0 ==> r == Err::<PathTerm, PathError>(PathError::InvalidComposition),
        paths@.len() > 0 ==> (r is Ok <==> forall|i: int| 1 <= i < paths@.len() ==> link_ok(paths@, i)),
        r matches Ok(c) ==> {
            &&& c.ty == paths@[0].ty
            &&& c.src == paths@[0].src
            &&& c.tgt == paths@[paths@.len() - 1].tgt
            &&& paths@.len() == 1 ==> c == paths@[0]
            &&& paths@.len() > 1 ==> c.var@ == "j"@ && c.body@ == TermModel::Var("composed"@)
        },
        paths@.len() > 0 ==> (r matches Err(e) ==> exists|i: int|
            1 <= i < paths@.len() && (forall|j: int| 1 <= j < i ==> link_ok(paths@, j)) && !link_ok(paths@, i)
                && e == link_error(paths@, i)),
{
    if paths.len() == 0 {
        return Err(PathError::InvalidComposition);
    }
    let mut current = paths[0].clone();
    let mut k: usize = 1;
    while k < paths.len()
        invariant
            1 <= k <= paths@.len(),
            forall|j: int| 1 <= j < k ==> link_ok(paths@, j),
            current.ty == paths@[0].ty,
            current.src == paths@[0].src,
            current.tgt == paths@[k - 1].tgt,
            k == 1 ==> current == paths@[0],
            k > 1 ==> current.var@ == "j"@ && current.body@ == TermModel::Var("composed"@),
        decreases paths@.len() - k,
    {
        match current.compose(&paths[k]) {
            Ok(c) => {
                current = c;
            },
            Err(e) => {
                assert(!link_ok(paths@, k as int));
                return Err(e);
            },
        }
        k = k + 1;
    }
    Ok(current)
}

/// Congruence: if f : A → B and p : Path A a b, then cong f p : Path B (f a) (f b).
pub fn cong(f: &Term, path: &PathTerm) -> (r: PathTerm)
    ensures
        r.ty == TypeExpr::Unit,
        *r.src == Term::App(Box::new(*f), path.src),
        *r.tgt == Term::App(Box::new(*f), path.tgt),
        r.var == path.var,
        *r.body == Term::App(Box::new(*f), path.body),
{
    PathTerm {
        ty: TypeExpr::Unit,
        src: Box::new(Term::App(Box::new(f.clone()), Box::new((*path.src).clone()))),
        tgt: Box::new(Term::App(Box::new(f.clone()), Box::new((*path.tgt).clone()))),
        var: path.var.clone(),
        body: Box::new(Term::App(Box::new(f.clone()), Box::new((*path.body).clone()))),
    }
}

/// Symmetry of paths: if p : Path A a b, then sym p : Path A b a.
pub fn sym(path: &PathTerm) -> (r: PathTerm)
    ensures
        r == inverse_spec(*path),
{
    path.inverse()
}
/// Inverting a path twice gives the path back; inversion keeps a
/// reflexive path reflexive; a path composes with its inverse (same type,
/// and the inverse starts where the path ends) into a loop at its source.
pub proof fn lemma_inverse_laws(p: PathTerm)
    ensures
        inverse_spec(inverse_spec(p)) == p,
        p.src@ == p.tgt@ ==> inverse_spec(p).src@ == inverse_spec(p).tgt@,
        p.ty@ == inverse_spec(p).ty@,
        p.tgt@ == inverse_spec(p).src@,
        inverse_spec(p).tgt == p.src,
{
}

/// The written form of a function, product or sum type is its domain's
/// full written form and its codomain's full written form, in order, between
/// an opening and a closing parenthesis and around the connective; a type
/// nested inside another is written with its own parentheses intact.
pub proof fn lemma_type_text_compound(a: TypeModel, b: TypeModel)
    ensures
        ({
            let t = type_text(TypeModel::Arrow(Box::new(a), Box::new(b)));
            let n = type_text(a).len() as int;
            &&& t.len() == n + type_text(b).len() + 5
            &&& t[0] == '('
            &&& t[t.len() - 1] == ')'
            &&& t.subrange(1, n + 1) == type_text(a)
            &&& t.subrange(n + 1, n + 4) == " → "@
            &&& t.subrange(n + 4, t.len() - 1) == type_text(b)
        }),
        ({
            let t = type_text(TypeModel::Product(Box::new(a), Box::new(b)));
            let n = type_text(a).len() as int;
            &&& t.len() == n + type_text(b).len() + 5
            &&& t[0] == '('
            &&& t[t.len() - 1] == ')'
            &&& t.subrange(1, n + 1) == type_text(a)
            &&& t.subrange(n + 1, n + 4) == " × "@
            &&& t.subrange(n + 4, t.len() - 1) == type_text(b)
        }),
        ({
            let t = type_text(TypeModel::Sum(Box::new(a), Box::new(b)));
            let n = type_text(a).len() as int;
            &&& t.len() == n + type_text(b).len() + 5
            &&& t[0] == '('
            &&& t[t.len() - 1] == ')'
            &&& t.subrange(1, n + 1) == type_text(a)
            &&& t.subrange(n + 1, n + 4) == " + "@
            &&& t.subrange(n + 4, t.len() - 1) == type_text(b)
        }),
{
    reveal_strlit("(");
    reveal_strlit(")");
    reveal_strlit(" → ");
    reveal_strlit(" × ");
    reveal_strlit(" + ");
    let ta = type_text(a);
    let tb = type_text(b);
    let n = ta.len() as int;
    let t1 = type_text(TypeModel::Arrow(Box::new(a), Box::new(b)));
    assert(t1 == "("@ + ta + " → "@ + tb + ")"@);
    assert(t1.subrange(1, n + 1) =~= ta);
    assert(t1.subrange(n + 1, n + 4) =~= " → "@);
    assert(t1.subrange(n + 4, t1.len() - 1) =~= tb);
    let t2 = type_text(TypeModel::Product(Box::new(a), Box::new(b)));
    assert(t2.subrange(1, n + 1) =~= ta);
    assert(t2.subrange(n + 1, n + 4) =~= " × "@);
    assert(t2.subrange(n + 4, t2.len() - 1) =~= tb);
    let t3 = type_text(TypeModel::Sum(Box::new(a), Box::new(b)));
    assert(t3.subrange(1, n + 1) =~= ta);
    assert(t3.subrange(n + 1, n + 4) =~= " + "@);
    assert(t3.subrange(n + 4, t3.len() - 1) =~= tb);
}

} // verus!
