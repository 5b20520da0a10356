//! Checks of exact results, edge cases, error variants and laws on concrete values.

use lau_homotopy_type::cubical::{Cube, CubeFace, CubicalKan, CubicalType, DiscreteKan};
use lau_homotopy_type::equivalence::{funext, Equivalence, Fiber, HalfAdjointEquiv, QuasiInverse, Univalence, EquivError};
use lau_homotopy_type::homotopy::{left_whisker, Function, Homotopy, HomotopyError, NaturalTransformation};
use lau_homotopy_type::hots::{Circle, IntervalHIT, Sphere, SphereConstructor, Suspension, Truncation, prop_truncation};
use lau_homotopy_type::hott_compiler::{
    type_check, verify_pipeline, CompilationPhase, CompilerError, CompilerPipeline, RelationalSemantics, TypeCheckResult,
};
use lau_homotopy_type::identity::{
    definitionally_equal, normalize_proof, IdentityContext, IdentityProof, IdentityType,
};
use lau_homotopy_type::interval::{Face, FaceMap, Interval};
use lau_homotopy_type::path::{hcomp_path, Literal, PathError, PathTerm, Term, TypeExpr};
use lau_homotopy_type::transport::{transport_along_id, transport_along_path, transport_inv, subst, TypeFamily};

fn var(s: &str) -> Term {
    Term::Var(s.to_string())
}

fn path(ty: TypeExpr, a: &str, b: &str) -> PathTerm {
    PathTerm {
        ty,
        src: Box::new(var(a)),
        tgt: Box::new(var(b)),
        var: "i".to_string(),
        body: Box::new(var("body")),
    }
}

fn pid(n: &str, a: &str, b: &str) -> IdentityProof {
    IdentityProof::Path(n.to_string(), a.to_string(), b.to_string())
}

#[test]
fn interval_variables_meet_join_conservatively() {
    assert_eq!(Interval::var(1).meet(&Interval::var(2)), Interval::I0);
    assert_eq!(Interval::var(1).join(&Interval::var(2)), Interval::I1);
    assert_eq!(Interval::var(4) & Interval::i1(), Interval::var(4));
    assert_eq!(Interval::i0() | Interval::var(4), Interval::var(4));
    assert_eq!(Interval::var(7).neg(), Interval::var(7));
    assert_eq!(Interval::var(3).meet(&Interval::var(3)), Interval::var(3));
    assert_eq!(Interval::var(3).join(&Interval::var(3)), Interval::var(3));
    assert!(Interval::var(0).is_var());
    assert_eq!(Interval::var(42).to_string(), "i_42");
}

#[test]
fn interval_laws_on_values() {
    let pts = [Interval::I0, Interval::I1, Interval::Var(1), Interval::Var(2)];
    for a in pts {
        assert_eq!(!!a, a);
        assert_eq!(a & a, a);
        assert_eq!(a | a, a);
        for b in pts {
            assert_eq!(a & b, b & a);
            assert_eq!(!(a & b), !a | !b);
            assert_eq!(!(a | b), !a & !b);
            for c in pts {
                assert_eq!(a & (b & c), (a & b) & c);
                assert_eq!(a | (b | c), (a | b) | c);
            }
        }
    }
}

#[test]
fn face_edge_cases() {
    let empty = Face::empty();
    assert!(empty.is_empty());
    assert!(empty.satisfied_by(&[]));
    let f = Face::constrain(2, Interval::I0);
    assert!(!f.is_empty());
    assert!(f.satisfied_by(&[(1, Interval::I1), (2, Interval::I0)]));
    assert!(!f.satisfied_by(&[]));
    assert!(!f.satisfied_by(&[(3, Interval::I0)]));
}

#[test]
fn cube_boundary_faces_exact() {
    let b = Cube::square().boundary();
    assert_eq!(b[0], CubeFace { cube: Cube::n(1), face_map: FaceMap::face_0(0) });
    assert_eq!(b[1], CubeFace { cube: Cube::n(1), face_map: FaceMap::face_1(0) });
    assert_eq!(b[3], CubeFace { cube: Cube::n(1), face_map: FaceMap::face_1(1) });
    assert_eq!(Cube::n(5).boundary().len(), 10);
    assert!(Cube::point().degeneracies().is_empty());
}

#[test]
fn cubical_square_boundary_exact() {
    let mut ct: CubicalType<u32> = CubicalType::new("T");
    let sq = ct.add_square(9, 1, 2, 3, 4);
    assert_eq!(sq, 0);
    assert_eq!(
        ct.terms[sq].boundary,
        vec![(FaceMap::face_0(1), 1), (FaceMap::face_1(1), 2), (FaceMap::face_0(0), 3), (FaceMap::face_1(0), 4)]
    );
    assert_eq!(ct.terms_at_dim(2).len(), 1);
    assert_eq!(ct.terms_at_dim(0).len(), 0);
    assert_eq!(ct.name, "T");
}

#[test]
fn kan_filler_boundary_exact() {
    let mut ct: CubicalType<String> = CubicalType::new("T");
    let a = ct.add_point("a".to_string());
    let b = ct.add_point("b".to_string());
    let cap = ct.add_path("cap".to_string(), a, b);
    let r = DiscreteKan.compose(&mut ct, &[a, b], cap);
    assert_eq!(r, 3);
    assert_eq!(ct.terms[r].value, "cap");
    assert_eq!(
        ct.terms[r].boundary,
        vec![
            (FaceMap::face_0(0), a),
            (FaceMap::face_1(0), a),
            (FaceMap::face_0(1), b),
            (FaceMap::face_1(1), b),
            (FaceMap::face_0(1), cap),
        ]
    );
    let f = DiscreteKan.fill(&mut ct, &[], r);
    assert_eq!(ct.terms[f].dim, 3);
    assert_eq!(ct.terms[f].boundary, vec![(FaceMap::face_0(2), r)]);
}

#[test]
fn path_composition_exact_and_errors() {
    let p = path(TypeExpr::Unit, "a", "b");
    let q = path(TypeExpr::Unit, "b", "c");
    let c = p.compose(&q).unwrap();
    assert_eq!(c.var, "j");
    assert_eq!(*c.body, var("composed"));
    assert_eq!(hcomp_path(TypeExpr::Unit, &[]), Err(PathError::InvalidComposition));
    assert_eq!(hcomp_path(TypeExpr::Unit, &[p.clone()]), Ok(p.clone()));
    let bad_ty = path(TypeExpr::Bool, "c", "d");
    let bad_end = path(TypeExpr::Unit, "x", "d");
    assert_eq!(hcomp_path(TypeExpr::Unit, &[p.clone(), q.clone(), bad_ty]), Err(PathError::TypeMismatch));
    assert_eq!(hcomp_path(TypeExpr::Unit, &[p.clone(), q.clone(), bad_end]), Err(PathError::EndpointMismatch));
    assert_eq!(p.inverse().inverse(), p);
    assert_eq!(*p.at_endpoint(true), var("b"));
    assert!(!p.is_refl());
    let lit = Term::Lit(Literal::Int(3));
    assert!(PathTerm::refl(TypeExpr::Int, lit.clone()).is_refl());
    assert!(p.compose(&p.inverse()).unwrap().src == p.src);
}

#[test]
fn type_expr_written_forms() {
    let t = TypeExpr::Product(Box::new(TypeExpr::Named("A".to_string())), Box::new(TypeExpr::String));
    assert_eq!(t.to_string(), "(A × String)");
    let s = TypeExpr::Sum(Box::new(TypeExpr::Unit), Box::new(TypeExpr::Universe(12)));
    assert_eq!(s.to_string(), "(Unit + U12)");
    let p = TypeExpr::Path(Box::new(TypeExpr::Bool), "a".to_string(), "b".to_string());
    assert_eq!(p.to_string(), "Path[Bool] a b");
}

#[test]
fn identity_proof_endpoints_and_normal_forms() {
    let ctx = IdentityContext::new();
    let p = pid("p", "a", "b");
    let inv2 = ctx.invert_proof(ctx.invert_proof(p.clone()));
    assert_eq!(inv2.src(), "a");
    assert_eq!(inv2.tgt(), "b");
    let c = IdentityProof::Compose(Box::new(p.clone()), Box::new(IdentityProof::Refl("b".to_string())));
    assert_eq!(normalize_proof(&c), p);
    let n = normalize_proof(&IdentityProof::Inv(Box::new(c.clone())));
    assert_eq!(n, IdentityProof::Inv(Box::new(p.clone())));
    assert_eq!(normalize_proof(&n), n);
    let cong = IdentityProof::Cong("f".to_string(), Box::new(c.clone()));
    assert_eq!(normalize_proof(&cong), cong);
    assert_eq!(cong.src(), "a");
}

#[test]
fn identity_context_queries() {
    let mut ctx = IdentityContext::new();
    assert!(ctx.is_proposition("Nat"));
    ctx.assume_equal(IdentityType::new("Nat", "a", "a"), IdentityProof::Refl("a".to_string()));
    assert!(ctx.is_proposition("Nat"));
    ctx.assume_equal(IdentityType::new("Nat", "a", "b"), pid("p", "a", "b"));
    ctx.assume_equal(IdentityType::new("Nat", "b", "a"), pid("q", "b", "a"));
    assert!(!ctx.is_proposition("Nat"));
    assert!(ctx.is_proposition("Int"));
    assert_eq!(ctx.propositional_equal("Nat", "b", "a"), Some(&pid("p", "a", "b")));
    assert_eq!(ctx.propositional_equal("Int", "a", "b"), None);
    assert!(ctx.definitional_equal("x", "x"));
    assert!(!ctx.definitional_equal("x", "y"));
    assert!(definitionally_equal(&var("x"), &var("x")));
    assert!(!definitionally_equal(&var("x"), &Term::Fst(Box::new(var("x")))));
}

#[test]
fn transport_exact_names() {
    let p = path(TypeExpr::Named("A".to_string()), "a1", "a2");
    let t = transport_along_path(&p, "x");
    assert_eq!(t.output, "transport(i, x)");
    assert_eq!(t.along, "path_a1_a2");
    let q = PathTerm::refl(TypeExpr::Unit, Term::Lit(Literal::Unit));
    assert_eq!(transport_along_path(&q, "y").along, "path_term_term");
    let inv = transport_inv(&p, "x");
    assert_eq!(inv.input, "transport(i, x)");
    assert_eq!(inv.along, "inv_path_a1_a2");
    let id = IdentityType::new("Nat", "zero", "one");
    let r = transport_along_id(&id, &pid("p", "zero", "one"), "x");
    assert_eq!(r.output, "transport_id(zero, x)");
    assert_eq!(r.along, "zero_eq_one");
    assert_eq!(r.source_type, TypeExpr::Named("Nat".to_string()));
    let fam = TypeFamily::new("C", TypeExpr::Int, TypeExpr::Bool);
    let s = subst(&fam, &pid("p", "a", "b"), "ca");
    assert_eq!(s.output, "subst(a, ca)");
    assert_eq!(s.along, "eq_a_b");
}

#[test]
fn homotopy_errors_and_inverse_twice() {
    let f = Function::new("f", TypeExpr::Unit, TypeExpr::Unit);
    let g = Function::new("g", TypeExpr::Unit, TypeExpr::Unit);
    let k = Function::new("k", TypeExpr::Unit, TypeExpr::Bool);
    let mut h = Homotopy::new("H", f.clone(), g.clone()).unwrap();
    h.witness("x", "a", "b");
    assert_eq!(h.witnesses[0].path_name, "H_x");
    let other = Homotopy::new("K", f.clone(), g.clone()).unwrap();
    assert_eq!(h.compose(&other), Err(HomotopyError::CompositionMismatch));
    let gk = Homotopy { name: "G".to_string(), f: g.clone(), g: k, witnesses: vec![] };
    assert_eq!(h.compose(&gk), Err(HomotopyError::IncompatibleFunctions));
    let back = h.inverse().inverse();
    assert_eq!(back.f, h.f);
    assert_eq!(back.g, h.g);
    assert_eq!(back.name, "H_inv_inv");
    assert_eq!(back.witnesses[0].f_value, "a");
    assert_eq!(back.witnesses[0].path_name, "H_x_inv_inv");
    let w = left_whisker(&Function::new("h", TypeExpr::Unit, TypeExpr::Int), &h);
    assert_eq!(w.witnesses[0].f_value, "h(a)");
    assert_eq!(w.f.name, "h_after_f");
    assert_eq!(w.f.codomain, TypeExpr::Int);
}

#[test]
fn vertical_composition_components() {
    let mut a = NaturalTransformation::new("alpha", "F", "G");
    a.add_component("X", "alpha_X");
    a.add_component("Y", "alpha_Y");
    let mut b = NaturalTransformation::new("beta", "G", "H");
    b.add_component("Y", "beta_Y");
    b.add_component("Y", "beta_Y2");
    let c = a.vertical_compose(&b).unwrap();
    assert_eq!(c.name, "alpha_vcomp_beta");
    assert_eq!(c.components, vec![("Y".to_string(), "beta_Y".to_string())]);
    assert_eq!(b.vertical_compose(&a), Err(HomotopyError::CompositionMismatch));
}

#[test]
fn equivalence_names_and_laws() {
    let e1 = Equivalence::new("e1", TypeExpr::Bool, TypeExpr::Int, "f", "g");
    let e2 = Equivalence::new("e2", TypeExpr::Int, TypeExpr::Unit, "h", "k");
    let e3 = Equivalence::new("e3", TypeExpr::Unit, TypeExpr::Bool, "m", "n");
    let c = e1.compose(&e2).unwrap();
    assert_eq!(c.name, "e2_∘e1");
    assert_eq!(c.forward, "h∘f");
    assert_eq!(c.backward, "g∘k");
    assert_eq!(c.left_triangle, "e2_∘e1_left_tri");
    assert_eq!(c.compose(&e3).unwrap(), e1.compose(&e2.compose(&e3).unwrap()).unwrap());
    assert_eq!(e2.compose(&e2), Err(EquivError::TypeMismatch));
    let ii = e1.inverse().inverse();
    assert_eq!((ii.source_type, ii.target_type, ii.forward, ii.backward), (TypeExpr::Bool, TypeExpr::Int, "f".to_string(), "g".to_string()));
    assert!(!e1.is_identity());
    let u = Univalence::new(3);
    let w = u.ua(&u.id_to_equiv(&TypeExpr::Unit, &TypeExpr::Bool));
    assert_eq!((w.source, w.target, w.universe), (TypeExpr::Unit, TypeExpr::Bool, 3));
    assert_eq!(w.equivalence_name, "idtoeqv");
    let qi = QuasiInverse {
        f: Function::new("f", TypeExpr::Bool, TypeExpr::Int),
        g: Function::new("g", TypeExpr::Int, TypeExpr::Bool),
        left_inv: "l".to_string(),
        right_inv: "r".to_string(),
    };
    let hae = HalfAdjointEquiv::from_quasi_inverse(&qi);
    assert_eq!(hae.adjustment, "adj_f");
    assert_eq!(hae.equiv.backward, "g");
    let mut fib = Fiber::new("f", "b");
    assert!(!fib.is_contractible());
    fib.add_element("a");
    assert!(fib.is_contractible());
    let f = Function::new("f", TypeExpr::Unit, TypeExpr::Bool);
    let g = Function::new("g", TypeExpr::Unit, TypeExpr::Int);
    assert_eq!(funext(&f, &g, &[]), Err(EquivError::TypeMismatch));
}

#[test]
fn hit_shapes() {
    let c = Circle::default();
    assert_eq!(c.loop_path.ty, TypeExpr::Named("S¹".to_string()));
    assert!(c.loop_path.is_refl());
    let s3 = Sphere::sn(3);
    assert_eq!(s3.constructors[1], SphereConstructor::Cell { dim: 3, name: "cell_3".to_string() });
    assert_eq!(Sphere::sn(0), Sphere::s0());
    let s0 = Suspension::suspend_sphere(0);
    assert_eq!(
        s0.meridians,
        vec![("north".to_string(), "merid_0".to_string()), ("south".to_string(), "merid_1".to_string())]
    );
    let s2 = Suspension::suspend_sphere(2);
    assert_eq!(s2.base_type, "S2");
    assert_eq!(s2.meridians, vec![("base".to_string(), "merid_0".to_string())]);
    let i = IntervalHIT::default();
    assert_eq!(*i.seg.src, var("i0"));
    assert_eq!(*i.seg.tgt, var("i1"));
    assert_eq!(Truncation::new("A", 2).level_name(), "hGroupoid");
    assert_eq!(Truncation::new("A", 7).level_name(), "n-type");
    assert_eq!(Truncation::new("A", -1).level_name(), "contractible");
    assert!(prop_truncation("A").is_prop());
    assert!(!Truncation::unit().is_contractible());
}

#[test]
fn pipeline_names_and_errors() {
    let mut p = CompilerPipeline::new("c");
    p.add_phase(CompilationPhase::new("p1", "A", "B"));
    p.add_phase(CompilationPhase::new("p2", "B", "C"));
    let e = p.total_equivalence().unwrap();
    assert_eq!(e.name, "p2_∘p1_∘id_equiv");
    assert_eq!(e.forward, "p2_map∘p1_map∘id");
    assert_eq!(e.backward, "id∘p1_map_inv∘p2_map_inv");
    let v = verify_pipeline(&p).unwrap();
    assert_eq!(v.phases, vec!["p1".to_string(), "p2".to_string()]);
    assert_eq!(v.correctness_witness, "equiv:p2_∘p1_∘id_equiv");
    p.add_phase(CompilationPhase::new("p3", "X", "Y"));
    p.add_phase(CompilationPhase::new("p4", "Z", "W"));
    assert_eq!(p.total_equivalence(), Err(CompilerError::PhaseMismatch { phase: "p3".to_string() }));
    assert_eq!(verify_pipeline(&p), Err(CompilerError::PhaseMismatch { phase: "p3".to_string() }));
    assert_eq!(verify_pipeline(&CompilerPipeline::new("e")), Err(CompilerError::EmptyPipeline));
}

#[test]
fn type_check_messages_and_lookup() {
    let ctx = IdentityContext::new();
    match type_check(&ctx, &TypeExpr::Bool, &TypeExpr::Int, "x", "y") {
        TypeCheckResult::TypeError(info) => {
            assert_eq!(info.message, "Expected Bool but got Int");
            assert_eq!(info.hole, Some("need: x = y".to_string()));
        }
        _ => panic!("expected a type error"),
    }
    let mut ctx = IdentityContext::new();
    ctx.assume_equal(IdentityType::new("(Bool → Int)", "f", "g"), pid("p", "f", "g"));
    let arrow = TypeExpr::Arrow(Box::new(TypeExpr::Bool), Box::new(TypeExpr::Int));
    assert_eq!(type_check(&ctx, &arrow, &arrow, "g", "f"), TypeCheckResult::PropEqual(pid("p", "f", "g")));
    assert!(matches!(type_check(&ctx, &arrow, &arrow, "g", "h"), TypeCheckResult::TypeError(_)));
    assert_eq!(type_check(&ctx, &arrow, &arrow, "h", "h"), TypeCheckResult::DefEqual);
}

#[test]
fn relation_checks() {
    let mut rel = RelationalSemantics::new("r");
    assert!(rel.is_deterministic());
    assert!(rel.is_total_for(&[]));
    assert!(!rel.is_total_for(&["x"]));
    rel.relate("x", "a");
    rel.relate("x", "a");
    assert!(rel.is_deterministic());
    assert!(rel.related("x", "a"));
    assert!(!rel.related("a", "x"));
}
