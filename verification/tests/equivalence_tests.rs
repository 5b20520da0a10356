//! Tests of the equivalence module.

use lau_homotopy_type::equivalence::{funext, is_equivalence_by_fibers, Equivalence, Fiber, HalfAdjointEquiv, QuasiInverse, Univalence};
use lau_homotopy_type::homotopy::Function;
use lau_homotopy_type::path::TypeExpr;


#[test]
fn test_identity_equivalence() {
    let e = Equivalence::identity(TypeExpr::Bool);
    assert!(e.is_identity());
    assert_eq!(e.source_type, TypeExpr::Bool);
    assert_eq!(e.target_type, TypeExpr::Bool);
}

#[test]
fn test_compose_equivalences() {
    let e1 = Equivalence::new("e1", TypeExpr::Bool, TypeExpr::Int, "f", "g");
    let e2 = Equivalence::new("e2", TypeExpr::Int, TypeExpr::Unit, "h", "k");
    let composed = e1.compose(&e2).unwrap();
    assert_eq!(composed.source_type, TypeExpr::Bool);
    assert_eq!(composed.target_type, TypeExpr::Unit);
}

#[test]
fn test_compose_equivalences_error() {
    let e1 = Equivalence::new("e1", TypeExpr::Bool, TypeExpr::Int, "f", "g");
    let e2 = Equivalence::new("e2", TypeExpr::Bool, TypeExpr::Unit, "h", "k");
    assert!(e1.compose(&e2).is_err());
}

#[test]
fn test_inverse_equivalence() {
    let e = Equivalence::new("e", TypeExpr::Bool, TypeExpr::Int, "f", "g");
    let inv = e.inverse();
    assert_eq!(inv.source_type, TypeExpr::Int);
    assert_eq!(inv.target_type, TypeExpr::Bool);
    assert_eq!(inv.forward, "g");
    assert_eq!(inv.backward, "f");
}

#[test]
fn test_fiber_contractible() {
    let mut fib = Fiber::new("f", "b");
    fib.add_element("a");
    assert!(fib.is_contractible());
    fib.add_element("a'");
    assert!(!fib.is_contractible());
}

#[test]
fn test_is_equivalence_by_fibers() {
    let mut f1 = Fiber::new("f", "b1");
    f1.add_element("a1");
    let mut f2 = Fiber::new("f", "b2");
    f2.add_element("a2");
    assert!(is_equivalence_by_fibers(&[f1, f2]));

    let mut f3 = Fiber::new("f", "b3");
    f3.add_element("a3");
    f3.add_element("a3'");
    assert!(!is_equivalence_by_fibers(&[f3]));
}

#[test]
fn test_half_adjoint_equiv() {
    let f = Function::new("f", TypeExpr::Bool, TypeExpr::Bool);
    let g = Function::new("g", TypeExpr::Bool, TypeExpr::Bool);
    let qi = QuasiInverse { f, g, left_inv: "H1".to_string(), right_inv: "H2".to_string() };
    let hae = HalfAdjointEquiv::from_quasi_inverse(&qi);
    assert!(hae.equiv.name.contains("hae"));
}

#[test]
fn test_univalence() {
    let ua = Univalence::new(0);
    let e = ua.id_to_equiv(&TypeExpr::Bool, &TypeExpr::Int);
    assert_eq!(e.source_type, TypeExpr::Bool);
    assert_eq!(e.target_type, TypeExpr::Int);

    let witness = ua.ua(&e);
    assert_eq!(witness.universe, 0);
    assert_eq!(witness.source, TypeExpr::Bool);
}

#[test]
fn test_funext() {
    let f = Function::new("f", TypeExpr::Unit, TypeExpr::Bool);
    let g = Function::new("g", TypeExpr::Unit, TypeExpr::Bool);
    let witness = funext(&f, &g, &["p1".to_string(), "p2".to_string()]).unwrap();
    assert_eq!(witness.num_points, 2);
}

#[test]
fn test_funext_error() {
    let f = Function::new("f", TypeExpr::Unit, TypeExpr::Bool);
    let g = Function::new("g", TypeExpr::Bool, TypeExpr::Unit);
    assert!(funext(&f, &g, &[]).is_err());
}
