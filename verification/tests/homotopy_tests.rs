//! Tests of the homotopy module.

use lau_homotopy_type::homotopy::{left_whisker, Function, Homotopy, NaturalTransformation};
use lau_homotopy_type::path::TypeExpr;


#[test]
fn test_homotopy_create() {
    let f = Function::new("f", TypeExpr::Unit, TypeExpr::Bool);
    let g = Function::new("g", TypeExpr::Unit, TypeExpr::Bool);
    let h = Homotopy::new("H", f, g).unwrap();
    assert_eq!(h.name, "H");
    assert_eq!(h.num_witnesses(), 0);
}

#[test]
fn test_homotopy_witness() {
    let f = Function::new("f", TypeExpr::Unit, TypeExpr::Bool);
    let g = Function::new("g", TypeExpr::Unit, TypeExpr::Bool);
    let mut h = Homotopy::new("H", f, g).unwrap();
    h.witness("x", "true", "true");
    assert_eq!(h.num_witnesses(), 1);
}

#[test]
fn test_homotopy_inverse() {
    let f = Function::new("f", TypeExpr::Unit, TypeExpr::Unit);
    let g = Function::new("g", TypeExpr::Unit, TypeExpr::Unit);
    let mut h = Homotopy::new("H", f, g).unwrap();
    h.witness("x", "a", "b");
    let inv = h.inverse();
    assert_eq!(inv.f.name, "g");
    assert_eq!(inv.g.name, "f");
    assert_eq!(inv.witnesses[0].f_value, "b");
    assert_eq!(inv.witnesses[0].g_value, "a");
}

#[test]
fn test_homotopy_compose() {
    let f = Function::new("f", TypeExpr::Unit, TypeExpr::Unit);
    let g = Function::new("g", TypeExpr::Unit, TypeExpr::Unit);
    let h2 = Function::new("h", TypeExpr::Unit, TypeExpr::Unit);
    let mut h1 = Homotopy::new("H1", f, g.clone()).unwrap();
    h1.witness("x", "a", "b");
    let h2 = Homotopy::new("H2", g, h2).unwrap();
    let composed = h1.compose(&h2).unwrap();
    assert_eq!(composed.f.name, "f");
    assert_eq!(composed.g.name, "h");
}

#[test]
fn test_homotopy_incompatible() {
    let f = Function::new("f", TypeExpr::Unit, TypeExpr::Bool);
    let g = Function::new("g", TypeExpr::Bool, TypeExpr::Bool);
    assert!(Homotopy::new("H", f, g).is_err());
}

#[test]
fn test_natural_transformation() {
    let mut nt = NaturalTransformation::new("alpha", "F", "G");
    nt.add_component("X", "alpha_X");
    nt.add_component("Y", "alpha_Y");
    assert_eq!(nt.components.len(), 2);
}

#[test]
fn test_vertical_compose() {
    let mut nt1 = NaturalTransformation::new("alpha", "F", "G");
    nt1.add_component("X", "alpha_X");
    let mut nt2 = NaturalTransformation::new("beta", "G", "H");
    nt2.add_component("X", "beta_X");
    let vcomp = nt1.vertical_compose(&nt2).unwrap();
    assert_eq!(vcomp.source_functor, "F");
    assert_eq!(vcomp.target_functor, "H");
}

#[test]
fn test_left_whisker() {
    let f = Function::new("f", TypeExpr::Unit, TypeExpr::Unit);
    let g = Function::new("g", TypeExpr::Unit, TypeExpr::Unit);
    let h_func = Function::new("h", TypeExpr::Unit, TypeExpr::Unit);
    let mut hom = Homotopy::new("H", f, g).unwrap();
    hom.witness("x", "a", "b");
    let whiskered = left_whisker(&h_func, &hom);
    assert!(whiskered.name.contains("whisker"));
    assert_eq!(whiskered.num_witnesses(), 1);
}
