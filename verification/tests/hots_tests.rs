//! Tests of the hots module.

use lau_homotopy_type::hots::{Circle, Coequalizer, IntervalHIT, Pushout, Sphere, SphereConstructor, Suspension, Truncation};
use lau_homotopy_type::path::{PathTerm, Term, TypeExpr};


#[test]
fn test_circle() {
    let c = Circle::new();
    assert_eq!(c.base, "base");
    assert!(c.loop_path.is_refl()); // loop: base = base
}

#[test]
fn test_circle_rec() {
    let c = Circle::new();
    let loop_img = PathTerm::refl(TypeExpr::Unit, Term::Var("x".to_string()));
    let rec = c.rec("x", &loop_img);
    assert_eq!(rec.base_image, "x");
}

#[test]
fn test_sphere_s0() {
    let s = Sphere::s0();
    assert_eq!(s.dimension, 0);
    assert_eq!(s.constructors.len(), 2);
}

#[test]
fn test_sphere_s1() {
    let s = Sphere::s1();
    assert_eq!(s.dimension, 1);
    assert_eq!(s.constructors.len(), 2);
}

#[test]
fn test_sphere_s2() {
    let s = Sphere::s2();
    assert_eq!(s.dimension, 2);
    let cell = &s.constructors[1];
    match cell {
        SphereConstructor::Cell { dim, name } => {
            assert_eq!(*dim, 2);
            assert_eq!(name, "surf");
        },
        _ => panic!("Expected cell constructor"),
    }
}

#[test]
fn test_sphere_sn() {
    let s5 = Sphere::sn(5);
    assert_eq!(s5.dimension, 5);
}

#[test]
fn test_interval_hit() {
    let i = IntervalHIT::new();
    assert_eq!(i.left, "i0");
    assert_eq!(i.right, "i1");
}

#[test]
fn test_interval_rec() {
    let i = IntervalHIT::new();
    let p = PathTerm {
        ty: TypeExpr::Unit,
        src: Box::new(Term::Var("a".to_string())),
        tgt: Box::new(Term::Var("b".to_string())),
        var: "t".to_string(),
        body: Box::new(Term::Var("p".to_string())),
    };
    let rec = i.rec("a", "b", &p);
    assert_eq!(rec.left_image, "a");
    assert_eq!(rec.right_image, "b");
}

#[test]
fn test_suspension() {
    let mut susp = Sphere::suspend("S0");
    susp.add_meridian("north");
    susp.add_meridian("south");
    assert_eq!(susp.meridians.len(), 2);
}

#[test]
fn test_suspend_sphere() {
    let susp = Suspension::suspend_sphere(0);
    assert_eq!(susp.north, "north");
    assert_eq!(susp.south, "south");
}

#[test]
fn test_truncation_levels() {
    let prop = Truncation::new("A", 0);
    let set = Truncation::new("A", 1);
    let contract = Truncation::new("A", -1);
    assert!(prop.is_prop());
    assert!(set.is_set());
    assert!(contract.is_contractible());
    assert!(!prop.is_set());
}

#[test]
fn test_truncation_level_names() {
    assert_eq!(Truncation::unit().level_name(), "contractible");
    assert_eq!(Truncation::new("A", 0).level_name(), "hProp");
    assert_eq!(Truncation::new("A", 1).level_name(), "hSet");
}

#[test]
fn test_pushout() {
    let mut po = Pushout::new("B", "C");
    po.add_glue("g1");
    po.add_glue("g2");
    assert_eq!(po.glue.len(), 2);
}

#[test]
fn test_coequalizer() {
    let mut coeq = Coequalizer::new("f", "g");
    coeq.identify("a", "b");
    coeq.identify("c", "d");
    assert_eq!(coeq.identified.len(), 2);
}
