//! Tests of the path module.

use lau_homotopy_type::path::{cong, hcomp_path, sym, PathError, PathTerm, Term, TypeExpr};


#[test]
fn test_refl_path() {
    let t = Term::Var("x".to_string());
    let p = PathTerm::refl(TypeExpr::Unit, t.clone());
    assert!(p.is_refl());
    assert_eq!(*p.at_endpoint(false), t);
    assert_eq!(*p.at_endpoint(true), t);
}

#[test]
fn test_path_inverse() {
    let a = Term::Var("a".to_string());
    let b = Term::Var("b".to_string());
    let p = PathTerm {
        ty: TypeExpr::Unit,
        src: Box::new(a.clone()),
        tgt: Box::new(b.clone()),
        var: "i".to_string(),
        body: Box::new(Term::Var("body".to_string())),
    };
    let inv = p.inverse();
    assert_eq!(*inv.src, b);
    assert_eq!(*inv.tgt, a);
}

#[test]
fn test_path_compose() {
    let a = Term::Var("a".to_string());
    let b = Term::Var("b".to_string());
    let c = Term::Var("c".to_string());
    let p = PathTerm {
        ty: TypeExpr::Unit,
        src: Box::new(a),
        tgt: Box::new(b.clone()),
        var: "i".to_string(),
        body: Box::new(Term::Var("p_body".to_string())),
    };
    let q = PathTerm {
        ty: TypeExpr::Unit,
        src: Box::new(b),
        tgt: Box::new(c),
        var: "j".to_string(),
        body: Box::new(Term::Var("q_body".to_string())),
    };
    let composed = p.compose(&q).unwrap();
    assert_eq!(*composed.src, Term::Var("a".to_string()));
    assert_eq!(*composed.tgt, Term::Var("c".to_string()));
}

#[test]
fn test_path_compose_type_error() {
    let p = PathTerm {
        ty: TypeExpr::Bool,
        src: Box::new(Term::Var("a".to_string())),
        tgt: Box::new(Term::Var("b".to_string())),
        var: "i".to_string(),
        body: Box::new(Term::Var("p".to_string())),
    };
    let q = PathTerm {
        ty: TypeExpr::Unit,
        src: Box::new(Term::Var("b".to_string())),
        tgt: Box::new(Term::Var("c".to_string())),
        var: "j".to_string(),
        body: Box::new(Term::Var("q".to_string())),
    };
    assert_eq!(p.compose(&q), Err(PathError::TypeMismatch));
}

#[test]
fn test_path_compose_endpoint_error() {
    let p = PathTerm {
        ty: TypeExpr::Unit,
        src: Box::new(Term::Var("a".to_string())),
        tgt: Box::new(Term::Var("b".to_string())),
        var: "i".to_string(),
        body: Box::new(Term::Var("p".to_string())),
    };
    let q = PathTerm {
        ty: TypeExpr::Unit,
        src: Box::new(Term::Var("c".to_string())), // mismatch!
        tgt: Box::new(Term::Var("d".to_string())),
        var: "j".to_string(),
        body: Box::new(Term::Var("q".to_string())),
    };
    assert_eq!(p.compose(&q), Err(PathError::EndpointMismatch));
}

#[test]
fn test_hcomp_path() {
    let p = PathTerm {
        ty: TypeExpr::Unit,
        src: Box::new(Term::Var("a".to_string())),
        tgt: Box::new(Term::Var("b".to_string())),
        var: "i".to_string(),
        body: Box::new(Term::Var("p".to_string())),
    };
    let q = PathTerm {
        ty: TypeExpr::Unit,
        src: Box::new(Term::Var("b".to_string())),
        tgt: Box::new(Term::Var("c".to_string())),
        var: "j".to_string(),
        body: Box::new(Term::Var("q".to_string())),
    };
    let r = hcomp_path(TypeExpr::Unit, &[p, q]).unwrap();
    assert_eq!(*r.src, Term::Var("a".to_string()));
    assert_eq!(*r.tgt, Term::Var("c".to_string()));
}

#[test]
fn test_cong() {
    let f = Term::Var("f".to_string());
    let p = PathTerm {
        ty: TypeExpr::Bool,
        src: Box::new(Term::Var("a".to_string())),
        tgt: Box::new(Term::Var("b".to_string())),
        var: "i".to_string(),
        body: Box::new(Term::Var("body".to_string())),
    };
    let cp = cong(&f, &p);
    match cp.src.as_ref() {
        Term::App(_, _) => {},
        _ => panic!("Expected App term"),
    }
}

#[test]
fn test_sym() {
    let p = PathTerm {
        ty: TypeExpr::Unit,
        src: Box::new(Term::Var("a".to_string())),
        tgt: Box::new(Term::Var("b".to_string())),
        var: "i".to_string(),
        body: Box::new(Term::Var("p".to_string())),
    };
    let s = sym(&p);
    assert_eq!(*s.src, Term::Var("b".to_string()));
    assert_eq!(*s.tgt, Term::Var("a".to_string()));
}

#[test]
fn test_type_expr_display() {
    assert_eq!(TypeExpr::Unit.to_string(), "Unit");
    assert_eq!(TypeExpr::Arrow(Box::new(TypeExpr::Bool), Box::new(TypeExpr::Int)).to_string(), "(Bool → Int)");
    assert_eq!(TypeExpr::Universe(0).to_string(), "U0");
}
