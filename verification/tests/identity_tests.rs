//! Tests of the identity module.

use lau_homotopy_type::identity::{j_rule, normalize_proof, IdentityContext, IdentityError, IdentityProof, IdentityType};


#[test]
fn test_identity_type_refl() {
    let id = IdentityType::new("Nat", "zero", "zero");
    assert!(id.is_refl());
}

#[test]
fn test_identity_type_not_refl() {
    let id = IdentityType::new("Nat", "zero", "succ zero");
    assert!(!id.is_refl());
}

#[test]
fn test_refl_proof() {
    let proof = IdentityProof::Refl("x".to_string());
    assert!(proof.is_refl());
    assert_eq!(proof.src(), "x");
    assert_eq!(proof.tgt(), "x");
}

#[test]
fn test_path_proof() {
    let proof = IdentityProof::Path("p".to_string(), "a".to_string(), "b".to_string());
    assert_eq!(proof.src(), "a");
    assert_eq!(proof.tgt(), "b");
}

#[test]
fn test_compose_proofs() {
    let ctx = IdentityContext::new();
    let p = IdentityProof::Path("p".to_string(), "a".to_string(), "b".to_string());
    let q = IdentityProof::Path("q".to_string(), "b".to_string(), "c".to_string());
    let r = ctx.compose_proofs(p, q).unwrap();
    assert_eq!(r.src(), "a");
    assert_eq!(r.tgt(), "c");
}

#[test]
fn test_compose_proofs_error() {
    let ctx = IdentityContext::new();
    let p = IdentityProof::Path("p".to_string(), "a".to_string(), "b".to_string());
    let q = IdentityProof::Path("q".to_string(), "c".to_string(), "d".to_string());
    assert_eq!(ctx.compose_proofs(p, q), Err(IdentityError::EndpointMismatch));
}

#[test]
fn test_invert_proof() {
    let ctx = IdentityContext::new();
    let p = IdentityProof::Path("p".to_string(), "a".to_string(), "b".to_string());
    let inv = ctx.invert_proof(p);
    assert_eq!(inv.src(), "b");
    assert_eq!(inv.tgt(), "a");
}

#[test]
fn test_propositional_equal() {
    let mut ctx = IdentityContext::new();
    ctx.assume_equal(
        IdentityType::new("Nat", "a", "b"),
        IdentityProof::Path("p".to_string(), "a".to_string(), "b".to_string()),
    );
    assert!(ctx.propositional_equal("Nat", "a", "b").is_some());
    assert!(ctx.propositional_equal("Nat", "b", "a").is_some());
    assert!(ctx.propositional_equal("Nat", "a", "c").is_none());
}

#[test]
fn test_j_rule() {
    let result = j_rule("C", "base", "y", &IdentityProof::Refl("x".to_string()));
    assert_eq!(result.result, "J(C, base, y)");
}

#[test]
fn test_normalize_refl() {
    let proof = IdentityProof::Refl("x".to_string());
    assert_eq!(normalize_proof(&proof), proof);
}

#[test]
fn test_normalize_compose_refl() {
    let p = IdentityProof::Refl("x".to_string());
    let q = IdentityProof::Path("q".to_string(), "x".to_string(), "y".to_string());
    let composed = IdentityProof::Compose(Box::new(p), Box::new(q.clone()));
    let norm = normalize_proof(&composed);
    assert_eq!(norm, q);
}

#[test]
fn test_normalize_inv_refl() {
    let p = IdentityProof::Refl("x".to_string());
    let inv = IdentityProof::Inv(Box::new(p));
    assert!(normalize_proof(&inv).is_refl());
}
