//! Tests of the interval module.

use lau_homotopy_type::interval::{Face, FaceMap, Interval};


#[test]
fn test_endpoints() {
    assert!(Interval::i0().is_i0());
    assert!(Interval::i1().is_i1());
    assert!(!Interval::i0().is_i1());
    assert!(!Interval::i1().is_i0());
}

#[test]
fn test_negation() {
    assert_eq!(Interval::i0().neg(), Interval::i1());
    assert_eq!(Interval::i1().neg(), Interval::i0());
    assert_eq!(!Interval::i0(), Interval::i1());
    assert_eq!(!Interval::i1(), Interval::i0());
}

#[test]
fn test_meet_join() {
    assert_eq!(Interval::i0() & Interval::i1(), Interval::i0());
    assert_eq!(Interval::i0() | Interval::i1(), Interval::i1());
    assert_eq!(Interval::i0() & Interval::i0(), Interval::i0());
    assert_eq!(Interval::i1() | Interval::i1(), Interval::i1());
}

#[test]
fn test_display() {
    assert_eq!(Interval::i0().to_string(), "i0");
    assert_eq!(Interval::i1().to_string(), "i1");
    assert_eq!(Interval::var(3).to_string(), "i_3");
}

#[test]
fn test_face_satisfied() {
    let face = Face::constrain(0, Interval::I1);
    assert!(face.satisfied_by(&[(0, Interval::I1)]));
    assert!(!face.satisfied_by(&[(0, Interval::I0)]));
}

#[test]
fn test_face_map() {
    let f0 = FaceMap::face_0(1);
    let f1 = FaceMap::face_1(1);
    assert_eq!(f0.face_at, Interval::I0);
    assert_eq!(f1.face_at, Interval::I1);
}
