//! The library's public items in one place.

pub use crate::cubical::{Composition, Cube, CubeFace, CubicalKan, CubicalTerm, CubicalType, DiscreteKan};
pub use crate::equivalence::{
    funext, is_equivalence_by_fibers, EquivError, Equivalence, Fiber, FunExtWitness, HalfAdjointEquiv,
    QuasiInverse, Univalence, UnivalenceWitness,
};
pub use crate::homotopy::{left_whisker, Function, Homotopy, HomotopyError, HomotopyWitness, NaturalTransformation};
pub use crate::hots::{
    prop_truncation, Circle, CircleRec, Coequalizer, IntervalHIT, IntervalRec, Pushout, Sphere,
    SphereConstructor, Suspension, Truncation,
};
pub use crate::hott_compiler::{
    type_check, verify_phase, verify_pipeline, CompilationPhase, CompilerError, CompilerPipeline,
    RelationalSemantics, TypeCheckResult, TypeErrorInfo, TypeSafety, VerifiedCompilation,
};
pub use crate::identity::{
    definitionally_equal, j_rule, normalize_proof, Equality, IdentityContext, IdentityError, IdentityProof,
    IdentityType, JResult,
};
pub use crate::interval::{Degeneracy, Face, FaceMap, Interval};
pub use crate::path::{cong, hcomp_path, sym, Literal, PathError, PathTerm, Term, TypeExpr};
pub use crate::transport::{
    subst, transport_along_id, transport_along_path, transport_compose, transport_const, transport_inv,
    TransportResult, TypeFamily,
};
