//! Homotopy type theory for compilers: type checking as path equivalence,
//! type errors as non-contractible loops, compilation phases as functors.

use vstd::prelude::*;
use crate::path::{TypeExpr, TypeModel, type_text};
use crate::identity::{IdentityProof, IdentityContext, answers};
use crate::equivalence::{Equivalence, EquivModel, equiv_model, compose_model};
use crate::homotopy::Function;

verus! {

/// A type checking result.
#[derive(Debug, Clone, PartialEq)]
pub enum TypeCheckResult {
    /// Terms are definitionally equal (checks pass).
    DefEqual,
    /// Terms are propositionally equal (needs proof).
    PropEqual(IdentityProof),
    /// Type error: the loop is not contractible.
    TypeError(TypeErrorInfo),
}

/// Information about a type error, viewed as a non-contractible loop.
#[derive(Debug, Clone, PartialEq)]
pub struct TypeErrorInfo {
    pub expected: TypeExpr,
    pub got: TypeExpr,
    pub message: String,
    /// The "hole" in the proof: what's missing to make the loop contractible.
    pub hole: Option<String>,
}

/// A compilation phase, viewed as a functor between categories.
#[derive(Debug, Clone, PartialEq)]
pub struct CompilationPhase {
    pub name: String,
    pub source_language: String,
    pub target_language: String,
    /// The semantic function: maps terms to terms.
    pub semantic_map: String,
}

impl CompilationPhase {
    /// A phase from one language to another; its semantic map is named `<name>_map`.
    pub fn new(name: &str, src: &str, tgt: &str) -> (r: Self)
        ensures
            r.name@ == name@,
            r.source_language@ == src@,
            r.target_language@ == tgt@,
            r.semantic_map@ == name@ + "_map"@,
    {
        let mut semantic_map = String::from_str(name);
        semantic_map.append("_map");
        CompilationPhase {
            name: String::from_str(name),
            source_language: String::from_str(src),
            target_language: String::from_str(tgt),
            semantic_map,
        }
    }
}

/// A compiler pipeline: a sequence of compilation phases.
#[derive(Debug, Clone, PartialEq)]
pub struct CompilerPipeline {
    pub name: String,
    pub phases: Vec<CompilationPhase>,
}

/// Errors in compiler verification.
#[derive(Debug, Clone, PartialEq)]
pub enum CompilerError {
    EmptyPipeline,
    PhaseMismatch { phase: String },
    VerificationFailed { reason: String },
    TypeError(TypeErrorInfo),
}

/// A verified compilation: correctness witnessed by an equivalence.
#[derive(Debug, Clone, PartialEq)]
pub struct VerifiedCompilation {
    pub source_term: String,
    pub target_term: String,
    pub phases: Vec<String>,
    pub correctness_witness: String,
}

/// The equivalence a phase stands for: between its languages (as named
/// types), by its semantic map and the map's inverse `<map>_inv`.
pub open spec fn phase_model(p: CompilationPhase) -> EquivModel {
    equiv_model(
        p.name@,
        TypeModel::Named(p.source_language@),
        TypeModel::Named(p.target_language@),
        p.semantic_map@,
        p.semantic_map@ + "_inv"@,
    )
}

/// Composing the phases in turn onto `acc`.
pub open spec fn fold_phases(acc: EquivModel, phases: Seq<CompilationPhase>) -> EquivModel
    decreases phases.len(),
{
    if phases.len() == 0 {
        acc
    } else {
        compose_model(fold_phases(acc, phases.drop_last()), phase_model(phases.last()))
    }
}

/// The equivalence of a whole pipeline: the identity on the first phase's
/// source language followed by every phase in order.
pub open spec fn pipeline_model(phases: Seq<CompilationPhase>) -> EquivModel {
    fold_phases(
        equiv_model(
            "id_equiv"@,
            TypeModel::Named(phases[0].source_language@),
            TypeModel::Named(phases[0].source_language@),
            "id"@,
            "id"@,
        ),
        phases,
    )
}

/// Phase `i` starts in the language where phase `i - 1` ends.
pub open spec fn phases_link(phases: Seq<CompilationPhase>, i: int) -> bool {
    phases[i].source_language@ == phases[i - 1].target_language@
}

/// All consecutive phases link up.
pub open spec fn phases_chain(phases: Seq<CompilationPhase>) -> bool {
    forall|i: int| 1 <= i < phases.len() ==> phases_link(phases, i)
}

/// The error a pipeline's composition fails with: empty, or a mismatch
/// naming the first phase that does not start where the previous one ends.
pub open spec fn is_pipeline_error(phases: Seq<CompilationPhase>, e: CompilerError) -> bool {
    if phases.len() == 0 {
        e is EmptyPipeline
    } else {
        exists|i: int|
            1 <= i < phases.len() && (forall|j: int| 1 <= j < i ==> phases_link(phases, j)) && !phases_link(
                phases,
                i,
            ) && (e matches CompilerError::PhaseMismatch { phase } && phase@ == phases[i].name@)
    }
}

impl CompilerPipeline {
    /// An empty pipeline.
    pub fn new(name: &str) -> (r: Self)
        ensures
            r.name@ == name@,
            r.phases@.len() == 0,
    {
        CompilerPipeline { name: String::from_str(name), phases: Vec::new() }
    }

    /// Append a phase.
    pub fn add_phase(&mut self, phase: CompilationPhase)
        ensures
            final(self).name == old(self).name,
            final(self).phases@ == old(self).phases@.push(phase),
    {
        self.phases.push(phase);
    }

    /// Compose all phases into a single equivalence, if each phase starts
    /// where the previous one ends.
    pub fn total_equivalence(&self) -> (r: Result<Equivalence, CompilerError>)
        ensures
            r is Ok <==> self.phases@.len() > 0 && phases_chain(self.phases@),
            r matches Ok(e) ==> e@ == pipeline_model(self.phases@),
            r matches Err(e) ==> is_pipeline_error(self.phases@, e),
    {
        if self.phases.len() == 0 {
            return Err(CompilerError::EmptyPipeline);
        }
        let ghost phases = self.phases@;
        let ghost init = equiv_model(
            "id_equiv"@,
            TypeModel::Named(phases[0].source_language@),
            TypeModel::Named(phases[0].source_language@),
            "id"@,
            "id"@,
        );
        let mut eq = Equivalence::identity(TypeExpr::Named(self.phases[0].source_language.clone()));
        assert(phases.take(0) =~= Seq::<CompilationPhase>::empty());
        let mut i: usize = 0;
        while i < self.phases.len()
            invariant
                phases == self.phases@,
                phases.len() > 0,
                i <= phases.len(),
                init == equiv_model(
                    "id_equiv"@,
                    TypeModel::Named(phases[0].source_language@),
                    TypeModel::Named(phases[0].source_language@),
                    "id"@,
                    "id"@,
                ),
                eq@ == fold_phases(init, phases.take(i as int)),
                i == 0 ==> eq.target_type@ == TypeModel::Named(phases[0].source_language@),
                i > 0 ==> eq.target_type@ == TypeModel::Named(phases[i - 1].target_language@),
                forall|j: int| 1 <= j < i ==> phases_link(phases, j),
            decreases phases.len() - i,
        {
            let phase = &self.phases[i];
            let mut inv_map = phase.semantic_map.clone();
            inv_map.append("_inv");
            let phase_eq = Equivalence::new(
                phase.name.as_str(),
                TypeExpr::Named(phase.source_language.clone()),
                TypeExpr::Named(phase.target_language.clone()),
                phase.semantic_map.as_str(),
                inv_map.as_str(),
            );
            assert(phase_eq@ == phase_model(phases[i as int]));
            assert(phases.take(i + 1).drop_last() =~= phases.take(i as int));
            match eq.compose(&phase_eq) {
                Ok(e) => {
                    eq = e;
                },
                Err(_) => {
                    assert(i > 0);
                    assert(!phases_link(phases, i as int));
                    assert(!phases_chain(phases));
                    let err = CompilerError::PhaseMismatch { phase: phase.name.clone() };
                    assert(1 <= i < phases.len() && (forall|j: int| 1 <= j < i ==> phases_link(phases, j))
                        && !phases_link(phases, i as int) && (err matches CompilerError::PhaseMismatch { phase }
                        && phase@ == phases[i as int].name@));
                    return Err(err);
                },
            }
            i = i + 1;
        }
        assert(phases.take(phases.len() as int) =~= phases);
        Ok(eq)
    }
}

/// The text `need: <a> = <b>` that names what would close a type error.
pub open spec fn hole_text(a: Seq<char>, b: Seq<char>) -> Seq<char> {
    "need: "@ + a + " = "@ + b
}

/// The message of a type error: `Expected <T> but got <U>`.
pub open spec fn mismatch_text(expected: TypeModel, got: TypeModel) -> Seq<char> {
    "Expected "@ + type_text(expected) + " but got "@ + type_text(got)
}

/// Type check two terms for equality: definitional equality first, then a
/// known propositional equality in the expected type (named by how the type
/// is written), else a type error.
pub fn type_check(ctx: &IdentityContext, expected: &TypeExpr, got: &TypeExpr, term_expected: &str, term_got: &str) -> (r: TypeCheckResult)
    ensures
        expected@ == got@ && term_expected@ == term_got@ ==> r is DefEqual,
        expected@ == got@ && term_expected@ != term_got@ && (exists|i: int|
            0 <= i < ctx.equalities@.len() && answers(
                #[trigger] ctx.equalities@[i],
                type_text(expected@),
                term_expected@,
                term_got@,
            )) ==> (r matches TypeCheckResult::PropEqual(p) && exists|i: int|
            0 <= i < ctx.equalities@.len() && answers(ctx.equalities@[i], type_text(expected@), term_expected@, term_got@)
                && (forall|j: int| 0 <= j < i ==> !answers(#[trigger] ctx.equalities@[j], type_text(expected@), term_expected@, term_got@))
                && p == ctx.equalities@[i].1),
        !(expected@ == got@ && term_expected@ == term_got@) && !(expected@ == got@ && exists|i: int|
            0 <= i < ctx.equalities@.len() && answers(
                #[trigger] ctx.equalities@[i],
                type_text(expected@),
                term_expected@,
                term_got@,
            )) ==> (r matches TypeCheckResult::TypeError(info) && info.expected == *expected && info.got == *got
            && info.message@ == mismatch_text(expected@, got@) && info.hole is Some && info.hole->0@ == hole_text(
            term_expected@,
            term_got@,
        )),
{
    let same_type = expected.same_as(got);
    if same_type && String::from_str(term_expected) == String::from_str(term_got) {
        return TypeCheckResult::DefEqual;
    }
    if same_type {
        let name = expected.to_string();
        match ctx.propositional_equal(name.as_str(), term_expected, term_got) {
            Some(p) => {
                return TypeCheckResult::PropEqual(p.clone());
            },
            None => {},
        }
    }
    let mut message = String::from_str("Expected ");
    message.append(expected.to_string().as_str());
    message.append(" but got ");
    message.append(got.to_string().as_str());
    let mut hole = String::from_str("need: ");
    hole.append(term_expected);
    hole.append(" = ");
    hole.append(term_got);
    TypeCheckResult::TypeError(
        TypeErrorInfo { expected: expected.clone(), got: got.clone(), message, hole: Some(hole) },
    )
}

/// The names of a list of strings, as characters.
pub open spec fn names_view(v: Seq<String>) -> Seq<Seq<char>> {
    v.map_values(|s: String| s@)
}

/// Verify that a compilation phase preserves semantics: the phase is
/// witnessed by the equivalence `<name>_correctness` of its languages.
pub fn verify_phase(phase: &CompilationPhase, semantics_fwd: &Function, semantics_bwd: &Function) -> (r: Result<VerifiedCompilation, CompilerError>)
    ensures
        r matches Ok(v) && v.source_term@ == phase.source_language@ && v.target_term@ == phase.target_language@
            && names_view(v.phases@) == seq![phase.name@] && v.correctness_witness@ == "equiv:"@ + phase.name@
            + "_correctness"@,
{
    let mut name = phase.name.clone();
    name.append("_correctness");
    let equiv = Equivalence::new(
        name.as_str(),
        TypeExpr::Named(phase.source_language.clone()),
        TypeExpr::Named(phase.target_language.clone()),
        semantics_fwd.name.as_str(),
        semantics_bwd.name.as_str(),
    );
    let mut phases = Vec::new();
    phases.push(phase.name.clone());
    let mut witness = String::from_str("equiv:");
    witness.append(equiv.name.as_str());
    let v = VerifiedCompilation {
        source_term: phase.source_language.clone(),
        target_term: phase.target_language.clone(),
        phases,
        correctness_witness: witness,
    };
    assert(names_view(v.phases@) =~= seq![phase.name@]);
    Ok(v)
}

/// Verify an entire pipeline: its total equivalence must exist.
pub fn verify_pipeline(pipeline: &CompilerPipeline) -> (r: Result<VerifiedCompilation, CompilerError>)
    ensures
        r is Ok <==> pipeline.phases@.len() > 0 && phases_chain(pipeline.phases@),
        r matches Err(e) ==> is_pipeline_error(pipeline.phases@, e),
        r matches Ok(v) ==> {
            &&& v.source_term@ == pipeline.phases@[0].source_language@
            &&& v.target_term@ == pipeline.phases@.last().target_language@
            &&& names_view(v.phases@) == pipeline.phases@.map_values(|p: CompilationPhase| p.name@)
            &&& v.correctness_witness@ == "equiv:"@ + pipeline_model(pipeline.phases@).name
        },
{
    let eq = match pipeline.total_equivalence() {
        Ok(e) => e,
        Err(e) => {
            return Err(e);
        },
    };
    let n = pipeline.phases.len();
    let first = &pipeline.phases[0];
    let last = &pipeline.phases[n - 1];
    let mut names: Vec<String> = Vec::new();
    let mut i: usize = 0;
    while i < n
        invariant
            n == pipeline.phases@.len(),
            i <= n,
            names_view(names@) == pipeline.phases@.take(i as int).map_values(|p: CompilationPhase| p.name@),
        decreases n - i,
    {
        let ghost before = names@;
        names.push(pipeline.phases[i].name.clone());
        assert(names_view(names@) =~= names_view(before).push(pipeline.phases@[i as int].name@));
        assert(pipeline.phases@.take(i + 1) =~= pipeline.phases@.take(i as int).push(pipeline.phases@[i as int]));
        assert(names_view(names@) =~= pipeline.phases@.take(i + 1).map_values(|p: CompilationPhase| p.name@));
        i = i + 1;
    }
    assert(pipeline.phases@.take(n as int) =~= pipeline.phases@);
    let mut witness = String::from_str("equiv:");
    witness.append(eq.name.as_str());
    Ok(
        VerifiedCompilation {
            source_term: first.source_language.clone(),
            target_term: last.target_language.clone(),
            phases: names,
            correctness_witness: witness,
        },
    )
}

/// A type safety guarantee: well-typed programs don't go wrong.
#[derive(Debug, Clone, PartialEq)]
pub struct TypeSafety {
    pub language: String,
    /// every well-typed term is a value or steps
    pub progress: bool,
    /// if t : T and t → t', then t' : T
    pub preservation: bool,
}

impl TypeSafety {
    /// Both progress and preservation hold for the language.
    pub fn guaranteed(language: &str) -> (r: Self)
        ensures
            r.language@ == language@,
            r.progress,
            r.preservation,
    {
        TypeSafety { language: String::from_str(language), progress: true, preservation: true }
    }

    /// Safe means progress and preservation.
    pub fn is_safe(&self) -> (r: bool)
        ensures
            r == (self.progress && self.preservation),
    {
        self.progress && self.preservation
    }
}

/// Relational semantics for a compiler pass: the relation between source and target.
#[derive(Debug, Clone, PartialEq)]
pub struct RelationalSemantics {
    pub name: String,
    /// (source, target) term pairs
    pub pairs: Vec<(String, String)>,
}

impl RelationalSemantics {
    /// The empty relation.
    pub fn new(name: &str) -> (r: Self)
        ensures
            r.name@ == name@,
            r.pairs@.len() == 0,
    {
        RelationalSemantics { name: String::from_str(name), pairs: Vec::new() }
    }

    /// Relate a source term to a target term.
    pub fn relate(&mut self, src: &str, tgt: &str)
        ensures
            final(self).name == old(self).name,
            final(self).pairs@.len() == old(self).pairs@.len() + 1,
            final(self).pairs@.drop_last() == old(self).pairs@,
            final(self).pairs@.last().0@ == src@,
            final(self).pairs@.last().1@ == tgt@,
    {
        self.pairs.push((String::from_str(src), String::from_str(tgt)));
        assert(self.pairs@.drop_last() =~= old(self).pairs@);
    }

    /// Check if a source-target pair is in the relation.
    pub fn related(&self, src: &str, tgt: &str) -> (r: bool)
        ensures
            r == exists|i: int|
                0 <= i < self.pairs@.len() && (#[trigger] self.pairs@[i]).0@ == src@ && self.pairs@[i].1@ == tgt@,
    {
        let s = String::from_str(src);
        let t = String::from_str(tgt);
        let mut i: usize = 0;
        while i < self.pairs.len()
            invariant
                i <= self.pairs@.len(),
                s@ == src@,
                t@ == tgt@,
                forall|k: int|
                    0 <= k < i ==> !((#[trigger] self.pairs@[k]).0@ == src@ && self.pairs@[k].1@ == tgt@),
            decreases self.pairs@.len() - i,
        {
            if self.pairs[i].0 == s && self.pairs[i].1 == t {
                return true;
            }
            i = i + 1;
        }
        false
    }

    /// Check determinism: no source is related to two different targets.
    pub fn is_deterministic(&self) -> (r: bool)
        ensures
            r == forall|i: int, j: int|
                0 <= i < self.pairs@.len() && 0 <= j < self.pairs@.len() && i != j
                    && (#[trigger] self.pairs@[i]).0@ == (#[trigger] self.pairs@[j]).0@ ==> self.pairs@[i].1@
                    == self.pairs@[j].1@,
    {
        let n = self.pairs.len();
        let mut i: usize = 0;
        while i < n
            invariant
                n == self.pairs@.len(),
                i <= n,
                forall|a: int, b: int|
                    0 <= a < i && 0 <= b < n && a != b && (#[trigger] self.pairs@[a]).0@
                        == (#[trigger] self.pairs@[b]).0@ ==> self.pairs@[a].1@ == self.pairs@[b].1@,
            decreases n - i,
        {
            let mut j: usize = 0;
            while j < n
                invariant
                    n == self.pairs@.len(),
                    i < n,
                    j <= n,
                    forall|a: int, b: int|
                        0 <= a < i && 0 <= b < n && a != b && (#[trigger] self.pairs@[a]).0@
                            == (#[trigger] self.pairs@[b]).0@ ==> self.pairs@[a].1@ == self.pairs@[b].1@,
                    forall|b: int|
                        0 <= b < j && i != b && self.pairs@[i as int].0@ == (#[trigger] self.pairs@[b]).0@
                            ==> self.pairs@[i as int].1@ == self.pairs@[b].1@,
                decreases n - j,
            {
                if i != j && self.pairs[i].0 == self.pairs[j].0 && self.pairs[i].1 != self.pairs[j].1 {
                    return false;
                }
                j = j + 1;
            }
            i = i + 1;
        }
        true
    }

    /// Check totality: every given source is related to some target.
    pub fn is_total_for(&self, sources: &[&str]) -> (r: bool)
        ensures
            r == forall|k: int| 0 <= k < sources@.len() ==> has_source(self.pairs@, (#[trigger] sources@[k])@),
    {
        let mut k: usize = 0;
        while k < sources.len()
            invariant
                k <= sources@.len(),
                forall|m: int| 0 <= m < k ==> has_source(self.pairs@, (#[trigger] sources@[m])@),
            decreases sources@.len() - k,
        {
            let s = String::from_str(sources[k]);
            let mut found = false;
            let mut i: usize = 0;
            while i < self.pairs.len()
                invariant
                    i <= self.pairs@.len(),
                    k < sources@.len(),
                    s@ == sources@[k as int]@,
                    found ==> has_source(self.pairs@, sources@[k as int]@),
                    !found ==> forall|m: int| 0 <= m < i ==> (#[trigger] self.pairs@[m]).0@ != sources@[k as int]@,
                decreases self.pairs@.len() - i,
            {
                if self.pairs[i].0 == s {
                    found = true;
                }
                i = i + 1;
            }
            if !found {
                return false;
            }
            k = k + 1;
        }
        true
    }
}

/// Some pair of the relation has `src` as its source.
pub open spec fn has_source(pairs: Seq<(String, String)>, src: Seq<char>) -> bool {
    exists|i: int| 0 <= i < pairs.len() && (#[trigger] pairs[i]).0@ == src
}

/// Folding phases keeps the source of the starting equivalence, and after at
/// least one phase the target is the last phase's target language.
pub proof fn lemma_fold_phases_endpoints(acc: EquivModel, phases: Seq<CompilationPhase>)
    ensures
        fold_phases(acc, phases).source == acc.source,
        phases.len() > 0 ==> fold_phases(acc, phases).target == TypeModel::Named(phases.last().target_language@),
    decreases phases.len(),
{
    if phases.len() > 0 {
        lemma_fold_phases_endpoints(acc, phases.drop_last());
    }
}

/// A whole pipeline is an equivalence from the first phase's source
/// language to the last phase's target language.
pub proof fn lemma_pipeline_endpoints(phases: Seq<CompilationPhase>)
    requires
        phases.len() > 0,
    ensures
        pipeline_model(phases).source == TypeModel::Named(phases[0].source_language@),
        pipeline_model(phases).target == TypeModel::Named(phases.last().target_language@),
{
    lemma_fold_phases_endpoints(
        equiv_model(
            "id_equiv"@,
            TypeModel::Named(phases[0].source_language@),
            TypeModel::Named(phases[0].source_language@),
            "id"@,
            "id"@,
        ),
        phases,
    );
}

/// After relating `src` to `tgt`, the pair is in the relation; relating a
/// source already related to a different target makes the relation
/// non-deterministic.
pub proof fn lemma_relate_then_related(before: Seq<(String, String)>, after: Seq<(String, String)>, src: Seq<char>, tgt: Seq<char>)
    requires
        after.len() == before.len() + 1,
        after.drop_last() == before,
        after.last().0@ == src,
        after.last().1@ == tgt,
    ensures
        exists|i: int| 0 <= i < after.len() && (#[trigger] after[i]).0@ == src && after[i].1@ == tgt,
        (exists|j: int| 0 <= j < before.len() && (#[trigger] before[j]).0@ == src && before[j].1@ != tgt) ==> !(
        forall|i: int, j: int|
            0 <= i < after.len() && 0 <= j < after.len() && i != j && (#[trigger] after[i]).0@
                == (#[trigger] after[j]).0@ ==> after[i].1@ == after[j].1@),
{
    let n = before.len() as int;
    assert(after[n] == after.last());
    if exists|j: int| 0 <= j < before.len() && (#[trigger] before[j]).0@ == src && before[j].1@ != tgt {
        let j = choose|j: int| 0 <= j < before.len() && (#[trigger] before[j]).0@ == src && before[j].1@ != tgt;
        assert(after[j] == after.drop_last()[j]);
        assert(after[j].0@ == after[n].0@ && after[j].1@ != after[n].1@);
    }
}

} // verus!
