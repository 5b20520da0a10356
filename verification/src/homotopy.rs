//! Homotopies between functions and natural transformations.
//!
//! A homotopy between functions f, g : A → B is a family of paths
//! `H(x) : f(x) = g(x)` for all x : A.

use vstd::prelude::*;
use crate::path::TypeExpr;

verus! {

/// A function between types (simplified representation).
#[derive(Debug, PartialEq)]
pub struct Function {
    pub name: String,
    pub domain: TypeExpr,
    pub codomain: TypeExpr,
}

impl Clone for Function {
    fn clone(&self) -> (r: Self)
        ensures
            r == *self,
    {
        Function { name: self.name.clone(), domain: self.domain.clone(), codomain: self.codomain.clone() }
    }
}

impl Function {
    /// A function with the given name, domain and codomain.
    pub fn new(name: &str, domain: TypeExpr, codomain: TypeExpr) -> (r: Self)
        ensures
            r.name@ == name@,
            r.domain == domain,
            r.codomain == codomain,
    {
        Function { name: String::from_str(name), domain, codomain }
    }
}

/// Two functions have the same domain and the same codomain.
pub open spec fn same_signature(f: Function, g: Function) -> bool {
    f.domain@ == g.domain@ && f.codomain@ == g.codomain@
}

/// A single witness in a homotopy: a path at a specific point.
#[derive(Debug, Clone, PartialEq)]
pub struct HomotopyWitness {
    pub point: String,
    pub path_name: String,
    pub f_value: String,
    pub g_value: String,
}

/// `w` is the witness recorded at `point` for the values `f_val` and `g_val`:
/// its path is named `H_<point>`.
pub open spec fn is_witness(w: HomotopyWitness, point: Seq<char>, f_val: Seq<char>, g_val: Seq<char>) -> bool {
    &&& w.point@ == point
    &&& w.path_name@ == "H_"@ + point
    &&& w.f_value@ == f_val
    &&& w.g_value@ == g_val
}

/// A homotopy between two functions f, g : A → B, represented as a family
/// of paths H(x) : f(x) = g(x).
#[derive(Debug, Clone, PartialEq)]
pub struct Homotopy {
    pub name: String,
    pub f: Function,
    pub g: Function,
    /// The homotopy witness: for each point, a path.
    pub witnesses: Vec<HomotopyWitness>,
}

/// Errors in homotopy operations.
#[derive(Debug, Clone, Copy, PartialEq, Eq, Structural)]
pub enum HomotopyError {
    IncompatibleFunctions,
    CompositionMismatch,
}

/// `inv` is the inverse of `h`: the functions swap, and each witness keeps
/// its point, swaps its values and has its path renamed with `_inv`.
pub open spec fn is_inverse_of(inv: Homotopy, h: Homotopy) -> bool {
    &&& inv.name@ == h.name@ + "_inv"@
    &&& inv.f == h.g
    &&& inv.g == h.f
    &&& inv.witnesses@.len() == h.witnesses@.len()
    &&& forall|i: int|
        0 <= i < h.witnesses@.len() ==> {
            let w = #[trigger] inv.witnesses@[i];
            let v = h.witnesses@[i];
            &&& w.point@ == v.point@
            &&& w.path_name@ == v.path_name@ + "_inv"@
            &&& w.f_value@ == v.g_value@
            &&& w.g_value@ == v.f_value@
        }
}

impl Homotopy {
    /// Create a new homotopy between two functions with the same domain and codomain.
    pub fn new(name: &str, f: Function, g: Function) -> (r: Result<Self, HomotopyError>)
        ensures
            !same_signature(f, g) ==> r == Err::<Homotopy, HomotopyError>(HomotopyError::IncompatibleFunctions),
            same_signature(f, g) ==> (r matches Ok(h) && h.name@ == name@ && h.f == f && h.g == g
                && h.witnesses@.len() == 0),
    {
        if !f.domain.same_as(&g.domain) || !f.codomain.same_as(&g.codomain) {
            return Err(HomotopyError::IncompatibleFunctions);
        }
        Ok(Homotopy { name: String::from_str(name), f, g, witnesses: Vec::new() })
    }

    /// Add a witness at a point; its path is named `H_<point>`.
    pub fn witness(&mut self, point: &str, f_val: &str, g_val: &str)
        ensures
            final(self).name == old(self).name,
            final(self).f == old(self).f,
            final(self).g == old(self).g,
            final(self).witnesses@.len() == old(self).witnesses@.len() + 1,
            final(self).witnesses@.drop_last() == old(self).witnesses@,
            forall|i: int| 0 <= i < old(self).witnesses@.len() ==> #[trigger] final(self).witnesses@[i] == old(self).witnesses@[i],
            is_witness(final(self).witnesses@.last(), point@, f_val@, g_val@),
    {
        let mut path_name = String::from_str("H_");
        path_name.append(point);
        self.witnesses.push(
            HomotopyWitness {
                point: String::from_str(point),
                path_name,
                f_value: String::from_str(f_val),
                g_value: String::from_str(g_val),
            },
        );
        assert(self.witnesses@.drop_last() =~= old(self).witnesses@);
    }

    /// Compose two homotopies: if H : f ~ g and K : g ~ h, then K ∘ H : f ~ h.
    /// The result carries H's witnesses, recorded afresh.
    pub fn compose(&self, other: &Homotopy) -> (r: Result<Homotopy, HomotopyError>)
        ensures
            self.g.name@ != other.f.name@ ==> r == Err::<Homotopy, HomotopyError>(HomotopyError::CompositionMismatch),
            self.g.name@ == other.f.name@ && !same_signature(self.f, other.g) ==> r == Err::<
                Homotopy,
                HomotopyError,
            >(HomotopyError::IncompatibleFunctions),
            self.g.name@ == other.f.name@ && same_signature(self.f, other.g) ==> r is Ok,
            r matches Ok(h) ==> {
                &&& h.name@ == self.name@ + "_then_"@ + other.name@
                &&& h.f == self.f
                &&& h.g == other.g
                &&& h.witnesses@.len() == self.witnesses@.len()
                &&& forall|i: int|
                    0 <= i < self.witnesses@.len() ==> is_witness(
                        #[trigger] h.witnesses@[i],
                        self.witnesses@[i].point@,
                        self.witnesses@[i].f_value@,
                        self.witnesses@[i].g_value@,
                    )
            },
    {
        if self.g.name != other.f.name {
            return Err(HomotopyError::CompositionMismatch);
        }
        let mut name = self.name.clone();
        name.append("_then_");
        name.append(other.name.as_str());
        let mut h = match Homotopy::new(name.as_str(), self.f.clone(), other.g.clone()) {
            Ok(h) => h,
            Err(e) => {
                return Err(e);
            },
        };
        let mut i: usize = 0;
        while i < self.witnesses.len()
            invariant
                i <= self.witnesses@.len(),
                h.name@ == self.name@ + "_then_"@ + other.name@,
                h.f == self.f,
                h.g == other.g,
                h.witnesses@.len() == i,
                forall|k: int|
                    0 <= k < i ==> is_witness(
                        #[trigger] h.witnesses@[k],
                        self.witnesses@[k].point@,
                        self.witnesses@[k].f_value@,
                        self.witnesses@[k].g_value@,
                    ),
            decreases self.witnesses@.len() - i,
        {
            let w = &self.witnesses[i];
            h.witness(w.point.as_str(), w.f_value.as_str(), w.g_value.as_str());
            i = i + 1;
        }
        Ok(h)
    }

    /// Invert a homotopy: if H : f ~ g, then H⁻¹ : g ~ f.
    pub fn inverse(&self) -> (r: Homotopy)
        ensures
            is_inverse_of(r, *self),
    {
        let mut name = self.name.clone();
        name.append("_inv");
        let mut inv = Homotopy { name, f: self.g.clone(), g: self.f.clone(), witnesses: Vec::new() };
        let mut i: usize = 0;
        while i < self.witnesses.len()
            invariant
                i <= self.witnesses@.len(),
                inv.name@ == self.name@ + "_inv"@,
                inv.f == self.g,
                inv.g == self.f,
                inv.witnesses@.len() == i,
                forall|k: int|
                    0 <= k < i ==> {
                        let w = #[trigger] inv.witnesses@[k];
                        let v = self.witnesses@[k];
                        &&& w.point@ == v.point@
                        &&& w.path_name@ == v.path_name@ + "_inv"@
                        &&& w.f_value@ == v.g_value@
                        &&& w.g_value@ == v.f_value@
                    },
            decreases self.witnesses@.len() - i,
        {
            let w = &self.witnesses[i];
            let mut path_name = w.path_name.clone();
            path_name.append("_inv");
            inv.witnesses.push(
                HomotopyWitness {
                    point: w.point.clone(),
                    path_name,
                    f_value: w.g_value.clone(),
                    g_value: w.f_value.clone(),
                },
            );
            i = i + 1;
        }
        inv
    }

    /// Number of witnesses.
    pub fn num_witnesses(&self) -> (r: usize)
        ensures
            r == self.witnesses@.len(),
    {
        self.witnesses.len()
    }
}

/// Inverting twice gives back the original functions and the original
/// witness points and values (names gain `_inv` twice).
pub proof fn lemma_inverse_twice(h: Homotopy, inv: Homotopy, inv2: Homotopy)
    requires
        is_inverse_of(inv, h),
        is_inverse_of(inv2, inv),
    ensures
        inv2.f == h.f,
        inv2.g == h.g,
        inv2.witnesses@.len() == h.witnesses@.len(),
        forall|i: int|
            0 <= i < h.witnesses@.len() ==> {
                let w = #[trigger] inv2.witnesses@[i];
                let v = h.witnesses@[i];
                &&& w.point@ == v.point@
                &&& w.f_value@ == v.f_value@
                &&& w.g_value@ == v.g_value@
            },
{
    assert forall|i: int| 0 <= i < h.witnesses@.len() implies {
        let w = #[trigger] inv2.witnesses@[i];
        let v = h.witnesses@[i];
        &&& w.point@ == v.point@
        &&& w.f_value@ == v.f_value@
        &&& w.g_value@ == v.g_value@
    } by {
        let _ = inv.witnesses@[i];
    }
}

/// The characters of a list of string pairs.
pub open spec fn pairs_view(v: Seq<(String, String)>) -> Seq<(Seq<char>, Seq<char>)> {
    v.map_values(|p: (String, String)| (p.0@, p.1@))
}

/// A natural transformation between functors (categorical perspective).
#[derive(Debug, Clone, PartialEq)]
pub struct NaturalTransformation {
    pub name: String,
    pub source_functor: String,
    pub target_functor: String,
    /// (object, morphism name) pairs.
    pub components: Vec<(String, String)>,
}

/// The morphism of the first component at `obj`, if any.
pub open spec fn component_at(comps: Seq<(Seq<char>, Seq<char>)>, obj: Seq<char>) -> Option<Seq<char>>
    decreases comps.len(),
{
    if comps.len() == 0 {
        None
    } else if comps[0].0 == obj {
        Some(comps[0].1)
    } else {
        component_at(comps.drop_first(), obj)
    }
}

/// The components of a vertical composite: for each object of the first
/// transformation, in order, the second's morphism at that object, where it has one.
pub open spec fn vcomp_components(first: Seq<(Seq<char>, Seq<char>)>, second: Seq<(Seq<char>, Seq<char>)>) -> Seq<(Seq<char>, Seq<char>)>
    decreases first.len(),
{
    if first.len() == 0 {
        Seq::empty()
    } else {
        let rest = vcomp_components(first.drop_last(), second);
        match component_at(second, first.last().0) {
            Some(m) => rest.push((first.last().0, m)),
            None => rest,
        }
    }
}

/// `component_at` finds the first component at an object: when it gives a
/// morphism, that object and morphism stand at some position with no earlier
/// component at the object; it gives nothing exactly when no component is at
/// the object.
pub proof fn lemma_component_at(comps: Seq<(Seq<char>, Seq<char>)>, obj: Seq<char>)
    ensures
        component_at(comps, obj) is None <==> forall|i: int| 0 <= i < comps.len() ==> (#[trigger] comps[i]).0 != obj,
        component_at(comps, obj) matches Some(m) ==> exists|i: int|
            0 <= i < comps.len() && comps[i] == (obj, m) && forall|j: int| 0 <= j < i ==> (#[trigger] comps[j]).0 != obj,
    decreases comps.len(),
{
    if comps.len() > 0 {
        lemma_component_at(comps.drop_first(), obj);
        if comps[0].0 != obj {
            assert forall|i: int| 1 <= i < comps.len() implies #[trigger] comps[i] == comps.drop_first()[i - 1] by {}
            if component_at(comps, obj) is Some {
                let m = component_at(comps, obj)->0;
                let k = choose|k: int|
                    0 <= k < comps.drop_first().len() && comps.drop_first()[k] == (obj, m) && forall|j: int|
                        0 <= j < k ==> (#[trigger] comps.drop_first()[j]).0 != obj;
                assert(comps[k + 1] == (obj, m));
                assert forall|j: int| 0 <= j < k + 1 implies (#[trigger] comps[j]).0 != obj by {
                    if j > 0 {
                        assert(comps[j] == comps.drop_first()[j - 1]);
                    }
                }
            } else {
                assert forall|i: int| 0 <= i < comps.len() implies (#[trigger] comps[i]).0 != obj by {
                    if i > 0 {
                        assert(comps[i] == comps.drop_first()[i - 1]);
                    }
                }
            }
        }
    }
}

/// The vertical composite has, for every object of the first transformation
/// at which the second has a component, that object with the second's
/// morphism there; each of its components is such a pair; it has no more
/// components than the first transformation.
pub proof fn lemma_vcomp_components(first: Seq<(Seq<char>, Seq<char>)>, second: Seq<(Seq<char>, Seq<char>)>)
    ensures
        forall|i: int|
            0 <= i < first.len() && (component_at(second, #[trigger] first[i].0) is Some) ==> vcomp_components(
                first,
                second,
            ).contains((first[i].0, component_at(second, first[i].0)->0)),
        forall|k: int|
            0 <= k < vcomp_components(first, second).len() ==> exists|i: int|
                0 <= i < first.len() && (#[trigger] vcomp_components(first, second)[k]).0 == first[i].0
                    && component_at(second, first[i].0) == Some(vcomp_components(first, second)[k].1),
        vcomp_components(first, second).len() <= first.len(),
    decreases first.len(),
{
    if first.len() > 0 {
        let init = first.drop_last();
        lemma_vcomp_components(init, second);
        let rest = vcomp_components(init, second);
        let r = vcomp_components(first, second);
        let x = first.last().0;
        assert forall|i: int|
            0 <= i < first.len() && (component_at(second, #[trigger] first[i].0) is Some) implies r.contains(
            (first[i].0, component_at(second, first[i].0)->0),
        ) by {
            if i < first.len() - 1 {
                assert(first[i] == init[i]);
                let pair = (init[i].0, component_at(second, init[i].0)->0);
                assert(rest.contains(pair));
                let k = choose|k: int| 0 <= k < rest.len() && rest[k] == pair;
                if component_at(second, x) is Some {
                    assert(r[k] == pair);
                }
            } else {
                assert(r[r.len() - 1] == (first[i].0, component_at(second, first[i].0)->0));
            }
        }
        assert forall|k: int| 0 <= k < r.len() implies exists|i: int|
            0 <= i < first.len() && (#[trigger] r[k]).0 == first[i].0 && component_at(second, first[i].0) == Some(
                r[k].1,
            ) by {
            if k < rest.len() {
                assert(r[k] == rest[k]);
                let i = choose|i: int|
                    0 <= i < init.len() && (#[trigger] rest[k]).0 == init[i].0 && component_at(second, init[i].0)
                        == Some(rest[k].1);
                assert(first[i] == init[i]);
            } else {
                assert(first[first.len() - 1].0 == x);
            }
        }
    }
}

impl NaturalTransformation {
    /// A transformation with no components yet.
    pub fn new(name: &str, src: &str, tgt: &str) -> (r: Self)
        ensures
            r.name@ == name@,
            r.source_functor@ == src@,
            r.target_functor@ == tgt@,
            r.components@.len() == 0,
    {
        NaturalTransformation {
            name: String::from_str(name),
            source_functor: String::from_str(src),
            target_functor: String::from_str(tgt),
            components: Vec::new(),
        }
    }

    /// Add the component at an object.
    pub fn add_component(&mut self, obj: &str, morphism: &str)
        ensures
            final(self).name == old(self).name,
            final(self).source_functor == old(self).source_functor,
            final(self).target_functor == old(self).target_functor,
            pairs_view(final(self).components@) == pairs_view(old(self).components@).push((obj@, morphism@)),
    {
        self.components.push((String::from_str(obj), String::from_str(morphism)));
        assert(pairs_view(self.components@) =~= pairs_view(old(self).components@).push((obj@, morphism@)));
    }

    fn find_component<'a>(comps: &'a Vec<(String, String)>, obj: &String) -> (r: Option<&'a String>)
        ensures
            match r {
                Some(m) => component_at(pairs_view(comps@), obj@) == Some(m@),
                None => component_at(pairs_view(comps@), obj@) is None,
            },
    {
        let ghost all = pairs_view(comps@);
        assert(all.skip(0) =~= all);
        let mut i: usize = 0;
        while i < comps.len()
            invariant
                i <= comps@.len(),
                all == pairs_view(comps@),
                component_at(all, obj@) == component_at(all.skip(i as int), obj@),
            decreases comps@.len() - i,
        {
            assert(all.skip(i as int).drop_first() =~= all.skip(i + 1));
            if comps[i].0 == *obj {
                return Some(&comps[i].1);
            }
            i = i + 1;
        }
        None
    }

    /// Vertical composition of natural transformations: α : F ⇒ G and
    /// β : G ⇒ H give F ⇒ H, with β's component at each of α's objects.
    pub fn vertical_compose(&self, other: &NaturalTransformation) -> (r: Result<NaturalTransformation, HomotopyError>)
        ensures
            self.target_functor@ != other.source_functor@ ==> r == Err::<NaturalTransformation, HomotopyError>(
                HomotopyError::CompositionMismatch,
            ),
            self.target_functor@ == other.source_functor@ ==> (r matches Ok(n) && n.name@ == self.name@
                + "_vcomp_"@ + other.name@ && n.source_functor@ == self.source_functor@
                && n.target_functor@ == other.target_functor@ && pairs_view(n.components@)
                == vcomp_components(pairs_view(self.components@), pairs_view(other.components@))),
    {
        if self.target_functor != other.source_functor {
            return Err(HomotopyError::CompositionMismatch);
        }
        let mut name = self.name.clone();
        name.append("_vcomp_");
        name.append(other.name.as_str());
        let mut result = NaturalTransformation::new(
            name.as_str(),
            self.source_functor.as_str(),
            other.target_functor.as_str(),
        );
        let ghost mine = pairs_view(self.components@);
        let ghost theirs = pairs_view(other.components@);
        let mut i: usize = 0;
        while i < self.components.len()
            invariant
                i <= self.components@.len(),
                mine == pairs_view(self.components@),
                theirs == pairs_view(other.components@),
                result.name@ == self.name@ + "_vcomp_"@ + other.name@,
                result.source_functor@ == self.source_functor@,
                result.target_functor@ == other.target_functor@,
                pairs_view(result.components@) == vcomp_components(mine.take(i as int), theirs),
            decreases self.components@.len() - i,
        {
            assert(mine.take(i + 1).drop_last() =~= mine.take(i as int));
            let obj = &self.components[i].0;
            match NaturalTransformation::find_component(&other.components, obj) {
                Some(m) => {
                    result.add_component(obj.as_str(), m.as_str());
                },
                None => {},
            }
            i = i + 1;
        }
        assert(mine.take(self.components@.len() as int) =~= mine);
        Ok(result)
    }
}

/// Whiskering: compose a homotopy with a function.
/// If H : f ~ g and h : B → C, then h ∘ H : h∘f ~ h∘g (left whisker).
pub fn left_whisker(h_func: &Function, hom: &Homotopy) -> (r: Homotopy)
    ensures
        r.name@ == h_func.name@ + "_whisker_"@ + hom.name@,
        r.f.name@ == h_func.name@ + "_after_"@ + hom.f.name@,
        r.f.domain == hom.f.domain,
        r.f.codomain == h_func.codomain,
        r.g.name@ == h_func.name@ + "_after_"@ + hom.g.name@,
        r.g.domain == hom.g.domain,
        r.g.codomain == h_func.codomain,
        r.witnesses@.len() == hom.witnesses@.len(),
        forall|i: int|
            0 <= i < hom.witnesses@.len() ==> is_witness(
                #[trigger] r.witnesses@[i],
                hom.witnesses@[i].point@,
                h_func.name@ + "("@ + hom.witnesses@[i].f_value@ + ")"@,
                h_func.name@ + "("@ + hom.witnesses@[i].g_value@ + ")"@,
            ),
{
    let mut f_name = h_func.name.clone();
    f_name.append("_after_");
    f_name.append(hom.f.name.as_str());
    let whiskered = Function::new(f_name.as_str(), hom.f.domain.clone(), h_func.codomain.clone());
    let mut g_name = h_func.name.clone();
    g_name.append("_after_");
    g_name.append(hom.g.name.as_str());
    let mut name = h_func.name.clone();
    name.append("_whisker_");
    name.append(hom.name.as_str());
    let mut result = Homotopy {
        name,
        f: whiskered,
        g: Function::new(g_name.as_str(), hom.g.domain.clone(), h_func.codomain.clone()),
        witnesses: Vec::new(),
    };
    let mut i: usize = 0;
    while i < hom.witnesses.len()
        invariant
            i <= hom.witnesses@.len(),
            result.name@ == h_func.name@ + "_whisker_"@ + hom.name@,
            result.f.name@ == h_func.name@ + "_after_"@ + hom.f.name@,
            result.f.domain == hom.f.domain,
            result.f.codomain == h_func.codomain,
            result.g.name@ == h_func.name@ + "_after_"@ + hom.g.name@,
            result.g.domain == hom.g.domain,
            result.g.codomain == h_func.codomain,
            result.witnesses@.len() == i,
            forall|k: int|
                0 <= k < i ==> is_witness(
                    #[trigger] result.witnesses@[k],
                    hom.witnesses@[k].point@,
                    h_func.name@ + "("@ + hom.witnesses@[k].f_value@ + ")"@,
                    h_func.name@ + "("@ + hom.witnesses@[k].g_value@ + ")"@,
                ),
        decreases hom.witnesses@.len() - i,
    {
        let w = &hom.witnesses[i];
        let mut fv = h_func.name.clone();
        fv.append("(");
        fv.append(w.f_value.as_str());
        fv.append(")");
        let mut gv = h_func.name.clone();
        gv.append("(");
        gv.append(w.g_value.as_str());
        gv.append(")");
        result.witness(w.point.as_str(), fv.as_str(), gv.as_str());
        i = i + 1;
    }
    result
}

} // verus!
