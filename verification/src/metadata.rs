//! Metadata analyzer: computes, once per generation run, whether each `Type`
//! definition is default-derivable — a structurally valid zero value exists —
//! by a fixpoint walk over the "non-optional field refers to type" relation.
//! Cyclic references resolve to "not derivable" and the walk terminates on
//! every schema.

use vstd::prelude::*;

use crate::schema::{defs_view, is_builtin_name, Category, Definition, DefinitionV, Parameter,
    ParameterV, string_eq, string_eq_str};

verus! {

/// Names whose generated field type always has a default value: the built-in
/// scalars, the sentinel no-value type, and free-form text (empty text).
pub open spec fn trivially_derivable_name(name: Seq<char>) -> bool {
    is_builtin_name(name) || name == "String"@
}

/// Definition `i` is the `Type`-category definition whose self type is `name`.
pub open spec fn is_type_def_for(defs: Seq<DefinitionV>, i: int, name: Seq<char>) -> bool {
    0 <= i < defs.len() && defs[i].category == Category::Types && defs[i].ty.name == name
}

/// A type name is derivable within `fuel` steps: trivially, or through a
/// `Type` definition all of whose parameters are derivable within `fuel - 1`.
/// A type is default-derivable exactly when some finite fuel suffices
/// (`derivable_any`); a cycle of non-optional fields exhausts every fuel.
pub open spec fn derivable(defs: Seq<DefinitionV>, name: Seq<char>, fuel: nat) -> bool
    decreases fuel, 0int,
{
    fuel > 0 && (trivially_derivable_name(name) || exists|i: int|
        #[trigger] is_type_def_for(defs, i, name) && all_params_derivable(
            defs,
            defs[i].params,
            (fuel - 1) as nat,
        ))
}

/// Every parameter of the sequence is derivable within `fuel` steps.
pub open spec fn all_params_derivable(
    defs: Seq<DefinitionV>,
    params: Seq<ParameterV>,
    fuel: nat,
) -> bool
    decreases fuel, 2int,
{
    forall|j: int| 0 <= j < params.len() ==> param_derivable(defs, #[trigger] params[j], fuel)
}

/// An optional parameter is always derivable (via "absent"), a sequence
/// parameter via the empty sequence; any other parameter inherits its type's
/// derivability.
pub open spec fn param_derivable(defs: Seq<DefinitionV>, p: ParameterV, fuel: nat) -> bool
    decreases fuel, 1int,
{
    p.optional || p.ty.vector_depth > 0 || derivable(defs, p.ty.name, fuel)
}

/// Default-derivability proper: some finite derivation exists.
pub open spec fn derivable_any(defs: Seq<DefinitionV>, name: Seq<char>) -> bool {
    exists|fuel: nat| derivable(defs, name, fuel)
}

/// Derivability is monotone in the fuel bound.
pub proof fn lemma_derivable_mono(defs: Seq<DefinitionV>, name: Seq<char>, f1: nat, f2: nat)
    requires
        derivable(defs, name, f1),
        f1 <= f2,
    ensures
        derivable(defs, name, f2),
    decreases f1,
{
    if !trivially_derivable_name(name) {
        let i = choose|i: int|
            #[trigger] is_type_def_for(defs, i, name) && all_params_derivable(
                defs,
                defs[i].params,
                (f1 - 1) as nat,
            );
        assert forall|j: int| 0 <= j < defs[i].params.len() implies param_derivable(
            defs,
            #[trigger] defs[i].params[j],
            (f2 - 1) as nat,
        ) by {
            let p = defs[i].params[j];
            assert(param_derivable(defs, p, (f1 - 1) as nat));
            if !p.optional && p.ty.vector_depth == 0 {
                lemma_derivable_mono(defs, p.ty.name, (f1 - 1) as nat, (f2 - 1) as nat);
            }
        }
        assert(is_type_def_for(defs, i, name) && all_params_derivable(
            defs,
            defs[i].params,
            (f2 - 1) as nat,
        ));
    }
}

/// A parameter is satisfied by the current marks: optional, a sequence, a
/// trivially derivable name, or a type already marked derivable.
pub open spec fn param_ok(nv: Seq<Seq<char>>, fl: Seq<bool>, p: ParameterV) -> bool {
    ||| p.optional
    ||| p.ty.vector_depth > 0
    ||| trivially_derivable_name(p.ty.name)
    ||| exists|k: int| 0 <= k < nv.len() && 0 <= k < fl.len() && nv[k] == p.ty.name && fl[k]
}

/// All parameters of a definition are satisfied by the current marks.
pub open spec fn params_ok(nv: Seq<Seq<char>>, fl: Seq<bool>, params: Seq<ParameterV>) -> bool {
    forall|j: int| 0 <= j < params.len() ==> param_ok(nv, fl, #[trigger] params[j])
}

/// Every marked type is derivable at fuel `f`.
pub open spec fn marks_sound(
    defs: Seq<DefinitionV>,
    nv: Seq<Seq<char>>,
    fl: Seq<bool>,
    f: nat,
) -> bool {
    forall|k: int| 0 <= k < fl.len() && 0 <= k < nv.len() && #[trigger] fl[k] ==> derivable(
        defs,
        nv[k],
        f,
    )
}

/// A name the final marks accept: trivially derivable or marked.
pub open spec fn name_marked(nv: Seq<Seq<char>>, fl: Seq<bool>, name: Seq<char>) -> bool {
    trivially_derivable_name(name) || exists|k: int|
        0 <= k < nv.len() && 0 <= k < fl.len() && nv[k] == name && fl[k]
}

/// The number of unmarked entries; the fixpoint loop's termination measure.
pub open spec fn count_false(fl: Seq<bool>) -> nat
    decreases fl.len(),
{
    if fl.len() == 0 {
        0
    } else {
        count_false(fl.drop_last()) + if fl.last() {
            0nat
        } else {
            1nat
        }
    }
}

proof fn lemma_count_false_update(fl: Seq<bool>, k: int)
    requires
        0 <= k < fl.len(),
        !fl[k],
    ensures
        count_false(fl.update(k, true)) < count_false(fl),
    decreases fl.len(),
{
    let upd = fl.update(k, true);
    if k == fl.len() - 1 {
        assert(upd.drop_last() =~= fl.drop_last());
    } else {
        assert(upd.drop_last() =~= fl.drop_last().update(k, true));
        lemma_count_false_update(fl.drop_last(), k);
    }
}

/// Once no pass can mark another type, anything derivable at any fuel is
/// already accepted by the marks.
proof fn lemma_fixpoint_complete(
    defs: Seq<DefinitionV>,
    td: Seq<DefinitionV>,
    nv: Seq<Seq<char>>,
    fl: Seq<bool>,
    name: Seq<char>,
    fuel: nat,
)
    requires
        nv.len() == fl.len(),
        td.len() == fl.len(),
        forall|k: int| 0 <= k < td.len() ==> (#[trigger] td[k]).category == Category::Types
            && td[k].ty.name == nv[k],
        forall|i: int|
            0 <= i < defs.len() && (#[trigger] defs[i]).category == Category::Types ==> exists|
                k: int,
            | 0 <= k < td.len() && td[k] == defs[i],
        forall|k: int| 0 <= k < fl.len() && !(#[trigger] fl[k]) ==> !params_ok(
            nv,
            fl,
            td[k].params,
        ),
        derivable(defs, name, fuel),
    ensures
        name_marked(nv, fl, name),
    decreases fuel,
{
    if !trivially_derivable_name(name) {
        let i = choose|i: int|
            #[trigger] is_type_def_for(defs, i, name) && all_params_derivable(
                defs,
                defs[i].params,
                (fuel - 1) as nat,
            );
        let k = choose|k: int| 0 <= k < td.len() && td[k] == defs[i];
        assert forall|j: int| 0 <= j < td[k].params.len() implies param_ok(
            nv,
            fl,
            #[trigger] td[k].params[j],
        ) by {
            let p = td[k].params[j];
            assert(param_derivable(defs, p, (fuel - 1) as nat));
            if !p.optional && p.ty.vector_depth == 0 {
                lemma_fixpoint_complete(defs, td, nv, fl, p.ty.name, (fuel - 1) as nat);
            }
        }
        assert(params_ok(nv, fl, td[k].params));
        assert(fl[k]);
        assert(nv[k] == name);
    }
}

/// Derived facts about the full definition set, computed exactly once per
/// generation run and consulted by the emitters.
pub struct Metadata {
    names: Vec<String>,
    flags: Vec<bool>,
    tdefs: Ghost<Seq<DefinitionV>>,
    all_defs: Ghost<Seq<DefinitionV>>,
}

impl Metadata {
    /// The definition set this metadata was computed from.
    pub closed spec fn defs(&self) -> Seq<DefinitionV> {
        self.all_defs@
    }

    spec fn nv(&self) -> Seq<Seq<char>> {
        self.names@.map_values(|s: String| s@)
    }

    /// The analyzer's invariant: the marks are exactly the derivable types.
    pub closed spec fn inv(&self) -> bool {
        let defs = self.all_defs@;
        let td = self.tdefs@;
        let nv = self.nv();
        let fl = self.flags@;
        &&& nv.len() == fl.len()
        &&& td.len() == fl.len()
        &&& forall|k: int| 0 <= k < td.len() ==> (#[trigger] td[k]).category == Category::Types
            && td[k].ty.name == nv[k]
        &&& forall|i: int|
            0 <= i < defs.len() && (#[trigger] defs[i]).category == Category::Types ==> exists|
                k: int,
            | 0 <= k < td.len() && td[k] == defs[i]
        &&& forall|k: int| 0 <= k < fl.len() && #[trigger] fl[k] ==> derivable_any(defs, nv[k])
        &&& forall|k: int| 0 <= k < fl.len() && !(#[trigger] fl[k]) ==> !params_ok(
            nv,
            fl,
            td[k].params,
        )
    }

    /// Analyze the full definition set. Restricted definitions and fields
    /// participate exactly as unrestricted ones: gating happens only at
    /// emission time.
    pub fn new(definitions: &Vec<Definition>) -> (m: Metadata)
        ensures
            m.inv(),
            m.defs() == defs_view(definitions@),
    {
        let ghost dv = defs_view(definitions@);
        proof {
            assert(dv.len() == definitions@.len());
        }
        let mut tidx: Vec<usize> = Vec::new();
        let mut names: Vec<String> = Vec::new();
        let mut flags: Vec<bool> = Vec::new();
        let mut i: usize = 0;
        while i < definitions.len()
            invariant
                i <= definitions@.len(),
                dv == defs_view(definitions@),
                dv.len() == definitions@.len(),
                tidx@.len() == names@.len(),
                tidx@.len() == flags@.len(),
                forall|k: int| 0 <= k < tidx@.len() ==> (#[trigger] tidx@[k]) < i
                    && dv[tidx@[k] as int].category == Category::Types
                    && dv[tidx@[k] as int].ty.name == names@[k]@
                    && !flags@[k],
                forall|ii: int|
                    0 <= ii < i && (#[trigger] dv[ii]).category == Category::Types ==> exists|
                        k: int,
                    | 0 <= k < tidx@.len() && tidx@[k] == ii,
            decreases definitions@.len() - i,
        {
            proof {
                assert(dv[i as int] == definitions@[i as int]@);
            }
            let ghost t0 = tidx@;
            if definitions[i].category == Category::Types {
                tidx.push(i);
                names.push(definitions[i].ty.name.clone());
                flags.push(false);
            }
            proof {
                assert forall|ii: int|
                    0 <= ii < i + 1 && (#[trigger] dv[ii]).category == Category::Types
                    implies exists|k: int| 0 <= k < tidx@.len() && tidx@[k] == ii by {
                    if ii < i {
                        let k = choose|k: int| 0 <= k < t0.len() && t0[k] == ii;
                        assert(tidx@[k] == ii);
                    } else {
                        assert(tidx@[tidx@.len() - 1] == i);
                    }
                }
            }
            i += 1;
        }
        let ghost td = tidx@.map_values(|x: usize| dv[x as int]);
        let ghost nv = names@.map_values(|s: String| s@);
        proof {
            assert forall|k2: int| 0 <= k2 < flags@.len() && 0 <= k2 < nv.len()
                && #[trigger] flags@[k2] implies derivable(dv, nv[k2], 0) by {
                assert(tidx@[k2] < i);
                assert(false);
            }
            assert(marks_sound(dv, nv, flags@, 0));
            assert forall|k: int| 0 <= k < tidx@.len() implies (#[trigger] tidx@[k]) < dv.len()
                && td[k] == dv[tidx@[k] as int] && td[k].category == Category::Types
                && td[k].ty.name == nv[k] by {
                assert(td[k] == dv[tidx@[k] as int]);
                assert(nv[k] == names@[k]@);
            }
            assert forall|ii: int|
                0 <= ii < dv.len() && (#[trigger] dv[ii]).category == Category::Types
                implies exists|k: int| 0 <= k < td.len() && td[k] == dv[ii] by {
                let k = choose|k: int| 0 <= k < tidx@.len() && tidx@[k] == ii;
                assert(td[k] == dv[tidx@[k] as int]);
                assert(td[k] == dv[ii]);
            }
        }
        let mut changed = true;
        while changed
            invariant
                dv == defs_view(definitions@),
                dv.len() == definitions@.len(),
                tidx@.len() == names@.len(),
                tidx@.len() == flags@.len(),
                td == tidx@.map_values(|x: usize| dv[x as int]),
                nv == names@.map_values(|s: String| s@),
                forall|k: int| 0 <= k < tidx@.len() ==> (#[trigger] tidx@[k]) < dv.len()
                    && td[k] == dv[tidx@[k] as int]
                    && td[k].category == Category::Types
                    && td[k].ty.name == nv[k],
                forall|ii: int|
                    0 <= ii < dv.len() && (#[trigger] dv[ii]).category == Category::Types
                        ==> exists|k: int| 0 <= k < td.len() && td[k] == dv[ii],
                exists|f: nat| marks_sound(dv, nv, flags@, f),
                !changed ==> forall|k: int|
                    0 <= k < flags@.len() && !(#[trigger] flags@[k]) ==> !params_ok(
                        nv,
                        flags@,
                        td[k].params,
                    ),
            decreases count_false(flags@) as int + if changed {
                1int
            } else {
                0int
            },
        {
            let ghost flags_start = flags@;
            changed = false;
            let mut k: usize = 0;
            while k < tidx.len()
                invariant
                    k <= tidx@.len(),
                    dv == defs_view(definitions@),
                    dv.len() == definitions@.len(),
                    tidx@.len() == names@.len(),
                    tidx@.len() == flags@.len(),
                    td == tidx@.map_values(|x: usize| dv[x as int]),
                    nv == names@.map_values(|s: String| s@),
                    forall|kk: int| 0 <= kk < tidx@.len() ==> (#[trigger] tidx@[kk]) < dv.len()
                        && td[kk] == dv[tidx@[kk] as int]
                        && td[kk].category == Category::Types
                        && td[kk].ty.name == nv[kk],
                    exists|f: nat| marks_sound(dv, nv, flags@, f),
                    changed ==> count_false(flags@) < count_false(flags_start),
                    !changed ==> flags@ == flags_start && forall|k2: int|
                        0 <= k2 < k && !(#[trigger] flags@[k2]) ==> !params_ok(
                            nv,
                            flags@,
                            td[k2].params,
                        ),
                    count_false(flags@) <= count_false(flags_start),
                decreases tidx@.len() - k,
            {
                if !flags[k] {
                    let ti = tidx[k];
                    let ok = params_ok_now(&names, &flags, &definitions[ti].params);
                    proof {
                        assert(dv[ti as int] == definitions@[ti as int]@);
                        assert(dv[ti as int].params == definitions@[ti as int].params@.map_values(
                            |p: Parameter| p@,
                        ));
                    }
                    if ok {
                        let ghost fprev = flags@;
                        flags.set(k, true);
                        changed = true;
                        proof {
                            let f = choose|f: nat| marks_sound(dv, nv, fprev, f);
                            assert forall|j: int| 0 <= j < td[k as int].params.len()
                                implies param_derivable(
                                dv,
                                #[trigger] td[k as int].params[j],
                                f + 1,
                            ) by {
                                let p = td[k as int].params[j];
                                assert(param_ok(nv, fprev, p));
                                if !p.optional && p.ty.vector_depth == 0 {
                                    if trivially_derivable_name(p.ty.name) {
                                        assert(derivable(dv, p.ty.name, f + 1));
                                    } else {
                                        let kk = choose|kk: int|
                                            0 <= kk < nv.len() && 0 <= kk < fprev.len()
                                                && nv[kk] == p.ty.name && fprev[kk];
                                        assert(derivable(dv, nv[kk], f));
                                        lemma_derivable_mono(dv, p.ty.name, f, f + 1);
                                    }
                                }
                            }
                            assert(all_params_derivable(dv, td[k as int].params, f + 1));
                            assert(is_type_def_for(dv, tidx@[k as int] as int, nv[k as int]));
                            assert(derivable(dv, nv[k as int], f + 2));
                            lemma_count_false_update(fprev, k as int);
                            assert forall|k2: int|
                                0 <= k2 < flags@.len() && 0 <= k2 < nv.len()
                                    && #[trigger] flags@[k2] implies derivable(
                                dv,
                                nv[k2],
                                f + 2,
                            ) by {
                                if k2 == k as int {
                                } else {
                                    assert(fprev[k2]);
                                    lemma_derivable_mono(dv, nv[k2], f, f + 2);
                                }
                            }
                            assert(marks_sound(dv, nv, flags@, f + 2));
                        }
                    }
                }
                k += 1;
            }
        }
        Metadata { names, flags, tdefs: Ghost(td), all_defs: Ghost(dv) }
    }

    /// Whether the generated structure for `def` can derive a default value:
    /// true exactly when the definition's self type is default-derivable.
    pub fn can_def_implement_default(&self, def: &Definition) -> (r: bool)
        requires
            self.inv(),
        ensures
            r == derivable_any(self.defs(), def@.ty.name),
    {
        if trivially_derivable(&def.ty.name) {
            proof {
                assert(derivable(self.defs(), def@.ty.name, 1));
            }
            true
        } else {
            let r = any_flag_true(&self.names, &self.flags, &def.ty.name);
            proof {
                if r {
                    let k = choose|k: int|
                        0 <= k < self.names@.len() && self.names@[k]@ == def@.ty.name
                            && self.flags@[k];
                    assert(self.nv()[k] == def@.ty.name);
                } else {
                    if derivable_any(self.defs(), def@.ty.name) {
                        let fuel = choose|fuel: nat| derivable(self.defs(), def@.ty.name, fuel);
                        lemma_fixpoint_complete(
                            self.all_defs@,
                            self.tdefs@,
                            self.nv(),
                            self.flags@,
                            def@.ty.name,
                            fuel,
                        );
                        let k = choose|k: int|
                            0 <= k < self.nv().len() && 0 <= k < self.flags@.len() && self.nv()[k]
                                == def@.ty.name && self.flags@[k];
                        assert(self.names@[k]@ == def@.ty.name);
                        assert(false);
                    }
                }
            }
            r
        }
    }
}

/// Whether this base name is derivable with no schema lookup at all.
pub fn trivially_derivable(name: &String) -> (r: bool)
    ensures
        r == trivially_derivable_name(name@),
{
    string_eq_str(name, "Bool") || string_eq_str(name, "Bytes") || string_eq_str(name, "Int32")
        || string_eq_str(name, "Int53") || string_eq_str(name, "Int64") || string_eq_str(
        name,
        "Ok",
    ) || string_eq_str(name, "String")
}

/// Whether some mark with this name is set.
fn any_flag_true(names: &Vec<String>, flags: &Vec<bool>, name: &String) -> (r: bool)
    requires
        names@.len() == flags@.len(),
    ensures
        r == exists|k: int| 0 <= k < names@.len() && names@[k]@ == name@ && flags@[k],
{
    let mut k: usize = 0;
    while k < names.len()
        invariant
            k <= names@.len(),
            names@.len() == flags@.len(),
            forall|k2: int| 0 <= k2 < k ==> !((#[trigger] names@[k2])@ == name@ && flags@[k2]),
        decreases names@.len() - k,
    {
        if flags[k] && string_eq(&names[k], name) {
            return true;
        }
        k += 1;
    }
    false
}

/// Whether one parameter is satisfied by the current marks.
fn param_ok_now(names: &Vec<String>, flags: &Vec<bool>, p: &Parameter) -> (r: bool)
    requires
        names@.len() == flags@.len(),
    ensures
        r == param_ok(names@.map_values(|s: String| s@), flags@, p@),
{
    let ghost nv = names@.map_values(|s: String| s@);
    if p.optional || p.ty.vector_depth > 0 || trivially_derivable(&p.ty.name) {
        true
    } else {
        let r = any_flag_true(names, flags, &p.ty.name);
        proof {
            if r {
                let k = choose|k: int|
                    0 <= k < names@.len() && names@[k]@ == p.ty.name@ && flags@[k];
                assert(nv[k] == p@.ty.name);
            } else {
                if param_ok(nv, flags@, p@) {
                    let k = choose|k: int|
                        0 <= k < nv.len() && 0 <= k < flags@.len() && nv[k] == p@.ty.name
                            && flags@[k];
                    assert(names@[k]@ == p.ty.name@);
                    assert(false);
                }
            }
        }
        r
    }
}

/// Whether every parameter of the list is satisfied by the current marks.
fn params_ok_now(names: &Vec<String>, flags: &Vec<bool>, params: &Vec<Parameter>) -> (r: bool)
    requires
        names@.len() == flags@.len(),
    ensures
        r == params_ok(
            names@.map_values(|s: String| s@),
            flags@,
            params@.map_values(|p: Parameter| p@),
        ),
{
    let ghost nv = names@.map_values(|s: String| s@);
    let ghost pv = params@.map_values(|p: Parameter| p@);
    let mut j: usize = 0;
    while j < params.len()
        invariant
            j <= params@.len(),
            names@.len() == flags@.len(),
            nv == names@.map_values(|s: String| s@),
            pv == params@.map_values(|p: Parameter| p@),
            pv.len() == params@.len(),
            forall|j2: int| 0 <= j2 < j ==> param_ok(nv, flags@, #[trigger] pv[j2]),
        decreases params@.len() - j,
    {
        if !param_ok_now(names, flags, &params[j]) {
            proof {
                assert(pv[j as int] == params@[j as int]@);
            }
            return false;
        }
        j += 1;
    }
    true
}

/// An unmarked parameter blocks a cycle: mandatory, not a sequence, and its
/// type belongs to the cycle.
pub open spec fn blocking_param(p: ParameterV, cyc: Set<Seq<char>>) -> bool {
    !p.optional && p.ty.vector_depth == 0 && cyc.contains(p.ty.name)
}

/// Types locked in a cycle of non-optional, non-sequence fields — directly
/// self-referential or mutually — are never default-derivable, at any fuel.
pub proof fn lemma_cycle_not_derivable(
    defs: Seq<DefinitionV>,
    cyc: Set<Seq<char>>,
    name: Seq<char>,
)
    requires
        cyc.contains(name),
        forall|n: Seq<char>| cyc.contains(n) ==> !trivially_derivable_name(n),
        forall|n: Seq<char>, i: int|
            cyc.contains(n) && #[trigger] is_type_def_for(defs, i, n) ==> exists|j: int|
                0 <= j < defs[i].params.len() && blocking_param(#[trigger] defs[i].params[j], cyc),
    ensures
        !derivable_any(defs, name),
{
    assert forall|fuel: nat| !derivable(defs, name, fuel) by {
        lemma_cycle_helper(defs, cyc, name, fuel);
    }
}

proof fn lemma_cycle_helper(defs: Seq<DefinitionV>, cyc: Set<Seq<char>>, name: Seq<char>, fuel: nat)
    requires
        cyc.contains(name),
        forall|n: Seq<char>| cyc.contains(n) ==> !trivially_derivable_name(n),
        forall|n: Seq<char>, i: int|
            cyc.contains(n) && #[trigger] is_type_def_for(defs, i, n) ==> exists|j: int|
                0 <= j < defs[i].params.len() && blocking_param(#[trigger] defs[i].params[j], cyc),
    ensures
        !derivable(defs, name, fuel),
    decreases fuel,
{
    if derivable(defs, name, fuel) {
        let i = choose|i: int|
            #[trigger] is_type_def_for(defs, i, name) && all_params_derivable(
                defs,
                defs[i].params,
                (fuel - 1) as nat,
            );
        let j = choose|j: int|
            0 <= j < defs[i].params.len() && blocking_param(#[trigger] defs[i].params[j], cyc);
        let p = defs[i].params[j];
        assert(param_derivable(defs, p, (fuel - 1) as nat));
        lemma_cycle_helper(defs, cyc, p.ty.name, (fuel - 1) as nat);
        assert(false);
    }
}

/// A `Type` whose single mandatory field references the type itself is not
/// default-derivable.
pub proof fn lemma_self_cycle_not_derivable(defs: Seq<DefinitionV>, i: int)
    requires
        is_type_def_for(defs, i, defs[i].ty.name),
        !trivially_derivable_name(defs[i].ty.name),
        exists|j: int|
            0 <= j < defs[i].params.len() && blocking_param(
                #[trigger] defs[i].params[j],
                Set::empty().insert(defs[i].ty.name),
            ),
        forall|i2: int| #[trigger] is_type_def_for(defs, i2, defs[i].ty.name) ==> i2 == i,
    ensures
        !derivable_any(defs, defs[i].ty.name),
{
    let cyc = Set::empty().insert(defs[i].ty.name);
    assert forall|n: Seq<char>, i2: int|
        cyc.contains(n) && #[trigger] is_type_def_for(defs, i2, n) implies exists|j: int|
        0 <= j < defs[i2].params.len() && blocking_param(#[trigger] defs[i2].params[j], cyc) by {
        assert(n == defs[i].ty.name);
        assert(i2 == i);
    }
    lemma_cycle_not_derivable(defs, cyc, defs[i].ty.name);
}

/// A `Type` all of whose fields are optional — in particular one with zero
/// fields — is default-derivable.
pub proof fn lemma_all_optional_derivable(defs: Seq<DefinitionV>, i: int)
    requires
        is_type_def_for(defs, i, defs[i].ty.name),
        forall|j: int| 0 <= j < defs[i].params.len() ==> (#[trigger] defs[i].params[j]).optional,
    ensures
        derivable_any(defs, defs[i].ty.name),
{
    assert(all_params_derivable(defs, defs[i].params, 0));
    assert(is_type_def_for(defs, i, defs[i].ty.name) && all_params_derivable(
        defs,
        defs[i].params,
        0,
    ));
    assert(derivable(defs, defs[i].ty.name, 1));
}

} // verus!
