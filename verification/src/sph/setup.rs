//! Building a system from parameters and a scene: which pressure solver and
//! integration scheme go together, and how the scene's fluid and boundary
//! definitions resolve to meshes and fluid parameters.  Reading the mesh
//! files and a saved state is the caller's part.
use vstd::prelude::*;

use crate::sph::integration_schemes::IntegrationSchemeVariant;
use crate::sph::pressure_solver::PressureSolverVariant;

verus! {

/// Errors that can occur while building a system from parameters and a
/// scene, apart from reading files.
#[derive(Debug, Clone, PartialEq, Eq)]
pub enum SetupError {
    /// A `mesh` key in `[[fluid]]`, `[[boundary.static]]` or
    /// `[[boundary.dynamic]]` does not match any key in the scene's meshes.
    UnknownMesh(String),
    /// A `fluid_id` in `[[fluid]]` does not match any fluid of the parameters.
    UndefinedFluidId(u32),
    /// Exactly one of pressure solver and integration scheme expects to hand
    /// off or receive a predicted position and velocity via the fluid's
    /// slots.
    IncompatibleIntegrationPairing,
    /// The pressure solver does not support dynamic boundaries, but the
    /// scene defines at least one.
    IncompatibleDynamicBoundary,
}

/// Rejects a pressure solver and an integration scheme of which exactly one
/// hands over a predicted state through the fluid's slots, then a solver
/// without dynamic-boundary support in a scene with a dynamic boundary.
pub fn check_pairing(
    manages_own_integration: bool,
    commits_solver_prediction: bool,
    supports_dynamic_boundaries: bool,
    has_dynamic_boundary: bool,
) -> (r: Result<(), SetupError>)
    ensures
        (manages_own_integration != commits_solver_prediction) <==> r == Err::<(), SetupError>(
            SetupError::IncompatibleIntegrationPairing,
        ),
        manages_own_integration == commits_solver_prediction ==> (r == Err::<(), SetupError>(
            SetupError::IncompatibleDynamicBoundary,
        ) <==> !supports_dynamic_boundaries && has_dynamic_boundary),
        manages_own_integration == commits_solver_prediction && !(!supports_dynamic_boundaries
            && has_dynamic_boundary) ==> r is Ok,
{
    if manages_own_integration != commits_solver_prediction {
        return Err(SetupError::IncompatibleIntegrationPairing);
    }
    if !supports_dynamic_boundaries && has_dynamic_boundary {
        return Err(SetupError::IncompatibleDynamicBoundary);
    }
    Ok(())
}

/// [`check_pairing`] for the selected solver and scheme.
pub fn check_procedures(
    solver: PressureSolverVariant,
    scheme: IntegrationSchemeVariant,
    has_dynamic_boundary: bool,
) -> (r: Result<(), SetupError>)
    ensures
        ((solver == PressureSolverVariant::IISPHwOST) != (scheme
            == IntegrationSchemeVariant::TakePredicted)) <==> r == Err::<(), SetupError>(
            SetupError::IncompatibleIntegrationPairing,
        ),
        (solver == PressureSolverVariant::IISPHwOST) == (scheme
            == IntegrationSchemeVariant::TakePredicted) ==> (r == Err::<(), SetupError>(
            SetupError::IncompatibleDynamicBoundary,
        ) <==> solver == PressureSolverVariant::IISPHwOST && has_dynamic_boundary),
        r is Ok <==> (solver == PressureSolverVariant::IISPHwOST) == (scheme
            == IntegrationSchemeVariant::TakePredicted) && !(solver
            == PressureSolverVariant::IISPHwOST && has_dynamic_boundary),
{
    check_pairing(
        solver.manages_own_integration(),
        scheme.commits_solver_prediction(),
        solver.supports_dynamic_boundaries(),
        has_dynamic_boundary,
    )
}

/// The views of a list of strings.
pub open spec fn strings_view(s: Seq<String>) -> Seq<Seq<char>> {
    s.map_values(|x: String| x@)
}

/// Position of the first `x` in `s`, if any.
pub open spec fn first_index<T>(s: Seq<T>, x: T) -> Option<int>
    decreases s.len(),
{
    if s.len() == 0 {
        None
    } else {
        match first_index(s.drop_last(), x) {
            Some(i) => Some(i),
            None => if s.last() == x {
                Some(s.len() - 1)
            } else {
                None
            },
        }
    }
}

/// Position of the last `x` in `s`, if any (the entry a map built from `s`
/// in order keeps).
pub open spec fn last_index<T>(s: Seq<T>, x: T) -> Option<int>
    decreases s.len(),
{
    if s.len() == 0 {
        None
    } else if s.last() == x {
        Some(s.len() - 1)
    } else {
        last_index(s.drop_last(), x)
    }
}

/// A fluid definition `(mesh name, fluid id)` names a known mesh and a
/// defined fluid.
pub open spec fn def_resolves(names: Seq<Seq<char>>, ids: Seq<u32>, def: (Seq<char>, u32)) -> bool {
    &&& first_index(names, def.0) is Some
    &&& last_index(ids, def.1) is Some
}

/// Position of the first fluid definition that does not resolve, if any.
pub open spec fn first_unresolved(names: Seq<Seq<char>>, ids: Seq<u32>, defs: Seq<(Seq<char>, u32)>) -> Option<int>
    decreases defs.len(),
{
    if defs.len() == 0 {
        None
    } else {
        match first_unresolved(names, ids, defs.drop_last()) {
            Some(k) => Some(k),
            None => if !def_resolves(names, ids, defs.last()) {
                Some(defs.len() - 1)
            } else {
                None
            },
        }
    }
}

/// Position of the first mesh name of `used` that is not among `names`, if any.
pub open spec fn first_unknown(names: Seq<Seq<char>>, used: Seq<Seq<char>>) -> Option<int>
    decreases used.len(),
{
    if used.len() == 0 {
        None
    } else {
        match first_unknown(names, used.drop_last()) {
            Some(k) => Some(k),
            None => if first_index(names, used.last()) is None {
                Some(used.len() - 1)
            } else {
                None
            },
        }
    }
}

/// The views of fluid definitions.
pub open spec fn defs_view(defs: Seq<(String, u32)>) -> Seq<(Seq<char>, u32)> {
    defs.map_values(|d: (String, u32)| (d.0@, d.1))
}

/// Position of the mesh called `name` among `mesh_names`.
pub fn mesh_index(mesh_names: &Vec<String>, name: &String) -> (r: Option<usize>)
    ensures
        r matches Some(i) ==> first_index(strings_view(mesh_names@), name@) == Some(i as int),
        r is None ==> first_index(strings_view(mesh_names@), name@) is None,
{
    let ghost names = strings_view(mesh_names@);
    let n = mesh_names.len();
    let mut k: usize = 0;
    while k < n
        invariant
            n == mesh_names@.len(),
            names == strings_view(mesh_names@),
            k <= n,
            first_index(names.take(k as int), name@) is None,
        decreases n - k,
    {
        proof {
            assert(names.take(k as int + 1).drop_last() =~= names.take(k as int));
        }
        if mesh_names[k] == *name {
            proof {
                lemma_first_index_extends(names, name@, k as int + 1);
            }
            return Some(k);
        }
        k = k + 1;
    }
    proof {
        assert(names.take(n as int) =~= names);
    }
    None
}

/// A first position found within a prefix stays the first position.
proof fn lemma_first_index_extends<T>(s: Seq<T>, x: T, k: int)
    requires
        0 < k <= s.len(),
        first_index(s.take(k), x) is Some,
    ensures
        first_index(s, x) == first_index(s.take(k), x),
    decreases s.len() - k,
{
    if k < s.len() {
        assert(s.take(k + 1).drop_last() =~= s.take(k));
        lemma_first_index_extends(s, x, k + 1);
    } else {
        assert(s.take(k) =~= s);
    }
}

/// The position of every defined fluid id among `ids`: the last one, as a
/// map built from `ids` in order keeps.
pub open spec fn fluid_positions(ids: Seq<u32>) -> Map<u32, usize> {
    Map::new(|x: u32| last_index(ids, x) is Some, |x: u32| last_index(ids, x)->0 as usize)
}

/// Maps every fluid id of `fluid_ids` to its position (the last one when
/// an id is defined twice).
pub fn fluid_index_map(fluid_ids: &Vec<u32>) -> (m: std::collections::HashMap<u32, usize>)
    ensures
        m@ == fluid_positions(fluid_ids@),
{
    broadcast use vstd::std_specs::hash::group_hash_axioms;

    let n = fluid_ids.len();
    let mut m: std::collections::HashMap<u32, usize> = std::collections::HashMap::new();
    let mut k: usize = 0;
    while k < n
        invariant
            n == fluid_ids@.len(),
            k <= n,
            m@ == fluid_positions(fluid_ids@.take(k as int)),
        decreases n - k,
    {
        proof {
            assert(fluid_ids@.take(k as int + 1).drop_last() =~= fluid_ids@.take(k as int));
        }
        m.insert(fluid_ids[k], k);
        proof {
            assert(m@ =~= fluid_positions(fluid_ids@.take(k as int + 1)));
        }
        k = k + 1;
    }
    proof {
        assert(fluid_ids@.take(n as int) =~= fluid_ids@);
    }
    m
}

/// A last position lies inside the sequence.
proof fn lemma_last_index_bounded<T>(s: Seq<T>, x: T)
    ensures
        last_index(s, x) matches Some(i) ==> 0 <= i < s.len(),
    decreases s.len(),
{
    if s.len() > 0 {
        lemma_last_index_bounded(s.drop_last(), x);
    }
}

/// Position of fluid `id` in a map built by [`fluid_index_map`].
fn fluid_index(positions: &std::collections::HashMap<u32, usize>, id: u32) -> (r: Option<usize>)
    ensures
        r matches Some(i) ==> positions@.contains_key(id) && positions@[id] == i,
        r is None ==> !positions@.contains_key(id),
{
    broadcast use vstd::std_specs::hash::group_hash_axioms;

    match positions.get(&id) {
        Some(i) => Some(*i),
        None => None,
    }
}

/// Resolves each fluid definition `(mesh name, fluid id)` in order to the
/// position of its mesh among `mesh_names` and of its fluid among
/// `fluid_ids` (the last fluid of that id).  The first definition that does
/// not resolve is an error: an unknown mesh, else an undefined fluid id.
pub fn resolve_fluid_defs(
    mesh_names: &Vec<String>,
    fluid_ids: &Vec<u32>,
    defs: &Vec<(String, u32)>,
) -> (r: Result<Vec<(usize, usize)>, SetupError>)
    ensures
        ({
            let names = strings_view(mesh_names@);
            let dv = defs_view(defs@);
            match first_unresolved(names, fluid_ids@, dv) {
                Some(k) => if first_index(names, dv[k].0) is None {
                    r matches Err(SetupError::UnknownMesh(m)) && m@ == dv[k].0
                } else {
                    r == Err::<Vec<(usize, usize)>, SetupError>(SetupError::UndefinedFluidId(dv[k].1))
                },
                None => r matches Ok(pairs) && pairs@.len() == defs@.len() && forall|j: int|
                    0 <= j < pairs@.len() ==> first_index(names, dv[j].0) == Some(
                        #[trigger] pairs@[j].0 as int,
                    ) && last_index(fluid_ids@, dv[j].1) == Some(pairs@[j].1 as int),
            }
        }),
{
    let ghost names = strings_view(mesh_names@);
    let ghost dv = defs_view(defs@);
    let positions = fluid_index_map(fluid_ids);
    let n_fluids = fluid_ids.len();
    let n = defs.len();
    let mut pairs: Vec<(usize, usize)> = Vec::new();
    let mut k: usize = 0;
    while k < n
        invariant
            n == defs@.len(),
            names == strings_view(mesh_names@),
            dv == defs_view(defs@),
            positions@ == fluid_positions(fluid_ids@),
            n_fluids == fluid_ids@.len(),
            k <= n,
            first_unresolved(names, fluid_ids@, dv.take(k as int)) is None,
            pairs@.len() == k,
            forall|j: int|
                0 <= j < k ==> first_index(names, dv[j].0) == Some(#[trigger] pairs@[j].0 as int)
                    && last_index(fluid_ids@, dv[j].1) == Some(pairs@[j].1 as int),
        decreases n - k,
    {
        proof {
            assert(dv.take(k as int + 1).drop_last() =~= dv.take(k as int));
        }
        let def = &defs[k];
        let m = mesh_index(mesh_names, &def.0);
        let mi = match m {
            Some(i) => i,
            None => {
                proof {
                    lemma_first_unresolved_extends(names, fluid_ids@, dv, k as int + 1);
                }
                return Err(SetupError::UnknownMesh(def.0.clone()));
            },
        };
        let f = fluid_index(&positions, def.1);
        let fi = match f {
            Some(i) => {
                proof {
                    lemma_last_index_bounded(fluid_ids@, def.1);
                    assert(fluid_positions(fluid_ids@).contains_key(def.1));
                    let l = last_index(fluid_ids@, def.1)->0;
                    assert(0 <= l < n_fluids);
                    assert(last_index(fluid_ids@, def.1) == Some(i as int));
                    assert(dv[k as int] == (def.0@, def.1));
                }
                i
            },
            None => {
                proof {
                    assert(!fluid_positions(fluid_ids@).contains_key(def.1));
                }
                proof {
                    lemma_first_unresolved_extends(names, fluid_ids@, dv, k as int + 1);
                }
                return Err(SetupError::UndefinedFluidId(def.1));
            },
        };
        pairs.push((mi, fi));
        k = k + 1;
    }
    proof {
        assert(dv.take(n as int) =~= dv);
    }
    Ok(pairs)
}

/// A first unresolved definition found within a prefix stays the first.
proof fn lemma_first_unresolved_extends(
    names: Seq<Seq<char>>,
    ids: Seq<u32>,
    defs: Seq<(Seq<char>, u32)>,
    k: int,
)
    requires
        0 < k <= defs.len(),
        first_unresolved(names, ids, defs.take(k)) is Some,
    ensures
        first_unresolved(names, ids, defs) == first_unresolved(names, ids, defs.take(k)),
    decreases defs.len() - k,
{
    if k < defs.len() {
        assert(defs.take(k + 1).drop_last() =~= defs.take(k));
        lemma_first_unresolved_extends(names, ids, defs, k + 1);
    } else {
        assert(defs.take(k) =~= defs);
    }
}

/// A first unknown mesh found within a prefix stays the first.
proof fn lemma_first_unknown_extends(names: Seq<Seq<char>>, used: Seq<Seq<char>>, k: int)
    requires
        0 < k <= used.len(),
        first_unknown(names, used.take(k)) is Some,
    ensures
        first_unknown(names, used) == first_unknown(names, used.take(k)),
    decreases used.len() - k,
{
    if k < used.len() {
        assert(used.take(k + 1).drop_last() =~= used.take(k));
        lemma_first_unknown_extends(names, used, k + 1);
    } else {
        assert(used.take(k) =~= used);
    }
}

/// Resolves the mesh names of boundary definitions, in order, to their
/// positions among `mesh_names`; the first unknown one is an error.
pub fn resolve_meshes(mesh_names: &Vec<String>, used: &Vec<String>) -> (r: Result<Vec<usize>, SetupError>)
    ensures
        ({
            let names = strings_view(mesh_names@);
            let uv = strings_view(used@);
            match first_unknown(names, uv) {
                Some(k) => r matches Err(SetupError::UnknownMesh(m)) && m@ == uv[k],
                None => r matches Ok(idx) && idx@.len() == used@.len() && forall|j: int|
                    0 <= j < idx@.len() ==> first_index(names, uv[j]) == Some(
                        #[trigger] idx@[j] as int,
                    ),
            }
        }),
{
    let ghost names = strings_view(mesh_names@);
    let ghost uv = strings_view(used@);
    let n = used.len();
    let mut idx: Vec<usize> = Vec::new();
    let mut k: usize = 0;
    while k < n
        invariant
            n == used@.len(),
            names == strings_view(mesh_names@),
            uv == strings_view(used@),
            k <= n,
            first_unknown(names, uv.take(k as int)) is None,
            idx@.len() == k,
            forall|j: int| 0 <= j < k ==> first_index(names, uv[j]) == Some(#[trigger] idx@[j] as int),
        decreases n - k,
    {
        proof {
            assert(uv.take(k as int + 1).drop_last() =~= uv.take(k as int));
        }
        match mesh_index(mesh_names, &used[k]) {
            Some(i) => {
                idx.push(i);
            },
            None => {
                proof {
                    lemma_first_unknown_extends(names, uv, k as int + 1);
                }
                return Err(SetupError::UnknownMesh(used[k].clone()));
            },
        }
        k = k + 1;
    }
    proof {
        assert(uv.take(n as int) =~= uv);
    }
    Ok(idx)
}

/// How a scene's definitions resolve: for each fluid definition the
/// positions of its mesh and fluid parameters (none when resuming from a
/// saved state, whose fluid is used instead), and the mesh positions of the
/// static and the dynamic boundaries.
#[derive(Debug, Clone, PartialEq, Eq)]
pub struct ScenePlan {
    pub fluids: Vec<(usize, usize)>,
    pub static_boundaries: Vec<usize>,
    pub dynamic_boundaries: Vec<usize>,
}

/// The decisions of building a system, in the order they are taken: the
/// fluid definitions (only when not resuming from a saved state), the
/// static and then the dynamic boundary definitions, the pairing of
/// solver and scheme, and last dynamic-boundary support (a scene's dynamic
/// boundary definitions make dynamic boundaries).
pub fn plan_scene(
    mesh_names: &Vec<String>,
    fluid_ids: &Vec<u32>,
    fluid_defs: &Vec<(String, u32)>,
    static_meshes: &Vec<String>,
    dynamic_meshes: &Vec<String>,
    resuming: bool,
    solver: PressureSolverVariant,
    scheme: IntegrationSchemeVariant,
) -> (r: Result<ScenePlan, SetupError>)
    ensures
        ({
            let names = strings_view(mesh_names@);
            let dv = defs_view(fluid_defs@);
            let sv = strings_view(static_meshes@);
            let yv = strings_view(dynamic_meshes@);
            if !resuming && first_unresolved(names, fluid_ids@, dv) is Some {
                let k = first_unresolved(names, fluid_ids@, dv)->0;
                if first_index(names, dv[k].0) is None {
                    r matches Err(SetupError::UnknownMesh(m)) && m@ == dv[k].0
                } else {
                    r == Err::<ScenePlan, SetupError>(SetupError::UndefinedFluidId(dv[k].1))
                }
            } else if first_unknown(names, sv) is Some {
                r matches Err(SetupError::UnknownMesh(m)) && m@ == sv[first_unknown(names, sv)->0]
            } else if first_unknown(names, yv) is Some {
                r matches Err(SetupError::UnknownMesh(m)) && m@ == yv[first_unknown(names, yv)->0]
            } else if (solver == PressureSolverVariant::IISPHwOST) != (scheme
                == IntegrationSchemeVariant::TakePredicted) {
                r == Err::<ScenePlan, SetupError>(SetupError::IncompatibleIntegrationPairing)
            } else if solver == PressureSolverVariant::IISPHwOST && dynamic_meshes@.len() > 0 {
                r == Err::<ScenePlan, SetupError>(SetupError::IncompatibleDynamicBoundary)
            } else {
                &&& r matches Ok(plan)
                &&& (resuming ==> plan.fluids@.len() == 0)
                &&& (!resuming ==> plan.fluids@.len() == fluid_defs@.len() && forall|j: int|
                    0 <= j < plan.fluids@.len() ==> first_index(names, dv[j].0) == Some(
                        #[trigger] plan.fluids@[j].0 as int,
                    ) && last_index(fluid_ids@, dv[j].1) == Some(plan.fluids@[j].1 as int))
                &&& plan.static_boundaries@.len() == static_meshes@.len()
                &&& forall|j: int|
                    0 <= j < plan.static_boundaries@.len() ==> first_index(names, sv[j]) == Some(
                        #[trigger] plan.static_boundaries@[j] as int,
                    )
                &&& plan.dynamic_boundaries@.len() == dynamic_meshes@.len()
                &&& forall|j: int|
                    0 <= j < plan.dynamic_boundaries@.len() ==> first_index(names, yv[j]) == Some(
                        #[trigger] plan.dynamic_boundaries@[j] as int,
                    )
            }
        }),
{
    let fluids = if resuming {
        Vec::new()
    } else {
        resolve_fluid_defs(mesh_names, fluid_ids, fluid_defs)?
    };
    let static_boundaries = resolve_meshes(mesh_names, static_meshes)?;
    let dynamic_boundaries = resolve_meshes(mesh_names, dynamic_meshes)?;
    check_procedures(solver, scheme, dynamic_meshes.len() > 0)?;
    Ok(ScenePlan { fluids, static_boundaries, dynamic_boundaries })
}

/// Number of time steps already propagated when the system starts: those
/// of the saved state it resumes from, 0 for a fresh one.
pub fn initial_time_steps_propagated(saved: Option<u64>) -> (n: u64)
    ensures
        n == match saved {
            Some(v) => v,
            None => 0,
        },
{
    match saved {
        Some(v) => v,
        None => 0,
    }
}

} // verus!
