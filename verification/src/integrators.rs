use vstd::prelude::*;

use crate::text::same_text;

verus! {

/// Shows the absolute shading normal of the first hit.
#[derive(Debug, Clone)]
pub struct NormalsIntegrator;

/// White where a sampled direction from the first hit escapes the scene.
#[derive(Debug, Clone)]
pub struct AmbientOcclusionIntegrator;

/// Path tracing that follows material samples only.
#[derive(Debug, Clone)]
pub struct PathTracerMatsIntegrator {
    pub max_bounces: i32,
}

/// Path tracing with next event estimation.
#[derive(Debug, Clone)]
pub struct PathTracerNEEIntegrator {
    pub max_bounces: i32,
}

/// Path tracing with multiple importance sampling of materials and lights.
#[derive(Debug, Clone)]
pub struct PathTracerMISIntegrator {
    max_bounces: i32,
}

impl PathTracerMISIntegrator {
    /// The bounce limit the integrator was made with.
    pub closed spec fn spec_max_bounces(&self) -> i32 {
        self.max_bounces
    }

    /// The integrator with bounce limit `max_bounces`.
    pub closed spec fn spec_new(max_bounces: i32) -> PathTracerMISIntegrator {
        PathTracerMISIntegrator { max_bounces }
    }

    /// The integrator `spec_new(max_bounces)` has bounce limit `max_bounces`.
    pub proof fn lemma_spec_new_bounces(max_bounces: i32)
        ensures
            Self::spec_new(max_bounces).spec_max_bounces() == max_bounces,
    {
    }

    /// An integrator that follows paths for at most `max_bounces` bounces.
    pub fn new(max_bounces: i32) -> (r: PathTracerMISIntegrator)
        ensures
            r == Self::spec_new(max_bounces),
            r.spec_max_bounces() == max_bounces,
    {
        PathTracerMISIntegrator { max_bounces }
    }

    /// The bounce limit the integrator was made with.
    pub fn max_bounces(&self) -> (r: i32)
        ensures
            r == self.spec_max_bounces(),
    {
        self.max_bounces
    }
}

/// The integrators a scene can ask for.
#[derive(Debug, Clone)]
pub enum IntegratorType {
    Normals(NormalsIntegrator),
    AmbientOcclusion(AmbientOcclusionIntegrator),
    PathTracerMats(PathTracerMatsIntegrator),
    PathTracerNEE(PathTracerNEEIntegrator),
    PathTracerMIS(PathTracerMISIntegrator),
}

/// The integrator names a scene description may use.
#[derive(Debug, Clone, Copy, PartialEq, Eq, Structural)]
pub enum IntegratorKind {
    Normals,
    AmbientOcclusion,
    PathTracerMats,
    PathTracerNEE,
    PathTracerMIS,
}

/// The integrator that the name `s` designates, if any.
pub open spec fn spec_integrator_kind(s: Seq<char>) -> Option<IntegratorKind> {
    if s == "normals"@ {
        Some(IntegratorKind::Normals)
    } else if s == "ao"@ {
        Some(IntegratorKind::AmbientOcclusion)
    } else if s == "path_tracer_mats"@ {
        Some(IntegratorKind::PathTracerMats)
    } else if s == "path_tracer_nee"@ {
        Some(IntegratorKind::PathTracerNEE)
    } else if s == "path_tracer_mis"@ {
        Some(IntegratorKind::PathTracerMIS)
    } else {
        None
    }
}

/// The integrator that the name `name` designates, if any.
pub fn integrator_kind(name: &str) -> (r: Option<IntegratorKind>)
    ensures
        r == spec_integrator_kind(name@),
        r == Some(IntegratorKind::Normals) <==> name@ == "normals"@,
        r == Some(IntegratorKind::AmbientOcclusion) <==> name@ == "ao"@,
        r == Some(IntegratorKind::PathTracerMats) <==> name@ == "path_tracer_mats"@,
        r == Some(IntegratorKind::PathTracerNEE) <==> name@ == "path_tracer_nee"@,
        r == Some(IntegratorKind::PathTracerMIS) <==> name@ == "path_tracer_mis"@,
{
    proof {
        law_integrator_names(name@);
    }
    if same_text(name, "normals") {
        Some(IntegratorKind::Normals)
    } else if same_text(name, "ao") {
        Some(IntegratorKind::AmbientOcclusion)
    } else if same_text(name, "path_tracer_mats") {
        Some(IntegratorKind::PathTracerMats)
    } else if same_text(name, "path_tracer_nee") {
        Some(IntegratorKind::PathTracerNEE)
    } else if same_text(name, "path_tracer_mis") {
        Some(IntegratorKind::PathTracerMIS)
    } else {
        None
    }
}

/// What a scene description says about its integrator: the `type` entry and
/// the `max_bounces` entry, which may be absent.
#[derive(Debug, Clone)]
pub struct IntegratorSettings {
    pub kind: String,
    pub max_bounces: Option<i32>,
}

/// The bounce limit a description stands for: 64 when it gives none.
pub open spec fn bounce_limit(max_bounces: Option<i32>) -> i32 {
    match max_bounces {
        Some(n) => n,
        None => 64,
    }
}

/// The integrator that `kind` and bounce limit `n` make.
pub open spec fn integrator_of(kind: IntegratorKind, n: i32) -> IntegratorType {
    match kind {
        IntegratorKind::Normals => IntegratorType::Normals(NormalsIntegrator),
        IntegratorKind::AmbientOcclusion => IntegratorType::AmbientOcclusion(
            AmbientOcclusionIntegrator,
        ),
        IntegratorKind::PathTracerMats => IntegratorType::PathTracerMats(
            PathTracerMatsIntegrator { max_bounces: n },
        ),
        IntegratorKind::PathTracerNEE => IntegratorType::PathTracerNEE(
            PathTracerNEEIntegrator { max_bounces: n },
        ),
        IntegratorKind::PathTracerMIS => IntegratorType::PathTracerMIS(
            PathTracerMISIntegrator::spec_new(n),
        ),
    }
}

/// Whether a description names an integrator this renderer knows; no
/// integrator entry at all is allowed too.
pub open spec fn names_known_integrator(settings: Option<&IntegratorSettings>) -> bool {
    settings matches Some(st) ==> spec_integrator_kind(st.kind@) is Some
}

/// Builds the integrator a scene asks for. Without an integrator entry the
/// scene is rendered by material-sampling path tracing with 64 bounces; the
/// path tracers take the given bounce limit, 64 by default.
pub fn create_integrator(settings: Option<&IntegratorSettings>) -> (r: IntegratorType)
    requires
        names_known_integrator(settings),
    ensures
        settings is None ==> r == integrator_of(IntegratorKind::PathTracerMats, 64),
        settings matches Some(st) ==> r == integrator_of(
            spec_integrator_kind(st.kind@)->0,
            bounce_limit(st.max_bounces),
        ),
        settings matches Some(st) ==> named_after(st.kind@, r, bounce_limit(st.max_bounces)),
        settings is None ==> (r matches IntegratorType::PathTracerMats(i) && i.max_bounces == 64),
{
    proof {
        if let Some(st) = settings {
            law_integrator_named_after_type(st.kind@, st.max_bounces);
        }
    }
    match settings {
        None => IntegratorType::PathTracerMats(PathTracerMatsIntegrator { max_bounces: 64 }),
        Some(st) => {
            let n = match st.max_bounces {
                Some(n) => n,
                None => 64,
            };
            match integrator_kind(st.kind.as_str()).unwrap() {
                IntegratorKind::Normals => IntegratorType::Normals(NormalsIntegrator),
                IntegratorKind::AmbientOcclusion => IntegratorType::AmbientOcclusion(
                    AmbientOcclusionIntegrator,
                ),
                IntegratorKind::PathTracerMats => IntegratorType::PathTracerMats(
                    PathTracerMatsIntegrator { max_bounces: n },
                ),
                IntegratorKind::PathTracerNEE => IntegratorType::PathTracerNEE(
                    PathTracerNEEIntegrator { max_bounces: n },
                ),
                IntegratorKind::PathTracerMIS => IntegratorType::PathTracerMIS(
                    PathTracerMISIntegrator::new(n),
                ),
            }
        },
    }
}

/// `r` is the integrator called `name`: normals, ambient occlusion (`ao`),
/// or one of the three path tracers, which then stops after `n` bounces.
pub open spec fn named_after(name: Seq<char>, r: IntegratorType, n: i32) -> bool {
    &&& (name == "normals"@ <==> r is Normals)
    &&& (name == "ao"@ <==> r is AmbientOcclusion)
    &&& (name == "path_tracer_mats"@ <==> r is PathTracerMats)
    &&& (name == "path_tracer_nee"@ <==> r is PathTracerNEE)
    &&& (name == "path_tracer_mis"@ <==> r is PathTracerMIS)
    &&& (r matches IntegratorType::PathTracerMats(i) ==> i.max_bounces == n)
    &&& (r matches IntegratorType::PathTracerNEE(i) ==> i.max_bounces == n)
    &&& (r matches IntegratorType::PathTracerMIS(i) ==> i.spec_max_bounces() == n)
}

/// Each integrator type name gives the integrator of that name, no other;
/// the path tracers stop after the given number of bounces, 64 when the
/// description gives none.
pub proof fn law_integrator_named_after_type(name: Seq<char>, max_bounces: Option<i32>)
    requires
        spec_integrator_kind(name) is Some,
    ensures
        named_after(
            name,
            integrator_of(spec_integrator_kind(name)->0, bounce_limit(max_bounces)),
            bounce_limit(max_bounces),
        ),
        ({
            let r = integrator_of(spec_integrator_kind(name)->0, bounce_limit(max_bounces));
            &&& (name == "normals"@ <==> r is Normals)
            &&& (name == "ao"@ <==> r is AmbientOcclusion)
            &&& (name == "path_tracer_mats"@ <==> r is PathTracerMats)
            &&& (name == "path_tracer_nee"@ <==> r is PathTracerNEE)
            &&& (name == "path_tracer_mis"@ <==> r is PathTracerMIS)
            &&& (r matches IntegratorType::PathTracerMats(i) ==> i.max_bounces == bounce_limit(max_bounces))
            &&& (r matches IntegratorType::PathTracerNEE(i) ==> i.max_bounces == bounce_limit(max_bounces))
            &&& (r matches IntegratorType::PathTracerMIS(i) ==> i.spec_max_bounces() == bounce_limit(
                max_bounces,
            ))
        }),
        max_bounces is None ==> bounce_limit(max_bounces) == 64,
        max_bounces matches Some(n) ==> bounce_limit(max_bounces) == n,
{
    reveal_strlit("normals");
    reveal_strlit("ao");
    reveal_strlit("path_tracer_mats");
    reveal_strlit("path_tracer_nee");
    reveal_strlit("path_tracer_mis");
    assert("normals"@.len() == 7);
    assert("ao"@.len() == 2);
    assert("path_tracer_mats"@.len() == 16);
    assert("path_tracer_nee"@.len() == 15);
    assert("path_tracer_mis"@.len() == 15);
    assert("path_tracer_nee"@[12] != "path_tracer_mis"@[12]);
    assert("path_tracer_nee"@ != "path_tracer_mis"@);
    PathTracerMISIntegrator::lemma_spec_new_bounces(bounce_limit(max_bounces));
}

/// Each integrator type name stands for the integrator of that name, and no
/// other name stands for an integrator.
pub proof fn law_integrator_names(s: Seq<char>)
    ensures
        spec_integrator_kind(s) == Some(IntegratorKind::Normals) <==> s == "normals"@,
        spec_integrator_kind(s) == Some(IntegratorKind::AmbientOcclusion) <==> s == "ao"@,
        spec_integrator_kind(s) == Some(IntegratorKind::PathTracerMats) <==> s == "path_tracer_mats"@,
        spec_integrator_kind(s) == Some(IntegratorKind::PathTracerNEE) <==> s == "path_tracer_nee"@,
        spec_integrator_kind(s) == Some(IntegratorKind::PathTracerMIS) <==> s == "path_tracer_mis"@,
        spec_integrator_kind(s) is None <==> (s != "normals"@ && s != "ao"@ && s != "path_tracer_mats"@
            && s != "path_tracer_nee"@ && s != "path_tracer_mis"@),
{
    reveal_strlit("normals");
    reveal_strlit("ao");
    reveal_strlit("path_tracer_mats");
    reveal_strlit("path_tracer_nee");
    reveal_strlit("path_tracer_mis");
    assert("normals"@.len() == 7);
    assert("ao"@.len() == 2);
    assert("path_tracer_mats"@.len() == 16);
    assert("path_tracer_nee"@.len() == 15);
    assert("path_tracer_mis"@.len() == 15);
    assert("path_tracer_nee"@[12] != "path_tracer_mis"@[12]);
    assert("path_tracer_nee"@ != "path_tracer_mis"@);
}

/// Distinct integrator names give distinct kinds of integrator.
pub proof fn law_integrator_names_distinct(a: Seq<char>, b: Seq<char>)
    requires
        spec_integrator_kind(a) is Some,
        spec_integrator_kind(a) == spec_integrator_kind(b),
    ensures
        a == b,
{
}

} // verus!
