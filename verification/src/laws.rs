//! Laws of the derivation: properties that hold of every configuration and
//! snapshot, proved over the same spec functions the contracts use.

use crate::config::{
    auto_cflags_spec, build_result_matches, dep_key_spec, dep_prefix_spec, define_arg_spec,
    define_args_spec, generate_args_spec, generator_args_spec, msvc_spec, plan_matches,
    prefix_paths_spec, profile_spec, x86_32_spec, x86_64_spec, BuildPlan, ConfigModel,
};
use crate::environment::{lookup_spec, EnvModel};
use crate::errors::BuildError;
use vstd::prelude::*;

verus! {

/// Platform flags: an MSVC-like target never receives an automatically added
/// flag; every other target receives the section flags; a 32-bit x86 target
/// receives `-m32` and no `-fPIC`; a 64-bit x86 target (that is not also
/// marked 32-bit) receives both `-m64` and `-fPIC`.
pub proof fn lemma_platform_flags(target: Seq<char>)
    ensures
        msvc_spec(target) ==> auto_cflags_spec(target) == Seq::<Seq<char>>::empty(),
        !msvc_spec(target) ==> auto_cflags_spec(target).contains("-ffunction-sections"@)
            && auto_cflags_spec(target).contains("-fdata-sections"@),
        !msvc_spec(target) && x86_32_spec(target) ==> auto_cflags_spec(target).contains("-m32"@)
            && !auto_cflags_spec(target).contains("-fPIC"@) && !auto_cflags_spec(
            target,
        ).contains("-m64"@),
        !msvc_spec(target) && !x86_32_spec(target) && x86_64_spec(target) ==> auto_cflags_spec(
            target,
        ).contains("-m64"@) && auto_cflags_spec(target).contains("-fPIC"@) && !auto_cflags_spec(
            target,
        ).contains("-m32"@),
        !msvc_spec(target) && !x86_32_spec(target) && !x86_64_spec(target) ==> auto_cflags_spec(
            target,
        ).contains("-fPIC"@) && !auto_cflags_spec(target).contains("-m32"@)
            && !auto_cflags_spec(target).contains("-m64"@),
{
    reveal_strlit("-ffunction-sections");
    reveal_strlit("-fdata-sections");
    reveal_strlit("-m32");
    reveal_strlit("-m64");
    reveal_strlit("-fPIC");
    assert("-ffunction-sections"@ != "-fPIC"@ && "-ffunction-sections"@ != "-m32"@
        && "-ffunction-sections"@ != "-m64"@) by {
        assert("-ffunction-sections"@.len() == 19);
        assert("-fPIC"@.len() == 5);
        assert("-m32"@.len() == 4);
        assert("-m64"@.len() == 4);
    }
    assert("-fdata-sections"@ != "-fPIC"@ && "-fdata-sections"@ != "-m32"@ && "-fdata-sections"@
        != "-m64"@) by {
        assert("-fdata-sections"@.len() == 15);
    }
    assert("-m32"@ != "-fPIC"@ && "-m64"@ != "-fPIC"@) by {
        assert("-m32"@.len() == 4);
        assert("-m64"@.len() == 4);
        assert("-fPIC"@.len() == 5);
    }
    assert("-m32"@ != "-m64"@) by {
        assert("-m32"@[2] == '3' && "-m64"@[2] == '6');
    }
    let a = auto_cflags_spec(target);
    if msvc_spec(target) {
        assert(a == Seq::<Seq<char>>::empty());
    } else if x86_32_spec(target) {
        assert(a =~= seq!["-ffunction-sections"@, "-fdata-sections"@, "-m32"@]);
        assert(a[0] == "-ffunction-sections"@);
        assert(a[1] == "-fdata-sections"@);
        assert(a[2] == "-m32"@);
        assert forall|i: int| 0 <= i < a.len() implies a[i] != "-fPIC"@ by {}
        assert forall|i: int| 0 <= i < a.len() implies a[i] != "-m64"@ by {}
    } else if x86_64_spec(target) {
        assert(a =~= seq!["-ffunction-sections"@, "-fdata-sections"@, "-m64"@, "-fPIC"@]);
        assert(a[0] == "-ffunction-sections"@);
        assert(a[1] == "-fdata-sections"@);
        assert(a[2] == "-m64"@);
        assert(a[3] == "-fPIC"@);
        assert forall|i: int| 0 <= i < a.len() implies a[i] != "-m32"@ by {}
    } else {
        assert(a =~= seq!["-ffunction-sections"@, "-fdata-sections"@, "-fPIC"@]);
        assert(a[0] == "-ffunction-sections"@);
        assert(a[1] == "-fdata-sections"@);
        assert(a[2] == "-fPIC"@);
        assert forall|i: int| 0 <= i < a.len() implies a[i] != "-m32"@ by {}
        assert forall|i: int| 0 <= i < a.len() implies a[i] != "-m64"@ by {}
    }
}

/// Profile resolution: an MSVC-like target always resolves to Release,
/// whatever the profile; otherwise `release` and `bench` resolve to Release
/// and every other profile to Debug.
pub proof fn lemma_profile_resolution(profile: Seq<char>, msvc: bool)
    ensures
        msvc ==> profile_spec(profile, msvc) == "Release"@,
        profile == "release"@ || profile == "bench"@ ==> profile_spec(profile, msvc)
            == "Release"@,
        !msvc && profile != "release"@ && profile != "bench"@ ==> profile_spec(profile, msvc)
            == "Debug"@,
{
}

/// Defines verbatim: define `j` stands among the generate-step arguments as
/// `-D<NAME>=<VALUE>`, in call order and with duplicates kept, at the fixed
/// offset after the project path and the generator arguments.
pub proof fn lemma_defines_verbatim(
    abs_path: Seq<char>,
    gen_args: Seq<Seq<char>>,
    defines: Seq<(Seq<char>, Seq<char>)>,
    profile: Seq<char>,
    out_dir: Seq<char>,
    cflags: Seq<char>,
)
    ensures
        generate_args_spec(abs_path, gen_args, defines, profile, out_dir, cflags).len() == 4
            + gen_args.len() + defines.len(),
        forall|j: int|
            0 <= j < defines.len() ==> generate_args_spec(
                abs_path,
                gen_args,
                defines,
                profile,
                out_dir,
                cflags,
            )[1 + gen_args.len() + j] == define_arg_spec(defines[j].0, defines[j].1),
{
    let args = generate_args_spec(abs_path, gen_args, defines, profile, out_dir, cflags);
    assert forall|j: int| 0 <= j < defines.len() implies args[1 + gen_args.len() + j]
        == define_arg_spec(defines[j].0, defines[j].1) by {
        assert(define_args_spec(defines)[j] == define_arg_spec(defines[j].0, defines[j].1));
    }
}

/// A registered dependency's install root stands in the dependency part of
/// the search path.
proof fn lemma_dep_root_in_prefix(
    deps: Seq<Seq<char>>,
    vars: Seq<(Seq<char>, Seq<char>)>,
    k: int,
)
    requires
        0 <= k < deps.len(),
        lookup_spec(vars, dep_key_spec(deps[k])) is Some,
    ensures
        exists|i: int|
            0 <= i < dep_prefix_spec(deps, vars).len() && #[trigger] dep_prefix_spec(deps, vars)[i]
                == lookup_spec(vars, dep_key_spec(deps[k]))->Some_0,
    decreases deps.len(),
{
    let root = lookup_spec(vars, dep_key_spec(deps[k]))->Some_0;
    let whole = dep_prefix_spec(deps, vars);
    if k == deps.len() - 1 {
        assert(whole[whole.len() - 1] == root);
    } else {
        assert(deps.drop_last()[k] == deps[k]);
        lemma_dep_root_in_prefix(deps.drop_last(), vars, k);
        let head = dep_prefix_spec(deps.drop_last(), vars);
        let i = choose|i: int| 0 <= i < head.len() && #[trigger] head[i] == root;
        assert(whole[i] == root);
    }
}

/// Dependency precedence: a registered dependency whose root variable is set
/// appears on the search path before every ambient entry — the path is the
/// dependency part followed by the ambient part, and the root stands in the
/// dependency part.
pub proof fn lemma_dep_root_precedes_ambient(
    deps: Seq<Seq<char>>,
    vars: Seq<(Seq<char>, Seq<char>)>,
    ambient: Seq<Seq<char>>,
    k: int,
)
    requires
        0 <= k < deps.len(),
        lookup_spec(vars, dep_key_spec(deps[k])) is Some,
    ensures
        exists|i: int|
            0 <= i < dep_prefix_spec(deps, vars).len() && #[trigger] prefix_paths_spec(
                deps,
                vars,
                ambient,
            )[i] == lookup_spec(vars, dep_key_spec(deps[k]))->Some_0,
        forall|j: int|
            0 <= j < ambient.len() ==> #[trigger] prefix_paths_spec(deps, vars, ambient)[
                dep_prefix_spec(deps, vars).len() + j] == ambient[j],
{
    lemma_dep_root_in_prefix(deps, vars, k);
    let root = lookup_spec(vars, dep_key_spec(deps[k]))->Some_0;
    let head = dep_prefix_spec(deps, vars);
    let i = choose|i: int| 0 <= i < head.len() && #[trigger] head[i] == root;
    assert(prefix_paths_spec(deps, vars, ambient)[i] == root);
}

/// Field-by-field equality of two plans, up to views.
pub open spec fn plan_views_eq(p1: BuildPlan, p2: BuildPlan) -> bool {
    &&& p1.build_dir@ == p2.build_dir@
    &&& p1.generate.program@ == p2.generate.program@
    &&& p1.generate.args.deep_view() == p2.generate.args.deep_view()
    &&& p1.generate.path_env.deep_view() == p2.generate.path_env.deep_view()
    &&& p1.generate.cwd@ == p2.generate.cwd@
    &&& p1.build_step.program@ == p2.build_step.program@
    &&& p1.build_step.args.deep_view() == p2.build_step.args.deep_view()
    &&& p1.build_step.path_env.deep_view() == p2.build_step.path_env.deep_view()
    &&& p1.build_step.cwd@ == p2.build_step.cwd@
    &&& p1.install_dir@ == p2.install_dir@
    &&& p1.root_line@ == p2.root_line@
}

/// Round trip: two builds of one configuration under one snapshot derive the
/// same plan — the derivation holds no hidden state, caches nothing, and
/// reuses nothing from an earlier run.
pub proof fn lemma_build_repeatable(
    r1: Result<BuildPlan, BuildError>,
    r2: Result<BuildPlan, BuildError>,
    c: ConfigModel,
    e: EnvModel,
)
    requires
        build_result_matches(r1, c, e),
        build_result_matches(r2, c, e),
    ensures
        r1 is Ok <==> r2 is Ok,
        r1 is Ok ==> plan_views_eq(r1->Ok_0, r2->Ok_0),
{
}

/// Success exactly when owed: a derivation yields a plan if and only if the
/// three required variables are present and the target is supported; a
/// missing input thus aborts before any subprocess can be reached, since only
/// a plan carries commands.
pub proof fn lemma_build_success_iff(
    r: Result<BuildPlan, BuildError>,
    c: ConfigModel,
    e: EnvModel,
)
    requires
        build_result_matches(r, c, e),
    ensures
        r is Ok <==> (lookup_spec(e.vars, "TARGET"@) is Some && lookup_spec(e.vars, "OUT_DIR"@)
            is Some && lookup_spec(e.vars, "PROFILE"@) is Some && generator_args_spec(
            lookup_spec(e.vars, "TARGET"@)->Some_0,
        ) is Some),
{
}

/// The generate step is never suppressed: every successful derivation carries
/// a generate invocation computed from the snapshot handed to that very call,
/// so a change of compiler-selection environment between two builds reaches
/// the second generate step unhindered; whether the external tool then
/// regenerates its cache is that tool's own affair.
pub proof fn lemma_generate_step_fresh(
    r: Result<BuildPlan, BuildError>,
    c: ConfigModel,
    e: EnvModel,
)
    requires
        build_result_matches(r, c, e),
        r is Ok,
    ensures
        (r->Ok_0).generate.program@ == "cmake"@,
        plan_matches(r->Ok_0, c, e),
{
}

} // verus!
