//! The build configuration and the derivation of the invocation plan.
//!
//! A [`Config`] accumulates what the caller asks for; [`Config::build`]
//! combines it with an [`EnvSnapshot`] into a [`BuildPlan`]: the two external
//! command lines (generate, then build and install), the dependency search
//! path, and the install directory.  The derivation is a pure function of the
//! configuration and the snapshot, stated field by field by
//! [`build_result_matches`].

use crate::environment::{lookup, lookup_spec, EnvModel, EnvSnapshot};
use crate::errors::BuildError;
use crate::strutil::{contains_seq, contains_sub, str_eq};
use vstd::prelude::*;
use vstd::string::StrSliceExecFns;
use vstd::string::StringExecFns;

verus! {

// ---------------------------------------------------------------------------
// Target-triple classification
// ---------------------------------------------------------------------------
/// The target uses the MSVC ABI.
pub open spec fn msvc_spec(target: Seq<char>) -> bool {
    contains_seq(target, "msvc"@)
}

/// The target names a 32-bit x86 architecture.
pub open spec fn x86_32_spec(target: Seq<char>) -> bool {
    contains_seq(target, "i686"@)
}

/// The target names a 64-bit x86 architecture.
pub open spec fn x86_64_spec(target: Seq<char>) -> bool {
    contains_seq(target, "x86_64"@)
}

/// The target is a GNU-toolchain Windows variant.
pub open spec fn windows_gnu_spec(target: Seq<char>) -> bool {
    contains_seq(target, "windows-gnu"@)
}

// ---------------------------------------------------------------------------
// Compiler flags
// ---------------------------------------------------------------------------
/// The flags this library adds on its own account, as discrete tokens:
/// nothing for MSVC-like targets; otherwise section flags, the bit-width
/// selection (32-bit x86 wins over 64-bit when both markers occur), and
/// position-independent code everywhere but on 32-bit x86.
pub open spec fn auto_cflags_spec(target: Seq<char>) -> Seq<Seq<char>> {
    if msvc_spec(target) {
        Seq::empty()
    } else {
        seq!["-ffunction-sections"@, "-fdata-sections"@] + (if x86_32_spec(target) {
            seq!["-m32"@]
        } else if x86_64_spec(target) {
            seq!["-m64"@]
        } else {
            Seq::empty()
        }) + (if !x86_32_spec(target) {
            seq!["-fPIC"@]
        } else {
            Seq::empty()
        })
    }
}

/// The tokens of `ts` in order, each preceded by one space.
pub open spec fn joined_with_spaces(ts: Seq<Seq<char>>) -> Seq<char>
    decreases ts.len(),
{
    if ts.len() == 0 {
        Seq::empty()
    } else {
        joined_with_spaces(ts.drop_last()) + " "@ + ts.last()
    }
}

/// The full compiler-flags string: ambient flags first, then the caller's
/// accumulated flags, then the automatically derived platform flags, so that
/// later flags can override earlier ones at the compiler level.
pub open spec fn composed_cflags_spec(base: Seq<char>, user: Seq<char>, target: Seq<char>) -> Seq<
    char,
> {
    base + " "@ + user + joined_with_spaces(auto_cflags_spec(target))
}

/// The flags this library adds for `target`, as discrete tokens.
pub fn auto_cflags(target: &str) -> (r: Vec<String>)
    ensures
        r.deep_view() == auto_cflags_spec(target@),
{
    let mut v: Vec<String> = Vec::new();
    if !contains_sub(target, "msvc") {
        v.push(String::from_str("-ffunction-sections"));
        v.push(String::from_str("-fdata-sections"));
        let bits32 = contains_sub(target, "i686");
        if bits32 {
            v.push(String::from_str("-m32"));
        } else if contains_sub(target, "x86_64") {
            v.push(String::from_str("-m64"));
        }
        if !bits32 {
            v.push(String::from_str("-fPIC"));
        }
        proof {
            assert(v.deep_view() =~= auto_cflags_spec(target@));
        }
    } else {
        proof {
            assert(v.deep_view() =~= auto_cflags_spec(target@));
        }
    }
    v
}

/// Appends every token of `tokens` to `s`, each preceded by one space.
fn append_tokens(s: &mut String, tokens: &Vec<String>)
    ensures
        final (s)@ == old(s)@ + joined_with_spaces(tokens.deep_view()),
{
    let ghost ts = tokens.deep_view();
    let ghost start = old(s)@;
    proof {
        assert(ts.take(0) =~= Seq::<Seq<char>>::empty());
        assert(start + joined_with_spaces(ts.take(0)) =~= start);
    }
    let n = tokens.len();
    let mut i: usize = 0;
    while i < n
        invariant
            ts == tokens.deep_view(),
            n == tokens.len(),
            i <= n,
            s@ == start + joined_with_spaces(ts.take(i as int)),
        decreases n - i,
    {
        s.append(" ");
        s.append(tokens[i].as_str());
        proof {
            assert(ts.take(i + 1).drop_last() =~= ts.take(i as int));
            assert(ts.take(i + 1).last() == ts[i as int]);
            assert(start + joined_with_spaces(ts.take(i as int)) + " "@ + ts[i as int] =~= start
                + joined_with_spaces(ts.take(i + 1)));
        }
        i += 1;
    }
    proof {
        assert(ts.take(n as int) =~= ts);
    }
}

/// Composes the full compiler-flags string for `target` from the ambient
/// flags `base` and the caller's accumulated flags `user`.
pub fn compose_cflags(base: &str, user: &str, target: &str) -> (r: String)
    ensures
        r@ == composed_cflags_spec(base@, user@, target@),
{
    let mut s = base.to_owned();
    s.append(" ");
    s.append(user);
    let auto = auto_cflags(target);
    append_tokens(&mut s, &auto);
    s
}

// ---------------------------------------------------------------------------
// Build profile
// ---------------------------------------------------------------------------
/// The configuration name handed to the external tool: `release` and `bench`
/// builds map to Release, MSVC-like targets always use Release (their runtime
/// library linkage must stay consistent across dependency builds), everything
/// else maps to Debug.
pub open spec fn profile_spec(profile: Seq<char>, msvc: bool) -> Seq<char> {
    if profile == "release"@ || profile == "bench"@ || msvc {
        "Release"@
    } else {
        "Debug"@
    }
}

/// Selects the configuration name for the given profile value.
pub fn select_profile(profile: &str, msvc: bool) -> (r: String)
    ensures
        r@ == profile_spec(profile@, msvc),
{
    if str_eq(profile, "release") || str_eq(profile, "bench") || msvc {
        String::from_str("Release")
    } else {
        String::from_str("Debug")
    }
}

// ---------------------------------------------------------------------------
// Generator selection
// ---------------------------------------------------------------------------
/// The extra generator arguments of the generate step, or `None` for an
/// MSVC-like target whose architecture is not recognized — a configuration
/// this library does not support and must not silently mis-target.
/// GNU-toolchain Windows variants force a Unix Makefiles generator; other
/// MSVC-like targets select the Visual Studio generator of their bit width;
/// everything else uses the external tool's platform default (no argument).
pub open spec fn generator_args_spec(target: Seq<char>) -> Option<Seq<Seq<char>>> {
    if windows_gnu_spec(target) {
        Some(seq!["-G"@, "Unix Makefiles"@])
    } else if msvc_spec(target) {
        if x86_32_spec(target) {
            Some(seq!["-G"@, "Visual Studio 12 2013"@])
        } else if x86_64_spec(target) {
            Some(seq!["-G"@, "Visual Studio 12 2013 Win64"@])
        } else {
            None
        }
    } else {
        Some(Seq::empty())
    }
}

/// Selects the generator arguments for `target`.
pub fn generator_args(target: &str) -> (r: Option<Vec<String>>)
    ensures
        r.deep_view() == generator_args_spec(target@),
{
    if contains_sub(target, "windows-gnu") {
        let mut v: Vec<String> = Vec::new();
        v.push(String::from_str("-G"));
        v.push(String::from_str("Unix Makefiles"));
        proof {
            assert(v.deep_view() =~= seq!["-G"@, "Unix Makefiles"@]);
        }
        Some(v)
    } else if contains_sub(target, "msvc") {
        if contains_sub(target, "i686") {
            let mut v: Vec<String> = Vec::new();
            v.push(String::from_str("-G"));
            v.push(String::from_str("Visual Studio 12 2013"));
            proof {
                assert(v.deep_view() =~= seq!["-G"@, "Visual Studio 12 2013"@]);
            }
            Some(v)
        } else if contains_sub(target, "x86_64") {
            let mut v: Vec<String> = Vec::new();
            v.push(String::from_str("-G"));
            v.push(String::from_str("Visual Studio 12 2013 Win64"));
            proof {
                assert(v.deep_view() =~= seq!["-G"@, "Visual Studio 12 2013 Win64"@]);
            }
            Some(v)
        } else {
            None
        }
    } else {
        let v: Vec<String> = Vec::new();
        proof {
            assert(v.deep_view() =~= Seq::<Seq<char>>::empty());
        }
        Some(v)
    }
}

// ---------------------------------------------------------------------------
// Dependency search paths
// ---------------------------------------------------------------------------
/// The environment variable that holds the install root of the upstream
/// dependency `dep`.
pub open spec fn dep_key_spec(dep: Seq<char>) -> Seq<char> {
    "DEP_"@ + dep + "_ROOT"@
}

/// Builds the name of the install-root variable of `dep`.
fn dep_root_key(dep: &str) -> (r: String)
    ensures
        r@ == dep_key_spec(dep@),
{
    let mut s = String::from_str("DEP_");
    s.append(dep);
    s.append("_ROOT");
    s
}

/// The install roots of the registered dependencies, in registration order,
/// keeping only those whose root variable is set.
pub open spec fn dep_prefix_spec(deps: Seq<Seq<char>>, vars: Seq<(Seq<char>, Seq<char>)>) -> Seq<
    Seq<char>,
>
    decreases deps.len(),
{
    if deps.len() == 0 {
        Seq::empty()
    } else {
        dep_prefix_spec(deps.drop_last(), vars) + (match lookup_spec(
            vars,
            dep_key_spec(deps.last()),
        ) {
            Some(root) => seq![root],
            None => Seq::empty(),
        })
    }
}

/// The full dependency search path: freshly registered dependencies first, in
/// registration order, then every ambient entry in its existing order — so a
/// registered dependency is preferred over an ambient one of the same name.
pub open spec fn prefix_paths_spec(
    deps: Seq<Seq<char>>,
    vars: Seq<(Seq<char>, Seq<char>)>,
    ambient: Seq<Seq<char>>,
) -> Seq<Seq<char>> {
    dep_prefix_spec(deps, vars) + ambient
}

/// Resolves the dependency search path for `deps` against the snapshot.
pub fn prefix_paths(deps: &Vec<String>, env: &EnvSnapshot) -> (r: Vec<String>)
    ensures
        r.deep_view() == prefix_paths_spec(deps.deep_view(), env@.vars, env@.ambient_prefix),
{
    let ghost ds = deps.deep_view();
    let mut v: Vec<String> = Vec::new();
    proof {
        assert(ds.take(0) =~= Seq::<Seq<char>>::empty());
        assert(v.deep_view() =~= dep_prefix_spec(ds.take(0), env@.vars));
    }
    let n = deps.len();
    let mut i: usize = 0;
    while i < n
        invariant
            ds == deps.deep_view(),
            n == deps.len(),
            i <= n,
            v.deep_view() == dep_prefix_spec(ds.take(i as int), env@.vars),
        decreases n - i,
    {
        let ghost before = v.deep_view();
        let key = dep_root_key(deps[i].as_str());
        match lookup(&env.vars, key.as_str()) {
            Some(root) => {
                let ghost rootv = root@;
                v.push(root);
                proof {
                    assert(v.deep_view() =~= before + seq![rootv]);
                }
            },
            None => {
                proof {
                    assert(v.deep_view() =~= before + Seq::<Seq<char>>::empty());
                }
            },
        }
        proof {
            assert(ds.take(i + 1).drop_last() =~= ds.take(i as int));
            assert(ds.take(i + 1).last() == ds[i as int]);
        }
        i += 1;
    }
    proof {
        assert(ds.take(n as int) =~= ds);
    }
    let ghost dep_part = v.deep_view();
    let ghost amb = env@.ambient_prefix;
    proof {
        assert(amb.take(0) =~= Seq::<Seq<char>>::empty());
        assert(v.deep_view() =~= dep_part + amb.take(0));
    }
    let m = env.ambient_prefix.len();
    let mut j: usize = 0;
    while j < m
        invariant
            amb == env.ambient_prefix.deep_view(),
            m == env.ambient_prefix.len(),
            j <= m,
            dep_part == dep_prefix_spec(ds, env@.vars),
            v.deep_view() == dep_part + amb.take(j as int),
        decreases m - j,
    {
        let ghost before = v.deep_view();
        v.push(env.ambient_prefix[j].clone());
        proof {
            assert(v.deep_view() =~= before + seq![amb[j as int]]);
            assert(before + seq![amb[j as int]] =~= dep_part + amb.take(j + 1));
        }
        j += 1;
    }
    proof {
        assert(amb.take(m as int) =~= amb);
    }
    v
}

// ---------------------------------------------------------------------------
// Paths
// ---------------------------------------------------------------------------
/// The character separates path components, on either kind of host.
pub open spec fn sep_char(c: char) -> bool {
    c == '/' || c == '\\'
}

/// The character is an ASCII letter, as a drive designator allows.
pub open spec fn ascii_letter(c: char) -> bool {
    ('a' as u32 <= c as u32 && c as u32 <= 'z' as u32) || ('A' as u32 <= c as u32 && c as u32
        <= 'Z' as u32)
}

/// The path begins with a `<letter>:` drive designator.
pub open spec fn drive_prefixed(p: Seq<char>) -> bool {
    p.len() >= 2 && ascii_letter(p[0]) && p[1] == ':'
}

/// The path stands on its own: it begins with a separator, or with a drive
/// designator as on Windows hosts.
pub open spec fn absolute_path_spec(p: Seq<char>) -> bool {
    (p.len() > 0 && sep_char(p[0])) || drive_prefixed(p)
}

/// Path joining: an absolute `p` stands alone and replaces `base`, as the
/// host's path joining keeps an absolute path intact; otherwise `p` is
/// appended to `base` with a single separator between them.
pub open spec fn path_join_spec(base: Seq<char>, p: Seq<char>) -> Seq<char> {
    if absolute_path_spec(p) {
        p
    } else if base.len() > 0 && sep_char(base.last()) {
        base + p
    } else {
        base + "/"@ + p
    }
}

/// Joins `p` onto `base` as [`path_join_spec`] describes.
pub fn path_join(base: &str, p: &str) -> (r: String)
    ensures
        r@ == path_join_spec(base@, p@),
{
    let pn = p.unicode_len();
    let absolute = if pn == 0 {
        false
    } else {
        let c0 = p.get_char(0);
        if c0 == '/' || c0 == '\\' {
            true
        } else if pn >= 2 && p.get_char(1) == ':' {
            ('a' as u32 <= c0 as u32 && c0 as u32 <= 'z' as u32) || ('A' as u32 <= c0 as u32
                && c0 as u32 <= 'Z' as u32)
        } else {
            false
        }
    };
    if absolute {
        return p.to_owned();
    }
    let bn = base.unicode_len();
    let mut s = base.to_owned();
    let needs_sep = if bn == 0 {
        true
    } else {
        let cl = base.get_char(bn - 1);
        !(cl == '/' || cl == '\\')
    };
    if needs_sep {
        s.append("/");
    }
    s.append(p);
    s
}

// ---------------------------------------------------------------------------
// The configuration
// ---------------------------------------------------------------------------
/// Builder-style configuration for a pending native build.  It is write-only
/// until [`Config::build`] materializes it, together with an environment
/// snapshot, into an invocation plan.
pub struct Config {
    path: String,
    cflags: String,
    defines: Vec<(String, String)>,
    deps: Vec<String>,
    build_target: Option<String>,
}

/// The mathematical image of a [`Config`].
pub ghost struct ConfigModel {
    /// Location of the source tree to build; immutable after creation.
    pub path: Seq<char>,
    /// The caller's compiler flags, space-joined in the order they were added.
    pub cflags: Seq<char>,
    /// The (name, value) define pairs, in insertion order, duplicates kept.
    pub defines: Seq<(Seq<char>, Seq<char>)>,
    /// The registered upstream dependency names, in registration order.
    pub deps: Seq<Seq<char>>,
    /// The requested build target, if any; the tool's default otherwise.
    pub build_target: Option<Seq<char>>,
}

impl View for Config {
    type V = ConfigModel;

    closed spec fn view(&self) -> ConfigModel {
        ConfigModel {
            path: self.path@,
            cflags: self.cflags@,
            defines: self.defines.deep_view(),
            deps: self.deps.deep_view(),
            build_target: match self.build_target {
                Some(t) => Some(t@),
                None => None,
            },
        }
    }
}

/// The image of a configuration fresh from [`Config::new`].
pub open spec fn empty_config_view(path: Seq<char>) -> ConfigModel {
    ConfigModel {
        path: path,
        cflags: Seq::empty(),
        defines: Seq::empty(),
        deps: Seq::empty(),
        build_target: None,
    }
}

// ---------------------------------------------------------------------------
// The invocation plan
// ---------------------------------------------------------------------------
/// One external command of the plan: what to run, with which arguments, from
/// where, and with which extra environment.
pub struct CommandSpec {
    /// The executable to invoke.
    pub program: String,
    /// Its arguments, in order.
    pub args: Vec<String>,
    /// Environment set for this invocation only; each value is a list of
    /// paths, to be joined with the platform's path-list separator at spawn
    /// time.
    pub path_env: Vec<(String, Vec<String>)>,
    /// The working directory to run from.
    pub cwd: String,
}

/// Everything a successful derivation decides: the two command lines and the
/// directories around them.  The plan is ephemeral — it exists to be executed
/// once, generate step first, then build step.
pub struct BuildPlan {
    /// The directory both steps run from; to be created (idempotently,
    /// ignoring "already exists") before they run.
    pub build_dir: String,
    /// The generate step: points the external generator at the project.
    pub generate: CommandSpec,
    /// The build-and-install step.
    pub build_step: CommandSpec,
    /// Where the artifacts land: the durable output of the whole build.
    pub install_dir: String,
    /// The machine-readable line reporting `install_dir` to the host build
    /// pipeline.
    pub root_line: String,
}

/// One preprocessor-define argument of the generate step.
pub open spec fn define_arg_spec(k: Seq<char>, v: Seq<char>) -> Seq<char> {
    "-D"@ + k + "="@ + v
}

/// The define arguments, verbatim and in insertion order.
pub open spec fn define_args_spec(defines: Seq<(Seq<char>, Seq<char>)>) -> Seq<Seq<char>> {
    defines.map_values(|d: (Seq<char>, Seq<char>)| define_arg_spec(d.0, d.1))
}

/// The arguments of the generate step: the absolute project path, the
/// generator selection, one `-D<NAME>=<VALUE>` per define in insertion order,
/// then the build type, install prefix and compiler flags.
pub open spec fn generate_args_spec(
    abs_path: Seq<char>,
    gen_args: Seq<Seq<char>>,
    defines: Seq<(Seq<char>, Seq<char>)>,
    profile: Seq<char>,
    out_dir: Seq<char>,
    cflags: Seq<char>,
) -> Seq<Seq<char>> {
    seq![abs_path] + gen_args + define_args_spec(defines) + seq![
        "-DCMAKE_BUILD_TYPE="@ + profile,
        "-DCMAKE_INSTALL_PREFIX="@ + out_dir,
        "-DCMAKE_C_FLAGS="@ + cflags,
    ]
}

/// The target the build step requests: the configured one, or the install
/// meta-target by default.
pub open spec fn build_target_spec(bt: Option<Seq<char>>) -> Seq<char> {
    match bt {
        Some(t) => t,
        None => "install"@,
    }
}

/// The arguments of the build step.
pub open spec fn build_args_spec(bt: Option<Seq<char>>, profile: Seq<char>) -> Seq<Seq<char>> {
    seq!["--build"@, "."@, "--target"@, build_target_spec(bt), "--config"@, profile]
}

/// The ambient compiler flags of the snapshot, empty when unset.
pub open spec fn ambient_cflags_spec(e: EnvModel) -> Seq<char> {
    match lookup_spec(e.vars, "CFLAGS"@) {
        Some(c) => c,
        None => Seq::empty(),
    }
}

/// Field by field, `plan` is the invocation plan that configuration `c`
/// derives under snapshot `e`.  Meaningful when the three required variables
/// are present and the target is supported.
pub open spec fn plan_matches(plan: BuildPlan, c: ConfigModel, e: EnvModel) -> bool {
    let target = lookup_spec(e.vars, "TARGET"@)->Some_0;
    let out_dir = lookup_spec(e.vars, "OUT_DIR"@)->Some_0;
    let profile = profile_spec(lookup_spec(e.vars, "PROFILE"@)->Some_0, msvc_spec(target));
    let bdir = path_join_spec(out_dir, "build"@);
    let cflags = composed_cflags_spec(ambient_cflags_spec(e), c.cflags, target);
    &&& plan.build_dir@ == bdir
    &&& plan.generate.program@ == "cmake"@
    &&& plan.generate.args.deep_view() == generate_args_spec(
        path_join_spec(e.current_dir, c.path),
        generator_args_spec(target)->Some_0,
        c.defines,
        profile,
        out_dir,
        cflags,
    )
    &&& plan.generate.path_env.deep_view() == seq![
        ("CMAKE_PREFIX_PATH"@, prefix_paths_spec(c.deps, e.vars, e.ambient_prefix)),
    ]
    &&& plan.generate.cwd@ == bdir
    &&& plan.build_step.program@ == "cmake"@
    &&& plan.build_step.args.deep_view() == build_args_spec(c.build_target, profile)
    &&& plan.build_step.path_env.deep_view() == Seq::<(Seq<char>, Seq<Seq<char>>)>::empty()
    &&& plan.build_step.cwd@ == bdir
    &&& plan.install_dir@ == out_dir
    &&& plan.root_line@ == "cargo:root="@ + out_dir
}

/// The full contract of a derivation: which error comes on which snapshot —
/// each missing required variable and the unsupported-target case, in the
/// order they are checked — and, when none applies, that the result is a plan
/// matching the configuration and the snapshot.
pub open spec fn build_result_matches(
    r: Result<BuildPlan, BuildError>,
    c: ConfigModel,
    e: EnvModel,
) -> bool {
    let t = lookup_spec(e.vars, "TARGET"@);
    let o = lookup_spec(e.vars, "OUT_DIR"@);
    let p = lookup_spec(e.vars, "PROFILE"@);
    if t is None {
        r matches Err(BuildError::MissingEnvironment(v)) && v@ == "TARGET"@
    } else if o is None {
        r matches Err(BuildError::MissingEnvironment(v)) && v@ == "OUT_DIR"@
    } else if generator_args_spec(t->Some_0) is None {
        r matches Err(BuildError::UnsupportedTarget(s)) && s@ == t->Some_0
    } else if p is None {
        r matches Err(BuildError::MissingEnvironment(v)) && v@ == "PROFILE"@
    } else {
        r matches Ok(plan) && plan_matches(plan, c, e)
    }
}

/// Appends a clone of every element of `src` to `dst`.
fn append_all(dst: &mut Vec<String>, src: &Vec<String>)
    ensures
        final (dst).deep_view() == old(dst).deep_view() + src.deep_view(),
{
    let ghost start = old(dst).deep_view();
    let ghost ss = src.deep_view();
    proof {
        assert(ss.take(0) =~= Seq::<Seq<char>>::empty());
        assert(dst.deep_view() =~= start + ss.take(0));
    }
    let n = src.len();
    let mut i: usize = 0;
    while i < n
        invariant
            ss == src.deep_view(),
            n == src.len(),
            i <= n,
            dst.deep_view() == start + ss.take(i as int),
        decreases n - i,
    {
        let ghost before = dst.deep_view();
        dst.push(src[i].clone());
        proof {
            assert(dst.deep_view() =~= before + seq![ss[i as int]]);
            assert(before + seq![ss[i as int]] =~= start + ss.take(i + 1));
        }
        i += 1;
    }
    proof {
        assert(ss.take(n as int) =~= ss);
    }
}

/// Builds one `-D<NAME>=<VALUE>` argument.
fn define_arg(k: &str, v: &str) -> (r: String)
    ensures
        r@ == define_arg_spec(k@, v@),
{
    let mut s = String::from_str("-D");
    s.append(k);
    s.append("=");
    s.append(v);
    s
}

/// Appends the define arguments of `defines` to `dst`, in insertion order.
fn append_define_args(dst: &mut Vec<String>, defines: &Vec<(String, String)>)
    ensures
        final (dst).deep_view() == old(dst).deep_view() + define_args_spec(defines.deep_view()),
{
    let ghost start = old(dst).deep_view();
    let ghost ds = defines.deep_view();
    proof {
        assert(dst.deep_view() =~= start + define_args_spec(ds).take(0));
    }
    let n = defines.len();
    let mut i: usize = 0;
    while i < n
        invariant
            ds == defines.deep_view(),
            n == defines.len(),
            i <= n,
            dst.deep_view() == start + define_args_spec(ds).take(i as int),
        decreases n - i,
    {
        let ghost before = dst.deep_view();
        let a = define_arg(defines[i].0.as_str(), defines[i].1.as_str());
        let ghost av = a@;
        dst.push(a);
        proof {
            assert(av == define_args_spec(ds)[i as int]);
            assert(dst.deep_view() =~= before + seq![av]);
            assert(before + seq![av] =~= start + define_args_spec(ds).take(i + 1));
        }
        i += 1;
    }
    proof {
        assert(define_args_spec(ds).take(n as int) =~= define_args_spec(ds));
    }
}

impl Config {
    /// Creates a blank configuration for the project rooted at `path`.  The
    /// path is not validated here; a wrong one is the external tool's to
    /// report.
    pub fn new(path: &str) -> (r: Config)
        ensures
            r@ == empty_config_view(path@),
    {
        let c = Config {
            path: path.to_owned(),
            cflags: String::new(),
            defines: Vec::new(),
            deps: Vec::new(),
            build_target: None,
        };
        proof {
            assert(c.defines.deep_view() =~= Seq::<(Seq<char>, Seq<char>)>::empty());
            assert(c.deps.deep_view() =~= Seq::<Seq<char>>::empty());
        }
        c
    }

    /// Appends a custom flag for the compiler, supplementing those this
    /// library derives itself.
    pub fn cflag(&mut self, flag: &str)
        ensures
            final (self)@ == (ConfigModel {
                cflags: old(self)@.cflags + " "@ + flag@,
                ..old(self)@
            }),
    {
        self.cflags.append(" ");
        self.cflags.append(flag);
    }

    /// Appends a `-D` define for the generate step.  Name and value are
    /// opaque: no escaping or validation is performed, and duplicates are
    /// kept in insertion order (the tool lets the last one win).
    pub fn define(&mut self, k: &str, v: &str)
        ensures
            final (self)@ == (ConfigModel {
                defines: old(self)@.defines.push((k@, v@)),
                ..old(self)@
            }),
    {
        let ghost before = self.defines.deep_view();
        self.defines.push((k.to_owned(), v.to_owned()));
        proof {
            assert(self.defines.deep_view() =~= before.push((k@, v@)));
        }
    }

    /// Registers an upstream dependency whose install root, if the variable
    /// `DEP_<NAME>_ROOT` is set, is put on the dependency search path of the
    /// generate step.
    pub fn register_dep(&mut self, dep: &str)
        ensures
            final (self)@ == (ConfigModel { deps: old(self)@.deps.push(dep@), ..old(self)@ }),
    {
        let ghost before = self.deps.deep_view();
        self.deps.push(dep.to_owned());
        proof {
            assert(self.deps.deep_view() =~= before.push(dep@));
        }
    }

    /// Requests a specific target in the build step, instead of the install
    /// meta-target the plan requests by default.
    pub fn build_target(&mut self, target: &str)
        ensures
            final (self)@ == (ConfigModel { build_target: Some(target@), ..old(self)@ }),
    {
        self.build_target = Some(target.to_owned());
    }

    /// Derives the invocation plan for this configuration under the snapshot
    /// `env`: the generate-step and build-step command lines, the dependency
    /// search path, and the install directory.  Returns an error — before any
    /// command stands in a plan — when a required variable is missing or the
    /// target is MSVC-like with an unrecognized architecture, exactly as
    /// [`build_result_matches`] states.
    pub fn build(&self, env: &EnvSnapshot) -> (r: Result<BuildPlan, BuildError>)
        ensures
            build_result_matches(r, self@, env@),
    {
        let target = match lookup(&env.vars, "TARGET") {
            Some(t) => t,
            None => {
                return Err(BuildError::MissingEnvironment(String::from_str("TARGET")));
            },
        };
        let out_dir = match lookup(&env.vars, "OUT_DIR") {
            Some(o) => o,
            None => {
                return Err(BuildError::MissingEnvironment(String::from_str("OUT_DIR")));
            },
        };
        let gen_args = match generator_args(target.as_str()) {
            Some(g) => g,
            None => {
                return Err(BuildError::UnsupportedTarget(target));
            },
        };
        let profile_in = match lookup(&env.vars, "PROFILE") {
            Some(p) => p,
            None => {
                return Err(BuildError::MissingEnvironment(String::from_str("PROFILE")));
            },
        };
        let msvc = contains_sub(target.as_str(), "msvc");
        let base_cflags = match lookup(&env.vars, "CFLAGS") {
            Some(c) => c,
            None => String::new(),
        };
        let cflags = compose_cflags(base_cflags.as_str(), self.cflags.as_str(), target.as_str());
        let profile = select_profile(profile_in.as_str(), msvc);
        let paths = prefix_paths(&self.deps, env);
        let build_dir = path_join(out_dir.as_str(), "build");
        let abs_path = path_join(env.current_dir.as_str(), self.path.as_str());

        let ghost abs_v = abs_path@;
        let mut gargs: Vec<String> = Vec::new();
        gargs.push(abs_path);
        proof {
            assert(gargs.deep_view() =~= seq![abs_v]);
        }
        append_all(&mut gargs, &gen_args);
        append_define_args(&mut gargs, &self.defines);
        let mut btype = String::from_str("-DCMAKE_BUILD_TYPE=");
        btype.append(profile.as_str());
        let mut iprefix = String::from_str("-DCMAKE_INSTALL_PREFIX=");
        iprefix.append(out_dir.as_str());
        let mut cfarg = String::from_str("-DCMAKE_C_FLAGS=");
        cfarg.append(cflags.as_str());
        let ghost tail = seq![btype@, iprefix@, cfarg@];
        let ghost before_tail = gargs.deep_view();
        gargs.push(btype);
        gargs.push(iprefix);
        gargs.push(cfarg);
        proof {
            assert(gargs.deep_view() =~= before_tail + tail);
            assert(gargs.deep_view() =~= generate_args_spec(
                abs_v,
                gen_args.deep_view(),
                self.defines.deep_view(),
                profile@,
                out_dir@,
                cflags@,
            ));
        }

        let mut penv: Vec<(String, Vec<String>)> = Vec::new();
        let ghost paths_v = paths.deep_view();
        penv.push((String::from_str("CMAKE_PREFIX_PATH"), paths));
        proof {
            assert(penv.deep_view() =~= seq![("CMAKE_PREFIX_PATH"@, paths_v)]);
        }

        let tgt = match &self.build_target {
            Some(t) => t.clone(),
            None => String::from_str("install"),
        };
        let mut bargs: Vec<String> = Vec::new();
        bargs.push(String::from_str("--build"));
        bargs.push(String::from_str("."));
        bargs.push(String::from_str("--target"));
        bargs.push(tgt);
        bargs.push(String::from_str("--config"));
        bargs.push(profile);
        proof {
            assert(bargs.deep_view() =~= build_args_spec(self@.build_target, profile_spec(
                profile_in@,
                msvc_spec(target@),
            )));
        }
        let bpenv: Vec<(String, Vec<String>)> = Vec::new();
        proof {
            assert(bpenv.deep_view() =~= Seq::<(Seq<char>, Seq<Seq<char>>)>::empty());
        }

        let mut root_line = String::from_str("cargo:root=");
        root_line.append(out_dir.as_str());

        let plan = BuildPlan {
            build_dir: build_dir.clone(),
            generate: CommandSpec {
                program: String::from_str("cmake"),
                args: gargs,
                path_env: penv,
                cwd: build_dir.clone(),
            },
            build_step: CommandSpec {
                program: String::from_str("cmake"),
                args: bargs,
                path_env: bpenv,
                cwd: build_dir,
            },
            install_dir: out_dir,
            root_line: root_line,
        };
        Ok(plan)
    }
}

} // verus!
