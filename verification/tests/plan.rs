use cmake::{BuildError, Config, EnvSnapshot};

fn env_of(vars: &[(&str, &str)], ambient: &[&str]) -> EnvSnapshot {
    EnvSnapshot {
        vars: vars.iter().map(|(k, v)| (k.to_string(), v.to_string())).collect(),
        ambient_prefix: ambient.iter().map(|p| p.to_string()).collect(),
        current_dir: "/work".to_string(),
    }
}

fn linux_env() -> EnvSnapshot {
    env_of(
        &[
            ("TARGET", "x86_64-unknown-linux-gnu"),
            ("OUT_DIR", "/out"),
            ("PROFILE", "debug"),
        ],
        &[],
    )
}

#[test]
fn full_plan_on_linux() {
    let mut c = Config::new("libfoo");
    c.cflag("-foo");
    c.define("FOO", "BAR");
    let plan = c.build(&linux_env()).unwrap();
    assert_eq!(plan.build_dir, "/out/build");
    assert_eq!(plan.generate.program, "cmake");
    assert_eq!(plan.generate.cwd, "/out/build");
    assert_eq!(
        plan.generate.args,
        vec![
            "/work/libfoo",
            "-DFOO=BAR",
            "-DCMAKE_BUILD_TYPE=Debug",
            "-DCMAKE_INSTALL_PREFIX=/out",
            "-DCMAKE_C_FLAGS=  -foo -ffunction-sections -fdata-sections -m64 -fPIC",
        ]
    );
    assert_eq!(plan.generate.path_env.len(), 1);
    assert_eq!(plan.generate.path_env[0].0, "CMAKE_PREFIX_PATH");
    assert!(plan.generate.path_env[0].1.is_empty());
    assert_eq!(plan.build_step.program, "cmake");
    assert_eq!(plan.build_step.cwd, "/out/build");
    assert_eq!(
        plan.build_step.args,
        vec!["--build", ".", "--target", "install", "--config", "Debug"]
    );
    assert!(plan.build_step.path_env.is_empty());
    assert_eq!(plan.install_dir, "/out");
    assert_eq!(plan.root_line, "cargo:root=/out");
}

#[test]
fn absolute_project_path_stands_alone() {
    let c = Config::new("/abs/proj");
    let plan = c.build(&linux_env()).unwrap();
    assert_eq!(plan.generate.args[0], "/abs/proj");
}

#[test]
fn free_build_matches_blank_config() {
    let plan1 = cmake::build("libfoo", &linux_env()).unwrap();
    let plan2 = Config::new("libfoo").build(&linux_env()).unwrap();
    assert_eq!(plan1.generate.args, plan2.generate.args);
    assert_eq!(plan1.build_step.args, plan2.build_step.args);
    assert_eq!(plan1.install_dir, plan2.install_dir);
}

#[test]
fn msvc_always_release_and_no_unix_flags() {
    let c = Config::new("proj");
    let env = env_of(
        &[
            ("TARGET", "x86_64-pc-windows-msvc"),
            ("OUT_DIR", "/out"),
            ("PROFILE", "debug"),
        ],
        &[],
    );
    let plan = c.build(&env).unwrap();
    assert_eq!(
        plan.generate.args,
        vec![
            "/work/proj",
            "-G",
            "Visual Studio 12 2013 Win64",
            "-DCMAKE_BUILD_TYPE=Release",
            "-DCMAKE_INSTALL_PREFIX=/out",
            "-DCMAKE_C_FLAGS= ",
        ]
    );
    assert_eq!(
        plan.build_step.args,
        vec!["--build", ".", "--target", "install", "--config", "Release"]
    );
}

#[test]
fn msvc_32_bit_generator() {
    let c = Config::new("proj");
    let env = env_of(
        &[
            ("TARGET", "i686-pc-windows-msvc"),
            ("OUT_DIR", "/out"),
            ("PROFILE", "release"),
        ],
        &[],
    );
    let plan = c.build(&env).unwrap();
    assert_eq!(plan.generate.args[1], "-G");
    assert_eq!(plan.generate.args[2], "Visual Studio 12 2013");
}

#[test]
fn windows_gnu_forces_unix_makefiles() {
    let c = Config::new("proj");
    let env = env_of(
        &[
            ("TARGET", "x86_64-pc-windows-gnu"),
            ("OUT_DIR", "/out"),
            ("PROFILE", "debug"),
        ],
        &[],
    );
    let plan = c.build(&env).unwrap();
    assert_eq!(plan.generate.args[1], "-G");
    assert_eq!(plan.generate.args[2], "Unix Makefiles");
}

#[test]
fn unsupported_msvc_target_is_refused() {
    let c = Config::new("proj");
    let env = env_of(
        &[
            ("TARGET", "arm-pc-windows-msvc"),
            ("OUT_DIR", "/out"),
            ("PROFILE", "debug"),
        ],
        &[],
    );
    match c.build(&env) {
        Err(BuildError::UnsupportedTarget(t)) => assert_eq!(t, "arm-pc-windows-msvc"),
        _ => panic!("expected an unsupported-target error"),
    }
}

#[test]
fn missing_target_aborts_first() {
    let c = Config::new("proj");
    let env = env_of(&[("OUT_DIR", "/out"), ("PROFILE", "debug")], &[]);
    match c.build(&env) {
        Err(BuildError::MissingEnvironment(v)) => assert_eq!(v, "TARGET"),
        _ => panic!("expected a missing-environment error"),
    }
}

#[test]
fn missing_out_dir_aborts() {
    let c = Config::new("proj");
    let env = env_of(
        &[("TARGET", "x86_64-unknown-linux-gnu"), ("PROFILE", "debug")],
        &[],
    );
    match c.build(&env) {
        Err(BuildError::MissingEnvironment(v)) => assert_eq!(v, "OUT_DIR"),
        _ => panic!("expected a missing-environment error"),
    }
}

#[test]
fn missing_profile_aborts() {
    let c = Config::new("proj");
    let env = env_of(
        &[("TARGET", "x86_64-unknown-linux-gnu"), ("OUT_DIR", "/out")],
        &[],
    );
    match c.build(&env) {
        Err(BuildError::MissingEnvironment(v)) => assert_eq!(v, "PROFILE"),
        _ => panic!("expected a missing-environment error"),
    }
}

#[test]
fn defines_appear_verbatim_in_call_order() {
    let mut c = Config::new("proj");
    c.define("A", "1");
    c.define("A", "2");
    c.define("B", "x=y");
    let plan = c.build(&linux_env()).unwrap();
    assert_eq!(plan.generate.args[1], "-DA=1");
    assert_eq!(plan.generate.args[2], "-DA=2");
    assert_eq!(plan.generate.args[3], "-DB=x=y");
}

#[test]
fn registered_dep_root_precedes_ambient_paths() {
    let mut c = Config::new("proj");
    c.register_dep("FOO");
    c.register_dep("BAR");
    let env = env_of(
        &[
            ("TARGET", "x86_64-unknown-linux-gnu"),
            ("OUT_DIR", "/out"),
            ("PROFILE", "debug"),
            ("DEP_FOO_ROOT", "/x"),
        ],
        &["/amb1", "/amb2"],
    );
    let plan = c.build(&env).unwrap();
    // FOO's root first; BAR has no root variable and is skipped; ambient after.
    assert_eq!(plan.generate.path_env[0].1, vec!["/x", "/amb1", "/amb2"]);
}

#[test]
fn build_target_replaces_install() {
    let mut c = Config::new("proj");
    c.build_target("all");
    let plan = c.build(&linux_env()).unwrap();
    assert_eq!(
        plan.build_step.args,
        vec!["--build", ".", "--target", "all", "--config", "Debug"]
    );
}

#[test]
fn bench_and_release_profiles_resolve_to_release() {
    for profile in ["bench", "release"] {
        let c = Config::new("proj");
        let env = env_of(
            &[
                ("TARGET", "x86_64-unknown-linux-gnu"),
                ("OUT_DIR", "/out"),
                ("PROFILE", profile),
            ],
            &[],
        );
        let plan = c.build(&env).unwrap();
        assert_eq!(plan.generate.args[1], "-DCMAKE_BUILD_TYPE=Release");
    }
}

#[test]
fn repeated_build_derives_identical_plans() {
    let mut c = Config::new("proj");
    c.define("OPT1", "False");
    let env = linux_env();
    let plan1 = c.build(&env).unwrap();
    let plan2 = c.build(&env).unwrap();
    assert_eq!(plan1.generate.args, plan2.generate.args);
    assert_eq!(plan1.build_step.args, plan2.build_step.args);
    assert_eq!(plan1.generate.cwd, plan2.generate.cwd);
    assert_eq!(plan1.install_dir, plan2.install_dir);
    assert!(plan1.generate.args.contains(&"-DOPT1=False".to_string()));
    assert!(plan2.generate.args.contains(&"-DOPT1=False".to_string()));
}

#[test]
fn changed_environment_reaches_second_generate_step() {
    let c = Config::new("proj");
    let env1 = linux_env();
    let env2 = env_of(
        &[
            ("TARGET", "x86_64-unknown-linux-gnu"),
            ("OUT_DIR", "/out"),
            ("PROFILE", "debug"),
            ("CFLAGS", "--sysroot=/new"),
        ],
        &[],
    );
    let plan1 = c.build(&env1).unwrap();
    let plan2 = c.build(&env2).unwrap();
    // The generate step is issued both times and the second one carries the
    // changed flags: nothing of the first snapshot lingers.
    assert_eq!(plan1.generate.program, "cmake");
    assert_eq!(plan2.generate.program, "cmake");
    assert_eq!(
        plan2.generate.args[3],
        "-DCMAKE_C_FLAGS=--sysroot=/new  -ffunction-sections -fdata-sections -m64 -fPIC"
    );
    assert_ne!(plan1.generate.args, plan2.generate.args);
}

#[test]
fn ambient_cflags_come_first() {
    let mut c = Config::new("proj");
    c.cflag("-user");
    let env = env_of(
        &[
            ("TARGET", "x86_64-pc-windows-msvc"),
            ("OUT_DIR", "/out"),
            ("PROFILE", "debug"),
            ("CFLAGS", "-ambient"),
        ],
        &[],
    );
    let plan = c.build(&env).unwrap();
    assert_eq!(plan.generate.args[5], "-DCMAKE_C_FLAGS=-ambient  -user");
}
