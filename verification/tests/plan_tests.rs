use star_setup::build_types::{BuildSystem, BuildType};
use star_setup::cli::{ResolvedArgs, ResolvedBuildFlags, ResolvedConnectionFlags, ResolvedDiagnosticFlags, ResolvedMonoFlags};
use star_setup::ctx::{IoCtx, RunFlags};
use star_setup::plan::{build_project, cmake_build, meson_build, npm_build, DryRunRunner, Runner, Step};

fn args(no_build: bool, cmake_flags: Vec<&str>) -> ResolvedArgs {
    ResolvedArgs {
        repo: None,
        yes: false,
        connection: ResolvedConnectionFlags { ssh: false },
        diagnostic: ResolvedDiagnosticFlags { verbose: false, timing: false, dry_run: false },
        build: ResolvedBuildFlags {
            build_type: BuildType::Release,
            build_dir: "build".to_string(),
            build_system: None,
            no_build,
            clean: false,
            cmake_flags: cmake_flags.into_iter().map(String::from).collect(),
            meson_flags: vec!["-Dx=1".to_string()],
            watch: false,
            no_watch: false,
            dev: false,
            no_dev: false,
        },
        mono: ResolvedMonoFlags { mono_repo: false, mono_dir: "build-mono".to_string(), repos: None, profile: None },
    }
}

fn quiet() -> RunFlags {
    RunFlags { verbose: false, timing: false, dry_run: false }
}

fn run_of(step: &Step) -> Option<(Vec<String>, Option<String>, String)> {
    match step {
        Step::Run { cmd, cwd, label } => Some((cmd.clone(), cwd.clone(), label.clone())),
        Step::Say(_) => None,
    }
}

fn say_of(step: &Step) -> Option<String> {
    match step {
        Step::Say(s) => Some(s.clone()),
        Step::Run { .. } => None,
    }
}

fn strs(v: &[&str]) -> Vec<String> {
    v.iter().map(|s| s.to_string()).collect()
}

#[test]
fn cmake_single_repo_plan() {
    let steps = cmake_build(&args(false, vec!["-DFOO=ON"]), "/p/build", false);
    assert_eq!(steps.len(), 3);
    assert_eq!(
        run_of(&steps[0]),
        Some((strs(&["cmake", "..", "-DCMAKE_BUILD_TYPE=Release", "-DFOO=ON"]), Some("/p/build".to_string()), "CMake configure".to_string()))
    );
    assert_eq!(say_of(&steps[1]), Some("Building project\n".to_string()));
    assert_eq!(
        run_of(&steps[2]),
        Some((strs(&["cmake", "--build", ".", "--config", "Release"]), Some("/p/build".to_string()), "CMake build".to_string()))
    );
}

#[test]
fn cmake_mono_configure_only() {
    let steps = cmake_build(&args(true, vec![]), "b", true);
    assert_eq!(steps.len(), 1);
    assert_eq!(run_of(&steps[0]).unwrap().0, strs(&["cmake", "-DBUILD_LOCAL=ON", "-DCMAKE_BUILD_TYPE=Release", ".."]));
}

#[test]
fn meson_plan() {
    let steps = meson_build(&args(false, vec![]), "/m/build", "/m");
    assert_eq!(steps.len(), 3);
    assert_eq!(
        run_of(&steps[0]),
        Some((strs(&["meson", "setup", "--buildtype=release", "/m/build", "/m", "-Dx=1"]), None, "Meson setup".to_string()))
    );
    assert_eq!(run_of(&steps[2]).unwrap().0, strs(&["meson", "compile", "-C", "/m/build"]));
}

#[test]
fn npm_plan_with_build_script() {
    let pkg = r#"{"name":"app","scripts":{"build":"tsc"}}"#;
    let steps = npm_build(&args(false, vec![]), "/a", false, "/a/package.json", Some(pkg), quiet());
    assert_eq!(steps.len(), 5);
    assert_eq!(say_of(&steps[0]), Some("Installing dependencies\n".to_string()));
    assert_eq!(run_of(&steps[1]), Some((strs(&["npm", "install"]), Some("/a".to_string()), "npm install".to_string())));
    assert_eq!(say_of(&steps[2]), Some(String::new()));
    assert_eq!(run_of(&steps[4]).unwrap().0, strs(&["npm", "run", "build"]));
}

#[test]
fn npm_plan_malformed_package_verbose() {
    let verbose = RunFlags { verbose: true, timing: false, dry_run: false };
    let steps = npm_build(&args(false, vec![]), "/a", false, "/a/package.json", Some("{not json"), verbose);
    assert_eq!(steps.len(), 4);
    assert_eq!(say_of(&steps[2]), Some("  Warning: malformed /a/package.json, skipping build\n".to_string()));
    assert_eq!(say_of(&steps[3]), Some("  No build script found, skipping build\n".to_string()));
}

#[test]
fn npm_plan_in_mono_repo_installs_only() {
    let steps = npm_build(&args(false, vec![]), "/m", true, "/m/package.json", None, quiet());
    assert_eq!(steps.len(), 2);
}

#[test]
fn build_project_dispatches() {
    let steps = build_project(&args(true, vec![]), "/p/build", "/p", BuildSystem::Meson, false, "", None, quiet());
    assert_eq!(run_of(&steps[0]).unwrap().2, "Meson setup");
}

#[test]
fn dry_run_runner_shows_command() {
    let mut io = IoCtx::new(vec![], quiet());
    let mut r = DryRunRunner;
    assert!(r.run(&strs(&["git", "clone", "x"]), Some("/tmp"), &mut io).is_ok());
    assert!(r.run(&strs(&["ls"]), None, &mut io).is_ok());
    assert_eq!(io.output, "Would run: git clone x\n  in directory: /tmp\nWould run: ls\n");
    assert_eq!(r.run_capture(&strs(&["ls"]), None), Ok(String::new()));
}
