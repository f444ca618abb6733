//! The commands that configure and build a project, as a plan of steps that
//! the caller carries out in order, stopping at the first command that fails.
use vstd::prelude::*;
use crate::build_types::{cmake_name, meson_name, BuildSystem};
use crate::cli::ResolvedArgs;
use crate::ctx::{IoCtx, RunFlags};
use crate::npm::{has_script, malformed_text, package_has_script, package_json_of, read_package_json, unreadable_text};
use crate::mono_config::{join_wrapped, push_joined};
use crate::text::to_string;

verus! {

/// One step of a plan.
pub enum Step {
    /// Write this text to the output.
    Say(String),
    /// Run a command (program and arguments) in a directory, timed under a label.
    Run { cmd: Vec<String>, cwd: Option<String>, label: String },
}

/// The model of a step.
pub enum StepView {
    Say(Seq<char>),
    Run(Seq<Seq<char>>, Option<Seq<char>>, Seq<char>),
}

/// The texts of a list of strings.
pub open spec fn texts(v: Seq<String>) -> Seq<Seq<char>> {
    v.map_values(|s: String| s@)
}

impl View for Step {
    type V = StepView;

    open spec fn view(&self) -> StepView {
        match self {
            Step::Say(s) => StepView::Say(s@),
            Step::Run { cmd, cwd, label } => StepView::Run(
                texts(cmd@),
                match cwd {
                    Some(d) => Some(d@),
                    None => None,
                },
                label@,
            ),
        }
    }
}

/// The models of a list of steps.
pub open spec fn steps_view(v: Seq<Step>) -> Seq<StepView> {
    v.map_values(|s: Step| s@)
}

/// The steps that configure and build a CMake project in `build_path`; a
/// mono-repo is configured with `BUILD_LOCAL` on.
pub open spec fn cmake_plan(args: ResolvedArgs, build_path: Seq<char>, mono: bool) -> Seq<StepView> {
    let t = cmake_name(args.build.build_type);
    let flag = "-DCMAKE_BUILD_TYPE="@ + t;
    let configure = (if mono {
        seq!["cmake"@, "-DBUILD_LOCAL=ON"@, flag, ".."@]
    } else {
        seq!["cmake"@, ".."@, flag]
    }) + texts(args.build.cmake_flags@);
    seq![StepView::Run(configure, Some(build_path), "CMake configure"@)]
        + (if args.build.no_build {
            Seq::empty()
        } else {
            seq![
                StepView::Say("Building project\n"@),
                StepView::Run(seq!["cmake"@, "--build"@, "."@, "--config"@, t], Some(build_path), "CMake build"@),
            ]
        })
}

/// The steps that set up and compile a Meson project.
pub open spec fn meson_plan(args: ResolvedArgs, build_path: Seq<char>, source_path: Seq<char>) -> Seq<StepView> {
    let setup = seq!["meson"@, "setup"@, "--buildtype="@ + meson_name(args.build.build_type), build_path, source_path]
        + texts(args.build.meson_flags@);
    seq![StepView::Run(setup, None, "Meson setup"@)]
        + (if args.build.no_build {
            Seq::empty()
        } else {
            seq![
                StepView::Say("Building project\n"@),
                StepView::Run(seq!["meson"@, "compile"@, "-C"@, build_path], None, "Meson compile"@),
            ]
        })
}

/// The steps that install and build an npm project in `source_path`; its
/// `package.json` is at `pkg_path`, with `pkg_text` its text when readable.
pub open spec fn npm_plan(args: ResolvedArgs, source_path: Seq<char>, is_mono: bool, pkg_path: Seq<char>, pkg_text: Option<Seq<char>>, flags: RunFlags) -> Seq<StepView> {
    seq![
        StepView::Say("Installing dependencies\n"@),
        StepView::Run(seq!["npm"@, "install"@], Some(source_path), "npm install"@),
    ] + (if args.build.no_build || is_mono {
        Seq::empty()
    } else {
        let warn = match pkg_text {
            None => if flags.verbose { unreadable_text(pkg_path, "skipping build"@) } else { Seq::empty() },
            Some(t) => match package_json_of(t) {
                None => if flags.verbose { malformed_text(pkg_path, "skipping build"@) } else { Seq::empty() },
                Some(_) => Seq::empty(),
            },
        };
        let has_build = match pkg_text {
            Some(t) => match package_json_of(t) {
                Some(p) => has_script(p, "build"@),
                None => false,
            },
            None => false,
        };
        seq![StepView::Say(warn)] + (if has_build {
            seq![
                StepView::Say("Building project\n"@),
                StepView::Run(seq!["npm"@, "run"@, "build"@], Some(source_path), "npm build"@),
            ]
        } else if flags.verbose {
            seq![StepView::Say("  No build script found, skipping build\n"@)]
        } else {
            Seq::empty()
        })
    })
}

fn run_step(cmd: Vec<String>, cwd: Option<&str>, label: &str) -> (r: Step)
    ensures
        r@ == StepView::Run(texts(cmd@), match cwd { Some(d) => Some(d@), None => None }, label@),
{
    Step::Run {
        cmd,
        cwd: match cwd {
            Some(d) => Some(to_string(d)),
            None => None,
        },
        label: to_string(label),
    }
}

fn append_all(v: &mut Vec<String>, extra: &Vec<String>)
    ensures
        final(v)@ == old(v)@ + extra@,
{
    let mut i: usize = 0;
    while i < extra.len()
        invariant
            i <= extra@.len(),
            v@ == old(v)@ + extra@.take(i as int),
        decreases extra@.len() - i,
    {
        v.push(extra[i].clone());
        i = i + 1;
        assert(v@ =~= old(v)@ + extra@.take(i as int));
    }
    assert(extra@.take(i as int) =~= extra@);
}

/// Plans the `CMake` configure and build of the project in `build_path`.
pub fn cmake_build(args: &ResolvedArgs, build_path: &str, mono: bool) -> (r: Vec<Step>)
    ensures
        steps_view(r@) == cmake_plan(*args, build_path@, mono),
{
    let t = args.build.build_type.to_cmake();
    let mut flag = to_string("-DCMAKE_BUILD_TYPE=");
    flag.append(t);
    let mut cmd: Vec<String> = Vec::new();
    cmd.push(to_string("cmake"));
    if mono {
        cmd.push(to_string("-DBUILD_LOCAL=ON"));
        cmd.push(flag);
        cmd.push(to_string(".."));
    } else {
        cmd.push(to_string(".."));
        cmd.push(flag);
    }
    let ghost head = texts(cmd@);
    assert(head =~= (if mono {
        seq!["cmake"@, "-DBUILD_LOCAL=ON"@, "-DCMAKE_BUILD_TYPE="@ + cmake_name(args.build.build_type), ".."@]
    } else {
        seq!["cmake"@, ".."@, "-DCMAKE_BUILD_TYPE="@ + cmake_name(args.build.build_type)]
    }));
    let ghost before = cmd@;
    append_all(&mut cmd, &args.build.cmake_flags);
    assert(texts(cmd@) =~= head + texts(args.build.cmake_flags@)) by {
        assert(cmd@ == before + args.build.cmake_flags@);
    }
    let mut steps: Vec<Step> = Vec::new();
    steps.push(run_step(cmd, Some(build_path), "CMake configure"));
    if !args.build.no_build {
        steps.push(Step::Say(to_string("Building project\n")));
        let mut b: Vec<String> = Vec::new();
        b.push(to_string("cmake"));
        b.push(to_string("--build"));
        b.push(to_string("."));
        b.push(to_string("--config"));
        b.push(to_string(t));
        assert(texts(b@) =~= seq!["cmake"@, "--build"@, "."@, "--config"@, cmake_name(args.build.build_type)]);
        steps.push(run_step(b, Some(build_path), "CMake build"));
    }
    assert(steps_view(steps@) =~= cmake_plan(*args, build_path@, mono));
    steps
}

/// Plans the Meson setup and compile of the project in `source_path`, built in `build_path`.
pub fn meson_build(args: &ResolvedArgs, build_path: &str, source_path: &str) -> (r: Vec<Step>)
    ensures
        steps_view(r@) == meson_plan(*args, build_path@, source_path@),
{
    let mut flag = to_string("--buildtype=");
    flag.append(args.build.build_type.to_meson());
    let mut cmd: Vec<String> = Vec::new();
    cmd.push(to_string("meson"));
    cmd.push(to_string("setup"));
    cmd.push(flag);
    cmd.push(to_string(build_path));
    cmd.push(to_string(source_path));
    let ghost head = texts(cmd@);
    assert(head =~= seq!["meson"@, "setup"@, "--buildtype="@ + meson_name(args.build.build_type), build_path@, source_path@]);
    let ghost before = cmd@;
    append_all(&mut cmd, &args.build.meson_flags);
    assert(texts(cmd@) =~= head + texts(args.build.meson_flags@)) by {
        assert(cmd@ == before + args.build.meson_flags@);
    }
    let mut steps: Vec<Step> = Vec::new();
    steps.push(run_step(cmd, None, "Meson setup"));
    if !args.build.no_build {
        steps.push(Step::Say(to_string("Building project\n")));
        let mut c: Vec<String> = Vec::new();
        c.push(to_string("meson"));
        c.push(to_string("compile"));
        c.push(to_string("-C"));
        c.push(to_string(build_path));
        assert(texts(c@) =~= seq!["meson"@, "compile"@, "-C"@, build_path@]);
        steps.push(run_step(c, None, "Meson compile"));
    }
    assert(steps_view(steps@) =~= meson_plan(*args, build_path@, source_path@));
    steps
}

/// Plans `npm install`, then (outside a mono-repo, unless building is
/// skipped) `npm run build` when the `package.json` has a build script.
pub fn npm_build(args: &ResolvedArgs, source_path: &str, is_mono: bool, pkg_path: &str, pkg_text: Option<&str>, flags: RunFlags) -> (r: Vec<Step>)
    ensures
        steps_view(r@) == npm_plan(*args, source_path@, is_mono, pkg_path@, match pkg_text { Some(t) => Some(t@), None => None }, flags),
{
    let mut steps: Vec<Step> = Vec::new();
    steps.push(Step::Say(to_string("Installing dependencies\n")));
    let mut install: Vec<String> = Vec::new();
    install.push(to_string("npm"));
    install.push(to_string("install"));
    assert(texts(install@) =~= seq!["npm"@, "install"@]);
    steps.push(run_step(install, Some(source_path), "npm install"));
    let ghost first = steps_view(steps@);
    assert(first =~= seq![
        StepView::Say("Installing dependencies\n"@),
        StepView::Run(seq!["npm"@, "install"@], Some(source_path@), "npm install"@),
    ]);
    if !args.build.no_build && !is_mono {
        let mut scratch = IoCtx::new(Vec::new(), flags);
        let pkg = read_package_json(pkg_path, pkg_text, "skipping build", &mut scratch, flags);
        let has_build = match &pkg {
            Some(p) => package_has_script(p, "build"),
            None => false,
        };
        let ghost text = match pkg_text { Some(t) => Some(t@), None => None };
        let ghost warn = match text {
            None => if flags.verbose { unreadable_text(pkg_path@, "skipping build"@) } else { Seq::<char>::empty() },
            Some(t) => match package_json_of(t) {
                None => if flags.verbose { malformed_text(pkg_path@, "skipping build"@) } else { Seq::<char>::empty() },
                Some(_) => Seq::<char>::empty(),
            },
        };
        let ghost expect_build = match text {
            Some(t) => match package_json_of(t) {
                Some(p) => has_script(p, "build"@),
                None => false,
            },
            None => false,
        };
        assert(scratch.output@ =~= warn);
        assert(has_build == expect_build);
        steps.push(Step::Say(scratch.output));
        let ghost second = steps_view(steps@);
        assert(second =~= first + seq![StepView::Say(warn)]);
        if has_build {
            steps.push(Step::Say(to_string("Building project\n")));
            let mut b: Vec<String> = Vec::new();
            b.push(to_string("npm"));
            b.push(to_string("run"));
            b.push(to_string("build"));
            assert(texts(b@) =~= seq!["npm"@, "run"@, "build"@]);
            steps.push(run_step(b, Some(source_path), "npm build"));
            assert(steps_view(steps@) =~= second + seq![
                StepView::Say("Building project\n"@),
                StepView::Run(seq!["npm"@, "run"@, "build"@], Some(source_path@), "npm build"@),
            ]);
        } else if flags.verbose {
            steps.push(Step::Say(to_string("  No build script found, skipping build\n")));
            assert(steps_view(steps@) =~= second + seq![StepView::Say("  No build script found, skipping build\n"@)]);
        } else {
            assert(steps_view(steps@) =~= second + Seq::<StepView>::empty());
        }
    } else {
        assert(steps_view(steps@) =~= first + Seq::<StepView>::empty());
    }
    steps
}

/// Plans the build of a project with the given build system; for npm the
/// `package.json` of `source_path` is at `pkg_path`, `pkg_text` its text.
pub fn build_project(args: &ResolvedArgs, build_path: &str, source_path: &str, build_system: BuildSystem, mono: bool, pkg_path: &str, pkg_text: Option<&str>, flags: RunFlags) -> (r: Vec<Step>)
    ensures
        steps_view(r@) == match build_system {
            BuildSystem::Cmake => cmake_plan(*args, build_path@, mono),
            BuildSystem::Meson => meson_plan(*args, build_path@, source_path@),
            BuildSystem::Npm => npm_plan(*args, source_path@, mono, pkg_path@, match pkg_text { Some(t) => Some(t@), None => None }, flags),
        },
{
    match build_system {
        BuildSystem::Cmake => cmake_build(args, build_path, mono),
        BuildSystem::Meson => meson_build(args, build_path, source_path),
        BuildSystem::Npm => npm_build(args, source_path, mono, pkg_path, pkg_text, flags),
    }
}

/// Runs commands, or stands in for running them.
pub trait Runner {
    /// Runs a command (program and arguments), in `cwd` when given.
    fn run(&mut self, cmd: &Vec<String>, cwd: Option<&str>, io: &mut IoCtx) -> Result<(), String>;

    /// Runs a command and gives what it printed.
    fn run_capture(&mut self, cmd: &Vec<String>, cwd: Option<&str>) -> Result<String, String>;
}

/// What a dry run shows in place of running `cmd` in `cwd`.
pub open spec fn dry_run_text(cmd: Seq<Seq<char>>, cwd: Option<Seq<char>>) -> Seq<char> {
    "Would run: "@ + join_wrapped(cmd, Seq::empty(), Seq::empty(), " "@) + "\n"@
        + match cwd {
            Some(d) => "  in directory: "@ + d + "\n"@,
            None => Seq::empty(),
        }
}

/// A runner that shows the commands instead of running them.
pub struct DryRunRunner;

impl Runner for DryRunRunner {
    fn run(&mut self, cmd: &Vec<String>, cwd: Option<&str>, io: &mut IoCtx) -> (r: Result<(), String>)
        ensures
            r is Ok,
            final(io).wrote(old(io), dry_run_text(texts(cmd@), match cwd { Some(d) => Some(d@), None => None })),
    {
        io.write("Would run: ");
        let mut line = String::new();
        push_joined(&mut line, cmd, "", "", " ");
        io.write_string(&line);
        io.write("\n");
        match cwd {
            Some(d) => {
                io.write("  in directory: ");
                io.write(d);
                io.write("\n");
            },
            None => {},
        }
        proof {
            reveal_strlit("");
            assert(""@ =~= Seq::<char>::empty());
        }
        assert(io.output@ =~= old(io).output@ + dry_run_text(texts(cmd@), match cwd { Some(d) => Some(d@), None => None }));
        Ok(())
    }

    fn run_capture(&mut self, cmd: &Vec<String>, cwd: Option<&str>) -> (r: Result<String, String>)
        ensures
            r matches Ok(s) && s@.len() == 0,
    {
        Ok(String::new())
    }
}


/// The CMake plan uses the requested build type: the configure command
/// passes `-DCMAKE_BUILD_TYPE=` with the type's CMake name, and the build
/// command, when there is one, builds that configuration with `--config`.
pub proof fn cmake_plan_uses_build_type(args: ResolvedArgs, build_path: Seq<char>, mono: bool)
    ensures
        cmake_plan(args, build_path, mono).len() > 0,
        cmake_plan(args, build_path, mono)[0] matches StepView::Run(cmd, dir, _)
            && dir == Some(build_path)
            && cmd[0] == "cmake"@
            && cmd.contains("-DCMAKE_BUILD_TYPE="@ + cmake_name(args.build.build_type)),
        !args.build.no_build ==> {
            &&& cmake_plan(args, build_path, mono).len() == 3
            &&& cmake_plan(args, build_path, mono)[2] matches StepView::Run(cmd, dir, _)
                && dir == Some(build_path)
                && cmd == seq!["cmake"@, "--build"@, "."@, "--config"@, cmake_name(args.build.build_type)]
        },
        args.build.no_build ==> cmake_plan(args, build_path, mono).len() == 1,
{
    let p = cmake_plan(args, build_path, mono);
    let flag = "-DCMAKE_BUILD_TYPE="@ + cmake_name(args.build.build_type);
    match p[0] {
        StepView::Run(cmd, _, _) => {
            if mono {
                assert(cmd[2] == flag);
            } else {
                assert(cmd[2] == flag);
            }
            assert(cmd.contains(flag));
        },
        _ => {},
    }
}


/// The Meson plan uses the requested build type: the setup command passes
/// `--buildtype=` with the type's Meson name, sets up `build_path` from
/// `source_path`, and ends with the extra Meson arguments.
pub proof fn meson_plan_uses_build_type(args: ResolvedArgs, build_path: Seq<char>, source_path: Seq<char>)
    ensures
        meson_plan(args, build_path, source_path)[0] matches StepView::Run(cmd, _, _)
            && cmd.take(5) == seq!["meson"@, "setup"@, "--buildtype="@ + meson_name(args.build.build_type), build_path, source_path]
            && cmd.skip(5) == texts(args.build.meson_flags@),
{
    match meson_plan(args, build_path, source_path)[0] {
        StepView::Run(cmd, _, _) => {
            assert(cmd.take(5) =~= seq!["meson"@, "setup"@, "--buildtype="@ + meson_name(args.build.build_type), build_path, source_path]);
            assert(cmd.skip(5) =~= texts(args.build.meson_flags@));
        },
        _ => {},
    }
}

} // verus!
