//! The decisions of the two setup modes, single repository and mono-repo,
//! around the work (cloning, building) that the caller carries out: what is
//! set up and announced before, and what is reported after.
use vstd::prelude::*;
use crate::build_types::BuildSystem;
use crate::cli::ResolvedArgs;
use crate::config::{Profile, SetupConfig};
use crate::ctx::{IoCtx, RunFlags};
use crate::dispatch::name_for_dir;
use crate::header::{header_text, lines_text, opt_line, print_mode_header, print_setup_complete, setup_complete_text, ModeHeader, SetupPaths};
use crate::profile::list_profiles_text;
use crate::repo::{
    build_repo_list, dedup_dirs, dir_name_of, extract_repo_input, no_repo_msg, profile_unknown_msg, repo_dir_name,
    resolve_profile, resolve_repos_for_mono, resolve_test_repo, test_repo_of,
};
use crate::scripts::pair_views;
use crate::text::{cat3, clone_opt, dec, to_string, trim_end_char};

verus! {

/// The repositories of a mono-repo.
pub struct MonoRepos {
    /// The test repository, as `username/repo`.
    pub test_repo: String,
    /// The dependencies.
    pub deps: Vec<String>,
    /// Every repository to clone: the test repository, then the dependencies,
    /// without two that share a directory name.
    pub repos: Vec<String>,
}

/// The libraries of a list of repositories: all but the first (the test
/// repository).
pub open spec fn libraries_of(repos: Seq<String>) -> Seq<String> {
    if repos.len() == 0 { repos } else { repos.drop_first() }
}

impl MonoRepos {
    /// The libraries to clone and watch: every repository but the test
    /// repository, without two that share a directory name.
    pub fn libraries(&self) -> (r: Vec<String>)
        ensures
            r@ == libraries_of(self.repos@),
    {
        let mut r: Vec<String> = Vec::new();
        if self.repos.len() == 0 {
            assert(r@ =~= self.repos@);
            return r;
        }
        let mut i: usize = 1;
        while i < self.repos.len()
            invariant
                1 <= i <= self.repos@.len(),
                r@ =~= self.repos@.subrange(1, i as int),
            decreases self.repos@.len() - i,
        {
            r.push(self.repos[i].clone());
            i = i + 1;
        }
        assert(r@ =~= self.repos@.drop_first());
        r
    }
}

/// The profile that mono-repo mode uses, when one is named and saved.
pub open spec fn chosen_profile(args: ResolvedArgs, config: SetupConfig) -> Option<Profile> {
    match args.mono.profile {
        Some(name) => if config.profile_map().dom().contains(name@) {
            Some(config.profile_map()[name@])
        } else {
            None
        },
        None => None,
    }
}

/// The dependencies of mono-repo mode: the profile's, else those on the command line.
pub open spec fn mono_deps(args: ResolvedArgs, p: Option<Profile>) -> Seq<String> {
    match p {
        Some(pr) => pr.deps@,
        None => match args.mono.repos {
            Some(v) => v@,
            None => Seq::empty(),
        },
    }
}

/// The header of mono-repo mode for the given repositories.
pub open spec fn mono_header_text(args: ResolvedArgs, m: MonoRepos, flags: RunFlags) -> Seq<char> {
    "Star Setup: "@ + (if args.mono.profile is Some { "Profile"@ } else { "Mono-repository"@ }) + "\n"@
    + opt_line("  Profile: "@, args.mono.profile)
    + (if flags.verbose {
        "  Test Repositories:\n"@ + "    "@ + m.test_repo@ + "\n"@
    } else {
        "  Test Repositories: "@ + dec(1) + "\n"@
    })
    + "  Clone Method: "@ + (if args.connection.ssh { "SSH"@ } else { "HTTPS"@ }) + "\n"@
    + "  Directory: "@ + args.mono.mono_dir@ + "\n"@
    + "  Libraries: "@ + dec(m.deps@.len()) + "\n"@
    + "  Total repositories: "@ + dec(m.repos@.len()) + "\n"@
    + "\n"@
}

/// What is announced before the mono-repo directory is created.
pub open spec fn creating_text(flags: RunFlags) -> Seq<char> {
    if flags.verbose { "Creating directory\n"@ } else { Seq::empty() }
}

/// Prints the header of mono-repo mode and announces the directory to create.
fn announce_mono(args: &ResolvedArgs, m: &MonoRepos, io: &mut IoCtx, flags: RunFlags)
    ensures
        final(io).wrote(old(io), mono_header_text(*args, *m, flags) + creating_text(flags)),
{
    let mut tests: Vec<String> = Vec::new();
    tests.push(m.test_repo.clone());
    let header = ModeHeader {
        mode: if args.mono.profile.is_some() { to_string("Profile") } else { to_string("Mono-repository") },
        test_repos: tests,
        repo_name: None,
        mono_dir: Some(args.mono.mono_dir.clone()),
        profile: clone_opt(&args.mono.profile),
        lib_count: Some(m.deps.len()),
        repo_count: Some(m.repos.len()),
        use_ssh: args.connection.ssh,
        verbose: flags.verbose,
    };
    print_mode_header(&header, io);
    if flags.verbose {
        io.write("Creating directory\n");
    }
    assert(header.test_repos@ =~= seq![m.test_repo]);
    assert(lines_text("    "@, header.test_repos@, 1) =~= "    "@ + m.test_repo@ + "\n"@) by {
        assert(lines_text("    "@, header.test_repos@, 0) =~= Seq::<char>::empty());
    }
    assert(header_text(header) =~= mono_header_text(*args, *m, flags));
    assert(io.output@ =~= old(io).output@ + (mono_header_text(*args, *m, flags) + creating_text(flags)));
}

/// Starts mono-repo mode: takes the test repository from the command line
/// (an error when none is given, or when it is not `username/repo` or a
/// GitHub URL), then finds the profile (listing the saved ones when the named
/// one is unknown) and the dependencies, prints the header, and announces
/// the directory to create.
pub fn mono_repo_start(args: &ResolvedArgs, config: &SetupConfig, io: &mut IoCtx, flags: RunFlags) -> (r: Result<MonoRepos, String>)
    ensures
        match args.repo {
            None => (r matches Err(e) && e@ == no_repo_msg()) && *final(io) == *old(io),
            Some(s) => match test_repo_of(trim_end_char(s@, '/')) {
                Err(e) => (r matches Err(m) && m@ == e) && *final(io) == *old(io),
                Ok(t) => {
                    let p = chosen_profile(*args, *config);
                    if args.mono.profile is Some && p is None {
                        &&& r matches Err(e) && e@ == profile_unknown_msg(args.mono.profile->0@)
                        &&& final(io).wrote(old(io), list_profiles_text(*config))
                    } else {
                        r matches Ok(m) && {
                            &&& m.test_repo@ == t
                            &&& m.deps@ == mono_deps(*args, p)
                            &&& m.repos@ == dedup_dirs(seq![m.test_repo] + m.deps@)
                            &&& final(io).wrote(old(io), mono_header_text(*args, m, flags) + creating_text(flags))
                        }
                    }
                },
            },
        },
{
    let input = match extract_repo_input(args) {
        Err(e) => return Err(e),
        Ok(i) => i,
    };
    let test_repo = match resolve_test_repo(input.as_str()) {
        Err(e) => return Err(e),
        Ok(t) => t,
    };
    let profile = match resolve_profile(args, config, io) {
        Err(e) => return Err(e),
        Ok(p) => p,
    };
    let deps = resolve_repos_for_mono(args, profile);
    let mut firsts: Vec<String> = Vec::new();
    firsts.push(test_repo.clone());
    let repos = build_repo_list(&firsts, &deps);
    assert(firsts@ =~= seq![test_repo]);
    let m = MonoRepos { test_repo, deps, repos };
    announce_mono(args, &m, io, flags);
    Ok(m)
}

/// The names of the executables that the test repositories build: for each
/// test repository whose directory a hoisted project name maps to, that
/// name with `suffix`, by repository directory.
pub open spec fn exe_names(t: Seq<(Seq<char>, Seq<char>)>, test_repos: Seq<String>, suffix: Seq<char>) -> Seq<(Seq<char>, Seq<char>)>
    decreases test_repos.len(),
{
    if test_repos.len() == 0 {
        seq![]
    } else {
        let prev = exe_names(t, test_repos.drop_last(), suffix);
        let dir = dir_name_of(test_repos.last()@);
        if exists|i: int| 0 <= i < t.len() && #[trigger] t[i].1 == dir {
            prev.push((dir, name_for_dir(t, dir) + suffix))
        } else {
            prev
        }
    }
}

/// Whether some pair of the table maps to `dir`; and the name for it.
fn find_dir(t: &Vec<(String, String)>, dir: &str) -> (r: Option<String>)
    ensures
        match r {
            Some(n) => (exists|i: int| 0 <= i < t@.len() && #[trigger] pair_views(t@)[i].1 == dir@)
                && n@ == name_for_dir(pair_views(t@), dir@),
            None => !exists|i: int| 0 <= i < t@.len() && #[trigger] pair_views(t@)[i].1 == dir@,
        },
{
    let ghost tv = pair_views(t@);
    let ds = to_string(dir);
    let mut i: usize = 0;
    assert(tv.skip(0) =~= tv);
    while i < t.len()
        invariant
            i <= t@.len(),
            tv == pair_views(t@),
            ds@ == dir@,
            name_for_dir(tv, dir@) == name_for_dir(tv.skip(i as int), dir@),
            forall|j: int| 0 <= j < i ==> tv[j].1 != dir@,
        decreases t@.len() - i,
    {
        assert(tv.skip(i as int).drop_first() =~= tv.skip(i + 1));
        if t[i].1 == ds {
            assert(tv[i as int].1 == dir@);
            return Some(t[i].0.clone());
        }
        i = i + 1;
    }
    None
}

/// The executables that the test repositories of a Meson mono-repo build,
/// by repository directory: for each test repository whose directory a
/// hoisted project name maps to, that name with `suffix` (`.exe` on Windows).
pub fn setup_exe_names(table: &Vec<(String, String)>, test_repos: &Vec<String>, suffix: &str) -> (r: Vec<(String, String)>)
    ensures
        pair_views(r@) == exe_names(pair_views(table@), test_repos@, suffix@),
{
    let mut r: Vec<(String, String)> = Vec::new();
    let mut i: usize = 0;
    assert(test_repos@.take(0) =~= Seq::<String>::empty());
    while i < test_repos.len()
        invariant
            i <= test_repos@.len(),
            pair_views(r@) == exe_names(pair_views(table@), test_repos@.take(i as int), suffix@),
        decreases test_repos@.len() - i,
    {
        assert(test_repos@.take(i + 1).drop_last() =~= test_repos@.take(i as int));
        let dir = repo_dir_name(test_repos[i].as_str());
        let ghost prev = r@;
        match find_dir(table, dir.as_str()) {
            Some(n) => {
                let exe = cat3(n.as_str(), suffix, "");
                proof {
                    reveal_strlit("");
                }
                assert(exe@ =~= n@ + suffix@);
                r.push((dir, exe));
                assert(pair_views(r@) =~= pair_views(prev).push((dir_name_of(test_repos@[i as int]@), n@ + suffix@)));
            },
            None => {},
        }
        i = i + 1;
    }
    assert(test_repos@.take(i as int) =~= test_repos@);
    r
}

/// The paths that the end of a mono-repo setup shows. In dry-run mode, or
/// without a table of hoisted names, there are no executables, and the build
/// directory is shown unless the project uses npm; with a table, the
/// executables are shown and the build directory is not.
pub fn setup_paths(dry_run: bool, has_table: bool, build_system: Option<BuildSystem>, mono_disp: String, build_disp: String, exes: Vec<(String, String)>) -> (r: SetupPaths)
    ensures
        r.mono_repo_disp == mono_disp,
        !dry_run && has_table ==> r.exe_paths@ == exes@ && r.build_disp is None,
        dry_run || !has_table ==> {
            &&& r.exe_paths@.len() == 0
            &&& r.build_disp == (if build_system == Some(BuildSystem::Npm) { None } else { Some(build_disp) })
        },
{
    let npm = match build_system {
        Some(BuildSystem::Npm) => true,
        _ => false,
    };
    if !dry_run && has_table {
        SetupPaths { mono_repo_disp: mono_disp, exe_paths: exes, build_disp: None }
    } else {
        SetupPaths {
            mono_repo_disp: mono_disp,
            exe_paths: Vec::new(),
            build_disp: if npm { None } else { Some(build_disp) },
        }
    }
}

/// What ends a mono-repo setup: in dry-run mode, or when no build system was
/// found, where the setup would finish; otherwise the completion summary.
pub open spec fn mono_finish_text(paths: SetupPaths, build_system: Option<BuildSystem>, total: Seq<char>, flags: RunFlags) -> Seq<char> {
    if flags.dry_run || build_system is None {
        "Would finish setup in "@ + paths.mono_repo_disp@ + "\n"@
    } else {
        setup_complete_text(paths, total, flags)
    }
}

/// Ends a mono-repo setup; `total` is the elapsed time as displayed.
pub fn mono_repo_finish(paths: &SetupPaths, build_system: Option<BuildSystem>, total: &str, io: &mut IoCtx, flags: RunFlags)
    ensures
        final(io).wrote(old(io), mono_finish_text(*paths, build_system, total@, flags)),
{
    if flags.dry_run || build_system.is_none() {
        io.write("Would finish setup in ");
        io.write_string(&paths.mono_repo_disp);
        io.write("\n");
        assert(io.output@ =~= old(io).output@ + mono_finish_text(*paths, build_system, total@, flags));
    } else {
        print_setup_complete(paths, total, io, flags);
    }
}

/// The note that `--clean` does nothing for an npm project (in verbose mode).
pub open spec fn npm_clean_text(args: ResolvedArgs, flags: RunFlags) -> Seq<char> {
    if args.build.clean && flags.verbose {
        "  --clean has no effect for npm projects\n"@
    } else {
        Seq::empty()
    }
}

/// Notes, in verbose mode, that `--clean` does nothing for an npm project.
pub fn note_npm_clean(args: &ResolvedArgs, io: &mut IoCtx, flags: RunFlags)
    ensures
        final(io).wrote(old(io), npm_clean_text(*args, flags)),
{
    if args.build.clean && flags.verbose {
        io.write("  --clean has no effect for npm projects\n");
    }
    assert(io.output@ =~= old(io).output@ + npm_clean_text(*args, flags));
}

/// The header of single-repository mode for directory `dir`.
pub open spec fn single_header_text(args: ResolvedArgs, dir: Seq<char>) -> Seq<char> {
    "Star Setup: Single Repository Mode\n"@
    + "  Repository: "@ + dir + "\n"@
    + "  Clone Method: "@ + (if args.connection.ssh { "SSH"@ } else { "HTTPS"@ }) + "\n"@
    + "\n"@
}

/// Starts single-repository mode: takes the repository from the command line
/// (without trailing `/`), prints the header with its directory name, and
/// announces the clone. Gives the repository and its directory name.
pub fn single_repo_start(args: &ResolvedArgs, io: &mut IoCtx, flags: RunFlags) -> (r: Result<(String, String), String>)
    ensures
        match args.repo {
            None => (r matches Err(e) && e@ == no_repo_msg()) && *final(io) == *old(io),
            Some(s) => r matches Ok(v) && {
                &&& v.0@ == trim_end_char(s@, '/')
                &&& v.1@ == dir_name_of(v.0@)
                &&& final(io).wrote(old(io), single_header_text(*args, v.1@) + "Cloning repository\n"@)
            },
        },
{
    let repo = match extract_repo_input(args) {
        Err(e) => return Err(e),
        Ok(r) => r,
    };
    let dir_name = repo_dir_name(repo.as_str());
    let header = ModeHeader {
        mode: to_string("Single Repository Mode"),
        test_repos: Vec::new(),
        repo_name: Some(dir_name.clone()),
        mono_dir: None,
        profile: None,
        lib_count: None,
        repo_count: None,
        use_ssh: args.connection.ssh,
        verbose: flags.verbose,
    };
    print_mode_header(&header, io);
    io.write("Cloning repository\n");
    assert(io.output@ =~= old(io).output@ + (header_text(header) + "Cloning repository\n"@));
    proof {
        reveal_strlit("Star Setup: ");
        reveal_strlit("Single Repository Mode");
        reveal_strlit("\n");
        reveal_strlit("Star Setup: Single Repository Mode\n");
    }
    assert(header_text(header) =~= single_header_text(*args, dir_name@));
    Ok((repo, dir_name))
}

/// What ends a single-repository setup: where it finished (or would, in
/// dry-run mode or when no build system was found), then the total time in
/// timing mode.
pub open spec fn single_finish_text(args: ResolvedArgs, build_system: Option<BuildSystem>, dir: Seq<char>, total: Seq<char>, flags: RunFlags) -> Seq<char> {
    (if flags.dry_run || build_system is None {
        "Would finish in "@ + dir + "\n"@
    } else if build_system == Some(BuildSystem::Npm) {
        "Project finished in "@ + dir + "\n"@
    } else {
        "Project finished in "@ + dir + "/"@ + args.build.build_dir@ + "\n"@
    }) + (if flags.timing { "[timing] Total: "@ + total + "\n"@ } else { Seq::empty() })
}

/// Ends a single-repository setup; `total` is the elapsed time as displayed.
pub fn single_repo_finish(args: &ResolvedArgs, build_system: Option<BuildSystem>, dir_name: &str, total: &str, io: &mut IoCtx, flags: RunFlags)
    ensures
        final(io).wrote(old(io), single_finish_text(*args, build_system, dir_name@, total@, flags)),
{
    let npm = match build_system {
        Some(BuildSystem::Npm) => true,
        _ => false,
    };
    if flags.dry_run || build_system.is_none() {
        io.write("Would finish in ");
        io.write(dir_name);
        io.write("\n");
    } else if npm {
        io.write("Project finished in ");
        io.write(dir_name);
        io.write("\n");
    } else {
        io.write("Project finished in ");
        io.write(dir_name);
        io.write("/");
        io.write_string(&args.build.build_dir);
        io.write("\n");
    }
    if flags.timing {
        io.write("[timing] Total: ");
        io.write(total);
        io.write("\n");
    }
    assert(io.output@ =~= old(io).output@ + single_finish_text(*args, build_system, dir_name@, total@, flags));
}

/// What cloning the repositories of a mono-repo reports: a title, a line
/// before each of the first `k` clones, and, once all are cloned, their number.
pub open spec fn cloning_text(repos: Seq<String>, k: nat, done: bool) -> Seq<char> {
    "Cloning repositories\n"@ + cloning_lines(repos, k)
        + (if done { "  Finished cloning ("@ + dec(repos.len()) + " repositories)\n\n"@ } else { Seq::empty() })
}

/// The lines announcing the first `k` clones.
pub open spec fn cloning_lines(repos: Seq<String>, k: nat) -> Seq<char>
    decreases k,
{
    if k == 0 || k > repos.len() {
        seq![]
    } else {
        cloning_lines(repos, (k - 1) as nat) + "  Cloning "@ + dir_name_of(repos[k - 1]@) + "\n"@
    }
}

/// What `clone` may be handed: any repository.
pub open spec fn clones_any<F: Fn(&str) -> Result<(), String>>(clone: F) -> bool {
    forall|r: &str| #[trigger] clone.requires((r,))
}

/// `clone` was handed repository `repo` and gave `r`.
pub open spec fn cloned<F: Fn(&str) -> Result<(), String>>(clone: F, repo: Seq<char>, r: Result<(), String>) -> bool {
    exists|s: &str| s@ == repo && #[trigger] clone.ensures((s,), r)
}

/// Clones every repository of a mono-repo through `clone`, in order,
/// announcing each; stops at the first failure, whose error is returned.
pub fn clone_mono_repos<F: Fn(&str) -> Result<(), String>>(repos: &Vec<String>, io: &mut IoCtx, clone: F) -> (r: Result<(), String>)
    requires
        clones_any(clone),
    ensures
        match r {
            Ok(_) => {
                &&& forall|i: int| 0 <= i < repos@.len() ==> #[trigger] cloned(clone, repos@[i]@, Ok(()))
                &&& final(io).wrote(old(io), cloning_text(repos@, repos@.len(), true))
            },
            Err(e) => exists|k: int| #![trigger repos@[k]] {
                &&& 0 <= k < repos@.len()
                &&& forall|i: int| 0 <= i < k ==> #[trigger] cloned(clone, repos@[i]@, Ok(()))
                &&& cloned(clone, repos@[k]@, Err(e))
                &&& final(io).wrote(old(io), cloning_text(repos@, (k + 1) as nat, false))
            },
        },
{
    io.write("Cloning repositories\n");
    let mut i: usize = 0;
    assert(io.output@ =~= old(io).output@ + ("Cloning repositories\n"@ + cloning_lines(repos@, 0)));
    while i < repos.len()
        invariant
            i <= repos@.len(),
            clones_any(clone),
            forall|j: int| 0 <= j < i ==> #[trigger] cloned(clone, repos@[j]@, Ok(())),
            io.wrote(old(io), "Cloning repositories\n"@ + cloning_lines(repos@, i as nat)),
        decreases repos@.len() - i,
    {
        io.write("  Cloning ");
        let dir = repo_dir_name(repos[i].as_str());
        io.write_string(&dir);
        io.write("\n");
        assert(io.output@ =~= old(io).output@ + ("Cloning repositories\n"@ + cloning_lines(repos@, (i + 1) as nat)));
        let c = clone(repos[i].as_str());
        assert(cloned(clone, repos@[i as int]@, c));
        match &c {
            Err(e) => {
                let e2 = e.clone();
                assert(c == Err::<(), String>(e2));
                assert(io.output@ =~= old(io).output@ + cloning_text(repos@, (i + 1) as nat, false));
                return Err(e2);
            },
            Ok(u) => {
                assert(c == Ok::<(), String>(()));
            },
        }
        i = i + 1;
    }
    io.write("  Finished cloning (");
    let mut n = String::new();
    crate::text::push_usize(&mut n, repos.len());
    io.write_string(&n);
    io.write(" repositories)\n\n");
    assert(io.output@ =~= old(io).output@ + cloning_text(repos@, i as nat, true));
    Ok(())
}

/// What cleaning the build directory reports when it succeeds.
pub open spec fn cleaning_text(clean: bool, flags: RunFlags) -> Seq<char> {
    if clean {
        "Cleaning build directory\n"@ + (if flags.verbose { "  Finished cleaning\n\n"@ } else { Seq::empty() })
    } else {
        Seq::empty()
    }
}

/// What preparing the build directory reports when every step succeeds.
pub open spec fn prepare_text(clean: bool, flags: RunFlags) -> Seq<char> {
    cleaning_text(clean, flags) + "Creating build directory\n"@ + (if flags.verbose { "  Finished creating\n\n"@ } else { Seq::empty() })
}

/// Prepares the build directory: removes it first through `remove` when
/// `clean` is set, then creates it through `create`; in dry-run mode neither
/// is called. Stops at the first failure, whose error is returned.
pub fn prepare_build_dir<D: FnOnce() -> Result<(), String>, C: FnOnce() -> Result<(), String>>(
    clean: bool,
    io: &mut IoCtx,
    flags: RunFlags,
    remove: D,
    create: C,
) -> (r: Result<(), String>)
    requires
        remove.requires(()),
        create.requires(()),
    ensures
        flags.dry_run ==> r is Ok && final(io).wrote(old(io), prepare_text(clean, flags)),
        !flags.dry_run ==> match r {
            Ok(_) => {
                &&& clean ==> remove.ensures((), Ok::<(), String>(()))
                &&& create.ensures((), Ok::<(), String>(()))
                &&& final(io).wrote(old(io), prepare_text(clean, flags))
            },
            Err(e) => {
                ||| clean && remove.ensures((), Err::<(), String>(e))
                    && final(io).wrote(old(io), "Cleaning build directory\n"@)
                ||| (clean ==> remove.ensures((), Ok::<(), String>(()))) && create.ensures((), Err::<(), String>(e))
                    && final(io).wrote(old(io), cleaning_text(clean, flags) + "Creating build directory\n"@)
            },
        },
{
    if clean {
        io.write("Cleaning build directory\n");
        if !flags.dry_run {
            let res = remove();
            match &res {
                Err(e) => {
                    let e2 = e.clone();
                    assert(res == Err::<(), String>(e2));
                    return Err(e2);
                },
                Ok(u) => {
                    assert(res == Ok::<(), String>(()));
                },
            }
        }
        if flags.verbose {
            io.write("  Finished cleaning\n\n");
        }
    }
    assert(io.output@ =~= old(io).output@ + cleaning_text(clean, flags));
    io.write("Creating build directory\n");
    if !flags.dry_run {
        let res = create();
        match &res {
            Err(e) => {
                let e2 = e.clone();
                assert(res == Err::<(), String>(e2));
                assert(io.output@ =~= old(io).output@ + (cleaning_text(clean, flags) + "Creating build directory\n"@));
                return Err(e2);
            },
            Ok(u) => {
                assert(res == Ok::<(), String>(()));
            },
        }
    }
    if flags.verbose {
        io.write("  Finished creating\n\n");
    }
    assert(io.output@ =~= old(io).output@ + prepare_text(clean, flags));
    Ok(())
}

} // verus!
