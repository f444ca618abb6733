//! The summaries printed when a command starts and when a mono-repo setup
//! completes.
use vstd::prelude::*;
use crate::ctx::{IoCtx, RunFlags};
use crate::text::{dec, push_usize};

verus! {

/// What the header of a command mode shows.
pub struct ModeHeader {
    /// Name of the mode.
    pub mode: String,
    /// Test repositories, if any.
    pub test_repos: Vec<String>,
    /// The repository, when there are no test repositories.
    pub repo_name: Option<String>,
    /// Mono-repo directory.
    pub mono_dir: Option<String>,
    /// Profile in use.
    pub profile: Option<String>,
    /// Number of libraries.
    pub lib_count: Option<usize>,
    /// Number of repositories in all.
    pub repo_count: Option<usize>,
    /// Cloning uses SSH.
    pub use_ssh: bool,
    /// List every test repository rather than count them.
    pub verbose: bool,
}

/// One line for each of the first `k` strings, after `indent`.
pub open spec fn lines_text(indent: Seq<char>, items: Seq<String>, k: nat) -> Seq<char>
    decreases k,
{
    if k == 0 || k > items.len() {
        seq![]
    } else {
        lines_text(indent, items, (k - 1) as nat) + indent + items[k - 1]@ + "\n"@
    }
}

/// A line `label value` when the value is present.
pub open spec fn opt_line(label: Seq<char>, v: Option<String>) -> Seq<char> {
    match v {
        Some(s) => label + s@ + "\n"@,
        None => Seq::empty(),
    }
}

/// A line `label count` when the count is present.
pub open spec fn count_line(label: Seq<char>, v: Option<usize>) -> Seq<char> {
    match v {
        Some(c) => label + dec(c as nat) + "\n"@,
        None => Seq::empty(),
    }
}

/// The repositories part of a mode header.
pub open spec fn repos_part(h: ModeHeader) -> Seq<char> {
    if h.test_repos@.len() > 0 {
        if h.verbose {
            "  Test Repositories:\n"@ + lines_text("    "@, h.test_repos@, h.test_repos@.len())
        } else {
            "  Test Repositories: "@ + dec(h.test_repos@.len()) + "\n"@
        }
    } else {
        opt_line("  Repository: "@, h.repo_name)
    }
}

fn write_repos_part(header: &ModeHeader, io: &mut IoCtx)
    ensures
        final(io).wrote(old(io), repos_part(*header)),
{
    if header.test_repos.len() > 0 {
        if header.verbose {
            io.write("  Test Repositories:\n");
            write_lines(io, "    ", &header.test_repos);
        } else {
            io.write("  Test Repositories: ");
            push_usize(&mut io.output, header.test_repos.len());
            io.write("\n");
        }
        assert(io.output@ =~= old(io).output@ + repos_part(*header));
    } else {
        write_opt(io, "  Repository: ", &header.repo_name);
    }
}

/// The text of a mode header.
pub open spec fn header_text(h: ModeHeader) -> Seq<char> {
    "Star Setup: "@ + h.mode@ + "\n"@
    + opt_line("  Profile: "@, h.profile)
    + repos_part(h)
    + "  Clone Method: "@ + (if h.use_ssh { "SSH"@ } else { "HTTPS"@ }) + "\n"@
    + opt_line("  Directory: "@, h.mono_dir)
    + count_line("  Libraries: "@, h.lib_count)
    + count_line("  Total repositories: "@, h.repo_count)
    + "\n"@
}

fn write_lines(io: &mut IoCtx, indent: &str, items: &Vec<String>)
    ensures
        final(io).wrote(old(io), lines_text(indent@, items@, items@.len())),
{
    let mut i: usize = 0;
    assert(io.output@ =~= old(io).output@ + lines_text(indent@, items@, 0));
    while i < items.len()
        invariant
            i <= items@.len(),
            io.wrote(old(io), lines_text(indent@, items@, i as nat)),
        decreases items@.len() - i,
    {
        io.write(indent);
        io.write_string(&items[i]);
        io.write("\n");
        i = i + 1;
        assert(io.output@ =~= old(io).output@ + lines_text(indent@, items@, i as nat));
    }
}

fn write_opt(io: &mut IoCtx, label: &str, v: &Option<String>)
    ensures
        final(io).wrote(old(io), opt_line(label@, *v)),
{
    match v {
        Some(s) => {
            io.write(label);
            io.write_string(s);
            io.write("\n");
            assert(io.output@ =~= old(io).output@ + opt_line(label@, *v));
        },
        None => {
            assert(io.output@ =~= old(io).output@ + opt_line(label@, *v));
        },
    }
}

fn write_count(io: &mut IoCtx, label: &str, v: Option<usize>)
    ensures
        final(io).wrote(old(io), count_line(label@, v)),
{
    match v {
        Some(c) => {
            io.write(label);
            push_usize(&mut io.output, c);
            io.write("\n");
            assert(io.output@ =~= old(io).output@ + count_line(label@, v));
        },
        None => {
            assert(io.output@ =~= old(io).output@ + count_line(label@, v));
        },
    }
}

/// Prints a header summarizing the current mode and configuration.
pub fn print_mode_header(header: &ModeHeader, io: &mut IoCtx)
    ensures
        final(io).wrote(old(io), header_text(*header)),
{
    io.write("Star Setup: ");
    io.write_string(&header.mode);
    io.write("\n");
    write_opt(io, "  Profile: ", &header.profile);
    write_repos_part(header, io);
    io.write("  Clone Method: ");
    io.write(if header.use_ssh { "SSH" } else { "HTTPS" });
    io.write("\n");
    write_opt(io, "  Directory: ", &header.mono_dir);
    write_count(io, "  Libraries: ", header.lib_count);
    write_count(io, "  Total repositories: ", header.repo_count);
    io.write("\n");
    assert(io.output@ =~= old(io).output@ + header_text(*header));
}

/// Where a completed mono-repo setup put its results, as displayed paths.
pub struct SetupPaths {
    /// The mono-repo root directory.
    pub mono_repo_disp: String,
    /// The executables of the test repositories that were found, by repository.
    pub exe_paths: Vec<(String, String)>,
    /// The build output directory, when one is shown.
    pub build_disp: Option<String>,
}

/// One line for each of the first `k` executables.
pub open spec fn exe_lines(exes: Seq<(String, String)>, k: nat) -> Seq<char>
    decreases k,
{
    if k == 0 || k > exes.len() {
        seq![]
    } else {
        exe_lines(exes, (k - 1) as nat) + "  Executable ["@ + exes[k - 1].0@ + "]: "@
            + exes[k - 1].1@ + "\n"@
    }
}

/// The executables part of the setup completion summary.
pub open spec fn exes_part(p: SetupPaths, flags: RunFlags) -> Seq<char> {
    if p.exe_paths@.len() > 0 {
        if flags.verbose {
            exe_lines(p.exe_paths@, p.exe_paths@.len())
        } else {
            "  Executables: "@ + dec(p.exe_paths@.len()) + "\n"@
        }
    } else {
        Seq::empty()
    }
}

fn write_exes_part(paths: &SetupPaths, io: &mut IoCtx, flags: RunFlags)
    ensures
        final(io).wrote(old(io), exes_part(*paths, flags)),
{
    if paths.exe_paths.len() > 0 {
        if flags.verbose {
            let mut i: usize = 0;
            assert(io.output@ =~= old(io).output@ + exe_lines(paths.exe_paths@, 0));
            while i < paths.exe_paths.len()
                invariant
                    i <= paths.exe_paths@.len(),
                    io.wrote(old(io), exe_lines(paths.exe_paths@, i as nat)),
                decreases paths.exe_paths@.len() - i,
            {
                io.write("  Executable [");
                io.write_string(&paths.exe_paths[i].0);
                io.write("]: ");
                io.write_string(&paths.exe_paths[i].1);
                io.write("\n");
                i = i + 1;
                assert(io.output@ =~= old(io).output@ + exe_lines(paths.exe_paths@, i as nat));
            }
        } else {
            io.write("  Executables: ");
            push_usize(&mut io.output, paths.exe_paths.len());
            io.write("\n");
            assert(io.output@ =~= old(io).output@ + exes_part(*paths, flags));
        }
    } else {
        assert(io.output@ =~= old(io).output@ + exes_part(*paths, flags));
    }
}

/// The text of the setup completion summary; `total` is the elapsed time as displayed.
pub open spec fn setup_complete_text(p: SetupPaths, total: Seq<char>, flags: RunFlags) -> Seq<char> {
    "  Setup complete\n"@ + "  Repositories in: "@ + p.mono_repo_disp@ + "\n"@
    + exes_part(p, flags)
    + opt_line("  Build output in: "@, p.build_disp)
    + (if flags.timing { "  [timing] Total: "@ + total + "\n"@ } else { Seq::empty() })
}

/// Prints the setup completion summary; `total` is the elapsed time as displayed.
pub fn print_setup_complete(paths: &SetupPaths, total: &str, io: &mut IoCtx, flags: RunFlags)
    ensures
        final(io).wrote(old(io), setup_complete_text(*paths, total@, flags)),
{
    io.write("  Setup complete\n");
    io.write("  Repositories in: ");
    io.write_string(&paths.mono_repo_disp);
    io.write("\n");
    write_exes_part(paths, io, flags);
    write_opt(io, "  Build output in: ", &paths.build_disp);
    if flags.timing {
        io.write("  [timing] Total: ");
        io.write(total);
        io.write("\n");
    }
    assert(io.output@ =~= old(io).output@ + setup_complete_text(*paths, total@, flags));
}

} // verus!
