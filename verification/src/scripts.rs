//! Launcher scripts that open one terminal per command: a PowerShell script
//! and a shell script, written side by side into the mono-repo directory.
use vstd::prelude::*;
use crate::ctx::{IoCtx, RunFlags};
use crate::mono_config::{join_wrapped, push_joined, wrote_file};
use crate::npm::{get_watch_command, malformed_text, package_json_of, read_package_json, unreadable_text, watch_command_of, PackageJsonView};
use crate::repo::{dir_name_of, repo_dir_name};
use crate::text::{cat3, chars_of, dec, push_char, push_str, push_usize, repeat, to_string};

verus! {

/// The PowerShell line that opens a terminal running `cmd` in `dir`.
pub open spec fn ps1_line(dir: Seq<char>, cmd: Seq<char>) -> Seq<char> {
    "Start-Process powershell -ArgumentList '-NoExit', '-Command', 'cd \""@ + dir + "\"; "@ + cmd + "'"@
}

/// The shell line that runs `cmd` in `dir` in the background.
pub open spec fn sh_line(dir: Seq<char>, cmd: Seq<char>) -> Seq<char> {
    "cd \""@ + dir + "\" && "@ + cmd + " &"@
}

/// The texts of a list of `(directory, command)` entries.
pub open spec fn pair_views(entries: Seq<(String, String)>) -> Seq<(Seq<char>, Seq<char>)> {
    entries.map_values(|e: (String, String)| (e.0@, e.1@))
}

/// The PowerShell lines of a list of `(directory, command)` entries.
pub open spec fn ps1_lines(entries: Seq<(Seq<char>, Seq<char>)>) -> Seq<Seq<char>> {
    entries.map_values(|e: (Seq<char>, Seq<char>)| ps1_line(e.0, e.1))
}

/// The shell lines of a list of `(directory, command)` entries.
pub open spec fn sh_lines(entries: Seq<(Seq<char>, Seq<char>)>) -> Seq<Seq<char>> {
    entries.map_values(|e: (Seq<char>, Seq<char>)| sh_line(e.0, e.1))
}

/// Lines joined by line breaks.
pub open spec fn joined_lines(lines: Seq<Seq<char>>) -> Seq<char> {
    join_wrapped(lines, Seq::empty(), Seq::empty(), "\n"@)
}

/// The PowerShell script for the entries, under a comment with `header`.
pub open spec fn ps1_text(header: Seq<char>, entries: Seq<(Seq<char>, Seq<char>)>) -> Seq<char> {
    "# "@ + header + "\n"@ + joined_lines(ps1_lines(entries)) + "\n"@
}

/// The shell script for the entries, under a comment with `header`; it stops
/// the commands it started when it exits.
pub open spec fn sh_text(header: Seq<char>, entries: Seq<(Seq<char>, Seq<char>)>) -> Seq<char> {
    "#!/bin/bash\ntrap 'kill $(jobs -p)' EXIT\n# "@ + header + "\n"@ + joined_lines(sh_lines(entries)) + "\nwait\n"@
}

/// The error for a script file that could not be written.
pub open spec fn write_failed_msg(file: Seq<char>, e: Seq<char>) -> Seq<char> {
    "Failed to write "@ + file + ": "@ + e
}

/// What is reported once the scripts `name` are written into `dir`.
pub open spec fn scripts_written_text(name: Seq<char>, dir: Seq<char>, flags: RunFlags) -> Seq<char> {
    if flags.dry_run {
        if flags.verbose {
            "  Would generate "@ + name + " scripts at "@ + dir + "\n"@
        } else {
            Seq::empty()
        }
    } else {
        "  Generated "@ + name + " scripts at "@ + dir + "\n"@
    }
}

/// What `write` may be handed: any file name and content, any number of times.
pub open spec fn writes_all<W: Fn(&str, &str) -> Result<(), String>>(write: W) -> bool {
    forall|f: &str, c: &str| #[trigger] write.requires((f, c))
}

/// The outcome of writing the scripts `name`: nothing is written in dry-run
/// mode; otherwise the `.ps1` file, then the `.sh` file, stopping at the first
/// failed write, whose error is reported with the file's name.
pub open spec fn scripts_outcome<W: Fn(&str, &str) -> Result<(), String>>(
    write: W, name: Seq<char>, header: Seq<char>, dir: Seq<char>, entries: Seq<(Seq<char>, Seq<char>)>,
    flags: RunFlags, old_io: IoCtx, new_io: IoCtx, r: Result<(), String>,
) -> bool {
    let ps1 = name + ".ps1"@;
    let sh = name + ".sh"@;
    if flags.dry_run {
        r == Ok::<(), String>(()) && new_io.wrote(&old_io, scripts_written_text(name, dir, flags))
    } else {
        exists|r1: Result<(), String>| {
            &&& #[trigger] wrote_file(write, ps1, ps1_text(header, entries), r1)
            &&& match r1 {
                Err(e) => (r matches Err(m) && m@ == write_failed_msg(ps1, e@)) && new_io == old_io,
                Ok(_) => exists|r2: Result<(), String>| {
                    &&& #[trigger] wrote_file(write, sh, sh_text(header, entries), r2)
                    &&& match r2 {
                        Err(e) => (r matches Err(m) && m@ == write_failed_msg(sh, e@)) && new_io == old_io,
                        Ok(_) => r == Ok::<(), String>(()) && new_io.wrote(&old_io, scripts_written_text(name, dir, flags)),
                    }
                },
            }
        }
    }
}

/// Builds one line per entry with `line`.
fn script_lines(entries: &Vec<(String, String)>, powershell: bool) -> (r: Vec<String>)
    ensures
        r@.map_values(|s: String| s@) == (if powershell { ps1_lines(pair_views(entries@)) } else { sh_lines(pair_views(entries@)) }),
{
    let mut r: Vec<String> = Vec::new();
    let mut i: usize = 0;
    while i < entries.len()
        invariant
            i <= entries@.len(),
            r@.len() == i,
            forall|j: int| 0 <= j < i ==> #[trigger] r@[j]@ == (if powershell {
                ps1_line(entries@[j].0@, entries@[j].1@)
            } else {
                sh_line(entries@[j].0@, entries@[j].1@)
            }),
        decreases entries@.len() - i,
    {
        let mut line = String::new();
        if powershell {
            push_str(&mut line, "Start-Process powershell -ArgumentList '-NoExit', '-Command', 'cd \"");
            push_str(&mut line, entries[i].0.as_str());
            push_str(&mut line, "\"; ");
            push_str(&mut line, entries[i].1.as_str());
            push_str(&mut line, "'");
        } else {
            push_str(&mut line, "cd \"");
            push_str(&mut line, entries[i].0.as_str());
            push_str(&mut line, "\" && ");
            push_str(&mut line, entries[i].1.as_str());
            push_str(&mut line, " &");
        }
        r.push(line);
        i = i + 1;
    }
    assert(r@.map_values(|s: String| s@) =~= (if powershell { ps1_lines(pair_views(entries@)) } else { sh_lines(pair_views(entries@)) }));
    r
}

/// The two scripts for the entries: PowerShell first, then shell.
pub fn terminal_script_texts(header: &str, entries: &Vec<(String, String)>) -> (r: (String, String))
    ensures
        r.0@ == ps1_text(header@, pair_views(entries@)),
        r.1@ == sh_text(header@, pair_views(entries@)),
{
    let ps1_items = script_lines(entries, true);
    let sh_items = script_lines(entries, false);
    let mut ps1 = String::new();
    push_str(&mut ps1, "# ");
    push_str(&mut ps1, header);
    push_str(&mut ps1, "\n");
    push_joined(&mut ps1, &ps1_items, "", "", "\n");
    push_str(&mut ps1, "\n");
    let mut sh = String::new();
    push_str(&mut sh, "#!/bin/bash\ntrap 'kill $(jobs -p)' EXIT\n# ");
    push_str(&mut sh, header);
    push_str(&mut sh, "\n");
    push_joined(&mut sh, &sh_items, "", "", "\n");
    push_str(&mut sh, "\nwait\n");
    proof {
        reveal_strlit("");
        assert(""@ =~= Seq::<char>::empty());
    }
    assert(ps1@ =~= ps1_text(header@, pair_views(entries@)));
    assert(sh@ =~= sh_text(header@, pair_views(entries@)));
    (ps1, sh)
}

/// Writes `<name>.ps1` and `<name>.sh` into `mono_dir` through `write` (which
/// writes a file of `mono_dir` given its name and content), launching each
/// `(dir, cmd)` entry in its own terminal, so that the set can be reopened
/// later by running the script again; in dry-run mode writes nothing.
pub fn generate_terminal_scripts<W: Fn(&str, &str) -> Result<(), String>>(
    name: &str,
    header: &str,
    mono_dir: &str,
    entries: &Vec<(String, String)>,
    io: &mut IoCtx,
    flags: RunFlags,
    write: W,
) -> (r: Result<(), String>)
    requires
        writes_all(write),
    ensures
        scripts_outcome(write, name@, header@, mono_dir@, pair_views(entries@), flags, *old(io), *final(io), r),
{
    let (ps1, sh) = terminal_script_texts(header, entries);
    if !flags.dry_run {
        let ps1_name = cat3(name, ".ps1", "");
        let sh_name = cat3(name, ".sh", "");
        proof {
            reveal_strlit("");
        }
        assert(ps1_name@ =~= name@ + ".ps1"@);
        assert(sh_name@ =~= name@ + ".sh"@);
        let w1 = write(ps1_name.as_str(), ps1.as_str());
        assert(wrote_file(write, name@ + ".ps1"@, ps1_text(header@, pair_views(entries@)), w1));
        match w1 {
            Err(e) => {
                let mut m = to_string("Failed to write ");
                push_str(&mut m, ps1_name.as_str());
                push_str(&mut m, ": ");
                push_str(&mut m, e.as_str());
                assert(m@ =~= write_failed_msg(name@ + ".ps1"@, e@));
                return Err(m);
            },
            Ok(_) => {},
        }
        let w2 = write(sh_name.as_str(), sh.as_str());
        assert(wrote_file(write, name@ + ".sh"@, sh_text(header@, pair_views(entries@)), w2));
        match w2 {
            Err(e) => {
                let mut m = to_string("Failed to write ");
                push_str(&mut m, sh_name.as_str());
                push_str(&mut m, ": ");
                push_str(&mut m, e.as_str());
                assert(m@ =~= write_failed_msg(name@ + ".sh"@, e@));
                return Err(m);
            },
            Ok(_) => {},
        }
        io.write("  Generated ");
        io.write(name);
        io.write(" scripts at ");
        io.write(mono_dir);
        io.write("\n");
        assert(io.output@ =~= old(io).output@ + scripts_written_text(name@, mono_dir@, flags));
        return Ok(());
    }
    if flags.verbose {
        io.write("  Would generate ");
        io.write(name);
        io.write(" scripts at ");
        io.write(mono_dir);
        io.write("\n");
    }
    assert(io.output@ =~= old(io).output@ + scripts_written_text(name@, mono_dir@, flags));
    Ok(())
}

/// What the caller knows of a library when its watch command is chosen.
pub struct LibFiles {
    /// The displayed path of its `package.json`.
    pub pkg_path: String,
    /// The text of its `package.json`, when it could be read.
    pub pkg_text: Option<String>,
    /// The displayed full path of the library.
    pub full_path: String,
}

/// The `package.json` of a library, when it could be read and parsed.
pub open spec fn lib_pkg(lib: LibFiles) -> Option<PackageJsonView> {
    match lib.pkg_text {
        Some(t) => package_json_of(t@),
        None => None,
    }
}

/// The watch command of the library in `repos/<dir>`, if it has one.
pub open spec fn lib_watch(dir: Seq<char>, lib: LibFiles) -> Option<Seq<char>> {
    match lib_pkg(lib) {
        Some(p) => watch_command_of(dir, p),
        None => None,
    }
}

/// The verbose warning about the library in `repos/<dir>`, if any.
pub open spec fn lib_warning(dir: Seq<char>, lib: LibFiles, flags: RunFlags) -> Seq<char> {
    if !flags.verbose {
        Seq::empty()
    } else {
        match lib.pkg_text {
            None => unreadable_text(lib.pkg_path@, "skipping"@),
            Some(t) => match package_json_of(t@) {
                None => malformed_text(lib.pkg_path@, "skipping"@),
                Some(p) => if p.scripts is Some && watch_command_of(dir, p) is None {
                    "  Warning: "@ + dir + " has no watch or build script, skipping\n"@
                } else {
                    Seq::empty()
                },
            },
        }
    }
}

/// The `(directory, command)` entries for the first `k` libraries, each run from `mono_dir`.
pub open spec fn watch_entries(mono_dir: Seq<char>, deps: Seq<String>, libs: Seq<LibFiles>, k: nat) -> Seq<(Seq<char>, Seq<char>)>
    decreases k,
{
    if k == 0 {
        seq![]
    } else {
        let prev = watch_entries(mono_dir, deps, libs, (k - 1) as nat);
        match lib_watch(dir_name_of(deps[k - 1]@), libs[k - 1]) {
            Some(c) => prev.push((mono_dir, c)),
            None => prev,
        }
    }
}

/// The warnings about the first `k` libraries.
pub open spec fn watch_warnings(deps: Seq<String>, libs: Seq<LibFiles>, flags: RunFlags, k: nat) -> Seq<char>
    decreases k,
{
    if k == 0 {
        seq![]
    } else {
        watch_warnings(deps, libs, flags, (k - 1) as nat) + lib_warning(dir_name_of(deps[k - 1]@), libs[k - 1], flags)
    }
}

/// `s` padded with spaces to at least `width` characters, as `{:<width}` does.
pub open spec fn pad_right(s: Seq<char>, width: nat) -> Seq<char> {
    if s.len() < width {
        s + repeat(" "@, (width - s.len()) as nat)
    } else {
        s
    }
}

/// The verbose listing of the first `k` libraries with their full paths.
pub open spec fn watch_listing(deps: Seq<String>, libs: Seq<LibFiles>, k: nat) -> Seq<char>
    decreases k,
{
    if k == 0 {
        seq![]
    } else {
        watch_listing(deps, libs, (k - 1) as nat) + "  "@ + pad_right(dir_name_of(deps[k - 1]@), 24) + " -> "@ + libs[k - 1].full_path@ + "\n"@
    }
}

/// What is written after the scripts of the libraries are generated.
pub open spec fn watch_summary(deps: Seq<String>, libs: Seq<LibFiles>, flags: RunFlags) -> Seq<char> {
    if flags.verbose {
        "  Watching "@ + dec(deps.len()) + " libraries:\n"@ + watch_listing(deps, libs, deps.len())
    } else {
        Seq::empty()
    }
}

/// Appends `s` padded with spaces to `width` characters.
fn push_padded(out: &mut String, s: &str, width: usize)
    ensures
        final(out)@ == old(out)@ + pad_right(s@, width as nat),
{
    push_str(out, s);
    let n = chars_of(s).len();
    if n < width {
        let mut k: usize = 0;
        while k < width - n
            invariant
                n == s@.len(),
                n < width,
                k <= width - n,
                out@ == old(out)@ + s@ + repeat(" "@, k as nat),
            decreases width - n - k,
        {
            push_char(out, ' ');
            proof {
                reveal_strlit(" ");
            }
            k = k + 1;
            assert(out@ =~= old(out)@ + s@ + repeat(" "@, k as nat));
        }
    } else {
        assert(out@ =~= old(out)@ + pad_right(s@, width as nat));
    }
}

/// Generates the watch scripts of an npm mono-repo: for each library of
/// `deps` (whose files are described by the matching entry of `libs`) the
/// command that watches it, run from `mono_dir`; `write` writes a file of
/// `mono_dir` given its name and content. Gives `false` when there is no
/// library, and `true` once the scripts are written.
pub fn generate_watch_scripts<W: Fn(&str, &str) -> Result<(), String>>(
    mono_dir: &str,
    deps: &Vec<String>,
    libs: &Vec<LibFiles>,
    io: &mut IoCtx,
    flags: RunFlags,
    write: W,
) -> (r: Result<bool, String>)
    requires
        writes_all(write),
        libs@.len() == deps@.len(),
    ensures
        deps@.len() == 0 ==> r == Ok::<bool, String>(false) && *final(io) == *old(io),
        deps@.len() > 0 ==> exists|mid: IoCtx, end: IoCtx, rs: Result<(), String>| {
            &&& mid.wrote(old(io), watch_warnings(deps@, libs@, flags, deps@.len()))
            &&& #[trigger] scripts_outcome(write, "watch"@, "Watch all lib repositories"@, mono_dir@,
                watch_entries(mono_dir@, deps@, libs@, deps@.len()), flags, mid, end, rs)
            &&& match rs {
                Err(e) => r == Err::<bool, String>(e) && *final(io) == end,
                Ok(_) => r == Ok::<bool, String>(true) && final(io).wrote(&end, watch_summary(deps@, libs@, flags)),
            }
        },
{
    if deps.len() == 0 {
        return Ok(false);
    }
    let mut entries: Vec<(String, String)> = Vec::new();
    let mut i: usize = 0;
    assert(io.output@ =~= old(io).output@ + watch_warnings(deps@, libs@, flags, 0));
    while i < deps.len()
        invariant
            i <= deps@.len(),
            libs@.len() == deps@.len(),
            pair_views(entries@) == watch_entries(mono_dir@, deps@, libs@, i as nat),
            io.wrote(old(io), watch_warnings(deps@, libs@, flags, i as nat)),
        decreases deps@.len() - i,
    {
        let dir = repo_dir_name(deps[i].as_str());
        let text: Option<&str> = match &libs[i].pkg_text {
            Some(t) => Some(t.as_str()),
            None => None,
        };
        let ghost before = *io;
        let pkg = read_package_json(libs[i].pkg_path.as_str(), text, "skipping", io, flags);
        let cmd = get_watch_command(dir.as_str(), pkg, io, flags);
        let ghost prev = entries@;
        match cmd {
            Some(c) => {
                entries.push((to_string(mono_dir), c));
            },
            None => {},
        }
        assert(pair_views(entries@) =~= watch_entries(mono_dir@, deps@, libs@, (i + 1) as nat)) by {
            assert(pair_views(prev) =~= watch_entries(mono_dir@, deps@, libs@, i as nat));
        }
        assert(io.output@ =~= old(io).output@ + watch_warnings(deps@, libs@, flags, (i + 1) as nat));
        i = i + 1;
    }
    let ghost mid = *io;
    let rs = generate_terminal_scripts("watch", "Watch all lib repositories", mono_dir, &entries, io, flags, write);
    let ghost end = *io;
    match rs {
        Err(e) => {
            assert(scripts_outcome(write, "watch"@, "Watch all lib repositories"@, mono_dir@,
                watch_entries(mono_dir@, deps@, libs@, deps@.len()), flags, mid, end, rs));
            return Err(e);
        },
        Ok(_) => {},
    }
    if flags.verbose {
        io.write("  Watching ");
        let mut line = String::new();
        push_usize(&mut line, deps.len());
        io.write_string(&line);
        io.write(" libraries:\n");
        let mut j: usize = 0;
        assert(watch_listing(deps@, libs@, 0) =~= Seq::<char>::empty());
        assert(io.output@ =~= end.output@ + ("  Watching "@ + dec(deps@.len()) + " libraries:\n"@ + watch_listing(deps@, libs@, 0)));
        while j < deps.len()
            invariant
                j <= deps@.len(),
                libs@.len() == deps@.len(),
                io.wrote(&end, "  Watching "@ + dec(deps@.len()) + " libraries:\n"@ + watch_listing(deps@, libs@, j as nat)),
            decreases deps@.len() - j,
        {
            let dir = repo_dir_name(deps[j].as_str());
            let mut row = to_string("  ");
            push_padded(&mut row, dir.as_str(), 24);
            push_str(&mut row, " -> ");
            push_str(&mut row, libs[j].full_path.as_str());
            push_str(&mut row, "\n");
            io.write_string(&row);
            j = j + 1;
            assert(io.output@ =~= end.output@ + ("  Watching "@ + dec(deps@.len()) + " libraries:\n"@ + watch_listing(deps@, libs@, j as nat)));
        }
    }
    assert(io.output@ =~= end.output@ + watch_summary(deps@, libs@, flags));
    assert(scripts_outcome(write, "watch"@, "Watch all lib repositories"@, mono_dir@,
        watch_entries(mono_dir@, deps@, libs@, deps@.len()), flags, mid, end, rs));
    Ok(true)
}

} // verus!
