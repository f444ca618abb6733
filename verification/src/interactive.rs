//! Interactive mode: asks, one prompt after another, for the settings that
//! the command line left open.
use vstd::prelude::*;
use crate::build_types::{build_type_named, cmake_name, unknown_type_msg, BuildType};
use crate::cli::ResolvedArgs;
use crate::ctx::{eof_msg, IoCtx};
use crate::prompts::{
    answer, ask_default, ask_one_or_two, ask_required, ask_text, ask_yesno, first_where, is_yes, non_blank,
    one_or_two,
};
use crate::text::{repeat, split_words, words};

verus! {

/// A dialog in progress: the text written so far, the input lines not read
/// yet, and the error that ended it, if one did.
pub struct Talk {
    pub text: Seq<char>,
    pub lines: Seq<String>,
    pub err: Option<Seq<char>>,
}

/// Asks for a non-empty answer until one comes (`ask_required`).
#[verifier::opaque]
pub open spec fn required_step(t: Talk, prompt: Seq<char>) -> (Talk, Option<Seq<char>>) {
    let k = first_where(t.lines, non_blank());
    let text = t.text + repeat(ask_text(prompt), k + 1);
    if k < t.lines.len() {
        (Talk { text, lines: t.lines.skip(k + 1int), err: None }, Some(answer(t.lines[k as int])))
    } else {
        (Talk { text, lines: t.lines.skip(k as int), err: Some(eof_msg()) }, None)
    }
}

/// The question of a yes/no prompt.
pub open spec fn yesno_text(prompt: Seq<char>, default: bool) -> Seq<char> {
    prompt + " (y/n) ["@ + (if default { "Y"@ } else { "N"@ }) + "]: "@
}

/// Asks a yes/no question (`ask_yesno`); on failure the default stands.
#[verifier::opaque]
pub open spec fn yesno_step(t: Talk, prompt: Seq<char>, default: bool) -> (Talk, bool) {
    let text = t.text + yesno_text(prompt, default);
    if t.lines.len() > 0 {
        let a = answer(t.lines[0]);
        (Talk { text, lines: t.lines.skip(1), err: None }, if a.len() == 0 { default } else { is_yes(a) })
    } else {
        (Talk { text, lines: t.lines, err: Some(eof_msg()) }, default)
    }
}

/// Asks for a value with a default (`ask_default`); on failure the default stands.
#[verifier::opaque]
pub open spec fn default_step(t: Talk, prompt: Seq<char>, default: Seq<char>) -> (Talk, Seq<char>) {
    let text = t.text + prompt + " ["@ + default + "]: "@;
    if t.lines.len() > 0 {
        let a = answer(t.lines[0]);
        (Talk { text, lines: t.lines.skip(1), err: None }, if a.len() == 0 { default } else { a })
    } else {
        (Talk { text, lines: t.lines, err: Some(eof_msg()) }, default)
    }
}

/// Asks until `1` or `2` is answered (`ask_one_or_two`); gives whether it was `2`.
#[verifier::opaque]
pub open spec fn pick_step(t: Talk, prompt: Seq<char>) -> (Talk, Option<bool>) {
    let k = first_where(t.lines, one_or_two());
    let text = t.text + repeat(ask_text(prompt), k + 1);
    if k < t.lines.len() {
        (Talk { text, lines: t.lines.skip(k + 1int), err: None }, Some(answer(t.lines[k as int]) == "2"@))
    } else {
        (Talk { text, lines: t.lines.skip(k as int), err: Some(eof_msg()) }, None)
    }
}

/// The settings that interactive mode can change.
pub struct Answers {
    pub repo: Option<Seq<char>>,
    pub ssh: bool,
    pub verbose: bool,
    pub timing: bool,
    pub clean: bool,
    pub mono_repo: bool,
    pub profile: Option<Seq<char>>,
    pub repos: Option<Seq<Seq<char>>>,
    pub build_type: BuildType,
    pub build_dir: Seq<char>,
    pub no_build: bool,
}

/// The settings of `a` that interactive mode can change.
pub open spec fn answers_of(a: ResolvedArgs) -> Answers {
    Answers {
        repo: match a.repo {
            Some(r) => Some(r@),
            None => None,
        },
        ssh: a.connection.ssh,
        verbose: a.diagnostic.verbose,
        timing: a.diagnostic.timing,
        clean: a.build.clean,
        mono_repo: a.mono.mono_repo,
        profile: match a.mono.profile {
            Some(p) => Some(p@),
            None => None,
        },
        repos: match a.mono.repos {
            Some(v) => Some(v@.map_values(|s: String| s@)),
            None => None,
        },
        build_type: a.build.build_type,
        build_dir: a.build.build_dir@,
        no_build: a.build.no_build,
    }
}

/// `b` agrees with `a` in every setting that interactive mode leaves alone.
pub open spec fn same_fixed(a: ResolvedArgs, b: ResolvedArgs) -> bool {
    &&& b.yes == a.yes
    &&& b.diagnostic.dry_run == a.diagnostic.dry_run
    &&& b.build.build_system == a.build.build_system
    &&& b.build.cmake_flags@ == a.build.cmake_flags@
    &&& b.build.meson_flags@ == a.build.meson_flags@
    &&& b.build.watch == a.build.watch
    &&& b.build.no_watch == a.build.no_watch
    &&& b.build.dev == a.build.dev
    &&& b.build.no_dev == a.build.no_dev
    &&& b.mono.mono_dir@ == a.mono.mono_dir@
}

/// Stage 0 of interactive mode: the repository, unless one was given. Each
/// stage runs only if no earlier prompt failed, then hands on to the next.
#[verifier::opaque]
pub open spec fn stage0(t: Talk, x: Answers) -> (Talk, Answers) {
    if t.err is Some {
        (t, x)
    } else if x.repo is None {
        let s = required_step(t, "Enter repository (user/repo or URL)"@);
        stage1(s.0, Answers { repo: s.1, ..x })
    } else {
        stage1(t, x)
    }
}

/// Stage 1: SSH.
#[verifier::opaque]
pub open spec fn stage1(t: Talk, x: Answers) -> (Talk, Answers) {
    if t.err is Some {
        (t, x)
    } else {
        let s = yesno_step(t, "Use SSH?"@, x.ssh);
        stage2(s.0, Answers { ssh: s.1, ..x })
    }
}

/// Stage 2: verbosity.
#[verifier::opaque]
pub open spec fn stage2(t: Talk, x: Answers) -> (Talk, Answers) {
    if t.err is Some {
        (t, x)
    } else {
        let s = yesno_step(t, "Verbose?"@, x.verbose);
        stage3(s.0, Answers { verbose: s.1, ..x })
    }
}

/// Stage 3: timing.
#[verifier::opaque]
pub open spec fn stage3(t: Talk, x: Answers) -> (Talk, Answers) {
    if t.err is Some {
        (t, x)
    } else {
        let s = yesno_step(t, "Show timing?"@, x.timing);
        stage4(s.0, Answers { timing: s.1, ..x })
    }
}

/// Stage 4: cleaning the build directory.
#[verifier::opaque]
pub open spec fn stage4(t: Talk, x: Answers) -> (Talk, Answers) {
    if t.err is Some {
        (t, x)
    } else {
        let s = yesno_step(t, "Clean build directory if exists?"@, x.clean);
        stage5(s.0, Answers { clean: s.1, ..x })
    }
}

/// Stage 5: single or mono-repo mode, unless mono-repo mode was chosen.
#[verifier::opaque]
pub open spec fn stage5(t: Talk, x: Answers) -> (Talk, Answers) {
    if t.err is Some {
        (t, x)
    } else if !x.mono_repo {
        let s = pick_step(t, "Select mode: (1) Single Repo (2) Mono-Repo"@);
        stage6(s.0, Answers { mono_repo: s.1 == Some(true), ..x })
    } else {
        stage6(t, x)
    }
}

/// Stage 6: a profile or a repository list, for a mono-repo that has neither.
#[verifier::opaque]
pub open spec fn stage6(t: Talk, x: Answers) -> (Talk, Answers) {
    if t.err is Some {
        (t, x)
    } else if x.mono_repo && x.profile is None && x.repos is None {
        let s = pick_step(t, "Mono-repo: (1) Use profile (2) Manual repo list"@);
        match s.1 {
            None => stage7(s.0, x),
            Some(false) => {
                let p = required_step(s.0, "Profile name"@);
                stage7(p.0, Answers { profile: p.1, ..x })
            },
            Some(true) => {
                let l = required_step(s.0, "Enter repos (space separated 'username/lib1 username/lib2')"@);
                stage7(l.0, Answers { repos: match l.1 {
                    Some(v) => Some(words(v)),
                    None => None,
                }, ..x })
            },
        }
    } else {
        stage7(t, x)
    }
}

/// Stage 7: the build type, which must be a known one.
#[verifier::opaque]
pub open spec fn stage7(t: Talk, x: Answers) -> (Talk, Answers) {
    if t.err is Some {
        (t, x)
    } else {
        let s = default_step(t, "Build type"@, cmake_name(x.build_type));
        if s.0.err is Some {
            (s.0, x)
        } else {
            match build_type_named(s.1) {
                Some(bt) => stage8(s.0, Answers { build_type: bt, ..x }),
                None => (Talk { err: Some(unknown_type_msg(s.1)), ..s.0 }, x),
            }
        }
    }
}

/// Stage 8: the build directory.
#[verifier::opaque]
pub open spec fn stage8(t: Talk, x: Answers) -> (Talk, Answers) {
    if t.err is Some {
        (t, x)
    } else {
        let s = default_step(t, "Build directory"@, x.build_dir);
        stage9(s.0, Answers { build_dir: s.1, ..x })
    }
}

/// Stage 9: configure only; then the closing line.
#[verifier::opaque]
pub open spec fn stage9(t: Talk, x: Answers) -> (Talk, Answers) {
    if t.err is Some {
        (t, x)
    } else {
        let s = yesno_step(t, "Configure only (skip build)?"@, x.no_build);
        let done = if s.0.err is None {
            Talk { text: s.0.text + "\nInteractive mode complete\n"@, ..s.0 }
        } else {
            s.0
        };
        (done, Answers { no_build: s.1, ..x })
    }
}

/// The whole dialog of interactive mode over the given input lines.
pub open spec fn interactive_dialog(a: ResolvedArgs, lines: Seq<String>) -> (Talk, Answers) {
    stage0(Talk { text: "Star Setup Interactive Mode\n"@, lines, err: None }, answers_of(a))
}

/// `io` is `start` with the dialog `t` written and read.
pub open spec fn follows(io: IoCtx, start: IoCtx, t: Talk) -> bool {
    &&& io.same_setting(&start)
    &&& io.pending() == t.lines
    &&& io.output@ == start.output@ + t.text
}

/// One yes/no prompt of the dialog.
fn yesno_stage(prompt: &str, current: bool, io: &mut IoCtx, Ghost(start): Ghost<IoCtx>, Ghost(t): Ghost<Talk>) -> (r: Result<bool, String>)
    requires
        follows(*old(io), start, t),
    ensures
        ({
            let s = yesno_step(t, prompt@, current);
            &&& follows(*final(io), start, s.0)
            &&& match r {
                Ok(v) => s.0.err is None && v == s.1,
                Err(e) => s.0.err == Some(e@) && s.1 == current,
            }
        }),
{
    proof {
        reveal(yesno_step);
    }
    let r = ask_yesno(prompt, current, io);
    assert(io.output@ =~= start.output@ + yesno_step(t, prompt@, current).0.text);
    r
}

/// One prompt for a required answer.
fn required_stage(prompt: &str, io: &mut IoCtx, Ghost(start): Ghost<IoCtx>, Ghost(t): Ghost<Talk>) -> (r: Result<String, String>)
    requires
        follows(*old(io), start, t),
    ensures
        ({
            let s = required_step(t, prompt@);
            &&& follows(*final(io), start, s.0)
            &&& match r {
                Ok(v) => s.0.err is None && s.1 == Some(v@),
                Err(e) => s.0.err == Some(e@) && s.1 is None,
            }
        }),
{
    proof {
        reveal(required_step);
    }
    let r = ask_required(prompt, io);
    assert(io.output@ =~= start.output@ + required_step(t, prompt@).0.text);
    r
}

/// One prompt for a value with a default.
fn default_stage(prompt: &str, default: &str, io: &mut IoCtx, Ghost(start): Ghost<IoCtx>, Ghost(t): Ghost<Talk>) -> (r: Result<String, String>)
    requires
        follows(*old(io), start, t),
    ensures
        ({
            let s = default_step(t, prompt@, default@);
            &&& follows(*final(io), start, s.0)
            &&& match r {
                Ok(v) => s.0.err is None && v@ == s.1,
                Err(e) => s.0.err == Some(e@) && s.1 == default@,
            }
        }),
{
    proof {
        reveal(default_step);
    }
    let r = ask_default(prompt, default, io);
    assert(io.output@ =~= start.output@ + default_step(t, prompt@, default@).0.text);
    r
}

/// One prompt for `1` or `2`.
fn pick_stage(prompt: &str, io: &mut IoCtx, Ghost(start): Ghost<IoCtx>, Ghost(t): Ghost<Talk>) -> (r: Result<bool, String>)
    requires
        follows(*old(io), start, t),
    ensures
        ({
            let s = pick_step(t, prompt@);
            &&& follows(*final(io), start, s.0)
            &&& match r {
                Ok(v) => s.0.err is None && s.1 == Some(v),
                Err(e) => s.0.err == Some(e@) && s.1 is None,
            }
        }),
{
    proof {
        reveal(pick_step);
    }
    let r = ask_one_or_two(prompt, io);
    assert(io.output@ =~= start.output@ + pick_step(t, prompt@).0.text);
    r
}

/// A dialog that has failed stays as it is through every later stage.
proof fn lemma_halted(t: Talk, x: Answers)
    requires
        t.err is Some,
    ensures
        stage1(t, x) == (t, x),
        stage2(t, x) == (t, x),
        stage3(t, x) == (t, x),
        stage4(t, x) == (t, x),
        stage5(t, x) == (t, x),
        stage6(t, x) == (t, x),
        stage7(t, x) == (t, x),
        stage8(t, x) == (t, x),
        stage9(t, x) == (t, x),
{
    reveal(stage1);
    reveal(stage2);
    reveal(stage3);
    reveal(stage4);
    reveal(stage5);
    reveal(stage6);
    reveal(stage7);
    reveal(stage8);
    reveal(stage9);
}

/// Stage 1.
fn ask_ssh(args: &mut ResolvedArgs, io: &mut IoCtx, Ghost(start): Ghost<IoCtx>, Ghost(t0): Ghost<Talk>) -> (r: (Result<(), String>, Ghost<Talk>))
    requires
        follows(*old(io), start, t0),
        t0.err is None,
    ensures
        follows(*final(io), start, r.1@),
        stage1(t0, answers_of(*old(args))) == stage2(r.1@, answers_of(*final(args))),
        r.0 is Err ==> stage2(r.1@, answers_of(*final(args))) == (r.1@, answers_of(*final(args))),
        same_fixed(*old(args), *final(args)),
        match r.0 {
            Ok(_) => r.1@.err is None,
            Err(e) => r.1@.err == Some(e@),
        },
{
    proof {
        reveal(stage1);
        reveal(stage2);
    }
    let ghost s = yesno_step(t0, "Use SSH?"@, args.connection.ssh);
    match yesno_stage("Use SSH?", args.connection.ssh, io, Ghost(start), Ghost(t0)) {
        Err(e) => (Err(e), Ghost(s.0)),
        Ok(v) => {
            args.connection.ssh = v;
            (Ok(()), Ghost(s.0))
        },
    }
}

/// Stage 2.
fn ask_verbose(args: &mut ResolvedArgs, io: &mut IoCtx, Ghost(start): Ghost<IoCtx>, Ghost(t0): Ghost<Talk>) -> (r: (Result<(), String>, Ghost<Talk>))
    requires
        follows(*old(io), start, t0),
        t0.err is None,
    ensures
        follows(*final(io), start, r.1@),
        stage2(t0, answers_of(*old(args))) == stage3(r.1@, answers_of(*final(args))),
        r.0 is Err ==> stage3(r.1@, answers_of(*final(args))) == (r.1@, answers_of(*final(args))),
        same_fixed(*old(args), *final(args)),
        match r.0 {
            Ok(_) => r.1@.err is None,
            Err(e) => r.1@.err == Some(e@),
        },
{
    proof {
        reveal(stage2);
        reveal(stage3);
    }
    let ghost s = yesno_step(t0, "Verbose?"@, args.diagnostic.verbose);
    match yesno_stage("Verbose?", args.diagnostic.verbose, io, Ghost(start), Ghost(t0)) {
        Err(e) => (Err(e), Ghost(s.0)),
        Ok(v) => {
            args.diagnostic.verbose = v;
            (Ok(()), Ghost(s.0))
        },
    }
}

/// Stage 3.
fn ask_timing(args: &mut ResolvedArgs, io: &mut IoCtx, Ghost(start): Ghost<IoCtx>, Ghost(t0): Ghost<Talk>) -> (r: (Result<(), String>, Ghost<Talk>))
    requires
        follows(*old(io), start, t0),
        t0.err is None,
    ensures
        follows(*final(io), start, r.1@),
        stage3(t0, answers_of(*old(args))) == stage4(r.1@, answers_of(*final(args))),
        r.0 is Err ==> stage4(r.1@, answers_of(*final(args))) == (r.1@, answers_of(*final(args))),
        same_fixed(*old(args), *final(args)),
        match r.0 {
            Ok(_) => r.1@.err is None,
            Err(e) => r.1@.err == Some(e@),
        },
{
    proof {
        reveal(stage3);
        reveal(stage4);
    }
    let ghost s = yesno_step(t0, "Show timing?"@, args.diagnostic.timing);
    match yesno_stage("Show timing?", args.diagnostic.timing, io, Ghost(start), Ghost(t0)) {
        Err(e) => (Err(e), Ghost(s.0)),
        Ok(v) => {
            args.diagnostic.timing = v;
            (Ok(()), Ghost(s.0))
        },
    }
}

/// Stage 4.
fn ask_clean(args: &mut ResolvedArgs, io: &mut IoCtx, Ghost(start): Ghost<IoCtx>, Ghost(t0): Ghost<Talk>) -> (r: (Result<(), String>, Ghost<Talk>))
    requires
        follows(*old(io), start, t0),
        t0.err is None,
    ensures
        follows(*final(io), start, r.1@),
        stage4(t0, answers_of(*old(args))) == stage5(r.1@, answers_of(*final(args))),
        r.0 is Err ==> stage5(r.1@, answers_of(*final(args))) == (r.1@, answers_of(*final(args))),
        same_fixed(*old(args), *final(args)),
        match r.0 {
            Ok(_) => r.1@.err is None,
            Err(e) => r.1@.err == Some(e@),
        },
{
    proof {
        reveal(stage4);
        reveal(stage5);
    }
    let ghost s = yesno_step(t0, "Clean build directory if exists?"@, args.build.clean);
    match yesno_stage("Clean build directory if exists?", args.build.clean, io, Ghost(start), Ghost(t0)) {
        Err(e) => (Err(e), Ghost(s.0)),
        Ok(v) => {
            args.build.clean = v;
            (Ok(()), Ghost(s.0))
        },
    }
}

/// Stage 5.
fn ask_mode(args: &mut ResolvedArgs, io: &mut IoCtx, Ghost(start): Ghost<IoCtx>, Ghost(t0): Ghost<Talk>) -> (r: (Result<(), String>, Ghost<Talk>))
    requires
        follows(*old(io), start, t0),
        t0.err is None,
    ensures
        follows(*final(io), start, r.1@),
        stage5(t0, answers_of(*old(args))) == stage6(r.1@, answers_of(*final(args))),
        r.0 is Err ==> stage6(r.1@, answers_of(*final(args))) == (r.1@, answers_of(*final(args))),
        same_fixed(*old(args), *final(args)),
        match r.0 {
            Ok(_) => r.1@.err is None,
            Err(e) => r.1@.err == Some(e@),
        },
{
    proof {
        reveal(stage5);
        reveal(stage6);
    }
    if args.mono.mono_repo {
        return (Ok(()), Ghost(t0));
    }
    let ghost s = pick_step(t0, "Select mode: (1) Single Repo (2) Mono-Repo"@);
    match pick_stage("Select mode: (1) Single Repo (2) Mono-Repo", io, Ghost(start), Ghost(t0)) {
        Err(e) => (Err(e), Ghost(s.0)),
        Ok(second) => {
            if second {
                args.mono.mono_repo = true;
            }
            (Ok(()), Ghost(s.0))
        },
    }
}

/// Stage 6.
fn ask_sources(args: &mut ResolvedArgs, io: &mut IoCtx, Ghost(start): Ghost<IoCtx>, Ghost(t0): Ghost<Talk>) -> (r: (Result<(), String>, Ghost<Talk>))
    requires
        follows(*old(io), start, t0),
        t0.err is None,
    ensures
        follows(*final(io), start, r.1@),
        stage6(t0, answers_of(*old(args))) == stage7(r.1@, answers_of(*final(args))),
        r.0 is Err ==> stage7(r.1@, answers_of(*final(args))) == (r.1@, answers_of(*final(args))),
        same_fixed(*old(args), *final(args)),
        match r.0 {
            Ok(_) => r.1@.err is None,
            Err(e) => r.1@.err == Some(e@),
        },
{
    proof {
        reveal(stage6);
        reveal(stage7);
    }
    if !(args.mono.mono_repo && args.mono.profile.is_none() && args.mono.repos.is_none()) {
        return (Ok(()), Ghost(t0));
    }
    let ghost s = pick_step(t0, "Mono-repo: (1) Use profile (2) Manual repo list"@);
    let second = match pick_stage("Mono-repo: (1) Use profile (2) Manual repo list", io, Ghost(start), Ghost(t0)) {
        Err(e) => {
            proof {
                lemma_halted(s.0, answers_of(*args));
            }
            return (Err(e), Ghost(s.0));
        },
        Ok(second) => second,
    };
    if !second {
        let ghost p = required_step(s.0, "Profile name"@);
        match required_stage("Profile name", io, Ghost(start), Ghost(s.0)) {
            Err(e) => (Err(e), Ghost(p.0)),
            Ok(v) => {
                args.mono.profile = Some(v);
                (Ok(()), Ghost(p.0))
            },
        }
    } else {
        let ghost l = required_step(s.0, "Enter repos (space separated 'username/lib1 username/lib2')"@);
        match required_stage("Enter repos (space separated 'username/lib1 username/lib2')", io, Ghost(start), Ghost(s.0)) {
            Err(e) => (Err(e), Ghost(l.0)),
            Ok(v) => {
                args.mono.repos = Some(split_words(v.as_str()));
                (Ok(()), Ghost(l.0))
            },
        }
    }
}

/// Stage 7.
fn ask_build_type(args: &mut ResolvedArgs, io: &mut IoCtx, Ghost(start): Ghost<IoCtx>, Ghost(t0): Ghost<Talk>) -> (r: (Result<(), String>, Ghost<Talk>))
    requires
        follows(*old(io), start, t0),
        t0.err is None,
    ensures
        follows(*final(io), start, r.1@),
        stage7(t0, answers_of(*old(args))) == stage8(r.1@, answers_of(*final(args))),
        r.0 is Err ==> stage8(r.1@, answers_of(*final(args))) == (r.1@, answers_of(*final(args))),
        same_fixed(*old(args), *final(args)),
        match r.0 {
            Ok(_) => r.1@.err is None,
            Err(e) => r.1@.err == Some(e@),
        },
{
    proof {
        reveal(stage7);
        reveal(stage8);
    }
    let ghost s = default_step(t0, "Build type"@, cmake_name(args.build.build_type));
    let v = match default_stage("Build type", args.build.build_type.to_cmake(), io, Ghost(start), Ghost(t0)) {
        Err(e) => {
            proof {
                lemma_halted(s.0, answers_of(*args));
            }
            return (Err(e), Ghost(s.0));
        },
        Ok(v) => v,
    };
    match BuildType::from_str(v.as_str()) {
        Err(e) => {
            let ghost bad = Talk { err: Some(unknown_type_msg(s.1)), ..s.0 };
            proof {
                lemma_halted(bad, answers_of(*args));
            }
            (Err(e), Ghost(bad))
        },
        Ok(bt) => {
            args.build.build_type = bt;
            (Ok(()), Ghost(s.0))
        },
    }
}

/// Stage 8.
fn ask_build_dir(args: &mut ResolvedArgs, io: &mut IoCtx, Ghost(start): Ghost<IoCtx>, Ghost(t0): Ghost<Talk>) -> (r: (Result<(), String>, Ghost<Talk>))
    requires
        follows(*old(io), start, t0),
        t0.err is None,
    ensures
        follows(*final(io), start, r.1@),
        stage8(t0, answers_of(*old(args))) == stage9(r.1@, answers_of(*final(args))),
        r.0 is Err ==> stage9(r.1@, answers_of(*final(args))) == (r.1@, answers_of(*final(args))),
        same_fixed(*old(args), *final(args)),
        match r.0 {
            Ok(_) => r.1@.err is None,
            Err(e) => r.1@.err == Some(e@),
        },
{
    proof {
        reveal(stage8);
        reveal(stage9);
    }
    let ghost s = default_step(t0, "Build directory"@, args.build.build_dir@);
    match default_stage("Build directory", args.build.build_dir.as_str(), io, Ghost(start), Ghost(t0)) {
        Err(e) => (Err(e), Ghost(s.0)),
        Ok(v) => {
            args.build.build_dir = v;
            (Ok(()), Ghost(s.0))
        },
    }
}

/// Stage 9.
fn ask_no_build(args: &mut ResolvedArgs, io: &mut IoCtx, Ghost(start): Ghost<IoCtx>, Ghost(t0): Ghost<Talk>) -> (r: (Result<(), String>, Ghost<Talk>))
    requires
        follows(*old(io), start, t0),
        t0.err is None,
    ensures
        follows(*final(io), start, r.1@),
        stage9(t0, answers_of(*old(args))) == (r.1@, answers_of(*final(args))),
        same_fixed(*old(args), *final(args)),
        match r.0 {
            Ok(_) => r.1@.err is None,
            Err(e) => r.1@.err == Some(e@),
        },
{
    proof {
        reveal(stage9);
    }
    let ghost s = yesno_step(t0, "Configure only (skip build)?"@, args.build.no_build);
    match yesno_stage("Configure only (skip build)?", args.build.no_build, io, Ghost(start), Ghost(t0)) {
        Err(e) => (Err(e), Ghost(s.0)),
        Ok(v) => {
            args.build.no_build = v;
            io.write("\nInteractive mode complete\n");
            let ghost done = Talk { text: s.0.text + "\nInteractive mode complete\n"@, ..s.0 };
            assert(io.output@ =~= start.output@ + done.text);
            (Ok(()), Ghost(done))
        },
    }
}

/// Stage 0.
fn ask_repo(args: &mut ResolvedArgs, io: &mut IoCtx, Ghost(start): Ghost<IoCtx>, Ghost(t0): Ghost<Talk>) -> (r: (Result<(), String>, Ghost<Talk>))
    requires
        follows(*old(io), start, t0),
        t0.err is None,
    ensures
        follows(*final(io), start, r.1@),
        stage0(t0, answers_of(*old(args))) == stage1(r.1@, answers_of(*final(args))),
        r.0 is Err ==> stage1(r.1@, answers_of(*final(args))) == (r.1@, answers_of(*final(args))),
        same_fixed(*old(args), *final(args)),
        match r.0 {
            Ok(_) => r.1@.err is None,
            Err(e) => r.1@.err == Some(e@),
        },
{
    proof {
        reveal(stage0);
        reveal(stage1);
    }
    if args.repo.is_some() {
        return (Ok(()), Ghost(t0));
    }
    let ghost s = required_step(t0, "Enter repository (user/repo or URL)"@);
    match required_stage("Enter repository (user/repo or URL)", io, Ghost(start), Ghost(t0)) {
        Err(e) => (Err(e), Ghost(s.0)),
        Ok(v) => {
            args.repo = Some(v);
            (Ok(()), Ghost(s.0))
        },
    }
}

/// Stages 1 to 3: SSH, verbosity, timing.
fn ask_switches(args: &mut ResolvedArgs, io: &mut IoCtx, Ghost(start): Ghost<IoCtx>, Ghost(t0): Ghost<Talk>) -> (r: (Result<(), String>, Ghost<Talk>))
    requires
        follows(*old(io), start, t0),
        t0.err is None,
    ensures
        follows(*final(io), start, r.1@),
        stage1(t0, answers_of(*old(args))) == stage4(r.1@, answers_of(*final(args))),
        r.0 is Err ==> stage4(r.1@, answers_of(*final(args))) == (r.1@, answers_of(*final(args))),
        same_fixed(*old(args), *final(args)),
        match r.0 {
            Ok(_) => r.1@.err is None,
            Err(e) => r.1@.err == Some(e@),
        },
{
    let (r1, Ghost(t1)) = ask_ssh(args, io, Ghost(start), Ghost(t0));
    if r1.is_err() {
        proof { reveal(stage3); reveal(stage4); }
        return (r1, Ghost(t1));
    }
    let (r2, Ghost(t2)) = ask_verbose(args, io, Ghost(start), Ghost(t1));
    if r2.is_err() {
        proof { reveal(stage4); }
        return (r2, Ghost(t2));
    }
    ask_timing(args, io, Ghost(start), Ghost(t2))
}

/// Stages 4 to 6: cleaning, mode, and what a mono-repo is made of.
fn ask_layout(args: &mut ResolvedArgs, io: &mut IoCtx, Ghost(start): Ghost<IoCtx>, Ghost(t0): Ghost<Talk>) -> (r: (Result<(), String>, Ghost<Talk>))
    requires
        follows(*old(io), start, t0),
        t0.err is None,
    ensures
        follows(*final(io), start, r.1@),
        stage4(t0, answers_of(*old(args))) == stage7(r.1@, answers_of(*final(args))),
        r.0 is Err ==> stage7(r.1@, answers_of(*final(args))) == (r.1@, answers_of(*final(args))),
        same_fixed(*old(args), *final(args)),
        match r.0 {
            Ok(_) => r.1@.err is None,
            Err(e) => r.1@.err == Some(e@),
        },
{
    let (r1, Ghost(t1)) = ask_clean(args, io, Ghost(start), Ghost(t0));
    if r1.is_err() {
        proof { reveal(stage6); reveal(stage7); }
        return (r1, Ghost(t1));
    }
    let (r2, Ghost(t2)) = ask_mode(args, io, Ghost(start), Ghost(t1));
    if r2.is_err() {
        proof { reveal(stage7); }
        return (r2, Ghost(t2));
    }
    ask_sources(args, io, Ghost(start), Ghost(t2))
}

/// Stages 7 to 9: build type, build directory, configure only.
fn ask_build(args: &mut ResolvedArgs, io: &mut IoCtx, Ghost(start): Ghost<IoCtx>, Ghost(t0): Ghost<Talk>) -> (r: (Result<(), String>, Ghost<Talk>))
    requires
        follows(*old(io), start, t0),
        t0.err is None,
    ensures
        follows(*final(io), start, r.1@),
        stage7(t0, answers_of(*old(args))) == (r.1@, answers_of(*final(args))),
        same_fixed(*old(args), *final(args)),
        match r.0 {
            Ok(_) => r.1@.err is None,
            Err(e) => r.1@.err == Some(e@),
        },
{
    let (r1, Ghost(t1)) = ask_build_type(args, io, Ghost(start), Ghost(t0));
    if r1.is_err() {
        proof { reveal(stage9); }
        return (r1, Ghost(t1));
    }
    let (r2, Ghost(t2)) = ask_build_dir(args, io, Ghost(start), Ghost(t1));
    if r2.is_err() {
        return (r2, Ghost(t2));
    }
    ask_no_build(args, io, Ghost(start), Ghost(t2))
}

/// Asks, in turn, for every setting that the command line left open: the
/// repository, SSH, verbosity, timing, cleaning, single or mono-repo mode,
/// the profile or repository list of a mono-repo, the build type, the build
/// directory and whether to skip the build. The first prompt that finds no
/// more input, or an unknown build type, ends the dialog with its error; the
/// settings answered before it are kept.
pub fn interactive_mode(args: &mut ResolvedArgs, io: &mut IoCtx) -> (r: Result<(), String>)
    ensures
        ({
            let d = interactive_dialog(*old(args), old(io).pending());
            &&& follows(*final(io), *old(io), d.0)
            &&& answers_of(*final(args)) == d.1
            &&& same_fixed(*old(args), *final(args))
            &&& match r {
                Ok(_) => d.0.err is None,
                Err(e) => d.0.err == Some(e@),
            }
        }),
{
    let ghost start = *io;
    io.write("Star Setup Interactive Mode\n");
    let ghost t0 = Talk { text: "Star Setup Interactive Mode\n"@, lines: old(io).pending(), err: None };
    assert(io.output@ =~= start.output@ + t0.text);
    let (r0, Ghost(t)) = ask_repo(args, io, Ghost(start), Ghost(t0));
    if let Err(e) = r0 {
        return Err(e);
    }
    let (r1, Ghost(t1)) = ask_switches(args, io, Ghost(start), Ghost(t));
    if let Err(e) = r1 {
        return Err(e);
    }
    let (r2, Ghost(t2)) = ask_layout(args, io, Ghost(start), Ghost(t1));
    if let Err(e) = r2 {
        return Err(e);
    }
    let (r3, Ghost(t3)) = ask_build(args, io, Ghost(start), Ghost(t2));
    r3
}

} // verus!
