//! Carrying out a plan: the runner that a run uses (one that only shows the
//! commands in dry-run mode), timing of commands, and the steps in order.
use vstd::prelude::*;
use crate::ctx::IoCtx;
use crate::plan::{dry_run_text, steps_view, texts, DryRunRunner, Runner, Step, StepView};

verus! {

/// A console together with the runner of its commands.
pub struct RunCtx<R> {
    pub io: IoCtx,
    pub runner: R,
}

/// The runner of a run: `Dry` only shows the commands, `Real` runs them.
pub enum ChosenRunner<R> {
    Dry(DryRunRunner),
    Real(R),
}

/// The model of an optional directory.
pub open spec fn cwd_view(cwd: Option<&str>) -> Option<Seq<char>> {
    match cwd {
        Some(d) => Some(d@),
        None => None,
    }
}

impl<R: Runner> Runner for ChosenRunner<R> {
    fn run(&mut self, cmd: &Vec<String>, cwd: Option<&str>, io: &mut IoCtx) -> (r: Result<(), String>)
        ensures
            (*old(self) is Dry) == (*final(self) is Dry),
            *old(self) is Dry ==> r is Ok && final(io).wrote(old(io), dry_run_text(texts(cmd@), cwd_view(cwd))),
            *old(self) is Real ==> exists|m: &mut R, j: &mut IoCtx| {
                &&& *m == old(self)->Real_0
                &&& *j == *old(io)
                &&& #[trigger] call_ensures(R::run, (m, cmd, cwd, j), r)
                &&& *final(self) == ChosenRunner::<R>::Real(*final(m))
                &&& *final(io) == *final(j)
            },
    {
        match self {
            ChosenRunner::Dry(d) => d.run(cmd, cwd, io),
            ChosenRunner::Real(x) => {
                let run = R::run;
                run(x, cmd, cwd, io)
            },
        }
    }

    fn run_capture(&mut self, cmd: &Vec<String>, cwd: Option<&str>) -> (r: Result<String, String>)
        ensures
            *old(self) is Dry ==> (r matches Ok(s) && s@.len() == 0),
            *old(self) is Real ==> exists|m: &mut R|
                *m == old(self)->Real_0 && #[trigger] call_ensures(R::run_capture, (m, cmd, cwd), r),
    {
        match self {
            ChosenRunner::Dry(d) => d.run_capture(cmd, cwd),
            ChosenRunner::Real(x) => {
                let capture = R::run_capture;
                capture(x, cmd, cwd)
            },
        }
    }
}

/// Runs `f` on a context made of `io` and the runner that its flags call
/// for: one that only shows the commands in dry-run mode, else `actual`;
/// gives what `f` gives.
pub fn with_runner<R: Runner, F: FnOnce(&mut RunCtx<ChosenRunner<R>>) -> Result<(), String>>(
    io: IoCtx,
    actual: R,
    f: F,
) -> (r: Result<(), String>)
    requires
        forall|c: &mut RunCtx<ChosenRunner<R>>| call_requires(f, (c,)),
    ensures
        exists|c: &mut RunCtx<ChosenRunner<R>>|
            c.io == io && (c.runner is Dry <==> io.dry_run) && (!io.dry_run ==> c.runner == ChosenRunner::<R>::Real(actual))
                && #[trigger] call_ensures(f, (c,), r),
{
    let runner = if io.dry_run {
        ChosenRunner::Dry(DryRunRunner)
    } else {
        ChosenRunner::Real(actual)
    };
    let mut ctx = RunCtx { io, runner };
    f(&mut ctx)
}

/// Measures how long a command takes.
pub trait Timer {
    /// Starts measuring.
    fn start(&mut self);

    /// The time since the last start, as it is shown.
    fn elapsed(&mut self) -> String;
}

/// The line that reports how long the command of `label` took.
pub open spec fn timing_line(label: Seq<char>, elapsed: Seq<char>) -> Seq<char> {
    "  [timing] "@ + label + ": "@ + elapsed + "\n"@
}

/// `after` is `mid`, followed by a timing line for `label` when `shown`.
pub open spec fn timed(after: IoCtx, mid: IoCtx, label: Seq<char>, shown: bool) -> bool {
    if shown {
        exists|e: Seq<char>| after.wrote(&mid, #[trigger] timing_line(label, e))
    } else {
        after == mid
    }
}

/// Runs `cmd` in `cwd` with the runner of `ctx`; in timing mode, a command
/// that succeeds is followed by how long it took, under `label`.
pub fn run_timed<R: Runner, T: Timer>(
    cmd: &Vec<String>,
    cwd: Option<&str>,
    label: &str,
    ctx: &mut RunCtx<ChosenRunner<R>>,
    timer: &mut T,
) -> (r: Result<(), String>)
    ensures
        (old(ctx).runner is Dry) == (final(ctx).runner is Dry),
        old(ctx).runner is Dry && !old(ctx).io.timing ==> r is Ok && final(ctx).io.wrote(
            &old(ctx).io,
            dry_run_text(texts(cmd@), cwd_view(cwd)),
        ),
        old(ctx).runner is Dry && old(ctx).io.timing ==> r is Ok && exists|e: Seq<char>|
            final(ctx).io.wrote(&old(ctx).io, dry_run_text(texts(cmd@), cwd_view(cwd)) + #[trigger] timing_line(label@, e)),
        old(ctx).runner is Real ==> exists|m: &mut R, j: &mut IoCtx| {
            &&& *m == old(ctx).runner->Real_0
            &&& *j == old(ctx).io
            &&& #[trigger] call_ensures(R::run, (m, cmd, cwd, j), r)
            &&& final(ctx).runner == ChosenRunner::<R>::Real(*final(m))
            &&& timed(final(ctx).io, *final(j), label@, r is Ok && old(ctx).io.timing)
        },
{
    let timing = ctx.io.timing;
    if timing {
        timer.start();
    }
    let r = ctx.runner.run(cmd, cwd, &mut ctx.io);
    let ghost mid = ctx.io;
    if r.is_ok() && timing {
        let e = timer.elapsed();
        ctx.io.write("  [timing] ");
        ctx.io.write(label);
        ctx.io.write(": ");
        ctx.io.write_string(&e);
        ctx.io.write("\n");
        proof {
            if old(ctx).runner is Dry {
                assert(ctx.io.output@ =~= old(ctx).io.output@ + (dry_run_text(texts(cmd@), cwd_view(cwd)) + timing_line(label@, e@)));
            }
            assert(ctx.io.output@ =~= mid.output@ + timing_line(label@, e@));
            assert(ctx.io.wrote(&mid, timing_line(label@, e@)));
        }
    }
    r
}

/// What a dry run shows of one step.
pub open spec fn step_text(s: StepView) -> Seq<char> {
    match s {
        StepView::Say(t) => t,
        StepView::Run(cmd, cwd, _) => dry_run_text(cmd, cwd),
    }
}

/// What a dry run without timing shows of a plan: each step's text in order.
pub open spec fn plan_text(steps: Seq<StepView>) -> Seq<char>
    decreases steps.len(),
{
    if steps.len() == 0 {
        Seq::empty()
    } else {
        plan_text(steps.drop_last()) + step_text(steps.last())
    }
}

/// The model of an optional owned directory.
pub open spec fn dir_view(cwd: Option<String>) -> Option<Seq<char>> {
    match cwd {
        Some(d) => Some(d@),
        None => None,
    }
}

/// A call of the runner's `run` on `cmd`, with a directory whose text is
/// `cwd`, can give `r`.
pub open spec fn ran_with<R: Runner>(cmd: Vec<String>, cwd: Option<Seq<char>>, r: Result<(), String>) -> bool {
    exists|m: &mut R, j: &mut IoCtx, c: Option<&str>|
        cwd_view(c) == cwd && #[trigger] call_ensures(R::run, (m, &cmd, c, j), r)
}

/// A step that went through: a message, or a command whose run succeeded.
pub open spec fn step_ok<R: Runner>(s: Step) -> bool {
    match s {
        Step::Say(_) => true,
        Step::Run { cmd, cwd, label } => ran_with::<R>(cmd, dir_view(cwd), Ok(())),
    }
}

/// A step whose command's run gave the error `r`.
pub open spec fn step_failed<R: Runner>(s: Step, r: Result<(), String>) -> bool {
    match s {
        Step::Say(_) => false,
        Step::Run { cmd, cwd, label } => r is Err && ran_with::<R>(cmd, dir_view(cwd), r),
    }
}

/// Carries out `steps` in order with the runner of `ctx`, stopping at the
/// first command that fails and giving its error.
pub fn run_plan<R: Runner, T: Timer>(
    steps: &Vec<Step>,
    ctx: &mut RunCtx<ChosenRunner<R>>,
    timer: &mut T,
) -> (r: Result<(), String>)
    ensures
        (old(ctx).runner is Dry) == (final(ctx).runner is Dry),
        old(ctx).runner is Dry ==> r is Ok,
        old(ctx).runner is Dry && !old(ctx).io.timing ==> final(ctx).io.wrote(
            &old(ctx).io,
            plan_text(steps_view(steps@)),
        ),
        old(ctx).runner is Real ==> match r {
            Ok(_) => forall|i: int| 0 <= i < steps@.len() ==> #[trigger] step_ok::<R>(steps@[i]),
            Err(_) => exists|i: int| {
                &&& 0 <= i < steps@.len()
                &&& forall|k: int| 0 <= k < i ==> #[trigger] step_ok::<R>(steps@[k])
                &&& #[trigger] step_failed::<R>(steps@[i], r)
            },
        },
{
    let ghost dry = ctx.runner is Dry;
    let ghost timing = ctx.io.timing;
    let mut i: usize = 0;
    while i < steps.len()
        invariant
            i <= steps.len(),
            dry == old(ctx).runner is Dry,
            timing == old(ctx).io.timing,
            (ctx.runner is Dry) == dry,
            dry ==> ctx.io.same_setting(&old(ctx).io),
            dry && !timing ==> ctx.io.wrote(&old(ctx).io, plan_text(steps_view(steps@).take(i as int))),
            !dry ==> forall|k: int| 0 <= k < i ==> #[trigger] step_ok::<R>(steps@[k]),
        decreases steps.len() - i,
    {
        let ghost before = ctx.io;
        proof {
            assert(steps_view(steps@).take(i + 1).drop_last() =~= steps_view(steps@).take(i as int));
        }
        match &steps[i] {
            Step::Say(text) => {
                ctx.io.write_string(text);
            },
            Step::Run { cmd, cwd, label } => {
                let dir: Option<&str> = match cwd {
                    Some(d) => Some(d.as_str()),
                    None => None,
                };
                let step = run_timed(cmd, dir, label.as_str(), ctx, timer);
                proof {
                    if !dry {
                        assert(cwd_view(dir) == dir_view(*cwd));
                        assert(ran_with::<R>(*cmd, dir_view(*cwd), step));
                    }
                }
                if step.is_err() {
                    proof {
                        if !dry {
                            assert(step_failed::<R>(steps@[i as int], step));
                        }
                    }
                    return step;
                }
                proof {
                    if !dry {
                        assert(step matches Ok(u) && u == ());
                        assert(step == Ok::<(), String>(()));
                        assert(step_ok::<R>(steps@[i as int]));
                    }
                }
            },
        }
        proof {
            if dry && !timing {
                assert(ctx.io.output@ =~= old(ctx).io.output@ + plan_text(steps_view(steps@).take(i + 1)));
            }
        }
        i = i + 1;
    }
    proof {
        assert(steps_view(steps@).take(steps@.len() as int) =~= steps_view(steps@));
    }
    Ok(())
}

} // verus!
