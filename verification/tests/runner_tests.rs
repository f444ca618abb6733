use star_setup::ctx::{IoCtx, RunFlags};
use star_setup::plan::{Runner, Step};
use star_setup::runner::{run_plan, run_timed, with_runner, ChosenRunner, RunCtx, Timer};

/// Records the commands it is given and fails on the one that starts with `fail`.
#[derive(Default)]
struct Recorder {
    ran: Vec<String>,
}

impl Runner for Recorder {
    fn run(&mut self, cmd: &Vec<String>, _cwd: Option<&str>, _io: &mut IoCtx) -> Result<(), String> {
        self.ran.push(cmd.join(" "));
        if cmd.first().map(String::as_str) == Some("fail") {
            Err(format!("Command failed: {}", cmd.join(" ")))
        } else {
            Ok(())
        }
    }

    fn run_capture(&mut self, cmd: &Vec<String>, _cwd: Option<&str>) -> Result<String, String> {
        Ok(cmd.join(" "))
    }
}

struct FixedTimer {
    started: usize,
}

impl Timer for FixedTimer {
    fn start(&mut self) {
        self.started += 1;
    }

    fn elapsed(&mut self) -> String {
        "1.50s".to_string()
    }
}

fn flags(timing: bool, dry_run: bool) -> RunFlags {
    RunFlags { verbose: false, timing, dry_run }
}

fn strs(v: &[&str]) -> Vec<String> {
    v.iter().map(|s| s.to_string()).collect()
}

fn plan() -> Vec<Step> {
    vec![
        Step::Say("Configuring\n".to_string()),
        Step::Run { cmd: strs(&["cmake", ".."]), cwd: Some("build".to_string()), label: "configure".to_string() },
        Step::Say("Building\n".to_string()),
        Step::Run { cmd: strs(&["cmake", "--build", "."]), cwd: None, label: "build".to_string() },
    ]
}

#[test]
fn dry_run_uses_the_showing_runner() {
    let mut seen_dry = None;
    let r = with_runner(IoCtx::new(vec![], flags(false, true)), Recorder::default(), |ctx| {
        seen_dry = Some(matches!(ctx.runner, ChosenRunner::Dry(_)));
        Ok(())
    });
    assert_eq!(r, Ok(()));
    assert_eq!(seen_dry, Some(true));

    let mut seen_real = None;
    let r = with_runner(IoCtx::new(vec![], flags(false, false)), Recorder::default(), |ctx| {
        seen_real = Some(matches!(ctx.runner, ChosenRunner::Real(_)));
        Err("stop".to_string())
    });
    assert_eq!(r, Err("stop".to_string()));
    assert_eq!(seen_real, Some(true));
}

#[test]
fn dry_run_plan_shows_every_step() {
    let mut out = String::new();
    let r = with_runner(IoCtx::new(vec![], flags(false, true)), Recorder::default(), |ctx| {
        let r = run_plan(&plan(), ctx, &mut FixedTimer { started: 0 });
        out = ctx.io.output.clone();
        r
    });
    assert_eq!(r, Ok(()));
    assert_eq!(
        out,
        "Configuring\nWould run: cmake ..\n  in directory: build\nBuilding\nWould run: cmake --build .\n"
    );
}

#[test]
fn timing_follows_each_command() {
    let mut ctx = RunCtx { io: IoCtx::new(vec![], flags(true, false)), runner: ChosenRunner::Real(Recorder::default()) };
    let mut timer = FixedTimer { started: 0 };
    assert_eq!(run_plan(&plan(), &mut ctx, &mut timer), Ok(()));
    assert_eq!(timer.started, 2);
    assert_eq!(
        ctx.io.output,
        "Configuring\n  [timing] configure: 1.50s\nBuilding\n  [timing] build: 1.50s\n"
    );
    match &ctx.runner {
        ChosenRunner::Real(rec) => assert_eq!(rec.ran, vec!["cmake ..".to_string(), "cmake --build .".to_string()]),
        ChosenRunner::Dry(_) => panic!("the real runner was replaced"),
    }
}

#[test]
fn plan_stops_at_first_failure() {
    let steps = vec![
        Step::Run { cmd: strs(&["fail", "now"]), cwd: None, label: "first".to_string() },
        Step::Say("never\n".to_string()),
        Step::Run { cmd: strs(&["echo"]), cwd: None, label: "second".to_string() },
    ];
    let mut ctx = RunCtx { io: IoCtx::new(vec![], flags(true, false)), runner: ChosenRunner::Real(Recorder::default()) };
    let r = run_plan(&steps, &mut ctx, &mut FixedTimer { started: 0 });
    assert_eq!(r, Err("Command failed: fail now".to_string()));
    assert_eq!(ctx.io.output, "");
    match &ctx.runner {
        ChosenRunner::Real(rec) => assert_eq!(rec.ran, vec!["fail now".to_string()]),
        ChosenRunner::Dry(_) => panic!("the real runner was replaced"),
    }
}

#[test]
fn timed_dry_run_reports_time() {
    let mut ctx: RunCtx<ChosenRunner<Recorder>> =
        RunCtx { io: IoCtx::new(vec![], flags(true, true)), runner: ChosenRunner::Dry(star_setup::plan::DryRunRunner) };
    let r = run_timed(&strs(&["npm", "install"]), Some("web"), "install", &mut ctx, &mut FixedTimer { started: 0 });
    assert_eq!(r, Ok(()));
    assert_eq!(ctx.io.output, "Would run: npm install\n  in directory: web\n  [timing] install: 1.50s\n");
}
