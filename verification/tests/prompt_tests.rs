use star_setup::ctx::{IoCtx, RunFlags};
use star_setup::prompts::{ask, ask_choice, ask_default, ask_one_or_two, ask_required, ask_yesno, confirm, confirm_abort};

fn io_with(lines: &[&str]) -> IoCtx {
    IoCtx::new(lines.iter().map(|l| l.to_string()).collect(), RunFlags { verbose: false, timing: false, dry_run: false })
}

#[test]
fn ask_trims_answer() {
    let mut io = io_with(&["  hello world \n"]);
    assert_eq!(ask("Name", &mut io), Ok("hello world".to_string()));
    assert_eq!(io.output, "Name: ");
}

#[test]
fn ask_at_end_of_input() {
    let mut io = io_with(&[]);
    assert_eq!(ask("Name", &mut io), Err("unexpected end of input".to_string()));
    assert_eq!(io.output, "Name: ");
}

#[test]
fn ask_default_empty_gives_default() {
    let mut io = io_with(&["\n", " x \n"]);
    assert_eq!(ask_default("Dir", "build", &mut io), Ok("build".to_string()));
    assert_eq!(ask_default("Dir", "build", &mut io), Ok("x".to_string()));
    assert_eq!(io.output, "Dir [build]: Dir [build]: ");
}

#[test]
fn ask_yesno_answers() {
    let mut io = io_with(&["\n", "Y\n", "yes\n", "n\n"]);
    assert_eq!(ask_yesno("Go?", true, &mut io), Ok(true));
    assert_eq!(ask_yesno("Go?", false, &mut io), Ok(true));
    assert_eq!(ask_yesno("Go?", true, &mut io), Ok(false));
    assert_eq!(ask_yesno("Go?", true, &mut io), Ok(false));
    assert_eq!(io.output, "Go? (y/n) [Y]: Go? (y/n) [N]: Go? (y/n) [Y]: Go? (y/n) [Y]: ");
    assert_eq!(ask_yesno("Go?", true, &mut io), Err("unexpected end of input".to_string()));
}

#[test]
fn ask_choice_retries_until_number() {
    let mut io = io_with(&["abc\n", "\n", "+x\n", " 2 \n"]);
    assert_eq!(ask_choice("Pick", &["a", "b"], &mut io), Ok(1));
    assert_eq!(io.output, "Pick\n  1) a\n  2) b\nSelect: Select: Select: Select: ");
}

#[test]
fn ask_choice_out_of_range_is_error() {
    let mut io = io_with(&["5\n", "2\n"]);
    assert_eq!(ask_choice("Pick", &["a", "b"], &mut io), Err("Selection out of range: 5".to_string()));
    assert_eq!(io.output, "Pick\n  1) a\n  2) b\nSelect: ");
    assert_eq!(io.pos, 1);
    let mut io = io_with(&["x\n", "0\n"]);
    assert_eq!(ask_choice("Pick", &["a"], &mut io), Err("Selection out of range: 0".to_string()));
}

#[test]
fn ask_choice_eof() {
    let mut io = io_with(&["none\n"]);
    assert_eq!(ask_choice("Pick", &["a"], &mut io), Err("unexpected end of input".to_string()));
}

#[test]
fn confirm_variants() {
    let mut io = io_with(&[]);
    assert_eq!(confirm("Sure?", true, &mut io), Ok(true));
    assert_eq!(io.output, "");
    let mut io = io_with(&["Y\n", "nope\n"]);
    assert_eq!(confirm("Sure?", false, &mut io), Ok(true));
    assert_eq!(confirm("Sure?", false, &mut io), Ok(false));
    assert_eq!(io.output, "Sure? (y/n): Sure? (y/n): ");
}

#[test]
fn confirm_abort_reports() {
    let mut io = io_with(&["n\n"]);
    assert_eq!(confirm_abort("Sure?", false, &mut io), Ok(false));
    assert_eq!(io.output, "Sure? (y/n): Aborted.\n");
}

#[test]
fn ask_required_skips_blank() {
    let mut io = io_with(&["\n", "   \n", "repo\n"]);
    assert_eq!(ask_required("Repo", &mut io), Ok("repo".to_string()));
    assert_eq!(io.output, "Repo: Repo: Repo: ");
    let mut io = io_with(&["\n"]);
    assert_eq!(ask_required("Repo", &mut io), Err("unexpected end of input".to_string()));
    assert_eq!(io.output, "Repo: Repo: ");
}

#[test]
fn one_or_two_loops() {
    let mut io = io_with(&["3\n", "2\n"]);
    assert_eq!(ask_one_or_two("Mode", &mut io), Ok(true));
    assert_eq!(io.output, "Mode: Mode: ");
    let mut io = io_with(&["1\n"]);
    assert_eq!(ask_one_or_two("Mode", &mut io), Ok(false));
}
