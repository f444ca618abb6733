//! Interactive prompts: each writes its question and reads answers from the
//! pending input lines of an `IoCtx`.
use vstd::prelude::*;
use crate::ctx::{eof_msg, IoCtx};
use crate::text::{
    chars_eq, chars_eq_ignore_case, chars_of, dec, digits_value, eq_ignore_case, is_digit, is_number,
    number_body, push_usize, repeat, string_of, to_string, trim_bounds, trim_seq,
};

verus! {

/// The text of a line once surrounding whitespace is removed.
pub open spec fn answer(l: String) -> Seq<char> {
    trim_seq(l@)
}

/// Index of the first line whose answer satisfies `p`, or the number of lines if none does.
pub open spec fn first_where(lines: Seq<String>, p: spec_fn(Seq<char>) -> bool) -> nat
    decreases lines.len(),
{
    if lines.len() == 0 {
        0
    } else if p(answer(lines[0])) {
        0
    } else {
        1 + first_where(lines.drop_first(), p)
    }
}

/// A line whose answer is not empty.
pub open spec fn non_blank() -> spec_fn(Seq<char>) -> bool {
    |a: Seq<char>| a.len() > 0
}

/// An answer that selects one of `n` options: a number from 1 to `n`.
pub open spec fn valid_choice(a: Seq<char>, n: nat) -> bool {
    is_number(a) && 1 <= digits_value(number_body(a)) <= n
}

/// The predicate of answers that are a number, in range or not; other
/// answers are asked again.
pub open spec fn choice_pred() -> spec_fn(Seq<char>) -> bool {
    |a: Seq<char>| is_number(a)
}

/// The error of a selection `a` that is a number naming no option.
pub open spec fn out_of_range_msg(a: Seq<char>) -> Seq<char> {
    "Selection out of range: "@ + a
}

/// An answer that confirms: `y` or `Y`.
pub open spec fn is_yes(a: Seq<char>) -> bool {
    eq_ignore_case(a, "y"@)
}

/// The listing of the first `k` options of a choice, one per line, numbered from 1.
pub open spec fn options_text(opts: Seq<Seq<char>>, k: nat) -> Seq<char>
    decreases k,
{
    if k == 0 || k > opts.len() {
        seq![]
    } else {
        options_text(opts, (k - 1) as nat) + "  "@ + dec(k) + ") "@ + opts[k - 1] + "\n"@
    }
}

/// The texts of a list of options.
pub open spec fn option_texts(opts: Seq<&str>) -> Seq<Seq<char>> {
    opts.map_values(|o: &str| o@)
}

/// The text written by `ask`.
pub open spec fn ask_text(prompt: Seq<char>) -> Seq<char> {
    prompt + ": "@
}

proof fn lemma_first_where_skip(lines: Seq<String>, p: spec_fn(Seq<char>) -> bool, i: int)
    requires
        0 <= i <= lines.len(),
        forall|j: int| 0 <= j < i ==> !p(#[trigger] answer(lines[j])),
    ensures
        first_where(lines, p) == i + first_where(lines.skip(i), p),
    decreases i,
{
    if i > 0 {
        assert(lines.drop_first().skip(i - 1) =~= lines.skip(i));
        assert forall|j: int| 0 <= j < i - 1 implies !p(
            #[trigger] answer(lines.drop_first()[j]),
        ) by {
            assert(lines.drop_first()[j] == lines[j + 1]);
        }
        assert(!p(answer(lines[0])));
        lemma_first_where_skip(lines.drop_first(), p, i - 1);
    } else {
        assert(lines.skip(0) =~= lines);
    }
}

/// Prompts for a value; the answer is the next line with surrounding whitespace removed.
pub fn ask(prompt: &str, io: &mut IoCtx) -> (r: Result<String, String>)
    ensures
        match r {
            Ok(v) => {
                &&& old(io).pending().len() > 0
                &&& v@ == answer(old(io).pending()[0])
                &&& final(io).wrote_read(old(io), ask_text(prompt@), 1)
            },
            Err(e) => {
                &&& e@ == eof_msg()
                &&& old(io).pending().len() == 0
                &&& final(io).wrote(old(io), ask_text(prompt@))
            },
        },
{
    io.write(prompt);
    io.write(": ");
    let ghost mid = io.output@;
    match io.read_line() {
        None => {
            assert(io.output@ =~= old(io).output@ + ask_text(prompt@));
            Err(to_string("unexpected end of input"))
        },
        Some(line) => {
            let v = chars_of(line.as_str());
            let (a, b) = trim_bounds(&v);
            assert(io.output@ =~= old(io).output@ + ask_text(prompt@));
            Ok(string_of(&v, a, b))
        },
    }
}

/// Prompts for a value, offering `default` for an empty answer.
pub fn ask_default(prompt: &str, default: &str, io: &mut IoCtx) -> (r: Result<String, String>)
    ensures
        ({
            let text = prompt@ + " ["@ + default@ + "]: "@;
            match r {
                Ok(v) => {
                    &&& old(io).pending().len() > 0
                    &&& v@ == (if answer(old(io).pending()[0]).len() == 0 {
                        default@
                    } else {
                        answer(old(io).pending()[0])
                    })
                    &&& final(io).wrote_read(old(io), text, 1)
                },
                Err(e) => {
                    &&& e@ == eof_msg()
                    &&& old(io).pending().len() == 0
                    &&& final(io).wrote(old(io), text)
                },
            }
        }),
{
    io.write(prompt);
    io.write(" [");
    io.write(default);
    io.write("]: ");
    let ghost text = prompt@ + " ["@ + default@ + "]: "@;
    assert(io.output@ =~= old(io).output@ + text);
    match io.read_line() {
        None => Err(to_string("unexpected end of input")),
        Some(line) => {
            let v = chars_of(line.as_str());
            let (a, b) = trim_bounds(&v);
            if a == b {
                Ok(to_string(default))
            } else {
                Ok(string_of(&v, a, b))
            }
        },
    }
}

/// Prompts for yes or no; an empty answer gives `default`, `y` or `Y` gives yes.
pub fn ask_yesno(prompt: &str, default: bool, io: &mut IoCtx) -> (r: Result<bool, String>)
    ensures
        ({
            let text = prompt@ + " (y/n) ["@ + (if default { "Y"@ } else { "N"@ }) + "]: "@;
            match r {
                Ok(v) => {
                    &&& old(io).pending().len() > 0
                    &&& v == (if answer(old(io).pending()[0]).len() == 0 {
                        default
                    } else {
                        is_yes(answer(old(io).pending()[0]))
                    })
                    &&& final(io).wrote_read(old(io), text, 1)
                },
                Err(e) => {
                    &&& e@ == eof_msg()
                    &&& old(io).pending().len() == 0
                    &&& final(io).wrote(old(io), text)
                },
            }
        }),
{
    let default_char = if default {
        "Y"
    } else {
        "N"
    };
    io.write(prompt);
    io.write(" (y/n) [");
    io.write(default_char);
    io.write("]: ");
    let ghost text = prompt@ + " (y/n) ["@ + (if default { "Y"@ } else { "N"@ }) + "]: "@;
    assert(io.output@ =~= old(io).output@ + text);
    match io.read_line() {
        None => Err(to_string("unexpected end of input")),
        Some(line) => {
            let v = chars_of(line.as_str());
            let (a, b) = trim_bounds(&v);
            if a == b {
                Ok(default)
            } else {
                let t = chars_of(string_of(&v, a, b).as_str());
                Ok(chars_eq_ignore_case(&t, "y"))
            }
        },
    }
}

/// Reads a choice among `n` options from an answer: `Some(i)` for option
/// number `i + 1`, `None` when the answer selects no option.
fn choice_of(t: &Vec<char>, n: usize) -> (r: Option<usize>)
    ensures
        match r {
            Some(i) => valid_choice(t@, n as nat) && i + 1 == digits_value(number_body(t@)),
            None => !valid_choice(t@, n as nat),
        },
{
    let start: usize = if t.len() > 0 && t[0] == '+' {
        1
    } else {
        0
    };
    let ghost body = number_body(t@);
    assert(body =~= t@.skip(start as int));
    if start == t.len() {
        return None;
    }
    let mut acc: u128 = 0;
    let mut j: usize = start;
    while j < t.len()
        invariant
            start <= j <= t@.len(),
            start < t@.len(),
            body == t@.skip(start as int),
            body == number_body(t@),
            forall|k: int| start <= k < j ==> #[trigger] is_digit(t@[k]),
            acc == digits_value(t@.subrange(start as int, j as int)),
            acc <= n,
        decreases t@.len() - j,
    {
        let c = t[j];
        if !('0' <= c && c <= '9') {
            assert(body[j - start] == t@[j as int]);
            assert(!is_digit(body[j - start]));
            return None;
        }
        let d = (c as u32) - ('0' as u32);
        assert(t@.subrange(start as int, j + 1).drop_last() =~= t@.subrange(start as int, j as int));
        acc = acc * 10 + (d as u128);
        j = j + 1;
        if acc > n as u128 {
            proof {
                if is_number(t@) {
                    lemma_digits_prefix(body, j - start);
                    assert(t@.subrange(start as int, j as int) =~= body.take(j - start));
                }
            }
            return None;
        }
    }
    assert(t@.subrange(start as int, j as int) =~= body);
    assert forall|k: int| 0 <= k < body.len() implies #[trigger] is_digit(body[k]) by {
        assert(body[k] == t@[start + k]);
    }
    if acc == 0 {
        return None;
    }
    Some((acc - 1) as usize)
}

/// Whether an answer is a number, as `usize::from_str` reads one when it fits.
fn numeric(t: &Vec<char>) -> (r: bool)
    ensures
        r == is_number(t@),
{
    let start: usize = if t.len() > 0 && t[0] == '+' { 1 } else { 0 };
    assert(number_body(t@) =~= t@.skip(start as int));
    if start == t.len() {
        return false;
    }
    let mut j: usize = start;
    while j < t.len()
        invariant
            start <= j <= t@.len(),
            number_body(t@) =~= t@.skip(start as int),
            forall|k: int| start <= k < j ==> #[trigger] is_digit(t@[k]),
        decreases t@.len() - j,
    {
        if !('0' <= t[j] && t[j] <= '9') {
            assert(number_body(t@)[j - start] == t@[j as int]);
            assert(!is_digit(number_body(t@)[j - start]));
            return false;
        }
        j = j + 1;
    }
    assert forall|k: int| 0 <= k < number_body(t@).len() implies #[trigger] is_digit(number_body(t@)[k]) by {
        assert(number_body(t@)[k] == t@[start + k]);
    }
    true
}

/// A run of digits is worth at least any of its prefixes.
proof fn lemma_digits_prefix(s: Seq<char>, k: int)
    requires
        0 <= k <= s.len(),
        forall|i: int| 0 <= i < s.len() ==> #[trigger] is_digit(s[i]),
    ensures
        digits_value(s) >= digits_value(s.take(k)),
    decreases s.len() - k,
{
    if k < s.len() {
        lemma_digits_prefix(s, k + 1);
        assert(s.take(k + 1).drop_last() =~= s.take(k));
    } else {
        assert(s.take(k) =~= s);
    }
}

/// Asks to choose among numbered options until the answer is a number;
/// gives the zero-based index of the selected option, and an error when the
/// number selects no option or the input ends.
pub fn ask_choice(prompt: &str, options: &[&str], io: &mut IoCtx) -> (r: Result<usize, String>)
    ensures
        ({
            let lines = old(io).pending();
            let k = first_where(lines, choice_pred());
            let header = prompt@ + "\n"@ + options_text(option_texts(options@), options@.len() as nat);
            match r {
                Ok(i) => {
                    &&& k < lines.len()
                    &&& valid_choice(answer(lines[k as int]), options@.len() as nat)
                    &&& i + 1 == digits_value(number_body(answer(lines[k as int])))
                    &&& i < options@.len()
                    &&& final(io).wrote_read(old(io), header + repeat("Select: "@, k + 1), k + 1)
                },
                Err(e) => {
                    ||| {
                        &&& e@ == eof_msg()
                        &&& k == lines.len()
                        &&& final(io).wrote_read(old(io), header + repeat("Select: "@, k + 1), k)
                    }
                    ||| {
                        &&& k < lines.len()
                        &&& !valid_choice(answer(lines[k as int]), options@.len() as nat)
                        &&& e@ == out_of_range_msg(answer(lines[k as int]))
                        &&& final(io).wrote_read(old(io), header + repeat("Select: "@, k + 1), k + 1)
                    }
                },
            }
        }),
{
    let n = options.len();
    let ghost lines = old(io).pending();
    let ghost p = choice_pred();
    io.write(prompt);
    io.write("\n");
    let mut i: usize = 0;
    assert(io.output@ =~= old(io).output@ + (prompt@ + "\n"@ + options_text(option_texts(options@), 0)));
    while i < n
        invariant
            n == options@.len(),
            i <= n,
            io.wrote(old(io), prompt@ + "\n"@ + options_text(option_texts(options@), i as nat)),
        decreases n - i,
    {
        let ghost before = io.output@;
        io.write("  ");
        push_usize(&mut io.output, i + 1);
        io.write(") ");
        io.write(options[i]);
        io.write("\n");
        i = i + 1;
        assert(io.output@ =~= old(io).output@ + (prompt@ + "\n"@ + options_text(option_texts(options@), i as nat)));
    }
    let ghost header = prompt@ + "\n"@ + options_text(option_texts(options@), n as nat);
    let mut tried: usize = 0;
    assert(repeat("Select: "@, 0) =~= Seq::<char>::empty());
    assert(io.output@ =~= old(io).output@ + (header + repeat("Select: "@, 0)));
    assert(lines.skip(0) =~= lines);
    loop
        invariant
            n == options@.len(),
            p == choice_pred(),
            header == prompt@ + "\n"@ + options_text(option_texts(options@), n as nat),
            lines == old(io).pending(),
            tried <= lines.len(),
            forall|j: int| 0 <= j < tried ==> !p(#[trigger] answer(lines[j])),
            io.wrote_read(old(io), header + repeat("Select: "@, tried as nat), tried as nat),
        decreases lines.len() - tried,
    {
        io.write("Select: ");
        assert(io.output@ =~= old(io).output@ + (header + repeat("Select: "@, (tried + 1) as nat)));
        match io.read_line() {
            None => {
                proof {
                    lemma_first_where_skip(lines, p, tried as int);
                    assert(tried == lines.len());
                    assert(first_where(lines.skip(tried as int), p) == 0);
                    assert(io.wrote_read(old(io), header + repeat("Select: "@, (tried + 1) as nat), tried as nat));
                }
                return Err(to_string("unexpected end of input"));
            },
            Some(line) => {
                let v = chars_of(line.as_str());
                let (a, b) = trim_bounds(&v);
                let t = chars_of(string_of(&v, a, b).as_str());
                assert(lines[tried as int] == line) by {
                    assert(old(io).pending().skip(tried as int)[0] == lines[tried as int]);
                }
                assert(t@ == answer(lines[tried as int]));
                if !numeric(&t) {
                    assert(!p(answer(lines[tried as int])));
                    assert(io.pending() =~= lines.skip(tried + 1));
                    tried = tried + 1;
                } else {
                    proof {
                        lemma_first_where_skip(lines, p, tried as int);
                        assert(p(answer(lines[tried as int])));
                        assert(first_where(lines.skip(tried as int), p) == 0);
                        assert(first_where(lines, p) == tried);
                        assert(io.pending() =~= lines.skip(tried + 1));
                    }
                    match choice_of(&t, n) {
                        Some(c) => {
                            return Ok(c);
                        },
                        None => {
                            let mut msg = to_string("Selection out of range: ");
                            msg.append(string_of(&t, 0, t.len()).as_str());
                            proof {
                                assert(t@.subrange(0, t@.len() as int) =~= t@);
                            }
                            return Err(msg);
                        },
                    }
                }
            },
        }
    }
}

/// The text written by `confirm` when it asks.
pub open spec fn confirm_text(prompt: Seq<char>) -> Seq<char> {
    prompt + " (y/n): "@
}

/// Asks for confirmation unless `yes` is set; `y` or `Y` confirms.
pub fn confirm(prompt: &str, yes: bool, io: &mut IoCtx) -> (r: Result<bool, String>)
    ensures
        yes ==> r == Ok::<bool, String>(true) && *final(io) == *old(io),
        !yes ==> match r {
            Ok(v) => {
                &&& old(io).pending().len() > 0
                &&& v == is_yes(answer(old(io).pending()[0]))
                &&& final(io).wrote_read(old(io), confirm_text(prompt@), 1)
            },
            Err(e) => {
                &&& e@ == eof_msg()
                &&& old(io).pending().len() == 0
                &&& final(io).wrote(old(io), confirm_text(prompt@))
            },
        },
{
    if yes {
        return Ok(true);
    }
    io.write(prompt);
    io.write(" (y/n): ");
    assert(io.output@ =~= old(io).output@ + confirm_text(prompt@));
    match io.read_line() {
        None => Err(to_string("unexpected end of input")),
        Some(line) => {
            let v = chars_of(line.as_str());
            let (a, b) = trim_bounds(&v);
            let t = chars_of(string_of(&v, a, b).as_str());
            Ok(chars_eq_ignore_case(&t, "y"))
        },
    }
}

/// The text written when a confirmation is declined.
pub open spec fn aborted_text() -> Seq<char> {
    "Aborted.\n"@
}

/// Asks for confirmation like `confirm`, and reports `Aborted.` when it is declined.
pub fn confirm_abort(prompt: &str, yes: bool, io: &mut IoCtx) -> (r: Result<bool, String>)
    ensures
        yes ==> r == Ok::<bool, String>(true) && *final(io) == *old(io),
        !yes ==> match r {
            Ok(v) => {
                &&& old(io).pending().len() > 0
                &&& v == is_yes(answer(old(io).pending()[0]))
                &&& final(io).wrote_read(
                    old(io),
                    confirm_text(prompt@) + (if v { Seq::empty() } else { aborted_text() }),
                    1,
                )
            },
            Err(e) => {
                &&& e@ == eof_msg()
                &&& old(io).pending().len() == 0
                &&& final(io).wrote(old(io), confirm_text(prompt@))
            },
        },
{
    let r = confirm(prompt, yes, io);
    match r {
        Ok(false) => {
            io.write("Aborted.\n");
            assert(io.output@ =~= old(io).output@ + (confirm_text(prompt@) + aborted_text()));
            Ok(false)
        },
        Ok(true) => {
            if !yes {
                assert(io.output@ =~= old(io).output@ + (confirm_text(prompt@) + Seq::<char>::empty()));
            }
            Ok(true)
        },
        Err(e) => Err(e),
    }
}

/// Prompts until a non-empty answer is given.
pub fn ask_required(prompt: &str, io: &mut IoCtx) -> (r: Result<String, String>)
    ensures
        ({
            let lines = old(io).pending();
            let k = first_where(lines, non_blank());
            match r {
                Ok(v) => {
                    &&& k < lines.len()
                    &&& v@ == answer(lines[k as int])
                    &&& v@.len() > 0
                    &&& final(io).wrote_read(old(io), repeat(ask_text(prompt@), k + 1), k + 1)
                },
                Err(e) => {
                    &&& e@ == eof_msg()
                    &&& k == lines.len()
                    &&& final(io).wrote_read(old(io), repeat(ask_text(prompt@), k + 1), k)
                },
            }
        }),
{
    let ghost lines = old(io).pending();
    let ghost p = non_blank();
    let mut tried: usize = 0;
    assert(repeat(ask_text(prompt@), 0) =~= Seq::<char>::empty());
    assert(io.output@ =~= old(io).output@ + repeat(ask_text(prompt@), 0));
    assert(lines.skip(0) =~= lines);
    loop
        invariant
            p == non_blank(),
            lines == old(io).pending(),
            tried <= lines.len(),
            forall|j: int| 0 <= j < tried ==> !p(#[trigger] answer(lines[j])),
            io.wrote_read(old(io), repeat(ask_text(prompt@), tried as nat), tried as nat),
        decreases lines.len() - tried,
    {
        let ghost before = *io;
        let a = ask(prompt, io);
        assert(io.output@ =~= old(io).output@ + repeat(ask_text(prompt@), (tried + 1) as nat));
        match a {
            Err(e) => {
                proof {
                    lemma_first_where_skip(lines, p, tried as int);
                }
                return Err(e);
            },
            Ok(v) => {
                assert(lines[tried as int] == before.pending()[0]) by {
                    assert(old(io).pending().skip(tried as int)[0] == lines[tried as int]);
                }
                assert(io.pending() =~= lines.skip(tried + 1));
                if !v.as_str().is_empty() {
                    proof {
                        lemma_first_where_skip(lines, p, tried as int);
                    }
                    return Ok(v);
                }
                tried = tried + 1;
            },
        }
    }
}

/// An answer that picks one of two numbered options: `1` or `2`.
pub open spec fn one_or_two() -> spec_fn(Seq<char>) -> bool {
    |a: Seq<char>| a == "1"@ || a == "2"@
}

/// Prompts until the answer is `1` or `2`; gives whether it is `2`.
pub fn ask_one_or_two(prompt: &str, io: &mut IoCtx) -> (r: Result<bool, String>)
    ensures
        ({
            let lines = old(io).pending();
            let k = first_where(lines, one_or_two());
            match r {
                Ok(second) => {
                    &&& k < lines.len()
                    &&& (answer(lines[k as int]) == "1"@ || answer(lines[k as int]) == "2"@)
                    &&& second == (answer(lines[k as int]) == "2"@)
                    &&& final(io).wrote_read(old(io), repeat(ask_text(prompt@), k + 1), k + 1)
                },
                Err(e) => {
                    &&& e@ == eof_msg()
                    &&& k == lines.len()
                    &&& final(io).wrote_read(old(io), repeat(ask_text(prompt@), k + 1), k)
                },
            }
        }),
{
    let ghost lines = old(io).pending();
    let ghost p = one_or_two();
    let mut tried: usize = 0;
    assert(repeat(ask_text(prompt@), 0) =~= Seq::<char>::empty());
    assert(io.output@ =~= old(io).output@ + repeat(ask_text(prompt@), 0));
    assert(lines.skip(0) =~= lines);
    loop
        invariant
            p == one_or_two(),
            lines == old(io).pending(),
            tried <= lines.len(),
            forall|j: int| 0 <= j < tried ==> !p(#[trigger] answer(lines[j])),
            io.wrote_read(old(io), repeat(ask_text(prompt@), tried as nat), tried as nat),
        decreases lines.len() - tried,
    {
        let ghost before = *io;
        let a = ask(prompt, io);
        assert(io.output@ =~= old(io).output@ + repeat(ask_text(prompt@), (tried + 1) as nat));
        match a {
            Err(e) => {
                proof {
                    lemma_first_where_skip(lines, p, tried as int);
                }
                return Err(e);
            },
            Ok(v) => {
                assert(lines[tried as int] == before.pending()[0]) by {
                    assert(old(io).pending().skip(tried as int)[0] == lines[tried as int]);
                }
                assert(io.pending() =~= lines.skip(tried + 1));
                let c = chars_of(v.as_str());
                let one = chars_eq(&c, "1");
                let two = chars_eq(&c, "2");
                if one || two {
                    proof {
                        lemma_first_where_skip(lines, p, tried as int);
                    }
                    return Ok(two);
                }
                tried = tried + 1;
            },
        }
    }
}

} // verus!
