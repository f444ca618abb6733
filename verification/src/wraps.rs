//! Reading Meson files: the `project()` name of a `meson.build`, and the
//! `[provide]` pairs of a wrap file.
use vstd::prelude::*;
use crate::table::{table_insert, table_map};
use crate::text::{chars_eq, chars_of, chars_occur_at, occurs_at, push_char, string_of, trim_bounds, trim_seq};

verus! {

/// An ASCII letter or digit.
pub open spec fn is_ascii_alnum(c: char) -> bool {
    ('a' <= c && c <= 'z') || ('A' <= c && c <= 'Z') || ('0' <= c && c <= '9')
}

/// Whether the byte before a `project(` match lets it count: the last UTF-8
/// byte of the previous character, read as a Latin-1 character, must be
/// neither alphanumeric nor `_`. For an ASCII character that byte is the
/// character itself; for any other it is `0x80` plus its low six bits.
pub open spec fn ok_before(c: char) -> bool {
    let u = c as u32;
    if u < 0x80 {
        !is_ascii_alnum(c) && c != '_'
    } else {
        let b = 0x80 + u % 64;
        !(b == 0xAA || b == 0xB2 || b == 0xB3 || b == 0xB5 || b == 0xB9 || b == 0xBA || b == 0xBC
            || b == 0xBD || b == 0xBE)
    }
}

/// `project(` starts at `i` and what precedes it lets it count.
pub open spec fn project_at(s: Seq<char>, i: int) -> bool {
    occurs_at(s, "project("@, i) && (i == 0 || ok_before(s[i - 1]))
}

/// The first position at or after `i` where `project(` counts, or -1.
pub open spec fn find_project(s: Seq<char>, i: int) -> int
    decreases s.len() - i,
{
    if i < 0 || i + 8 > s.len() {
        -1
    } else if project_at(s, i) {
        i
    } else {
        find_project(s, i + 1)
    }
}

/// Index of the first `c` in `s`, or -1.
pub open spec fn first_index(s: Seq<char>, c: char) -> int
    decreases s.len(),
{
    if s.len() == 0 {
        -1
    } else if s[0] == c {
        0
    } else {
        let r = first_index(s.drop_first(), c);
        if r < 0 { -1 } else { r + 1 }
    }
}

/// Index of the first quote (`"` or `'`) in `s`, or -1.
pub open spec fn first_quote(s: Seq<char>) -> int
    decreases s.len(),
{
    if s.len() == 0 {
        -1
    } else if s[0] == '"' || s[0] == '\'' {
        0
    } else {
        let r = first_quote(s.drop_first());
        if r < 0 { -1 } else { r + 1 }
    }
}

/// `s` with every `-` replaced by `_`.
pub open spec fn dashes_to_underscores(s: Seq<char>) -> Seq<char> {
    s.map_values(|c: char| if c == '-' { '_' } else { c })
}

/// The project name that `parse_project_name` finds: the quoted first
/// argument of the first `project(` that counts.
pub open spec fn project_name_of(s: Seq<char>) -> Option<Seq<char>> {
    let i = find_project(s, 0);
    if i < 0 {
        None
    } else {
        let rest = s.skip(i + 8);
        let fq = first_quote(rest);
        if fq < 0 {
            None
        } else {
            let q = rest[fq];
            let ns = rest.skip(fq + 1);
            let e = first_index(ns, q);
            if e < 0 {
                None
            } else {
                Some(dashes_to_underscores(ns.take(e)))
            }
        }
    }
}

fn char_ok_before(c: char) -> (r: bool)
    ensures
        r == ok_before(c),
{
    let u = c as u32;
    if u < 0x80 {
        !(('a' <= c && c <= 'z') || ('A' <= c && c <= 'Z') || ('0' <= c && c <= '9')) && c != '_'
    } else {
        let b = 0x80 + u % 64;
        !(b == 0xAA || b == 0xB2 || b == 0xB3 || b == 0xB5 || b == 0xB9 || b == 0xBA || b == 0xBC
            || b == 0xBD || b == 0xBE)
    }
}

/// First index in `v[from..]` of `c`, relative to `from`.
fn find_char_from(v: &Vec<char>, from: usize, c: char) -> (r: Option<usize>)
    requires
        from <= v@.len(),
    ensures
        match r {
            Some(k) => k == first_index(v@.skip(from as int), c) && from + k < v@.len(),
            None => first_index(v@.skip(from as int), c) == -1,
        },
    decreases v@.len() - from,
{
    if from == v.len() {
        return None;
    }
    assert(v@.skip(from as int).drop_first() =~= v@.skip(from + 1));
    if v[from] == c {
        return Some(0);
    }
    match find_char_from(v, from + 1, c) {
        Some(k) => Some(k + 1),
        None => None,
    }
}

/// First index in `v[from..]` of a quote, relative to `from`.
fn find_quote_from(v: &Vec<char>, from: usize) -> (r: Option<usize>)
    requires
        from <= v@.len(),
    ensures
        match r {
            Some(k) => k == first_quote(v@.skip(from as int)) && from + k < v@.len(),
            None => first_quote(v@.skip(from as int)) == -1,
        },
    decreases v@.len() - from,
{
    if from == v.len() {
        return None;
    }
    assert(v@.skip(from as int).drop_first() =~= v@.skip(from + 1));
    if v[from] == '"' || v[from] == '\'' {
        return Some(0);
    }
    match find_quote_from(v, from + 1) {
        Some(k) => Some(k + 1),
        None => None,
    }
}

/// Reads the `project()` name of `meson.build` content, with `-` replaced by
/// `_`; `None` when no counting `project(` is followed by a quoted name.
pub fn parse_project_name(content: &str) -> (r: Option<String>)
    ensures
        match project_name_of(content@) {
            Some(n) => r matches Some(v) && v@ == n,
            None => r is None,
        },
{
    let v = chars_of(content);
    let needle = chars_of("project(");
    proof {
        reveal_strlit("project(");
    }
    let n = v.len();
    let mut i: usize = 0;
    while i <= n && n - i >= 8
        invariant
            n == v@.len(),
            v@ == content@,
            needle@ == "project("@,
            needle@.len() == 8,
            find_project(v@, 0) == find_project(v@, i as int),
        decreases n - i,
    {
        if chars_occur_at(&v, &needle, i) && (i == 0 || char_ok_before(v[i - 1])) {
            assert(find_project(v@, i as int) == i);
            let rest = i + 8;
            let fq = match find_quote_from(&v, rest) {
                None => return None,
                Some(k) => k,
            };
            let q = v[rest + fq];
            assert(q == v@.skip(rest as int)[fq as int]);
            let start = rest + fq + 1;
            assert(v@.skip(rest as int).skip(fq + 1) =~= v@.skip(start as int));
            let e = match find_char_from(&v, start, q) {
                None => return None,
                Some(k) => k,
            };
            let mut out = String::new();
            let mut k: usize = 0;
            while k < e
                invariant
                    k <= e,
                    n == v@.len(),
                    start + e < v@.len(),
                    out@ == dashes_to_underscores(v@.subrange(start as int, start + k)),
                decreases e - k,
            {
                let c = v[start + k];
                push_char(&mut out, if c == '-' { '_' } else { c });
                k = k + 1;
                assert(out@ =~= dashes_to_underscores(v@.subrange(start as int, start + k)));
            }
            assert(v@.subrange(start as int, start + e) =~= v@.skip(start as int).take(e as int));
            return Some(out);
        }
        i = i + 1;
    }
    None
}

/// The state of reading a wrap file: inside a `[provide]` section or not,
/// and the pairs found so far.
pub open spec fn provide_step(in_provide: bool, pairs: Map<Seq<char>, Seq<char>>, line: Seq<char>) -> (bool, Map<Seq<char>, Seq<char>>) {
    let l = trim_seq(line);
    if l.len() > 0 && l[0] == '[' {
        (l == "[provide]"@, pairs)
    } else if in_provide {
        let e = first_index(l, '=');
        if e < 0 {
            (in_provide, pairs)
        } else {
            let k = trim_seq(l.take(e));
            let v = trim_seq(l.skip(e + 1));
            if k.len() > 0 && v.len() > 0 {
                (in_provide, pairs.insert(k, v))
            } else {
                (in_provide, pairs)
            }
        }
    } else {
        (in_provide, pairs)
    }
}

/// Reads the lines of `s` (split at `\n`) from the given state on.
pub open spec fn provide_scan(s: Seq<char>, in_provide: bool, pairs: Map<Seq<char>, Seq<char>>) -> Map<Seq<char>, Seq<char>>
    decreases s.len(),
{
    let j = first_index(s, '\n');
    if j < 0 {
        provide_step(in_provide, pairs, s).1
    } else {
        let st = provide_step(in_provide, pairs, s.take(j));
        proof {
            lemma_first_index_bound(s, '\n');
        }
        provide_scan(s.skip(j + 1), st.0, st.1)
    }
}

/// The `[provide]` pairs of wrap file content.
pub open spec fn provide_pairs_of(s: Seq<char>) -> Map<Seq<char>, Seq<char>> {
    provide_scan(s, false, Map::empty())
}

/// `first_index` is -1 or the index of a `c` in `s`.
pub proof fn lemma_first_index_bound(s: Seq<char>, c: char)
    ensures
        -1 <= first_index(s, c) < s.len(),
        first_index(s, c) >= 0 ==> s[first_index(s, c)] == c,
    decreases s.len(),
{
    if s.len() > 0 {
        lemma_first_index_bound(s.drop_first(), c);
    }
}

/// The pairs of a table of strings, as a map of character sequences.
pub open spec fn pairs_view(t: Seq<(String, String)>) -> Map<Seq<char>, Seq<char>> {
    table_map(t).map_values(|s: String| s@)
}

/// A trimmed copy of `v[a..b]`, as characters.
fn trimmed(v: &Vec<char>, a: usize, b: usize) -> (r: Vec<char>)
    requires
        a <= b <= v@.len(),
    ensures
        r@ == trim_seq(v@.subrange(a as int, b as int)),
{
    let s = string_of(v, a, b);
    let w = chars_of(s.as_str());
    let (x, y) = trim_bounds(&w);
    let t = string_of(&w, x, y);
    chars_of(t.as_str())
}

/// One line of a wrap file: updates the section state and the pairs found.
fn provide_line(line: &Vec<char>, in_provide: bool, pairs: &mut Vec<(String, String)>) -> (r: bool)
    ensures
        (r, pairs_view(final(pairs)@)) == provide_step(in_provide, pairs_view(old(pairs)@), line@),
{
    let l = trimmed(line, 0, line.len());
    assert(line@.subrange(0, line@.len() as int) =~= line@);
    if l.len() > 0 && l[0] == '[' {
        return chars_eq(&l, "[provide]");
    }
    if !in_provide {
        return in_provide;
    }
    proof {
        lemma_first_index_bound(l@, '=');
        assert(l@.skip(0) =~= l@);
    }
    match find_char_from(&l, 0, '=') {
        None => in_provide,
        Some(e) => {
            let k = trimmed(&l, 0, e);
            let v = trimmed(&l, e + 1, l.len());
            assert(l@.subrange(0, e as int) =~= l@.take(e as int));
            assert(l@.subrange(e + 1, l@.len() as int) =~= l@.skip(e + 1));
            if k.len() > 0 && v.len() > 0 {
                let ks = string_of(&k, 0, k.len());
                let vs = string_of(&v, 0, v.len());
                assert(k@.subrange(0, k@.len() as int) =~= k@);
                assert(v@.subrange(0, v@.len() as int) =~= v@);
                let ghost before = pairs@;
                let ghost kv = ks@;
                let ghost vv = vs@;
                table_insert(pairs, ks, vs);
                assert(pairs_view(pairs@) =~= pairs_view(before).insert(kv, vv));
            }
            in_provide
        },
    }
}

/// Reads the `[provide]` key-value pairs of wrap file content; a later pair
/// for the same key replaces the value of an earlier one.
pub fn parse_provide_pairs(content: &str) -> (r: Vec<(String, String)>)
    ensures
        pairs_view(r@) == provide_pairs_of(content@),
{
    let v = chars_of(content);
    let mut pairs: Vec<(String, String)> = Vec::new();
    let mut in_provide = false;
    assert(pairs_view(pairs@) =~= Map::<Seq<char>, Seq<char>>::empty());
    let mut pos: usize = 0;
    let n = v.len();
    assert(v@.skip(0) =~= v@);
    loop
        invariant
            n == v@.len(),
            pos <= v@.len(),
            provide_pairs_of(content@) == provide_scan(v@.skip(pos as int), in_provide, pairs_view(pairs@)),
            v@ == content@,
        decreases v@.len() - pos,
    {
        proof {
            lemma_first_index_bound(v@.skip(pos as int), '\n');
        }
        match find_char_from(&v, pos, '\n') {
            None => {
                let line = trimmed_copy(&v, pos, v.len());
                assert(v@.subrange(pos as int, v@.len() as int) =~= v@.skip(pos as int));
                provide_line(&line, in_provide, &mut pairs);
                return pairs;
            },
            Some(j) => {
                let line = trimmed_copy(&v, pos, pos + j);
                assert(v@.subrange(pos as int, pos + j) =~= v@.skip(pos as int).take(j as int));
                assert(v@.skip(pos as int).skip(j + 1) =~= v@.skip(pos + j + 1));
                in_provide = provide_line(&line, in_provide, &mut pairs);
                pos = pos + j + 1;
            },
        }
    }
}

/// A copy of `v[a..b]`.
fn trimmed_copy(v: &Vec<char>, a: usize, b: usize) -> (r: Vec<char>)
    requires
        a <= b <= v@.len(),
    ensures
        r@ == v@.subrange(a as int, b as int),
{
    let mut r: Vec<char> = Vec::new();
    let mut i = a;
    while i < b
        invariant
            a <= i <= b <= v@.len(),
            r@ == v@.subrange(a as int, i as int),
        decreases b - i,
    {
        r.push(v[i]);
        i = i + 1;
        assert(r@ =~= v@.subrange(a as int, i as int));
    }
    r
}

} // verus!
