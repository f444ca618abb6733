//! Hoisting the Meson wraps of a mono-repo: each cloned repository is made
//! reachable under the canonical name of its `project()`, through a wrap file
//! in `repos/` that points at the clone's directory.
use vstd::prelude::*;
use crate::ctx::IoCtx;
use crate::mono_config::wrote_file;
use crate::scripts::{pair_views, writes_all};
use crate::table::{lemma_push_new, table_has, table_get, table_map};
use crate::text::{cat3, push_str, to_string};
use crate::wraps::{pairs_view, parse_project_name, parse_provide_pairs, project_name_of, provide_pairs_of};

verus! {

/// A cloned repository of a Meson mono-repo, as the caller read it.
pub struct WrapProject {
    /// Its directory name under `repos/`.
    pub dir_name: String,
    /// The text of its `meson.build`, when it has one.
    pub meson_build: Option<String>,
}

/// The index of the first pair with key `k`, or -1.
pub open spec fn key_index(t: Seq<(Seq<char>, Seq<char>)>, k: Seq<char>) -> int
    decreases t.len(),
{
    if t.len() == 0 {
        -1
    } else if t[0].0 == k {
        0
    } else {
        let r = key_index(t.drop_first(), k);
        if r < 0 { -1 } else { r + 1 }
    }
}

/// Sets the value of `k`: in place when a pair with key `k` exists, else as a new last pair.
pub open spec fn set_pair(t: Seq<(Seq<char>, Seq<char>)>, k: Seq<char>, v: Seq<char>) -> Seq<(Seq<char>, Seq<char>)> {
    let i = key_index(t, k);
    if i < 0 { t.push((k, v)) } else { t.update(i, (k, v)) }
}

/// The project name of a repository, read from its `meson.build`.
pub open spec fn project_of(p: WrapProject) -> Option<Seq<char>> {
    match p.meson_build {
        Some(c) => project_name_of(c@),
        None => None,
    }
}

/// The canonical project names of the repositories with their directories,
/// in order of first appearance; a later repository with the same project
/// name takes that name over.
pub open spec fn project_table(ps: Seq<WrapProject>) -> Seq<(Seq<char>, Seq<char>)>
    decreases ps.len(),
{
    if ps.len() == 0 {
        seq![]
    } else {
        let t = project_table(ps.drop_last());
        match project_of(ps.last()) {
            Some(n) => set_pair(t, n, ps.last().dir_name@),
            None => t,
        }
    }
}

/// The keys of a list of pairs.
pub open spec fn pair_keys(t: Seq<(Seq<char>, Seq<char>)>) -> Set<Seq<char>> {
    Set::new(|k: Seq<char>| key_index(t, k) >= 0)
}

/// The `[provide]` pairs of the wrap files whose key is one of `keys`; for a
/// key provided more than once, the first file that provides it counts.
pub open spec fn provides_of(keys: Set<Seq<char>>, files: Seq<Seq<char>>) -> Map<Seq<char>, Seq<char>>
    decreases files.len(),
{
    if files.len() == 0 {
        Map::empty()
    } else {
        provide_pairs_of(files.last()).restrict(keys).union_prefer_right(provides_of(keys, files.drop_last()))
    }
}

/// The wrap file that makes directory `dir` available as `name`, with the
/// dependency it provides when one is known.
pub open spec fn wrap_text(name: Seq<char>, dir: Seq<char>, dep: Option<Seq<char>>) -> Seq<char> {
    match dep {
        Some(d) => "[wrap-file]\ndirectory = "@ + dir + "\n\n[provide]\n"@ + name + " = "@ + d + "\n"@,
        None => "[wrap-file]\ndirectory = "@ + dir + "\n"@,
    }
}

/// What is reported for the first `k` hoisted wraps.
pub open spec fn hoisted_lines(t: Seq<(Seq<char>, Seq<char>)>, k: nat) -> Seq<char>
    decreases k,
{
    if k == 0 || k > t.len() {
        seq![]
    } else {
        hoisted_lines(t, (k - 1) as nat) + "  Generated wrap: "@ + t[k - 1].0 + ".wrap -> "@ + t[k - 1].1 + "\n"@
    }
}

/// The dependency provided for `name`, if any.
pub open spec fn provided(prov: Map<Seq<char>, Seq<char>>, name: Seq<char>) -> Option<Seq<char>> {
    if prov.dom().contains(name) { Some(prov[name]) } else { None }
}

/// Wrap `i` of the table was handed to `write` and gave `r`.
pub open spec fn wrap_written<W: Fn(&str, &str) -> Result<(), String>>(
    write: W, t: Seq<(Seq<char>, Seq<char>)>, prov: Map<Seq<char>, Seq<char>>, i: int, r: Result<(), String>,
) -> bool {
    wrote_file(write, t[i].0 + ".wrap"@, wrap_text(t[i].0, t[i].1, provided(prov, t[i].0)), r)
}

/// What hoisting does: for the table of project names, the first `k` wraps
/// are written and reported; all of them when the table comes back, else the
/// next write failed with the error that comes back.
pub open spec fn hoist_outcome<W: Fn(&str, &str) -> Result<(), String>>(
    write: W, projects: Seq<WrapProject>, wrap_files: Seq<String>,
    old_io: IoCtx, new_io: IoCtx, r: Result<Vec<(String, String)>, String>,
) -> bool {
    let t = project_table(projects);
    let prov = provides_of(pair_keys(t), wrap_files.map_values(|s: String| s@));
    exists|k: nat| #![trigger hoisted_lines(t, k)] {
        &&& k <= t.len()
        &&& forall|i: int| 0 <= i < k ==> #[trigger] wrap_written(write, t, prov, i, Ok(()))
        &&& new_io.wrote(&old_io, hoisted_lines(t, k))
        &&& match r {
            Ok(v) => k == t.len() && pair_views(v@) == t,
            Err(e) => k < t.len() && wrap_written(write, t, prov, k as int, Err(e)),
        }
    }
}

/// The first pair with key `k` is at `i` (or there is none when `i` is the length).
proof fn lemma_key_index(t: Seq<(Seq<char>, Seq<char>)>, k: Seq<char>, i: int)
    requires
        0 <= i <= t.len(),
        forall|j: int| 0 <= j < i ==> t[j].0 != k,
        i < t.len() ==> t[i].0 == k,
    ensures
        key_index(t, k) == (if i == t.len() { -1 } else { i }),
    decreases i,
{
    if i > 0 {
        assert forall|j: int| 0 <= j < i - 1 implies t.drop_first()[j].0 != k by {
            assert(t.drop_first()[j] == t[j + 1]);
        }
        lemma_key_index(t.drop_first(), k, i - 1);
    }
}

/// `key_index` is -1 or the index of the first pair with key `k`.
pub(crate) proof fn lemma_key_index_bound(t: Seq<(Seq<char>, Seq<char>)>, k: Seq<char>)
    ensures
        -1 <= key_index(t, k) < t.len(),
        key_index(t, k) >= 0 ==> t[key_index(t, k)].0 == k,
        key_index(t, k) < 0 ==> forall|j: int| 0 <= j < t.len() ==> t[j].0 != k,
    decreases t.len(),
{
    if t.len() > 0 {
        lemma_key_index_bound(t.drop_first(), k);
        if t[0].0 != k && key_index(t, k) < 0 {
            assert forall|j: int| 0 <= j < t.len() implies t[j].0 != k by {
                if j > 0 {
                    assert(t[j] == t.drop_first()[j - 1]);
                }
            }
        }
    }
}

/// Sets the value of `k` in a list of pairs.
fn pair_set(t: &mut Vec<(String, String)>, k: String, v: String)
    ensures
        pair_views(final(t)@) == set_pair(pair_views(old(t)@), k@, v@),
{
    let ghost kv = k@;
    let ghost vv = v@;
    let ghost before = pair_views(t@);
    let mut i: usize = 0;
    while i < t.len()
        invariant
            i <= t@.len(),
            before == pair_views(t@),
            before == pair_views(old(t)@),
            kv == k@,
            vv == v@,
            forall|j: int| 0 <= j < i ==> t@[j].0@ != kv,
        decreases t@.len() - i,
    {
        if t[i].0 == k {
            assert(before[i as int].0 == kv);
            assert forall|j: int| 0 <= j < i implies before[j].0 != kv by {
                assert(before[j].0 == t@[j].0@);
            }
            proof {
                lemma_key_index(before, kv, i as int);
            }
            let ghost old_t = t@;
            t.set(i, (k, v));
            assert(t@ == old_t.update(i as int, (k, v)));
            assert(key_index(before, kv) == i);
            assert(set_pair(before, kv, vv) == before.update(i as int, (kv, vv)));
            assert(pair_views(t@) =~= before.update(i as int, (kv, vv)));
            return;
        }
        i = i + 1;
    }
    assert forall|j: int| 0 <= j < i implies before[j].0 != kv by {
        assert(before[j].0 == t@[j].0@);
    }
    proof {
        lemma_key_index(before, kv, i as int);
    }
    t.push((k, v));
    assert(pair_views(t@) =~= set_pair(before, kv, vv));
}

/// Adding an entry for a name that is already in the table leaves the map unchanged.
proof fn lemma_push_old<V>(t: Seq<(String, V)>, k: String, v: V)
    requires
        table_map(t).dom().contains(k@),
    ensures
        table_map(t.push((k, v))) == table_map(t),
    decreases t.len(),
{
    if t.len() > 0 {
        assert(t.push((k, v)).drop_first() =~= t.drop_first().push((k, v)));
        assert(t.push((k, v))[0] == t[0]);
        if t[0].0@ != k@ {
            lemma_push_old(t.drop_first(), k, v);
        } else if table_map(t.drop_first()).dom().contains(k@) {
            lemma_push_old(t.drop_first(), k, v);
        } else {
            lemma_push_new(t.drop_first(), k, v);
        }
        assert(table_map(t.push((k, v))) =~= table_map(t));
    }
}

/// The pairs of a table, from its first `j` entries.
proof fn lemma_pairs_step(t: Seq<(String, String)>, j: int)
    requires
        0 <= j < t.len(),
    ensures
        pairs_view(t.take(j + 1)) == (if pairs_view(t.take(j)).dom().contains(t[j].0@) {
            pairs_view(t.take(j))
        } else {
            pairs_view(t.take(j)).insert(t[j].0@, t[j].1@)
        }),
{
    assert(t.take(j + 1) =~= t.take(j).push(t[j]));
    if table_map(t.take(j)).dom().contains(t[j].0@) {
        lemma_push_old(t.take(j), t[j].0, t[j].1);
    } else {
        lemma_push_new(t.take(j), t[j].0, t[j].1);
        assert(pairs_view(t.take(j + 1)) =~= pairs_view(t.take(j)).insert(t[j].0@, t[j].1@));
    }
}

/// Adds the pairs of one wrap file whose key is a project name and that no
/// earlier file provided.
fn add_provides(provides: &mut Vec<(String, String)>, projects: &Vec<(String, String)>, text: &str)
    ensures
        pairs_view(final(provides)@) == provide_pairs_of(text@).restrict(pair_keys(pair_views(projects@))).union_prefer_right(pairs_view(old(provides)@)),
{
    let pairs = parse_provide_pairs(text);
    let ghost keys = pair_keys(pair_views(projects@));
    let ghost acc = pairs_view(provides@);
    let mut j: usize = 0;
    assert(pairs@.take(0) =~= Seq::<(String, String)>::empty());
    assert(pairs_view(pairs@.take(0)).restrict(keys).union_prefer_right(acc) =~= acc);
    while j < pairs.len()
        invariant
            j <= pairs@.len(),
            keys == pair_keys(pair_views(projects@)),
            pairs_view(provides@) == pairs_view(pairs@.take(j as int)).restrict(keys).union_prefer_right(acc),
        decreases pairs@.len() - j,
    {
        let ghost k = pairs@[j as int].0@;
        let ghost cur = pairs_view(provides@);
        proof {
            lemma_pairs_step(pairs@, j as int);
        }
        let ghost pj = pairs_view(pairs@.take(j as int));
        let ghost pn = pairs_view(pairs@.take(j + 1));
        let ghost v = pairs@[j as int].1@;
        let known = project_has(projects, pairs[j].0.as_str());
        let present = table_has(provides, pairs[j].0.as_str());
        assert(present == cur.dom().contains(k));
        if known && !present {
            proof {
                lemma_push_new(provides@, pairs@[j as int].0, pairs@[j as int].1);
            }
            provides.push((pairs[j].0.clone(), pairs[j].1.clone()));
            assert(pairs_view(provides@) =~= cur.insert(k, v));
            assert(!pj.dom().contains(k));
            assert(!acc.dom().contains(k));
            assert(pn == pj.insert(k, v));
            assert(pairs_view(provides@) =~= pn.restrict(keys).union_prefer_right(acc));
        } else if !known {
            assert(pn.restrict(keys) =~= pj.restrict(keys));
        } else {
            assert(pn.restrict(keys).union_prefer_right(acc) =~= pj.restrict(keys).union_prefer_right(acc));
        }
        j = j + 1;
    }
    assert(pairs@.take(j as int) =~= pairs@);
}

/// Whether some pair has key `k`.
fn project_has(projects: &Vec<(String, String)>, k: &str) -> (r: bool)
    ensures
        r == pair_keys(pair_views(projects@)).contains(k@),
{
    let ghost t = pair_views(projects@);
    let ks = to_string(k);
    let mut i: usize = 0;
    while i < projects.len()
        invariant
            i <= projects@.len(),
            t == pair_views(projects@),
            ks@ == k@,
            forall|j: int| 0 <= j < i ==> t[j].0 != k@,
        decreases projects@.len() - i,
    {
        if projects[i].0 == ks {
            proof {
                lemma_key_index(t, k@, i as int);
            }
            return true;
        }
        i = i + 1;
    }
    proof {
        lemma_key_index(t, k@, i as int);
    }
    false
}

/// Generates local wrap files that make each cloned repository of a Meson
/// mono-repo reachable under the canonical name of its `project()`.
///
/// `projects` holds each clone's directory name and `meson.build` text;
/// `wrap_files` the texts of the clones' `subprojects/*.wrap` files, in the
/// order they were read. The canonical names, with their directories, come
/// back as a table; for each, in the table's order, `write` is handed the
/// file `<name>.wrap` (of the `repos/` directory) pointing at the directory,
/// with the first `[provide]` line found for that name. Writing stops at the
/// first failed write, whose error is returned.
pub fn hoist_wraps<W: Fn(&str, &str) -> Result<(), String>>(
    projects: &Vec<WrapProject>,
    wrap_files: &Vec<String>,
    io: &mut IoCtx,
    write: W,
) -> (r: Result<Vec<(String, String)>, String>)
    requires
        writes_all(write),
    ensures
        hoist_outcome(write, projects@, wrap_files@, *old(io), *final(io), r),
{
    let mut table: Vec<(String, String)> = Vec::new();
    let mut i: usize = 0;
    assert(projects@.take(0) =~= Seq::<WrapProject>::empty());
    while i < projects.len()
        invariant
            i <= projects@.len(),
            pair_views(table@) == project_table(projects@.take(i as int)),
        decreases projects@.len() - i,
    {
        assert(projects@.take(i + 1).drop_last() =~= projects@.take(i as int));
        match &projects[i].meson_build {
            Some(c) => match parse_project_name(c.as_str()) {
                Some(n) => {
                    pair_set(&mut table, n, projects[i].dir_name.clone());
                },
                None => {},
            },
            None => {},
        }
        i = i + 1;
    }
    assert(projects@.take(i as int) =~= projects@);
    let ghost t = pair_views(table@);
    let ghost files = wrap_files@.map_values(|s: String| s@);
    let ghost keys = pair_keys(t);
    let mut provides: Vec<(String, String)> = Vec::new();
    let mut f: usize = 0;
    assert(pairs_view(provides@) =~= provides_of(keys, files.take(0)));
    while f < wrap_files.len()
        invariant
            f <= wrap_files@.len(),
            t == pair_views(table@),
            keys == pair_keys(t),
            files == wrap_files@.map_values(|s: String| s@),
            pairs_view(provides@) == provides_of(keys, files.take(f as int)),
        decreases wrap_files@.len() - f,
    {
        add_provides(&mut provides, &table, wrap_files[f].as_str());
        assert(files.take(f + 1).drop_last() =~= files.take(f as int));
        f = f + 1;
    }
    assert(files.take(f as int) =~= files);
    let ghost prov = pairs_view(provides@);
    let mut k: usize = 0;
    assert(io.output@ =~= old(io).output@ + hoisted_lines(t, 0));
    while k < table.len()
        invariant
            k <= table@.len(),
            t == pair_views(table@),
            t == project_table(projects@),
            files == wrap_files@.map_values(|s: String| s@),
            prov == pairs_view(provides@),
            prov == provides_of(keys, files),
            keys == pair_keys(t),
            writes_all(write),
            forall|i: int| 0 <= i < k ==> #[trigger] wrap_written(write, t, prov, i, Ok(())),
            io.wrote(old(io), hoisted_lines(t, k as nat)),
        decreases table@.len() - k,
    {
        let name = table[k].0.as_str();
        let dir = table[k].1.as_str();
        assert(name@ == t[k as int].0);
        assert(dir@ == t[k as int].1);
        let mut content = to_string("[wrap-file]\ndirectory = ");
        push_str(&mut content, dir);
        match table_get(&provides, name) {
            Some(dep) => {
                assert(provided(prov, t[k as int].0) == Some(dep@));
                push_str(&mut content, "\n\n[provide]\n");
                push_str(&mut content, name);
                push_str(&mut content, " = ");
                push_str(&mut content, dep.as_str());
                push_str(&mut content, "\n");
            },
            None => {
                assert(provided(prov, t[k as int].0) is None);
                push_str(&mut content, "\n");
            },
        }
        assert(content@ =~= wrap_text(t[k as int].0, t[k as int].1, provided(prov, t[k as int].0)));
        let file = cat3(name, ".wrap", "");
        proof {
            reveal_strlit("");
        }
        assert(file@ =~= t[k as int].0 + ".wrap"@);
        let w = write(file.as_str(), content.as_str());
        assert(wrap_written(write, t, prov, k as int, w));
        match &w {
            Err(e) => {
                let e2 = e.clone();
                assert(w == Err::<(), String>(e2));
                assert(wrap_written(write, t, prov, k as int, Err(e2)));
                assert(io.wrote(old(io), hoisted_lines(t, k as nat)));
                return Err(e2);
            },
            Ok(u) => {
                assert(w == Ok::<(), String>(()));
            },
        }
        io.write("  Generated wrap: ");
        io.write(name);
        io.write(".wrap -> ");
        io.write(dir);
        io.write("\n");
        k = k + 1;
        assert(io.output@ =~= old(io).output@ + hoisted_lines(t, k as nat));
    }
    Ok(table)
}

} // verus!
