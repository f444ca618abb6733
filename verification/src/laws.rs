//! Properties of the library as a whole, each proved from the contracts of
//! the functions it speaks of.
use vstd::prelude::*;
use crate::cli::bool_choice;
use crate::config::{
    add_config_outcome, applied, remove_config_outcome, ConfigChange, ConfigEntry, Profile, SetupConfig,
};
use crate::ctx::{IoCtx, RunFlags};
use crate::hoist::{project_of, project_table, set_pair, WrapProject};
use crate::profile::{add_profile_outcome, remove_profile_outcome};
use crate::repo::{after_last, dedup_dirs, dir_name_of, last_index, trim_suffix_all};
use crate::text::{ends_with, is_ws, split_state, trim_end_char, words};
use crate::wraps::project_name_of;

verus! {

/// In dry-run mode, adding a configuration entry leaves the configuration as it was.
pub proof fn add_config_dry_run_keeps_config<S: FnOnce(&SetupConfig) -> Result<String, String>>(
    save: S, old_cfg: SetupConfig, new_cfg: SetupConfig, name: Seq<char>, entry: ConfigEntry, yes: bool,
    flags: RunFlags, old_io: IoCtx, new_io: IoCtx, r: Result<(), String>,
)
    requires
        add_config_outcome(save, old_cfg, new_cfg, name, entry, yes, flags, old_io, new_io, r),
        flags.dry_run,
    ensures
        new_cfg == old_cfg,
{
}

/// In dry-run mode, removing a configuration entry leaves the configuration as it was.
pub proof fn remove_config_dry_run_keeps_config<S: FnOnce(&SetupConfig) -> Result<String, String>>(
    save: S, old_cfg: SetupConfig, new_cfg: SetupConfig, name: Seq<char>, yes: bool,
    flags: RunFlags, old_io: IoCtx, new_io: IoCtx, r: Result<(), String>,
)
    requires
        remove_config_outcome(save, old_cfg, new_cfg, name, yes, flags, old_io, new_io, r),
        flags.dry_run,
    ensures
        new_cfg == old_cfg,
{
}

/// In dry-run mode, adding a profile leaves the configuration as it was.
pub proof fn add_profile_dry_run_keeps_config<S: FnOnce(&SetupConfig) -> Result<String, String>>(
    save: S, old_cfg: SetupConfig, new_cfg: SetupConfig, name: Seq<char>, profile: Profile, yes: bool,
    flags: RunFlags, old_io: IoCtx, new_io: IoCtx, r: Result<(), String>,
)
    requires
        add_profile_outcome(save, old_cfg, new_cfg, name, profile, yes, flags, old_io, new_io, r),
        flags.dry_run,
    ensures
        new_cfg == old_cfg,
{
}

/// In dry-run mode, removing a profile leaves the configuration as it was.
pub proof fn remove_profile_dry_run_keeps_config<S: FnOnce(&SetupConfig) -> Result<String, String>>(
    save: S, old_cfg: SetupConfig, new_cfg: SetupConfig, name: Seq<char>, yes: bool,
    flags: RunFlags, old_io: IoCtx, new_io: IoCtx, r: Result<(), String>,
)
    requires
        remove_profile_outcome(save, old_cfg, new_cfg, name, yes, flags, old_io, new_io, r),
        flags.dry_run,
    ensures
        new_cfg == old_cfg,
{
}

/// Adding an entry under a name that is taken, when the overwrite is asked
/// about and not confirmed, leaves the configuration as it was and reads
/// exactly the one answer.
pub proof fn declined_overwrite_keeps_config<S: FnOnce(&SetupConfig) -> Result<String, String>>(
    save: S, old_cfg: SetupConfig, new_cfg: SetupConfig, name: Seq<char>, entry: ConfigEntry,
    flags: RunFlags, old_io: IoCtx, new_io: IoCtx, r: Result<(), String>,
)
    requires
        add_config_outcome(save, old_cfg, new_cfg, name, entry, false, flags, old_io, new_io, r),
        old_cfg.config_map().dom().contains(name),
        old_io.pending().len() > 0,
        !crate::prompts::is_yes(crate::prompts::answer(old_io.pending()[0])),
    ensures
        new_cfg == old_cfg,
        r == Ok::<(), String>(()),
        new_io.pending() == old_io.pending().skip(1),
{
}

/// Setting an entry under a new name and then dropping that name gives back
/// the configurations there were.
pub proof fn insert_then_remove_config_restores(old: SetupConfig, mid: SetupConfig, new: SetupConfig, name: String, entry: ConfigEntry)
    requires
        !old.config_map().dom().contains(name@),
        applied(old, ConfigChange::InsertConfig(name, entry), mid),
        applied(mid, ConfigChange::RemoveConfig(name), new),
    ensures
        new.config_map() == old.config_map(),
        new.profiles == old.profiles,
{
    assert(new.config_map() =~= old.config_map());
}

/// Setting a profile under a new name and then dropping that name gives back
/// the profiles there were.
pub proof fn insert_then_remove_profile_restores(old: SetupConfig, mid: SetupConfig, new: SetupConfig, name: String, profile: Profile)
    requires
        !old.profile_map().dom().contains(name@),
        applied(old, ConfigChange::InsertProfile(name, profile), mid),
        applied(mid, ConfigChange::RemoveProfile(name), new),
    ensures
        new.profile_map() == old.profile_map(),
        new.configs == old.configs,
{
    assert(new.profile_map() =~= old.profile_map());
}

/// After setting an entry, looking its name up gives that entry, and every
/// other name gives what it gave before.
pub proof fn insert_config_then_lookup(old: SetupConfig, new: SetupConfig, name: String, entry: ConfigEntry, other: Seq<char>)
    requires
        applied(old, ConfigChange::InsertConfig(name, entry), new),
        other != name@,
    ensures
        new.config_map().dom().contains(name@),
        new.config_map()[name@] == entry,
        new.config_map().dom().contains(other) == old.config_map().dom().contains(other),
        old.config_map().dom().contains(other) ==> new.config_map()[other] == old.config_map()[other],
{
}

/// Setting an entry twice under the same name keeps the second.
pub proof fn later_config_wins(old: SetupConfig, mid: SetupConfig, new: SetupConfig, name: String, first: ConfigEntry, second: ConfigEntry)
    requires
        applied(old, ConfigChange::InsertConfig(name, first), mid),
        applied(mid, ConfigChange::InsertConfig(name, second), new),
    ensures
        new.config_map() == old.config_map().insert(name@, second),
{
    assert(new.config_map() =~= old.config_map().insert(name@, second));
}

/// After dropping a name, it is not found.
pub proof fn removed_config_is_gone(old: SetupConfig, new: SetupConfig, name: String)
    requires
        applied(old, ConfigChange::RemoveConfig(name), new),
    ensures
        !new.config_map().dom().contains(name@),
{
}

/// A flag's negative form wins over everything; then its positive form wins
/// over the configuration; then the configuration over the default.
pub proof fn flag_priority(positive: bool, negative: bool, config: Option<bool>, default: bool)
    ensures
        negative ==> !bool_choice(positive, negative, config, default),
        !negative && positive ==> bool_choice(positive, negative, config, default),
        !negative && !positive && config is Some ==> bool_choice(positive, negative, config, default) == config->0,
        !negative && !positive && config is None ==> bool_choice(positive, negative, config, default) == default,
{
}

/// The repositories of a mono-repo never share a directory name; every
/// repository asked for has its directory among them; each of them was asked
/// for; and the first asked for (the test repository) comes first.
pub proof fn repo_list_dirs_unique(s: Seq<String>)
    ensures
        forall|i: int, j: int| 0 <= i < j < dedup_dirs(s).len() ==>
            dir_name_of(#[trigger] dedup_dirs(s)[i]@) != dir_name_of(#[trigger] dedup_dirs(s)[j]@),
        forall|k: int| 0 <= k < s.len() ==> exists|i: int| 0 <= i < dedup_dirs(s).len()
            && dir_name_of(#[trigger] dedup_dirs(s)[i]@) == dir_name_of(#[trigger] s[k]@),
        forall|i: int| 0 <= i < dedup_dirs(s).len() ==> s.contains(#[trigger] dedup_dirs(s)[i]),
        s.len() > 0 ==> dedup_dirs(s).len() > 0 && dedup_dirs(s)[0] == s[0],
    decreases s.len(),
{
    if s.len() > 0 {
        let p = s.drop_last();
        repo_list_dirs_unique(p);
        let d = dedup_dirs(p);
        let x = s.last();
        assert forall|k: int| 0 <= k < s.len() implies exists|i: int| 0 <= i < dedup_dirs(s).len()
            && dir_name_of(#[trigger] dedup_dirs(s)[i]@) == dir_name_of(#[trigger] s[k]@) by {
            if k < s.len() - 1 {
                assert(s[k] == p[k]);
                let i = choose|i: int| 0 <= i < d.len() && dir_name_of(#[trigger] d[i]@) == dir_name_of(#[trigger] p[k]@);
                assert(dedup_dirs(s)[i] == d[i]);
            } else {
                if exists|j: int| 0 <= j < d.len() && #[trigger] dir_name_of(d[j]@) == dir_name_of(x@) {
                    let j = choose|j: int| 0 <= j < d.len() && #[trigger] dir_name_of(d[j]@) == dir_name_of(x@);
                    assert(dedup_dirs(s)[j] == d[j]);
                } else {
                    assert(dedup_dirs(s)[d.len() as int] == x);
                }
            }
        }
        assert forall|i: int| 0 <= i < dedup_dirs(s).len() implies s.contains(#[trigger] dedup_dirs(s)[i]) by {
            if i < d.len() {
                assert(p.contains(d[i]));
                let j = choose|j: int| 0 <= j < p.len() && p[j] == d[i];
                assert(s[j] == p[j]);
            } else {
                assert(s[s.len() - 1] == x);
            }
        }
        if p.len() == 0 {
            assert(d.len() == 0);
            assert(dedup_dirs(s) =~= seq![x]);
        } else {
            assert(p[0] == s[0]);
        }
    }
}

/// Every word of a split is non-empty and holds no whitespace.
pub proof fn words_are_nonblank(s: Seq<char>)
    ensures
        forall|i: int| 0 <= i < words(s).len() ==> (#[trigger] words(s)[i]).len() > 0,
        forall|i: int, j: int| 0 <= i < words(s).len() && 0 <= j < words(s)[i].len() ==> !is_ws(#[trigger] words(s)[i][j]),
{
    lemma_words(s);
}

/// The state of a split: finished words are non-empty and hold no
/// whitespace, and neither does the word being read.
proof fn lemma_split_state(s: Seq<char>)
    ensures
        forall|i: int| 0 <= i < split_state(s).0.len() ==> (#[trigger] split_state(s).0[i]).len() > 0,
        forall|i: int, j: int| 0 <= i < split_state(s).0.len() && 0 <= j < split_state(s).0[i].len() ==> !is_ws(#[trigger] split_state(s).0[i][j]),
        forall|j: int| 0 <= j < split_state(s).1.len() ==> !is_ws(#[trigger] split_state(s).1[j]),
    decreases s.len(),
{
    if s.len() > 0 {
        let p = s.drop_last();
        lemma_split_state(p);
        let st = split_state(p);
        let c = s.last();
        let now = split_state(s);
        if is_ws(c) {
            if st.1.len() > 0 {
                assert(now.0 == st.0.push(st.1));
                assert forall|i: int| 0 <= i < now.0.len() implies (#[trigger] now.0[i]).len() > 0 by {
                    if i < st.0.len() {
                        assert(now.0[i] == st.0[i]);
                    }
                }
                assert forall|i: int, j: int| 0 <= i < now.0.len() && 0 <= j < now.0[i].len() implies !is_ws(#[trigger] now.0[i][j]) by {
                    if i < st.0.len() {
                        assert(now.0[i] == st.0[i]);
                    } else {
                        assert(now.0[i] == st.1);
                    }
                }
            }
        } else {
            assert(now.1 == st.1.push(c));
            assert forall|j: int| 0 <= j < now.1.len() implies !is_ws(#[trigger] now.1[j]) by {
                if j < st.1.len() {
                    assert(now.1[j] == st.1[j]);
                }
            }
        }
    }
}

/// Every word of a split is non-empty and holds no whitespace (the last word too).
proof fn lemma_words(s: Seq<char>)
    ensures
        forall|i: int| 0 <= i < words(s).len() ==> (#[trigger] words(s)[i]).len() > 0,
        forall|i: int, j: int| 0 <= i < words(s).len() && 0 <= j < words(s)[i].len() ==> !is_ws(#[trigger] words(s)[i][j]),
{
    lemma_split_state(s);
    let st = split_state(s);
    if st.1.len() > 0 {
        assert(words(s) == st.0.push(st.1));
        assert forall|i: int| 0 <= i < words(s).len() implies (#[trigger] words(s)[i]).len() > 0 by {
            if i < st.0.len() {
                assert(words(s)[i] == st.0[i]);
            }
        }
        assert forall|i: int, j: int| 0 <= i < words(s).len() && 0 <= j < words(s)[i].len() implies !is_ws(#[trigger] words(s)[i][j]) by {
            if i < st.0.len() {
                assert(words(s)[i] == st.0[i]);
            } else {
                assert(words(s)[i] == st.1);
            }
        }
    }
}

/// A project name read from a `meson.build` holds no `-`.
pub proof fn project_names_have_no_dash(content: Seq<char>)
    ensures
        project_name_of(content) matches Some(n) ==> forall|i: int| 0 <= i < n.len() ==> #[trigger] n[i] != '-',
{
}

/// Setting a pair keeps the keys of a list of pairs distinct.
proof fn lemma_set_pair_unique(t: Seq<(Seq<char>, Seq<char>)>, k: Seq<char>, v: Seq<char>)
    requires
        forall|i: int, j: int| 0 <= i < j < t.len() ==> (#[trigger] t[i]).0 != (#[trigger] t[j]).0,
    ensures
        forall|i: int, j: int| 0 <= i < j < set_pair(t, k, v).len() ==> (#[trigger] set_pair(t, k, v)[i]).0 != (#[trigger] set_pair(t, k, v)[j]).0,
{
    crate::hoist::lemma_key_index_bound(t, k);
}

/// The hoisted project names are distinct: each gets one wrap file.
pub proof fn hoisted_names_unique(ps: Seq<WrapProject>)
    ensures
        forall|i: int, j: int| 0 <= i < j < project_table(ps).len() ==> (#[trigger] project_table(ps)[i]).0 != (#[trigger] project_table(ps)[j]).0,
    decreases ps.len(),
{
    if ps.len() > 0 {
        hoisted_names_unique(ps.drop_last());
        match project_of(ps.last()) {
            Some(n) => lemma_set_pair_unique(project_table(ps.drop_last()), n, ps.last().dir_name@),
            None => {},
        }
    }
}

/// `last_index` is -1 or the index of the last `c`.
proof fn lemma_last_index(s: Seq<char>, c: char)
    ensures
        -1 <= last_index(s, c) < s.len(),
        last_index(s, c) >= 0 ==> s[last_index(s, c)] == c,
        forall|j: int| last_index(s, c) < j < s.len() ==> #[trigger] s[j] != c,
    decreases s.len(),
{
    if s.len() > 0 && s.last() != c {
        let p = s.drop_last();
        lemma_last_index(p, c);
        assert forall|j: int| last_index(s, c) < j < s.len() implies #[trigger] s[j] != c by {
            if j < p.len() {
                assert(s[j] == p[j]);
            }
        }
    }
}

/// What follows the last `c` holds no `c`; a sequence without `c` is its own.
proof fn lemma_after_last(s: Seq<char>, c: char)
    ensures
        forall|i: int| 0 <= i < after_last(s, c).len() ==> #[trigger] after_last(s, c)[i] != c,
        (forall|i: int| 0 <= i < s.len() ==> s[i] != c) ==> after_last(s, c) == s,
{
    lemma_last_index(s, c);
    let k = last_index(s, c);
    assert forall|i: int| 0 <= i < after_last(s, c).len() implies #[trigger] after_last(s, c)[i] != c by {
        assert(after_last(s, c)[i] == s[k + 1 + i]);
    }
    if forall|i: int| 0 <= i < s.len() ==> s[i] != c {
        assert(k == -1);
        assert(after_last(s, c) =~= s);
    }
}

/// Removing a trailing suffix repeatedly leaves a prefix that does not end with it.
proof fn lemma_trim_suffix_all(s: Seq<char>, suf: Seq<char>)
    requires
        suf.len() > 0,
    ensures
        trim_suffix_all(s, suf).len() <= s.len(),
        trim_suffix_all(s, suf) == s.take(trim_suffix_all(s, suf).len() as int),
        !ends_with(trim_suffix_all(s, suf), suf),
    decreases s.len(),
{
    if ends_with(s, suf) {
        let p = s.take(s.len() - suf.len());
        lemma_trim_suffix_all(p, suf);
        assert(trim_suffix_all(s, suf) == trim_suffix_all(p, suf));
        assert(s.take(trim_suffix_all(s, suf).len() as int) =~= p.take(trim_suffix_all(s, suf).len() as int));
    } else {
        assert(s.take(s.len() as int) =~= s);
    }
}

/// A directory name holds no `/` and no `:`, and does not end with `.git`.
proof fn lemma_dir_name_shape(repo: Seq<char>)
    ensures
        forall|i: int| 0 <= i < dir_name_of(repo).len() ==> #[trigger] dir_name_of(repo)[i] != '/' && dir_name_of(repo)[i] != ':',
        !ends_with(dir_name_of(repo), ".git"@),
{
    let s = trim_end_char(repo, '/');
    let a = after_last(s, '/');
    let b = after_last(a, ':');
    lemma_after_last(s, '/');
    lemma_after_last(a, ':');
    reveal_strlit(".git");
    lemma_trim_suffix_all(b, ".git"@);
    let d = dir_name_of(repo);
    lemma_last_index(a, ':');
    assert forall|i: int| 0 <= i < d.len() implies #[trigger] d[i] != '/' && d[i] != ':' by {
        assert(d[i] == b[i]);
        let off = last_index(a, ':') + 1;
        assert(b[i] == a[off + i]);
        assert(a[off + i] != '/');
    }
}

/// The directory name of a directory name is itself: a name that
/// `repo_dir_name` gives is a fixed point of it.
pub proof fn dir_name_idempotent(repo: Seq<char>)
    ensures
        dir_name_of(dir_name_of(repo)) == dir_name_of(repo),
        forall|i: int| 0 <= i < dir_name_of(repo).len() ==> #[trigger] dir_name_of(repo)[i] != '/',
{
    lemma_dir_name_shape(repo);
    let d = dir_name_of(repo);
    assert(trim_end_char(d, '/') == d) by {
        if d.len() > 0 {
            assert(d.last() != '/');
        }
    }
    lemma_after_last(d, '/');
    lemma_after_last(d, ':');
    reveal_strlit(".git");
    assert(trim_suffix_all(d, ".git"@) == d);
}


} // verus!
