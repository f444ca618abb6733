//! Repository names: normalising user input to `username/repo`, the
//! directory a repository is cloned into, and the repository lists of
//! mono-repo mode.
use vstd::prelude::*;
use crate::cli::ResolvedArgs;
use crate::config::{get_profile, Profile, SetupConfig};
use crate::ctx::IoCtx;
use crate::profile::{list_profiles, list_profiles_text};
use crate::text::{
    cat3, chars_contain, chars_of, chars_start_with, clone_strings, contains_seq, ends_with,
    starts_with, string_of, trim_end_char, trim_end_len,
};

verus! {

/// Index of the last `c` in `s`, or -1.
pub open spec fn last_index(s: Seq<char>, c: char) -> int
    decreases s.len(),
{
    if s.len() == 0 {
        -1
    } else if s.last() == c {
        s.len() - 1
    } else {
        last_index(s.drop_last(), c)
    }
}

/// What follows the last `c` in `s` (all of `s` when there is none).
pub open spec fn after_last(s: Seq<char>, c: char) -> Seq<char> {
    s.skip(last_index(s, c) + 1)
}

/// `s` with every trailing copy of `suf` removed.
pub open spec fn trim_suffix_all(s: Seq<char>, suf: Seq<char>) -> Seq<char>
    decreases s.len(),
{
    if suf.len() > 0 && ends_with(s, suf) {
        trim_suffix_all(s.take(s.len() - suf.len()), suf)
    } else {
        s
    }
}

/// The error for a URL that is not a GitHub URL.
pub open spec fn bad_url_msg() -> Seq<char> {
    "Could not parse repository URL"@
}

/// The error for a URL without a repository part.
pub open spec fn url_no_repo_msg() -> Seq<char> {
    "Repository URL missing repository name"@
}

/// The error for input that is neither a URL nor `username/repo`.
pub open spec fn not_user_repo_msg() -> Seq<char> {
    "Repository must be in format 'username/repo' for mono-repo mode"@
}

/// Input that is read as a URL.
pub open spec fn is_url(s: Seq<char>) -> bool {
    starts_with(s, "http"@) || starts_with(s, "git@"@)
}

/// A URL that names a GitHub repository.
pub open spec fn is_github(s: Seq<char>) -> bool {
    contains_seq(s, "github.com/"@) || contains_seq(s, "github.com:"@)
}

/// The `username/repo` form of repository input, or the error for it.
pub open spec fn test_repo_of(input: Seq<char>) -> Result<Seq<char>, Seq<char>> {
    let s = trim_end_char(input, '/');
    if is_url(s) {
        if is_github(s) {
            let i = last_index(s, '/');
            if i < 0 {
                Err(url_no_repo_msg())
            } else {
                let user = after_last(after_last(s.take(i), '/'), ':');
                let repo = trim_suffix_all(s.skip(i + 1), ".git"@);
                Ok(user + "/"@ + repo)
            }
        } else {
            Err(bad_url_msg())
        }
    } else if contains_seq(s, "/"@) {
        Ok(s)
    } else {
        Err(not_user_repo_msg())
    }
}

/// The directory a repository is cloned into: its last path component,
/// without a trailing `/` and without `.git` suffixes.
pub open spec fn dir_name_of(repo: Seq<char>) -> Seq<char> {
    let s = trim_end_char(repo, '/');
    trim_suffix_all(after_last(after_last(s, '/'), ':'), ".git"@)
}

/// Index of the last `c` among the first `n` characters of `v`.
pub fn find_last(v: &Vec<char>, n: usize, c: char) -> (r: Option<usize>)
    requires
        n <= v@.len(),
    ensures
        match r {
            Some(i) => i < n && i == last_index(v@.take(n as int), c),
            None => last_index(v@.take(n as int), c) == -1,
        },
{
    let mut j = n;
    while j > 0
        invariant
            j <= n <= v@.len(),
            last_index(v@.take(n as int), c) == last_index(v@.take(j as int), c),
        decreases j,
    {
        assert(v@.take(j as int).drop_last() =~= v@.take(j - 1));
        if v[j - 1] == c {
            return Some(j - 1);
        }
        j = j - 1;
    }
    None
}

/// Start of what follows the last `c` in `v[from..to]`.
fn after_last_start(v: &Vec<char>, from: usize, to: usize, c: char) -> (r: usize)
    requires
        from <= to <= v@.len(),
    ensures
        from <= r <= to,
        v@.subrange(r as int, to as int) == after_last(v@.subrange(from as int, to as int), c),
{
    let ghost s = v@.subrange(from as int, to as int);
    let mut j = to;
    assert(s.take((to - from) as int) =~= s);
    while j > from
        invariant
            from <= j <= to <= v@.len(),
            s == v@.subrange(from as int, to as int),
            last_index(s, c) == last_index(s.take(j - from), c),
        decreases j,
    {
        assert(s.take(j - from).drop_last() =~= s.take(j - from - 1));
        if v[j - 1] == c {
            assert(s.take(j - from).last() == c);
            assert(v@.subrange(j as int, to as int) =~= s.skip(j - from));
            return j;
        }
        j = j - 1;
    }
    assert(v@.subrange(from as int, to as int) =~= s.skip(0));
    from
}

/// End of `v[from..to]` once every trailing `.git` is removed.
fn trim_git_end(v: &Vec<char>, from: usize, to: usize) -> (r: usize)
    requires
        from <= to <= v@.len(),
    ensures
        from <= r <= to,
        v@.subrange(from as int, r as int) == trim_suffix_all(v@.subrange(from as int, to as int), ".git"@),
{
    proof { reveal_strlit(".git"); }
    let mut j = to;
    while j - from >= 4 && v[j - 4] == '.' && v[j - 3] == 'g' && v[j - 2] == 'i' && v[j - 1] == 't'
        invariant
            from <= j <= to <= v@.len(),
            trim_suffix_all(v@.subrange(from as int, to as int), ".git"@) == trim_suffix_all(v@.subrange(from as int, j as int), ".git"@),
        decreases j,
    {
        let ghost s = v@.subrange(from as int, j as int);
        proof {
            reveal_strlit(".git");
        }
        assert(s.skip(s.len() - 4) =~= ".git"@);
        assert(s.take(s.len() - 4) =~= v@.subrange(from as int, j - 4));
        j = j - 4;
    }
    proof {
        let s = v@.subrange(from as int, j as int);
        if s.len() >= 4 && ends_with(s, ".git"@) {
            assert(s.skip(s.len() - 4)[0] == v@[j - 4]);
            assert(s.skip(s.len() - 4)[1] == v@[j - 3]);
            assert(s.skip(s.len() - 4)[2] == v@[j - 2]);
            assert(s.skip(s.len() - 4)[3] == v@[j - 1]);
        }
    }
    j
}

/// Normalises repository input to `username/repo`: a GitHub URL (HTTPS or
/// SSH) is reduced to its owner and repository, `username/repo` is kept.
pub fn resolve_test_repo(repo_input: &str) -> (r: Result<String, String>)
    ensures
        match test_repo_of(repo_input@) {
            Ok(s) => r matches Ok(v) && v@ == s,
            Err(e) => r matches Err(v) && v@ == e,
        },
{
    let all = chars_of(repo_input);
    let n = trim_end_len(&all, '/');
    let s = string_of(&all, 0, n);
    let v = chars_of(s.as_str());
    assert(v@ == trim_end_char(repo_input@, '/'));
    if chars_start_with(&v, "http") || chars_start_with(&v, "git@") {
        if chars_contain(&v, "github.com/") || chars_contain(&v, "github.com:") {
            let found = find_last(&v, v.len(), '/');
            assert(v@.take(v@.len() as int) =~= v@);
            let i = match found {
                None => return Err(to_str("Repository URL missing repository name")),
                Some(i) => i,
            };
            let u0 = after_last_start(&v, 0, i, '/');
            assert(v@.subrange(0, i as int) =~= v@.take(i as int));
            let u1 = after_last_start(&v, u0, i, ':');
            let end = trim_git_end(&v, i + 1, v.len());
            assert(v@.subrange(i + 1, v@.len() as int) =~= v@.skip(i + 1));
            let mut out = string_of(&v, u1, i);
            out.append("/");
            let repo = string_of(&v, i + 1, end);
            out.append(repo.as_str());
            Ok(out)
        } else {
            Err(to_str("Could not parse repository URL"))
        }
    } else if chars_contain(&v, "/") {
        Ok(s)
    } else {
        Err(to_str("Repository must be in format 'username/repo' for mono-repo mode"))
    }
}

fn to_str(s: &str) -> (r: String)
    ensures
        r@ == s@,
{
    s.to_owned()
}

/// The directory a repository is cloned into: the last component of its
/// name or URL, without `.git`.
pub fn repo_dir_name(repo: &str) -> (r: String)
    ensures
        r@ == dir_name_of(repo@),
{
    let all = chars_of(repo);
    let n = trim_end_len(&all, '/');
    let ghost s = trim_end_char(repo@, '/');
    assert(all@.subrange(0, n as int) =~= s);
    let a = after_last_start(&all, 0, n, '/');
    let b = after_last_start(&all, a, n, ':');
    let e = trim_git_end(&all, b, n);
    string_of(&all, b, e)
}

/// The repositories of a mono-repo with duplicates dropped: of the entries
/// with the same directory name, the first is kept.
pub open spec fn dedup_dirs(s: Seq<String>) -> Seq<String>
    decreases s.len(),
{
    if s.len() == 0 {
        seq![]
    } else {
        let d = dedup_dirs(s.drop_last());
        if exists|j: int| 0 <= j < d.len() && #[trigger] dir_name_of(d[j]@) == dir_name_of(s.last()@) {
            d
        } else {
            d.push(s.last())
        }
    }
}

/// `seen` holds the directory names of `out`, in order.
pub open spec fn names_of(out: Seq<String>, seen: Seq<String>) -> bool {
    &&& seen.len() == out.len()
    &&& forall|j: int| 0 <= j < out.len() ==> #[trigger] seen[j]@ == dir_name_of(out[j]@)
}

/// Appends `item` to a deduplicated list unless its directory name is taken.
fn push_unique(out: &mut Vec<String>, seen: &mut Vec<String>, item: &String, Ghost(prefix): Ghost<Seq<String>>)
    requires
        old(out)@ == dedup_dirs(prefix),
        names_of(old(out)@, old(seen)@),
    ensures
        final(out)@ == dedup_dirs(prefix.push(*item)),
        names_of(final(out)@, final(seen)@),
{
    let d = repo_dir_name(item.as_str());
    let mut k: usize = 0;
    let mut dup = false;
    while k < seen.len()
        invariant
            k <= seen@.len(),
            names_of(out@, seen@),
            dup == exists|j: int| 0 <= j < k && #[trigger] dir_name_of(out@[j]@) == d@,
        decreases seen@.len() - k,
    {
        if seen[k] == d {
            dup = true;
        }
        proof {
            if seen@[k as int]@ == d@ {
                assert(dir_name_of(out@[k as int]@) == d@);
            }
            if dup && !(exists|j: int| 0 <= j < k && #[trigger] dir_name_of(out@[j]@) == d@) {
                assert(dir_name_of(out@[k as int]@) == d@);
            }
        }
        k = k + 1;
    }
    assert(prefix.push(*item).drop_last() =~= prefix);
    if !dup {
        out.push(item.clone());
        seen.push(d);
    }
}

/// Builds the ordered list of repositories of a mono-repo: the test
/// repositories, then the dependencies, without two entries that share a
/// directory name (the first is kept).
pub fn build_repo_list(test_repos: &Vec<String>, deps: &Vec<String>) -> (r: Vec<String>)
    ensures
        r@ == dedup_dirs(test_repos@ + deps@),
{
    let mut out: Vec<String> = Vec::new();
    let mut seen: Vec<String> = Vec::new();
    let mut i: usize = 0;
    assert(test_repos@.take(0) =~= Seq::<String>::empty());
    while i < test_repos.len()
        invariant
            i <= test_repos@.len(),
            out@ == dedup_dirs(test_repos@.take(i as int)),
            names_of(out@, seen@),
        decreases test_repos@.len() - i,
    {
        assert(test_repos@.take(i as int).push(test_repos@[i as int]) =~= test_repos@.take(i + 1));
        push_unique(&mut out, &mut seen, &test_repos[i], Ghost(test_repos@.take(i as int)));
        i = i + 1;
    }
    let mut j: usize = 0;
    assert(test_repos@ + deps@.take(0) =~= test_repos@.take(i as int));
    while j < deps.len()
        invariant
            j <= deps@.len(),
            out@ == dedup_dirs(test_repos@ + deps@.take(j as int)),
            names_of(out@, seen@),
        decreases deps@.len() - j,
    {
        assert((test_repos@ + deps@.take(j as int)).push(deps@[j as int]) =~= test_repos@ + deps@.take(j + 1));
        push_unique(&mut out, &mut seen, &deps[j], Ghost(test_repos@ + deps@.take(j as int)));
        j = j + 1;
    }
    assert(deps@.take(j as int) =~= deps@);
    out
}

/// The error given when no repository is named.
pub open spec fn no_repo_msg() -> Seq<char> {
    "No repository specified"@
}

/// The repository named on the command line, without trailing `/`.
pub fn extract_repo_input(args: &ResolvedArgs) -> (r: Result<String, String>)
    ensures
        match args.repo {
            Some(s) => r matches Ok(v) && v@ == trim_end_char(s@, '/'),
            None => r matches Err(e) && e@ == no_repo_msg(),
        },
{
    match &args.repo {
        Some(s) => {
            let all = chars_of(s.as_str());
            let n = trim_end_len(&all, '/');
            Ok(string_of(&all, 0, n))
        },
        None => Err(to_str("No repository specified")),
    }
}

/// The error given for an unknown profile.
pub open spec fn profile_unknown_msg(name: Seq<char>) -> Seq<char> {
    "Profile '"@ + name + "' not found"@
}

/// The profile that mono-repo mode uses, if one is requested; for an unknown
/// name the saved profiles are listed and an error is given.
pub fn resolve_profile<'a>(args: &ResolvedArgs, config: &'a SetupConfig, io: &mut IoCtx) -> (r: Result<Option<&'a Profile>, String>)
    ensures
        match args.mono.profile {
            None => r == Ok::<Option<&'a Profile>, String>(None) && *final(io) == *old(io),
            Some(name) => if config.profile_map().dom().contains(name@) {
                &&& r matches Ok(Some(p)) && *p == config.profile_map()[name@]
                &&& *final(io) == *old(io)
            } else {
                &&& r matches Err(e) && e@ == profile_unknown_msg(name@)
                &&& final(io).wrote(old(io), list_profiles_text(*config))
            },
        },
{
    match &args.mono.profile {
        None => Ok(None),
        Some(name) => match get_profile(config, name.as_str()) {
            Some(p) => Ok(Some(p)),
            None => {
                list_profiles(config, io);
                Err(cat3("Profile '", name.as_str(), "' not found"))
            },
        },
    }
}

/// The test repository of mono-repo mode: the one on the command line,
/// normalised, else the profile's.
pub fn resolve_test_repo_for_mono(args: &ResolvedArgs, profile: Option<&Profile>) -> (r: Result<String, String>)
    ensures
        match args.repo {
            Some(s) => match test_repo_of(trim_end_char(s@, '/')) {
                Ok(t) => r matches Ok(v) && v@ == t,
                Err(e) => r matches Err(v) && v@ == e,
            },
            None => match profile {
                Some(p) => match p.test_repo {
                    Some(t) => r matches Ok(v) && v == t,
                    None => r matches Err(e) && e@ == no_repo_msg(),
                },
                None => r matches Err(e) && e@ == no_repo_msg(),
            },
        },
{
    match &args.repo {
        Some(r) => {
            let all = chars_of(r.as_str());
            let n = trim_end_len(&all, '/');
            let s = string_of(&all, 0, n);
            resolve_test_repo(s.as_str())
        },
        None => match profile {
            Some(p) => match &p.test_repo {
                Some(t) => Ok(t.clone()),
                None => Err(to_str("No repository specified")),
            },
            None => Err(to_str("No repository specified")),
        },
    }
}

/// The dependencies of mono-repo mode: the profile's, else those on the
/// command line, else none.
pub fn resolve_repos_for_mono(args: &ResolvedArgs, profile: Option<&Profile>) -> (r: Vec<String>)
    ensures
        r@ == match profile {
            Some(p) => p.deps@,
            None => match args.mono.repos {
                Some(v) => v@,
                None => Seq::empty(),
            },
        },
{
    match profile {
        Some(p) => clone_strings(&p.deps),
        None => match &args.mono.repos {
            Some(v) => clone_strings(v),
            None => Vec::new(),
        },
    }
}


/// The URL that clones `repo`: a URL as it is, else `username/repo` on
/// GitHub over SSH or HTTPS.
pub open spec fn clone_url_of(repo: Seq<char>, ssh: bool) -> Seq<char> {
    if is_url(repo) {
        repo
    } else if ssh {
        "git@github.com:"@ + repo + ".git"@
    } else {
        "https://github.com/"@ + repo + ".git"@
    }
}

/// The URL that clones `repo`.
pub fn clone_url(repo: &str, ssh: bool) -> (r: String)
    ensures
        r@ == clone_url_of(repo@, ssh),
{
    let v = chars_of(repo);
    if chars_start_with(&v, "http") || chars_start_with(&v, "git@") {
        to_str(repo)
    } else if ssh {
        cat3("git@github.com:", repo, ".git")
    } else {
        cat3("https://github.com/", repo, ".git")
    }
}

/// How a repository is brought into its directory.
#[derive(Debug, PartialEq, Eq)]
pub enum Fetch {
    /// Clone it from this URL.
    Clone(String),
    /// Pull the existing clone.
    Pull,
    /// Leave the existing clone as it is.
    Skip,
}

/// Decides how to bring `repo` into its directory: clone it when the
/// directory does not exist, else pull when `update` is set, else skip.
pub fn fetch_plan(repo: &str, ssh: bool, dir_exists: bool, update: bool) -> (r: Fetch)
    ensures
        match r {
            Fetch::Clone(u) => !dir_exists && u@ == clone_url_of(repo@, ssh),
            Fetch::Pull => dir_exists && update,
            Fetch::Skip => dir_exists && !update,
        },
{
    if !dir_exists {
        Fetch::Clone(clone_url(repo, ssh))
    } else if update {
        Fetch::Pull
    } else {
        Fetch::Skip
    }
}

} // verus!
