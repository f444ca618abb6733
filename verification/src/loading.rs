//! Choosing the configuration to start from: the first configuration file,
//! among the places searched in order, that could be read and parsed.
use vstd::prelude::*;
use crate::config::SetupConfig;
use crate::ctx::IoCtx;
use crate::text::{dec, push_usize};

verus! {

/// Why a file could not be read.
pub enum ReadFailure {
    /// Permission to read it was denied.
    PermissionDenied,
    /// Another failure, with its message.
    Other(String),
}

/// What was found at one place where a configuration file may be.
pub enum ConfigProbe {
    /// No file is there.
    Missing,
    /// The file could not be read.
    Unreadable(ReadFailure),
    /// The file does not hold a configuration; the parser's message.
    Invalid(String),
    /// The configuration that the file holds.
    Loaded(SetupConfig),
}

/// The message for a file at `path` that could not be read (the verb is `read`).
pub open spec fn read_error_msg(path: Seq<char>, f: ReadFailure) -> Seq<char> {
    match f {
        ReadFailure::PermissionDenied => "Error: No permission to read "@ + path,
        ReadFailure::Other(e) => "An unexpected error occurred: read "@ + path + ": "@ + e@,
    }
}

/// What is reported about the file at `path`.
pub open spec fn probe_text(path: Seq<char>, p: ConfigProbe, verbose: bool) -> Seq<char> {
    match p {
        ConfigProbe::Missing => if verbose { "  Config path not found: "@ + path + "\n"@ } else { Seq::empty() },
        ConfigProbe::Unreadable(f) => "  "@ + read_error_msg(path, f) + "\n"@,
        ConfigProbe::Invalid(e) => "  Warning: Invalid JSON in "@ + path + ": "@ + e@ + "\n"@,
        ConfigProbe::Loaded(_) => if verbose { "  Loaded config from "@ + path + "\n"@ } else { Seq::empty() },
    }
}

/// What is reported about the first `k` places.
pub open spec fn probes_text(locs: Seq<String>, probes: Seq<ConfigProbe>, verbose: bool, k: nat) -> Seq<char>
    decreases k,
{
    if k == 0 {
        seq![]
    } else {
        probes_text(locs, probes, verbose, (k - 1) as nat) + probe_text(locs[k - 1]@, probes[k - 1], verbose)
    }
}

/// How many of the first `k` files could not be used although they exist.
pub open spec fn failures(probes: Seq<ConfigProbe>, k: nat) -> nat
    decreases k,
{
    if k == 0 {
        0
    } else {
        failures(probes, (k - 1) as nat) + match probes[k - 1] {
            ConfigProbe::Unreadable(_) | ConfigProbe::Invalid(_) => 1nat,
            _ => 0nat,
        }
    }
}

/// The index of the first place whose file holds a configuration, or the number of places.
pub open spec fn first_loaded(probes: Seq<ConfigProbe>) -> nat
    decreases probes.len(),
{
    if probes.len() == 0 {
        0
    } else if probes[0] is Loaded {
        0
    } else {
        1 + first_loaded(probes.drop_first())
    }
}

/// The note on the files that had errors.
pub open spec fn failures_text(n: nat) -> Seq<char> {
    if n == 0 {
        Seq::empty()
    } else {
        "  Found "@ + dec(n) + " config file"@ + (if n == 1 { Seq::empty() } else { "s"@ }) + " that had errors\n"@
    }
}

/// The empty line that ends the report in verbose or timing mode.
pub open spec fn closing_text(verbose: bool, timing: bool) -> Seq<char> {
    if verbose || timing { "\n"@ } else { Seq::empty() }
}

/// `first_loaded` is where the first loaded file is, if any.
proof fn lemma_first_loaded(probes: Seq<ConfigProbe>, i: int)
    requires
        0 <= i <= probes.len(),
        forall|j: int| 0 <= j < i ==> !(#[trigger] probes[j] is Loaded),
        i < probes.len() ==> probes[i] is Loaded,
    ensures
        first_loaded(probes) == i,
    decreases i,
{
    if i > 0 {
        assert forall|j: int| 0 <= j < i - 1 implies !(#[trigger] probes.drop_first()[j] is Loaded) by {
            assert(probes.drop_first()[j] == probes[j + 1]);
        }
        lemma_first_loaded(probes.drop_first(), i - 1);
    }
}

/// The place that `first_loaded` gives, when there is one, holds a configuration.
proof fn lemma_first_loaded_is_loaded(probes: Seq<ConfigProbe>)
    ensures
        first_loaded(probes) <= probes.len(),
        first_loaded(probes) < probes.len() ==> probes[first_loaded(probes) as int] is Loaded,
    decreases probes.len(),
{
    if probes.len() > 0 && !(probes[0] is Loaded) {
        lemma_first_loaded_is_loaded(probes.drop_first());
    }
}

/// Reports what was found at `path`; gives whether it is a configuration.
fn report_probe(path: &str, p: &ConfigProbe, verbose: bool, io: &mut IoCtx) -> (loaded: bool)
    ensures
        final(io).wrote(old(io), probe_text(path@, *p, verbose)),
        loaded == (*p is Loaded),
{
    match p {
        ConfigProbe::Missing => {
            if verbose {
                io.write("  Config path not found: ");
                io.write(path);
                io.write("\n");
            }
            assert(io.output@ =~= old(io).output@ + probe_text(path@, *p, verbose));
            false
        },
        ConfigProbe::Unreadable(f) => {
            io.write("  ");
            match f {
                ReadFailure::PermissionDenied => {
                    io.write("Error: No permission to read ");
                    io.write(path);
                },
                ReadFailure::Other(e) => {
                    io.write("An unexpected error occurred: read ");
                    io.write(path);
                    io.write(": ");
                    io.write(e.as_str());
                },
            }
            io.write("\n");
            assert(io.output@ =~= old(io).output@ + probe_text(path@, *p, verbose));
            false
        },
        ConfigProbe::Invalid(e) => {
            io.write("  Warning: Invalid JSON in ");
            io.write(path);
            io.write(": ");
            io.write(e.as_str());
            io.write("\n");
            assert(io.output@ =~= old(io).output@ + probe_text(path@, *p, verbose));
            false
        },
        ConfigProbe::Loaded(_) => {
            if verbose {
                io.write("  Loaded config from ");
                io.write(path);
                io.write("\n");
            }
            assert(io.output@ =~= old(io).output@ + probe_text(path@, *p, verbose));
            true
        },
    }
}

impl ConfigProbe {
    /// 1 for a file that exists but cannot be used, else 0.
    pub fn failure_count(&self) -> (r: usize)
        ensures
            r == match *self {
                ConfigProbe::Unreadable(_) | ConfigProbe::Invalid(_) => 1nat,
                _ => 0nat,
            },
    {
        match self {
            ConfigProbe::Unreadable(_) | ConfigProbe::Invalid(_) => 1,
            _ => 0,
        }
    }
}

/// Reports the places up to the first whose file holds a configuration
/// (included); gives its index (the number of places when there is none) and
/// how many files before it could not be used.
fn scan_probes(locations: &Vec<String>, probes: &Vec<ConfigProbe>, verbose: bool, io: &mut IoCtx) -> (r: (usize, usize))
    requires
        probes@.len() == locations@.len(),
    ensures
        r.0 == first_loaded(probes@),
        r.1 == failures(probes@, r.0 as nat),
        final(io).wrote(old(io), probes_text(locations@, probes@, verbose, if r.0 < probes@.len() { (r.0 + 1) as nat } else { r.0 as nat })),
{
    let mut invalid: usize = 0;
    let mut i: usize = 0;
    assert(io.output@ =~= old(io).output@ + probes_text(locations@, probes@, verbose, 0));
    while i < probes.len()
        invariant
            i <= probes@.len(),
            probes@.len() == locations@.len(),
            invalid == failures(probes@, i as nat),
            invalid <= i,
            forall|j: int| 0 <= j < i ==> !(#[trigger] probes@[j] is Loaded),
            io.wrote(old(io), probes_text(locations@, probes@, verbose, i as nat)),
        decreases probes@.len() - i,
    {
        let loaded = report_probe(locations[i].as_str(), &probes[i], verbose, io);
        assert(io.output@ =~= old(io).output@ + probes_text(locations@, probes@, verbose, (i + 1) as nat));
        if loaded {
            proof {
                lemma_first_loaded(probes@, i as int);
            }
            return (i, invalid);
        }
        invalid = invalid + probes[i].failure_count();
        i = i + 1;
    }
    proof {
        lemma_first_loaded(probes@, i as int);
    }
    (i, invalid)
}

/// Reports how many files had errors, then closes the report.
fn report_failures(invalid: usize, verbose: bool, timing: bool, io: &mut IoCtx)
    ensures
        final(io).wrote(old(io), failures_text(invalid as nat) + closing_text(verbose, timing)),
{
    if invalid != 0 {
        io.write("  Found ");
        let mut n = String::new();
        push_usize(&mut n, invalid);
        io.write_string(&n);
        io.write(" config file");
        if invalid != 1 {
            io.write("s");
        }
        io.write(" that had errors\n");
    }
    let ghost mid = io.output@;
    assert(mid =~= old(io).output@ + failures_text(invalid as nat)) by {
        if invalid == 1 {
            assert(mid =~= old(io).output@ + ("  Found "@ + dec(1) + " config file"@ + Seq::<char>::empty() + " that had errors\n"@));
        }
    }
    if verbose || timing {
        io.write("\n");
    }
    assert(io.output@ =~= old(io).output@ + (failures_text(invalid as nat) + closing_text(verbose, timing)));
}

/// Loads the configuration from the first place, of `locations` in order,
/// whose file could be read and parsed; `probes` says what was found at each
/// place. The configuration remembers the place it came from. When no place
/// has a usable file the configuration is empty. In verbose mode the search
/// is reported; files that exist but cannot be used are always reported, and
/// counted when no configuration is found.
pub fn load_config(locations: &Vec<String>, probes: Vec<ConfigProbe>, verbose: bool, timing: bool, io: &mut IoCtx) -> (r: SetupConfig)
    requires
        probes@.len() == locations@.len(),
    ensures
        ({
            let k = first_loaded(probes@);
            let head = if verbose { "Loading config\n"@ } else { Seq::<char>::empty() };
            if k < probes@.len() {
                &&& probes@[k as int] is Loaded
                &&& r.configs == probes@[k as int]->Loaded_0.configs
                &&& r.profiles == probes@[k as int]->Loaded_0.profiles
                &&& r.path is Some
                &&& r.path->0@ == locations@[k as int]@
                &&& final(io).wrote(old(io), head + probes_text(locations@, probes@, verbose, k + 1) + closing_text(verbose, timing))
            } else {
                &&& r.configs@.len() == 0
                &&& r.profiles@.len() == 0
                &&& r.path is None
                &&& final(io).wrote(old(io), head + probes_text(locations@, probes@, verbose, k)
                    + failures_text(failures(probes@, k)) + closing_text(verbose, timing))
            }
        }),
{
    let ghost head = if verbose { "Loading config\n"@ } else { Seq::<char>::empty() };
    let ghost ps = probes@;
    if verbose {
        io.write("Loading config\n");
    }
    let ghost start = io.output@;
    let (k, invalid) = scan_probes(locations, &probes, verbose, io);
    if k < probes.len() {
        let mut rest = probes;
        let found = rest.remove(k);
        assert(found == ps[k as int]);
        proof {
            lemma_first_loaded_is_loaded(ps);
        }
        assert(found is Loaded);
        let shown = locations[k].clone();
        if verbose || timing {
            io.write("\n");
        }
        assert(io.output@ =~= old(io).output@ + (head + probes_text(locations@, ps, verbose, (k + 1) as nat) + closing_text(verbose, timing)));
        match found {
            ConfigProbe::Loaded(c) => {
                return SetupConfig { configs: c.configs, profiles: c.profiles, path: Some(shown) };
            },
            _ => {
                return SetupConfig::new();
            },
        }
    }
    report_failures(invalid, verbose, timing, io);
    assert(io.output@ =~= old(io).output@ + (head + probes_text(locations@, ps, verbose, k as nat)
        + failures_text(failures(ps, k as nat)) + closing_text(verbose, timing)));
    SetupConfig::new()
}

} // verus!
