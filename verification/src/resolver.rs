//! Library resolution: an ordered list of candidate locations, probed in
//! order, first existing match wins.
//!
//! The order is: the explicit override (a file is taken directly, a
//! directory is searched for the platform library name), the directory of
//! the running executable, the development-tree output directory, and the
//! current working directory. Nothing is cached: every call probes afresh,
//! so environment changes between calls are honoured.

use vstd::prelude::*;

verus! {

use crate::fsprobe::path_exists;
use crate::fsprobe::path_is_dir;
use crate::fsprobe::path_is_file;
use crate::platform::Arch;
use crate::platform::Platform;
use crate::platform::current_rid;
use crate::platform::lib_name;
use crate::platform::spec_lib_name;
use crate::platform::spec_rid;
use crate::strutil::join_path;
use vstd::string::StringExecFns;

/// Everything library resolution reads from its surroundings, gathered by
/// the caller: the override variable's value, the running executable's
/// directory, the crate root of a development tree, and the host target.
#[derive(Clone, Debug)]
pub struct ResolveContext {
    /// Value of the override environment variable, where it is set.
    pub override_path: Option<String>,
    /// Directory holding the running executable, where it is known.
    pub exe_dir: Option<String>,
    /// Root of the development tree whose native output directory is
    /// searched.
    pub dev_root: String,
    /// Operating-system family of the host.
    pub platform: Platform,
    /// CPU architecture of the host.
    pub arch: Arch,
}

/// One probe outcome for every candidate location, as resolution would
/// consult them.
#[derive(Clone, Copy, Debug, PartialEq, Eq, Structural)]
pub struct ProbeResults {
    /// The override path names a regular file.
    pub override_is_file: bool,
    /// The override path names a directory.
    pub override_is_dir: bool,
    /// The library name inside the override directory exists.
    pub override_join_exists: bool,
    /// The library name beside the executable exists.
    pub exe_join_exists: bool,
    /// The library inside the development output directory exists.
    pub dev_join_exists: bool,
    /// The library name in the current working directory exists.
    pub cwd_exists: bool,
}

/// The development output directory of a context.
pub open spec fn spec_dev_dir(ctx: ResolveContext) -> Seq<char> {
    ctx.dev_root@ + "/dotnet/native/"@ + spec_rid(ctx.platform, ctx.arch)
}

/// The platform library name of a context.
pub open spec fn spec_lib(ctx: ResolveContext) -> Seq<char> {
    spec_lib_name(ctx.platform)
}

/// Every path that resolution would consult, in consultation order.
pub open spec fn spec_searched(ctx: ResolveContext) -> Seq<Seq<char>> {
    (match ctx.override_path {
        Some(p) => seq![p@, p@ + "/"@ + spec_lib(ctx)],
        None => Seq::empty(),
    }) + (match ctx.exe_dir {
        Some(d) => seq![d@ + "/"@ + spec_lib(ctx)],
        None => Seq::empty(),
    }) + seq![spec_dev_dir(ctx) + "/"@ + spec_lib(ctx), spec_lib(ctx)]
}

/// The path resolution returns for a context under given probe outcomes:
/// the override file directly; else the library inside an override
/// directory; else the library beside the executable; else the development
/// output; else the working directory; else nothing.
pub open spec fn spec_resolution(ctx: ResolveContext, pr: ProbeResults) -> Option<Seq<char>> {
    if ctx.override_path is Some && pr.override_is_file {
        Some(ctx.override_path->0@)
    } else if ctx.override_path is Some && pr.override_is_dir && pr.override_join_exists {
        Some(ctx.override_path->0@ + "/"@ + spec_lib(ctx))
    } else if ctx.exe_dir is Some && pr.exe_join_exists {
        Some(ctx.exe_dir->0@ + "/"@ + spec_lib(ctx))
    } else if pr.dev_join_exists {
        Some(spec_dev_dir(ctx) + "/"@ + spec_lib(ctx))
    } else if pr.cwd_exists {
        Some(spec_lib(ctx))
    } else {
        None
    }
}

/// The view of an optional path.
pub open spec fn spec_opt_path(r: Option<String>) -> Option<Seq<char>> {
    match r {
        Some(p) => Some(p@),
        None => None,
    }
}

/// Get the list of paths that resolution would search, in order.
pub fn searched_paths(ctx: &ResolveContext) -> (r: Vec<String>)
    ensures
        r@.map_values(|p: String| p@) == spec_searched(*ctx),
        r@.len() >= 2,
{
    let lib = lib_name(ctx.platform);
    let mut out: Vec<String> = Vec::new();
    match &ctx.override_path {
        Some(p) => {
            out.push(p.clone());
            out.push(join_path(p.as_str(), lib));
        },
        None => {},
    }
    match &ctx.exe_dir {
        Some(d) => {
            out.push(join_path(d.as_str(), lib));
        },
        None => {},
    }
    let dev = dev_dir(ctx);
    out.push(join_path(dev.as_str(), lib));
    out.push(lib.to_owned());
    proof {
        assert(out@.map_values(|p: String| p@) =~= spec_searched(*ctx));
    }
    out
}

fn dev_dir(ctx: &ResolveContext) -> (r: String)
    ensures
        r@ == spec_dev_dir(*ctx),
{
    let mut d = ctx.dev_root.clone();
    d.append("/dotnet/native/");
    d.append(current_rid(ctx.platform, ctx.arch));
    d
}

/// The decision resolution makes once every probe outcome is fixed.
pub fn choose_library_path(ctx: &ResolveContext, pr: &ProbeResults) -> (r: Option<String>)
    ensures
        spec_opt_path(r) == spec_resolution(*ctx, *pr),
{
    let lib = lib_name(ctx.platform);
    match &ctx.override_path {
        Some(p) => {
            if pr.override_is_file {
                return Some(p.clone());
            }
            if pr.override_is_dir && pr.override_join_exists {
                return Some(join_path(p.as_str(), lib));
            }
        },
        None => {},
    }
    match &ctx.exe_dir {
        Some(d) => {
            if pr.exe_join_exists {
                return Some(join_path(d.as_str(), lib));
            }
        },
        None => {},
    }
    if pr.dev_join_exists {
        let dev = dev_dir(ctx);
        return Some(join_path(dev.as_str(), lib));
    }
    if pr.cwd_exists {
        return Some(lib.to_owned());
    }
    None
}

/// Probe the candidate locations as resolution consults them: a probe
/// that a decided earlier candidate makes irrelevant is not made, and its
/// outcome is reported as absent.
pub fn probe_candidates(ctx: &ResolveContext) -> ProbeResults {
    let lib = lib_name(ctx.platform);
    let mut pr = ProbeResults {
        override_is_file: false,
        override_is_dir: false,
        override_join_exists: false,
        exe_join_exists: false,
        dev_join_exists: false,
        cwd_exists: false,
    };
    match &ctx.override_path {
        Some(p) => {
            pr.override_is_file = path_is_file(p.as_str());
            if !pr.override_is_file {
                pr.override_is_dir = path_is_dir(p.as_str());
                if pr.override_is_dir {
                    let j = join_path(p.as_str(), lib);
                    pr.override_join_exists = path_exists(j.as_str());
                }
            }
            if pr.override_is_file || (pr.override_is_dir && pr.override_join_exists) {
                return pr;
            }
        },
        None => {},
    }
    match &ctx.exe_dir {
        Some(d) => {
            let j = join_path(d.as_str(), lib);
            pr.exe_join_exists = path_exists(j.as_str());
            if pr.exe_join_exists {
                return pr;
            }
        },
        None => {},
    }
    let dev = dev_dir(ctx);
    let dj = join_path(dev.as_str(), lib);
    pr.dev_join_exists = path_exists(dj.as_str());
    if pr.dev_join_exists {
        return pr;
    }
    pr.cwd_exists = path_exists(lib);
    pr
}

/// Find the native library: gather the probe outcomes for this call and
/// return the resolution decision on them — the first existing candidate,
/// in search order.
pub fn find_library_path(ctx: &ResolveContext) -> (r: Option<String>)
    ensures
        exists|pr: ProbeResults| spec_opt_path(r) == #[trigger] spec_resolution(*ctx, pr),
{
    let probes = probe_candidates(ctx);
    let r = choose_library_path(ctx, &probes);
    proof {
        assert(spec_opt_path(r) == spec_resolution(*ctx, probes));
    }
    r
}

/// Check if the native library can be found.
pub fn is_available(ctx: &ResolveContext) -> (r: bool)
    ensures
        exists|pr: ProbeResults| r == #[trigger] spec_resolution(*ctx, pr) is Some,
{
    let found = find_library_path(ctx);
    let r = match &found {
        Some(_) => true,
        None => false,
    };
    proof {
        let pr = choose|pr: ProbeResults|
            spec_opt_path(found) == #[trigger] spec_resolution(*ctx, pr);
        assert(r == spec_resolution(*ctx, pr) is Some);
    }
    r
}

/// Get the path to the native library, if found.
pub fn library_path(ctx: &ResolveContext) -> (r: Option<String>)
    ensures
        exists|pr: ProbeResults| spec_opt_path(r) == #[trigger] spec_resolution(*ctx, pr),
{
    find_library_path(ctx)
}

/// Whatever resolution returns is one of the searched paths.
pub proof fn lemma_resolution_in_searched(ctx: ResolveContext, pr: ProbeResults)
    requires
        spec_resolution(ctx, pr) is Some,
    ensures
        spec_searched(ctx).contains(spec_resolution(ctx, pr)->0),
{
    let s = spec_searched(ctx);
    let p = spec_resolution(ctx, pr)->0;
    if ctx.override_path is Some && pr.override_is_file {
        assert(s[0] == p);
    } else if ctx.override_path is Some && pr.override_is_dir && pr.override_join_exists {
        assert(s[1] == p);
    } else if ctx.exe_dir is Some && pr.exe_join_exists {
        let base: int = if ctx.override_path is Some {
            2
        } else {
            0
        };
        assert(s[base] == p);
    } else if pr.dev_join_exists {
        assert(s[s.len() - 2] == p);
    } else {
        assert(s[s.len() - 1] == p);
    }
}

/// One sequence of paths appears inside another, in the same order.
pub open spec fn spec_is_subsequence(xs: Seq<Seq<char>>, ys: Seq<Seq<char>>) -> bool
    decreases xs.len() + ys.len(),
{
    if xs.len() == 0 {
        true
    } else if ys.len() == 0 {
        false
    } else {
        (xs[0] == ys[0] && spec_is_subsequence(xs.drop_first(), ys.drop_first()))
            || spec_is_subsequence(xs, ys.drop_first())
    }
}

/// The paths that resolution consults on disk for a context, in the order
/// it consults them, under given probe outcomes: it stops at the first
/// match, and the library inside the override directory is only consulted
/// when the override names a directory.
pub open spec fn spec_checked(ctx: ResolveContext, pr: ProbeResults) -> Seq<Seq<char>> {
    let over = match ctx.override_path {
        Some(p) => if pr.override_is_file {
            seq![p@]
        } else if pr.override_is_dir {
            seq![p@, p@ + "/"@ + spec_lib(ctx)]
        } else {
            seq![p@]
        },
        None => Seq::empty(),
    };
    let stop_over = ctx.override_path is Some && (pr.override_is_file || (pr.override_is_dir
        && pr.override_join_exists));
    let exe = match ctx.exe_dir {
        Some(d) => seq![d@ + "/"@ + spec_lib(ctx)],
        None => Seq::<Seq<char>>::empty(),
    };
    let stop_exe = ctx.exe_dir is Some && pr.exe_join_exists;
    let dev = seq![spec_dev_dir(ctx) + "/"@ + spec_lib(ctx)];
    let cwd = seq![spec_lib(ctx)];
    over + if stop_over {
        Seq::<Seq<char>>::empty()
    } else {
        exe + if stop_exe {
            Seq::<Seq<char>>::empty()
        } else {
            dev + if pr.dev_join_exists {
                Seq::<Seq<char>>::empty()
            } else {
                cwd
            }
        }
    }
}

proof fn lemma_subseq_empty(y: Seq<Seq<char>>)
    ensures
        spec_is_subsequence(Seq::<Seq<char>>::empty(), y),
{
}

proof fn lemma_subseq_single_prefix(x: Seq<char>, y: Seq<char>)
    ensures
        spec_is_subsequence(seq![x], seq![x, y]),
{
    let a: Seq<Seq<char>> = seq![x];
    let b: Seq<Seq<char>> = seq![x, y];
    lemma_subseq_empty(b.drop_first());
    assert(a.drop_first() =~= Seq::<Seq<char>>::empty());
    assert(spec_is_subsequence(a.drop_first(), b.drop_first()));
    assert(a[0] == b[0]);
}

proof fn lemma_subseq_refl(x: Seq<Seq<char>>)
    ensures
        spec_is_subsequence(x, x),
    decreases x.len(),
{
    if x.len() > 0 {
        lemma_subseq_refl(x.drop_first());
    }
}

proof fn lemma_subseq_skip_front(c: Seq<Seq<char>>, d: Seq<Seq<char>>, b: Seq<Seq<char>>)
    requires
        spec_is_subsequence(c, d),
    ensures
        spec_is_subsequence(c, b + d),
    decreases b.len(),
{
    if b.len() == 0 {
        assert(b + d =~= d);
    } else {
        lemma_subseq_skip_front(c, d, b.drop_first());
        assert((b + d).drop_first() =~= b.drop_first() + d);
        if c.len() > 0 {
            assert(spec_is_subsequence(c, (b + d).drop_first()));
        }
    }
}

proof fn lemma_subseq_concat(
    a: Seq<Seq<char>>,
    b: Seq<Seq<char>>,
    c: Seq<Seq<char>>,
    d: Seq<Seq<char>>,
)
    requires
        spec_is_subsequence(a, b),
        spec_is_subsequence(c, d),
    ensures
        spec_is_subsequence(a + c, b + d),
    decreases a.len() + b.len(),
{
    if a.len() == 0 {
        assert(a + c =~= c);
        lemma_subseq_skip_front(c, d, b);
    } else {
        if a[0] == b[0] && spec_is_subsequence(a.drop_first(), b.drop_first()) {
            lemma_subseq_concat(a.drop_first(), b.drop_first(), c, d);
            assert((a + c).drop_first() =~= a.drop_first() + c);
            assert((b + d).drop_first() =~= b.drop_first() + d);
            assert((a + c)[0] == (b + d)[0]);
        } else {
            assert(spec_is_subsequence(a, b.drop_first()));
            lemma_subseq_concat(a, b.drop_first(), c, d);
            assert((b + d).drop_first() =~= b.drop_first() + d);
        }
    }
}

/// The searched-path list is never empty, and whatever resolution actually
/// consults on disk is a subsequence of it, in the same order.
#[verifier::rlimit(60)]
pub proof fn lemma_checked_within_searched(ctx: ResolveContext, pr: ProbeResults)
    ensures
        spec_searched(ctx).len() >= 2,
        spec_is_subsequence(spec_checked(ctx, pr), spec_searched(ctx)),
{
    let lib = spec_lib(ctx);
    let empty = Seq::<Seq<char>>::empty();
    let s1 = match ctx.override_path {
        Some(p) => seq![p@, p@ + "/"@ + lib],
        None => empty,
    };
    let s2 = match ctx.exe_dir {
        Some(d) => seq![d@ + "/"@ + lib],
        None => empty,
    };
    let s3 = seq![spec_dev_dir(ctx) + "/"@ + lib, lib];
    assert(spec_searched(ctx) =~= s1 + (s2 + s3));

    let over = match ctx.override_path {
        Some(p) => if pr.override_is_file {
            seq![p@]
        } else if pr.override_is_dir {
            seq![p@, p@ + "/"@ + lib]
        } else {
            seq![p@]
        },
        None => empty,
    };
    let stop_over = ctx.override_path is Some && (pr.override_is_file || (pr.override_is_dir
        && pr.override_join_exists));
    let exe = s2;
    let stop_exe = ctx.exe_dir is Some && pr.exe_join_exists;
    let dev = seq![spec_dev_dir(ctx) + "/"@ + lib];
    let cwd = seq![lib];
    let rest2 = dev + if pr.dev_join_exists {
        empty
    } else {
        cwd
    };
    let rest1 = if stop_exe {
        empty
    } else {
        rest2
    };
    let rest0 = if stop_over {
        empty
    } else {
        exe + rest1
    };
    assert(spec_checked(ctx, pr) == over + rest0);

    // The override stage's consultations sit inside its searched entries.
    match ctx.override_path {
        Some(p) => {
            if !pr.override_is_file && pr.override_is_dir {
                assert(over =~= s1);
                lemma_subseq_refl(s1);
            } else {
                assert(over =~= seq![p@]);
                lemma_subseq_single_prefix(p@, p@ + "/"@ + lib);
            }
        },
        None => {
            assert(over =~= empty);
            lemma_subseq_empty(s1);
        },
    }
    assert(spec_is_subsequence(over, s1));

    // The later stages' consultations sit inside the later searched
    // entries.
    lemma_subseq_refl(dev);
    lemma_subseq_refl(cwd);
    lemma_subseq_refl(exe);
    assert(spec_is_subsequence(rest2, s3)) by {
        if pr.dev_join_exists {
            assert(rest2 =~= dev);
            assert(spec_is_subsequence(dev + empty, dev + cwd)) by {
                lemma_subseq_concat(dev, dev, empty, cwd);
            }
            assert(dev + empty =~= dev);
            assert(s3 =~= dev + cwd);
        } else {
            assert(rest2 =~= dev + cwd);
            assert(s3 =~= dev + cwd);
            lemma_subseq_refl(dev + cwd);
        }
    }
    assert(spec_is_subsequence(rest1, s3)) by {
        if stop_exe {
            assert(spec_is_subsequence(empty, s3));
        }
    }
    assert(spec_is_subsequence(rest0, s2 + s3)) by {
        if stop_over {
            assert(spec_is_subsequence(empty, s2 + s3));
        } else {
            lemma_subseq_concat(exe, s2, rest1, s3);
        }
    }
    lemma_subseq_concat(over, s1, rest0, s2 + s3);
    assert(spec_checked(ctx, pr) =~= over + rest0);
    assert(spec_searched(ctx) == s1 + (s2 + s3));
}

/// An override naming an existing file is returned exactly, bypassing all
/// other search steps.
pub proof fn lemma_override_file_wins(ctx: ResolveContext, pr: ProbeResults)
    requires
        ctx.override_path is Some,
        pr.override_is_file,
    ensures
        spec_resolution(ctx, pr) == Some(ctx.override_path->0@),
{
}

/// An override naming a directory that holds the platform library resolves
/// to the library inside that directory, unless the override itself is a
/// file.
pub proof fn lemma_override_dir_joins(ctx: ResolveContext, pr: ProbeResults)
    requires
        ctx.override_path is Some,
        !pr.override_is_file,
        pr.override_is_dir,
        pr.override_join_exists,
    ensures
        spec_resolution(ctx, pr) == Some(ctx.override_path->0@ + "/"@ + spec_lib(ctx)),
{
}

} // verus!
