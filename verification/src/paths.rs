//! Where hearit's companions live, resolved at run time so the same
//! executable works from the repo, a build artifact, or an install:
//! an environment override first, else the first candidate that exists
//! next to the executable or in one of its ancestor directories.
//!
//! Directories are searched nearest first; within a directory the
//! candidates in the order given. The filesystem is asked through the
//! `present` callback, by index: `(ancestor, candidate)`, where ancestor 0
//! is the executable's own directory.

use vstd::prelude::*;

verus! {

/// Overrides the sidecar executable's location.
pub const SIDECAR_ENV: &'static str = "HEARIT_SIDECAR";

/// Overrides the model file's location.
pub const MODEL_ENV: &'static str = "HEARIT_MODEL";

/// Overrides the voices file's location.
pub const VOICES_ENV: &'static str = "HEARIT_VOICES";

/// The sidecar executable, relative to a searched directory.
pub const SIDECAR_EXE_REL: &'static str = "sidecar\\koko.exe";

/// The sidecar executable inside its own build directory.
pub const SIDECAR_EXE_NESTED_REL: &'static str = "sidecar\\kokoros\\koko.exe";

/// The ONNX model, relative to a searched directory.
pub const MODEL_REL: &'static str = "sidecar\\checkpoints\\kokoro-v1.0.onnx";

/// The voices data, relative to a searched directory.
pub const VOICES_REL: &'static str = "sidecar\\data\\voices-v1.0.bin";

/// The sidecar executable's candidates, in search order.
pub fn sidecar_candidates() -> (c: Vec<&'static str>)
    ensures
        c@ == seq![SIDECAR_EXE_REL, SIDECAR_EXE_NESTED_REL],
{
    let mut c: Vec<&'static str> = Vec::new();
    c.push(SIDECAR_EXE_REL);
    c.push(SIDECAR_EXE_NESTED_REL);
    assert(c@ =~= seq![SIDECAR_EXE_REL, SIDECAR_EXE_NESTED_REL]);
    c
}

/// Whether probe `(d2, c2)` comes before probe `(d, c)` in search order.
pub open spec fn probed_before(d2: usize, c2: usize, d: usize, c: usize, n_cands: usize) -> bool {
    (d2 < d && c2 < n_cands) || (d2 == d && c2 < c)
}

/// Walks `n_dirs` directories (nearest first), trying `n_cands` candidates
/// in each, and returns the first probe that `present` accepts. Every probe
/// before it was answered "absent"; `None` means every probe was.
pub fn find_from<F: Fn(usize, usize) -> bool>(n_dirs: usize, n_cands: usize, present: &F) -> (found: Option<(usize, usize)>)
    requires
        forall|d: usize, c: usize| d < n_dirs && c < n_cands ==> #[trigger] present.requires((d, c)),
    ensures
        found matches Some((d, c)) ==> d < n_dirs && c < n_cands && present.ensures((d, c), true)
            && forall|d2: usize, c2: usize|
            probed_before(d2, c2, d, c, n_cands) ==> #[trigger] present.ensures((d2, c2), false),
        found is None ==> forall|d2: usize, c2: usize|
            d2 < n_dirs && c2 < n_cands ==> #[trigger] present.ensures((d2, c2), false),
{
    let mut d: usize = 0;
    while d < n_dirs
        invariant
            d <= n_dirs,
            forall|d: usize, c: usize| d < n_dirs && c < n_cands ==> #[trigger] present.requires((d, c)),
            forall|d2: usize, c2: usize|
                d2 < d && c2 < n_cands ==> #[trigger] present.ensures((d2, c2), false),
        decreases n_dirs - d,
    {
        let mut c: usize = 0;
        while c < n_cands
            invariant
                d < n_dirs,
                c <= n_cands,
                forall|d: usize, c: usize| d < n_dirs && c < n_cands ==> #[trigger] present.requires((d, c)),
                forall|d2: usize, c2: usize|
                    probed_before(d2, c2, d, c, n_cands) ==> #[trigger] present.ensures((d2, c2), false),
            decreases n_cands - c,
        {
            let hit = present(d, c);
            if hit {
                return Some((d, c));
            }
            c = c + 1;
        }
        d = d + 1;
    }
    None
}

/// Where a companion was found.
#[derive(Clone, Debug, PartialEq, Eq)]
pub enum Located {
    /// The environment named it.
    Override(String),
    /// Candidate `cand` exists in ancestor directory `dir`.
    Found { dir: usize, cand: usize },
}

/// The environment override wins outright; without one, the executable's
/// directory and its ancestors are searched (`n_dirs` is `None` when the
/// executable's location is unknown, which finds nothing).
pub fn find<F: Fn(usize, usize) -> bool>(env_override: Option<String>, n_dirs: Option<usize>, n_cands: usize, present: &F) -> (found: Option<Located>)
    requires
        n_dirs matches Some(n) ==> forall|d: usize, c: usize|
            d < n && c < n_cands ==> #[trigger] present.requires((d, c)),
    ensures
        env_override matches Some(p) ==> found == Some(Located::Override(p)),
        env_override is None && n_dirs is None ==> found is None,
        env_override is None ==> (n_dirs matches Some(n) ==> (found matches Some(Located::Found { dir, cand }) ==> dir < n
            && cand < n_cands && present.ensures((dir, cand), true) && forall|d2: usize, c2: usize|
            probed_before(d2, c2, dir, cand, n_cands) ==> #[trigger] present.ensures((d2, c2), false))),
        env_override is None ==> (n_dirs matches Some(n) ==> (found is None ==> forall|d2: usize, c2: usize|
            d2 < n && c2 < n_cands ==> #[trigger] present.ensures((d2, c2), false))),
        env_override is None ==> !(found matches Some(Located::Override(_))),
{
    match env_override {
        Some(p) => Some(Located::Override(p)),
        None => match n_dirs {
            None => None,
            Some(n) => match find_from(n, n_cands, present) {
                Some((dir, cand)) => Some(Located::Found { dir, cand }),
                None => None,
            },
        },
    }
}

/// The error when the sidecar executable cannot be found.
pub open spec fn sidecar_missing_message() -> Seq<char> {
    "koko.exe not found — set HEARIT_SIDECAR or place sidecar\\ next to hearit.exe (docs/sidecar.md)"@
}

/// The error when the model cannot be found.
pub open spec fn model_missing_message() -> Seq<char> {
    "kokoro-v1.0.onnx not found — set HEARIT_MODEL or place sidecar\\checkpoints\\ next to hearit.exe (docs/sidecar.md)"@
}

/// The error when the voices data cannot be found.
pub open spec fn voices_missing_message() -> Seq<char> {
    "voices-v1.0.bin not found — set HEARIT_VOICES or place sidecar\\data\\ next to hearit.exe (docs/sidecar.md)"@
}

/// The sidecar executable's resolved path, or the error that tells the
/// user how to provide it.
pub fn sidecar_exe(located: Option<String>) -> (r: Result<String, String>)
    ensures
        located matches Some(p) ==> r == Ok::<String, String>(p),
        located is None ==> (r matches Err(e) && e@ == sidecar_missing_message()),
{
    match located {
        Some(p) => Ok(p),
        None => Err(String::from_str(
            "koko.exe not found — set HEARIT_SIDECAR or place sidecar\\ next to hearit.exe (docs/sidecar.md)",
        )),
    }
}

/// The model's resolved path, or the error that tells the user how to
/// provide it.
pub fn model(located: Option<String>) -> (r: Result<String, String>)
    ensures
        located matches Some(p) ==> r == Ok::<String, String>(p),
        located is None ==> (r matches Err(e) && e@ == model_missing_message()),
{
    match located {
        Some(p) => Ok(p),
        None => Err(String::from_str(
            "kokoro-v1.0.onnx not found — set HEARIT_MODEL or place sidecar\\checkpoints\\ next to hearit.exe (docs/sidecar.md)",
        )),
    }
}

/// The voices data's resolved path, or the error that tells the user how
/// to provide it.
pub fn voices(located: Option<String>) -> (r: Result<String, String>)
    ensures
        located matches Some(p) ==> r == Ok::<String, String>(p),
        located is None ==> (r matches Err(e) && e@ == voices_missing_message()),
{
    match located {
        Some(p) => Ok(p),
        None => Err(String::from_str(
            "voices-v1.0.bin not found — set HEARIT_VOICES or place sidecar\\data\\ next to hearit.exe (docs/sidecar.md)",
        )),
    }
}

} // verus!
