//! Path resolution for the spawned backend's resources.  For each resource
//! kind — server script, interpreter, virtual environment, model cache —
//! an ordered candidate list is walked from most to least specific, and the
//! first candidate that exists on disk wins, independently per kind.  The
//! existence probes are filesystem I/O and are supplied by the embedding
//! program; the candidate lists and the first-match choice are decided and
//! verified here.

use vstd::prelude::*;
use crate::platform::Platform;
use crate::text::{concat2, str_opt_view, str_views};

verus! {

/// The outcome of path resolution.  Each field is resolved independently
/// by first-match-wins over its own candidate list, so the fields may name
/// inconsistent roots (the script from a system install, the interpreter
/// from a development checkout); that is accepted behaviour, not an
/// invariant violation.  A missing resource is `None`, never an error.
#[derive(Debug)]
pub struct ResolvedPaths {
    pub script: Option<String>,
    pub python: Option<String>,
    pub venv_dir: Option<String>,
    pub models_dir: Option<String>,
}

/// One resource kind's ordered candidate locations, together with the
/// embedding program's existence probe for each: `exists[i]` reports
/// whether `candidates[i]` named an existing filesystem entry when probed.
#[derive(Debug)]
pub struct CandidateProbe {
    pub candidates: Vec<String>,
    pub exists: Vec<bool>,
}

impl CandidateProbe {
    pub open spec fn wf(self) -> bool {
        self.candidates@.len() == self.exists@.len()
    }
}

/// Index of the first `true` at or after position `i`, or the length of
/// `ex` when there is none.
pub open spec fn first_true_from(ex: Seq<bool>, i: int) -> int
    decreases ex.len() - i,
{
    if i < 0 || i >= ex.len() {
        ex.len() as int
    } else if ex[i] {
        i
    } else {
        first_true_from(ex, i + 1)
    }
}

/// The path that first-match-wins resolution chooses for one resource
/// kind: the candidate at the least index whose existence probe succeeded,
/// or nothing when every probe failed.
pub open spec fn chosen(p: CandidateProbe) -> Option<Seq<char>> {
    let k = first_true_from(p.exists@, 0);
    if k < p.exists@.len() {
        Option::Some(p.candidates@[k]@)
    } else {
        Option::None
    }
}

pub proof fn lemma_first_true_from(ex: Seq<bool>, i: int)
    requires
        0 <= i <= ex.len(),
    ensures
        i <= first_true_from(ex, i) <= ex.len(),
        first_true_from(ex, i) < ex.len() ==> ex[first_true_from(ex, i)],
        forall|j: int| i <= j < first_true_from(ex, i) ==> !ex[j],
    decreases ex.len() - i,
{
    if i < ex.len() && !ex[i] {
        lemma_first_true_from(ex, i + 1);
    }
}

/// Law: resolution is first-match-wins, evaluated independently per
/// resource kind.  Whatever the other kinds' probes say, the choice for
/// this kind is the candidate at the least index whose own probe
/// succeeded — every earlier candidate's probe failed — and the choice is
/// empty exactly when every probe of this kind failed.
pub proof fn lemma_first_match_per_kind(p: CandidateProbe)
    requires
        p.wf(),
    ensures
        chosen(p) is Some <==> exists|j: int| 0 <= j < p.exists@.len() && p.exists@[j],
        chosen(p) is Some ==> {
            let k = first_true_from(p.exists@, 0);
            &&& 0 <= k < p.exists@.len()
            &&& p.exists@[k]
            &&& forall|j: int| 0 <= j < k ==> !p.exists@[j]
            &&& chosen(p) == Option::Some(p.candidates@[k]@)
        },
        chosen(p) is None ==> forall|j: int| 0 <= j < p.exists@.len() ==> !p.exists@[j],
{
    lemma_first_true_from(p.exists@, 0);
    let k = first_true_from(p.exists@, 0);
    if k < p.exists@.len() {
        assert(p.exists@[k]);
    }
}

/// The first existing candidate of one resource kind, or `None` when no
/// candidate exists.
pub fn first_existing(p: &CandidateProbe) -> (r: Option<String>)
    requires
        p.wf(),
    ensures
        str_opt_view(r) == chosen(*p),
{
    let n = p.exists.len();
    let mut i: usize = 0;
    while i < n && !p.exists[i]
        invariant
            p.wf(),
            n == p.exists@.len(),
            0 <= i <= n,
            first_true_from(p.exists@, 0) == first_true_from(p.exists@, i as int),
        decreases n - i,
    {
        i += 1;
    }
    proof {
        assert(first_true_from(p.exists@, 0) == i as int);
    }
    if i < n {
        Some(p.candidates[i].clone())
    } else {
        None
    }
}

/// Resolves all four resource kinds, each independently by
/// first-match-wins over its own probed candidate list.
pub fn resolve_paths(
    script: &CandidateProbe,
    python: &CandidateProbe,
    venv: &CandidateProbe,
    models: &CandidateProbe,
) -> (r: ResolvedPaths)
    requires
        script.wf(),
        python.wf(),
        venv.wf(),
        models.wf(),
    ensures
        str_opt_view(r.script) == chosen(*script),
        str_opt_view(r.python) == chosen(*python),
        str_opt_view(r.venv_dir) == chosen(*venv),
        str_opt_view(r.models_dir) == chosen(*models),
{
    ResolvedPaths {
        script: first_existing(script),
        python: first_existing(python),
        venv_dir: first_existing(venv),
        models_dir: first_existing(models),
    }
}

/// The candidate locations of the server script, most specific first: the
/// bundled resource directory when the host packaging supplies one, the
/// system install directory on the platform that has one, then the
/// development fallback relative to the working directory.  On the
/// platform with pre-built executables the executable variant follows the
/// script at each applicable root.
pub open spec fn spec_script_candidates(res: Option<Seq<char>>, p: Platform) -> Seq<Seq<char>> {
    (match res {
        Option::Some(d) => {
            if p.is_windows() {
                seq![d + "/kittentts-server.py"@, d + "/kittentts-server.exe"@]
            } else {
                seq![d + "/kittentts-server.py"@]
            }
        },
        Option::None => Seq::empty(),
    }) + (if p.spec_has_system_install() {
        seq!["/usr/lib/en-parlant/scripts/kittentts-server.py"@]
    } else {
        Seq::empty()
    }) + seq!["scripts/kittentts-server.py"@] + (if p.is_windows() {
        seq!["scripts/kittentts-server.exe"@]
    } else {
        Seq::empty()
    })
}

/// The candidate locations of the virtual environment directory, most
/// specific first.
pub open spec fn spec_venv_candidates(res: Option<Seq<char>>, p: Platform) -> Seq<Seq<char>> {
    (match res {
        Option::Some(d) => seq![d + "/.venv"@],
        Option::None => Seq::empty(),
    }) + (if p.spec_has_system_install() {
        seq!["/usr/lib/en-parlant/scripts/.venv"@]
    } else {
        Seq::empty()
    }) + seq!["scripts/.venv"@]
}

/// The candidate locations of the virtual environment's interpreter: each
/// environment candidate with the platform's interpreter location inside
/// it appended.
pub open spec fn spec_python_candidates(res: Option<Seq<char>>, p: Platform) -> Seq<Seq<char>> {
    spec_venv_candidates(res, p).map_values(|v: Seq<char>| v + p.spec_venv_python_rel())
}

/// The candidate locations of the model cache directory, most specific
/// first.
pub open spec fn spec_models_candidates(res: Option<Seq<char>>, p: Platform) -> Seq<Seq<char>> {
    (match res {
        Option::Some(d) => seq![d + "/models"@],
        Option::None => Seq::empty(),
    }) + (if p.spec_has_system_install() {
        seq!["/usr/lib/en-parlant/scripts/models"@]
    } else {
        Seq::empty()
    }) + seq!["scripts/models"@]
}

/// Builds the server-script candidate list for the given bundled resource
/// directory and platform.
pub fn script_candidates(resource_dir: &Option<String>, p: Platform) -> (r: Vec<String>)
    ensures
        str_views(r@) == spec_script_candidates(str_opt_view(*resource_dir), p),
{
    let mut out: Vec<String> = Vec::new();
    match resource_dir {
        Some(d) => {
            out.push(concat2(d.as_str(), "/kittentts-server.py"));
            if p.hides_console() {
                out.push(concat2(d.as_str(), "/kittentts-server.exe"));
            }
        },
        None => {},
    }
    if p.has_system_install() {
        out.push(String::from_str("/usr/lib/en-parlant/scripts/kittentts-server.py"));
    }
    out.push(String::from_str("scripts/kittentts-server.py"));
    if p.hides_console() {
        out.push(String::from_str("scripts/kittentts-server.exe"));
    }
    proof {
        assert(str_views(out@) =~= spec_script_candidates(str_opt_view(*resource_dir), p));
    }
    out
}

/// Builds the virtual-environment candidate list.
pub fn venv_candidates(resource_dir: &Option<String>, p: Platform) -> (r: Vec<String>)
    ensures
        str_views(r@) == spec_venv_candidates(str_opt_view(*resource_dir), p),
{
    let mut out: Vec<String> = Vec::new();
    match resource_dir {
        Some(d) => {
            out.push(concat2(d.as_str(), "/.venv"));
        },
        None => {},
    }
    if p.has_system_install() {
        out.push(String::from_str("/usr/lib/en-parlant/scripts/.venv"));
    }
    out.push(String::from_str("scripts/.venv"));
    proof {
        assert(str_views(out@) =~= spec_venv_candidates(str_opt_view(*resource_dir), p));
    }
    out
}

/// Builds the interpreter candidate list: every environment candidate with
/// the platform's interpreter location appended.
pub fn python_candidates(resource_dir: &Option<String>, p: Platform) -> (r: Vec<String>)
    ensures
        str_views(r@) == spec_python_candidates(str_opt_view(*resource_dir), p),
{
    let venvs = venv_candidates(resource_dir, p);
    let rel = p.venv_python_rel();
    let mut out: Vec<String> = Vec::new();
    let n = venvs.len();
    let mut i: usize = 0;
    while i < n
        invariant
            n == venvs@.len(),
            0 <= i <= n,
            str_views(venvs@) == spec_venv_candidates(str_opt_view(*resource_dir), p),
            rel@ == p.spec_venv_python_rel(),
            out@.len() == i as int,
            str_views(out@) =~= spec_python_candidates(str_opt_view(*resource_dir), p).take(
                i as int,
            ),
        decreases n - i,
    {
        out.push(concat2(venvs[i].as_str(), rel));
        proof {
            let resv = str_opt_view(*resource_dir);
            let sv = spec_venv_candidates(resv, p);
            let sp = spec_python_candidates(resv, p);
            assert(out@.len() == i + 1);
            assert(str_views(venvs@)[i as int] == venvs@[i as int]@);
            assert(venvs@[i as int]@ == sv[i as int]);
            assert(sp[i as int] == sv[i as int] + p.spec_venv_python_rel());
            assert(str_views(out@)[i as int] == out@[i as int]@);
            assert(str_views(out@) =~= sp.take(i + 1));
        }
        i += 1;
    }
    proof {
        assert(str_views(out@) =~= spec_python_candidates(str_opt_view(*resource_dir), p));
    }
    out
}

/// Builds the model-cache candidate list.
pub fn models_candidates(resource_dir: &Option<String>, p: Platform) -> (r: Vec<String>)
    ensures
        str_views(r@) == spec_models_candidates(str_opt_view(*resource_dir), p),
{
    let mut out: Vec<String> = Vec::new();
    match resource_dir {
        Some(d) => {
            out.push(concat2(d.as_str(), "/models"));
        },
        None => {},
    }
    if p.has_system_install() {
        out.push(String::from_str("/usr/lib/en-parlant/scripts/models"));
    }
    out.push(String::from_str("scripts/models"));
    proof {
        assert(str_views(out@) =~= spec_models_candidates(str_opt_view(*resource_dir), p));
    }
    out
}

} // verus!
