use vstd::prelude::*;

use crate::error::StartupError;

verus! {

broadcast use vstd::string::group_string_axioms;

/// An opaque loaded extension unit. It is owned by the application host for
/// the host's entire lifetime, is never copied and never reloaded; all this
/// core keeps of it is the directory entry it was loaded from.
#[derive(Debug, PartialEq, Eq)]
pub struct HostedExtension {
    pub path: String,
}

/// The view of a candidate list: each directory as its character sequence.
pub open spec fn views_of(v: Seq<String>) -> Seq<Seq<char>> {
    v.map_values(|s: String| s@)
}

/// The built-in default extension directories, in declared priority order.
pub open spec fn builtin_candidates() -> Seq<Seq<char>> {
    seq!["target/debug"@, "target/release"@, "extensions"@]
}

/// The full ordered candidate list: the CLI override first, then the
/// configuration override, then the built-in directories.
pub open spec fn candidates_spec(cli: Option<Seq<char>>, cfg: Option<Seq<char>>) -> Seq<
    Seq<char>,
> {
    let with_cfg = match cfg {
        Some(p) => seq![p] + builtin_candidates(),
        None => builtin_candidates(),
    };
    match cli {
        Some(p) => seq![p] + with_cfg,
        None => with_cfg,
    }
}

pub open spec fn view_of_opt(o: Option<String>) -> Option<Seq<char>> {
    match o {
        Some(s) => Some(s@),
        None => None,
    }
}

/// Resolves the ordered list of candidate extension directories from the
/// two optional overrides.
pub fn extension_candidates(cli: &Option<String>, cfg: &Option<String>) -> (r: Vec<String>)
    ensures
        views_of(r@) == candidates_spec(view_of_opt(*cli), view_of_opt(*cfg)),
{
    let mut r: Vec<String> = Vec::new();
    if let Some(p) = cli {
        r.push(p.clone());
    }
    if let Some(p) = cfg {
        r.push(p.clone());
    }
    r.push("target/debug".to_string());
    r.push("target/release".to_string());
    r.push("extensions".to_string());
    proof {
        assert(views_of(r@) =~= candidates_spec(view_of_opt(*cli), view_of_opt(*cfg)));
    }
    r
}

/// Picks the directory that extensions are loaded from: the first candidate
/// that exists on disk, and never more than one. `exists` records, for each
/// candidate in order, whether that directory exists.
pub fn select_extension_dir(paths: &Vec<String>, exists: &Vec<bool>) -> (r: Option<usize>)
    requires
        paths@.len() == exists@.len(),
    ensures
        r matches Some(i) ==> i < paths@.len() && exists@[i as int] && (forall|j: int|
            0 <= j < i ==> !exists@[j]),
        r is None ==> forall|j: int| 0 <= j < exists@.len() ==> !exists@[j],
{
    let mut i: usize = 0;
    while i < paths.len()
        invariant
            i <= paths@.len(),
            paths@.len() == exists@.len(),
            forall|j: int| 0 <= j < i ==> !exists@[j],
        decreases paths@.len() - i,
    {
        if exists[i] {
            return Some(i);
        }
        i = i + 1;
    }
    None
}

/// Finishes extension discovery once the directory search and (when a
/// directory was chosen) the scan of that one directory are done. No
/// existing candidate directory yields an empty extension list and is not
/// an error; a failure to load any unit inside the chosen directory fails
/// the whole operation, so that no partially-loaded capability set survives.
pub fn load_extensions(
    selected: &Option<String>,
    scan: Option<Result<Vec<HostedExtension>, String>>,
) -> (r: Result<Vec<HostedExtension>, StartupError>)
    requires
        selected is Some <==> scan is Some,
    ensures
        selected is None ==> (r matches Ok(v) && v@.len() == 0),
        scan matches Some(Ok(units)) ==> (r matches Ok(v) && v == units),
        scan matches Some(Err(d)) ==> (r matches Err(e) && e matches StartupError::ExtensionLoad(
            m,
        ) && m@ == d@),
{
    match scan {
        None => Ok(Vec::new()),
        Some(Ok(units)) => Ok(units),
        Some(Err(detail)) => Err(StartupError::ExtensionLoad(detail)),
    }
}

} // verus!
