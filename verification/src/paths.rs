//! Entry-point and environment-file path rules.
//!
//! The sibling service's entry point sits at a fixed relative location,
//! but the depth between the running executable and the workspace root
//! differs between a development build and a packaged build. The launcher
//! therefore tries an ordered list of relative ascents from the
//! executable's directory, accepts the first candidate that resolves on
//! disk, and falls back to a path relative to the working directory.
//!
//! This module builds the candidate paths and decides which resolution
//! wins; whether a candidate actually exists on disk is reported by the
//! host application.

use vstd::prelude::*;
use vstd::string::StringExecFns;

verus! {

/// The entry point of the sibling service, relative to the workspace root
/// (and, for the fallback, relative to the working directory).
pub const ENTRY_POINT_REL: &'static str = "packages/backend/src/index.ts";

/// The name of the optional environment-variables file at the workspace
/// root.
pub const ENV_FILE_NAME: &'static str = ".env";

/// The view of the candidate path built from an executable directory and
/// one relative ascent.
pub open spec fn spec_candidate(exe_dir: Seq<char>, ascent: Seq<char>) -> Seq<char> {
    exe_dir + "/"@ + ascent + "/"@ + ENTRY_POINT_REL@
}

/// The ordered relative ascents tried from the executable's directory.
/// Ascending depth covers a development build (the executable sits in a
/// build-output directory three levels below the workspace root) and the
/// deeper layouts of a packaged build.
pub fn default_ascents() -> (r: Vec<String>)
    ensures
        r@.len() == 3,
        r@[0]@ == "../../.."@,
        r@[1]@ == "../../../.."@,
        r@[2]@ == "../../../../.."@,
{
    let mut r: Vec<String> = Vec::new();
    r.push("../../..".to_owned());
    r.push("../../../..".to_owned());
    r.push("../../../../..".to_owned());
    r
}

/// The ordered candidate paths for the entry point: one per ascent when
/// the executable's directory is known, none otherwise.
pub fn entry_point_candidates(exe_dir: &Option<String>, ascents: &Vec<String>) -> (r: Vec<
    String,
>)
    ensures
        exe_dir is None ==> r@.len() == 0,
        exe_dir matches Some(dir) ==> {
            &&& r@.len() == ascents@.len()
            &&& forall|i: int|
                0 <= i < r@.len() ==> (#[trigger] r@[i])@ == spec_candidate(dir@, ascents@[i]@)
        },
    {
        let mut r: Vec<String> = Vec::new();
        match exe_dir {
            None => r,
            Some(dir) => {
                let mut i: usize = 0;
                while i < ascents.len()
                    invariant
                        0 <= i <= ascents@.len(),
                        r@.len() == i,
                        forall|j: int|
                            0 <= j < i ==> (#[trigger] r@[j])@ == spec_candidate(
                                dir@,
                                ascents@[j]@,
                            ),
                    decreases ascents@.len() - i,
                {
                    let mut c = dir.clone();
                    c.append("/");
                    c.append(ascents[i].as_str());
                    c.append("/");
                    c.append(ENTRY_POINT_REL);
                    r.push(c);
                    i = i + 1;
                }
                r
            },
        }
    }

/// How the entry point was resolved: by the candidate at a given index,
/// by the working-directory fallback, or not at all.
#[derive(Debug, Clone, Copy, PartialEq, Eq)]
pub enum EntryResolution {
    Candidate(usize),
    WorkingDirFallback,
    NotFound,
}

/// Which resolution wins, given whether each candidate resolved on disk
/// (`resolvable[i]` reports candidate `i`) and whether the
/// working-directory fallback exists: the first resolvable candidate, else
/// the fallback, else nothing.
pub fn resolve_entry_point(resolvable: &Vec<bool>, fallback_exists: bool) -> (r: EntryResolution)
    ensures
        r matches EntryResolution::Candidate(i) ==> {
            &&& 0 <= i < resolvable@.len()
            &&& resolvable@[i as int]
            &&& forall|j: int| 0 <= j < i ==> !resolvable@[j]
        },
        (exists|i: int| 0 <= i < resolvable@.len() && resolvable@[i]) ==> r is Candidate,
        (forall|i: int| 0 <= i < resolvable@.len() ==> !resolvable@[i]) ==> r == (if fallback_exists {
            EntryResolution::WorkingDirFallback
        } else {
            EntryResolution::NotFound
        }),
{
    let mut i: usize = 0;
    while i < resolvable.len()
        invariant
            0 <= i <= resolvable@.len(),
            forall|j: int| 0 <= j < i ==> !resolvable@[j],
        decreases resolvable@.len() - i,
    {
        if resolvable[i] {
            return EntryResolution::Candidate(i);
        }
        i = i + 1;
    }
    if fallback_exists {
        EntryResolution::WorkingDirFallback
    } else {
        EntryResolution::NotFound
    }
}

/// The path of the optional environment file for a given workspace root:
/// the entry point resolves to `<root>/packages/backend/src/index.ts`, and
/// the environment file, when present, sits at `<root>/.env`.
pub fn env_file_candidate(workspace_root: &str) -> (r: String)
    ensures
        r@ == workspace_root@ + "/"@ + ENV_FILE_NAME@,
{
    let mut r = workspace_root.to_owned();
    r.append("/");
    r.append(ENV_FILE_NAME);
    r
}

} // verus!
