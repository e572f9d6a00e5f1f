//! The per-user locations that the supervisor works with: the
//! configuration file, the gateway's log, and the places where the gateway
//! executable is looked for.
//!
//! Paths are texts here. The home directory is taken as text too, so a
//! home directory whose name is not valid UTF-8 is not found under the
//! paths that this module builds.

use crate::command::command_text;
use crate::command::CommandOutput;
use crate::command::run_command_output;
use crate::text::chars_of;
use crate::text::opt_view;
use crate::text::views;
use vstd::prelude::*;
use vstd::string::StringExecFns;

verus! {

/// `rel` below `base`: the two are joined by one `/`, which is left out
/// when `base` is empty or already ends in one.
pub open spec fn joined(base: Seq<char>, rel: Seq<char>) -> Seq<char> {
    if base.len() == 0 || base.last() == '/' {
        base + rel
    } else {
        base + seq!['/'] + rel
    }
}

/// The path of `rel` below the directory `base`.
pub fn join_path(base: &str, rel: &str) -> (r: String)
    ensures
        r@ == joined(base@, rel@),
{
    let chars = chars_of(base);
    let mut r = String::from_str(base);
    if chars.len() > 0 && chars[chars.len() - 1] != '/' {
        proof {
            reveal_strlit("/");
            assert("/"@ =~= seq!['/']);
        }
        r.append("/");
    }
    r.append(rel);
    r
}

/// Calls `dirs::home_dir` and hands its answer on as text. Nothing is
/// promised of the answer: it depends on the environment and on the user
/// database. A home directory whose name is not valid UTF-8 comes out
/// with a replacement character in the place of each invalid part, so the
/// paths that are built from it then name another place than the
/// directory itself.
#[verifier::external_body]
fn home_dir() -> (r: Option<String>) {
    match dirs::home_dir() {
        Some(home) => Some(home.to_string_lossy().into_owned()),
        None => None,
    }
}

/// The configuration file of a user whose home directory is `home`.
pub open spec fn config_file_in(home: Seq<char>) -> Seq<char> {
    joined(joined(home, ".openclaw"@), "openclaw.json"@)
}

/// The gateway's log file of a user whose home directory is `home`.
pub open spec fn log_file_in(home: Seq<char>) -> Seq<char> {
    joined(home, ".openclaw/desktop-gateway.log"@)
}

/// The gateway's log file when the home directory is unknown.
pub open spec fn fallback_log_file() -> Seq<char> {
    "/tmp/openclaw-gateway.log"@
}

/// The per-user places where the gateway executable is installed, in the
/// order in which they are tried.
pub open spec fn bin_candidates_in(home: Seq<char>) -> Seq<Seq<char>> {
    seq![joined(home, ".npm-global/bin/openclaw"@), joined(home, ".local/bin/openclaw"@)]
}

/// Where the configuration file lies, given the home directory: nowhere
/// when the home directory is unknown.
pub fn config_path_for(home: Option<String>) -> (r: Option<String>)
    ensures
        r is Some <==> home is Some,
        r matches Some(p) ==> p@ == config_file_in(home->0@),
{
    match home {
        Some(home) => {
            let dir = join_path(home.as_str(), ".openclaw");
            Some(join_path(dir.as_str(), "openclaw.json"))
        },
        None => None,
    }
}

/// Where the gateway's log lies, given the home directory.
pub fn log_path_for(home: Option<String>) -> (r: String)
    ensures
        home matches Some(h) ==> r@ == log_file_in(h@),
        home is None ==> r@ == fallback_log_file(),
{
    match home {
        Some(home) => join_path(home.as_str(), ".openclaw/desktop-gateway.log"),
        None => String::from_str("/tmp/openclaw-gateway.log"),
    }
}

/// Where the gateway executable is looked for, given the home directory:
/// nowhere per-user when the home directory is unknown.
pub fn bin_candidates_for(home: Option<String>) -> (r: Vec<String>)
    ensures
        home matches Some(h) ==> views(r@) == bin_candidates_in(h@),
        home is None ==> r@.len() == 0,
{
    let mut r: Vec<String> = Vec::new();
    match home {
        Some(home) => {
            r.push(join_path(home.as_str(), ".npm-global/bin/openclaw"));
            r.push(join_path(home.as_str(), ".local/bin/openclaw"));
            assert(views(r@) =~= bin_candidates_in(home@));
        },
        None => {},
    }
    r
}

/// The first candidate that exists, if any does. `exists` says of each
/// candidate, by its position, whether it exists; a candidate without an
/// entry counts as missing.
pub open spec fn first_existing(candidates: Seq<Seq<char>>, exists: Seq<bool>) -> Option<
    Seq<char>,
>
    decreases candidates.len(),
{
    if candidates.len() == 0 || exists.len() == 0 {
        None
    } else if exists[0] {
        Some(candidates[0])
    } else {
        first_existing(candidates.drop_first(), exists.drop_first())
    }
}

/// The gateway executable: the first per-user candidate that exists, else
/// what the lookup on the search path printed, else none.
pub open spec fn found_bin(
    candidates: Seq<Seq<char>>,
    exists: Seq<bool>,
    lookup: Option<CommandOutput>,
) -> Option<Seq<char>> {
    match first_existing(candidates, exists) {
        Some(path) => Some(path),
        None => command_text(lookup),
    }
}

/// Whether the search path has to be looked at: only when no per-user
/// candidate exists.
pub fn needs_path_lookup(candidates: &Vec<String>, exists: &Vec<bool>) -> (needed: bool)
    ensures
        needed == (first_existing(views(candidates@), exists@) is None),
{
    find_openclaw_bin(candidates, exists, None).is_none()
}

/// Picks the gateway executable. The per-user candidates are tried in
/// order; the lookup on the search path counts only when none of them
/// exists.
pub fn find_openclaw_bin(
    candidates: &Vec<String>,
    exists: &Vec<bool>,
    lookup: Option<CommandOutput>,
) -> (r: Option<String>)
    ensures
        opt_view(r) == found_bin(views(candidates@), exists@, lookup),
{
    let mut i: usize = 0;
    proof {
        assert(views(candidates@).skip(0) =~= views(candidates@));
        assert(exists@.skip(0) =~= exists@);
    }
    while i < candidates.len() && i < exists.len()
        invariant
            i <= candidates@.len(),
            i <= exists@.len(),
            first_existing(views(candidates@), exists@) == first_existing(
                views(candidates@).skip(i as int),
                exists@.skip(i as int),
            ),
        decreases candidates@.len() - i,
    {
        let ghost c = views(candidates@).skip(i as int);
        let ghost e = exists@.skip(i as int);
        if exists[i] {
            assert(c[0] == candidates@[i as int]@);
            return Some(candidates[i].clone());
        }
        proof {
            assert(c.drop_first() =~= views(candidates@).skip(i + 1));
            assert(e.drop_first() =~= exists@.skip(i + 1));
        }
        i = i + 1;
    }
    run_command_output(lookup)
}

/// Where the current user's configuration file lies, if the home
/// directory can be determined.
pub fn config_path() -> (r: Option<String>)
    ensures
        r matches Some(p) ==> exists|home: Seq<char>| p@ == config_file_in(home),
{
    config_path_for(home_dir())
}

/// Where the current user's gateway log lies.
pub fn log_path() -> (r: String)
    ensures
        r@ == fallback_log_file() || exists|home: Seq<char>| r@ == log_file_in(home),
{
    log_path_for(home_dir())
}

/// Where the gateway executable is looked for on behalf of the current
/// user.
pub fn bin_candidates() -> (r: Vec<String>)
    ensures
        r@.len() == 0 || exists|home: Seq<char>| views(r@) == bin_candidates_in(home),
{
    bin_candidates_for(home_dir())
}

} // verus!
