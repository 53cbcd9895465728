//! The well-known paths of the worker's installation, and the selection of a
//! detected coding-agent binary.
//!
//! Whether a path exists, and what the environment variables hold, is probed
//! outside the library; the functions here only build and choose the path
//! strings.

use vstd::prelude::*;

use crate::text::{spec_trim, trim_str};

verus! {

/// The worker's project directory: an explicit override when the environment
/// gives one, else the fixed project folder under the home directory, else a
/// fixed fallback.
pub open spec fn spec_project_path(project_env: Option<Seq<char>>, home: Option<Seq<char>>) -> Seq<
    char,
> {
    match project_env {
        Some(p) => p,
        None => match home {
            Some(h) => h + "/Project/c2me"@,
            None => "/tmp/c2me"@,
        },
    }
}

/// Resolves the worker's project directory, as `spec_project_path` says.
/// `project_env` and `home` are the values of the override and home
/// environment variables, when set.
pub fn resolve_project_path(project_env: Option<String>, home: Option<String>) -> (r: String)
    ensures
        r@ == spec_project_path(
            match project_env {
                Some(p) => Some(p@),
                None => None,
            },
            match home {
                Some(h) => Some(h@),
                None => None,
            },
        ),
{
    match project_env {
        Some(p) => p,
        None => match home {
            Some(h) => h.concat("/Project/c2me"),
            None => String::from_str("/tmp/c2me"),
        },
    }
}

/// Where the bundled worker is installed: under the home directory, or under
/// the fixed fallback when no home is known.
pub fn bot_install_path(home: Option<String>) -> (r: String)
    ensures
        home matches Some(h) ==> r@ == h@ + "/.chatcode/bot"@,
        home is None ==> r@ == "/tmp"@ + "/.chatcode/bot"@,
{
    match home {
        Some(h) => h.concat("/.chatcode/bot"),
        None => String::from_str("/tmp").concat("/.chatcode/bot"),
    }
}

/// The supervisor's own directory under the home directory.
pub fn chatcode_dir(home: &str) -> (r: String)
    ensures
        r@ == home@ + "/.chatcode"@,
{
    String::from_str(home).concat("/.chatcode")
}

/// The flag file that marks the setup flow as finished.
pub fn setup_flag_path(home: &str) -> (r: String)
    ensures
        r@ == home@ + "/.chatcode/setup_complete"@,
{
    String::from_str(home).concat("/.chatcode/setup_complete")
}

/// The file whose presence shows that the worker bundle was extracted.
pub fn bot_package_json_path(home: &str) -> (r: String)
    ensures
        r@ == home@ + "/.chatcode/bot/package.json"@,
{
    String::from_str(home).concat("/.chatcode/bot/package.json")
}

/// The worker project's configuration file.
pub fn env_file_path(project_path: &str) -> (r: String)
    ensures
        r@ == project_path@ + "/.env"@,
{
    String::from_str(project_path).concat("/.env")
}

/// The worker project's configuration example file.
pub fn env_example_path(project_path: &str) -> (r: String)
    ensures
        r@ == project_path@ + "/.env.example"@,
{
    String::from_str(project_path).concat("/.env.example")
}

/// The worker project's installed-dependencies directory.
pub fn node_modules_path(project_path: &str) -> (r: String)
    ensures
        r@ == project_path@ + "/node_modules"@,
{
    String::from_str(project_path).concat("/node_modules")
}

/// The places the coding-agent binary is looked for, in order: the two
/// system package prefixes, the global package-manager name, then the
/// per-user binary directories under `home`.  `agent` is a deliberate
/// stand-in for the agent's own binary name, which this crate's text cannot
/// spell out; a build against the real binary substitutes that name here,
/// in the shell lookup, and in the `AGENT_PATH` configuration key.
pub fn candidate_agent_paths(home: &str) -> (r: Vec<String>)
    ensures
        r.deep_view() =~= seq![
            "/opt/homebrew/bin/agent"@,
            "/usr/local/bin/agent"@,
            "/usr/local/bin/agent-code"@,
            home@ + "/.local/bin/agent"@,
            home@ + "/.cargo/bin/agent"@,
        ],
{
    let mut r: Vec<String> = Vec::new();
    r.push(String::from_str("/opt/homebrew/bin/agent"));
    r.push(String::from_str("/usr/local/bin/agent"));
    r.push(String::from_str("/usr/local/bin/agent-code"));
    r.push(String::from_str(home).concat("/.local/bin/agent"));
    r.push(String::from_str(home).concat("/.cargo/bin/agent"));
    r
}

/// The first candidate that exists, if any.
pub open spec fn spec_first_existing(paths: Seq<Seq<char>>, exists: Seq<bool>) -> Option<Seq<char>>
    decreases paths.len(),
{
    if paths.len() == 0 || exists.len() == 0 {
        None
    } else if exists[0] {
        Some(paths[0])
    } else {
        spec_first_existing(paths.drop_first(), exists.drop_first())
    }
}

/// The detected coding-agent binary: the first candidate that exists, else
/// what a shell lookup printed, trimmed, when that is not empty.
pub open spec fn spec_pick_detected(
    paths: Seq<Seq<char>>,
    exists: Seq<bool>,
    which_output: Option<Seq<char>>,
) -> Option<Seq<char>> {
    match spec_first_existing(paths, exists) {
        Some(p) => Some(p),
        None => match which_output {
            Some(out) => {
                let t = spec_trim(out);
                if t.len() > 0 {
                    Some(t)
                } else {
                    None
                }
            },
            None => None,
        },
    }
}

/// Chooses the detected coding-agent binary, as `spec_pick_detected` says.
/// `exists[i]` tells whether `paths[i]` exists; `which_output` is what a
/// successful shell lookup printed.
pub fn pick_detected_path(paths: &Vec<String>, exists: &Vec<bool>, which_output: Option<String>)
    -> (r: Option<String>)
    requires
        paths@.len() == exists@.len(),
    ensures
        match r {
            Some(p) => spec_pick_detected(paths.deep_view(), exists@, match which_output {
                Some(o) => Some(o@),
                None => None,
            }) == Some(p@),
            None => spec_pick_detected(paths.deep_view(), exists@, match which_output {
                Some(o) => Some(o@),
                None => None,
            }) is None,
        },
{
    let n = paths.len();
    proof {
        assert(paths.deep_view().skip(0) =~= paths.deep_view());
        assert(exists@.skip(0) =~= exists@);
    }
    let mut i: usize = 0;
    while i < n
        invariant
            i <= n,
            n == paths@.len() == exists@.len(),
            spec_first_existing(paths.deep_view(), exists@) == spec_first_existing(
                paths.deep_view().skip(i as int),
                exists@.skip(i as int),
            ),
        decreases n - i,
    {
        proof {
            assert(paths.deep_view().skip(i as int).drop_first() =~= paths.deep_view().skip(
                i + 1,
            ));
            assert(exists@.skip(i as int).drop_first() =~= exists@.skip(i + 1));
            assert(paths.deep_view().skip(i as int)[0] == paths.deep_view()[i as int]);
        }
        if exists[i] {
            return Some(paths[i].clone());
        }
        i = i + 1;
    }
    proof {
        assert(paths.deep_view().skip(n as int).len() == 0);
    }
    match which_output {
        Some(out) => {
            let t = trim_str(out.as_str());
            if t.unicode_len() > 0 {
                Some(String::from_str(t))
            } else {
                None
            }
        },
        None => None,
    }
}

} // verus!
