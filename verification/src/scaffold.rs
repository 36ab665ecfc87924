//! Project scaffolding: the command that sets up a new guest-program
//! project from the template repository, and the development-mode flag.
//!
//! Fetching the template and creating directories is I/O and happens
//! outside this library; here stands the decision logic — which command to
//! run, and what a flag value means.

use vstd::prelude::*;

verus! {

/// Where the project template lives.
pub const TEMPLATE_REPOSITORY_URL: &'static str =
    "https://github.com/Monero-Chan-Foundation/monerochan-project-template";

/// A request to set up a new project: its name, the template choice, and
/// the template version (branch or tag) to fetch.
pub struct NewCmd {
    /// The name of the project; also the directory it is created in.
    pub name: String,
    /// Use the bare template: just a program and a script.
    pub bare: bool,
    /// Version of the template repository to use.
    pub version: String,
}

impl NewCmd {
    /// The argument vector of the version-control invocation that fetches
    /// the template: a shallow, quiet clone of the requested version into
    /// the project directory.
    pub fn clone_args(&self) -> (r: Vec<String>)
        ensures
            r@.len() == 7,
            r@[0]@ == "clone"@,
            r@[1]@ == "--branch"@,
            r@[2]@ == self.version@,
            r@[3]@ == "--quiet"@,
            r@[4]@ == TEMPLATE_REPOSITORY_URL@,
            r@[5]@ == self.name@,
            r@[6]@ == "--depth=1"@,
    {
        let mut args: Vec<String> = Vec::new();
        args.push(String::from_str("clone"));
        args.push(String::from_str("--branch"));
        args.push(self.version.clone());
        args.push(String::from_str("--quiet"));
        args.push(String::from_str(TEMPLATE_REPOSITORY_URL));
        args.push(self.name.clone());
        args.push(String::from_str("--depth=1"));
        args
    }
}

/// Whether a flag value spells the word true, in any letter case.
pub open spec fn spec_is_true_ci(s: Seq<char>) -> bool {
    &&& s.len() == 4
    &&& (s[0] == 't' || s[0] == 'T')
    &&& (s[1] == 'r' || s[1] == 'R')
    &&& (s[2] == 'u' || s[2] == 'U')
    &&& (s[3] == 'e' || s[3] == 'E')
}

/// Whether a development-mode flag value enables development mode.
pub open spec fn spec_dev_mode_enabled(s: Seq<char>) -> bool {
    (s.len() == 1 && s[0] == '1') || spec_is_true_ci(s)
}

/// Whether the development-mode flag value enables the smaller development
/// circuit: the value `1`, or the word true in any letter case. The flag
/// affects only the proving engine, not this client.
pub fn monerochan_dev_mode(value: &str) -> (r: bool)
    ensures
        r == spec_dev_mode_enabled(value@),
{
    let n = value.unicode_len();
    if n == 1 {
        value.get_char(0) == '1'
    } else if n == 4 {
        let c0 = value.get_char(0);
        let c1 = value.get_char(1);
        let c2 = value.get_char(2);
        let c3 = value.get_char(3);
        (c0 == 't' || c0 == 'T') && (c1 == 'r' || c1 == 'R') && (c2 == 'u' || c2 == 'U') && (c3
            == 'e' || c3 == 'E')
    } else {
        false
    }
}

} // verus!
