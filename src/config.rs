//! The greeter's settings, merged from the command line and the file.
use vstd::prelude::*;

verus! {

/// Settings as one source gives them: each may be missing.
pub struct PartialConfig {
    pub restricted_user: Option<String>,
    pub command: Option<Vec<String>>,
    pub bg_image: Option<String>,
}

/// The settings in force.
pub struct Config {
    /// A fixed username: the greeter then does not ask for one.
    pub restricted_user: Option<String>,
    /// The command started once the user is authenticated.
    pub command: Vec<String>,
    /// The background image's path.
    pub bg_image: Option<String>,
}

/// The first of two optional values that is there.
pub open spec fn first_of<T>(a: Option<T>, b: Option<T>) -> Option<T> {
    if a is Some {
        a
    } else {
        b
    }
}

/// The command started when no source names one: a lone `bash`.
pub open spec fn is_default_command(c: Seq<String>) -> bool {
    c.len() == 1 && c[0]@ == "bash"@
}

fn first_present<T>(a: Option<T>, b: Option<T>) -> (r: Option<T>)
    ensures
        r == first_of(a, b),
{
    match a {
        Some(x) => Some(x),
        None => b,
    }
}

impl Config {
    /// Merges two sources: a setting of `cli` wins over the same setting of
    /// `file`; where neither names a command, the default one is used.
    pub fn resolve(cli: PartialConfig, file: PartialConfig) -> (r: Config)
        ensures
            r.restricted_user == first_of(cli.restricted_user, file.restricted_user),
            r.bg_image == first_of(cli.bg_image, file.bg_image),
            match first_of(cli.command, file.command) {
                Some(c) => r.command == c,
                None => is_default_command(r.command@),
            },
    {
        let command = match first_present(cli.command, file.command) {
            Some(c) => c,
            None => {
                let mut c: Vec<String> = Vec::new();
                c.push("bash".to_owned());
                c
            },
        };
        Config {
            restricted_user: first_present(cli.restricted_user, file.restricted_user),
            command,
            bg_image: first_present(cli.bg_image, file.bg_image),
        }
    }
}

} // verus!
