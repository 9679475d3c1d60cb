//! The run's options, as the caller hands them in, and the pure decisions
//! derived from them.  Argument parsing itself happens outside the library.

use vstd::prelude::*;

verus! {

/// Options of one invocation.
#[derive(Debug, Clone)]
pub struct Cli {
    /// One or more usernames to investigate.
    pub usernames: Vec<String>,
    /// Disable colored output.
    pub no_color: bool,
    /// Update the site database before the run.
    pub update: bool,
    /// Route probes through the anonymizing proxy.
    pub tor: bool,
    /// Take a screenshot of each matched URL.
    pub screenshot: bool,
    /// Also report sites where nothing was found.
    pub verbose: bool,
    /// Download site contents for matches.
    pub download: bool,
    /// A custom database file.
    pub database: Option<String>,
    /// Restrict the run to one site.
    pub site: Option<String>,
    /// Run validation tests on all sites.
    pub test: bool,
}

impl Cli {
    /// The worker budget: high by default, reduced when the resource-heavy
    /// screenshot collaborator is active.
    pub fn max_workers(&self) -> (n: usize)
        ensures
            n == (if self.screenshot {
                8usize
            } else {
                32usize
            }),
            n > 0,
    {
        if self.screenshot {
            8
        } else {
            32
        }
    }

    /// The database file to load: the custom path when one was given.
    pub fn database_path(&self) -> (p: String)
        ensures
            p@ == (match self.database {
                Option::Some(d) => d@,
                Option::None => "data.json"@,
            }),
    {
        match &self.database {
            Option::Some(d) => d.clone(),
            Option::None => String::from_str("data.json"),
        }
    }
}

} // verus!
