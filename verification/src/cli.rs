//! The command-line surface as plain data, and its validation rules.
//! Argument parsing itself happens outside the crate and hands the
//! parsed values in as this structure.

use vstd::prelude::*;
use vstd::string::StringExecFns;

verus! {

/// The shells completions could be generated for.
#[derive(Debug, Clone, Copy, PartialEq, Eq, Structural)]
pub enum Shell {
    Bash,
    Zsh,
    Fish,
    PowerShell,
    Elvish,
}

/// The subcommands.
#[derive(Debug)]
pub enum Commands {
    /// Show the current configuration.
    Config,
    /// Show the download history.
    History { limit: usize, search: Option<String>, export: Option<String> },
    /// Clear the download history, or only its older entries.
    ClearHistory { older_than: Option<i64> },
    /// Generate shell completions.
    Completions { shell: Shell },
}

/// Every option of one invocation.
#[derive(Debug)]
pub struct Cli {
    pub url: Option<String>,
    pub output: Option<String>,
    pub quality: Option<String>,
    pub audio_only: bool,
    pub playlist: bool,
    pub info: bool,
    pub interactive: bool,
    pub batch: Option<String>,
    pub concurrent: usize,
    pub stop_on_error: bool,
    pub clipboard: bool,
    pub watch: bool,
    pub range: Option<String>,
    pub folder: Option<String>,
    pub resume: bool,
    pub verbose: u8,
    pub quiet: bool,
    pub log_file: bool,
    pub log_json: bool,
    pub config: Option<String>,
    pub command: Option<Commands>,
}

/// When an invocation makes no sense: it names nothing to do, or asks
/// for quiet and verbose at once.
pub open spec fn spec_missing_work(cli: &Cli) -> bool {
    cli.url is None && cli.batch is None && cli.command is None && !cli.interactive
}

impl Cli {
    /// Rejects an invocation that names nothing to do, and one that
    /// asks for quiet and verbose output at once; everything else
    /// passes.
    pub fn validate(&self) -> (r: Result<(), String>)
        ensures
            r is Ok <==> (!spec_missing_work(self) && !(self.quiet && self.verbose > 0)),
            r matches Err(m) ==> (m@ == "No URL provided. Use --help for usage information."@ || m@
                == "Cannot use both --quiet and --verbose flags"@),
            spec_missing_work(self) ==> (r matches Err(m) && m@
                == "No URL provided. Use --help for usage information."@),
    {
        let no_work = self.url.is_none() && self.batch.is_none() && self.command.is_none()
            && !self.interactive;
        if no_work {
            return Err("No URL provided. Use --help for usage information.".to_owned());
        }
        if self.quiet && self.verbose > 0 {
            return Err("Cannot use both --quiet and --verbose flags".to_owned());
        }
        Ok(())
    }
}

} // verus!
