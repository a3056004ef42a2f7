//! Configuration: the options a run is driven by. Loading from disk
//! and the environment lives outside the crate; merging and defaults
//! are logic and live here.

use vstd::prelude::*;

verus! {

/// The options of one invocation.
#[derive(Debug)]
pub struct Config {
    pub output_dir: String,
    pub quality: String,
    pub audio_only: bool,
    pub log_level: String,
    pub enable_file_logging: bool,
    pub enable_json_logging: bool,
    pub concurrent_downloads: Option<usize>,
    pub skip_duplicates: Option<bool>,
}

/// What the built-in defaults promise.
pub open spec fn is_default_config(c: Config) -> bool {
    &&& c.output_dir@ == "./downloads"@
    &&& c.quality@ == "best"@
    &&& !c.audio_only
    &&& c.log_level@ == "info"@
    &&& !c.enable_file_logging
    &&& !c.enable_json_logging
    &&& c.concurrent_downloads is None
    &&& c.skip_duplicates is None
}

impl Clone for Config {
    /// A clone is the same configuration.
    fn clone(&self) -> (r: Self)
        ensures
            r.output_dir@ == self.output_dir@,
            r.quality@ == self.quality@,
            r.audio_only == self.audio_only,
            r.log_level@ == self.log_level@,
            r.enable_file_logging == self.enable_file_logging,
            r.enable_json_logging == self.enable_json_logging,
            r.concurrent_downloads == self.concurrent_downloads,
            r.skip_duplicates == self.skip_duplicates,
    {
        Config {
            output_dir: self.output_dir.clone(),
            quality: self.quality.clone(),
            audio_only: self.audio_only,
            log_level: self.log_level.clone(),
            enable_file_logging: self.enable_file_logging,
            enable_json_logging: self.enable_json_logging,
            concurrent_downloads: self.concurrent_downloads,
            skip_duplicates: self.skip_duplicates,
        }
    }
}

impl Default for Config {
    /// The built-in defaults: download to `./downloads` at best
    /// quality, video with audio, plain console logging.
    fn default() -> (r: Config)
        ensures
            is_default_config(r),
    {
        Config {
            output_dir: "./downloads".to_owned(),
            quality: "best".to_owned(),
            audio_only: false,
            log_level: "info".to_owned(),
            enable_file_logging: false,
            enable_json_logging: false,
            concurrent_downloads: None,
            skip_duplicates: None,
        }
    }
}

/// Overrides given on the command line, each optional.
#[derive(Debug)]
pub struct CliConfig {
    pub output: Option<String>,
    pub quality: Option<String>,
    pub audio_only: bool,
    pub enable_file_logging: bool,
    pub enable_json_logging: bool,
}

impl Default for CliConfig {
    /// No overrides.
    fn default() -> (r: CliConfig)
        ensures
            r.output is None,
            r.quality is None,
            !r.audio_only,
            !r.enable_file_logging,
            !r.enable_json_logging,
    {
        CliConfig {
            output: None,
            quality: None,
            audio_only: false,
            enable_file_logging: false,
            enable_json_logging: false,
        }
    }
}

impl Config {
    /// The built-in defaults.
    pub fn new() -> (r: Config)
        ensures
            is_default_config(r),
    {
        Config::default()
    }

    /// Lays the command-line overrides over this configuration: a
    /// given output directory or quality replaces the current one,
    /// and each boolean flag can switch its option on but never off.
    pub fn merge_with_cli(&mut self, cli_config: CliConfig)
        ensures
            final(self).output_dir == match cli_config.output {
                Option::Some(o) => o,
                Option::None => old(self).output_dir,
            },
            final(self).quality == match cli_config.quality {
                Option::Some(q) => q,
                Option::None => old(self).quality,
            },
            final(self).audio_only == (old(self).audio_only || cli_config.audio_only),
            final(self).enable_file_logging == (old(self).enable_file_logging
                || cli_config.enable_file_logging),
            final(self).enable_json_logging == (old(self).enable_json_logging
                || cli_config.enable_json_logging),
            final(self).log_level == old(self).log_level,
            final(self).concurrent_downloads == old(self).concurrent_downloads,
            final(self).skip_duplicates == old(self).skip_duplicates,
    {
        match cli_config.output {
            Option::Some(output) => {
                self.output_dir = output;
            },
            Option::None => {},
        }
        match cli_config.quality {
            Option::Some(quality) => {
                self.quality = quality;
            },
            Option::None => {},
        }
        if cli_config.audio_only {
            self.audio_only = true;
        }
        if cli_config.enable_file_logging {
            self.enable_file_logging = true;
        }
        if cli_config.enable_json_logging {
            self.enable_json_logging = true;
        }
    }
}

} // verus!
