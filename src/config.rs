use vstd::prelude::*;
use vstd::string::StringExecFns;

use crate::bootstrap::{plan_of, Bootstrapper};
use crate::general::GeneralConfig;
use crate::logging::LoggingConfig;
use crate::postgres::PostgresConfig;
use crate::redis::RedisConfig;

verus! {

/// A section of the configuration file.
#[derive(Debug, Clone, Copy, PartialEq, Eq, Structural)]
pub enum Section {
    General,
    Logging,
    Postgres,
    Redis,
}

impl Section {
    pub open spec fn spec_tag(self) -> Seq<char> {
        match self {
            Section::General => "[general]"@,
            Section::Logging => "[logging]"@,
            Section::Postgres => "[postgres]"@,
            Section::Redis => "[redis]"@,
        }
    }

    /// The section's header as it stands in the file.
    pub fn tag(&self) -> (r: &'static str)
        ensures
            r@ == self.spec_tag(),
    {
        match self {
            Section::General => "[general]",
            Section::Logging => "[logging]",
            Section::Postgres => "[postgres]",
            Section::Redis => "[redis]",
        }
    }

    /// A load error of this section, tagged with the section's header.
    pub fn error(&self, cause: &str) -> (r: String)
        ensures
            r@ == self.spec_tag() + ": "@ + cause@,
    {
        String::from_str(self.tag()).concat(": ").concat(cause)
    }
}

/// The whole configuration; a resource section that is absent is not started.
pub struct Config {
    pub general: GeneralConfig,
    pub logging: LoggingConfig,
    pub postgres: Option<PostgresConfig>,
    pub redis: Option<RedisConfig>,
}

impl Config {
    /// The start-up sequence this configuration asks for: a stage for each resource
    /// it configures, and the pre-run stage where a pre-run task is given.
    pub fn bootstrapper(&self, pre_run: bool) -> (r: Bootstrapper)
        ensures
            r.wf(),
            r.spec_plan() == plan_of(self.postgres is Some, self.redis is Some, pre_run),
            r.spec_completed() == 0,
            r.spec_failure() is None,
    {
        Bootstrapper::new(self.postgres.is_some(), self.redis.is_some(), pre_run)
    }
}

} // verus!
