//! Settings of the monitor and of the URL classifier.

use vstd::prelude::*;
use vstd::string::StringExecFns;

verus! {

/// Host suffix of the Outlook link-protection service.
pub const OUTLOOK_SUFFIX: &'static str = "safelinks.protection.outlook.com";

/// Host suffix under which the Azure mail redirector is configured.
pub const AZURE_MAIL_SUFFIX: &'static str = "nam.safelink.emails.azure.net";

/// Settings, fixed once at start-up. Durations are in milliseconds.
#[derive(Debug)]
pub struct Config {
    /// Delay between two checks while everything works.
    pub check_interval: u64,
    /// Ceiling of the delay after repeated failures.
    pub max_backoff: u64,
    /// Number of consecutive failures that is still tolerated.
    pub max_retries: u32,
    /// Host suffixes of the redirectors that are unwrapped.
    pub domains_to_unwrap: Vec<String>,
}

impl Config {
    /// The configured host suffixes as sequences of characters.
    pub open spec fn domains(&self) -> Seq<Seq<char>> {
        self.domains_to_unwrap.deep_view()
    }

    /// The base delay does not exceed the ceiling.
    pub open spec fn wf(&self) -> bool {
        self.check_interval <= self.max_backoff
    }
}

impl Default for Config {
    /// One second between checks, thirty seconds at most, three retries,
    /// and the two known redirector families.
    fn default() -> (c: Config)
        ensures
            c.check_interval == 1000,
            c.max_backoff == 30_000,
            c.max_retries == 3,
            c.domains() == seq![OUTLOOK_SUFFIX@, AZURE_MAIL_SUFFIX@],
            c.wf(),
    {
        let mut domains: Vec<String> = Vec::new();
        domains.push(String::from_str(OUTLOOK_SUFFIX));
        domains.push(String::from_str(AZURE_MAIL_SUFFIX));
        let c = Config {
            check_interval: 1000,
            max_backoff: 30_000,
            max_retries: 3,
            domains_to_unwrap: domains,
        };
        assert(c.domains() =~= seq![OUTLOOK_SUFFIX@, AZURE_MAIL_SUFFIX@]);
        c
    }
}

} // verus!
