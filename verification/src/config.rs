//! The run-wide configuration: credentials, endpoints, and the list of
//! domain targets to keep pointed at the current public IP.

use vstd::prelude::*;

verus! {

/// One managed DNS record, identified by its (domain, record type, subdomain)
/// triple. Each target is processed independently and in list order.
pub struct ConfigDomainsStruct {
    pub domain: String,
    pub dns_entry_type: String,
    pub subdomain: String,
}

/// The mathematical view of a domain target: each field as its character
/// sequence.
pub struct DomainTargetView {
    pub domain: Seq<char>,
    pub dns_entry_type: Seq<char>,
    pub subdomain: Seq<char>,
}

impl View for ConfigDomainsStruct {
    type V = DomainTargetView;

    open spec fn view(&self) -> DomainTargetView {
        DomainTargetView {
            domain: self.domain@,
            dns_entry_type: self.dns_entry_type@,
            subdomain: self.subdomain@,
        }
    }
}

/// The configuration of one run: one secret key and one API key for the DNS
/// provider, a webhook URL for status messages, the ordered list of IP-lookup
/// service URLs (only the first is used), the ordered list of domain targets,
/// and the provider's base URL. Immutable for the run's duration.
pub struct Config {
    pub secretkey: String,
    pub apikey: String,
    pub discord_webhook_url: String,
    pub check_ip_providers: Vec<String>,
    pub domains: Vec<ConfigDomainsStruct>,
    pub porkbun_base_url: String,
}

/// A configuration is usable only when it names at least one IP-lookup
/// service and at least one domain target; absence of either is a fatal
/// configuration error.
pub open spec fn config_wf(cfg: &Config) -> bool {
    &&& cfg.check_ip_providers@.len() >= 1
    &&& cfg.domains@.len() >= 1
}

/// Executable check of [`config_wf`], for callers outside verified code.
pub fn config_is_valid(cfg: &Config) -> (valid: bool)
    ensures
        valid == config_wf(cfg),
{
    cfg.check_ip_providers.len() >= 1 && cfg.domains.len() >= 1
}

} // verus!
