//! Service configuration: the addresses and database paths the server
//! needs, and the DNS timeouts with their defaults.

use vstd::prelude::*;

verus! {

/// DNS timeouts, in milliseconds.
pub struct DnsConfig {
    pub reverse_dns_timeout_ms: u64,
    pub blocklist_timeout_ms: u64,
}

/// The service's configuration.
pub struct AppConfig {
    pub server_address: String,
    pub geo_db_path: String,
    pub asn_db_path: String,
    pub dns: DnsConfig,
}

/// The default reverse-DNS timeout: one second.
pub fn default_reverse_dns_timeout() -> (r: u64)
    ensures
        r == 1000,
{
    1000
}

/// The default reputation-lookup timeout: two seconds.
pub fn default_blocklist_timeout() -> (r: u64)
    ensures
        r == 2000,
{
    2000
}

impl DnsConfig {
    /// Builds the DNS configuration from optional settings, filling in
    /// the defaults where a value is absent.
    pub fn with_defaults(reverse_dns_timeout_ms: Option<u64>, blocklist_timeout_ms: Option<u64>)
        -> (r: DnsConfig)
        ensures
            r.reverse_dns_timeout_ms == match reverse_dns_timeout_ms {
                Some(v) => v,
                None => 1000u64,
            },
            r.blocklist_timeout_ms == match blocklist_timeout_ms {
                Some(v) => v,
                None => 2000u64,
            },
    {
        DnsConfig {
            reverse_dns_timeout_ms: match reverse_dns_timeout_ms {
                Some(v) => v,
                None => default_reverse_dns_timeout(),
            },
            blocklist_timeout_ms: match blocklist_timeout_ms {
                Some(v) => v,
                None => default_blocklist_timeout(),
            },
        }
    }
}

} // verus!
