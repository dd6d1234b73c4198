//! The sink's configuration and the defaults it falls back on.
use vstd::prelude::*;
use crate::encode::Encoding;

verus! {

/// Settings of one sink: where it writes, how it batches and how fast it sends.
#[derive(Clone, Debug)]
pub struct CloudwatchLogsSinkConfig {
    pub stream_name: String,
    pub group_name: String,
    /// The provider's region, by name.
    pub region: Option<String>,
    /// An endpoint to use in place of a region's.
    pub endpoint: Option<String>,
    pub batch_timeout: Option<u64>,
    pub batch_size: Option<usize>,
    pub encoding: Option<Encoding>,
    pub request_in_flight_limit: Option<usize>,
    pub request_timeout_secs: Option<u64>,
    pub request_rate_limit_duration_secs: Option<u64>,
    pub request_rate_limit_num: Option<u64>,
}

/// Bytes in a mebibyte.
pub const MEBIBYTE: u64 = 1048576;

/// Relies on bytesize's `mib`: `n` mebibytes in bytes.
#[verifier::external_body]
fn mib(n: u64) -> (r: u64)
    requires
        n * MEBIBYTE <= u64::MAX,
    ensures
        r == n * MEBIBYTE,
{
    bytesize::mib(n)
}

impl Default for CloudwatchLogsSinkConfig {
    fn default() -> (r: Self)
        ensures
            r.stream_name@ == Seq::<char>::empty(),
            r.group_name@ == Seq::<char>::empty(),
            r.region is None,
            r.endpoint is None,
            r.batch_timeout is None,
            r.batch_size is None,
            r.encoding is None,
            r.request_in_flight_limit is None,
            r.request_timeout_secs is None,
            r.request_rate_limit_duration_secs is None,
            r.request_rate_limit_num is None,
    {
        CloudwatchLogsSinkConfig {
            stream_name: String::new(),
            group_name: String::new(),
            region: None,
            endpoint: None,
            batch_timeout: None,
            batch_size: None,
            encoding: None,
            request_in_flight_limit: None,
            request_timeout_secs: None,
            request_rate_limit_duration_secs: None,
            request_rate_limit_num: None,
        }
    }
}

/// Where the client connects: an endpoint given outright, or a region named.
#[derive(Debug)]
pub enum RegionSetting {
    Endpoint(String),
    Named(String),
}

/// Whether rusoto knows `name` as a region.
pub uninterp spec fn region_known(name: Seq<char>) -> bool;

/// Relies on rusoto's `Region::from_str`: whether a region name parses, which
/// depends on the name alone; on failure, rusoto's description of it.
#[verifier::external_body]
fn parse_region(name: &str) -> (r: Result<(), String>)
    ensures
        r is Ok == region_known(name@),
{
    match name.parse::<rusoto_core::Region>() {
        Ok(_) => Ok(()),
        Err(e) => Err(e.to_string()),
    }
}

/// Whether the configuration says where to connect: an endpoint, or a region
/// name that rusoto knows.
pub open spec fn region_resolves(c: CloudwatchLogsSinkConfig) -> bool {
    match c.endpoint {
        Some(_) => true,
        None => match c.region {
            Some(n) => region_known(n@),
            None => false,
        },
    }
}

/// `v`, or `d` where it is unset.
pub open spec fn or_default<T>(v: Option<T>, d: T) -> T {
    match v {
        Some(x) => x,
        None => d,
    }
}

impl CloudwatchLogsSinkConfig {
    /// Checks that the configuration says where to connect.
    pub fn check_region(&self) -> (r: Result<(), String>)
        ensures
            r is Ok <==> region_resolves(*self),
            self.endpoint is None && self.region is None ==>
                (r matches Err(m) && m@ == "Must set either region or endpoint"@),
    {
        match self.region_setting() {
            Err(m) => Err(m),
            Ok(RegionSetting::Endpoint(_)) => Ok(()),
            Ok(RegionSetting::Named(n)) => parse_region(n.as_str()),
        }
    }

    /// Where the client connects: a configured endpoint wins over a region;
    /// with neither there is nowhere to connect.
    pub fn region_setting(&self) -> (r: Result<RegionSetting, String>)
        ensures
            match self.endpoint {
                Some(e) => r == Ok::<RegionSetting, String>(RegionSetting::Endpoint(e)),
                None => match self.region {
                    Some(n) => r == Ok::<RegionSetting, String>(RegionSetting::Named(n)),
                    None => r matches Err(m) && m@ == "Must set either region or endpoint"@,
                },
            },
    {
        match &self.endpoint {
            Some(e) => Ok(RegionSetting::Endpoint(e.clone())),
            None => match &self.region {
                Some(n) => Ok(RegionSetting::Named(n.clone())),
                None => Err("Must set either region or endpoint".to_string()),
            },
        }
    }

    /// Seconds a write may take before it is given up (default 60).
    pub fn timeout_secs(&self) -> (r: u64)
        ensures
            r == or_default(self.request_timeout_secs, 60),
    {
        match self.request_timeout_secs {
            Some(x) => x,
            None => 60,
        }
    }

    /// How many batches may be accepted at once (default 5).
    pub fn in_flight_limit(&self) -> (r: usize)
        ensures
            r == or_default(self.request_in_flight_limit, 5),
    {
        match self.request_in_flight_limit {
            Some(x) => x,
            None => 5,
        }
    }

    /// Length in seconds of the rate limit's window (default 1).
    pub fn rate_limit_duration_secs(&self) -> (r: u64)
        ensures
            r == or_default(self.request_rate_limit_duration_secs, 1),
    {
        match self.request_rate_limit_duration_secs {
            Some(x) => x,
            None => 1,
        }
    }

    /// How many writes the rate limit lets through per window (default 5).
    pub fn rate_limit_num(&self) -> (r: u64)
        ensures
            r == or_default(self.request_rate_limit_num, 5),
    {
        match self.request_rate_limit_num {
            Some(x) => x,
            None => 5,
        }
    }

    /// Seconds after the first buffered event that a batch is flushed (default 1).
    pub fn batch_timeout_secs(&self) -> (r: u64)
        ensures
            r == or_default(self.batch_timeout, 1),
    {
        match self.batch_timeout {
            Some(x) => x,
            None => 1,
        }
    }

    /// Encoded bytes at which a batch is flushed (default one mebibyte).
    pub fn batch_size_bytes(&self) -> (r: usize)
        ensures
            r == or_default(self.batch_size, MEBIBYTE as usize),
    {
        match self.batch_size {
            Some(x) => x,
            None => mib(1) as usize,
        }
    }
}

} // verus!
