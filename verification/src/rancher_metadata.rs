//! The metadata-backend client model: the decomposition of a metadata
//! document into its two derived environment entries, and the bounded
//! retry policy of the fetch.
//!
//! The fetch itself is best-effort and performed by the driver; the
//! policy — linear backoff, at most five retries — and the decomposition
//! are decided here.
use vstd::prelude::*;

verus! {

/// The number of retries (and so of backoff sleeps) the metadata fetch
/// may make after the first failed attempt.
pub const RETRY_LIMIT: u64 = 5;

/// The container part of a metadata document.
pub struct Container {
    pub primary_ip: String,
}

/// The host labels of a metadata document.
pub struct Labels {
    pub fqdn: String,
}

/// The host part of a metadata document.
pub struct Host {
    pub labels: Labels,
}

/// A fetched metadata document: the fields the enrichment reads.
pub struct Info {
    pub container: Container,
    pub host: Host,
}

impl Info {
    /// The two environment entries this document contributes.
    pub open spec fn spec_entries(&self) -> Map<Seq<char>, Seq<char>> {
        Map::<Seq<char>, Seq<char>>::empty().insert(
            "RANCHER_IP"@,
            self.container.primary_ip@,
        ).insert("STATSD_HOST"@, self.host.labels.fqdn@)
    }

    /// Decomposes the document into its two environment entries.
    pub fn into_iter(self) -> (r: IntoIter)
        ensures
            match r.rancher_ip {
                Some(v) => v@ == self.container.primary_ip@,
                None => false,
            },
            match r.statsd_host {
                Some(v) => v@ == self.host.labels.fqdn@,
                None => false,
            },
    {
        IntoIter { rancher_ip: Some(self.container.primary_ip), statsd_host: Some(self.host.labels.fqdn) }
    }
}

/// Yields the two derived environment entries, internal address first.
pub struct IntoIter {
    pub rancher_ip: Option<String>,
    pub statsd_host: Option<String>,
}

impl IntoIter {
    /// The next derived entry: first `RANCHER_IP`, then `STATSD_HOST`,
    /// then nothing.
    pub fn next(&mut self) -> (r: Option<(String, String)>)
        ensures
            match old(self).rancher_ip {
                Some(ip) => {
                    &&& match r {
                        Some(p) => p.0@ == "RANCHER_IP"@ && p.1@ == ip@,
                        None => false,
                    }
                    &&& final(self).rancher_ip is None
                    &&& final(self).statsd_host == old(self).statsd_host
                },
                None => match old(self).statsd_host {
                    Some(v) => {
                        &&& match r {
                            Some(p) => p.0@ == "STATSD_HOST"@ && p.1@ == v@,
                            None => false,
                        }
                        &&& final(self).rancher_ip is None
                        &&& final(self).statsd_host is None
                    },
                    None => r is None && *final(self) == *old(self),
                },
            },
    {
        if self.rancher_ip.is_some() {
            let val = self.rancher_ip.take().unwrap();
            Some((String::from_str("RANCHER_IP"), val))
        } else if self.statsd_host.is_some() {
            let val = self.statsd_host.take().unwrap();
            Some((String::from_str("STATSD_HOST"), val))
        } else {
            None
        }
    }
}

/// The backoff before the next attempt: after the `failures`-th failed
/// attempt the driver waits `failures` seconds, up to `RETRY_LIMIT`
/// failures; after that the fetch gives up and the last error stands.
pub fn retry_delay(failures: u64) -> (r: Option<u64>)
    ensures
        failures <= RETRY_LIMIT ==> r == Some(failures),
        failures > RETRY_LIMIT ==> r is None,
{
    if failures <= RETRY_LIMIT {
        Some(failures)
    } else {
        None
    }
}

/// What one fetch attempt against the metadata backend produced.
pub enum Attempt {
    /// The backend answered: a document, or a report that none exists.
    Success(Option<Info>),
    /// The attempt failed, with an error description.
    Failure(String),
}

/// The outcome of the bounded retry loop over a sequence of attempt
/// outcomes: the first success wins; after `RETRY_LIMIT` failed retries
/// the last error is propagated; `None` when the sequence is too short to
/// decide.
pub open spec fn spec_retry(attempts: Seq<Attempt>, failures: nat) -> Option<
    Result<Option<Info>, String>,
>
    decreases attempts.len(),
{
    if attempts.len() == 0 {
        None
    } else {
        match attempts[0] {
            Attempt::Success(v) => Some(Result::Ok(v)),
            Attempt::Failure(e) => if failures + 1 > RETRY_LIMIT {
                Some(Result::Err(e))
            } else {
                spec_retry(attempts.skip(1), failures + 1)
            },
        }
    }
}

/// Replays the retry policy over a sequence of attempt outcomes: what the
/// metadata fetch returns when its successive attempts come out as given.
pub fn run_retry(attempts: Vec<Attempt>) -> (r: Option<Result<Option<Info>, String>>)
    ensures
        r == spec_retry(attempts@, 0),
{
    let mut rest = attempts;
    let mut failures: u64 = 0;
    loop
        invariant_except_break
            failures <= RETRY_LIMIT,
            spec_retry(attempts@, 0) == spec_retry(rest@, failures as nat),
        ensures
            spec_retry(attempts@, 0) == spec_retry(rest@, failures as nat),
            rest@.len() == 0,
        decreases rest@.len(),
    {
        if rest.len() == 0 {
            break;
        }
        let ghost pre = rest@;
        let first = rest.remove(0);
        proof {
            assert(rest@ =~= pre.skip(1));
        }
        match first {
            Attempt::Success(v) => {
                return Some(Result::Ok(v));
            },
            Attempt::Failure(e) => {
                if failures + 1 > RETRY_LIMIT {
                    return Some(Result::Err(e));
                }
                failures = failures + 1;
            },
        }
    }
    proof {
        assert(spec_retry(rest@, failures as nat) is None);
    }
    None
}

} // verus!
