//! The staged refresh: what the cache asks of the remote API, what it is
//! handed back, and the model of the cache that its operations follow.
use vstd::prelude::*;
use crate::cloudflare::{CloudflareListZonesResponse, CloudflareResponse, DNSRecord};
use crate::models::{CustomUserDetails, FetchError};

verus! {

/// How a refresh ended, when it did not succeed.
#[derive(Debug, Clone, PartialEq, Eq)]
pub enum RefreshError {
    /// The credential could not be verified; nothing else was fetched.
    IdentityUnverified,
    /// The zone list could not be fetched, or the API reported failure.
    ZoneListFailed,
    /// The DNS records of this zone could not be fetched, or the API
    /// reported failure; no later zone was fetched.
    DnsListFailed(String),
    /// Another refresh is in progress; nothing was changed.
    RefreshAlreadyInProgress,
    /// The run that this answer belongs to is no longer in progress: it was
    /// cancelled, or the credential changed.
    RefreshCancelled,
}

/// A read of a value that was never filled in.
#[derive(Debug, Clone, Copy, PartialEq, Eq)]
pub struct NotAvailable;

/// A call to the remote API.
#[derive(Debug, Clone)]
pub enum RemoteRequest {
    /// Verify the credential and fetch the user's details.
    VerifyIdentity,
    /// List the zones.
    ListZones,
    /// List the DNS records of the zone with this id.
    ListDns(String),
}

/// A call that a refresh needs made, with the credential to make it with.
#[derive(Debug, Clone)]
pub struct RemoteCall {
    /// The run that asks; its answer is handed back under this number.
    pub run: u64,
    /// The credential to send.
    pub token: String,
    /// What to ask.
    pub request: RemoteRequest,
}

/// The answer to a [`RemoteCall`].
#[derive(Debug)]
pub enum RemoteReply {
    /// The user summary, or why the credential was not verified.
    Identity(Result<CustomUserDetails, FetchError>),
    /// The zone list envelope.
    Zones(Result<CloudflareResponse<Vec<CloudflareListZonesResponse>>, FetchError>),
    /// The DNS record list envelope.
    Dns(Result<CloudflareResponse<Vec<DNSRecord>>, FetchError>),
}

/// What a refresh does next.
#[derive(Debug)]
pub enum RefreshStep {
    /// Make this call and hand its answer back.
    Fetch(RemoteCall),
    /// The run is over, with this outcome.
    Finished(Result<(), RefreshError>),
}

/// The answer that a refresh in progress waits for.
#[derive(Debug, Clone, Copy)]
pub enum RefreshStage {
    /// The identity check.
    Identity,
    /// The zone list.
    Zones,
    /// The DNS records of the zone at this index of the zone list.
    Dns(usize),
}

/// The cache as a value: the credential, the verified identity, the zones in
/// the order they came, the DNS records per zone id, the refresh in progress
/// (its number and stage), and the number the next refresh gets.
pub struct CacheView {
    pub credential: String,
    pub identity: Option<CustomUserDetails>,
    pub zones: Seq<CloudflareListZonesResponse>,
    pub dns: Map<Seq<char>, Seq<DNSRecord>>,
    pub run: Option<(u64, RefreshStage)>,
    pub next_run: u64,
}

/// The ids of the zones, in order.
pub open spec fn zone_ids(zones: Seq<CloudflareListZonesResponse>) -> Seq<Seq<char>> {
    zones.map_values(|z: CloudflareListZonesResponse| z.id@)
}

/// What holds of the cache in every state: the zone list fits in memory, each zone with DNS records is in
/// the zone list, and while DNS records are being fetched, exactly the zones
/// before the one awaited have them.
pub open spec fn cache_invariant(v: CacheView) -> bool {
    &&& v.zones.len() <= usize::MAX
    &&& forall|k: Seq<char>| #[trigger] v.dns.dom().contains(k) ==> zone_ids(v.zones).contains(k)
    &&& match v.run {
        Some((_, RefreshStage::Dns(next))) => {
            &&& next < v.zones.len()
            &&& v.dns.dom() == zone_ids(v.zones.subrange(0, next as int)).to_set()
        },
        _ => true,
    }
}

/// The number after `n`, starting over at 0 after the largest.
pub open spec fn next_run_id(n: u64) -> u64 {
    if n == u64::MAX {
        0
    } else {
        (n + 1) as u64
    }
}

/// The cache after a new credential: nothing derived from the old one is
/// kept, and any refresh in progress is dropped.
pub open spec fn set_credential_spec(v: CacheView, token: String) -> CacheView {
    CacheView {
        credential: token,
        identity: None,
        zones: Seq::empty(),
        dns: Map::empty(),
        run: None,
        next_run: v.next_run,
    }
}

/// Starting a refresh: refused while one is in progress, else the identity
/// check is asked for with the current credential.
pub open spec fn begin_refresh_spec(v: CacheView) -> (CacheView, Result<RemoteCall, RefreshError>) {
    if v.run is Some {
        (v, Err(RefreshError::RefreshAlreadyInProgress))
    } else {
        (
            CacheView { run: Some((v.next_run, RefreshStage::Identity)), next_run: next_run_id(v.next_run), ..v },
            Ok(RemoteCall { run: v.next_run, token: v.credential, request: RemoteRequest::VerifyIdentity }),
        )
    }
}

/// Cancelling: the refresh in progress, if any, is dropped; what it stored stays.
pub open spec fn cancel_refresh_spec(v: CacheView) -> CacheView {
    CacheView { run: None, ..v }
}

/// Ends the run with an outcome.
pub open spec fn end_run_spec(v: CacheView, outcome: Result<(), RefreshError>) -> (CacheView, RefreshStep) {
    (CacheView { run: None, ..v }, RefreshStep::Finished(outcome))
}

/// Asks for the DNS records of the zone at `next`, or ends the run with
/// success once every zone has its records.
pub open spec fn fetch_dns_spec(v: CacheView, id: u64, next: int) -> (CacheView, RefreshStep) {
    if next < v.zones.len() {
        (
            CacheView { run: Some((id, RefreshStage::Dns(next as usize))), ..v },
            RefreshStep::Fetch(
                RemoteCall { run: id, token: v.credential, request: RemoteRequest::ListDns(v.zones[next].id) },
            ),
        )
    } else {
        end_run_spec(v, Ok(()))
    }
}

/// Handing the answer of run `run` to the cache.
/// - An answer to a run that is not in progress changes nothing.
/// - Identity stage: a verified user is stored and the zones are asked for;
///   anything else ends the run with `IdentityUnverified`.
/// - Zone stage: a successful envelope replaces the zone list, drops all DNS
///   records and asks for the first zone's records; anything else ends the
///   run with `ZoneListFailed`.
/// - DNS stage: a successful envelope stores the zone's records and asks for
///   the next zone's; anything else ends the run with `DnsListFailed` of the
///   zone, and no later zone is asked for.
pub open spec fn resume_refresh_spec(v: CacheView, run: u64, reply: RemoteReply) -> (CacheView, RefreshStep) {
    match v.run {
        Some((id, stage)) => {
            if id != run {
                (v, RefreshStep::Finished(Err(RefreshError::RefreshCancelled)))
            } else {
                match stage {
                    RefreshStage::Identity => match reply {
                        RemoteReply::Identity(Ok(user)) => (
                            CacheView { identity: Some(user), run: Some((id, RefreshStage::Zones)), ..v },
                            RefreshStep::Fetch(
                                RemoteCall { run: id, token: v.credential, request: RemoteRequest::ListZones },
                            ),
                        ),
                        _ => end_run_spec(v, Err(RefreshError::IdentityUnverified)),
                    },
                    RefreshStage::Zones => match reply {
                        RemoteReply::Zones(Ok(envelope)) => if envelope.success {
                            fetch_dns_spec(CacheView { zones: envelope.result@, dns: Map::empty(), ..v }, id, 0)
                        } else {
                            end_run_spec(v, Err(RefreshError::ZoneListFailed))
                        },
                        _ => end_run_spec(v, Err(RefreshError::ZoneListFailed)),
                    },
                    RefreshStage::Dns(next) => match reply {
                        RemoteReply::Dns(Ok(envelope)) => if envelope.success {
                            fetch_dns_spec(
                                CacheView { dns: v.dns.insert(v.zones[next as int].id@, envelope.result@), ..v },
                                id,
                                next + 1,
                            )
                        } else {
                            end_run_spec(v, Err(RefreshError::DnsListFailed(v.zones[next as int].id)))
                        },
                        _ => end_run_spec(v, Err(RefreshError::DnsListFailed(v.zones[next as int].id))),
                    },
                }
            }
        },
        None => (v, RefreshStep::Finished(Err(RefreshError::RefreshCancelled))),
    }
}

} // verus!
