//! What holds of the cache across operations and across whole refresh runs.
use vstd::prelude::*;
use crate::cloudflare::{CloudflareListZonesResponse, CloudflareResponse, DNSRecord};
use crate::models::CustomUserDetails;
use crate::refresh::{
    CacheView, RefreshError, RefreshStage, RefreshStep, RemoteCall, RemoteReply,
    begin_refresh_spec, cache_invariant, cancel_refresh_spec, fetch_dns_spec, resume_refresh_spec,
    set_credential_spec, zone_ids,
};

verus! {

/// Storing the records of the zone that the DNS stage waits for, and moving
/// on to the next zone, keeps the invariant.
proof fn lemma_dns_stored(v: CacheView, id: u64, next: int, records: Seq<DNSRecord>)
    requires
        cache_invariant(v),
        v.run matches Some((_, RefreshStage::Dns(n))) && n == next,
    ensures
        cache_invariant(
            fetch_dns_spec(CacheView { dns: v.dns.insert(v.zones[next].id@, records), ..v }, id, next + 1).0,
        ),
{
    let zs = v.zones;
    let k = zs[next].id@;
    let w = fetch_dns_spec(CacheView { dns: v.dns.insert(k, records), ..v }, id, next + 1).0;
    assert(zone_ids(zs.subrange(0, next + 1)) =~= zone_ids(zs.subrange(0, next)).push(k));
    zone_ids(zs.subrange(0, next)).lemma_push_to_set_commute(k);
    assert(w.dns.dom() =~= zone_ids(zs.subrange(0, next + 1)).to_set());
    assert forall|key: Seq<char>| #[trigger] w.dns.dom().contains(key) implies zone_ids(w.zones).contains(key) by {
        let p = zone_ids(zs.subrange(0, next + 1));
        assert(p.contains(key));
        let i = choose|i: int| 0 <= i < p.len() && #[trigger] p[i] == key;
        assert(zone_ids(zs)[i] == p[i]);
    }
}

/// Handing an answer to the cache keeps the invariant.
pub proof fn lemma_resume_keeps_invariant(v: CacheView, run: u64, reply: RemoteReply)
    requires
        cache_invariant(v),
    ensures
        cache_invariant(resume_refresh_spec(v, run, reply).0),
{
    let w = resume_refresh_spec(v, run, reply).0;
    match v.run {
        Some((id, stage)) => {
            if id == run {
                match stage {
                    RefreshStage::Identity => {
                        assert(w.dns == v.dns && w.zones == v.zones);
                    },
                    RefreshStage::Zones => {
                        match reply {
                            RemoteReply::Zones(Ok(envelope)) => {
                                if envelope.success {
                                    let zs = envelope.result@;
                                    assert(envelope.result.len() == zs.len());
                                    assert(zone_ids(zs.subrange(0, 0)).to_set() =~= Set::empty());
                                    assert(w.dns.dom() =~= Set::empty());
                                } else {
                                    assert(w.dns == v.dns && w.zones == v.zones);
                                }
                            },
                            _ => {
                                assert(w.dns == v.dns && w.zones == v.zones);
                            },
                        }
                    },
                    RefreshStage::Dns(next) => {
                        match reply {
                            RemoteReply::Dns(Ok(envelope)) => {
                                if envelope.success {
                                    lemma_dns_stored(v, id, next as int, envelope.result@);
                                } else {
                                    assert(w.dns == v.dns && w.zones == v.zones);
                                }
                            },
                            _ => {
                                assert(w.dns == v.dns && w.zones == v.zones);
                            },
                        }
                    },
                }
            }
        },
        None => {},
    }
}

/// Every zone that has DNS records in the cache is in its zone list, before
/// and after each operation: a credential change, the start, the
/// cancellation and each step of a refresh, whether it succeeds or fails.
pub proof fn lemma_dns_keys_within_zones(v: CacheView, token: String, run: u64, reply: RemoteReply)
    requires
        cache_invariant(v),
    ensures
        forall|k: Seq<char>| #[trigger] v.dns.dom().contains(k) ==> zone_ids(v.zones).contains(k),
        cache_invariant(set_credential_spec(v, token)),
        cache_invariant(begin_refresh_spec(v).0),
        cache_invariant(cancel_refresh_spec(v)),
        cache_invariant(resume_refresh_spec(v, run, reply).0),
{
    assert(set_credential_spec(v, token).dns.dom() =~= Set::empty());
    assert(begin_refresh_spec(v).0.dns == v.dns && begin_refresh_spec(v).0.zones == v.zones);
    assert(cancel_refresh_spec(v).dns == v.dns && cancel_refresh_spec(v).zones == v.zones);
    lemma_resume_keeps_invariant(v, run, reply);
}

/// Right after a credential change the cache has no identity, no zones and
/// no DNS records, and holds the new credential.
pub proof fn lemma_new_credential_clears_cache(v: CacheView, token: String)
    ensures
        set_credential_spec(v, token).credential == token,
        set_credential_spec(v, token).identity is None,
        set_credential_spec(v, token).zones.len() == 0,
        set_credential_spec(v, token).dns.dom().is_empty(),
        set_credential_spec(v, token).run is None,
{
    assert(set_credential_spec(v, token).dns.dom() =~= Set::empty());
}

/// What a run did: the cache after it, the calls it asked for in order, and
/// its outcome (`None` while it still waits for an answer).
pub struct RunRecord {
    pub cache: CacheView,
    pub calls: Seq<RemoteCall>,
    pub outcome: Option<Result<(), RefreshError>>,
}

/// Hands the answers to run `run` one by one until the run ends.
pub open spec fn drive(v: CacheView, run: u64, replies: Seq<RemoteReply>) -> RunRecord
    decreases replies.len(),
{
    if replies.len() == 0 {
        RunRecord { cache: v, calls: Seq::empty(), outcome: None }
    } else {
        let (w, step) = resume_refresh_spec(v, run, replies[0]);
        match step {
            RefreshStep::Finished(outcome) => RunRecord { cache: w, calls: Seq::empty(), outcome: Some(outcome) },
            RefreshStep::Fetch(call) => {
                let rest = drive(w, run, replies.drop_first());
                RunRecord { calls: seq![call] + rest.calls, ..rest }
            },
        }
    }
}

/// A whole refresh: it is started, and the answers are handed to it in order.
pub open spec fn refresh_spec(v: CacheView, replies: Seq<RemoteReply>) -> RunRecord {
    let (w, first) = begin_refresh_spec(v);
    match first {
        Err(e) => RunRecord { cache: w, calls: Seq::empty(), outcome: Some(Err(e)) },
        Ok(call) => {
            let rest = drive(w, call.run, replies);
            RunRecord { calls: seq![call] + rest.calls, ..rest }
        },
    }
}

/// An answer to a DNS list call that the DNS stage does not accept.
pub open spec fn dns_failed(reply: RemoteReply) -> bool {
    match reply {
        RemoteReply::Dns(Ok(envelope)) => !envelope.success,
        RemoteReply::Dns(Err(_)) => true,
        _ => false,
    }
}

/// The answers under which every DNS list call succeeds.
pub open spec fn dns_replies(envelopes: Seq<CloudflareResponse<Vec<DNSRecord>>>) -> Seq<RemoteReply> {
    envelopes.map_values(|e: CloudflareResponse<Vec<DNSRecord>>| RemoteReply::Dns(Ok(e)))
}

/// From the zone at `i` on, the DNS stage stores each successful answer and
/// ends at the first failing one, with the zones before it stored.
proof fn lemma_dns_stage_stops(
    v: CacheView,
    id: u64,
    i: int,
    envelopes: Seq<CloudflareResponse<Vec<DNSRecord>>>,
    failed: RemoteReply,
)
    requires
        cache_invariant(v),
        v.run matches Some((r, RefreshStage::Dns(n))) && r == id && n == i,
        i + envelopes.len() < v.zones.len(),
        forall|j: int| 0 <= j < envelopes.len() ==> (#[trigger] envelopes[j]).success,
        dns_failed(failed),
    ensures
        ({
            let rec = drive(v, id, dns_replies(envelopes).push(failed));
            let k = i + envelopes.len();
            &&& rec.outcome == Some(Err::<(), RefreshError>(RefreshError::DnsListFailed(v.zones[k].id)))
            &&& rec.cache.zones == v.zones
            &&& rec.cache.identity == v.identity
            &&& rec.cache.dns.dom() == zone_ids(v.zones.subrange(0, k)).to_set()
            &&& rec.cache.run is None
        }),
    decreases envelopes.len(),
{
    let replies = dns_replies(envelopes).push(failed);
    if envelopes.len() == 0 {
        assert(replies[0] == failed);
    } else {
        assert(replies[0] == RemoteReply::Dns(Ok(envelopes[0])));
        assert(envelopes[0].success);
        let w = resume_refresh_spec(v, id, replies[0]).0;
        lemma_dns_stored(v, id, i, envelopes[0].result@);
        assert(replies.drop_first() =~= dns_replies(envelopes.drop_first()).push(failed));
        lemma_dns_stage_stops(w, id, i + 1, envelopes.drop_first(), failed);
    }
}

/// Given zones of which the DNS fetch of the zone at `k` fails after those
/// before it succeeded, a refresh ends with `DnsListFailed` of that zone; the
/// zone list stays stored, the zones before it have their records and no
/// other zone has any.
pub proof fn lemma_dns_failure_stops_run(
    v: CacheView,
    user: CustomUserDetails,
    zones: CloudflareResponse<Vec<CloudflareListZonesResponse>>,
    envelopes: Seq<CloudflareResponse<Vec<DNSRecord>>>,
    failed: RemoteReply,
)
    requires
        cache_invariant(v),
        v.run is None,
        zones.success,
        envelopes.len() < zones.result@.len(),
        forall|j: int| 0 <= j < envelopes.len() ==> (#[trigger] envelopes[j]).success,
        dns_failed(failed),
    ensures
        ({
            let replies = seq![
                RemoteReply::Identity(Ok(user)),
                RemoteReply::Zones(Ok(zones)),
            ] + dns_replies(envelopes).push(failed);
            let rec = refresh_spec(v, replies);
            let zs = zones.result@;
            let k = envelopes.len() as int;
            &&& rec.outcome == Some(Err::<(), RefreshError>(RefreshError::DnsListFailed(zs[k].id)))
            &&& rec.cache.zones == zs
            &&& rec.cache.identity == Some(user)
            &&& rec.cache.dns.dom() == zone_ids(zs.subrange(0, k)).to_set()
            &&& zone_ids(zs).no_duplicates() ==> forall|j: int|
                0 <= j < zs.len() ==> (rec.cache.dns.dom().contains(#[trigger] zs[j].id@) <==> j < k)
        }),
{
    let tail = dns_replies(envelopes).push(failed);
    let replies = seq![RemoteReply::Identity(Ok(user)), RemoteReply::Zones(Ok(zones))] + tail;
    let zs = zones.result@;
    let k = envelopes.len() as int;
    let (v1, call) = begin_refresh_spec(v);
    let id = call->Ok_0.run;
    assert(cache_invariant(v1)) by {
        assert(v1.dns == v.dns && v1.zones == v.zones);
    }
    assert(replies[0] == RemoteReply::Identity(Ok(user)));
    let v2 = resume_refresh_spec(v1, id, replies[0]).0;
    lemma_resume_keeps_invariant(v1, id, replies[0]);
    assert(replies.drop_first()[0] == RemoteReply::Zones(Ok(zones)));
    let v3 = resume_refresh_spec(v2, id, replies.drop_first()[0]).0;
    lemma_resume_keeps_invariant(v2, id, replies.drop_first()[0]);
    assert(replies.drop_first().drop_first() =~= tail);
    lemma_dns_stage_stops(v3, id, 0, envelopes, failed);
    let d = drive(v3, id, tail);
    assert(drive(v2, id, replies.drop_first()).cache == d.cache);
    assert(drive(v2, id, replies.drop_first()).outcome == d.outcome);
    assert(drive(v1, id, replies).cache == d.cache);
    assert(drive(v1, id, replies).outcome == d.outcome);
    let rec = refresh_spec(v, replies);
    assert(rec.cache == d.cache);
    assert(rec.outcome == d.outcome);
    if zone_ids(zs).no_duplicates() {
        assert forall|j: int| 0 <= j < zs.len() implies (rec.cache.dns.dom().contains(#[trigger] zs[j].id@)
            <==> j < k) by {
            let p = zone_ids(zs.subrange(0, k));
            if j < k {
                assert(p[j] == zs[j].id@);
                assert(p.contains(zs[j].id@));
                assert(p.to_set().contains(zs[j].id@));
            }
            if rec.cache.dns.dom().contains(zs[j].id@) {
                assert(p.to_set().contains(zs[j].id@));
                assert(p.contains(zs[j].id@));
                let i = choose|i: int| 0 <= i < p.len() && #[trigger] p[i] == zs[j].id@;
                assert(zone_ids(zs)[i] == zone_ids(zs)[j]);
            }
        }
    }
}

/// A refresh whose identity check fails ends with `IdentityUnverified` at
/// once: the zone and DNS list calls are never made, and the identity, the
/// zones and the DNS records stay as they were.
pub proof fn lemma_unverified_identity_skips_fetches(v: CacheView, failed: RemoteReply, rest: Seq<RemoteReply>)
    requires
        v.run is None,
        !(failed matches RemoteReply::Identity(Ok(_))),
    ensures
        ({
            let rec = refresh_spec(v, seq![failed] + rest);
            &&& rec.outcome == Some(Err::<(), RefreshError>(RefreshError::IdentityUnverified))
            &&& rec.calls.len() == 1
            &&& rec.calls[0].request is VerifyIdentity
            &&& rec.cache.identity == v.identity
            &&& rec.cache.zones == v.zones
            &&& rec.cache.dns == v.dns
        }),
{
    assert((seq![failed] + rest)[0] == failed);
}

/// While a refresh is in progress, starting another is refused with
/// `RefreshAlreadyInProgress` and changes nothing, so the run in progress
/// goes on as if it had not been asked.
pub proof fn lemma_second_refresh_refused(v: CacheView, run: u64, replies: Seq<RemoteReply>)
    requires
        v.run is Some,
    ensures
        begin_refresh_spec(v).0 == v,
        begin_refresh_spec(v).1 == Err::<RemoteCall, RefreshError>(RefreshError::RefreshAlreadyInProgress),
        drive(begin_refresh_spec(v).0, run, replies) == drive(v, run, replies),
{
}

} // verus!
