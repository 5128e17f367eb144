//! The credential-scoped cache and the refresh that fills it.
use vstd::prelude::*;
use crate::cloudflare::{CloudflareListZonesResponse, DNSRecord};
use crate::dns_table::{ZoneDnsEntry, ZoneDnsTable, entries_map, keys_unique};
use crate::laws::lemma_resume_keeps_invariant;
use crate::models::CustomUserDetails;
use crate::refresh::{
    CacheView, NotAvailable, RefreshError, RefreshStage, RefreshStep, RemoteCall, RemoteReply, RemoteRequest,
    begin_refresh_spec, cache_invariant, cancel_refresh_spec, end_run_spec, fetch_dns_spec,
    resume_refresh_spec, set_credential_spec,
};

verus! {

/// The credential, and what was fetched with it: the user's identity, the
/// zones and the DNS records of each zone; and the refresh in progress.
///
/// A refresh runs in steps: [`ManagedCache::begin_refresh`] hands out the
/// first remote call, and each answer handed to
/// [`ManagedCache::resume_refresh`] yields the next call or the outcome. The
/// caller makes the calls; the cache decides.
pub struct ManagedCache {
    api_token: String,
    zones: Vec<CloudflareListZonesResponse>,
    zone_dns: ZoneDnsTable,
    user_details: Option<CustomUserDetails>,
    run: Option<(u64, RefreshStage)>,
    next_run: u64,
}

impl View for ManagedCache {
    type V = CacheView;

    closed spec fn view(&self) -> CacheView {
        CacheView {
            credential: self.api_token,
            identity: self.user_details,
            zones: self.zones@,
            dns: self.zone_dns@,
            run: self.run,
            next_run: self.next_run,
        }
    }
}

impl ManagedCache {
    /// The cache is consistent: see [`cache_invariant`].
    pub closed spec fn wf(&self) -> bool {
        &&& self.zone_dns.wf()
        &&& cache_invariant(self@)
    }

    /// Every cache that its operations produce holds [`cache_invariant`].
    pub proof fn lemma_wf_invariant(&self)
        requires
            self.wf(),
        ensures
            cache_invariant(self@),
    {
    }

    /// An empty cache: no credential, nothing fetched, no refresh.
    pub fn new() -> (r: ManagedCache)
        ensures
            r.wf(),
            r@.credential@ == Seq::<char>::empty(),
            r@.identity is None,
            r@.zones == Seq::<CloudflareListZonesResponse>::empty(),
            r@.dns == Map::<Seq<char>, Seq<DNSRecord>>::empty(),
            r@.run is None,
    {
        ManagedCache {
            api_token: String::new(),
            zones: Vec::new(),
            zone_dns: ZoneDnsTable::new(),
            user_details: None,
            run: None,
            next_run: 0,
        }
    }

    /// Replaces the credential. The identity, the zones and the DNS records
    /// are cleared, and a refresh in progress is dropped: its later answers
    /// are refused.
    pub fn set_credential(&mut self, token: String)
        requires
            old(self).wf(),
        ensures
            final(self).wf(),
            final(self)@ == set_credential_spec(old(self)@, token),
    {
        self.zones = Vec::new();
        self.zone_dns.clear();
        self.user_details = None;
        self.run = None;
        self.api_token = token;
        assert(self@.dns.dom() =~= Set::empty());
    }

    /// The credential that remote calls are made with.
    pub fn current_credential(&self) -> (r: &String)
        ensures
            *r == self@.credential,
    {
        &self.api_token
    }

    /// The verified identity, or `NotAvailable` if the current credential
    /// has not been verified since it was set.
    pub fn read_identity(&self) -> (r: Result<&CustomUserDetails, NotAvailable>)
        ensures
            self@.identity is None <==> r is Err,
            r is Ok ==> *r->Ok_0 == self@.identity->Some_0,
    {
        match &self.user_details {
            Some(user) => Ok(user),
            None => Err(NotAvailable),
        }
    }

    /// The zones, in the order the API listed them; empty before any list.
    pub fn read_zones(&self) -> (r: &Vec<CloudflareListZonesResponse>)
        ensures
            r@ == self@.zones,
    {
        &self.zones
    }

    /// The DNS records of each zone, one entry per zone id.
    pub fn read_dns(&self) -> (r: &Vec<ZoneDnsEntry>)
        requires
            self.wf(),
        ensures
            keys_unique(r@),
            entries_map(r@) == self@.dns,
    {
        self.zone_dns.entries()
    }

    /// Whether a refresh is in progress.
    pub fn is_refreshing(&self) -> (r: bool)
        ensures
            r == self@.run is Some,
    {
        self.run.is_some()
    }

    /// Starts a refresh and returns its first call, the identity check; or
    /// `RefreshAlreadyInProgress`, changing nothing, while one is running.
    pub fn begin_refresh(&mut self) -> (r: Result<RemoteCall, RefreshError>)
        requires
            old(self).wf(),
        ensures
            final(self).wf(),
            (final(self)@, r) == begin_refresh_spec(old(self)@),
    {
        if self.run.is_some() {
            return Err(RefreshError::RefreshAlreadyInProgress);
        }
        let id = self.next_run;
        let ghost before = self@;
        self.run = Some((id, RefreshStage::Identity));
        self.next_run = if id == u64::MAX {
            0
        } else {
            id + 1
        };
        assert(self@.dns == before.dns && self@.zones == before.zones);
        Ok(RemoteCall { run: id, token: self.api_token.clone(), request: RemoteRequest::VerifyIdentity })
    }

    /// Drops the refresh in progress, if any; what it stored stays.
    pub fn cancel_refresh(&mut self)
        requires
            old(self).wf(),
        ensures
            final(self).wf(),
            final(self)@ == cancel_refresh_spec(old(self)@),
    {
        self.run = None;
    }

    fn end_run(&mut self, outcome: Result<(), RefreshError>) -> (r: RefreshStep)
        requires
            old(self).wf(),
        ensures
            final(self).wf(),
            (final(self)@, r) == end_run_spec(old(self)@, outcome),
    {
        let ghost before = self@;
        self.run = None;
        assert(self@.dns == before.dns && self@.zones == before.zones);
        RefreshStep::Finished(outcome)
    }

    fn fetch_dns(&mut self, id: u64, next: usize) -> (r: RefreshStep)
        ensures
            (final(self)@, r) == fetch_dns_spec(old(self)@, id, next as int),
            final(self).zone_dns == old(self).zone_dns,
    {
        if next < self.zones.len() {
            self.run = Some((id, RefreshStage::Dns(next)));
            let zone_id = self.zones[next].id.clone();
            RefreshStep::Fetch(RemoteCall { run: id, token: self.api_token.clone(), request: RemoteRequest::ListDns(zone_id) })
        } else {
            self.run = None;
            RefreshStep::Finished(Ok(()))
        }
    }

    /// Hands the answer to a call of run `run` to the cache, which stores
    /// what it accepts and returns the next call or the outcome; see
    /// [`resume_refresh_spec`].
    pub fn resume_refresh(&mut self, run: u64, reply: RemoteReply) -> (r: RefreshStep)
        requires
            old(self).wf(),
        ensures
            final(self).wf(),
            (final(self)@, r) == resume_refresh_spec(old(self)@, run, reply),
    {
        proof {
            lemma_resume_keeps_invariant(self@, run, reply);
        }
        let (id, stage) = match self.run {
            Some(active) => active,
            None => return RefreshStep::Finished(Err(RefreshError::RefreshCancelled)),
        };
        if id != run {
            return RefreshStep::Finished(Err(RefreshError::RefreshCancelled));
        }
        match stage {
            RefreshStage::Identity => match reply {
                RemoteReply::Identity(Ok(user)) => {
                    self.user_details = Some(user);
                    self.run = Some((id, RefreshStage::Zones));
                    RefreshStep::Fetch(RemoteCall { run: id, token: self.api_token.clone(), request: RemoteRequest::ListZones })
                },
                _ => self.end_run(Err(RefreshError::IdentityUnverified)),
            },
            RefreshStage::Zones => match reply {
                RemoteReply::Zones(Ok(envelope)) => {
                    if envelope.success {
                        self.zones = envelope.result;
                        self.zone_dns.clear();
                        self.fetch_dns(id, 0)
                    } else {
                        self.end_run(Err(RefreshError::ZoneListFailed))
                    }
                },
                _ => self.end_run(Err(RefreshError::ZoneListFailed)),
            },
            RefreshStage::Dns(next) => {
                assert(next < self.zones.len());
                let zone_id = self.zones[next].id.clone();
                match reply {
                    RemoteReply::Dns(Ok(envelope)) => {
                        if envelope.success {
                            self.zone_dns.insert(zone_id, envelope.result);
                            self.fetch_dns(id, next + 1)
                        } else {
                            self.end_run(Err(RefreshError::DnsListFailed(zone_id)))
                        }
                    },
                    _ => self.end_run(Err(RefreshError::DnsListFailed(zone_id))),
                }
            },
        }
    }
}

} // verus!
