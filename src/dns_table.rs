//! The DNS records of each zone, keyed by zone id.
use vstd::prelude::*;
use crate::cloudflare::DNSRecord;

verus! {

/// One zone's records under the zone's id.
pub type ZoneDnsEntry = (String, Vec<DNSRecord>);

/// The map that a sequence of entries stands for: a later entry under a key
/// hides an earlier one.
pub open spec fn entries_map(s: Seq<ZoneDnsEntry>) -> Map<Seq<char>, Seq<DNSRecord>>
    decreases s.len(),
{
    if s.len() == 0 {
        Map::empty()
    } else {
        entries_map(s.drop_last()).insert(s.last().0@, s.last().1@)
    }
}

/// No two entries share a zone id.
pub open spec fn keys_unique(s: Seq<ZoneDnsEntry>) -> bool {
    forall|i: int, j: int|
        0 <= i < s.len() && 0 <= j < s.len() && i != j ==> #[trigger] s[i].0@ != #[trigger] s[j].0@
}

/// Replacing the entry that holds a key is inserting under that key.
proof fn lemma_update_entry(s: Seq<ZoneDnsEntry>, i: int, e: ZoneDnsEntry)
    requires
        keys_unique(s),
        0 <= i < s.len(),
        s[i].0@ == e.0@,
    ensures
        entries_map(s.update(i, e)) == entries_map(s).insert(e.0@, e.1@),
    decreases s.len(),
{
    let t = s.update(i, e);
    if i == s.len() - 1 {
        assert(t.drop_last() =~= s.drop_last());
    } else {
        let d = s.drop_last();
        assert(t.drop_last() =~= d.update(i, e));
        assert(keys_unique(d)) by {
            assert forall|a: int, b: int|
                0 <= a < d.len() && 0 <= b < d.len() && a != b implies #[trigger] d[a].0@
                != #[trigger] d[b].0@ by {
                assert(d[a] == s[a] && d[b] == s[b]);
            }
        }
        lemma_update_entry(d, i, e);
        assert(s.last().0@ != e.0@) by {
            assert(s[s.len() - 1] == s.last());
        }
    }
    assert(entries_map(t) =~= entries_map(s).insert(e.0@, e.1@));
}

/// The DNS records of each zone, in the order in which zones were first added.
pub struct ZoneDnsTable {
    entries: Vec<ZoneDnsEntry>,
}

impl View for ZoneDnsTable {
    type V = Map<Seq<char>, Seq<DNSRecord>>;

    closed spec fn view(&self) -> Map<Seq<char>, Seq<DNSRecord>> {
        entries_map(self.entries@)
    }
}

impl ZoneDnsTable {
    /// The table holds each zone id once.
    pub closed spec fn wf(&self) -> bool {
        keys_unique(self.entries@)
    }

    /// An empty table.
    pub fn new() -> (r: ZoneDnsTable)
        ensures
            r.wf(),
            r@ == Map::<Seq<char>, Seq<DNSRecord>>::empty(),
    {
        ZoneDnsTable { entries: Vec::new() }
    }

    /// Removes every entry.
    pub fn clear(&mut self)
        ensures
            final(self).wf(),
            final(self)@ == Map::<Seq<char>, Seq<DNSRecord>>::empty(),
    {
        self.entries = Vec::new();
    }

    /// Sets the records of a zone, replacing those it had.
    pub fn insert(&mut self, zone_id: String, records: Vec<DNSRecord>)
        requires
            old(self).wf(),
        ensures
            final(self).wf(),
            final(self)@ == old(self)@.insert(zone_id@, records@),
    {
        let mut i: usize = 0;
        while i < self.entries.len()
            invariant
                self.wf(),
                self.entries@ == old(self).entries@,
                i <= self.entries.len(),
                forall|j: int| 0 <= j < i ==> self.entries@[j].0@ != zone_id@,
            decreases self.entries.len() - i,
        {
            if self.entries[i].0 == zone_id {
                let ghost before = self.entries@;
                let k = zone_id;
                proof {
                    lemma_update_entry(before, i as int, (k, records));
                }
                self.entries.set(i, (k, records));
                assert(keys_unique(self.entries@)) by {
                    assert forall|a: int, b: int|
                        0 <= a < self.entries@.len() && 0 <= b < self.entries@.len() && a != b
                            implies #[trigger] self.entries@[a].0@
                        != #[trigger] self.entries@[b].0@ by {
                        assert(before[a].0@ != before[b].0@);
                    }
                }
                return;
            }
            i += 1;
        }
        let ghost before = self.entries@;
        self.entries.push((zone_id, records));
        assert(self.entries@.drop_last() =~= before);
        assert(keys_unique(self.entries@)) by {
            assert forall|a: int, b: int|
                0 <= a < self.entries@.len() && 0 <= b < self.entries@.len() && a != b
                    implies #[trigger] self.entries@[a].0@ != #[trigger] self.entries@[b].0@ by {
                if a < before.len() && b < before.len() {
                    assert(before[a].0@ != before[b].0@);
                }
            }
        }
    }

    /// The entries, each zone id once, as a sequence standing for the table.
    pub fn entries(&self) -> (r: &Vec<ZoneDnsEntry>)
        requires
            self.wf(),
        ensures
            keys_unique(r@),
            entries_map(r@) == self@,
    {
        &self.entries
    }
}

} // verus!
