use vstd::prelude::*;
use crate::config::Booked4usSettings;
use crate::detect::{
    added_ids, changed, classify, collect, entries_of, entry_of, flagged, report, Detail, Entry,
    Snapshot,
};
use crate::detect::append_decimal;
use crate::error::PollError;
use crate::service::PollResult;

verus! {

/// The path, below the service's base address, of the overview of all items.
pub open spec fn overview_path() -> Seq<char> {
    "/rest-v2/api/Calendars/WithDetails"@
}

/// The address of the first free slot of item `id`.
pub open spec fn free_slot_uri(base: Seq<char>, id: u32) -> Seq<char> {
    base + "/rest-v2/api/Calendars/"@ + crate::detect::decimal(id as nat) + "/FirstFreeSlot"@
}

/// The change detection state of one booking service: its base address and
/// the items seen free at the last successful poll.
#[derive(Debug)]
pub struct Booked4us {
    url: String,
    free: Snapshot,
}

impl Booked4us {
    pub closed spec fn url(&self) -> Seq<char> {
        self.url@
    }

    /// The free items this service holds for comparison.
    pub closed spec fn free(&self) -> Seq<Entry> {
        self.free@
    }

    /// A service at the configured address that has seen nothing free yet.
    pub fn from(settings: &Booked4usSettings) -> (r: Booked4us)
        ensures
            r.url() == settings.url@,
            r.free() == Seq::<Entry>::empty(),
    {
        Booked4us { url: settings.url.clone(), free: Snapshot::new() }
    }

    /// The address of the overview of all items.
    pub fn overview_uri(&self) -> (r: String)
        ensures
            r@ == self.url() + overview_path(),
    {
        let mut uri = self.url.clone();
        uri.append("/rest-v2/api/Calendars/WithDetails");
        uri
    }

    /// The address of the first free slot of item `id`.
    pub fn first_free_slot_uri(&self, id: u32) -> (r: String)
        ensures
            r@ == free_slot_uri(self.url(), id),
    {
        let mut uri = self.url.clone();
        uri.append("/rest-v2/api/Calendars/");
        append_decimal(&mut uri, id);
        uri.append("/FirstFreeSlot");
        uri
    }

    /// The reported items whose flag is set, recorded in order; a later item
    /// replaces an earlier one with the same identifier.
    pub fn extract_free_slots(details: &Vec<Detail>, has_free: &Vec<bool>) -> (r: Snapshot)
        requires
            has_free@.len() == details@.len(),
        ensures
            r@ == collect(flagged(entries_of(details@), has_free@)),
            r.wf(),
    {
        let ghost all = entries_of(details@);
        let mut r = Snapshot::new();
        let mut i: usize = 0;
        while i < details.len()
            invariant
                i <= details@.len(),
                has_free@.len() == details@.len(),
                all == entries_of(details@),
                r.wf(),
                r@ == collect(flagged(all.take(i as int), has_free@.take(i as int))),
            decreases details@.len() - i,
        {
            proof {
                assert(all.take(i as int + 1).drop_last() =~= all.take(i as int));
                assert(has_free@.take(i as int + 1).drop_last() =~= has_free@.take(i as int));
                assert(all.take(i as int + 1).last() == entry_of(details@[i as int]));
            }
            let ghost before = flagged(all.take(i as int), has_free@.take(i as int));
            if has_free[i] {
                let d = details[i].duplicate();
                r.insert(d);
                proof {
                    assert(before.push(entry_of(d)).drop_last() =~= before);
                }
            }
            i += 1;
        }
        proof {
            assert(all.take(all.len() as int) =~= all);
            assert(has_free@.take(has_free@.len() as int) =~= has_free@);
        }
        r
    }

    /// Takes what one fetch observed. A failed fetch leaves the state as it was
    /// and is handed back. Otherwise the observation is classified against the
    /// held free items and then replaces them.
    pub fn observe(&mut self, fetched: Result<Snapshot, PollError>) -> (r: Result<PollResult, PollError>)
        ensures
            final(self).url() == old(self).url(),
            match fetched {
                Err(e) => final(self).free() == old(self).free() && r == Err::<PollResult, PollError>(e),
                Ok(s) => {
                    &&& r is Ok
                    &&& final(self).free() == s@
                    &&& (r->Ok_0 is Unchanged <==> !changed(old(self).free(), s@))
                    &&& (r->Ok_0 is Urgent <==> added_ids(old(self).free(), s@) != Set::<u32>::empty())
                    &&& (r->Ok_0 is Normal <==> changed(old(self).free(), s@) && added_ids(old(self).free(), s@) == Set::<u32>::empty())
                    &&& match r->Ok_0 {
                        PollResult::Unchanged => true,
                        PollResult::Normal(t) => t@ == report(old(self).free(), s@, old(self).url()),
                        PollResult::Urgent(t) => t@ == report(old(self).free(), s@, old(self).url()),
                    }
                },
            },
    {
        match fetched {
            Err(e) => Err(e),
            Ok(current) => {
                let res = classify(&self.free, &current, self.url.as_str());
                self.free = current;
                Ok(res)
            },
        }
    }
}

} // verus!
