//! The record synchronizer.
//!
//! Walks the listed A records in their original order and decides, one
//! record per step, whether the driver must PATCH it. A record whose
//! content already equals the WAN IP is reported up to date and no call
//! is made for it. The run is fail-fast: a failed PATCH, reported back
//! through [`Synchronizer::report_patch_outcome`], halts the run for
//! good, and no further command can be asked for.

use vstd::prelude::*;

use crate::provider::{patch_body, record_patch_url, spec_patch_body, spec_record_patch_url};
use crate::records::ARecord;

verus! {

/// A record needs a PATCH exactly when its content differs from the WAN IP.
pub open spec fn needs_update(record: ARecord, wan_ip: Seq<char>) -> bool {
    record.content@ != wan_ip
}

/// How many of the records need a PATCH.
pub open spec fn patch_count(records: Seq<ARecord>, wan_ip: Seq<char>) -> nat
    decreases records.len(),
{
    if records.len() == 0 {
        0
    } else {
        patch_count(records.drop_last(), wan_ip) + if needs_update(records.last(), wan_ip) {
            1nat
        } else {
            0nat
        }
    }
}

/// What the synchronizer asks its driver to do next.
#[derive(Debug)]
pub enum SyncCommand {
    /// Send a PATCH with this body to this URL; the named record is stale.
    Patch { name: String, url: String, body: String },
    /// The named record already carries the WAN IP; nothing is sent.
    UpToDate { name: String },
    /// Every record has been processed.
    Finished,
}

/// One synchronization run over the listed records.
pub struct Synchronizer {
    records: Vec<ARecord>,
    wan_ip: String,
    zone_id: String,
    pos: usize,
    halted: bool,
}

impl Synchronizer {
    /// The records of the run, in the order they were listed.
    pub closed spec fn spec_records(self) -> Seq<ARecord> {
        self.records@
    }

    /// The WAN IP every record is being brought to.
    pub closed spec fn spec_wan_ip(self) -> Seq<char> {
        self.wan_ip@
    }

    /// The zone the records belong to.
    pub closed spec fn spec_zone_id(self) -> Seq<char> {
        self.zone_id@
    }

    /// How many records have been decided so far.
    pub closed spec fn spec_pos(self) -> int {
        self.pos as int
    }

    /// Whether a failed PATCH has halted the run.
    pub closed spec fn spec_halted(self) -> bool {
        self.halted
    }

    /// The position never runs past the record list.
    pub closed spec fn wf(self) -> bool {
        self.pos <= self.records@.len()
    }

    /// Starts a run over the listed records.
    pub fn new(records: Vec<ARecord>, wan_ip: String, zone_id: String) -> (s: Self)
        ensures
            s.wf(),
            s.spec_records() == records@,
            s.spec_wan_ip() == wan_ip@,
            s.spec_zone_id() == zone_id@,
            s.spec_pos() == 0,
            !s.spec_halted(),
    {
        Synchronizer { records, wan_ip, zone_id, pos: 0, halted: false }
    }

    /// Whether a failed PATCH has halted the run.
    pub fn is_halted(&self) -> (r: bool)
        ensures
            r == self.spec_halted(),
    {
        self.halted
    }

    /// Decides the next record, in listing order.
    ///
    /// A stale record yields the PATCH for its own URL with the WAN IP as
    /// content; a record already carrying the WAN IP yields `UpToDate`
    /// and no call; past the last record the run is `Finished`.
    pub fn next_command(&mut self) -> (c: SyncCommand)
        requires
            old(self).wf(),
            !old(self).spec_halted(),
        ensures
            final(self).wf(),
            final(self).spec_records() == old(self).spec_records(),
            final(self).spec_wan_ip() == old(self).spec_wan_ip(),
            final(self).spec_zone_id() == old(self).spec_zone_id(),
            !final(self).spec_halted(),
            old(self).spec_pos() == old(self).spec_records().len() ==> (c is Finished
                && final(self).spec_pos() == old(self).spec_pos()),
            old(self).spec_pos() < old(self).spec_records().len() ==> final(self).spec_pos()
                == old(self).spec_pos() + 1,
            old(self).spec_pos() < old(self).spec_records().len() && !needs_update(
                old(self).spec_records()[old(self).spec_pos()],
                old(self).spec_wan_ip(),
            ) ==> (c matches (SyncCommand::UpToDate { name }) && name@
                == old(self).spec_records()[old(self).spec_pos()].name@),
            old(self).spec_pos() < old(self).spec_records().len() && needs_update(
                old(self).spec_records()[old(self).spec_pos()],
                old(self).spec_wan_ip(),
            ) ==> (c matches (SyncCommand::Patch { name, url, body }) && name@
                == old(self).spec_records()[old(self).spec_pos()].name@ && url@
                == spec_record_patch_url(
                old(self).spec_zone_id(),
                old(self).spec_records()[old(self).spec_pos()].id@,
            ) && body@ == spec_patch_body(old(self).spec_wan_ip())),
    {
        if self.pos == self.records.len() {
            return SyncCommand::Finished;
        }
        let rec = &self.records[self.pos];
        let name = rec.name.clone();
        if rec.content == self.wan_ip {
            self.pos = self.pos + 1;
            SyncCommand::UpToDate { name }
        } else {
            let url = record_patch_url(self.zone_id.as_str(), rec.id.as_str());
            let body = patch_body(self.wan_ip.as_str());
            self.pos = self.pos + 1;
            SyncCommand::Patch { name, url, body }
        }
    }

    /// Takes the outcome of the PATCH last asked for; a failure halts the
    /// run for good, and nothing else about the run changes.
    pub fn report_patch_outcome(&mut self, success: bool)
        ensures
            final(self).spec_halted() == (old(self).spec_halted() || !success),
            final(self).spec_records() == old(self).spec_records(),
            final(self).spec_wan_ip() == old(self).spec_wan_ip(),
            final(self).spec_zone_id() == old(self).spec_zone_id(),
            final(self).spec_pos() == old(self).spec_pos(),
            final(self).wf() == old(self).wf(),
    {
        if !success {
            self.halted = true;
        }
    }
}

/// A run over records that all carry the WAN IP already — as a second run
/// right after a fully successful one, with no external IP change, sees
/// them — issues no PATCH at all.
pub proof fn lemma_synced_run_idle(records: Seq<ARecord>, wan_ip: Seq<char>)
    requires
        forall|i: int| 0 <= i < records.len() ==> records[i].content@ == wan_ip,
    ensures
        patch_count(records, wan_ip) == 0,
    decreases records.len(),
{
    if records.len() > 0 {
        assert(!needs_update(records.last(), wan_ip));
        lemma_synced_run_idle(records.drop_last(), wan_ip);
    }
}

/// When no record needs a PATCH, every record is up to date: a run over
/// them yields `UpToDate` or `Finished` commands only.
pub proof fn lemma_idle_run_up_to_date(records: Seq<ARecord>, wan_ip: Seq<char>)
    requires
        patch_count(records, wan_ip) == 0,
    ensures
        forall|i: int| 0 <= i < records.len() ==> !needs_update(#[trigger] records[i], wan_ip),
    decreases records.len(),
{
    if records.len() > 0 {
        lemma_idle_run_up_to_date(records.drop_last(), wan_ip);
        assert forall|i: int| 0 <= i < records.len() implies !needs_update(
            #[trigger] records[i],
            wan_ip,
        ) by {
            if i < records.len() - 1 {
                assert(records.drop_last()[i] == records[i]);
            } else {
                assert(records[i] == records.last());
            }
        }
    }
}

} // verus!
