//! The scan for all records that an account owns, spent or not: windows of 50
//! blocks on multiples of 50, from the lowest upward.
use crate::account::{valid_account, Account, AccountView};
use crate::record::{owned_by, record_plaintext};
use crate::scan::{
    all_owned, entries, lemma_owned_are_owned, open_owned, owned_of, owned_views, ChainRecord,
    OwnedRecord, OwnedRecordView, ScanError,
};
use crate::unspent::ScanStep;
use vstd::prelude::*;

verus! {

/// The number of blocks in a window of the scan for all owned records.
pub const SWEEP_STEP: u32 = 50;

/// The multiple of 50 at or below a height.
pub open spec fn aligned(height: u32) -> u32 {
    (height - height % 50) as u32
}

/// Where the window that starts at `cursor` ends: 50 blocks above, but not
/// above the end of the range.
pub open spec fn window_end(cursor: u32, end: u32) -> u32 {
    if end - cursor > 50 {
        (cursor + 50) as u32
    } else {
        end
    }
}

/// Where the scan stands after `done` windows of a range: at the multiple of
/// 50 at or below the start, 50 blocks higher for each window, but not above
/// the end of the range once a window is done.
pub open spec fn ascending_start(start: u32, end: u32, done: nat) -> int {
    if done == 0 || aligned(start) + 50 * done < end {
        aligned(start) + 50 * done
    } else {
        end as int
    }
}

/// Whether a number of records reaches the bound, if there is one.
pub open spec fn count_reached(max: Option<usize>, count: nat) -> bool {
    match max {
        Some(bound) => count >= bound,
        None => false,
    }
}

/// A scan for all owned records as plain values.
pub struct RecordScanView {
    pub account: AccountView,
    /// The height range, `start` included, `end` not.
    pub start: u32,
    pub end: u32,
    /// The number of records at which the scan stops, if any.
    pub max: Option<usize>,
    /// The start of the next window.
    pub cursor: u32,
    /// The records found so far, in the order in which they were found.
    pub records: Seq<OwnedRecordView>,
    /// The number of windows done.
    pub done: nat,
}

/// Whether the scan has found enough: a window is done and the records found
/// are as many as the bound.
pub open spec fn sated(scan: RecordScanView) -> bool {
    scan.done > 0 && count_reached(scan.max, scan.records.len())
}

/// The step that a scan asks for: the next window, or nothing.
pub open spec fn next_window(scan: RecordScanView) -> ScanStep {
    if sated(scan) || scan.cursor >= scan.end {
        ScanStep::Finished
    } else {
        ScanStep::FetchBlocks { start: scan.cursor, end: window_end(scan.cursor, scan.end) }
    }
}

/// The scan at its beginning.
pub open spec fn fresh(account: AccountView, start: u32, end: u32, max: Option<usize>) ->
    RecordScanView {
    RecordScanView {
        account,
        start,
        end,
        max,
        cursor: aligned(start),
        records: Seq::empty(),
        done: 0,
    }
}

/// The scan after the owned records of its window were added.
pub open spec fn extended(scan: RecordScanView, found: Seq<OwnedRecordView>) -> RecordScanView {
    RecordScanView {
        cursor: window_end(scan.cursor, scan.end),
        records: scan.records + found,
        done: scan.done + 1,
        ..scan
    }
}

/// What holds of a scan at every moment.
pub open spec fn valid_sweep(scan: RecordScanView) -> bool {
    &&& valid_account(scan.account)
    &&& scan.cursor == ascending_start(scan.start, scan.end, scan.done)
    &&& scan.done > 0 ==> scan.cursor <= scan.end
    &&& scan.done == 0 ==> scan.records.len() == 0
    &&& all_owned(scan.account, scan.records)
}

/// A scan for all records of an account in a range of block heights.
pub struct RecordScan {
    account: Account,
    start: u32,
    end: u32,
    max: Option<usize>,
    cursor: u32,
    started: bool,
    records: Vec<OwnedRecord>,
    done: Ghost<nat>,
}

impl View for RecordScan {
    type V = RecordScanView;

    closed spec fn view(&self) -> RecordScanView {
        RecordScanView {
            account: self.account@,
            start: self.start,
            end: self.end,
            max: self.max,
            cursor: self.cursor,
            records: owned_views(self.records@),
            done: self.done@,
        }
    }
}

impl RecordScan {
    /// A scan is well formed when [`valid_sweep`] holds of it.
    pub closed spec fn wf(&self) -> bool {
        valid_sweep(self@) && self.started == (self.done@ > 0)
    }

    /// Begins a scan of the heights from `start` up to, not including, `end`,
    /// which stops once `max` records are found, if `max` is given. The first
    /// window starts at the multiple of 50 at or below `start`.
    pub fn begin(account: Account, start: u32, end: u32, max: Option<usize>) -> (scan: RecordScan)
        requires
            account.wf(),
        ensures
            scan.wf(),
            scan@ == fresh(account@, start, end, max),
    {
        let scan = RecordScan {
            account,
            start,
            end,
            max,
            cursor: start - start % SWEEP_STEP,
            started: false,
            records: Vec::new(),
            done: Ghost(0),
        };
        assert(scan@.records =~= Seq::<OwnedRecordView>::empty());
        scan
    }

    /// What the driver has to do next: fetch a window, or nothing. A window
    /// to fetch is not empty, holds at most 50 blocks and ends in the range.
    pub fn step(&self) -> (step: ScanStep)
        requires
            self.wf(),
        ensures
            step == next_window(self@),
            !(step is QuerySpent),
            step matches ScanStep::FetchBlocks { start, end } ==> start < end <= self@.end && end
                - start <= 50,
    {
        let enough = match self.max {
            Some(bound) => self.started && self.records.len() >= bound,
            None => false,
        };
        if enough || self.cursor >= self.end {
            ScanStep::Finished
        } else {
            let end = if self.end - self.cursor > SWEEP_STEP {
                self.cursor + SWEEP_STEP
            } else {
                self.end
            };
            ScanStep::FetchBlocks { start: self.cursor, end }
        }
    }

    /// Takes the records of the window that the scan asked for: those that the
    /// account owns are decrypted and added to the records found, and the
    /// window is done. Nothing changes where the scan did not ask for a window
    /// (`OutOfTurn`) or where an owned record does not decrypt
    /// (`DecryptFailed`).
    pub fn on_blocks(&mut self, records: &Vec<ChainRecord>) -> (taken: Result<(), ScanError>)
        requires
            old(self).wf(),
        ensures
            final(self).wf(),
            next_window(old(self)@) is Finished ==> taken == Err::<(), ScanError>(
                ScanError::OutOfTurn,
            ) && final(self)@ == old(self)@,
            next_window(old(self)@) is FetchBlocks ==> match owned_of(
                old(self)@.account,
                entries(records@),
            ) {
                Ok(found) => taken is Ok && final(self)@ == extended(old(self)@, found),
                Err(e) => taken == Err::<(), ScanError>(e) && final(self)@ == old(self)@,
            },
    {
        let end = match self.step() {
            ScanStep::FetchBlocks { start, end } => end,
            _ => {
                return Err(ScanError::OutOfTurn);
            },
        };
        let mut found = match open_owned(&self.account, records) {
            Ok(found) => found,
            Err(e) => {
                return Err(e);
            },
        };
        let ghost before = self@;
        let ghost added = owned_views(found@);
        proof {
            lemma_owned_are_owned(before.account, entries(records@));
            assert forall|i: int| 0 <= i < (before.records + added).len() implies {
                let r = #[trigger] (before.records + added)[i];
                &&& owned_by(r.ciphertext, before.account.view_key)
                &&& record_plaintext(r.ciphertext, before.account.view_key) == Some(
                    r.plaintext,
                )
            } by {
                if i < before.records.len() {
                    assert((before.records + added)[i] == before.records[i]);
                } else {
                    assert((before.records + added)[i] == added[i - before.records.len()]);
                }
            }
            assert(50 * (before.done + 1) == 50 * before.done + 50) by (nonlinear_arith);
        }
        self.records.append(&mut found);
        self.cursor = end;
        self.started = true;
        self.done = Ghost(before.done + 1);
        proof {
            assert(owned_views(self.records@) =~= before.records + added);
            assert(self@ == extended(before, added));
        }
        Ok(())
    }

    /// The records found so far, in the order in which they were found.
    pub fn records(&self) -> (records: &Vec<OwnedRecord>)
        ensures
            owned_views(records@) == self@.records,
    {
        &self.records
    }

    /// Ends the scan and hands out the records found, in the order in which
    /// they were found. The account owns each of them.
    pub fn into_records(self) -> (records: Vec<OwnedRecord>)
        requires
            self.wf(),
        ensures
            owned_views(records@) == self@.records,
            all_owned(self@.account, owned_views(records@)),
    {
        self.records
    }
}

} // verus!
