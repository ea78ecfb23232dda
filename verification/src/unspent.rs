//! The scan for unspent records: which window of blocks to fetch next, what
//! to ask the chain about it, what to keep, and when to stop.
//!
//! The scan itself fetches nothing. A driver asks it for the next step, does
//! the fetching or the asking, and hands the answer back.
use crate::account::{valid_account, Account, AccountView};
use crate::field::{modulus, FieldElement};
use crate::record::{owned_by, record_plaintext};
use crate::scan::{
    all_owned, answered, candidate_of, candidate_views, candidates_of, credited, entries,
    find_candidates, lemma_candidates_are_owned, lemma_credited_concat,
    lemma_unspent_were_not_spent, open_unspent, opened, owned_views, serial_numbers, Candidate,
    CandidateView, ChainRecord, ChainRecordView, OwnedRecord, OwnedRecordView, ScanError,
};
use vstd::prelude::*;

verus! {

/// The number of blocks in a window of the scan for unspent records.
pub const UNSPENT_STEP: u32 = 49;

/// Where the window that ends at `cursor` starts: 49 blocks below, but not
/// below the start of the range.
pub open spec fn window_start(start: u32, cursor: u32) -> u32 {
    if cursor - start > 49 {
        (cursor - 49) as u32
    } else {
        start
    }
}

/// Where the scan stands after `done` windows of a range: 49 blocks lower
/// for each window, but not below the start of the range.
pub open spec fn descending_end(start: int, end: int, done: nat) -> int {
    if end - 49 * done > start {
        end - 49 * done
    } else {
        start
    }
}

/// Whether a total of microcredits reaches the bound, if there is one.
pub open spec fn bound_reached(max: Option<u64>, total: nat) -> bool {
    match max {
        Some(bound) => total >= bound,
        None => false,
    }
}

/// What the driver of a scan has to do next.
#[derive(Clone, Copy, Debug, PartialEq, Eq, Structural)]
pub enum ScanStep {
    /// Fetch the blocks from `start` up to, not including, `end`, and hand
    /// their records to the scan.
    FetchBlocks { start: u32, end: u32 },
    /// Ask the chain about each pending serial number, and hand the answers
    /// to the scan.
    QuerySpent,
    /// Nothing: the scan is over.
    Finished,
}

/// A scan for unspent records as plain values.
pub struct UnspentScanView {
    pub account: AccountView,
    /// The height range, `start` included, `end` not.
    pub start: u32,
    pub end: u32,
    /// The microcredits at which the scan stops, if any.
    pub max: Option<u64>,
    /// The end of the next window; the windows done cover `cursor..end`.
    pub cursor: u32,
    /// Whether the candidates of a window wait for their spent answers.
    pub awaiting: bool,
    pub pending: Seq<CandidateView>,
    /// The records found so far, in the order in which they were found.
    pub records: Seq<OwnedRecordView>,
    /// The microcredits found so far, capped at the largest `u64`.
    pub total: u64,
    /// The microcredits found after each window done.
    pub sums: Seq<nat>,
}

/// Whether the scan has found enough: a window is done and the microcredits
/// found reach the bound.
pub open spec fn halted(scan: UnspentScanView) -> bool {
    scan.sums.len() > 0 && bound_reached(scan.max, credited(scan.records))
}

/// The step that a scan asks for.
pub open spec fn next_step(scan: UnspentScanView) -> ScanStep {
    if scan.awaiting {
        ScanStep::QuerySpent
    } else if halted(scan) || scan.cursor <= scan.start {
        ScanStep::Finished
    } else {
        ScanStep::FetchBlocks { start: window_start(scan.start, scan.cursor), end: scan.cursor }
    }
}

/// The scan at its beginning.
pub open spec fn initial(account: AccountView, start: u32, end: u32, max: Option<u64>) ->
    UnspentScanView {
    UnspentScanView {
        account,
        start,
        end,
        max,
        cursor: end,
        awaiting: false,
        pending: Seq::empty(),
        records: Seq::empty(),
        total: 0,
        sums: Seq::empty(),
    }
}

/// The scan after it was handed the records of the window that it asked for.
pub open spec fn offered(scan: UnspentScanView, records: Seq<ChainRecordView>) ->
    UnspentScanView {
    UnspentScanView {
        awaiting: true,
        pending: candidates_of(scan.account, records),
        ..scan
    }
}

/// A total of microcredits, capped at the largest `u64`.
pub open spec fn capped(total: nat) -> u64 {
    if total > u64::MAX {
        u64::MAX
    } else {
        total as u64
    }
}

/// The scan after the unspent records of its window were added: the window
/// is done, and the next one ends where this one started.
pub open spec fn absorbed(scan: UnspentScanView, found: Seq<OwnedRecordView>) -> UnspentScanView {
    UnspentScanView {
        cursor: window_start(scan.start, scan.cursor),
        awaiting: false,
        pending: Seq::empty(),
        records: scan.records + found,
        total: capped(credited(scan.records + found)),
        sums: scan.sums.push(credited(scan.records + found)),
        ..scan
    }
}

/// Whether a pending candidate is one of the account's, with well-formed
/// field elements.
pub open spec fn valid_candidate(account: AccountView, candidate: CandidateView) -> bool {
    &&& candidate.entry.commitment < modulus()
    &&& candidate.serial_number < modulus()
    &&& candidate_of(account, candidate.entry) == Some(candidate)
}

/// What holds of a scan at every moment.
pub open spec fn valid_scan(scan: UnspentScanView) -> bool {
    &&& valid_account(scan.account)
    &&& scan.start < scan.end
    &&& scan.start <= scan.cursor <= scan.end
    &&& scan.cursor == descending_end(scan.start as int, scan.end as int, scan.sums.len())
    &&& scan.total == capped(credited(scan.records))
    &&& scan.sums.len() == 0 ==> scan.records.len() == 0
    &&& scan.sums.len() > 0 ==> scan.sums.last() == credited(scan.records)
    &&& forall|k: int| 0 <= k < scan.sums.len() - 1 ==> !bound_reached(scan.max, #[trigger] scan.sums[k])
    &&& all_owned(scan.account, scan.records)
    &&& scan.awaiting ==> scan.cursor > scan.start && !halted(scan)
    &&& !scan.awaiting ==> scan.pending.len() == 0
    &&& forall|i: int|
        0 <= i < scan.pending.len() ==> valid_candidate(scan.account, #[trigger] scan.pending[i])
}

/// A scan for the unspent records of an account in a range of block heights.
pub struct UnspentScan {
    account: Account,
    start: u32,
    end: u32,
    max: Option<u64>,
    cursor: u32,
    awaiting: bool,
    pending: Vec<Candidate>,
    records: Vec<OwnedRecord>,
    total: u64,
    sums: Ghost<Seq<nat>>,
}

impl View for UnspentScan {
    type V = UnspentScanView;

    closed spec fn view(&self) -> UnspentScanView {
        UnspentScanView {
            account: self.account@,
            start: self.start,
            end: self.end,
            max: self.max,
            cursor: self.cursor,
            awaiting: self.awaiting,
            pending: candidate_views(self.pending@),
            records: owned_views(self.records@),
            total: self.total,
            sums: self.sums@,
        }
    }
}

impl UnspentScan {
    /// A scan is well formed when [`valid_scan`] holds of it.
    pub open spec fn wf(&self) -> bool {
        valid_scan(self@)
    }

    /// Begins a scan of the heights from `start` up to, not including, `end`,
    /// which stops once the records found hold `max` microcredits, if `max`
    /// is given. `EmptyRange` where `start` is not below `end`.
    pub fn begin(account: Account, start: u32, end: u32, max: Option<u64>) -> (scan: Result<
        UnspentScan,
        ScanError,
    >)
        requires
            account.wf(),
        ensures
            scan is Ok <==> start < end,
            scan matches Ok(s) ==> s.wf() && s@ == initial(account@, start, end, max),
            scan matches Err(e) ==> e == ScanError::EmptyRange,
    {
        if start >= end {
            return Err(ScanError::EmptyRange);
        }
        let scan = UnspentScan {
            account,
            start,
            end,
            max,
            cursor: end,
            awaiting: false,
            pending: Vec::new(),
            records: Vec::new(),
            total: 0,
            sums: Ghost(Seq::empty()),
        };
        assert(scan@.pending =~= Seq::<CandidateView>::empty());
        assert(scan@.records =~= Seq::<OwnedRecordView>::empty());
        Ok(scan)
    }

    /// Whether the microcredits found reach the bound after a window is done.
    fn has_enough(&self) -> (enough: bool)
        requires
            self.wf(),
        ensures
            enough == halted(self@),
    {
        proof {
            if self.sums@.len() == 0 {
                assert(self.cursor == self.end);
            } else {
                assert(self.cursor < self.end) by {
                    assert(49 * self.sums@.len() >= 49) by (nonlinear_arith)
                        requires
                            self.sums@.len() >= 1,
                    ;
                }
            }
        }
        match self.max {
            Some(bound) => self.cursor < self.end && self.total >= bound,
            None => false,
        }
    }

    /// What the driver has to do next. A window to fetch lies in the range,
    /// is not empty and holds at most 49 blocks.
    pub fn step(&self) -> (step: ScanStep)
        requires
            self.wf(),
        ensures
            step == next_step(self@),
            step matches ScanStep::FetchBlocks { start, end } ==> self@.start <= start < end
                <= self@.end && end - start <= 49,
    {
        if self.awaiting {
            ScanStep::QuerySpent
        } else if self.has_enough() || self.cursor <= self.start {
            ScanStep::Finished
        } else {
            let start = if self.cursor - self.start > UNSPENT_STEP {
                self.cursor - UNSPENT_STEP
            } else {
                self.start
            };
            ScanStep::FetchBlocks { start, end: self.cursor }
        }
    }

    /// The serial numbers to ask the chain about, one for each pending
    /// candidate, in their order.
    pub fn pending_serial_numbers(&self) -> (numbers: Vec<FieldElement>)
        ensures
            numbers.len() == self@.pending.len(),
            forall|i: int|
                0 <= i < numbers.len() ==> numbers[i].value() == self@.pending[i].serial_number,
    {
        serial_numbers(&self.pending)
    }

    /// Takes the records of the window that the scan asked for: those that the
    /// account owns become pending, each with its serial number. `OutOfTurn`,
    /// and nothing changes, where the scan did not ask for a window.
    pub fn on_blocks(&mut self, records: &Vec<ChainRecord>) -> (taken: Result<(), ScanError>)
        requires
            old(self).wf(),
            forall|i: int| 0 <= i < records.len() ==> (#[trigger] records[i]).wf(),
        ensures
            final(self).wf(),
            next_step(old(self)@) is FetchBlocks ==> taken is Ok && final(self)@ == offered(
                old(self)@,
                entries(records@),
            ),
            !(next_step(old(self)@) is FetchBlocks) ==> taken == Err::<(), ScanError>(
                ScanError::OutOfTurn,
            ) && final(self)@ == old(self)@,
    {
        match self.step() {
            ScanStep::FetchBlocks { .. } => {},
            _ => {
                return Err(ScanError::OutOfTurn);
            },
        }
        let pending = find_candidates(&self.account, records);
        proof {
            lemma_candidates_are_owned(self.account@, entries(records@));
            assert forall|i: int| 0 <= i < pending.len() implies valid_candidate(
                self.account@,
                #[trigger] candidate_views(pending@)[i],
            ) by {
                assert(pending[i].wf());
                assert(candidate_views(pending@)[i] == candidates_of(
                    self.account@,
                    entries(records@),
                )[i]);
            }
        }
        self.pending = pending;
        self.awaiting = true;
        Ok(())
    }

    /// Takes the chain's answers on the pending serial numbers, `true` for
    /// spent. The candidates not spent are decrypted and added to the records
    /// found, and the window is done. Nothing changes where the scan did not
    /// ask (`OutOfTurn`), where there is not one answer for each serial number
    /// (`AnswerMismatch`), or where a candidate does not decrypt
    /// (`DecryptFailed`).
    pub fn on_spent(&mut self, spent: &Vec<bool>) -> (taken: Result<(), ScanError>)
        requires
            old(self).wf(),
        ensures
            final(self).wf(),
            !old(self)@.awaiting ==> taken == Err::<(), ScanError>(ScanError::OutOfTurn)
                && final(self)@ == old(self)@,
            old(self)@.awaiting ==> match answered(old(self)@.account, old(self)@.pending, spent@) {
                Ok(found) => taken is Ok && final(self)@ == absorbed(old(self)@, found),
                Err(e) => taken == Err::<(), ScanError>(e) && final(self)@ == old(self)@,
            },
    {
        if !self.awaiting {
            return Err(ScanError::OutOfTurn);
        }
        let mut found = match open_unspent(&self.account, &self.pending, spent) {
            Ok(found) => found,
            Err(e) => {
                return Err(e);
            },
        };
        let ghost before = self@;
        let ghost added = owned_views(found@);
        let gained = sum_microcredits(&found);
        proof {
            lemma_credited_concat(before.records, added);
            lemma_unspent_were_not_spent(before.account, before.pending, spent@);
            assert forall|i: int| 0 <= i < (before.records + added).len() implies {
                let r = #[trigger] (before.records + added)[i];
                &&& owned_by(r.ciphertext, before.account.view_key)
                &&& record_plaintext(r.ciphertext, before.account.view_key) == Some(
                    r.plaintext,
                )
            } by {
                if i < before.records.len() {
                    assert((before.records + added)[i] == before.records[i]);
                } else {
                    let r = added[i - before.records.len()];
                    assert((before.records + added)[i] == r);
                    let j = choose|j: int|
                        0 <= j < before.pending.len() && !spent@[j] && opened(
                            before.account,
                            before.pending[j].entry,
                        ) == Some(r);
                    assert(valid_candidate(before.account, before.pending[j]));
                }
            }
        }
        self.total = self.total.saturating_add(gained);
        self.records.append(&mut found);
        self.cursor = if self.cursor - self.start > UNSPENT_STEP {
            self.cursor - UNSPENT_STEP
        } else {
            self.start
        };
        self.pending = Vec::new();
        self.awaiting = false;
        self.sums = Ghost(before.sums.push(credited(before.records + added)));
        proof {
            assert(owned_views(self.records@) =~= before.records + added);
            assert(candidate_views(self.pending@) =~= Seq::<CandidateView>::empty());
            let after = self@;
            assert(after == absorbed(before, added));
            assert(after.cursor == descending_end(
                after.start as int,
                after.end as int,
                after.sums.len(),
            )) by {
                let k = before.sums.len();
                assert(49 * (k + 1) == 49 * k + 49) by (nonlinear_arith);
            }
            assert forall|k: int| 0 <= k < after.sums.len() - 1 implies !bound_reached(
                after.max,
                #[trigger] after.sums[k],
            ) by {
                assert(after.sums[k] == before.sums[k]);
                if k == before.sums.len() - 1 {
                    assert(!halted(before));
                }
            }
        }
        Ok(())
    }

    /// The records found so far, in the order in which they were found.
    pub fn records(&self) -> (records: &Vec<OwnedRecord>)
        ensures
            owned_views(records@) == self@.records,
    {
        &self.records
    }

    /// Ends the scan and hands out the records found, in the order in which
    /// they were found. The account owns each of them.
    pub fn into_records(self) -> (records: Vec<OwnedRecord>)
        requires
            self.wf(),
        ensures
            owned_views(records@) == self@.records,
            all_owned(self@.account, owned_views(records@)),
    {
        self.records
    }
}

/// The microcredits of a list of owned records, capped at the largest `u64`.
pub fn sum_microcredits(records: &Vec<OwnedRecord>) -> (total: u64)
    ensures
        total == capped(credited(owned_views(records@))),
{
    let mut total: u64 = 0;
    let mut i: usize = 0;
    assert(owned_views(records@).take(0) =~= Seq::<OwnedRecordView>::empty());
    while i < records.len()
        invariant
            i <= records.len(),
            total == capped(credited(owned_views(records@).take(i as int))),
        decreases records.len() - i,
    {
        proof {
            let upto = owned_views(records@).take(i as int + 1);
            assert(upto.drop_last() =~= owned_views(records@).take(i as int));
            assert(upto.last() == records[i as int]@);
        }
        total = total.saturating_add(records[i].microcredits);
        i += 1;
    }
    assert(owned_views(records@).take(records.len() as int) =~= owned_views(records@));
    total
}

/// The windows of a scan descend through the range without gap or overlap:
/// after `done` windows the next one ends where the last one started, lies in
/// the range, holds at most 49 blocks, and is empty only once the start of
/// the range is reached.
pub proof fn lemma_windows_descend(start: u32, end: u32, done: nat)
    requires
        start < end,
    ensures
        ({
            let high = descending_end(start as int, end as int, done);
            let low = descending_end(start as int, end as int, done + 1);
            &&& start <= low <= high <= end
            &&& high - low <= 49
            &&& high > start ==> low < high
            &&& low == window_start(start, high as u32)
            &&& done == 0 ==> high == end
        }),
{
    assert(49 * (done + 1) == 49 * done + 49) by (nonlinear_arith);
    assert(49 * done >= 0) by (nonlinear_arith);
}

/// A scan stops once the microcredits found reach its bound, and only then or
/// at the start of the range: when a window is done and the records found
/// hold as much as the bound, the scan is finished; every window before the
/// last one done left the records found below the bound.
pub proof fn lemma_scan_stops_at_bound(scan: UnspentScanView)
    requires
        valid_scan(scan),
    ensures
        !scan.awaiting && scan.sums.len() > 0 && bound_reached(scan.max, credited(scan.records))
            ==> next_step(scan) == ScanStep::Finished,
        next_step(scan) == ScanStep::Finished ==> scan.cursor == scan.start || bound_reached(
            scan.max,
            credited(scan.records),
        ),
        scan.sums.len() > 0 ==> scan.sums.last() == credited(scan.records),
        forall|k: int|
            0 <= k < scan.sums.len() - 1 ==> !bound_reached(scan.max, #[trigger] scan.sums[k]),
{
}

/// The account owns every record that a scan has found, and each is the
/// decryption of its encrypted text under the account's view key.
pub proof fn lemma_found_records_are_owned(scan: UnspentScanView, i: int)
    requires
        valid_scan(scan),
        0 <= i < scan.records.len(),
    ensures
        owned_by(scan.records[i].ciphertext, scan.account.view_key),
        record_plaintext(scan.records[i].ciphertext, scan.account.view_key) == Some(
            scan.records[i].plaintext,
        ),
{
}

} // verus!
