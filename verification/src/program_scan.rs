//! The scan for a program's records that an account owns: windows of 50
//! blocks from the lowest upward, with or without the check that a record is
//! unspent. The records stay encrypted.
use crate::account::{valid_account, Account, AccountView};
use crate::field::FieldElement;
use crate::record::owned_by;
use crate::scan::{
    candidate_views, candidates_of, entries, find_candidates, lemma_candidates_are_owned,
    serial_numbers, Candidate, CandidateView, ChainRecord, ChainRecordView, ScanError,
};
use crate::sweep::{aligned, ascending_start, window_end, SWEEP_STEP};
use crate::unspent::{valid_candidate, ScanStep};
use vstd::prelude::*;

verus! {

/// The records of a list that the account owns, in the list's order.
pub open spec fn owned_entries(account: AccountView, records: Seq<ChainRecordView>) -> Seq<
    ChainRecordView,
>
    decreases records.len(),
{
    if records.len() == 0 {
        Seq::empty()
    } else if owned_by(records.last().record, account.view_key) {
        owned_entries(account, records.drop_last()).push(records.last())
    } else {
        owned_entries(account, records.drop_last())
    }
}

/// The records of the candidates that were not reported spent, in the list's
/// order.
pub open spec fn kept(candidates: Seq<CandidateView>, spent: Seq<bool>) -> Seq<ChainRecordView>
    recommends
        candidates.len() == spent.len(),
    decreases candidates.len(),
{
    if candidates.len() == 0 {
        Seq::empty()
    } else if spent.last() {
        kept(candidates.drop_last(), spent.drop_last())
    } else {
        kept(candidates.drop_last(), spent.drop_last()).push(candidates.last().entry)
    }
}

/// Whether the account owns every record of a list.
pub open spec fn each_owned(account: AccountView, records: Seq<ChainRecordView>) -> bool {
    forall|i: int| 0 <= i < records.len() ==> owned_by((#[trigger] records[i]).record, account.view_key)
}

/// The records of a window that the account owns.
pub fn owned_records(account: &Account, records: &Vec<ChainRecord>) -> (owned: Vec<ChainRecord>)
    ensures
        entries(owned@) == owned_entries(account@, entries(records@)),
        each_owned(account@, entries(owned@)),
{
    let mut owned: Vec<ChainRecord> = Vec::new();
    let mut i: usize = 0;
    assert(entries(records@).take(0) =~= Seq::<ChainRecordView>::empty());
    assert(entries(owned@) =~= Seq::<ChainRecordView>::empty());
    while i < records.len()
        invariant
            i <= records.len(),
            entries(owned@) == owned_entries(account@, entries(records@).take(i as int)),
            each_owned(account@, entries(owned@)),
        decreases records.len() - i,
    {
        proof {
            let upto = entries(records@).take(i as int + 1);
            assert(upto.drop_last() =~= entries(records@).take(i as int));
            assert(upto.last() == records[i as int]@);
        }
        if records[i].record.is_owner(account) {
            let ghost before = entries(owned@);
            let copy = records[i].clone();
            owned.push(copy);
            assert(entries(owned@) =~= before.push(copy@));
        }
        i += 1;
    }
    assert(entries(records@).take(records.len() as int) =~= entries(records@));
    owned
}

/// The records of the candidates that were not reported spent;
/// `AnswerMismatch` where there is not one answer for each candidate.
pub fn keep_unspent(candidates: &Vec<Candidate>, spent: &Vec<bool>) -> (left: Result<
    Vec<ChainRecord>,
    ScanError,
>)
    ensures
        left is Ok <==> candidates.len() == spent.len(),
        left matches Ok(records) ==> entries(records@) == kept(candidate_views(candidates@), spent@),
        left matches Err(e) ==> e == ScanError::AnswerMismatch,
{
    if candidates.len() != spent.len() {
        return Err(ScanError::AnswerMismatch);
    }
    let mut left: Vec<ChainRecord> = Vec::new();
    let mut i: usize = 0;
    assert(candidate_views(candidates@).take(0) =~= Seq::<CandidateView>::empty());
    assert(entries(left@) =~= Seq::<ChainRecordView>::empty());
    while i < candidates.len()
        invariant
            i <= candidates.len(),
            candidates.len() == spent.len(),
            entries(left@) == kept(
                candidate_views(candidates@).take(i as int),
                spent@.take(i as int),
            ),
        decreases candidates.len() - i,
    {
        proof {
            let upto = candidate_views(candidates@).take(i as int + 1);
            assert(upto.drop_last() =~= candidate_views(candidates@).take(i as int));
            assert(upto.last() == candidates[i as int]@);
            let flags = spent@.take(i as int + 1);
            assert(flags.drop_last() =~= spent@.take(i as int));
            assert(flags.last() == spent[i as int]);
        }
        if !spent[i] {
            let ghost before = entries(left@);
            let copy = candidates[i].entry.clone();
            left.push(copy);
            assert(entries(left@) =~= before.push(copy@));
        }
        i += 1;
    }
    assert(candidate_views(candidates@).take(candidates.len() as int) =~= candidate_views(
        candidates@,
    ));
    assert(spent@.take(spent.len() as int) =~= spent@);
    Ok(left)
}

/// Every record kept is the record of a candidate that was not reported
/// spent.
pub proof fn lemma_kept_were_not_spent(candidates: Seq<CandidateView>, spent: Seq<bool>)
    requires
        candidates.len() == spent.len(),
    ensures
        forall|i: int|
            0 <= i < kept(candidates, spent).len() ==> exists|j: int|
                0 <= j < candidates.len() && !spent[j] && candidates[j].entry == #[trigger] kept(
                    candidates,
                    spent,
                )[i],
    decreases candidates.len(),
{
    if candidates.len() > 0 {
        let earlier = kept(candidates.drop_last(), spent.drop_last());
        lemma_kept_were_not_spent(candidates.drop_last(), spent.drop_last());
        let all = kept(candidates, spent);
        assert forall|i: int| 0 <= i < all.len() implies exists|j: int|
            0 <= j < candidates.len() && !spent[j] && candidates[j].entry == #[trigger] all[i] by {
            if i < earlier.len() {
                assert(all[i] == earlier[i]);
                let j = choose|j: int|
                    0 <= j < candidates.drop_last().len() && !spent.drop_last()[j]
                        && candidates.drop_last()[j].entry == earlier[i];
                assert(!spent[j] && candidates[j].entry == all[i]);
            } else {
                let j = candidates.len() - 1;
                assert(!spent[j] && candidates[j].entry == all[i]);
            }
        }
    }
}

/// A scan for a program's records as plain values.
pub struct ProgramScanView {
    pub account: AccountView,
    /// The height range, `start` included, `end` not.
    pub start: u32,
    pub end: u32,
    /// Whether records reported spent are left out.
    pub unspent_only: bool,
    /// The start of the next window.
    pub cursor: u32,
    /// Whether the candidates of a window wait for their spent answers.
    pub awaiting: bool,
    pub pending: Seq<CandidateView>,
    /// The records found so far, in the order in which they were found.
    pub records: Seq<ChainRecordView>,
    /// The number of windows done.
    pub done: nat,
}

/// The step that a scan asks for.
pub open spec fn program_step(scan: ProgramScanView) -> ScanStep {
    if scan.awaiting {
        ScanStep::QuerySpent
    } else if scan.cursor >= scan.end {
        ScanStep::Finished
    } else {
        ScanStep::FetchBlocks { start: scan.cursor, end: window_end(scan.cursor, scan.end) }
    }
}

/// The scan at its beginning.
pub open spec fn opening(account: AccountView, start: u32, end: u32, unspent_only: bool) ->
    ProgramScanView {
    ProgramScanView {
        account,
        start,
        end,
        unspent_only,
        cursor: aligned(start),
        awaiting: false,
        pending: Seq::empty(),
        records: Seq::empty(),
        done: 0,
    }
}

/// The scan after the records of a window were added and the window is done.
pub open spec fn advanced(scan: ProgramScanView, found: Seq<ChainRecordView>) -> ProgramScanView {
    ProgramScanView {
        cursor: window_end(scan.cursor, scan.end),
        awaiting: false,
        pending: Seq::empty(),
        records: scan.records + found,
        done: scan.done + 1,
        ..scan
    }
}

/// The scan after it was handed the program's records of the window that it
/// asked for: with the spent check they become candidates and wait; without,
/// the owned ones are added.
pub open spec fn supplied(scan: ProgramScanView, records: Seq<ChainRecordView>) -> ProgramScanView {
    if scan.unspent_only {
        ProgramScanView {
            awaiting: true,
            pending: candidates_of(scan.account, records),
            ..scan
        }
    } else {
        advanced(scan, owned_entries(scan.account, records))
    }
}

/// What holds of a scan at every moment.
pub open spec fn valid_program_scan(scan: ProgramScanView) -> bool {
    &&& valid_account(scan.account)
    &&& scan.cursor == ascending_start(scan.start, scan.end, scan.done)
    &&& scan.done > 0 ==> scan.cursor <= scan.end
    &&& each_owned(scan.account, scan.records)
    &&& scan.awaiting ==> scan.unspent_only && scan.cursor < scan.end
    &&& !scan.awaiting ==> scan.pending.len() == 0
    &&& forall|i: int|
        0 <= i < scan.pending.len() ==> valid_candidate(scan.account, #[trigger] scan.pending[i])
}

/// A scan for the records of a program that an account owns.
pub struct ProgramScan {
    account: Account,
    start: u32,
    end: u32,
    unspent_only: bool,
    cursor: u32,
    awaiting: bool,
    pending: Vec<Candidate>,
    records: Vec<ChainRecord>,
    done: Ghost<nat>,
}

impl View for ProgramScan {
    type V = ProgramScanView;

    closed spec fn view(&self) -> ProgramScanView {
        ProgramScanView {
            account: self.account@,
            start: self.start,
            end: self.end,
            unspent_only: self.unspent_only,
            cursor: self.cursor,
            awaiting: self.awaiting,
            pending: candidate_views(self.pending@),
            records: entries(self.records@),
            done: self.done@,
        }
    }
}

impl ProgramScan {
    /// A scan is well formed when [`valid_program_scan`] holds of it.
    pub open spec fn wf(&self) -> bool {
        valid_program_scan(self@)
    }

    /// Begins a scan of the heights from `start` up to, not including, `end`.
    /// The first window starts at the multiple of 50 at or below `start`.
    pub fn begin(account: Account, start: u32, end: u32, unspent_only: bool) -> (scan: ProgramScan)
        requires
            account.wf(),
        ensures
            scan.wf(),
            scan@ == opening(account@, start, end, unspent_only),
    {
        let scan = ProgramScan {
            account,
            start,
            end,
            unspent_only,
            cursor: start - start % SWEEP_STEP,
            awaiting: false,
            pending: Vec::new(),
            records: Vec::new(),
            done: Ghost(0),
        };
        assert(scan@.pending =~= Seq::<CandidateView>::empty());
        assert(scan@.records =~= Seq::<ChainRecordView>::empty());
        scan
    }

    /// What the driver has to do next. A window to fetch is not empty, holds
    /// at most 50 blocks and ends in the range.
    pub fn step(&self) -> (step: ScanStep)
        requires
            self.wf(),
        ensures
            step == program_step(self@),
            step matches ScanStep::FetchBlocks { start, end } ==> start < end <= self@.end && end
                - start <= 50,
    {
        if self.awaiting {
            ScanStep::QuerySpent
        } else if self.cursor >= self.end {
            ScanStep::Finished
        } else {
            let end = if self.end - self.cursor > SWEEP_STEP {
                self.cursor + SWEEP_STEP
            } else {
                self.end
            };
            ScanStep::FetchBlocks { start: self.cursor, end }
        }
    }

    /// The serial numbers to ask the chain about, one for each pending
    /// candidate, in their order.
    pub fn pending_serial_numbers(&self) -> (numbers: Vec<FieldElement>)
        ensures
            numbers.len() == self@.pending.len(),
            forall|i: int|
                0 <= i < numbers.len() ==> numbers[i].value() == self@.pending[i].serial_number,
    {
        serial_numbers(&self.pending)
    }

    /// Moves to the next window with the records found in this one.
    fn advance(&mut self, found: Vec<ChainRecord>)
        requires
            old(self).wf(),
            old(self)@.cursor < old(self)@.end,
            each_owned(old(self)@.account, entries(found@)),
        ensures
            final(self).wf(),
            final(self)@ == advanced(old(self)@, entries(found@)),
    {
        let ghost before = self@;
        let ghost added = entries(found@);
        let mut found = found;
        proof {
            assert forall|i: int| 0 <= i < (before.records + added).len() implies owned_by(
                (#[trigger] (before.records + added)[i]).record,
                before.account.view_key,
            ) by {
                if i < before.records.len() {
                    assert((before.records + added)[i] == before.records[i]);
                } else {
                    assert((before.records + added)[i] == added[i - before.records.len()]);
                }
            }
            assert(50 * (before.done + 1) == 50 * before.done + 50) by (nonlinear_arith);
        }
        self.records.append(&mut found);
        self.cursor = if self.end - self.cursor > SWEEP_STEP {
            self.cursor + SWEEP_STEP
        } else {
            self.end
        };
        self.pending = Vec::new();
        self.awaiting = false;
        self.done = Ghost(before.done + 1);
        proof {
            assert(entries(self.records@) =~= before.records + added);
            assert(candidate_views(self.pending@) =~= Seq::<CandidateView>::empty());
        }
    }

    /// Takes the program's records of the window that the scan asked for.
    /// With the spent check, those that the account owns become pending, each
    /// with its serial number; without, they are added to the records found
    /// and the window is done. `OutOfTurn`, and nothing changes, where the
    /// scan did not ask for a window.
    pub fn on_blocks(&mut self, records: &Vec<ChainRecord>) -> (taken: Result<(), ScanError>)
        requires
            old(self).wf(),
            forall|i: int| 0 <= i < records.len() ==> (#[trigger] records[i]).wf(),
        ensures
            final(self).wf(),
            program_step(old(self)@) is FetchBlocks ==> taken is Ok && final(self)@ == supplied(
                old(self)@,
                entries(records@),
            ),
            !(program_step(old(self)@) is FetchBlocks) ==> taken == Err::<(), ScanError>(
                ScanError::OutOfTurn,
            ) && final(self)@ == old(self)@,
    {
        match self.step() {
            ScanStep::FetchBlocks { .. } => {},
            _ => {
                return Err(ScanError::OutOfTurn);
            },
        }
        if self.unspent_only {
            let pending = find_candidates(&self.account, records);
            proof {
                lemma_candidates_are_owned(self.account@, entries(records@));
                assert forall|i: int| 0 <= i < pending.len() implies valid_candidate(
                    self.account@,
                    #[trigger] candidate_views(pending@)[i],
                ) by {
                    assert(pending[i].wf());
                    assert(candidate_views(pending@)[i] == candidates_of(
                        self.account@,
                        entries(records@),
                    )[i]);
                }
            }
            self.pending = pending;
            self.awaiting = true;
        } else {
            let owned = owned_records(&self.account, records);
            self.advance(owned);
        }
        Ok(())
    }

    /// Takes the chain's answers on the pending serial numbers, `true` for
    /// spent. The records of the candidates not spent are added to the
    /// records found, and the window is done. Nothing changes where the scan
    /// did not ask (`OutOfTurn`) or where there is not one answer for each
    /// serial number (`AnswerMismatch`).
    pub fn on_spent(&mut self, spent: &Vec<bool>) -> (taken: Result<(), ScanError>)
        requires
            old(self).wf(),
        ensures
            final(self).wf(),
            !old(self)@.awaiting ==> taken == Err::<(), ScanError>(ScanError::OutOfTurn)
                && final(self)@ == old(self)@,
            old(self)@.awaiting && old(self)@.pending.len() != spent.len() ==> taken == Err::<
                (),
                ScanError,
            >(ScanError::AnswerMismatch) && final(self)@ == old(self)@,
            old(self)@.awaiting && old(self)@.pending.len() == spent.len() ==> taken is Ok
                && final(self)@ == advanced(old(self)@, kept(old(self)@.pending, spent@)),
    {
        if !self.awaiting {
            return Err(ScanError::OutOfTurn);
        }
        let left = match keep_unspent(&self.pending, spent) {
            Ok(left) => left,
            Err(e) => {
                return Err(e);
            },
        };
        proof {
            let before = self@;
            lemma_kept_were_not_spent(before.pending, spent@);
            assert forall|i: int| 0 <= i < entries(left@).len() implies owned_by(
                (#[trigger] entries(left@)[i]).record,
                before.account.view_key,
            ) by {
                let j = choose|j: int|
                    0 <= j < before.pending.len() && !spent@[j] && before.pending[j].entry
                        == entries(left@)[i];
                assert(valid_candidate(before.account, before.pending[j]));
            }
        }
        self.advance(left);
        Ok(())
    }

    /// The records found so far, in the order in which they were found.
    pub fn records(&self) -> (records: &Vec<ChainRecord>)
        ensures
            entries(records@) == self@.records,
    {
        &self.records
    }

    /// Ends the scan and hands out the records found, in the order in which
    /// they were found. The account owns each of them.
    pub fn into_records(self) -> (records: Vec<ChainRecord>)
        requires
            self.wf(),
        ensures
            entries(records@) == self@.records,
            each_owned(self@.account, entries(records@)),
    {
        self.records
    }
}

} // verus!
