//! What a record scan does with one window of blocks: keep the records that
//! the account owns, derive their serial numbers, drop those that the chain
//! reports as spent, and decrypt the rest.
use crate::account::{Account, AccountView};
use crate::field::FieldElement;
use crate::record::{
    microcredits_of, owned_by, record_plaintext, record_serial_number, serial_number_of,
    CiphertextRecord, PlaintextRecord,
};
use vstd::prelude::*;

verus! {

/// Why a scan did not go on.
#[derive(Clone, Copy, Debug, PartialEq, Eq, Structural)]
pub enum ScanError {
    /// The start of the height range is not below its end.
    EmptyRange,
    /// A record that the account owns did not decrypt under its view key.
    DecryptFailed,
    /// The scan was handed something that it had not asked for.
    OutOfTurn,
    /// The spent answers are not as many as the serial numbers asked about.
    AnswerMismatch,
}

impl ScanError {
    /// The error in words.
    pub fn message(&self) -> (text: &'static str)
        ensures
            text@ == (match self {
                ScanError::EmptyRange => "The start block height must be less than the end block height"@,
                ScanError::DecryptFailed => "Failed to decrypt records"@,
                ScanError::OutOfTurn => "The scan did not ask for this"@,
                ScanError::AnswerMismatch => "The answers do not match the serial numbers asked about"@,
            }),
    {
        match self {
            ScanError::EmptyRange => "The start block height must be less than the end block height",
            ScanError::DecryptFailed => "Failed to decrypt records",
            ScanError::OutOfTurn => "The scan did not ask for this",
            ScanError::AnswerMismatch => "The answers do not match the serial numbers asked about",
        }
    }
}

/// A record as a block holds it, with its commitment.
#[derive(Debug)]
pub struct ChainRecord {
    pub commitment: FieldElement,
    pub record: CiphertextRecord,
}

/// A [`ChainRecord`] as plain values.
pub struct ChainRecordView {
    pub commitment: nat,
    pub record: Seq<char>,
}

impl View for ChainRecord {
    type V = ChainRecordView;

    open spec fn view(&self) -> ChainRecordView {
        ChainRecordView { commitment: self.commitment.value(), record: self.record@ }
    }
}

impl ChainRecord {
    /// A chain record is well formed when its commitment is.
    pub open spec fn wf(&self) -> bool {
        self.commitment.wf()
    }

    pub fn new(commitment: FieldElement, record: CiphertextRecord) -> (entry: ChainRecord)
        ensures
            entry.commitment == commitment,
            entry.record == record,
    {
        ChainRecord { commitment, record }
    }
}

impl Clone for ChainRecord {
    fn clone(&self) -> (copy: ChainRecord)
        ensures
            copy@ == self@,
            copy.commitment == self.commitment,
    {
        ChainRecord { commitment: self.commitment, record: self.record.clone() }
    }
}

/// A record that the account owns, with the serial number that would mark it
/// as spent.
#[derive(Debug)]
pub struct Candidate {
    pub entry: ChainRecord,
    pub serial_number: FieldElement,
}

/// A [`Candidate`] as plain values.
pub struct CandidateView {
    pub entry: ChainRecordView,
    pub serial_number: nat,
}

impl View for Candidate {
    type V = CandidateView;

    open spec fn view(&self) -> CandidateView {
        CandidateView { entry: self.entry@, serial_number: self.serial_number.value() }
    }
}

impl Candidate {
    /// A candidate is well formed when its commitment and serial number are.
    pub open spec fn wf(&self) -> bool {
        self.entry.wf() && self.serial_number.wf()
    }
}

/// A record that a scan found: owned by the account and decrypted.
#[derive(Debug)]
pub struct OwnedRecord {
    pub commitment: FieldElement,
    pub ciphertext: CiphertextRecord,
    pub plaintext: PlaintextRecord,
    /// The record's microcredits, 0 where it holds none.
    pub microcredits: u64,
}

/// An [`OwnedRecord`] as plain values.
pub struct OwnedRecordView {
    pub commitment: nat,
    pub ciphertext: Seq<char>,
    pub plaintext: Seq<char>,
    pub microcredits: u64,
}

impl View for OwnedRecord {
    type V = OwnedRecordView;

    open spec fn view(&self) -> OwnedRecordView {
        OwnedRecordView {
            commitment: self.commitment.value(),
            ciphertext: self.ciphertext@,
            plaintext: self.plaintext@,
            microcredits: self.microcredits,
        }
    }
}

impl Clone for OwnedRecord {
    fn clone(&self) -> (copy: OwnedRecord)
        ensures
            copy@ == self@,
    {
        OwnedRecord {
            commitment: self.commitment,
            ciphertext: self.ciphertext.clone(),
            plaintext: self.plaintext.clone(),
            microcredits: self.microcredits,
        }
    }
}

/// The views of a list of chain records.
pub open spec fn entries(records: Seq<ChainRecord>) -> Seq<ChainRecordView> {
    records.map_values(|r: ChainRecord| r@)
}

/// The views of a list of candidates.
pub open spec fn candidate_views(candidates: Seq<Candidate>) -> Seq<CandidateView> {
    candidates.map_values(|c: Candidate| c@)
}

/// The views of a list of owned records.
pub open spec fn owned_views(records: Seq<OwnedRecord>) -> Seq<OwnedRecordView> {
    records.map_values(|r: OwnedRecord| r@)
}

/// The candidate that a chain record makes for an account: one where the
/// account owns the record and a serial number can be derived for it.
pub open spec fn candidate_of(account: AccountView, entry: ChainRecordView) -> Option<
    CandidateView,
> {
    if owned_by(entry.record, account.view_key) {
        match serial_number_of(account.seed, entry.commitment) {
            Some(serial_number) => Some(CandidateView { entry, serial_number }),
            None => None,
        }
    } else {
        None
    }
}

/// The candidates among a list of chain records, in the list's order.
pub open spec fn candidates_of(account: AccountView, records: Seq<ChainRecordView>) -> Seq<
    CandidateView,
>
    decreases records.len(),
{
    if records.len() == 0 {
        Seq::empty()
    } else {
        let earlier = candidates_of(account, records.drop_last());
        match candidate_of(account, records.last()) {
            Some(candidate) => earlier.push(candidate),
            None => earlier,
        }
    }
}

/// The owned record that a chain record decrypts to under the account's view
/// key, where it does. Microcredits that the record does not hold count as 0.
pub open spec fn opened(account: AccountView, entry: ChainRecordView) -> Option<OwnedRecordView> {
    match record_plaintext(entry.record, account.view_key) {
        Some(plaintext) => Some(
            OwnedRecordView {
                commitment: entry.commitment,
                ciphertext: entry.record,
                plaintext,
                microcredits: match microcredits_of(plaintext) {
                    Some(amount) => amount,
                    None => 0,
                },
            },
        ),
        None => None,
    }
}

/// The candidates that were not reported spent, decrypted, in the list's
/// order; `DecryptFailed` where one of them does not decrypt.
pub open spec fn unspent_of(
    account: AccountView,
    candidates: Seq<CandidateView>,
    spent: Seq<bool>,
) -> Result<Seq<OwnedRecordView>, ScanError>
    recommends
        candidates.len() == spent.len(),
    decreases candidates.len(),
{
    if candidates.len() == 0 {
        Ok(Seq::empty())
    } else {
        match unspent_of(account, candidates.drop_last(), spent.drop_last()) {
            Err(e) => Err(e),
            Ok(earlier) => if spent.last() {
                Ok(earlier)
            } else {
                match opened(account, candidates.last().entry) {
                    Some(record) => Ok(earlier.push(record)),
                    None => Err(ScanError::DecryptFailed),
                }
            },
        }
    }
}

/// The records of a list that the account owns, decrypted, in the list's
/// order; `DecryptFailed` where one of them does not decrypt.
pub open spec fn owned_of(account: AccountView, records: Seq<ChainRecordView>) -> Result<
    Seq<OwnedRecordView>,
    ScanError,
>
    decreases records.len(),
{
    if records.len() == 0 {
        Ok(Seq::empty())
    } else {
        match owned_of(account, records.drop_last()) {
            Err(e) => Err(e),
            Ok(earlier) => if owned_by(records.last().record, account.view_key) {
                match opened(account, records.last()) {
                    Some(record) => Ok(earlier.push(record)),
                    None => Err(ScanError::DecryptFailed),
                }
            } else {
                Ok(earlier)
            },
        }
    }
}

/// The microcredits that a list of owned records holds in all.
pub open spec fn credited(records: Seq<OwnedRecordView>) -> nat
    decreases records.len(),
{
    if records.len() == 0 {
        0
    } else {
        credited(records.drop_last()) + records.last().microcredits as nat
    }
}

/// Whether the account owns every record of a list and each is the
/// decryption of its encrypted text.
pub open spec fn all_owned(account: AccountView, records: Seq<OwnedRecordView>) -> bool {
    forall|i: int|
        0 <= i < records.len() ==> {
            &&& owned_by((#[trigger] records[i]).ciphertext, account.view_key)
            &&& record_plaintext(records[i].ciphertext, account.view_key) == Some(
                records[i].plaintext,
            )
        }
}

/// Decrypts a chain record under the account's view key and reads its
/// microcredits.
pub fn open_record(account: &Account, entry: &ChainRecord) -> (record: Option<OwnedRecord>)
    ensures
        record matches Some(r) ==> opened(account@, entry@) == Some(r@) && r.commitment
            == entry.commitment,
        record is None ==> opened(account@, entry@) is None,
{
    match entry.record.decrypt(account) {
        Ok(plaintext) => {
            let microcredits = match plaintext.microcredits() {
                Ok(amount) => amount,
                Err(_) => 0,
            };
            Some(
                OwnedRecord {
                    commitment: entry.commitment,
                    ciphertext: entry.record.clone(),
                    plaintext,
                    microcredits,
                },
            )
        },
        Err(_) => None,
    }
}

/// The candidates among the records of a window: those that the account owns
/// and for which a serial number can be derived, each with its serial number.
pub fn find_candidates(account: &Account, records: &Vec<ChainRecord>) -> (found: Vec<Candidate>)
    requires
        account.wf(),
        forall|i: int| 0 <= i < records.len() ==> (#[trigger] records[i]).wf(),
    ensures
        candidate_views(found@) == candidates_of(account@, entries(records@)),
        forall|i: int| 0 <= i < found.len() ==> (#[trigger] found[i]).wf(),
{
    let mut found: Vec<Candidate> = Vec::new();
    let mut i: usize = 0;
    assert(entries(records@).take(0) =~= Seq::<ChainRecordView>::empty());
    assert(candidate_views(found@) =~= Seq::<CandidateView>::empty());
    while i < records.len()
        invariant
            i <= records.len(),
            account.wf(),
            forall|j: int| 0 <= j < records.len() ==> (#[trigger] records[j]).wf(),
            candidate_views(found@) == candidates_of(account@, entries(records@).take(i as int)),
            forall|j: int| 0 <= j < found.len() ==> (#[trigger] found[j]).wf(),
        decreases records.len() - i,
    {
        let entry = &records[i];
        proof {
            let upto = entries(records@).take(i as int + 1);
            assert(upto.drop_last() =~= entries(records@).take(i as int));
            assert(upto.last() == entry@);
        }
        if entry.record.is_owner(account) {
            match record_serial_number(account, &entry.commitment) {
                Ok(serial_number) => {
                    let ghost before = candidate_views(found@);
                    let candidate = Candidate { entry: entry.clone(), serial_number };
                    found.push(candidate);
                    assert(candidate_views(found@) =~= before.push(candidate@));
                },
                Err(_) => {},
            }
        }
        i += 1;
    }
    assert(entries(records@).take(records.len() as int) =~= entries(records@));
    found
}

/// The serial numbers of a list of candidates, in the list's order.
pub fn serial_numbers(candidates: &Vec<Candidate>) -> (numbers: Vec<FieldElement>)
    ensures
        numbers.len() == candidates.len(),
        forall|i: int| 0 <= i < numbers.len() ==> numbers[i] == candidates[i].serial_number,
{
    let mut numbers: Vec<FieldElement> = Vec::new();
    let mut i: usize = 0;
    while i < candidates.len()
        invariant
            i <= candidates.len(),
            numbers.len() == i,
            forall|j: int| 0 <= j < i ==> numbers[j] == candidates[j].serial_number,
        decreases candidates.len() - i,
    {
        numbers.push(candidates[i].serial_number);
        i += 1;
    }
    numbers
}

/// What the spent answers leave of a window's candidates: `AnswerMismatch`
/// where there is not one answer for each candidate, else the candidates not
/// reported spent, decrypted.
pub open spec fn answered(
    account: AccountView,
    candidates: Seq<CandidateView>,
    spent: Seq<bool>,
) -> Result<Seq<OwnedRecordView>, ScanError> {
    if candidates.len() != spent.len() {
        Err(ScanError::AnswerMismatch)
    } else {
        unspent_of(account, candidates, spent)
    }
}

/// The candidates that were not reported spent, decrypted under the account's
/// view key; `DecryptFailed` where one of them does not decrypt,
/// `AnswerMismatch` where there is not one answer for each candidate.
pub fn open_unspent(account: &Account, candidates: &Vec<Candidate>, spent: &Vec<bool>) -> (found:
    Result<Vec<OwnedRecord>, ScanError>)
    ensures
        found matches Ok(records) ==> answered(account@, candidate_views(candidates@), spent@)
            == Ok::<Seq<OwnedRecordView>, ScanError>(owned_views(records@)),
        found matches Err(e) ==> answered(account@, candidate_views(candidates@), spent@) == Err::<
            Seq<OwnedRecordView>,
            ScanError,
        >(e),
{
    if candidates.len() != spent.len() {
        return Err(ScanError::AnswerMismatch);
    }
    let mut found: Vec<OwnedRecord> = Vec::new();
    let mut i: usize = 0;
    assert(candidate_views(candidates@).take(0) =~= Seq::<CandidateView>::empty());
    assert(owned_views(found@) =~= Seq::<OwnedRecordView>::empty());
    while i < candidates.len()
        invariant
            i <= candidates.len(),
            candidates.len() == spent.len(),
            unspent_of(
                account@,
                candidate_views(candidates@).take(i as int),
                spent@.take(i as int),
            ) == Ok::<Seq<OwnedRecordView>, ScanError>(owned_views(found@)),
        decreases candidates.len() - i,
    {
        proof {
            let upto = candidate_views(candidates@).take(i as int + 1);
            assert(upto.drop_last() =~= candidate_views(candidates@).take(i as int));
            assert(upto.last() == candidates[i as int]@);
            let flags = spent@.take(i as int + 1);
            assert(flags.drop_last() =~= spent@.take(i as int));
            assert(flags.last() == spent[i as int]);
        }
        if !spent[i] {
            match open_record(account, &candidates[i].entry) {
                Some(record) => {
                    let ghost before = owned_views(found@);
                    let ghost added = record@;
                    found.push(record);
                    assert(owned_views(found@) =~= before.push(added));
                },
                None => {
                    proof {
                        lemma_unspent_fails_on(
                            account@,
                            candidate_views(candidates@),
                            spent@,
                            i as int + 1,
                        );
                    }
                    return Err(ScanError::DecryptFailed);
                },
            }
        }
        i += 1;
    }
    assert(candidate_views(candidates@).take(candidates.len() as int) =~= candidate_views(
        candidates@,
    ));
    assert(spent@.take(spent.len() as int) =~= spent@);
    Ok(found)
}

/// Once a prefix of the candidates fails to decrypt, the whole list fails.
pub proof fn lemma_unspent_fails_on(
    account: AccountView,
    candidates: Seq<CandidateView>,
    spent: Seq<bool>,
    n: int,
)
    requires
        candidates.len() == spent.len(),
        0 <= n <= candidates.len(),
        unspent_of(account, candidates.take(n), spent.take(n)) is Err,
    ensures
        unspent_of(account, candidates, spent) == unspent_of(
            account,
            candidates.take(n),
            spent.take(n),
        ),
    decreases candidates.len() - n,
{
    if n == candidates.len() {
        assert(candidates.take(n) =~= candidates);
        assert(spent.take(n) =~= spent);
    } else {
        assert(candidates.take(n + 1).drop_last() =~= candidates.take(n));
        assert(spent.take(n + 1).drop_last() =~= spent.take(n));
        lemma_unspent_fails_on(account, candidates, spent, n + 1);
    }
}

/// The records of a window that the account owns, decrypted under its view
/// key; `DecryptFailed` where one of them does not decrypt.
pub fn open_owned(account: &Account, records: &Vec<ChainRecord>) -> (found: Result<
    Vec<OwnedRecord>,
    ScanError,
>)
    ensures
        found matches Ok(owned) ==> owned_of(account@, entries(records@)) == Ok::<
            Seq<OwnedRecordView>,
            ScanError,
        >(owned_views(owned@)),
        found matches Err(e) ==> owned_of(account@, entries(records@)) == Err::<
            Seq<OwnedRecordView>,
            ScanError,
        >(e),
{
    let mut found: Vec<OwnedRecord> = Vec::new();
    let mut i: usize = 0;
    assert(entries(records@).take(0) =~= Seq::<ChainRecordView>::empty());
    assert(owned_views(found@) =~= Seq::<OwnedRecordView>::empty());
    while i < records.len()
        invariant
            i <= records.len(),
            owned_of(account@, entries(records@).take(i as int)) == Ok::<
                Seq<OwnedRecordView>,
                ScanError,
            >(owned_views(found@)),
        decreases records.len() - i,
    {
        proof {
            let upto = entries(records@).take(i as int + 1);
            assert(upto.drop_last() =~= entries(records@).take(i as int));
            assert(upto.last() == records[i as int]@);
        }
        if records[i].record.is_owner(account) {
            match open_record(account, &records[i]) {
                Some(record) => {
                    let ghost before = owned_views(found@);
                    let ghost added = record@;
                    found.push(record);
                    assert(owned_views(found@) =~= before.push(added));
                },
                None => {
                    proof {
                        lemma_owned_fails_on(account@, entries(records@), i as int + 1);
                    }
                    return Err(ScanError::DecryptFailed);
                },
            }
        }
        i += 1;
    }
    assert(entries(records@).take(records.len() as int) =~= entries(records@));
    Ok(found)
}

/// Once a prefix of a window fails to decrypt, the whole window fails.
pub proof fn lemma_owned_fails_on(account: AccountView, records: Seq<ChainRecordView>, n: int)
    requires
        0 <= n <= records.len(),
        owned_of(account, records.take(n)) is Err,
    ensures
        owned_of(account, records) == owned_of(account, records.take(n)),
    decreases records.len() - n,
{
    if n == records.len() {
        assert(records.take(n) =~= records);
    } else {
        assert(records.take(n + 1).drop_last() =~= records.take(n));
        lemma_owned_fails_on(account, records, n + 1);
    }
}

/// Every candidate of a window is a record of the window that the account
/// owns, with the serial number that belongs to it.
pub proof fn lemma_candidates_are_owned(account: AccountView, records: Seq<ChainRecordView>)
    ensures
        forall|i: int|
            0 <= i < candidates_of(account, records).len() ==> {
                let c = #[trigger] candidates_of(account, records)[i];
                &&& records.contains(c.entry)
                &&& candidate_of(account, c.entry) == Some(c)
            },
    decreases records.len(),
{
    if records.len() > 0 {
        let earlier = records.drop_last();
        lemma_candidates_are_owned(account, earlier);
        assert forall|i: int| 0 <= i < candidates_of(account, records).len() implies {
            let c = #[trigger] candidates_of(account, records)[i];
            &&& records.contains(c.entry)
            &&& candidate_of(account, c.entry) == Some(c)
        } by {
            let c = candidates_of(account, records)[i];
            if i < candidates_of(account, earlier).len() {
                assert(c == candidates_of(account, earlier)[i]);
                let j = choose|j: int| 0 <= j < earlier.len() && earlier[j] == c.entry;
                assert(records[j] == c.entry);
            } else {
                assert(records[records.len() - 1] == c.entry);
            }
        }
    }
}

/// Every record that the spent answers leave is the decryption of a
/// candidate that was not reported spent.
pub proof fn lemma_unspent_were_not_spent(
    account: AccountView,
    candidates: Seq<CandidateView>,
    spent: Seq<bool>,
)
    requires
        candidates.len() == spent.len(),
        unspent_of(account, candidates, spent) is Ok,
    ensures
        forall|i: int|
            0 <= i < unspent_of(account, candidates, spent)->Ok_0.len() ==> exists|j: int|
                0 <= j < candidates.len() && !spent[j] && opened(account, candidates[j].entry)
                    == Some(#[trigger] unspent_of(account, candidates, spent)->Ok_0[i]),
    decreases candidates.len(),
{
    if candidates.len() > 0 {
        let earlier = unspent_of(account, candidates.drop_last(), spent.drop_last())->Ok_0;
        lemma_unspent_were_not_spent(account, candidates.drop_last(), spent.drop_last());
        let all = unspent_of(account, candidates, spent)->Ok_0;
        assert forall|i: int| 0 <= i < all.len() implies exists|j: int|
            0 <= j < candidates.len() && !spent[j] && opened(account, candidates[j].entry) == Some(
                #[trigger] all[i],
            ) by {
            if i < earlier.len() {
                assert(all[i] == earlier[i]);
                let j = choose|j: int|
                    0 <= j < candidates.drop_last().len() && !spent.drop_last()[j] && opened(
                        account,
                        candidates.drop_last()[j].entry,
                    ) == Some(earlier[i]);
                assert(!spent[j] && opened(account, candidates[j].entry) == Some(all[i]));
            } else {
                let j = candidates.len() - 1;
                assert(!spent[j] && opened(account, candidates[j].entry) == Some(all[i]));
            }
        }
    }
}

/// The microcredits of two lists in a row are those of the one and those of the other.
pub proof fn lemma_credited_concat(a: Seq<OwnedRecordView>, b: Seq<OwnedRecordView>)
    ensures
        credited(a + b) == credited(a) + credited(b),
    decreases b.len(),
{
    if b.len() == 0 {
        assert(a + b =~= a);
    } else {
        assert((a + b).drop_last() =~= a + b.drop_last());
        assert((a + b).last() == b.last());
        lemma_credited_concat(a, b.drop_last());
    }
}

/// The account owns every record that a window yields.
pub proof fn lemma_owned_are_owned(account: AccountView, records: Seq<ChainRecordView>)
    requires
        owned_of(account, records) is Ok,
    ensures
        all_owned(account, owned_of(account, records)->Ok_0),
    decreases records.len(),
{
    if records.len() > 0 {
        lemma_owned_are_owned(account, records.drop_last());
        let earlier = owned_of(account, records.drop_last())->Ok_0;
        let all = owned_of(account, records)->Ok_0;
        assert forall|i: int| 0 <= i < all.len() implies {
            &&& owned_by((#[trigger] all[i]).ciphertext, account.view_key)
            &&& record_plaintext(all[i].ciphertext, account.view_key) == Some(all[i].plaintext)
        } by {
            if i < earlier.len() {
                assert(all[i] == earlier[i]);
            }
        }
    }
}

} // verus!
