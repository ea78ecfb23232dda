use aleo_agent::account::Account;
use aleo_agent::agent::Agent;
use aleo_agent::field::FieldElement;
use aleo_agent::program_scan::{keep_unspent, owned_records, ProgramScan};
use aleo_agent::record::CiphertextRecord;
use aleo_agent::scan::{find_candidates, open_owned, open_unspent, ChainRecord, ScanError};
use aleo_agent::unspent::{sum_microcredits, ScanStep, UnspentScan};
use snarkvm::console::network::{Network, Testnet3};
use snarkvm::console::prelude::ToBytes;
use snarkvm::console::program::{Identifier, Plaintext, ProgramID, Record};
use snarkvm::console::types::{Field, Scalar};
use std::str::FromStr;

fn inside(field: Field<Testnet3>) -> FieldElement {
    FieldElement::from_bytes_le(field.to_bytes_le().unwrap().try_into().unwrap()).unwrap()
}

fn plain_record(owner: &Account, visibility: &str, microcredits: u64, salt: u64) -> (
    Record<Testnet3, Plaintext<Testnet3>>,
    Scalar<Testnet3>,
    FieldElement,
) {
    let randomizer = Scalar::<Testnet3>::from_str(&format!("{}scalar", salt + 1)).unwrap();
    let text = format!(
        "{{ owner: {}.{}, microcredits: {}u64.private, _nonce: {}.public }}",
        owner.address(),
        visibility,
        microcredits,
        Testnet3::g_scalar_multiply(&randomizer)
    );
    let plain = Record::<Testnet3, Plaintext<Testnet3>>::from_str(&text).unwrap();
    let commitment = plain
        .to_commitment(
            &ProgramID::from_str("token.aleo").unwrap(),
            &Identifier::from_str("token").unwrap(),
        )
        .unwrap();
    (plain, randomizer, inside(commitment))
}

fn sealed(owner: &Account, microcredits: u64, salt: u64) -> ChainRecord {
    let (plain, randomizer, commitment) = plain_record(owner, "private", microcredits, salt);
    ChainRecord::new(commitment, CiphertextRecord::new(plain.encrypt(randomizer).unwrap().to_string()))
}

fn sealed_under_another_key(owner: &Account, salt: u64) -> ChainRecord {
    let (plain, _, commitment) = plain_record(owner, "public", 5, salt);
    let stray = Field::<Testnet3>::from_str("123456789field").unwrap();
    let sealed = plain.encrypt_symmetric_unchecked(&stray).unwrap();
    ChainRecord::new(commitment, CiphertextRecord::new(sealed.to_string()))
}

fn fetch(scan: &ProgramScan) -> (u32, u32) {
    match scan.step() {
        ScanStep::FetchBlocks { start, end } => (start, end),
        other => panic!("the scan asks for {other:?}"),
    }
}

#[test]
fn program_windows_lie_on_multiples_of_50() {
    let account = Account::from_seed(1).unwrap();
    let mut scan = ProgramScan::begin(account, 10, 120, false);
    assert_eq!(fetch(&scan), (0, 50));
    scan.on_blocks(&vec![]).unwrap();
    assert_eq!(fetch(&scan), (50, 100));
    scan.on_blocks(&vec![]).unwrap();
    assert_eq!(fetch(&scan), (100, 120));
    scan.on_blocks(&vec![]).unwrap();
    assert_eq!(scan.step(), ScanStep::Finished);
    assert_eq!(scan.on_blocks(&vec![]), Err(ScanError::OutOfTurn));
}

#[test]
fn without_the_spent_check_all_owned_records_are_kept() {
    let account = Account::from_seed(1).unwrap();
    let stranger = Account::from_seed(2).unwrap();
    let records = vec![sealed(&stranger, 1, 1), sealed(&account, 2, 2), sealed(&account, 3, 3)];
    let mut scan = ProgramScan::begin(account, 0, 50, false);
    scan.on_blocks(&records).unwrap();
    assert_eq!(scan.step(), ScanStep::Finished);
    assert_eq!(scan.on_spent(&vec![]), Err(ScanError::OutOfTurn));
    let found = scan.into_records();
    assert_eq!(found.len(), 2);
    assert_eq!(found[0].record.text(), records[1].record.text());
    assert_eq!(found[1].commitment.to_bytes_le(), records[2].commitment.to_bytes_le());
}

#[test]
fn with_the_spent_check_spent_records_are_left_out() {
    let account = Account::from_seed(1).unwrap();
    let stranger = Account::from_seed(2).unwrap();
    let records = vec![sealed(&account, 1, 1), sealed(&stranger, 2, 2), sealed(&account, 3, 3)];
    let agent = Agent::builder(account).build();
    let manager = agent.program("token.aleo").unwrap();
    let mut scan = manager.get_program_records(0..100, true);
    assert_eq!(fetch(&scan), (0, 50));
    scan.on_blocks(&records).unwrap();
    assert_eq!(scan.step(), ScanStep::QuerySpent);
    assert_eq!(scan.pending_serial_numbers().len(), 2);
    assert_eq!(scan.on_spent(&vec![true]), Err(ScanError::AnswerMismatch));
    scan.on_spent(&vec![true, false]).unwrap();
    assert_eq!(fetch(&scan), (50, 100));
    assert_eq!(scan.records().len(), 1);
    assert_eq!(scan.records()[0].record.text(), records[2].record.text());
}

#[test]
fn owned_records_keeps_the_order() {
    let account = Account::from_seed(1).unwrap();
    let stranger = Account::from_seed(2).unwrap();
    let records = vec![
        sealed(&account, 1, 1),
        sealed(&stranger, 2, 2),
        sealed(&account, 3, 3),
        sealed(&account, 4, 4),
    ];
    let owned = owned_records(&account, &records);
    assert_eq!(owned.len(), 3);
    assert_eq!(owned[0].record.text(), records[0].record.text());
    assert_eq!(owned[1].record.text(), records[2].record.text());
    assert_eq!(owned[2].record.text(), records[3].record.text());
    assert!(owned_records(&stranger, &vec![]).is_empty());
}

#[test]
fn keep_unspent_drops_what_was_spent() {
    let account = Account::from_seed(1).unwrap();
    let records = vec![sealed(&account, 1, 1), sealed(&account, 2, 2), sealed(&account, 3, 3)];
    let candidates = find_candidates(&account, &records);
    assert_eq!(candidates.len(), 3);
    let left = keep_unspent(&candidates, &vec![true, false, true]).unwrap();
    assert_eq!(left.len(), 1);
    assert_eq!(left[0].record.text(), records[1].record.text());
    assert_eq!(keep_unspent(&candidates, &vec![false, false, false]).unwrap().len(), 3);
    assert!(keep_unspent(&candidates, &vec![true, true, true]).unwrap().is_empty());
    assert_eq!(keep_unspent(&candidates, &vec![true]).err(), Some(ScanError::AnswerMismatch));
}

#[test]
fn open_unspent_decrypts_what_was_not_spent() {
    let account = Account::from_seed(1).unwrap();
    let records = vec![sealed(&account, 10, 1), sealed(&account, 20, 2), sealed(&account, 30, 3)];
    let candidates = find_candidates(&account, &records);
    let found = open_unspent(&account, &candidates, &vec![false, true, false]).unwrap();
    assert_eq!(found.iter().map(|r| r.microcredits).collect::<Vec<u64>>(), vec![10, 30]);
    assert_eq!(sum_microcredits(&found), 40);
    assert_eq!(sum_microcredits(&vec![]), 0);
    assert_eq!(
        open_unspent(&account, &candidates, &vec![false]).err(),
        Some(ScanError::AnswerMismatch)
    );
}

#[test]
fn an_owned_record_that_does_not_decrypt_ends_the_scan() {
    let account = Account::from_seed(1).unwrap();
    let good = sealed(&account, 10, 1);
    let broken = sealed_under_another_key(&account, 2);
    assert!(broken.record.is_owner(&account));
    let parsed = Record::<Testnet3, snarkvm::console::program::Ciphertext<Testnet3>>::from_str(
        broken.record.text(),
    )
    .unwrap();
    assert!(parsed.owner().is_public());
    let records = vec![good, broken];
    assert_eq!(open_owned(&account, &records).err(), Some(ScanError::DecryptFailed));

    let mut scan = UnspentScan::begin(account.clone(), 0, 10, None).unwrap();
    scan.on_blocks(&records).unwrap();
    assert_eq!(scan.pending_serial_numbers().len(), 2);
    assert_eq!(scan.on_spent(&vec![false, false]), Err(ScanError::DecryptFailed));
    assert_eq!(scan.step(), ScanStep::QuerySpent);
    assert!(scan.records().is_empty());
    assert_eq!(scan.on_spent(&vec![false, true]), Ok(()));
    assert_eq!(scan.records().len(), 1);

    let mut sweep = aleo_agent::sweep::RecordScan::begin(account, 0, 10, None);
    assert_eq!(sweep.on_blocks(&records), Err(ScanError::DecryptFailed));
    assert!(sweep.records().is_empty());
    assert_eq!(sweep.step(), ScanStep::FetchBlocks { start: 0, end: 10 });
}

#[test]
fn scan_errors_say_what_is_wrong() {
    assert_eq!(
        ScanError::EmptyRange.message(),
        "The start block height must be less than the end block height"
    );
    assert_eq!(ScanError::DecryptFailed.message(), "Failed to decrypt records");
}
