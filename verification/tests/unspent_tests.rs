use aleo_agent::account::Account;
use aleo_agent::field::FieldElement;
use aleo_agent::record::CiphertextRecord;
use aleo_agent::scan::{ChainRecord, ScanError};
use aleo_agent::unspent::{ScanStep, UnspentScan};
use snarkvm::console::account::PrivateKey;
use snarkvm::console::network::{Network, Testnet3};
use snarkvm::console::prelude::{FromBytes, ToBytes};
use snarkvm::console::program::{Identifier, Plaintext, ProgramID, Record};
use snarkvm::console::types::{Field, Scalar};
use std::str::FromStr;

fn inside(field: Field<Testnet3>) -> FieldElement {
    FieldElement::from_bytes_le(field.to_bytes_le().unwrap().try_into().unwrap()).unwrap()
}

fn sealed_entry(owner: &Account, entry: &str, salt: u64) -> ChainRecord {
    let randomizer = Scalar::<Testnet3>::from_str(&format!("{}scalar", salt + 1)).unwrap();
    let nonce = Testnet3::g_scalar_multiply(&randomizer);
    let text = format!("{{ owner: {}.private, {}, _nonce: {}.public }}", owner.address(), entry, nonce);
    let plain = Record::<Testnet3, Plaintext<Testnet3>>::from_str(&text).unwrap();
    let commitment = plain
        .to_commitment(
            &ProgramID::from_str("credits.aleo").unwrap(),
            &Identifier::from_str("credits").unwrap(),
        )
        .unwrap();
    ChainRecord::new(
        inside(commitment),
        CiphertextRecord::new(plain.encrypt(randomizer).unwrap().to_string()),
    )
}

fn sealed(owner: &Account, microcredits: u64, salt: u64) -> ChainRecord {
    sealed_entry(owner, &format!("microcredits: {microcredits}u64.private"), salt)
}

fn fetch(scan: &UnspentScan) -> (u32, u32) {
    match scan.step() {
        ScanStep::FetchBlocks { start, end } => (start, end),
        other => panic!("the scan asks for {other:?}"),
    }
}

fn pass_window(scan: &mut UnspentScan, records: Vec<ChainRecord>) {
    scan.on_blocks(&records).unwrap();
    assert_eq!(scan.step(), ScanStep::QuerySpent);
    let unspent = vec![false; scan.pending_serial_numbers().len()];
    scan.on_spent(&unspent).unwrap();
}

#[test]
fn windows_of_0_to_100_are_51_100_then_2_51_then_0_2() {
    let account = Account::from_seed(1).unwrap();
    let mut scan = UnspentScan::begin(account, 0, 100, Some(10_000_000)).unwrap();
    assert_eq!(fetch(&scan), (51, 100));
    pass_window(&mut scan, vec![]);
    assert_eq!(fetch(&scan), (2, 51));
    pass_window(&mut scan, vec![]);
    assert_eq!(fetch(&scan), (0, 2));
    pass_window(&mut scan, vec![]);
    assert_eq!(scan.step(), ScanStep::Finished);
    assert!(scan.into_records().is_empty());
}

#[test]
fn the_scan_halts_at_the_first_window_that_reaches_the_bound() {
    let account = Account::from_seed(1).unwrap();
    let first = sealed(&account, 6_000_000, 1);
    let second = sealed(&account, 4_000_000, 2);
    let mut scan = UnspentScan::begin(account, 0, 100, Some(10_000_000)).unwrap();
    assert_eq!(fetch(&scan), (51, 100));
    pass_window(&mut scan, vec![first]);
    assert_eq!(fetch(&scan), (2, 51));
    pass_window(&mut scan, vec![second]);
    assert_eq!(scan.step(), ScanStep::Finished);
    let records = scan.into_records();
    assert_eq!(records.len(), 2);
    assert_eq!(records[0].microcredits, 6_000_000);
    assert_eq!(records[1].microcredits, 4_000_000);
}

#[test]
fn a_window_is_taken_whole_even_where_it_goes_past_the_bound() {
    let account = Account::from_seed(1).unwrap();
    let records = vec![sealed(&account, 7, 1), sealed(&account, 8, 2), sealed(&account, 9, 3)];
    let mut scan = UnspentScan::begin(account, 0, 100, Some(10)).unwrap();
    pass_window(&mut scan, records);
    assert_eq!(scan.step(), ScanStep::Finished);
    let found = scan.into_records();
    assert_eq!(found.iter().map(|r| r.microcredits).collect::<Vec<u64>>(), vec![7, 8, 9]);
}

#[test]
fn a_bound_of_zero_ends_the_scan_after_one_window() {
    let account = Account::from_seed(1).unwrap();
    let mut scan = UnspentScan::begin(account, 0, 100, Some(0)).unwrap();
    assert_eq!(fetch(&scan), (51, 100));
    pass_window(&mut scan, vec![]);
    assert_eq!(scan.step(), ScanStep::Finished);
}

#[test]
fn without_a_bound_the_whole_range_is_scanned() {
    let account = Account::from_seed(1).unwrap();
    let rich = sealed(&account, u64::MAX, 1);
    let mut scan = UnspentScan::begin(account, 10, 100, None).unwrap();
    assert_eq!(fetch(&scan), (51, 100));
    pass_window(&mut scan, vec![rich]);
    assert_eq!(fetch(&scan), (10, 51));
    pass_window(&mut scan, vec![]);
    assert_eq!(scan.step(), ScanStep::Finished);
    assert_eq!(scan.into_records().len(), 1);
}

#[test]
fn a_short_range_is_one_window_that_stays_in_the_range() {
    let account = Account::from_seed(1).unwrap();
    let mut scan = UnspentScan::begin(account, 100, 120, None).unwrap();
    assert_eq!(fetch(&scan), (100, 120));
    pass_window(&mut scan, vec![]);
    assert_eq!(scan.step(), ScanStep::Finished);
}

#[test]
fn a_range_of_49_blocks_is_one_window_and_one_of_50_is_two() {
    let account = Account::from_seed(1).unwrap();
    let mut scan = UnspentScan::begin(account.clone(), 0, 49, None).unwrap();
    assert_eq!(fetch(&scan), (0, 49));
    pass_window(&mut scan, vec![]);
    assert_eq!(scan.step(), ScanStep::Finished);
    let mut scan = UnspentScan::begin(account, 0, 50, None).unwrap();
    assert_eq!(fetch(&scan), (1, 50));
    pass_window(&mut scan, vec![]);
    assert_eq!(fetch(&scan), (0, 1));
    pass_window(&mut scan, vec![]);
    assert_eq!(scan.step(), ScanStep::Finished);
}

#[test]
fn the_top_of_the_height_range_is_scanned_without_overflow() {
    let account = Account::from_seed(1).unwrap();
    let mut scan = UnspentScan::begin(account, u32::MAX - 60, u32::MAX, None).unwrap();
    assert_eq!(fetch(&scan), (u32::MAX - 49, u32::MAX));
    pass_window(&mut scan, vec![]);
    assert_eq!(fetch(&scan), (u32::MAX - 60, u32::MAX - 49));
}

#[test]
fn an_empty_range_is_refused() {
    let account = Account::from_seed(1).unwrap();
    assert_eq!(UnspentScan::begin(account.clone(), 5, 5, None).err(), Some(ScanError::EmptyRange));
    assert_eq!(UnspentScan::begin(account.clone(), 6, 5, None).err(), Some(ScanError::EmptyRange));
    assert_eq!(UnspentScan::begin(account, 0, 0, Some(1)).err(), Some(ScanError::EmptyRange));
}

#[test]
fn records_of_others_are_left_out() {
    let account = Account::from_seed(1).unwrap();
    let stranger = Account::from_seed(2).unwrap();
    let records = vec![sealed(&stranger, 5, 1), sealed(&account, 6, 2), sealed(&stranger, 7, 3)];
    let mut scan = UnspentScan::begin(account, 0, 10, None).unwrap();
    scan.on_blocks(&records).unwrap();
    assert_eq!(scan.pending_serial_numbers().len(), 1);
    scan.on_spent(&vec![false]).unwrap();
    let found = scan.into_records();
    assert_eq!(found.len(), 1);
    assert_eq!(found[0].microcredits, 6);
    assert_eq!(found[0].commitment.to_bytes_le(), records[1].commitment.to_bytes_le());
    assert_eq!(found[0].ciphertext.text(), records[1].record.text());
}

#[test]
fn spent_records_are_left_out_and_do_not_count() {
    let account = Account::from_seed(1).unwrap();
    let records = vec![sealed(&account, 5, 1), sealed(&account, 6, 2), sealed(&account, 7, 3)];
    let mut scan = UnspentScan::begin(account, 0, 100, Some(12)).unwrap();
    scan.on_blocks(&records).unwrap();
    scan.on_spent(&vec![false, true, false]).unwrap();
    assert_eq!(scan.records().iter().map(|r| r.microcredits).collect::<Vec<u64>>(), vec![5, 7]);
    assert_eq!(scan.step(), ScanStep::Finished);

    let account = Account::from_seed(1).unwrap();
    let mut scan = UnspentScan::begin(account, 0, 100, Some(13)).unwrap();
    scan.on_blocks(&records).unwrap();
    scan.on_spent(&vec![false, true, false]).unwrap();
    assert_eq!(fetch(&scan), (2, 51));
}

#[test]
fn pending_serial_numbers_are_those_of_the_network() {
    let account = Account::from_seed(3).unwrap();
    let record = sealed(&account, 5, 1);
    let key = PrivateKey::<Testnet3>::from_str(account.private_key()).unwrap();
    let commitment = Field::<Testnet3>::from_bytes_le(&record.commitment.to_bytes_le()).unwrap();
    let expected =
        Record::<Testnet3, Plaintext<Testnet3>>::serial_number(key, commitment).unwrap();
    let mut scan = UnspentScan::begin(account, 0, 10, None).unwrap();
    scan.on_blocks(&vec![record]).unwrap();
    let numbers = scan.pending_serial_numbers();
    assert_eq!(numbers.len(), 1);
    assert_eq!(numbers[0].to_bytes_le().to_vec(), expected.to_bytes_le().unwrap());
    assert_ne!(numbers[0].to_bytes_le().to_vec(), commitment.to_bytes_le().unwrap());
}

#[test]
fn found_records_are_decrypted() {
    let account = Account::from_seed(3).unwrap();
    let record = sealed(&account, 1_500_000, 9);
    let address = account.address().clone();
    let mut scan = UnspentScan::begin(account, 0, 10, None).unwrap();
    pass_window(&mut scan, vec![record]);
    let found = scan.into_records();
    let plain = Record::<Testnet3, Plaintext<Testnet3>>::from_str(found[0].plaintext.text()).unwrap();
    assert_eq!(plain.owner().to_string(), format!("{address}.private"));
    assert_eq!(found[0].plaintext.microcredits(), Ok(1_500_000));
    assert_ne!(found[0].plaintext.text(), found[0].ciphertext.text());
}

#[test]
fn records_without_microcredits_count_as_nothing() {
    let account = Account::from_seed(3).unwrap();
    let token = sealed_entry(&account, "amount: 77u64.private", 1);
    let mut scan = UnspentScan::begin(account, 0, 100, Some(1)).unwrap();
    pass_window(&mut scan, vec![token]);
    assert_eq!(scan.records().len(), 1);
    assert_eq!(scan.records()[0].microcredits, 0);
    assert_eq!(fetch(&scan), (2, 51));
}

#[test]
fn the_total_does_not_overflow() {
    let account = Account::from_seed(3).unwrap();
    let records = vec![sealed(&account, u64::MAX, 1), sealed(&account, u64::MAX, 2)];
    let mut scan = UnspentScan::begin(account, 0, 100, Some(u64::MAX)).unwrap();
    pass_window(&mut scan, records);
    assert_eq!(scan.step(), ScanStep::Finished);
    assert_eq!(scan.into_records().len(), 2);
}

#[test]
fn what_comes_out_of_turn_is_refused_and_changes_nothing() {
    let account = Account::from_seed(3).unwrap();
    let record = sealed(&account, 5, 1);
    let mut scan = UnspentScan::begin(account, 0, 10, None).unwrap();
    assert_eq!(scan.on_spent(&vec![]), Err(ScanError::OutOfTurn));
    assert_eq!(fetch(&scan), (0, 10));
    scan.on_blocks(&vec![record.clone()]).unwrap();
    assert_eq!(scan.on_blocks(&vec![record]), Err(ScanError::OutOfTurn));
    assert_eq!(scan.pending_serial_numbers().len(), 1);
    scan.on_spent(&vec![false]).unwrap();
    assert_eq!(scan.step(), ScanStep::Finished);
    assert_eq!(scan.on_blocks(&vec![]), Err(ScanError::OutOfTurn));
    assert_eq!(scan.on_spent(&vec![]), Err(ScanError::OutOfTurn));
    assert_eq!(scan.records().len(), 1);
}

#[test]
fn answers_must_match_the_serial_numbers() {
    let account = Account::from_seed(3).unwrap();
    let record = sealed(&account, 5, 1);
    let mut scan = UnspentScan::begin(account, 0, 10, None).unwrap();
    scan.on_blocks(&vec![record]).unwrap();
    assert_eq!(scan.on_spent(&vec![]), Err(ScanError::AnswerMismatch));
    assert_eq!(scan.on_spent(&vec![false, false]), Err(ScanError::AnswerMismatch));
    assert_eq!(scan.step(), ScanStep::QuerySpent);
    assert_eq!(scan.on_spent(&vec![false]), Ok(()));
}

#[test]
fn records_come_out_in_the_order_of_the_windows() {
    let account = Account::from_seed(3).unwrap();
    let newest = vec![sealed(&account, 3, 1), sealed(&account, 1, 2)];
    let older = vec![sealed(&account, 2, 3)];
    let mut scan = UnspentScan::begin(account, 0, 100, None).unwrap();
    pass_window(&mut scan, newest);
    pass_window(&mut scan, older);
    assert_eq!(scan.records().iter().map(|r| r.microcredits).collect::<Vec<u64>>(), vec![3, 1, 2]);
}
