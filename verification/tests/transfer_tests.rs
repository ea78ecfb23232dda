use aleo_agent::record::PlaintextRecord;
use aleo_agent::transfer::{
    check_balances, held_by, TransferArgs, TransferError, TransferType, Value, CREDITS_PROGRAM,
};

const RECIPIENT: &str = "aleo1d5hg2z3ma00382pngntdp68e74zv54jdxy249qhaujhks9c72yrs33ddah";

fn record_with(microcredits: u64) -> PlaintextRecord {
    PlaintextRecord::new(format!(
        "{{ owner: {RECIPIENT}.private, microcredits: {microcredits}u64.private, _nonce: 0group.public }}"
    ))
}

fn record_without_microcredits() -> PlaintextRecord {
    PlaintextRecord::new(format!(
        "{{ owner: {RECIPIENT}.private, amount: 5u64.private, _nonce: 0group.public }}"
    ))
}

fn request(amount: u64, fee: u64, fee_record: Option<PlaintextRecord>, kind: TransferType) -> TransferArgs {
    TransferArgs::from(amount, RECIPIENT.to_string(), fee, fee_record, kind)
}

#[test]
fn a_public_transfer_has_the_address_and_the_amount() {
    let inputs = request(1_000_000, 0, None, TransferType::Public).to_inputs();
    assert_eq!(inputs.len(), 2);
    assert!(matches!(&inputs[0], Value::Address(a) if a == RECIPIENT));
    assert!(matches!(&inputs[1], Value::Amount(1_000_000)));
}

#[test]
fn a_transfer_from_public_to_private_has_the_address_and_the_amount() {
    let inputs = request(7, 0, None, TransferType::PublicToPrivate).to_inputs();
    assert_eq!(inputs.len(), 2);
    assert!(matches!(&inputs[0], Value::Address(a) if a == RECIPIENT));
    assert!(matches!(&inputs[1], Value::Amount(7)));
}

#[test]
fn a_transfer_from_private_to_public_has_the_record_first() {
    let record = record_with(2_000_000);
    let inputs =
        request(1_000_000, 0, None, TransferType::PrivateToPublic(record.clone())).to_inputs();
    assert_eq!(inputs.len(), 3);
    assert!(matches!(&inputs[0], Value::Record(r) if r.text() == record.text()));
    assert!(matches!(&inputs[1], Value::Address(a) if a == RECIPIENT));
    assert!(matches!(&inputs[2], Value::Amount(1_000_000)));
}

#[test]
fn a_private_transfer_has_the_record_first() {
    let record = record_with(5);
    let inputs = request(u64::MAX, 0, None, TransferType::Private(record.clone())).to_inputs();
    assert_eq!(inputs.len(), 3);
    assert!(matches!(&inputs[0], Value::Record(r) if r.text() == record.text()));
    assert!(matches!(&inputs[2], Value::Amount(u64::MAX)));
}

#[test]
fn the_fee_record_is_no_input() {
    let inputs = request(1, 1, Some(record_with(5)), TransferType::Public).to_inputs();
    assert_eq!(inputs.len(), 2);
}

#[test]
fn each_kind_has_its_function() {
    assert_eq!(TransferType::Private(record_with(1)).function_name(), "transfer_private");
    assert_eq!(
        TransferType::PrivateToPublic(record_with(1)).function_name(),
        "transfer_private_to_public"
    );
    assert_eq!(TransferType::Public.function_name(), "transfer_public");
    assert_eq!(TransferType::PublicToPrivate.function_name(), "transfer_public_to_private");
    assert_eq!(TransferType::Public.to_string(), "transfer_public");
    assert_eq!(TransferType::Private(record_with(1)).to_string(), "transfer_private");
    assert_eq!(CREDITS_PROGRAM, "credits.aleo");
}

#[test]
fn only_private_sources_carry_a_record() {
    assert!(TransferType::Public.source_record().is_none());
    assert!(TransferType::PublicToPrivate.source_record().is_none());
    let record = record_with(3);
    assert_eq!(
        TransferType::Private(record.clone()).source_record().unwrap().text(),
        record.text()
    );
    assert_eq!(
        TransferType::PrivateToPublic(record.clone()).clone().source_record().unwrap().text(),
        record.text()
    );
}

#[test]
fn validate_rejects_a_private_transfer_above_the_record() {
    let args = request(1_000_000, 0, None, TransferType::Private(record_with(500_000)));
    assert_eq!(args.validate(), Err(TransferError::InsufficientAmount));
    let args = request(1_000_000, 0, None, TransferType::PrivateToPublic(record_with(999_999)));
    assert_eq!(args.validate(), Err(TransferError::InsufficientAmount));
}

#[test]
fn validate_accepts_a_private_transfer_that_the_record_covers() {
    let args = request(1_000_000, 0, None, TransferType::Private(record_with(1_000_000)));
    assert_eq!(args.validate(), Ok(()));
    let args = request(0, 0, None, TransferType::PrivateToPublic(record_with(0)));
    assert_eq!(args.validate(), Ok(()));
}

#[test]
fn validate_does_not_look_for_a_record_in_public_transfers() {
    assert_eq!(request(u64::MAX, u64::MAX, None, TransferType::Public).validate(), Ok(()));
    assert_eq!(request(u64::MAX, 0, None, TransferType::PublicToPrivate).validate(), Ok(()));
}

#[test]
fn validate_checks_the_fee_record_of_every_kind() {
    let poor = || Some(record_with(9));
    assert_eq!(
        request(1, 10, poor(), TransferType::Public).validate(),
        Err(TransferError::InsufficientFee)
    );
    assert_eq!(
        request(1, 10, poor(), TransferType::PublicToPrivate).validate(),
        Err(TransferError::InsufficientFee)
    );
    assert_eq!(
        request(1, 10, poor(), TransferType::Private(record_with(1))).validate(),
        Err(TransferError::InsufficientFee)
    );
    assert_eq!(request(1, 9, poor(), TransferType::Public).validate(), Ok(()));
}

#[test]
fn validate_checks_the_source_before_the_fee() {
    let args = request(10, 10, Some(record_with(1)), TransferType::Private(record_with(1)));
    assert_eq!(args.validate(), Err(TransferError::InsufficientAmount));
}

#[test]
fn validate_rejects_records_without_microcredits() {
    let args = request(0, 0, None, TransferType::Private(record_without_microcredits()));
    assert_eq!(args.validate(), Err(TransferError::SourceWithoutMicrocredits));
    let args = request(0, 0, Some(record_without_microcredits()), TransferType::Public);
    assert_eq!(args.validate(), Err(TransferError::FeeWithoutMicrocredits));
    let args = request(0, 0, None, TransferType::Private(PlaintextRecord::new("junk".to_string())));
    assert_eq!(args.validate(), Err(TransferError::SourceWithoutMicrocredits));
}

#[test]
fn check_balances_orders_its_errors() {
    assert_eq!(
        check_balances(Some(None), 1, Some(None), 1),
        Err(TransferError::SourceWithoutMicrocredits)
    );
    assert_eq!(
        check_balances(Some(Some(0)), 1, Some(None), 1),
        Err(TransferError::InsufficientAmount)
    );
    assert_eq!(
        check_balances(Some(Some(1)), 1, Some(None), 1),
        Err(TransferError::FeeWithoutMicrocredits)
    );
    assert_eq!(check_balances(None, 1, Some(Some(0)), 1), Err(TransferError::InsufficientFee));
    assert_eq!(check_balances(None, 1, Some(Some(1)), 1), Ok(()));
    assert_eq!(check_balances(None, u64::MAX, None, u64::MAX), Ok(()));
    assert_eq!(check_balances(Some(Some(u64::MAX)), u64::MAX, Some(Some(0)), 0), Ok(()));
}

#[test]
fn held_by_reads_the_microcredits_of_a_record() {
    assert_eq!(held_by(None), None);
    assert_eq!(held_by(Some(&record_with(12))), Some(Some(12)));
    assert_eq!(held_by(Some(&record_without_microcredits())), Some(None));
}

#[test]
fn a_request_keeps_its_parts() {
    let fee = record_with(3);
    let args = request(5, 2, Some(fee.clone()), TransferType::PublicToPrivate);
    assert_eq!(args.amount(), 5);
    assert_eq!(args.priority_fee(), 2);
    assert_eq!(args.recipient_address(), RECIPIENT);
    assert_eq!(args.fee_record().unwrap().text(), fee.text());
    assert!(matches!(args.transfer_type(), TransferType::PublicToPrivate));
    assert!(request(5, 2, None, TransferType::Public).fee_record().is_none());
}
