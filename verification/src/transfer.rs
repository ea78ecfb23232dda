//! Transfers of credits: the four kinds, the check of a request against the
//! balances of its records, and the inputs handed to the execution engine.
use crate::record::{microcredits_of, PlaintextRecord};
use vstd::prelude::*;
use vstd::string::StringExecFns;

verus! {

/// The program that holds the transfer functions.
pub const CREDITS_PROGRAM: &'static str = "credits.aleo";

/// The kind of a transfer; one that debits a record carries it.
#[derive(Debug)]
pub enum TransferType {
    /// From a record to a record.
    Private(PlaintextRecord),
    /// From a record to a public balance.
    PrivateToPublic(PlaintextRecord),
    /// From a public balance to a public balance.
    Public,
    /// From a public balance to a record.
    PublicToPrivate,
}

/// A [`TransferType`] as plain values.
pub enum TransferTypeView {
    Private(Seq<char>),
    PrivateToPublic(Seq<char>),
    Public,
    PublicToPrivate,
}

impl View for TransferType {
    type V = TransferTypeView;

    open spec fn view(&self) -> TransferTypeView {
        match self {
            TransferType::Private(record) => TransferTypeView::Private(record@),
            TransferType::PrivateToPublic(record) => TransferTypeView::PrivateToPublic(record@),
            TransferType::Public => TransferTypeView::Public,
            TransferType::PublicToPrivate => TransferTypeView::PublicToPrivate,
        }
    }
}

/// The record that a kind of transfer debits, if it debits one.
pub open spec fn source_of(kind: TransferTypeView) -> Option<Seq<char>> {
    match kind {
        TransferTypeView::Private(record) => Some(record),
        TransferTypeView::PrivateToPublic(record) => Some(record),
        TransferTypeView::Public => None,
        TransferTypeView::PublicToPrivate => None,
    }
}

/// The name of the network's function for a kind of transfer.
pub open spec fn function_of(kind: TransferTypeView) -> Seq<char> {
    match kind {
        TransferTypeView::Private(_) => "transfer_private"@,
        TransferTypeView::PrivateToPublic(_) => "transfer_private_to_public"@,
        TransferTypeView::Public => "transfer_public"@,
        TransferTypeView::PublicToPrivate => "transfer_public_to_private"@,
    }
}

impl TransferType {
    /// The name of the network's function that makes a transfer of this kind.
    pub fn function_name(&self) -> (name: &'static str)
        ensures
            name@ == function_of(self@),
    {
        match self {
            TransferType::Private(_) => "transfer_private",
            TransferType::PrivateToPublic(_) => "transfer_private_to_public",
            TransferType::Public => "transfer_public",
            TransferType::PublicToPrivate => "transfer_public_to_private",
        }
    }

    /// The name of the network's function, as an owned text.
    pub fn to_string(&self) -> (name: String)
        ensures
            name@ == function_of(self@),
    {
        String::from_str(self.function_name())
    }

    /// The record that a transfer of this kind debits, if it debits one.
    pub fn source_record(&self) -> (record: Option<&PlaintextRecord>)
        ensures
            record matches Some(r) ==> source_of(self@) == Some(r@),
            record is None ==> source_of(self@) is None,
    {
        match self {
            TransferType::Private(record) => Some(record),
            TransferType::PrivateToPublic(record) => Some(record),
            TransferType::Public => None,
            TransferType::PublicToPrivate => None,
        }
    }
}

impl Clone for TransferType {
    fn clone(&self) -> (copy: TransferType)
        ensures
            copy@ == self@,
    {
        match self {
            TransferType::Private(record) => TransferType::Private(record.clone()),
            TransferType::PrivateToPublic(record) => TransferType::PrivateToPublic(record.clone()),
            TransferType::Public => TransferType::Public,
            TransferType::PublicToPrivate => TransferType::PublicToPrivate,
        }
    }
}

/// Why a transfer request is refused.
#[derive(Clone, Copy, Debug, PartialEq, Eq, Structural)]
pub enum TransferError {
    /// The record to debit holds no microcredits entry.
    SourceWithoutMicrocredits,
    /// The record to debit holds less than the amount.
    InsufficientAmount,
    /// The fee record holds no microcredits entry.
    FeeWithoutMicrocredits,
    /// The fee record holds less than the priority fee.
    InsufficientFee,
}

impl TransferError {
    /// The error in words.
    pub fn message(&self) -> (text: &'static str)
        ensures
            text@ == (match self {
                TransferError::SourceWithoutMicrocredits => "The record provided does not contain a microcredits field"@,
                TransferError::InsufficientAmount => "Credits in amount record must greater than transfer amount specified"@,
                TransferError::FeeWithoutMicrocredits => "The record provided does not contain a microcredits field"@,
                TransferError::InsufficientFee => "Credits in fee record must greater than fee specified"@,
            }),
    {
        match self {
            TransferError::SourceWithoutMicrocredits => "The record provided does not contain a microcredits field",
            TransferError::InsufficientAmount => "Credits in amount record must greater than transfer amount specified",
            TransferError::FeeWithoutMicrocredits => "The record provided does not contain a microcredits field",
            TransferError::InsufficientFee => "Credits in fee record must greater than fee specified",
        }
    }
}

/// A value handed to the execution engine as an input of a transfer.
#[derive(Debug)]
pub enum Value {
    /// A record in plain text.
    Record(PlaintextRecord),
    /// An address in its canonical text.
    Address(String),
    /// An amount of microcredits, an unsigned number of 64 bits.
    Amount(u64),
}

/// A [`Value`] as plain values.
pub enum ValueView {
    Record(Seq<char>),
    Address(Seq<char>),
    Amount(u64),
}

impl View for Value {
    type V = ValueView;

    open spec fn view(&self) -> ValueView {
        match self {
            Value::Record(record) => ValueView::Record(record@),
            Value::Address(address) => ValueView::Address(address@),
            Value::Amount(amount) => ValueView::Amount(*amount),
        }
    }
}

/// The views of a list of values.
pub open spec fn value_views(values: Seq<Value>) -> Seq<ValueView> {
    values.map_values(|v: Value| v@)
}

/// A transfer request as plain values.
pub struct TransferArgsView {
    pub amount: u64,
    pub priority_fee: u64,
    pub recipient_address: Seq<char>,
    pub transfer_type: TransferTypeView,
    pub fee_record: Option<Seq<char>>,
}

/// The inputs of a transfer: the record to debit where the kind debits one,
/// then the recipient, then the amount.
pub open spec fn inputs_of(args: TransferArgsView) -> Seq<ValueView> {
    match source_of(args.transfer_type) {
        Some(record) => seq![
            ValueView::Record(record),
            ValueView::Address(args.recipient_address),
            ValueView::Amount(args.amount),
        ],
        None => seq![ValueView::Address(args.recipient_address), ValueView::Amount(args.amount)],
    }
}

/// Whether the balances cover a request. `source` and `fee` are `None` where
/// the request has no such record, and hold the record's microcredits entry
/// where it has one. The record to debit is checked first.
pub open spec fn balances_checked(
    source: Option<Option<u64>>,
    amount: u64,
    fee: Option<Option<u64>>,
    priority_fee: u64,
) -> Result<(), TransferError> {
    if source == Some(None::<u64>) {
        Err(TransferError::SourceWithoutMicrocredits)
    } else if source is Some && source->Some_0->Some_0 < amount {
        Err(TransferError::InsufficientAmount)
    } else if fee == Some(None::<u64>) {
        Err(TransferError::FeeWithoutMicrocredits)
    } else if fee is Some && fee->Some_0->Some_0 < priority_fee {
        Err(TransferError::InsufficientFee)
    } else {
        Ok(())
    }
}

/// Whether a request passes: the record that it debits, if any, holds at
/// least the amount, and its fee record, if any, at least the priority fee.
pub open spec fn validated(args: TransferArgsView) -> Result<(), TransferError> {
    balances_checked(
        match source_of(args.transfer_type) {
            Some(record) => Some(microcredits_of(record)),
            None => None,
        },
        args.amount,
        match args.fee_record {
            Some(record) => Some(microcredits_of(record)),
            None => None,
        },
        args.priority_fee,
    )
}

/// Checks the balances of a request's records against its amount and fee.
pub fn check_balances(
    source: Option<Option<u64>>,
    amount: u64,
    fee: Option<Option<u64>>,
    priority_fee: u64,
) -> (checked: Result<(), TransferError>)
    ensures
        checked == balances_checked(source, amount, fee, priority_fee),
{
    match source {
        Some(None) => {
            return Err(TransferError::SourceWithoutMicrocredits);
        },
        Some(Some(held)) => {
            if held < amount {
                return Err(TransferError::InsufficientAmount);
            }
        },
        None => {},
    }
    match fee {
        Some(None) => Err(TransferError::FeeWithoutMicrocredits),
        Some(Some(held)) => {
            if held < priority_fee {
                Err(TransferError::InsufficientFee)
            } else {
                Ok(())
            }
        },
        None => Ok(()),
    }
}

/// The microcredits entry of a record, if there is a record.
pub fn held_by(record: Option<&PlaintextRecord>) -> (held: Option<Option<u64>>)
    ensures
        held == (match record {
            Some(r) => Some(microcredits_of(r@)),
            None => None,
        }),
{
    match record {
        Some(r) => match r.microcredits() {
            Ok(amount) => Some(Some(amount)),
            Err(_) => Some(None),
        },
        None => None,
    }
}

/// A request for a transfer: amount and priority fee in microcredits, the
/// recipient's address, the kind, and a record to pay the fee from, if any.
#[derive(Debug)]
pub struct TransferArgs {
    amount: u64,
    priority_fee: u64,
    recipient_address: String,
    transfer_type: TransferType,
    fee_record: Option<PlaintextRecord>,
}

impl View for TransferArgs {
    type V = TransferArgsView;

    closed spec fn view(&self) -> TransferArgsView {
        TransferArgsView {
            amount: self.amount,
            priority_fee: self.priority_fee,
            recipient_address: self.recipient_address@,
            transfer_type: self.transfer_type@,
            fee_record: match self.fee_record {
                Some(record) => Some(record@),
                None => None,
            },
        }
    }
}

impl TransferArgs {
    /// A request from its parts.
    pub fn from(
        amount: u64,
        recipient_address: String,
        priority_fee: u64,
        fee_record: Option<PlaintextRecord>,
        transfer_type: TransferType,
    ) -> (args: TransferArgs)
        ensures
            args@ == (TransferArgsView {
                amount,
                priority_fee,
                recipient_address: recipient_address@,
                transfer_type: transfer_type@,
                fee_record: match fee_record {
                    Some(record) => Some(record@),
                    None => None,
                },
            }),
    {
        TransferArgs { amount, priority_fee, recipient_address, transfer_type, fee_record }
    }

    /// The amount to transfer, in microcredits.
    pub fn amount(&self) -> (amount: u64)
        ensures
            amount == self@.amount,
    {
        self.amount
    }

    /// The priority fee, in microcredits.
    pub fn priority_fee(&self) -> (fee: u64)
        ensures
            fee == self@.priority_fee,
    {
        self.priority_fee
    }

    /// The recipient's address.
    pub fn recipient_address(&self) -> (address: &String)
        ensures
            address@ == self@.recipient_address,
    {
        &self.recipient_address
    }

    /// The kind of the transfer.
    pub fn transfer_type(&self) -> (kind: &TransferType)
        ensures
            kind@ == self@.transfer_type,
    {
        &self.transfer_type
    }

    /// The record to pay the fee from, if any.
    pub fn fee_record(&self) -> (record: Option<&PlaintextRecord>)
        ensures
            record matches Some(r) ==> self@.fee_record == Some(r@),
            record is None ==> self@.fee_record is None,
    {
        self.fee_record.as_ref()
    }

    /// Checks the request before anything is sent: the record that it
    /// debits, if any, must hold at least the amount, and its fee record, if
    /// any, at least the priority fee.
    pub fn validate(&self) -> (checked: Result<(), TransferError>)
        ensures
            checked == validated(self@),
    {
        let source = held_by(self.transfer_type.source_record());
        let fee = held_by(self.fee_record.as_ref());
        check_balances(source, self.amount, fee, self.priority_fee)
    }

    /// The inputs of the transfer function: the record to debit where the
    /// kind debits one, then the recipient's address, then the amount.
    pub fn to_inputs(&self) -> (inputs: Vec<Value>)
        ensures
            value_views(inputs@) == inputs_of(self@),
    {
        let mut inputs: Vec<Value> = Vec::new();
        match self.transfer_type.source_record() {
            Some(record) => {
                inputs.push(Value::Record(record.clone()));
            },
            None => {},
        }
        inputs.push(Value::Address(self.recipient_address.clone()));
        inputs.push(Value::Amount(self.amount));
        assert(value_views(inputs@) =~= inputs_of(self@));
        inputs
    }
}

} // verus!
