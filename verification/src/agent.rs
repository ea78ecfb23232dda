//! The agent: an account with the endpoint and the network that it talks to,
//! and what it prepares for the chain and the execution engine.
use crate::account::{Account, AccountView};
use crate::builder::AgentBuilder;
use crate::program::{names_program, ProgramError, ProgramManager};
use crate::chain::{endpoint_of, endpoint_with};
use crate::record::{record_plaintext, CiphertextRecord, PlaintextRecord, RecordError};
use crate::scan::ScanError;
use crate::sweep::{fresh, RecordScan};
use crate::transfer::{
    function_of, inputs_of, validated, value_views, TransferArgs, TransferError, Value,
};
use crate::unspent::{initial, UnspentScan};
use std::ops::Range;
use vstd::prelude::*;
use vstd::string::StringExecFns;

verus! {

/// An agent as plain values.
pub struct AgentView {
    pub base_url: Seq<char>,
    pub network: Seq<char>,
    pub account: AccountView,
}

/// An account with the endpoint and the network that it talks to.
#[derive(Debug)]
pub struct Agent {
    base_url: String,
    network: String,
    account: Account,
}

impl View for Agent {
    type V = AgentView;

    closed spec fn view(&self) -> AgentView {
        AgentView { base_url: self.base_url@, network: self.network@, account: self.account@ }
    }
}

/// What the execution engine is asked to execute for a transfer.
#[derive(Debug)]
pub struct TransferRequest {
    /// The private key that signs, in its canonical text.
    pub private_key: String,
    /// The program and the function to execute.
    pub program: String,
    pub function: String,
    /// The function's inputs, in order.
    pub inputs: Vec<Value>,
    /// The record to pay the fee from, if any, and the priority fee.
    pub fee_record: Option<PlaintextRecord>,
    pub priority_fee: u64,
    /// The endpoint that the engine asks for the state of the network.
    pub query: String,
}

impl Agent {
    /// An agent is well formed when its account is.
    pub closed spec fn wf(&self) -> bool {
        self.account.wf()
    }

    /// An agent from its parts.
    pub fn new(base_url: String, network: String, account: Account) -> (agent: Agent)
        requires
            account.wf(),
        ensures
            agent.wf(),
            agent@ == (AgentView { base_url: base_url@, network: network@, account: account@ }),
    {
        Agent { base_url, network, account }
    }

    /// A builder for an agent of the given account.
    pub fn builder(account: Account) -> (builder: AgentBuilder)
        requires
            account.wf(),
        ensures
            builder.wf(),
            builder@ == (AgentView {
                base_url: crate::DEFAULT_BASE_URL@,
                network: crate::DEFAULT_TESTNET@,
                account: account@,
            }),
    {
        AgentBuilder::new(account)
    }

    /// The manager of a program for this agent; `InvalidProgramId` where the
    /// text is no program identifier.
    pub fn program<'agent>(&'agent self, program_id: &str) -> (manager: Result<
        ProgramManager<'agent>,
        ProgramError,
    >)
        ensures
            manager is Ok <==> names_program(program_id@),
            manager matches Ok(m) ==> m.wf() && m.spec_program_id() == program_id@ && m.spec_agent()
                == *self,
            manager matches Err(e) ==> e == ProgramError::InvalidProgramId,
    {
        ProgramManager::new(self, program_id)
    }

    /// The address to ask for the account's public balance: the value under
    /// the account's address in the `account` mapping of the credits program.
    pub fn public_balance_url(&self) -> (url: String)
        ensures
            url@ == endpoint_of(
                self@.base_url,
                self@.network,
                "program/"@ + crate::transfer::CREDITS_PROGRAM@ + "/mapping/"@ + "account"@ + "/"@
                    + self@.account.address,
            ),
    {
        crate::chain::mapping_value_url(
            self.base_url.as_str(),
            self.network.as_str(),
            crate::transfer::CREDITS_PROGRAM,
            "account",
            self.account.address().as_str(),
        )
    }

    /// The address to ask for the transactions of the account.
    pub fn transactions_url(&self) -> (url: String)
        ensures
            url@ == endpoint_of(self@.base_url, self@.network, "address/"@ + self@.account.address),
    {
        endpoint_with(
            self.base_url.as_str(),
            self.network.as_str(),
            "address/",
            self.account.address().as_str(),
        )
    }

    /// The agent's account.
    pub fn account(&self) -> (account: &Account)
        ensures
            account@ == self@.account,
            self.wf() ==> account.wf(),
    {
        &self.account
    }

    /// The endpoint that the agent talks to.
    pub fn base_url(&self) -> (url: &String)
        ensures
            url@ == self@.base_url,
    {
        &self.base_url
    }

    /// The network that the agent talks to.
    pub fn network(&self) -> (network: &String)
        ensures
            network@ == self@.network,
    {
        &self.network
    }

    /// Sets the endpoint.
    pub fn set_url(&mut self, url: &str)
        ensures
            final(self)@ == (AgentView { base_url: url@, ..old(self)@ }),
            old(self).wf() ==> final(self).wf(),
    {
        self.base_url = String::from_str(url);
    }

    /// Sets the network.
    pub fn set_network(&mut self, network: &str)
        ensures
            final(self)@ == (AgentView { network: network@, ..old(self)@ }),
            old(self).wf() ==> final(self).wf(),
    {
        self.network = String::from_str(network);
    }

    /// Sets the account.
    pub fn set_account(&mut self, account: Account)
        requires
            account.wf(),
        ensures
            final(self)@ == (AgentView { account: account@, ..old(self)@ }),
            final(self).wf(),
    {
        self.account = account;
    }

    /// Points the agent at a node on this machine: the test network, at the
    /// given port of `0.0.0.0`.
    pub fn local_testnet(&mut self, port: &str)
        ensures
            final(self)@ == (AgentView {
                base_url: "http://0.0.0.0:"@ + port@,
                network: crate::DEFAULT_TESTNET@,
                ..old(self)@
            }),
            old(self).wf() ==> final(self).wf(),
    {
        self.network = String::from_str(crate::DEFAULT_TESTNET);
        let mut url = String::from_str("http://0.0.0.0:");
        url.append(port);
        self.base_url = url;
    }

    /// Decrypts a record with the account's view key.
    pub fn decrypt_ciphertext_record(&self, ciphertext_record: &CiphertextRecord) -> (plain: Result<
        PlaintextRecord,
        RecordError,
    >)
        ensures
            plain matches Ok(p) ==> record_plaintext(ciphertext_record@, self@.account.view_key)
                == Some(p@),
            plain matches Err(e) ==> e == RecordError::NotDecryptable && record_plaintext(
                ciphertext_record@,
                self@.account.view_key,
            ) is None,
    {
        ciphertext_record.decrypt(&self.account)
    }

    /// Begins the scan for the account's unspent records in a range of block
    /// heights, newest window first, which stops once the records found hold
    /// `max_gates` microcredits, if given. `EmptyRange` where the start of the
    /// range is not below its end.
    pub fn get_unspent_records(&self, block_heights: Range<u32>, max_gates: Option<u64>) -> (scan:
        Result<UnspentScan, ScanError>)
        requires
            self.wf(),
        ensures
            scan is Ok <==> block_heights.start < block_heights.end,
            scan matches Ok(s) ==> s.wf() && s@ == initial(
                self@.account,
                block_heights.start,
                block_heights.end,
                max_gates,
            ),
            scan matches Err(e) ==> e == ScanError::EmptyRange,
    {
        UnspentScan::begin(self.account.clone(), block_heights.start, block_heights.end, max_gates)
    }

    /// Begins the scan for all records of the account in a range of block
    /// heights, spent or not, lowest window first, which stops once
    /// `max_records` are found, if given.
    pub fn scan_records(&self, block_heights: Range<u32>, max_records: Option<usize>) -> (scan:
        RecordScan)
        requires
            self.wf(),
        ensures
            scan.wf(),
            scan@ == fresh(self@.account, block_heights.start, block_heights.end, max_records),
    {
        RecordScan::begin(self.account.clone(), block_heights.start, block_heights.end, max_records)
    }

    /// Checks a transfer and says what the execution engine is to execute
    /// for it: the transfer function of the credits program that belongs to
    /// the kind, on the inputs of the request, signed with the account's
    /// private key. Nothing is prepared for a request that does not pass.
    pub fn transfer(&self, args: TransferArgs) -> (request: Result<TransferRequest, TransferError>)
        ensures
            request matches Err(e) ==> validated(args@) == Err::<(), TransferError>(e),
            request matches Ok(r) ==> {
                &&& validated(args@) is Ok
                &&& r.private_key@ == self@.account.private_key
                &&& r.program@ == crate::transfer::CREDITS_PROGRAM@
                &&& r.function@ == function_of(args@.transfer_type)
                &&& value_views(r.inputs@) == inputs_of(args@)
                &&& r.priority_fee == args@.priority_fee
                &&& r.query@ == self@.base_url
                &&& match r.fee_record {
                    Some(record) => args@.fee_record == Some(record@),
                    None => args@.fee_record is None,
                }
            },
    {
        match args.validate() {
            Err(e) => Err(e),
            Ok(()) => {
                let fee_record = match args.fee_record() {
                    Some(record) => Some(record.clone()),
                    None => None,
                };
                Ok(
                    TransferRequest {
                        private_key: self.account.private_key().clone(),
                        program: String::from_str(crate::transfer::CREDITS_PROGRAM),
                        function: args.transfer_type().to_string(),
                        inputs: args.to_inputs(),
                        fee_record,
                        priority_fee: args.priority_fee(),
                        query: self.base_url.clone(),
                    },
                )
            },
        }
    }
}

impl Clone for Agent {
    fn clone(&self) -> (copy: Agent)
        ensures
            copy@ == self@,
            self.wf() ==> copy.wf(),
    {
        Agent {
            base_url: self.base_url.clone(),
            network: self.network.clone(),
            account: self.account.clone(),
        }
    }
}

} // verus!
