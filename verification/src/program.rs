//! Programs on the network, as far as an agent names them and asks about them.
use crate::agent::Agent;
use crate::chain::{endpoint_of, endpoint_with, mapping_value_url};
use crate::program_scan::{opening, ProgramScan};
use snarkvm::console::network::Testnet3;
use snarkvm::console::program::ProgramID;
use std::ops::Range;
use std::str::FromStr;
use vstd::prelude::*;
use vstd::string::StringExecFns;

verus! {

/// Whether a text is the identifier of a program.
pub uninterp spec fn names_program(text: Seq<char>) -> bool;

/// Why a program cannot be named.
#[derive(Clone, Copy, Debug, PartialEq, Eq, Structural)]
pub enum ProgramError {
    /// The text is no program identifier.
    InvalidProgramId,
}

impl ProgramError {
    /// The error in words.
    pub fn message(&self) -> (text: &'static str)
        ensures
            text@ == (match self {
                ProgramError::InvalidProgramId => "Invalid program ID"@,
            }),
    {
        match self {
            ProgramError::InvalidProgramId => "Invalid program ID",
        }
    }
}

/// Checks a program identifier.
///
/// Trusted: calls `ProgramID::from_str`; whether it accepts is a function of
/// the text.
#[verifier::external_body]
fn is_program_id(text: &str) -> (valid: bool)
    ensures
        valid == names_program(text@),
{
    ProgramID::<Testnet3>::from_str(text).is_ok()
}

/// An agent together with the program that it asks about.
pub struct ProgramManager<'agent> {
    agent: &'agent Agent,
    program_id: String,
}

impl<'agent> ProgramManager<'agent> {
    /// The program's identifier as a text.
    pub closed spec fn spec_program_id(&self) -> Seq<char> {
        self.program_id@
    }

    /// The agent that asks.
    pub closed spec fn spec_agent(&self) -> Agent {
        *self.agent
    }

    /// A program manager is well formed when its text names a program.
    pub open spec fn wf(&self) -> bool {
        names_program(self.spec_program_id())
    }

    /// The manager of a program for an agent; `InvalidProgramId` where the
    /// text is no program identifier.
    pub fn new(agent: &'agent Agent, program_id: &str) -> (manager: Result<
        ProgramManager<'agent>,
        ProgramError,
    >)
        ensures
            manager is Ok <==> names_program(program_id@),
            manager matches Ok(m) ==> m.wf() && m.spec_program_id() == program_id@ && m.spec_agent()
                == *agent,
            manager matches Err(e) ==> e == ProgramError::InvalidProgramId,
    {
        if is_program_id(program_id) {
            Ok(ProgramManager { agent, program_id: program_id.to_owned() })
        } else {
            Err(ProgramError::InvalidProgramId)
        }
    }

    /// The program's identifier.
    pub fn program_id(&self) -> (id: &String)
        ensures
            id@ == self.spec_program_id(),
    {
        &self.program_id
    }

    /// The agent that asks.
    pub fn agent(&self) -> (agent: &Agent)
        ensures
            *agent == self.spec_agent(),
    {
        self.agent
    }

    /// Begins the scan for the program's records that the agent's account
    /// owns in a range of block heights, lowest window first; with
    /// `unspent_only`, records that the chain reports spent are left out.
    pub fn get_program_records(&self, block_heights: Range<u32>, unspent_only: bool) -> (scan:
        ProgramScan)
        requires
            self.spec_agent().wf(),
        ensures
            scan.wf(),
            scan@ == opening(
                self.spec_agent()@.account,
                block_heights.start,
                block_heights.end,
                unspent_only,
            ),
    {
        ProgramScan::begin(
            self.agent.account().clone(),
            block_heights.start,
            block_heights.end,
            unspent_only,
        )
    }

    /// The address to ask for the program itself.
    pub fn program_url(&self) -> (url: String)
        ensures
            url@ == endpoint_of(
                self.spec_agent()@.base_url,
                self.spec_agent()@.network,
                "program/"@ + self.spec_program_id(),
            ),
    {
        endpoint_with(
            self.agent.base_url().as_str(),
            self.agent.network().as_str(),
            "program/",
            self.program_id.as_str(),
        )
    }

    /// The address to ask for the names of the program's mappings.
    pub fn mappings_url(&self) -> (url: String)
        ensures
            url@ == endpoint_of(
                self.spec_agent()@.base_url,
                self.spec_agent()@.network,
                "program/"@ + self.spec_program_id() + "/mappings"@,
            ),
    {
        let mut path = "program/".to_owned();
        path.append(self.program_id.as_str());
        path.append("/mappings");
        crate::chain::endpoint(
            self.agent.base_url().as_str(),
            self.agent.network().as_str(),
            path.as_str(),
        )
    }

    /// The address to ask for the value under a key of one of the program's
    /// mappings.
    pub fn mapping_value_url(&self, mapping_name: &str, key: &str) -> (url: String)
        ensures
            url@ == endpoint_of(
                self.spec_agent()@.base_url,
                self.spec_agent()@.network,
                "program/"@ + self.spec_program_id() + "/mapping/"@ + mapping_name@ + "/"@ + key@,
            ),
    {
        mapping_value_url(
            self.agent.base_url().as_str(),
            self.agent.network().as_str(),
            self.program_id.as_str(),
            mapping_name,
            key,
        )
    }
}

} // verus!
