//! A builder for an [`Agent`].
use crate::account::Account;
use crate::agent::{Agent, AgentView};
use vstd::prelude::*;
use vstd::string::StringExecFns;

verus! {

/// The parts of an agent, to be set one by one.
#[derive(Debug)]
pub struct AgentBuilder {
    url: String,
    network: String,
    account: Account,
}

impl View for AgentBuilder {
    type V = AgentView;

    closed spec fn view(&self) -> AgentView {
        AgentView { base_url: self.url@, network: self.network@, account: self.account@ }
    }
}

impl AgentBuilder {
    /// A builder is well formed when its account is.
    pub closed spec fn wf(&self) -> bool {
        self.account.wf()
    }

    /// A builder for an agent of the given account, with the default endpoint
    /// and the default network.
    pub fn new(account: Account) -> (builder: AgentBuilder)
        requires
            account.wf(),
        ensures
            builder.wf(),
            builder@ == (AgentView {
                base_url: crate::DEFAULT_BASE_URL@,
                network: crate::DEFAULT_TESTNET@,
                account: account@,
            }),
    {
        AgentBuilder {
            url: String::from_str(crate::DEFAULT_BASE_URL),
            network: String::from_str(crate::DEFAULT_TESTNET),
            account,
        }
    }

    /// The agent with the builder's parts.
    pub fn build(self) -> (agent: Agent)
        requires
            self.wf(),
        ensures
            agent.wf(),
            agent@ == self@,
    {
        Agent::new(self.url, self.network, self.account)
    }

    /// The builder with another endpoint.
    pub fn with_url(self, url: &str) -> (builder: AgentBuilder)
        ensures
            builder@ == (AgentView { base_url: url@, ..self@ }),
            self.wf() ==> builder.wf(),
    {
        AgentBuilder { url: String::from_str(url), network: self.network, account: self.account }
    }

    /// The builder with another network.
    pub fn with_network(self, network: &str) -> (builder: AgentBuilder)
        ensures
            builder@ == (AgentView { network: network@, ..self@ }),
            self.wf() ==> builder.wf(),
    {
        AgentBuilder { url: self.url, network: String::from_str(network), account: self.account }
    }

    /// The builder with another account.
    pub fn with_account(self, account: Account) -> (builder: AgentBuilder)
        requires
            account.wf(),
        ensures
            builder@ == (AgentView { account: account@, ..self@ }),
            builder.wf(),
    {
        AgentBuilder { url: self.url, network: self.network, account }
    }
}

} // verus!
