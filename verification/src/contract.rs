//! The AgentPay integration contract that generated projects deploy.
//!
//! The contract keeps an allowlist of agents (AgentGuard), the amount each
//! payer has settled (AgentPay), the last action executed, and task escrows
//! that are funded by a payer and then either paid out to the agent or
//! refunded. This module holds that logic over the contract's storage.
//! Addresses are the host's account identifiers, taken as integers;
//! signature checks (`require_auth`) are made by the host before a call
//! reaches this logic. A call that fails leaves the storage as it was, as a
//! failed contract invocation does.

use std::collections::{HashMap, HashSet};

use vstd::prelude::*;
use vstd::string::*;

verus! {

broadcast use vstd::std_specs::hash::group_hash_axioms;

/// A Stellar account or contract address.
pub type Address = u64;

/// Status of an escrow that is still open.
pub const ESCROW_OPEN: u32 = 0;

/// Status of an escrow paid out to its agent.
pub const ESCROW_EXECUTED: u32 = 1;

/// Status of an escrow returned to its payer.
pub const ESCROW_REFUNDED: u32 = 2;

/// Open escrow until `execute_payment` or `refund`.
#[derive(Clone, Copy, Debug, PartialEq, Eq, Structural)]
pub struct Escrow {
    pub payer: Address,
    pub agent: Address,
    pub amount: i128,
    /// 0 = open, 1 = executed, 2 = refunded
    pub status: u32,
}

/// Why a contract call is refused.
#[derive(Clone, Copy, Debug, PartialEq, Eq, Structural)]
pub enum ContractError {
    /// `initialize` ran before.
    AlreadyInitialized,
    /// The agent is not on the allowlist, or the caller of `allow_agent`
    /// is not the bound admin.
    NotAuthorized,
    /// An amount that is zero or negative.
    NonPositiveAmount,
    /// No escrow has this id.
    UnknownEscrow,
    /// The escrow was already executed or refunded.
    EscrowNotOpen,
    /// The escrow belongs to another agent.
    AgentMismatch,
    /// The escrow was funded by another payer.
    PayerMismatch,
    /// A counter or total would leave its integer range.
    Overflow,
}

/// Events the contract publishes.
#[derive(Clone, Copy, Debug, PartialEq, Eq, Structural)]
pub enum ContractEvent {
    Deposited { id: u64, payer: Address, agent: Address, amount: i128 },
    Executed { id: u64, payer: Address, agent: Address, amount: i128 },
    Refunded { id: u64, payer: Address, agent: Address, amount: i128 },
}

/// The contract's storage and published events.
#[derive(Debug)]
pub struct AgentPayIntegration {
    /// The admin bound by `initialize`.
    pub admin: Option<Address>,
    /// Agents allowed to act on-chain.
    pub allowlist: HashSet<Address>,
    /// Settled amount per payer.
    pub paid: HashMap<Address, i128>,
    /// Id of the last action executed.
    pub last_action: Option<String>,
    /// Id of the next escrow, once set.
    pub next_escrow: Option<u64>,
    /// Escrows by id.
    pub escrows: HashMap<u64, Escrow>,
    /// Published events, oldest first.
    pub events: Vec<ContractEvent>,
}

/// The contract state as mathematical values.
pub struct Ledger {
    pub admin: Option<Address>,
    pub allowed: Set<Address>,
    pub paid: Map<Address, i128>,
    pub last_action: Option<Seq<char>>,
    pub next_escrow: Option<u64>,
    pub escrows: Map<u64, Escrow>,
    pub events: Seq<ContractEvent>,
}

impl View for AgentPayIntegration {
    type V = Ledger;

    open spec fn view(&self) -> Ledger {
        Ledger {
            admin: self.admin,
            allowed: self.allowlist@,
            paid: self.paid@,
            last_action: match self.last_action {
                Some(a) => Some(a@),
                None => None,
            },
            next_escrow: self.next_escrow,
            escrows: self.escrows@,
            events: self.events@,
        }
    }
}

/// The settled amount of `payer` (0 when nothing was settled).
pub open spec fn paid_of(s: Ledger, payer: Address) -> i128 {
    if s.paid.contains_key(payer) {
        s.paid[payer]
    } else {
        0
    }
}

/// The escrow with id `id`, if any.
pub open spec fn escrow_of(s: Ledger, id: u64) -> Option<Escrow> {
    if s.escrows.contains_key(id) {
        Some(s.escrows[id])
    } else {
        None
    }
}

/// `initialize`: bind the admin once, and start escrow ids at 0.
pub open spec fn initialized(s: Ledger, admin: Address) -> (Ledger, Result<(), ContractError>) {
    if s.admin is Some {
        (s, Err(ContractError::AlreadyInitialized))
    } else {
        (Ledger { admin: Some(admin), next_escrow: Some(0), ..s }, Ok(()))
    }
}

/// `AgentGuard::allow`: put `agent` on the allowlist.
pub open spec fn allowed(s: Ledger, agent: Address) -> Ledger {
    Ledger { allowed: s.allowed.insert(agent), ..s }
}

/// `allow_agent`: the bound admin puts `agent` on the allowlist; anyone
/// else (or anyone before `initialize`) is refused.
pub open spec fn agent_allowed(s: Ledger, admin: Address, agent: Address) -> (
    Ledger,
    Result<(), ContractError>,
) {
    if s.admin == Some(admin) {
        (allowed(s, agent), Ok(()))
    } else {
        (s, Err(ContractError::NotAuthorized))
    }
}

/// `AgentPay::settle`: add a positive `amount` to what `payer` settled.
pub open spec fn settled(s: Ledger, payer: Address, amount: i128) -> Result<Ledger, ContractError> {
    if amount <= 0 {
        Err(ContractError::NonPositiveAmount)
    } else if paid_of(s, payer) + amount > i128::MAX {
        Err(ContractError::Overflow)
    } else {
        Ok(Ledger { paid: s.paid.insert(payer, (paid_of(s, payer) + amount) as i128), ..s })
    }
}

/// `execute_agent_action`: an allowed agent settles `amount` and records
/// the action.
pub open spec fn action_executed(s: Ledger, agent: Address, action_id: Seq<char>, amount: i128) -> (
    Ledger,
    Result<(), ContractError>,
) {
    if !s.allowed.contains(agent) {
        (s, Err(ContractError::NotAuthorized))
    } else {
        match settled(s, agent, amount) {
            Err(e) => (s, Err(e)),
            Ok(t) => (Ledger { last_action: Some(action_id), ..t }, Ok(())),
        }
    }
}

/// `deposit`: open an escrow under the next id.
pub open spec fn deposited(s: Ledger, payer: Address, agent: Address, amount: i128) -> (
    Ledger,
    Result<u64, ContractError>,
) {
    let id: u64 = match s.next_escrow {
        Some(n) => n,
        None => 0,
    };
    if amount <= 0 {
        (s, Err(ContractError::NonPositiveAmount))
    } else if id == u64::MAX {
        (s, Err(ContractError::Overflow))
    } else {
        (
            Ledger {
                escrows: s.escrows.insert(
                    id,
                    Escrow { payer, agent, amount, status: ESCROW_OPEN },
                ),
                next_escrow: Some((id + 1) as u64),
                events: s.events.push(ContractEvent::Deposited { id, payer, agent, amount }),
                ..s
            },
            Ok(id),
        )
    }
}

/// `execute_payment`: release an open escrow to its agent.
pub open spec fn payment_executed(s: Ledger, id: u64, agent: Address) -> (
    Ledger,
    Result<(), ContractError>,
) {
    match escrow_of(s, id) {
        None => (s, Err(ContractError::UnknownEscrow)),
        Some(e) => if e.status != ESCROW_OPEN {
            (s, Err(ContractError::EscrowNotOpen))
        } else if e.agent != agent {
            (s, Err(ContractError::AgentMismatch))
        } else {
            match settled(s, agent, e.amount) {
                Err(err) => (s, Err(err)),
                Ok(t) => (
                    Ledger {
                        escrows: t.escrows.insert(id, Escrow { status: ESCROW_EXECUTED, ..e }),
                        events: t.events.push(
                            ContractEvent::Executed { id, payer: e.payer, agent, amount: e.amount },
                        ),
                        ..t
                    },
                    Ok(()),
                ),
            }
        },
    }
}

/// `refund`: return an open escrow to its payer.
pub open spec fn refunded(s: Ledger, id: u64, payer: Address) -> (Ledger, Result<(), ContractError>) {
    match escrow_of(s, id) {
        None => (s, Err(ContractError::UnknownEscrow)),
        Some(e) => if e.status != ESCROW_OPEN {
            (s, Err(ContractError::EscrowNotOpen))
        } else if e.payer != payer {
            (s, Err(ContractError::PayerMismatch))
        } else {
            (
                Ledger {
                    escrows: s.escrows.insert(id, Escrow { status: ESCROW_REFUNDED, ..e }),
                    events: s.events.push(
                        ContractEvent::Refunded { id, payer, agent: e.agent, amount: e.amount },
                    ),
                    ..s
                },
                Ok(()),
            )
        },
    }
}

/// An escrow that was executed or refunded is final: neither
/// `execute_payment` nor `refund` succeeds on it again, and both leave the
/// storage unchanged.
pub proof fn lemma_closed_escrow_is_final(s: Ledger, id: u64, who: Address)
    requires
        escrow_of(s, id) matches Some(e) && e.status != ESCROW_OPEN,
    ensures
        payment_executed(s, id, who) == (s, Err::<(), ContractError>(ContractError::EscrowNotOpen)),
        refunded(s, id, who) == (s, Err::<(), ContractError>(ContractError::EscrowNotOpen)),
{
}

/// Each escrow is released at most once: after it was paid out or
/// refunded, every later payout or refund of it is refused.
pub proof fn lemma_escrow_released_once(s: Ledger, id: u64, first: Address, who: Address, pay_out: bool)
    requires
        pay_out ==> payment_executed(s, id, first).1 is Ok,
        !pay_out ==> refunded(s, id, first).1 is Ok,
    ensures
        ({
            let t = if pay_out {
                payment_executed(s, id, first).0
            } else {
                refunded(s, id, first).0
            };
            &&& escrow_of(t, id) matches Some(e) && e.status == (if pay_out {
                ESCROW_EXECUTED
            } else {
                ESCROW_REFUNDED
            })
            &&& payment_executed(t, id, who) == (t, Err::<(), ContractError>(ContractError::EscrowNotOpen))
            &&& refunded(t, id, who) == (t, Err::<(), ContractError>(ContractError::EscrowNotOpen))
        }),
{
    let t = if pay_out {
        payment_executed(s, id, first).0
    } else {
        refunded(s, id, first).0
    };
    assert(t.escrows.contains_key(id));
    lemma_closed_escrow_is_final(t, id, who);
}

/// A payout credits the escrow's amount to its agent and changes no other
/// settled amount; the escrow keeps its payer, agent and amount.
pub proof fn lemma_payout_credits_agent(s: Ledger, id: u64, agent: Address)
    requires
        payment_executed(s, id, agent).1 is Ok,
    ensures
        ({
            let t = payment_executed(s, id, agent).0;
            let e = escrow_of(s, id)->0;
            &&& paid_of(t, agent) == paid_of(s, agent) + e.amount
            &&& forall|a: Address| a != agent ==> paid_of(t, a) == paid_of(s, a)
            &&& escrow_of(t, id) == Some(Escrow { status: ESCROW_EXECUTED, ..e })
        }),
{
}

/// A refund changes no settled amount; the escrow keeps its payer, agent
/// and amount.
pub proof fn lemma_refund_credits_nobody(s: Ledger, id: u64, payer: Address)
    requires
        refunded(s, id, payer).1 is Ok,
    ensures
        ({
            let t = refunded(s, id, payer).0;
            let e = escrow_of(s, id)->0;
            &&& forall|a: Address| paid_of(t, a) == paid_of(s, a)
            &&& escrow_of(t, id) == Some(Escrow { status: ESCROW_REFUNDED, ..e })
        }),
{
}

/// A deposit records an open escrow under the id it returns, and the next
/// deposit receives the following id.
pub proof fn lemma_deposits_are_numbered(
    s: Ledger,
    payer: Address,
    agent: Address,
    amount: i128,
    payer2: Address,
    agent2: Address,
    amount2: i128,
)
    requires
        deposited(s, payer, agent, amount).1 is Ok,
        deposited(deposited(s, payer, agent, amount).0, payer2, agent2, amount2).1 is Ok,
    ensures
        ({
            let (t, r) = deposited(s, payer, agent, amount);
            let id = r->Ok_0;
            &&& escrow_of(t, id) == Some(Escrow { payer, agent, amount, status: ESCROW_OPEN })
            &&& deposited(t, payer2, agent2, amount2).1 == Ok::<u64, ContractError>((id + 1) as u64)
        }),
{
}

/// Only the bound admin extends the allowlist: a call by anyone else is
/// refused and leaves the storage unchanged, and a call by the admin adds
/// exactly `agent`.
pub proof fn lemma_only_admin_allows(s: Ledger, caller: Address, agent: Address)
    ensures
        s.admin != Some(caller) ==> agent_allowed(s, caller, agent) == (
            s,
            Err::<(), ContractError>(ContractError::NotAuthorized),
        ),
        s.admin == Some(caller) ==> {
            let t = agent_allowed(s, caller, agent).0;
            &&& agent_allowed(s, caller, agent).1 is Ok
            &&& t.allowed == s.allowed.insert(agent)
            &&& t.admin == s.admin
            &&& t.paid == s.paid
            &&& t.escrows == s.escrows
        },
{
}

/// Funding an escrow settles nothing: a deposit, accepted or refused,
/// leaves every settled amount, the allowlist, the admin and the last
/// action as they were.
pub proof fn lemma_deposit_settles_nothing(s: Ledger, payer: Address, agent: Address, amount: i128)
    ensures
        ({
            let t = deposited(s, payer, agent, amount).0;
            &&& forall|a: Address| #[trigger] paid_of(t, a) == paid_of(s, a)
            &&& t.allowed == s.allowed
            &&& t.admin == s.admin
            &&& t.last_action == s.last_action
        }),
{
}

/// A successful action settles a positive amount, so what an agent has
/// settled only grows.
pub proof fn lemma_action_increases_paid(s: Ledger, agent: Address, action_id: Seq<char>, amount: i128)
    requires
        action_executed(s, agent, action_id, amount).1 is Ok,
    ensures
        paid_of(action_executed(s, agent, action_id, amount).0, agent) > paid_of(s, agent),
        action_executed(s, agent, action_id, amount).0.last_action == Some(action_id),
{
}

/// AgentGuard: verify the calling agent is allowed to act on-chain.
pub struct AgentGuard;

impl AgentGuard {
    /// Put `agent` on the allowlist.
    pub fn allow(contract: &mut AgentPayIntegration, agent: Address)
        ensures
            final(contract)@ == allowed(old(contract)@, agent),
    {
        contract.allowlist.insert(agent);
    }

    /// Refuse an agent that is not on the allowlist.
    pub fn assert_authorized(contract: &AgentPayIntegration, agent: Address) -> (r: Result<
        (),
        ContractError,
    >)
        ensures
            r == if contract@.allowed.contains(agent) {
                Ok::<(), ContractError>(())
            } else {
                Err(ContractError::NotAuthorized)
            },
    {
        if contract.allowlist.contains(&agent) {
            Ok(())
        } else {
            Err(ContractError::NotAuthorized)
        }
    }
}

/// AgentPay: settle a payment before a state-changing agent action.
pub struct AgentPay;

impl AgentPay {
    /// Add a positive `amount` to what `payer` settled.
    pub fn settle(contract: &mut AgentPayIntegration, payer: Address, amount: i128) -> (r: Result<
        (),
        ContractError,
    >)
        ensures
            match settled(old(contract)@, payer, amount) {
                Ok(t) => r is Ok && final(contract)@ == t,
                Err(e) => r == Err::<(), ContractError>(e) && final(contract)@ == old(contract)@,
            },
    {
        if amount <= 0 {
            return Err(ContractError::NonPositiveAmount);
        }
        let prev: i128 = match contract.paid.get(&payer) {
            Some(p) => *p,
            None => 0,
        };
        if prev > i128::MAX - amount {
            return Err(ContractError::Overflow);
        }
        contract.paid.insert(payer, prev + amount);
        Ok(())
    }
}

impl AgentPayIntegration {
    /// A contract with empty storage and no events.
    pub fn new() -> (c: AgentPayIntegration)
        ensures
            c@.admin is None,
            c@.allowed == Set::<Address>::empty(),
            c@.paid == Map::<Address, i128>::empty(),
            c@.last_action is None,
            c@.next_escrow is None,
            c@.escrows == Map::<u64, Escrow>::empty(),
            c@.events == Seq::<ContractEvent>::empty(),
    {
        AgentPayIntegration {
            admin: None,
            allowlist: HashSet::new(),
            paid: HashMap::new(),
            last_action: None,
            next_escrow: None,
            escrows: HashMap::new(),
            events: Vec::new(),
        }
    }

    /// Bind an admin that may allowlist agents.
    pub fn initialize(&mut self, admin: Address) -> (r: Result<(), ContractError>)
        ensures
            (final(self)@, r) == initialized(old(self)@, admin),
    {
        if self.admin.is_some() {
            return Err(ContractError::AlreadyInitialized);
        }
        self.admin = Some(admin);
        self.next_escrow = Some(0);
        Ok(())
    }

    /// Allowlist `agent` on behalf of `admin`, whose signature the host
    /// checks; only the admin bound by `initialize` may do so.
    pub fn allow_agent(&mut self, admin: Address, agent: Address) -> (r: Result<(), ContractError>)
        ensures
            (final(self)@, r) == agent_allowed(old(self)@, admin, agent),
    {
        let is_admin = match self.admin {
            Some(a) => a == admin,
            None => false,
        };
        if !is_admin {
            return Err(ContractError::NotAuthorized);
        }
        AgentGuard::allow(self, agent);
        Ok(())
    }

    /// Verify identity, settle payment, then record the action.
    pub fn execute_agent_action(&mut self, agent: Address, action_id: &str, amount: i128) -> (r:
        Result<(), ContractError>)
        ensures
            (final(self)@, r) == action_executed(old(self)@, agent, action_id@, amount),
    {
        AgentGuard::assert_authorized(self, agent)?;
        AgentPay::settle(self, agent, amount)?;
        self.last_action = Some(String::from_str(action_id));
        Ok(())
    }

    /// The id of the last action executed.
    pub fn last_action(&self) -> (r: Option<String>)
        ensures
            match self@.last_action {
                Some(a) => r matches Some(x) && x@ == a,
                None => r is None,
            },
    {
        match &self.last_action {
            Some(a) => Some(String::from_str(a.as_str())),
            None => None,
        }
    }

    /// What `agent` settled so far.
    pub fn paid(&self, agent: Address) -> (r: i128)
        ensures
            r == paid_of(self@, agent),
    {
        match self.paid.get(&agent) {
            Some(p) => *p,
            None => 0,
        }
    }

    /// Fund an AI task escrow; returns its id.
    pub fn deposit(&mut self, payer: Address, agent: Address, amount: i128) -> (r: Result<
        u64,
        ContractError,
    >)
        ensures
            (final(self)@, r) == deposited(old(self)@, payer, agent, amount),
    {
        if amount <= 0 {
            return Err(ContractError::NonPositiveAmount);
        }
        let id: u64 = match self.next_escrow {
            Some(n) => n,
            None => 0,
        };
        if id == u64::MAX {
            return Err(ContractError::Overflow);
        }
        self.escrows.insert(id, Escrow { payer, agent, amount, status: ESCROW_OPEN });
        self.next_escrow = Some(id + 1);
        self.events.push(ContractEvent::Deposited { id, payer, agent, amount });
        Ok(id)
    }

    /// Release escrow to the agent after task completion.
    pub fn execute_payment(&mut self, escrow_id: u64, agent: Address) -> (r: Result<
        (),
        ContractError,
    >)
        ensures
            (final(self)@, r) == payment_executed(old(self)@, escrow_id, agent),
    {
        let escrow: Escrow = match self.escrows.get(&escrow_id) {
            Some(e) => *e,
            None => {
                return Err(ContractError::UnknownEscrow);
            },
        };
        if escrow.status != ESCROW_OPEN {
            return Err(ContractError::EscrowNotOpen);
        }
        if escrow.agent != agent {
            return Err(ContractError::AgentMismatch);
        }
        AgentPay::settle(self, agent, escrow.amount)?;
        self.escrows.insert(escrow_id, Escrow { status: ESCROW_EXECUTED, ..escrow });
        self.events.push(
            ContractEvent::Executed { id: escrow_id, payer: escrow.payer, agent, amount: escrow.amount },
        );
        Ok(())
    }

    /// Return escrow to the payer if the task failed or was cancelled.
    pub fn refund(&mut self, escrow_id: u64, payer: Address) -> (r: Result<(), ContractError>)
        ensures
            (final(self)@, r) == refunded(old(self)@, escrow_id, payer),
    {
        let escrow: Escrow = match self.escrows.get(&escrow_id) {
            Some(e) => *e,
            None => {
                return Err(ContractError::UnknownEscrow);
            },
        };
        if escrow.status != ESCROW_OPEN {
            return Err(ContractError::EscrowNotOpen);
        }
        if escrow.payer != payer {
            return Err(ContractError::PayerMismatch);
        }
        self.escrows.insert(escrow_id, Escrow { status: ESCROW_REFUNDED, ..escrow });
        self.events.push(
            ContractEvent::Refunded { id: escrow_id, payer, agent: escrow.agent, amount: escrow.amount },
        );
        Ok(())
    }

    /// The escrow with id `escrow_id`, if any.
    pub fn escrow(&self, escrow_id: u64) -> (r: Option<Escrow>)
        ensures
            r == escrow_of(self@, escrow_id),
    {
        match self.escrows.get(&escrow_id) {
            Some(e) => Some(*e),
            None => None,
        }
    }
}

} // verus!
