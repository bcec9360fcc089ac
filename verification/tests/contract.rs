use agent_devex::contract::{AgentPayIntegration, ContractError, ContractEvent};

fn setup() -> (u64, u64, u64, AgentPayIntegration) {
    let mut client = AgentPayIntegration::new();
    let admin = 1;
    let payer = 2;
    let agent = 3;
    client.initialize(admin).unwrap();
    (admin, payer, agent, client)
}

#[test]
fn deposit_records_open_escrow() {
    let (_admin, payer, agent, mut client) = setup();
    let id = client.deposit(payer, agent, 100).unwrap();
    assert_eq!(id, 0);
    let escrow = client.escrow(id).unwrap();
    assert_eq!(escrow.amount, 100);
    assert_eq!(escrow.status, 0);
    assert_eq!(escrow.payer, payer);
    assert_eq!(escrow.agent, agent);
}

#[test]
fn execute_payment_settles_and_closes() {
    let (_admin, payer, agent, mut client) = setup();
    let id = client.deposit(payer, agent, 50).unwrap();
    client.execute_payment(id, agent).unwrap();
    let escrow = client.escrow(id).unwrap();
    assert_eq!(escrow.status, 1);
    assert_eq!(client.paid(agent), 50);
}

#[test]
fn refund_closes_without_settlement() {
    let (_admin, payer, agent, mut client) = setup();
    let id = client.deposit(payer, agent, 25).unwrap();
    client.refund(id, payer).unwrap();
    let escrow = client.escrow(id).unwrap();
    assert_eq!(escrow.status, 2);
    assert_eq!(client.paid(agent), 0);
}

#[test]
fn released_escrow_cannot_be_released_again() {
    let (_admin, payer, agent, mut client) = setup();
    let id = client.deposit(payer, agent, 10).unwrap();
    client.execute_payment(id, agent).unwrap();
    assert_eq!(client.execute_payment(id, agent), Err(ContractError::EscrowNotOpen));
    assert_eq!(client.refund(id, payer), Err(ContractError::EscrowNotOpen));
    assert_eq!(client.paid(agent), 10);

    let id2 = client.deposit(payer, agent, 7).unwrap();
    assert_eq!(id2, 1);
    client.refund(id2, payer).unwrap();
    assert_eq!(client.execute_payment(id2, agent), Err(ContractError::EscrowNotOpen));
    assert_eq!(client.paid(agent), 10);
}

#[test]
fn escrow_calls_check_parties_and_amounts() {
    let (_admin, payer, agent, mut client) = setup();
    assert_eq!(client.deposit(payer, agent, 0), Err(ContractError::NonPositiveAmount));
    assert_eq!(client.execute_payment(5, agent), Err(ContractError::UnknownEscrow));
    let id = client.deposit(payer, agent, 5).unwrap();
    assert_eq!(client.execute_payment(id, payer), Err(ContractError::AgentMismatch));
    assert_eq!(client.refund(id, agent), Err(ContractError::PayerMismatch));
    assert_eq!(client.escrow(id).unwrap().status, 0);
    assert_eq!(client.escrow(9), None);
}

#[test]
fn initialize_only_once() {
    let (admin, _payer, _agent, mut client) = setup();
    assert_eq!(client.initialize(admin), Err(ContractError::AlreadyInitialized));
}

#[test]
fn agent_actions_need_the_allowlist() {
    let (admin, _payer, agent, mut client) = setup();
    assert_eq!(
        client.execute_agent_action(agent, "swap", 5),
        Err(ContractError::NotAuthorized)
    );
    client.allow_agent(admin, agent).unwrap();
    client.execute_agent_action(agent, "swap", 5).unwrap();
    client.execute_agent_action(agent, "buy", 3).unwrap();
    assert_eq!(client.paid(agent), 8);
    assert_eq!(client.last_action().as_deref(), Some("buy"));
    assert_eq!(
        client.execute_agent_action(agent, "sell", -1),
        Err(ContractError::NonPositiveAmount)
    );
    assert_eq!(client.last_action().as_deref(), Some("buy"));
}

#[test]
fn settlement_overflow_is_refused() {
    let (admin, _payer, agent, mut client) = setup();
    client.allow_agent(admin, agent).unwrap();
    client.execute_agent_action(agent, "big", i128::MAX).unwrap();
    assert_eq!(client.execute_agent_action(agent, "more", 1), Err(ContractError::Overflow));
    assert_eq!(client.paid(agent), i128::MAX);
}

#[test]
fn events_record_each_escrow_step() {
    let (_admin, payer, agent, mut client) = setup();
    let id = client.deposit(payer, agent, 4).unwrap();
    client.execute_payment(id, agent).unwrap();
    assert_eq!(
        client.events,
        vec![
            ContractEvent::Deposited { id, payer, agent, amount: 4 },
            ContractEvent::Executed { id, payer, agent, amount: 4 },
        ]
    );
}

#[test]
fn only_the_admin_allows_agents() {
    let (admin, payer, agent, mut client) = setup();
    assert_eq!(client.allow_agent(payer, agent), Err(ContractError::NotAuthorized));
    assert_eq!(
        client.execute_agent_action(agent, "swap", 5),
        Err(ContractError::NotAuthorized)
    );
    assert_eq!(client.allow_agent(admin, agent), Ok(()));
    client.execute_agent_action(agent, "swap", 5).unwrap();
}

#[test]
fn allow_agent_before_initialize_is_refused() {
    let mut client = AgentPayIntegration::new();
    assert_eq!(client.allow_agent(1, 3), Err(ContractError::NotAuthorized));
    assert_eq!(client.execute_agent_action(3, "swap", 5), Err(ContractError::NotAuthorized));
}
