use pinger::account::Address;
use pinger::contract::Contract;
use pinger::errors::ContractError;
use pinger::events::Event;
use pinger::host::Call;
use pinger::host::Host;

fn addr(b: u8) -> Address {
    Address { bytes: [b; 20] }
}

#[test]
fn fresh_contract_reads_null_sentinel() {
    let c = Contract::new();
    assert!(!c.initialized);
    let r = c.pinger().unwrap();
    assert_eq!(r.bytes, [0u8; 20]);
}

#[test]
fn scenario_full_lifecycle() {
    let x = addr(1);
    let y = addr(2);
    let mut h = Host::deploy();

    // Fresh deployment: the read returns the null sentinel.
    assert_eq!(h.contract.pinger().unwrap().bytes, [0u8; 20]);

    // X pings before claiming: unauthorized, nothing logged.
    let r = h.step(x, Call::Ping);
    assert_eq!(r.unwrap_err(), ContractError::NotPinger.abi_encode());
    assert!(h.log.is_empty());

    // X claims the role.
    assert!(h.step(x, Call::Init).is_ok());
    assert_eq!(h.contract.pinger().unwrap().bytes, x.bytes);

    // X pings: succeeds, Ping logged.
    assert!(h.step(x, Call::Ping).is_ok());
    assert_eq!(h.log, vec![Event::Ping]);

    // Y tries to claim: the role is taken.
    let r = h.step(y, Call::Init);
    assert_eq!(r.unwrap_err(), ContractError::AlreadyInitialized.abi_encode());

    // Y acknowledges: always allowed, payload verbatim.
    let mut tx_hash = [0u8; 32];
    tx_hash[31] = 1;
    assert!(h.step(y, Call::Pong { tx_hash }).is_ok());
    assert_eq!(h.log, vec![Event::Ping, Event::Pong { tx_hash }]);
}

#[test]
fn second_assignment_fails_and_preserves_holder() {
    let x = addr(10);
    let y = addr(20);
    let mut c = Contract::new();
    assert_eq!(c.init(x), Ok(()));
    assert_eq!(c.init(y), Err(ContractError::AlreadyInitialized));
    assert_eq!(c.pinger().unwrap().bytes, x.bytes);
    assert_eq!(c.init(x), Err(ContractError::AlreadyInitialized));
    assert_eq!(c.pinger().unwrap().bytes, x.bytes);
}

#[test]
fn gate_rejects_non_holder() {
    let x = addr(3);
    let y = addr(4);
    let mut c = Contract::new();
    assert_eq!(c.ping(x), Err(ContractError::NotPinger));
    c.init(x).unwrap();
    assert_eq!(c.ping(x), Ok(Event::Ping));
    assert_eq!(c.ping(y), Err(ContractError::NotPinger));
}

#[test]
fn gate_compares_every_byte() {
    let mut x = addr(5);
    let mut c = Contract::new();
    c.init(x).unwrap();
    x.bytes[19] = 6;
    assert_eq!(c.ping(x), Err(ContractError::NotPinger));
    x.bytes[19] = 5;
    assert_eq!(c.ping(x), Ok(Event::Ping));
}

#[test]
fn pong_succeeds_for_any_caller_with_exact_payload() {
    let stranger = addr(9);
    let mut h = Host::deploy();
    let tx_hash = [0xabu8; 32];
    assert!(h.step(stranger, Call::Pong { tx_hash }).is_ok());
    assert_eq!(h.log, vec![Event::Pong { tx_hash }]);
    let ev = Contract::pong([7u8; 32]).unwrap();
    assert_eq!(ev, Event::Pong { tx_hash: [7u8; 32] });
}

#[test]
fn failed_calls_leave_state_and_log_unchanged() {
    let x = addr(1);
    let y = addr(2);
    let mut h = Host::deploy();
    h.step(x, Call::Init).unwrap();
    h.step(x, Call::Ping).unwrap();
    let state_before = (h.contract.initialized, h.contract.pinger.bytes);
    let log_before = h.log.clone();

    assert!(h.step(y, Call::Init).is_err());
    assert!(h.step(y, Call::Ping).is_err());

    assert_eq!((h.contract.initialized, h.contract.pinger.bytes), state_before);
    assert_eq!(h.log, log_before);
}

#[test]
fn assignment_by_null_account_is_recorded() {
    // The host is not expected to authenticate the null account as a caller,
    // but if it ever did, the claim is recorded like any other: the marker is
    // set and the holder slot keeps the zero value it already had.
    let zero = Address::zero();
    let mut c = Contract::new();
    assert_eq!(c.init(zero), Ok(()));
    assert!(c.initialized);
    assert_eq!(c.pinger().unwrap().bytes, [0u8; 20]);
    assert_eq!(c.init(zero), Err(ContractError::AlreadyInitialized));
    assert_eq!(c.ping(zero), Ok(Event::Ping));
}
