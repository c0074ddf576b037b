//! Protocol-engine tests: wire framing, the two-transaction single read, the
//! single-transaction write, the pipelined bulk sequencer, status-byte
//! freshness, and the abort-on-error semantics, all exercised against the
//! scripted transport.

use tmc5130::reg::{Address, State, CHOPCONF, GCONF, GSTAT, SPISTATUS};
use tmc5130::transport::{ScriptedTransport, TransportError};
use tmc5130::{Action, Tmc5130};

fn scripted(responses: &[[u8; 5]]) -> ScriptedTransport {
    let mut script: Vec<Vec<u8>> = Vec::new();
    for r in responses {
        script.push(r.to_vec());
    }
    ScriptedTransport::new(script)
}

#[test]
fn test_get_touch_no_irq() {
    // One write-framed transaction carrying the configured CHOPCONF word.
    let mut driver = Tmc5130::new(scripted(&[[0x07, 0, 0, 0, 0]]));
    let mut chopconf = CHOPCONF::default();
    chopconf.set_toff(3);
    chopconf.set_hstrt(4);
    chopconf.set_hend(1);
    chopconf.set_tbl(2);
    chopconf.set_chm(false);
    assert_eq!(chopconf, CHOPCONF(0x000100C3));
    let status = driver.write_register(chopconf).unwrap();
    assert_eq!(status, SPISTATUS(0x07));
    let spi = driver.release();
    assert_eq!(spi.log.len(), 1);
    assert_eq!(spi.log[0].sent, vec![0xEC, 0x00, 0x01, 0x00, 0xC3]);
}

#[test]
fn test_get_touch_irq() {
    // Creating the driver issues no transaction at all.
    let driver = Tmc5130::new(scripted(&[[0, 0, 0, 0, 0]]));
    let spi = driver.release();
    assert_eq!(spi.log.len(), 0);
}

#[test]
fn read_register_uses_two_identical_transactions() {
    let mut driver = Tmc5130::new(scripted(&[
        [0xA1, 1, 2, 3, 4],
        [0xB2, 5, 6, 7, 8],
    ]));
    let (status, value): (SPISTATUS, GCONF) = driver.read_register::<GCONF>().unwrap();
    // The value decodes the second transaction's data phase only, and the
    // returned status byte is the second transaction's address-phase echo.
    assert_eq!(value, GCONF(0x05060708));
    assert_eq!(status, SPISTATUS(0xB2));
    let spi = driver.release();
    assert_eq!(spi.log.len(), 2);
    assert_eq!(spi.log[0].sent, vec![0x00, 0, 0, 0, 0]);
    assert_eq!(spi.log[1].sent, vec![0x00, 0, 0, 0, 0]);
}

#[test]
fn read_register_propagates_first_transaction_error() {
    let mut driver = Tmc5130::new(scripted(&[]));
    let r = driver.read_register::<GSTAT>();
    assert_eq!(r, Err(TransportError));
    assert_eq!(driver.release().log.len(), 0);
}

#[test]
fn read_register_propagates_second_transaction_error() {
    let mut driver = Tmc5130::new(scripted(&[[0x00, 0, 0, 0, 0]]));
    let r = driver.read_register::<GSTAT>();
    assert_eq!(r, Err(TransportError));
    assert_eq!(driver.release().log.len(), 1);
}

#[test]
fn write_register_uses_one_transaction() {
    let mut driver = Tmc5130::new(scripted(&[[0x5A, 9, 9, 9, 9]]));
    let status = driver.write_register(GCONF(0x01020304)).unwrap();
    assert_eq!(status, SPISTATUS(0x5A));
    let spi = driver.release();
    assert_eq!(spi.log.len(), 1);
    // Address phase: GCONF with the write bit set; data phase big-endian.
    assert_eq!(spi.log[0].sent, vec![0x80, 0x01, 0x02, 0x03, 0x04]);
}

#[test]
fn write_register_propagates_error_without_transactions() {
    let mut driver = Tmc5130::new(scripted(&[]));
    let r = driver.write_register(GCONF(1));
    assert_eq!(r, Err(TransportError));
    assert_eq!(driver.release().log.len(), 0);
}

#[test]
fn bulk_write_read_read_uses_four_transactions() {
    // Actions [Write(GCONF, 1), Read(GSTAT), Read(CHOPCONF)]: three
    // transactions plus the trailing retrieval, since the batch ends in a
    // read.
    let mut driver = Tmc5130::new(scripted(&[
        [0x10, 0xDE, 0xAD, 0xBE, 0xEF],
        [0x20, 0x00, 0x00, 0x00, 0x05],
        [0x30, 0x00, 0x00, 0x00, 0x06],
        [0x40, 0x00, 0x00, 0x00, 0x07],
    ]));
    let mut actions = vec![
        Action::Write(State::from_addr_and_data(Address::GCONF, 1)),
        Action::Read(State::from_addr_and_data(Address::GSTAT, 0)),
        Action::Read(State::from_addr_and_data(Address::CHOPCONF, 0)),
    ];
    let status = driver.bulk_register_action(&mut actions).unwrap();
    // Status byte of the last transaction actually sent.
    assert_eq!(status, SPISTATUS(0x40));
    // Read(GSTAT)'s resolved value is the data phase of transaction 2 (the
    // one following its own), Read(CHOPCONF)'s is the trailing transaction's.
    assert_eq!(
        actions[1],
        Action::Read(State::from_addr_and_data(Address::GSTAT, 6))
    );
    assert_eq!(
        actions[2],
        Action::Read(State::from_addr_and_data(Address::CHOPCONF, 7))
    );
    assert_eq!(actions[0], Action::Write(State::from_addr_and_data(Address::GCONF, 1)));
    let spi = driver.release();
    assert_eq!(spi.log.len(), 4);
    assert_eq!(spi.log[0].sent, vec![0x80, 0, 0, 0, 1]);
    assert_eq!(spi.log[1].sent, vec![0x01, 0, 0, 0, 0]);
    assert_eq!(spi.log[2].sent, vec![0x6C, 0, 0, 0, 0]);
    // The trailing transaction re-sends the final read's framing.
    assert_eq!(spi.log[3].sent, vec![0x6C, 0, 0, 0, 0]);
}

#[test]
fn bulk_ending_in_write_has_no_trailing_transaction() {
    let mut driver = Tmc5130::new(scripted(&[
        [0x11, 0x00, 0x00, 0x00, 0x09],
        [0x22, 0x00, 0x00, 0x01, 0x00],
    ]));
    let mut actions = vec![
        Action::Read(State::from_addr_and_data(Address::GSTAT, 0)),
        Action::Write(State::from_addr_and_data(Address::GCONF, 2)),
    ];
    let status = driver.bulk_register_action(&mut actions).unwrap();
    assert_eq!(status, SPISTATUS(0x22));
    // The read is resolved by the write transaction that follows it.
    assert_eq!(
        actions[0],
        Action::Read(State::from_addr_and_data(Address::GSTAT, 0x100))
    );
    let spi = driver.release();
    assert_eq!(spi.log.len(), 2);
    assert_eq!(spi.log[0].sent, vec![0x01, 0, 0, 0, 0]);
    assert_eq!(spi.log[1].sent, vec![0x80, 0, 0, 0, 2]);
}

#[test]
fn bulk_single_read_takes_two_transactions() {
    // The off-by-one boundary case: a one-action all-read batch still needs
    // the trailing transaction, and resolves from the second one.
    let mut driver = Tmc5130::new(scripted(&[
        [0x31, 0, 0, 0, 0x0A],
        [0x32, 0, 0, 0, 0x0B],
    ]));
    let mut actions = vec![Action::Read(State::from_addr_and_data(Address::GSTAT, 0))];
    let status = driver.bulk_register_action(&mut actions).unwrap();
    assert_eq!(status, SPISTATUS(0x32));
    assert_eq!(
        actions[0],
        Action::Read(State::from_addr_and_data(Address::GSTAT, 0x0B))
    );
    assert_eq!(driver.release().log.len(), 2);
}

#[test]
fn bulk_empty_batch_sends_nothing() {
    let mut driver = Tmc5130::new(scripted(&[]));
    let mut actions: Vec<Action> = Vec::new();
    let status = driver.bulk_register_action(&mut actions).unwrap();
    assert_eq!(status, SPISTATUS(0));
    assert_eq!(driver.release().log.len(), 0);
}

#[test]
fn bulk_error_aborts_remaining_actions() {
    // The script covers only the first transaction, so the second fails:
    // nothing after it is sent, every unresolved read keeps its stale
    // state, and the error comes back unchanged.
    let mut driver = Tmc5130::new(scripted(&[[0x44, 1, 2, 3, 4]]));
    let mut actions = vec![
        Action::Read(State::from_addr_and_data(Address::GSTAT, 0)),
        Action::Read(State::from_addr_and_data(Address::GCONF, 0)),
        Action::Read(State::from_addr_and_data(Address::CHOPCONF, 0)),
    ];
    let r = driver.bulk_register_action(&mut actions);
    assert_eq!(r, Err(TransportError));
    assert_eq!(actions[0], Action::Read(State::from_addr_and_data(Address::GSTAT, 0)));
    assert_eq!(actions[1], Action::Read(State::from_addr_and_data(Address::GCONF, 0)));
    assert_eq!(actions[2], Action::Read(State::from_addr_and_data(Address::CHOPCONF, 0)));
    assert_eq!(driver.release().log.len(), 1);
}

#[test]
fn bulk_error_keeps_already_resolved_reads() {
    // Three reads with a script of two responses: transactions 1 and 2
    // complete (resolving the first read), transaction 3 fails.
    let mut driver = Tmc5130::new(scripted(&[
        [0x51, 0, 0, 0, 1],
        [0x52, 0, 0, 0, 2],
    ]));
    let mut actions = vec![
        Action::Read(State::from_addr_and_data(Address::GSTAT, 0)),
        Action::Read(State::from_addr_and_data(Address::GCONF, 0)),
        Action::Read(State::from_addr_and_data(Address::CHOPCONF, 0)),
    ];
    let r = driver.bulk_register_action(&mut actions);
    assert_eq!(r, Err(TransportError));
    assert_eq!(actions[0], Action::Read(State::from_addr_and_data(Address::GSTAT, 2)));
    assert_eq!(actions[1], Action::Read(State::from_addr_and_data(Address::GCONF, 0)));
    assert_eq!(actions[2], Action::Read(State::from_addr_and_data(Address::CHOPCONF, 0)));
    assert_eq!(driver.release().log.len(), 2);
}

#[test]
fn as_u32_be_reads_big_endian() {
    let bytes: [u8; 4] = [0xDE, 0xAD, 0xBE, 0xEF];
    assert_eq!(Tmc5130::<ScriptedTransport>::as_u32_be(&bytes), 0xDEADBEEF);
}
