use i2c_master::plan::{address, read_bytes, recv_byte, send_byte, write_bytes};
use i2c_master::{Condition, Config, Duty, I2c, Mode, Pull, Setup, State, Step, Timings};

#[test]
fn default_config_pulls_nothing() {
    let config = Config::default();
    assert!(!config.sda_pullup);
    assert!(!config.scl_pullup);
}

#[test]
fn state_can_be_made() {
    let _state: State = State::new();
}

#[test]
fn pull_follows_the_flag() {
    assert_eq!(Pull::from_pullup(true), Pull::Up);
    assert_eq!(Pull::from_pullup(false), Pull::Floating);
}

#[test]
fn new_brings_the_peripheral_up() {
    let mut config = Config::default();
    config.scl_pullup = true;
    let (i2c, setup) = I2c::new(8_000_000, 100_000, config);
    assert_eq!(i2c.timings(), Timings::new(8_000_000, 100_000));
    assert!(i2c.config().scl_pullup);
    assert!(!i2c.config().sda_pullup);
    assert_eq!(
        setup,
        vec![
            Setup::EnableClock,
            Setup::Reset,
            Setup::SclPin(Pull::Up),
            Setup::SdaPin(Pull::Floating),
            Setup::Enable(false),
            Setup::Frequency(8),
            Setup::ClockControl { f_s: false, duty: false, ccr: 40 },
            Setup::RiseTime(9),
            Setup::Enable(true),
        ]
    );
}

#[test]
fn new_in_fast_mode_with_data_pullup() {
    let mut config = Config::default();
    config.sda_pullup = true;
    let (i2c, setup) = I2c::new(42_000_000, 400_000, config);
    assert_eq!(i2c.timings().mode, Mode::Fast);
    assert_eq!(i2c.timings().duty, Duty::Duty2_1);
    assert_eq!(setup[2], Setup::SclPin(Pull::Floating));
    assert_eq!(setup[3], Setup::SdaPin(Pull::Up));
    assert_eq!(setup[5], Setup::Frequency(42));
    assert_eq!(setup[6], Setup::ClockControl { f_s: true, duty: false, ccr: 35 });
    assert_eq!(setup[7], Setup::RiseTime(13));
}

#[test]
fn set_config_writes_the_three_clock_registers() {
    let (mut i2c, _) = I2c::new(8_000_000, 100_000, Config::default());
    let writes = i2c.set_config(8_000_000, 400_000);
    assert_eq!(
        writes,
        vec![
            Setup::Frequency(8),
            Setup::ClockControl { f_s: true, duty: false, ccr: 6 },
            Setup::RiseTime(3),
        ]
    );
    assert_eq!(i2c.timings(), Timings::new(8_000_000, 400_000));
    assert!(!i2c.config().scl_pullup);
}

#[test]
fn set_config_leaves_the_plans_alone() {
    let (mut i2c, _) = I2c::new(8_000_000, 100_000, Config::default());
    let write = i2c.blocking_write(0x3c, &[1, 2, 3]).steps().clone();
    let read = i2c.blocking_read(0x3c, 4).steps().clone();
    let both = i2c.blocking_write_read(0x3c, &[9], 2).steps().clone();
    i2c.set_config(36_000_000, 400_000);
    assert_eq!(i2c.blocking_write(0x3c, &[1, 2, 3]).steps(), &write);
    assert_eq!(i2c.blocking_read(0x3c, 4).steps(), &read);
    assert_eq!(i2c.blocking_write_read(0x3c, &[9], 2).steps(), &both);
}

#[test]
fn address_byte_carries_the_direction() {
    assert_eq!(address(0x50, false), 0xa0);
    assert_eq!(address(0x50, true), 0xa1);
    assert_eq!(address(0x00, false), 0x00);
    assert_eq!(address(0x00, true), 0x01);
    assert_eq!(address(0x7f, false), 0xfe);
    assert_eq!(address(0x7f, true), 0xff);
    assert_eq!(address(0xd0, false), 0xa0);
    assert_eq!(address(0xff, true), 0xff);
}

#[test]
fn plan_of_a_write() {
    let (i2c, _) = I2c::new(8_000_000, 100_000, Config::default());
    let transfer = i2c.blocking_write(0x50, &[0x10, 0x20]);
    assert_eq!(
        transfer.steps(),
        &vec![
            Step::Start { ack: false },
            Step::Await(Condition::Started),
            Step::Await(Condition::Master),
            Step::Send(0xa0),
            Step::Await(Condition::Addressed),
            Step::ClearAddr,
            Step::Await(Condition::TxEmpty),
            Step::Send(0x10),
            Step::Await(Condition::Transferred),
            Step::Await(Condition::TxEmpty),
            Step::Send(0x20),
            Step::Await(Condition::Transferred),
            Step::Stop,
            Step::Await(Condition::Stopped),
        ]
    );
}

#[test]
fn plan_of_an_empty_write() {
    let (i2c, _) = I2c::new(8_000_000, 100_000, Config::default());
    let transfer = i2c.blocking_write(0x50, &[]);
    assert_eq!(
        transfer.steps(),
        &vec![
            Step::Start { ack: false },
            Step::Await(Condition::Started),
            Step::Await(Condition::Master),
            Step::Send(0xa0),
            Step::Await(Condition::Addressed),
            Step::ClearAddr,
            Step::Stop,
            Step::Await(Condition::Stopped),
        ]
    );
}

#[test]
fn plan_of_a_read() {
    let (i2c, _) = I2c::new(8_000_000, 100_000, Config::default());
    let transfer = i2c.blocking_read(0x50, 3);
    assert_eq!(
        transfer.steps(),
        &vec![
            Step::Start { ack: true },
            Step::Await(Condition::Started),
            Step::Await(Condition::Master),
            Step::Send(0xa1),
            Step::Await(Condition::Addressed),
            Step::ClearAddr,
            Step::Await(Condition::RxNotEmpty),
            Step::Receive,
            Step::Await(Condition::RxNotEmpty),
            Step::Receive,
            Step::NackStop,
            Step::Await(Condition::RxNotEmpty),
            Step::Receive,
            Step::Await(Condition::Stopped),
        ]
    );
}

#[test]
fn plan_of_a_read_of_one_byte() {
    let (i2c, _) = I2c::new(8_000_000, 100_000, Config::default());
    let transfer = i2c.blocking_read(0x50, 1);
    assert_eq!(
        transfer.steps(),
        &vec![
            Step::Start { ack: true },
            Step::Await(Condition::Started),
            Step::Await(Condition::Master),
            Step::Send(0xa1),
            Step::Await(Condition::Addressed),
            Step::ClearAddr,
            Step::NackStop,
            Step::Await(Condition::RxNotEmpty),
            Step::Receive,
            Step::Await(Condition::Stopped),
        ]
    );
}

#[test]
fn plan_of_a_write_read() {
    let (i2c, _) = I2c::new(8_000_000, 100_000, Config::default());
    let transfer = i2c.blocking_write_read(0x50, &[0x01], 2);
    assert_eq!(
        transfer.steps(),
        &vec![
            Step::Start { ack: false },
            Step::Await(Condition::Started),
            Step::Await(Condition::Master),
            Step::Send(0xa0),
            Step::Await(Condition::Addressed),
            Step::ClearAddr,
            Step::Await(Condition::TxEmpty),
            Step::Send(0x01),
            Step::Await(Condition::Transferred),
            Step::Start { ack: true },
            Step::Await(Condition::Started),
            Step::Await(Condition::Master),
            Step::Send(0xa1),
            Step::Await(Condition::Addressed),
            Step::ClearAddr,
            Step::Await(Condition::RxNotEmpty),
            Step::Receive,
            Step::NackStop,
            Step::Await(Condition::RxNotEmpty),
            Step::Receive,
            Step::Await(Condition::Stopped),
        ]
    );
}

#[test]
fn plan_pieces_append() {
    let mut steps = vec![Step::Stop];
    send_byte(&mut steps, 7);
    recv_byte(&mut steps);
    assert_eq!(
        steps,
        vec![
            Step::Stop,
            Step::Await(Condition::TxEmpty),
            Step::Send(7),
            Step::Await(Condition::Transferred),
            Step::Await(Condition::RxNotEmpty),
            Step::Receive,
        ]
    );
    let mut steps = Vec::new();
    write_bytes(&mut steps, 0x11, &[]);
    assert_eq!(steps.len(), 6);
    assert_eq!(steps[3], Step::Send(0x22));
    read_bytes(&mut steps, 0x11, 0);
    assert_eq!(steps.len(), 7);
    assert_eq!(steps[6], Step::Fail(i2c_master::Error::Overrun));
}
