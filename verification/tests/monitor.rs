use i2c_master::{check_and_clear_error_flags, Error, ErrorKind, Flag, NoAcknowledgeSource, Status};

fn raised(flags: &[Flag]) -> Status {
    let mut status = Status::new();
    for flag in flags {
        match flag {
            Flag::Timeout => status.timeout = true,
            Flag::PecErr => status.pecerr = true,
            Flag::Ovr => status.ovr = true,
            Flag::Af => status.af = true,
            Flag::Arlo => status.arlo = true,
            Flag::Berr => status.berr = true,
        }
    }
    status
}

#[test]
fn clean_status_is_handed_back() {
    let mut status = Status::new();
    status.start = true;
    status.txe = true;
    let checked = check_and_clear_error_flags(status);
    assert_eq!(checked.status, Ok(status));
    assert_eq!(checked.clear, None);
}

#[test]
fn each_flag_reports_its_error() {
    let cases = [
        (Flag::Timeout, Error::Timeout),
        (Flag::PecErr, Error::Crc),
        (Flag::Ovr, Error::Overrun),
        (Flag::Af, Error::Nack),
        (Flag::Arlo, Error::Arbitration),
    ];
    for (flag, error) in cases {
        let checked = check_and_clear_error_flags(raised(&[flag]));
        assert_eq!(checked.status, Err(error));
        assert_eq!(checked.clear, Some(flag));
        assert_eq!(flag.error(), Some(error));
    }
    assert_eq!(Flag::Berr.error(), None);
}

#[test]
fn flags_are_looked_at_in_order() {
    let order = [Flag::Timeout, Flag::PecErr, Flag::Ovr, Flag::Af, Flag::Arlo];
    for first in 0..order.len() {
        let checked = check_and_clear_error_flags(raised(&order[first..]));
        assert_eq!(checked.clear, Some(order[first]));
        assert_eq!(checked.status, Err(order[first].error().unwrap()));
    }
}

#[test]
fn bus_error_is_cleared_and_not_reported() {
    let mut status = raised(&[Flag::Berr]);
    status.addr = true;
    let checked = check_and_clear_error_flags(status);
    assert_eq!(checked.status, Ok(status));
    assert_eq!(checked.clear, Some(Flag::Berr));
    status.clear(Flag::Berr);
    assert!(!status.berr);
    assert!(status.addr);
    let again = check_and_clear_error_flags(status);
    assert_eq!(again.status, Ok(status));
    assert_eq!(again.clear, None);
}

#[test]
fn bus_error_waits_behind_a_failure() {
    let mut status = raised(&[Flag::Berr, Flag::Arlo]);
    let checked = check_and_clear_error_flags(status);
    assert_eq!(checked.status, Err(Error::Arbitration));
    assert_eq!(checked.clear, Some(Flag::Arlo));
    status.clear(Flag::Arlo);
    assert!(status.berr);
    let next = check_and_clear_error_flags(status);
    assert_eq!(next.status, Ok(status));
    assert_eq!(next.clear, Some(Flag::Berr));
}

#[test]
fn unreported_flag_stays_for_the_next_pass() {
    let mut status = raised(&[Flag::Timeout, Flag::Af]);
    status.rxne = true;
    let first = check_and_clear_error_flags(status);
    assert_eq!(first.status, Err(Error::Timeout));
    assert_eq!(first.clear, Some(Flag::Timeout));
    status.clear(Flag::Timeout);
    assert!(!status.timeout);
    assert!(status.af);
    assert!(status.rxne);
    let second = check_and_clear_error_flags(status);
    assert_eq!(second.status, Err(Error::Nack));
    assert_eq!(second.clear, Some(Flag::Af));
    status.clear(Flag::Af);
    let third = check_and_clear_error_flags(status);
    assert_eq!(third.status, Ok(status));
    assert_eq!(third.clear, None);
}

#[test]
fn clear_touches_one_flag_only() {
    let all = [Flag::Timeout, Flag::PecErr, Flag::Ovr, Flag::Af, Flag::Arlo, Flag::Berr];
    for flag in all {
        let mut status = raised(&all);
        status.start = true;
        status.btf = true;
        status.clear(flag);
        let mut expected = raised(&all);
        expected.start = true;
        expected.btf = true;
        match flag {
            Flag::Timeout => expected.timeout = false,
            Flag::PecErr => expected.pecerr = false,
            Flag::Ovr => expected.ovr = false,
            Flag::Af => expected.af = false,
            Flag::Arlo => expected.arlo = false,
            Flag::Berr => expected.berr = false,
        }
        assert_eq!(status, expected);
    }
}

#[test]
fn kinds_of_errors() {
    assert_eq!(Error::Bus.kind(), ErrorKind::Bus);
    assert_eq!(Error::Arbitration.kind(), ErrorKind::ArbitrationLoss);
    assert_eq!(
        Error::Nack.kind(),
        ErrorKind::NoAcknowledge(NoAcknowledgeSource::Unknown)
    );
    assert_eq!(Error::Timeout.kind(), ErrorKind::Other);
    assert_eq!(Error::Crc.kind(), ErrorKind::Other);
    assert_eq!(Error::Overrun.kind(), ErrorKind::Overrun);
    assert_eq!(Error::ZeroLengthTransfer.kind(), ErrorKind::Other);
}
