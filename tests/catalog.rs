use signal_msg::{all, from_i32, os_number, Signal};

const SIGNALS: [Signal; 11] = [
    Signal::Hup,
    Signal::Int,
    Signal::Quit,
    Signal::Ill,
    Signal::Abrt,
    Signal::Fpe,
    Signal::Kill,
    Signal::Segv,
    Signal::Pipe,
    Signal::Alrm,
    Signal::Term,
];

#[test]
fn supported_numbers_decode() {
    assert_eq!(from_i32(0), Ok(Signal::Hup));
    assert_eq!(from_i32(1), Ok(Signal::Int));
    assert_eq!(from_i32(3), Ok(Signal::Ill));
    assert_eq!(from_i32(4), Ok(Signal::Abrt));
    assert_eq!(from_i32(5), Ok(Signal::Fpe));
    assert_eq!(from_i32(8), Ok(Signal::Pipe));
    assert_eq!(from_i32(9), Ok(Signal::Alrm));
    assert_eq!(from_i32(10), Ok(Signal::Term));
}

#[test]
fn unsupported_numbers_are_refused() {
    assert_eq!(from_i32(2), Err("Got unsupported signal: 2".to_string()));
    assert_eq!(from_i32(6), Err("Got unsupported signal: 6".to_string()));
    assert_eq!(from_i32(7), Err("Got unsupported signal: 7".to_string()));
    assert_eq!(from_i32(11), Err("Got unsupported signal: 11".to_string()));
    assert_eq!(from_i32(-1), Err("Got unsupported signal: -1".to_string()));
    assert_eq!(
        from_i32(i32::MIN),
        Err("Got unsupported signal: -2147483648".to_string())
    );
    assert_eq!(
        from_i32(i32::MAX),
        Err("Got unsupported signal: 2147483647".to_string())
    );
}

#[test]
fn numbers_follow_declaration_order() {
    for (i, s) in SIGNALS.iter().enumerate() {
        assert_eq!(s.to_i32(), i as i32);
    }
}

#[test]
fn catalog_round_trip() {
    let unsupported = [Signal::Quit, Signal::Kill, Signal::Segv];
    for s in SIGNALS.iter() {
        if unsupported.contains(s) {
            assert!(from_i32(s.to_i32()).is_err());
        } else {
            assert_eq!(from_i32(s.to_i32()), Ok(*s));
        }
    }
}

#[test]
fn names_are_conventional() {
    let names = [
        "SIGHUP", "SIGINT", "SIGQUIT", "SIGILL", "SIGABRT", "SIGFPE", "SIGKILL", "SIGSEGV",
        "SIGPIPE", "SIGALRM", "SIGTERM",
    ];
    for (s, n) in SIGNALS.iter().zip(names.iter()) {
        assert_eq!(s.name(), *n);
    }
}

#[test]
fn only_interrupt_and_termination_terminate() {
    for s in SIGNALS.iter() {
        assert_eq!(s.is_terminating(), *s == Signal::Int || *s == Signal::Term);
    }
}

#[test]
fn all_lists_the_supported_signals() {
    let expected = vec![
        simple_signal::Signal::Hup,
        simple_signal::Signal::Int,
        simple_signal::Signal::Ill,
        simple_signal::Signal::Abrt,
        simple_signal::Signal::Fpe,
        simple_signal::Signal::Pipe,
        simple_signal::Signal::Alrm,
        simple_signal::Signal::Term,
    ];
    assert_eq!(all(), expected);
}

#[test]
fn outside_signals_number_as_cast() {
    let outside = [
        simple_signal::Signal::Hup,
        simple_signal::Signal::Int,
        simple_signal::Signal::Quit,
        simple_signal::Signal::Ill,
        simple_signal::Signal::Abrt,
        simple_signal::Signal::Fpe,
        simple_signal::Signal::Kill,
        simple_signal::Signal::Segv,
        simple_signal::Signal::Pipe,
        simple_signal::Signal::Alrm,
        simple_signal::Signal::Term,
    ];
    for o in outside.iter() {
        assert_eq!(os_number(o), *o as i32);
    }
    for o in all().iter() {
        assert!(from_i32(os_number(o)).is_ok());
    }
}
