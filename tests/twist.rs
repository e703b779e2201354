// Loop control on a single loop: each signal is checked against the loop it acts on, then
// carried out by a `match`.

use tear::{BreakKind, BreakValError, Judge, Looping};

#[test]
fn simple_break() {
    loop {
        let signal: Looping<(), BreakValError> = Looping::Break { label: None };
        if let Err(e) = signal.check_single(BreakKind::Plain) {
            panic!("{}", e.message());
        }
        match signal {
            Looping::Resume(v) => v,
            Looping::Break { .. } => break,
            Looping::Continue { .. } => continue,
            Looping::BreakVal { .. } => unreachable!(),
        }
        panic!("Should have broken");
    }
}

#[test]
fn simple_continue() {
    let mut i = 0;
    loop {
        i += 1;
        if i > 4 {
            break;
        }

        let signal: Looping<(), BreakValError> = Looping::Continue { label: None };
        if let Err(e) = signal.check_single(BreakKind::Plain) {
            panic!("{}", e.message());
        }
        match signal {
            Looping::Resume(v) => v,
            Looping::Break { .. } => break,
            Looping::Continue { .. } => continue,
            Looping::BreakVal { .. } => unreachable!(),
        }
        panic!("Should be skipped over");
    }
    assert_eq![i, 5]
}

#[test]
fn simple_resume() {
    let mut i = 0;
    #[allow(clippy::never_loop)]
    loop {
        let signal: Looping<i32, BreakValError> = Looping::Resume(6);
        if let Err(e) = signal.check_single(BreakKind::Plain) {
            panic!("{}", e.message());
        }
        i = match signal {
            Looping::Resume(v) => v,
            Looping::Break { .. } => break,
            Looping::Continue { .. } => continue,
            Looping::BreakVal { .. } => unreachable!(),
        };
        break;
    }
    assert_eq![i, 6];
}

#[test]
fn simple_breakval() {
    let x = loop {
        let signal: Looping<(), i32> = Looping::BreakVal { label: None, value: 5 };
        if let Err(e) = signal.check_single(BreakKind::Value) {
            panic!("{}", e.message());
        }
        match signal {
            Looping::Resume(v) => v,
            Looping::Break { .. } => unreachable!(),
            Looping::Continue { .. } => continue,
            Looping::BreakVal { value, .. } => break value,
        }
        panic!("Should have broken");
    };
    assert_eq![x, 5];
}

#[test]
fn labeled_break() {
    'a: loop {
        loop {
            let signal: Looping<(), BreakValError> = Looping::Break { label: None };
            if let Err(e) = signal.check_single(BreakKind::Plain) {
                panic!("{}", e.message());
            }
            match signal {
                Looping::Resume(v) => v,
                Looping::Break { .. } => break 'a,
                Looping::Continue { .. } => continue 'a,
                Looping::BreakVal { .. } => unreachable!(),
            }
            panic!("Should have broken");
        }
    }
}

#[test]
fn labeled_continue() {
    let mut i = 0;
    'a: loop {
        i += 1;
        loop {
            if i > 2 {
                break 'a;
            }

            let signal: Looping<(), BreakValError> = Looping::Continue { label: None };
            if let Err(e) = signal.check_single(BreakKind::Plain) {
                panic!("{}", e.message());
            }
            match signal {
                Looping::Resume(v) => v,
                Looping::Break { .. } => break 'a,
                Looping::Continue { .. } => continue 'a,
                Looping::BreakVal { .. } => unreachable!(),
            }
            panic!("Should have broken");
        }
    }
    assert_eq![i, 3];
}

#[test]
fn labeled_resume() {
    let mut i = 0;
    #[allow(clippy::never_loop)]
    'a: loop {
        loop {
            let signal: Looping<i32, BreakValError> = Looping::Resume(9);
            if let Err(e) = signal.check_single(BreakKind::Plain) {
                panic!("{}", e.message());
            }
            i = match signal {
                Looping::Resume(v) => v,
                Looping::Break { .. } => break 'a,
                Looping::Continue { .. } => continue 'a,
                Looping::BreakVal { .. } => unreachable!(),
            };
            break;
        }
        break;
    }
    assert_eq![i, 9];
}

#[test]
fn labeled_breakval() {
    let x = 'a: loop {
        loop {
            let signal: Looping<(), i32> = Looping::BreakVal { label: None, value: 5 };
            if let Err(e) = signal.check_single(BreakKind::Value) {
                panic!("{}", e.message());
            }
            match signal {
                Looping::Resume(v) => v,
                Looping::Break { .. } => unreachable!(),
                Looping::Continue { .. } => continue 'a,
                Looping::BreakVal { value, .. } => break 'a value,
            }
        }
    };
    assert_eq![x, 5];
}

#[test]
fn map_breakval() {
    let x = loop {
        let signal = Judge::into_moral(Err::<i32, _>("failed"))
            .resume_or_else(|_| Looping::BreakVal { label: None, value: 8 });
        if let Err(e) = signal.check_single(BreakKind::Value) {
            panic!("{}", e.message());
        }
        let _ = match signal {
            Looping::Resume(v) => v,
            Looping::Break { .. } => unreachable!(),
            Looping::Continue { .. } => continue,
            Looping::BreakVal { value, .. } => break value,
        };
        break 3;
    };
    assert_eq![x, 8];
}

#[test]
fn map_break_labeled() {
    let mut v = 0;
    #[allow(clippy::never_loop)]
    'a: loop {
        let signal = Judge::into_moral(Some(3))
            .resume_or_else(|_| Looping::<_, BreakValError>::Break { label: None });
        if let Err(e) = signal.check_single(BreakKind::Plain) {
            panic!("{}", e.message());
        }
        v = match signal {
            Looping::Resume(v) => v,
            Looping::Break { .. } => break 'a,
            Looping::Continue { .. } => continue 'a,
            Looping::BreakVal { .. } => unreachable!(),
        };
        break;
    }
    assert_eq![v, 3];
}
