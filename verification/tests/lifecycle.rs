use tl_mbox::evt::EvtBox;
use tl_mbox::lifecycle::{step, Lifecycle, Operation, Transition};

/// Runs `ops` on a handle over `location` and collects what is released.
fn run(ops: &[Operation], location: usize) -> (Lifecycle, Vec<usize>) {
    let mut state = Lifecycle::Constructed;
    let mut released = Vec::new();
    for op in ops {
        let t = step(state, *op, location);
        state = t.next;
        if let Some(l) = t.release {
            released.push(l);
        }
    }
    (state, released)
}

#[test]
fn each_transition() {
    let loc = 0x2003_0000;
    let quiet = |next| Transition { next, release: None };
    assert_eq!(step(Lifecycle::Constructed, Operation::Read, loc), quiet(Lifecycle::Readable));
    assert_eq!(step(Lifecycle::Readable, Operation::Read, loc), quiet(Lifecycle::Readable));
    assert_eq!(
        step(Lifecycle::Constructed, Operation::EndOfLife, loc),
        Transition { next: Lifecycle::Released, release: Some(loc) }
    );
    assert_eq!(
        step(Lifecycle::Readable, Operation::EndOfLife, loc),
        Transition { next: Lifecycle::Released, release: Some(loc) }
    );
    assert_eq!(step(Lifecycle::Released, Operation::Read, loc), quiet(Lifecycle::Released));
    assert_eq!(step(Lifecycle::Released, Operation::EndOfLife, loc), quiet(Lifecycle::Released));
}

#[test]
fn one_release_whatever_the_number_of_reads() {
    for reads in [0usize, 1, 2, 17] {
        let mut ops = vec![Operation::Read; reads];
        ops.push(Operation::EndOfLife);
        assert_eq!(run(&ops, 0xBEEF), (Lifecycle::Released, vec![0xBEEF]));
    }
}

#[test]
fn nothing_is_released_while_the_handle_lives() {
    assert_eq!(run(&[], 4), (Lifecycle::Constructed, vec![]));
    assert_eq!(run(&[Operation::Read; 5], 4), (Lifecycle::Readable, vec![]));
}

#[test]
fn nothing_is_released_twice() {
    let ops = [
        Operation::Read,
        Operation::EndOfLife,
        Operation::EndOfLife,
        Operation::Read,
        Operation::EndOfLife,
    ];
    assert_eq!(run(&ops, 12), (Lifecycle::Released, vec![12]));
}

#[test]
fn a_handle_releases_its_own_location() {
    let memory = [0, 0, 0, 0, 0, 0, 0, 0, 0x12, 0x92, 0, 0];
    let evt_box = EvtBox::new(0x2003_0A00, &memory);
    let mut state = Lifecycle::Constructed;
    let mut released = Vec::new();
    for op in [Operation::Read, Operation::Read, Operation::EndOfLife, Operation::EndOfLife] {
        let _ = evt_box.size();
        let t = evt_box.advance(state, op);
        assert_eq!(t, step(state, op, evt_box.location()));
        state = t.next;
        released.extend(t.release);
    }
    assert_eq!(state, Lifecycle::Released);
    assert_eq!(released, vec![0x2003_0A00]);
}

#[test]
fn failed_reads_do_not_change_the_release() {
    let memory = [0, 0, 0, 0, 0, 0, 0, 0, 0xFF, 0x92, 0, 0];
    let evt_box = EvtBox::new(0x2003_0B00, &memory);
    assert!(evt_box.size().is_err());
    let mut none: [u8; 0] = [];
    assert!(evt_box.copy_into_slice(&mut none).is_err());
    let t = evt_box.advance(Lifecycle::Constructed, Operation::Read);
    assert_eq!(t, Transition { next: Lifecycle::Readable, release: None });
    let t = evt_box.advance(t.next, Operation::EndOfLife);
    assert_eq!(t, Transition { next: Lifecycle::Released, release: Some(0x2003_0B00) });
}
