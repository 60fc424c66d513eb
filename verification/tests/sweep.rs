use imap_sec::probe::{AllowedResult, ProbeEvent, ProbeKind, ProbeSession, SessionInput};
use imap_sec::sweep::Sweep;

#[test]
fn sweep_produces_one_entry_per_byte_value() {
    let mut sweep = Sweep::new();
    let mut proposed = Vec::new();
    while let Some(byte) = sweep.next_byte() {
        proposed.push(byte);
        sweep.record(AllowedResult::Reflected);
    }
    assert!(sweep.complete());

    let expected: Vec<u8> = (0..=255).collect();
    assert_eq!(proposed, expected);

    let table = sweep.into_table();
    assert_eq!(table.len(), 256);
    for (i, entry) in table.iter().enumerate() {
        assert_eq!(entry.0 as usize, i);
        assert_eq!(entry.1, (i as u8) as char);
        assert_eq!(entry.2, AllowedResult::Reflected);
    }
}

#[test]
fn sweep_keys_entries_by_byte_and_character() {
    let mut sweep = Sweep::new();
    for byte in 0..=255u32 {
        assert!(!sweep.complete());
        assert_eq!(sweep.next_byte(), Some(byte as u8));
        let verdict = if byte % 2 == 0 {
            AllowedResult::Reflected
        } else {
            AllowedResult::Bad
        };
        sweep.record(verdict);
    }
    assert_eq!(sweep.next_byte(), None);

    let table = sweep.into_table();
    assert_eq!(table[65], (65u8, 'A', AllowedResult::Bad));
    assert_eq!(table[0].0, 0);
    assert_eq!(table[0].1, '\0');
    assert_eq!(table[255].0, 255);
    assert_eq!(table[10], (10u8, '\n', AllowedResult::Reflected));
}

#[test]
fn sweep_driven_by_sessions_records_every_classification() {
    // One session per byte value against a simulated server: values below
    // 128 echo intact, the rest come back corrupted.
    let mut sweep = Sweep::new();
    while let Some(byte) = sweep.next_byte() {
        let mut session = ProbeSession::new(ProbeKind::AllowedTag { byte });
        session.step(SessionInput::Connected);
        session.step(SessionInput::Event(ProbeEvent::Greeting));
        let echoed = if byte < 128 {
            vec![b'A', byte]
        } else {
            vec![b'A']
        };
        session.step(SessionInput::Event(ProbeEvent::TaggedStatus {
            tag: echoed,
            kind: imap_sec::probe::StatusKind::Okay,
        }));
        let verdict = session.verdict().unwrap();
        let classification = match verdict {
            imap_sec::probe::Verdict::Classified(c) => c,
            _ => panic!("enumeration probe must classify"),
        };
        sweep.record(classification);
    }
    let table = sweep.into_table();
    assert_eq!(table.len(), 256);
    assert_eq!(table[0].2, AllowedResult::Reflected);
    assert_eq!(table[127].2, AllowedResult::Reflected);
    assert_eq!(table[128].2, AllowedResult::ReflectedBroken);
    assert_eq!(table[255].2, AllowedResult::ReflectedBroken);
}
