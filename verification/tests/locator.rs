use rumble::locator::{
    candidate_has_rumble, has_rumble_bit, is_event_node_name, CandidateOutcome, DirectoryEvent,
    LocateAction, LocateError, LocatePhase, Located, Locator,
};
use rumble::Cli;

fn rumble_bits() -> Vec<u64> {
    // FF_RUMBLE is feature code 0x50: bit 16 of word 1.
    vec![0, 1u64 << 16]
}

#[test]
fn explicit_path_skips_the_scan() {
    let cli = Cli {
        length: 100,
        interval: 50,
        count: 3,
        device_path: Some(String::from("/dev/input/event7")),
    };
    let mut l = Locator::new(cli.device_path.is_some());
    let a = l.start();
    assert_eq!(a, LocateAction::OpenExplicitPath);
    let a = l.on_explicit_open(true, 0);
    assert_eq!(a, LocateAction::Finish { result: Ok(Located::Explicit) });
}

#[test]
fn explicit_open_failure_is_fatal_without_scanning() {
    let mut l = Locator::new(true);
    let a = l.start();
    assert_eq!(a, LocateAction::OpenExplicitPath);
    let a = l.on_explicit_open(false, 13);
    // Even though the open failed, the locator finishes instead of falling
    // back to a directory scan.
    assert_eq!(
        a,
        LocateAction::Finish { result: Err(LocateError::OpenFailed { os_error: 13 }) }
    );
    assert!(matches!(l.phase, LocatePhase::Done { .. }));
}

#[test]
fn scan_accepts_first_candidate_with_rumble() {
    let mut l = Locator::new(false);
    let a = l.start();
    assert_eq!(a, LocateAction::ListDirectory);
    let a = l.on_directory(DirectoryEvent::Listed { candidates: 4 });
    assert_eq!(a, LocateAction::ProbeCandidate { index: 0 });

    // Candidate 0 answers the query but lacks the rumble bit.
    let a = l.on_probe(CandidateOutcome::Bits { words: vec![0, 0] });
    assert_eq!(a, LocateAction::ProbeCandidate { index: 1 });
    // Candidate 1 cannot be opened.
    let a = l.on_probe(CandidateOutcome::OpenFailed);
    assert_eq!(a, LocateAction::ProbeCandidate { index: 2 });
    // Candidate 2 has the bit: first match wins, candidate 3 is never probed.
    let a = l.on_probe(CandidateOutcome::Bits { words: rumble_bits() });
    assert_eq!(
        a,
        LocateAction::Finish { result: Ok(Located::ScannedCandidate { index: 2 }) }
    );
}

#[test]
fn scan_with_no_capable_candidate_fails() {
    let mut l = Locator::new(false);
    l.start();
    l.on_directory(DirectoryEvent::Listed { candidates: 2 });
    l.on_probe(CandidateOutcome::QueryFailed);
    let a = l.on_probe(CandidateOutcome::Bits { words: vec![0, 0] });
    assert_eq!(a, LocateAction::Finish { result: Err(LocateError::DeviceNotFound) });
}

#[test]
fn unreadable_directory_fails() {
    let mut l = Locator::new(false);
    l.start();
    let a = l.on_directory(DirectoryEvent::Unreadable);
    assert_eq!(a, LocateAction::Finish { result: Err(LocateError::DeviceNotFound) });
}

#[test]
fn empty_directory_fails() {
    let mut l = Locator::new(false);
    l.start();
    let a = l.on_directory(DirectoryEvent::Listed { candidates: 0 });
    assert_eq!(a, LocateAction::Finish { result: Err(LocateError::DeviceNotFound) });
}

#[test]
fn bitmask_words_cover_all_feature_codes() {
    // The queried bitmask holds one bit per feature code, FF_CNT of them,
    // in as few 64-bit words as possible.
    let words = rumble::effect::FF_BITMASK_WORDS;
    let bits = rumble::effect::FF_CNT as usize;
    assert!(words * 64 >= bits);
    assert!((words - 1) * 64 < bits);
    // The rumble feature code itself is covered.
    assert!((rumble::effect::FF_RUMBLE as usize) < bits);
}

#[test]
fn rumble_bit_lives_at_bit_16_of_word_1() {
    assert!(has_rumble_bit(&rumble_bits()));
    assert!(!has_rumble_bit(&vec![0, 0]));
    // Every bit of word 0 set still does not advertise rumble.
    assert!(!has_rumble_bit(&vec![u64::MAX, 0]));
    // A bitmask too short to hold the bit does not advertise rumble.
    assert!(!has_rumble_bit(&vec![u64::MAX]));
    assert!(!has_rumble_bit(&vec![]));
}

#[test]
fn failed_probes_do_not_advertise_rumble() {
    assert!(!candidate_has_rumble(&CandidateOutcome::OpenFailed));
    assert!(!candidate_has_rumble(&CandidateOutcome::QueryFailed));
    assert!(candidate_has_rumble(&CandidateOutcome::Bits { words: rumble_bits() }));
}

#[test]
fn event_node_names() {
    assert!(is_event_node_name(b"event0"));
    assert!(is_event_node_name(b"event12"));
    assert!(is_event_node_name(b"event007"));
    assert!(!is_event_node_name(b"event"));
    assert!(!is_event_node_name(b"event1a"));
    assert!(!is_event_node_name(b"ev"));
    assert!(!is_event_node_name(b"mouse0"));
    assert!(!is_event_node_name(b"eventt1"));
    assert!(!is_event_node_name(b""));
}
