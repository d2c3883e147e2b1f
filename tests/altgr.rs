use winit::altgr::{AltGrDetector, AltGrStep};

/// Runs the detector's probe against a table of characters, counting the
/// look-ups asked for.
fn run(d: &mut AltGrDetector, hkl: u64, table: &dyn Fn(u32) -> (Option<char>, Option<char>), probes: &mut u32) -> bool {
    let mut step = d.layout_uses_altgr(hkl);
    loop {
        match step {
            AltGrStep::Known(b) => return b,
            AltGrStep::Probe(k) => {
                *probes += 1;
                let (plain, altgr) = table(k);
                step = d.feed(plain, altgr);
            }
        }
    }
}

fn german(k: u32) -> (Option<char>, Option<char>) {
    match k {
        0x51 => (Some('q'), Some('@')),
        0x41..=0x5A => (Some('a'), None),
        _ => (None, None),
    }
}

fn us(k: u32) -> (Option<char>, Option<char>) {
    match k {
        0x41..=0x5A => (Some('a'), None),
        0x30 => (Some('0'), Some('0')),
        _ => (None, None),
    }
}

#[test]
fn second_query_for_same_layout_uses_cache() {
    let mut d = AltGrDetector::new();
    let mut probes = 0;
    assert!(run(&mut d, 7, &german, &mut probes));
    assert_eq!(probes, 0x52);
    assert!(run(&mut d, 7, &german, &mut probes));
    assert_eq!(probes, 0x52);
}

#[test]
fn layout_without_altgr_scans_every_code() {
    let mut d = AltGrDetector::new();
    let mut probes = 0;
    assert!(!run(&mut d, 9, &us, &mut probes));
    assert_eq!(probes, 256);
    assert!(!run(&mut d, 9, &us, &mut probes));
    assert_eq!(probes, 256);
}

#[test]
fn layout_change_probes_again() {
    let mut d = AltGrDetector::new();
    let mut probes = 0;
    assert!(run(&mut d, 7, &german, &mut probes));
    assert!(!run(&mut d, 9, &us, &mut probes));
    assert!(run(&mut d, 7, &german, &mut probes));
    assert_eq!(probes, 0x52 + 256 + 0x52);
}

#[test]
fn null_layout_answers_from_empty_cache() {
    let mut d = AltGrDetector::new();
    assert_eq!(d.layout_uses_altgr(0), AltGrStep::Known(false));
    assert_eq!(d.feed(Some('a'), Some('b')), AltGrStep::Known(false));
}
