use stack_experiments::differential::run_both;
use stack_experiments::model::{Observation, Op};

fn records_agree(a: &[Observation<u8>], b: &[Observation<u8>]) -> bool {
    a.len() == b.len() && a.iter().zip(b.iter()).all(|(x, y)| x.popped == y.popped && x.len == y.len)
}

fn ops_from_bytes(bytes: &[u8]) -> Vec<Op<u8>> {
    bytes
        .iter()
        .map(|&b| if b % 2 == 0 { Op::Push(b) } else { Op::Pop })
        .collect()
}

#[test]
fn variants_agree_on_mixed_run() {
    let ops = ops_from_bytes(&[2, 4, 1, 6, 8, 10, 3, 5, 7, 9, 12]);
    let (managed, manual) = run_both(3, &ops);
    assert!(records_agree(&managed, &manual));
    let popped: Vec<Option<u8>> = managed.iter().map(|o| o.popped).collect();
    let lens: Vec<usize> = managed.iter().map(|o| o.len).collect();
    assert_eq!(
        popped,
        vec![None, None, Some(4), None, None, None, Some(8), Some(6), Some(2), None, None]
    );
    assert_eq!(lens, vec![1, 2, 1, 2, 3, 3, 2, 1, 0, 0, 1]);
}

#[test]
fn variants_agree_when_pushes_are_skipped_at_capacity() {
    let ops = ops_from_bytes(&[0, 2, 4, 1, 1, 1]);
    let (managed, manual) = run_both(1, &ops);
    assert!(records_agree(&managed, &manual));
    let popped: Vec<Option<u8>> = manual.iter().map(|o| o.popped).collect();
    assert_eq!(popped, vec![None, None, None, Some(0), None, None]);
}

#[test]
fn variants_agree_on_empty_run() {
    let (managed, manual) = run_both::<u8>(5, &Vec::new());
    assert!(managed.is_empty());
    assert!(manual.is_empty());
}

#[test]
fn variants_agree_on_long_run() {
    let bytes: Vec<u8> = (0..2000u32).map(|i| ((i * 37 + i / 7) % 256) as u8).collect();
    let ops = ops_from_bytes(&bytes);
    let (managed, manual) = run_both(16, &ops);
    assert_eq!(managed.len(), ops.len());
    assert!(records_agree(&managed, &manual));
}
