use replay_capture::ring::FrameRing;

fn frame(b: u8) -> Vec<u8> {
    vec![b, b, b]
}

#[test]
fn new_ring_is_empty() {
    let r = FrameRing::new(4);
    assert_eq!(r.len(), 0);
    assert_eq!(r.capacity(), 4);
    assert!(r.snapshot().is_empty());
}

#[test]
fn push_below_capacity_appends() {
    let mut r = FrameRing::new(4);
    r.push(frame(1));
    r.push(frame(2));
    assert_eq!(r.len(), 2);
    assert_eq!(r.snapshot(), vec![frame(1), frame(2)]);
}

#[test]
fn capacity_five_keeps_last_five_of_six() {
    let mut r = FrameRing::new(5);
    for b in [b'a', b'b', b'c', b'd', b'e', b'f'] {
        r.push(vec![b]);
    }
    assert_eq!(r.snapshot(), vec![vec![b'b'], vec![b'c'], vec![b'd'], vec![b'e'], vec![b'f']]);
    assert_eq!(r.len(), 5);
}

#[test]
fn many_pushes_keep_last_capacity_in_order() {
    let cap: usize = 7;
    let n: u8 = 40;
    let mut r = FrameRing::new(cap);
    for b in 0..n {
        r.push(frame(b));
    }
    let expected: Vec<Vec<u8>> = ((n as usize - cap) as u8..n).map(frame).collect();
    assert_eq!(r.snapshot(), expected);
    assert_eq!(r.len(), cap);
    assert_eq!(r.capacity(), cap);
}

#[test]
fn capacity_one_holds_newest() {
    let mut r = FrameRing::new(1);
    r.push(frame(1));
    r.push(frame(2));
    assert_eq!(r.snapshot(), vec![frame(2)]);
}

#[test]
fn snapshot_is_independent_of_later_pushes() {
    let mut r = FrameRing::new(2);
    r.push(frame(1));
    r.push(frame(2));
    let snap = r.snapshot();
    r.push(frame(3));
    assert_eq!(snap, vec![frame(1), frame(2)]);
    assert_eq!(r.snapshot(), vec![frame(2), frame(3)]);
}
