use koe::audio::{AudioFramer, FRAME_BYTES};

#[test]
fn frames_cut_at_fixed_size() {
    let mut f = AudioFramer::new();
    assert!(f.push(&vec![1u8; 4000]).is_empty());
    let frames = f.push(&vec![2u8; 9000]);
    assert_eq!(frames.len(), 2);
    assert_eq!(frames[0].1, 0);
    assert_eq!(frames[1].1, 200_000);
    assert_eq!(frames[0].0.len(), FRAME_BYTES);
    assert_eq!(&frames[0].0[..4000], &vec![1u8; 4000][..]);
    assert_eq!(&frames[0].0[4000..], &vec![2u8; 2400][..]);
    assert_eq!(frames[1].0, vec![2u8; 6400]);
    let more = f.push(&vec![3u8; 6300]);
    assert_eq!(more.len(), 1);
    assert_eq!(more[0].1, 400_000);
    let (last, ts) = f.finish().unwrap();
    assert_eq!(ts, 600_000);
    assert_eq!(last.len(), FRAME_BYTES);
    assert_eq!(&last[..100], &vec![3u8; 100][..]);
    assert!(last[100..].iter().all(|b| *b == 0));
    assert!(f.finish().is_none());
}

#[test]
fn exact_frames_leave_nothing() {
    let mut f = AudioFramer::new();
    let frames = f.push(&vec![9u8; 3 * FRAME_BYTES]);
    assert_eq!(frames.len(), 3);
    assert_eq!(frames[2].1, 400_000);
    assert!(f.finish().is_none());
}

#[test]
fn frames_rejoin_to_input() {
    let input: Vec<u8> = (0..20000u32).map(|i| (i % 251) as u8).collect();
    let mut f = AudioFramer::new();
    let mut joined: Vec<u8> = Vec::new();
    for chunk in input.chunks(777) {
        for (frame, _) in f.push(chunk) {
            joined.extend_from_slice(&frame);
        }
    }
    assert_eq!(joined.len(), 3 * FRAME_BYTES);
    let (last, ts) = f.finish().unwrap();
    assert_eq!(ts, 600_000);
    joined.extend_from_slice(&last[..20000 - 3 * FRAME_BYTES]);
    assert_eq!(joined, input);
}
