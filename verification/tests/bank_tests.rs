use noisy_trackball::bank::{first_missing_clip, ClipBank};

#[test]
fn bank_serves_one_clip_per_level() {
    let clips: Vec<u32> = (0..10).map(|i| 100 + i).collect();
    let bank = ClipBank::from_clips(clips, 10).unwrap();
    assert_eq!(bank.len(), 10);
    assert_eq!(*bank.get(1), 100);
    assert_eq!(*bank.get(3), 102);
    assert_eq!(*bank.get(10), 109);
}

#[test]
fn bank_refuses_wrong_count() {
    let clips: Vec<u32> = vec![1, 2, 3];
    match ClipBank::from_clips(clips, 10) {
        Err(actual) => assert_eq!(actual, 3),
        Ok(_) => panic!("a bank of three clips must not pass for ten"),
    }
}

#[test]
fn all_clip_files_present_passes() {
    let present = vec![true; 10];
    assert_eq!(first_missing_clip(&present), None);
}

#[test]
fn missing_seventh_clip_is_reported() {
    // Index 7 absent: the load must fail naming exactly that index.
    let mut present = vec![true; 10];
    present[7] = false;
    assert_eq!(first_missing_clip(&present), Some(7));
}

#[test]
fn first_missing_index_wins() {
    let mut present = vec![true; 10];
    present[2] = false;
    present[7] = false;
    assert_eq!(first_missing_clip(&present), Some(2));
}

#[test]
fn empty_bank_has_nothing_missing() {
    let present: Vec<bool> = Vec::new();
    assert_eq!(first_missing_clip(&present), None);
}
