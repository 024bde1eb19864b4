use compute_demos::buffer::BUFFER_LEN;
use compute_demos::dispatch::{work_groups, LOCAL_SIZE, WORK_GROUPS};

#[test]
fn dispatch_is_one_dimensional() {
    assert_eq!(work_groups(), [16, 1, 1]);
    assert_eq!(WORK_GROUPS, 16);
    assert_eq!(LOCAL_SIZE, 64);
}

#[test]
fn dispatch_has_one_invocation_per_element() {
    let dims = work_groups();
    assert_eq!((dims[0] * dims[1] * dims[2] * LOCAL_SIZE) as usize, BUFFER_LEN);
    let mut hits = vec![0u32; BUFFER_LEN];
    for group in 0..dims[0] {
        for local in 0..LOCAL_SIZE {
            hits[(group * LOCAL_SIZE + local) as usize] += 1;
        }
    }
    assert!(hits.iter().all(|&h| h == 1));
}
