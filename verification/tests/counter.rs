use counter_mutator::counter::{increment, ErrorKind};

fn le(v: u64) -> Vec<u8> {
    v.to_le_bytes().to_vec()
}

#[test]
fn test_sucess() {
    let mut accounts = vec![vec![2, 0, 0, 0, 0, 0, 0, 0]];
    let r = increment(&mut accounts);
    assert_eq!(r, Ok(()));
    assert_eq!(accounts.len(), 1);
    assert_eq!(accounts[0], vec![3, 0, 0, 0, 0, 0, 0, 0]);
}

#[test]
fn test_failure_no_enough_account_keys() {
    let counter_buffer = vec![2, 0, 0, 0, 0, 0, 0, 0];
    let random_buffer: Vec<u8> = Vec::new();
    let mut accounts = vec![counter_buffer.clone(), random_buffer.clone()];
    let r = increment(&mut accounts);
    assert_eq!(r, Err(ErrorKind::WrongAccountCount));
    assert_eq!(accounts[0], vec![2, 0, 0, 0, 0, 0, 0, 0]);
    assert_eq!(accounts[1], random_buffer);
}

#[test]
fn test_failure_invalid_account_data() {
    let mut accounts = vec![Vec::new()];
    let r = increment(&mut accounts);
    assert_eq!(r, Err(ErrorKind::InvalidBufferLayout));
    assert_eq!(accounts, vec![Vec::<u8>::new()]);
}

#[test]
fn success_from_zero() {
    let mut accounts = vec![le(0)];
    assert_eq!(increment(&mut accounts), Ok(()));
    assert_eq!(accounts[0], le(1));
}

#[test]
fn success_carries_into_second_byte() {
    let mut accounts = vec![vec![255, 0, 0, 0, 0, 0, 0, 0]];
    assert_eq!(increment(&mut accounts), Ok(()));
    assert_eq!(accounts[0], vec![0, 1, 0, 0, 0, 0, 0, 0]);
}

#[test]
fn success_just_below_max() {
    let mut accounts = vec![le(u64::MAX - 1)];
    assert_eq!(increment(&mut accounts), Ok(()));
    assert_eq!(accounts[0], le(u64::MAX));
}

#[test]
fn overflow_at_max_leaves_buffer_unchanged() {
    let mut accounts = vec![vec![255; 8]];
    let r = increment(&mut accounts);
    assert_eq!(r, Err(ErrorKind::ArithmeticOverflow));
    assert_eq!(accounts, vec![vec![255; 8]]);
}

#[test]
fn zero_buffers_fail_with_wrong_account_count() {
    let mut accounts: Vec<Vec<u8>> = Vec::new();
    let r = increment(&mut accounts);
    assert_eq!(r, Err(ErrorKind::WrongAccountCount));
    assert!(accounts.is_empty());
}

#[test]
fn short_buffer_fails_with_invalid_layout_unchanged() {
    let mut accounts = vec![vec![1, 2, 3, 4, 5, 6, 7]];
    let r = increment(&mut accounts);
    assert_eq!(r, Err(ErrorKind::InvalidBufferLayout));
    assert_eq!(accounts, vec![vec![1, 2, 3, 4, 5, 6, 7]]);
}

#[test]
fn long_buffer_fails_with_invalid_layout_unchanged() {
    let mut accounts = vec![vec![0; 9]];
    let r = increment(&mut accounts);
    assert_eq!(r, Err(ErrorKind::InvalidBufferLayout));
    assert_eq!(accounts, vec![vec![0; 9]]);
}

#[test]
fn repeating_a_failing_call_repeats_the_same_failure() {
    let mut accounts = vec![vec![255; 8]];
    assert_eq!(increment(&mut accounts), Err(ErrorKind::ArithmeticOverflow));
    assert_eq!(increment(&mut accounts), Err(ErrorKind::ArithmeticOverflow));
    assert_eq!(accounts, vec![vec![255; 8]]);

    let mut too_many = vec![le(2), le(5)];
    assert_eq!(increment(&mut too_many), Err(ErrorKind::WrongAccountCount));
    assert_eq!(increment(&mut too_many), Err(ErrorKind::WrongAccountCount));
    assert_eq!(too_many, vec![le(2), le(5)]);
}

#[test]
fn repeating_a_succeeding_call_advances_again() {
    let mut accounts = vec![le(2)];
    assert_eq!(increment(&mut accounts), Ok(()));
    assert_eq!(accounts[0], le(3));
    assert_eq!(increment(&mut accounts), Ok(()));
    assert_eq!(accounts[0], le(4));
}

#[test]
fn count_check_precedes_layout_check() {
    // Both buffers have the wrong length, and there are two of them: the
    // count error wins.
    let mut accounts = vec![vec![1, 2, 3], Vec::new()];
    let r = increment(&mut accounts);
    assert_eq!(r, Err(ErrorKind::WrongAccountCount));
    assert_eq!(accounts, vec![vec![1, 2, 3], Vec::new()]);
}
