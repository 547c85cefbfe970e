use guest_env::env::Env;
use guest_env::error::EnvError;
use guest_env::layout::{COMMIT_REGION_WORDS, OUTPUT_REGION_WORDS};

fn committed(env: &mut Env, data: &[u32]) {
    env.commit(&data.to_vec()).unwrap();
}

#[test]
fn single_small_commit_is_returned_padded() {
    let mut env = Env::new();
    // A 10-byte value is encoded in three words: 12 bytes.
    committed(&mut env, &[0x0403_0201, 0x0807_0605, 0x0000_0a09]);
    let r = env.finalize();
    assert_eq!(
        r,
        vec![0x0403_0201, 0x0807_0605, 0x0000_0a09, 0, 0, 0, 0, 0, 12]
    );
}

#[test]
fn empty_journal_finalizes_to_zeros() {
    let env = Env::new();
    assert_eq!(env.finalize(), vec![0, 0, 0, 0, 0, 0, 0, 0, 0]);
}

#[test]
fn journal_of_exactly_eight_words_is_returned_as_is() {
    let mut env = Env::new();
    let v: Vec<u32> = (1..=8).collect();
    committed(&mut env, &v);
    let mut expected = v.clone();
    expected.push(32);
    assert_eq!(env.finalize(), expected);
}

#[test]
fn three_commits_of_96_bytes_are_digested() {
    let mut env = Env::new();
    let v1: Vec<u32> = (1..=8).collect();
    let v2: Vec<u32> = (9..=16).collect();
    let v3: Vec<u32> = (17..=24).collect();
    committed(&mut env, &v1);
    committed(&mut env, &v2);
    committed(&mut env, &v3);
    assert_eq!(env.commit_len(), 96);
    let r = env.finalize();
    assert_eq!(
        r,
        vec![
            0xa79b_414c, 0x0e9b_31f5, 0xafab_d3b9, 0x581a_0889, 0x8d77_43e1, 0x7fe7_e94b,
            0x4cf3_6125, 0xe37c_7e5f, 96
        ]
    );
}

#[test]
fn nine_words_are_digested() {
    let mut env = Env::new();
    let v: Vec<u32> = (1..=9).collect();
    committed(&mut env, &v);
    let r = env.finalize();
    assert_eq!(
        r,
        vec![
            0x755e_d2e3, 0x62d7_ed90, 0x0118_8306, 0xe21e_7df6, 0x0ab9_d831, 0xe3bf_b42b,
            0xe22b_151a, 0x6c53_2f1d, 36
        ]
    );
}

#[test]
fn split_commits_give_the_journal_of_one_commit() {
    let mut a = Env::new();
    committed(&mut a, &[1, 2, 3]);
    committed(&mut a, &[4, 5]);
    let mut b = Env::new();
    committed(&mut b, &[1, 2, 3, 4, 5]);
    assert_eq!(a.journal_bytes(), b.journal_bytes());
    assert_eq!(a.finalize(), b.finalize());
}

#[test]
fn commit_mirrors_little_endian_bytes() {
    let mut env = Env::new();
    let b = env.commit(&vec![0x0403_0201, 0xddcc_bbaa]).unwrap();
    assert_eq!(b, vec![1, 2, 3, 4, 0xaa, 0xbb, 0xcc, 0xdd]);
    assert_eq!(env.journal_bytes(), b);
    assert_eq!(env.commit_len(), 8);
}

#[test]
fn write_leaves_the_journal_alone() {
    let mut env = Env::new();
    committed(&mut env, &[7]);
    let b = env.write(&vec![0x0102_0304, 5]).unwrap();
    assert_eq!(b, vec![4, 3, 2, 1, 5, 0, 0, 0]);
    assert_eq!(env.commit_len(), 4);
    assert_eq!(env.finalize(), vec![7, 0, 0, 0, 0, 0, 0, 0, 4]);
}

#[test]
fn write_too_large_for_output_region_fails() {
    let mut env = Env::new();
    let big = vec![0u32; OUTPUT_REGION_WORDS + 1];
    assert_eq!(env.write(&big), Err(EnvError::RegionFull));
}

#[test]
fn commit_past_the_region_fails_and_keeps_the_journal() {
    let mut env = Env::new();
    let fill = vec![1u32; COMMIT_REGION_WORDS - 1];
    env.commit(&fill).unwrap();
    assert_eq!(env.commit(&vec![2, 3]), Err(EnvError::RegionFull));
    assert_eq!(env.commit_len(), 4 * (COMMIT_REGION_WORDS - 1));
    assert!(env.commit(&vec![2]).is_ok());
    assert_eq!(env.commit_len(), 4 * COMMIT_REGION_WORDS);
}

#[test]
fn read_before_input_is_pending() {
    let mut env = Env::new();
    assert!(env.input_pending());
    assert_eq!(env.read(), Err(EnvError::InputPending));
}

#[test]
fn two_reads_return_the_two_supplied_values() {
    let mut env = Env::new();
    env.accept_initial_input(vec![11, 22]);
    assert!(!env.input_pending());
    assert_eq!(env.read(), Ok(11));
    assert_eq!(env.read(), Ok(22));
}

#[test]
fn reading_past_the_supplied_values_fails() {
    let mut env = Env::new();
    env.accept_initial_input(vec![5, 6, 7]);
    assert_eq!(env.read(), Ok(5));
    assert_eq!(env.read(), Ok(6));
    assert_eq!(env.read(), Ok(7));
    assert_eq!(env.read(), Err(EnvError::InputExhausted));
    assert_eq!(env.read(), Err(EnvError::InputExhausted));
}

#[test]
fn initial_input_is_taken_once() {
    let mut env = Env::new();
    env.accept_initial_input(vec![1]);
    env.accept_initial_input(vec![9, 9]);
    assert_eq!(env.read(), Ok(1));
    assert_eq!(env.read(), Err(EnvError::InputExhausted));
}
