use ctcrypto::array::Array;
use ctcrypto::block::{BlockCipher, BlockFn};
use ctcrypto::cipher::{Des, DesRound};
use ctcrypto::des::{
    expand, final_permute, initial_permute, join_block, key_schedule, permute, run_permutation,
    run_substitution, split_block, substitute,
};
use ctcrypto::des_tables::{
    EXPANSION_PERMUTATION, FINAL_PERMUTATION, INITIAL_PERMUTATION, SUBSTITUTIONS,
};
use ctcrypto::feistel::Feistel;
use ctcrypto::keyed::Keyed;
use ctcrypto::secret::Secret;
use rand::{thread_rng, Rng};

#[test]
fn des_initial_final_inverses() {
    for i in 0..64 {
        let val = 1 << i;
        assert_eq!(final_permute(initial_permute(Secret::new(val))).expose(), val);
        assert_eq!(initial_permute(final_permute(Secret::new(val))).expose(), val);
    }
}

#[test]
fn mod_initial_final_inverses() {
    for i in 0..64 {
        let val = 1 << i;
        assert_eq!(final_permute(initial_permute(Secret::new(val))).expose(), val);
        assert_eq!(initial_permute(final_permute(Secret::new(val))).expose(), val);
    }
}

#[test]
fn initial_matches_spec_rand() {
    let mut rng = thread_rng();
    for _ in 0..10000 {
        let val: u64 = rng.gen();
        assert_eq!(
            initial_permute(Secret::new(val)).expose(),
            run_permutation(&INITIAL_PERMUTATION, Secret::new(val), 64, 64).expose()
        );
    }
}

#[test]
fn final_matches_spec_rand() {
    let mut rng = thread_rng();
    for _ in 0..10000 {
        let val: u64 = rng.gen();
        assert_eq!(
            final_permute(Secret::new(val)).expose(),
            run_permutation(&FINAL_PERMUTATION, Secret::new(val), 64, 64).expose()
        );
    }
}

#[test]
fn expand_matches_spec_rand() {
    let mut rng = thread_rng();
    for _ in 0..10000 {
        let val: u32 = rng.gen();
        assert_eq!(
            expand(Secret::new(val)).expose(),
            run_permutation(&EXPANSION_PERMUTATION, Secret::new(val as u64), 32, 48).expose()
        );
    }
}

#[test]
fn run_substitution_works() {
    let subs = [0, 1, 2, 3, 4, 5, 6, 7, 8, 9, 10, 11, 12, 13, 14, 15];
    for &i in subs.iter() {
        assert_eq!(run_substitution(&subs, Secret::new(i)).expose(), i);
    }
}

#[test]
fn key_schedule_example() {
    let schedule = key_schedule(Secret::new(0x133457799BBCDFF1));
    let correct_keys = [
        0b000110_110000_001011_101111_111111_000111_000001_110010,
        0b011110_011010_111011_011001_110110_111100_100111_100101,
        0b010101_011111_110010_001010_010000_101100_111110_011001,
        0b011100_101010_110111_010110_110110_110011_010100_011101,
        0b011111_001110_110000_000111_111010_110101_001110_101000,
        0b011000_111010_010100_111110_010100_000111_101100_101111,
        0b111011_001000_010010_110111_111101_100001_100010_111100,
        0b111101_111000_101000_111010_110000_010011_101111_111011,
        0b111000_001101_101111_101011_111011_011110_011110_000001,
        0b101100_011111_001101_000111_101110_100100_011001_001111,
        0b001000_010101_111111_010011_110111_101101_001110_000110,
        0b011101_010111_000111_110101_100101_000110_011111_101001,
        0b100101_111100_010111_010001_111110_101011_101001_000001,
        0b010111_110100_001110_110111_111100_101110_011100_111010,
        0b101111_111001_000110_001101_001111_010011_111100_001010,
        0b110010_110011_110110_001011_000011_100001_011111_110101,
    ];
    assert_eq!(schedule.len(), 16);
    for (subkey, &correct) in schedule.as_slice().iter().zip(correct_keys.iter()) {
        assert_eq!(subkey.expose(), correct);
    }
}

#[test]
fn initial_example() {
    assert_eq!(initial_permute(Secret::new(0x0123456789ABCDEF)).expose(), 0xCC00CCFFF0AAF0AA);
}

#[test]
fn expand_example() {
    assert_eq!(expand(Secret::new(0xF0AAF0AA)).expose(), 0x7A15557A1555);
}

#[test]
fn substitute_example() {
    assert_eq!(substitute(Secret::new(0x6117BA866527)).expose(), 0x5C82B597);
}

#[test]
fn permute_example() {
    assert_eq!(permute(Secret::new(0x5C82B597)).expose(), 0x234AA9BB);
}

#[test]
fn example1() {
    let des = Des::from_key(Secret::new(0x133457799BBCDFF1));
    assert_eq!(des.encrypt(Secret::new(0x0123456789ABCDEF)).expose(), 0x85E813540F0AB405);
}

#[test]
fn example2() {
    let des = Des::from_key(Secret::new(0x0E329232EA6D0D73));
    assert_eq!(des.encrypt(Secret::new(0x8787878787878787)).expose(), 0);
    assert_eq!(des.decrypt(Secret::new(0)).expose(), 0x8787878787878787);
}

#[test]
fn example1_decrypts_back() {
    let des = Des::from_key(Secret::new(0x133457799BBCDFF1));
    assert_eq!(des.decrypt(Secret::new(0x85E813540F0AB405)).expose(), 0x0123456789ABCDEF);
}

#[test]
fn des_decrypt_undoes_encrypt_rand() {
    let mut rng = thread_rng();
    for _ in 0..200 {
        let key: u64 = rng.gen();
        let block: u64 = rng.gen();
        let des = Des::from_key(Secret::new(key));
        let c = des.encrypt(Secret::new(block));
        assert_eq!(des.decrypt(c).expose(), block);
    }
}

#[test]
fn initial_final_inverse_on_values() {
    for &v in [0u64, u64::MAX, 0x0123456789ABCDEF, 0xDEADBEEFCAFEF00D].iter() {
        assert_eq!(final_permute(initial_permute(Secret::new(v))).expose(), v);
        assert_eq!(initial_permute(final_permute(Secret::new(v))).expose(), v);
    }
}

#[test]
fn split_and_join_are_inverse() {
    let (h, l) = split_block(Secret::new(0x0123456789ABCDEF));
    assert_eq!(h.expose(), 0x01234567);
    assert_eq!(l.expose(), 0x89ABCDEF);
    assert_eq!(join_block((h, l)).expose(), 0x0123456789ABCDEF);
}

#[test]
fn run_permutation_gathers_msb_first() {
    // Output bit 1 from input bit 64, output bit 2 from input bit 1.
    let perm = [64u8, 1];
    assert_eq!(run_permutation(&perm, Secret::new(1), 64, 2).expose(), 0b10);
    assert_eq!(run_permutation(&perm, Secret::new(1 << 63), 64, 2).expose(), 0b01);
    assert_eq!(run_permutation(&[], Secret::new(u64::MAX), 64, 0).expose(), 0);
}

#[test]
fn run_substitution_reads_the_chosen_entry() {
    let table = &SUBSTITUTIONS[0];
    // S1, row 0, column 0 is 14; input 0b000001 is row 1, column 0: 0.
    assert_eq!(run_substitution(table, Secret::new(0)).expose(), 14);
    assert_eq!(run_substitution(table, Secret::new(1)).expose(), 0);
    assert_eq!(run_substitution(table, Secret::new(63)).expose(), 13);
    // Past the end of the table nothing is selected.
    assert_eq!(run_substitution(&[5u8, 6], Secret::new(2)).expose(), 0);
}

#[test]
fn feistel_decrypt_undoes_encrypt() {
    let keys: Vec<Secret<u64>> = (0..16u64)
        .map(|i| Secret::new(i.wrapping_mul(0x9E3779B97F4A7C15) >> 16))
        .collect();
    let net = Feistel::<DesRound, 16>::from_key(Array::from_vec(keys));
    let block = (Secret::new(0xDEADBEEFu32), Secret::new(0x01234567u32));
    let (a, b) = net.encrypt(block);
    assert_ne!((a.expose(), b.expose()), (0xDEADBEEF, 0x01234567));
    let (l, r) = net.decrypt((a, b));
    assert_eq!((l.expose(), r.expose()), (0xDEADBEEF, 0x01234567));
}

#[test]
fn des_round_applies_round_function() {
    // First round of the worked example: R0 = 0xF0AAF0AA under subkey 1.
    let round = DesRound::from_key(Secret::new(
        0b000110_110000_001011_101111_111111_000111_000001_110010,
    ));
    assert_eq!(round.encrypt(Secret::new(0xF0AAF0AA)).expose(), 0x234AA9BB);
}
