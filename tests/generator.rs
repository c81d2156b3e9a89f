use rand::{thread_rng, RngCore};
use rc4ok::RC4ok;

fn first_bytes(key: &[u8], n: usize) -> Vec<u8> {
    let mut out = vec![0u8; n];
    let mut rng = RC4ok::init(key);
    rng.generate(&mut out);
    out
}

#[test]
fn test_success_with_non_empty_key() {
    const MIN_KEY_LEN: usize = 1;
    const MAX_KEY_LEN: usize = 256;

    let mut rng = thread_rng();

    let mut klen = MIN_KEY_LEN;
    while klen <= MAX_KEY_LEN {
        let mut key = vec![0u8; klen];
        rng.fill_bytes(&mut key);

        let mut prng = RC4ok::init(&key);
        prng.generate(&mut []);

        klen += 1;
    }
}

#[test]
fn test_success_with_state_reset() {
    const MIN_KEY_LEN: usize = 1;
    const MAX_KEY_LEN: usize = 256;

    let mut rng = thread_rng();

    let mut klen = MIN_KEY_LEN;
    while klen <= MAX_KEY_LEN {
        let mut key = vec![0u8; klen];
        rng.fill_bytes(&mut key);

        let mut out0 = vec![0u8; 1024];
        let mut out1 = vec![0u8; 1024];

        let mut prng = RC4ok::init(&key);
        prng.generate(&mut out0);
        prng.reset(&key);
        prng.generate(&mut out1);

        assert_eq!(out0, out1);

        klen += 1;
    }
}

const RECORDS: &str = "key = 00
output = 0f4a171cf46e6c0da6028731172b54d87814d5420176c50a303f4c0d09ad809d

key = 6b6579
output = f071fc097f3dcbb7aa17a26f9e69b3f045ae1b626a2e7d0e69961dba0ae5b54e

key = 0001020304050607
output = f7a6f9b2588e3f797da07eb0e139b0fc9773ea35fe4a033ef6bcf125c953c6b8
";

#[test]
fn known_answer_records() {
    let mut lines = RECORDS.lines();
    let mut count = 0;
    while let Some(line) = lines.next() {
        let key = hex::decode(line.split(" = ").collect::<Vec<&str>>()[1]).unwrap();
        let expected =
            hex::decode(lines.next().unwrap().split(" = ").collect::<Vec<&str>>()[1]).unwrap();
        assert_eq!(first_bytes(&key, expected.len()), expected);
        lines.next();
        count += 1;
    }
    assert_eq!(count, 3);
}

#[test]
fn known_answer_key_of_256_bytes() {
    let key: Vec<u8> = (0..256u32).map(|b| b as u8).collect();
    let expected =
        hex::decode("387bf2dc0ccd53909ee2fc57c01b8f434d114d01c154b217ceaebb59749bf9f2").unwrap();
    assert_eq!(first_bytes(&key, 32), expected);
}

#[test]
fn known_answer_key_longer_than_table() {
    let key: Vec<u8> = (0..300u32).map(|b| (b % 251) as u8).collect();
    let expected =
        hex::decode("0782f893c4f97e180e0dda6a33655d7bd62db083dd36eb07b77f44a02d7c2367").unwrap();
    assert_eq!(first_bytes(&key, 32), expected);
}

#[test]
fn keys_of_many_lengths_generate() {
    for klen in [1usize, 8, 255, 256, 257, 512, 1000] {
        let key: Vec<u8> = (0..klen).map(|b| (b * 7 + 3) as u8).collect();
        let out = first_bytes(&key, 64);
        assert_eq!(out.len(), 64);
        assert_eq!(out, first_bytes(&key, 64));
    }
}

#[test]
fn long_key_bytes_beyond_256_matter() {
    let mut key: Vec<u8> = (0..300u32).map(|b| (b % 251) as u8).collect();
    let before = first_bytes(&key, 32);
    key[299] ^= 1;
    assert_ne!(first_bytes(&key, 32), before);
}

#[test]
fn same_key_gives_same_bytes() {
    let key = b"determinism";
    let mut a = vec![0u8; 100];
    let mut b = vec![0xaau8; 100];
    RC4ok::init(key).generate(&mut a);
    RC4ok::init(key).generate(&mut b);
    assert_eq!(a, b);
}

#[test]
fn split_generation_continues_stream() {
    let key = b"key";
    let whole = first_bytes(key, 32);
    let mut rng = RC4ok::init(key);
    let mut first = [0u8; 10];
    let mut second = [0u8; 22];
    rng.generate(&mut first);
    rng.generate(&mut second);
    assert_eq!(&whole[..10], &first[..]);
    assert_eq!(&whole[10..], &second[..]);
}

#[test]
fn reset_with_other_key_matches_fresh_init() {
    let mut rng = RC4ok::init(b"first key");
    let mut scratch = [0u8; 77];
    rng.generate(&mut scratch);
    rng.add_entropy(0xbeef);
    rng.reset(b"key");
    let mut out = [0u8; 32];
    rng.generate(&mut out);
    assert_eq!(out.to_vec(), first_bytes(b"key", 32));
}

#[test]
fn empty_generation_changes_nothing() {
    let mut rng = RC4ok::init(b"key");
    rng.generate(&mut []);
    rng.generate(&mut []);
    let mut out = [0u8; 32];
    rng.generate(&mut out);
    assert_eq!(out.to_vec(), first_bytes(b"key", 32));
}

#[test]
fn entropy_changes_output() {
    let mut rng = RC4ok::init(b"key");
    rng.add_entropy(0x1234);
    let mut out = [0u8; 32];
    rng.generate(&mut out);
    let expected =
        hex::decode("8f47356ae0224f4dca58a7295401d3217c279c16c8492b0e10b082ba17f690a3").unwrap();
    assert_eq!(out.to_vec(), expected);
    assert_ne!(out.to_vec(), first_bytes(b"key", 32));
}

#[test]
fn entropy_mid_stream_changes_later_output() {
    let key = b"entropy";
    let mut plain = RC4ok::init(key);
    let mut mixed = RC4ok::init(key);
    let mut a = [0u8; 16];
    let mut b = [0u8; 16];
    plain.generate(&mut a);
    mixed.generate(&mut b);
    assert_eq!(a, b);
    mixed.add_entropy(1);
    let mut c = [0u8; 64];
    let mut d = [0u8; 64];
    plain.generate(&mut c);
    mixed.generate(&mut d);
    assert_ne!(c.to_vec(), d.to_vec());
}

#[test]
fn different_entropy_values_give_different_output() {
    let mut one = RC4ok::init(b"key");
    let mut two = RC4ok::init(b"key");
    one.add_entropy(1);
    two.add_entropy(2);
    let mut a = [0u8; 64];
    let mut b = [0u8; 64];
    one.generate(&mut a);
    two.generate(&mut b);
    assert_ne!(a.to_vec(), b.to_vec());
}
