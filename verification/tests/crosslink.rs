use block_producer::codec::DecodeError;
use block_producer::crosslink::Crosslink;
use block_producer::hash256::Hash256;
use block_producer::slot_epoch::Slot;
use rand::prng::XorShiftRng;
use rand::RngCore;
use rand::SeedableRng;

fn random_crosslink(rng: &mut XorShiftRng) -> Crosslink {
    let slot = Slot::from(rng.next_u64());
    let mut root = [0_u8; 32];
    rng.fill_bytes(&mut root);
    Crosslink {
        slot,
        shard_block_root: Hash256::new(root),
    }
}

#[test]
pub fn test_ssz_round_trip() {
    let mut rng = XorShiftRng::from_seed([42; 16]);
    let original = random_crosslink(&mut rng);

    let mut bytes = vec![];
    original.ssz_append(&mut bytes);
    let (decoded, _) = Crosslink::ssz_decode(&bytes, 0).unwrap();

    assert_eq!(original, decoded);
}

#[test]
fn crosslink_zero() {
    let zero = Crosslink::zero();
    assert_eq!(zero.slot, Slot::new(0));
    assert_eq!(zero.shard_block_root, Hash256::zero());
    assert_eq!(zero.shard_block_root.to_bytes(), [0_u8; 32]);
}

#[test]
fn crosslink_ssz_layout() {
    let mut root = [0_u8; 32];
    for (i, byte) in root.iter_mut().enumerate() {
        *byte = 100 + i as u8;
    }
    let crosslink = Crosslink {
        slot: Slot::new(0x0102),
        shard_block_root: Hash256::new(root),
    };

    let mut bytes = vec![7, 7];
    crosslink.ssz_append(&mut bytes);

    let mut expected = vec![7, 7, 2, 1, 0, 0, 0, 0, 0, 0];
    expected.extend_from_slice(&root);
    assert_eq!(bytes, expected);

    bytes.push(9);
    let (decoded, next) = Crosslink::ssz_decode(&bytes, 2).unwrap();
    assert_eq!(decoded, crosslink);
    assert_eq!(next, 42);
}

#[test]
fn crosslink_ssz_decode_too_short() {
    let mut bytes = vec![];
    Crosslink::zero().ssz_append(&mut bytes);
    assert_eq!(bytes.len(), 40);

    assert_eq!(Crosslink::ssz_decode(&bytes[..39], 0), Err(DecodeError::TooShort));
    assert_eq!(Crosslink::ssz_decode(&bytes[..7], 0), Err(DecodeError::TooShort));
    assert_eq!(Crosslink::ssz_decode(&bytes, 1), Err(DecodeError::TooShort));
    assert_eq!(Crosslink::ssz_decode(&bytes, 41), Err(DecodeError::TooShort));
    assert_eq!(Crosslink::ssz_decode(&[], 0), Err(DecodeError::TooShort));
}

#[test]
fn hash256_round_trip() {
    let mut rng = XorShiftRng::from_seed([42; 16]);
    let mut root = [0_u8; 32];
    rng.fill_bytes(&mut root);
    let hash = Hash256::new(root);
    assert_eq!(hash.to_bytes(), root);

    let mut bytes = vec![1, 2, 3];
    hash.ssz_append(&mut bytes);
    assert_eq!(&bytes[..3], &[1, 2, 3]);
    assert_eq!(&bytes[3..], &root[..]);

    let (decoded, next) = Hash256::ssz_decode(&bytes, 3).unwrap();
    assert_eq!(decoded, hash);
    assert_eq!(next, 35);

    assert_eq!(Hash256::ssz_decode(&bytes, 4), Err(DecodeError::TooShort));
    assert_eq!(Hash256::ssz_decode(&bytes, 36), Err(DecodeError::TooShort));
}
