use social_draw::bytes::{bytes_eq, clone_bytes, le_u64_of_prefix, u64_le_bytes};
use social_draw::identity::Identity;

#[test]
fn u64_little_endian_bytes_exact() {
    assert_eq!(u64_le_bytes(0x0102030405060708), vec![8, 7, 6, 5, 4, 3, 2, 1]);
    assert_eq!(u64_le_bytes(0), vec![0; 8]);
    assert_eq!(u64_le_bytes(u64::MAX), vec![0xff; 8]);
    assert_eq!(u64_le_bytes(42), vec![42, 0, 0, 0, 0, 0, 0, 0]);
}

#[test]
fn le_u64_round_trips() {
    for x in [0u64, 1, 256, 12345, 1 << 56, u64::MAX] {
        let mut bytes = u64_le_bytes(x);
        bytes.extend_from_slice(&[0xaa; 24]);
        assert_eq!(le_u64_of_prefix(&bytes), x);
    }
}

#[test]
fn byte_vector_helpers() {
    let v = vec![1u8, 2, 3];
    assert_eq!(clone_bytes(&v), v);
    assert!(bytes_eq(&v, &vec![1, 2, 3]));
    assert!(!bytes_eq(&v, &vec![1, 2]));
    assert!(!bytes_eq(&v, &vec![1, 2, 4]));
}

#[test]
fn identity_equality_and_zero() {
    let a = Identity::new(vec![5; 32]);
    let b = Identity::new(vec![5; 32]);
    let c = Identity::new(vec![6; 32]);
    assert!(a.equals(&b));
    assert!(!a.equals(&c));
    assert!(Identity::zeroed().equals(&Identity::new(vec![0; 32])));
    assert_eq!(a.to_vec(), vec![5; 32]);
    assert!(a.clone().equals(&a));
}
