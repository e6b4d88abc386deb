use test_coin::Identity;

fn filled(byte: u8) -> Identity {
    Identity { bytes: [byte; 32] }
}

#[test]
fn identities_with_the_same_bytes_are_the_same() {
    let a = filled(7);
    let b = filled(7);
    assert!(a.same(&b));
    assert!(a == b);
    assert_eq!(a, b);
}

#[test]
fn identities_differ_when_the_first_byte_differs() {
    let a = filled(0);
    let mut b = filled(0);
    b.bytes[0] = 1;
    assert!(!a.same(&b));
    assert!(a != b);
}

#[test]
fn identities_differ_when_the_last_byte_differs() {
    let a = filled(0);
    let mut b = filled(0);
    b.bytes[31] = 255;
    assert!(!a.same(&b));
    assert!(!b.same(&a));
    assert_ne!(a, b);
}

#[test]
fn identities_differ_when_a_middle_byte_differs() {
    let a = filled(9);
    let mut b = filled(9);
    b.bytes[16] = 8;
    assert!(!a.same(&b));
}

#[test]
fn an_identity_is_the_same_as_itself() {
    let mut a = filled(0);
    for (i, byte) in a.bytes.iter_mut().enumerate() {
        *byte = i as u8;
    }
    assert!(a.same(&a));
    let copy = a;
    assert!(copy.same(&a));
}
