use near_fetch::error::Error;
use near_fetch::signer::KeyRotatingSigner;

#[test]
fn rotation_cycles_through_the_signers() {
    let mut s = KeyRotatingSigner::from_signers(vec!["k0", "k1", "k2"]);
    assert_eq!(s.len(), 3);
    assert_eq!(*s.current_signer(), "k0");
    assert_eq!(*s.fetch_and_rotate_signer(), "k0");
    assert_eq!(*s.current_signer(), "k1");
    assert_eq!(*s.fetch_and_rotate_signer(), "k1");
    assert_eq!(*s.fetch_and_rotate_signer(), "k2");
    assert_eq!(*s.fetch_and_rotate_signer(), "k0");
    assert_eq!(*s.current_signer(), "k1");
}

#[test]
fn try_from_iter_needs_an_entry() {
    let r = KeyRotatingSigner::<(String, u8)>::try_from_iter(vec![]);
    assert!(matches!(r, Err(Error::InvalidArgs("must have at least one entry"))));
}

#[test]
fn try_from_iter_needs_one_account() {
    let r = KeyRotatingSigner::try_from_iter(vec![
        ("alice.near".to_string(), 1u8),
        ("alice.near".to_string(), 2u8),
        ("bob.near".to_string(), 3u8),
    ]);
    assert!(matches!(r, Err(Error::InvalidArgs("provided account ids are not all the same"))));
}

#[test]
fn try_from_iter_keeps_the_keys_in_order() {
    let r = KeyRotatingSigner::try_from_iter(vec![
        ("alice.near".to_string(), 1u8),
        ("alice.near".to_string(), 2u8),
    ]);
    let mut s = match r {
        Ok(s) => s,
        Err(e) => panic!("unexpected error {:?}", e),
    };
    assert_eq!(s.fetch_and_rotate_signer().1, 1);
    assert_eq!(s.fetch_and_rotate_signer().1, 2);
    assert_eq!(s.current_signer(), &("alice.near".to_string(), 1u8));
}

#[test]
fn consecutive_signings_use_every_key_once() {
    let mut s = KeyRotatingSigner::from_signers(vec![0u8, 1, 2, 3, 4]);
    // start somewhere in the middle of the rotation
    s.fetch_and_rotate_signer();
    s.fetch_and_rotate_signer();
    let mut used: Vec<u8> = (0..5).map(|_| *s.fetch_and_rotate_signer()).collect();
    assert_eq!(used, vec![2, 3, 4, 0, 1]);
    used.sort();
    assert_eq!(used, vec![0, 1, 2, 3, 4]);
}
