use bern_test::registry::{Registry, RegistryError};

#[test]
fn registers_tests_in_order() {
    let mut reg = Registry::new(b"m".to_vec());
    assert_eq!(reg.add(b"first".to_vec(), false), Ok(()));
    assert_eq!(reg.add(b"second".to_vec(), true), Ok(()));
    assert_eq!(reg.len(), 2);
    assert_eq!(reg.get(0).name.as_slice(), b"first");
    assert!(!reg.get(0).expect_panic);
    assert_eq!(reg.get(1).name.as_slice(), b"second");
    assert!(reg.get(1).expect_panic);
}

#[test]
fn hard_caps_at_two_hundred_fifty_four() {
    let mut reg = Registry::new(b"m".to_vec());
    for i in 0..254u32 {
        assert_eq!(reg.add(format!("t{}", i).into_bytes(), false), Ok(()));
    }
    assert_eq!(reg.len(), 254);
    // index 255 is reserved for "run all tests", so the 255th test is refused
    assert_eq!(reg.add(b"one_too_many".to_vec(), false), Err(RegistryError::Full));
    assert_eq!(reg.len(), 254);
}
