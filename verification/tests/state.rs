//! Direct tests of the state enum's accessor.

use condition_middleware::ServiceState;

#[test]
fn get_verified_on_base_state_is_none() {
    let mut s: ServiceState<u8, u8> = ServiceState::Unverified(Some(1));
    assert!(s.get_verified().is_none());
    assert!(matches!(s, ServiceState::Unverified(Some(1))));
}

#[test]
fn get_verified_on_empty_slot_is_none() {
    let mut s: ServiceState<u8, u8> = ServiceState::Unverified(None);
    assert!(s.get_verified().is_none());
}

#[test]
fn get_verified_on_verified_state_hands_out_the_stage() {
    let mut s: ServiceState<u8, u8> = ServiceState::Verified(9);
    {
        let v = s.get_verified().unwrap();
        assert_eq!(*v, 9);
        *v = 11;
    }
    assert!(matches!(s, ServiceState::Verified(11)));
}
