use picoforge::credential::{contains_id, StoredCredential};
use picoforge::error::FidoError;
use picoforge::session::{DeviceCall, DeviceReply, LockState, Notice, Session, Step};

fn cred(id: &str) -> StoredCredential {
    StoredCredential::new(
        id.to_string(),
        format!("{}.example", id),
        format!("Site {}", id),
        format!("user-{}", id),
    )
}

fn ids(s: &Session) -> Vec<String> {
    s.credentials().iter().map(|c| c.credential_id.clone()).collect()
}

fn expect_list_call(step: Step) -> String {
    match step {
        Step::Call(DeviceCall::ListCredentials { pin }) => pin,
        _ => panic!("expected a listing call"),
    }
}

fn unlocked_with(pin: &str, creds: Vec<StoredCredential>) -> Session {
    let mut s = Session::new();
    let step = s.request_unlock(pin.to_string());
    assert_eq!(expect_list_call(step), pin);
    let done = s.complete(DeviceReply::Listed(Ok(creds)));
    assert!(matches!(done, Step::Done(Ok(Notice::Unlocked))));
    s
}

#[test]
fn new_session_is_locked_and_idle() {
    let s = Session::new();
    assert_eq!(s.lock_state(), LockState::Locked);
    assert!(!s.in_flight());
    assert!(!s.holds_secret());
    assert!(s.credentials().is_empty());
}

#[test]
fn unlock_with_wrong_pin_stays_locked() {
    let mut s = Session::new();
    let step = s.request_unlock("1234".to_string());
    assert_eq!(expect_list_call(step), "1234");
    assert_eq!(s.lock_state(), LockState::Unlocking);
    assert!(s.in_flight());
    assert!(!s.holds_secret());
    let done = s.complete(DeviceReply::Listed(Err(FidoError::InvalidPin)));
    match done {
        Step::Done(Err(e)) => {
            assert_eq!(e, FidoError::InvalidPin);
            assert!(!e.describe().is_empty());
        }
        _ => panic!("expected a failure"),
    }
    assert_eq!(s.lock_state(), LockState::Locked);
    assert!(!s.holds_secret());
    assert!(!s.in_flight());
    assert!(s.credentials().is_empty());
}

#[test]
fn unlock_success_caches_and_lists() {
    let s = unlocked_with("1234", vec![cred("c1")]);
    assert_eq!(s.lock_state(), LockState::Unlocked);
    assert!(s.holds_secret());
    assert_eq!(ids(&s), vec!["c1".to_string()]);
    assert_eq!(s.credentials()[0].rp_id, "c1.example");
    assert!(!s.in_flight());
}

#[test]
fn delete_then_relist_takes_device_listing() {
    let mut s = unlocked_with("1234", vec![cred("c1"), cred("c2")]);
    let step = s.request_delete("c1".to_string());
    match step {
        Step::Call(DeviceCall::DeleteCredential { pin, credential_id }) => {
            assert_eq!(pin, "1234");
            assert_eq!(credential_id, "c1");
        }
        _ => panic!("expected a delete call"),
    }
    assert!(s.in_flight());
    let relist = s.complete(DeviceReply::Finished(Ok(())));
    assert_eq!(expect_list_call(relist), "1234");
    assert!(s.in_flight());
    let done = s.complete(DeviceReply::Listed(Ok(vec![cred("c2")])));
    assert!(matches!(
        done,
        Step::Done(Ok(Notice::CredentialDeleted { relist_error: None }))
    ));
    assert_eq!(ids(&s), vec!["c2".to_string()]);
    assert!(!contains_id(s.credentials(), &"c1".to_string()));
    assert!(contains_id(s.credentials(), &"c2".to_string()));
    assert_eq!(s.lock_state(), LockState::Unlocked);
    assert!(s.holds_secret());
    assert!(!s.in_flight());
}

#[test]
fn delete_with_expired_pin_locks() {
    let mut s = unlocked_with("1234", vec![cred("c1")]);
    let step = s.request_delete("c1".to_string());
    assert!(matches!(step, Step::Call(DeviceCall::DeleteCredential { .. })));
    let done = s.complete(DeviceReply::Finished(Err(FidoError::InvalidPin)));
    assert!(matches!(done, Step::Done(Err(FidoError::InvalidPin))));
    assert_eq!(s.lock_state(), LockState::Locked);
    assert!(!s.holds_secret());
    assert!(s.credentials().is_empty());
}

#[test]
fn delete_not_found_keeps_session() {
    let mut s = unlocked_with("1234", vec![cred("c1")]);
    s.request_delete("c9".to_string());
    let done = s.complete(DeviceReply::Finished(Err(FidoError::NotFound)));
    assert!(matches!(done, Step::Done(Err(FidoError::NotFound))));
    assert_eq!(s.lock_state(), LockState::Unlocked);
    assert!(s.holds_secret());
    assert_eq!(ids(&s), vec!["c1".to_string()]);
}

#[test]
fn delete_while_locked_is_refused() {
    let mut s = Session::new();
    let step = s.request_delete("c1".to_string());
    assert!(matches!(step, Step::Done(Err(FidoError::InvalidRequest))));
    assert!(!s.in_flight());
    assert_eq!(s.lock_state(), LockState::Locked);
}

#[test]
fn relist_failure_after_delete_reports_it() {
    let mut s = unlocked_with("1234", vec![cred("c1"), cred("c2")]);
    s.request_delete("c1".to_string());
    s.complete(DeviceReply::Finished(Ok(())));
    let done = s.complete(DeviceReply::Listed(Err(FidoError::NoDevice)));
    assert!(matches!(
        done,
        Step::Done(Ok(Notice::CredentialDeleted { relist_error: Some(FidoError::NoDevice) }))
    ));
    assert_eq!(s.lock_state(), LockState::Locked);
    assert!(!s.holds_secret());
}

#[test]
fn change_pin_success_forces_lock() {
    let mut s = unlocked_with("1234", vec![cred("c1")]);
    let step = s.request_change_pin(Some("1234".to_string()), "5678".to_string());
    match step {
        Step::Call(DeviceCall::ChangePin { current_pin, new_pin }) => {
            assert_eq!(current_pin, Some("1234".to_string()));
            assert_eq!(new_pin, "5678");
        }
        _ => panic!("expected a change-pin call"),
    }
    let done = s.complete(DeviceReply::Finished(Ok(())));
    assert!(matches!(done, Step::Done(Ok(Notice::PinChanged))));
    assert_eq!(s.lock_state(), LockState::Locked);
    assert!(!s.holds_secret());
    assert!(s.credentials().is_empty());
}

#[test]
fn first_pin_set_reports_pin_set() {
    let mut s = Session::new();
    s.request_change_pin(None, "5678".to_string());
    let done = s.complete(DeviceReply::Finished(Ok(())));
    assert!(matches!(done, Step::Done(Ok(Notice::PinSet))));
    assert_eq!(s.lock_state(), LockState::Locked);
}

#[test]
fn change_pin_failure_keeps_unlocked_session() {
    let mut s = unlocked_with("1234", vec![cred("c1")]);
    s.request_change_pin(Some("0000".to_string()), "5678".to_string());
    let done = s.complete(DeviceReply::Finished(Err(FidoError::InvalidPin)));
    assert!(matches!(done, Step::Done(Err(FidoError::InvalidPin))));
    assert_eq!(s.lock_state(), LockState::Unlocked);
    assert!(s.holds_secret());
}

#[test]
fn transport_failure_locks_on_any_call() {
    let mut s = unlocked_with("1234", vec![cred("c1")]);
    s.request_set_min_pin_length("1234".to_string(), 6);
    let done = s.complete(DeviceReply::Finished(Err(FidoError::TransportFailure)));
    assert!(matches!(done, Step::Done(Err(FidoError::TransportFailure))));
    assert_eq!(s.lock_state(), LockState::Locked);
    assert!(!s.holds_secret());
}

#[test]
fn min_pin_length_three_is_refused_locally() {
    let mut s = Session::new();
    let step = s.request_set_min_pin_length("1234".to_string(), 3);
    assert!(matches!(step, Step::Done(Err(FidoError::InvalidRequest))));
    assert!(!s.in_flight());
}

#[test]
fn min_pin_length_four_is_forwarded() {
    let mut s = Session::new();
    let step = s.request_set_min_pin_length("1234".to_string(), 4);
    match step {
        Step::Call(DeviceCall::SetMinPinLength { pin, length }) => {
            assert_eq!(pin, "1234");
            assert_eq!(length, 4);
        }
        _ => panic!("expected a set-min-length call"),
    }
    assert!(s.in_flight());
    let done = s.complete(DeviceReply::Finished(Ok(())));
    assert!(matches!(done, Step::Done(Ok(Notice::MinPinLengthSet { length: 4 }))));
    assert_eq!(s.lock_state(), LockState::Locked);
}

#[test]
fn unlock_when_unlocked_makes_no_call() {
    let mut s = unlocked_with("1234", vec![cred("c1"), cred("c2")]);
    let step = s.request_unlock("9999".to_string());
    assert!(matches!(step, Step::Done(Ok(Notice::Unlocked))));
    assert!(!s.in_flight());
    assert_eq!(s.lock_state(), LockState::Unlocked);
    assert_eq!(ids(&s), vec!["c1".to_string(), "c2".to_string()]);
}

#[test]
fn second_submit_while_in_flight_is_busy() {
    let mut s = unlocked_with("1234", vec![cred("c1")]);
    s.request_delete("c1".to_string());
    let second = s.request_delete("c1".to_string());
    assert!(matches!(second, Step::Done(Err(FidoError::SessionBusy))));
    let lock = s.request_lock();
    assert!(matches!(lock, Step::Done(Err(FidoError::SessionBusy))));
    assert_eq!(s.lock_state(), LockState::Unlocked);
    assert_eq!(ids(&s), vec!["c1".to_string()]);
    assert!(s.in_flight());
}

#[test]
fn lock_clears_secret_and_credentials() {
    let mut s = unlocked_with("1234", vec![cred("c1")]);
    let step = s.request_lock();
    assert!(matches!(step, Step::Done(Ok(Notice::Locked))));
    let (state, creds, busy) = s.query_state();
    assert_eq!(state, LockState::Locked);
    assert!(creds.is_empty());
    assert!(!busy);
    assert!(!s.holds_secret());
}

#[test]
fn stray_reply_is_refused() {
    let mut s = Session::new();
    assert!(!s.accepts(&DeviceReply::Finished(Ok(()))));
    let done = s.complete(DeviceReply::Finished(Ok(())));
    assert!(matches!(done, Step::Done(Err(FidoError::InvalidRequest))));
    s.request_unlock("1234".to_string());
    let wrong = DeviceReply::Finished(Ok(()));
    assert!(!s.accepts(&wrong));
    let done = s.complete(wrong);
    assert!(matches!(done, Step::Done(Err(FidoError::InvalidRequest))));
    assert!(s.in_flight());
    assert_eq!(s.lock_state(), LockState::Unlocking);
}

#[test]
fn credentials_compare_by_id() {
    let a = cred("c1");
    let mut b = cred("c1");
    b.user_name = "other".to_string();
    assert!(a == b);
    assert!(a != cred("c2"));
}
