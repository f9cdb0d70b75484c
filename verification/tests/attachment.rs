use std::cell::RefCell;
use std::rc::Rc;

use droidbridge::contract::common::ErrorCode;
use droidbridge::daemon::attachment::{
    attachment_failure, handle_from_fact, ProcessNetworkAttachment, ProcessNetworkBinder,
    NETWORK_UNSPECIFIED,
};
use droidbridge::error::DomainError;

/// One scripted device: it records every call it receives and refuses the calls whose
/// handle its script names.
#[derive(Clone, Default)]
struct ScriptedBinder {
    calls: Rc<RefCell<Vec<u64>>>,
    refused: Rc<RefCell<Vec<u64>>>,
}

impl ScriptedBinder {
    fn refusing(handle: u64) -> Self {
        Self {
            calls: Rc::new(RefCell::new(Vec::new())),
            refused: Rc::new(RefCell::new(vec![handle])),
        }
    }

    fn calls(&self) -> Vec<u64> {
        self.calls.borrow().clone()
    }
}

impl ProcessNetworkBinder for ScriptedBinder {
    fn set_process_network(&mut self, handle: u64) -> Result<(), DomainError> {
        self.calls.borrow_mut().push(handle);
        if self.refused.borrow().contains(&handle) {
            return Err(DomainError::new(
                ErrorCode::PermissionDenied,
                "process network attachment is not permitted",
            ));
        }
        Ok(())
    }
}

fn attachment(binder: &ScriptedBinder) -> ProcessNetworkAttachment<ScriptedBinder> {
    ProcessNetworkAttachment::new(binder.clone())
}

#[test]
fn i8_net_g18_a_companion_handle_binds_the_process_once_and_clears_it() {
    let device = ScriptedBinder::default();
    let mut binding = attachment(&device);
    assert!(device.calls().is_empty());

    binding.apply(Some("100")).expect("bind");
    assert_eq!(device.calls(), vec![100]);

    binding.apply(Some("100")).expect("bind");
    assert_eq!(device.calls(), vec![100]);

    binding.apply(Some("101")).expect("rebind");
    assert_eq!(device.calls(), vec![100, 101]);

    binding.apply(None).expect("clear");
    assert_eq!(device.calls(), vec![100, 101, NETWORK_UNSPECIFIED]);
    binding.clear().expect("clear");
    assert_eq!(device.calls(), vec![100, 101, NETWORK_UNSPECIFIED]);
}

#[test]
fn i8_net_g19_an_unusable_fact_never_becomes_a_binding() {
    let device = ScriptedBinder::default();
    let mut binding = attachment(&device);

    let unusable = binding.apply(Some("tun0")).expect_err("not a handle");
    assert_eq!(unusable.code, ErrorCode::InvalidArgument);
    assert!(device.calls().is_empty());

    let refused = ScriptedBinder::refusing(101);
    let mut binding = attachment(&refused);
    let failure = binding.apply(Some("101")).expect_err("refused");
    assert_eq!(failure.code, ErrorCode::PermissionDenied);
    assert_eq!(refused.calls(), vec![101]);

    let accepted = ScriptedBinder::default();
    let mut binding = attachment(&accepted);
    binding.apply(Some("101")).expect("retry");
    binding.apply(Some("101")).expect("unchanged");
    assert_eq!(accepted.calls(), vec![101]);

    let unspecified = ScriptedBinder::default();
    let mut binding = attachment(&unspecified);
    binding.apply(Some("101")).expect("bind");
    binding.apply(Some("0")).expect("clear");
    binding.clear().expect("already clear");
    assert_eq!(unspecified.calls(), vec![101, NETWORK_UNSPECIFIED]);
}

#[test]
fn a_refused_handle_is_asked_for_again() {
    let device = ScriptedBinder::refusing(101);
    let mut binding = attachment(&device);
    assert!(binding.apply(Some("101")).is_err());
    device.refused.borrow_mut().clear();
    binding.apply(Some("101")).expect("retry");
    assert_eq!(device.calls(), vec![101, 101]);
}

#[test]
fn a_fact_is_a_decimal_handle() {
    assert_eq!(handle_from_fact(None).unwrap(), None);
    assert_eq!(handle_from_fact(Some("0")).unwrap(), None);
    assert_eq!(
        handle_from_fact(Some("18446744073709551615")).unwrap(),
        Some(u64::MAX)
    );
    assert!(handle_from_fact(Some("18446744073709551616")).is_err());
    assert!(handle_from_fact(Some("-1")).is_err());
    assert!(handle_from_fact(Some("")).is_err());
}

#[test]
fn a_failed_binding_is_told_by_its_cause() {
    let missing = attachment_failure(64);
    assert_eq!(missing.reason, "the reported default network no longer exists");
    let other = attachment_failure(5);
    assert_eq!(other.code, ErrorCode::IoError);
    assert_eq!(other.reason, "process network attachment failed");
}
