use vigem_client::Error;
use vigem_client::resolve_plug_in;

#[test]
fn both_stages_succeeding_yields_no_error() {
    assert_eq!(resolve_plug_in(None, None, None), None);
}

#[test]
fn a_failed_add_is_returned_as_is() {
    assert_eq!(
        resolve_plug_in(Some(Error::NoFreeSlot), None, None),
        Some(Error::NoFreeSlot)
    );
}

#[test]
fn a_failed_registration_with_clean_rollback_returns_only_the_registration_error() {
    assert_eq!(
        resolve_plug_in(None, Some(Error::CallbackAlreadyRegistered), None),
        Some(Error::CallbackAlreadyRegistered)
    );
}

#[test]
fn a_failed_rollback_yields_the_compound_error_carrying_both() {
    assert_eq!(
        resolve_plug_in(
            None,
            Some(Error::CallbackAlreadyRegistered),
            Some(Error::RemovalFailed)
        ),
        Some(Error::PlugInError(
            Box::new(Error::CallbackAlreadyRegistered),
            Box::new(Error::RemovalFailed)
        ))
    );
}
