//! The plug-in rollback rules: how the answers the driver gives during the
//! three-stage attach sequence (add the target, then register the
//! notification callback, undoing the add if registration fails) combine
//! into the single error the caller sees.

use vstd::prelude::*;

use crate::errors::Error;

verus! {

/// Decides the outcome of one plug-in attempt from the driver's answers:
/// `add_error` from the add-target call, `register_error` from the
/// register-notification call (made only if the add succeeded), and
/// `remove_error` from the remove-target rollback (attempted only if
/// registration failed). Callers pass `None` for a call that succeeded or
/// was never made. `None` comes back exactly when both attach stages
/// succeeded; a failed rollback yields the compound error carrying both the
/// registration error and the removal error.
pub fn resolve_plug_in(
    add_error: Option<Error>,
    register_error: Option<Error>,
    remove_error: Option<Error>,
) -> (r: Option<Error>)
    ensures
        add_error is Some ==> r == add_error,
        add_error is None && register_error is None ==> r is None,
        add_error is None && register_error is Some && remove_error is None ==> r
            == register_error,
        add_error is None && register_error is Some && remove_error is Some ==> ({
            let e = register_error.unwrap();
            let e2 = remove_error.unwrap();
            r is Some && (r.unwrap() matches Error::PlugInError(primary, secondary) && *primary
                == e && *secondary == e2)
        }),
{
    match add_error {
        Some(e) => Some(e),
        None => match register_error {
            None => None,
            Some(e) => match remove_error {
                None => Some(e),
                Some(e2) => Some(Error::PlugInError(Box::new(e), Box::new(e2))),
            },
        },
    }
}

} // verus!
