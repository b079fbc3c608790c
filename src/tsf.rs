//! The platform's text services, where reconversion can come from.

use vstd::prelude::*;

verus! {

/// A failure reported by the platform's text services.
#[derive(Clone, Copy, Debug, PartialEq, Eq, Structural)]
pub struct TsfError {
    pub code: i32,
}

/// Asks for input settings local to the calling thread. Only the platform's
/// text services have such settings; without them there is nothing to set,
/// and the request succeeds.
pub fn set_thread_local_input_settings(thread_local_input_settings: bool) -> (r: Result<(), TsfError>)
    ensures
        r is Ok,
{
    Ok(())
}

/// Whether reconversion through the text services is available: the
/// thread-local settings were applied and, after that, a candidate provider
/// could be created (`provider_created` is false when it was not tried).
pub fn check_tsf_availability(settings_applied: bool, provider_created: bool) -> (r: bool)
    ensures
        r == (settings_applied && provider_created),
{
    if !settings_applied {
        return false;
    }
    provider_created
}

} // verus!
