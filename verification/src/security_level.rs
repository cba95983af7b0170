//! The security level itself.

use crate::types::{Error, SecurityLevel};
use vstd::prelude::*;

verus! {

/// Serves the requests of clients for the keys of one security level.
///
/// The device, and the operations in progress on it, are with whoever performs the calls
/// that the requests wait for.
#[derive(Clone, Copy, Debug, PartialEq, Eq, Structural)]
pub struct KeystoreSecurityLevel {
    pub security_level: SecurityLevel,
}

/// Waits for the KeyMint device of the security level `security_level`.
#[derive(Debug, PartialEq, Eq)]
pub struct GetKeymintDevice {
    pub security_level: SecurityLevel,
}

/// A security level that is ready to be served, with the device `D` behind it.
#[derive(Debug, PartialEq, Eq)]
pub struct NativeBinder<D> {
    pub service: KeystoreSecurityLevel,
    pub keymint: D,
    /// Whether the interface asks for the security context of its callers, which the
    /// permission checks need.
    pub requesting_sid: bool,
}

impl KeystoreSecurityLevel {
    /// Begins to set up the security level `security_level`.
    pub fn new_native_binder(security_level: SecurityLevel) -> (r: GetKeymintDevice)
        ensures
            r.security_level == security_level,
    {
        GetKeymintDevice { security_level }
    }
}

impl GetKeymintDevice {
    /// Takes the device. Without one there is nothing to serve.
    pub fn resume<D>(self, device: Result<D, Error>) -> (r: Result<NativeBinder<D>, Error>)
        ensures
            r == (match device {
                Ok(keymint) => Ok(
                    NativeBinder {
                        service: KeystoreSecurityLevel { security_level: self.security_level },
                        keymint,
                        requesting_sid: true,
                    },
                ),
                Err(e) => Err(e),
            }),
    {
        match device {
            Ok(keymint) => Ok(
                NativeBinder {
                    service: KeystoreSecurityLevel { security_level: self.security_level },
                    keymint,
                    requesting_sid: true,
                },
            ),
            Err(e) => Err(e),
        }
    }
}

/// A security level is served with the device that was asked for at that level, and asks for
/// the security context of its callers. Without the device it is not served, for the reason
/// that the device is not there.
pub proof fn law_level_is_served_with_its_device<D>(
    security_level: SecurityLevel,
    pending: GetKeymintDevice,
    device: Result<D, Error>,
    r: Result<NativeBinder<D>, Error>,
)
    requires
        call_ensures(KeystoreSecurityLevel::new_native_binder, (security_level,), pending),
        call_ensures(GetKeymintDevice::resume::<D>, (pending, device), r),
    ensures
        pending.security_level == security_level,
        r is Ok <==> device is Ok,
        r matches Ok(binder) ==> {
            &&& binder.service.security_level == security_level
            &&& binder.keymint == device->Ok_0
            &&& binder.requesting_sid
        },
        r is Err ==> r->Err_0 == device->Err_0,
{
}

} // verus!
