//! The library's model of the firmware boot-services capability.
//!
//! The shim drives firmware through five services: the image loader
//! (the authentication gate), image unload, and protocol install and
//! uninstall on the caller's handle.  This module models exactly the
//! state the shim's contracts speak of: the secure-boot policy verdict,
//! a resource flag, and the protocol database of the one handle the
//! caller owns.  The embedding that talks to real firmware performs
//! each operation in the same order and hands the outcomes back; the
//! lifecycle logic itself is verified against this model.

use vstd::prelude::*;
use crate::status::Error;

verus! {

/// A firmware-managed opaque identifier on which protocol interfaces
/// are attached.
#[derive(Clone, Copy, Debug, PartialEq, Eq, Structural)]
pub struct Handle {
    pub id: u64,
}

/// A handle to an image that passed the firmware's authentication gate.
/// The shim never executes the image; it only unloads it again.
pub struct LoadedImage {
    /// The bytes the security policy approved.
    pub source: Ghost<Seq<u8>>,
}

/// The firmware state visible to the shim.
pub struct Firmware {
    /// The secure-boot policy's verdict on the envelope's signature.
    pub policy_accepts: bool,
    /// Firmware refuses allocating calls (image loads, installs).
    pub resources_low: bool,
    /// The device-path interface is installed on the caller's handle.
    pub dp_installed: bool,
    /// The file-load interface is installed on the caller's handle.
    pub lf_installed: bool,
    /// The descriptor bytes the device-path interface points at.
    pub dp_bytes: Vec<u8>,
    /// The payload served by the registered file-load interface.
    pub lf_payload: Ghost<Seq<u8>>,
}

/// Both firmware states agree on policy verdict and resource state:
/// the shim never changes either.
pub open spec fn same_policy(a: Firmware, b: Firmware) -> bool {
    &&& b.policy_accepts == a.policy_accepts
    &&& b.resources_low == a.resources_low
}

/// Both firmware states carry the same protocol database on the
/// handle.
pub open spec fn same_protocols(a: Firmware, b: Firmware) -> bool {
    &&& b.dp_installed == a.dp_installed
    &&& b.lf_installed == a.lf_installed
    &&& b.dp_bytes@ == a.dp_bytes@
    &&& b.lf_payload@ == a.lf_payload@
}

/// The firmware state is unchanged.
pub open spec fn unchanged(a: Firmware, b: Firmware) -> bool {
    same_policy(a, b) && same_protocols(a, b)
}

impl Firmware {
    /// A firmware state with a clean handle: no interfaces installed.
    pub fn new(policy_accepts: bool, resources_low: bool) -> (fw: Firmware)
        ensures
            fw.policy_accepts == policy_accepts,
            fw.resources_low == resources_low,
            !fw.dp_installed,
            !fw.lf_installed,
    {
        Firmware {
            policy_accepts,
            resources_low,
            dp_installed: false,
            lf_installed: false,
            dp_bytes: Vec::new(),
            lf_payload: Ghost(Seq::empty()),
        }
    }

    /// The image loader: submits the bytes to the authentication gate.
    /// Loading succeeds exactly when resources suffice and the
    /// security policy accepts the image's signature; the policy
    /// verdict passes through as `authentication-failed`.
    pub fn load_image(&self, source: &Vec<u8>) -> (r: Result<LoadedImage, Error>)
        ensures
            r is Ok <==> (self.policy_accepts && !self.resources_low),
            r matches Ok(image) ==> image.source@ == source@,
            r matches Err(e) ==> e == (if self.resources_low {
                Error::FirmwareResource
            } else {
                Error::AuthenticationFailed
            }),
    {
        if self.resources_low {
            Err(Error::FirmwareResource)
        } else if self.policy_accepts {
            Ok(LoadedImage { source: Ghost(source@) })
        } else {
            Err(Error::AuthenticationFailed)
        }
    }

    /// Releases an image handed back by the authentication gate.
    pub fn unload_image(&self, image: LoadedImage) -> (r: Result<(), Error>)
        ensures
            r is Ok,
    {
        let _ = image;
        Ok(())
    }

    /// Installs the device-path interface on the handle, pointing at
    /// the given descriptor bytes.
    pub fn install_device_path(&mut self, descriptor: Vec<u8>) -> (r: Result<(), Error>)
        requires
            !old(self).dp_installed,
        ensures
            r is Ok <==> !old(self).resources_low,
            r is Ok ==> {
                &&& final(self).dp_installed
                &&& final(self).dp_bytes@ == descriptor@
                &&& final(self).lf_installed == old(self).lf_installed
                &&& final(self).lf_payload@ == old(self).lf_payload@
                &&& same_policy(*old(self), *final(self))
            },
            r matches Err(e) ==> e == Error::FirmwareResource && unchanged(
                *old(self),
                *final(self),
            ),
    {
        if self.resources_low {
            return Err(Error::FirmwareResource);
        }
        self.dp_installed = true;
        self.dp_bytes = descriptor;
        Ok(())
    }

    /// Installs the file-load interface on the handle, pointing at the
    /// protocol object that serves the given payload.
    pub fn install_load_file(&mut self, payload: &Vec<u8>) -> (r: Result<(), Error>)
        requires
            !old(self).lf_installed,
        ensures
            r is Ok <==> !old(self).resources_low,
            r is Ok ==> {
                &&& final(self).lf_installed
                &&& final(self).lf_payload@ == payload@
                &&& final(self).dp_installed == old(self).dp_installed
                &&& final(self).dp_bytes@ == old(self).dp_bytes@
                &&& same_policy(*old(self), *final(self))
            },
            r matches Err(e) ==> e == Error::FirmwareResource && unchanged(
                *old(self),
                *final(self),
            ),
    {
        if self.resources_low {
            return Err(Error::FirmwareResource);
        }
        self.lf_installed = true;
        self.lf_payload = Ghost(payload@);
        Ok(())
    }

    /// Removes the device-path interface from the handle.
    pub fn uninstall_device_path(&mut self) -> (r: Result<(), Error>)
        requires
            old(self).dp_installed,
        ensures
            r is Ok,
            !final(self).dp_installed,
            final(self).lf_installed == old(self).lf_installed,
            final(self).lf_payload@ == old(self).lf_payload@,
            same_policy(*old(self), *final(self)),
    {
        self.dp_installed = false;
        Ok(())
    }

    /// Removes the file-load interface from the handle.
    pub fn uninstall_load_file(&mut self) -> (r: Result<(), Error>)
        requires
            old(self).lf_installed,
        ensures
            r is Ok,
            !final(self).lf_installed,
            final(self).dp_installed == old(self).dp_installed,
            final(self).dp_bytes@ == old(self).dp_bytes@,
            same_policy(*old(self), *final(self)),
    {
        self.lf_installed = false;
        Ok(())
    }
}

} // verus!
