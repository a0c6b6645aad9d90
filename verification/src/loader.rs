//! The installation lifecycle.
//!
//! `InitrdLoader::new` authenticates the envelope, locates and extracts
//! the payload in place, and registers the device-path and file-load
//! interfaces on the caller's handle, in exactly that order.
//! `uninstall` detaches both interfaces again.  A loader must be
//! uninstalled before it is destroyed: while it is registered, firmware
//! holds a pointer into the protocol object it owns.

use vstd::prelude::*;
use crate::device_path;
use crate::envelope;
use crate::firmware;
use crate::firmware::{Firmware, Handle};
use crate::load_file;
use crate::load_file::LoadFile2Protocol;
use crate::status::{Error, LoadStatus};

verus! {

/// A loader that owns the pinned file-load protocol object and tracks
/// whether its interfaces are registered on the handle.
pub struct InitrdLoader {
    proto: LoadFile2Protocol,
    handle: Handle,
    registered: bool,
}

/// The error `new` reports, by the first step of the creation order
/// that fails: the authentication probe (resources, then policy), then
/// the envelope parse.
pub open spec fn create_error(fw: Firmware, envelope: Seq<u8>) -> Error {
    if fw.resources_low {
        Error::FirmwareResource
    } else if !fw.policy_accepts {
        Error::AuthenticationFailed
    } else if !envelope::header_ok(envelope) {
        Error::InvalidEnvelope
    } else if !envelope::has_initrd_section(envelope) {
        Error::PayloadMissing
    } else {
        Error::InvalidEnvelope
    }
}

/// `new` succeeds: the inputs that owe success.
pub open spec fn create_succeeds(fw: Firmware, envelope: Seq<u8>) -> bool {
    &&& fw.policy_accepts
    &&& !fw.resources_low
    &&& envelope::well_formed_envelope(envelope)
}

/// The effect of a successful `new` on the firmware and the returned
/// loader: both interfaces registered on the handle, the device-path
/// interface pointing at the exact descriptor bytes, the file-load
/// interface and the loader both serving the envelope's payload.
pub open spec fn create_ok(
    fw0: Firmware,
    fw1: Firmware,
    envelope: Seq<u8>,
    handle: Handle,
    loader: InitrdLoader,
) -> bool {
    &&& create_succeeds(fw0, envelope)
    &&& loader.registered()
    &&& loader.on_handle() == handle
    &&& loader.payload() == envelope::payload_of(envelope)
    &&& fw1.dp_installed
    &&& fw1.lf_installed
    &&& fw1.dp_bytes@ == device_path::descriptor_bytes()
    &&& fw1.lf_payload@ == envelope::payload_of(envelope)
    &&& firmware::same_policy(fw0, fw1)
}

/// The effect of `uninstall` on the firmware: both interfaces removed
/// from the handle, policy and resource state untouched.
pub open spec fn uninstall_ok(fw1: Firmware, fw2: Firmware) -> bool {
    &&& !fw2.dp_installed
    &&& !fw2.lf_installed
    &&& firmware::same_policy(fw1, fw2)
}

/// Checks the signature of the envelope: submits the whole envelope to
/// the firmware's image loader, which runs the secure-boot
/// verification pipeline, and immediately discards the loaded image.
/// A successful load witnesses that the bytes carry a signature
/// acceptable to current policy; a rejection passes through.  The
/// firmware state is never changed.
pub fn initrd_verify(fw: &Firmware, initrd_efi: &Vec<u8>) -> (r: Result<(), Error>)
    ensures
        r is Ok <==> (fw.policy_accepts && !fw.resources_low),
        r matches Err(e) ==> e == (if fw.resources_low {
            Error::FirmwareResource
        } else {
            Error::AuthenticationFailed
        }),
{
    let image = match fw.load_image(initrd_efi) {
        Ok(image) => image,
        Err(e) => {
            return Err(e);
        },
    };
    match fw.unload_image(image) {
        Ok(u) => u,
        Err(e) => {
            return Err(e);
        },
    };
    Ok(())
}

impl InitrdLoader {
    /// The loader's interfaces are currently registered on the handle.
    pub closed spec fn registered(&self) -> bool {
        self.registered
    }

    /// The payload the loader owns and serves.
    pub closed spec fn payload(&self) -> Seq<u8> {
        self.proto.initrd_data@
    }

    /// The handle the loader's interfaces are registered on.
    pub closed spec fn on_handle(&self) -> Handle {
        self.handle
    }

    /// Creates a new loader: authenticates the envelope through the
    /// firmware's image loader, locates the `.initrd` payload,
    /// compacts the envelope buffer in place to exactly the payload,
    /// and registers the device-path and then the file-load interface
    /// on `handle`.
    ///
    /// Succeeds exactly when firmware resources suffice, the policy
    /// accepts the envelope's signature, and the envelope is well
    /// formed.  On any failure the firmware state is left untouched:
    /// no interface is installed and nothing is retained.
    pub fn new(fw: &mut Firmware, handle: Handle, initrd_data: Vec<u8>) -> (r: Result<
        InitrdLoader,
        Error,
    >)
        requires
            !old(fw).dp_installed,
            !old(fw).lf_installed,
        ensures
            r is Ok <==> create_succeeds(*old(fw), initrd_data@),
            match r {
                Ok(loader) => create_ok(*old(fw), *final(fw), initrd_data@, handle, loader),
                Err(e) => {
                    &&& e == create_error(*old(fw), initrd_data@)
                    &&& firmware::unchanged(*old(fw), *final(fw))
                },
            },
    {
        match initrd_verify(fw, &initrd_data) {
            Ok(u) => u,
            Err(e) => {
                return Err(e);
            },
        };
        let range = match envelope::initrd_location(&initrd_data) {
            Ok(range) => range,
            Err(e) => {
                return Err(e);
            },
        };
        let mut data = initrd_data;
        envelope::extract_payload(&mut data, range);
        let proto = LoadFile2Protocol { initrd_data: data };
        match fw.install_device_path(device_path::descriptor()) {
            Ok(u) => u,
            Err(e) => {
                return Err(e);
            },
        };
        match fw.install_load_file(&proto.initrd_data) {
            Ok(u) => u,
            Err(e) => {
                return Err(e);
            },
        };
        Ok(InitrdLoader { proto, handle, registered: true })
    }

    /// Detaches the device-path and then the file-load interface from
    /// the handle and marks the loader unregistered.  Must be called
    /// exactly once, before the loader is destroyed.
    pub fn uninstall(&mut self, fw: &mut Firmware) -> (r: Result<(), Error>)
        requires
            old(self).registered(),
            old(fw).dp_installed,
            old(fw).lf_installed,
        ensures
            r is Ok,
            !final(self).registered(),
            final(self).payload() == old(self).payload(),
            final(self).on_handle() == old(self).on_handle(),
            uninstall_ok(*old(fw), *final(fw)),
    {
        match fw.uninstall_device_path() {
            Ok(u) => u,
            Err(e) => {
                return Err(e);
            },
        };
        match fw.uninstall_load_file() {
            Ok(u) => u,
            Err(e) => {
                return Err(e);
            },
        };
        self.registered = false;
        Ok(())
    }

    /// Consumes an uninstalled loader.  A loader still registered may
    /// not be destroyed: firmware would retain a pointer to freed
    /// memory, so the unverified embedding treats that as a fatal
    /// programming error.  Here the registered state is excluded
    /// outright, and no firmware capability is taken: destruction
    /// performs no firmware calls.
    pub fn destroy(self)
        requires
            !self.registered(),
    {
    }

    /// The file-load entrypoint as the kernel invokes it on the
    /// registered protocol object; see
    /// [`LoadFile2Protocol::load_file`] for the exact semantics.
    pub fn load_file(
        &self,
        buffer_present: bool,
        buffer_size: &mut usize,
        buffer: &mut Vec<u8>,
    ) -> (st: LoadStatus)
        requires
            buffer_present ==> old(buffer)@.len() == *old(buffer_size),
        ensures
            *final(buffer_size) == self.payload().len(),
            st == LoadStatus::BufferTooSmall <==> load_file::load_refused(
                self.payload(),
                buffer_present,
                *old(buffer_size) as int,
            ),
            st == LoadStatus::BufferTooSmall ==> final(buffer)@ == old(buffer)@,
            st == LoadStatus::Success ==> final(buffer)@ == load_file::loaded_buffer(
                self.payload(),
                old(buffer)@,
            ),
    {
        self.proto.load_file(buffer_present, buffer_size, buffer)
    }

    /// The loader's interfaces are currently registered.
    pub fn is_registered(&self) -> (b: bool)
        ensures
            b == self.registered(),
    {
        self.registered
    }

    /// The length of the owned payload.
    pub fn payload_len(&self) -> (n: usize)
        ensures
            n == self.payload().len(),
    {
        self.proto.initrd_data.len()
    }

    /// The handle the loader's interfaces are registered on.
    pub fn handle(&self) -> (h: Handle)
        ensures
            h == self.on_handle(),
    {
        self.handle
    }
}

/// Creating a loader and then uninstalling it is the identity on the
/// handle's protocol set: the two interfaces it installed are exactly
/// the two it removed, and the policy and resource state never change.
pub proof fn lemma_create_uninstall_identity(
    fw0: Firmware,
    fw1: Firmware,
    fw2: Firmware,
    envelope: Seq<u8>,
    handle: Handle,
    loader: InitrdLoader,
)
    requires
        !fw0.dp_installed,
        !fw0.lf_installed,
        create_ok(fw0, fw1, envelope, handle, loader),
        uninstall_ok(fw1, fw2),
    ensures
        fw2.dp_installed == fw0.dp_installed,
        fw2.lf_installed == fw0.lf_installed,
        firmware::same_policy(fw0, fw2),
{
}

/// Round trip: the bytes a successful `new` serves, re-read through
/// the file-load entrypoint into a sufficient buffer, equal the
/// contents of the `.initrd` section of the original envelope.
pub proof fn lemma_payload_round_trip(
    fw0: Firmware,
    fw1: Firmware,
    envelope: Seq<u8>,
    handle: Handle,
    loader: InitrdLoader,
    buffer0: Seq<u8>,
    buffer1: Seq<u8>,
)
    requires
        create_ok(fw0, fw1, envelope, handle, loader),
        buffer0.len() >= loader.payload().len(),
        buffer1 == load_file::loaded_buffer(loader.payload(), buffer0),
    ensures
        buffer1.take(envelope::payload_size(envelope)) == envelope.subrange(
            envelope::payload_start(envelope),
            envelope::payload_start(envelope) + envelope::payload_size(envelope),
        ),
        buffer1.len() == buffer0.len(),
{
    let payload = loader.payload();
    assert(buffer1.take(payload.len() as int) =~= payload);
    assert(buffer1.len() == payload.len() + (buffer0.len() - payload.len()));
}

} // verus!
