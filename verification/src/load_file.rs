//! The file-load protocol object.
//!
//! The object owns the stripped initrd payload and presents the
//! firmware file-load contract: a single entrypoint that copies the
//! payload into a caller-supplied buffer, or reports the required size
//! when the buffer is absent or too short.
//!
//! At the foreign boundary the object is a structure whose first field
//! is a raw function pointer in the firmware calling convention; that
//! raw shell lives outside the library.  Here the caller's raw buffer
//! is modelled by its presence flag, the in/out size slot, and the
//! buffer contents, so the copy semantics can be stated and proved
//! exactly.

use vstd::prelude::*;
use vstd::pervasive::VecAdditionalExecFns;
use crate::status::LoadStatus;

verus! {

/// The entrypoint refuses the call and only reports the payload length:
/// the caller supplied no buffer, or declared a size strictly below the
/// payload length.
pub open spec fn load_refused(payload: Seq<u8>, buffer_present: bool, declared_size: int) -> bool {
    !buffer_present || declared_size < payload.len()
}

/// The buffer contents after a successful load: the payload at offset
/// zero, the remainder of the buffer untouched.
pub open spec fn loaded_buffer(payload: Seq<u8>, buffer: Seq<u8>) -> Seq<u8> {
    payload + buffer.skip(payload.len() as int)
}

/// The file-load protocol object: owns the payload bytes served to the
/// kernel.  The payload is never mutated after construction.
pub struct LoadFile2Protocol {
    /// The stripped initrd payload.
    pub initrd_data: Vec<u8>,
}

impl LoadFile2Protocol {
    /// The single method of the file-load contract.
    ///
    /// `buffer_present` stands for a non-null output buffer pointer;
    /// `buffer_size` is the in/out size slot, on entry the declared
    /// length of the caller's buffer; `buffer` holds the buffer
    /// contents.  The boot-policy argument of the foreign signature is
    /// not consulted and is not modelled; the device-path argument is
    /// likewise ignored.
    ///
    /// The size slot always receives the payload length.  When the
    /// buffer is absent or declared too short nothing is written and
    /// the call returns `buffer-too-small`; otherwise exactly the
    /// payload is copied to offset zero and the call succeeds.
    pub fn load_file(
        &self,
        buffer_present: bool,
        buffer_size: &mut usize,
        buffer: &mut Vec<u8>,
    ) -> (st: LoadStatus)
        requires
            buffer_present ==> old(buffer)@.len() == *old(buffer_size),
        ensures
            *final(buffer_size) == self.initrd_data@.len(),
            st == LoadStatus::BufferTooSmall <==> load_refused(
                self.initrd_data@,
                buffer_present,
                *old(buffer_size) as int,
            ),
            st == LoadStatus::BufferTooSmall ==> final(buffer)@ == old(buffer)@,
            st == LoadStatus::Success ==> final(buffer)@ == loaded_buffer(
                self.initrd_data@,
                old(buffer)@,
            ),
    {
        let len = self.initrd_data.len();
        if !buffer_present || *buffer_size < len {
            *buffer_size = len;
            return LoadStatus::BufferTooSmall;
        }
        *buffer_size = len;
        let mut i: usize = 0;
        while i < len
            invariant
                len == self.initrd_data@.len(),
                buffer@.len() == old(buffer)@.len() >= len,
                i <= len,
                forall|j: int| 0 <= j < i ==> buffer@[j] == self.initrd_data@[j],
                forall|j: int| i <= j < buffer@.len() ==> buffer@[j] == old(buffer)@[j],
            decreases len - i,
        {
            let b = self.initrd_data[i];
            buffer.set(i, b);
            i = i + 1;
        }
        proof {
            assert(buffer@ =~= loaded_buffer(self.initrd_data@, old(buffer)@));
        }
        LoadStatus::Success
    }
}

} // verus!
