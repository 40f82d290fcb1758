//! The command side of the uvdevice protocol: the per-call control block,
//! the command capability, and the interpretation of Ultravisor response
//! codes into success values or structured errors.
//!
//! The device file itself is owned by the embedding program: it opens the
//! device, issues the one blocking ioctl on the 64-byte control block
//! image, and hands the mutated image back to this module.

use vstd::prelude::*;
use crate::ffi::uvio_ioctl_cb;
use crate::ffi::UVIO_IOCTL_CB_SIZE;
use crate::ffi::UVIO_ATT_USER_DATA_LEN;
use crate::ffi::UVIO_ATT_UID_LEN;

verus! {

/// User data of an attestation request, included in the measurement.
pub type AttestationUserData = [u8; UVIO_ATT_USER_DATA_LEN];

/// Configuration unique id of the secure execution guest.
pub type ConfigUid = [u8; UVIO_ATT_UID_LEN];

/// Response code reported by the Ultravisor for an ordinary success.
pub const RC_SUCCESS: u16 = 0x0001;

/// Response code reported by the Ultravisor when the command succeeded but
/// the caller's buffer was too small to hold all available data.
pub const RC_MORE_DATA: u16 = 0x0100;

/// What went wrong while opening the device file.
#[derive(Debug, Clone, Copy, PartialEq, Eq, Structural)]
pub enum FileAccessErrorType {
    /// The file could not be opened.
    Open,
}

/// The errors of the uvdevice command layer.
///
/// None of them is ever retried: a caller-side violation stays wrong, and
/// an Ultravisor verdict does not change on replay of the same request.
#[derive(Debug)]
pub enum Error {
    /// Caller-side contract violation, found before any device
    /// interaction: the payload does not fit the protocol's 32-bit
    /// length field.
    Specification(String),
    /// The device file could not be opened; carries the raw OS error.
    FileAccess { ty: FileAccessErrorType, path: String, raw_os_error: i32 },
    /// The ioctl itself failed at the operating-system level; carries
    /// the raw OS error.
    Os { raw_os_error: i32 },
    /// The Ultravisor accepted the call but reported a non-success
    /// response/reason code pair; carries both raw codes and a
    /// best-effort human readable text.
    Uv { rc: u16, rrc: u16, msg: &'static str },
}

/// Ultravisor command: anything that can name its ioctl, optionally
/// carry payload data, and explain command-specific response codes.
pub trait UvCmd {
    /// Returns the uvdevice ioctl command that this command uses,
    /// usually `uv_ioctl(nr)` for the command's sub-number.
    fn cmd(&self) -> u64;

    /// Converts command-specific UV return codes into human readable
    /// error messages.
    ///
    /// There is no need to handle `0x0000`, `0x0002`, `0x0005`,
    /// `0x0030`, `0x0031`, `0x0032` (the generic table owns them) nor
    /// `0x0001` and `0x0100` (successes).
    fn rc_fmt(&self, rc: u16, rrc: u16) -> Option<&'static str>;

    /// Returns data used by this command if available.
    fn data(&mut self) -> Option<&mut [u8]> {
        None
    }
}

/// The generic return-code-to-text table: the six reserved Ultravisor
/// response codes whose meaning every command shares.
pub open spec fn spec_generic_rc_text(rc: u16) -> Option<Seq<char>> {
    if rc == 0x0000 {
        Some("invalid rc"@)
    } else if rc == 0x0002 {
        Some("invalid UV command"@)
    } else if rc == 0x0005 {
        Some("request has an invalid size"@)
    } else if rc == 0x0030 {
        Some("home address space control bit has R-bit set to one"@)
    } else if rc == 0x0031 {
        Some("access exception"@)
    } else if rc == 0x0032 {
        Some("request contains virtual address translating to an invalid address"@)
    } else {
        None
    }
}

/// The text reported for a non-success response code, given what the
/// command's own table said of the pair: the generic table wins, then the
/// command's text, then the fixed fallback.
pub open spec fn spec_rc_text(rc: u16, specific: Option<Seq<char>>) -> Seq<char> {
    match spec_generic_rc_text(rc) {
        Some(t) => t,
        None => match specific {
            Some(t) => t,
            None => "unexpected error-code"@,
        },
    }
}

/// The view of an optional message.
pub open spec fn spec_text_of(o: Option<&'static str>) -> Option<Seq<char>> {
    match o {
        Some(s) => Some(s@),
        None => None,
    }
}

/// Looks a response code up in the generic table.
pub fn generic_rc_fmt(rc: u16) -> (r: Option<&'static str>)
    ensures
        spec_text_of(r) == spec_generic_rc_text(rc),
{
    match rc {
        0x0000 => Some("invalid rc"),
        0x0002 => Some("invalid UV command"),
        0x0005 => Some("request has an invalid size"),
        0x0030 => Some("home address space control bit has R-bit set to one"),
        0x0031 => Some("access exception"),
        0x0032 => Some("request contains virtual address translating to an invalid address"),
        _ => None,
    }
}

/// Converts a UV return code pair into a human readable error message,
/// given the command's own text for the pair, if any.
pub fn rc_fmt_with(rc: u16, rrc: u16, specific: Option<&'static str>) -> (r: &'static str)
    requires
        rc != RC_SUCCESS,
        rc != RC_MORE_DATA,
    ensures
        r@ == spec_rc_text(rc, spec_text_of(specific)),
{
    let generic = generic_rc_fmt(rc);
    match generic {
        Some(s) => s,
        None => match specific {
            Some(s) => s,
            None => "unexpected error-code",
        },
    }
}

/// Converts UV return codes into human readable error messages: the
/// generic table is asked first, then the command; with neither, the
/// fixed fallback text is returned. Success codes are no errors and are
/// excluded by contract.
///
/// What the command answers is its implementer's business and is pinned
/// down nowhere; [`rc_fmt_with`], which takes that answer as an
/// argument, carries the exact contract for every possible answer.
pub fn rc_fmt<C: UvCmd>(rc: u16, rrc: u16, cmd: &mut C) -> (r: &'static str)
    requires
        rc != RC_SUCCESS,
        rc != RC_MORE_DATA,
    ensures
        spec_generic_rc_text(rc) is Some ==> Some(r@) == spec_generic_rc_text(rc),
{
    let specific = match generic_rc_fmt(rc) {
        Some(_) => None,
        None => cmd.rc_fmt(rc, rrc),
    };
    rc_fmt_with(rc, rrc, specific)
}

/// Law: for a pair the generic table does not own, a command's own text
/// is the reported text.
pub proof fn lemma_specific_text_applies(rc: u16, s: Seq<char>)
    requires
        spec_generic_rc_text(rc) is None,
    ensures
        spec_rc_text(rc, Some(s)) == s,
{
}

/// Law: the six reserved generic codes are never overridden: whatever
/// text a command supplies, a reserved code reports the generic text.
pub proof fn lemma_generic_text_precedence(rc: u16, s: Option<Seq<char>>)
    requires
        spec_generic_rc_text(rc) is Some,
    ensures
        spec_rc_text(rc, s) == spec_generic_rc_text(rc)->0,
{
}

/// The per-call ioctl control block handed to the uvdevice.
#[derive(Debug)]
pub struct IoctlCb(pub uvio_ioctl_cb);

impl IoctlCb {
    /// Builds the control block for one call from the command's optional
    /// payload buffer, given as address and exact byte length.
    ///
    /// `None` means no argument data: zero address and zero length. A
    /// buffer whose length does not fit the protocol's 32-bit length
    /// field is a specification violation and is refused here, before
    /// any device interaction. All response fields and the reserved
    /// flags start zeroed.
    pub fn new(data: Option<(u64, usize)>) -> (r: Result<Self, Error>)
        ensures
            r is Ok <==> (data is None || (data matches Some(d) && d.1 <= 0xFFFF_FFFF)),
            r is Err ==> r->Err_0 is Specification,
            r matches Ok(cb) ==> {
                &&& cb.0.flags == 0
                &&& cb.0.uv_rc == 0
                &&& cb.0.uv_rrc == 0
                &&& (data matches Some(d) ==> cb.0.argument_addr == d.0 && cb.0.argument_len
                    == d.1 as u32)
                &&& (data is None ==> cb.0.argument_addr == 0 && cb.0.argument_len == 0)
                &&& cb.0.reserved14@ == Seq::<u8>::new(44, |i: int| 0u8)
            },
    {
        let (data_raw, data_size): (u64, u32) = match data {
            Some((addr, len)) => {
                if len > 0xFFFF_FFFFusize {
                    return Err(Error::Specification("passed data too large".to_string()));
                }
                (addr, len as u32)
            },
            None => (0, 0),
        };
        let cb = uvio_ioctl_cb {
            flags: 0,
            uv_rc: 0,
            uv_rrc: 0,
            argument_addr: data_raw,
            argument_len: data_size,
            reserved14: [0u8; 44],
        };
        proof {
            assert(cb.reserved14@ =~= Seq::<u8>::new(44, |i: int| 0u8));
        }
        Ok(IoctlCb(cb))
    }

    /// The response code the Ultravisor left in the block.
    pub fn rc(&self) -> (r: u16)
        ensures
            r == self.0.uv_rc,
    {
        self.0.uv_rc
    }

    /// The reason response code the Ultravisor left in the block.
    pub fn rrc(&self) -> (r: u16)
        ensures
            r == self.0.uv_rrc,
    {
        self.0.uv_rrc
    }

    /// The exact 64-byte wire image of the block. The embedding program
    /// passes this image to the ioctl in place of a raw pointer to the
    /// structure, and hands the mutated image back to [`IoctlCb::from_bytes`].
    pub fn to_bytes(&self) -> (r: Vec<u8>)
        ensures
            r@ == uvio_ioctl_cb::spec_to_bytes(self.0),
            r@.len() == UVIO_IOCTL_CB_SIZE,
    {
        self.0.to_bytes()
    }

    /// Decodes a control block out of its 64-byte wire image.
    pub fn from_bytes(b: &[u8]) -> (r: Self)
        requires
            b@.len() == UVIO_IOCTL_CB_SIZE,
        ensures
            uvio_ioctl_cb::spec_to_bytes(r.0) == b@,
    {
        IoctlCb(uvio_ioctl_cb::from_bytes(b))
    }
}

/// The two Ultravisor response codes that represent a successful execution.
#[derive(Debug, Clone, Copy, PartialEq, Eq, Structural)]
#[allow(non_camel_case_types)]
pub enum UvcSuccess {
    /// Command executed successfully.
    RC_SUCCESS,
    /// Command executed successfully, but there is more data available and
    /// the buffer was too small to hold it all. The returned data is still
    /// valid.
    RC_MORE_DATA,
}

impl UvcSuccess {
    /// The raw response code this success value stands for.
    pub fn value(&self) -> (r: u16)
        ensures
            self is RC_SUCCESS ==> r == RC_SUCCESS,
            self is RC_MORE_DATA ==> r == RC_MORE_DATA,
    {
        match self {
            UvcSuccess::RC_SUCCESS => RC_SUCCESS,
            UvcSuccess::RC_MORE_DATA => RC_MORE_DATA,
        }
    }
}

/// Interprets the response code pair the Ultravisor left in the control
/// block, given the command's own text for the pair, if any.
///
/// `0x0001` is an ordinary success and `0x0100` is "more data was
/// available than the buffer could hold; what was written is valid":
/// both are successes, never errors. Every other response code becomes
/// an [`Error::Uv`] carrying both raw codes and the text of
/// [`spec_rc_text`]: generic table first, then the command's text, then
/// the fixed fallback.
pub fn interpret_response_with(rc: u16, rrc: u16, specific: Option<&'static str>) -> (r: Result<
    UvcSuccess,
    Error,
>)
    ensures
        rc == RC_SUCCESS ==> r == Ok::<UvcSuccess, Error>(UvcSuccess::RC_SUCCESS),
        rc == RC_MORE_DATA ==> r == Ok::<UvcSuccess, Error>(UvcSuccess::RC_MORE_DATA),
        rc != RC_SUCCESS && rc != RC_MORE_DATA ==> {
            &&& r is Err
            &&& r->Err_0 matches Error::Uv { rc: erc, rrc: errc, msg } && erc == rc && errc == rrc
                && msg@ == spec_rc_text(rc, spec_text_of(specific))
        },
{
    if rc == RC_SUCCESS {
        Ok(UvcSuccess::RC_SUCCESS)
    } else if rc == RC_MORE_DATA {
        Ok(UvcSuccess::RC_MORE_DATA)
    } else {
        Err(Error::Uv { rc, rrc, msg: rc_fmt_with(rc, rrc, specific) })
    }
}

/// Interprets the response code pair the Ultravisor left in the control
/// block, asking `cmd` for text where the pair is not generic.
///
/// This is the last step of sending a command: the embedding program
/// issues the ioctl on the control block image, decodes the mutated
/// image, and hands the two codes read back from it to this function.
/// The message of a non-generic pair depends on the command's answer;
/// [`interpret_response_with`], which takes that answer as an argument,
/// carries the exact contract for every possible answer.
pub fn interpret_response<C: UvCmd>(rc: u16, rrc: u16, cmd: &mut C) -> (r: Result<
    UvcSuccess,
    Error,
>)
    ensures
        rc == RC_SUCCESS ==> r == Ok::<UvcSuccess, Error>(UvcSuccess::RC_SUCCESS),
        rc == RC_MORE_DATA ==> r == Ok::<UvcSuccess, Error>(UvcSuccess::RC_MORE_DATA),
        rc != RC_SUCCESS && rc != RC_MORE_DATA ==> {
            &&& r is Err
            &&& r->Err_0 matches Error::Uv { rc: erc, rrc: errc, msg } && erc == rc && errc == rrc
                && (spec_generic_rc_text(rc) is Some ==> Some(msg@) == spec_generic_rc_text(rc))
        },
{
    if rc == RC_SUCCESS {
        Ok(UvcSuccess::RC_SUCCESS)
    } else if rc == RC_MORE_DATA {
        Ok(UvcSuccess::RC_MORE_DATA)
    } else {
        let msg = rc_fmt(rc, rrc, cmd);
        Err(Error::Uv { rc, rrc, msg })
    }
}

} // verus!
