//! Wire-level definitions shared with the uvdevice driver: the ioctl
//! sub-numbers, the payload size limits, the wire structures with their
//! byte-exact images, and the ioctl-number encoding.
//!
//! Every wire structure is pinned to a fixed byte image: fields in
//! declaration order, no hidden padding, and multi-byte fields with the
//! most significant byte first — the host byte order of the big-endian
//! s390 machines the uvdevice exists on, which read the envelope natively.
//!
//! The ioctl-number encoding follows the usual convention: two direction
//! bits (read and write), a one-byte type tag (the ASCII value of `'u'`),
//! the sub-number in the low byte, and the control block size in the size
//! field.

use vstd::prelude::*;
use vstd::bytes::spec_u16_to_le_bytes;
use vstd::bytes::spec_u32_to_le_bytes;
use vstd::bytes::spec_u64_to_le_bytes;
use vstd::bytes::spec_u32_from_le_bytes;
use vstd::bytes::u16_to_le_bytes;
use vstd::bytes::u32_to_le_bytes;
use vstd::bytes::u64_to_le_bytes;
use vstd::bytes::u16_from_le_bytes;
use vstd::bytes::u32_from_le_bytes;
use vstd::bytes::u64_from_le_bytes;
use vstd::bytes::lemma_auto_spec_u16_to_from_le_bytes;
use vstd::bytes::lemma_auto_spec_u32_to_from_le_bytes;
use vstd::bytes::lemma_auto_spec_u64_to_from_le_bytes;
use vstd::slice::slice_subrange;

verus! {

broadcast use vstd::array::group_array_axioms;

/// Maximum length of an attestation request control block.
pub const UVIO_ATT_ARCB_MAX_LEN: usize = 0x100000;

/// Maximum length of an attestation measurement.
pub const UVIO_ATT_MEASUREMENT_MAX_LEN: usize = 0x8000;

/// Maximum length of the additional data of an attestation request.
pub const UVIO_ATT_ADDITIONAL_MAX_LEN: usize = 0x8000;

/// Maximum length of an add-secret request payload.
pub const UVIO_ADD_SECRET_MAX_LEN: usize = 0x100000;

/// Fixed length of the list-secrets response buffer.
pub const UVIO_LIST_SECRETS_LEN: usize = 0x1000;

/// The ioctl type tag of the uvdevice; equal to ASCII `'u'`.
pub const UVIO_TYPE_UVC: u8 = 117u8;

/// Sub-number of the device-info ioctl.
pub const UVIO_IOCTL_UVDEV_INFO_NR: u8 = 0;

/// Sub-number of the attestation ioctl.
pub const UVIO_IOCTL_ATT_NR: u8 = 1;

/// Sub-number of the add-secret ioctl.
pub const UVIO_IOCTL_ADD_SECRET_NR: u8 = 2;

/// Sub-number of the list-secrets ioctl.
pub const UVIO_IOCTL_LIST_SECRETS_NR: u8 = 3;

/// Sub-number of the lock-secrets ioctl.
pub const UVIO_IOCTL_LOCK_SECRETS_NR: u8 = 4;

/// Byte size of [`uvio_ioctl_cb`] on the wire. The size is part of the
/// ioctl number, so changing the control block changes every operation id.
pub const UVIO_IOCTL_CB_SIZE: usize = 64;

/// Write direction bit of an ioctl number.
pub const IOC_WRITE: u32 = 1;

/// Read direction bit of an ioctl number.
pub const IOC_READ: u32 = 2;

/// Bit position of the sub-number field of an ioctl number.
pub const IOC_NRSHIFT: u32 = 0;

/// Bit position of the type-tag field of an ioctl number.
pub const IOC_TYPESHIFT: u32 = 8;

/// Bit position of the argument-size field of an ioctl number.
pub const IOC_SIZESHIFT: u32 = 16;

/// Bit position of the direction bits of an ioctl number.
pub const IOC_DIRSHIFT: u32 = 30;

/// The ioctl number an `_IOWR(ty, nr, size)` invocation denotes: direction
/// bits fixed to read-and-write, then size, type tag and sub-number in
/// their fields.
pub open spec fn spec_iowr(ty: u8, nr: u8, size: usize) -> u64 {
    (3u64 << IOC_DIRSHIFT) | ((ty as u64) << IOC_TYPESHIFT) | ((nr as u64) << IOC_NRSHIFT)
        | ((size as u64) << IOC_SIZESHIFT)
}

/// The operation id of the uvdevice ioctl with sub-number `nr`.
pub open spec fn spec_uv_ioctl(nr: u8) -> u64 {
    spec_iowr(UVIO_TYPE_UVC, nr, UVIO_IOCTL_CB_SIZE)
}

/// Corresponds to the `_IOWR` macro: a deterministic bit-packing of the
/// direction bits, type tag, sub-number and argument size.
pub fn iowr(ty: u8, nr: u8, size: usize) -> (r: u64)
    ensures
        r == spec_iowr(ty, nr, size),
{
    let dir: u64 = (IOC_READ | IOC_WRITE) as u64;
    proof {
        assert(((IOC_READ | IOC_WRITE) as u64) == 3u64) by (bit_vector);
    }
    dir << IOC_DIRSHIFT | ((ty as u64) << IOC_TYPESHIFT) | ((nr as u64) << IOC_NRSHIFT) | (
    (size as u64) << IOC_SIZESHIFT)
}

/// Corresponds to the `UV_IOCTL` macro: the operation id of the uvdevice
/// ioctl with sub-number `nr`, over the fixed 64-byte control block.
pub fn uv_ioctl(nr: u8) -> (r: u64)
    ensures
        r == spec_uv_ioctl(nr),
{
    iowr(UVIO_TYPE_UVC, nr, UVIO_IOCTL_CB_SIZE)
}

/// The bytes of `s` in reverse order.
pub open spec fn spec_reverse(s: Seq<u8>) -> Seq<u8> {
    Seq::new(s.len(), |i: int| s[s.len() - 1 - i])
}

/// The big-endian image of a 16-bit field: most-significant byte first.
pub open spec fn spec_u16_to_be_bytes(x: u16) -> Seq<u8> {
    spec_reverse(spec_u16_to_le_bytes(x))
}

/// The big-endian image of a 32-bit field: most-significant byte first.
pub open spec fn spec_u32_to_be_bytes(x: u32) -> Seq<u8> {
    spec_reverse(spec_u32_to_le_bytes(x))
}

/// The big-endian image of a 64-bit field: most-significant byte first.
pub open spec fn spec_u64_to_be_bytes(x: u64) -> Seq<u8> {
    spec_reverse(spec_u64_to_le_bytes(x))
}

/// Reversal keeps byte sequences apart: equal reversals of equal-length
/// sequences come from equal sequences.
proof fn lemma_reverse_injective(x: Seq<u8>, y: Seq<u8>)
    requires
        x.len() == y.len(),
        spec_reverse(x) == spec_reverse(y),
    ensures
        x == y,
{
    assert forall|i: int| 0 <= i < x.len() implies x[i] == y[i] by {
        assert(x[i] == spec_reverse(x)[x.len() - 1 - i]);
        assert(y[i] == spec_reverse(y)[y.len() - 1 - i]);
    }
    assert(x =~= y);
}

/// Appends the bytes of `src` to `dst` in reverse order.
fn push_reversed(dst: &mut Vec<u8>, src: &[u8])
    ensures
        final(dst)@ == old(dst)@ + spec_reverse(src@),
{
    let len = src.len();
    let mut i: usize = 0;
    while i < len
        invariant
            i <= len,
            len == src@.len(),
            dst@ == old(dst)@ + spec_reverse(src@).subrange(0, i as int),
        decreases len - i,
    {
        dst.push(src[len - 1 - i]);
        proof {
            assert(src@[len - 1 - i] == spec_reverse(src@)[i as int]);
            assert(old(dst)@ + spec_reverse(src@).subrange(0, i as int) + seq![
                spec_reverse(src@)[i as int],
            ] =~= old(dst)@ + spec_reverse(src@).subrange(0, i + 1));
        }
        i += 1;
    }
    proof {
        assert(old(dst)@ + spec_reverse(src@).subrange(0, len as int) =~= old(dst)@ + spec_reverse(
            src@,
        ));
    }
}

/// The bytes of `src` in reverse order.
fn reversed_of(src: &[u8]) -> (r: Vec<u8>)
    ensures
        r@ == spec_reverse(src@),
{
    let mut r: Vec<u8> = Vec::new();
    push_reversed(&mut r, src);
    proof {
        assert(r@ =~= spec_reverse(src@));
    }
    r
}

/// Appends every byte of `src` to `dst`.
fn push_slice(dst: &mut Vec<u8>, src: &[u8])
    ensures
        final(dst)@ == old(dst)@ + src@,
{
    let len = src.len();
    let mut i: usize = 0;
    while i < len
        invariant
            i <= len,
            len == src@.len(),
            dst@ == old(dst)@ + src@.subrange(0, i as int),
        decreases len - i,
    {
        dst.push(src[i]);
        proof {
            assert(old(dst)@ + src@.subrange(0, i as int) + seq![src@[i as int]] =~= old(dst)@
                + src@.subrange(0, i + 1));
        }
        i += 1;
    }
    proof {
        assert(old(dst)@ + src@.subrange(0, len as int) =~= old(dst)@ + src@);
    }
}

/// Copies `N` bytes of `b`, starting at `off`, into a fresh array.
fn copy_to_array<const N: usize>(b: &[u8], off: usize) -> (r: [u8; N])
    requires
        off + N <= b@.len(),
    ensures
        r@ == b@.subrange(off as int, off + N),
{
    let blen = b.len();
    let mut r: [u8; N] = [0u8; N];
    let mut i: usize = 0;
    while i < N
        invariant
            i <= N,
            off + N <= blen,
            blen == b@.len(),
            r@.len() == N,
            forall|j: int| 0 <= j < i ==> r@[j] == b@[off + j],
        decreases N - i,
    {
        r[i] = b[off + i];
        i += 1;
    }
    proof {
        assert(r@ =~= b@.subrange(off as int, off + N));
    }
    r
}

/// Uvdevice ioctl control block: the fixed 64-byte envelope exchanged with
/// the uvdevice on every call.
///
/// `argument_addr`/`argument_len` locate the in/out data of the request,
/// `uv_rc` and `uv_rrc` are the response and reason response codes the
/// Ultravisor sets, and `flags` is currently unused and must be zero.
#[allow(non_camel_case_types)]
#[derive(Debug)]
pub struct uvio_ioctl_cb {
    pub flags: u32,
    pub uv_rc: u16,
    pub uv_rrc: u16,
    pub argument_addr: u64,
    pub argument_len: u32,
    pub reserved14: [u8; 44],
}

impl uvio_ioctl_cb {
    /// The 64-byte image of a control block: every field in declaration
    /// order, multi-byte fields most-significant byte first — the
    /// envelope's in-memory order on the big-endian s390 hosts the
    /// uvdevice exists on.
    pub open spec fn spec_to_bytes(cb: uvio_ioctl_cb) -> Seq<u8> {
        spec_u32_to_be_bytes(cb.flags) + spec_u16_to_be_bytes(cb.uv_rc) + spec_u16_to_be_bytes(
            cb.uv_rrc,
        ) + spec_u64_to_be_bytes(cb.argument_addr) + spec_u32_to_be_bytes(cb.argument_len)
            + cb.reserved14@
    }

    /// Encodes the control block into its exact 64-byte wire image.
    pub fn to_bytes(&self) -> (r: Vec<u8>)
        ensures
            r@ == Self::spec_to_bytes(*self),
            r@.len() == UVIO_IOCTL_CB_SIZE,
    {
        proof {
            lemma_auto_spec_u16_to_from_le_bytes();
            lemma_auto_spec_u32_to_from_le_bytes();
            lemma_auto_spec_u64_to_from_le_bytes();
        }
        let mut r: Vec<u8> = Vec::new();
        let part = u32_to_le_bytes(self.flags);
        push_reversed(&mut r, part.as_slice());
        let part = u16_to_le_bytes(self.uv_rc);
        push_reversed(&mut r, part.as_slice());
        let part = u16_to_le_bytes(self.uv_rrc);
        push_reversed(&mut r, part.as_slice());
        let part = u64_to_le_bytes(self.argument_addr);
        push_reversed(&mut r, part.as_slice());
        let part = u32_to_le_bytes(self.argument_len);
        push_reversed(&mut r, part.as_slice());
        push_slice(&mut r, self.reserved14.as_slice());
        proof {
            assert(r@ =~= Self::spec_to_bytes(*self));
        }
        r
    }

    /// Decodes a 64-byte wire image into the control block it encodes:
    /// the result is exactly the block whose image is `b`.
    pub fn from_bytes(b: &[u8]) -> (r: Self)
        requires
            b@.len() == UVIO_IOCTL_CB_SIZE,
        ensures
            Self::spec_to_bytes(r) == b@,
    {
        proof {
            lemma_auto_spec_u16_to_from_le_bytes();
            lemma_auto_spec_u32_to_from_le_bytes();
            lemma_auto_spec_u64_to_from_le_bytes();
        }
        let part = reversed_of(slice_subrange(b, 0, 4));
        let flags = u32_from_le_bytes(part.as_slice());
        let part = reversed_of(slice_subrange(b, 4, 6));
        let uv_rc = u16_from_le_bytes(part.as_slice());
        let part = reversed_of(slice_subrange(b, 6, 8));
        let uv_rrc = u16_from_le_bytes(part.as_slice());
        let part = reversed_of(slice_subrange(b, 8, 16));
        let argument_addr = u64_from_le_bytes(part.as_slice());
        let part = reversed_of(slice_subrange(b, 16, 20));
        let argument_len = u32_from_le_bytes(part.as_slice());
        let reserved14: [u8; 44] = copy_to_array(b, 20);
        let r = uvio_ioctl_cb { flags, uv_rc, uv_rrc, argument_addr, argument_len, reserved14 };
        proof {
            assert(spec_u32_to_be_bytes(r.flags) =~= b@.subrange(0, 4));
            assert(spec_u16_to_be_bytes(r.uv_rc) =~= b@.subrange(4, 6));
            assert(spec_u16_to_be_bytes(r.uv_rrc) =~= b@.subrange(6, 8));
            assert(spec_u64_to_be_bytes(r.argument_addr) =~= b@.subrange(8, 16));
            assert(spec_u32_to_be_bytes(r.argument_len) =~= b@.subrange(16, 20));
            assert(Self::spec_to_bytes(r) =~= b@);
        }
        r
    }
}

/// Law: the wire image determines the control block. Together with the
/// contract of [`uvio_ioctl_cb::from_bytes`], encoding a control block and
/// decoding the image gives back every field bit for bit.
pub proof fn lemma_cb_bytes_injective(a: uvio_ioctl_cb, b: uvio_ioctl_cb)
    requires
        uvio_ioctl_cb::spec_to_bytes(a) == uvio_ioctl_cb::spec_to_bytes(b),
    ensures
        a == b,
{
    lemma_auto_spec_u16_to_from_le_bytes();
    lemma_auto_spec_u32_to_from_le_bytes();
    lemma_auto_spec_u64_to_from_le_bytes();
    let sa = uvio_ioctl_cb::spec_to_bytes(a);
    let sb = uvio_ioctl_cb::spec_to_bytes(b);
    assert(sa.subrange(0, 4) =~= spec_u32_to_be_bytes(a.flags));
    assert(sb.subrange(0, 4) =~= spec_u32_to_be_bytes(b.flags));
    assert(sa.subrange(4, 6) =~= spec_u16_to_be_bytes(a.uv_rc));
    assert(sb.subrange(4, 6) =~= spec_u16_to_be_bytes(b.uv_rc));
    assert(sa.subrange(6, 8) =~= spec_u16_to_be_bytes(a.uv_rrc));
    assert(sb.subrange(6, 8) =~= spec_u16_to_be_bytes(b.uv_rrc));
    assert(sa.subrange(8, 16) =~= spec_u64_to_be_bytes(a.argument_addr));
    assert(sb.subrange(8, 16) =~= spec_u64_to_be_bytes(b.argument_addr));
    assert(sa.subrange(16, 20) =~= spec_u32_to_be_bytes(a.argument_len));
    assert(sb.subrange(16, 20) =~= spec_u32_to_be_bytes(b.argument_len));
    assert(sa.subrange(20, 64) =~= a.reserved14@);
    assert(sb.subrange(20, 64) =~= b.reserved14@);
    lemma_reverse_injective(spec_u32_to_le_bytes(a.flags), spec_u32_to_le_bytes(b.flags));
    lemma_reverse_injective(spec_u16_to_le_bytes(a.uv_rc), spec_u16_to_le_bytes(b.uv_rc));
    lemma_reverse_injective(spec_u16_to_le_bytes(a.uv_rrc), spec_u16_to_le_bytes(b.uv_rrc));
    lemma_reverse_injective(
        spec_u64_to_le_bytes(a.argument_addr),
        spec_u64_to_le_bytes(b.argument_addr),
    );
    lemma_reverse_injective(
        spec_u32_to_le_bytes(a.argument_len),
        spec_u32_to_le_bytes(b.argument_len),
    );
    assert(a.flags == spec_u32_from_le_bytes(spec_u32_to_le_bytes(a.flags)));
    assert(a.flags == b.flags);
    assert(a.uv_rc == b.uv_rc);
    assert(a.uv_rrc == b.uv_rrc);
    assert(a.argument_addr == b.argument_addr);
    assert(a.argument_len == b.argument_len);
    assert(a.reserved14@ == b.reserved14@);
    assert(a.reserved14 == b.reserved14);
}

/// Byte size of [`uvio_uvdev_info`] on the wire.
pub const UVIO_UVDEV_INFO_SIZE: usize = 16;

/// Information on the requests the uvdevice and the Ultravisor support.
///
/// Everything is output; bits are in LSB0 ordering. A call is usable only
/// if its bit is set both in `supp_uvio_cmds` (supported ioctls of the
/// device) and in `supp_uv_cmds` (supported Ultravisor calls behind them).
/// Bit 0 (the info request itself) is always zero in `supp_uv_cmds`, as no
/// Ultravisor call backs it.
#[allow(non_camel_case_types)]
#[derive(Debug, Copy, Clone)]
pub struct uvio_uvdev_info {
    pub supp_uvio_cmds: u64,
    pub supp_uv_cmds: u64,
}

impl uvio_uvdev_info {
    /// The 16-byte image of a device-info block: both bitmaps in
    /// declaration order, most-significant byte first — the envelope's
    /// in-memory order on the big-endian s390 hosts the uvdevice exists
    /// on.
    pub open spec fn spec_to_bytes(info: uvio_uvdev_info) -> Seq<u8> {
        spec_u64_to_be_bytes(info.supp_uvio_cmds) + spec_u64_to_be_bytes(info.supp_uv_cmds)
    }

    /// Whether sub-number `nr` is usable: its bit is set in both bitmaps.
    pub open spec fn spec_supports(info: uvio_uvdev_info, nr: u8) -> bool {
        (info.supp_uvio_cmds >> nr) & 1 == 1 && (info.supp_uv_cmds >> nr) & 1 == 1
    }

    /// Whether the uvdevice and the Ultravisor both support sub-number
    /// `nr`: the call is usable only when the same bit is set in both
    /// bitmaps.
    pub fn supports(&self, nr: u8) -> (r: bool)
        requires
            nr < 64,
        ensures
            r == Self::spec_supports(*self, nr),
    {
        (self.supp_uvio_cmds >> nr) & 1 == 1 && (self.supp_uv_cmds >> nr) & 1 == 1
    }

    /// Encodes the device-info block into its exact 16-byte wire image.
    pub fn to_bytes(&self) -> (r: Vec<u8>)
        ensures
            r@ == Self::spec_to_bytes(*self),
            r@.len() == UVIO_UVDEV_INFO_SIZE,
    {
        proof {
            lemma_auto_spec_u64_to_from_le_bytes();
        }
        let mut r: Vec<u8> = Vec::new();
        let part = u64_to_le_bytes(self.supp_uvio_cmds);
        push_reversed(&mut r, part.as_slice());
        let part = u64_to_le_bytes(self.supp_uv_cmds);
        push_reversed(&mut r, part.as_slice());
        proof {
            assert(r@ =~= Self::spec_to_bytes(*self));
        }
        r
    }

    /// Decodes a 16-byte wire image into the device-info block it encodes.
    pub fn from_bytes(b: &[u8]) -> (r: Self)
        requires
            b@.len() == UVIO_UVDEV_INFO_SIZE,
        ensures
            Self::spec_to_bytes(r) == b@,
    {
        proof {
            lemma_auto_spec_u64_to_from_le_bytes();
        }
        let part = reversed_of(slice_subrange(b, 0, 8));
        let supp_uvio_cmds = u64_from_le_bytes(part.as_slice());
        let part = reversed_of(slice_subrange(b, 8, 16));
        let supp_uv_cmds = u64_from_le_bytes(part.as_slice());
        let r = uvio_uvdev_info { supp_uvio_cmds, supp_uv_cmds };
        proof {
            assert(spec_u64_to_be_bytes(r.supp_uvio_cmds) =~= b@.subrange(0, 8));
            assert(spec_u64_to_be_bytes(r.supp_uv_cmds) =~= b@.subrange(8, 16));
            assert(Self::spec_to_bytes(r) =~= b@);
        }
        r
    }
}

/// Law: the wire image determines the device-info block.
pub proof fn lemma_uvdev_info_bytes_injective(a: uvio_uvdev_info, b: uvio_uvdev_info)
    requires
        uvio_uvdev_info::spec_to_bytes(a) == uvio_uvdev_info::spec_to_bytes(b),
    ensures
        a == b,
{
    lemma_auto_spec_u64_to_from_le_bytes();
    let sa = uvio_uvdev_info::spec_to_bytes(a);
    let sb = uvio_uvdev_info::spec_to_bytes(b);
    assert(sa.subrange(0, 8) =~= spec_u64_to_be_bytes(a.supp_uvio_cmds));
    assert(sb.subrange(0, 8) =~= spec_u64_to_be_bytes(b.supp_uvio_cmds));
    assert(sa.subrange(8, 16) =~= spec_u64_to_be_bytes(a.supp_uv_cmds));
    assert(sb.subrange(8, 16) =~= spec_u64_to_be_bytes(b.supp_uv_cmds));
    lemma_reverse_injective(
        spec_u64_to_le_bytes(a.supp_uvio_cmds),
        spec_u64_to_le_bytes(b.supp_uvio_cmds),
    );
    lemma_reverse_injective(
        spec_u64_to_le_bytes(a.supp_uv_cmds),
        spec_u64_to_le_bytes(b.supp_uv_cmds),
    );
    assert(a.supp_uvio_cmds == b.supp_uvio_cmds);
    assert(a.supp_uv_cmds == b.supp_uv_cmds);
}

/// Fixed length of the user-data field of an attestation request.
pub const UVIO_ATT_USER_DATA_LEN: usize = 0x100;

/// Fixed length of the configuration-unique-id field of an attestation
/// request.
pub const UVIO_ATT_UID_LEN: usize = 0x10;

/// Byte size of [`uvio_attest`] on the wire.
pub const UVIO_ATTEST_SIZE: usize = 312;

/// Request attestation measurement control block.
///
/// The attestation request has two inputs and two outputs. The attestation
/// request control block (ARCB, a cryptographically secured request) and
/// the user data are inputs for the Ultravisor; the measurement and, if
/// the ARCB asks for it, the additional data are outputs it generates,
/// along with the configuration-unique id of the guest. The envelope
/// fields below follow host byte order — big-endian on the s390 hosts
/// the uvdevice exists on; the numbers inside the request block itself
/// are big-endian by contract, whatever the host.
#[allow(non_camel_case_types)]
#[derive(Debug)]
pub struct uvio_attest {
    pub arcb_addr: u64,
    pub meas_addr: u64,
    pub add_data_addr: u64,
    pub user_data: [u8; UVIO_ATT_USER_DATA_LEN],
    pub config_uid: [u8; UVIO_ATT_UID_LEN],
    pub arcb_len: u32,
    pub meas_len: u32,
    pub add_data_len: u32,
    pub user_data_len: u16,
    pub reserved136: u16,
}

impl uvio_attest {
    /// Maximum length of an attestation request control block.
    pub const ARCB_MAX_LEN: usize = UVIO_ATT_ARCB_MAX_LEN;

    /// Maximum length of an attestation measurement.
    pub const MEASUREMENT_MAX_LEN: usize = UVIO_ATT_MEASUREMENT_MAX_LEN;

    /// Maximum length of the additional data of an attestation request.
    pub const ADDITIONAL_MAX_LEN: usize = UVIO_ATT_ADDITIONAL_MAX_LEN;

    /// The 312-byte image of an attestation block: every field in
    /// declaration order, multi-byte fields most-significant byte first —
    /// the envelope's in-memory order on the big-endian s390 hosts the
    /// uvdevice exists on.
    pub open spec fn spec_to_bytes(at: uvio_attest) -> Seq<u8> {
        spec_u64_to_be_bytes(at.arcb_addr) + spec_u64_to_be_bytes(at.meas_addr)
            + spec_u64_to_be_bytes(at.add_data_addr) + at.user_data@ + at.config_uid@
            + spec_u32_to_be_bytes(at.arcb_len) + spec_u32_to_be_bytes(at.meas_len)
            + spec_u32_to_be_bytes(at.add_data_len) + spec_u16_to_be_bytes(at.user_data_len)
            + spec_u16_to_be_bytes(at.reserved136)
    }

    /// Encodes the attestation block into its exact 312-byte wire image.
    pub fn to_bytes(&self) -> (r: Vec<u8>)
        ensures
            r@ == Self::spec_to_bytes(*self),
            r@.len() == UVIO_ATTEST_SIZE,
    {
        proof {
            lemma_auto_spec_u16_to_from_le_bytes();
            lemma_auto_spec_u32_to_from_le_bytes();
            lemma_auto_spec_u64_to_from_le_bytes();
        }
        let mut r: Vec<u8> = Vec::new();
        let part = u64_to_le_bytes(self.arcb_addr);
        push_reversed(&mut r, part.as_slice());
        let part = u64_to_le_bytes(self.meas_addr);
        push_reversed(&mut r, part.as_slice());
        let part = u64_to_le_bytes(self.add_data_addr);
        push_reversed(&mut r, part.as_slice());
        push_slice(&mut r, self.user_data.as_slice());
        push_slice(&mut r, self.config_uid.as_slice());
        let part = u32_to_le_bytes(self.arcb_len);
        push_reversed(&mut r, part.as_slice());
        let part = u32_to_le_bytes(self.meas_len);
        push_reversed(&mut r, part.as_slice());
        let part = u32_to_le_bytes(self.add_data_len);
        push_reversed(&mut r, part.as_slice());
        let part = u16_to_le_bytes(self.user_data_len);
        push_reversed(&mut r, part.as_slice());
        let part = u16_to_le_bytes(self.reserved136);
        push_reversed(&mut r, part.as_slice());
        proof {
            assert(r@ =~= Self::spec_to_bytes(*self));
        }
        r
    }

    /// Decodes a 312-byte wire image into the attestation block it
    /// encodes.
    pub fn from_bytes(b: &[u8]) -> (r: Self)
        requires
            b@.len() == UVIO_ATTEST_SIZE,
        ensures
            Self::spec_to_bytes(r) == b@,
    {
        proof {
            lemma_auto_spec_u16_to_from_le_bytes();
            lemma_auto_spec_u32_to_from_le_bytes();
            lemma_auto_spec_u64_to_from_le_bytes();
        }
        let part = reversed_of(slice_subrange(b, 0, 8));
        let arcb_addr = u64_from_le_bytes(part.as_slice());
        let part = reversed_of(slice_subrange(b, 8, 16));
        let meas_addr = u64_from_le_bytes(part.as_slice());
        let part = reversed_of(slice_subrange(b, 16, 24));
        let add_data_addr = u64_from_le_bytes(part.as_slice());
        let user_data: [u8; UVIO_ATT_USER_DATA_LEN] = copy_to_array(b, 24);
        let config_uid: [u8; UVIO_ATT_UID_LEN] = copy_to_array(b, 280);
        let part = reversed_of(slice_subrange(b, 296, 300));
        let arcb_len = u32_from_le_bytes(part.as_slice());
        let part = reversed_of(slice_subrange(b, 300, 304));
        let meas_len = u32_from_le_bytes(part.as_slice());
        let part = reversed_of(slice_subrange(b, 304, 308));
        let add_data_len = u32_from_le_bytes(part.as_slice());
        let part = reversed_of(slice_subrange(b, 308, 310));
        let user_data_len = u16_from_le_bytes(part.as_slice());
        let part = reversed_of(slice_subrange(b, 310, 312));
        let reserved136 = u16_from_le_bytes(part.as_slice());
        let r = uvio_attest {
            arcb_addr,
            meas_addr,
            add_data_addr,
            user_data,
            config_uid,
            arcb_len,
            meas_len,
            add_data_len,
            user_data_len,
            reserved136,
        };
        proof {
            assert(spec_u64_to_be_bytes(r.arcb_addr) =~= b@.subrange(0, 8));
            assert(spec_u64_to_be_bytes(r.meas_addr) =~= b@.subrange(8, 16));
            assert(spec_u64_to_be_bytes(r.add_data_addr) =~= b@.subrange(16, 24));
            assert(spec_u32_to_be_bytes(r.arcb_len) =~= b@.subrange(296, 300));
            assert(spec_u32_to_be_bytes(r.meas_len) =~= b@.subrange(300, 304));
            assert(spec_u32_to_be_bytes(r.add_data_len) =~= b@.subrange(304, 308));
            assert(spec_u16_to_be_bytes(r.user_data_len) =~= b@.subrange(308, 310));
            assert(spec_u16_to_be_bytes(r.reserved136) =~= b@.subrange(310, 312));
            assert(Self::spec_to_bytes(r) =~= b@);
        }
        r
    }
}

/// Law: the wire image determines the attestation block.
pub proof fn lemma_attest_bytes_injective(a: uvio_attest, b: uvio_attest)
    requires
        uvio_attest::spec_to_bytes(a) == uvio_attest::spec_to_bytes(b),
    ensures
        a == b,
{
    lemma_auto_spec_u16_to_from_le_bytes();
    lemma_auto_spec_u32_to_from_le_bytes();
    lemma_auto_spec_u64_to_from_le_bytes();
    let sa = uvio_attest::spec_to_bytes(a);
    let sb = uvio_attest::spec_to_bytes(b);
    assert(sa.subrange(0, 8) =~= spec_u64_to_be_bytes(a.arcb_addr));
    assert(sb.subrange(0, 8) =~= spec_u64_to_be_bytes(b.arcb_addr));
    assert(sa.subrange(8, 16) =~= spec_u64_to_be_bytes(a.meas_addr));
    assert(sb.subrange(8, 16) =~= spec_u64_to_be_bytes(b.meas_addr));
    assert(sa.subrange(16, 24) =~= spec_u64_to_be_bytes(a.add_data_addr));
    assert(sb.subrange(16, 24) =~= spec_u64_to_be_bytes(b.add_data_addr));
    assert(sa.subrange(24, 280) =~= a.user_data@);
    assert(sb.subrange(24, 280) =~= b.user_data@);
    assert(sa.subrange(280, 296) =~= a.config_uid@);
    assert(sb.subrange(280, 296) =~= b.config_uid@);
    assert(sa.subrange(296, 300) =~= spec_u32_to_be_bytes(a.arcb_len));
    assert(sb.subrange(296, 300) =~= spec_u32_to_be_bytes(b.arcb_len));
    assert(sa.subrange(300, 304) =~= spec_u32_to_be_bytes(a.meas_len));
    assert(sb.subrange(300, 304) =~= spec_u32_to_be_bytes(b.meas_len));
    assert(sa.subrange(304, 308) =~= spec_u32_to_be_bytes(a.add_data_len));
    assert(sb.subrange(304, 308) =~= spec_u32_to_be_bytes(b.add_data_len));
    assert(sa.subrange(308, 310) =~= spec_u16_to_be_bytes(a.user_data_len));
    assert(sb.subrange(308, 310) =~= spec_u16_to_be_bytes(b.user_data_len));
    assert(sa.subrange(310, 312) =~= spec_u16_to_be_bytes(a.reserved136));
    assert(sb.subrange(310, 312) =~= spec_u16_to_be_bytes(b.reserved136));
    lemma_reverse_injective(spec_u64_to_le_bytes(a.arcb_addr), spec_u64_to_le_bytes(b.arcb_addr));
    lemma_reverse_injective(spec_u64_to_le_bytes(a.meas_addr), spec_u64_to_le_bytes(b.meas_addr));
    lemma_reverse_injective(
        spec_u64_to_le_bytes(a.add_data_addr),
        spec_u64_to_le_bytes(b.add_data_addr),
    );
    lemma_reverse_injective(spec_u32_to_le_bytes(a.arcb_len), spec_u32_to_le_bytes(b.arcb_len));
    lemma_reverse_injective(spec_u32_to_le_bytes(a.meas_len), spec_u32_to_le_bytes(b.meas_len));
    lemma_reverse_injective(
        spec_u32_to_le_bytes(a.add_data_len),
        spec_u32_to_le_bytes(b.add_data_len),
    );
    lemma_reverse_injective(
        spec_u16_to_le_bytes(a.user_data_len),
        spec_u16_to_le_bytes(b.user_data_len),
    );
    lemma_reverse_injective(
        spec_u16_to_le_bytes(a.reserved136),
        spec_u16_to_le_bytes(b.reserved136),
    );
    assert(a.arcb_addr == b.arcb_addr);
    assert(a.meas_addr == b.meas_addr);
    assert(a.add_data_addr == b.add_data_addr);
    assert(a.user_data@ == b.user_data@);
    assert(a.user_data == b.user_data);
    assert(a.config_uid@ == b.config_uid@);
    assert(a.config_uid == b.config_uid);
    assert(a.arcb_len == b.arcb_len);
    assert(a.meas_len == b.meas_len);
    assert(a.add_data_len == b.add_data_len);
    assert(a.user_data_len == b.user_data_len);
    assert(a.reserved136 == b.reserved136);
}

/// Law: the operation id is a pure function of the sub-number alone: any
/// two results of [`uv_ioctl`] for the same sub-number are equal, since
/// its contract pins each to the same function of the sub-number.
pub proof fn lemma_uv_ioctl_deterministic(nr: u8, r1: u64, r2: u64)
    requires
        r1 == spec_uv_ioctl(nr),
        r2 == spec_uv_ioctl(nr),
    ensures
        r1 == r2,
{
}

/// The attestation sub-number encodes to the architecturally known
/// constant. This pins the whole encoding, control block size included:
/// any change to either would silently break every consumer.
pub proof fn lemma_uv_ioctl_attestation_canary()
    ensures
        spec_uv_ioctl(UVIO_IOCTL_ATT_NR) == 0xc0407501u64,
{
    assert((3u64 << 30) | ((117u8 as u64) << 8) | ((1u8 as u64) << 0) | ((64usize as u64) << 16)
        == 0xc0407501u64) by (bit_vector);
}

} // verus!
