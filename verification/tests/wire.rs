use uvdevice::ffi::uv_ioctl;
use uvdevice::ffi::iowr;
use uvdevice::ffi::uvio_ioctl_cb;
use uvdevice::ffi::uvio_uvdev_info;
use uvdevice::ffi::uvio_attest;
use uvdevice::ffi::UVIO_TYPE_UVC;
use uvdevice::ffi::UVIO_IOCTL_UVDEV_INFO_NR;
use uvdevice::ffi::UVIO_IOCTL_ATT_NR;
use uvdevice::ffi::UVIO_IOCTL_ADD_SECRET_NR;
use uvdevice::ffi::UVIO_IOCTL_LIST_SECRETS_NR;
use uvdevice::ffi::UVIO_IOCTL_LOCK_SECRETS_NR;
use uvdevice::ffi::UVIO_IOCTL_CB_SIZE;
use uvdevice::ffi::UVIO_UVDEV_INFO_SIZE;
use uvdevice::ffi::UVIO_ATTEST_SIZE;

#[test]
fn attestation_operation_id_canary() {
    assert_eq!(uv_ioctl(UVIO_IOCTL_ATT_NR), 0xc0407501);
}

#[test]
fn operation_ids_are_deterministic_and_exact() {
    let nrs = [
        UVIO_IOCTL_UVDEV_INFO_NR,
        UVIO_IOCTL_ATT_NR,
        UVIO_IOCTL_ADD_SECRET_NR,
        UVIO_IOCTL_LIST_SECRETS_NR,
        UVIO_IOCTL_LOCK_SECRETS_NR,
    ];
    for nr in nrs {
        assert_eq!(uv_ioctl(nr), uv_ioctl(nr));
        assert_eq!(uv_ioctl(nr), 0xc0407500 | nr as u64);
    }
}

#[test]
fn iowr_matches_uv_ioctl() {
    assert_eq!(iowr(UVIO_TYPE_UVC, 1, UVIO_IOCTL_CB_SIZE), uv_ioctl(1));
    assert_eq!(iowr(UVIO_TYPE_UVC, 0, 64), 0xc0407500);
}

#[test]
fn operation_id_depends_on_block_size() {
    // The control block size sits inside the operation id: a different
    // size silently renames every operation.
    assert_ne!(iowr(UVIO_TYPE_UVC, UVIO_IOCTL_ATT_NR, 63), uv_ioctl(UVIO_IOCTL_ATT_NR));
    assert_eq!(iowr(UVIO_TYPE_UVC, UVIO_IOCTL_ATT_NR, 63), 0xc03f7501);
}

#[test]
fn control_block_round_trip() {
    let mut reserved = [0u8; 44];
    for (i, b) in reserved.iter_mut().enumerate() {
        *b = 0xA0u8.wrapping_add(i as u8);
    }
    let cb = uvio_ioctl_cb {
        flags: 0x11223344,
        uv_rc: 0x0102,
        uv_rrc: 0x0304,
        argument_addr: 0x1122334455667788,
        argument_len: 0x99AABBCC,
        reserved14: reserved,
    };
    let bytes = cb.to_bytes();
    assert_eq!(bytes.len(), UVIO_IOCTL_CB_SIZE);
    let back = uvio_ioctl_cb::from_bytes(&bytes);
    assert_eq!(back.flags, cb.flags);
    assert_eq!(back.uv_rc, cb.uv_rc);
    assert_eq!(back.uv_rrc, cb.uv_rrc);
    assert_eq!(back.argument_addr, cb.argument_addr);
    assert_eq!(back.argument_len, cb.argument_len);
    assert_eq!(back.reserved14, cb.reserved14);
}

#[test]
fn control_block_layout_is_fixed() {
    let cb = uvio_ioctl_cb {
        flags: 0x11223344,
        uv_rc: 0x0102,
        uv_rrc: 0x0304,
        argument_addr: 0x1122334455667788,
        argument_len: 0x99AABBCC,
        reserved14: [0xEE; 44],
    };
    // Field offsets per the wire contract; multi-byte fields carry their
    // most significant byte first, the order of the big-endian host.
    let bytes = cb.to_bytes();
    assert_eq!(&bytes[0..4], &[0x11, 0x22, 0x33, 0x44]);
    assert_eq!(&bytes[4..6], &[0x01, 0x02]);
    assert_eq!(&bytes[6..8], &[0x03, 0x04]);
    assert_eq!(&bytes[8..16], &[0x11, 0x22, 0x33, 0x44, 0x55, 0x66, 0x77, 0x88]);
    assert_eq!(&bytes[16..20], &[0x99, 0xAA, 0xBB, 0xCC]);
    assert!(bytes[20..64].iter().all(|&b| b == 0xEE));
}

#[test]
fn uvdev_info_round_trip_and_support_bits() {
    let info = uvio_uvdev_info {
        supp_uvio_cmds: 0b1011,
        supp_uv_cmds: 0b0010,
    };
    let bytes = info.to_bytes();
    assert_eq!(bytes.len(), UVIO_UVDEV_INFO_SIZE);
    let back = uvio_uvdev_info::from_bytes(&bytes);
    assert_eq!(back.supp_uvio_cmds, info.supp_uvio_cmds);
    assert_eq!(back.supp_uv_cmds, info.supp_uv_cmds);

    // Usable only where the same bit is set in both bitmaps; bit 0 of the
    // Ultravisor bitmap stays unset, so the info call itself never counts.
    assert!(!info.supports(UVIO_IOCTL_UVDEV_INFO_NR));
    assert!(info.supports(UVIO_IOCTL_ATT_NR));
    assert!(!info.supports(UVIO_IOCTL_ADD_SECRET_NR));
    assert!(!info.supports(UVIO_IOCTL_LIST_SECRETS_NR));
}

#[test]
fn attest_round_trip() {
    let mut user_data = [0u8; 256];
    for (i, b) in user_data.iter_mut().enumerate() {
        *b = i as u8;
    }
    let at = uvio_attest {
        arcb_addr: 0x0102030405060708,
        meas_addr: 0x1112131415161718,
        add_data_addr: 0x2122232425262728,
        user_data,
        config_uid: [0x5A; 16],
        arcb_len: 0x00010000,
        meas_len: 0x00008000,
        add_data_len: 0x00000123,
        user_data_len: 0x0100,
        reserved136: 0,
    };
    let bytes = at.to_bytes();
    assert_eq!(bytes.len(), UVIO_ATTEST_SIZE);
    let back = uvio_attest::from_bytes(&bytes);
    assert_eq!(back.arcb_addr, at.arcb_addr);
    assert_eq!(back.meas_addr, at.meas_addr);
    assert_eq!(back.add_data_addr, at.add_data_addr);
    assert_eq!(back.user_data, at.user_data);
    assert_eq!(back.config_uid, at.config_uid);
    assert_eq!(back.arcb_len, at.arcb_len);
    assert_eq!(back.meas_len, at.meas_len);
    assert_eq!(back.add_data_len, at.add_data_len);
    assert_eq!(back.user_data_len, at.user_data_len);
    assert_eq!(back.reserved136, at.reserved136);
}

#[test]
fn attest_layout_is_fixed() {
    let at = uvio_attest {
        arcb_addr: 0x0102030405060708,
        meas_addr: 0,
        add_data_addr: 0,
        user_data: [0x11; 256],
        config_uid: [0x22; 16],
        arcb_len: 0x33445566,
        meas_len: 0,
        add_data_len: 0,
        user_data_len: 0x7788,
        reserved136: 0x99AA,
    };
    let bytes = at.to_bytes();
    assert_eq!(&bytes[0..8], &[0x01, 0x02, 0x03, 0x04, 0x05, 0x06, 0x07, 0x08]);
    assert!(bytes[24..280].iter().all(|&b| b == 0x11));
    assert!(bytes[280..296].iter().all(|&b| b == 0x22));
    assert_eq!(&bytes[296..300], &[0x33, 0x44, 0x55, 0x66]);
    assert_eq!(&bytes[308..310], &[0x77, 0x88]);
    assert_eq!(&bytes[310..312], &[0x99, 0xAA]);
}
