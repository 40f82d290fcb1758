use uvdevice::ffi::uv_ioctl;
use uvdevice::ffi::UVIO_IOCTL_UVDEV_INFO_NR;
use uvdevice::uvdevice::Error;
use uvdevice::uvdevice::IoctlCb;
use uvdevice::uvdevice::UvCmd;
use uvdevice::uvdevice::UvcSuccess;
use uvdevice::uvdevice::generic_rc_fmt;
use uvdevice::uvdevice::interpret_response;
use uvdevice::uvdevice::interpret_response_with;
use uvdevice::uvdevice::rc_fmt;
use uvdevice::uvdevice::rc_fmt_with;

struct TestCmd;

impl UvCmd for TestCmd {
    fn cmd(&self) -> u64 {
        uv_ioctl(UVIO_IOCTL_UVDEV_INFO_NR)
    }

    fn rc_fmt(&self, rc: u16, rrc: u16) -> Option<&'static str> {
        if rc == 0x0042 && rrc == 5 {
            Some("command-specific text")
        } else {
            None
        }
    }
}

const GENERIC_TABLE: [(u16, &str); 6] = [
    (0x0000, "invalid rc"),
    (0x0002, "invalid UV command"),
    (0x0005, "request has an invalid size"),
    (0x0030, "home address space control bit has R-bit set to one"),
    (0x0031, "access exception"),
    (0x0032, "request contains virtual address translating to an invalid address"),
];

#[test]
fn control_block_without_payload_is_zeroed() {
    let cb = IoctlCb::new(None).unwrap();
    assert_eq!(cb.0.argument_addr, 0);
    assert_eq!(cb.0.argument_len, 0);
    assert_eq!(cb.0.flags, 0);
    assert_eq!(cb.0.uv_rc, 0);
    assert_eq!(cb.0.uv_rrc, 0);
    assert_eq!(cb.0.reserved14, [0u8; 44]);
}

#[test]
fn control_block_with_payload_takes_address_and_length() {
    let cb = IoctlCb::new(Some((0xDEAD_BEEF_0000, 0x1000))).unwrap();
    assert_eq!(cb.0.argument_addr, 0xDEAD_BEEF_0000);
    assert_eq!(cb.0.argument_len, 0x1000);
    assert_eq!(cb.0.flags, 0);
}

#[test]
fn oversized_payload_is_a_specification_error() {
    let r = IoctlCb::new(Some((0x1000, 0x1_0000_0000)));
    assert!(matches!(r, Err(Error::Specification(_))));
    let r = IoctlCb::new(Some((0x1000, usize::MAX)));
    assert!(matches!(r, Err(Error::Specification(_))));
}

#[test]
fn payload_of_exactly_u32_max_is_accepted() {
    let cb = IoctlCb::new(Some((0x1000, 0xFFFF_FFFF))).unwrap();
    assert_eq!(cb.0.argument_len, u32::MAX);
}

#[test]
fn control_block_image_round_trips() {
    let cb = IoctlCb::new(Some((0x1234_5678_9ABC, 42))).unwrap();
    let bytes = cb.to_bytes();
    assert_eq!(bytes.len(), 64);
    let back = IoctlCb::from_bytes(&bytes);
    assert_eq!(back.0.argument_addr, 0x1234_5678_9ABC);
    assert_eq!(back.0.argument_len, 42);
    assert_eq!((back.rc(), back.rrc()), (0, 0));
}

#[test]
fn response_codes_survive_the_image_round_trip() {
    // The device mutates the image in place; reading the codes back goes
    // through the byte decoder, exactly as a real call would. The codes
    // sit at offsets 4..8, most significant byte first.
    let cb = IoctlCb::new(Some((0xABCD, 8))).unwrap();
    let mut image = cb.to_bytes();
    image[4] = 0x01;
    image[5] = 0x00;
    image[6] = 0x00;
    image[7] = 0x2A;
    let back = IoctlCb::from_bytes(&image);
    assert_eq!(back.rc(), 0x0100);
    assert_eq!(back.rrc(), 0x002A);
    assert_eq!(back.0.argument_addr, 0xABCD);
    assert_eq!(back.0.argument_len, 8);
}

#[test]
fn success_codes_are_never_errors() {
    let r = interpret_response_with(0x0001, 0x0007, None);
    assert_eq!(r.unwrap(), UvcSuccess::RC_SUCCESS);
    let r = interpret_response_with(0x0100, 0x0000, Some("ignored"));
    assert_eq!(r.unwrap(), UvcSuccess::RC_MORE_DATA);
    let r = interpret_response(0x0001, 0, &mut TestCmd);
    assert_eq!(r.unwrap(), UvcSuccess::RC_SUCCESS);
    let r = interpret_response(0x0100, 0, &mut TestCmd);
    assert_eq!(r.unwrap(), UvcSuccess::RC_MORE_DATA);
}

#[test]
fn success_values_name_their_codes() {
    assert_eq!(UvcSuccess::RC_SUCCESS.value(), 0x0001);
    assert_eq!(UvcSuccess::RC_MORE_DATA.value(), 0x0100);
}

#[test]
fn generic_codes_report_the_documented_text() {
    for (rc, text) in GENERIC_TABLE {
        match interpret_response_with(rc, 0x1234, None) {
            Err(Error::Uv { rc: erc, rrc, msg }) => {
                assert_eq!(erc, rc);
                assert_eq!(rrc, 0x1234);
                assert_eq!(msg, text);
            }
            other => panic!("expected a UV command error, got {other:?}"),
        }
    }
}

#[test]
fn generic_codes_are_never_overridden() {
    for (rc, text) in GENERIC_TABLE {
        assert_eq!(rc_fmt_with(rc, 0, Some("command-specific text")), text);
        match interpret_response(rc, 5, &mut TestCmd) {
            Err(Error::Uv { msg, .. }) => assert_eq!(msg, text),
            other => panic!("expected a UV command error, got {other:?}"),
        }
    }
}

#[test]
fn unknown_codes_fall_back_to_the_fixed_text() {
    match interpret_response_with(0x0042, 9, None) {
        Err(Error::Uv { rc, rrc, msg }) => {
            assert_eq!((rc, rrc), (0x0042, 9));
            assert_eq!(msg, "unexpected error-code");
        }
        other => panic!("expected a UV command error, got {other:?}"),
    }
    match interpret_response(0x0042, 9, &mut TestCmd) {
        Err(Error::Uv { msg, .. }) => assert_eq!(msg, "unexpected error-code"),
        other => panic!("expected a UV command error, got {other:?}"),
    }
}

#[test]
fn command_specific_text_wins_outside_the_generic_table() {
    assert_eq!(rc_fmt_with(0x0042, 0, Some("command-specific text")), "command-specific text");
    assert_eq!(rc_fmt(0x0042, 5, &mut TestCmd), "command-specific text");
    match interpret_response(0x0042, 5, &mut TestCmd) {
        Err(Error::Uv { rc, rrc, msg }) => {
            assert_eq!((rc, rrc), (0x0042, 5));
            assert_eq!(msg, "command-specific text");
        }
        other => panic!("expected a UV command error, got {other:?}"),
    }
}

#[test]
fn generic_table_lookup_is_exact() {
    for (rc, text) in GENERIC_TABLE {
        assert_eq!(generic_rc_fmt(rc), Some(text));
    }
    assert_eq!(generic_rc_fmt(0x0003), None);
    assert_eq!(generic_rc_fmt(0x0042), None);
}

#[test]
fn default_command_payload_is_none() {
    assert!(TestCmd.data().is_none());
    assert_eq!(TestCmd.cmd(), 0xc0407500);
}
