use socketcan::err::{CanError, CanErrorDecodingFailure, ConstructionError};
use socketcan::frame::{slice_to_array, CanAnyFrame, CanFdFrame, CanFrame, Frame};
use socketcan::id::{
    hal_id_to_raw, init_id_word, is_extended, CanId, CANFD_BRS, CANFD_ESI, EFF_FLAG, EFF_MASK,
    ERR_FLAG, ERR_MASK, RTR_FLAG, SFF_MASK,
};

#[test]
fn standard_id_stays_standard() {
    let f = CanFrame::new(CanId::Standard(0x7FF), &[1, 2]).unwrap();
    assert!(!f.is_extended());
    assert_eq!(f.raw_id(), 0x7FF);
    assert_eq!(f.id_word(), 0x7FF);
    assert_eq!(f.id(), CanId::Standard(0x7FF));

    let g = CanFrame::init(0, &[], false, false, false).unwrap();
    assert!(!g.is_extended());
    assert_eq!(g.id_word(), 0);
    assert_eq!(g.to_upper_hex(), "0#");
}

#[test]
fn standard_id_renders_as_its_hex() {
    let f = CanFrame::new(CanId::Standard(0x7FF), &[]).unwrap();
    assert_eq!(f.to_upper_hex(), "7FF#");
    let g = CanFrame::new(CanId::Standard(0x42), &[]).unwrap();
    assert_eq!(g.to_upper_hex(), "42#");
}

#[test]
fn oversize_id_promoted_to_extended() {
    let f = CanFrame::init(0x800, &[], false, false, false).unwrap();
    assert!(f.is_extended());
    assert_eq!(f.raw_id(), 0x800);
    assert_eq!(f.id_word(), 0x800 | EFF_FLAG);
    assert_eq!(f.id(), CanId::Extended(0x800));

    let g = CanFrame::init(EFF_MASK, &[], false, false, false).unwrap();
    assert!(g.is_extended());
    assert_eq!(g.raw_id(), EFF_MASK);

    // a standard-claimed id that overflows 11 bits is promoted too
    let h = CanFrame::new(CanId::Standard(0x900), &[]).unwrap();
    assert!(h.is_extended());
    assert_eq!(h.raw_id(), 0x900);

    let fd = CanFdFrame::init(0x800, &[], false, false, false, false).unwrap();
    assert!(fd.is_extended());
}

#[test]
fn explicitly_extended_small_id() {
    let f = CanFrame::init(0x123, &[], true, false, false).unwrap();
    assert!(f.is_extended());
    assert_eq!(f.raw_id(), 0x123);
    assert_eq!(f.id(), CanId::Extended(0x123));
}

#[test]
fn id_too_large_is_rejected() {
    let r = CanFrame::init(EFF_MASK + 1, &[], false, false, false);
    assert_eq!(r.unwrap_err(), ConstructionError::IDTooLarge);
    let r = CanFrame::init(u32::MAX, &[], true, true, true);
    assert_eq!(r.unwrap_err(), ConstructionError::IDTooLarge);
    let r = CanFdFrame::init(EFF_MASK + 1, &[], false, false, false, false);
    assert_eq!(r.unwrap_err(), ConstructionError::IDTooLarge);
    assert!(CanFrame::new(CanId::Extended(EFF_MASK + 1), &[]).is_none());
    assert_eq!(
        init_id_word(EFF_MASK + 1, false, false, false).unwrap_err(),
        ConstructionError::IDTooLarge
    );
}

#[test]
fn classic_payload_limit() {
    let nine = [0u8; 9];
    let r = CanFrame::init(0x1, &nine, false, false, false);
    assert_eq!(r.unwrap_err(), ConstructionError::TooMuchData);
    assert!(CanFrame::new(CanId::Standard(0x1), &nine).is_none());

    let eight = [7u8; 8];
    let f = CanFrame::init(0x1, &eight, false, false, false).unwrap();
    assert_eq!(f.dlc(), 8);
    assert_eq!(f.len(), 8);
    assert_eq!(f.data(), &eight[..]);
}

#[test]
fn classic_payload_exact_and_never_beyond_length() {
    let f = CanFrame::init(0x1, &[0xAB, 0xCD], false, false, false).unwrap();
    assert_eq!(f.dlc(), 2);
    assert_eq!(f.data(), &[0xAB, 0xCD]);
    assert_eq!(f.data().len(), 2);
}

#[test]
fn fd_payload_limit_is_the_fd_maximum() {
    let sixty_four = [3u8; 64];
    let f = CanFdFrame::init(0x1, &sixty_four, false, false, false, false).unwrap();
    assert_eq!(f.dlc(), 64);
    assert_eq!(f.data(), &sixty_four[..]);

    // lengths between the classic and FD ceilings are valid for FD
    let twenty = [9u8; 20];
    let g = CanFdFrame::init(0x1, &twenty, false, false, false, false).unwrap();
    assert_eq!(g.dlc(), 20);

    let sixty_five = [3u8; 65];
    let r = CanFdFrame::init(0x1, &sixty_five, false, false, false, false);
    assert_eq!(r.unwrap_err(), ConstructionError::TooMuchData);
    assert!(CanFdFrame::new(CanId::Standard(0x1), &sixty_five).is_none());
}

#[test]
fn widen_then_narrow_round_trips() {
    let data = [0xDE, 0xAD, 0xBE, 0xEF];
    let classic = CanFrame::new(CanId::Standard(0x123), &data).unwrap();
    let fd = CanFdFrame::from(classic);
    assert_eq!(fd.raw_id(), 0x123);
    assert_eq!(fd.dlc(), 4);
    assert_eq!(fd.data(), &data[..]);
    assert!(!fd.is_brs());
    assert!(!fd.is_esi());
    let back = CanFrame::try_from(fd).unwrap();
    assert!(back == classic);
    assert_eq!(back.data(), &data[..]);
    assert_eq!(back.id_word(), classic.id_word());
}

#[test]
fn widen_keeps_extended_and_error_flags() {
    let classic = CanFrame::init(0x1234_5, &[1], true, false, true).unwrap();
    let fd = CanFdFrame::from(classic);
    assert!(fd.is_extended());
    assert!(fd.is_error());
    assert_eq!(fd.raw_id(), 0x1234_5);
    let back = CanFrame::try_from(fd).unwrap();
    assert!(back == classic);
}

#[test]
fn narrow_rejects_long_fd_payloads() {
    for n in [9usize, 15, 64] {
        let data = vec![1u8; n];
        let fd = CanFdFrame::init(0x1, &data, false, false, false, false).unwrap();
        let r = CanFrame::try_from(fd);
        assert_eq!(r.unwrap_err(), ConstructionError::TooMuchData);
    }
    let eight = [1u8; 8];
    let fd = CanFdFrame::init(0x1, &eight, false, false, false, false).unwrap();
    assert!(CanFrame::try_from(fd).is_ok());
}

#[test]
fn brs_and_esi_are_independent() {
    let mut f = CanFdFrame::new(CanId::Standard(0x1), &[]).unwrap();
    f.set_brs(true);
    assert!(f.is_brs());
    assert!(!f.is_esi());
    f.set_esi(true);
    assert!(f.is_brs());
    assert!(f.is_esi());
    f.set_brs(false);
    assert!(!f.is_brs());
    assert!(f.is_esi());
    f.set_esi(false);
    assert!(!f.is_brs());
    assert!(!f.is_esi());
}

#[test]
fn both_fd_flags_can_be_set_at_construction() {
    let f = CanFdFrame::init(0x1, &[], false, false, true, true).unwrap();
    assert!(f.is_brs());
    assert!(f.is_esi());
}

#[test]
fn classic_rendering_example() {
    let f = CanFrame::new(CanId::Standard(0x123), &[0xDE, 0xAD]).unwrap();
    assert_eq!(f.to_upper_hex(), "123#DE AD");
}

#[test]
fn fd_rendering_example() {
    let mut f = CanFdFrame::new(CanId::Standard(0x1), &[0xAA]).unwrap();
    f.set_brs(true);
    assert_eq!(f.to_upper_hex(), "1##1 AA");
}

#[test]
fn fd_rendering_flag_values() {
    let f = CanFdFrame::init(0x2, &[0x0F], false, false, false, true).unwrap();
    assert_eq!(f.to_upper_hex(), "2##2 0F");
    let g = CanFdFrame::init(0x2, &[], false, false, true, true).unwrap();
    assert_eq!(g.to_upper_hex(), "2##3 ");
    let h = CanFdFrame::init(0x2, &[0xDE, 0xAD, 0x01], false, false, false, false).unwrap();
    assert_eq!(h.to_upper_hex(), "2##0 DE AD 01");
}

#[test]
fn any_frame_rendering_matches_inner() {
    let c = CanFrame::new(CanId::Standard(0x123), &[0xDE, 0xAD]).unwrap();
    let any = CanAnyFrame::from(c);
    assert_eq!(any.to_upper_hex(), "123#DE AD");
    let f = CanFdFrame::new(CanId::Standard(0x1), &[0xAA]).unwrap();
    let any = CanAnyFrame::from(f);
    assert_eq!(any.to_upper_hex(), "1##0 AA");
}

#[test]
fn any_frame_holds_the_kind_it_was_built_from() {
    let c = CanFrame::new(CanId::Standard(0x5), &[]).unwrap();
    assert!(matches!(CanAnyFrame::from(c), CanAnyFrame::Normal(_)));
    let f = CanFdFrame::new(CanId::Standard(0x5), &[]).unwrap();
    assert!(matches!(CanAnyFrame::from(f), CanAnyFrame::Fd(_)));
}

#[test]
fn remote_frame_has_requested_length_of_zeroes() {
    let f = CanFrame::new_remote(CanId::Standard(0x7), 3).unwrap();
    assert_eq!(f.dlc(), 3);
    assert_eq!(f.data(), &[0, 0, 0]);
    assert!(f.is_remote_frame());
    assert_eq!(f.id_word(), 0x7 | RTR_FLAG);
}

#[test]
fn remote_frame_limits() {
    assert!(CanFrame::new_remote(CanId::Standard(0x7), 8).is_some());
    assert!(CanFrame::new_remote(CanId::Standard(0x7), 9).is_none());
    assert!(CanFrame::new_remote(CanId::Extended(EFF_MASK + 1), 0).is_none());
}

#[test]
fn fd_frames_have_no_remote_support() {
    assert!(CanFdFrame::new_remote(CanId::Standard(0x7), 3).is_none());
    let f = CanFdFrame::new(CanId::Standard(0x7), &[]).unwrap();
    assert!(!f.is_remote_frame());
}

#[test]
fn error_frames_decode_and_data_frames_do_not() {
    let f = CanFrame::init(0x42, &[1, 2], false, false, true).unwrap();
    assert!(f.is_error());
    assert_eq!(f.id_word(), 0x42 | ERR_FLAG);
    assert_eq!(f.err(), 0x42);
    let e = f.error().unwrap();
    assert_eq!(e.error_word, 0x42);

    let g = CanFrame::init(0x42, &[1, 2], false, false, false).unwrap();
    assert!(!g.is_error());
    assert_eq!(
        g.error().unwrap_err(),
        CanErrorDecodingFailure::NotAnError
    );

    let fd = CanFdFrame::init(0x42, &[], false, true, false, false).unwrap();
    assert!(fd.is_error());
    assert_eq!(fd.error().unwrap().error_word, 0x42);
}

#[test]
fn error_word_is_masked_to_valid_error_bits() {
    let f = CanFrame::init(0x1234_5678 & EFF_MASK, &[], true, true, true).unwrap();
    assert_eq!(f.err(), f.id_word() & ERR_MASK);
    assert_eq!(f.err(), 0x1234_5678 & EFF_MASK);
}

#[test]
fn id_word_folds_all_flags() {
    let w = init_id_word(0x123, true, true, true).unwrap();
    assert_eq!(w, 0x123 | EFF_FLAG | RTR_FLAG | ERR_FLAG);
    let w = init_id_word(0x123, false, false, false).unwrap();
    assert_eq!(w, 0x123);
    let w = init_id_word(SFF_MASK + 1, false, false, false).unwrap();
    assert_eq!(w, (SFF_MASK + 1) | EFF_FLAG);
}

#[test]
fn semantic_id_helpers() {
    assert!(!is_extended(&CanId::Standard(5)));
    assert!(is_extended(&CanId::Extended(5)));
    assert_eq!(hal_id_to_raw(CanId::Standard(0x7FF)), 0x7FF);
    assert_eq!(hal_id_to_raw(CanId::Extended(0x1FFF_0000)), 0x1FFF_0000);
}

#[test]
fn defaults_are_empty_zero_frames() {
    let f = CanFrame::default();
    assert_eq!(f.id_word(), 0);
    assert_eq!(f.dlc(), 0);
    assert_eq!(f.data(), &[]);
    assert!(!f.is_extended());
    assert!(!f.is_remote_frame());
    let g = CanFdFrame::default();
    assert_eq!(g.id_word(), 0);
    assert_eq!(g.dlc(), 0);
    assert!(!g.is_brs());
    assert!(!g.is_esi());
}

#[test]
fn frame_equality_is_semantic() {
    let a = CanFrame::new(CanId::Standard(0x10), &[1, 2, 3]).unwrap();
    let b = CanFrame::new(CanId::Standard(0x10), &[1, 2, 3]).unwrap();
    assert!(a == b);
    let c = CanFrame::new(CanId::Standard(0x10), &[1, 2]).unwrap();
    assert!(a != c);
    let d = CanFrame::new(CanId::Standard(0x11), &[1, 2, 3]).unwrap();
    assert!(a != d);
    let e = CanFrame::init(0x10, &[1, 2, 3], false, false, true).unwrap();
    assert!(a != e);
}

#[test]
fn fd_flag_mutation_keeps_everything_else() {
    let mut f = CanFdFrame::init(0x77, &[5, 6], false, false, false, false).unwrap();
    f.set_brs(true);
    f.set_esi(true);
    assert_eq!(f.raw_id(), 0x77);
    assert_eq!(f.dlc(), 2);
    assert_eq!(f.data(), &[5, 6]);
    assert!(!f.is_error());
}

#[test]
fn slice_to_array_copies_and_zero_fills() {
    let arr: [u8; 8] = slice_to_array(&[1, 2, 3]);
    assert_eq!(arr, [1, 2, 3, 0, 0, 0, 0, 0]);
    let arr: [u8; 4] = slice_to_array(&[]);
    assert_eq!(arr, [0, 0, 0, 0]);
}

#[test]
fn fd_flag_constants_match_their_bits() {
    assert_eq!(CANFD_BRS, 0x01);
    assert_eq!(CANFD_ESI, 0x02);
    let f = CanFdFrame::init(0x1, &[], false, false, true, true).unwrap();
    assert_eq!(f.to_upper_hex(), "1##3 ");
}

#[test]
fn extended_rendering_includes_flag_bits_in_the_word() {
    let f = CanFrame::init(0x123, &[0x01], true, false, false).unwrap();
    assert_eq!(f.to_upper_hex(), "80000123#01");
}

#[test]
fn from_frame_decodes_either_kind() {
    let c = CanFrame::init(0x99, &[], false, false, true).unwrap();
    assert_eq!(CanError::from_frame(&c).unwrap().error_word, 0x99);
    let f = CanFdFrame::init(0x99, &[], false, true, false, false).unwrap();
    assert_eq!(CanError::from_frame(&f).unwrap().error_word, 0x99);
    let plain = CanFrame::init(0x99, &[], false, false, false).unwrap();
    assert_eq!(
        CanError::from_frame(&plain).unwrap_err(),
        CanErrorDecodingFailure::NotAnError
    );
}
