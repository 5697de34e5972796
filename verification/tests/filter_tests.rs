use hci_core::error::HciError;
use hci_core::filter::HciFilter;

#[test]
fn default_filter_is_zeroed() {
    let f = HciFilter::default();
    assert_eq!(f.get_type_mask(), 0);
    assert_eq!(f.get_event_mask(), 0);
    assert_eq!(f.get_opcode(), 0);
}

#[test]
fn set_then_get_reflects_type_bit() {
    for t in [0u8, 1, 4, 17, 31] {
        let mut f = HciFilter::default();
        assert_eq!(f.set_type(t), Ok(()));
        assert_eq!(f.get_type_mask(), 1u32 << t);
        assert_eq!((f.get_type_mask() >> t) & 1, 1);
    }
}

#[test]
fn unset_after_set_restores_type_mask() {
    for t in [0u8, 7, 31] {
        let mut f = HciFilter::default();
        assert_eq!(f.set_type(t), Ok(()));
        assert_eq!(f.unset_type(t), Ok(()));
        assert_eq!(f.get_type_mask(), 0);
    }
}

#[test]
fn set_then_get_reflects_event_bit() {
    for e in [0u8, 14, 15, 40, 63] {
        let mut f = HciFilter::default();
        assert_eq!(f.set_event(e), Ok(()));
        assert_eq!(f.get_event_mask(), 1u64 << e);
        assert_eq!((f.get_event_mask() >> e) & 1, 1);
    }
}

#[test]
fn unset_after_set_restores_event_mask() {
    for e in [0u8, 15, 63] {
        let mut f = HciFilter::default();
        assert_eq!(f.set_event(e), Ok(()));
        assert_eq!(f.unset_event(e), Ok(()));
        assert_eq!(f.get_event_mask(), 0);
    }
}

#[test]
fn out_of_range_type_bit_fails_without_mutation() {
    let mut f = HciFilter::default();
    f.set_type_mask(0xdead_beef);
    assert_eq!(f.set_type(32), Err(HciError::OutOfRange));
    assert_eq!(f.get_type_mask(), 0xdead_beef);
    assert_eq!(f.unset_type(32), Err(HciError::OutOfRange));
    assert_eq!(f.get_type_mask(), 0xdead_beef);
    assert_eq!(f.set_type(255), Err(HciError::OutOfRange));
    assert_eq!(f.get_type_mask(), 0xdead_beef);
}

#[test]
fn out_of_range_event_bit_fails_without_mutation() {
    let mut f = HciFilter::default();
    f.set_event_mask(0x0123_4567_89ab_cdef);
    assert_eq!(f.set_event(64), Err(HciError::OutOfRange));
    assert_eq!(f.get_event_mask(), 0x0123_4567_89ab_cdef);
    assert_eq!(f.unset_event(64), Err(HciError::OutOfRange));
    assert_eq!(f.get_event_mask(), 0x0123_4567_89ab_cdef);
    assert_eq!(f.set_event(200), Err(HciError::OutOfRange));
    assert_eq!(f.get_event_mask(), 0x0123_4567_89ab_cdef);
}

#[test]
fn whole_word_mask_accessors() {
    let mut f = HciFilter::default();
    f.set_type_mask(0x1234_5678);
    assert_eq!(f.get_type_mask(), 0x1234_5678);
    f.clear_type_mask();
    assert_eq!(f.get_type_mask(), 0);
    f.set_event_mask(0xfedc_ba98_7654_3210);
    assert_eq!(f.get_event_mask(), 0xfedc_ba98_7654_3210);
    f.clear_event_mask();
    assert_eq!(f.get_event_mask(), 0);
}

#[test]
fn opcode_takes_full_sixteen_bits() {
    let mut f = HciFilter::default();
    f.set_opcode(0xffff);
    assert_eq!(f.get_opcode(), 0xffff);
    f.set_opcode(0x0c24);
    assert_eq!(f.get_opcode(), 0x0c24);
}

#[test]
fn bit_operations_leave_other_fields_alone() {
    let mut f = HciFilter::default();
    f.set_opcode(0x1111);
    f.set_event_mask(0x2222);
    assert_eq!(f.set_type(3), Ok(()));
    assert_eq!(f.get_opcode(), 0x1111);
    assert_eq!(f.get_event_mask(), 0x2222);
    assert_eq!(f.set_event(5), Ok(()));
    assert_eq!(f.get_opcode(), 0x1111);
    assert_eq!(f.get_type_mask(), 1 << 3);
}
