use hci_core::error::HciError;
use hci_core::filter::HciFilter;
use hci_core::request::{cmd_opcode_pack, command_packet, request_filter, Action, Input, Request};

fn previous_filter() -> HciFilter {
    let mut f = HciFilter::default();
    f.set_type_mask(0x0000_0005);
    f.set_event_mask(0x0000_7700);
    f.set_opcode(0x0009);
    f
}

fn expect_set_filter(a: Action) -> HciFilter {
    match a {
        Action::SetFilter(f) => f,
        _ => panic!("expected a filter installation"),
    }
}

#[test]
fn opcode_packs_group_and_feature() {
    assert_eq!(cmd_opcode_pack(0x03, 0x0024), 0x0c24);
    assert_eq!(cmd_opcode_pack(0, 0), 0);
    assert_eq!(cmd_opcode_pack(63, 1023), 0xffff);
}

#[test]
fn opcode_masks_feature_to_ten_bits() {
    assert_eq!(cmd_opcode_pack(1, 0x0401), cmd_opcode_pack(1, 0x0001));
    assert_eq!(cmd_opcode_pack(5, 0xfc00), cmd_opcode_pack(5, 0x0000));
}

#[test]
fn opcode_distinct_pairs_never_collide() {
    let pairs = [(0u16, 0u16), (0, 1), (1, 0), (1, 1), (3, 0x24), (63, 1023), (17, 512)];
    for (i, a) in pairs.iter().enumerate() {
        for (j, b) in pairs.iter().enumerate() {
            if i != j {
                assert_ne!(cmd_opcode_pack(a.0, a.1), cmd_opcode_pack(b.0, b.1));
            }
        }
    }
}

#[test]
fn command_packet_frames_prefix_opcode_length_params() {
    let v = command_packet(0x03, 0x0024, &[0xaa, 0xbb]);
    assert_eq!(v, vec![0x01, 0x24, 0x0c, 0x02, 0xaa, 0xbb]);
    let empty = command_packet(0x03, 0x0024, &[]);
    assert_eq!(empty, vec![0x01, 0x24, 0x0c, 0x00]);
}

#[test]
fn request_filter_narrows_to_command_responses() {
    let f = request_filter(0x0c24);
    assert_eq!(f.get_type_mask(), 1 << 0x04);
    assert_eq!(f.get_event_mask(), (1 << 0x0e) | (1 << 0x0f));
    assert_eq!(f.get_opcode(), 0x0c24);
}

#[test]
fn first_receive_matching_complete_succeeds_and_restores_filter() {
    let prev = previous_filter();
    let req = Request::new(0x03, 0x0024, &[0xaa], 0);
    assert!(matches!(req.start(), Action::GetFilter));

    let (req, a) = req.step(Input::Filter(prev));
    let installed = expect_set_filter(a);
    assert_eq!(installed, request_filter(0x0c24));

    let (req, a) = req.step(Input::Acked);
    match a {
        Action::Send(bytes) => assert_eq!(bytes, vec![0x01, 0x24, 0x0c, 0x01, 0xaa]),
        _ => panic!("expected the framed command"),
    }

    let (req, a) = req.step(Input::Acked);
    assert!(matches!(a, Action::Recv));

    let response = vec![0x00, 0x0e, 0x04, 0x01, 0x24, 0x0c, 0xde, 0xad];
    let (req, a) = req.step(Input::Packet(response));
    assert_eq!(expect_set_filter(a), prev);

    let (req, a) = req.step(Input::Acked);
    assert!(matches!(a, Action::Finish));
    assert_eq!(req.into_result(), Ok(vec![0xde, 0xad]));
}

#[test]
fn ten_unmatched_attempts_time_out_and_restore_filter() {
    let prev = previous_filter();
    let req = Request::new(0x03, 0x0024, &[], 0);
    let (req, _) = req.step(Input::Filter(prev));
    let (req, _) = req.step(Input::Acked);
    let (mut req, mut a) = req.step(Input::Acked);
    for attempt in 0..10 {
        assert!(matches!(a, Action::Recv), "attempt {attempt} should read");
        let unmatched = vec![0x00, 0x10, 0x00];
        let (r2, a2) = req.step(Input::Packet(unmatched));
        req = r2;
        a = a2;
    }
    assert_eq!(expect_set_filter(a), prev);
    let (req, a) = req.step(Input::Acked);
    assert!(matches!(a, Action::Finish));
    assert_eq!(req.into_result(), Err(HciError::TimedOut));
}

#[test]
fn wrong_opcode_responses_do_not_match() {
    let prev = previous_filter();
    let req = Request::new(0x03, 0x0024, &[], 0);
    let (req, _) = req.step(Input::Filter(prev));
    let (req, _) = req.step(Input::Acked);
    let (req, a) = req.step(Input::Acked);
    assert!(matches!(a, Action::Recv));
    let other = vec![0x00, 0x0e, 0x04, 0x01, 0x25, 0x0c];
    let (_, a) = req.step(Input::Packet(other));
    assert!(matches!(a, Action::Recv));
}

#[test]
fn matching_status_fails_at_once_with_filter_restored() {
    let prev = previous_filter();
    let req = Request::new(0x03, 0x0024, &[], 0);
    let (req, _) = req.step(Input::Filter(prev));
    let (req, _) = req.step(Input::Acked);
    let (req, a) = req.step(Input::Acked);
    assert!(matches!(a, Action::Recv));
    let status = vec![0x00, 0x0f, 0x04, 0x00, 0x01, 0x24, 0x0c];
    let (req, a) = req.step(Input::Packet(status));
    assert_eq!(expect_set_filter(a), prev);
    let (req, a) = req.step(Input::Acked);
    assert!(matches!(a, Action::Finish));
    assert_eq!(req.into_result(), Err(HciError::StatusReceived));
}

#[test]
fn malformed_packet_fails_with_filter_restored() {
    let prev = previous_filter();
    let req = Request::new(0x03, 0x0024, &[], 0);
    let (req, _) = req.step(Input::Filter(prev));
    let (req, _) = req.step(Input::Acked);
    let (req, _) = req.step(Input::Acked);
    let (req, a) = req.step(Input::Packet(vec![0x42]));
    assert_eq!(expect_set_filter(a), prev);
    let (req, _) = req.step(Input::Acked);
    assert_eq!(req.into_result(), Err(HciError::ShortEvent));
}

#[test]
fn positive_timeout_waits_then_steps_down() {
    let prev = previous_filter();
    let req = Request::new(0x03, 0x0024, &[], 25);
    let (req, _) = req.step(Input::Filter(prev));
    let (req, _) = req.step(Input::Acked);
    let (req, a) = req.step(Input::Acked);
    match a {
        Action::Wait(t) => assert_eq!(t, 25),
        _ => panic!("expected a readiness wait"),
    }
    let (req, a) = req.step(Input::Interrupted);
    match a {
        Action::Wait(t) => assert_eq!(t, 25),
        _ => panic!("an interrupted wait is retried"),
    }
    let (req, a) = req.step(Input::Ready);
    assert!(matches!(a, Action::Recv));
    let unmatched = vec![0x00, 0x10, 0x00];
    let (req, a) = req.step(Input::Packet(unmatched));
    match a {
        Action::Wait(t) => assert_eq!(t, 15),
        _ => panic!("remaining timeout should have dropped by the fixed step"),
    }
    let (req, a) = req.step(Input::TimedOut);
    assert_eq!(expect_set_filter(a), prev);
    let (req, _) = req.step(Input::Acked);
    assert_eq!(req.into_result(), Err(HciError::TimedOut));
}

#[test]
fn timeout_clamps_at_zero_and_reads_unconditionally() {
    let prev = previous_filter();
    let req = Request::new(0x03, 0x0024, &[], 5);
    let (req, _) = req.step(Input::Filter(prev));
    let (req, _) = req.step(Input::Acked);
    let (req, a) = req.step(Input::Acked);
    match a {
        Action::Wait(t) => assert_eq!(t, 5),
        _ => panic!("expected a readiness wait"),
    }
    let (req, a) = req.step(Input::Ready);
    assert!(matches!(a, Action::Recv));
    let unmatched = vec![0x00, 0x10, 0x00];
    let (_, a) = req.step(Input::Packet(unmatched));
    assert!(matches!(a, Action::Recv), "with no time left the read is unconditional");
}

#[test]
fn filter_fetch_failure_finishes_without_restore() {
    let req = Request::new(0x03, 0x0024, &[], 0);
    let (req, a) = req.step(Input::Failed(HciError::Os(13)));
    assert!(matches!(a, Action::Finish));
    assert_eq!(req.into_result(), Err(HciError::Os(13)));
}

#[test]
fn install_failure_restores_before_failing() {
    let prev = previous_filter();
    let req = Request::new(0x03, 0x0024, &[], 0);
    let (req, _) = req.step(Input::Filter(prev));
    let (req, a) = req.step(Input::Failed(HciError::Os(1)));
    assert_eq!(expect_set_filter(a), prev);
    let (req, _) = req.step(Input::Acked);
    assert_eq!(req.into_result(), Err(HciError::Os(1)));
}

#[test]
fn send_failure_restores_before_failing() {
    let prev = previous_filter();
    let req = Request::new(0x03, 0x0024, &[], 0);
    let (req, _) = req.step(Input::Filter(prev));
    let (req, _) = req.step(Input::Acked);
    let (req, a) = req.step(Input::Failed(HciError::Os(32)));
    assert_eq!(expect_set_filter(a), prev);
    let (req, _) = req.step(Input::Acked);
    assert_eq!(req.into_result(), Err(HciError::Os(32)));
}

#[test]
fn restore_failure_replaces_the_outcome() {
    let prev = previous_filter();
    let req = Request::new(0x03, 0x0024, &[], 0);
    let (req, _) = req.step(Input::Filter(prev));
    let (req, _) = req.step(Input::Acked);
    let (req, _) = req.step(Input::Acked);
    let response = vec![0x00, 0x0e, 0x04, 0x01, 0x24, 0x0c, 0x55];
    let (req, _) = req.step(Input::Packet(response));
    let (req, a) = req.step(Input::Failed(HciError::Os(9)));
    assert!(matches!(a, Action::Finish));
    assert_eq!(req.into_result(), Err(HciError::Os(9)));
}

#[test]
fn receive_failure_restores_before_failing() {
    let prev = previous_filter();
    let req = Request::new(0x03, 0x0024, &[], 0);
    let (req, _) = req.step(Input::Filter(prev));
    let (req, _) = req.step(Input::Acked);
    let (req, _) = req.step(Input::Acked);
    let (req, a) = req.step(Input::Failed(HciError::Os(4)));
    assert_eq!(expect_set_filter(a), prev);
    let (req, _) = req.step(Input::Acked);
    assert_eq!(req.into_result(), Err(HciError::Os(4)));
}

#[test]
fn write_class_of_dev_frames_three_byte_class() {
    let prev = previous_filter();
    let req = Request::write_class_of_dev(0x0012_3456, 0);
    let (req, a) = req.step(Input::Filter(prev));
    assert_eq!(expect_set_filter(a), request_filter(0x0c24));
    let (_, a) = req.step(Input::Acked);
    match a {
        Action::Send(bytes) => assert_eq!(bytes, vec![0x01, 0x24, 0x0c, 0x03, 0x56, 0x34, 0x12]),
        _ => panic!("expected the framed command"),
    }
}

#[test]
fn class_of_dev_truncates_to_low_three_bytes() {
    let prev = previous_filter();
    let req = Request::write_class_of_dev(0xff01_0203, 0);
    let (req, _) = req.step(Input::Filter(prev));
    let (_, a) = req.step(Input::Acked);
    match a {
        Action::Send(bytes) => assert_eq!(bytes, vec![0x01, 0x24, 0x0c, 0x03, 0x03, 0x02, 0x01]),
        _ => panic!("expected the framed command"),
    }
}
