use probationdesk::control::{
    decode, encode, port_forward_count, port_forward_query, port_forward_reply, ControlMessage,
    Endpoint,
};

#[test]
fn every_message_has_its_frame() {
    assert_eq!(encode(ControlMessage::Close), vec![0]);
    assert_eq!(encode(ControlMessage::SAS), vec![1]);
    assert_eq!(encode(ControlMessage::UserSid(None)), vec![2, 0]);
    assert_eq!(encode(ControlMessage::UserSid(Some(7))), vec![2, 1, 7, 0, 0, 0]);
    assert_eq!(
        encode(ControlMessage::UserSid(Some(0x1234_5678))),
        vec![2, 1, 0x78, 0x56, 0x34, 0x12]
    );
    assert_eq!(encode(ControlMessage::Other), vec![255]);
}

#[test]
fn a_frame_that_was_written_is_read_as_the_same_message() {
    for message in [
        ControlMessage::Close,
        ControlMessage::SAS,
        ControlMessage::UserSid(None),
        ControlMessage::UserSid(Some(0)),
        ControlMessage::UserSid(Some(5)),
        ControlMessage::UserSid(Some(u32::MAX)),
        ControlMessage::Other,
    ] {
        assert_eq!(decode(&encode(message)), message);
    }
}

#[test]
fn a_frame_that_is_not_understood_is_ignored() {
    for frame in [
        vec![],
        vec![3],
        vec![4, 1, 0, 0, 0],
        vec![9, 9, 9],
        vec![0, 0],
        vec![1, 1],
        vec![2],
        vec![2, 2],
        vec![2, 1, 7],
        vec![2, 1, 7, 0, 0, 0, 0],
        vec![2, 0, 7, 0, 0, 0],
    ] {
        assert_eq!(decode(&frame), ControlMessage::Other, "{:?}", frame);
        assert!(!decode(&frame).is_lifecycle());
    }
    assert!(ControlMessage::Close.is_lifecycle());
    assert!(ControlMessage::UserSid(None).is_lifecycle());
}

#[test]
fn the_count_of_port_forwards_is_asked_and_answered() {
    assert_eq!(port_forward_query(), vec![3]);
    assert_eq!(port_forward_reply(258), vec![4, 2, 1, 0, 0]);
    for count in [0, 1, 255, 256, 65536, 16777216, u32::MAX] {
        assert_eq!(port_forward_count(&port_forward_reply(count)), Some(count));
    }
    assert_eq!(port_forward_count(&vec![4, 0, 0, 0]), None);
    assert_eq!(port_forward_count(&vec![3, 0, 0, 0, 0]), None);
    assert_eq!(port_forward_count(&vec![]), None);
}

#[test]
fn the_two_endpoints_have_different_names() {
    assert_eq!(Endpoint::Service.postfix(), "_service");
    assert_eq!(Endpoint::Server.postfix(), "");
}
