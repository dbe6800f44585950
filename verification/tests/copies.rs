use jdw_osc_lib::packet::{
    clone_args, clone_args_from, clone_packets, clone_packets_from, OscBundle, OscMessage,
    OscPacket, OscTime, OscType,
};

fn args() -> Vec<OscType> {
    vec![
        OscType::Int(1),
        OscType::String("two".to_string()),
        OscType::Array(vec![OscType::Float(3.0f32.to_bits())]),
    ]
}

fn packets() -> Vec<OscPacket> {
    let one = OscMessage { addr: "/one".to_string(), args: args() };
    let two = OscBundle {
        timetag: OscTime { seconds: 2, fractional: 2 },
        content: vec![OscPacket::Message(one.clone())],
    };
    vec![OscPacket::Message(one), OscPacket::Bundle(two)]
}

#[test]
fn clone_args_copies_all() {
    assert_eq!(clone_args(&args()), args());
    assert_eq!(clone_args(&vec![]), vec![]);
}

#[test]
fn clone_args_from_copies_the_tail() {
    assert_eq!(clone_args_from(&args(), 0), args());
    assert_eq!(clone_args_from(&args(), 1), args()[1..].to_vec());
    assert_eq!(clone_args_from(&args(), 2), args()[2..].to_vec());
}

#[test]
fn clone_args_from_is_empty_at_and_past_the_end() {
    assert_eq!(clone_args_from(&args(), 3), vec![]);
    assert_eq!(clone_args_from(&args(), 4), vec![]);
    assert_eq!(clone_args_from(&args(), usize::MAX), vec![]);
}

#[test]
fn clone_packets_copies_all() {
    assert_eq!(clone_packets(&packets()), packets());
    assert_eq!(clone_packets(&vec![]), vec![]);
}

#[test]
fn clone_packets_from_copies_the_tail() {
    assert_eq!(clone_packets_from(&packets(), 0), packets());
    assert_eq!(clone_packets_from(&packets(), 1), packets()[1..].to_vec());
    assert_eq!(clone_packets_from(&packets(), 2), vec![]);
    assert_eq!(clone_packets_from(&packets(), 9), vec![]);
}
