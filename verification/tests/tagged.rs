use jdw_osc_lib::error::{ArgKind, OscError, PacketKind, TagProblem};
use jdw_osc_lib::model::{TaggedBundle, TimedOSCPacket};
use jdw_osc_lib::packet::{OscBundle, OscMessage, OscPacket, OscTime, OscType};

fn text(s: &str) -> OscType {
    OscType::String(s.to_string())
}

fn message(addr: &str, args: Vec<OscType>) -> OscMessage {
    OscMessage { addr: addr.to_string(), args }
}

fn bundle(content: Vec<OscPacket>) -> OscBundle {
    OscBundle { timetag: OscTime { seconds: 0, fractional: 1 }, content }
}

fn info(tag: &str) -> OscPacket {
    OscPacket::Message(message("/bundle_info", vec![text(tag)]))
}

fn malformed(reason: TagProblem) -> OscError {
    OscError::MalformedTag { reason }
}

fn timed_info(time: f32) -> OscPacket {
    OscPacket::Message(message("/timed_msg_info", vec![OscType::Float(time.to_bits())]))
}

#[test]
fn new_reads_the_tag_and_keeps_the_rest() {
    let a = OscPacket::Message(message("/a", vec![OscType::Int(1)]));
    let b = OscPacket::Bundle(bundle(vec![info("inner")]));
    let decoded = TaggedBundle::new(&bundle(vec![info("queue"), a.clone(), b.clone()]));
    assert_eq!(
        decoded,
        Ok(TaggedBundle { bundle_tag: "queue".to_string(), contents: vec![a, b] })
    );
}

#[test]
fn new_accepts_a_bundle_with_nothing_but_the_info_message() {
    let decoded = TaggedBundle::new(&bundle(vec![info("ping")]));
    assert_eq!(decoded, Ok(TaggedBundle { bundle_tag: "ping".to_string(), contents: vec![] }));
}

#[test]
fn new_ignores_further_arguments_of_the_info_message() {
    let header = OscPacket::Message(message("/bundle_info", vec![text("t"), OscType::Int(2)]));
    let decoded = TaggedBundle::new(&bundle(vec![header]));
    assert_eq!(decoded, Ok(TaggedBundle { bundle_tag: "t".to_string(), contents: vec![] }));
}

#[test]
fn new_accepts_an_empty_tag() {
    let decoded = TaggedBundle::new(&bundle(vec![info("")]));
    assert_eq!(decoded, Ok(TaggedBundle { bundle_tag: String::new(), contents: vec![] }));
}

#[test]
fn new_does_not_decode_nested_bundles() {
    let nested = OscPacket::Bundle(bundle(vec![]));
    let decoded = TaggedBundle::new(&bundle(vec![info("outer"), nested.clone()])).unwrap();
    assert_eq!(decoded.contents, vec![nested]);
}

#[test]
fn new_leaves_the_bundle_as_it_is() {
    let source = bundle(vec![info("queue"), OscPacket::Message(message("/a", vec![]))]);
    let before = source.clone();
    let _ = TaggedBundle::new(&source);
    assert_eq!(source, before);
}

#[test]
fn new_rejects_an_empty_bundle() {
    assert_eq!(TaggedBundle::new(&bundle(vec![])), Err(OscError::EmptyBundle));
}

#[test]
fn new_rejects_a_bundle_in_first_place() {
    let first = OscPacket::Bundle(bundle(vec![info("queue")]));
    assert_eq!(
        TaggedBundle::new(&bundle(vec![first, info("queue")])),
        Err(malformed(TagProblem::NotAMessage))
    );
}

#[test]
fn new_rejects_another_address_and_names_it() {
    let first = OscPacket::Message(message("/bundle_inf", vec![text("queue")]));
    assert_eq!(
        TaggedBundle::new(&bundle(vec![first])),
        Err(malformed(TagProblem::WrongAddress { actual: "/bundle_inf".to_string() }))
    );
    let second = OscPacket::Message(message("/bundle_info/", vec![text("queue")]));
    assert_eq!(
        TaggedBundle::new(&bundle(vec![second])),
        Err(malformed(TagProblem::WrongAddress { actual: "/bundle_info/".to_string() }))
    );
}

#[test]
fn new_rejects_an_info_message_without_arguments() {
    let first = OscPacket::Message(message("/bundle_info", vec![]));
    assert_eq!(TaggedBundle::new(&bundle(vec![first])), Err(malformed(TagProblem::NoArgument)));
}

#[test]
fn new_rejects_a_tag_that_is_not_a_string() {
    let first = OscPacket::Message(message("/bundle_info", vec![OscType::Int(1), text("queue")]));
    assert_eq!(TaggedBundle::new(&bundle(vec![first])), Err(malformed(TagProblem::NotAString)));
}

#[test]
fn new_checks_the_address_before_the_arguments() {
    let first = OscPacket::Message(message("/other", vec![]));
    assert_eq!(
        TaggedBundle::new(&bundle(vec![first])),
        Err(malformed(TagProblem::WrongAddress { actual: "/other".to_string() }))
    );
}

#[test]
fn accessors_of_a_tagged_bundle_made_by_hand() {
    let msg_a = message("/a", vec![OscType::Int(1)]);
    let msg_b = message("/b", vec![text("two")]);
    let tagged = TaggedBundle {
        bundle_tag: "foo".to_string(),
        contents: vec![OscPacket::Message(msg_a.clone()), OscPacket::Message(msg_b.clone())],
    };
    assert_eq!(tagged.get_message(0), Ok(msg_a));
    assert_eq!(tagged.get_packet(1), Ok(OscPacket::Message(msg_b)));
}

#[test]
fn get_message_fails_on_a_bundle() {
    let inner = bundle(vec![]);
    let tagged = TaggedBundle {
        bundle_tag: "foo".to_string(),
        contents: vec![OscPacket::Message(message("/a", vec![])), OscPacket::Bundle(inner.clone())],
    };
    assert_eq!(
        tagged.get_message(1),
        Err(OscError::TypeMismatch { index: 1, wanted: PacketKind::Message })
    );
    assert_eq!(tagged.get_bundle(1), Ok(inner.clone()));
    assert_eq!(tagged.get_packet(1), Ok(OscPacket::Bundle(inner)));
}

#[test]
fn get_bundle_fails_on_a_message() {
    let tagged = TaggedBundle {
        bundle_tag: "foo".to_string(),
        contents: vec![OscPacket::Message(message("/a", vec![]))],
    };
    assert_eq!(
        tagged.get_bundle(0),
        Err(OscError::TypeMismatch { index: 0, wanted: PacketKind::Bundle })
    );
}

#[test]
fn accessors_fail_past_the_end() {
    let tagged = TaggedBundle {
        bundle_tag: "foo".to_string(),
        contents: vec![OscPacket::Message(message("/a", vec![]))],
    };
    assert_eq!(tagged.get_packet(1), Err(OscError::IndexError { index: 1 }));
    assert_eq!(tagged.get_message(1), Err(OscError::IndexError { index: 1 }));
    assert_eq!(tagged.get_bundle(7), Err(OscError::IndexError { index: 7 }));
    let empty = TaggedBundle { bundle_tag: "foo".to_string(), contents: vec![] };
    assert_eq!(empty.get_packet(0), Err(OscError::IndexError { index: 0 }));
}

#[test]
fn accessors_count_from_after_the_info_message() {
    let first = OscPacket::Message(message("/first", vec![]));
    let tagged = TaggedBundle::new(&bundle(vec![info("foo"), first.clone()])).unwrap();
    assert_eq!(tagged.get_packet(0), Ok(first));
    assert_eq!(tagged.get_packet(1), Err(OscError::IndexError { index: 1 }));
}

#[test]
fn from_bundle_reads_time_and_packet() {
    let msg_z = message("/z", vec![OscType::Int(9)]);
    let tagged = TaggedBundle {
        bundle_tag: "timed_msg".to_string(),
        contents: vec![timed_info(2.5), OscPacket::Message(msg_z.clone())],
    };
    let timed = TimedOSCPacket::from_bundle(tagged).unwrap();
    assert_eq!(f32::from_bits(timed.time), 2.5);
    assert_eq!(timed.packet, OscPacket::Message(msg_z.clone()));
    assert_eq!(
        timed,
        TimedOSCPacket { time: 2.5f32.to_bits(), packet: OscPacket::Message(msg_z) }
    );
}

#[test]
fn from_bundle_takes_a_bundle_as_the_packet_untouched() {
    let payload = OscPacket::Bundle(bundle(vec![info("queue")]));
    let tagged = TaggedBundle {
        bundle_tag: "timed_msg".to_string(),
        contents: vec![timed_info(0.0), payload.clone()],
    };
    assert_eq!(
        TimedOSCPacket::from_bundle(tagged),
        Ok(TimedOSCPacket { time: 0, packet: payload })
    );
}

#[test]
fn from_bundle_ignores_what_follows_the_packet() {
    let payload = OscPacket::Message(message("/z", vec![]));
    let tagged = TaggedBundle {
        bundle_tag: "timed_msg".to_string(),
        contents: vec![timed_info(1.0), payload.clone(), OscPacket::Message(message("/y", vec![]))],
    };
    assert_eq!(
        TimedOSCPacket::from_bundle(tagged),
        Ok(TimedOSCPacket { time: 1.0f32.to_bits(), packet: payload })
    );
}

#[test]
fn from_bundle_decodes_a_raw_bundle_end_to_end() {
    let payload = OscPacket::Message(message("/z", vec![]));
    let raw = bundle(vec![info("timed_msg"), timed_info(-4.75), payload.clone()]);
    let timed = TimedOSCPacket::from_bundle(TaggedBundle::new(&raw).unwrap()).unwrap();
    assert_eq!(f32::from_bits(timed.time), -4.75);
    assert_eq!(timed.packet, payload);
}

#[test]
fn from_bundle_rejects_another_tag_and_names_it() {
    let tagged = TaggedBundle {
        bundle_tag: "queue".to_string(),
        contents: vec![timed_info(2.5), OscPacket::Message(message("/z", vec![]))],
    };
    assert_eq!(
        TimedOSCPacket::from_bundle(tagged),
        Err(OscError::WrongBundleKind { actual: "queue".to_string() })
    );
}

#[test]
fn from_bundle_reports_missing_contents() {
    let none = TaggedBundle { bundle_tag: "timed_msg".to_string(), contents: vec![] };
    assert_eq!(TimedOSCPacket::from_bundle(none), Err(OscError::MissingContent { index: 0 }));
    let one = TaggedBundle { bundle_tag: "timed_msg".to_string(), contents: vec![timed_info(2.5)] };
    assert_eq!(TimedOSCPacket::from_bundle(one), Err(OscError::MissingContent { index: 1 }));
}

#[test]
fn from_bundle_rejects_a_bundle_in_place_of_the_info_message() {
    let tagged = TaggedBundle {
        bundle_tag: "timed_msg".to_string(),
        contents: vec![
            OscPacket::Bundle(bundle(vec![])),
            OscPacket::Message(message("/z", vec![])),
        ],
    };
    assert_eq!(
        TimedOSCPacket::from_bundle(tagged),
        Err(OscError::TypeMismatch { index: 0, wanted: PacketKind::Message })
    );
}

#[test]
fn from_bundle_rejects_another_info_address() {
    let tagged = TaggedBundle {
        bundle_tag: "timed_msg".to_string(),
        contents: vec![
            OscPacket::Message(message("/timed_info", vec![OscType::Float(0)])),
            OscPacket::Message(message("/z", vec![])),
        ],
    };
    assert_eq!(
        TimedOSCPacket::from_bundle(tagged),
        Err(OscError::AddressMismatch {
            expected: "/timed_msg_info".to_string(),
            actual: "/timed_info".to_string(),
        })
    );
}

#[test]
fn from_bundle_rejects_a_time_that_is_no_float() {
    for time in [OscType::Int(2), text("2.5"), OscType::Double(2.5f64.to_bits())] {
        let tagged = TaggedBundle {
            bundle_tag: "timed_msg".to_string(),
            contents: vec![
                OscPacket::Message(message("/timed_msg_info", vec![time])),
                OscPacket::Message(message("/z", vec![])),
            ],
        };
        assert_eq!(
            TimedOSCPacket::from_bundle(tagged),
            Err(OscError::TypeMismatchOrMissing {
                index: 0,
                name: "time".to_string(),
                kind: ArgKind::Float,
            })
        );
    }
}

#[test]
fn from_bundle_rejects_an_info_message_without_time() {
    let tagged = TaggedBundle {
        bundle_tag: "timed_msg".to_string(),
        contents: vec![
            OscPacket::Message(message("/timed_msg_info", vec![])),
            OscPacket::Message(message("/z", vec![])),
        ],
    };
    assert_eq!(
        TimedOSCPacket::from_bundle(tagged),
        Err(OscError::TypeMismatchOrMissing {
            index: 0,
            name: "time".to_string(),
            kind: ArgKind::Float,
        })
    );
}

#[test]
fn from_bundle_checks_in_a_fixed_order() {
    let wrong_address = OscPacket::Message(message("/other", vec![]));
    let short = TaggedBundle {
        bundle_tag: "timed_msg".to_string(),
        contents: vec![wrong_address.clone()],
    };
    assert_eq!(TimedOSCPacket::from_bundle(short), Err(OscError::MissingContent { index: 1 }));
    let other_tag = TaggedBundle { bundle_tag: "x".to_string(), contents: vec![] };
    assert_eq!(
        TimedOSCPacket::from_bundle(other_tag),
        Err(OscError::WrongBundleKind { actual: "x".to_string() })
    );
}

#[test]
fn clones_are_deep_and_equal() {
    let tagged = TaggedBundle {
        bundle_tag: "timed_msg".to_string(),
        contents: vec![timed_info(2.5), OscPacket::Bundle(bundle(vec![info("in")]))],
    };
    let copy = tagged.clone();
    assert_eq!(copy, tagged);
    let timed = TimedOSCPacket::from_bundle(tagged).unwrap();
    assert_eq!(timed.clone(), timed);
}
