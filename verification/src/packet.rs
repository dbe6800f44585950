//! The OSC data model: arguments, messages, bundles and packets.
//!
//! These types hold, as plain values, what a decoded OSC packet carries. A
//! floating-point argument is held by its IEEE 754 bit pattern, so that a
//! value passes through the library unchanged, bit for bit.
//!
//! Each type has a view: the mathematical value that the contracts of this
//! crate speak of. Strings become `Seq<char>`, vectors become `Seq`.

use vstd::prelude::*;

verus! {

/// An OSC time tag: seconds since 1900-01-01 and fractions of a second.
#[derive(Clone, Copy, Debug, PartialEq, Eq)]
pub struct OscTime {
    pub seconds: u32,
    pub fractional: u32,
}

/// An RGBA colour.
#[derive(Clone, Copy, Debug, PartialEq, Eq)]
pub struct OscColor {
    pub red: u8,
    pub green: u8,
    pub blue: u8,
    pub alpha: u8,
}

/// The four bytes of a MIDI message.
#[derive(Clone, Copy, Debug, PartialEq, Eq)]
pub struct OscMidiMessage {
    pub port: u8,
    pub status: u8,
    pub data1: u8,
    pub data2: u8,
}

/// One argument of an OSC message.
///
/// `Float` holds the bit pattern of an `f32` (`f32::to_bits`), `Double` that
/// of an `f64`.
#[derive(Debug, PartialEq)]
pub enum OscType {
    Int(i32),
    Float(u32),
    String(String),
    Blob(Vec<u8>),
    Time(OscTime),
    Long(i64),
    Double(u64),
    Char(char),
    Color(OscColor),
    Midi(OscMidiMessage),
    Bool(bool),
    Array(Vec<OscType>),
    Nil,
    Inf,
}

/// An address and its arguments.
#[derive(Debug, PartialEq)]
pub struct OscMessage {
    pub addr: String,
    pub args: Vec<OscType>,
}

/// A time tag and an ordered group of packets.
#[derive(Debug, PartialEq)]
pub struct OscBundle {
    pub timetag: OscTime,
    pub content: Vec<OscPacket>,
}

/// A message or a bundle.
#[derive(Debug, PartialEq)]
pub enum OscPacket {
    Message(OscMessage),
    Bundle(OscBundle),
}

/// The mathematical value of an [`OscType`].
pub enum OscTypeView {
    Int(i32),
    Float(u32),
    String(Seq<char>),
    Blob(Seq<u8>),
    Time(OscTime),
    Long(i64),
    Double(u64),
    Char(char),
    Color(OscColor),
    Midi(OscMidiMessage),
    Bool(bool),
    Array(Seq<OscTypeView>),
    Nil,
    Inf,
}

/// The mathematical value of an [`OscMessage`].
pub struct OscMessageView {
    pub addr: Seq<char>,
    pub args: Seq<OscTypeView>,
}

/// The mathematical value of an [`OscBundle`].
pub struct OscBundleView {
    pub timetag: OscTime,
    pub content: Seq<OscPacketView>,
}

/// The mathematical value of an [`OscPacket`].
pub enum OscPacketView {
    Message(OscMessageView),
    Bundle(OscBundleView),
}

/// The value of one argument; an array is the sequence of its items' values.
pub open spec fn arg_view(arg: OscType) -> OscTypeView
    decreases arg,
{
    match arg {
        OscType::Int(v) => OscTypeView::Int(v),
        OscType::Float(bits) => OscTypeView::Float(bits),
        OscType::String(s) => OscTypeView::String(s@),
        OscType::Blob(bytes) => OscTypeView::Blob(bytes@),
        OscType::Time(t) => OscTypeView::Time(t),
        OscType::Long(v) => OscTypeView::Long(v),
        OscType::Double(bits) => OscTypeView::Double(bits),
        OscType::Char(c) => OscTypeView::Char(c),
        OscType::Color(c) => OscTypeView::Color(c),
        OscType::Midi(m) => OscTypeView::Midi(m),
        OscType::Bool(b) => OscTypeView::Bool(b),
        OscType::Array(items) => OscTypeView::Array(
            Seq::new(
                items.len() as nat,
                |i: int|
                    if 0 <= i < items.len() {
                        arg_view(items[i])
                    } else {
                        OscTypeView::Nil
                    },
            ),
        ),
        OscType::Nil => OscTypeView::Nil,
        OscType::Inf => OscTypeView::Inf,
    }
}

/// The values of a sequence of arguments, item by item.
pub open spec fn arg_views(args: Seq<OscType>) -> Seq<OscTypeView> {
    Seq::new(args.len(), |i: int| arg_view(args[i]))
}

/// The value of a packet; a bundle's content is the sequence of its packets'
/// values.
pub open spec fn packet_view(packet: OscPacket) -> OscPacketView
    decreases packet,
{
    match packet {
        OscPacket::Message(m) => OscPacketView::Message(
            OscMessageView { addr: m.addr@, args: arg_views(m.args@) },
        ),
        OscPacket::Bundle(b) => OscPacketView::Bundle(
            OscBundleView {
                timetag: b.timetag,
                content: Seq::new(
                    b.content.len() as nat,
                    |i: int|
                        if 0 <= i < b.content.len() {
                            packet_view(b.content[i])
                        } else {
                            OscPacketView::Bundle(
                                OscBundleView { timetag: b.timetag, content: Seq::empty() },
                            )
                        },
                ),
            },
        ),
    }
}

/// The values of a sequence of packets, item by item.
pub open spec fn packet_views(packets: Seq<OscPacket>) -> Seq<OscPacketView> {
    Seq::new(packets.len(), |i: int| packet_view(packets[i]))
}

impl View for OscType {
    type V = OscTypeView;

    open spec fn view(&self) -> OscTypeView {
        arg_view(*self)
    }
}

impl View for OscMessage {
    type V = OscMessageView;

    open spec fn view(&self) -> OscMessageView {
        OscMessageView { addr: self.addr@, args: arg_views(self.args@) }
    }
}

impl View for OscBundle {
    type V = OscBundleView;

    open spec fn view(&self) -> OscBundleView {
        OscBundleView { timetag: self.timetag, content: packet_views(self.content@) }
    }
}

impl View for OscPacket {
    type V = OscPacketView;

    open spec fn view(&self) -> OscPacketView {
        packet_view(*self)
    }
}

/// The items from position `start` on; none if `start` is past the end.
pub open spec fn tail_from<T>(items: Seq<T>, start: int) -> Seq<T> {
    if 0 <= start < items.len() {
        items.skip(start)
    } else {
        Seq::empty()
    }
}

/// The value of an array argument is the array of its items' values.
pub proof fn lemma_array_view(items: Vec<OscType>)
    ensures
        OscType::Array(items)@ == OscTypeView::Array(arg_views(items@)),
{
    assert(OscType::Array(items)@->Array_0 =~= arg_views(items@));
}

/// The value of a bundle packet is the bundle's own value.
pub proof fn lemma_bundle_packet_view(bundle: OscBundle)
    ensures
        OscPacket::Bundle(bundle)@ == OscPacketView::Bundle(bundle@),
{
    assert(OscPacket::Bundle(bundle)@->Bundle_0.content =~= packet_views(bundle.content@));
}

impl Clone for OscType {
    /// A deep copy: the copy has the same value.
    fn clone(&self) -> (r: Self)
        ensures
            r@ == self@,
        decreases self, 0nat,
    {
        match self {
            OscType::Int(v) => OscType::Int(*v),
            OscType::Float(bits) => OscType::Float(*bits),
            OscType::String(s) => OscType::String(s.clone()),
            OscType::Blob(bytes) => OscType::Blob(bytes.clone()),
            OscType::Time(t) => OscType::Time(*t),
            OscType::Long(v) => OscType::Long(*v),
            OscType::Double(bits) => OscType::Double(*bits),
            OscType::Char(c) => OscType::Char(*c),
            OscType::Color(c) => OscType::Color(*c),
            OscType::Midi(m) => OscType::Midi(*m),
            OscType::Bool(b) => OscType::Bool(*b),
            OscType::Array(items) => {
                let copy = clone_args(items);
                proof {
                    lemma_array_view(copy);
                    lemma_array_view(*items);
                }
                OscType::Array(copy)
            },
            OscType::Nil => OscType::Nil,
            OscType::Inf => OscType::Inf,
        }
    }
}

/// A deep copy of the arguments from position `start` on; empty if `start`
/// is past the end.
pub fn clone_args_from(args: &Vec<OscType>, start: usize) -> (r: Vec<OscType>)
    ensures
        arg_views(r@) == tail_from(arg_views(args@), start as int),
    decreases args, 1nat,
{
    let mut copy: Vec<OscType> = Vec::new();
    if start < args.len() {
        let mut i: usize = start;
        while i < args.len()
            invariant
                start <= i <= args.len(),
                copy.len() == i - start,
                forall|j: int| 0 <= j < copy.len() ==> copy[j]@ == args[start + j]@,
            decreases args.len() - i,
        {
            copy.push(args[i].clone());
            i += 1;
        }
    }
    assert(arg_views(copy@) =~= tail_from(arg_views(args@), start as int));
    copy
}

/// A deep copy of a list of arguments.
pub fn clone_args(args: &Vec<OscType>) -> (r: Vec<OscType>)
    ensures
        arg_views(r@) == arg_views(args@),
    decreases args, 2nat,
{
    let copy = clone_args_from(args, 0);
    assert(tail_from(arg_views(args@), 0) =~= arg_views(args@));
    copy
}

impl Clone for OscMessage {
    /// A deep copy: the copy has the same value.
    fn clone(&self) -> (r: Self)
        ensures
            r@ == self@,
    {
        OscMessage { addr: self.addr.clone(), args: clone_args(&self.args) }
    }
}

impl Clone for OscPacket {
    /// A deep copy: the copy has the same value.
    fn clone(&self) -> (r: Self)
        ensures
            r@ == self@,
        decreases self, 0nat,
    {
        match self {
            OscPacket::Message(m) => OscPacket::Message(m.clone()),
            OscPacket::Bundle(b) => {
                let copy = OscBundle {
                    timetag: b.timetag,
                    content: clone_packets(&b.content),
                };
                proof {
                    lemma_bundle_packet_view(copy);
                    lemma_bundle_packet_view(*b);
                }
                OscPacket::Bundle(copy)
            },
        }
    }
}

/// A deep copy of the packets from position `start` on; empty if `start` is
/// past the end.
pub fn clone_packets_from(packets: &Vec<OscPacket>, start: usize) -> (r: Vec<OscPacket>)
    ensures
        packet_views(r@) == tail_from(packet_views(packets@), start as int),
    decreases packets, 1nat,
{
    let mut copy: Vec<OscPacket> = Vec::new();
    if start < packets.len() {
        let mut i: usize = start;
        while i < packets.len()
            invariant
                start <= i <= packets.len(),
                copy.len() == i - start,
                forall|j: int| 0 <= j < copy.len() ==> copy[j]@ == packets[start + j]@,
            decreases packets.len() - i,
        {
            copy.push(packets[i].clone());
            i += 1;
        }
    }
    assert(packet_views(copy@) =~= tail_from(packet_views(packets@), start as int));
    copy
}

/// A deep copy of a list of packets.
pub fn clone_packets(packets: &Vec<OscPacket>) -> (r: Vec<OscPacket>)
    ensures
        packet_views(r@) == packet_views(packets@),
    decreases packets, 2nat,
{
    let copy = clone_packets_from(packets, 0);
    assert(tail_from(packet_views(packets@), 0) =~= packet_views(packets@));
    copy
}

impl Clone for OscBundle {
    /// A deep copy: the copy has the same value.
    fn clone(&self) -> (r: Self)
        ensures
            r@ == self@,
    {
        OscBundle { timetag: self.timetag, content: clone_packets(&self.content) }
    }
}

} // verus!
