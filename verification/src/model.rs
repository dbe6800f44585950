//! Typed reads of a message's arguments, tagged bundles and timed packets.

use bigdecimal::BigDecimal;
use bigdecimal::ParseBigDecimalError;
use vstd::prelude::*;
use crate::decimal::{parse_decimal, parsed_decimal};
use crate::error::{
    ArgKind, OscError, OscErrorView, PacketKind, ShapeProblem, TagProblem, TagProblemView, outcome,
};
use crate::packet::{
    OscBundle, OscBundleView, OscMessage, OscMessageView, OscPacket, OscPacketView, OscType,
    OscTypeView, arg_views, clone_args_from, clone_packets, clone_packets_from,
    lemma_bundle_packet_view, packet_views, tail_from,
};

verus! {

/// What the element at position `i` of a key/value tail must be: a string at
/// an even position, a float at an odd one.
pub open spec fn slot_fits(args: Seq<OscTypeView>, i: int) -> bool {
    if i % 2 == 0 {
        args[i] is String
    } else {
        args[i] is Float
    }
}

/// The sequence alternates string, float, string, float, ... and starts with
/// a string. The empty sequence does.
pub open spec fn alternates(args: Seq<OscTypeView>) -> bool {
    forall|i: int| 0 <= i < args.len() ==> slot_fits(args, i)
}

/// Position `i` is the first one whose element does not fit.
pub open spec fn first_misfit(args: Seq<OscTypeView>, i: int) -> bool {
    &&& 0 <= i < args.len()
    &&& !slot_fits(args, i)
    &&& forall|j: int| 0 <= j < i ==> slot_fits(args, j)
}

/// What is wrong with an element that does not fit.
pub open spec fn misfit_problem(arg: OscTypeView) -> ShapeProblem {
    match arg {
        OscTypeView::Float(_) => ShapeProblem::FloatWhereString,
        OscTypeView::String(_) => ShapeProblem::StringWhereFloat,
        _ => ShapeProblem::OtherType,
    }
}

/// `error` is the shape violation that names the first element of `args` that
/// does not fit, and says what is wrong with it.
pub open spec fn shape_violation(args: Seq<OscTypeView>, error: OscErrorView) -> bool {
    &&& error matches OscErrorView::ShapeViolation { index, problem }
    &&& first_misfit(args, index as int)
    &&& problem == misfit_problem(args[index as int])
}

/// Checks that `args` alternates string, float, string, float, ..., starting
/// with a string, and names the first element that does not fit.
pub fn validate_args(args: &Vec<OscType>) -> (r: Result<(), OscError>)
    ensures
        r is Ok <==> alternates(arg_views(args@)),
        r matches Err(e) ==> shape_violation(arg_views(args@), e@),
{
    let ghost views = arg_views(args@);
    let mut next_is_string = true;
    let mut i: usize = 0;
    while i < args.len()
        invariant
            i <= args.len(),
            views == arg_views(args@),
            next_is_string == (i % 2 == 0),
            forall|j: int| 0 <= j < i ==> slot_fits(views, j),
        decreases args.len() - i,
    {
        match &args[i] {
            OscType::Float(_) => {
                if next_is_string {
                    assert(first_misfit(views, i as int));
                    return Err(
                        OscError::ShapeViolation {
                            index: i,
                            problem: ShapeProblem::FloatWhereString,
                        },
                    );
                }
                next_is_string = true;
            },
            OscType::String(_) => {
                if !next_is_string {
                    assert(first_misfit(views, i as int));
                    return Err(
                        OscError::ShapeViolation {
                            index: i,
                            problem: ShapeProblem::StringWhereFloat,
                        },
                    );
                }
                next_is_string = false;
            },
            _ => {
                assert(first_misfit(views, i as int));
                return Err(
                    OscError::ShapeViolation { index: i, problem: ShapeProblem::OtherType },
                );
            },
        }
        i += 1;
    }
    Ok(())
}

/// The empty sequence alternates.
pub proof fn lemma_empty_alternates()
    ensures
        alternates(Seq::<OscTypeView>::empty()),
{
}

/// A sequence either alternates or has a first element that does not fit,
/// never both.
pub proof fn lemma_alternates_or_first_misfit(args: Seq<OscTypeView>)
    ensures
        alternates(args) <==> !exists|i: int| first_misfit(args, i),
{
    if !alternates(args) {
        let bad = choose|i: int| 0 <= i < args.len() && !slot_fits(args, i);
        lemma_first_misfit_before(args, bad);
    }
}

/// Up to any element that does not fit there is a first one.
proof fn lemma_first_misfit_before(args: Seq<OscTypeView>, bad: int)
    requires
        0 <= bad < args.len(),
        !slot_fits(args, bad),
    ensures
        exists|i: int| 0 <= i <= bad && first_misfit(args, i),
    decreases bad,
{
    if exists|j: int| 0 <= j < bad && !slot_fits(args, j) {
        let earlier = choose|j: int| 0 <= j < bad && !slot_fits(args, j);
        lemma_first_misfit_before(args, earlier);
    } else {
        assert(first_misfit(args, bad));
    }
}

/// The first element that does not fit is one position only, so a shape
/// violation is determined by the arguments.
pub proof fn lemma_shape_violation_unique(
    args: Seq<OscTypeView>,
    one: OscErrorView,
    other: OscErrorView,
)
    requires
        shape_violation(args, one),
        shape_violation(args, other),
    ensures
        one == other,
{
    let i = one->ShapeViolation_index;
    let j = other->ShapeViolation_index;
    if i < j {
        assert(slot_fits(args, i as int));
    } else if j < i {
        assert(slot_fits(args, j as int));
    }
}

/// The argument at `index`, if there is one.
pub open spec fn arg_at(args: Seq<OscTypeView>, index: usize) -> Option<OscTypeView> {
    if index < args.len() {
        Some(args[index as int])
    } else {
        None
    }
}

/// The reading of the argument at `index` as one of kind `kind` fails: the
/// argument is missing or of another kind.
pub open spec fn mismatch(index: usize, name: Seq<char>, kind: ArgKind) -> OscErrorView {
    OscErrorView::TypeMismatchOrMissing { index, name, kind }
}

/// What comparing an address with the expected one gives.
pub open spec fn addr_checked(addr: Seq<char>, expected: Seq<char>) -> Result<(), OscErrorView> {
    if addr == expected {
        Ok(())
    } else {
        Err(OscErrorView::AddressMismatch { expected, actual: addr })
    }
}

/// What asking for at least `amount` arguments gives: the text `Ok`, or the
/// count that was found.
pub open spec fn args_counted(args: Seq<OscTypeView>, amount: usize) -> Result<
    Seq<char>,
    OscErrorView,
> {
    if args.len() >= amount {
        Ok("Ok"@)
    } else {
        Err(OscErrorView::ArgumentCountError { required: amount, found: args.len() as usize })
    }
}

/// What reading the argument at `index` as a string gives.
pub open spec fn string_at(args: Seq<OscTypeView>, index: usize, name: Seq<char>) -> Result<
    Seq<char>,
    OscErrorView,
> {
    match arg_at(args, index) {
        Some(OscTypeView::String(text)) => Ok(text),
        _ => Err(mismatch(index, name, ArgKind::String)),
    }
}

/// What reading the argument at `index` as a float gives: its bit pattern.
pub open spec fn float_at(args: Seq<OscTypeView>, index: usize, name: Seq<char>) -> Result<
    u32,
    OscErrorView,
> {
    match arg_at(args, index) {
        Some(OscTypeView::Float(bits)) => Ok(bits),
        _ => Err(mismatch(index, name, ArgKind::Float)),
    }
}

/// What reading the argument at `index` as a 32-bit integer gives.
pub open spec fn int_at(args: Seq<OscTypeView>, index: usize, name: Seq<char>) -> Result<
    i32,
    OscErrorView,
> {
    match arg_at(args, index) {
        Some(OscTypeView::Int(value)) => Ok(value),
        _ => Err(mismatch(index, name, ArgKind::Int)),
    }
}

/// What reading the argument at `index` as an unsigned number gives: the
/// 32-bit integer there, unless it is negative.
pub open spec fn u64_at(args: Seq<OscTypeView>, index: usize, name: Seq<char>) -> Result<
    u64,
    OscErrorView,
> {
    match int_at(args, index, name) {
        Ok(value) => if value >= 0 {
            Ok(value as u64)
        } else {
            Err(OscErrorView::RangeError { index, name, value })
        },
        Err(error) => Err(error),
    }
}

/// No typed read converts between kinds: a read succeeds only on an argument
/// of exactly its kind, and gives that argument's own value. So on one
/// argument at most one of the three reads succeeds; an integer read as a
/// float fails, and so does a float read as an integer.
pub proof fn lemma_reads_do_not_coerce(args: Seq<OscTypeView>, index: usize, name: Seq<char>)
    ensures
        string_at(args, index, name) matches Ok(text) ==> arg_at(args, index) == Some(
            OscTypeView::String(text),
        ),
        float_at(args, index, name) matches Ok(bits) ==> arg_at(args, index) == Some(
            OscTypeView::Float(bits),
        ),
        int_at(args, index, name) matches Ok(value) ==> arg_at(args, index) == Some(
            OscTypeView::Int(value),
        ),
        !(string_at(args, index, name) is Ok && float_at(args, index, name) is Ok),
        !(string_at(args, index, name) is Ok && int_at(args, index, name) is Ok),
        !(float_at(args, index, name) is Ok && int_at(args, index, name) is Ok),
        arg_at(args, index) matches Some(OscTypeView::Int(_)) ==> float_at(args, index, name)
            == Err::<u32, OscErrorView>(mismatch(index, name, ArgKind::Float)),
        arg_at(args, index) matches Some(OscTypeView::Float(_)) ==> int_at(args, index, name)
            == Err::<i32, OscErrorView>(mismatch(index, name, ArgKind::Int)),
{
}

/// Typed reads of a message's address and arguments. No read converts an
/// argument of one kind into another, and none panics: what does not fit is
/// reported as an [`OscError`].
pub trait OscArgHandler: View<V = OscMessageView> {
    /// Succeeds exactly when the address is `addr_name`.
    fn expect_addr(&self, addr_name: &str) -> (r: Result<(), OscError>)
        ensures
            outcome(r) == addr_checked(self@.addr, addr_name@),
    ;

    /// Succeeds, with the text `Ok`, exactly when there are at least `amount`
    /// arguments.
    fn expect_args(&self, amount: usize) -> (r: Result<String, OscError>)
        ensures
            outcome(r) == args_counted(self@.args, amount),
    ;

    /// The string at `index`; fails unless there is an argument at `index`
    /// and it is a string.
    fn get_string_at(&self, index: usize, name: &str) -> (r: Result<String, OscError>)
        ensures
            outcome(r) == string_at(self@.args, index, name@),
    ;

    /// The bit pattern of the float at `index`; fails unless there is an
    /// argument at `index` and it is a float. An integer is not a float.
    fn get_float_at(&self, index: usize, name: &str) -> (r: Result<u32, OscError>)
        ensures
            outcome(r) == float_at(self@.args, index, name@),
    ;

    /// The integer at `index`; fails unless there is an argument at `index`
    /// and it is a 32-bit integer. A float is not an integer.
    fn get_int_at(&self, index: usize, name: &str) -> (r: Result<i32, OscError>)
        ensures
            outcome(r) == int_at(self@.args, index, name@),
    ;

    /// The integer at `index` as an unsigned number; fails as
    /// [`get_int_at`](OscArgHandler::get_int_at) does, and on a negative
    /// integer.
    fn get_u64_at(&self, index: usize, name: &str) -> (r: Result<u64, OscError>)
        ensures
            outcome(r) == u64_at(self@.args, index, name@),
    ;

    /// The decimal number that the string at `index` spells; fails as
    /// [`get_string_at`](OscArgHandler::get_string_at) does, and on a string
    /// that the decimal parser rejects.
    fn get_bigdecimal_at(&self, index: usize, name: &str) -> (r: Result<BigDecimal, OscError>)
        ensures
            match string_at(self@.args, index, name@) {
                Ok(text) => decimal_read(parsed_decimal(text), index, name@, text, r),
                Err(error) => r matches Err(e) && e@ == error,
            },
    ;

    /// A copy of the arguments from `start_index` on (none if `start_index`
    /// is past the end); fails unless they alternate string, float, string,
    /// float, ..., and then names the first position, counted from
    /// `start_index`, that does not fit.
    fn get_varargs(&self, start_index: usize) -> (r: Result<Vec<OscType>, OscError>)
        ensures
            r is Ok <==> alternates(tail_from(self@.args, start_index as int)),
            r matches Ok(tail) ==> arg_views(tail@) == tail_from(self@.args, start_index as int),
            r matches Err(e) ==> shape_violation(tail_from(self@.args, start_index as int), e@),
    ;
}

/// `r` is what reading a decimal at `index` gives when the string there is
/// `text` and the parser's outcome for it is `parsed`: the number, or a parse
/// error that quotes the string.
pub open spec fn decimal_read(
    parsed: Result<BigDecimal, ParseBigDecimalError>,
    index: usize,
    name: Seq<char>,
    text: Seq<char>,
    r: Result<BigDecimal, OscError>,
) -> bool {
    match parsed {
        Ok(number) => r == Ok::<BigDecimal, OscError>(number),
        Err(_) => r matches Err(e) && e@ == (OscErrorView::ParseError { index, name, text }),
    }
}

/// Maps the parser's outcome for the string at `index` to the outcome of the
/// read: the number as it is, any parse failure to
/// [`OscError::ParseError`].
pub fn decimal_outcome(
    parsed: Result<BigDecimal, ParseBigDecimalError>,
    index: usize,
    name: &str,
    text: String,
) -> (r: Result<BigDecimal, OscError>)
    ensures
        decimal_read(parsed, index, name@, text@, r),
{
    match parsed {
        Ok(number) => Ok(number),
        Err(_) => Err(OscError::ParseError { index, name: name.to_owned(), text }),
    }
}

impl OscArgHandler for OscMessage {
    fn expect_addr(&self, addr_name: &str) -> (r: Result<(), OscError>) {
        if !self.addr.as_str().eq(addr_name) {
            return Err(
                OscError::AddressMismatch {
                    expected: addr_name.to_owned(),
                    actual: self.addr.clone(),
                },
            );
        }
        Ok(())
    }

    fn expect_args(&self, amount: usize) -> (r: Result<String, OscError>) {
        if self.args.len() < amount {
            return Err(OscError::ArgumentCountError { required: amount, found: self.args.len() });
        }
        Ok("Ok".to_owned())
    }

    fn get_string_at(&self, index: usize, name: &str) -> (r: Result<String, OscError>) {
        if index < self.args.len() {
            if let OscType::String(text) = &self.args[index] {
                return Ok(text.clone());
            }
        }
        Err(
            OscError::TypeMismatchOrMissing {
                index,
                name: name.to_owned(),
                kind: ArgKind::String,
            },
        )
    }

    fn get_float_at(&self, index: usize, name: &str) -> (r: Result<u32, OscError>) {
        if index < self.args.len() {
            if let OscType::Float(bits) = &self.args[index] {
                return Ok(*bits);
            }
        }
        Err(
            OscError::TypeMismatchOrMissing { index, name: name.to_owned(), kind: ArgKind::Float },
        )
    }

    fn get_int_at(&self, index: usize, name: &str) -> (r: Result<i32, OscError>) {
        if index < self.args.len() {
            if let OscType::Int(value) = &self.args[index] {
                return Ok(*value);
            }
        }
        Err(OscError::TypeMismatchOrMissing { index, name: name.to_owned(), kind: ArgKind::Int })
    }

    fn get_u64_at(&self, index: usize, name: &str) -> (r: Result<u64, OscError>) {
        let value = self.get_int_at(index, name)?;
        match u64::try_from(value) {
            Ok(number) => Ok(number),
            Err(_) => Err(OscError::RangeError { index, name: name.to_owned(), value }),
        }
    }

    fn get_bigdecimal_at(&self, index: usize, name: &str) -> (r: Result<BigDecimal, OscError>) {
        let text = self.get_string_at(index, name)?;
        let parsed = parse_decimal(text.as_str());
        decimal_outcome(parsed, index, name, text)
    }

    fn get_varargs(&self, start_index: usize) -> (r: Result<Vec<OscType>, OscError>) {
        let named_args = clone_args_from(&self.args, start_index);
        validate_args(&named_args)?;
        Ok(named_args)
    }
}

/// A bundle whose purpose is named by a leading info message: a message with
/// the address `/bundle_info` and the tag as its first argument. `contents`
/// holds what follows the info message.
#[derive(Debug, PartialEq)]
pub struct TaggedBundle {
    pub bundle_tag: String,
    pub contents: Vec<OscPacket>,
}

/// The mathematical value of a [`TaggedBundle`].
pub struct TaggedBundleView {
    pub bundle_tag: Seq<char>,
    pub contents: Seq<OscPacketView>,
}

impl View for TaggedBundle {
    type V = TaggedBundleView;

    open spec fn view(&self) -> TaggedBundleView {
        TaggedBundleView { bundle_tag: self.bundle_tag@, contents: packet_views(self.contents@) }
    }
}

/// The bundle starts with a message that is addressed `/bundle_info` and has
/// a string as its first argument.
pub open spec fn has_tag_header(bundle: OscBundleView) -> bool {
    &&& bundle.content.len() > 0
    &&& bundle.content[0] matches OscPacketView::Message(info)
    &&& info.addr == "/bundle_info"@
    &&& info.args.len() > 0
    &&& info.args[0] is String
}

/// What decoding a bundle as a tagged bundle gives: the tag and the packets
/// after the info message, or the first thing that is wrong with the bundle.
pub open spec fn tagged(bundle: OscBundleView) -> Result<TaggedBundleView, OscErrorView> {
    if bundle.content.len() == 0 {
        Err(OscErrorView::EmptyBundle)
    } else {
        match bundle.content[0] {
            OscPacketView::Bundle(_) => Err(
                OscErrorView::MalformedTag { reason: TagProblemView::NotAMessage },
            ),
            OscPacketView::Message(info) => if info.addr != "/bundle_info"@ {
                Err(
                    OscErrorView::MalformedTag {
                        reason: TagProblemView::WrongAddress { actual: info.addr },
                    },
                )
            } else if info.args.len() == 0 {
                Err(OscErrorView::MalformedTag { reason: TagProblemView::NoArgument })
            } else {
                match info.args[0] {
                    OscTypeView::String(tag) => Ok(
                        TaggedBundleView { bundle_tag: tag, contents: bundle.content.skip(1) },
                    ),
                    _ => Err(OscErrorView::MalformedTag { reason: TagProblemView::NotAString }),
                }
            },
        }
    }
}

/// A bundle decodes as a tagged bundle exactly when it starts with a message
/// that is addressed `/bundle_info` and has a string as its first argument;
/// the result is then that string and the packets after the message.
pub proof fn lemma_tagged_iff_header(bundle: OscBundleView)
    ensures
        tagged(bundle) is Ok <==> has_tag_header(bundle),
        tagged(bundle) matches Ok(tbundle) ==> {
            &&& bundle.content[0]->Message_0.args[0] == OscTypeView::String(tbundle.bundle_tag)
            &&& tbundle.contents == bundle.content.skip(1)
        },
{
}

/// The packet at `index`, if there is one.
pub open spec fn packet_at(contents: Seq<OscPacketView>, index: usize) -> Option<OscPacketView> {
    if index < contents.len() {
        Some(contents[index as int])
    } else {
        None
    }
}

impl TaggedBundle {
    /// Decodes a bundle as a tagged bundle. The bundle itself is left as it
    /// is: the result holds copies, and nothing inside `contents` is decoded.
    pub fn new(bundle: &OscBundle) -> (r: Result<TaggedBundle, OscError>)
        ensures
            outcome(r) == tagged(bundle@),
    {
        if bundle.content.len() == 0 {
            return Err(OscError::EmptyBundle);
        }
        let first_msg = match &bundle.content[0] {
            OscPacket::Message(msg) => msg,
            OscPacket::Bundle(inner) => {
                proof {
                    lemma_bundle_packet_view(*inner);
                }
                return Err(OscError::MalformedTag { reason: TagProblem::NotAMessage });
            },
        };
        if !first_msg.addr.as_str().eq("/bundle_info") {
            return Err(
                OscError::MalformedTag {
                    reason: TagProblem::WrongAddress { actual: first_msg.addr.clone() },
                },
            );
        }
        if first_msg.args.len() == 0 {
            return Err(OscError::MalformedTag { reason: TagProblem::NoArgument });
        }
        let bundle_tag = match &first_msg.args[0] {
            OscType::String(tag) => tag.clone(),
            _ => {
                return Err(OscError::MalformedTag { reason: TagProblem::NotAString });
            },
        };
        let contents = clone_packets_from(&bundle.content, 1);
        assert(packet_views(contents@) =~= bundle@.content.skip(1));
        Ok(TaggedBundle { bundle_tag, contents })
    }

    /// A copy of the packet at `content_index`.
    pub fn get_packet(&self, content_index: usize) -> (r: Result<OscPacket, OscError>)
        ensures
            outcome(r) == (match packet_at(self@.contents, content_index) {
                Some(packet) => Ok(packet),
                None => Err(OscErrorView::IndexError { index: content_index }),
            }),
    {
        if content_index < self.contents.len() {
            Ok(self.contents[content_index].clone())
        } else {
            Err(OscError::IndexError { index: content_index })
        }
    }

    /// A copy of the message at `content_index`; fails if nothing is there, or
    /// a bundle.
    pub fn get_message(&self, content_index: usize) -> (r: Result<OscMessage, OscError>)
        ensures
            outcome(r) == (match packet_at(self@.contents, content_index) {
                Some(OscPacketView::Message(message)) => Ok(message),
                Some(OscPacketView::Bundle(_)) => Err(
                    OscErrorView::TypeMismatch {
                        index: content_index,
                        wanted: PacketKind::Message,
                    },
                ),
                None => Err(OscErrorView::IndexError { index: content_index }),
            }),
    {
        if content_index >= self.contents.len() {
            return Err(OscError::IndexError { index: content_index });
        }
        match &self.contents[content_index] {
            OscPacket::Message(msg) => Ok(msg.clone()),
            OscPacket::Bundle(inner) => {
                proof {
                    lemma_bundle_packet_view(*inner);
                }
                Err(OscError::TypeMismatch { index: content_index, wanted: PacketKind::Message })
            },
        }
    }

    /// A copy of the bundle at `content_index`; fails if nothing is there, or
    /// a message.
    pub fn get_bundle(&self, content_index: usize) -> (r: Result<OscBundle, OscError>)
        ensures
            outcome(r) == (match packet_at(self@.contents, content_index) {
                Some(OscPacketView::Bundle(bundle)) => Ok(bundle),
                Some(OscPacketView::Message(_)) => Err(
                    OscErrorView::TypeMismatch {
                        index: content_index,
                        wanted: PacketKind::Bundle,
                    },
                ),
                None => Err(OscErrorView::IndexError { index: content_index }),
            }),
    {
        if content_index >= self.contents.len() {
            return Err(OscError::IndexError { index: content_index });
        }
        match &self.contents[content_index] {
            OscPacket::Bundle(inner) => {
                proof {
                    lemma_bundle_packet_view(*inner);
                }
                Ok(inner.clone())
            },
            OscPacket::Message(_) => Err(
                OscError::TypeMismatch { index: content_index, wanted: PacketKind::Bundle },
            ),
        }
    }
}

impl Clone for TaggedBundle {
    /// A deep copy: the copy has the same value.
    fn clone(&self) -> (r: Self)
        ensures
            r@ == self@,
    {
        TaggedBundle {
            bundle_tag: self.bundle_tag.clone(),
            contents: clone_packets(&self.contents),
        }
    }
}

/// A packet with a relative time: the payload of a bundle tagged `timed_msg`,
/// whose first content is a message addressed `/timed_msg_info` with the time
/// as its first argument, and whose second content is the packet.
///
/// `time` is the bit pattern of the `f32` that the info message carries.
#[derive(Debug, PartialEq)]
pub struct TimedOSCPacket {
    pub time: u32,
    pub packet: OscPacket,
}

/// The mathematical value of a [`TimedOSCPacket`].
pub struct TimedOSCPacketView {
    pub time: u32,
    pub packet: OscPacketView,
}

impl View for TimedOSCPacket {
    type V = TimedOSCPacketView;

    open spec fn view(&self) -> TimedOSCPacketView {
        TimedOSCPacketView { time: self.time, packet: self.packet@ }
    }
}

impl Clone for TimedOSCPacket {
    /// A deep copy: the copy has the same value.
    fn clone(&self) -> (r: Self)
        ensures
            r@ == self@,
    {
        TimedOSCPacket { time: self.time, packet: self.packet.clone() }
    }
}

/// What decoding a tagged bundle as a timed packet gives: the time and the
/// packet, or the first thing that is wrong. The checks come in this order:
/// the tag, the presence and kind of the info message, the presence of the
/// packet, the info message's address, and its time argument.
pub open spec fn timed(bundle: TaggedBundleView) -> Result<TimedOSCPacketView, OscErrorView> {
    if bundle.bundle_tag != "timed_msg"@ {
        Err(OscErrorView::WrongBundleKind { actual: bundle.bundle_tag })
    } else {
        match packet_at(bundle.contents, 0) {
            None => Err(OscErrorView::MissingContent { index: 0 }),
            Some(OscPacketView::Bundle(_)) => Err(
                OscErrorView::TypeMismatch { index: 0, wanted: PacketKind::Message },
            ),
            Some(OscPacketView::Message(info)) => match packet_at(bundle.contents, 1) {
                None => Err(OscErrorView::MissingContent { index: 1 }),
                Some(packet) => match addr_checked(info.addr, "/timed_msg_info"@) {
                    Err(error) => Err(error),
                    Ok(_) => match float_at(info.args, 0, "time"@) {
                        Err(error) => Err(error),
                        Ok(time) => Ok(TimedOSCPacketView { time, packet }),
                    },
                },
            },
        }
    }
}

impl TimedOSCPacket {
    /// Decodes a tagged bundle as a timed packet. The packet is taken as it
    /// is, message or bundle.
    pub fn from_bundle(bundle: TaggedBundle) -> (r: Result<TimedOSCPacket, OscError>)
        ensures
            outcome(r) == timed(bundle@),
    {
        if !bundle.bundle_tag.as_str().eq("timed_msg") {
            return Err(OscError::WrongBundleKind { actual: bundle.bundle_tag });
        }
        let info_msg = match bundle.get_message(0) {
            Ok(msg) => msg,
            Err(OscError::IndexError { index }) => {
                return Err(OscError::MissingContent { index });
            },
            Err(other) => {
                return Err(other);
            },
        };
        let packet = match bundle.get_packet(1) {
            Ok(packet) => packet,
            Err(_) => {
                return Err(OscError::MissingContent { index: 1 });
            },
        };
        info_msg.expect_addr("/timed_msg_info")?;
        let time = info_msg.get_float_at(0, "time")?;
        Ok(TimedOSCPacket { time, packet })
    }
}

} // verus!
