//! The dispatch stack: handlers by message address and by bundle tag, the set
//! of funneled tags, and the routing of a decoded packet to them.
//!
//! ```text
//! let mut stack = OSCStack::init(url);
//! stack.on_message("/s_new", on_new);
//! stack.on_tbundle("queue_notes", on_queue);
//! stack.funnel_tbundle("batch");
//! let done = stack.interpret(packet);
//! ```

use vstd::hash_map::StringHashMap;
use vstd::hash_set::StringHashSet;
use vstd::prelude::*;
use crate::error::{OscError, OscErrorView};
use crate::model::{TaggedBundle, TaggedBundleView, has_tag_header, lemma_tagged_iff_header, tagged};
use crate::packet::{
    OscBundleView, OscMessage, OscMessageView, OscPacket, OscPacketView, lemma_bundle_packet_view,
    packet_views,
};

verus! {

/// One step that interpreting a packet took.
#[derive(Debug, PartialEq)]
pub enum Dispatch {
    /// The handler registered for the message's address was called with the
    /// message.
    Message(OscMessage),
    /// The handler registered for the bundle's tag was called with the
    /// tagged bundle.
    TaggedBundle(TaggedBundle),
    /// A bundle was dropped because it does not decode as a tagged bundle.
    Dropped(OscError),
}

/// The mathematical value of a [`Dispatch`].
pub enum DispatchView {
    Message(OscMessageView),
    TaggedBundle(TaggedBundleView),
    Dropped(OscErrorView),
}

impl View for Dispatch {
    type V = DispatchView;

    open spec fn view(&self) -> DispatchView {
        match *self {
            Dispatch::Message(message) => DispatchView::Message(message@),
            Dispatch::TaggedBundle(bundle) => DispatchView::TaggedBundle(bundle@),
            Dispatch::Dropped(error) => DispatchView::Dropped(error@),
        }
    }
}

/// The values of a record of steps, item by item.
pub open spec fn dispatch_views(steps: Seq<Dispatch>) -> Seq<DispatchView> {
    Seq::new(steps.len(), |i: int| steps[i]@)
}

/// What routing depends on: the addresses and the tags that have a handler,
/// and the funneled tags.
pub struct Routes {
    pub messages: Set<Seq<char>>,
    pub tbundles: Set<Seq<char>>,
    pub funnels: Set<Seq<char>>,
}

/// The steps that interpreting `packet` takes, in order.
///
/// A message goes to the handler of its address, if there is one. A bundle
/// that does not decode as a tagged bundle is dropped. The contents of a
/// tagged bundle with a funneled tag are interpreted one by one, in order,
/// whether the tag has a handler or not. Any other tagged bundle goes to the
/// handler of its tag, if there is one.
pub open spec fn dispatches(routes: Routes, packet: OscPacketView) -> Seq<DispatchView>
    decreases packet, 0nat,
{
    match packet {
        OscPacketView::Message(message) => if routes.messages.contains(message.addr) {
            seq![DispatchView::Message(message)]
        } else {
            Seq::empty()
        },
        OscPacketView::Bundle(bundle) => match tagged(bundle) {
            Err(error) => seq![DispatchView::Dropped(error)],
            Ok(tbundle) => if routes.funnels.contains(tbundle.bundle_tag) {
                dispatches_from(routes, bundle.content, 1)
            } else if routes.tbundles.contains(tbundle.bundle_tag) {
                seq![DispatchView::TaggedBundle(tbundle)]
            } else {
                Seq::empty()
            },
        },
    }
}

/// The steps that interpreting the packets from position `from` on takes, one
/// packet after the other.
pub open spec fn dispatches_from(routes: Routes, packets: Seq<OscPacketView>, from: int) -> Seq<
    DispatchView,
>
    decreases packets, packets.len() - from,
{
    if 0 <= from < packets.len() {
        dispatches(routes, packets[from]) + dispatches_from(routes, packets, from + 1)
    } else {
        Seq::empty()
    }
}

/// A step that calls a handler calls a registered one, and never the handler
/// of a funneled tag.
pub open spec fn step_allowed(routes: Routes, step: DispatchView) -> bool {
    match step {
        DispatchView::Message(message) => routes.messages.contains(message.addr),
        DispatchView::TaggedBundle(bundle) => {
            &&& routes.tbundles.contains(bundle.bundle_tag)
            &&& !routes.funnels.contains(bundle.bundle_tag)
        },
        DispatchView::Dropped(_) => true,
    }
}

/// A message takes one step, the call of the handler of its address with
/// the message itself, if the address has a handler; otherwise it takes none.
pub proof fn lemma_message_routed(routes: Routes, message: OscMessageView)
    ensures
        dispatches(routes, OscPacketView::Message(message)) == if routes.messages.contains(
            message.addr,
        ) {
            seq![DispatchView::Message(message)]
        } else {
            Seq::<DispatchView>::empty()
        },
{
}

/// A bundle that does not start with a message addressed `/bundle_info` with
/// a string as its first argument does not decode, and no handler is called
/// for it: the one step taken is to drop it.
pub proof fn lemma_untagged_bundle_dropped(routes: Routes, bundle: OscBundleView)
    requires
        !has_tag_header(bundle),
    ensures
        tagged(bundle) matches Err(error) && dispatches(routes, OscPacketView::Bundle(bundle))
            == seq![DispatchView::Dropped(error)],
{
    lemma_tagged_iff_header(bundle);
}

/// The steps for a sequence of packets from `from` on are the steps for each
/// packet, one after the other.
pub proof fn lemma_dispatches_from_flat(routes: Routes, packets: Seq<OscPacketView>, from: int)
    requires
        0 <= from <= packets.len(),
    ensures
        dispatches_from(routes, packets, from) == packets.skip(from).flat_map(
            |packet: OscPacketView| dispatches(routes, packet),
        ),
    decreases packets.len() - from,
{
    let each = |packet: OscPacketView| dispatches(routes, packet);
    let rest = packets.skip(from).map_values(each);
    if from < packets.len() {
        lemma_dispatches_from_flat(routes, packets, from + 1);
        assert(rest.drop_first() =~= packets.skip(from + 1).map_values(each));
    }
}

/// A tagged bundle whose tag is not funneled takes one step, the call of the
/// handler of its tag with the tagged bundle, if the tag has a handler;
/// otherwise it takes none. Its contents are not interpreted.
pub proof fn lemma_tagged_bundle_routed(routes: Routes, bundle: OscBundleView)
    requires
        tagged(bundle) matches Ok(tbundle) && !routes.funnels.contains(tbundle.bundle_tag),
    ensures
        dispatches(routes, OscPacketView::Bundle(bundle)) == if routes.tbundles.contains(
            tagged(bundle)->Ok_0.bundle_tag,
        ) {
            seq![DispatchView::TaggedBundle(tagged(bundle)->Ok_0)]
        } else {
            Seq::<DispatchView>::empty()
        },
{
}

/// Every step of `steps` is allowed.
pub open spec fn steps_allowed(routes: Routes, steps: Seq<DispatchView>) -> bool {
    forall|i: int| 0 <= i < steps.len() ==> step_allowed(routes, #[trigger] steps[i])
}

/// However deep the packet nests, every handler called is a registered one,
/// and the handler of a funneled tag is never called.
pub proof fn lemma_steps_allowed(routes: Routes, packet: OscPacketView)
    ensures
        steps_allowed(routes, dispatches(routes, packet)),
    decreases packet, 0nat,
{
    if let OscPacketView::Bundle(bundle) = packet {
        if tagged(bundle) matches Ok(tbundle) && routes.funnels.contains(tbundle.bundle_tag) {
            lemma_steps_allowed_from(routes, bundle.content, 1);
        }
    }
}

/// The same for a sequence of packets, from position `from` on.
pub proof fn lemma_steps_allowed_from(routes: Routes, packets: Seq<OscPacketView>, from: int)
    ensures
        steps_allowed(routes, dispatches_from(routes, packets, from)),
    decreases packets, packets.len() - from,
{
    if 0 <= from < packets.len() {
        let head = dispatches(routes, packets[from]);
        let tail = dispatches_from(routes, packets, from + 1);
        lemma_steps_allowed(routes, packets[from]);
        lemma_steps_allowed_from(routes, packets, from + 1);
        assert forall|i: int| 0 <= i < (head + tail).len() implies step_allowed(
            routes,
            #[trigger] (head + tail)[i],
        ) by {
            if i < head.len() {
                assert((head + tail)[i] == head[i]);
            } else {
                assert((head + tail)[i] == tail[i - head.len()]);
            }
        }
    }
}

/// `step` is a call of the handler for tagged bundles with the tag `tag`.
pub open spec fn calls_tbundle_handler(step: DispatchView, tag: Seq<char>) -> bool {
    step matches DispatchView::TaggedBundle(bundle) && bundle.bundle_tag == tag
}

/// A tagged bundle with a funneled tag takes the steps of its contents, each
/// packet interpreted by itself and in order, whether the tag has a handler
/// or not. No step calls the handler of the tag.
pub proof fn lemma_funneled_bundle_flattened(routes: Routes, bundle: OscBundleView)
    requires
        tagged(bundle) matches Ok(tbundle) && routes.funnels.contains(tbundle.bundle_tag),
    ensures
        ({
            let tbundle = tagged(bundle)->Ok_0;
            let steps = dispatches(routes, OscPacketView::Bundle(bundle));
            &&& steps == tbundle.contents.flat_map(
                |packet: OscPacketView| dispatches(routes, packet),
            )
            &&& forall|i: int|
                0 <= i < steps.len() ==> !calls_tbundle_handler(
                    #[trigger] steps[i],
                    tbundle.bundle_tag,
                )
        }),
{
    lemma_dispatches_from_flat(routes, bundle.content, 1);
    lemma_steps_allowed(routes, OscPacketView::Bundle(bundle));
}

/// Handlers for messages and for tagged bundles, the set of funneled tags and
/// the address to listen on.
///
/// `M` is the type of the message handlers, `B` that of the tagged-bundle
/// handlers. A handler accepts every value of its argument type.
#[verifier::reject_recursive_types(M)]
#[verifier::reject_recursive_types(B)]
pub struct OSCStack<M, B> {
    message_operations: StringHashMap<M>,
    tbundle_operations: StringHashMap<B>,
    tbundle_funnels: StringHashSet,
    host_url: String,
}

impl<M: Fn(OscMessage), B: Fn(TaggedBundle)> OSCStack<M, B> {
    /// The stack is well formed: every registered handler can be called with
    /// any argument.
    pub closed spec fn wf(&self) -> bool {
        &&& forall|key: Seq<char>, message: OscMessage|
            self.message_operations@.contains_key(key) ==> #[trigger] call_requires(
                self.message_operations@[key],
                (message,),
            )
        &&& forall|key: Seq<char>, bundle: TaggedBundle|
            self.tbundle_operations@.contains_key(key) ==> #[trigger] call_requires(
                self.tbundle_operations@[key],
                (bundle,),
            )
    }

    /// The message handlers, by address.
    pub closed spec fn message_operations(&self) -> Map<Seq<char>, M> {
        self.message_operations@
    }

    /// The tagged-bundle handlers, by tag.
    pub closed spec fn tbundle_operations(&self) -> Map<Seq<char>, B> {
        self.tbundle_operations@
    }

    /// The funneled tags.
    pub closed spec fn tbundle_funnels(&self) -> Set<Seq<char>> {
        self.tbundle_funnels@
    }

    /// The address to listen on, as given to [`init`](OSCStack::init).
    pub closed spec fn url(&self) -> Seq<char> {
        self.host_url@
    }

    /// What routing depends on.
    pub open spec fn routes(&self) -> Routes {
        Routes {
            messages: self.message_operations().dom(),
            tbundles: self.tbundle_operations().dom(),
            funnels: self.tbundle_funnels(),
        }
    }

    /// A stack with no handler and no funneled tag.
    pub fn init(host_url: String) -> (stack: Self)
        ensures
            stack.wf(),
            stack.message_operations() == Map::<Seq<char>, M>::empty(),
            stack.tbundle_operations() == Map::<Seq<char>, B>::empty(),
            stack.tbundle_funnels() == Set::<Seq<char>>::empty(),
            stack.url() == host_url@,
    {
        OSCStack {
            message_operations: StringHashMap::new(),
            tbundle_operations: StringHashMap::new(),
            tbundle_funnels: StringHashSet::new(),
            host_url,
        }
    }

    /// Registers the handler for messages addressed `tag`, in place of any
    /// earlier one for that address.
    pub fn on_message(&mut self, tag: &str, operations: M) -> (stack: &mut Self)
        requires
            old(self).wf(),
            forall|message: OscMessage| call_requires(operations, (message,)),
        ensures
            stack.wf(),
            stack.message_operations() == old(self).message_operations().insert(tag@, operations),
            stack.tbundle_operations() == old(self).tbundle_operations(),
            stack.tbundle_funnels() == old(self).tbundle_funnels(),
            stack.url() == old(self).url(),
            *final(self) == *final(stack),
    {
        self.message_operations.insert(tag.to_owned(), operations);
        self
    }

    /// Registers the handler for tagged bundles with the tag `tag`, in place
    /// of any earlier one for that tag. While the tag is funneled, the
    /// handler is never called.
    pub fn on_tbundle(&mut self, tag: &str, operations: B) -> (stack: &mut Self)
        requires
            old(self).wf(),
            forall|bundle: TaggedBundle| call_requires(operations, (bundle,)),
        ensures
            stack.wf(),
            stack.message_operations() == old(self).message_operations(),
            stack.tbundle_operations() == old(self).tbundle_operations().insert(tag@, operations),
            stack.tbundle_funnels() == old(self).tbundle_funnels(),
            stack.url() == old(self).url(),
            *final(self) == *final(stack),
    {
        self.tbundle_operations.insert(tag.to_owned(), operations);
        self
    }

    /// Marks `tag` as funneled: the contents of a bundle with this tag are
    /// interpreted one by one, and a handler for the tag is passed over.
    pub fn funnel_tbundle(&mut self, tag: &str) -> (stack: &mut Self)
        requires
            old(self).wf(),
        ensures
            stack.wf(),
            stack.message_operations() == old(self).message_operations(),
            stack.tbundle_operations() == old(self).tbundle_operations(),
            stack.tbundle_funnels() == old(self).tbundle_funnels().insert(tag@),
            stack.url() == old(self).url(),
            *final(self) == *final(stack),
    {
        self.tbundle_funnels.insert(tag.to_owned());
        self
    }

    /// The address to listen on.
    pub fn host_url(&self) -> (url: &str)
        ensures
            url@ == self.url(),
    {
        self.host_url.as_str()
    }

    /// The handler that `step` names was called with the value that `step`
    /// holds, and returned.
    pub open spec fn performed(&self, step: DispatchView) -> bool {
        match step {
            DispatchView::Message(message) => {
                &&& self.message_operations().contains_key(message.addr)
                &&& exists|argument: OscMessage|
                    argument@ == message && #[trigger] call_ensures(
                        self.message_operations()[message.addr],
                        (argument,),
                        (),
                    )
            },
            DispatchView::TaggedBundle(bundle) => {
                &&& self.tbundle_operations().contains_key(bundle.bundle_tag)
                &&& exists|argument: TaggedBundle|
                    argument@ == bundle && #[trigger] call_ensures(
                        self.tbundle_operations()[bundle.bundle_tag],
                        (argument,),
                        (),
                    )
            },
            DispatchView::Dropped(_) => true,
        }
    }

    /// Routes `packet` to the registered handlers and returns the record of
    /// the steps taken, in the order in which they were taken.
    ///
    /// Handlers run on the calling thread, one after the other. Funneled
    /// bundles are followed as deep as they nest.
    pub fn interpret(&self, packet: OscPacket) -> (done: Vec<Dispatch>)
        requires
            self.wf(),
        ensures
            dispatch_views(done@) == dispatches(self.routes(), packet@),
            forall|i: int| 0 <= i < done.len() ==> self.performed(#[trigger] done[i]@),
        decreases packet@,
    {
        let ghost whole = packet@;
        let mut done: Vec<Dispatch> = Vec::new();
        match packet {
            OscPacket::Message(osc_msg) => {
                match self.message_operations.get(osc_msg.addr.as_str()) {
                    Some(op) => {
                        let record = osc_msg.clone();
                        op(osc_msg);
                        done.push(Dispatch::Message(record));
                    },
                    None => {},
                }
            },
            OscPacket::Bundle(osc_bundle) => {
                proof {
                    lemma_bundle_packet_view(osc_bundle);
                }
                match TaggedBundle::new(&osc_bundle) {
                    Ok(tagged_bundle) => {
                        if self.tbundle_funnels.contains(tagged_bundle.bundle_tag.as_str()) {
                            let ghost all = osc_bundle@.content;
                            let contents = tagged_bundle.contents;
                            assert(packet_views(contents@).len() == all.len() - 1);
                            for inner in it: contents.into_iter()
                                invariant
                                    self.wf(),
                                    whole == packet@,
                                    whole == OscPacketView::Bundle(osc_bundle@),
                                    all == osc_bundle@.content,
                                    all.len() == it.seq().len() + 1,
                                    packet_views(it.seq()) == all.skip(1),
                                    dispatch_views(done@) + dispatches_from(
                                        self.routes(),
                                        all,
                                        1 + it.index(),
                                    ) == dispatches_from(self.routes(), all, 1),
                                    forall|i: int|
                                        0 <= i < done.len() ==> self.performed(#[trigger] done[i]@),
                            {
                                let ghost at = 1 + it.index();
                                let ghost before = dispatch_views(done@);
                                proof {
                                    assert(inner@ == packet_views(it.seq())[it.index()]);
                                    assert(decreases_to!(whole->Bundle_0.content => all[at]));
                                }
                                let mut steps = self.interpret(inner);
                                let ghost taken = dispatch_views(steps@);
                                done.append(&mut steps);
                                proof {
                                    let rest = dispatches_from(self.routes(), all, at + 1);
                                    assert(dispatch_views(done@) =~= before + taken);
                                    assert((before + taken) + rest =~= before + (taken + rest));
                                }
                            }
                        } else {
                            match self.tbundle_operations.get(tagged_bundle.bundle_tag.as_str()) {
                                Some(op) => {
                                    let record = tagged_bundle.clone();
                                    op(tagged_bundle);
                                    done.push(Dispatch::TaggedBundle(record));
                                },
                                None => {},
                            }
                        }
                    },
                    Err(error) => {
                        done.push(Dispatch::Dropped(error));
                    },
                }
            },
        }
        done
    }
}

} // verus!
