//! Conversations with the system: one call at a time, and what a whole
//! conversation does to COM references.

use crate::abi::{
    CommandQueueDesc, CREATE_COMMAND_QUEUE_SLOT, CREATE_SWAP_CHAIN_SLOT, ENUM_WARP_ADAPTER_SLOT,
    GET_PARENT_SLOT, QUERY_INTERFACE_SLOT,
};
use crate::com::Effect;
use crate::entry_points::EntryPoint;
use crate::forward::ForwardedCall;
use crate::loader::{Library, ProcQuery};
use vstd::multiset::Multiset;
use vstd::prelude::*;

#[allow(unused_imports)]
use crate::com::{
    handed_over, lemma_effects_split, reference, references, released,
};
#[allow(unused_imports)]
use crate::hresult::succeeded;

verus! {

/// Where `D3D11On12CreateDevice` stores the device and the immediate context.
#[derive(Clone, Copy, Debug, PartialEq, Eq, Structural)]
pub enum Outputs {
    /// Straight into the caller's variables; null where the caller wants none.
    Caller { device: usize, context: usize },
    /// Into variables of the proxy's own, from which the answer reports them.
    Local,
}

/// The variable of the proxy's own that `Effect::Copy` filled from `address`. The call
/// is passed this variable, so it sees what stood there when the copy was made, and
/// never writes to that address.
#[derive(Clone, Copy, Debug, PartialEq, Eq, Structural)]
pub struct CopyOf {
    pub address: usize,
}

/// An outside call that a protocol asks for, or its end.
#[derive(Clone, Copy, Debug, PartialEq, Eq, Structural)]
pub enum Call {
    /// The cached address of an entry point.
    EntryPoint(EntryPoint),
    /// `LoadLibraryW`.
    LoadLibrary(Library),
    /// `GetProcAddress`.
    GetProcAddress(ProcQuery),
    /// `CreateDXGIFactory2`, found at `proc`.
    CreateFactory { proc: usize, flags: u32, iid: u128 },
    /// `IDXGIFactory4::EnumWarpAdapter`.
    EnumWarpAdapter { this: usize, iid: u128 },
    /// `D3D12CreateDevice`, found at `proc`.
    CreateDevice { proc: usize, adapter: usize, minimum_feature_level: i32, iid: u128 },
    /// `ID3D12Device::CreateCommandQueue`.
    CreateCommandQueue { this: usize, queue_desc: CommandQueueDesc, iid: u128 },
    /// `D3D11On12CreateDevice`, found at `proc`, with the one queue `queue`.
    CreateOn12 {
        proc: usize,
        device: usize,
        flags: u32,
        p_feature_levels: usize,
        feature_levels: u32,
        queue: usize,
        num_queues: u32,
        node_mask: u32,
        outputs: Outputs,
        p_chosen_feature_level: usize,
    },
    /// `IUnknown::QueryInterface`.
    QueryInterface { this: usize, iid: u128 },
    /// `IDXGIObject::GetParent`.
    GetParent { this: usize, iid: u128 },
    /// `IDXGIFactory::CreateSwapChain`.
    CreateSwapChain { this: usize, device: usize, desc: CopyOf, pp_swap_chain: usize },
    /// The export of the system's `d3d11.dll` that was found at `proc`.
    Forwarded { proc: usize, args: ForwardedCall },
    /// Nothing is left to ask: this status goes to the caller.
    Return(i32),
}

/// What an outside call answered.
#[derive(Clone, Copy, Debug, PartialEq, Eq, Structural)]
pub enum Reply {
    /// The address of an entry point, if there is one.
    Proc(Option<usize>),
    /// Where a library was loaded; null where it could not be.
    Module(usize),
    /// A status, and what the call left in the variable for its object.
    Object { hr: i32, object: usize },
    /// A status, and what the call left in the variables for the device and the
    /// context; null both where the call stored into the caller's variables.
    DeviceAndContext { hr: i32, device: usize, context: usize },
    /// A status alone.
    Status { hr: i32 },
}

impl Call {
    /// The COM object whose method is called, if it is a method.
    pub open spec fn receiver(self) -> Option<usize> {
        match self {
            Call::EnumWarpAdapter { this, .. } => Some(this),
            Call::CreateCommandQueue { this, .. } => Some(this),
            Call::QueryInterface { this, .. } => Some(this),
            Call::GetParent { this, .. } => Some(this),
            Call::CreateSwapChain { this, .. } => Some(this),
            _ => None,
        }
    }

    /// The COM objects that are passed as arguments.
    pub open spec fn arguments(self) -> Set<usize> {
        match self {
            Call::CreateDevice { adapter, .. } => set![adapter],
            Call::CreateOn12 { device, queue, .. } => set![device, queue],
            Call::CreateSwapChain { device, .. } => set![device],
            _ => Set::empty(),
        }
    }

    /// The position in the receiver's function table of the method that is called.
    pub open spec fn slot(self) -> Option<usize> {
        match self {
            Call::EnumWarpAdapter { .. } => Some(ENUM_WARP_ADAPTER_SLOT),
            Call::CreateCommandQueue { .. } => Some(CREATE_COMMAND_QUEUE_SLOT),
            Call::QueryInterface { .. } => Some(QUERY_INTERFACE_SLOT),
            Call::GetParent { .. } => Some(GET_PARENT_SLOT),
            Call::CreateSwapChain { .. } => Some(CREATE_SWAP_CHAIN_SLOT),
            _ => None,
        }
    }

    /// The references that come with the answer `reply` to this call.
    ///
    /// A failed call gives none, but for the enumeration of the WARP adapter:
    /// there the adapter counts whatever the status says. What is stored straight
    /// into the caller's variables is the caller's.
    pub open spec fn gains(self, reply: Reply) -> Multiset<usize> {
        match (self, reply) {
            (Call::EnumWarpAdapter { .. }, Reply::Object { object, .. }) => reference(object),
            (Call::CreateFactory { .. }, Reply::Object { hr, object }) => if_ok(hr, object),
            (Call::CreateDevice { .. }, Reply::Object { hr, object }) => if_ok(hr, object),
            (Call::CreateCommandQueue { .. }, Reply::Object { hr, object }) => if_ok(hr, object),
            (Call::QueryInterface { .. }, Reply::Object { hr, object }) => if_ok(hr, object),
            (Call::GetParent { .. }, Reply::Object { hr, object }) => if_ok(hr, object),
            (
                Call::CreateOn12 { outputs: Outputs::Local, .. },
                Reply::DeviceAndContext { hr, device, context },
            ) => if_ok(hr, device).add(if_ok(hr, context)),
            _ => Multiset::empty(),
        }
    }

    /// Where the method to call stands in the receiver's function table; `None`
    /// for what is no method.
    pub fn vtable_slot(&self) -> (slot: Option<usize>)
        ensures
            slot == self.slot(),
            slot is Some <==> self.receiver() is Some,
    {
        match self {
            Call::EnumWarpAdapter { .. } => Some(ENUM_WARP_ADAPTER_SLOT),
            Call::CreateCommandQueue { .. } => Some(CREATE_COMMAND_QUEUE_SLOT),
            Call::QueryInterface { .. } => Some(QUERY_INTERFACE_SLOT),
            Call::GetParent { .. } => Some(GET_PARENT_SLOT),
            Call::CreateSwapChain { .. } => Some(CREATE_SWAP_CHAIN_SLOT),
            _ => None,
        }
    }
}

/// The reference that comes with `object` where the call succeeded.
pub open spec fn if_ok(hr: i32, object: usize) -> Multiset<usize> {
    if succeeded(hr) {
        reference(object)
    } else {
        Multiset::empty()
    }
}

/// A conversation: it asks for a call, takes the answer, and so on until it
/// returns.
pub trait Protocol: Sized {
    /// What holds of every conversation that was properly begun.
    spec fn inv(self) -> bool;

    /// The call that is asked for now.
    spec fn pending(self) -> Call;

    /// Whether `reply` can be the answer to the pending call: it has the shape of
    /// one, and where the conversation goes on by calling a method of an object,
    /// there is such an object.
    spec fn accepts(self, reply: Reply) -> bool;

    /// The conversation once `reply` was taken.
    spec fn advance(self, reply: Reply) -> Self;

    /// What is to be done when `reply` is taken, before the next call.
    spec fn effects(self, reply: Reply) -> Seq<Effect>;

    /// The references held now, the oldest first; null where a holder has none.
    spec fn held(self) -> Seq<usize>;

    /// The COM objects that the caller lends for the time of the conversation.
    spec fn lent(self) -> Set<usize>;

    /// A bound on how many calls are still to come.
    spec fn rank(self) -> nat;

    /// The call to make now.
    fn call(&self) -> (call: Call)
        requires
            self.inv(),
        ensures
            call == self.pending(),
    ;

    /// Tells whether `reply` can be taken.
    fn can_take(&self, reply: &Reply) -> (ok: bool)
        requires
            self.inv(),
        ensures
            ok == self.accepts(*reply),
    ;

    /// Takes the answer to the pending call; returns the conversation as it stands
    /// then and what has to be done before it goes on.
    fn step(self, reply: Reply) -> (next: (Self, Vec<Effect>))
        requires
            self.inv(),
            self.accepts(reply),
        ensures
            next.0 == self.advance(reply),
            next.1@ == self.effects(reply),
            next.0.inv(),
    ;

    /// One step keeps what holds of every conversation, comes closer to the end,
    /// and neither loses nor invents a reference.
    proof fn lemma_step(self, reply: Reply)
        requires
            self.inv(),
            self.accepts(reply),
        ensures
            self.advance(reply).inv(),
            self.advance(reply).lent() == self.lent(),
            self.advance(reply).rank() < self.rank(),
            !(self.pending() is Return),
            references(self.held()).add(self.pending().gains(reply)) == references(
                self.advance(reply).held(),
            ).add(released(self.effects(reply))).add(handed_over(self.effects(reply))),
    ;

    /// The pending call is a method of an object that is held, is passed only
    /// objects that are held, lent by the caller, or null, and has an answer that
    /// can be taken unless it is the end.
    proof fn lemma_pending(self)
        requires
            self.inv(),
        ensures
            self.pending() is Return || exists|reply: Reply| self.accepts(reply),
            self.pending().receiver() matches Some(this) ==> this != 0 && self.held().contains(
                this,
            ),
            forall|object: usize| #[trigger]
                self.pending().arguments().contains(object) ==> object == 0
                    || self.held().contains(object) || self.lent().contains(object),
    ;
}

/// The conversation `start` after it was given `replies`, one after the other.
pub open spec fn after<P: Protocol>(start: P, replies: Seq<Reply>) -> P
    decreases replies.len(),
{
    if replies.len() == 0 {
        start
    } else {
        after(start, replies.drop_last()).advance(replies.last())
    }
}

/// Whether each of `replies` can be the answer to the call that is pending when
/// its turn comes.
pub open spec fn accepted<P: Protocol>(start: P, replies: Seq<Reply>) -> bool
    decreases replies.len(),
{
    replies.len() > 0 ==> accepted(start, replies.drop_last()) && after(
        start,
        replies.drop_last(),
    ).accepts(replies.last())
}

/// The calls that are made until `replies` have been given, in their order.
pub open spec fn calls_made<P: Protocol>(start: P, replies: Seq<Reply>) -> Seq<Call>
    decreases replies.len(),
{
    if replies.len() == 0 {
        Seq::empty()
    } else {
        calls_made(start, replies.drop_last()).push(after(start, replies.drop_last()).pending())
    }
}

/// All that is done while `replies` are given, in its order.
pub open spec fn effects_of<P: Protocol>(start: P, replies: Seq<Reply>) -> Seq<Effect>
    decreases replies.len(),
{
    if replies.len() == 0 {
        Seq::empty()
    } else {
        effects_of(start, replies.drop_last()) + after(start, replies.drop_last()).effects(
            replies.last(),
        )
    }
}

/// All references that come with `replies`.
pub open spec fn gained<P: Protocol>(start: P, replies: Seq<Reply>) -> Multiset<usize>
    decreases replies.len(),
{
    if replies.len() == 0 {
        Multiset::empty()
    } else {
        gained(start, replies.drop_last()).add(
            after(start, replies.drop_last()).pending().gains(replies.last()),
        )
    }
}

/// The beginning of a conversation is a conversation: each call was the pending one
/// when its turn came, and each answer was given to it.
pub proof fn lemma_beginning<P: Protocol>(start: P, replies: Seq<Reply>, n: int)
    requires
        accepted(start, replies),
        0 <= n <= replies.len(),
    ensures
        calls_made(start, replies).len() == replies.len(),
        accepted(start, replies.take(n)),
        n < replies.len() ==> {
            &&& calls_made(start, replies)[n] == after(start, replies.take(n)).pending()
            &&& after(start, replies.take(n)).accepts(replies[n])
            &&& after(start, replies.take(n + 1)) == after(start, replies.take(n)).advance(
                replies[n],
            )
        },
    decreases replies.len(),
{
    if n == replies.len() {
        assert(replies.take(n) =~= replies);
        if n > 0 {
            lemma_beginning(start, replies.drop_last(), n - 1);
        }
    } else {
        let before = replies.drop_last();
        lemma_beginning(start, before, n);
        assert(replies.take(n) =~= before.take(n));
        assert(replies.take(n + 1).drop_last() =~= replies.take(n));
        if n == before.len() {
            assert(replies.take(n) =~= before);
        }
    }
}

/// At every moment of a conversation each reference that was held at its start or
/// came with an answer is still held, has been released, or has been handed to
/// the caller, and exactly one of the three.
pub proof fn law_references_balance<P: Protocol>(start: P, replies: Seq<Reply>)
    requires
        start.inv(),
        accepted(start, replies),
    ensures
        after(start, replies).inv(),
        after(start, replies).lent() == start.lent(),
        references(start.held()).add(gained(start, replies)) == references(
            after(start, replies).held(),
        ).add(released(effects_of(start, replies))).add(handed_over(effects_of(start, replies))),
    decreases replies.len(),
{
    if replies.len() == 0 {
        assert(references(start.held()).add(gained(start, replies)) =~= references(
            after(start, replies).held(),
        ).add(released(effects_of(start, replies))).add(handed_over(effects_of(start, replies))));
    } else {
        let before = replies.drop_last();
        let reply = replies.last();
        let mid = after(start, before);
        law_references_balance(start, before);
        mid.lemma_step(reply);
        lemma_effects_split(effects_of(start, before), mid.effects(reply));
        let left = references(start.held()).add(gained(start, replies));
        let right = references(after(start, replies).held()).add(
            released(effects_of(start, replies)),
        ).add(handed_over(effects_of(start, replies)));
        assert forall|p: usize| left.count(p) == right.count(p) by {
            let balance_before = references(start.held()).add(gained(start, before));
            assert(balance_before.count(p) == references(mid.held()).add(
                released(effects_of(start, before)),
            ).add(handed_over(effects_of(start, before))).count(p));
            assert(references(mid.held()).add(mid.pending().gains(reply)).count(p)
                == references(mid.advance(reply).held()).add(released(mid.effects(reply))).add(
                handed_over(mid.effects(reply)),
            ).count(p));
        }
        assert(left =~= right);
    }
}

/// A conversation that starts with no reference and ends with none has leaked
/// none: each that it ever had was either released or handed to the caller, once.
pub proof fn law_no_leak<P: Protocol>(start: P, replies: Seq<Reply>)
    requires
        start.inv(),
        accepted(start, replies),
        references(start.held()) == Multiset::<usize>::empty(),
        references(after(start, replies).held()) == Multiset::<usize>::empty(),
    ensures
        gained(start, replies) == released(effects_of(start, replies)).add(
            handed_over(effects_of(start, replies)),
        ),
{
    law_references_balance(start, replies);
    let done = effects_of(start, replies);
    assert(references(start.held()).add(gained(start, replies)) =~= gained(start, replies));
    assert(references(after(start, replies).held()).add(released(done)).add(handed_over(done))
        =~= released(done).add(handed_over(done)));
}

/// No object is ever released more often than references to it were gained, so
/// nothing is released twice and nothing that was only lent is released.
pub proof fn law_no_excess_release<P: Protocol>(start: P, replies: Seq<Reply>, object: usize)
    requires
        start.inv(),
        accepted(start, replies),
        references(start.held()) == Multiset::<usize>::empty(),
    ensures
        released(effects_of(start, replies)).count(object) + handed_over(
            effects_of(start, replies),
        ).count(object) <= gained(start, replies).count(object),
{
    law_references_balance(start, replies);
    let done = effects_of(start, replies);
    assert(references(start.held()).add(gained(start, replies)).count(object) == gained(
        start,
        replies,
    ).count(object));
    assert(references(after(start, replies).held()).add(released(done)).add(
        handed_over(done),
    ).count(object) >= released(done).count(object) + handed_over(done).count(object));
}

/// Whenever a method is called, its object is there and a reference to it is held;
/// whatever object is passed to a call is held, lent by the caller, or null. So no
/// object is used after its release.
pub proof fn law_calls_use_live_objects<P: Protocol>(start: P, replies: Seq<Reply>)
    requires
        start.inv(),
        accepted(start, replies),
    ensures
        ({
            let now = after(start, replies);
            &&& now.pending().receiver() matches Some(this) ==> this != 0 && now.held().contains(
                this,
            )
            &&& forall|object: usize| #[trigger]
                now.pending().arguments().contains(object) ==> object == 0 || now.held().contains(
                    object,
                ) || start.lent().contains(object)
        }),
{
    law_references_balance(start, replies);
    after(start, replies).lemma_pending();
}

/// A conversation never gets stuck: as long as it has not returned, there is an
/// answer with which it goes on, and once it has returned there is none.
pub proof fn law_never_stuck<P: Protocol>(start: P, replies: Seq<Reply>)
    requires
        start.inv(),
        accepted(start, replies),
    ensures
        !(after(start, replies).pending() is Return) <==> exists|reply: Reply|
            after(start, replies).accepts(reply),
{
    law_references_balance(start, replies);
    let now = after(start, replies);
    now.lemma_pending();
    if exists|reply: Reply| now.accepts(reply) {
        let reply = choose|reply: Reply| now.accepts(reply);
        now.lemma_step(reply);
    }
}

/// A conversation comes to its end: it takes no more answers than its rank at the
/// start.
pub proof fn law_bounded<P: Protocol>(start: P, replies: Seq<Reply>)
    requires
        start.inv(),
        accepted(start, replies),
    ensures
        after(start, replies).rank() + replies.len() <= start.rank(),
    decreases replies.len(),
{
    if replies.len() > 0 {
        let before = replies.drop_last();
        law_bounded(start, before);
        law_references_balance(start, before);
        after(start, before).lemma_step(replies.last());
    }
}

/// A method is called at its own place in the function table, whatever the object and
/// the arguments are, and what is no method has none.
pub proof fn law_methods_are_called_at_their_places(call: Call)
    ensures
        call is QueryInterface ==> call.slot() == Some(0usize),
        call is GetParent ==> call.slot() == Some(6usize),
        call is CreateCommandQueue ==> call.slot() == Some(8usize),
        call is CreateSwapChain ==> call.slot() == Some(10usize),
        call is EnumWarpAdapter ==> call.slot() == Some(27usize),
        call.slot() is None <==> !(call is QueryInterface || call is GetParent
            || call is CreateCommandQueue || call is CreateSwapChain || call is EnumWarpAdapter),
{
}

} // verus!
