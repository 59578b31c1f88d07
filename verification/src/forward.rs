//! Exports that go to the system's `d3d11.dll` as they are.

use crate::com::Effect;
use crate::entry_points::EntryPoint;
use crate::protocol::{Call, Protocol, Reply};
use vstd::prelude::*;

#[allow(unused_imports)]
use crate::com::{handed_over, references, released};
#[allow(unused_imports)]
use crate::entry_points::{law_found_once, result_at, Access, EntryPoints};
#[allow(unused_imports)]
use crate::loader::{Lookup, Symbol};
#[allow(unused_imports)]
use crate::protocol::{accepted, after, calls_made, effects_of, law_bounded};

verus! {

/// The arguments of a call that makes a device for a Direct3D 12 device.
#[derive(Clone, Copy, Debug, PartialEq, Eq, Structural)]
pub struct On12Args {
    pub p_device: usize,
    pub flags: u32,
    pub p_feature_levels: usize,
    pub feature_levels: u32,
    pub pp_command_queues: usize,
    pub num_queues: u32,
    pub node_mask: u32,
    pub pp_device: usize,
    pub pp_immediate_context: usize,
    pub p_chosen_feature_level: usize,
}

/// A call of a forwarded export.
#[derive(Clone, Copy, Debug, PartialEq, Eq, Structural)]
pub enum ForwardedCall {
    D3D11CoreCreateDevice {
        p_factory: usize,
        p_adapter: usize,
        flags: u32,
        p_feature_levels: usize,
        feature_levels: u32,
        pp_device: usize,
    },
    D3D11CreateDeviceForD3D12(On12Args),
    D3D11On12CreateDevice(On12Args),
}

/// How far the forwarding has come: each stage waits for one answer.
#[derive(Clone, Copy, Debug, PartialEq, Eq, Structural)]
pub enum ForwardStage {
    FindProc,
    Invoke { proc: usize },
    Finished { hr: i32 },
}

/// The forwarding of one call.
#[derive(Clone, Copy, Debug, PartialEq, Eq, Structural)]
pub struct Forward {
    pub args: ForwardedCall,
    pub stage: ForwardStage,
}

impl ForwardedCall {
    /// The entry point for calls of the same name.
    pub open spec fn target(self) -> EntryPoint {
        match self {
            ForwardedCall::D3D11CoreCreateDevice { .. } => EntryPoint::ForwardedCoreCreateDevice,
            ForwardedCall::D3D11CreateDeviceForD3D12(_) => {
                EntryPoint::ForwardedCreateDeviceForD3D12
            },
            ForwardedCall::D3D11On12CreateDevice(_) => EntryPoint::ForwardedOn12CreateDevice,
        }
    }

    /// The entry point that the call goes to.
    pub fn entry_point(&self) -> (entry: EntryPoint)
        ensures
            entry == self.target(),
    {
        match self {
            ForwardedCall::D3D11CoreCreateDevice { .. } => EntryPoint::ForwardedCoreCreateDevice,
            ForwardedCall::D3D11CreateDeviceForD3D12(_) => {
                EntryPoint::ForwardedCreateDeviceForD3D12
            },
            ForwardedCall::D3D11On12CreateDevice(_) => EntryPoint::ForwardedOn12CreateDevice,
        }
    }
}

impl Protocol for Forward {
    open spec fn inv(self) -> bool {
        true
    }

    open spec fn pending(self) -> Call {
        match self.stage {
            ForwardStage::FindProc => Call::EntryPoint(self.args.target()),
            ForwardStage::Invoke { proc } => Call::Forwarded { proc, args: self.args },
            ForwardStage::Finished { hr } => Call::Return(hr),
        }
    }

    open spec fn accepts(self, reply: Reply) -> bool {
        match self.stage {
            ForwardStage::FindProc => reply matches Reply::Proc(found) && found is Some,
            ForwardStage::Invoke { .. } => reply is Status,
            ForwardStage::Finished { .. } => false,
        }
    }

    open spec fn advance(self, reply: Reply) -> Forward {
        Forward {
            args: self.args,
            stage: match (self.stage, reply) {
                (ForwardStage::FindProc, Reply::Proc(Some(proc))) => ForwardStage::Invoke { proc },
                (ForwardStage::Invoke { .. }, Reply::Status { hr }) => {
                    ForwardStage::Finished { hr }
                },
                (stage, _) => stage,
            },
        }
    }

    open spec fn effects(self, reply: Reply) -> Seq<Effect> {
        Seq::empty()
    }

    open spec fn held(self) -> Seq<usize> {
        Seq::empty()
    }

    open spec fn lent(self) -> Set<usize> {
        Set::empty()
    }

    open spec fn rank(self) -> nat {
        match self.stage {
            ForwardStage::FindProc => 2,
            ForwardStage::Invoke { .. } => 1,
            ForwardStage::Finished { .. } => 0,
        }
    }

    fn call(&self) -> (call: Call) {
        match self.stage {
            ForwardStage::FindProc => Call::EntryPoint(self.args.entry_point()),
            ForwardStage::Invoke { proc } => Call::Forwarded { proc, args: self.args },
            ForwardStage::Finished { hr } => Call::Return(hr),
        }
    }

    fn can_take(&self, reply: &Reply) -> (ok: bool) {
        match (self.stage, reply) {
            (ForwardStage::FindProc, Reply::Proc(Some(_))) => true,
            (ForwardStage::Invoke { .. }, Reply::Status { .. }) => true,
            _ => false,
        }
    }

    fn step(self, reply: Reply) -> (next: (Forward, Vec<Effect>)) {
        let stage = match (self.stage, reply) {
            (ForwardStage::FindProc, Reply::Proc(Some(proc))) => ForwardStage::Invoke { proc },
            (ForwardStage::Invoke { .. }, Reply::Status { hr }) => ForwardStage::Finished { hr },
            (stage, _) => stage,
        };
        (Forward { args: self.args, stage }, Vec::new())
    }

    proof fn lemma_step(self, reply: Reply) {
        assert(references(self.held()).add(self.pending().gains(reply)) =~= references(
            self.advance(reply).held(),
        ).add(released(self.effects(reply))).add(handed_over(self.effects(reply))));
    }

    proof fn lemma_pending(self) {
        match self.stage {
            ForwardStage::FindProc => {
                assert(self.accepts(Reply::Proc(Some(0))));
            },
            ForwardStage::Invoke { .. } => {
                assert(self.accepts(Reply::Status { hr: 0 }));
            },
            ForwardStage::Finished { .. } => {},
        }
    }
}

/// Begins the forwarding of a call of `D3D11CoreCreateDevice`.
#[allow(non_snake_case)]
pub fn D3D11CoreCreateDevice(
    p_factory: usize,
    p_adapter: usize,
    flags: u32,
    p_feature_levels: usize,
    feature_levels: u32,
    pp_device: usize,
) -> (forward: Forward)
    ensures
        forward.stage is FindProc,
        forward.args == (ForwardedCall::D3D11CoreCreateDevice {
            p_factory,
            p_adapter,
            flags,
            p_feature_levels,
            feature_levels,
            pp_device,
        }),
{
    Forward {
        args: ForwardedCall::D3D11CoreCreateDevice {
            p_factory,
            p_adapter,
            flags,
            p_feature_levels,
            feature_levels,
            pp_device,
        },
        stage: ForwardStage::FindProc,
    }
}

/// Begins the forwarding of a call of `D3D11CreateDeviceForD3D12`.
#[allow(non_snake_case)]
pub fn D3D11CreateDeviceForD3D12(
    p_device: usize,
    flags: u32,
    p_feature_levels: usize,
    feature_levels: u32,
    pp_command_queues: usize,
    num_queues: u32,
    node_mask: u32,
    pp_device: usize,
    pp_immediate_context: usize,
    p_chosen_feature_level: usize,
) -> (forward: Forward)
    ensures
        forward.stage is FindProc,
        forward.args == ForwardedCall::D3D11CreateDeviceForD3D12(
            On12Args {
                p_device,
                flags,
                p_feature_levels,
                feature_levels,
                pp_command_queues,
                num_queues,
                node_mask,
                pp_device,
                pp_immediate_context,
                p_chosen_feature_level,
            },
        ),
{
    Forward {
        args: ForwardedCall::D3D11CreateDeviceForD3D12(
            On12Args {
                p_device,
                flags,
                p_feature_levels,
                feature_levels,
                pp_command_queues,
                num_queues,
                node_mask,
                pp_device,
                pp_immediate_context,
                p_chosen_feature_level,
            },
        ),
        stage: ForwardStage::FindProc,
    }
}

/// Begins the forwarding of a call of `D3D11On12CreateDevice`.
#[allow(non_snake_case)]
pub fn D3D11On12CreateDevice(
    p_device: usize,
    flags: u32,
    p_feature_levels: usize,
    feature_levels: u32,
    pp_command_queues: usize,
    num_queues: u32,
    node_mask: u32,
    pp_device: usize,
    pp_immediate_context: usize,
    p_chosen_feature_level: usize,
) -> (forward: Forward)
    ensures
        forward.stage is FindProc,
        forward.args == ForwardedCall::D3D11On12CreateDevice(
            On12Args {
                p_device,
                flags,
                p_feature_levels,
                feature_levels,
                pp_command_queues,
                num_queues,
                node_mask,
                pp_device,
                pp_immediate_context,
                p_chosen_feature_level,
            },
        ),
{
    Forward {
        args: ForwardedCall::D3D11On12CreateDevice(
            On12Args {
                p_device,
                flags,
                p_feature_levels,
                feature_levels,
                pp_command_queues,
                num_queues,
                node_mask,
                pp_device,
                pp_immediate_context,
                p_chosen_feature_level,
            },
        ),
        stage: ForwardStage::FindProc,
    }
}

/// Forwarding is transparent: the entry point of the same name is called once,
/// with the very arguments that came in, its status is returned unchanged, and
/// nothing else is done.
pub proof fn law_forwarding_is_transparent(start: Forward, replies: Seq<Reply>)
    requires
        start.stage is FindProc,
        accepted(start, replies),
        after(start, replies).stage is Finished,
    ensures
        replies.len() == 2,
        calls_made(start, replies) == seq![
            Call::EntryPoint(start.args.target()),
            Call::Forwarded { proc: replies[0]->Proc_0->0, args: start.args },
        ],
        replies[1] matches Reply::Status { hr } && after(start, replies).pending() == Call::Return(
            hr,
        ),
        effects_of(start, replies) == Seq::<Effect>::empty(),
{
    reveal_with_fuel(after, 4);
    reveal_with_fuel(accepted, 4);
    reveal_with_fuel(calls_made, 4);
    reveal_with_fuel(effects_of, 4);
    law_bounded(start, replies);
    let first = replies.drop_last();
    assert(replies.len() == 2);
    assert(first.drop_last() =~= Seq::<Reply>::empty());
    assert(first.last() == replies[0]);
    assert(calls_made(start, replies) =~= seq![
        Call::EntryPoint(start.args.target()),
        Call::Forwarded { proc: replies[0]->Proc_0->0, args: start.args },
    ]);
    assert(effects_of(start, replies) =~= Seq::<Effect>::empty());
}

/// Each forwarded export goes to the entry point of its own name, which no other
/// export and no making of a device shares.
pub proof fn law_each_export_has_its_own_entry_point(call: ForwardedCall, other: ForwardedCall)
    ensures
        call is D3D11CoreCreateDevice ==> call.target().export() == Symbol::D3D11CoreCreateDevice,
        call is D3D11CreateDeviceForD3D12 ==> call.target().export()
            == Symbol::D3D11CreateDeviceForD3D12,
        call is D3D11On12CreateDevice ==> call.target().export() == Symbol::D3D11On12CreateDevice,
        call.target() == other.target() ==> {
            &&& call is D3D11CoreCreateDevice <==> other is D3D11CoreCreateDevice
            &&& call is D3D11CreateDeviceForD3D12 <==> other is D3D11CreateDeviceForD3D12
            &&& call is D3D11On12CreateDevice <==> other is D3D11On12CreateDevice
        },
        !(call.target() is D3D12CreateDevice),
        !(call.target() is D3D11On12CreateDevice),
{
}

/// A later call of a forwarded export asks the loader nothing and goes to the
/// function that an earlier call found, whatever was looked for in between and
/// whatever handle of the system's `d3d11.dll` is stored by then.
pub proof fn law_later_calls_go_to_the_same_function(
    start: EntryPoints,
    accesses: Seq<Access>,
    i: int,
    j: int,
    found: usize,
    later: Forward,
)
    requires
        0 <= i < j < accesses.len(),
        later.stage is FindProc,
        accesses[i].entry() == later.args.target(),
        result_at(start, accesses, i) == Lookup::Found(found),
        accesses[j] matches Access::Search { entry, .. } && later.pending() == Call::EntryPoint(
            entry,
        ),
    ensures
        result_at(start, accesses, j) == Lookup::Found(found),
        later.accepts(Reply::Proc(Some(found))),
        later.advance(Reply::Proc(Some(found))).pending() == (Call::Forwarded {
            proc: found,
            args: later.args,
        }),
{
    law_found_once(start, accesses, i, j, found);
}

/// Every forwarded call is carried through: its own entry point is asked for, any
/// address that is found is called with the arguments as they came, and whatever
/// status that brings, success or failure, is accepted and returned as it is. Nothing
/// but the missing of the entry point can stop it, and nothing else is done.
pub proof fn law_every_status_is_passed_on(start: Forward, proc: usize, hr: i32)
    requires
        start.stage is FindProc,
    ensures
        start.pending() == Call::EntryPoint(
            match start.args {
                ForwardedCall::D3D11CoreCreateDevice { .. } => {
                    EntryPoint::ForwardedCoreCreateDevice
                },
                ForwardedCall::D3D11CreateDeviceForD3D12(_) => {
                    EntryPoint::ForwardedCreateDeviceForD3D12
                },
                ForwardedCall::D3D11On12CreateDevice(_) => EntryPoint::ForwardedOn12CreateDevice,
            },
        ),
        start.accepts(Reply::Proc(Some(proc))),
        start.effects(Reply::Proc(Some(proc))) == Seq::<Effect>::empty(),
        ({
            let called = start.advance(Reply::Proc(Some(proc)));
            let ended = called.advance(Reply::Status { hr });
            &&& called.pending() == (Call::Forwarded { proc, args: start.args })
            &&& called.accepts(Reply::Status { hr })
            &&& called.effects(Reply::Status { hr }) == Seq::<Effect>::empty()
            &&& ended.pending() == Call::Return(hr)
            &&& accepted(start, seq![Reply::Proc(Some(proc)), Reply::Status { hr }])
            &&& after(start, seq![Reply::Proc(Some(proc)), Reply::Status { hr }]) == ended
        }),
{
    reveal_with_fuel(after, 3);
    reveal_with_fuel(accepted, 3);
    let both = seq![Reply::Proc(Some(proc)), Reply::Status { hr }];
    assert(both.drop_last() =~= seq![Reply::Proc(Some(proc))]);
    assert(both.drop_last().drop_last() =~= Seq::<Reply>::empty());
}

/// A forwarding takes no answer of another kind: none but an address where it asks
/// for its entry point, none but a status where it has called it, and none once it
/// has returned.
pub proof fn law_forwarding_takes_no_other_answer(start: Forward, proc: usize, hr: i32, reply: Reply)
    requires
        start.stage is FindProc,
    ensures
        !(reply is Proc) || reply == Reply::Proc(None) ==> !start.accepts(reply),
        !(reply is Status) ==> !start.advance(Reply::Proc(Some(proc))).accepts(reply),
        !start.advance(Reply::Proc(Some(proc))).advance(Reply::Status { hr }).accepts(reply),
{
}

} // verus!
