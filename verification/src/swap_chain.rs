//! Making a device together with a swap chain.

use crate::abi::{IID_IDXGI_ADAPTER, IID_IDXGI_DEVICE, IID_IDXGI_FACTORY};
use crate::com::{ComPtr, Effect};
use crate::device::{create_d3d11on12_device, DeviceCreation, DeviceRequest, DeviceStage};
use crate::hresult::{is_err, E_INVALIDARG, S_OK};
use crate::protocol::{Call, CopyOf, Outputs, Protocol, Reply};
use vstd::prelude::*;

#[allow(unused_imports)]
use crate::com::{
    copies, drops, handed_over, law_drops_go_from_the_youngest, law_drops_release_what_is_held,
    lemma_drops_listed, lemma_effects_split, lemma_references_listed, reference, references, released, stores,
};
#[allow(unused_imports)]
use crate::device::{
    backed_by_d3d12, begun as begun_device, law_device_is_backed_by_d3d12, law_device_status,
    law_every_answer_is_taken, law_making_returns_only_for_a_reason, lemma_nothing_handed_over,
    status_of,
};
#[allow(unused_imports)]
use crate::entry_points::EntryPoint;
#[allow(unused_imports)]
use crate::hresult::succeeded;
#[allow(unused_imports)]
use crate::protocol::{
    accepted, after, calls_made, effects_of, gained, law_bounded, law_no_leak,
};
#[allow(unused_imports)]
use vstd::multiset::Multiset;

verus! {

/// What is asked of the new device and its swap chain.
#[derive(Clone, Copy, Debug, PartialEq, Eq, Structural)]
pub struct SwapChainRequest {
    /// The adapter that the caller lends; null for the default one.
    pub p_adapter: usize,
    pub driver_type: i32,
    pub flags: u32,
    pub p_feature_levels: usize,
    pub feature_levels: u32,
    pub p_swap_chain_desc: usize,
    /// Where the swap chain goes; null where none is wanted.
    pub pp_swap_chain: usize,
    /// Where the device goes; null where the caller does not want it.
    pub pp_device: usize,
    pub p_feature_level: usize,
    /// Where the immediate context goes; null where the caller does not want it.
    pub pp_immediate_context: usize,
}

/// How far the making has come: each stage waits for one answer.
#[derive(Debug, PartialEq, Eq)]
pub enum SwapChainStage {
    CreateDevice(DeviceCreation),
    QueryDxgiDevice { device: ComPtr, context: ComPtr },
    GetAdapter { device: ComPtr, context: ComPtr, dxgi_device: ComPtr },
    GetFactory { device: ComPtr, context: ComPtr, dxgi_device: ComPtr, dxgi_adapter: ComPtr },
    CreateSwapChain {
        device: ComPtr,
        context: ComPtr,
        dxgi_device: ComPtr,
        dxgi_adapter: ComPtr,
        dxgi_factory: ComPtr,
    },
    Finished { hr: i32 },
}

/// The making of one device and its swap chain.
#[derive(Debug, PartialEq, Eq)]
pub struct SwapChainCreation {
    pub request: SwapChainRequest,
    pub stage: SwapChainStage,
}

impl SwapChainRequest {
    /// Whether the request cannot be met: a swap chain without a description.
    pub open spec fn invalid(self) -> bool {
        self.pp_swap_chain != 0 && self.p_swap_chain_desc == 0
    }

    /// The device that the swap chain is made for. It goes into variables of the
    /// proxy's own: the caller sees it only once everything has succeeded.
    pub open spec fn device_request(self) -> DeviceRequest {
        DeviceRequest {
            p_adapter: self.p_adapter,
            driver_type: self.driver_type,
            flags: self.flags,
            p_feature_levels: self.p_feature_levels,
            feature_levels: self.feature_levels,
            outputs: Outputs::Local,
            p_chosen_feature_level: self.p_feature_level,
        }
    }

    /// What the caller is given at the end of a success: the device and the
    /// context, each where it has a place for it.
    pub open spec fn wanted(self, device: usize, context: usize) -> Seq<Effect> {
        let written_device = if self.pp_device != 0 {
            seq![Effect::Write { slot: self.pp_device, object: device }]
        } else {
            Seq::empty()
        };
        let written_context = if self.pp_immediate_context != 0 {
            seq![Effect::Write { slot: self.pp_immediate_context, object: context }]
        } else {
            Seq::empty()
        };
        written_device + written_context
    }

    /// The copy of the description, which is made once there is a device.
    pub open spec fn copy(self) -> Effect {
        Effect::Copy { address: self.p_swap_chain_desc }
    }

    /// The end of a success: the caller is given what it wants, and what it does
    /// not want is dropped, the context before the device.
    pub open spec fn hand_over(self, device: usize, context: usize) -> Seq<Effect> {
        let dropped_context = if self.pp_immediate_context != 0 {
            Seq::empty()
        } else {
            drops(seq![context])
        };
        let dropped_device = if self.pp_device != 0 {
            Seq::empty()
        } else {
            drops(seq![device])
        };
        self.wanted(device, context) + dropped_context + dropped_device
    }
}

impl SwapChainCreation {
    /// The stage that follows when the making of the device has ended.
    pub open spec fn with_device(self, hr: i32, device: ComPtr, context: ComPtr) -> SwapChainStage {
        if !succeeded(hr) {
            SwapChainStage::Finished { hr }
        } else if self.request.pp_swap_chain != 0 {
            SwapChainStage::QueryDxgiDevice { device, context }
        } else {
            SwapChainStage::Finished { hr: S_OK }
        }
    }

    /// The stage that follows when `reply` is taken.
    pub open spec fn next(self, reply: Reply) -> SwapChainStage {
        match (self.stage, reply) {
            (SwapChainStage::CreateDevice(creation), _) => {
                let creation = creation.advance(reply);
                match creation.stage {
                    DeviceStage::Finished { hr, device, context } => {
                        self.with_device(hr, device, context)
                    },
                    _ => SwapChainStage::CreateDevice(creation),
                }
            },
            (
                SwapChainStage::QueryDxgiDevice { device, context },
                Reply::Object { hr, object },
            ) => if succeeded(hr) {
                SwapChainStage::GetAdapter { device, context, dxgi_device: ComPtr { ptr: object } }
            } else {
                SwapChainStage::Finished { hr: E_INVALIDARG }
            },
            (
                SwapChainStage::GetAdapter { device, context, dxgi_device },
                Reply::Object { hr, object },
            ) => if succeeded(hr) {
                SwapChainStage::GetFactory {
                    device,
                    context,
                    dxgi_device,
                    dxgi_adapter: ComPtr { ptr: object },
                }
            } else {
                SwapChainStage::Finished { hr: E_INVALIDARG }
            },
            (
                SwapChainStage::GetFactory { device, context, dxgi_device, dxgi_adapter },
                Reply::Object { hr, object },
            ) => if succeeded(hr) {
                SwapChainStage::CreateSwapChain {
                    device,
                    context,
                    dxgi_device,
                    dxgi_adapter,
                    dxgi_factory: ComPtr { ptr: object },
                }
            } else {
                SwapChainStage::Finished { hr: E_INVALIDARG }
            },
            (SwapChainStage::CreateSwapChain { .. }, Reply::Status { hr }) => {
                SwapChainStage::Finished {
                    hr: if succeeded(hr) {
                        S_OK
                    } else {
                        hr
                    },
                }
            },
            (stage, _) => stage,
        }
    }
}

impl Protocol for SwapChainCreation {
    open spec fn inv(self) -> bool {
        match self.stage {
            SwapChainStage::CreateDevice(creation) => {
                &&& creation.inv()
                &&& creation.request == self.request.device_request()
                &&& !(creation.stage is Finished)
                &&& !self.request.invalid()
            },
            SwapChainStage::QueryDxgiDevice { device, .. } => {
                &&& self.request.pp_swap_chain != 0
                &&& self.request.p_swap_chain_desc != 0
                &&& device.ptr != 0
            },
            SwapChainStage::GetAdapter { device, dxgi_device, .. } => {
                &&& self.request.pp_swap_chain != 0
                &&& self.request.p_swap_chain_desc != 0
                &&& device.ptr != 0
                &&& dxgi_device.ptr != 0
            },
            SwapChainStage::GetFactory { device, dxgi_device, dxgi_adapter, .. } => {
                &&& self.request.pp_swap_chain != 0
                &&& self.request.p_swap_chain_desc != 0
                &&& device.ptr != 0
                &&& dxgi_device.ptr != 0
                &&& dxgi_adapter.ptr != 0
            },
            SwapChainStage::CreateSwapChain {
                device,
                dxgi_device,
                dxgi_adapter,
                dxgi_factory,
                ..
            } => {
                &&& self.request.pp_swap_chain != 0
                &&& self.request.p_swap_chain_desc != 0
                &&& device.ptr != 0
                &&& dxgi_device.ptr != 0
                &&& dxgi_adapter.ptr != 0
                &&& dxgi_factory.ptr != 0
            },
            SwapChainStage::Finished { hr } => hr == S_OK || !succeeded(hr),
        }
    }

    open spec fn pending(self) -> Call {
        match self.stage {
            SwapChainStage::CreateDevice(creation) => creation.pending(),
            SwapChainStage::QueryDxgiDevice { device, .. } => Call::QueryInterface {
                this: device.ptr,
                iid: IID_IDXGI_DEVICE,
            },
            SwapChainStage::GetAdapter { dxgi_device, .. } => Call::GetParent {
                this: dxgi_device.ptr,
                iid: IID_IDXGI_ADAPTER,
            },
            SwapChainStage::GetFactory { dxgi_adapter, .. } => Call::GetParent {
                this: dxgi_adapter.ptr,
                iid: IID_IDXGI_FACTORY,
            },
            SwapChainStage::CreateSwapChain { device, dxgi_factory, .. } => Call::CreateSwapChain {
                this: dxgi_factory.ptr,
                device: device.ptr,
                desc: CopyOf { address: self.request.p_swap_chain_desc },
                pp_swap_chain: self.request.pp_swap_chain,
            },
            SwapChainStage::Finished { hr } => Call::Return(hr),
        }
    }

    open spec fn accepts(self, reply: Reply) -> bool {
        match self.stage {
            SwapChainStage::CreateDevice(creation) => {
                &&& creation.accepts(reply)
                &&& self.next(reply) matches SwapChainStage::QueryDxgiDevice { device, .. }
                    ==> device.ptr != 0
            },
            SwapChainStage::QueryDxgiDevice { .. }
            | SwapChainStage::GetAdapter { .. }
            | SwapChainStage::GetFactory { .. } => {
                reply matches Reply::Object { hr, object } && (succeeded(hr) ==> object != 0)
            },
            SwapChainStage::CreateSwapChain { .. } => reply is Status,
            SwapChainStage::Finished { .. } => false,
        }
    }

    open spec fn advance(self, reply: Reply) -> SwapChainCreation {
        SwapChainCreation { request: self.request, stage: self.next(reply) }
    }

    open spec fn effects(self, reply: Reply) -> Seq<Effect> {
        match self.stage {
            SwapChainStage::CreateDevice(creation) => creation.effects(reply) + (
            match creation.next(reply) {
                DeviceStage::Finished { hr, device, context } if succeeded(hr) => {
                    if self.request.pp_swap_chain == 0 {
                        self.request.hand_over(device.ptr, context.ptr)
                    } else {
                        seq![self.request.copy()]
                    }
                },
                _ => Seq::empty(),
            }),
            SwapChainStage::CreateSwapChain {
                device,
                context,
                dxgi_device,
                dxgi_adapter,
                dxgi_factory,
            } if self.next(reply) == (SwapChainStage::Finished { hr: S_OK }) => {
                drops(seq![dxgi_device.ptr, dxgi_adapter.ptr, dxgi_factory.ptr])
                    + self.request.hand_over(device.ptr, context.ptr)
            },
            _ => if self.next(reply) is Finished {
                drops(self.held())
            } else {
                Seq::empty()
            },
        }
    }

    open spec fn held(self) -> Seq<usize> {
        match self.stage {
            SwapChainStage::CreateDevice(creation) => creation.held(),
            SwapChainStage::QueryDxgiDevice { device, context } => seq![device.ptr, context.ptr],
            SwapChainStage::GetAdapter { device, context, dxgi_device } => {
                seq![device.ptr, context.ptr, dxgi_device.ptr]
            },
            SwapChainStage::GetFactory { device, context, dxgi_device, dxgi_adapter } => {
                seq![device.ptr, context.ptr, dxgi_device.ptr, dxgi_adapter.ptr]
            },
            SwapChainStage::CreateSwapChain {
                device,
                context,
                dxgi_device,
                dxgi_adapter,
                dxgi_factory,
            } => {
                seq![
                    device.ptr,
                    context.ptr,
                    dxgi_device.ptr,
                    dxgi_adapter.ptr,
                    dxgi_factory.ptr,
                ]
            },
            SwapChainStage::Finished { .. } => Seq::empty(),
        }
    }

    open spec fn lent(self) -> Set<usize> {
        set![self.request.p_adapter]
    }

    open spec fn rank(self) -> nat {
        match self.stage {
            SwapChainStage::CreateDevice(creation) => creation.rank() + 4,
            SwapChainStage::QueryDxgiDevice { .. } => 4,
            SwapChainStage::GetAdapter { .. } => 3,
            SwapChainStage::GetFactory { .. } => 2,
            SwapChainStage::CreateSwapChain { .. } => 1,
            SwapChainStage::Finished { .. } => 0,
        }
    }

    fn call(&self) -> (call: Call) {
        match &self.stage {
            SwapChainStage::CreateDevice(creation) => creation.call(),
            SwapChainStage::QueryDxgiDevice { device, .. } => Call::QueryInterface {
                this: device.as_ptr(),
                iid: IID_IDXGI_DEVICE,
            },
            SwapChainStage::GetAdapter { dxgi_device, .. } => Call::GetParent {
                this: dxgi_device.as_ptr(),
                iid: IID_IDXGI_ADAPTER,
            },
            SwapChainStage::GetFactory { dxgi_adapter, .. } => Call::GetParent {
                this: dxgi_adapter.as_ptr(),
                iid: IID_IDXGI_FACTORY,
            },
            SwapChainStage::CreateSwapChain { device, dxgi_factory, .. } => Call::CreateSwapChain {
                this: dxgi_factory.as_ptr(),
                device: device.as_ptr(),
                desc: CopyOf { address: self.request.p_swap_chain_desc },
                pp_swap_chain: self.request.pp_swap_chain,
            },
            SwapChainStage::Finished { hr } => Call::Return(*hr),
        }
    }

    fn can_take(&self, reply: &Reply) -> (ok: bool) {
        match (&self.stage, reply) {
            (SwapChainStage::CreateDevice(creation), _) => {
                if !creation.can_take(reply) {
                    return false;
                }
                match (&creation.stage, reply) {
                    (
                        DeviceStage::CreateOn12 { .. },
                        Reply::DeviceAndContext { hr, device, .. },
                    ) => is_err(*hr) || self.request.pp_swap_chain == 0 || *device != 0,
                    _ => true,
                }
            },
            (SwapChainStage::QueryDxgiDevice { .. }, Reply::Object { hr, object }) => {
                is_err(*hr) || *object != 0
            },
            (SwapChainStage::GetAdapter { .. }, Reply::Object { hr, object }) => {
                is_err(*hr) || *object != 0
            },
            (SwapChainStage::GetFactory { .. }, Reply::Object { hr, object }) => {
                is_err(*hr) || *object != 0
            },
            (SwapChainStage::CreateSwapChain { .. }, Reply::Status { .. }) => true,
            _ => false,
        }
    }

    fn step(self, reply: Reply) -> (next: (SwapChainCreation, Vec<Effect>)) {
        proof {
            self.lemma_step(reply);
        }
        let request = self.request;
        let mut effects: Vec<Effect> = Vec::new();
        let stage = match (self.stage, reply) {
            (SwapChainStage::CreateDevice(creation), _) => {
                let (creation, done) = creation.step(reply);
                effects = done;
                match creation.stage {
                    DeviceStage::Finished { hr, device, context } => {
                        if is_err(hr) {
                            SwapChainStage::Finished { hr }
                        } else if request.pp_swap_chain != 0 {
                            effects.push(Effect::Copy { address: request.p_swap_chain_desc });
                            SwapChainStage::QueryDxgiDevice { device, context }
                        } else {
                            finish(&request, device, context, &mut effects);
                            SwapChainStage::Finished { hr: S_OK }
                        }
                    },
                    stage => SwapChainStage::CreateDevice(
                        DeviceCreation { request: creation.request, stage },
                    ),
                }
            },
            (
                SwapChainStage::QueryDxgiDevice { device, context },
                Reply::Object { hr, object },
            ) => {
                if is_err(hr) {
                    proof {
                        lemma_drops_listed(device.ptr, context.ptr, 0, 0, 0);
                    }
                    context.drop(&mut effects);
                    device.drop(&mut effects);
                    SwapChainStage::Finished { hr: E_INVALIDARG }
                } else {
                    SwapChainStage::GetAdapter { device, context, dxgi_device: ComPtr::new(object) }
                }
            },
            (
                SwapChainStage::GetAdapter { device, context, dxgi_device },
                Reply::Object { hr, object },
            ) => {
                if is_err(hr) {
                    proof {
                        lemma_drops_listed(device.ptr, context.ptr, dxgi_device.ptr, 0, 0);
                    }
                    dxgi_device.drop(&mut effects);
                    context.drop(&mut effects);
                    device.drop(&mut effects);
                    SwapChainStage::Finished { hr: E_INVALIDARG }
                } else {
                    SwapChainStage::GetFactory {
                        device,
                        context,
                        dxgi_device,
                        dxgi_adapter: ComPtr::new(object),
                    }
                }
            },
            (
                SwapChainStage::GetFactory { device, context, dxgi_device, dxgi_adapter },
                Reply::Object { hr, object },
            ) => {
                if is_err(hr) {
                    proof {
                        lemma_drops_listed(
                            device.ptr,
                            context.ptr,
                            dxgi_device.ptr,
                            dxgi_adapter.ptr,
                            0,
                        );
                    }
                    dxgi_adapter.drop(&mut effects);
                    dxgi_device.drop(&mut effects);
                    context.drop(&mut effects);
                    device.drop(&mut effects);
                    SwapChainStage::Finished { hr: E_INVALIDARG }
                } else {
                    SwapChainStage::CreateSwapChain {
                        device,
                        context,
                        dxgi_device,
                        dxgi_adapter,
                        dxgi_factory: ComPtr::new(object),
                    }
                }
            },
            (
                SwapChainStage::CreateSwapChain {
                    device,
                    context,
                    dxgi_device,
                    dxgi_adapter,
                    dxgi_factory,
                },
                Reply::Status { hr },
            ) => {
                proof {
                    lemma_drops_listed(dxgi_device.ptr, dxgi_adapter.ptr, dxgi_factory.ptr, 0, 0);
                    lemma_drops_listed(
                        device.ptr,
                        context.ptr,
                        dxgi_device.ptr,
                        dxgi_adapter.ptr,
                        dxgi_factory.ptr,
                    );
                }
                dxgi_factory.drop(&mut effects);
                dxgi_adapter.drop(&mut effects);
                dxgi_device.drop(&mut effects);
                if is_err(hr) {
                    context.drop(&mut effects);
                    device.drop(&mut effects);
                    SwapChainStage::Finished { hr }
                } else {
                    finish(&request, device, context, &mut effects);
                    SwapChainStage::Finished { hr: S_OK }
                }
            },
            (stage, _) => stage,
        };
        assert(effects@ =~= self.effects(reply));
        (SwapChainCreation { request, stage }, effects)
    }

    proof fn lemma_step(self, reply: Reply) {
        law_drops_release_what_is_held(self.held());
        assert(released(Seq::empty()) == Multiset::<usize>::empty());
        assert(handed_over(Seq::empty()) == Multiset::<usize>::empty());
        assert(references(Seq::empty()) == Multiset::<usize>::empty());
        match self.stage {
            SwapChainStage::CreateDevice(creation) => {
                creation.lemma_step(reply);
                match creation.next(reply) {
                    DeviceStage::Finished { hr, device, context } => {
                        lemma_references_listed(device.ptr, context.ptr, 0, 0, 0);
                        lemma_hand_over(self.request, device.ptr, context.ptr);
                        lemma_effects_split(
                            creation.effects(reply),
                            self.request.hand_over(device.ptr, context.ptr),
                        );
                        lemma_copy(self.request);
                        lemma_effects_split(creation.effects(reply), seq![self.request.copy()]);
                        lemma_references_listed(0, 0, 0, 0, 0);
                    },
                    _ => {},
                }
                lemma_effects_split(creation.effects(reply), Seq::empty());
            },
            SwapChainStage::QueryDxgiDevice { device, context } => {
                lemma_references_listed(
                    device.ptr,
                    context.ptr,
                    reply->Object_object,
                    0,
                    0,
                );
            },
            SwapChainStage::GetAdapter { device, context, dxgi_device } => {
                lemma_references_listed(
                    device.ptr,
                    context.ptr,
                    dxgi_device.ptr,
                    reply->Object_object,
                    0,
                );
            },
            SwapChainStage::GetFactory { device, context, dxgi_device, dxgi_adapter } => {
                lemma_references_listed(
                    device.ptr,
                    context.ptr,
                    dxgi_device.ptr,
                    dxgi_adapter.ptr,
                    reply->Object_object,
                );
            },
            SwapChainStage::CreateSwapChain {
                device,
                context,
                dxgi_device,
                dxgi_adapter,
                dxgi_factory,
            } => {
                lemma_references_listed(
                    device.ptr,
                    context.ptr,
                    dxgi_device.ptr,
                    dxgi_adapter.ptr,
                    dxgi_factory.ptr,
                );
                let dxgi = seq![dxgi_device.ptr, dxgi_adapter.ptr, dxgi_factory.ptr];
                lemma_references_listed(dxgi_device.ptr, dxgi_adapter.ptr, dxgi_factory.ptr, 0, 0);
                law_drops_release_what_is_held(dxgi);
                lemma_hand_over(self.request, device.ptr, context.ptr);
                lemma_effects_split(drops(dxgi), self.request.hand_over(device.ptr, context.ptr));
            },
            _ => {},
        }
        let before = references(self.held()).add(self.pending().gains(reply));
        let now = references(self.advance(reply).held()).add(released(self.effects(reply))).add(
            handed_over(self.effects(reply)),
        );
        assert(before =~= now);
    }

    proof fn lemma_pending(self) {
        match self.stage {
            SwapChainStage::CreateDevice(creation) => {
                creation.lemma_pending();
                let any = choose|reply: Reply| creation.accepts(reply);
                let failing = Reply::DeviceAndContext { hr: E_INVALIDARG, device: 0, context: 0 };
                if creation.stage is CreateOn12 {
                    assert(self.accepts(failing));
                } else {
                    assert(self.accepts(any));
                }
            },
            SwapChainStage::CreateSwapChain { .. } => {
                assert(self.accepts(Reply::Status { hr: S_OK }));
            },
            SwapChainStage::Finished { .. } => {},
            _ => {
                assert(self.accepts(Reply::Object { hr: E_INVALIDARG, object: 0 }));
            },
        }
        let held = self.held();
        match self.stage {
            SwapChainStage::QueryDxgiDevice { device, .. } => {
                assert(held[0] == device.ptr);
            },
            SwapChainStage::GetAdapter { dxgi_device, .. } => {
                assert(held[2] == dxgi_device.ptr);
            },
            SwapChainStage::GetFactory { dxgi_adapter, .. } => {
                assert(held[3] == dxgi_adapter.ptr);
            },
            SwapChainStage::CreateSwapChain { device, dxgi_factory, .. } => {
                assert(held[0] == device.ptr);
                assert(held[4] == dxgi_factory.ptr);
            },
            _ => {},
        }
    }
}

/// The making of a device and its swap chain before the first answer: ended at
/// once where a swap chain is wanted without a description.
pub open spec fn begun(request: SwapChainRequest) -> SwapChainCreation {
    SwapChainCreation {
        request,
        stage: if request.invalid() {
            SwapChainStage::Finished { hr: E_INVALIDARG }
        } else {
            SwapChainStage::CreateDevice(begun_device(request.device_request()))
        },
    }
}

/// Begins the making of a device and its swap chain. A swap chain without a
/// description is refused at once. The software module and the SDK version play
/// no part.
#[allow(non_snake_case)]
pub fn D3D11CreateDeviceAndSwapChain(
    p_adapter: usize,
    driver_type: i32,
    _software: usize,
    flags: u32,
    p_feature_levels: usize,
    feature_levels: u32,
    _sdk_version: u32,
    p_swap_chain_desc: usize,
    pp_swap_chain: usize,
    pp_device: usize,
    p_feature_level: usize,
    pp_immediate_context: usize,
) -> (creation: SwapChainCreation)
    ensures
        creation == begun(SwapChainRequest {
            p_adapter,
            driver_type,
            flags,
            p_feature_levels,
            feature_levels,
            p_swap_chain_desc,
            pp_swap_chain,
            pp_device,
            p_feature_level,
            pp_immediate_context,
        }),
        creation.inv(),
{
    let request = SwapChainRequest {
        p_adapter,
        driver_type,
        flags,
        p_feature_levels,
        feature_levels,
        p_swap_chain_desc,
        pp_swap_chain,
        pp_device,
        p_feature_level,
        pp_immediate_context,
    };
    if pp_swap_chain != 0 && p_swap_chain_desc == 0 {
        return SwapChainCreation { request, stage: SwapChainStage::Finished { hr: E_INVALIDARG } };
    }
    let device = create_d3d11on12_device(
        DeviceRequest {
            p_adapter,
            driver_type,
            flags,
            p_feature_levels,
            feature_levels,
            outputs: Outputs::Local,
            p_chosen_feature_level: p_feature_level,
        },
    );
    SwapChainCreation { request, stage: SwapChainStage::CreateDevice(device) }
}

/// Gives the caller what it wants and drops the rest.
fn finish(request: &SwapChainRequest, device: ComPtr, context: ComPtr, effects: &mut Vec<Effect>)
    ensures
        final(effects)@ == old(effects)@ + request.hand_over(device.ptr, context.ptr),
{
    let device_left: Option<ComPtr> = if request.pp_device != 0 {
        effects.push(Effect::Write { slot: request.pp_device, object: device.take() });
        None
    } else {
        Some(device)
    };
    let context_left: Option<ComPtr> = if request.pp_immediate_context != 0 {
        effects.push(Effect::Write { slot: request.pp_immediate_context, object: context.take() });
        None
    } else {
        Some(context)
    };
    if let Some(context) = context_left {
        context.drop(effects);
    }
    if let Some(device) = device_left {
        device.drop(effects);
    }
    assert(effects@ =~= old(effects)@ + request.hand_over(device.ptr, context.ptr));
}

/// What is handed over or dropped at the end are the two references.
proof fn lemma_hand_over(request: SwapChainRequest, device: usize, context: usize)
    ensures
        released(request.hand_over(device, context)).add(
            handed_over(request.hand_over(device, context)),
        ) == reference(device).add(reference(context)),
        stores(request.hand_over(device, context)) == request.wanted(device, context),
        copies(request.hand_over(device, context)) == Seq::<Effect>::empty(),
{
    let wd = if request.pp_device != 0 {
        seq![Effect::Write { slot: request.pp_device, object: device }]
    } else {
        Seq::empty()
    };
    let wc = if request.pp_immediate_context != 0 {
        seq![Effect::Write { slot: request.pp_immediate_context, object: context }]
    } else {
        Seq::empty()
    };
    let dc = if request.pp_immediate_context != 0 {
        Seq::empty()
    } else {
        drops(seq![context])
    };
    let dd = if request.pp_device != 0 {
        Seq::empty()
    } else {
        drops(seq![device])
    };
    lemma_effects_split(wd, wc);
    lemma_effects_split(wd + wc, dc);
    lemma_effects_split(wd + wc + dc, dd);
    law_drops_release_what_is_held(seq![context]);
    law_drops_release_what_is_held(seq![device]);
    lemma_references_listed(context, 0, 0, 0, 0);
    lemma_references_listed(device, 0, 0, 0, 0);
    lemma_write(request.pp_device, device);
    lemma_write(request.pp_immediate_context, context);
    assert(released(Seq::empty()) == Multiset::<usize>::empty());
    assert(handed_over(Seq::empty()) == Multiset::<usize>::empty());
    assert(stores(Seq::empty()) == Seq::<Effect>::empty());
    assert(copies(Seq::empty()) == Seq::<Effect>::empty());
    assert(stores(request.hand_over(device, context)) =~= request.wanted(device, context));
    assert(copies(request.hand_over(device, context)) =~= Seq::<Effect>::empty());
    assert(released(request.hand_over(device, context)).add(
        handed_over(request.hand_over(device, context)),
    ) =~= reference(device).add(reference(context)));
}

/// A single store hands one reference over.
proof fn lemma_write(slot: usize, object: usize)
    ensures
        released(seq![Effect::Write { slot, object }]) == Multiset::<usize>::empty(),
        handed_over(seq![Effect::Write { slot, object }]) == reference(object),
        stores(seq![Effect::Write { slot, object }]) == seq![Effect::Write { slot, object }],
        copies(seq![Effect::Write { slot, object }]) == Seq::<Effect>::empty(),
{
    reveal_with_fuel(stores, 2);
    reveal_with_fuel(copies, 2);
    reveal_with_fuel(released, 2);
    reveal_with_fuel(handed_over, 2);
    assert(seq![Effect::Write { slot, object }].drop_last() =~= Seq::<Effect>::empty());
    assert(released(seq![Effect::Write { slot, object }]) =~= Multiset::<usize>::empty());
    assert(handed_over(seq![Effect::Write { slot, object }]) =~= reference(object));
    assert(stores(seq![Effect::Write { slot, object }]) =~= seq![
        Effect::Write { slot, object },
    ]);
}

/// A copy moves no reference.
proof fn lemma_copy(request: SwapChainRequest)
    ensures
        released(seq![request.copy()]) == Multiset::<usize>::empty(),
        handed_over(seq![request.copy()]) == Multiset::<usize>::empty(),
        stores(seq![request.copy()]) == Seq::<Effect>::empty(),
        copies(seq![request.copy()]) == seq![request.copy()],
{
    reveal_with_fuel(stores, 2);
    reveal_with_fuel(copies, 2);
    reveal_with_fuel(released, 2);
    reveal_with_fuel(handed_over, 2);
    let copy = seq![request.copy()];
    assert(copy.drop_last() =~= Seq::<Effect>::empty());
    assert(released(copy) =~= Multiset::<usize>::empty());
    assert(handed_over(copy) =~= Multiset::<usize>::empty());
    assert(copies(copy) =~= copy);
}

/// Whether `calls[n - 1]` made, on top of a Direct3D 12 device, the device and the
/// context at `device` and `context`.
pub open spec fn device_made(
    request: SwapChainRequest,
    calls: Seq<Call>,
    replies: Seq<Reply>,
    n: int,
    device: usize,
    context: usize,
) -> bool {
    &&& backed_by_d3d12(request.device_request(), calls, replies, n)
    &&& replies[n - 1] matches Reply::DeviceAndContext { hr, device: made, context: its_context }
    &&& succeeded(hr)
    &&& made == device
    &&& its_context == context
}

/// Whether `object` is what the call answered with success by `reply` brought.
pub open spec fn brought(reply: Reply, object: usize) -> bool {
    reply matches Reply::Object { hr, object: made } && succeeded(hr) && made == object && object
        != 0
}

/// Whether the last four of the first `n` calls made the swap chain for `device`:
/// from the device to its DXGI device, on to its adapter and to the adapter's
/// factory, which made it after the caller's description.
pub open spec fn swap_chain_made(
    request: SwapChainRequest,
    calls: Seq<Call>,
    replies: Seq<Reply>,
    n: int,
    device: usize,
) -> bool {
    &&& 4 <= n <= calls.len()
    &&& calls.len() == replies.len()
    &&& calls[n - 4] == (Call::QueryInterface { this: device, iid: IID_IDXGI_DEVICE })
    &&& replies[n - 4] matches Reply::Object { object: dxgi_device, .. }
    &&& brought(replies[n - 4], dxgi_device)
    &&& calls[n - 3] == (Call::GetParent { this: dxgi_device, iid: IID_IDXGI_ADAPTER })
    &&& replies[n - 3] matches Reply::Object { object: dxgi_adapter, .. }
    &&& brought(replies[n - 3], dxgi_adapter)
    &&& calls[n - 2] == (Call::GetParent { this: dxgi_adapter, iid: IID_IDXGI_FACTORY })
    &&& replies[n - 2] matches Reply::Object { object: dxgi_factory, .. }
    &&& brought(replies[n - 2], dxgi_factory)
    &&& calls[n - 1] == (Call::CreateSwapChain {
        this: dxgi_factory,
        device,
        desc: CopyOf { address: request.p_swap_chain_desc },
        pp_swap_chain: request.pp_swap_chain,
    })
    &&& replies[n - 1] matches Reply::Status { hr }
    &&& succeeded(hr)
}

/// The status that a failure is reported with, told from the call that failed.
pub open spec fn failure_status(call: Call, reply: Reply) -> i32 {
    match call {
        Call::QueryInterface { .. } | Call::GetParent { .. } => E_INVALIDARG,
        _ => status_of(reply),
    }
}

/// Whether the whole of `calls` made what was asked for, out of the device and the
/// context at `device` and `context`.
pub open spec fn all_made(
    request: SwapChainRequest,
    calls: Seq<Call>,
    replies: Seq<Reply>,
    device: usize,
    context: usize,
) -> bool {
    let n = replies.len() as int;
    if request.pp_swap_chain == 0 {
        device_made(request, calls, replies, n, device, context)
    } else {
        &&& device_made(request, calls, replies, n - 4, device, context)
        &&& swap_chain_made(request, calls, replies, n, device)
    }
}

/// What the stage tells of the conversation so far.
spec fn history(
    now: SwapChainCreation,
    calls: Seq<Call>,
    effects: Seq<Effect>,
    replies: Seq<Reply>,
) -> bool {
    let n = replies.len() as int;
    let request = now.request;
    &&& calls.len() == n
    &&& match now.stage {
        SwapChainStage::CreateDevice(creation) => {
            let start = begun_device(request.device_request());
            &&& accepted(start, replies)
            &&& creation == after(start, replies)
            &&& calls == calls_made(start, replies)
            &&& effects == effects_of(start, replies)
            &&& copies(effects) == Seq::<Effect>::empty()
        },
        SwapChainStage::QueryDxgiDevice { device, context } => {
            &&& device_made(request, calls, replies, n, device.ptr, context.ptr)
            &&& stores(effects) == Seq::<Effect>::empty()
            &&& copies(effects) == seq![request.copy()]
            &&& effects.last() == request.copy()
        },
        SwapChainStage::GetAdapter { device, context, dxgi_device } => {
            &&& device_made(request, calls, replies, n - 1, device.ptr, context.ptr)
            &&& stores(effects) == Seq::<Effect>::empty()
            &&& copies(effects) == seq![request.copy()]
            &&& calls[n - 1] == (Call::QueryInterface { this: device.ptr, iid: IID_IDXGI_DEVICE })
            &&& brought(replies[n - 1], dxgi_device.ptr)
        },
        SwapChainStage::GetFactory { device, context, dxgi_device, dxgi_adapter } => {
            &&& device_made(request, calls, replies, n - 2, device.ptr, context.ptr)
            &&& stores(effects) == Seq::<Effect>::empty()
            &&& copies(effects) == seq![request.copy()]
            &&& calls[n - 2] == (Call::QueryInterface { this: device.ptr, iid: IID_IDXGI_DEVICE })
            &&& brought(replies[n - 2], dxgi_device.ptr)
            &&& calls[n - 1] == (Call::GetParent { this: dxgi_device.ptr, iid: IID_IDXGI_ADAPTER })
            &&& brought(replies[n - 1], dxgi_adapter.ptr)
        },
        SwapChainStage::CreateSwapChain {
            device,
            context,
            dxgi_device,
            dxgi_adapter,
            dxgi_factory,
        } => {
            &&& device_made(request, calls, replies, n - 3, device.ptr, context.ptr)
            &&& stores(effects) == Seq::<Effect>::empty()
            &&& copies(effects) == seq![request.copy()]
            &&& calls[n - 3] == (Call::QueryInterface { this: device.ptr, iid: IID_IDXGI_DEVICE })
            &&& brought(replies[n - 3], dxgi_device.ptr)
            &&& calls[n - 2] == (Call::GetParent { this: dxgi_device.ptr, iid: IID_IDXGI_ADAPTER })
            &&& brought(replies[n - 2], dxgi_adapter.ptr)
            &&& calls[n - 1] == (Call::GetParent { this: dxgi_adapter.ptr, iid: IID_IDXGI_FACTORY })
            &&& brought(replies[n - 1], dxgi_factory.ptr)
        },
        SwapChainStage::Finished { hr } => if request.invalid() {
            n == 0 && hr == E_INVALIDARG && effects == Seq::<Effect>::empty()
        } else if hr == S_OK {
            exists|device: usize, context: usize|
                {
                    &&& #[trigger] all_made(request, calls, replies, device, context)
                    &&& stores(effects) == request.wanted(device, context)
                }
        } else {
            &&& n > 0
            &&& !succeeded(status_of(replies[n - 1]))
            &&& hr == failure_status(calls[n - 1], replies[n - 1])
            &&& stores(effects) == Seq::<Effect>::empty()
        },
    }
}

/// Every reachable stage tells the truth about the conversation so far.
proof fn lemma_history(request: SwapChainRequest, replies: Seq<Reply>)
    requires
        accepted(begun(request), replies),
    ensures
        after(begun(request), replies).inv(),
        after(begun(request), replies).request == request,
        history(
            after(begun(request), replies),
            calls_made(begun(request), replies),
            effects_of(begun(request), replies),
            replies,
        ),
    decreases replies.len(),
{
    if replies.len() > 0 {
        let start = begun(request);
        let before = replies.drop_last();
        let reply = replies.last();
        lemma_history(request, before);
        let mid = after(start, before);
        let n = replies.len() as int;
        mid.lemma_step(reply);
        let calls = calls_made(start, replies);
        let effects = effects_of(start, replies);
        assert(calls.drop_last() =~= calls_made(start, before));
        assert(forall|i: int| 0 <= i < before.len() ==> before[i] == replies[i]);
        assert(calls.last() == mid.pending());
        lemma_effects_split(effects_of(start, before), mid.effects(reply));
        law_drops_release_what_is_held(mid.held());
        assert(stores(Seq::empty()) == Seq::<Effect>::empty());
        assert(copies(Seq::empty()) == Seq::<Effect>::empty());
        match mid.stage {
            SwapChainStage::CreateDevice(creation) => {
                let device_start = begun_device(request.device_request());
                assert(accepted(device_start, replies));
                assert(calls =~= calls_made(device_start, replies));
                law_device_is_backed_by_d3d12(request.device_request(), replies);
                law_device_status(request.device_request(), replies);
                lemma_nothing_handed_over(device_start, replies);
                let made = after(device_start, replies);
                assert(made == creation.advance(reply));
                match made.stage {
                    DeviceStage::Finished { hr, device, context } => {
                        lemma_hand_over(request, device.ptr, context.ptr);
                        lemma_effects_split(
                            effects_of(device_start, replies),
                            request.hand_over(device.ptr, context.ptr),
                        );
                        if succeeded(hr) {
                            assert(device_made(
                                request,
                                calls,
                                replies,
                                n,
                                device.ptr,
                                context.ptr,
                            ));
                            if request.pp_swap_chain == 0 {
                                assert(effects =~= effects_of(device_start, replies)
                                    + request.hand_over(device.ptr, context.ptr));
                                assert(stores(effects) =~= request.wanted(
                                    device.ptr,
                                    context.ptr,
                                ));
                                assert(all_made(
                                    request,
                                    calls,
                                    replies,
                                    device.ptr,
                                    context.ptr,
                                ));
                            } else {
                                lemma_copy(request);
                                lemma_effects_split(
                                    effects_of(device_start, replies),
                                    seq![request.copy()],
                                );
                                assert(effects =~= effects_of(device_start, replies) + seq![
                                    request.copy(),
                                ]);
                            }
                        } else {
                            assert(effects =~= effects_of(device_start, replies));
                        }
                    },
                    _ => {
                        assert(effects =~= effects_of(device_start, replies));
                    },
                }
            },
            SwapChainStage::CreateSwapChain {
                device,
                context,
                dxgi_device,
                dxgi_adapter,
                dxgi_factory,
            } => {
                let dxgi = seq![dxgi_device.ptr, dxgi_adapter.ptr, dxgi_factory.ptr];
                law_drops_release_what_is_held(dxgi);
                lemma_hand_over(request, device.ptr, context.ptr);
                lemma_effects_split(drops(dxgi), request.hand_over(device.ptr, context.ptr));
                if succeeded(status_of(reply)) {
                    assert(all_made(request, calls, replies, device.ptr, context.ptr));
                    assert(stores(effects) =~= request.wanted(device.ptr, context.ptr));
                }
            },
            _ => {},
        }
    }
}

/// A swap chain that is wanted without a description is refused with
/// `E_INVALIDARG` before any call is made.
pub proof fn law_missing_description_is_refused(request: SwapChainRequest, replies: Seq<Reply>)
    requires
        request.invalid(),
        accepted(begun(request), replies),
    ensures
        replies.len() == 0,
        begun(request).pending() == Call::Return(E_INVALIDARG),
{
    law_bounded(begun(request), replies);
}

/// The description is copied once, as soon as there is a device and before anything
/// is asked of it, and the swap chain is made after this copy.
pub proof fn law_description_is_copied_first(request: SwapChainRequest, replies: Seq<Reply>)
    requires
        accepted(begun(request), replies),
    ensures
        ({
            let pending = after(begun(request), replies).pending();
            let effects = effects_of(begun(request), replies);
            let copy = Effect::Copy { address: request.p_swap_chain_desc };
            &&& after(begun(request), replies).stage is CreateDevice ==> copies(effects)
                == Seq::<Effect>::empty()
            &&& pending is QueryInterface ==> effects.len() > 0 && effects.last() == copy
            &&& pending is QueryInterface || pending is GetParent || pending is CreateSwapChain
                ==> copies(effects) == seq![copy]
            &&& pending matches Call::CreateSwapChain { desc, .. } ==> desc.address
                == request.p_swap_chain_desc
        }),
{
    lemma_history(request, replies);
}

/// Success means that everything was made: the device on top of a Direct3D 12
/// device and, where one is wanted, its swap chain. The caller is given exactly
/// the device and the context of which it wants to know, and the status is `S_OK`.
pub proof fn law_success_hands_over(request: SwapChainRequest, replies: Seq<Reply>)
    requires
        accepted(begun(request), replies),
        after(begun(request), replies).pending() matches Call::Return(hr) && succeeded(hr),
    ensures
        after(begun(request), replies).pending() == Call::Return(S_OK),
        exists|device: usize, context: usize|
            {
                &&& #[trigger] all_made(
                    request,
                    calls_made(begun(request), replies),
                    replies,
                    device,
                    context,
                )
                &&& stores(effects_of(begun(request), replies)) == request.wanted(device, context)
            },
{
    lemma_history(request, replies);
}

/// A request that can be met fails only where its last call failed. A failure gives
/// the caller nothing, and gives back every reference that was gained on the way.
/// The status is that of the call that failed, but a failure to
/// reach the DXGI factory is reported as `E_INVALIDARG`.
pub proof fn law_failure_gives_all_back(request: SwapChainRequest, replies: Seq<Reply>)
    requires
        accepted(begun(request), replies),
        after(begun(request), replies).pending() matches Call::Return(hr) && !succeeded(hr),
    ensures
        !request.invalid() ==> {
            &&& replies.len() > 0
            &&& !succeeded(status_of(replies.last()))
            &&& after(begun(request), replies).pending() == Call::Return(
                failure_status(calls_made(begun(request), replies).last(), replies.last()),
            )
        },
        stores(effects_of(begun(request), replies)) == Seq::<Effect>::empty(),
        released(effects_of(begun(request), replies)) == gained(begun(request), replies),
{
    lemma_history(request, replies);
    let effects = effects_of(begun(request), replies);
    law_create_device_and_swap_chain_leaks_nothing(request, replies);
    assert(stores(Seq::empty()) == Seq::<Effect>::empty());
    lemma_stores_hand_over(effects);
    assert(released(effects).add(Multiset::<usize>::empty()) =~= released(effects));
}

/// What is handed over is what is stored.
proof fn lemma_stores_hand_over(effects: Seq<Effect>)
    ensures
        handed_over(effects) == handed_over(stores(effects)),
    decreases effects.len(),
{
    if effects.len() > 0 {
        let rest = effects.drop_last();
        lemma_stores_hand_over(rest);
        if effects.last() is Write {
            assert(stores(rest).push(effects.last()).drop_last() =~= stores(rest));
        }
        assert(handed_over(effects) =~= handed_over(stores(effects)));
    }
}

/// `D3D11CreateDeviceAndSwapChain` leaks nothing: whatever the answers are, every
/// reference that was gained has been released or handed to the caller, once, when
/// it returns.
pub proof fn law_create_device_and_swap_chain_leaks_nothing(
    request: SwapChainRequest,
    replies: Seq<Reply>,
)
    requires
        accepted(begun(request), replies),
        after(begun(request), replies).pending() is Return,
    ensures
        gained(begun(request), replies) == released(effects_of(begun(request), replies)).add(
            handed_over(effects_of(begun(request), replies)),
        ),
{
    lemma_history(request, replies);
    lemma_references_listed(0, 0, 0, 0, 0);
    law_no_leak(begun(request), replies);
}

/// Once a call has been made, the stages up to it lie behind.
proof fn lemma_made_lies_behind(request: SwapChainRequest, replies: Seq<Reply>, i: int)
    requires
        accepted(begun(request), replies),
        0 <= i < replies.len(),
    ensures
        calls_made(begun(request), replies).len() == replies.len(),
        calls_made(begun(request), replies)[i] is CreateDevice ==> after(
            begun(request),
            replies,
        ).rank() < 7,
        calls_made(begun(request), replies)[i] is CreateOn12 ==> after(
            begun(request),
            replies,
        ).rank() < 5,
        calls_made(begun(request), replies)[i] is CreateSwapChain ==> after(
            begun(request),
            replies,
        ).rank() < 1,
    decreases replies.len(),
{
    let before = replies.drop_last();
    lemma_history(request, before);
    after(begun(request), before).lemma_step(replies.last());
    if i < before.len() {
        lemma_made_lies_behind(request, before, i);
    }
}

/// `D3D11CreateDeviceAndSwapChain` makes one device and one swap chain: the calls
/// that make the Direct3D 12 device, the Direct3D 11 device and the swap chain are
/// each made at most once.
pub proof fn law_one_device_and_one_swap_chain(
    request: SwapChainRequest,
    replies: Seq<Reply>,
    i: int,
    j: int,
)
    requires
        accepted(begun(request), replies),
        0 <= i < j < replies.len(),
    ensures
        ({
            let calls = calls_made(begun(request), replies);
            &&& calls[i] is CreateDevice ==> !(calls[j] is CreateDevice)
            &&& calls[i] is CreateOn12 ==> !(calls[j] is CreateOn12)
            &&& calls[i] is CreateSwapChain ==> !(calls[j] is CreateSwapChain)
        }),
    decreases replies.len(),
{
    let before = replies.drop_last();
    lemma_history(request, before);
    if j < before.len() {
        law_one_device_and_one_swap_chain(request, before, i, j);
    } else {
        lemma_made_lies_behind(request, before, i);
    }
}

/// The making of a device and its swap chain needs at most thirteen answers.
pub proof fn law_swap_chain_needs_thirteen_answers(
    request: SwapChainRequest,
    replies: Seq<Reply>,
)
    requires
        accepted(begun(request), replies),
    ensures
        replies.len() <= 13,
        replies.len() == 13 ==> after(begun(request), replies).pending() is Return,
{
    law_bounded(begun(request), replies);
    lemma_history(request, replies);
}

/// What a success ends with for the caller, written out: the device and the context
/// stored where the caller has a place for them, and otherwise given back, the context
/// before the device.
proof fn lemma_hand_over_written_out(request: SwapChainRequest, device: usize, context: usize)
    ensures
        request.hand_over(device, context) == (if request.pp_device != 0 {
            seq![Effect::Write { slot: request.pp_device, object: device }]
        } else {
            Seq::empty()
        }) + (if request.pp_immediate_context != 0 {
            seq![Effect::Write { slot: request.pp_immediate_context, object: context }]
        } else {
            Seq::empty()
        }) + (if request.pp_immediate_context == 0 && context != 0 {
            seq![Effect::Release(context)]
        } else {
            Seq::empty()
        }) + (if request.pp_device == 0 && device != 0 {
            seq![Effect::Release(device)]
        } else {
            Seq::empty()
        }),
{
    law_drops_go_from_the_youngest(Seq::empty(), context);
    law_drops_go_from_the_youngest(Seq::empty(), device);
}

/// A request is refused at once only where a swap chain is wanted without a
/// description, and then nothing is asked; every other begins with the search for
/// `D3D12CreateDevice`.
pub proof fn law_only_a_missing_description_is_refused(request: SwapChainRequest, reply: Reply)
    ensures
        request.pp_swap_chain != 0 && request.p_swap_chain_desc == 0 ==> {
            &&& begun(request).pending() == Call::Return(E_INVALIDARG)
            &&& !begun(request).accepts(reply)
        },
        request.pp_swap_chain == 0 || request.p_swap_chain_desc != 0 ==> begun(request).pending()
            == Call::EntryPoint(EntryPoint::D3D12CreateDevice),
{
}

/// The device is made as any other is, from the caller's own arguments, but into
/// variables of the proxy's own: the same calls are made, the same answers taken and
/// the same done. A success without a device is not taken where a swap chain is wanted.
///
/// Where the making fails, its status is returned. Where it succeeds and no swap chain
/// is wanted, the device and the context go to the caller, and `S_OK` is returned.
/// Where one is wanted, the description is copied, and the device is asked for its
/// DXGI device.
pub proof fn law_device_is_made_first(
    request: SwapChainRequest,
    replies: Seq<Reply>,
    reply: Reply,
)
    requires
        accepted(begun(request), replies),
        ({
            let pending = after(begun(request), replies).pending();
            !(pending is QueryInterface || pending is GetParent || pending is CreateSwapChain
                || pending is Return)
        }),
    ensures
        ({
            let making = begun_device(
                DeviceRequest {
                    p_adapter: request.p_adapter,
                    driver_type: request.driver_type,
                    flags: request.flags,
                    p_feature_levels: request.p_feature_levels,
                    feature_levels: request.feature_levels,
                    outputs: Outputs::Local,
                    p_chosen_feature_level: request.p_feature_level,
                },
            );
            let now = after(begun(request), replies);
            let made = after(making, replies);
            let then = now.advance(reply).pending();
            &&& accepted(making, replies)
            &&& calls_made(begun(request), replies) == calls_made(making, replies)
            &&& effects_of(begun(request), replies) == effects_of(making, replies)
            &&& now.pending() == made.pending()
            &&& now.accepts(reply) <==> made.accepts(reply) && !(made.pending() is CreateOn12
                && request.pp_swap_chain != 0 && reply->DeviceAndContext_hr >= 0
                && reply->DeviceAndContext_device == 0)
            &&& now.accepts(reply) && !(made.advance(reply).pending() is Return) ==> {
                &&& then == made.advance(reply).pending()
                &&& now.effects(reply) == made.effects(reply)
            }
            &&& now.accepts(reply) && made.advance(reply).pending() is Return ==> {
                let hr = made.advance(reply).pending()->Return_0;
                let device = reply->DeviceAndContext_device;
                let context = reply->DeviceAndContext_context;
                &&& hr < 0 ==> {
                    &&& then == Call::Return(hr)
                    &&& now.effects(reply) == made.effects(reply)
                }
                &&& hr >= 0 ==> reply is DeviceAndContext
                &&& hr >= 0 && request.pp_swap_chain == 0 ==> {
                    &&& then == Call::Return(S_OK)
                    &&& now.effects(reply) == made.effects(reply) + ((if request.pp_device != 0 {
                        seq![Effect::Write { slot: request.pp_device, object: device }]
                    } else {
                        Seq::empty()
                    }) + (if request.pp_immediate_context != 0 {
                        seq![Effect::Write { slot: request.pp_immediate_context, object: context }]
                    } else {
                        Seq::empty()
                    }) + (if request.pp_immediate_context == 0 && context != 0 {
                        seq![Effect::Release(context)]
                    } else {
                        Seq::empty()
                    }) + (if request.pp_device == 0 && device != 0 {
                        seq![Effect::Release(device)]
                    } else {
                        Seq::empty()
                    }))
                }
                &&& hr >= 0 && request.pp_swap_chain != 0 ==> {
                    &&& then == (Call::QueryInterface { this: device, iid: IID_IDXGI_DEVICE })
                    &&& now.effects(reply) == made.effects(reply) + seq![
                        Effect::Copy { address: request.p_swap_chain_desc },
                    ]
                }
            }
        }),
{
    lemma_history(request, replies);
    let making = begun_device(request.device_request());
    let now = after(begun(request), replies);
    let made = after(making, replies);
    if now.accepts(reply) {
        law_every_answer_is_taken(request.device_request(), replies, reply);
        assert(made.effects(reply) + Seq::<Effect>::empty() =~= made.effects(reply));
        lemma_hand_over_written_out(
            request,
            reply->DeviceAndContext_device,
            reply->DeviceAndContext_context,
        );
        assert(seq![request.copy()] =~= seq![
            Effect::Copy { address: request.p_swap_chain_desc },
        ]);
        if made.advance(reply).stage matches DeviceStage::Finished { hr, .. } && succeeded(hr) {
            let all = replies.push(reply);
            assert(all.drop_last() =~= replies);
            assert(accepted(making, all));
            assert(after(making, all) == made.advance(reply));
            law_making_returns_only_for_a_reason(request.device_request(), all);
            law_device_status(request.device_request(), all);
        }
    }
}

/// The way from the device to its swap chain takes every answer of the right kind but
/// a success without an object, and once the status is returned none at all.
pub proof fn law_way_to_the_swap_chain_takes_every_answer(
    request: SwapChainRequest,
    replies: Seq<Reply>,
    reply: Reply,
)
    requires
        accepted(begun(request), replies),
    ensures
        ({
            let now = after(begun(request), replies);
            &&& now.pending() is QueryInterface || now.pending() is GetParent ==> (now.accepts(
                reply,
            ) <==> reply is Object && !(reply->Object_hr >= 0 && reply->Object_object == 0))
            &&& now.pending() is CreateSwapChain ==> (now.accepts(reply) <==> reply is Status)
            &&& now.pending() is Return ==> !now.accepts(reply)
            &&& !(now.pending() is Forwarded)
        }),
{
    lemma_history(request, replies);
    if after(begun(request), replies).stage is CreateDevice {
        law_every_answer_is_taken(request.device_request(), replies, reply);
    }
}

/// Every device that leads to a DXGI device goes on to its adapter. Only a failure ends
/// the way, with `E_INVALIDARG`, and gives the context and the device back.
pub proof fn law_dxgi_device_leads_to_its_adapter(
    request: SwapChainRequest,
    replies: Seq<Reply>,
    reply: Reply,
)
    requires
        accepted(begun(request), replies),
        after(begun(request), replies).pending() is QueryInterface,
        after(begun(request), replies).accepts(reply),
    ensures
        ({
            let now = after(begun(request), replies);
            let then = now.advance(reply).pending();
            &&& replies.len() >= 5
            &&& replies.last() matches Reply::DeviceAndContext { device, context, .. }
            &&& reply matches Reply::Object { hr, object: dxgi_device }
            &&& hr >= 0 ==> {
                &&& then == (Call::GetParent { this: dxgi_device, iid: IID_IDXGI_ADAPTER })
                &&& now.effects(reply) == Seq::<Effect>::empty()
            }
            &&& hr < 0 ==> {
                &&& then == Call::Return(E_INVALIDARG)
                &&& now.effects(reply) == (if context != 0 {
                    seq![Effect::Release(context)]
                } else {
                    Seq::empty()
                }) + seq![Effect::Release(device)]
            }
        }),
{
    lemma_history(request, replies);
    let held = after(begun(request), replies).held();
    lemma_drops_listed(held[0], held[1], 0, 0, 0);
    law_drops_go_from_the_youngest(Seq::empty(), held[0]);
    law_drops_go_from_the_youngest(Seq::empty(), held[1]);
    assert(held =~= seq![held[0], held[1]]);
}

/// From the DXGI device the way leads to its adapter, and from the adapter to its
/// factory, which is asked for the swap chain of the very device that was made, after
/// the copied description, into the caller's variable. Only a failure ends the way,
/// with `E_INVALIDARG`, and gives back all that was gained, the youngest first.
pub proof fn law_parents_lead_to_the_swap_chain(
    request: SwapChainRequest,
    replies: Seq<Reply>,
    reply: Reply,
)
    requires
        accepted(begun(request), replies),
        after(begun(request), replies).pending() is GetParent,
        after(begun(request), replies).accepts(reply),
    ensures
        ({
            let now = after(begun(request), replies);
            let calls = calls_made(begun(request), replies);
            let then = now.advance(reply).pending();
            let n = replies.len() as int;
            &&& n >= 6
            &&& reply matches Reply::Object { hr, object }
            &&& calls.last() is QueryInterface || calls.last() is GetParent
            &&& calls.last() is QueryInterface ==> {
                &&& replies[n - 2] matches Reply::DeviceAndContext { device, context, .. }
                &&& replies[n - 1] matches Reply::Object { object: dxgi_device, .. }
                &&& hr >= 0 ==> {
                    &&& then == (Call::GetParent { this: object, iid: IID_IDXGI_FACTORY })
                    &&& now.effects(reply) == Seq::<Effect>::empty()
                }
                &&& hr < 0 ==> {
                    &&& then == Call::Return(E_INVALIDARG)
                    &&& now.effects(reply) == seq![Effect::Release(dxgi_device)] + (if context
                        != 0 {
                        seq![Effect::Release(context)]
                    } else {
                        Seq::empty()
                    }) + seq![Effect::Release(device)]
                }
            }
            &&& calls.last() is GetParent ==> {
                &&& replies[n - 3] matches Reply::DeviceAndContext { device, context, .. }
                &&& replies[n - 2] matches Reply::Object { object: dxgi_device, .. }
                &&& replies[n - 1] matches Reply::Object { object: dxgi_adapter, .. }
                &&& hr >= 0 ==> {
                    &&& then == (Call::CreateSwapChain {
                        this: object,
                        device,
                        desc: CopyOf { address: request.p_swap_chain_desc },
                        pp_swap_chain: request.pp_swap_chain,
                    })
                    &&& now.effects(reply) == Seq::<Effect>::empty()
                }
                &&& hr < 0 ==> {
                    &&& then == Call::Return(E_INVALIDARG)
                    &&& now.effects(reply) == seq![
                        Effect::Release(dxgi_adapter),
                        Effect::Release(dxgi_device),
                    ] + (if context != 0 {
                        seq![Effect::Release(context)]
                    } else {
                        Seq::empty()
                    }) + seq![Effect::Release(device)]
                }
            }
        }),
{
    lemma_history(request, replies);
    let held = after(begun(request), replies).held();
    law_drops_go_from_the_youngest(Seq::empty(), held[0]);
    law_drops_go_from_the_youngest(Seq::empty(), held[1]);
    law_drops_go_from_the_youngest(Seq::empty(), held[2]);
    if after(begun(request), replies).stage is GetAdapter {
        lemma_drops_listed(held[0], held[1], held[2], 0, 0);
        assert(held =~= seq![held[0], held[1], held[2]]);
    } else {
        law_drops_go_from_the_youngest(Seq::empty(), held[3]);
        lemma_drops_listed(held[0], held[1], held[2], held[3], 0);
        assert(held =~= seq![held[0], held[1], held[2], held[3]]);
        assert(seq![Effect::Release(held[3])] + seq![Effect::Release(held[2])] =~= seq![
            Effect::Release(held[3]),
            Effect::Release(held[2]),
        ]);
    }
}

/// Every status of the making of the swap chain ends the way. A success is returned as
/// `S_OK`, a failure as it is. Either way the factory, the adapter and the DXGI device
/// are given back first. On success the device is stored at `pp_device` and the
/// context at `pp_immediate_context`, each wherever there is such a place and whatever
/// else was asked for, and what has no place is given back; on failure both are.
pub proof fn law_swap_chain_ends_the_way(
    request: SwapChainRequest,
    replies: Seq<Reply>,
    reply: Reply,
)
    requires
        accepted(begun(request), replies),
        after(begun(request), replies).pending() is CreateSwapChain,
        after(begun(request), replies).accepts(reply),
    ensures
        ({
            let now = after(begun(request), replies);
            let then = now.advance(reply).pending();
            let n = replies.len() as int;
            &&& n >= 8
            &&& replies[n - 4] matches Reply::DeviceAndContext { device, context, .. }
            &&& replies[n - 3] matches Reply::Object { object: dxgi_device, .. }
            &&& replies[n - 2] matches Reply::Object { object: dxgi_adapter, .. }
            &&& replies[n - 1] matches Reply::Object { object: dxgi_factory, .. }
            &&& reply matches Reply::Status { hr }
            &&& hr >= 0 ==> {
                &&& then == Call::Return(S_OK)
                &&& now.effects(reply) == seq![
                    Effect::Release(dxgi_factory),
                    Effect::Release(dxgi_adapter),
                    Effect::Release(dxgi_device),
                ] + ((if request.pp_device != 0 {
                    seq![Effect::Write { slot: request.pp_device, object: device }]
                } else {
                    Seq::empty()
                }) + (if request.pp_immediate_context != 0 {
                    seq![Effect::Write { slot: request.pp_immediate_context, object: context }]
                } else {
                    Seq::empty()
                }) + (if request.pp_immediate_context == 0 && context != 0 {
                    seq![Effect::Release(context)]
                } else {
                    Seq::empty()
                }) + (if request.pp_device == 0 && device != 0 {
                    seq![Effect::Release(device)]
                } else {
                    Seq::empty()
                }))
            }
            &&& hr < 0 ==> {
                &&& then == Call::Return(hr)
                &&& now.effects(reply) == seq![
                    Effect::Release(dxgi_factory),
                    Effect::Release(dxgi_adapter),
                    Effect::Release(dxgi_device),
                ] + (if context != 0 {
                    seq![Effect::Release(context)]
                } else {
                    Seq::empty()
                }) + seq![Effect::Release(device)]
            }
        }),
{
    lemma_history(request, replies);
    let held = after(begun(request), replies).held();
    let (device, context) = (held[0], held[1]);
    let (dxgi_device, dxgi_adapter, dxgi_factory) = (held[2], held[3], held[4]);
    law_drops_go_from_the_youngest(Seq::empty(), device);
    law_drops_go_from_the_youngest(Seq::empty(), context);
    law_drops_go_from_the_youngest(Seq::empty(), dxgi_device);
    law_drops_go_from_the_youngest(Seq::empty(), dxgi_adapter);
    law_drops_go_from_the_youngest(Seq::empty(), dxgi_factory);
    lemma_drops_listed(device, context, dxgi_device, dxgi_adapter, dxgi_factory);
    lemma_drops_listed(dxgi_device, dxgi_adapter, dxgi_factory, 0, 0);
    lemma_hand_over_written_out(request, device, context);
    assert(held =~= seq![device, context, dxgi_device, dxgi_adapter, dxgi_factory]);
    assert(seq![Effect::Release(dxgi_factory)] + seq![Effect::Release(dxgi_adapter)] + seq![
        Effect::Release(dxgi_device),
    ] =~= seq![
        Effect::Release(dxgi_factory),
        Effect::Release(dxgi_adapter),
        Effect::Release(dxgi_device),
    ]);
}

/// Whenever success is returned, exactly these stores have been made for the caller:
/// the device that was made, once, at `pp_device`, if that is not null, and after it
/// its context, once, at `pp_immediate_context`, if that is not null. Which other
/// arguments the caller gave plays no part.
pub proof fn law_success_stores_device_and_context(
    request: SwapChainRequest,
    replies: Seq<Reply>,
)
    requires
        accepted(begun(request), replies),
        after(begun(request), replies).pending() matches Call::Return(hr) && hr >= 0,
    ensures
        ({
            let calls = calls_made(begun(request), replies);
            let n = replies.len() as int;
            let made = if request.pp_swap_chain == 0 {
                n - 1
            } else {
                n - 5
            };
            &&& made >= 0
            &&& calls[made] is CreateOn12
            &&& replies[made] matches Reply::DeviceAndContext { hr, device, context }
            &&& hr >= 0
            &&& stores(effects_of(begun(request), replies)) == (if request.pp_device != 0 {
                seq![Effect::Write { slot: request.pp_device, object: device }]
            } else {
                Seq::empty()
            }) + (if request.pp_immediate_context != 0 {
                seq![Effect::Write { slot: request.pp_immediate_context, object: context }]
            } else {
                Seq::empty()
            })
        }),
{
    lemma_history(request, replies);
}

} // verus!
