//! Making a Direct3D 11 device on top of a Direct3D 12 device.

use crate::abi::{
    direct_queue_desc, D3D_DRIVER_TYPE_WARP, D3D_FEATURE_LEVEL_11_0, IID_ID3D12_COMMAND_QUEUE,
    IID_ID3D12_DEVICE, IID_IDXGI_ADAPTER, IID_IDXGI_FACTORY4,
};
use crate::com::{ComPtr, Effect};
use crate::entry_points::EntryPoint;
use crate::hresult::{is_err, is_ok, E_FAIL};
use crate::loader::{resolve_from, Library, ProcQuery, Symbol};
use crate::protocol::{Call, Outputs, Protocol, Reply};
use vstd::prelude::*;

#[allow(unused_imports)]
use crate::abi::{direct_queue, CommandQueueDesc, ENUM_WARP_ADAPTER_SLOT};
#[allow(unused_imports)]
use crate::com::{
    copies, drops, handed_over, law_drops_go_from_the_youngest, law_drops_release_what_is_held,
    lemma_drops_listed, lemma_effects_split, lemma_references_listed, references, released, stores,
};
#[allow(unused_imports)]
use crate::hresult::succeeded;
#[allow(unused_imports)]
use crate::protocol::{
    accepted, after, calls_made, effects_of, gained, law_bounded, law_no_leak, lemma_beginning,
};
#[allow(unused_imports)]
use vstd::multiset::Multiset;

verus! {

/// What is asked of the new device.
#[derive(Clone, Copy, Debug, PartialEq, Eq, Structural)]
pub struct DeviceRequest {
    /// The adapter that the caller lends; null for the default one.
    pub p_adapter: usize,
    pub driver_type: i32,
    pub flags: u32,
    pub p_feature_levels: usize,
    pub feature_levels: u32,
    pub outputs: Outputs,
    pub p_chosen_feature_level: usize,
}

/// The two entry points that make a device.
#[derive(Clone, Copy, Debug, PartialEq, Eq, Structural)]
pub struct Procs {
    pub create_device: usize,
    pub on12: usize,
}

/// How far the making of a device has come: each stage waits for one answer.
#[derive(Debug, PartialEq, Eq)]
pub enum DeviceStage {
    FindCreateDevice,
    FindOn12 { create_device: usize },
    LoadDxgi { procs: Procs },
    FindFactory { procs: Procs, dxgi: usize },
    CreateFactory { procs: Procs, create_factory: usize },
    EnumWarp { procs: Procs, factory: ComPtr },
    CreateDevice { procs: Procs, warp: ComPtr },
    CreateQueue { on12: usize, warp: ComPtr, device: ComPtr },
    CreateOn12 { on12: usize, warp: ComPtr, device: ComPtr, queue: ComPtr },
    /// The status to return, and the new device and context where they were
    /// stored in variables of the proxy's own.
    Finished { hr: i32, device: ComPtr, context: ComPtr },
}

/// The making of one device.
#[derive(Debug, PartialEq, Eq)]
pub struct DeviceCreation {
    pub request: DeviceRequest,
    pub stage: DeviceStage,
}

/// The end of a creation that made nothing.
pub open spec fn failed(hr: i32) -> DeviceStage {
    DeviceStage::Finished { hr, device: ComPtr { ptr: 0 }, context: ComPtr { ptr: 0 } }
}

/// The end of the creation when `D3D11On12CreateDevice` answered.
pub open spec fn finished(outputs: Outputs, hr: i32, device: usize, context: usize) -> DeviceStage {
    if outputs is Local && succeeded(hr) {
        DeviceStage::Finished {
            hr,
            device: ComPtr { ptr: device },
            context: ComPtr { ptr: context },
        }
    } else {
        failed(hr)
    }
}

impl DeviceCreation {
    /// The adapter that the Direct3D 12 device is made on: for WARP the one that
    /// was enumerated, null if there was none, else the one that the caller lends.
    pub open spec fn adapter(self, warp: ComPtr) -> usize {
        if self.request.driver_type == D3D_DRIVER_TYPE_WARP {
            warp.ptr
        } else {
            self.request.p_adapter
        }
    }

    /// The stage that follows when `reply` is taken.
    pub open spec fn next(self, reply: Reply) -> DeviceStage {
        match (self.stage, reply) {
            (DeviceStage::FindCreateDevice, Reply::Proc(found)) => match found {
                Some(create_device) => DeviceStage::FindOn12 { create_device },
                None => failed(E_FAIL),
            },
            (DeviceStage::FindOn12 { create_device }, Reply::Proc(found)) => match found {
                Some(on12) => {
                    let procs = Procs { create_device, on12 };
                    if self.request.driver_type == D3D_DRIVER_TYPE_WARP {
                        DeviceStage::LoadDxgi { procs }
                    } else {
                        DeviceStage::CreateDevice { procs, warp: ComPtr { ptr: 0 } }
                    }
                },
                None => failed(E_FAIL),
            },
            (DeviceStage::LoadDxgi { procs }, Reply::Module(dxgi)) => if dxgi != 0 {
                DeviceStage::FindFactory { procs, dxgi }
            } else {
                DeviceStage::CreateDevice { procs, warp: ComPtr { ptr: 0 } }
            },
            (DeviceStage::FindFactory { procs, .. }, Reply::Proc(found)) => match found {
                Some(create_factory) => DeviceStage::CreateFactory { procs, create_factory },
                None => DeviceStage::CreateDevice { procs, warp: ComPtr { ptr: 0 } },
            },
            (DeviceStage::CreateFactory { procs, .. }, Reply::Object { hr, object }) => if succeeded(
                hr,
            ) && object != 0 {
                DeviceStage::EnumWarp { procs, factory: ComPtr { ptr: object } }
            } else {
                DeviceStage::CreateDevice { procs, warp: ComPtr { ptr: 0 } }
            },
            (DeviceStage::EnumWarp { procs, .. }, Reply::Object { object, .. }) => {
                DeviceStage::CreateDevice { procs, warp: ComPtr { ptr: object } }
            },
            (DeviceStage::CreateDevice { procs, warp }, Reply::Object { hr, object }) => if succeeded(
                hr,
            ) {
                DeviceStage::CreateQueue { on12: procs.on12, warp, device: ComPtr { ptr: object } }
            } else {
                failed(hr)
            },
            (DeviceStage::CreateQueue { on12, warp, device }, Reply::Object { hr, object }) => {
                if succeeded(hr) {
                    DeviceStage::CreateOn12 { on12, warp, device, queue: ComPtr { ptr: object } }
                } else {
                    failed(hr)
                }
            },
            (
                DeviceStage::CreateOn12 { .. },
                Reply::DeviceAndContext { hr, device, context },
            ) => finished(self.request.outputs, hr, device, context),
            (stage, _) => stage,
        }
    }
}

/// The making of a device before the first answer.
pub open spec fn begun(request: DeviceRequest) -> DeviceCreation {
    DeviceCreation { request, stage: DeviceStage::FindCreateDevice }
}

/// Begins the making of a device.
pub fn create_d3d11on12_device(request: DeviceRequest) -> (creation: DeviceCreation)
    ensures
        creation == begun(request),
        creation.inv(),
{
    DeviceCreation { request, stage: DeviceStage::FindCreateDevice }
}

/// Begins the making of a device for a caller of `D3D11CreateDevice`; the device
/// and the context go straight into the caller's variables. The software module
/// and the SDK version play no part.
#[allow(non_snake_case)]
pub fn D3D11CreateDevice(
    p_adapter: usize,
    driver_type: i32,
    _software: usize,
    flags: u32,
    p_feature_levels: usize,
    feature_levels: u32,
    _sdk_version: u32,
    pp_device: usize,
    p_feature_level: usize,
    pp_immediate_context: usize,
) -> (creation: DeviceCreation)
    ensures
        creation == begun(
            DeviceRequest {
                p_adapter,
                driver_type,
                flags,
                p_feature_levels,
                feature_levels,
                outputs: Outputs::Caller { device: pp_device, context: pp_immediate_context },
                p_chosen_feature_level: p_feature_level,
            },
        ),
        creation.inv(),
{
    create_d3d11on12_device(
        DeviceRequest {
            p_adapter,
            driver_type,
            flags,
            p_feature_levels,
            feature_levels,
            outputs: Outputs::Caller { device: pp_device, context: pp_immediate_context },
            p_chosen_feature_level: p_feature_level,
        },
    )
}

/// Ends the making of a device with a failure.
fn fail(hr: i32) -> (stage: DeviceStage)
    ensures
        stage == failed(hr),
{
    DeviceStage::Finished { hr, device: ComPtr::null(), context: ComPtr::null() }
}

impl Protocol for DeviceCreation {
    open spec fn inv(self) -> bool {
        match self.stage {
            DeviceStage::LoadDxgi { .. } | DeviceStage::CreateFactory { .. } => {
                self.request.driver_type == D3D_DRIVER_TYPE_WARP
            },
            DeviceStage::FindFactory { dxgi, .. } => {
                &&& self.request.driver_type == D3D_DRIVER_TYPE_WARP
                &&& dxgi != 0
            },
            DeviceStage::EnumWarp { factory, .. } => {
                &&& self.request.driver_type == D3D_DRIVER_TYPE_WARP
                &&& factory.ptr != 0
            },
            DeviceStage::CreateDevice { warp, .. } => {
                self.request.driver_type != D3D_DRIVER_TYPE_WARP ==> warp.ptr == 0
            },
            DeviceStage::CreateQueue { warp, device, .. }
            | DeviceStage::CreateOn12 { warp, device, .. } => {
                &&& self.request.driver_type != D3D_DRIVER_TYPE_WARP ==> warp.ptr == 0
                &&& device.ptr != 0
            },
            DeviceStage::Finished { hr, device, context } => {
                !(self.request.outputs is Local && succeeded(hr)) ==> device.ptr == 0
                    && context.ptr == 0
            },
            _ => true,
        }
    }

    open spec fn pending(self) -> Call {
        match self.stage {
            DeviceStage::FindCreateDevice => Call::EntryPoint(EntryPoint::D3D12CreateDevice),
            DeviceStage::FindOn12 { .. } => Call::EntryPoint(EntryPoint::D3D11On12CreateDevice),
            DeviceStage::LoadDxgi { .. } => Call::LoadLibrary(Library::Dxgi),
            DeviceStage::FindFactory { dxgi, .. } => Call::GetProcAddress(
                ProcQuery { module: dxgi, symbol: Symbol::CreateDXGIFactory2 },
            ),
            DeviceStage::CreateFactory { create_factory, .. } => Call::CreateFactory {
                proc: create_factory,
                flags: 0,
                iid: IID_IDXGI_FACTORY4,
            },
            DeviceStage::EnumWarp { factory, .. } => Call::EnumWarpAdapter {
                this: factory.ptr,
                iid: IID_IDXGI_ADAPTER,
            },
            DeviceStage::CreateDevice { procs, warp } => Call::CreateDevice {
                proc: procs.create_device,
                adapter: self.adapter(warp),
                minimum_feature_level: D3D_FEATURE_LEVEL_11_0,
                iid: IID_ID3D12_DEVICE,
            },
            DeviceStage::CreateQueue { device, .. } => Call::CreateCommandQueue {
                this: device.ptr,
                queue_desc: direct_queue(),
                iid: IID_ID3D12_COMMAND_QUEUE,
            },
            DeviceStage::CreateOn12 { on12, device, queue, .. } => Call::CreateOn12 {
                proc: on12,
                device: device.ptr,
                flags: self.request.flags,
                p_feature_levels: self.request.p_feature_levels,
                feature_levels: self.request.feature_levels,
                queue: queue.ptr,
                num_queues: 1,
                node_mask: 0,
                outputs: self.request.outputs,
                p_chosen_feature_level: self.request.p_chosen_feature_level,
            },
            DeviceStage::Finished { hr, .. } => Call::Return(hr),
        }
    }

    open spec fn accepts(self, reply: Reply) -> bool {
        match self.stage {
            DeviceStage::FindCreateDevice
            | DeviceStage::FindOn12 { .. }
            | DeviceStage::FindFactory { .. } => reply is Proc,
            DeviceStage::LoadDxgi { .. } => reply is Module,
            DeviceStage::CreateFactory { .. }
            | DeviceStage::EnumWarp { .. }
            | DeviceStage::CreateQueue { .. } => reply is Object,
            DeviceStage::CreateDevice { .. } => {
                reply matches Reply::Object { hr, object } && (succeeded(hr) ==> object != 0)
            },
            DeviceStage::CreateOn12 { .. } => reply is DeviceAndContext,
            DeviceStage::Finished { .. } => false,
        }
    }

    open spec fn advance(self, reply: Reply) -> DeviceCreation {
        DeviceCreation { request: self.request, stage: self.next(reply) }
    }

    open spec fn effects(self, reply: Reply) -> Seq<Effect> {
        if self.stage is EnumWarp || self.next(reply) is Finished {
            drops(self.held())
        } else {
            Seq::empty()
        }
    }

    open spec fn held(self) -> Seq<usize> {
        match self.stage {
            DeviceStage::EnumWarp { factory, .. } => seq![factory.ptr],
            DeviceStage::CreateDevice { warp, .. } => seq![warp.ptr],
            DeviceStage::CreateQueue { warp, device, .. } => seq![warp.ptr, device.ptr],
            DeviceStage::CreateOn12 { warp, device, queue, .. } => {
                seq![warp.ptr, device.ptr, queue.ptr]
            },
            DeviceStage::Finished { device, context, .. } => seq![device.ptr, context.ptr],
            _ => Seq::empty(),
        }
    }

    open spec fn lent(self) -> Set<usize> {
        set![self.request.p_adapter]
    }

    open spec fn rank(self) -> nat {
        match self.stage {
            DeviceStage::FindCreateDevice => 9,
            DeviceStage::FindOn12 { .. } => 8,
            DeviceStage::LoadDxgi { .. } => 7,
            DeviceStage::FindFactory { .. } => 6,
            DeviceStage::CreateFactory { .. } => 5,
            DeviceStage::EnumWarp { .. } => 4,
            DeviceStage::CreateDevice { .. } => 3,
            DeviceStage::CreateQueue { .. } => 2,
            DeviceStage::CreateOn12 { .. } => 1,
            DeviceStage::Finished { .. } => 0,
        }
    }

    fn call(&self) -> (call: Call) {
        match &self.stage {
            DeviceStage::FindCreateDevice => Call::EntryPoint(EntryPoint::D3D12CreateDevice),
            DeviceStage::FindOn12 { .. } => Call::EntryPoint(EntryPoint::D3D11On12CreateDevice),
            DeviceStage::LoadDxgi { .. } => Call::LoadLibrary(Library::Dxgi),
            DeviceStage::FindFactory { dxgi, .. } => Call::GetProcAddress(
                ProcQuery { module: *dxgi, symbol: Symbol::CreateDXGIFactory2 },
            ),
            DeviceStage::CreateFactory { create_factory, .. } => Call::CreateFactory {
                proc: *create_factory,
                flags: 0,
                iid: IID_IDXGI_FACTORY4,
            },
            DeviceStage::EnumWarp { factory, .. } => Call::EnumWarpAdapter {
                this: factory.as_ptr(),
                iid: IID_IDXGI_ADAPTER,
            },
            DeviceStage::CreateDevice { procs, warp } => Call::CreateDevice {
                proc: procs.create_device,
                adapter: if self.request.driver_type == D3D_DRIVER_TYPE_WARP {
                    warp.as_ptr()
                } else {
                    self.request.p_adapter
                },
                minimum_feature_level: D3D_FEATURE_LEVEL_11_0,
                iid: IID_ID3D12_DEVICE,
            },
            DeviceStage::CreateQueue { device, .. } => Call::CreateCommandQueue {
                this: device.as_ptr(),
                queue_desc: direct_queue_desc(),
                iid: IID_ID3D12_COMMAND_QUEUE,
            },
            DeviceStage::CreateOn12 { on12, device, queue, .. } => Call::CreateOn12 {
                proc: *on12,
                device: device.as_ptr(),
                flags: self.request.flags,
                p_feature_levels: self.request.p_feature_levels,
                feature_levels: self.request.feature_levels,
                queue: queue.as_ptr(),
                num_queues: 1,
                node_mask: 0,
                outputs: self.request.outputs,
                p_chosen_feature_level: self.request.p_chosen_feature_level,
            },
            DeviceStage::Finished { hr, .. } => Call::Return(*hr),
        }
    }

    fn can_take(&self, reply: &Reply) -> (ok: bool) {
        match (&self.stage, reply) {
            (DeviceStage::FindCreateDevice, Reply::Proc(_)) => true,
            (DeviceStage::FindOn12 { .. }, Reply::Proc(_)) => true,
            (DeviceStage::FindFactory { .. }, Reply::Proc(_)) => true,
            (DeviceStage::LoadDxgi { .. }, Reply::Module(_)) => true,
            (DeviceStage::CreateFactory { .. }, Reply::Object { .. }) => true,
            (DeviceStage::EnumWarp { .. }, Reply::Object { .. }) => true,
            (DeviceStage::CreateDevice { .. }, Reply::Object { hr, object }) => {
                is_err(*hr) || *object != 0
            },
            (DeviceStage::CreateQueue { .. }, Reply::Object { .. }) => true,
            (DeviceStage::CreateOn12 { .. }, Reply::DeviceAndContext { .. }) => true,
            _ => false,
        }
    }

    fn step(self, reply: Reply) -> (next: (DeviceCreation, Vec<Effect>)) {
        proof {
            self.lemma_step(reply);
        }
        let request = self.request;
        let mut effects: Vec<Effect> = Vec::new();
        let stage = match (self.stage, reply) {
            (DeviceStage::FindCreateDevice, Reply::Proc(found)) => match found {
                Some(create_device) => DeviceStage::FindOn12 { create_device },
                None => fail(E_FAIL),
            },
            (DeviceStage::FindOn12 { create_device }, Reply::Proc(found)) => match found {
                Some(on12) => {
                    let procs = Procs { create_device, on12 };
                    if request.driver_type == D3D_DRIVER_TYPE_WARP {
                        DeviceStage::LoadDxgi { procs }
                    } else {
                        DeviceStage::CreateDevice { procs, warp: ComPtr::null() }
                    }
                },
                None => fail(E_FAIL),
            },
            (DeviceStage::LoadDxgi { procs }, Reply::Module(dxgi)) => {
                match resolve_from(dxgi, Symbol::CreateDXGIFactory2) {
                    Some(query) => DeviceStage::FindFactory { procs, dxgi: query.module },
                    None => DeviceStage::CreateDevice { procs, warp: ComPtr::null() },
                }
            },
            (DeviceStage::FindFactory { procs, .. }, Reply::Proc(found)) => match found {
                Some(create_factory) => DeviceStage::CreateFactory { procs, create_factory },
                None => DeviceStage::CreateDevice { procs, warp: ComPtr::null() },
            },
            (DeviceStage::CreateFactory { procs, .. }, Reply::Object { hr, object }) => {
                if is_ok(hr) && object != 0 {
                    DeviceStage::EnumWarp { procs, factory: ComPtr::new(object) }
                } else {
                    DeviceStage::CreateDevice { procs, warp: ComPtr::null() }
                }
            },
            (DeviceStage::EnumWarp { procs, factory }, Reply::Object { object, .. }) => {
                factory.drop(&mut effects);
                DeviceStage::CreateDevice { procs, warp: ComPtr::new(object) }
            },
            (DeviceStage::CreateDevice { procs, warp }, Reply::Object { hr, object }) => {
                if is_err(hr) {
                    warp.drop(&mut effects);
                    fail(hr)
                } else {
                    DeviceStage::CreateQueue {
                        on12: procs.on12,
                        warp,
                        device: ComPtr::new(object),
                    }
                }
            },
            (DeviceStage::CreateQueue { on12, warp, device }, Reply::Object { hr, object }) => {
                if is_err(hr) {
                    proof {
                        lemma_drops_listed(warp.ptr, device.ptr, 0, 0, 0);
                    }
                    device.drop(&mut effects);
                    warp.drop(&mut effects);
                    fail(hr)
                } else {
                    DeviceStage::CreateOn12 { on12, warp, device, queue: ComPtr::new(object) }
                }
            },
            (
                DeviceStage::CreateOn12 { warp, device: d3d12_device, queue, .. },
                Reply::DeviceAndContext { hr, device, context },
            ) => {
                proof {
                    lemma_drops_listed(warp.ptr, d3d12_device.ptr, queue.ptr, 0, 0);
                }
                queue.drop(&mut effects);
                d3d12_device.drop(&mut effects);
                warp.drop(&mut effects);
                match request.outputs {
                    Outputs::Local => if is_err(hr) {
                        fail(hr)
                    } else {
                        DeviceStage::Finished {
                            hr,
                            device: ComPtr::new(device),
                            context: ComPtr::new(context),
                        }
                    },
                    Outputs::Caller { .. } => fail(hr),
                }
            },
            (stage, _) => stage,
        };
        (DeviceCreation { request, stage }, effects)
    }

    proof fn lemma_step(self, reply: Reply) {
        law_drops_release_what_is_held(self.held());
        assert(released(Seq::empty()) == Multiset::<usize>::empty());
        assert(handed_over(Seq::empty()) == Multiset::<usize>::empty());
        lemma_references_listed(0, 0, 0, 0, 0);
        match self.stage {
            DeviceStage::EnumWarp { factory, .. } => {
                lemma_references_listed(factory.ptr, 0, 0, 0, 0);
            },
            DeviceStage::CreateDevice { warp, .. } => {
                lemma_references_listed(warp.ptr, 0, 0, 0, 0);
            },
            DeviceStage::CreateQueue { warp, device, .. } => {
                lemma_references_listed(warp.ptr, device.ptr, 0, 0, 0);
            },
            DeviceStage::CreateOn12 { warp, device, queue, .. } => {
                lemma_references_listed(warp.ptr, device.ptr, queue.ptr, 0, 0);
            },
            _ => {},
        }
        match self.next(reply) {
            DeviceStage::EnumWarp { factory, .. } => {
                lemma_references_listed(factory.ptr, 0, 0, 0, 0);
            },
            DeviceStage::CreateDevice { warp, .. } => {
                lemma_references_listed(warp.ptr, 0, 0, 0, 0);
            },
            DeviceStage::CreateQueue { warp, device, .. } => {
                lemma_references_listed(warp.ptr, device.ptr, 0, 0, 0);
            },
            DeviceStage::CreateOn12 { warp, device, queue, .. } => {
                lemma_references_listed(warp.ptr, device.ptr, queue.ptr, 0, 0);
            },
            DeviceStage::Finished { device, context, .. } => {
                lemma_references_listed(device.ptr, context.ptr, 0, 0, 0);
            },
            _ => {},
        }
        let before = references(self.held()).add(self.pending().gains(reply));
        let now = references(self.advance(reply).held()).add(released(self.effects(reply))).add(
            handed_over(self.effects(reply)),
        );
        assert(before =~= now);
    }

    proof fn lemma_pending(self) {
        match self.stage {
            DeviceStage::FindCreateDevice
            | DeviceStage::FindOn12 { .. }
            | DeviceStage::FindFactory { .. } => {
                assert(self.accepts(Reply::Proc(None)));
            },
            DeviceStage::LoadDxgi { .. } => {
                assert(self.accepts(Reply::Module(0)));
            },
            DeviceStage::CreateOn12 { .. } => {
                assert(self.accepts(Reply::DeviceAndContext { hr: E_FAIL, device: 0, context: 0 }));
            },
            DeviceStage::Finished { .. } => {},
            _ => {
                assert(self.accepts(Reply::Object { hr: E_FAIL, object: 0 }));
            },
        }
        let held = self.held();
        match self.stage {
            DeviceStage::EnumWarp { .. } => {
                assert(held[0] == self.pending().receiver()->0);
            },
            DeviceStage::CreateDevice { warp, .. } => {
                assert(held[0] == warp.ptr);
            },
            DeviceStage::CreateQueue { device, .. } => {
                assert(held[1] == device.ptr);
            },
            DeviceStage::CreateOn12 { device, queue, .. } => {
                assert(held[1] == device.ptr);
                assert(held[2] == queue.ptr);
            },
            _ => {},
        }
    }
}

/// The status that an answer brings; a missing entry point counts as `E_FAIL`.
pub open spec fn status_of(reply: Reply) -> i32 {
    match reply {
        Reply::Object { hr, .. } => hr,
        Reply::DeviceAndContext { hr, .. } => hr,
        Reply::Status { hr } => hr,
        _ => E_FAIL,
    }
}

/// Whether `calls[n - 1]` made a Direct3D 11 device on top of a Direct3D 12
/// device: `D3D12CreateDevice` made the device at `calls[n - 3]`, that device made
/// its queue at `calls[n - 2]`, and `D3D11On12CreateDevice` was given both, with
/// what the caller asked for.
pub open spec fn backed_by_d3d12(
    request: DeviceRequest,
    calls: Seq<Call>,
    replies: Seq<Reply>,
    n: int,
) -> bool {
    &&& 5 <= n <= calls.len()
    &&& calls.len() == replies.len()
    &&& calls[0] == Call::EntryPoint(EntryPoint::D3D12CreateDevice)
    &&& calls[1] == Call::EntryPoint(EntryPoint::D3D11On12CreateDevice)
    &&& replies[0] matches Reply::Proc(Some(create_device))
    &&& replies[1] matches Reply::Proc(Some(on12))
    &&& calls[n - 3] matches Call::CreateDevice { proc, minimum_feature_level, iid, .. }
    &&& proc == create_device
    &&& minimum_feature_level == D3D_FEATURE_LEVEL_11_0
    &&& iid == IID_ID3D12_DEVICE
    &&& replies[n - 3] matches Reply::Object { hr: device_hr, object: device }
    &&& succeeded(device_hr)
    &&& device != 0
    &&& calls[n - 2] == (Call::CreateCommandQueue {
        this: device,
        queue_desc: direct_queue(),
        iid: IID_ID3D12_COMMAND_QUEUE,
    })
    &&& replies[n - 2] matches Reply::Object { hr: queue_hr, object: queue }
    &&& succeeded(queue_hr)
    &&& calls[n - 1] == (Call::CreateOn12 {
        proc: on12,
        device,
        flags: request.flags,
        p_feature_levels: request.p_feature_levels,
        feature_levels: request.feature_levels,
        queue,
        num_queues: 1,
        node_mask: 0,
        outputs: request.outputs,
        p_chosen_feature_level: request.p_chosen_feature_level,
    })
    &&& replies[n - 1] is DeviceAndContext
}

/// The adapter that `call` enumerated, null where it is no enumeration.
pub open spec fn enumerated(call: Call, reply: Reply) -> usize {
    match (call, reply) {
        (Call::EnumWarpAdapter { .. }, Reply::Object { object, .. }) => object,
        _ => 0,
    }
}

/// What the stage tells of the conversation so far.
spec fn history(now: DeviceCreation, calls: Seq<Call>, replies: Seq<Reply>) -> bool {
    let n = replies.len() as int;
    let warp_wanted = now.request.driver_type == D3D_DRIVER_TYPE_WARP;
    let found_first = n >= 1 && calls[0] == Call::EntryPoint(EntryPoint::D3D12CreateDevice);
    let found_both = found_first && n >= 2 && calls[1] == Call::EntryPoint(
        EntryPoint::D3D11On12CreateDevice,
    );
    let dxgi_asked = n >= 3 && calls[2] == Call::LoadLibrary(Library::Dxgi);
    &&& calls.len() == n
    &&& match now.stage {
        DeviceStage::FindCreateDevice => n == 0,
        DeviceStage::FindOn12 { create_device } => {
            n == 1 && found_first && replies[0] == Reply::Proc(Some(create_device))
        },
        DeviceStage::LoadDxgi { procs } => {
            n == 2 && found_both && found_procs(procs, replies)
        },
        DeviceStage::FindFactory { procs, .. } => {
            n == 3 && found_both && found_procs(procs, replies) && dxgi_asked
        },
        DeviceStage::CreateFactory { procs, .. } => {
            n == 4 && found_both && found_procs(procs, replies) && dxgi_asked
        },
        DeviceStage::EnumWarp { procs, .. } => {
            n == 5 && found_both && found_procs(procs, replies) && dxgi_asked
        },
        DeviceStage::CreateDevice { procs, warp } => {
            &&& found_both && found_procs(procs, replies)
            &&& if warp_wanted {
                &&& dxgi_asked
                &&& warp.ptr == enumerated(calls[n - 1], replies[n - 1])
            } else {
                n == 2
            }
        },
        DeviceStage::CreateQueue { on12, warp, device } => {
            &&& found_both && n >= 3
            &&& calls[n - 1] matches Call::CreateDevice { adapter, .. }
            &&& warp_wanted ==> warp.ptr == adapter
            &&& replies[0] matches Reply::Proc(Some(create_device))
            &&& replies[1] == Reply::Proc(Some(on12))
            &&& device_was_made(create_device, device.ptr, calls[n - 1], replies[n - 1])
        },
        DeviceStage::CreateOn12 { on12, warp, device, queue } => {
            &&& found_both && n >= 4
            &&& calls[n - 2] matches Call::CreateDevice { adapter, .. }
            &&& warp_wanted ==> warp.ptr == adapter
            &&& replies[0] matches Reply::Proc(Some(create_device))
            &&& replies[1] == Reply::Proc(Some(on12))
            &&& device_was_made(create_device, device.ptr, calls[n - 2], replies[n - 2])
            &&& calls[n - 1] == (Call::CreateCommandQueue {
                this: device.ptr,
                queue_desc: direct_queue(),
                iid: IID_ID3D12_COMMAND_QUEUE,
            })
            &&& replies[n - 1] matches Reply::Object { hr, object }
            &&& succeeded(hr) && object == queue.ptr
        },
        DeviceStage::Finished { hr, device, context } => {
            &&& n >= 1
            &&& hr == status_of(replies[n - 1])
            &&& replies[n - 1] is Proc ==> n <= 2
            &&& succeeded(hr) ==> backed_by_d3d12(now.request, calls, replies, n)
            &&& now.stage == finished(
                now.request.outputs,
                hr,
                replies[n - 1]->DeviceAndContext_device,
                replies[n - 1]->DeviceAndContext_context,
            ) || !succeeded(hr)
        },
    }
}

/// Whether the two entry points are what the first two answers brought.
spec fn found_procs(procs: Procs, replies: Seq<Reply>) -> bool {
    &&& replies[0] == Reply::Proc(Some(procs.create_device))
    &&& replies[1] == Reply::Proc(Some(procs.on12))
}

/// Whether a call of the entry point `create_device` made the Direct3D 12 device
/// at `device`.
spec fn device_was_made(create_device: usize, device: usize, call: Call, reply: Reply) -> bool {
    &&& call matches Call::CreateDevice { proc, minimum_feature_level, iid, .. }
    &&& proc == create_device
    &&& minimum_feature_level == D3D_FEATURE_LEVEL_11_0
    &&& iid == IID_ID3D12_DEVICE
    &&& reply matches Reply::Object { hr, object }
    &&& succeeded(hr) && object == device && device != 0
}

/// Every reachable stage tells the truth about the conversation so far.
proof fn lemma_history(request: DeviceRequest, replies: Seq<Reply>)
    requires
        accepted(begun(request), replies),
    ensures
        after(begun(request), replies).inv(),
        after(begun(request), replies).request == request,
        history(
            after(begun(request), replies),
            calls_made(begun(request), replies),
            replies,
        ),
    decreases replies.len(),
{
    if replies.len() > 0 {
        let before = replies.drop_last();
        lemma_history(request, before);
        let mid = after(begun(request), before);
        mid.lemma_step(replies.last());
        let calls = calls_made(begun(request), replies);
        assert(calls.drop_last() =~= calls_made(begun(request), before));
        assert(forall|i: int| 0 <= i < before.len() ==> before[i] == replies[i]);
        assert(calls.last() == mid.pending());
    }
}

/// Every device that is made is backed by a Direct3D 12 device: where the making
/// succeeds, its last three calls made the Direct3D 12 device, its command queue,
/// and on both of them the Direct3D 11 device.
pub proof fn law_device_is_backed_by_d3d12(request: DeviceRequest, replies: Seq<Reply>)
    requires
        accepted(begun(request), replies),
    ensures
        after(begun(request), replies).pending() matches Call::Return(hr) && succeeded(hr)
            ==> backed_by_d3d12(
            request,
            calls_made(begun(request), replies),
            replies,
            replies.len() as int,
        ),
{
    lemma_history(request, replies);
}

/// The caller is told the status of the call that ended the making, or `E_FAIL`
/// where an entry point is missing.
pub proof fn law_device_status(request: DeviceRequest, replies: Seq<Reply>)
    requires
        accepted(begun(request), replies),
    ensures
        after(begun(request), replies).pending() matches Call::Return(hr) ==> replies.len() > 0
            && hr == status_of(replies.last()),
{
    lemma_history(request, replies);
}

/// Where an entry point is missing nothing has been made yet, so there is nothing
/// to give back: the caller is told `E_FAIL`, and that is all.
pub proof fn law_missing_entry_point_makes_nothing(request: DeviceRequest, replies: Seq<Reply>)
    requires
        accepted(begun(request), replies),
        after(begun(request), replies).pending() is Return,
        replies.last() is Proc,
    ensures
        after(begun(request), replies).pending() == Call::Return(E_FAIL),
        forall|i: int|
            0 <= i < replies.len() ==> (#[trigger] calls_made(
                begun(request),
                replies,
            )[i]) is EntryPoint,
        gained(begun(request), replies) == Multiset::<usize>::empty(),
        effects_of(begun(request), replies) == Seq::<Effect>::empty(),
{
    let start = begun(request);
    lemma_history(request, replies);
    reveal_with_fuel(after, 3);
    reveal_with_fuel(accepted, 3);
    reveal_with_fuel(calls_made, 3);
    reveal_with_fuel(gained, 3);
    reveal_with_fuel(effects_of, 3);
    assert(gained(start, replies) =~= Multiset::<usize>::empty());
    assert(effects_of(start, replies) =~= Seq::<Effect>::empty());
}

/// A WARP device is asked of DXGI, and any other is not. The Direct3D 12 device of
/// a WARP device is made on the adapter that was just enumerated, or on the default
/// one where none was; any other is made on the adapter that the caller
/// lends.
pub proof fn law_adapter_follows_driver_type(request: DeviceRequest, replies: Seq<Reply>)
    requires
        accepted(begun(request), replies),
    ensures
        after(begun(request), replies).pending() matches Call::CreateDevice { adapter, .. } ==> {
            let calls = calls_made(begun(request), replies);
            if request.driver_type == D3D_DRIVER_TYPE_WARP {
                &&& calls.len() > 2 && calls[2] == Call::LoadLibrary(Library::Dxgi)
                &&& adapter == enumerated(calls.last(), replies.last())
            } else {
                &&& adapter == request.p_adapter
                &&& calls == seq![
                    Call::EntryPoint(EntryPoint::D3D12CreateDevice),
                    Call::EntryPoint(EntryPoint::D3D11On12CreateDevice),
                ]
            }
        },
{
    lemma_history(request, replies);
}

/// Once the WARP adapter was enumerated, the Direct3D 12 device is made on it next,
/// whatever adapter the caller lends.
pub proof fn law_enumerated_adapter_is_used(request: DeviceRequest, replies: Seq<Reply>)
    requires
        accepted(begun(request), replies),
        replies.len() > 0,
        calls_made(begun(request), replies).last() is EnumWarpAdapter,
    ensures
        request.driver_type == D3D_DRIVER_TYPE_WARP,
        replies[0] matches Reply::Proc(Some(create_device)) && (replies.last() matches Reply::Object {
            object,
            ..
        } && after(begun(request), replies).pending() == (Call::CreateDevice {
            proc: create_device,
            adapter: object,
            minimum_feature_level: D3D_FEATURE_LEVEL_11_0,
            iid: IID_ID3D12_DEVICE,
        })),
{
    lemma_history(request, replies.drop_last());
    lemma_history(request, replies);
}

/// The adapter that the caller lends plays no part in the making of a WARP device:
/// with another one, the same answers lead to the same calls, effects and status.
pub proof fn law_warp_ignores_the_lent_adapter(
    request: DeviceRequest,
    p_adapter: usize,
    replies: Seq<Reply>,
)
    requires
        request.driver_type == D3D_DRIVER_TYPE_WARP,
        accepted(begun(request), replies),
    ensures
        ({
            let other = DeviceRequest { p_adapter, ..request };
            &&& accepted(begun(other), replies)
            &&& calls_made(begun(other), replies) == calls_made(begun(request), replies)
            &&& effects_of(begun(other), replies) == effects_of(begun(request), replies)
            &&& after(begun(other), replies).pending() == after(begun(request), replies).pending()
            &&& after(begun(other), replies).stage == after(begun(request), replies).stage
        }),
    decreases replies.len(),
{
    let other = DeviceRequest { p_adapter, ..request };
    lemma_request_is_kept(request, replies);
    lemma_request_is_kept(other, replies);
    if replies.len() > 0 {
        let before = replies.drop_last();
        law_warp_ignores_the_lent_adapter(request, p_adapter, before);
        lemma_request_is_kept(request, before);
        lemma_request_is_kept(other, before);
    }
}

/// What was asked for stays the same all along.
proof fn lemma_request_is_kept(request: DeviceRequest, replies: Seq<Reply>)
    ensures
        after(begun(request), replies).request == request,
    decreases replies.len(),
{
    if replies.len() > 0 {
        lemma_request_is_kept(request, replies.drop_last());
    }
}

/// Once a call has been made, the stages up to it lie behind.
proof fn lemma_made_lies_behind(request: DeviceRequest, replies: Seq<Reply>, i: int)
    requires
        accepted(begun(request), replies),
        0 <= i < replies.len(),
    ensures
        calls_made(begun(request), replies).len() == replies.len(),
        calls_made(begun(request), replies)[i] is CreateDevice ==> after(
            begun(request),
            replies,
        ).rank() < 3,
        calls_made(begun(request), replies)[i] is CreateCommandQueue ==> after(
            begun(request),
            replies,
        ).rank() < 2,
        calls_made(begun(request), replies)[i] is CreateOn12 ==> after(
            begun(request),
            replies,
        ).rank() < 1,
    decreases replies.len(),
{
    let before = replies.drop_last();
    lemma_history(request, before);
    after(begun(request), before).lemma_step(replies.last());
    if i < before.len() {
        lemma_made_lies_behind(request, before, i);
    }
}

/// No device is made twice: of the calls that make the Direct3D 12 device, its
/// command queue and the Direct3D 11 device, each is made at most once, so that
/// there is never a second device to be given back.
pub proof fn law_each_object_is_made_once(
    request: DeviceRequest,
    replies: Seq<Reply>,
    i: int,
    j: int,
)
    requires
        accepted(begun(request), replies),
        0 <= i < j < replies.len(),
    ensures
        ({
            let calls = calls_made(begun(request), replies);
            &&& calls[i] is CreateDevice ==> !(calls[j] is CreateDevice)
            &&& calls[i] is CreateCommandQueue ==> !(calls[j] is CreateCommandQueue)
            &&& calls[i] is CreateOn12 ==> !(calls[j] is CreateOn12)
        }),
    decreases replies.len(),
{
    let before = replies.drop_last();
    lemma_history(request, before);
    if j < before.len() {
        law_each_object_is_made_once(request, before, i, j);
    } else {
        lemma_made_lies_behind(request, before, i);
    }
}

/// Where a WARP device is wanted and DXGI makes the factory at `f`, that factory's
/// `EnumWarpAdapter` is called next, and `D3D12CreateDevice` after it, on the adapter
/// that was enumerated, whatever adapter the caller lends; and this is the only call
/// of `D3D12CreateDevice` that is made.
pub proof fn law_warp_device_is_made_on_the_warp_adapter(
    request: DeviceRequest,
    replies: Seq<Reply>,
    i: int,
    f: usize,
)
    requires
        accepted(begun(request), replies),
        after(begun(request), replies).pending() is Return,
        0 <= i < replies.len(),
        calls_made(begun(request), replies)[i] is CreateFactory,
        replies[i] matches Reply::Object { hr, object } && succeeded(hr) && object == f && f != 0,
    ensures
        request.driver_type == D3D_DRIVER_TYPE_WARP,
        i + 2 < replies.len(),
        calls_made(begun(request), replies)[i] matches Call::CreateFactory { flags, iid, .. }
            && flags == 0 && iid == IID_IDXGI_FACTORY4,
        calls_made(begun(request), replies)[i + 1] == (Call::EnumWarpAdapter {
            this: f,
            iid: IID_IDXGI_ADAPTER,
        }),
        calls_made(begun(request), replies)[i + 1].slot() == Some(ENUM_WARP_ADAPTER_SLOT),
        replies[i + 1] matches Reply::Object { object: w, .. } && (calls_made(
            begun(request),
            replies,
        )[i + 2] matches Call::CreateDevice { adapter, .. } && adapter == w),
        forall|k: int|
            0 <= k < replies.len() && k != i + 2 ==> !((#[trigger] calls_made(
                begun(request),
                replies,
            )[k]) is CreateDevice),
{
    let start = begun(request);
    let calls = calls_made(start, replies);
    lemma_beginning(start, replies, i);
    lemma_history(request, replies.take(i));
    lemma_beginning(start, replies, i + 1);
    if i + 1 == replies.len() {
        assert(replies.take(i + 1) =~= replies);
    }
    lemma_beginning(start, replies, i + 2);
    if i + 2 == replies.len() {
        assert(replies.take(i + 2) =~= replies);
    }
    lemma_request_is_kept(request, replies.take(i + 2));
    assert forall|k: int|
        0 <= k < replies.len() && k != i + 2 implies !((#[trigger] calls[k]) is CreateDevice) by {
        if k < i + 2 {
            law_each_object_is_made_once(request, replies, k, i + 2);
        } else {
            law_each_object_is_made_once(request, replies, i + 2, k);
        }
    }
}

/// `D3D11CreateDevice` keeps nothing: whatever the answers are, every reference
/// that the making gained has been released when it returns, and it hands none
/// over, for the device and the context go straight to the caller.
pub proof fn law_create_device_leaks_nothing(request: DeviceRequest, replies: Seq<Reply>)
    requires
        request.outputs is Caller,
        accepted(begun(request), replies),
        after(begun(request), replies).pending() is Return,
    ensures
        released(effects_of(begun(request), replies)) == gained(begun(request), replies),
        handed_over(effects_of(begun(request), replies)) == Multiset::<usize>::empty(),
        stores(effects_of(begun(request), replies)) == Seq::<Effect>::empty(),
{
    let start = begun(request);
    lemma_history(request, replies);
    lemma_references_listed(0, 0, 0, 0, 0);
    assert(references(start.held()) =~= Multiset::<usize>::empty());
    assert(references(after(start, replies).held()) =~= Multiset::<usize>::empty());
    law_no_leak(start, replies);
    lemma_nothing_handed_over(start, replies);
    assert(released(effects_of(start, replies)).add(Multiset::<usize>::empty()) =~= released(
        effects_of(start, replies),
    ));
}

/// The making of a device never stores or copies anything itself.
pub proof fn lemma_nothing_handed_over(start: DeviceCreation, replies: Seq<Reply>)
    ensures
        handed_over(effects_of(start, replies)) == Multiset::<usize>::empty(),
        stores(effects_of(start, replies)) == Seq::<Effect>::empty(),
        copies(effects_of(start, replies)) == Seq::<Effect>::empty(),
    decreases replies.len(),
{
    if replies.len() > 0 {
        let before = replies.drop_last();
        lemma_nothing_handed_over(start, before);
        let mid = after(start, before);
        law_drops_release_what_is_held(mid.held());
        lemma_effects_split(effects_of(start, before), mid.effects(replies.last()));
        assert(handed_over(effects_of(start, replies)) =~= Multiset::<usize>::empty());
        assert(stores(effects_of(start, replies)) =~= Seq::<Effect>::empty());
        assert(copies(effects_of(start, replies)) =~= Seq::<Effect>::empty());
    }
}

/// The making of a device needs at most nine answers.
pub proof fn law_device_needs_nine_answers(request: DeviceRequest, replies: Seq<Reply>)
    requires
        accepted(begun(request), replies),
    ensures
        replies.len() <= 9,
        replies.len() == 9 ==> after(begun(request), replies).pending() is Return,
{
    law_bounded(begun(request), replies);
    lemma_history(request, replies);
}

/// The making of a device begins with the search for `D3D12CreateDevice`, whatever is
/// asked for.
pub proof fn law_making_begins_with_d3d12(request: DeviceRequest)
    ensures
        begun(request).pending() == Call::EntryPoint(EntryPoint::D3D12CreateDevice),
{
}

/// Every answer that a call can have is taken, whatever is asked for: an address or none
/// to a search, a handle or null to the loading of a library, any status and object to
/// the other calls. The one exception is a success of `D3D12CreateDevice` without a
/// device. Once the status is returned, nothing is taken any more.
pub proof fn law_every_answer_is_taken(
    request: DeviceRequest,
    replies: Seq<Reply>,
    reply: Reply,
)
    requires
        accepted(begun(request), replies),
    ensures
        ({
            let now = after(begun(request), replies);
            let calls = calls_made(begun(request), replies);
            &&& now.accepts(reply) <==> match now.pending() {
                Call::EntryPoint(_) => reply is Proc,
                Call::GetProcAddress(_) => reply is Proc,
                Call::LoadLibrary(_) => reply is Module,
                Call::CreateFactory { .. } => reply is Object,
                Call::EnumWarpAdapter { .. } => reply is Object,
                Call::CreateDevice { .. } => reply is Object && !(reply->Object_hr >= 0
                    && reply->Object_object == 0),
                Call::CreateCommandQueue { .. } => reply is Object,
                Call::CreateOn12 { .. } => reply is DeviceAndContext,
                _ => false,
            }
            &&& !(now.pending() is QueryInterface || now.pending() is GetParent
                || now.pending() is CreateSwapChain || now.pending() is Forwarded)
            &&& calls.len() == replies.len()
        }),
{
    lemma_history(request, replies);
}

/// Once `D3D12CreateDevice` was looked for, `D3D11On12CreateDevice` is looked for next,
/// wherever the first was found; only where it was not, the making fails, with `E_FAIL`.
pub proof fn law_second_search_follows_the_first(
    request: DeviceRequest,
    replies: Seq<Reply>,
    reply: Reply,
)
    requires
        accepted(begun(request), replies),
        after(begun(request), replies).pending() == Call::EntryPoint(EntryPoint::D3D12CreateDevice),
        after(begun(request), replies).accepts(reply),
    ensures
        ({
            let now = after(begun(request), replies);
            let then = now.advance(reply).pending();
            &&& replies.len() == 0
            &&& reply is Proc
            &&& reply->Proc_0 is Some ==> then == Call::EntryPoint(EntryPoint::D3D11On12CreateDevice)
            &&& reply->Proc_0 is None ==> then == Call::Return(E_FAIL)
            &&& now.effects(reply) == Seq::<Effect>::empty()
        }),
{
    lemma_history(request, replies);
}

/// Once both entry points were found, the making goes on: to DXGI for a WARP device, and
/// for any other to `D3D12CreateDevice`, on the adapter that the caller lends, be it null
/// or not. Only where the second was not found it fails, with `E_FAIL`.
pub proof fn law_found_entry_points_are_used(
    request: DeviceRequest,
    replies: Seq<Reply>,
    reply: Reply,
)
    requires
        accepted(begun(request), replies),
        after(begun(request), replies).pending() == Call::EntryPoint(EntryPoint::D3D11On12CreateDevice),
        after(begun(request), replies).accepts(reply),
    ensures
        ({
            let now = after(begun(request), replies);
            let then = now.advance(reply).pending();
            &&& replies.len() == 1
            &&& replies[0] matches Reply::Proc(Some(create_device))
            &&& reply is Proc
            &&& reply->Proc_0 is Some && request.driver_type == 5 ==> then == Call::LoadLibrary(
                Library::Dxgi,
            )
            &&& reply->Proc_0 is Some && request.driver_type != 5 ==> then == (Call::CreateDevice {
                proc: create_device,
                adapter: request.p_adapter,
                minimum_feature_level: 0xb000,
                iid: IID_ID3D12_DEVICE,
            })
            &&& reply->Proc_0 is None ==> then == Call::Return(E_FAIL)
            &&& now.effects(reply) == Seq::<Effect>::empty()
        }),
{
    lemma_history(request, replies);
}

/// For a WARP device `dxgi.dll` is loaded, and loaded at any handle it is asked for
/// `CreateDXGIFactory2`; the default adapter is used only where it could not be loaded.
pub proof fn law_loaded_dxgi_is_asked(
    request: DeviceRequest,
    replies: Seq<Reply>,
    reply: Reply,
)
    requires
        accepted(begun(request), replies),
        after(begun(request), replies).pending() is LoadLibrary,
        after(begun(request), replies).accepts(reply),
    ensures
        ({
            let now = after(begun(request), replies);
            let then = now.advance(reply).pending();
            &&& request.driver_type == 5
            &&& now.pending() == Call::LoadLibrary(Library::Dxgi)
            &&& replies.len() == 2
            &&& replies[0] matches Reply::Proc(Some(create_device))
            &&& reply matches Reply::Module(dxgi)
            &&& dxgi != 0 ==> then == Call::GetProcAddress(
                ProcQuery { module: dxgi, symbol: Symbol::CreateDXGIFactory2 },
            )
            &&& dxgi == 0 ==> then == (Call::CreateDevice {
                proc: create_device,
                adapter: 0,
                minimum_feature_level: 0xb000,
                iid: IID_ID3D12_DEVICE,
            })
            &&& now.effects(reply) == Seq::<Effect>::empty()
        }),
{
    lemma_history(request, replies);
}

/// `CreateDXGIFactory2` is called wherever it was found; the default adapter is used only
/// where it was not.
pub proof fn law_found_factory_function_is_called(
    request: DeviceRequest,
    replies: Seq<Reply>,
    reply: Reply,
)
    requires
        accepted(begun(request), replies),
        after(begun(request), replies).pending() is GetProcAddress,
        after(begun(request), replies).accepts(reply),
    ensures
        ({
            let now = after(begun(request), replies);
            let then = now.advance(reply).pending();
            &&& request.driver_type == 5
            &&& replies.len() == 3
            &&& replies[0] matches Reply::Proc(Some(create_device))
            &&& reply is Proc
            &&& reply matches Reply::Proc(Some(create_factory)) ==> then == (Call::CreateFactory {
                proc: create_factory,
                flags: 0,
                iid: IID_IDXGI_FACTORY4,
            })
            &&& reply == Reply::Proc(None) ==> then == (Call::CreateDevice {
                proc: create_device,
                adapter: 0,
                minimum_feature_level: 0xb000,
                iid: IID_ID3D12_DEVICE,
            })
            &&& now.effects(reply) == Seq::<Effect>::empty()
        }),
{
    lemma_history(request, replies);
}

/// The WARP adapter is asked of every factory that was made; the default adapter is used
/// only where none was.
pub proof fn law_made_factory_is_asked(
    request: DeviceRequest,
    replies: Seq<Reply>,
    reply: Reply,
)
    requires
        accepted(begun(request), replies),
        after(begun(request), replies).pending() is CreateFactory,
        after(begun(request), replies).accepts(reply),
    ensures
        ({
            let now = after(begun(request), replies);
            let then = now.advance(reply).pending();
            &&& request.driver_type == 5
            &&& replies.len() == 4
            &&& replies[0] matches Reply::Proc(Some(create_device))
            &&& reply matches Reply::Object { hr, object: factory }
            &&& hr >= 0 && factory != 0 ==> then == (Call::EnumWarpAdapter {
                this: factory,
                iid: IID_IDXGI_ADAPTER,
            })
            &&& hr < 0 || factory == 0 ==> then == (Call::CreateDevice {
                proc: create_device,
                adapter: 0,
                minimum_feature_level: 0xb000,
                iid: IID_ID3D12_DEVICE,
            })
            &&& now.effects(reply) == Seq::<Effect>::empty()
        }),
{
    lemma_history(request, replies);
}

/// The Direct3D 12 device of a WARP device is made on whatever adapter the enumeration
/// left, and the factory is given back before.
pub proof fn law_enumeration_gives_the_adapter(
    request: DeviceRequest,
    replies: Seq<Reply>,
    reply: Reply,
)
    requires
        accepted(begun(request), replies),
        after(begun(request), replies).pending() is EnumWarpAdapter,
        after(begun(request), replies).accepts(reply),
    ensures
        ({
            let now = after(begun(request), replies);
            let then = now.advance(reply).pending();
            &&& request.driver_type == 5
            &&& replies.len() == 5
            &&& replies[0] matches Reply::Proc(Some(create_device))
            &&& now.pending() matches Call::EnumWarpAdapter { this: factory, .. }
            &&& reply matches Reply::Object { object: adapter, .. }
            &&& then == (Call::CreateDevice {
                proc: create_device,
                adapter,
                minimum_feature_level: 0xb000,
                iid: IID_ID3D12_DEVICE,
            })
            &&& now.effects(reply) == seq![Effect::Release(factory)]
        }),
{
    lemma_history(request, replies);
    let factory = after(begun(request), replies).held()[0];
    law_drops_go_from_the_youngest(Seq::empty(), factory);
}

/// Every Direct3D 12 device that is made is asked for its queue. Only a failure to make it
/// ends the making, with the status of that failure, and then an enumerated adapter is
/// given back; one that the caller lends is not.
pub proof fn law_made_device_is_given_a_queue(
    request: DeviceRequest,
    replies: Seq<Reply>,
    reply: Reply,
)
    requires
        accepted(begun(request), replies),
        after(begun(request), replies).pending() is CreateDevice,
        after(begun(request), replies).accepts(reply),
    ensures
        ({
            let now = after(begun(request), replies);
            let then = now.advance(reply).pending();
            &&& now.pending() matches Call::CreateDevice { adapter, .. }
            &&& reply matches Reply::Object { hr, object: device }
            &&& hr >= 0 ==> {
                &&& then == (Call::CreateCommandQueue {
                    this: device,
                    queue_desc: CommandQueueDesc { list_type: 0, priority: 0, flags: 0, node_mask: 0 },
                    iid: IID_ID3D12_COMMAND_QUEUE,
                })
                &&& now.effects(reply) == Seq::<Effect>::empty()
            }
            &&& hr < 0 ==> {
                &&& then == Call::Return(hr)
                &&& now.effects(reply) == (if request.driver_type == 5 && adapter != 0 {
                    seq![Effect::Release(adapter)]
                } else {
                    Seq::empty()
                })
            }
        }),
{
    lemma_history(request, replies);
    let warp = after(begun(request), replies).held()[0];
    law_drops_go_from_the_youngest(Seq::empty(), warp);
}

/// On every device that has its queue the Direct3D 11 device is made, with what the caller
/// asked for, unchanged. Only a failure to make the queue ends the making, with the
/// status of that failure, and then the device is given back, and an enumerated adapter
/// after it.
pub proof fn law_queue_is_built_upon(
    request: DeviceRequest,
    replies: Seq<Reply>,
    reply: Reply,
)
    requires
        accepted(begun(request), replies),
        after(begun(request), replies).pending() is CreateCommandQueue,
        after(begun(request), replies).accepts(reply),
    ensures
        ({
            let now = after(begun(request), replies);
            let calls = calls_made(begun(request), replies);
            let then = now.advance(reply).pending();
            &&& now.pending() matches Call::CreateCommandQueue { this: device, .. }
            &&& replies.len() >= 3
            &&& replies[1] matches Reply::Proc(Some(on12))
            &&& calls.last() matches Call::CreateDevice { adapter, .. }
            &&& reply matches Reply::Object { hr, object: queue }
            &&& hr >= 0 ==> {
                &&& then == (Call::CreateOn12 {
                    proc: on12,
                    device,
                    flags: request.flags,
                    p_feature_levels: request.p_feature_levels,
                    feature_levels: request.feature_levels,
                    queue,
                    num_queues: 1,
                    node_mask: 0,
                    outputs: request.outputs,
                    p_chosen_feature_level: request.p_chosen_feature_level,
                })
                &&& now.effects(reply) == Seq::<Effect>::empty()
            }
            &&& hr < 0 ==> {
                &&& then == Call::Return(hr)
                &&& now.effects(reply) == seq![Effect::Release(device)] + (if request.driver_type == 5
                    && adapter != 0 {
                    seq![Effect::Release(adapter)]
                } else {
                    Seq::empty()
                })
            }
        }),
{
    lemma_history(request, replies);
    let held = after(begun(request), replies).held();
    lemma_drops_listed(held[0], held[1], 0, 0, 0);
    law_drops_go_from_the_youngest(Seq::empty(), held[0]);
    law_drops_go_from_the_youngest(Seq::empty(), held[1]);
    assert(held =~= seq![held[0], held[1]]);
}

/// Whatever status `D3D11On12CreateDevice` answers is returned as it is, and all that was
/// made for it is given back: the queue, the device and an enumerated adapter, in this
/// order.
pub proof fn law_last_status_is_returned(
    request: DeviceRequest,
    replies: Seq<Reply>,
    reply: Reply,
)
    requires
        accepted(begun(request), replies),
        after(begun(request), replies).pending() is CreateOn12,
        after(begun(request), replies).accepts(reply),
    ensures
        ({
            let now = after(begun(request), replies);
            let calls = calls_made(begun(request), replies);
            let then = now.advance(reply).pending();
            &&& now.pending() matches Call::CreateOn12 { device, queue, .. }
            &&& replies.len() >= 4
            &&& calls[calls.len() - 2] matches Call::CreateDevice { adapter, .. }
            &&& reply matches Reply::DeviceAndContext { hr, .. }
            &&& then == Call::Return(hr)
            &&& now.effects(reply) == (if queue != 0 {
                seq![Effect::Release(queue)]
            } else {
                Seq::empty()
            }) + seq![Effect::Release(device)] + (if request.driver_type == 5 && adapter != 0 {
                seq![Effect::Release(adapter)]
            } else {
                Seq::empty()
            })
        }),
{
    lemma_history(request, replies);
    let held = after(begun(request), replies).held();
    lemma_drops_listed(held[0], held[1], held[2], 0, 0);
    law_drops_go_from_the_youngest(Seq::empty(), held[0]);
    law_drops_go_from_the_youngest(Seq::empty(), held[1]);
    law_drops_go_from_the_youngest(Seq::empty(), held[2]);
    assert(held =~= seq![held[0], held[1], held[2]]);
}

/// The making returns only where there is a reason: an entry point was answered to be
/// missing, the Direct3D 12 device or its queue could not be made, or
/// `D3D11On12CreateDevice` answered. So where both entry points were found,
/// `D3D12CreateDevice` has been called before the making returns.
pub proof fn law_making_returns_only_for_a_reason(request: DeviceRequest, replies: Seq<Reply>)
    requires
        accepted(begun(request), replies),
        after(begun(request), replies).pending() is Return,
    ensures
        ({
            let calls = calls_made(begun(request), replies);
            let n = replies.len() as int;
            &&& n > 0
            &&& {
                ||| calls.last() is EntryPoint && replies.last() == Reply::Proc(None)
                ||| calls.last() is CreateDevice && replies.last() is Object
                    && replies.last()->Object_hr < 0
                ||| calls.last() is CreateCommandQueue && replies.last() is Object
                    && replies.last()->Object_hr < 0
                ||| calls.last() is CreateOn12 && replies.last() is DeviceAndContext
            }
            &&& replies.last() is Proc ==> replies.last() == Reply::Proc(None)
            &&& n >= 2 && replies[0] != Reply::Proc(None) && replies[1] != Reply::Proc(None)
                ==> exists|i: int| 2 <= i < n && (#[trigger] calls[i]) is CreateDevice
        }),
{
    let start = begun(request);
    let before = replies.drop_last();
    let calls = calls_made(start, replies);
    let n = replies.len() as int;
    lemma_history(request, replies);
    lemma_history(request, before);
    assert(forall|i: int| 0 <= i < before.len() ==> before[i] == replies[i]);
    assert(calls.drop_last() =~= calls_made(start, before));
    assert(forall|i: int| 0 <= i < n - 1 ==> calls[i] == calls_made(start, before)[i]);
    match after(start, before).stage {
        DeviceStage::CreateDevice { .. } => {
            assert(calls[n - 1] is CreateDevice);
        },
        DeviceStage::CreateQueue { .. } => {
            assert(calls[n - 2] is CreateDevice);
        },
        DeviceStage::CreateOn12 { .. } => {
            assert(calls[n - 3] is CreateDevice);
        },
        _ => {},
    }
}

/// A WARP device is made on the default adapter only where there is no other: where
/// `dxgi.dll` could not be loaded, where it lacks `CreateDXGIFactory2`, where no
/// factory was made, or where the enumeration left no adapter.
pub proof fn law_default_adapter_is_the_last_resort(request: DeviceRequest, replies: Seq<Reply>)
    requires
        accepted(begun(request), replies),
        request.driver_type == 5,
        after(begun(request), replies).pending() matches Call::CreateDevice { adapter, .. }
            && adapter == 0,
    ensures
        replies.len() > 2,
        calls_made(begun(request), replies).last() is LoadLibrary ==> replies.last()
            == Reply::Module(0),
        calls_made(begun(request), replies).last() is GetProcAddress ==> replies.last()
            == Reply::Proc(None),
        calls_made(begun(request), replies).last() is CreateFactory ==> replies.last() is Object
            && (replies.last()->Object_hr < 0 || replies.last()->Object_object == 0),
        calls_made(begun(request), replies).last() is EnumWarpAdapter ==> replies.last() is Object
            && replies.last()->Object_object == 0,
        ({
            let last = calls_made(begun(request), replies).last();
            last is LoadLibrary || last is GetProcAddress || last is CreateFactory
                || last is EnumWarpAdapter
        }),
{
    lemma_history(request, replies);
    lemma_history(request, replies.drop_last());
    lemma_beginning(begun(request), replies, replies.len() - 1);
    assert(replies.take(replies.len() - 1) =~= replies.drop_last());
}

} // verus!
