use d3d11on12_proxy::abi::{IID_IDXGI_ADAPTER, IID_IDXGI_DEVICE, IID_IDXGI_FACTORY};
use d3d11on12_proxy::com::Effect;
use d3d11on12_proxy::hresult::{E_FAIL, E_INVALIDARG, S_OK};
use d3d11on12_proxy::protocol::{Call, CopyOf, Outputs, Protocol, Reply};
use d3d11on12_proxy::swap_chain::{D3D11CreateDeviceAndSwapChain, SwapChainCreation};

fn begin(
    p_desc: usize,
    pp_swap_chain: usize,
    pp_device: usize,
    pp_immediate_context: usize,
) -> SwapChainCreation {
    D3D11CreateDeviceAndSwapChain(
        0xada0,
        1,
        0,
        0x20,
        0xfe00,
        2,
        7,
        p_desc,
        pp_swap_chain,
        pp_device,
        0xfe10,
        pp_immediate_context,
    )
}

fn give(creation: SwapChainCreation, reply: Reply) -> (SwapChainCreation, Vec<Effect>) {
    assert!(creation.can_take(&reply));
    creation.step(reply)
}

fn quietly(creation: SwapChainCreation, replies: &[Reply]) -> SwapChainCreation {
    let mut creation = creation;
    for reply in replies {
        let (next, effects) = give(creation, *reply);
        assert_eq!(effects, vec![]);
        creation = next;
    }
    creation
}

fn ok(object: usize) -> Reply {
    Reply::Object { hr: 0, object }
}

fn failed(hr: i32) -> Reply {
    Reply::Object { hr, object: 0 }
}

/// A creation up to the call of `D3D11On12CreateDevice`.
fn up_to_on12(creation: SwapChainCreation) -> SwapChainCreation {
    quietly(
        creation,
        &[Reply::Proc(Some(0x12)), Reply::Proc(Some(0x1112)), ok(0xd12), ok(0x90e)],
    )
}

fn d3d12_given_back() -> Vec<Effect> {
    vec![Effect::Release(0x90e), Effect::Release(0xd12)]
}

/// What follows when a swap chain is wanted for the device.
fn description_copied() -> Vec<Effect> {
    let mut effects = d3d12_given_back();
    effects.push(Effect::Copy { address: 0xde5c });
    effects
}

/// A creation whose device and context stand at 0xd11 and 0xc11.
fn with_device(creation: SwapChainCreation) -> (SwapChainCreation, Vec<Effect>) {
    give(
        up_to_on12(creation),
        Reply::DeviceAndContext { hr: 0, device: 0xd11, context: 0xc11 },
    )
}

/// A creation that wants everything, up to the call that makes the swap chain.
fn up_to_swap_chain(pp_device: usize, pp_context: usize) -> SwapChainCreation {
    let (creation, effects) = with_device(begin(0xde5c, 0x5c00, pp_device, pp_context));
    assert_eq!(effects, description_copied());
    quietly(creation, &[ok(0xd6d), ok(0xd6a), ok(0xd6f)])
}

#[test]
fn swap_chain_without_description_is_refused() {
    let creation = begin(0, 0x5c00, 0xde00, 0xc000);
    assert_eq!(creation.call(), Call::Return(E_INVALIDARG));
    assert!(!creation.can_take(&Reply::Proc(None)));
    assert_eq!(E_INVALIDARG as u32, 0x80070057);
}

#[test]
fn description_without_swap_chain_is_accepted() {
    let (creation, effects) = with_device(begin(0xde5c, 0, 0xde00, 0xc000));
    let mut expected = d3d12_given_back();
    expected.push(Effect::Write { slot: 0xde00, object: 0xd11 });
    expected.push(Effect::Write { slot: 0xc000, object: 0xc11 });
    assert_eq!(effects, expected);
    assert_eq!(creation.call(), Call::Return(S_OK));
}

#[test]
fn device_goes_into_local_variables_first() {
    let creation = up_to_on12(begin(0, 0, 0xde00, 0xc000));
    assert_eq!(
        creation.call(),
        Call::CreateOn12 {
            proc: 0x1112,
            device: 0xd12,
            flags: 0x20,
            p_feature_levels: 0xfe00,
            feature_levels: 2,
            queue: 0x90e,
            num_queues: 1,
            node_mask: 0,
            outputs: Outputs::Local,
            p_chosen_feature_level: 0xfe10,
        }
    );
}

#[test]
fn device_failure_is_passed_on() {
    let (creation, effects) = give(
        up_to_on12(begin(0xde5c, 0x5c00, 0xde00, 0xc000)),
        Reply::DeviceAndContext { hr: -9, device: 0, context: 0 },
    );
    assert_eq!(effects, d3d12_given_back());
    assert_eq!(creation.call(), Call::Return(-9));

    let (creation, _) = give(begin(0xde5c, 0x5c00, 0xde00, 0xc000), Reply::Proc(None));
    assert_eq!(creation.call(), Call::Return(E_FAIL));
}

#[test]
fn whole_chain_is_walked() {
    let (creation, effects) = with_device(begin(0xde5c, 0x5c00, 0xde00, 0xc000));
    assert_eq!(effects, description_copied());
    assert_eq!(
        creation.call(),
        Call::QueryInterface { this: 0xd11, iid: IID_IDXGI_DEVICE }
    );
    assert_eq!(creation.call().vtable_slot(), Some(0));
    let creation = quietly(creation, &[ok(0xd6d)]);
    assert_eq!(creation.call(), Call::GetParent { this: 0xd6d, iid: IID_IDXGI_ADAPTER });
    assert_eq!(creation.call().vtable_slot(), Some(6));
    let creation = quietly(creation, &[ok(0xd6a)]);
    assert_eq!(creation.call(), Call::GetParent { this: 0xd6a, iid: IID_IDXGI_FACTORY });
    let creation = quietly(creation, &[ok(0xd6f)]);
    assert_eq!(
        creation.call(),
        Call::CreateSwapChain {
            this: 0xd6f,
            device: 0xd11,
            desc: CopyOf { address: 0xde5c },
            pp_swap_chain: 0x5c00,
        }
    );
    assert_eq!(creation.call().vtable_slot(), Some(10));
    let (creation, effects) = give(creation, Reply::Status { hr: 1 });
    assert_eq!(
        effects,
        vec![
            Effect::Release(0xd6f),
            Effect::Release(0xd6a),
            Effect::Release(0xd6d),
            Effect::Write { slot: 0xde00, object: 0xd11 },
            Effect::Write { slot: 0xc000, object: 0xc11 },
        ]
    );
    assert_eq!(creation.call(), Call::Return(S_OK));
}

#[test]
fn unwanted_outputs_are_released() {
    let dxgi = vec![Effect::Release(0xd6f), Effect::Release(0xd6a), Effect::Release(0xd6d)];
    let (_, effects) = give(up_to_swap_chain(0, 0), Reply::Status { hr: 0 });
    let mut expected = dxgi.clone();
    expected.push(Effect::Release(0xc11));
    expected.push(Effect::Release(0xd11));
    assert_eq!(effects, expected);

    let (_, effects) = give(up_to_swap_chain(0xde00, 0), Reply::Status { hr: 0 });
    let mut expected = dxgi.clone();
    expected.push(Effect::Write { slot: 0xde00, object: 0xd11 });
    expected.push(Effect::Release(0xc11));
    assert_eq!(effects, expected);

    let (_, effects) = give(up_to_swap_chain(0, 0xc000), Reply::Status { hr: 0 });
    let mut expected = dxgi;
    expected.push(Effect::Write { slot: 0xc000, object: 0xc11 });
    expected.push(Effect::Release(0xd11));
    assert_eq!(effects, expected);
}

#[test]
fn failure_to_reach_the_factory_is_an_invalid_argument() {
    let objects = [0xd6d, 0xd6a, 0xd6f];
    for fail_at in 0..3 {
        let (mut creation, _) = with_device(begin(0xde5c, 0x5c00, 0xde00, 0xc000));
        let mut expected = vec![Effect::Release(0xc11), Effect::Release(0xd11)];
        for object in &objects[..fail_at] {
            creation = quietly(creation, &[ok(*object)]);
            expected.insert(0, Effect::Release(*object));
        }
        let (creation, effects) = give(creation, failed(-2147467262));
        assert_eq!(effects, expected);
        assert_eq!(creation.call(), Call::Return(E_INVALIDARG));
    }
}

#[test]
fn failed_swap_chain_gives_its_status_and_all_back() {
    let (creation, effects) = give(up_to_swap_chain(0xde00, 0xc000), Reply::Status { hr: -11 });
    assert_eq!(
        effects,
        vec![
            Effect::Release(0xd6f),
            Effect::Release(0xd6a),
            Effect::Release(0xd6d),
            Effect::Release(0xc11),
            Effect::Release(0xd11),
        ]
    );
    assert_eq!(creation.call(), Call::Return(-11));
}

#[test]
fn null_device_is_handed_over_as_null() {
    let creation = up_to_on12(begin(0, 0, 0xde00, 0));
    let (creation, effects) =
        give(creation, Reply::DeviceAndContext { hr: 0, device: 0, context: 0 });
    let mut expected = d3d12_given_back();
    expected.push(Effect::Write { slot: 0xde00, object: 0 });
    assert_eq!(effects, expected);
    assert_eq!(creation.call(), Call::Return(S_OK));
}

#[test]
fn methods_need_an_object() {
    let creation = up_to_on12(begin(0xde5c, 0x5c00, 0xde00, 0xc000));
    assert!(!creation.can_take(&Reply::DeviceAndContext { hr: 0, device: 0, context: 1 }));
    assert!(creation.can_take(&Reply::DeviceAndContext { hr: -1, device: 0, context: 0 }));
    assert!(creation.can_take(&Reply::DeviceAndContext { hr: 0, device: 1, context: 0 }));
    let (creation, _) = with_device(begin(0xde5c, 0x5c00, 0xde00, 0xc000));
    assert!(!creation.can_take(&ok(0)));
    assert!(creation.can_take(&failed(-1)));
    assert!(!creation.can_take(&Reply::Status { hr: 0 }));
}

#[test]
fn same_object_twice_is_released_twice() {
    let (creation, _) = with_device(begin(0xde5c, 0x5c00, 0xde00, 0xc000));
    let creation = quietly(creation, &[ok(0xd11), ok(0xd11)]);
    let (_, effects) = give(creation, failed(-1));
    assert_eq!(
        effects,
        vec![
            Effect::Release(0xd11),
            Effect::Release(0xd11),
            Effect::Release(0xc11),
            Effect::Release(0xd11),
        ]
    );
}

fn receiver(call: Call) -> Option<usize> {
    match call {
        Call::EnumWarpAdapter { this, .. }
        | Call::CreateCommandQueue { this, .. }
        | Call::QueryInterface { this, .. }
        | Call::GetParent { this, .. }
        | Call::CreateSwapChain { this, .. } => Some(this),
        _ => None,
    }
}

#[test]
fn longest_conversation_uses_live_objects_and_leaks_none() {
    let replies = [
        Reply::Proc(Some(0x12)),
        Reply::Proc(Some(0x1112)),
        Reply::Module(0xd06),
        Reply::Proc(Some(0xfac2)),
        ok(1),
        ok(2),
        ok(3),
        ok(4),
        Reply::DeviceAndContext { hr: 0, device: 5, context: 6 },
        ok(7),
        ok(8),
        ok(9),
        Reply::Status { hr: 0 },
    ];
    let mut creation = D3D11CreateDeviceAndSwapChain(
        0xada0, 5, 0, 0, 0, 0, 7, 0xde5c, 0x5c00, 0xde00, 0, 0xc000,
    );
    let mut live: Vec<usize> = vec![];
    for reply in replies {
        if let Some(this) = receiver(creation.call()) {
            assert!(live.contains(&this));
        }
        assert_eq!(receiver(creation.call()).is_some(), creation.call().vtable_slot().is_some());
        match reply {
            Reply::Object { object, .. } => live.push(object),
            Reply::DeviceAndContext { device, context, .. } => {
                live.push(device);
                live.push(context);
            }
            _ => {}
        }
        let (next, effects) = give(creation, reply);
        for effect in effects {
            let gone = match effect {
                Effect::Release(object) => object,
                Effect::Write { object, .. } => object,
                Effect::Copy { .. } => continue,
            };
            let at = live.iter().position(|object| *object == gone).unwrap();
            live.remove(at);
        }
        creation = next;
    }
    assert_eq!(live, vec![]);
    assert_eq!(creation.call(), Call::Return(S_OK));
}
