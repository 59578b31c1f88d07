use d3d11on12_proxy::abi::{
    direct_queue_desc, CommandQueueDesc, CREATE_COMMAND_QUEUE_SLOT, CREATE_SWAP_CHAIN_SLOT,
    D3D_DRIVER_TYPE_WARP, D3D_FEATURE_LEVEL_11_0, ENUM_WARP_ADAPTER_SLOT, GET_PARENT_SLOT,
    IID_ID3D12_COMMAND_QUEUE, IID_ID3D12_DEVICE, IID_IDXGI_ADAPTER, IID_IDXGI_FACTORY4,
    QUERY_INTERFACE_SLOT, RELEASE_SLOT,
};
use d3d11on12_proxy::com::{ComPtr, Effect};
use d3d11on12_proxy::device::{create_d3d11on12_device, D3D11CreateDevice, DeviceCreation, DeviceRequest};
use d3d11on12_proxy::entry_points::EntryPoint;
use d3d11on12_proxy::hresult::E_FAIL;
use d3d11on12_proxy::loader::{Library, ProcQuery, Symbol};
use d3d11on12_proxy::protocol::{Call, Outputs, Protocol, Reply};

const HARDWARE: i32 = 1;
const DEVICE_REMOVED: i32 = -2005270523;

fn begin(driver_type: i32) -> DeviceCreation {
    D3D11CreateDevice(0xada0, driver_type, 0x50f7, 0x20, 0xfe00, 3, 7, 0xde00, 0xfe10, 0xc000)
}

fn give(creation: DeviceCreation, reply: Reply) -> (DeviceCreation, Vec<Effect>) {
    assert!(creation.can_take(&reply));
    creation.step(reply)
}

/// Gives answers that call for nothing to be done.
fn quietly(creation: DeviceCreation, replies: &[Reply]) -> DeviceCreation {
    let mut creation = creation;
    for reply in replies {
        let (next, effects) = give(creation, *reply);
        assert_eq!(effects, vec![]);
        creation = next;
    }
    creation
}

fn ok(object: usize) -> Reply {
    Reply::Object { hr: 0, object }
}

fn failed(hr: i32) -> Reply {
    Reply::Object { hr, object: 0 }
}

fn procs() -> [Reply; 2] {
    [Reply::Proc(Some(0x12)), Reply::Proc(Some(0x1112))]
}

/// A WARP creation up to the call that makes the Direct3D 12 device.
fn with_warp(adapter: Reply) -> DeviceCreation {
    let creation = quietly(begin(D3D_DRIVER_TYPE_WARP), &procs());
    let creation = quietly(
        creation,
        &[Reply::Module(0xd06), Reply::Proc(Some(0xfac2)), ok(0xfac7)],
    );
    let (creation, effects) = give(creation, adapter);
    assert_eq!(effects, vec![Effect::Release(0xfac7)]);
    creation
}

#[test]
fn hardware_device_is_made_in_five_calls() {
    let creation = begin(HARDWARE);
    assert_eq!(creation.call(), Call::EntryPoint(EntryPoint::D3D12CreateDevice));
    let creation = quietly(creation, &[Reply::Proc(Some(0x12))]);
    assert_eq!(creation.call(), Call::EntryPoint(EntryPoint::D3D11On12CreateDevice));
    let creation = quietly(creation, &[Reply::Proc(Some(0x1112))]);
    assert_eq!(
        creation.call(),
        Call::CreateDevice {
            proc: 0x12,
            adapter: 0xada0,
            minimum_feature_level: D3D_FEATURE_LEVEL_11_0,
            iid: IID_ID3D12_DEVICE,
        }
    );
    let creation = quietly(creation, &[ok(0xd12)]);
    assert_eq!(
        creation.call(),
        Call::CreateCommandQueue {
            this: 0xd12,
            queue_desc: direct_queue_desc(),
            iid: IID_ID3D12_COMMAND_QUEUE,
        }
    );
    assert_eq!(creation.call().vtable_slot(), Some(8));
    let creation = quietly(creation, &[ok(0x90e)]);
    assert_eq!(
        creation.call(),
        Call::CreateOn12 {
            proc: 0x1112,
            device: 0xd12,
            flags: 0x20,
            p_feature_levels: 0xfe00,
            feature_levels: 3,
            queue: 0x90e,
            num_queues: 1,
            node_mask: 0,
            outputs: Outputs::Caller { device: 0xde00, context: 0xc000 },
            p_chosen_feature_level: 0xfe10,
        }
    );
    assert_eq!(creation.call().vtable_slot(), None);
    let (creation, effects) =
        give(creation, Reply::DeviceAndContext { hr: 0, device: 0, context: 0 });
    assert_eq!(effects, vec![Effect::Release(0x90e), Effect::Release(0xd12)]);
    assert_eq!(creation.call(), Call::Return(0));
}

#[test]
fn success_codes_other_than_zero_are_successes() {
    let creation = quietly(
        quietly(begin(HARDWARE), &procs()),
        &[Reply::Object { hr: 1, object: 0xd12 }, Reply::Object { hr: 1, object: 0x90e }],
    );
    let (creation, effects) =
        give(creation, Reply::DeviceAndContext { hr: 1, device: 0, context: 0 });
    assert_eq!(effects, vec![Effect::Release(0x90e), Effect::Release(0xd12)]);
    assert_eq!(creation.call(), Call::Return(1));
}

#[test]
fn missing_entry_points_fail_with_e_fail() {
    let (creation, effects) = give(begin(HARDWARE), Reply::Proc(None));
    assert_eq!(effects, vec![]);
    assert_eq!(creation.call(), Call::Return(E_FAIL));

    let creation = quietly(begin(D3D_DRIVER_TYPE_WARP), &[Reply::Proc(Some(0x12))]);
    let (creation, effects) = give(creation, Reply::Proc(None));
    assert_eq!(effects, vec![]);
    assert_eq!(creation.call(), Call::Return(E_FAIL));
    assert_eq!(E_FAIL as u32, 0x80004005);
}

#[test]
fn failed_device_gives_its_status() {
    let creation = quietly(begin(HARDWARE), &procs());
    let (creation, effects) = give(creation, failed(DEVICE_REMOVED));
    assert_eq!(effects, vec![]);
    assert_eq!(creation.call(), Call::Return(DEVICE_REMOVED));
}

#[test]
fn failed_queue_releases_the_device() {
    let creation = quietly(quietly(begin(HARDWARE), &procs()), &[ok(0xd12)]);
    let (creation, effects) = give(creation, failed(-1));
    assert_eq!(effects, vec![Effect::Release(0xd12)]);
    assert_eq!(creation.call(), Call::Return(-1));
}

#[test]
fn failed_on12_releases_queue_and_device() {
    let creation = quietly(quietly(begin(HARDWARE), &procs()), &[ok(0xd12), ok(0x90e)]);
    let (creation, effects) =
        give(creation, Reply::DeviceAndContext { hr: -2, device: 0, context: 0 });
    assert_eq!(effects, vec![Effect::Release(0x90e), Effect::Release(0xd12)]);
    assert_eq!(creation.call(), Call::Return(-2));
}

#[test]
fn null_queue_is_not_released() {
    let creation = quietly(quietly(begin(HARDWARE), &procs()), &[ok(0xd12), ok(0)]);
    let (_, effects) = give(creation, Reply::DeviceAndContext { hr: 0, device: 0, context: 0 });
    assert_eq!(effects, vec![Effect::Release(0xd12)]);
}

#[test]
fn warp_device_uses_the_enumerated_adapter() {
    let creation = quietly(begin(D3D_DRIVER_TYPE_WARP), &procs());
    assert_eq!(creation.call(), Call::LoadLibrary(Library::Dxgi));
    let creation = quietly(creation, &[Reply::Module(0xd06)]);
    assert_eq!(
        creation.call(),
        Call::GetProcAddress(ProcQuery { module: 0xd06, symbol: Symbol::CreateDXGIFactory2 })
    );
    let creation = quietly(creation, &[Reply::Proc(Some(0xfac2))]);
    assert_eq!(
        creation.call(),
        Call::CreateFactory { proc: 0xfac2, flags: 0, iid: IID_IDXGI_FACTORY4 }
    );
    let creation = quietly(creation, &[ok(0xfac7)]);
    assert_eq!(
        creation.call(),
        Call::EnumWarpAdapter { this: 0xfac7, iid: IID_IDXGI_ADAPTER }
    );
    assert_eq!(creation.call().vtable_slot(), Some(27));
    let (creation, effects) = give(creation, ok(0x3a9));
    assert_eq!(effects, vec![Effect::Release(0xfac7)]);
    assert_eq!(
        creation.call(),
        Call::CreateDevice {
            proc: 0x12,
            adapter: 0x3a9,
            minimum_feature_level: 0xb000,
            iid: IID_ID3D12_DEVICE,
        }
    );
    let creation = quietly(creation, &[ok(0xd12), ok(0x90e)]);
    let (creation, effects) =
        give(creation, Reply::DeviceAndContext { hr: 0, device: 0, context: 0 });
    assert_eq!(
        effects,
        vec![Effect::Release(0x90e), Effect::Release(0xd12), Effect::Release(0x3a9)]
    );
    assert_eq!(creation.call(), Call::Return(0));
}

#[test]
fn warp_adapter_counts_whatever_the_status() {
    let creation = with_warp(Reply::Object { hr: -5, object: 0x3a9 });
    let (creation, effects) = give(creation, failed(-6));
    assert_eq!(effects, vec![Effect::Release(0x3a9)]);
    assert_eq!(creation.call(), Call::Return(-6));
}

#[test]
fn failed_queue_releases_device_and_warp_adapter() {
    let creation = quietly(with_warp(ok(0x3a9)), &[ok(0xd12)]);
    let (_, effects) = give(creation, failed(-7));
    assert_eq!(effects, vec![Effect::Release(0xd12), Effect::Release(0x3a9)]);
}

#[test]
fn without_a_warp_adapter_the_default_one_is_used() {
    let expected = Call::CreateDevice {
        proc: 0x12,
        adapter: 0,
        minimum_feature_level: D3D_FEATURE_LEVEL_11_0,
        iid: IID_ID3D12_DEVICE,
    };
    let start = || quietly(begin(D3D_DRIVER_TYPE_WARP), &procs());
    let loaded = Reply::Module(0xd06);
    let found = Reply::Proc(Some(0xfac2));
    assert_eq!(quietly(start(), &[Reply::Module(0)]).call(), expected);
    assert_eq!(quietly(start(), &[loaded, Reply::Proc(None)]).call(), expected);
    assert_eq!(quietly(start(), &[loaded, found, failed(-1)]).call(), expected);
    assert_eq!(
        quietly(start(), &[loaded, found, Reply::Object { hr: -1, object: 0xbad }]).call(),
        expected
    );
    assert_eq!(quietly(start(), &[loaded, found, ok(0)]).call(), expected);
    assert_eq!(with_warp(failed(-1)).call(), expected);
}

#[test]
fn local_outputs_are_kept_for_the_caller() {
    let request = DeviceRequest {
        p_adapter: 0,
        driver_type: HARDWARE,
        flags: 0,
        p_feature_levels: 0,
        feature_levels: 0,
        outputs: Outputs::Local,
        p_chosen_feature_level: 0,
    };
    let creation = quietly(create_d3d11on12_device(request), &procs());
    let creation = quietly(creation, &[ok(0xd12), ok(0x90e)]);
    let (creation, effects) =
        give(creation, Reply::DeviceAndContext { hr: 0, device: 0xd11, context: 0xc11 });
    assert_eq!(effects, vec![Effect::Release(0x90e), Effect::Release(0xd12)]);
    assert_eq!(creation.call(), Call::Return(0));
    assert!(!creation.can_take(&Reply::Status { hr: 0 }));
}

#[test]
fn answers_of_the_wrong_shape_cannot_be_taken() {
    let creation = begin(HARDWARE);
    assert!(!creation.can_take(&Reply::Module(1)));
    assert!(!creation.can_take(&ok(1)));
    let creation = quietly(creation, &procs());
    assert!(!creation.can_take(&Reply::Proc(Some(1))));
    assert!(!creation.can_take(&ok(0)));
    assert!(creation.can_take(&failed(-1)));
    assert!(creation.can_take(&ok(1)));
}

#[test]
fn every_reference_is_given_back_once() {
    for fail_at in 0..4 {
        let mut creation = with_warp(ok(0x3a9));
        let mut gained = vec![0x3a9];
        let mut released = vec![];
        let objects = [0xd12, 0x90e];
        for (i, object) in objects.iter().enumerate() {
            if creation.can_take(&failed(-1)) {
                let reply = if i == fail_at { failed(-1) } else { ok(*object) };
                if i != fail_at {
                    gained.push(*object);
                }
                let (next, effects) = give(creation, reply);
                for effect in effects {
                    if let Effect::Release(object) = effect {
                        released.push(object);
                    }
                }
                creation = next;
            }
        }
        let last = Reply::DeviceAndContext {
            hr: if fail_at == 2 { -1 } else { 0 },
            device: 0,
            context: 0,
        };
        if creation.can_take(&last) {
            let (next, effects) = give(creation, last);
            for effect in effects {
                if let Effect::Release(object) = effect {
                    released.push(object);
                }
            }
            creation = next;
        }
        assert!(matches!(creation.call(), Call::Return(_)));
        gained.reverse();
        assert_eq!(released, gained);
    }
}

#[test]
fn queue_description_is_zeroed() {
    assert_eq!(
        direct_queue_desc(),
        CommandQueueDesc { list_type: 0, priority: 0, flags: 0, node_mask: 0 }
    );
}

#[test]
fn interface_ids_are_those_of_windows() {
    assert_eq!(
        windows_core::GUID::from_u128(IID_ID3D12_DEVICE),
        windows_core::GUID {
            data1: 0x189819f1,
            data2: 0x1db6,
            data3: 0x4b57,
            data4: [0xbe, 0x54, 0x18, 0x21, 0x33, 0x9b, 0x85, 0xf7],
        }
    );
    assert_eq!(
        windows_core::GUID::from_u128(IID_IDXGI_FACTORY4),
        windows_core::GUID {
            data1: 0x1bc6ea02,
            data2: 0xef36,
            data3: 0x464f,
            data4: [0xbf, 0x0c, 0x21, 0xca, 0x39, 0xe5, 0x16, 0x8a],
        }
    );
    assert_eq!(
        windows_core::GUID::from_u128(IID_ID3D12_COMMAND_QUEUE),
        windows_core::GUID {
            data1: 0x0ec870a6,
            data2: 0x5d7e,
            data3: 0x4c22,
            data4: [0x8c, 0xfc, 0x5b, 0xaa, 0xe0, 0x76, 0x16, 0xed],
        }
    );
    assert_eq!(
        windows_core::GUID::from_u128(IID_IDXGI_ADAPTER),
        windows_core::GUID {
            data1: 0x2411e7e1,
            data2: 0x12ac,
            data3: 0x4ccf,
            data4: [0xbd, 0x14, 0x97, 0x98, 0xe8, 0x53, 0x4d, 0xc0],
        }
    );
}

#[test]
fn com_pointer_holds_takes_and_drops() {
    let mut effects = vec![];
    assert!(ComPtr::null().is_null());
    ComPtr::null().drop(&mut effects);
    assert_eq!(effects, vec![]);
    let held = ComPtr::new(0x1234);
    assert!(!held.is_null());
    assert_eq!(held.as_ptr(), 0x1234);
    held.drop(&mut effects);
    assert_eq!(effects, vec![Effect::Release(0x1234)]);
    assert_eq!(ComPtr::new(0x77).take(), 0x77);
}

#[test]
fn methods_stand_at_their_positions() {
    assert_eq!(QUERY_INTERFACE_SLOT, 0);
    assert_eq!(RELEASE_SLOT, 2);
    assert_eq!(GET_PARENT_SLOT, 6);
    assert_eq!(CREATE_COMMAND_QUEUE_SLOT, 8);
    assert_eq!(CREATE_SWAP_CHAIN_SLOT, 10);
    assert_eq!(ENUM_WARP_ADAPTER_SLOT, 27);
    assert_eq!(Effect::Release(0xabc).vtable_slot(), Some(2));
    assert_eq!(Effect::Write { slot: 1, object: 0xabc }.vtable_slot(), None);
    assert_eq!(Effect::Copy { address: 0xabc }.vtable_slot(), None);
}

#[test]
fn warp_device_is_made_on_the_enumerated_adapter_whatever_is_lent() {
    for p_adapter in [0, 0xada0, 0x3a29] {
        let creation = D3D11CreateDevice(p_adapter, D3D_DRIVER_TYPE_WARP, 0, 0, 0, 0, 7, 1, 2, 3);
        let creation = quietly(creation, &procs());
        let creation =
            quietly(creation, &[Reply::Module(0xd06), Reply::Proc(Some(0xfac2)), ok(0xfac7)]);
        let (creation, _) = give(creation, ok(0x3a29));
        assert_eq!(
            creation.call(),
            Call::CreateDevice {
                proc: 0x12,
                adapter: 0x3a29,
                minimum_feature_level: D3D_FEATURE_LEVEL_11_0,
                iid: IID_ID3D12_DEVICE,
            }
        );
    }
}

#[test]
fn each_object_is_made_once() {
    let replies = [
        Reply::Proc(Some(0x12)),
        Reply::Proc(Some(0x1112)),
        Reply::Module(0xd06),
        Reply::Proc(Some(0xfac2)),
        ok(0xfac7),
        ok(0x3a29),
        ok(0x12de),
        ok(0x90e0),
        Reply::DeviceAndContext { hr: 0, device: 0, context: 0 },
    ];
    let mut creation = begin(D3D_DRIVER_TYPE_WARP);
    let mut calls = vec![];
    for reply in replies {
        calls.push(creation.call());
        creation = give(creation, reply).0;
    }
    assert_eq!(creation.call(), Call::Return(0));
    let made = |is_it: fn(&Call) -> bool| calls.iter().filter(|call| is_it(call)).count();
    assert_eq!(made(|call| matches!(call, Call::CreateDevice { .. })), 1);
    assert_eq!(made(|call| matches!(call, Call::CreateCommandQueue { .. })), 1);
    assert_eq!(made(|call| matches!(call, Call::CreateOn12 { .. })), 1);
}
