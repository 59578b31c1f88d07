use d3d11on12_proxy::attach::{
    real_dll_loaded, system_directory_known, Attach, DllMain, PATH_CAPACITY,
};
use d3d11on12_proxy::entry_points::{EntryPoint, EntryPoints};
use d3d11on12_proxy::forward::{
    D3D11CoreCreateDevice, D3D11CreateDeviceForD3D12, D3D11On12CreateDevice, Forward,
    ForwardedCall, On12Args,
};
use d3d11on12_proxy::loader::{
    d3d12_loaded, find_in_real, get_d3d11on12_create_device, get_d3d12_create_device, real_d3d11,
    resolve, resolve_from, Library, Lookup, ProcQuery, ProcSlot, Symbol,
};
use d3d11on12_proxy::protocol::{Call, Protocol, Reply};
use d3d11on12_proxy::text::{encode_utf16, zero_terminated};

#[test]
fn utf16_encoding_is_that_of_std() {
    for s in ["", "d3d11.dll\0", "C:\\Windows", "\u{e9}\u{20ac}", "a\u{1f600}b\u{10ffff}\u{10000}"] {
        assert_eq!(encode_utf16(s), s.encode_utf16().collect::<Vec<u16>>());
    }
}

#[test]
fn library_paths() {
    assert_eq!(
        String::from_utf16(&Library::D3D12.path()).unwrap(),
        "C:\\Windows\\System32\\d3d12.dll\0"
    );
    assert_eq!(
        String::from_utf16(&Library::Dxgi.path()).unwrap(),
        "C:\\Windows\\System32\\dxgi.dll\0"
    );
}

#[test]
fn symbol_names() {
    assert_eq!(Symbol::D3D12CreateDevice.name(), b"D3D12CreateDevice\0");
    assert_eq!(Symbol::CreateDXGIFactory2.name(), b"CreateDXGIFactory2\0");
    assert_eq!(Symbol::D3D11On12CreateDevice.name(), b"D3D11On12CreateDevice\0");
    assert_eq!(Symbol::D3D11CoreCreateDevice.name(), b"D3D11CoreCreateDevice\0");
    assert_eq!(Symbol::D3D11CreateDeviceForD3D12.name(), b"D3D11CreateDeviceForD3D12\0");
    assert_eq!(zero_terminated(""), vec![0]);
}

#[test]
fn nothing_is_asked_of_a_library_that_is_not_loaded() {
    assert_eq!(real_d3d11(0), None);
    assert_eq!(real_d3d11(0x7ff0), Some(0x7ff0));
    assert_eq!(resolve(0, Symbol::D3D11CoreCreateDevice), None);
    assert_eq!(
        resolve(0x7ff0, Symbol::D3D11CoreCreateDevice),
        Some(ProcQuery { module: 0x7ff0, symbol: Symbol::D3D11CoreCreateDevice })
    );
    assert_eq!(resolve_from(0, Symbol::CreateDXGIFactory2), None);
    assert_eq!(
        resolve_from(0xd06, Symbol::CreateDXGIFactory2),
        Some(ProcQuery { module: 0xd06, symbol: Symbol::CreateDXGIFactory2 })
    );
}

#[test]
fn d3d12_create_device_is_searched_once() {
    let mut slot = ProcSlot::new();
    assert_eq!(get_d3d12_create_device(&mut slot), Lookup::Load(Library::D3D12));
    assert_eq!(get_d3d12_create_device(&mut slot), Lookup::Busy);
    assert_eq!(d3d12_loaded(&mut slot, 0), Lookup::Missing);
    assert_eq!(slot, ProcSlot::new());

    assert_eq!(get_d3d12_create_device(&mut slot), Lookup::Load(Library::D3D12));
    assert_eq!(
        d3d12_loaded(&mut slot, 0xd3d),
        Lookup::Query(ProcQuery { module: 0xd3d, symbol: Symbol::D3D12CreateDevice })
    );
    assert_eq!(d3d12_loaded(&mut slot, 0xd3d), Lookup::Busy);
    assert_eq!(slot.answered(None), Lookup::Missing);
    assert_eq!(slot, ProcSlot::new());

    assert_eq!(get_d3d12_create_device(&mut slot), Lookup::Load(Library::D3D12));
    d3d12_loaded(&mut slot, 0xd3d);
    assert_eq!(slot.answered(Some(0xf00)), Lookup::Found(0xf00));
    assert_eq!(get_d3d12_create_device(&mut slot), Lookup::Found(0xf00));
    assert_eq!(d3d12_loaded(&mut slot, 0xd3d), Lookup::Found(0xf00));
}

#[test]
fn first_address_is_kept() {
    let mut slot = ProcSlot::new();
    assert_eq!(get_d3d11on12_create_device(&mut slot, 0), Lookup::Missing);
    assert_eq!(slot.peek(), Lookup::Missing);
    assert_eq!(
        get_d3d11on12_create_device(&mut slot, 0x7ff0),
        Lookup::Query(ProcQuery { module: 0x7ff0, symbol: Symbol::D3D11On12CreateDevice })
    );
    assert_eq!(slot.peek(), Lookup::Busy);
    assert_eq!(slot.answered(Some(0xf01)), Lookup::Found(0xf01));
    assert_eq!(slot.answered(Some(0xf03)), Lookup::Found(0xf01));
    assert_eq!(slot.answered(None), Lookup::Found(0xf01));
    assert_eq!(get_d3d11on12_create_device(&mut slot, 0), Lookup::Found(0xf01));
    assert_eq!(find_in_real(&mut slot, 9, Symbol::D3D11On12CreateDevice), Lookup::Found(0xf01));
    assert_eq!(slot.peek(), Lookup::Found(0xf01));
}

#[test]
fn answers_without_a_question_are_ignored() {
    let mut slot = ProcSlot::new();
    assert_eq!(slot.answered(Some(0xf01)), Lookup::Missing);
    assert_eq!(d3d12_loaded(&mut slot, 0xd3d), Lookup::Missing);
    assert_eq!(slot, ProcSlot::new());
    get_d3d12_create_device(&mut slot);
    assert_eq!(slot.answered(Some(0xf01)), Lookup::Busy);
    assert_eq!(slot, ProcSlot::Loading);
}

#[test]
fn only_process_attachment_is_acted_on() {
    assert_eq!(DllMain(1, 1, 0), Attach::QuerySystemDirectory);
    for reason in [0, 2, 3, 4] {
        assert_eq!(DllMain(1, reason, 0), Attach::Finished { ok: true, store: None });
    }
}

#[test]
fn library_name_is_appended_to_the_system_directory() {
    let dir: Vec<u16> = "C:\\Windows\\system32".encode_utf16().collect();
    let mut buf = [0xffffu16; PATH_CAPACITY];
    buf[..dir.len()].copy_from_slice(&dir);
    assert_eq!(system_directory_known(&mut buf, dir.len() as u32), Attach::LoadRealDll);
    let end = dir.len() + 11;
    assert_eq!(
        String::from_utf16(&buf[..end]).unwrap(),
        "C:\\Windows\\system32\\d3d11.dll\0"
    );
    assert!(buf[end..].iter().all(|unit| *unit == 0xffff));
}

#[test]
fn unusable_system_directories_are_refused() {
    let refused = Attach::Finished { ok: false, store: None };
    for len in [0, 502, 512, 513, u32::MAX] {
        let mut buf = [7u16; PATH_CAPACITY];
        assert_eq!(system_directory_known(&mut buf, len), refused);
        assert_eq!(buf, [7u16; PATH_CAPACITY]);
    }
    let mut buf = [7u16; PATH_CAPACITY];
    assert_eq!(system_directory_known(&mut buf, 501), Attach::LoadRealDll);
    assert_eq!(buf[511], 0);
    assert_eq!(buf[501], 0x5c);
    assert_eq!(buf[500], 7);
}

#[test]
fn only_a_loaded_library_is_stored() {
    assert_eq!(
        real_dll_loaded(Some(0x7ff0)),
        Attach::Finished { ok: true, store: Some(0x7ff0) }
    );
    assert_eq!(real_dll_loaded(None), Attach::Finished { ok: false, store: None });
}

fn check_forwarding(forward: Forward, entry: EntryPoint, args: ForwardedCall) {
    assert_eq!(forward.call(), Call::EntryPoint(entry));
    assert_eq!(args.entry_point(), entry);
    assert!(!forward.can_take(&Reply::Proc(None)));
    let (forward, effects) = forward.step(Reply::Proc(Some(0xbeef)));
    assert_eq!(effects, vec![]);
    assert_eq!(forward.call(), Call::Forwarded { proc: 0xbeef, args });
    assert!(!forward.can_take(&Reply::Proc(Some(1))));
    let (forward, effects) = forward.step(Reply::Status { hr: -13 });
    assert_eq!(effects, vec![]);
    assert_eq!(forward.call(), Call::Return(-13));
    assert!(!forward.can_take(&Reply::Status { hr: 0 }));
}

#[test]
fn exports_are_forwarded_with_their_arguments() {
    check_forwarding(
        D3D11CoreCreateDevice(1, 2, 3, 4, 5, 6),
        EntryPoint::ForwardedCoreCreateDevice,
        ForwardedCall::D3D11CoreCreateDevice {
            p_factory: 1,
            p_adapter: 2,
            flags: 3,
            p_feature_levels: 4,
            feature_levels: 5,
            pp_device: 6,
        },
    );
    let args = On12Args {
        p_device: 1,
        flags: 2,
        p_feature_levels: 3,
        feature_levels: 4,
        pp_command_queues: 5,
        num_queues: 6,
        node_mask: 7,
        pp_device: 8,
        pp_immediate_context: 9,
        p_chosen_feature_level: 10,
    };
    check_forwarding(
        D3D11CreateDeviceForD3D12(1, 2, 3, 4, 5, 6, 7, 8, 9, 10),
        EntryPoint::ForwardedCreateDeviceForD3D12,
        ForwardedCall::D3D11CreateDeviceForD3D12(args),
    );
    check_forwarding(
        D3D11On12CreateDevice(1, 2, 3, 4, 5, 6, 7, 8, 9, 10),
        EntryPoint::ForwardedOn12CreateDevice,
        ForwardedCall::D3D11On12CreateDevice(args),
    );
}

const ALL: [EntryPoint; 5] = [
    EntryPoint::D3D12CreateDevice,
    EntryPoint::D3D11On12CreateDevice,
    EntryPoint::ForwardedCoreCreateDevice,
    EntryPoint::ForwardedCreateDeviceForD3D12,
    EntryPoint::ForwardedOn12CreateDevice,
];

/// Looks an entry point up, with the answer `proc` to the question for it.
fn look_up(slots: &mut EntryPoints, entry: EntryPoint, proc: Option<usize>) -> Lookup {
    if slots.search(entry, 0x7ff0) == Lookup::Load(Library::D3D12) {
        slots.loaded(0xd3d);
    }
    slots.answered(entry, proc)
}

#[test]
fn entry_points_are_named() {
    let names: [&[u8]; 5] = [
        b"D3D12CreateDevice\0",
        b"D3D11On12CreateDevice\0",
        b"D3D11CoreCreateDevice\0",
        b"D3D11CreateDeviceForD3D12\0",
        b"D3D11On12CreateDevice\0",
    ];
    let missing = [
        "D3D12CreateDevice not found in d3d12.dll",
        "D3D11On12CreateDevice not found in real d3d11.dll",
        "d3d11on12 proxy: D3D11CoreCreateDevice\0 not found",
        "d3d11on12 proxy: D3D11CreateDeviceForD3D12\0 not found",
        "d3d11on12 proxy: D3D11On12CreateDevice\0 not found",
    ];
    for (i, entry) in ALL.into_iter().enumerate() {
        assert_eq!(entry.symbol().name(), names[i]);
        assert_eq!(entry.missing_text(), missing[i]);
    }
}

#[test]
fn searches_begin_where_the_entry_point_is_exported() {
    let mut slots = EntryPoints::new();
    assert_eq!(
        slots.search(EntryPoint::D3D12CreateDevice, 0),
        Lookup::Load(Library::D3D12)
    );
    assert_eq!(
        slots.loaded(0xd3d),
        Lookup::Query(ProcQuery { module: 0xd3d, symbol: Symbol::D3D12CreateDevice })
    );
    for entry in &ALL[1..] {
        assert_eq!(slots.search(*entry, 0), Lookup::Missing);
        assert_eq!(
            slots.search(*entry, 0x7ff0),
            Lookup::Query(ProcQuery { module: 0x7ff0, symbol: entry.symbol() })
        );
    }
}

#[test]
fn entry_points_are_kept_apart() {
    for entry in ALL {
        let mut slots = EntryPoints::new();
        assert_eq!(look_up(&mut slots, entry, None), Lookup::Missing);
        assert_eq!(slots, EntryPoints::new());
        assert_eq!(look_up(&mut slots, entry, Some(0xf00)), Lookup::Found(0xf00));
        for other in ALL {
            let expected = if other == entry {
                Lookup::Found(0xf00)
            } else {
                EntryPoints::new().search(other, 0x7ff0)
            };
            assert_eq!(slots.search(other, 0x7ff0), expected);
        }
    }
}

#[test]
fn two_threads_that_search_at_once_ask_once() {
    let entry = EntryPoint::D3D11On12CreateDevice;
    let mut slots = EntryPoints::new();
    let query =
        Lookup::Query(ProcQuery { module: 0x7ff0, symbol: Symbol::D3D11On12CreateDevice });
    assert_eq!(slots.search(entry, 0x7ff0), query);
    assert_eq!(slots.search(entry, 0x7ff0), Lookup::Busy);
    assert_eq!(slots.answered(entry, Some(0xf01)), Lookup::Found(0xf01));
    assert_eq!(slots.answered(entry, Some(0xf02)), Lookup::Found(0xf01));
    assert_eq!(slots.search(entry, 0), Lookup::Found(0xf01));
    assert_eq!(slots.search(entry, 0x9999), Lookup::Found(0xf01));
}

#[test]
fn question_is_asked_again_only_after_it_failed() {
    let entry = EntryPoint::ForwardedCoreCreateDevice;
    let mut slots = EntryPoints::new();
    let query =
        Lookup::Query(ProcQuery { module: 0x7ff0, symbol: Symbol::D3D11CoreCreateDevice });
    assert_eq!(slots.search(entry, 0x7ff0), query);
    assert_eq!(slots.search(entry, 0x7ff0), Lookup::Busy);
    assert_eq!(slots.answered(entry, None), Lookup::Missing);
    assert_eq!(slots.search(entry, 0x7ff0), query);
    assert_eq!(slots.answered(entry, Some(0xf01)), Lookup::Found(0xf01));
    assert_eq!(slots.search(entry, 0x7ff0), Lookup::Found(0xf01));
}

#[test]
fn later_calls_of_a_forwarded_export_go_to_the_same_function() {
    let mut slots = EntryPoints::new();
    let first = D3D11CoreCreateDevice(1, 2, 3, 4, 5, 6);
    let entry = first.args.entry_point();
    assert_eq!(look_up(&mut slots, entry, Some(0xc0de)), Lookup::Found(0xc0de));
    assert_eq!(
        look_up(&mut slots, EntryPoint::ForwardedOn12CreateDevice, Some(0xbad)),
        Lookup::Found(0xbad)
    );
    let later = D3D11CoreCreateDevice(9, 8, 7, 6, 5, 4);
    assert_eq!(later.call(), Call::EntryPoint(entry));
    assert_eq!(slots.search(entry, 0), Lookup::Found(0xc0de));
    let args = later.args;
    let (later, _) = later.step(Reply::Proc(Some(0xc0de)));
    assert_eq!(later.call(), Call::Forwarded { proc: 0xc0de, args });
}
