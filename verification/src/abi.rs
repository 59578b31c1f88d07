//! The numbers of the Windows interfaces that the proxy speaks to.

use vstd::prelude::*;

verus! {

/// The driver type that asks for the software rasterizer.
pub const D3D_DRIVER_TYPE_WARP: i32 = 5;

/// The lowest feature level that the Direct3D 12 device may have.
pub const D3D_FEATURE_LEVEL_11_0: i32 = 0xb000;

/// A queue that accepts every kind of command list.
pub const D3D12_COMMAND_LIST_TYPE_DIRECT: i32 = 0;

/// The priority of an ordinary queue.
pub const D3D12_COMMAND_QUEUE_PRIORITY_NORMAL: i32 = 0;

/// No special treatment of the queue.
pub const D3D12_COMMAND_QUEUE_FLAG_NONE: i32 = 0;

/// The reason with which a DLL is told that its process has loaded it.
pub const DLL_PROCESS_ATTACH: u32 = 1;

/// `{1bc6ea02-ef36-464f-bf0c-21ca39e5168a}`
pub const IID_IDXGI_FACTORY4: u128 = 0x1bc6ea02_ef36_464f_bf0c_21ca39e5168a;

/// `{2411e7e1-12ac-4ccf-bd14-9798e8534dc0}`
pub const IID_IDXGI_ADAPTER: u128 = 0x2411e7e1_12ac_4ccf_bd14_9798e8534dc0;

/// `{189819f1-1db6-4b57-be54-1821339b85f7}`
pub const IID_ID3D12_DEVICE: u128 = 0x189819f1_1db6_4b57_be54_1821339b85f7;

/// `{0ec870a6-5d7e-4c22-8cfc-5baae07616ed}`
pub const IID_ID3D12_COMMAND_QUEUE: u128 = 0x0ec870a6_5d7e_4c22_8cfc_5baae07616ed;

/// `{54ec77fa-1377-44e6-8c32-88fd5f44c84c}`
pub const IID_IDXGI_DEVICE: u128 = 0x54ec77fa_1377_44e6_8c32_88fd5f44c84c;

/// `{7b7166ec-21c7-44ae-b21a-c9ae321ae369}`
pub const IID_IDXGI_FACTORY: u128 = 0x7b7166ec_21c7_44ae_b21a_c9ae321ae369;

/// Where the methods of `IUnknown` end in a function table.
pub const IUNKNOWN_END: usize = 3;

/// Where those of `IDXGIObject` end: it adds four.
pub const IDXGI_OBJECT_END: usize = IUNKNOWN_END + 4;

/// Where those of `IDXGIFactory` end: it adds five.
pub const IDXGI_FACTORY_END: usize = IDXGI_OBJECT_END + 5;

/// Where those of `IDXGIFactory1` end: it adds two.
pub const IDXGI_FACTORY1_END: usize = IDXGI_FACTORY_END + 2;

/// Where those of `IDXGIFactory2` end: it adds eleven.
pub const IDXGI_FACTORY2_END: usize = IDXGI_FACTORY1_END + 11;

/// Where those of `IDXGIFactory3` end: it adds one.
pub const IDXGI_FACTORY3_END: usize = IDXGI_FACTORY2_END + 1;

/// Where those of `ID3D12Object` end: it adds four.
pub const ID3D12_OBJECT_END: usize = IUNKNOWN_END + 4;

/// `IUnknown::QueryInterface`, the first of its interface.
pub const QUERY_INTERFACE_SLOT: usize = 0;

/// `IUnknown::Release`, the last of its interface.
pub const RELEASE_SLOT: usize = IUNKNOWN_END - 1;

/// `IDXGIObject::GetParent`, the last of its interface.
pub const GET_PARENT_SLOT: usize = IDXGI_OBJECT_END - 1;

/// `ID3D12Device::CreateCommandQueue`, which follows `GetNodeCount`.
pub const CREATE_COMMAND_QUEUE_SLOT: usize = ID3D12_OBJECT_END + 1;

/// `IDXGIFactory::CreateSwapChain`, which follows `EnumAdapters`,
/// `MakeWindowAssociation` and `GetWindowAssociation`.
pub const CREATE_SWAP_CHAIN_SLOT: usize = IDXGI_OBJECT_END + 3;

/// `IDXGIFactory4::EnumWarpAdapter`, which follows `EnumAdapterByLuid`.
pub const ENUM_WARP_ADAPTER_SLOT: usize = IDXGI_FACTORY3_END + 1;

/// The positions of the methods, counted through the interfaces that they inherit.
pub proof fn law_method_positions()
    ensures
        QUERY_INTERFACE_SLOT == 0,
        RELEASE_SLOT == 2,
        GET_PARENT_SLOT == 6,
        CREATE_COMMAND_QUEUE_SLOT == 8,
        CREATE_SWAP_CHAIN_SLOT == 10,
        ENUM_WARP_ADAPTER_SLOT == 27,
{
}

/// What a command queue is made from (`D3D12_COMMAND_QUEUE_DESC`).
#[derive(Clone, Copy, Debug, PartialEq, Eq, Structural)]
pub struct CommandQueueDesc {
    pub list_type: i32,
    pub priority: i32,
    pub flags: i32,
    pub node_mask: u32,
}

/// The description of the one queue that the on12 layer submits to.
pub open spec fn direct_queue() -> CommandQueueDesc {
    CommandQueueDesc {
        list_type: D3D12_COMMAND_LIST_TYPE_DIRECT,
        priority: D3D12_COMMAND_QUEUE_PRIORITY_NORMAL,
        flags: D3D12_COMMAND_QUEUE_FLAG_NONE,
        node_mask: 0,
    }
}

/// Builds the description of the queue: a direct queue of normal priority,
/// without flags, on the default node.
pub fn direct_queue_desc() -> (desc: CommandQueueDesc)
    ensures
        desc == direct_queue(),
{
    CommandQueueDesc {
        list_type: D3D12_COMMAND_LIST_TYPE_DIRECT,
        priority: D3D12_COMMAND_QUEUE_PRIORITY_NORMAL,
        flags: D3D12_COMMAND_QUEUE_FLAG_NONE,
        node_mask: 0,
    }
}

/// No field of the queue description is left to chance: all of them are zero.
pub proof fn law_queue_desc_is_zeroed()
    ensures
        direct_queue().list_type == 0,
        direct_queue().priority == 0,
        direct_queue().flags == 0,
        direct_queue().node_mask == 0,
{
}

/// The numbers by which the system knows what it is asked for.
pub proof fn law_numbers_of_the_interfaces()
    ensures
        D3D_DRIVER_TYPE_WARP == 5,
        D3D_FEATURE_LEVEL_11_0 == 0xb000,
        DLL_PROCESS_ATTACH == 1,
        IID_IDXGI_FACTORY4 == 0x1bc6ea02_ef36_464f_bf0c_21ca39e5168a,
        IID_IDXGI_ADAPTER == 0x2411e7e1_12ac_4ccf_bd14_9798e8534dc0,
        IID_ID3D12_DEVICE == 0x189819f1_1db6_4b57_be54_1821339b85f7,
        IID_ID3D12_COMMAND_QUEUE == 0x0ec870a6_5d7e_4c22_8cfc_5baae07616ed,
        IID_IDXGI_DEVICE == 0x54ec77fa_1377_44e6_8c32_88fd5f44c84c,
        IID_IDXGI_FACTORY == 0x7b7166ec_21c7_44ae_b21a_c9ae321ae369,
{
}

} // verus!
