//! The decisions of a drop-in `d3d11.dll` that backs every Direct3D 11 device
//! with a Direct3D 12 device through D3D11on12.
//!
//! Nothing here touches a pointer. An exported function of the DLL is a
//! protocol: it asks for one outside call after another, is told what each call
//! answered, and says which COM references to give back on the way. Addresses
//! are plain integers, and zero is the null pointer.

pub mod abi;
pub mod attach;
pub mod com;
pub mod device;
pub mod entry_points;
pub mod forward;
pub mod hresult;
pub mod loader;
pub mod protocol;
pub mod swap_chain;
pub mod text;
