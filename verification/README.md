# d3d11on12_proxy

A drop-in `d3d11.dll` that makes every Direct3D 11 device on top of a Direct3D 12
device, through `D3D11On12CreateDevice`. Its decisions are a library verified with
Verus; the DLL around them makes the calls.

Each exported function is a conversation (`protocol::Protocol`): it asks for one
outside call after another, takes the answers, and says in which order COM
references are released or handed to the caller.

| module | holds |
| --- | --- |
| `device` | `D3D11CreateDevice` and the making of a device |
| `swap_chain` | `D3D11CreateDeviceAndSwapChain` |
| `forward` | the exports that go to the system's `d3d11.dll` unchanged |
| `attach` | `DllMain`: loading the system's `d3d11.dll` |
| `entry_points` | the addresses of entry points, each of them looked for once |
| `loader` | where entry points are looked for |
| `protocol` | conversations, and what holds of all of them |
| `com` | COM references and their release |
| `abi`, `hresult`, `text` | numbers, status codes and strings of Windows |

`app/` is the DLL. It builds for Windows only: place the resulting `d3d11.dll` next
to the application's `.exe`, in the application's bitness.

What is proved of every conversation, whatever the calls answer: each reference
that was gained is held, released or handed over, and exactly one of the three; no
object is used after its release; and the conversation ends.

When an exported function returns, it holds no reference. The making of a device
for `D3D11CreateDeviceAndSwapChain` is a part of that function's conversation and
ends otherwise: it stores the device and the context in variables of the proxy's own
(`Outputs::Local`) and, where it succeeds, ends holding both. The function then makes
the swap chain and hands them over or releases them.

An entry point is found at one address, at most one lookup of it succeeds, and the
loader is asked no more once it was found. This is proved of accesses to
`entry_points::EntryPoints` that come one at a time, in whatever order; that accesses
from several threads come one at a time is seen to by a lock in `app/`.
