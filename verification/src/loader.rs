//! Finding the entry points of the system's libraries.

use crate::text::{encode_utf16, zero_terminated};
use vstd::prelude::*;

#[allow(unused_imports)]
use crate::text::{ascii, utf16};

verus! {

/// A system library that is loaded by its full path.
#[derive(Clone, Copy, Debug, PartialEq, Eq, Structural)]
pub enum Library {
    D3D12,
    Dxgi,
}

/// An entry point of a system library.
#[derive(Clone, Copy, Debug, PartialEq, Eq, Structural)]
pub enum Symbol {
    D3D12CreateDevice,
    CreateDXGIFactory2,
    D3D11On12CreateDevice,
    D3D11CoreCreateDevice,
    D3D11CreateDeviceForD3D12,
}

/// A question to `GetProcAddress`.
#[derive(Clone, Copy, Debug, PartialEq, Eq, Structural)]
pub struct ProcQuery {
    pub module: usize,
    pub symbol: Symbol,
}

/// Where the search for an entry point stands.
#[derive(Clone, Copy, Debug, PartialEq, Eq, Structural)]
pub enum Lookup {
    /// The address to call.
    Found(usize),
    /// This library has to be loaded first.
    Load(Library),
    /// This question decides.
    Query(ProcQuery),
    /// There is no such entry point.
    Missing,
    /// Somebody else is looking for it: ask again when that search has ended.
    Busy,
}

impl Library {
    /// The full path of the library's file.
    pub open spec fn path_text(self) -> Seq<char> {
        match self {
            Library::D3D12 => "C:\\Windows\\System32\\d3d12.dll\0"@,
            Library::Dxgi => "C:\\Windows\\System32\\dxgi.dll\0"@,
        }
    }

    /// The full path in UTF-16, ended by a zero unit.
    pub fn path(self) -> (units: Vec<u16>)
        ensures
            units@ == utf16(self.path_text()),
    {
        match self {
            Library::D3D12 => encode_utf16("C:\\Windows\\System32\\d3d12.dll\0"),
            Library::Dxgi => encode_utf16("C:\\Windows\\System32\\dxgi.dll\0"),
        }
    }
}

impl Symbol {
    /// The entry point's exported name.
    pub open spec fn name_text(self) -> Seq<char> {
        match self {
            Symbol::D3D12CreateDevice => "D3D12CreateDevice"@,
            Symbol::CreateDXGIFactory2 => "CreateDXGIFactory2"@,
            Symbol::D3D11On12CreateDevice => "D3D11On12CreateDevice"@,
            Symbol::D3D11CoreCreateDevice => "D3D11CoreCreateDevice"@,
            Symbol::D3D11CreateDeviceForD3D12 => "D3D11CreateDeviceForD3D12"@,
        }
    }

    /// The exported name in bytes, ended by a zero byte.
    pub fn name(self) -> (bytes: Vec<u8>)
        ensures
            bytes@ == ascii(self.name_text()).push(0),
    {
        proof {
            reveal_strlit("D3D12CreateDevice");
            reveal_strlit("CreateDXGIFactory2");
            reveal_strlit("D3D11On12CreateDevice");
            reveal_strlit("D3D11CoreCreateDevice");
            reveal_strlit("D3D11CreateDeviceForD3D12");
        }
        match self {
            Symbol::D3D12CreateDevice => zero_terminated("D3D12CreateDevice"),
            Symbol::CreateDXGIFactory2 => zero_terminated("CreateDXGIFactory2"),
            Symbol::D3D11On12CreateDevice => zero_terminated("D3D11On12CreateDevice"),
            Symbol::D3D11CoreCreateDevice => zero_terminated("D3D11CoreCreateDevice"),
            Symbol::D3D11CreateDeviceForD3D12 => zero_terminated("D3D11CreateDeviceForD3D12"),
        }
    }
}

/// The handle that the stored value `raw` stands for: zero stands for none.
pub open spec fn real_handle(raw: usize) -> Option<usize> {
    if raw != 0 {
        Some(raw)
    } else {
        None
    }
}

/// The handle of the system's `d3d11.dll`, where one has been stored.
pub fn real_d3d11(raw: usize) -> (handle: Option<usize>)
    ensures
        handle == real_handle(raw),
{
    if raw != 0 {
        Some(raw)
    } else {
        None
    }
}

/// What to ask for the address of `symbol` in the library loaded at `h`: nothing
/// where the library is not loaded, and then the entry point is missing.
pub fn resolve_from(h: usize, symbol: Symbol) -> (query: Option<ProcQuery>)
    ensures
        query == (if h == 0 { None } else { Some(ProcQuery { module: h, symbol }) }),
{
    if h == 0 {
        return None;
    }
    Some(ProcQuery { module: h, symbol })
}

/// What to ask for the address of `symbol` in the system's `d3d11.dll`, whose
/// stored handle is `raw`.
pub fn resolve(raw: usize, symbol: Symbol) -> (query: Option<ProcQuery>)
    ensures
        query == (if raw == 0 { None } else { Some(ProcQuery { module: raw, symbol }) }),
{
    match real_d3d11(raw) {
        Some(h) => Some(ProcQuery { module: h, symbol }),
        None => None,
    }
}

/// The address of one entry point, found once and kept from then on, and how far the
/// search for it has come.
#[derive(Clone, Copy, Debug, PartialEq, Eq, Structural)]
pub enum ProcSlot {
    /// It has not been found, and nobody is looking for it.
    Idle,
    /// Whoever is looking for it has yet to load its library.
    Loading,
    /// Whoever is looking for it has a question to `GetProcAddress` open.
    Asking,
    /// It was found at this address.
    Found(usize),
}

impl ProcSlot {
    /// A slot whose entry point has not been looked for.
    pub fn new() -> (slot: ProcSlot)
        ensures
            slot == ProcSlot::Idle,
    {
        ProcSlot::Idle
    }

    /// What can be told of the entry point without a search.
    pub open spec fn known(self) -> Lookup {
        match self {
            ProcSlot::Idle => Lookup::Missing,
            ProcSlot::Loading | ProcSlot::Asking => Lookup::Busy,
            ProcSlot::Found(proc) => Lookup::Found(proc),
        }
    }

    /// The slot and the outcome once `GetProcAddress` answered `proc`: the answer to
    /// an open question ends the search, and with success it is kept; any other
    /// changes nothing.
    pub open spec fn after_answer(self, proc: Option<usize>) -> (ProcSlot, Lookup) {
        match (self, proc) {
            (ProcSlot::Asking, Some(found)) => (ProcSlot::Found(found), Lookup::Found(found)),
            (ProcSlot::Asking, None) => (ProcSlot::Idle, Lookup::Missing),
            _ => (self, self.known()),
        }
    }

    /// Tells what is known of the entry point without a search.
    pub fn peek(&self) -> (lookup: Lookup)
        ensures
            lookup == self.known(),
    {
        match self {
            ProcSlot::Idle => Lookup::Missing,
            ProcSlot::Loading | ProcSlot::Asking => Lookup::Busy,
            ProcSlot::Found(proc) => Lookup::Found(*proc),
        }
    }

    /// Takes the answer of `GetProcAddress` to the open question. An address is kept
    /// from now on; without one the entry point is missing, and can be looked for
    /// again. Where no question is open, nothing changes.
    pub fn answered(&mut self, proc: Option<usize>) -> (lookup: Lookup)
        ensures
            (*final(self), lookup) == old(self).after_answer(proc),
    {
        match (*self, proc) {
            (ProcSlot::Asking, Some(found)) => {
                *self = ProcSlot::Found(found);
                Lookup::Found(found)
            },
            (ProcSlot::Asking, None) => {
                *self = ProcSlot::Idle;
                Lookup::Missing
            },
            _ => self.peek(),
        }
    }
}

/// How the search for `symbol` in the system's `d3d11.dll`, whose stored handle is
/// `raw`, leaves the slot and what comes of it: a question to that library, if it is
/// loaded, unless more is known already.
pub open spec fn search_real(slot: ProcSlot, raw: usize, symbol: Symbol) -> (ProcSlot, Lookup) {
    if slot is Idle && raw != 0 {
        (ProcSlot::Asking, Lookup::Query(ProcQuery { module: raw, symbol }))
    } else {
        (slot, slot.known())
    }
}

/// Begins the search for `symbol` in the system's `d3d11.dll`, whose stored
/// handle is `raw`.
pub fn find_in_real(slot: &mut ProcSlot, raw: usize, symbol: Symbol) -> (lookup: Lookup)
    ensures
        (*final(slot), lookup) == search_real(*old(slot), raw, symbol),
{
    match *slot {
        ProcSlot::Idle => match resolve(raw, symbol) {
            Some(query) => {
                *slot = ProcSlot::Asking;
                Lookup::Query(query)
            },
            None => Lookup::Missing,
        },
        _ => slot.peek(),
    }
}

/// How the search for `D3D12CreateDevice` leaves the slot and what comes of it:
/// `d3d12.dll` has to be loaded, unless more is known already.
pub open spec fn search_d3d12(slot: ProcSlot) -> (ProcSlot, Lookup) {
    if slot is Idle {
        (ProcSlot::Loading, Lookup::Load(Library::D3D12))
    } else {
        (slot, slot.known())
    }
}

/// Begins the search for `D3D12CreateDevice`.
pub fn get_d3d12_create_device(slot: &mut ProcSlot) -> (lookup: Lookup)
    ensures
        (*final(slot), lookup) == search_d3d12(*old(slot)),
{
    match *slot {
        ProcSlot::Idle => {
            *slot = ProcSlot::Loading;
            Lookup::Load(Library::D3D12)
        },
        _ => slot.peek(),
    }
}

/// How the search for `D3D12CreateDevice` goes on once `d3d12.dll` was loaded at `h`,
/// null where it could not be: with a question to it, or it ends; where nobody waits
/// for the library, nothing changes.
pub open spec fn after_load(slot: ProcSlot, h: usize) -> (ProcSlot, Lookup) {
    if !(slot is Loading) {
        (slot, slot.known())
    } else if h == 0 {
        (ProcSlot::Idle, Lookup::Missing)
    } else {
        (
            ProcSlot::Asking,
            Lookup::Query(ProcQuery { module: h, symbol: Symbol::D3D12CreateDevice }),
        )
    }
}

/// Goes on with the search for `D3D12CreateDevice` once `d3d12.dll` was loaded at
/// `h`; `h` is null where it could not be loaded.
pub fn d3d12_loaded(slot: &mut ProcSlot, h: usize) -> (lookup: Lookup)
    ensures
        (*final(slot), lookup) == after_load(*old(slot), h),
{
    match *slot {
        ProcSlot::Loading => match resolve_from(h, Symbol::D3D12CreateDevice) {
            Some(query) => {
                *slot = ProcSlot::Asking;
                Lookup::Query(query)
            },
            None => {
                *slot = ProcSlot::Idle;
                Lookup::Missing
            },
        },
        _ => slot.peek(),
    }
}

/// Begins the search for `D3D11On12CreateDevice` in the system's `d3d11.dll`,
/// whose stored handle is `raw`.
pub fn get_d3d11on12_create_device(slot: &mut ProcSlot, raw: usize) -> (lookup: Lookup)
    ensures
        (*final(slot), lookup) == search_real(*old(slot), raw, Symbol::D3D11On12CreateDevice),
{
    find_in_real(slot, raw, Symbol::D3D11On12CreateDevice)
}

/// The libraries and exports go by the names that the system gave them.
pub proof fn law_names_of_libraries_and_exports()
    ensures
        Library::D3D12.path_text() == "C:\\Windows\\System32\\d3d12.dll\0"@,
        Library::Dxgi.path_text() == "C:\\Windows\\System32\\dxgi.dll\0"@,
        Symbol::D3D12CreateDevice.name_text() == "D3D12CreateDevice"@,
        Symbol::CreateDXGIFactory2.name_text() == "CreateDXGIFactory2"@,
        Symbol::D3D11On12CreateDevice.name_text() == "D3D11On12CreateDevice"@,
        Symbol::D3D11CoreCreateDevice.name_text() == "D3D11CoreCreateDevice"@,
        Symbol::D3D11CreateDeviceForD3D12.name_text() == "D3D11CreateDeviceForD3D12"@,
{
}

/// Every stored value but zero stands for a handle, and for itself.
pub proof fn law_only_zero_stands_for_no_handle(raw: usize)
    ensures
        raw == 0 ==> real_handle(raw) is None,
        raw != 0 ==> real_handle(raw) == Some(raw),
{
}

/// A search of the system's `d3d11.dll` asks that library wherever it is loaded and
/// nobody has asked before, whatever its handle and whatever the export; it is in
/// vain only where the library is not loaded.
pub proof fn law_loaded_library_is_asked(raw: usize, symbol: Symbol)
    ensures
        raw != 0 ==> search_real(ProcSlot::Idle, raw, symbol) == (
            ProcSlot::Asking,
            Lookup::Query(ProcQuery { module: raw, symbol }),
        ),
        raw == 0 ==> search_real(ProcSlot::Idle, raw, symbol) == (
            ProcSlot::Idle,
            Lookup::Missing,
        ),
{
}

/// A search for `D3D12CreateDevice` begins with its library. It is in vain only where
/// the library could not be loaded; loaded at any handle, the library is asked.
pub proof fn law_d3d12_is_loaded_and_asked(h: usize)
    ensures
        search_d3d12(ProcSlot::Idle) == (ProcSlot::Loading, Lookup::Load(Library::D3D12)),
        h != 0 ==> after_load(ProcSlot::Loading, h) == (
            ProcSlot::Asking,
            Lookup::Query(ProcQuery { module: h, symbol: Symbol::D3D12CreateDevice }),
        ),
        h == 0 ==> after_load(ProcSlot::Loading, h) == (ProcSlot::Idle, Lookup::Missing),
{
}

/// Every address that answers an open question is found and kept; no answer ends the
/// search in vain, so that the next one begins anew.
pub proof fn law_answer_ends_the_search(proc: usize)
    ensures
        ProcSlot::Asking.after_answer(Some(proc)) == (ProcSlot::Found(proc), Lookup::Found(proc)),
        ProcSlot::Asking.after_answer(None) == (ProcSlot::Idle, Lookup::Missing),
{
}

/// What somebody else found or is looking for is left alone: searches bring the
/// address that was found, whatever it is, or are told to wait, and what belongs to
/// no search changes nothing.
pub proof fn law_others_are_left_alone(
    found: usize,
    raw: usize,
    symbol: Symbol,
    h: usize,
    proc: Option<usize>,
)
    ensures
        search_real(ProcSlot::Found(found), raw, symbol) == (
            ProcSlot::Found(found),
            Lookup::Found(found),
        ),
        search_d3d12(ProcSlot::Found(found)) == (ProcSlot::Found(found), Lookup::Found(found)),
        after_load(ProcSlot::Found(found), h) == (ProcSlot::Found(found), Lookup::Found(found)),
        ProcSlot::Found(found).after_answer(proc) == (
            ProcSlot::Found(found),
            Lookup::Found(found),
        ),
        forall|slot: ProcSlot|
            slot == ProcSlot::Loading || slot == ProcSlot::Asking ==> {
                &&& #[trigger] search_real(slot, raw, symbol) == (slot, Lookup::Busy)
                &&& search_d3d12(slot) == (slot, Lookup::Busy)
            },
        after_load(ProcSlot::Asking, h) == (ProcSlot::Asking, Lookup::Busy),
        after_load(ProcSlot::Idle, h) == (ProcSlot::Idle, Lookup::Missing),
        ProcSlot::Loading.after_answer(proc) == (ProcSlot::Loading, Lookup::Busy),
        ProcSlot::Idle.after_answer(proc) == (ProcSlot::Idle, Lookup::Missing),
        ProcSlot::Idle.known() == Lookup::Missing,
        ProcSlot::Loading.known() == Lookup::Busy,
        ProcSlot::Asking.known() == Lookup::Busy,
        ProcSlot::Found(found).known() == Lookup::Found(found),
{
}

} // verus!
