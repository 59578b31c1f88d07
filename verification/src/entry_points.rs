//! The entry points that the proxy calls, each of them looked for once.

use crate::loader::{
    d3d12_loaded, find_in_real, get_d3d11on12_create_device, get_d3d12_create_device, Lookup,
    ProcSlot, Symbol,
};
use vstd::prelude::*;

#[allow(unused_imports)]
use crate::loader::{after_load, search_d3d12, search_real, Library, ProcQuery};

verus! {

/// A use of an entry point. Each use keeps an address of its own, also where two of
/// them go to the same export.
#[derive(Clone, Copy, Debug, PartialEq, Eq, Structural)]
pub enum EntryPoint {
    /// Makes the Direct3D 12 device.
    D3D12CreateDevice,
    /// Makes the Direct3D 11 device on top of it.
    D3D11On12CreateDevice,
    /// Takes forwarded calls of `D3D11CoreCreateDevice`.
    ForwardedCoreCreateDevice,
    /// Takes forwarded calls of `D3D11CreateDeviceForD3D12`.
    ForwardedCreateDeviceForD3D12,
    /// Takes forwarded calls of `D3D11On12CreateDevice`.
    ForwardedOn12CreateDevice,
}

impl EntryPoint {
    /// The export that is called.
    pub open spec fn export(self) -> Symbol {
        match self {
            EntryPoint::D3D12CreateDevice => Symbol::D3D12CreateDevice,
            EntryPoint::D3D11On12CreateDevice => Symbol::D3D11On12CreateDevice,
            EntryPoint::ForwardedCoreCreateDevice => Symbol::D3D11CoreCreateDevice,
            EntryPoint::ForwardedCreateDeviceForD3D12 => Symbol::D3D11CreateDeviceForD3D12,
            EntryPoint::ForwardedOn12CreateDevice => Symbol::D3D11On12CreateDevice,
        }
    }

    /// What is reported where the entry point is missing. The report on a forwarded
    /// export gives its name with the zero that ends it.
    pub open spec fn missing(self) -> Seq<char> {
        match self {
            EntryPoint::D3D12CreateDevice => "D3D12CreateDevice not found in d3d12.dll"@,
            EntryPoint::D3D11On12CreateDevice => {
                "D3D11On12CreateDevice not found in real d3d11.dll"@
            },
            _ => "d3d11on12 proxy: "@ + self.export().name_text() + "\0 not found"@,
        }
    }

    /// The export that is called.
    pub fn symbol(self) -> (symbol: Symbol)
        ensures
            symbol == self.export(),
    {
        match self {
            EntryPoint::D3D12CreateDevice => Symbol::D3D12CreateDevice,
            EntryPoint::D3D11On12CreateDevice => Symbol::D3D11On12CreateDevice,
            EntryPoint::ForwardedCoreCreateDevice => Symbol::D3D11CoreCreateDevice,
            EntryPoint::ForwardedCreateDeviceForD3D12 => Symbol::D3D11CreateDeviceForD3D12,
            EntryPoint::ForwardedOn12CreateDevice => Symbol::D3D11On12CreateDevice,
        }
    }

    /// What to report where the entry point is missing.
    pub fn missing_text(self) -> (text: &'static str)
        ensures
            text@ == self.missing(),
    {
        proof {
            reveal_strlit("d3d11on12 proxy: ");
            reveal_strlit("\0 not found");
            reveal_strlit("D3D11CoreCreateDevice");
            reveal_strlit("D3D11CreateDeviceForD3D12");
            reveal_strlit("D3D11On12CreateDevice");
            reveal_strlit("d3d11on12 proxy: D3D11CoreCreateDevice\0 not found");
            reveal_strlit("d3d11on12 proxy: D3D11CreateDeviceForD3D12\0 not found");
            reveal_strlit("d3d11on12 proxy: D3D11On12CreateDevice\0 not found");
        }
        let text = match self {
            EntryPoint::D3D12CreateDevice => "D3D12CreateDevice not found in d3d12.dll",
            EntryPoint::D3D11On12CreateDevice => "D3D11On12CreateDevice not found in real d3d11.dll",
            EntryPoint::ForwardedCoreCreateDevice => {
                "d3d11on12 proxy: D3D11CoreCreateDevice\0 not found"
            },
            EntryPoint::ForwardedCreateDeviceForD3D12 => {
                "d3d11on12 proxy: D3D11CreateDeviceForD3D12\0 not found"
            },
            EntryPoint::ForwardedOn12CreateDevice => {
                "d3d11on12 proxy: D3D11On12CreateDevice\0 not found"
            },
        };
        assert(text@ =~= self.missing());
        text
    }
}

/// The slots of all entry points.
#[derive(Clone, Copy, Debug, PartialEq, Eq, Structural)]
pub struct EntryPoints {
    pub d3d12_create_device: ProcSlot,
    pub d3d11on12_create_device: ProcSlot,
    pub forwarded_core_create_device: ProcSlot,
    pub forwarded_create_device_for_d3d12: ProcSlot,
    pub forwarded_on12_create_device: ProcSlot,
}

impl EntryPoints {
    /// The slot of one entry point.
    pub open spec fn slot(self, entry: EntryPoint) -> ProcSlot {
        match entry {
            EntryPoint::D3D12CreateDevice => self.d3d12_create_device,
            EntryPoint::D3D11On12CreateDevice => self.d3d11on12_create_device,
            EntryPoint::ForwardedCoreCreateDevice => self.forwarded_core_create_device,
            EntryPoint::ForwardedCreateDeviceForD3D12 => self.forwarded_create_device_for_d3d12,
            EntryPoint::ForwardedOn12CreateDevice => self.forwarded_on12_create_device,
        }
    }

    /// The slots with `slot` as that of `entry`.
    pub open spec fn with(self, entry: EntryPoint, slot: ProcSlot) -> EntryPoints {
        match entry {
            EntryPoint::D3D12CreateDevice => EntryPoints { d3d12_create_device: slot, ..self },
            EntryPoint::D3D11On12CreateDevice => EntryPoints {
                d3d11on12_create_device: slot,
                ..self
            },
            EntryPoint::ForwardedCoreCreateDevice => EntryPoints {
                forwarded_core_create_device: slot,
                ..self
            },
            EntryPoint::ForwardedCreateDeviceForD3D12 => EntryPoints {
                forwarded_create_device_for_d3d12: slot,
                ..self
            },
            EntryPoint::ForwardedOn12CreateDevice => EntryPoints {
                forwarded_on12_create_device: slot,
                ..self
            },
        }
    }

    /// How the search for an entry point leaves its slot and what comes of it, where
    /// the stored handle of the system's `d3d11.dll` is `raw`: `D3D12CreateDevice` is
    /// looked for in `d3d12.dll`, any other in that library.
    pub open spec fn searched(self, entry: EntryPoint, raw: usize) -> (ProcSlot, Lookup) {
        match entry {
            EntryPoint::D3D12CreateDevice => search_d3d12(self.slot(entry)),
            _ => search_real(self.slot(entry), raw, entry.export()),
        }
    }

    /// No entry point has been looked for.
    pub fn new() -> (slots: EntryPoints)
        ensures
            slots == (EntryPoints {
                d3d12_create_device: ProcSlot::Idle,
                d3d11on12_create_device: ProcSlot::Idle,
                forwarded_core_create_device: ProcSlot::Idle,
                forwarded_create_device_for_d3d12: ProcSlot::Idle,
                forwarded_on12_create_device: ProcSlot::Idle,
            }),
            forall|entry: EntryPoint| #[trigger] slots.slot(entry) == ProcSlot::Idle,
    {
        EntryPoints {
            d3d12_create_device: ProcSlot::new(),
            d3d11on12_create_device: ProcSlot::new(),
            forwarded_core_create_device: ProcSlot::new(),
            forwarded_create_device_for_d3d12: ProcSlot::new(),
            forwarded_on12_create_device: ProcSlot::new(),
        }
    }

    /// Begins the search for an entry point, where the stored handle of the system's
    /// `d3d11.dll` is `raw`. The slots of all other entry points stay as they are.
    pub fn search(&mut self, entry: EntryPoint, raw: usize) -> (lookup: Lookup)
        ensures
            lookup == old(self).searched(entry, raw).1,
            *final(self) == old(self).with(entry, old(self).searched(entry, raw).0),
            forall|other: EntryPoint|
                other != entry ==> #[trigger] final(self).slot(other) == old(self).slot(other),
    {
        match entry {
            EntryPoint::D3D12CreateDevice => get_d3d12_create_device(&mut self.d3d12_create_device),
            EntryPoint::D3D11On12CreateDevice => get_d3d11on12_create_device(
                &mut self.d3d11on12_create_device,
                raw,
            ),
            EntryPoint::ForwardedCoreCreateDevice => find_in_real(
                &mut self.forwarded_core_create_device,
                raw,
                entry.symbol(),
            ),
            EntryPoint::ForwardedCreateDeviceForD3D12 => find_in_real(
                &mut self.forwarded_create_device_for_d3d12,
                raw,
                entry.symbol(),
            ),
            EntryPoint::ForwardedOn12CreateDevice => find_in_real(
                &mut self.forwarded_on12_create_device,
                raw,
                entry.symbol(),
            ),
        }
    }

    /// Goes on with the search for `D3D12CreateDevice` once `d3d12.dll` was loaded at
    /// `h`, null where it could not be. The slots of all other entry points stay as
    /// they are.
    pub fn loaded(&mut self, h: usize) -> (lookup: Lookup)
        ensures
            lookup == after_load(old(self).d3d12_create_device, h).1,
            *final(self) == old(self).with(
                EntryPoint::D3D12CreateDevice,
                after_load(old(self).d3d12_create_device, h).0,
            ),
    {
        d3d12_loaded(&mut self.d3d12_create_device, h)
    }

    /// Takes the answer of `GetProcAddress` to the search for `entry` in. The slots
    /// of all other entry points stay as they are.
    pub fn answered(&mut self, entry: EntryPoint, proc: Option<usize>) -> (lookup: Lookup)
        ensures
            lookup == old(self).slot(entry).after_answer(proc).1,
            *final(self) == old(self).with(entry, old(self).slot(entry).after_answer(proc).0),
            forall|other: EntryPoint|
                other != entry ==> #[trigger] final(self).slot(other) == old(self).slot(other),
    {
        match entry {
            EntryPoint::D3D12CreateDevice => self.d3d12_create_device.answered(proc),
            EntryPoint::D3D11On12CreateDevice => self.d3d11on12_create_device.answered(proc),
            EntryPoint::ForwardedCoreCreateDevice => self.forwarded_core_create_device.answered(
                proc,
            ),
            EntryPoint::ForwardedCreateDeviceForD3D12 => {
                self.forwarded_create_device_for_d3d12.answered(proc)
            },
            EntryPoint::ForwardedOn12CreateDevice => self.forwarded_on12_create_device.answered(
                proc,
            ),
        }
    }
}

/// One access to the slots, by whichever thread it is: a call of
/// `EntryPoints::search`, `EntryPoints::loaded` or `EntryPoints::answered`.
pub enum Access {
    Search { entry: EntryPoint, raw: usize },
    Loaded { h: usize },
    Answer { entry: EntryPoint, proc: Option<usize> },
}

impl Access {
    /// The entry point that is looked for.
    pub open spec fn entry(self) -> EntryPoint {
        match self {
            Access::Search { entry, .. } => entry,
            Access::Loaded { .. } => EntryPoint::D3D12CreateDevice,
            Access::Answer { entry, .. } => entry,
        }
    }

    /// How the access leaves the entry point's slot among `slots`, and what it brings.
    pub open spec fn outcome(self, slots: EntryPoints) -> (ProcSlot, Lookup) {
        match self {
            Access::Search { entry, raw } => slots.searched(entry, raw),
            Access::Loaded { h } => after_load(slots.d3d12_create_device, h),
            Access::Answer { entry, proc } => slots.slot(entry).after_answer(proc),
        }
    }
}

/// The slots after the first `n` of `accesses`, which come one at a time, in
/// whatever order the threads get to them.
pub open spec fn slots_after(start: EntryPoints, accesses: Seq<Access>, n: nat) -> EntryPoints
    decreases n,
{
    if n == 0 {
        start
    } else {
        let before = slots_after(start, accesses, (n - 1) as nat);
        before.with(accesses[n - 1].entry(), accesses[n - 1].outcome(before).0)
    }
}

/// What the access at position `i` brings.
pub open spec fn result_at(start: EntryPoints, accesses: Seq<Access>, i: int) -> Lookup {
    accesses[i].outcome(slots_after(start, accesses, i as nat)).1
}

/// Whether the access at position `j` is the answer to the question that the access
/// at position `i` asked: the first answer for that entry point since.
pub open spec fn answers(start: EntryPoints, accesses: Seq<Access>, i: int, j: int) -> bool {
    &&& 0 <= i < j < accesses.len()
    &&& result_at(start, accesses, i) is Query
    &&& accesses[j] is Answer
    &&& accesses[i].entry() == accesses[j].entry()
    &&& forall|k: int|
        i < k < j && (#[trigger] accesses[k]) is Answer ==> accesses[k].entry()
            != accesses[j].entry()
}

/// Whether the access at position `j` ends a lookup with success: it brings the
/// address that a question asked for.
pub open spec fn succeeds(start: EntryPoints, accesses: Seq<Access>, j: int) -> bool {
    &&& accesses[j] matches Access::Answer { proc, .. } && proc is Some
    &&& exists|i: int| answers(start, accesses, i, j)
}

/// A kept address stays through all later accesses.
proof fn lemma_kept(
    start: EntryPoints,
    accesses: Seq<Access>,
    entry: EntryPoint,
    from: nat,
    to: nat,
)
    requires
        from <= to,
        slots_after(start, accesses, from).slot(entry) is Found,
    ensures
        slots_after(start, accesses, to).slot(entry) == slots_after(start, accesses, from).slot(
            entry,
        ),
    decreases to,
{
    if from < to {
        lemma_kept(start, accesses, entry, from, (to - 1) as nat);
    }
}

/// A question stays open until it is answered.
proof fn lemma_open(
    start: EntryPoints,
    accesses: Seq<Access>,
    entry: EntryPoint,
    from: nat,
    to: nat,
)
    requires
        from <= to <= accesses.len(),
        slots_after(start, accesses, from).slot(entry) is Asking,
        forall|k: int|
            from <= k < to && (#[trigger] accesses[k]) is Answer ==> accesses[k].entry() != entry,
    ensures
        slots_after(start, accesses, to).slot(entry) is Asking,
    decreases to,
{
    if from < to {
        lemma_open(start, accesses, entry, from, (to - 1) as nat);
        assert(accesses[to - 1] is Answer ==> accesses[to - 1].entry() != entry);
    }
}

/// A question is open exactly when it gets its answer.
proof fn lemma_answer_finds_question_open(
    start: EntryPoints,
    accesses: Seq<Access>,
    i: int,
    j: int,
)
    requires
        answers(start, accesses, i, j),
    ensures
        slots_after(start, accesses, j as nat).slot(accesses[j].entry()) is Asking,
{
    lemma_open(start, accesses, accesses[j].entry(), (i + 1) as nat, j as nat);
}

/// An open question was asked, and has not been answered since.
proof fn lemma_open_was_asked(
    start: EntryPoints,
    accesses: Seq<Access>,
    entry: EntryPoint,
    n: nat,
) -> (i: int)
    requires
        n <= accesses.len(),
        start.slot(entry) is Idle,
        slots_after(start, accesses, n).slot(entry) is Asking,
    ensures
        0 <= i < n,
        accesses[i].entry() == entry,
        result_at(start, accesses, i) is Query,
        forall|k: int|
            i < k < n && (#[trigger] accesses[k]) is Answer ==> accesses[k].entry() != entry,
    decreases n,
{
    let before = (n - 1) as nat;
    if slots_after(start, accesses, before).slot(entry) is Asking {
        lemma_open_was_asked(start, accesses, entry, before)
    } else {
        n - 1
    }
}

/// An access that finds an address leaves it in the slot.
proof fn lemma_found_is_kept(start: EntryPoints, accesses: Seq<Access>, i: int, found: usize)
    requires
        0 <= i < accesses.len(),
        result_at(start, accesses, i) == Lookup::Found(found),
    ensures
        slots_after(start, accesses, (i + 1) as nat).slot(accesses[i].entry()) == ProcSlot::Found(
            found,
        ),
{
}

/// A kept address is what an open question was answered.
proof fn lemma_kept_was_answered(
    start: EntryPoints,
    accesses: Seq<Access>,
    entry: EntryPoint,
    n: nat,
    found: usize,
) -> (ij: (int, int))
    requires
        n <= accesses.len(),
        start.slot(entry) is Idle,
        slots_after(start, accesses, n).slot(entry) == ProcSlot::Found(found),
    ensures
        answers(start, accesses, ij.0, ij.1),
        ij.1 < n,
        accesses[ij.1] == (Access::Answer { entry, proc: Some(found) }),
    decreases n,
{
    let before = (n - 1) as nat;
    if slots_after(start, accesses, before).slot(entry) is Found {
        lemma_kept(start, accesses, entry, before, n);
        lemma_kept_was_answered(start, accesses, entry, before, found)
    } else {
        (lemma_open_was_asked(start, accesses, entry, before), n - 1)
    }
}

/// All accesses that find an entry point find it at one and the same address, from
/// whatever threads and in whatever order they come.
pub proof fn law_one_address(
    start: EntryPoints,
    accesses: Seq<Access>,
    i: int,
    j: int,
    a: usize,
    b: usize,
)
    requires
        0 <= i <= j < accesses.len(),
        accesses[i].entry() == accesses[j].entry(),
        result_at(start, accesses, i) == Lookup::Found(a),
        result_at(start, accesses, j) == Lookup::Found(b),
    ensures
        a == b,
{
    if i < j {
        law_found_once(start, accesses, i, j, a);
    }
}

/// Once an entry point was found, every access for it finds it at the same address:
/// the loader is asked no more, whatever handle of the system's `d3d11.dll` is stored
/// by then.
pub proof fn law_found_once(
    start: EntryPoints,
    accesses: Seq<Access>,
    i: int,
    j: int,
    found: usize,
)
    requires
        0 <= i < j < accesses.len(),
        accesses[i].entry() == accesses[j].entry(),
        result_at(start, accesses, i) == Lookup::Found(found),
    ensures
        result_at(start, accesses, j) == Lookup::Found(found),
{
    lemma_found_is_kept(start, accesses, i, found);
    lemma_kept(start, accesses, accesses[i].entry(), (i + 1) as nat, j as nat);
}

/// One question at a time: an entry point is asked for again only where the last
/// question for it was answered, and with no address.
pub proof fn law_one_question_at_a_time(
    start: EntryPoints,
    accesses: Seq<Access>,
    i: int,
    j: int,
)
    requires
        0 <= i < j < accesses.len(),
        accesses[i].entry() == accesses[j].entry(),
        result_at(start, accesses, i) is Query,
        result_at(start, accesses, j) is Query,
    ensures
        exists|k: int|
            {
                &&& k < j
                &&& #[trigger] answers(start, accesses, i, k)
                &&& accesses[k] == (Access::Answer { entry: accesses[i].entry(), proc: None })
            },
{
    let entry = accesses[i].entry();
    if forall|k: int|
        i < k < j && (#[trigger] accesses[k]) is Answer ==> accesses[k].entry() != entry {
        lemma_open(start, accesses, entry, (i + 1) as nat, j as nat);
    } else {
        let k = lemma_first_answer(start, accesses, i, j);
        lemma_answer_finds_question_open(start, accesses, i, k);
        if accesses[k]->proc is Some {
            law_found_once(start, accesses, k, j, accesses[k]->proc->0);
        }
    }
}

/// Among the answers that came since a question was asked, one was the first.
proof fn lemma_first_answer(
    start: EntryPoints,
    accesses: Seq<Access>,
    i: int,
    n: int,
) -> (k: int)
    requires
        0 <= i < n <= accesses.len(),
        result_at(start, accesses, i) is Query,
        exists|k: int|
            i < k < n && (#[trigger] accesses[k]) is Answer && accesses[k].entry()
                == accesses[i].entry(),
    ensures
        k < n,
        answers(start, accesses, i, k),
    decreases n,
{
    if exists|k: int|
        i < k < n - 1 && (#[trigger] accesses[k]) is Answer && accesses[k].entry()
            == accesses[i].entry() {
        lemma_first_answer(start, accesses, i, n - 1)
    } else {
        n - 1
    }
}

/// At most one lookup of an entry point succeeds, from whatever threads and in
/// whatever order it is looked for; and from then on it is found where that lookup
/// found it.
pub proof fn law_one_lookup_succeeds(start: EntryPoints, accesses: Seq<Access>, i: int, j: int)
    requires
        0 <= i < j < accesses.len(),
        accesses[i].entry() == accesses[j].entry(),
        succeeds(start, accesses, i),
    ensures
        !succeeds(start, accesses, j),
        accesses[i] matches Access::Answer { proc: Some(found), .. } && result_at(
            start,
            accesses,
            j,
        ) == Lookup::Found(found),
{
    let asked = choose|q: int| answers(start, accesses, q, i);
    lemma_answer_finds_question_open(start, accesses, asked, i);
    let found = accesses[i]->proc->0;
    law_found_once(start, accesses, i, j, found);
    if succeeds(start, accesses, j) {
        let q = choose|q: int| answers(start, accesses, q, j);
        lemma_answer_finds_question_open(start, accesses, q, j);
        lemma_found_is_kept(start, accesses, i, found);
        lemma_kept(start, accesses, accesses[i].entry(), (i + 1) as nat, j as nat);
    }
}

/// Whoever finds an entry point has the whole of what one lookup brought, the only
/// one that succeeded: the answer to a question for that entry point's own export,
/// asked of `d3d12.dll` for `D3D12CreateDevice` and of the system's `d3d11.dll` for
/// any other.
pub proof fn law_found_is_what_the_one_lookup_brought(
    start: EntryPoints,
    accesses: Seq<Access>,
    n: int,
    found: usize,
)
    requires
        0 <= n < accesses.len(),
        start.slot(accesses[n].entry()) is Idle,
        result_at(start, accesses, n) == Lookup::Found(found),
    ensures
        exists|i: int, j: int|
            {
                &&& j <= n
                &&& #[trigger] answers(start, accesses, i, j)
                &&& accesses[j] == (Access::Answer {
                    entry: accesses[n].entry(),
                    proc: Some(found),
                })
                &&& succeeds(start, accesses, j)
                &&& forall|k: int|
                    0 <= k < accesses.len() && k != j && accesses[k].entry()
                        == accesses[n].entry() ==> !(#[trigger] succeeds(start, accesses, k))
                &&& result_at(start, accesses, i) matches Lookup::Query(query)
                &&& query.symbol == accesses[n].entry().export()
                &&& query.module != 0
                &&& match accesses[i] {
                    Access::Search { entry, raw } => !(entry is D3D12CreateDevice) && query.module
                        == raw,
                    Access::Loaded { h } => query.module == h,
                    Access::Answer { .. } => false,
                }
            },
{
    let entry = accesses[n].entry();
    lemma_found_is_kept(start, accesses, n, found);
    let (i, j) = lemma_kept_was_answered(start, accesses, entry, (n + 1) as nat, found);
    assert(answers(start, accesses, i, j));
    assert(succeeds(start, accesses, j));
    assert forall|k: int|
        0 <= k < accesses.len() && k != j && accesses[k].entry()
            == entry implies !(#[trigger] succeeds(start, accesses, k)) by {
        if k < j {
            if succeeds(start, accesses, k) {
                law_one_lookup_succeeds(start, accesses, k, j);
            }
        } else {
            law_one_lookup_succeeds(start, accesses, j, k);
        }
    }
}

/// A search is told to wait only while another one is under way: one that has yet to
/// load its library, or whose question has yet to be answered.
pub proof fn law_busy_means_under_way(start: EntryPoints, accesses: Seq<Access>, n: int)
    requires
        0 <= n < accesses.len(),
        start.slot(accesses[n].entry()) is Idle,
        result_at(start, accesses, n) is Busy,
    ensures
        exists|i: int|
            {
                &&& 0 <= i < n
                &&& (#[trigger] accesses[i]).entry() == accesses[n].entry()
                &&& result_at(start, accesses, i) is Query || result_at(start, accesses, i) is Load
                &&& forall|k: int|
                    i < k < n && (#[trigger] accesses[k]).entry() == accesses[n].entry()
                        ==> result_at(start, accesses, k) is Busy
            },
{
    let i = lemma_under_way_was_begun(start, accesses, accesses[n].entry(), n as nat);
    assert(accesses[i].entry() == accesses[n].entry());
}

/// What is under way was begun, and everybody since was told to wait.
proof fn lemma_under_way_was_begun(
    start: EntryPoints,
    accesses: Seq<Access>,
    entry: EntryPoint,
    n: nat,
) -> (i: int)
    requires
        n <= accesses.len(),
        start.slot(entry) is Idle,
        slots_after(start, accesses, n).slot(entry).known() is Busy,
    ensures
        0 <= i < n,
        accesses[i].entry() == entry,
        result_at(start, accesses, i) is Query || result_at(start, accesses, i) is Load,
        forall|k: int|
            i < k < n && (#[trigger] accesses[k]).entry() == entry ==> result_at(
                start,
                accesses,
                k,
            ) is Busy,
    decreases n,
{
    let last = n - 1;
    if accesses[last].entry() == entry && !(result_at(start, accesses, last) is Busy) {
        last
    } else {
        lemma_under_way_was_begun(start, accesses, entry, last as nat)
    }
}

/// `D3D12CreateDevice` is looked for in `d3d12.dll` and nowhere else; every other
/// entry point is asked of the system's `d3d11.dll` by its own export's name, and is
/// missing where that library is not loaded.
pub proof fn law_where_entry_points_are_looked_for(
    slots: EntryPoints,
    entry: EntryPoint,
    raw: usize,
)
    requires
        slots.slot(entry) is Idle,
    ensures
        entry is D3D12CreateDevice ==> slots.searched(entry, raw).1 == Lookup::Load(Library::D3D12),
        !(entry is D3D12CreateDevice) && raw == 0 ==> slots.searched(entry, raw).1
            == Lookup::Missing,
        !(entry is D3D12CreateDevice) && raw != 0 ==> slots.searched(entry, raw).1
            == Lookup::Query(ProcQuery { module: raw, symbol: entry.export() }),
{
}

/// Each entry point has a slot of its own: accesses for others never change what a
/// search for it brings.
pub proof fn law_slots_are_kept_apart(
    start: EntryPoints,
    accesses: Seq<Access>,
    entry: EntryPoint,
    raw: usize,
)
    requires
        forall|i: int| 0 <= i < accesses.len() ==> (#[trigger] accesses[i]).entry() != entry,
    ensures
        slots_after(start, accesses, accesses.len()).searched(entry, raw) == start.searched(
            entry,
            raw,
        ),
{
    lemma_others_unchanged(start, accesses, entry, accesses.len());
}

/// Accesses for other entry points leave a slot as it is.
proof fn lemma_others_unchanged(
    start: EntryPoints,
    accesses: Seq<Access>,
    entry: EntryPoint,
    n: nat,
)
    requires
        n <= accesses.len(),
        forall|i: int| 0 <= i < accesses.len() ==> (#[trigger] accesses[i]).entry() != entry,
    ensures
        slots_after(start, accesses, n).slot(entry) == start.slot(entry),
    decreases n,
{
    if n > 0 {
        lemma_others_unchanged(start, accesses, entry, (n - 1) as nat);
        assert(accesses[n - 1].entry() != entry);
    }
}

/// Each entry point has one slot, and writing it changes that slot alone.
pub proof fn law_slots_are_separate(
    slots: EntryPoints,
    entry: EntryPoint,
    other: EntryPoint,
    slot: ProcSlot,
)
    ensures
        slots.with(entry, slot).slot(entry) == slot,
        other != entry ==> slots.with(entry, slot).slot(other) == slots.slot(other),
        slots.slot(EntryPoint::D3D12CreateDevice) == slots.d3d12_create_device,
        slots.slot(EntryPoint::D3D11On12CreateDevice) == slots.d3d11on12_create_device,
        slots.slot(EntryPoint::ForwardedCoreCreateDevice) == slots.forwarded_core_create_device,
        slots.slot(EntryPoint::ForwardedCreateDeviceForD3D12)
            == slots.forwarded_create_device_for_d3d12,
        slots.slot(EntryPoint::ForwardedOn12CreateDevice) == slots.forwarded_on12_create_device,
{
}

/// Each entry point is the export whose name it has, and is reported missing by it.
pub proof fn law_entry_points_and_their_exports()
    ensures
        EntryPoint::D3D12CreateDevice.export() == Symbol::D3D12CreateDevice,
        EntryPoint::D3D11On12CreateDevice.export() == Symbol::D3D11On12CreateDevice,
        EntryPoint::ForwardedCoreCreateDevice.export() == Symbol::D3D11CoreCreateDevice,
        EntryPoint::ForwardedCreateDeviceForD3D12.export() == Symbol::D3D11CreateDeviceForD3D12,
        EntryPoint::ForwardedOn12CreateDevice.export() == Symbol::D3D11On12CreateDevice,
        EntryPoint::D3D12CreateDevice.missing() == "D3D12CreateDevice not found in d3d12.dll"@,
        EntryPoint::D3D11On12CreateDevice.missing()
            == "D3D11On12CreateDevice not found in real d3d11.dll"@,
        EntryPoint::ForwardedCoreCreateDevice.missing()
            == "d3d11on12 proxy: D3D11CoreCreateDevice\0 not found"@,
        EntryPoint::ForwardedCreateDeviceForD3D12.missing()
            == "d3d11on12 proxy: D3D11CreateDeviceForD3D12\0 not found"@,
        EntryPoint::ForwardedOn12CreateDevice.missing()
            == "d3d11on12 proxy: D3D11On12CreateDevice\0 not found"@,
{
    reveal_strlit("d3d11on12 proxy: ");
    reveal_strlit("\0 not found");
    reveal_strlit("D3D11CoreCreateDevice");
    reveal_strlit("D3D11CreateDeviceForD3D12");
    reveal_strlit("D3D11On12CreateDevice");
    reveal_strlit("d3d11on12 proxy: D3D11CoreCreateDevice\0 not found");
    reveal_strlit("d3d11on12 proxy: D3D11CreateDeviceForD3D12\0 not found");
    reveal_strlit("d3d11on12 proxy: D3D11On12CreateDevice\0 not found");
    assert(EntryPoint::ForwardedCoreCreateDevice.missing()
        =~= "d3d11on12 proxy: D3D11CoreCreateDevice\0 not found"@);
    assert(EntryPoint::ForwardedCreateDeviceForD3D12.missing()
        =~= "d3d11on12 proxy: D3D11CreateDeviceForD3D12\0 not found"@);
    assert(EntryPoint::ForwardedOn12CreateDevice.missing()
        =~= "d3d11on12 proxy: D3D11On12CreateDevice\0 not found"@);
}

/// A search that waits for its library ends as missing only where the library could
/// not be loaded: loaded at any handle, the library is asked for
/// `D3D12CreateDevice`, and its answer is awaited.
pub proof fn law_search_waits_for_its_library(slots: EntryPoints, h: usize)
    requires
        slots.d3d12_create_device is Loading,
    ensures
        h != 0 ==> (Access::Loaded { h }).outcome(slots) == (
            ProcSlot::Asking,
            Lookup::Query(ProcQuery { module: h, symbol: Symbol::D3D12CreateDevice }),
        ),
        h == 0 ==> (Access::Loaded { h }).outcome(slots) == (ProcSlot::Idle, Lookup::Missing),
{
}

/// Whatever a search finds in the slot of its entry point decides: nothing, and the
/// right library is loaded or asked; a search under way, and it waits; an address,
/// and it has found it. An answer is taken exactly where a question is open.
pub proof fn law_slot_decides(
    slots: EntryPoints,
    entry: EntryPoint,
    raw: usize,
    proc: Option<usize>,
)
    ensures
        (Access::Search { entry, raw }).outcome(slots) == match slots.slot(entry) {
            ProcSlot::Idle => if entry == EntryPoint::D3D12CreateDevice {
                (ProcSlot::Loading, Lookup::Load(Library::D3D12))
            } else if raw != 0 {
                (
                    ProcSlot::Asking,
                    Lookup::Query(ProcQuery { module: raw, symbol: entry.export() }),
                )
            } else {
                (ProcSlot::Idle, Lookup::Missing)
            },
            ProcSlot::Loading => (ProcSlot::Loading, Lookup::Busy),
            ProcSlot::Asking => (ProcSlot::Asking, Lookup::Busy),
            ProcSlot::Found(found) => (ProcSlot::Found(found), Lookup::Found(found)),
        },
        slots.searched(entry, raw) == (Access::Search { entry, raw }).outcome(slots),
        slots.slot(entry) is Asking ==> (Access::Answer { entry, proc }).outcome(slots) == (
            match proc {
                Some(found) => (ProcSlot::Found(found), Lookup::Found(found)),
                None => (ProcSlot::Idle, Lookup::Missing),
            }),
        !(slots.slot(entry) is Asking) ==> (Access::Answer { entry, proc }).outcome(slots).0
            == slots.slot(entry),
{
}

/// A lookup that the loader answers finds what the loader answered, and so does every
/// search after it: of whatever handle it was asked and whatever the address is.
pub proof fn law_lookup_finds_the_answer(
    slots: EntryPoints,
    entry: EntryPoint,
    handle: usize,
    proc: usize,
    raw: usize,
)
    requires
        slots.slot(entry) is Idle,
        handle != 0,
    ensures
        ({
            let asking = if entry == EntryPoint::D3D12CreateDevice {
                seq![Access::Search { entry, raw: handle }, Access::Loaded { h: handle }]
            } else {
                seq![Access::Search { entry, raw: handle }]
            };
            let accesses = asking.push(Access::Answer { entry, proc: Some(proc) }).push(
                Access::Search { entry, raw },
            );
            &&& result_at(slots, accesses, asking.len() - 1) == Lookup::Query(
                ProcQuery { module: handle, symbol: entry.export() },
            )
            &&& result_at(slots, accesses, asking.len() as int) == Lookup::Found(proc)
            &&& result_at(slots, accesses, (asking.len() + 1) as int) == Lookup::Found(proc)
        }),
{
    reveal_with_fuel(slots_after, 4);
}

} // verus!
