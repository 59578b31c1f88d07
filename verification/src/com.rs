//! COM references: who holds them and how they are given back.

use crate::abi::RELEASE_SLOT;
use vstd::multiset::Multiset;
use vstd::prelude::*;

verus! {

/// One reference to the COM object at `ptr`, or nothing where `ptr` is null.
///
/// A reference that is not taken out is released when its holder drops it.
#[derive(Debug, PartialEq, Eq)]
pub struct ComPtr {
    pub ptr: usize,
}

/// Something to be done to memory or to a COM object, in the order given.
#[derive(Clone, Copy, Debug, PartialEq, Eq, Structural)]
pub enum Effect {
    /// Give one reference to this object back.
    Release(usize),
    /// Store the address of an object, with the reference to it, for the caller.
    Write { slot: usize, object: usize },
    /// Copy the swap chain description at this address into a variable of the
    /// proxy's own.
    Copy { address: usize },
}

impl Effect {
    /// Where the method to call stands in the object's function table; `None` for a
    /// store or a copy, which call none.
    pub fn vtable_slot(&self) -> (slot: Option<usize>)
        ensures
            slot == (if *self is Release {
                Some(RELEASE_SLOT)
            } else {
                None
            }),
    {
        match self {
            Effect::Release(_) => Some(RELEASE_SLOT),
            Effect::Write { .. } | Effect::Copy { .. } => None,
        }
    }
}

impl ComPtr {
    /// Holds nothing.
    pub fn null() -> (p: ComPtr)
        ensures
            p.ptr == 0,
    {
        ComPtr { ptr: 0 }
    }

    /// Takes charge of the reference that came with `raw`.
    pub fn new(raw: usize) -> (p: ComPtr)
        ensures
            p.ptr == raw,
    {
        ComPtr { ptr: raw }
    }

    /// The object's address; the reference stays here.
    pub fn as_ptr(&self) -> (raw: usize)
        ensures
            raw == self.ptr,
    {
        self.ptr
    }

    /// Whether nothing is held.
    pub fn is_null(&self) -> (null: bool)
        ensures
            null == (self.ptr == 0),
    {
        self.ptr == 0
    }

    /// Transfers the reference out: whoever gets the address releases it.
    pub fn take(self) -> (raw: usize)
        ensures
            raw == self.ptr,
    {
        self.ptr
    }

    /// Gives the reference back: adds its release to `effects`, or nothing where
    /// nothing is held.
    pub fn drop(self, effects: &mut Vec<Effect>)
        ensures
            final(effects)@ == (if self.ptr == 0 {
                old(effects)@
            } else {
                old(effects)@.push(Effect::Release(self.ptr))
            }),
            final(effects)@ == old(effects)@ + drops(seq![self.ptr]),
    {
        proof {
            reveal_with_fuel(drops, 2);
            assert(seq![self.ptr].drop_last() =~= Seq::<usize>::empty());
        }
        if !self.is_null() {
            effects.push(Effect::Release(self.ptr));
        }
    }
}

/// What happens when the holders `held`, in the order in which they came to be,
/// go out of scope together: the youngest drops first, and a null one does
/// nothing.
pub open spec fn drops(held: Seq<usize>) -> Seq<Effect>
    decreases held.len(),
{
    if held.len() == 0 {
        Seq::empty()
    } else if held.last() == 0 {
        drops(held.drop_last())
    } else {
        seq![Effect::Release(held.last())] + drops(held.drop_last())
    }
}

/// The reference that comes with the address `ptr`: none with null.
pub open spec fn reference(ptr: usize) -> Multiset<usize> {
    if ptr == 0 {
        Multiset::empty()
    } else {
        Multiset::singleton(ptr)
    }
}

/// How many references to each object the holders `held` have.
pub open spec fn references(held: Seq<usize>) -> Multiset<usize>
    decreases held.len(),
{
    if held.len() == 0 {
        Multiset::empty()
    } else {
        references(held.drop_last()).add(reference(held.last()))
    }
}

/// How many references to each object `effects` give back.
pub open spec fn released(effects: Seq<Effect>) -> Multiset<usize>
    decreases effects.len(),
{
    if effects.len() == 0 {
        Multiset::empty()
    } else {
        released(effects.drop_last()).add(
            match effects.last() {
                Effect::Release(object) => reference(object),
                _ => Multiset::empty(),
            },
        )
    }
}

/// How many references to each object `effects` pass on to the caller.
pub open spec fn handed_over(effects: Seq<Effect>) -> Multiset<usize>
    decreases effects.len(),
{
    if effects.len() == 0 {
        Multiset::empty()
    } else {
        handed_over(effects.drop_last()).add(
            match effects.last() {
                Effect::Write { object, .. } => reference(object),
                _ => Multiset::empty(),
            },
        )
    }
}

/// The stores among `effects`, in their order.
pub open spec fn stores(effects: Seq<Effect>) -> Seq<Effect>
    decreases effects.len(),
{
    if effects.len() == 0 {
        Seq::empty()
    } else if effects.last() is Write {
        stores(effects.drop_last()).push(effects.last())
    } else {
        stores(effects.drop_last())
    }
}

/// The copies among `effects`, in their order.
pub open spec fn copies(effects: Seq<Effect>) -> Seq<Effect>
    decreases effects.len(),
{
    if effects.len() == 0 {
        Seq::empty()
    } else if effects.last() is Copy {
        copies(effects.drop_last()).push(effects.last())
    } else {
        copies(effects.drop_last())
    }
}

/// Dropping holders one after another, the youngest first, is dropping them
/// together.
pub proof fn lemma_drops_split(older: Seq<usize>, younger: Seq<usize>)
    ensures
        drops(older + younger) == drops(younger) + drops(older),
    decreases younger.len(),
{
    if younger.len() == 0 {
        assert(older + younger =~= older);
        assert(drops(younger) + drops(older) =~= drops(older));
    } else {
        let all = older + younger;
        assert(all.drop_last() =~= older + younger.drop_last());
        assert(all.last() == younger.last());
        lemma_drops_split(older, younger.drop_last());
        assert(drops(all) =~= drops(younger) + drops(older));
    }
}

/// The references of a short row of holders, one by one.
pub proof fn lemma_references_listed(a: usize, b: usize, c: usize, d: usize, e: usize)
    ensures
        references(Seq::empty()) == Multiset::<usize>::empty(),
        references(seq![a]) == reference(a),
        references(seq![a, b]) == reference(a).add(reference(b)),
        references(seq![a, b, c]) == reference(a).add(reference(b)).add(reference(c)),
        references(seq![a, b, c, d]) == reference(a).add(reference(b)).add(reference(c)).add(
            reference(d),
        ),
        references(seq![a, b, c, d, e]) == reference(a).add(reference(b)).add(reference(c)).add(
            reference(d),
        ).add(reference(e)),
{
    reveal_with_fuel(references, 2);
    assert(seq![a].drop_last() =~= Seq::<usize>::empty());
    assert(seq![a, b].drop_last() =~= seq![a]);
    assert(seq![a, b, c].drop_last() =~= seq![a, b]);
    assert(seq![a, b, c, d].drop_last() =~= seq![a, b, c]);
    assert(seq![a, b, c, d, e].drop_last() =~= seq![a, b, c, d]);
    assert(references(seq![a]) =~= reference(a));
    assert(references(seq![a, b]) == references(seq![a]).add(reference(b)));
    assert(references(seq![a, b, c]) == references(seq![a, b]).add(reference(c)));
    assert(references(seq![a, b, c, d]) == references(seq![a, b, c]).add(reference(d)));
    assert(references(seq![a, b, c, d, e]) == references(seq![a, b, c, d]).add(reference(e)));
}

/// The drops of a short row of holders, one by one.
pub proof fn lemma_drops_listed(a: usize, b: usize, c: usize, d: usize, e: usize)
    ensures
        drops(seq![a, b]) == drops(seq![b]) + drops(seq![a]),
        drops(seq![a, b, c]) == drops(seq![c]) + drops(seq![b]) + drops(seq![a]),
        drops(seq![a, b, c, d]) == drops(seq![d]) + drops(seq![c]) + drops(seq![b]) + drops(
            seq![a],
        ),
        drops(seq![a, b, c, d, e]) == drops(seq![e]) + drops(seq![d]) + drops(seq![c]) + drops(
            seq![b],
        ) + drops(seq![a]),
{
    assert(drops(seq![a, b]) == drops(seq![b]) + drops(seq![a])) by {
        lemma_drops_split(seq![a], seq![b]);
        assert(seq![a] + seq![b] =~= seq![a, b]);
    }
    assert(drops(seq![a, b, c]) == drops(seq![c]) + drops(seq![a, b])) by {
        lemma_drops_split(seq![a, b], seq![c]);
        assert(seq![a, b] + seq![c] =~= seq![a, b, c]);
    }
    assert(drops(seq![a, b, c, d]) == drops(seq![d]) + drops(seq![a, b, c])) by {
        lemma_drops_split(seq![a, b, c], seq![d]);
        assert(seq![a, b, c] + seq![d] =~= seq![a, b, c, d]);
    }
    assert(drops(seq![a, b, c, d, e]) == drops(seq![e]) + drops(seq![a, b, c, d])) by {
        lemma_drops_split(seq![a, b, c, d], seq![e]);
        assert(seq![a, b, c, d] + seq![e] =~= seq![a, b, c, d, e]);
    }
    let (da, db, dc) = (drops(seq![a]), drops(seq![b]), drops(seq![c]));
    let (dd, de) = (drops(seq![d]), drops(seq![e]));
    lemma_three_joined(dc, db, da);
    lemma_three_joined(dd, dc + db, da);
    lemma_three_joined(dd, dc, db);
    lemma_three_joined(de, dd + dc + db, da);
    lemma_three_joined(de, dd + dc, db);
    lemma_three_joined(de, dd, dc);
}

/// It plays no part which of three runs of effects are joined first.
proof fn lemma_three_joined(x: Seq<Effect>, y: Seq<Effect>, z: Seq<Effect>)
    ensures
        x + (y + z) == x + y + z,
{
    assert(x + (y + z) =~= x + y + z);
}

/// What two runs of effects give back, pass on, store and copy adds up.
pub proof fn lemma_effects_split(a: Seq<Effect>, b: Seq<Effect>)
    ensures
        stores(a + b) == stores(a) + stores(b),
        copies(a + b) == copies(a) + copies(b),
        released(a + b) == released(a).add(released(b)),
        handed_over(a + b) == handed_over(a).add(handed_over(b)),
    decreases b.len(),
{
    if b.len() == 0 {
        assert(a + b =~= a);
        assert(stores(a) + stores(b) =~= stores(a));
        assert(copies(a) + copies(b) =~= copies(a));
        assert(released(a).add(released(b)) =~= released(a));
        assert(handed_over(a).add(handed_over(b)) =~= handed_over(a));
    } else {
        assert((a + b).drop_last() =~= a + b.drop_last());
        lemma_effects_split(a, b.drop_last());
        assert(stores(a + b) =~= stores(a) + stores(b));
        assert(copies(a + b) =~= copies(a) + copies(b));
        assert(released(a + b) =~= released(a).add(released(b)));
        assert(handed_over(a + b) =~= handed_over(a).add(handed_over(b)));
    }
}

/// Holders that go out of scope give back exactly the references that they have,
/// and store and copy nothing.
pub proof fn law_drops_release_what_is_held(held: Seq<usize>)
    ensures
        released(drops(held)) == references(held),
        handed_over(drops(held)) == Multiset::<usize>::empty(),
        stores(drops(held)) == Seq::<Effect>::empty(),
        copies(drops(held)) == Seq::<Effect>::empty(),
    decreases held.len(),
{
    if held.len() > 0 {
        let rest = held.drop_last();
        law_drops_release_what_is_held(rest);
        if held.last() != 0 {
            let first = seq![Effect::Release(held.last())];
            lemma_effects_split(first, drops(rest));
            assert(first.drop_last() =~= Seq::<Effect>::empty());
            assert(released(first) =~= reference(held.last())) by {
                reveal_with_fuel(released, 2);
            }
            assert(handed_over(first) =~= Multiset::<usize>::empty()) by {
                reveal_with_fuel(handed_over, 2);
            }
            assert(stores(first) =~= Seq::<Effect>::empty()) by {
                reveal_with_fuel(stores, 2);
            }
            assert(copies(first) =~= Seq::<Effect>::empty()) by {
                reveal_with_fuel(copies, 2);
            }
        }
        assert(released(drops(held)) =~= references(held));
        assert(handed_over(drops(held)) =~= Multiset::<usize>::empty());
        assert(stores(drops(held)) =~= Seq::<Effect>::empty());
        assert(copies(drops(held)) =~= Seq::<Effect>::empty());
    }
}

/// Holders are dropped from the youngest to the oldest. Each gives its reference back
/// by one release, whatever its address; only one that has none does nothing.
pub proof fn law_drops_go_from_the_youngest(held: Seq<usize>, p: usize)
    ensures
        drops(Seq::empty()) == Seq::<Effect>::empty(),
        p != 0 ==> drops(held.push(p)) == seq![Effect::Release(p)] + drops(held),
        p == 0 ==> drops(held.push(p)) == drops(held),
        p != 0 ==> drops(seq![p]) == seq![Effect::Release(p)],
        p == 0 ==> drops(seq![p]) == Seq::<Effect>::empty(),
{
    reveal_with_fuel(drops, 2);
    assert(held.push(p).drop_last() =~= held);
    assert(seq![p].drop_last() =~= Seq::<usize>::empty());
    assert(seq![Effect::Release(p)] + Seq::<Effect>::empty() =~= seq![Effect::Release(p)]);
}

/// A release gives back one reference and a store hands one over, to any object; what
/// is done later changes nothing in what was done before.
pub proof fn law_what_effects_do(effects: Seq<Effect>, slot: usize, object: usize)
    requires
        object != 0,
    ensures
        released(effects.push(Effect::Release(object))) == released(effects).insert(object),
        handed_over(effects.push(Effect::Write { slot, object })) == handed_over(effects).insert(
            object,
        ),
        stores(effects.push(Effect::Write { slot, object })) == stores(effects).push(
            Effect::Write { slot, object },
        ),
        stores(effects.push(Effect::Release(object))) == stores(effects),
{
    assert(effects.push(Effect::Release(object)).drop_last() =~= effects);
    assert(effects.push(Effect::Write { slot, object }).drop_last() =~= effects);
    assert(released(effects.push(Effect::Release(object))) =~= released(effects).insert(object));
    assert(handed_over(effects.push(Effect::Write { slot, object })) =~= handed_over(
        effects,
    ).insert(object));
}

} // verus!
