use vstd::arithmetic::div_mod::lemma_mod_add_multiples_vanish;
use vstd::arithmetic::div_mod::lemma_small_mod;
use vstd::prelude::*;

verus! {

/// No underflow when stepping a ring index backwards.  The modular
/// decrement that the back removal uses maps slot zero of a ring of `wrap`
/// slots to the last slot `wrap - 1`, and every other slot to the one
/// before it, always staying inside `[0, wrap)` — unlike a raw unsigned
/// subtraction, which would underflow at zero.
pub proof fn lemma_ring_dec_no_underflow(base: int, wrap: int)
    requires
        0 <= base < wrap,
    ensures
        (base + wrap - 1) % wrap == if base == 0 {
            wrap - 1
        } else {
            base - 1
        },
        0 <= (base + wrap - 1) % wrap < wrap,
{
    if base == 0 {
        lemma_small_mod((wrap - 1) as nat, wrap as nat);
    } else {
        lemma_mod_add_multiples_vanish(base - 1, wrap);
        lemma_small_mod((base - 1) as nat, wrap as nat);
    }
}

/// First-in-first-out order.  A queue whose content is `items` hands its
/// elements back in exactly the order they were enqueued: after `i` front
/// removals the content is `items.skip(i)`, so the next front removal
/// returns `items[i]` and leaves `items.skip(i + 1)`; once all
/// `items.len()` elements are gone the content is empty and every further
/// removal reports `None`.
pub proof fn lemma_fifo_order<T>(items: Seq<T>, i: int)
    requires
        0 <= i < items.len(),
    ensures
        items.skip(i).first() == items[i],
        items.skip(i).drop_first() == items.skip(i + 1),
        items.skip(items.len() as int) == Seq::<T>::empty(),
{
    assert(items.skip(i).drop_first() =~= items.skip(i + 1));
    assert(items.skip(items.len() as int) =~= Seq::<T>::empty());
}

/// Deque symmetry.  For any queue content `s`, enqueuing `x` at the front
/// and immediately dequeuing from the front returns `x` and restores `s`;
/// enqueuing `x` at the back and immediately dequeuing from the back does
/// the same.  This holds for every state, the empty one included.
pub proof fn lemma_deque_symmetry<T>(s: Seq<T>, x: T)
    ensures
        s.insert(0, x).len() > 0,
        s.insert(0, x).first() == x,
        s.insert(0, x).drop_first() == s,
        s.push(x).len() > 0,
        s.push(x).last() == x,
        s.push(x).drop_last() == s,
{
    s.insert_ensures(0, x);
    assert(s.insert(0, x).drop_first() =~= s);
    assert(s.push(x).drop_last() =~= s);
}

} // verus!
