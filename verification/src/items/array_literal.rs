//! Array literals: `[a, b, c]`. The items share one type: the item type that
//! the type hint gives, else the first item's, widened to a common type with
//! each later item.
use vstd::prelude::*;
use crate::items::if_block::count_fitting;

verus! {

/// Where the item type stands after the first `n` items: whether it is known,
/// whether every item so far fitted, and how many items are pushed.
/// `items[i]` is nothing where the item did not compile, else whether its type
/// has a common type with the item type that stands before it.
pub open spec fn array_state(type_hinted: bool, items: Seq<Option<bool>>, n: int) -> (bool, bool, nat)
    decreases n,
{
    if n <= 0 {
        (type_hinted, true, 0)
    } else {
        let (known, ok, pushed) = array_state(type_hinted, items, n - 1);
        match items[n - 1] {
            None => (known, ok, pushed),
            Some(has_common_type) => if !known {
                (true, ok, pushed + 1)
            } else if has_common_type {
                (known, ok, pushed + 1)
            } else {
                (known, false, pushed)
            },
        }
    }
}

/// The number of items that an array literal holds: nothing when an item's
/// type does not fit (each such item is reported), else the items that
/// compiled. `type_hinted` tells whether the type hint gives an item type.
pub fn array_literal_items(type_hinted: bool, items: &Vec<Option<bool>>) -> (result: Option<usize>)
    ensures
        ({
            let (_, ok, pushed) = array_state(type_hinted, items@, items@.len() as int);
            result == if ok { Some(pushed as usize) } else { None::<usize> }
        }),
{
    let mut known = type_hinted;
    let mut ok = true;
    let mut pushed: usize = 0;
    let mut i: usize = 0;
    while i < items.len()
        invariant
            i <= items.len(),
            pushed <= i,
            (known, ok, pushed as nat) == array_state(type_hinted, items@, i as int),
        decreases items.len() - i,
    {
        match items[i] {
            None => {},
            Some(has_common_type) => {
                if !known {
                    known = true;
                    pushed = pushed + 1;
                } else if has_common_type {
                    pushed = pushed + 1;
                } else {
                    ok = false;
                }
            },
        }
        i = i + 1;
    }
    if ok { Some(pushed) } else { None }
}

proof fn lemma_array_counts(type_hinted: bool, items: Seq<Option<bool>>, n: int)
    requires
        0 <= n <= items.len(),
    ensures
        ({
            let (known, ok, pushed) = array_state(type_hinted, items, n);
            let fits = count_fitting(items.subrange(0, n), true);
            let misfits = count_fitting(items.subrange(0, n), false);
            &&& known <==> type_hinted || fits + misfits > 0
            &&& ok ==> pushed == fits + misfits
            &&& fits <= pushed <= fits + misfits
            &&& type_hinted ==> pushed == fits && (ok <==> misfits == 0)
            &&& misfits == 0 ==> ok
            &&& misfits >= 2 ==> !ok
        }),
    decreases n,
{
    reveal(Seq::filter);
    if n > 0 {
        lemma_array_counts(type_hinted, items, n - 1);
        assert(items.subrange(0, n).drop_last() =~= items.subrange(0, n - 1));
        assert(items.subrange(0, n).last() == items[n - 1]);
        let t0 = count_fitting(items.subrange(0, n - 1), true);
        let f0 = count_fitting(items.subrange(0, n - 1), false);
        assert(count_fitting(items.subrange(0, n), true) == t0 + if items[n - 1] == Some(true) { 1nat } else { 0nat });
        assert(count_fitting(items.subrange(0, n), false) == f0 + if items[n - 1] == Some(false) { 1nat } else { 0nat });
        match items[n - 1] {
            Some(b) => if b {
                assert(items[n - 1] == Some(true));
            } else {
                assert(items[n - 1] == Some(false));
            },
            None => {},
        }
    }
}

/// Every item that compiled is pushed unless it is reported: with an item type
/// from the hint, exactly the items whose type fits it are pushed, and the
/// literal stands exactly when no item misfits; without one, the first item
/// sets the type, so the literal stands when no item misfits and falls when
/// two do. A literal that stands holds every item that compiled.
pub proof fn law_array_items(type_hinted: bool, items: Seq<Option<bool>>)
    ensures
        ({
            let (_, ok, pushed) = array_state(type_hinted, items, items.len() as int);
            let fits = count_fitting(items, true);
            let misfits = count_fitting(items, false);
            &&& ok ==> pushed == fits + misfits
            &&& fits <= pushed <= fits + misfits
            &&& type_hinted ==> pushed == fits && (ok <==> misfits == 0)
            &&& misfits == 0 ==> ok
            &&& misfits >= 2 ==> !ok
        }),
{
    lemma_array_counts(type_hinted, items, items.len() as int);
    assert(items.subrange(0, items.len() as int) =~= items);
}

} // verus!
