//! The protocol between a Qt object and the Rust object behind it: which
//! signal a name stands for, which slot an invocation reaches, and how the
//! invocation's arguments are taken.

use vstd::prelude::*;

verus! {

/// The index of the signal called `name` among the declared `signals`: the
/// first position that holds that name.
pub fn signal_id(signals: &[String], name: &str) -> (id: u32)
    requires
        signals@.len() <= u32::MAX,
        exists|i: int| 0 <= i < signals@.len() && #[trigger] signals@[i]@ == name@,
    ensures
        id < signals@.len(),
        signals@[id as int]@ == name@,
        forall|j: int| 0 <= j < id ==> #[trigger] signals@[j]@ != name@,
{
    let wanted: String = name.to_owned();
    let mut id: u32 = 0;
    let mut i: usize = 0;
    while i < signals.len()
        invariant
            signals@.len() <= u32::MAX,
            exists|k: int| i <= k < signals@.len() && #[trigger] signals@[k]@ == name@,
            i <= signals@.len(),
            id == i,
            wanted@ == name@,
            forall|j: int| 0 <= j < i ==> #[trigger] signals@[j]@ != name@,
        decreases signals@.len() - i,
    {
        if signals[i] == wanted {
            return id;
        }
        i = i + 1;
        id = id + 1;
    }
    id
}

/// The slot that an invocation of method index `method` reaches on an object
/// with `n_slots` slots: slots come first among its methods, so indices
/// `0 .. n_slots` name them and any other index reaches none.
pub fn slot_to_call(n_slots: usize, method: i32) -> (slot: Option<usize>)
    ensures
        slot == (if 0 <= method < n_slots { Some(method as usize) } else { None::<usize> }),
{
    if method < 0 {
        None
    } else {
        let m: usize = method as usize;
        if m < n_slots {
            Some(m)
        } else {
            None
        }
    }
}

/// Takes the arguments of a slot invocation in order. `converted[k]` is the
/// argument at position `k + 1` of the invocation (position 0 carries the
/// return value), converted to the slot's parameter type, or `None` where
/// the conversion fails. Either every argument converts and the values come
/// back in order, or the position of the first that does not is returned.
pub fn take_slot_args<T>(converted: Vec<Option<T>>) -> (r: Result<Vec<T>, u8>)
    requires
        converted@.len() < 255,
    ensures
        match r {
            Ok(args) => args@.len() == converted@.len() && forall|k: int|
                0 <= k < args@.len() ==> #[trigger] converted@[k] == Some(args@[k]),
            Err(pos) => 1 <= pos <= converted@.len() && converted@[pos - 1] is None
                && forall|k: int| 0 <= k < pos - 1 ==> #[trigger] converted@[k] is Some,
        },
        (r is Ok) <==> forall|k: int| 0 <= k < converted@.len() ==> #[trigger] converted@[k] is Some,
{
    let ghost all = converted@;
    let mut rest = converted;
    let mut args: Vec<T> = Vec::new();
    let mut pos: u8 = 1;
    while rest.len() > 0
        invariant
            all.len() < 255,
            all == converted@,
            args@.len() <= all.len(),
            pos == args@.len() + 1,
            rest@ == all.subrange(args@.len() as int, all.len() as int),
            forall|k: int| 0 <= k < args@.len() ==> #[trigger] all[k] == Some(args@[k]),
        decreases rest@.len(),
    {
        let ghost before = rest@;
        let next = rest.remove(0);
        assert(before[0] == all[args@.len() as int]);
        assert(rest@ =~= all.subrange(args@.len() as int + 1, all.len() as int));
        match next {
            Some(v) => {
                args.push(v);
                pos = pos + 1;
                assert(rest@ =~= all.subrange(args@.len() as int, all.len() as int));
            },
            None => {
                assert(!(converted@[pos - 1] is Some));
                assert forall|k: int| 0 <= k < pos - 1 implies #[trigger] converted@[k] is Some by {
                    assert(all[k] == Some(args@[k]));
                }
                return Err(pos);
            },
        }
    }
    assert(args@.len() == all.len());
    assert forall|k: int| 0 <= k < all.len() implies #[trigger] all[k] is Some by {
        assert(all[k] == Some(args@[k]));
    }
    Ok(args)
}

} // verus!
