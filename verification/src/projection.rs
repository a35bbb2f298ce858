use crate::error::ReferenceError;
use vstd::prelude::*;

verus! {

/// `projection` can be called on a base that holds `from`.
pub open spec fn accepts<B, X, P: Fn(&mut B) -> &mut X>(projection: P, from: B) -> bool {
    forall|m: &mut B| *m == from ==> #[trigger] projection.requires((m,))
}

/// `projection`, called on a base that holds `from`, may hand out a field
/// that holds `to`.
pub open spec fn narrows<B, X, P: Fn(&mut B) -> &mut X>(projection: P, from: B, to: X) -> bool {
    exists|m: &mut B, x: &mut X| *m == from && #[trigger] projection.ensures((m,), x) && *x == to
}

/// `lookup` can be called on a base that holds `from`.
pub open spec fn accepts_lookup<B, X, P: Fn(&mut B) -> Option<&mut X>>(lookup: P, from: B) -> bool {
    forall|m: &mut B| *m == from ==> #[trigger] lookup.requires((m,))
}

/// `lookup`, called on a base that holds `from`, may find a target that
/// holds `to`.
pub open spec fn finds<B, X, P: Fn(&mut B) -> Option<&mut X>>(lookup: P, from: B, to: X) -> bool {
    exists|m: &mut B, x: &mut X|
        *m == from && #[trigger] lookup.ensures((m,), Some(x)) && *x == to
}

/// `lookup`, called on a base that holds `from`, may find nothing.
pub open spec fn misses<B, X, P: Fn(&mut B) -> Option<&mut X>>(lookup: P, from: B) -> bool {
    exists|m: &mut B| *m == from && #[trigger] lookup.ensures((m,), None::<&mut X>)
}

/// Runs `f` on `target` and returns what it returned. The closure sees the
/// value that `target` held, and what it leaves there is what `target` holds
/// afterwards.
pub fn apply<T, R, F>(target: &mut T, f: F) -> (r: R) where
    F: FnOnce(&mut T) -> R,

    requires
        forall|t: &mut T| *t == *old(target) ==> #[trigger] f.requires((t,)),
    ensures
        exists|t: &mut T|
            *t == *old(target) && *final(t) == *final(target) && #[trigger] f.ensures((t,), r),
{
    f(target)
}

/// Narrows `base` with `projection` and runs `f` on the field that the
/// projection picked. The field never leaves this call: whatever `f` leaves
/// in it is written back into `base` as the projection says.
pub fn apply_through<B, X, R, P, F>(base: &mut B, projection: &P, f: F) -> (r: R) where
    P: Fn(&mut B) -> &mut X,
    F: FnOnce(&mut X) -> R,

    requires
        forall|m: &mut B| *m == *old(base) ==> #[trigger] projection.requires((m,)),
        forall|m: &mut B, x: &mut X, t: &mut X|
            *m == *old(base) && #[trigger] projection.ensures((m,), x) && *t == *x
                ==> #[trigger] f.requires((t,)),
    ensures
        exists|m: &mut B, x: &mut X, t: &mut X|
            *m == *old(base) && *final(m) == *final(base) && #[trigger] projection.ensures(
                (m,),
                x,
            ) && *t == *x && *final(t) == *final(x) && #[trigger] f.ensures((t,), r),
{
    let field = projection(base);
    f(field)
}

/// As [`apply_through`], for a projection that looks its target up and may
/// find nothing. `f` runs exactly when the projection found a target;
/// otherwise the result is `NotFound` and `f` was never called.
pub fn try_apply_through<B, X, R, P, F>(base: &mut B, projection: &P, f: F) -> (r: Result<
    R,
    ReferenceError,
>) where
    P: Fn(&mut B) -> Option<&mut X>,
    F: FnOnce(&mut X) -> R,

    requires
        forall|m: &mut B| *m == *old(base) ==> #[trigger] projection.requires((m,)),
        forall|m: &mut B, x: &mut X, t: &mut X|
            *m == *old(base) && #[trigger] projection.ensures((m,), Some(x)) && *t == *x
                ==> #[trigger] f.requires((t,)),
    ensures
        match r {
            Ok(v) => exists|m: &mut B, x: &mut X, t: &mut X|
                *m == *old(base) && *final(m) == *final(base) && #[trigger] projection.ensures(
                    (m,),
                    Some(x),
                ) && *t == *x && *final(t) == *final(x) && #[trigger] f.ensures((t,), v),
            Err(e) => e == ReferenceError::NotFound && exists|m: &mut B|
                *m == *old(base) && *final(m) == *final(base) && #[trigger] projection.ensures(
                    (m,),
                    None,
                ),
        },
{
    match projection(base) {
        Some(field) => {
            let v = f(field);
            assert(exists|m: &mut B, x: &mut X, t: &mut X|
                *m == *old(base) && *final(m) == *base && #[trigger] projection.ensures(
                    (m,),
                    Some(x),
                ) && *t == *x && *final(t) == *final(x) && #[trigger] f.ensures((t,), v));
            let r: Result<R, ReferenceError> = Ok(v);
            assert(r->Ok_0 == v);
            r
        },
        None => Err(ReferenceError::NotFound),
    }
}

/// Runs `f` on the element of `items` at `index`, if there is one. An index
/// past the end is answered with `NotFound` and leaves `items` as it was;
/// otherwise only the element at `index` can change.
pub fn apply_at<E, R, F>(items: &mut Vec<E>, index: usize, f: F) -> (r: Result<
    R,
    ReferenceError,
>) where
    F: FnOnce(&mut E) -> R,

    requires
        forall|t: &mut E|
            index < old(items).len() && *t == old(items)@[index as int] ==> #[trigger] f.requires(
                (t,),
            ),
    ensures
        match r {
            Ok(v) => index < old(items).len() && exists|t: &mut E|
                *t == old(items)@[index as int] && final(items)@ == old(items)@.update(
                    index as int,
                    *final(t),
                ) && #[trigger] f.ensures((t,), v),
            Err(e) => e == ReferenceError::NotFound && index >= old(items).len() && final(items)@
                == old(items)@,
        },
{
    if index < items.len() {
        let element = &mut items[index];
        let v = f(element);
        assert(exists|t: &mut E|
            *t == old(items)@[index as int] && items@ == old(items)@.update(
                index as int,
                *final(t),
            ) && #[trigger] f.ensures((t,), v));
        let r: Result<R, ReferenceError> = Ok(v);
        assert(r->Ok_0 == v);
        r
    } else {
        Err(ReferenceError::NotFound)
    }
}

/// Puts `value` in place of what `target` held and returns what it held.
pub fn swap_in<T>(target: &mut T, value: T) -> (previous: T)
    ensures
        *final(target) == value,
        previous == *old(target),
{
    let mut held = value;
    std::mem::swap(target, &mut held);
    held
}

} // verus!
