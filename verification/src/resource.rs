//! What a job does to the resource held by the cell.
//!
//! A job is any `FnOnce(&mut T)`. Its effect is given by the closure's own
//! specification: running `job` may turn `before` into `after` when some
//! reference `m` with `*m == before` and `*final(m) == after` satisfies
//! `job.ensures((m,), ())`. The operations the cell offers on top of plain
//! jobs (set, replace, take, get) are verified here as the bodies of the jobs
//! that the cell runs.
use vstd::prelude::*;

use crate::channel::{oneshot_send, send, OneshotSender, QueueSender, Queued, Refused};

verus! {

/// `job` may be called on any resource.
pub open spec fn job_ready<T, J: FnOnce(&mut T)>(job: J) -> bool {
    forall|m: &mut T| #[trigger] job.requires((m,))
}

/// `f` may be called on any resource.
pub open spec fn op_ready<T, R, F: FnOnce(&mut T) -> R>(f: F) -> bool {
    forall|m: &mut T| #[trigger] f.requires((m,))
}

/// `d` is a value that `T::default()` may return.
pub open spec fn is_default<T: Default>(d: T) -> bool {
    call_ensures(T::default, (), d)
}

/// `after` is what storing `new_value` leaves in a resource.
pub open spec fn sets<T>(after: T, new_value: T) -> bool {
    after == new_value
}

/// Replacing the resource `before` by `new_value` leaves `after` and hands
/// back `previous`.
pub open spec fn replaces<T>(before: T, new_value: T, after: T, previous: T) -> bool {
    after == new_value && previous == before
}

/// Taking the resource `before` leaves `after`, a default value, and hands back
/// `previous`.
pub open spec fn takes<T: Default>(before: T, after: T, previous: T) -> bool {
    is_default(after) && previous == before
}

/// Reading the resource `current` hands back `copy`, a clone of it.
pub open spec fn gets<T: Clone>(current: T, copy: T) -> bool {
    cloned(current, copy)
}

/// Runs one job on the resource.
pub fn run_job<T, J: FnOnce(&mut T)>(job: J, resource: &mut T)
    requires
        job_ready::<T, J>(job),
    ensures
        exists|m: &mut T|
            *m == *old(resource) && *final(m) == *final(resource) && #[trigger] job.ensures(
                (m,),
                (),
            ),
{
    job(resource)
}

/// Runs `f` on the resource and sends its result on `reply`: the body of every
/// job that a caller waits on. `Ok` carries the receipt of the result on the
/// reply channel; `Err` carries the reply channel's refusal of the result, when
/// the waiting side has gone.
pub fn run_and_reply<T, R, F: FnOnce(&mut T) -> R>(
    f: F,
    reply: QueueSender<R>,
    resource: &mut T,
) -> (r: Result<Queued<R>, Refused<R>>)
    requires
        op_ready::<T, R, F>(f),
    ensures
        exists|m: &mut T, out: R|
            *m == *old(resource) && *final(m) == *final(resource) && #[trigger] f.ensures(
                (m,),
                out,
            ) && (r matches Ok(q) ==> q.chan() == reply.id() && q.msg() == out) && (r matches Err(
                f,
            ) ==> f.chan() == reply.id() && f.msg() == out),
{
    let out = f(resource);
    send(&reply, out)
}

/// As `run_and_reply`, for a caller that waits on a tokio one-shot channel.
pub fn run_and_reply_async<T, R, F: FnOnce(&mut T) -> R>(
    f: F,
    reply: OneshotSender<R>,
    resource: &mut T,
) -> (r: Result<Queued<R>, Refused<R>>)
    requires
        op_ready::<T, R, F>(f),
    ensures
        exists|m: &mut T, out: R|
            *m == *old(resource) && *final(m) == *final(resource) && #[trigger] f.ensures(
                (m,),
                out,
            ) && (r matches Ok(q) ==> q.chan() == reply.id() && q.msg() == out) && (r matches Err(
                f,
            ) ==> f.chan() == reply.id() && f.msg() == out),
{
    let out = f(resource);
    oneshot_send(reply, out)
}

/// Stores `new_value` in the resource.
pub fn set_value<T>(resource: &mut T, new_value: T)
    ensures
        sets(*final(resource), new_value),
{
    *resource = new_value;
}

/// Stores `new_value` in the resource and returns the value it held before.
pub fn replace_value<T>(resource: &mut T, new_value: T) -> (previous: T)
    ensures
        replaces(*old(resource), new_value, *final(resource), previous),
{
    let mut value = new_value;
    std::mem::swap(resource, &mut value);
    value
}

/// Leaves `T::default()` in the resource and returns the value it held before.
pub fn take_value<T: Default>(resource: &mut T) -> (previous: T)
    ensures
        takes(*old(resource), *final(resource), previous),
{
    let mut value = T::default();
    std::mem::swap(resource, &mut value);
    value
}

/// Returns a clone of the resource.
pub fn get_value<T: Clone>(resource: &T) -> (copy: T)
    ensures
        gets(*resource, copy),
{
    resource.clone()
}

/// Reading after writing: once `new_value` is stored, a read hands back a clone
/// of it, a replace hands back `new_value` itself, and so does a take.
pub proof fn law_read_after_set<T: Clone + Default>(
    stored: T,
    new_value: T,
    copy: T,
    replacement: T,
    after: T,
    previous: T,
)
    requires
        sets(stored, new_value),
    ensures
        gets(stored, copy) ==> cloned(new_value, copy),
        replaces(stored, replacement, after, previous) ==> previous == new_value && after
            == replacement,
        takes(stored, after, previous) ==> previous == new_value && is_default(after),
{
}

/// Replacing stores exactly what setting stores.
pub proof fn law_replace_stores_like_set<T>(before: T, new_value: T, after: T, previous: T)
    requires
        replaces(before, new_value, after, previous),
    ensures
        sets(after, new_value),
{
}

/// Two replaces in a row: the second hands back what the first stored, and
/// the first hands back what was there before either.
pub proof fn law_replace_twice<T>(
    start: T,
    first: T,
    middle: T,
    first_back: T,
    second: T,
    end: T,
    second_back: T,
)
    requires
        replaces(start, first, middle, first_back),
        replaces(middle, second, end, second_back),
    ensures
        first_back == start,
        second_back == first,
        end == second,
{
}

} // verus!
