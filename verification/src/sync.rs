//! The lock that serialises access to the store.

use crate::database::Database;
use crate::models::PostView;
use std::sync::Arc;
use std::sync::Mutex;
use std::sync::MutexGuard;
use vstd::prelude::*;

verus! {

/// `std::sync::Mutex`, carried as an opaque value.
#[verifier::external_type_specification]
#[verifier::external_body]
#[verifier::reject_recursive_types(T)]
pub struct ExMutex<T: ?Sized>(Mutex<T>);

/// `std::sync::MutexGuard`, carried as an opaque value: the lock is held
/// for as long as the guard lives.
#[verifier::external_type_specification]
#[verifier::external_body]
#[verifier::reject_recursive_types(T)]
pub struct ExMutexGuard<'a, T: ?Sized + 'a>(MutexGuard<'a, T>);

/// The posts of the store that a lock was made around. This is fixed when
/// the lock is made; it is not what the lock holds later.
pub uninterp spec fn made_with(m: Mutex<Database>) -> Seq<PostView>;

/// Calls `std::sync::Mutex::new`: the lock is made around `db`, so the posts
/// it starts with are those of `db`.
#[verifier::external_body]
pub(crate) fn new_lock(db: Database) -> (m: Mutex<Database>)
    ensures
        made_with(m) == db@,
{
    Mutex::new(db)
}

/// Calls `Arc::clone`: the result points at the same lock as `m`.
#[verifier::external_body]
pub(crate) fn share<T>(m: &Arc<Mutex<T>>) -> (r: Arc<Mutex<T>>)
    ensures
        r == *m,
{
    Arc::clone(m)
}

/// Calls `std::sync::Mutex::lock` and waits for the lock. A lock that was
/// poisoned is taken all the same. Nothing is claimed of the value behind the
/// lock: any other holder may have changed it. No function of this crate
/// asks for the lock while it holds a guard of it.
#[verifier::external_body]
pub(crate) fn lock<'a, T>(m: &'a Mutex<T>) -> (g: MutexGuard<'a, T>)
{
    match m.lock() {
        Ok(g) => g,
        Err(poisoned) => poisoned.into_inner(),
    }
}

/// The guard's `Deref`: the value behind a lock that is held.
#[verifier::external_body]
pub(crate) fn held<'a, 'b, T>(g: &'a MutexGuard<'b, T>) -> (r: &'a T)
{
    &**g
}

/// The guard's `DerefMut`: the value behind a lock that is held, to change.
#[verifier::external_body]
pub(crate) fn held_mut<'a, 'b, T>(g: &'a mut MutexGuard<'b, T>) -> (r: &'a mut T)
{
    &mut **g
}

} // verus!
