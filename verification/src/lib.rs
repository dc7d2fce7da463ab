//! Decisions and manifests of a Kubernetes namespace watchdog: the resources that install
//! the watchdog in a namespace, the supervision of the installing process, and the deadline
//! that the watchdog keeps before it deletes its namespace.
use vstd::prelude::*;

pub mod args;
pub mod install;
pub mod kinds;
pub mod objects;
pub mod owner;
pub mod resources;
pub mod time;
pub mod watchdog;

verus! {

/// Wraps a text in `Some`, owned.
pub fn ss(s: &str) -> (r: Option<String>)
    ensures
        r is Some,
        r->0@ == s@,
{
    Some(s.to_owned())
}

/// The default value of a type.
pub fn default<T: Default>() -> (r: T)
    ensures
        call_ensures(T::default, (), r),
{
    T::default()
}

} // verus!
