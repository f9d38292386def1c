//! Declarations of the concurrent collections this crate stores its
//! registries in. Each is opaque to the verifier: what a collection holds is
//! named where the collection is used, next to the operations on it.

use vstd::prelude::*;

verus! {

/// `dashmap::DashMap`, the sharded concurrent map that holds the bearer
/// sessions. Nothing is known of a value of it but through the operations
/// in [`crate::auth`].
#[verifier::external_type_specification]
#[verifier::external_body]
#[verifier::reject_recursive_types(K)]
#[verifier::reject_recursive_types(V)]
#[verifier::reject_recursive_types(S)]
pub struct ExDashMap<K, V, S>(dashmap::DashMap<K, V, S>);

/// `scc::HashMap`, the concurrent map that holds the hub's sessions and
/// hand-off tokens. Nothing is known of a value of it but through the
/// operations in [`crate::websockets::maps`].
#[verifier::external_type_specification]
#[verifier::external_body]
#[verifier::reject_recursive_types(K)]
#[verifier::reject_recursive_types(V)]
#[verifier::reject_recursive_types(H)]
pub struct ExSccHashMap<K, V, H: std::hash::BuildHasher>(scc::HashMap<K, V, H>);

/// `scc::HashSet`, the concurrent set that holds a session's subscriptions.
/// Nothing is known of a value of it but through the operations in
/// [`crate::websockets::maps`].
#[verifier::external_type_specification]
#[verifier::external_body]
#[verifier::reject_recursive_types(K)]
#[verifier::reject_recursive_types(H)]
pub struct ExSccHashSet<K, H: std::hash::BuildHasher>(scc::HashSet<K, H>);

} // verus!
