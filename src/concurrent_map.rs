use vstd::prelude::*;

verus! {

/// The sharded concurrent map of the `dashmap` crate. Its contents are named
/// per instantiation by the modules that hold one.
#[verifier::external_type_specification]
#[verifier::external_body]
#[verifier::reject_recursive_types(K)]
#[verifier::reject_recursive_types(V)]
#[verifier::reject_recursive_types(S)]
pub struct ExDashMap<K, V, S>(dashmap::DashMap<K, V, S>);

} // verus!
