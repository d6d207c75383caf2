//! Construction of the values payload attached to installs and upgrades of
//! the primary release. The consuming chart's templating expects string-typed
//! booleans, so the payload renders every flag as "true"/"false"; the exact
//! byte shape is part of the external contract and is pinned here character
//! by character.

use vstd::prelude::*;
use crate::chart::FeatureGates;

verus! {

/// "true" or "false", the string rendering of a flag.
pub open spec fn bool_text(b: bool) -> Seq<char> {
    if b {
        "true"@
    } else {
        "false"@
    }
}

/// The serialized values payload: a `bootstrap.enabled` flag and an
/// `extraEnv` list with one entry per known feature gate, in the fixed order
/// `EXPERIMENTAL_OCI_STORAGE`, `EXPERIMENTAL_HELM_OPS`.
pub open spec fn values_payload(bootstrap: bool, oci_storage: bool, helm_ops: bool) -> Seq<char> {
    "{\"bootstrap\":{\"enabled\":\""@ + bool_text(bootstrap)
        + "\"},\"extraEnv\":[{\"name\":\"EXPERIMENTAL_OCI_STORAGE\",\"value\":\""@
        + bool_text(oci_storage)
        + "\"},{\"name\":\"EXPERIMENTAL_HELM_OPS\",\"value\":\""@ + bool_text(helm_ops)
        + "\"}]}"@
}

/// The flag rendering used inside the payload.
pub fn bool_to_text(b: bool) -> (r: &'static str)
    ensures
        r@ == bool_text(b),
{
    if b {
        "true"
    } else {
        "false"
    }
}

/// Builds the values payload for the primary release from the bootstrap flag
/// and the feature gates. Total: payload construction cannot fail.
pub fn build_values(bootstrap: bool, gates: &FeatureGates) -> (r: String)
    ensures
        r@ == values_payload(
            bootstrap,
            gates.experimental_oci_storage,
            gates.experimental_helm_ops,
        ),
{
    let mut s = String::from_str("{\"bootstrap\":{\"enabled\":\"");
    s.append(bool_to_text(bootstrap));
    s.append("\"},\"extraEnv\":[{\"name\":\"EXPERIMENTAL_OCI_STORAGE\",\"value\":\"");
    s.append(bool_to_text(gates.experimental_oci_storage));
    s.append("\"},{\"name\":\"EXPERIMENTAL_HELM_OPS\",\"value\":\"");
    s.append(bool_to_text(gates.experimental_helm_ops));
    s.append("\"}]}");
    s
}

} // verus!
