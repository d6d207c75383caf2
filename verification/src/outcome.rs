//! The result shape of one external-tool invocation, as handed back by the
//! process layer that spawned the tool: raw output text plus the ordered
//! list of error lines the tool reported. An outcome counts as successful
//! exactly when the error-line list is empty; when it is not, only the first
//! line is surfaced and the rest are discarded by documented policy.

use vstd::prelude::*;

verus! {

/// What one invocation of the external tool produced.
#[derive(Debug, PartialEq, Eq)]
pub struct ToolOutcome {
    /// Raw output text; may be empty.
    pub data: String,
    /// Tool-reported error lines, in the order reported.
    pub err: Vec<String>,
}

/// An outcome succeeded exactly when the tool reported no error line.
pub open spec fn outcome_succeeded(o: ToolOutcome) -> bool {
    o.err@.len() == 0
}

/// The one error line an operation surfaces: the first reported.
pub open spec fn first_error(o: ToolOutcome) -> String
    recommends
        !outcome_succeeded(o),
{
    o.err@[0]
}

impl ToolOutcome {
    /// An outcome that carries output text and no error lines.
    pub fn succeeded(data: String) -> (r: Self)
        ensures
            outcome_succeeded(r),
            r.data == data,
    {
        ToolOutcome { data, err: Vec::new() }
    }

    /// Whether the tool reported no error line.
    pub fn is_success(&self) -> (r: bool)
        ensures
            r == outcome_succeeded(*self),
    {
        self.err.len() == 0
    }
}

} // verus!
