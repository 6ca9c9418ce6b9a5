//! The default synthesizer: when the record has no required fields the
//! slot space is empty, the guard conjunction is vacuously satisfiable,
//! and the builder gains a zero-configuration construction path —
//! create the initial state and finalize it at once.

use vstd::prelude::*;
use crate::generator::Generator;
use crate::slots::spec_num_required;

verus! {

impl Generator {
    /// Whether the zero-configuration default-construction entry point is
    /// emitted: exactly when the record has no required fields.
    pub fn default_trait(&self) -> (r: bool)
        requires
            self.wf(),
        ensures
            r == (spec_num_required(self.fields@, self.fields@.len() as int) == 0),
    {
        self.slot_count == 0
    }
}

} // verus!
