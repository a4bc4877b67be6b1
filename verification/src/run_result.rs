//! What a run that succeeded hands back.

use vstd::prelude::*;
use crate::json_value::json_text;

verus! {

/// The result of a run: the JSON value that the job wrote.
#[derive(Debug)]
pub struct RunResult {
    pub data: serde_json::Value,
}

impl View for RunResult {
    type V = Seq<char>;

    /// The compact JSON text of the result.
    open spec fn view(&self) -> Seq<char> {
        json_text(self.data)
    }
}

} // verus!
