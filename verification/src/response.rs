//! The uniform response envelope: every entity operation answers with
//! either a data value or an error descriptor, never both and never
//! neither.

use vstd::prelude::*;

use crate::errors::YaddakError;

verus! {

/// The two-field envelope handed to the transport layer.
#[derive(Debug)]
pub struct DetailedResponse<T> {
    pub data: Option<T>,
    pub error: Option<YaddakError>,
}

impl<T> DetailedResponse<T> {
    /// Exactly one of the two fields is populated.
    pub open spec fn wf(&self) -> bool {
        (self.data is Some) != (self.error is Some)
    }

    /// Wraps a success value.
    pub fn absorb_data(data: T) -> (r: Self)
        ensures
            r.wf(),
            r.data == Some(data),
            r.error is None,
    {
        Self { data: Some(data), error: None }
    }

    /// Wraps a failure.
    pub fn absorb_error(error: YaddakError) -> (r: Self)
        ensures
            r.wf(),
            r.data is None,
            r.error == Some(error),
    {
        Self { data: None, error: Some(error) }
    }
}

} // verus!
