//! Small helpers on optional text.
use vstd::prelude::*;

verus! {

/// Text that may be absent: it counts as empty when it is absent or has no
/// characters.
pub trait IsNullOrEmpty {
    spec fn spec_is_null_or_empty(&self) -> bool;

    fn is_null_or_empty(&self) -> (r: bool)
        ensures
            r == self.spec_is_null_or_empty(),
    ;
}

impl<'a> IsNullOrEmpty for Option<&'a str> {
    open spec fn spec_is_null_or_empty(&self) -> bool {
        match self {
            Some(s) => s@.len() == 0,
            None => true,
        }
    }

    fn is_null_or_empty(&self) -> (r: bool) {
        match self {
            Some(s) => s.is_empty(),
            None => true,
        }
    }
}

impl IsNullOrEmpty for Option<String> {
    open spec fn spec_is_null_or_empty(&self) -> bool {
        match self {
            Some(s) => s@.len() == 0,
            None => true,
        }
    }

    fn is_null_or_empty(&self) -> (r: bool) {
        match self {
            Some(s) => s.as_str().is_empty(),
            None => true,
        }
    }
}

} // verus!
