//! How a command's reply is read in contracts.

use vstd::prelude::*;

verus! {

/// A reply as mathematical values: the value of a success by its deep view,
/// the message of a failure as a sequence of characters.
pub open spec fn reply_view<T: DeepView>(reply: Result<T, String>) -> Result<T::V, Seq<char>> {
    match reply {
        Ok(value) => Ok(value.deep_view()),
        Err(message) => Err(message@),
    }
}

} // verus!
