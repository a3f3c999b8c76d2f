use vstd::prelude::*;
use crate::ports::{NodeError, required, require_input};

verus! {

/// The two encoded frames the concatenation operator stacks, the first on
/// top. Its first input port is read before its second.
pub fn frame_pair<E>(
    first: Option<Result<Vec<u8>, E>>,
    second: Option<Result<Vec<u8>, E>>,
) -> (r: Result<(Vec<u8>, Vec<u8>), NodeError<E>>)
    ensures
        match required(first) {
            Err(e) => r == Err::<(Vec<u8>, Vec<u8>), NodeError<E>>(e),
            Ok(a) => match required(second) {
                Err(e) => r == Err::<(Vec<u8>, Vec<u8>), NodeError<E>>(e),
                Ok(b) => r matches Ok(p) && p.0@ == a@ && p.1@ == b@,
            },
        },
{
    let a = require_input(first)?;
    let b = require_input(second)?;
    Ok((a, b))
}

} // verus!
