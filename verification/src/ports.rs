use vstd::prelude::*;

verus! {

/// Why a node could not produce its outputs.
///
/// `NoData` is raised when a port the node reads from carried nothing;
/// `Payload` carries the error of the runtime when a port's payload could
/// not be read as the expected type.
#[derive(Debug)]
pub enum NodeError<E> {
    NoData,
    Payload(E),
}

/// What a required input port yields: the value it carried, or the error
/// the node reports for it.
pub open spec fn required<T, E>(input: Option<Result<T, E>>) -> Result<T, NodeError<E>> {
    match input {
        None => Err(NodeError::NoData),
        Some(Err(e)) => Err(NodeError::Payload(e)),
        Some(Ok(v)) => Ok(v),
    }
}

/// Takes the value of a required input port: `None` (the port carried no
/// message) gives `NoData`, an unreadable payload gives its error.
pub fn require_input<T, E>(input: Option<Result<T, E>>) -> (r: Result<T, NodeError<E>>)
    ensures
        r == required(input),
{
    match input {
        None => Err(NodeError::NoData),
        Some(Err(e)) => Err(NodeError::Payload(e)),
        Some(Ok(v)) => Ok(v),
    }
}

} // verus!
