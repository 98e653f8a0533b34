//! Error kinds of the board core. Every error is recoverable: the operation
//! that reports one has left the state unchanged (a no-op), as the contracts
//! of the reporting functions state.

use vstd::prelude::*;

verus! {

/// Why an operation was refused and turned into a no-op.
#[derive(Clone, Copy, Debug, PartialEq, Eq, Structural)]
pub enum KanbanError {
    /// A navigation, move or commit needed a selected card and none was selected.
    EmptySelection,
    /// Lane navigation or a card move was requested past the first or last
    /// lane. Lane traversal does not wrap around, unlike card-list cycling.
    AtBoundary,
    /// An index exceeded the container length. Not reachable through valid
    /// use of the board's own operations; it signals an inconsistent request.
    IndexOutOfRange,
    /// A buffer commit was rejected by a policy guard: the title was shorter
    /// than the configured minimum, or a description paragraph was empty.
    InputRejected,
}

} // verus!
