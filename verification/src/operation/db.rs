use crate::clock::Timestamp;
use crate::database::guarded;
use crate::error::Error;
use crate::operation::{Interaction, Legality, Operation};
use vstd::prelude::*;

verus! {

/// The interaction with the given result recorded on it.
pub open spec fn with_result(interaction: Interaction, result: i32) -> Interaction {
    Interaction { result: Some(result), ..interaction }
}

/// Concludes a guarded write of the result of one of an operation's
/// interactions. `matched_count` is the number of stored records that bore
/// the operation's identifier and time of modification when the write was
/// tried: with none, the record had been modified since it was read and
/// nothing was written; otherwise the result and the time of modification
/// were written together.
pub fn update_operation_interaction_result(
    operation: Operation,
    interaction_index: usize,
    interaction_result: i32,
    now: Timestamp,
    matched_count: u64,
) -> (r: Result<Operation, Error>)
    requires
        interaction_index < operation.interactions@.len(),
    ensures
        matched_count == 0 ==> r == guarded(0, operation),
        matched_count != 0 ==> {
            &&& r matches Ok(updated)
            &&& updated == (Operation {
                modified_at: now,
                interactions: updated.interactions,
                ..operation
            })
            &&& updated.interactions@ == operation.interactions@.update(
                interaction_index as int,
                with_result(operation.interactions@[interaction_index as int], interaction_result),
            )
        },
{
    if matched_count == 0 {
        return Err(Error::ConcurrentModificationDetected);
    }
    let mut operation = operation;
    operation.modified_at = now;
    let interaction = operation.interactions[interaction_index];
    operation.interactions.set(
        interaction_index,
        Interaction { result: Some(interaction_result), ..interaction },
    );
    Ok(operation)
}

/// Concludes a guarded write that appends interactions to an operation, as
/// `update_operation_interaction_result` does for a result.
pub fn update_operation_push_interactions(
    operation: Operation,
    interactions: Vec<Interaction>,
    now: Timestamp,
    matched_count: u64,
) -> (r: Result<Operation, Error>)
    ensures
        matched_count == 0 ==> r == guarded(0, operation),
        matched_count != 0 ==> {
            &&& r matches Ok(updated)
            &&& updated == (Operation {
                modified_at: now,
                interactions: updated.interactions,
                ..operation
            })
            &&& updated.interactions@ == operation.interactions@ + interactions@
        },
{
    if matched_count == 0 {
        return Err(Error::ConcurrentModificationDetected);
    }
    let mut operation = operation;
    let mut interactions = interactions;
    operation.modified_at = now;
    operation.interactions.append(&mut interactions);
    Ok(operation)
}

/// Concludes a guarded write of an operation's legality, as
/// `update_operation_interaction_result` does for a result.
pub fn update_operation_legality(
    operation: Operation,
    legality: Legality,
    now: Timestamp,
    matched_count: u64,
) -> (r: Result<Operation, Error>)
    ensures
        r == guarded(
            matched_count as nat,
            (Operation { modified_at: now, legality, ..operation }),
        ),
{
    if matched_count == 0 {
        return Err(Error::ConcurrentModificationDetected);
    }
    let mut operation = operation;
    operation.modified_at = now;
    operation.legality = legality;
    Ok(operation)
}

} // verus!
