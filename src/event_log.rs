use vstd::prelude::*;

use crate::errors::SupplyChainError;
use crate::state::{Batch, Event, EVENT_LENGTH};

verus! {

/// Whether a batch's log has room for `n` more events.
pub open spec fn has_room(b: Batch, n: nat) -> bool {
    b.events@.len() + n <= EVENT_LENGTH
}

/// Appends one event to a batch's log, which never grows past its capacity:
/// on a full log the append fails and the batch stays as it was.
pub fn append_event(batch: &mut Batch, event: Event) -> (r: Result<(), SupplyChainError>)
    requires
        old(batch).wf(),
    ensures
        final(batch).wf(),
        has_room(*old(batch), 1) ==> r is Ok,
        !has_room(*old(batch), 1) ==> r == Err::<(), SupplyChainError>(
            SupplyChainError::TooManyEvents,
        ),
        r is Ok ==> final(batch).events@ == old(batch).events@.push(event),
        r is Ok ==> *final(batch) == (Batch { events: final(batch).events, ..*old(batch) }),
        r is Err ==> *final(batch) == *old(batch),
{
    if batch.events.len() >= EVENT_LENGTH {
        return Err(SupplyChainError::TooManyEvents);
    }
    batch.events.push(event);
    Ok(())
}

} // verus!
