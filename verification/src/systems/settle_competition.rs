//! Ends a competition once its end time has come.

use vstd::prelude::*;
use crate::components::Competition;
use crate::errors::ErrorCode;

verus! {

/// What the system works on.
#[derive(Clone, Debug, PartialEq, Eq)]
pub struct Components {
    pub competition: Competition,
}

/// The competition after it has been settled.
pub open spec fn settled(competition: Competition) -> Competition {
    Competition { is_active: false, ..competition }
}

/// What settling at time `now` does: an active competition whose end
/// time has come becomes inactive.
pub open spec fn settle_outcome(components: Components, now: i64) -> Result<Components, ErrorCode> {
    if !components.competition.is_active {
        Err(ErrorCode::CompetitionNotActive)
    } else if now < components.competition.end_time {
        Err(ErrorCode::CompetitionNotEnded)
    } else {
        Ok(Components { competition: settled(components.competition) })
    }
}

/// Settles the competition at time `now`.
pub fn execute(components: Components, now: i64) -> (r: Result<Components, ErrorCode>)
    ensures
        r == settle_outcome(components, now),
{
    if !components.competition.is_active {
        return Err(ErrorCode::CompetitionNotActive);
    }
    if now < components.competition.end_time {
        return Err(ErrorCode::CompetitionNotEnded);
    }
    let mut changed = components;
    changed.competition.is_active = false;
    Ok(changed)
}

/// Settling is one-way: a competition that has been settled cannot be
/// settled again, at whatever time.
pub proof fn lemma_settled_stays_settled(components: Components, now: i64, later: i64)
    requires
        settle_outcome(components, now) is Ok,
    ensures
        settle_outcome(settle_outcome(components, now).unwrap(), later) == Err::<
            Components,
            ErrorCode,
        >(ErrorCode::CompetitionNotActive),
{
}

} // verus!
