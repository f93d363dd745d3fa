//! The kinds of lines the log buffer holds, and which of them the filter
//! settings let through.

use vstd::prelude::*;

use super::settings::FilterSettings;

verus! {

/// The kind of a log line.
#[derive(Clone, Copy, Debug, PartialEq, Eq, Structural)]
pub enum LogType {
    PartyMessage,
    SquadMessage,
    SquadUpdate,
    Combat,
    Generic,
}

/// Whether the filter settings let a line of this kind through.
pub open spec fn type_allowed(log_type: LogType, types: FilterSettings) -> bool {
    match log_type {
        LogType::Generic => types.others,
        LogType::SquadMessage => types.squad_message,
        LogType::PartyMessage => types.party_message,
        LogType::SquadUpdate => types.squad_updates,
        LogType::Combat => types.combat_updates,
    }
}

/// Whether the filter settings let a line of this kind through.
pub fn line_type_allowed(log_type: LogType, types: &FilterSettings) -> (r: bool)
    ensures
        r == type_allowed(log_type, *types),
{
    match log_type {
        LogType::Generic => types.others,
        LogType::SquadMessage => types.squad_message,
        LogType::PartyMessage => types.party_message,
        LogType::SquadUpdate => types.squad_updates,
        LogType::Combat => types.combat_updates,
    }
}

} // verus!
