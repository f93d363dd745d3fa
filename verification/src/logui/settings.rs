//! Settings for the log view's line filters.

use vstd::prelude::*;

verus! {

/// Which kinds of log lines the view shows.
#[derive(Clone, Debug)]
pub struct FilterSettings {
    pub hover_char_name_for_account_name: bool,
    pub squad_message: bool,
    pub party_message: bool,
    pub squad_updates: bool,
    pub combat_updates: bool,
    pub others: bool,
}

impl FilterSettings {
    /// The default filters: everything shown.
    pub fn new() -> (r: Self)
        ensures
            r.hover_char_name_for_account_name,
            r.squad_message,
            r.party_message,
            r.squad_updates,
            r.combat_updates,
            r.others,
    {
        FilterSettings {
            hover_char_name_for_account_name: true,
            squad_message: true,
            party_message: true,
            squad_updates: true,
            combat_updates: true,
            others: true,
        }
    }
}

} // verus!
