//! The tuned state: one thermal table per profile.

use vstd::prelude::*;
use crate::profile::Profile;
use crate::table::ThermalTable;

verus! {

/// One thermal table per profile; the whole of what is tuned and persisted.
#[derive(Debug, Clone, Copy, PartialEq, Eq)]
pub struct State {
    /// Ladder used while the power-saver profile is active.
    pub power_saver: ThermalTable,
    /// Ladder used while the balanced profile is active.
    pub balanced: ThermalTable,
    /// Ladder used while the performance profile is active.
    pub performance: ThermalTable,
}

impl State {
    /// The table serving a profile.
    pub open spec fn table_spec(self, p: Profile) -> ThermalTable {
        match p {
            Profile::PowerSaver => self.power_saver,
            Profile::Balanced => self.balanced,
            Profile::Performance => self.performance,
        }
    }

    /// This state with one profile's table replaced.
    pub open spec fn with_table(self, p: Profile, t: ThermalTable) -> State {
        match p {
            Profile::PowerSaver => State { power_saver: t, ..self },
            Profile::Balanced => State { balanced: t, ..self },
            Profile::Performance => State { performance: t, ..self },
        }
    }

    /// The default state: every profile on its default ladder.
    pub open spec fn default_spec() -> State {
        State {
            power_saver: ThermalTable::power_saver_spec(),
            balanced: ThermalTable::balanced_spec(),
            performance: ThermalTable::performance_spec(),
        }
    }

    /// Borrow the table serving a profile.
    pub fn table(&self, p: Profile) -> (t: &ThermalTable)
        ensures
            *t == self.table_spec(p),
    {
        match p {
            Profile::PowerSaver => &self.power_saver,
            Profile::Balanced => &self.balanced,
            Profile::Performance => &self.performance,
        }
    }

    /// Borrow the table serving a profile for mutation.
    pub fn table_mut(&mut self, p: Profile) -> (t: &mut ThermalTable)
        ensures
            *t == old(self).table_spec(p),
            *final(self) == old(self).with_table(p, *final(t)),
    {
        match p {
            Profile::PowerSaver => &mut self.power_saver,
            Profile::Balanced => &mut self.balanced,
            Profile::Performance => &mut self.performance,
        }
    }
}

impl Default for State {
    /// Every profile on its default ladder.
    fn default() -> (r: Self)
        ensures
            r == State::default_spec(),
    {
        State {
            power_saver: ThermalTable::power_saver(),
            balanced: ThermalTable::balanced(),
            performance: ThermalTable::performance(),
        }
    }
}

} // verus!
