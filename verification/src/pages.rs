//! The pages of the application's user interface.
use vstd::prelude::*;

verus! {

/// The page to display in the application.
#[derive(Debug, Clone, Copy, PartialEq, Eq, Structural)]
pub enum Page {
    Simulation,
    Measurements,
}

/// The context page to display in the context drawer.
#[derive(Debug, Clone, Copy, PartialEq, Eq, Structural)]
pub enum ContextPage {
    SimulationSettings,
    PlottingSettings,
    About,
}

impl ContextPage {
    /// The context drawer opens on the about page.
    pub fn default() -> (p: ContextPage)
        ensures
            p == ContextPage::About,
    {
        ContextPage::About
    }
}

} // verus!
