use vstd::prelude::*;

verus! {

/// The colony's headcount as the population systems see it.
#[derive(Debug, Clone)]
pub struct PopulationResource {
    pub count: u32,
}

impl Default for PopulationResource {
    /// A new colony counts five inhabitants.
    fn default() -> (r: Self)
        ensures
            r.count == 5,
    {
        PopulationResource { count: 5 }
    }
}

} // verus!
