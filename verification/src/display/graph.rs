//! Options for the metric history graph.

use vstd::prelude::*;

verus! {

/// How a metric history graph is drawn.
pub struct GraphOpts {
    /// How many of the most recent time points the graph shows.
    pub visible_time_points: usize,
}

impl Default for GraphOpts {
    /// Twenty visible time points.
    fn default() -> (r: Self)
        ensures
            r.visible_time_points == 20,
    {
        GraphOpts { visible_time_points: 20 }
    }
}

} // verus!
