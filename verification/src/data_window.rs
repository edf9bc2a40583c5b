//! Per-series display windows.
//!
//! Each window shows one id's packet series, under an editable name, capped
//! to a configurable number of entries, in one of a small set of display
//! modes. The rendering itself is a collaborator outside this library; what
//! lives here is the window's state and its construction rules.

use vstd::prelude::*;

verus! {

/// How a window presents its series: as a plot, as text lines, or not at
/// all until the user picks one.
#[derive(Debug, Clone, Copy, PartialEq, Eq, Structural)]
pub enum DisplayType {
    Graph,
    Text,
    NoDisplay,
}

impl DisplayType {
    /// Every display mode, in the order a mode picker offers them.
    pub fn iterator() -> (modes: Vec<DisplayType>)
        ensures
            modes@ == seq![DisplayType::Graph, DisplayType::Text, DisplayType::NoDisplay],
    {
        let mut modes: Vec<DisplayType> = Vec::new();
        modes.push(DisplayType::Graph);
        modes.push(DisplayType::Text);
        modes.push(DisplayType::NoDisplay);
        proof {
            assert(modes@ =~= seq![
                DisplayType::Graph,
                DisplayType::Text,
                DisplayType::NoDisplay,
            ]);
        }
        modes
    }
}

/// The state of one data window: its title, the id of the series it shows,
/// how many entries it shows at most, and its display mode.
#[derive(Debug, Clone)]
pub struct DataWindow {
    pub window_name: String,
    pub selected_data: usize,
    pub data_cap: usize,
    pub display_type: DisplayType,
}

impl DataWindow {
    /// A window for one series: named, not yet displaying, capped at the
    /// default hundred entries.
    pub fn new(window_name: String, selected_data: usize) -> (w: DataWindow)
        ensures
            w.window_name@ == window_name@,
            w.selected_data == selected_data,
            w.data_cap == 100,
            w.display_type is NoDisplay,
    {
        DataWindow { window_name, selected_data, data_cap: 100, display_type: DisplayType::NoDisplay }
    }
}

impl Default for DataWindow {
    /// A placeholder window, named as unset and pointing at a series id no
    /// real data uses.
    fn default() -> (w: DataWindow)
        ensures
            w.window_name@ == "Name Not Set!"@,
            w.selected_data == 1337420,
            w.data_cap == 100,
            w.display_type is NoDisplay,
    {
        DataWindow {
            window_name: "Name Not Set!".to_owned(),
            selected_data: 1337420,
            data_cap: 100,
            display_type: DisplayType::NoDisplay,
        }
    }
}

} // verus!
