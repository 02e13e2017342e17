//! Dropdown choices of the data window and the panels they show.
use vstd::prelude::*;

verus! {

/// Colour theme of the interface.
#[derive(Clone, Copy, PartialEq, Eq, Debug, Structural)]
pub enum Theme {
    LightMode,
    DarkMode,
}

/// Which readings the data window shows.
#[derive(Clone, Copy, PartialEq, Eq, Debug, Structural)]
pub enum Selection {
    SensorData,
    LocData,
    AccelData,
    GyroData,
    DacData,
}

/// How the data window shows the selected readings.
#[derive(Clone, Copy, PartialEq, Eq, Debug, Structural)]
pub enum DisplayType {
    All,
    Table,
    Graph,
    MapView,
}

/// Which panels of the data window are drawn.
#[derive(Clone, Copy, PartialEq, Eq, Debug, Structural)]
pub struct Panels {
    pub table: bool,
    pub graph: bool,
    pub map: bool,
}

impl DisplayType {
    /// The panels drawn for this display type: every panel for `All`, else
    /// the one panel it names.
    pub fn panels(self) -> (p: Panels)
        ensures
            p.table == (self == DisplayType::All || self == DisplayType::Table),
            p.graph == (self == DisplayType::All || self == DisplayType::Graph),
            p.map == (self == DisplayType::All || self == DisplayType::MapView),
    {
        match self {
            DisplayType::All => Panels { table: true, graph: true, map: true },
            DisplayType::Table => Panels { table: true, graph: false, map: false },
            DisplayType::Graph => Panels { table: false, graph: true, map: false },
            DisplayType::MapView => Panels { table: false, graph: false, map: true },
        }
    }
}

} // verus!
