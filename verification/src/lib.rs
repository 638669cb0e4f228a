//! The layout core of a charting library: ranges of data, their union across
//! plotted series, margins, tick positions and the map from data to viewport,
//! all in exact fixed-point arithmetic.

pub mod axis;
pub mod bounds;
pub mod column;
pub mod fixed;
pub mod layout;
pub mod nice;
pub mod path;
pub mod plot;
pub mod series;
pub mod style;
pub mod text;
pub mod ticks;
pub mod window;

pub use axis::{Axis, Scale, Ticks};
pub use bounds::{Bounds, Range};
pub use plot::Plot;
pub use series::{BarChartAxes, HistogramAxes};
pub use style::{Align, Marker};
