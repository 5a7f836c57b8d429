//! A verified model of a small one-page charting demo: a weekly line-chart
//! specification, the tooltip formatter that labels a hovered data point,
//! the routing surface of the single-page shell, and the plan for the
//! one-shot client-side mount task.

pub mod chart;
pub mod mount;
pub mod routes;
pub mod tooltip;

pub use chart::ChartSpec;
pub use chart::LabelStyle;
pub use chart::weekly_demo;
pub use mount::Container;
pub use mount::RenderOutcome;
pub use mount::RenderRequest;
pub use mount::describe_outcome;
pub use mount::plan_mount;
pub use routes::Page;
pub use routes::route_view;
pub use tooltip::TriggerEntry;
pub use tooltip::format_data_value;
pub use tooltip::format_tooltip;
