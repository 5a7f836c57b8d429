//! The one-shot chart-mount task, as a decision: from the execution
//! context (server render or hydrated client) to what the task does —
//! nothing, or one render of the demo chart into the fixed container.
//! The host shell runs the plan on its event loop; the library decides
//! what the plan is and what an attempted render leaves behind.

use vstd::prelude::*;

use crate::chart::ChartSpec;
use crate::chart::weekly_demo;

verus! {

/// A request to render one chart into a named container element at a
/// fixed pixel size.
pub struct RenderRequest {
    pub container: String,
    pub width: u32,
    pub height: u32,
    pub chart: ChartSpec,
}

/// The one render request this demo ever issues: the weekly chart, into
/// the container `main`, at 600 by 600 pixels.
pub open spec fn is_demo_request(r: RenderRequest) -> bool {
    &&& r.container@ == "main"@
    &&& r.width == 600
    &&& r.height == 600
    &&& r.chart.is_demo()
    &&& r.chart.wf()
}

/// Decides what the mount task does. Only a client execution context has
/// a DOM and a charting runtime, so only there is a render planned; a
/// server render plans nothing.
pub fn plan_mount(is_client: bool) -> (r: Option<RenderRequest>)
    ensures
        is_client <==> (r is Some),
        r matches Some(req) ==> is_demo_request(req),
{
    if is_client {
        Some(
            RenderRequest {
                container: String::from_str("main"),
                width: 600,
                height: 600,
                chart: weekly_demo(),
            },
        )
    } else {
        None
    }
}

/// Remounting plans the same work: two mount plans made in the same
/// execution context agree on whether a render happens and, when one
/// does, on everything the render request holds.
pub proof fn lemma_mount_plan_agrees(
    a: Option<RenderRequest>,
    b: Option<RenderRequest>,
    is_client: bool,
)
    requires
        is_client <==> (a is Some),
        a matches Some(ra) ==> is_demo_request(ra),
        is_client <==> (b is Some),
        b matches Some(rb) ==> is_demo_request(rb),
    ensures
        (a is Some) <==> (b is Some),
        a matches Some(ra) ==> (b matches Some(rb) && ra.container@ == rb.container@ && ra.width
            == rb.width && ra.height == rb.height && ra.chart.categories_view()
            == rb.chart.categories_view() && ra.chart.values@ == rb.chart.values@),
{
}

/// What the container shows after a render: the chart that was just
/// rendered, whatever it showed before.
pub open spec fn rendered(_prev: Option<ChartSpec>, chart: ChartSpec) -> Option<ChartSpec> {
    Some(chart)
}

/// Model of the container element's visual state: the chart most
/// recently rendered into it, or nothing before any render.
pub struct Container {
    pub content: Option<ChartSpec>,
}

impl Container {
    /// An empty container, as the page shell delivers it on every load.
    pub fn new() -> (r: Container)
        ensures
            r.content is None,
    {
        Container { content: None }
    }

    /// One render call: replaces the container's contents with the given
    /// chart, independently of what was shown before.
    pub fn render(&mut self, chart: ChartSpec)
        ensures
            final(self).content == rendered(old(self).content, chart),
    {
        self.content = Some(chart);
    }
}

/// Last render wins: rendering a chart into a container a second time
/// leaves the container exactly as the first render did — no duplicate,
/// overlapping chart.
pub proof fn lemma_render_idempotent(prev: Option<ChartSpec>, chart: ChartSpec)
    ensures
        rendered(rendered(prev, chart), chart) == rendered(prev, chart),
{
}

/// The outcome of one render attempt. A failure is classified, reported
/// and then dropped: the mount task never turns it into a panic, so a
/// missing container or an unloaded charting script leaves the rest of
/// the page standing.
pub enum RenderOutcome {
    Rendered,
    ContainerMissing,
    LibraryUnavailable,
}

/// The message the mount task reports for each outcome of a render
/// attempt.
pub fn describe_outcome(o: &RenderOutcome) -> (r: String)
    ensures
        o is Rendered ==> r@ == "chart rendered"@,
        o is ContainerMissing ==> r@ == "chart container not found"@,
        o is LibraryUnavailable ==> r@ == "charting library unavailable"@,
{
    match o {
        RenderOutcome::Rendered => String::from_str("chart rendered"),
        RenderOutcome::ContainerMissing => String::from_str("chart container not found"),
        RenderOutcome::LibraryUnavailable => String::from_str("charting library unavailable"),
    }
}

} // verus!
