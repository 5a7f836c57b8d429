//! The chart specification: the value object that the one-page demo
//! builds once per page load and hands to the renderer. It aggregates a
//! category x axis (seven weekday labels), a value y axis (auto-scaled,
//! so it carries no data here), one line series of seven points aligned
//! positionally with the labels, and the styling of the tooltip's
//! axis-pointer label.

use vstd::prelude::*;

verus! {

/// The seven weekday labels of the category axis, in order.
pub open spec fn demo_categories() -> Seq<Seq<char>> {
    seq!["Mon"@, "Tue"@, "Wed"@, "Thu"@, "Fri"@, "Sat"@, "Sun"@]
}

/// The seven data points of the line series, in order.
pub open spec fn demo_values() -> Seq<i64> {
    seq![150i64, 230i64, 224i64, 218i64, 135i64, 147i64, 260i64]
}

/// Styling of the label shown on the tooltip's axis pointer.
pub struct LabelStyle {
    pub background_color: String,
    pub border_color: String,
    pub border_width: u32,
    pub shadow_blur: u32,
    pub shadow_offset_x: i32,
    pub shadow_offset_y: i32,
    pub color: String,
}

/// The fixed axis-pointer label styling the demo chart uses.
pub open spec fn is_demo_label_style(s: LabelStyle) -> bool {
    &&& s.background_color@ == "#ccc"@
    &&& s.border_color@ == "#aaa"@
    &&& s.border_width == 1
    &&& s.shadow_blur == 0
    &&& s.shadow_offset_x == 0
    &&& s.shadow_offset_y == 0
    &&& s.color@ == "#222"@
}

/// The in-memory chart description handed to the renderer: category axis
/// labels, the line series values, and the tooltip label styling.
pub struct ChartSpec {
    pub categories: Vec<String>,
    pub values: Vec<i64>,
    pub label_style: LabelStyle,
}

impl ChartSpec {
    /// Positional alignment: each series value belongs to the category
    /// label at the same index.
    pub open spec fn wf(self) -> bool {
        self.categories@.len() == self.values@.len()
    }

    /// The category labels as plain character sequences.
    pub open spec fn categories_view(self) -> Seq<Seq<char>> {
        self.categories@.map_values(|s: String| s@)
    }

    /// The one chart this demo ever shows.
    pub open spec fn is_demo(self) -> bool {
        &&& self.categories_view() == demo_categories()
        &&& self.values@ == demo_values()
        &&& is_demo_label_style(self.label_style)
    }
}

/// Builds the weekly demo chart specification: seven weekday labels,
/// seven series values aligned with them, and the fixed tooltip label
/// styling.
pub fn weekly_demo() -> (r: ChartSpec)
    ensures
        r.is_demo(),
        r.wf(),
        r.categories@.len() == 7,
        r.values@.len() == 7,
{
    let mut categories: Vec<String> = Vec::new();
    categories.push(String::from_str("Mon"));
    categories.push(String::from_str("Tue"));
    categories.push(String::from_str("Wed"));
    categories.push(String::from_str("Thu"));
    categories.push(String::from_str("Fri"));
    categories.push(String::from_str("Sat"));
    categories.push(String::from_str("Sun"));
    let mut values: Vec<i64> = Vec::new();
    values.push(150i64);
    values.push(230i64);
    values.push(224i64);
    values.push(218i64);
    values.push(135i64);
    values.push(147i64);
    values.push(260i64);
    let label_style = LabelStyle {
        background_color: String::from_str("#ccc"),
        border_color: String::from_str("#aaa"),
        border_width: 1,
        shadow_blur: 0,
        shadow_offset_x: 0,
        shadow_offset_y: 0,
        color: String::from_str("#222"),
    };
    let r = ChartSpec { categories, values, label_style };
    proof {
        assert(r.categories_view() =~= demo_categories());
        assert(r.values@ =~= demo_values());
    }
    r
}

} // verus!
