use chart_formatter::Container;
use chart_formatter::Page;
use chart_formatter::RenderOutcome;
use chart_formatter::describe_outcome;
use chart_formatter::plan_mount;
use chart_formatter::route_view;
use chart_formatter::weekly_demo;

#[test]
fn demo_spec_has_seven_aligned_points() {
    let spec = weekly_demo();
    assert_eq!(spec.categories.len(), 7);
    assert_eq!(spec.values.len(), 7);
    assert_eq!(spec.categories.len(), spec.values.len());
}

#[test]
fn demo_spec_exact_contents() {
    let spec = weekly_demo();
    assert_eq!(
        spec.categories,
        vec!["Mon", "Tue", "Wed", "Thu", "Fri", "Sat", "Sun"]
    );
    assert_eq!(spec.values, vec![150, 230, 224, 218, 135, 147, 260]);
    assert_eq!(spec.label_style.background_color, "#ccc");
    assert_eq!(spec.label_style.border_color, "#aaa");
    assert_eq!(spec.label_style.border_width, 1);
    assert_eq!(spec.label_style.shadow_blur, 0);
    assert_eq!(spec.label_style.shadow_offset_x, 0);
    assert_eq!(spec.label_style.shadow_offset_y, 0);
    assert_eq!(spec.label_style.color, "#222");
}

#[test]
fn root_path_renders_home() {
    assert!(matches!(route_view(""), Page::Home));
    assert!(matches!(route_view("/"), Page::Home));
}

#[test]
fn unknown_path_renders_not_found() {
    assert!(matches!(route_view("/unknown"), Page::NotFound));
    assert!(matches!(route_view("/a/b"), Page::NotFound));
    assert!(matches!(route_view("x"), Page::NotFound));
}

#[test]
fn client_mount_plans_one_demo_render() {
    let plan = plan_mount(true).unwrap();
    assert_eq!(plan.container, "main");
    assert_eq!(plan.width, 600);
    assert_eq!(plan.height, 600);
    assert_eq!(plan.chart.values, vec![150, 230, 224, 218, 135, 147, 260]);
    assert_eq!(plan.chart.categories.len(), 7);
}

#[test]
fn server_mount_plans_nothing() {
    assert!(plan_mount(false).is_none());
}

#[test]
fn rendering_twice_matches_rendering_once() {
    let mut once = Container::new();
    once.render(weekly_demo());

    let mut twice = Container::new();
    twice.render(weekly_demo());
    twice.render(weekly_demo());

    let a = once.content.unwrap();
    let b = twice.content.unwrap();
    assert_eq!(a.categories, b.categories);
    assert_eq!(a.values, b.values);
    assert_eq!(a.label_style.background_color, b.label_style.background_color);
    assert_eq!(a.label_style.color, b.label_style.color);
}

#[test]
fn container_starts_empty() {
    let c = Container::new();
    assert!(c.content.is_none());
}

#[test]
fn outcome_messages() {
    assert_eq!(describe_outcome(&RenderOutcome::Rendered), "chart rendered");
    assert_eq!(
        describe_outcome(&RenderOutcome::ContainerMissing),
        "chart container not found"
    );
    assert_eq!(
        describe_outcome(&RenderOutcome::LibraryUnavailable),
        "charting library unavailable"
    );
}
