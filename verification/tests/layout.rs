use neilplot::layout::{
    canvas_size, legend_rows, pixels_per_unit, FrameLayout, LegendLayout, LegendRow,
    LegendSample, Point, Segment, SeriesKind, Side, TickLayout,
};
use neilplot::window::{is_quit, WindowAction, WindowEvent, WindowState};
use neilplot::{Align, Bounds, Marker, Range};

fn units(v: f64) -> i64 {
    (v * 1e6).round() as i64
}

fn at(x: f64, y: f64) -> Point {
    Point { x: units(x), y: units(y) }
}

fn viewport() -> Bounds {
    Bounds::new(Range::new(units(80.0), units(920.0)), Range::new(units(920.0), units(80.0)))
}

#[test]
fn canvas_is_a_thousand_on_its_shorter_side() {
    assert_eq!(canvas_size(2048, 2048), Some((units(1000.0), units(1000.0))));
    assert_eq!(canvas_size(1600, 800), Some((units(2000.0), units(1000.0))));
    assert_eq!(canvas_size(800, 1200), Some((units(1000.0), units(1500.0))));
    assert_eq!(canvas_size(300, 100), Some((units(3000.0), units(1000.0))));
    assert_eq!(canvas_size(3, 7), Some((units(1000.0), 2_333_333_333)));
}

#[test]
fn a_surface_without_extent_has_no_canvas() {
    assert_eq!(canvas_size(0, 100), None);
    assert_eq!(canvas_size(100, 0), None);
    assert_eq!(canvas_size(0, 0), None);
}

#[test]
fn pixels_in_a_unit() {
    assert_eq!(pixels_per_unit(2048, 1024), (1024, 1000));
    assert_eq!(pixels_per_unit(600, 800), (600, 1000));
}

#[test]
fn alignment_offsets() {
    assert_eq!(Align::Start.offset(units(30.0)), 0);
    assert_eq!(Align::Center.offset(units(30.0)), units(-15.0));
    assert_eq!(Align::End.offset(units(30.0)), units(-30.0));
    assert_eq!(Align::Center.offset(3), -1);
    assert_eq!(Align::Center.offset(-3), 1);
}

#[test]
fn frame_of_a_square_canvas() {
    let frame = FrameLayout::new(units(1000.0), units(1000.0));
    assert_eq!(
        frame.outer,
        Bounds::new(Range::new(0, units(1000.0)), Range::new(units(1000.0), 0))
    );
    assert_eq!(frame.viewport, viewport());
    assert_eq!(frame.title, at(500.0, 70.0));
    assert_eq!(frame.x_title, at(500.0, 960.0));
    assert_eq!(frame.y_title, at(40.0, 500.0));
    assert_eq!(frame.bottom, Segment { from: at(80.0, 920.0), to: at(920.0, 920.0) });
    assert_eq!(frame.left, Segment { from: at(80.0, 920.0), to: at(80.0, 80.0) });
}

#[test]
fn frame_of_a_wide_canvas() {
    let frame = FrameLayout::new(units(2000.0), 1_000_000_001);
    assert_eq!(frame.viewport.x, Range::new(units(80.0), units(1920.0)));
    assert_eq!(frame.viewport.y, Range::new(920_000_001, units(80.0)));
    assert_eq!(frame.title, at(1000.0, 70.0));
    assert_eq!(frame.x_title, Point { x: units(1000.0), y: 960_000_001 });
    assert_eq!(frame.y_title, at(40.0, 500.0));
}

#[test]
fn tick_on_the_left() {
    let tick = TickLayout::new(Side::Left, viewport(), units(500.0)).unwrap();
    assert_eq!(tick.mark, Segment { from: at(80.0, 500.0), to: at(70.0, 500.0) });
    assert_eq!(tick.grid, Segment { from: at(80.0, 500.0), to: at(920.0, 500.0) });
    assert_eq!(tick.label, at(65.0, 500.0));
    assert_eq!(tick.horizontal, Align::End);
    assert_eq!(tick.vertical, Align::Center);
}

#[test]
fn tick_at_the_bottom() {
    let tick = TickLayout::new(Side::Bottom, viewport(), units(500.0)).unwrap();
    assert_eq!(tick.mark, Segment { from: at(500.0, 920.0), to: at(500.0, 930.0) });
    assert_eq!(tick.grid, Segment { from: at(500.0, 920.0), to: at(500.0, 80.0) });
    assert_eq!(tick.label, at(500.0, 935.0));
    assert_eq!(tick.horizontal, Align::Center);
    assert_eq!(tick.vertical, Align::Start);
}

#[test]
fn ticks_outside_the_viewport_are_left_out() {
    for side in [Side::Left, Side::Bottom] {
        assert!(TickLayout::new(side, viewport(), units(80.0)).is_some());
        assert!(TickLayout::new(side, viewport(), units(920.0)).is_some());
        assert_eq!(TickLayout::new(side, viewport(), units(79.999999)), None);
        assert_eq!(TickLayout::new(side, viewport(), units(920.000001)), None);
    }
}

#[test]
fn legend_in_the_lower_right_corner() {
    let widths = vec![units(70.0), units(90.0)];
    let legend = LegendLayout::new(viewport(), &widths);
    // 90 wide text, 40 sample, 10 gap, 10 padding on both sides, 20 margin.
    assert_eq!(legend.rect.x, Range::new(units(740.0), units(900.0)));
    // Two rows of 20, 10 padding above and below, 20 margin.
    assert_eq!(legend.rect.y, Range::new(units(840.0), units(900.0)));
    assert_eq!(legend.row(0), at(750.0, 860.0));
    assert_eq!(legend.row(1), at(750.0, 880.0));
    assert_eq!(legend.text_of(0), at(800.0, 860.0));
    assert_eq!(legend.text_of(1), at(800.0, 880.0));
}

#[test]
fn legend_without_rows() {
    let legend = LegendLayout::new(viewport(), &vec![]);
    assert_eq!(legend.rect.x, Range::new(units(830.0), units(900.0)));
    assert_eq!(legend.rect.y, Range::new(units(880.0), units(900.0)));
}

#[test]
fn quit_key() {
    assert!(is_quit("q"));
    assert!(!is_quit("Q"));
    assert!(!is_quit("qq"));
    assert!(!is_quit(""));
}

#[test]
fn window_opens_stale() {
    assert_eq!(WindowState::new(), WindowState { ready: false, drawn: false, stale: true });
}

#[test]
fn surface_is_made_once() {
    let (state, make) = WindowState::new().on_resumed();
    assert!(make);
    assert_eq!(state, WindowState { ready: true, drawn: false, stale: true });
    let (state, make) = state.on_resumed();
    assert!(!make);
    assert_eq!(state, WindowState { ready: true, drawn: false, stale: true });
}

#[test]
fn closing_and_quitting_end_the_loop() {
    for state in [WindowState::new(), WindowState { ready: true, drawn: true, stale: false }] {
        assert_eq!(state.on_event(&WindowEvent::CloseRequested), (state, WindowAction::Exit));
        assert_eq!(
            state.on_event(&WindowEvent::Character("q".to_string())),
            (state, WindowAction::Exit)
        );
        assert_eq!(
            state.on_event(&WindowEvent::Character("x".to_string())),
            (state, WindowAction::Ignore)
        );
        assert_eq!(state.on_event(&WindowEvent::Other), (state, WindowAction::Ignore));
    }
}

#[test]
fn resizing_makes_the_plot_stale() {
    let shown = WindowState { ready: true, drawn: true, stale: false };
    assert_eq!(
        shown.on_event(&WindowEvent::Resized { width: 640, height: 480 }),
        (
            WindowState { ready: true, drawn: true, stale: true },
            WindowAction::Resize { width: 640, height: 480 }
        )
    );
    assert_eq!(
        shown.on_event(&WindowEvent::Resized { width: 0, height: 480 }),
        (shown, WindowAction::Ignore)
    );
    assert_eq!(
        shown.on_event(&WindowEvent::Resized { width: 640, height: 0 }),
        (shown, WindowAction::Ignore)
    );
    let closed = WindowState::new();
    assert_eq!(
        closed.on_event(&WindowEvent::Resized { width: 640, height: 480 }),
        (closed, WindowAction::Ignore)
    );
}

#[test]
fn redraw_draws_when_stale_and_presents_otherwise() {
    let fresh = WindowState { ready: true, drawn: false, stale: true };
    let shown = WindowState { ready: true, drawn: true, stale: false };
    assert_eq!(
        fresh.on_event(&WindowEvent::RedrawRequested),
        (shown, WindowAction::DrawAndPresent)
    );
    assert_eq!(shown.on_event(&WindowEvent::RedrawRequested), (shown, WindowAction::Present));
    let stale = WindowState { ready: true, drawn: true, stale: true };
    assert_eq!(
        stale.on_event(&WindowEvent::RedrawRequested),
        (shown, WindowAction::DrawAndPresent)
    );
    let never = WindowState { ready: true, drawn: false, stale: false };
    assert_eq!(
        never.on_event(&WindowEvent::RedrawRequested),
        (shown, WindowAction::DrawAndPresent)
    );
    let closed = WindowState::new();
    assert_eq!(closed.on_event(&WindowEvent::RedrawRequested), (closed, WindowAction::Ignore));
}

#[test]
fn markers_and_alignments_are_plain_values() {
    assert_ne!(Marker::Circle, Marker::Octagon);
    assert_eq!(Marker::Star, Marker::Star);
    assert_ne!(Align::Start, Align::End);
}

#[test]
fn scatter_plots_and_their_trend_lines_have_rows() {
    let series = vec![
        SeriesKind::Line,
        SeriesKind::Scatter { marker: Marker::Star, trendline: true },
        SeriesKind::BarChart,
        SeriesKind::Scatter { marker: Marker::Circle, trendline: false },
        SeriesKind::Histogram,
    ];
    assert_eq!(
        legend_rows(&series),
        vec![
            LegendRow { series: 1, sample: LegendSample::Marker(Marker::Star) },
            LegendRow { series: 1, sample: LegendSample::Trendline },
            LegendRow { series: 3, sample: LegendSample::Marker(Marker::Circle) },
        ]
    );
    assert_eq!(legend_rows(&vec![]), vec![]);
    assert_eq!(legend_rows(&vec![SeriesKind::Line, SeriesKind::Histogram]), vec![]);
}

#[test]
fn texts_of_rows() {
    assert_eq!(LegendSample::Marker(Marker::Plus).label(), "scatter");
    assert_eq!(LegendSample::Trendline.label(), "trendline");
}
