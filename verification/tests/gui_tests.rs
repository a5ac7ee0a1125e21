use gui_demo::gui::ball_bounds;
use gui_demo::gui::clamp_frequency;
use gui_demo::gui::render;
use gui_demo::gui::scale_to_range;
use gui_demo::gui::DeclKind;
use gui_demo::gui::FrameInput;
use gui_demo::gui::Ids;
use gui_demo::gui::State;
use gui_demo::gui::WidgetIdGenerator;
use gui_demo::state::BallColor;
use gui_demo::state::DemoApp;
use gui_demo::state::ImageId;
use gui_demo::state::Point;

fn quiet_frame() -> FrameInput {
    FrameInput {
        canvas_kid_w: 5400,
        window_h: 4200,
        shapes_w: 5000,
        shapes_h: 3600,
        button_presses: 0,
        xy_pad: None,
        toggle: None,
        dialer: None,
    }
}

fn fresh_ids() -> Ids {
    let mut gen = WidgetIdGenerator { next: 0 };
    Ids::new(&mut gen)
}

#[test]
fn state_new_initial_values() {
    let s = State::new(ImageId(9));
    assert_eq!(s.ball_xy, Point { x: 0, y: 0 });
    assert_eq!(s.ball_color, BallColor::White);
    assert_eq!(s.sine_frequency, 10);
    assert_eq!(s.rust_logo, ImageId(9));
}

#[test]
fn demo_app_new_initial_values() {
    let s = DemoApp::new(ImageId(2));
    assert_eq!(s.ball_xy, Point { x: 0, y: 0 });
    assert_eq!(s.ball_color, BallColor::White);
    assert_eq!(s.sine_frequency, 10);
    assert_eq!(s.rust_logo, ImageId(2));
}

#[test]
fn one_toggle_turns_fresh_ball_black() {
    let mut s = State::new(ImageId(0));
    let ids = fresh_ids();
    let mut ui = quiet_frame();
    ui.toggle = Some(false);
    render(&ui, &ids, &mut s);
    assert_eq!(s.ball_color, BallColor::Black);
    assert_eq!(s.ball_xy, Point { x: 0, y: 0 });
    assert_eq!(s.sine_frequency, 10);
}

#[test]
fn toggle_back_to_white() {
    let mut s = State::new(ImageId(0));
    let ids = fresh_ids();
    let mut ui = quiet_frame();
    ui.toggle = Some(false);
    render(&ui, &ids, &mut s);
    ui.toggle = Some(true);
    render(&ui, &ids, &mut s);
    assert_eq!(s.ball_color, BallColor::White);
}

#[test]
fn dialer_clamps_low_and_high() {
    let mut s = State::new(ImageId(0));
    let ids = fresh_ids();
    let mut ui = quiet_frame();
    ui.dialer = Some(0);
    render(&ui, &ids, &mut s);
    assert_eq!(s.sine_frequency, 5);
    ui.dialer = Some(30000);
    render(&ui, &ids, &mut s);
    assert_eq!(s.sine_frequency, 2000);
    ui.dialer = Some(i64::MIN);
    render(&ui, &ids, &mut s);
    assert_eq!(s.sine_frequency, 5);
}

#[test]
fn dialer_sets_in_range_value_exactly() {
    let mut s = State::new(ImageId(0));
    let ids = fresh_ids();
    let mut ui = quiet_frame();
    ui.dialer = Some(425);
    render(&ui, &ids, &mut s);
    assert_eq!(s.sine_frequency, 425);
}

#[test]
fn pad_drag_sets_ball_directly() {
    let mut s = State::new(ImageId(0));
    let ids = fresh_ids();
    let mut ui = quiet_frame();
    ui.xy_pad = Some(Point { x: -300, y: 450 });
    render(&ui, &ids, &mut s);
    assert_eq!(s.ball_xy, Point { x: -300, y: 450 });
}

#[test]
fn button_press_lands_ball_within_bounds() {
    let mut s = State::new(ImageId(0));
    let ids = fresh_ids();
    let mut ui = quiet_frame();
    ui.button_presses = 1;
    let b = ball_bounds(ui.canvas_kid_w, ui.window_h);
    for _ in 0..50 {
        render(&ui, &ids, &mut s);
        assert!(b.min_x <= s.ball_xy.x && s.ball_xy.x <= b.max_x);
        assert!(b.min_y <= s.ball_xy.y && s.ball_xy.y <= b.max_y);
    }
}

#[test]
fn several_presses_one_frame_stay_within_bounds() {
    let mut s = State::new(ImageId(0));
    let ids = fresh_ids();
    let mut ui = quiet_frame();
    ui.button_presses = 3;
    let b = ball_bounds(ui.canvas_kid_w, ui.window_h);
    render(&ui, &ids, &mut s);
    assert!(b.min_x <= s.ball_xy.x && s.ball_xy.x <= b.max_x);
    assert!(b.min_y <= s.ball_xy.y && s.ball_xy.y <= b.max_y);
}

#[test]
fn quiet_frame_changes_nothing() {
    let mut s = State::new(ImageId(3));
    let ids = fresh_ids();
    let ui = quiet_frame();
    render(&ui, &ids, &mut s);
    assert_eq!(s.ball_xy, Point { x: 0, y: 0 });
    assert_eq!(s.ball_color, BallColor::White);
    assert_eq!(s.sine_frequency, 10);
    assert_eq!(s.rust_logo, ImageId(3));
}

#[test]
fn ball_bounds_thirds_of_container() {
    let b = ball_bounds(5400, 4200);
    assert_eq!(b.max_x, 1800);
    assert_eq!(b.min_x, -1800);
    assert_eq!(b.max_y, 700);
    assert_eq!(b.min_y, -700);
}

#[test]
fn scale_to_range_exact_values() {
    assert_eq!(scale_to_range(27, -10, 10), -3);
    assert_eq!(scale_to_range(0, -10, 10), -10);
    assert_eq!(scale_to_range(19, -10, 10), 9);
    assert_eq!(scale_to_range(12345, 5, 5), 5);
}

#[test]
fn clamp_frequency_exact_values() {
    assert_eq!(clamp_frequency(4), 5);
    assert_eq!(clamp_frequency(5), 5);
    assert_eq!(clamp_frequency(2000), 2000);
    assert_eq!(clamp_frequency(2001), 2000);
    assert_eq!(clamp_frequency(1000), 1000);
}

#[test]
fn ids_are_consecutive_and_fresh() {
    let mut gen = WidgetIdGenerator { next: 5 };
    let ids = Ids::new(&mut gen);
    assert_eq!(ids.canvas, 5);
    assert_eq!(ids.title, 6);
    assert_eq!(ids.shapes_title, 12);
    assert_eq!(ids.ball, 27);
    assert_eq!(ids.canvas_scrollbar, 31);
    assert_eq!(gen.next, 32);
}

#[test]
fn widget_tree_declares_every_widget_once() {
    let mut s = State::new(ImageId(8));
    let ids = fresh_ids();
    let ui = quiet_frame();
    let out = render(&ui, &ids, &mut s);
    assert_eq!(out.len(), 27);
    assert_eq!(out[0].id, ids.canvas);
    assert_eq!(out[0].kind, DeclKind::Canvas);
    assert_eq!(out[1].kind, DeclKind::Text { font_size: Some(42) });
    assert_eq!(out[2].kind, DeclKind::Text { font_size: None });
    assert_eq!(
        out[7].kind,
        DeclKind::RoundedRectangle { w: 5000, h: 3000, radius: 100 }
    );
    assert_eq!(out[17].kind, DeclKind::Image { image: ImageId(8), w: 1440, h: 1440 });
    assert_eq!(out[19].kind, DeclKind::Button { w: 1300, h: 1300 });
    assert_eq!(
        out[20].kind,
        DeclKind::XyPad { x: 0, y: 0, min_x: -1800, max_x: 1800, min_y: -700, max_y: 700 }
    );
    assert_eq!(out[21].kind, DeclKind::Toggle { value: true });
    assert_eq!(
        out[22].kind,
        DeclKind::Ball { x: 0, y: -1650, color: BallColor::White, radius: 200 }
    );
    assert_eq!(
        out[24].kind,
        DeclKind::NumberDialer { value: 10, min: 5, max: 2000, precision: 1 }
    );
    assert_eq!(out[25].kind, DeclKind::PlotPath { frequency: 10 });
    assert_eq!(out[26].kind, DeclKind::Scrollbar);
}

#[test]
fn interacting_widgets_show_the_value_they_were_declared_with() {
    let mut s = State::new(ImageId(0));
    let ids = fresh_ids();
    let mut ui = quiet_frame();
    ui.toggle = Some(false);
    ui.dialer = Some(500);
    let out = render(&ui, &ids, &mut s);
    // The toggle and the dialer are declared before their interaction is
    // applied, so they still show the old value; the ball and the plot are
    // declared after, so they show the new one.
    assert_eq!(out[21].kind, DeclKind::Toggle { value: true });
    assert_eq!(out[24].kind, DeclKind::NumberDialer { value: 10, min: 5, max: 2000, precision: 1 });
    assert_eq!(
        out[22].kind,
        DeclKind::Ball { x: 0, y: -1650, color: BallColor::Black, radius: 200 }
    );
    assert_eq!(out[25].kind, DeclKind::PlotPath { frequency: 500 });
    assert_eq!(s.sine_frequency, 500);
    assert_eq!(s.ball_color, BallColor::Black);
}
