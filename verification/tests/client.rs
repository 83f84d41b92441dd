use clearcycle::client::Action;
use clearcycle::client::Client;
use clearcycle::client::WindowEvent;
use clearcycle::color::ClearColor;

#[test]
fn fresh_client_state() {
    let c = Client::new(640, 480);
    assert!(!c.exit);
    assert_eq!(c.color_index, 0);
    assert_eq!(c.width, 640);
    assert_eq!(c.height, 480);
}

#[test]
fn color_cycle_four_draws() {
    let mut c = Client::new(640, 480);
    let colors = [
        c.draw().color,
        c.draw().color,
        c.draw().color,
        c.draw().color,
    ];
    assert_eq!(
        colors,
        [
            ClearColor::Red,
            ClearColor::Green,
            ClearColor::Blue,
            ClearColor::Magenta,
        ]
    );
    assert_eq!(c.color_index, 0);
}

#[test]
fn cycle_repeats_after_full_round() {
    let mut c = Client::new(100, 100);
    for _ in 0..4 {
        c.draw();
    }
    assert_eq!(c.draw().color, ClearColor::Red);
    assert_eq!(c.color_index, 1);
}

#[test]
fn redraw_request_sequence_rgba() {
    let mut c = Client::new(320, 240);
    let mut seen: Vec<(u8, u8, u8, u8)> = Vec::new();
    for _ in 0..4 {
        match c.window_event(WindowEvent::RedrawRequested) {
            Action::Render { pass } => seen.push(pass.color.rgba()),
            other => panic!("expected a render action, got {:?}", other),
        }
    }
    assert_eq!(
        seen,
        vec![(1, 0, 0, 1), (0, 1, 0, 1), (0, 0, 1, 1), (1, 0, 1, 1)]
    );
}

#[test]
fn resize_then_draw_uses_new_dims() {
    let mut c = Client::new(640, 480);
    c.resize(800, 600);
    let pass = c.draw();
    assert_eq!((pass.width, pass.height), (800, 600));
    let pass2 = c.draw();
    assert_eq!((pass2.width, pass2.height), (800, 600));
}

#[test]
fn latest_resize_wins() {
    let mut c = Client::new(640, 480);
    c.resize(800, 600);
    c.resize(1, 1);
    let pass = c.draw();
    assert_eq!((pass.width, pass.height), (1, 1));
}

#[test]
fn resized_event_reconfigures() {
    let mut c = Client::new(640, 480);
    let action = c.window_event(WindowEvent::Resized {
        width: 1024,
        height: 768,
    });
    assert_eq!(
        action,
        Action::Reconfigure {
            width: 1024,
            height: 768,
        }
    );
    assert_eq!((c.width, c.height), (1024, 768));
}

#[test]
fn close_then_tick_terminates() {
    let mut c = Client::new(640, 480);
    let action = c.window_event(WindowEvent::CloseRequested);
    assert_eq!(action, Action::Nothing);
    assert!(c.update());
}

#[test]
fn tick_without_close_never_terminates() {
    let mut c = Client::new(640, 480);
    assert!(!c.update());
    c.window_event(WindowEvent::Resized {
        width: 300,
        height: 200,
    });
    c.window_event(WindowEvent::RedrawRequested);
    c.window_event(WindowEvent::Other);
    assert!(!c.update());
}

#[test]
fn other_event_changes_nothing() {
    let mut c = Client::new(640, 480);
    let action = c.window_event(WindowEvent::Other);
    assert_eq!(action, Action::Nothing);
    assert_eq!(c, Client::new(640, 480));
}

#[test]
fn draw_preserves_exit_flag() {
    let mut c = Client::new(640, 480);
    c.window_event(WindowEvent::CloseRequested);
    c.draw();
    assert!(c.exit);
}
