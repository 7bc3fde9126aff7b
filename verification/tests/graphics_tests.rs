use graphics::backend::{Backend, Frame, Reply};
use graphics::canvas::Fault;
use graphics::command::{Command, Draw};
use graphics::raster::rasterize;
use graphics::rect::Rect;
use graphics::renderer::{create_renderer, Renderer};

fn frame_of(reply: Reply) -> Frame {
    match reply {
        Reply::Rendered(frame) => frame,
        Reply::Queued => panic!("a render request was queued"),
    }
}

fn send(backend: &mut Backend, command: Command) {
    assert!(matches!(backend.apply(command), Reply::Queued));
}

fn render(backend: &mut Backend, renderer: &Renderer) -> Frame {
    frame_of(backend.apply(renderer.get_pixels()))
}

#[test]
fn square_on_ten_by_ten() {
    let (mut r, mut backend) = create_renderer(10, 10);
    r.set_color(0xFFFFFFFF);
    r.set_origin(0, 0);
    send(&mut backend, r.square(5));
    let frame = render(&mut backend, &r);
    assert_eq!(frame.pixels.len(), 100);
    let mut zeros = 0;
    for y in 0..10usize {
        for x in 0..10usize {
            let expected = if x < 5 && y < 5 { 0xFFFFFFFFu32 } else { 0 };
            assert_eq!(frame.pixels[y * 10 + x], expected);
            if expected == 0 {
                zeros += 1;
            }
        }
    }
    assert_eq!(zeros, 75);
    assert!(frame.faults.is_empty());
    assert_eq!(frame.drawn.len(), 1);
}

#[test]
fn overlap_last_write_wins() {
    let mut backend = Backend::new(4, 4);
    let mut r = Renderer { color: 1, x: 0, y: 0, width: 4, height: 4 };
    send(&mut backend, r.rect(4, 4));
    r.set_color(2);
    send(&mut backend, r.rect(2, 2));
    let frame = render(&mut backend, &r);
    let expected: Vec<u32> = vec![2, 2, 1, 1, 2, 2, 1, 1, 1, 1, 1, 1, 1, 1, 1, 1];
    assert_eq!(frame.pixels, expected);
    assert_eq!(frame.pixels.iter().filter(|p| **p == 1).count(), 12);
}

#[test]
fn paint_order_follows_send_order() {
    let mut backend = Backend::new(3, 1);
    let mut r = Renderer { color: 5, x: 0, y: 0, width: 3, height: 1 };
    send(&mut backend, r.rect(2, 1));
    r.set_color(6);
    r.set_origin(1, 0);
    send(&mut backend, r.rect(2, 1));
    r.set_color(7);
    r.set_origin(1, 0);
    send(&mut backend, r.rect(1, 1));
    assert_eq!(backend.pending_len(), 3);
    let frame = render(&mut backend, &r);
    assert_eq!(frame.pixels, vec![5, 7, 6]);
    assert_eq!(frame.drawn[0].rect.color, 5);
    assert_eq!(frame.drawn[1].rect.color, 6);
    assert_eq!(frame.drawn[2].rect.color, 7);
}

#[test]
fn render_is_destructive() {
    let (mut r, mut backend) = create_renderer(3, 2);
    r.set_color(9);
    send(&mut backend, r.square(2));
    let first = render(&mut backend, &r);
    assert_eq!(first.pixels, vec![9, 9, 0, 9, 9, 0]);
    assert_eq!(backend.pending_len(), 0);
    let second = render(&mut backend, &r);
    assert_eq!(second.pixels, vec![0; 6]);
    assert!(second.drawn.is_empty());
    assert!(second.faults.is_empty());
}

#[test]
fn render_of_nothing_is_background() {
    let mut backend = Backend::new(2, 3);
    let r = Renderer { color: 1, x: 0, y: 0, width: 2, height: 3 };
    let frame = render(&mut backend, &r);
    assert_eq!(frame.pixels, vec![0; 6]);
}

#[test]
fn out_of_bounds_rectangle_does_not_abort_rendering() {
    let (mut r, mut backend) = create_renderer(2, 2);
    r.set_color(3);
    r.set_origin(1, 1);
    send(&mut backend, r.square(2));
    r.set_color(4);
    r.set_origin(0, 0);
    send(&mut backend, r.rect(1, 1));
    let frame = render(&mut backend, &r);
    // the first square writes positions 3, 4, 5, 6: only 3 is on the canvas
    assert_eq!(frame.pixels, vec![4, 0, 0, 3]);
    assert_eq!(
        frame.faults,
        vec![
            Fault { source: 0, x_offset: 1, y_offset: 0 },
            Fault { source: 0, x_offset: 0, y_offset: 1 },
            Fault { source: 0, x_offset: 1, y_offset: 1 },
        ]
    );
    assert_eq!(frame.drawn.len(), 2);
    assert_eq!(frame.drawn[0].rect, Rect { x: 1, y: 1, width: 2, height: 2, color: 3 });
}

#[test]
fn rectangle_past_the_right_edge_runs_into_the_next_row() {
    let draws = vec![Draw {
        rect: Rect { x: 2, y: 0, width: 2, height: 1, color: 8 },
        trace: backtrace::Backtrace::new_unresolved(),
    }];
    let raster = rasterize(&draws, 3, 2);
    assert_eq!(raster.pixels, vec![0, 0, 8, 8, 0, 0]);
    assert!(raster.faults.is_empty());
}

#[test]
fn faults_name_their_rectangle() {
    let trace = backtrace::Backtrace::new_unresolved();
    let draws = vec![
        Draw { rect: Rect { x: 0, y: 0, width: 1, height: 1, color: 1 }, trace: trace.clone() },
        Draw { rect: Rect { x: 0, y: 5, width: 2, height: 1, color: 2 }, trace: trace.clone() },
        Draw { rect: Rect { x: 0, y: 0, width: 0, height: 7, color: 3 }, trace },
    ];
    let raster = rasterize(&draws, 2, 2);
    assert_eq!(raster.pixels, vec![1, 0, 0, 0]);
    assert_eq!(
        raster.faults,
        vec![
            Fault { source: 1, x_offset: 0, y_offset: 0 },
            Fault { source: 1, x_offset: 1, y_offset: 0 },
        ]
    );
}

#[test]
fn huge_offsets_are_faults_not_overflow() {
    let draws = vec![Draw {
        rect: Rect { x: u32::MAX, y: u32::MAX, width: 1, height: 2, color: 1 },
        trace: backtrace::Backtrace::new_unresolved(),
    }];
    let raster = rasterize(&draws, 3, 3);
    assert_eq!(raster.pixels, vec![0; 9]);
    assert_eq!(raster.faults.len(), 2);
    assert_eq!(raster.faults[1], Fault { source: 0, x_offset: 0, y_offset: 1 });
}

#[test]
fn index_of_is_row_major() {
    let rect = Rect { x: 3, y: 2, width: 4, height: 4, color: 0 };
    assert_eq!(rect.index_of(10, 0, 0), 23);
    assert_eq!(rect.index_of(10, 1, 2), 44);
    let far = Rect { x: u32::MAX, y: u32::MAX, width: 1, height: 1, color: 0 };
    assert_eq!(
        far.index_of(u32::MAX, u32::MAX, u32::MAX),
        (2 * (u32::MAX as u128)) * (u32::MAX as u128) + 2 * (u32::MAX as u128)
    );
}

#[test]
fn empty_canvas_reports_every_write() {
    let (mut r, mut backend) = create_renderer(0, 5);
    r.set_color(1);
    send(&mut backend, r.rect(2, 1));
    let frame = render(&mut backend, &r);
    assert!(frame.pixels.is_empty());
    assert_eq!(frame.faults.len(), 2);
}

#[test]
fn setters_change_only_their_fields() {
    let (mut r, _backend) = create_renderer(10, 20);
    assert_eq!(r, Renderer { color: 0, x: 0, y: 0, width: 10, height: 20 });
    r.set_color(0x44AAFFFF);
    assert_eq!(r, Renderer { color: 0x44AAFFFF, x: 0, y: 0, width: 10, height: 20 });
    r.set_origin(3, 4);
    assert_eq!(r, Renderer { color: 0x44AAFFFF, x: 3, y: 4, width: 10, height: 20 });
}

#[test]
fn square_and_rect_use_origin_and_color() {
    let mut r = Renderer { color: 0, x: 0, y: 0, width: 10, height: 10 };
    r.set_color(11);
    r.set_origin(2, 3);
    match r.square(4) {
        Command::Rect(rect, _) => {
            assert_eq!(rect, Rect { x: 2, y: 3, width: 4, height: 4, color: 11 })
        }
        Command::Render(_) => panic!("no rectangle"),
    }
    match r.rect(5, 6) {
        Command::Rect(rect, _) => {
            assert_eq!(rect, Rect { x: 2, y: 3, width: 5, height: 6, color: 11 })
        }
        Command::Render(_) => panic!("no rectangle"),
    }
    assert!(matches!(r.get_pixels(), Command::Render(_)));
}

#[test]
fn commands_carry_a_captured_trace() {
    let r = Renderer { color: 0, x: 0, y: 0, width: 10, height: 10 };
    match r.square(1) {
        Command::Rect(_, trace) => assert!(!trace.frames().is_empty()),
        Command::Render(_) => panic!("no rectangle"),
    }
}

#[test]
fn horizontal_line_is_checked_before_any_command() {
    let (mut r, mut backend) = create_renderer(10, 10);
    assert!(r.fits_row(9));
    assert!(!r.fits_row(10));
    r.set_origin(1, 0);
    assert!(!r.fits_row(u32::MAX));
    r.set_origin(5, 0);
    assert!(!r.fits_row(5));
    assert!(r.fits_row(4));
    assert_eq!(backend.pending_len(), 0);
    r.set_color(2);
    match r.horizontal_line(4) {
        Command::Rect(rect, _) => {
            assert_eq!(rect, Rect { x: 5, y: 0, width: 4, height: 1, color: 2 })
        }
        Command::Render(_) => panic!("no rectangle"),
    }
    send(&mut backend, r.horizontal_line(4));
    let frame = render(&mut backend, &r);
    assert_eq!(&frame.pixels[0..10], &[0, 0, 0, 0, 0, 2, 2, 2, 2, 0]);
    assert!(frame.faults.is_empty());
}

#[test]
fn vertical_line_is_checked_before_any_command() {
    let (mut r, mut backend) = create_renderer(10, 10);
    assert!(r.fits_column(9));
    assert!(!r.fits_column(10));
    r.set_origin(0, 5);
    assert!(!r.fits_column(5));
    assert!(!r.fits_column(u32::MAX));
    assert!(r.fits_column(4));
    assert_eq!(backend.pending_len(), 0);
    r.set_color(3);
    match r.vertical_line(4) {
        Command::Rect(rect, _) => {
            assert_eq!(rect, Rect { x: 0, y: 5, width: 1, height: 4, color: 3 })
        }
        Command::Render(_) => panic!("no rectangle"),
    }
    send(&mut backend, r.vertical_line(4));
    let frame = render(&mut backend, &r);
    for y in 0..10usize {
        let expected = if (5..9).contains(&y) { 3 } else { 0 };
        assert_eq!(frame.pixels[y * 10], expected);
    }
    assert!(frame.faults.is_empty());
}

#[test]
fn fitting_looks_at_its_own_axis_only() {
    let r = Renderer { color: 0, x: 2, y: 7, width: 10, height: 10 };
    assert!(r.fits_row(7));
    assert!(!r.fits_row(8));
    assert!(r.fits_column(2));
    assert!(!r.fits_column(3));
    let empty = Renderer { color: 0, x: 0, y: 0, width: 0, height: 0 };
    assert!(!empty.fits_row(0));
    assert!(!empty.fits_column(0));
}

#[test]
fn backend_reports_its_canvas() {
    let backend = Backend::new(7, 9);
    assert_eq!(backend.width(), 7);
    assert_eq!(backend.height(), 9);
    assert_eq!(backend.pending_len(), 0);
}

#[test]
fn draw_queues_without_painting() {
    let mut backend = Backend::new(1, 1);
    backend.draw(
        Rect { x: 9, y: 9, width: 9, height: 9, color: 9 },
        backtrace::Backtrace::new_unresolved(),
    );
    assert_eq!(backend.pending_len(), 1);
    let frame = backend.render();
    assert_eq!(frame.pixels, vec![0]);
    assert_eq!(frame.faults.len(), 81);
    assert_eq!(backend.pending_len(), 0);
}
