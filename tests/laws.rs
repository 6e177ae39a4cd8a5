use embedded_graphics_transform::{
    DrawTarget, FlipX, FlipY, Pixel, Point, Rectangle, Rotate, Rotate0, Rotate180, Rotate270,
    Rotate90, Rotation, Size, Transpose,
};

#[derive(Debug, Clone, PartialEq)]
enum Op {
    Draw(Vec<Pixel<u8>>),
    Fill(Rectangle, u8),
    Clear(u8),
}

/// A surface that records what it is asked to do, and fails on request.
struct Recorder {
    bounds: Rectangle,
    ops: Vec<Op>,
    fail: bool,
}

impl Recorder {
    fn new(width: u32, height: u32) -> Recorder {
        Recorder::at(Point::new(0, 0), width, height)
    }

    fn at(top_left: Point, width: u32, height: u32) -> Recorder {
        Recorder {
            bounds: Rectangle::new(top_left, Size::new(width, height)),
            ops: Vec::new(),
            fail: false,
        }
    }

    fn result(&self) -> Result<(), &'static str> {
        if self.fail {
            Err("surface failed")
        } else {
            Ok(())
        }
    }
}

impl DrawTarget for Recorder {
    type Color = u8;
    type Error = &'static str;

    fn bounding_box(&self) -> Rectangle {
        self.bounds
    }

    fn draw_iter(&mut self, pixels: Vec<Pixel<u8>>) -> Result<(), Self::Error> {
        self.ops.push(Op::Draw(pixels));
        self.result()
    }

    fn fill_solid(&mut self, area: &Rectangle, color: u8) -> Result<(), Self::Error> {
        self.ops.push(Op::Fill(*area, color));
        self.result()
    }

    fn clear(&mut self, color: u8) -> Result<(), Self::Error> {
        self.ops.push(Op::Clear(color));
        self.result()
    }
}

fn px(x: i32, y: i32, c: u8) -> Pixel<u8> {
    Pixel(Point::new(x, y), c)
}

fn rect(x: i32, y: i32, w: u32, h: u32) -> Rectangle {
    Rectangle::new(Point::new(x, y), Size::new(w, h))
}

fn sample() -> Vec<Pixel<u8>> {
    vec![px(0, 0, 1), px(6, 2, 2), px(1, 2, 3), px(3, 1, 4)]
}

#[test]
fn point_transposed_twice_is_itself() {
    let p = Point::new(3, -7);
    assert_eq!(p.transpose(), Point::new(-7, 3));
    assert_eq!(p.transpose().transpose(), p);
    assert_eq!(Size::new(4, 9).transpose(), Size::new(9, 4));
}

#[test]
fn mirror_x_moves_points_across_the_width() {
    let mut disp = FlipX::new(Recorder::new(10, 5));
    disp.draw_iter(vec![px(3, 2, 1), px(0, 4, 2), px(9, 0, 3)]).unwrap();
    assert_eq!(
        disp.as_ref().ops,
        vec![Op::Draw(vec![px(6, 2, 1), px(9, 4, 2), px(0, 0, 3)])]
    );
}

#[test]
fn mirror_x_twice_is_identity() {
    let mut disp = FlipX::new(FlipX::new(Recorder::new(10, 5)));
    disp.draw_iter(vec![px(3, 2, 1), px(-4, 8, 2), px(12, 0, 3)]).unwrap();
    let inner = disp.into_inner().into_inner();
    assert_eq!(
        inner.ops,
        vec![Op::Draw(vec![px(3, 2, 1), px(-4, 8, 2), px(12, 0, 3)])]
    );
}

#[test]
fn mirror_y_twice_is_identity() {
    let mut disp = FlipY::new(FlipY::new(Recorder::new(10, 5)));
    disp.draw_iter(vec![px(3, 2, 1), px(-4, 8, 2)]).unwrap();
    disp.fill_solid(&rect(1, 1, 2, 3), 7).unwrap();
    let inner = disp.into_inner().into_inner();
    assert_eq!(
        inner.ops,
        vec![
            Op::Draw(vec![px(3, 2, 1), px(-4, 8, 2)]),
            Op::Fill(rect(1, 1, 2, 3), 7)
        ]
    );
}

#[test]
fn mirror_wraps_at_the_limits_of_i32() {
    let mut disp = FlipX::new(Recorder::new(64, 64));
    disp.draw_iter(vec![px(i32::MIN, 0, 1)]).unwrap();
    assert_eq!(
        disp.as_ref().ops,
        vec![Op::Draw(vec![px(63i32.wrapping_sub(i32::MIN), 0, 1)])]
    );
}

#[test]
fn rotate90_then_rotate270_restores_the_sequence() {
    let mut disp = Rotate90::new(Rotate270::new(Recorder::new(7, 3)));
    disp.draw_iter(sample()).unwrap();
    assert_eq!(disp.into_inner().into_inner().ops, vec![Op::Draw(sample())]);
}

#[test]
fn rotate270_then_rotate90_restores_the_sequence() {
    let mut disp = Rotate270::new(Rotate90::new(Recorder::new(7, 3)));
    disp.draw_iter(sample()).unwrap();
    assert_eq!(disp.into_inner().into_inner().ops, vec![Op::Draw(sample())]);
}

#[test]
fn rotate180_twice_restores_the_sequence() {
    let mut disp = Rotate180::new(Rotate180::new(Recorder::new(7, 3)));
    disp.draw_iter(sample()).unwrap();
    assert_eq!(disp.into_inner().into_inner().ops, vec![Op::Draw(sample())]);
}

#[test]
fn bounding_boxes_swap_or_keep_width_and_height() {
    let inner = rect(2, 5, 7, 3);
    let swapped = rect(5, 2, 3, 7);
    assert_eq!(Transpose::new(Recorder::at(Point::new(2, 5), 7, 3)).bounding_box(), swapped);
    assert_eq!(Rotate90::new(Recorder::at(Point::new(2, 5), 7, 3)).bounding_box(), swapped);
    assert_eq!(Rotate270::new(Recorder::at(Point::new(2, 5), 7, 3)).bounding_box(), swapped);
    assert_eq!(FlipX::new(Recorder::at(Point::new(2, 5), 7, 3)).bounding_box(), inner);
    assert_eq!(FlipY::new(Recorder::at(Point::new(2, 5), 7, 3)).bounding_box(), inner);
    assert_eq!(Rotate180::new(Recorder::at(Point::new(2, 5), 7, 3)).bounding_box(), inner);
    assert_eq!(Rotate0::new(Recorder::at(Point::new(2, 5), 7, 3)).bounding_box(), inner);
}

#[test]
fn rotate90_hands_on_every_pixel_with_its_color() {
    let mut disp = Rotate90::new(Recorder::new(7, 3));
    disp.draw_iter(vec![px(1, 2, 9), px(0, 0, 8), px(1, 2, 7)]).unwrap();
    assert_eq!(
        disp.as_ref().ops,
        vec![Op::Draw(vec![px(4, 1, 9), px(6, 0, 8), px(4, 1, 7)])]
    );
}

#[test]
fn rotate270_and_rotate180_move_points() {
    let mut r270 = Rotate270::new(Recorder::new(7, 3));
    r270.draw_iter(vec![px(1, 2, 9)]).unwrap();
    assert_eq!(r270.as_ref().ops, vec![Op::Draw(vec![px(2, 1, 9)])]);

    let mut r180 = Rotate180::new(Recorder::new(7, 3));
    r180.draw_iter(vec![px(1, 2, 9)]).unwrap();
    assert_eq!(r180.as_ref().ops, vec![Op::Draw(vec![px(5, 0, 9)])]);
}

#[test]
fn empty_draw_is_handed_on_empty() {
    let mut disp = Rotate270::new(Recorder::new(7, 3));
    disp.draw_iter(Vec::new()).unwrap();
    assert_eq!(disp.as_ref().ops, vec![Op::Draw(Vec::new())]);
}

#[test]
fn clear_is_handed_on_untouched() {
    let mut a = Rotate90::new(Recorder::new(7, 3));
    a.clear(5).unwrap();
    assert_eq!(a.as_ref().ops, vec![Op::Clear(5)]);
    let mut b = FlipX::new(Recorder::new(7, 3));
    b.clear(6).unwrap();
    assert_eq!(b.as_ref().ops, vec![Op::Clear(6)]);
    let mut c = Rotate180::new(Recorder::new(7, 3));
    c.clear(7).unwrap();
    assert_eq!(c.as_ref().ops, vec![Op::Clear(7)]);
}

#[test]
fn transposed_fill_of_bounds_covers_the_surface() {
    let mut disp = Transpose::new(Recorder::at(Point::new(2, 5), 7, 3));
    let b = disp.bounding_box();
    disp.fill_solid(&b, 4).unwrap();
    assert_eq!(disp.as_ref().ops, vec![Op::Fill(rect(2, 5, 7, 3), 4)]);

    let mut same = Rotate0::new(Recorder::new(7, 3));
    let b = same.bounding_box();
    same.fill_solid(&b, 4).unwrap();
    assert_eq!(same.as_ref().ops, vec![Op::Fill(rect(0, 0, 7, 3), 4)]);
}

#[test]
fn mirror_fill_uses_the_last_coordinate() {
    let mut disp = FlipX::new(Recorder::new(10, 4));
    disp.fill_solid(&rect(1, 1, 5, 2), 3).unwrap();
    assert_eq!(disp.as_ref().ops, vec![Op::Fill(rect(3, 1, 5, 2), 3)]);

    let mut disp = FlipY::new(Recorder::new(10, 4));
    disp.fill_solid(&rect(1, 1, 5, 2), 3).unwrap();
    assert_eq!(disp.as_ref().ops, vec![Op::Fill(rect(1, 0, 5, 2), 3)]);
}

#[test]
fn rotated_fills_are_transformed() {
    let mut r90 = Rotate90::new(Recorder::new(64, 64));
    r90.fill_solid(&rect(1, 1, 5, 10), 1).unwrap();
    assert_eq!(r90.as_ref().ops, vec![Op::Fill(rect(52, 1, 10, 5), 1)]);

    let mut r180 = Rotate180::new(Recorder::new(64, 64));
    r180.fill_solid(&rect(1, 1, 5, 10), 1).unwrap();
    assert_eq!(r180.as_ref().ops, vec![Op::Fill(rect(57, 52, 5, 10), 1)]);

    let mut r270 = Rotate270::new(Recorder::new(64, 64));
    r270.fill_solid(&rect(1, 1, 5, 10), 1).unwrap();
    assert_eq!(r270.as_ref().ops, vec![Op::Fill(rect(1, 57, 10, 5), 1)]);
}

#[test]
fn fill_contiguous_draws_row_major_points() {
    let mut disp = Rotate90::new(Recorder::new(7, 3));
    disp.fill_contiguous(&rect(0, 0, 2, 2), vec![1, 2, 3, 4]).unwrap();
    assert_eq!(
        disp.as_ref().ops,
        vec![Op::Draw(vec![px(6, 0, 1), px(6, 1, 2), px(5, 0, 3), px(5, 1, 4)])]
    );
}

#[test]
fn fill_contiguous_stops_at_the_shorter_of_area_and_colors() {
    let mut few = Rotate0::new(Recorder::new(7, 3));
    few.fill_contiguous(&rect(2, 1, 3, 2), vec![1, 2, 3, 4]).unwrap();
    assert_eq!(
        few.as_ref().ops,
        vec![Op::Draw(vec![px(2, 1, 1), px(3, 1, 2), px(4, 1, 3), px(2, 2, 4)])]
    );

    let mut many = Rotate0::new(Recorder::new(7, 3));
    many.fill_contiguous(&rect(2, 1, 1, 2), vec![1, 2, 3, 4]).unwrap();
    assert_eq!(many.as_ref().ops, vec![Op::Draw(vec![px(2, 1, 1), px(2, 2, 2)])]);

    let mut empty = Rotate0::new(Recorder::new(7, 3));
    empty.fill_contiguous(&rect(2, 1, 0, 2), vec![1, 2]).unwrap();
    assert_eq!(empty.as_ref().ops, vec![Op::Draw(Vec::new())]);
}

#[test]
fn failures_are_handed_back_unchanged() {
    let mut disp = Rotate90::new(Recorder::new(7, 3));
    disp.as_mut().fail = true;
    assert_eq!(disp.draw_iter(sample()), Err("surface failed"));
    assert_eq!(disp.fill_solid(&rect(0, 0, 1, 1), 1), Err("surface failed"));
    assert_eq!(disp.clear(1), Err("surface failed"));
    assert_eq!(disp.as_ref().ops.len(), 3);
}

#[test]
fn runtime_rotation_matches_the_fixed_ones() {
    for (rot, expected) in [
        (Rotation::Rotate0, px(1, 2, 9)),
        (Rotation::Rotate90, px(4, 1, 9)),
        (Rotation::Rotate180, px(5, 0, 9)),
        (Rotation::Rotate270, px(2, 1, 9)),
    ] {
        let mut disp = Rotate::new(rot, Recorder::new(7, 3));
        disp.draw_iter(vec![px(1, 2, 9)]).unwrap();
        disp.clear(3).unwrap();
        let inner = disp.into_inner();
        assert_eq!(inner.ops, vec![Op::Draw(vec![expected]), Op::Clear(3)]);
    }
    assert_eq!(
        Rotate::new(Rotation::Rotate270, Recorder::new(7, 3)).bounding_box(),
        rect(0, 0, 3, 7)
    );
}
