use embedded_graphics::mock_display::MockDisplay;
use embedded_graphics::pixelcolor::BinaryColor;
use embedded_graphics::prelude::{Point as EgPoint, Size as EgSize};
use embedded_graphics::primitives::{PointsIter, Rectangle as EgRectangle, Triangle};
use embedded_graphics_transform::{
    DrawTarget, FlipX, FlipY, Pixel, Point, Rectangle, Rotate0, Rotate180, Rotate270, Rotate90,
    Size,
};

/// A mock display of embedded-graphics, offered as a drawing surface.
struct Mock(MockDisplay<BinaryColor>);

impl Mock {
    fn new() -> Mock {
        Mock(MockDisplay::new())
    }
}

fn to_eg_rect(r: &Rectangle) -> EgRectangle {
    EgRectangle::new(
        EgPoint::new(r.top_left.x, r.top_left.y),
        EgSize::new(r.size.width, r.size.height),
    )
}

impl DrawTarget for Mock {
    type Color = BinaryColor;
    type Error = core::convert::Infallible;

    fn bounding_box(&self) -> Rectangle {
        let b = embedded_graphics::prelude::Dimensions::bounding_box(&self.0);
        Rectangle::new(
            Point::new(b.top_left.x, b.top_left.y),
            Size::new(b.size.width, b.size.height),
        )
    }

    fn draw_iter(&mut self, pixels: Vec<Pixel<BinaryColor>>) -> Result<(), Self::Error> {
        embedded_graphics::prelude::DrawTarget::draw_iter(
            &mut self.0,
            pixels
                .into_iter()
                .map(|Pixel(p, c)| embedded_graphics::Pixel(EgPoint::new(p.x, p.y), c)),
        )
    }

    fn fill_solid(&mut self, area: &Rectangle, color: BinaryColor) -> Result<(), Self::Error> {
        embedded_graphics::prelude::DrawTarget::fill_solid(&mut self.0, &to_eg_rect(area), color)
    }

    fn clear(&mut self, color: BinaryColor) -> Result<(), Self::Error> {
        embedded_graphics::prelude::DrawTarget::clear(&mut self.0, color)
    }
}

fn triangle() -> impl PointsIter {
    let tri = Triangle::new(EgPoint::new(0, 10), EgPoint::new(0, 0), EgPoint::new(20, 0));

    tri
}

fn triangle_pixels() -> Vec<Pixel<BinaryColor>> {
    triangle()
        .points()
        .map(|pt| Pixel(Point::new(pt.x, pt.y), BinaryColor::On))
        .collect()
}

fn lower_right(rect: &Rectangle) -> Point {
    Point::new(
        rect.top_left.x + rect.size.width as i32,
        rect.top_left.y + rect.size.height as i32,
    )
}

#[test]
fn rot0() {
    let mut disp = Rotate0::new(Mock::new());

    assert_eq!(
        disp.bounding_box(),
        Rectangle {
            top_left: Point::new(0, 0),
            size: Size {
                width: 64,
                height: 64
            }
        }
    );

    disp.draw_iter(triangle_pixels())
        .expect("draw failed");

    assert_eq!(
        disp.as_ref().0.affected_area(),
        EgRectangle {
            top_left: EgPoint { x: 0, y: 0 },
            size: EgSize {
                width: 21,
                height: 11
            }
        }
    );

    disp.as_ref().0.assert_pattern(&[
        "#####################",
        "###################  ",
        "#################    ",
        "###############      ",
        "#############        ",
        "###########          ",
        "#########            ",
        "#######              ",
        "#####                ",
        "###                  ",
        "#                    ",
    ]);
}

#[test]
fn flipy() {
    let mut disp = FlipY::new(Mock::new());

    assert_eq!(
        disp.bounding_box(),
        Rectangle {
            top_left: Point::new(0, 0),
            size: Size {
                width: 64,
                height: 64
            }
        }
    );

    disp.draw_iter(triangle_pixels())
        .expect("draw failed");
    assert_eq!(
        disp.as_ref().0.affected_area(),
        EgRectangle {
            top_left: EgPoint { x: 0, y: 53 },
            size: EgSize {
                width: 21,
                height: 11
            }
        }
    );

    disp.as_ref().0.assert_pattern(&[
        "                     ",
        "                     ",
        "                     ",
        "                     ",
        "                     ",
        "                     ",
        "                     ",
        "                     ",
        "                     ",
        "                     ",
        "                     ",
        "                     ",
        "                     ",
        "                     ",
        "                     ",
        "                     ",
        "                     ",
        "                     ",
        "                     ",
        "                     ",
        "                     ",
        "                     ",
        "                     ",
        "                     ",
        "                     ",
        "                     ",
        "                     ",
        "                     ",
        "                     ",
        "                     ",
        "                     ",
        "                     ",
        "                     ",
        "                     ",
        "                     ",
        "                     ",
        "                     ",
        "                     ",
        "                     ",
        "                     ",
        "                     ",
        "                     ",
        "                     ",
        "                     ",
        "                     ",
        "                     ",
        "                     ",
        "                     ",
        "                     ",
        "                     ",
        "                     ",
        "                     ",
        "                     ",
        "#                    ",
        "###                  ",
        "#####                ",
        "#######              ",
        "#########            ",
        "###########          ",
        "#############        ",
        "###############      ",
        "#################    ",
        "###################  ",
        "#####################",
    ]);
}

#[test]
fn rot90() {
    let mut disp = Rotate90::new(Mock::new());

    disp.draw_iter(triangle_pixels())
        .expect("draw failed");

    assert_eq!(
        disp.as_ref().0.affected_area(),
        EgRectangle {
            top_left: EgPoint { x: 53, y: 0 },
            size: EgSize {
                width: 11,
                height: 21
            }
        }
    );

    disp.as_ref().0.assert_pattern(&[
        "                                                     ###########",
        "                                                      ##########",
        "                                                      ##########",
        "                                                       #########",
        "                                                       #########",
        "                                                        ########",
        "                                                        ########",
        "                                                         #######",
        "                                                         #######",
        "                                                          ######",
        "                                                          ######",
        "                                                           #####",
        "                                                           #####",
        "                                                            ####",
        "                                                            ####",
        "                                                             ###",
        "                                                             ###",
        "                                                              ##",
        "                                                              ##",
        "                                                               #",
        "                                                               #",
    ]);
}

#[test]
fn rot270() {
    let mut disp = Rotate270::new(Mock::new());

    disp.draw_iter(triangle_pixels())
        .expect("draw failed");

    assert_eq!(
        disp.as_ref().0.affected_area(),
        EgRectangle {
            top_left: EgPoint { x: 0, y: 43 },
            size: EgSize {
                width: 11,
                height: 21
            }
        }
    );

    disp.as_ref().0.assert_pattern(&[
        "                     ",
        "                     ",
        "                     ",
        "                     ",
        "                     ",
        "                     ",
        "                     ",
        "                     ",
        "                     ",
        "                     ",
        "                     ",
        "                     ",
        "                     ",
        "                     ",
        "                     ",
        "                     ",
        "                     ",
        "                     ",
        "                     ",
        "                     ",
        "                     ",
        "                     ",
        "                     ",
        "                     ",
        "                     ",
        "                     ",
        "                     ",
        "                     ",
        "                     ",
        "                     ",
        "                     ",
        "                     ",
        "                     ",
        "                     ",
        "                     ",
        "                     ",
        "                     ",
        "                     ",
        "                     ",
        "                     ",
        "                     ",
        "                     ",
        "                     ",
        "#                    ",
        "#                    ",
        "##                   ",
        "##                   ",
        "###                  ",
        "###                  ",
        "####                 ",
        "####                 ",
        "#####                ",
        "#####                ",
        "######               ",
        "######               ",
        "#######              ",
        "#######              ",
        "########             ",
        "########             ",
        "#########            ",
        "#########            ",
        "##########           ",
        "##########           ",
        "###########          ",
    ]);
}

#[test]
fn solid_flipx() {
    let mut disp = FlipX::new(Mock::new());

    disp.fill_solid(
        &Rectangle {
            top_left: Point::new(1, 1),
            size: Size {
                width: 5,
                height: 10,
            },
        },
        BinaryColor::On,
    )
    .expect("fill failed");

    assert_eq!(
        disp.as_ref().0.affected_area(),
        EgRectangle {
            top_left: EgPoint::new(64 - 1 - 1 - 5, 1),
            size: EgSize {
                width: 5,
                height: 10
            }
        }
    );
}

#[test]
fn solid_flipy() {
    let mut disp = FlipY::new(Mock::new());

    disp.fill_solid(
        &Rectangle {
            top_left: Point::new(1, 1),
            size: Size {
                width: 5,
                height: 10,
            },
        },
        BinaryColor::On,
    )
    .expect("fill failed");

    assert_eq!(
        disp.as_ref().0.affected_area(),
        EgRectangle {
            top_left: EgPoint::new(1, 64 - 1 - 1 - 10),
            size: EgSize {
                width: 5,
                height: 10
            }
        }
    );
}

#[test]
fn solid_rot90() {
    let mut disp = Rotate90::new(Mock::new());

    disp.fill_solid(
        &Rectangle {
            top_left: Point::new(1, 1),
            size: Size {
                width: 5,
                height: 10,
            },
        },
        BinaryColor::On,
    )
    .expect("fill failed");

    assert_eq!(
        disp.as_ref().0.affected_area(),
        EgRectangle {
            top_left: EgPoint::new(64 - 1 - 1 - 10, 1),
            size: EgSize {
                width: 10,
                height: 5
            }
        }
    );
}

#[test]
fn solid_rot180() {
    let mut disp = Rotate180::new(Mock::new());

    disp.fill_solid(
        &Rectangle {
            top_left: Point::new(1, 1),
            size: Size {
                width: 5,
                height: 10,
            },
        },
        BinaryColor::On,
    )
    .expect("fill failed");

    assert_eq!(
        disp.as_ref().0.affected_area(),
        EgRectangle {
            top_left: EgPoint::new(64 - 1 - 1 - 5, 64 - 1 - 1 - 10),
            size: EgSize {
                width: 5,
                height: 10
            }
        }
    );
}

#[test]
fn solid_rot270() {
    let mut disp = Rotate270::new(Mock::new());

    disp.fill_solid(
        &Rectangle {
            top_left: Point::new(1, 1),
            size: Size {
                width: 5,
                height: 10,
            },
        },
        BinaryColor::On,
    )
    .expect("fill failed");

    assert_eq!(
        disp.as_ref().0.affected_area(),
        EgRectangle {
            top_left: EgPoint::new(1, 64 - 1 - 1 - 5),
            size: EgSize {
                width: 10,
                height: 5
            }
        }
    );
}

#[test]
fn rect_transpose() {
    let rect = Rectangle {
        top_left: Point::new(20, 10),
        size: Size::new(5, 100),
    };

    assert_eq!(lower_right(&rect), Point::new(25, 110));

    let rx = rect.transpose();

    assert_eq!(lower_right(&rx), Point::new(110, 25));
}
