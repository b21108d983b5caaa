use asteroids::display_controller::{Direction, DisplayController, DisplayControllerError};
use asteroids::element::{Color, Element, DEFAULT_BACKGROUND, DEFAULT_FOREGROUND};
use asteroids::layout::Layout;
use asteroids::point::Point;
use asteroids::bullet::Bullet;

fn blank() -> Element {
    Element::default()
}

fn border() -> Element {
    Element::new('x', Color::Blue, Color::Green)
}

fn cell(frame: &[Element], columns: usize, x: usize, y: usize) -> Element {
    frame[y * columns + x]
}

#[test]
fn point_add_then_sub_gives_back_the_point() {
    let a = Point::new(3, -7);
    let b = Point::new(10, 4);
    assert_eq!(a.add(b).sub(b), a);
    let c = Point::new(-100, 0);
    assert_eq!(c.add(a).sub(a), c);
}

#[test]
fn point_div_and_axis_moves() {
    assert_eq!(Point::new(11, 9).div(Point::new(2, 2)), Point::new(5, 4));
    assert_eq!(Point::new(1, 2).add_width(3), Point::new(4, 2));
    assert_eq!(Point::new(1, 2).add_height(-3), Point::new(1, -1));
}

#[test]
fn default_element_is_blank() {
    let e = Element::default();
    assert_eq!(e.value, ' ');
    assert_eq!(e.foreground, DEFAULT_FOREGROUND);
    assert_eq!(e.background, DEFAULT_BACKGROUND);
}

#[test]
fn offset_centres_the_play_area() {
    let c = DisplayController::new(&Point::new(30, 20), 41, 30).unwrap();
    assert_eq!(c.offset(), Point::new(5, 5));
    assert_eq!(c.screen_size(), Point::new(41, 30));
    assert_eq!(c.dimensions(), Point::new(30, 20));
    let same = DisplayController::new(&Point::new(12, 7), 12, 7).unwrap();
    assert_eq!(same.offset(), Point::new(0, 0));
}

#[test]
fn scenario_forty_by_forty_terminal_with_thirty_by_thirty_area() {
    let mut c = DisplayController::new(&Point::new(30, 30), 40, 40).unwrap();
    assert_eq!(c.offset(), Point::new(5, 5));
    c.reset();
    let star = Element::new('*', Color::Red, Color::Black);
    assert_eq!(c.draw_item(star, &Point::new(29, 29)), Ok(()));
    let frame = c.print_display();
    assert_eq!(frame.len(), 1600);
    assert_eq!(cell(&frame, 40, 34, 34), star);
    assert_eq!(frame.iter().filter(|e| **e == star).count(), 1);
    assert_eq!(c.draw_item(star, &Point::new(30, 0)), Err(DisplayControllerError::PositionOutOfRange));
}

#[test]
fn scenario_play_area_larger_than_terminal() {
    let r = DisplayController::new(&Point::new(50, 50), 40, 40);
    assert!(matches!(r, Err(DisplayControllerError::DisplayTooSmallForDimensions)));
    let wide = DisplayController::new(&Point::new(41, 10), 40, 40);
    assert!(matches!(wide, Err(DisplayControllerError::DisplayTooSmallForDimensions)));
    let tall = DisplayController::new(&Point::new(10, 41), 40, 40);
    assert!(matches!(tall, Err(DisplayControllerError::DisplayTooSmallForDimensions)));
}

#[test]
fn play_area_with_one_zero_side_has_no_room_for_its_border() {
    let r = DisplayController::new(&Point::new(5, 0), 40, 40);
    assert!(matches!(r, Err(DisplayControllerError::PositionOutOfRange)));
    assert!(DisplayController::new(&Point::new(0, 0), 40, 40).is_ok());
}

#[test]
fn new_draws_the_play_area_border() {
    let c = DisplayController::new(&Point::new(4, 3), 8, 5).unwrap();
    assert_eq!(c.offset(), Point::new(2, 1));
    let frame = c.print_display();
    for y in 0..5usize {
        for x in 0..8usize {
            let inside = (2..6).contains(&x) && (1..4).contains(&y);
            let on_border = inside && (x == 2 || x == 5 || y == 1 || y == 3);
            let expected = if on_border { border() } else { blank() };
            assert_eq!(cell(&frame, 8, x, y), expected, "cell ({}, {})", x, y);
        }
    }
}

#[test]
fn draw_item_checks_bounds_in_play_area_coordinates() {
    let mut c = DisplayController::new(&Point::new(3, 2), 9, 6).unwrap();
    c.reset();
    let e = Element::new('o', Color::Yellow, Color::Black);
    for y in 0..2 {
        for x in 0..3 {
            assert_eq!(c.draw_item(e, &Point::new(x, y)), Ok(()));
        }
    }
    assert_eq!(c.draw_item(e, &Point::new(3, 0)), Err(DisplayControllerError::PositionOutOfRange));
    assert_eq!(c.draw_item(e, &Point::new(0, 2)), Err(DisplayControllerError::PositionOutOfRange));
    assert_eq!(c.draw_item(e, &Point::new(-1, 0)), Err(DisplayControllerError::PositionOutOfRange));
    let frame = c.print_display();
    assert_eq!(frame.iter().filter(|x| **x == e).count(), 6);
    assert_eq!(cell(&frame, 9, 3, 2), e);
    assert_eq!(cell(&frame, 9, 5, 3), e);
}

#[test]
fn reset_then_print_shows_only_blank_cells() {
    let mut c = DisplayController::new(&Point::new(10, 10), 20, 12).unwrap();
    assert!(c.print_display().iter().any(|e| *e != blank()));
    c.reset();
    let frame = c.print_display();
    assert_eq!(frame.len(), 240);
    assert!(frame.iter().all(|e| *e == blank()));
    c.reset();
    assert!(c.print_display().iter().all(|e| *e == blank()));
}

#[test]
fn rectangle_at_origin_covers_exactly_its_border() {
    let mut c = DisplayController::new(&Point::new(10, 10), 10, 10).unwrap();
    c.reset();
    let e = Element::new('#', Color::White, Color::Black);
    assert_eq!(c.draw_rect(&Point::new(0, 0), &Point::new(4, 3), e), Ok(()));
    let frame = c.print_display();
    for y in 0..10usize {
        for x in 0..10usize {
            let border = x < 4 && y < 3 && (x == 0 || x == 3 || y == 0 || y == 2);
            let expected = if border { e } else { blank() };
            assert_eq!(cell(&frame, 10, x, y), expected, "cell ({}, {})", x, y);
        }
    }
}

#[test]
fn rectangle_leaving_the_area_fails_after_drawing_what_fits() {
    let mut c = DisplayController::new(&Point::new(5, 5), 5, 5).unwrap();
    c.reset();
    let e = Element::new('#', Color::White, Color::Black);
    let r = c.draw_rect(&Point::new(3, 1), &Point::new(3, 2), e);
    assert_eq!(r, Err(DisplayControllerError::PositionOutOfRange));
    let frame = c.print_display();
    assert_eq!(cell(&frame, 5, 3, 1), e);
    assert_eq!(cell(&frame, 5, 4, 1), e);
    assert_eq!(frame.iter().filter(|x| **x == e).count(), 2);
}

#[test]
fn line_stops_at_the_first_cell_outside() {
    let mut c = DisplayController::new(&Point::new(5, 4), 5, 4).unwrap();
    c.reset();
    let e = Element::new('-', Color::White, Color::Black);
    assert_eq!(c.draw_line(e, 4, &Point::new(2, 1), Direction::Horizontal), Err(DisplayControllerError::PositionOutOfRange));
    let frame = c.print_display();
    assert_eq!(cell(&frame, 5, 2, 1), e);
    assert_eq!(cell(&frame, 5, 4, 1), e);
    assert_eq!(frame.iter().filter(|x| **x == e).count(), 3);
    assert_eq!(c.draw_line(e, 4, &Point::new(0, 0), Direction::Vertical), Ok(()));
    let frame = c.print_display();
    assert_eq!(cell(&frame, 5, 0, 3), e);
    assert_eq!(frame.iter().filter(|x| **x == e).count(), 7);
    assert_eq!(c.draw_line(e, 0, &Point::new(-3, 9), Direction::Vertical), Ok(()));
    assert_eq!(c.draw_line(e, 2, &Point::new(-1, 0), Direction::Horizontal), Err(DisplayControllerError::PositionOutOfRange));
    assert_eq!(c.print_display().iter().filter(|x| **x == e).count(), 7);
}

#[test]
fn drawable_is_blitted_skipping_empty_cells_and_clipping() {
    let mut c = DisplayController::new(&Point::new(6, 4), 8, 4).unwrap();
    c.reset();
    let under = Element::new('.', Color::Grey, Color::Black);
    c.draw_item(under, &Point::new(1, 0)).unwrap();
    let mut bullet = Bullet::new(Point::new(0, 0));
    let layout = Layout::from_ascii(&vec!["a b", "cd"], Color::Red, Color::Black);
    bullet.drawable.layout = layout;
    bullet.drawable.location = Point::new(0, 0);
    c.draw_drawable(&bullet);
    let frame = c.print_display();
    let glyph = |ch: char| Element::new(ch, Color::Red, Color::Black);
    assert_eq!(cell(&frame, 8, 1, 0), glyph('a'));
    assert_eq!(cell(&frame, 8, 2, 0), under);
    assert_eq!(cell(&frame, 8, 3, 0), glyph('b'));
    assert_eq!(cell(&frame, 8, 1, 1), glyph('c'));
    assert_eq!(cell(&frame, 8, 2, 1), glyph('d'));
    assert_eq!(cell(&frame, 8, 3, 1), blank());

    bullet.drawable.location = Point::new(5, 3);
    c.draw_drawable(&bullet);
    let frame = c.print_display();
    assert_eq!(cell(&frame, 8, 6, 3), glyph('a'));
    assert_eq!(cell(&frame, 8, 7, 3), blank());
}
