use asteroids::asteroid::Asteroid;
use asteroids::borders::Borders;
use asteroids::bullet::Bullet;
use asteroids::drawable::{Drawable, DrawableState, DrawableType, Spawnable};
use asteroids::element::{Color, Element, DEFAULT_BACKGROUND, DEFAULT_FOREGROUND};
use asteroids::game_state::InputEvent;
use asteroids::layout::Layout;
use asteroids::player::{Player, HEIGHT_MAX_VELOCITY, WIDTH_MAX_VELOCITY};
use asteroids::point::Point;

#[test]
fn spawned_bullets_come_out_in_spawn_order() {
    let mut pool: Spawnable<Bullet> = Spawnable::new();
    pool.spawn(Bullet::new(Point::new(1, 1)));
    pool.spawn(Bullet::new(Point::new(2, 2)));
    let locations: Vec<Point> = pool.items().iter().map(|b| b.drawable.location).collect();
    assert_eq!(locations, vec![Point::new(1, 1), Point::new(2, 2)]);
    assert_eq!(pool.len(), 2);
    let first = pool.retire(0);
    assert_eq!(first.drawable.location, Point::new(1, 1));
    assert_eq!(pool.items()[0].drawable.location, Point::new(2, 2));
    let empty: Spawnable<u8> = Default::default();
    assert_eq!(empty.len(), 0);
}

#[test]
fn player_moves_up_one_row_per_tick() {
    let mut player = Player::new();
    let before = player.drawable.location;
    player.handle_event(&InputEvent::Up);
    player.drawable.advance();
    assert_eq!(player.drawable.location.height, before.height - HEIGHT_MAX_VELOCITY);
    assert_eq!(player.drawable.location.height, 4);
    assert_eq!(player.drawable.location.width, before.width);
}

#[test]
fn player_directions_set_velocity_last_one_wins() {
    let mut player = Player::new();
    player.handle_event(&InputEvent::Left);
    assert_eq!(player.drawable.velocity, Point::new(-WIDTH_MAX_VELOCITY, 0));
    player.handle_event(&InputEvent::Down);
    assert_eq!(player.drawable.velocity, Point::new(0, 1));
    player.right();
    assert_eq!(player.drawable.velocity, Point::new(2, 0));
    player.handle_event(&InputEvent::Other);
    assert_eq!(player.drawable.velocity, Point::new(2, 0));
    player.drawable.advance();
    assert_eq!(player.drawable.location, Point::new(7, 5));
    assert_eq!(player.bullets.len(), 0);
}

#[test]
fn player_fires_one_bullet_below_its_middle() {
    let mut player = Player::new();
    assert_eq!(player.drawable.layout.dimensions, Point::new(5, 3));
    let location = player.drawable.location;
    let width = player.drawable.layout.dimensions.width;
    player.handle_event(&InputEvent::Enter);
    assert_eq!(player.bullets.len(), 1);
    let expected = Point::new(location.width + width / 2 - 1, location.height + 1);
    assert_eq!(player.bullets.items()[0].drawable.location, expected);
    assert_eq!(expected, Point::new(6, 6));
    player.additional_event_logic(&InputEvent::Other);
    assert_eq!(player.bullets.len(), 1);
}

#[test]
fn new_player_stands_at_five_five() {
    let player = Player::new();
    assert_eq!(player.get_drawable_state().location, Point::new(5, 5));
    assert_eq!(player.drawable.velocity, Point::new(0, 0));
    assert_eq!(player.drawable.kind, DrawableType::Player);
    assert_eq!(player.drawable.layout.cells[0][2], Some(Element::new('^', Color::Cyan, DEFAULT_BACKGROUND)));
    assert_eq!(player.drawable.layout.cells[0][0], None);
}

#[test]
fn set_position_moves_only_the_location() {
    let mut asteroid = Asteroid::new(Point::new(3, -2));
    asteroid.set_position(Point::new(8, 9));
    assert_eq!(asteroid.drawable.location, Point::new(8, 9));
    assert_eq!(asteroid.drawable.velocity, Point::new(0, 3));
    let mut player = Player::new();
    player.set_position(Point::new(1, 2));
    assert_eq!(player.get_drawable_state().location, Point::new(1, 2));
}

#[test]
fn asteroid_falls_three_rows_per_tick() {
    let mut asteroid = Asteroid::new(Point::new(3, -2));
    assert_eq!(asteroid.health, 1);
    assert_eq!(asteroid.drawable.kind, DrawableType::Enemy);
    assert_eq!(asteroid.drawable.layout.dimensions, Point::new(5, 3));
    asteroid.drawable.advance();
    assert_eq!(asteroid.drawable.location, Point::new(3, 1));
}

#[test]
fn bullet_is_one_arrow_cell() {
    let mut bullet = Bullet::new(Point::new(4, 7));
    assert_eq!(bullet.drawable.layout.dimensions, Point::new(1, 1));
    assert_eq!(bullet.drawable.layout.cells, vec![vec![Some(Element::new('^', DEFAULT_BACKGROUND, DEFAULT_FOREGROUND))]]);
    assert_eq!(bullet.drawable.velocity, Point::new(0, 0));
    bullet.set_position(Point::new(0, 1));
    assert_eq!(bullet.get_drawable_state().location, Point::new(0, 1));
}

#[test]
fn layout_from_ascii_pads_short_rows() {
    let layout = Layout::from_ascii(&vec![" /\\", "<>", ""], Color::Green, Color::Black);
    assert_eq!(layout.dimensions, Point::new(3, 3));
    let g = |c: char| Some(Element::new(c, Color::Green, Color::Black));
    assert_eq!(layout.cells[0], vec![None, g('/'), g('\\')]);
    assert_eq!(layout.cells[1], vec![g('<'), g('>'), None]);
    assert_eq!(layout.cells[2], vec![None, None, None]);
    let empty = Layout::from_ascii(&vec![], Color::Green, Color::Black);
    assert_eq!(empty.dimensions, Point::new(0, 0));
}

#[test]
fn layout_fill_and_outline() {
    let e = Element::new('#', Color::Magenta, Color::Black);
    let filled = Layout::new(&Point::new(2, 3), Some(e));
    assert_eq!(filled.cells, vec![vec![Some(e); 2]; 3]);
    let outline = Layout::outline(&Point::new(3, 3), e);
    assert_eq!(outline.cells[1], vec![Some(e), None, Some(e)]);
    assert_eq!(outline.cells[0], vec![Some(e); 3]);
}

#[test]
fn borders_outline_the_play_area() {
    let borders = Borders::new(&Point::new(4, 3));
    let b = Some(Element::new('x', Color::Blue, Color::Green));
    assert_eq!(borders.drawable.kind, DrawableType::Border);
    assert_eq!(borders.get_drawable_state().location, Point::new(0, 0));
    assert_eq!(borders.drawable.layout.cells[1], vec![b, None, None, b]);
}

#[test]
fn drawable_state_defaults_to_standing_still() {
    let layout = Layout::new(&Point::new(1, 1), None);
    let s = DrawableState::new(layout, Point::new(2, 3), DrawableType::Projectile, None);
    assert_eq!(s.velocity, Point::new(0, 0));
    let layout = Layout::new(&Point::new(1, 1), None);
    let mut m = DrawableState::new(layout, Point::new(2, 3), DrawableType::Enemy, Some(Point::new(-1, 4)));
    m.advance();
    assert_eq!(m.location, Point::new(1, 7));
}

#[test]
fn asteroid_sprite_cells_follow_its_ascii_art() {
    let asteroid = Asteroid::new(Point::new(0, 0));
    let g = |c: char| Some(Element::new(c, Color::Grey, DEFAULT_BACKGROUND));
    assert_eq!(asteroid.drawable.layout.cells[0], vec![None, g('_'), g('_'), g('_'), None]);
    assert_eq!(asteroid.drawable.layout.cells[1], vec![g('/'), None, g('o'), None, g('\\')]);
    assert_eq!(asteroid.drawable.layout.cells[2], vec![g('\\'), g('_'), g('_'), g('_'), g('/')]);
}

#[test]
fn set_position_keeps_health_and_bullets() {
    let mut asteroid = Asteroid::new(Point::new(0, 0));
    asteroid.health = 4;
    asteroid.set_position(Point::new(2, 2));
    assert_eq!(asteroid.health, 4);
    let mut player = Player::new();
    player.handle_event(&InputEvent::Enter);
    player.set_position(Point::new(9, 9));
    assert_eq!(player.bullets.len(), 1);
    assert_eq!(player.bullets.items()[0].drawable.location, Point::new(6, 6));
}
