use pong::collision::Vec2;
use pong::objects::{Ball, GameObject, Movement, Pong, Position, Speed};
use pong::scene::Drawable;

const PX: i64 = 1_000_000;
const HALF_SECOND: i64 = 500_000;

fn paddle_at(x: i64, y: i64) -> Pong {
    Pong::new(Position { x: x * PX, y: y * PX }, Speed { x: 0, y: 200 * PX }, 30, 150)
}

fn ball_at(x: i64, y: i64) -> Ball {
    Ball::new(Position { x: x * PX, y: y * PX }, 7)
}

#[test]
fn new_paddle_stands_still_with_no_points() {
    let p = paddle_at(20, 275);
    assert_eq!(p.score(), 0);
    assert_eq!(p.position(), Position { x: 20 * PX, y: 275 * PX });
    assert_eq!(p.width(), 30);
    assert_eq!(p.height(), 150);
    assert_eq!(p.speed(), Speed { x: 0, y: 200 * PX });
    assert_eq!(p.movement(), Movement { up: false, down: false });
    let b = p.bounding_box();
    assert_eq!(b.top_left(), Vec2 { x: 20 * PX, y: 275 * PX });
    assert_eq!(b.top_right(), Vec2 { x: 50 * PX, y: 275 * PX });
    assert_eq!(b.bottom_left(), Vec2 { x: 20 * PX, y: 425 * PX });
    assert_eq!(b.bottom_right(), Vec2 { x: 50 * PX, y: 425 * PX });
}

#[test]
fn move_position_overwrites_the_intent() {
    let mut p = paddle_at(20, 275);
    p.move_position(true, false);
    assert_eq!(p.movement(), Movement { up: true, down: false });
    p.move_position(false, true);
    assert_eq!(p.movement(), Movement { up: false, down: true });
    p.move_position(false, false);
    assert_eq!(p.movement(), Movement { up: false, down: false });
    assert_eq!(p.position(), Position { x: 20 * PX, y: 275 * PX });
}

#[test]
fn scored_adds_one_point() {
    let mut p = paddle_at(20, 275);
    assert!(p.can_score());
    p.scored();
    assert_eq!(p.score(), 1);
    p.scored();
    p.scored();
    assert_eq!(p.score(), 3);
    assert_eq!(p.position(), Position { x: 20 * PX, y: 275 * PX });
}

#[test]
fn paddle_without_intent_does_not_move() {
    let mut p = paddle_at(20, 275);
    p.update(HALF_SECOND, 1024, 700);
    assert_eq!(p, paddle_at(20, 275));
}

#[test]
fn paddle_moves_up_by_speed_times_time() {
    let mut p = paddle_at(20, 275);
    p.move_position(true, false);
    assert!(p.can_update(HALF_SECOND, 1024, 700));
    p.update(HALF_SECOND, 1024, 700);
    assert_eq!(p.position(), Position { x: 20 * PX, y: 175 * PX });
    assert_eq!(p.bounding_box().top_left(), Vec2 { x: 20 * PX, y: 175 * PX });
    assert_eq!(p.bounding_box().bottom_right(), Vec2 { x: 50 * PX, y: 325 * PX });
}

#[test]
fn paddle_moves_down_by_speed_times_time() {
    let mut p = paddle_at(20, 275);
    p.move_position(false, true);
    p.update(HALF_SECOND, 1024, 700);
    assert_eq!(p.position(), Position { x: 20 * PX, y: 375 * PX });
    assert_eq!(p.bounding_box().top_left(), Vec2 { x: 20 * PX, y: 375 * PX });
    assert_eq!(p.bounding_box().bottom_right(), Vec2 { x: 50 * PX, y: 525 * PX });
    // a sixtieth of a second: 200 * 16667 / 1000000 pixels
    p.update(16_667, 1024, 700);
    assert_eq!(p.position(), Position { x: 20 * PX, y: 375 * PX + 3_333_400 });
}

#[test]
fn paddle_at_the_top_with_up_intent_stays() {
    let mut p = paddle_at(20, 0);
    p.move_position(true, false);
    assert!(p.can_update(HALF_SECOND, 1024, 700));
    p.update(HALF_SECOND, 1024, 700);
    assert_eq!(p.position(), Position { x: 20 * PX, y: 0 });
    assert_eq!(p.bounding_box().top_left(), Vec2 { x: 20 * PX, y: 0 });
    assert_eq!(p.bounding_box().bottom_right(), Vec2 { x: 50 * PX, y: 150 * PX });
}

#[test]
fn paddle_does_not_make_a_step_that_would_cross_the_top() {
    let mut p = paddle_at(20, 1);
    p.move_position(true, false);
    assert!(p.can_update(HALF_SECOND, 1024, 700));
    p.update(HALF_SECOND, 1024, 700);
    assert_eq!(p, {
        let mut q = paddle_at(20, 1);
        q.move_position(true, false);
        q
    });
    assert_eq!(p.position(), Position { x: 20 * PX, y: PX });
    assert_eq!(p.bounding_box().top_left(), Vec2 { x: 20 * PX, y: PX });
    // one unit short of the step: still no move
    let mut q = Pong::new(
        Position { x: 20 * PX, y: 100 * PX - 1 },
        Speed { x: 0, y: 200 * PX },
        30,
        150,
    );
    q.move_position(true, false);
    q.update(HALF_SECOND, 1024, 700);
    assert_eq!(q.position(), Position { x: 20 * PX, y: 100 * PX - 1 });
    // a shorter tick fits
    q.update(HALF_SECOND - 1, 1024, 700);
    assert_eq!(q.position(), Position { x: 20 * PX, y: 100 * PX - 1 - 99_999_800 });
}

#[test]
fn paddle_makes_a_step_that_ends_exactly_at_the_top() {
    let mut p = paddle_at(20, 100);
    p.move_position(true, false);
    p.update(HALF_SECOND, 1024, 700);
    assert_eq!(p.position(), Position { x: 20 * PX, y: 0 });
    assert_eq!(p.bounding_box().top_left(), Vec2 { x: 20 * PX, y: 0 });
    assert_eq!(p.bounding_box().bottom_right(), Vec2 { x: 50 * PX, y: 150 * PX });
    // at the top it stays
    p.update(HALF_SECOND, 1024, 700);
    assert_eq!(p.position(), Position { x: 20 * PX, y: 0 });
}

#[test]
fn paddle_above_the_top_does_not_go_further_up() {
    let mut p = paddle_at(20, -99);
    p.move_position(true, false);
    p.update(HALF_SECOND, 1024, 700);
    assert_eq!(p.position(), Position { x: 20 * PX, y: -99 * PX });
}

#[test]
fn paddle_at_the_bottom_with_down_intent_stays() {
    let mut p = paddle_at(20, 550);
    p.move_position(false, true);
    p.update(HALF_SECOND, 1024, 700);
    assert_eq!(p.position(), Position { x: 20 * PX, y: 550 * PX });
}

#[test]
fn paddle_does_not_make_a_step_that_would_cross_the_bottom() {
    // bottom edge at 699: a step of 100 would end at 799
    let mut q = paddle_at(20, 549);
    q.move_position(false, true);
    assert!(q.can_update(HALF_SECOND, 1024, 700));
    q.update(HALF_SECOND, 1024, 700);
    assert_eq!(q.position(), Position { x: 20 * PX, y: 549 * PX });
    assert_eq!(q.bounding_box().bottom_right(), Vec2 { x: 50 * PX, y: 699 * PX });
    // a step of one pixel fits
    q.update(5_000, 1024, 700);
    assert_eq!(q.position(), Position { x: 20 * PX, y: 550 * PX });
    assert_eq!(q.bounding_box().bottom_right(), Vec2 { x: 50 * PX, y: 700 * PX });
}

#[test]
fn paddle_makes_a_step_that_ends_exactly_at_the_bottom() {
    let mut p = paddle_at(20, 450);
    p.move_position(false, true);
    p.update(HALF_SECOND, 1024, 700);
    assert_eq!(p.position(), Position { x: 20 * PX, y: 550 * PX });
    assert_eq!(p.bounding_box().bottom_left(), Vec2 { x: 20 * PX, y: 700 * PX });
}

#[test]
fn up_is_looked_at_before_down() {
    let mut p = paddle_at(20, 275);
    p.move_position(true, true);
    p.update(HALF_SECOND, 1024, 700);
    assert_eq!(p.position(), Position { x: 20 * PX, y: 175 * PX });
    let mut q = paddle_at(20, 0);
    q.move_position(true, true);
    q.update(HALF_SECOND, 1024, 700);
    assert_eq!(q.position(), Position { x: 20 * PX, y: 100 * PX });
    // going up, but the step would cross the top: it does not go down instead
    let mut r = paddle_at(20, 50);
    r.move_position(true, true);
    r.update(HALF_SECOND, 1024, 700);
    assert_eq!(r.position(), Position { x: 20 * PX, y: 50 * PX });
}

#[test]
fn paddle_going_backwards_in_time_moves_the_other_way() {
    let mut p = paddle_at(20, 275);
    p.move_position(true, false);
    p.update(-HALF_SECOND, 1024, 700);
    assert_eq!(p.position(), Position { x: 20 * PX, y: 375 * PX });
    p.move_position(false, true);
    p.update(-HALF_SECOND, 1024, 700);
    assert_eq!(p.position(), Position { x: 20 * PX, y: 275 * PX });
}

#[test]
fn paddle_update_ignores_the_screen_width() {
    let mut p = paddle_at(2000, 275);
    p.move_position(false, true);
    p.update(HALF_SECOND, 10, 700);
    assert_eq!(p.position(), Position { x: 2000 * PX, y: 375 * PX });
}

#[test]
fn paddle_can_update_tells_when_the_step_leaves_the_range() {
    let mut p = paddle_at(20, 275);
    assert!(p.can_update(i64::MAX, 1024, 700));
    assert!(p.can_update(i64::MIN, 1024, 700));
    p.move_position(false, true);
    // a step far beyond the bottom is not made, so nothing has to be stored
    assert!(p.can_update(i64::MAX, 1024, 700));
    // a step far upwards does not cross the bottom, and cannot be stored
    assert!(!p.can_update(i64::MIN, 1024, 700));
    assert!(p.can_update(HALF_SECOND, 1024, 700));
    p.move_position(true, false);
    assert!(p.can_update(i64::MAX, 1024, 700));
    assert!(!p.can_update(i64::MIN, 1024, 700));
    assert!(p.can_update(-HALF_SECOND, 1024, 700));
}

#[test]
fn paddle_reset_restores_position_and_clears_the_score() {
    let mut p = paddle_at(20, 275);
    p.move_position(false, true);
    p.update(HALF_SECOND, 1024, 700);
    p.update(16_667, 1024, 700);
    p.scored();
    p.scored();
    p.scored();
    p.reset();
    assert_eq!(p.position(), Position { x: 20 * PX, y: 275 * PX });
    assert_eq!(p.score(), 0);
    assert_eq!(p.bounding_box(), paddle_at(20, 275).bounding_box());
    // the intent and the speed stay
    assert_eq!(p.movement(), Movement { up: false, down: true });
    assert_eq!(p.speed(), Speed { x: 0, y: 200 * PX });
}

#[test]
fn paddle_reset_of_a_fresh_paddle_changes_nothing() {
    let mut p = paddle_at(20, 275);
    p.reset();
    assert_eq!(p, paddle_at(20, 275));
}

#[test]
fn paddle_renders_as_a_rectangle_and_stays_as_it_was() {
    let mut p = paddle_at(20, 275);
    p.move_position(true, false);
    let before = p;
    let shape = p.render();
    assert_eq!(
        shape,
        Drawable::Rectangle { x: 20 * PX, y: 275 * PX, width: 30 * PX, height: 150 * PX }
    );
    assert_eq!(p, before);
    assert_eq!(p.render(), shape);
    assert_eq!(p, before);
}

#[test]
fn new_ball_is_served_right_and_down() {
    let b = ball_at(512, 343);
    assert_eq!(b.position(), Position { x: 512 * PX, y: 343 * PX });
    assert_eq!(b.radius(), 7);
    assert_eq!(b.speed(), Speed { x: 500 * PX, y: 100 * PX });
    assert_eq!(b.bounding_box().top_left(), Vec2 { x: 512 * PX, y: 343 * PX });
    assert_eq!(b.bounding_box().top_right(), Vec2 { x: 526 * PX, y: 343 * PX });
    assert_eq!(b.bounding_box().bottom_left(), Vec2 { x: 512 * PX, y: 357 * PX });
    assert_eq!(b.bounding_box().bottom_right(), Vec2 { x: 526 * PX, y: 357 * PX });
}

#[test]
fn ball_moves_by_velocity_times_time() {
    let mut b = ball_at(512, 343);
    assert!(b.can_update(HALF_SECOND, 1024, 700));
    b.update(HALF_SECOND, 1024, 700);
    assert_eq!(b.position(), Position { x: 762 * PX, y: 393 * PX });
    assert_eq!(b.bounding_box().top_left(), Vec2 { x: 762 * PX, y: 393 * PX });
    assert_eq!(b.bounding_box().top_right(), Vec2 { x: 776 * PX, y: 393 * PX });
    assert_eq!(b.bounding_box().bottom_left(), Vec2 { x: 762 * PX, y: 407 * PX });
    assert_eq!(b.bounding_box().bottom_right(), Vec2 { x: 776 * PX, y: 407 * PX });
    assert_eq!(b.speed(), Speed { x: 500 * PX, y: 100 * PX });
    b.update(16_667, 1024, 700);
    assert_eq!(b.position(), Position { x: 762 * PX + 8_333_500, y: 393 * PX + 1_666_700 });
}

#[test]
fn ball_ignores_the_screen_size() {
    let mut b = ball_at(512, 343);
    b.update(2 * PX, 10, 10);
    assert_eq!(b.position(), Position { x: 1512 * PX, y: 543 * PX });
    let mut c = ball_at(512, 343);
    c.update(2 * PX, u32::MAX, 0);
    assert_eq!(c, b);
}

#[test]
fn ball_can_update_tells_when_the_step_leaves_the_range() {
    let b = ball_at(512, 343);
    assert!(b.can_update(0, 1024, 700));
    assert!(b.can_update(-HALF_SECOND, 1024, 700));
    assert!(!b.can_update(i64::MAX, 1024, 700));
    assert!(!b.can_update(i64::MIN, 1024, 700));
    // 500 pixels a second for 18_000_000_000 seconds is about 9.0e18 units
    assert!(b.can_update(18_000_000_000 * PX, 1024, 700));
    assert!(!b.can_update(19_000_000_000 * PX, 1024, 700));
}

#[test]
fn bounce_turns_the_vertical_velocity_only() {
    let mut b = ball_at(512, 343);
    b.bounce();
    assert_eq!(b.speed(), Speed { x: 500 * PX, y: -100 * PX });
    assert_eq!(b.position(), Position { x: 512 * PX, y: 343 * PX });
    b.bounce();
    assert_eq!(b.speed(), Speed { x: 500 * PX, y: 100 * PX });
}

#[test]
fn ball_level_with_the_paddle_centre_leaves_straight() {
    // paddle centre at y = 350, ball centre at y = 343 + 7
    let p = paddle_at(20, 275);
    let mut b = ball_at(40, 343);
    assert!(b.can_collide(&p));
    b.pong_collision(&p);
    assert_eq!(b.speed(), Speed { x: -501 * PX, y: 0 });
    assert_eq!(b.position(), Position { x: 40 * PX, y: 343 * PX });
    // the next hit turns it round again: -(-501) - 1
    b.pong_collision(&p);
    assert_eq!(b.speed(), Speed { x: 500 * PX, y: 0 });
}

#[test]
fn ball_off_centre_leaves_at_the_distance_between_the_centres() {
    let p = paddle_at(20, 275);
    let mut low = ball_at(40, 373);
    low.pong_collision(&p);
    assert_eq!(low.speed(), Speed { x: -501 * PX, y: 30 * PX });
    let mut high = ball_at(40, 300);
    high.pong_collision(&p);
    assert_eq!(high.speed(), Speed { x: -501 * PX, y: -43 * PX });
}

#[test]
fn pong_collision_leaves_the_paddle_alone() {
    let p = paddle_at(20, 275);
    let mut b = ball_at(40, 373);
    b.pong_collision(&p);
    assert_eq!(p, paddle_at(20, 275));
}

#[test]
fn ball_reset_restores_position_and_negates_the_velocity() {
    let p = paddle_at(20, 275);
    let mut b = ball_at(40, 373);
    b.pong_collision(&p);
    assert_eq!(b.speed(), Speed { x: -501 * PX, y: 30 * PX });
    b.update(HALF_SECOND, 1024, 700);
    assert_eq!(b.position(), Position { x: 40 * PX - 250_500_000, y: 388 * PX });
    b.reset();
    assert_eq!(b.position(), Position { x: 40 * PX, y: 373 * PX });
    assert_eq!(b.speed(), Speed { x: 501 * PX, y: -30 * PX });
    assert_eq!(b.bounding_box(), ball_at(40, 373).bounding_box());
    assert_eq!(b.radius(), 7);
}

#[test]
fn ball_reset_twice_gives_back_the_velocity() {
    let mut b = ball_at(512, 343);
    b.update(HALF_SECOND, 1024, 700);
    b.reset();
    assert_eq!(b.speed(), Speed { x: -500 * PX, y: -100 * PX });
    b.reset();
    assert_eq!(b, ball_at(512, 343));
}

#[test]
fn ball_renders_as_an_ellipse_and_stays_as_it_was() {
    let mut b = ball_at(512, 343);
    let before = b;
    let shape = b.render();
    assert_eq!(
        shape,
        Drawable::Ellipse { x: 512 * PX, y: 343 * PX, width: 14 * PX, height: 14 * PX }
    );
    assert_eq!(b, before);
    assert_eq!(b.render(), shape);
    assert_eq!(b, before);
}

#[test]
fn objects_can_sit_at_the_ends_of_the_range() {
    let p = Pong::new(
        Position { x: -i64::MAX, y: i64::MAX - 150 * PX },
        Speed { x: i64::MAX, y: -i64::MAX },
        30,
        150,
    );
    assert_eq!(p.bounding_box().bottom_left(), Vec2 { x: -i64::MAX, y: i64::MAX });
    let mut b = Ball::new(Position { x: i64::MAX - 14 * PX, y: -i64::MAX }, 7);
    assert_eq!(b.bounding_box().top_right(), Vec2 { x: i64::MAX, y: -i64::MAX });
    assert!(!b.can_update(-1, 1024, 700));
    assert!(b.can_update(0, 1024, 700));
    b.update(0, 1024, 700);
    assert_eq!(b.position(), Position { x: i64::MAX - 14 * PX, y: -i64::MAX });
}
