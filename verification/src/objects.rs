//! The things on the court: the two paddles and the ball.

use vstd::prelude::*;
use crate::collision::{BoundingBox, Point, Rect, Vec2};
use crate::scene::{Drawable, Figure};
use crate::units::{fits, from_pixels, in_range, pixels, travel, travel_wide, travelled};

verus! {

/// The speed at which a new ball flies to the right, in pixels per second.
pub const SERVE_SPEED_X: u32 = 500;

/// The speed at which a new ball flies down, in pixels per second.
pub const SERVE_SPEED_Y: u32 = 100;

/// What a hit on a paddle takes off the turned horizontal velocity, in
/// pixels per second.
pub const HIT_SPEED_UP: u32 = 1;

/// A velocity, in length units per second along each axis.
#[derive(Clone, Copy, PartialEq, Eq, Structural, Debug)]
pub struct Speed {
    pub x: i64,
    pub y: i64,
}

impl View for Speed {
    type V = Point;

    open spec fn view(&self) -> Point {
        Point { x: self.x as int, y: self.y as int }
    }
}

/// The top-left corner of an object, in length units.
#[derive(Clone, Copy, PartialEq, Eq, Structural, Debug)]
pub struct Position {
    pub x: i64,
    pub y: i64,
}

impl View for Position {
    type V = Point;

    open spec fn view(&self) -> Point {
        Point { x: self.x as int, y: self.y as int }
    }
}

/// The direction a paddle has been asked to move in.
#[derive(Clone, Copy, PartialEq, Eq, Structural, Debug)]
pub struct Movement {
    pub up: bool,
    pub down: bool,
}

/// A paddle in exact integers. Width and height are in whole pixels;
/// positions and the velocity are in length units.
pub struct PaddleModel {
    pub score: nat,
    pub position: Point,
    pub width: nat,
    pub height: nat,
    pub velocity: Point,
    pub intent: Movement,
    pub home: Point,
}

impl PaddleModel {
    /// The rectangle the paddle covers.
    pub open spec fn bounds(self) -> Rect {
        Rect {
            left: self.position.x,
            top: self.position.y,
            width: pixels(self.width as int),
            height: pixels(self.height as int),
        }
    }

    /// The rectangle the paddle covers when it stands where it started.
    pub open spec fn home_bounds(self) -> Rect {
        self.bounds().moved_to(self.home.x, self.home.y)
    }

    /// What the paddle looks like on screen.
    pub open spec fn figure(self) -> Figure {
        Figure::Rectangle {
            x: self.position.x,
            y: self.position.y,
            width: pixels(self.width as int),
            height: pixels(self.height as int),
        }
    }

    /// The paddle with its intent replaced.
    pub open spec fn steered(self, up: bool, down: bool) -> PaddleModel {
        PaddleModel { intent: Movement { up, down }, ..self }
    }

    /// The paddle with one more point.
    pub open spec fn rewarded(self) -> PaddleModel {
        PaddleModel { score: self.score + 1, ..self }
    }

    /// Whether the paddle is to go up in this tick: it has been asked to and
    /// its top edge is below the top of the screen.
    pub open spec fn heads_up(self) -> bool {
        self.position.y > 0 && self.intent.up
    }

    /// Whether the paddle is to go down in this tick: it is not to go up, it
    /// has been asked to go down, and its bottom edge is above the bottom of
    /// a screen `screen_height` pixels high.
    pub open spec fn heads_down(self, screen_height: int) -> bool {
        !self.heads_up() && self.bounds().bottom() < pixels(screen_height) && self.intent.down
    }

    /// How far down the paddle moves in a tick of length `dt` on a screen
    /// `screen_height` pixels high. Going up or going down it moves by what
    /// its speed covers in the tick, unless that would carry its top edge
    /// above the top of the screen, or its bottom edge below the bottom:
    /// then it does not move in this tick, however near the edge it is.
    pub open spec fn drift(self, dt: int, screen_height: int) -> int {
        let step = travelled(self.velocity.y, dt);
        if self.heads_up() {
            if self.bounds().top - step >= 0 {
                -step
            } else {
                0
            }
        } else if self.heads_down(screen_height) {
            if self.bounds().bottom() + step <= pixels(screen_height) {
                step
            } else {
                0
            }
        } else {
            0
        }
    }

    /// The paddle after a tick of length `dt`.
    pub open spec fn advanced(self, dt: int, screen_height: int) -> PaddleModel {
        PaddleModel {
            position: Point {
                x: self.position.x,
                y: self.position.y + self.drift(dt, screen_height),
            },
            ..self
        }
    }

    /// The paddle back where it started, with no points.
    pub open spec fn restored(self) -> PaddleModel {
        PaddleModel { position: self.home, score: 0, ..self }
    }

    /// Whether every number of the paddle can be stored.
    pub open spec fn representable(self) -> bool {
        &&& self.score <= u32::MAX
        &&& self.width <= u32::MAX
        &&& self.height <= u32::MAX
        &&& self.bounds().representable()
        &&& self.home_bounds().representable()
        &&& in_range(self.velocity.x)
        &&& in_range(self.velocity.y)
    }

    /// Whether the tick can be computed: the distance moved and the paddle
    /// after the tick can be stored.
    pub open spec fn can_advance(self, dt: int, screen_height: int) -> bool {
        &&& in_range(self.drift(dt, screen_height))
        &&& self.advanced(dt, screen_height).representable()
    }
}

/// The ball in exact integers. The radius is in whole pixels; positions and
/// the velocity are in length units. A positive horizontal velocity carries
/// the ball to the right, a positive vertical velocity carries it down.
pub struct BallModel {
    pub position: Point,
    pub radius: nat,
    pub velocity: Point,
    pub home: Point,
}

impl BallModel {
    /// The width and height of the ball in length units.
    pub open spec fn diameter(self) -> int {
        2 * pixels(self.radius as int)
    }

    /// The square around the ball.
    pub open spec fn bounds(self) -> Rect {
        Rect {
            left: self.position.x,
            top: self.position.y,
            width: self.diameter(),
            height: self.diameter(),
        }
    }

    /// The square around the ball when it lies where it started.
    pub open spec fn home_bounds(self) -> Rect {
        self.bounds().moved_to(self.home.x, self.home.y)
    }

    /// What the ball looks like on screen.
    pub open spec fn figure(self) -> Figure {
        Figure::Ellipse {
            x: self.position.x,
            y: self.position.y,
            width: self.diameter(),
            height: self.diameter(),
        }
    }

    /// The velocity of the ball after it has hit a paddle that covers
    /// `paddle`: the horizontal part changes its sign and then loses one
    /// pixel per second, the vertical part becomes the distance from the
    /// paddle's centre down to the ball's centre.
    pub open spec fn deflection(self, paddle: Rect) -> Point {
        Point {
            x: -self.velocity.x - pixels(HIT_SPEED_UP as int),
            y: self.bounds().center_y() - paddle.center_y(),
        }
    }

    /// The ball after it has hit a paddle that covers `paddle`.
    pub open spec fn deflected(self, paddle: Rect) -> BallModel {
        BallModel { velocity: self.deflection(paddle), ..self }
    }

    /// Whether the velocity after hitting the paddle can be stored.
    pub open spec fn can_deflect(self, paddle: Rect) -> bool {
        &&& in_range(self.deflection(paddle).x)
        &&& in_range(self.deflection(paddle).y)
    }

    /// The ball after it has hit the top or the bottom wall.
    pub open spec fn bounced(self) -> BallModel {
        BallModel { velocity: Point { x: self.velocity.x, y: -self.velocity.y }, ..self }
    }

    /// The ball after a tick of length `dt`.
    pub open spec fn advanced(self, dt: int) -> BallModel {
        BallModel {
            position: Point {
                x: self.position.x + travelled(self.velocity.x, dt),
                y: self.position.y + travelled(self.velocity.y, dt),
            },
            ..self
        }
    }

    /// The ball back where it started, flying the opposite way.
    pub open spec fn restored(self) -> BallModel {
        BallModel {
            position: self.home,
            velocity: Point { x: -self.velocity.x, y: -self.velocity.y },
            ..self
        }
    }

    /// Whether every number of the ball can be stored.
    pub open spec fn representable(self) -> bool {
        &&& self.radius <= u32::MAX
        &&& self.bounds().representable()
        &&& self.home_bounds().representable()
        &&& in_range(self.velocity.x)
        &&& in_range(self.velocity.y)
    }

    /// Whether the tick can be computed: the distances moved and the ball
    /// after the tick can be stored.
    pub open spec fn can_advance(self, dt: int) -> bool {
        &&& in_range(travelled(self.velocity.x, dt))
        &&& in_range(travelled(self.velocity.y, dt))
        &&& self.advanced(dt).representable()
    }
}

/// What the paddles and the ball have in common: each can be drawn, moved on
/// by a tick, and put back where it started.
pub trait GameObject: View + Sized {
    /// The object's fields agree with each other and hold storable numbers.
    spec fn wf(&self) -> bool;

    /// What the object looks like on screen.
    spec fn figure(model: Self::V) -> Figure;

    /// The object after a tick of length `dt` on a screen of the given size
    /// in pixels.
    spec fn advanced(model: Self::V, dt: int, screen_width: int, screen_height: int) -> Self::V;

    /// Whether the tick can be computed within the range of stored numbers.
    spec fn can_advance(model: Self::V, dt: int, screen_width: int, screen_height: int) -> bool;

    /// The object back where it started.
    spec fn restored(model: Self::V) -> Self::V;

    /// The figure to draw for the object. Drawing changes nothing.
    fn render(&mut self) -> (shape: Drawable)
        requires
            old(self).wf(),
        ensures
            *final(self) == *old(self),
            shape@ == Self::figure(old(self)@),
    ;

    /// Whether `update` may be called with these arguments.
    fn can_update(&self, dt: i64, screen_width: u32, screen_height: u32) -> (ok: bool)
        requires
            self.wf(),
        ensures
            ok == Self::can_advance(self@, dt as int, screen_width as int, screen_height as int),
    ;

    /// Moves the object on by a tick of length `dt`.
    fn update(&mut self, dt: i64, screen_width: u32, screen_height: u32)
        requires
            old(self).wf(),
            Self::can_advance(old(self)@, dt as int, screen_width as int, screen_height as int),
        ensures
            final(self).wf(),
            final(self)@ == Self::advanced(
                old(self)@,
                dt as int,
                screen_width as int,
                screen_height as int,
            ),
    ;

    /// Puts the object back where it started.
    fn reset(&mut self)
        requires
            old(self).wf(),
        ensures
            final(self).wf(),
            final(self)@ == Self::restored(old(self)@),
    ;
}

/// A paddle.
#[derive(Clone, Copy, PartialEq, Eq, Structural, Debug)]
pub struct Pong {
    score: u32,
    position: Position,
    width: u32,
    height: u32,
    bounding_box: BoundingBox,
    speed: Speed,
    movement: Movement,
    initial_position: Position,
}

impl View for Pong {
    type V = PaddleModel;

    closed spec fn view(&self) -> PaddleModel {
        PaddleModel {
            score: self.score as nat,
            position: self.position@,
            width: self.width as nat,
            height: self.height as nat,
            velocity: self.speed@,
            intent: self.movement,
            home: self.initial_position@,
        }
    }
}

impl Pong {
    /// The bounding box is the rectangle that position, width and height
    /// describe.
    pub closed spec fn consistent(&self) -> bool {
        &&& self.bounding_box.is_rectangle()
        &&& self.bounding_box@ == self@.bounds()
    }

    /// A paddle at `position` that moves at `speed`, with no points and no
    /// intent to move.
    pub fn new(position: Position, speed: Speed, width: u32, height: u32) -> (pong: Pong)
        requires
            in_range(position.x as int),
            in_range(position.y as int),
            in_range(position.x + pixels(width as int)),
            in_range(position.y + pixels(height as int)),
            in_range(speed.x as int),
            in_range(speed.y as int),
        ensures
            pong.wf(),
            pong@ == (PaddleModel {
                score: 0,
                position: position@,
                width: width as nat,
                height: height as nat,
                velocity: speed@,
                intent: Movement { up: false, down: false },
                home: position@,
            }),
    {
        Pong {
            score: 0,
            position: position,
            initial_position: position,
            width: width,
            height: height,
            speed: speed,
            movement: Movement { up: false, down: false },
            bounding_box: BoundingBox::new(
                Vec2 { x: position.x, y: position.y },
                from_pixels(width),
                from_pixels(height),
            ),
        }
    }

    /// Records which way the paddle is to move from the next tick on.
    pub fn move_position(&mut self, up: bool, down: bool)
        requires
            old(self).wf(),
        ensures
            final(self).wf(),
            final(self)@ == old(self)@.steered(up, down),
    {
        self.movement.up = up;
        self.movement.down = down;
    }

    /// Whether the paddle can take one more point.
    pub fn can_score(&self) -> (ok: bool)
        requires
            self.wf(),
        ensures
            ok == self@.rewarded().representable(),
    {
        self.score < u32::MAX
    }

    /// Gives the paddle a point.
    pub fn scored(&mut self)
        requires
            old(self).wf(),
            old(self)@.rewarded().representable(),
        ensures
            final(self).wf(),
            final(self)@ == old(self)@.rewarded(),
    {
        self.score += 1;
    }

    /// The points the paddle has.
    pub fn score(&self) -> (score: u32)
        ensures
            score == self@.score,
    {
        self.score
    }

    /// The top-left corner of the paddle.
    pub fn position(&self) -> (position: Position)
        ensures
            position@ == self@.position,
    {
        self.position
    }

    /// The width of the paddle in pixels.
    pub fn width(&self) -> (width: u32)
        ensures
            width == self@.width,
    {
        self.width
    }

    /// The height of the paddle in pixels.
    pub fn height(&self) -> (height: u32)
        ensures
            height == self@.height,
    {
        self.height
    }

    /// The rectangle the paddle covers.
    pub fn bounding_box(&self) -> (bounding_box: BoundingBox)
        requires
            self.wf(),
        ensures
            bounding_box.wf(),
            bounding_box@ == self@.bounds(),
    {
        self.bounding_box
    }

    /// The velocity at which the paddle moves when it moves down.
    pub fn speed(&self) -> (speed: Speed)
        ensures
            speed@ == self@.velocity,
    {
        self.speed
    }

    /// The direction the paddle has been asked to move in.
    pub fn movement(&self) -> (movement: Movement)
        ensures
            movement == self@.intent,
    {
        self.movement
    }
}

impl GameObject for Pong {
    open spec fn wf(&self) -> bool {
        &&& self.consistent()
        &&& self@.representable()
    }

    open spec fn figure(model: PaddleModel) -> Figure {
        model.figure()
    }

    open spec fn advanced(
        model: PaddleModel,
        dt: int,
        screen_width: int,
        screen_height: int,
    ) -> PaddleModel {
        model.advanced(dt, screen_height)
    }

    open spec fn can_advance(
        model: PaddleModel,
        dt: int,
        screen_width: int,
        screen_height: int,
    ) -> bool {
        model.can_advance(dt, screen_height)
    }

    open spec fn restored(model: PaddleModel) -> PaddleModel {
        model.restored()
    }

    fn render(&mut self) -> (shape: Drawable) {
        Drawable::Rectangle {
            x: self.position.x,
            y: self.position.y,
            width: from_pixels(self.width),
            height: from_pixels(self.height),
        }
    }

    fn can_update(&self, dt: i64, screen_width: u32, screen_height: u32) -> (ok: bool) {
        let bottom: i64 = self.position.y + from_pixels(self.height);
        if self.position.y > 0 && self.movement.up {
            let movement_value: i128 = travel_wide(self.speed.y, dt);
            if self.position.y as i128 - movement_value >= 0 {
                fits(movement_value) && fits(self.position.y as i128 - movement_value)
                    && fits(bottom as i128 - movement_value)
            } else {
                true
            }
        } else if bottom < from_pixels(screen_height) && self.movement.down {
            let movement_value: i128 = travel_wide(self.speed.y, dt);
            if bottom as i128 + movement_value <= from_pixels(screen_height) as i128 {
                fits(movement_value) && fits(self.position.y as i128 + movement_value)
                    && fits(bottom as i128 + movement_value)
            } else {
                true
            }
        } else {
            true
        }
    }

    fn update(&mut self, dt: i64, screen_width: u32, screen_height: u32)
        ensures
            old(self)@.heads_up() && old(self)@.bounds().top - travelled(
                old(self)@.velocity.y,
                dt as int,
            ) < 0 ==> *final(self) == *old(self),
            old(self)@.heads_down(screen_height as int) && old(self)@.bounds().bottom()
                + travelled(old(self)@.velocity.y, dt as int) > pixels(screen_height as int)
                ==> *final(self) == *old(self),
    {
        let bottom: i64 = self.position.y + from_pixels(self.height);
        if self.position.y > 0 && self.movement.up {
            let movement_value: i128 = travel_wide(self.speed.y, dt);
            if self.position.y as i128 - movement_value >= 0 {
                let step: i64 = movement_value as i64;
                self.position.y -= step;
                self.bounding_box.translate_by(0, -step);
            }
        } else if bottom < from_pixels(screen_height) && self.movement.down {
            let movement_value: i128 = travel_wide(self.speed.y, dt);
            if bottom as i128 + movement_value <= from_pixels(screen_height) as i128 {
                let step: i64 = movement_value as i64;
                self.position.y += step;
                self.bounding_box.translate_by(0, step);
            }
        }
    }

    fn reset(&mut self) {
        self.position = self.initial_position;
        self.bounding_box.translate_to(self.position.x, self.position.y);
        self.score = 0;
    }
}

/// The ball.
#[derive(Clone, Copy, PartialEq, Eq, Structural, Debug)]
pub struct Ball {
    position: Position,
    radius: u32,
    bounding_box: BoundingBox,
    speed: Speed,
    initial_position: Position,
}

impl View for Ball {
    type V = BallModel;

    closed spec fn view(&self) -> BallModel {
        BallModel {
            position: self.position@,
            radius: self.radius as nat,
            velocity: self.speed@,
            home: self.initial_position@,
        }
    }
}

impl Ball {
    /// The bounding box is the square that position and radius describe.
    pub closed spec fn consistent(&self) -> bool {
        &&& self.bounding_box.is_rectangle()
        &&& self.bounding_box@ == self@.bounds()
    }

    /// A ball of the given radius at `position`, served to the right and
    /// downwards.
    pub fn new(position: Position, radius: u32) -> (ball: Ball)
        requires
            in_range(position.x as int),
            in_range(position.y as int),
            in_range(position.x + 2 * pixels(radius as int)),
            in_range(position.y + 2 * pixels(radius as int)),
        ensures
            ball.wf(),
            ball@ == (BallModel {
                position: position@,
                radius: radius as nat,
                velocity: Point {
                    x: pixels(SERVE_SPEED_X as int),
                    y: pixels(SERVE_SPEED_Y as int),
                },
                home: position@,
            }),
    {
        let diameter: i64 = from_pixels(radius) * 2;

        Ball {
            position: position,
            initial_position: position,
            speed: Speed { x: from_pixels(SERVE_SPEED_X), y: from_pixels(SERVE_SPEED_Y) },
            radius: radius,
            bounding_box: BoundingBox::new(
                Vec2 { x: position.x, y: position.y },
                diameter,
                diameter,
            ),
        }
    }

    /// Whether `pong_collision` may be called with this paddle.
    pub fn can_collide(&self, pong: &Pong) -> (ok: bool)
        requires
            self.wf(),
            pong.wf(),
        ensures
            ok == self@.can_deflect(pong@.bounds()),
    {
        fits(-(self.speed.x as i128) - from_pixels(HIT_SPEED_UP) as i128)
            && fits(
            self.bounding_box.center_y() as i128 - pong.bounding_box().center_y() as i128,
        )
    }

    /// Turns the ball round after it has hit the paddle.
    pub fn pong_collision(&mut self, pong: &Pong)
        requires
            old(self).wf(),
            pong.wf(),
            old(self)@.can_deflect(pong@.bounds()),
        ensures
            final(self).wf(),
            final(self)@ == old(self)@.deflected(pong@.bounds()),
            final(self)@.velocity.x == -old(self)@.velocity.x - pixels(HIT_SPEED_UP as int),
            old(self)@.bounds().center_y() == pong@.bounds().center_y()
                ==> final(self)@.velocity.y == 0,
    {
        self.speed.x = -self.speed.x - from_pixels(HIT_SPEED_UP);
        self.speed.y = self.bounding_box.center_y() - pong.bounding_box().center_y();
    }

    /// Turns the ball round after it has hit the top or the bottom wall.
    pub fn bounce(&mut self)
        requires
            old(self).wf(),
        ensures
            final(self).wf(),
            final(self)@ == old(self)@.bounced(),
    {
        self.speed.y = -self.speed.y;
    }

    /// The top-left corner of the square around the ball.
    pub fn position(&self) -> (position: Position)
        ensures
            position@ == self@.position,
    {
        self.position
    }

    /// The radius of the ball in pixels.
    pub fn radius(&self) -> (radius: u32)
        ensures
            radius == self@.radius,
    {
        self.radius
    }

    /// The square around the ball.
    pub fn bounding_box(&self) -> (bounding_box: BoundingBox)
        requires
            self.wf(),
        ensures
            bounding_box.wf(),
            bounding_box@ == self@.bounds(),
    {
        self.bounding_box
    }

    /// The velocity of the ball: to the right and downwards when positive.
    pub fn speed(&self) -> (speed: Speed)
        ensures
            speed@ == self@.velocity,
    {
        self.speed
    }
}

impl GameObject for Ball {
    open spec fn wf(&self) -> bool {
        &&& self.consistent()
        &&& self@.representable()
    }

    open spec fn figure(model: BallModel) -> Figure {
        model.figure()
    }

    open spec fn advanced(
        model: BallModel,
        dt: int,
        screen_width: int,
        screen_height: int,
    ) -> BallModel {
        model.advanced(dt)
    }

    open spec fn can_advance(
        model: BallModel,
        dt: int,
        screen_width: int,
        screen_height: int,
    ) -> bool {
        model.can_advance(dt)
    }

    open spec fn restored(model: BallModel) -> BallModel {
        model.restored()
    }

    fn render(&mut self) -> (shape: Drawable) {
        let diameter: i64 = from_pixels(self.radius) * 2;
        Drawable::Ellipse {
            x: self.position.x,
            y: self.position.y,
            width: diameter,
            height: diameter,
        }
    }

    fn can_update(&self, dt: i64, screen_width: u32, screen_height: u32) -> (ok: bool) {
        let x_movement: i128 = travel_wide(self.speed.x, dt);
        let y_movement: i128 = travel_wide(self.speed.y, dt);
        let diameter: i128 = from_pixels(self.radius) as i128 * 2;
        fits(x_movement) && fits(y_movement) && fits(self.position.x as i128 + x_movement)
            && fits(self.position.y as i128 + y_movement)
            && fits(self.position.x as i128 + x_movement + diameter)
            && fits(self.position.y as i128 + y_movement + diameter)
    }

    fn update(&mut self, dt: i64, screen_width: u32, screen_height: u32)
        ensures
            final(self)@.position == (Point {
                x: old(self)@.position.x + travelled(old(self)@.velocity.x, dt as int),
                y: old(self)@.position.y + travelled(old(self)@.velocity.y, dt as int),
            }),
            final(self)@.velocity == old(self)@.velocity,
    {
        let x_movement: i64 = travel(self.speed.x, dt);
        let y_movement: i64 = travel(self.speed.y, dt);

        self.position.x += x_movement;
        self.position.y += y_movement;

        self.bounding_box.translate_by(x_movement, y_movement);
    }

    fn reset(&mut self) {
        self.position = self.initial_position;
        self.bounding_box.translate_to(self.position.x, self.position.y);
        self.speed.y = -self.speed.y;
        self.speed.x = -self.speed.x;
    }
}

/// Putting a paddle back undoes every move and every point: it stands where
/// it started, with no points, whatever ticks, points and intents came
/// before.
pub proof fn lemma_paddle_reset_forgets_history(
    paddle: PaddleModel,
    dt: int,
    screen_height: int,
    up: bool,
    down: bool,
)
    ensures
        paddle.restored().position == paddle.home,
        paddle.restored().score == 0,
        paddle.advanced(dt, screen_height).restored() == paddle.restored(),
        paddle.rewarded().restored() == paddle.restored(),
        paddle.steered(up, down).restored().position == paddle.home,
        paddle.steered(up, down).restored().score == 0,
        paddle.restored().restored() == paddle.restored(),
{
}

/// Putting the ball back places it where it started and turns both parts of
/// its velocity to the opposite sign, wherever it was; doing so twice gives
/// back the velocity it had.
pub proof fn lemma_ball_reset_returns_and_reverses(ball: BallModel, dt: int)
    ensures
        ball.restored().position == ball.home,
        ball.restored().velocity == (Point { x: -ball.velocity.x, y: -ball.velocity.y }),
        ball.advanced(dt).restored() == ball.restored(),
        ball.restored().restored().velocity == ball.velocity,
{
}

/// A hit turns the horizontal velocity to the opposite sign and takes one
/// pixel per second off it, whatever the paddle and whatever the vertical
/// velocity was, and leaves the ball where it is.
pub proof fn lemma_hit_turns_the_ball_round(ball: BallModel, paddle: Rect)
    ensures
        ball.deflected(paddle).velocity.x == -ball.velocity.x - pixels(HIT_SPEED_UP as int),
        ball.deflected(paddle).velocity.y == ball.bounds().center_y() - paddle.center_y(),
        ball.deflected(paddle).position == ball.position,
        ball.deflected(paddle).home == ball.home,
        ball.deflected(paddle).radius == ball.radius,
{
}

/// The ball moves by what its velocity covers in the tick along each axis,
/// its box moves with it, and its velocity stays, whatever the size of the
/// screen.
pub proof fn lemma_ball_moves_by_its_velocity(ball: BallModel, dt: int)
    ensures
        ball.advanced(dt).position == (Point {
            x: ball.position.x + travelled(ball.velocity.x, dt),
            y: ball.position.y + travelled(ball.velocity.y, dt),
        }),
        ball.advanced(dt).bounds() == ball.bounds().translated(
            travelled(ball.velocity.x, dt),
            travelled(ball.velocity.y, dt),
        ),
        ball.advanced(dt).velocity == ball.velocity,
{
}

/// A step that would carry a paddle across the edge it is heading for is not
/// made: a paddle that goes up ends with its top edge at or below the top of
/// the screen, a paddle that goes down ends with its bottom edge at or above
/// the bottom, and a paddle that does not make its step stays where it is.
pub proof fn lemma_paddle_never_crosses_the_edge_ahead(
    paddle: PaddleModel,
    dt: int,
    screen_height: int,
)
    ensures
        paddle.heads_up() ==> paddle.advanced(dt, screen_height).bounds().top >= 0,
        paddle.heads_down(screen_height) ==> paddle.advanced(dt, screen_height).bounds().bottom()
            <= pixels(screen_height),
        paddle.heads_up() && paddle.bounds().top - travelled(paddle.velocity.y, dt) < 0
            ==> paddle.advanced(dt, screen_height) == paddle,
        paddle.heads_down(screen_height) && paddle.bounds().bottom() + travelled(
            paddle.velocity.y,
            dt,
        ) > pixels(screen_height) ==> paddle.advanced(dt, screen_height) == paddle,
        !paddle.heads_up() && !paddle.heads_down(screen_height) ==> paddle.advanced(
            dt,
            screen_height,
        ) == paddle,
{
}

/// A step that stays on the screen is made in full: the paddle moves by what
/// its speed covers in the tick.
pub proof fn lemma_paddle_makes_the_steps_that_fit(
    paddle: PaddleModel,
    dt: int,
    screen_height: int,
)
    ensures
        paddle.heads_up() && paddle.bounds().top - travelled(paddle.velocity.y, dt) >= 0
            ==> paddle.advanced(dt, screen_height).position.y == paddle.position.y - travelled(
            paddle.velocity.y,
            dt,
        ),
        paddle.heads_down(screen_height) && paddle.bounds().bottom() + travelled(
            paddle.velocity.y,
            dt,
        ) <= pixels(screen_height) ==> paddle.advanced(dt, screen_height).position.y
            == paddle.position.y + travelled(paddle.velocity.y, dt),
{
}

/// A paddle that is on the screen stays on it through every tick in which
/// its speed covers no negative distance.
pub proof fn lemma_paddle_stays_on_the_screen(paddle: PaddleModel, dt: int, screen_height: int)
    requires
        0 <= paddle.bounds().top,
        paddle.bounds().bottom() <= pixels(screen_height),
        0 <= travelled(paddle.velocity.y, dt),
    ensures
        0 <= paddle.advanced(dt, screen_height).bounds().top,
        paddle.advanced(dt, screen_height).bounds().bottom() <= pixels(screen_height),
{
}

/// A ball whose centre is level with the paddle's centre leaves the paddle
/// with no vertical velocity.
pub proof fn lemma_level_hit_flies_straight(ball: BallModel, paddle: Rect)
    requires
        ball.bounds().center_y() == paddle.center_y(),
    ensures
        ball.deflected(paddle).velocity == (Point {
            x: -ball.velocity.x - pixels(HIT_SPEED_UP as int),
            y: 0,
        }),
{
}

/// A paddle at or above the top of the screen that is asked to move up, and
/// not down, stays where it is.
pub proof fn lemma_paddle_stops_at_the_top(paddle: PaddleModel, dt: int, screen_height: int)
    requires
        paddle.position.y <= 0,
        paddle.intent.up,
        !paddle.intent.down,
    ensures
        paddle.advanced(dt, screen_height) == paddle,
{
}

} // verus!
