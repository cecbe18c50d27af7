//! The game: two paddles and a ball on a screen, the rules of a tick, the
//! keys, and what a frame shows.

use vstd::prelude::*;
use crate::collision::{CollisionDetection, Point, AABB};
use crate::objects::{
    Ball, BallModel, GameObject, Movement, PaddleModel, Pong, Position, Speed, SERVE_SPEED_X,
    SERVE_SPEED_Y,
};
use crate::scene::{Drawable, Figure, Label};
use crate::units::{from_pixels, lemma_travel_within_a_second, pixels, SCALE};

verus! {

/// The score at which a player has won.
pub const WINNING_SCORE: u32 = 5;

/// The gap between a paddle and its edge of the screen, in pixels.
pub const PONG_OFFSET_X: u32 = 20;

/// The width of a paddle, in pixels.
pub const PONG_WIDTH: u32 = 30;

/// The height of a paddle, in pixels.
pub const PONG_HEIGHT: u32 = 150;

/// The radius of the ball, in pixels.
pub const BALL_RADIUS: u32 = 7;

/// The speed of the left paddle, in pixels per second.
pub const LEFT_PADDLE_SPEED: u32 = 200;

/// The speed of the right paddle, in pixels per second.
pub const RIGHT_PADDLE_SPEED: u32 = 50;

/// How far from the centre of the right paddle, in pixels, the two lines lie
/// that it holds the top of the ball against.
pub const PURSUIT_MARGIN: u32 = 80;

/// What the game is showing.
#[derive(Clone, Copy, PartialEq, Eq, Structural, Debug)]
pub enum Screen {
    /// Before the first round: waiting for the key that starts it.
    Loading,
    /// A round is being played.
    Playing,
    /// A player has won: waiting for the key that starts the next round.
    WinScreen,
}

/// What a key means to the game.
#[derive(Clone, Copy, PartialEq, Eq, Structural, Debug)]
pub enum Key {
    /// Move the left paddle up.
    Up,
    /// Move the left paddle down.
    Down,
    /// Start a round.
    Restart,
    /// Any other key, and the release of any key.
    Other,
}

/// The game in exact integers. The screen size is in whole pixels. The left
/// paddle is player 1, who holds the keys; the right paddle is player 2, who
/// follows the ball.
pub struct GameModel {
    pub screen: Screen,
    pub width: nat,
    pub height: nat,
    pub left: PaddleModel,
    pub right: PaddleModel,
    pub ball: BallModel,
}

impl GameModel {
    /// The game as it starts on a screen of the given size: both paddles
    /// halfway down, each with a gap to its edge, the ball in the middle.
    /// Halves of odd numbers of pixels are rounded down.
    pub open spec fn opening(width: nat, height: nat) -> GameModel {
        let paddle_top = pixels(height / 2 - PONG_HEIGHT / 2);
        let left_home = Point { x: pixels(PONG_OFFSET_X as int), y: paddle_top };
        let right_home = Point { x: pixels(width - PONG_OFFSET_X - PONG_WIDTH), y: paddle_top };
        let ball_home = Point { x: pixels(width as int / 2), y: pixels(height / 2 - BALL_RADIUS) };
        GameModel {
            screen: Screen::Loading,
            width,
            height,
            left: PaddleModel {
                score: 0,
                position: left_home,
                width: PONG_WIDTH as nat,
                height: PONG_HEIGHT as nat,
                velocity: Point { x: 0, y: pixels(LEFT_PADDLE_SPEED as int) },
                intent: Movement { up: false, down: false },
                home: left_home,
            },
            right: PaddleModel {
                score: 0,
                position: right_home,
                width: PONG_WIDTH as nat,
                height: PONG_HEIGHT as nat,
                velocity: Point { x: 0, y: pixels(RIGHT_PADDLE_SPEED as int) },
                intent: Movement { up: false, down: false },
                home: right_home,
            },
            ball: BallModel {
                position: ball_home,
                radius: BALL_RADIUS as nat,
                velocity: Point {
                    x: pixels(SERVE_SPEED_X as int),
                    y: pixels(SERVE_SPEED_Y as int),
                },
                home: ball_home,
            },
        }
    }

    /// Whether every number of the game can be stored.
    pub open spec fn representable(self) -> bool {
        &&& self.width <= u32::MAX
        &&& self.height <= u32::MAX
        &&& self.left.representable()
        &&& self.right.representable()
        &&& self.ball.representable()
    }

    /// The ball turned round by the paddle it has run into, if any. The left
    /// paddle is looked at first, and the right one only if the left one is
    /// clear of the ball.
    pub open spec fn struck(self) -> GameModel {
        if self.left.bounds().overlaps(self.ball.bounds()) {
            GameModel { ball: self.ball.deflected(self.left.bounds()), ..self }
        } else if self.ball.bounds().overlaps(self.right.bounds()) {
            GameModel { ball: self.ball.deflected(self.right.bounds()), ..self }
        } else {
            self
        }
    }

    /// Whether the velocity that a paddle hit gives the ball can be stored.
    pub open spec fn can_strike(self) -> bool {
        if self.left.bounds().overlaps(self.ball.bounds()) {
            self.ball.can_deflect(self.left.bounds())
        } else if self.ball.bounds().overlaps(self.right.bounds()) {
            self.ball.can_deflect(self.right.bounds())
        } else {
            true
        }
    }

    /// Whether the ball is at or beyond the top or the bottom of the screen.
    pub open spec fn ball_at_wall(self) -> bool {
        self.ball.bounds().top <= 0 || self.ball.bounds().bottom() >= pixels(self.height as int)
    }

    /// The ball turned round by the top or bottom wall, if it is at one.
    pub open spec fn walled(self) -> GameModel {
        if self.ball_at_wall() {
            GameModel { ball: self.ball.bounced(), ..self }
        } else {
            self
        }
    }

    /// The player who gets a point now, if any: player 2 when the ball is at
    /// or beyond the left edge, else player 1 when it is at or beyond the
    /// right edge.
    pub open spec fn scorer(self) -> Option<u8> {
        if self.ball.bounds().left <= 0 {
            Some(2u8)
        } else if self.ball.bounds().right() >= pixels(self.width as int) {
            Some(1u8)
        } else {
            None
        }
    }

    /// The game after `player` got a point: with the winning score reached
    /// the win screen shows, otherwise the ball is served again.
    pub open spec fn awarded(self, player: u8) -> GameModel {
        let left = if player == 1 {
            self.left.rewarded()
        } else {
            self.left
        };
        let right = if player == 1 {
            self.right
        } else {
            self.right.rewarded()
        };
        let score = if player == 1 {
            left.score
        } else {
            right.score
        };
        if score >= WINNING_SCORE {
            GameModel { screen: Screen::WinScreen, left, right, ..self }
        } else {
            GameModel { left, right, ball: self.ball.restored(), ..self }
        }
    }

    /// Whether the score of `player` has room for one more point.
    pub open spec fn can_award(self, player: u8) -> bool {
        if player == 1 {
            self.left.rewarded().representable()
        } else {
            self.right.rewarded().representable()
        }
    }

    /// The game after the point of this tick, if there is one.
    pub open spec fn settled(self) -> GameModel {
        match self.scorer() {
            Some(player) => self.awarded(player),
            None => self,
        }
    }

    /// Whether the score of the player who gets a point now, if any, has
    /// room for it.
    pub open spec fn can_settle(self) -> bool {
        match self.scorer() {
            Some(player) => self.can_award(player),
            None => true,
        }
    }

    /// The intent of the right paddle, which follows the ball: down when the
    /// top of the ball is below the line that lies the margin above the
    /// paddle's centre, otherwise up when it is above the line that lies the
    /// margin below the centre, otherwise none.
    pub open spec fn pursuit(self) -> Movement {
        let center = self.right.bounds().center_y();
        if self.ball.bounds().top > center - pixels(PURSUIT_MARGIN as int) {
            Movement { up: false, down: true }
        } else if self.ball.bounds().top < center + pixels(PURSUIT_MARGIN as int) {
            Movement { up: true, down: false }
        } else {
            Movement { up: false, down: false }
        }
    }

    /// The game with the right paddle told where to go.
    pub open spec fn steered(self) -> GameModel {
        GameModel {
            right: self.right.steered(self.pursuit().up, self.pursuit().down),
            ..self
        }
    }

    /// The game with both paddles and the ball moved on by `dt`.
    pub open spec fn advanced(self, dt: int) -> GameModel {
        GameModel {
            left: self.left.advanced(dt, self.height as int),
            right: self.right.advanced(dt, self.height as int),
            ball: self.ball.advanced(dt),
            ..self
        }
    }

    /// Whether the movement of all three objects can be computed within the
    /// range of stored numbers.
    pub open spec fn can_advance(self, dt: int) -> bool {
        &&& self.left.can_advance(dt, self.height as int)
        &&& self.right.can_advance(dt, self.height as int)
        &&& self.ball.can_advance(dt)
    }

    /// The game after a tick of length `dt`. Outside a round nothing moves.
    /// In a round: paddle hits, wall hits, points, the right paddle's intent,
    /// then the movement of all three objects, in this order.
    pub open spec fn step(self, dt: int) -> GameModel {
        if self.screen == Screen::Playing {
            self.struck().walled().settled().steered().advanced(dt)
        } else {
            self
        }
    }

    /// Whether the tick can be computed within the range of stored numbers.
    pub open spec fn can_step(self, dt: int) -> bool {
        self.screen == Screen::Playing ==> {
            &&& self.can_strike()
            &&& self.struck().walled().can_settle()
            &&& self.struck().walled().settled().steered().can_advance(dt)
        }
    }

    /// The game with both paddles put back, in a round.
    pub open spec fn restarted(self) -> GameModel {
        GameModel {
            screen: Screen::Playing,
            left: self.left.restored(),
            right: self.right.restored(),
            ..self
        }
    }

    /// The game after a key. Up and down steer the left paddle; the restart
    /// key starts a round unless one is being played; anything else stops
    /// the left paddle.
    pub open spec fn keyed(self, key: Key) -> GameModel {
        match key {
            Key::Up => GameModel { left: self.left.steered(true, false), ..self },
            Key::Down => GameModel { left: self.left.steered(false, true), ..self },
            Key::Restart => if self.screen == Screen::Playing {
                self
            } else {
                self.restarted()
            },
            Key::Other => GameModel { left: self.left.steered(false, false), ..self },
        }
    }

    /// Whether screen and scores go together as they do in every game that
    /// began with `opening` and went on by ticks and keys: no points before
    /// the first round, both scores below the winning score during a round,
    /// and on the win screen one player at the winning score and the other
    /// below it.
    pub open spec fn in_order(self) -> bool {
        match self.screen {
            Screen::Loading => self.left.score == 0 && self.right.score == 0,
            Screen::Playing => self.left.score < WINNING_SCORE && self.right.score
                < WINNING_SCORE,
            Screen::WinScreen => {
                ||| self.left.score == WINNING_SCORE && self.right.score < WINNING_SCORE
                ||| self.right.score == WINNING_SCORE && self.left.score < WINNING_SCORE
            },
        }
    }

    /// The player named on the win screen.
    pub open spec fn winner(self) -> u8 {
        if self.left.score >= WINNING_SCORE {
            1
        } else {
            2
        }
    }

    /// The two running scores, in the top corners.
    pub open spec fn score_board(self) -> Seq<Figure> {
        seq![
            Figure::Text {
                content: (Label::Score { player: 1, points: self.left.score as u32 })@,
                size: 18,
                x: pixels(20),
                y: pixels(30),
            },
            Figure::Text {
                content: (Label::Score { player: 2, points: self.right.score as u32 })@,
                size: 18,
                x: pixels(self.width as int) - pixels(200),
                y: pixels(30),
            },
        ]
    }

    /// What the middle of the screen shows: the invitation to start, or the
    /// winner and the invitation to play again, or the paddles and the ball.
    pub open spec fn stage(self) -> Seq<Figure> {
        let center_x = pixels(self.width as int) / 2;
        let center_y = pixels(self.height as int) / 2;
        match self.screen {
            Screen::Loading => seq![
                Figure::Text {
                    content: Label::StartPrompt@,
                    size: 30,
                    x: center_x - pixels(330),
                    y: center_y - pixels(10),
                },
            ],
            Screen::WinScreen => seq![
                Figure::Text {
                    content: (Label::Winner { player: self.winner() })@,
                    size: 30,
                    x: center_x - pixels(230),
                    y: center_y - pixels(10),
                },
                Figure::Text {
                    content: Label::RestartPrompt@,
                    size: 17,
                    x: center_x - pixels(205),
                    y: center_y + pixels(40),
                },
            ],
            Screen::Playing => seq![self.left.figure(), self.right.figure(), self.ball.figure()],
        }
    }

    /// The figures of a frame, in the order in which they are drawn.
    pub open spec fn frame(self) -> Seq<Figure> {
        self.stage() + self.score_board()
    }
}

/// The figures that a list of drawables stands for.
pub open spec fn figures(drawables: Seq<Drawable>) -> Seq<Figure> {
    drawables.map_values(|d: Drawable| d@)
}

/// The game.
#[derive(Clone, Copy, PartialEq, Eq, Structural, Debug)]
pub struct Game {
    screen: Screen,
    width: u32,
    height: u32,
    pong_1: Pong,
    pong_2: Pong,
    ball: Ball,
}

impl View for Game {
    type V = GameModel;

    closed spec fn view(&self) -> GameModel {
        GameModel {
            screen: self.screen,
            width: self.width as nat,
            height: self.height as nat,
            left: self.pong_1@,
            right: self.pong_2@,
            ball: self.ball@,
        }
    }
}

impl Game {
    /// The bounding boxes of the paddles and of the ball are where the
    /// positions say.
    pub closed spec fn consistent(&self) -> bool {
        &&& self.pong_1.consistent()
        &&& self.pong_2.consistent()
        &&& self.ball.consistent()
    }

    /// The parts of the game agree with each other and hold storable numbers.
    pub open spec fn wf(&self) -> bool {
        &&& self.consistent()
        &&& self@.representable()
    }

    /// A game on a screen of `width` by `height` pixels, waiting for the key
    /// that starts the first round. The screen has to be wide enough for a
    /// paddle and its gap to the edge, and high enough for a paddle.
    pub fn new(width: u32, height: u32) -> (game: Game)
        requires
            width >= PONG_OFFSET_X + PONG_WIDTH,
            height >= PONG_HEIGHT,
        ensures
            game.wf(),
            game@ == GameModel::opening(width as nat, height as nat),
    {
        Game {
            width,
            height,
            screen: Screen::Loading,
            pong_1: Pong::new(
                Position {
                    x: from_pixels(PONG_OFFSET_X),
                    y: from_pixels((height / 2) - (PONG_HEIGHT / 2)),
                },
                Speed { x: 0, y: from_pixels(LEFT_PADDLE_SPEED) },
                PONG_WIDTH,
                PONG_HEIGHT,
            ),
            pong_2: Pong::new(
                Position {
                    x: from_pixels((width - PONG_OFFSET_X) - PONG_WIDTH),
                    y: from_pixels((height / 2) - (PONG_HEIGHT / 2)),
                },
                Speed { x: 0, y: from_pixels(RIGHT_PADDLE_SPEED) },
                PONG_WIDTH,
                PONG_HEIGHT,
            ),
            ball: Ball::new(
                Position { x: from_pixels(width / 2), y: from_pixels(height / 2 - BALL_RADIUS) },
                BALL_RADIUS,
            ),
        }
    }

    /// A game made of the given paddles and ball.
    pub fn from_parts(
        screen: Screen,
        width: u32,
        height: u32,
        pong_1: Pong,
        pong_2: Pong,
        ball: Ball,
    ) -> (game: Game)
        requires
            pong_1.wf(),
            pong_2.wf(),
            ball.wf(),
        ensures
            game.wf(),
            game@ == (GameModel {
                screen,
                width: width as nat,
                height: height as nat,
                left: pong_1@,
                right: pong_2@,
                ball: ball@,
            }),
    {
        Game { screen, width, height, pong_1, pong_2, ball }
    }

    /// What the game is showing.
    pub fn screen(&self) -> (screen: Screen)
        ensures
            screen == self@.screen,
    {
        self.screen
    }

    /// Width and height of the screen in pixels.
    pub fn size(&self) -> (size: (u32, u32))
        ensures
            size.0 == self@.width,
            size.1 == self@.height,
    {
        (self.width, self.height)
    }

    /// The left paddle, player 1.
    pub fn pong_1(&self) -> (pong: Pong)
        requires
            self.wf(),
        ensures
            pong.wf(),
            pong@ == self@.left,
    {
        self.pong_1
    }

    /// The right paddle, player 2.
    pub fn pong_2(&self) -> (pong: Pong)
        requires
            self.wf(),
        ensures
            pong.wf(),
            pong@ == self@.right,
    {
        self.pong_2
    }

    /// The ball.
    pub fn ball(&self) -> (ball: Ball)
        requires
            self.wf(),
        ensures
            ball.wf(),
            ball@ == self@.ball,
    {
        self.ball
    }

    /// Whether `resolve_paddles` may be called.
    fn can_resolve_paddles(&self) -> (ok: bool)
        requires
            self.wf(),
        ensures
            ok == self@.can_strike(),
    {
        if AABB::is_colliding(&self.pong_1.bounding_box(), &self.ball.bounding_box()) {
            self.ball.can_collide(&self.pong_1)
        } else if AABB::is_colliding(&self.ball.bounding_box(), &self.pong_2.bounding_box()) {
            self.ball.can_collide(&self.pong_2)
        } else {
            true
        }
    }

    /// Turns the ball round if it has run into a paddle.
    fn resolve_paddles(&mut self)
        requires
            old(self).wf(),
            old(self)@.can_strike(),
        ensures
            final(self).wf(),
            final(self)@ == old(self)@.struck(),
    {
        if AABB::is_colliding(&self.pong_1.bounding_box(), &self.ball.bounding_box()) {
            self.ball.pong_collision(&self.pong_1);
        } else if AABB::is_colliding(&self.ball.bounding_box(), &self.pong_2.bounding_box()) {
            self.ball.pong_collision(&self.pong_2);
        }
    }

    /// Turns the ball round if it is at the top or the bottom wall.
    fn resolve_walls(&mut self)
        requires
            old(self).wf(),
        ensures
            final(self).wf(),
            final(self)@ == old(self)@.walled(),
    {
        let ball_diameter: i64 = from_pixels(self.ball.radius()) * 2;
        if self.ball.position().y <= 0 || self.ball.position().y + ball_diameter >= from_pixels(
            self.height,
        ) {
            self.ball.bounce();
        }
    }

    /// Whether `scored` may be called for `player`.
    fn can_score(&self, player: u8) -> (ok: bool)
        requires
            self.wf(),
        ensures
            ok == self@.can_award(player),
    {
        if player == 1 {
            self.pong_1.can_score()
        } else {
            self.pong_2.can_score()
        }
    }

    /// Gives `player` a point, and then either ends the round or serves the
    /// ball again.
    fn scored(&mut self, player: u8)
        requires
            old(self).wf(),
            old(self)@.can_award(player),
        ensures
            final(self).wf(),
            final(self)@ == old(self)@.awarded(player),
    {
        let score: u32;

        if player == 1 {
            self.pong_1.scored();
            score = self.pong_1.score();
        } else {
            self.pong_2.scored();
            score = self.pong_2.score();
        }

        if score >= WINNING_SCORE {
            self.screen = Screen::WinScreen;
        } else {
            self.reset_objects();
        }
    }

    /// Serves the ball again.
    fn reset_objects(&mut self)
        requires
            old(self).wf(),
        ensures
            final(self).wf(),
            final(self)@ == (GameModel { ball: old(self)@.ball.restored(), ..old(self)@ }),
    {
        self.ball.reset();
    }

    /// Starts a round with both paddles put back.
    fn reset_game(&mut self)
        requires
            old(self).wf(),
        ensures
            final(self).wf(),
            final(self)@ == old(self)@.restarted(),
    {
        self.screen = Screen::Playing;
        self.pong_1.reset();
        self.pong_2.reset();
    }

    /// The player who gets a point now, if any.
    fn scorer(&self) -> (player: Option<u8>)
        requires
            self.wf(),
        ensures
            player == self@.scorer(),
    {
        let ball_diameter: i64 = from_pixels(self.ball.radius()) * 2;
        if self.ball.position().x <= 0 {
            Some(2)
        } else if self.ball.position().x + ball_diameter >= from_pixels(self.width) {
            Some(1)
        } else {
            None
        }
    }

    /// Whether `resolve_goals` may be called.
    fn can_resolve_goals(&self) -> (ok: bool)
        requires
            self.wf(),
        ensures
            ok == self@.can_settle(),
    {
        match self.scorer() {
            Some(player) => self.can_score(player),
            None => true,
        }
    }

    /// Gives the point of this tick, if there is one.
    fn resolve_goals(&mut self)
        requires
            old(self).wf(),
            old(self)@.can_settle(),
        ensures
            final(self).wf(),
            final(self)@ == old(self)@.settled(),
    {
        match self.scorer() {
            Some(player) => self.scored(player),
            None => {},
        }
    }

    /// Tells the right paddle where to go.
    fn steer_opponent(&mut self)
        requires
            old(self).wf(),
        ensures
            final(self).wf(),
            final(self)@ == old(self)@.steered(),
    {
        let ai_center: i128 = self.pong_2.bounding_box().center_y() as i128;
        let ball_top: i128 = self.ball.bounding_box().top_left().y as i128;
        let margin: i128 = from_pixels(PURSUIT_MARGIN) as i128;
        if ball_top > ai_center - margin {
            self.pong_2.move_position(false, true);
        } else if ball_top < ai_center + margin {
            self.pong_2.move_position(true, false);
        } else {
            self.pong_2.move_position(false, false);
        }
    }

    /// Whether `move_objects` may be called with this `dt`.
    fn can_move_objects(&self, dt: i64) -> (ok: bool)
        requires
            self.wf(),
        ensures
            ok == self@.can_advance(dt as int),
    {
        self.pong_1.can_update(dt, self.width, self.height) && self.pong_2.can_update(
            dt,
            self.width,
            self.height,
        ) && self.ball.can_update(dt, self.width, self.height)
    }

    /// Moves both paddles and the ball on by `dt`.
    fn move_objects(&mut self, dt: i64)
        requires
            old(self).wf(),
            old(self)@.can_advance(dt as int),
        ensures
            final(self).wf(),
            final(self)@ == old(self)@.advanced(dt as int),
    {
        self.pong_1.update(dt, self.width, self.height);
        self.pong_2.update(dt, self.width, self.height);
        self.ball.update(dt, self.width, self.height);
    }

    /// Whether `update` may be called with this `dt`: whether every number
    /// that the tick computes can be stored.
    pub fn can_update(&self, dt: i64) -> (ok: bool)
        requires
            self.wf(),
        ensures
            ok == self@.can_step(dt as int),
    {
        let mut next: Game = *self;
        match next.screen {
            Screen::Playing => {
                if !next.can_resolve_paddles() {
                    return false;
                }
                next.resolve_paddles();
                next.resolve_walls();
                if !next.can_resolve_goals() {
                    return false;
                }
                next.resolve_goals();
                next.steer_opponent();
                next.can_move_objects(dt)
            },
            _ => true,
        }
    }

    /// Plays a tick of length `dt`.
    pub fn update(&mut self, dt: i64)
        requires
            old(self).wf(),
            old(self)@.can_step(dt as int),
        ensures
            final(self).wf(),
            final(self)@ == old(self)@.step(dt as int),
            old(self)@.screen == Screen::Playing && old(self)@.ball.bounds().left <= 0 ==> {
                &&& final(self)@.right.score == old(self)@.right.score + 1
                &&& final(self)@.left.score == old(self)@.left.score
                &&& final(self)@.screen == Screen::WinScreen <==> old(self)@.right.score + 1
                    >= WINNING_SCORE
            },
            old(self)@.screen == Screen::Playing && old(self)@.ball.bounds().left > 0
                && old(self)@.ball.bounds().right() >= pixels(old(self)@.width as int) ==> {
                &&& final(self)@.left.score == old(self)@.left.score + 1
                &&& final(self)@.right.score == old(self)@.right.score
                &&& final(self)@.screen == Screen::WinScreen <==> old(self)@.left.score + 1
                    >= WINNING_SCORE
            },
    {
        proof {
            if self@.screen == Screen::Playing {
                lemma_tick_gives_the_point_at_the_edges(self@, dt as int);
            }
        }
        match self.screen {
            Screen::Playing => {
                self.resolve_paddles();
                self.resolve_walls();
                self.resolve_goals();
                self.steer_opponent();
                self.move_objects(dt);
            },
            _ => {},
        }
    }

    /// Takes a key.
    pub fn input_update(&mut self, button: Key)
        requires
            old(self).wf(),
        ensures
            final(self).wf(),
            final(self)@ == old(self)@.keyed(button),
    {
        match button {
            Key::Up => {
                self.pong_1.move_position(true, false);
            },
            Key::Down => {
                self.pong_1.move_position(false, true);
            },
            Key::Restart => {
                match self.screen {
                    Screen::Playing => {},
                    _ => {
                        self.reset_game();
                    },
                }
            },
            Key::Other => {
                self.pong_1.move_position(false, false);
            },
        }
    }

    /// The figures of a frame, in the order in which they are to be drawn.
    /// Drawing changes nothing.
    pub fn render(&mut self) -> (frame: Vec<Drawable>)
        requires
            old(self).wf(),
        ensures
            *final(self) == *old(self),
            figures(frame@) == old(self)@.frame(),
    {
        let center_x: i64 = from_pixels(self.width) / 2;
        let center_y: i64 = from_pixels(self.height) / 2;
        let mut frame: Vec<Drawable> = Vec::new();

        match self.screen {
            Screen::Loading => {
                frame.push(
                    Drawable::Text {
                        label: Label::StartPrompt,
                        size: 30,
                        x: center_x - from_pixels(330),
                        y: center_y - from_pixels(10),
                    },
                );
            },
            Screen::WinScreen => {
                let winner: u8 = if self.pong_1.score() >= WINNING_SCORE {
                    1
                } else {
                    2
                };
                frame.push(
                    Drawable::Text {
                        label: Label::Winner { player: winner },
                        size: 30,
                        x: center_x - from_pixels(230),
                        y: center_y - from_pixels(10),
                    },
                );
                frame.push(
                    Drawable::Text {
                        label: Label::RestartPrompt,
                        size: 17,
                        x: center_x - from_pixels(205),
                        y: center_y + from_pixels(40),
                    },
                );
            },
            Screen::Playing => {
                let left = self.pong_1.render();
                let right = self.pong_2.render();
                let ball = self.ball.render();
                frame.push(left);
                frame.push(right);
                frame.push(ball);
            },
        }

        frame.push(
            Drawable::Text {
                label: Label::Score { player: 1, points: self.pong_1.score() },
                size: 18,
                x: from_pixels(20),
                y: from_pixels(30),
            },
        );
        frame.push(
            Drawable::Text {
                label: Label::Score { player: 2, points: self.pong_2.score() },
                size: 18,
                x: from_pixels(self.width) - from_pixels(200),
                y: from_pixels(30),
            },
        );
        assert(figures(frame@) =~= old(self)@.frame());
        frame
    }
}

/// Outside a round a tick changes nothing, whatever its length, and can
/// always be computed.
pub proof fn lemma_tick_outside_a_round_changes_nothing(game: GameModel, dt: int)
    requires
        game.screen != Screen::Playing,
    ensures
        game.can_step(dt),
        game.step(dt) == game,
{
}

/// A point goes to one player and adds one to that player's score. It ends
/// the round exactly when that score has then reached the winning score;
/// otherwise the round goes on and the ball is served again from where it
/// started, flying the opposite way.
pub proof fn lemma_point_ends_the_round_at_the_winning_score(game: GameModel, player: u8)
    requires
        game.screen == Screen::Playing,
    ensures
        player == 1 ==> game.awarded(player).left.score == game.left.score + 1
            && game.awarded(player).right == game.right,
        player != 1 ==> game.awarded(player).right.score == game.right.score + 1
            && game.awarded(player).left == game.left,
        game.awarded(player).screen == Screen::WinScreen <==> (if player == 1 {
            game.left.score + 1
        } else {
            game.right.score + 1
        }) >= WINNING_SCORE,
        game.awarded(player).screen == Screen::WinScreen ==> game.awarded(player).ball
            == game.ball,
        game.awarded(player).screen != Screen::WinScreen ==> game.awarded(player).screen
            == Screen::Playing && game.awarded(player).ball == game.ball.restored(),
{
}

/// In a round, a ball at or beyond the left edge gives the right paddle a
/// point and the left paddle none; otherwise a ball at or beyond the right
/// edge gives the left paddle a point and the right paddle none; otherwise
/// nobody gets a point. After a point the win screen shows exactly when the
/// player who got it has reached the winning score, whatever the other
/// score is; the ball is served again exactly when the round goes on.
pub proof fn lemma_tick_gives_the_point_at_the_edges(game: GameModel, dt: int)
    requires
        game.screen == Screen::Playing,
    ensures
        game.ball.bounds().left <= 0 ==> {
            &&& game.step(dt).right.score == game.right.score + 1
            &&& game.step(dt).left.score == game.left.score
            &&& game.step(dt).screen == Screen::WinScreen <==> game.right.score + 1
                >= WINNING_SCORE
        },
        game.ball.bounds().left > 0 && game.ball.bounds().right() >= pixels(game.width as int)
            ==> {
            &&& game.step(dt).left.score == game.left.score + 1
            &&& game.step(dt).right.score == game.right.score
            &&& game.step(dt).screen == Screen::WinScreen <==> game.left.score + 1
                >= WINNING_SCORE
        },
        game.ball.bounds().left > 0 && game.ball.bounds().right() < pixels(game.width as int)
            ==> {
            &&& game.step(dt).left.score == game.left.score
            &&& game.step(dt).right.score == game.right.score
            &&& game.step(dt).screen == Screen::Playing
            &&& game.step(dt).ball == game.struck().walled().ball.advanced(dt)
        },
        game.step(dt).screen == Screen::WinScreen || game.step(dt).screen == Screen::Playing,
        game.struck().walled().scorer() is Some && game.step(dt).screen == Screen::WinScreen
            ==> game.step(dt).ball == game.struck().walled().ball.advanced(dt),
        game.struck().walled().scorer() is Some && game.step(dt).screen == Screen::Playing
            ==> game.step(dt).ball == game.struck().walled().ball.restored().advanced(dt),
{
}

/// Screen and scores stay in order: they are in order when the game begins,
/// and every tick and every key keeps them so. On the win screen of such a
/// game the player who is named is the one who has the winning score.
pub proof fn lemma_screen_and_scores_stay_in_order(
    game: GameModel,
    width: nat,
    height: nat,
    dt: int,
    key: Key,
)
    requires
        game.in_order(),
    ensures
        GameModel::opening(width, height).in_order(),
        game.step(dt).in_order(),
        game.keyed(key).in_order(),
        game.screen == Screen::WinScreen ==> (if game.winner() == 1 {
            game.left.score
        } else {
            game.right.score
        }) == WINNING_SCORE,
{
}

/// The right paddle never rests: wherever the ball is, it is told to go down
/// or to go up, and never both.
pub proof fn lemma_right_paddle_never_rests(game: GameModel)
    ensures
        game.pursuit().up != game.pursuit().down,
{
}

/// A tick leaves the court as it is: the size of the screen, the sizes of the
/// paddles and of the ball, the places they started from, the speed of the
/// paddles, the intent of the left paddle, and how far from the left edge
/// each paddle stands.
pub proof fn lemma_tick_keeps_the_court(game: GameModel, dt: int)
    ensures
        game.step(dt).width == game.width,
        game.step(dt).height == game.height,
        game.step(dt).left.width == game.left.width,
        game.step(dt).left.height == game.left.height,
        game.step(dt).right.width == game.right.width,
        game.step(dt).right.height == game.right.height,
        game.step(dt).ball.radius == game.ball.radius,
        game.step(dt).left.home == game.left.home,
        game.step(dt).right.home == game.right.home,
        game.step(dt).ball.home == game.ball.home,
        game.step(dt).left.velocity == game.left.velocity,
        game.step(dt).right.velocity == game.right.velocity,
        game.step(dt).left.intent == game.left.intent,
        game.step(dt).left.position.x == game.left.position.x,
        game.step(dt).right.position.x == game.right.position.x,
{
}

/// Whether `v` has a magnitude of at most `bound`.
pub open spec fn at_most(v: int, bound: int) -> bool {
    -bound <= v <= bound
}

/// Whether the positions of the paddles and of the ball, the place the ball
/// started from, and the speeds of the paddles all have a magnitude of at
/// most `bound`.
pub open spec fn court_within(game: GameModel, bound: int) -> bool {
    &&& at_most(game.left.position.x, bound)
    &&& at_most(game.left.position.y, bound)
    &&& at_most(game.left.velocity.y, bound)
    &&& at_most(game.right.position.x, bound)
    &&& at_most(game.right.position.y, bound)
    &&& at_most(game.right.velocity.y, bound)
    &&& at_most(game.ball.position.x, bound)
    &&& at_most(game.ball.position.y, bound)
    &&& at_most(game.ball.home.x, bound)
    &&& at_most(game.ball.home.y, bound)
}

/// Whether both parts of the ball's velocity have a magnitude of at most
/// `bound`.
pub open spec fn pace_within(game: GameModel, bound: int) -> bool {
    &&& at_most(game.ball.velocity.x, bound)
    &&& at_most(game.ball.velocity.y, bound)
}

/// The game can be stored, its court lies within 2^60, and the ball is no
/// faster than `pace`.
spec fn tame(game: GameModel, pace: int) -> bool {
    &&& game.representable()
    &&& court_within(game, 0x1000_0000_0000_0000)
    &&& pace_within(game, pace)
}

/// A paddle hit can be computed for a tame game whose ball is no faster than
/// 2^60, and leaves the ball no faster than three times that.
proof fn lemma_struck_stays_tame(game: GameModel)
    requires
        tame(game, 0x1000_0000_0000_0000),
    ensures
        game.can_strike(),
        tame(game.struck(), 0x3000_0000_0000_0000),
        game.struck().screen == game.screen,
        game.struck().left.score == game.left.score,
        game.struck().right.score == game.right.score,
{
}

/// A wall hit keeps a tame game tame.
proof fn lemma_walled_stays_tame(game: GameModel, pace: int)
    requires
        tame(game, pace),
    ensures
        tame(game.walled(), pace),
        game.walled().screen == game.screen,
        game.walled().left.score == game.left.score,
        game.walled().right.score == game.right.score,
{
}

/// A point can be given in a tame game whose scores have room for it, and
/// keeps the game tame.
proof fn lemma_settled_stays_tame(game: GameModel, pace: int)
    requires
        tame(game, pace),
        game.left.score < u32::MAX,
        game.right.score < u32::MAX,
    ensures
        game.can_settle(),
        tame(game.settled(), pace),
{
}

/// Steering the right paddle keeps a tame game tame.
proof fn lemma_steered_stays_tame(game: GameModel, pace: int)
    requires
        tame(game, pace),
    ensures
        tame(game.steered(), pace),
{
}

/// The objects of a tame game can move for up to a second.
proof fn lemma_tame_games_can_advance(game: GameModel, dt: int)
    requires
        tame(game, 0x3000_0000_0000_0000),
        0 <= dt <= SCALE,
    ensures
        game.can_advance(dt),
{
    lemma_travel_within_a_second(game.ball.velocity.x, dt, 0x3000_0000_0000_0000);
    lemma_travel_within_a_second(game.ball.velocity.y, dt, 0x3000_0000_0000_0000);
    lemma_travel_within_a_second(game.left.velocity.y, dt, 0x1000_0000_0000_0000);
    lemma_travel_within_a_second(game.right.velocity.y, dt, 0x1000_0000_0000_0000);
}

/// A tick of at most a second can be computed for every game whose numbers
/// are far from the ends of the range: whose positions and velocities have a
/// magnitude of at most 2^60 length units, and whose scores have room for a
/// point.
pub proof fn lemma_ordinary_ticks_can_be_computed(game: GameModel, dt: int)
    requires
        game.representable(),
        court_within(game, 0x1000_0000_0000_0000),
        pace_within(game, 0x1000_0000_0000_0000),
        game.left.score < u32::MAX,
        game.right.score < u32::MAX,
        0 <= dt <= SCALE,
    ensures
        game.can_step(dt),
{
    if game.screen == Screen::Playing {
        lemma_struck_stays_tame(game);
        lemma_walled_stays_tame(game.struck(), 0x3000_0000_0000_0000);
        lemma_settled_stays_tame(game.struck().walled(), 0x3000_0000_0000_0000);
        lemma_steered_stays_tame(game.struck().walled().settled(), 0x3000_0000_0000_0000);
        lemma_tame_games_can_advance(game.struck().walled().settled().steered(), dt);
    }
}

} // verus!
