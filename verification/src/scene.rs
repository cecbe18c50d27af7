//! What a frame is made of: the figures handed to a graphics backend.

use vstd::prelude::*;

verus! {

/// The character for the decimal digit `d`.
pub open spec fn digit(d: nat) -> char {
    if d == 0 {
        '0'
    } else if d == 1 {
        '1'
    } else if d == 2 {
        '2'
    } else if d == 3 {
        '3'
    } else if d == 4 {
        '4'
    } else if d == 5 {
        '5'
    } else if d == 6 {
        '6'
    } else if d == 7 {
        '7'
    } else if d == 8 {
        '8'
    } else {
        '9'
    }
}

/// The decimal numeral for `n`, without leading zeros.
pub open spec fn decimal(n: nat) -> Seq<char>
    decreases n,
{
    if n < 10 {
        seq![digit(n)]
    } else {
        decimal(n / 10).push(digit(n % 10))
    }
}

/// The decimal digit `d` as a text of one character.
fn digit_text(d: u32) -> (s: &'static str)
    requires
        d < 10,
    ensures
        s@ == seq![digit(d as nat)],
{
    proof {
        reveal_strlit("0");
        reveal_strlit("1");
        reveal_strlit("2");
        reveal_strlit("3");
        reveal_strlit("4");
        reveal_strlit("5");
        reveal_strlit("6");
        reveal_strlit("7");
        reveal_strlit("8");
        reveal_strlit("9");
    }
    if d == 0 {
        "0"
    } else if d == 1 {
        "1"
    } else if d == 2 {
        "2"
    } else if d == 3 {
        "3"
    } else if d == 4 {
        "4"
    } else if d == 5 {
        "5"
    } else if d == 6 {
        "6"
    } else if d == 7 {
        "7"
    } else if d == 8 {
        "8"
    } else {
        "9"
    }
}

/// Writes `n` in decimal.
pub fn numeral(n: u32) -> (s: String)
    ensures
        s@ == decimal(n as nat),
    decreases n,
{
    if n < 10 {
        String::from_str(digit_text(n))
    } else {
        let mut s = numeral(n / 10);
        s.append(digit_text(n % 10));
        s
    }
}

/// A piece of text the game shows.
#[derive(Clone, Copy, PartialEq, Eq, Structural, Debug)]
pub enum Label {
    /// The invitation to start, shown before the first round.
    StartPrompt,
    /// The announcement of the winner.
    Winner { player: u8 },
    /// The invitation to play another round.
    RestartPrompt,
    /// A player's running score.
    Score { player: u8, points: u32 },
}

impl View for Label {
    type V = Seq<char>;

    /// The characters of the text.
    open spec fn view(&self) -> Seq<char> {
        match *self {
            Label::StartPrompt => "Press SPACE To Play PONG!"@,
            Label::Winner { player } => "Player "@ + decimal(player as nat) + " Has Won!"@,
            Label::RestartPrompt => "Press SPACE To Play Again"@,
            Label::Score { player, points } => "Player "@ + decimal(player as nat) + ": "@
                + decimal(points as nat),
        }
    }
}

impl Label {
    /// The text as a string.
    pub fn text(&self) -> (s: String)
        ensures
            s@ == self@,
    {
        match *self {
            Label::StartPrompt => String::from_str("Press SPACE To Play PONG!"),
            Label::Winner { player } => {
                let mut s = String::from_str("Player ");
                s.append(numeral(player as u32).as_str());
                s.append(" Has Won!");
                s
            },
            Label::RestartPrompt => String::from_str("Press SPACE To Play Again"),
            Label::Score { player, points } => {
                let mut s = String::from_str("Player ");
                s.append(numeral(player as u32).as_str());
                s.append(": ");
                s.append(numeral(points).as_str());
                s
            },
        }
    }
}

/// A figure of a frame in exact integers: where it goes and how large it is,
/// in length units, and for text the characters and the font size.
pub enum Figure {
    Rectangle { x: int, y: int, width: int, height: int },
    Ellipse { x: int, y: int, width: int, height: int },
    Text { content: Seq<char>, size: nat, x: int, y: int },
}

/// A figure for the graphics backend to draw. Positions and sizes are in
/// length units; `x` and `y` are the top-left corner of a rectangle or of
/// the box around an ellipse, and the start of the baseline of a text.
#[derive(Clone, Copy, PartialEq, Eq, Structural, Debug)]
pub enum Drawable {
    Rectangle { x: i64, y: i64, width: i64, height: i64 },
    Ellipse { x: i64, y: i64, width: i64, height: i64 },
    Text { label: Label, size: u32, x: i64, y: i64 },
}

impl View for Drawable {
    type V = Figure;

    open spec fn view(&self) -> Figure {
        match *self {
            Drawable::Rectangle { x, y, width, height } => Figure::Rectangle {
                x: x as int,
                y: y as int,
                width: width as int,
                height: height as int,
            },
            Drawable::Ellipse { x, y, width, height } => Figure::Ellipse {
                x: x as int,
                y: y as int,
                width: width as int,
                height: height as int,
            },
            Drawable::Text { label, size, x, y } => Figure::Text {
                content: label@,
                size: size as nat,
                x: x as int,
                y: y as int,
            },
        }
    }
}

} // verus!
