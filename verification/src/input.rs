//! Keys, as the engine sees them.

use vstd::prelude::*;

verus! {

/// A key press. The engine reads nothing of a key event but which key it was.
#[derive(Debug, Clone, Copy, PartialEq, Eq, Structural)]
pub enum Key {
    Up,
    Down,
    Left,
    Right,
    Enter,
    /// A character key, as typed: `'w'` and `'W'` are different keys.
    Char(char),
    /// Any other key. The engine ignores it in every mode.
    Other,
}

/// One step on the grid along one axis.
#[derive(Debug, Clone, Copy, PartialEq, Eq, Structural)]
pub enum Direction {
    North,
    South,
    West,
    East,
}

impl Direction {
    /// The change in `x` that a step in this direction makes.
    pub open spec fn dx(self) -> int {
        match self {
            Direction::West => -1,
            Direction::East => 1,
            _ => 0,
        }
    }

    /// The change in `y` that a step in this direction makes. Rows are
    /// counted from the top: north is up the screen, towards row 0.
    pub open spec fn dy(self) -> int {
        match self {
            Direction::North => -1,
            Direction::South => 1,
            _ => 0,
        }
    }
}

impl Direction {
    /// The change in `x` and the change in `y` that a step in this direction
    /// makes.
    pub fn offset(&self) -> (delta: (i64, i64))
        ensures
            delta.0 == self.dx(),
            delta.1 == self.dy(),
    {
        match self {
            Direction::North => (0, -1),
            Direction::South => (0, 1),
            Direction::West => (-1, 0),
            Direction::East => (1, 0),
        }
    }
}

impl Key {
    /// The direction that a movement key stands for: `w a s d` or the arrow
    /// keys.
    pub open spec fn direction(self) -> Option<Direction> {
        match self {
            Key::Up => Some(Direction::North),
            Key::Down => Some(Direction::South),
            Key::Left => Some(Direction::West),
            Key::Right => Some(Direction::East),
            Key::Char(c) => if c == 'w' {
                Some(Direction::North)
            } else if c == 's' {
                Some(Direction::South)
            } else if c == 'a' {
                Some(Direction::West)
            } else if c == 'd' {
                Some(Direction::East)
            } else {
                None
            },
            _ => None,
        }
    }

    /// The attack keys: space and enter.
    pub open spec fn is_attack(self) -> bool {
        self == Key::Enter || self == Key::Char(' ')
    }

    /// The retreat key: `r`.
    pub open spec fn is_retreat(self) -> bool {
        self == Key::Char('r')
    }

    /// The key that uses the consumable held: `e`.
    pub open spec fn is_use_item(self) -> bool {
        self == Key::Char('e')
    }

    /// The direction that a movement key stands for.
    pub fn to_direction(&self) -> (direction: Option<Direction>)
        ensures
            direction == self.direction(),
    {
        match self {
            Key::Up => Some(Direction::North),
            Key::Down => Some(Direction::South),
            Key::Left => Some(Direction::West),
            Key::Right => Some(Direction::East),
            Key::Char(c) => {
                let c: char = *c;
                if c == 'w' {
                    Some(Direction::North)
                } else if c == 's' {
                    Some(Direction::South)
                } else if c == 'a' {
                    Some(Direction::West)
                } else if c == 'd' {
                    Some(Direction::East)
                } else {
                    None
                }
            },
            _ => None,
        }
    }

    /// Whether this is one of the attack keys.
    pub fn attacks(&self) -> (yes: bool)
        ensures
            yes == self.is_attack(),
    {
        match self {
            Key::Enter => true,
            Key::Char(c) => *c == ' ',
            _ => false,
        }
    }

    /// Whether this is the retreat key.
    pub fn retreats(&self) -> (yes: bool)
        ensures
            yes == self.is_retreat(),
    {
        match self {
            Key::Char(c) => *c == 'r',
            _ => false,
        }
    }

    /// Whether this is the key that uses the consumable held.
    pub fn uses_item(&self) -> (yes: bool)
        ensures
            yes == self.is_use_item(),
    {
        match self {
            Key::Char(c) => *c == 'e',
            _ => false,
        }
    }
}

} // verus!
