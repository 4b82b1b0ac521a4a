use vstd::prelude::*;

verus! {

/// Where the terminal cursor sits: a column on the command line, or a
/// column/row pair inside the output pane. Horizontal movement never changes
/// the variant; variant changes are the reducer's responsibility.
#[derive(Debug, PartialEq, Eq, Structural, Clone, Copy)]
pub enum Cursor {
    CommandLine(usize),
    OutputPane(usize, usize),
}

impl Cursor {
    /// The horizontal offset, whichever region the cursor is in.
    pub open spec fn col(self) -> int {
        match self {
            Cursor::CommandLine(x) => x as int,
            Cursor::OutputPane(x, _) => x as int,
        }
    }

    pub open spec fn spec_left(self) -> Cursor {
        match self {
            Cursor::CommandLine(x) => Cursor::CommandLine(x.saturating_sub(1)),
            Cursor::OutputPane(x, y) => Cursor::OutputPane(x.saturating_sub(1), y),
        }
    }

    pub open spec fn spec_right(self) -> Cursor {
        match self {
            Cursor::CommandLine(x) => Cursor::CommandLine(x.saturating_add(1)),
            Cursor::OutputPane(x, y) => Cursor::OutputPane(x.saturating_add(1), y),
        }
    }

    pub open spec fn spec_right_capped(self, max: usize) -> Cursor {
        match self {
            Cursor::CommandLine(x) => Cursor::CommandLine(
                if x.saturating_add(1) < max {
                    x.saturating_add(1)
                } else {
                    max
                },
            ),
            Cursor::OutputPane(x, y) => Cursor::OutputPane(
                if x.saturating_add(1) < max {
                    x.saturating_add(1)
                } else {
                    max
                },
                y,
            ),
        }
    }

    /// Saturating decrement of the horizontal offset.
    pub fn left(&mut self)
        ensures
            *final(self) == old(self).spec_left(),
    {
        match self {
            Cursor::CommandLine(x) => *x = x.saturating_sub(1),
            Cursor::OutputPane(x, _) => *x = x.saturating_sub(1),
        }
    }

    /// Saturating increment of the horizontal offset.
    pub fn right(&mut self)
        ensures
            *final(self) == old(self).spec_right(),
    {
        match self {
            Cursor::CommandLine(x) => *x = x.saturating_add(1),
            Cursor::OutputPane(x, _) => *x = x.saturating_add(1),
        }
    }

    /// Increment the horizontal offset, but never beyond `max`.
    pub fn right_capped(&mut self, max: usize)
        ensures
            *final(self) == old(self).spec_right_capped(max),
            final(self).col() <= max,
    {
        match self {
            Cursor::CommandLine(x) => {
                let stepped: usize = x.saturating_add(1);
                *x = if stepped < max {
                    stepped
                } else {
                    max
                };
            },
            Cursor::OutputPane(x, _) => {
                let stepped: usize = x.saturating_add(1);
                *x = if stepped < max {
                    stepped
                } else {
                    max
                };
            },
        }
    }
}

impl Default for Cursor {
    /// A fresh cursor sits at the start of the command line.
    fn default() -> (c: Cursor)
        ensures
            c == Cursor::CommandLine(0usize),
    {
        Cursor::CommandLine(0)
    }
}

} // verus!
