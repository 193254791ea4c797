//! Draw instructions and the list that collects them.
//!
//! Rendering never touches a terminal: it appends instructions to a canvas,
//! and whoever owns the terminal carries them out in order.

use crate::colors::Color;
use vstd::prelude::*;
use vstd::string::*;

verus! {

/// One instruction to the terminal.
#[derive(Debug, Clone, PartialEq, Eq)]
pub enum DrawOp {
    /// Put the cursor at column `0`, row `1`.
    MoveTo(u16, u16),
    SetForegroundColor(Color),
    SetBackgroundColor(Color),
    /// Write the text at the cursor.
    Print(String),
}

/// What a `DrawOp` says, as a mathematical value.
pub enum Draw {
    MoveTo(u16, u16),
    Foreground(Color),
    Background(Color),
    Print(Seq<char>),
}

impl View for DrawOp {
    type V = Draw;

    open spec fn view(&self) -> Draw {
        match *self {
            DrawOp::MoveTo(x, y) => Draw::MoveTo(x, y),
            DrawOp::SetForegroundColor(c) => Draw::Foreground(c),
            DrawOp::SetBackgroundColor(c) => Draw::Background(c),
            DrawOp::Print(text) => Draw::Print(text@),
        }
    }
}

/// Appending lists of instructions can be regrouped.
pub proof fn lemma_regroup(a: Seq<Draw>, b: Seq<Draw>, c: Seq<Draw>)
    ensures
        (a + b) + c == a + (b + c),
{
    assert((a + b) + c =~= a + (b + c));
}

/// An ordered list of draw instructions.
pub struct Canvas {
    pub ops: Vec<DrawOp>,
}

impl View for Canvas {
    type V = Seq<Draw>;

    open spec fn view(&self) -> Seq<Draw> {
        Seq::new(self.ops@.len(), |i: int| self.ops@[i]@)
    }
}

impl Canvas {
    /// An empty canvas.
    pub fn new() -> (r: Self)
        ensures
            r@ == Seq::<Draw>::empty(),
    {
        let r = Canvas { ops: Vec::new() };
        proof {
            assert(r@ =~= Seq::<Draw>::empty());
        }
        r
    }

    /// Appends one instruction.
    pub fn push(&mut self, op: DrawOp)
        ensures
            final(self)@ == old(self)@.push(op@),
    {
        self.ops.push(op);
        proof {
            assert(self@ =~= old(self)@.push(op@));
        }
    }

    /// Appends the instruction to put the cursor at column `x`, row `y`.
    pub fn move_to(&mut self, x: u16, y: u16)
        ensures
            final(self)@ == old(self)@.push(Draw::MoveTo(x, y)),
    {
        self.push(DrawOp::MoveTo(x, y));
    }

    /// Appends the instruction to write in `color` from here on.
    pub fn foreground(&mut self, color: Color)
        ensures
            final(self)@ == old(self)@.push(Draw::Foreground(color)),
    {
        self.push(DrawOp::SetForegroundColor(color));
    }

    /// Appends the instruction to write on `color` from here on.
    pub fn background(&mut self, color: Color)
        ensures
            final(self)@ == old(self)@.push(Draw::Background(color)),
    {
        self.push(DrawOp::SetBackgroundColor(color));
    }

    /// Appends the instruction to write `text` at the cursor.
    pub fn print(&mut self, text: String)
        ensures
            final(self)@ == old(self)@.push(Draw::Print(text@)),
    {
        self.push(DrawOp::Print(text));
    }

    /// Appends the instruction to write a copy of `text` at the cursor.
    pub fn print_str(&mut self, text: &str)
        ensures
            final(self)@ == old(self)@.push(Draw::Print(text@)),
    {
        self.push(DrawOp::Print(String::from_str(text)));
    }

    /// Number of instructions collected.
    pub fn len(&self) -> (n: usize)
        ensures
            n == self@.len(),
    {
        self.ops.len()
    }
}

} // verus!
