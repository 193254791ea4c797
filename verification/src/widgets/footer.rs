//! The key hints on the last row.

use crate::canvas::{Canvas, Draw};
use crate::colors::ColorScheme;
use crate::layout::Rect;
use crate::text::{fit, fitted};
use vstd::prelude::*;

verus! {

/// The key hints, as one line.
pub open spec fn key_hints() -> Seq<char> {
    "q:quit ↑↓:navigate s:sort /:filter c:columns r:refresh ?:help k:kill"@
}

/// Footer widget for the key hints.
pub struct Footer;

impl Footer {
    /// What the footer draws in `area`: nothing without a row, else the key
    /// hints in the muted colour, cut or filled to the width of the area.
    pub open spec fn drawn(area: Rect, colors: ColorScheme) -> Seq<Draw> {
        if area.height == 0 {
            Seq::empty()
        } else {
            seq![
                Draw::MoveTo(area.x, area.y),
                Draw::Foreground(colors.muted),
                Draw::Background(colors.background),
                Draw::Print(fitted(key_hints(), area.width as nat)),
            ]
        }
    }

    /// Draws the footer into `area`.
    pub fn render(&self, canvas: &mut Canvas, area: Rect, colors: &ColorScheme)
        ensures
            final(canvas)@ == old(canvas)@ + Self::drawn(area, *colors),
    {
        if area.height == 0 {
            proof {
                assert(canvas@ =~= old(canvas)@ + Self::drawn(area, *colors));
            }
            return ;
        }
        canvas.move_to(area.x, area.y);
        canvas.foreground(colors.muted);
        canvas.background(colors.background);
        let keybinds = "q:quit ↑↓:navigate s:sort /:filter c:columns r:refresh ?:help k:kill";
        canvas.print(fit(keybinds, area.width as usize));
        proof {
            assert(canvas@ =~= old(canvas)@ + Self::drawn(area, *colors));
        }
    }
}

} // verus!
