//! The loading screen.

use vstd::prelude::*;

verus! {

/// The state of the loading animation.
#[derive(Debug, Default)]
pub struct Loading {
    index: u8,
}

/// One frame of the loading animation.
#[derive(Clone, Copy, Debug, Default, PartialEq, Eq, Structural)]
pub struct LoadingWidget {
    index: u8,
}

/// The text of frame `index` of the animation, which repeats every six frames.
pub open spec fn frame_text(index: u8) -> Seq<char> {
    let step = index % 6;
    if step == 1 {
        "◰ LOADING.  "@
    } else if step == 2 {
        "◳ LOADING.. "@
    } else if step == 3 {
        "◲ LOADING..."@
    } else if step == 4 {
        "◲ LOADING .."@
    } else if step == 5 {
        "◱ LOADING  ."@
    } else {
        "◰ LOADING   "@
    }
}

impl Loading {
    pub closed spec fn frame(&self) -> u8 {
        self.index
    }

    pub fn new() -> (r: Self)
        ensures
            r.frame() == 0,
    {
        Loading { index: 0 }
    }

    /// The frame to draw now; the animation moves on by one, and starts over
    /// after frame 255.
    pub fn next_frame(&mut self) -> (r: LoadingWidget)
        ensures
            r.frame() == old(self).frame(),
            final(self).frame() == if old(self).frame() == u8::MAX {
                0
            } else {
                old(self).frame() + 1
            },
    {
        let index = self.index;
        self.index = if index == u8::MAX {
            0
        } else {
            index + 1
        };
        LoadingWidget { index }
    }
}

impl LoadingWidget {
    pub closed spec fn frame(&self) -> u8 {
        self.index
    }

    /// The text to draw.
    pub fn text(&self) -> (r: &'static str)
        ensures
            r@ == frame_text(self.frame()),
    {
        let step = self.index % 6;
        if step == 1 {
            "◰ LOADING.  "
        } else if step == 2 {
            "◳ LOADING.. "
        } else if step == 3 {
            "◲ LOADING..."
        } else if step == 4 {
            "◲ LOADING .."
        } else if step == 5 {
            "◱ LOADING  ."
        } else {
            "◰ LOADING   "
        }
    }
}

} // verus!
