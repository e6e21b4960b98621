//! Loading widget for TUI display: a message with an animated border shown
//! while the backend starts.
use vstd::prelude::*;

verus! {

/// Border style of the loading widget.
#[derive(Clone, Copy, Debug, PartialEq, Eq, Structural)]
pub enum LoadingBorder {
    Plain,
    Rounded,
    Double,
    Thick,
}

/// Widget that displays a loading message with animated border
#[derive(Clone, Debug)]
pub struct LoadingWidget {
    /// Message to display to the user
    message: String,
    /// Current animation frame for the border
    animation_frame: usize,
}

/// Title at animation frame `frame`: `Loading` followed by 0 to 3 dots,
/// one more every 10 frames.
pub open spec fn title_spec(frame: nat) -> Seq<char> {
    "Loading"@ + Seq::new(((frame / 10) % 4) as nat, |i: int| '.')
}

/// Border at animation frame `frame`, changing every 5 frames.
pub open spec fn border_spec(frame: nat) -> LoadingBorder {
    let k = (frame / 5) % 4;
    if k == 0 {
        LoadingBorder::Plain
    } else if k == 1 {
        LoadingBorder::Rounded
    } else if k == 2 {
        LoadingBorder::Double
    } else {
        LoadingBorder::Thick
    }
}

impl LoadingWidget {
    /// The message shown.
    pub closed spec fn text(&self) -> Seq<char> {
        self.message@
    }

    /// The animation frame.
    pub closed spec fn frame_index(&self) -> nat {
        self.animation_frame as nat
    }

    /// Create a new loading widget with custom message and animation frame
    pub fn new(message: String, animation_frame: usize) -> (w: Self)
        ensures
            w.text() == message@,
            w.frame_index() == animation_frame,
    {
        Self { message, animation_frame }
    }

    /// Create a loading widget with custom message
    pub fn with_message(message: String) -> (w: Self)
        ensures
            w.text() == message@,
            w.frame_index() == 0,
    {
        Self { message, animation_frame: 0 }
    }

    /// Set the animation frame for border animation
    pub fn frame(self, frame: usize) -> (w: Self)
        ensures
            w.text() == self.text(),
            w.frame_index() == frame,
    {
        let mut w = self;
        w.animation_frame = frame;
        w
    }

    /// Set a custom message
    pub fn message(self, message: String) -> (w: Self)
        ensures
            w.text() == message@,
            w.frame_index() == self.frame_index(),
    {
        let mut w = self;
        w.message = message;
        w
    }

    /// The message shown
    pub fn message_text(&self) -> (r: &str)
        ensures
            r@ == self.text(),
    {
        self.message.as_str()
    }

    /// The animation frame
    pub fn animation_frame(&self) -> (r: usize)
        ensures
            r == self.frame_index(),
    {
        self.animation_frame
    }

    /// Animated title
    pub fn title(&self) -> (r: String)
        ensures
            r@ == title_spec(self.frame_index()),
    {
        let dots = (self.animation_frame / 10) % 4;
        let mut t = String::from_str("Loading");
        let mut i: usize = 0;
        while i < dots
            invariant
                dots == (self.frame_index() / 10) % 4,
                i <= dots,
                t@ == "Loading"@ + Seq::new(i as nat, |j: int| '.'),
            decreases dots - i,
        {
            t.append(".");
            proof {
                reveal_strlit(".");
                assert(Seq::new((i + 1) as nat, |j: int| '.') =~= Seq::new(i as nat, |j: int| '.') + "."@);
            }
            i = i + 1;
        }
        t
    }

    /// Animated border style
    pub fn border(&self) -> (r: LoadingBorder)
        ensures
            r == border_spec(self.frame_index()),
    {
        let k = (self.animation_frame / 5) % 4;
        if k == 0 {
            LoadingBorder::Plain
        } else if k == 1 {
            LoadingBorder::Rounded
        } else if k == 2 {
            LoadingBorder::Double
        } else {
            LoadingBorder::Thick
        }
    }
}

impl Default for LoadingWidget {
    fn default() -> (w: Self)
        ensures
            w.text() == "Please wait, backend is starting..."@,
            w.frame_index() == 0,
    {
        Self { message: String::from_str("Please wait, backend is starting..."), animation_frame: 0 }
    }
}

/// The title repeats every 40 frames and the border every 20.
pub proof fn lemma_animation_periods(frame: nat)
    ensures
        title_spec(frame + 40) == title_spec(frame),
        border_spec(frame + 20) == border_spec(frame),
{
    assert((frame + 40) / 10 == frame / 10 + 4) by (nonlinear_arith);
    assert((frame + 20) / 5 == frame / 5 + 4) by (nonlinear_arith);
}

} // verus!
