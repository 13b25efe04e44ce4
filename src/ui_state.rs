use vstd::prelude::*;

verus! {

/// Panel state kept between runs.
pub struct State {
    pub heading: String,
    pub clicked: bool,
}

impl State {
    /// Fresh state: empty heading, not clicked.
    pub fn new() -> (s: State)
        ensures
            s.heading@ == Seq::<char>::empty(),
            !s.clicked,
    {
        State { heading: String::new(), clicked: false }
    }

    /// Flips the click toggle; the heading is kept.
    pub fn toggle_clicked(&mut self)
        ensures
            final(self).clicked == !old(self).clicked,
            final(self).heading@ == old(self).heading@,
    {
        self.clicked = !self.clicked;
    }
}

impl Default for State {
    fn default() -> (s: State)
        ensures
            s.heading@ == Seq::<char>::empty(),
            !s.clicked,
    {
        State::new()
    }
}

} // verus!
