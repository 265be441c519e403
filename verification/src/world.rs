//! The entity store: everything that lives in one game.

use vstd::prelude::*;
use crate::background::Background;
use crate::bird::Bird;
use crate::pipe::Pipe;
use crate::text::text_of;

verus! {

/// A text overlay that can be hidden.
#[derive(Clone, Debug)]
pub struct Label {
    /// The text shown.
    pub text: String,
    /// Whether the overlay is hidden.
    pub hidden: bool,
}

/// A [`Label`] as a value.
pub struct LabelView {
    /// The text shown.
    pub text: Seq<char>,
    /// Whether the overlay is hidden.
    pub hidden: bool,
}

impl View for Label {
    type V = LabelView;

    open spec fn view(&self) -> LabelView {
        LabelView { text: self.text@, hidden: self.hidden }
    }
}

/// The value of an optional label.
pub open spec fn label_of(l: Option<Label>) -> Option<LabelView> {
    match l {
        Some(l) => Some(l@),
        None => None,
    }
}

/// The entities of one game.
#[derive(Clone, Debug)]
pub struct World {
    /// The scrolling layers.
    pub backgrounds: Vec<Background>,
    /// The bird, while a session is played.
    pub bird: Option<Bird>,
    /// The pipes on screen, oldest first.
    pub pipes: Vec<Pipe>,
    /// The text of the score display, once there is one.
    pub score_text: Option<String>,
    /// The title overlay, once it is known.
    pub title: Option<Label>,
    /// The overlay below the title, once it is known.
    pub sub_title: Option<Label>,
}

/// A [`World`] as a value.
pub struct WorldView {
    /// The scrolling layers.
    pub backgrounds: Seq<Background>,
    /// The bird, while a session is played.
    pub bird: Option<Bird>,
    /// The pipes on screen, oldest first.
    pub pipes: Seq<Pipe>,
    /// The text of the score display, once there is one.
    pub score_text: Option<Seq<char>>,
    /// The title overlay, once it is known.
    pub title: Option<LabelView>,
    /// The overlay below the title, once it is known.
    pub sub_title: Option<LabelView>,
}

impl View for World {
    type V = WorldView;

    open spec fn view(&self) -> WorldView {
        WorldView {
            backgrounds: self.backgrounds@,
            bird: self.bird,
            pipes: self.pipes@,
            score_text: text_of(self.score_text),
            title: label_of(self.title),
            sub_title: label_of(self.sub_title),
        }
    }
}

/// A world with nothing in it.
pub open spec fn empty_world() -> WorldView {
    WorldView {
        backgrounds: Seq::empty(),
        bird: None,
        pipes: Seq::empty(),
        score_text: None,
        title: None,
        sub_title: None,
    }
}

/// Every scrolling layer of `w` has its offset within one period.
pub open spec fn layers_wf(w: WorldView) -> bool {
    forall|i: int| 0 <= i < w.backgrounds.len() ==> (#[trigger] w.backgrounds[i]).wf()
}

/// The label `l` with its visibility set.
pub open spec fn with_hidden(l: Option<LabelView>, hidden: bool) -> Option<LabelView> {
    match l {
        Some(l) => Some(LabelView { text: l.text, hidden }),
        None => None,
    }
}

/// What a score display reads once `text` has been written to it, if there is one.
pub open spec fn rewritten(display: Option<Seq<char>>, text: Seq<char>) -> Option<Seq<char>> {
    match display {
        Some(_) => Some(text),
        None => None,
    }
}

/// What a score display read, or `0` where there is none.
pub open spec fn last_shown(display: Option<Seq<char>>) -> Seq<char> {
    match display {
        Some(t) => t,
        None => seq!['0'],
    }
}

impl Label {
    /// A visible label reading `text`.
    pub fn new(text: String) -> (l: Label)
        ensures
            l@ == (LabelView { text: text@, hidden: false }),
    {
        Label { text, hidden: false }
    }
}

impl World {
    /// A world with nothing in it.
    pub fn new() -> (w: World)
        ensures
            w@ == empty_world(),
    {
        World {
            backgrounds: Vec::new(),
            bird: None,
            pipes: Vec::new(),
            score_text: None,
            title: None,
            sub_title: None,
        }
    }

    /// Hides or shows the title and the overlay below it, where they are known.
    pub fn set_titles_hidden(&mut self, hidden: bool)
        ensures
            final(self)@ == (WorldView {
                title: with_hidden(old(self)@.title, hidden),
                sub_title: with_hidden(old(self)@.sub_title, hidden),
                ..old(self)@
            }),
    {
        match &mut self.title {
            Some(l) => {
                l.hidden = hidden;
            },
            None => {},
        }
        match &mut self.sub_title {
            Some(l) => {
                l.hidden = hidden;
            },
            None => {},
        }
    }

    /// Writes `text` to the score display and returns what it read before;
    /// where there is no display, returns `0` and changes nothing.
    pub fn set_score_font(&mut self, text: &str) -> (last: String)
        ensures
            last@ == last_shown(old(self)@.score_text),
            final(self)@ == (WorldView {
                score_text: rewritten(old(self)@.score_text, text@),
                ..old(self)@
            }),
    {
        match self.score_text.take() {
            Some(last) => {
                self.score_text = Some(String::from_str(text));
                last
            },
            None => {
                proof {
                    reveal_strlit("0");
                }
                let last = String::from_str("0");
                assert(last@ =~= seq!['0']);
                last
            },
        }
    }
}

} // verus!
