//! A tiny widget system: every component renders to a plain description,
//! and a screen renders its components in order. One screen mixes widget
//! kinds through an enum, the other fixes a single kind by a type
//! parameter.

use vstd::prelude::*;
use vstd::string::*;

verus! {

/// What drawing produces: a size and the lines of text shown.
pub struct Drawing {
    pub width: u32,
    pub height: u32,
    pub text: Vec<String>,
}

/// A drawing reduced to its mathematical content, for contracts.
#[verifier::ext_equal]
pub ghost struct DrawingView {
    pub width: u32,
    pub height: u32,
    pub text: Seq<Seq<char>>,
}

impl Drawing {
    /// The drawing's mathematical content.
    pub open spec fn as_view(&self) -> DrawingView {
        DrawingView {
            width: self.width,
            height: self.height,
            text: self.text@.map_values(|s: String| s@),
        }
    }
}

/// Anything that can render itself to a [`Drawing`]. `spec_draw` is the
/// rendering as specification; `draw` must produce exactly it.
pub trait Draw {
    /// The rendering, for contracts.
    spec fn spec_draw(&self) -> DrawingView;

    /// Renders the component.
    fn draw(&self) -> (r: Drawing)
        ensures
            r.as_view() == self.spec_draw(),
    ;
}

/// A push button with a label.
pub struct Button {
    pub width: u32,
    pub height: u32,
    pub label: String,
}

impl Draw for Button {
    open spec fn spec_draw(&self) -> DrawingView {
        DrawingView { width: self.width, height: self.height, text: seq![self.label@] }
    }

    fn draw(&self) -> (r: Drawing)
        ensures
            r.as_view() == self.spec_draw(),
    {
        let mut text: Vec<String> = Vec::new();
        text.push(self.label.clone());
        let r = Drawing { width: self.width, height: self.height, text };
        proof {
            assert(r.as_view() =~= self.spec_draw());
        }
        r
    }
}

/// A selection box offering several options.
pub struct SelectBox {
    pub width: u32,
    pub height: u32,
    pub options: Vec<String>,
}

impl Draw for SelectBox {
    open spec fn spec_draw(&self) -> DrawingView {
        DrawingView {
            width: self.width,
            height: self.height,
            text: self.options@.map_values(|s: String| s@),
        }
    }

    fn draw(&self) -> (r: Drawing)
        ensures
            r.as_view() == self.spec_draw(),
    {
        let mut text: Vec<String> = Vec::new();
        let mut i: usize = 0;
        while i < self.options.len()
            invariant
                i <= self.options@.len(),
                text@.len() == i,
                forall|k: int| 0 <= k < i ==> text@[k]@ == (#[trigger] self.options@[k])@,
            decreases self.options@.len() - i,
        {
            let s = &self.options[i];
            text.push(s.clone());
            i += 1;
        }
        let r = Drawing { width: self.width, height: self.height, text };
        proof {
            assert(r.as_view() =~= self.spec_draw());
        }
        r
    }
}

/// One widget of either kind, so a screen can mix them.
pub enum Component {
    Button(Button),
    SelectBox(SelectBox),
}

impl Draw for Component {
    open spec fn spec_draw(&self) -> DrawingView {
        match self {
            Component::Button(b) => b.spec_draw(),
            Component::SelectBox(s) => s.spec_draw(),
        }
    }

    fn draw(&self) -> (r: Drawing)
        ensures
            r.as_view() == self.spec_draw(),
    {
        match self {
            Component::Button(b) => b.draw(),
            Component::SelectBox(s) => s.draw(),
        }
    }
}

/// A screen of mixed widgets.
pub struct Screen {
    pub components: Vec<Component>,
}

impl Screen {
    /// Renders every component, in order.
    pub fn run(&self) -> (r: Vec<Drawing>)
        ensures
            r@.len() == self.components@.len(),
            forall|k: int|
                0 <= k < r@.len() ==> r@[k].as_view() == (#[trigger] self.components@[k]).spec_draw(),
    {
        let mut r: Vec<Drawing> = Vec::new();
        let mut i: usize = 0;
        while i < self.components.len()
            invariant
                i <= self.components@.len(),
                r@.len() == i,
                forall|k: int|
                    0 <= k < i ==> r@[k].as_view() == (#[trigger] self.components@[k]).spec_draw(),
            decreases self.components@.len() - i,
        {
            let component = &self.components[i];
            r.push(component.draw());
            i += 1;
        }
        r
    }
}

/// A screen of widgets of one fixed kind.
#[allow(non_camel_case_types)]
pub struct Screen_Two<T: Draw> {
    pub components: Vec<T>,
}

impl<T> Screen_Two<T> where T: Draw {
    /// Renders every component, in order.
    pub fn run(&self) -> (r: Vec<Drawing>)
        ensures
            r@.len() == self.components@.len(),
            forall|k: int|
                0 <= k < r@.len() ==> r@[k].as_view() == (#[trigger] self.components@[k]).spec_draw(),
    {
        let mut r: Vec<Drawing> = Vec::new();
        let mut i: usize = 0;
        while i < self.components.len()
            invariant
                i <= self.components@.len(),
                r@.len() == i,
                forall|k: int|
                    0 <= k < i ==> r@[k].as_view() == (#[trigger] self.components@[k]).spec_draw(),
            decreases self.components@.len() - i,
        {
            let component = &self.components[i];
            r.push(component.draw());
            i += 1;
        }
        r
    }
}

} // verus!
