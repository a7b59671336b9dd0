use vstd::prelude::*;
use crate::method::ScratchPadMethod;
use crate::pad::ScratchPad;

verus! {

/// The glyph on the close control of the current pad: a cross while idle,
/// a check mark once a delete is armed.
pub open spec fn glyph(armed: bool) -> Seq<char> {
    if armed {
        "\u{2705}"@
    } else {
        "\u{274c}"@
    }
}

/// What the application state is, as a value.
pub struct AppState {
    /// The pads, in sidebar order; a pad is referred to by its position.
    pub pads: Seq<ScratchPad>,
    /// Position of the current pad, if any.
    pub selection: Option<int>,
    /// Whether the next press of the close control deletes.
    pub armed: bool,
}

impl AppState {
    /// The state at start-up: no pads, no selection, nothing armed.
    pub open spec fn initial() -> AppState {
        AppState { pads: Seq::empty(), selection: None, armed: false }
    }

    /// The selection, if any, names a pad that exists.
    pub open spec fn wf(self) -> bool {
        match self.selection {
            Some(i) => 0 <= i < self.pads.len(),
            None => true,
        }
    }

    /// Position of the current pad, where the selection resolves to one.
    pub open spec fn current(self) -> Option<int> {
        match self.selection {
            Some(i) => if 0 <= i < self.pads.len() {
                Some(i)
            } else {
                None
            },
            None => None,
        }
    }

    /// The pad the detail panel shows.
    pub open spec fn detail(self) -> Option<ScratchPad> {
        match self.current() {
            Some(i) => Some(self.pads[i]),
            None => None,
        }
    }

    /// After the "new pad" action: a fresh pad `p` is appended.
    pub open spec fn created(self, p: ScratchPad) -> AppState {
        AppState { pads: self.pads.push(p), ..self }
    }

    /// After a click on the label of the pad at `index`: the pad becomes
    /// current, unless it does not exist or already is current.
    pub open spec fn selected(self, index: int) -> AppState {
        if 0 <= index < self.pads.len() && self.selection != Some(index) {
            AppState { selection: Some(index), ..self }
        } else {
            self
        }
    }

    /// After a press of the close control of the current pad: the first press
    /// arms, the second removes the pad, clears the selection and disarms.
    /// Without a current pad there is no close control, and nothing changes.
    pub open spec fn close_pressed(self) -> AppState {
        match self.current() {
            Some(i) => if self.armed {
                AppState { pads: self.pads.remove(i), selection: None, armed: false }
            } else {
                AppState { armed: true, ..self }
            },
            None => self,
        }
    }

    /// After the method selector picks `m` for the current pad.
    pub open spec fn method_set(self, m: ScratchPadMethod) -> AppState {
        match self.current() {
            Some(i) => AppState { pads: self.pads.update(i, self.pads[i].with_method(m)), ..self },
            None => self,
        }
    }

    /// After the URL field of the current pad is edited to `url`.
    pub open spec fn url_set(self, url: String) -> AppState {
        match self.current() {
            Some(i) => AppState { pads: self.pads.update(i, self.pads[i].with_url(url)), ..self },
            None => self,
        }
    }
}

/// The application shell: the pads, the current selection and the state of
/// the two-step delete.
pub struct App {
    scratchpads: Vec<ScratchPad>,
    current_scratchpad: Option<usize>,
    confirm_delete: bool,
}

impl View for App {
    type V = AppState;

    closed spec fn view(&self) -> AppState {
        AppState {
            pads: self.scratchpads@,
            selection: match self.current_scratchpad {
                Some(i) => Some(i as int),
                None => None,
            },
            armed: self.confirm_delete,
        }
    }
}

impl App {
    /// An application with no pads.
    pub fn new() -> (r: App)
        ensures
            r@ == AppState::initial(),
    {
        let r = App { scratchpads: Vec::new(), current_scratchpad: None, confirm_delete: false };
        assert(r@.pads =~= Seq::empty());
        r
    }

    /// The pads, in sidebar order.
    pub fn scratchpads(&self) -> (r: &Vec<ScratchPad>)
        ensures
            r@ == self@.pads,
    {
        &self.scratchpads
    }

    /// Position of the current pad, as it is held.
    pub fn current_scratchpad(&self) -> (r: Option<usize>)
        ensures
            match r {
                Some(i) => self@.selection == Some(i as int),
                None => self@.selection is None,
            },
    {
        self.current_scratchpad
    }

    /// Whether a delete is armed.
    pub fn confirm_delete(&self) -> (r: bool)
        ensures
            r == self@.armed,
    {
        self.confirm_delete
    }

    /// The glyph to draw on the close control.
    pub fn close_button(&self) -> (r: &'static str)
        ensures
            r@ == glyph(self@.armed),
    {
        if self.confirm_delete {
            "\u{2705}"
        } else {
            "\u{274c}"
        }
    }

    /// Position of the current pad, where the selection names one that exists.
    fn current_index(&self) -> (r: Option<usize>)
        ensures
            match r {
                Some(i) => self@.current() == Some(i as int),
                None => self@.current() is None,
            },
    {
        match self.current_scratchpad {
            Some(i) => if i < self.scratchpads.len() {
                Some(i)
            } else {
                None
            },
            None => None,
        }
    }

    /// The pad the detail panel shows, if any.
    pub fn current_pad(&self) -> (r: Option<&ScratchPad>)
        ensures
            match r {
                Some(p) => self@.detail() == Some(*p),
                None => self@.detail() is None,
            },
    {
        match self.current_index() {
            Some(i) => Some(&self.scratchpads[i]),
            None => None,
        }
    }

    /// Appends a new, empty pad; the selection and the delete state stay.
    pub fn create_pad(&mut self)
        ensures
            exists|p: ScratchPad| p.is_fresh() && final(self)@ == old(self)@.created(p),
    {
        let p = ScratchPad::new();
        self.scratchpads.push(p);
        assert(self@ == old(self)@.created(p));
    }

    /// Handles a click on the label of the pad at `index`.
    pub fn select_pad(&mut self, index: usize)
        ensures
            final(self)@ == old(self)@.selected(index as int),
    {
        if index < self.scratchpads.len() && self.current_scratchpad != Some(index) {
            self.current_scratchpad = Some(index);
        }
    }

    /// Handles a press of the close control of the current pad. Returns the
    /// pad that was removed, if this press removed one.
    pub fn press_close(&mut self) -> (r: Option<ScratchPad>)
        ensures
            final(self)@ == old(self)@.close_pressed(),
            match r {
                Some(p) => old(self)@.armed && old(self)@.detail() == Some(p),
                None => !(old(self)@.armed && old(self)@.current() is Some),
            },
    {
        match self.current_index() {
            Some(i) => if self.confirm_delete {
                let p = self.scratchpads.remove(i);
                self.current_scratchpad = None;
                self.confirm_delete = false;
                Some(p)
            } else {
                self.confirm_delete = true;
                None
            },
            None => None,
        }
    }

    /// Sets the method of the current pad, if there is one.
    pub fn set_method(&mut self, m: ScratchPadMethod)
        ensures
            final(self)@ == old(self)@.method_set(m),
    {
        match self.current_index() {
            Some(i) => {
                self.scratchpads[i].method = m;
            },
            None => {},
        }
    }

    /// Sets the URL of the current pad, if there is one.
    pub fn set_url(&mut self, url: String)
        ensures
            final(self)@ == old(self)@.url_set(url),
    {
        match self.current_index() {
            Some(i) => {
                self.scratchpads[i].url = url;
            },
            None => {},
        }
    }
}

} // verus!
