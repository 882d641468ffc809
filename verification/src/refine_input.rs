//! The refine bar that opens inside a result window: what its page posts
//! back, and the per-window table that the result windows poll.

use vstd::prelude::*;
use std::collections::HashMap;
use crate::text::{chars_to_string_range, starts_with, starts_with_chars, str_eq, to_chars};

verus! {

broadcast use vstd::std_specs::hash::group_hash_axioms;

/// The refine bar of one result window.
pub struct RefineInput {
    /// Handle of the bar's child window.
    pub child: isize,
    /// The user submitted `text`.
    pub submitted: bool,
    /// The user dismissed the bar.
    pub cancelled: bool,
    /// The submitted text.
    pub text: String,
}

/// What a message of the bar's page asks for.
#[derive(Clone, Copy, Debug, PartialEq, Eq, Structural)]
pub enum RefineMessage {
    Submitted,
    Cancelled,
    /// Dictation: the transcription preset is started.
    Dictate,
    Ignored,
}

pub open spec fn spec_refine_message(body: Seq<char>) -> RefineMessage {
    if starts_with(body, "submit:"@) {
        RefineMessage::Submitted
    } else if body == "cancel"@ {
        RefineMessage::Cancelled
    } else if body == "mic"@ {
        RefineMessage::Dictate
    } else {
        RefineMessage::Ignored
    }
}

impl RefineInput {
    /// A bar just opened: nothing submitted or cancelled yet.
    pub fn new(child: isize) -> (r: RefineInput)
        ensures
            r.child == child,
            !r.submitted,
            !r.cancelled,
            r.text@ == Seq::<char>::empty(),
    {
        RefineInput { child, submitted: false, cancelled: false, text: String::new() }
    }

    /// Records a message of the bar's page: `submit:<text>` submits the
    /// text, `cancel` dismisses the bar, `mic` asks for dictation.
    pub fn on_message(&mut self, body: &str) -> (m: RefineMessage)
        ensures
            m == spec_refine_message(body@),
            final(self).child == old(self).child,
            m == RefineMessage::Submitted ==> final(self).submitted && final(self).text@ == body@.skip(
                "submit:"@.len() as int,
            ) && final(self).cancelled == old(self).cancelled,
            m == RefineMessage::Cancelled ==> final(self).cancelled && final(self).submitted == old(self).submitted && final(self).text@ == old(self).text@,
            (m == RefineMessage::Dictate || m == RefineMessage::Ignored) ==> final(self).submitted
                == old(self).submitted && final(self).cancelled == old(self).cancelled && final(self).text@ == old(self).text@,
    {
        proof {
            reveal_strlit("submit:");
        }
        let v = to_chars(body);
        if starts_with_chars(&v, "submit:") {
            let t = chars_to_string_range(&v, 7, v.len());
            assert(t@ =~= body@.skip(7));
            self.text = t;
            self.submitted = true;
            RefineMessage::Submitted
        } else if str_eq(body, "cancel") {
            self.cancelled = true;
            RefineMessage::Cancelled
        } else if str_eq(body, "mic") {
            RefineMessage::Dictate
        } else {
            RefineMessage::Ignored
        }
    }

    /// Reads and clears what the user did: whether the text was submitted,
    /// whether the bar was cancelled, and the text. The text is cleared
    /// once read with either flag set, so a second poll reports nothing.
    pub fn poll(&mut self) -> (r: (bool, bool, String))
        ensures
            r.0 == old(self).submitted,
            r.1 == old(self).cancelled,
            r.2@ == old(self).text@,
            !final(self).submitted,
            !final(self).cancelled,
            final(self).child == old(self).child,
            final(self).text@ == (if old(self).submitted || old(self).cancelled {
                Seq::<char>::empty()
            } else {
                old(self).text@
            }),
    {
        let submitted = self.submitted;
        let cancelled = self.cancelled;
        let text = crate::text::owned(self.text.as_str());
        if submitted || cancelled {
            self.text = String::new();
        }
        self.submitted = false;
        self.cancelled = false;
        (submitted, cancelled, text)
    }
}

/// The open refine bars, by the handle of their result window.
pub struct RefineInputs {
    pub inputs: HashMap<isize, RefineInput>,
}

impl RefineInputs {
    pub fn new() -> (r: RefineInputs)
        ensures
            r.inputs@ == Map::<isize, RefineInput>::empty(),
    {
        RefineInputs { inputs: HashMap::new() }
    }

    /// Opens a bar for `parent` with child window `child`, unless one is
    /// open already (then it is only focused). Returns whether one was
    /// open.
    pub fn show_refine_input(&mut self, parent: isize, child: isize) -> (was_open: bool)
        ensures
            was_open == old(self).inputs@.contains_key(parent),
            was_open ==> final(self).inputs@ == old(self).inputs@,
            !was_open ==> final(self).inputs@.dom() == old(self).inputs@.dom().insert(parent)
                && final(self).inputs@[parent].child == child && !final(self).inputs@[parent].submitted && !final(self).inputs@[parent].cancelled && final(self).inputs@[parent].text@.len() == 0 && forall|k: isize|
                k != parent && old(self).inputs@.contains_key(k) ==> final(self).inputs@[k] == old(self).inputs@[k],
    {
        if self.inputs.contains_key(&parent) {
            true
        } else {
            self.inputs.insert(parent, RefineInput::new(child));
            false
        }
    }

    /// Passes a message of `parent`'s bar on to it; a message for a
    /// window without a bar is ignored.
    pub fn message(&mut self, parent: isize, body: &str) -> (m: RefineMessage)
        ensures
            final(self).inputs@.dom() == old(self).inputs@.dom(),
            !old(self).inputs@.contains_key(parent) ==> m == RefineMessage::Ignored
                && final(self).inputs@ == old(self).inputs@,
            old(self).inputs@.contains_key(parent) ==> m == spec_refine_message(body@),
            forall|k: isize|
                k != parent && old(self).inputs@.contains_key(k) ==> final(self).inputs@[k] == old(self).inputs@[k],
    {
        match self.inputs.remove(&parent) {
            Some(mut input) => {
                let m = input.on_message(body);
                self.inputs.insert(parent, input);
                assert(self.inputs@.dom() =~= old(self).inputs@.dom());
                m
            },
            None => RefineMessage::Ignored,
        }
    }

    /// Reads and clears what the user did in `parent`'s bar (see
    /// [`RefineInput::poll`]); nothing for a window without a bar.
    pub fn poll_refine_input(&mut self, parent: isize) -> (r: (bool, bool, String))
        ensures
            final(self).inputs@.dom() == old(self).inputs@.dom(),
            !old(self).inputs@.contains_key(parent) ==> !r.0 && !r.1 && r.2@.len() == 0
                && final(self).inputs@ == old(self).inputs@,
            old(self).inputs@.contains_key(parent) ==> r.0 == old(self).inputs@[parent].submitted
                && r.1 == old(self).inputs@[parent].cancelled && r.2@ == old(self).inputs@[parent].text@ && !final(self).inputs@[parent].submitted && !final(self).inputs@[parent].cancelled,
            old(self).inputs@.contains_key(parent) ==> final(self).inputs@[parent].child == old(self).inputs@[parent].child
                && final(self).inputs@[parent].text@ == (if old(self).inputs@[parent].submitted || old(self).inputs@[parent].cancelled {
                Seq::<char>::empty()
            } else {
                old(self).inputs@[parent].text@
            }),
            forall|k: isize|
                k != parent && old(self).inputs@.contains_key(k) ==> final(self).inputs@[k] == old(self).inputs@[k],
    {
        match self.inputs.remove(&parent) {
            Some(mut input) => {
                let r = input.poll();
                self.inputs.insert(parent, input);
                assert(self.inputs@.dom() =~= old(self).inputs@.dom());
                r
            },
            None => (false, false, String::new()),
        }
    }

    /// Closes `parent`'s bar; returns its child window, to be destroyed.
    pub fn hide_refine_input(&mut self, parent: isize) -> (child: Option<isize>)
        ensures
            final(self).inputs@ == old(self).inputs@.remove(parent),
            match child {
                Some(c) => old(self).inputs@.contains_key(parent) && c == old(self).inputs@[parent].child,
                None => !old(self).inputs@.contains_key(parent),
            },
    {
        match self.inputs.remove(&parent) {
            Some(input) => Some(input.child),
            None => None,
        }
    }

    /// Whether `parent` has its bar open.
    pub fn is_refine_input_active(&self, parent: isize) -> (r: bool)
        ensures
            r == self.inputs@.contains_key(parent),
    {
        self.inputs.contains_key(&parent)
    }

    /// Whether any window has its bar open (a paste then goes to the bar).
    pub fn is_any_refine_active(&self) -> (r: bool)
        ensures
            r == !self.inputs@.is_empty(),
    {
        !self.inputs.is_empty()
    }

    /// The child window of `parent`'s bar, for resizing, raising or
    /// filling it.
    pub fn child_of(&self, parent: isize) -> (r: Option<isize>)
        ensures
            match r {
                Some(c) => self.inputs@.contains_key(parent) && c == self.inputs@[parent].child,
                None => !self.inputs@.contains_key(parent),
            },
    {
        match self.inputs.get(&parent) {
            Some(input) => Some(input.child),
            None => None,
        }
    }
}

/// Height of the refine bar.
pub const REFINE_BAR_HEIGHT: i32 = 40;

/// Where the bar sits in a parent whose client area is `client_right`
/// wide: two pixels from the top left, two pixels from each side.
pub fn refine_bar_rect(client_right: i32) -> (r: (i32, i32, i32, i32))
    requires
        client_right >= i32::MIN + 4,
    ensures
        r == (2i32, 2i32, (client_right - 4) as i32, REFINE_BAR_HEIGHT),
{
    (2, 2, client_right - 4, REFINE_BAR_HEIGHT)
}

} // verus!
