use crate::action::Action;
use vstd::prelude::*;

verus! {

/// Mathematical view of one rebase-todo entry.
pub struct LineView {
    pub action: Action,
    pub hash: Seq<char>,
    pub comment: Seq<char>,
}

/// One entry in the editable rebase-todo list: an action, the short commit
/// hash it applies to, and the commit's subject text.  The window only reads
/// it; edits are the controller's business.
pub struct Line {
    action: Action,
    hash: String,
    comment: String,
}

impl View for Line {
    type V = LineView;

    closed spec fn view(&self) -> LineView {
        LineView { action: self.action, hash: self.hash@, comment: self.comment@ }
    }
}

impl DeepView for Line {
    type V = LineView;

    open spec fn deep_view(&self) -> LineView {
        self.view()
    }
}

impl Line {
    pub fn new(action: Action, hash: String, comment: String) -> (r: Line)
        ensures
            r@ == (LineView { action, hash: hash@, comment: comment@ }),
    {
        Line { action, hash, comment }
    }

    pub fn get_action(&self) -> (r: &Action)
        ensures
            *r == self@.action,
    {
        &self.action
    }

    pub fn get_hash(&self) -> (r: &String)
        ensures
            r@ == self@.hash,
    {
        &self.hash
    }

    pub fn get_comment(&self) -> (r: &String)
        ensures
            r@ == self@.comment,
    {
        &self.comment
    }
}

} // verus!
