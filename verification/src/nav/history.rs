//! Navigation history with back/forward support.

use vstd::prelude::*;

verus! {

/// Abstract state of a [`History`]: the back stack and the forward stack,
/// each listed from the bottom of the stack to its top.
pub struct HistoryView {
    pub back: Seq<String>,
    pub forward: Seq<String>,
}

/// Immutable navigation history with back/forward stacks.
///
/// Every mutation returns a **new** `History` instance. Navigating forward
/// after going back is supported; pushing a new path clears the forward stack
/// (same semantics as a web browser).
#[derive(Debug, Clone, Default)]
pub struct History {
    back_stack: Vec<String>,
    forward_stack: Vec<String>,
}

/// A copy of `v` holding equal strings.
pub fn clone_strings(v: &Vec<String>) -> (r: Vec<String>)
    ensures
        r@ == v@,
{
    let mut out: Vec<String> = Vec::new();
    for i in 0..v.len()
        invariant
            out@ == v@.take(i as int),
    {
        out.push(v[i].clone());
        assert(out@ =~= v@.take(i + 1));
    }
    assert(v@.take(v.len() as int) =~= v@);
    out
}

impl View for History {
    type V = HistoryView;

    closed spec fn view(&self) -> HistoryView {
        HistoryView { back: self.back_stack@, forward: self.forward_stack@ }
    }
}

/// The step that "back" takes: the top of the back stack moves to the forward stack.
pub open spec fn back_step(h: HistoryView) -> Option<(HistoryView, String)> {
    if h.back.len() == 0 {
        None
    } else {
        let p = h.back.last();
        Some((HistoryView { back: h.back.drop_last(), forward: h.forward.push(p) }, p))
    }
}

/// The step that "forward" takes: the top of the forward stack moves to the back stack.
pub open spec fn forward_step(h: HistoryView) -> Option<(HistoryView, String)> {
    if h.forward.len() == 0 {
        None
    } else {
        let p = h.forward.last();
        Some((HistoryView { back: h.back.push(p), forward: h.forward.drop_last() }, p))
    }
}

/// Visiting a new path: it goes on the back stack and the forward stack is emptied.
pub open spec fn push_step(h: HistoryView, path: String) -> HistoryView {
    HistoryView { back: h.back.push(path), forward: Seq::empty() }
}

impl History {
    /// Creates an empty history.
    pub fn new() -> (h: Self)
        ensures
            h@.back == Seq::<String>::empty(),
            h@.forward == Seq::<String>::empty(),
    {
        History { back_stack: Vec::new(), forward_stack: Vec::new() }
    }

    /// A copy of this history with the same stacks.
    pub fn duplicate(&self) -> (h: Self)
        ensures
            h@ == self@,
    {
        History {
            back_stack: clone_strings(&self.back_stack),
            forward_stack: clone_strings(&self.forward_stack),
        }
    }

    /// Pushes `path` onto the back stack and clears the forward stack.
    ///
    /// Returns a new `History`.
    pub fn push(&self, path: String) -> (h: Self)
        ensures
            h@ == push_step(self@, path),
    {
        let mut back_stack = clone_strings(&self.back_stack);
        back_stack.push(path);
        History { back_stack, forward_stack: Vec::new() }
    }

    /// Go back one step. Returns the new History and the path to navigate to,
    /// or `None` if the back stack is empty.
    pub fn go_back(&self) -> (r: Option<(Self, String)>)
        ensures
            r is None <==> back_step(self@) is None,
            r matches Some((h, p)) ==> back_step(self@) == Some((h@, p)),
    {
        if self.back_stack.len() == 0 {
            return None;
        }
        let mut back_stack = clone_strings(&self.back_stack);
        let path = back_stack.pop().unwrap();
        let mut forward_stack = clone_strings(&self.forward_stack);
        forward_stack.push(path.clone());
        let new_history = History { back_stack, forward_stack };
        Some((new_history, path))
    }

    /// Go forward one step. Returns the new History and the path to navigate to,
    /// or `None` if the forward stack is empty.
    pub fn go_forward(&self) -> (r: Option<(Self, String)>)
        ensures
            r is None <==> forward_step(self@) is None,
            r matches Some((h, p)) ==> forward_step(self@) == Some((h@, p)),
    {
        if self.forward_stack.len() == 0 {
            return None;
        }
        let mut forward_stack = clone_strings(&self.forward_stack);
        let path = forward_stack.pop().unwrap();
        let mut back_stack = clone_strings(&self.back_stack);
        back_stack.push(path.clone());
        let new_history = History { back_stack, forward_stack };
        Some((new_history, path))
    }

    /// Returns `true` if there is at least one entry on the back stack.
    pub fn can_go_back(&self) -> (b: bool)
        ensures
            b == (self@.back.len() > 0),
    {
        self.back_stack.len() > 0
    }

    /// Returns `true` if there is at least one entry on the forward stack.
    pub fn can_go_forward(&self) -> (b: bool)
        ensures
            b == (self@.forward.len() > 0),
    {
        self.forward_stack.len() > 0
    }
}

/// Going back and then forward again returns to the same history, and the
/// forward step hands out the path that the back step handed out.
pub proof fn law_back_then_forward(h: HistoryView)
    requires
        back_step(h) is Some,
    ensures
        forward_step(back_step(h).unwrap().0) == Some((h, back_step(h).unwrap().1)),
{
    let p = h.back.last();
    assert(h.back.drop_last().push(p) =~= h.back);
    assert(h.forward.push(p).drop_last() =~= h.forward);
}

/// Going forward and then back again returns to the same history, and the
/// back step hands out the path that the forward step handed out.
pub proof fn law_forward_then_back(h: HistoryView)
    requires
        forward_step(h) is Some,
    ensures
        back_step(forward_step(h).unwrap().0) == Some((h, forward_step(h).unwrap().1)),
{
    let p = h.forward.last();
    assert(h.forward.drop_last().push(p) =~= h.forward);
    assert(h.back.push(p).drop_last() =~= h.back);
}

/// After visiting a path there is nothing to go forward to, and going back
/// hands out that path.
pub proof fn law_push_then_back(h: HistoryView, path: String)
    ensures
        forward_step(push_step(h, path)) is None,
        back_step(push_step(h, path)) matches Some((h2, p)) && p == path && h2.back == h.back,
{
    assert(h.back.push(path).drop_last() =~= h.back);
}

} // verus!
