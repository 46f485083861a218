use vstd::prelude::*;

verus! {

/// Holder of the handler that currently receives a worker's outputs.
///
/// The handler sits behind a reference count, so that a reader takes out a
/// shared copy and holds no borrow of the slot while it runs the handler.
pub struct CallbackSlot<H> {
    current: std::rc::Rc<H>,
}

impl<H> CallbackSlot<H> {
    /// The handler that the slot holds now.
    pub closed spec fn handler(&self) -> H {
        *self.current
    }

    /// A slot that holds `initial`.
    pub fn new(initial: H) -> (s: Self)
        ensures
            s.handler() == initial,
    {
        CallbackSlot { current: std::rc::Rc::new(initial) }
    }

    /// Puts `handler` in place of the one held, whole.
    pub fn replace(&mut self, handler: H)
        ensures
            final(self).handler() == handler,
    {
        self.current = std::rc::Rc::new(handler);
    }

    /// A shared copy of the handler held now; the slot stays free to be
    /// replaced while the copy is in use.
    pub fn read_and_clone(&self) -> (r: std::rc::Rc<H>)
        ensures
            *r == self.handler(),
    {
        self.current.clone()
    }
}

} // verus!
