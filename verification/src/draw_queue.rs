use vstd::prelude::*;

use crate::geometry::CellArea;

verus! {

/// Commands that widgets queued during a frame, waiting for the next render hook.
pub struct DrawQueue<C> {
    commands: Vec<C>,
}

impl<C> View for DrawQueue<C> {
    type V = Seq<C>;

    closed spec fn view(&self) -> Seq<C> {
        self.commands@
    }
}

impl<C> DrawQueue<C> {
    /// Creates an empty queue.
    pub fn new() -> (r: Self)
        ensures
            r@ == Seq::<C>::empty(),
    {
        DrawQueue { commands: Vec::new() }
    }

    /// The number of queued commands.
    pub fn len(&self) -> (r: usize)
        ensures
            r == self@.len(),
    {
        self.commands.len()
    }

    /// True when no command is queued.
    pub fn is_empty(&self) -> (r: bool)
        ensures
            r == (self@.len() == 0),
    {
        self.commands.len() == 0
    }

    /// Appends a command behind those already queued.
    pub fn enqueue(&mut self, command: C)
        ensures
            final(self)@ == old(self)@.push(command),
    {
        self.commands.push(command);
    }

    /// Queues the command of a widget rendered into `area`; a widget whose area holds
    /// no cell queues nothing.  Returns whether the command was queued.
    pub fn submit(&mut self, area: CellArea, command: C) -> (r: bool)
        ensures
            r == !(area.width == 0 || area.height == 0),
            final(self)@ == (if r {
                old(self)@.push(command)
            } else {
                old(self)@
            }),
    {
        if area.is_empty() {
            return false;
        }
        self.enqueue(command);
        true
    }

    /// Hands out every queued command in the order it was queued, leaving the queue
    /// empty.
    pub fn drain_queue(&mut self) -> (r: Vec<C>)
        ensures
            r@ == old(self)@,
            final(self)@ == Seq::<C>::empty(),
    {
        let mut taken: Vec<C> = Vec::new();
        std::mem::swap(&mut taken, &mut self.commands);
        taken
    }
}

} // verus!
