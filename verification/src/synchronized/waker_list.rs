use vstd::prelude::*;

verus! {

/// The wakers of the operations waiting for the same event, all woken together.
#[derive(Debug)]
pub struct WakerList<W> {
    wakers: Vec<W>,
    /// Whether some waker is registered.
    non_empty: bool,
}

impl<W> View for WakerList<W> {
    type V = Seq<W>;

    closed spec fn view(&self) -> Seq<W> {
        self.wakers@
    }
}

impl<W> WakerList<W> {
    /// Internal consistency of the list.
    pub closed spec fn wf(&self) -> bool {
        self.non_empty == (self.wakers.len() > 0)
    }

    /// Creates an empty list.
    pub fn new() -> (r: Self)
        ensures
            r.wf(),
            r@ == Seq::<W>::empty(),
    {
        WakerList { wakers: Vec::new(), non_empty: false }
    }

    /// Registers a waker.
    pub fn register(&mut self, waker: W)
        requires
            old(self).wf(),
        ensures
            final(self).wf(),
            final(self)@ == old(self)@.push(waker),
    {
        if self.wakers.is_empty() {
            self.non_empty = true;
        }
        self.wakers.push(waker);
    }

    /// Takes all the registered wakers, in registering order, to wake them.
    pub fn wake(&mut self) -> (r: Vec<W>)
        requires
            old(self).wf(),
        ensures
            final(self).wf(),
            r@ == old(self)@,
            final(self)@ == Seq::<W>::empty(),
    {
        if self.non_empty {
            self.non_empty = false;
            self.wake_all()
        } else {
            Vec::new()
        }
    }

    fn wake_all(&mut self) -> (r: Vec<W>)
        ensures
            r@ == old(self)@,
            final(self)@ == Seq::<W>::empty(),
            final(self).non_empty == old(self).non_empty,
    {
        let mut wakers = Vec::new();
        std::mem::swap(&mut self.wakers, &mut wakers);
        wakers
    }
}

impl<W> Default for WakerList<W> {
    fn default() -> (r: Self)
        ensures
            r.wf(),
            r@ == Seq::<W>::empty(),
    {
        Self::new()
    }
}

} // verus!
