use vstd::prelude::*;

verus! {

/// The stack of views that menu navigation has left: a menu request pushes the
/// view it leaves, "Back" pops the latest one.
#[derive(Debug)]
pub struct ViewHistory<T> {
    entries: Vec<T>,
}

impl<T> ViewHistory<T> {
    /// The views left so far, oldest first.
    pub closed spec fn views(self) -> Seq<T> {
        self.entries@
    }

    /// An empty history.
    pub fn new() -> (h: Self)
        ensures
            h.views() == Seq::<T>::empty(),
    {
        ViewHistory { entries: Vec::new() }
    }

    /// Number of views to go back through.
    pub fn len(&self) -> (n: usize)
        ensures
            n == self.views().len(),
    {
        self.entries.len()
    }

    /// Records a menu request made from view `current`: the view is kept to come back
    /// to when the request moves the camera (`moves`: the target differs from `current`).
    pub fn request(&mut self, current: T, moves: bool)
        ensures
            final(self).views() == if moves {
                old(self).views().push(current)
            } else {
                old(self).views()
            },
    {
        if moves {
            self.entries.push(current);
        }
    }

    /// Takes the latest view left, if any.
    pub fn back(&mut self) -> (r: Option<T>)
        ensures
            old(self).views().len() > 0 ==> r == Some(old(self).views().last())
                && final(self).views() == old(self).views().drop_last(),
            old(self).views().len() == 0 ==> r is None && final(self).views() == old(self).views(),
    {
        self.entries.pop()
    }
}

impl<T> Default for ViewHistory<T> {
    fn default() -> (h: Self)
        ensures
            h.views() == Seq::<T>::empty(),
    {
        ViewHistory::new()
    }
}

} // verus!
