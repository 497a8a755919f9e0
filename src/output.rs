use vstd::prelude::*;

verus! {

/// Whether `pair` is the pair that a draw writes into when `open` is what the
/// slot held: an open pair is always continued.
pub open spec fn continues<B, T>(open: Option<(B, T)>, pair: (B, T)) -> bool {
    open.is_some() ==> pair == open.unwrap()
}

/// What a flush submits when the slot holds `open`: the open pair, if any.
pub open spec fn flush_submits<B, T>(open: Option<(B, T)>) -> Option<(B, T)> {
    open
}

/// The one display list of a window that is being built: a display-list
/// builder and the transaction it will be submitted with. Both are opened
/// together by the first draw of a frame and handed out together by a flush.
pub struct DisplayListSlot<B, T> {
    pair: Option<(B, T)>,
}

impl<B, T> View for DisplayListSlot<B, T> {
    type V = Option<(B, T)>;

    closed spec fn view(&self) -> Option<(B, T)> {
        self.pair
    }
}

impl<B, T> DisplayListSlot<B, T> {
    /// A slot with no display list open.
    pub fn new() -> (r: DisplayListSlot<B, T>)
        ensures
            r@.is_none(),
    {
        DisplayListSlot { pair: None }
    }

    /// Whether a display list is open.
    pub fn is_open(&self) -> (r: bool)
        ensures
            r == self@.is_some(),
    {
        self.pair.is_some()
    }

    /// Begins or continues the frame's display list: the open pair if there is
    /// one, else a fresh pair that `make` builds, which stays open.
    pub fn begin<F: FnOnce() -> (B, T)>(&mut self, make: F) -> (r: (&mut B, &mut T))
        requires
            old(self)@.is_none() ==> make.requires(()),
        ensures
            continues(old(self)@, (*r.0, *r.1)),
            old(self)@.is_none() ==> make.ensures((), (*r.0, *r.1)),
            final(self)@ == Some((*final(r.0), *final(r.1))),
    {
        if self.pair.is_none() {
            let fresh = make();
            let p = self.pair.insert(fresh);
            (&mut p.0, &mut p.1)
        } else {
            let p = self.pair.as_mut().unwrap();
            (&mut p.0, &mut p.1)
        }
    }

    /// Ends the frame's display list: hands out the open pair, builder and
    /// transaction together, and leaves the slot closed; `None` when nothing
    /// was drawn.
    pub fn finish(&mut self) -> (r: Option<(B, T)>)
        ensures
            r == flush_submits(old(self)@),
            final(self)@.is_none(),
    {
        self.pair.take()
    }
}

/// A flush with no draw before it submits nothing, and leaves the slot closed
/// so that a later flush submits nothing either.
pub proof fn lemma_flush_without_draw<B, T>()
    ensures
        flush_submits::<B, T>(None).is_none(),
{
}

/// Draws before a flush accumulate into one display list: once a draw has
/// left `edited` open, the next draw writes into that same pair, the flush
/// after it submits that one pair, and the slot it leaves closed submits
/// nothing more.
pub proof fn lemma_draws_accumulate<B, T>(edited: (B, T), next: (B, T))
    requires
        continues(Some(edited), next),
    ensures
        next == edited,
        flush_submits(Some(next)) == Some(edited),
        flush_submits::<B, T>(None).is_none(),
{
}

} // verus!
