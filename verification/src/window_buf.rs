//! Fixed-capacity sample windows backed by `heapless::HistoryBuf`.
//!
//! A window keeps the most recent values written to it, evicting the
//! oldest once full (ring-buffer semantics).  The buffers themselves
//! come from the `heapless` crate; each method used by the statistics
//! engine is declared here with a contract over the window's contents,
//! a sequence ordered oldest first.

use vstd::prelude::*;

verus! {

/// What one `write` does to a window's contents: append while below
/// capacity, otherwise evict the oldest value and append.
pub open spec fn slide(s: Seq<u16>, cap: int, x: u16) -> Seq<u16> {
    if s.len() < cap {
        s.push(x)
    } else {
        s.skip(1).push(x)
    }
}

/// The gust sub-window: the six most recent samples.
#[verifier::external_body]
pub struct GustWindow {
    inner: heapless::HistoryBuf<u16, 6>,
}

/// The values a gust sub-window currently retains, oldest first.
pub uninterp spec fn gust_window_contents(w: GustWindow) -> Seq<u16>;

impl GustWindow {
    /// Relies on `heapless::HistoryBuf::new`: a fresh buffer is empty.
    #[verifier::external_body]
    pub fn new() -> (r: Self)
        ensures
            gust_window_contents(r) == Seq::<u16>::empty(),
    {
        GustWindow { inner: heapless::HistoryBuf::new() }
    }

    /// Relies on `heapless::HistoryBuf::write`: stores the value,
    /// overwriting the oldest one once the buffer is full.
    #[verifier::external_body]
    pub fn write(&mut self, x: u16)
        ensures
            gust_window_contents(*final(self)) == slide(
                gust_window_contents(*old(self)),
                6,
                x,
            ),
    {
        self.inner.write(x);
    }

    /// Relies on `heapless::HistoryBuf::oldest_ordered`: iterates over
    /// the retained values from the oldest to the most recent.
    #[verifier::external_body]
    pub fn to_vec(&self) -> (r: Vec<u16>)
        ensures
            r@ == gust_window_contents(*self),
    {
        self.inner.oldest_ordered().copied().collect()
    }
}

/// A full averaging window: the 240 most recent samples.
#[verifier::external_body]
pub struct SpeedWindow {
    inner: heapless::HistoryBuf<u16, 240>,
}

/// The values a full window currently retains, oldest first.
pub uninterp spec fn speed_window_contents(w: SpeedWindow) -> Seq<u16>;

impl SpeedWindow {
    /// Relies on `heapless::HistoryBuf::new`: a fresh buffer is empty.
    #[verifier::external_body]
    pub fn new() -> (r: Self)
        ensures
            speed_window_contents(r) == Seq::<u16>::empty(),
    {
        SpeedWindow { inner: heapless::HistoryBuf::new() }
    }

    /// Relies on `heapless::HistoryBuf::write`: stores the value,
    /// overwriting the oldest one once the buffer is full.
    #[verifier::external_body]
    pub fn write(&mut self, x: u16)
        ensures
            speed_window_contents(*final(self)) == slide(
                speed_window_contents(*old(self)),
                240,
                x,
            ),
    {
        self.inner.write(x);
    }

    /// Relies on `heapless::HistoryBuf::oldest_ordered`: iterates over
    /// the retained values from the oldest to the most recent.
    #[verifier::external_body]
    pub fn to_vec(&self) -> (r: Vec<u16>)
        ensures
            r@ == speed_window_contents(*self),
    {
        self.inner.oldest_ordered().copied().collect()
    }
}

} // verus!
