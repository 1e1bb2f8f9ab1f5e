//! The injector thread's binding to the input desktop: when to reopen it, so
//! that input follows Windows onto the UAC and sign-in desktops.
use vstd::prelude::*;

verus! {

/// How long an input-desktop binding is trusted before it is reopened, in
/// nanoseconds (10 ms).
pub const DESKTOP_REFRESH_INTERVAL_NS: u64 = 10_000_000;

/// The time from `last` to `now`, zero if the clock went back.
pub open spec fn elapsed_since(last: u64, now: u64) -> u64 {
    if now < last {
        0
    } else {
        (now - last) as u64
    }
}

/// Whether the input desktop is to be reopened at time `now` (in
/// nanoseconds), given the time of the last reopening: always when forced or
/// never reopened, else once the interval has passed since then. A clock
/// that went back counts as no time passed.
pub open spec fn refresh_due(last_refresh: Option<u64>, force: bool, now: u64) -> bool {
    force || match last_refresh {
        None => true,
        Some(last) => elapsed_since(last, now) >= DESKTOP_REFRESH_INTERVAL_NS,
    }
}

/// The desktop handle that the injector thread is bound to (of type `H`),
/// and when the input desktop was last opened.
pub struct DesktopBinding<H> {
    handle: Option<H>,
    last_refresh: Option<u64>,
}

impl<H> DesktopBinding<H> {
    /// The desktop handle in use, if any.
    pub closed spec fn handle(&self) -> Option<H> {
        self.handle
    }

    /// When the input desktop was last opened, if ever.
    pub closed spec fn last_refresh(&self) -> Option<u64> {
        self.last_refresh
    }

    /// Bound to nothing, never refreshed.
    pub fn new() -> (r: Self)
        ensures
            r.handle() is None,
            r.last_refresh() is None,
    {
        DesktopBinding { handle: None, last_refresh: None }
    }

    /// Decides whether to reopen the input desktop at time `now`; when it
    /// does, `now` becomes the time of the last reopening, whether or not
    /// the reopening then succeeds.
    pub fn begin_refresh(&mut self, force: bool, now: u64) -> (r: bool)
        ensures
            r == refresh_due(old(self).last_refresh(), force, now),
            final(self).handle() == old(self).handle(),
            r ==> final(self).last_refresh() == Some(now),
            !r ==> final(self).last_refresh() == old(self).last_refresh(),
    {
        if !force {
            if let Some(last) = self.last_refresh {
                let elapsed: u64 = if now < last {
                    0
                } else {
                    now - last
                };
                if elapsed < DESKTOP_REFRESH_INTERVAL_NS {
                    return false;
                }
            }
        }
        self.last_refresh = Some(now);
        true
    }

    /// Binds to a newly opened desktop; the previous one, if any, is handed
    /// back to be closed.
    pub fn bind(&mut self, next: H) -> (previous: Option<H>)
        ensures
            previous == old(self).handle(),
            final(self).handle() == Some(next),
            final(self).last_refresh() == old(self).last_refresh(),
    {
        let previous = self.handle.take();
        self.handle = Some(next);
        previous
    }

    /// Gives up the binding; the desktop, if any, is handed back to be
    /// closed.
    pub fn unbind(&mut self) -> (previous: Option<H>)
        ensures
            previous == old(self).handle(),
            final(self).handle() is None,
            final(self).last_refresh() == old(self).last_refresh(),
    {
        self.handle.take()
    }
}

/// Unless forced, the input desktop is reopened at most once per interval:
/// right after a reopening at `t`, no unforced reopening is due before
/// `t` plus the interval.
pub proof fn lemma_refresh_rate_limited(t: u64, now: u64)
    requires
        now < t + DESKTOP_REFRESH_INTERVAL_NS,
    ensures
        !refresh_due(Some(t), false, now),
{
}

} // verus!
