//! The notification hub: at most one live observer handle, replaced — never
//! stacked — by each new attachment.
//!
//! The hub decides only who receives a notification; actually delivering the
//! text over the observer's channel is outside work performed by the caller
//! on the handle the hub returns.

use vstd::prelude::*;

verus! {

/// Holds the at-most-one attached observer handle.
pub struct NotificationHub<H> {
    pub observer: Option<H>,
}

/// The hub state an attachment produces: exactly the new handle, whatever
/// was attached before.
pub open spec fn spec_attach<H>(hub: NotificationHub<H>, handle: H) -> NotificationHub<H> {
    NotificationHub { observer: Some(handle) }
}

/// Whether a notification issued against hub state `hub` is delivered to
/// `handle`: it is exactly when `handle` is the attached observer.
pub open spec fn delivers_to<H>(hub: NotificationHub<H>, handle: H) -> bool {
    hub.observer == Some(handle)
}

impl<H> NotificationHub<H> {
    /// A fresh hub has no observer; notifications are silently dropped.
    pub fn new() -> (r: NotificationHub<H>)
        ensures
            r.observer is None,
    {
        NotificationHub { observer: None }
    }

    /// Atomically replaces any previously attached handle; the previous
    /// handle is dropped, with no delivery guarantee for messages in flight.
    pub fn attach(&mut self, handle: H)
        ensures
            *final(self) == spec_attach(*old(self), handle),
            final(self).observer == Some(handle),
    {
        self.observer = Some(handle);
    }

    /// The recipient of a notification issued now: the attached handle if
    /// present; absence is not an error, the notification is dropped.
    pub fn notify(&self) -> (r: Option<&H>)
        ensures
            match r {
                Some(h) => self.observer == Some(*h),
                None => self.observer is None,
            },
    {
        match &self.observer {
            Some(h) => Some(h),
            None => None,
        }
    }
}

/// Observer replacement: every notification is delivered to the handle
/// attached at its issue time — one issued strictly before an attachment
/// goes to the previous observer alone, one issued strictly after goes to
/// the new observer alone; no notification reaches both, and none is lost
/// while an observer is attached.
pub proof fn lemma_observer_replacement<H>(before: NotificationHub<H>, new_handle: H, x: H)
    ensures
        delivers_to(spec_attach(before, new_handle), x) <==> x == new_handle,
        delivers_to(before, x) <==> before.observer == Some(x),
        before.observer is Some && before.observer != Some(new_handle) ==> !(delivers_to(
            before,
            x,
        ) && delivers_to(spec_attach(before, new_handle), x)),
{
}

} // verus!
