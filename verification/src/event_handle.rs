use vstd::prelude::*;
use crate::event::EventKind;
use crate::host::{
    count_active, deactivated, doc_unchanged, lemma_count_active_push,
    lemma_count_active_update, same_elements, same_flags, same_frames, same_title, HostDocument,
    ListenerOptions, ListenerRecord,
};

verus! {

/// Registering a callback with the host failed; the host's refusal is
/// propagated, never swallowed.
#[derive(Clone, Copy, Debug, PartialEq, Eq, Structural)]
pub struct RegistrationError;

/// What releasing a handle came to. Deregistration failures are reported
/// here, as the diagnostic outcome, and never abort the caller's teardown.
#[derive(Clone, Copy, Debug, PartialEq, Eq, Structural)]
pub enum ReleaseOutcome {
    /// The registration was retired by this call.
    Released,
    /// This handle had already been released; nothing was done.
    AlreadyReleased,
    /// The host reported failure: the registration was already gone, for
    /// instance because its target left the document.
    HostFailure,
}

/// An owned, revocable registration of one callback against one event
/// source. Creating the handle registers the callback; releasing it
/// deregisters first and frees the callback after, so the host can never
/// invoke a freed callback. Release is guarded to happen at most once.
pub struct EventListenerHandle {
    /// The element the callback was registered on.
    pub target: usize,
    /// The event type the callback was registered for.
    pub kind: EventKind,
    /// The options the registration was made with.
    pub options: ListenerOptions,
    /// The identity of the owned callback in the host's registry.
    pub callback: usize,
    /// Whether this handle still owes the host a deregistration.
    pub attached: bool,
}

/// A handle that still owes a deregistration points at its own record in
/// the document's registry.
pub open spec fn handle_wf(h: EventListenerHandle, d: HostDocument) -> bool {
    h.attached ==> h.callback < d.listeners@.len() && d.listeners@[h.callback as int].target
        == h.target && d.listeners@[h.callback as int].kind == h.kind
}

impl EventListenerHandle {
    /// Register a callback on `target` for `kind`. Succeeds exactly when
    /// the target hangs in the document; the handle then owns the fresh
    /// registration, and exactly one more live registration for
    /// (`target`, `kind`) exists than before. A host refusal is returned,
    /// and the document is unchanged.
    pub fn new(
        doc: &mut HostDocument,
        target: usize,
        kind: EventKind,
        options: ListenerOptions,
    ) -> (r: Result<EventListenerHandle, RegistrationError>)
        ensures
            r is Ok <==> target < old(doc).elements@.len()
                && old(doc).elements@[target as int].attached,
            r matches Ok(h) ==> h.target == target && h.kind == kind && h.options == options
                && h.attached && h.callback == old(doc).listeners@.len() && final(doc).listeners@
                == old(doc).listeners@.push(
                ListenerRecord {
                    target,
                    kind,
                    capture: options.capture,
                    passive: options.passive,
                    active: true,
                },
            ) && handle_wf(h, *final(doc)) && count_active(final(doc).listeners@, target, kind)
                == count_active(old(doc).listeners@, target, kind) + 1,
            r is Err ==> doc_unchanged(*old(doc), *final(doc)),
            same_flags(*old(doc), *final(doc)),
            same_title(*old(doc), *final(doc)),
            same_elements(*old(doc), *final(doc)),
            same_frames(*old(doc), *final(doc)),
    {
        match doc.add_listener(target, kind, options) {
            Ok(callback) => {
                proof {
                    lemma_count_active_push(
                        old(doc).listeners@,
                        ListenerRecord {
                            target,
                            kind,
                            capture: options.capture,
                            passive: options.passive,
                            active: true,
                        },
                        target,
                        kind,
                    );
                }
                Ok(EventListenerHandle { target, kind, options, callback, attached: true })
            },
            Err(_) => Err(RegistrationError),
        }
    }

    /// Release the handle: deregister the callback, then give it up. The
    /// guard makes a second call do nothing. A host failure (the
    /// registration already gone, its target out of the document) is
    /// reported in the outcome and changes nothing; teardown never stops
    /// on it. Afterwards the handle owes nothing, and its registration,
    /// where it still pointed at a live record, is retired.
    pub fn release(&mut self, doc: &mut HostDocument) -> (r: ReleaseOutcome)
        ensures
            !final(self).attached,
            final(self).target == old(self).target,
            final(self).kind == old(self).kind,
            final(self).options == old(self).options,
            final(self).callback == old(self).callback,
            !old(self).attached ==> r == ReleaseOutcome::AlreadyReleased && doc_unchanged(
                *old(doc),
                *final(doc),
            ),
            old(self).attached && old(self).callback < old(doc).listeners@.len() && old(
                doc,
            ).listeners@[old(self).callback as int].active ==> r == ReleaseOutcome::Released
                && final(doc).listeners@ == old(doc).listeners@.update(
                old(self).callback as int,
                deactivated(old(doc).listeners@[old(self).callback as int]),
            ),
            old(self).attached && !(old(self).callback < old(doc).listeners@.len() && old(
                doc,
            ).listeners@[old(self).callback as int].active) ==> r == ReleaseOutcome::HostFailure
                && doc_unchanged(*old(doc), *final(doc)),
            old(self).attached ==> !final(doc).listeners@[old(self).callback as int].active || old(
                doc,
            ).listeners@.len() <= old(self).callback,
            same_flags(*old(doc), *final(doc)),
            same_title(*old(doc), *final(doc)),
            same_elements(*old(doc), *final(doc)),
            same_frames(*old(doc), *final(doc)),
    {
        if !self.attached {
            return ReleaseOutcome::AlreadyReleased;
        }
        // Deregister first; only then is the callback given up, so the
        // host cannot invoke a freed callback in between.
        let removed = doc.remove_listener(self.callback);
        self.attached = false;
        match removed {
            Ok(()) => ReleaseOutcome::Released,
            Err(_) => ReleaseOutcome::HostFailure,
        }
    }
}

/// Attaching and then releasing one handle leaves the live registration
/// count for its (`target`, `kind`) pair exactly where it started, and in
/// between the count is exactly one higher: the handle owns one
/// registration, and releasing it leaks nothing, whatever else the
/// registry holds.
pub proof fn lemma_attach_then_release_restores_count(
    s0: Seq<ListenerRecord>,
    s1: Seq<ListenerRecord>,
    s2: Seq<ListenerRecord>,
    target: usize,
    kind: EventKind,
    options: ListenerOptions,
)
    requires
        s1 == s0.push(
            ListenerRecord {
                target,
                kind,
                capture: options.capture,
                passive: options.passive,
                active: true,
            },
        ),
        s2 == s1.update(s0.len() as int, deactivated(s1[s0.len() as int])),
    ensures
        count_active(s1, target, kind) == count_active(s0, target, kind) + 1,
        count_active(s2, target, kind) == count_active(s0, target, kind),
{
    let r = ListenerRecord {
        target,
        kind,
        capture: options.capture,
        passive: options.passive,
        active: true,
    };
    lemma_count_active_push(s0, r, target, kind);
    assert(s1[s0.len() as int] == r);
    lemma_count_active_update(s1, s0.len() as int, deactivated(r), target, kind);
}

} // verus!
