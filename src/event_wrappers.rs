use vstd::prelude::*;
use crate::models::DialogResult;

verus! {

/// Where a single-shot completion slot stands.
pub enum Slot<W> {
    /// Nothing delivered yet; the task to wake on delivery, if one polled.
    Waiting { waker: Option<W> },
    /// A payload was delivered and has not been taken yet.
    Completed { payload: DialogResult },
    /// The payload was taken by the consumer; the slot is spent.
    Consumed,
}

/// A single-shot completion slot: one producer delivers, one consumer takes.
/// `W` is the handle of the suspended consumer task.
pub struct StateSimple<W> {
    pub slot: Slot<W>,
}

/// The slot after a delivery of `payload`: only a waiting slot takes it.
pub open spec fn delivered<W>(slot: Slot<W>, payload: DialogResult) -> Slot<W> {
    if slot is Waiting {
        Slot::Completed { payload }
    } else {
        slot
    }
}

/// What a result event resolves to: the parsed payload, or `Closed` where the
/// payload could not be parsed.
pub open spec fn parsed_or_closed(parsed: Option<DialogResult>) -> DialogResult {
    match parsed {
        Some(r) => r,
        None => DialogResult::Closed,
    }
}

impl<W> StateSimple<W> {
    pub open spec fn is_waiting(&self) -> bool {
        self.slot is Waiting
    }

    pub open spec fn is_completed(&self) -> bool {
        self.slot is Completed
    }

    pub open spec fn is_consumed(&self) -> bool {
        self.slot is Consumed
    }

    /// A fresh slot: nothing delivered, nobody waiting.
    pub fn new() -> (r: Self)
        ensures
            r.slot == (Slot::<W>::Waiting { waker: None }),
    {
        StateSimple { slot: Slot::Waiting { waker: None } }
    }

    /// Delivers `payload` if nothing was delivered before, and hands back the
    /// waiting task, which the caller wakes. A delivery to a slot that was
    /// already completed or consumed changes nothing.
    pub fn complete(&mut self, payload: DialogResult) -> (woken: Option<W>)
        ensures
            final(self).slot == delivered(old(self).slot, payload),
            old(self).is_waiting() ==> woken == old(self).slot->Waiting_waker,
            !old(self).is_waiting() ==> woken is None,
    {
        if let Slot::Waiting { .. } = self.slot {
            let mut prev = Slot::Completed { payload };
            core::mem::swap(&mut self.slot, &mut prev);
            match prev {
                Slot::Waiting { waker } => waker,
                _ => None,
            }
        } else {
            None
        }
    }

    /// Takes the delivered payload, leaving the slot consumed; while nothing
    /// was delivered, records `waker` as the task to wake (the latest poller
    /// replaces an earlier one) and returns `None`. A consumed slot stays
    /// consumed and yields nothing.
    pub fn poll(&mut self, waker: W) -> (r: Option<DialogResult>)
        ensures
            old(self).is_completed() ==> r == Some(old(self).slot->Completed_payload)
                && final(self).is_consumed(),
            old(self).is_waiting() ==> r is None
                && final(self).slot == (Slot::Waiting { waker: Some(waker) }),
            old(self).is_consumed() ==> r is None && final(self).is_consumed(),
    {
        match self.slot {
            Slot::Completed { .. } => {
                let mut prev = Slot::Consumed;
                core::mem::swap(&mut self.slot, &mut prev);
                match prev {
                    Slot::Completed { payload } => Some(payload),
                    _ => None,
                }
            },
            Slot::Waiting { .. } => {
                self.slot = Slot::Waiting { waker: Some(waker) };
                None
            },
            Slot::Consumed => None,
        }
    }
}

/// The signal fed by the session's result event.
pub struct AwaitEvent<W> {
    pub state: StateSimple<W>,
}

impl<W> AwaitEvent<W> {
    pub fn new() -> (r: Self)
        ensures
            r.state.slot == (Slot::<W>::Waiting { waker: None }),
    {
        AwaitEvent { state: StateSimple::new() }
    }

    /// Takes one result event, already parsed (`None` where the payload was
    /// malformed, which resolves to `Closed`). Returns the task to wake.
    pub fn deliver(&mut self, parsed: Option<DialogResult>) -> (woken: Option<W>)
        ensures
            final(self).state.slot == delivered(old(self).state.slot, parsed_or_closed(parsed)),
            old(self).state.is_waiting() ==> woken == old(self).state.slot->Waiting_waker,
            !old(self).state.is_waiting() ==> woken is None,
    {
        let payload = match parsed {
            Some(r) => r,
            None => DialogResult::Closed,
        };
        self.state.complete(payload)
    }
}

/// The signal fed by the dialog surface's lifecycle notifications.
pub struct AwaitWindowCloseEvent<W> {
    pub state: StateSimple<W>,
}

impl<W> AwaitWindowCloseEvent<W> {
    pub fn new() -> (r: Self)
        ensures
            r.state.slot == (Slot::<W>::Waiting { waker: None }),
    {
        AwaitWindowCloseEvent { state: StateSimple::new() }
    }

    /// Takes one lifecycle notification: a close request resolves the signal
    /// to `Closed`; any other notification changes nothing. Returns the task
    /// to wake.
    pub fn on_window_event(&mut self, close_requested: bool) -> (woken: Option<W>)
        ensures
            close_requested ==> final(self).state.slot == delivered(
                old(self).state.slot,
                DialogResult::Closed,
            ),
            !close_requested ==> final(self).state.slot == old(self).state.slot,
            close_requested && old(self).state.is_waiting() ==> woken
                == old(self).state.slot->Waiting_waker,
            !(close_requested && old(self).state.is_waiting()) ==> woken is None,
    {
        if close_requested {
            self.state.complete(DialogResult::Closed)
        } else {
            None
        }
    }
}

/// What a race between the result slot and the close slot resolves to when
/// polled: the result first, then the close, else nothing yet.
pub open spec fn race_outcome<W>(result: Slot<W>, close: Slot<W>) -> Option<DialogResult> {
    if result is Completed {
        Some(result->Completed_payload)
    } else if close is Completed {
        Some(close->Completed_payload)
    } else {
        None
    }
}

/// The race between an explicit result and the surface being closed.
pub struct DialogResultFuture<W> {
    pub result_event: AwaitEvent<W>,
    pub close_event: AwaitWindowCloseEvent<W>,
    pub resolved: bool,
}

impl<W> DialogResultFuture<W> {
    /// Nothing delivered to either signal, nothing resolved.
    pub open spec fn is_fresh(&self) -> bool {
        &&& self.result_event.state.is_waiting()
        &&& self.close_event.state.is_waiting()
        &&& !self.resolved
    }

    /// What the next poll yields.
    pub open spec fn outcome(&self) -> Option<DialogResult> {
        if self.resolved {
            None
        } else {
            race_outcome(self.result_event.state.slot, self.close_event.state.slot)
        }
    }

    /// The race after a result event, parsed to `parsed`, was delivered.
    pub open spec fn after_result(self, parsed: Option<DialogResult>) -> Self {
        DialogResultFuture {
            result_event: AwaitEvent {
                state: StateSimple {
                    slot: delivered(self.result_event.state.slot, parsed_or_closed(parsed)),
                },
            },
            ..self
        }
    }

    /// The race after a close request of the surface was delivered.
    pub open spec fn after_close(self) -> Self {
        DialogResultFuture {
            close_event: AwaitWindowCloseEvent {
                state: StateSimple {
                    slot: delivered(self.close_event.state.slot, DialogResult::Closed),
                },
            },
            ..self
        }
    }

    pub fn new() -> (r: Self)
        ensures
            r.is_fresh(),
    {
        DialogResultFuture {
            result_event: AwaitEvent::new(),
            close_event: AwaitWindowCloseEvent::new(),
            resolved: false,
        }
    }

    /// Delivers a result event, parsed to `parsed`; returns the task to wake.
    pub fn deliver_result(&mut self, parsed: Option<DialogResult>) -> (woken: Option<W>)
        ensures
            *final(self) == old(self).after_result(parsed),
            old(self).result_event.state.is_waiting() ==> woken
                == old(self).result_event.state.slot->Waiting_waker,
            !old(self).result_event.state.is_waiting() ==> woken is None,
    {
        self.result_event.deliver(parsed)
    }

    /// Delivers a lifecycle notification of the surface; returns the task to
    /// wake.
    pub fn notify_window_event(&mut self, close_requested: bool) -> (woken: Option<W>)
        ensures
            close_requested ==> *final(self) == old(self).after_close(),
            !close_requested ==> *final(self) == *old(self) && woken is None,
            close_requested && old(self).close_event.state.is_waiting() ==> woken
                == old(self).close_event.state.slot->Waiting_waker,
            close_requested && !old(self).close_event.state.is_waiting() ==> woken is None,
    {
        self.close_event.on_window_event(close_requested)
    }

    /// Polls the result signal, then, only if it is not ready, the close
    /// signal. Each signal polled while pending keeps its waker. Once
    /// resolved, the race yields nothing more and changes nothing.
    pub fn poll(&mut self, result_waker: W, close_waker: W) -> (r: Option<DialogResult>)
        ensures
            r == old(self).outcome(),
            final(self).resolved == (old(self).resolved || r is Some),
            old(self).resolved ==> *final(self) == *old(self),
            !old(self).resolved && old(self).result_event.state.is_completed()
                ==> final(self).result_event.state.is_consumed()
                && final(self).close_event == old(self).close_event,
            !old(self).resolved && !old(self).result_event.state.is_completed()
                && old(self).close_event.state.is_completed()
                ==> final(self).close_event.state.is_consumed(),
            !old(self).resolved && old(self).result_event.state.is_waiting()
                ==> final(self).result_event.state.slot == (Slot::Waiting {
                waker: Some(result_waker),
            }),
            !old(self).resolved && !old(self).result_event.state.is_completed()
                && old(self).close_event.state.is_waiting()
                ==> final(self).close_event.state.slot == (Slot::Waiting {
                waker: Some(close_waker),
            }),
    {
        if self.resolved {
            return None;
        }
        let first = self.result_event.state.poll(result_waker);
        if first.is_some() {
            self.resolved = true;
            return first;
        }
        let second = self.close_event.state.poll(close_waker);
        if second.is_some() {
            self.resolved = true;
        }
        second
    }
}

/// A result event that parses to `r`, delivered to a fresh race, is what the
/// race yields.
pub proof fn lemma_result_delivered_intact<W>(f: DialogResultFuture<W>, r: DialogResult)
    requires
        f.is_fresh(),
    ensures
        f.after_result(Some(r)).outcome() == Some(r),
{
}

/// A surface closed before any result event makes the race yield `Closed`.
pub proof fn lemma_close_first_yields_closed<W>(f: DialogResultFuture<W>)
    requires
        f.is_fresh(),
    ensures
        f.after_close().outcome() == Some(DialogResult::Closed),
{
}

/// A result delivered before the surface is closed is what the race yields,
/// whether or not the close arrives before the poll.
pub proof fn lemma_finish_first_yields_result<W>(f: DialogResultFuture<W>, r: DialogResult)
    requires
        f.is_fresh(),
    ensures
        f.after_result(Some(r)).outcome() == Some(r),
        f.after_result(Some(r)).after_close().outcome() == Some(r),
{
}

/// When a result and a close are both delivered before one poll, in either
/// order, the result wins.
pub proof fn lemma_result_wins_tie<W>(f: DialogResultFuture<W>, r: DialogResult)
    requires
        f.is_fresh(),
    ensures
        f.after_close().after_result(Some(r)).outcome() == Some(r),
        f.after_result(Some(r)).after_close().outcome() == Some(r),
{
}

/// A malformed result payload makes the race yield `Closed`, whether or not
/// a close arrives too.
pub proof fn lemma_malformed_yields_closed<W>(f: DialogResultFuture<W>)
    requires
        f.is_fresh(),
    ensures
        f.after_result(None).outcome() == Some(DialogResult::Closed),
        f.after_result(None).after_close().outcome() == Some(DialogResult::Closed),
        f.after_close().after_result(None).outcome() == Some(DialogResult::Closed),
{
}

/// A delivery to a slot that already holds a payload or was consumed leaves
/// it as it is: only the first delivery is ever observed.
pub proof fn lemma_at_most_once<W>(slot: Slot<W>, p: DialogResult, q: DialogResult)
    ensures
        delivered(delivered(slot, p), q) == delivered(slot, p),
{
}

} // verus!
