use vstd::prelude::*;
use vstd::string::StringExecFns;
use crate::error::Error;
use crate::event_wrappers::parsed_or_closed;
use crate::models::{DialogInstanceData, DialogResult};
use crate::registry::SessionRegistry;
use crate::session::{DialogSession, event_name_of, hyphenated_id, label_of};

verus! {

/// The options of a dialog that decide more than its size: `has_size` says
/// whether both a width and a height were given.
pub struct DialogSettings {
    pub title: Option<String>,
    pub has_size: bool,
    pub resizable: Option<bool>,
    pub always_on_top: Option<bool>,
    pub is_modal: Option<bool>,
}

/// How the dialog surface is built: `default_size` says whether it takes the
/// default size rather than the one given in the options.
pub struct WindowSpec {
    pub title: String,
    pub default_size: bool,
    pub resizable: bool,
    pub always_on_top: bool,
}

/// The title of a dialog whose options give none.
pub open spec fn default_title() -> Seq<char> {
    "Dialog"@
}

/// Whether a session with these options is modal (not unless asked).
pub open spec fn modal_of(options: Option<DialogSettings>) -> bool {
    match options {
        Some(o) => o.is_modal == Some(true),
        None => false,
    }
}

/// Whether the session is modal: only where the options ask for it.
pub fn is_modal(options: &Option<DialogSettings>) -> (r: bool)
    ensures
        r == modal_of(*options),
{
    match options {
        Some(o) => match o.is_modal {
            Some(m) => m,
            None => false,
        },
        None => false,
    }
}

/// How to build the surface: each option that is not given takes its default
/// (the title "Dialog", the default size, not resizable, always on top).
pub fn window_spec(options: &Option<DialogSettings>) -> (r: WindowSpec)
    ensures
        r.title@ == (match options {
            Some(o) => match o.title {
                Some(t) => t@,
                None => default_title(),
            },
            None => default_title(),
        }),
        r.default_size == !(options is Some && options->Some_0.has_size),
        r.resizable == (options is Some && options->Some_0.resizable == Some(true)),
        r.always_on_top == !(options is Some && options->Some_0.always_on_top == Some(false)),
{
    match options {
        Some(o) => {
            let title = match &o.title {
                Some(t) => t.clone(),
                None => String::from_str("Dialog"),
            };
            WindowSpec {
                title,
                default_size: !o.has_size,
                resizable: match o.resizable {
                    Some(b) => b,
                    None => false,
                },
                always_on_top: match o.always_on_top {
                    Some(b) => b,
                    None => true,
                },
            }
        },
        None => WindowSpec {
            title: String::from_str("Dialog"),
            default_size: true,
            resizable: false,
            always_on_top: true,
        },
    }
}

/// What a session does to its parent surface: whether there is one, and
/// whether the session disables it, and whether it must enable it again at
/// the end (only a parent that was enabled before).
pub struct ParentGuard {
    pub present: bool,
    pub disabled: bool,
    pub restore: bool,
}

/// What to do once the race has resolved.
pub struct Teardown {
    pub close_window: bool,
    pub enable_parent: bool,
    pub focus_parent: bool,
}

/// The parent's enabled state after the session disabled it (or not) and
/// later enabled it (or not).
pub open spec fn parent_after(before: bool, disable: bool, enable: bool) -> bool {
    if enable {
        true
    } else if disable {
        false
    } else {
        before
    }
}

/// What a session decides about its parent before building its surface:
/// `parent_enabled` is `None` where no parent surface was found.
pub open spec fn guard_of(is_modal: bool, parent_enabled: Option<bool>) -> ParentGuard {
    ParentGuard {
        present: parent_enabled is Some,
        disabled: is_modal && parent_enabled is Some,
        restore: is_modal && parent_enabled == Some(true),
    }
}

impl ParentGuard {
    /// Decides, before the surface is built, whether to disable the parent
    /// (a modal session disables any parent that was found) and whether to
    /// enable it again at the end (only where it was enabled before).
    /// `parent_enabled` is `None` where no parent surface was found.
    pub fn acquire(is_modal: bool, parent_enabled: Option<bool>) -> (g: ParentGuard)
        ensures
            g == guard_of(is_modal, parent_enabled),
    {
        let present = parent_enabled.is_some();
        let enabled = match parent_enabled {
            Some(e) => e,
            None => false,
        };
        ParentGuard { present, disabled: is_modal && present, restore: is_modal && enabled }
    }

    /// Whether to enable the parent again when the session ends without
    /// resolving (the surface could not be built, or the wait was dropped).
    pub fn on_abort(&self) -> (enable_parent: bool)
        ensures
            enable_parent == self.restore,
    {
        self.restore
    }

    /// What to do once the race resolved: close the surface, enable the
    /// parent if it was enabled before the session disabled it, and hand the
    /// focus back to it.
    pub fn on_resolved(&self) -> (t: Teardown)
        ensures
            t.close_window,
            t.enable_parent == self.restore,
            t.focus_parent == self.present,
    {
        Teardown { close_window: true, enable_parent: self.restore, focus_parent: self.present }
    }
}

/// The session's outcome: what the race yielded, or `Closed` if it yielded
/// nothing.
pub fn final_result(r: Option<DialogResult>) -> (out: DialogResult)
    ensures
        out == parsed_or_closed(r),
{
    match r {
        Some(r) => r,
        None => DialogResult::Closed,
    }
}

/// Where a session stands between its start and its end.
pub enum Phase {
    /// The surface is being built.
    Building,
    /// The surface stands and the race is awaited.
    Waiting,
    /// The session is over.
    Ended,
}

/// What happens to a session after it started.
pub enum FlowEvent {
    /// The surface was built.
    WindowBuilt,
    /// The surface could not be built; the detail says why.
    WindowFailed(String),
    /// The race resolved (`None` where it yielded nothing).
    Resolved(Option<DialogResult>),
    /// The task awaiting the session was dropped.
    Dropped,
}

/// What the host does next.
pub enum FlowAction {
    /// Await the race on the new surface.
    Await,
    /// Close the surface, enable and focus the parent as told, and return
    /// `result`.
    Finish { teardown: Teardown, result: DialogResult },
    /// Enable the parent as told and fail with `error`, if there is one.
    Abort { enable_parent: bool, error: Option<Error> },
    /// Nothing: the event does not apply in this phase.
    Ignore,
}

/// The decisions of one session, from its start to its end.
pub struct SessionFlow {
    pub guard: ParentGuard,
    pub phase: Phase,
}

/// Whether the action enables the parent again.
pub open spec fn enables_parent(a: FlowAction) -> bool {
    match a {
        FlowAction::Finish { teardown, .. } => teardown.enable_parent,
        FlowAction::Abort { enable_parent, .. } => enable_parent,
        _ => false,
    }
}

/// The phase a session moves to on `event`, and what the host does then.
pub open spec fn next(f: SessionFlow, event: FlowEvent) -> (Phase, FlowAction) {
    match (f.phase, event) {
        (Phase::Building, FlowEvent::WindowBuilt) => (Phase::Waiting, FlowAction::Await),
        (Phase::Building, FlowEvent::WindowFailed(m)) => (
            Phase::Ended,
            FlowAction::Abort {
                enable_parent: f.guard.restore,
                error: Some(Error::WindowNotFound(m)),
            },
        ),
        (Phase::Waiting, FlowEvent::Resolved(r)) => (
            Phase::Ended,
            FlowAction::Finish {
                teardown: Teardown {
                    close_window: true,
                    enable_parent: f.guard.restore,
                    focus_parent: f.guard.present,
                },
                result: parsed_or_closed(r),
            },
        ),
        (Phase::Building, FlowEvent::Dropped) | (Phase::Waiting, FlowEvent::Dropped) => (
            Phase::Ended,
            FlowAction::Abort { enable_parent: f.guard.restore, error: None },
        ),
        _ => (f.phase, FlowAction::Ignore),
    }
}

impl SessionFlow {
    /// Starts a session; the parent is to be disabled, before the surface is
    /// built, exactly where `disable_parent` says so.
    pub fn start(is_modal: bool, parent_enabled: Option<bool>) -> (r: (SessionFlow, bool))
        ensures
            r.0.guard == guard_of(is_modal, parent_enabled),
            r.0.phase is Building,
            r.1 == r.0.guard.disabled,
    {
        let guard = ParentGuard::acquire(is_modal, parent_enabled);
        let disable = guard.disabled;
        (SessionFlow { guard, phase: Phase::Building }, disable)
    }

    /// Takes one event and says what to do. A built surface is awaited; a
    /// surface that could not be built ends the session with
    /// `WindowNotFound`; a resolution ends it with its result (or `Closed`),
    /// closing the surface; a dropped wait ends it with no error. Every end
    /// enables the parent again if it was enabled before the session
    /// disabled it. Events that do not apply in the current phase are
    /// ignored.
    pub fn step(&mut self, event: FlowEvent) -> (a: FlowAction)
        ensures
            final(self).guard == old(self).guard,
            (final(self).phase, a) == next(*old(self), event),
    {
        match (&self.phase, event) {
            (Phase::Building, FlowEvent::WindowBuilt) => {
                self.phase = Phase::Waiting;
                FlowAction::Await
            },
            (Phase::Building, FlowEvent::WindowFailed(m)) => {
                self.phase = Phase::Ended;
                FlowAction::Abort {
                    enable_parent: self.guard.on_abort(),
                    error: Some(Error::WindowNotFound(m)),
                }
            },
            (Phase::Waiting, FlowEvent::Resolved(r)) => {
                self.phase = Phase::Ended;
                FlowAction::Finish { teardown: self.guard.on_resolved(), result: final_result(r) }
            },
            (Phase::Building, FlowEvent::Dropped) | (Phase::Waiting, FlowEvent::Dropped) => {
                self.phase = Phase::Ended;
                FlowAction::Abort { enable_parent: self.guard.on_abort(), error: None }
            },
            _ => FlowAction::Ignore,
        }
    }
}

/// A session with a parent leaves it as enabled as it found it on every
/// path to its end (its surface could not be built, its wait was dropped,
/// or it resolved). A modal session disables a parent it found before the
/// surface is built, and it stays disabled until the end.
pub proof fn lemma_session_restores_parent(
    is_modal: bool,
    before: bool,
    f: SessionFlow,
    event: FlowEvent,
)
    requires
        f.guard == guard_of(is_modal, Some(before)),
        next(f, event).0 is Ended,
        !(f.phase is Ended),
    ensures
        parent_after(before, f.guard.disabled, enables_parent(next(f, event).1)) == before,
        is_modal ==> f.guard.disabled && !parent_after(before, f.guard.disabled, false),
{
}

/// The dialog sessions of one application: the registry of those in flight.
pub struct CustomDialog {
    pub active_dialogs: SessionRegistry,
}

impl CustomDialog {
    pub open spec fn wf(&self) -> bool {
        self.active_dialogs.wf()
    }

    /// The sessions in flight: each surface label mapped to its result event.
    pub open spec fn sessions(&self) -> Map<Seq<char>, Seq<char>> {
        self.active_dialogs@
    }

    pub fn new() -> (r: CustomDialog)
        ensures
            r.wf(),
            r.sessions() == Map::<Seq<char>, Seq<char>>::empty(),
    {
        CustomDialog { active_dialogs: SessionRegistry::new() }
    }

    /// Registers `session`, so that a finish request from its surface finds
    /// its result event.
    pub fn register_session(&mut self, session: &DialogSession)
        requires
            old(self).wf(),
        ensures
            final(self).wf(),
            final(self).sessions() == old(self).sessions().insert(
                session.window_label@,
                session.event_name@,
            ),
    {
        let data = DialogInstanceData { event_name: session.event_name.clone() };
        self.active_dialogs.register(session.window_label.clone(), data);
    }

    /// Begins a session with a fresh id for a surface named after `prefix`,
    /// opened from `parent_label`, and registers it.
    pub fn open_session(
        &mut self,
        prefix: &str,
        parent_label: Option<String>,
        options: &Option<DialogSettings>,
    ) -> (s: DialogSession)
        requires
            old(self).wf(),
        ensures
            final(self).wf(),
            hyphenated_id(s.id@),
            s.window_label@ == label_of(prefix@, s.id@),
            s.event_name@ == event_name_of(s.id@),
            s.parent_label == parent_label,
            s.is_modal == modal_of(*options),
            final(self).sessions() == old(self).sessions().insert(
                s.window_label@,
                s.event_name@,
            ),
    {
        let modal = is_modal(options);
        let s = DialogSession::new(prefix, parent_label, modal);
        self.register_session(&s);
        s
    }

    /// Ends the session of the surface `label`: a later finish request from
    /// it is refused.
    pub fn close_session(&mut self, label: &String)
        requires
            old(self).wf(),
        ensures
            final(self).wf(),
            final(self).sessions() == old(self).sessions().remove(label@),
    {
        self.active_dialogs.remove(label);
    }

    /// The event on which the surface `label` delivers its result; an error
    /// where no session is registered for that surface. Nothing changes
    /// either way.
    pub fn finish_dialog(&self, label: &String) -> (r: Result<String, Error>)
        requires
            self.wf(),
        ensures
            r is Ok <==> self.sessions().contains_key(label@),
            r is Ok ==> r->Ok_0@ == self.sessions()[label@],
            r is Err ==> r->Err_0 is SessionNotFound && r->Err_0->SessionNotFound_0@ == label@,
    {
        match self.active_dialogs.lookup(label) {
            Some(name) => Ok(name),
            None => Err(Error::SessionNotFound(label.clone())),
        }
    }
}

} // verus!
