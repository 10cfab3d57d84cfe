//! Worker loop and window-lifecycle state machine.
//!
//! The worker thread owns the embedded event handler. Each loop iteration
//! drains pending control requests, receives wire events according to the
//! pacing policy, applies the lifecycle transitions, and decides whether a
//! frame is rendered. The decisions live here as verified functions from
//! state and event to next state and actions; the surrounding thread
//! performs each [`Action`] against the host shim and the embedded
//! handler, which Verus cannot see.

use crate::channel::Channel;
use crate::keys::{convert_keycode, key_mods, spec_convert_keycode, spec_key_mods, KeyCode, KeyMods};
use crate::protocol::{is_valid_scalar, valid_scalar, Event};
use crate::requests::RequestQueue;
use vstd::prelude::*;

verus! {

/// Window lifecycle. `Destroyed` is terminal: it is never left, and no
/// message is forwarded once it is reached.
#[derive(Clone, Copy, Debug, PartialEq, Eq, Structural)]
pub enum WindowState {
    Uninitialized,
    Created,
    Destroyed,
}

/// An application-originated command altering windowing behaviour.
///
/// `ScheduleUpdate` asks for a frame. `SetFullscreen` records the wanted
/// mode; its OS-level effect is backend-dependent and not actuated here.
/// `ShowKeyboard` is a capability gap on this backend: it is accepted and
/// has no effect, and callers must not assume one.
#[derive(Clone, Copy, Debug, PartialEq, Eq, Structural)]
pub enum ControlRequest {
    ScheduleUpdate,
    SetFullscreen(bool),
    ShowKeyboard(bool),
}

/// One outward effect of a loop iteration, performed by the surrounding
/// thread: a call into the embedded event handler, the shared display-size
/// record, or the host shim. Mouse buttons are forwarded as the single
/// modeled logical button.
#[derive(Clone, Copy, Debug, PartialEq, Eq, Structural)]
pub enum Action {
    SetDisplaySize { width: i32, height: i32 },
    Resize { width: i32, height: i32 },
    MouseMotion { x_bits: u32, y_bits: u32 },
    MouseDown { x_bits: u32, y_bits: u32 },
    MouseUp { x_bits: u32, y_bits: u32 },
    CharInput { codepoint: u32, mods: KeyMods, repeat: bool },
    KeyDownInput { key: KeyCode, mods: KeyMods, repeat: bool },
    KeyUpInput { key: KeyCode, mods: KeyMods },
    AcceptQuit,
    LockContext,
    Update,
    Draw,
    SwapBuffers,
    UnlockContext,
}

/// The worker thread's own state: window lifecycle, the quit latch that
/// ends the loop, the recorded fullscreen flag, and the pending-update
/// flag driving the pacing policy.
#[derive(Clone, Copy, Debug, PartialEq, Eq, Structural)]
pub struct MainThreadState {
    pub state: WindowState,
    pub quit: bool,
    pub fullscreen: bool,
    pub update_requested: bool,
}

/// What one loop iteration did: the actions to perform, in order, and
/// whether a frame was rendered.
pub struct StepOutcome {
    pub actions: Vec<Action>,
    pub rendered: bool,
}

/// The state after one control request: `ScheduleUpdate` raises the
/// pending-update flag, `SetFullscreen` records the wanted mode, and
/// `ShowKeyboard` changes nothing.
pub open spec fn spec_apply_request(s: MainThreadState, r: ControlRequest) -> MainThreadState {
    match r {
        ControlRequest::ScheduleUpdate => MainThreadState { update_requested: true, ..s },
        ControlRequest::SetFullscreen(on) => MainThreadState { fullscreen: on, ..s },
        ControlRequest::ShowKeyboard(_) => s,
    }
}

/// The state after draining a sequence of control requests in order.
pub open spec fn spec_apply_requests(s: MainThreadState, rs: Seq<ControlRequest>) -> MainThreadState
    decreases rs.len(),
{
    if rs.len() == 0 {
        s
    } else {
        spec_apply_requests(spec_apply_request(s, rs[0]), rs.skip(1))
    }
}

/// The state after one wire event. A destroyed window absorbs every
/// message; otherwise `ViewCreated` enters `Created`, `ViewDestroyed`
/// enters the terminal `Destroyed` state and latches quit, and every
/// other event leaves the state unchanged.
pub open spec fn spec_apply_event(s: MainThreadState, e: Event) -> MainThreadState {
    if s.state is Destroyed {
        s
    } else {
        match e {
            Event::ViewCreated => MainThreadState { state: WindowState::Created, ..s },
            Event::ViewDestroyed => MainThreadState {
                state: WindowState::Destroyed,
                quit: true,
                ..s
            },
            _ => s,
        }
    }
}

/// The actions one wire event causes: nothing once destroyed; the
/// shutdown acknowledgement on destroy; the display-size record update
/// and a resize on a view change; forwarded input otherwise, with
/// unmapped scan codes and invalid code points silently dropped.
pub open spec fn spec_event_actions(s: MainThreadState, e: Event) -> Seq<Action> {
    if s.state is Destroyed {
        Seq::<Action>::empty()
    } else {
        match e {
            Event::ViewCreated => Seq::<Action>::empty(),
            Event::ViewDestroyed => seq![Action::AcceptQuit],
            Event::ViewChanged { width, height } => seq![
                Action::SetDisplaySize { width, height },
                Action::Resize { width, height },
            ],
            Event::MouseMoved { x_bits, y_bits } => seq![Action::MouseMotion { x_bits, y_bits }],
            Event::MouseButtonDown { x_bits, y_bits } => seq![Action::MouseDown { x_bits, y_bits }],
            Event::MouseButtonUp { x_bits, y_bits } => seq![Action::MouseUp { x_bits, y_bits }],
            Event::Character { codepoint, modifiers, repeat } => if is_valid_scalar(codepoint) {
                seq![
                    Action::CharInput { codepoint, mods: spec_key_mods(modifiers), repeat },
                ]
            } else {
                Seq::<Action>::empty()
            },
            Event::KeyDown { keycode, modifiers, repeat } => match spec_convert_keycode(keycode) {
                Some(key) => seq![
                    Action::KeyDownInput { key, mods: spec_key_mods(modifiers), repeat },
                ],
                None => Seq::<Action>::empty(),
            },
            Event::KeyUp { keycode, modifiers } => match spec_convert_keycode(keycode) {
                Some(key) => seq![Action::KeyUpInput { key, mods: spec_key_mods(modifiers) }],
                None => Seq::<Action>::empty(),
            },
        }
    }
}

/// The state after a sequence of wire events, applied in order.
pub open spec fn spec_run_events_state(s: MainThreadState, evs: Seq<Event>) -> MainThreadState
    decreases evs.len(),
{
    if evs.len() == 0 {
        s
    } else {
        spec_run_events_state(spec_apply_event(s, evs[0]), evs.skip(1))
    }
}

/// The actions of a sequence of wire events, concatenated in order.
pub open spec fn spec_run_events_actions(s: MainThreadState, evs: Seq<Event>) -> Seq<Action>
    decreases evs.len(),
{
    if evs.len() == 0 {
        Seq::<Action>::empty()
    } else {
        spec_event_actions(s, evs[0]) + spec_run_events_actions(
            spec_apply_event(s, evs[0]),
            evs.skip(1),
        )
    }
}

/// The state after a frame: the pending-update flag is cleared and
/// nothing else changes.
pub open spec fn spec_frame_state(s: MainThreadState) -> MainThreadState {
    MainThreadState { update_requested: false, ..s }
}

/// What rendering a frame does: the handler's per-frame update always
/// runs; while a view exists it runs under the rendering-context lock,
/// followed by draw and present, so the lock is held only for the render
/// itself.
pub open spec fn spec_frame_actions(s: MainThreadState) -> Seq<Action> {
    if s.state is Created {
        seq![
            Action::LockContext,
            Action::Update,
            Action::Draw,
            Action::SwapBuffers,
            Action::UnlockContext,
        ]
    } else {
        seq![Action::Update]
    }
}

/// Pacing policy: the iteration waits on the channel exactly when
/// blocking mode is configured and no update is pending.
pub open spec fn spec_block_on_wait(blocking_mode: bool, s: MainThreadState) -> bool {
    blocking_mode && !s.update_requested
}

/// A frame is rendered exactly when blocking mode is off or an update is
/// pending.
pub open spec fn spec_should_render(blocking_mode: bool, s: MainThreadState) -> bool {
    !blocking_mode || s.update_requested
}

/// The messages one iteration receives from a channel holding `q`: the
/// front message alone (if any) under a blocking wait, the whole queue
/// under the polling drain.
pub open spec fn spec_received(blocking_mode: bool, s: MainThreadState, q: Seq<Event>) -> Seq<
    Event,
> {
    if spec_block_on_wait(blocking_mode, s) {
        if q.len() == 0 {
            Seq::<Event>::empty()
        } else {
            q.take(1)
        }
    } else {
        q
    }
}

/// Draining a run of requests one more request at a time.
pub proof fn lemma_apply_requests_snoc(s: MainThreadState, rs: Seq<ControlRequest>, r: ControlRequest)
    ensures
        spec_apply_requests(s, rs.push(r)) == spec_apply_request(spec_apply_requests(s, rs), r),
    decreases rs.len(),
{
    reveal_with_fuel(spec_apply_requests, 2);
    if rs.len() == 0 {
        assert(rs.push(r).skip(1) =~= Seq::<ControlRequest>::empty());
    } else {
        assert(rs.push(r).skip(1) =~= rs.skip(1).push(r));
        lemma_apply_requests_snoc(spec_apply_request(s, rs[0]), rs.skip(1), r);
    }
}

/// A run of no events changes nothing and forwards nothing.
pub proof fn lemma_run_events_empty(s: MainThreadState)
    ensures
        spec_run_events_state(s, Seq::<Event>::empty()) == s,
        spec_run_events_actions(s, Seq::<Event>::empty()) == Seq::<Action>::empty(),
{
}

/// A run of one event is that event's own transition and actions.
pub proof fn lemma_run_events_singleton(s: MainThreadState, e: Event)
    ensures
        spec_run_events_state(s, seq![e]) == spec_apply_event(s, e),
        spec_run_events_actions(s, seq![e]) == spec_event_actions(s, e),
{
    reveal_with_fuel(spec_run_events_state, 2);
    reveal_with_fuel(spec_run_events_actions, 2);
    assert(seq![e].skip(1) =~= Seq::<Event>::empty());
    assert(spec_event_actions(s, e) + Seq::<Action>::empty() =~= spec_event_actions(s, e));
}

/// Processing a run of events one more event at a time.
pub proof fn lemma_run_events_snoc(s: MainThreadState, evs: Seq<Event>, e: Event)
    ensures
        spec_run_events_state(s, evs.push(e)) == spec_apply_event(
            spec_run_events_state(s, evs),
            e,
        ),
        spec_run_events_actions(s, evs.push(e)) == spec_run_events_actions(s, evs)
            + spec_event_actions(spec_run_events_state(s, evs), e),
    decreases evs.len(),
{
    reveal_with_fuel(spec_run_events_state, 2);
    reveal_with_fuel(spec_run_events_actions, 2);
    if evs.len() == 0 {
        assert(evs.push(e).skip(1) =~= Seq::<Event>::empty());
        assert(spec_event_actions(s, e) + Seq::<Action>::empty() =~= spec_event_actions(s, e));
        assert(Seq::<Action>::empty() + spec_event_actions(s, e) =~= spec_event_actions(s, e));
    } else {
        assert(evs.push(e).skip(1) =~= evs.skip(1).push(e));
        lemma_run_events_snoc(spec_apply_event(s, evs[0]), evs.skip(1), e);
        assert(spec_event_actions(s, evs[0]) + (spec_run_events_actions(
            spec_apply_event(s, evs[0]),
            evs.skip(1),
        ) + spec_event_actions(spec_run_events_state(s, evs), e)) =~= (spec_event_actions(
            s,
            evs[0],
        ) + spec_run_events_actions(spec_apply_event(s, evs[0]), evs.skip(1)))
            + spec_event_actions(spec_run_events_state(s, evs), e));
    }
}

impl MainThreadState {
    /// The state the worker starts the loop in: no view yet, quit unset,
    /// and an update forced so an initial frame renders.
    pub fn new(fullscreen: bool) -> (s: MainThreadState)
        ensures
            s.state is Uninitialized,
            !s.quit,
            s.fullscreen == fullscreen,
            s.update_requested,
    {
        MainThreadState {
            state: WindowState::Uninitialized,
            quit: false,
            fullscreen,
            update_requested: true,
        }
    }

    /// Apply one control request.
    pub fn process_request(&mut self, request: ControlRequest)
        ensures
            *final(self) == spec_apply_request(*old(self), request),
    {
        match request {
            ControlRequest::ScheduleUpdate => {
                self.update_requested = true;
            },
            ControlRequest::SetFullscreen(on) => {
                self.fullscreen = on;
            },
            ControlRequest::ShowKeyboard(_) => {
            },
        }
    }

    /// Apply one wire event: take the lifecycle transition and return the
    /// actions to forward, exactly as given by [`spec_apply_event`] and
    /// [`spec_event_actions`].
    pub fn process_message(&mut self, msg: Event) -> (actions: Vec<Action>)
        ensures
            *final(self) == spec_apply_event(*old(self), msg),
            actions@ == spec_event_actions(*old(self), msg),
    {
        let mut actions: Vec<Action> = Vec::new();
        if self.state == WindowState::Destroyed {
            return actions;
        }
        match msg {
            Event::ViewCreated => {
                self.state = WindowState::Created;
            },
            Event::ViewDestroyed => {
                self.state = WindowState::Destroyed;
                self.quit = true;
                actions.push(Action::AcceptQuit);
            },
            Event::ViewChanged { width, height } => {
                actions.push(Action::SetDisplaySize { width, height });
                actions.push(Action::Resize { width, height });
            },
            Event::MouseMoved { x_bits, y_bits } => {
                actions.push(Action::MouseMotion { x_bits, y_bits });
            },
            Event::MouseButtonDown { x_bits, y_bits } => {
                actions.push(Action::MouseDown { x_bits, y_bits });
            },
            Event::MouseButtonUp { x_bits, y_bits } => {
                actions.push(Action::MouseUp { x_bits, y_bits });
            },
            Event::Character { codepoint, modifiers, repeat } => {
                if valid_scalar(codepoint) {
                    actions.push(
                        Action::CharInput { codepoint, mods: key_mods(modifiers), repeat },
                    );
                }
            },
            Event::KeyDown { keycode, modifiers, repeat } => {
                match convert_keycode(keycode) {
                    Some(key) => {
                        actions.push(
                            Action::KeyDownInput { key, mods: key_mods(modifiers), repeat },
                        );
                    },
                    None => {
                    },
                }
            },
            Event::KeyUp { keycode, modifiers } => {
                match convert_keycode(keycode) {
                    Some(key) => {
                        actions.push(Action::KeyUpInput { key, mods: key_mods(modifiers) });
                    },
                    None => {
                    },
                }
            },
        }
        proof {
            assert(actions@ =~= spec_event_actions(*old(self), msg));
        }
        actions
    }

    /// Render one frame: clear the pending-update flag and return the
    /// frame's actions, exactly as given by [`spec_frame_actions`].
    pub fn frame(&mut self) -> (actions: Vec<Action>)
        ensures
            *final(self) == spec_frame_state(*old(self)),
            actions@ == spec_frame_actions(*old(self)),
    {
        let mut actions: Vec<Action> = Vec::new();
        if self.state == WindowState::Created {
            actions.push(Action::LockContext);
            actions.push(Action::Update);
            actions.push(Action::Draw);
            actions.push(Action::SwapBuffers);
            actions.push(Action::UnlockContext);
        } else {
            actions.push(Action::Update);
        }
        self.update_requested = false;
        proof {
            assert(actions@ =~= spec_frame_actions(*old(self)));
        }
        actions
    }

    /// One iteration of the worker loop: drain the control request queue
    /// whole, receive wire events per the pacing policy — a single
    /// blocking wait, or a drain of every ready message — apply each in
    /// order, and render a frame exactly when [`spec_should_render`] says
    /// so.
    pub fn step(
        &mut self,
        blocking_mode: bool,
        requests: &mut RequestQueue,
        chan: &mut Channel,
    ) -> (out: StepOutcome)
        ensures
            final(requests)@ == Seq::<ControlRequest>::empty(),
            ({
                let s1 = spec_apply_requests(*old(self), old(requests)@);
                let received = spec_received(blocking_mode, s1, old(chan)@);
                let s2 = spec_run_events_state(s1, received);
                let render = spec_should_render(blocking_mode, s2);
                &&& final(chan)@ == old(chan)@.skip(received.len() as int)
                &&& final(chan).cap() == old(chan).cap()
                &&& *final(self) == if render {
                    spec_frame_state(s2)
                } else {
                    s2
                }
                &&& out.rendered == render
                &&& out.actions@ == spec_run_events_actions(s1, received) + if render {
                    spec_frame_actions(s2)
                } else {
                    Seq::<Action>::empty()
                }
            }),
    {
        let ghost s0 = *self;
        let mut actions: Vec<Action> = Vec::new();

        let pending = requests.drain();
        let mut i: usize = 0;
        while i < pending.len()
            invariant
                i <= pending@.len(),
                pending@ == old(requests)@,
                *self == spec_apply_requests(s0, pending@.take(i as int)),
            decreases pending@.len() - i,
        {
            self.process_request(pending[i]);
            i = i + 1;
            proof {
                assert(pending@.take(i as int) =~= pending@.take(i - 1).push(
                    pending@[i - 1],
                ));
                lemma_apply_requests_snoc(s0, pending@.take(i - 1), pending@[i - 1]);
            }
        }
        proof {
            assert(pending@.take(pending@.len() as int) =~= pending@);
        }

        let ghost s1 = *self;
        let ghost q0 = chan@;
        let ghost cap0 = chan.cap();
        let ghost received = spec_received(blocking_mode, s1, q0);

        let block_on_wait = blocking_mode && !self.update_requested;
        if block_on_wait {
            match chan.receive_blocking() {
                Some(e) => {
                    let mut acts = self.process_message(e);
                    actions.append(&mut acts);
                    proof {
                        assert(received =~= seq![e]);
                        lemma_run_events_singleton(s1, e);
                        assert(chan@ =~= q0.skip(received.len() as int));
                        assert(actions@ =~= spec_run_events_actions(s1, received));
                    }
                },
                None => {
                    proof {
                        assert(received =~= Seq::<Event>::empty());
                        lemma_run_events_empty(s1);
                        assert(chan@ =~= q0.skip(0));
                        assert(actions@ =~= spec_run_events_actions(s1, received));
                    }
                },
            }
        } else {
            let ghost acts1 = actions@;
            let ghost mut consumed: int = 0;
            while chan.len() > 0
                invariant
                    0 <= consumed <= q0.len(),
                    chan@ == q0.skip(consumed),
                    chan.cap() == cap0,
                    *self == spec_run_events_state(s1, q0.take(consumed)),
                    actions@ == acts1 + spec_run_events_actions(s1, q0.take(consumed)),
                decreases chan@.len(),
            {
                match chan.receive_timeout() {
                    Some(e) => {
                        let mut acts = self.process_message(e);
                        actions.append(&mut acts);
                        proof {
                            consumed = consumed + 1;
                            assert(q0.take(consumed) =~= q0.take(consumed - 1).push(
                                q0[consumed - 1],
                            ));
                            lemma_run_events_snoc(s1, q0.take(consumed - 1), q0[consumed - 1]);
                            assert(actions@ =~= acts1 + spec_run_events_actions(
                                s1,
                                q0.take(consumed),
                            ));
                        }
                    },
                    None => {
                        proof {
                            assert(false);
                        }
                    },
                }
            }
            proof {
                assert(consumed == q0.len());
                assert(q0.take(consumed) =~= q0);
                assert(received =~= q0);
                assert(q0.skip(q0.len() as int) =~= chan@);
            }
        }

        proof {
            assert(*self == spec_run_events_state(s1, received));
            assert(actions@ =~= spec_run_events_actions(s1, received));
        }
        let ghost acts_events = actions@;

        let rendered: bool;
        if !blocking_mode || self.update_requested {
            let mut facts = self.frame();
            actions.append(&mut facts);
            rendered = true;
        } else {
            rendered = false;
        }
        proof {
            let s2 = spec_run_events_state(s1, received);
            if spec_should_render(blocking_mode, s2) {
                assert(actions@ =~= spec_run_events_actions(s1, received) + spec_frame_actions(
                    s2,
                ));
            } else {
                assert(actions@ =~= spec_run_events_actions(s1, received)
                    + Seq::<Action>::empty());
            }
        }
        StepOutcome { actions, rendered }
    }
}

/// Lifecycle: from an uninitialized window, view creation, a view change,
/// and view destruction drive the state Uninitialized → Created →
/// Destroyed, and quit is set exactly once, by the destroy event.
pub proof fn lemma_lifecycle(s0: MainThreadState, width: i32, height: i32)
    requires
        s0.state is Uninitialized,
        !s0.quit,
    ensures
        ({
            let s1 = spec_apply_event(s0, Event::ViewCreated);
            let s2 = spec_apply_event(s1, Event::ViewChanged { width, height });
            let s3 = spec_apply_event(s2, Event::ViewDestroyed);
            &&& s1.state is Created && !s1.quit
            &&& s2.state is Created && !s2.quit
            &&& s3.state is Destroyed && s3.quit
        }),
{
}

/// Processing a message latches quit exactly on the destroy event: quit
/// is set afterwards iff it was already set, or the window was not yet
/// destroyed and the message is `ViewDestroyed`; once set it stays set.
pub proof fn lemma_quit_exactly_on_destroy(s: MainThreadState, e: Event)
    ensures
        spec_apply_event(s, e).quit == (s.quit || (!(s.state is Destroyed)
            && e is ViewDestroyed)),
{
}

/// A destroyed window absorbs every message: no state change, and no
/// action is ever forwarded to the handler afterwards.
pub proof fn lemma_destroyed_forwards_nothing(s: MainThreadState, evs: Seq<Event>)
    requires
        s.state is Destroyed,
    ensures
        spec_run_events_state(s, evs) == s,
        spec_run_events_actions(s, evs) == Seq::<Action>::empty(),
    decreases evs.len(),
{
    if evs.len() > 0 {
        lemma_destroyed_forwards_nothing(s, evs.skip(1));
        assert(Seq::<Action>::empty() + Seq::<Action>::empty() =~= Seq::<Action>::empty());
    }
}

/// Wire events never request an update: the pending-update flag is
/// untouched by processing any run of messages.
pub proof fn lemma_events_preserve_update_requested(s: MainThreadState, evs: Seq<Event>)
    ensures
        spec_run_events_state(s, evs).update_requested == s.update_requested,
    decreases evs.len(),
{
    if evs.len() > 0 {
        lemma_events_preserve_update_requested(spec_apply_event(s, evs[0]), evs.skip(1));
    }
}

/// Pacing: with blocking mode on and no update pending, an iteration
/// waits once, consumes at most the single front message, and renders no
/// frame; with blocking mode off, every iteration renders exactly one
/// frame whatever was received.
pub proof fn lemma_pacing(s: MainThreadState, q: Seq<Event>)
    ensures
        !s.update_requested ==> spec_received(true, s, q).len() <= 1,
        !s.update_requested ==> !spec_should_render(
            true,
            spec_run_events_state(s, spec_received(true, s, q)),
        ),
        forall|evs: Seq<Event>|
            spec_should_render(false, #[trigger] spec_run_events_state(s, evs)),
{
    lemma_events_preserve_update_requested(s, spec_received(true, s, q));
}

/// An unmapped scan code yields no forwarded key event.
pub proof fn lemma_unmapped_key_dropped(
    s: MainThreadState,
    keycode: i32,
    modifiers: i32,
    repeat: bool,
)
    requires
        spec_convert_keycode(keycode) is None,
    ensures
        spec_event_actions(s, Event::KeyDown { keycode, modifiers, repeat })
            == Seq::<Action>::empty(),
        spec_event_actions(s, Event::KeyUp { keycode, modifiers }) == Seq::<Action>::empty(),
{
}

} // verus!
