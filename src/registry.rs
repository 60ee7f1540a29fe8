//! The registry of hooked windows: attach and detach, and the decisions of
//! the hook that sits in each window's message chain.
use std::collections::HashMap;

use vstd::prelude::*;

use crate::channel::{send_event, unbounded_channel};
use crate::keys::{Event, KeyEvent, RawKeyEventData};
use crate::repeat::{after_press, after_release, count_of, RepeatTracker};
use crate::translate::{get_modifiers, modifiers_of_state, translate_key, translate_spec, KeyboardState};

verus! {

broadcast use vstd::std_specs::hash::group_hash_axioms;

/// Message code of a key going down.
pub const WM_KEYDOWN: u32 = 0x0100;
/// Message code of a key going up.
pub const WM_KEYUP: u32 = 0x0101;
/// Message code of a key going down while Alt is held, or of F10.
pub const WM_SYSKEYDOWN: u32 = 0x0104;
/// Message code of a key going up while Alt is held, or of F10.
pub const WM_SYSKEYUP: u32 = 0x0105;
/// Error code of an operation on a window that no longer exists.
pub const ERROR_INVALID_WINDOW_HANDLE: u32 = 1400;

/// Why a window could not be attached.
#[derive(Clone, Copy, Debug, PartialEq, Eq, Structural)]
#[non_exhaustive]
pub enum AttachError {
    /// The system refused to install the hook; carries its error code.
    AttachFailed(u32),
    /// The registry's lock was broken by a writer that panicked.
    PoisonError,
    /// The window already has a listener.
    AlreadyAttached,
}

/// Why a window could not be detached.
#[derive(Clone, Copy, Debug, PartialEq, Eq, Structural)]
pub enum DetachError {
    /// The system refused to put the previous procedure back; carries its
    /// error code.
    RestoreFailed(u32),
}

/// A native window message, as the window procedure receives it.
#[derive(Clone, Copy, Debug, PartialEq, Eq, Structural)]
pub struct Message {
    pub msg: u32,
    pub wparam: usize,
    pub lparam: isize,
}

/// What the system reports about a key message, read while it is handled.
#[derive(Clone, Copy, Debug)]
pub struct KeyInput {
    /// The state of every virtual key.
    pub key_state: KeyboardState,
    /// The scan code of the message's key.
    pub scan_code: u32,
    /// The UTF-16 unit that the keyboard layout gives for the key with no
    /// modifier held; `None` when it gives nothing.
    pub decoded: Option<u16>,
}

/// Where a message goes on: the window's previous procedure, or, for a
/// window without a hook, the system's default (`None`).
#[derive(Clone, Copy, Debug, PartialEq, Eq, Structural)]
pub struct Forward {
    pub procedure: Option<isize>,
    pub message: Message,
}

/// The outcome of one message through the hook: where it goes on, and the
/// event handed to the window's listener, if any.
#[derive(Clone, Copy, Debug, PartialEq, Eq, Structural)]
pub struct Dispatch {
    pub forward: Forward,
    pub event: Option<Event>,
}

/// Whether `msg` is a key-down message, plain or system.
pub open spec fn is_key_down(msg: u32) -> bool {
    msg == WM_KEYDOWN || msg == WM_SYSKEYDOWN
}

/// Whether `msg` is a key-up message, plain or system.
pub open spec fn is_key_up(msg: u32) -> bool {
    msg == WM_KEYUP || msg == WM_SYSKEYUP
}

/// Whether `msg` is a key message at all.
pub open spec fn is_key_message_spec(msg: u32) -> bool {
    is_key_down(msg) || is_key_up(msg)
}

/// The key event that a key message with raw key code `wparam` describes.
pub open spec fn key_event_spec(wparam: usize, input: KeyInput) -> KeyEvent {
    KeyEvent {
        key: translate_spec(wparam, input.decoded),
        modifiers: modifiers_of_state(input.key_state@),
        raw: RawKeyEventData { virtual_key_code: wparam as u32, virtual_scan_code: input.scan_code },
    }
}

/// The event of a key message, given the window's repeat counters before it:
/// a press for a key-down message, a release for any other.
pub open spec fn key_message_event(
    counts: Map<u32, usize>,
    msg: u32,
    wparam: usize,
    input: KeyInput,
) -> Event {
    if is_key_down(msg) {
        Event::Press {
            key: key_event_spec(wparam, input),
            repeat_count: count_of(counts, wparam as u32),
        }
    } else {
        Event::Release(key_event_spec(wparam, input))
    }
}

/// The window's repeat counters after a key message.
pub open spec fn counts_after_message(counts: Map<u32, usize>, msg: u32, wparam: usize) -> Map<
    u32,
    usize,
> {
    if is_key_down(msg) {
        after_press(counts, wparam as u32)
    } else {
        after_release(counts, wparam as u32)
    }
}

/// Where a message to `window` goes on, given the registry's procedures.
pub open spec fn forward_spec(procedures: Map<isize, isize>, window: isize, message: Message) -> Forward {
    Forward {
        procedure: if procedures.contains_key(window) {
            Some(procedures[window])
        } else {
            None
        },
        message,
    }
}

/// One message through the hook, on the registry's procedures and repeat
/// counters: the counters after it, and its dispatch. An event comes only
/// of a key message to a hooked window whose key input was read.
pub open spec fn dispatch_spec(
    procedures: Map<isize, isize>,
    repeats: Map<isize, Map<u32, usize>>,
    window: isize,
    message: Message,
    key_input: Option<KeyInput>,
) -> (Map<isize, Map<u32, usize>>, Dispatch) {
    let forward = forward_spec(procedures, window, message);
    if procedures.contains_key(window) && is_key_message_spec(message.msg) && key_input.is_some() {
        let counts = repeats[window];
        (
            repeats.insert(window, counts_after_message(counts, message.msg, message.wparam)),
            Dispatch {
                forward,
                event: Some(
                    key_message_event(counts, message.msg, message.wparam, key_input.unwrap()),
                ),
            },
        )
    } else {
        (repeats, Dispatch { forward, event: None })
    }
}

/// The logs of sent events after one dispatch to `window`: its event, if
/// any, follows the ones that window's channel was given before.
pub open spec fn sent_after(sent: Map<isize, Seq<Event>>, window: isize, d: Dispatch) -> Map<
    isize,
    Seq<Event>,
> {
    match d.event {
        Some(e) => sent.insert(window, sent[window].push(e)),
        None => sent,
    }
}

/// The logs of sent events after a run of dispatches to `window`.
pub open spec fn sent_after_run(
    sent: Map<isize, Seq<Event>>,
    window: isize,
    dispatches: Seq<Dispatch>,
) -> Map<isize, Seq<Event>>
    decreases dispatches.len(),
{
    if dispatches.len() == 0 {
        sent
    } else {
        sent_after_run(sent_after(sent, window, dispatches[0]), window, dispatches.drop_first())
    }
}

/// The events of a run of dispatches, in the run's order.
pub open spec fn events_of(dispatches: Seq<Dispatch>) -> Seq<Event>
    decreases dispatches.len(),
{
    if dispatches.len() == 0 {
        Seq::empty()
    } else {
        (match dispatches[0].event {
            Some(e) => seq![e],
            None => Seq::empty(),
        }) + events_of(dispatches.drop_first())
    }
}

/// Whether `msg` is a key-down or key-up message, plain or system.
pub fn is_key_message(msg: u32) -> (r: bool)
    ensures
        r == is_key_message_spec(msg),
{
    msg == WM_KEYDOWN || msg == WM_SYSKEYDOWN || msg == WM_KEYUP || msg == WM_SYSKEYUP
}

/// The hook of one window: the procedure it replaced, the producer end of
/// the window's event channel, the window's repeat counters, and the log of
/// the events handed to the channel.
pub struct Hook {
    previous_procedure: isize,
    events: kanal::Sender<Event>,
    repeats: RepeatTracker,
    sent: Ghost<Seq<Event>>,
}

impl Hook {
    /// The procedure that the hook replaced.
    pub closed spec fn previous(&self) -> isize {
        self.previous_procedure
    }

    /// The repeat counters of the window's keys.
    pub closed spec fn counts(&self) -> Map<u32, usize> {
        self.repeats@
    }

    /// The events handed to the window's channel, oldest first.
    pub closed spec fn sent(&self) -> Seq<Event> {
        self.sent@
    }

    /// A hook that replaced `previous_procedure` and hands events to `events`,
    /// with no key held and no event sent yet.
    pub fn new(previous_procedure: isize, events: kanal::Sender<Event>) -> (r: Hook)
        ensures
            r.previous() == previous_procedure,
            r.counts() == Map::<u32, usize>::empty(),
            r.sent() == Seq::<Event>::empty(),
    {
        Hook {
            previous_procedure,
            events,
            repeats: RepeatTracker::new(),
            sent: Ghost(Seq::empty()),
        }
    }

    /// The procedure that the hook replaced.
    pub fn previous_procedure(&self) -> (r: isize)
        ensures
            r == self.previous(),
    {
        self.previous_procedure
    }
}

/// Handles a key message to a hooked window: builds its event from the key
/// input, counts the press or resets the key's counter on release, and hands
/// the event to the window's channel, after those sent before it. Returns
/// the event.
pub fn handle_key_message(hook: &mut Hook, msg: u32, wparam: usize, input: &KeyInput) -> (e: Event)
    ensures
        e == key_message_event(old(hook).counts(), msg, wparam, *input),
        final(hook).counts() == counts_after_message(old(hook).counts(), msg, wparam),
        final(hook).previous() == old(hook).previous(),
        final(hook).sent() == old(hook).sent().push(e),
{
    let modifiers = get_modifiers(&input.key_state);
    let key = translate_key(wparam, input.decoded);
    let vk = wparam as u32;
    let key_event = KeyEvent {
        key,
        modifiers,
        raw: RawKeyEventData { virtual_key_code: vk, virtual_scan_code: input.scan_code },
    };
    let event = if msg == WM_KEYDOWN || msg == WM_SYSKEYDOWN {
        let repeat_count = hook.repeats.press(vk);
        Event::Press { key: key_event, repeat_count }
    } else {
        hook.repeats.release(vk);
        Event::Release(key_event)
    };
    let _ = send_event(&hook.events, event);
    hook.sent = Ghost(hook.sent@.push(event));
    event
}

/// Whether an attach succeeds, and if not, why: a window with a hook is
/// refused, and an install that returned no previous procedure failed with
/// the system's error code.
pub open spec fn attach_outcome(attached: bool, previous_procedure: isize, last_error: u32) -> Result<
    (),
    AttachError,
> {
    if attached {
        Err(AttachError::AlreadyAttached)
    } else if previous_procedure == 0 {
        Err(AttachError::AttachFailed(last_error))
    } else {
        Ok(())
    }
}

/// Whether putting the previous procedure back succeeded: the system
/// returned a procedure, or the window no longer exists.
pub open spec fn restore_outcome(result: isize, last_error: u32) -> Result<(), DetachError> {
    if result != 0 || last_error == ERROR_INVALID_WINDOW_HANDLE {
        Ok(())
    } else {
        Err(DetachError::RestoreFailed(last_error))
    }
}

/// The hooks of all attached windows, keyed by window handle.
pub struct HookRegistry {
    hooks: HashMap<isize, Hook>,
}

impl HookRegistry {
    /// For each attached window, the procedure its hook replaced.
    pub closed spec fn procedures(&self) -> Map<isize, isize> {
        self.hooks@.map_values(|h: Hook| h.previous())
    }

    /// For each attached window, its repeat counters.
    pub closed spec fn repeats(&self) -> Map<isize, Map<u32, usize>> {
        self.hooks@.map_values(|h: Hook| h.counts())
    }

    /// For each attached window, the events handed to its channel, oldest
    /// first.
    pub closed spec fn sent(&self) -> Map<isize, Seq<Event>> {
        self.hooks@.map_values(|h: Hook| h.sent())
    }

    /// The maps have the attached windows as their keys.
    pub proof fn lemma_same_windows(&self)
        ensures
            self.procedures().dom() == self.repeats().dom(),
            self.procedures().dom() == self.sent().dom(),
    {
        assert(self.procedures().dom() =~= self.repeats().dom());
        assert(self.procedures().dom() =~= self.sent().dom());
    }

    /// A registry with no window attached.
    pub fn new() -> (r: HookRegistry)
        ensures
            r.procedures() == Map::<isize, isize>::empty(),
            r.repeats() == Map::<isize, Map<u32, usize>>::empty(),
            r.sent() == Map::<isize, Seq<Event>>::empty(),
    {
        let r = HookRegistry { hooks: HashMap::new() };
        assert(r.sent() =~= Map::<isize, Seq<Event>>::empty());
        assert(r.procedures() =~= Map::<isize, isize>::empty());
        assert(r.repeats() =~= Map::<isize, Map<u32, usize>>::empty());
        r
    }

    /// Whether `window` has a hook.
    pub fn is_attached(&self, window: isize) -> (r: bool)
        ensures
            r == self.procedures().contains_key(window),
    {
        self.hooks.contains_key(&window)
    }

    /// Whether `window` may be attached, asked before its hook is installed:
    /// a window that already has a hook is refused.
    pub fn check_attach(&self, window: isize) -> (r: Result<(), AttachError>)
        ensures
            r == (if self.procedures().contains_key(window) {
                Err(AttachError::AlreadyAttached)
            } else {
                Ok(())
            }),
    {
        if self.hooks.contains_key(&window) {
            Err(AttachError::AlreadyAttached)
        } else {
            Ok(())
        }
    }

    /// Where a message to `window` goes on; for a message that is not a key
    /// message this is all the hook does with it, and reads the registry only.
    pub fn forward(&self, window: isize, message: Message) -> (r: Forward)
        ensures
            r == forward_spec(self.procedures(), window, message),
    {
        let procedure = match self.hooks.get(&window) {
            Some(hook) => Some(hook.previous_procedure),
            None => None,
        };
        Forward { procedure, message }
    }

    /// Records the hook of `window` once the system has installed it in
    /// place of `previous_procedure` (0: the install failed with
    /// `last_error`). On success returns the consumer end of the window's new
    /// event channel. A window that already has a hook is refused, and a
    /// refused attach leaves the registry as it was.
    pub fn attach(&mut self, window: isize, previous_procedure: isize, last_error: u32) -> (r:
        Result<kanal::Receiver<Event>, AttachError>)
        ensures
            r.is_ok() == attach_outcome(
                old(self).procedures().contains_key(window),
                previous_procedure,
                last_error,
            ).is_ok(),
            r matches Err(e) ==> Err::<(), AttachError>(e) == attach_outcome(
                old(self).procedures().contains_key(window),
                previous_procedure,
                last_error,
            ),
            r.is_ok() ==> final(self).procedures() == old(self).procedures().insert(
                window,
                previous_procedure,
            ),
            r.is_ok() ==> final(self).repeats() == old(self).repeats().insert(
                window,
                Map::<u32, usize>::empty(),
            ),
            r.is_ok() ==> final(self).sent() == old(self).sent().insert(
                window,
                Seq::<Event>::empty(),
            ),
            r.is_err() ==> *final(self) == *old(self),
    {
        if self.hooks.contains_key(&window) {
            return Err(AttachError::AlreadyAttached);
        }
        if previous_procedure == 0 {
            return Err(AttachError::AttachFailed(last_error));
        }
        let (sender, receiver) = unbounded_channel();
        let hook = Hook::new(previous_procedure, sender);
        self.hooks.insert(window, hook);
        assert(self.procedures() =~= old(self).procedures().insert(window, previous_procedure));
        assert(self.repeats() =~= old(self).repeats().insert(window, Map::<u32, usize>::empty()));
        assert(self.sent() =~= old(self).sent().insert(window, Seq::<Event>::empty()));
        Ok(receiver)
    }

    /// Removes the hook of `window`, which also closes the producer end of its
    /// event channel, and returns the procedure to put back; `None`, and no
    /// change, for a window without a hook.
    pub fn detach(&mut self, window: isize) -> (r: Option<isize>)
        ensures
            r == (if old(self).procedures().contains_key(window) {
                Some(old(self).procedures()[window])
            } else {
                None::<isize>
            }),
            final(self).procedures() == old(self).procedures().remove(window),
            final(self).repeats() == old(self).repeats().remove(window),
            final(self).sent() == old(self).sent().remove(window),
    {
        let removed = self.hooks.remove(&window);
        assert(self.sent() =~= old(self).sent().remove(window));
        assert(self.procedures() =~= old(self).procedures().remove(window));
        assert(self.repeats() =~= old(self).repeats().remove(window));
        match removed {
            Some(hook) => Some(hook.previous_procedure),
            None => None,
        }
    }

    /// Judges the system's answer to putting back the procedure that `detach`
    /// returned: `result` is what it returned, `last_error` its error code.
    /// A window that was already destroyed is no error.
    pub fn restore_result(result: isize, last_error: u32) -> (r: Result<(), DetachError>)
        ensures
            r == restore_outcome(result, last_error),
    {
        if result != 0 || last_error == ERROR_INVALID_WINDOW_HANDLE {
            Ok(())
        } else {
            Err(DetachError::RestoreFailed(last_error))
        }
    }

    /// Decides what becomes of one message to `window`, as the hook in its
    /// message chain: a key message to a hooked window, with its key input
    /// read (`key_input`), gives an event, which goes to that window's channel
    /// after the ones sent before it; every
    /// message goes on, unchanged, to the procedure the hook replaced, or to
    /// the system's default for a window without a hook.
    pub fn trampoline(&mut self, window: isize, message: Message, key_input: Option<KeyInput>) -> (r:
        Dispatch)
        ensures
            (final(self).repeats(), r) == dispatch_spec(
                old(self).procedures(),
                old(self).repeats(),
                window,
                message,
                key_input,
            ),
            final(self).procedures() == old(self).procedures(),
            final(self).sent() == sent_after(old(self).sent(), window, r),
    {
        let procedure = match self.hooks.get(&window) {
            Some(hook) => Some(hook.previous_procedure),
            None => None,
        };
        let forward = Forward { procedure, message };
        if procedure.is_none() || !is_key_message(message.msg) {
            return Dispatch { forward, event: None };
        }
        let input = match key_input {
            Some(input) => input,
            None => {
                return Dispatch { forward, event: None };
            },
        };
        let mut hook = match self.hooks.remove(&window) {
            Some(hook) => hook,
            None => {
                return Dispatch { forward, event: None };
            },
        };
        let event = handle_key_message(&mut hook, message.msg, message.wparam, &input);
        self.hooks.insert(window, hook);
        assert(self.procedures() =~= old(self).procedures());
        assert(self.sent() =~= old(self).sent().insert(window, old(self).sent()[window].push(event)));
        assert(self.repeats() =~= old(self).repeats().insert(
            window,
            counts_after_message(old(self).repeats()[window], message.msg, message.wparam),
        ));
        Dispatch { forward, event: Some(event) }
    }
}

/// The registry's repeat counters after a run of messages to `window`, each
/// with its key input, and the dispatch of each message in turn.
pub open spec fn replay(
    procedures: Map<isize, isize>,
    repeats: Map<isize, Map<u32, usize>>,
    window: isize,
    steps: Seq<(Message, Option<KeyInput>)>,
) -> (Map<isize, Map<u32, usize>>, Seq<Dispatch>)
    decreases steps.len(),
{
    if steps.len() == 0 {
        (repeats, Seq::empty())
    } else {
        let (next, first) = dispatch_spec(procedures, repeats, window, steps[0].0, steps[0].1);
        let (last, rest) = replay(procedures, next, window, steps.drop_first());
        (last, seq![first] + rest)
    }
}

/// Transparency of the hook: a run of messages that are not key messages
/// leaves the repeat counters as they were, raises no event, and hands every
/// message on, unchanged, exactly once and in its order, to the procedure
/// the window's hook replaced.
pub proof fn lemma_transparency(
    procedures: Map<isize, isize>,
    repeats: Map<isize, Map<u32, usize>>,
    window: isize,
    steps: Seq<(Message, Option<KeyInput>)>,
)
    requires
        forall|i: int| 0 <= i < steps.len() ==> !is_key_message_spec(#[trigger] steps[i].0.msg),
    ensures
        replay(procedures, repeats, window, steps).0 == repeats,
        replay(procedures, repeats, window, steps).1 == steps.map_values(
            |s: (Message, Option<KeyInput>)|
                Dispatch { forward: forward_spec(procedures, window, s.0), event: None },
        ),
    decreases steps.len(),
{
    if steps.len() > 0 {
        let rest = steps.drop_first();
        assert forall|i: int| 0 <= i < rest.len() implies !is_key_message_spec(
            #[trigger] rest[i].0.msg,
        ) by {
            assert(rest[i] == steps[i + 1]);
        }
        lemma_transparency(procedures, repeats, window, rest);
        assert(!is_key_message_spec(steps[0].0.msg));
        let f = |s: (Message, Option<KeyInput>)|
            Dispatch { forward: forward_spec(procedures, window, s.0), event: None };
        assert(steps.map_values(f) =~= seq![f(steps[0])] + rest.map_values(f));
    }
}

/// The attach and detach discipline: after a successful attach the window
/// has its entry, holding the procedure its hook replaced, and no other
/// window's entry changed; a second attach of the window is refused and
/// changes nothing; a detach then leaves no entry for it and the registry as
/// it was before the attach.
pub proof fn lemma_attach_detach(
    procedures: Map<isize, isize>,
    window: isize,
    previous_procedure: isize,
    last_error: u32,
    again_procedure: isize,
    again_error: u32,
)
    requires
        attach_outcome(procedures.contains_key(window), previous_procedure, last_error) is Ok,
    ensures
        ({
            let attached = procedures.insert(window, previous_procedure);
            &&& attached.contains_key(window)
            &&& attached[window] == previous_procedure
            &&& attached.dom() == procedures.dom().insert(window)
            &&& forall|w: isize| w != window && #[trigger] procedures.contains_key(w) ==> attached[w]
                == procedures[w]
            &&& attach_outcome(attached.contains_key(window), again_procedure, again_error) == Err::<
                (),
                AttachError,
            >(AttachError::AlreadyAttached)
            &&& !attached.remove(window).contains_key(window)
            &&& attached.remove(window) == procedures
        }),
{
    let attached = procedures.insert(window, previous_procedure);
    assert(attached.dom() =~= procedures.dom().insert(window));
    assert(attached.remove(window) =~= procedures);
}

/// Repeat counting on one window: key-down, key-down, key-down, key-up,
/// key-down messages of a key that was not held give presses with repeat
/// counts 0, 1 and 2, then a release, then a press counted from 0 again.
pub proof fn lemma_repeat_sequence(
    procedures: Map<isize, isize>,
    repeats: Map<isize, Map<u32, usize>>,
    window: isize,
    down: Message,
    up: Message,
    input: KeyInput,
)
    requires
        procedures.dom() == repeats.dom(),
        procedures.contains_key(window),
        is_key_down(down.msg),
        is_key_up(up.msg),
        up.wparam == down.wparam,
        count_of(repeats[window], down.wparam as u32) == 0,
    ensures
        ({
            let key = key_event_spec(down.wparam, input);
            let steps = seq![
                (down, Some(input)),
                (down, Some(input)),
                (down, Some(input)),
                (up, Some(input)),
                (down, Some(input)),
            ];
            let dispatches = replay(procedures, repeats, window, steps).1;
            &&& dispatches.len() == 5
            &&& dispatches[0].event == Some(Event::Press { key, repeat_count: 0 })
            &&& dispatches[1].event == Some(Event::Press { key, repeat_count: 1 })
            &&& dispatches[2].event == Some(Event::Press { key, repeat_count: 2 })
            &&& dispatches[3].event == Some(Event::Release(key))
            &&& dispatches[4].event == Some(Event::Press { key, repeat_count: 0 })
        }),
{
    let step_down = (down, Some(input));
    let step_up = (up, Some(input));
    let steps = seq![step_down, step_down, step_down, step_up, step_down];
    let vk = down.wparam as u32;
    let r1 = repeats.insert(window, after_press(repeats[window], vk));
    let r2 = r1.insert(window, after_press(r1[window], vk));
    let r3 = r2.insert(window, after_press(r2[window], vk));
    let r4 = r3.insert(window, after_release(r3[window], vk));
    assert(steps.drop_first() =~= seq![step_down, step_down, step_up, step_down]);
    assert(steps.drop_first().drop_first() =~= seq![step_down, step_up, step_down]);
    assert(steps.drop_first().drop_first().drop_first() =~= seq![step_up, step_down]);
    assert(steps.drop_first().drop_first().drop_first().drop_first() =~= seq![step_down]);
    assert(seq![step_down].drop_first() =~= Seq::<(Message, Option<KeyInput>)>::empty());
    reveal_with_fuel(replay, 6);
    assert(count_of(r1[window], vk) == 1);
    assert(count_of(r2[window], vk) == 2);
    assert(count_of(r4[window], vk) == 0);
}

/// Channel order: the events of a run of dispatches to one attached window
/// go to its channel exactly in the order of the run, after the events it
/// was given before; no other window's log changes.
pub proof fn lemma_channel_order(
    sent: Map<isize, Seq<Event>>,
    window: isize,
    dispatches: Seq<Dispatch>,
)
    requires
        sent.contains_key(window),
    ensures
        sent_after_run(sent, window, dispatches) == sent.insert(
            window,
            sent[window] + events_of(dispatches),
        ),
    decreases dispatches.len(),
{
    if dispatches.len() == 0 {
        assert(sent.insert(window, sent[window] + Seq::<Event>::empty()) =~= sent);
    } else {
        let next = sent_after(sent, window, dispatches[0]);
        let rest = dispatches.drop_first();
        lemma_channel_order(next, window, rest);
        let first = match dispatches[0].event {
            Some(e) => seq![e],
            None => Seq::<Event>::empty(),
        };
        assert(next[window] =~= sent[window] + first);
        assert(sent[window] + first + events_of(rest) =~= sent[window] + (first + events_of(rest)));
        assert(next.insert(window, next[window] + events_of(rest)) =~= sent.insert(
            window,
            sent[window] + events_of(dispatches),
        ));
    }
}

} // verus!
