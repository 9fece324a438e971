//! The frame loop: its two states, the input events that move it, and the
//! commands that make up one frame.

use crate::geometry::INDEX_COUNT;
use vstd::prelude::*;

verus! {

/// State of the frame loop. It starts in `Running`; `Stopped` is final.
#[derive(Clone, Copy, Debug, PartialEq, Eq, Structural)]
pub enum LoopState {
    Running,
    Stopped,
}

/// The keys the loop tells apart.
#[derive(Clone, Copy, Debug, PartialEq, Eq, Structural)]
pub enum Key {
    Escape,
    Other,
}

/// One input event, as the window system reports it.
#[derive(Clone, Copy, Debug, PartialEq, Eq, Structural)]
pub enum Event {
    /// The user asked to close the window.
    CloseRequested,
    /// The window has a new size, in physical pixels.
    Resized { width: u32, height: u32 },
    /// A key went down (`pressed`) or came up.
    KeyboardInput { key: Key, pressed: bool },
    /// Anything else.
    Other,
}

/// One thing the caller has to do for the loop.
#[derive(Clone, Copy, Debug, PartialEq, Eq, Structural)]
pub enum Command {
    /// Give the presentation surface this size, in physical pixels.
    ResizeSurface { width: u32, height: u32 },
    /// Clear the colour buffer.
    Clear,
    /// Compute the colour for the current time and set it.
    SetColor,
    /// Draw `count` indices of the bound index buffer as triangles.
    DrawIndexed { count: usize },
    /// Present the frame.
    Present,
}

impl Event {
    /// Whether the event ends the loop: a close request, or Escape going down.
    pub open spec fn stops(self) -> bool {
        match self {
            Event::CloseRequested => true,
            Event::KeyboardInput { key, pressed } => key == Key::Escape && pressed,
            _ => false,
        }
    }

    /// The command the event asks for by itself: a resize is applied to the
    /// surface, nothing else is.
    pub open spec fn command(self) -> Option<Command> {
        match self {
            Event::Resized { width, height } => Some(Command::ResizeSurface { width, height }),
            _ => None,
        }
    }

    /// Whether the event ends the loop.
    pub fn is_stop(&self) -> (r: bool)
        ensures
            r == self.stops(),
    {
        match self {
            Event::CloseRequested => true,
            Event::KeyboardInput { key, pressed } => match key {
                Key::Escape => *pressed,
                Key::Other => false,
            },
            _ => false,
        }
    }
}

/// The state after one event. Nothing leaves `Stopped`.
pub open spec fn step(state: LoopState, event: Event) -> LoopState {
    if state == LoopState::Stopped || event.stops() {
        LoopState::Stopped
    } else {
        LoopState::Running
    }
}

/// Whether some event of the batch ends the loop.
pub open spec fn any_stops(events: Seq<Event>) -> bool {
    exists|i: int| 0 <= i < events.len() && (#[trigger] events[i]).stops()
}

/// The state after a batch of events.
pub open spec fn state_after(state: LoopState, events: Seq<Event>) -> LoopState {
    if state == LoopState::Stopped || any_stops(events) {
        LoopState::Stopped
    } else {
        LoopState::Running
    }
}

/// The resizes of a batch, in the order in which they arrived.
pub open spec fn resize_commands(events: Seq<Event>) -> Seq<Command>
    decreases events.len(),
{
    if events.len() == 0 {
        Seq::empty()
    } else {
        let before = resize_commands(events.drop_last());
        match events.last().command() {
            Some(c) => before.push(c),
            None => before,
        }
    }
}

/// What is drawn in a frame that runs to its end.
pub open spec fn render_commands() -> Seq<Command> {
    seq![
        Command::Clear,
        Command::SetColor,
        Command::DrawIndexed { count: INDEX_COUNT },
        Command::Present,
    ]
}

/// The commands of one frame that starts in `state` and finds `events`
/// pending. A stopped loop does nothing. A running loop applies every resize
/// of the batch; it renders only if no event of the batch ends it.
pub open spec fn frame_commands(state: LoopState, events: Seq<Event>) -> Seq<Command> {
    if state == LoopState::Stopped {
        Seq::empty()
    } else if any_stops(events) {
        resize_commands(events)
    } else {
        resize_commands(events) + render_commands()
    }
}

/// The frame loop. Its state can be read but is changed by [`FrameLoop::frame`]
/// alone, so a loop that has stopped stays stopped.
#[derive(Debug)]
pub struct FrameLoop {
    state: LoopState,
}

impl View for FrameLoop {
    type V = LoopState;

    closed spec fn view(&self) -> LoopState {
        self.state
    }
}

impl FrameLoop {
    /// A loop in its initial state.
    pub fn new() -> (r: FrameLoop)
        ensures
            r@ == LoopState::Running,
    {
        FrameLoop { state: LoopState::Running }
    }

    /// The current state.
    pub fn state(&self) -> (r: LoopState)
        ensures
            r == self@,
    {
        self.state
    }

    /// Whether another frame is due.
    pub fn is_running(&self) -> (r: bool)
        ensures
            r == (self@ == LoopState::Running),
    {
        match self.state {
            LoopState::Running => true,
            LoopState::Stopped => false,
        }
    }

    /// Runs one frame over the events that are pending, and returns what the
    /// caller has to carry out, in order. A frame that leaves the loop stopped
    /// renders nothing.
    pub fn frame(&mut self, events: &[Event]) -> (commands: Vec<Command>)
        ensures
            final(self)@ == state_after(old(self)@, events@),
            commands@ == frame_commands(old(self)@, events@),
            final(self)@ == LoopState::Stopped ==> renders_nothing(commands@),
    {
        let mut commands: Vec<Command> = Vec::new();
        if !self.is_running() {
            return commands;
        }
        proof {
            lemma_resizes_render_nothing(events@);
        }
        let mut stop = false;
        let mut i: usize = 0;
        while i < events.len()
            invariant
                0 <= i <= events.len(),
                stop == any_stops(events@.take(i as int)),
                commands@ == resize_commands(events@.take(i as int)),
            decreases events.len() - i,
        {
            let event = events[i];
            proof {
                let before = events@.take(i as int);
                let upto = events@.take(i + 1);
                assert(upto.drop_last() == before);
                assert(upto.last() == event);
                lemma_any_stops_push(before, event);
                assert(upto == before.push(event));
            }
            if event.is_stop() {
                stop = true;
            }
            match event {
                Event::Resized { width, height } => {
                    commands.push(Command::ResizeSurface { width, height });
                },
                _ => {},
            }
            i += 1;
        }
        assert(events@.take(i as int) == events@);
        if stop {
            self.state = LoopState::Stopped;
        } else {
            commands.push(Command::Clear);
            commands.push(Command::SetColor);
            commands.push(Command::DrawIndexed { count: INDEX_COUNT });
            commands.push(Command::Present);
            assert(commands@ == resize_commands(events@) + render_commands());
        }
        commands
    }
}

/// A batch with one more event stops exactly if the batch or the event does.
pub proof fn lemma_any_stops_push(events: Seq<Event>, event: Event)
    ensures
        any_stops(events.push(event)) == (any_stops(events) || event.stops()),
{
    let longer = events.push(event);
    if any_stops(events) {
        let i = choose|i: int| 0 <= i < events.len() && (#[trigger] events[i]).stops();
        assert(longer[i].stops());
    }
    if event.stops() {
        assert(longer[events.len() as int].stops());
    }
    if any_stops(longer) {
        let i = choose|i: int| 0 <= i < longer.len() && (#[trigger] longer[i]).stops();
        if i < events.len() {
            assert(events[i].stops());
        }
    }
}

/// A batch is folded event by event: no event leaves the state as it is, and
/// one more event moves it by [`step`].
pub proof fn law_state_after_is_fold(state: LoopState, events: Seq<Event>, event: Event)
    ensures
        state_after(state, Seq::empty()) == state,
        state_after(state, events.push(event)) == step(state_after(state, events), event),
{
    lemma_any_stops_push(events, event);
}

impl Command {
    /// Whether the command is part of rendering a frame, as opposed to
    /// following the window's size.
    pub open spec fn renders(self) -> bool {
        !(self is ResizeSurface)
    }
}

/// Whether none of the commands is part of rendering a frame.
pub open spec fn renders_nothing(commands: Seq<Command>) -> bool {
    forall|i: int| 0 <= i < commands.len() ==> !(#[trigger] commands[i]).renders()
}

/// Applying the resizes of a batch renders nothing.
pub proof fn lemma_resizes_render_nothing(events: Seq<Event>)
    ensures
        renders_nothing(resize_commands(events)),
    decreases events.len(),
{
    if events.len() > 0 {
        lemma_resizes_render_nothing(events.drop_last());
        let before = resize_commands(events.drop_last());
        let all = resize_commands(events);
        assert forall|i: int| 0 <= i < all.len() implies !(#[trigger] all[i]).renders() by {
            if i < before.len() {
                assert(all[i] == before[i]);
            } else {
                assert(events.last().command() == Some(all[i]));
            }
        }
    }
}

/// The state of a loop that started in `Running` and has run one frame for
/// each batch of `frames`.
pub open spec fn session_state(frames: Seq<Seq<Event>>) -> LoopState
    decreases frames.len(),
{
    if frames.len() == 0 {
        LoopState::Running
    } else {
        state_after(session_state(frames.drop_last()), frames.last())
    }
}

/// All commands that such a loop has issued, in order.
pub open spec fn session_commands(frames: Seq<Seq<Event>>) -> Seq<Command>
    decreases frames.len(),
{
    if frames.len() == 0 {
        Seq::empty()
    } else {
        session_commands(frames.drop_last()) + frame_commands(
            session_state(frames.drop_last()),
            frames.last(),
        )
    }
}

/// Whether frame `k` is one in which the loop goes from `Running` to
/// `Stopped`.
pub open spec fn stops_in_frame(frames: Seq<Seq<Event>>, k: int) -> bool {
    &&& 0 <= k < frames.len()
    &&& session_state(frames.take(k)) == LoopState::Running
    &&& session_state(frames.take(k + 1)) == LoopState::Stopped
}

/// Once the loop has stopped it stays stopped, whatever arrives, and issues
/// no command at all.
pub proof fn law_stopped_is_final(frames: Seq<Seq<Event>>, k: int)
    requires
        0 <= k <= frames.len(),
        session_state(frames.take(k)) == LoopState::Stopped,
    ensures
        session_state(frames) == LoopState::Stopped,
        session_commands(frames) == session_commands(frames.take(k)),
    decreases frames.len(),
{
    if k == frames.len() {
        assert(frames.take(k) == frames);
    } else {
        let shorter = frames.drop_last();
        assert(shorter.take(k) == frames.take(k));
        law_stopped_is_final(shorter, k);
    }
}

/// The loop runs as long as no event has asked it to stop: it is stopped
/// after `frames` exactly if some batch holds a close request or an Escape
/// key press.
pub proof fn law_stops_when_asked(frames: Seq<Seq<Event>>)
    ensures
        session_state(frames) == LoopState::Stopped <==> exists|k: int|
            0 <= k < frames.len() && any_stops(#[trigger] frames[k]),
    decreases frames.len(),
{
    if frames.len() > 0 {
        let shorter = frames.drop_last();
        law_stops_when_asked(shorter);
        if session_state(shorter) == LoopState::Stopped {
            let k = choose|k: int| 0 <= k < shorter.len() && any_stops(#[trigger] shorter[k]);
            assert(any_stops(frames[k]));
        }
        if any_stops(frames.last()) {
            assert(any_stops(frames[frames.len() - 1]));
        }
        if exists|k: int| 0 <= k < frames.len() && any_stops(#[trigger] frames[k]) {
            let k = choose|k: int| 0 <= k < frames.len() && any_stops(#[trigger] frames[k]);
            if k < shorter.len() {
                assert(any_stops(shorter[k]));
            }
        }
    }
}

/// The loop goes from `Running` to `Stopped` at most once: two frames in
/// which it does so are the same frame.
pub proof fn law_stops_at_most_once(frames: Seq<Seq<Event>>, i: int, j: int)
    requires
        stops_in_frame(frames, i),
        stops_in_frame(frames, j),
    ensures
        i == j,
{
    if i < j {
        let upto = frames.take(j);
        assert(upto.take(i + 1) == frames.take(i + 1));
        law_stopped_is_final(upto, i + 1);
    }
    if j < i {
        let upto = frames.take(i);
        assert(upto.take(j + 1) == frames.take(j + 1));
        law_stopped_is_final(upto, j + 1);
    }
}

/// A loop that is stopped after `frames` went from `Running` to `Stopped` in
/// one of them, and that frame is the first whose batch asked for it.
pub proof fn law_stops_exactly_once(frames: Seq<Seq<Event>>) -> (k: int)
    requires
        session_state(frames) == LoopState::Stopped,
    ensures
        stops_in_frame(frames, k),
        any_stops(frames[k]),
        forall|i: int| 0 <= i < k ==> !any_stops(#[trigger] frames[i]),
        forall|i: int| stops_in_frame(frames, i) ==> i == k,
    decreases frames.len(),
{
    let shorter = frames.drop_last();
    let k = if session_state(shorter) == LoopState::Stopped {
        let k = law_stops_exactly_once(shorter);
        assert(shorter.take(k) == frames.take(k));
        assert(shorter.take(k + 1) == frames.take(k + 1));
        k
    } else {
        let k = frames.len() - 1;
        assert(frames.take(k) == shorter);
        assert(frames.take(k + 1) == frames);
        law_stops_when_asked(shorter);
        k
    };
    assert forall|i: int| 0 <= i < k implies !any_stops(#[trigger] frames[i]) by {
        assert(frames[i] == shorter[i]);
    }
    assert forall|i: int| stops_in_frame(frames, i) implies i == k by {
        law_stops_at_most_once(frames, i, k);
    }
    k
}

/// From the frame in which the loop stops, nothing is rendered: all that is
/// issued from then on are the resizes of that frame's batch.
pub proof fn law_nothing_rendered_after_stop(frames: Seq<Seq<Event>>, k: int)
    requires
        stops_in_frame(frames, k),
    ensures
        session_commands(frames) == session_commands(frames.take(k)) + resize_commands(frames[k]),
        renders_nothing(resize_commands(frames[k])),
{
    let upto = frames.take(k + 1);
    law_stopped_is_final(frames, k + 1);
    assert(upto.drop_last() == frames.take(k));
    assert(upto.last() == frames[k]);
    lemma_resizes_render_nothing(frames[k]);
}

} // verus!
