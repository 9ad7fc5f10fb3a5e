//! The render loop's decisions. Each turn of the loop drains the key events
//! that came in, draws one frame, and ends the loop before the next turn once
//! Escape was pressed or the window system asked to close.
use vstd::prelude::*;
use crate::motion::{Spin, Turn, Axis, MAX_FRAMES, rotation_word, turns_view};

verus! {

/// The keys the program tells apart.
#[derive(Clone, Copy, Debug, PartialEq, Eq, Structural)]
pub enum KeyCode {
    Escape,
    Other,
}

/// What happened to a key.
#[derive(Clone, Copy, Debug, PartialEq, Eq, Structural)]
pub enum KeyAction {
    Press,
    Release,
    Repeat,
}

/// One key event, as drained from the window's event queue.
#[derive(Clone, Copy, Debug, PartialEq, Eq, Structural)]
pub struct KeyInput {
    pub key: KeyCode,
    pub action: KeyAction,
}

pub open spec fn is_escape_press(e: KeyInput) -> bool {
    e.key == KeyCode::Escape && e.action == KeyAction::Press
}

/// Whether Escape was pressed among `keys`.
pub open spec fn escape_pressed(keys: Seq<KeyInput>) -> bool {
    exists|i: int| 0 <= i < keys.len() && is_escape_press(#[trigger] keys[i])
}

/// Whether the loop is to close after a frame that saw `keys` and, from the
/// window system, `window_close`, when it was already closing if `closing`.
pub open spec fn closes_after(closing: bool, keys: Seq<KeyInput>, window_close: bool) -> bool {
    closing || window_close || escape_pressed(keys)
}

/// Whether Escape was pressed among the key events of one frame.
pub fn handle_events(keys: &Vec<KeyInput>) -> (r: bool)
    ensures
        r == escape_pressed(keys@),
{
    let mut i: usize = 0;
    while i < keys.len()
        invariant
            i <= keys@.len(),
            forall|j: int| 0 <= j < i ==> !is_escape_press(#[trigger] keys@[j]),
        decreases keys@.len() - i,
    {
        let e = keys[i];
        if e.key == KeyCode::Escape && e.action == KeyAction::Press {
            assert(is_escape_press(keys@[i as int]));
            return true;
        }
        i = i + 1;
    }
    false
}

/// What one turn of the loop hands to the input of the next: the key events
/// of a frame and whether the window system asked to close during it.
pub ghost struct FrameInput {
    pub keys: Seq<KeyInput>,
    pub window_close: bool,
}

/// The frames the loop draws when the turns see `inputs` one after another,
/// as long as there are inputs: every turn draws, and a turn whose input
/// closes the loop is the last.
pub open spec fn frames_drawn(inputs: Seq<FrameInput>) -> nat
    decreases inputs.len(),
{
    if inputs.len() == 0 {
        0
    } else if closes_after(false, inputs[0].keys, inputs[0].window_close) {
        1
    } else {
        1 + frames_drawn(inputs.drop_first())
    }
}

/// When Escape is pressed during frame `k` (counting from 0), the loop ends:
/// it draws frame `k` and no frame after it, and where nothing asked it to
/// close during the frames before `k` it draws every one of them too.
pub proof fn lemma_escape_ends_loop(inputs: Seq<FrameInput>, k: int)
    requires
        0 <= k < inputs.len(),
        escape_pressed(inputs[k].keys),
    ensures
        frames_drawn(inputs) <= k + 1,
        (forall|j: int|
            0 <= j < k ==> !closes_after(false, #[trigger] inputs[j].keys, inputs[j].window_close))
            ==> frames_drawn(inputs) == k + 1,
    decreases k,
{
    if k > 0 && !closes_after(false, inputs[0].keys, inputs[0].window_close) {
        let rest = inputs.drop_first();
        assert(rest[k - 1] == inputs[k]);
        lemma_escape_ends_loop(rest, k - 1);
        if forall|j: int|
            0 <= j < k ==> !closes_after(false, #[trigger] inputs[j].keys, inputs[j].window_close) {
            assert forall|j: int| 0 <= j < k - 1 implies !closes_after(
                false,
                #[trigger] rest[j].keys,
                rest[j].window_close,
            ) by {
                assert(rest[j] == inputs[j + 1]);
            }
        }
    }
}

/// The abstract state of a session.
pub ghost struct SessionView {
    /// Frames drawn so far.
    pub frames: nat,
    /// Whether the loop is to end before its next turn.
    pub closing: bool,
    /// The turns handed out so far, in order.
    pub applied: Seq<(Axis, int)>,
}

/// The state the render loop carries from frame to frame.
pub struct Session {
    spin: Spin,
    closing: bool,
    applied: Ghost<Seq<(Axis, int)>>,
}

impl View for Session {
    type V = SessionView;

    closed spec fn view(&self) -> SessionView {
        SessionView { frames: self.spin.frames(), closing: self.closing, applied: self.applied@ }
    }
}

impl Session {
    /// The turns handed out are always those of every frame so far, in order.
    pub closed spec fn wf(&self) -> bool {
        &&& self.spin.wf()
        &&& self.applied@ == rotation_word(self.spin.frames())
    }

    /// A session before its first frame, with the identity orientation.
    pub fn new() -> (r: Session)
        ensures
            r.wf(),
            r@.frames == 0,
            !r@.closing,
            r@.applied == Seq::<(Axis, int)>::empty(),
    {
        Session { spin: Spin::new(), closing: false, applied: Ghost(Seq::empty()) }
    }

    /// Whether the loop takes another turn.
    pub fn is_running(&self) -> (r: bool)
        ensures
            r == !self@.closing,
    {
        !self.closing
    }

    /// Frames drawn so far.
    pub fn frame(&self) -> (r: u64)
        ensures
            r == self@.frames,
    {
        self.spin.frame()
    }

    /// One turn of the loop: takes the frame's key events and whether the
    /// window system asked to close, and returns the turns to multiply onto
    /// the orientation, on the right and in order, before this frame is drawn.
    pub fn tick(&mut self, keys: &Vec<KeyInput>, window_close: bool) -> (r: Vec<Turn>)
        requires
            old(self).wf(),
            !old(self)@.closing,
            old(self)@.frames < MAX_FRAMES,
        ensures
            final(self).wf(),
            final(self)@.frames == old(self)@.frames + 1,
            final(self)@.closing == closes_after(false, keys@, window_close),
            final(self)@.applied == old(self)@.applied + turns_view(r@),
            turns_view(r@) == crate::motion::frame_turns(final(self)@.frames),
    {
        let escape = handle_events(keys);
        self.closing = window_close || escape;
        let r = self.spin.advance();
        self.applied = Ghost(self.applied@ + turns_view(r@));
        r
    }
}

/// A session's turns, multiplied in order onto the identity, are those of
/// `rotation_word`: after any number of frames the orientation is fixed by
/// that number alone.
pub proof fn lemma_session_orientation(s: Session)
    requires
        s.wf(),
    ensures
        s@.applied == rotation_word(s@.frames),
        s@.applied.len() == 3 * s@.frames,
{
    crate::motion::lemma_rotation_word(s@.frames);
}

} // verus!
