//! Whether the desktop has a picture to show.

use vstd::prelude::*;

verus! {

#[derive(Clone, Copy, Debug, PartialEq, Eq, Structural)]
pub enum ReadinessState {
    WaitingForFirstFrame,
    Ready,
    WaitingForKeyframe,
    Stopped,
}

#[derive(Debug)]
pub struct Readiness {
    state: ReadinessState,
}

/// A frame was cached. Nothing revives a stopped runtime.
pub open spec fn ready_after(state: ReadinessState) -> ReadinessState {
    if state == ReadinessState::Stopped {
        state
    } else {
        ReadinessState::Ready
    }
}

/// The cached picture was lost. Before the first frame there was none to lose.
pub open spec fn awaiting_after(state: ReadinessState) -> ReadinessState {
    match state {
        ReadinessState::Ready => ReadinessState::WaitingForKeyframe,
        _ => state,
    }
}

impl Readiness {
    pub closed spec fn view(&self) -> ReadinessState {
        self.state
    }

    pub fn new() -> (r: Self)
        ensures
            r@ == ReadinessState::WaitingForFirstFrame,
    {
        Readiness { state: ReadinessState::WaitingForFirstFrame }
    }

    pub fn mark_video_ready(&mut self)
        ensures
            final(self)@ == ready_after(old(self)@),
    {
        self.state =
        match self.state {
            ReadinessState::WaitingForFirstFrame
            | ReadinessState::Ready
            | ReadinessState::WaitingForKeyframe => ReadinessState::Ready,
            ReadinessState::Stopped => ReadinessState::Stopped,
        };
    }

    pub fn await_keyframe(&mut self)
        ensures
            final(self)@ == awaiting_after(old(self)@),
    {
        self.state =
        match self.state {
            ReadinessState::WaitingForFirstFrame => ReadinessState::WaitingForFirstFrame,
            ReadinessState::Ready
            | ReadinessState::WaitingForKeyframe => ReadinessState::WaitingForKeyframe,
            ReadinessState::Stopped => ReadinessState::Stopped,
        };
    }

    pub fn stop(&mut self)
        ensures
            final(self)@ == ReadinessState::Stopped,
    {
        self.state = ReadinessState::Stopped;
    }

    pub fn is_ready(&self) -> (r: bool)
        ensures
            r == (self@ == ReadinessState::Ready),
    {
        self.state == ReadinessState::Ready
    }

    pub fn needs_startup_frame(&self) -> (r: bool)
        ensures
            r == (self@ == ReadinessState::WaitingForFirstFrame),
    {
        self.state == ReadinessState::WaitingForFirstFrame
    }

    pub fn state(&self) -> (r: ReadinessState)
        ensures
            r == self@,
    {
        self.state
    }
}

/// A stopped runtime stays stopped, and the wait for the very first frame, once over,
/// never returns.
pub proof fn law_readiness_only_moves_forward(state: ReadinessState)
    ensures
        state == ReadinessState::Stopped ==> ready_after(state) == state && awaiting_after(state)
            == state,
        state != ReadinessState::WaitingForFirstFrame ==> ready_after(state)
            != ReadinessState::WaitingForFirstFrame && awaiting_after(state)
            != ReadinessState::WaitingForFirstFrame,
{
}

/// A cached frame makes a desktop ready from any wait; losing it makes a ready desktop
/// wait for a keyframe and no other.
pub proof fn law_readiness_follows_the_picture(state: ReadinessState)
    ensures
        ready_after(state) == ReadinessState::Ready <==> state != ReadinessState::Stopped,
        awaiting_after(ReadinessState::Ready) == ReadinessState::WaitingForKeyframe,
        state != ReadinessState::Ready ==> awaiting_after(state) == state,
{
}

} // verus!
