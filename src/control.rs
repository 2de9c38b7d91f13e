//! The control surface: turns user intents into paired decode-engine calls
//! and audio events, and watches the engine's state for the end of stream.
use vstd::prelude::*;
use crate::audio::PlaybackEvent;

verus! {

/// Keys the player reacts to.
#[derive(PartialEq, Eq, Structural, Clone, Copy, Debug)]
pub enum Key {
    Escape,
    Space,
    Z,
    Return,
    Right,
    Left,
    Other,
}

/// What the user asks for.
#[derive(PartialEq, Eq, Structural, Clone, Copy, Debug)]
pub enum Intent {
    Close,
    TogglePause,
    Restart,
    SeekToStart,
    SeekForward,
    SeekBackward,
}

/// Position units moved by one relative seek.
pub const SEEK_STEP: i32 = 1;

/// A transport call on the decode engine.
#[derive(PartialEq, Eq, Structural, Clone, Copy, Debug)]
pub enum EngineCall {
    /// No engine call.
    Nothing,
    /// `pause(flag)`.
    SetPause(bool),
    /// `stop()` then `play()`.
    StopThenPlay,
    /// `set_position(0.0)`.
    SeekToStart,
    /// `set_position(current + step)`.
    SeekRelative(i32),
}

/// The paired actions for one intent.
#[derive(PartialEq, Eq, Structural, Clone, Copy, Debug)]
pub struct ControlCommand {
    pub engine: EngineCall,
    /// The event to hand to the audio sink, if any.
    pub audio: Option<PlaybackEvent>,
    /// The render loop is to end.
    pub close: bool,
}

/// The intent bound to a key, if any.
pub fn intent_for_key(key: Key) -> (r: Option<Intent>)
    ensures
        r == match key {
            Key::Escape => Some(Intent::Close),
            Key::Space => Some(Intent::TogglePause),
            Key::Z => Some(Intent::Restart),
            Key::Return => Some(Intent::SeekToStart),
            Key::Right => Some(Intent::SeekForward),
            Key::Left => Some(Intent::SeekBackward),
            Key::Other => None::<Intent>,
        },
{
    match key {
        Key::Escape => Some(Intent::Close),
        Key::Space => Some(Intent::TogglePause),
        Key::Z => Some(Intent::Restart),
        Key::Return => Some(Intent::SeekToStart),
        Key::Right => Some(Intent::SeekForward),
        Key::Left => Some(Intent::SeekBackward),
        Key::Other => None,
    }
}

/// The engine call and audio event for `intent`, given whether the engine
/// is playing and the current pts. A pause toggle pauses a playing engine
/// and resumes a paused one; every seek flushes the audio; a restart starts
/// a new engine session, which flushes by itself.
pub fn control_command(intent: Intent, engine_playing: bool, pts: i64) -> (r: ControlCommand)
    ensures
        r.close == (intent == Intent::Close),
        intent == Intent::Close ==> r.engine == EngineCall::Nothing && r.audio is None,
        intent == Intent::TogglePause ==> r.engine == EngineCall::SetPause(engine_playing) && r.audio
            == Some(
            if engine_playing {
                PlaybackEvent::Pause { pts }
            } else {
                PlaybackEvent::Resume { pts }
            },
        ),
        intent == Intent::Restart ==> r.engine == EngineCall::StopThenPlay && r.audio is None,
        intent == Intent::SeekToStart ==> r.engine == EngineCall::SeekToStart && r.audio == Some(
            PlaybackEvent::Flush { pts },
        ),
        intent == Intent::SeekForward ==> r.engine == EngineCall::SeekRelative(SEEK_STEP)
            && r.audio == Some(PlaybackEvent::Flush { pts }),
        intent == Intent::SeekBackward ==> r.engine == EngineCall::SeekRelative((-SEEK_STEP) as i32)
            && r.audio == Some(PlaybackEvent::Flush { pts }),
{
    match intent {
        Intent::Close => ControlCommand { engine: EngineCall::Nothing, audio: None, close: true },
        Intent::TogglePause => {
            let event = if engine_playing {
                PlaybackEvent::Pause { pts }
            } else {
                PlaybackEvent::Resume { pts }
            };
            ControlCommand { engine: EngineCall::SetPause(engine_playing), audio: Some(event), close: false }
        },
        Intent::Restart => ControlCommand {
            engine: EngineCall::StopThenPlay,
            audio: None,
            close: false,
        },
        Intent::SeekToStart => ControlCommand {
            engine: EngineCall::SeekToStart,
            audio: Some(PlaybackEvent::Flush { pts }),
            close: false,
        },
        Intent::SeekForward => ControlCommand {
            engine: EngineCall::SeekRelative(SEEK_STEP),
            audio: Some(PlaybackEvent::Flush { pts }),
            close: false,
        },
        Intent::SeekBackward => ControlCommand {
            engine: EngineCall::SeekRelative(-SEEK_STEP),
            audio: Some(PlaybackEvent::Flush { pts }),
            close: false,
        },
    }
}

/// A state reported by the decode engine.
#[derive(PartialEq, Eq, Structural, Clone, Copy, Debug)]
pub enum EngineState {
    Playing,
    Paused,
    Ended,
    Error,
}

/// A state that ends the stream: the end itself, or a decode error.
pub open spec fn is_terminal(s: EngineState) -> bool {
    s == EngineState::Ended || s == EngineState::Error
}

/// Watches the engine's states and reports the end of the stream once.
pub struct EngineWatch {
    ended: bool,
}

impl EngineWatch {
    pub closed spec fn ended(&self) -> bool {
        self.ended
    }

    pub fn new() -> (w: EngineWatch)
        ensures
            !w.ended(),
    {
        EngineWatch { ended: false }
    }

    pub fn is_ended(&self) -> (r: bool)
        ensures
            r == self.ended(),
    {
        self.ended
    }

    /// Records a state; true exactly when it is the first that ends the
    /// stream.
    pub fn observe(&mut self, state: EngineState) -> (terminal: bool)
        ensures
            terminal == (!old(self).ended() && is_terminal(state)),
            final(self).ended() == (old(self).ended() || is_terminal(state)),
    {
        let ends = match state {
            EngineState::Ended => true,
            EngineState::Error => true,
            _ => false,
        };
        if ends && !self.ended {
            self.ended = true;
            true
        } else {
            false
        }
    }
}

} // verus!
