//! What a running screen saver does about the events of its window.
use vstd::prelude::*;

verus! {

/// A cursor that has not moved for longer than this many milliseconds has
/// come to rest.
pub const CURSOR_REST_MS: u64 = 300;

/// A cursor that keeps moving for longer than this many milliseconds ends
/// the screen saver.
pub const CURSOR_QUIT_MS: u64 = 400;

/// Whether the cursor is moving, and since when. Times are milliseconds on a
/// monotonic clock of the caller's choosing.
#[derive(Clone, Copy, Debug, PartialEq, Eq, Structural)]
pub struct CursorWatch {
    pub moving: bool,
    /// Time of the last move.
    pub last_move_ms: u64,
    /// Time of the first move since the cursor last rested.
    pub start_move_ms: u64,
}

/// The keys that mean something to the screen saver.
#[derive(Clone, Copy, Debug, PartialEq, Eq, Structural)]
pub enum Key {
    F1,
    F11,
    Escape,
    Other,
}

/// An event of the window or of the program's own timers.
#[derive(Clone, Copy, Debug, PartialEq, Eq, Structural)]
pub enum Event {
    /// The frame timer fired.
    Frame,
    /// The settings file changed.
    SettingsChanged,
    /// The window system asks for the picture.
    RedrawRequested,
    Resized,
    KeyReleased(Key),
    CursorMoved,
    CloseRequested,
    Other,
}

/// The state of the window that the decisions read.
#[derive(Clone, Copy, Debug, PartialEq, Eq, Structural)]
pub struct Window {
    pub maximized: bool,
    pub fullscreen: bool,
}

/// What the program has to do about an event.
#[derive(Clone, Copy, Debug, PartialEq, Eq, Structural)]
pub enum Command {
    Nothing,
    /// Tick the field and show the frame.
    Redraw,
    /// Read the settings anew and rebuild the field.
    Reload,
    /// Rebuild the field for the new size of the window.
    Rebuild,
    /// Leave the maximized state.
    Restore,
    EnterFullscreen,
    LeaveFullscreen,
    OpenSettings,
    Exit,
}

impl CursorWatch {
    /// A watch over a cursor at rest.
    pub open spec fn spec_new(now_ms: u64) -> CursorWatch {
        CursorWatch { moving: false, last_move_ms: now_ms, start_move_ms: now_ms }
    }

    /// Milliseconds from `since_ms` to `now_ms`; zero where the clock reads
    /// less than `since_ms`.
    pub open spec fn span(since_ms: u64, now_ms: u64) -> nat {
        if now_ms >= since_ms {
            (now_ms - since_ms) as nat
        } else {
            0
        }
    }

    /// The watch at `now_ms` before the event is looked at: a moving cursor
    /// has come to rest when its last move is more than `CURSOR_REST_MS` ago.
    pub open spec fn settled(self, now_ms: u64) -> CursorWatch {
        CursorWatch {
            moving: self.moving && Self::span(self.last_move_ms, now_ms) <= CURSOR_REST_MS,
            ..self
        }
    }

    /// The watch after an event at `now_ms`.
    pub open spec fn after(self, event: Event, now_ms: u64) -> CursorWatch {
        let watch = self.settled(now_ms);
        if event == Event::CursorMoved {
            if watch.moving {
                CursorWatch { last_move_ms: now_ms, ..watch }
            } else {
                CursorWatch { moving: true, last_move_ms: now_ms, start_move_ms: now_ms }
            }
        } else {
            watch
        }
    }

    /// The cursor has been moving without rest for more than `CURSOR_QUIT_MS`
    /// when it moves again at `now_ms`.
    pub open spec fn restless(self, now_ms: u64) -> bool {
        self.settled(now_ms).moving && Self::span(self.start_move_ms, now_ms) > CURSOR_QUIT_MS
    }

    /// What to do about an event at `now_ms`.
    pub open spec fn command(
        self,
        event: Event,
        now_ms: u64,
        window: Window,
        mouse_quit: bool,
    ) -> Command {
        match event {
            Event::Frame => Command::Redraw,
            Event::RedrawRequested => Command::Redraw,
            Event::SettingsChanged => Command::Reload,
            Event::Resized => Command::Rebuild,
            Event::KeyReleased(Key::F11) => if window.maximized {
                Command::Restore
            } else if window.fullscreen {
                Command::LeaveFullscreen
            } else {
                Command::EnterFullscreen
            },
            Event::KeyReleased(Key::Escape) => Command::Exit,
            Event::KeyReleased(Key::F1) => Command::OpenSettings,
            Event::KeyReleased(Key::Other) => Command::Nothing,
            Event::CursorMoved => if mouse_quit && self.restless(now_ms) {
                Command::Exit
            } else {
                Command::Nothing
            },
            Event::CloseRequested => Command::Exit,
            Event::Other => Command::Nothing,
        }
    }

    #[verifier::when_used_as_spec(spec_new)]
    pub fn new(now_ms: u64) -> (watch: CursorWatch)
        ensures
            watch == CursorWatch::spec_new(now_ms),
    {
        CursorWatch { moving: false, last_move_ms: now_ms, start_move_ms: now_ms }
    }

    /// Takes one event at `now_ms`: brings the watch up to date and says
    /// what the program has to do. `mouse_quit` says whether a restless
    /// cursor ends the screen saver.
    pub fn handle(
        &mut self,
        event: Event,
        now_ms: u64,
        window: Window,
        mouse_quit: bool,
    ) -> (command: Command)
        ensures
            *final(self) == old(self).after(event, now_ms),
            command == old(self).command(event, now_ms, window, mouse_quit),
    {
        if self.moving && now_ms >= self.last_move_ms && now_ms - self.last_move_ms
            > CURSOR_REST_MS {
            self.moving = false;
        }
        match event {
            Event::Frame => Command::Redraw,
            Event::RedrawRequested => Command::Redraw,
            Event::SettingsChanged => Command::Reload,
            Event::Resized => Command::Rebuild,
            Event::KeyReleased(key) => match key {
                Key::F11 => {
                    if window.maximized {
                        Command::Restore
                    } else if window.fullscreen {
                        Command::LeaveFullscreen
                    } else {
                        Command::EnterFullscreen
                    }
                },
                Key::Escape => Command::Exit,
                Key::F1 => Command::OpenSettings,
                Key::Other => Command::Nothing,
            },
            Event::CursorMoved => {
                self.last_move_ms = now_ms;
                if !self.moving {
                    self.moving = true;
                    self.start_move_ms = now_ms;
                    Command::Nothing
                } else if mouse_quit && now_ms >= self.start_move_ms && now_ms
                    - self.start_move_ms > CURSOR_QUIT_MS {
                    Command::Exit
                } else {
                    Command::Nothing
                }
            },
            Event::CloseRequested => Command::Exit,
            Event::Other => Command::Nothing,
        }
    }
}

/// Rest law: a cursor that moves again only after more than `CURSOR_REST_MS`
/// starts a new movement, and does not end the screen saver.
pub proof fn law_rest(watch: CursorWatch, now_ms: u64, window: Window, mouse_quit: bool)
    requires
        now_ms > watch.last_move_ms + CURSOR_REST_MS,
    ensures
        watch.after(Event::CursorMoved, now_ms) == (CursorWatch {
            moving: true,
            last_move_ms: now_ms,
            start_move_ms: now_ms,
        }),
        watch.command(Event::CursorMoved, now_ms, window, mouse_quit) == Command::Nothing,
{
}

/// Quit law: the cursor ends the screen saver only where that is asked for,
/// and only by a move that comes within `CURSOR_REST_MS` of the last one and
/// more than `CURSOR_QUIT_MS` after the first.
pub proof fn law_quit(watch: CursorWatch, now_ms: u64, window: Window, mouse_quit: bool)
    ensures
        watch.command(Event::CursorMoved, now_ms, window, mouse_quit) == Command::Exit <==> {
            &&& mouse_quit
            &&& watch.moving
            &&& CursorWatch::span(watch.last_move_ms, now_ms) <= CURSOR_REST_MS
            &&& CursorWatch::span(watch.start_move_ms, now_ms) > CURSOR_QUIT_MS
        },
        watch.command(Event::CursorMoved, now_ms, window, mouse_quit) != Command::Exit
            ==> watch.command(Event::CursorMoved, now_ms, window, mouse_quit) == Command::Nothing,
{
}

} // verus!
