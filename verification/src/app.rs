use vstd::prelude::*;
use vstd::string::StringExecFns;

use crate::event::{Event, KeyInput};
use crate::pet::{fed, played, ticked, Pet};

verus! {

/// How long an action feedback message stays visible, in milliseconds.
pub const ACTION_MESSAGE_MS: u64 = 2000;

/// Longest pet name the input buffer accepts, in characters.
pub const MAX_NAME_LEN: usize = 20;

/// Application lifecycle state. A pet exists exactly when the state is
/// `Running`; the transition from `Naming` to `Running` is one-way.
pub enum AppState {
    /// Player is naming their pet; only the input buffer exists.
    Naming { name_input: Vec<char> },
    /// Normal running state, with the pet and an optional transient
    /// feedback message carrying the timestamp (in milliseconds) it was set.
    Running { pet: Pet, last_action: Option<(String, u64)> },
}

/// Application state: the lifecycle state plus the running flag that the
/// event loop checks before every iteration.
pub struct App {
    /// Whether the application keeps running; cleared by a quit request.
    pub running: bool,
    /// Current lifecycle state (naming or running).
    pub state: AppState,
}

/// The name a confirmed buffer gives the pet: the buffer's contents, or the
/// default name "Tomo" when the buffer is empty.
pub open spec fn chosen_name(buffer: Seq<char>) -> Seq<char> {
    if buffer.len() == 0 {
        "Tomo"@
    } else {
        buffer
    }
}

/// A fresh application: running, in the naming phase, with an empty buffer.
pub open spec fn initial(app: App) -> bool {
    &&& app.running
    &&& app.state matches AppState::Naming { name_input } && name_input@.len() == 0
}

/// Effect of entering one character: in the naming phase the character is
/// appended unless the buffer is already full, in which case nothing
/// changes; outside the naming phase nothing changes at all.
pub open spec fn char_entered(pre: App, post: App, c: char) -> bool {
    match pre.state {
        AppState::Naming { name_input } => {
            &&& post.running == pre.running
            &&& post.state matches AppState::Naming { name_input: b } && b@ == (if name_input@.len()
                < MAX_NAME_LEN {
                name_input@.push(c)
            } else {
                name_input@
            })
        },
        AppState::Running { .. } => post == pre,
    }
}

/// Effect of a backspace: in the naming phase the last buffered character
/// is removed (a no-op on an empty buffer); otherwise nothing changes.
pub open spec fn backspace_entered(pre: App, post: App) -> bool {
    match pre.state {
        AppState::Naming { name_input } => {
            &&& post.running == pre.running
            &&& post.state matches AppState::Naming { name_input: b } && b@ == (if name_input@.len()
                > 0 {
                name_input@.drop_last()
            } else {
                name_input@
            })
        },
        AppState::Running { .. } => post == pre,
    }
}

/// Effect of confirming the name: from the naming phase the pet is created
/// with the chosen name and fresh stats, no feedback message is set, and
/// the buffer is gone; confirming while already running changes nothing.
pub open spec fn confirmed(pre: App, post: App) -> bool {
    match pre.state {
        AppState::Naming { name_input } => {
            &&& post.running == pre.running
            &&& post.state matches AppState::Running { pet, last_action } && pet.name@
                == chosen_name(name_input@) && pet.hunger == 80 && pet.happiness == 80
                && last_action is None
        },
        AppState::Running { .. } => post == pre,
    }
}

/// Effect of a quit request: the running flag is cleared and everything
/// else is left exactly as it was.
pub open spec fn quit_requested(pre: App, post: App) -> bool {
    &&& !post.running
    &&& post.state == pre.state
}

/// A feedback message stamped at `stamp` as the clock reads `now_ms`:
/// cleared once the stamp is at least the message lifetime in the past,
/// kept unchanged otherwise.
pub open spec fn expired_cleared(la: Option<(String, u64)>, now_ms: u64) -> Option<(String, u64)> {
    match la {
        Option::Some((_, stamp)) => if stamp + ACTION_MESSAGE_MS <= now_ms {
            Option::None
        } else {
            la
        },
        Option::None => Option::None,
    }
}

/// Effect of a tick at clock reading `now_ms`: while running, the pet
/// decays one step and the feedback message expires lazily; in the naming
/// phase nothing changes (no decay before a pet exists).
pub open spec fn ticked_at(pre: App, post: App, now_ms: u64) -> bool {
    match pre.state {
        AppState::Naming { .. } => post == pre,
        AppState::Running { pet, last_action } => {
            &&& post.running == pre.running
            &&& post.state matches AppState::Running { pet: p, last_action: la } && p == ticked(pet)
                && la == expired_cleared(last_action, now_ms)
        },
    }
}

/// Effect of feeding at clock reading `now_ms`: while running, the pet is
/// fed and the feedback message announces it with the current timestamp;
/// in the naming phase nothing changes — no pet is created and the running
/// flag is untouched.
pub open spec fn fed_at(pre: App, post: App, now_ms: u64) -> bool {
    match pre.state {
        AppState::Naming { .. } => post == pre,
        AppState::Running { pet, .. } => {
            &&& post.running == pre.running
            &&& post.state matches AppState::Running { pet: p, last_action: la } && p == fed(pet)
                && (la matches Option::Some((m, stamp)) && m@ == "You fed "@ + pet.name@ + "!"@
                && stamp == now_ms)
        },
    }
}

/// Effect of playing at clock reading `now_ms`: while running, the pet is
/// played with and the feedback message announces it with the current
/// timestamp; in the naming phase nothing changes.
pub open spec fn played_at(pre: App, post: App, now_ms: u64) -> bool {
    match pre.state {
        AppState::Naming { .. } => post == pre,
        AppState::Running { pet, .. } => {
            &&& post.running == pre.running
            &&& post.state matches AppState::Running { pet: p, last_action: la } && p == played(
                pet,
            ) && (la matches Option::Some((m, stamp)) && m@ == "You played with "@ + pet.name@
                + "!"@ && stamp == now_ms)
        },
    }
}

/// How one event moves the application from `pre` to `post`, exactly as the
/// run loop dispatches it: q, Q and Ctrl+c always quit, f/F feeds, p/P
/// plays; any other printable character, backspace, enter and escape act on
/// the naming phase only; everything else — and any key the state machine
/// does not recognise — changes nothing; a tick decays and expires.
pub open spec fn dispatched(pre: App, post: App, ev: Event, now_ms: u64) -> bool {
    match ev {
        Event::Tick => ticked_at(pre, post, now_ms),
        Event::Key(k) => match k {
            KeyInput::Char { ch, ctrl } => if ch == 'q' || ch == 'Q' || (ctrl && ch == 'c') {
                quit_requested(pre, post)
            } else if ch == 'f' || ch == 'F' {
                fed_at(pre, post, now_ms)
            } else if ch == 'p' || ch == 'P' {
                played_at(pre, post, now_ms)
            } else if !ctrl && pre.state is Naming {
                char_entered(pre, post, ch)
            } else {
                post == pre
            },
            KeyInput::Backspace => if pre.state is Naming {
                backspace_entered(pre, post)
            } else {
                post == pre
            },
            KeyInput::Enter => if pre.state is Naming {
                confirmed(pre, post)
            } else {
                post == pre
            },
            KeyInput::Esc => if pre.state is Naming {
                quit_requested(pre, post)
            } else {
                post == pre
            },
            KeyInput::Other => post == pre,
        },
    }
}

/// Relies on `String`'s `FromIterator<char>` impl (through `collect`):
/// collecting characters yields the string of exactly those characters in
/// order.
#[verifier::external_body]
fn chars_to_string(chars: &Vec<char>) -> (s: String)
    ensures
        s@ == chars@,
{
    chars.iter().collect()
}

impl App {
    /// A valid application: the name buffer never exceeds its limit, and
    /// once a pet exists it is valid.
    pub open spec fn wf(&self) -> bool {
        match self.state {
            AppState::Naming { name_input } => name_input@.len() <= MAX_NAME_LEN,
            AppState::Running { pet, .. } => pet.wf(),
        }
    }

    /// Create a new application in the naming phase.
    pub fn new() -> (app: Self)
        ensures
            initial(app),
            app.wf(),
    {
        App { running: true, state: AppState::Naming { name_input: Vec::new() } }
    }

    /// Whether the application is still in the naming phase.
    pub fn is_naming(&self) -> (b: bool)
        ensures
            b == (self.state is Naming),
    {
        match &self.state {
            AppState::Naming { .. } => true,
            AppState::Running { .. } => false,
        }
    }

    /// Add a character to the name input; full buffers silently drop it.
    pub fn input_char(&mut self, c: char)
        ensures
            char_entered(*old(self), *final(self), c),
            old(self).wf() ==> final(self).wf(),
    {
        let mut st = AppState::Naming { name_input: Vec::new() };
        core::mem::swap(&mut st, &mut self.state);
        match st {
            AppState::Naming { mut name_input } => {
                if name_input.len() < MAX_NAME_LEN {
                    name_input.push(c);
                }
                self.state = AppState::Naming { name_input };
            },
            AppState::Running { pet, last_action } => {
                self.state = AppState::Running { pet, last_action };
            },
        }
    }

    /// Remove the last character from the name input.
    pub fn input_backspace(&mut self)
        ensures
            backspace_entered(*old(self), *final(self)),
            old(self).wf() ==> final(self).wf(),
    {
        let mut st = AppState::Naming { name_input: Vec::new() };
        core::mem::swap(&mut st, &mut self.state);
        match st {
            AppState::Naming { mut name_input } => {
                if name_input.len() > 0 {
                    name_input.pop();
                }
                self.state = AppState::Naming { name_input };
            },
            AppState::Running { pet, last_action } => {
                self.state = AppState::Running { pet, last_action };
            },
        }
    }

    /// Confirm the pet name and transition to the running state; an empty
    /// buffer falls back to the default name "Tomo". A no-op once running.
    pub fn confirm_name(&mut self)
        ensures
            confirmed(*old(self), *final(self)),
            old(self).wf() ==> final(self).wf(),
    {
        let mut st = AppState::Naming { name_input: Vec::new() };
        core::mem::swap(&mut st, &mut self.state);
        match st {
            AppState::Naming { name_input } => {
                let name = if name_input.len() == 0 {
                    proof {
                        reveal_strlit("Tomo");
                    }
                    String::from_str("Tomo")
                } else {
                    chars_to_string(&name_input)
                };
                self.state = AppState::Running {
                    pet: Pet::new(name),
                    last_action: Option::None,
                };
            },
            AppState::Running { pet, last_action } => {
                self.state = AppState::Running { pet, last_action };
            },
        }
    }

    /// Quit the application: clear the running flag and touch nothing else.
    pub fn quit(&mut self)
        ensures
            quit_requested(*old(self), *final(self)),
            old(self).wf() ==> final(self).wf(),
    {
        self.running = false;
    }

    /// Advance time one tick as the clock reads `now_ms` milliseconds:
    /// decay the pet's stats and lazily expire the feedback message.
    pub fn tick(&mut self, now_ms: u64)
        ensures
            ticked_at(*old(self), *final(self), now_ms),
            old(self).wf() ==> final(self).wf(),
    {
        let mut st = AppState::Naming { name_input: Vec::new() };
        core::mem::swap(&mut st, &mut self.state);
        match st {
            AppState::Naming { name_input } => {
                self.state = AppState::Naming { name_input };
            },
            AppState::Running { mut pet, last_action } => {
                pet.tick();
                let la = match last_action {
                    Option::Some((m, stamp)) => {
                        if now_ms.saturating_sub(stamp) >= ACTION_MESSAGE_MS {
                            Option::None
                        } else {
                            Option::Some((m, stamp))
                        }
                    },
                    Option::None => Option::None,
                };
                self.state = AppState::Running { pet, last_action: la };
            },
        }
    }

    /// Feed the pet and record the feedback message, stamped `now_ms`.
    /// A no-op in the naming phase: no pet is created, no flag is touched.
    pub fn feed(&mut self, now_ms: u64)
        ensures
            fed_at(*old(self), *final(self), now_ms),
            old(self).state is Naming ==> *final(self) == *old(self),
            final(self).running == old(self).running,
            old(self).wf() ==> final(self).wf(),
    {
        let mut st = AppState::Naming { name_input: Vec::new() };
        core::mem::swap(&mut st, &mut self.state);
        match st {
            AppState::Naming { name_input } => {
                self.state = AppState::Naming { name_input };
            },
            AppState::Running { mut pet, last_action: _ } => {
                pet.feed();
                let mut msg = String::from_str("You fed ");
                msg.append(pet.name.as_str());
                msg.append("!");
                self.state = AppState::Running {
                    pet,
                    last_action: Option::Some((msg, now_ms)),
                };
            },
        }
    }

    /// Play with the pet and record the feedback message, stamped `now_ms`.
    /// A no-op in the naming phase: no pet is created, no flag is touched.
    pub fn play(&mut self, now_ms: u64)
        ensures
            played_at(*old(self), *final(self), now_ms),
            old(self).state is Naming ==> *final(self) == *old(self),
            final(self).running == old(self).running,
            old(self).wf() ==> final(self).wf(),
    {
        let mut st = AppState::Naming { name_input: Vec::new() };
        core::mem::swap(&mut st, &mut self.state);
        match st {
            AppState::Naming { name_input } => {
                self.state = AppState::Naming { name_input };
            },
            AppState::Running { mut pet, last_action: _ } => {
                pet.play();
                let mut msg = String::from_str("You played with ");
                msg.append(pet.name.as_str());
                msg.append("!");
                self.state = AppState::Running {
                    pet,
                    last_action: Option::Some((msg, now_ms)),
                };
            },
        }
    }

    /// Route one event into the state machine, as the run loop does.
    pub fn handle_event(&mut self, ev: Event, now_ms: u64)
        ensures
            dispatched(*old(self), *final(self), ev, now_ms),
            old(self).wf() ==> final(self).wf(),
    {
        match ev {
            Event::Tick => self.tick(now_ms),
            Event::Key(k) => match k {
                KeyInput::Char { ch, ctrl } => {
                    if ch == 'q' || ch == 'Q' || (ctrl && ch == 'c') {
                        self.quit();
                    } else if ch == 'f' || ch == 'F' {
                        self.feed(now_ms);
                    } else if ch == 'p' || ch == 'P' {
                        self.play(now_ms);
                    } else if !ctrl && self.is_naming() {
                        self.input_char(ch);
                    }
                },
                KeyInput::Backspace => {
                    if self.is_naming() {
                        self.input_backspace();
                    }
                },
                KeyInput::Enter => {
                    if self.is_naming() {
                        self.confirm_name();
                    }
                },
                KeyInput::Esc => {
                    if self.is_naming() {
                        self.quit();
                    }
                },
                KeyInput::Other => {},
            },
        }
    }
}

impl Default for App {
    /// A fresh application in the naming phase.
    fn default() -> (app: Self)
        ensures
            initial(app),
            app.wf(),
    {
        App::new()
    }
}

/// Quitting is idempotent: a second quit request finds the running flag
/// already false, leaves it false, and changes nothing else.
pub proof fn lemma_quit_idempotent(a: App, b: App, c: App)
    requires
        quit_requested(a, b),
        quit_requested(b, c),
    ensures
        !b.running,
        !c.running,
        c == b,
{
}

/// Appending to a full name buffer leaves it untouched: entering a
/// character when the buffer already holds the maximum number of
/// characters keeps the buffer, the phase and the running flag as they
/// were.
pub proof fn lemma_name_length_capped(pre: App, post: App, c: char, buffer: Vec<char>)
    requires
        char_entered(pre, post, c),
        pre.state == (AppState::Naming { name_input: buffer }),
        buffer@.len() >= MAX_NAME_LEN,
    ensures
        post.running == pre.running,
        post.state matches AppState::Naming { name_input: b } && b@ == buffer@,
{
}

/// A feedback message stamped at `stamp` survives every tick whose clock
/// reading is earlier than `stamp` plus the message lifetime, and is
/// cleared by any tick at or after that point.
pub proof fn lemma_feedback_expiry(message: String, stamp: u64, now_ms: u64)
    ensures
        now_ms < stamp + ACTION_MESSAGE_MS ==> expired_cleared(
            Option::Some((message, stamp)),
            now_ms,
        ) == Option::Some((message, stamp)),
        now_ms >= stamp + ACTION_MESSAGE_MS ==> expired_cleared(
            Option::Some((message, stamp)),
            now_ms,
        ) is None,
{
}

/// While the naming phase lasts no pet can come into being except through
/// a confirmed name: feeding and playing leave a naming-phase application
/// exactly as it was.
pub proof fn lemma_naming_phase_guard(pre: App, post: App, now_ms: u64)
    requires
        pre.state is Naming,
        fed_at(pre, post, now_ms) || played_at(pre, post, now_ms),
    ensures
        post == pre,
        post.state is Naming,
        post.running == pre.running,
{
}

} // verus!
