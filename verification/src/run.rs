//! What the program does around its keystrokes: how it starts, how long it waits
//! for a key, and when it reads its configuration again.
use crate::app::notes_flow;
use crate::app::types::Mode;
use crate::app::{App, AppView};
use crate::text;
use vstd::prelude::*;

verus! {

/// What the first argument asks for.
#[derive(Debug, Clone, Copy, PartialEq, Eq, Structural)]
pub enum Start {
    Help,
    Version,
    Update,
    Sample,
    UnknownOption,
    /// Open the file that is named, or the one found without a name.
    Open,
}

/// What the first argument asks for.
pub open spec fn start(arg: Option<Seq<char>>) -> Start {
    match arg {
        None => Start::Open,
        Some(a) => if a == "--help"@ || a == "-h"@ {
            Start::Help
        } else if a == "--version"@ || a == "-V"@ {
            Start::Version
        } else if a == "update"@ {
            Start::Update
        } else if a == "--sample"@ {
            Start::Sample
        } else if a.len() > 0 && a[0] == '-' {
            Start::UnknownOption
        } else {
            Start::Open
        },
    }
}

/// What the first argument asks for.
pub fn start_of(arg: Option<&str>) -> (r: Start)
    ensures
        r == start(
            match arg {
                Some(a) => Some(a@),
                None => None,
            },
        ),
{
    match arg {
        None => Start::Open,
        Some(a) => if text::str_eq(a, "--help") || text::str_eq(a, "-h") {
            Start::Help
        } else if text::str_eq(a, "--version") || text::str_eq(a, "-V") {
            Start::Version
        } else if text::str_eq(a, "update") {
            Start::Update
        } else if text::str_eq(a, "--sample") {
            Start::Sample
        } else if !a.is_empty() && a.get_char(0) == '-' {
            Start::UnknownOption
        } else {
            Start::Open
        },
    }
}

/// What is said of themes that could not be loaded: the one warning there is, or
/// how many there are.
pub open spec fn theme_warning(warnings: Seq<Seq<char>>) -> Option<Seq<char>> {
    if warnings.len() == 0 {
        None
    } else if warnings.len() == 1 {
        Some(warnings[0])
    } else {
        Some(
            text::number(warnings.len(), 10)
                + " theme(s) skipped — check ~/.config/tuxedo/themes/"@,
        )
    }
}

/// What is said of themes that could not be loaded.
pub fn theme_message(warnings: &Vec<String>) -> (r: Option<String>)
    ensures
        text::opt_text(r) == theme_warning(text::texts(warnings@)),
{
    assert(text::texts(warnings@).len() == warnings@.len());
    if warnings.len() == 0 {
        None
    } else if warnings.len() == 1 {
        assert(text::texts(warnings@)[0] == warnings@[0]@);
        Some(warnings[0].clone())
    } else {
        Some(
            text::concat(
                text::decimal(warnings.len()).as_str(),
                " theme(s) skipped — check ~/.config/tuxedo/themes/",
            ),
        )
    }
}

/// The longest wait for a key, in nanoseconds: a quarter of a second.
pub const EVENT_POLL: u64 = 250_000_000;

/// The earlier of two moments, of which either may be missing.
pub open spec fn earliest(a: Option<u64>, b: Option<u64>) -> Option<u64> {
    match (a, b) {
        (Some(x), Some(y)) => Some(
            if x < y {
                x
            } else {
                y
            },
        ),
        (Some(x), None) => Some(x),
        (None, y) => y,
    }
}

/// How long to wait for a key: until the message or the chord is due to go, but
/// never longer than `EVENT_POLL`.
pub open spec fn timeout(flash: Option<u64>, chord: Option<u64>, now: u64) -> u64 {
    match earliest(flash, chord) {
        Some(deadline) => if deadline <= now {
            0
        } else if deadline - now < EVENT_POLL {
            (deadline - now) as u64
        } else {
            EVENT_POLL
        },
        None => EVENT_POLL,
    }
}

/// How long to wait for a key, in nanoseconds. The moments are counted in
/// nanoseconds from a common start.
pub fn next_timeout(flash: Option<u64>, chord: Option<u64>, now: u64) -> (r: u64)
    ensures
        r == timeout(flash, chord, now),
{
    let due = match (flash, chord) {
        (Some(f), Some(c)) => if f < c {
            Some(f)
        } else {
            Some(c)
        },
        (Some(f), None) => Some(f),
        (None, c) => c,
    };
    match due {
        Some(deadline) => {
            let left: u64 = deadline.saturating_sub(now);
            if left < EVENT_POLL {
                left
            } else {
                EVENT_POLL
            }
        },
        None => EVENT_POLL,
    }
}

/// The wait never outlasts what is due to go, nor a quarter of a second.
pub proof fn law_wait_is_short_enough(flash: Option<u64>, chord: Option<u64>, now: u64)
    ensures
        timeout(flash, chord, now) <= EVENT_POLL,
        flash matches Some(f) ==> f >= now ==> now + timeout(flash, chord, now) <= f,
        chord matches Some(c) ==> c >= now ==> now + timeout(flash, chord, now) <= c,
{
}

/// What the watcher of the configuration has to say.
#[derive(Debug, Clone, Copy, PartialEq, Eq, Structural)]
pub enum Watched {
    Changed,
    Unchanged,
    Gone,
}

/// What is done about the configuration.
#[derive(Debug, Clone, Copy, PartialEq, Eq, Structural)]
pub enum Reload {
    /// Nothing.
    No,
    /// Nothing but drawing again.
    Redraw,
    /// It is read again.
    Read,
}

/// Whether the watcher is asked at all: not while a theme is being tried out,
/// which reading the configuration would undo.
pub fn may_poll_config(app: &App) -> (r: bool)
    ensures
        r == (app@.mode != Mode::PickTheme),
{
    app.mode != Mode::PickTheme
}

/// What is done about the configuration. `watched` is what the watcher said, if
/// there is one, and `has_path` whether it is known where the configuration lies.
pub fn poll_config_reload(app: &App, watched: Option<Watched>, has_path: bool) -> (r: Reload)
    ensures
        r == (if app@.mode == Mode::PickTheme || watched != Some(Watched::Changed) {
            Reload::No
        } else if has_path {
            Reload::Read
        } else {
            Reload::Redraw
        }),
{
    if !may_poll_config(app) {
        return Reload::No;
    }
    match watched {
        Some(Watched::Changed) => if has_path {
            Reload::Read
        } else {
            Reload::Redraw
        },
        _ => Reload::No,
    }
}

/// What is said once the configuration was read again.
pub open spec fn reload_message(result: Result<(), Seq<char>>) -> Seq<char> {
    match result {
        Ok(_) => "config reloaded"@,
        Err(e) => "config reload failed: "@ + e,
    }
}

/// Say that the configuration was read again, or why it could not be.
pub fn finish_reload(app: &mut App, result: Result<(), String>)
    ensures
        final(app)@ == old(app)@.flashing(reload_message(notes_flow::said(result))),
{
    let message = match result {
        Ok(()) => "config reloaded".to_owned(),
        Err(e) => text::concat("config reload failed: ", e.as_str()),
    };
    app.flash(message);
}

/// What a round of the program's loop finds changed before it draws.
#[derive(Debug, Clone, Copy, PartialEq, Eq, Structural)]
pub struct Polled {
    /// A new day began.
    pub today: bool,
    /// The archive was loaded, or changed.
    pub archive: bool,
    /// A newer release became known.
    pub update: bool,
    pub config: Reload,
}

/// Whether the screen is drawn again: where something changed, or the last round
/// left it to be drawn.
pub fn must_draw(dirty: bool, polled: Polled) -> (r: bool)
    ensures
        r == (dirty || polled.today || polled.archive || polled.update || polled.config
            != Reload::No),
{
    dirty || polled.today || polled.archive || polled.update || polled.config != Reload::No
}

/// What ended the wait for a key.
#[derive(Debug, Clone, Copy, PartialEq, Eq, Structural)]
pub enum Woken {
    Key,
    Resize,
    /// An event that means nothing here.
    Other,
    /// Nothing happened in time; `reloaded` says whether the files were found
    /// changed from outside, and read again.
    Idle { reloaded: bool },
}

/// How a round of the program's loop ends.
#[derive(Debug, Clone, Copy, PartialEq, Eq, Structural)]
pub struct Round {
    pub woken: Woken,
    /// The message has been shown long enough.
    pub flash_over: bool,
    /// The chord has waited long enough for its second key.
    pub chord_over: bool,
}

/// Whether what ended the wait calls for drawing again.
pub open spec fn stirs(woken: Woken) -> bool {
    match woken {
        Woken::Key | Woken::Resize => true,
        Woken::Other => false,
        Woken::Idle { reloaded } => reloaded,
    }
}

/// The application at the end of a round: a message and a chord that are over go.
pub open spec fn rounded(v: AppView, round: Round) -> AppView {
    let quiet = if round.flash_over {
        AppView { flash: None, ..v }
    } else {
        v
    };
    if round.chord_over {
        AppView { leader: None, ..quiet }
    } else {
        quiet
    }
}

/// End a round: take away a message and a chord that are over, and say whether
/// the screen has to be drawn again.
pub fn end_round(app: &mut App, round: Round) -> (r: bool)
    ensures
        final(app)@ == rounded(old(app)@, round),
        r == (stirs(round.woken) || round.flash_over || round.chord_over),
{
    if round.flash_over {
        app.flash_text = None;
    }
    if round.chord_over {
        app.chord.leader = None;
    }
    let stirred = match round.woken {
        Woken::Key | Woken::Resize => true,
        Woken::Other => false,
        Woken::Idle { reloaded } => reloaded,
    };
    stirred || round.flash_over || round.chord_over
}

} // verus!
