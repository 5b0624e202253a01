//! What keys do to the line being edited, in the prompts, and on the screens of
//! their own.
use crate::action::{Action, RecAction};
use crate::app::note_editor::NoteEditorMode;
use crate::app::types::{DialogInputMode, Mode, OverlayKind};
use crate::app::AppView;
use crate::dispatch::line::AddOutcome;
use crate::dispatch::request::{Op, Reaction, RequestView, TextOp};
use crate::keys;
use crate::keys::{EditAction, KeyCode, KeyEvent, KeyModifiers};
use crate::laws::list;
use vstd::prelude::*;

verus! {

/// A key with Alt held.
pub open spec fn with_alt(code: KeyCode) -> KeyEvent {
    KeyEvent { code, modifiers: KeyModifiers { control: false, alt: true, other: false } }
}

/// A key with Control held.
pub open spec fn held(code: KeyCode) -> KeyEvent {
    KeyEvent { code, modifiers: KeyModifiers { control: true, alt: false, other: false } }
}

/// What each key does to the line: alone, with Control and with Alt.
pub proof fn law_editing_keys()
    ensures
        keys::edit_key(list::alone(KeyCode::Backspace)) == Some(EditAction::DeleteBackward),
        keys::edit_key(list::alone(KeyCode::Delete)) == Some(EditAction::DeleteForward),
        keys::edit_key(list::alone(KeyCode::Left)) == Some(EditAction::MoveLeft),
        keys::edit_key(list::alone(KeyCode::Right)) == Some(EditAction::MoveRight),
        keys::edit_key(list::alone(KeyCode::Home)) == Some(EditAction::MoveHome),
        keys::edit_key(list::alone(KeyCode::End)) == Some(EditAction::MoveEnd),
        keys::edit_key(list::with_control('a')) == Some(EditAction::MoveHome),
        keys::edit_key(list::with_control('e')) == Some(EditAction::MoveEnd),
        keys::edit_key(list::with_control('b')) == Some(EditAction::MoveLeft),
        keys::edit_key(list::with_control('f')) == Some(EditAction::MoveRight),
        keys::edit_key(list::with_control('h')) == Some(EditAction::DeleteBackward),
        keys::edit_key(list::with_control('d')) == Some(EditAction::DeleteForward),
        keys::edit_key(list::with_control('w')) == Some(EditAction::DeleteWordBackward),
        keys::edit_key(list::with_control('u')) == Some(EditAction::KillToStart),
        keys::edit_key(list::with_control('k')) == Some(EditAction::KillToEnd),
        keys::edit_key(held(KeyCode::Backspace)) == Some(EditAction::DeleteWordBackward),
        keys::edit_key(with_alt(KeyCode::Char('b'))) == Some(EditAction::MoveWordBackward),
        keys::edit_key(with_alt(KeyCode::Char('f'))) == Some(EditAction::MoveWordForward),
        keys::edit_key(with_alt(KeyCode::Char('d'))) == Some(EditAction::DeleteWordForward),
        keys::edit_key(with_alt(KeyCode::Backspace)) == Some(EditAction::DeleteWordBackward),
        keys::edit_key(list::alone(KeyCode::Enter)) is None,
        keys::edit_key(list::alone(KeyCode::Esc)) is None,
        keys::edit_key(list::alone(KeyCode::Tab)) is None,
        keys::edit_key(list::alone(KeyCode::Up)) is None,
        keys::edit_key(list::alone(KeyCode::Down)) is None,
        keys::edit_key(list::with_control('g')) is None,
{
}

/// A character is typed where neither Control nor Alt is held, and where both are,
/// whatever else is held.
pub proof fn law_typed_characters(c: char, both: bool, other: bool)
    ensures
        keys::edit_key(
            KeyEvent {
                code: KeyCode::Char(c),
                modifiers: KeyModifiers { control: both, alt: both, other },
            },
        ) == Some(EditAction::Insert(c)),
{
}

/// Moving is no change of the text, and everything else is.
pub proof fn law_motions_and_changes(c: char)
    ensures
        EditAction::MoveLeft.is_motion() && EditAction::MoveRight.is_motion()
            && EditAction::MoveHome.is_motion() && EditAction::MoveEnd.is_motion()
            && EditAction::MoveWordForward.is_motion() && EditAction::MoveWordBackward.is_motion(),
        !EditAction::Insert(c).is_motion() && !EditAction::DeleteBackward.is_motion()
            && !EditAction::DeleteForward.is_motion()
            && !EditAction::DeleteWordBackward.is_motion()
            && !EditAction::DeleteWordForward.is_motion() && !EditAction::KillToStart.is_motion()
            && !EditAction::KillToEnd.is_motion(),
{
}

/// What leaves a screen: `q`, however it is held, and Ctrl-C with nothing else
/// held.
pub proof fn law_leaving_keys(c: char)
    ensures
        keys::exit_key(list::typed('q')),
        keys::exit_key(list::with_control('q')),
        keys::exit_key(list::with_control('c')),
        !keys::exit_key(list::typed('c')),
        c != 'q' ==> !keys::exit_key(list::typed(c)),
        !keys::exit_key(list::alone(KeyCode::Esc)),
        !keys::exit_key(with_alt(KeyCode::Char('c'))),
{
}

/// A key pressed in the line editor, which has the keyboard.
pub open spec fn in_line(v: AppView, key: KeyEvent) -> Reaction {
    v.line_keyed(key, None)
}

/// The line editor takes keys as text, and no picker is open over it.
pub open spec fn typing_text(v: AppView) -> bool {
    &&& !v.pinned_focus
    &&& v.mode == Mode::Insert
    &&& v.draft.input_mode == DialogInputMode::Insert
    &&& v.draft.overlay is None
}

/// The line editor takes keys as commands.
pub open spec fn commanding(v: AppView) -> bool {
    &&& !v.pinned_focus
    &&& v.mode == Mode::Insert
    &&& v.draft.input_mode == DialogInputMode::Normal
}

/// Submitting a line that came from a task saves it over that task; one that came
/// from none is added. The editor closes with the line that was saved.
pub proof fn law_submitting_a_line(v: AppView)
    requires
        typing_text(v) || commanding(v),
    ensures
        ({
            let r = in_line(v, list::alone(KeyCode::Enter));
            match v.editing {
                Some(abs) => r == (Reaction {
                    app: AppView { mode: Mode::Normal, editing: None, ..v },
                    requests: seq![
                        RequestView::Do(Op::SaveEdit(abs)),
                        RequestView::Do(Op::ClearDraft),
                    ],
                }),
                None => list::only_asks(r, v, Op::AddFromDraft),
            }
        }),
{
    reveal(AppView::line_typed);
    reveal(AppView::line_commanded);
}

/// After a task was added, or refused, the editor closes and the line is cleared;
/// a line that was only rewritten stays to be confirmed.
pub proof fn law_after_adding(v: AppView)
    ensures
        list::only_becomes(v.added(AddOutcome::Parsed), v),
        list::only_asks(
            v.added(AddOutcome::Saved),
            AppView { mode: Mode::Normal, editing: None, ..v },
            Op::ClearDraft,
        ),
        list::only_asks(
            v.added(AddOutcome::Refused),
            AppView { mode: Mode::Normal, editing: None, ..v },
            Op::ClearDraft,
        ),
{
}

/// Where keys are text, a character is typed; `/` and `:` also look whether a
/// picker is to open; Esc goes over to commands.
pub proof fn law_typing_into_the_line(v: AppView)
    requires
        typing_text(v),
        !v.draft.autocomplete,
    ensures
        forall|c: char|
            #![trigger list::typed(c)]
            c != '/' && c != ':' ==> list::only_asks(
                in_line(v, list::typed(c)),
                v,
                Op::Edit(EditAction::Insert(c)),
            ),
        in_line(v, list::typed('/')) == (Reaction {
            app: v,
            requests: seq![
                RequestView::Do(Op::Edit(EditAction::Insert('/'))),
                RequestView::Do(Op::OpenSlashMenuIfGrown),
            ],
        }),
        in_line(v, list::typed(':')) == (Reaction {
            app: v,
            requests: seq![
                RequestView::Do(Op::Edit(EditAction::Insert(':'))),
                RequestView::Do(Op::OpenKvOverlayIfGrown),
            ],
        }),
        list::only_asks(
            in_line(v, list::alone(KeyCode::Esc)),
            v,
            Op::SetInputMode(DialogInputMode::Normal),
        ),
        list::only_asks(
            in_line(v, list::alone(KeyCode::Backspace)),
            v,
            Op::Edit(EditAction::DeleteBackward),
        ),
        list::only_asks(
            in_line(v, list::with_control('u')),
            v,
            Op::Edit(EditAction::KillToStart),
        ),
{
    reveal(AppView::line_typed);
    assert(in_line(v, list::typed('/')).requests =~= seq![
        RequestView::Do(Op::Edit(EditAction::Insert('/'))),
        RequestView::Do(Op::OpenSlashMenuIfGrown),
    ]);
    assert(in_line(v, list::typed(':')).requests =~= seq![
        RequestView::Do(Op::Edit(EditAction::Insert(':'))),
        RequestView::Do(Op::OpenKvOverlayIfGrown),
    ]);
}

/// Where completions are offered, Tab accepts one, the arrows and Ctrl-N and
/// Ctrl-P step through them, and Esc takes them away without leaving the line.
pub proof fn law_completions(v: AppView)
    requires
        typing_text(v),
        v.draft.autocomplete,
    ensures
        in_line(v, list::alone(KeyCode::Tab)) == (Reaction {
            app: v,
            requests: seq![
                RequestView::Do(Op::AutocompleteAccept),
                RequestView::Do(Op::SuppressAutocomplete),
            ],
        }),
        list::only_asks(
            in_line(v, list::alone(KeyCode::Up)),
            v,
            Op::AutocompleteStep { forward: false },
        ),
        list::only_asks(
            in_line(v, list::with_control('p')),
            v,
            Op::AutocompleteStep { forward: false },
        ),
        list::only_asks(
            in_line(v, list::alone(KeyCode::Down)),
            v,
            Op::AutocompleteStep { forward: true },
        ),
        list::only_asks(
            in_line(v, list::with_control('n')),
            v,
            Op::AutocompleteStep { forward: true },
        ),
        list::only_asks(
            in_line(v, list::alone(KeyCode::Esc)),
            v,
            Op::SuppressAutocomplete,
        ),
{
    reveal(AppView::line_typed);
}

/// What each key does where the line editor takes keys as commands.
pub proof fn law_line_commands(v: AppView)
    requires
        commanding(v),
    ensures
        list::only_asks(
            in_line(v, list::alone(KeyCode::Esc)),
            AppView { mode: Mode::Normal, editing: None, ..v },
            Op::ClearDraft,
        ),
        list::only_asks(in_line(v, list::typed('h')), v, Op::Edit(EditAction::MoveLeft)),
        list::only_asks(
            in_line(v, list::alone(KeyCode::Left)),
            v,
            Op::Edit(EditAction::MoveLeft),
        ),
        list::only_asks(in_line(v, list::typed('l')), v, Op::Edit(EditAction::MoveRight)),
        list::only_asks(
            in_line(v, list::alone(KeyCode::Right)),
            v,
            Op::Edit(EditAction::MoveRight),
        ),
        list::only_asks(
            in_line(v, list::typed('b')),
            v,
            Op::Edit(EditAction::MoveWordBackward),
        ),
        list::only_asks(in_line(v, list::typed('e')), v, Op::WordEnd),
        list::only_asks(in_line(v, list::typed('x')), v, Op::Edit(EditAction::DeleteForward)),
        list::only_asks(
            in_line(v, list::typed('i')),
            v,
            Op::SetInputMode(DialogInputMode::Insert),
        ),
        list::only_becomes(
            in_line(v, list::typed('d')),
            AppView { leader: Some('d'), ..v },
        ),
        list::only_becomes(
            in_line(v, list::typed('c')),
            AppView { leader: Some('c'), ..v },
        ),
        in_line(v, list::typed('a')) == (Reaction {
            app: v,
            requests: seq![
                RequestView::Do(Op::Edit(EditAction::MoveRight)),
                RequestView::Do(Op::SetInputMode(DialogInputMode::Insert)),
            ],
        }),
        in_line(v, list::typed('A')) == (Reaction {
            app: v,
            requests: seq![
                RequestView::Do(Op::Edit(EditAction::MoveEnd)),
                RequestView::Do(Op::SetInputMode(DialogInputMode::Insert)),
            ],
        }),
        in_line(v, list::typed('w')) == (if v.leader == Some('d') {
            Reaction {
                app: AppView { leader: None, ..v },
                requests: seq![RequestView::Do(Op::Edit(EditAction::DeleteWordForward))],
            }
        } else if v.leader == Some('c') {
            Reaction {
                app: AppView { leader: None, ..v },
                requests: seq![
                    RequestView::Do(Op::Edit(EditAction::DeleteWordForward)),
                    RequestView::Do(Op::SetInputMode(DialogInputMode::Insert)),
                ],
            }
        } else {
            Reaction {
                app: v,
                requests: seq![RequestView::Do(Op::Edit(EditAction::MoveWordForward))],
            }
        }),
{
    reveal(AppView::line_commanded);
}

/// A picker is open over the line.
pub open spec fn picking(v: AppView, overlay: OverlayKind) -> bool {
    &&& !v.pinned_focus
    &&& v.mode == Mode::Insert
    &&& v.draft.input_mode == DialogInputMode::Insert
    &&& v.draft.overlay == Some(overlay)
}

/// What each key does in the calendar: days, weeks and months forward and back,
/// today, tomorrow and a week from now, no date, and the end of it.
pub proof fn law_calendar_keys(v: AppView)
    requires
        picking(v, OverlayKind::Calendar),
    ensures
        list::only_asks(
            in_line(v, list::typed('h')),
            v,
            Op::CalendarDay { forward: false },
        ),
        list::only_asks(
            in_line(v, list::alone(KeyCode::Left)),
            v,
            Op::CalendarDay { forward: false },
        ),
        list::only_asks(in_line(v, list::typed('l')), v, Op::CalendarDay { forward: true }),
        list::only_asks(
            in_line(v, list::alone(KeyCode::Right)),
            v,
            Op::CalendarDay { forward: true },
        ),
        list::only_asks(
            in_line(v, list::typed('k')),
            v,
            Op::CalendarWeek { forward: false },
        ),
        list::only_asks(
            in_line(v, list::alone(KeyCode::Up)),
            v,
            Op::CalendarWeek { forward: false },
        ),
        list::only_asks(in_line(v, list::typed('j')), v, Op::CalendarWeek { forward: true }),
        list::only_asks(
            in_line(v, list::alone(KeyCode::Down)),
            v,
            Op::CalendarWeek { forward: true },
        ),
        list::only_asks(
            in_line(v, list::typed('t')),
            v,
            Op::CalendarSetRelative { days: 0 },
        ),
        list::only_asks(
            in_line(v, list::typed('T')),
            v,
            Op::CalendarSetRelative { days: 1 },
        ),
        list::only_asks(
            in_line(v, list::typed('w')),
            v,
            Op::CalendarSetRelative { days: 7 },
        ),
        list::only_asks(in_line(v, list::typed('m')), v, Op::CalendarMonth { forward: true }),
        list::only_asks(
            in_line(v, list::typed('M')),
            v,
            Op::CalendarMonth { forward: false },
        ),
        list::only_asks(in_line(v, list::typed('x')), v, Op::CalendarClear),
        list::only_asks(in_line(v, list::alone(KeyCode::Enter)), v, Op::CalendarAccept),
        list::only_asks(in_line(v, list::alone(KeyCode::Esc)), v, Op::CalendarCancel),
{
    reveal(AppView::overlay_keyed);
}

/// A calendar that follows the date as it is typed takes digits, dashes and
/// Backspace into the line and then reads the date again; one that does not takes
/// none of them.
pub proof fn law_dates_are_typed_into_an_anchored_calendar(v: AppView, c: char)
    requires
        picking(v, OverlayKind::Calendar),
        '0' <= c && c <= '9' || c == '-',
    ensures
        v.draft.calendar_anchored ==> in_line(v, list::typed(c)) == (Reaction {
            app: v,
            requests: seq![
                RequestView::Do(Op::Edit(EditAction::Insert(c))),
                RequestView::Do(Op::CalendarSyncFromDraft),
            ],
        }),
        v.draft.calendar_anchored ==> in_line(v, list::alone(KeyCode::Backspace)) == (
        Reaction {
            app: v,
            requests: seq![
                RequestView::Do(Op::Edit(EditAction::DeleteBackward)),
                RequestView::Do(Op::CalendarSyncFromDraft),
            ],
        }),
        !v.draft.calendar_anchored ==> list::only_becomes(in_line(v, list::typed(c)), v),
{
    reveal(AppView::overlay_keyed);
    if v.draft.calendar_anchored {
        assert(in_line(v, list::typed(c)).requests =~= seq![
            RequestView::Do(Op::Edit(EditAction::Insert(c))),
            RequestView::Do(Op::CalendarSyncFromDraft),
        ]);
        assert(in_line(v, list::alone(KeyCode::Backspace)).requests =~= seq![
            RequestView::Do(Op::Edit(EditAction::DeleteBackward)),
            RequestView::Do(Op::CalendarSyncFromDraft),
        ]);
    }
}

/// In the recurrence builder keys to the side change the value, keys up and down
/// change the field, and the user's own bindings come first.
pub proof fn law_recurrence_keys(v: AppView, key: KeyEvent, own: RecAction)
    requires
        picking(v, OverlayKind::RecurrenceBuilder),
    ensures
        forall|code: KeyCode|
            #![trigger list::alone(code)]
            {
                let r = in_line(v, list::alone(code));
                if code == KeyCode::Char('h') || code == KeyCode::Left || code == KeyCode::Char('-')
                    || code == KeyCode::Char('_') {
                    list::only_asks(r, v, Op::RecurrenceAdjust { forward: false })
                } else if code == KeyCode::Char('l') || code == KeyCode::Right || code
                    == KeyCode::Char('+') || code == KeyCode::Char('=') {
                    list::only_asks(r, v, Op::RecurrenceAdjust { forward: true })
                } else if code == KeyCode::Char('j') || code == KeyCode::Down || code
                    == KeyCode::Tab {
                    list::only_asks(r, v, Op::RecurrenceFocus { forward: true })
                } else if code == KeyCode::Char('k') || code == KeyCode::Up || code
                    == KeyCode::BackTab {
                    list::only_asks(r, v, Op::RecurrenceFocus { forward: false })
                } else if code == KeyCode::Enter {
                    list::only_asks(r, v, Op::RecurrenceAccept)
                } else if code == KeyCode::Esc {
                    list::only_asks(r, v, Op::RecurrenceCancel)
                } else {
                    list::only_becomes(r, v)
                }
            },
        list::only_asks(
            v.line_keyed(key, Some(own)),
            v,
            match own {
                RecAction::FocusNext => Op::RecurrenceFocus { forward: true },
                RecAction::FocusPrev => Op::RecurrenceFocus { forward: false },
                RecAction::ValueNext => Op::RecurrenceAdjust { forward: true },
                RecAction::ValuePrev => Op::RecurrenceAdjust { forward: false },
                RecAction::Accept => Op::RecurrenceAccept,
                RecAction::Cancel => Op::RecurrenceCancel,
            },
        ),
{
    reveal(AppView::overlay_keyed);
}

/// What each key does in the priority chooser and in the slash menu. What the
/// menu does not take is typed, and the menu then looks whether it still fits.
pub proof fn law_priority_and_slash_keys(v: AppView)
    ensures
        picking(v, OverlayKind::PriorityChooser) ==> {
            &&& list::only_asks(
                in_line(v, list::typed('j')),
                v,
                Op::PriorityStep { forward: true },
            )
            &&& list::only_asks(
                in_line(v, list::typed('k')),
                v,
                Op::PriorityStep { forward: false },
            )
            &&& list::only_asks(
                in_line(v, list::alone(KeyCode::Enter)),
                v,
                Op::PriorityAccept,
            )
            &&& list::only_asks(in_line(v, list::alone(KeyCode::Esc)), v, Op::PriorityCancel)
        },
        picking(v, OverlayKind::SlashMenu) ==> {
            &&& list::only_asks(
                in_line(v, list::alone(KeyCode::Down)),
                v,
                Op::SlashStep { forward: true },
            )
            &&& list::only_asks(
                in_line(v, list::alone(KeyCode::Up)),
                v,
                Op::SlashStep { forward: false },
            )
            &&& list::only_asks(in_line(v, list::alone(KeyCode::Tab)), v, Op::SlashAccept)
            &&& list::only_asks(in_line(v, list::alone(KeyCode::Enter)), v, Op::SlashAccept)
            &&& list::only_asks(in_line(v, list::alone(KeyCode::Esc)), v, Op::SlashCancel)
            &&& forall|c: char|
                #![trigger list::typed(c)]
                in_line(v, list::typed(c)) == (Reaction {
                    app: v,
                    requests: seq![
                        RequestView::Do(Op::Edit(EditAction::Insert(c))),
                        RequestView::Do(Op::SlashRevalidate),
                    ],
                })
        },
{
    reveal(AppView::overlay_keyed);
    if picking(v, OverlayKind::SlashMenu) {
        assert forall|c: char| #![trigger list::typed(c)] in_line(v, list::typed(c)) == (
        Reaction {
            app: v,
            requests: seq![
                RequestView::Do(Op::Edit(EditAction::Insert(c))),
                RequestView::Do(Op::SlashRevalidate),
            ],
        }) by {
            assert(in_line(v, list::typed(c)).requests =~= seq![
                RequestView::Do(Op::Edit(EditAction::Insert(c))),
                RequestView::Do(Op::SlashRevalidate),
            ]);
        }
    }
}

/// A prompt hands its text over for what it was opened for, clears the line and
/// closes; Esc closes it and hands nothing over.
pub proof fn law_prompts(v: AppView)
    requires
        !v.pinned_focus,
        !v.draft.autocomplete,
        v.mode == Mode::PromptProject || v.mode == Mode::PromptContext || v.mode
            == Mode::PromptSaveFilter || v.mode == Mode::PromptRenameProject || v.mode
            == Mode::PromptRenameContext,
    ensures
        ({
            let op = if v.mode == Mode::PromptProject {
                TextOp::AddProject
            } else if v.mode == Mode::PromptContext {
                TextOp::ToggleContext
            } else if v.mode == Mode::PromptSaveFilter {
                TextOp::SaveFilter
            } else if v.mode == Mode::PromptRenameProject {
                TextOp::RenameProject
            } else {
                TextOp::RenameContext
            };
            &&& v.prompt_keyed(list::alone(KeyCode::Enter)) == (Reaction {
                app: AppView { mode: Mode::Normal, ..v },
                requests: seq![
                    RequestView::Do(Op::ClearDraft),
                    RequestView::Text(op, v.draft.line),
                ],
            })
            &&& list::only_asks(
                v.prompt_keyed(list::alone(KeyCode::Esc)),
                AppView { mode: Mode::Normal, ..v },
                Op::ClearDraft,
            )
            &&& forall|c: char|
                #![trigger list::typed(c)]
                list::only_asks(
                    v.prompt_keyed(list::typed(c)),
                    v,
                    Op::Edit(EditAction::Insert(c)),
                )
        }),
{
    reveal(AppView::prompt_keyed);
}

/// While searching, typing searches again; Enter keeps the search and goes to the
/// first row; Esc drops it.
pub proof fn law_search_keys(v: AppView)
    requires
        !v.pinned_focus,
        v.mode == Mode::Search,
    ensures
        list::only_becomes(
            v.search_keyed(list::alone(KeyCode::Enter)),
            AppView { mode: Mode::Normal, cursor: 0, ..v },
        ),
        v.search_keyed(list::alone(KeyCode::Esc)) == (Reaction {
            app: AppView { mode: Mode::Normal, ..v },
            requests: seq![RequestView::Do(Op::ClearDraft), RequestView::Do(Op::ClearSearch)],
        }),
        forall|c: char|
            #![trigger list::typed(c)]
            v.search_keyed(list::typed(c)) == (Reaction {
                app: v,
                requests: seq![
                    RequestView::Do(Op::Edit(EditAction::Insert(c))),
                    RequestView::Do(Op::SearchDraft),
                ],
            }),
        list::only_asks(
            v.search_keyed(list::alone(KeyCode::Left)),
            v,
            Op::Edit(EditAction::MoveLeft),
        ),
{
    reveal(AppView::search_keyed);
    assert forall|c: char| #![trigger list::typed(c)] v.search_keyed(list::typed(c)) == (
    Reaction {
        app: v,
        requests: seq![
            RequestView::Do(Op::Edit(EditAction::Insert(c))),
            RequestView::Do(Op::SearchDraft),
        ],
    }) by {
        assert(v.search_keyed(list::typed(c)).requests =~= seq![
            RequestView::Do(Op::Edit(EditAction::Insert(c))),
            RequestView::Do(Op::SearchDraft),
        ]);
    }
}

/// The help closes on `q`, `?`, Esc and Ctrl-C and on no other character; the
/// capture code on any key.
pub proof fn law_help_and_share_keys(v: AppView, key: KeyEvent, c: char)
    requires
        !v.pinned_focus,
    ensures
        v.mode == Mode::Help ==> {
            let out = AppView { mode: Mode::Normal, ..v };
            &&& list::only_becomes(list::pressed(v, list::typed('q')), out)
            &&& list::only_becomes(list::pressed(v, list::typed('?')), out)
            &&& list::only_becomes(list::pressed(v, list::alone(KeyCode::Esc)), out)
            &&& list::only_becomes(list::pressed(v, list::with_control('c')), out)
            &&& c != 'q' && c != '?' ==> list::only_becomes(list::pressed(v, list::typed(c)), v)
        },
        v.mode == Mode::Share ==> list::only_becomes(
            list::pressed(v, key),
            AppView { mode: Mode::Normal, ..v },
        ),
{
    reveal(list::pressed);
    reveal(AppView::help_keyed);
}

/// In the settings each key does what its command does, and Esc, `,` and `q` close
/// them.
pub proof fn law_settings_keys(v: AppView)
    requires
        !v.pinned_focus,
        v.mode == Mode::Settings,
    ensures
        v.settings_keyed(list::typed('T')) == v.applied(Action::CycleTheme),
        v.settings_keyed(list::typed('D')) == v.applied(Action::CycleDensity),
        v.settings_keyed(list::typed('L')) == v.applied(Action::ToggleLineNum),
        v.settings_keyed(list::typed('[')) == v.applied(Action::ToggleLeftPane),
        v.settings_keyed(list::typed(']')) == v.applied(Action::ToggleRightPane),
        v.settings_keyed(list::typed('H')) == v.applied(Action::ToggleShowDone),
        v.settings_keyed(list::typed('F')) == v.applied(Action::ToggleShowFuture),
        v.settings_keyed(list::typed('S')) == v.applied(Action::CycleSort),
        list::only_becomes(
            v.settings_keyed(list::alone(KeyCode::Esc)),
            AppView { mode: Mode::Normal, ..v },
        ),
        list::only_becomes(
            v.settings_keyed(list::typed(',')),
            AppView { mode: Mode::Normal, ..v },
        ),
        list::only_becomes(
            v.settings_keyed(list::typed('q')),
            AppView { mode: Mode::Normal, ..v },
        ),
{
    reveal(AppView::settings_keyed);
}

/// What each key does in the pickers of projects, contexts and saved filters, and
/// in that of themes.
pub proof fn law_picker_keys(v: AppView)
    requires
        !v.pinned_focus,
    ensures
        v.mode == Mode::PickProject || v.mode == Mode::PickContext || v.mode
            == Mode::PickSavedFilter ==> {
            &&& list::only_asks(
                list::pressed(v, list::typed('j')),
                v,
                Op::PickStep { forward: true },
            )
            &&& list::only_asks(
                list::pressed(v, list::typed('k')),
                v,
                Op::PickStep { forward: false },
            )
            &&& list::only_asks(list::pressed(v, list::alone(KeyCode::Enter)), v, Op::PickAccept)
            &&& list::only_asks(list::pressed(v, list::alone(KeyCode::Esc)), v, Op::PickCancel)
        },
        v.mode == Mode::PickProject ==> list::only_asks(
            list::pressed(v, list::typed('r')),
            v,
            Op::BeginRenameProject,
        ),
        v.mode == Mode::PickContext ==> list::only_asks(
            list::pressed(v, list::typed('r')),
            v,
            Op::BeginRenameContext,
        ),
        v.mode == Mode::PickSavedFilter ==> list::only_becomes(
            list::pressed(v, list::typed('r')),
            v,
        ),
        v.mode == Mode::PickTheme ==> {
            &&& list::only_asks(
                list::pressed(v, list::typed('j')),
                v,
                Op::PickThemeStep { forward: true },
            )
            &&& list::only_asks(
                list::pressed(v, list::typed('T')),
                v,
                Op::PickThemeStep { forward: true },
            )
            &&& list::only_asks(
                list::pressed(v, list::typed('k')),
                v,
                Op::PickThemeStep { forward: false },
            )
            &&& list::only_asks(
                list::pressed(v, list::alone(KeyCode::Enter)),
                v,
                Op::PickThemeAccept,
            )
            &&& list::only_asks(
                list::pressed(v, list::alone(KeyCode::Esc)),
                v,
                Op::PickThemeCancel,
            )
        },
{
    reveal(list::pressed);
}

/// The first run: `c` makes the file, `s` opens the sample, `q` and Esc quit, and
/// any other character does nothing.
pub proof fn law_welcome_keys(v: AppView, c: char)
    requires
        !v.pinned_focus,
        v.mode == Mode::Welcome,
    ensures
        list::only_asks(v.welcome_keyed(list::typed('c')), v, Op::CreateFile),
        list::only_asks(v.welcome_keyed(list::typed('s')), v, Op::OpenSample),
        list::only_becomes(
            v.welcome_keyed(list::typed('q')),
            AppView { should_quit: true, ..v },
        ),
        list::only_becomes(
            v.welcome_keyed(list::alone(KeyCode::Esc)),
            AppView { should_quit: true, ..v },
        ),
        c != 'c' && c != 's' && c != 'q' ==> list::only_becomes(
            v.welcome_keyed(list::typed(c)),
            v,
        ),
{
    reveal(AppView::welcome_keyed);
}

/// What is said where the host could not do what a screen asked for; where it
/// could, the screen is left.
pub proof fn law_screens_report(v: AppView, why: Seq<char>)
    ensures
        v.file_created(Ok(())) == (AppView { mode: Mode::Normal, ..v }),
        v.file_created(Err(why)) == (AppView {
            flash: Some("could not create "@ + v.file_path + ": "@ + why),
            ..v
        }),
        v.sample_opened(Ok(())) == (AppView { mode: Mode::Normal, ..v }),
        v.sample_opened(Err(why)) == (AppView {
            flash: Some("could not open sample: "@ + why),
            ..v
        }),
        v.share_started(Ok(())) == (AppView { mode: Mode::Share, ..v }),
        v.share_started(Err(why)) == (AppView {
            flash: Some("share unavailable: "@ + why),
            ..v
        }),
{
}

/// `z` pins the note that is open in the popup's editor, and hands the keyboard to
/// a pinned note or back; `Z` closes it; Esc hands the keyboard back. They do so
/// only where no text is being typed.
pub proof fn law_pin_keys(v: AppView)
    ensures
        !v.pinned_focus && v.mode == Mode::Notes && v.pinned is None ==> (v.popup.editor matches Some(
            e,
        ) ==> e.mode == NoteEditorMode::Normal && e.prompt is None ==> {
            let r = list::pressed(v, list::typed('z'));
            &&& r.requests.len() == 0
            &&& r.app.pinned == Some(e)
            &&& r.app.pinned_focus
            &&& r.app.popup.editor is None
            &&& r.app.mode == Mode::Normal
        }),
        v.pinned_focus ==> (v.pinned matches Some(e) ==> {
            &&& e.mode == NoteEditorMode::Normal && e.prompt is None ==> {
                &&& list::only_becomes(
                    list::pressed(v, list::typed('z')),
                    AppView { pinned_focus: false, ..v },
                )
                &&& list::only_becomes(
                    list::pressed(v, list::typed('Z')),
                    AppView { pinned: None, pinned_focus: false, ..v },
                )
                &&& list::only_becomes(
                    list::pressed(v, list::alone(KeyCode::Esc)),
                    AppView { pinned_focus: false, ..v },
                )
            }
            &&& e.mode == NoteEditorMode::Insert ==> list::pressed(v, list::typed('z')).app.pinned
                == Some(e.insert_char('z'))
        }),
        list::on_the_list(v) && v.pinned is Some ==> list::pressed(
            v,
            list::typed('z'),
        ).app.pinned_focus && list::pressed(v, list::typed('z')).app.pinned == v.pinned,
        list::on_the_list(v) && v.pinned is Some ==> list::pressed(
            v,
            list::typed('Z'),
        ).app.pinned is None,
{
    reveal(list::pressed);
    reveal(AppView::editor_keyed);
    reveal(AppView::switched);
    if let Some(e) = v.pinned {
        assert((AppView { pinned: Some(e), ..v }) == v);
    }
}

} // verus!
