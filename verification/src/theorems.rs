//! What holds of every session: the focus stays on an entry, toggling is its
//! own inverse, a frame is a function of menu and focus, and the terminal is
//! released exactly as often as it was acquired.

use vstd::prelude::*;
use crate::frame::frame_of;
use crate::frame::rows_of;
use crate::frame::Row;
use crate::input::command_of;
use crate::input::Command;
use crate::input::Key;
use crate::menu_item::MenuItem;
use crate::menu_item::MenuItemKind;
use crate::ui::ActionView;
use crate::ui::Fault;
use crate::ui::Reply;
use crate::ui::Stage;
use crate::ui::UiState;

verus! {

impl<'a> UiState<'a> {
    /// The session after the same command was applied `n` times.
    pub open spec fn apply_times(self, command: Option<Command>, n: nat) -> UiState<'a>
        decreases n,
    {
        if n == 0 {
            self
        } else {
            self.apply(command).apply_times(command, (n - 1) as nat)
        }
    }

    /// Whether `other` has the shape of this session: as many entries, each
    /// meaning what it meant, each of the kind it was, and each actionable
    /// entry as it was. Only the state of a checkbox may differ.
    pub open spec fn same_shape(self, other: UiState<'a>) -> bool {
        &&& other.menu.len() == self.menu.len()
        &&& forall|i: int|
            0 <= i < self.menu.len() ==> {
                &&& (#[trigger] other.menu[i]).meaning == self.menu[i].meaning
                &&& other.menu[i].kind is Checkbox <==> self.menu[i].kind is Checkbox
                &&& self.menu[i].kind is Basic ==> other.menu[i] == self.menu[i]
            }
    }

    /// The session after the replies, taken in order.
    pub open spec fn run(self, replies: Seq<Reply>) -> UiState<'a>
        decreases replies.len(),
    {
        if replies.len() == 0 {
            self
        } else {
            self.step(replies.first()).run(replies.drop_first())
        }
    }

    /// Whether the terminal is held: acquired and not yet released.
    pub open spec fn holds_terminal(self) -> bool {
        self.stage is Presenting || self.stage is Reading || self.stage is Releasing
    }

    /// How often the terminal is acquired over the replies: the turns at
    /// which an acquire was due and was answered by `Done`.
    pub open spec fn acquires(self, replies: Seq<Reply>) -> nat
        decreases replies.len(),
    {
        if replies.len() == 0 {
            0
        } else {
            let here: nat = if self.stage is Idle && replies.first() == Reply::Done {
                1
            } else {
                0
            };
            here + self.step(replies.first()).acquires(replies.drop_first())
        }
    }

    /// How often the terminal is released over the replies: the turns at
    /// which a release was due and was answered, well or badly.
    pub open spec fn releases(self, replies: Seq<Reply>) -> nat
        decreases replies.len(),
    {
        if replies.len() == 0 {
            0
        } else {
            let here: nat = if self.stage is Releasing && self.answers(replies.first()) {
                1
            } else {
                0
            };
            here + self.step(replies.first()).releases(replies.drop_first())
        }
    }

    /// How often a frame is presented or an input read over the replies: the
    /// turns at which the loop was running.
    pub open spec fn loop_turns(self, replies: Seq<Reply>) -> nat
        decreases replies.len(),
    {
        if replies.len() == 0 {
            0
        } else {
            let here: nat = if self.is_running() {
                1
            } else {
                0
            };
            here + self.step(replies.first()).loop_turns(replies.drop_first())
        }
    }
}

/// Toggling an entry twice gives the entry back.
pub proof fn lemma_entry_toggle_twice(item: MenuItem<'_>)
    ensures
        item.toggled().toggled() == item,
{
}

/// Toggling an actionable entry gives the entry back.
pub proof fn lemma_entry_toggle_action(item: MenuItem<'_>)
    requires
        item.kind is Basic,
    ensures
        item.toggled() == item,
{
}

/// With the focus on the first entry, moving it up any number of times
/// leaves the session as it was.
pub proof fn lemma_focus_up_at_first(s: UiState<'_>, n: nat)
    requires
        s.wf(),
        s.focus == 0,
    ensures
        s.apply_times(Some(Command::FocusUp), n) == s,
    decreases n,
{
    if n > 0 {
        assert(s.apply(Some(Command::FocusUp)) == s);
        lemma_focus_up_at_first(s, (n - 1) as nat);
    }
}

/// With the focus on the last entry, moving it down any number of times
/// leaves the session as it was.
pub proof fn lemma_focus_down_at_last(s: UiState<'_>, n: nat)
    requires
        s.wf(),
        s.focus == s.menu.len() - 1,
    ensures
        s.apply_times(Some(Command::FocusDown), n) == s,
    decreases n,
{
    if n > 0 {
        assert(s.apply(Some(Command::FocusDown)) == s);
        lemma_focus_down_at_last(s, (n - 1) as nat);
    }
}

/// A move of the focus goes one entry in its direction where there is one,
/// and nowhere where there is none.
pub proof fn lemma_focus_moves_one(s: UiState<'_>)
    requires
        s.wf(),
    ensures
        s.apply(Some(Command::FocusUp)).focus == if s.focus == 0 {
            0
        } else {
            s.focus - 1
        },
        s.apply(Some(Command::FocusDown)).focus == if s.focus == s.menu.len() - 1 {
            s.focus
        } else {
            s.focus + 1
        },
{
}

/// Two toggles in a row leave the session as it was.
pub proof fn lemma_toggle_twice(s: UiState<'_>)
    requires
        s.wf(),
    ensures
        s.apply(Some(Command::Toggle)).apply(Some(Command::Toggle)) == s,
{
    let once = s.apply(Some(Command::Toggle));
    let twice = once.apply(Some(Command::Toggle));
    lemma_entry_toggle_twice(s.menu[s.focus]);
    assert(twice.menu =~= s.menu);
}

/// A toggle flips the focused checkbox and touches no other entry.
pub proof fn lemma_toggle_flips_checkbox(s: UiState<'_>, on: bool)
    requires
        s.wf(),
        s.menu[s.focus].kind == MenuItemKind::Checkbox(on),
    ensures
        s.apply(Some(Command::Toggle)).menu[s.focus].kind == MenuItemKind::Checkbox(!on),
        s.apply(Some(Command::Toggle)).menu[s.focus].meaning == s.menu[s.focus].meaning,
        forall|i: int|
            0 <= i < s.menu.len() && i != s.focus ==> #[trigger] s.apply(
                Some(Command::Toggle),
            ).menu[i] == s.menu[i],
{
}

/// A toggle on an actionable entry leaves the session as it was.
pub proof fn lemma_toggle_action_changes_nothing(s: UiState<'_>)
    requires
        s.wf(),
        s.menu[s.focus].kind is Basic,
    ensures
        s.apply(Some(Command::Toggle)) == s,
{
    lemma_entry_toggle_action(s.menu[s.focus]);
    assert(s.apply(Some(Command::Toggle)).menu =~= s.menu);
}

/// No command moves the focus off the menu or changes the menu's shape, and
/// no command touches an entry that is not under the focus.
pub proof fn lemma_apply_keeps_shape(s: UiState<'_>, command: Option<Command>)
    requires
        s.wf(),
    ensures
        s.apply(command).wf(),
        s.same_shape(s.apply(command)),
        forall|i: int|
            0 <= i < s.menu.len() && i != s.focus ==> #[trigger] s.apply(command).menu[i]
                == s.menu[i],
{
}

/// No reply moves the focus off the menu or changes the menu's shape, and no
/// reply touches an entry that is not under the focus.
pub proof fn lemma_step_keeps_shape(s: UiState<'_>, reply: Reply)
    requires
        s.wf(),
    ensures
        s.step(reply).wf(),
        s.same_shape(s.step(reply)),
        forall|i: int|
            0 <= i < s.menu.len() && i != s.focus ==> #[trigger] s.step(reply).menu[i]
                == s.menu[i],
{
    if s.stage == Stage::Reading && reply is Input {
        lemma_apply_keeps_shape(s, command_of(reply->Input_0));
    }
}

/// Over any replies the focus stays on an entry and the menu keeps its
/// shape.
pub proof fn lemma_run_keeps_shape(s: UiState<'_>, replies: Seq<Reply>)
    requires
        s.wf(),
    ensures
        s.run(replies).wf(),
        s.same_shape(s.run(replies)),
    decreases replies.len(),
{
    if replies.len() > 0 {
        let next = s.step(replies.first());
        lemma_step_keeps_shape(s, replies.first());
        lemma_run_keeps_shape(next, replies.drop_first());
        let end = s.run(replies);
        assert forall|i: int| 0 <= i < s.menu.len() implies {
            &&& (#[trigger] end.menu[i]).meaning == s.menu[i].meaning
            &&& end.menu[i].kind is Checkbox <==> s.menu[i].kind is Checkbox
            &&& s.menu[i].kind is Basic ==> end.menu[i] == s.menu[i]
        } by {
            assert(next.menu[i].meaning == s.menu[i].meaning);
        }
    }
}

/// A key that is bound to no command changes neither menu nor focus, and the
/// loop goes on with the next frame.
pub proof fn lemma_unbound_key_is_ignored(s: UiState<'_>, key: Key)
    requires
        s.stage == Stage::Reading,
        command_of(key) is None,
    ensures
        s.step(Reply::Input(key)) == (UiState { stage: Stage::Presenting, ..s }),
{
}

/// Sessions with the same menu and the same focus show the same frame,
/// whatever stage they are in.
pub proof fn lemma_frame_depends_on_menu_and_focus(a: UiState<'_>, b: UiState<'_>)
    requires
        a.menu == b.menu,
        a.focus == b.focus,
    ensures
        a.frame() == b.frame(),
{
}

/// Two frames rendered from the same menu and focus are the same, row by
/// row: as many rows, the same text, the same highlight.
pub proof fn lemma_render_is_repeatable(
    first: Seq<Row>,
    second: Seq<Row>,
    menu: Seq<MenuItem<'_>>,
    focus: int,
)
    requires
        rows_of(first) == frame_of(menu, focus),
        rows_of(second) == frame_of(menu, focus),
    ensures
        first.len() == second.len(),
        forall|i: int| 0 <= i < first.len() ==> (#[trigger] first[i])@ == second[i]@,
{
    assert(rows_of(first).len() == first.len());
    assert(rows_of(second).len() == second.len());
    assert forall|i: int| 0 <= i < first.len() implies (#[trigger] first[i])@ == second[i]@ by {
        assert(rows_of(first)[i] == first[i]@);
        assert(rows_of(second)[i] == second[i]@);
    }
}

/// A frame has one row per entry; exactly the focused row is highlighted,
/// and each row reads prefix, then label.
pub proof fn lemma_frame_rows(s: UiState<'_>, i: int)
    requires
        s.wf(),
        0 <= i < s.menu.len(),
    ensures
        s.frame().len() == s.menu.len(),
        s.frame()[i].highlighted <==> i == s.focus,
        s.frame()[i].label == s.menu[i].kind.prefix_spec() + s.menu[i].meaning.label_spec(),
{
}

/// A stopped session stays as it is, whatever is replied.
pub proof fn lemma_stopped_is_final(s: UiState<'_>, replies: Seq<Reply>)
    requires
        s.stage is Stopped,
    ensures
        s.run(replies) == s,
        s.acquires(replies) == 0,
        s.releases(replies) == 0,
        s.loop_turns(replies) == 0,
    decreases replies.len(),
{
    if replies.len() > 0 {
        lemma_stopped_is_final(s.step(replies.first()), replies.drop_first());
    }
}

/// Where the acquire fails the session stops at once with `TerminalInit`:
/// the loop never runs, no frame is presented, no input is read, nothing is
/// released, and the exit that is due reports the failure.
pub proof fn lemma_failed_acquire_stops(s: UiState<'_>, replies: Seq<Reply>)
    requires
        s.stage == Stage::Idle,
        replies.len() > 0,
        replies.first() == Reply::Failed,
    ensures
        s.run(replies).stage == Stage::Stopped(Err(Fault::TerminalInit)),
        s.run(replies).pending() == ActionView::Exit(Err(Fault::TerminalInit)),
        s.loop_turns(replies) == 0,
        s.acquires(replies) == 0,
        s.releases(replies) == 0,
{
    lemma_stopped_is_final(s.step(Reply::Failed), replies.drop_first());
}

/// A quit in the running loop asks for the release next, and the release,
/// however it goes, is followed by an exit with success.
pub proof fn lemma_quit_releases_then_exits(s: UiState<'_>, release: Reply)
    requires
        s.stage == Stage::Reading,
        release == Reply::Done || release == Reply::Failed,
    ensures
        s.step(Reply::Input(Key::Char('q'))).pending() == ActionView::Release,
        s.step(Reply::Input(Key::Char('q'))).step(release).stage == Stage::Stopped(Ok(())),
        s.step(Reply::Input(Key::Char('q'))).step(release).pending() == ActionView::Exit(Ok(())),
{
}

/// A failure in the running loop asks for the release next, and the release,
/// however it goes, is followed by an exit that reports the loop's failure:
/// a failed release hides no fault of the loop.
pub proof fn lemma_fault_releases_then_exits(s: UiState<'_>, release: Reply)
    requires
        s.is_running(),
        release == Reply::Done || release == Reply::Failed,
    ensures
        s.step(Reply::Failed).pending() == ActionView::Release,
        s.step(Reply::Failed).step(release).pending() == ActionView::Exit(
            Err(
                if s.stage == Stage::Presenting {
                    Fault::RenderFault
                } else {
                    Fault::InputFault
                },
            ),
        ),
{
}

/// A session that has left `Idle` never acquires again.
pub proof fn lemma_acquires_only_when_idle(s: UiState<'_>, replies: Seq<Reply>)
    requires
        !(s.stage is Idle),
    ensures
        s.acquires(replies) == 0,
        !(s.run(replies).stage is Idle),
    decreases replies.len(),
{
    if replies.len() > 0 {
        lemma_acquires_only_when_idle(s.step(replies.first()), replies.drop_first());
    }
}

/// Over any replies, releases and acquires balance: the terminal held at the
/// start plus the acquires equals the releases plus the terminal held at the
/// end.
pub proof fn lemma_releases_balance_acquires(s: UiState<'_>, replies: Seq<Reply>)
    ensures
        (if s.holds_terminal() {
            1nat
        } else {
            0nat
        }) + s.acquires(replies) == s.releases(replies) + (if s.run(replies).holds_terminal() {
            1nat
        } else {
            0nat
        }),
    decreases replies.len(),
{
    if replies.len() > 0 {
        lemma_releases_balance_acquires(s.step(replies.first()), replies.drop_first());
    }
}

/// A session that holds the terminal, or has stopped for another reason,
/// never stops with `TerminalInit`.
proof fn lemma_held_terminal_rules_out_init_fault(s: UiState<'_>, replies: Seq<Reply>)
    requires
        !(s.stage is Idle),
        s.stage != Stage::Releasing(Err(Fault::TerminalInit)),
        s.stage != Stage::Stopped(Err(Fault::TerminalInit)),
    ensures
        s.run(replies).stage != Stage::Stopped(Err(Fault::TerminalInit)),
    decreases replies.len(),
{
    if replies.len() > 0 {
        lemma_held_terminal_rules_out_init_fault(s.step(replies.first()), replies.drop_first());
    }
}

/// A session that starts idle acquires the terminal at most once and never
/// releases it more often than it acquired it. When it has stopped it has
/// released the terminal exactly as often as it acquired it: never if the
/// acquire failed, once in every other case, whether the loop ended by a
/// quit or by a fault.
pub proof fn lemma_released_exactly_once(s: UiState<'_>, replies: Seq<Reply>)
    requires
        s.stage == Stage::Idle,
    ensures
        s.acquires(replies) <= 1,
        s.releases(replies) <= s.acquires(replies),
        s.run(replies).stage is Stopped ==> s.releases(replies) == s.acquires(replies),
        s.run(replies).stage == Stage::Stopped(Err(Fault::TerminalInit)) ==> s.acquires(replies)
            == 0,
        s.run(replies).stage is Stopped && s.run(replies).stage != Stage::Stopped(
            Err(Fault::TerminalInit),
        ) ==> s.acquires(replies) == 1,
    decreases replies.len(),
{
    lemma_releases_balance_acquires(s, replies);
    if replies.len() > 0 {
        let next = s.step(replies.first());
        let rest = replies.drop_first();
        if next.stage is Idle {
            lemma_released_exactly_once(next, rest);
        } else if next.stage is Stopped {
            lemma_stopped_is_final(next, rest);
        } else {
            lemma_acquires_only_when_idle(next, rest);
            lemma_held_terminal_rules_out_init_fault(next, rest);
        }
    }
}

} // verus!
