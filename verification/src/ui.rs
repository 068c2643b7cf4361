//! The menu's session: the model, the focus, and the state machine that says
//! which terminal effect is due next.
//!
//! The machine performs no effect itself. It names the effect that is due
//! ([`Action`]), the caller performs it and reports how it went ([`Reply`]),
//! and the machine moves on. The terminal is acquired once, and released once
//! on every path that acquired it, before the exit is asked for.

use vstd::prelude::*;
use crate::frame::frame_of;
use crate::frame::render;
use crate::frame::rows_of;
use crate::frame::Row;
use crate::frame::RowView;
use crate::input::command_of;
use crate::input::decode;
use crate::input::Command;
use crate::input::Key;
use crate::menu_item::MenuItem;
use crate::menu_item::MenuItemKind;
use crate::menu_item::MenuItemMeaning;

verus! {

/// Why a session ended badly.
#[derive(Copy, Clone, Debug, PartialEq, Eq, Structural)]
pub enum Fault {
    /// The terminal could not be put into raw mode and the alternate screen.
    TerminalInit,
    /// Reading the next input event failed.
    InputFault,
    /// Presenting a frame failed.
    RenderFault,
}

/// Where a session stands.
///
/// The loop is running in `Presenting` and `Reading`, and in no other stage.
#[derive(Copy, Clone, Debug, PartialEq, Eq)]
pub enum Stage {
    /// Nothing has happened yet; the terminal is not acquired.
    Idle,
    /// The terminal is acquired and the current frame is to be presented.
    Presenting,
    /// The frame is on screen and the next input event is awaited.
    Reading,
    /// The loop has ended with this outcome; the terminal is still to be
    /// released.
    Releasing(Result<(), Fault>),
    /// The session is over with this outcome. No stage follows.
    Stopped(Result<(), Fault>),
}

/// The effect that is due.
#[derive(Debug, PartialEq, Eq)]
pub enum Action {
    /// Enter raw mode and the alternate screen.
    Acquire,
    /// Draw this frame.
    Present(Vec<Row>),
    /// Block until one input event arrives.
    Read,
    /// Leave raw mode and the alternate screen.
    Release,
    /// Leave the process: with success on `Ok`, with failure on `Err`.
    Exit(Result<(), Fault>),
}

/// An action as a mathematical value.
pub enum ActionView {
    Acquire,
    Present(Seq<RowView>),
    Read,
    Release,
    Exit(Result<(), Fault>),
}

impl View for Action {
    type V = ActionView;

    open spec fn view(&self) -> ActionView {
        match *self {
            Action::Acquire => ActionView::Acquire,
            Action::Present(frame) => ActionView::Present(rows_of(frame@)),
            Action::Read => ActionView::Read,
            Action::Release => ActionView::Release,
            Action::Exit(outcome) => ActionView::Exit(outcome),
        }
    }
}

/// How the effect that was due went.
#[derive(Copy, Clone, Debug, PartialEq, Eq, Structural)]
pub enum Reply {
    /// The effect was carried out.
    Done,
    /// The effect failed.
    Failed,
    /// The read was carried out and brought this key.
    Input(Key),
}

/// A session as a mathematical value.
pub struct UiState<'a> {
    pub menu: Seq<MenuItem<'a>>,
    pub focus: int,
    pub stage: Stage,
}

/// An actionable entry without children.
pub open spec fn is_plain_action(item: MenuItem<'_>, meaning: MenuItemMeaning) -> bool {
    &&& item.meaning == meaning
    &&& item.kind matches MenuItemKind::Basic(children)
    &&& children@.len() == 0
}

/// The menu a fresh session starts with: update, upgrade, use, and one
/// unchecked box for update.
pub open spec fn is_default_menu(menu: Seq<MenuItem<'_>>) -> bool {
    &&& menu.len() == 4
    &&& is_plain_action(menu[0], MenuItemMeaning::Update)
    &&& is_plain_action(menu[1], MenuItemMeaning::Upgrade)
    &&& is_plain_action(menu[2], MenuItemMeaning::Use)
    &&& menu[3] == MenuItem {
        kind: MenuItemKind::Checkbox(false),
        meaning: MenuItemMeaning::Update,
    }
}

impl<'a> UiState<'a> {
    /// The focus names an entry. A menu is never empty.
    pub open spec fn wf(self) -> bool {
        0 <= self.focus < self.menu.len()
    }

    /// Whether the loop is running.
    pub open spec fn is_running(self) -> bool {
        self.stage == Stage::Presenting || self.stage == Stage::Reading
    }

    /// The entry under the focus toggled, all else as it was.
    pub open spec fn select(self) -> UiState<'a> {
        UiState { menu: self.menu.update(self.focus, self.menu[self.focus].toggled()), ..self }
    }

    /// The focus one entry up, stopping at the first.
    pub open spec fn focus_up(self) -> UiState<'a> {
        UiState { focus: vstd::math::max(self.focus - 1, 0), ..self }
    }

    /// The focus one entry down, stopping at the last.
    pub open spec fn focus_down(self) -> UiState<'a> {
        UiState { focus: vstd::math::min(self.focus + 1, self.menu.len() - 1), ..self }
    }

    /// The running loop ended with success; a loop that is not running is
    /// left alone.
    pub open spec fn quit(self) -> UiState<'a> {
        if self.is_running() {
            UiState { stage: Stage::Releasing(Ok(())), ..self }
        } else {
            self
        }
    }

    /// The session after a command; no command changes nothing.
    pub open spec fn apply(self, command: Option<Command>) -> UiState<'a> {
        match command {
            Some(Command::FocusUp) => self.focus_up(),
            Some(Command::FocusDown) => self.focus_down(),
            Some(Command::Toggle) => self.select(),
            Some(Command::Quit) => self.quit(),
            None => self,
        }
    }

    /// The meaning whose action a command sets off: that of the focused
    /// entry, when the command is a toggle and the entry is actionable.
    pub open spec fn activation(self, command: Option<Command>) -> Option<MenuItemMeaning> {
        if command == Some(Command::Toggle) && self.menu[self.focus].kind is Basic {
            Some(self.menu[self.focus].meaning)
        } else {
            None
        }
    }

    /// The frame that shows the session.
    pub open spec fn frame(self) -> Seq<RowView> {
        frame_of(self.menu, self.focus)
    }

    /// The effect that is due in this state.
    pub open spec fn pending(self) -> ActionView {
        match self.stage {
            Stage::Idle => ActionView::Acquire,
            Stage::Presenting => ActionView::Present(self.frame()),
            Stage::Reading => ActionView::Read,
            Stage::Releasing(_) => ActionView::Release,
            Stage::Stopped(outcome) => ActionView::Exit(outcome),
        }
    }

    /// Whether a reply is one that the due effect can have.
    pub open spec fn answers(self, reply: Reply) -> bool {
        match self.stage {
            Stage::Idle | Stage::Presenting | Stage::Releasing(_) => reply == Reply::Done || reply
                == Reply::Failed,
            Stage::Reading => reply is Input || reply == Reply::Failed,
            Stage::Stopped(_) => false,
        }
    }

    /// The session after the due effect was answered by `reply`.
    ///
    /// A reply that the due effect cannot have changes nothing.
    pub open spec fn step(self, reply: Reply) -> UiState<'a> {
        match (self.stage, reply) {
            (Stage::Idle, Reply::Done) => UiState { stage: Stage::Presenting, focus: 0, ..self },
            (Stage::Idle, Reply::Failed) => UiState {
                stage: Stage::Stopped(Err(Fault::TerminalInit)),
                ..self
            },
            (Stage::Presenting, Reply::Done) => UiState { stage: Stage::Reading, ..self },
            (Stage::Presenting, Reply::Failed) => UiState {
                stage: Stage::Releasing(Err(Fault::RenderFault)),
                ..self
            },
            (Stage::Reading, Reply::Input(key)) => {
                let next = self.apply(command_of(key));
                if next.is_running() {
                    UiState { stage: Stage::Presenting, ..next }
                } else {
                    next
                }
            },
            (Stage::Reading, Reply::Failed) => UiState {
                stage: Stage::Releasing(Err(Fault::InputFault)),
                ..self
            },
            (Stage::Releasing(outcome), Reply::Done) => UiState {
                stage: Stage::Stopped(outcome),
                ..self
            },
            (Stage::Releasing(outcome), Reply::Failed) => UiState {
                stage: Stage::Stopped(outcome),
                ..self
            },
            _ => self,
        }
    }
}

/// The session of the menu: its entries, the focus, and the stage.
pub struct NmaintUi<'a> {
    stage: Stage,
    focus: usize,
    menu: Vec<MenuItem<'a>>,
}

impl<'a> View for NmaintUi<'a> {
    type V = UiState<'a>;

    closed spec fn view(&self) -> UiState<'a> {
        UiState { menu: self.menu@, focus: self.focus as int, stage: self.stage }
    }
}

impl<'a> NmaintUi<'a> {
    #[verifier::type_invariant]
    spec fn inv(self) -> bool {
        self.focus < self.menu.len()
    }

    /// A fresh session over the default menu: idle, the focus on the first
    /// entry.
    pub fn new() -> (ui: NmaintUi<'a>)
        ensures
            is_default_menu(ui@.menu),
            ui@.focus == 0,
            ui@.stage == Stage::Idle,
            ui@.wf(),
    {
        let mut menu: Vec<MenuItem<'a>> = Vec::new();
        menu.push(MenuItem { kind: MenuItemKind::Basic(&[]), meaning: MenuItemMeaning::Update });
        menu.push(MenuItem { kind: MenuItemKind::Basic(&[]), meaning: MenuItemMeaning::Upgrade });
        menu.push(MenuItem { kind: MenuItemKind::Basic(&[]), meaning: MenuItemMeaning::Use });
        menu.push(MenuItem { kind: MenuItemKind::Checkbox(false), meaning: MenuItemMeaning::Update });
        NmaintUi { stage: Stage::Idle, focus: 0, menu }
    }

    /// A fresh session over a menu of the caller's. An empty menu has no
    /// entry to focus and is refused.
    pub fn with_menu(menu: Vec<MenuItem<'a>>) -> (ui: Option<NmaintUi<'a>>)
        ensures
            ui is Some <==> menu@.len() >= 1,
            ui matches Some(ui) ==> ui@ == (UiState { menu: menu@, focus: 0, stage: Stage::Idle }),
    {
        if menu.len() == 0 {
            None
        } else {
            Some(NmaintUi { stage: Stage::Idle, focus: 0, menu })
        }
    }

    /// The index of the focused entry.
    pub fn focus(&self) -> (focus: usize)
        ensures
            focus == self@.focus,
            self@.wf(),
    {
        proof {
            use_type_invariant(self);
        }
        self.focus
    }

    /// The entries, in display order.
    pub fn menu(&self) -> (menu: &[MenuItem<'a>])
        ensures
            menu@ == self@.menu,
    {
        self.menu.as_slice()
    }

    /// The stage the session is in.
    pub fn stage(&self) -> (stage: Stage)
        ensures
            stage == self@.stage,
    {
        self.stage
    }

    /// Whether the loop is running.
    pub fn is_running(&self) -> (running: bool)
        ensures
            running == self@.is_running(),
    {
        match self.stage {
            Stage::Presenting => true,
            Stage::Reading => true,
            _ => false,
        }
    }

    /// Toggles the focused entry: a checkbox flips, an actionable entry stays.
    pub fn select(&mut self)
        ensures
            final(self)@ == old(self)@.select(),
            final(self)@.wf(),
    {
        proof {
            use_type_invariant(&*self);
        }
        self.menu[self.focus].toggle();
    }

    /// The frame that shows the session: one row per entry, the focused row
    /// highlighted.
    pub fn render(&self) -> (frame: Vec<Row>)
        ensures
            rows_of(frame@) == self@.frame(),
    {
        render(self.menu.as_slice(), self.focus)
    }

    /// Applies a command; `None` changes nothing.
    pub fn apply(&mut self, command: Option<Command>)
        ensures
            final(self)@ == old(self)@.apply(command),
            final(self)@.wf(),
    {
        proof {
            use_type_invariant(&*self);
        }
        match command {
            Some(Command::FocusUp) => {
                if self.focus > 0 {
                    self.focus = self.focus - 1;
                }
            },
            Some(Command::FocusDown) => {
                if self.focus + 1 < self.menu.len() {
                    self.focus = self.focus + 1;
                }
            },
            Some(Command::Toggle) => self.select(),
            Some(Command::Quit) => {
                if self.is_running() {
                    self.stage = Stage::Releasing(Ok(()));
                }
            },
            None => (),
        }
    }

    /// The meaning whose action a command sets off, if it sets one off.
    ///
    /// Only a toggle on an actionable entry does. The session runs no action
    /// and is not changed by one: it tells the caller which action is meant.
    pub fn activation(&self, command: Option<Command>) -> (meaning: Option<MenuItemMeaning>)
        ensures
            meaning == self@.activation(command),
    {
        proof {
            use_type_invariant(self);
        }
        match command {
            Some(Command::Toggle) => match self.menu[self.focus].kind {
                MenuItemKind::Basic(_) => Some(self.menu[self.focus].meaning),
                MenuItemKind::Checkbox(_) => None,
            },
            _ => None,
        }
    }

    /// The effect that is due.
    pub fn pending(&self) -> (action: Action)
        ensures
            action@ == self@.pending(),
    {
        match self.stage {
            Stage::Idle => Action::Acquire,
            Stage::Presenting => Action::Present(self.render()),
            Stage::Reading => Action::Read,
            Stage::Releasing(_) => Action::Release,
            Stage::Stopped(outcome) => Action::Exit(outcome),
        }
    }

    /// Takes the reply to the effect that was due, and returns the effect
    /// that is due next.
    pub fn step(&mut self, reply: Reply) -> (action: Action)
        ensures
            final(self)@ == old(self)@.step(reply),
            final(self)@.wf(),
            action@ == final(self)@.pending(),
    {
        proof {
            use_type_invariant(&*self);
        }
        match (self.stage, reply) {
            (Stage::Idle, Reply::Done) => {
                self.focus = 0;
                self.stage = Stage::Presenting;
            },
            (Stage::Idle, Reply::Failed) => {
                self.stage = Stage::Stopped(Err(Fault::TerminalInit));
            },
            (Stage::Presenting, Reply::Done) => {
                self.stage = Stage::Reading;
            },
            (Stage::Presenting, Reply::Failed) => {
                self.stage = Stage::Releasing(Err(Fault::RenderFault));
            },
            (Stage::Reading, Reply::Input(key)) => {
                self.apply(decode(key));
                if self.is_running() {
                    self.stage = Stage::Presenting;
                }
            },
            (Stage::Reading, Reply::Failed) => {
                self.stage = Stage::Releasing(Err(Fault::InputFault));
            },
            (Stage::Releasing(outcome), Reply::Done) => {
                self.stage = Stage::Stopped(outcome);
            },
            (Stage::Releasing(outcome), Reply::Failed) => {
                self.stage = Stage::Stopped(outcome);
            },
            _ => (),
        }
        self.pending()
    }
}

} // verus!
