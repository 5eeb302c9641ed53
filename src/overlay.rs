//! Overlay arbitration: which single popup, menu or input field, if any, is
//! active. Transitions are computed from hotkeys, mouse hits against the last
//! rendered target areas and widget commands, queued, and applied together at
//! the start of the next tick.
use vstd::prelude::*;

verus! {

/// Every interactive region of the screen.
#[derive(Clone, Copy, Debug, PartialEq, Eq, Structural)]
pub enum UiTarget {
    IndicatorBox,
    IndicatorMenu,
    StockNameButton,
    StockSymbolButton,
    StockSymbolField,
    TimeFrameBox,
    TimeFrameMenu,
}

/// Whether an overlay is shown.
#[derive(Clone, Copy, Debug, PartialEq, Eq, Structural)]
pub enum OverlayState {
    Active,
    Inactive,
}

/// The targets that open as overlays.
pub open spec fn is_overlay(t: UiTarget) -> bool {
    t == UiTarget::IndicatorMenu || t == UiTarget::StockSymbolField || t == UiTarget::TimeFrameMenu
}

/// A screen rectangle in terminal cells.
#[derive(Clone, Copy, Debug, PartialEq, Eq, Structural)]
pub struct Rect {
    pub x: u16,
    pub y: u16,
    pub width: u16,
    pub height: u16,
}

impl Rect {
    pub open spec fn holds(self, column: u16, row: u16) -> bool {
        self.x <= column < self.x + self.width && self.y <= row < self.y + self.height
    }

    /// Whether the cell at `column`, `row` lies in the rectangle.
    pub fn contains(&self, column: u16, row: u16) -> (r: bool)
        ensures
            r == self.holds(column, row),
    {
        let x = self.x as u32;
        let y = self.y as u32;
        x <= column as u32 && (column as u32) < x + self.width as u32 && y <= row as u32
            && (row as u32) < y + self.height as u32
    }
}

/// The last hit among `areas` (the one drawn last, hence on top).
pub open spec fn hit(areas: Seq<(UiTarget, Rect)>, column: u16, row: u16) -> Option<UiTarget>
    decreases areas.len(),
{
    if areas.len() == 0 {
        None
    } else if areas.last().1.holds(column, row) {
        Some(areas.last().0)
    } else {
        hit(areas.drop_last(), column, row)
    }
}

/// The rectangle each target occupied in the last render, in drawing order;
/// replaced whole after each render.
#[derive(Clone, Debug)]
pub struct TargetAreas {
    pub areas: Vec<(UiTarget, Rect)>,
}

impl TargetAreas {
    pub fn new() -> (r: TargetAreas)
        ensures
            r.areas@.len() == 0,
    {
        TargetAreas { areas: Vec::new() }
    }

    /// The topmost target under the cell at `column`, `row`.
    pub fn hit_test(&self, column: u16, row: u16) -> (r: Option<UiTarget>)
        ensures
            r == hit(self.areas@, column, row),
    {
        let mut i = self.areas.len();
        assert(self.areas@.subrange(0, i as int) =~= self.areas@);
        while i > 0
            invariant
                i <= self.areas@.len(),
                hit(self.areas@, column, row) == hit(self.areas@.subrange(0, i as int), column, row),
            decreases i,
        {
            let (t, rect) = self.areas[i - 1];
            let ghost pre = self.areas@.subrange(0, i as int);
            if rect.contains(column, row) {
                return Some(t);
            }
            assert(pre.drop_last() =~= self.areas@.subrange(0, i - 1));
            i = i - 1;
        }
        None
    }

    /// The first rectangle `t` was drawn in, if it was drawn.
    pub fn area_of(&self, t: UiTarget) -> (r: Option<Rect>)
        ensures
            r == area_in(self.areas@, t),
    {
        let mut i: usize = 0;
        assert(self.areas@.subrange(0, self.areas@.len() as int) =~= self.areas@);
        while i < self.areas.len()
            invariant
                i <= self.areas@.len(),
                area_in(self.areas@, t) == area_in(
                    self.areas@.subrange(i as int, self.areas@.len() as int),
                    t,
                ),
            decreases self.areas@.len() - i,
        {
            let ghost rest = self.areas@.subrange(i as int, self.areas@.len() as int);
            assert(rest[0] == self.areas@[i as int]);
            if self.areas[i].0 == t {
                return Some(self.areas[i].1);
            }
            assert(rest.drop_first() =~= self.areas@.subrange(i + 1, self.areas@.len() as int));
            i = i + 1;
        }
        None
    }
}

/// The first rectangle drawn for `t` among `areas`.
pub open spec fn area_in(areas: Seq<(UiTarget, Rect)>, t: UiTarget) -> Option<Rect>
    decreases areas.len(),
{
    if areas.len() == 0 {
        None
    } else if areas[0].0 == t {
        Some(areas[0].1)
    } else {
        area_in(areas.drop_first(), t)
    }
}

/// The overlay each hotkey toggles.
pub open spec fn hotkey_target_spec(c: char) -> Option<UiTarget> {
    if c == 'i' {
        Some(UiTarget::IndicatorMenu)
    } else if c == 's' {
        Some(UiTarget::StockSymbolField)
    } else if c == 't' {
        Some(UiTarget::TimeFrameMenu)
    } else {
        None
    }
}

/// The overlay a hotkey toggles.
pub fn hotkey_target(c: char) -> (r: Option<UiTarget>)
    ensures
        r == hotkey_target_spec(c),
{
    if c == 'i' {
        Some(UiTarget::IndicatorMenu)
    } else if c == 's' {
        Some(UiTarget::StockSymbolField)
    } else if c == 't' {
        Some(UiTarget::TimeFrameMenu)
    } else {
        None
    }
}

/// The hotkey of an overlay; the inverse of `hotkey_target`.
pub fn hotkey_of(t: UiTarget) -> (r: Option<char>)
    ensures
        r matches Some(c) ==> hotkey_target_spec(c) == Some(t),
        r is None ==> forall|c: char| #[trigger] hotkey_target_spec(c) != Some(t),
{
    match t {
        UiTarget::IndicatorMenu => Some('i'),
        UiTarget::StockSymbolField => Some('s'),
        UiTarget::TimeFrameMenu => Some('t'),
        _ => None,
    }
}

/// What a click does to an overlay.
#[derive(Clone, Copy, Debug, PartialEq, Eq, Structural)]
pub enum MouseAction {
    Toggle,
    Deactivate,
}

/// Each overlay's behaviour table: what a click on `hit` (none for a miss)
/// does to it.
pub open spec fn mouse_action_spec(overlay: UiTarget, hit: Option<UiTarget>) -> Option<MouseAction> {
    match hit {
        None => if is_overlay(overlay) {
            Some(MouseAction::Deactivate)
        } else {
            None
        },
        Some(h) => if overlay == UiTarget::StockSymbolField && (h == UiTarget::StockSymbolButton
            || h == UiTarget::StockNameButton) {
            Some(MouseAction::Toggle)
        } else if overlay == UiTarget::TimeFrameMenu && h == UiTarget::TimeFrameBox {
            Some(MouseAction::Toggle)
        } else if overlay == UiTarget::IndicatorMenu && h == UiTarget::IndicatorBox {
            Some(MouseAction::Toggle)
        } else {
            None
        },
    }
}

pub fn mouse_action(overlay: UiTarget, hit: Option<UiTarget>) -> (r: Option<MouseAction>)
    ensures
        r == mouse_action_spec(overlay, hit),
{
    match hit {
        None => match overlay {
            UiTarget::IndicatorMenu | UiTarget::StockSymbolField | UiTarget::TimeFrameMenu => Some(
                MouseAction::Deactivate,
            ),
            _ => None,
        },
        Some(h) => {
            if overlay == UiTarget::StockSymbolField && (h == UiTarget::StockSymbolButton || h
                == UiTarget::StockNameButton) {
                Some(MouseAction::Toggle)
            } else if overlay == UiTarget::TimeFrameMenu && h == UiTarget::TimeFrameBox {
                Some(MouseAction::Toggle)
            } else if overlay == UiTarget::IndicatorMenu && h == UiTarget::IndicatorBox {
                Some(MouseAction::Toggle)
            } else {
                None
            }
        },
    }
}

/// A queued overlay transition.
#[derive(Clone, Copy, Debug, PartialEq, Eq, Structural)]
pub enum OverlayCommand {
    /// Close the overlay if it is the active one, open it otherwise (closing
    /// whatever else was active).
    Toggle(UiTarget),
    /// Close the overlay if it is the active one.
    Close(UiTarget),
}

pub open spec fn command_target(c: OverlayCommand) -> UiTarget {
    match c {
        OverlayCommand::Toggle(t) => t,
        OverlayCommand::Close(t) => t,
    }
}

/// The active overlay after one command.
pub open spec fn apply(active: Option<UiTarget>, cmd: OverlayCommand) -> Option<UiTarget> {
    match cmd {
        OverlayCommand::Toggle(t) => if active == Some(t) {
            None
        } else {
            Some(t)
        },
        OverlayCommand::Close(t) => if active == Some(t) {
            None
        } else {
            active
        },
    }
}

/// The active overlay after the commands, in order.
pub open spec fn apply_all(active: Option<UiTarget>, cmds: Seq<OverlayCommand>) -> Option<UiTarget>
    decreases cmds.len(),
{
    if cmds.len() == 0 {
        active
    } else {
        apply(apply_all(active, cmds.drop_last()), cmds.last())
    }
}

/// The state of `t` when `active` is the active overlay.
pub open spec fn state_in(active: Option<UiTarget>, t: UiTarget) -> OverlayState {
    if active == Some(t) {
        OverlayState::Active
    } else {
        OverlayState::Inactive
    }
}

/// The arbiter: the active overlay, if any, and the transitions queued for
/// the next tick.
#[derive(Clone, Debug)]
pub struct OverlayArbiter {
    pub active: Option<UiTarget>,
    pub pending: Vec<OverlayCommand>,
}

impl OverlayArbiter {
    pub open spec fn wf(&self) -> bool {
        &&& (self.active matches Some(t) ==> is_overlay(t))
        &&& forall|j: int| 0 <= j < self.pending@.len() ==> is_overlay(
            #[trigger] command_target(self.pending@[j]),
        )
    }

    /// No overlay active, nothing queued.
    pub fn new() -> (r: OverlayArbiter)
        ensures
            r.wf(),
            r.active is None,
            r.pending@.len() == 0,
    {
        OverlayArbiter { active: None, pending: Vec::new() }
    }

    /// The state of `t`.
    pub fn state_of(&self, t: UiTarget) -> (r: OverlayState)
        ensures
            r == state_in(self.active, t),
    {
        match self.active {
            Some(a) => if a == t {
                OverlayState::Active
            } else {
                OverlayState::Inactive
            },
            None => OverlayState::Inactive,
        }
    }

    /// Queues a transition for the next tick.
    pub fn queue(&mut self, cmd: OverlayCommand)
        requires
            old(self).wf(),
            is_overlay(command_target(cmd)),
        ensures
            final(self).wf(),
            final(self).active == old(self).active,
            final(self).pending@ == old(self).pending@.push(cmd),
    {
        self.pending.push(cmd);
    }

    /// Applies the queued transitions in order and empties the queue.
    pub fn flush(&mut self)
        requires
            old(self).wf(),
        ensures
            final(self).wf(),
            final(self).active == apply_all(old(self).active, old(self).pending@),
            final(self).pending@.len() == 0,
    {
        let mut i: usize = 0;
        let ghost cmds = self.pending@;
        while i < self.pending.len()
            invariant
                self.wf(),
                self.pending@ == cmds,
                i <= cmds.len(),
                self.active == apply_all(old(self).active, cmds.subrange(0, i as int)),
            decreases cmds.len() - i,
        {
            let cmd = self.pending[i];
            let ghost before = self.active;
            self.active = match cmd {
                OverlayCommand::Toggle(t) => if self.active == Some(t) {
                    None
                } else {
                    Some(t)
                },
                OverlayCommand::Close(t) => if self.active == Some(t) {
                    None
                } else {
                    self.active
                },
            };
            proof {
                assert(is_overlay(command_target(cmds[i as int])));
                assert(cmds.subrange(0, i + 1).drop_last() =~= cmds.subrange(0, i as int));
            }
            i = i + 1;
        }
        proof {
            assert(cmds.subrange(0, cmds.len() as int) =~= cmds);
        }
        self.pending = Vec::new();
    }
}

/// The transitions a click at `hit` asks of the overlays, in the order
/// symbol field, time-frame menu, indicator menu.
pub open spec fn click_commands(hit: Option<UiTarget>) -> Seq<OverlayCommand> {
    click_command(UiTarget::StockSymbolField, hit) + click_command(UiTarget::TimeFrameMenu, hit)
        + click_command(UiTarget::IndicatorMenu, hit)
}

pub open spec fn click_command(overlay: UiTarget, hit: Option<UiTarget>) -> Seq<OverlayCommand> {
    match mouse_action_spec(overlay, hit) {
        Some(MouseAction::Toggle) => seq![OverlayCommand::Toggle(overlay)],
        Some(MouseAction::Deactivate) => seq![OverlayCommand::Close(overlay)],
        None => Seq::empty(),
    }
}

/// Queues the transitions a click at `hit` asks for.
pub fn queue_click(arbiter: &mut OverlayArbiter, hit: Option<UiTarget>)
    requires
        old(arbiter).wf(),
    ensures
        final(arbiter).wf(),
        final(arbiter).active == old(arbiter).active,
        final(arbiter).pending@ == old(arbiter).pending@ + click_commands(hit),
{
    let ghost start = arbiter.pending@;
    let overlays = [UiTarget::StockSymbolField, UiTarget::TimeFrameMenu, UiTarget::IndicatorMenu];
    let mut i: usize = 0;
    while i < 3
        invariant
            arbiter.wf(),
            arbiter.active == old(arbiter).active,
            overlays@ == seq![UiTarget::StockSymbolField, UiTarget::TimeFrameMenu, UiTarget::IndicatorMenu],
            i <= 3,
            arbiter.pending@ == start + (if i == 0 {
                Seq::<OverlayCommand>::empty()
            } else if i == 1 {
                click_command(UiTarget::StockSymbolField, hit)
            } else if i == 2 {
                click_command(UiTarget::StockSymbolField, hit) + click_command(
                    UiTarget::TimeFrameMenu,
                    hit,
                )
            } else {
                click_commands(hit)
            }),
        decreases 3 - i,
    {
        let o = overlays[i];
        let ghost before = arbiter.pending@;
        match mouse_action(o, hit) {
            Some(MouseAction::Toggle) => arbiter.queue(OverlayCommand::Toggle(o)),
            Some(MouseAction::Deactivate) => arbiter.queue(OverlayCommand::Close(o)),
            None => {},
        }
        proof {
            assert(arbiter.pending@ =~= before + click_command(o, hit));
            if i == 0 {
                assert(Seq::<OverlayCommand>::empty() + click_command(o, hit) =~= click_command(o, hit));
            }
        }
        assert(arbiter.pending@ =~= start + (if i + 1 == 1 {
            click_command(UiTarget::StockSymbolField, hit)
        } else if i + 1 == 2 {
            click_command(UiTarget::StockSymbolField, hit) + click_command(
                UiTarget::TimeFrameMenu,
                hit,
            )
        } else {
            click_commands(hit)
        }));
        i = i + 1;
    }
    proof {
        assert(arbiter.pending@ =~= old(arbiter).pending@ + click_commands(hit));
    }
}

/// At most one overlay is active in any arbiter state.
pub proof fn lemma_single_active(active: Option<UiTarget>, a: UiTarget, b: UiTarget)
    requires
        state_in(active, a) == OverlayState::Active,
        state_in(active, b) == OverlayState::Active,
    ensures
        a == b,
{
}

/// Opening overlay `a` while another overlay `b` is active leaves `a` active
/// and `b` inactive once the queued transition is applied.
pub proof fn lemma_open_switches(active: Option<UiTarget>, a: UiTarget, b: UiTarget)
    requires
        state_in(active, b) == OverlayState::Active,
        a != b,
    ensures
        state_in(apply_all(active, seq![OverlayCommand::Toggle(a)]), a) == OverlayState::Active,
        state_in(apply_all(active, seq![OverlayCommand::Toggle(a)]), b) == OverlayState::Inactive,
{
    let cmds = seq![OverlayCommand::Toggle(a)];
    assert(cmds.drop_last() =~= Seq::<OverlayCommand>::empty());
    assert(apply_all(active, cmds.drop_last()) == active);
    assert(cmds.last() == OverlayCommand::Toggle(a));
    assert(apply_all(active, cmds) == Some(a));
}

} // verus!
