//! Tab labels, the interaction state of the tab content, and the
//! drag-and-drop ordering rules.
use vstd::prelude::*;

use crate::search::{first_set, first_true, is_first_true, is_last_true, last_true, lemma_last_true};
use crate::status::Status;

verus! {

/// The content label displayed on a tab in the tab bar.
#[derive(Clone, Hash, Debug)]
pub enum TabLabel {
    /// Only an icon.
    Icon(char),
    /// Only text.
    Text(String),
    /// An icon alongside text.
    IconText(char, String),
}

impl From<char> for TabLabel {
    fn from(value: char) -> (label: Self)
        ensures
            label == TabLabel::Icon(value),
    {
        TabLabel::Icon(value)
    }
}

impl vstd::std_specs::convert::FromSpecImpl<char> for TabLabel {
    open spec fn obeys_from_spec() -> bool {
        true
    }

    open spec fn from_spec(v: char) -> TabLabel {
        TabLabel::Icon(v)
    }
}

/// A label built from a borrowed string holds a fresh `String`, so it equals
/// no spec value fixed in advance: its `from` states the text by view instead.
impl<'a> vstd::std_specs::convert::FromSpecImpl<&'a str> for TabLabel {
    open spec fn obeys_from_spec() -> bool {
        false
    }

    open spec fn from_spec(v: &'a str) -> TabLabel {
        TabLabel::Text(choose|s: String| #[trigger] s@ == v@)
    }
}

impl<'a> From<&'a str> for TabLabel {
    fn from(value: &'a str) -> (label: Self)
        ensures
            label matches TabLabel::Text(s) && s@ == value@,
    {
        TabLabel::Text(value.to_owned())
    }
}

impl From<String> for TabLabel {
    fn from(value: String) -> (label: Self)
        ensures
            label == TabLabel::Text(value),
    {
        TabLabel::Text(value)
    }
}

impl vstd::std_specs::convert::FromSpecImpl<String> for TabLabel {
    open spec fn obeys_from_spec() -> bool {
        true
    }

    open spec fn from_spec(v: String) -> TabLabel {
        TabLabel::Text(v)
    }
}

/// As for `&str`: the text is a fresh `String`, stated by its view.
impl<'a> vstd::std_specs::convert::FromSpecImpl<(char, &'a str)> for TabLabel {
    open spec fn obeys_from_spec() -> bool {
        false
    }

    open spec fn from_spec(v: (char, &'a str)) -> TabLabel {
        TabLabel::IconText(v.0, choose|s: String| #[trigger] s@ == v.1@)
    }
}

impl<'a> From<(char, &'a str)> for TabLabel {
    fn from(value: (char, &'a str)) -> (label: Self)
        ensures
            label matches TabLabel::IconText(c, s) && c == value.0 && s@ == value.1@,
    {
        TabLabel::IconText(value.0, value.1.to_owned())
    }
}

impl From<(char, String)> for TabLabel {
    fn from(value: (char, String)) -> (label: Self)
        ensures
            label == TabLabel::IconText(value.0, value.1),
    {
        TabLabel::IconText(value.0, value.1)
    }
}

impl vstd::std_specs::convert::FromSpecImpl<(char, String)> for TabLabel {
    open spec fn obeys_from_spec() -> bool {
        true
    }

    open spec fn from_spec(v: (char, String)) -> TabLabel {
        TabLabel::IconText(v.0, v.1)
    }
}

} // verus!

verus! {

/// The style status of a tab and, when it has a close button, whether the
/// cursor is over that button.
pub type TabStatus = (Option<Status>, Option<bool>);

/// Whether two tab statuses are the same.
pub fn same_tab_status(a: &TabStatus, b: &TabStatus) -> (same: bool)
    ensures
        same == (*a == *b),
{
    let first = match (a.0, b.0) {
        (Some(x), Some(y)) => x == y,
        (None, None) => true,
        _ => false,
    };
    let second = match (a.1, b.1) {
        (Some(x), Some(y)) => x == y,
        (None, None) => true,
        _ => false,
    };
    first && second
}

/// Tracks an in-progress tab drag.
#[derive(Debug, Clone, Copy, PartialEq, Eq, Structural)]
pub struct DragState {
    /// Index of the tab being dragged.
    pub tab_index: usize,
    /// Whether the cursor has moved past the drag threshold since the press.
    pub is_dragging: bool,
}

/// Tracks which tab's tooltip is being hovered.
#[derive(Debug, Clone, Copy, PartialEq, Eq, Structural)]
pub struct TooltipState {
    /// Index of the tab being hovered.
    pub tab_index: usize,
}

/// The state the tab content keeps between events.
#[derive(Debug, Clone)]
pub struct TabBarContentState {
    /// Per-tab status and close-button hover state.
    pub tab_statuses: Vec<TabStatus>,
    /// Active drag-and-drop state, if any.
    pub drag: Option<DragState>,
    /// Active tooltip hover tracking, if any.
    pub tooltip: Option<TooltipState>,
}

/// What the tab content knows of the tab bar that built it.
pub struct TabContentConfig {
    /// The index of the active tab.
    pub active_tab: usize,
    /// Whether the tabs carry a close button.
    pub has_close: bool,
    /// Whether pressing a close button produces a close message.
    pub notify_close: bool,
    /// Whether dragging a tab is enabled and produces a reorder message.
    pub notify_reorder: bool,
    /// Per tab, whether it has a tooltip.
    pub has_tooltip: Vec<bool>,
    /// The statuses the tab bar holds.
    pub tab_statuses: Vec<TabStatus>,
}

/// An input event, reduced to what the tab content reacts to.
pub enum ContentEvent {
    /// The left mouse button or a finger was pressed.
    Press,
    /// The cursor or a finger moved; `past_threshold` tells whether it is now
    /// at least the drag threshold away from where the press happened.
    Move { past_threshold: bool },
    /// The left mouse button was released, or a finger lifted or lost.
    Release,
    /// Any other event.
    Other,
}

/// Where the cursor is, relative to the content and to each tab.
pub struct PointerInfo {
    /// Whether the cursor position is known.
    pub position_known: bool,
    /// Whether the event was already captured by an inner widget.
    pub event_captured: bool,
    /// Whether the cursor is within the bounds of the content.
    pub in_content: bool,
    /// Per tab, whether the cursor is over it.
    pub over_tab: Vec<bool>,
    /// Per tab, whether the cursor is over its close button (its second
    /// layout child), or `None` when it has no such child.
    pub over_close: Vec<Option<bool>>,
    /// Per tab, whether the cursor is over its last layout child, or `None`
    /// when it has no children.
    pub over_last: Vec<Option<bool>>,
    /// Per tab, whether the dragged position lies left of the tab's center.
    pub left_of_center: Vec<bool>,
    /// Whether the hover of the current tooltip began less than the tooltip
    /// delay ago.
    pub tooltip_waiting: bool,
}

/// A message the tab content asks the application to handle.
#[derive(Debug, Clone, Copy, PartialEq, Eq, Structural)]
pub enum TabMessage {
    /// The tab at this index was selected.
    Select(usize),
    /// The close button of the tab at this index was pressed.
    Close(usize),
    /// The tab at the first index should be moved to the second index.
    Reorder(usize, usize),
}

/// What handling one event asks of the surrounding widget.
pub struct ContentOutcome {
    /// The message to publish, if any.
    pub message: Option<TabMessage>,
    /// Whether the event is captured.
    pub capture: bool,
    /// Whether a redraw is requested.
    pub redraw: bool,
    /// Whether a new drag began (the press position must be recorded).
    pub drag_started: bool,
    /// Whether the drag crossed the threshold (the dragged tab's size must be
    /// recorded).
    pub drag_activated: bool,
    /// Whether a tooltip hover began (its start time must be recorded).
    pub tooltip_started: bool,
}

/// The tab a press lands on: the first tab under the cursor, when the cursor
/// is known, inside the content, and no inner widget took the event.
pub open spec fn press_target(event: ContentEvent, p: PointerInfo) -> Option<int> {
    if event is Press && p.position_known && !p.event_captured && p.in_content {
        first_true(p.over_tab@)
    } else {
        None
    }
}

/// Whether a press on tab `i` hits its close button while closing is enabled.
pub open spec fn close_clicked(cfg: TabContentConfig, p: PointerInfo, i: int) -> bool {
    cfg.notify_close && p.over_close@[i] == Some(true)
}

/// The index a dragged tab is dropped at: the first tab whose center lies
/// right of the dragged position (or the end), one less when that lies past
/// the dragged tab itself, so that dropping in place does not move it.
pub open spec fn drop_index(left_of_center: Seq<bool>, dragged: int) -> int {
    if left_of_center.len() == 0 {
        0
    } else {
        let target = match first_true(left_of_center) {
            Some(i) => i,
            None => left_of_center.len() as int,
        };
        if target > dragged {
            target - 1
        } else {
            target
        }
    }
}

/// Whether a drag past the threshold is in progress.
pub open spec fn is_dragging(drag: Option<DragState>) -> bool {
    drag matches Some(d) && d.is_dragging
}

/// The drag state after an event.
pub open spec fn drag_after(
    drag: Option<DragState>,
    cfg: TabContentConfig,
    event: ContentEvent,
    p: PointerInfo,
) -> Option<DragState> {
    match event {
        ContentEvent::Press => match press_target(event, p) {
            Some(i) => if !close_clicked(cfg, p, i) && cfg.notify_reorder {
                Some(DragState { tab_index: i as usize, is_dragging: false })
            } else {
                drag
            },
            None => drag,
        },
        ContentEvent::Move { past_threshold } => match drag {
            Some(d) => if p.position_known {
                Some(DragState { tab_index: d.tab_index, is_dragging: d.is_dragging || past_threshold })
            } else {
                drag
            },
            None => drag,
        },
        ContentEvent::Release => None,
        ContentEvent::Other => drag,
    }
}

/// The message an event produces.
pub open spec fn message_of(
    drag: Option<DragState>,
    cfg: TabContentConfig,
    event: ContentEvent,
    p: PointerInfo,
) -> Option<TabMessage> {
    match event {
        ContentEvent::Press => match press_target(event, p) {
            Some(i) => if close_clicked(cfg, p, i) {
                Some(TabMessage::Close(i as usize))
            } else {
                Some(TabMessage::Select(i as usize))
            },
            None => None,
        },
        ContentEvent::Release => match drag {
            Some(d) => {
                let target = drop_index(p.left_of_center@, d.tab_index as int);
                if d.is_dragging && cfg.notify_reorder && target != d.tab_index {
                    Some(TabMessage::Reorder(d.tab_index, target as usize))
                } else {
                    None
                }
            },
            None => None,
        },
        _ => None,
    }
}

/// Whether handling the event itself captures it.
pub open spec fn event_captures(
    drag: Option<DragState>,
    cfg: TabContentConfig,
    event: ContentEvent,
    p: PointerInfo,
) -> bool {
    match event {
        ContentEvent::Press => press_target(event, p) is Some,
        ContentEvent::Move { past_threshold } => is_dragging(drag_after(drag, cfg, event, p)) && drag is Some
            && p.position_known,
        ContentEvent::Release => is_dragging(drag),
        ContentEvent::Other => false,
    }
}

/// The status a tab shows after an event: the dragged tab is `Dragging`
/// (when a drag was under way), else the active tab is `Active`, else a
/// hovered tab is `Hovered` (but not during a drag), else `Inactive`.
pub open spec fn status_of(
    i: int,
    cfg: TabContentConfig,
    was_dragging: bool,
    drag: Option<DragState>,
    over: bool,
) -> Status {
    if was_dragging && (drag matches Some(d) && d.tab_index == i) {
        Status::Dragging
    } else if i == cfg.active_tab {
        Status::Active
    } else if over && !was_dragging {
        Status::Hovered
    } else {
        Status::Inactive
    }
}

/// Whether the close button of a tab shows as hovered (`None` when the tabs
/// have no close button, or during a drag).
pub open spec fn cross_of(cfg: TabContentConfig, was_dragging: bool, over_last: Option<bool>) -> Option<bool> {
    if cfg.has_close && !was_dragging {
        over_last
    } else {
        None
    }
}

/// The statuses of the tabs after an event.
pub open spec fn statuses_after(
    drag: Option<DragState>,
    cfg: TabContentConfig,
    event: ContentEvent,
    p: PointerInfo,
) -> Seq<TabStatus> {
    let was = is_dragging(drag);
    let after = drag_after(drag, cfg, event, p);
    Seq::new(
        cfg.tab_statuses@.len(),
        |i: int| (Some(status_of(i, cfg, was, after, p.over_tab@[i])), cross_of(cfg, was, p.over_last@[i])),
    )
}

/// Whether tab `i` has a tooltip.
pub open spec fn tooltip_at(cfg: TabContentConfig, i: int) -> bool {
    0 <= i < cfg.has_tooltip@.len() && cfg.has_tooltip@[i]
}

/// The last tab with a tooltip that the cursor is over (none during a drag).
pub open spec fn hovered_tooltip(drag: Option<DragState>, cfg: TabContentConfig, p: PointerInfo) -> Option<int> {
    last_true(
        Seq::new(
            p.over_tab@.len(),
            |i: int| !is_dragging(drag) && p.position_known && p.over_tab@[i] && tooltip_at(cfg, i),
        ),
    )
}

/// The tooltip tracking after an event.
pub open spec fn tooltip_after(drag: Option<DragState>, cfg: TabContentConfig, p: PointerInfo) -> Option<TooltipState> {
    match hovered_tooltip(drag, cfg, p) {
        Some(i) => Some(TooltipState { tab_index: i as usize }),
        None => None,
    }
}

/// Whether the hovered tooltip tab differs from the tracked one.
pub open spec fn tooltip_starts(
    tooltip: Option<TooltipState>,
    drag: Option<DragState>,
    cfg: TabContentConfig,
    p: PointerInfo,
) -> bool {
    match hovered_tooltip(drag, cfg, p) {
        Some(i) => !(tooltip matches Some(t) && t.tab_index == i),
        None => false,
    }
}

/// Whether tooltip tracking asks for a redraw: while the delay runs on the
/// same tab, when a hover starts, and when it ends.
pub open spec fn tooltip_redraws(
    tooltip: Option<TooltipState>,
    drag: Option<DragState>,
    cfg: TabContentConfig,
    p: PointerInfo,
) -> bool {
    match hovered_tooltip(drag, cfg, p) {
        Some(i) => if tooltip matches Some(t) && t.tab_index == i {
            p.tooltip_waiting
        } else {
            true
        },
        None => tooltip is Some,
    }
}

/// Whether handling the event asks for a redraw: a move or release that the
/// drag captures, a change of any tab's status, or tooltip tracking.
pub open spec fn update_redraws(
    tooltip: Option<TooltipState>,
    drag: Option<DragState>,
    cfg: TabContentConfig,
    event: ContentEvent,
    p: PointerInfo,
) -> bool {
    ||| !(event is Press) && event_captures(drag, cfg, event, p)
    ||| statuses_after(drag, cfg, event, p) != cfg.tab_statuses@
    ||| tooltip_redraws(tooltip, drag, cfg, p)
}

/// Whether the event starts a new drag: a press on a tab, not on its close
/// button, with reordering enabled.
pub open spec fn drag_starts(cfg: TabContentConfig, event: ContentEvent, p: PointerInfo) -> bool {
    match press_target(event, p) {
        Some(i) => !close_clicked(cfg, p, i) && cfg.notify_reorder,
        None => false,
    }
}

/// Whether the event carries a pending drag past the threshold.
pub open spec fn drag_activates(drag: Option<DragState>, event: ContentEvent, p: PointerInfo) -> bool {
    match (event, drag) {
        (ContentEvent::Move { past_threshold }, Some(d)) => past_threshold && p.position_known && !d.is_dragging,
        _ => false,
    }
}

/// The inputs an update needs agree on the number of tabs, and a press with
/// closing enabled finds a close button on the tab it hits.
pub open spec fn update_inputs_ok(cfg: TabContentConfig, event: ContentEvent, p: PointerInfo) -> bool {
    let n = p.over_tab@.len();
    &&& p.over_close@.len() == n
    &&& p.over_last@.len() == n
    &&& p.left_of_center@.len() == n
    &&& cfg.tab_statuses@.len() == n
    &&& press_target(event, p) matches Some(i) ==> (cfg.notify_close ==> p.over_close@[i] is Some)
}

/// Computes the index a dragged tab is dropped at, from whether the dragged
/// position lies left of each tab's center.
pub fn compute_drop_index(left_of_center: &Vec<bool>, dragged_index: usize) -> (target: usize)
    ensures
        target as int == drop_index(left_of_center@, dragged_index as int),
{
    let count = left_of_center.len();
    if count == 0 {
        return 0;
    }
    let mut target = count;
    if let Some(i) = first_set(left_of_center) {
        target = i;
    }
    if target > dragged_index {
        target = target - 1;
    }
    target
}

impl Default for TabBarContentState {
    fn default() -> (state: Self)
        ensures
            state.tab_statuses@ == Seq::<TabStatus>::empty(),
            state.drag is None,
            state.tooltip is None,
    {
        TabBarContentState { tab_statuses: Vec::new(), drag: None, tooltip: None }
    }
}

impl TabBarContentState {
    /// The state of fresh tab content: the tab bar's statuses, no drag and no
    /// tooltip.
    pub fn new(tab_statuses: Vec<TabStatus>) -> (state: Self)
        ensures
            state.tab_statuses == tab_statuses,
            state.drag is None,
            state.tooltip is None,
    {
        TabBarContentState { tab_statuses, drag: None, tooltip: None }
    }

    /// Whether a tab is being dragged past the threshold (the cursor then
    /// shows a grabbing hand).
    pub fn is_grabbing(&self) -> (grabbing: bool)
        ensures
            grabbing == is_dragging(self.drag),
    {
        match self.drag {
            Some(d) => d.is_dragging,
            None => false,
        }
    }

    /// Handles one event: selects or closes the pressed tab, starts, advances
    /// and ends a drag (asking for a reorder when the tab lands elsewhere),
    /// recomputes every tab's status, and tracks the hovered tooltip.
    pub fn update(&mut self, cfg: &TabContentConfig, event: &ContentEvent, pointer: &PointerInfo) -> (outcome: ContentOutcome)
        requires
            update_inputs_ok(*cfg, *event, *pointer),
        ensures
            final(self).drag == drag_after(old(self).drag, *cfg, *event, *pointer),
            final(self).tab_statuses@ == statuses_after(old(self).drag, *cfg, *event, *pointer),
            final(self).tooltip == tooltip_after(old(self).drag, *cfg, *pointer),
            outcome.message == message_of(old(self).drag, *cfg, *event, *pointer),
            outcome.capture == event_captures(old(self).drag, *cfg, *event, *pointer),
            outcome.redraw == update_redraws(old(self).tooltip, old(self).drag, *cfg, *event, *pointer),
            outcome.drag_started == drag_starts(*cfg, *event, *pointer),
            outcome.drag_activated == drag_activates(old(self).drag, *event, *pointer),
            outcome.tooltip_started == tooltip_starts(old(self).tooltip, old(self).drag, *cfg, *pointer),
    {
        let ghost old_drag = self.drag;
        let was_dragging = self.is_grabbing();
        let mut message: Option<TabMessage> = None;
        let mut capture = false;
        let mut redraw = false;
        let mut drag_started = false;
        let mut drag_activated = false;

        match event {
            ContentEvent::Press => {
                if pointer.position_known && !pointer.event_captured && pointer.in_content {
                    if let Some(i) = first_set(&pointer.over_tab) {
                        let on_close = match pointer.over_close[i] {
                            Some(b) => cfg.notify_close && b,
                            None => false,
                        };
                        capture = true;
                        if on_close {
                            message = Some(TabMessage::Close(i));
                        } else {
                            message = Some(TabMessage::Select(i));
                            if cfg.notify_reorder {
                                self.drag = Some(DragState { tab_index: i, is_dragging: false });
                                drag_started = true;
                            }
                        }
                    }
                }
            },
            ContentEvent::Move { past_threshold } => {
                if let Some(d) = self.drag {
                    if pointer.position_known {
                        let mut next = d;
                        if !d.is_dragging && *past_threshold {
                            next.is_dragging = true;
                            drag_activated = true;
                        }
                        self.drag = Some(next);
                        if next.is_dragging {
                            redraw = true;
                            capture = true;
                        }
                    }
                }
            },
            ContentEvent::Release => {
                let taken = self.drag;
                self.drag = None;
                if let Some(d) = taken {
                    if d.is_dragging {
                        if cfg.notify_reorder {
                            let target = compute_drop_index(&pointer.left_of_center, d.tab_index);
                            if target != d.tab_index {
                                message = Some(TabMessage::Reorder(d.tab_index, target));
                            }
                        }
                        redraw = true;
                        capture = true;
                    }
                }
            },
            ContentEvent::Other => {},
        }
        assert(self.drag == drag_after(old_drag, *cfg, *event, *pointer));

        let ghost after = self.drag;
        let ghost flags = Seq::new(
            pointer.over_tab@.len(),
            |k: int| !is_dragging(old_drag) && pointer.position_known && pointer.over_tab@[k] && tooltip_at(*cfg, k),
        );
        let ghost target_statuses = statuses_after(old_drag, *cfg, *event, *pointer);
        let n = cfg.tab_statuses.len();
        let mut statuses: Vec<TabStatus> = Vec::new();
        let mut changed = false;
        let mut hovered: Option<usize> = None;
        let mut i: usize = 0;
        while i < n
            invariant
                n == cfg.tab_statuses@.len(),
                update_inputs_ok(*cfg, *event, *pointer),
                was_dragging == is_dragging(old_drag),
                self.drag == after,
                after == drag_after(old_drag, *cfg, *event, *pointer),
                target_statuses == statuses_after(old_drag, *cfg, *event, *pointer),
                flags.len() == n,
                forall|k: int| 0 <= k < n ==> #[trigger] flags[k] == (!is_dragging(old_drag) && pointer.position_known
                    && pointer.over_tab@[k] && tooltip_at(*cfg, k)),
                i <= n,
                statuses@.len() == i,
                forall|k: int| 0 <= k < i ==> #[trigger] statuses@[k] == target_statuses[k],
                changed <==> exists|k: int| 0 <= k < i && #[trigger] cfg.tab_statuses@[k] != target_statuses[k],
                hovered is None ==> forall|k: int| 0 <= k < i ==> !#[trigger] flags[k],
                hovered matches Some(h) ==> h < i && flags[h as int] && forall|k: int| h < k < i ==> !#[trigger] flags[k],
            decreases n - i,
        {
            let dragged_here = match self.drag {
                Some(d) => was_dragging && d.tab_index == i,
                None => false,
            };
            let status = if dragged_here {
                Status::Dragging
            } else if i == cfg.active_tab {
                Status::Active
            } else if pointer.over_tab[i] && !was_dragging {
                Status::Hovered
            } else {
                Status::Inactive
            };
            let cross = if cfg.has_close && !was_dragging {
                pointer.over_last[i]
            } else {
                None
            };
            let next: TabStatus = (Some(status), cross);
            assert(next == target_statuses[i as int]);
            if !same_tab_status(&cfg.tab_statuses[i], &next) {
                changed = true;
            }
            statuses.push(next);
            let with_tooltip = i < cfg.has_tooltip.len() && cfg.has_tooltip[i];
            if !was_dragging && pointer.position_known && pointer.over_tab[i] && with_tooltip {
                hovered = Some(i);
            }
            assert(flags[i as int] == (!was_dragging && pointer.position_known && pointer.over_tab[i as int] && with_tooltip));
            i = i + 1;
        }
        assert(statuses@ =~= target_statuses);
        if !changed {
            assert(cfg.tab_statuses@ =~= target_statuses);
        }
        self.tab_statuses = statuses;

        proof {
            match hovered {
                Some(h) => {
                    assert(is_last_true(flags, h as int));
                    lemma_last_true(flags, h as int);
                },
                None => {
                    lemma_last_true(flags, 0);
                },
            }
            assert(hovered_tooltip(old_drag, *cfg, *pointer) == last_true(flags));
        }
        let mut tooltip_started = false;
        match hovered {
            Some(h) => {
                let same = match self.tooltip {
                    Some(t) => t.tab_index == h,
                    None => false,
                };
                if same {
                    if pointer.tooltip_waiting {
                        redraw = true;
                    }
                } else {
                    tooltip_started = true;
                    redraw = true;
                }
                self.tooltip = Some(TooltipState { tab_index: h });
            },
            None => {
                if self.tooltip.is_some() {
                    redraw = true;
                }
                self.tooltip = None;
            },
        }
        if changed {
            redraw = true;
        }
        ContentOutcome { message, capture, redraw, drag_started, drag_activated, tooltip_started }
    }
}

/// The tab indices `0..count`.
pub open spec fn tab_range(count: nat) -> Seq<usize> {
    Seq::new(count, |i: int| i as usize)
}

/// `s` with the item at `from` taken out and put back in at `to`, as an
/// application applies a reorder message to its own list of tabs.
pub open spec fn move_item<A>(s: Seq<A>, from: int, to: int) -> Seq<A> {
    s.remove(from).insert(to, s[from])
}

/// The order in which tabs are shown while one is dragged: all tabs but the
/// dragged one, in order, with the dragged one put in at `target` (or at the
/// end, when `target` lies past it).
pub open spec fn visual_order_spec(count: nat, dragged: usize, target: usize) -> Seq<usize> {
    let rest = if dragged < count {
        tab_range(count).remove(dragged as int)
    } else {
        tab_range(count)
    };
    let at = if target < rest.len() {
        target as int
    } else {
        rest.len() as int
    };
    rest.insert(at, dragged)
}

/// Computes the order in which tabs are shown while the tab at `dragged` is
/// dragged towards `target`.
pub fn visual_order(count: usize, dragged: usize, target: usize) -> (order: Vec<usize>)
    ensures
        order@ == visual_order_spec(count as nat, dragged, target),
{
    let mut order: Vec<usize> = Vec::new();
    let mut i: usize = 0;
    while i < count
        invariant
            i <= count,
            order@.len() == if dragged < i { i - 1 } else { i as int },
            forall|k: int| 0 <= k < order@.len() ==> #[trigger] order@[k] == if dragged < i && k >= dragged {
                k + 1
            } else {
                k
            },
        decreases count - i,
    {
        if i != dragged {
            order.push(i);
        }
        i = i + 1;
    }
    let ghost rest = if dragged < count {
        tab_range(count as nat).remove(dragged as int)
    } else {
        tab_range(count as nat)
    };
    assert(order@ =~= rest);
    let at = if target < order.len() {
        target
    } else {
        order.len()
    };
    order.insert(at, dragged);
    order
}

/// The style status a tab is drawn with: its status, or `Inactive` when it
/// has none yet.
pub fn style_status(tab_status: &TabStatus) -> (status: Status)
    ensures
        status == match tab_status.0 {
            Some(s) => s,
            None => Status::Inactive,
        },
{
    match tab_status.0 {
        Some(s) => s,
        None => Status::Inactive,
    }
}

/// Whether a tab's close button is drawn highlighted: only when the cursor
/// is known to be over it.
pub fn close_highlighted(tab_status: &TabStatus) -> (highlighted: bool)
    ensures
        highlighted == (tab_status.1 == Some(true)),
{
    match tab_status.1 {
        Some(b) => b,
        None => false,
    }
}

/// A tab dragged within the tabs is dropped at an index of a tab: the reorder
/// it asks for names two tabs.
pub proof fn lemma_drop_index_in_range(left_of_center: Seq<bool>, dragged: int)
    requires
        0 <= dragged < left_of_center.len(),
    ensures
        0 <= drop_index(left_of_center, dragged) < left_of_center.len(),
{
    match first_true(left_of_center) {
        Some(i) => {
            assert(is_first_true(left_of_center, i));
        },
        None => {},
    }
}

/// While a tab is dragged, the tabs are shown in the order they take once the
/// application moves the dragged tab to the drop index, as the reorder
/// message asks: for any list of tabs, moving the item at the dragged index
/// to the drop index gives the list read in the previewed order.
pub proof fn lemma_preview_matches_reorder<A>(tabs: Seq<A>, left_of_center: Seq<bool>, dragged: usize)
    requires
        left_of_center.len() == tabs.len(),
        dragged < tabs.len() <= usize::MAX,
    ensures
        ({
            let target = drop_index(left_of_center, dragged as int);
            let preview = visual_order_spec(tabs.len(), dragged, target as usize);
            &&& preview.len() == tabs.len()
            &&& move_item(tabs, dragged as int, target) =~= Seq::new(tabs.len(), |k: int| tabs[preview[k] as int])
        }),
{
    lemma_drop_index_in_range(left_of_center, dragged as int);
    let n = tabs.len();
    let target = drop_index(left_of_center, dragged as int);
    let preview = visual_order_spec(n, dragged, target as usize);
    let range = tab_range(n);
    let rest = range.remove(dragged as int);
    range.remove_ensures(dragged as int);
    rest.insert_ensures(target, dragged);
    tabs.remove_ensures(dragged as int);
    tabs.remove(dragged as int).insert_ensures(target, tabs[dragged as int]);
    assert(preview == rest.insert(target, dragged));
    let moved = move_item(tabs, dragged as int, target);
    assert forall|k: int| 0 <= k < n implies moved[k] == tabs[preview[k] as int] by {
        if k < target {
            assert(preview[k] == rest[k]);
            if k < dragged {
                assert(rest[k] == range[k]);
            } else {
                assert(rest[k] == range[k + 1]);
            }
        } else if k == target {
            assert(preview[k] == dragged);
        } else {
            assert(preview[k] == rest[k - 1]);
            if k - 1 < dragged {
                assert(rest[k - 1] == range[k - 1]);
            } else {
                assert(rest[k - 1] == range[k]);
            }
        }
    }
}

/// While a tab within the tabs is dragged, every tab is shown exactly once.
pub proof fn lemma_visual_order_is_permutation(count: usize, dragged: usize, target: usize)
    requires
        dragged < count,
    ensures
        visual_order_spec(count as nat, dragged, target).len() == count,
        forall|t: usize| t < count ==> #[trigger] visual_order_spec(count as nat, dragged, target).contains(t),
        forall|a: int, b: int|
            0 <= a < b < count ==> visual_order_spec(count as nat, dragged, target)[a] != visual_order_spec(
                count as nat,
                dragged,
                target,
            )[b],
{
    let order = visual_order_spec(count as nat, dragged, target);
    let range = tab_range(count as nat);
    let rest = range.remove(dragged as int);
    range.remove_ensures(dragged as int);
    let at = if target < rest.len() {
        target as int
    } else {
        rest.len() as int
    };
    rest.insert_ensures(at, dragged);
    assert(order == rest.insert(at, dragged));
    assert forall|k: int| 0 <= k < count - 1 implies #[trigger] rest[k] == if k < dragged {
        k
    } else {
        k + 1
    } by {
        if k < dragged {
            assert(rest[k] == range[k]);
        } else {
            assert(rest[k] == range[k + 1]);
        }
    }
    assert forall|k: int| 0 <= k < count implies #[trigger] order[k] == if k < at {
        rest[k]
    } else if k == at {
        dragged
    } else {
        rest[k - 1]
    } by {}
    assert forall|t: usize| t < count implies #[trigger] order.contains(t) by {
        if t == dragged {
            assert(order[at] == t);
        } else if t < dragged {
            assert(rest[t as int] == t);
            if (t as int) < at {
                assert(order[t as int] == t);
            } else {
                assert(order[t + 1] == t);
            }
        } else {
            assert(rest[t - 1] == t);
            if (t - 1) < at {
                assert(order[t - 1] == t);
            } else {
                assert(order[t as int] == t);
            }
        }
    }
}

/// Every message names tabs: a selected or closed tab is one of the tabs, and
/// a reorder is asked only on release after a drag past the threshold, moves
/// the tab to another index, and stays within the tabs when the dragged tab
/// is one of them.
pub proof fn lemma_messages_name_tabs(
    drag: Option<DragState>,
    cfg: TabContentConfig,
    event: ContentEvent,
    p: PointerInfo,
)
    requires
        update_inputs_ok(cfg, event, p),
        p.over_tab@.len() <= usize::MAX,
    ensures
        message_of(drag, cfg, event, p) matches Some(TabMessage::Select(i)) ==> i < p.over_tab@.len(),
        message_of(drag, cfg, event, p) matches Some(TabMessage::Close(i)) ==> i < p.over_tab@.len(),
        message_of(drag, cfg, event, p) matches Some(TabMessage::Reorder(from, to)) ==> {
            &&& event is Release
            &&& is_dragging(drag)
            &&& from != to
            &&& from < p.over_tab@.len() ==> to < p.over_tab@.len()
        },
{
    if let Some(i) = press_target(event, p) {
        assert(is_first_true(p.over_tab@, i));
    }
    if let Some(d) = drag {
        let target = drop_index(p.left_of_center@, d.tab_index as int);
        if let Some(i) = first_true(p.left_of_center@) {
            assert(is_first_true(p.left_of_center@, i));
        }
        assert(0 <= target <= p.left_of_center@.len());
        if d.tab_index < p.over_tab@.len() {
            lemma_drop_index_in_range(p.left_of_center@, d.tab_index as int);
        }
    }
}

/// After any event at most one tab is `Active` and at most one is
/// `Dragging`, and the active tab shows `Active` unless it is the one being
/// dragged.
pub proof fn lemma_single_active_and_dragged(
    drag: Option<DragState>,
    cfg: TabContentConfig,
    event: ContentEvent,
    p: PointerInfo,
)
    requires
        update_inputs_ok(cfg, event, p),
    ensures
        ({
            let st = statuses_after(drag, cfg, event, p);
            &&& forall|i: int, j: int|
                0 <= i < j < st.len() ==> !(#[trigger] st[i].0 == Some(Status::Active) && #[trigger] st[j].0 == Some(
                    Status::Active,
                ))
            &&& forall|i: int, j: int|
                0 <= i < j < st.len() ==> !(#[trigger] st[i].0 == Some(Status::Dragging) && #[trigger] st[j].0
                    == Some(Status::Dragging))
            &&& cfg.active_tab < st.len() && st[cfg.active_tab as int].0 != Some(Status::Dragging) ==> st[cfg.active_tab as int].0
                == Some(Status::Active)
        }),
{
}

/// Whether the event is a move at least the drag threshold away from the
/// press.
pub open spec fn moves_past_threshold(event: ContentEvent) -> bool {
    match event {
        ContentEvent::Move { past_threshold } => past_threshold,
        _ => false,
    }
}

/// A release always ends the drag; only a press starts one, and it starts
/// below the threshold; a tab becomes dragged only by a move past the drag
/// threshold, and stays dragged until the drag ends.
pub proof fn lemma_drag_lifecycle(drag: Option<DragState>, cfg: TabContentConfig, event: ContentEvent, p: PointerInfo)
    ensures
        event is Release ==> drag_after(drag, cfg, event, p) is None,
        drag is None && !(event is Press) ==> drag_after(drag, cfg, event, p) is None,
        drag is None ==> (drag_after(drag, cfg, event, p) matches Some(d) ==> !d.is_dragging),
        is_dragging(drag_after(drag, cfg, event, p)) ==> is_dragging(drag) || moves_past_threshold(event),
        is_dragging(drag) && (event is Move || event is Other) ==> is_dragging(drag_after(drag, cfg, event, p)),
{
}

/// A dragged tab is dropped back in its own place exactly when the dragged
/// position lies between the centers of its neighbours: left of the center of
/// the tab after it, and right of the center of the tab before it.
pub proof fn lemma_drop_in_place(left_of_center: Seq<bool>, dragged: int)
    requires
        0 <= dragged < left_of_center.len(),
    ensures
        drop_index(left_of_center, dragged) == dragged <==> (first_true(left_of_center) == Some(dragged)
            || first_true(left_of_center) == Some(dragged + 1) || (first_true(left_of_center) is None
            && dragged == left_of_center.len() - 1)),
{
    match first_true(left_of_center) {
        Some(i) => {
            assert(is_first_true(left_of_center, i));
        },
        None => {},
    }
}

/// Events other than a press, a move or a release change nothing of the
/// drag and send no message; in particular a pending drag (pressed, not yet
/// moved past the threshold) survives them.
pub proof fn lemma_other_events_keep_the_drag(
    drag: Option<DragState>,
    cfg: TabContentConfig,
    p: PointerInfo,
)
    ensures
        drag_after(drag, cfg, ContentEvent::Other, p) == drag,
        message_of(drag, cfg, ContentEvent::Other, p) is None,
        !event_captures(drag, cfg, ContentEvent::Other, p),
{
}

/// A move never changes which tab is dragged and never starts a drag; with
/// the cursor known and past the threshold it makes the drag a real one.
pub proof fn lemma_move_advances_the_drag(
    drag: Option<DragState>,
    cfg: TabContentConfig,
    past_threshold: bool,
    p: PointerInfo,
)
    ensures
        drag is None ==> drag_after(drag, cfg, ContentEvent::Move { past_threshold }, p) is None,
        drag matches Some(d) ==> (drag_after(drag, cfg, ContentEvent::Move { past_threshold }, p) matches Some(e)
            && e.tab_index == d.tab_index),
        drag is Some && past_threshold && p.position_known ==> is_dragging(
            drag_after(drag, cfg, ContentEvent::Move { past_threshold }, p),
        ),
        is_dragging(drag) ==> is_dragging(drag_after(drag, cfg, ContentEvent::Move { past_threshold }, p)),
        message_of(drag, cfg, ContentEvent::Move { past_threshold }, p) is None,
{
}

/// A press on a tab (not on its close button) selects that tab and, with
/// reordering enabled, leaves a pending drag of that tab; a press on its close
/// button closes it and leaves the drag as it was.
pub proof fn lemma_press_selects_or_closes(
    drag: Option<DragState>,
    cfg: TabContentConfig,
    p: PointerInfo,
    i: int,
)
    requires
        p.position_known,
        !p.event_captured,
        p.in_content,
        0 <= i < p.over_tab@.len(),
        p.over_tab@[i],
        forall|j: int| 0 <= j < i ==> !#[trigger] p.over_tab@[j],
        i <= usize::MAX,
    ensures
        p.over_close@[i] == Some(true) && cfg.notify_close ==> message_of(drag, cfg, ContentEvent::Press, p) == Some(
            TabMessage::Close(i as usize),
        ) && drag_after(drag, cfg, ContentEvent::Press, p) == drag,
        !(p.over_close@[i] == Some(true) && cfg.notify_close) ==> message_of(drag, cfg, ContentEvent::Press, p)
            == Some(TabMessage::Select(i as usize)),
        !(p.over_close@[i] == Some(true) && cfg.notify_close) && cfg.notify_reorder ==> drag_after(
            drag,
            cfg,
            ContentEvent::Press,
            p,
        ) == Some(DragState { tab_index: i as usize, is_dragging: false }),
        event_captures(drag, cfg, ContentEvent::Press, p),
{
    crate::search::lemma_first_true(p.over_tab@, i);
}

/// The number of the first `k` tabs, other than `dragged`, whose center lies
/// left of the dragged position.
pub open spec fn tabs_left_of_cursor(left_of_center: Seq<bool>, dragged: int, k: nat) -> nat
    decreases k,
{
    if k == 0 {
        0
    } else {
        let i = k - 1;
        tabs_left_of_cursor(left_of_center, dragged, i as nat) + if i != dragged && !left_of_center[i] {
            1nat
        } else {
            0nat
        }
    }
}

/// Tab centers increase from left to right, so once the dragged position is
/// left of one center it is left of every later one.
pub open spec fn centers_ordered(left_of_center: Seq<bool>) -> bool {
    forall|i: int, j: int| 0 <= i <= j < left_of_center.len() && #[trigger] left_of_center[i] ==> #[trigger] left_of_center[j]
}

proof fn lemma_count_prefix(left_of_center: Seq<bool>, dragged: int, t: int, k: nat)
    requires
        0 <= t <= left_of_center.len(),
        forall|j: int| 0 <= j < t ==> !#[trigger] left_of_center[j],
        forall|j: int| t <= j < left_of_center.len() ==> #[trigger] left_of_center[j],
        k <= left_of_center.len(),
    ensures
        k <= t ==> tabs_left_of_cursor(left_of_center, dragged, k) == k - (if 0 <= dragged < k {
            1int
        } else {
            0int
        }),
        k > t ==> tabs_left_of_cursor(left_of_center, dragged, k) == t - (if 0 <= dragged < t {
            1int
        } else {
            0int
        }),
    decreases k,
{
    if k > 0 {
        lemma_count_prefix(left_of_center, dragged, t, (k - 1) as nat);
    }
}

/// With the tab centers in order, a dragged tab is dropped at the index that
/// counts the other tabs whose centers lie left of the dragged position: it
/// lands right after them.
pub proof fn lemma_drop_index_counts_tabs_left(left_of_center: Seq<bool>, dragged: int)
    requires
        0 <= dragged < left_of_center.len(),
        centers_ordered(left_of_center),
    ensures
        drop_index(left_of_center, dragged) == tabs_left_of_cursor(left_of_center, dragged, left_of_center.len()),
{
    let n = left_of_center.len();
    let t = match first_true(left_of_center) {
        Some(i) => i,
        None => n as int,
    };
    match first_true(left_of_center) {
        Some(i) => {
            assert(is_first_true(left_of_center, i));
            assert forall|j: int| t <= j < n implies #[trigger] left_of_center[j] by {
                assert(left_of_center[i]);
            }
        },
        None => {
            assert forall|j: int| 0 <= j < n implies !#[trigger] left_of_center[j] by {
                if left_of_center[j] {
                    lemma_some_first(left_of_center, j);
                }
            }
        },
    }
    lemma_count_prefix(left_of_center, dragged, t, n);
}

proof fn lemma_some_first(flags: Seq<bool>, j: int)
    requires
        0 <= j < flags.len(),
        flags[j],
    ensures
        first_true(flags) is Some,
    decreases j,
{
    if exists|k: int| 0 <= k < j && flags[k] {
        let k = choose|k: int| 0 <= k < j && flags[k];
        lemma_some_first(flags, k);
    } else {
        assert(is_first_true(flags, j));
    }
}

/// Whether `drag` is a drag of tab `i`.
pub open spec fn drags_tab(drag: Option<DragState>, i: int) -> bool {
    match drag {
        Some(d) => d.tab_index == i,
        None => false,
    }
}

/// When an event leaves no drag (a release, for one), no tab shows
/// `Dragging`, and the active tab shows `Active`.
pub proof fn lemma_no_drag_no_dragging_status(
    drag: Option<DragState>,
    cfg: TabContentConfig,
    event: ContentEvent,
    p: PointerInfo,
)
    requires
        update_inputs_ok(cfg, event, p),
        drag_after(drag, cfg, event, p) is None,
    ensures
        forall|i: int|
            0 <= i < cfg.tab_statuses@.len() ==> (#[trigger] statuses_after(drag, cfg, event, p)[i]).0 != Some(
                Status::Dragging,
            ),
        cfg.active_tab < cfg.tab_statuses@.len() ==> statuses_after(drag, cfg, event, p)[cfg.active_tab as int].0
            == Some(Status::Active),
{
}

/// What each status says of the tab: `Dragging` only for the tab of a drag
/// under way before and after the event; `Active` only for the active tab;
/// `Hovered` only for a tab under the cursor, not active, outside a drag; and
/// every status is set. Close-button hover is tracked only with close buttons
/// and outside a drag.
pub proof fn lemma_status_meanings(
    drag: Option<DragState>,
    cfg: TabContentConfig,
    event: ContentEvent,
    p: PointerInfo,
)
    requires
        update_inputs_ok(cfg, event, p),
    ensures
        statuses_after(drag, cfg, event, p).len() == cfg.tab_statuses@.len(),
        forall|i: int|
            0 <= i < cfg.tab_statuses@.len() ==> {
                let st = #[trigger] statuses_after(drag, cfg, event, p)[i];
                &&& st.0 is Some
                &&& st.0 == Some(Status::Dragging) ==> is_dragging(drag) && drags_tab(drag_after(drag, cfg, event, p), i)
                &&& st.0 == Some(Status::Active) ==> i == cfg.active_tab
                &&& st.0 == Some(Status::Hovered) ==> p.over_tab@[i] && !is_dragging(drag) && i != cfg.active_tab
                &&& !is_dragging(drag) && i != cfg.active_tab && p.over_tab@[i] ==> st.0 == Some(Status::Hovered)
                &&& !is_dragging(drag) && i != cfg.active_tab && !p.over_tab@[i] ==> st.0 == Some(Status::Inactive)
                &&& (!cfg.has_close || is_dragging(drag)) ==> st.1 is None
                &&& cfg.has_close && !is_dragging(drag) ==> st.1 == p.over_last@[i]
            },
{
}

/// While a drag past the threshold is under way no tooltip is tracked and
/// none starts; otherwise a tracked tooltip belongs to a hovered tab that has
/// one, and a tooltip starts only when that tab differs from the tracked one.
pub proof fn lemma_tooltip_meanings(
    tooltip: Option<TooltipState>,
    drag: Option<DragState>,
    cfg: TabContentConfig,
    p: PointerInfo,
)
    requires
        p.over_tab@.len() <= usize::MAX,
    ensures
        is_dragging(drag) ==> tooltip_after(drag, cfg, p) is None && !tooltip_starts(tooltip, drag, cfg, p),
        tooltip_after(drag, cfg, p) matches Some(t) ==> {
            &&& 0 <= t.tab_index < p.over_tab@.len()
            &&& p.over_tab@[t.tab_index as int]
            &&& tooltip_at(cfg, t.tab_index as int)
            &&& p.position_known
            &&& !is_dragging(drag)
        },
        tooltip_starts(tooltip, drag, cfg, p) ==> tooltip_after(drag, cfg, p) is Some && tooltip_after(drag, cfg, p)
            != tooltip,
        !p.position_known ==> tooltip_after(drag, cfg, p) is None,
{
    let flags = Seq::new(
        p.over_tab@.len(),
        |i: int| !is_dragging(drag) && p.position_known && p.over_tab@[i] && tooltip_at(cfg, i),
    );
    match last_true(flags) {
        Some(h) => {
            assert(is_last_true(flags, h));
            assert(flags[h]);
        },
        None => {},
    }
    if is_dragging(drag) || !p.position_known {
        assert forall|j: int| 0 <= j < flags.len() implies !#[trigger] flags[j] by {}
        lemma_last_true(flags, 0);
    }
}

/// A release after a drag past the threshold, with reordering enabled, asks
/// to move the dragged tab to its drop index, unless that is where it already
/// is; every other release asks for nothing. A release is captured exactly
/// when a drag past the threshold ends.
pub proof fn lemma_release_reorders(drag: Option<DragState>, cfg: TabContentConfig, p: PointerInfo)
    requires
        p.left_of_center@.len() <= usize::MAX,
    ensures
        drag matches Some(d) ==> (d.is_dragging && cfg.notify_reorder && drop_index(p.left_of_center@, d.tab_index as int)
            != d.tab_index ==> message_of(drag, cfg, ContentEvent::Release, p) == Some(
            TabMessage::Reorder(d.tab_index, drop_index(p.left_of_center@, d.tab_index as int) as usize),
        )),
        drag matches Some(d) ==> (d.is_dragging && cfg.notify_reorder && drop_index(p.left_of_center@, d.tab_index as int)
            == d.tab_index ==> message_of(drag, cfg, ContentEvent::Release, p) is None),
        !is_dragging(drag) || !cfg.notify_reorder ==> message_of(drag, cfg, ContentEvent::Release, p) is None,
        event_captures(drag, cfg, ContentEvent::Release, p) == is_dragging(drag),
{
    if let Some(d) = drag {
        if let Some(i) = first_true(p.left_of_center@) {
            assert(is_first_true(p.left_of_center@, i));
        }
    }
}

/// A press that the content does not take (cursor unknown, outside the
/// content, already captured, or over no tab) changes nothing: no message, no
/// capture, the drag as it was.
pub proof fn lemma_press_elsewhere_ignored(drag: Option<DragState>, cfg: TabContentConfig, p: PointerInfo)
    requires
        !p.position_known || p.event_captured || !p.in_content || forall|j: int|
            0 <= j < p.over_tab@.len() ==> !#[trigger] p.over_tab@[j],
    ensures
        message_of(drag, cfg, ContentEvent::Press, p) is None,
        !event_captures(drag, cfg, ContentEvent::Press, p),
        drag_after(drag, cfg, ContentEvent::Press, p) == drag,
        !drag_starts(cfg, ContentEvent::Press, p),
{
    crate::search::lemma_first_true(p.over_tab@, 0);
}

/// A drag starts when, and only when, the event leaves a pending drag that
/// was not there before; it turns into a real drag when, and only when, a
/// pending drag becomes one.
pub proof fn lemma_drag_start_and_activation(
    drag: Option<DragState>,
    cfg: TabContentConfig,
    event: ContentEvent,
    p: PointerInfo,
)
    requires
        p.over_tab@.len() <= usize::MAX,
    ensures
        drag_starts(cfg, event, p) ==> event is Press,
        drag_starts(cfg, event, p) ==> drag_after(drag, cfg, event, p) == Some(
            DragState { tab_index: press_target(event, p)->0 as usize, is_dragging: false },
        ),
        event is Press && !drag_starts(cfg, event, p) ==> drag_after(drag, cfg, event, p) == drag,
        drag_activates(drag, event, p) <==> (!is_dragging(drag) && drag is Some && is_dragging(
            drag_after(drag, cfg, event, p),
        ) && event is Move),
{
    if let Some(i) = press_target(event, p) {
        assert(is_first_true(p.over_tab@, i));
    }
}

/// A redraw is asked whenever a tab's status changes, a drag moves or ends,
/// or a tooltip hover starts or ends; an event that changes none of these,
/// with no tooltip delay running, asks for none.
pub proof fn lemma_redraw_meanings(
    tooltip: Option<TooltipState>,
    drag: Option<DragState>,
    cfg: TabContentConfig,
    event: ContentEvent,
    p: PointerInfo,
)
    requires
        p.over_tab@.len() <= usize::MAX,
    ensures
        statuses_after(drag, cfg, event, p) != cfg.tab_statuses@ ==> update_redraws(tooltip, drag, cfg, event, p),
        event is Release && is_dragging(drag) ==> update_redraws(tooltip, drag, cfg, event, p),
        event is Move && drag is Some && p.position_known && is_dragging(drag_after(drag, cfg, event, p))
            ==> update_redraws(tooltip, drag, cfg, event, p),
        tooltip_starts(tooltip, drag, cfg, p) ==> update_redraws(tooltip, drag, cfg, event, p),
        tooltip is Some && tooltip_after(drag, cfg, p) is None ==> update_redraws(tooltip, drag, cfg, event, p),
        event is Other && statuses_after(drag, cfg, event, p) == cfg.tab_statuses@ && tooltip_after(drag, cfg, p)
            == tooltip && !p.tooltip_waiting ==> !update_redraws(tooltip, drag, cfg, event, p),
{
    lemma_tooltip_meanings(tooltip, drag, cfg, p);
}

/// While a tab within the tabs is dragged, it is shown at `target` (or last,
/// when `target` lies past the tabs), and the other tabs keep their order.
pub proof fn lemma_visual_order_places_dragged(count: usize, dragged: usize, target: usize)
    requires
        dragged < count,
    ensures
        ({
            let order = visual_order_spec(count as nat, dragged, target);
            let at = if target < count {
                target as int
            } else {
                count - 1
            };
            &&& order[at] == dragged
            &&& forall|a: int, b: int|
                0 <= a < b < count && a != at && b != at ==> #[trigger] order[a] < #[trigger] order[b]
        }),
{
    let order = visual_order_spec(count as nat, dragged, target);
    let range = tab_range(count as nat);
    let rest = range.remove(dragged as int);
    range.remove_ensures(dragged as int);
    let at = if target < rest.len() {
        target as int
    } else {
        rest.len() as int
    };
    rest.insert_ensures(at, dragged);
    assert forall|k: int| 0 <= k < count - 1 implies #[trigger] rest[k] == if k < dragged {
        k
    } else {
        k + 1
    } by {
        if k < dragged {
            assert(rest[k] == range[k]);
        } else {
            assert(rest[k] == range[k + 1]);
        }
    }
    assert forall|k: int| 0 <= k < count implies #[trigger] order[k] == if k < at {
        rest[k]
    } else if k == at {
        dragged
    } else {
        rest[k - 1]
    } by {}
}

} // verus!
