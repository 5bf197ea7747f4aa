//! The tab list of a tab bar: the tabs, their ids, labels, tooltips and
//! statuses, the active tab, and where icons sit relative to text.
use vstd::prelude::*;
use vstd::std_specs::cmp::PartialEqSpec;

use crate::search::{first_true, is_first_true, lemma_first_true};
use crate::tab::{TabLabel, TabStatus};

verus! {

/// Icon position relative to text. Only meaningful for `TabLabel::IconText`.
#[derive(Clone, Copy, Debug, PartialEq, Eq, Structural)]
pub enum Position {
    /// Icon is placed above the text.
    Top,
    /// Icon is placed to the right of the text.
    Right,
    /// Icon is placed below the text.
    Bottom,
    /// Icon is placed to the left of the text (default).
    Left,
}

impl Default for Position {
    fn default() -> (position: Self)
        ensures
            position == Position::Left,
    {
        Position::Left
    }
}

impl Position {
    /// Whether the icon and text are stacked vertically (Top/Bottom).
    pub fn is_vertical(self) -> (vertical: bool)
        ensures
            vertical <==> (self == Position::Top || self == Position::Bottom),
    {
        match self {
            Position::Top | Position::Bottom => true,
            _ => false,
        }
    }

    /// Whether the icon appears before the text in layout order (Top/Left).
    pub fn is_icon_first(self) -> (first: bool)
        ensures
            first <==> (self == Position::Top || self == Position::Left),
    {
        match self {
            Position::Top | Position::Left => true,
            _ => false,
        }
    }
}

/// What a tab bar holds: the active index, and per tab its id, label,
/// optional tooltip and status, plus the icon position.
pub struct TabBarModel<TabId> {
    /// The index of the active tab.
    pub active_tab: nat,
    /// The id of each tab.
    pub ids: Seq<TabId>,
    /// The label of each tab.
    pub labels: Seq<TabLabel>,
    /// The tooltip of each tab, if it has one.
    pub tooltips: Seq<Option<String>>,
    /// The status of each tab.
    pub statuses: Seq<TabStatus>,
    /// Where the icon is placed relative to the text.
    pub position: Position,
}

impl<TabId> TabBarModel<TabId> {
    /// Every tab has an id, a label, a tooltip slot and a status, and the
    /// active index names a tab (it is 0 when there are none).
    pub open spec fn well_formed(self) -> bool {
        &&& self.active_tab < self.ids.len() || (self.ids.len() == 0 && self.active_tab == 0)
        &&& self.labels.len() == self.ids.len()
        &&& self.tooltips.len() == self.ids.len()
        &&& self.statuses.len() == self.ids.len()
    }

    /// A tab bar without tabs, as `TabBar::new` makes it.
    pub open spec fn empty() -> Self {
        TabBarModel {
            active_tab: 0,
            ids: Seq::empty(),
            labels: Seq::empty(),
            tooltips: Seq::empty(),
            statuses: Seq::empty(),
            position: Position::Left,
        }
    }

    /// The tab bar with one more tab at the end.
    pub open spec fn pushed(self, id: TabId, label: TabLabel, tooltip: Option<String>) -> Self {
        TabBarModel {
            ids: self.ids.push(id),
            labels: self.labels.push(label),
            tooltips: self.tooltips.push(tooltip),
            statuses: self.statuses.push((None, None)),
            ..self
        }
    }

    /// The id of the active tab, if the active index names a tab.
    pub open spec fn active_id(self) -> Option<TabId> {
        if self.active_tab < self.ids.len() {
            Some(self.ids[self.active_tab as int])
        } else {
            None
        }
    }

    /// The active index handed to the tab content: the active index, kept
    /// within the tabs (0 when there are none).
    pub open spec fn displayed_active_tab(self) -> nat {
        if self.ids.len() == 0 {
            0
        } else if self.active_tab < self.ids.len() {
            self.active_tab
        } else {
            (self.ids.len() - 1) as nat
        }
    }
}

impl<TabId: PartialEq> TabBarModel<TabId> {
    /// Whether each tab's id equals `id`.
    pub open spec fn id_matches(self, id: TabId) -> Seq<bool> {
        Seq::new(self.ids.len(), |i: int| self.ids[i].eq_spec(&id))
    }

    /// The tab bar after selecting the first tab whose id equals `id`; the
    /// active index stays as it was when no id equals `id`.
    pub open spec fn with_active_id(self, id: TabId) -> Self {
        match first_true(self.id_matches(id)) {
            Some(i) => TabBarModel { active_tab: i as nat, ..self },
            None => self,
        }
    }
}

/// The tab list of a tab bar.
///
/// Tabs are added with `push`; `set_active_tab` marks one of them active.
pub struct TabBar<TabId: Eq + Clone> {
    /// The index of the currently active tab.
    active_tab: usize,
    /// The labels of the tabs.
    tab_labels: Vec<TabLabel>,
    /// The ids of the tabs.
    tab_indices: Vec<TabId>,
    /// The tooltips of the tabs.
    tab_tooltips: Vec<Option<String>>,
    /// Per-tab status and close-button hover state.
    tab_statuses: Vec<TabStatus>,
    /// Where the icon is placed relative to text.
    position: Position,
}

impl<TabId: Eq + Clone> View for TabBar<TabId> {
    type V = TabBarModel<TabId>;

    closed spec fn view(&self) -> TabBarModel<TabId> {
        TabBarModel {
            active_tab: self.active_tab as nat,
            ids: self.tab_indices@,
            labels: self.tab_labels@,
            tooltips: self.tab_tooltips@,
            statuses: self.tab_statuses@,
            position: self.position,
        }
    }
}

impl<TabId: Eq + Clone> TabBar<TabId> {
    #[verifier::type_invariant]
    spec fn inv(self) -> bool {
        self@.well_formed()
    }

    /// Creates a new empty tab bar.
    pub fn new() -> (bar: Self)
        ensures
            bar@ == TabBarModel::<TabId>::empty(),
            bar@.well_formed(),
    {
        TabBar {
            active_tab: 0,
            tab_labels: Vec::new(),
            tab_indices: Vec::new(),
            tab_tooltips: Vec::new(),
            tab_statuses: Vec::new(),
            position: Position::Left,
        }
    }

    /// Creates a tab bar with the given `(id, label)` pairs as its tabs, in
    /// order, none of them with a tooltip.
    pub fn with_tab_labels(tab_labels: Vec<(TabId, TabLabel)>) -> (bar: Self)
        ensures
            bar@.well_formed(),
            bar@.active_tab == 0,
            bar@.position == Position::Left,
            bar@.ids == tab_labels@.map_values(|p: (TabId, TabLabel)| p.0),
            bar@.labels == tab_labels@.map_values(|p: (TabId, TabLabel)| p.1),
            bar@.tooltips == Seq::new(tab_labels@.len(), |i: int| None::<String>),
            bar@.statuses == Seq::new(tab_labels@.len(), |i: int| (None::<crate::status::Status>, None::<bool>)),
    {
        let ghost pairs = tab_labels@;
        let mut rest = tab_labels;
        let mut ids: Vec<TabId> = Vec::new();
        let mut labels: Vec<TabLabel> = Vec::new();
        let mut tooltips: Vec<Option<String>> = Vec::new();
        let mut statuses: Vec<TabStatus> = Vec::new();
        while rest.len() > 0
            invariant
                ids@.len() + rest@.len() == pairs.len(),
                labels@.len() == ids@.len(),
                tooltips@.len() == ids@.len(),
                statuses@.len() == ids@.len(),
                rest@ == pairs.skip(ids@.len() as int),
                forall|k: int| 0 <= k < ids@.len() ==> #[trigger] ids@[k] == pairs[k].0,
                forall|k: int| 0 <= k < ids@.len() ==> #[trigger] labels@[k] == pairs[k].1,
                forall|k: int| 0 <= k < ids@.len() ==> #[trigger] tooltips@[k] == None::<String>,
                forall|k: int| 0 <= k < ids@.len() ==> #[trigger] statuses@[k] == (None::<crate::status::Status>, None::<bool>),
            decreases rest@.len(),
        {
            let (id, label) = rest.remove(0);
            ids.push(id);
            labels.push(label);
            tooltips.push(None);
            statuses.push((None, None));
        }
        assert(ids@ =~= pairs.map_values(|p: (TabId, TabLabel)| p.0));
        assert(labels@ =~= pairs.map_values(|p: (TabId, TabLabel)| p.1));
        assert(tooltips@ =~= Seq::new(pairs.len(), |i: int| None::<String>));
        assert(statuses@ =~= Seq::new(pairs.len(), |i: int| (None::<crate::status::Status>, None::<bool>)));
        TabBar {
            active_tab: 0,
            tab_labels: labels,
            tab_indices: ids,
            tab_tooltips: tooltips,
            tab_statuses: statuses,
            position: Position::Left,
        }
    }

    /// Gets the id of the currently active tab.
    pub fn get_active_tab_id(&self) -> (id: Option<&TabId>)
        ensures
            id matches Some(r) ==> self@.active_id() == Some(*r),
            id matches Some(r) ==> *r == self@.ids[self@.active_tab as int],
            id is None <==> self@.active_id() is None,
            id is None <==> self@.ids.len() == 0,
    {
        proof {
            use_type_invariant(self);
        }
        if self.active_tab < self.tab_indices.len() {
            Some(&self.tab_indices[self.active_tab])
        } else {
            None
        }
    }

    /// Gets the index of the currently active tab.
    pub fn get_active_tab_idx(&self) -> (idx: usize)
        ensures
            idx == self@.active_tab,
    {
        self.active_tab
    }

    /// Pushes a tab with the given id and label.
    pub fn push(self, id: TabId, tab_label: TabLabel) -> (bar: Self)
        ensures
            bar@ == self@.pushed(id, tab_label, None),
            bar@.well_formed(),
            bar@.ids == self@.ids.push(id),
            bar@.labels == self@.labels.push(tab_label),
            bar@.tooltips == self@.tooltips.push(None),
            bar@.statuses == self@.statuses.push((None, None)),
            bar@.active_tab == self@.active_tab,
            bar@.position == self@.position,
    {
        proof {
            use_type_invariant(&self);
        }
        let TabBar { active_tab, mut tab_labels, mut tab_indices, mut tab_tooltips, mut tab_statuses, position } = self;
        tab_labels.push(tab_label);
        tab_indices.push(id);
        tab_tooltips.push(None);
        tab_statuses.push((None, None));
        TabBar { active_tab, tab_labels, tab_indices, tab_tooltips, tab_statuses, position }
    }

    /// Pushes a tab with the given id and label that shows `tooltip` when
    /// hovered.
    pub fn push_with_tooltip(self, id: TabId, tab_label: TabLabel, tooltip: String) -> (bar: Self)
        ensures
            bar@ == self@.pushed(id, tab_label, Some(tooltip)),
            bar@.well_formed(),
            bar@.ids == self@.ids.push(id),
            bar@.labels == self@.labels.push(tab_label),
            bar@.tooltips == self@.tooltips.push(Some(tooltip)),
            bar@.statuses == self@.statuses.push((None, None)),
            bar@.active_tab == self@.active_tab,
            bar@.position == self@.position,
    {
        proof {
            use_type_invariant(&self);
        }
        let TabBar { active_tab, mut tab_labels, mut tab_indices, mut tab_tooltips, mut tab_statuses, position } = self;
        tab_labels.push(tab_label);
        tab_indices.push(id);
        tab_tooltips.push(Some(tooltip));
        tab_statuses.push((None, None));
        TabBar { active_tab, tab_labels, tab_indices, tab_tooltips, tab_statuses, position }
    }

    /// Gets the number of tabs.
    pub fn size(&self) -> (n: usize)
        ensures
            n == self@.ids.len(),
    {
        self.tab_indices.len()
    }

    /// Makes the first tab whose id equals `active_tab` the active one.
    ///
    /// If no tab has that id, the active tab index remains unchanged.
    pub fn set_active_tab(self, active_tab: &TabId) -> (bar: Self)
        ensures
            TabId::obeys_eq_spec() ==> bar@ == self@.with_active_id(*active_tab),
            bar@.active_tab == self@.active_tab || bar@.active_tab < self@.ids.len(),
            bar@.well_formed(),
            bar@.ids == self@.ids,
            bar@.labels == self@.labels,
            bar@.tooltips == self@.tooltips,
            bar@.statuses == self@.statuses,
            bar@.position == self@.position,
    {
        proof {
            use_type_invariant(&self);
        }
        let ghost matches = self@.id_matches(*active_tab);
        let mut i: usize = 0;
        let n = self.tab_indices.len();
        while i < n
            invariant
                n == self.tab_indices@.len(),
                self@.well_formed(),
                matches == self@.id_matches(*active_tab),
                i <= n,
                TabId::obeys_eq_spec() ==> forall|j: int| 0 <= j < i ==> !#[trigger] matches[j],
            decreases n - i,
        {
            if self.tab_indices[i] == *active_tab {
                proof {
                    lemma_first_true(matches, i as int);
                }
                let TabBar { active_tab: _, tab_labels, tab_indices, tab_tooltips, tab_statuses, position } = self;
                return TabBar { active_tab: i, tab_labels, tab_indices, tab_tooltips, tab_statuses, position };
            }
            i = i + 1;
        }
        proof {
            lemma_first_true(matches, 0);
        }
        self
    }

    /// Sets where the icon is placed relative to the text.
    pub fn set_position(self, position: Position) -> (bar: Self)
        ensures
            bar@ == (TabBarModel { position, ..self@ }),
            bar@.well_formed(),
    {
        proof {
            use_type_invariant(&self);
        }
        let TabBar { active_tab, tab_labels, tab_indices, tab_tooltips, tab_statuses, position: _ } = self;
        TabBar { active_tab, tab_labels, tab_indices, tab_tooltips, tab_statuses, position }
    }
}

impl<TabId: Eq + Clone> TabBar<TabId> {
    /// The active index handed to the tab content: the active index, kept
    /// within the tabs (0 when there are none).
    pub fn displayed_active_tab(&self) -> (idx: usize)
        ensures
            idx == self@.displayed_active_tab(),
    {
        let n = self.tab_indices.len();
        let last = if n == 0 {
            0
        } else {
            n - 1
        };
        if self.active_tab < last {
            self.active_tab
        } else {
            last
        }
    }

    /// Replaces the tab statuses with those the tab content computed.
    pub fn store_tab_statuses(&mut self, statuses: Vec<TabStatus>)
        requires
            statuses@.len() == old(self)@.ids.len(),
        ensures
            final(self)@ == (TabBarModel { statuses: statuses@, ..old(self)@ }),
            final(self)@.well_formed(),
    {
        proof {
            use_type_invariant(&*self);
        }
        self.tab_statuses = statuses;
    }

    /// The ids of the tabs.
    pub fn tab_ids(&self) -> (ids: &Vec<TabId>)
        ensures
            ids@ == self@.ids,
    {
        &self.tab_indices
    }

    /// The labels of the tabs.
    pub fn tab_labels(&self) -> (labels: &Vec<TabLabel>)
        ensures
            labels@ == self@.labels,
    {
        &self.tab_labels
    }

    /// The tooltips of the tabs.
    pub fn tab_tooltips(&self) -> (tooltips: &Vec<Option<String>>)
        ensures
            tooltips@ == self@.tooltips,
    {
        &self.tab_tooltips
    }

    /// The statuses of the tabs.
    pub fn tab_statuses(&self) -> (statuses: &Vec<TabStatus>)
        ensures
            statuses@ == self@.statuses,
    {
        &self.tab_statuses
    }

    /// Where the icon is placed relative to the text.
    pub fn position(&self) -> (position: Position)
        ensures
            position == self@.position,
    {
        self.position
    }
}

/// Selecting an id that some tab has makes the first such tab active, and
/// reading the active id then gives an id equal to the one selected.
pub proof fn lemma_select_then_read<TabId: PartialEq>(bar: TabBarModel<TabId>, id: TabId, i: int)
    requires
        bar.well_formed(),
        is_first_true(bar.id_matches(id), i),
    ensures
        bar.with_active_id(id).active_tab == i,
        bar.with_active_id(id).active_id() == Some(bar.ids[i]),
        bar.ids[i].eq_spec(&id),
{
    lemma_first_true(bar.id_matches(id), i);
}

/// Selecting an id that no tab has leaves the tab bar as it was.
pub proof fn lemma_select_missing_keeps<TabId: PartialEq>(bar: TabBarModel<TabId>, id: TabId)
    requires
        forall|k: int| 0 <= k < bar.ids.len() ==> !(#[trigger] bar.ids[k]).eq_spec(&id),
    ensures
        bar.with_active_id(id) == bar,
{
    let m = bar.id_matches(id);
    assert forall|k: int| 0 <= k < m.len() implies !#[trigger] m[k] by {
        assert(!bar.ids[k].eq_spec(&id));
    }
    lemma_first_true(m, 0);
}

/// Pushing a tab adds one tab at the end and keeps the active tab; the first
/// tab pushed becomes the active one.
pub proof fn lemma_push_keeps_active<TabId>(
    bar: TabBarModel<TabId>,
    id: TabId,
    label: TabLabel,
    tooltip: Option<String>,
)
    requires
        bar.well_formed(),
    ensures
        bar.pushed(id, label, tooltip).well_formed(),
        bar.pushed(id, label, tooltip).ids.len() == bar.ids.len() + 1,
        bar.pushed(id, label, tooltip).ids.last() == id,
        bar.active_tab < bar.ids.len() ==> bar.pushed(id, label, tooltip).active_id() == bar.active_id(),
        bar.ids.len() == 0 ==> bar.pushed(id, label, tooltip).active_id() == Some(id),
{
}

/// The active index handed to the tab content names a tab whenever there is
/// one, and is the active index itself when that names a tab.
pub proof fn lemma_displayed_active_in_range<TabId>(bar: TabBarModel<TabId>)
    ensures
        bar.ids.len() > 0 ==> bar.displayed_active_tab() < bar.ids.len(),
        bar.active_tab < bar.ids.len() ==> bar.displayed_active_tab() == bar.active_tab,
{
}

/// Pushing a tab appends its id, label, tooltip and a fresh status at the
/// end, keeping every earlier tab where it was, so each label stays with its
/// id.
pub proof fn lemma_push_appends<TabId>(bar: TabBarModel<TabId>, id: TabId, label: TabLabel, tooltip: Option<String>)
    ensures
        bar.pushed(id, label, tooltip).ids == bar.ids.push(id),
        bar.pushed(id, label, tooltip).labels == bar.labels.push(label),
        bar.pushed(id, label, tooltip).tooltips == bar.tooltips.push(tooltip),
        bar.pushed(id, label, tooltip).statuses == bar.statuses.push((None, None)),
        bar.pushed(id, label, tooltip).active_tab == bar.active_tab,
        bar.pushed(id, label, tooltip).position == bar.position,
        forall|k: int| 0 <= k < bar.labels.len() ==> #[trigger] bar.pushed(id, label, tooltip).labels[k] == bar.labels[k],
        bar.pushed(id, label, tooltip).labels.last() == label,
{
}

} // verus!
