use vstd::prelude::*;

pub mod layout;

use crate::layout::{grid_view, line_view, Item, ItemView, Layout, TabView};

verus! {

#[derive(Debug)]
pub struct Color {
    pub r: u8,
    pub g: u8,
    pub b: u8,
}

impl Color {
    pub fn as_tuple(&self) -> (r: (u8, u8, u8))
        ensures
            r == (self.r, self.g, self.b),
    {
        (self.r, self.g, self.b)
    }
}

/// The eight colour slots that renderers draw with.
#[derive(Debug)]
pub struct ColorPalette {
    pub tab_outline: Color,
    pub tab_text: Color,
    pub tab_bg: Color,
    pub tab_accent: Color,
    pub item_outline: Color,
    pub item_text: Color,
    pub item_bg: Color,
    pub item_accent: Color,
}

pub open spec fn rgb(c: Color) -> (u8, u8, u8) {
    (c.r, c.g, c.b)
}

/// White outlines and text on black, with red accents.
pub open spec fn is_default_palette(p: ColorPalette) -> bool {
    &&& rgb(p.tab_outline) == (255u8, 255u8, 255u8)
    &&& rgb(p.tab_text) == (255u8, 255u8, 255u8)
    &&& rgb(p.tab_bg) == (0u8, 0u8, 0u8)
    &&& rgb(p.tab_accent) == (255u8, 0u8, 0u8)
    &&& rgb(p.item_outline) == (255u8, 0u8, 0u8)
    &&& rgb(p.item_text) == (255u8, 255u8, 255u8)
    &&& rgb(p.item_bg) == (0u8, 0u8, 0u8)
    &&& rgb(p.item_accent) == (255u8, 0u8, 0u8)
}

impl ColorPalette {
    pub fn default() -> (r: ColorPalette)
        ensures
            is_default_palette(r),
    {
        ColorPalette {
            tab_outline: Color { r: 255, g: 255, b: 255 },
            tab_text: Color { r: 255, g: 255, b: 255 },
            tab_bg: Color { r: 0, g: 0, b: 0 },
            tab_accent: Color { r: 255, g: 0, b: 0 },
            item_outline: Color { r: 255, g: 0, b: 0 },
            item_text: Color { r: 255, g: 255, b: 255 },
            item_bg: Color { r: 0, g: 0, b: 0 },
            item_accent: Color { r: 255, g: 0, b: 0 },
        }
    }
}

/// What the engine reports to its caller.
#[derive(Eq, PartialEq, Debug)]
pub enum GuiEvent {
    ItemSelected(String),
    StatefulButtonChange(String, bool, u128),
    StatelessButtonPress(String, u128),
    TabChanged(String),
    Quit,
}

pub enum GuiEventView {
    ItemSelected(Seq<char>),
    StatefulButtonChange(Seq<char>, bool, u128),
    StatelessButtonPress(Seq<char>, u128),
    TabChanged(Seq<char>),
    Quit,
}

impl View for GuiEvent {
    type V = GuiEventView;

    open spec fn view(&self) -> GuiEventView {
        match self {
            GuiEvent::ItemSelected(s) => GuiEventView::ItemSelected(s@),
            GuiEvent::StatefulButtonChange(s, b, id) => GuiEventView::StatefulButtonChange(
                s@,
                *b,
                *id,
            ),
            GuiEvent::StatelessButtonPress(s, id) => GuiEventView::StatelessButtonPress(s@, *id),
            GuiEvent::TabChanged(s) => GuiEventView::TabChanged(s@),
            GuiEvent::Quit => GuiEventView::Quit,
        }
    }
}

/// Directional and activation input, from a device or a renderer.
#[derive(Eq, PartialEq, Structural, Debug)]
pub enum HidEvent {
    Up,
    Down,
    Left,
    Right,
    NextTab,
    PreviousTab,
    ButtonPress,
    Quit,
}

/// Events that a renderer produces.
#[derive(Eq, PartialEq, Structural, Debug)]
pub enum RendererEvent {
    Refresh,
    WindowClosed,
    Hid(HidEvent),
}

/// The outcome of one input: which regions to redraw and the event, if any,
/// to hand to the caller.
pub struct Step {
    pub redraw_tabs: bool,
    pub redraw_items: bool,
    pub event: Option<GuiEvent>,
}

pub struct StepView {
    pub redraw_tabs: bool,
    pub redraw_items: bool,
    pub event: Option<GuiEventView>,
}

impl View for Step {
    type V = StepView;

    open spec fn view(&self) -> StepView {
        StepView {
            redraw_tabs: self.redraw_tabs,
            redraw_items: self.redraw_items,
            event: match self.event {
                Some(e) => Some(e@),
                None => None,
            },
        }
    }
}

/// The engine's state: every tab, the focused tab and position, and whether
/// input is being discarded.
pub struct GuiView {
    pub tabs: Seq<TabView>,
    pub tab: usize,
    pub pos: (usize, usize),
    pub ignore_hid: bool,
}

/// `pos` names an item of `grid`.
pub open spec fn holds_item(grid: Seq<Seq<ItemView>>, pos: (usize, usize)) -> bool {
    pos.0 < grid.len() && pos.1 < grid[pos.0 as int].len()
}

/// The focus names an item, or rests at the origin.
pub open spec fn focus_ok(grid: Seq<Seq<ItemView>>, pos: (usize, usize)) -> bool {
    holds_item(grid, pos) || pos == (0usize, 0usize)
}

pub open spec fn gui_inv(g: GuiView) -> bool {
    &&& 1 <= g.tabs.len() <= usize::MAX
    &&& g.tab < g.tabs.len()
    &&& focus_ok(g.tabs[g.tab as int].grid, g.pos)
}

/// The last index of a sequence of length `n`, or 0 when it is empty.
pub open spec fn last_index(n: nat) -> int {
    if n == 0 {
        0
    } else {
        n - 1
    }
}

pub open spec fn clamp(x: int, hi: int) -> int {
    if x < 0 {
        0
    } else if x > hi {
        hi
    } else {
        x
    }
}

/// The row that `Down` (or `Up`) aims at.
pub open spec fn row_target(grid: Seq<Seq<ItemView>>, pos: (usize, usize), down: bool) -> usize {
    clamp(if down { pos.0 + 1 } else { pos.0 - 1 }, last_index(grid.len())) as usize
}

/// A vertical move: taken only where the target row has an item in the
/// focused column.
pub open spec fn row_move(grid: Seq<Seq<ItemView>>, pos: (usize, usize), down: bool) -> (usize, usize) {
    let target = (row_target(grid, pos, down), pos.1);
    if holds_item(grid, target) {
        target
    } else {
        pos
    }
}

/// A horizontal move: the column is clamped to the focused row, or reset to 0
/// where that row does not exist.
pub open spec fn column_move(grid: Seq<Seq<ItemView>>, pos: (usize, usize), right: bool) -> (
    usize,
    usize,
) {
    if pos.0 < grid.len() {
        (
            pos.0,
            clamp(
                if right { pos.1 + 1 } else { pos.1 - 1 },
                last_index(grid[pos.0 as int].len()),
            ) as usize,
        )
    } else {
        (pos.0, 0)
    }
}

/// The tab reached from `tab` by one step forward or back, among `n` tabs.
pub open spec fn tab_move(n: int, tab: usize, next: bool) -> usize {
    clamp(if next { tab + 1 } else { tab - 1 }, n - 1) as usize
}

pub open spec fn quiet() -> StepView {
    StepView { redraw_tabs: false, redraw_items: false, event: None }
}

/// Activating the focused item.
pub open spec fn press_step(g: GuiView) -> (GuiView, StepView) {
    let grid = g.tabs[g.tab as int].grid;
    let (row, col) = g.pos;
    if holds_item(grid, g.pos) {
        match grid[row as int][col as int] {
            ItemView::StatefulButton(label, state, id) => {
                let line = grid[row as int].update(col as int, ItemView::StatefulButton(label, !state, id));
                let tab = TabView { name: g.tabs[g.tab as int].name, grid: grid.update(row as int, line) };
                (
                    GuiView { tabs: g.tabs.update(g.tab as int, tab), ..g },
                    StepView {
                        redraw_tabs: false,
                        redraw_items: true,
                        event: Some(GuiEventView::StatefulButtonChange(label, !state, id)),
                    },
                )
            },
            ItemView::StatelessButton(label, id) => (
                g,
                StepView {
                    redraw_tabs: false,
                    redraw_items: false,
                    event: Some(GuiEventView::StatelessButtonPress(label, id)),
                },
            ),
            ItemView::Text(_) => (g, quiet()),
        }
    } else {
        (g, quiet())
    }
}

/// One directional or activation input, not discarded.
pub open spec fn hid_step(g: GuiView, h: HidEvent) -> (GuiView, StepView) {
    let grid = g.tabs[g.tab as int].grid;
    match h {
        HidEvent::Quit => (
            g,
            StepView { redraw_tabs: false, redraw_items: false, event: Some(GuiEventView::Quit) },
        ),
        HidEvent::ButtonPress => press_step(g),
        HidEvent::NextTab | HidEvent::PreviousTab => {
            let t = tab_move(g.tabs.len() as int, g.tab, h == HidEvent::NextTab);
            (
                GuiView { tab: t, pos: (0, 0), ..g },
                StepView {
                    redraw_tabs: true,
                    redraw_items: true,
                    event: Some(GuiEventView::TabChanged(g.tabs[t as int].name)),
                },
            )
        },
        HidEvent::Up | HidEvent::Down => {
            let down = h == HidEvent::Down;
            (
                GuiView { pos: row_move(grid, g.pos, down), ..g },
                StepView {
                    redraw_tabs: false,
                    redraw_items: holds_item(grid, (row_target(grid, g.pos, down), g.pos.1)),
                    event: None,
                },
            )
        },
        HidEvent::Left | HidEvent::Right => (
            GuiView { pos: column_move(grid, g.pos, h == HidEvent::Right), ..g },
            StepView { redraw_tabs: false, redraw_items: true, event: None },
        ),
    }
}

/// One iteration of the engine on at most one input. While input is
/// discarded, only `Refresh` has an effect.
pub open spec fn step_spec(g: GuiView, input: Option<RendererEvent>) -> (GuiView, StepView) {
    match input {
        None => (g, quiet()),
        Some(RendererEvent::Refresh) => (
            g,
            StepView { redraw_tabs: true, redraw_items: true, event: None },
        ),
        Some(RendererEvent::WindowClosed) => if g.ignore_hid {
            (g, quiet())
        } else {
            (
                g,
                StepView {
                    redraw_tabs: false,
                    redraw_items: false,
                    event: Some(GuiEventView::Quit),
                },
            )
        },
        Some(RendererEvent::Hid(h)) => if g.ignore_hid {
            (g, quiet())
        } else {
            hid_step(g, h)
        },
    }
}

/// Relies on anyhow::Error as the error type that renderers report; the
/// engine passes it on without looking inside.
#[verifier::external_type_specification]
#[verifier::external_body]
pub struct ExAnyhowError(anyhow::Error);

/// Relies on std::sync::mpsc::Receiver as the channel on which a renderer
/// delivers its events; the engine never reads it.
#[verifier::external_type_specification]
#[verifier::external_body]
#[verifier::reject_recursive_types(T)]
pub struct ExReceiver<T>(std::sync::mpsc::Receiver<T>);

/// A drawing backend.
pub trait Renderer {
    /// Draws the tab bar; `names` starts at the focused tab.
    fn draw_tab_header(&mut self, names: &[&str], colors: &ColorPalette) -> Result<
        (),
        anyhow::Error,
    >;

    /// Draws the focused tab's grid, highlighting `selected_item_idx`.
    fn draw_items(
        &mut self,
        items: &Vec<Vec<Item>>,
        colors: &ColorPalette,
        selected_item_idx: (usize, usize),
    ) -> Result<(), anyhow::Error>;

    /// The channel of events this backend produces, if it produces any.
    fn get_event(&self) -> Option<std::sync::mpsc::Receiver<RendererEvent>>;

    /// Maintenance between iterations; draws nothing.
    fn tick(&mut self);
}

/// The engine: it owns the layout and the focus, and turns one
/// input at a time into a new state, what to redraw and an event.
pub struct Gui {
    layout: Layout,
    colors: ColorPalette,
    tab_pos: usize,
    item_pos: (usize, usize),
    ignore_hid: bool,
}

impl View for Gui {
    type V = GuiView;

    closed spec fn view(&self) -> GuiView {
        GuiView {
            tabs: self.layout@,
            tab: self.tab_pos,
            pos: self.item_pos,
            ignore_hid: self.ignore_hid,
        }
    }
}

/// The engine as it starts on `tabs`.
pub open spec fn initial(tabs: Seq<TabView>) -> GuiView {
    GuiView { tabs, tab: 0, pos: (0, 0), ignore_hid: false }
}

impl Gui {
    pub open spec fn wf(&self) -> bool {
        gui_inv(self@)
    }

    pub closed spec fn palette(&self) -> ColorPalette {
        self.colors
    }

    /// An engine on `layout`, focused on the first item of the first tab,
    /// with the default palette.
    pub fn new(layout: Layout) -> (r: Gui)
        requires
            layout@.len() >= 1,
        ensures
            r@ == initial(layout@),
            is_default_palette(r.palette()),
            r.wf(),
    {
        proof {
            layout.lemma_len_fits();
        }
        Gui {
            layout,
            colors: ColorPalette::default(),
            tab_pos: 0,
            item_pos: (0, 0),
            ignore_hid: false,
        }
    }

    pub fn colors(&self) -> (r: &ColorPalette)
        ensures
            *r == self.palette(),
    {
        &self.colors
    }

    /// While `val` holds, directional and activation input is discarded.
    pub fn set_ignore_hid(&mut self, val: bool)
        requires
            old(self).wf(),
        ensures
            final(self)@ == (GuiView { ignore_hid: val, ..old(self)@ }),
            final(self).palette() == old(self).palette(),
            final(self).wf(),
    {
        self.ignore_hid = val;
    }

    /// The names of the tabs from the focused one onward.
    pub fn header_names(&self) -> (r: Vec<&str>)
        requires
            self.wf(),
        ensures
            r@.len() == self@.tabs.len() - self@.tab,
            forall|i: int|
                0 <= i < r@.len() ==> (#[trigger] r@[i])@ == self@.tabs[self@.tab + i].name,
    {
        let all = self.layout.tab_names();
        let mut names: Vec<&str> = Vec::new();
        let mut i: usize = self.tab_pos;
        while i < all.len()
            invariant
                self.tab_pos <= i <= all@.len(),
                all@.len() == self@.tabs.len(),
                forall|j: int| 0 <= j < all@.len() ==> (#[trigger] all@[j])@ == self@.tabs[j].name,
                names@.len() == i - self.tab_pos,
                forall|j: int|
                    0 <= j < names@.len() ==> (#[trigger] names@[j])@ == self@.tabs[self@.tab + j].name,
            decreases all@.len() - i,
        {
            names.push(all[i]);
            i += 1;
        }
        names
    }

    /// The grid of the focused tab.
    pub fn current_items(&self) -> (r: &Vec<Vec<Item>>)
        requires
            self.wf(),
        ensures
            grid_view(r@) == self@.tabs[self@.tab as int].grid,
    {
        let tab = self.layout.tab(self.tab_pos).unwrap();
        tab.items()
    }

    /// Redraws the tab bar from the focused tab onward where `tabs` holds,
    /// then the focused tab's grid where `items` holds. The first failure of
    /// the renderer ends the call and is returned.
    pub fn draw<R: Renderer>(&self, renderer: &mut R, tabs: bool, items: bool) -> (r: Result<
        (),
        anyhow::Error,
    >)
        requires
            self.wf(),
        ensures
            !tabs && !items ==> r.is_ok(),
    {
        if tabs {
            let names = self.header_names();
            let drawn = renderer.draw_tab_header(names.as_slice(), &self.colors);
            if drawn.is_err() {
                return drawn;
            }
        }
        if items {
            let drawn = renderer.draw_items(self.current_items(), &self.colors, self.item_pos);
            if drawn.is_err() {
                return drawn;
            }
        }
        Ok(())
    }

    /// One iteration of the engine on at most one input, with the redraws it
    /// calls for: the event for the caller, if any, or the renderer's first
    /// failure. The state moves on either way.
    pub fn process<R: Renderer>(&mut self, renderer: &mut R, input: Option<RendererEvent>) -> (r:
        Result<Option<GuiEvent>, anyhow::Error>)
        requires
            old(self).wf(),
        ensures
            final(self)@ == step_spec(old(self)@, input).0,
            final(self).palette() == old(self).palette(),
            final(self).wf(),
            r matches Ok(e) ==> (match e {
                Some(ev) => Some(ev@),
                None => None,
            }) == step_spec(old(self)@, input).1.event,
            !step_spec(old(self)@, input).1.redraw_tabs && !step_spec(
                old(self)@,
                input,
            ).1.redraw_items ==> r.is_ok(),
    {
        let step = self.update(input);
        match self.draw(renderer, step.redraw_tabs, step.redraw_items) {
            Ok(()) => Ok(step.event),
            Err(e) => Err(e),
        }
    }

    /// Ends the engine's life and hands out its state.
    pub fn exit_dumping_state(self) -> (r: GuiState)
        ensures
            r@ == snapshot(self@),
    {
        GuiState { layout: self.layout, tab_pos: self.tab_pos, item_pos: self.item_pos }
    }

    /// Moves to the next or previous tab, staying put at either end.
    fn change_tab(&mut self, next: bool) -> (r: Step)
        requires
            old(self).wf(),
        ensures
            (final(self)@, r@) == hid_step(
                old(self)@,
                if next { HidEvent::NextTab } else { HidEvent::PreviousTab },
            ),
            final(self).palette() == old(self).palette(),
    {
        let t = self.tab_pos;
        proof {
            self.layout.lemma_len_fits();
        }
        let new_tab: usize = if next {
            if self.layout.tab(t + 1).is_some() {
                t + 1
            } else {
                t
            }
        } else if t == 0 {
            0
        } else {
            t - 1
        };
        let name = match self.layout.tab(new_tab) {
            Some(tab) => tab.name().to_owned(),
            None => String::new(),
        };
        self.tab_pos = new_tab;
        self.item_pos = (0, 0);
        Step { redraw_tabs: true, redraw_items: true, event: Some(GuiEvent::TabChanged(name)) }
    }

    /// Moves the focus one row down or up, where that row has an item in
    /// the focused column.
    fn move_row(&mut self, down: bool) -> (r: Step)
        requires
            old(self).wf(),
        ensures
            (final(self)@, r@) == hid_step(
                old(self)@,
                if down { HidEvent::Down } else { HidEvent::Up },
            ),
            final(self).palette() == old(self).palette(),
    {
        let (row, col) = self.item_pos;
        let ghost grid_v = self@.tabs[self@.tab as int].grid;
        let mut redraw_items = false;
        if let Some(tab) = self.layout.tab(self.tab_pos) {
            let grid = tab.items();
            let n = grid.len();
            let max_row: usize = if n == 0 {
                0
            } else {
                n - 1
            };
            let target: usize = if down {
                if row >= max_row {
                    max_row
                } else {
                    row + 1
                }
            } else if row == 0 {
                0
            } else if row - 1 > max_row {
                max_row
            } else {
                row - 1
            };
            assert(target == row_target(grid_v, (row, col), down));
            if target < n {
                assert(grid_v[target as int] == line_view(grid@[target as int]@));
                if col < grid[target].len() {
                    self.item_pos = (target, col);
                    redraw_items = true;
                }
            }
        }
        Step { redraw_tabs: false, redraw_items, event: None }
    }

    /// Moves the focus one column right or left, clamped to the focused row.
    fn move_column(&mut self, right: bool) -> (r: Step)
        requires
            old(self).wf(),
        ensures
            (final(self)@, r@) == hid_step(
                old(self)@,
                if right { HidEvent::Right } else { HidEvent::Left },
            ),
            final(self).palette() == old(self).palette(),
    {
        let (row, col) = self.item_pos;
        let ghost grid_v = self@.tabs[self@.tab as int].grid;
        if let Some(tab) = self.layout.tab(self.tab_pos) {
            let grid = tab.items();
            let new_col: usize = if row < grid.len() {
                assert(grid_v[row as int] == line_view(grid@[row as int]@));
                let m = grid[row].len();
                let max_col: usize = if m == 0 {
                    0
                } else {
                    m - 1
                };
                if right {
                    if col >= max_col {
                        max_col
                    } else {
                        col + 1
                    }
                } else if col == 0 {
                    0
                } else if col - 1 > max_col {
                    max_col
                } else {
                    col - 1
                }
            } else {
                0
            };
            self.item_pos = (row, new_col);
        }
        Step { redraw_tabs: false, redraw_items: true, event: None }
    }

    /// One iteration of the engine on at most one input: the new state, what
    /// to redraw, and the event for the caller, if any.
    pub fn update(&mut self, input: Option<RendererEvent>) -> (r: Step)
        requires
            old(self).wf(),
        ensures
            (final(self)@, r@) == step_spec(old(self)@, input),
            final(self).palette() == old(self).palette(),
            final(self).wf(),
    {
        let r = match input {
            None => Step { redraw_tabs: false, redraw_items: false, event: None },
            Some(RendererEvent::Refresh) => Step {
                redraw_tabs: true,
                redraw_items: true,
                event: None,
            },
            Some(RendererEvent::WindowClosed) => if self.ignore_hid {
                Step { redraw_tabs: false, redraw_items: false, event: None }
            } else {
                Step { redraw_tabs: false, redraw_items: false, event: Some(GuiEvent::Quit) }
            },
            Some(RendererEvent::Hid(h)) => if self.ignore_hid {
                Step { redraw_tabs: false, redraw_items: false, event: None }
            } else {
                match h {
                    HidEvent::Quit => Step {
                        redraw_tabs: false,
                        redraw_items: false,
                        event: Some(GuiEvent::Quit),
                    },
                    HidEvent::ButtonPress => self.press(),
                    HidEvent::NextTab => self.change_tab(true),
                    HidEvent::PreviousTab => self.change_tab(false),
                    HidEvent::Down => self.move_row(true),
                    HidEvent::Up => self.move_row(false),
                    HidEvent::Right => self.move_column(true),
                    HidEvent::Left => self.move_column(false),
                }
            },
        };
        proof {
            lemma_step_keeps_inv(old(self)@, input);
        }
        r
    }

    /// Activates the focused item.
    fn press(&mut self) -> (r: Step)
        requires
            old(self).wf(),
        ensures
            (final(self)@, r@) == press_step(old(self)@),
            final(self).palette() == old(self).palette(),
    {
        let t = self.tab_pos;
        let (row, col) = self.item_pos;
        let ghost g = self@;
        let mut event: Option<GuiEvent> = None;
        let mut redraw_items = false;
        if let Some(tab) = self.layout.tab_mut(t) {
            let grid = tab.items_mut();
            if row < grid.len() && col < grid[row].len() {
                assert(grid_view(grid@)[row as int] == line_view(grid@[row as int]@));
                let replacement: Option<Item> = match &grid[row][col] {
                    Item::StatefulButton(text, state, id) => {
                        event = Some(GuiEvent::StatefulButtonChange(text.clone(), !*state, *id));
                        redraw_items = true;
                        Some(Item::StatefulButton(text.clone(), !*state, *id))
                    },
                    Item::StatelessButton(text, id) => {
                        event = Some(GuiEvent::StatelessButtonPress(text.clone(), *id));
                        None
                    },
                    Item::Text(_) => None,
                };
                if let Some(item) = replacement {
                    let ghost old_grid = grid@;
                    let line = &mut grid[row];
                    line.set(col, item);
                    assert(line_view(line@) =~= line_view(old_grid[row as int]@).update(col as int, item@));
                    assert(grid_view(grid@) =~= grid_view(old_grid).update(row as int, line_view(line@)));
                }
            }
        }
        let r = Step { redraw_tabs: false, redraw_items, event };
        proof {
            assert(self@.tabs =~= press_step(g).0.tabs);
        }
        r
    }
}

/// What the engine hands out when it ends.
pub open spec fn snapshot(g: GuiView) -> GuiStateView {
    GuiStateView { tabs: g.tabs, tab: g.tab, pos: g.pos }
}

/// The engine's state at the end of its life.
pub struct GuiState {
    layout: Layout,
    tab_pos: usize,
    item_pos: (usize, usize),
}

pub struct GuiStateView {
    pub tabs: Seq<TabView>,
    pub tab: usize,
    pub pos: (usize, usize),
}

impl View for GuiState {
    type V = GuiStateView;

    closed spec fn view(&self) -> GuiStateView {
        GuiStateView { tabs: self.layout@, tab: self.tab_pos, pos: self.item_pos }
    }
}

impl GuiState {
    pub fn layout(&self) -> (r: &Layout)
        ensures
            r@ == self@.tabs,
    {
        &self.layout
    }

    /// The index of the tab that had the focus.
    pub fn tab_index(&self) -> (r: usize)
        ensures
            r == self@.tab,
    {
        self.tab_pos
    }

    /// The (row, column) that had the focus.
    pub fn item_position(&self) -> (r: (usize, usize))
        ensures
            r == self@.pos,
    {
        self.item_pos
    }
}

/// Every step keeps the engine's state well formed: one tab or more, the
/// focused tab among them, and the focus on an item or at the origin.
pub proof fn lemma_step_keeps_inv(g: GuiView, input: Option<RendererEvent>)
    requires
        gui_inv(g),
    ensures
        gui_inv(step_spec(g, input).0),
{
    let grid = g.tabs[g.tab as int].grid;
    let g2 = step_spec(g, input).0;
    if let Some(RendererEvent::Hid(h)) = input {
        if !g.ignore_hid {
            match h {
                HidEvent::ButtonPress => {
                    if holds_item(grid, g.pos) {
                        if let ItemView::StatefulButton(label, state, id) = grid[g.pos.0 as int][g.pos.1 as int] {
                            assert(g2.tabs[g.tab as int].grid.len() == grid.len());
                            assert(g2.tabs[g.tab as int].grid[g.pos.0 as int].len() == grid[g.pos.0 as int].len());
                        }
                    }
                },
                HidEvent::Left | HidEvent::Right => {
                    lemma_column_move_keeps_focus(grid, g.pos, h == HidEvent::Right);
                },
                _ => {},
            }
        }
    }
}

/// A horizontal move keeps the focus on an item or at the origin.
pub proof fn lemma_column_move_keeps_focus(grid: Seq<Seq<ItemView>>, pos: (usize, usize), right: bool)
    requires
        focus_ok(grid, pos),
    ensures
        focus_ok(grid, column_move(grid, pos, right)),
{
}

/// The engine after each input of `inputs` in turn.
pub open spec fn run(g: GuiView, inputs: Seq<RendererEvent>) -> GuiView
    decreases inputs.len(),
{
    if inputs.len() == 0 {
        g
    } else {
        run(step_spec(g, Some(inputs[0])).0, inputs.drop_first())
    }
}

/// Whatever inputs arrive, the focus names an existing item or rests at
/// (0, 0); on an empty grid it is (0, 0), and where the first row has an item
/// it always names an item.
pub proof fn lemma_focus_in_bounds(g: GuiView, inputs: Seq<RendererEvent>)
    requires
        gui_inv(g),
    ensures
        gui_inv(run(g, inputs)),
        ({
            let g2 = run(g, inputs);
            let grid = g2.tabs[g2.tab as int].grid;
            &&& grid.len() == 0 ==> g2.pos == (0usize, 0usize)
            &&& grid.len() > 0 && grid[0].len() > 0 ==> holds_item(grid, g2.pos)
        }),
    decreases inputs.len(),
{
    if inputs.len() > 0 {
        lemma_step_keeps_inv(g, Some(inputs[0]));
        lemma_focus_in_bounds(step_spec(g, Some(inputs[0])).0, inputs.drop_first());
    }
}

/// At the first tab "previous tab" stays there, and at the last tab "next
/// tab" stays there; either way the event names the tab that keeps the
/// focus. Elsewhere each moves by one, so every tab can be reached.
pub proof fn lemma_tab_bounds(g: GuiView)
    requires
        gui_inv(g),
        !g.ignore_hid,
    ensures
        ({
            let (g2, s) = step_spec(g, Some(RendererEvent::Hid(HidEvent::PreviousTab)));
            &&& g.tab == 0 ==> g2.tab == 0
            &&& g.tab > 0 ==> g2.tab == g.tab - 1
            &&& s.event == Some(GuiEventView::TabChanged(g.tabs[g2.tab as int].name))
        }),
        ({
            let (g2, s) = step_spec(g, Some(RendererEvent::Hid(HidEvent::NextTab)));
            &&& g.tab == g.tabs.len() - 1 ==> g2.tab == g.tab
            &&& g.tab < g.tabs.len() - 1 ==> g2.tab == g.tab + 1
            &&& s.event == Some(GuiEventView::TabChanged(g.tabs[g2.tab as int].name))
        }),
{
}

/// Activating a button with a state flips that state and nothing else, and
/// reports the new state with the button's label and id.
pub proof fn lemma_stateful_press(g: GuiView, label: Seq<char>, state: bool, id: u128)
    requires
        gui_inv(g),
        !g.ignore_hid,
        holds_item(g.tabs[g.tab as int].grid, g.pos),
        g.tabs[g.tab as int].grid[g.pos.0 as int][g.pos.1 as int] == ItemView::StatefulButton(
            label,
            state,
            id,
        ),
    ensures
        ({
            let (g2, s) = step_spec(g, Some(RendererEvent::Hid(HidEvent::ButtonPress)));
            &&& s.event == Some(GuiEventView::StatefulButtonChange(label, !state, id))
            &&& g2.tab == g.tab && g2.pos == g.pos && g2.ignore_hid == g.ignore_hid
            &&& g2.tabs[g.tab as int].grid[g.pos.0 as int][g.pos.1 as int]
                == ItemView::StatefulButton(label, !state, id)
            &&& g2.tabs.len() == g.tabs.len()
            &&& forall|t: int| #![trigger g2.tabs[t]] 0 <= t < g.tabs.len() ==> {
                &&& g2.tabs[t].name == g.tabs[t].name
                &&& g2.tabs[t].grid.len() == g.tabs[t].grid.len()
                &&& forall|row: int| #![trigger g2.tabs[t].grid[row]] 0 <= row < g.tabs[t].grid.len() ==> {
                    &&& g2.tabs[t].grid[row].len() == g.tabs[t].grid[row].len()
                    &&& forall|col: int| 0 <= col < g.tabs[t].grid[row].len() && (t, row, col) != (
                        g.tab as int,
                        g.pos.0 as int,
                        g.pos.1 as int,
                    ) ==> #[trigger] g2.tabs[t].grid[row][col] == g.tabs[t].grid[row][col]
                }
            }
        }),
{
}

/// Activating a button without state leaves the engine as it was and reports
/// the button's label and id.
pub proof fn lemma_stateless_press(g: GuiView, label: Seq<char>, id: u128)
    requires
        gui_inv(g),
        !g.ignore_hid,
        holds_item(g.tabs[g.tab as int].grid, g.pos),
        g.tabs[g.tab as int].grid[g.pos.0 as int][g.pos.1 as int] == ItemView::StatelessButton(
            label,
            id,
        ),
    ensures
        step_spec(g, Some(RendererEvent::Hid(HidEvent::ButtonPress))) == (
            g,
            StepView {
                redraw_tabs: false,
                redraw_items: false,
                event: Some(GuiEventView::StatelessButtonPress(label, id)),
            },
        ),
{
}

/// A horizontal move on a row with items always lands on one of them; from a
/// column past the row's end it lands on the row's last item.
pub proof fn lemma_column_clamp(grid: Seq<Seq<ItemView>>, pos: (usize, usize), right: bool)
    requires
        pos.0 < grid.len(),
        grid[pos.0 as int].len() > 0,
    ensures
        holds_item(grid, column_move(grid, pos, right)),
        pos.1 >= grid[pos.0 as int].len() ==> column_move(grid, pos, right) == (
            pos.0,
            (grid[pos.0 as int].len() - 1) as usize,
        ),
{
}

/// The state handed out by an engine that received no input is the one it
/// started with: the first tab, at (0, 0).
pub proof fn lemma_fresh_snapshot(tabs: Seq<TabView>)
    requires
        tabs.len() >= 1,
    ensures
        snapshot(initial(tabs)) == (GuiStateView { tabs, tab: 0, pos: (0, 0) }),
{
}

} // verus!
