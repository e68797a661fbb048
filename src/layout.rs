use vstd::prelude::*;

verus! {

/// A leaf element of a tab's grid.
#[derive(Debug)]
pub enum Item {
    Text(String),
    StatefulButton(String, bool, u128),
    StatelessButton(String, u128),
}

/// What an item is, with its label as a sequence of characters.
pub enum ItemView {
    Text(Seq<char>),
    StatefulButton(Seq<char>, bool, u128),
    StatelessButton(Seq<char>, u128),
}

impl View for Item {
    type V = ItemView;

    open spec fn view(&self) -> ItemView {
        match self {
            Item::Text(s) => ItemView::Text(s@),
            Item::StatefulButton(s, state, id) => ItemView::StatefulButton(s@, *state, *id),
            Item::StatelessButton(s, id) => ItemView::StatelessButton(s@, *id),
        }
    }
}

pub open spec fn line_view(line: Seq<Item>) -> Seq<ItemView> {
    line.map_values(|i: Item| i@)
}

pub open spec fn grid_view(grid: Seq<Vec<Item>>) -> Seq<Seq<ItemView>> {
    grid.map_values(|l: Vec<Item>| line_view(l@))
}

/// A tab: its name and its ragged grid of lines.
pub struct TabView {
    pub name: Seq<char>,
    pub grid: Seq<Seq<ItemView>>,
}

#[derive(Debug)]
pub struct Layout {
    tabs: Vec<Tab>,
}

impl View for Layout {
    type V = Seq<TabView>;

    closed spec fn view(&self) -> Seq<TabView> {
        self.tabs@.map_values(|t: Tab| t@)
    }
}

impl Layout {
    /// The names of all tabs, in order.
    pub fn tab_names(&self) -> (r: Vec<&str>)
        ensures
            r@.len() == self@.len(),
            forall|i: int| 0 <= i < r@.len() ==> (#[trigger] r@[i])@ == self@[i].name,
    {
        let mut names: Vec<&str> = Vec::new();
        let mut i: usize = 0;
        while i < self.tabs.len()
            invariant
                i <= self.tabs@.len(),
                names@.len() == i,
                forall|j: int| 0 <= j < i ==> (#[trigger] names@[j])@ == self@[j].name,
            decreases self.tabs@.len() - i,
        {
            names.push(self.tabs[i].name());
            i += 1;
        }
        names
    }

    /// The index of the last tab (the number of tabs minus one).
    pub fn tab_count(&self) -> (r: i32)
        requires
            self@.len() <= i32::MAX,
        ensures
            r == self@.len() - 1,
    {
        let n = self.tabs.len() as i32;
        n - 1
    }

    /// The tab at `number`, if there is one.
    pub fn tab(&self, number: usize) -> (r: Option<&Tab>)
        ensures
            r.is_some() == (number < self@.len()),
            r.is_some() ==> r.unwrap()@ == self@[number as int],
    {
        if number < self.tabs.len() {
            Some(&self.tabs[number])
        } else {
            None
        }
    }

    /// Mutable access to the tab at `number`, if there is one.
    pub fn tab_mut(&mut self, number: usize) -> (r: Option<&mut Tab>)
        ensures
            r.is_some() == (number < old(self)@.len()),
            r.is_some() ==> (*r.unwrap())@ == old(self)@[number as int] && final(self)@
                == old(self)@.update(number as int, (*final(r.unwrap()))@),
            r.is_none() ==> final(self)@ == old(self)@,
    {
        if number < self.tabs.len() {
            Some(&mut self.tabs[number])
        } else {
            None
        }
    }

    /// A layout holds no more tabs than a `usize` counts.
    pub proof fn lemma_len_fits(&self)
        ensures
            self@.len() <= usize::MAX,
    {
        assert(self.tabs@.len() == self.tabs.len());
    }

    pub fn builder() -> (r: LayoutBuilder)
        ensures
            r@ == Seq::<TabView>::empty(),
    {
        LayoutBuilder::new()
    }
}

#[derive(Debug)]
pub struct Tab {
    name: String,
    item_grid: Vec<Vec<Item>>,
}

impl View for Tab {
    type V = TabView;

    closed spec fn view(&self) -> TabView {
        TabView { name: self.name@, grid: grid_view(self.item_grid@) }
    }
}

impl Tab {
    pub fn name(&self) -> (r: &str)
        ensures
            r@ == self@.name,
    {
        self.name.as_str()
    }

    pub fn items(&self) -> (r: &Vec<Vec<Item>>)
        ensures
            grid_view(r@) == self@.grid,
    {
        &self.item_grid
    }

    pub fn items_mut(&mut self) -> (r: &mut Vec<Vec<Item>>)
        ensures
            grid_view(r@) == old(self)@.grid,
            final(self)@ == (TabView { name: old(self)@.name, grid: grid_view(final(r)@) }),
    {
        &mut self.item_grid
    }
}

/// Collects finished tabs; `tab` opens the first one.
pub struct LayoutBuilder {
    tabs: Vec<Tab>,
}

impl View for LayoutBuilder {
    type V = Seq<TabView>;

    closed spec fn view(&self) -> Seq<TabView> {
        self.tabs@.map_values(|t: Tab| t@)
    }
}

/// A builder positioned inside a tab: the finished tabs, the open tab's name
/// and its finished lines.
pub struct TabBuilderView {
    pub tabs: Seq<TabView>,
    pub name: Seq<char>,
    pub lines: Seq<Seq<ItemView>>,
}

/// A builder positioned inside a line: as `TabBuilderView`, plus the items of
/// the open line.
pub struct LineBuilderView {
    pub tabs: Seq<TabView>,
    pub name: Seq<char>,
    pub lines: Seq<Seq<ItemView>>,
    pub items: Seq<ItemView>,
}

impl LayoutBuilder {
    pub fn new() -> (r: LayoutBuilder)
        ensures
            r@ == Seq::<TabView>::empty(),
    {
        let r = LayoutBuilder { tabs: Vec::new() };
        assert(r@ =~= Seq::<TabView>::empty());
        r
    }

    /// Opens a tab named `name`.
    pub fn tab(self, name: &str) -> (r: TabBuilder)
        ensures
            r@ == (TabBuilderView { tabs: self@, name: name@, lines: Seq::empty() }),
    {
        let r = TabBuilder { lines: Vec::new(), name: name.to_owned(), layout_builder: self };
        assert(grid_view(r.lines@) =~= Seq::<Seq<ItemView>>::empty());
        r
    }
}

pub struct TabBuilder {
    lines: Vec<Vec<Item>>,
    name: String,
    layout_builder: LayoutBuilder,
}

impl View for TabBuilder {
    type V = TabBuilderView;

    closed spec fn view(&self) -> TabBuilderView {
        TabBuilderView {
            tabs: self.layout_builder@,
            name: self.name@,
            lines: grid_view(self.lines@),
        }
    }
}

impl TabBuilder {
    /// Opens a line in the current tab.
    pub fn line(self) -> (r: LineBuilder)
        ensures
            r@ == (LineBuilderView {
                tabs: self@.tabs,
                name: self@.name,
                lines: self@.lines,
                items: Seq::empty(),
            }),
    {
        let r = LineBuilder { items: Vec::new(), tab_builder: self };
        assert(line_view(r.items@) =~= Seq::<ItemView>::empty());
        r
    }

    /// Closes the current tab and returns every tab as a layout.
    pub fn build(self) -> (r: Layout)
        ensures
            r@ == self@.tabs.push(TabView { name: self@.name, grid: self@.lines }),
    {
        let ghost old_view = self@;
        let mut tabs = self.layout_builder.tabs;
        let tab = Tab { item_grid: self.lines, name: self.name };
        tabs.push(tab);
        let r = Layout { tabs };
        assert(r@ =~= old_view.tabs.push(TabView { name: old_view.name, grid: old_view.lines }));
        r
    }

    /// Closes the current tab and opens a new one named `name`.
    pub fn tab(self, name: &str) -> (r: TabBuilder)
        ensures
            r@ == (TabBuilderView {
                tabs: self@.tabs.push(TabView { name: self@.name, grid: self@.lines }),
                name: name@,
                lines: Seq::empty(),
            }),
    {
        let ghost old_view = self@;
        let mut layout_builder = self.layout_builder;
        layout_builder.tabs.push(Tab { item_grid: self.lines, name: self.name });
        assert(layout_builder@ =~= old_view.tabs.push(
            TabView { name: old_view.name, grid: old_view.lines },
        ));
        layout_builder.tab(name)
    }
}

pub struct LineBuilder {
    items: Vec<Item>,
    tab_builder: TabBuilder,
}

impl View for LineBuilder {
    type V = LineBuilderView;

    closed spec fn view(&self) -> LineBuilderView {
        LineBuilderView {
            tabs: self.tab_builder@.tabs,
            name: self.tab_builder@.name,
            lines: self.tab_builder@.lines,
            items: line_view(self.items@),
        }
    }
}

impl LineBuilder {
    fn push_item(self, item: Item) -> (r: LineBuilder)
        ensures
            r@ == (LineBuilderView { items: self@.items.push(item@), ..self@ }),
    {
        let mut r = self;
        let ghost old_items = r.items@;
        r.items.push(item);
        assert(line_view(r.items@) =~= line_view(old_items).push(item@));
        r
    }

    /// Appends a text item to the current line.
    pub fn text(self, text: &str) -> (r: LineBuilder)
        ensures
            r@ == (LineBuilderView { items: self@.items.push(ItemView::Text(text@)), ..self@ }),
    {
        self.push_item(Item::Text(text.to_owned()))
    }

    /// Appends a button with an on/off state to the current line.
    pub fn button_stateful(self, text: &str, init_state: bool, id: u128) -> (r: LineBuilder)
        ensures
            r@ == (LineBuilderView {
                items: self@.items.push(ItemView::StatefulButton(text@, init_state, id)),
                ..self@
            }),
    {
        self.push_item(Item::StatefulButton(text.to_owned(), init_state, id))
    }

    /// Appends a button without state to the current line.
    pub fn button_stateless(self, text: &str, id: u128) -> (r: LineBuilder)
        ensures
            r@ == (LineBuilderView {
                items: self@.items.push(ItemView::StatelessButton(text@, id)),
                ..self@
            }),
    {
        self.push_item(Item::StatelessButton(text.to_owned(), id))
    }

    /// Closes the current line.
    pub fn endl(self) -> (r: TabBuilder)
        ensures
            r@ == (TabBuilderView {
                tabs: self@.tabs,
                name: self@.name,
                lines: self@.lines.push(self@.items),
            }),
    {
        let ghost old_view = self@;
        let mut tab_builder = self.tab_builder;
        let ghost old_lines = tab_builder.lines@;
        tab_builder.lines.push(self.items);
        assert(grid_view(tab_builder.lines@) =~= grid_view(old_lines).push(old_view.items));
        tab_builder
    }

    /// Closes the current line and opens a new one in the same tab.
    pub fn line(self) -> (r: LineBuilder)
        ensures
            r@ == (LineBuilderView {
                tabs: self@.tabs,
                name: self@.name,
                lines: self@.lines.push(self@.items),
                items: Seq::empty(),
            }),
    {
        self.endl().line()
    }

    /// Closes the current line and tab, and opens a new tab named `name`.
    pub fn tab(self, name: &str) -> (r: TabBuilder)
        ensures
            r@ == (TabBuilderView {
                tabs: self@.tabs.push(TabView { name: self@.name, grid: self@.lines.push(self@.items) }),
                name: name@,
                lines: Seq::empty(),
            }),
    {
        self.endl().tab(name)
    }

    /// Closes the current line and tab and returns every tab as a layout.
    pub fn build(self) -> (r: Layout)
        ensures
            r@ == self@.tabs.push(TabView { name: self@.name, grid: self@.lines.push(self@.items) }),
    {
        self.endl().build()
    }
}

} // verus!
