use sgui::layout::{Item, Layout};
use sgui::{ColorPalette, Gui, GuiEvent, HidEvent, Renderer, RendererEvent};
use std::sync::mpsc::Receiver;

struct Recorder {
    headers: Vec<Vec<String>>,
    grids: Vec<(usize, (usize, usize))>,
    fail: bool,
}

impl Recorder {
    fn new() -> Recorder {
        Recorder { headers: Vec::new(), grids: Vec::new(), fail: false }
    }
}

impl Renderer for Recorder {
    fn draw_tab_header(&mut self, names: &[&str], _colors: &ColorPalette) -> anyhow::Result<()> {
        if self.fail {
            return Err(anyhow::Error::msg("header failed"));
        }
        self.headers.push(names.iter().map(|n| n.to_string()).collect());
        Ok(())
    }
    fn draw_items(
        &mut self,
        items: &Vec<Vec<Item>>,
        _colors: &ColorPalette,
        selected_item_idx: (usize, usize),
    ) -> anyhow::Result<()> {
        if self.fail {
            return Err(anyhow::Error::msg("items failed"));
        }
        self.grids.push((items.len(), selected_item_idx));
        Ok(())
    }
    fn get_event(&self) -> Option<Receiver<RendererEvent>> {
        None
    }
    fn tick(&mut self) {}
}

fn hid(h: HidEvent) -> Option<RendererEvent> {
    Some(RendererEvent::Hid(h))
}

fn two_tabs() -> Layout {
    Layout::builder()
        .tab("first")
        .line()
        .button_stateful("toggle", true, 1)
        .tab("second")
        .line()
        .text("hello")
        .build()
}

/// Rows of lengths 3, 1, 0, 2.
fn ragged() -> Layout {
    Layout::builder()
        .tab("ragged")
        .line()
        .text("a")
        .button_stateless("b", 7)
        .button_stateful("c", false, 8)
        .line()
        .text("d")
        .line()
        .line()
        .text("e")
        .text("f")
        .tab("other")
        .build()
}

fn item_exists(gui_layout: &Layout, tab: usize, pos: (usize, usize)) -> bool {
    let grid = gui_layout.tab(tab).unwrap().items();
    pos.0 < grid.len() && pos.1 < grid[pos.0].len()
}

#[test]
fn end_to_end_two_tabs() {
    let mut gui = Gui::new(two_tabs());
    let step = gui.update(hid(HidEvent::ButtonPress));
    assert_eq!(step.event, Some(GuiEvent::StatefulButtonChange("toggle".to_string(), false, 1)));
    assert!(step.redraw_items);
    let step = gui.update(hid(HidEvent::NextTab));
    assert_eq!(step.event, Some(GuiEvent::TabChanged("second".to_string())));
    assert!(step.redraw_tabs && step.redraw_items);
    let step = gui.update(hid(HidEvent::Quit));
    assert_eq!(step.event, Some(GuiEvent::Quit));
    let state = gui.exit_dumping_state();
    assert_eq!(state.tab_index(), 1);
    assert_eq!(state.item_position(), (0, 0));
    let grid = state.layout().tab(0).unwrap().items();
    assert!(matches!(&grid[0][0], Item::StatefulButton(_, false, 1)));
}

#[test]
fn snapshot_after_construction() {
    let gui = Gui::new(two_tabs());
    let state = gui.exit_dumping_state();
    assert_eq!(state.tab_index(), 0);
    assert_eq!(state.item_position(), (0, 0));
    assert_eq!(state.layout().tab_names(), vec!["first", "second"]);
}

#[test]
fn previous_tab_at_first_tab_stays() {
    let mut gui = Gui::new(two_tabs());
    let step = gui.update(hid(HidEvent::PreviousTab));
    assert_eq!(step.event, Some(GuiEvent::TabChanged("first".to_string())));
    assert_eq!(gui.exit_dumping_state().tab_index(), 0);
}

#[test]
fn next_tab_at_last_tab_stays() {
    let mut gui = Gui::new(two_tabs());
    gui.update(hid(HidEvent::NextTab));
    let step = gui.update(hid(HidEvent::NextTab));
    assert_eq!(step.event, Some(GuiEvent::TabChanged("second".to_string())));
    assert_eq!(gui.exit_dumping_state().tab_index(), 1);
}

#[test]
fn last_tab_is_reachable() {
    let layout = Layout::builder().tab("a").tab("b").tab("c").build();
    let mut gui = Gui::new(layout);
    gui.update(hid(HidEvent::NextTab));
    gui.update(hid(HidEvent::NextTab));
    assert_eq!(gui.exit_dumping_state().tab_index(), 2);
}

#[test]
fn tab_change_resets_focus() {
    let mut gui = Gui::new(ragged());
    gui.update(hid(HidEvent::Right));
    gui.update(hid(HidEvent::NextTab));
    gui.update(hid(HidEvent::PreviousTab));
    assert_eq!(gui.exit_dumping_state().item_position(), (0, 0));
}

#[test]
fn stateful_press_toggles_only_that_button() {
    let mut gui = Gui::new(ragged());
    gui.update(hid(HidEvent::Right));
    gui.update(hid(HidEvent::Right));
    let step = gui.update(hid(HidEvent::ButtonPress));
    assert_eq!(step.event, Some(GuiEvent::StatefulButtonChange("c".to_string(), true, 8)));
    let step = gui.update(hid(HidEvent::ButtonPress));
    assert_eq!(step.event, Some(GuiEvent::StatefulButtonChange("c".to_string(), false, 8)));
    gui.update(hid(HidEvent::ButtonPress));
    let state = gui.exit_dumping_state();
    let grid = state.layout().tab(0).unwrap().items();
    assert!(matches!(&grid[0][0], Item::Text(t) if t == "a"));
    assert!(matches!(&grid[0][1], Item::StatelessButton(t, 7) if t == "b"));
    assert!(matches!(&grid[0][2], Item::StatefulButton(t, true, 8) if t == "c"));
    assert!(matches!(&grid[1][0], Item::Text(t) if t == "d"));
}

#[test]
fn stateless_press_reports_id_and_changes_nothing() {
    let mut gui = Gui::new(ragged());
    gui.update(hid(HidEvent::Right));
    let step = gui.update(hid(HidEvent::ButtonPress));
    assert_eq!(step.event, Some(GuiEvent::StatelessButtonPress("b".to_string(), 7)));
    assert!(!step.redraw_items && !step.redraw_tabs);
    let state = gui.exit_dumping_state();
    assert_eq!(state.item_position(), (0, 1));
    let grid = state.layout().tab(0).unwrap().items();
    assert!(matches!(&grid[0][1], Item::StatelessButton(t, 7) if t == "b"));
    assert!(matches!(&grid[0][2], Item::StatefulButton(_, false, 8)));
}

#[test]
fn press_on_text_does_nothing() {
    let mut gui = Gui::new(ragged());
    let step = gui.update(hid(HidEvent::ButtonPress));
    assert_eq!(step.event, None);
    assert!(!step.redraw_items);
}

#[test]
fn right_clamps_at_row_end() {
    let mut gui = Gui::new(ragged());
    for _ in 0..5 {
        gui.update(hid(HidEvent::Right));
    }
    assert_eq!(gui.exit_dumping_state().item_position(), (0, 2));
}

#[test]
fn left_clamps_at_zero() {
    let mut gui = Gui::new(ragged());
    let step = gui.update(hid(HidEvent::Left));
    assert!(step.redraw_items);
    assert_eq!(gui.exit_dumping_state().item_position(), (0, 0));
}

#[test]
fn down_into_shorter_row_is_refused() {
    let mut gui = Gui::new(ragged());
    gui.update(hid(HidEvent::Right));
    gui.update(hid(HidEvent::Right));
    let step = gui.update(hid(HidEvent::Down));
    assert!(!step.redraw_items);
    assert_eq!(gui.exit_dumping_state().item_position(), (0, 2));
}

#[test]
fn down_stops_above_empty_row() {
    let mut gui = Gui::new(ragged());
    let step = gui.update(hid(HidEvent::Down));
    assert!(step.redraw_items);
    let step = gui.update(hid(HidEvent::Down));
    assert!(!step.redraw_items);
    assert_eq!(gui.exit_dumping_state().item_position(), (1, 0));
}

#[test]
fn up_at_first_row_stays() {
    let mut gui = Gui::new(ragged());
    let step = gui.update(hid(HidEvent::Up));
    assert!(step.redraw_items);
    assert_eq!(gui.exit_dumping_state().item_position(), (0, 0));
}

#[test]
fn directional_moves_stay_on_items() {
    let moves = [
        HidEvent::Right,
        HidEvent::Down,
        HidEvent::Right,
        HidEvent::Right,
        HidEvent::Down,
        HidEvent::Down,
        HidEvent::Left,
        HidEvent::Up,
        HidEvent::Right,
        HidEvent::Down,
        HidEvent::Left,
        HidEvent::Left,
        HidEvent::Up,
        HidEvent::Up,
        HidEvent::Up,
    ];
    for n in 0..=moves.len() {
        let mut gui = Gui::new(ragged());
        for m in &moves[..n] {
            let copy = match m {
                HidEvent::Up => HidEvent::Up,
                HidEvent::Down => HidEvent::Down,
                HidEvent::Left => HidEvent::Left,
                _ => HidEvent::Right,
            };
            gui.update(hid(copy));
        }
        let state = gui.exit_dumping_state();
        assert!(item_exists(state.layout(), 0, state.item_position()));
    }
}

#[test]
fn empty_tab_keeps_origin() {
    let layout = Layout::builder().tab("empty").build();
    let mut gui = Gui::new(layout);
    for m in [HidEvent::Down, HidEvent::Right, HidEvent::Up, HidEvent::Left, HidEvent::ButtonPress] {
        let step = gui.update(hid(m));
        assert_eq!(step.event, None);
    }
    assert_eq!(gui.exit_dumping_state().item_position(), (0, 0));
}

#[test]
fn window_closed_quits() {
    let mut gui = Gui::new(two_tabs());
    let step = gui.update(Some(RendererEvent::WindowClosed));
    assert_eq!(step.event, Some(GuiEvent::Quit));
}

#[test]
fn refresh_redraws_everything() {
    let mut gui = Gui::new(two_tabs());
    let step = gui.update(Some(RendererEvent::Refresh));
    assert!(step.redraw_tabs && step.redraw_items);
    assert_eq!(step.event, None);
}

#[test]
fn no_input_does_nothing() {
    let mut gui = Gui::new(two_tabs());
    let step = gui.update(None);
    assert!(!step.redraw_tabs && !step.redraw_items);
    assert_eq!(step.event, None);
}

#[test]
fn ignored_input_is_discarded_but_refresh_redraws() {
    let mut gui = Gui::new(two_tabs());
    gui.set_ignore_hid(true);
    assert_eq!(gui.update(hid(HidEvent::ButtonPress)).event, None);
    assert_eq!(gui.update(hid(HidEvent::NextTab)).event, None);
    assert_eq!(gui.update(hid(HidEvent::Quit)).event, None);
    assert_eq!(gui.update(Some(RendererEvent::WindowClosed)).event, None);
    let step = gui.update(Some(RendererEvent::Refresh));
    assert!(step.redraw_tabs && step.redraw_items);
    gui.set_ignore_hid(false);
    assert_eq!(
        gui.update(hid(HidEvent::ButtonPress)).event,
        Some(GuiEvent::StatefulButtonChange("toggle".to_string(), false, 1))
    );
    let state = gui.exit_dumping_state();
    assert_eq!(state.tab_index(), 0);
}

#[test]
fn header_names_start_at_focused_tab() {
    let layout = Layout::builder().tab("a").tab("b").tab("c").build();
    let mut gui = Gui::new(layout);
    assert_eq!(gui.header_names(), vec!["a", "b", "c"]);
    gui.update(hid(HidEvent::NextTab));
    assert_eq!(gui.header_names(), vec!["b", "c"]);
    assert_eq!(gui.current_items().len(), 0);
}

#[test]
fn process_draws_what_changed() {
    let mut gui = Gui::new(two_tabs());
    let mut r = Recorder::new();
    gui.draw(&mut r, true, true).unwrap();
    assert_eq!(r.headers, vec![vec!["first".to_string(), "second".to_string()]]);
    assert_eq!(r.grids, vec![(1, (0, 0))]);
    let ev = gui.process(&mut r, hid(HidEvent::ButtonPress)).unwrap();
    assert_eq!(ev, Some(GuiEvent::StatefulButtonChange("toggle".to_string(), false, 1)));
    assert_eq!(r.headers.len(), 1);
    assert_eq!(r.grids.len(), 2);
    let ev = gui.process(&mut r, hid(HidEvent::NextTab)).unwrap();
    assert_eq!(ev, Some(GuiEvent::TabChanged("second".to_string())));
    assert_eq!(r.headers[1], vec!["second".to_string()]);
    assert_eq!(r.grids[2], (1, (0, 0)));
    assert_eq!(gui.process(&mut r, None).unwrap(), None);
    assert_eq!(r.grids.len(), 3);
}

#[test]
fn process_returns_draw_failure() {
    let mut gui = Gui::new(two_tabs());
    let mut r = Recorder::new();
    r.fail = true;
    assert!(gui.process(&mut r, Some(RendererEvent::Refresh)).is_err());
    assert!(gui.draw(&mut r, false, true).is_err());
    assert!(gui.draw(&mut r, false, false).is_ok());
    let ev = gui.process(&mut r, hid(HidEvent::Quit)).unwrap();
    assert_eq!(ev, Some(GuiEvent::Quit));
}

#[test]
fn default_palette_colors() {
    let p = ColorPalette::default();
    assert_eq!(p.tab_outline.as_tuple(), (255, 255, 255));
    assert_eq!(p.tab_text.as_tuple(), (255, 255, 255));
    assert_eq!(p.tab_bg.as_tuple(), (0, 0, 0));
    assert_eq!(p.tab_accent.as_tuple(), (255, 0, 0));
    assert_eq!(p.item_outline.as_tuple(), (255, 0, 0));
    assert_eq!(p.item_text.as_tuple(), (255, 255, 255));
    assert_eq!(p.item_bg.as_tuple(), (0, 0, 0));
    assert_eq!(p.item_accent.as_tuple(), (255, 0, 0));
    let gui = Gui::new(two_tabs());
    assert_eq!(gui.colors().item_accent.as_tuple(), (255, 0, 0));
}
