//! Layers: rows of cells, each with a widget and a share of the row's width.
use crate::action;
use crate::action::{Action, ActionView};
use crate::config::{ButtonConfig, ButtonConfigView};
use crate::key::StateKey;
use crate::number::Number;
use crate::store::{Store, StoreView};
use crate::widgets;
use crate::widgets::media::MediaProbe;
use crate::widgets::slider::{Slider, SliderBackend};
use crate::widgets::{
    Environment, EnvironmentView, LayerError, LayerFault, PressProbe, Widget, WidgetView,
};
use vstd::prelude::*;

verus! {

/// A part of the bar, in pixels along it.
#[derive(Clone, Copy, Debug, PartialEq, Eq, Structural)]
pub struct LayerArea {
    pub left: i32,
    pub width: i32,
    pub height: i32,
}

impl LayerArea {
    /// The whole bar.
    pub fn full(width: i32, height: i32) -> (r: LayerArea)
        ensures
            r == (LayerArea { left: 0, width, height }),
    {
        LayerArea { left: 0, width, height }
    }
}

/// A widget and its share of the row's width.
#[derive(Debug)]
pub struct Cell {
    pub stretch: usize,
    pub widget: Widget,
}

/// A cell, its texts taken as sequences.
pub struct CellView {
    pub stretch: usize,
    pub widget: WidgetView,
}

impl View for Cell {
    type V = CellView;

    open spec fn view(&self) -> CellView {
        CellView { stretch: self.stretch, widget: self.widget@ }
    }
}

/// What a list of cells holds.
pub open spec fn cells_view(cells: Seq<Cell>) -> Seq<CellView> {
    cells.map_values(|c: Cell| c@)
}

/// The width of the first `n` cells, in shares.
pub open spec fn start_of(cells: Seq<CellView>, n: int) -> nat
    decreases n,
{
    if n <= 0 {
        0
    } else {
        start_of(cells, n - 1) + cells[n - 1].stretch as nat
    }
}

/// The width of all cells, in shares.
pub open spec fn total_stretch(cells: Seq<CellView>) -> nat {
    start_of(cells, cells.len() as int)
}

/// The share that a cell's configuration asks for, at least one.
pub open spec fn stretch_of(cfg: ButtonConfigView) -> usize {
    match cfg.stretch {
        Some(s) => if s < 1 {
            1
        } else {
            s
        },
        None => 1,
    }
}

/// The shares that the first `n` cells of a configuration ask for.
pub open spec fn stretch_before(cfg: Seq<ButtonConfigView>, n: int) -> nat
    decreases n,
{
    if n <= 0 {
        0
    } else {
        stretch_before(cfg, n - 1) + stretch_of(cfg[n - 1]) as nat
    }
}

/// Whether the shares of a configuration's cells can be added up.
pub open spec fn fits(cfg: Seq<ButtonConfigView>) -> bool {
    stretch_before(cfg, cfg.len() as int) <= usize::MAX
}

/// What a layer's configuration holds.
pub open spec fn configs(cfg: Seq<ButtonConfig>) -> Seq<ButtonConfigView> {
    cfg.map_values(|c: ButtonConfig| c@)
}

/// The cells that the first `n` cells of a configuration describe, or why one of them
/// describes none.
pub open spec fn cells_of(cfg: Seq<ButtonConfigView>, env: EnvironmentView, n: int) -> Result<
    Seq<CellView>,
    LayerFault,
>
    decreases n,
{
    if n <= 0 {
        Ok(Seq::empty())
    } else {
        match cells_of(cfg, env, n - 1) {
            Err(e) => Err(e),
            Ok(cells) => match widgets::widget_of(cfg[n - 1], env) {
                Ok(widget) => Ok(cells.push(CellView { stretch: stretch_of(cfg[n - 1]), widget })),
                Err(e) => Err(e),
            },
        }
    }
}

/// The layer that a configuration describes, or why it describes none.
pub open spec fn layer_of(cfg: Seq<ButtonConfigView>, env: EnvironmentView) -> Result<
    Seq<CellView>,
    LayerFault,
> {
    if cfg.len() == 0 {
        Err(LayerFault::NoButtons)
    } else {
        cells_of(cfg, env, cfg.len() as int)
    }
}

/// A layer with a slider alone.
pub open spec fn slider_cells(backend: SliderBackend, now: u64) -> Seq<CellView> {
    seq![CellView { stretch: 1, widget: WidgetView::Slider(Slider::fresh(backend, now)) }]
}

/// Whether a layer shows the time.
pub open spec fn shows_time(cells: Seq<CellView>) -> bool {
    exists|i: int| 0 <= i < cells.len() && (#[trigger] cells[i]).widget is Clock
}

/// Whether a layer shows something that changes within a minute.
pub open spec fn ticks(cells: Seq<CellView>) -> bool {
    exists|i: int| 0 <= i < cells.len() && (#[trigger] cells[i]).widget.ticks()
}

/// Whether anything in a layer has to be drawn again.
pub open spec fn stale(cells: Seq<CellView>, store: StoreView) -> bool {
    exists|i: int| 0 <= i < cells.len() && (#[trigger] cells[i]).widget.stale(store)
}

/// Where a layer's first slider stands, or the number of cells where it has none.
pub open spec fn first_slider(cells: Seq<CellView>) -> nat
    decreases cells.len(),
{
    if cells.len() == 0 || cells[0].widget is Slider {
        0
    } else {
        1 + first_slider(cells.drop_first())
    }
}

/// The cells with the widget of cell `i` replaced.
pub open spec fn with_widget(cells: Seq<CellView>, i: int, widget: WidgetView) -> Seq<CellView> {
    cells.update(i, CellView { widget, ..cells[i] })
}

/// The cells after a press on cell `i`, and what the press asks for.
pub open spec fn pressed_at(
    cells: Seq<CellView>,
    i: int,
    store: StoreView,
    probe: PressProbe,
) -> (Seq<CellView>, Option<ActionView>) {
    if 0 <= i < cells.len() {
        let (widget, a) = cells[i].widget.pressed(store, probe);
        (with_widget(cells, i, widget), a)
    } else {
        (cells, None)
    }
}

/// The cells after a release of cell `i`, and what the release asks for.
pub open spec fn released_at(cells: Seq<CellView>, i: int) -> (Seq<CellView>, Option<ActionView>) {
    if 0 <= i < cells.len() {
        let (widget, a) = cells[i].widget.released();
        (with_widget(cells, i, widget), a)
    } else {
        (cells, None)
    }
}

/// The cells after a finger moved on cell `i`, and what that asks for.
pub open spec fn dragged_at(
    cells: Seq<CellView>,
    i: int,
    store: StoreView,
    probe: MediaProbe,
) -> (Seq<CellView>, Option<ActionView>) {
    if 0 <= i < cells.len() {
        let (widget, a) = cells[i].widget.dragged(store, probe);
        (with_widget(cells, i, widget), a)
    } else {
        (cells, None)
    }
}

/// The cells after the first slider was grabbed.
pub open spec fn slider_grabbed(cells: Seq<CellView>, x: Number, level: Number) -> Seq<CellView> {
    let i = first_slider(cells) as int;
    if i < cells.len() {
        with_widget(cells, i, WidgetView::Slider(cells[i].widget->Slider_0.grabbed(x, level)))
    } else {
        cells
    }
}

/// Where the level under a finger that drags a slider is, and whether it has moved.
#[derive(Clone, Copy, Debug)]
pub struct DragProbe {
    /// The level under the finger.
    pub level: Number,
    /// Whether that differs from the slider's level.
    pub moved: bool,
    /// The time, in nanoseconds.
    pub now: u64,
}

/// The cells after the first slider was dragged, and what that asks for.
pub open spec fn slider_dragged(cells: Seq<CellView>, probe: DragProbe) -> (
    Seq<CellView>,
    Option<ActionView>,
) {
    let i = first_slider(cells) as int;
    if i < cells.len() {
        let slider = cells[i].widget->Slider_0.dragged(probe.level, probe.moved, probe.now);
        (
            with_widget(cells, i, WidgetView::Slider(slider)),
            Some(slider.backend.effect(slider.level)),
        )
    } else {
        (cells, None)
    }
}

/// The cells after all sliders were let go.
pub open spec fn sliders_released(cells: Seq<CellView>) -> Seq<CellView> {
    cells.map_values(
        |c: CellView|
            match c.widget {
                WidgetView::Slider(s) => CellView {
                    widget: WidgetView::Slider(Slider { grab: None, ..s }),
                    ..c
                },
                _ => c,
            },
    )
}

/// Where a finger is on a layer.
#[derive(Debug)]
pub struct HitProbe {
    /// Whether the finger is in the layer's area.
    pub in_area: bool,
    /// The share of the area's width that the finger is in, from zero.
    pub virtual_i: usize,
    /// For each cell, whether the finger is on it.
    pub within: Vec<bool>,
}

/// The first cell that reaches beyond the share `virtual_i`, from cell `i` on; the last
/// cell where none does.
pub open spec fn cell_from(cells: Seq<CellView>, virtual_i: usize, i: int) -> int
    decreases cells.len() - i,
{
    if i >= cells.len() {
        cells.len() - 1
    } else if start_of(cells, i + 1) > virtual_i {
        i
    } else {
        cell_from(cells, virtual_i, i + 1)
    }
}

/// The cell that a finger hits: `wanted`, or the one that its position gives.
pub open spec fn hit(cells: Seq<CellView>, probe: HitProbe, wanted: Option<usize>) -> Option<usize> {
    let i = match wanted {
        Some(i) => i as int,
        None => cell_from(cells, probe.virtual_i, 0),
    };
    if probe.in_area && 0 <= i < cells.len() && i < probe.within@.len() && probe.within@[i]
        && cells[i].widget.takes_touch() {
        Some(i as usize)
    } else {
        None
    }
}

/// A row of cells.
#[derive(Debug)]
pub struct FunctionLayer {
    displays_time: bool,
    cells: Vec<Cell>,
    virtual_button_count: usize,
    faster_refresh: bool,
}

impl View for FunctionLayer {
    type V = Seq<CellView>;

    closed spec fn view(&self) -> Seq<CellView> {
        cells_view(self.cells@)
    }
}

impl Default for FunctionLayer {
    fn default() -> (r: FunctionLayer)
        ensures
            r.wf(),
            r@ == Seq::<CellView>::empty(),
    {
        let r = FunctionLayer {
            displays_time: false,
            cells: Vec::new(),
            virtual_button_count: 0,
            faster_refresh: false,
        };
        assert(r@ =~= Seq::<CellView>::empty());
        r
    }
}

impl FunctionLayer {
    /// What is remembered of the cells is true of them.
    pub closed spec fn wf(self) -> bool {
        &&& self.displays_time == shows_time(self@)
        &&& self.faster_refresh == ticks(self@)
        &&& self.virtual_button_count == total_stretch(self@)
    }

    /// The layer that a configuration describes.
    pub fn with_config(cfg: Vec<ButtonConfig>, env: &Environment) -> (r: Result<
        FunctionLayer,
        LayerError,
    >)
        requires
            fits(configs(cfg@)),
        ensures
            match r {
                Ok(layer) => layer.wf() && layer_of(configs(cfg@), env@) == Ok::<
                    Seq<CellView>,
                    LayerFault,
                >(layer@),
                Err(e) => layer_of(configs(cfg@), env@) == Err::<Seq<CellView>, LayerFault>(e@),
            },
    {
        if cfg.len() == 0 {
            return Err(LayerError::NoButtons);
        }
        let ghost wanted = configs(cfg@);
        let mut virtual_button_count: usize = 0;
        let mut displays_time = false;
        let mut faster_refresh = false;
        let mut cells: Vec<Cell> = Vec::new();
        assert(cells_view(cells@) =~= Seq::<CellView>::empty());
        for c in it: cfg
            invariant
                it.seq() == cfg@,
                wanted == configs(cfg@),
                wanted.len() > 0,
                fits(wanted),
                cells@.len() == it.index(),
                cells_of(wanted, env@, it.index() as int) == Ok::<Seq<CellView>, LayerFault>(
                    cells_view(cells@),
                ),
                virtual_button_count == stretch_before(wanted, it.index() as int),
                virtual_button_count == total_stretch(cells_view(cells@)),
                displays_time == shows_time(cells_view(cells@)),
                faster_refresh == ticks(cells_view(cells@)),
        {
            let ghost n = it.index() as int;
            let ghost before = cells_view(cells@);
            assert(c@ == wanted[n]);
            proof {
                lemma_stretch_grows(wanted, n + 1);
                lemma_errors_stay(wanted, env@, n + 1, wanted.len() as int);
            }
            let stretch: usize = match c.stretch {
                Some(s) => if s < 1 {
                    1
                } else {
                    s
                },
                None => 1,
            };
            virtual_button_count = virtual_button_count + stretch;
            match Widget::from_config(c, env) {
                Ok(widget) => {
                    let clock = widget.is_clock();
                    let fast = widget.needs_faster_refresh();
                    let cell = Cell { stretch, widget };
                    cells.push(cell);
                    proof {
                        assert(cells_view(cells@) =~= before.push(cell@));
                        lemma_pushed(before, cell@);
                    }
                    displays_time = displays_time || clock;
                    faster_refresh = faster_refresh || fast;
                },
                Err(e) => {
                    return Err(e);
                },
            }
        }
        Ok(FunctionLayer { displays_time, cells, virtual_button_count, faster_refresh })
    }

    /// A layer with a slider alone.
    pub fn slider_layer(backend: SliderBackend, now: u64) -> (r: FunctionLayer)
        ensures
            r.wf(),
            r@ == slider_cells(backend, now),
    {
        let cell = Cell { stretch: 1, widget: Widget::Slider(Slider::new(backend, now)) };
        let r = FunctionLayer {
            displays_time: false,
            cells: vec![cell],
            virtual_button_count: 1,
            faster_refresh: false,
        };
        assert(r@ =~= slider_cells(backend, now));
        assert(start_of(r@, 0) == 0);
        assert(start_of(r@, 1) == 1);
        r
    }

    /// Whether the layer shows something that changes within a minute.
    pub fn faster_refresh(&self) -> (r: bool)
        requires
            self.wf(),
        ensures
            r == ticks(self@),
    {
        self.faster_refresh
    }

    /// Whether the layer shows the time.
    pub fn displays_time(&self) -> (r: bool)
        requires
            self.wf(),
        ensures
            r == shows_time(self@),
    {
        self.displays_time
    }

    /// The width of all cells, in shares.
    pub fn virtual_button_count(&self) -> (r: usize)
        requires
            self.wf(),
        ensures
            r == total_stretch(self@),
    {
        self.virtual_button_count
    }

    /// The cells.
    pub fn cells(&self) -> (r: &Vec<Cell>)
        ensures
            cells_view(r@) == self@,
    {
        &self.cells
    }

    /// Whether anything in the layer has to be drawn again.
    pub fn needs_redraw(&self, store: &Store) -> (r: bool)
        requires
            store.wf(),
        ensures
            r == stale(self@, store@),
    {
        let mut i: usize = 0;
        while i < self.cells.len()
            invariant
                0 <= i <= self.cells@.len(),
                store.wf(),
                self@.len() == self.cells@.len(),
                forall|k: int| 0 <= k < i ==> !(#[trigger] self@[k]).widget.stale(store@),
            decreases self.cells@.len() - i,
        {
            assert(self@[i as int] == self.cells@[i as int]@);
            if self.cells[i].widget.changed(store) {
                return true;
            }
            i += 1;
        }
        false
    }

    /// For each cell, whether it is to be drawn: all of them in a complete drawing,
    /// otherwise those that have changed.
    pub fn to_draw(&self, store: &Store, complete: bool) -> (r: Vec<bool>)
        requires
            store.wf(),
        ensures
            r@ == self@.map_values(|c: CellView| complete || c.widget.stale(store@)),
    {
        let mut out: Vec<bool> = Vec::new();
        let mut i: usize = 0;
        while i < self.cells.len()
            invariant
                0 <= i <= self.cells@.len(),
                store.wf(),
                self@.len() == self.cells@.len(),
                out@.len() == i,
                forall|k: int|
                    0 <= k < i ==> #[trigger] out@[k] == (complete || self@[k].widget.stale(
                        store@,
                    )),
            decreases self.cells@.len() - i,
        {
            assert(self@[i as int] == self.cells@[i as int]@);
            let changed = self.cells[i].widget.changed(store);
            out.push(complete || changed);
            i += 1;
        }
        assert(out@ =~= self@.map_values(|c: CellView| complete || c.widget.stale(store@)));
        out
    }

    /// Notes that a cell has been drawn.
    pub fn drawn(&mut self, i: usize, now: u64)
        requires
            old(self).wf(),
        ensures
            final(self).wf(),
            final(self)@ == if i < old(self)@.len() {
                with_widget(old(self)@, i as int, old(self)@[i as int].widget.drawn(now))
            } else {
                old(self)@
            },
    {
        let ghost before = self@;
        if i < self.cells.len() {
            self.cells[i].widget.drawn(now);
            proof {
                let widget = before[i as int].widget.drawn(now);
                assert(self@ =~= with_widget(before, i as int, widget));
                lemma_same_kind(before, i as int, widget);
            }
        }
    }

    /// A press on cell `i`.
    pub fn on_press_at(&mut self, i: usize, store: &Store, probe: &PressProbe) -> (r: Option<
        Action,
    >)
        requires
            old(self).wf(),
            store.wf(),
        ensures
            final(self).wf(),
            (final(self)@, action::opt_action(r)) == pressed_at(
                old(self)@,
                i as int,
                store@,
                *probe,
            ),
    {
        let ghost before = self@;
        if i < self.cells.len() {
            let r = self.cells[i].widget.on_press(store, probe);
            proof {
                let widget = before[i as int].widget.pressed(store@, *probe).0;
                assert(self@ =~= with_widget(before, i as int, widget));
                lemma_same_kind(before, i as int, widget);
            }
            r
        } else {
            None
        }
    }

    /// A release of cell `i`.
    pub fn on_release_at(&mut self, i: usize) -> (r: Option<Action>)
        requires
            old(self).wf(),
        ensures
            final(self).wf(),
            (final(self)@, action::opt_action(r)) == released_at(old(self)@, i as int),
    {
        let ghost before = self@;
        if i < self.cells.len() {
            let r = self.cells[i].widget.on_release();
            proof {
                let widget = before[i as int].widget.released().0;
                assert(self@ =~= with_widget(before, i as int, widget));
                lemma_same_kind(before, i as int, widget);
            }
            r
        } else {
            None
        }
    }

    /// A finger that moves on cell `i`.
    pub fn on_drag_at(&mut self, i: usize, store: &Store, probe: &MediaProbe) -> (r: Option<Action>)
        requires
            old(self).wf(),
            store.wf(),
        ensures
            final(self).wf(),
            (final(self)@, action::opt_action(r)) == dragged_at(
                old(self)@,
                i as int,
                store@,
                *probe,
            ),
    {
        let ghost before = self@;
        if i < self.cells.len() {
            let r = self.cells[i].widget.on_drag(store, probe);
            proof {
                let widget = before[i as int].widget.dragged(store@, *probe).0;
                assert(self@ =~= with_widget(before, i as int, widget));
                lemma_same_kind(before, i as int, widget);
            }
            r
        } else {
            None
        }
    }

    /// Where the first slider stands, or the number of cells where there is none.
    fn slider_index(&self) -> (r: usize)
        ensures
            r == first_slider(self@),
            r <= self.cells@.len() == self@.len(),
            r < self.cells@.len() ==> self.cells@[r as int].widget is Slider,
    {
        let mut i: usize = 0;
        assert(self@.skip(0) =~= self@);
        while i < self.cells.len()
            invariant
                0 <= i <= self.cells@.len(),
                self@.len() == self.cells@.len(),
                first_slider(self@) == i + first_slider(self@.skip(i as int)),
            decreases self.cells@.len() - i,
        {
            assert(self@.skip(i as int)[0] == self.cells@[i as int]@);
            match &self.cells[i].widget {
                Widget::Slider(_) => {
                    return i;
                },
                _ => {},
            }
            assert(self@.skip(i as int).drop_first() =~= self@.skip(i + 1));
            i += 1;
        }
        i
    }

    /// The layer's first slider, where it has one.
    pub fn slider(&self) -> (r: Option<Slider>)
        ensures
            r == if first_slider(self@) < self@.len() {
                Some(self@[first_slider(self@) as int].widget->Slider_0)
            } else {
                None
            },
    {
        let i = self.slider_index();
        if i < self.cells.len() {
            match &self.cells[i].widget {
                Widget::Slider(s) => Some(*s),
                _ => None,
            }
        } else {
            None
        }
    }

    /// The state key that holds the level of the layer's slider.
    pub fn slider_key(&self) -> (r: Result<StateKey, LayerError>)
        ensures
            r is Ok <==> first_slider(self@) < self@.len(),
            r matches Ok(k) ==> k@ == self@[first_slider(
                self@,
            ) as int].widget->Slider_0.backend.key_name(),
            r matches Err(e) ==> e is NoSlider,
    {
        match self.slider() {
            Some(s) => match StateKey::new(s.backend.state_key()) {
                Ok(k) => Ok(k),
                Err(_) => Err(LayerError::NoSlider),
            },
            None => Err(LayerError::NoSlider),
        }
    }

    /// Lets a finger at `x` grab the layer's slider, at the level it has.
    pub fn grab_slider(&mut self, level: Number, x: Number)
        requires
            old(self).wf(),
        ensures
            final(self).wf(),
            final(self)@ == slider_grabbed(old(self)@, x, level),
    {
        let ghost before = self@;
        let i = self.slider_index();
        if i < self.cells.len() {
            match &mut self.cells[i].widget {
                Widget::Slider(s) => s.grab(x, level),
                _ => {},
            }
            proof {
                let widget = WidgetView::Slider(
                    before[i as int].widget->Slider_0.grabbed(x, level),
                );
                assert(self@ =~= with_widget(before, i as int, widget));
                lemma_same_kind(before, i as int, widget);
            }
        }
    }

    /// Drags the layer's slider to the level under the finger.
    pub fn drag_slider(&mut self, probe: &DragProbe) -> (r: Option<Action>)
        requires
            old(self).wf(),
        ensures
            final(self).wf(),
            (final(self)@, action::opt_action(r)) == slider_dragged(old(self)@, *probe),
    {
        let ghost before = self@;
        let i = self.slider_index();
        if i < self.cells.len() {
            let r = match &mut self.cells[i].widget {
                Widget::Slider(s) => {
                    let level = s.drag(probe.level, probe.moved, probe.now);
                    Some(s.backend.apply(level))
                },
                _ => None,
            };
            proof {
                let widget = WidgetView::Slider(
                    before[i as int].widget->Slider_0.dragged(
                        probe.level,
                        probe.moved,
                        probe.now,
                    ),
                );
                assert(self@ =~= with_widget(before, i as int, widget));
                lemma_same_kind(before, i as int, widget);
            }
            r
        } else {
            None
        }
    }

    /// Lets all of the layer's sliders go.
    pub fn release_slider(&mut self)
        requires
            old(self).wf(),
        ensures
            final(self).wf(),
            final(self)@ == sliders_released(old(self)@),
    {
        let ghost before = self@;
        let ghost after = sliders_released(before);
        let mut i: usize = 0;
        while i < self.cells.len()
            invariant
                0 <= i <= self.cells@.len(),
                self@.len() == self.cells@.len() == before.len(),
                after == sliders_released(before),
                self.displays_time == old(self).displays_time,
                self.faster_refresh == old(self).faster_refresh,
                self.virtual_button_count == old(self).virtual_button_count,
                forall|k: int| 0 <= k < i ==> #[trigger] self@[k] == after[k],
                forall|k: int| i <= k < before.len() ==> #[trigger] self@[k] == before[k],
            decreases self.cells@.len() - i,
        {
            let ghost now = self@;
            assert(now[i as int] == self.cells@[i as int]@);
            match &mut self.cells[i].widget {
                Widget::Slider(s) => s.release(),
                _ => {},
            }
            assert(self@[i as int] == self.cells@[i as int]@);
            assert forall|k: int| 0 <= k < before.len() && k != i implies #[trigger] self@[k]
                == now[k] by {}
            i += 1;
        }
        proof {
            assert(self@ =~= after);
            lemma_same_kinds(before, after);
        }
    }

    /// The cell that the share `virtual_i` of the row's width falls into; the last one
    /// for what lies beyond.
    pub fn cell_at(&self, virtual_i: usize) -> (r: usize)
        requires
            self.wf(),
            self@.len() > 0,
        ensures
            r == cell_from(self@, virtual_i, 0),
            r < self@.len(),
    {
        let mut acc: usize = 0;
        let mut i: usize = 0;
        while i < self.cells.len()
            invariant
                0 <= i <= self.cells@.len(),
                self@.len() == self.cells@.len(),
                self.wf(),
                acc == start_of(self@, i as int),
                cell_from(self@, virtual_i, 0) == cell_from(self@, virtual_i, i as int),
            decreases self.cells@.len() - i,
        {
            assert(self@[i as int] == self.cells@[i as int]@);
            proof {
                lemma_start_grows(self@, i + 1, self@.len() as int);
            }
            acc = acc + self.cells[i].stretch;
            if acc > virtual_i {
                return i;
            }
            i += 1;
        }
        self.cells.len() - 1
    }

    /// The shares of the row's width from which to which cell `i` reaches.
    pub fn span(&self, i: usize) -> (r: (usize, usize))
        requires
            self.wf(),
            i < self@.len(),
        ensures
            r.0 == start_of(self@, i as int),
            r.1 == start_of(self@, i + 1),
    {
        let mut start: usize = 0;
        let mut k: usize = 0;
        while k < i
            invariant
                k <= i < self@.len(),
                self@.len() == self.cells@.len(),
                self.wf(),
                start == start_of(self@, k as int),
            decreases i - k,
        {
            assert(self@[k as int] == self.cells@[k as int]@);
            proof {
                lemma_start_grows(self@, k + 1, self@.len() as int);
            }
            start = start + self.cells[k].stretch;
            k += 1;
        }
        assert(self@[i as int] == self.cells@[i as int]@);
        proof {
            lemma_start_grows(self@, i + 1, self@.len() as int);
        }
        (start, start + self.cells[i].stretch)
    }

    /// The cell that a finger hits: `wanted`, or the one that its position gives. A cell
    /// that is not touched is not hit.
    pub fn hit_in(&self, probe: &HitProbe, wanted: Option<usize>) -> (r: Option<usize>)
        requires
            self.wf(),
            self@.len() > 0,
        ensures
            r == hit(self@, *probe, wanted),
    {
        if !probe.in_area {
            return None;
        }
        let i = match wanted {
            Some(i) => i,
            None => self.cell_at(probe.virtual_i),
        };
        if i >= self.cells.len() {
            return None;
        }
        assert(self@[i as int] == self.cells@[i as int]@);
        if i >= probe.within.len() || !probe.within[i] {
            return None;
        }
        if !self.cells[i].widget.interactive() {
            return None;
        }
        Some(i)
    }
}

// ---------------------------------------------------------------------------
// Lemmas and laws
// ---------------------------------------------------------------------------

/// Fewer cells ask for no more shares.
proof fn lemma_stretch_grows(cfg: Seq<ButtonConfigView>, n: int)
    requires
        0 <= n <= cfg.len(),
    ensures
        stretch_before(cfg, n) <= stretch_before(cfg, cfg.len() as int),
    decreases cfg.len() - n,
{
    if n < cfg.len() {
        lemma_stretch_grows(cfg, n + 1);
    }
}

/// Fewer cells are no wider.
proof fn lemma_start_grows(cells: Seq<CellView>, a: int, b: int)
    requires
        0 <= a <= b,
    ensures
        start_of(cells, a) <= start_of(cells, b),
    decreases b,
{
    if a < b {
        lemma_start_grows(cells, a, b - 1);
    }
}

/// What is wrong with the first cells is wrong with all of them.
proof fn lemma_errors_stay(cfg: Seq<ButtonConfigView>, env: EnvironmentView, a: int, b: int)
    requires
        0 <= a <= b,
    ensures
        cells_of(cfg, env, a) is Err ==> cells_of(cfg, env, b) == cells_of(cfg, env, a),
    decreases b,
{
    if a < b {
        lemma_errors_stay(cfg, env, a, b - 1);
    }
}

/// The width of cells depends on their shares alone.
proof fn lemma_start_agrees(a: Seq<CellView>, b: Seq<CellView>, n: int)
    requires
        0 <= n <= a.len(),
        n <= b.len(),
        forall|i: int| 0 <= i < n ==> (#[trigger] a[i]).stretch == b[i].stretch,
    ensures
        start_of(a, n) == start_of(b, n),
    decreases n,
{
    if n > 0 {
        lemma_start_agrees(a, b, n - 1);
    }
}

/// What one more cell adds.
proof fn lemma_pushed(cells: Seq<CellView>, c: CellView)
    ensures
        total_stretch(cells.push(c)) == total_stretch(cells) + c.stretch,
        shows_time(cells.push(c)) == (shows_time(cells) || c.widget is Clock),
        ticks(cells.push(c)) == (ticks(cells) || c.widget.ticks()),
{
    let more = cells.push(c);
    let n = cells.len() as int;
    assert forall|i: int| 0 <= i < n implies (#[trigger] cells[i]).stretch == more[i].stretch by {
        assert(more[i] == cells[i]);
    }
    lemma_start_agrees(cells, more, n);
    assert(more[n] == c);
    if shows_time(cells) {
        let i = choose|i: int| 0 <= i < cells.len() && (#[trigger] cells[i]).widget is Clock;
        assert(more[i].widget is Clock);
    }
    if shows_time(more) {
        let i = choose|i: int| 0 <= i < more.len() && (#[trigger] more[i]).widget is Clock;
        if i < n {
            assert(cells[i].widget is Clock);
        }
    }
    if ticks(cells) {
        let i = choose|i: int| 0 <= i < cells.len() && (#[trigger] cells[i]).widget.ticks();
        assert(more[i].widget.ticks());
    }
    if ticks(more) {
        let i = choose|i: int| 0 <= i < more.len() && (#[trigger] more[i]).widget.ticks();
        if i < n {
            assert(cells[i].widget.ticks());
        }
    }
}

/// Cells with the same shares and the same clocks are remembered alike.
proof fn lemma_same_kinds(a: Seq<CellView>, b: Seq<CellView>)
    requires
        a.len() == b.len(),
        forall|i: int| 0 <= i < a.len() ==> (#[trigger] a[i]).stretch == b[i].stretch,
        forall|i: int| 0 <= i < a.len() ==> (#[trigger] a[i]).widget is Clock == b[i].widget is Clock,
        forall|i: int| 0 <= i < a.len() ==> (#[trigger] a[i]).widget.ticks() == b[i].widget.ticks(),
    ensures
        total_stretch(a) == total_stretch(b),
        shows_time(a) == shows_time(b),
        ticks(a) == ticks(b),
{
    lemma_start_agrees(a, b, a.len() as int);
    if shows_time(a) {
        let i = choose|i: int| 0 <= i < a.len() && (#[trigger] a[i]).widget is Clock;
        assert(b[i].widget is Clock);
    }
    if shows_time(b) {
        let i = choose|i: int| 0 <= i < b.len() && (#[trigger] b[i]).widget is Clock;
        assert(a[i].widget is Clock);
    }
    if ticks(a) {
        let i = choose|i: int| 0 <= i < a.len() && (#[trigger] a[i]).widget.ticks();
        assert(b[i].widget.ticks());
    }
    if ticks(b) {
        let i = choose|i: int| 0 <= i < b.len() && (#[trigger] b[i]).widget.ticks();
        assert(a[i].widget.ticks());
    }
}

/// Replacing a widget by one that is a clock just when it was one changes nothing of what
/// is remembered.
proof fn lemma_same_kind(cells: Seq<CellView>, i: int, widget: WidgetView)
    requires
        0 <= i < cells.len(),
        widget is Clock == cells[i].widget is Clock,
        widget.ticks() == cells[i].widget.ticks(),
    ensures
        total_stretch(with_widget(cells, i, widget)) == total_stretch(cells),
        shows_time(with_widget(cells, i, widget)) == shows_time(cells),
        ticks(with_widget(cells, i, widget)) == ticks(cells),
{
    lemma_same_kinds(cells, with_widget(cells, i, widget));
}

/// Every configured cell is at least one share wide, and the layer has a cell for each.
pub proof fn law_layer_has_all_cells(cfg: Seq<ButtonConfigView>, env: EnvironmentView, n: int)
    requires
        0 <= n <= cfg.len(),
        cells_of(cfg, env, n) is Ok,
    ensures
        cells_of(cfg, env, n)->Ok_0.len() == n,
        forall|i: int|
            0 <= i < n ==> (#[trigger] cells_of(cfg, env, n)->Ok_0[i]).stretch == stretch_of(cfg[i])
                && cells_of(cfg, env, n)->Ok_0[i].stretch >= 1,
    decreases n,
{
    if n > 0 {
        law_layer_has_all_cells(cfg, env, n - 1);
    }
}

/// A share of the row's width falls into the cell that spans it, and into no other: the
/// cells lie side by side without a gap.
pub proof fn law_share_falls_into_its_cell(cells: Seq<CellView>, virtual_i: usize, from: int)
    requires
        0 <= from < cells.len(),
        start_of(cells, from) <= virtual_i < total_stretch(cells),
    ensures
        ({
            let i = cell_from(cells, virtual_i, from);
            &&& from <= i < cells.len()
            &&& start_of(cells, i) <= virtual_i < start_of(cells, i + 1)
            &&& forall|j: int|
                0 <= j < cells.len() && start_of(cells, j) <= virtual_i < #[trigger] start_of(
                    cells,
                    j + 1,
                ) ==> j == i
        }),
    decreases cells.len() - from,
{
    if start_of(cells, from + 1) <= virtual_i {
        assert(from + 1 < cells.len()) by {
            if from + 1 == cells.len() {
                assert(start_of(cells, from + 1) == total_stretch(cells));
            }
        }
        law_share_falls_into_its_cell(cells, virtual_i, from + 1);
    } else {
        assert forall|j: int|
            0 <= j < cells.len() && start_of(cells, j) <= virtual_i < #[trigger] start_of(
                cells,
                j + 1,
            ) implies j == from by {
            if j < from {
                lemma_start_grows(cells, j + 1, from);
            } else if j > from {
                lemma_start_grows(cells, from + 1, j);
            }
        }
    }
}

/// A touch never reaches an indicator or a spacer.
pub proof fn law_hit_takes_touch(cells: Seq<CellView>, probe: HitProbe, wanted: Option<usize>)
    requires
        hit(cells, probe, wanted) is Some,
        cells.len() <= usize::MAX,
    ensures
        hit(cells, probe, wanted)->0 < cells.len(),
        cells[hit(cells, probe, wanted)->0 as int].widget.takes_touch(),
        wanted is Some ==> hit(cells, probe, wanted) == wanted,
{
}

/// Touching a cell leaves all others as they are.
pub proof fn law_press_is_local(
    cells: Seq<CellView>,
    i: int,
    j: int,
    store: StoreView,
    probe: PressProbe,
)
    requires
        0 <= j < cells.len(),
        j != i,
    ensures
        pressed_at(cells, i, store, probe).0[j] == cells[j],
        released_at(cells, i).0[j] == cells[j],
        dragged_at(cells, i, store, probe.media).0[j] == cells[j],
{
}

} // verus!
