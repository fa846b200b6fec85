//! The layers by name, and which of them is shown.
use crate::function_layer::{CellView, FunctionLayer};
use crate::text;
use vstd::prelude::*;

verus! {

struct NamedLayer {
    name: String,
    layer: FunctionLayer,
}

/// All layers by name, and the order of the two base layers.
pub struct LayerStore {
    registry: Vec<NamedLayer>,
    base_order: [String; 2],
}

/// What a layer store holds.
pub struct LayerStoreView {
    /// The layers, by name.
    pub registry: Map<Seq<char>, Seq<CellView>>,
    /// The base layer while Fn is not held.
    pub base: Seq<char>,
    /// The base layer while Fn is held.
    pub fn_base: Seq<char>,
}

impl LayerStoreView {
    /// The base layer that Fn selects.
    pub open spec fn base_for(self, fn_pressed: bool) -> Seq<char> {
        if fn_pressed {
            self.fn_base
        } else {
            self.base
        }
    }

    /// The store with its base layers swapped.
    pub open spec fn swapped(self) -> LayerStoreView {
        LayerStoreView { base: self.fn_base, fn_base: self.base, ..self }
    }

    /// The name of the layer that is shown: a modal layer before the last substate, that
    /// before the focused application's layer, and that before the base layer. A name that
    /// no layer has is passed over.
    pub open spec fn resolved(self, st: ResolverView) -> Seq<char> {
        if st.modal is Some && self.registry.contains_key(st.modal->0) {
            st.modal->0
        } else if st.substates.len() > 0 && self.registry.contains_key(st.substates.last()) {
            st.substates.last()
        } else if st.app is Some && self.registry.contains_key(st.app->0) {
            st.app->0
        } else {
            self.base_for(st.fn_pressed)
        }
    }
}

/// Whether `i` is the place of the layer `name`.
spec fn layer_at(registry: Seq<NamedLayer>, name: Seq<char>, i: int) -> bool {
    0 <= i < registry.len() && registry[i].name@ == name
}

/// What a registry maps its names to.
spec fn layers_of(registry: Seq<NamedLayer>) -> Map<Seq<char>, Seq<CellView>> {
    Map::new(
        |n: Seq<char>| exists|i: int| layer_at(registry, n, i),
        |n: Seq<char>| registry[choose|i: int| layer_at(registry, n, i)].layer@,
    )
}

/// Whether no name occurs twice.
spec fn names_differ(registry: Seq<NamedLayer>) -> bool {
    forall|i: int, j: int|
        #![trigger registry[i], registry[j]]
        0 <= i < registry.len() && 0 <= j < registry.len() && registry[i].name@ == registry[j].name@
            ==> i == j
}

impl View for LayerStore {
    type V = LayerStoreView;

    closed spec fn view(&self) -> LayerStoreView {
        LayerStoreView {
            registry: layers_of(self.registry@),
            base: self.base_order@[0]@,
            fn_base: self.base_order@[1]@,
        }
    }
}

impl LayerStore {
    /// No name occurs twice, and every layer is well formed.
    pub closed spec fn wf(self) -> bool {
        &&& names_differ(self.registry@)
        &&& forall|i: int| 0 <= i < self.registry@.len() ==> (#[trigger] self.registry@[i]).layer.wf()
    }

    /// A store without layers.
    pub fn new(base: String, fn_base: String) -> (r: LayerStore)
        ensures
            r.wf(),
            r@ == (LayerStoreView { registry: Map::empty(), base: base@, fn_base: fn_base@ }),
    {
        let r = LayerStore { registry: Vec::new(), base_order: [base, fn_base] };
        assert(r@.registry =~= Map::<Seq<char>, Seq<CellView>>::empty());
        r
    }

    /// The place of the layer `name`, or the number of layers where there is none.
    fn position(&self, name: &str) -> (r: usize)
        requires
            self.wf(),
        ensures
            r <= self.registry@.len(),
            r < self.registry@.len() ==> self.registry@[r as int].name@ == name@
                && self@.registry.contains_key(name@) && self@.registry[name@]
                == self.registry@[r as int].layer@,
            r == self.registry@.len() ==> !self@.registry.contains_key(name@),
    {
        let mut i: usize = 0;
        while i < self.registry.len()
            invariant
                0 <= i <= self.registry@.len(),
                self.wf(),
                forall|k: int| 0 <= k < i ==> (#[trigger] self.registry@[k]).name@ != name@,
            decreases self.registry@.len() - i,
        {
            if text::same(self.registry[i].name.as_str(), name) {
                proof {
                    assert(layer_at(self.registry@, name@, i as int));
                    let j = choose|j: int| layer_at(self.registry@, name@, j);
                    assert(self.registry@[i as int].name@ == self.registry@[j].name@);
                }
                return i;
            }
            i += 1;
        }
        assert forall|k: int| !layer_at(self.registry@, name@, k) by {}
        i
    }

    /// Whether there is a layer of this name.
    pub fn contains(&self, name: &str) -> (r: bool)
        requires
            self.wf(),
        ensures
            r == self@.registry.contains_key(name@),
    {
        self.position(name) < self.registry.len()
    }

    /// Gives a layer a name, in place of the layer that had it before.
    pub fn insert(&mut self, name: String, layer: FunctionLayer)
        requires
            old(self).wf(),
            layer.wf(),
        ensures
            final(self).wf(),
            final(self)@ == (LayerStoreView {
                registry: old(self)@.registry.insert(name@, layer@),
                ..old(self)@
            }),
    {
        let at = self.position(name.as_str());
        let ghost before = self.registry@;
        let entry = NamedLayer { name, layer };
        if at < self.registry.len() {
            self.registry.set(at, entry);
            proof {
                lemma_replaced(before, at as int, entry);
            }
        } else {
            self.registry.push(entry);
            proof {
                lemma_added(before, entry);
            }
        }
    }

    /// The name of the layer that is shown.
    pub fn resolve(&self, st: &ResolverState) -> (r: String)
        requires
            self.wf(),
        ensures
            r@ == self@.resolved(st@),
    {
        if let Some(modal) = &st.modal {
            if self.contains(modal.as_str()) {
                return modal.clone();
            }
        }
        let depth = st.substates.len();
        if depth > 0 {
            assert(st@.substates.last() == st.substates@[depth - 1]@);
            if self.contains(st.substates[depth - 1].as_str()) {
                return st.substates[depth - 1].clone();
            }
        }
        if let Some(app) = &st.app {
            if self.contains(app.as_str()) {
                return app.clone();
            }
        }
        self.base_layer(st.fn_pressed)
    }

    /// The name of the base layer that Fn selects.
    pub fn base_layer(&self, fn_pressed: bool) -> (r: String)
        ensures
            r@ == self@.base_for(fn_pressed),
    {
        if fn_pressed {
            self.base_order[1].clone()
        } else {
            self.base_order[0].clone()
        }
    }

    /// Names the base layers.
    pub fn set_base(&mut self, base: String, fn_base: String)
        requires
            old(self).wf(),
        ensures
            final(self).wf(),
            final(self)@ == (LayerStoreView { base: base@, fn_base: fn_base@, ..old(self)@ }),
    {
        self.base_order = [base, fn_base];
    }

    /// Swaps the two base layers.
    pub fn swap_base(&mut self)
        requires
            old(self).wf(),
        ensures
            final(self).wf(),
            final(self)@ == old(self)@.swapped(),
    {
        let first = self.base_order[0].clone();
        let second = self.base_order[1].clone();
        self.base_order = [second, first];
    }

    /// The layer of the given name.
    pub fn get(&self, name: &str) -> (r: &FunctionLayer)
        requires
            self.wf(),
            self@.registry.contains_key(name@),
        ensures
            r.wf(),
            r@ == self@.registry[name@],
    {
        let at = self.position(name);
        &self.registry[at].layer
    }

    /// The layer of the given name, to be changed in place.
    pub fn get_mut(&mut self, name: &str) -> (r: &mut FunctionLayer)
        requires
            old(self).wf(),
            old(self)@.registry.contains_key(name@),
        ensures
            r.wf(),
            r@ == old(self)@.registry[name@],
            final(r).wf() ==> final(self).wf() && final(self)@ == (LayerStoreView {
                registry: old(self)@.registry.insert(name@, final(r)@),
                ..old(self)@
            }),
    {
        let at = self.position(name);
        proof {
            let before = self.registry@;
            assert forall|entry: NamedLayer| entry.name == before[at as int].name implies
                names_differ(#[trigger] before.update(at as int, entry)) && layers_of(
                before.update(at as int, entry),
            ) == layers_of(before).insert(entry.name@, entry.layer@) by {
                lemma_replaced(before, at as int, entry);
            }
        }
        &mut self.registry[at].layer
    }
}

/// Replacing a layer changes what its name stands for, and nothing else.
proof fn lemma_replaced(before: Seq<NamedLayer>, at: int, entry: NamedLayer)
    requires
        0 <= at < before.len(),
        before[at].name@ == entry.name@,
        names_differ(before),
    ensures
        names_differ(before.update(at, entry)),
        layers_of(before.update(at, entry)) == layers_of(before).insert(entry.name@, entry.layer@),
{
    let after = before.update(at, entry);
    let want = layers_of(before).insert(entry.name@, entry.layer@);
    assert forall|i: int, j: int|
        #![trigger after[i], after[j]]
        0 <= i < after.len() && 0 <= j < after.len() && after[i].name@ == after[j].name@ implies i
        == j by {
        assert(before[i].name@ == before[j].name@);
    }
    assert forall|k: Seq<char>| #[trigger]
        layers_of(after).contains_key(k) == want.contains_key(k) && (want.contains_key(k)
            ==> layers_of(after)[k] == want[k]) by {
        if exists|i: int| layer_at(after, k, i) {
            let i = choose|i: int| layer_at(after, k, i);
            assert(layer_at(before, k, i));
            let j = choose|i: int| layer_at(before, k, i);
            assert(before[i].name@ == before[j].name@);
        }
        if exists|i: int| layer_at(before, k, i) {
            let i = choose|i: int| layer_at(before, k, i);
            assert(layer_at(after, k, i));
        }
        assert(layer_at(after, entry.name@, at));
    }
    assert(layers_of(after) =~= want);
}

/// A layer of a new name is added, and nothing else changes.
proof fn lemma_added(before: Seq<NamedLayer>, entry: NamedLayer)
    requires
        !layers_of(before).contains_key(entry.name@),
        names_differ(before),
    ensures
        names_differ(before.push(entry)),
        layers_of(before.push(entry)) == layers_of(before).insert(entry.name@, entry.layer@),
{
    let after = before.push(entry);
    let want = layers_of(before).insert(entry.name@, entry.layer@);
    assert forall|i: int, j: int|
        #![trigger after[i], after[j]]
        0 <= i < after.len() && 0 <= j < after.len() && after[i].name@ == after[j].name@ implies i
        == j by {
        if i < before.len() {
            assert(after[i] == before[i]);
            assert(layer_at(before, before[i].name@, i));
        }
        if j < before.len() {
            assert(after[j] == before[j]);
            assert(layer_at(before, before[j].name@, j));
        }
    }
    assert forall|k: Seq<char>| #[trigger]
        layers_of(after).contains_key(k) == want.contains_key(k) && (want.contains_key(k)
            ==> layers_of(after)[k] == want[k]) by {
        assert(layer_at(after, entry.name@, before.len() as int));
        if exists|i: int| layer_at(after, k, i) {
            let i = choose|i: int| layer_at(after, k, i);
            if i < before.len() {
                assert(layer_at(before, k, i));
                let j = choose|i: int| layer_at(before, k, i);
                assert(before[i].name@ == before[j].name@);
            }
        }
        if exists|i: int| layer_at(before, k, i) {
            let i = choose|i: int| layer_at(before, k, i);
            assert(layer_at(after, k, i));
        }
    }
    assert(layers_of(after) =~= want);
}

/// What decides which layer is shown.
#[derive(Debug)]
pub struct ResolverState {
    /// Whether Fn is held.
    pub fn_pressed: bool,
    /// The layer of the focused application.
    pub app: Option<String>,
    /// The layers that were opened within the application, the last one on top.
    pub substates: Vec<String>,
    /// The layer over the whole bar.
    pub modal: Option<String>,
}

/// What decides which layer is shown, its texts taken as sequences.
pub struct ResolverView {
    pub fn_pressed: bool,
    pub app: Option<Seq<char>>,
    pub substates: Seq<Seq<char>>,
    pub modal: Option<Seq<char>>,
}

impl View for ResolverState {
    type V = ResolverView;

    open spec fn view(&self) -> ResolverView {
        ResolverView {
            fn_pressed: self.fn_pressed,
            app: text::opt_text(self.app),
            substates: text::texts(self.substates@),
            modal: text::opt_text(self.modal),
        }
    }
}

/// The state in which nothing is held or opened.
pub open spec fn idle() -> ResolverView {
    ResolverView { fn_pressed: false, app: None, substates: Seq::empty(), modal: None }
}

impl Default for ResolverState {
    fn default() -> (r: ResolverState)
        ensures
            r@ == idle(),
    {
        let r = ResolverState { fn_pressed: false, app: None, substates: Vec::new(), modal: None };
        assert(r@.substates =~= Seq::<Seq<char>>::empty());
        r
    }
}

/// What a finger that is down is on.
#[derive(Debug)]
pub enum TouchTarget {
    Button { layer: String, btn: usize },
    Media { layer: String, btn: usize },
    Slider { layer: String },
}

/// What a finger that is down is on, its texts taken as sequences.
pub enum TouchView {
    Button { layer: Seq<char>, btn: usize },
    Media { layer: Seq<char>, btn: usize },
    Slider { layer: Seq<char> },
}

impl View for TouchTarget {
    type V = TouchView;

    open spec fn view(&self) -> TouchView {
        match *self {
            TouchTarget::Button { layer, btn } => TouchView::Button { layer: layer@, btn },
            TouchTarget::Media { layer, btn } => TouchView::Media { layer: layer@, btn },
            TouchTarget::Slider { layer } => TouchView::Slider { layer: layer@ },
        }
    }
}

/// What an optional touch is on.
pub open spec fn opt_touch(t: Option<TouchTarget>) -> Option<TouchView> {
    match t {
        Some(t) => Some(t@),
        None => None,
    }
}

/// Where both base layers exist, the layer that is shown exists.
pub proof fn law_resolved_layer_exists(store: LayerStoreView, st: ResolverView)
    requires
        store.registry.contains_key(store.base),
        store.registry.contains_key(store.fn_base),
    ensures
        store.registry.contains_key(store.resolved(st)),
{
}

/// A modal layer hides all others, and a name that no layer has hides none.
pub proof fn law_resolution_order(store: LayerStoreView, st: ResolverView)
    ensures
        st.modal is Some && store.registry.contains_key(st.modal->0) ==> store.resolved(st)
            == st.modal->0,
        st.modal is Some && !store.registry.contains_key(st.modal->0) ==> store.resolved(st)
            == store.resolved(ResolverView { modal: None, ..st }),
        st.modal is None && st.substates.len() == 0 && st.app is None ==> store.resolved(st)
            == store.base_for(st.fn_pressed),
{
}

/// Swapping the base layers twice leaves the store as it was.
pub proof fn law_swap_twice(store: LayerStoreView)
    ensures
        store.swapped().swapped() == store,
{
}

} // verus!
