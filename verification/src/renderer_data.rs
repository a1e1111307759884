//! Per-renderer resource stores, and the migration from the
//! backend-agnostic placeholder into a concrete renderer's caches.
//!
//! Before any concrete rendering backend exists, font registrations land in
//! a placeholder: an ordered list of alias/bytes pairs plus a recorded
//! default index. Once a concrete backend initializes, the placeholder's
//! contents are replayed into the concrete cache in original order,
//! preserving which entry was default. The transform runs exactly once,
//! placeholder to concrete; there is no concrete-to-concrete path.

use vstd::prelude::*;
use crate::cache::{
    FontCache, FontModel, ImageCache, SvgCache, lemma_find_key_absent,
    register_default_font_model, register_font_model, purge_entry, spec_get,
};
use crate::window::{Window, WindowId};

verus! {

/// The backend-agnostic store that exists before any concrete rendering
/// backend: font registrations in order, plus which one is default.
/// Images and SVGs are cached lazily by the concrete backend when first
/// drawn, so nothing of them needs to be kept here.
#[derive(Debug)]
pub struct PlaceholderRendererData {
    pub fonts: Vec<(String, Vec<u8>)>,
    pub default_index: Option<usize>,
}

impl PlaceholderRendererData {
    pub open spec fn wf(&self) -> bool {
        match self.default_index {
            Some(i) => i < self.fonts@.len(),
            None => self.fonts@.len() == 0,
        }
    }

    /// An empty placeholder with no default font.
    pub fn new() -> (r: Self)
        ensures
            r.wf(),
            r.fonts@.len() == 0,
            r.default_index is None,
    {
        Self { fonts: Vec::new(), default_index: None }
    }

    /// Records a font registration; it becomes the default only if no
    /// default exists yet.
    pub fn register_font(&mut self, bytes: &[u8], alias: &str)
        requires
            old(self).wf(),
            old(self).fonts@.len() < usize::MAX,
        ensures
            final(self).wf(),
            final(self).fonts@.len() == old(self).fonts@.len() + 1,
            final(self).fonts@.last().0@ == alias@,
            final(self).fonts@.last().1@ == bytes@,
            forall|j: int|
                0 <= j < old(self).fonts@.len() ==> final(self).fonts@[j] == old(self).fonts@[j],
            final(self).default_index == (if old(self).default_index is None {
                Some(old(self).fonts@.len() as usize)
            } else {
                old(self).default_index
            }),
    {
        self.fonts.push((alias.to_owned(), vstd::slice::slice_to_vec(bytes)));
        if self.default_index.is_none() {
            self.default_index = Some(self.fonts.len() - 1);
        }
    }

    /// Records a font registration and makes it the default, regardless of
    /// registration order.
    pub fn register_default_font(&mut self, bytes: &[u8], alias: &str)
        requires
            old(self).wf(),
            old(self).fonts@.len() < usize::MAX,
        ensures
            final(self).wf(),
            final(self).fonts@.len() == old(self).fonts@.len() + 1,
            final(self).fonts@.last().0@ == alias@,
            final(self).fonts@.last().1@ == bytes@,
            forall|j: int|
                0 <= j < old(self).fonts@.len() ==> final(self).fonts@[j] == old(self).fonts@[j],
            final(self).default_index == Some(old(self).fonts@.len() as usize),
    {
        self.fonts.push((alias.to_owned(), vstd::slice::slice_to_vec(bytes)));
        self.default_index = Some(self.fonts.len() - 1);
    }

    /// The replay plan for migrating into a concrete cache: every
    /// registration in original order, flagged as default exactly at the
    /// recorded default index.
    pub fn migration_plan(&self) -> (r: Vec<(String, Vec<u8>, bool)>)
        ensures
            r@.len() == self.fonts@.len(),
            forall|i: int|
                0 <= i < r@.len() ==> plan_entry_matches(
                    #[trigger] r@[i],
                    self.fonts@[i],
                    self.default_index,
                    i,
                ),
    {
        let mut plan: Vec<(String, Vec<u8>, bool)> = Vec::new();
        let n = self.fonts.len();
        let mut i: usize = 0;
        while i < n
            invariant
                n == self.fonts@.len(),
                i <= n,
                plan@.len() == i,
                forall|j: int|
                    0 <= j < i ==> plan_entry_matches(
                        #[trigger] plan@[j],
                        self.fonts@[j],
                        self.default_index,
                        j,
                    ),
            decreases n - i,
        {
            let is_default = match self.default_index {
                Some(d) => d == i,
                None => false,
            };
            let alias = self.fonts[i].0.as_str().to_owned();
            let bytes = vstd::slice::slice_to_vec(self.fonts[i].1.as_slice());
            plan.push((alias, bytes, is_default));
            proof {
                assert(plan_entry_matches(
                    plan@[i as int],
                    self.fonts@[i as int],
                    self.default_index,
                    i as int,
                ));
            }
            i = i + 1;
        }
        plan
    }
}

/// Whether one migration-plan entry mirrors one placeholder registration:
/// same alias, same bytes, and flagged as default exactly when the
/// recorded default index points at it.
pub open spec fn plan_entry_matches(
    e: (String, Vec<u8>, bool),
    f: (String, Vec<u8>),
    default_index: Option<usize>,
    j: int,
) -> bool {
    &&& e.0@ == f.0@
    &&& e.1@ == f.1@
    &&& (e.2 <==> default_index == Some(j as usize))
}

/// A concrete renderer's stores: fonts, images, and vector graphics, each
/// generic over the backend-native resource it holds.
pub struct ConcreteRendererData<F, I, D, S> {
    pub fonts: FontCache<F>,
    pub images: ImageCache<I>,
    pub svgs: SvgCache<D, S>,
}

impl<F, I, D, S> ConcreteRendererData<F, I, D, S> {
    pub open spec fn wf(&self) -> bool {
        &&& self.fonts.wf()
        &&& self.images.wf()
        &&& self.svgs.wf()
    }

    /// Empty caches.
    pub fn new() -> (r: Self)
        ensures
            r.wf(),
            r.fonts.model().entries.len() == 0,
            r.images.entries@.len() == 0,
            r.svgs.entries@.len() == 0,
    {
        Self { fonts: FontCache::new(), images: ImageCache::new(), svgs: SvgCache::new() }
    }
}

/// The store a backend hands its renderer: the placeholder before a
/// concrete backend exists, and the concrete caches afterwards.
pub enum RendererData<F, I, D, S> {
    Placeholder(PlaceholderRendererData),
    Concrete(ConcreteRendererData<F, I, D, S>),
}

impl<F, I, D, S> RendererData<F, I, D, S> {
    pub open spec fn wf(&self) -> bool {
        match self {
            RendererData::Placeholder(p) => p.wf(),
            RendererData::Concrete(c) => c.wf(),
        }
    }

    /// The store every backend starts with.
    pub fn placeholder() -> (r: Self)
        ensures
            r.wf(),
            r matches RendererData::Placeholder(p) && p.fonts@.len() == 0 && p.default_index
                is None,
    {
        RendererData::Placeholder(PlaceholderRendererData::new())
    }

    /// Replaces the placeholder with a concrete store, exactly once: a
    /// store that is already concrete is left untouched and the caller is
    /// told so. There is no concrete-to-concrete migration path.
    pub fn transform_with(&mut self, concrete: ConcreteRendererData<F, I, D, S>) -> (applied:
        bool)
        ensures
            (*old(self)) is Placeholder ==> applied && ((*final(self)) matches RendererData::Concrete(c)
                && c == concrete),
            (*old(self)) is Concrete ==> !applied && *final(self) == *old(self),
    {
        match self {
            RendererData::Placeholder(_) => {
                *self = RendererData::Concrete(concrete);
                true
            },
            RendererData::Concrete(_) => false,
        }
    }

    /// Evicts every window-scoped cache entry tied to the given window.
    /// The placeholder holds nothing window-scoped; in a concrete store
    /// only the vector-graphics cache is window-scoped.
    pub fn remove_window_data(&mut self, window_id: &WindowId)
        requires
            old(self).wf(),
        ensures
            final(self).wf(),
            (*old(self)) is Placeholder ==> *final(self) == *old(self),
            (*old(self)) matches RendererData::Concrete(c0) ==> (*final(self))
                matches RendererData::Concrete(c1) && c1.fonts == c0.fonts && c1.images
                == c0.images && (forall|id: u128|
                spec_get(c1.svgs.entries@, id) == purge_entry(
                    spec_get(c0.svgs.entries@, id),
                    *window_id,
                )),
    {
        match self {
            RendererData::Placeholder(_) => {},
            RendererData::Concrete(c) => {
                c.svgs.remove_window_data(window_id);
            },
        }
    }
}

impl Window {
    /// Closes the window: its window-scoped cache entries are evicted
    /// before any further access. The native window itself is owned by the
    /// loop thread and goes away with its last handle.
    pub fn close<F, I, D, S>(self, renderer_data: &mut RendererData<F, I, D, S>)
        requires
            old(renderer_data).wf(),
        ensures
            final(renderer_data).wf(),
            (*old(renderer_data)) is Placeholder ==> *final(renderer_data) == *old(renderer_data),
            (*old(renderer_data)) matches RendererData::Concrete(c0) ==> (*final(renderer_data))
                matches RendererData::Concrete(c1) && c1.fonts == c0.fonts && c1.images
                == c0.images && (forall|id: u128|
                spec_get(c1.svgs.entries@, id) == purge_entry(
                    spec_get(c0.svgs.entries@, id),
                    self.model().id,
                )),
    {
        let id = self.id();
        renderer_data.remove_window_data(&id);
    }
}

/// The abstract replay of a migration plan: each entry registered in
/// order, as the default where it is flagged.
pub open spec fn replay_fonts<F>(m: FontModel<F>, plan: Seq<(Seq<char>, F, bool)>) -> FontModel<F>
    decreases plan.len(),
{
    if plan.len() == 0 {
        m
    } else {
        let prev = replay_fonts(m, plan.drop_last());
        let step = plan.last();
        if step.2 {
            register_default_font_model(prev, step.0, step.1)
        } else {
            register_font_model(prev, step.0, step.1)
        }
    }
}

/// The empty font-cache state a replay starts from.
pub open spec fn empty_font_model<F>() -> FontModel<F> {
    FontModel { entries: Seq::empty(), default_index: None }
}

/// Replaying a plan with no default flag and distinct aliases keeps the
/// order, and the first entry becomes default, as the placeholder's own
/// rule made it.
pub proof fn lemma_replay_plain<F>(plan: Seq<(Seq<char>, F, bool)>)
    requires
        forall|i: int| 0 <= i < plan.len() ==> !plan[i].2,
        forall|i: int, j: int| 0 <= i < j < plan.len() ==> plan[i].0 != plan[j].0,
    ensures
        replay_fonts(empty_font_model::<F>(), plan).entries == Seq::new(
            plan.len(),
            |i: int| (plan[i].0, plan[i].1),
        ),
        replay_fonts(empty_font_model::<F>(), plan).default_index == (if plan.len() == 0 {
            None
        } else {
            Some(0int)
        }),
    decreases plan.len(),
{
    if plan.len() == 0 {
        assert(replay_fonts(empty_font_model::<F>(), plan).entries =~= Seq::new(
            plan.len(),
            |i: int| (plan[i].0, plan[i].1),
        ));
    } else {
        let prefix = plan.drop_last();
        lemma_replay_plain(prefix);
        let prev = replay_fonts(empty_font_model::<F>(), prefix);
        let step = plan.last();
        assert(forall|j: int| 0 <= j < prev.entries.len() ==> prev.entries[j].0 == prefix[j].0);
        assert forall|j: int| 0 <= j < prev.entries.len() implies prev.entries[j].0 != step.0 by {
            assert(plan[j].0 != plan[plan.len() - 1].0);
        }
        lemma_find_key_absent(prev.entries, step.0);
        assert(replay_fonts(empty_font_model::<F>(), plan).entries =~= Seq::new(
            plan.len(),
            |i: int| (plan[i].0, plan[i].1),
        ));
    }
}

/// Migration preserves the default: replaying a plan whose single default
/// flag sits at index `k`, with distinct aliases, into an empty cache
/// keeps every entry in original order and leaves the entry at `k` as the
/// default.
pub proof fn lemma_migration_preserves_default<F>(plan: Seq<(Seq<char>, F, bool)>, k: int)
    requires
        0 <= k < plan.len(),
        forall|i: int| 0 <= i < plan.len() ==> (plan[i].2 <==> i == k),
        forall|i: int, j: int| 0 <= i < j < plan.len() ==> plan[i].0 != plan[j].0,
    ensures
        replay_fonts(empty_font_model::<F>(), plan).entries == Seq::new(
            plan.len(),
            |i: int| (plan[i].0, plan[i].1),
        ),
        replay_fonts(empty_font_model::<F>(), plan).default_index == Some(k),
        replay_fonts(empty_font_model::<F>(), plan).default_alias() == Some(plan[k].0),
    decreases plan.len(),
{
    let prefix = plan.drop_last();
    let prev = replay_fonts(empty_font_model::<F>(), prefix);
    let step = plan.last();
    if k == plan.len() - 1 {
        assert(forall|i: int| 0 <= i < prefix.len() ==> !prefix[i].2);
        lemma_replay_plain(prefix);
        assert(forall|j: int| 0 <= j < prev.entries.len() ==> prev.entries[j].0 == prefix[j].0);
        assert forall|j: int| 0 <= j < prev.entries.len() implies prev.entries[j].0 != step.0 by {
            assert(plan[j].0 != plan[plan.len() - 1].0);
        }
        lemma_find_key_absent(prev.entries, step.0);
        assert(step.2);
        assert(replay_fonts(empty_font_model::<F>(), plan).entries =~= Seq::new(
            plan.len(),
            |i: int| (plan[i].0, plan[i].1),
        ));
    } else {
        lemma_migration_preserves_default(prefix, k);
        assert(forall|j: int| 0 <= j < prev.entries.len() ==> prev.entries[j].0 == prefix[j].0);
        assert forall|j: int| 0 <= j < prev.entries.len() implies prev.entries[j].0 != step.0 by {
            assert(plan[j].0 != plan[plan.len() - 1].0);
        }
        lemma_find_key_absent(prev.entries, step.0);
        assert(!step.2);
        assert(replay_fonts(empty_font_model::<F>(), plan).entries =~= Seq::new(
            plan.len(),
            |i: int| (plan[i].0, plan[i].1),
        ));
    }
}

} // verus!
