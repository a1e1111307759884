//! Fallback backend selection.
//!
//! An ordered list of compiled-in backend variants is attempted one by one;
//! the first success wins and halts the iteration, a failure advances to the
//! next candidate, and exhausting the list is a fatal "no backend" outcome.
//! The same algorithm selects the windowing backend, the rendering backend,
//! and the GPU surface backend inside the renderer.

use vstd::prelude::*;

verus! {

/// The compiled-in windowing backends, in selection priority order.
#[derive(Debug, Clone, Copy, PartialEq, Eq, Structural)]
pub enum BackendType {
    Winit,
    Glfw,
}

impl BackendType {
    /// The candidates in declaration order, which is the selection order.
    pub fn candidates() -> (r: Vec<BackendType>)
        ensures
            r@ == seq![BackendType::Winit, BackendType::Glfw],
    {
        let mut v: Vec<BackendType> = Vec::new();
        v.push(BackendType::Winit);
        v.push(BackendType::Glfw);
        proof {
            assert(v@ =~= seq![BackendType::Winit, BackendType::Glfw]);
        }
        v
    }
}

impl Default for BackendType {
    /// The first candidate in declaration order.
    fn default() -> (r: Self)
        ensures
            r == BackendType::Winit,
    {
        BackendType::Winit
    }
}

/// The compiled-in rendering backends, in selection priority order.
#[derive(Debug, Clone, Copy, PartialEq, Eq, Structural)]
pub enum RendererType {
    Vello,
    Skia,
}

impl RendererType {
    /// The candidates in declaration order, which is the selection order.
    pub fn candidates() -> (r: Vec<RendererType>)
        ensures
            r@ == seq![RendererType::Vello, RendererType::Skia],
    {
        let mut v: Vec<RendererType> = Vec::new();
        v.push(RendererType::Vello);
        v.push(RendererType::Skia);
        proof {
            assert(v@ =~= seq![RendererType::Vello, RendererType::Skia]);
        }
        v
    }
}

impl Default for RendererType {
    /// The first candidate in declaration order.
    fn default() -> (r: Self)
        ensures
            r == RendererType::Vello,
    {
        RendererType::Vello
    }
}

/// The GPU surface backends the Skia renderer can sit on, in selection
/// priority order.
#[derive(Debug, Clone, Copy, PartialEq, Eq, Structural)]
pub enum SkiaRenderingBackendTypes {
    Vulkan,
    D3D,
    Metal,
    OpenGL,
}

impl SkiaRenderingBackendTypes {
    /// The candidates in declaration order, which is the selection order.
    pub fn candidates() -> (r: Vec<SkiaRenderingBackendTypes>)
        ensures
            r@ == seq![
                SkiaRenderingBackendTypes::Vulkan,
                SkiaRenderingBackendTypes::D3D,
                SkiaRenderingBackendTypes::Metal,
                SkiaRenderingBackendTypes::OpenGL,
            ],
    {
        let mut v: Vec<SkiaRenderingBackendTypes> = Vec::new();
        v.push(SkiaRenderingBackendTypes::Vulkan);
        v.push(SkiaRenderingBackendTypes::D3D);
        v.push(SkiaRenderingBackendTypes::Metal);
        v.push(SkiaRenderingBackendTypes::OpenGL);
        proof {
            assert(v@ =~= seq![
                SkiaRenderingBackendTypes::Vulkan,
                SkiaRenderingBackendTypes::D3D,
                SkiaRenderingBackendTypes::Metal,
                SkiaRenderingBackendTypes::OpenGL,
            ]);
        }
        v
    }
}

/// The candidate the selection algorithm picks, given each candidate's
/// would-be outcome: the first success, if any.
pub open spec fn selection_pick(outcomes: Seq<bool>) -> Option<int>
    decreases outcomes.len(),
{
    if outcomes.len() == 0 {
        None
    } else if outcomes[0] {
        Some(0)
    } else {
        match selection_pick(outcomes.skip(1)) {
            Some(i) => Some(i + 1),
            None => None,
        }
    }
}

/// How many candidates the algorithm attempts: the failing prefix plus the
/// first success, or everything when all fail.
pub open spec fn selection_attempt_count(outcomes: Seq<bool>) -> int {
    match selection_pick(outcomes) {
        Some(i) => i + 1,
        None => outcomes.len() as int,
    }
}

/// What `selection_pick` returns is the first success: it succeeds, nothing
/// before it succeeds, and when it is absent every candidate fails.
pub proof fn lemma_selection_pick_props(outcomes: Seq<bool>)
    ensures
        match selection_pick(outcomes) {
            Some(k) => 0 <= k < outcomes.len() && outcomes[k] && (forall|j: int|
                0 <= j < k ==> !outcomes[j]),
            None => forall|j: int| 0 <= j < outcomes.len() ==> !outcomes[j],
        },
    decreases outcomes.len(),
{
    if outcomes.len() == 0 {
    } else if outcomes[0] {
    } else {
        let rest = outcomes.skip(1);
        lemma_selection_pick_props(rest);
        assert(forall|j: int| 0 <= j < rest.len() ==> rest[j] == outcomes[j + 1]);
        match selection_pick(rest) {
            Some(k) => {
                assert(outcomes[k + 1] == rest[k]);
                assert forall|j: int| 0 <= j < k + 1 implies !outcomes[j] by {
                    if j > 0 {
                        assert(rest[j - 1] == outcomes[j]);
                    }
                }
            },
            None => {
                assert forall|j: int| 0 <= j < outcomes.len() implies !outcomes[j] by {
                    if j > 0 {
                        assert(rest[j - 1] == outcomes[j]);
                    }
                }
            },
        }
    }
}

/// Given a list of always-failing candidates followed by one success at
/// index `k`, selection attempts exactly the `k` failing ones plus the first
/// success, in index order, and never attempts anything after the success.
pub proof fn lemma_selection_first_success(outcomes: Seq<bool>, k: int)
    requires
        0 <= k < outcomes.len(),
        outcomes[k],
        forall|j: int| 0 <= j < k ==> !outcomes[j],
    ensures
        selection_pick(outcomes) == Some(k),
        selection_attempt_count(outcomes) == k + 1,
        attempted_candidates(outcomes) == Seq::new((k + 1) as nat, |i: int| i),
{
    lemma_selection_pick_props(outcomes);
    let picked = selection_pick(outcomes);
    match picked {
        Some(p) => {
            if p < k {
                assert(!outcomes[p]);
                assert(false);
            }
            if p > k {
                assert(!outcomes[k]);
                assert(false);
            }
        },
        None => {
            assert(!outcomes[k]);
            assert(false);
        },
    }
}

/// The indices the algorithm attempts, in the order it attempts them.
pub open spec fn attempted_candidates(outcomes: Seq<bool>) -> Seq<int> {
    Seq::new(selection_attempt_count(outcomes) as nat, |i: int| i)
}

/// The state of one selection run: how many candidates there are, which one
/// is attempted next, and whether one has already succeeded.
#[derive(Debug, Clone, Copy, PartialEq, Eq, Structural)]
pub struct Selector {
    pub total: usize,
    pub next: usize,
    pub selected: Option<usize>,
}

impl Selector {
    pub open spec fn wf(&self) -> bool {
        &&& self.next <= self.total
    }

    /// Starts a selection over `total` candidates.
    pub fn new(total: usize) -> (r: Self)
        ensures
            r.wf(),
            r.total == total,
            r.next == 0,
            r.selected is None,
    {
        Self { total, next: 0, selected: None }
    }

    /// The candidate to attempt now: none once one succeeded or the list is
    /// exhausted.
    pub fn current(&self) -> (r: Option<usize>)
        ensures
            r == (if self.selected is None && self.next < self.total {
                Some(self.next)
            } else {
                None::<usize>
            }),
    {
        if self.selected.is_none() && self.next < self.total {
            Some(self.next)
        } else {
            None
        }
    }

    /// Records that the current candidate failed to initialize; selection
    /// advances to the next one.
    pub fn report_failure(&mut self)
        requires
            old(self).wf(),
            old(self).selected is None,
            old(self).next < old(self).total,
        ensures
            final(self).wf(),
            final(self).total == old(self).total,
            final(self).next == old(self).next + 1,
            final(self).selected is None,
    {
        self.next = self.next + 1;
    }

    /// Records that the current candidate initialized; selection halts with
    /// it and attempts nothing further.
    pub fn report_success(&mut self)
        requires
            old(self).wf(),
            old(self).selected is None,
            old(self).next < old(self).total,
        ensures
            final(self).wf(),
            final(self).total == old(self).total,
            final(self).next == old(self).next,
            final(self).selected == Some(old(self).next),
    {
        self.selected = Some(self.next);
    }

    /// True when every candidate was attempted and none succeeded.
    pub fn exhausted(&self) -> (r: bool)
        ensures
            r == (self.selected is None && self.next == self.total),
    {
        self.selected.is_none() && self.next == self.total
    }
}

/// Runs the selection loop against known per-candidate outcomes: the result
/// is the first success, reached after attempting exactly the failing prefix
/// before it, in order.
pub fn run_selection(outcomes: &Vec<bool>) -> (r: Option<usize>)
    ensures
        match r {
            Some(k) => selection_pick(outcomes@) == Some(k as int),
            None => selection_pick(outcomes@) is None,
        },
{
    let mut sel = Selector::new(outcomes.len());
    loop
        invariant
            sel.wf(),
            sel.total == outcomes.len(),
            sel.selected is None,
            forall|j: int| 0 <= j < sel.next ==> !outcomes@[j],
        decreases outcomes.len() - sel.next,
    {
        match sel.current() {
            Some(i) => {
                if outcomes[i] {
                    sel.report_success();
                    proof {
                        lemma_selection_first_success(outcomes@, i as int);
                    }
                    return Some(i);
                } else {
                    sel.report_failure();
                }
            },
            None => {
                proof {
                    lemma_selection_pick_props(outcomes@);
                    match selection_pick(outcomes@) {
                        Some(p) => {
                            assert(!outcomes@[p]);
                            assert(false);
                        },
                        None => {},
                    }
                }
                return None;
            },
        }
    }
}

} // verus!
