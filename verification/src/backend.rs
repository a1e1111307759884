//! The top-level backend handle: the selected windowing backend together
//! with the renderer store that its windows draw from.

use vstd::prelude::*;
use crate::bridge::{WindowBackend, spec_batch, spec_polled};
use crate::cache::{purge_entry, spec_get};
use crate::errors::BackendError;
use crate::events::{BackendEvent, Event};
use crate::renderer_data::{ConcreteRendererData, RendererData};
use crate::window::{Window, WindowDetails, WindowId, WindowModes};

verus! {

/// One windowing backend plus the resource store shared by its windows.
/// The store starts as the placeholder and is migrated exactly once when
/// a concrete renderer comes up.
#[verifier::reject_recursive_types(T)]
pub struct Backend<T, F, I, D, S> {
    pub window_backend: WindowBackend<T>,
    pub renderer_data: RendererData<F, I, D, S>,
}

impl<T, F, I, D, S> Backend<T, F, I, D, S> {
    pub open spec fn wf(&self) -> bool {
        self.renderer_data.wf()
    }

    /// Couples a windowing backend with the placeholder store.
    pub fn with_placeholder(window_backend: WindowBackend<T>) -> (r: Self)
        ensures
            r.wf(),
            r.renderer_data matches RendererData::Placeholder(p) && p.fonts@.len() == 0
                && p.default_index is None,
    {
        Self { window_backend, renderer_data: RendererData::placeholder() }
    }

    /// The resource store the renderer reads.
    pub fn data(&self) -> (r: &RendererData<F, I, D, S>)
        ensures
            r == self.renderer_data,
    {
        &self.renderer_data
    }

    /// The resource store, under the name the renderer-facing callers use.
    pub fn renderer_data(&self) -> (r: &RendererData<F, I, D, S>)
        ensures
            r == self.renderer_data,
    {
        &self.renderer_data
    }

    /// Migrates the placeholder into a freshly built concrete store,
    /// exactly once; a second migration leaves the store untouched.
    pub fn transform_renderer_data(&mut self, concrete: ConcreteRendererData<F, I, D, S>) -> (applied:
        bool)
        ensures
            old(self).renderer_data is Placeholder ==> applied && (
            final(self).renderer_data matches RendererData::Concrete(c) && c == concrete),
            old(self).renderer_data is Concrete ==> !applied && final(self).renderer_data == old(
                self,
            ).renderer_data,
            final(self).window_backend == old(self).window_backend,
    {
        self.renderer_data.transform_with(concrete)
    }

    /// See `WinitBackend::create_window`.
    pub fn create_window(&self, info: WindowDetails) -> (r: Result<Window, BackendError>)
        ensures
            r matches Ok(w) ==> w.wf(),
            r matches Err(e) ==> e == BackendError::Protocol || e
                == BackendError::WindowCreation,
    {
        self.window_backend.create_window(info)
    }

    /// See `WinitBackend::set_mode`.
    pub fn set_mode(&self, window: &Window, mode: WindowModes) -> (r: bool) {
        self.window_backend.set_mode(window, mode)
    }

    /// Closes a window: every window-scoped cache entry tied to it is
    /// evicted before any further access; fonts, images, and entries tied
    /// to other windows are untouched.
    pub fn close_window(&mut self, window: Window)
        requires
            old(self).wf(),
        ensures
            final(self).wf(),
            final(self).window_backend == old(self).window_backend,
            old(self).renderer_data is Placeholder ==> final(self).renderer_data == old(
                self,
            ).renderer_data,
            old(self).renderer_data matches RendererData::Concrete(c0) ==> (
            final(self).renderer_data matches RendererData::Concrete(c1) && c1.fonts == c0.fonts
                && c1.images == c0.images && (forall|id: u128|
                spec_get(c1.svgs.entries@, id) == purge_entry(
                    spec_get(c0.svgs.entries@, id),
                    window.model().id,
                ))),
    {
        window.close(&mut self.renderer_data);
    }

    /// See `WinitBackend::flush_events`.
    pub fn flush_events(&self) -> (r: Vec<Event<T>>)
        ensures
            exists|b: Seq<BackendEvent>, c: Seq<Event<T>>| r@ == spec_polled(b, c),
    {
        self.window_backend.flush_events()
    }

    /// See `WinitBackend::next_blocking_batch`.
    pub fn next_blocking_batch(&self) -> (r: Option<Vec<Event<T>>>)
        ensures
            r matches Some(batch) ==> batch@.len() >= 1 && (batch@[0] matches Event::Backend(
                _,
            )) && (exists|first: BackendEvent, rest: Seq<BackendEvent>, custom: Seq<Event<T>>|
            batch@ == spec_batch(first, rest, custom)),
    {
        self.window_backend.next_blocking_batch()
    }

    /// See `WinitBackend::send_event`.
    pub fn send_event(&self, event: Event<T>) -> (r: bool) {
        self.window_backend.send_event(event)
    }

    /// See `WinitBackend::send_custom`.
    pub fn send_custom(&self, custom_event: T) -> (r: bool) {
        self.window_backend.send_custom(custom_event)
    }

    /// See `WinitBackend::sender`.
    pub fn sender(&self) -> crossbeam_channel::Sender<Event<T>> {
        self.window_backend.sender()
    }

    /// See `WinitBackend::unsubscribe`.
    pub fn unsubscribe(&mut self)
        ensures
            final(self).renderer_data == old(self).renderer_data,
            old(self).window_backend matches WindowBackend::Winit(b0) ==> final(self).window_backend
                == WindowBackend::Winit(
                (crate::bridge::WinitBackend { unsubscribe: true, ..b0 }),
            ),
    {
        self.window_backend.unsubscribe()
    }

    /// See `WinitBackend::exit`.
    pub fn exit(&mut self)
        ensures
            final(self).renderer_data == old(self).renderer_data,
            old(self).window_backend matches WindowBackend::Winit(b0) ==> final(self).window_backend
                == WindowBackend::Winit(
                (crate::bridge::WinitBackend { unsubscribe: true, ..b0 }),
            ),
    {
        self.window_backend.exit()
    }
}

} // verus!
