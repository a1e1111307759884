//! The cross-thread window/event bridge.
//!
//! The OS windowing library requires its event loop to own all native
//! window objects and run on a dedicated thread. The application's logic
//! runs on a worker thread and talks to the loop thread over channels:
//! a command channel for window-creation requests and exit, a response
//! channel back, and an event channel delivering every translated native
//! event in arrival order. The application thread never holds a native
//! window object — only the opaque identity and cached attributes that a
//! response carries.

use vstd::prelude::*;
use crate::channel::{channel, channel_drain, channel_recv, channel_send, channel_sender_clone};
use crate::errors::BackendError;
use crate::events::{BackendEvent, Event};
use crate::scale::Scale;
use crate::structs::Dimensions;
use crate::window::{Window, WindowDetails, WindowId, WindowModes, WinitWindow};

verus! {

/// What the worker thread asks of the loop thread. Each `CreateWindow` is
/// a single in-flight synchronous request.
pub enum Command {
    CreateWindow(WindowDetails),
    /// Change a live window's display mode; the loop thread resolves it
    /// against what the monitor offers and applies the result.
    SetWindowMode(WindowId, WindowModes),
    Exit,
}

/// What the loop thread answers.
pub enum Response {
    /// The created window's identity and cached attributes.
    WindowCreated(WindowInfo),
    /// The OS refused to create the window; the request fails
    /// recoverably instead of blocking its sender forever.
    WindowCreationFailed,
    /// The loop acknowledges the exit request and terminates.
    Exiting,
}

/// The plain attributes of a freshly created native window.
#[derive(Debug, Clone, Copy, PartialEq, Eq, Structural)]
pub struct WindowInfo {
    pub id: WindowId,
    pub physical: Dimensions,
    /// The OS-reported scale factor, in thousandths.
    pub scale_millis: u32,
}

/// The application-side model a window response resolves to: the OS scale
/// becomes both the target and the initial current scale, clamped away
/// from zero so it can divide inbound coordinates.
pub open spec fn spec_window_from_info(info: WindowInfo) -> WinitWindow {
    let millis: u32 = if info.scale_millis == 0 {
        1u32
    } else {
        info.scale_millis
    };
    WinitWindow {
        id: info.id,
        physical: info.physical,
        target_scale: Scale { millis },
        current_scale: Scale { millis },
    }
}

/// Builds the application-side window from a creation response.
pub fn window_from_info(info: WindowInfo) -> (r: Window)
    ensures
        r == Window::Winit(spec_window_from_info(info)),
        r.wf(),
{
    let millis: u32 = if info.scale_millis == 0 {
        1
    } else {
        info.scale_millis
    };
    Window::Winit(
        WinitWindow {
            id: info.id,
            physical: info.physical,
            target_scale: Scale::from_millis(millis),
            current_scale: Scale::from_millis(millis),
        },
    )
}

/// The loop thread's ends of the bridge: where commands arrive, where
/// responses go back, and where every translated native event is sent.
#[verifier::reject_recursive_types(T)]
pub struct LoopEndpoints<T> {
    pub command_receiver: crossbeam_channel::Receiver<Command>,
    pub response_sender: crossbeam_channel::Sender<Response>,
    pub backend_event_sender: crossbeam_channel::Sender<BackendEvent>,
    pub custom_event_sender: crossbeam_channel::Sender<Event<T>>,
}

/// The worker thread's end of the bridge.
#[verifier::reject_recursive_types(T)]
pub struct WinitBackend<T> {
    pub command_sender: crossbeam_channel::Sender<Command>,
    pub response_receiver: crossbeam_channel::Receiver<Response>,
    pub backend_event_receiver: crossbeam_channel::Receiver<BackendEvent>,
    pub event_receiver: crossbeam_channel::Receiver<Event<T>>,
    pub event_sender: crossbeam_channel::Sender<Event<T>>,
    /// Cooperative-cancellation flag: cleared when a subscription starts.
    pub unsubscribe: bool,
}

/// The one shape a blocking batch may have: the backend event that woke
/// the subscriber, then everything queued behind it in arrival order,
/// then the custom events drained with it — never split, never reordered.
pub open spec fn spec_batch<T>(
    first: BackendEvent,
    rest: Seq<BackendEvent>,
    custom: Seq<Event<T>>,
) -> Seq<Event<T>> {
    seq![Event::<T>::Backend(first)] + rest.map(|i: int, e: BackendEvent| Event::<T>::Backend(e))
        + custom
}

/// One blocking batch: all queued events in arrival order, handed to one
/// callback invocation.
pub fn make_batch<T>(first: BackendEvent, backend_rest: Vec<BackendEvent>, custom: Vec<Event<T>>)
    -> (r: Vec<Event<T>>)
    ensures
        r@ == spec_batch(first, backend_rest@, custom@),
        r@.len() == 1 + backend_rest@.len() + custom@.len(),
        r@[0] == Event::<T>::Backend(first),
        forall|i: int|
            1 <= i < 1 + backend_rest@.len() ==> r@[i] == Event::<T>::Backend(
                backend_rest@[i - 1],
            ),
        forall|i: int|
            1 + backend_rest@.len() <= i < r@.len() ==> r@[i] == custom@[i - 1
                - backend_rest@.len()],
{
    let ghost b0 = backend_rest@;
    let ghost c0 = custom@;
    let mut rest = backend_rest;
    let mut custom = custom;
    let mut out: Vec<Event<T>> = Vec::new();
    out.push(Event::Backend(first));
    let mut k: usize = 0;
    let n: usize = rest.len();
    while k < n
        invariant
            n == b0.len(),
            b0.len() <= usize::MAX,
            k <= n,
            rest@ =~= b0.skip(k as int),
            out@.len() == 1 + k,
            out@[0] == Event::<T>::Backend(first),
            forall|i: int| 1 <= i < 1 + k ==> out@[i] == Event::<T>::Backend(b0[i - 1]),
        decreases n - k,
    {
        let e = rest.remove(0);
        proof {
            assert(e == b0[k as int]);
            assert(rest@ =~= b0.skip(k as int + 1));
        }
        out.push(Event::Backend(e));
        k = k + 1;
    }
    out.append(&mut custom);
    proof {
        assert(out@ =~= spec_batch(first, b0, c0));
    }
    out
}

/// The one shape a polled result may have: the drained backend events
/// wrapped in arrival order, then the drained custom events in arrival
/// order — and when nothing was queued, an empty sequence.
pub open spec fn spec_polled<T>(backend: Seq<BackendEvent>, custom: Seq<Event<T>>) -> Seq<
    Event<T>,
> {
    backend.map(|i: int, e: BackendEvent| Event::<T>::Backend(e)) + custom
}

/// One polled batch: the drained backend events wrapped in arrival order,
/// then the drained custom events in arrival order — and when nothing was
/// queued, an empty sequence.
pub fn combine_polled<T>(backend: Vec<BackendEvent>, custom: Vec<Event<T>>) -> (r: Vec<Event<T>>)
    ensures
        r@ == spec_polled(backend@, custom@),
        r@.len() == backend@.len() + custom@.len(),
        forall|i: int|
            0 <= i < backend@.len() ==> r@[i] == Event::<T>::Backend(backend@[i]),
        forall|i: int|
            backend@.len() <= i < r@.len() ==> r@[i] == custom@[i - backend@.len()],
        backend@.len() == 0 && custom@.len() == 0 ==> r@.len() == 0,
{
    let ghost b0 = backend@;
    let ghost c0 = custom@;
    let mut rest = backend;
    let mut custom = custom;
    let mut out: Vec<Event<T>> = Vec::new();
    let mut k: usize = 0;
    let n: usize = rest.len();
    while k < n
        invariant
            n == b0.len(),
            b0.len() <= usize::MAX,
            k <= n,
            rest@ =~= b0.skip(k as int),
            out@.len() == k,
            forall|i: int| 0 <= i < k ==> out@[i] == Event::<T>::Backend(b0[i]),
        decreases n - k,
    {
        let e = rest.remove(0);
        proof {
            assert(e == b0[k as int]);
            assert(rest@ =~= b0.skip(k as int + 1));
        }
        out.push(Event::Backend(e));
        k = k + 1;
    }
    out.append(&mut custom);
    proof {
        assert(out@ =~= spec_polled(b0, c0));
    }
    out
}

impl<T> WinitBackend<T> {
    /// Builds the bridge's channels: the worker-side backend and the
    /// endpoints the loop thread takes with it.
    pub fn create_bridge() -> (r: (WinitBackend<T>, LoopEndpoints<T>))
        ensures
            !r.0.unsubscribe,
    {
        let (command_sender, command_receiver) = channel();
        let (response_sender, response_receiver) = channel();
        let (backend_event_sender, backend_event_receiver) = channel();
        let (event_sender, event_receiver) = channel();
        let loop_event_sender = channel_sender_clone(&event_sender);
        (
            WinitBackend {
                command_sender,
                response_receiver,
                backend_event_receiver,
                event_receiver,
                event_sender,
                unsubscribe: false,
            },
            LoopEndpoints {
                command_receiver,
                response_sender,
                backend_event_sender,
                custom_event_sender: loop_event_sender,
            },
        )
    }

    /// Sends `CreateWindow` and blocks on the response channel with no
    /// timeout. A well-behaved loop thread answers with the new window's
    /// attributes or with a creation failure; a dropped or wrong response
    /// is the protocol violation error, never a panic.
    pub fn create_window(&self, info: WindowDetails) -> (r: Result<Window, BackendError>)
        ensures
            r matches Ok(w) ==> w.wf() && (exists|info: WindowInfo| w == Window::Winit(
                spec_window_from_info(info),
            )),
            r matches Err(e) ==> e == BackendError::Protocol || e
                == BackendError::WindowCreation,
    {
        match channel_send(&self.command_sender, Command::CreateWindow(info)) {
            Ok(()) => {},
            Err(_) => {
                return Err(BackendError::Protocol);
            },
        }
        match channel_recv(&self.response_receiver) {
            Some(Response::WindowCreated(window_info)) => {
                let w = window_from_info(window_info);
                proof {
                    assert(w == Window::Winit(spec_window_from_info(window_info)));
                }
                Ok(w)
            },
            Some(Response::WindowCreationFailed) => Err(BackendError::WindowCreation),
            Some(Response::Exiting) => Err(BackendError::Protocol),
            None => Err(BackendError::Protocol),
        }
    }

    /// Asks the loop thread to change a live window's display mode. The
    /// resolution against the monitor happens loop-side through
    /// `resolve_display_mode`; false means the loop thread is gone.
    pub fn set_mode(&self, window: &Window, mode: WindowModes) -> (r: bool) {
        let id = window.id();
        match channel_send(&self.command_sender, Command::SetWindowMode(id, mode)) {
            Ok(()) => true,
            Err(_) => false,
        }
    }

    /// Requests loop termination: any blocking subscription loop stops
    /// after its current batch, the loop thread is told to exit, and its
    /// acknowledgement is awaited. Only the cancellation flag changes;
    /// every channel endpoint is kept.
    pub fn exit(&mut self)
        ensures
            *final(self) == (WinitBackend { unsubscribe: true, ..*old(self) }),
    {
        self.unsubscribe = true;
        let _ = channel_send(&self.command_sender, Command::Exit);
        let _ = channel_recv(&self.response_receiver);
    }

    /// Cooperative cancellation: a blocking subscription loop stops only
    /// after the in-progress callback returns. Only the cancellation flag
    /// changes: no queued event is dropped, no channel endpoint is given
    /// up, and no window is closed.
    pub fn unsubscribe(&mut self)
        ensures
            *final(self) == (WinitBackend { unsubscribe: true, ..*old(self) }),
    {
        self.unsubscribe = true;
    }

    /// Marks a subscription as started, clearing any previous cooperative
    /// cancellation; everything else is kept.
    pub fn begin_subscription(&mut self)
        ensures
            *final(self) == (WinitBackend { unsubscribe: false, ..*old(self) }),
    {
        self.unsubscribe = false;
    }

    /// Drains whatever is immediately available — translated native
    /// events first, then custom events, each in arrival order — and
    /// returns at once, even if the result is empty: the result is the
    /// polled combination of what the two queues held.
    pub fn flush_events(&self) -> (r: Vec<Event<T>>)
        ensures
            exists|b: Seq<BackendEvent>, c: Seq<Event<T>>| r@ == spec_polled(b, c),
    {
        let backend = channel_drain(&self.backend_event_receiver);
        let custom = channel_drain(&self.event_receiver);
        let r = combine_polled(backend, custom);
        proof {
            assert(r@ == spec_polled(backend@, custom@));
        }
        r
    }

    /// Blocks until at least one backend event is queued, then hands back
    /// that event and everything queued behind it as one batch — or
    /// nothing, when the loop thread is gone and the channel is empty.
    /// The subscription loop invokes its callback once per batch.
    pub fn next_blocking_batch(&self) -> (r: Option<Vec<Event<T>>>)
        ensures
            r matches Some(batch) ==> batch@.len() >= 1 && (batch@[0] matches Event::Backend(
                _,
            )) && (exists|first: BackendEvent, rest: Seq<BackendEvent>, custom: Seq<Event<T>>|
            batch@ == spec_batch(first, rest, custom)),
    {
        match channel_recv(&self.backend_event_receiver) {
            Some(first) => {
                let backend_rest = channel_drain(&self.backend_event_receiver);
                let custom = channel_drain(&self.event_receiver);
                let batch = make_batch(first, backend_rest, custom);
                proof {
                    assert(batch@ == spec_batch(first, backend_rest@, custom@));
                }
                Some(batch)
            },
            None => None,
        }
    }

    /// Queues an event for the subscriber; false when the channel is gone.
    pub fn send_event(&self, event: Event<T>) -> (r: bool) {
        match channel_send(&self.event_sender, event) {
            Ok(()) => true,
            Err(_) => false,
        }
    }

    /// Queues a custom value for the subscriber; false when the channel is
    /// gone.
    pub fn send_custom(&self, custom_event: T) -> (r: bool) {
        self.send_event(Event::Custom(custom_event))
    }

    /// Another handle for queueing events from elsewhere.
    pub fn sender(&self) -> crossbeam_channel::Sender<Event<T>> {
        channel_sender_clone(&self.event_sender)
    }
}

/// The windowing backends behind one dispatching handle.
#[verifier::reject_recursive_types(T)]
pub enum WindowBackend<T> {
    Winit(WinitBackend<T>),
}

impl<T> WindowBackend<T> {
    /// See `WinitBackend::create_window`.
    pub fn create_window(&self, info: WindowDetails) -> (r: Result<Window, BackendError>)
        ensures
            r matches Ok(w) ==> w.wf(),
            r matches Err(e) ==> e == BackendError::Protocol || e
                == BackendError::WindowCreation,
    {
        match self {
            WindowBackend::Winit(b) => b.create_window(info),
        }
    }

    /// See `WinitBackend::set_mode`.
    pub fn set_mode(&self, window: &Window, mode: WindowModes) -> (r: bool) {
        match self {
            WindowBackend::Winit(b) => b.set_mode(window, mode),
        }
    }

    /// See `WinitBackend::flush_events`.
    pub fn flush_events(&self) -> (r: Vec<Event<T>>)
        ensures
            exists|b: Seq<BackendEvent>, c: Seq<Event<T>>| r@ == spec_polled(b, c),
    {
        match self {
            WindowBackend::Winit(b) => b.flush_events(),
        }
    }

    /// See `WinitBackend::next_blocking_batch`.
    pub fn next_blocking_batch(&self) -> (r: Option<Vec<Event<T>>>)
        ensures
            r matches Some(batch) ==> batch@.len() >= 1 && (batch@[0] matches Event::Backend(
                _,
            )) && (exists|first: BackendEvent, rest: Seq<BackendEvent>, custom: Seq<Event<T>>|
            batch@ == spec_batch(first, rest, custom)),
    {
        match self {
            WindowBackend::Winit(b) => b.next_blocking_batch(),
        }
    }

    /// See `WinitBackend::exit`.
    pub fn exit(&mut self)
        ensures
            (*old(self)) matches WindowBackend::Winit(b0) ==> (*final(self))
                == WindowBackend::Winit(WinitBackend { unsubscribe: true, ..b0 }),
    {
        match self {
            WindowBackend::Winit(b) => b.exit(),
        }
    }

    /// See `WinitBackend::unsubscribe`.
    pub fn unsubscribe(&mut self)
        ensures
            (*old(self)) matches WindowBackend::Winit(b0) ==> (*final(self))
                == WindowBackend::Winit(WinitBackend { unsubscribe: true, ..b0 }),
    {
        match self {
            WindowBackend::Winit(b) => b.unsubscribe(),
        }
    }

    /// See `WinitBackend::send_event`.
    pub fn send_event(&self, event: Event<T>) -> (r: bool) {
        match self {
            WindowBackend::Winit(b) => b.send_event(event),
        }
    }

    /// See `WinitBackend::send_custom`.
    pub fn send_custom(&self, custom_event: T) -> (r: bool) {
        match self {
            WindowBackend::Winit(b) => b.send_custom(custom_event),
        }
    }

    /// See `WinitBackend::sender`.
    pub fn sender(&self) -> crossbeam_channel::Sender<Event<T>> {
        match self {
            WindowBackend::Winit(b) => b.sender(),
        }
    }
}

} // verus!
