use lumi2d::backend::Backend;
use lumi2d::bridge::{Command, Response, WindowBackend, WindowInfo, WinitBackend, combine_polled, make_batch};
use lumi2d::renderer_data::{ConcreteRendererData, RendererData};
use lumi2d::errors::BackendError;
use lumi2d::events::{BackendEvent, Event, WindowEvent};
use lumi2d::structs::Dimensions;
use lumi2d::window::{Window, WindowId, WindowModes};

fn backend_event(n: u32) -> BackendEvent {
    BackendEvent { event: WindowEvent::MouseScroll(n as i32, 0), window_id: WindowId::Winit(1) }
}

#[test]
fn blocking_batch_delivers_all_queued_in_order() {
    // N events enqueued before the blocking subscriber wakes arrive as one
    // batch, in original arrival order — never split, never reordered.
    let (backend, endpoints): (WinitBackend<()>, _) = WinitBackend::create_bridge();
    for n in 0..5 {
        endpoints.backend_event_sender.send(backend_event(n)).unwrap();
    }
    let batch = backend.next_blocking_batch().expect("events are queued");
    assert_eq!(batch.len(), 5);
    for (n, event) in batch.iter().enumerate() {
        assert_eq!(*event, Event::Backend(backend_event(n as u32)));
    }
    // They were drained: polling now finds nothing.
    assert_eq!(backend.flush_events(), Vec::<Event<()>>::new());
}

#[test]
fn polling_with_zero_events_returns_empty_immediately() {
    // An empty queue polls to an empty sequence without blocking: this
    // test would hang on its single thread if flush ever blocked.
    let (backend, _endpoints): (WinitBackend<()>, _) = WinitBackend::create_bridge();
    assert_eq!(backend.flush_events(), Vec::<Event<()>>::new());
}

#[test]
fn polling_drains_backend_then_custom() {
    let (backend, endpoints): (WinitBackend<u32>, _) = WinitBackend::create_bridge();
    endpoints.backend_event_sender.send(backend_event(1)).unwrap();
    endpoints.backend_event_sender.send(backend_event(2)).unwrap();
    assert!(backend.send_custom(7));
    let events = backend.flush_events();
    assert_eq!(
        events,
        vec![
            Event::Backend(backend_event(1)),
            Event::Backend(backend_event(2)),
            Event::Custom(7),
        ]
    );
}

#[test]
fn make_batch_keeps_arrival_order() {
    let batch: Vec<Event<u32>> = make_batch(
        backend_event(0),
        vec![backend_event(1), backend_event(2)],
        vec![Event::Custom(9)],
    );
    assert_eq!(
        batch,
        vec![
            Event::Backend(backend_event(0)),
            Event::Backend(backend_event(1)),
            Event::Backend(backend_event(2)),
            Event::Custom(9),
        ]
    );
}

#[test]
fn combine_polled_of_nothing_is_empty() {
    let combined: Vec<Event<u32>> = combine_polled(Vec::new(), Vec::new());
    assert!(combined.is_empty());
}

#[test]
fn create_window_resolves_loop_response() {
    let (backend, endpoints): (WinitBackend<()>, _) = WinitBackend::create_bridge();
    // The loop thread's reply is queued before the request blocks on it.
    endpoints
        .response_sender
        .send(Response::WindowCreated(WindowInfo {
            id: WindowId::Winit(42),
            physical: Dimensions::new(640, 480),
            scale_millis: 1250,
        }))
        .unwrap();
    let window = backend
        .create_window(lumi2d::window::WindowDetails::default())
        .expect("a response is queued");
    assert_eq!(window.id(), WindowId::Winit(42));
    assert_eq!(window.physical_dimensions(), Dimensions::new(640, 480));
    assert_eq!(window.current_scale().millis, 1250);
    assert_eq!(window.target_scale().millis, 1250);
    match endpoints.command_receiver.recv().unwrap() {
        Command::CreateWindow(details) => {
            assert_eq!(details.width, 800);
            assert_eq!(details.height, 600);
            assert_eq!(details.title, "Lumi2D Window");
            assert!(matches!(details.mode, WindowModes::Maximized));
        }
        _ => panic!("a window creation was requested"),
    }
}

#[test]
fn dropped_response_channel_is_protocol_error() {
    // The loop thread dropping the response channel without replying is a
    // recoverable protocol error, not a panic.
    let (backend, endpoints): (WinitBackend<()>, _) = WinitBackend::create_bridge();
    drop(endpoints);
    let result = backend.create_window(lumi2d::window::WindowDetails::default());
    assert_eq!(result.err(), Some(BackendError::Protocol));
}

#[test]
fn wrong_response_is_protocol_error() {
    let (backend, endpoints): (WinitBackend<()>, _) = WinitBackend::create_bridge();
    endpoints.response_sender.send(Response::Exiting).unwrap();
    let result = backend.create_window(lumi2d::window::WindowDetails::default());
    assert_eq!(result.err(), Some(BackendError::Protocol));
}

#[test]
fn zero_reported_scale_is_clamped() {
    let window: Window = lumi2d::bridge::window_from_info(WindowInfo {
        id: WindowId::Winit(1),
        physical: Dimensions::new(1, 1),
        scale_millis: 0,
    });
    assert_eq!(window.current_scale().millis, 1);
}

#[test]
fn exit_requests_loop_termination() {
    let (mut backend, endpoints): (WinitBackend<()>, _) = WinitBackend::create_bridge();
    endpoints.response_sender.send(Response::Exiting).unwrap();
    backend.exit();
    assert!(backend.unsubscribe);
    assert!(matches!(endpoints.command_receiver.recv().unwrap(), Command::Exit));
}

#[test]
fn unsubscribe_flags_cooperative_stop() {
    let (mut backend, _endpoints): (WinitBackend<()>, _) = WinitBackend::create_bridge();
    backend.unsubscribe();
    assert!(backend.unsubscribe);
    backend.begin_subscription();
    assert!(!backend.unsubscribe);
}

#[test]
fn sender_handle_feeds_the_event_queue() {
    let (backend, _endpoints): (WinitBackend<u8>, _) = WinitBackend::create_bridge();
    let sender = backend.sender();
    sender.send(Event::Custom(3)).unwrap();
    assert_eq!(backend.flush_events(), vec![Event::Custom(3)]);
}

#[test]
fn backend_handle_couples_store_and_windows() {
    let (winit_backend, endpoints): (WinitBackend<()>, _) = WinitBackend::create_bridge();
    let mut backend: Backend<(), u32, u32, u8, u8> =
        Backend::with_placeholder(WindowBackend::Winit(winit_backend));
    assert!(matches!(backend.data(), RendererData::Placeholder(_)));

    let mut concrete = ConcreteRendererData::new();
    concrete.svgs.record_rasterized(
        1,
        lumi2d::cache::SvgWithSurface {
            dom: 0,
            surface: 0,
            width: 4,
            height: 4,
            associate_window: WindowId::Winit(42),
        },
    );
    assert!(backend.transform_renderer_data(concrete));
    assert!(!backend.transform_renderer_data(ConcreteRendererData::new()));

    // Closing a window purges its svg entries through the same handle.
    endpoints
        .response_sender
        .send(Response::WindowCreated(WindowInfo {
            id: WindowId::Winit(42),
            physical: Dimensions::new(10, 10),
            scale_millis: 1000,
        }))
        .unwrap();
    let window = backend.create_window(lumi2d::window::WindowDetails::default()).unwrap();
    backend.close_window(window);
    match backend.renderer_data() {
        RendererData::Concrete(c) => assert!(c.svgs.get_surface(1).is_none()),
        RendererData::Placeholder(_) => panic!("concrete"),
    }
}

#[test]
fn failed_window_creation_is_recoverable() {
    // The loop thread reports an OS refusal; the requester gets an error
    // instead of blocking forever.
    let (backend, endpoints): (WinitBackend<()>, _) = WinitBackend::create_bridge();
    endpoints.response_sender.send(Response::WindowCreationFailed).unwrap();
    let result = backend.create_window(lumi2d::window::WindowDetails::default());
    assert_eq!(result.err(), Some(BackendError::WindowCreation));
}

#[test]
fn set_mode_sends_a_command() {
    let (backend, endpoints): (WinitBackend<()>, _) = WinitBackend::create_bridge();
    endpoints
        .response_sender
        .send(Response::WindowCreated(WindowInfo {
            id: WindowId::Winit(9),
            physical: Dimensions::new(10, 10),
            scale_millis: 1000,
        }))
        .unwrap();
    let window = backend.create_window(lumi2d::window::WindowDetails::default()).unwrap();
    let _ = endpoints.command_receiver.recv().unwrap();

    assert!(backend.set_mode(&window, WindowModes::Fullscreen));
    match endpoints.command_receiver.recv().unwrap() {
        Command::SetWindowMode(id, mode) => {
            assert_eq!(id, WindowId::Winit(9));
            assert!(matches!(mode, WindowModes::Fullscreen));
        }
        _ => panic!("a mode change was requested"),
    }
}
