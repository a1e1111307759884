use lumi2d::selection::{BackendType, RendererType, Selector, SkiaRenderingBackendTypes, run_selection};

#[test]
fn selection_picks_first_success_after_failures() {
    // Two always-failing candidates followed by one success: the failures
    // and the first success are attempted, nothing after it.
    let outcomes = vec![false, false, true, false, true];
    assert_eq!(run_selection(&outcomes), Some(2));
}

#[test]
fn selection_picks_immediate_success() {
    let outcomes = vec![true, false];
    assert_eq!(run_selection(&outcomes), Some(0));
}

#[test]
fn selection_exhausts_on_all_failures() {
    let outcomes = vec![false, false, false];
    assert_eq!(run_selection(&outcomes), None);
}

#[test]
fn selection_of_nothing_fails() {
    let outcomes: Vec<bool> = Vec::new();
    assert_eq!(run_selection(&outcomes), None);
}

#[test]
fn selector_walks_candidates_in_order() {
    let mut sel = Selector::new(3);
    assert_eq!(sel.current(), Some(0));
    sel.report_failure();
    assert_eq!(sel.current(), Some(1));
    sel.report_failure();
    assert_eq!(sel.current(), Some(2));
    sel.report_success();
    // After a success nothing further is attempted.
    assert_eq!(sel.current(), None);
    assert_eq!(sel.selected, Some(2));
    assert!(!sel.exhausted());
}

#[test]
fn selector_reports_exhaustion() {
    let mut sel = Selector::new(2);
    sel.report_failure();
    sel.report_failure();
    assert_eq!(sel.current(), None);
    assert!(sel.exhausted());
}

#[test]
fn candidate_orders_are_declaration_order() {
    assert_eq!(BackendType::candidates(), vec![BackendType::Winit, BackendType::Glfw]);
    assert_eq!(RendererType::candidates(), vec![RendererType::Vello, RendererType::Skia]);
    assert_eq!(
        SkiaRenderingBackendTypes::candidates(),
        vec![
            SkiaRenderingBackendTypes::Vulkan,
            SkiaRenderingBackendTypes::D3D,
            SkiaRenderingBackendTypes::Metal,
            SkiaRenderingBackendTypes::OpenGL,
        ]
    );
}

#[test]
fn default_types_are_first_candidates() {
    assert_eq!(BackendType::default(), BackendType::Winit);
    assert_eq!(RendererType::default(), RendererType::Vello);
}
