use modals::enums::ComponentStatus;
use modals::enums::Position;
use modals::interaction::apply_visibility;
use modals::status_modal_fn::content_color_class;
use modals::status_modal_fn::header_color_class;
use modals::status_modal_fn::position_token_class;
use modals::status_modal_fn::render_status_modal_fn;
use modals::status_modal_fn::status_box_class;
use modals::status_modal_fn::status_modal_fn_close;
use modals::status_modal_fn::StatusModalFnProps;

fn plain_props() -> StatusModalFnProps {
    StatusModalFnProps {
        title: String::from("Done"),
        description: String::from("The task finished."),
        position: None,
        status: None,
        button_status: None,
        text_color: None,
    }
}

#[test]
fn status_box_class_maps_every_status() {
    assert_eq!(status_box_class(Some(ComponentStatus::Info)), "modal-box bg-info rounded-box");
    assert_eq!(
        status_box_class(Some(ComponentStatus::Success)),
        "modal-box bg-success rounded-box"
    );
    assert_eq!(
        status_box_class(Some(ComponentStatus::Neutral)),
        "modal-box bg-neutral rounded-box"
    );
    assert_eq!(
        status_box_class(Some(ComponentStatus::Warning)),
        "modal-box bg-warning rounded-box"
    );
    assert_eq!(status_box_class(Some(ComponentStatus::Error)), "modal-box bg-error rounded-box");
}

#[test]
fn status_box_class_defaults_to_neutral() {
    assert_eq!(status_box_class(None), "modal-box bg-neutral rounded-box");
}

#[test]
fn header_color_class_maps_every_status_with_black_default() {
    assert_eq!(header_color_class(Some(ComponentStatus::Info)), "text-info");
    assert_eq!(header_color_class(Some(ComponentStatus::Success)), "text-success");
    assert_eq!(header_color_class(Some(ComponentStatus::Neutral)), "text-neutral");
    assert_eq!(header_color_class(Some(ComponentStatus::Warning)), "text-warning");
    assert_eq!(header_color_class(Some(ComponentStatus::Error)), "text-error");
    assert_eq!(header_color_class(None), "text-black");
}

#[test]
fn content_color_class_maps_to_content_counterparts() {
    assert_eq!(content_color_class(Some(ComponentStatus::Info)), "text-info-content");
    assert_eq!(content_color_class(Some(ComponentStatus::Success)), "text-success-content");
    assert_eq!(content_color_class(Some(ComponentStatus::Neutral)), "text-neutral-content");
    assert_eq!(content_color_class(Some(ComponentStatus::Warning)), "text-warning-content");
    assert_eq!(content_color_class(Some(ComponentStatus::Error)), "text-error-content");
    assert_eq!(content_color_class(None), "text-black");
}

#[test]
fn position_token_class_maps_every_placement() {
    assert_eq!(position_token_class(Some(Position::TopLeft)), "modal-top-left");
    assert_eq!(position_token_class(Some(Position::TopCenter)), "modal-top-middle");
    assert_eq!(position_token_class(Some(Position::TopRight)), "modal-top-right");
    assert_eq!(position_token_class(Some(Position::Center)), "modal-middle");
    assert_eq!(position_token_class(Some(Position::BottomLeft)), "modal-bottom-left");
    assert_eq!(position_token_class(Some(Position::BottomCenter)), "modal-bottom-middle");
    assert_eq!(position_token_class(Some(Position::BottomRight)), "modal-bottom-right");
}

#[test]
fn position_token_class_defaults_to_top_middle() {
    assert_eq!(position_token_class(None), "modal-top-middle");
}

#[test]
fn hidden_status_modal_fn_renders_nothing() {
    assert!(render_status_modal_fn(false, &plain_props()).is_none());
    // Re-rendering while hidden stays empty.
    assert!(render_status_modal_fn(false, &plain_props()).is_none());
}

#[test]
fn shown_status_modal_fn_renders_one_overlay() {
    let props = StatusModalFnProps {
        title: String::from("Warning"),
        description: String::from("Low disk space."),
        position: Some(Position::BottomRight),
        status: Some(ComponentStatus::Warning),
        button_status: Some(ComponentStatus::Info),
        text_color: Some(ComponentStatus::Error),
    };
    let overlay = render_status_modal_fn(true, &props).unwrap();
    assert_eq!(overlay.position_class, "modal-bottom-right");
    assert_eq!(overlay.box_class, "modal-box bg-warning rounded-box");
    assert_eq!(overlay.header_class, "font-bold text-2xl text-error");
    assert_eq!(overlay.description_class, "py-4 text-error-content");
    assert_eq!(overlay.button_class, "btn btn-sm rounded btn-info");
    assert_eq!(overlay.title, "Warning");
    assert_eq!(overlay.description, "Low disk space.");
}

#[test]
fn status_modal_fn_defaults_fall_back_per_axis() {
    let overlay = render_status_modal_fn(true, &plain_props()).unwrap();
    assert_eq!(overlay.position_class, "modal-top-middle");
    assert_eq!(overlay.box_class, "modal-box bg-neutral rounded-box");
    assert_eq!(overlay.header_class, "font-bold text-2xl text-black");
    assert_eq!(overlay.description_class, "py-4 text-black");
    assert_eq!(overlay.button_class, "btn btn-sm rounded");
}

#[test]
fn status_modal_fn_close_hides_and_runs_callback_once() {
    let effects = status_modal_fn_close();
    assert!(effects.hide_modal);
    assert_eq!(effects.callback_runs, 1);
    let mut visible = true;
    apply_visibility(effects, &mut visible);
    assert!(!visible);
    assert!(render_status_modal_fn(visible, &plain_props()).is_none());

    // A host that carries the effect out runs the callback exactly once.
    let mut calls: u32 = 0;
    let mut callback = || calls += 1;
    for _ in 0..effects.callback_runs {
        callback();
    }
    assert_eq!(calls, 1);
}
