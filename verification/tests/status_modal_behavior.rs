use modals::enums::Colors;
use modals::enums::ComponentStatus;
use modals::enums::Position;
use modals::interaction::apply_visibility;
use modals::status_modal::description_color_class;
use modals::status_modal::header_text_class;
use modals::status_modal::render_status_modal;
use modals::status_modal::status_background_class;
use modals::status_modal::status_modal_close;
use modals::status_modal::StatusModalProps;

fn plain_props() -> StatusModalProps {
    StatusModalProps {
        title: String::from("Saved"),
        description: String::from("Your changes were stored."),
        position: None,
        status: None,
        button_status: None,
        header_text_color: None,
        desc_text_color: None,
        custom_position_class: None,
    }
}

#[test]
fn status_background_class_maps_every_status() {
    assert_eq!(status_background_class(Some(ComponentStatus::Info)), "bg-info");
    assert_eq!(status_background_class(Some(ComponentStatus::Success)), "bg-success");
    assert_eq!(status_background_class(Some(ComponentStatus::Neutral)), "bg-neutral");
    assert_eq!(status_background_class(Some(ComponentStatus::Warning)), "bg-warning");
    assert_eq!(status_background_class(Some(ComponentStatus::Error)), "bg-error");
    assert_eq!(status_background_class(None), "bg-neutral");
}

#[test]
fn header_text_class_maps_every_status() {
    assert_eq!(header_text_class(Some(ComponentStatus::Info)), "text-info");
    assert_eq!(header_text_class(Some(ComponentStatus::Success)), "text-success");
    assert_eq!(header_text_class(Some(ComponentStatus::Neutral)), "text-neutral");
    assert_eq!(header_text_class(Some(ComponentStatus::Warning)), "text-warning");
    assert_eq!(header_text_class(Some(ComponentStatus::Error)), "text-error");
    assert_eq!(header_text_class(None), "text-black");
}

#[test]
fn description_color_class_maps_the_three_named_colors() {
    assert_eq!(description_color_class(Some(Colors::White)), "text-white");
    assert_eq!(description_color_class(Some(Colors::Black)), "text-black");
    assert_eq!(description_color_class(Some(Colors::Gray)), "text-gray");
}

#[test]
fn description_color_class_falls_back_to_black_for_other_colors() {
    assert_eq!(description_color_class(Some(Colors::Blue)), "text-black");
    assert_eq!(description_color_class(Some(Colors::Green)), "text-black");
    assert_eq!(description_color_class(Some(Colors::Yellow)), "text-black");
    assert_eq!(description_color_class(Some(Colors::Red)), "text-black");
    assert_eq!(description_color_class(None), "text-black");
}

#[test]
fn hidden_status_modal_renders_nothing() {
    assert!(render_status_modal(false, &plain_props()).is_none());
    // Re-rendering while hidden stays empty.
    assert!(render_status_modal(false, &plain_props()).is_none());
}

#[test]
fn shown_status_modal_renders_one_overlay_with_composed_classes() {
    let props = StatusModalProps {
        title: String::from("Problem"),
        description: String::from("The request failed."),
        position: Some(Position::TopLeft),
        status: Some(ComponentStatus::Error),
        button_status: Some(ComponentStatus::Error),
        header_text_color: Some(ComponentStatus::Warning),
        desc_text_color: Some(Colors::White),
        custom_position_class: None,
    };
    let overlay = render_status_modal(true, &props).unwrap();
    assert_eq!(overlay.frame_class, "sticky top-0 flex h-screen items-start justify-start");
    assert_eq!(overlay.box_class, "flex flex-col gap-4 m-2 modal-box bg-error");
    assert_eq!(overlay.header_class, "font-bold text-2xl text-warning");
    assert_eq!(overlay.description_class, "py-4 text-lg text-white");
    assert_eq!(overlay.button_class, "btn btn-sm rounded btn-error");
    assert_eq!(overlay.title, "Problem");
    assert_eq!(overlay.description, "The request failed.");
}

#[test]
fn status_modal_defaults_fall_back_per_axis() {
    let overlay = render_status_modal(true, &plain_props()).unwrap();
    assert_eq!(overlay.frame_class, "sticky top-0 flex h-screen items-center justify-center");
    assert_eq!(overlay.box_class, "flex flex-col gap-4 m-2 modal-box bg-neutral");
    assert_eq!(overlay.header_class, "font-bold text-2xl text-black");
    assert_eq!(overlay.description_class, "py-4 text-lg text-black");
    assert_eq!(overlay.button_class, "btn btn-sm rounded");
}

#[test]
fn status_modal_custom_class_is_used_verbatim() {
    let props = StatusModalProps {
        custom_position_class: Some(String::from("items-end justify-center")),
        position: Some(Position::TopRight),
        ..plain_props()
    };
    let overlay = render_status_modal(true, &props).unwrap();
    assert_eq!(overlay.frame_class, "sticky top-0 flex h-screen items-end justify-center");
}

#[test]
fn status_modal_close_hides_without_callback() {
    let effects = status_modal_close();
    assert!(effects.hide_modal);
    assert_eq!(effects.callback_runs, 0);
    let mut visible = true;
    apply_visibility(effects, &mut visible);
    assert!(!visible);
    assert!(render_status_modal(visible, &plain_props()).is_none());
}
