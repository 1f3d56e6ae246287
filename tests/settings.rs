use rusty_editor::settings::{QualityToggles, Rgba, Settings, SettingsAction, SettingsMessage};
use rusty_editor::widget::{WidgetHandle, WindowCommand};

fn h(i: u32) -> WidgetHandle {
    WidgetHandle::new(i, 0)
}

fn dialog() -> Settings {
    Settings::new(h(1), h(2), h(3), h(4), h(5), h(6), h(7), h(8), h(9), h(10))
}

fn all(v: bool) -> QualityToggles {
    QualityToggles {
        use_ssao: v,
        point_shadows_enabled: v,
        spot_shadows_enabled: v,
        light_scatter_enabled: v,
    }
}

fn check(dest: u32, checked: Option<bool>, current: QualityToggles) -> SettingsAction<f32> {
    dialog().handle_message(SettingsMessage::CheckBoxCheck { destination: h(dest), checked }, current)
}

#[test]
fn unchecking_ssao_turns_it_off() {
    let r = check(2, Some(false), all(true));
    assert_eq!(r, SettingsAction::SetQuality(QualityToggles { use_ssao: false, ..all(true) }));
}

#[test]
fn checking_each_box_sets_its_switch() {
    assert_eq!(
        check(3, Some(true), all(false)),
        SettingsAction::SetQuality(QualityToggles { point_shadows_enabled: true, ..all(false) })
    );
    assert_eq!(
        check(4, Some(true), all(false)),
        SettingsAction::SetQuality(QualityToggles { spot_shadows_enabled: true, ..all(false) })
    );
    assert_eq!(
        check(5, Some(true), all(false)),
        SettingsAction::SetQuality(QualityToggles { light_scatter_enabled: true, ..all(false) })
    );
}

#[test]
fn undecided_box_counts_as_unchecked() {
    assert_eq!(
        check(5, None, all(true)),
        SettingsAction::SetQuality(QualityToggles { light_scatter_enabled: false, ..all(true) })
    );
    assert_eq!(check(5, None, all(false)), SettingsAction::Nothing);
}

#[test]
fn unchanged_switch_is_not_set_again() {
    let r = check(2, Some(true), all(true));
    assert_eq!(r, SettingsAction::Nothing);
}

#[test]
fn same_check_twice_asks_once() {
    let first = check(4, Some(false), all(true));
    let next = QualityToggles { spot_shadows_enabled: false, ..all(true) };
    assert_eq!(first, SettingsAction::SetQuality(next));
    assert_eq!(check(4, Some(false), next), SettingsAction::Nothing);
}

#[test]
fn check_elsewhere_does_nothing() {
    assert_eq!(check(99, Some(true), all(false)), SettingsAction::Nothing);
}

#[test]
fn ambient_colour_from_user_is_applied() {
    let c = Rgba { r: 10, g: 20, b: 30, a: 255 };
    let msg = SettingsMessage::ColorFieldColor { destination: h(6), from_widget: true, color: c };
    assert_eq!(dialog().handle_message::<f32>(msg, all(true)), SettingsAction::SetAmbientColor(c));
    let msg = SettingsMessage::ColorFieldColor { destination: h(6), from_widget: false, color: c };
    assert_eq!(dialog().handle_message::<f32>(msg, all(true)), SettingsAction::Nothing);
    let msg = SettingsMessage::ColorFieldColor { destination: h(7), from_widget: true, color: c };
    assert_eq!(dialog().handle_message::<f32>(msg, all(true)), SettingsAction::Nothing);
}

#[test]
fn ok_closes_and_default_restores() {
    let d = dialog();
    let r = d.handle_message::<f32>(SettingsMessage::ButtonClick { destination: h(9) }, all(true));
    assert_eq!(r, SettingsAction::Window(WindowCommand::Close(h(1))));
    let r = d.handle_message::<f32>(SettingsMessage::ButtonClick { destination: h(10) }, all(true));
    assert_eq!(r, SettingsAction::RestoreDefaults);
    let r = d.handle_message::<f32>(SettingsMessage::ButtonClick { destination: h(2) }, all(true));
    assert_eq!(r, SettingsAction::Nothing);
}

#[test]
fn numeric_fields_move_clip_planes() {
    let d = dialog();
    let r = d.handle_message(SettingsMessage::NumericValue { destination: h(7), value: 0.25f32 }, all(true));
    assert_eq!(r, SettingsAction::SetZNear(0.25));
    let r = d.handle_message(SettingsMessage::NumericValue { destination: h(8), value: 500.0f32 }, all(true));
    assert_eq!(r, SettingsAction::SetZFar(500.0));
    let r = d.handle_message(SettingsMessage::NumericValue { destination: h(6), value: 1.0f32 }, all(true));
    assert_eq!(r, SettingsAction::Nothing);
}

#[test]
fn other_events_do_nothing() {
    assert_eq!(dialog().handle_message::<f32>(SettingsMessage::Other, all(true)), SettingsAction::Nothing);
}

#[test]
fn open_shows_window() {
    assert_eq!(dialog().open(), WindowCommand::Open(h(1)));
}

#[test]
fn check_box_states_follow_switches() {
    let t = QualityToggles {
        use_ssao: true,
        point_shadows_enabled: false,
        spot_shadows_enabled: true,
        light_scatter_enabled: false,
    };
    assert_eq!(
        dialog().check_box_states(t),
        vec![(h(2), true), (h(3), false), (h(4), true), (h(5), false)]
    );
}
