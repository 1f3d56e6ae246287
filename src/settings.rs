use vstd::prelude::*;

use crate::widget::{WidgetHandle, WindowCommand};

verus! {

/// The switches of the renderer's quality settings that the dialog edits.
#[derive(Clone, Copy, Debug, PartialEq, Eq, Structural)]
pub struct QualityToggles {
    pub use_ssao: bool,
    pub point_shadows_enabled: bool,
    pub spot_shadows_enabled: bool,
    pub light_scatter_enabled: bool,
}

/// A colour with 8-bit channels.
#[derive(Clone, Copy, Debug, PartialEq, Eq, Structural)]
pub struct Rgba {
    pub r: u8,
    pub g: u8,
    pub b: u8,
    pub a: u8,
}

/// A UI event, as far as the settings dialog reads it. `N` is the type of
/// the value of a numeric field.
#[derive(Clone, Debug, PartialEq, Eq)]
pub enum SettingsMessage<N> {
    /// A check box was checked, unchecked, or set to undecided (`None`).
    CheckBoxCheck { destination: WidgetHandle, checked: Option<bool> },
    /// A colour field holds a new colour; `from_widget` tells an edit by the
    /// user from a request sent to the field.
    ColorFieldColor { destination: WidgetHandle, from_widget: bool, color: Rgba },
    /// A button was clicked.
    ButtonClick { destination: WidgetHandle },
    /// A numeric field holds a new value.
    NumericValue { destination: WidgetHandle, value: N },
    /// Any other event.
    Other,
}

/// What the editor does in answer to an event of the dialog.
#[derive(Clone, Debug, PartialEq, Eq)]
pub enum SettingsAction<N> {
    Nothing,
    /// Give the renderer these switches, the rest of its settings unchanged.
    SetQuality(QualityToggles),
    /// Give the renderer its default settings, and show the default switches
    /// in the dialog's check boxes.
    RestoreDefaults,
    /// Light the edited scene with this ambient colour.
    SetAmbientColor(Rgba),
    /// Move the near clipping plane of the editor's camera.
    SetZNear(N),
    /// Move the far clipping plane of the editor's camera.
    SetZFar(N),
    Window(WindowCommand),
}

/// The graphics-settings dialog: its window and the widgets it listens to.
#[derive(Clone, Copy, Debug)]
pub struct Settings {
    pub window: WidgetHandle,
    pub ssao: WidgetHandle,
    pub point_shadows: WidgetHandle,
    pub spot_shadows: WidgetHandle,
    pub light_scatter: WidgetHandle,
    pub ambient_color: WidgetHandle,
    pub near_plane: WidgetHandle,
    pub far_plane: WidgetHandle,
    pub ok: WidgetHandle,
    pub default: WidgetHandle,
}

impl Settings {
    pub fn new(
        window: WidgetHandle,
        ssao: WidgetHandle,
        point_shadows: WidgetHandle,
        spot_shadows: WidgetHandle,
        light_scatter: WidgetHandle,
        ambient_color: WidgetHandle,
        near_plane: WidgetHandle,
        far_plane: WidgetHandle,
        ok: WidgetHandle,
        default: WidgetHandle,
    ) -> (r: Settings)
        ensures
            r == (Settings {
                window,
                ssao,
                point_shadows,
                spot_shadows,
                light_scatter,
                ambient_color,
                near_plane,
                far_plane,
                ok,
                default,
            }),
    {
        Settings {
            window,
            ssao,
            point_shadows,
            spot_shadows,
            light_scatter,
            ambient_color,
            near_plane,
            far_plane,
            ok,
            default,
        }
    }

    /// The switches after check box `destination` was set to `value`, or
    /// `None` where it is none of the dialog's four check boxes.
    pub open spec fn toggles_after_check(
        self,
        destination: WidgetHandle,
        value: bool,
        current: QualityToggles,
    ) -> Option<QualityToggles> {
        if destination == self.ssao {
            Some(QualityToggles { use_ssao: value, ..current })
        } else if destination == self.point_shadows {
            Some(QualityToggles { point_shadows_enabled: value, ..current })
        } else if destination == self.spot_shadows {
            Some(QualityToggles { spot_shadows_enabled: value, ..current })
        } else if destination == self.light_scatter {
            Some(QualityToggles { light_scatter_enabled: value, ..current })
        } else {
            None
        }
    }

    /// The answer to any event, given the renderer's `current` switches. A
    /// check box in the undecided state counts as unchecked, and switches
    /// that would not change are not set again.
    pub open spec fn action_of<N>(
        self,
        message: SettingsMessage<N>,
        current: QualityToggles,
    ) -> SettingsAction<N> {
        match message {
            SettingsMessage::CheckBoxCheck { destination, checked } => {
                let value = match checked {
                    Some(v) => v,
                    None => false,
                };
                match self.toggles_after_check(destination, value, current) {
                    Some(t) => if t != current {
                        SettingsAction::SetQuality(t)
                    } else {
                        SettingsAction::Nothing
                    },
                    None => SettingsAction::Nothing,
                }
            },
            SettingsMessage::ColorFieldColor { destination, from_widget, color } => if from_widget
                && destination == self.ambient_color {
                SettingsAction::SetAmbientColor(color)
            } else {
                SettingsAction::Nothing
            },
            SettingsMessage::ButtonClick { destination } => if destination == self.ok {
                SettingsAction::Window(WindowCommand::Close(self.window))
            } else if destination == self.default {
                SettingsAction::RestoreDefaults
            } else {
                SettingsAction::Nothing
            },
            SettingsMessage::NumericValue { destination, value } => if destination
                == self.near_plane {
                SettingsAction::SetZNear(value)
            } else if destination == self.far_plane {
                SettingsAction::SetZFar(value)
            } else {
                SettingsAction::Nothing
            },
            SettingsMessage::Other => SettingsAction::Nothing,
        }
    }

    fn check(
        &self,
        destination: WidgetHandle,
        value: bool,
        current: QualityToggles,
    ) -> (r: Option<QualityToggles>)
        ensures
            r == self.toggles_after_check(destination, value, current),
    {
        let mut t = current;
        if destination.same(&self.ssao) {
            t.use_ssao = value;
        } else if destination.same(&self.point_shadows) {
            t.point_shadows_enabled = value;
        } else if destination.same(&self.spot_shadows) {
            t.spot_shadows_enabled = value;
        } else if destination.same(&self.light_scatter) {
            t.light_scatter_enabled = value;
        } else {
            return None;
        }
        Some(t)
    }

    /// Maps a UI event to what the editor has to do about it, given the
    /// renderer's `current` switches.
    pub fn handle_message<N>(
        &self,
        message: SettingsMessage<N>,
        current: QualityToggles,
    ) -> (r: SettingsAction<N>)
        ensures
            r == self.action_of(message, current),
    {
        match message {
            SettingsMessage::CheckBoxCheck { destination, checked } => {
                let value = match checked {
                    Some(v) => v,
                    None => false,
                };
                match self.check(destination, value, current) {
                    Some(t) => if t == current {
                        SettingsAction::Nothing
                    } else {
                        SettingsAction::SetQuality(t)
                    },
                    None => SettingsAction::Nothing,
                }
            },
            SettingsMessage::ColorFieldColor { destination, from_widget, color } => {
                if from_widget && destination.same(&self.ambient_color) {
                    SettingsAction::SetAmbientColor(color)
                } else {
                    SettingsAction::Nothing
                }
            },
            SettingsMessage::ButtonClick { destination } => {
                if destination.same(&self.ok) {
                    SettingsAction::Window(WindowCommand::Close(self.window))
                } else if destination.same(&self.default) {
                    SettingsAction::RestoreDefaults
                } else {
                    SettingsAction::Nothing
                }
            },
            SettingsMessage::NumericValue { destination, value } => {
                if destination.same(&self.near_plane) {
                    SettingsAction::SetZNear(value)
                } else if destination.same(&self.far_plane) {
                    SettingsAction::SetZFar(value)
                } else {
                    SettingsAction::Nothing
                }
            },
            SettingsMessage::Other => SettingsAction::Nothing,
        }
    }

    /// Shows the dialog.
    pub fn open(&self) -> (r: WindowCommand)
        ensures
            r == WindowCommand::Open(self.window),
    {
        WindowCommand::Open(self.window)
    }

    /// The state that each of the four check boxes must show for the switches
    /// `t`, in the order SSAO, point shadows, spot shadows, light scatter.
    pub fn check_box_states(&self, t: QualityToggles) -> (r: Vec<(WidgetHandle, bool)>)
        ensures
            r@ == seq![
                (self.ssao, t.use_ssao),
                (self.point_shadows, t.point_shadows_enabled),
                (self.spot_shadows, t.spot_shadows_enabled),
                (self.light_scatter, t.light_scatter_enabled),
            ],
    {
        let mut r: Vec<(WidgetHandle, bool)> = Vec::new();
        r.push((self.ssao, t.use_ssao));
        r.push((self.point_shadows, t.point_shadows_enabled));
        r.push((self.spot_shadows, t.spot_shadows_enabled));
        r.push((self.light_scatter, t.light_scatter_enabled));
        r
    }
}

/// Handling a check box event is idempotent: once the renderer holds the
/// switches that an event asked for, the same event asks for nothing more.
pub proof fn lemma_check_idempotent<N>(
    settings: Settings,
    message: SettingsMessage<N>,
    current: QualityToggles,
    next: QualityToggles,
)
    requires
        settings.action_of(message, current) == SettingsAction::<N>::SetQuality(next),
    ensures
        settings.action_of(message, next) == SettingsAction::<N>::Nothing,
{
}

} // verus!
