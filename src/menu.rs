use vstd::prelude::*;

use crate::widget::{switch_window_state, switched, WidgetHandle, WindowCommand};

verus! {

/// The entries of the menu bar that react to a click.
#[derive(Clone, Copy, Debug, PartialEq, Eq, Structural)]
pub enum MenuItem {
    NewScene,
    Save,
    SaveAs,
    Load,
    CloseScene,
    Exit,
    Undo,
    Redo,
    CreateCube,
    CreateCone,
    CreateSphere,
    CreateCylinder,
    CreatePointLight,
    CreateSpotLight,
    CreateCamera,
    CreateSprite,
    CreateParticleSystem,
    Sidebar,
    WorldOutliner,
    AssetBrowser,
}

/// The kinds of scene node that the Create menu adds.
#[derive(Clone, Copy, Debug, PartialEq, Eq, Structural)]
pub enum SceneNode {
    Cube,
    Cone,
    Sphere,
    Cylinder,
    PointLight,
    SpotLight,
    Camera,
    Sprite,
    ParticleSystem,
}

/// The name given to a freshly created node of each kind.
pub open spec fn node_name(n: SceneNode) -> Seq<char> {
    match n {
        SceneNode::Cube => "Cube"@,
        SceneNode::Cone => "Cone"@,
        SceneNode::Sphere => "Sphere"@,
        SceneNode::Cylinder => "Cylinder"@,
        SceneNode::PointLight => "PointLight"@,
        SceneNode::SpotLight => "SpotLight"@,
        SceneNode::Camera => "Camera"@,
        SceneNode::Sprite => "Sprite"@,
        SceneNode::ParticleSystem => "ParticleSystem"@,
    }
}

impl SceneNode {
    pub fn name(&self) -> (r: &'static str)
        ensures
            r@ == node_name(*self),
    {
        match self {
            SceneNode::Cube => "Cube",
            SceneNode::Cone => "Cone",
            SceneNode::Sphere => "Sphere",
            SceneNode::Cylinder => "Cylinder",
            SceneNode::PointLight => "PointLight",
            SceneNode::SpotLight => "SpotLight",
            SceneNode::Camera => "Camera",
            SceneNode::Sprite => "Sprite",
            SceneNode::ParticleSystem => "ParticleSystem",
        }
    }
}

/// The handle of each clickable entry of the menu bar.
#[derive(Clone, Copy, Debug)]
pub struct MenuItemHandles {
    pub new_scene: WidgetHandle,
    pub save: WidgetHandle,
    pub save_as: WidgetHandle,
    pub load: WidgetHandle,
    pub close_scene: WidgetHandle,
    pub exit: WidgetHandle,
    pub undo: WidgetHandle,
    pub redo: WidgetHandle,
    pub create_cube: WidgetHandle,
    pub create_cone: WidgetHandle,
    pub create_sphere: WidgetHandle,
    pub create_cylinder: WidgetHandle,
    pub create_point_light: WidgetHandle,
    pub create_spot_light: WidgetHandle,
    pub create_camera: WidgetHandle,
    pub create_sprite: WidgetHandle,
    pub create_particle_system: WidgetHandle,
    pub sidebar: WidgetHandle,
    pub world_outliner: WidgetHandle,
    pub asset_browser: WidgetHandle,
}

impl MenuItemHandles {
    /// The handle that stands for `item`.
    pub open spec fn handle_of(self, item: MenuItem) -> WidgetHandle {
        match item {
            MenuItem::NewScene => self.new_scene,
            MenuItem::Save => self.save,
            MenuItem::SaveAs => self.save_as,
            MenuItem::Load => self.load,
            MenuItem::CloseScene => self.close_scene,
            MenuItem::Exit => self.exit,
            MenuItem::Undo => self.undo,
            MenuItem::Redo => self.redo,
            MenuItem::CreateCube => self.create_cube,
            MenuItem::CreateCone => self.create_cone,
            MenuItem::CreateSphere => self.create_sphere,
            MenuItem::CreateCylinder => self.create_cylinder,
            MenuItem::CreatePointLight => self.create_point_light,
            MenuItem::CreateSpotLight => self.create_spot_light,
            MenuItem::CreateCamera => self.create_camera,
            MenuItem::CreateSprite => self.create_sprite,
            MenuItem::CreateParticleSystem => self.create_particle_system,
            MenuItem::Sidebar => self.sidebar,
            MenuItem::WorldOutliner => self.world_outliner,
            MenuItem::AssetBrowser => self.asset_browser,
        }
    }

    /// The entry that a click on widget `h` selects: entries are tried in a
    /// fixed order, node creation first, and the first whose handle is `h` wins.
    pub open spec fn item_of(self, h: WidgetHandle) -> Option<MenuItem> {
        if h == self.handle_of(MenuItem::CreateCube) {
            Some(MenuItem::CreateCube)
        } else if h == self.handle_of(MenuItem::CreateSpotLight) {
            Some(MenuItem::CreateSpotLight)
        } else if h == self.handle_of(MenuItem::CreatePointLight) {
            Some(MenuItem::CreatePointLight)
        } else if h == self.handle_of(MenuItem::CreateCone) {
            Some(MenuItem::CreateCone)
        } else if h == self.handle_of(MenuItem::CreateCylinder) {
            Some(MenuItem::CreateCylinder)
        } else if h == self.handle_of(MenuItem::CreateSphere) {
            Some(MenuItem::CreateSphere)
        } else if h == self.handle_of(MenuItem::CreateCamera) {
            Some(MenuItem::CreateCamera)
        } else if h == self.handle_of(MenuItem::CreateSprite) {
            Some(MenuItem::CreateSprite)
        } else if h == self.handle_of(MenuItem::CreateParticleSystem) {
            Some(MenuItem::CreateParticleSystem)
        } else if h == self.handle_of(MenuItem::Save) {
            Some(MenuItem::Save)
        } else if h == self.handle_of(MenuItem::SaveAs) {
            Some(MenuItem::SaveAs)
        } else if h == self.handle_of(MenuItem::Load) {
            Some(MenuItem::Load)
        } else if h == self.handle_of(MenuItem::CloseScene) {
            Some(MenuItem::CloseScene)
        } else if h == self.handle_of(MenuItem::Undo) {
            Some(MenuItem::Undo)
        } else if h == self.handle_of(MenuItem::Redo) {
            Some(MenuItem::Redo)
        } else if h == self.handle_of(MenuItem::Exit) {
            Some(MenuItem::Exit)
        } else if h == self.handle_of(MenuItem::NewScene) {
            Some(MenuItem::NewScene)
        } else if h == self.handle_of(MenuItem::AssetBrowser) {
            Some(MenuItem::AssetBrowser)
        } else if h == self.handle_of(MenuItem::WorldOutliner) {
            Some(MenuItem::WorldOutliner)
        } else if h == self.handle_of(MenuItem::Sidebar) {
            Some(MenuItem::Sidebar)
        } else {
            None
        }
    }

    /// No two entries share a handle.
    pub open spec fn distinct(self) -> bool {
        forall|a: MenuItem, b: MenuItem|
            a != b ==> #[trigger] self.handle_of(a) != #[trigger] self.handle_of(b)
    }

    /// The entry that a click on widget `h` selects.
    pub fn item_at(&self, h: WidgetHandle) -> (r: Option<MenuItem>)
        ensures
            r == self.item_of(h),
    {
        if h.same(&self.create_cube) {
            Some(MenuItem::CreateCube)
        } else if h.same(&self.create_spot_light) {
            Some(MenuItem::CreateSpotLight)
        } else if h.same(&self.create_point_light) {
            Some(MenuItem::CreatePointLight)
        } else if h.same(&self.create_cone) {
            Some(MenuItem::CreateCone)
        } else if h.same(&self.create_cylinder) {
            Some(MenuItem::CreateCylinder)
        } else if h.same(&self.create_sphere) {
            Some(MenuItem::CreateSphere)
        } else if h.same(&self.create_camera) {
            Some(MenuItem::CreateCamera)
        } else if h.same(&self.create_sprite) {
            Some(MenuItem::CreateSprite)
        } else if h.same(&self.create_particle_system) {
            Some(MenuItem::CreateParticleSystem)
        } else if h.same(&self.save) {
            Some(MenuItem::Save)
        } else if h.same(&self.save_as) {
            Some(MenuItem::SaveAs)
        } else if h.same(&self.load) {
            Some(MenuItem::Load)
        } else if h.same(&self.close_scene) {
            Some(MenuItem::CloseScene)
        } else if h.same(&self.undo) {
            Some(MenuItem::Undo)
        } else if h.same(&self.redo) {
            Some(MenuItem::Redo)
        } else if h.same(&self.exit) {
            Some(MenuItem::Exit)
        } else if h.same(&self.new_scene) {
            Some(MenuItem::NewScene)
        } else if h.same(&self.asset_browser) {
            Some(MenuItem::AssetBrowser)
        } else if h.same(&self.world_outliner) {
            Some(MenuItem::WorldOutliner)
        } else if h.same(&self.sidebar) {
            Some(MenuItem::Sidebar)
        } else {
            None
        }
    }
}

/// Where no two entries share a handle, a click on an entry's handle selects
/// that entry, whatever the order in which entries are tried.
pub proof fn lemma_click_selects_own_item(items: MenuItemHandles, item: MenuItem)
    requires
        items.distinct(),
    ensures
        items.item_of(items.handle_of(item)) == Some(item),
{
}

/// A message of the editor's command bus.
#[derive(Clone, Debug, PartialEq, Eq)]
pub enum EditorMessage<P> {
    NewScene,
    SaveScene(P),
    LoadScene(P),
    CloseScene,
    UndoSceneCommand,
    RedoSceneCommand,
    Exit { force: bool },
    /// Add a new node of this kind to the scene, as an undoable command.
    AddNode(SceneNode),
}

/// What the editor does in answer to a menu event.
#[derive(Clone, Debug, PartialEq, Eq)]
pub enum MenuAction<P> {
    Nothing,
    Send(EditorMessage<P>),
    Window(WindowCommand),
}

/// A UI event, as far as the menu reads it. `P` is the type of a file path.
#[derive(Clone, Debug, PartialEq, Eq)]
pub enum MenuMessage<P> {
    /// A file selector confirmed a path.
    FileSelectorCommit { destination: WidgetHandle, path: P },
    /// A menu entry was clicked.
    MenuItemClick { destination: WidgetHandle },
    /// Any other event.
    Other,
}

/// What the menu needs to know of the editor when it handles an event.
#[derive(Clone, Debug)]
pub struct MenuContext<P> {
    /// The file of the open scene; `None` where no scene is open or the open
    /// one was never saved.
    pub scene_path: Option<P>,
    pub sidebar_window: WidgetHandle,
    pub sidebar_visible: bool,
    pub world_outliner_window: WidgetHandle,
    pub world_outliner_visible: bool,
    pub asset_window: WidgetHandle,
    pub asset_window_visible: bool,
}

/// The menu bar: its root widget, its entries and its two file selectors.
#[derive(Clone, Copy, Debug)]
pub struct Menu {
    pub menu: WidgetHandle,
    pub items: MenuItemHandles,
    pub save_file_selector: WidgetHandle,
    pub load_file_selector: WidgetHandle,
}

impl Menu {
    pub fn new(
        menu: WidgetHandle,
        items: MenuItemHandles,
        save_file_selector: WidgetHandle,
        load_file_selector: WidgetHandle,
    ) -> (r: Menu)
        ensures
            r.menu == menu,
            r.items == items,
            r.save_file_selector == save_file_selector,
            r.load_file_selector == load_file_selector,
    {
        Menu { menu, items, save_file_selector, load_file_selector }
    }

    /// The answer to a click on `item`.
    pub open spec fn click_action<P>(self, item: MenuItem, ctx: MenuContext<P>) -> MenuAction<P> {
        match item {
            MenuItem::CreateCube => MenuAction::Send(EditorMessage::AddNode(SceneNode::Cube)),
            MenuItem::CreateCone => MenuAction::Send(EditorMessage::AddNode(SceneNode::Cone)),
            MenuItem::CreateSphere => MenuAction::Send(EditorMessage::AddNode(SceneNode::Sphere)),
            MenuItem::CreateCylinder => MenuAction::Send(
                EditorMessage::AddNode(SceneNode::Cylinder),
            ),
            MenuItem::CreatePointLight => MenuAction::Send(
                EditorMessage::AddNode(SceneNode::PointLight),
            ),
            MenuItem::CreateSpotLight => MenuAction::Send(
                EditorMessage::AddNode(SceneNode::SpotLight),
            ),
            MenuItem::CreateCamera => MenuAction::Send(EditorMessage::AddNode(SceneNode::Camera)),
            MenuItem::CreateSprite => MenuAction::Send(EditorMessage::AddNode(SceneNode::Sprite)),
            MenuItem::CreateParticleSystem => MenuAction::Send(
                EditorMessage::AddNode(SceneNode::ParticleSystem),
            ),
            MenuItem::Save => match ctx.scene_path {
                Some(p) => MenuAction::Send(EditorMessage::SaveScene(p)),
                None => MenuAction::Window(WindowCommand::OpenModal(self.save_file_selector)),
            },
            MenuItem::SaveAs => MenuAction::Window(
                WindowCommand::OpenModal(self.save_file_selector),
            ),
            MenuItem::Load => MenuAction::Window(
                WindowCommand::OpenModal(self.load_file_selector),
            ),
            MenuItem::CloseScene => MenuAction::Send(EditorMessage::CloseScene),
            MenuItem::Undo => MenuAction::Send(EditorMessage::UndoSceneCommand),
            MenuItem::Redo => MenuAction::Send(EditorMessage::RedoSceneCommand),
            MenuItem::Exit => MenuAction::Send(EditorMessage::Exit { force: false }),
            MenuItem::NewScene => MenuAction::Send(EditorMessage::NewScene),
            MenuItem::AssetBrowser => MenuAction::Window(
                switched(ctx.asset_window, ctx.asset_window_visible),
            ),
            MenuItem::WorldOutliner => MenuAction::Window(
                switched(ctx.world_outliner_window, ctx.world_outliner_visible),
            ),
            MenuItem::Sidebar => MenuAction::Window(
                switched(ctx.sidebar_window, ctx.sidebar_visible),
            ),
        }
    }

    /// The answer to any event: a path committed in the save selector saves
    /// the scene there, one committed in any other selector loads a scene from
    /// it; a click on an entry is answered by `click_action`; the rest is
    /// ignored.
    pub open spec fn action_of<P>(
        self,
        message: MenuMessage<P>,
        ctx: MenuContext<P>,
    ) -> MenuAction<P> {
        match message {
            MenuMessage::FileSelectorCommit { destination, path } => if destination
                == self.save_file_selector {
                MenuAction::Send(EditorMessage::SaveScene(path))
            } else {
                MenuAction::Send(EditorMessage::LoadScene(path))
            },
            MenuMessage::MenuItemClick { destination } => match self.items.item_of(destination) {
                Some(item) => self.click_action(item, ctx),
                None => MenuAction::Nothing,
            },
            MenuMessage::Other => MenuAction::Nothing,
        }
    }

    fn click<P>(&self, item: MenuItem, ctx: MenuContext<P>) -> (r: MenuAction<P>)
        ensures
            r == self.click_action(item, ctx),
    {
        match item {
            MenuItem::CreateCube => MenuAction::Send(EditorMessage::AddNode(SceneNode::Cube)),
            MenuItem::CreateCone => MenuAction::Send(EditorMessage::AddNode(SceneNode::Cone)),
            MenuItem::CreateSphere => MenuAction::Send(EditorMessage::AddNode(SceneNode::Sphere)),
            MenuItem::CreateCylinder => MenuAction::Send(
                EditorMessage::AddNode(SceneNode::Cylinder),
            ),
            MenuItem::CreatePointLight => MenuAction::Send(
                EditorMessage::AddNode(SceneNode::PointLight),
            ),
            MenuItem::CreateSpotLight => MenuAction::Send(
                EditorMessage::AddNode(SceneNode::SpotLight),
            ),
            MenuItem::CreateCamera => MenuAction::Send(EditorMessage::AddNode(SceneNode::Camera)),
            MenuItem::CreateSprite => MenuAction::Send(EditorMessage::AddNode(SceneNode::Sprite)),
            MenuItem::CreateParticleSystem => MenuAction::Send(
                EditorMessage::AddNode(SceneNode::ParticleSystem),
            ),
            MenuItem::Save => match ctx.scene_path {
                Some(p) => MenuAction::Send(EditorMessage::SaveScene(p)),
                // A scene that was never saved asks for a file first.
                None => MenuAction::Window(WindowCommand::OpenModal(self.save_file_selector)),
            },
            MenuItem::SaveAs => MenuAction::Window(
                WindowCommand::OpenModal(self.save_file_selector),
            ),
            MenuItem::Load => MenuAction::Window(
                WindowCommand::OpenModal(self.load_file_selector),
            ),
            MenuItem::CloseScene => MenuAction::Send(EditorMessage::CloseScene),
            MenuItem::Undo => MenuAction::Send(EditorMessage::UndoSceneCommand),
            MenuItem::Redo => MenuAction::Send(EditorMessage::RedoSceneCommand),
            MenuItem::Exit => MenuAction::Send(EditorMessage::Exit { force: false }),
            MenuItem::NewScene => MenuAction::Send(EditorMessage::NewScene),
            MenuItem::AssetBrowser => MenuAction::Window(
                switch_window_state(ctx.asset_window, ctx.asset_window_visible),
            ),
            MenuItem::WorldOutliner => MenuAction::Window(
                switch_window_state(ctx.world_outliner_window, ctx.world_outliner_visible),
            ),
            MenuItem::Sidebar => MenuAction::Window(
                switch_window_state(ctx.sidebar_window, ctx.sidebar_visible),
            ),
        }
    }

    /// Maps a UI event to what the editor has to do about it.
    pub fn handle_message<P>(
        &self,
        message: MenuMessage<P>,
        ctx: MenuContext<P>,
    ) -> (r: MenuAction<P>)
        ensures
            r == self.action_of(message, ctx),
    {
        match message {
            MenuMessage::FileSelectorCommit { destination, path } => {
                if destination.same(&self.save_file_selector) {
                    MenuAction::Send(EditorMessage::SaveScene(path))
                } else {
                    MenuAction::Send(EditorMessage::LoadScene(path))
                }
            },
            MenuMessage::MenuItemClick { destination } => match self.items.item_at(destination) {
                Some(item) => self.click(item, ctx),
                None => MenuAction::Nothing,
            },
            MenuMessage::Other => MenuAction::Nothing,
        }
    }
}

} // verus!
