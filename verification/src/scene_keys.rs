//! Which renderer scene key (tonemap, shadows, pick prefixes) a frame uses,
//! from the scene on top of the overlay stack and the one it suspends.

use vstd::prelude::*;

verus! {

/// The active scene, told apart by what the renderer keys on. For a showcase,
/// `inspect` says whether it presents a shop or archive item close-up.
#[derive(Clone, Copy, Debug, PartialEq, Eq, Structural)]
pub enum SceneKind {
    Splash,
    MainMenu,
    TileSelect,
    ProfileSelect,
    Shop,
    Showcase { inspect: bool },
    Hallway,
    Stairway,
    Gameplay,
    Victory,
    Defeat,
    Guide,
    MaterialViewer,
    TileAnchorLab,
    ButtonAabbLab,
    Tixels,
    Options,
    Credits,
    Archive,
    TutorialCampaign,
    TutorialSummary,
    TransitionPlayground,
    AnimationLab,
    RumbleLab,
    RollerLab,
    CascadeLab,
    ShadowAoLab,
    YakuJournal,
    WallLedger,
}

/// Renderer scene keys.
#[derive(Clone, Copy, Debug, PartialEq, Eq, Structural)]
pub enum SceneKey {
    Showcase,
    Shop,
    Gameplay,
    Archive,
    Hallway,
    Stairway,
    MainMenu,
    Options,
    Victory,
    Defeat,
    Tutorial,
    Guide,
    YakuJournal,
    WallLedger,
    TileAnchorLab,
    ButtonAabbLab,
    ShadowAoLab,
    Tixels,
    TileSelect,
}

pub open spec fn scene_key_of(scene: SceneKind) -> Option<SceneKey> {
    match scene {
        SceneKind::Showcase { .. } => Some(SceneKey::Showcase),
        SceneKind::Shop => Some(SceneKey::Shop),
        SceneKind::Gameplay => Some(SceneKey::Gameplay),
        SceneKind::Archive => Some(SceneKey::Archive),
        SceneKind::Hallway => Some(SceneKey::Hallway),
        SceneKind::Stairway => Some(SceneKey::Stairway),
        SceneKind::MainMenu => Some(SceneKey::MainMenu),
        SceneKind::Options => Some(SceneKey::Options),
        SceneKind::Victory => Some(SceneKey::Victory),
        SceneKind::Defeat => Some(SceneKey::Defeat),
        SceneKind::TutorialCampaign => Some(SceneKey::Tutorial),
        SceneKind::Guide => Some(SceneKey::Guide),
        SceneKind::YakuJournal => Some(SceneKey::YakuJournal),
        SceneKind::WallLedger => Some(SceneKey::WallLedger),
        SceneKind::TileAnchorLab => Some(SceneKey::TileAnchorLab),
        SceneKind::ButtonAabbLab => Some(SceneKey::ButtonAabbLab),
        SceneKind::AnimationLab => Some(SceneKey::Shop),
        SceneKind::RollerLab => Some(SceneKey::Gameplay),
        SceneKind::CascadeLab => Some(SceneKey::Gameplay),
        SceneKind::ShadowAoLab => Some(SceneKey::ShadowAoLab),
        SceneKind::Tixels => Some(SceneKey::Tixels),
        SceneKind::TileSelect => Some(SceneKey::TileSelect),
        _ => None,
    }
}

/// Canonical renderer scene key of a scene.
pub fn active_scene_key(scene: SceneKind) -> (r: Option<SceneKey>)
    ensures
        r == scene_key_of(scene),
{
    match scene {
        SceneKind::Showcase { .. } => Some(SceneKey::Showcase),
        SceneKind::Shop => Some(SceneKey::Shop),
        SceneKind::Gameplay => Some(SceneKey::Gameplay),
        SceneKind::Archive => Some(SceneKey::Archive),
        SceneKind::Hallway => Some(SceneKey::Hallway),
        SceneKind::Stairway => Some(SceneKey::Stairway),
        SceneKind::MainMenu => Some(SceneKey::MainMenu),
        SceneKind::Options => Some(SceneKey::Options),
        SceneKind::Victory => Some(SceneKey::Victory),
        SceneKind::Defeat => Some(SceneKey::Defeat),
        SceneKind::TutorialCampaign => Some(SceneKey::Tutorial),
        SceneKind::Guide => Some(SceneKey::Guide),
        SceneKind::YakuJournal => Some(SceneKey::YakuJournal),
        SceneKind::WallLedger => Some(SceneKey::WallLedger),
        SceneKind::TileAnchorLab => Some(SceneKey::TileAnchorLab),
        SceneKind::ButtonAabbLab => Some(SceneKey::ButtonAabbLab),
        SceneKind::AnimationLab => Some(SceneKey::Shop),
        SceneKind::RollerLab => Some(SceneKey::Gameplay),
        SceneKind::CascadeLab => Some(SceneKey::Gameplay),
        SceneKind::ShadowAoLab => Some(SceneKey::ShadowAoLab),
        SceneKind::Tixels => Some(SceneKey::Tixels),
        SceneKind::TileSelect => Some(SceneKey::TileSelect),
        _ => None,
    }
}

/// The scene directly under the top of the overlay stack: none without
/// overlays, the base under a single overlay, else the overlay below the top.
pub fn overlay_renderer_parent(base: SceneKind, overlay_stack: &[SceneKind]) -> (r: Option<SceneKind>)
    ensures
        overlay_stack@.len() == 0 ==> r is None,
        overlay_stack@.len() == 1 ==> r == Some(base),
        overlay_stack@.len() >= 2 ==> r == Some(overlay_stack@[overlay_stack@.len() - 2]),
{
    if overlay_stack.len() == 0 {
        None
    } else if overlay_stack.len() >= 2 {
        Some(overlay_stack[overlay_stack.len() - 2])
    } else {
        Some(base)
    }
}

/// Renderer scene key for the frame: item-inspect showcases inherit the key
/// of the scene they suspend, when it has one.
pub fn active_scene_key_for_renderer(top: SceneKind, parent: Option<SceneKind>) -> (r: Option<SceneKey>)
    ensures
        ({
            let inherited = match parent { Some(p) => scene_key_of(p), None => None };
            if top == (SceneKind::Showcase { inspect: true }) && inherited is Some {
                r == inherited
            } else {
                r == scene_key_of(top)
            }
        }),
{
    match top {
        SceneKind::Showcase { inspect: true } => {
            match parent {
                Some(p) => {
                    let key = active_scene_key(p);
                    if key.is_some() {
                        return key;
                    }
                },
                None => {},
            }
        },
        _ => {},
    }
    active_scene_key(top)
}

} // verus!
