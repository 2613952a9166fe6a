use crate::scene::Scene;
use vstd::prelude::*;

verus! {

/// How far the engine has come with the assets requested through a
/// progress counter.
#[derive(Clone, Copy, Debug, PartialEq, Eq, Structural)]
pub enum Completion {
    /// Some assets are still being loaded.
    Loading,
    /// Every requested asset finished loading successfully.
    Complete,
    /// At least one asset failed to load.
    Failed,
}

/// What the state machine asks of the surrounding program: keep the
/// current state running, or shut the application down.
#[derive(Clone, Copy, Debug, PartialEq, Eq, Structural)]
pub enum Trans {
    /// Keep running.
    Stay,
    /// Quit the application.
    Quit,
}

/// A window or input event, reduced to the facts the handler reads.
#[derive(Clone, Copy, Debug)]
pub enum GameEvent {
    /// A window event, with the key facts already extracted from it.
    Window {
        /// The user asked to close the window.
        close_requested: bool,
        /// The escape key was pressed.
        escape_down: bool,
        /// The space key was pressed (reserved for animation toggling).
        space_down: bool,
    },
    /// Any other kind of event.
    Other,
}

/// Whether an event asks the application to shut down: a window event
/// that requests closing, or one that presses the escape key.
pub open spec fn quit_requested(event: GameEvent) -> bool {
    event matches GameEvent::Window { close_requested, escape_down, .. }
        && (close_requested || escape_down)
}

/// The bootstrap state of the game.
///
/// It moves through three phases: loading (a progress counter is
/// attached and the prefab is still streaming in), spawning (the scene
/// entity was created and the animation-marker entity is awaited), and
/// running (everything is initialised and frames pass untouched).
#[derive(Clone, Copy, Debug)]
pub struct GameState {
    /// The entity carrying the animation marker, once found.
    pub entity: Option<u64>,
    /// Whether bootstrapping has finished.
    pub initialised: bool,
    /// Whether a progress counter is attached, i.e. whether an asset
    /// load was requested whose completion is still being watched.
    pub progress_active: bool,
}

/// The three phases that bootstrapping passes through, in order.
pub enum Phase {
    /// A progress counter is attached: assets are still streaming in.
    Loading,
    /// The load is done and dealt with; the scene entity is spawned
    /// and the animation-marker entity is awaited.
    Spawning,
    /// Bootstrapping has finished; frames pass untouched.
    Running,
}

/// The position of a phase in the bootstrapping order.
pub open spec fn phase_rank(p: Phase) -> int {
    match p {
        Phase::Loading => 0,
        Phase::Spawning => 1,
        Phase::Running => 2,
    }
}

impl Default for GameState {
    /// The state before anything happened: no entity, not initialised,
    /// no progress counter attached.
    fn default() -> (s: GameState)
        ensures
            s.entity is None,
            !s.initialised,
            !s.progress_active,
    {
        GameState { entity: None, initialised: false, progress_active: false }
    }
}

/// What one bootstrap frame asks of the surrounding program.
#[derive(Clone, Copy, Debug)]
pub struct FrameOutcome {
    /// Keep running, or shut the application down.
    pub trans: Trans,
    /// When set, create the scene entity from this prefab handle.
    pub spawn: Option<u64>,
}

/// One frame of the bootstrap state machine, as a mathematical function
/// from the state before the frame and what the frame observed to the
/// state after the frame and what the frame asks for.
///
/// The observations are `completion`, the value of the attached
/// progress counter (absent exactly when none is attached), and
/// `found`, the entity that a search for the animation marker turned
/// up.  Until the state is initialised: a failed load asks to quit and
/// changes nothing; a completed load asks to spawn the scene prefab and
/// detaches the progress counter; and a found marker entity is
/// recorded, which finishes bootstrapping.  Once initialised, frames
/// pass the state through untouched.
pub open spec fn update_spec(
    pre: GameState,
    scene: Scene,
    completion: Option<Completion>,
    found: Option<u64>,
) -> (GameState, FrameOutcome) {
    if pre.initialised {
        (pre, FrameOutcome { trans: Trans::Stay, spawn: None })
    } else if completion == Some(Completion::Failed) {
        (pre, FrameOutcome { trans: Trans::Quit, spawn: None })
    } else {
        let post = GameState {
            entity: if pre.entity is Some { pre.entity } else { found },
            initialised: pre.entity is None && found is Some,
            progress_active: pre.progress_active && completion != Some(Completion::Complete),
        };
        let spawn = if completion == Some(Completion::Complete) { scene.handle } else { None };
        (post, FrameOutcome { trans: Trans::Stay, spawn })
    }
}

impl GameState {
    /// A state is well formed when bootstrapping counts as finished
    /// exactly once the animation-marker entity has been recorded.
    pub open spec fn wf(self) -> bool {
        self.initialised == (self.entity is Some)
    }

    /// Which bootstrapping phase a state is in.
    pub open spec fn phase(self) -> Phase {
        if self.initialised {
            Phase::Running
        } else if self.progress_active {
            Phase::Loading
        } else {
            Phase::Spawning
        }
    }

    /// Entering the game state: attach a fresh progress counter and
    /// record in the scene resource the handle under which the scene
    /// prefab was requested from the loader.
    pub fn on_start(&mut self, scene: &mut Scene, handle: u64)
        ensures
            final(self).progress_active,
            final(self).entity == old(self).entity,
            final(self).initialised == old(self).initialised,
            final(scene).handle == Some(handle),
            final(scene).animation_index == old(scene).animation_index,
    {
        self.progress_active = true;
        scene.handle = Some(handle);
    }

    /// One frame of bootstrapping, exactly as [`update_spec`] lays it
    /// out.
    ///
    /// The caller polls the attached progress counter and passes its
    /// value as `completion` (`None` exactly when no counter is
    /// attached), and passes as `found` what a search for the
    /// animation-marker entity returned.  A completed load spawns the
    /// prefab recorded in `scene`, which must be present by then.
    pub fn update(&mut self, scene: &Scene, completion: Option<Completion>, found: Option<u64>)
        -> (out: FrameOutcome)
        requires
            (completion is Some) == old(self).progress_active,
            !old(self).initialised && completion == Some(Completion::Complete)
                ==> scene.handle is Some,
        ensures
            *final(self) == update_spec(*old(self), *scene, completion, found).0,
            out == update_spec(*old(self), *scene, completion, found).1,
    {
        if !self.initialised {
            let failed = matches!(completion, Some(Completion::Failed));
            if failed {
                return FrameOutcome { trans: Trans::Quit, spawn: None };
            }
            let complete = matches!(completion, Some(Completion::Complete));
            let spawn: Option<u64> = if complete { scene.handle } else { None };
            if complete {
                self.progress_active = false;
            }
            if self.entity.is_none() {
                if let Some(e) = found {
                    self.entity = Some(e);
                    self.initialised = true;
                }
            }
            FrameOutcome { trans: Trans::Stay, spawn }
        } else {
            FrameOutcome { trans: Trans::Stay, spawn: None }
        }
    }

    /// What an event handler answers: quit exactly when the event asks
    /// for it, and never touch the state.  The space key is accepted
    /// but currently does nothing (animation toggling is stubbed out).
    pub fn handle_event(&mut self, event: &GameEvent) -> (t: Trans)
        ensures
            *final(self) == *old(self),
            t is Quit <==> quit_requested(*event),
    {
        match event {
            GameEvent::Window { close_requested, escape_down, space_down } => {
                if *close_requested || *escape_down {
                    Trans::Quit
                } else if *space_down {
                    Trans::Stay
                } else {
                    Trans::Stay
                }
            }
            GameEvent::Other => Trans::Stay,
        }
    }
}

/// A frame keeps a state well formed: the initialised flag and the
/// recorded entity only ever change together.
pub proof fn lemma_update_preserves_wf(
    pre: GameState,
    scene: Scene,
    completion: Option<Completion>,
    found: Option<u64>,
)
    requires
        pre.wf(),
    ensures
        update_spec(pre, scene, completion, found).0.wf(),
{
}

/// Bootstrapping never goes backwards: a frame can move the state from
/// loading towards spawning and running, but never the other way.
pub proof fn lemma_update_moves_forward(
    pre: GameState,
    scene: Scene,
    completion: Option<Completion>,
    found: Option<u64>,
)
    ensures
        phase_rank(pre.phase())
            <= phase_rank(update_spec(pre, scene, completion, found).0.phase()),
{
}

/// Once running, the state machine is inert: every further frame
/// leaves the state as it is, spawns nothing and keeps running.
pub proof fn lemma_running_is_stable(
    pre: GameState,
    scene: Scene,
    completion: Option<Completion>,
    found: Option<u64>,
)
    requires
        pre.initialised,
    ensures
        update_spec(pre, scene, completion, found).0 == pre,
        update_spec(pre, scene, completion, found).1.trans is Stay,
        update_spec(pre, scene, completion, found).1.spawn is None,
{
}

/// A frame asks to quit exactly over a load that failed before
/// bootstrapping finished, and such a frame touches nothing, so that
/// the failure can still be read off the progress counter and
/// reported.
pub proof fn lemma_quit_exactly_on_failure(
    pre: GameState,
    scene: Scene,
    completion: Option<Completion>,
    found: Option<u64>,
)
    ensures
        update_spec(pre, scene, completion, found).1.trans is Quit
            <==> !pre.initialised && completion == Some(Completion::Failed),
        update_spec(pre, scene, completion, found).1.trans is Quit ==> {
            &&& update_spec(pre, scene, completion, found).0 == pre
            &&& update_spec(pre, scene, completion, found).1.spawn is None
        },
{
}

/// A frame asks to spawn exactly when the load completed before
/// bootstrapping finished, and then it asks for exactly the prefab
/// handle recorded in the scene.
pub proof fn lemma_spawn_exactly_on_completion(
    pre: GameState,
    scene: Scene,
    completion: Option<Completion>,
    found: Option<u64>,
)
    ensures
        update_spec(pre, scene, completion, found).1.spawn == (
            if !pre.initialised && completion == Some(Completion::Complete) {
                scene.handle
            } else {
                Option::<u64>::None
            }
        ),
{
}

} // verus!
