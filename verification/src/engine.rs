//! The engine around the renderer: settings, the fixed-step update clock,
//! and the hooks of the game that runs on it.

use crate::renderer::{next, ActionView, FrameAction, FrameEvent, Renderer, RendererView};
use crate::scene::{AssetManager, Object};
use vstd::prelude::*;

verus! {

/// Settings of the engine.  Durations are in nanoseconds.
#[derive(Clone, Debug, PartialEq, Eq)]
pub struct Settings {
    pub window_title: String,
    /// Length of one update step.
    pub time_per_update: u64,
    /// Least time between two reports of the frame rate.
    pub log_fps_frequency: u64,
    /// The editor overlay is shown.
    pub gui_editor: bool,
}

/// The hooks of a game.  The engine promises nothing of what they do to
/// the settings and the assets they are handed; it passes on what the game
/// itself states of them as `initialized` and `updated`.
pub trait EventHandler {
    /// What the input system delivers.
    type InputEvent;

    /// Takes the input that arrived since the last frame.
    fn process_input(&mut self, input_events: Vec<Self::InputEvent>);

    /// What `update` may make of a game, settings and a scene in one step
    /// of `elapsed_time`: whether a game that was `before` and was handed
    /// `settings_before` and a scene of `scene_before` can end as `self`
    /// and leave `settings_after` and `scene_after`.  A game that says
    /// nothing of its `update` allows everything.
    open spec fn updated(
        &self,
        before: &Self,
        settings_before: Settings,
        scene_before: Option<Seq<Object>>,
        elapsed_time: u64,
        settings_after: Settings,
        scene_after: Option<Seq<Object>>,
    ) -> bool {
        true
    }

    /// Advances the game by one step of `elapsed_time`.
    fn update(
        &mut self,
        settings: &mut Settings,
        asset_manager: &mut AssetManager,
        elapsed_time: u64,
    )
        ensures
            final(self).updated(
                old(self),
                *old(settings),
                old(asset_manager).scene(),
                elapsed_time,
                *final(settings),
                final(asset_manager).scene(),
            ),
    ;

    /// What `init` may make of a game, settings and a scene: whether a game
    /// that was `before` and was handed `settings_before` and a scene of
    /// `scene_before` can end as `self` and leave `settings_after` and
    /// `scene_after`.  A game that says nothing of its `init` allows
    /// everything.
    open spec fn initialized(
        &self,
        before: &Self,
        settings_before: Settings,
        scene_before: Option<Seq<Object>>,
        settings_after: Settings,
        scene_after: Option<Seq<Object>>,
    ) -> bool {
        true
    }

    /// Prepares the game before the first frame.
    fn init(&mut self, settings: &mut Settings, asset_manager: &mut AssetManager)
        ensures
            final(self).initialized(
                old(self),
                *old(settings),
                old(asset_manager).scene(),
                *final(settings),
                final(asset_manager).scene(),
            ),
    ;
}

/// A game together with the settings and the scene it works on, at one
/// moment.
pub struct Moment<S> {
    pub game: S,
    pub settings: Settings,
    pub scene: Option<Seq<Object>>,
}

/// `moments` is a run of update steps of `elapsed_time` each: every moment
/// but the first is what the game's `update` made of the one before it.
pub open spec fn update_steps<S: EventHandler>(moments: Seq<Moment<S>>, elapsed_time: u64) -> bool {
    forall|k: int|
        0 < k < moments.len() ==> (#[trigger] moments[k]).game.updated(
            &moments[k - 1].game,
            moments[k - 1].settings,
            moments[k - 1].scene,
            elapsed_time,
            moments[k].settings,
            moments[k].scene,
        )
}

/// `moments` is a run of exactly `updates` update steps of `elapsed_time`
/// each that leads from `first` to `last`.
pub open spec fn is_update_run<S: EventHandler>(
    moments: Seq<Moment<S>>,
    first: Moment<S>,
    last: Moment<S>,
    updates: u64,
    elapsed_time: u64,
) -> bool {
    &&& moments.len() == updates + 1
    &&& moments.first() == first
    &&& moments.last() == last
    &&& update_steps(moments, elapsed_time)
}

/// The clock of the update loop.  Time that has passed and is not yet
/// covered by an update step is carried over as lag; the lag always stays
/// below one step.
pub struct UpdateClock {
    time_per_update: u64,
    lag: u64,
}

impl UpdateClock {
    #[verifier::type_invariant]
    spec fn inv(self) -> bool {
        self.lag < self.time_per_update
    }

    /// Length of one update step.
    pub closed spec fn step(self) -> int {
        self.time_per_update as int
    }

    /// Time not yet covered by an update step.
    pub closed spec fn lag(self) -> int {
        self.lag as int
    }

    /// A clock without lag for steps of `time_per_update`.  There is none
    /// for steps of no length, which no amount of updates could catch up
    /// with.
    pub fn new(time_per_update: u64) -> (clock: Option<UpdateClock>)
        ensures
            time_per_update == 0 <==> clock is None,
            clock matches Some(c) ==> c.step() == time_per_update && c.lag() == 0,
    {
        if time_per_update == 0 {
            None
        } else {
            Some(UpdateClock { time_per_update, lag: 0 })
        }
    }

    /// Length of one update step.
    pub fn time_per_update(&self) -> (step: u64)
        ensures
            step == self.step(),
            step > 0,
    {
        proof {
            use_type_invariant(self);
        }
        self.time_per_update
    }

    /// Lets `elapsed` pass and returns the number of update steps now due:
    /// as many as fit into the lag carried over plus `elapsed`.  What is
    /// left over is the new lag.
    pub fn advance(&mut self, elapsed: u64) -> (updates: u64)
        ensures
            final(self).step() == old(self).step(),
            old(self).step() > 0,
            updates == (old(self).lag() + elapsed) / old(self).step(),
            final(self).lag() == (old(self).lag() + elapsed) % old(self).step(),
            old(self).lag() + elapsed == updates * old(self).step() + final(self).lag(),
            final(self).lag() < final(self).step(),
    {
        proof {
            use_type_invariant(&*self);
        }
        let step: u128 = self.time_per_update as u128;
        let total: u128 = self.lag as u128 + elapsed as u128;
        let updates: u128 = total / step;
        let rest: u128 = total % step;
        proof {
            let t = total as int;
            let d = step as int;
            assert(t == d * (t / d) + t % d && 0 <= t % d < d) by (nonlinear_arith)
                requires
                    d > 0,
                    t >= 0,
            ;
            assert(t / d <= u64::MAX) by (nonlinear_arith)
                requires
                    d > 0,
                    t >= 0,
                    t == d * (t / d) + t % d,
                    0 <= t % d,
                    d >= 2 ==> t <= 2 * u64::MAX,
                    d == 1 ==> t <= u64::MAX,
            ;
            assert(t == (t / d) * d + t % d) by (nonlinear_arith)
                requires
                    t == d * (t / d) + t % d,
            ;
        }
        self.lag = rest as u64;
        updates as u64
    }
}

/// The engine: the renderer together with the assets it draws and the
/// settings it runs with.
pub struct Engine {
    renderer: Renderer,
    asset_manager: AssetManager,
    settings: Settings,
}

impl Engine {
    /// The state of the renderer.
    pub closed spec fn renderer(&self) -> RendererView {
        self.renderer@
    }

    /// The active scene, if one is set.
    pub closed spec fn scene(&self) -> Option<Seq<Object>> {
        self.asset_manager.scene()
    }

    /// The settings the engine runs with.
    pub closed spec fn spec_settings(&self) -> Settings {
        self.settings
    }

    /// The editor overlay is shown.
    pub open spec fn gui_editor(&self) -> bool {
        self.spec_settings().gui_editor
    }

    /// An engine around `renderer` without an active scene.  `gui_editor`
    /// overrides the setting of that name.
    pub fn new(settings: Settings, gui_editor: bool, renderer: Renderer) -> (engine: Engine)
        ensures
            engine.renderer() == renderer@,
            engine.scene() is None,
            engine.spec_settings() == (Settings { gui_editor, ..settings }),
    {
        let mut settings = settings;
        settings.gui_editor = gui_editor;
        Engine { renderer, asset_manager: AssetManager::new(), settings }
    }

    /// The settings the engine runs with.
    pub fn settings(&self) -> (settings: &Settings)
        ensures
            *settings == self.spec_settings(),
    {
        &self.settings
    }

    /// The asset manager, to change what is drawn.
    pub fn asset_manager_mut(&mut self) -> (asset_manager: &mut AssetManager)
        ensures
            asset_manager.scene() == old(self).scene(),
            final(self).scene() == final(asset_manager).scene(),
            final(self).renderer() == old(self).renderer(),
            final(self).spec_settings() == old(self).spec_settings(),
    {
        &mut self.asset_manager
    }

    /// Makes `scene` the active scene.
    pub fn set_active_scene(&mut self, scene: crate::scene::Scene)
        ensures
            final(self).scene() == Some(scene@),
            final(self).renderer() == old(self).renderer(),
            final(self).spec_settings() == old(self).spec_settings(),
    {
        self.asset_manager.set_active_scene(scene);
    }

    /// Notes that the swapchain no longer fits the window.
    pub fn force_recreate_swapchain(&mut self)
        ensures
            final(self).renderer() == crate::renderer::force_recreate(old(self).renderer()),
            final(self).scene() == old(self).scene(),
            final(self).spec_settings() == old(self).spec_settings(),
    {
        self.renderer.force_recreate_swapchain();
    }

    /// Tells the renderer what happened, with the active scene of this
    /// engine, and returns what it asks for next.
    pub fn render(&mut self, event: FrameEvent) -> (action: FrameAction)
        ensures
            final(self).renderer() == next(old(self).renderer(), event@, old(self).scene()).0,
            action@ == next(old(self).renderer(), event@, old(self).scene()).1,
            final(self).scene() == old(self).scene(),
            final(self).spec_settings() == old(self).spec_settings(),
    {
        self.renderer.step(event, &self.asset_manager)
    }

    /// Whether the editor overlay is recorded into a frame: only into one
    /// that the renderer has handed out, and only if the editor is shown.
    pub fn overlay_due(&self, action: &FrameAction) -> (due: bool)
        ensures
            due == (self.gui_editor() && action@ is FrameReady),
    {
        match action {
            FrameAction::FrameReady { .. } => self.settings.gui_editor,
            _ => false,
        }
    }

    /// Lets `state` prepare the game: its `init` is handed the settings and
    /// the assets of this engine, and what it leaves of them is what the
    /// engine goes on with.  The renderer is not touched.
    pub fn init<S: EventHandler>(&mut self, state: &mut S)
        ensures
            final(state).initialized(
                old(state),
                old(self).spec_settings(),
                old(self).scene(),
                final(self).spec_settings(),
                final(self).scene(),
            ),
            final(self).renderer() == old(self).renderer(),
    {
        state.init(&mut self.settings, &mut self.asset_manager);
    }

    /// The game `game` together with the settings and the scene of this
    /// engine.
    pub open spec fn moment<S>(&self, game: S) -> Moment<S> {
        Moment { game, settings: self.spec_settings(), scene: self.scene() }
    }

    /// Lets `elapsed` pass on `clock` and runs the update steps that are
    /// due: the game's `update` is called once per step, each time over one
    /// step of the clock and with the settings and the assets that the call
    /// before left.  What the last call leaves is what the engine goes on
    /// with.  The renderer is not touched.
    pub fn update<S: EventHandler>(
        &mut self,
        state: &mut S,
        clock: &mut UpdateClock,
        elapsed: u64,
    ) -> (updates: u64)
        ensures
            final(clock).step() == old(clock).step(),
            old(clock).step() > 0,
            updates == (old(clock).lag() + elapsed) / old(clock).step(),
            final(clock).lag() == (old(clock).lag() + elapsed) % old(clock).step(),
            exists|moments: Seq<Moment<S>>|
                #[trigger] is_update_run(
                    moments,
                    old(self).moment(*old(state)),
                    final(self).moment(*final(state)),
                    updates,
                    old(clock).step() as u64,
                ),
            final(self).renderer() == old(self).renderer(),
    {
        let updates = clock.advance(elapsed);
        let step = clock.time_per_update();
        let mut done: u64 = 0;
        let ghost first = self.moment(*state);
        let ghost mut moments = seq![first];
        while done < updates
            invariant
                done <= updates,
                self.renderer() == old(self).renderer(),
                is_update_run(moments, first, self.moment(*state), done, step),
            decreases updates - done,
        {
            let ghost before = moments;
            state.update(&mut self.settings, &mut self.asset_manager, step);
            done += 1;
            proof {
                moments = before.push(self.moment(*state));
                assert forall|k: int| 0 < k < moments.len() implies (#[trigger] moments[k]).game.updated(
                    &moments[k - 1].game,
                    moments[k - 1].settings,
                    moments[k - 1].scene,
                    step,
                    moments[k].settings,
                    moments[k].scene,
                ) by {
                    if k < before.len() {
                        assert(moments[k] == before[k]);
                        assert(moments[k - 1] == before[k - 1]);
                    } else {
                        assert(moments[k - 1] == before.last());
                    }
                }
            }
        }
        proof {
            assert(is_update_run(
                moments,
                old(self).moment(*old(state)),
                self.moment(*state),
                updates,
                old(clock).step() as u64,
            ));
        }
        updates
    }
}

} // verus!
