use vstd::prelude::*;
use vstd::string::*;

use crate::engine::app_info::{AppInfo, AppInfoView};
use crate::engine::backend::backend_config::unset_defaults;
use crate::engine::backend::backend_enum::Type;
use crate::engine::backend::backend_manager::Manager;
use crate::engine::backend::backend_plugin::PluginView;
use crate::engine::lifecycle::{ExitAction, FrameOutcome, Lifecycle};
use crate::resource::resource_manager::ResourceManager;
use crate::util::directory::{Directory, DirectoryError, DirectoryReport};
use crate::util::platform::Platform;
use crate::util::version::Version;
use crate::window::detail::window_backend_default::WindowBackendDefault;
use crate::window::window_backend::{lemma_after_events_state, WindowBackend};
use crate::window::detail::window_factory_default::WindowFactoryDefault;
use crate::window::window_config::{default_window_config, WindowConfig};
use crate::window::window_enum::{WindowEvent, WindowState};
use crate::window::window_factory::WindowFactory;
use crate::window::window_manager::{WindowInit, WindowManager};

verus! {

/// Where a run of the main loop ends.
pub struct RunState {
    /// The state of the application.
    pub lifecycle: Lifecycle,
    /// The window backend.
    pub window: WindowBackend,
    /// How many frames were rendered.
    pub rendered: nat,
}

/// The views of the batches of events of a feed, in order.
pub open spec fn feed_views(feed: Seq<Vec<WindowEvent>>) -> Seq<Seq<WindowEvent>> {
    feed.map_values(|batch: Vec<WindowEvent>| batch@)
}

/// The window backend after one turn of the main loop: the backend takes
/// the events of the frame unless the loop is idle or is stopping.
pub open spec fn window_after_frame(
    lifecycle: Lifecycle,
    window: WindowBackend,
    events: Seq<WindowEvent>,
) -> WindowBackend {
    if lifecycle == Lifecycle::Running {
        window.after_events(events)
    } else {
        window
    }
}

/// Where the main loop ends if it takes one turn for each batch of `feed`
/// for as long as it is active.
pub open spec fn run_model(lifecycle: Lifecycle, window: WindowBackend, feed: Seq<Seq<WindowEvent>>)
    -> RunState
    decreases feed.len(),
{
    if feed.len() == 0 || !lifecycle.is_running() {
        RunState { lifecycle, window, rendered: 0 }
    } else {
        let closed = window.window_state() == WindowState::Closed;
        let rest = run_model(
            lifecycle.after_frame(closed),
            window_after_frame(lifecycle, window, feed.first()),
            feed.drop_first(),
        );
        let rendered: nat = if lifecycle.frame_outcome(closed) == FrameOutcome::Rendered {
            1
        } else {
            0
        };
        RunState {
            lifecycle: rest.lifecycle,
            window: rest.window,
            rendered: rest.rendered + rendered,
        }
    }
}

/// The app.
///
/// This is the control center of the engine. It is in charge of the
/// initialization, the updating and the shutdown of all modules.
pub struct App {
    app_info: AppInfo,
    resource_mgr: ResourceManager,
    backend_mgr: Manager,
    window_mgr: WindowManager,
    platform: Platform,
    state: Lifecycle,
}

impl App {
    /// Where the application stands between its creation and its end.
    pub closed spec fn lifecycle(&self) -> Lifecycle {
        self.state
    }

    /// The application info.
    pub closed spec fn info(&self) -> AppInfoView {
        self.app_info@
    }

    /// The platform whose plugin modules the app searches for.
    pub closed spec fn target(&self) -> Platform {
        self.platform
    }

    /// The resource manager, which keeps the configuration files and the
    /// plugins.
    pub closed spec fn resource_manager(&self) -> ResourceManager {
        self.resource_mgr
    }

    /// The backend manager.
    pub closed spec fn backend_manager(&self) -> Manager {
        self.backend_mgr
    }

    /// The window manager.
    pub closed spec fn window_manager(&self) -> WindowManager {
        self.window_mgr
    }

    /// The active window backend.
    pub open spec fn window(&self) -> WindowBackend {
        self.window_manager().backend()
    }

    /// Whether the app is as a builder leaves it: not initialized, with the
    /// fallback window backend, the default window configuration, and
    /// managers for `platform` that hold their defaults and nothing else.
    pub open spec fn is_fresh(&self, platform: Platform) -> bool {
        &&& self.lifecycle() == Lifecycle::Uninitialized
        &&& self.target() == platform
        &&& self.window() == WindowBackend::Fallback(WindowBackendDefault::new_spec())
        &&& !self.window_manager().is_released()
        &&& self.window_manager().config() == default_window_config()
        &&& self.window_manager().factory() == WindowFactory::Default(WindowFactoryDefault {  })
        &&& self.backend_manager().wf()
        &&& self.backend_manager().catalog() == Seq::<PluginView>::empty()
        &&& self.backend_manager().config().backend_dir == "backend"@
        &&& self.backend_manager().config().default_backend == unset_defaults()
        &&& self.backend_manager().extension() == platform.extension_text()
        &&& self.resource_manager().config_directory() == "cfg/"@
        &&& self.resource_manager().resource_directory() == "res/"@
        &&& self.resource_manager().binary_directory() == "bin/"@
        &&& self.resource_manager().plugin_directory() == "bin/plugins/"@
        &&& self.resource_manager().plugins().extension() == platform.extension_text()
        &&& self.resource_manager().plugins().configured() == Seq::<Seq<char>>::empty()
        &&& self.resource_manager().plugins().registered() == Seq::<Seq<char>>::empty()
    }

    /// Returns a new App Builder.
    pub fn builder() -> (builder: AppBuilder)
        ensures
            builder.info() == crate::engine::app_info::unknown_app(),
            builder.target() == Platform::Linux,
    {
        AppBuilder::new()
    }

    /// Initializes the app, given what was found of its directories.
    ///
    /// Where a directory keeps the engine from starting, the app stays as
    /// it is and the error names the first such directory: the process must
    /// not go on. Otherwise an app that has not been initialized gets a
    /// fresh resource manager, a fresh backend manager and the fallback
    /// window backend, and the result is `true`. An app that has been
    /// initialized before stays as it is, and the result is `false`.
    pub fn init(&mut self, directories: &DirectoryReport) -> (result: Result<bool, DirectoryError>)
        ensures
            final(self).info() == old(self).info(),
            final(self).target() == old(self).target(),
            match directories.first_failure() {
                Some(role) => result == Err::<bool, DirectoryError>(DirectoryError { role })
                    && *final(self) == *old(self),
                None => result == Ok::<bool, DirectoryError>(
                    old(self).lifecycle() == Lifecycle::Uninitialized,
                ) && final(self).lifecycle() == old(self).lifecycle().after_init(true),
            },
            result == Ok::<bool, DirectoryError>(false) ==> *final(self) == *old(self),
            result == Ok::<bool, DirectoryError>(true) ==> {
                &&& final(self).window() == WindowBackend::Fallback(
                    WindowBackendDefault::new_spec(),
                )
                &&& !final(self).window_manager().is_released()
                &&& final(self).window_manager().config() == default_window_config()
                &&& final(self).window_manager().factory() == WindowFactory::Default(
                    WindowFactoryDefault {  },
                )
                &&& final(self).backend_manager().wf()
                &&& final(self).backend_manager().catalog() == Seq::<PluginView>::empty()
                &&& final(self).backend_manager().config().backend_dir == "backend"@
                &&& final(self).backend_manager().config().default_backend == unset_defaults()
                &&& final(self).backend_manager().extension() == old(self).target().extension_text()
                &&& final(self).resource_manager().config_directory() == "cfg/"@
                &&& final(self).resource_manager().resource_directory() == "res/"@
                &&& final(self).resource_manager().binary_directory() == "bin/"@
                &&& final(self).resource_manager().plugin_directory() == "bin/plugins/"@
                &&& final(self).resource_manager().plugins().extension()
                    == old(self).target().extension_text()
                &&& final(self).resource_manager().plugins().configured() == Seq::<
                    Seq<char>,
                >::empty()
                &&& final(self).resource_manager().plugins().registered() == Seq::<
                    Seq<char>,
                >::empty()
            },
    {
        match Directory::check(directories) {
            Err(error) => Err(error),
            Ok(()) => {
                if self.state == Lifecycle::Uninitialized {
                    self.resource_mgr = ResourceManager::new(self.platform);
                    self.backend_mgr = Manager::new(self.platform);
                    self.window_mgr = WindowManager::new();
                    self.state = Lifecycle::Initialized;
                    Ok(true)
                } else {
                    Ok(false)
                }
            },
        }
    }

    /// Initializes the window with the stored window configuration, if
    /// there is one. Does nothing before the app is initialized.
    pub fn init_window(&mut self, stored: Option<WindowConfig>) -> (outcome: Option<WindowInit>)
        ensures
            final(self).lifecycle() == old(self).lifecycle(),
            final(self).info() == old(self).info(),
            final(self).target() == old(self).target(),
            final(self).backend_manager() == old(self).backend_manager(),
            final(self).resource_manager() == old(self).resource_manager(),
            !old(self).lifecycle().is_initialized() ==> outcome is None,
            !old(self).lifecycle().is_initialized() ==> *final(self) == *old(self),
            old(self).lifecycle().is_initialized() ==> {
                &&& outcome == Some(
                    WindowInit {
                        create_config: stored is None,
                        warn_inert: old(self).window().warns_on_init(),
                    },
                )
                &&& final(self).window_manager().config() == match stored {
                    Some(config) => config@,
                    None => old(self).window_manager().config(),
                }
                &&& final(self).window() == old(self).window().after_init(
                    final(self).window_manager().config().window_size,
                    final(self).window_manager().config().window_pos,
                )
                &&& final(self).window().window_state() == old(self).window().window_state()
                &&& final(self).window().is_fallback() == old(self).window().is_fallback()
                &&& final(self).window_manager().factory() == old(self).window_manager().factory()
                &&& final(self).window_manager().is_released()
                    == old(self).window_manager().is_released()
            },
    {
        if self.state.initialized() {
            Some(self.window_mgr.init(stored))
        } else {
            None
        }
    }

    /// Enters the main loop. Returns whether the loop is active now.
    pub fn start(&mut self) -> (running: bool)
        ensures
            final(self).lifecycle() == old(self).lifecycle().after_start(),
            running == final(self).lifecycle().is_running(),
            final(self).info() == old(self).info(),
            final(self).target() == old(self).target(),
            final(self).backend_manager() == old(self).backend_manager(),
            final(self).resource_manager() == old(self).resource_manager(),
            final(self).window_manager() == old(self).window_manager(),
    {
        self.state = self.state.start();
        self.state.running()
    }

    /// Takes one turn of the main loop, with the events that the platform
    /// has queued for the window since the last turn.
    ///
    /// A loop that has been asked to stop stops, and does nothing else. A
    /// loop that is active looks at the window, then hands the events to
    /// the window backend. If it found the window closed it asks itself to
    /// stop and skips the frame. Otherwise the frame is rendered.
    pub fn frame(&mut self, events: &Vec<WindowEvent>) -> (outcome: FrameOutcome)
        ensures
            outcome == old(self).lifecycle().frame_outcome(
                old(self).window().window_state() == WindowState::Closed,
            ),
            final(self).lifecycle() == old(self).lifecycle().after_frame(
                old(self).window().window_state() == WindowState::Closed,
            ),
            final(self).window() == window_after_frame(
                old(self).lifecycle(),
                old(self).window(),
                events@,
            ),
            final(self).window().is_fallback() == old(self).window().is_fallback(),
            final(self).window().window_state() == if old(self).lifecycle() == Lifecycle::Running
                && !old(self).window().is_fallback() {
                old(self).window().window_state().after_all(events@)
            } else {
                old(self).window().window_state()
            },
            final(self).window_manager().config() == old(self).window_manager().config(),
            final(self).window_manager().factory() == old(self).window_manager().factory(),
            final(self).window_manager().is_released() == old(self).window_manager().is_released(),
            final(self).info() == old(self).info(),
            final(self).target() == old(self).target(),
            final(self).backend_manager() == old(self).backend_manager(),
            final(self).resource_manager() == old(self).resource_manager(),
    {
        proof {
            lemma_after_events_state(self.window(), events@);
        }
        let closed = if self.state == Lifecycle::Running {
            self.window_mgr.on_pre_render(events)
        } else {
            false
        };
        let (next, outcome) = self.state.frame(closed);
        if outcome == FrameOutcome::Rendered {
            self.window_mgr.on_render();
            self.window_mgr.on_post_render();
        }
        self.state = next;
        outcome
    }

    /// The main app loop, run on a feed of events.
    ///
    /// Enters the loop and takes one turn for each batch of `feed`, until
    /// the loop stops or the feed is used up. In the second case the loop
    /// is still active, and goes on with the next call of [`App::frame`].
    /// Returns the number of frames that were rendered.
    pub fn run(&mut self, feed: &Vec<Vec<WindowEvent>>) -> (rendered: usize)
        ensures
            final(self).lifecycle() == run_model(
                old(self).lifecycle().after_start(),
                old(self).window(),
                feed_views(feed@),
            ).lifecycle,
            final(self).window() == run_model(
                old(self).lifecycle().after_start(),
                old(self).window(),
                feed_views(feed@),
            ).window,
            rendered == run_model(
                old(self).lifecycle().after_start(),
                old(self).window(),
                feed_views(feed@),
            ).rendered,
            final(self).window_manager().config() == old(self).window_manager().config(),
            final(self).window_manager().factory() == old(self).window_manager().factory(),
            final(self).window_manager().is_released() == old(self).window_manager().is_released(),
            final(self).info() == old(self).info(),
            final(self).target() == old(self).target(),
            final(self).backend_manager() == old(self).backend_manager(),
            final(self).resource_manager() == old(self).resource_manager(),
    {
        self.start();
        let ghost views = feed_views(feed@);
        let ghost whole = run_model(self.lifecycle(), self.window(), views);
        let mut rendered: usize = 0;
        let mut i: usize = 0;
        assert(views.skip(0) =~= views);
        while i < feed.len() && self.state.running()
            invariant
                i <= feed.len(),
                rendered <= i,
                views == feed_views(feed@),
                whole.lifecycle == run_model(
                    self.lifecycle(),
                    self.window(),
                    views.skip(i as int),
                ).lifecycle,
                whole.window == run_model(
                    self.lifecycle(),
                    self.window(),
                    views.skip(i as int),
                ).window,
                whole.rendered == rendered + run_model(
                    self.lifecycle(),
                    self.window(),
                    views.skip(i as int),
                ).rendered,
                self.window_manager().config() == old(self).window_manager().config(),
                self.window_manager().factory() == old(self).window_manager().factory(),
                self.window_manager().is_released() == old(self).window_manager().is_released(),
                self.info() == old(self).info(),
                self.target() == old(self).target(),
                self.backend_manager() == old(self).backend_manager(),
                self.resource_manager() == old(self).resource_manager(),
            decreases feed.len() - i,
        {
            proof {
                assert(views.skip(i as int).first() == feed@[i as int]@);
                assert(views.skip(i as int).drop_first() =~= views.skip(i + 1));
            }
            let outcome = self.frame(&feed[i]);
            if outcome == FrameOutcome::Rendered {
                rendered += 1;
            }
            i += 1;
        }
        rendered
    }

    /// Asks the app to stop, or shuts it down.
    ///
    /// While the main loop is active the call only asks the loop to stop:
    /// the loop finishes its frame and returns. Once the loop is not
    /// active, the call releases the window backend, then the resource
    /// manager, and asks for the process to end with the status zero. On an
    /// app that is not initialized, or not any more, the call does nothing.
    pub fn exit(&mut self) -> (action: ExitAction)
        ensures
            action == old(self).lifecycle().exit_action(),
            final(self).lifecycle() == old(self).lifecycle().after_exit(),
            final(self).info() == old(self).info(),
            final(self).target() == old(self).target(),
            final(self).backend_manager() == old(self).backend_manager(),
            action is Terminate ==> {
                &&& final(self).window_manager().is_released()
                &&& final(self).window() == WindowBackend::Fallback(
                    WindowBackendDefault::new_spec(),
                )
                &&& final(self).window_manager().factory() == WindowFactory::Default(
                    WindowFactoryDefault {  },
                )
                &&& final(self).window_manager().config() == old(self).window_manager().config()
                &&& final(self).resource_manager().plugins().registered() == Seq::<
                    Seq<char>,
                >::empty()
                &&& final(self).resource_manager().plugins().configured()
                    == old(self).resource_manager().plugins().configured()
                &&& final(self).resource_manager().config_directory()
                    == old(self).resource_manager().config_directory()
            },
            !(action is Terminate) ==> {
                &&& final(self).window_manager() == old(self).window_manager()
                &&& final(self).resource_manager() == old(self).resource_manager()
            },
    {
        let (next, action) = self.state.exit();
        if let ExitAction::Terminate(_) = action {
            self.window_mgr.release();
            self.resource_mgr.release();
        }
        self.state = next;
        action
    }

    /// Registers the backend that a plugin provides for a capability.
    ///
    /// The engine itself drives the window only: for a window backend, on
    /// an app that is initialized, the active backend is released first,
    /// and then `factory` is asked for the backend that takes its place.
    /// Returns whether that was done.
    pub fn register_backend(&mut self, backend_type: Type, factory: WindowFactory) -> (done: bool)
        ensures
            done == (backend_type == Type::Window && old(self).lifecycle().is_initialized()),
            !done ==> *final(self) == *old(self),
            done ==> {
                &&& final(self).window_manager()
                    == old(self).window_manager().after_backend_released().after_factory_asked(
                    factory,
                )
                &&& final(self).window_manager().factory() == factory
                &&& final(self).window() == factory.product()
                &&& final(self).window().is_fallback() == (factory is Default)
                &&& final(self).window().window_state() == WindowState::Active
                &&& final(self).window_manager().config() == old(self).window_manager().config()
                &&& final(self).window_manager().is_released()
                    == old(self).window_manager().is_released()
            },
            final(self).lifecycle() == old(self).lifecycle(),
            final(self).info() == old(self).info(),
            final(self).target() == old(self).target(),
            final(self).backend_manager() == old(self).backend_manager(),
            final(self).resource_manager() == old(self).resource_manager(),
    {
        if backend_type == Type::Window && self.state.initialized() {
            self.window_mgr.register_plugin(factory);
            true
        } else {
            false
        }
    }

    /// Records the native handles that the plugin gave out for the window.
    /// The fallback has no handles, and stays without.
    pub fn attach_platform(&mut self, display: Option<usize>, window: Option<usize>)
        ensures
            final(self).window() == old(self).window().after_attach(display, window),
            final(self).window().is_fallback() == old(self).window().is_fallback(),
            final(self).window().window_state() == old(self).window().window_state(),
            final(self).window_manager().config() == old(self).window_manager().config(),
            final(self).window_manager().factory() == old(self).window_manager().factory(),
            final(self).window_manager().is_released() == old(self).window_manager().is_released(),
            final(self).lifecycle() == old(self).lifecycle(),
            final(self).info() == old(self).info(),
            final(self).target() == old(self).target(),
            final(self).backend_manager() == old(self).backend_manager(),
            final(self).resource_manager() == old(self).resource_manager(),
    {
        self.window_mgr.attach_platform(display, window);
    }

    /// Checks if the app has been initialized.
    pub fn is_initialized(&self) -> (initialized: bool)
        ensures
            initialized == self.lifecycle().is_initialized(),
    {
        self.state.initialized()
    }

    /// Whether the main loop is active.
    pub fn is_running(&self) -> (running: bool)
        ensures
            running == self.lifecycle().is_running(),
    {
        self.state.running()
    }

    /// Whether the app has been asked to stop.
    pub fn exit_requested(&self) -> (requested: bool)
        ensures
            requested == self.lifecycle().exit_requested(),
    {
        self.state.stop_requested()
    }

    /// Where the application stands between its creation and its end.
    pub fn get_lifecycle(&self) -> (state: Lifecycle)
        ensures
            state == self.lifecycle(),
    {
        self.state
    }

    /// Returns the name of the application.
    pub fn get_name(&self) -> (name: String)
        ensures
            name@ == self.info().app_name,
    {
        self.app_info.app_name.clone()
    }

    /// Returns the version of the application.
    pub fn get_version(&self) -> (version: Version)
        ensures
            version == self.info().app_version,
    {
        self.app_info.app_version
    }

    /// Returns a copy of the application info.
    pub fn get_info(&self) -> (info: AppInfo)
        ensures
            info@ == self.info(),
    {
        self.app_info.clone()
    }

    /// Returns the resource manager.
    pub fn get_resource_manager(&self) -> (manager: &ResourceManager)
        ensures
            *manager == self.resource_manager(),
    {
        &self.resource_mgr
    }

    /// Returns the backend manager.
    pub fn get_backend_manager(&self) -> (manager: &Manager)
        ensures
            *manager == self.backend_manager(),
    {
        &self.backend_mgr
    }

    /// Returns the window manager.
    pub fn get_window_manager(&self) -> (manager: &WindowManager)
        ensures
            *manager == self.window_manager(),
    {
        &self.window_mgr
    }

    /// Returns the backend manager, to change it.
    pub fn get_backend_manager_mut(&mut self) -> (manager: &mut Manager)
        ensures
            *manager == old(self).backend_manager(),
            final(self).backend_manager() == *final(manager),
            final(self).lifecycle() == old(self).lifecycle(),
            final(self).info() == old(self).info(),
            final(self).target() == old(self).target(),
            final(self).resource_manager() == old(self).resource_manager(),
            final(self).window_manager() == old(self).window_manager(),
    {
        &mut self.backend_mgr
    }

    /// Returns the resource manager, to change it.
    pub fn get_resource_manager_mut(&mut self) -> (manager: &mut ResourceManager)
        ensures
            *manager == old(self).resource_manager(),
            final(self).resource_manager() == *final(manager),
            final(self).lifecycle() == old(self).lifecycle(),
            final(self).info() == old(self).info(),
            final(self).target() == old(self).target(),
            final(self).backend_manager() == old(self).backend_manager(),
            final(self).window_manager() == old(self).window_manager(),
    {
        &mut self.resource_mgr
    }
}

/// A main loop that has been asked to stop stops at its first turn: no
/// frame is rendered, and the window stays as it is.
pub proof fn lemma_run_stops_when_asked(window: WindowBackend, feed: Seq<Seq<WindowEvent>>)
    requires
        feed.len() > 0,
    ensures
        run_model(Lifecycle::StopRequested, window, feed) == (RunState {
            lifecycle: Lifecycle::Stopped,
            window,
            rendered: 0,
        }),
{
    assert(run_model(Lifecycle::Stopped, window, feed.drop_first()) == (RunState {
        lifecycle: Lifecycle::Stopped,
        window,
        rendered: 0,
    }));
}

/// With the fallback backend the window never closes: the main loop
/// renders one frame for each batch of the feed, and is still active at the
/// end.
pub proof fn lemma_run_on_fallback(window: WindowBackend, feed: Seq<Seq<WindowEvent>>)
    requires
        window.is_fallback(),
    ensures
        run_model(Lifecycle::Running, window, feed) == (RunState {
            lifecycle: Lifecycle::Running,
            window,
            rendered: feed.len(),
        }),
    decreases feed.len(),
{
    if feed.len() > 0 {
        lemma_run_on_fallback(window, feed.drop_first());
    }
}

/// The main loop renders at most one frame for each batch of the feed,
/// never ends or revives the application, and does nothing unless it is
/// active.
pub proof fn lemma_run_bounds(
    lifecycle: Lifecycle,
    window: WindowBackend,
    feed: Seq<Seq<WindowEvent>>,
)
    ensures
        run_model(lifecycle, window, feed).rendered <= feed.len(),
        run_model(lifecycle, window, feed).lifecycle.is_initialized()
            == lifecycle.is_initialized(),
        !lifecycle.is_running() ==> run_model(lifecycle, window, feed) == (RunState {
            lifecycle,
            window,
            rendered: 0,
        }),
        window.window_state() == WindowState::Closed ==> run_model(
            lifecycle,
            window,
            feed,
        ).rendered == 0,
    decreases feed.len(),
{
    if feed.len() > 0 && lifecycle.is_running() {
        let closed = window.window_state() == WindowState::Closed;
        let next = window_after_frame(lifecycle, window, feed.first());
        lemma_run_bounds(lifecycle.after_frame(closed), next, feed.drop_first());
        if closed {
            crate::window::window_backend::lemma_closed_only_by_pre_render(window, feed.first());
        }
    }
}

/// Used for building a new app instance.
pub struct AppBuilder {
    app_name: String,
    app_developer: String,
    app_publisher: String,
    app_version: Version,
    platform: Platform,
}

impl AppBuilder {
    /// The application info that the builder holds.
    pub closed spec fn info(&self) -> AppInfoView {
        AppInfoView {
            app_name: self.app_name@,
            app_developer: self.app_developer@,
            app_publisher: self.app_publisher@,
            app_version: self.app_version,
        }
    }

    /// The platform whose plugin modules the app will search for.
    pub closed spec fn target(&self) -> Platform {
        self.platform
    }

    /// Returns a new app builder instance: for an application of which
    /// nothing is known, on Linux.
    pub fn new() -> (builder: AppBuilder)
        ensures
            builder.info() == crate::engine::app_info::unknown_app(),
            builder.target() == Platform::Linux,
    {
        AppBuilder {
            app_name: "Unknown".to_string(),
            app_developer: "Unknown".to_string(),
            app_publisher: "Unknown".to_string(),
            app_version: Version::new(),
            platform: Platform::Linux,
        }
    }

    /// Sets the app name.
    pub fn name(&mut self, name: &str) -> (builder: &mut Self)
        ensures
            builder.info() == (AppInfoView { app_name: name@, ..old(self).info() }),
            builder.target() == old(self).target(),
            *final(self) == *final(builder),
    {
        self.app_name = name.to_owned();
        self
    }

    /// Sets the app developer.
    pub fn developer(&mut self, developer: &str) -> (builder: &mut Self)
        ensures
            builder.info() == (AppInfoView { app_developer: developer@, ..old(self).info() }),
            builder.target() == old(self).target(),
            *final(self) == *final(builder),
    {
        self.app_developer = developer.to_owned();
        self
    }

    /// Sets the app publisher.
    pub fn publisher(&mut self, publisher: &str) -> (builder: &mut Self)
        ensures
            builder.info() == (AppInfoView { app_publisher: publisher@, ..old(self).info() }),
            builder.target() == old(self).target(),
            *final(self) == *final(builder),
    {
        self.app_publisher = publisher.to_owned();
        self
    }

    /// Sets the app version.
    pub fn version(&mut self, version: Version) -> (builder: &mut Self)
        ensures
            builder.info() == (AppInfoView { app_version: version, ..old(self).info() }),
            builder.target() == old(self).target(),
            *final(self) == *final(builder),
    {
        self.app_version = version;
        self
    }

    /// Sets the platform whose plugin modules the app will search for.
    pub fn platform(&mut self, platform: Platform) -> (builder: &mut Self)
        ensures
            builder.info() == old(self).info(),
            builder.target() == platform,
            *final(self) == *final(builder),
    {
        self.platform = platform;
        self
    }

    /// Builds the app: a context that carries the identity set so far and
    /// has not been initialized.
    pub fn build(&self) -> (app: App)
        ensures
            app.info() == self.info(),
            app.is_fresh(self.target()),
    {
        App {
            app_info: AppInfo {
                app_name: self.app_name.clone(),
                app_developer: self.app_developer.clone(),
                app_publisher: self.app_publisher.clone(),
                app_version: self.app_version,
            },
            resource_mgr: ResourceManager::new(self.platform),
            backend_mgr: Manager::new(self.platform),
            window_mgr: WindowManager::new(),
            platform: self.platform,
            state: Lifecycle::Uninitialized,
        }
    }
}

impl Default for AppBuilder {
    fn default() -> (builder: AppBuilder)
        ensures
            builder.info() == crate::engine::app_info::unknown_app(),
            builder.target() == Platform::Linux,
    {
        AppBuilder::new()
    }
}

} // verus!
