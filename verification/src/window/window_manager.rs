use vstd::prelude::*;

use crate::window::detail::window_backend_default::{NotSupported, WindowBackendDefault};
use crate::window::detail::window_factory_default::WindowFactoryDefault;
use crate::window::window_backend::WindowBackend;
use crate::window::window_config::{WindowConfig, WindowConfigView};
use crate::window::window_enum::{WindowEvent, WindowState};
use crate::window::window_factory::WindowFactory;

verus! {

/// What the initialization of the window manager asks of its caller.
#[derive(Debug, Copy, Clone, PartialEq, Eq, Structural)]
pub struct WindowInit {
    /// No stored configuration was handed in: the default one is in use and
    /// should be written to the configuration store.
    pub create_config: bool,
    /// The inert fallback backend is in use: warn that the application may
    /// not behave as expected.
    pub warn_inert: bool,
}

/// The steps of the registration of a window plugin.
#[derive(Debug, Copy, Clone, PartialEq, Eq, Structural)]
pub enum RegistrationStep {
    /// The backend that has been active is released.
    ReleaseBackend,
    /// The factory is asked for a backend, which becomes the active one.
    AskFactory,
}

/// Handles the creation and destruction of the window.
pub struct WindowManager {
    window_config: WindowConfig,
    window_factory: WindowFactory,
    window_backend: WindowBackend,
    released: bool,
}

impl WindowManager {
    /// The window configuration.
    pub closed spec fn config(&self) -> WindowConfigView {
        self.window_config@
    }

    /// The factory that made the active backend.
    pub closed spec fn factory(&self) -> WindowFactory {
        self.window_factory
    }

    /// The active backend.
    pub closed spec fn backend(&self) -> WindowBackend {
        self.window_backend
    }

    /// Whether the manager has been released.
    pub closed spec fn is_released(&self) -> bool {
        self.released
    }

    /// Returns a window manager with the default configuration and the
    /// inert fallback backend.
    pub fn new() -> (manager: WindowManager)
        ensures
            manager.config() == crate::window::window_config::default_window_config(),
            manager.factory() == WindowFactory::Default(WindowFactoryDefault {  }),
            manager.backend() == WindowBackend::Fallback(WindowBackendDefault::new_spec()),
            !manager.is_released(),
    {
        WindowManager {
            window_config: WindowConfig::default(),
            window_factory: WindowFactory::Default(WindowFactoryDefault::new()),
            window_backend: WindowBackend::Fallback(WindowBackendDefault::new()),
            released: false,
        }
    }

    /// Initializes the window manager with the stored window configuration,
    /// if there is one, and initializes the backend with the configuration
    /// in use.
    pub fn init(&mut self, stored: Option<WindowConfig>) -> (outcome: WindowInit)
        ensures
            outcome.create_config == (stored is None),
            outcome.warn_inert == old(self).backend().warns_on_init(),
            final(self).config() == match stored {
                Some(config) => config@,
                None => old(self).config(),
            },
            final(self).backend() == old(self).backend().after_init(
                final(self).config().window_size,
                final(self).config().window_pos,
            ),
            final(self).backend().is_fallback() == old(self).backend().is_fallback(),
            final(self).backend().window_state() == old(self).backend().window_state(),
            final(self).factory() == old(self).factory(),
            final(self).is_released() == old(self).is_released(),
    {
        let create_config = stored.is_none();
        if let Some(config) = stored {
            self.window_config = config;
        }
        let warn_inert = self.window_backend.init(&self.window_config);
        WindowInit { create_config, warn_inert }
    }

    /// The steps of the registration of a window plugin, in order: the
    /// backend that has been active is released first, and only then is
    /// the factory asked for the new one.
    pub open spec fn registration_steps() -> Seq<RegistrationStep> {
        seq![RegistrationStep::ReleaseBackend, RegistrationStep::AskFactory]
    }

    /// The manager after its backend was released: the inert fallback
    /// stands in, and everything else is as before.
    pub closed spec fn after_backend_released(self) -> WindowManager {
        WindowManager {
            window_backend: WindowBackend::Fallback(WindowBackendDefault::new_spec()),
            ..self
        }
    }

    /// The manager after `window_factory` was asked for a backend: the
    /// backend that it made is the active one, and the factory is kept.
    pub closed spec fn after_factory_asked(self, window_factory: WindowFactory) -> WindowManager {
        WindowManager {
            window_backend: window_factory.product(),
            window_factory,
            ..self
        }
    }

    /// What the two steps of a registration do to each part of the manager.
    pub proof fn lemma_registration_steps(self, window_factory: WindowFactory)
        ensures
            self.after_backend_released().backend() == WindowBackend::Fallback(
                WindowBackendDefault::new_spec(),
            ),
            self.after_backend_released().factory() == self.factory(),
            self.after_backend_released().config() == self.config(),
            self.after_backend_released().is_released() == self.is_released(),
            self.after_factory_asked(window_factory).backend() == window_factory.product(),
            self.after_factory_asked(window_factory).factory() == window_factory,
            self.after_factory_asked(window_factory).config() == self.config(),
            self.after_factory_asked(window_factory).is_released() == self.is_released(),
    {
    }

    /// The steps of the registration of a window plugin, in order. Whoever
    /// holds the native side of the window follows them: it drops the old
    /// window first, and asks the plugin for the new one after that.
    pub fn registration_order() -> (order: Vec<RegistrationStep>)
        ensures
            order@ == Self::registration_steps(),
    {
        let mut order: Vec<RegistrationStep> = Vec::new();
        order.push(RegistrationStep::ReleaseBackend);
        order.push(RegistrationStep::AskFactory);
        assert(order@ =~= Self::registration_steps());
        order
    }

    /// Registers a window plugin. The backend that has been active is
    /// released first. Then `window_factory` is asked for a backend, once,
    /// which becomes the active one, and the factory is kept.
    pub fn register_plugin(&mut self, window_factory: WindowFactory)
        ensures
            *final(self) == old(self).after_backend_released().after_factory_asked(
                window_factory,
            ),
            final(self).factory() == window_factory,
            final(self).backend() == window_factory.product(),
            final(self).backend().is_fallback() == (window_factory is Default),
            final(self).backend().window_state() == WindowState::Active,
            final(self).config() == old(self).config(),
            final(self).is_released() == old(self).is_released(),
    {
        self.window_backend = WindowBackend::Fallback(WindowBackendDefault::new());
        assert(*self == old(self).after_backend_released());
        self.window_backend = window_factory.get_window_backend();
        self.window_factory = window_factory;
    }

    /// Called before a frame is rendered. Looks at the state of the window
    /// first, then hands `events` to the backend. Returns whether the
    /// window was found closed, in which case the application should stop.
    pub fn on_pre_render(&mut self, events: &Vec<WindowEvent>) -> (closed: bool)
        ensures
            closed == (old(self).backend().window_state() == WindowState::Closed),
            final(self).backend() == old(self).backend().after_events(events@),
            final(self).backend().is_fallback() == old(self).backend().is_fallback(),
            final(self).backend().window_state() == if old(self).backend().is_fallback() {
                WindowState::Active
            } else {
                old(self).backend().window_state().after_all(events@)
            },
            final(self).config() == old(self).config(),
            final(self).factory() == old(self).factory(),
            final(self).is_released() == old(self).is_released(),
    {
        let closed = self.window_backend.get_window_state().is_closed();
        self.window_backend.on_pre_render(events);
        closed
    }

    /// Called to render a frame. Leaves the window as it is.
    pub fn on_render(&mut self)
        ensures
            final(self).backend() == old(self).backend(),
            final(self).config() == old(self).config(),
            final(self).factory() == old(self).factory(),
            final(self).is_released() == old(self).is_released(),
    {
        self.window_backend.on_render();
    }

    /// Called after a frame was rendered. Leaves the window as it is.
    pub fn on_post_render(&mut self)
        ensures
            final(self).backend() == old(self).backend(),
            final(self).config() == old(self).config(),
            final(self).factory() == old(self).factory(),
            final(self).is_released() == old(self).is_released(),
    {
        self.window_backend.on_post_render();
    }

    /// Releases the window manager: the backend and the factory are let go,
    /// and the inert defaults take their place.
    pub fn release(&mut self)
        ensures
            final(self).is_released(),
            final(self).backend() == WindowBackend::Fallback(WindowBackendDefault::new_spec()),
            final(self).factory() == WindowFactory::Default(WindowFactoryDefault {  }),
            final(self).config() == old(self).config(),
    {
        self.window_backend = WindowBackend::Fallback(WindowBackendDefault::new());
        self.window_factory = WindowFactory::Default(WindowFactoryDefault::new());
        self.released = true;
    }

    /// The state of the window.
    pub fn get_window_state(&self) -> (state: WindowState)
        ensures
            state == self.backend().window_state(),
    {
        self.window_backend.get_window_state()
    }

    /// A copy of the active backend.
    pub fn get_backend(&self) -> (backend: WindowBackend)
        ensures
            backend == self.backend(),
    {
        self.window_backend
    }

    /// A copy of the window configuration.
    pub fn get_config(&self) -> (config: WindowConfig)
        ensures
            config@ == self.config(),
    {
        self.window_config.clone()
    }

    /// Whether the active backend is the inert fallback.
    pub fn uses_fallback(&self) -> (fallback: bool)
        ensures
            fallback == self.backend().is_fallback(),
    {
        match self.window_backend {
            WindowBackend::Fallback(_) => true,
            WindowBackend::Plugin(_) => false,
        }
    }

    /// Records the native handles that the plugin gave out for the window.
    /// The fallback has no handles, and stays without.
    pub fn attach_platform(&mut self, display: Option<usize>, window: Option<usize>)
        ensures
            final(self).backend() == old(self).backend().after_attach(display, window),
            final(self).backend().is_fallback() == old(self).backend().is_fallback(),
            final(self).backend().window_state() == old(self).backend().window_state(),
            final(self).config() == old(self).config(),
            final(self).factory() == old(self).factory(),
            final(self).is_released() == old(self).is_released(),
    {
        self.window_backend.attach(display, window);
    }

    /// The native display handle of the window, if the backend has one.
    pub fn get_platform_display(&self) -> (handle: Result<usize, NotSupported>)
        ensures
            handle == match self.backend().display_handle() {
                Some(h) => Ok::<usize, NotSupported>(h),
                None => Err::<usize, NotSupported>(NotSupported),
            },
    {
        self.window_backend.get_platform_display()
    }

    /// The native window handle of the window, if the backend has one.
    pub fn get_platform_window(&self) -> (handle: Result<usize, NotSupported>)
        ensures
            handle == match self.backend().window_handle() {
                Some(h) => Ok::<usize, NotSupported>(h),
                None => Err::<usize, NotSupported>(NotSupported),
            },
    {
        self.window_backend.get_platform_window()
    }
}

impl Default for WindowManager {
    fn default() -> (manager: WindowManager)
        ensures
            manager.config() == crate::window::window_config::default_window_config(),
            manager.factory() == WindowFactory::Default(WindowFactoryDefault {  }),
            manager.backend() == WindowBackend::Fallback(WindowBackendDefault::new_spec()),
            !manager.is_released(),
    {
        WindowManager::new()
    }
}

} // verus!
