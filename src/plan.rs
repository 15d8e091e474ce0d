use vstd::prelude::*;

use crate::config::{Config, ConfigGuard, KeepAlive, NativeConfig};
use crate::error::{check_error, Error, ENGINE_SUCCESS};
use crate::launch::{LaunchError, LaunchParams, NativeLaunchParams};

verus! {

/// Where an execution plan stands in its lifecycle.
#[derive(Debug, Clone, Copy, PartialEq, Eq, Structural)]
pub enum PlanState {
    /// Built from its configuration; the engine has not initialized it.
    Constructed,
    /// The engine initialized it; it can be invoked.
    Initialized,
    /// The engine refused to initialize it; it must not be invoked.
    Failed,
    /// The engine's teardown has been requested; nothing more may be done.
    Destroyed,
}

/// What one invocation hands to the engine's append entry point.
#[derive(Debug, Clone, Copy, PartialEq, Eq, Structural)]
pub struct Append {
    /// -1 for a forward transform, 1 for an inverse one.
    pub direction: i32,
    pub params: NativeLaunchParams,
}

/// The direction flag the engine expects: -1 forward, 1 inverse.
pub open spec fn direction_of(inverse: bool) -> i32 {
    if inverse {
        1i32
    } else {
        -1i32
    }
}

/// An execution plan: the engine's per-job state, tracked through its
/// lifecycle, and the configuration projection it was built from. The plan
/// owns the projection, so the record and the objects it names live as long
/// as the plan does.
pub struct App<K> {
    config: ConfigGuard<K>,
    state: PlanState,
}

impl<K> App<K> {
    /// The keep-alive set holds a reference for exactly the buffer roles that
    /// the record points at, so no buffer the engine may touch can be released
    /// while the plan exists.
    #[verifier::type_invariant]
    spec fn keeps_named_buffers(self) -> bool {
        let n = self.config.config;
        let k = self.config.keep_alive;
        &&& (n.buffer is Some <==> k.buffer is Some)
        &&& (n.temp_buffer is Some <==> k.temp_buffer is Some)
        &&& (n.input_buffer is Some <==> k.input_buffer is Some)
        &&& (n.output_buffer is Some <==> k.output_buffer is Some)
        &&& (n.kernel is Some <==> k.kernel is Some)
    }

    pub closed spec fn state(&self) -> PlanState {
        self.state
    }

    /// The configuration record the plan was built from.
    pub closed spec fn native(&self) -> NativeConfig {
        self.config.config
    }

    /// The references that keep the plan's objects alive.
    pub closed spec fn keep_alive(&self) -> KeepAlive<K> {
        self.config.keep_alive
    }

    /// The role check and request of one invocation: the first role, in the
    /// order primary, temporary, input, output, that both the configuration
    /// and `params` bind is refused; otherwise the engine is handed the
    /// direction and the launch record. The kernel role may always be bound.
    pub open spec fn launch_result(
        native: NativeConfig,
        params: LaunchParams<K>,
        inverse: bool,
    ) -> Result<Append, Error> {
        if native.buffer is Some && params.buffer is Some {
            Err(Error::Launch(LaunchError::ConfigSpecifiesBuffer))
        } else if native.temp_buffer is Some && params.temp_buffer is Some {
            Err(Error::Launch(LaunchError::ConfigSpecifiesTempBuffer))
        } else if native.input_buffer is Some && params.input_buffer is Some {
            Err(Error::Launch(LaunchError::ConfigSpecifiesInputBuffer))
        } else if native.output_buffer is Some && params.output_buffer is Some {
            Err(Error::Launch(LaunchError::ConfigSpecifiesOutputBuffer))
        } else {
            Ok(Append { direction: direction_of(inverse), params: params.native() })
        }
    }

    /// Builds a plan from a complete description, in the `Constructed` state.
    /// Fails exactly where the description's projection does.
    pub fn new(config: Config<K>) -> (r: Result<App<K>, Error>)
        ensures
            r is Err <==> config.formatting_conflict(),
            r matches Err(e) ==> e == Error::Config(crate::config::ConfigError::InvalidConfig),
            r matches Ok(app) ==> {
                &&& app.state() == PlanState::Constructed
                &&& config.projects_to(app.native())
                &&& config.kept_by(app.keep_alive())
            },
    {
        match config.as_sys() {
            Ok(guard) => Ok(App { config: guard, state: PlanState::Constructed }),
            Err(e) => Err(Error::Config(e)),
        }
    }

    /// The record to hand to the engine's initialize entry point.
    pub fn native_config(&self) -> (r: &NativeConfig)
        ensures
            *r == self.native(),
    {
        &self.config.config
    }

    pub fn plan_state(&self) -> (r: PlanState)
        ensures
            r == self.state(),
    {
        self.state
    }

    /// Records the status code the engine's initialize entry point returned:
    /// success makes the plan usable, anything else makes it unusable.
    pub fn complete_init(&mut self, code: u32) -> (r: Result<(), Error>)
        requires
            old(self).state() == PlanState::Constructed,
        ensures
            final(self).native() == old(self).native(),
            final(self).keep_alive() == old(self).keep_alive(),
            code == ENGINE_SUCCESS ==> r is Ok,
            code == ENGINE_SUCCESS ==> final(self).state() == PlanState::Initialized,
            code != ENGINE_SUCCESS ==> r == Err::<(), Error>(Error::Engine(code)),
            code != ENGINE_SUCCESS ==> final(self).state() == PlanState::Failed,
    {
        proof {
            use_type_invariant(&*self);
        }
        let r = check_error(code);
        if r.is_ok() {
            self.state = PlanState::Initialized;
        } else {
            self.state = PlanState::Failed;
        }
        r
    }

    /// Prepares one invocation: checks `params` against the roles the
    /// configuration binds and, where none conflicts, gives what the engine's
    /// append entry point is to be called with. A refused invocation calls
    /// nothing.
    pub fn launch(&self, params: &LaunchParams<K>, inverse: bool) -> (r: Result<Append, Error>)
        requires
            self.state() == PlanState::Initialized,
        ensures
            r == Self::launch_result(self.native(), *params, inverse),
    {
        let native = params.as_sys();
        let config = &self.config.config;
        if config.buffer.is_some() && native.buffer.is_some() {
            return Err(Error::Launch(LaunchError::ConfigSpecifiesBuffer));
        }
        if config.temp_buffer.is_some() && native.temp_buffer.is_some() {
            return Err(Error::Launch(LaunchError::ConfigSpecifiesTempBuffer));
        }
        if config.input_buffer.is_some() && native.input_buffer.is_some() {
            return Err(Error::Launch(LaunchError::ConfigSpecifiesInputBuffer));
        }
        if config.output_buffer.is_some() && native.output_buffer.is_some() {
            return Err(Error::Launch(LaunchError::ConfigSpecifiesOutputBuffer));
        }
        let direction: i32 = if inverse {
            1
        } else {
            -1
        };
        Ok(Append { direction, params: native })
    }

    pub fn forward(&self, params: &LaunchParams<K>) -> (r: Result<Append, Error>)
        requires
            self.state() == PlanState::Initialized,
        ensures
            r == Self::launch_result(self.native(), *params, false),
    {
        self.launch(params, false)
    }

    pub fn inverse(&self, params: &LaunchParams<K>) -> (r: Result<Append, Error>)
        requires
            self.state() == PlanState::Initialized,
        ensures
            r == Self::launch_result(self.native(), *params, true),
    {
        self.launch(params, true)
    }

    /// Ends the plan. Returns whether the engine's teardown entry point must
    /// now be called: true on the first release, whatever state the plan was
    /// in, and false on any later one, so teardown happens exactly once.
    pub fn release(&mut self) -> (must_tear_down: bool)
        ensures
            must_tear_down == (old(self).state() != PlanState::Destroyed),
            final(self).state() == PlanState::Destroyed,
            final(self).native() == old(self).native(),
            final(self).keep_alive() == old(self).keep_alive(),
    {
        proof {
            use_type_invariant(&*self);
        }
        let must_tear_down = match self.state {
            PlanState::Destroyed => false,
            _ => true,
        };
        self.state = PlanState::Destroyed;
        must_tear_down
    }
}


/// The first buffer role, in the order primary, temporary, input, output, that
/// both a description and an invocation's parameters bind. The kernel role is
/// not among them.
pub open spec fn role_conflict<K>(c: Config<K>, p: LaunchParams<K>) -> Option<LaunchError> {
    if c.buffer is Some && p.buffer is Some {
        Some(LaunchError::ConfigSpecifiesBuffer)
    } else if c.temp_buffer is Some && p.temp_buffer is Some {
        Some(LaunchError::ConfigSpecifiesTempBuffer)
    } else if c.input_buffer is Some && p.input_buffer is Some {
        Some(LaunchError::ConfigSpecifiesInputBuffer)
    } else if c.output_buffer is Some && p.output_buffer is Some {
        Some(LaunchError::ConfigSpecifiesOutputBuffer)
    } else {
        None
    }
}

/// An invocation of a plan built from `c` is refused exactly when it binds a
/// buffer role that `c` already binds, with the error naming the first such
/// role; otherwise the engine is handed the invocation's direction and launch
/// record.
pub proof fn lemma_role_conflict_refused<K>(
    c: Config<K>,
    native: NativeConfig,
    p: LaunchParams<K>,
    inverse: bool,
)
    requires
        c.projects_to(native),
    ensures
        match role_conflict(c, p) {
            Some(e) => App::launch_result(native, p, inverse) == Err::<Append, Error>(
                Error::Launch(e),
            ),
            None => App::launch_result(native, p, inverse) == Ok::<Append, Error>(
                Append { direction: direction_of(inverse), params: p.native() },
            ),
        },
{
}

} // verus!
