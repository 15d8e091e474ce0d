use vstd::prelude::*;

use crate::config::{role_token, Config, ConfigBuilder};
use crate::error::Error;
use crate::launch::LaunchParams;
use crate::plan::{Append, App, PlanState};
use crate::resource::Resource;

verus! {

/// Direction of one transform invocation.
#[derive(Debug, Clone, Copy, PartialEq, Eq, Structural)]
pub enum FftType {
    Forward,
    Inverse,
}

/// A driver API version.
#[derive(Debug, Clone, Copy, PartialEq, Eq, Structural)]
pub struct ApiVersion {
    pub major: u32,
    pub minor: u32,
    pub patch: u32,
}

impl ApiVersion {
    /// At least version `major.minor.0`.
    pub open spec fn spec_at_least(&self, major: u32, minor: u32) -> bool {
        self.major > major || (self.major == major && self.minor >= minor)
    }

    #[verifier::when_used_as_spec(spec_at_least)]
    pub fn at_least(&self, major: u32, minor: u32) -> (r: bool)
        ensures
            r == self.spec_at_least(major, minor),
    {
        self.major > major || (self.major == major && self.minor >= minor)
    }
}

/// The queue-submission entry point a device supports.
#[derive(Debug, Clone, Copy, PartialEq, Eq, Structural)]
pub enum SubmitPath {
    /// The core two-step-synchronization submit of API version 1.3 and later.
    Synchronization2,
    /// The same submit provided by the synchronization extension.
    Synchronization2Khr,
    /// The original submit, for devices without the synchronization feature.
    Legacy,
}

/// The submission of one command stream, in the shape its submission entry
/// point takes, with the fence that the submission signals on completion.
#[derive(Debug, Clone, Copy, PartialEq, Eq, Structural)]
pub enum SubmitDescriptor {
    /// A two-step-synchronization submit naming command-buffer submit infos.
    Submit2 { command_buffer_info_count: u32, command_buffer: u64, device_mask: u32, fence: u64 },
    /// A legacy submit naming command buffers.
    Submit { command_buffer_count: u32, command_buffer: u64, fence: u64 },
}

impl SubmitPath {
    /// The path for a device: with the synchronization feature enabled, the
    /// core call from version 1.3 on and the extension call before it;
    /// without it, the legacy call.
    pub open spec fn spec_select(synchronization2: bool, api_version: ApiVersion) -> SubmitPath {
        if synchronization2 {
            if api_version.spec_at_least(1, 3) {
                SubmitPath::Synchronization2
            } else {
                SubmitPath::Synchronization2Khr
            }
        } else {
            SubmitPath::Legacy
        }
    }

    /// The descriptor this path submits a single command stream with,
    /// signalling `fence` when the stream completes.
    pub open spec fn spec_descriptor(self, command_buffer: u64, fence: u64) -> SubmitDescriptor {
        match self {
            SubmitPath::Legacy => SubmitDescriptor::Submit {
                command_buffer_count: 1,
                command_buffer,
                fence,
            },
            _ => SubmitDescriptor::Submit2 {
                command_buffer_info_count: 1,
                command_buffer,
                device_mask: 0,
                fence,
            },
        }
    }

    pub fn select(synchronization2: bool, api_version: ApiVersion) -> (r: SubmitPath)
        ensures
            r == Self::spec_select(synchronization2, api_version),
    {
        if synchronization2 {
            if api_version.at_least(1, 3) {
                SubmitPath::Synchronization2
            } else {
                SubmitPath::Synchronization2Khr
            }
        } else {
            SubmitPath::Legacy
        }
    }

    pub fn descriptor(&self, command_buffer: u64, fence: u64) -> (r: SubmitDescriptor)
        ensures
            r == self.spec_descriptor(command_buffer, fence),
    {
        match self {
            SubmitPath::Legacy => SubmitDescriptor::Submit {
                command_buffer_count: 1,
                command_buffer,
                fence,
            },
            _ => SubmitDescriptor::Submit2 {
                command_buffer_info_count: 1,
                command_buffer,
                device_mask: 0,
                fence,
            },
        }
    }
}

/// What a queue family of a physical device can run.
#[derive(Debug, Clone, Copy, PartialEq, Eq, Structural)]
pub struct QueueFamily {
    pub compute: bool,
    pub graphics: bool,
}

/// A family a context can use runs both compute and graphics work.
pub open spec fn usable_family(f: QueueFamily) -> bool {
    f.compute && f.graphics
}

/// The index of the first queue family that runs both compute and graphics
/// work, or `None` where no family does.
pub fn find_queue_family(families: &[QueueFamily]) -> (r: Option<usize>)
    ensures
        r matches Some(i) ==> i < families@.len() && usable_family(families@[i as int]) && forall|
            j: int,
        | 0 <= j < i ==> !usable_family(#[trigger] families@[j]),
        r is None ==> forall|j: int|
            0 <= j < families@.len() ==> !usable_family(#[trigger] families@[j]),
{
    let mut i: usize = 0;
    while i < families.len()
        invariant
            i <= families@.len(),
            forall|j: int| 0 <= j < i ==> !usable_family(#[trigger] families@[j]),
        decreases families@.len() - i,
    {
        if families[i].compute && families[i].graphics {
            return Some(i);
        }
        i = i + 1;
    }
    None
}

/// The lifecycle of the context's fence.
#[derive(Debug, Clone, Copy, PartialEq, Eq, Structural)]
pub enum FenceState {
    /// Unsignaled and free for the next submission.
    Idle,
    /// A submission that signals it is in flight.
    Pending,
    /// The submission completed; the fence must be reset before reuse.
    Signaled,
}

/// An execution context: the driver objects every transform of it uses, the
/// submission path its device supports, and its single reusable fence.
/// The fields are reached through getters only, so the submission path stays
/// the one selected at construction and the fence state changes only through
/// `submit`, `fence_signaled` and `fence_reset`.
pub struct Context<K> {
    physical: u64,
    device: Resource<K>,
    queue: Resource<K>,
    pool: Resource<K>,
    fence: u64,
    submit_path: SubmitPath,
    fence_state: FenceState,
}

impl<K> Context<K> {
    pub closed spec fn spec_physical(&self) -> u64 {
        self.physical
    }

    pub closed spec fn spec_device(&self) -> &Resource<K> {
        &self.device
    }

    pub closed spec fn spec_queue(&self) -> &Resource<K> {
        &self.queue
    }

    pub closed spec fn spec_pool(&self) -> &Resource<K> {
        &self.pool
    }

    pub closed spec fn spec_fence(&self) -> u64 {
        self.fence
    }

    pub closed spec fn spec_submit_path(&self) -> SubmitPath {
        self.submit_path
    }

    pub closed spec fn spec_fence_state(&self) -> FenceState {
        self.fence_state
    }

    /// The raw handle of the physical device.
    #[verifier::when_used_as_spec(spec_physical)]
    pub fn physical(&self) -> (r: u64)
        ensures
            r == self.spec_physical(),
    {
        self.physical
    }

    #[verifier::when_used_as_spec(spec_device)]
    pub fn device(&self) -> (r: &Resource<K>)
        ensures
            r == self.spec_device(),
    {
        &self.device
    }

    #[verifier::when_used_as_spec(spec_queue)]
    pub fn queue(&self) -> (r: &Resource<K>)
        ensures
            r == self.spec_queue(),
    {
        &self.queue
    }

    #[verifier::when_used_as_spec(spec_pool)]
    pub fn pool(&self) -> (r: &Resource<K>)
        ensures
            r == self.spec_pool(),
    {
        &self.pool
    }

    /// The raw handle of the context's fence.
    #[verifier::when_used_as_spec(spec_fence)]
    pub fn fence(&self) -> (r: u64)
        ensures
            r == self.spec_fence(),
    {
        self.fence
    }

    #[verifier::when_used_as_spec(spec_submit_path)]
    pub fn submit_path(&self) -> (r: SubmitPath)
        ensures
            r == self.spec_submit_path(),
    {
        self.submit_path
    }

    #[verifier::when_used_as_spec(spec_fence_state)]
    pub fn fence_state(&self) -> (r: FenceState)
        ensures
            r == self.spec_fence_state(),
    {
        self.fence_state
    }

    /// `self` and `other` hold the same objects and submission path; only
    /// their fence states may differ.
    pub open spec fn same_objects(&self, other: &Self) -> bool {
        &&& self.physical() == other.physical()
        &&& self.device() == other.device()
        &&& self.queue() == other.queue()
        &&& self.pool() == other.pool()
        &&& self.fence() == other.fence()
        &&& self.submit_path() == other.submit_path()
    }

    /// A context over the given objects; its submission path is selected here,
    /// once, from the device's capabilities, and its fence starts idle.
    pub fn new(
        physical: u64,
        device: Resource<K>,
        queue: Resource<K>,
        pool: Resource<K>,
        fence: u64,
        synchronization2: bool,
        api_version: ApiVersion,
    ) -> (r: Context<K>)
        ensures
            r.physical() == physical,
            *r.device() == device,
            *r.queue() == queue,
            *r.pool() == pool,
            r.fence() == fence,
            r.submit_path() == SubmitPath::spec_select(synchronization2, api_version),
            r.fence_state() == FenceState::Idle,
    {
        Context {
            physical,
            device,
            queue,
            pool,
            fence,
            submit_path: SubmitPath::select(synchronization2, api_version),
            fence_state: FenceState::Idle,
        }
    }

    /// The complete description that `b` becomes once this context supplies
    /// its physical device, device, queue, fence and command pool.
    pub open spec fn configured(&self, b: ConfigBuilder<K>) -> Config<K> {
        Config {
            fft_dim: b.fft_dim,
            size: b.size,
            physical_device: self.physical(),
            device: *self.device(),
            queue: *self.queue(),
            fence: self.fence(),
            command_pool: *self.pool(),
            buffer: b.buffer,
            input_buffer: b.input_buffer,
            output_buffer: b.output_buffer,
            temp_buffer: b.temp_buffer,
            kernel: b.kernel,
            normalize: b.normalize,
            zero_padding: b.zero_padding,
            zeropad_left: b.zeropad_left,
            zeropad_right: b.zeropad_right,
            kernel_convolution: b.kernel_convolution,
            convolution: b.convolution,
            r2c: b.r2c,
            dct: b.dct,
            dst: b.dst,
            coordinate_features: b.coordinate_features,
            disable_reorder_four_step: b.disable_reorder_four_step,
            batch_count: b.batch_count,
            precision: b.precision,
            use_lut: b.use_lut,
            symmetric_kernel: b.symmetric_kernel,
            input_formatted: b.input_formatted,
            inverse_return_to_input: b.inverse_return_to_input,
            output_formatted: b.output_formatted,
            matrix_convolution: b.matrix_convolution,
        }
    }
}

impl<K: Clone> Context<K> {
    /// Supplies this context's physical device, device, fence, queue and
    /// command pool to a description; its other options are kept.
    pub fn configure(&self, config_builder: ConfigBuilder<K>) -> (r: ConfigBuilder<K>)
        ensures
            r == (ConfigBuilder {
                physical_device: Some(self.physical()),
                device: r.device,
                queue: r.queue,
                fence: Some(self.fence()),
                command_pool: r.command_pool,
                ..config_builder
            }),
            r.device matches Some(d) && d.handle == self.device().handle && cloned::<K>(
                self.device().keep,
                d.keep,
            ),
            r.queue matches Some(q) && q.handle == self.queue().handle && cloned::<K>(
                self.queue().keep,
                q.keep,
            ),
            r.command_pool matches Some(p) && p.handle == self.pool().handle && cloned::<K>(
                self.pool().keep,
                p.keep,
            ),
    {
        config_builder.physical_device(self.physical).device(self.device.clone()).fence(
            self.fence,
        ).queue(self.queue.clone()).command_pool(self.pool.clone())
    }

    /// Begins a chain on the command stream `command_buffer`: the launch
    /// parameters that record into it, and a plan, not yet initialized by the
    /// engine, for the description completed with this context's objects.
    /// Fails exactly where that description's projection does.
    pub fn start_fft_chain(&self, config_builder: ConfigBuilder<K>, command_buffer: u64) -> (r:
        Result<(App<K>, LaunchParams<K>), Error>)
        ensures
            r is Err <==> config_builder.formatting_conflict(),
            r matches Err(e) ==> e == Error::Config(crate::config::ConfigError::InvalidConfig),
            r matches Ok((app, params)) ==> {
                &&& app.state() == PlanState::Constructed
                &&& self.configured(config_builder).projects_to(app.native())
                &&& cloned::<K>(self.device().keep, app.keep_alive().device)
                &&& cloned::<K>(self.queue().keep, app.keep_alive().queue)
                &&& cloned::<K>(self.pool().keep, app.keep_alive().command_pool)
                &&& app.keep_alive().buffer == role_token(config_builder.buffer)
                &&& app.keep_alive().input_buffer == role_token(config_builder.input_buffer)
                &&& app.keep_alive().output_buffer == role_token(config_builder.output_buffer)
                &&& app.keep_alive().temp_buffer == role_token(config_builder.temp_buffer)
                &&& app.keep_alive().kernel == role_token(config_builder.kernel)
                &&& params.command_buffer == command_buffer
                &&& params.buffer is None
                &&& params.temp_buffer is None
                &&& params.input_buffer is None
                &&& params.output_buffer is None
                &&& params.kernel is None
            },
    {
        let params = match LaunchParams::builder().command_buffer(command_buffer).build() {
            Ok(p) => p,
            Err(e) => return Err(Error::LaunchBuild(e)),
        };
        let config = match self.configure(config_builder).build() {
            Ok(c) => c,
            Err(e) => return Err(Error::Build(e)),
        };
        let app = App::new(config)?;
        Ok((app, params))
    }
}

impl<K> Context<K> {
    /// One more invocation of a live plan on its open command stream: what the
    /// engine's append entry point is to be called with, or the role conflict
    /// that refuses it.
    pub fn chain_fft_with_app(&self, app: &App<K>, params: &LaunchParams<K>, fft_type: FftType) -> (r:
        Result<Append, Error>)
        requires
            app.state() == PlanState::Initialized,
        ensures
            r == App::launch_result(app.native(), *params, fft_type == FftType::Inverse),
    {
        match fft_type {
            FftType::Forward => app.forward(params),
            FftType::Inverse => app.inverse(params),
        }
    }

    /// Submits a finalized command stream: the fence must be idle, and becomes
    /// pending until the submission completes. Gives the descriptor for the
    /// context's submission path, with the context's own fence as the
    /// completion signal.
    pub fn submit(&mut self, command_buffer: u64) -> (r: SubmitDescriptor)
        requires
            old(self).fence_state() == FenceState::Idle,
        ensures
            r == old(self).submit_path().spec_descriptor(command_buffer, old(self).fence()),
            final(self).fence_state() == FenceState::Pending,
            final(self).same_objects(old(self)),
    {
        self.fence_state = FenceState::Pending;
        self.submit_path.descriptor(command_buffer, self.fence)
    }

    /// Records that the wait on the fence returned: the submission completed.
    pub fn fence_signaled(&mut self)
        requires
            old(self).fence_state() == FenceState::Pending,
        ensures
            final(self).fence_state() == FenceState::Signaled,
            final(self).same_objects(old(self)),
    {
        self.fence_state = FenceState::Signaled;
    }

    /// Records that the fence was reset: it is idle for the next submission.
    pub fn fence_reset(&mut self)
        requires
            old(self).fence_state() == FenceState::Signaled,
        ensures
            final(self).fence_state() == FenceState::Idle,
            final(self).same_objects(old(self)),
    {
        self.fence_state = FenceState::Idle;
    }
}

} // verus!
