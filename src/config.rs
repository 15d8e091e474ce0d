use vstd::prelude::*;

use crate::resource::{Buffer, Resource};

verus! {

/// The mandatory field that a transform description lacked when it was built.
#[derive(Debug, Clone, Copy, PartialEq, Eq, Structural)]
pub enum BuildError {
    NoPhysicalDevice,
    NoDevice,
    NoQueue,
    NoFence,
    NoCommandPool,
    NoBuffer,
}

/// Numeric precision of a transform.
#[derive(Debug, Clone, Copy, PartialEq, Eq, Structural)]
pub enum Precision {
    /// Perform calculations in single precision (32-bit)
    Single,
    /// Perform calculations in double precision (64-bit)
    Double,
    /// Perform calculations in half precision (16-bit)
    Half,
    /// Use half precision only as input/output buffer. Input/Output have to be allocated as half,
    /// buffer/tempBuffer have to be allocated as float (out of place mode only).
    HalfMemory,
}

/// A combination of options that the engine's configuration cannot express.
#[derive(Debug, Clone, Copy, PartialEq, Eq, Structural)]
pub enum ConfigError {
    InvalidConfig,
}

/// A transform description under construction: every option is a named field,
/// set directly or through the chainable setters, and `build` checks that the
/// mandatory driver handles are present.
pub struct ConfigBuilder<K> {
    pub fft_dim: u32,
    pub size: [u32; 4],
    pub physical_device: Option<u64>,
    pub device: Option<Resource<K>>,
    pub queue: Option<Resource<K>>,
    pub fence: Option<u64>,
    pub command_pool: Option<Resource<K>>,
    pub buffer: Option<Buffer<K>>,
    pub input_buffer: Option<Buffer<K>>,
    pub output_buffer: Option<Buffer<K>>,
    pub temp_buffer: Option<Buffer<K>>,
    pub kernel: Option<Buffer<K>>,
    pub normalize: bool,
    pub zero_padding: [bool; 3],
    pub zeropad_left: [u32; 4],
    pub zeropad_right: [u32; 4],
    pub kernel_convolution: bool,
    pub convolution: bool,
    pub r2c: bool,
    pub dct: Option<u64>,
    pub dst: Option<u64>,
    pub coordinate_features: u32,
    pub disable_reorder_four_step: bool,
    pub batch_count: Option<u32>,
    pub precision: Precision,
    pub use_lut: bool,
    pub symmetric_kernel: bool,
    pub input_formatted: Option<bool>,
    pub inverse_return_to_input: Option<bool>,
    pub output_formatted: Option<bool>,
    pub matrix_convolution: Option<u64>,
}

impl<K> ConfigBuilder<K> {
    /// The mandatory field that `build` reports missing, checked in the order
    /// physical device, device, queue, fence, command pool.
    pub open spec fn missing_field(self) -> Option<BuildError> {
        if self.physical_device is None {
            Some(BuildError::NoPhysicalDevice)
        } else if self.device is None {
            Some(BuildError::NoDevice)
        } else if self.queue is None {
            Some(BuildError::NoQueue)
        } else if self.fence is None {
            Some(BuildError::NoFence)
        } else if self.command_pool is None {
            Some(BuildError::NoCommandPool)
        } else {
            None
        }
    }

    /// Every option at its default: one axis of extent 1, no handles or
    /// buffers, all flags off, single precision, one coordinate feature.
    pub open spec fn has_defaults(self) -> bool {
        &&& self.fft_dim == 1
        &&& self.size@ == seq![1u32, 1, 1, 0]
        &&& self.physical_device is None
        &&& self.device is None
        &&& self.queue is None
        &&& self.fence is None
        &&& self.command_pool is None
        &&& self.buffer is None
        &&& self.input_buffer is None
        &&& self.output_buffer is None
        &&& self.temp_buffer is None
        &&& self.kernel is None
        &&& !self.normalize
        &&& self.zero_padding@ == seq![false, false, false]
        &&& self.zeropad_left@ == seq![0u32, 0, 0, 0]
        &&& self.zeropad_right@ == seq![0u32, 0, 0, 0]
        &&& !self.kernel_convolution
        &&& !self.convolution
        &&& !self.r2c
        &&& self.dct is None
        &&& self.dst is None
        &&& self.coordinate_features == 1
        &&& !self.disable_reorder_four_step
        &&& self.batch_count is None
        &&& self.precision == Precision::Single
        &&& !self.use_lut
        &&& !self.symmetric_kernel
        &&& self.input_formatted is None
        &&& self.inverse_return_to_input is None
        &&& self.output_formatted is None
        &&& self.matrix_convolution is None
    }

    pub fn new() -> (r: Self)
        ensures
            r.has_defaults(),
    {
        let r = ConfigBuilder {
            fft_dim: 1,
            size: [1, 1, 1, 0],
            physical_device: None,
            device: None,
            queue: None,
            fence: None,
            command_pool: None,
            buffer: None,
            input_buffer: None,
            output_buffer: None,
            temp_buffer: None,
            kernel: None,
            normalize: false,
            zero_padding: [false, false, false],
            zeropad_left: [0, 0, 0, 0],
            zeropad_right: [0, 0, 0, 0],
            kernel_convolution: false,
            convolution: false,
            r2c: false,
            dct: None,
            dst: None,
            coordinate_features: 1,
            disable_reorder_four_step: false,
            batch_count: None,
            precision: Precision::Single,
            use_lut: false,
            symmetric_kernel: false,
            input_formatted: None,
            inverse_return_to_input: None,
            output_formatted: None,
            matrix_convolution: None,
        };
        assert(r.size@ =~= seq![1u32, 1, 1, 0]);
        assert(r.zero_padding@ =~= seq![false, false, false]);
        assert(r.zeropad_left@ =~= seq![0u32, 0, 0, 0]);
        assert(r.zeropad_right@ =~= seq![0u32, 0, 0, 0]);
        r
    }

    /// Sets the number of axes to the length of `dim` and their extents to its
    /// entries; the extents of the remaining axes are kept.
    pub fn dim<const N: usize>(self, dim: &[u32; N]) -> (r: Self)
        requires
            N <= 3,
        ensures
            r.fft_dim == N,
            forall|i: int| 0 <= i < 4 ==> #[trigger] r.size[i] == if i < N { dim[i] } else { self.size[i] },
            r == (ConfigBuilder { fft_dim: r.fft_dim, size: r.size, ..self }),
    {
        let mut r = self;
        r.fft_dim = N as u32;
        if N > 0 {
            r.size[0] = dim[0];
        }
        if N > 1 {
            r.size[1] = dim[1];
        }
        if N > 2 {
            r.size[2] = dim[2];
        }
        r
    }

    pub fn physical_device(self, physical_device: u64) -> (r: Self)
        ensures
            r == (ConfigBuilder { physical_device: Some(physical_device), ..self }),
    {
        ConfigBuilder { physical_device: Some(physical_device), ..self }
    }

    pub fn device(self, device: Resource<K>) -> (r: Self)
        ensures
            r == (ConfigBuilder { device: Some(device), ..self }),
    {
        ConfigBuilder { device: Some(device), ..self }
    }

    pub fn queue(self, queue: Resource<K>) -> (r: Self)
        ensures
            r == (ConfigBuilder { queue: Some(queue), ..self }),
    {
        ConfigBuilder { queue: Some(queue), ..self }
    }

    pub fn command_pool(self, command_pool: Resource<K>) -> (r: Self)
        ensures
            r == (ConfigBuilder { command_pool: Some(command_pool), ..self }),
    {
        ConfigBuilder { command_pool: Some(command_pool), ..self }
    }

    pub fn fence(self, fence: u64) -> (r: Self)
        ensures
            r == (ConfigBuilder { fence: Some(fence), ..self }),
    {
        ConfigBuilder { fence: Some(fence), ..self }
    }

    pub fn buffer(self, buffer: Buffer<K>) -> (r: Self)
        ensures
            r == (ConfigBuilder { buffer: Some(buffer), ..self }),
    {
        ConfigBuilder { buffer: Some(buffer), ..self }
    }

    pub fn temp_buffer(self, temp_buffer: Buffer<K>) -> (r: Self)
        ensures
            r == (ConfigBuilder { temp_buffer: Some(temp_buffer), ..self }),
    {
        ConfigBuilder { temp_buffer: Some(temp_buffer), ..self }
    }

    pub fn input_buffer(self, input_buffer: Buffer<K>) -> (r: Self)
        ensures
            r == (ConfigBuilder { input_buffer: Some(input_buffer), ..self }),
    {
        ConfigBuilder { input_buffer: Some(input_buffer), ..self }
    }

    pub fn output_buffer(self, output_buffer: Buffer<K>) -> (r: Self)
        ensures
            r == (ConfigBuilder { output_buffer: Some(output_buffer), ..self }),
    {
        ConfigBuilder { output_buffer: Some(output_buffer), ..self }
    }

    pub fn kernel(self, kernel: Buffer<K>) -> (r: Self)
        ensures
            r == (ConfigBuilder { kernel: Some(kernel), ..self }),
    {
        ConfigBuilder { kernel: Some(kernel), ..self }
    }

    pub fn normalize(self) -> (r: Self)
        ensures
            r == (ConfigBuilder { normalize: true, ..self }),
    {
        ConfigBuilder { normalize: true, ..self }
    }

    pub fn kernel_convolution(self) -> (r: Self)
        ensures
            r == (ConfigBuilder { kernel_convolution: true, ..self }),
    {
        ConfigBuilder { kernel_convolution: true, ..self }
    }

    pub fn symmetric_kernel(self) -> (r: Self)
        ensures
            r == (ConfigBuilder { symmetric_kernel: true, ..self }),
    {
        ConfigBuilder { symmetric_kernel: true, ..self }
    }

    pub fn convolution(self) -> (r: Self)
        ensures
            r == (ConfigBuilder { convolution: true, ..self }),
    {
        ConfigBuilder { convolution: true, ..self }
    }

    pub fn r2c(self) -> (r: Self)
        ensures
            r == (ConfigBuilder { r2c: true, ..self }),
    {
        ConfigBuilder { r2c: true, ..self }
    }

    pub fn dct(self, dct: u64) -> (r: Self)
        ensures
            r == (ConfigBuilder { dct: Some(dct), ..self }),
    {
        ConfigBuilder { dct: Some(dct), ..self }
    }

    pub fn dst(self, dst: u64) -> (r: Self)
        ensures
            r == (ConfigBuilder { dst: Some(dst), ..self }),
    {
        ConfigBuilder { dst: Some(dst), ..self }
    }

    pub fn use_lut(self) -> (r: Self)
        ensures
            r == (ConfigBuilder { use_lut: true, ..self }),
    {
        ConfigBuilder { use_lut: true, ..self }
    }

    pub fn coordinate_features(self, coordinate_features: u32) -> (r: Self)
        ensures
            r == (ConfigBuilder { coordinate_features, ..self }),
    {
        ConfigBuilder { coordinate_features, ..self }
    }

    pub fn matrix_convolution(self, matrix_convolution: u64) -> (r: Self)
        ensures
            r == (ConfigBuilder { matrix_convolution: Some(matrix_convolution), ..self }),
    {
        ConfigBuilder { matrix_convolution: Some(matrix_convolution), ..self }
    }

    pub fn disable_reorder_four_step(self) -> (r: Self)
        ensures
            r == (ConfigBuilder { disable_reorder_four_step: true, ..self }),
    {
        ConfigBuilder { disable_reorder_four_step: true, ..self }
    }

    /// Sets the zero-padding flag of the first axes to the entries of
    /// `zero_padding`; the flags of the remaining axes are kept.
    pub fn zero_padding<const N: usize>(self, zero_padding: &[bool; N]) -> (r: Self)
        requires
            N <= 3,
        ensures
            forall|i: int|
                0 <= i < 3 ==> #[trigger] r.zero_padding[i] == if i < N {
                    zero_padding[i]
                } else {
                    self.zero_padding[i]
                },
            r == (ConfigBuilder { zero_padding: r.zero_padding, ..self }),
    {
        let mut r = self;
        if N > 0 {
            r.zero_padding[0] = zero_padding[0];
        }
        if N > 1 {
            r.zero_padding[1] = zero_padding[1];
        }
        if N > 2 {
            r.zero_padding[2] = zero_padding[2];
        }
        r
    }

    /// Sets the start of the zero block of the first axes to the entries of
    /// `zeropad_left`; the other entries are kept.
    pub fn zeropad_left<const N: usize>(self, zeropad_left: &[u32; N]) -> (r: Self)
        requires
            N <= 3,
        ensures
            forall|i: int|
                0 <= i < 4 ==> #[trigger] r.zeropad_left[i] == if i < N {
                    zeropad_left[i]
                } else {
                    self.zeropad_left[i]
                },
            r == (ConfigBuilder { zeropad_left: r.zeropad_left, ..self }),
    {
        let mut r = self;
        if N > 0 {
            r.zeropad_left[0] = zeropad_left[0];
        }
        if N > 1 {
            r.zeropad_left[1] = zeropad_left[1];
        }
        if N > 2 {
            r.zeropad_left[2] = zeropad_left[2];
        }
        r
    }

    /// Sets the end of the zero block of the first axes to the entries of
    /// `zeropad_right`; the other entries are kept.
    pub fn zeropad_right<const N: usize>(self, zeropad_right: &[u32; N]) -> (r: Self)
        requires
            N <= 3,
        ensures
            forall|i: int|
                0 <= i < 4 ==> #[trigger] r.zeropad_right[i] == if i < N {
                    zeropad_right[i]
                } else {
                    self.zeropad_right[i]
                },
            r == (ConfigBuilder { zeropad_right: r.zeropad_right, ..self }),
    {
        let mut r = self;
        if N > 0 {
            r.zeropad_right[0] = zeropad_right[0];
        }
        if N > 1 {
            r.zeropad_right[1] = zeropad_right[1];
        }
        if N > 2 {
            r.zeropad_right[2] = zeropad_right[2];
        }
        r
    }

    pub fn batch_count(self, batch_count: u32) -> (r: Self)
        ensures
            r == (ConfigBuilder { batch_count: Some(batch_count), ..self }),
    {
        ConfigBuilder { batch_count: Some(batch_count), ..self }
    }

    pub fn precision(self, precision: Precision) -> (r: Self)
        ensures
            r == (ConfigBuilder { precision, ..self }),
    {
        ConfigBuilder { precision, ..self }
    }

    pub fn input_formatted(self, input_formatted: bool) -> (r: Self)
        ensures
            r == (ConfigBuilder { input_formatted: Some(input_formatted), ..self }),
    {
        ConfigBuilder { input_formatted: Some(input_formatted), ..self }
    }

    pub fn inverse_return_to_input(self) -> (r: Self)
        ensures
            r == (ConfigBuilder { inverse_return_to_input: Some(true), ..self }),
    {
        ConfigBuilder { inverse_return_to_input: Some(true), ..self }
    }

    pub fn output_formatted(self, output_formatted: bool) -> (r: Self)
        ensures
            r == (ConfigBuilder { output_formatted: Some(output_formatted), ..self }),
    {
        ConfigBuilder { output_formatted: Some(output_formatted), ..self }
    }
}


impl<K> Default for ConfigBuilder<K> {
    fn default() -> (r: Self)
        ensures
            r.has_defaults(),
    {
        Self::new()
    }
}

/// A complete transform description: the mandatory driver handles are present.
pub struct Config<K> {
    pub fft_dim: u32,
    pub size: [u32; 4],
    pub physical_device: u64,
    pub device: Resource<K>,
    pub queue: Resource<K>,
    pub fence: u64,
    pub command_pool: Resource<K>,
    pub buffer: Option<Buffer<K>>,
    pub input_buffer: Option<Buffer<K>>,
    pub output_buffer: Option<Buffer<K>>,
    pub temp_buffer: Option<Buffer<K>>,
    pub kernel: Option<Buffer<K>>,
    /// Normalize inverse transform
    pub normalize: bool,
    /// Don't read some data/perform computations if some input sequences are zeropadded for each axis
    pub zero_padding: [bool; 3],
    /// Specify start boundary of zero block in the system for each axis
    pub zeropad_left: [u32; 4],
    /// Specify end boundary of zero block in the system for each axis
    pub zeropad_right: [u32; 4],
    /// Specify if this application is used to create kernel for convolution, so it has the same properties
    pub kernel_convolution: bool,
    /// Perform convolution in this application. Disables reorderFourStep parameter
    pub convolution: bool,
    /// Perform R2C/C2R decomposition
    pub r2c: bool,
    /// Perform discrete cos transform (R2R) of type 1-4
    pub dct: Option<u64>,
    /// Perform discrete sin transform (R2R) of type 1-4
    pub dst: Option<u64>,
    /// C - coordinate, or dimension of features vector. In matrix convolution - size of vector
    pub coordinate_features: u32,
    /// Disables unshuffling of four step algorithm. Requires `temp_buffer` allocation.
    pub disable_reorder_four_step: bool,
    /// Used to perform multiple batches of initial data
    pub batch_count: Option<u32>,
    pub precision: Precision,
    /// Switches from calculating sincos to using precomputed LUT tables
    pub use_lut: bool,
    /// Specify if kernel in 2x2 or 3x3 matrix convolution is symmetric
    pub symmetric_kernel: bool,
    /// specify if input buffer is padded - false is padded, true is not padded.
    pub input_formatted: Option<bool>,
    /// put the inverse transformed data into the input buffer, if input_formatted
    /// is set to true
    pub inverse_return_to_input: Option<bool>,
    /// specify if output buffer is padded - false is padded, true is not padded.
    pub output_formatted: Option<bool>,
    /// If performing matrix convolution, leading dimension of the matrix, e.g. if
    /// convolving with a 3x3 matrix, matrix_convolution is 3, and coordinate_features
    /// should also be 3
    pub matrix_convolution: Option<u64>,
}

impl<K> ConfigBuilder<K> {
    /// `c` holds this description's options and its mandatory handles.
    pub open spec fn built_as(self, c: Config<K>) -> bool {
        &&& self.physical_device == Some(c.physical_device)
        &&& self.device == Some(c.device)
        &&& self.queue == Some(c.queue)
        &&& self.fence == Some(c.fence)
        &&& self.command_pool == Some(c.command_pool)
        &&& c.fft_dim == self.fft_dim
        &&& c.size == self.size
        &&& c.buffer == self.buffer
        &&& c.input_buffer == self.input_buffer
        &&& c.output_buffer == self.output_buffer
        &&& c.temp_buffer == self.temp_buffer
        &&& c.kernel == self.kernel
        &&& c.normalize == self.normalize
        &&& c.zero_padding == self.zero_padding
        &&& c.zeropad_left == self.zeropad_left
        &&& c.zeropad_right == self.zeropad_right
        &&& c.kernel_convolution == self.kernel_convolution
        &&& c.convolution == self.convolution
        &&& c.r2c == self.r2c
        &&& c.dct == self.dct
        &&& c.dst == self.dst
        &&& c.coordinate_features == self.coordinate_features
        &&& c.disable_reorder_four_step == self.disable_reorder_four_step
        &&& c.batch_count == self.batch_count
        &&& c.precision == self.precision
        &&& c.use_lut == self.use_lut
        &&& c.symmetric_kernel == self.symmetric_kernel
        &&& c.input_formatted == self.input_formatted
        &&& c.inverse_return_to_input == self.inverse_return_to_input
        &&& c.output_formatted == self.output_formatted
        &&& c.matrix_convolution == self.matrix_convolution
    }

    /// Half-memory precision together with an explicit request for
    /// unformatted input or output.
    pub open spec fn formatting_conflict(self) -> bool {
        self.precision == Precision::HalfMemory && (self.input_formatted == Some(false)
            || self.output_formatted == Some(false))
    }

    /// Fails with the first missing mandatory field; otherwise the description
    /// becomes a `Config` with every option carried over.
    pub fn build(self) -> (r: Result<Config<K>, BuildError>)
        ensures
            match self.missing_field() {
                Some(e) => r == Err::<Config<K>, BuildError>(e),
                None => r matches Ok(c) && self.built_as(c),
            },
    {
        let physical_device = match self.physical_device {
            Some(v) => v,
            None => return Err(BuildError::NoPhysicalDevice),
        };
        let device = match self.device {
            Some(v) => v,
            None => return Err(BuildError::NoDevice),
        };
        let queue = match self.queue {
            Some(v) => v,
            None => return Err(BuildError::NoQueue),
        };
        let fence = match self.fence {
            Some(v) => v,
            None => return Err(BuildError::NoFence),
        };
        let command_pool = match self.command_pool {
            Some(v) => v,
            None => return Err(BuildError::NoCommandPool),
        };
        Ok(Config {
            fft_dim: self.fft_dim,
            size: self.size,
            physical_device,
            device,
            queue,
            fence,
            command_pool,
            buffer: self.buffer,
            input_buffer: self.input_buffer,
            output_buffer: self.output_buffer,
            temp_buffer: self.temp_buffer,
            kernel: self.kernel,
            normalize: self.normalize,
            zero_padding: self.zero_padding,
            zeropad_left: self.zeropad_left,
            zeropad_right: self.zeropad_right,
            kernel_convolution: self.kernel_convolution,
            convolution: self.convolution,
            r2c: self.r2c,
            dct: self.dct,
            dst: self.dst,
            coordinate_features: self.coordinate_features,
            disable_reorder_four_step: self.disable_reorder_four_step,
            batch_count: self.batch_count,
            precision: self.precision,
            use_lut: self.use_lut,
            symmetric_kernel: self.symmetric_kernel,
            input_formatted: self.input_formatted,
            inverse_return_to_input: self.inverse_return_to_input,
            output_formatted: self.output_formatted,
            matrix_convolution: self.matrix_convolution,
        })
    }
}


/// 1 for a set flag, 0 for a clear one: how the engine reads a boolean.
pub open spec fn flag(b: bool) -> u64 {
    if b {
        1
    } else {
        0
    }
}

/// An optional flag: 0 where the description leaves it to the engine.
pub open spec fn optional_flag(b: Option<bool>) -> u64 {
    match b {
        Some(v) => flag(v),
        None => 0,
    }
}

/// The handle that a buffer role points at, or no pointer for an unset role.
pub open spec fn role_handle<K>(b: Option<Buffer<K>>) -> Option<u64> {
    match b {
        Some(v) => Some(v.handle),
        None => None,
    }
}

/// The size that a buffer role's size pointer points at: the bound buffer's
/// byte size, or no pointer where the role is unset, so that the engine
/// manages that size itself.
pub open spec fn role_size<K>(b: Option<Buffer<K>>) -> Option<u64> {
    match b {
        Some(v) => Some(v.size),
        None => None,
    }
}

/// The keep-alive token that a buffer role holds, if any.
pub open spec fn role_token<K>(b: Option<Buffer<K>>) -> Option<K> {
    match b {
        Some(v) => Some(v.keep),
        None => None,
    }
}

fn flag_of(b: bool) -> (r: u64)
    ensures
        r == flag(b),
{
    if b {
        1
    } else {
        0
    }
}

fn optional_flag_of(b: Option<bool>) -> (r: u64)
    ensures
        r == optional_flag(b),
{
    match b {
        Some(v) => flag_of(v),
        None => 0,
    }
}

pub(crate) fn role_handle_of<K>(b: &Option<Buffer<K>>) -> (r: Option<u64>)
    ensures
        r == role_handle(*b),
{
    match b {
        Some(v) => Some(v.handle),
        None => None,
    }
}

fn role_size_of<K>(b: &Option<Buffer<K>>) -> (r: Option<u64>)
    ensures
        r == role_size(*b),
{
    match b {
        Some(v) => Some(v.size),
        None => None,
    }
}

fn role_token_of<K>(b: Option<Buffer<K>>) -> (r: Option<K>)
    ensures
        r == role_token(b),
{
    match b {
        Some(v) => Some(v.keep),
        None => None,
    }
}

/// The configuration record as the engine reads it. Each handle field holds the
/// value that the engine's pointer to its fixed-address copy dereferences to;
/// an optional field is `None` where that pointer is null. Every field the
/// description does not set stays 0.
#[derive(Debug, Clone, Copy, PartialEq, Eq)]
pub struct NativeConfig {
    pub fft_dim: u64,
    pub size: [u64; 4],
    pub physical_device: u64,
    pub device: u64,
    pub queue: u64,
    pub command_pool: u64,
    pub fence: u64,
    pub normalize: u64,
    pub buffer: Option<u64>,
    pub buffer_size: Option<u64>,
    pub temp_buffer: Option<u64>,
    pub temp_buffer_size: Option<u64>,
    pub user_temp_buffer: u64,
    pub input_buffer: Option<u64>,
    pub input_buffer_size: Option<u64>,
    pub output_buffer: Option<u64>,
    pub output_buffer_size: Option<u64>,
    pub kernel: Option<u64>,
    pub kernel_size: Option<u64>,
    pub perform_zeropadding: [u64; 3],
    pub fft_zeropad_left: [u64; 4],
    pub fft_zeropad_right: [u64; 4],
    pub perform_convolution: u64,
    pub number_kernels: u64,
    pub kernel_convolution: u64,
    pub perform_r2c: u64,
    pub perform_dct: u64,
    pub perform_dst: u64,
    pub coordinate_features: u64,
    pub disable_reorder_four_step: u64,
    pub symmetric_kernel: u64,
    pub use_lut: u64,
    pub is_input_formatted: u64,
    pub inverse_return_to_input_buffer: u64,
    pub is_output_formatted: u64,
    pub double_precision: u64,
    pub half_precision: u64,
    pub half_precision_memory_only: u64,
    pub number_batches: u64,
    pub matrix_convolution: u64,
}

/// Strong references to every object the engine may use through a configured
/// plan: holding them keeps those objects from being released.
pub struct KeepAlive<K> {
    pub device: K,
    pub queue: K,
    pub command_pool: K,
    pub buffer: Option<K>,
    pub input_buffer: Option<K>,
    pub output_buffer: Option<K>,
    pub temp_buffer: Option<K>,
    pub kernel: Option<K>,
}

/// The configuration projection: the engine's record together with the
/// references that keep what it names alive.
pub struct ConfigGuard<K> {
    pub keep_alive: KeepAlive<K>,
    pub config: NativeConfig,
}

impl<K> Config<K> {
    /// Half-memory precision needs formatted input and output; an explicit
    /// request for either unformatted cannot be honoured.
    pub open spec fn formatting_conflict(self) -> bool {
        self.precision == Precision::HalfMemory && (self.input_formatted == Some(false)
            || self.output_formatted == Some(false))
    }

    /// `n` is the engine record for this description.
    pub open spec fn projects_to(self, n: NativeConfig) -> bool {
        let half_memory = self.precision == Precision::HalfMemory;
        &&& n.fft_dim == self.fft_dim
        &&& forall|i: int| 0 <= i < 4 ==> #[trigger] n.size[i] == self.size[i]
        &&& n.physical_device == self.physical_device
        &&& n.device == self.device.handle
        &&& n.queue == self.queue.handle
        &&& n.command_pool == self.command_pool.handle
        &&& n.fence == self.fence
        &&& n.normalize == flag(self.normalize)
        &&& n.buffer == role_handle(self.buffer)
        &&& n.buffer_size == role_size(self.buffer)
        &&& n.temp_buffer == role_handle(self.temp_buffer)
        &&& n.temp_buffer_size == role_size(self.temp_buffer)
        &&& n.user_temp_buffer == flag(self.temp_buffer is Some)
        &&& n.input_buffer == role_handle(self.input_buffer)
        &&& n.input_buffer_size == role_size(self.input_buffer)
        &&& n.output_buffer == role_handle(self.output_buffer)
        &&& n.output_buffer_size == role_size(self.output_buffer)
        &&& n.kernel == role_handle(self.kernel)
        &&& n.kernel_size == role_size(self.kernel)
        &&& forall|i: int| 0 <= i < 3 ==> #[trigger] n.perform_zeropadding[i] == flag(self.zero_padding[i])
        &&& forall|i: int| 0 <= i < 4 ==> #[trigger] n.fft_zeropad_left[i] == self.zeropad_left[i]
        &&& forall|i: int| 0 <= i < 4 ==> #[trigger] n.fft_zeropad_right[i] == self.zeropad_right[i]
        &&& n.perform_convolution == flag(self.convolution)
        &&& n.number_kernels == flag(self.convolution)
        &&& n.kernel_convolution == flag(self.kernel_convolution)
        &&& n.perform_r2c == flag(self.r2c)
        &&& n.perform_dct == (match self.dct { Some(t) => t, None => 0 })
        &&& n.perform_dst == (match self.dst { Some(t) => t, None => 0 })
        &&& n.coordinate_features == self.coordinate_features
        &&& n.disable_reorder_four_step == flag(self.disable_reorder_four_step)
        &&& n.symmetric_kernel == flag(self.symmetric_kernel)
        &&& n.use_lut == flag(self.use_lut)
        &&& n.is_input_formatted == if half_memory { 1 } else { optional_flag(self.input_formatted) }
        &&& n.inverse_return_to_input_buffer == optional_flag(self.inverse_return_to_input)
        &&& n.is_output_formatted == if half_memory { 1 } else { optional_flag(self.output_formatted) }
        &&& n.double_precision == flag(self.precision == Precision::Double)
        &&& n.half_precision == flag(self.precision == Precision::Half)
        &&& n.half_precision_memory_only == flag(half_memory)
        &&& n.number_batches == (match self.batch_count { Some(b) => b as u64, None => 0 })
        &&& n.matrix_convolution == (match self.matrix_convolution { Some(m) => m, None => 0 })
    }

    /// `k` holds the keep-alive token of the device, the queue, the command
    /// pool and of every buffer role of this description.
    pub open spec fn kept_by(self, k: KeepAlive<K>) -> bool {
        &&& k.device == self.device.keep
        &&& k.queue == self.queue.keep
        &&& k.command_pool == self.command_pool.keep
        &&& k.buffer == role_token(self.buffer)
        &&& k.input_buffer == role_token(self.input_buffer)
        &&& k.output_buffer == role_token(self.output_buffer)
        &&& k.temp_buffer == role_token(self.temp_buffer)
        &&& k.kernel == role_token(self.kernel)
    }

    pub fn builder() -> (r: ConfigBuilder<K>)
        ensures
            r.has_defaults(),
    {
        ConfigBuilder::new()
    }

    /// Size in bytes of the primary buffer, 0 where there is none.
    pub fn buffer_size(&self) -> (r: usize)
        ensures
            r == (match self.buffer {
                Some(b) => b.size as usize,
                None => 0,
            }),
    {
        match &self.buffer {
            Some(b) => b.size as usize,
            None => 0,
        }
    }

    pub fn buffer(&self) -> (r: Option<&Buffer<K>>)
        ensures
            r is None <==> self.buffer is None,
            r matches Some(b) ==> self.buffer == Some(*b),
    {
        match &self.buffer {
            Some(b) => Some(b),
            None => None,
        }
    }

    pub fn temp_buffer(&self) -> (r: Option<&Buffer<K>>)
        ensures
            r is None <==> self.temp_buffer is None,
            r matches Some(b) ==> self.temp_buffer == Some(*b),
    {
        match &self.temp_buffer {
            Some(b) => Some(b),
            None => None,
        }
    }

    pub fn input_buffer(&self) -> (r: Option<&Buffer<K>>)
        ensures
            r is None <==> self.input_buffer is None,
            r matches Some(b) ==> self.input_buffer == Some(*b),
    {
        match &self.input_buffer {
            Some(b) => Some(b),
            None => None,
        }
    }

    pub fn output_buffer(&self) -> (r: Option<&Buffer<K>>)
        ensures
            r is None <==> self.output_buffer is None,
            r matches Some(b) ==> self.output_buffer == Some(*b),
    {
        match &self.output_buffer {
            Some(b) => Some(b),
            None => None,
        }
    }

    pub fn kernel_convolution(&self) -> (r: bool)
        ensures
            r == self.kernel_convolution,
    {
        self.kernel_convolution
    }

    pub fn symmetric_kernel(&self) -> (r: bool)
        ensures
            r == self.symmetric_kernel,
    {
        self.symmetric_kernel
    }

    pub fn convolution(&self) -> (r: bool)
        ensures
            r == self.convolution,
    {
        self.convolution
    }

    pub fn r2c(&self) -> (r: bool)
        ensures
            r == self.r2c,
    {
        self.r2c
    }

    pub fn normalize(&self) -> (r: bool)
        ensures
            r == self.normalize,
    {
        self.normalize
    }

    pub fn coordinate_features(&self) -> (r: u32)
        ensures
            r == self.coordinate_features,
    {
        self.coordinate_features
    }

    pub fn batch_count(&self) -> (r: Option<u32>)
        ensures
            r == self.batch_count,
    {
        self.batch_count
    }

    pub fn use_lut(&self) -> (r: bool)
        ensures
            r == self.use_lut,
    {
        self.use_lut
    }

    /// Builds the configuration projection: the engine's record for this
    /// description, and the references that keep every object it names alive.
    /// Fails exactly where half-memory precision meets an explicit request for
    /// unformatted input or output.
    pub fn as_sys(self) -> (r: Result<ConfigGuard<K>, ConfigError>)
        ensures
            r is Err <==> self.formatting_conflict(),
            r matches Err(e) ==> e == ConfigError::InvalidConfig,
            r matches Ok(g) ==> self.projects_to(g.config) && self.kept_by(g.keep_alive),
    {
        let half_memory = match self.precision {
            Precision::HalfMemory => true,
            _ => false,
        };
        if half_memory {
            if let Some(false) = self.input_formatted {
                return Err(ConfigError::InvalidConfig);
            }
            if let Some(false) = self.output_formatted {
                return Err(ConfigError::InvalidConfig);
            }
        }
        let temp_buffer_size = role_size_of(&self.temp_buffer);
        let user_temp_buffer = flag_of(self.temp_buffer.is_some());
        let config = NativeConfig {
            fft_dim: self.fft_dim as u64,
            size: [
                self.size[0] as u64,
                self.size[1] as u64,
                self.size[2] as u64,
                self.size[3] as u64,
            ],
            physical_device: self.physical_device,
            device: self.device.handle,
            queue: self.queue.handle,
            command_pool: self.command_pool.handle,
            fence: self.fence,
            normalize: flag_of(self.normalize),
            buffer: role_handle_of(&self.buffer),
            buffer_size: role_size_of(&self.buffer),
            temp_buffer: role_handle_of(&self.temp_buffer),
            temp_buffer_size,
            user_temp_buffer,
            input_buffer: role_handle_of(&self.input_buffer),
            input_buffer_size: role_size_of(&self.input_buffer),
            output_buffer: role_handle_of(&self.output_buffer),
            output_buffer_size: role_size_of(&self.output_buffer),
            kernel: role_handle_of(&self.kernel),
            kernel_size: role_size_of(&self.kernel),
            perform_zeropadding: [
                flag_of(self.zero_padding[0]),
                flag_of(self.zero_padding[1]),
                flag_of(self.zero_padding[2]),
            ],
            fft_zeropad_left: [
                self.zeropad_left[0] as u64,
                self.zeropad_left[1] as u64,
                self.zeropad_left[2] as u64,
                self.zeropad_left[3] as u64,
            ],
            fft_zeropad_right: [
                self.zeropad_right[0] as u64,
                self.zeropad_right[1] as u64,
                self.zeropad_right[2] as u64,
                self.zeropad_right[3] as u64,
            ],
            perform_convolution: flag_of(self.convolution),
            number_kernels: flag_of(self.convolution),
            kernel_convolution: flag_of(self.kernel_convolution),
            perform_r2c: flag_of(self.r2c),
            perform_dct: match self.dct {
                Some(t) => t,
                None => 0,
            },
            perform_dst: match self.dst {
                Some(t) => t,
                None => 0,
            },
            coordinate_features: self.coordinate_features as u64,
            disable_reorder_four_step: flag_of(self.disable_reorder_four_step),
            symmetric_kernel: flag_of(self.symmetric_kernel),
            use_lut: flag_of(self.use_lut),
            is_input_formatted: if half_memory {
                1
            } else {
                optional_flag_of(self.input_formatted)
            },
            inverse_return_to_input_buffer: optional_flag_of(self.inverse_return_to_input),
            is_output_formatted: if half_memory {
                1
            } else {
                optional_flag_of(self.output_formatted)
            },
            double_precision: flag_of(
                match self.precision {
                    Precision::Double => true,
                    _ => false,
                },
            ),
            half_precision: flag_of(
                match self.precision {
                    Precision::Half => true,
                    _ => false,
                },
            ),
            half_precision_memory_only: flag_of(half_memory),
            number_batches: match self.batch_count {
                Some(b) => b as u64,
                None => 0,
            },
            matrix_convolution: match self.matrix_convolution {
                Some(m) => m,
                None => 0,
            },
        };
        let keep_alive = KeepAlive {
            device: self.device.keep,
            queue: self.queue.keep,
            command_pool: self.command_pool.keep,
            buffer: role_token_of(self.buffer),
            input_buffer: role_token_of(self.input_buffer),
            output_buffer: role_token_of(self.output_buffer),
            temp_buffer: role_token_of(self.temp_buffer),
            kernel: role_token_of(self.kernel),
        };
        Ok(ConfigGuard { keep_alive, config })
    }
}


/// Half-memory precision needs formatted input and output: a description that
/// selects it and explicitly asks for unformatted input or output builds into a
/// `Config` whose projection is refused, whatever its other options.
pub proof fn lemma_half_memory_requires_formatting<K>(b: ConfigBuilder<K>, c: Config<K>)
    requires
        b.built_as(c),
        b.precision == Precision::HalfMemory,
        b.input_formatted == Some(false) || b.output_formatted == Some(false),
    ensures
        c.formatting_conflict(),
{
}

} // verus!
