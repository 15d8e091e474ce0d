use vstd::prelude::*;

use crate::config::{role_handle, role_handle_of};
use crate::resource::Buffer;

verus! {

/// Why launch parameters could not be built.
#[derive(Debug, Clone, Copy, PartialEq, Eq, Structural)]
pub enum BuildError {
    NoCommandBuffer,
}

/// A buffer role that an invocation tried to bind although the plan's
/// configuration already binds it.
#[derive(Debug, Clone, Copy, PartialEq, Eq, Structural)]
pub enum LaunchError {
    ConfigSpecifiesBuffer,
    ConfigSpecifiesTempBuffer,
    ConfigSpecifiesInputBuffer,
    ConfigSpecifiesOutputBuffer,
    ConfigSpecifiesKernel,
}

/// Per-invocation parameters under construction.
pub struct LaunchParamsBuilder<K> {
    pub command_buffer: Option<u64>,
    pub buffer: Option<Buffer<K>>,
    pub temp_buffer: Option<Buffer<K>>,
    pub input_buffer: Option<Buffer<K>>,
    pub output_buffer: Option<Buffer<K>>,
    pub kernel: Option<Buffer<K>>,
}

/// Parameters of one invocation: the command stream that receives the
/// transform's commands and the buffer roles bound for this invocation only.
pub struct LaunchParams<K> {
    pub command_buffer: u64,
    pub buffer: Option<Buffer<K>>,
    pub temp_buffer: Option<Buffer<K>>,
    pub input_buffer: Option<Buffer<K>>,
    pub output_buffer: Option<Buffer<K>>,
    pub kernel: Option<Buffer<K>>,
}

/// The launch-parameters record as the engine reads it: the command stream's
/// handle and, per buffer role, the handle its pointer dereferences to, or
/// `None` for a null pointer.
#[derive(Debug, Clone, Copy, PartialEq, Eq, Structural)]
pub struct NativeLaunchParams {
    pub command_buffer: u64,
    pub buffer: Option<u64>,
    pub temp_buffer: Option<u64>,
    pub input_buffer: Option<u64>,
    pub output_buffer: Option<u64>,
    pub kernel: Option<u64>,
}

impl<K> Default for LaunchParamsBuilder<K> {
    fn default() -> (r: Self)
        ensures
            r.is_empty(),
    {
        Self::new()
    }
}

impl<K> LaunchParamsBuilder<K> {
    /// No command stream and no buffer role set.
    pub open spec fn is_empty(self) -> bool {
        &&& self.command_buffer is None
        &&& self.buffer is None
        &&& self.temp_buffer is None
        &&& self.input_buffer is None
        &&& self.output_buffer is None
        &&& self.kernel is None
    }

    pub fn new() -> (r: Self)
        ensures
            r.is_empty(),
    {
        LaunchParamsBuilder {
            command_buffer: None,
            buffer: None,
            temp_buffer: None,
            input_buffer: None,
            output_buffer: None,
            kernel: None,
        }
    }

    pub fn command_buffer(self, command_buffer: u64) -> (r: Self)
        ensures
            r == (LaunchParamsBuilder { command_buffer: Some(command_buffer), ..self }),
    {
        LaunchParamsBuilder { command_buffer: Some(command_buffer), ..self }
    }

    pub fn buffer(self, buffer: Buffer<K>) -> (r: Self)
        ensures
            r == (LaunchParamsBuilder { buffer: Some(buffer), ..self }),
    {
        LaunchParamsBuilder { buffer: Some(buffer), ..self }
    }

    pub fn temp_buffer(self, temp_buffer: Buffer<K>) -> (r: Self)
        ensures
            r == (LaunchParamsBuilder { temp_buffer: Some(temp_buffer), ..self }),
    {
        LaunchParamsBuilder { temp_buffer: Some(temp_buffer), ..self }
    }

    pub fn input_buffer(self, input_buffer: Buffer<K>) -> (r: Self)
        ensures
            r == (LaunchParamsBuilder { input_buffer: Some(input_buffer), ..self }),
    {
        LaunchParamsBuilder { input_buffer: Some(input_buffer), ..self }
    }

    pub fn output_buffer(self, output_buffer: Buffer<K>) -> (r: Self)
        ensures
            r == (LaunchParamsBuilder { output_buffer: Some(output_buffer), ..self }),
    {
        LaunchParamsBuilder { output_buffer: Some(output_buffer), ..self }
    }

    pub fn kernel(self, kernel: Buffer<K>) -> (r: Self)
        ensures
            r == (LaunchParamsBuilder { kernel: Some(kernel), ..self }),
    {
        LaunchParamsBuilder { kernel: Some(kernel), ..self }
    }

    /// `p` carries this builder's command stream and buffer roles.
    pub open spec fn built_as(self, p: LaunchParams<K>) -> bool {
        &&& self.command_buffer == Some(p.command_buffer)
        &&& p.buffer == self.buffer
        &&& p.temp_buffer == self.temp_buffer
        &&& p.input_buffer == self.input_buffer
        &&& p.output_buffer == self.output_buffer
        &&& p.kernel == self.kernel
    }

    /// Fails exactly when no command stream was given.
    pub fn build(self) -> (r: Result<LaunchParams<K>, BuildError>)
        ensures
            self.command_buffer is None ==> r == Err::<LaunchParams<K>, BuildError>(
                BuildError::NoCommandBuffer,
            ),
            self.command_buffer is Some ==> (r matches Ok(p) && self.built_as(p)),
    {
        let command_buffer = match self.command_buffer {
            Some(c) => c,
            None => return Err(BuildError::NoCommandBuffer),
        };
        Ok(
            LaunchParams {
                command_buffer,
                buffer: self.buffer,
                temp_buffer: self.temp_buffer,
                input_buffer: self.input_buffer,
                output_buffer: self.output_buffer,
                kernel: self.kernel,
            },
        )
    }
}

impl<K> LaunchParams<K> {
    /// The engine record for these parameters.
    pub open spec fn native(self) -> NativeLaunchParams {
        NativeLaunchParams {
            command_buffer: self.command_buffer,
            buffer: role_handle(self.buffer),
            temp_buffer: role_handle(self.temp_buffer),
            input_buffer: role_handle(self.input_buffer),
            output_buffer: role_handle(self.output_buffer),
            kernel: role_handle(self.kernel),
        }
    }

    pub fn builder() -> (r: LaunchParamsBuilder<K>)
        ensures
            r.is_empty(),
    {
        LaunchParamsBuilder::new()
    }

    /// Builds the launch-parameters projection for one invocation.
    pub fn as_sys(&self) -> (r: NativeLaunchParams)
        ensures
            r == self.native(),
    {
        NativeLaunchParams {
            command_buffer: self.command_buffer,
            buffer: role_handle_of(&self.buffer),
            temp_buffer: role_handle_of(&self.temp_buffer),
            input_buffer: role_handle_of(&self.input_buffer),
            output_buffer: role_handle_of(&self.output_buffer),
            kernel: role_handle_of(&self.kernel),
        }
    }
}

impl<K: Clone> Clone for LaunchParams<K> {
    /// The copy names the same command stream and buffers.
    fn clone(&self) -> (r: Self)
        ensures
            r.native() == self.native(),
    {
        LaunchParams {
            command_buffer: self.command_buffer,
            buffer: clone_role(&self.buffer),
            temp_buffer: clone_role(&self.temp_buffer),
            input_buffer: clone_role(&self.input_buffer),
            output_buffer: clone_role(&self.output_buffer),
            kernel: clone_role(&self.kernel),
        }
    }
}

fn clone_role<K: Clone>(b: &Option<Buffer<K>>) -> (r: Option<Buffer<K>>)
    ensures
        role_handle(r) == role_handle(*b),
{
    match b {
        Some(v) => Some(v.clone()),
        None => None,
    }
}

} // verus!
