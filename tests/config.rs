use std::sync::Arc;

use vkfft::config::{BuildError, Config, ConfigBuilder, ConfigError, Precision};
use vkfft::resource::{Buffer, Resource};

fn complete(builder: ConfigBuilder<u32>) -> ConfigBuilder<u32> {
    builder
        .physical_device(10)
        .device(Resource::new(20, 0))
        .queue(Resource::new(30, 0))
        .fence(40)
        .command_pool(Resource::new(50, 0))
}

fn projected(builder: ConfigBuilder<u32>) -> Result<vkfft::config::NativeConfig, ConfigError> {
    complete(builder).build().unwrap().as_sys().map(|g| g.config)
}

#[test]
fn builder_starts_from_defaults() {
    let b = ConfigBuilder::<u32>::new();
    assert_eq!(b.fft_dim, 1);
    assert_eq!(b.size, [1, 1, 1, 0]);
    assert_eq!(b.coordinate_features, 1);
    assert_eq!(b.precision, Precision::Single);
    assert!(!b.normalize && !b.r2c && !b.convolution && !b.use_lut);
    assert!(b.physical_device.is_none() && b.device.is_none() && b.buffer.is_none());
    let d = ConfigBuilder::<u32>::default();
    assert_eq!(d.size, [1, 1, 1, 0]);
}

#[test]
fn dim_sets_axes_and_keeps_the_rest() {
    let b = ConfigBuilder::<u32>::new().dim(&[8, 4]);
    assert_eq!(b.fft_dim, 2);
    assert_eq!(b.size, [8, 4, 1, 0]);
    let b = b.dim(&[16, 2, 3]);
    assert_eq!(b.fft_dim, 3);
    assert_eq!(b.size, [16, 2, 3, 0]);
}

#[test]
fn padding_setters_touch_only_given_axes() {
    let b = ConfigBuilder::<u32>::new()
        .zero_padding(&[true, false])
        .zeropad_left(&[3])
        .zeropad_right(&[5, 6, 7]);
    assert_eq!(b.zero_padding, [true, false, false]);
    assert_eq!(b.zeropad_left, [3, 0, 0, 0]);
    assert_eq!(b.zeropad_right, [5, 6, 7, 0]);
}

#[test]
fn dct_and_dst_are_separate_options() {
    let b = ConfigBuilder::<u32>::new().dst(2);
    assert_eq!(b.dst, Some(2));
    assert_eq!(b.dct, None);
    let b = b.dct(3);
    assert_eq!(b.dct, Some(3));
    assert_eq!(b.dst, Some(2));
}

#[test]
fn build_reports_the_first_missing_field() {
    let b = ConfigBuilder::<u32>::new();
    assert_eq!(b.build().err(), Some(BuildError::NoPhysicalDevice));
    let b = ConfigBuilder::<u32>::new().physical_device(1);
    assert_eq!(b.build().err(), Some(BuildError::NoDevice));
    let b = ConfigBuilder::<u32>::new().physical_device(1).device(Resource::new(2, 0));
    assert_eq!(b.build().err(), Some(BuildError::NoQueue));
    let b = ConfigBuilder::<u32>::new()
        .physical_device(1)
        .device(Resource::new(2, 0))
        .queue(Resource::new(3, 0));
    assert_eq!(b.build().err(), Some(BuildError::NoFence));
    let b = ConfigBuilder::<u32>::new()
        .physical_device(1)
        .device(Resource::new(2, 0))
        .queue(Resource::new(3, 0))
        .fence(4);
    assert_eq!(b.build().err(), Some(BuildError::NoCommandPool));
}

#[test]
fn build_reports_missing_physical_device_even_when_others_are_set() {
    let b = ConfigBuilder::<u32>::new()
        .device(Resource::new(2, 0))
        .queue(Resource::new(3, 0))
        .fence(4)
        .command_pool(Resource::new(5, 0));
    assert_eq!(b.build().err(), Some(BuildError::NoPhysicalDevice));
    let b = ConfigBuilder::<u32>::new()
        .physical_device(1)
        .device(Resource::new(2, 0))
        .queue(Resource::new(3, 0))
        .command_pool(Resource::new(5, 0));
    assert_eq!(b.build().err(), Some(BuildError::NoFence));
}

#[test]
fn build_carries_every_option() {
    let c: Config<u32> = complete(
        ConfigBuilder::new()
            .dim(&[8, 8])
            .normalize()
            .r2c()
            .batch_count(3)
            .buffer(Buffer::new(60, 512, 0)),
    )
    .build()
    .unwrap();
    assert_eq!(c.physical_device, 10);
    assert_eq!(c.device.handle, 20);
    assert_eq!(c.queue.handle, 30);
    assert_eq!(c.fence, 40);
    assert_eq!(c.command_pool.handle, 50);
    assert_eq!(c.size, [8, 8, 1, 0]);
    assert!(c.normalize() && c.r2c() && !c.convolution());
    assert_eq!(c.batch_count(), Some(3));
    assert_eq!(c.buffer_size(), 512);
    assert_eq!(c.buffer().map(|b| b.handle), Some(60));
    assert!(c.temp_buffer().is_none());
    assert!(c.input_buffer().is_none());
    assert!(c.output_buffer().is_none());
    assert_eq!(c.coordinate_features(), 1);
    assert!(!c.use_lut() && !c.symmetric_kernel() && !c.kernel_convolution());
}

#[test]
fn buffer_size_is_zero_without_buffer() {
    let c = complete(ConfigBuilder::new()).build().unwrap();
    assert_eq!(c.buffer_size(), 0);
}

#[test]
fn projection_copies_shape_and_handles() {
    let n = projected(ConfigBuilder::new().dim(&[12, 5, 3])).unwrap();
    assert_eq!(n.fft_dim, 3);
    assert_eq!(n.size, [12, 5, 3, 0]);
    assert_eq!(n.physical_device, 10);
    assert_eq!(n.device, 20);
    assert_eq!(n.queue, 30);
    assert_eq!(n.fence, 40);
    assert_eq!(n.command_pool, 50);
    assert_eq!(n.normalize, 0);
    assert_eq!(n.coordinate_features, 1);
}

#[test]
fn projection_leaves_unset_roles_null() {
    let n = projected(ConfigBuilder::new()).unwrap();
    assert_eq!(n.buffer, None);
    assert_eq!(n.buffer_size, None);
    assert_eq!(n.temp_buffer, None);
    assert_eq!(n.temp_buffer_size, None);
    assert_eq!(n.user_temp_buffer, 0);
    assert_eq!(n.input_buffer, None);
    assert_eq!(n.output_buffer, None);
    assert_eq!(n.kernel, None);
    assert_eq!(n.kernel_size, None);
}

#[test]
fn projection_points_at_buffer_handles_and_sizes() {
    let n = projected(
        ConfigBuilder::new()
            .buffer(Buffer::new(61, 256, 0))
            .temp_buffer(Buffer::new(62, 128, 0))
            .input_buffer(Buffer::new(63, 64, 0))
            .output_buffer(Buffer::new(64, 32, 0))
            .kernel(Buffer::new(65, 16, 0)),
    )
    .unwrap();
    assert_eq!((n.buffer, n.buffer_size), (Some(61), Some(256)));
    assert_eq!((n.temp_buffer, n.temp_buffer_size), (Some(62), Some(128)));
    assert_eq!(n.user_temp_buffer, 1);
    assert_eq!((n.input_buffer, n.input_buffer_size), (Some(63), Some(64)));
    assert_eq!((n.output_buffer, n.output_buffer_size), (Some(64), Some(32)));
    assert_eq!((n.kernel, n.kernel_size), (Some(65), Some(16)));
}

#[test]
fn projection_points_at_zero_size_of_bound_buffer() {
    let n = projected(ConfigBuilder::new().temp_buffer(Buffer::new(62, 0, 0))).unwrap();
    assert_eq!(n.temp_buffer, Some(62));
    assert_eq!(n.temp_buffer_size, Some(0));
    assert_eq!(n.user_temp_buffer, 1);
}

#[test]
fn projection_sets_convolution_kernel_count() {
    let n = projected(ConfigBuilder::new().convolution()).unwrap();
    assert_eq!(n.perform_convolution, 1);
    assert_eq!(n.number_kernels, 1);
    let n = projected(ConfigBuilder::new().kernel_convolution()).unwrap();
    assert_eq!(n.perform_convolution, 0);
    assert_eq!(n.number_kernels, 0);
    assert_eq!(n.kernel_convolution, 1);
}

#[test]
fn projection_maps_flags_and_options() {
    let n = projected(
        ConfigBuilder::new()
            .normalize()
            .r2c()
            .dct(2)
            .dst(4)
            .use_lut()
            .symmetric_kernel()
            .disable_reorder_four_step()
            .coordinate_features(3)
            .matrix_convolution(3)
            .batch_count(7)
            .zero_padding(&[true, false, true])
            .zeropad_left(&[1, 2, 3])
            .zeropad_right(&[4, 5, 6])
            .inverse_return_to_input(),
    )
    .unwrap();
    assert_eq!(n.normalize, 1);
    assert_eq!(n.perform_r2c, 1);
    assert_eq!(n.perform_dct, 2);
    assert_eq!(n.perform_dst, 4);
    assert_eq!(n.use_lut, 1);
    assert_eq!(n.symmetric_kernel, 1);
    assert_eq!(n.disable_reorder_four_step, 1);
    assert_eq!(n.coordinate_features, 3);
    assert_eq!(n.matrix_convolution, 3);
    assert_eq!(n.number_batches, 7);
    assert_eq!(n.perform_zeropadding, [1, 0, 1]);
    assert_eq!(n.fft_zeropad_left, [1, 2, 3, 0]);
    assert_eq!(n.fft_zeropad_right, [4, 5, 6, 0]);
    assert_eq!(n.inverse_return_to_input_buffer, 1);
    assert_eq!(n.is_input_formatted, 0);
    assert_eq!(n.is_output_formatted, 0);
}

#[test]
fn projection_leaves_unset_options_zero() {
    let n = projected(ConfigBuilder::new()).unwrap();
    assert_eq!(n.perform_dct, 0);
    assert_eq!(n.perform_dst, 0);
    assert_eq!(n.number_batches, 0);
    assert_eq!(n.matrix_convolution, 0);
    assert_eq!(n.inverse_return_to_input_buffer, 0);
    assert_eq!(n.perform_zeropadding, [0, 0, 0]);
}

#[test]
fn projection_passes_explicit_formatting() {
    let n = projected(ConfigBuilder::new().input_formatted(true).output_formatted(false)).unwrap();
    assert_eq!(n.is_input_formatted, 1);
    assert_eq!(n.is_output_formatted, 0);
}

#[test]
fn precision_selects_one_engine_flag() {
    let n = projected(ConfigBuilder::new()).unwrap();
    assert_eq!((n.double_precision, n.half_precision, n.half_precision_memory_only), (0, 0, 0));
    let n = projected(ConfigBuilder::new().precision(Precision::Double)).unwrap();
    assert_eq!((n.double_precision, n.half_precision, n.half_precision_memory_only), (1, 0, 0));
    let n = projected(ConfigBuilder::new().precision(Precision::Half)).unwrap();
    assert_eq!((n.double_precision, n.half_precision, n.half_precision_memory_only), (0, 1, 0));
}

#[test]
fn half_memory_forces_formatted_io() {
    let n = projected(ConfigBuilder::new().precision(Precision::HalfMemory)).unwrap();
    assert_eq!(n.half_precision_memory_only, 1);
    assert_eq!(n.is_input_formatted, 1);
    assert_eq!(n.is_output_formatted, 1);
    let n = projected(
        ConfigBuilder::new().precision(Precision::HalfMemory).input_formatted(true).output_formatted(true),
    )
    .unwrap();
    assert_eq!((n.is_input_formatted, n.is_output_formatted), (1, 1));
}

#[test]
fn half_memory_with_unformatted_input_is_invalid() {
    let r = projected(ConfigBuilder::new().precision(Precision::HalfMemory).input_formatted(false));
    assert_eq!(r.err(), Some(ConfigError::InvalidConfig));
}

#[test]
fn half_memory_with_unformatted_output_is_invalid() {
    let r = projected(ConfigBuilder::new().output_formatted(false).precision(Precision::HalfMemory));
    assert_eq!(r.err(), Some(ConfigError::InvalidConfig));
}

#[test]
fn projection_holds_keep_alive_references() {
    let device = Arc::new(1u8);
    let buffer = Arc::new(2u8);
    let c = ConfigBuilder::new()
        .physical_device(1)
        .device(Resource::new(2, device.clone()))
        .queue(Resource::new(3, device.clone()))
        .fence(4)
        .command_pool(Resource::new(5, device.clone()))
        .buffer(Buffer::new(6, 8, buffer.clone()))
        .build()
        .unwrap();
    let guard = c.as_sys().ok().unwrap();
    assert_eq!(Arc::strong_count(&device), 4);
    assert_eq!(Arc::strong_count(&buffer), 2);
    assert!(Arc::ptr_eq(&guard.keep_alive.device, &device));
    assert!(Arc::ptr_eq(guard.keep_alive.buffer.as_ref().unwrap(), &buffer));
    assert!(guard.keep_alive.kernel.is_none());
    drop(guard);
    assert_eq!(Arc::strong_count(&device), 1);
    assert_eq!(Arc::strong_count(&buffer), 1);
}
