use std::sync::Arc;

use vkfft::config::{Config, ConfigBuilder, ConfigError, Precision};
use vkfft::error::{check_error, Error};
use vkfft::launch::{LaunchError, LaunchParams, LaunchParamsBuilder};
use vkfft::plan::{App, PlanState};
use vkfft::resource::{Buffer, Resource};

fn config(builder: ConfigBuilder<u32>) -> Config<u32> {
    builder
        .physical_device(10)
        .device(Resource::new(20, 0))
        .queue(Resource::new(30, 0))
        .fence(40)
        .command_pool(Resource::new(50, 0))
        .build()
        .unwrap()
}

fn initialized(builder: ConfigBuilder<u32>) -> App<u32> {
    let mut app = App::new(config(builder)).ok().unwrap();
    app.complete_init(0).unwrap();
    app
}

fn params() -> LaunchParamsBuilder<u32> {
    LaunchParams::builder().command_buffer(77)
}

#[test]
fn check_error_maps_status_codes() {
    assert_eq!(check_error(0), Ok(()));
    assert_eq!(check_error(4039), Err(Error::Engine(4039)));
}

#[test]
fn new_plan_is_constructed_with_its_record() {
    let app = App::new(config(ConfigBuilder::new().dim(&[8]))).ok().unwrap();
    assert_eq!(app.plan_state(), PlanState::Constructed);
    assert_eq!(app.native_config().size, [8, 1, 1, 0]);
    assert_eq!(app.native_config().device, 20);
}

#[test]
fn new_plan_refuses_half_memory_without_formatting() {
    let r = App::new(config(ConfigBuilder::new().precision(Precision::HalfMemory).input_formatted(false)));
    assert_eq!(r.err(), Some(Error::Config(ConfigError::InvalidConfig)));
}

#[test]
fn init_success_makes_plan_usable() {
    let mut app = App::new(config(ConfigBuilder::new())).ok().unwrap();
    assert_eq!(app.complete_init(0), Ok(()));
    assert_eq!(app.plan_state(), PlanState::Initialized);
}

#[test]
fn init_failure_is_reported_with_its_code() {
    let mut app = App::new(config(ConfigBuilder::new())).ok().unwrap();
    assert_eq!(app.complete_init(3), Err(Error::Engine(3)));
    assert_eq!(app.plan_state(), PlanState::Failed);
    assert!(app.release());
}

#[test]
fn forward_and_inverse_use_opposite_directions() {
    let app = initialized(ConfigBuilder::new());
    let p = params().build().ok().unwrap();
    let f = app.forward(&p).unwrap();
    assert_eq!(f.direction, -1);
    assert_eq!(f.params.command_buffer, 77);
    let i = app.inverse(&p).unwrap();
    assert_eq!(i.direction, 1);
    assert_eq!(i.params, f.params);
    assert_eq!(app.launch(&p, true), Ok(i));
}

#[test]
fn role_bound_twice_is_refused_for_primary_buffer() {
    let app = initialized(ConfigBuilder::new().buffer(Buffer::new(1, 8, 0)));
    let p = params().buffer(Buffer::new(2, 8, 0)).build().ok().unwrap();
    assert_eq!(app.forward(&p), Err(Error::Launch(LaunchError::ConfigSpecifiesBuffer)));
    assert_eq!(app.inverse(&p), Err(Error::Launch(LaunchError::ConfigSpecifiesBuffer)));
}

#[test]
fn role_bound_twice_is_refused_for_temp_buffer() {
    let app = initialized(ConfigBuilder::new().temp_buffer(Buffer::new(1, 8, 0)));
    let p = params().temp_buffer(Buffer::new(2, 8, 0)).build().ok().unwrap();
    assert_eq!(app.forward(&p), Err(Error::Launch(LaunchError::ConfigSpecifiesTempBuffer)));
}

#[test]
fn role_bound_twice_is_refused_for_input_buffer() {
    let app = initialized(ConfigBuilder::new().input_buffer(Buffer::new(1, 8, 0)));
    let p = params().input_buffer(Buffer::new(2, 8, 0)).build().ok().unwrap();
    assert_eq!(app.inverse(&p), Err(Error::Launch(LaunchError::ConfigSpecifiesInputBuffer)));
}

#[test]
fn role_bound_twice_is_refused_for_output_buffer() {
    let app = initialized(ConfigBuilder::new().output_buffer(Buffer::new(1, 8, 0)));
    let p = params().output_buffer(Buffer::new(2, 8, 0)).build().ok().unwrap();
    assert_eq!(app.forward(&p), Err(Error::Launch(LaunchError::ConfigSpecifiesOutputBuffer)));
}

#[test]
fn first_conflicting_role_is_reported() {
    let app = initialized(
        ConfigBuilder::new().temp_buffer(Buffer::new(1, 8, 0)).output_buffer(Buffer::new(3, 8, 0)),
    );
    let p = params()
        .output_buffer(Buffer::new(4, 8, 0))
        .temp_buffer(Buffer::new(2, 8, 0))
        .build()
        .ok()
        .unwrap();
    assert_eq!(app.forward(&p), Err(Error::Launch(LaunchError::ConfigSpecifiesTempBuffer)));
}

#[test]
fn kernel_may_be_bound_per_invocation() {
    let app = initialized(ConfigBuilder::new().kernel(Buffer::new(1, 8, 0)));
    let p = params().kernel(Buffer::new(2, 8, 0)).build().ok().unwrap();
    let a = app.forward(&p).unwrap();
    assert_eq!(a.params.kernel, Some(2));
}

#[test]
fn distinct_roles_do_not_conflict() {
    let app = initialized(ConfigBuilder::new().buffer(Buffer::new(1, 8, 0)));
    let p = params().input_buffer(Buffer::new(2, 8, 0)).output_buffer(Buffer::new(3, 8, 0)).build().ok().unwrap();
    let a = app.forward(&p).unwrap();
    assert_eq!(a.params.buffer, None);
    assert_eq!(a.params.input_buffer, Some(2));
    assert_eq!(a.params.output_buffer, Some(3));
}

#[test]
fn release_requests_teardown_once() {
    let mut app = initialized(ConfigBuilder::new());
    assert!(app.release());
    assert_eq!(app.plan_state(), PlanState::Destroyed);
    assert!(!app.release());
    assert_eq!(app.plan_state(), PlanState::Destroyed);
}

#[test]
fn unreleased_constructed_plan_still_needs_teardown() {
    let mut app = App::new(config(ConfigBuilder::new())).ok().unwrap();
    assert!(app.release());
}

#[test]
fn plan_keeps_buffers_alive_until_dropped() {
    let token = Arc::new(5u8);
    let c = ConfigBuilder::new()
        .physical_device(1)
        .device(Resource::new(2, token.clone()))
        .queue(Resource::new(3, token.clone()))
        .fence(4)
        .command_pool(Resource::new(5, token.clone()))
        .kernel(Buffer::new(6, 8, token.clone()))
        .build()
        .unwrap();
    let app = App::new(c).ok().unwrap();
    assert_eq!(Arc::strong_count(&token), 5);
    drop(app);
    assert_eq!(Arc::strong_count(&token), 1);
}
