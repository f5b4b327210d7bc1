use dap_sampler::ui::controls::{
    AcquisitionCommand, AcquisitionState, ControlPanel, RATE_MAX, RATE_MIN, WINDOW_DEFAULT,
    WINDOW_MAX, WINDOW_MIN,
};

#[test]
fn new_panel_is_idle_and_clamps_rate() {
    let p = ControlPanel::new(5000, Some(100));
    assert_eq!(p.state, AcquisitionState::Idle);
    assert_eq!(p.sample_rate, 5000);
    assert_eq!(p.total_samples, 0);
    assert_eq!(p.target_count, Some(100));
    assert_eq!(p.window_size, WINDOW_DEFAULT);
    assert_eq!(p.window_size, 2000);

    assert_eq!(ControlPanel::new(0, None).sample_rate, RATE_MIN);
    assert_eq!(ControlPanel::new(100_000, None).sample_rate, 100_000);
    assert_eq!(ControlPanel::new(100_001, None).sample_rate, RATE_MAX);
    assert_eq!(RATE_MAX, 100_000);
    assert_eq!(WINDOW_MAX, 10_000);
    assert_eq!(ControlPanel::new(15_000, None).sample_rate, 15_000);
    assert_eq!(ControlPanel::new(1, None).sample_rate, 1);
}

#[test]
fn state_setters() {
    let mut p = ControlPanel::new(1000, None);
    p.set_running();
    assert_eq!(p.state, AcquisitionState::Running);
    p.set_paused();
    assert_eq!(p.state, AcquisitionState::Paused);
    p.set_stopped();
    assert_eq!(p.state, AcquisitionState::Idle);
    p.update_count(42);
    assert_eq!(p.total_samples, 42);
    assert_eq!(p.sample_rate, 1000);
}

#[test]
fn buttons_offered_by_state() {
    let mut p = ControlPanel::new(1000, None);
    assert_eq!(p.primary_command(), AcquisitionCommand::Start);
    assert!(!p.stop_offered());
    assert!(p.params_editable());
    p.set_running();
    assert_eq!(p.primary_command(), AcquisitionCommand::Pause);
    assert!(p.stop_offered());
    assert!(!p.params_editable());
    p.set_paused();
    assert_eq!(p.primary_command(), AcquisitionCommand::Start);
    assert!(p.stop_offered());
    assert!(!p.params_editable());
}

#[test]
fn commands_from_clicks() {
    let mut p = ControlPanel::new(1000, None);
    assert_eq!(p.command_for(false, false), None);
    assert_eq!(p.command_for(true, false), Some(AcquisitionCommand::Start));
    // no Stop button while idle
    assert_eq!(p.command_for(false, true), None);
    p.set_running();
    assert_eq!(p.command_for(true, false), Some(AcquisitionCommand::Pause));
    assert_eq!(p.command_for(false, true), Some(AcquisitionCommand::Stop));
    // Stop wins when both are clicked
    assert_eq!(p.command_for(true, true), Some(AcquisitionCommand::Stop));
    p.set_paused();
    assert_eq!(p.command_for(true, false), Some(AcquisitionCommand::Start));
    assert_eq!(p.command_for(false, true), Some(AcquisitionCommand::Stop));
}

#[test]
fn params_only_change_while_idle() {
    let mut p = ControlPanel::new(1000, None);
    p.apply_params(2000, 500);
    assert_eq!(p.sample_rate, 2000);
    assert_eq!(p.window_size, 500);
    p.apply_params(0, 0);
    assert_eq!(p.sample_rate, RATE_MIN);
    assert_eq!(p.window_size, WINDOW_MIN);
    p.apply_params(u32::MAX, usize::MAX);
    assert_eq!(p.sample_rate, RATE_MAX);
    assert_eq!(p.window_size, WINDOW_MAX);
    p.set_running();
    p.apply_params(3000, 700);
    assert_eq!(p.sample_rate, RATE_MAX);
    assert_eq!(p.window_size, WINDOW_MAX);
}

#[test]
fn out_of_range_values_are_clamped_even_when_not_idle() {
    let mut p = ControlPanel::new(1000, None);
    p.sample_rate = 0;
    p.window_size = 500_000;
    p.set_running();
    p.apply_params(3000, 700);
    assert_eq!(p.sample_rate, RATE_MIN);
    assert_eq!(p.window_size, WINDOW_MAX);
}

#[test]
fn frame_decides_on_the_starting_state() {
    let mut p = ControlPanel::new(1000, Some(10));
    let cmd = p.frame(true, false, 4000, 100);
    assert_eq!(cmd, Some(AcquisitionCommand::Start));
    assert_eq!(p.sample_rate, 4000);
    assert_eq!(p.window_size, 100);
    assert_eq!(p.state, AcquisitionState::Idle);
    p.set_running();
    let cmd = p.frame(false, true, 9000, 9000);
    assert_eq!(cmd, Some(AcquisitionCommand::Stop));
    assert_eq!(p.sample_rate, 4000);
    assert_eq!(p.window_size, 100);
    assert_eq!(p.target_count, Some(10));
}

#[test]
fn window_is_capped_at_ten_thousand_samples() {
    let mut p = ControlPanel::new(1000, None);
    p.apply_params(1000, 10_000);
    assert_eq!(p.window_size, 10_000);
    p.apply_params(1000, 10_001);
    assert_eq!(p.window_size, 10_000);
}
