use fractalwonder_ui::render_progress::{render_status, RenderPhase, RenderProgress, RenderStatus};

fn test_progress() -> RenderProgress {
    RenderProgress { phase: RenderPhase::ComputingOrbit, completed_steps: 0, total_steps: 0 }
}

#[test]
fn default_is_idle() {
    let progress = RenderProgress::default();
    assert_eq!(progress.phase, RenderPhase::Idle);
    assert_eq!(progress.completed_steps, 0);
    assert_eq!(progress.total_steps, 0);
}

#[test]
fn phase_transitions() {
    let mut progress = test_progress();
    assert_eq!(progress.phase, RenderPhase::ComputingOrbit);
    progress.phase = RenderPhase::Rendering;
    assert_eq!(progress.phase, RenderPhase::Rendering);
    progress.phase = RenderPhase::Complete;
    assert_eq!(progress.phase, RenderPhase::Complete);
}

#[test]
fn is_complete_checks_phase() {
    let mut progress = test_progress();
    assert!(!progress.is_complete());
    progress.phase = RenderPhase::Complete;
    assert!(progress.is_complete());
}

#[test]
fn is_active_checks_phase() {
    let mut progress = RenderProgress::default();
    assert!(!progress.is_active());
    progress.phase = RenderPhase::ComputingOrbit;
    assert!(progress.is_active());
    progress.phase = RenderPhase::Rendering;
    assert!(progress.is_active());
    progress.phase = RenderPhase::Complete;
    assert!(!progress.is_active());
}

#[test]
fn set_total_steps_resets_completed() {
    let mut progress = test_progress();
    progress.completed_steps = 10;
    progress.set_total_steps(100);
    assert_eq!(progress.total_steps, 100);
    assert_eq!(progress.completed_steps, 0);
}

#[test]
fn increment_step() {
    let mut progress = test_progress();
    progress.total_steps = 10;
    assert_eq!(progress.completed_steps, 0);
    progress.increment_step();
    assert_eq!(progress.completed_steps, 1);
}

#[test]
fn indeterminate_phases() {
    assert!(RenderPhase::ComputingOrbit.is_indeterminate());
    assert!(RenderPhase::BuildingBla.is_indeterminate());
    assert!(RenderPhase::Colorizing.is_indeterminate());
    assert!(!RenderPhase::Rendering.is_indeterminate());
    assert!(!RenderPhase::Idle.is_indeterminate());
    assert!(!RenderPhase::Complete.is_indeterminate());
}

#[test]
fn phase_labels() {
    assert_eq!(RenderPhase::ComputingOrbit.label(), "Computing orbit...");
    assert_eq!(RenderPhase::BuildingBla.label(), "Building BLA table...");
    assert_eq!(RenderPhase::Rendering.label(), "Rendering");
    assert_eq!(RenderPhase::Colorizing.label(), "Colorizing...");
    assert_eq!(RenderPhase::Complete.label(), "Rendered");
    assert_eq!(RenderPhase::Idle.label(), "");
}

#[test]
fn reset_returns_to_default() {
    let mut progress = test_progress();
    progress.phase = RenderPhase::Rendering;
    progress.completed_steps = 50;
    progress.total_steps = 100;
    progress.reset();
    assert_eq!(progress.phase, RenderPhase::Idle);
    assert_eq!(progress.completed_steps, 0);
    assert_eq!(progress.total_steps, 0);
}

#[test]
fn start_new_and_complete() {
    let p = RenderProgress::start();
    assert_eq!(p.phase, RenderPhase::ComputingOrbit);
    let mut p = RenderProgress::new(16);
    assert_eq!(p.phase, RenderPhase::Rendering);
    assert_eq!(p.total_steps, 16);
    assert_eq!(p.completed_steps, 0);
    p.increment_step();
    p.set_complete();
    assert!(p.is_complete());
    assert!(!p.is_active());
    assert_eq!(p.completed_steps, 1);
    p.set_phase(RenderPhase::Colorizing);
    assert!(p.is_active());
}

#[test]
fn status_line_follows_steps_and_completion() {
    let mut p = RenderProgress::default();
    assert_eq!(render_status(&p), RenderStatus::Blank);
    p.set_phase(RenderPhase::Rendering);
    p.set_total_steps(4);
    assert_eq!(render_status(&p), RenderStatus::InProgress);
    p.set_complete();
    assert_eq!(render_status(&p), RenderStatus::Finished);
    p.reset();
    p.set_complete();
    assert_eq!(render_status(&p), RenderStatus::Blank);
}
