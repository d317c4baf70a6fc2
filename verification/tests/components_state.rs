use mir2_client::ecs::components::animation_state::{AnimationControl, AnimationState};
use mir2_client::ecs::components::prediction::{PredictionState, PredictionWeight, ServerState};
use mir2_client::time::Duration;

#[test]
fn animation_control_changes_state() {
    let mut a = AnimationControl::new();
    assert_eq!(a.current_state, AnimationState::Idle);
    a.current_frame = 3;
    a.set_state(AnimationState::Attack);
    assert_eq!(a.current_state, AnimationState::Attack);
    assert_eq!(a.previous_state, AnimationState::Idle);
    assert_eq!(a.current_frame, 0);
    assert!(!a.loop_animation);
    a.current_frame = 2;
    a.set_state(AnimationState::Attack);
    assert_eq!(a.current_frame, 2);
    a.set_state_with_force(AnimationState::Attack, true);
    assert_eq!(a.current_frame, 0);
    assert!(a.force_change);
    assert_eq!(a.previous_state, AnimationState::Attack);
    a.set_state(AnimationState::Run);
    assert!(a.loop_animation);
}

#[test]
fn animation_control_finishes_on_last_frame() {
    let mut a = AnimationControl::new();
    a.set_state(AnimationState::Hit);
    assert!(!a.is_finished());
    a.current_frame = 1;
    assert!(a.is_finished());
    assert!(a.is_transitioning_after(Duration::new(0, 99_999_999)));
    assert!(!a.is_transitioning_after(Duration::new(0, 100_000_000)));
}

#[test]
fn prediction_history_keeps_the_newest() {
    let mut p = PredictionState::new();
    for i in 0..15u32 {
        p.add_predicted_position((i as i32, 0), i as u64 * 10, i);
    }
    assert_eq!(p.predicted_positions.len(), 10);
    assert_eq!(p.predicted_positions[0].sequence, 5);
    assert_eq!(p.latest_predicted_position().unwrap().sequence, 14);
    p.cleanup_old_predictions(150, 40);
    let kept: Vec<u32> = p.predicted_positions.iter().map(|x| x.sequence).collect();
    assert_eq!(kept, vec![11, 12, 13, 14]);
}

#[test]
fn prediction_weight_follows_latency() {
    let mut p = PredictionState::default();
    p.adjust_prediction_weight(250);
    assert_eq!(p.prediction_weight, PredictionWeight::Half);
    p.adjust_prediction_weight(150);
    assert_eq!(p.prediction_weight, PredictionWeight::Reduced);
    p.adjust_prediction_weight(100);
    assert_eq!(p.prediction_weight, PredictionWeight::Full);
    p.set_correction_target((3, 4));
    assert_eq!(p.correction_target, Some((3, 4)));
    p.clear_correction_target();
    assert!(p.correction_target.is_none());
    assert!(PredictionState::new().latest_predicted_position().is_none());
}

#[test]
fn server_state_ignores_older_updates() {
    let mut s = ServerState::new((1.0f32, 2.0f32), 4);
    s.update((5.0, 5.0), 2, 7);
    assert_eq!((s.position, s.direction, s.sequence_number), ((5.0, 5.0), 2, 7));
    s.update((9.0, 9.0), 1, 6);
    assert_eq!((s.position, s.direction, s.sequence_number), ((5.0, 5.0), 2, 7));
    s.update((8.0, 8.0), 3, 7);
    assert_eq!(s.direction, 3);
    assert!(s.get_latency_ms() < 60_000);
}
