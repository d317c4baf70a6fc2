use mir2_client::ecs::game_scene_scheduler::GameSceneScheduler;
use mir2_client::ecs::map_viewer_scheduler::MapViewerScheduler;
use mir2_client::ecs::parallel_scheduler::{ExecutionMode, ParallelScheduler, UpdateStep};
use mir2_client::time::Duration;

#[test]
fn game_scene_starts_with_every_system_enabled() {
    let s = GameSceneScheduler::new();
    let all = s.get_all_stats();
    assert_eq!(all.len(), 16);
    assert_eq!(all[0].name, "InputCollectingSystem");
    assert_eq!(all[15].name, "CameraSystem");
    for w in all.windows(2) {
        assert!(w[0].priority < w[1].priority);
    }
    assert!(s.is_enabled("MonsterSystem"));
    assert!(!s.is_enabled("NoSuchSystem"));
}

#[test]
fn game_scene_switches_systems() {
    let mut s = GameSceneScheduler::new();
    s.disable_system("CameraSystem");
    assert!(!s.is_enabled("CameraSystem"));
    assert!(s.is_enabled("OcclusionSystem"));
    s.enable_system("CameraSystem");
    assert!(s.is_enabled("CameraSystem"));
    s.disable_system("Unknown");
    assert!(s.get_stats("Unknown").is_none());
}

#[test]
fn game_scene_records_and_averages() {
    let mut s = GameSceneScheduler::new();
    s.record_execution("MovementSystemV2", Duration::new(0, 300));
    s.record_execution("MovementSystemV2", Duration::new(0, 500));
    let st = s.get_stats("MovementSystemV2").unwrap();
    assert_eq!(st.execution_count, 2);
    assert_eq!(st.total_time.as_nanos(), 800);
    assert_eq!(st.average_time.as_nanos(), 400);
    assert_eq!(st.last_execution.as_nanos(), 500);
    assert_eq!(st.priority, 210);
    assert_eq!(s.get_stats("CameraSystem").unwrap().execution_count, 0);
    s.reset_stats();
    let st = s.get_stats("MovementSystemV2").unwrap();
    assert_eq!(st.execution_count, 0);
    assert_eq!(st.total_time.as_nanos(), 0);
    assert!(s.is_enabled("MovementSystemV2"));
}

#[test]
fn average_rounds_down() {
    let mut s = GameSceneScheduler::new();
    s.record_execution("CameraSystem", Duration::new(0, 1));
    s.record_execution("CameraSystem", Duration::new(0, 2));
    s.record_execution("CameraSystem", Duration::new(0, 2));
    assert_eq!(s.get_stats("CameraSystem").unwrap().average_time.as_nanos(), 1);
}

#[test]
fn map_viewer_has_five_systems() {
    let mut s = MapViewerScheduler::new();
    let all = s.get_all_stats();
    let names: Vec<&str> = all.iter().map(|x| x.name.as_str()).collect();
    assert_eq!(
        names,
        vec!["InputCollectingSystem", "LocalPredictionSystem", "MovementSystemV2", "PlayerAnimationSystem", "CameraSystem"]
    );
    assert_eq!(all[3].priority, 300);
    s.disable_system("PlayerAnimationSystem");
    assert!(!s.is_enabled("PlayerAnimationSystem"));
    assert!(s.get_stats("ClientNetworkSystem").is_none());
    s.record_execution("CameraSystem", Duration::new(1, 0));
    assert_eq!(s.get_stats("CameraSystem").unwrap().total_time.as_secs(), 1);
}

#[test]
fn parallel_default_runs_in_parallel() {
    let s = ParallelScheduler::default();
    assert_eq!(s.execution_mode(), ExecutionMode::Parallel);
}

#[test]
fn sequential_plan_is_every_system_in_order() {
    let mut s = ParallelScheduler::new(ExecutionMode::Sequential);
    let plan = s.update_plan();
    assert_eq!(plan.len(), 16);
    for (i, step) in plan.iter().enumerate() {
        assert_eq!(step.system, i);
        assert!(!step.concurrent);
    }
    s.disable_system("NPCActionSystem");
    let plan = s.update_plan();
    assert_eq!(plan.len(), 15);
    assert!(plan.iter().all(|st| st.system != 8));
}

#[test]
fn parallel_plan_runs_occlusion_last() {
    let s = ParallelScheduler::new(ExecutionMode::Parallel);
    let plan = s.update_plan();
    let systems: Vec<usize> = plan.iter().map(|st| st.system).collect();
    assert_eq!(systems, vec![0, 1, 2, 3, 4, 5, 6, 7, 8, 9, 10, 11, 12, 13, 15, 14]);
    let concurrent: Vec<bool> = plan.iter().map(|st| st.concurrent).collect();
    assert_eq!(
        concurrent,
        vec![false, false, false, false, false, false, true, true, true, true, true, true, true, true, true, false]
    );
    assert_eq!(plan[14].layer, 5);
    assert_eq!(plan[6].layer, 3);
}

#[test]
fn finishing_steps_updates_stats() {
    let mut s = ParallelScheduler::new(ExecutionMode::Parallel);
    s.finish_step(UpdateStep { system: 6, layer: 3, concurrent: true }, Duration::zero());
    s.finish_step(UpdateStep { system: 14, layer: 5, concurrent: false }, Duration::new(0, 40));
    let anim = s.get_stats("AnimationStateSystem").unwrap();
    assert_eq!(anim.parallel_executions, 1);
    assert_eq!(anim.execution_count, 0);
    let occ = s.get_stats("OcclusionSystem").unwrap();
    assert_eq!(occ.execution_count, 1);
    assert_eq!(occ.parallel_executions, 0);
    assert_eq!(occ.average_time.as_nanos(), 40);
    s.set_execution_mode(ExecutionMode::Sequential);
    assert_eq!(s.execution_mode(), ExecutionMode::Sequential);
    s.reset_stats();
    assert_eq!(s.get_stats("AnimationStateSystem").unwrap().parallel_executions, 0);
}

#[test]
fn every_listed_entry_is_found_by_its_name() {
    let s = GameSceneScheduler::new();
    let all = s.get_all_stats();
    assert_eq!(all.len(), 16);
    for entry in &all {
        let found = s.get_stats(&entry.name).unwrap();
        assert_eq!(found.priority, entry.priority);
        assert_eq!(found.name, entry.name);
        assert_eq!(entry.total_time.as_nanos(), 0);
        assert_eq!(entry.average_time.as_nanos(), 0);
        assert_eq!(entry.last_execution.as_nanos(), 0);
    }
    let m = MapViewerScheduler::new();
    for entry in &m.get_all_stats() {
        assert_eq!(m.get_stats(&entry.name).unwrap().priority, entry.priority);
        assert_eq!(entry.total_time.as_nanos(), 0);
    }
    let p = ParallelScheduler::new(ExecutionMode::Parallel);
    for entry in &p.get_all_stats() {
        assert_eq!(p.get_stats(&entry.name).unwrap().priority, entry.priority);
        assert_eq!(entry.total_time.as_nanos(), 0);
        assert_eq!(entry.parallel_executions, 0);
    }
}
