use mir2_client::ecs::components::{PlayerAction, PlayerFrame};
use mir2_client::ecs::components::movement::{Movement, MovementState, Path};
use mir2_client::ecs::components::network::NetworkQueue;
use mir2_client::ecs::components::state_machine::{PlayerInputEvent, PlayerState, PlayerStateMachine};
use mir2_client::ecs::components::{
    Animation, Equipment, Health, Inventory, LearnableMagicList, Lifetime, MagicList, Mana,
    MirAction, MirClass, SpellType, TargetSelection, TargetType,
};
use mir2_client::shared::ItemType;

#[test]
fn health_damage_stops_at_zero_and_heal_at_max() {
    let mut h = Health::new(100);
    assert!(h.is_alive());
    h.take_damage(30);
    assert_eq!(h.current, 70);
    h.heal(50);
    assert_eq!(h.current, 100);
    h.take_damage(250);
    assert_eq!(h.current, 0);
    assert!(!h.is_alive());
    assert_eq!(h.max, 100);
}

#[test]
fn mana_consume_only_when_enough() {
    let mut m = Mana::new(50);
    assert!(m.has_enough(50));
    assert!(!m.has_enough(51));
    assert!(m.consume(20));
    assert_eq!(m.current, 30);
    assert!(!m.consume(31));
    assert_eq!(m.current, 30);
    m.restore(100);
    assert_eq!(m.current, 50);
}

#[test]
fn lifetime_counts_down_then_expires() {
    let mut l = Lifetime::new(100);
    assert!(!l.update(40));
    assert_eq!(l.remaining_ms, 60);
    assert!(l.update(60));
    assert_eq!(l.remaining_ms, 0);
    assert!(l.update(1));
}

#[test]
fn network_queue_drops_messages_when_full() {
    let mut q = NetworkQueue::new();
    assert_eq!(q.max_queue_size, 100);
    for i in 0..105u32 {
        q.enqueue_message(vec![(i % 256) as u8]);
    }
    assert_eq!(q.queue_size(), 100);
    assert_eq!(q.pending_messages[0], vec![0u8]);
    assert_eq!(q.pending_messages[99], vec![99u8]);
    q.process_send_queue();
    assert_eq!(q.queue_size(), 0);
}

#[test]
fn path_walks_its_waypoints_in_order() {
    let mut p = Path::new();
    assert!(p.is_complete());
    assert_eq!(p.current_waypoint(), None);
    p.set_path(vec![(1, 1), (2, 2), (3, 3)]);
    assert!(p.is_valid);
    assert!(!p.is_complete());
    assert_eq!(p.current_waypoint(), Some((1, 1)));
    assert!(p.advance());
    assert_eq!(p.current_waypoint(), Some((2, 2)));
    assert!(p.advance());
    assert_eq!(p.current_waypoint(), Some((3, 3)));
    assert!(!p.advance());
    assert!(!p.is_valid);
    assert!(p.is_complete());
    p.clear();
    assert_eq!(p.waypoints.len(), 0);
    p.set_path(Vec::new());
    assert!(!p.is_valid);
}

#[test]
fn movement_state_changes() {
    let mut m = Movement::new();
    assert!(!m.is_moving());
    m.set_state(MovementState::Running);
    assert!(m.is_moving());
    m.set_state(MovementState::Knocked);
    assert!(!m.is_moving());
}

#[test]
fn state_machine_follows_allowed_transitions() {
    let mut sm = PlayerStateMachine::new();
    assert!(sm.is_in_state(PlayerState::Idle));
    assert!(sm.transition_to(PlayerState::Walking));
    assert_eq!(sm.previous_state, PlayerState::Idle);
    assert!(sm.is_transitioning);
    sm.complete_transition();
    assert!(!sm.is_transitioning);
    // walking cannot turn into an attack
    assert!(!sm.transition_to(PlayerState::Attacking));
    assert!(sm.is_in_state(PlayerState::Walking));
    sm.handle_event(PlayerInputEvent::StartRunning);
    assert!(sm.is_in_state(PlayerState::Running));
    sm.revert_to_previous();
    assert!(sm.is_in_state(PlayerState::Walking));
    assert_eq!(sm.previous_state, PlayerState::Running);
}

#[test]
fn state_machine_actions_return_to_idle_and_death_is_final() {
    let mut sm = PlayerStateMachine::new();
    sm.handle_event(PlayerInputEvent::Attack);
    assert!(sm.is_in_state(PlayerState::Attacking));
    sm.handle_event(PlayerInputEvent::CastSpell);
    assert!(sm.is_in_state(PlayerState::Attacking));
    sm.handle_event(PlayerInputEvent::StopMoving);
    assert!(sm.is_in_state(PlayerState::Idle));
    sm.handle_event(PlayerInputEvent::Die);
    assert!(sm.is_in_state(PlayerState::Dead));
    for e in [
        PlayerInputEvent::StartWalking,
        PlayerInputEvent::StopMoving,
        PlayerInputEvent::TakeDamage,
        PlayerInputEvent::Die,
    ] {
        sm.handle_event(e);
        assert!(sm.is_in_state(PlayerState::Dead));
    }
    assert!(!sm.transition_to(PlayerState::Idle));
}

#[test]
fn player_state_frames() {
    assert_eq!(PlayerState::Idle.frame_count(), 4);
    assert_eq!(PlayerState::Dead.frame_count(), 10);
    assert_eq!(PlayerState::Running.frame_interval(), 83);
    assert_eq!(PlayerState::Hit.frame_interval(), 150);
    assert!(PlayerState::Walking.is_moving());
    assert!(PlayerState::Hit.is_action());
    assert!(!PlayerState::Idle.is_action());
}

#[test]
fn magic_list_learns_each_spell_once() {
    let mut ml = MagicList::new();
    assert!(ml.learn(SpellType::FireBall));
    assert!(!ml.learn(SpellType::FireBall));
    assert!(ml.learn(SpellType::Healing));
    assert_eq!(ml.magics.len(), 2);
    assert!(ml.has_learned(SpellType::Healing));
    assert!(!ml.has_learned(SpellType::Fencing));
    assert!(ml.get_by_slot(1).is_none());
    ml.get_mut(SpellType::Healing).unwrap().key_slot = Some(1);
    assert_eq!(ml.get_by_slot(1).unwrap().spell, SpellType::Healing);
}

#[test]
fn learnable_spells_by_level_and_class() {
    let list = LearnableMagicList::init_for_class(MirClass::Wizard);
    assert_eq!(list.spells.len(), 9);
    assert_eq!(list.spells[0], (SpellType::FireBall, 7));
    let mut learned = MagicList::new();
    assert_eq!(
        list.get_available(13, &learned),
        vec![SpellType::FireBall, SpellType::Repulsion, SpellType::ElectricShock]
    );
    learned.learn(SpellType::Repulsion);
    assert_eq!(
        list.get_available(13, &learned),
        vec![SpellType::FireBall, SpellType::ElectricShock]
    );
    assert!(list.get_available(6, &learned).is_empty());
    assert_eq!(LearnableMagicList::init_for_class(MirClass::Archer).spells.len(), 4);
}

#[test]
fn spell_numbers_and_classes() {
    assert_eq!(SpellType::Fencing.number(), 1);
    assert_eq!(SpellType::FireBall.number(), 31);
    assert_eq!(SpellType::FireBall.required_class(), MirClass::Wizard);
    assert_eq!(SpellType::FireBall.name(), "火球术");
}

#[test]
fn inventory_fills_first_empty_slot() {
    let mut inv: Inventory<u32> = Inventory::new(3);
    assert!(inv.add_item(10));
    assert!(inv.add_item(20));
    assert_eq!(inv.remove_item(0), Some(10));
    assert!(inv.add_item(30));
    assert_eq!(inv.get_item(0), Some(&30));
    assert!(inv.add_item(40));
    assert!(!inv.add_item(50));
    assert_eq!(inv.get_item(2), Some(&40));
    assert_eq!(inv.remove_item(7), None);
}

#[test]
fn inventory_gold_saturates_and_refuses_overdraft() {
    let mut inv: Inventory<u32> = Inventory::new(1);
    inv.add_gold(100);
    assert!(!inv.remove_gold(101));
    assert_eq!(inv.gold, 100);
    assert!(inv.remove_gold(40));
    assert_eq!(inv.gold, 60);
    inv.add_gold(u32::MAX);
    assert_eq!(inv.gold, u32::MAX);
}

#[test]
fn equipment_slots() {
    let mut eq: Equipment<u32> = Equipment::new();
    assert_eq!(eq.get_slot_for_type(ItemType::Ring), Some(6));
    assert_eq!(eq.get_slot_for_type(ItemType::Nothing), None);
    assert_eq!(eq.equip(0, 5), None);
    assert_eq!(eq.equip(0, 6), Some(5));
    assert_eq!(eq.equip(14, 7), None);
    assert_eq!(eq.unequip(0), Some(6));
    assert_eq!(eq.unequip(0), None);
}

#[test]
fn target_selection_reports_the_selected_kind() {
    let mut t = TargetSelection::new();
    assert!(!t.has_target());
    t.select_monster(7);
    assert_eq!(t.get_monster_id(), Some(7));
    assert_eq!(t.get_location(), None);
    t.select_location(3, 4);
    assert_eq!(t.current, TargetType::Location(3, 4));
    assert_eq!(t.get_location(), Some((3, 4)));
    t.clear();
    assert!(!t.has_target());
}

#[test]
fn animation_loops_or_stops_on_last_frame() {
    let mut a = Animation::new(MirAction::Standing, 3, 100);
    assert!(!a.update(50));
    assert_eq!(a.frame_index, 0);
    assert!(!a.update(50));
    assert_eq!(a.frame_index, 1);
    a.update(100);
    a.update(100);
    assert_eq!(a.frame_index, 0);
    a.loop_animation = false;
    a.update(100);
    a.update(100);
    assert!(a.update(100));
    assert_eq!(a.frame_index, 2);
}

#[test]
fn player_frame_steps_and_wraps() {
    let mut f = PlayerFrame::new();
    assert_eq!(f.action, PlayerAction::Stand);
    // walking: a new frame every 6 ticks, 6 frames
    for _ in 0..5 {
        f.step(true, false);
    }
    assert_eq!(f.action, PlayerAction::Walk);
    assert!(f.is_moving);
    assert_eq!((f.frame_index, f.frame_time), (0, 5));
    f.step(true, false);
    assert_eq!((f.frame_index, f.frame_time), (1, 0));
    for _ in 0..30 {
        f.step(true, false);
    }
    assert_eq!((f.frame_index, f.frame_time), (0, 0));
    // running: every 5 ticks
    for _ in 0..5 {
        f.step(true, true);
    }
    assert_eq!(f.action, PlayerAction::Run);
    assert_eq!((f.frame_index, f.frame_time), (1, 0));
    f.step(false, false);
    assert_eq!(f, PlayerFrame::new());
}

#[test]
fn refused_transition_keeps_the_entry_time() {
    let mut sm = PlayerStateMachine::new();
    sm.handle_event(PlayerInputEvent::Attack);
    let entered = sm.state_enter_time;
    assert!(!sm.transition_to(PlayerState::Walking));
    assert_eq!(sm.state_enter_time, entered);
    sm.complete_transition();
    assert_eq!(sm.state_enter_time, entered);
    sm.handle_event(PlayerInputEvent::Attack);
    assert_eq!(sm.state_enter_time, entered);
}

#[test]
fn gold_changes_keep_the_bag() {
    let mut inv: Inventory<u32> = Inventory::new(4);
    inv.add_item(1);
    inv.set_gold(10);
    inv.add_gold(5);
    assert!(inv.remove_gold(3));
    assert_eq!(inv.gold, 12);
    assert_eq!(inv.capacity, 4);
    assert_eq!(inv.max_weight, 100);
    assert_eq!(inv.current_weight, 0);
    assert_eq!(inv.get_item(0), Some(&1));
}
