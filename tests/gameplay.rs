use gameplay::bat::{pick_random_state, random_idle_or_wander, Bat, BatSenses, BatState, INVINCIBILITY_MS};
use gameplay::hitbox::Hitbox;
use gameplay::player::{Player, PlayerAnimation, PlayerInput, PlayerState, PLAYER_INVINCIBILITY_MS};
use gameplay::player_detection_zone::PlayerDetectionZone;
use gameplay::stats::Stats;
use gameplay::vector::{
    add_clamped, direction_to, distance_to, isqrt, move_towards, normalized, scale, step_amount,
    Vec2, MAX_COORD, UNIT,
};

fn v(x: i64, y: i64) -> Vec2 {
    Vec2::new(x, y)
}

fn hitbox(damage: i64, knockback: Vec2) -> Hitbox {
    let mut h = Hitbox::new();
    h.damage = damage;
    h.knockback_vector = knockback;
    h
}

fn senses(position: Vec2) -> BatSenses {
    BatSenses {
        position,
        wander_timer_done: false,
        wander_target: position,
        player_position: position,
        soft_push: None,
    }
}

#[test]
fn normalized_zero_vector_is_zero() {
    assert_eq!(normalized(v(0, 0)), v(0, 0));
}

#[test]
fn normalized_scales_to_unit_length() {
    assert_eq!(normalized(v(3000, 4000)), v(600, 800));
    assert_eq!(normalized(v(-3, 0)), v(-1000, 0));
    assert_eq!(normalized(v(0, 7)), v(0, 1000));
    assert_eq!(normalized(v(1, 1)), v(707, 707));
    assert_eq!(normalized(v(10, 10)), v(707, 707));
    assert_eq!(normalized(v(-1, 2)), v(-447, 894));
}

#[test]
fn normalized_short_inputs_have_unit_length() {
    for x in -5i64..=5 {
        for y in -5i64..=5 {
            if x == 0 && y == 0 {
                continue;
            }
            let r = normalized(v(x, y));
            let sq = r.x * r.x + r.y * r.y;
            assert!(sq <= UNIT * UNIT, "{:?}", r);
            assert!(sq >= (UNIT - 3) * (UNIT - 3), "{:?}", r);
        }
    }
}

#[test]
fn isqrt_rounds_down() {
    assert_eq!(isqrt(0), 0);
    assert_eq!(isqrt(1), 1);
    assert_eq!(isqrt(15), 3);
    assert_eq!(isqrt(16), 4);
    assert_eq!(isqrt(8_000_000_000_000_000_000), 2_828_427_124);
}

#[test]
fn move_towards_steps_and_stops_at_target() {
    assert_eq!(move_towards(v(0, 0), v(10_000, 0), 3000), v(3000, 0));
    assert_eq!(move_towards(v(0, 0), v(10_000, 0), 10_000), v(10_000, 0));
    assert_eq!(move_towards(v(0, 0), v(3000, 4000), 2500), v(1500, 2000));
    assert_eq!(move_towards(v(5, 5), v(5, 5), 0), v(5, 5));
    // a step of one unit always moves every coordinate that differs
    assert_eq!(move_towards(v(3, 3), v(0, 0), 1), v(2, 2));
}

#[test]
fn distance_and_direction() {
    assert_eq!(distance_to(v(1000, 1000), v(4000, 5000)), 5000);
    assert_eq!(direction_to(v(1000, 1000), v(4000, 5000)), v(600, 800));
    assert_eq!(direction_to(v(1000, 1000), v(1000, 1000)), v(0, 0));
}

#[test]
fn scale_and_add_clamp() {
    assert_eq!(scale(v(1000, -1000), 120, 1), v(120_000, -120_000));
    assert_eq!(scale(v(-7, 9), 4, 5), v(-5, 7));
    assert_eq!(scale(v(MAX_COORD, 0), 2, 1), v(MAX_COORD, 0));
    assert_eq!(add_clamped(v(MAX_COORD, 1), v(5, 2)), v(MAX_COORD, 3));
    assert_eq!(step_amount(200 * UNIT, 16), 3200);
}

#[test]
fn stats_damage_clamps_at_zero_and_notifies_once() {
    let mut s = Stats::new(3);
    assert!(!s.take_damage(1));
    assert_eq!(s.health(), 2);
    assert!(s.take_damage(5));
    assert_eq!(s.health(), 0);
    assert!(!s.take_damage(1));
    assert_eq!(s.health(), 0);
    assert_eq!(s.max_health(), 3);
}

#[test]
fn stats_set_health_clamps() {
    let mut s = Stats::new(4);
    assert!(!s.set_health(9));
    assert_eq!(s.health(), 4);
    assert!(s.set_health(-2));
    assert_eq!(s.health(), 0);
}

#[test]
fn hitbox_defaults() {
    let h = Hitbox::new();
    assert_eq!(h.get_hitbox_damage(), 1);
    assert_eq!(h.knockback_vector, v(0, 0));
}

#[test]
fn player_hit_scenario() {
    let mut player = Player::new();
    let mut stats = Stats::new(5);
    let r = player.on_hurtbox_area_entered(&mut stats, &hitbox(2, v(1000, 0)));
    assert_eq!(stats.health(), 3);
    assert!(!r.no_health);
    assert_eq!(player.knockback, v(1000, 0));
    assert_eq!(r.invincibility_ms, PLAYER_INVINCIBILITY_MS);
}

#[test]
fn bat_death_scenario() {
    let mut bat = Bat::new(1);
    let r = bat.on_hurtbox_area_entered(&hitbox(1, v(0, -1000)));
    assert_eq!(bat.stats.health(), 0);
    assert!(r.no_health);
    assert_eq!(r.invincibility_ms, INVINCIBILITY_MS);
    assert_eq!(bat.knockback, v(0, -120_000));
    let again = bat.on_hurtbox_area_entered(&hitbox(1, v(0, -1000)));
    assert!(!again.no_health);
    assert_eq!(bat.stats.health(), 0);
    let effect = bat.on_stats_no_health(v(12_000, 34_000));
    assert_eq!(effect, v(12_000, 34_000));
    assert!(bat.removed);
}

#[test]
fn bat_idle_decay_does_not_overshoot() {
    let mut bat = Bat::new(2);
    bat.velocity = v(3000, -4000);
    let t = bat.physics_process(senses(v(0, 0)), 10);
    // friction 200 px/s over 10 ms: two pixels
    assert_eq!(t.velocity, v(1800, -2400));
    assert!(!t.restart_wander_timer);
    assert_eq!(bat.state, BatState::Idle);
    let t = bat.physics_process(senses(v(0, 0)), 1000);
    assert_eq!(t.velocity, v(0, 0));
}

#[test]
fn bat_knockback_decays() {
    let mut bat = Bat::new(2);
    bat.knockback = v(100_000, 0);
    bat.decay_knockback(100);
    assert_eq!(bat.knockback, v(80_000, 0));
    bat.resolve_knockback(v(70_000, 0));
    assert_eq!(bat.knockback, v(70_000, 0));
}

#[test]
fn bat_chase_steers_toward_player() {
    let mut bat = Bat::new(2);
    bat.on_player_detection_zone_body_entered();
    assert_eq!(bat.state, BatState::Chase);
    let mut s = senses(v(0, 0));
    s.player_position = v(-10_000, 0);
    s.wander_timer_done = true;
    let t = bat.physics_process(s, 100);
    // acceleration 300 px/s over 100 ms toward a target 50 px/s to the left
    assert_eq!(t.velocity, v(-30_000, 0));
    assert_eq!(t.flip_h, Some(true));
    assert!(!t.restart_wander_timer);
    assert_eq!(bat.state, BatState::Chase);
    bat.resolve_velocity(v(-20_000, 0));
    assert_eq!(bat.velocity, v(-20_000, 0));
    bat.on_player_detection_zone_body_exited();
    assert_eq!(bat.state, BatState::Idle);
}

#[test]
fn bat_wander_arrival_draws_new_state() {
    let mut bat = Bat::new(2);
    bat.state = BatState::Wander;
    let mut s = senses(v(0, 0));
    s.wander_target = v(3000, 0);
    let t = bat.physics_process(s, 100);
    assert!(t.restart_wander_timer);
    assert!(bat.state == BatState::Idle || bat.state == BatState::Wander);
    // distance 3 px over 100 ms: 300 thousandths toward 50 px/s
    assert_eq!(t.velocity, v(300, 0));
}

#[test]
fn bat_wander_far_target_keeps_wandering() {
    let mut bat = Bat::new(2);
    bat.state = BatState::Wander;
    let mut s = senses(v(0, 0));
    s.wander_target = v(0, 100_000);
    s.soft_push = Some(v(1000, 0));
    let t = bat.physics_process(s, 10);
    assert!(!t.restart_wander_timer);
    assert_eq!(bat.state, BatState::Wander);
    // one pixel toward the target, then a push of four pixels per second
    assert_eq!(t.velocity, v(4000, 1000));
}

#[test]
fn bat_ready_picks_idle_or_wander() {
    let mut bat = Bat::new(3);
    bat.stats.health = 1;
    let frame = bat.ready();
    assert!(frame < 4);
    assert_eq!(bat.stats.health(), 3);
    assert!(bat.state == BatState::Idle || bat.state == BatState::Wander);
}

#[test]
fn random_state_is_uniform() {
    let mut idle = 0u32;
    let trials = 10_000u32;
    for _ in 0..trials {
        match random_idle_or_wander() {
            BatState::Idle => idle += 1,
            BatState::Wander => {}
            BatState::Chase => panic!("chase is never drawn"),
        }
    }
    let freq = idle as f64 / trials as f64;
    assert!((freq - 0.5).abs() < 0.03, "idle frequency {}", freq);
}

#[test]
fn player_roll_velocity_and_exit() {
    let mut player = Player::new();
    player.velocity = v(5000, 5000);
    player.state = PlayerState::Roll;
    let t = player.physics_process(
        PlayerInput { strength: v(0, 0), roll_pressed: false, attack_pressed: false },
        16,
    );
    assert_eq!(t.velocity, v(0, 120_000));
    assert_eq!(t.animation, PlayerAnimation::Roll);
    assert!(t.slide);
    player.roll_animation_finished();
    assert_eq!(player.velocity, v(0, 96_000));
    assert_eq!(player.state, PlayerState::Move);
}

#[test]
fn player_move_accelerates_and_turns() {
    let mut player = Player::new();
    player.ready();
    assert_eq!(player.sword_hitbox.knockback_vector, v(0, 1000));
    let t = player.physics_process(
        PlayerInput { strength: v(-1000, 0), roll_pressed: true, attack_pressed: false },
        100,
    );
    // acceleration 500 px/s over 100 ms: 50 px/s, within the 80 px/s target
    assert_eq!(t.velocity, v(-50_000, 0));
    assert_eq!(t.animation, PlayerAnimation::Run);
    assert_eq!(t.blend_position, Some(v(-1000, 0)));
    assert_eq!(player.roll_vector, v(-1000, 0));
    assert_eq!(player.sword_hitbox.knockback_vector, v(-1000, 0));
    assert_eq!(player.state, PlayerState::Roll);
    player.player_move(v(-40_000, 0));
    assert_eq!(player.velocity, v(-40_000, 0));
}

#[test]
fn player_move_without_input_slows_down() {
    let mut player = Player::new();
    player.velocity = v(30_000, 0);
    let t = player.physics_process(
        PlayerInput { strength: v(0, 0), roll_pressed: true, attack_pressed: true },
        20,
    );
    assert_eq!(t.velocity, v(20_000, 0));
    assert_eq!(t.animation, PlayerAnimation::Idle);
    assert_eq!(t.blend_position, None);
    assert_eq!(player.roll_vector, v(0, 1000));
    assert_eq!(player.state, PlayerState::Attack);
}

#[test]
fn player_attack_stands_still() {
    let mut player = Player::new();
    player.velocity = v(30_000, 0);
    player.state = PlayerState::Attack;
    let t = player.physics_process(
        PlayerInput { strength: v(1000, 0), roll_pressed: false, attack_pressed: false },
        20,
    );
    assert_eq!(t.velocity, v(0, 0));
    assert!(!t.slide);
    assert_eq!(t.animation, PlayerAnimation::Attack);
    assert_eq!(player.state, PlayerState::Attack);
    player.attack_animation_finished();
    assert_eq!(player.state, PlayerState::Move);
}

#[test]
fn detection_zone_sees_only_player() {
    let mut zone = PlayerDetectionZone::new();
    assert!(!zone.can_see_player());
    zone.on_player_detection_zone_body_entered("Player".to_string());
    assert!(zone.can_see_player());
    zone.on_player_detection_zone_body_entered("Grass".to_string());
    assert!(!zone.can_see_player());
    zone.on_player_detection_zone_body_exited();
    assert!(!zone.can_see_player());
}

#[test]
fn pick_random_state_leaves_the_other_state() {
    for _ in 0..50 {
        let mut list = vec![BatState::Idle, BatState::Wander];
        let r = pick_random_state(&mut list);
        let other = if r == BatState::Idle { BatState::Wander } else { BatState::Idle };
        assert_eq!(list, vec![other]);
    }
}

#[test]
fn player_knockback_decays() {
    let mut player = Player::new();
    let mut stats = Stats::new(5);
    player.on_hurtbox_area_entered(&mut stats, &hitbox(1, v(0, 150_000)));
    assert_eq!(player.knockback, v(0, 150_000));
    player.decay_knockback(250);
    assert_eq!(player.knockback, v(0, 100_000));
    player.resolve_knockback(v(0, 90_000));
    assert_eq!(player.knockback, v(0, 90_000));
    player.decay_knockback(1000);
    assert_eq!(player.knockback, v(0, 0));
}
