use game_thing::attacks::{Attack, AttackKind, Basic, CurrentAttack, Split};
use game_thing::collision::{
    collide, collide_enemies, collide_fireballs, collide_player, resolve, Body, Collidable,
    Collider, Collision,
};
use game_thing::gameplay::{
    harden, move_enemies, move_sys, spawn_enemies, spawn_fireball, spawn_powerups,
    spawner_animate, DifficultyTimer, Elapsed, Enemy, EnemyTimer, FireballTimer, Keys, Player,
    ENEMY_SPEED, PLAYER_LIMIT_X, PLAYER_LIMIT_Y,
};
use game_thing::geometry::{div_floor, isqrt, Hitbox, Point};
use game_thing::level::{mouse_sys, setup, spawn_timer};
use game_thing::projectile::Fireball;
use game_thing::timer::Timer;
use game_thing::ui::{player_hit_handler, Heart, Index, PlayerHP};

fn pt(x: i32, y: i32) -> Point {
    Point { x, y }
}

fn no_keys() -> Keys {
    Keys {
        a: false,
        d: false,
        w: false,
        s: false,
        shift: false,
        up: false,
        down: false,
        left: false,
        right: false,
    }
}

fn body(x: i32, y: i32, w: u32, h: u32) -> Body {
    Body { pos: pt(x, y), size: Hitbox { w, h } }
}

#[test]
fn integer_square_root() {
    assert_eq!(isqrt(0), 0);
    assert_eq!(isqrt(1), 1);
    assert_eq!(isqrt(15), 3);
    assert_eq!(isqrt(16), 4);
    assert_eq!(isqrt(20_000_000_000), 141_421);
}

#[test]
fn floor_division_rounds_down() {
    assert_eq!(div_floor(7, 2), 3);
    assert_eq!(div_floor(-7, 2), -4);
    assert_eq!(div_floor(-2000, 2000), -1);
    assert_eq!(div_floor(-1, 2000), -1);
    assert_eq!(div_floor(i64::MIN, 1), i64::MIN);
}

#[test]
fn player_moves_by_speed_and_time() {
    let p = Player::new(200);
    let mut keys = no_keys();
    keys.d = true;
    let (pos, ret) = move_sys(&p, pt(0, 0), &keys, 1000);
    assert_eq!(pos, pt(200_000, 0));
    assert_eq!(ret, pt(200_000, 0));
    keys.shift = true;
    keys.w = true;
    let (pos, _) = move_sys(&p, pt(0, 0), &keys, 1000);
    assert_eq!(pos, pt(300_000, 300_000));
    let mut keys = no_keys();
    keys.a = true;
    keys.s = true;
    let (pos, _) = move_sys(&p, pt(0, 0), &keys, 100);
    assert_eq!(pos, pt(-20_000, -20_000));
}

#[test]
fn player_stays_on_screen() {
    let p = Player::new(u32::MAX);
    let mut keys = no_keys();
    keys.d = true;
    keys.s = true;
    keys.shift = true;
    let (pos, _) = move_sys(&p, pt(i32::MAX, i32::MIN), &keys, u32::MAX);
    assert_eq!(pos, pt(PLAYER_LIMIT_X, -PLAYER_LIMIT_Y));
    let (pos, _) = move_sys(&p, pt(i32::MIN, i32::MAX), &no_keys(), 0);
    assert_eq!(pos, pt(-624_000, 344_000));
    for dt in [0u32, 1, 16, 1000, 100_000] {
        let mut keys = no_keys();
        keys.a = true;
        keys.w = true;
        let (pos, _) = move_sys(&Player::new(500), pt(600_000, -300_000), &keys, dt);
        assert!(pos.x >= -PLAYER_LIMIT_X && pos.x <= PLAYER_LIMIT_X);
        assert!(pos.y >= -PLAYER_LIMIT_Y && pos.y <= PLAYER_LIMIT_Y);
    }
}

#[test]
fn reticle_follows_aim_keys() {
    let p = Player::new(200);
    let mut keys = no_keys();
    keys.up = true;
    keys.down = true;
    keys.left = true;
    let (pos, ret) = move_sys(&p, pt(5_000, 7_000), &keys, 0);
    assert_eq!(pos, pt(5_000, 7_000));
    assert_eq!(ret, pt(-95_000, 107_000));
    let mut keys = no_keys();
    keys.down = true;
    keys.right = true;
    let (_, ret) = move_sys(&p, pt(0, 0), &keys, 0);
    assert_eq!(ret, pt(100_000, -100_000));
    let (_, ret) = move_sys(&p, pt(1, 2), &no_keys(), 0);
    assert_eq!(ret, pt(1, 2));
}

#[test]
fn split_fires_three_symmetric_shots() {
    let origin = pt(0, 0);
    let target = pt(0, 100_000);
    let shots = Split.attack(origin, target);
    assert_eq!(shots.len(), 3);
    assert_eq!(shots[0].target, pt(7_071, 107_071));
    assert_eq!(shots[1].target, pt(-7_071, 92_929));
    assert_eq!(shots[2].target, target);
    for s in shots.iter() {
        assert_eq!(s.origin, origin);
    }
    assert_eq!(shots[0].target.x - target.x, target.x - shots[1].target.x);
    assert_eq!(shots[0].target.y - target.y, target.y - shots[1].target.y);
}

#[test]
fn split_at_own_origin_has_no_spread() {
    let shots = Split.attack(pt(3_000, 4_000), pt(3_000, 4_000));
    assert_eq!(shots.len(), 3);
    for s in shots.iter() {
        assert_eq!(s.target, pt(3_000, 4_000));
    }
}

#[test]
fn split_sideways_offsets_are_symmetric() {
    let origin = pt(10_000, 10_000);
    let target = pt(110_000, 10_000);
    let shots = AttackKind::Split(Split).attack(origin, target);
    assert_eq!(shots.len(), 3);
    assert_eq!(shots[0].target.x - target.x, target.x - shots[1].target.x);
    assert_eq!(shots[0].target.y - target.y, target.y - shots[1].target.y);
    assert_ne!(shots[0].target, target);
}

#[test]
fn basic_fires_one_shot_at_target() {
    for (o, t) in [(pt(0, 0), pt(0, 100_000)), (pt(-5, 9), pt(123, -456)), (pt(1, 1), pt(1, 1))] {
        let shots = Basic.attack(o, t);
        assert_eq!(shots.len(), 1);
        assert_eq!(shots[0], Fireball { origin: o, target: t });
        let shots = CurrentAttack(AttackKind::Basic(Basic)).0.attack(o, t);
        assert_eq!(shots.len(), 1);
        assert_eq!(shots[0].target, t);
    }
}

#[test]
fn fireball_travels_at_its_speed() {
    let f = Fireball { origin: pt(0, 0), target: pt(100_000, 0) };
    assert_eq!(f.advance(pt(0, 0), 1000), Some(pt(500_000, 0)));
    let f = Fireball { origin: pt(0, 0), target: pt(0, -3_000) };
    assert_eq!(f.advance(pt(0, 0), 100), Some(pt(0, -50_000)));
    let f = Fireball { origin: pt(0, 0), target: pt(3_000, 4_000) };
    assert_eq!(f.advance(pt(0, 0), 10), Some(pt(3_000, 4_000)));
}

#[test]
fn fireball_keeps_its_direction() {
    let f = Fireball { origin: pt(0, 0), target: pt(100_000, 0) };
    assert_eq!(f.advance(pt(50_000, 70_000), 2), Some(pt(51_000, 70_000)));
}

#[test]
fn fireball_without_direction_stays_put() {
    let f = Fireball { origin: pt(7, 7), target: pt(7, 7) };
    assert_eq!(f.advance(pt(1_000, 2_000), 1000), Some(pt(1_000, 2_000)));
}

#[test]
fn fireball_removed_only_past_margin() {
    let f = Fireball { origin: pt(0, 0), target: pt(1_000, 0) };
    assert_eq!(f.advance(pt(739_000, 0), 1), Some(pt(739_500, 0)));
    assert_eq!(f.advance(pt(739_500, 0), 1), Some(pt(740_000, 0)));
    assert_eq!(f.advance(pt(740_000, 0), 1), None);
    let f = Fireball { origin: pt(0, 0), target: pt(0, -1_000) };
    assert_eq!(f.advance(pt(0, -459_500), 1), Some(pt(0, -460_000)));
    assert_eq!(f.advance(pt(0, -460_000), 1), None);
    let f = Fireball { origin: pt(0, 0), target: pt(-1_000, 0) };
    assert_eq!(f.advance(pt(-740_000, 0), 0), Some(pt(-740_000, 0)));
    assert_eq!(f.advance(pt(-740_001, 0), 0), None);
    let f = Fireball { origin: pt(0, 0), target: pt(0, 1_000) };
    assert_eq!(f.advance(pt(0, 460_001), 0), None);
}

#[test]
fn collide_reports_each_side() {
    let b = body(0, 0, 32_000, 32_000);
    assert_eq!(collide(&body(-20_000, 5_000, 16_000, 16_000), &b), Some(Collision::Left));
    assert_eq!(collide(&body(20_000, 5_000, 16_000, 16_000), &b), Some(Collision::Right));
    assert_eq!(collide(&body(5_000, 20_000, 16_000, 16_000), &b), Some(Collision::Top));
    assert_eq!(collide(&body(5_000, -20_000, 16_000, 16_000), &b), Some(Collision::Bottom));
    assert_eq!(collide(&body(40_000, 0, 16_000, 16_000), &b), None);
    assert_eq!(collide(&body(0, 0, 8_000, 8_000), &b), None);
    assert_eq!(collide(&body(24_000, 0, 16_000, 16_000), &b), None);
}

#[test]
fn collide_picks_shallower_axis() {
    let b = body(0, 0, 32_000, 32_000);
    assert_eq!(collide(&body(20_000, 22_000, 16_000, 16_000), &b), Some(Collision::Top));
    assert_eq!(collide(&body(22_000, 20_000, 16_000, 16_000), &b), Some(Collision::Right));
    assert_eq!(collide(&body(21_000, 21_000, 16_000, 16_000), &b), Some(Collision::Right));
}

#[test]
fn top_push_removes_overlap_and_floors() {
    let solid = body(0, 0, 32_000, 32_000);
    let player = body(0, 30_000, 32_000, 32_000);
    assert_eq!(collide(&player, &solid), Some(Collision::Top));
    let p = resolve(&player, &solid, Collision::Top, false);
    assert_eq!(p, pt(0, 32_000));
    let solid = body(0, 500, 32_000, 32_000);
    let p = resolve(&player, &solid, Collision::Top, false);
    assert_eq!(p, pt(0, 32_000));
    let again = resolve(&Body { pos: p, size: player.size }, &solid, Collision::Top, false);
    assert_eq!(again, p);
    let p = resolve(&player, &body(0, -1_500, 32_000, 32_000), Collision::Top, false);
    assert_eq!(p, pt(0, 30_000));
}

#[test]
fn push_out_each_side() {
    let solid = body(10_000, 10_000, 20_000, 20_000);
    let a = body(0, 0, 10_000, 10_000);
    assert_eq!(resolve(&a, &solid, Collision::Bottom, false), pt(0, -5_000));
    assert_eq!(resolve(&a, &solid, Collision::Left, false), pt(-5_000, 0));
    assert_eq!(resolve(&a, &solid, Collision::Right, false), pt(25_000, 0));
    let a = body(0, 0, 10_001, 10_001);
    assert_eq!(resolve(&a, &solid, Collision::Right, false), pt(25_000, 0));
    assert_eq!(resolve(&a, &solid, Collision::Right, true), pt(26_000, 0));
    assert_eq!(resolve(&a, &solid, Collision::Left, true), pt(-5_000, 0));
    assert_eq!(resolve(&a, &solid, Collision::Left, false), pt(-6_000, 0));
}

#[test]
fn resolved_pair_is_left_alone() {
    let solid = Collidable { body: body(0, 0, 32_000, 32_000), collider: Collider::Solid };
    let player = body(0, 30_000, 32_000, 32_000);
    let first = collide_player(&player, &vec![solid]);
    assert_eq!(first.pos, pt(0, 32_000));
    assert_eq!(first.hits, vec![false]);
    let second = collide_player(&Body { pos: first.pos, size: player.size }, &vec![solid]);
    assert_eq!(second.pos, first.pos);
}

#[test]
fn player_hit_by_enemy_not_moved() {
    let player = body(0, 0, 32_000, 32_000);
    let others = vec![
        Collidable { body: body(20_000, 0, 32_000, 32_000), collider: Collider::Enemy },
        Collidable { body: body(20_000, 0, 32_000, 32_000), collider: Collider::Projectile },
        Collidable { body: body(500_000, 0, 32_000, 32_000), collider: Collider::Enemy },
    ];
    let r = collide_player(&player, &others);
    assert_eq!(r.pos, pt(0, 0));
    assert_eq!(r.hits, vec![true, false, false]);
}

#[test]
fn player_pushes_apply_in_order() {
    let player = body(0, 0, 20_000, 20_000);
    let others = vec![
        Collidable { body: body(0, -15_000, 20_000, 20_000), collider: Collider::Solid },
        Collidable { body: body(0, 24_000, 20_000, 20_000), collider: Collider::Enemy },
    ];
    let r = collide_player(&player, &others);
    assert_eq!(r.pos, pt(0, 5_000));
    assert_eq!(r.hits, vec![false, true]);
}

#[test]
fn three_enemies_check_one_pair() {
    let mut enemies = vec![
        body(0, 0, 20_000, 20_000),
        body(15_000, 1_000, 20_000, 20_000),
        body(20_000, 0, 20_000, 20_000),
    ];
    collide_enemies(&mut enemies);
    assert_eq!(enemies[0].pos, pt(-5_000, 0));
    assert_eq!(enemies[1], body(15_000, 1_000, 20_000, 20_000));
    assert_eq!(enemies[2], body(20_000, 0, 20_000, 20_000));
}

#[test]
fn enemy_pairs_round_down() {
    let mut enemies = vec![
        body(0, 0, 20_000, 20_000),
        body(15_500, 1_000, 20_000, 20_000),
        body(100_000, 100_000, 20_000, 20_000),
        body(300_000, 300_000, 20_000, 20_000),
    ];
    collide_enemies(&mut enemies);
    assert_eq!(enemies[0].pos, pt(-5_000, 0));
    assert_eq!(enemies[2].pos, pt(100_000, 100_000));
    let mut none: Vec<Body> = Vec::new();
    collide_enemies(&mut none);
    assert!(none.is_empty());
}

#[test]
fn enemy_top_push_floors() {
    let mut enemies = vec![body(0, 20_000, 16_000, 15_000), body(0, 0, 32_000, 32_000)];
    assert_eq!(collide(&enemies[0], &enemies[1]), Some(Collision::Top));
    collide_enemies(&mut enemies);
    assert_eq!(enemies[0].pos, pt(0, 23_000));
    assert_eq!(enemies[1], body(0, 0, 32_000, 32_000));
}

#[test]
fn fireball_hits() {
    let balls = vec![body(-8_000, 0, 8_000, 8_000), body(100_000, 0, 8_000, 8_000), body(-200_000, 0, 8_000, 8_000)];
    let others = vec![
        Collidable { body: body(5_000, 0, 20_000, 20_000), collider: Collider::Enemy },
        Collidable { body: body(100_000, 9_000, 20_000, 20_000), collider: Collider::Solid },
        Collidable { body: body(-200_000, 3_000, 20_000, 20_000), collider: Collider::Projectile },
        Collidable { body: body(900_000, 0, 20_000, 20_000), collider: Collider::Enemy },
    ];
    let r = collide_fireballs(&balls, &others);
    assert_eq!(r.balls, vec![true, true, false]);
    assert_eq!(r.targets, vec![true, false, false, false]);
}

#[test]
fn timer_repeats_and_counts() {
    let mut t = Timer::from_millis(100, true);
    t.tick(50);
    assert!(!t.finished() && !t.just_finished());
    t.tick(260);
    assert!(t.finished() && t.just_finished());
    assert_eq!(t.times_finished, 3);
    assert_eq!(t.elapsed_ms, 10);
    t.tick(10);
    assert!(!t.finished());
    let mut once = Timer::from_millis(100, false);
    once.tick(150);
    assert!(once.finished() && once.just_finished());
    assert_eq!(once.elapsed_ms, 100);
    once.tick(10);
    assert!(once.finished() && !once.just_finished());
    let mut p = Timer::from_millis(100, true);
    p.pause();
    p.tick(500);
    assert_eq!(p.elapsed_ms, 0);
    p.unpause();
    p.tick(u64::MAX);
    assert_eq!(p.elapsed_ms, u64::MAX % 100);
}

#[test]
fn difficulty_floor() {
    let mut t = Timer::from_millis(2_000, true);
    assert!(harden(&mut t));
    assert!(harden(&mut t));
    assert!(harden(&mut t));
    assert_eq!(t.duration(), 500);
    assert!(!harden(&mut t));
    assert_eq!(t.duration(), 500);
}

#[test]
fn difficulty_never_passes_floor() {
    let mut t = Timer::from_millis(700, true);
    t.tick(300);
    assert!(harden(&mut t));
    assert_eq!(t.duration(), 500);
    assert_eq!(t.elapsed_ms, 300);
    assert!(!harden(&mut t));
    assert_eq!(t.duration(), 500);
    let mut low = Timer::from_millis(200, true);
    assert!(!harden(&mut low));
    assert_eq!(low.duration(), 200);
    let mut t = Timer::from_millis(1_000, true);
    assert!(harden(&mut t));
    assert_eq!(t.duration(), 500);
}

fn length(p: Point, q: Point) -> f64 {
    let dx = (p.x as f64) - (q.x as f64);
    let dy = (p.y as f64) - (q.y as f64);
    (dx * dx + dy * dy).sqrt()
}

#[test]
fn short_aim_keeps_fireball_speed() {
    for t in [pt(1, 1), pt(10, 10), pt(1, 0), pt(-3, 7), pt(2, -1), pt(400_000, 1)] {
        let f = Fireball { origin: pt(0, 0), target: t };
        let p = f.advance(pt(0, 0), 500).expect("stays on the field");
        let d = length(p, pt(0, 0));
        assert!((d - 250_000.0).abs() <= 2.0, "aim {:?} travelled {}", t, d);
    }
    let a = Fireball { origin: pt(0, 0), target: pt(1, 1) }.advance(pt(0, 0), 500).unwrap();
    let b = Fireball { origin: pt(0, 0), target: pt(10, 10) }.advance(pt(0, 0), 500).unwrap();
    assert!((a.x - b.x).abs() <= 1 && (a.y - b.y).abs() <= 1);
}

#[test]
fn short_aim_keeps_split_spread() {
    for t in [pt(0, 1), pt(1, 1), pt(-1, 0), pt(5, -3), pt(0, 100_000)] {
        let shots = Split.attack(pt(0, 0), t);
        assert_eq!(shots.len(), 3);
        for side in [shots[0].target, shots[1].target] {
            let d = length(side, t);
            assert!((d - 10_000.0).abs() <= 2.0, "aim {:?} spread {}", t, d);
        }
        assert_ne!(shots[0].target, shots[1].target);
    }
}

#[test]
fn short_chase_keeps_enemy_speed() {
    let e = Enemy { speed: ENEMY_SPEED };
    let p = e.chase(pt(0, 0), pt(1, 1), 100);
    let d = length(p, pt(0, 0));
    assert!((d - 17_500.0).abs() <= 2.0, "travelled {}", d);
}

#[test]
fn spawners_send_enemies_and_speed_up() {
    let mut diff = DifficultyTimer(Timer::from_millis(30_000, true));
    let mut timers = vec![EnemyTimer(spawn_timer()), EnemyTimer(Timer::from_millis(3_000, true))];
    let r = spawn_enemies(&mut diff, &mut timers, 2_000);
    assert_eq!(r.spawns, vec![true, false]);
    assert_eq!(r.harder, vec![false, false]);
    assert_eq!(timers[0].0.duration(), 2_000);
    let mut rises = 0;
    for _ in 0..14 {
        let r = spawn_enemies(&mut diff, &mut timers, 2_000);
        assert_eq!(r.spawns.len(), 2);
        if diff.0.finished() {
            assert_eq!(r.harder, vec![true, true]);
            rises += 1;
        }
    }
    assert_eq!(rises, 1);
    assert_eq!(timers[0].0.duration(), 1_500);
    assert_eq!(timers[1].0.duration(), 2_500);
    for _ in 0..3 {
        spawn_enemies(&mut diff, &mut timers, 30_000);
    }
    let r = spawn_enemies(&mut diff, &mut timers, 30_000);
    assert_eq!(r.harder, vec![false, true]);
    assert_eq!(timers[0].0.duration(), 500);
    assert_eq!(timers[1].0.duration(), 500);
}

#[test]
fn enemies_chase_player() {
    let enemies = vec![Enemy { speed: ENEMY_SPEED }, Enemy { speed: ENEMY_SPEED }];
    let mut positions = vec![pt(0, 0), pt(100_000, 0)];
    move_enemies(pt(100_000, 0), &enemies, &mut positions, 1000);
    assert_eq!(positions, vec![pt(175_000, 0), pt(100_000, 0)]);
    let e = Enemy { speed: 100 };
    assert_eq!(e.chase(pt(0, 0), pt(-3_000, 4_000), 10), pt(-600, 800));
}

#[test]
fn fire_control_paces_shots() {
    let mut timer = FireballTimer(Timer::from_millis(100, true));
    timer.0.pause();
    timer.0.reset();
    let attack = CurrentAttack(AttackKind::Basic(Basic));
    let mut keys = no_keys();
    keys.right = true;
    let shots = spawn_fireball(&mut timer, &keys, 16, &attack, pt(0, 0), pt(100_000, 0));
    assert_eq!(shots.len(), 1);
    assert!(!timer.0.paused());
    let shots = spawn_fireball(&mut timer, &keys, 50, &attack, pt(0, 0), pt(100_000, 0));
    assert!(shots.is_empty());
    let shots = spawn_fireball(&mut timer, &keys, 50, &attack, pt(0, 0), pt(100_000, 0));
    assert_eq!(shots.len(), 1);
    let split = CurrentAttack(AttackKind::Split(Split));
    let shots = spawn_fireball(&mut timer, &keys, 100, &split, pt(0, 0), pt(100_000, 0));
    assert_eq!(shots.len(), 3);
    let shots = spawn_fireball(&mut timer, &no_keys(), 100, &split, pt(0, 0), pt(100_000, 0));
    assert!(shots.is_empty());
    assert!(timer.0.paused());
    assert_eq!(timer.0.elapsed_ms, 0);
    let shots = spawn_fireball(&mut timer, &no_keys(), 100, &split, pt(0, 0), pt(100_000, 0));
    assert!(shots.is_empty());
}

#[test]
fn spawner_frames_cycle() {
    let mut t = Timer::from_millis(120, true);
    let mut frame: usize = 0;
    spawner_animate(&mut t, &mut frame, 3, 100);
    assert_eq!(frame, 0);
    spawner_animate(&mut t, &mut frame, 3, 20);
    assert_eq!(frame, 1);
    spawner_animate(&mut t, &mut frame, 3, 120);
    spawner_animate(&mut t, &mut frame, 3, 120);
    assert_eq!(frame, 0);
    let mut big = usize::MAX;
    spawner_animate(&mut t, &mut big, 3, 120);
    assert_eq!(big, (usize::MAX % 3 + 1) % 3);
}

#[test]
fn hp_starts_at_three() {
    assert_eq!(PlayerHP::default(), PlayerHP(3));
}

fn hearts() -> Vec<Heart> {
    vec![
        Heart { index: Index(0), frame: 0 },
        Heart { index: Index(1), frame: 0 },
        Heart { index: Index(2), frame: 0 },
    ]
}

#[test]
fn hits_turn_hearts() {
    let mut hp = PlayerHP::default();
    let mut h = hearts();
    player_hit_handler(&mut hp, 1, &mut h, 2);
    assert_eq!(hp, PlayerHP(2));
    assert_eq!(h[2].frame, 1);
    assert_eq!(h[1].frame, 0);
    player_hit_handler(&mut hp, 0, &mut h, 2);
    assert_eq!(hp, PlayerHP(2));
    player_hit_handler(&mut hp, 2, &mut h, 2);
    assert_eq!(hp, PlayerHP(0));
    assert_eq!(h.iter().map(|x| x.frame).collect::<Vec<_>>(), vec![1, 1, 1]);
}

#[test]
fn hits_stop_below_zero() {
    let mut hp = PlayerHP::default();
    let mut h = hearts();
    player_hit_handler(&mut hp, 10, &mut h, 2);
    assert_eq!(hp, PlayerHP(-1));
    assert_eq!(h.iter().map(|x| x.frame).collect::<Vec<_>>(), vec![1, 1, 1]);
    player_hit_handler(&mut hp, 10, &mut h, 2);
    assert_eq!(hp, PlayerHP(-2));
    assert_eq!(h.iter().map(|x| x.frame).collect::<Vec<_>>(), vec![1, 1, 1]);
    let mut low = PlayerHP(i16::MIN);
    player_hit_handler(&mut low, 3, &mut h, 2);
    assert_eq!(low, PlayerHP(i16::MIN));
}

#[test]
fn level_layout() {
    let level = setup();
    assert_eq!(level.player, Player { speed: 200, mod_x: 0, mod_y: 0 });
    assert_eq!(level.player_pos, pt(0, 0));
    assert_eq!(level.reticle_pos, pt(100_000, 0));
    assert!(level.fire_timer.0.paused());
    assert_eq!(level.fire_timer.0.duration(), 100);
    assert_eq!(level.difficulty.0.duration(), 30_000);
    assert_eq!(level.attack, CurrentAttack(AttackKind::Split(Split)));
    assert_eq!(
        level.spawners.iter().map(|s| s.pos).collect::<Vec<_>>(),
        vec![pt(-540_000, -260_000), pt(-540_000, 260_000), pt(540_000, -260_000), pt(540_000, 260_000)]
    );
    for s in level.spawners.iter() {
        assert_eq!(s.collider, Collider::Solid);
        assert_eq!(s.spawn_timer.0, Timer::from_millis(2_000, true));
        assert_eq!(s.frame_timer, Timer::from_millis(120, true));
        assert_eq!(s.frame, 0);
    }
    assert_eq!(
        level.hearts,
        vec![(pt(-620_000, 340_000), Index(0)), (pt(-584_000, 340_000), Index(1)), (pt(-548_000, 340_000), Index(2))]
    );
}

#[test]
fn mouse_tracks_cursor() {
    let mut pos = pt(10_000, 0);
    let mut delta = pt(0, 0);
    mouse_sys(&mut pos, &mut delta, &vec![pt(1_000, 2_000), pt(3_000, 4_000)], pt(100_000, 0));
    assert_eq!(pos, pt(103_000, 4_000));
    assert_eq!(delta, pt(184_000, 6_000));
    let mut same = pt(5, 5);
    let mut d = pt(1, 1);
    mouse_sys(&mut same, &mut d, &Vec::new(), pt(100_000, 0));
    assert_eq!((same, d), (pt(5, 5), pt(1, 1)));
}

#[test]
fn powerups_every_thirty_seconds_on_screen() {
    let mut e = Elapsed(0);
    assert!(spawn_powerups(&mut e, 29_999).is_none());
    assert_eq!(e, Elapsed(29_999));
    let mut xs = Vec::new();
    let mut ys = Vec::new();
    for i in 0..40 {
        let dt = if i == 0 { 1 } else { 30_000 };
        let r = spawn_powerups(&mut e, dt);
        let (p, pw) = r.expect("a powerup is due");
        assert_eq!(pw.attack, AttackKind::Split(Split));
        assert!(p.x >= -640_000 && p.x <= 640_000);
        assert!(p.y >= -360_000 && p.y <= 360_000);
        xs.push(p.x);
        ys.push(p.y);
        assert_eq!(e, Elapsed(0));
    }
    assert!(xs.iter().any(|&x| x != -640_000));
    assert!(ys.iter().any(|&y| y != -360_000));
    assert!(xs.iter().any(|&x| x != xs[0]));
}
