use the_hat_chooses_the_wizard::enemies::{
    Enemy, EnemyInfo, EnemyUpdateState, Slime, SlimeState, UpdateState,
};
use the_hat_chooses_the_wizard::entity::{CollisionMask, SpriteSize};
use the_hat_chooses_the_wizard::level::{Level, TileProperty};
use the_hat_chooses_the_wizard::number::FixedNumber;
use the_hat_chooses_the_wizard::player::HatState;
use the_hat_chooses_the_wizard::vector::Vector2D;

fn raw(x: i32, y: i32) -> Vector2D {
    Vector2D::new(FixedNumber::from_raw(x), FixedNumber::from_raw(y))
}

/// A level of 30 by 20 tiles with a solid floor in row 19.
fn level() -> Level {
    let mut foreground = vec![0u16; 600];
    for x in 0..30 {
        foreground[19 * 30 + x] = 1;
    }
    let table =
        vec![TileProperty::Passable, TileProperty::Solid, TileProperty::Lethal, TileProperty::Goal];
    Level::new(vec![0u16; 600], foreground, 30, 20, table, vec![], (0, 0)).unwrap()
}

fn far() -> Vector2D {
    Vector2D::from_ints(220, 20)
}

#[test]
fn new_slime_rests() {
    let slime = Slime::new(Vector2D::from_ints(100, 145));
    assert_eq!(slime.state, SlimeState::Idle);
    assert_eq!(slime.enemy_info.entity.position, Vector2D::from_ints(100, 145));
    assert_eq!(slime.enemy_info.entity.velocity, Vector2D::zero());
    assert_eq!(slime.enemy_info.entity.collision_mask, CollisionMask { x: 14, y: 14 });
    assert_eq!(slime.enemy_info.entity.sprite.size, SpriteSize::S16x16);
    assert_eq!(Enemy::new_slime(Vector2D::from_ints(100, 145)), Enemy::Slime(slime));
    let info = EnemyInfo::new(Vector2D::from_ints(1, 2), CollisionMask { x: 4, y: 4 });
    assert_eq!(info.entity.position, Vector2D::from_ints(1, 2));
    assert_eq!(info.entity.sprite.size, SpriteSize::S8x8);
}

#[test]
fn default_slot_is_empty() {
    assert_eq!(Enemy::default(), Enemy::Empty);
}

#[test]
fn idle_slime_blinks() {
    let level = level();
    let mut slime = Slime::new(Vector2D::from_ints(100, 145));
    for timer in 0..64 {
        let request = slime.update(&level, far(), HatState::OnHead, timer);
        assert_eq!(request, UpdateState::Nothing);
        assert_eq!(slime.state, SlimeState::Idle);
        assert_eq!(slime.enemy_info.entity.sprite.tile_id, 76 + (timer as u16 / 16 % 2) * 4);
        assert_eq!(slime.enemy_info.entity.position, Vector2D::from_ints(100, 145));
    }
}

#[test]
fn slime_jumps_at_a_wizard_that_comes_near() {
    let level = level();
    let mut slime = Slime::new(Vector2D::from_ints(100, 145));
    // 64 pixels away is not near
    let request = slime.update(&level, Vector2D::from_ints(164, 145), HatState::OnHead, 5);
    assert_eq!((request, slime.state), (UpdateState::Nothing, SlimeState::Idle));
    // a little less is
    let request = slime.update(&level, raw(164 * 1024 - 40, 145 * 1024), HatState::OnHead, 6);
    assert_eq!(request, UpdateState::Nothing);
    assert_eq!(slime.state, SlimeState::Jumping(6));
    assert_eq!(slime.enemy_info.entity.velocity, raw(256, 0));
    assert_eq!(slime.enemy_info.entity.position, raw(100 * 1024 + 256, 145 * 1024));

    let mut slime = Slime::new(Vector2D::from_ints(100, 145));
    slime.update(&level, Vector2D::from_ints(60, 145), HatState::Thrown, 9);
    assert_eq!(slime.state, SlimeState::Jumping(9));
    assert_eq!(slime.enemy_info.entity.velocity, raw(-256, 0));
    assert_eq!(slime.enemy_info.entity.position, raw(100 * 1024 - 256, 145 * 1024));
}

#[test]
fn jump_lasts_28_frames_and_plays_its_images_there_and_back() {
    let level = level();
    let mut slime = Slime::new(Vector2D::from_ints(100, 145));
    slime.update(&level, Vector2D::from_ints(140, 145), HatState::OnHead, 100);
    assert_eq!(slime.state, SlimeState::Jumping(100));
    let images = [0u16, 1, 2, 3, 3, 2, 1];
    for timer in 101..128 {
        let request = slime.update(&level, far(), HatState::OnHead, timer);
        assert_eq!(request, UpdateState::Nothing);
        assert_eq!(slime.state, SlimeState::Jumping(100));
        let image = images[((timer - 100) / 4) as usize];
        assert_eq!(slime.enemy_info.entity.sprite.tile_id, 80 + image * 4);
        assert_eq!(slime.enemy_info.entity.velocity, raw(256, 0));
    }
    // 27 frames of a quarter pixel after the frame of the start
    assert_eq!(slime.enemy_info.entity.position, raw(100 * 1024 + 28 * 256, 145 * 1024));
    let request = slime.update(&level, far(), HatState::OnHead, 128);
    assert_eq!(request, UpdateState::Nothing);
    assert_eq!(slime.state, SlimeState::Idle);
    assert_eq!(slime.enemy_info.entity.velocity, Vector2D::zero());
    assert_eq!(slime.enemy_info.entity.position, raw(100 * 1024 + 28 * 256, 145 * 1024));
}

#[test]
fn slime_kills_a_wizard_that_touches_it() {
    let level = level();
    for hat_state in [HatState::OnHead, HatState::Thrown] {
        let mut slime = Slime::new(Vector2D::from_ints(100, 145));
        let request = slime.update(&level, Vector2D::from_ints(110, 140), hat_state, 3);
        assert_eq!(request, UpdateState::KillPlayer);
        // the slime has seen the wizard, and does not move in this frame
        assert_eq!(slime.state, SlimeState::Jumping(3));
        assert_eq!(slime.enemy_info.entity.position, Vector2D::from_ints(100, 145));

        let mut slime = Slime::new(Vector2D::from_ints(100, 145));
        slime.state = SlimeState::Jumping(0);
        let request = slime.update(&level, Vector2D::from_ints(110, 140), hat_state, 3);
        assert_eq!(request, UpdateState::KillPlayer);
    }
    // 16 pixels away is no touch
    let mut slime = Slime::new(Vector2D::from_ints(100, 145));
    let request = slime.update(&level, Vector2D::from_ints(116, 145), HatState::OnHead, 3);
    assert_eq!(request, UpdateState::Nothing);
}

#[test]
fn slime_dies_under_a_wizard_that_is_pulled_to_its_hat() {
    let level = level();
    let mut slime = Slime::new(Vector2D::from_ints(100, 145));
    let request = slime.update(&level, Vector2D::from_ints(105, 140), HatState::WizardTowards, 40);
    assert_eq!(request, UpdateState::Nothing);
    assert_eq!(slime.state, SlimeState::Dying(40));
    // it still moves in the frame in which it is hit
    assert_eq!(slime.enemy_info.entity.position, raw(100 * 1024 + 256, 145 * 1024));

    for timer in 41..56 {
        let request = slime.update(&level, Vector2D::from_ints(105, 140), HatState::OnHead, timer);
        assert_eq!(request, UpdateState::Nothing);
        assert_eq!(slime.state, SlimeState::Dying(40));
        assert_eq!(slime.enemy_info.entity.velocity, Vector2D::zero());
        assert_eq!(slime.enemy_info.entity.sprite.tile_id, 96 + ((timer - 40) / 4 * 4) as u16);
        assert_eq!(slime.enemy_info.entity.position, raw(100 * 1024 + 256, 145 * 1024));
    }
    let request = slime.update(&level, Vector2D::from_ints(105, 140), HatState::OnHead, 56);
    assert_eq!(request, UpdateState::Remove);
}

#[test]
fn a_dying_slime_kills_nobody() {
    let level = level();
    let mut slime = Slime::new(Vector2D::from_ints(100, 145));
    slime.state = SlimeState::Dying(10);
    let request = slime.update(&level, Vector2D::from_ints(100, 145), HatState::OnHead, 11);
    assert_eq!(request, UpdateState::Nothing);
}

#[test]
fn a_wizard_far_away_is_not_near() {
    let level = level();
    let mut slime = Slime::new(Vector2D::from_ints(100, 145));
    // further away than a distance can be measured
    for &(x, y) in [(2_000_000, 145), (-2_000_000, 145), (100, 2_000_000), (1124, 145), (100, -900)].iter() {
        assert!(!slime.player_within(Vector2D::from_ints(x, y), 64));
        let request = slime.update(&level, Vector2D::from_ints(x, y), HatState::OnHead, 1);
        assert_eq!((request, slime.state), (UpdateState::Nothing, SlimeState::Idle));
    }
    assert!(slime.player_within(Vector2D::from_ints(100, 145), 1));
    assert!(!slime.player_within(Vector2D::from_ints(100, 145), 0));
    assert!(slime.player_within(Vector2D::from_ints(1000, 145), 1024));
}

#[test]
fn slime_stops_at_a_wall() {
    let level = level();
    // the level ends at x = 240; the mask of the slime reaches 6 pixels to
    // the right
    let mut slime = Slime::new(raw(233 * 1024 + 900, 145 * 1024));
    slime.update(&level, Vector2D::from_ints(239, 100), HatState::OnHead, 1);
    assert_eq!(slime.state, SlimeState::Jumping(1));
    assert_eq!(slime.enemy_info.entity.velocity, raw(256, 0));
    assert_eq!(slime.enemy_info.entity.position, raw(233 * 1024 + 900, 145 * 1024));
}

#[test]
fn enemy_update_frees_the_slot_of_a_dead_slime() {
    let level = level();
    let mut enemy = Enemy::new_slime(Vector2D::from_ints(100, 145));
    let message = enemy.update(&level, Vector2D::from_ints(105, 145), HatState::WizardTowards, 7);
    assert_eq!(message, EnemyUpdateState::Nothing);
    for timer in 8..23 {
        let message = enemy.update(&level, far(), HatState::OnHead, timer);
        assert_eq!(message, EnemyUpdateState::Nothing);
        assert!(matches!(enemy, Enemy::Slime(_)));
    }
    let message = enemy.update(&level, far(), HatState::OnHead, 23);
    assert_eq!(message, EnemyUpdateState::Nothing);
    assert_eq!(enemy, Enemy::Empty);
}

#[test]
fn enemy_update_passes_the_kill_on() {
    let level = level();
    let mut enemy = Enemy::new_slime(Vector2D::from_ints(100, 145));
    let message = enemy.update(&level, Vector2D::from_ints(105, 145), HatState::OnHead, 7);
    assert_eq!(message, EnemyUpdateState::KillPlayer);
    assert!(matches!(enemy, Enemy::Slime(_)));
}

#[test]
fn an_empty_slot_is_inert() {
    let level = level();
    let mut enemy = Enemy::Empty;
    for timer in 0..40 {
        let message = enemy.update(&level, Vector2D::from_ints(100, 145), HatState::OnHead, timer);
        assert_eq!(message, EnemyUpdateState::Nothing);
        assert_eq!(enemy, Enemy::Empty);
        enemy.commit(Vector2D::from_ints(timer, 3));
        assert_eq!(enemy, Enemy::Empty);
        assert!(!enemy.collides_with_hat(Vector2D::from_ints(100, 145)));
    }
}

#[test]
fn a_removed_slime_is_no_longer_in_the_way() {
    let level = level();
    let mut enemy = Enemy::new_slime(Vector2D::from_ints(100, 145));
    assert!(enemy.collides_with_hat(Vector2D::from_ints(100, 145)));
    enemy.update(&level, Vector2D::from_ints(105, 145), HatState::WizardTowards, 0);
    for timer in 1..=16 {
        enemy.update(&level, far(), HatState::OnHead, timer);
    }
    assert_eq!(enemy, Enemy::Empty);
    assert!(!enemy.collides_with_hat(Vector2D::from_ints(100, 145)));
}

#[test]
fn commit_places_the_sprite_of_a_slime() {
    let mut enemy = Enemy::new_slime(Vector2D::from_ints(100, 145));
    enemy.commit(Vector2D::from_ints(30, 20));
    match enemy {
        Enemy::Slime(slime) => {
            assert_eq!(slime.enemy_info.entity.sprite.x, 62);
            assert_eq!(slime.enemy_info.entity.sprite.y, 117);
            assert!(slime.enemy_info.entity.sprite.visible);
            assert_eq!(slime.state, SlimeState::Idle);
        }
        Enemy::Empty => panic!("the slime is gone"),
    }
    let mut enemy = Enemy::new_slime(Vector2D::from_ints(100, 145));
    enemy.commit(Vector2D::from_ints(130, 20));
    match enemy {
        Enemy::Slime(slime) => assert!(!slime.enemy_info.entity.sprite.visible),
        Enemy::Empty => panic!("the slime is gone"),
    }
}
