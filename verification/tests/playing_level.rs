use the_hat_chooses_the_wizard::enemies::{Enemy, SlimeState};
use the_hat_chooses_the_wizard::entity::Priority;
use the_hat_chooses_the_wizard::level::{Level, TileProperty};
use the_hat_chooses_the_wizard::number::FixedNumber;
use the_hat_chooses_the_wizard::player::{HatState, Input, Tri};
use the_hat_chooses_the_wizard::playing_level::{PlayingLevel, UpdateState};
use the_hat_chooses_the_wizard::sfx::{MusicBox, SfxPlayer, SoundEffect};
use the_hat_chooses_the_wizard::vector::Vector2D;

fn raw(x: i32, y: i32) -> Vector2D {
    Vector2D::new(FixedNumber::from_raw(x), FixedNumber::from_raw(y))
}

fn table() -> Vec<TileProperty> {
    vec![TileProperty::Passable, TileProperty::Solid, TileProperty::Lethal, TileProperty::Goal]
}

/// A level of 60 by 30 tiles with a solid floor in row 29, a pit of lethal
/// tiles in the background from column 20 to column 24 of the rows 24 to 28,
/// and goal tiles in column 50 of the rows 26 to 28.
fn level(slimes: Vec<(i32, i32)>, start: (i32, i32)) -> Level {
    let mut foreground = vec![0u16; 1800];
    let mut background = vec![0u16; 1800];
    for x in 0..60 {
        foreground[29 * 60 + x] = 1;
    }
    for y in 24..29 {
        for x in 20..25 {
            background[y * 60 + x] = 2;
        }
    }
    for y in 26..29 {
        foreground[y * 60 + 50] = 3;
    }
    Level::new(background, foreground, 60, 30, table(), slimes, start).unwrap()
}

fn sfx() -> SfxPlayer {
    SfxPlayer::new(&MusicBox::new())
}

fn frame(playing: &mut PlayingLevel, input: &Input) -> (UpdateState, Vec<SoundEffect>) {
    assert!(playing.can_update(input));
    let mut sounds = sfx();
    let state = playing.update_frame(input, &mut sounds);
    (state, sounds.queued)
}

fn camera_is_inside(playing: &PlayingLevel) -> bool {
    let camera = playing.background.position;
    0 <= camera.x.to_raw()
        && camera.x.to_raw() <= (60 * 8 - 240) * 1024
        && 0 <= camera.y.to_raw()
        && camera.y.to_raw() <= (30 * 8 - 160) * 1024
}

#[test]
fn open_level_places_the_wizard_and_the_slimes() {
    let playing = PlayingLevel::open_level(level(vec![(100, 225), (300, 225)], (40, 225)));
    assert_eq!(playing.timer, 0);
    assert_eq!(playing.background.position, Vector2D::zero());
    assert_eq!((playing.background.scroll_x, playing.background.scroll_y), (0, 0));
    assert_eq!(playing.player.wizard.position, Vector2D::from_ints(40, 225));
    assert_eq!(playing.player.hat_state, HatState::OnHead);
    assert_eq!(playing.enemies[0], Enemy::new_slime(Vector2D::from_ints(100, 225)));
    assert_eq!(playing.enemies[1], Enemy::new_slime(Vector2D::from_ints(300, 225)));
    for slot in 2..16 {
        assert_eq!(playing.enemies[slot], Enemy::Empty);
    }
    assert!(playing.can_update(&Input::idle()));
}

#[test]
fn open_level_leaves_out_the_slimes_beyond_the_sixteenth() {
    let slimes: Vec<(i32, i32)> = (0..20).map(|i| (40 + 20 * i, 225)).collect();
    let playing = PlayingLevel::open_level(level(slimes, (10, 225)));
    for slot in 0..16 {
        assert_eq!(
            playing.enemies[slot],
            Enemy::new_slime(Vector2D::from_ints(40 + 20 * slot as i32, 225))
        );
    }
}

#[test]
fn a_far_hat_can_rest_but_not_fly() {
    // the hat of a fresh player lies at the origin, far from the wizard
    let playing = PlayingLevel::open_level(level(vec![], (1000, 225)));
    assert!(playing.can_update(&Input::idle()));
    let press = Input { a_just_pressed: true, ..Input::idle() };
    assert!(playing.can_update(&press));
    let throw = Input { a_just_pressed: true, x_tri: Tri::Positive, ..Input::idle() };
    assert!(!playing.can_update(&throw));
    let mut playing = PlayingLevel::open_level(level(vec![], (1000, 225)));
    frame(&mut playing, &Input::idle());
    assert!(playing.can_update(&throw));
    playing.timer = i32::MAX;
    assert!(!playing.can_update(&Input::idle()));
}

#[test]
fn frame_counts_and_stays_normal() {
    let mut playing = PlayingLevel::open_level(level(vec![], (40, 225)));
    for timer in 1..30 {
        let (state, sounds) = frame(&mut playing, &Input::idle());
        assert_eq!(state, UpdateState::Normal);
        assert!(sounds.is_empty());
        assert_eq!(playing.timer, timer);
        assert_eq!(playing.player.wizard.position, Vector2D::from_ints(40, 225));
        assert_eq!(playing.player.wizard.velocity, Vector2D::zero());
    }
}

#[test]
fn camera_follows_a_quarter_of_the_way_and_stays_in_the_level() {
    let mut playing = PlayingLevel::open_level(level(vec![], (200, 225)));
    let (_, _) = frame(&mut playing, &Input::idle());
    // focus: (hat + 3 * wizard) / 4 = (200, 223); the centre of the screen
    // goes from (120, 80) to ((360 + 200) / 4, (240 + 223) / 4) = (140, 115.75)
    assert_eq!(playing.background.position, raw(20 * 1024, 35 * 1024 + 768));
    assert_eq!((playing.background.scroll_x, playing.background.scroll_y), (20, 35));
    // the sprites are placed relative to the camera, eight pixels up and left
    assert_eq!(playing.player.wizard.sprite.x, 200 - 20 - 8);
    assert_eq!(playing.player.wizard.sprite.y, 225 - 36 - 8);
    assert_eq!(playing.player.hat.sprite.y, 217 - 36 - 8);
    // the wizard is still below the screen
    assert!(!playing.player.wizard.sprite.visible);
    for _ in 0..200 {
        frame(&mut playing, &Input::idle());
        assert!(camera_is_inside(&playing));
    }
    assert!(playing.player.wizard.sprite.visible);
    assert!(playing.player.hat.sprite.visible);
    // the camera ends with the focus in the centre, as far as the level lets it
    assert_eq!(playing.background.position.x.to_raw() / 1024, 79);
    assert_eq!(playing.background.position.y, FixedNumber::new(30 * 8 - 160));
}

#[test]
fn camera_stays_in_the_level_while_the_wizard_walks_and_jumps() {
    let mut playing = PlayingLevel::open_level(level(vec![], (30, 225)));
    for step in 0..1500 {
        let input = Input {
            a_just_pressed: step % 97 == 5,
            b_just_pressed: step % 40 == 0,
            x_tri: if step % 600 < 450 { Tri::Positive } else { Tri::Negative },
            y_tri: if step % 3 == 0 { Tri::Negative } else { Tri::Zero },
        };
        let (state, _) = frame(&mut playing, &input);
        assert!(camera_is_inside(&playing), "frame {}", step);
        assert_eq!(
            (playing.background.scroll_x, playing.background.scroll_y),
            playing.background.position.floor()
        );
        if state != UpdateState::Normal {
            break;
        }
    }
    assert!(playing.timer > 100);
}

#[test]
fn camera_at_the_edges() {
    let mut playing = PlayingLevel::open_level(level(vec![], (10, 30)));
    playing.player.is_on_ground = false;
    frame(&mut playing, &Input::idle());
    assert_eq!(playing.background.position, Vector2D::zero());
    let mut playing = PlayingLevel::open_level(level(vec![], (470, 225)));
    playing.background.position = Vector2D::from_ints(240, 80);
    frame(&mut playing, &Input::idle());
    assert_eq!(playing.background.position, Vector2D::from_ints(240, 80));
    assert_eq!(playing.get_next_map_position(), Vector2D::from_ints(240, 80));
}

#[test]
fn camera_outside_the_level_is_brought_back() {
    for start in [
        Vector2D::from_ints(-5000, -3000),
        Vector2D::from_ints(90_000, 70_000),
        Vector2D::from_ints(-262_144, 262_144),
        Vector2D::from_ints(241, -1),
    ] {
        let mut playing = PlayingLevel::open_level(level(vec![], (200, 225)));
        playing.background.position = start;
        assert!(!camera_is_inside(&playing));
        frame(&mut playing, &Input::idle());
        assert!(camera_is_inside(&playing));
        assert_eq!(playing.get_next_map_position(), playing.get_next_map_position());
    }
    let mut playing = PlayingLevel::open_level(level(vec![], (200, 225)));
    playing.background.position = Vector2D::from_ints(-5000, 70_000);
    assert_eq!(playing.get_next_map_position(), Vector2D::from_ints(0, 80));
}

#[test]
fn wizard_on_the_floor_keeps_its_place_and_its_speed() {
    let mut playing = PlayingLevel::open_level(level(vec![], (300, 225)));
    let (state, sounds) = frame(&mut playing, &Input::idle());
    assert_eq!(state, UpdateState::Normal);
    assert!(sounds.is_empty());
    assert!(playing.player.is_on_ground);
    assert_eq!(playing.player.wizard.velocity, Vector2D::zero());
    assert_eq!(playing.player.wizard.position, Vector2D::from_ints(300, 225));
    assert_eq!(playing.player.hat_state, HatState::OnHead);
}

#[test]
fn wizard_in_a_lethal_tile_dies() {
    for velocity in [raw(0, 0), raw(2000, 0), raw(-3000, -1500), raw(0, 4000), raw(512, -512)] {
        let mut playing = PlayingLevel::open_level(level(vec![], (180, 212)));
        playing.player.wizard.velocity = velocity;
        playing.player.is_on_ground = false;
        let (state, _) = frame(&mut playing, &Input::idle());
        assert_eq!(state, UpdateState::Dead);
    }
    // a wizard that is fast enough to leave the pit within the frame dies too
    let mut playing = PlayingLevel::open_level(level(vec![], (196, 210)));
    playing.player.wizard.velocity = raw(60 * 1024, 0);
    playing.player.is_on_ground = false;
    let (state, _) = frame(&mut playing, &Input::idle());
    assert_eq!(state, UpdateState::Dead);
    assert!(playing.player.wizard.position.x.to_raw() > 250 * 1024);
    assert!(!playing
        .player
        .wizard
        .killision_at_point(&playing.background.level, playing.player.wizard.position));
    // on the floor beside the pit the wizard lives
    let mut playing = PlayingLevel::open_level(level(vec![], (150, 225)));
    let (state, _) = frame(&mut playing, &Input::idle());
    assert_eq!(state, UpdateState::Normal);
    // one pixel of the mask in the pit is enough
    let mut playing = PlayingLevel::open_level(level(vec![], (158, 225)));
    let (state, _) = frame(&mut playing, &Input::idle());
    assert_eq!(state, UpdateState::Dead);
}

#[test]
fn wizard_at_the_goal_completes_the_level() {
    let mut playing = PlayingLevel::open_level(level(vec![], (404, 225)));
    let (state, _) = frame(&mut playing, &Input::idle());
    assert_eq!(state, UpdateState::Complete);
    let mut playing = PlayingLevel::open_level(level(vec![], (390, 225)));
    let (state, _) = frame(&mut playing, &Input::idle());
    assert_eq!(state, UpdateState::Normal);
}

#[test]
fn death_comes_before_the_goal() {
    let mut foreground = vec![0u16; 1800];
    let mut background = vec![0u16; 1800];
    for x in 0..60 {
        foreground[29 * 60 + x] = 1;
    }
    foreground[28 * 60 + 10] = 3;
    background[28 * 60 + 10] = 2;
    let level = Level::new(background, foreground, 60, 30, table(), vec![], (84, 225)).unwrap();
    let mut playing = PlayingLevel::open_level(level);
    let (state, _) = frame(&mut playing, &Input::idle());
    assert_eq!(state, UpdateState::Dead);
}

#[test]
fn slime_kills_the_wizard_it_touches() {
    let mut playing = PlayingLevel::open_level(level(vec![(310, 225)], (300, 225)));
    let (state, _) = frame(&mut playing, &Input::idle());
    assert_eq!(state, UpdateState::Dead);
}

#[test]
fn slime_jumps_towards_the_wizard() {
    let mut playing = PlayingLevel::open_level(level(vec![(340, 225)], (300, 225)));
    let (state, _) = frame(&mut playing, &Input::idle());
    assert_eq!(state, UpdateState::Normal);
    match playing.enemies[0] {
        Enemy::Slime(slime) => {
            assert_eq!(slime.state, SlimeState::Jumping(1));
            assert_eq!(slime.enemy_info.entity.position, raw(340 * 1024 - 256, 225 * 1024));
            // the sprite of the slime is placed as well
            assert_eq!(
                slime.enemy_info.entity.sprite.x,
                339 - playing.background.scroll_x - 8
            );
        }
        Enemy::Empty => panic!("the slime is gone"),
    }
    let mut frames = 1;
    loop {
        let (state, _) = frame(&mut playing, &Input::idle());
        frames += 1;
        if state == UpdateState::Dead {
            break;
        }
        assert!(frames < 200);
    }
    assert!(frames > 28);
}

#[test]
fn slime_under_a_pulled_wizard_dies_and_frees_its_slot() {
    let mut playing = PlayingLevel::open_level(level(vec![(300, 225)], (300, 180)));
    playing.player.is_on_ground = false;
    playing.player.hat_state = HatState::WizardTowards;
    // the hat hangs far below the floor, out of reach
    playing.player.hat.position = Vector2D::from_ints(300, 400);
    let mut slime_died_at = 0;
    for _ in 0..80 {
        let (state, sounds) = frame(&mut playing, &Input::idle());
        assert_eq!(state, UpdateState::Normal);
        assert_eq!(playing.player.hat_state, HatState::WizardTowards);
        // the wizard may be heard landing; only the slime is listened for
        let sounds: Vec<SoundEffect> =
            sounds.into_iter().filter(|&sound| sound != SoundEffect::Land).collect();
        match playing.enemies[0] {
            Enemy::Slime(slime) => {
                if let SlimeState::Dying(start) = slime.state {
                    if slime_died_at == 0 {
                        slime_died_at = start;
                        // the death is heard in the frame in which it begins
                        assert_eq!(start, playing.timer);
                        assert_eq!(sounds, vec![SoundEffect::SlimeDeath]);
                    } else {
                        assert!(sounds.is_empty());
                    }
                    assert_eq!(start, slime_died_at);
                } else {
                    assert!(sounds.is_empty());
                }
            }
            Enemy::Empty => {
                assert!(sounds.is_empty());
                break;
            }
        }
    }
    assert!(slime_died_at > 0);
    assert_eq!(playing.enemies[0], Enemy::Empty);
    assert_eq!(playing.timer, slime_died_at + 16);
    // the freed slot stays empty and does nothing
    for _ in 0..20 {
        let (state, _) = frame(&mut playing, &Input::idle());
        assert_eq!(state, UpdateState::Normal);
        assert_eq!(playing.enemies[0], Enemy::Empty);
    }
}

#[test]
fn update_enemies_and_commit_frame_are_the_halves_of_a_frame() {
    let mut playing = PlayingLevel::open_level(level(vec![(340, 225), (310, 225)], (300, 225)));
    playing.timer = 1;
    let mut sounds = sfx();
    assert!(playing.update_enemies(&mut sounds));
    assert!(sounds.queued.is_empty());
    playing.commit_frame();
    // the hat of a fresh player lies at the origin: the focus is
    // (3 * 300 / 4, 3 * 225 / 4), and the centre of the screen goes a
    // quarter of the way from (120, 80) to it
    assert_eq!(playing.background.position, raw(26 * 1024 + 256, 22 * 1024 + 192));
    let mut playing = PlayingLevel::open_level(level(vec![(340, 225)], (300, 225)));
    playing.timer = 1;
    assert!(!playing.update_enemies(&mut sounds));

    // two slimes under a wizard that is pulled to its hat die in one frame
    let mut playing = PlayingLevel::open_level(level(vec![(296, 225), (40, 225), (304, 225)], (300, 225)));
    playing.timer = 7;
    playing.player.hat_state = HatState::WizardTowards;
    let mut sounds = sfx();
    assert!(!playing.update_enemies(&mut sounds));
    assert_eq!(sounds.queued, vec![SoundEffect::SlimeDeath, SoundEffect::SlimeDeath]);
    assert!(playing.enemies[0].has_died_at(7));
    assert!(!playing.enemies[1].has_died_at(7));
    assert!(playing.enemies[2].has_died_at(7));
    assert!(!playing.enemies[2].has_died_at(6));
    assert!(!playing.enemies[3].has_died_at(7));
}

#[test]
fn throw_in_a_frame_of_the_level() {
    let mut playing = PlayingLevel::open_level(level(vec![], (300, 225)));
    frame(&mut playing, &Input::idle());
    let throw = Input { a_just_pressed: true, b_just_pressed: false, x_tri: Tri::Positive, y_tri: Tri::Zero };
    let (state, sounds) = frame(&mut playing, &throw);
    assert_eq!(state, UpdateState::Normal);
    assert_eq!(sounds, vec![SoundEffect::Whoosh(0)]);
    assert_eq!(playing.player.hat_state, HatState::Thrown);
    assert!(playing.player.hat.velocity.x.to_raw() > 0);
}

#[test]
fn dead_wizard_rises_and_falls_off_the_screen() {
    let mut playing = PlayingLevel::open_level(level(vec![], (180, 212)));
    let (state, _) = frame(&mut playing, &Input::idle());
    assert_eq!(state, UpdateState::Dead);
    playing.background.position = Vector2D::from_ints(60, 80);
    let camera = playing.background.position;
    playing.dead_start();
    assert_eq!(playing.player.wizard.velocity, Vector2D::from_ints(0, -1));
    assert_eq!(playing.player.wizard.sprite.priority, Priority::Highest);
    let start = playing.player.wizard.position;
    assert!(playing.dead_update());
    assert_eq!(playing.timer, 2);
    assert_eq!(playing.player.wizard.velocity, raw(0, -1024 + 32));
    assert_eq!(playing.player.wizard.position, start.add(raw(0, -992)));
    assert_eq!(playing.player.wizard.sprite.tile_id, 252);
    let mut frames = 1;
    while playing.dead_update() {
        frames += 1;
        assert!(frames < 1000);
        assert_eq!(playing.player.wizard.sprite.tile_id, 252 + (playing.timer / 8 % 2 * 4) as u16);
        // the wizard falls through the floor, and the camera stays
        assert_eq!(playing.background.position, camera);
    }
    let below = playing.player.wizard.position.y.to_raw() - camera.y.to_raw();
    assert!(below >= 168 * 1024);
    // the sprite is hidden once its centre is more than eight pixels below
    assert_eq!(playing.player.wizard.sprite.visible, below < 169 * 1024);
    assert!(frames > 60);
}

#[test]
fn map_commit_rounds_the_camera_down() {
    let mut playing = PlayingLevel::open_level(level(vec![], (180, 212)));
    playing.background.position = raw(20 * 1024 + 1023, 1024 - 1);
    playing.background.commit_position();
    assert_eq!((playing.background.scroll_x, playing.background.scroll_y), (20, 0));
}
