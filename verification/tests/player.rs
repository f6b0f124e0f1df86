use flappy_dragon::canvas::{Cell, Tint};
use flappy_dragon::difficulty::{Difficulty, DifficultySettings};
use flappy_dragon::player::Player;

#[test]
fn new_player_is_at_rest() {
    let player = Player::new(5, 25);
    assert_eq!(player.x, 5);
    assert_eq!(player.y, 25);
    assert_eq!(player.velocity, 0);
    assert_eq!(player.speed, 1);
    assert_eq!(player.animation_frame, 0);
    assert!(player.trail_positions.is_empty());
}

#[test]
fn plain_gravity_adds_three_tenths_per_step() {
    let mut player = Player::new(5, 25);
    let mut seen = Vec::new();
    for _ in 0..7 {
        player.gravity_and_move();
        seen.push((player.velocity, player.y));
    }
    assert_eq!(
        seen,
        vec![(300, 25), (600, 25), (900, 25), (1200, 26), (1500, 27), (1500, 28), (1500, 29)]
    );
}

#[test]
fn plain_gravity_never_passes_the_cap_from_rest() {
    let mut player = Player::new(5, 0);
    for _ in 0..100 {
        player.apply_gravity();
        assert!(player.velocity <= 1500);
    }
    assert_eq!(player.velocity, 1500);
}

#[test]
fn gravity_leaves_a_velocity_at_the_cap_alone() {
    let mut player = Player::new(5, 0);
    player.velocity = 1500;
    player.apply_gravity();
    assert_eq!(player.velocity, 1500);
    player.velocity = 1499;
    player.apply_gravity();
    assert_eq!(player.velocity, 1799);
    player.apply_gravity();
    assert_eq!(player.velocity, 1799);
}

#[test]
fn level_gravity_scales_the_step() {
    let easy = DifficultySettings::new(Difficulty::Easy);
    let mut player = Player::new(5, 25);
    let mut seen = Vec::new();
    for _ in 0..8 {
        player.gravity_and_move_with_difficulty(&easy);
        seen.push((player.velocity, player.y));
    }
    assert_eq!(
        seen,
        vec![
            (240, 25),
            (480, 25),
            (720, 25),
            (960, 25),
            (1200, 26),
            (1440, 27),
            (1680, 28),
            (1680, 29)
        ]
    );
    let hard = DifficultySettings::new(Difficulty::Hard);
    let mut player = Player::new(5, 25);
    player.gravity_and_move_with_difficulty(&hard);
    assert_eq!(player.velocity, 360);
    let insane = DifficultySettings::new(Difficulty::Insane);
    let mut player = Player::new(5, 25);
    player.gravity_and_move_with_difficulty(&insane);
    assert_eq!(player.velocity, 450);
}

#[test]
fn gravity_stays_within_one_step_of_the_cap() {
    for level in [Difficulty::Easy, Difficulty::Normal, Difficulty::Hard, Difficulty::Insane] {
        let settings = DifficultySettings::new(level);
        let step = 300 * settings.gravity_multiplier / 1000;
        let mut player = Player::new(5, 0);
        for _ in 0..50 {
            player.gravity_and_move_with_difficulty(&settings);
            assert!(player.velocity < 1500 + step);
        }
    }
}

#[test]
fn advance_moves_by_whole_rows_rounded_down() {
    let mut player = Player::new(5, 25);
    player.velocity = 999;
    player.advance();
    assert_eq!(player.y, 25);
    player.velocity = 1000;
    player.advance();
    assert_eq!(player.y, 26);
    player.velocity = 2999;
    player.advance();
    assert_eq!(player.y, 28);
    player.velocity = -1;
    player.advance();
    assert_eq!(player.y, 27);
    player.velocity = -1000;
    player.advance();
    assert_eq!(player.y, 26);
    player.velocity = -1001;
    player.advance();
    assert_eq!(player.y, 24);
}

#[test]
fn advance_stops_at_the_top_row_and_rests() {
    let mut player = Player::new(5, 1);
    player.velocity = -2000;
    player.advance();
    assert_eq!(player.y, 0);
    assert_eq!(player.velocity, 0);
    let mut player = Player::new(5, 2);
    player.velocity = -2000;
    player.advance();
    assert_eq!(player.y, 0);
    assert_eq!(player.velocity, -2000);
}

#[test]
fn advance_stops_at_the_largest_row() {
    let mut player = Player::new(5, i32::MAX);
    player.velocity = 5000;
    player.advance();
    assert_eq!(player.y, i32::MAX);
    assert_eq!(player.velocity, 5000);
}

#[test]
fn clamp_position_only_acts_above_the_top() {
    let mut player = Player::new(5, -3);
    player.velocity = 700;
    player.clamp_position();
    assert_eq!((player.y, player.velocity), (0, 0));
    let mut player = Player::new(5, 0);
    player.velocity = 700;
    player.clamp_position();
    assert_eq!((player.y, player.velocity), (0, 700));
}

#[test]
fn flap_points_up_and_clears_the_trail() {
    let mut player = Player::new(5, 25);
    player.update_trail();
    player.update_trail();
    player.flap();
    assert_eq!(player.velocity, -2000);
    assert!(player.trail_positions.is_empty());
    player.gravity_and_move();
    assert_eq!(player.velocity, -1700);
    assert_eq!(player.y, 23);
}

#[test]
fn flap_is_weaker_under_stronger_gravity() {
    let mut player = Player::new(5, 25);
    player.update_trail();
    player.flap_with_difficulty(&DifficultySettings::new(Difficulty::Easy));
    assert_eq!(player.velocity, -2500);
    assert!(player.trail_positions.is_empty());
    player.flap_with_difficulty(&DifficultySettings::new(Difficulty::Normal));
    assert_eq!(player.velocity, -2000);
    player.flap_with_difficulty(&DifficultySettings::new(Difficulty::Hard));
    assert_eq!(player.velocity, -1666);
    player.flap_with_difficulty(&DifficultySettings::new(Difficulty::Insane));
    assert_eq!(player.velocity, -1333);
}

#[test]
fn flap_may_pass_the_cap_upwards() {
    let mut player = Player::new(5, 25);
    player.flap_with_difficulty(&DifficultySettings::new(Difficulty::Easy));
    assert!(player.velocity < -1500);
    player.apply_gravity();
    assert_eq!(player.velocity, -2200);
}

#[test]
fn sideways_moves_stay_on_the_left_half() {
    let mut player = Player::new(1, 25);
    player.move_left();
    assert_eq!(player.x, 0);
    player.move_left();
    assert_eq!(player.x, 0);
    player.move_right();
    assert_eq!(player.x, 1);
    let mut player = Player::new(44, 25);
    player.move_right();
    assert_eq!(player.x, 45);
    player.move_right();
    assert_eq!(player.x, 45);
    player.move_left();
    assert_eq!(player.x, 44);
    assert_eq!(player.y, 25);
}

#[test]
fn sideways_moves_bring_a_stray_player_back() {
    let mut player = Player::new(80, 25);
    player.move_left();
    assert_eq!(player.x, 45);
    let mut player = Player::new(-7, 25);
    player.move_right();
    assert_eq!(player.x, 0);
    let mut player = Player::new(i32::MIN, 25);
    player.move_left();
    assert_eq!(player.x, 0);
    let mut player = Player::new(i32::MAX, 25);
    player.move_right();
    assert_eq!(player.x, 45);
}

#[test]
fn move_down_adds_half_a_row_and_advances() {
    let mut player = Player::new(5, 25);
    let mut seen = Vec::new();
    for _ in 0..5 {
        player.move_down();
        seen.push((player.velocity, player.y));
    }
    assert_eq!(seen, vec![(500, 25), (1000, 26), (1500, 27), (1500, 28), (1500, 29)]);
}

#[test]
fn slow_motion_scales_the_velocity_towards_zero() {
    let mut player = Player::new(5, 25);
    player.velocity = 1200;
    player.apply_slow_motion(500);
    assert_eq!(player.velocity, 600);
    player.velocity = -1500;
    player.apply_slow_motion(500);
    assert_eq!(player.velocity, -750);
    player.velocity = -1;
    player.apply_slow_motion(500);
    assert_eq!(player.velocity, 0);
    player.velocity = 1001;
    player.apply_slow_motion(1);
    assert_eq!(player.velocity, 1);
    player.velocity = i32::MAX;
    player.apply_slow_motion(i32::MAX);
    assert_eq!(player.velocity, i32::MAX);
    player.velocity = i32::MIN;
    player.apply_slow_motion(i32::MAX);
    assert_eq!(player.velocity, i32::MIN);
}

#[test]
fn reset_brings_the_player_to_rest_where_it_is() {
    let mut player = Player::new(7, 30);
    player.velocity = 900;
    player.animation_frame = 17;
    player.update_trail();
    player.reset();
    assert_eq!((player.x, player.y), (7, 30));
    assert_eq!(player.velocity, 0);
    assert_eq!(player.animation_frame, 0);
    assert!(player.trail_positions.is_empty());
}

#[test]
fn status_tells_rising_from_falling() {
    let mut player = Player::new(5, 25);
    player.velocity = -501;
    let status = player.get_status();
    assert_eq!(status.velocity, -501);
    assert!(status.is_ascending && !status.is_descending && !status.is_stable);
    player.velocity = 501;
    let status = player.get_status();
    assert!(!status.is_ascending && status.is_descending && !status.is_stable);
    for velocity in [-500, 0, 500] {
        player.velocity = velocity;
        let status = player.get_status();
        assert!(!status.is_ascending && !status.is_descending && status.is_stable);
    }
}

#[test]
fn trail_keeps_the_eight_most_recent_positions() {
    let mut player = Player::new(0, 0);
    for i in 0..8 {
        player.x = i;
        player.update_trail();
    }
    assert_eq!(player.trail_positions.len(), 8);
    assert_eq!(player.trail_positions[0], (0, 0));
    player.x = 8;
    player.update_trail();
    assert_eq!(player.trail_positions.len(), 8);
    assert_eq!(player.trail_positions[0], (1, 0));
    assert_eq!(player.trail_positions[7], (8, 0));
    for i in 9..30 {
        player.x = i;
        player.update_trail();
        assert_eq!(player.trail_positions.len(), 8);
    }
    assert_eq!(player.trail_positions[0], (22, 0));
}

#[test]
fn render_draws_player_and_glow_then_records_the_trail() {
    let mut player = Player::new(5, 25);
    let cells = player.render();
    assert_eq!(
        cells,
        vec![
            Cell { x: 5, y: 25, glyph: '>', tint: Tint::Yellow },
            Cell { x: 4, y: 25, glyph: '.', tint: Tint::Yellow },
        ]
    );
    assert_eq!(player.animation_frame, 1);
    assert_eq!(player.trail_positions, vec![(5, 25)]);
    player.x = 6;
    let cells = player.render();
    assert_eq!(
        cells,
        vec![
            Cell { x: 5, y: 25, glyph: '\u{b7}', tint: Tint::Trail(3) },
            Cell { x: 6, y: 25, glyph: '>', tint: Tint::Yellow },
            Cell { x: 5, y: 25, glyph: '.', tint: Tint::Yellow },
        ]
    );
    assert_eq!(player.trail_positions, vec![(5, 25), (6, 25)]);
}

#[test]
fn render_glows_in_the_first_half_of_every_ten_frames() {
    let mut player = Player::new(5, 25);
    let mut glowing = Vec::new();
    for _ in 0..20 {
        player.trail_positions.clear();
        let cells = player.render();
        glowing.push(cells.len() == 2);
    }
    let expected: Vec<bool> = (1..=20).map(|frame| frame % 10 < 5).collect();
    assert_eq!(glowing, expected);
    player.animation_frame = 59;
    player.render();
    assert_eq!(player.animation_frame, 0);
}

#[test]
fn render_shows_direction_and_haste() {
    let mut player = Player::new(5, 25);
    player.animation_frame = 5;
    player.velocity = -1001;
    assert_eq!(player.render(), vec![Cell { x: 5, y: 25, glyph: '^', tint: Tint::Yellow }]);
    player.trail_positions.clear();
    player.animation_frame = 5;
    player.velocity = 1001;
    assert_eq!(player.render(), vec![Cell { x: 5, y: 25, glyph: 'v', tint: Tint::Yellow }]);
    player.trail_positions.clear();
    player.animation_frame = 5;
    player.velocity = 1000;
    assert_eq!(player.render(), vec![Cell { x: 5, y: 25, glyph: '>', tint: Tint::Yellow }]);
    player.trail_positions.clear();
    player.animation_frame = 5;
    player.velocity = 1501;
    assert_eq!(player.render(), vec![Cell { x: 5, y: 25, glyph: 'v', tint: Tint::Orange }]);
    player.trail_positions.clear();
    player.animation_frame = 5;
    player.velocity = -1501;
    assert_eq!(player.render(), vec![Cell { x: 5, y: 25, glyph: '^', tint: Tint::Orange }]);
}

#[test]
fn render_leaves_out_what_is_off_the_playfield() {
    let mut player = Player::new(0, 60);
    assert!(player.render().is_empty());
    let mut player = Player::new(0, 10);
    assert_eq!(player.render(), vec![Cell { x: 0, y: 10, glyph: '>', tint: Tint::Yellow }]);
    let mut player = Player::new(3, 3);
    player.trail_positions = vec![(-1, 3), (90, 3), (2, 50), (2, 3)];
    let cells = player.render_trail();
    assert_eq!(cells, vec![Cell { x: 2, y: 3, glyph: '\u{b7}', tint: Tint::Trail(0) }]);
}

#[test]
fn trail_fades_towards_its_newest_end() {
    let mut player = Player::new(9, 9);
    player.trail_positions = vec![(1, 1), (2, 1), (3, 1), (4, 1), (5, 1), (6, 1)];
    let shades: Vec<Tint> = player.render_trail().iter().map(|cell| cell.tint).collect();
    assert_eq!(
        shades,
        vec![
            Tint::Trail(3),
            Tint::Trail(2),
            Tint::Trail(2),
            Tint::Trail(1),
            Tint::Trail(1),
            Tint::Trail(0)
        ]
    );
}
