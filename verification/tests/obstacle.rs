use bracket_lib::prelude::RandomNumberGenerator;
use flappy_dragon::canvas::{Cell, Tint};
use flappy_dragon::difficulty::{Difficulty, DifficultySettings};
use flappy_dragon::obstacle::{Obstacle, ObstacleType};
use flappy_dragon::player::Player;
use flappy_dragon::rolls::ObstacleRolls;

fn wall(x: i32, gap_y: i32, size: i32, obstacle_type: ObstacleType) -> Obstacle {
    Obstacle { x, gap_y, size, speed: 1000, obstacle_type, move_timer: 0, moving_down: true }
}

#[test]
fn obstacle_at_a_low_score_is_always_static() {
    for special in 0..100 {
        for kind in 0..2 {
            let rolls = ObstacleRolls { special, kind, gap_y: 20 };
            assert_eq!(Obstacle::from_rolls(90, 10, &rolls).obstacle_type, ObstacleType::Static);
            assert_eq!(Obstacle::from_rolls(90, 20, &rolls).obstacle_type, ObstacleType::Static);
        }
    }
}

#[test]
fn special_roll_at_a_high_score_moves_or_rotates() {
    for special in 0..30 {
        let moving = Obstacle::from_rolls(90, 25, &ObstacleRolls { special, kind: 0, gap_y: 20 });
        assert_eq!(moving.obstacle_type, ObstacleType::Moving);
        let rotating = Obstacle::from_rolls(90, 25, &ObstacleRolls { special, kind: 1, gap_y: 20 });
        assert_eq!(rotating.obstacle_type, ObstacleType::Rotating);
    }
    for special in 30..100 {
        let plain = Obstacle::from_rolls(90, 25, &ObstacleRolls { special, kind: 0, gap_y: 20 });
        assert_eq!(plain.obstacle_type, ObstacleType::Static);
    }
    let first = Obstacle::from_rolls(90, 21, &ObstacleRolls { special: 0, kind: 0, gap_y: 20 });
    assert_eq!(first.obstacle_type, ObstacleType::Moving);
}

#[test]
fn from_rolls_fills_every_field() {
    let obstacle = Obstacle::from_rolls(90, 3, &ObstacleRolls { special: 5, kind: 1, gap_y: 33 });
    assert_eq!(
        obstacle,
        Obstacle {
            x: 90,
            gap_y: 33,
            size: 17,
            speed: 1000,
            obstacle_type: ObstacleType::Static,
            move_timer: 0,
            moving_down: true,
        }
    );
}

#[test]
fn base_size_shrinks_with_the_score_down_to_four() {
    let rolls = ObstacleRolls { special: 99, kind: 0, gap_y: 20 };
    assert_eq!(Obstacle::from_rolls(90, 0, &rolls).size, 20);
    assert_eq!(Obstacle::from_rolls(90, 1, &rolls).size, 19);
    assert_eq!(Obstacle::from_rolls(90, 15, &rolls).size, 5);
    assert_eq!(Obstacle::from_rolls(90, 16, &rolls).size, 4);
    assert_eq!(Obstacle::from_rolls(90, 17, &rolls).size, 4);
    assert_eq!(Obstacle::from_rolls(90, i32::MAX, &rolls).size, 4);
    assert_eq!(Obstacle::from_rolls(90, -5, &rolls).size, 25);
    assert_eq!(Obstacle::from_rolls(90, i32::MIN, &rolls).size, i32::MAX);
    assert_eq!(Obstacle::with_type(7, 2, ObstacleType::Rotating, 11).size, 18);
}

#[test]
fn new_obstacles_come_from_the_generator_within_their_ranges() {
    let mut rng = RandomNumberGenerator::seeded(7);
    let mut rows = std::collections::BTreeSet::new();
    let mut statics = 0;
    let mut moving = 0;
    let mut rotating = 0;
    for _ in 0..2000 {
        let obstacle = Obstacle::new(90, 25, &mut rng);
        assert_eq!(obstacle.x, 90);
        assert_eq!(obstacle.size, 4);
        assert_eq!(obstacle.move_timer, 0);
        assert!(obstacle.moving_down);
        assert!(10 <= obstacle.gap_y && obstacle.gap_y <= 40);
        rows.insert(obstacle.gap_y);
        match obstacle.obstacle_type {
            ObstacleType::Static => statics += 1,
            ObstacleType::Moving => moving += 1,
            ObstacleType::Rotating => rotating += 1,
        }
    }
    assert_eq!(rows.len(), 31);
    assert!(statics > 1000);
    assert!(moving > 100);
    assert!(rotating > 100);
}

#[test]
fn new_obstacles_at_a_low_score_are_static() {
    let mut rng = RandomNumberGenerator::seeded(11);
    for score in 0..=20 {
        for _ in 0..50 {
            let obstacle = Obstacle::new(90, score, &mut rng);
            assert_eq!(obstacle.obstacle_type, ObstacleType::Static);
            assert_eq!(obstacle.size, i32::max(4, 20 - score));
        }
    }
}

#[test]
fn advance_scrolls_by_the_level_step() {
    let normal = DifficultySettings::new(Difficulty::Normal);
    let mut obstacle = wall(90, 25, 20, ObstacleType::Static);
    obstacle.advance(&normal, 0);
    assert_eq!(obstacle.x, 89);
    obstacle.advance(&normal, 1000);
    assert_eq!(obstacle.x, 88);
    let insane = DifficultySettings::new(Difficulty::Insane);
    obstacle.advance(&insane, 19);
    assert_eq!(obstacle.x, 87);
    obstacle.advance(&insane, 20);
    assert_eq!(obstacle.x, 85);
    assert_eq!(obstacle.gap_y, 25);
    assert_eq!(obstacle.move_timer, 0);
}

#[test]
fn advance_strictly_decreases_the_column() {
    for level in [Difficulty::Easy, Difficulty::Normal, Difficulty::Hard, Difficulty::Insane] {
        let settings = DifficultySettings::new(level);
        let mut obstacle = wall(90, 25, 20, ObstacleType::Rotating);
        for score in 0..60 {
            let before = obstacle.x;
            obstacle.advance(&settings, score);
            assert!(obstacle.x < before);
        }
    }
    let mut obstacle = wall(i32::MIN, 25, 20, ObstacleType::Static);
    obstacle.advance(&DifficultySettings::new(Difficulty::Normal), 0);
    assert_eq!(obstacle.x, i32::MIN);
}

#[test]
fn moving_gap_shifts_every_twentieth_tick() {
    let mut obstacle = wall(90, 20, 20, ObstacleType::Moving);
    for tick in 1..20 {
        obstacle.update_position();
        assert_eq!(obstacle.gap_y, 20);
        assert_eq!(obstacle.move_timer, tick);
    }
    obstacle.update_position();
    assert_eq!(obstacle.gap_y, 21);
    assert_eq!(obstacle.move_timer, 0);
    for _ in 0..40 {
        obstacle.update_position();
    }
    assert_eq!(obstacle.gap_y, 23);
}

#[test]
fn moving_gap_turns_at_rows_fifteen_and_thirty_five() {
    let mut obstacle = wall(90, 34, 20, ObstacleType::Moving);
    for _ in 0..20 {
        obstacle.update_position();
    }
    assert_eq!(obstacle.gap_y, 35);
    assert!(!obstacle.moving_down);
    for _ in 0..20 {
        obstacle.update_position();
    }
    assert_eq!(obstacle.gap_y, 34);
    assert!(!obstacle.moving_down);
    let mut obstacle = wall(90, 16, 20, ObstacleType::Moving);
    obstacle.moving_down = false;
    for _ in 0..20 {
        obstacle.update_position();
    }
    assert_eq!(obstacle.gap_y, 15);
    assert!(obstacle.moving_down);
    for _ in 0..20 {
        obstacle.update_position();
    }
    assert_eq!(obstacle.gap_y, 16);
}

#[test]
fn moving_gap_stays_between_its_bounds() {
    for start in 10..=40 {
        let mut obstacle = wall(90, start, 20, ObstacleType::Moving);
        for _ in 0..3000 {
            obstacle.update_position();
            assert!(10 <= obstacle.gap_y && obstacle.gap_y <= 41);
        }
    }
}

#[test]
fn other_obstacles_do_not_drift() {
    for kind in [ObstacleType::Static, ObstacleType::Rotating] {
        let mut obstacle = wall(90, 20, 20, kind);
        for _ in 0..100 {
            obstacle.update_position();
        }
        assert_eq!(obstacle, wall(90, 20, 20, kind));
    }
}

#[test]
fn hit_needs_the_column_and_a_row_outside_the_gap() {
    let normal = DifficultySettings::new(Difficulty::Normal);
    let obstacle = wall(5, 25, 20, ObstacleType::Static);
    assert!(obstacle.hit_obstacle(&Player::new(5, 14), &normal, 0));
    assert!(!obstacle.hit_obstacle(&Player::new(5, 15), &normal, 0));
    assert!(!obstacle.hit_obstacle(&Player::new(5, 25), &normal, 0));
    assert!(!obstacle.hit_obstacle(&Player::new(5, 35), &normal, 0));
    assert!(obstacle.hit_obstacle(&Player::new(5, 36), &normal, 0));
    assert!(!obstacle.hit_obstacle(&Player::new(4, 0), &normal, 0));
    assert!(!obstacle.hit_obstacle(&Player::new(6, 49), &normal, 0));
}

#[test]
fn hit_uses_the_gap_as_level_and_score_size_it() {
    let obstacle = wall(5, 25, 20, ObstacleType::Static);
    let hard = DifficultySettings::new(Difficulty::Hard);
    assert_eq!(obstacle.get_half_gap(&hard, 25), 8);
    assert!(obstacle.hit_obstacle(&Player::new(5, 16), &hard, 25));
    assert!(!obstacle.hit_obstacle(&Player::new(5, 17), &hard, 25));
    assert!(!obstacle.hit_obstacle(&Player::new(5, 33), &hard, 25));
    assert!(obstacle.hit_obstacle(&Player::new(5, 34), &hard, 25));
    let easy = DifficultySettings::new(Difficulty::Easy);
    assert_eq!(obstacle.get_half_gap(&easy, 0), 11);
    assert!(!obstacle.hit_obstacle(&Player::new(5, 14), &easy, 0));
    assert!(obstacle.hit_obstacle(&Player::new(5, 13), &easy, 0));
    let narrow = wall(5, 25, 4, ObstacleType::Static);
    let insane = DifficultySettings::new(Difficulty::Insane);
    assert_eq!(narrow.get_half_gap(&insane, 100), 2);
    assert!(!narrow.hit_obstacle(&Player::new(5, 23), &insane, 100));
    assert!(narrow.hit_obstacle(&Player::new(5, 22), &insane, 100));
}

#[test]
fn hit_is_decided_at_the_ends_of_the_range() {
    let normal = DifficultySettings::new(Difficulty::Normal);
    let obstacle = wall(5, i32::MAX, i32::MAX, ObstacleType::Static);
    assert!(!obstacle.hit_obstacle(&Player::new(5, i32::MAX), &normal, 0));
    assert!(obstacle.hit_obstacle(&Player::new(5, 0), &normal, 0));
    let obstacle = wall(5, i32::MIN, 4, ObstacleType::Static);
    assert!(obstacle.hit_obstacle(&Player::new(5, 0), &normal, 0));
}

#[test]
fn passed_when_the_player_is_right_of_the_obstacle() {
    let obstacle = wall(5, 25, 20, ObstacleType::Static);
    assert!(obstacle.is_passed_by_player(&Player::new(6, 25)));
    assert!(!obstacle.is_passed_by_player(&Player::new(5, 25)));
    assert!(!obstacle.is_passed_by_player(&Player::new(4, 25)));
}

#[test]
fn score_value_goes_by_type() {
    assert_eq!(wall(0, 0, 4, ObstacleType::Static).get_score_value(), 1);
    assert_eq!(wall(0, 0, 4, ObstacleType::Moving).get_score_value(), 2);
    assert_eq!(wall(0, 0, 4, ObstacleType::Rotating).get_score_value(), 3);
}

#[test]
fn appearance_goes_by_type() {
    assert_eq!(wall(7, 0, 4, ObstacleType::Static).get_obstacle_appearance(), ('|', Tint::Red));
    assert_eq!(
        wall(7, 0, 4, ObstacleType::Moving).get_obstacle_appearance(),
        ('\u{2551}', Tint::Orange)
    );
}

#[test]
fn rotating_wall_cycles_through_four_glyphs() {
    let glyphs: Vec<char> = (0..15)
        .map(|x| wall(x, 0, 4, ObstacleType::Rotating).get_obstacle_appearance().0)
        .collect();
    assert_eq!(
        glyphs,
        vec!['|', '|', '|', '/', '/', '/', '-', '-', '-', '\\', '\\', '\\', '|', '|', '|']
    );
    assert_eq!(
        wall(-1, 0, 4, ObstacleType::Rotating).get_obstacle_appearance(),
        ('\\', Tint::Magenta)
    );
    assert_eq!(wall(-3, 0, 4, ObstacleType::Rotating).get_obstacle_appearance().0, '\\');
    assert_eq!(wall(-4, 0, 4, ObstacleType::Rotating).get_obstacle_appearance().0, '-');
    assert_eq!(wall(-12, 0, 4, ObstacleType::Rotating).get_obstacle_appearance().0, '|');
    assert_eq!(wall(i32::MIN, 0, 4, ObstacleType::Rotating).get_obstacle_appearance().0, '/');
    assert_eq!(wall(i32::MAX, 0, 4, ObstacleType::Rotating).get_obstacle_appearance().0, '-');
}

#[test]
fn render_draws_the_wall_outside_the_gap() {
    let normal = DifficultySettings::new(Difficulty::Normal);
    let cells = wall(10, 25, 20, ObstacleType::Static).render(&normal, 0);
    let mut expected = Vec::new();
    for y in 0..15 {
        expected.push(Cell { x: 10, y, glyph: '|', tint: Tint::Red });
    }
    for y in 35..50 {
        expected.push(Cell { x: 10, y, glyph: '|', tint: Tint::Red });
    }
    assert_eq!(cells, expected);
}

#[test]
fn render_marks_a_moving_gap() {
    let normal = DifficultySettings::new(Difficulty::Normal);
    let cells = wall(10, 25, 20, ObstacleType::Moving).render(&normal, 30);
    assert_eq!(cells.len(), 17 + 17 + 1);
    assert_eq!(cells[0], Cell { x: 10, y: 0, glyph: '\u{2551}', tint: Tint::Orange });
    assert_eq!(cells[16], Cell { x: 10, y: 16, glyph: '\u{2551}', tint: Tint::Orange });
    assert_eq!(cells[17], Cell { x: 10, y: 33, glyph: '\u{2551}', tint: Tint::Orange });
    assert_eq!(cells[34], Cell { x: 10, y: 16, glyph: '\u{2195}', tint: Tint::Yellow });
}

#[test]
fn render_leaves_out_a_wall_off_the_playfield() {
    let normal = DifficultySettings::new(Difficulty::Normal);
    assert!(wall(90, 25, 20, ObstacleType::Moving).render(&normal, 0).is_empty());
    assert!(wall(-1, 25, 20, ObstacleType::Static).render(&normal, 0).is_empty());
    assert_eq!(wall(89, 25, 20, ObstacleType::Static).render(&normal, 0).len(), 30);
    assert_eq!(wall(0, 200, 20, ObstacleType::Static).render(&normal, 0).len(), 50);
    assert_eq!(wall(0, 5, 20, ObstacleType::Moving).render(&normal, 0).len(), 35);
}
