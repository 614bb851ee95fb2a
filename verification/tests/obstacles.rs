use flappy_pixel::obs::Obstacle;
use flappy_pixel::plr::Player;
use flappy_pixel::SCREEN_HEIGHT;

fn player_at(x: i32, y: i32) -> Player {
    Player { x, y, velocity: 0, time: 0, highlight_countdown: 0 }
}

#[test]
fn gap_never_narrows_below_floor() {
    for score in [0, 1, 10, 17, 18, 19, 100, 1_000_000, i32::MAX] {
        let o = Obstacle::new(80, score);
        assert!(o.size >= 2, "score {score}");
        assert!(o.size / 2 >= 1, "score {score}");
    }
}

#[test]
fn gap_narrows_with_score() {
    assert_eq!(Obstacle::new(80, 0).size, 20);
    assert_eq!(Obstacle::new(80, 5).size, 15);
    assert_eq!(Obstacle::new(80, 17).size, 3);
    assert_eq!(Obstacle::new(80, 18).size, 2);
    assert_eq!(Obstacle::new(80, 19).size, 2);
}

#[test]
fn new_obstacle_is_unpassed_with_gap_in_safe_band() {
    for _ in 0..100 {
        let o = Obstacle::new(123, 4);
        assert_eq!(o.x, 123);
        assert!(!o.passed);
        assert!(o.gap_y >= 10);
        assert!(o.gap_y < SCREEN_HEIGHT - 10);
    }
}

#[test]
fn hit_requires_exact_column() {
    let o = Obstacle { x: 10, gap_y: 25, size: 10, passed: false };
    // wildly out of the gap band, but at other columns: never a hit
    assert!(!o.hit_obstacle(&player_at(9, 0)));
    assert!(!o.hit_obstacle(&player_at(11, 49)));
    assert!(!o.hit_obstacle(&player_at(-10, 0)));
}

#[test]
fn hit_strictly_outside_gap_band() {
    let o = Obstacle { x: 10, gap_y: 25, size: 10, passed: false };
    // half size 5: the open band is 20..=30 inclusive
    assert!(o.hit_obstacle(&player_at(10, 19)));
    assert!(!o.hit_obstacle(&player_at(10, 20)));
    assert!(!o.hit_obstacle(&player_at(10, 25)));
    assert!(!o.hit_obstacle(&player_at(10, 30)));
    assert!(o.hit_obstacle(&player_at(10, 31)));
    assert!(o.hit_obstacle(&player_at(10, 0)));
    assert!(o.hit_obstacle(&player_at(10, 49)));
}

#[test]
fn screen_x_follows_scroll() {
    let o = Obstacle { x: 100, gap_y: 25, size: 10, passed: false };
    assert_eq!(o.screen_x(98), 7);
    assert_eq!(o.screen_x(100), 5);
    assert_eq!(o.screen_x(120), -15);
}

#[test]
fn wall_cells_leave_the_gap_open() {
    let o = Obstacle { x: 100, gap_y: 25, size: 10, passed: false };
    let ys = o.wall_ys();
    // 20 cells above the gap, 20 below: rows 0..20 and 30..50
    assert_eq!(ys.len(), 40);
    for (i, y) in ys.iter().enumerate() {
        if i < 20 {
            assert_eq!(*y, i as i32);
        } else {
            assert_eq!(*y, 30 + (i as i32 - 20));
        }
    }
    // the open rows are 20..=29: the lower wall resumes at gap_y + half
    assert!(!ys.contains(&20));
    assert!(!ys.contains(&25));
    assert!(!ys.contains(&29));
    assert!(ys.contains(&19));
    assert!(ys.contains(&30));
}
