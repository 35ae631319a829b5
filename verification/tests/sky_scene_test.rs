use weathr::animation::engine::{Dot, Particle, Stage};
use weathr::animation::moon::MoonSystem;
use weathr::animation::stars::{
    pick_spot, too_close, ShootingSeed, ShootingStar, Spot, Star, StarSystem,
};
use weathr::animation::sunny::SunnyAnimation;
use weathr::animation::{Animation, AnimationController};
use weathr::fixed::UNIT;
use weathr::random::{ScriptedSource, ThreadSource};
use weathr::render::{Cell, Color, ColorSupport, TerminalCapabilities, TerminalRenderer};
use weathr::scene::decorations::{DecorationRenderConfig, Decorations};
use weathr::scene::ground::{ground_cell_at, pseudo_rand, Ground};
use weathr::scene::house::House;
use weathr::scene::WorldScene;
use weathr::weather::WeatherConditions;

const STAGE: Stage = Stage {
    width: 100,
    height: 30,
};

fn grid(width: u16, height: u16) -> TerminalRenderer {
    TerminalRenderer::with_size(
        width,
        height,
        TerminalCapabilities {
            color_support: ColorSupport::TrueColor,
            is_tty: true,
        },
    )
}

fn cell(g: &TerminalRenderer, x: u16, y: u16) -> (char, Color) {
    let c: Cell = g.cell_at(x, y).unwrap();
    (c.character, c.color)
}

fn star(x: u16, y: u16) -> Star {
    Star {
        x,
        y,
        brightness: 500,
        phase: 0,
    }
}

#[test]
fn test_too_close_is_less_than_three_cells() {
    let stars = vec![star(10, 10), star(50, 5)];
    assert!(too_close(&stars, 10, 10));
    assert!(too_close(&stars, 12, 12));
    assert!(too_close(&stars, 12, 8));
    assert!(!too_close(&stars, 13, 10));
    assert!(!too_close(&stars, 10, 13));
    assert!(too_close(&stars, 52, 7));
    assert!(!too_close(&stars, 30, 7));
    assert!(!too_close(&Vec::new(), 0, 0));
    assert!(!too_close(&vec![star(0, 0)], 65535, 65535));
}

#[test]
fn test_pick_spot_takes_the_first_free_place() {
    let stars = vec![star(10, 10)];
    let spots = vec![
        Spot { x: 10, y: 11 },
        Spot { x: 11, y: 10 },
        Spot { x: 20, y: 10 },
        Spot { x: 30, y: 10 },
    ];
    let got = pick_spot(&stars, &spots).unwrap();
    assert_eq!((got.x, got.y), (20, 10));
    // where every place is taken, the last one is used all the same
    let got = pick_spot(&stars, &spots[..2].to_vec()).unwrap();
    assert_eq!((got.x, got.y), (11, 10));
    assert!(pick_spot(&stars, &Vec::new()).is_none());
}

#[test]
fn test_stars_are_laid_out_for_the_terminal() {
    let mut source = ThreadSource::new(rand::rng());
    let stars = StarSystem::new(100, 30, &mut source);
    assert_eq!(stars.stars.len(), 37);
    assert!(stars.shooting_star.is_none());
    assert!(stars.stars.iter().all(|s| s.x < 100 && s.y < 15));
    assert!(stars.stars.iter().all(|s| s.brightness <= 1000 && (0..=6284).contains(&s.phase)));
    assert_eq!(StarSystem::new(10, 7, &mut source).stars.len(), 0);
    assert!(StarSystem::new(0, 0, &mut source).stars.is_empty());
}

#[test]
fn test_stars_survive_a_resize_where_they_fit() {
    let mut source = ThreadSource::new(rand::rng());
    let mut stars = StarSystem::new(100, 30, &mut source);
    let before: Vec<(u16, u16)> = stars.stars.iter().map(|s| (s.x, s.y)).collect();
    stars.update(110, 30, &mut source);
    assert_eq!((stars.terminal_width, stars.terminal_height), (110, 30));
    assert_eq!(stars.stars.len(), 37 + 41);
    let kept: Vec<(u16, u16)> = stars.stars.iter().take(37).map(|s| (s.x, s.y)).collect();
    assert_eq!(kept, before);
    // on a smaller terminal the stars that are off it go
    let fitting = before.iter().filter(|(x, y)| *x < 40 && *y < 10).count();
    let mut small = StarSystem {
        stars: stars.stars.iter().take(37).copied().collect(),
        shooting_star: None,
        terminal_width: 100,
        terminal_height: 30,
    };
    small.update(40, 10, &mut source);
    let count = if 5 < fitting { fitting } else { fitting + 5 };
    assert_eq!(small.stars.len(), count);
    assert!(small.stars.iter().all(|s| s.x < 40 && s.y < 10));
}

#[test]
fn test_star_twinkles() {
    let mut s = Star {
        x: 7,
        y: 3,
        brightness: 0,
        phase: 1521,
    };
    s.step(&STAGE);
    assert_eq!((s.phase, s.brightness), (1571, 1000));
    assert!(s.is_alive(&STAGE));
    let g = s.project(&STAGE).unwrap();
    assert_eq!((g.x, g.y, g.character, g.color), (7, 3, '*', Color::White));
    for (brightness, ch, color) in [
        (800u16, '+', Color::White),
        (601, '+', Color::White),
        (600, '+', Color::DarkGrey),
        (401, '+', Color::DarkGrey),
        (400, '.', Color::DarkGrey),
        (0, '.', Color::DarkGrey),
    ] {
        s.brightness = brightness;
        let g = s.project(&STAGE).unwrap();
        assert_eq!((g.character, g.color), (ch, color));
    }
    s.phase = 6260;
    s.step(&STAGE);
    assert_eq!(s.phase, 26);
}

#[test]
fn test_shooting_star_comes_flies_and_goes() {
    let mut stars = StarSystem {
        stars: vec![star(1, 1)],
        shooting_star: None,
        terminal_width: 100,
        terminal_height: 30,
    };
    let seed = ShootingSeed {
        column: 60,
        row: 10,
        rightward: false,
        fall: UNIT / 2,
    };
    stars.tick(83_887, seed);
    assert!(stars.shooting_star.is_none());
    stars.tick(83_886, seed);
    let s = stars.shooting_star.unwrap();
    assert_eq!((s.x, s.y, s.speed_x, s.speed_y, s.length, s.active), (35_000, 3000, -1500, 750, 5, true));
    stars.tick(0, seed);
    let s = stars.shooting_star.unwrap();
    assert_eq!((s.x, s.y), (33_500, 3750));
    let mut g = grid(100, 30);
    stars.render(&mut g);
    assert_eq!(cell(&g, 33, 3), ('*', Color::White));
    assert_eq!(cell(&g, 35, 3), ('+', Color::White));
    assert_eq!(cell(&g, 36, 2), ('.', Color::White));
    assert_eq!(cell(&g, 38, 1), ('.', Color::White));
    assert_eq!(cell(&g, 39, 0), ('.', Color::White));
    assert_eq!(cell(&g, 1, 1), ('+', Color::DarkGrey));
    stars.shooting_star = Some(ShootingStar {
        x: 1000,
        y: 3000,
        speed_x: -1500,
        speed_y: 500,
        length: 5,
        active: true,
    });
    stars.tick(0, seed);
    assert!(stars.shooting_star.is_none());
    stars.shooting_star = Some(ShootingStar {
        x: 50_000,
        y: 29_600,
        speed_x: 1500,
        speed_y: 500,
        length: 5,
        active: true,
    });
    stars.tick(0, seed);
    assert!(stars.shooting_star.is_none());
}

#[test]
fn test_moon_moves_with_the_terminal() {
    let mut moon = MoonSystem::new(100, 30);
    let mut g = grid(100, 30);
    moon.render(&mut g);
    // a full moon at column 35, row 9
    assert_eq!(cell(&g, 42, 9), ('_', Color::White));
    assert_eq!(cell(&g, 35, 9), (' ', Color::Reset));
    moon.update(100, 30);
    g.clear();
    g.render_char(82, 8, '*', Color::DarkGrey);
    g.render_char(76, 8, '*', Color::DarkGrey);
    moon.render(&mut g);
    assert_eq!(cell(&g, 82, 7), ('_', Color::White));
    assert_eq!(cell(&g, 80, 8), ('.', Color::White));
    // the body of the moon hides the star behind it, the sky beside it does not
    assert_eq!(cell(&g, 82, 8), (' ', Color::White));
    assert_eq!(cell(&g, 83, 8), ('o', Color::White));
    assert_eq!(cell(&g, 76, 8), ('*', Color::DarkGrey));
    moon.update(16, 4);
    let mut tiny = grid(70, 20);
    moon.render(&mut tiny);
    assert_eq!(cell(&tiny, 8, 2), ('_', Color::White));
}

#[test]
fn test_moon_has_eight_phases() {
    let mut moon = MoonSystem::new(100, 30);
    moon.update(100, 30);
    let first_line = |moon: &MoonSystem| -> String {
        let mut g = grid(100, 30);
        moon.render(&mut g);
        (75u16..93).map(|x| g.cell_at(x, 8).unwrap().character).collect()
    };
    for (phase, line) in [
        (0u32, "                  "),
        (62, "                  "),
        (63, "            . `.  "),
        (125, "            . `.  "),
        (250, "           |  `.  "),
        (375, "       .'    `.   "),
        (500, "     .' o   `.    "),
        (625, "     .'    `.     "),
        (750, "      .'  |       "),
        (875, "      .' .        "),
        (937, "      .' .        "),
        (938, "                  "),
        (1000, "                  "),
        (1500, "     .' o   `.    "),
    ] {
        moon.set_phase(phase);
        assert_eq!(first_line(&moon), line, "phase {}", phase);
    }
}

#[test]
fn test_sun_has_two_pictures() {
    let sun = SunnyAnimation::new();
    assert_eq!(sun.frame_count(), 2);
    assert_eq!(sun.get_color(), Color::Yellow);
    assert_eq!(sun.get_frame(0).len(), 9);
    assert_eq!(sun.get_frame(0)[0], "      ;   :   ;");
    assert_eq!(sun.get_frame(0)[4], "~ -- :         : -- ~");
    assert_eq!(sun.get_frame(1)[0], "      .   |   .");
    assert_eq!(sun.get_frame(1)[7], "   ;   / `|` \\   ;");
    assert_eq!(sun.get_frame(2)[1], "   .   \\_,!,_/   ,");
    assert_eq!(sun.get_frame(usize::MAX)[4], "~ -- |         | -- ~");
    assert_eq!(SunnyAnimation::create_frame_1(), sun.get_frame(0).to_vec());
    assert_eq!(SunnyAnimation::create_frame_2(), sun.get_frame(1).to_vec());
    assert_eq!(SunnyAnimation::default().frame_count(), 2);
}

#[test]
fn test_controller_takes_turns() {
    let sun = SunnyAnimation::new();
    let mut controller = AnimationController::new();
    assert_eq!(controller.next_frame(&sun), 1);
    assert_eq!(controller.next_frame(&sun), 0);
    assert_eq!(controller.next_frame(&sun), 1);
    controller.reset();
    assert_eq!(controller.next_frame(&sun), 1);
    let mut g = grid(100, 30);
    controller.render_frame(&mut g, &sun, 3);
    // the longest line has 21 characters: it starts in column 39
    assert_eq!(cell(&g, 39, 7), ('~', Color::Yellow));
    assert_eq!(cell(&g, 44, 7), ('|', Color::Yellow));
    assert_eq!(cell(&g, 59, 7), ('~', Color::Yellow));
    assert_eq!(cell(&g, 60, 7), (' ', Color::Reset));
    assert_eq!(cell(&g, 39, 3), (' ', Color::Yellow));
    assert_eq!(cell(&g, 45, 3), ('.', Color::Yellow));
    let mut first = grid(100, 30);
    AnimationController::default().render_frame(&mut first, &sun, 2);
    assert_eq!(cell(&first, 45, 2), (';', Color::Yellow));
}

#[test]
fn test_house() {
    let house = House;
    assert_eq!(house.width(), 64);
    assert_eq!(house.height(), 13);
    assert_eq!(House::WIDTH, 64);
    assert_eq!(House::HEIGHT, 13);
    assert_eq!(House::CHIMNEY_X_OFFSET, 10);
    let art = house.get_ascii();
    assert_eq!(art.len(), 13);
    assert_eq!(art[0], "          (                  ");
    assert_eq!(art[7], "   ~~~~~~~~~~~~~~~~~~~~~~~~~~~~~");
    assert_eq!(art[12], " ^^^^^^^^^^^^^^^ === ^^^^^^^^^^^^^^^^^^^^^^^^^^^^^^^^^^^^^^^^^^^^^");
    let mut g = grid(100, 30);
    house.render(&mut g, 18, 10, true);
    assert_eq!(cell(&g, 28, 10), ('(', Color::DarkGrey));
    assert_eq!(cell(&g, 27, 10), (' ', Color::Reset));
    assert_eq!(cell(&g, 29, 14), ('|', Color::DarkRed));
    assert_eq!(cell(&g, 30, 13), ('_', Color::DarkGrey));
    assert_eq!(cell(&g, 34, 13), ('_', Color::DarkGrey));
    assert_eq!(cell(&g, 35, 13), ('.', Color::Grey));
    // the eaves are painted whole, spaces too
    assert_eq!(cell(&g, 18, 17), (' ', Color::DarkRed));
    assert_eq!(cell(&g, 21, 17), ('~', Color::DarkRed));
    assert_eq!(cell(&g, 23, 18), ('|', Color::Rgb { r: 210, g: 180, b: 140 }));
    assert_eq!(cell(&g, 26, 18), ('[', Color::Cyan));
    assert_eq!(cell(&g, 32, 21), ('(', Color::Rgb { r: 139, g: 69, b: 19 }));
    assert_eq!(cell(&g, 22, 21), ('=', Color::DarkGrey));
    assert_eq!(cell(&g, 21, 21), ('|', Color::DarkGrey));
    assert_eq!(cell(&g, 24, 21), ('_', Color::Rgb { r: 210, g: 180, b: 140 }));
    assert_eq!(cell(&g, 19, 22), ('^', Color::Green));
    assert_eq!(cell(&g, 35, 22), ('=', Color::DarkGrey));
    let mut night = grid(100, 30);
    house.render(&mut night, 18, 10, false);
    assert_eq!(cell(&night, 26, 18), ('[', Color::Yellow));
    assert_eq!(cell(&night, 21, 17), ('~', Color::DarkMagenta));
    assert_eq!(cell(&night, 23, 18), ('|', Color::Rgb { r: 100, g: 70, b: 50 }));
    assert_eq!(cell(&night, 19, 22), ('^', Color::DarkGreen));
    // a house that hangs over the edge is cut
    let mut edge = grid(70, 20);
    house.render(&mut edge, 60, 10, true);
    assert_eq!(cell(&edge, 64, 16), ('_', Color::DarkRed));
    assert_eq!(cell(&edge, 69, 17), ('~', Color::DarkRed));
}

#[test]
fn test_ground() {
    assert_eq!(pseudo_rand(0, 0), 98);
    assert_eq!(pseudo_rand(1, 0), 9);
    assert_eq!(pseudo_rand(36, 0), 2);
    assert_eq!(pseudo_rand(14, 1), 0);
    assert_eq!(pseudo_rand(6, 1), 20);
    assert!(pseudo_rand(u32::MAX, u32::MAX) < 100);
    let at = |x, y, day| {
        let c = ground_cell_at(x, y, day);
        (c.character, c.color)
    };
    assert_eq!(at(0, 0, true), ('^', Color::Green));
    assert_eq!(at(0, 0, false), ('^', Color::DarkGreen));
    assert_eq!(at(1, 0, true), (',', Color::DarkGreen));
    assert_eq!(at(1, 0, false), (',', Color::Rgb { r: 0, g: 50, b: 0 }));
    assert_eq!(at(36, 0, true), ('*', Color::Magenta));
    assert_eq!(at(45, 0, true), ('*', Color::Red));
    assert_eq!(at(50, 0, true), ('*', Color::Cyan));
    assert_eq!(at(95, 0, true), ('*', Color::Yellow));
    assert_eq!(at(36, 0, false), ('*', Color::DarkMagenta));
    assert_eq!(at(45, 0, false), ('*', Color::DarkRed));
    assert_eq!(at(50, 0, false), ('*', Color::Blue));
    assert_eq!(at(95, 0, false), ('*', Color::DarkYellow));
    assert_eq!(at(14, 1, true), ('~', Color::Rgb { r: 101, g: 67, b: 33 }));
    assert_eq!(at(6, 1, true), ('.', Color::Rgb { r: 101, g: 67, b: 33 }));
    assert_eq!(at(0, 1, false), (' ', Color::Rgb { r: 60, g: 40, b: 20 }));
    let mut g = grid(100, 30);
    g.render_char(0, 24, '#', Color::Red);
    Ground.render(&mut g, 100, 7, 23, true);
    assert_eq!(cell(&g, 0, 23), ('^', Color::Green));
    assert_eq!(cell(&g, 36, 23), ('*', Color::Magenta));
    assert_eq!(cell(&g, 14, 24), ('~', Color::Rgb { r: 101, g: 67, b: 33 }));
    // bare soil covers what was there
    assert_eq!(cell(&g, 0, 24), (' ', Color::Rgb { r: 101, g: 67, b: 33 }));
    assert_eq!(cell(&g, 0, 22), (' ', Color::Reset));
    assert_eq!(cell(&g, 99, 29).1, Color::Rgb { r: 101, g: 67, b: 33 });
}

#[test]
fn test_decorations() {
    let decorations = Decorations::new();
    let mut g = grid(130, 30);
    let config = DecorationRenderConfig {
        horizon_y: 23,
        house_x: 33,
        house_width: 64,
        width: 130,
        is_day: true,
    };
    decorations.render(&mut g, &config);
    // the tree stands twenty columns left of the house
    assert_eq!(cell(&g, 19, 18), ('#', Color::DarkGreen));
    assert_eq!(cell(&g, 13, 18), (' ', Color::Reset));
    assert_eq!(cell(&g, 20, 22), ('|', Color::DarkGreen));
    // the fence two columns right of it
    assert_eq!(cell(&g, 99, 21), ('|', Color::White));
    assert_eq!(cell(&g, 100, 21), ('-', Color::White));
    assert_eq!(cell(&g, 111, 22), ('|', Color::White));
    // the mailbox ten columns left of the tree
    assert_eq!(cell(&g, 4, 20), ('_', Color::Blue));
    assert_eq!(cell(&g, 3, 21), ('|', Color::Blue));
    assert_eq!(cell(&g, 5, 22), ('|', Color::Blue));
    // and the pine eighteen columns right of the house
    assert_eq!(cell(&g, 119, 18), ('*', Color::DarkGreen));
    assert_eq!(cell(&g, 118, 22), ('|', Color::DarkGreen));
    let mut night = grid(100, 30);
    decorations.render(
        &mut night,
        &DecorationRenderConfig {
            horizon_y: 23,
            house_x: 18,
            house_width: 64,
            width: 100,
            is_day: false,
        },
    );
    // no room for the tree left of the house: only fence and mailbox
    assert_eq!(cell(&night, 6, 18), (' ', Color::Reset));
    assert_eq!(cell(&night, 84, 21), ('|', Color::Grey));
    assert_eq!(cell(&night, 1, 20), ('_', Color::DarkBlue));
}

#[test]
fn test_world_scene() {
    let mut scene = WorldScene::new(70, 20);
    scene.update_size(100, 30);
    assert_eq!(WorldScene::GROUND_HEIGHT, 7);
    let mut g = grid(100, 30);
    scene.render(&mut g, &WeatherConditions::default());
    assert_eq!(cell(&g, 0, 23), ('^', Color::Green));
    assert_eq!(cell(&g, 28, 10), ('(', Color::DarkGrey));
    assert_eq!(cell(&g, 26, 18), ('[', Color::Cyan));
    assert_eq!(cell(&g, 84, 21), ('|', Color::White));
    assert_eq!(cell(&g, 1, 20), ('_', Color::Blue));
    // the house's lawn lies over nothing of the ground: it ends a row above
    assert_eq!(cell(&g, 19, 22), ('^', Color::Green));
    let night = WeatherConditions {
        is_day: false,
        ..WeatherConditions::default()
    };
    g.clear();
    scene.render(&mut g, &night);
    assert_eq!(cell(&g, 26, 18), ('[', Color::Yellow));
    assert_eq!(cell(&g, 0, 23), ('^', Color::DarkGreen));
    // a terminal with no room for anything is survived
    let mut small = grid(70, 20);
    WorldScene::new(0, 0).render(&mut small, &night);
    WorldScene::new(65535, 65535).render(&mut small, &night);
}

#[test]
fn test_scripted_stars_are_the_same_every_time() {
    let words: Vec<u32> = (0..97u32).map(|i| i.wrapping_mul(2_654_435_761)).collect();
    let a = StarSystem::new(100, 30, &mut ScriptedSource::new(words.clone()));
    let b = StarSystem::new(100, 30, &mut ScriptedSource::new(words));
    let places = |s: &StarSystem| -> Vec<(u16, u16, u16, i64)> {
        s.stars.iter().map(|s| (s.x, s.y, s.brightness, s.phase)).collect()
    };
    assert_eq!(places(&a), places(&b));
}
