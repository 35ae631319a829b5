use weathr::animation::airplanes::{AirplaneSystem, PlaneSeed};
use weathr::animation::birds::{make_bird, Bird, BirdSeed, BirdSystem};
use weathr::animation::chimney::{make_puff, ChimneySmoke, SmokeParticle, SmokeSeed, MAX_PARTICLES};
use weathr::animation::clouds::{create_cloud_shape, create_random_cloud, CloudSeed, CloudSystem};
use weathr::animation::engine::{Dot, Particle, Stage};
use weathr::animation::fireflies::{Firefly, FireflySeed, FireflySystem, FireflyTurn};
use weathr::animation::leaves::{make_leaf, FallingLeaves, LeafSeed};
use weathr::animation::ufo::{UfoSeed, UfoSystem};
use weathr::fixed::UNIT;
use weathr::random::{ScriptedSource, ThreadSource};
use weathr::render::{Cell, Color, ColorSupport, TerminalCapabilities, TerminalRenderer};

const STAGE: Stage = Stage {
    width: 100,
    height: 30,
};

fn grid() -> TerminalRenderer {
    TerminalRenderer::with_size(
        100,
        30,
        TerminalCapabilities {
            color_support: ColorSupport::TrueColor,
            is_tty: true,
        },
    )
}

fn cell(g: &TerminalRenderer, x: u16, y: u16) -> (char, Color) {
    let c: Cell = g.cell_at(x, y).unwrap();
    (c.character, c.color)
}

fn leaf_seed() -> LeafSeed {
    LeafSeed {
        column: UNIT / 2,
        row: UNIT / 2,
        fall: UNIT / 2,
        sway: UNIT / 2,
        phase: UNIT / 4,
        amplitude: UNIT / 2,
        tint: 7,
        glyph: 6,
    }
}

#[test]
fn test_make_leaf() {
    let top = make_leaf(leaf_seed(), 100, true);
    assert_eq!((top.x, top.y), (50_000, -2500));
    assert_eq!(top.fall_speed, 250);
    assert_eq!(top.sway_speed, 100);
    assert_eq!(top.sway_phase, 1571);
    assert_eq!(top.sway_amplitude, 1250);
    assert_eq!(top.rotation, 0);
    assert_eq!(top.color, Color::Rgb { r: 218, g: 165, b: 32 });
    assert_eq!(top.character, '+');
    let anywhere = make_leaf(leaf_seed(), 100, false);
    assert_eq!(anywhere.y, 50_000);
}

#[test]
fn test_leaf_sinks_sways_and_turns() {
    let mut leaf = make_leaf(leaf_seed(), 100, true);
    leaf.step(&STAGE);
    assert_eq!(leaf.y, -2250);
    assert_eq!(leaf.sway_phase, 1671);
    assert_eq!(leaf.x, 50_000 + 124);
    assert_eq!(leaf.rotation, 0);
    assert!(leaf.project(&STAGE).is_none());
    leaf.sway_phase = 685;
    leaf.y = 4000;
    leaf.step(&STAGE);
    assert_eq!(leaf.sway_phase, 785);
    assert_eq!(leaf.rotation, 3);
    leaf.sway_phase = 6250;
    leaf.step(&STAGE);
    assert_eq!(leaf.sway_phase, 66);
    leaf.y = 30_000;
    assert!(leaf.is_alive(&STAGE));
    leaf.y = 30_001;
    assert!(!leaf.is_alive(&STAGE));
}

#[test]
fn test_leaf_shows_another_character_as_it_turns() {
    let mut leaf = make_leaf(leaf_seed(), 100, true);
    leaf.character = '*';
    for (rotation, shown) in [(0u8, '*'), (1, '+'), (2, '*'), (3, '*'), (4, '*'), (5, '+')] {
        leaf.rotation = rotation;
        assert_eq!(leaf.get_character(), shown);
    }
    leaf.character = '+';
    for (rotation, shown) in [(0u8, '+'), (1, '+'), (2, '*'), (3, '+'), (6, '*')] {
        leaf.rotation = rotation;
        assert_eq!(leaf.get_character(), shown);
    }
    leaf.character = '~';
    leaf.rotation = 2;
    assert_eq!(leaf.get_character(), '~');
}

#[test]
fn test_leaves_join_on_their_timer_and_stay_within_the_limit() {
    let mut leaves = FallingLeaves::new(100, 30, &mut ScriptedSource::new(vec![0]));
    assert_eq!(leaves.leaves.len(), 10);
    assert_eq!(leaves.spawn_rate, 15);
    let mut fresh = FallingLeaves {
        leaves: Vec::new(),
        spawn_counter: 0,
        spawn_rate: 15,
        terminal_width: 100,
        terminal_height: 30,
    };
    for tick in 1..=14 {
        fresh.tick(100, 30, 0, leaf_seed());
        assert_eq!(fresh.spawn_counter, tick);
        assert!(fresh.leaves.is_empty());
    }
    fresh.tick(100, 30, 0, leaf_seed());
    assert_eq!(fresh.spawn_counter, 0);
    assert_eq!(fresh.leaves.len(), 1);
    assert_eq!(fresh.leaves[0].y, -2500);
    // three times in ten no leaf joins
    fresh.spawn_counter = 14;
    fresh.tick(100, 30, UNIT - 1, leaf_seed());
    assert_eq!(fresh.leaves.len(), 1);
    let mut source = ThreadSource::new(rand::rng());
    let mut many = FallingLeaves::new(400, 500, &mut source);
    assert_eq!(many.leaves.len(), 40);
    for _ in 0..400 {
        many.update(400, 500, &mut source);
        assert!(many.leaves.len() <= 50);
    }
    many.update(40, 500, &mut source);
    assert!(many.leaves.len() <= 10);
}

#[test]
fn test_make_puff_and_its_life() {
    let seed = SmokeSeed {
        drift: UNIT / 2,
        span: 20,
        offset: UNIT / 2,
    };
    let mut puff = make_puff(seed, 28, 10);
    assert_eq!((puff.x, puff.y, puff.age, puff.max_age, puff.drift), (28_000, 10_000, 0, 35, 0));
    let left = make_puff(
        SmokeSeed {
            drift: 0,
            span: 14,
            offset: 0,
        },
        28,
        10,
    );
    assert_eq!((left.x, left.max_age, left.drift), (27_000, 44, -75));
    puff.step(&STAGE);
    assert_eq!((puff.x, puff.y, puff.age), (28_000, 9800, 1));
    assert!(puff.is_alive(&STAGE));
    puff.age = 34;
    assert!(puff.is_alive(&STAGE));
    puff.age = 35;
    assert!(!puff.is_alive(&STAGE));
    puff.age = 0;
    puff.y = -1;
    assert!(!puff.is_alive(&STAGE));
}

#[test]
fn test_smoke_thins_with_age() {
    let mut puff = SmokeParticle {
        x: 28_400,
        y: 9900,
        age: 0,
        max_age: 30,
        drift: 0,
    };
    // of thirty ticks: a ring for six, a dot up to twelve, a wisp up to twenty-one
    for (age, color, ch) in [
        (0u32, Color::White, 'o'),
        (5, Color::White, 'o'),
        (6, Color::White, '.'),
        (8, Color::White, '.'),
        (9, Color::Grey, '.'),
        (11, Color::Grey, '.'),
        (12, Color::Grey, '~'),
        (17, Color::Grey, '~'),
        (18, Color::DarkGrey, '~'),
        (20, Color::DarkGrey, '~'),
        (21, Color::DarkGrey, '\u{b7}'),
        (29, Color::DarkGrey, '\u{b7}'),
    ] {
        puff.age = age;
        assert_eq!(puff.get_color(), color);
        assert_eq!(puff.get_character(), ch);
        let g = puff.project(&STAGE).unwrap();
        assert_eq!((g.x, g.y, g.character, g.color), (28, 9, ch, color));
    }
    // a puff that lasts longer stays in each stage for longer
    puff.max_age = 44;
    for (age, ch) in [(8u32, 'o'), (9, '.'), (17, '.'), (18, '~'), (30, '~'), (31, '\u{b7}')] {
        puff.age = age;
        assert_eq!(puff.get_character(), ch);
    }
    puff.max_age = 30;
    puff.age = 0;
    puff.x = -1;
    assert!(puff.project(&STAGE).is_none());
}

#[test]
fn test_chimney_puffs_every_eighth_tick() {
    let mut smoke = ChimneySmoke::new();
    let seed = SmokeSeed {
        drift: UNIT / 2,
        span: 0,
        offset: UNIT / 2,
    };
    for tick in 1..=7 {
        smoke.tick(28, 10, seed);
        assert_eq!(smoke.spawn_counter, tick);
        assert!(smoke.particles.is_empty());
    }
    smoke.tick(28, 10, seed);
    assert_eq!(smoke.spawn_counter, 0);
    assert_eq!(smoke.particles.len(), 1);
    let mut source = ThreadSource::new(rand::rng());
    for _ in 0..2000 {
        smoke.update(28, 10, &mut source);
        assert!(smoke.particles.len() <= MAX_PARTICLES);
        // a puff lasts 44 ticks at most and one comes every eighth tick
        assert!(smoke.particles.len() <= 6);
        assert!(smoke.particles.iter().all(|p| p.is_alive(&STAGE)));
    }
    let rest = ChimneySmoke::default();
    assert_eq!(rest.spawn_rate, 8);
}

#[test]
fn test_random_cloud() {
    let seed = CloudSeed {
        shape: 5,
        row: 27,
        column: 250,
        speed: UNIT / 2,
    };
    let c = create_random_cloud(seed, 100, 30, true, Color::White);
    assert_eq!((c.x, c.y, c.speed, c.shape, c.color), (50_000, 7000, 100, 1, Color::White));
    let late = create_random_cloud(seed, 100, 30, false, Color::Grey);
    assert_eq!((late.x, late.color), (-13_000, Color::Grey));
    let small = create_random_cloud(CloudSeed { shape: 4, ..seed }, 0, 0, true, Color::White);
    assert_eq!((small.x, small.y, small.shape), (0, 0, 0));
    let narrow = create_random_cloud(CloudSeed { shape: 3, ..seed }, 100, 30, false, Color::White);
    assert_eq!(narrow.x, -10_000);
    assert_eq!(create_cloud_shape(0)[0], "   .--.   ");
    assert_eq!(create_cloud_shape(1).len(), 4);
    assert_eq!(create_cloud_shape(6)[2], " (___.__)__) ");
    assert_eq!(create_cloud_shape(3)[3], "  `--'     ");
}

#[test]
fn test_clouds_drift_leave_and_join() {
    let mut clouds = CloudSystem::new(100, 30, &mut ScriptedSource::new(vec![0]));
    assert_eq!(clouds.clouds.len(), 5);
    assert!(clouds.clouds.iter().all(|c| c.color == Color::White));
    assert_eq!(CloudSystem::new(10, 30, &mut ScriptedSource::new(vec![0])).clouds.len(), 1);
    let seed = CloudSeed {
        shape: 0,
        row: 3,
        column: 0,
        speed: 0,
    };
    let mut sky = CloudSystem {
        clouds: vec![create_random_cloud(seed, 100, 30, true, Color::White)],
        terminal_width: 100,
        terminal_height: 30,
    };
    sky.clouds[0].x = 99_940;
    sky.tick(100, 30, false, Color::DarkGrey, UNIT - 1, seed);
    assert_eq!(sky.clouds[0].x, 99_990);
    sky.tick(100, 30, false, Color::DarkGrey, UNIT - 1, seed);
    assert!(sky.clouds.is_empty());
    // five times in a thousand a cloud joins at the left
    sky.tick(100, 30, false, Color::DarkGrey, 83_886, seed);
    assert_eq!(sky.clouds.len(), 1);
    assert_eq!((sky.clouds[0].x, sky.clouds[0].y, sky.clouds[0].color), (-10_000, 3000, Color::DarkGrey));
    sky.tick(100, 30, false, Color::DarkGrey, 83_887, seed);
    assert_eq!(sky.clouds.len(), 1);
    // under a clear sky there are fewer: two on a hundred columns
    sky.tick(100, 30, true, Color::White, 0, seed);
    assert_eq!(sky.clouds.len(), 2);
    sky.tick(100, 30, true, Color::White, 0, seed);
    assert_eq!(sky.clouds.len(), 2);
    sky.set_cloud_color(false);
    assert!(sky.clouds.iter().all(|c| c.color == Color::DarkGrey));
    sky.set_cloud_color(true);
    assert!(sky.clouds.iter().all(|c| c.color == Color::White));
}

#[test]
fn test_cloud_is_painted_whole() {
    let seed = CloudSeed {
        shape: 0,
        row: 7,
        column: 50,
        speed: 0,
    };
    let mut sky = CloudSystem {
        clouds: vec![create_random_cloud(seed, 100, 30, true, Color::Grey)],
        terminal_width: 100,
        terminal_height: 30,
    };
    let mut g = grid();
    g.render_char(50, 7, '#', Color::Red);
    sky.render(&mut g);
    // the cloud's spaces cover what is behind it
    assert_eq!(cell(&g, 50, 7), (' ', Color::Grey));
    assert_eq!(cell(&g, 53, 7), ('.', Color::Grey));
    assert_eq!(cell(&g, 50, 9), ('(', Color::Grey));
    assert_eq!(cell(&g, 59, 9), (')', Color::Grey));
    assert_eq!(cell(&g, 60, 9), (' ', Color::Reset));
    // a cloud that is still left of the terminal shows at its edge
    sky.clouds[0].x = -4000;
    g.clear();
    sky.render(&mut g);
    assert_eq!(cell(&g, 0, 9), ('(', Color::Grey));
}

#[test]
fn test_bird_flies_and_flaps() {
    let mut bird = make_bird(
        BirdSeed {
            row: 25,
            speed: UNIT / 2,
        },
        30,
    );
    assert_eq!((bird.x, bird.y, bird.speed), (0, 5000, 300));
    assert_eq!((bird.character, bird.flap_state, bird.flap_timer), ('v', true, 0));
    for tick in 1..=5 {
        bird.step(&STAGE);
        assert_eq!((bird.x, bird.flap_timer, bird.character), (300 * tick as i64, tick, 'v'));
    }
    bird.step(&STAGE);
    assert_eq!((bird.flap_timer, bird.flap_state, bird.character), (0, false, '-'));
    for _ in 0..6 {
        bird.step(&STAGE);
    }
    assert_eq!((bird.flap_state, bird.character), (true, 'v'));
    let g = bird.project(&STAGE).unwrap();
    assert_eq!((g.x, g.y, g.color), (3, 5, Color::Yellow));
    bird.x = 100_000;
    assert!(!bird.is_alive(&STAGE));
    bird.x = 99_999;
    assert!(bird.is_alive(&STAGE));
    assert_eq!(make_bird(BirdSeed { row: 9, speed: 0 }, 2).y, 0);
}

#[test]
fn test_birds_are_three_at_most() {
    let mut birds = BirdSystem::new(100, 30);
    let seed = BirdSeed { row: 4, speed: 0 };
    // one time in a hundred a bird comes
    birds.tick(100, 30, 167_773, seed);
    assert!(birds.birds.is_empty());
    for _ in 0..5 {
        birds.tick(100, 30, 167_772, seed);
    }
    assert_eq!(birds.birds.len(), 3);
    assert_eq!(birds.birds[0].x, 800);
    assert_eq!(birds.birds[2].x, 400);
    let mut source = ThreadSource::new(rand::rng());
    for _ in 0..3000 {
        birds.update(100, 30, &mut source);
        assert!(birds.birds.len() <= 3);
    }
}

#[test]
fn test_bird_system_paints_birds() {
    let mut birds = BirdSystem::new(100, 30);
    birds.birds.push(Bird {
        x: 12_300,
        y: 4000,
        speed: 200,
        character: '-',
        flap_state: false,
        flap_timer: 2,
    });
    let mut g = grid();
    birds.render(&mut g);
    assert_eq!(cell(&g, 12, 4), ('-', Color::Yellow));
}

#[test]
fn test_airplanes_come_after_their_pause() {
    let mut planes = AirplaneSystem::new(100, 30);
    let seed = PlaneSeed {
        row: 9,
        speed: UNIT / 2,
        pause: 650,
    };
    // one time in a thousand
    planes.tick(100, 30, 16_778, seed);
    assert!(planes.planes.is_empty());
    planes.tick(100, 30, 16_777, seed);
    assert_eq!(planes.planes.len(), 1);
    assert_eq!((planes.planes[0].x, planes.planes[0].y, planes.planes[0].speed), (0, 2000, 400));
    assert_eq!(planes.spawn_cooldown, 650);
    planes.tick(100, 30, 0, seed);
    assert_eq!(planes.planes.len(), 1);
    assert_eq!(planes.planes[0].x, 400);
    assert_eq!(planes.spawn_cooldown, 649);
    planes.spawn_cooldown = 1;
    planes.tick(100, 30, 0, seed);
    assert_eq!(planes.planes.len(), 2);
    planes.planes[0].x = 99_600;
    planes.tick(100, 30, UNIT - 1, seed);
    assert_eq!(planes.planes.len(), 1);
}

#[test]
fn test_airplane_is_painted_in_its_colours() {
    let mut planes = AirplaneSystem::new(100, 30);
    planes.spawn_plane(PlaneSeed {
        row: 3,
        speed: 0,
        pause: 0,
    });
    planes.planes[0].x = 20_500;
    let mut g = grid();
    planes.render(&mut g);
    assert_eq!(cell(&g, 31, 3), ('_', Color::DarkGrey));
    assert_eq!(cell(&g, 29, 4), ('-', Color::White));
    assert_eq!(cell(&g, 31, 4), ('\\', Color::Blue));
    assert_eq!(cell(&g, 28, 6), ('"', Color::Cyan));
    assert_eq!(cell(&g, 27, 7), ('~', Color::Grey));
    assert_eq!(cell(&g, 20, 3), (' ', Color::Reset));
    assert_eq!(cell(&g, 30, 9), ('\'', Color::White));
}

#[test]
fn test_ufo_wobbles_across() {
    let mut ufos = UfoSystem::new(100, 30);
    let seed = UfoSeed {
        row: 14,
        speed: 0,
        pause: 301,
    };
    ufos.tick(100, 30, 83_887, seed);
    assert!(ufos.ufos.is_empty());
    ufos.tick(100, 30, 83_886, seed);
    assert_eq!(ufos.ufos.len(), 1);
    assert_eq!(ufos.spawn_cooldown, 301);
    let u = ufos.ufos[0];
    assert_eq!((u.x, u.y, u.speed, u.wobble_phase), (-15_000, 4000, 500, 0));
    ufos.tick(100, 30, 0, seed);
    let u = ufos.ufos[0];
    assert_eq!((u.x, u.y, u.wobble_phase), (-14_500, 4020, 100));
    ufos.tick(100, 30, 0, seed);
    assert_eq!(ufos.ufos[0].y, 4060);
    ufos.ufos[0].x = 99_500;
    ufos.tick(100, 30, UNIT - 1, seed);
    assert!(ufos.ufos.is_empty());
}

#[test]
fn test_ufo_is_painted_in_its_colours() {
    let mut ufos = UfoSystem::new(100, 30);
    ufos.spawn_ufo(UfoSeed {
        row: 5,
        speed: 0,
        pause: 0,
    });
    ufos.ufos[0].x = -2000;
    let mut g = grid();
    ufos.render(&mut g);
    // the left two columns of the saucer are off the terminal
    assert_eq!(cell(&g, 2, 5), ('.', Color::Grey));
    assert_eq!(cell(&g, 4, 6), ('~', Color::Green));
    assert_eq!(cell(&g, 5, 6), ('0', Color::Green));
    assert_eq!(cell(&g, 1, 8), ('*', Color::Cyan));
    assert_eq!(cell(&g, 0, 7), ('_', Color::Grey));
}

fn firefly_seed() -> FireflySeed {
    FireflySeed {
        column: UNIT / 2,
        row: UNIT / 2,
        vx: UNIT / 2,
        vy: UNIT / 2,
        glow_speed: 0,
        glow_phase: UNIT / 4,
    }
}

const STEADY: FireflyTurn = FireflyTurn {
    reroll: UNIT - 1,
    vx: 0,
    vy: 0,
};

#[test]
fn test_firefly_starts_in_the_band() {
    let f = Firefly::new(firefly_seed(), 100, 23);
    assert_eq!((f.x, f.y, f.vx, f.vy), (50_000, 18_500, 0, 0));
    assert_eq!((f.glow_speed, f.glow_phase, f.brightness), (100, 1571, 0));
    assert!(!f.is_visible());
    let low = Firefly::new(firefly_seed(), 100, 0);
    assert_eq!(low.y, 0);
}

#[test]
fn test_firefly_glows_wraps_and_bounces() {
    let mut f = Firefly::new(firefly_seed(), 100, 23);
    f.update(100, 23, STEADY);
    assert_eq!(f.glow_phase, 1671);
    assert_eq!(f.brightness, 254);
    assert_eq!((f.get_character(), f.get_color()), ('*', Color::Yellow));
    f.vx = -300;
    f.x = 100;
    f.update(100, 23, STEADY);
    assert_eq!(f.x, 100_000);
    f.vx = 300;
    f.update(100, 23, STEADY);
    assert_eq!(f.x, 0);
    f.y = 15_050;
    f.vy = -100;
    f.update(100, 23, STEADY);
    assert_eq!((f.y, f.vy), (15_000, 100));
    f.y = 21_950;
    f.update(100, 23, STEADY);
    assert_eq!((f.y, f.vy), (22_000, -100));
    // two times in a hundred the course changes
    f.update(
        100,
        23,
        FireflyTurn {
            reroll: 0,
            vx: UNIT - 1,
            vy: 0,
        },
    );
    assert_eq!((f.vx, f.vy), (149, -100));
}

#[test]
fn test_firefly_is_seen_only_when_bright() {
    let mut f = Firefly::new(firefly_seed(), 100, 23);
    for (brightness, seen, ch, color) in [
        (0u8, false, ' ', Color::DarkGrey),
        (64, false, ' ', Color::DarkGrey),
        (65, true, '\u{b7}', Color::Rgb { r: 150, g: 200, b: 80 }),
        (128, true, '\u{b7}', Color::Rgb { r: 150, g: 200, b: 80 }),
        (129, true, '.', Color::Rgb { r: 200, g: 255, b: 100 }),
        (200, true, '.', Color::Rgb { r: 200, g: 255, b: 100 }),
        (201, true, '*', Color::Yellow),
        (255, true, '*', Color::Yellow),
    ] {
        f.brightness = brightness;
        assert_eq!(f.is_visible(), seen);
        assert_eq!(f.get_character(), ch);
        assert_eq!(f.get_color(), color);
        assert_eq!(f.project(&STAGE).is_some(), seen);
    }
}

#[test]
fn test_fireflies_never_pass_their_target() {
    let mut fireflies = FireflySystem::new(100, 30);
    // one time in a hundred one joins, up to six on a hundred columns
    for _ in 0..10 {
        let turns = vec![STEADY; fireflies.fireflies.len()];
        fireflies.tick(100, 30, 23, &turns, 0, firefly_seed());
    }
    assert_eq!(fireflies.fireflies.len(), 6);
    fireflies.tick(100, 30, 23, &Vec::new(), 167_773, firefly_seed());
    assert_eq!(fireflies.fireflies.len(), 6);
    let mut source = ThreadSource::new(rand::rng());
    for width in [0u16, 44, 45, 90, 300] {
        let mut system = FireflySystem::new(width, 30);
        let most = std::cmp::max(3, width / 15) as usize;
        for _ in 0..3000 {
            system.update(width, 30, 23, &mut source);
            assert!(system.fireflies.len() <= most);
            assert!(system.fireflies.iter().all(|f| (15_000..=22_000).contains(&f.y)));
        }
    }
}
