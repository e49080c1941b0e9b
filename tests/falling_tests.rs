use falling::{
    get_random_i64, get_random_usize, DrawCommand, FallingConfig, FallingObject, FlakeType, Scene,
};

fn palette() -> Vec<String> {
    vec!["#fff".to_string(), "#f00".to_string(), "#0f0".to_string()]
}

fn config(frequency: u8, radius: (i32, i32), speed: (i32, i32), angle: (i32, i32)) -> FallingConfig {
    FallingConfig::new(
        frequency,
        radius.0,
        radius.1,
        speed.0,
        speed.1,
        angle.0,
        angle.1,
        palette(),
        FlakeType::Circle,
        "*".to_string(),
        "#stage".to_string(),
    )
}

fn particle(x: i64, y: i64, speed: i32, angle: i32, deleted: bool) -> FallingObject {
    FallingObject {
        x,
        y,
        speed,
        angle,
        color: "#fff".to_string(),
        radius: 2,
        type_: FlakeType::Circle,
        text: String::new(),
        deleted,
    }
}

#[test]
fn config_new_keeps_every_field() {
    let c = FallingConfig::new(
        7,
        1,
        4,
        2,
        9,
        -3,
        3,
        palette(),
        FlakeType::Text,
        "snow".to_string(),
        "#mount".to_string(),
    );
    assert_eq!(c.frequency, 7);
    assert_eq!((c.min_radius, c.max_radius), (1, 4));
    assert_eq!((c.min_speed, c.max_speed), (2, 9));
    assert_eq!((c.min_angle, c.max_angle), (-3, 3));
    assert_eq!(c.colors, palette());
    assert_eq!(c.type_, FlakeType::Text);
    assert_eq!(c.text, "snow");
    assert_eq!(c.el, "#mount");
}

#[test]
fn fixed_ranges_give_their_bound() {
    let scene = Scene::new(config(1, (3, 3), (5, 5), (-2, -2)));
    for _ in 0..50 {
        let p = FallingObject::new(&scene);
        assert_eq!(p.radius, 3);
        assert_eq!(p.speed, 5);
        assert_eq!(p.angle, -2);
        assert_eq!(p.x, 0);
        assert_eq!(p.y, 0);
        assert!(!p.deleted);
    }
}

#[test]
fn spawned_attributes_stay_in_their_ranges() {
    let mut scene = Scene::new(config(1, (1, 6), (2, 8), (-4, 4)));
    scene.resize(640, 480);
    for _ in 0..200 {
        let p = FallingObject::new(&scene);
        assert!(0 <= p.x && p.x < 640);
        assert!(1 <= p.radius && p.radius < 6);
        assert!(2 <= p.speed && p.speed < 8);
        assert!(-4 <= p.angle && p.angle < 4);
        assert!(palette().contains(&p.color));
        assert_eq!(p.text, "*");
        assert_eq!(p.type_, FlakeType::Circle);
    }
}

#[test]
fn single_colour_palette_always_gives_it() {
    let c = FallingConfig::new(
        1,
        1,
        1,
        1,
        1,
        0,
        0,
        vec!["#abc".to_string()],
        FlakeType::Square,
        String::new(),
        "#m".to_string(),
    );
    let scene = Scene::new(c);
    for _ in 0..20 {
        assert_eq!(FallingObject::new(&scene).color, "#abc");
    }
}

#[test]
fn fixed_draws_give_the_same_particle() {
    let c = config(1, (1, 5), (1, 5), (-1, 1));
    let a = FallingObject::with_draws(&c, 42, 3, -1, 2, 1);
    let b = FallingObject::with_draws(&c, 42, 3, -1, 2, 1);
    assert_eq!(a, b);
    assert_eq!(a.x, 42);
    assert_eq!(a.y, 0);
    assert_eq!(a.speed, 3);
    assert_eq!(a.angle, -1);
    assert_eq!(a.radius, 2);
    assert_eq!(a.color, "#f00");
    assert_eq!(a.text, "*");
    assert!(!a.deleted);
}

#[test]
fn update_is_repeatable_from_equal_states() {
    let mut a = particle(10, 0, 3, 2, false);
    let mut b = particle(10, 0, 3, 2, false);
    assert_eq!(a.update(), 3);
    assert_eq!(b.update(), 3);
    assert_eq!((a.x, a.y), (16, 3));
    assert_eq!((b.x, b.y), (16, 3));
    assert_eq!(a.update(), 6);
    assert_eq!(b.update(), 6);
    assert_eq!((a.x, a.y), (22, 6));
    assert_eq!(a, b);
}

#[test]
fn update_saturates_at_the_bounds() {
    let mut p = particle(i64::MAX - 1, i64::MAX - 2, 5, 4, false);
    assert_eq!(p.update(), i64::MAX);
    assert_eq!(p.x, i64::MAX);
    let mut q = particle(i64::MIN + 1, 0, 3, -4, false);
    q.update();
    assert_eq!(q.x, i64::MIN);
}

#[test]
fn live_set_grows_by_spawn_rate_without_culling() {
    let mut scene = Scene::new(config(3, (1, 2), (1, 1), (0, 0)));
    scene.resize(100, 1_000_000);
    for n in 1..=5usize {
        let draws = scene.render();
        assert_eq!(scene.objects.len(), n * 3);
        assert_eq!(draws.len(), n * 3 + 1);
    }
    assert!(scene.objects.iter().all(|p| !p.deleted));
}

#[test]
fn crossing_particle_is_drawn_once_more_then_dropped() {
    let mut scene = Scene::new(config(0, (1, 1), (1, 1), (0, 0)));
    scene.resize(100, 5);
    scene.objects.push(particle(7, 0, 10, 0, false));
    let draws = scene.step(vec![]);
    assert_eq!(scene.objects.len(), 1);
    assert!(scene.objects[0].deleted);
    assert_eq!(scene.objects[0].y, 10);
    assert_eq!(
        draws,
        vec![
            DrawCommand::Clear { width: 100, height: 5 },
            DrawCommand::Circle { x: 7, y: 10, radius: 2, color: "#fff".to_string() },
        ]
    );
    let draws = scene.step(vec![]);
    assert!(scene.objects.is_empty());
    assert_eq!(draws, vec![DrawCommand::Clear { width: 100, height: 5 }]);
}

#[test]
fn particle_exactly_on_the_bottom_edge_stays() {
    let mut scene = Scene::new(config(0, (1, 1), (1, 1), (0, 0)));
    scene.resize(10, 10);
    scene.objects.push(particle(0, 5, 5, 0, false));
    scene.step(vec![]);
    assert_eq!(scene.objects[0].y, 10);
    assert!(!scene.objects[0].deleted);
}

#[test]
fn first_frame_after_resize_spawns_on_the_top_edge() {
    let mut scene = Scene::new(config(4, (1, 3), (2, 2), (0, 0)));
    scene.resize(320, 200);
    let draws = scene.render();
    assert_eq!(draws[0], DrawCommand::Clear { width: 320, height: 200 });
    assert_eq!(draws.len(), 5);
    assert_eq!(scene.objects.len(), 4);
    for p in scene.objects.iter() {
        assert!(0 <= p.x && p.x < 320);
        assert_eq!(p.y, 2);
        assert!(!p.deleted);
    }
}

#[test]
fn render_before_resize_clears_nothing_and_spawns_at_origin() {
    let mut scene = Scene::new(config(2, (1, 1), (0, 0), (0, 0)));
    let draws = scene.render();
    assert_eq!(draws[0], DrawCommand::Clear { width: 0, height: 0 });
    assert_eq!(scene.objects.len(), 2);
    for p in scene.objects.iter() {
        assert_eq!((p.x, p.y), (0, 0));
    }
}

#[test]
fn compaction_keeps_order_of_survivors() {
    let mut scene = Scene::new(config(0, (1, 1), (1, 1), (0, 0)));
    scene.objects.push(particle(1, 0, 1, 0, false));
    scene.objects.push(particle(2, 0, 1, 0, true));
    scene.objects.push(particle(3, 0, 1, 0, false));
    scene.compact();
    let xs: Vec<i64> = scene.objects.iter().map(|p| p.x).collect();
    assert_eq!(xs, vec![1, 3]);
}

#[test]
fn compaction_of_all_flagged_is_empty() {
    let mut scene = Scene::new(config(0, (1, 1), (1, 1), (0, 0)));
    scene.objects.push(particle(1, 0, 1, 0, true));
    scene.objects.push(particle(2, 0, 1, 0, true));
    scene.compact();
    assert!(scene.objects.is_empty());
}

#[test]
fn step_appends_spawned_after_survivors() {
    let mut scene = Scene::new(config(0, (1, 1), (1, 1), (0, 0)));
    scene.resize(50, 50);
    scene.objects.push(particle(1, 0, 1, 1, false));
    let c = config(0, (1, 1), (1, 1), (0, 0));
    let fresh = FallingObject::with_draws(&c, 9, 4, 2, 1, 2);
    let draws = scene.step(vec![fresh]);
    assert_eq!(scene.objects.len(), 2);
    assert_eq!((scene.objects[0].x, scene.objects[0].y), (2, 1));
    assert_eq!((scene.objects[1].x, scene.objects[1].y), (17, 4));
    assert_eq!(
        draws[2],
        DrawCommand::Circle { x: 17, y: 4, radius: 1, color: "#0f0".to_string() }
    );
}

#[test]
fn draw_commands_follow_the_shape() {
    let mut p = particle(4, 6, 1, 0, false);
    p.radius = 3;
    assert_eq!(
        p.render(),
        DrawCommand::Circle { x: 4, y: 6, radius: 3, color: "#fff".to_string() }
    );
    p.type_ = FlakeType::Square;
    assert_eq!(p.render(), DrawCommand::Square { x: 4, y: 6, side: 6, color: "#fff".to_string() });
    p.type_ = FlakeType::Text;
    p.text = "o".to_string();
    assert_eq!(
        p.render(),
        DrawCommand::Text {
            x: 4,
            y: 6,
            font_px: 15,
            color: "#fff".to_string(),
            text: "o".to_string(),
        }
    );
}

#[test]
fn resize_keeps_particles_in_place() {
    let mut scene = Scene::new(config(0, (1, 1), (1, 1), (0, 0)));
    scene.objects.push(particle(5, 90, 1, 0, false));
    scene.resize(30, 20);
    assert_eq!((scene.stage_width, scene.stage_height), (30, 20));
    assert_eq!((scene.objects[0].x, scene.objects[0].y), (5, 90));
    scene.step(vec![]);
    assert!(scene.objects[0].deleted);
}

#[test]
fn random_value_of_a_point_range_is_that_point() {
    assert_eq!(get_random_i64(17, 17), 17);
    assert_eq!(get_random_i64(-4, -4), -4);
}

#[test]
fn random_value_covers_its_range() {
    let mut seen_other = false;
    for _ in 0..200 {
        let v = get_random_i64(0, 1000);
        assert!((0..1000).contains(&v));
        if v != 0 {
            seen_other = true;
        }
    }
    assert!(seen_other);
}

#[test]
fn random_index_covers_its_range() {
    let mut seen_other = false;
    for _ in 0..200 {
        let v = get_random_usize(0, 50);
        assert!(v < 50);
        if v != 0 {
            seen_other = true;
        }
    }
    assert!(seen_other);
    assert_eq!(get_random_usize(3, 4), 3);
}
