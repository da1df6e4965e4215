use dot_spheres::frame::{Action, FrameLoop, TIME_STEP};
use dot_spheres::rotation::{Axis, Rotation, Weights, QUARTER_TURN};
use dot_spheres::sets::{build_sets, standard_configs, DotSet, Sphere};
use dot_spheres::viewport::{DetailTier, Viewport};
use nalgebra::{Matrix4, Point3, Rotation3, Vector3};
use std::f64::consts::FRAC_PI_2;

fn two_sets() -> Vec<DotSet> {
    vec![
        DotSet {
            mesh: Sphere { diameter: 2, u: 4, v: 2 },
            radius: 5,
            rotation: Weights { x: 1, y: 0, z: -1 },
        },
        DotSet {
            mesh: Sphere { diameter: 4, u: 6, v: 3 },
            radius: 7,
            rotation: Weights { x: 0, y: 2, z: 3 },
        },
    ]
}

fn compose(rotation: &Rotation) -> Rotation3<f64> {
    let mut product = Rotation3::identity();
    for turn in rotation.turns() {
        let axis = match turn.axis {
            Axis::X => Vector3::x_axis(),
            Axis::Y => Vector3::y_axis(),
            Axis::Z => Vector3::z_axis(),
        };
        let angle = FRAC_PI_2 * (turn.angle as f64) / (QUARTER_TURN as f64);
        product = product * Rotation3::from_axis_angle(&axis, angle);
    }
    product
}

#[test]
fn new_loop_starts_at_time_zero_with_the_standard_sets() {
    let viewport = Viewport::new(1000, 1000);
    let frames = FrameLoop::new(viewport);
    assert_eq!(frames.time(), 0);
    assert_eq!(frames.viewport(), viewport);
    assert_eq!(frames.sets(), &build_sets(&standard_configs(DetailTier::Medium)));
    assert!(frames.sets().iter().all(|set| set.is_valid()));
}

#[test]
fn new_loop_takes_the_tier_from_the_viewport() {
    let coarse = FrameLoop::new(Viewport::new(500, 500));
    assert_eq!(coarse.sets()[0].mesh, Sphere { diameter: 20, u: 4, v: 2 });
    assert_eq!(coarse.sets()[2].mesh, Sphere { diameter: 60, u: 16, v: 8 });
    let fine = FrameLoop::new(Viewport::new(1200, 1600));
    assert_eq!(fine.sets()[0].mesh, Sphere { diameter: 20, u: 8, v: 4 });
    assert_eq!(fine.sets()[2].mesh, Sphere { diameter: 60, u: 32, v: 16 });
}

#[test]
fn tick_clears_draws_each_set_in_order_and_asks_for_the_next_frame() {
    let mut frames = FrameLoop::at_time(Viewport::new(640, 480), two_sets(), 500);
    let actions = frames.tick();
    assert_eq!(
        actions,
        vec![
            Action::Clear { width: 640, height: 480 },
            Action::DrawSet { set: 0, rotation: Rotation { x: 500, y: 0, z: -500 }, radius: 5 },
            Action::DrawSet { set: 1, rotation: Rotation { x: 0, y: 1000, z: 1500 }, radius: 7 },
            Action::RequestFrame,
        ]
    );
    assert_eq!(frames.time(), 502);
    assert_eq!(frames.sets(), &two_sets());
    assert_eq!(frames.viewport(), Viewport::new(640, 480));
}

#[test]
fn tick_moves_the_clock_by_a_fixed_step() {
    assert_eq!(TIME_STEP, 2);
    let mut frames = FrameLoop::new(Viewport::new(800, 600));
    for n in 0..100u64 {
        assert_eq!(frames.time(), n * TIME_STEP);
        frames.tick();
    }
    assert_eq!(frames.time(), 200);
}

#[test]
fn first_frame_draws_every_set_unturned() {
    let mut frames = FrameLoop::new(Viewport::new(1920, 1080));
    let actions = frames.tick();
    assert_eq!(actions.len(), 5);
    assert_eq!(actions[0], Action::Clear { width: 1920, height: 1080 });
    let radii = [4, 3, 2];
    for i in 0..3 {
        assert_eq!(
            actions[i + 1],
            Action::DrawSet { set: i, rotation: Rotation { x: 0, y: 0, z: 0 }, radius: radii[i] }
        );
    }
    assert_eq!(actions[4], Action::RequestFrame);
}

#[test]
fn second_frame_of_the_standard_sets() {
    let mut frames = FrameLoop::new(Viewport::new(1920, 1080));
    frames.tick();
    let actions = frames.tick();
    assert_eq!(
        actions,
        vec![
            Action::Clear { width: 1920, height: 1080 },
            Action::DrawSet { set: 0, rotation: Rotation { x: -4, y: -2, z: 6 }, radius: 4 },
            Action::DrawSet { set: 1, rotation: Rotation { x: -2, y: 2, z: 4 }, radius: 3 },
            Action::DrawSet { set: 2, rotation: Rotation { x: -2, y: 6, z: 2 }, radius: 2 },
            Action::RequestFrame,
        ]
    );
}

#[test]
fn frame_without_sets_still_clears_and_asks_for_the_next() {
    let mut frames = FrameLoop::with_sets(Viewport::new(10, 20), Vec::new());
    assert_eq!(frames.tick(), vec![Action::Clear { width: 10, height: 20 }, Action::RequestFrame]);
    assert_eq!(frames.time(), 2);
}

#[test]
fn same_state_gives_the_same_frames() {
    let mut first = FrameLoop::with_sets(Viewport::new(300, 200), two_sets());
    let mut second = FrameLoop::with_sets(Viewport::new(300, 200), two_sets());
    for _ in 0..50 {
        assert_eq!(first.tick(), second.tick());
        assert_eq!(first.time(), second.time());
    }
    let mut resumed = FrameLoop::at_time(Viewport::new(300, 200), two_sets(), first.time());
    assert_eq!(first.tick(), resumed.tick());
}

#[test]
fn every_tick_ends_by_asking_for_the_next_frame() {
    let mut frames = FrameLoop::new(Viewport::new(640, 480));
    for _ in 0..20 {
        let actions = frames.tick();
        assert_eq!(actions.first(), Some(&Action::Clear { width: 640, height: 480 }));
        assert_eq!(actions.last(), Some(&Action::RequestFrame));
        let requests = actions.iter().filter(|action| **action == Action::RequestFrame).count();
        assert_eq!(requests, 1);
    }
}

#[test]
fn clock_can_tick_until_the_last_step_that_fits() {
    let viewport = Viewport::new(1, 1);
    assert!(FrameLoop::new(viewport).can_tick());
    let mut frames = FrameLoop::at_time(viewport, two_sets(), u64::MAX - 2);
    assert!(frames.can_tick());
    let actions = frames.tick();
    assert_eq!(
        actions[1],
        Action::DrawSet {
            set: 0,
            rotation: Rotation {
                x: 18_446_744_073_709_551_613,
                y: 0,
                z: -18_446_744_073_709_551_613,
            },
            radius: 5,
        }
    );
    assert_eq!(frames.time(), u64::MAX);
    assert!(!frames.can_tick());
    assert!(!FrameLoop::at_time(viewport, two_sets(), u64::MAX - 1).can_tick());
}

#[test]
fn first_frame_projects_points_unturned() {
    let viewport = Viewport::new(10, 10);
    let set = DotSet {
        mesh: Sphere { diameter: 2, u: 4, v: 2 },
        radius: 1,
        rotation: Weights { x: -2, y: -1, z: 3 },
    };
    let mut frames = FrameLoop::with_sets(viewport, vec![set]);
    let actions = frames.tick();
    let rotation = match actions[1] {
        Action::DrawSet { set: 0, rotation, radius: 1 } => compose(&rotation),
        _ => panic!("the second step draws the only set"),
    };
    assert_eq!(rotation, Rotation3::identity());

    let camera = Matrix4::<f64>::identity();
    let center = Vector3::new(
        f64::from(viewport.width) / 2.0,
        f64::from(viewport.height) / 2.0,
        0.0,
    );
    let points = [Point3::new(1.0, 0.0, 0.0), Point3::new(0.0, 1.0, 0.0)];
    let first = camera.transform_point(&(rotation * points[0])) + center;
    let second = camera.transform_point(&(rotation * points[1])) + center;
    assert_eq!((first.x, first.y), (6.0, 5.0));
    assert_eq!((second.x, second.y), (5.0, 6.0));
}
