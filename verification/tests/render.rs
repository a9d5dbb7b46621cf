use pathtrace::camera::Camera;
use pathtrace::fx::Fx;
use pathtrace::material;
use pathtrace::material::MaterialType;
use pathtrace::ray::Ray;
use pathtrace::renderer;
use pathtrace::renderer::RenderSettings;
use pathtrace::sampler::Sampler;
use pathtrace::scene::Scene;
use pathtrace::shape;
use pathtrace::shape::ObjectType;
use pathtrace::vec3::Vec3;

fn v3i(x: i64, y: i64, z: i64) -> Vec3 {
    Vec3::new(Fx::from_int(x), Fx::from_int(y), Fx::from_int(z))
}

fn test_camera(width: i64, height: i64) -> Camera {
    Camera::set(
        v3i(0, 0, 0),
        Vec3::new(Fx::from_int(-2), Fx::from_raw(98304), Fx::from_int(-1)),
        v3i(4, 0, 0),
        v3i(0, 3, 0),
        Fx::from_int(width),
        Fx::from_int(height),
    )
}

fn empty_scene() -> Scene {
    Scene::new(test_camera(16, 12))
}

/// A small scene exercising all three materials: a ground plane, a
/// diffuse sphere, a mirror sphere and a glass sphere.
fn three_sphere_scene() -> Scene {
    let mut scene = Scene::new(test_camera(16, 12));
    let ground = scene.add_material(material::new(
        Vec3::fill(Fx::from_raw(32768)),
        MaterialType::Lambertian,
    ));
    let diffuse = scene.add_material(material::new(
        Vec3::new(Fx::from_raw(6553), Fx::from_raw(13107), Fx::from_raw(32768)),
        MaterialType::Lambertian,
    ));
    let mirror = scene.add_material(material::new(
        Vec3::new(Fx::from_raw(52428), Fx::from_raw(39321), Fx::from_raw(13107)),
        MaterialType::Metal { fuzz: Fx::from_raw(19660) },
    ));
    let glass = scene.add_material(material::new(
        v3i(0, 0, 0),
        MaterialType::Dielectric { refract: Fx::from_raw(98304) },
    ));
    scene.add_object(
        v3i(0, 0, 0),
        ObjectType::Plane { distance: Fx::from_raw(32768), normal: Vec3::up() },
        ground,
    );
    scene.add_object(v3i(0, 0, -2), ObjectType::Sphere { radius: Fx::from_raw(32768) }, diffuse);
    scene.add_object(v3i(1, 0, -2), ObjectType::Sphere { radius: Fx::from_raw(32768) }, mirror);
    scene.add_object(v3i(-1, 0, -2), ObjectType::Sphere { radius: Fx::from_raw(32768) }, glass);
    scene
}

fn settings_for(scene_width: usize, scene_height: usize) -> RenderSettings {
    RenderSettings {
        screen_width: scene_width,
        screen_height: scene_height,
        samples_per_pixel: 4,
        max_ray_depth: 8,
        num_threads: 3,
        seed: 42,
    }
}

#[test]
fn trace_miss_returns_background_gradient() {
    // A level ray (direction y = 0) in an empty scene gathers exactly the
    // midpoint of the horizon-to-sky blend: (0.75, 0.85, 1.0).
    let scene = empty_scene();
    let mut s = Sampler::new(9);
    let before = s;
    let mut ray = Ray::new(v3i(0, 0, 0), v3i(0, 0, -1));
    let c = renderer::raytrace(&scene, &mut ray, 0, 50, &mut s);
    assert_eq!((c.x.raw, c.y.raw, c.z.raw), (49152, 55705, 65536));
    // No randomness is involved on a miss.
    assert_eq!(s, before);
    // Straight up: exactly the sky color (0.5, 0.7, 1.0).
    let mut ray = Ray::new(v3i(0, 0, 0), v3i(0, 1, 0));
    let c = renderer::raytrace(&scene, &mut ray, 0, 50, &mut s);
    assert_eq!((c.x.raw, c.y.raw, c.z.raw), (32768, 45875, 65536));
}

#[test]
fn trace_depth_zero_is_black() {
    // With no depth budget the trace returns black at the first call,
    // whatever the scene holds.
    let scene = three_sphere_scene();
    let mut s = Sampler::new(1);
    let mut ray = Ray::new(v3i(0, 0, 5), v3i(0, 0, -1));
    let c = renderer::raytrace(&scene, &mut ray, 0, 0, &mut s);
    assert_eq!(c, v3i(0, 0, 0));
    assert_eq!(s, Sampler::new(1));
}

#[test]
fn sphere_intersection_reports_near_root() {
    // A ray from (0, 0, 5) toward a unit sphere at the origin: roots at
    // t = 4 and t = 6; the recorded hit is t = 4 with normal (0, 0, 1).
    let mut scene = Scene::new(test_camera(16, 12));
    let m = scene.add_material(material::new(v3i(1, 1, 1), MaterialType::Lambertian));
    scene.add_object(v3i(0, 0, 0), ObjectType::Sphere { radius: Fx::from_int(1) }, m);
    let obj = &scene.objects[0];

    let mut ray = Ray::new(v3i(0, 0, 5), v3i(0, 0, -1));
    shape::intersect(obj, &mut ray, Fx::from_raw(66));
    assert_eq!(ray.travel_distance, Fx::from_int(4));
    let hit = ray.is_intersected.unwrap();
    assert_eq!(hit.normal, v3i(0, 0, 1));
    assert_eq!(hit.position, v3i(0, 0, 1));
    assert!(hit.front_face);

    // With the near root below tolerance, the far root t = 6 is kept.
    let mut ray = Ray::new(v3i(0, 0, 5), v3i(0, 0, -1));
    shape::intersect(obj, &mut ray, Fx::from_raw(294912));  // 4.5
    assert_eq!(ray.travel_distance, Fx::from_int(6));
    let hit = ray.is_intersected.unwrap();
    // The hit is on the far side: the outward normal points away from the
    // ray origin and is flipped toward it, with front_face cleared.
    assert_eq!(hit.normal, v3i(0, 0, 1));
    assert!(!hit.front_face);

    // A ray that misses leaves the record empty.
    let mut ray = Ray::new(v3i(0, 0, 5), v3i(0, 1, 0));
    shape::intersect(obj, &mut ray, Fx::from_raw(66));
    assert!(ray.is_intersected.is_none());
}

#[test]
fn hit_normal_faces_ray_origin_even_at_extremes() {
    // The stored normal always points against the incoming direction,
    // also where flipping brushes the scalar's saturation bounds.
    let mut ray = Ray::new(Vec3::zero(), Vec3::from_raw(-1, -65536, 0));
    let outward = Vec3::from_raw(i64::MIN, 140737488355328, 0);
    ray.set_intersection(Fx::from_int(1), 0, outward);
    let hit = ray.is_intersected.unwrap();
    assert!(Vec3::dot(ray.direction, hit.normal).raw <= 0);
    // An ordinary grazing case with the orientation dot exactly zero.
    let mut ray = Ray::new(Vec3::zero(), Vec3::from_raw(65536, 0, 0));
    ray.set_intersection(Fx::from_int(1), 0, Vec3::from_raw(0, 65536, 0));
    let hit = ray.is_intersected.unwrap();
    assert!(Vec3::dot(ray.direction, hit.normal).raw <= 0);
    assert!(!hit.front_face);
}

#[test]
fn plane_intersection_and_parallel_ray() {
    let mut scene = Scene::new(test_camera(16, 12));
    let m = scene.add_material(material::new(v3i(1, 1, 1), MaterialType::Lambertian));
    scene.add_object(
        v3i(0, 0, 0),
        ObjectType::Plane { distance: Fx::from_int(0), normal: Vec3::up() },
        m,
    );
    let obj = &scene.objects[0];

    // Falling straight down from y = 1 meets the plane at t = 1.
    let mut ray = Ray::new(v3i(0, 1, 0), v3i(0, -1, 0));
    shape::intersect(obj, &mut ray, Fx::from_raw(66));
    assert_eq!(ray.travel_distance, Fx::from_int(1));
    let hit = ray.is_intersected.unwrap();
    assert_eq!(hit.normal, v3i(0, 1, 0));
    assert!(hit.front_face);

    // A parallel ray yields no intersection (and no overflow).
    let mut ray = Ray::new(v3i(0, 1, 0), v3i(1, 0, 0));
    shape::intersect(obj, &mut ray, Fx::from_raw(66));
    assert!(ray.is_intersected.is_none());
}

#[test]
fn nearest_object_wins() {
    // Two spheres along the same ray: the hit records the nearer one.
    let mut scene = Scene::new(test_camera(16, 12));
    let m = scene.add_material(material::new(v3i(1, 1, 1), MaterialType::Lambertian));
    scene.add_object(v3i(0, 0, -10), ObjectType::Sphere { radius: Fx::from_int(1) }, m);
    scene.add_object(v3i(0, 0, -4), ObjectType::Sphere { radius: Fx::from_int(1) }, m);
    let mut ray = Ray::new(v3i(0, 0, 0), v3i(0, 0, -1));
    for obj in scene.objects.iter() {
        shape::intersect(obj, &mut ray, Fx::from_raw(66));
    }
    assert_eq!(ray.travel_distance, Fx::from_int(3));
}

#[test]
fn to_color_tone_mapping_round_trip() {
    // Radiance (1, 1, 1) at one sample quantizes to full white; black
    // stays black.
    assert_eq!(renderer::to_color(v3i(1, 1, 1), 1), (255, 255, 255));
    assert_eq!(renderer::to_color(v3i(0, 0, 0), 1), (0, 0, 0));
}

#[test]
fn to_color_averages_and_clamps() {
    // Four samples summing to (4, 4, 4) average to 1.0 per channel.
    assert_eq!(renderer::to_color(v3i(4, 4, 4), 4), (255, 255, 255));
    // Radiance beyond 1 clamps to full white rather than wrapping.
    assert_eq!(renderer::to_color(v3i(100, 100, 100), 1), (255, 255, 255));
    // 0.25 gamma-corrects to 0.5, which quantizes to 128.
    assert_eq!(renderer::to_color(Vec3::fill(Fx::from_raw(16384)), 1), (128, 128, 128));
}

#[test]
fn render_is_deterministic_across_runs() {
    // The key concurrency property: the same scene, settings and seed
    // give a byte-identical buffer, run after run.
    let settings = settings_for(16, 12);
    let first = renderer::render_scene(three_sphere_scene(), &settings).unwrap();
    let second = renderer::render_scene(three_sphere_scene(), &settings).unwrap();
    assert_eq!(first.len(), 16 * 12 * 3);
    assert_eq!(first, second);
}

#[test]
fn chunked_render_matches_whole_image_in_any_order() {
    // Render the image as three chunks, computing them in reverse order,
    // and assemble by offset: byte-identical to the single-pass render.
    let settings = settings_for(16, 12);
    let scene = three_sphere_scene();
    let whole = renderer::render_scene(scene.clone(), &settings).unwrap();
    let total = 16 * 12;
    let mut assembled = vec![0u8; total * 3];
    for k in (0..settings.num_threads).rev() {
        let (start, end) = renderer::chunk_range(total, settings.num_threads, k);
        let chunk = renderer::render_chunk(&scene, &settings, start, end);
        assert_eq!(chunk.len(), (end - start) * 3);
        assembled[start * 3..end * 3].copy_from_slice(&chunk);
    }
    assert_eq!(whole, assembled);
}

#[test]
fn different_seeds_change_the_image() {
    let scene = three_sphere_scene();
    let mut settings = settings_for(16, 12);
    let first = renderer::render_scene(scene.clone(), &settings).unwrap();
    settings.seed = 43;
    let second = renderer::render_scene(scene, &settings).unwrap();
    assert_ne!(first, second);
}

#[test]
fn render_rejects_invalid_settings() {
    let scene = empty_scene;
    let mut settings = settings_for(16, 12);
    settings.screen_width = 0;
    assert!(renderer::render_scene(scene(), &settings).is_err());
    let mut settings = settings_for(16, 12);
    settings.screen_height = 0;
    assert!(renderer::render_scene(scene(), &settings).is_err());
    let mut settings = settings_for(16, 12);
    settings.samples_per_pixel = 0;
    assert!(renderer::render_scene(scene(), &settings).is_err());
    let mut settings = settings_for(16, 12);
    settings.num_threads = 0;
    assert!(renderer::render_scene(scene(), &settings).is_err());
}

#[test]
fn chunk_ranges_tile_the_image() {
    for (total, parts) in [(100usize, 3usize), (192, 16), (2, 5), (0, 4), (7, 7)] {
        let mut next_start = 0;
        for k in 0..parts {
            let (start, end) = renderer::chunk_range(total, parts, k);
            assert_eq!(start, next_start);
            assert!(start <= end && end <= total);
            next_start = end;
        }
        assert_eq!(next_start, total);
    }
}

#[test]
fn camera_generates_centered_ray() {
    // The pixel at the viewport's exact center looks straight down -z:
    // corner (-2, 1.5, -1) + half of (4, 0, 0) - half of (0, 3, 0).
    let cam = test_camera(16, 12);
    let ray = cam.generate_ray(Fx::from_int(8), Fx::from_int(6));
    assert_eq!(ray.origin, v3i(0, 0, 0));
    assert_eq!(ray.direction, v3i(0, 0, -1));
    assert!(ray.is_intersected.is_none());
}

#[test]
fn pixel_color_is_a_pure_function_of_its_coordinate() {
    let scene = three_sphere_scene();
    let settings = settings_for(16, 12);
    let a = renderer::render_pixel_job(&scene, (8, 6, 0), &settings);
    let b = renderer::render_pixel_job(&scene, (8, 6, 999), &settings);
    assert_eq!(a, b);
    // The center pixel sees the diffuse sphere; the top row sees sky.
    let c = renderer::render_pixel_job(&scene, (8, 0, 0), &settings);
    assert_ne!(a, c);
}
