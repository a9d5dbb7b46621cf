//! The recursive path tracer and the rendering pipeline.
//!
//! `raytrace` intersects a ray against every object (nearest admissible
//! hit wins), asks the hit material to scatter, and multiplies the
//! attenuation into the radiance gathered by one recursive call, stopping
//! at the depth limit with black. A ray that escapes the scene gathers the
//! deterministic background gradient — the sole light source. Every
//! function here is mirrored by a spec function of the scene, settings and
//! seed, which is what makes whole renders reproducible byte for byte.

use vstd::prelude::*;

use crate::fx::fadd;
use crate::fx::fdiv;
use crate::fx::fint;
use crate::fx::fmul;
use crate::fx::fsqrt;
use crate::fx::fsub;
use crate::fx::Fx;
use crate::material::scatter_spec;
use crate::material::Material;
use crate::material::MaterialType;
use crate::ray::hit_oriented;
use crate::ray::Ray;
use crate::sampler::Sampler;
use crate::scene::objects_geom_wf;
use crate::scene::objects_wf;
use crate::scene::Scene;
use crate::shape::intersect;
use crate::shape::intersect_spec;
use crate::shape::Object;
use crate::vec3::v3_add;
use crate::vec3::v3_mul;
use crate::vec3::v3_scale;
use crate::vec3::Vec3;

verus! {

/// Default bounce budget for a light path.
pub const MAX_RAY_DEPTH: u16 = 50;

/// Default number of jittered samples per pixel.
pub const RAYS_PER_PIXEL: u16 = 500;

/// Default worker count for the scheduler around the renderer.
pub const NUM_THREADS: usize = 16;

/// Least accepted intersection distance, in raw units (about 0.001;
/// prevents self-intersection at a scattering point).
pub const TOLERANCE_RAW: i64 = 66;

/// Bytes per pixel in the output buffer.
pub const BYTES_PIXEL: usize = 3;

/// Zero radiance.
pub open spec fn black() -> Vec3 {
    Vec3 { x: Fx { raw: 0 }, y: Fx { raw: 0 }, z: Fx { raw: 0 } }
}

/// The material at `idx` in the arena; an inert placeholder outside it
/// (well-formed scenes never reach that case).
pub open spec fn mat_of(materials: Seq<Material>, idx: int) -> Material {
    if 0 <= idx < materials.len() {
        materials[idx]
    } else {
        Material { albedo: black(), material_type: MaterialType::Lambertian }
    }
}

/// Whether a ray's hit record, if any, points into the material arena.
pub open spec fn ray_wf(ray: Ray, materials_len: int) -> bool {
    match ray.is_intersected {
        Some(hit) => hit.material < materials_len,
        None => true,
    }
}

/// The ray after testing it against the first `n` objects in order.
pub open spec fn scan_prefix(objects: Seq<Object>, ray: Ray, tolerance: Fx, n: int) -> Ray
    decreases n,
{
    if n <= 0 {
        ray
    } else {
        intersect_spec(objects[n - 1], scan_prefix(objects, ray, tolerance, n - 1), tolerance)
    }
}

/// The ray after testing it against every object: the nearest admissible
/// hit across the scene, if any.
pub open spec fn scan_scene(objects: Seq<Object>, ray: Ray, tolerance: Fx) -> Ray {
    scan_prefix(objects, ray, tolerance, objects.len() as int)
}

/// Intersecting one object cannot produce a material index outside the
/// arena the object points into.
proof fn lemma_intersect_wf(obj: Object, ray: Ray, tolerance: Fx, materials_len: int)
    requires
        obj.material < materials_len,
        ray_wf(ray, materials_len),
    ensures
        ray_wf(intersect_spec(obj, ray, tolerance), materials_len),
{
}

/// Scanning the scene keeps the hit record pointing into the arena.
proof fn lemma_scan_prefix_wf(
    objects: Seq<Object>,
    ray: Ray,
    tolerance: Fx,
    n: int,
    materials_len: int,
)
    requires
        0 <= n <= objects.len(),
        objects_wf(objects, materials_len),
        ray_wf(ray, materials_len),
    ensures
        ray_wf(scan_prefix(objects, ray, tolerance, n), materials_len),
    decreases n,
{
    if n > 0 {
        lemma_scan_prefix_wf(objects, ray, tolerance, n - 1, materials_len);
        lemma_intersect_wf(
            objects[n - 1],
            scan_prefix(objects, ray, tolerance, n - 1),
            tolerance,
            materials_len,
        );
    }
}

/// Scanning a well-formed scene keeps every recorded hit normal oriented
/// toward the ray's origin side: the front-face invariant of the data
/// model, which refraction-ratio selection rests on, holds of the nearest
/// hit a ray ends up carrying.
pub proof fn lemma_scan_preserves_orientation(
    objects: Seq<Object>,
    ray: Ray,
    tolerance: Fx,
    n: int,
)
    requires
        0 <= n <= objects.len(),
        objects_geom_wf(objects),
        hit_oriented(ray),
    ensures
        hit_oriented(scan_prefix(objects, ray, tolerance, n)),
    decreases n,
{
    if n > 0 {
        lemma_scan_preserves_orientation(objects, ray, tolerance, n - 1);
        crate::shape::lemma_intersect_spec_oriented(
            objects[n - 1],
            scan_prefix(objects, ray, tolerance, n - 1),
            tolerance,
        );
    }
}

/// The background gradient a ray that misses everything gathers: a linear
/// blend on the direction's `y` component between the horizon color
/// (1, 1, 1) and the sky color (0.5, 0.7, 1).
pub open spec fn background_spec(ray: Ray) -> Vec3 {
    let t = fmul(Fx { raw: 32768 }, fadd(ray.direction.y, fint(1)));
    v3_add(
        v3_scale(Vec3 { x: fint(1), y: fint(1), z: fint(1) }, fsub(fint(1), t)),
        v3_scale(Vec3 { x: Fx { raw: 32768 }, y: Fx { raw: 45875 }, z: Fx { raw: 65536 } }, t),
    )
}

/// What tracing does, exactly: the gathered radiance, the traced ray with
/// its final hit record, and the sample state after the trace, as a
/// function of the scene's objects and materials, the incoming ray, the
/// depth already used, the depth budget and the sample state.
pub open spec fn trace_spec(
    objects: Seq<Object>,
    materials: Seq<Material>,
    ray: Ray,
    depth: u16,
    max_depth: u16,
    st: u64,
) -> (Vec3, Ray, u64)
    decreases max_depth - depth,
{
    if depth >= max_depth {
        (black(), ray, st)
    } else {
        let sray = scan_scene(objects, ray, Fx { raw: TOLERANCE_RAW });
        match sray.is_intersected {
            Some(hit) => {
                let (decision, st2) = scatter_spec(mat_of(materials, hit.material as int), sray, st);
                match decision {
                    Some(continued) => {
                        let (inner, _, st3) = trace_spec(
                            objects,
                            materials,
                            continued.1,
                            (depth + 1) as u16,
                            max_depth,
                            st2,
                        );
                        (v3_mul(continued.0, inner), sray, st3)
                    },
                    None => (black(), sray, st2),
                }
            },
            None => (background_spec(sray), sray, st),
        }
    }
}

/// Traces `ray` through the scene, gathering radiance recursively until
/// absorption, escape or depth exhaustion. Follows `trace_spec` exactly;
/// the ray keeps the nearest hit of its first bounce.
pub fn raytrace(scene: &Scene, ray: &mut Ray, depth: u16, max_depth: u16, s: &mut Sampler) -> (c:
    Vec3)
    requires
        scene.wf(),
        ray_wf(*old(ray), scene.materials@.len() as int),
    ensures
        (c, *final(ray), final(s).state) == trace_spec(
            scene.objects@,
            scene.materials@,
            *old(ray),
            depth,
            max_depth,
            old(s).state,
        ),
    decreases max_depth - depth,
{
    if depth >= max_depth {
        return Vec3::zero();
    }
    let tolerance = Fx { raw: TOLERANCE_RAW };
    let ghost ray0 = *ray;
    let n = scene.objects.len();
    let mut i: usize = 0;
    while i < n
        invariant
            i <= n,
            n == scene.objects@.len(),
            *ray == scan_prefix(scene.objects@, ray0, tolerance, i as int),
        decreases n - i,
    {
        intersect(&scene.objects[i], ray, tolerance);
        i = i + 1;
    }
    proof {
        lemma_scan_prefix_wf(
            scene.objects@,
            ray0,
            tolerance,
            n as int,
            scene.materials@.len() as int,
        );
    }
    match ray.is_intersected {
        Some(hit) => {
            let decision = crate::material::scatter(&scene.materials[hit.material], ray, s);
            match decision {
                Some((attenuation, scattered)) => {
                    let mut continued = scattered;
                    let inner = raytrace(scene, &mut continued, depth + 1, max_depth, s);
                    attenuation.mul(inner)
                },
                None => Vec3::zero(),
            }
        },
        None => {
            let one = Fx::one();
            let t = Fx { raw: 32768 }.mul(ray.direction.y.add(one));
            Vec3::fill(one).scale(one.sub(t)).add(Vec3::from_raw(32768, 45875, 65536).scale(t))
        },
    }
}

/// One tone-mapped channel: scale by the sample count's reciprocal,
/// gamma-correct with a square root, clamp to `[0, 1)`, quantize to a
/// byte by scaling with 256 and truncating.
pub open spec fn tone_channel(scale: Fx, c: Fx) -> u8 {
    let g = fsqrt(fmul(scale, c));
    let clamped = if g.raw < 0 {
        0int
    } else if g.raw > 65535 {
        65535int
    } else {
        g.raw as int
    };
    (clamped / 256) as u8
}

/// The 8-bit color of an accumulated radiance over `samples` samples.
pub open spec fn to_color_spec(vec: Vec3, samples: u16) -> (u8, u8, u8) {
    let scale = fdiv(fint(1), fint(samples as int));
    (tone_channel(scale, vec.x), tone_channel(scale, vec.y), tone_channel(scale, vec.z))
}

/// Averages, gamma-corrects and quantizes an accumulated radiance into
/// an 8-bit RGB triple, per `to_color_spec`.
pub fn to_color(vec: Vec3, samples: u16) -> (r: (u8, u8, u8))
    ensures
        r == to_color_spec(vec, samples),
{
    let scale = Fx::one().div(Fx::from_int(samples as i64));
    (tone_channel_exec(scale, vec.x), tone_channel_exec(scale, vec.y), tone_channel_exec(
        scale,
        vec.z,
    ))
}

fn tone_channel_exec(scale: Fx, c: Fx) -> (r: u8)
    ensures
        r == tone_channel(scale, c),
{
    let g = scale.mul(c).sqrt();
    let clamped: i64 = if g.raw < 0 {
        0
    } else if g.raw > 65535 {
        65535
    } else {
        g.raw
    };
    ((clamped as u16) / 256) as u8
}

/// A ray that intersects nothing gathers exactly the background gradient,
/// a deterministic function of its direction's `y` component: the sample
/// state is not consulted, and the trace ends at the first call.
pub proof fn lemma_trace_miss_is_background(
    objects: Seq<Object>,
    materials: Seq<Material>,
    ray: Ray,
    depth: u16,
    max_depth: u16,
    st: u64,
)
    requires
        depth < max_depth,
        scan_scene(objects, ray, Fx { raw: TOLERANCE_RAW }).is_intersected is None,
    ensures
        trace_spec(objects, materials, ray, depth, max_depth, st) == (
            background_spec(scan_scene(objects, ray, Fx { raw: TOLERANCE_RAW })),
            scan_scene(objects, ray, Fx { raw: TOLERANCE_RAW }),
            st,
        ),
{
}

/// With an exhausted depth budget the trace returns black at once,
/// whatever the scene, the ray or the sample state.
pub proof fn lemma_trace_depth_exhausted(
    objects: Seq<Object>,
    materials: Seq<Material>,
    ray: Ray,
    depth: u16,
    max_depth: u16,
    st: u64,
)
    requires
        depth >= max_depth,
    ensures
        trace_spec(objects, materials, ray, depth, max_depth, st) == (black(), ray, st),
{
}

/// How a render is configured: image size, sampling effort, depth budget,
/// worker count, and the seed every sample stream derives from.
#[derive(Clone, Copy, Debug)]
pub struct RenderSettings {
    pub screen_width: usize,
    pub screen_height: usize,
    pub samples_per_pixel: u16,
    pub max_ray_depth: u16,
    pub num_threads: usize,
    pub seed: u64,
}

/// A renderable configuration: a nonempty image whose byte buffer fits in
/// memory, at least one sample per pixel, and at least one worker.
pub open spec fn settings_ok(s: RenderSettings) -> bool {
    &&& s.screen_width > 0
    &&& s.screen_height > 0
    &&& s.samples_per_pixel > 0
    &&& s.num_threads > 0
    &&& s.screen_width * s.screen_height * 3 <= usize::MAX
}

/// The radiance accumulated by the first `k` samples of pixel `(x, y)`,
/// and the sample state after them, starting from state `st0`.
pub open spec fn sample_accum(
    scene: Scene,
    settings: RenderSettings,
    x: int,
    y: int,
    st0: u64,
    k: nat,
) -> (Vec3, u64)
    decreases k,
{
    if k == 0 {
        (black(), st0)
    } else {
        let (acc, st) = sample_accum(scene, settings, x, y, st0, (k - 1) as nat);
        let jx = crate::sampler::unit_of(crate::sampler::draw(st));
        let st1 = crate::sampler::next_state(st);
        let jy = crate::sampler::unit_of(crate::sampler::draw(st1));
        let st2 = crate::sampler::next_state(st1);
        let ray = crate::camera::camera_ray(
            scene.camera,
            fadd(fint(x), jx),
            fadd(fint(y), jy),
        );
        let (c, _, st3) = trace_spec(
            scene.objects@,
            scene.materials@,
            ray,
            0,
            settings.max_ray_depth,
            st2,
        );
        (v3_add(acc, c), st3)
    }
}

/// The 8-bit color of pixel `(x, y)`: the tone-mapped average of its
/// jittered samples, drawn from the pixel's private sample stream.
/// Opaque: reason about whole-image bytes through this name, and reveal
/// it only where the pixel's computation itself is in question.
#[verifier::opaque]
pub open spec fn render_pixel_spec(scene: Scene, settings: RenderSettings, x: int, y: int) -> (
    u8,
    u8,
    u8,
) {
    let index = (y * settings.screen_width + x) as u64;
    let st0 = crate::sampler::pixel_state(settings.seed, index);
    let (sum, _) = sample_accum(scene, settings, x, y, st0, settings.samples_per_pixel as nat);
    to_color_spec(sum, settings.samples_per_pixel)
}

/// Renders the single pixel at `coordinate` (x, y, byte offset; the
/// offset does not influence the color), per `render_pixel_spec`.
pub fn render_pixel_job(
    scene: &Scene,
    coordinate: (usize, usize, usize),
    settings: &RenderSettings,
) -> (rgb: (u8, u8, u8))
    requires
        scene.wf(),
        coordinate.0 < settings.screen_width,
        coordinate.1 < settings.screen_height,
        settings.screen_width * settings.screen_height * 3 <= usize::MAX,
    ensures
        rgb == render_pixel_spec(*scene, *settings, coordinate.0 as int, coordinate.1 as int),
{
    let x = coordinate.0;
    let y = coordinate.1;
    proof {
        reveal(render_pixel_spec);
        assert((y as int) * (settings.screen_width as int) + (x as int) < (settings.screen_width
            as int) * (settings.screen_height as int)) by (nonlinear_arith)
            requires
                (x as int) < (settings.screen_width as int),
                (y as int) < (settings.screen_height as int),
        ;
    }
    let index: usize = y * settings.screen_width + x;
    let mut smp = Sampler::for_pixel(settings.seed, index as u64);
    let ghost st0 = smp.state;
    let samples = settings.samples_per_pixel;
    let mut acc = Vec3::zero();
    let mut k: u16 = 0;
    while k < samples
        invariant
            k <= samples,
            scene.wf(),
            (acc, smp.state) == sample_accum(
                *scene,
                *settings,
                x as int,
                y as int,
                st0,
                k as nat,
            ),
            samples == settings.samples_per_pixel,
        decreases samples - k,
    {
        let jx = smp.next_unit();
        let jy = smp.next_unit();
        let px = Fx::from_usize(x).add(jx);
        let py = Fx::from_usize(y).add(jy);
        let mut ray = scene.camera.generate_ray(px, py);
        let c = raytrace(scene, &mut ray, 0, settings.max_ray_depth, &mut smp);
        acc = acc.add(c);
        k = k + 1;
    }
    to_color(acc, samples)
}

/// The three output bytes of pixel number `i` (row-major).
pub open spec fn pixel_bytes(scene: Scene, settings: RenderSettings, i: int) -> Seq<u8> {
    let w = settings.screen_width as int;
    let rgb = render_pixel_spec(scene, settings, i % w, i / w);
    seq![rgb.0, rgb.1, rgb.2]
}

/// The output bytes of pixels `s` (inclusive) to `e` (exclusive), in
/// row-major order.
pub open spec fn bytes_from(scene: Scene, settings: RenderSettings, s: int, e: int) -> Seq<u8>
    decreases e - s,
{
    if e <= s {
        Seq::empty()
    } else {
        pixel_bytes(scene, settings, s) + bytes_from(scene, settings, s + 1, e)
    }
}

/// Extending a byte range by one pixel appends that pixel's bytes.
pub proof fn lemma_bytes_snoc(scene: Scene, settings: RenderSettings, s: int, e: int)
    requires
        s <= e,
    ensures
        bytes_from(scene, settings, s, e + 1) == bytes_from(scene, settings, s, e) + pixel_bytes(
            scene,
            settings,
            e,
        ),
    decreases e - s,
{
    if s == e {
        assert(bytes_from(scene, settings, s + 1, e + 1) =~= Seq::<u8>::empty());
        assert(bytes_from(scene, settings, s, e) =~= Seq::<u8>::empty());
        assert(bytes_from(scene, settings, s, e + 1) =~= bytes_from(scene, settings, s, e)
            + pixel_bytes(scene, settings, e));
    } else {
        lemma_bytes_snoc(scene, settings, s + 1, e);
        assert(bytes_from(scene, settings, s, e + 1) =~= bytes_from(scene, settings, s, e)
            + pixel_bytes(scene, settings, e));
    }
}

/// A byte range splits at any midpoint into the two subranges' bytes.
/// This is the scheduler's correctness core: however the pixel range is
/// partitioned into chunks and whatever order the workers finish in,
/// assembling the chunks in index order reproduces the whole image.
pub proof fn lemma_bytes_concat(scene: Scene, settings: RenderSettings, s: int, m: int, e: int)
    requires
        s <= m <= e,
    ensures
        bytes_from(scene, settings, s, e) == bytes_from(scene, settings, s, m) + bytes_from(
            scene,
            settings,
            m,
            e,
        ),
    decreases m - s,
{
    if s == m {
        assert(bytes_from(scene, settings, s, m) =~= Seq::<u8>::empty());
        assert(bytes_from(scene, settings, s, e) =~= bytes_from(scene, settings, s, m)
            + bytes_from(scene, settings, m, e));
    } else {
        lemma_bytes_concat(scene, settings, s + 1, m, e);
        assert(bytes_from(scene, settings, s, e) =~= bytes_from(scene, settings, s, m)
            + bytes_from(scene, settings, m, e));
    }
}

/// A byte range holds three bytes per pixel.
pub proof fn lemma_bytes_len(scene: Scene, settings: RenderSettings, s: int, e: int)
    requires
        s <= e,
    ensures
        bytes_from(scene, settings, s, e).len() == 3 * (e - s),
    decreases e - s,
{
    if s < e {
        lemma_bytes_len(scene, settings, s + 1, e);
    }
}

/// Rendering is deterministic: two output buffers rendered from the same
/// scene and settings are byte-identical, however and by whomever each
/// was produced.
pub proof fn lemma_render_deterministic(
    scene: Scene,
    settings: RenderSettings,
    buf1: Seq<u8>,
    buf2: Seq<u8>,
    e: int,
)
    requires
        buf1 == bytes_from(scene, settings, 0, e),
        buf2 == bytes_from(scene, settings, 0, e),
    ensures
        buf1 == buf2,
{
}

/// Renders pixels `start` (inclusive) to `end` (exclusive), row-major,
/// into a fresh byte buffer: exactly `bytes_from(scene, settings, start,
/// end)`.
pub fn render_chunk(scene: &Scene, settings: &RenderSettings, start: usize, end: usize) -> (out:
    Vec<u8>)
    requires
        scene.wf(),
        settings.screen_width > 0,
        start <= end,
        end <= settings.screen_width * settings.screen_height,
        settings.screen_width * settings.screen_height * 3 <= usize::MAX,
    ensures
        out@ == bytes_from(*scene, *settings, start as int, end as int),
        out@.len() == 3 * (end - start),
{
    let mut out: Vec<u8> = Vec::new();
    let mut i: usize = start;
    proof {
        lemma_bytes_len(*scene, *settings, start as int, end as int);
    }
    while i < end
        invariant
            start <= i <= end,
            scene.wf(),
            settings.screen_width > 0,
            end <= settings.screen_width * settings.screen_height,
            settings.screen_width * settings.screen_height * 3 <= usize::MAX,
            out@ == bytes_from(*scene, *settings, start as int, i as int),
            out@.len() == 3 * (i - start),
        decreases end - i,
    {
        let w = settings.screen_width;
        let x = i % w;
        let y = i / w;
        proof {
            vstd::arithmetic::div_mod::lemma_fundamental_div_mod(i as int, w as int);
            vstd::arithmetic::div_mod::lemma_mod_bound(i as int, w as int);
            assert((i as int) / (w as int) < settings.screen_height as int) by (nonlinear_arith)
                requires
                    w as int > 0,
                    (i as int) < (w as int) * (settings.screen_height as int),
                    i as int == (w as int) * ((i as int) / (w as int)) + (i as int) % (w as int),
                    0 <= (i as int) % (w as int),
            ;
            lemma_bytes_snoc(*scene, *settings, start as int, i as int);
        }
        let rgb = render_pixel_job(scene, (x, y, i * 3), settings);
        out.push(rgb.0);
        out.push(rgb.1);
        out.push(rgb.2);
        proof {
            assert(out@ =~= bytes_from(*scene, *settings, start as int, i + 1 as int));
        }
        i = i + 1;
    }
    out
}

/// The pixel index where chunk `k` of `parts` begins when `total` pixels
/// are split as evenly as integer arithmetic allows.
pub open spec fn chunk_start(total: int, parts: int, k: int) -> int {
    total * k / parts
}

/// The half-open pixel range of chunk `k` of `parts`. Chunk bounds are
/// monotone, chunk 0 starts at 0 and chunk `parts - 1` ends at `total`,
/// so the chunks tile the image disjointly.
pub fn chunk_range(total: usize, parts: usize, k: usize) -> (r: (usize, usize))
    requires
        parts > 0,
        k < parts,
    ensures
        r.0 == chunk_start(total as int, parts as int, k as int),
        r.1 == chunk_start(total as int, parts as int, k as int + 1),
        r.0 <= r.1 <= total,
        k == 0 ==> r.0 == 0,
        k == parts - 1 ==> r.1 == total,
{
    proof {
        assert((total as int) * (k as int) <= (total as int) * (k as int + 1)) by (nonlinear_arith)
            requires
                total as int >= 0,
        ;
        lemma_chunk_start_bounds(total as int, parts as int, k as int);
        lemma_chunk_start_bounds(total as int, parts as int, k as int + 1);
        vstd::arithmetic::div_mod::lemma_div_is_ordered(
            (total as int) * (k as int),
            (total as int) * (k as int + 1),
            parts as int,
        );
        assert((total as u128) * ((k as u128) + 1)
            <= 340282366920938463426481119284349108225u128) by (nonlinear_arith)
            requires
                total as u128 <= 18446744073709551615u128,
                (k as u128) + 1 <= 18446744073709551615u128,
        ;
    }
    let s = (((total as u128) * (k as u128)) / (parts as u128)) as usize;
    let e = (((total as u128) * ((k as u128) + 1)) / (parts as u128)) as usize;
    (s, e)
}

/// A chunk boundary lies between 0 and `total`; the last boundary is
/// exactly `total`.
proof fn lemma_chunk_start_bounds(total: int, parts: int, k: int)
    requires
        parts > 0,
        total >= 0,
        0 <= k <= parts,
    ensures
        0 <= chunk_start(total, parts, k) <= total,
        k == 0 ==> chunk_start(total, parts, k) == 0,
        k == parts ==> chunk_start(total, parts, k) == total,
{
    assert(total * 0 == 0) by (nonlinear_arith);
    assert(0int / parts == 0);
    assert(total * k >= 0) by (nonlinear_arith)
        requires
            total >= 0,
            k >= 0,
    ;
    assert(total * k <= total * parts) by (nonlinear_arith)
        requires
            total >= 0,
            k <= parts,
    ;
    vstd::arithmetic::div_mod::lemma_div_is_ordered(0, total * k, parts);
    vstd::arithmetic::div_mod::lemma_div_is_ordered(total * k, total * parts, parts);
    assert(total * parts == parts * total) by (nonlinear_arith);
    vstd::arithmetic::div_mod::lemma_div_multiples_vanish(total, parts);
}

/// The first `k` chunks of a `parts`-way split of `total` pixels,
/// rendered and assembled in index order.
pub open spec fn chunks_assembled(
    scene: Scene,
    settings: RenderSettings,
    total: int,
    parts: int,
    k: int,
) -> Seq<u8>
    decreases k,
{
    if k <= 0 {
        Seq::empty()
    } else {
        chunks_assembled(scene, settings, total, parts, k - 1) + bytes_from(
            scene,
            settings,
            chunk_start(total, parts, k - 1),
            chunk_start(total, parts, k),
        )
    }
}

/// The first `k` assembled chunks are exactly the image bytes up to
/// chunk boundary `k`.
proof fn lemma_assembled_prefix(
    scene: Scene,
    settings: RenderSettings,
    total: int,
    parts: int,
    k: int,
)
    requires
        parts > 0,
        total >= 0,
        0 <= k <= parts,
    ensures
        chunks_assembled(scene, settings, total, parts, k) == bytes_from(
            scene,
            settings,
            0,
            chunk_start(total, parts, k),
        ),
    decreases k,
{
    lemma_chunk_start_bounds(total, parts, k);
    if k == 0 {
        assert(chunks_assembled(scene, settings, total, parts, 0) =~= bytes_from(
            scene,
            settings,
            0,
            0,
        ));
    } else {
        lemma_assembled_prefix(scene, settings, total, parts, k - 1);
        lemma_chunk_start_bounds(total, parts, k - 1);
        assert(total * (k - 1) <= total * k) by (nonlinear_arith)
            requires
                total >= 0,
        ;
        vstd::arithmetic::div_mod::lemma_div_is_ordered(total * (k - 1), total * k, parts);
        lemma_bytes_concat(
            scene,
            settings,
            0,
            chunk_start(total, parts, k - 1),
            chunk_start(total, parts, k),
        );
    }
}

/// Splitting the image into any number of chunks and assembling the
/// chunks in index order reproduces the whole image exactly. With
/// `lemma_render_deterministic` this is the scheduler's correctness: the
/// output buffer does not depend on how the work was partitioned, nor on
/// the order in which workers finished.
pub proof fn lemma_partition_assembles(
    scene: Scene,
    settings: RenderSettings,
    total: int,
    parts: int,
)
    requires
        parts > 0,
        total >= 0,
    ensures
        chunks_assembled(scene, settings, total, parts, parts) == bytes_from(
            scene,
            settings,
            0,
            total,
        ),
{
    lemma_assembled_prefix(scene, settings, total, parts, parts);
    lemma_chunk_start_bounds(total, parts, parts);
}

/// Renders the whole image into a flat RGB byte buffer, row-major, top to
/// bottom: pixel bytes 0 through `width * height`. Fails exactly on a
/// configuration that is not renderable (a zero-sized image, zero samples
/// per pixel, a zero worker count, or a buffer beyond the address space),
/// never on scene content.
pub fn render_scene(scene: Scene, render_setting: &RenderSettings) -> (r: Result<Vec<u8>, String>)
    requires
        scene.wf(),
    ensures
        settings_ok(*render_setting) ==> (r matches Ok(buf) && buf@ == bytes_from(
            scene,
            *render_setting,
            0,
            (render_setting.screen_width * render_setting.screen_height) as int,
        )),
        !settings_ok(*render_setting) ==> r is Err,
{
    let w = render_setting.screen_width;
    let h = render_setting.screen_height;
    if w == 0 || h == 0 {
        return Err("zero-sized image".to_owned());
    }
    if render_setting.samples_per_pixel == 0 {
        return Err("zero samples per pixel".to_owned());
    }
    if render_setting.num_threads == 0 {
        return Err("zero worker threads".to_owned());
    }
    let total = match w.checked_mul(h) {
        Some(t) => t,
        None => {
            proof {
                assert(w * h <= w * h * 3) by (nonlinear_arith)
                    requires
                        w as int > 0,
                        h as int > 0,
                ;
            }
            return Err("image larger than the address space".to_owned());
        },
    };
    match total.checked_mul(3) {
        Some(_) => {},
        None => {
            return Err("image larger than the address space".to_owned());
        },
    }
    Ok(render_chunk(&scene, render_setting, 0, total))
}

} // verus!
