use pathtrace::sampler::Sampler;

#[test]
fn sampler_streams_are_reproducible() {
    let mut a = Sampler::new(123);
    let mut b = Sampler::new(123);
    for _ in 0..100 {
        assert_eq!(a.next_word(), b.next_word());
    }
    let mut c = Sampler::new(124);
    let mut d = Sampler::new(123);
    let mut differs = false;
    for _ in 0..100 {
        if c.next_word() != d.next_word() {
            differs = true;
        }
    }
    assert!(differs);
}

#[test]
fn sampler_unit_draws_stay_in_range() {
    let mut s = Sampler::new(7);
    let mut seen_low = false;
    let mut seen_high = false;
    for _ in 0..1000 {
        let u = s.next_unit();
        assert!((0..65536).contains(&u.raw));
        if u.raw < 16384 {
            seen_low = true;
        }
        if u.raw >= 49152 {
            seen_high = true;
        }
    }
    // The draws actually spread over the interval.
    assert!(seen_low && seen_high);
}

#[test]
fn sampler_symmetric_draws_cover_both_signs() {
    let mut s = Sampler::new(8);
    let mut seen_negative = false;
    let mut seen_positive = false;
    for _ in 0..1000 {
        let v = s.next_symmetric();
        assert!((-65536..65536).contains(&v.raw));
        if v.raw < 0 {
            seen_negative = true;
        }
        if v.raw > 0 {
            seen_positive = true;
        }
    }
    assert!(seen_negative && seen_positive);
}

#[test]
fn pixel_streams_are_distinct_and_stable() {
    assert_eq!(Sampler::for_pixel(42, 0), Sampler::for_pixel(42, 0));
    assert_ne!(Sampler::for_pixel(42, 0), Sampler::for_pixel(42, 1));
    assert_ne!(Sampler::for_pixel(42, 0), Sampler::for_pixel(43, 0));
}
