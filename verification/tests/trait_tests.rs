use tweenfx::Fx;
use tweenfx::Interpolable;

fn fx(raw: i64) -> Fx {
    Fx::from_raw(raw)
}

fn fxi(v: i32) -> Fx {
    Fx::from_int(v)
}

#[test]
fn test_f32_interpolation() {
    let start = fxi(0);
    let end = fxi(10);

    assert_eq!(start.interpolated(end, fx(0)), fxi(0));
    assert_eq!(start.interpolated(end, fx(500_000)), fxi(5));
    assert_eq!(start.interpolated(end, fx(1_000_000)), fxi(10));
    assert_eq!(start.interpolated(end, fx(250_000)), fx(2_500_000));
    assert_eq!(start.interpolated(end, fx(750_000)), fx(7_500_000));
}

#[test]
fn test_option_f32_interpolation() {
    let start = Some(fxi(0));
    let end = Some(fxi(10));

    assert_eq!(start.interpolated(end, fx(0)), Some(fxi(0)));
    assert_eq!(start.interpolated(end, fx(500_000)), Some(fxi(5)));
    assert_eq!(start.interpolated(end, fx(1_000_000)), Some(fxi(10)));
    assert_eq!(start.interpolated(end, fx(250_000)), Some(fx(2_500_000)));
    assert_eq!(start.interpolated(end, fx(750_000)), Some(fx(7_500_000)));
}

#[test]
fn test_option_f32_interpolation_with_none() {
    let start = Some(fxi(0));
    let end = None;

    assert_eq!(start.interpolated(end, fx(0)), None);
    assert_eq!(start.interpolated(end, fx(500_000)), None);
    assert_eq!(start.interpolated(end, fx(1_000_000)), None);

    let start = None;
    let end = Some(fxi(10));

    assert_eq!(start.interpolated(end, fx(0)), None);
    assert_eq!(start.interpolated(end, fx(500_000)), None);
    assert_eq!(start.interpolated(end, fx(1_000_000)), None);

    let start: Option<Fx> = None;
    let end: Option<Fx> = None;
    assert_eq!(start.interpolated(end, fx(0)), None);
    assert_eq!(start.interpolated(end, fx(500_000)), None);
    assert_eq!(start.interpolated(end, fx(1_000_000)), None);
}
