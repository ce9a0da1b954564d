//! Monitor descriptors, name resolution, and the mapping of normalized
//! coordinates to absolute screen coordinates.

use vstd::prelude::*;

verus! {

/// Geometry and identity of one display surface in host global
/// coordinate space. Produced fresh on each resolution request and
/// never cached: the host display topology can change between calls.
pub struct MonitorDescriptor {
    /// Host-assigned identifier; `None` when the host reports none.
    pub name: Option<String>,
    /// Width in pixels.
    pub width: u32,
    /// Height in pixels.
    pub height: u32,
    /// Horizontal position of the monitor's top-left corner in host
    /// global coordinates; negative in some multi-monitor layouts.
    pub origin_x: i32,
    /// Vertical position of the monitor's top-left corner.
    pub origin_y: i32,
}

/// Whether a descriptor carries a name equal to `target`. Descriptors
/// with an absent name never match a concrete name.
pub open spec fn name_matches(m: MonitorDescriptor, target: Seq<char>) -> bool {
    match m.name {
        Some(n) => n@ == target,
        None => false,
    }
}

/// The first descriptor in `ms` whose name equals `target`, if any.
pub open spec fn first_match(ms: Seq<MonitorDescriptor>, target: Seq<char>) -> Option<
    MonitorDescriptor,
>
    decreases ms.len(),
{
    if ms.len() == 0 {
        None
    } else if name_matches(ms[0], target) {
        Some(ms[0])
    } else {
        first_match(ms.drop_first(), target)
    }
}

/// Linear search for the first descriptor whose name equals `name`
/// exactly; `None` is a valid "not found" outcome, not an error.
pub fn find_by_name(monitors: &Vec<MonitorDescriptor>, name: &str) -> (r: Option<usize>)
    ensures
        match r {
            Some(i) => {
                &&& i < monitors@.len()
                &&& name_matches(monitors@[i as int], name@)
                &&& first_match(monitors@, name@) == Some(monitors@[i as int])
            },
            None => first_match(monitors@, name@) is None,
        },
{
    let wanted = name.to_owned();
    let n = monitors.len();
    let mut i: usize = 0;
    proof {
        assert(monitors@.subrange(0, n as int) =~= monitors@);
    }
    while i < n
        invariant
            n == monitors@.len(),
            i <= n,
            wanted@ == name@,
            first_match(monitors@, name@) == first_match(
                monitors@.subrange(i as int, n as int),
                name@,
            ),
        decreases n - i,
    {
        proof {
            assert(monitors@.subrange(i as int, n as int)[0] == monitors@[i as int]);
        }
        let found = match &monitors[i].name {
            Some(m_name) => *m_name == wanted,
            None => false,
        };
        if found {
            return Some(i);
        }
        proof {
            assert(monitors@.subrange(i as int, n as int).drop_first() =~= monitors@.subrange(
                i as int + 1,
                n as int,
            ));
        }
        i += 1;
    }
    proof {
        assert(monitors@.subrange(n as int, n as int).len() == 0);
    }
    None
}

/// The monitor an optional target name resolves to: a concrete name is
/// looked up among `ms` (first exact match), no name selects `current`,
/// the monitor the host reported under the application window.
pub open spec fn resolved_monitor(
    ms: Seq<MonitorDescriptor>,
    target: Option<String>,
    current: Option<MonitorDescriptor>,
) -> Option<MonitorDescriptor> {
    match target {
        Some(name) => first_match(ms, name@),
        None => current,
    }
}

/// Resolves an optional monitor name against the currently attached
/// monitors. An unknown name yields `None`, which callers treat as a
/// silent no-op rather than an error.
pub fn resolve<'a>(
    monitors: &'a Vec<MonitorDescriptor>,
    target: &Option<String>,
    current: &'a Option<MonitorDescriptor>,
) -> (r: Option<&'a MonitorDescriptor>)
    ensures
        match r {
            Some(m) => resolved_monitor(monitors@, *target, *current) == Some(*m),
            None => resolved_monitor(monitors@, *target, *current) is None,
        },
{
    match target {
        Some(name) => match find_by_name(monitors, name.as_str()) {
            Some(i) => Some(&monitors[i]),
            None => None,
        },
        None => match current {
            Some(m) => Some(m),
            None => None,
        },
    }
}

/// Denominator of normalized coordinates: a coordinate is a count of
/// millionths of the monitor's width or height.
pub const NORM_SCALE: u64 = 1_000_000;

/// Largest magnitude a normalized coordinate may take (a factor of two
/// thousand of the monitor span), so that scaling by a pixel dimension
/// stays within 64-bit arithmetic. Values in the conventional range
/// `[0, NORM_SCALE]` are far inside this bound.
pub const NORM_MAX_MAGNITUDE: i64 = 2_000_000_000;

/// A position expressed as a fraction of a monitor's width and height,
/// held exactly in millionths. Out-of-range fractions are accepted and
/// map to coordinates outside the monitor's visible bounds.
pub struct NormalizedPoint {
    /// Horizontal fraction: `x_micros / NORM_SCALE` of the width.
    pub x_micros: i64,
    /// Vertical fraction: `y_micros / NORM_SCALE` of the height.
    pub y_micros: i64,
}

/// Division truncating toward zero, the rounding of an integer cast.
pub open spec fn div_trunc(a: int, b: int) -> int
    recommends
        b > 0,
{
    if a >= 0 {
        a / b
    } else {
        -((-a) / b)
    }
}

/// The absolute coordinate a normalized value `micros / NORM_SCALE`
/// maps to over a span of `dim` pixels starting at `origin`: the
/// monitor origin plus the scaled fraction, truncated toward zero.
pub open spec fn absolute_coord(origin: int, micros: int, dim: int) -> int {
    origin + div_trunc(micros * dim, NORM_SCALE as int)
}

/// Whether both coordinates of a point are within the magnitude bound
/// that keeps the scaling arithmetic inside 64 bits.
pub open spec fn in_magnitude_bound(p: NormalizedPoint) -> bool {
    &&& -NORM_MAX_MAGNITUDE <= p.x_micros <= NORM_MAX_MAGNITUDE
    &&& -NORM_MAX_MAGNITUDE <= p.y_micros <= NORM_MAX_MAGNITUDE
}

proof fn lemma_scaled_product_fits(micros: int, dim: int)
    requires
        -2_000_000_000 <= micros <= 2_000_000_000,
        0 <= dim <= 4_294_967_295,
    ensures
        -8_589_934_590_000_000_000 <= micros * dim <= 8_589_934_590_000_000_000,
{
    assert(-8_589_934_590_000_000_000 <= micros * dim <= 8_589_934_590_000_000_000)
        by (nonlinear_arith)
        requires
            -2_000_000_000 <= micros <= 2_000_000_000,
            0 <= dim <= 4_294_967_295,
    ;
}

proof fn lemma_div_by_scale_small(a: int)
    requires
        0 <= a <= 8_589_934_590_000_000_000,
    ensures
        0 <= a / (NORM_SCALE as int) <= 8_589_934_590_000_000,
{
    assert(0 <= a / 1_000_000 <= 8_589_934_590_000_000) by (nonlinear_arith)
        requires
            0 <= a <= 8_589_934_590_000_000_000,
    ;
}

/// One axis of the mapping: `origin + trunc(micros * dim / NORM_SCALE)`.
fn scale_axis(origin: i32, micros: i64, dim: u32) -> (r: i64)
    requires
        -NORM_MAX_MAGNITUDE <= micros <= NORM_MAX_MAGNITUDE,
    ensures
        r == absolute_coord(origin as int, micros as int, dim as int),
{
    proof {
        lemma_scaled_product_fits(micros as int, dim as int);
    }
    let prod: i64 = micros * (dim as i64);
    let scaled: i64 = if prod >= 0 {
        proof {
            lemma_div_by_scale_small(prod as int);
        }
        ((prod as u64) / NORM_SCALE) as i64
    } else {
        proof {
            lemma_div_by_scale_small(-prod as int);
        }
        let magnitude: u64 = (-prod) as u64;
        -((magnitude / NORM_SCALE) as i64)
    };
    (origin as i64) + scaled
}

/// Maps a normalized point onto a monitor: each axis becomes the
/// monitor origin plus the fraction of the span, truncated toward
/// zero. The magnitude bound is a machine limit only; it keeps the
/// products within 64-bit range.
pub fn map_to_absolute(m: &MonitorDescriptor, p: &NormalizedPoint) -> (r: (i64, i64))
    requires
        in_magnitude_bound(*p),
    ensures
        r.0 == absolute_coord(m.origin_x as int, p.x_micros as int, m.width as int),
        r.1 == absolute_coord(m.origin_y as int, p.y_micros as int, m.height as int),
{
    (scale_axis(m.origin_x, p.x_micros, m.width), scale_axis(m.origin_y, p.y_micros, m.height))
}

} // verus!
