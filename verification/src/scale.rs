use vstd::prelude::*;

use crate::error::XCapError;

verus! {

/// Dots per inch that the OS maps to a scale factor of one.
pub const BASE_DPI: u32 = 96;

/// A DPI scale factor as an exact ratio of physical to logical pixels.
#[derive(Debug, Clone, Copy, PartialEq, Eq, Structural)]
pub struct ScaleFactor {
    pub num: u32,
    pub den: u32,
}

impl ScaleFactor {
    /// A scale factor is strictly positive: both parts nonzero.
    pub open spec fn positive(self) -> bool {
        self.num > 0 && self.den > 0
    }
}

/// The primary path yields a scale factor only when the process is
/// DPI-aware — an unaware process gets a misleading constant back, which
/// must be rejected before use — and the per-monitor DPI query itself
/// produced a positive value.
pub open spec fn primary_scale_ok(dpi_aware: bool, dpi_x: Option<u32>) -> bool {
    dpi_aware && (dpi_x matches Some(d) && d > 0)
}

/// The fallback ratio of physical to logical width is usable exactly when
/// the device context yielded positive widths for both.
pub open spec fn fallback_scale_ok(physical_width: i32, logical_width: i32) -> bool {
    physical_width > 0 && logical_width > 0
}

/// What scale resolution makes of the native query results: the primary
/// per-monitor DPI over the base DPI when the primary path holds, else the
/// device-capability ratio, else nothing.
pub open spec fn resolved_scale(
    dpi_aware: bool,
    dpi_x: Option<u32>,
    physical_width: i32,
    logical_width: i32,
) -> Option<ScaleFactor> {
    if primary_scale_ok(dpi_aware, dpi_x) {
        Some(ScaleFactor { num: dpi_x.unwrap(), den: BASE_DPI })
    } else if fallback_scale_ok(physical_width, logical_width) {
        Some(ScaleFactor { num: physical_width as u32, den: logical_width as u32 })
    } else {
        None
    }
}

/// Law: a resolved scale factor is always strictly positive, and whenever
/// the primary DPI path is unavailable (the process is unaware, the query
/// entry point is missing, or the query failed or reported zero), the
/// fallback ratio is the result — itself strictly positive for a valid
/// device context.
pub proof fn lemma_scale_strictly_positive(
    dpi_aware: bool,
    dpi_x: Option<u32>,
    physical_width: i32,
    logical_width: i32,
)
    ensures
        resolved_scale(dpi_aware, dpi_x, physical_width, logical_width) matches Some(s)
            ==> s.positive(),
        !primary_scale_ok(dpi_aware, dpi_x) && fallback_scale_ok(physical_width, logical_width)
            ==> resolved_scale(dpi_aware, dpi_x, physical_width, logical_width) == Some(
            ScaleFactor { num: physical_width as u32, den: logical_width as u32 },
        ),
{
}

/// The primary, awareness-gated tier of scale resolution. `dpi_x` carries
/// what the dynamically located per-monitor DPI query returned, `None`
/// when the entry point is missing or the call failed. Fails with
/// `QueryFailed` exactly when the primary path does not hold; the caller
/// then falls back.
pub fn get_hi_dpi_scale_factor(dpi_aware: bool, dpi_x: Option<u32>) -> (r: Result<
    ScaleFactor,
    XCapError,
>)
    ensures
        match r {
            Ok(s) => primary_scale_ok(dpi_aware, dpi_x) && s == (ScaleFactor {
                num: dpi_x.unwrap(),
                den: BASE_DPI,
            }),
            Err(e) => !primary_scale_ok(dpi_aware, dpi_x) && e == XCapError::QueryFailed,
        },
{
    if !dpi_aware {
        return Err(XCapError::QueryFailed);
    }
    match dpi_x {
        Some(d) if d > 0 => Ok(ScaleFactor { num: d, den: BASE_DPI }),
        _ => Err(XCapError::QueryFailed),
    }
}

/// Resolves a surface's scale factor: the primary per-monitor DPI query
/// first; any primary-path failure is swallowed and the device-capability
/// ratio of physical to logical width is used instead. Only an unusable
/// fallback (an invalid device context) propagates, as `QueryFailed`.
pub fn get_scale_factor(
    dpi_aware: bool,
    dpi_x: Option<u32>,
    physical_width: i32,
    logical_width: i32,
) -> (r: Result<ScaleFactor, XCapError>)
    ensures
        match r {
            Ok(s) => resolved_scale(dpi_aware, dpi_x, physical_width, logical_width) == Some(s)
                && s.positive(),
            Err(e) => resolved_scale(dpi_aware, dpi_x, physical_width, logical_width) is None && e
                == XCapError::QueryFailed,
        },
{
    match get_hi_dpi_scale_factor(dpi_aware, dpi_x) {
        Ok(s) => Ok(s),
        Err(_) => {
            if physical_width > 0 && logical_width > 0 {
                Ok(ScaleFactor { num: physical_width as u32, den: logical_width as u32 })
            } else {
                Err(XCapError::QueryFailed)
            }
        },
    }
}

} // verus!
