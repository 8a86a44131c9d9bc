use vstd::prelude::*;

use crate::capture::CanonicalRgba;
use crate::capture::capture;
use crate::capture::normalized_rgba;
use crate::error::XCapError;
use crate::pixel::RawCaptureBuffer;
use crate::pixel::raw_consistent;
use crate::scale::ScaleFactor;
use crate::scale::get_scale_factor;
use crate::scale::resolved_scale;

verus! {

/// Native display-orientation codes, as the display-settings query reports
/// them.
pub const ORIENTATION_DEFAULT: u32 = 0;

pub const ORIENTATION_90: u32 = 1;

pub const ORIENTATION_180: u32 = 2;

pub const ORIENTATION_270: u32 = 3;

/// The flag value the OS puts on the primary monitor's info block.
pub const PRIMARY_FLAG: u32 = 1;

/// Everything the native per-monitor queries reported for one handle,
/// decoded to plain values by the platform backend: the info block, the
/// current display-mode settings, and the two inputs of scale resolution.
#[derive(Debug, Clone)]
pub struct MonitorQuery {
    /// The native handle's value, reused as an identifier that is stable
    /// for the handle's process lifetime (not across reboots/reconnects).
    pub handle: u32,
    /// Device name, decoded from the native string encoding.
    pub name: String,
    /// Virtual-desktop position; negative for monitors left of or above
    /// the primary.
    pub x: i32,
    pub y: i32,
    /// Logical size from the display-settings query.
    pub width: u32,
    pub height: u32,
    /// Native orientation code.
    pub orientation: u32,
    /// Refresh rate in Hz.
    pub frequency: u32,
    /// Info-block flags; the primary monitor carries `PRIMARY_FLAG`.
    pub flags: u32,
    /// Whether the process has opted into DPI awareness.
    pub dpi_aware: bool,
    /// What the per-monitor DPI query returned; `None` when the entry
    /// point is missing or the call failed.
    pub dpi_x: Option<u32>,
    /// Device-capability widths for the fallback ratio.
    pub physical_width: i32,
    pub logical_width: i32,
}

/// One capturable monitor: a value snapshot taken at enumeration time.
/// Observing configuration changes requires re-enumeration.
#[derive(Debug, Clone)]
pub struct ImplMonitor {
    pub id: u32,
    pub name: String,
    pub x: i32,
    pub y: i32,
    pub width: u32,
    pub height: u32,
    /// Degrees, always one of 0, 90, 180 and 270.
    pub rotation: u32,
    pub scale_factor: ScaleFactor,
    pub frequency: u32,
    pub is_primary: bool,
}

/// The rotation a native orientation code stands for. An unrecognized
/// code maps to 0 by policy; that default is not a verified physical
/// rotation.
pub open spec fn spec_rotation(orientation: u32) -> u32 {
    if orientation == ORIENTATION_90 {
        90
    } else if orientation == ORIENTATION_180 {
        180
    } else if orientation == ORIENTATION_270 {
        270
    } else {
        0
    }
}

/// Law: a rotation is always one of 0, 90, 180 and 270 degrees, and every
/// orientation code outside the four recognized ones maps to 0.
pub proof fn lemma_rotation_in_range(orientation: u32)
    ensures
        spec_rotation(orientation) == 0 || spec_rotation(orientation) == 90 || spec_rotation(
            orientation,
        ) == 180 || spec_rotation(orientation) == 270,
        orientation != ORIENTATION_DEFAULT && orientation != ORIENTATION_90 && orientation
            != ORIENTATION_180 && orientation != ORIENTATION_270 ==> spec_rotation(orientation)
            == 0,
{
}

/// Translates a native orientation code into degrees.
pub fn rotation_from_orientation(orientation: u32) -> (r: u32)
    ensures
        r == spec_rotation(orientation),
{
    if orientation == ORIENTATION_90 {
        90
    } else if orientation == ORIENTATION_180 {
        180
    } else if orientation == ORIENTATION_270 {
        270
    } else {
        0
    }
}

/// Construction of a monitor descriptor succeeds exactly when a scale
/// factor can be resolved from the query.
pub open spec fn query_ok(q: MonitorQuery) -> bool {
    resolved_scale(q.dpi_aware, q.dpi_x, q.physical_width, q.logical_width) is Some
}

/// The descriptor a successful query builds.
pub open spec fn spec_monitor(q: MonitorQuery) -> ImplMonitor {
    ImplMonitor {
        id: q.handle,
        name: q.name,
        x: q.x,
        y: q.y,
        width: q.width,
        height: q.height,
        rotation: spec_rotation(q.orientation),
        scale_factor: resolved_scale(
            q.dpi_aware,
            q.dpi_x,
            q.physical_width,
            q.logical_width,
        ).unwrap(),
        frequency: q.frequency,
        is_primary: q.flags == PRIMARY_FLAG,
    }
}

/// A descriptor that survives enumeration is fully populated and
/// well-formed: its rotation is one of the four right angles and its scale
/// factor is strictly positive.
pub open spec fn monitor_wf(m: ImplMonitor) -> bool {
    &&& m.rotation == 0 || m.rotation == 90 || m.rotation == 180 || m.rotation == 270
    &&& m.scale_factor.positive()
}

/// The descriptors of the queries whose construction succeeds, in query
/// order; failing queries are skipped, not reported.
pub open spec fn monitors_of(queries: Seq<MonitorQuery>) -> Seq<ImplMonitor>
    decreases queries.len(),
{
    if queries.len() == 0 {
        Seq::empty()
    } else {
        let prefix = monitors_of(queries.drop_last());
        if query_ok(queries.last()) {
            prefix.push(spec_monitor(queries.last()))
        } else {
            prefix
        }
    }
}

/// A monitor's logical rectangle contains the point.
pub open spec fn contains_point(m: ImplMonitor, x: int, y: int) -> bool {
    &&& m.x as int <= x < m.x as int + m.width as int
    &&& m.y as int <= y < m.y as int + m.height as int
}

impl ImplMonitor {
    /// Builds the descriptor for one monitor out of what the native
    /// queries reported. Fails with `QueryFailed` exactly when no scale
    /// factor can be resolved; every field of a successful descriptor is
    /// populated, and the result is well-formed.
    pub fn new(query: &MonitorQuery) -> (r: Result<ImplMonitor, XCapError>)
        ensures
            match r {
                Ok(m) => query_ok(*query) && m == spec_monitor(*query) && monitor_wf(m),
                Err(e) => !query_ok(*query) && e == XCapError::QueryFailed,
            },
    {
        let scale_factor = match get_scale_factor(
            query.dpi_aware,
            query.dpi_x,
            query.physical_width,
            query.logical_width,
        ) {
            Ok(s) => s,
            Err(e) => {
                return Err(e);
            },
        };
        let rotation = rotation_from_orientation(query.orientation);
        Ok(
            ImplMonitor {
                id: query.handle,
                name: query.name.clone(),
                x: query.x,
                y: query.y,
                width: query.width,
                height: query.height,
                rotation,
                scale_factor,
                frequency: query.frequency,
                is_primary: query.flags == PRIMARY_FLAG,
            },
        )
    }

    /// Builds the descriptor list for an enumeration pass. A construction
    /// failure drops that one monitor from the result; it never fails the
    /// enumeration as a whole.
    pub fn all(queries: &Vec<MonitorQuery>) -> (r: Vec<ImplMonitor>)
        ensures
            r@ == monitors_of(queries@),
            forall|i: int| 0 <= i < r@.len() ==> monitor_wf(#[trigger] r@[i]),
    {
        let mut out: Vec<ImplMonitor> = Vec::new();
        let mut i: usize = 0;
        while i < queries.len()
            invariant
                i <= queries.len(),
                out@ == monitors_of(queries@.take(i as int)),
                forall|k: int| 0 <= k < out@.len() ==> monitor_wf(#[trigger] out@[k]),
            decreases queries.len() - i,
        {
            match ImplMonitor::new(&queries[i]) {
                Ok(m) => out.push(m),
                Err(_) => {},
            }
            proof {
                assert(queries@.take(i as int + 1).drop_last() =~= queries@.take(i as int));
                assert(queries@.take(i as int + 1).last() == queries@[i as int]);
            }
            i = i + 1;
        }
        proof {
            assert(queries@.take(queries@.len() as int) =~= queries@);
        }
        out
    }

    /// Finds the first monitor whose rectangle contains the point. Fails
    /// with `NotFound` exactly when the point lies outside every
    /// monitor's geometry.
    pub fn from_point(monitors: &Vec<ImplMonitor>, x: i32, y: i32) -> (r: Result<
        &ImplMonitor,
        XCapError,
    >)
        ensures
            match r {
                Ok(m) => exists|i: int|
                    0 <= i < monitors@.len() && *m == monitors@[i] && #[trigger] contains_point(
                        monitors@[i],
                        x as int,
                        y as int,
                    ) && forall|j: int|
                        0 <= j < i ==> !#[trigger] contains_point(
                            monitors@[j],
                            x as int,
                            y as int,
                        ),
                Err(e) => e == XCapError::NotFound && forall|i: int|
                    0 <= i < monitors@.len() ==> !#[trigger] contains_point(
                        monitors@[i],
                        x as int,
                        y as int,
                    ),
            },
    {
        let mut i: usize = 0;
        while i < monitors.len()
            invariant
                i <= monitors.len(),
                forall|j: int|
                    0 <= j < i as int ==> !#[trigger] contains_point(
                        monitors@[j],
                        x as int,
                        y as int,
                    ),
            decreases monitors.len() - i,
        {
            let m = &monitors[i];
            let px = x as i64;
            let py = y as i64;
            let mx = m.x as i64;
            let my = m.y as i64;
            if mx <= px && px < mx + m.width as i64 && my <= py && py < my + m.height as i64 {
                proof {
                    assert(contains_point(monitors@[i as int], x as int, y as int));
                }
                return Ok(m);
            }
            i = i + 1;
        }
        Err(XCapError::NotFound)
    }

    /// The capture pipeline for one monitor: the platform backend's grab
    /// result goes through pixel normalization in one call. `None` — the
    /// native capture primitive produced no image — is surfaced as
    /// `CaptureFailed`; an inconsistent buffer as `DecodeFailed`; there is
    /// no retry.
    pub fn capture_image(&self, raw: Option<RawCaptureBuffer>) -> (r: Result<
        CanonicalRgba,
        XCapError,
    >)
        ensures
            match r {
                Ok(img) => raw matches Some(b) && raw_consistent(b) && img.width == b.width
                    && img.height == b.height && img.data_seq() == normalized_rgba(b),
                Err(e) => match raw {
                    Option::None => e == XCapError::CaptureFailed,
                    Option::Some(b) => !raw_consistent(b) && e == XCapError::DecodeFailed,
                },
            },
    {
        match raw {
            Option::None => Err(XCapError::CaptureFailed),
            Option::Some(b) => capture(&b),
        }
    }
}

} // verus!
