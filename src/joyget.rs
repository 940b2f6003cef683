//! Decoding of the joystick query's raw record.
//!
//! Axis positions are kept as exact integers: a reading `a` stands for the
//! fraction `a / AXIS_FULL_SCALE` of full deflection, always in [-1, 1].
use vstd::prelude::*;

verus! {

/// Raw axis reading that the query reports for a centred axis.
pub const AXIS_CENTER: u32 = 32767;

/// Denominator of a normalized axis reading: full deflection to either side.
pub const AXIS_FULL_SCALE: i32 = 32767;

/// Offset of a raw axis reading from the centre, as an integer.
pub open spec fn axis_offset(v: u32) -> int {
    v as int - AXIS_CENTER as int
}

/// Normalized axis value, in units of `1 / AXIS_FULL_SCALE`: the offset from
/// the centre, clamped to one full scale on either side.
pub open spec fn axis_value(v: u32) -> int {
    let o = axis_offset(v);
    if o < -(AXIS_FULL_SCALE as int) {
        -(AXIS_FULL_SCALE as int)
    } else if o > AXIS_FULL_SCALE as int {
        AXIS_FULL_SCALE as int
    } else {
        o
    }
}

/// Normalizes a raw axis reading: `(v - 32767) / 32767` clamped to
/// [-1, 1], returned as its numerator over `AXIS_FULL_SCALE`.
pub fn to1(v: u32) -> (r: i32)
    ensures
        r == axis_value(v),
        -AXIS_FULL_SCALE <= r <= AXIS_FULL_SCALE,
{
    if v > AXIS_CENTER + (AXIS_FULL_SCALE as u32) {
        AXIS_FULL_SCALE
    } else {
        (v as i32) - (AXIS_CENTER as i32)
    }
}

/// Raw point-of-view reading that means "no direction": the hat is centred.
pub const POV_CENTERED: u32 = 65535;

/// One past the largest point-of-view angle, in hundredths of a degree.
pub const POV_FULL_TURN: u32 = 36000;

/// Decoded point-of-view reading: a raw angle in [0, `POV_FULL_TURN`) is
/// present and unchanged; the centred sentinel, and any other value that is
/// no angle, is absent.
pub open spec fn pov_value(raw: u32) -> Option<u32> {
    if raw < POV_FULL_TURN {
        Some(raw)
    } else {
        None
    }
}

/// Decodes the raw point-of-view field; only a valid angle comes out as a number.
pub fn decode_pov(raw: u32) -> (r: Option<u32>)
    ensures
        r == pov_value(raw),
        r matches Some(a) ==> a < POV_FULL_TURN,
        raw == POV_CENTERED ==> r is None,
{
    if raw < POV_FULL_TURN {
        Some(raw)
    } else {
        None
    }
}

/// Whether bit `i` of the raw button mask is set, that is, button `i + 1` is down.
pub open spec fn button_pressed(mask: u32, i: u32) -> bool {
    (mask >> i) & 1u32 != 0
}

/// Unpacks the raw button mask: entry `i` is bit `i`.
pub fn decode_buttons(mask: u32) -> (r: [bool; 32])
    ensures
        forall|i: int| 0 <= i < 32 ==> r[i] == button_pressed(mask, i as u32),
{
    let mut buttons: [bool; 32] = [false; 32];
    let mut i: u32 = 0;
    while i < 32
        invariant
            0 <= i <= 32,
            forall|j: int| 0 <= j < i ==> buttons[j] == button_pressed(mask, j as u32),
        decreases 32 - i,
    {
        buttons[i as usize] = (mask >> i) & 1u32 != 0;
        i = i + 1;
    }
    buttons
}

/// Status code of a query that succeeded.
pub const JOYERR_NOERROR: u32 = 0;

/// Status code for invalid request parameters.
pub const JOYERR_PARMS: u32 = 165;

/// Status code for a request that the device could not complete.
pub const JOYERR_NOCANDO: u32 = 166;

/// Status code for a joystick that is not connected.
pub const JOYERR_UNPLUGGED: u32 = 167;

/// Why a poll gave no snapshot.
#[derive(Debug, Clone, Copy, PartialEq, Eq, Structural)]
pub enum JoystickError {
    /// A status code that none of the other kinds covers.
    Unknown,
    /// The request was not completed.
    Nocando,
    /// The request had invalid parameters.
    Params,
    /// The joystick is unplugged.
    Unplugged,
}

/// The error kind of a failure status code.
pub open spec fn error_kind(code: u32) -> JoystickError {
    if code == JOYERR_NOCANDO {
        JoystickError::Nocando
    } else if code == JOYERR_PARMS {
        JoystickError::Params
    } else if code == JOYERR_UNPLUGGED {
        JoystickError::Unplugged
    } else {
        JoystickError::Unknown
    }
}

/// Classifies a failure status code; every code reaches exactly one kind.
pub fn error_from_code(code: u32) -> (r: JoystickError)
    ensures
        r == error_kind(code),
{
    match code {
        JOYERR_NOCANDO => JoystickError::Nocando,
        JOYERR_PARMS => JoystickError::Params,
        JOYERR_UNPLUGGED => JoystickError::Unplugged,
        _ => JoystickError::Unknown,
    }
}

/// The fields of the query's record that the decoding reads, as reported.
#[derive(Debug, Clone, Copy, Default, PartialEq, Eq)]
pub struct RawJoyInfo {
    /// Axis readings, nominally in [0, 65535] with the centre at `AXIS_CENTER`.
    pub x: u32,
    pub y: u32,
    pub z: u32,
    pub r: u32,
    pub u: u32,
    pub v: u32,
    /// Point of view in hundredths of a degree, or `POV_CENTERED`.
    pub pov: u32,
    /// Button mask: bit `i` is button `i + 1`.
    pub buttons: u32,
}

/// One snapshot of a joystick.
#[derive(Debug, Clone, Copy, Default, PartialEq, Eq)]
pub struct JoystickData {
    /// Axis positions, each the numerator of a fraction over
    /// `AXIS_FULL_SCALE`, in [-AXIS_FULL_SCALE, AXIS_FULL_SCALE].
    pub axis_x: i32,
    pub axis_y: i32,
    pub axis_z: i32,
    pub axis_r: i32,
    pub axis_u: i32,
    pub axis_v: i32,
    /// Point of view in hundredths of a degree, below `POV_FULL_TURN`;
    /// `None` when centred.
    pub pov: Option<u32>,
    /// Button states: index 0 is button 1, index 31 is button 32.
    pub buttons: [bool; 32],
}

impl JoystickData {
    /// Every axis lies in [-1, 1] and a present point of view is a valid angle.
    pub open spec fn wf(&self) -> bool {
        &&& -AXIS_FULL_SCALE <= self.axis_x <= AXIS_FULL_SCALE
        &&& -AXIS_FULL_SCALE <= self.axis_y <= AXIS_FULL_SCALE
        &&& -AXIS_FULL_SCALE <= self.axis_z <= AXIS_FULL_SCALE
        &&& -AXIS_FULL_SCALE <= self.axis_r <= AXIS_FULL_SCALE
        &&& -AXIS_FULL_SCALE <= self.axis_u <= AXIS_FULL_SCALE
        &&& -AXIS_FULL_SCALE <= self.axis_v <= AXIS_FULL_SCALE
        &&& self.pov matches Some(a) ==> a < POV_FULL_TURN
    }
}

/// `d` is the snapshot that the raw record `raw` decodes to.
pub open spec fn decodes_to(raw: RawJoyInfo, d: JoystickData) -> bool {
    &&& d.axis_x == axis_value(raw.x)
    &&& d.axis_y == axis_value(raw.y)
    &&& d.axis_z == axis_value(raw.z)
    &&& d.axis_r == axis_value(raw.r)
    &&& d.axis_u == axis_value(raw.u)
    &&& d.axis_v == axis_value(raw.v)
    &&& d.pov == pov_value(raw.pov)
    &&& forall|i: int| 0 <= i < 32 ==> d.buttons[i] == button_pressed(raw.buttons, i as u32)
}

/// Turns the outcome of one joystick query into a snapshot or an error kind.
///
/// `status` is the status code that the query returned and `raw` the record
/// it filled; the record is read only when the query succeeded.
pub fn update(status: u32, raw: RawJoyInfo) -> (r: Result<JoystickData, JoystickError>)
    ensures
        r is Ok <==> status == JOYERR_NOERROR,
        r matches Ok(d) ==> decodes_to(raw, d) && d.wf(),
        r matches Err(e) ==> e == error_kind(status),
{
    if status == JOYERR_NOERROR {
        let data = JoystickData {
            axis_x: to1(raw.x),
            axis_y: to1(raw.y),
            axis_z: to1(raw.z),
            axis_r: to1(raw.r),
            axis_u: to1(raw.u),
            axis_v: to1(raw.v),
            pov: decode_pov(raw.pov),
            buttons: decode_buttons(raw.buttons),
        };
        Ok(data)
    } else {
        Err(error_from_code(status))
    }
}

/// Clamping leaves an axis reading alone when its offset from the centre is
/// already within one full scale: every raw value up to `2 * AXIS_CENTER`
/// normalizes to its plain offset, the lowest raw value 0 to exactly -1.
pub proof fn axis_clamp_keeps_in_range(v: u32)
    requires
        v <= AXIS_CENTER + AXIS_FULL_SCALE,
    ensures
        axis_value(v) == axis_offset(v),
        -AXIS_FULL_SCALE <= axis_offset(v) <= AXIS_FULL_SCALE,
{
}

/// Every status code falls under exactly one error kind: each named code
/// under its own kind, and every other code under `Unknown`.
pub proof fn error_kind_total(code: u32)
    ensures
        error_kind(code) == JoystickError::Nocando <==> code == JOYERR_NOCANDO,
        error_kind(code) == JoystickError::Params <==> code == JOYERR_PARMS,
        error_kind(code) == JoystickError::Unplugged <==> code == JOYERR_UNPLUGGED,
        error_kind(code) == JoystickError::Unknown <==> (code != JOYERR_NOCANDO && code
            != JOYERR_PARMS && code != JOYERR_UNPLUGGED),
{
}

/// Classifying the same status code twice gives the same kind: the mapping
/// holds no state.
pub proof fn error_kind_deterministic(first: u32, second: u32)
    requires
        first == second,
    ensures
        error_kind(first) == error_kind(second),
{
}

} // verus!
