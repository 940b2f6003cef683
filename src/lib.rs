//! Reading one joystick through the Windows multimedia joystick query,
//! decoded into a plain snapshot.
//!
//! The library holds the decoding: axis normalization, point-of-view
//! sentinel handling, button unpacking and the mapping of the query's status
//! code to a closed error kind. The query itself is made by the caller, who
//! hands the status code and the raw record to [`update`]. The spec
//! functions and laws that the contracts speak of are in [`joyget`].

pub mod joyget;

pub use joyget::{
    decode_buttons, decode_pov, error_from_code, to1, update, JoystickData, JoystickError,
    RawJoyInfo, AXIS_CENTER, AXIS_FULL_SCALE, JOYERR_NOCANDO, JOYERR_NOERROR, JOYERR_PARMS,
    JOYERR_UNPLUGGED, POV_CENTERED, POV_FULL_TURN,
};
