//! The per-line ingestion step: decode a raw line and validate the frame.
//! A frame comes out only if both stages passed; the first failing stage
//! is reported. Both outcomes are local to the line: the caller logs a
//! failure and goes on to the next line.

use vstd::prelude::*;

use vstd::string::StringSliceAdditionalSpecFns;

use crate::error::DecodeError;
use crate::error::ValidateError;
use crate::status_notify::decoded_bytes;
use crate::status_notify::line_well_formed;
use crate::status_notify::spec_decode;
use crate::status_notify::spec_validate;
use crate::status_notify::StatusNotify;

verus! {

/// Why a line was dropped: it could not be decoded at all, or the decoded
/// frame failed a structural check.
#[derive(Debug, Clone, Copy, PartialEq, Eq, Structural)]
pub enum FrameError {
    Decode(DecodeError),
    Validate(ValidateError),
}

/// Run one line through decoding and validation.
///
/// The result is a delivery-eligible frame exactly when the line is
/// well-formed and the decoded bytes pass all four structural checks;
/// otherwise the error of the stage that failed first.
pub fn process_line(line: &str) -> (r: Result<StatusNotify, FrameError>)
    ensures
        (r matches Ok(frame) ==> {
            &&& line_well_formed(line.spec_bytes())
            &&& frame@ == decoded_bytes(line.spec_bytes())
            &&& spec_validate(frame@) == Ok::<(), ValidateError>(())
        }),
        (r matches Err(FrameError::Decode(e)) ==> spec_decode(line.spec_bytes())
            == Err::<Seq<u8>, DecodeError>(e)),
        (r matches Err(FrameError::Validate(e)) ==> line_well_formed(line.spec_bytes())
            && spec_validate(decoded_bytes(line.spec_bytes()))
                == Err::<(), ValidateError>(e)),
{
    let frame = match StatusNotify::decode_str(line) {
        Ok(frame) => frame,
        Err(e) => {
            return Err(FrameError::Decode(e));
        },
    };

    if let Err(e) = frame.validate() {
        return Err(FrameError::Validate(e));
    }

    Ok(frame)
}

} // verus!
