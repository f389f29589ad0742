//! The two commands of the protocol and what each puts on the wire.

use crate::frame::encode_frame;
use crate::frame::frame_bytes;
use crate::frame::holds_fields;
use crate::frame::lemma_frame_holds_fields;
use crate::frame::FRAME_LEN;
use crate::mode::Mode;
use crate::rect::Rect;
use vstd::prelude::*;

verus! {

/// Command code that forces a region to be drawn again.
pub const USBCMD_REDRAW: i16 = 0x04;

/// Command code that sets the mode of a region.
pub const USBCMD_SETMODE: i16 = 0x05;

/// Parameter of a redraw. The command has none, and the field is filled
/// with zero.
pub const REDRAW_PARAM: i16 = 0x0000;

/// Size of the buffer in which the response to a set-mode is read.
pub const SETMODE_RESPONSE_LEN: usize = 32;

/// Size of the buffer in which the response to a redraw is read.
pub const REDRAW_RESPONSE_LEN: usize = 16;

/// One request to the controller.
#[derive(Clone, Copy, Debug, PartialEq, Eq, Structural)]
pub enum Command {
    /// Sets the mode of a region. The firmware always draws the region
    /// again when it does so.
    SetMode { mode: Mode, area: Rect },
    /// Draws a region again. The controller flashes it from black to white
    /// first, which clears ghosting.
    Redraw { area: Rect },
}

impl Command {
    /// The command code in the frame's header.
    pub open spec fn spec_code(self) -> i16 {
        match self {
            Command::SetMode { .. } => USBCMD_SETMODE,
            Command::Redraw { .. } => USBCMD_REDRAW,
        }
    }

    /// The parameter in the frame's header: the mode's code for a set-mode,
    /// zero for a redraw.
    pub open spec fn spec_param(self) -> i16 {
        match self {
            Command::SetMode { mode, .. } => mode.spec_code(),
            Command::Redraw { .. } => REDRAW_PARAM,
        }
    }

    /// The region that the command applies to.
    pub open spec fn spec_area(self) -> Rect {
        match self {
            Command::SetMode { area, .. } => area,
            Command::Redraw { area } => area,
        }
    }

    /// The size of the buffer in which the response is read.
    pub open spec fn spec_response_len(self) -> usize {
        match self {
            Command::SetMode { .. } => SETMODE_RESPONSE_LEN,
            Command::Redraw { .. } => REDRAW_RESPONSE_LEN,
        }
    }

    /// The frame that carries the command.
    pub open spec fn frame(self) -> Seq<u8> {
        frame_bytes(self.spec_code(), self.spec_param(), self.spec_area())
    }

    /// The command code in the frame's header.
    #[verifier::when_used_as_spec(spec_code)]
    pub fn code(self) -> (code: i16)
        ensures
            code == self.spec_code(),
    {
        match self {
            Command::SetMode { .. } => USBCMD_SETMODE,
            Command::Redraw { .. } => USBCMD_REDRAW,
        }
    }

    /// The parameter in the frame's header: the mode's code for a set-mode,
    /// zero for a redraw.
    #[verifier::when_used_as_spec(spec_param)]
    pub fn param(self) -> (param: i16)
        ensures
            param == self.spec_param(),
    {
        match self {
            Command::SetMode { mode, .. } => mode.code(),
            Command::Redraw { .. } => REDRAW_PARAM,
        }
    }

    /// The region that the command applies to.
    #[verifier::when_used_as_spec(spec_area)]
    pub fn area(self) -> (area: Rect)
        ensures
            area == self.spec_area(),
    {
        match self {
            Command::SetMode { area, .. } => area,
            Command::Redraw { area } => area,
        }
    }

    /// The size of the buffer in which the response is read.
    #[verifier::when_used_as_spec(spec_response_len)]
    pub fn response_len(self) -> (len: usize)
        ensures
            len == self.spec_response_len(),
    {
        match self {
            Command::SetMode { .. } => SETMODE_RESPONSE_LEN,
            Command::Redraw { .. } => REDRAW_RESPONSE_LEN,
        }
    }

    /// Encodes the command as the frame that goes out on the wire.
    pub fn encode(self) -> (frame: Vec<u8>)
        ensures
            frame@ == self.frame(),
            frame@.len() == FRAME_LEN,
            holds_fields(frame@, self.spec_code(), self.spec_param(), self.spec_area()),
    {
        let area = self.area();
        encode_frame(self.code(), self.param(), &area)
    }
}

/// A redraw sends zero as its parameter, whatever region it is given: no
/// coordinate ever reaches bytes 2 and 3 of its frame.
pub proof fn lemma_redraw_parameter_is_zero(area: Rect)
    ensures
        (Command::Redraw { area }).frame().len() == FRAME_LEN,
        (Command::Redraw { area }).frame()[2] == 0x00,
        (Command::Redraw { area }).frame()[3] == 0x00,
{
    let command = Command::Redraw { area };
    assert(command.frame().subrange(2, 4) =~= seq![0x00u8, 0x00u8]);
    assert(command.frame().subrange(2, 4)[0] == command.frame()[2]);
    assert(command.frame().subrange(2, 4)[1] == command.frame()[3]);
}

/// The frame of a command holds the command's own code, parameter and
/// region: `0x05` and the mode's code for a set-mode, `0x04` and zero for a
/// redraw.
pub proof fn lemma_command_frame_holds_fields(command: Command)
    ensures
        holds_fields(command.frame(), command.spec_code(), command.spec_param(), command.spec_area()),
        command is SetMode ==> command.spec_code() == 0x05 && command.spec_param()
            == command->mode.spec_code(),
        command is Redraw ==> command.spec_code() == 0x04 && command.spec_param() == 0x00,
{
    lemma_frame_holds_fields(command.spec_code(), command.spec_param(), command.spec_area());
}

} // verus!
