//! The device contract, the device that refuses everything, and the state
//! of two displays.
use vstd::prelude::*;
use crate::error::{ExecutionResult, UxnError};

verus! {

/// The address of a port: as an operand of `DEI` and `DEO`, the device slot
/// in the high nibble and the port of that device in the low nibble.
pub type PortAddress = u8;

/// The slot that a port address selects: its high nibble.
pub open spec fn slot_of(address: u16) -> int {
    (address as int / 16) % 16
}

/// The port that a port address selects within its slot: its low nibble.
pub open spec fn port_of(address: u16) -> u8 {
    (address % 16) as u8
}

/// A peripheral in one of the slots 1 to 15.
///
/// The machine calls `dei` for a `DEI` instruction and `deo` for a `DEO`
/// instruction whose port address selects the slot, with the port number
/// from 0 to 15.  Either may fail; the machine hands the error on unchanged
/// and stops.  Nothing is promised of what an implementation answers.
pub trait Device {
    /// Reads the port.
    fn dei(&self, port: PortAddress) -> ExecutionResult<u8>;

    /// Writes `value` to the port.
    fn deo(&mut self, port: PortAddress, value: u8) -> ExecutionResult<()>;
}

/// The device of an unassigned slot: it refuses every read and every write.
#[derive(Clone, Copy, Debug, PartialEq, Eq, Structural)]
pub struct NullDevice {}

impl Device for NullDevice {
    fn dei(&self, port: PortAddress) -> (r: ExecutionResult<u8>)
        ensures
            r == Err::<u8, UxnError>(UxnError::DeviceError),
    {
        Err(UxnError::DeviceError)
    }

    fn deo(&mut self, port: PortAddress, value: u8) -> (r: ExecutionResult<()>)
        ensures
            r == Err::<(), UxnError>(UxnError::DeviceError),
            *final(self) == *old(self),
    {
        Err(UxnError::DeviceError)
    }
}

/// What a write to the bitmap device asked for.
#[derive(Clone, Copy, Debug, PartialEq, Eq, Structural)]
pub enum BitmapOutcome {
    /// Port 0, value 0: show the bitmap.  The host does the showing.
    Blit,
    /// Port 0, value 1: the pixel at the cursor was set to the colour.
    PixelDrawn,
    /// One of the ports 1 to 3: the cursor or the colour was set.
    Stored,
    /// Port 0 with a value that is no command.
    InvalidCommand,
    /// A port that the device does not have.
    UnknownPort,
}

/// What a bitmap device holds: 16 rows of 16 pixels, a cursor and a colour.
pub struct BitmapState {
    pub buffer: Seq<u8>,
    pub x: u8,
    pub y: u8,
    pub color: u8,
}

impl BitmapState {
    /// The index of the pixel at the cursor.
    pub open spec fn cursor(self) -> int {
        self.y as int * 16 + self.x as int
    }

    /// What a write makes of the device.  Port 0 takes a command: 0 shows
    /// the bitmap, 1 sets the pixel at the cursor to the colour.  Port 1
    /// sets the column of the cursor and port 2 its row, each to the value
    /// reduced to 0 to 15.  Port 3 sets the colour.
    pub open spec fn write(self, port: PortAddress, value: u8) -> (BitmapState, BitmapOutcome) {
        if port == 0 {
            if value == 0 {
                (self, BitmapOutcome::Blit)
            } else if value == 1 {
                (
                    BitmapState { buffer: self.buffer.update(self.cursor(), self.color), ..self },
                    BitmapOutcome::PixelDrawn,
                )
            } else {
                (self, BitmapOutcome::InvalidCommand)
            }
        } else if port == 1 {
            (BitmapState { x: value % 16, ..self }, BitmapOutcome::Stored)
        } else if port == 2 {
            (BitmapState { y: value % 16, ..self }, BitmapOutcome::Stored)
        } else if port == 3 {
            (BitmapState { color: value, ..self }, BitmapOutcome::Stored)
        } else {
            (self, BitmapOutcome::UnknownPort)
        }
    }
}

/// A bitmap of 16 by 16 pixels that a program draws on pixel by pixel.
pub struct BitmapDevice {
    buffer: [u8; 256],
    x: u8,
    y: u8,
    color: u8,
}

impl View for BitmapDevice {
    type V = BitmapState;

    closed spec fn view(&self) -> BitmapState {
        BitmapState { buffer: self.buffer@, x: self.x, y: self.y, color: self.color }
    }
}

impl BitmapDevice {
    /// The cursor stays on the bitmap.
    #[verifier::type_invariant]
    spec fn cursor_on_bitmap(self) -> bool {
        self.x < 16 && self.y < 16
    }

    /// Every bitmap has 256 pixels.
    pub proof fn lemma_wf(&self)
        ensures
            self@.buffer.len() == 256,
    {
    }

    /// A blank bitmap: every pixel 0, the cursor in the corner, colour 0.
    pub fn new() -> (device: Self)
        ensures
            device@.buffer == Seq::new(256, |i: int| 0u8),
            device@.x == 0,
            device@.y == 0,
            device@.color == 0,
    {
        let device = BitmapDevice { buffer: [0u8; 256], x: 0, y: 0, color: 0 };
        assert(device@.buffer =~= Seq::new(256, |i: int| 0u8));
        device
    }

    /// Sets the pixel at the cursor to the colour.
    pub fn draw_pixel(&mut self)
        ensures
            final(self)@ == (BitmapState {
                buffer: old(self)@.buffer.update(old(self)@.cursor(), old(self)@.color),
                ..old(self)@
            }),
            old(self)@.x < 16,
            old(self)@.y < 16,
    {
        proof {
            use_type_invariant(&*self);
        }
        let index = self.y as usize * 16 + self.x as usize;
        let color = self.color;
        self.buffer[index] = color;
    }

    /// Takes a write to a port and says what it asked for.
    pub fn write(&mut self, port: PortAddress, value: u8) -> (outcome: BitmapOutcome)
        ensures
            (final(self)@, outcome) == old(self)@.write(port, value),
            final(self)@.x < 16,
            final(self)@.y < 16,
    {
        proof {
            use_type_invariant(&*self);
        }
        match port {
            0x00 => match value {
                0x00 => BitmapOutcome::Blit,
                0x01 => {
                    self.draw_pixel();
                    BitmapOutcome::PixelDrawn
                },
                _ => BitmapOutcome::InvalidCommand,
            },
            0x01 => {
                self.x = value % 16;
                BitmapOutcome::Stored
            },
            0x02 => {
                self.y = value % 16;
                BitmapOutcome::Stored
            },
            0x03 => {
                self.color = value;
                BitmapOutcome::Stored
            },
            _ => BitmapOutcome::UnknownPort,
        }
    }

    /// The pixel at column `x` of row `y`.
    pub fn pixel(&self, x: u8, y: u8) -> (p: u8)
        requires
            x < 16,
            y < 16,
        ensures
            p == self@.buffer[y as int * 16 + x as int],
    {
        self.buffer[y as usize * 16 + x as usize]
    }

    /// The column of the cursor.
    pub fn x(&self) -> (x: u8)
        ensures
            x == self@.x,
            x < 16,
    {
        proof {
            use_type_invariant(self);
        }
        self.x
    }

    /// The row of the cursor.
    pub fn y(&self) -> (y: u8)
        ensures
            y == self@.y,
            y < 16,
    {
        proof {
            use_type_invariant(self);
        }
        self.y
    }

    /// The colour that the next pixel is drawn in.
    pub fn color(&self) -> (c: u8)
        ensures
            c == self@.color,
    {
        self.color
    }
}

/// What a write to the vector device asked for.
#[derive(Clone, Copy, Debug, PartialEq, Eq, Structural)]
pub enum VectorOutcome {
    /// Port 0, value 1: draw the rectangle.  The host does the drawing.
    Rectangle,
    /// Port 0, value 2: draw the circle.  The host does the drawing.
    Circle,
    /// One of the ports 1 to 5: a coordinate, a size or the colour was set.
    Stored,
    /// Port 0 with a value that is no command.
    InvalidCommand,
    /// A port that the device does not have.
    UnknownPort,
}

/// A device that holds the position, the size and the colour of the shape
/// that a program asks the host to draw.
#[derive(Clone, Copy, Debug, PartialEq, Eq, Structural)]
pub struct VectorDevice {
    pub x: u8,
    pub y: u8,
    pub width: u8,
    pub height: u8,
    pub color: u8,
}

impl VectorDevice {
    /// What a write makes of the device.  Port 0 takes a command: 1 draws a
    /// rectangle, 2 a circle.  The ports 1 to 5 set the column, the row,
    /// the width, the height and the colour.
    pub open spec fn after_write(self, port: PortAddress, value: u8) -> (
        VectorDevice,
        VectorOutcome,
    ) {
        if port == 0 {
            if value == 1 {
                (self, VectorOutcome::Rectangle)
            } else if value == 2 {
                (self, VectorOutcome::Circle)
            } else {
                (self, VectorOutcome::InvalidCommand)
            }
        } else if port == 1 {
            (VectorDevice { x: value, ..self }, VectorOutcome::Stored)
        } else if port == 2 {
            (VectorDevice { y: value, ..self }, VectorOutcome::Stored)
        } else if port == 3 {
            (VectorDevice { width: value, ..self }, VectorOutcome::Stored)
        } else if port == 4 {
            (VectorDevice { height: value, ..self }, VectorOutcome::Stored)
        } else if port == 5 {
            (VectorDevice { color: value, ..self }, VectorOutcome::Stored)
        } else {
            (self, VectorOutcome::UnknownPort)
        }
    }

    /// A device with every field 0.
    pub fn new() -> (device: Self)
        ensures
            device == (VectorDevice { x: 0, y: 0, width: 0, height: 0, color: 0 }),
    {
        VectorDevice { x: 0, y: 0, width: 0, height: 0, color: 0 }
    }

    /// Takes a write to a port and says what it asked for.
    pub fn write(&mut self, port: PortAddress, value: u8) -> (outcome: VectorOutcome)
        ensures
            (*final(self), outcome) == old(self).after_write(port, value),
    {
        match port {
            0x00 => match value {
                0x01 => VectorOutcome::Rectangle,
                0x02 => VectorOutcome::Circle,
                _ => VectorOutcome::InvalidCommand,
            },
            0x01 => {
                self.x = value;
                VectorOutcome::Stored
            },
            0x02 => {
                self.y = value;
                VectorOutcome::Stored
            },
            0x03 => {
                self.width = value;
                VectorOutcome::Stored
            },
            0x04 => {
                self.height = value;
                VectorOutcome::Stored
            },
            0x05 => {
                self.color = value;
                VectorOutcome::Stored
            },
            _ => VectorOutcome::UnknownPort,
        }
    }
}

} // verus!
