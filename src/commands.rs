//! Encoders for the device's configuration and haptic commands.
use vstd::prelude::*;

verus! {

/// Which kind of input the device reports.
#[derive(Debug, Clone, Copy, PartialEq, Eq, Structural)]
pub enum InputType {
    Mouse,
    Keyboard,
    Auto,
}

/// How the device interprets taps.
#[derive(Debug, Clone, Copy, PartialEq, Eq, Structural)]
pub enum InputMode {
    Text,
    Controller,
    ControllerText,
    Raw,
}

/// Sources of pointer movement.
#[derive(Debug, Clone, Copy, PartialEq, Eq, Structural)]
pub enum MouseModes {
    Stdby,
    AirMouse,
    OpticalOne,
    OpticalTwo,
}

/// Most vibration segments a single command carries.
pub const MAX_VIBRATION_SEGMENTS: usize = 18;

/// Most sensitivity bytes a raw-mode command carries.
pub const MAX_SENSITIVITY_BYTES: usize = 3;

/// The byte sequence an optional vector holds.
pub open spec fn opt_bytes(o: Option<Vec<u8>>) -> Option<Seq<u8>> {
    match o {
        Some(v) => Some(v@),
        None => None,
    }
}

pub open spec fn min_int(a: int, b: int) -> int {
    if a < b {
        a
    } else {
        b
    }
}

impl InputType {
    pub open spec fn opcode(self) -> u8 {
        match self {
            InputType::Mouse => 0x01,
            InputType::Keyboard => 0x02,
            InputType::Auto => 0x03,
        }
    }

    pub open spec fn spec_command(self) -> Seq<u8> {
        seq![0x03u8, 0x0du8, 0x00u8, self.opcode()]
    }

    /// `03 0d 00` followed by the type's opcode.
    pub fn to_command(&self) -> (r: Vec<u8>)
        ensures
            r@ == self.spec_command(),
    {
        let r = match self {
            InputType::Mouse => vec![0x03u8, 0x0d, 0x00, 0x01],
            InputType::Keyboard => vec![0x03u8, 0x0d, 0x00, 0x02],
            InputType::Auto => vec![0x03u8, 0x0d, 0x00, 0x03],
        };
        assert(r@ =~= self.spec_command());
        r
    }
}

impl InputMode {
    pub open spec fn opcode(self) -> u8 {
        match self {
            InputMode::Text => 0x00,
            InputMode::Controller => 0x01,
            InputMode::ControllerText => 0x03,
            InputMode::Raw => 0x0a,
        }
    }

    /// The sensitivity bytes a command for this mode carries: the first
    /// three of `sensitivity` in raw mode, none otherwise.
    pub open spec fn carried_sensitivity(self, sensitivity: Option<Seq<u8>>) -> Seq<u8> {
        match sensitivity {
            Some(s) => if self == InputMode::Raw {
                s.subrange(0, min_int(MAX_SENSITIVITY_BYTES as int, s.len() as int))
            } else {
                seq![]
            },
            None => seq![],
        }
    }

    pub open spec fn spec_command(self, sensitivity: Option<Seq<u8>>) -> Seq<u8> {
        seq![0x03u8, 0x0cu8, 0x00u8, self.opcode()] + self.carried_sensitivity(sensitivity)
    }

    /// The mode whose opcode is `b`.
    pub open spec fn from_opcode(b: u8) -> Option<InputMode> {
        if b == 0x00 {
            Some(InputMode::Text)
        } else if b == 0x01 {
            Some(InputMode::Controller)
        } else if b == 0x03 {
            Some(InputMode::ControllerText)
        } else if b == 0x0a {
            Some(InputMode::Raw)
        } else {
            None
        }
    }

    /// What a set-input-mode command says: its mode and sensitivity bytes.
    pub open spec fn spec_parse(bytes: Seq<u8>) -> Option<(InputMode, Seq<u8>)> {
        if bytes.len() >= 4 && bytes[0] == 0x03 && bytes[1] == 0x0c && bytes[2] == 0x00 {
            match Self::from_opcode(bytes[3]) {
                Some(m) => if bytes.len() == 4 || (m == InputMode::Raw && bytes.len() <= 7) {
                    Some((m, bytes.subrange(4, bytes.len() as int)))
                } else {
                    None
                },
                None => None,
            }
        } else {
            None
        }
    }

    /// `03 0c 00` and the mode's opcode, then in raw mode up to three
    /// sensitivity bytes; further bytes are dropped.
    pub fn to_command(&self, sensitivity: Option<Vec<u8>>) -> (r: Vec<u8>)
        ensures
            r@ == self.spec_command(opt_bytes(sensitivity)),
    {
        let mut command = match self {
            InputMode::Text => vec![0x03u8, 0x0c, 0x00, 0x00],
            InputMode::Controller => vec![0x03u8, 0x0c, 0x00, 0x01],
            InputMode::ControllerText => vec![0x03u8, 0x0c, 0x00, 0x03],
            InputMode::Raw => vec![0x03u8, 0x0c, 0x00, 0x0a],
        };
        let ghost head = command@;
        assert(head =~= seq![0x03u8, 0x0cu8, 0x00u8, self.opcode()]);
        let ghost sens = opt_bytes(sensitivity);
        if let InputMode::Raw = self {
            if let Some(sens) = sensitivity {
                let n: usize = if sens.len() < MAX_SENSITIVITY_BYTES {
                    sens.len()
                } else {
                    MAX_SENSITIVITY_BYTES
                };
                let mut i: usize = 0;
                while i < n
                    invariant
                        n <= sens@.len(),
                        i <= n,
                        command@ == head + sens@.subrange(0, i as int),
                    decreases n - i,
                {
                    command.push(sens[i]);
                    assert(command@ =~= head + sens@.subrange(0, i + 1));
                    i = i + 1;
                }
            }
        }
        assert(command@ =~= self.spec_command(sens));
        command
    }

    /// Reads a set-input-mode command back: its mode and sensitivity bytes,
    /// or `None` for bytes that no such command has.
    pub fn from_command(bytes: &Vec<u8>) -> (r: Option<(InputMode, Vec<u8>)>)
        ensures
            match (r, Self::spec_parse(bytes@)) {
                (Some((m, s)), Some((pm, ps))) => m == pm && s@ == ps,
                (None, None) => true,
                _ => false,
            },
    {
        if bytes.len() < 4 || bytes[0] != 0x03 || bytes[1] != 0x0c || bytes[2] != 0x00 {
            return None;
        }
        let mode = if bytes[3] == 0x00 {
            InputMode::Text
        } else if bytes[3] == 0x01 {
            InputMode::Controller
        } else if bytes[3] == 0x03 {
            InputMode::ControllerText
        } else if bytes[3] == 0x0a {
            InputMode::Raw
        } else {
            return None;
        };
        let is_raw = match mode {
            InputMode::Raw => true,
            _ => false,
        };
        if bytes.len() != 4 && !(is_raw && bytes.len() <= 7) {
            return None;
        }
        let mut rest: Vec<u8> = Vec::new();
        let mut i: usize = 4;
        while i < bytes.len()
            invariant
                4 <= i <= bytes@.len(),
                rest@ == bytes@.subrange(4, i as int),
            decreases bytes@.len() - i,
        {
            rest.push(bytes[i]);
            assert(rest@ =~= bytes@.subrange(4, i + 1));
            i = i + 1;
        }
        Some((mode, rest))
    }
}

impl MouseModes {
    pub open spec fn spec_uid(self) -> u8 {
        match self {
            MouseModes::Stdby => 0,
            MouseModes::AirMouse => 1,
            MouseModes::OpticalOne => 2,
            MouseModes::OpticalTwo => 3,
        }
    }

    pub open spec fn spec_command(self) -> Seq<u8> {
        seq![0x03u8, 0x0eu8, 0x00u8, self.spec_uid()]
    }

    /// The mode's ordinal.
    pub fn to_uid(&self) -> (r: u8)
        ensures
            r == self.spec_uid(),
    {
        match self {
            MouseModes::Stdby => 0,
            MouseModes::AirMouse => 1,
            MouseModes::OpticalOne => 2,
            MouseModes::OpticalTwo => 3,
        }
    }

    /// `03 0e 00` followed by the mode's ordinal.
    pub fn to_command(&self) -> (r: Vec<u8>)
        ensures
            r@ == self.spec_command(),
    {
        let r = vec![0x03u8, 0x0e, 0x00, self.to_uid()];
        assert(r@ =~= self.spec_command());
        r
    }
}

/// One vibration segment on the wire: tens of milliseconds, at most 255.
pub open spec fn vibration_byte(duration: u16) -> u8 {
    if duration / 10 > 255 {
        255
    } else {
        (duration / 10) as u8
    }
}

pub open spec fn spec_vibration_command(sequence: Seq<u16>) -> Seq<u8> {
    seq![0x00u8, 0x02u8] + sequence.subrange(
        0,
        min_int(MAX_VIBRATION_SEGMENTS as int, sequence.len() as int),
    ).map_values(|d: u16| vibration_byte(d))
}

/// `00 02` followed by one byte per segment for the first eighteen
/// segments of `sequence`; later segments are dropped.
pub fn vibration_command(sequence: &Vec<u16>) -> (r: Vec<u8>)
    ensures
        r@ == spec_vibration_command(sequence@),
        r@.len() == 2 + min_int(MAX_VIBRATION_SEGMENTS as int, sequence@.len() as int),
        forall|i: int|
            0 <= i < r@.len() - 2 ==> r@[i + 2] == vibration_byte(#[trigger] sequence@[i]),
{
    let mut command = vec![0x00u8, 0x02];
    let n: usize = if sequence.len() < MAX_VIBRATION_SEGMENTS {
        sequence.len()
    } else {
        MAX_VIBRATION_SEGMENTS
    };
    let mut i: usize = 0;
    while i < n
        invariant
            n <= sequence@.len(),
            n == min_int(MAX_VIBRATION_SEGMENTS as int, sequence@.len() as int),
            i <= n,
            command@ == seq![0x00u8, 0x02u8] + sequence@.subrange(0, i as int).map_values(
                |d: u16| vibration_byte(d),
            ),
        decreases n - i,
    {
        let tens = sequence[i] / 10;
        let value: u8 = if tens > 255 {
            255
        } else {
            tens as u8
        };
        command.push(value);
        assert(command@ =~= seq![0x00u8, 0x02u8] + sequence@.subrange(0, i + 1).map_values(
            |d: u16| vibration_byte(d),
        ));
        i = i + 1;
    }
    command
}

/// Reading a set-input-mode command back gives its mode and, in raw mode,
/// the first three sensitivity bytes it was given.
pub proof fn lemma_input_mode_round_trip(mode: InputMode, sensitivity: Option<Seq<u8>>)
    ensures
        InputMode::spec_parse(mode.spec_command(sensitivity)) == Some(
            (mode, mode.carried_sensitivity(sensitivity)),
        ),
{
    let c = mode.spec_command(sensitivity);
    assert(c.subrange(4, c.len() as int) =~= mode.carried_sensitivity(sensitivity));
}

} // verus!
