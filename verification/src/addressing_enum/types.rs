//! The kinds of addressing mode, sorted by what an operand of the kind can
//! give: nothing but the accumulator, a value, or an address and with it a
//! value.
use vstd::prelude::*;
use vstd::string::StringExecFns;

verus! {

/// Any addressing mode.
#[derive(Debug, Hash, PartialEq, Eq, Clone, Copy, Structural)]
pub enum AddressingMode {
    Accumulator(Accumulator),
    ValueAddressingMode(ValueAddressingMode),
}

/// The mode that works on the accumulator.
#[derive(Debug, Hash, PartialEq, Eq, Clone, Copy, Structural)]
pub struct Accumulator {}

/// The mode whose operand is the value itself.
#[derive(Debug, Hash, PartialEq, Eq, Clone, Copy, Structural)]
pub struct Immediate {}

/// A mode whose operand has a value.
#[derive(Debug, Hash, PartialEq, Eq, Clone, Copy, Structural)]
pub enum ValueAddressingMode {
    Immediate(Immediate),
    AddressAddressingMode(AddressAddressingMode),
}

/// A mode whose operand designates a place in memory.
#[derive(Debug, Hash, PartialEq, Eq, Clone, Copy, Structural)]
pub enum AddressAddressingMode {
    ZeroPage,
    ZeroPageX,
    ZeroPageY,
    Relative,
    Absolute,
    AbsoluteX,
    AbsoluteY,
    Indirect,
    IndirectX,
    IndirectY,
}

impl TryFrom<AddressingMode> for Accumulator {
    type Error = &'static str;

    fn try_from(value: AddressingMode) -> (result: Result<Self, Self::Error>)
        ensures
            result == (match value {
                AddressingMode::Accumulator(accumulator) => Ok::<Accumulator, &'static str>(
                    accumulator,
                ),
                _ => Err("Expected Accumulator variant."),
            }),
    {
        match value {
            AddressingMode::Accumulator(accumulator) => Ok(accumulator),
            _ => Err("Expected Accumulator variant."),
        }
    }
}

impl vstd::std_specs::convert::TryFromSpecImpl<AddressingMode> for Accumulator {
    open spec fn obeys_try_from_spec() -> bool {
        true
    }

    open spec fn try_from_spec(value: AddressingMode) -> Result<Self, Self::Error> {
        match value {
            AddressingMode::Accumulator(accumulator) => Ok(accumulator),
            _ => Err("Expected Accumulator variant."),
        }
    }
}

impl TryFrom<AddressingMode> for ValueAddressingMode {
    type Error = &'static str;

    fn try_from(value: AddressingMode) -> (result: Result<Self, Self::Error>)
        ensures
            result == (match value {
                AddressingMode::ValueAddressingMode(addressing_mode) => Ok::<
                    ValueAddressingMode,
                    &'static str,
                >(addressing_mode),
                _ => Err("Expected ValueAddressingMode variant."),
            }),
    {
        match value {
            AddressingMode::ValueAddressingMode(addressing_mode) => Ok(addressing_mode),
            _ => Err("Expected ValueAddressingMode variant."),
        }
    }
}

impl vstd::std_specs::convert::TryFromSpecImpl<AddressingMode> for ValueAddressingMode {
    open spec fn obeys_try_from_spec() -> bool {
        true
    }

    open spec fn try_from_spec(value: AddressingMode) -> Result<Self, Self::Error> {
        match value {
            AddressingMode::ValueAddressingMode(addressing_mode) => Ok(addressing_mode),
            _ => Err("Expected ValueAddressingMode variant."),
        }
    }
}

impl TryFrom<ValueAddressingMode> for Immediate {
    type Error = &'static str;

    fn try_from(value: ValueAddressingMode) -> (result: Result<Self, Self::Error>)
        ensures
            result == (match value {
                ValueAddressingMode::Immediate(value) => Ok::<Immediate, &'static str>(value),
                _ => Err("Expected AddressAddressingMode variant."),
            }),
    {
        match value {
            ValueAddressingMode::Immediate(value) => Ok(value),
            _ => Err("Expected AddressAddressingMode variant."),
        }
    }
}

impl vstd::std_specs::convert::TryFromSpecImpl<ValueAddressingMode> for Immediate {
    open spec fn obeys_try_from_spec() -> bool {
        true
    }

    open spec fn try_from_spec(value: ValueAddressingMode) -> Result<Self, Self::Error> {
        match value {
            ValueAddressingMode::Immediate(value) => Ok(value),
            _ => Err("Expected AddressAddressingMode variant."),
        }
    }
}

impl TryFrom<ValueAddressingMode> for AddressAddressingMode {
    type Error = &'static str;

    fn try_from(value: ValueAddressingMode) -> (result: Result<Self, Self::Error>)
        ensures
            result == (match value {
                ValueAddressingMode::AddressAddressingMode(addressing_mode) => Ok::<
                    AddressAddressingMode,
                    &'static str,
                >(addressing_mode),
                _ => Err("Expected AddressAddressingMode variant."),
            }),
    {
        match value {
            ValueAddressingMode::AddressAddressingMode(addressing_mode) => Ok(addressing_mode),
            _ => Err("Expected AddressAddressingMode variant."),
        }
    }
}

impl vstd::std_specs::convert::TryFromSpecImpl<ValueAddressingMode> for AddressAddressingMode {
    open spec fn obeys_try_from_spec() -> bool {
        true
    }

    open spec fn try_from_spec(value: ValueAddressingMode) -> Result<Self, Self::Error> {
        match value {
            ValueAddressingMode::AddressAddressingMode(addressing_mode) => Ok(addressing_mode),
            _ => Err("Expected AddressAddressingMode variant."),
        }
    }
}

impl From<ValueAddressingMode> for AddressingMode {
    fn from(value: ValueAddressingMode) -> (mode: AddressingMode)
        ensures
            mode == AddressingMode::ValueAddressingMode(value),
    {
        AddressingMode::ValueAddressingMode(value)
    }
}

impl vstd::std_specs::convert::FromSpecImpl<ValueAddressingMode> for AddressingMode {
    open spec fn obeys_from_spec() -> bool {
        true
    }

    open spec fn from_spec(value: ValueAddressingMode) -> AddressingMode {
        AddressingMode::ValueAddressingMode(value)
    }
}

impl From<Accumulator> for AddressingMode {
    fn from(value: Accumulator) -> (mode: AddressingMode)
        ensures
            mode == AddressingMode::Accumulator(value),
    {
        AddressingMode::Accumulator(value)
    }
}

impl vstd::std_specs::convert::FromSpecImpl<Accumulator> for AddressingMode {
    open spec fn obeys_from_spec() -> bool {
        true
    }

    open spec fn from_spec(value: Accumulator) -> AddressingMode {
        AddressingMode::Accumulator(value)
    }
}

/// What is said of a name that is no mode's.
pub const INVALID_TYPE: &'static str =
    "Invalid type; expected accumulator, immediate, zero_page, zero_page_x, zero_page_y, relative, \
     absolute, absolute_x, absolute_y, indirect, indirect_x or indirect_y";

/// The mode that a name stands for, if it is the name of a mode.
pub open spec fn mode_named(name: Seq<char>) -> Option<AddressingMode> {
    if name == "accumulator"@ {
        Some(AddressingMode::Accumulator(Accumulator {  }))
    } else if name == "immediate"@ {
        Some(AddressingMode::ValueAddressingMode(ValueAddressingMode::Immediate(Immediate {  })))
    } else if name == "zero_page"@ {
        Some(address_mode(AddressAddressingMode::ZeroPage))
    } else if name == "zero_page_x"@ {
        Some(address_mode(AddressAddressingMode::ZeroPageX))
    } else if name == "zero_page_y"@ {
        Some(address_mode(AddressAddressingMode::ZeroPageY))
    } else if name == "relative"@ {
        Some(address_mode(AddressAddressingMode::Relative))
    } else if name == "absolute"@ {
        Some(address_mode(AddressAddressingMode::Absolute))
    } else if name == "absolute_x"@ {
        Some(address_mode(AddressAddressingMode::AbsoluteX))
    } else if name == "absolute_y"@ {
        Some(address_mode(AddressAddressingMode::AbsoluteY))
    } else if name == "indirect"@ {
        Some(address_mode(AddressAddressingMode::Indirect))
    } else if name == "indirect_x"@ {
        Some(address_mode(AddressAddressingMode::IndirectX))
    } else if name == "indirect_y"@ {
        Some(address_mode(AddressAddressingMode::IndirectY))
    } else {
        None
    }
}

/// An address mode as a mode of the most general kind.
pub open spec fn address_mode(mode: AddressAddressingMode) -> AddressingMode {
    AddressingMode::ValueAddressingMode(ValueAddressingMode::AddressAddressingMode(mode))
}

/// An address mode as a mode of the most general kind.
fn of_address(mode: AddressAddressingMode) -> (general: AddressingMode)
    ensures
        general == address_mode(mode),
{
    AddressingMode::from(ValueAddressingMode::AddressAddressingMode(mode))
}

/// Whether `value` is exactly the text `name`.
fn is_named(value: &String, name: &str) -> (same: bool)
    ensures
        same == (value@ == name@),
{
    *value == String::from_str(name)
}

impl TryFrom<String> for AddressingMode {
    type Error = &'static str;

    /// The mode that `value` names.  Names are lower case, with an
    /// underscore before an index register: `zero_page_x`.
    fn try_from(value: String) -> (result: Result<Self, Self::Error>)
        ensures
            result == (match mode_named(value@) {
                Some(mode) => Ok::<AddressingMode, &'static str>(mode),
                None => Err(INVALID_TYPE),
            }),
    {
        if is_named(&value, "accumulator") {
            Ok(AddressingMode::Accumulator(Accumulator {  }))
        } else if is_named(&value, "immediate") {
            Ok(AddressingMode::ValueAddressingMode(ValueAddressingMode::Immediate(Immediate {  })))
        } else if is_named(&value, "zero_page") {
            Ok(of_address(AddressAddressingMode::ZeroPage))
        } else if is_named(&value, "zero_page_x") {
            Ok(of_address(AddressAddressingMode::ZeroPageX))
        } else if is_named(&value, "zero_page_y") {
            Ok(of_address(AddressAddressingMode::ZeroPageY))
        } else if is_named(&value, "relative") {
            Ok(of_address(AddressAddressingMode::Relative))
        } else if is_named(&value, "absolute") {
            Ok(of_address(AddressAddressingMode::Absolute))
        } else if is_named(&value, "absolute_x") {
            Ok(of_address(AddressAddressingMode::AbsoluteX))
        } else if is_named(&value, "absolute_y") {
            Ok(of_address(AddressAddressingMode::AbsoluteY))
        } else if is_named(&value, "indirect") {
            Ok(of_address(AddressAddressingMode::Indirect))
        } else if is_named(&value, "indirect_x") {
            Ok(of_address(AddressAddressingMode::IndirectX))
        } else if is_named(&value, "indirect_y") {
            Ok(of_address(AddressAddressingMode::IndirectY))
        } else {
            Err(INVALID_TYPE)
        }
    }
}

impl vstd::std_specs::convert::TryFromSpecImpl<String> for AddressingMode {
    open spec fn obeys_try_from_spec() -> bool {
        true
    }

    open spec fn try_from_spec(value: String) -> Result<Self, Self::Error> {
        match mode_named(value@) {
            Some(mode) => Ok(mode),
            None => Err(INVALID_TYPE),
        }
    }
}

impl Accumulator {
    /// The name of the type that describes an operand of this mode.
    pub fn identifier(self) -> (name: &'static str)
        ensures
            name@ == "Accumulator"@,
    {
        "Accumulator"
    }
}

impl Immediate {
    /// The name of the type that describes an operand of this mode.
    pub fn identifier(self) -> (name: &'static str)
        ensures
            name@ == "Immediate"@,
    {
        "Immediate"
    }
}

impl AddressAddressingMode {
    /// The name of the type that describes an operand of this mode.
    pub open spec fn identifier_spec(self) -> Seq<char> {
        match self {
            AddressAddressingMode::ZeroPage => "ZeroPage"@,
            AddressAddressingMode::ZeroPageX => "ZeroPageX"@,
            AddressAddressingMode::ZeroPageY => "ZeroPageY"@,
            AddressAddressingMode::Relative => "Relative"@,
            AddressAddressingMode::Absolute => "Absolute"@,
            AddressAddressingMode::AbsoluteX => "AbsoluteX"@,
            AddressAddressingMode::AbsoluteY => "AbsoluteY"@,
            AddressAddressingMode::Indirect => "Indirect"@,
            AddressAddressingMode::IndirectX => "IndirectX"@,
            AddressAddressingMode::IndirectY => "IndirectY"@,
        }
    }

    /// The name of the type that describes an operand of this mode.
    pub fn identifier(self) -> (name: &'static str)
        ensures
            name@ == self.identifier_spec(),
    {
        match self {
            AddressAddressingMode::ZeroPage => "ZeroPage",
            AddressAddressingMode::ZeroPageX => "ZeroPageX",
            AddressAddressingMode::ZeroPageY => "ZeroPageY",
            AddressAddressingMode::Relative => "Relative",
            AddressAddressingMode::Absolute => "Absolute",
            AddressAddressingMode::AbsoluteX => "AbsoluteX",
            AddressAddressingMode::AbsoluteY => "AbsoluteY",
            AddressAddressingMode::Indirect => "Indirect",
            AddressAddressingMode::IndirectX => "IndirectX",
            AddressAddressingMode::IndirectY => "IndirectY",
        }
    }
}

impl AddressingMode {
    /// The name of the type that describes an operand of this mode.
    pub open spec fn identifier_spec(self) -> Seq<char> {
        match self {
            AddressingMode::Accumulator(_) => "Accumulator"@,
            AddressingMode::ValueAddressingMode(ValueAddressingMode::Immediate(_)) => "Immediate"@,
            AddressingMode::ValueAddressingMode(
                ValueAddressingMode::AddressAddressingMode(mode),
            ) => mode.identifier_spec(),
        }
    }

    /// The name of the type that describes an operand of this mode.
    pub fn identifier(self) -> (name: &'static str)
        ensures
            name@ == self.identifier_spec(),
    {
        match self {
            AddressingMode::Accumulator(mode) => mode.identifier(),
            AddressingMode::ValueAddressingMode(ValueAddressingMode::Immediate(mode)) => {
                mode.identifier()
            },
            AddressingMode::ValueAddressingMode(
                ValueAddressingMode::AddressAddressingMode(mode),
            ) => mode.identifier(),
        }
    }
}

} // verus!
