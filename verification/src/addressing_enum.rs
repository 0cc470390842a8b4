//! The sets of addressing modes that instructions accept, and the types
//! that are declared for them.
//!
//! An instruction lists the modes it accepts by name.  From the list this
//! module plans the enums that describe an operand of the instruction: one
//! enum where all modes are of a kind, and up to three, nested, where the
//! list mixes the accumulator, the immediate mode and modes that designate a
//! place in memory.
pub mod parse_enum;
pub mod types;

use vstd::prelude::*;
use vstd::string::StringExecFns;
use crate::addressing_enum::parse_enum::{Enum, Variant};
use crate::addressing_enum::types::{
    mode_named, Accumulator, AddressingMode, Immediate, ValueAddressingMode,
};

verus! {

/// The place of a declared enum among the enums of one instruction.
#[derive(Debug, Clone, Copy, PartialEq, Eq, Structural)]
pub enum Role {
    /// The enum of all modes of the instruction.
    Top,
    /// The enum of the modes that have a value, apart from the accumulator.
    Value,
    /// The enum of the modes that designate a place in memory, apart from
    /// the others.
    Address,
}

/// A variant of a declared enum, by the type of the operand that it holds.
#[derive(Debug, Clone, Copy, PartialEq, Eq, Structural)]
pub enum Member {
    /// The descriptor of one addressing mode.
    Mode(AddressingMode),
    /// Another enum declared for the same instruction.
    Subset(Role),
}

/// What a declared enum can give in a processor state.
#[derive(Debug, Clone, Copy, PartialEq, Eq, Structural)]
pub enum Capability {
    /// Nothing: one of its members is the accumulator.
    Neither,
    /// The effective address of the operand, and with it the value there.
    IntoAddress,
    /// The effective value of the operand.
    IntoValue,
}

/// The mathematical model of an [`EnumDeclaration`].
pub struct Declaration {
    pub role: Role,
    pub members: Seq<Member>,
    pub capability: Capability,
}

/// An enum to declare: its place, its variants in order, and the trait that
/// is implemented for it.
#[derive(Debug)]
pub struct EnumDeclaration {
    pub role: Role,
    pub members: Vec<Member>,
    pub capability: Capability,
}

impl DeepView for EnumDeclaration {
    type V = Declaration;

    open spec fn deep_view(&self) -> Declaration {
        Declaration { role: self.role, members: self.members@, capability: self.capability }
    }
}

/// Why no enums can be planned for a variant.
#[derive(Debug, PartialEq, Eq, Structural)]
pub enum VariantError {
    /// One of the names is no addressing mode's name.
    InvalidMode,
    /// The variant lists a single mode: an enum of one mode is pointless.
    SingleMode,
}

impl Role {
    /// What the name of the enum adds to the name of the instruction.
    pub open spec fn suffix(self) -> Seq<char> {
        match self {
            Role::Top => "AddressingMode"@,
            Role::Value => "ValueAddressingMode"@,
            Role::Address => "AddressAddressingMode"@,
        }
    }

    /// The name of the enum with this role that is declared for the
    /// instruction `variant`.
    pub fn enum_name(self, variant: &str) -> (name: String)
        ensures
            name@ == variant@ + self.suffix(),
    {
        let name = String::from_str(variant);
        match self {
            Role::Top => name.concat("AddressingMode"),
            Role::Value => name.concat("ValueAddressingMode"),
            Role::Address => name.concat("AddressAddressingMode"),
        }
    }
}

impl Member {
    /// The name of the variant, which is also the name of the type of its
    /// one field.
    pub open spec fn name_spec(self, variant: Seq<char>) -> Seq<char> {
        match self {
            Member::Mode(mode) => mode.identifier_spec(),
            Member::Subset(role) => variant + role.suffix(),
        }
    }

    /// The name of the variant, which is also the name of the type of its
    /// one field, in an enum declared for the instruction `variant`.
    pub fn name(self, variant: &str) -> (name: String)
        ensures
            name@ == self.name_spec(variant@),
    {
        match self {
            Member::Mode(mode) => String::from_str(mode.identifier()),
            Member::Subset(role) => role.enum_name(variant),
        }
    }
}

/// The accumulator as a mode of the most general kind.
pub open spec fn accumulator_mode() -> AddressingMode {
    AddressingMode::Accumulator(Accumulator {  })
}

/// The immediate mode as a mode of the most general kind.
pub open spec fn immediate_mode() -> AddressingMode {
    AddressingMode::ValueAddressingMode(ValueAddressingMode::Immediate(Immediate {  }))
}

/// The modes that a list of names asks for, each once, in the order in which
/// they are first named; `None` where one of the names is no mode's.
pub open spec fn listed_modes(names: Seq<Seq<char>>) -> Option<Seq<AddressingMode>>
    decreases names.len(),
{
    if names.len() == 0 {
        Some(Seq::empty())
    } else {
        match (listed_modes(names.drop_last()), mode_named(names.last())) {
            (Some(modes), Some(mode)) => Some(
                if modes.contains(mode) {
                    modes
                } else {
                    modes.push(mode)
                },
            ),
            _ => None,
        }
    }
}

/// The modes of `modes` that designate a place in memory, in their order,
/// as members of an enum.
pub open spec fn address_members(modes: Seq<AddressingMode>) -> Seq<Member>
    decreases modes.len(),
{
    if modes.len() == 0 {
        Seq::empty()
    } else {
        let rest = address_members(modes.drop_last());
        match modes.last() {
            AddressingMode::ValueAddressingMode(
                ValueAddressingMode::AddressAddressingMode(_),
            ) => rest.push(Member::Mode(modes.last())),
            _ => rest,
        }
    }
}

/// The enums that are declared for a set of at least two modes, in the order
/// of their declaration: an enum stands after the enums that its members
/// name, and the enum of all modes stands last.
///
/// - Modes that designate a place in memory form an enum of their own,
///   unless there is only one of them.  It gives the effective address.
/// - The immediate mode and that enum, or that single mode, form an enum
///   that gives the effective value.
/// - The accumulator and what the other modes form make up an enum that
///   gives neither.
/// - An enum that is the only member of the next is left out, and the last
///   enum is always the one of all modes.
pub open spec fn declarations(modes: Seq<AddressingMode>) -> Seq<Declaration> {
    let accumulator = Member::Mode(accumulator_mode());
    let immediate = Member::Mode(immediate_mode());
    let addresses = address_members(modes);
    let address_enum = Declaration {
        role: Role::Address,
        members: addresses,
        capability: Capability::IntoAddress,
    };
    if modes.len() < 2 {
        Seq::empty()
    } else if modes.contains(accumulator_mode()) {
        if modes.contains(immediate_mode()) {
            if addresses.len() == 0 {
                seq![
                    Declaration {
                        role: Role::Top,
                        members: seq![accumulator, immediate],
                        capability: Capability::Neither,
                    },
                ]
            } else if addresses.len() == 1 {
                seq![
                    Declaration {
                        role: Role::Value,
                        members: seq![immediate, addresses[0]],
                        capability: Capability::IntoValue,
                    },
                    Declaration {
                        role: Role::Top,
                        members: seq![accumulator, Member::Subset(Role::Value)],
                        capability: Capability::Neither,
                    },
                ]
            } else {
                seq![
                    address_enum,
                    Declaration {
                        role: Role::Value,
                        members: seq![immediate, Member::Subset(Role::Address)],
                        capability: Capability::IntoValue,
                    },
                    Declaration {
                        role: Role::Top,
                        members: seq![accumulator, Member::Subset(Role::Value)],
                        capability: Capability::Neither,
                    },
                ]
            }
        } else if addresses.len() == 1 {
            seq![
                Declaration {
                    role: Role::Top,
                    members: seq![accumulator, addresses[0]],
                    capability: Capability::Neither,
                },
            ]
        } else {
            seq![
                address_enum,
                Declaration {
                    role: Role::Top,
                    members: seq![accumulator, Member::Subset(Role::Address)],
                    capability: Capability::Neither,
                },
            ]
        }
    } else if modes.contains(immediate_mode()) {
        if addresses.len() == 1 {
            seq![
                Declaration {
                    role: Role::Top,
                    members: seq![immediate, addresses[0]],
                    capability: Capability::IntoValue,
                },
            ]
        } else {
            seq![
                address_enum,
                Declaration {
                    role: Role::Top,
                    members: seq![immediate, Member::Subset(Role::Address)],
                    capability: Capability::IntoValue,
                },
            ]
        }
    } else {
        seq![
            Declaration {
                role: Role::Top,
                members: addresses,
                capability: Capability::IntoAddress,
            },
        ]
    }
}

/// The enums that are declared for a variant with the given list of mode
/// names.  A variant without modes gets none.
pub open spec fn parse_variant_spec(names: Seq<Seq<char>>) -> Result<
    Seq<Declaration>,
    VariantError,
> {
    match listed_modes(names) {
        None => Err(VariantError::InvalidMode),
        Some(modes) => if modes.len() == 1 {
            Err(VariantError::SingleMode)
        } else {
            Ok(declarations(modes))
        },
    }
}

/// The modes that a list of names asks for are pairwise different.
pub proof fn lemma_listed_modes_are_distinct(names: Seq<Seq<char>>)
    ensures
        listed_modes(names) matches Some(modes) ==> modes.no_duplicates(),
    decreases names.len(),
{
    if names.len() > 0 {
        lemma_listed_modes_are_distinct(names.drop_last());
    }
}

/// Every mode is of exactly one kind: among modes that are pairwise
/// different, those that designate a place in memory are all but the
/// accumulator and the immediate mode.
pub proof fn lemma_modes_by_kind(modes: Seq<AddressingMode>)
    requires
        modes.no_duplicates(),
    ensures
        address_members(modes).len() + (if modes.contains(accumulator_mode()) {
            1int
        } else {
            0int
        }) + (if modes.contains(immediate_mode()) {
            1int
        } else {
            0int
        }) == modes.len(),
    decreases modes.len(),
{
    if modes.len() > 0 {
        let rest = modes.drop_last();
        let last = modes.last();
        lemma_modes_by_kind(rest);
        assert forall|mode: AddressingMode|
            modes.contains(mode) <==> rest.contains(mode) || mode == last by {
            if rest.contains(mode) {
                let j = rest.index_of(mode);
                assert(modes[j] == mode);
            }
            if modes.contains(mode) && mode != last {
                let j = modes.index_of(mode);
                assert(rest[j] == mode);
            }
        }
    }
}

/// Whether an operand that the enum `role` describes can be of the mode
/// `mode`: whether the mode is a member of the enum, or of an enum that is a
/// member of it, through at most `depth` enums.
pub open spec fn accepts(
    declared: Seq<Declaration>,
    role: Role,
    mode: AddressingMode,
    depth: nat,
) -> bool
    decreases depth,
{
    depth > 0 && exists|i: int, k: int|
        #![trigger declared[i].members[k]]
        0 <= i < declared.len() && declared[i].role == role && 0 <= k
            < declared[i].members.len() && match declared[i].members[k] {
            Member::Mode(member) => member == mode,
            Member::Subset(inner) => accepts(declared, inner, mode, (depth - 1) as nat),
        }
}

/// The members for address modes are those modes of the list that
/// designate a place in memory, and nothing else.
pub proof fn lemma_address_members(modes: Seq<AddressingMode>)
    ensures
        forall|k: int|
            0 <= k < address_members(modes).len() ==> (#[trigger] address_members(modes)[k]
                matches Member::Mode(mode) && mode is ValueAddressingMode
                && mode->ValueAddressingMode_0 is AddressAddressingMode && modes.contains(mode)),
        forall|j: int|
            0 <= j < modes.len() && (#[trigger] modes[j]) is ValueAddressingMode
                && modes[j]->ValueAddressingMode_0 is AddressAddressingMode ==> address_members(
                modes,
            ).contains(Member::Mode(modes[j])),
    decreases modes.len(),
{
    if modes.len() > 0 {
        let rest = modes.drop_last();
        let last = modes.last();
        lemma_address_members(rest);
        let members = address_members(modes);
        let inner = address_members(rest);
        assert forall|k: int| 0 <= k < members.len() implies (#[trigger] members[k]
            matches Member::Mode(mode) && mode is ValueAddressingMode
            && mode->ValueAddressingMode_0 is AddressAddressingMode && modes.contains(mode)) by {
            if k < inner.len() {
                let j = rest.index_of(inner[k]->Mode_0);
                assert(modes[j] == rest[j]);
            }
        }
        assert forall|j: int|
            0 <= j < modes.len() && (#[trigger] modes[j]) is ValueAddressingMode
                && modes[j]->ValueAddressingMode_0 is AddressAddressingMode implies members.contains(
            Member::Mode(modes[j]),
        ) by {
            if j < rest.len() {
                assert(rest[j] == modes[j]);
                let k = inner.index_of(Member::Mode(modes[j]));
                assert(members[k] == Member::Mode(modes[j]));
            } else {
                assert(members[members.len() - 1] == Member::Mode(last));
            }
        }
    }
}

/// The enums planned for a list of modes accept, between them, the modes of
/// the list and no other: an operand that the enum of all modes describes is
/// of one of the listed modes, and every listed mode can be written down.
pub proof fn lemma_declarations_accept_the_listed_modes(
    modes: Seq<AddressingMode>,
    mode: AddressingMode,
)
    requires
        modes.no_duplicates(),
        modes.len() >= 2,
    ensures
        accepts(declarations(modes), Role::Top, mode, 3) <==> modes.contains(mode),
{
    let declared = declarations(modes);
    let addresses = address_members(modes);
    let with_accumulator = modes.contains(accumulator_mode());
    let with_immediate = modes.contains(immediate_mode());
    lemma_modes_by_kind(modes);
    lemma_address_members(modes);
    reveal_with_fuel(accepts, 4);
    if modes.contains(mode) {
        // Every listed mode has a member, in the enum of all modes or in
        // one that it holds.
        match mode {
            AddressingMode::Accumulator(_) => {
                assert(declared.last().members[0] == Member::Mode(mode));
            },
            AddressingMode::ValueAddressingMode(ValueAddressingMode::Immediate(_)) => {
                if with_accumulator && addresses.len() >= 1 {
                    let value = declared.len() - 2;
                    assert(declared[value].members[0] == Member::Mode(mode));
                    assert(accepts(declared, Role::Value, mode, 2));
                    assert(declared.last().members[1] == Member::Subset(Role::Value));
                } else if with_accumulator {
                    assert(declared.last().members[1] == Member::Mode(mode));
                } else {
                    assert(declared.last().members[0] == Member::Mode(mode));
                }
            },
            AddressingMode::ValueAddressingMode(
                ValueAddressingMode::AddressAddressingMode(_),
            ) => {
                let k = addresses.index_of(Member::Mode(mode));
                if addresses.len() == 1 && with_accumulator && with_immediate {
                    assert(declared[0].members[1] == Member::Mode(mode));
                    assert(accepts(declared, Role::Value, mode, 2));
                    assert(declared.last().members[1] == Member::Subset(Role::Value));
                } else if addresses.len() == 1 {
                    assert(declared.last().members[1] == Member::Mode(mode));
                } else if !with_accumulator && !with_immediate {
                    assert(declared.last().members[k] == Member::Mode(mode));
                } else {
                    assert(declared[0].members[k] == Member::Mode(mode));
                    assert(accepts(declared, Role::Address, mode, 1));
                    assert(accepts(declared, Role::Address, mode, 2));
                    if with_accumulator && with_immediate {
                        assert(declared[1].members[1] == Member::Subset(Role::Address));
                        assert(accepts(declared, Role::Value, mode, 2));
                        assert(declared.last().members[1] == Member::Subset(Role::Value));
                    } else {
                        assert(declared.last().members[1] == Member::Subset(Role::Address));
                    }
                }
            },
        }
    }
}

/// Whether an enum with the capability `outer` can hold a member with the
/// capability `inner`: what the enum gives, each member must give.  A place
/// in memory gives an address and, through it, a value.
pub open spec fn suits(inner: Capability, outer: Capability) -> bool {
    match outer {
        Capability::Neither => true,
        Capability::IntoValue => inner != Capability::Neither,
        Capability::IntoAddress => inner == Capability::IntoAddress,
    }
}

/// What an operand of a single mode gives.
pub open spec fn capability_of(mode: AddressingMode) -> Capability {
    match mode {
        AddressingMode::Accumulator(_) => Capability::Neither,
        AddressingMode::ValueAddressingMode(ValueAddressingMode::Immediate(_)) => {
            Capability::IntoValue
        },
        AddressingMode::ValueAddressingMode(ValueAddressingMode::AddressAddressingMode(_)) => {
            Capability::IntoAddress
        },
    }
}

/// Modes that are pairwise different give members that are pairwise
/// different.
pub proof fn lemma_address_members_are_distinct(modes: Seq<AddressingMode>)
    requires
        modes.no_duplicates(),
    ensures
        address_members(modes).no_duplicates(),
    decreases modes.len(),
{
    if modes.len() > 0 {
        let rest = modes.drop_last();
        lemma_address_members_are_distinct(rest);
        lemma_address_members(rest);
        let inner = address_members(rest);
        assert forall|k: int| 0 <= k < inner.len() implies inner[k] != Member::Mode(
            modes.last(),
        ) by {
            let j = rest.index_of(inner[k]->Mode_0);
            assert(modes[j] == rest[j]);
        }
    }
}

/// The enums planned for a list of modes can be declared as they stand.
///
/// There are one to three of them, each in a role of its own, and the last
/// is the enum of all modes.  Each has at least two members, all different.
/// A member that is an enum names one that is declared before it.  And each
/// member gives what its enum is said to give, so that the enum can hand the
/// request on to whichever member it holds.
pub proof fn lemma_declarations_are_well_formed(modes: Seq<AddressingMode>)
    requires
        modes.no_duplicates(),
        modes.len() >= 2,
    ensures
        ({
            let declared = declarations(modes);
            &&& 1 <= declared.len() <= 3
            &&& declared.last().role == Role::Top
            &&& forall|i: int, j: int|
                0 <= i < j < declared.len() ==> (#[trigger] declared[i]).role
                    != (#[trigger] declared[j]).role
            &&& forall|i: int|
                0 <= i < declared.len() ==> (#[trigger] declared[i]).members.len() >= 2
                    && declared[i].members.no_duplicates()
            &&& forall|i: int, k: int|
                0 <= i < declared.len() && 0 <= k < declared[i].members.len() ==> match
                    #[trigger] declared[i].members[k] {
                    Member::Mode(mode) => suits(capability_of(mode), declared[i].capability),
                    Member::Subset(role) => exists|j: int|
                        0 <= j < i && (#[trigger] declared[j]).role == role && suits(
                            declared[j].capability,
                            declared[i].capability,
                        ),
                }
        }),
{
    let declared = declarations(modes);
    let addresses = address_members(modes);
    lemma_modes_by_kind(modes);
    lemma_address_members(modes);
    lemma_address_members_are_distinct(modes);
    assert forall|i: int, k: int|
        0 <= i < declared.len() && 0 <= k < declared[i].members.len() implies match
        #[trigger] declared[i].members[k] {
        Member::Mode(mode) => suits(capability_of(mode), declared[i].capability),
        Member::Subset(role) => exists|j: int|
            0 <= j < i && (#[trigger] declared[j]).role == role && suits(
                declared[j].capability,
                declared[i].capability,
            ),
    } by {
        // A member is the accumulator, the immediate mode, an enum declared
        // just before, or one of the address members.
        if declared[i].members == addresses {
            assert(addresses[k] is Mode);
        } else if addresses.len() == 1 {
            assert(addresses[0] is Mode);
        }
        if declared[i].members[k] is Subset {
            assert(declared[i - 1].role == declared[i].members[k]->Subset_0);
        }
    }
    assert forall|i: int| 0 <= i < declared.len() implies (#[trigger] declared[i]).members.len()
        >= 2 && declared[i].members.no_duplicates() by {
        if addresses.len() >= 1 {
            assert(addresses[0] is Mode);
        }
    }
}

/// Whether `mode` is one of `modes`.
fn contains_mode(modes: &Vec<AddressingMode>, mode: AddressingMode) -> (found: bool)
    ensures
        found == modes@.contains(mode),
{
    let mut i: usize = 0;
    while i < modes.len()
        invariant
            i <= modes.len(),
            forall|j: int| 0 <= j < i ==> modes@[j] != mode,
        decreases modes.len() - i,
    {
        if modes[i] == mode {
            return true;
        }
        i += 1;
    }
    false
}

/// The modes that the names ask for, each once, in the order in which they
/// are first named.
fn collect_modes(names: &Vec<String>) -> (result: Option<Vec<AddressingMode>>)
    ensures
        match listed_modes(names.deep_view()) {
            Some(modes) => result matches Some(collected) && collected@ == modes,
            None => result is None,
        },
{
    let mut modes: Vec<AddressingMode> = Vec::new();
    let mut i: usize = 0;
    while i < names.len()
        invariant
            i <= names.len(),
            listed_modes(names.deep_view().take(i as int)) == Some(modes@),
        decreases names.len() - i,
    {
        let ghost prefix = names.deep_view().take(i as int + 1);
        assert(prefix.drop_last() =~= names.deep_view().take(i as int));
        match AddressingMode::try_from(names[i].clone()) {
            Ok(mode) => {
                if !contains_mode(&modes, mode) {
                    modes.push(mode);
                }
            },
            Err(_) => {
                proof {
                    lemma_unknown_name_spoils_the_list(names.deep_view(), i as int + 1);
                }
                return None;
            },
        }
        i += 1;
    }
    assert(names.deep_view().take(i as int) =~= names.deep_view());
    Some(modes)
}

/// Once a prefix of a list of names holds a name that is no mode's, no
/// longer prefix of the list, and not the list itself, yields modes.
proof fn lemma_unknown_name_spoils_the_list(names: Seq<Seq<char>>, len: int)
    requires
        0 <= len <= names.len(),
        listed_modes(names.take(len)) is None,
    ensures
        listed_modes(names) is None,
    decreases names.len() - len,
{
    if len < names.len() {
        assert(names.take(len + 1).drop_last() =~= names.take(len));
        lemma_unknown_name_spoils_the_list(names, len + 1);
    } else {
        assert(names.take(len) =~= names);
    }
}

/// Sorts `modes` by kind: whether the accumulator is among them, whether
/// the immediate mode is, and the members for those that designate a place
/// in memory.
fn sort_modes(modes: &Vec<AddressingMode>) -> (sorted: (bool, bool, Vec<Member>))
    ensures
        sorted.0 == modes@.contains(accumulator_mode()),
        sorted.1 == modes@.contains(immediate_mode()),
        sorted.2@ == address_members(modes@),
{
    let mut accumulator = false;
    let mut immediate = false;
    let mut addresses: Vec<Member> = Vec::new();
    let mut i: usize = 0;
    while i < modes.len()
        invariant
            i <= modes.len(),
            accumulator == modes@.take(i as int).contains(accumulator_mode()),
            immediate == modes@.take(i as int).contains(immediate_mode()),
            addresses@ == address_members(modes@.take(i as int)),
        decreases modes.len() - i,
    {
        let ghost before = modes@.take(i as int);
        let ghost after = modes@.take(i as int + 1);
        assert(after.drop_last() =~= before);
        assert forall|mode: AddressingMode|
            after.contains(mode) <==> before.contains(mode) || mode == modes@[i as int] by {
            if before.contains(mode) {
                let j = before.index_of(mode);
                assert(after[j] == mode);
            }
            assert(after[i as int] == modes@[i as int]);
        }
        match modes[i] {
            AddressingMode::Accumulator(_) => {
                accumulator = true;
            },
            AddressingMode::ValueAddressingMode(ValueAddressingMode::Immediate(_)) => {
                immediate = true;
            },
            AddressingMode::ValueAddressingMode(
                ValueAddressingMode::AddressAddressingMode(_),
            ) => {
                addresses.push(Member::Mode(modes[i]));
            },
        }
        i += 1;
    }
    assert(modes@.take(i as int) =~= modes@);
    (accumulator, immediate, addresses)
}

/// Plans the enums that describe an operand of the instruction `input`.
///
/// Returns the enums in the order in which they are to be declared, none
/// where the variant lists no mode.  Fails where a name is no mode's, and
/// where the variant lists one mode only.
pub fn parse_variant(input: &Variant) -> (result: Result<Vec<EnumDeclaration>, VariantError>)
    ensures
        match parse_variant_spec(input.names()) {
            Ok(planned) => result matches Ok(declared) && declared.deep_view() == planned,
            Err(error) => result == Err::<Vec<EnumDeclaration>, VariantError>(error),
        },
{
    let modes = match collect_modes(&input.modes) {
        Some(modes) => modes,
        None => {
            return Err(VariantError::InvalidMode);
        },
    };
    if modes.len() == 1 {
        return Err(VariantError::SingleMode);
    } else if modes.len() == 0 {
        let none: Vec<EnumDeclaration> = Vec::new();
        assert(none.deep_view() =~= declarations(modes@));
        return Ok(none);
    }
    let (has_accumulator, has_immediate, addresses) = sort_modes(&modes);
    proof {
        lemma_listed_modes_are_distinct(input.names());
        lemma_modes_by_kind(modes@);
    }
    let accumulator = Member::Mode(AddressingMode::Accumulator(Accumulator {  }));
    let immediate = Member::Mode(
        AddressingMode::ValueAddressingMode(ValueAddressingMode::Immediate(Immediate {  })),
    );

    // The enums are built from the innermost outwards.  `inner` is what
    // stands, in the enum that is built next, for the modes dealt with so
    // far.
    let mut declared: Vec<EnumDeclaration> = Vec::new();
    let mut inner: Option<Member> = None;
    if addresses.len() == 1 {
        inner = Some(addresses[0]);
    } else if addresses.len() >= 2 {
        let role = if has_accumulator || has_immediate {
            Role::Address
        } else {
            Role::Top
        };
        declared.push(
            EnumDeclaration { role, members: addresses, capability: Capability::IntoAddress },
        );
        inner = Some(Member::Subset(Role::Address));
    }
    if has_immediate {
        match inner {
            Some(member) => {
                let role = if has_accumulator {
                    Role::Value
                } else {
                    Role::Top
                };
                declared.push(
                    EnumDeclaration {
                        role,
                        members: vec![immediate, member],
                        capability: Capability::IntoValue,
                    },
                );
                inner = Some(Member::Subset(Role::Value));
            },
            None => {
                inner = Some(immediate);
            },
        }
    }
    if has_accumulator {
        if let Some(member) = inner {
            declared.push(
                EnumDeclaration {
                    role: Role::Top,
                    members: vec![accumulator, member],
                    capability: Capability::Neither,
                },
            );
        }
    }
    assert(declared.deep_view() =~= declarations(modes@));
    Ok(declared)
}

/// The enums that are declared for the variants of an enum, variant by
/// variant.  Where variants cannot be planned, the error is that of the
/// first of them.
pub open spec fn derive_spec(variants: Seq<Seq<Seq<char>>>) -> Result<
    Seq<Seq<Declaration>>,
    VariantError,
>
    decreases variants.len(),
{
    if variants.len() == 0 {
        Ok(Seq::empty())
    } else {
        match derive_spec(variants.drop_last()) {
            Ok(planned) => match parse_variant_spec(variants.last()) {
                Ok(declared) => Ok(planned.push(declared)),
                Err(error) => Err(error),
            },
            Err(error) => Err(error),
        }
    }
}

/// Once the variants up to some point cannot be planned, the whole enum
/// cannot, and for the same reason.
proof fn lemma_first_error_stands(variants: Seq<Seq<Seq<char>>>, len: int)
    requires
        0 <= len <= variants.len(),
        derive_spec(variants.take(len)) is Err,
    ensures
        derive_spec(variants) == derive_spec(variants.take(len)),
    decreases variants.len() - len,
{
    if len < variants.len() {
        assert(variants.take(len + 1).drop_last() =~= variants.take(len));
        lemma_first_error_stands(variants, len + 1);
    } else {
        assert(variants.take(len) =~= variants);
    }
}

/// Plans the enums for every variant of `input`.
///
/// Returns one list of enums for each variant, in the order of the
/// variants, or the error of the first variant that cannot be planned.
pub fn derive(input: &Enum) -> (result: Result<Vec<Vec<EnumDeclaration>>, VariantError>)
    ensures
        match derive_spec(input.names()) {
            Ok(planned) => result matches Ok(declared) && declared.deep_view() == planned,
            Err(error) => result == Err::<Vec<Vec<EnumDeclaration>>, VariantError>(error),
        },
{
    let mut enums: Vec<Vec<EnumDeclaration>> = Vec::new();
    let mut i: usize = 0;
    assert(enums.deep_view() =~= Seq::empty());
    while i < input.variants.len()
        invariant
            i <= input.variants.len(),
            derive_spec(input.names().take(i as int)) == Ok::<
                Seq<Seq<Declaration>>,
                VariantError,
            >(enums.deep_view()),
        decreases input.variants.len() - i,
    {
        let ghost prefix = input.names().take(i as int + 1);
        assert(prefix.drop_last() =~= input.names().take(i as int));
        let ghost before = enums.deep_view();
        match parse_variant(&input.variants[i]) {
            Ok(declared) => {
                let ghost planned = declared.deep_view();
                enums.push(declared);
                assert(enums.deep_view() =~= before.push(planned));
            },
            Err(error) => {
                proof {
                    lemma_first_error_stands(input.names(), i as int + 1);
                }
                return Err(error);
            },
        }
        i += 1;
    }
    assert(input.names().take(i as int) =~= input.names());
    Ok(enums)
}

} // verus!
