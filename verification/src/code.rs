//! The syscall code space: the closed set of 32-bit identifiers that a guest
//! program may place in the trap register, and the byte layout they share.
//!
//! From the most to the least significant byte a code holds a category
//! (0 for ordinary operations, 1 for the halt class), a cost class (the
//! number of extra cycles the operation is budgeted), a family id and a
//! variant id.
use vstd::prelude::*;

verus! {

/// A system call is requested by the trap instruction with one of these
/// codes in the trap register.
#[derive(Debug, Copy, Clone, PartialEq, Eq, Hash, Structural)]
#[allow(non_camel_case_types)]
pub enum SyscallCode {
    /// Halts the program.
    HALT,
    /// Loads a word supplied by the prover.
    LWA,
    /// Writes to the output buffer.
    WRITE,
    /// Enters an unconstrained block.
    ENTER_UNCONSTRAINED,
    /// Exits an unconstrained block.
    EXIT_UNCONSTRAINED,
    /// Executes the `SHA_EXTEND` precompile.
    SHA_EXTEND,
    /// Executes the `SHA_COMPRESS` precompile.
    SHA_COMPRESS,
    /// Executes the `ED_ADD` precompile.
    ED_ADD,
    /// Executes the `ED_DECOMPRESS` precompile.
    ED_DECOMPRESS,
    /// Executes the `KECCAK_PERMUTE` precompile.
    KECCAK_PERMUTE,
    /// Executes the `SECP256K1_ADD` precompile.
    SECP256K1_ADD,
    /// Executes the `SECP256K1_DOUBLE` precompile.
    SECP256K1_DOUBLE,
    /// Executes the `SECP256K1_DECOMPRESS` precompile.
    SECP256K1_DECOMPRESS,
    /// Executes the `BLAKE3_COMPRESS_INNER` precompile.
    BLAKE3_COMPRESS_INNER,
}

/// The number of codes in the code space.
pub const NUM_SYSCALL_CODES: usize = 14;

/// The cost-class byte of a raw code: bits 16 to 23.
pub open spec fn cost_class_of(raw: u32) -> u32 {
    ((raw as int / 0x1_0000) % 0x100) as u32
}

/// The category byte of a raw code: bits 24 to 31.
pub open spec fn category_of(raw: u32) -> u32 {
    (raw as int / 0x100_0000) as u32
}

/// The family byte of a raw code: bits 8 to 15.
pub open spec fn family_of(raw: u32) -> u32 {
    ((raw as int / 0x100) % 0x100) as u32
}

/// The variant byte of a raw code: bits 0 to 7.
pub open spec fn variant_of(raw: u32) -> u32 {
    (raw as int % 0x100) as u32
}

/// The fourteen codes, in the order in which the enum declares them.
pub open spec fn all_codes() -> Seq<SyscallCode> {
    seq![
        SyscallCode::HALT,
        SyscallCode::LWA,
        SyscallCode::WRITE,
        SyscallCode::ENTER_UNCONSTRAINED,
        SyscallCode::EXIT_UNCONSTRAINED,
        SyscallCode::SHA_EXTEND,
        SyscallCode::SHA_COMPRESS,
        SyscallCode::ED_ADD,
        SyscallCode::ED_DECOMPRESS,
        SyscallCode::KECCAK_PERMUTE,
        SyscallCode::SECP256K1_ADD,
        SyscallCode::SECP256K1_DOUBLE,
        SyscallCode::SECP256K1_DECOMPRESS,
        SyscallCode::BLAKE3_COMPRESS_INNER,
    ]
}

impl SyscallCode {
    /// The raw 32-bit value of a code.
    pub open spec fn raw(self) -> u32 {
        match self {
            SyscallCode::HALT => 0x01_00_00_00,
            SyscallCode::LWA => 0x00_00_00_01,
            SyscallCode::WRITE => 0x00_00_00_02,
            SyscallCode::ENTER_UNCONSTRAINED => 0x00_00_00_03,
            SyscallCode::EXIT_UNCONSTRAINED => 0x00_00_00_04,
            SyscallCode::SHA_EXTEND => 0x00_80_01_00,
            SyscallCode::SHA_COMPRESS => 0x00_80_01_01,
            SyscallCode::ED_ADD => 0x00_80_01_02,
            SyscallCode::ED_DECOMPRESS => 0x00_80_01_03,
            SyscallCode::KECCAK_PERMUTE => 0x00_80_01_04,
            SyscallCode::SECP256K1_ADD => 0x00_80_01_05,
            SyscallCode::SECP256K1_DOUBLE => 0x00_80_01_06,
            SyscallCode::SECP256K1_DECOMPRESS => 0x00_80_01_07,
            SyscallCode::BLAKE3_COMPRESS_INNER => 0x00_80_01_08,
        }
    }

    /// Whether a raw value is one of the assigned codes.
    pub open spec fn is_assigned(value: u32) -> bool {
        exists|code: SyscallCode| code.raw() == value
    }

    /// The code that a raw value stands for, where the value is assigned.
    pub open spec fn decode(value: u32) -> SyscallCode
        recommends
            Self::is_assigned(value),
    {
        choose|code: SyscallCode| code.raw() == value
    }

    /// The number of extra cycles that the layout of a code budgets for it:
    /// its cost-class byte.
    pub open spec fn cost_class(self) -> u32 {
        cost_class_of(self.raw())
    }

    /// Whether the code names a precompiled circuit.
    pub open spec fn is_precompile(self) -> bool {
        self.cost_class() == 0x80
    }

    /// The place of a code in `all_codes()`.
    pub open spec fn position(self) -> int {
        match self {
            SyscallCode::HALT => 0,
            SyscallCode::LWA => 1,
            SyscallCode::WRITE => 2,
            SyscallCode::ENTER_UNCONSTRAINED => 3,
            SyscallCode::EXIT_UNCONSTRAINED => 4,
            SyscallCode::SHA_EXTEND => 5,
            SyscallCode::SHA_COMPRESS => 6,
            SyscallCode::ED_ADD => 7,
            SyscallCode::ED_DECOMPRESS => 8,
            SyscallCode::KECCAK_PERMUTE => 9,
            SyscallCode::SECP256K1_ADD => 10,
            SyscallCode::SECP256K1_DOUBLE => 11,
            SyscallCode::SECP256K1_DECOMPRESS => 12,
            SyscallCode::BLAKE3_COMPRESS_INNER => 13,
        }
    }

    /// Encodes a code as the raw value that the guest puts in the trap
    /// register.
    pub fn to_u32(self) -> (value: u32)
        ensures
            value == self.raw(),
            Self::is_assigned(value),
    {
        let value: u32 = match self {
            SyscallCode::HALT => 0x01_00_00_00,
            SyscallCode::LWA => 0x00_00_00_01,
            SyscallCode::WRITE => 0x00_00_00_02,
            SyscallCode::ENTER_UNCONSTRAINED => 0x00_00_00_03,
            SyscallCode::EXIT_UNCONSTRAINED => 0x00_00_00_04,
            SyscallCode::SHA_EXTEND => 0x00_80_01_00,
            SyscallCode::SHA_COMPRESS => 0x00_80_01_01,
            SyscallCode::ED_ADD => 0x00_80_01_02,
            SyscallCode::ED_DECOMPRESS => 0x00_80_01_03,
            SyscallCode::KECCAK_PERMUTE => 0x00_80_01_04,
            SyscallCode::SECP256K1_ADD => 0x00_80_01_05,
            SyscallCode::SECP256K1_DOUBLE => 0x00_80_01_06,
            SyscallCode::SECP256K1_DECOMPRESS => 0x00_80_01_07,
            SyscallCode::BLAKE3_COMPRESS_INNER => 0x00_80_01_08,
        };
        assert(self.raw() == value);
        value
    }

    /// Tests whether a raw value is one of the assigned codes.
    pub fn is_valid(value: u32) -> (valid: bool)
        ensures
            valid == Self::is_assigned(value),
    {
        let valid = value == 0x01_00_00_00 || (0x00_00_00_01 <= value && value <= 0x00_00_00_04) || (
        0x00_80_01_00 <= value && value <= 0x00_80_01_08);
        proof {
            if valid {
                let i = if value == 0x01_00_00_00 {
                    0int
                } else if value <= 0x00_00_00_04 {
                    value as int
                } else {
                    value - 0x00_80_01_00 + 5
                };
                assert(all_codes()[i].raw() == value);
            }
        }
        valid
    }

    /// Decodes a raw value, or reports that it is not an assigned code.
    pub fn try_from_u32(value: u32) -> (code: Option<SyscallCode>)
        ensures
            code == (if Self::is_assigned(value) {
                Some(Self::decode(value))
            } else {
                None
            }),
    {
        if Self::is_valid(value) {
            Some(Self::from_u32(value))
        } else {
            None
        }
    }

    /// Creates a syscall code from a `u32`. A value outside the code space
    /// is a fault of the guest program, so the caller has to rule it out.
    pub fn from_u32(value: u32) -> (code: SyscallCode)
        requires
            Self::is_assigned(value),
        ensures
            code == Self::decode(value),
            code.raw() == value,
    {
        match value {
            0x01_00_00_00 => SyscallCode::HALT,
            0x00_00_00_01 => SyscallCode::LWA,
            0x00_00_00_02 => SyscallCode::WRITE,
            0x00_00_00_03 => SyscallCode::ENTER_UNCONSTRAINED,
            0x00_00_00_04 => SyscallCode::EXIT_UNCONSTRAINED,
            0x00_80_01_00 => SyscallCode::SHA_EXTEND,
            0x00_80_01_01 => SyscallCode::SHA_COMPRESS,
            0x00_80_01_02 => SyscallCode::ED_ADD,
            0x00_80_01_03 => SyscallCode::ED_DECOMPRESS,
            0x00_80_01_04 => SyscallCode::KECCAK_PERMUTE,
            0x00_80_01_05 => SyscallCode::SECP256K1_ADD,
            0x00_80_01_06 => SyscallCode::SECP256K1_DOUBLE,
            0x00_80_01_07 => SyscallCode::SECP256K1_DECOMPRESS,
            0x00_80_01_08 => SyscallCode::BLAKE3_COMPRESS_INNER,
            _ => unreached(),
        }
    }

    /// The number of extra cycles that the code itself announces, read from
    /// its cost-class byte and from nothing else.
    pub fn extra_cycles_hint(self) -> (cycles: u32)
        ensures
            cycles == self.cost_class(),
            cycles == 0 || cycles == 128,
            cycles == 128 <==> self.is_precompile(),
    {
        let raw: u32 = self.to_u32();
        assert((raw >> 16) & 0xff == (raw / 0x1_0000) % 0x100) by (bit_vector);
        (raw >> 16) & 0xff
    }

    /// Every code of the code space, each once, in declaration order.
    pub fn all() -> (codes: Vec<SyscallCode>)
        ensures
            codes@ == all_codes(),
    {
        vec![
            SyscallCode::HALT,
            SyscallCode::LWA,
            SyscallCode::WRITE,
            SyscallCode::ENTER_UNCONSTRAINED,
            SyscallCode::EXIT_UNCONSTRAINED,
            SyscallCode::SHA_EXTEND,
            SyscallCode::SHA_COMPRESS,
            SyscallCode::ED_ADD,
            SyscallCode::ED_DECOMPRESS,
            SyscallCode::KECCAK_PERMUTE,
            SyscallCode::SECP256K1_ADD,
            SyscallCode::SECP256K1_DOUBLE,
            SyscallCode::SECP256K1_DECOMPRESS,
            SyscallCode::BLAKE3_COMPRESS_INNER,
        ]
    }
}

/// The layout of every code: its place in `all_codes()`, its category (1 for
/// `HALT`, 0 for every other code), its cost class (0 for the five basic
/// services, 0x80 for the precompiles) and its family (0 for the basic
/// services, 1 for the precompiles).
pub proof fn lemma_code_layout(code: SyscallCode)
    ensures
        0 <= code.position() < 14,
        all_codes()[code.position()] == code,
        category_of(code.raw()) == (if code == SyscallCode::HALT {
            1u32
        } else {
            0u32
        }),
        code.cost_class() == (if code.position() < 5 {
            0u32
        } else {
            0x80u32
        }),
        family_of(code.raw()) == (if code.position() < 5 {
            0u32
        } else {
            1u32
        }),
        code.position() >= 5 ==> variant_of(code.raw()) == code.position() - 5,
{
}

/// Decoding undoes encoding: the raw value of every code is assigned, and
/// the only code that has it is that code, so `from_u32(op.to_u32())` is
/// `op`.
pub proof fn lemma_decode_encode(op: SyscallCode)
    ensures
        SyscallCode::is_assigned(op.raw()),
        SyscallCode::decode(op.raw()) == op,
        forall|decoded: SyscallCode| decoded.raw() == op.raw() ==> decoded == op,
{
}

/// Encoding undoes decoding: the code that an assigned value stands for has
/// that value as its raw value.
pub proof fn lemma_encode_decode(value: u32)
    requires
        SyscallCode::is_assigned(value),
    ensures
        SyscallCode::decode(value).raw() == value,
{
}

/// The assigned values are the raw values of the fourteen codes, and no
/// others.
pub proof fn lemma_assigned_values(value: u32)
    ensures
        SyscallCode::is_assigned(value) <==> exists|i: int|
            0 <= i < 14 && #[trigger] all_codes()[i].raw() == value,
{
    if SyscallCode::is_assigned(value) {
        let c = choose|c: SyscallCode| c.raw() == value;
        lemma_code_layout(c);
    }
}

/// The list of all codes holds no code twice.
pub proof fn lemma_all_codes_distinct(i: int, j: int)
    requires
        0 <= i < 14,
        0 <= j < 14,
        all_codes()[i] == all_codes()[j],
    ensures
        i == j,
{
}

} // verus!
