//! Bytecode pattern: a stack machine over a flat byte stream.
//!
//! The machine scans a program byte by byte. A byte is either an opcode or,
//! right after a `Literal` opcode, a raw operand that is pushed as it stands.
//! Operands are single-precision numbers, held as their IEEE-754 bit patterns;
//! the machine never computes with them. Whatever touches the game world, and
//! the arithmetic itself, is handed to the host as an [`Effect`]: the host
//! performs it, pushes the reply where one is due, and lets the machine go on.
//!
//! `interpret` always starts at the program's first byte and keeps the stack
//! as it finds it; `proceed` and `resume` go on from where a request stopped
//! the machine.

use vstd::prelude::*;
use vstd::arithmetic::power2::{pow2, lemma2_to64};

verus! {

/// The closed set of opcodes.
#[derive(Clone, Copy, Debug, PartialEq, Eq, Structural)]
pub enum Instruction {
    Literal,
    SetHealth,
    SetAgility,
    SetWisdom,
    PlaySound,
    SpawnParticles,
    GetHealth,
    GetAgility,
    GetWisdom,
    Add,
    Divide,
}

/// What the machine asks of its host, with the operands it popped for it.
/// For the two-operand requests the operand pushed first comes first.
#[derive(Clone, Copy, Debug, PartialEq, Eq, Structural)]
pub enum Effect {
    SetHealth { wizard: u32, amount: u32 },
    SetAgility { wizard: u32, amount: u32 },
    SetWisdom { wizard: u32, amount: u32 },
    PlaySound { id: u32 },
    SpawnParticles { id: u32 },
    GetHealth { wizard: u32 },
    GetAgility { wizard: u32 },
    GetWisdom { wizard: u32 },
    Add { a: u32, b: u32 },
    Divide { a: u32, b: u32 },
}

/// Why interpretation stopped early.
#[derive(Clone, Copy, Debug, PartialEq, Eq, Structural)]
pub enum VmError {
    /// A byte that is no opcode stood where an opcode was expected.
    InvalidOpcode { byte: u8, position: usize },
    /// The opcode needed more operands than the stack held.
    StackUnderflow { opcode: Instruction },
}

/// What handling one opcode does: the stack it leaves, and what it hands back.
pub struct Dispatch {
    pub stack: Seq<u32>,
    pub result: Result<Option<Effect>, VmError>,
}

/// The part of the machine that scanning changes.
pub struct Scan {
    pub stack: Seq<u32>,
    pub position: int,
    pub literal: bool,
}

/// A scan state together with what the last byte handed back.
pub struct Outcome {
    pub scan: Scan,
    pub result: Result<Option<Effect>, VmError>,
}

impl Instruction {
    /// The byte that stands for this opcode.
    pub open spec fn code(self) -> u8 {
        match self {
            Instruction::Literal => 1,
            Instruction::SetHealth => 2,
            Instruction::SetAgility => 3,
            Instruction::SetWisdom => 4,
            Instruction::PlaySound => 5,
            Instruction::SpawnParticles => 6,
            Instruction::GetHealth => 7,
            Instruction::GetAgility => 8,
            Instruction::GetWisdom => 9,
            Instruction::Add => 10,
            Instruction::Divide => 11,
        }
    }

    /// The opcode that a byte stands for, if any.
    pub open spec fn decode(byte: u8) -> Option<Instruction> {
        if exists|op: Instruction| op.code() == byte {
            Some(choose|op: Instruction| op.code() == byte)
        } else {
            None
        }
    }

    /// How many operands the opcode takes off the stack.
    pub open spec fn operands(self) -> nat {
        match self {
            Instruction::Literal => 0,
            Instruction::PlaySound | Instruction::SpawnParticles => 1,
            Instruction::GetHealth | Instruction::GetAgility | Instruction::GetWisdom => 1,
            Instruction::SetHealth | Instruction::SetAgility | Instruction::SetWisdom => 2,
            Instruction::Add | Instruction::Divide => 2,
        }
    }

    /// Every opcode has a byte between 1 and 11, and no two share one.
    pub proof fn lemma_code_injective(a: Instruction, b: Instruction)
        ensures
            1 <= a.code() <= 11,
            a.code() == b.code() ==> a == b,
    {
    }

    /// Decoding succeeds exactly on the bytes 1 to 11, and then gives the one
    /// opcode whose byte it is.
    pub proof fn lemma_decode_closure(byte: u8)
        ensures
            1 <= byte <= 11 <==> Self::decode(byte) is Some,
            forall|op: Instruction| op.code() == byte <==> Self::decode(byte) == Some(op),
    {
        let witness = if byte == 1 {
            Instruction::Literal
        } else if byte == 2 {
            Instruction::SetHealth
        } else if byte == 3 {
            Instruction::SetAgility
        } else if byte == 4 {
            Instruction::SetWisdom
        } else if byte == 5 {
            Instruction::PlaySound
        } else if byte == 6 {
            Instruction::SpawnParticles
        } else if byte == 7 {
            Instruction::GetHealth
        } else if byte == 8 {
            Instruction::GetAgility
        } else if byte == 9 {
            Instruction::GetWisdom
        } else if byte == 10 {
            Instruction::Add
        } else {
            Instruction::Divide
        };
        if 1 <= byte <= 11 {
            assert(witness.code() == byte);
        }
        assert forall|op: Instruction| op.code() == byte <==> Self::decode(byte) == Some(op) by {
            if Self::decode(byte) is Some {
                Self::lemma_code_injective(op, Self::decode(byte).unwrap());
            }
        }
        if Self::decode(byte) is Some {
            Self::lemma_code_injective(Self::decode(byte).unwrap(), witness);
        }
    }

    /// An opcode's byte decodes back to the opcode.
    pub proof fn lemma_decode_code(op: Instruction)
        ensures
            Self::decode(op.code()) == Some(op),
    {
        Self::lemma_decode_closure(op.code());
    }

    /// Decodes one byte. The result depends on the byte alone.
    pub fn from_u8(byte: u8) -> (result: Option<Instruction>)
        ensures
            result == Self::decode(byte),
    {
        proof {
            Self::lemma_decode_closure(byte);
        }
        match byte {
            1 => Some(Instruction::Literal),
            2 => Some(Instruction::SetHealth),
            3 => Some(Instruction::SetAgility),
            4 => Some(Instruction::SetWisdom),
            5 => Some(Instruction::PlaySound),
            6 => Some(Instruction::SpawnParticles),
            7 => Some(Instruction::GetHealth),
            8 => Some(Instruction::GetAgility),
            9 => Some(Instruction::GetWisdom),
            10 => Some(Instruction::Add),
            11 => Some(Instruction::Divide),
            _ => None,
        }
    }

    /// Decodes the byte found at `position` in a program: the opcode that it
    /// stands for, or the fault that names the byte and where it stood.
    pub fn decode_at(byte: u8, position: usize) -> (result: Result<Instruction, VmError>)
        ensures
            result == match Self::decode(byte) {
                Some(op) => Ok::<Instruction, VmError>(op),
                None => Err::<Instruction, VmError>(VmError::InvalidOpcode { byte, position }),
            },
            result is Ok <==> 1 <= byte <= 11,
    {
        proof {
            Self::lemma_decode_closure(byte);
        }
        match Self::from_u8(byte) {
            Some(op) => Ok(op),
            None => Err(VmError::InvalidOpcode { byte, position }),
        }
    }

    /// The byte that stands for this opcode.
    pub fn to_u8(self) -> (byte: u8)
        ensures
            byte == self.code(),
    {
        match self {
            Instruction::Literal => 1,
            Instruction::SetHealth => 2,
            Instruction::SetAgility => 3,
            Instruction::SetWisdom => 4,
            Instruction::PlaySound => 5,
            Instruction::SpawnParticles => 6,
            Instruction::GetHealth => 7,
            Instruction::GetAgility => 8,
            Instruction::GetWisdom => 9,
            Instruction::Add => 10,
            Instruction::Divide => 11,
        }
    }
}

impl Effect {
    /// Whether the host owes the machine a value, to be pushed before the
    /// machine goes on.
    pub open spec fn has_reply(self) -> bool {
        match self {
            Effect::GetHealth { .. } | Effect::GetAgility { .. } | Effect::GetWisdom { .. }
            | Effect::Add { .. } | Effect::Divide { .. } => true,
            _ => false,
        }
    }

    /// Whether the host owes the machine a value.
    pub fn expects_reply(&self) -> (reply: bool)
        ensures
            reply == self.has_reply(),
    {
        match self {
            Effect::GetHealth { .. } | Effect::GetAgility { .. } | Effect::GetWisdom { .. }
            | Effect::Add { .. } | Effect::Divide { .. } => true,
            _ => false,
        }
    }
}

/// `bits` is the single-precision pattern of the whole number `n`: sign clear,
/// and significand times two to the exponent equal to `n`. (Both sides are
/// scaled by 2^23, the weight of the significand's leading bit.)
pub open spec fn denotes_integer(bits: u32, n: nat) -> bool {
    let exponent = bits as int / 0x80_0000 - 127;
    let fraction = bits as int % 0x80_0000;
    if n == 0 {
        bits == 0
    } else {
        &&& 0 <= exponent <= 23
        &&& (0x80_0000 + fraction) * pow2(exponent as nat) == n * 0x80_0000
    }
}

/// The position of a byte's leading one bit.
pub open spec fn leading_bit(byte: u8) -> nat
    recommends
        byte > 0,
{
    if byte >= 128 {
        7
    } else if byte >= 64 {
        6
    } else if byte >= 32 {
        5
    } else if byte >= 16 {
        4
    } else if byte >= 8 {
        3
    } else if byte >= 4 {
        2
    } else if byte >= 2 {
        1
    } else {
        0
    }
}

/// The operand that a raw byte stands for: the byte's value, widened to single
/// precision.
pub open spec fn literal_value(byte: u8) -> u32 {
    if byte == 0 {
        0
    } else {
        let e = leading_bit(byte);
        ((126 + e) * 0x80_0000 + byte * pow2((23 - e) as nat)) as u32
    }
}

/// Widening is exact: the operand denotes the byte's value.
pub proof fn lemma_literal_exact(byte: u8)
    ensures
        denotes_integer(literal_value(byte), byte as nat),
{
    lemma2_to64();
    let bits = literal_value(byte);
    if byte >= 128 {
        assert(leading_bit(byte) == 7 && pow2(16) == 0x10000 && pow2(7) == 0x80);
        assert(bits == 133 * 0x80_0000 + byte * 0x10000);
        assert(bits as int / 0x80_0000 == 134);
        assert(bits as int % 0x80_0000 == byte * 0x10000 - 0x80_0000);
        assert((0x80_0000 + (byte * 0x10000 - 0x80_0000)) * 0x80 == byte * 0x80_0000);
    } else if byte >= 64 {
        assert(leading_bit(byte) == 6 && pow2(17) == 0x20000 && pow2(6) == 0x40);
        assert(bits == 132 * 0x80_0000 + byte * 0x20000);
        assert(bits as int / 0x80_0000 == 133);
        assert(bits as int % 0x80_0000 == byte * 0x20000 - 0x80_0000);
        assert((0x80_0000 + (byte * 0x20000 - 0x80_0000)) * 0x40 == byte * 0x80_0000);
    } else if byte >= 32 {
        assert(leading_bit(byte) == 5 && pow2(18) == 0x40000 && pow2(5) == 0x20);
        assert(bits == 131 * 0x80_0000 + byte * 0x40000);
        assert(bits as int / 0x80_0000 == 132);
        assert(bits as int % 0x80_0000 == byte * 0x40000 - 0x80_0000);
        assert((0x80_0000 + (byte * 0x40000 - 0x80_0000)) * 0x20 == byte * 0x80_0000);
    } else if byte >= 16 {
        assert(leading_bit(byte) == 4 && pow2(19) == 0x80000 && pow2(4) == 0x10);
        assert(bits == 130 * 0x80_0000 + byte * 0x80000);
        assert(bits as int / 0x80_0000 == 131);
        assert(bits as int % 0x80_0000 == byte * 0x80000 - 0x80_0000);
        assert((0x80_0000 + (byte * 0x80000 - 0x80_0000)) * 0x10 == byte * 0x80_0000);
    } else if byte >= 8 {
        assert(leading_bit(byte) == 3 && pow2(20) == 0x100000 && pow2(3) == 0x8);
        assert(bits == 129 * 0x80_0000 + byte * 0x100000);
        assert(bits as int / 0x80_0000 == 130);
        assert(bits as int % 0x80_0000 == byte * 0x100000 - 0x80_0000);
        assert((0x80_0000 + (byte * 0x100000 - 0x80_0000)) * 0x8 == byte * 0x80_0000);
    } else if byte >= 4 {
        assert(leading_bit(byte) == 2 && pow2(21) == 0x200000 && pow2(2) == 0x4);
        assert(bits == 128 * 0x80_0000 + byte * 0x200000);
        assert(bits as int / 0x80_0000 == 129);
        assert(bits as int % 0x80_0000 == byte * 0x200000 - 0x80_0000);
        assert((0x80_0000 + (byte * 0x200000 - 0x80_0000)) * 0x4 == byte * 0x80_0000);
    } else if byte >= 2 {
        assert(leading_bit(byte) == 1 && pow2(22) == 0x400000 && pow2(1) == 0x2);
        assert(bits == 127 * 0x80_0000 + byte * 0x400000);
        assert(bits as int / 0x80_0000 == 128);
        assert(bits as int % 0x80_0000 == byte * 0x400000 - 0x80_0000);
        assert((0x80_0000 + (byte * 0x400000 - 0x80_0000)) * 0x2 == byte * 0x80_0000);
    } else if byte >= 1 {
        assert(leading_bit(byte) == 0 && pow2(23) == 0x800000 && pow2(0) == 0x1);
        assert(bits == 126 * 0x80_0000 + byte * 0x800000);
        assert(bits as int / 0x80_0000 == 127);
        assert(bits as int % 0x80_0000 == byte * 0x800000 - 0x80_0000);
        assert((0x80_0000 + (byte * 0x800000 - 0x80_0000)) * 0x1 == byte * 0x80_0000);
    }
}

/// Only one pattern denotes a byte's value: the operand that the byte stands
/// for.
pub proof fn lemma_literal_unique(bits: u32, byte: u8)
    requires
        denotes_integer(bits, byte as nat),
    ensures
        bits == literal_value(byte),
{
    lemma2_to64();
    if byte > 0 {
        let exponent = bits as int / 0x80_0000 - 127;
        let fraction = bits as int % 0x80_0000;
        assert(bits == (exponent + 127) * 0x80_0000 + fraction);
        assert(0 <= fraction < 0x80_0000);
        if exponent == 0 {
            assert(pow2(0) == 0x1 && pow2(23) == 0x800000);
            assert((0x80_0000 + fraction) * 0x1 == byte * 0x80_0000);
            assert(leading_bit(byte) == 0);
            assert(literal_value(byte) == 126 * 0x80_0000 + byte * 0x800000);
        } else if exponent == 1 {
            assert(pow2(1) == 0x2 && pow2(22) == 0x400000);
            assert((0x80_0000 + fraction) * 0x2 == byte * 0x80_0000);
            assert(leading_bit(byte) == 1);
            assert(literal_value(byte) == 127 * 0x80_0000 + byte * 0x400000);
        } else if exponent == 2 {
            assert(pow2(2) == 0x4 && pow2(21) == 0x200000);
            assert((0x80_0000 + fraction) * 0x4 == byte * 0x80_0000);
            assert(leading_bit(byte) == 2);
            assert(literal_value(byte) == 128 * 0x80_0000 + byte * 0x200000);
        } else if exponent == 3 {
            assert(pow2(3) == 0x8 && pow2(20) == 0x100000);
            assert((0x80_0000 + fraction) * 0x8 == byte * 0x80_0000);
            assert(leading_bit(byte) == 3);
            assert(literal_value(byte) == 129 * 0x80_0000 + byte * 0x100000);
        } else if exponent == 4 {
            assert(pow2(4) == 0x10 && pow2(19) == 0x80000);
            assert((0x80_0000 + fraction) * 0x10 == byte * 0x80_0000);
            assert(leading_bit(byte) == 4);
            assert(literal_value(byte) == 130 * 0x80_0000 + byte * 0x80000);
        } else if exponent == 5 {
            assert(pow2(5) == 0x20 && pow2(18) == 0x40000);
            assert((0x80_0000 + fraction) * 0x20 == byte * 0x80_0000);
            assert(leading_bit(byte) == 5);
            assert(literal_value(byte) == 131 * 0x80_0000 + byte * 0x40000);
        } else if exponent == 6 {
            assert(pow2(6) == 0x40 && pow2(17) == 0x20000);
            assert((0x80_0000 + fraction) * 0x40 == byte * 0x80_0000);
            assert(leading_bit(byte) == 6);
            assert(literal_value(byte) == 132 * 0x80_0000 + byte * 0x20000);
        } else if exponent == 7 {
            assert(pow2(7) == 0x80 && pow2(16) == 0x10000);
            assert((0x80_0000 + fraction) * 0x80 == byte * 0x80_0000);
            assert(leading_bit(byte) == 7);
            assert(literal_value(byte) == 133 * 0x80_0000 + byte * 0x10000);
        } else {
            assert(pow2(exponent as nat) >= 0x100) by {
                vstd::arithmetic::power2::lemma_pow2_strictly_increases(7, exponent as nat);
            }
            assert((0x80_0000 + fraction) * pow2(exponent as nat) >= 0x80_0000 * 0x100)
                by (nonlinear_arith)
                requires
                    fraction >= 0,
                    pow2(exponent as nat) >= 0x100,
            ;
        }
    }
}

/// Widens a raw byte to the operand it stands for.
pub fn literal_bits(byte: u8) -> (bits: u32)
    ensures
        bits == literal_value(byte),
        denotes_integer(bits, byte as nat),
{
    proof {
        lemma2_to64();
        lemma_literal_exact(byte);
    }
    if byte == 0 {
        return 0;
    }
    let (exponent, scale): (u32, u32) = if byte >= 128 {
        (7, 0x1_0000)
    } else if byte >= 64 {
        (6, 0x2_0000)
    } else if byte >= 32 {
        (5, 0x4_0000)
    } else if byte >= 16 {
        (4, 0x8_0000)
    } else if byte >= 8 {
        (3, 0x10_0000)
    } else if byte >= 4 {
        (2, 0x20_0000)
    } else if byte >= 2 {
        (1, 0x40_0000)
    } else {
        (0, 0x80_0000)
    };
    (126 + exponent) * 0x80_0000 + (byte as u32) * scale
}

/// The request that a non-literal opcode makes from the operands on top of the
/// stack.
pub open spec fn effect_of(op: Instruction, stack: Seq<u32>) -> Effect
    recommends
        op != Instruction::Literal,
        stack.len() >= op.operands(),
{
    let top = stack[stack.len() - 1];
    let below = stack[stack.len() - 2];
    match op {
        Instruction::SetHealth => Effect::SetHealth { wizard: below, amount: top },
        Instruction::SetAgility => Effect::SetAgility { wizard: below, amount: top },
        Instruction::SetWisdom => Effect::SetWisdom { wizard: below, amount: top },
        Instruction::PlaySound => Effect::PlaySound { id: top },
        Instruction::SpawnParticles => Effect::SpawnParticles { id: top },
        Instruction::GetHealth => Effect::GetHealth { wizard: top },
        Instruction::GetAgility => Effect::GetAgility { wizard: top },
        Instruction::GetWisdom => Effect::GetWisdom { wizard: top },
        Instruction::Add => Effect::Add { a: below, b: top },
        _ => Effect::Divide { a: below, b: top },
    }
}

/// Handling the byte `byte`, found at `position`, as an opcode.
///
/// A byte that is no opcode leaves the stack alone. `Literal` does too, and
/// hands back nothing. Any other opcode takes its operands off the stack and
/// hands back its request; where the stack holds too few, the opcode has
/// drained what there was by the time it fails.
pub open spec fn dispatch(stack: Seq<u32>, byte: u8, position: usize) -> Dispatch {
    match Instruction::decode(byte) {
        None => Dispatch { stack, result: Err(VmError::InvalidOpcode { byte, position }) },
        Some(op) => if op == Instruction::Literal {
            Dispatch { stack, result: Ok(None) }
        } else if stack.len() < op.operands() {
            Dispatch { stack: Seq::empty(), result: Err(VmError::StackUnderflow { opcode: op }) }
        } else {
            Dispatch {
                stack: stack.take(stack.len() - op.operands()),
                result: Ok(Some(effect_of(op, stack))),
            }
        },
    }
}

/// One byte of the program, from the state `scan`.
///
/// In literal mode the byte is pushed as an operand. Otherwise it is handled as
/// an opcode; a `Literal` switches to literal mode for the next byte. A fault
/// leaves the position on the offending byte. Past the program's end nothing
/// changes.
pub open spec fn step_of(program: Seq<u8>, scan: Scan) -> Outcome {
    if scan.position < 0 || scan.position >= program.len() {
        Outcome { scan, result: Ok(None) }
    } else if scan.literal {
        Outcome {
            scan: Scan {
                stack: scan.stack.push(literal_value(program[scan.position])),
                position: scan.position + 1,
                literal: false,
            },
            result: Ok(None),
        }
    } else {
        let done = dispatch(scan.stack, program[scan.position], scan.position as usize);
        Outcome {
            scan: Scan {
                stack: done.stack,
                position: if done.result is Ok {
                    scan.position + 1
                } else {
                    scan.position
                },
                literal: done.result == Ok::<Option<Effect>, VmError>(None),
            },
            result: done.result,
        }
    }
}

/// Scanning on from `scan` up to the first request for the host, the first
/// fault, or the program's end.
pub open spec fn run_of(program: Seq<u8>, scan: Scan) -> Outcome
    decreases program.len() - scan.position,
{
    if scan.position < 0 || scan.position >= program.len() {
        Outcome { scan, result: Ok(None) }
    } else {
        let next = step_of(program, scan);
        if next.result == Ok::<Option<Effect>, VmError>(None) {
            run_of(program, next.scan)
        } else {
            next
        }
    }
}

/// A run only moves forward. It hands back `Ok(None)` only once the whole
/// program is consumed; a request comes from a byte within the program, which
/// is then behind the position; and a fault leaves the position on the byte
/// that caused it.
pub proof fn lemma_run_ends(program: Seq<u8>, scan: Scan)
    requires
        0 <= scan.position,
    ensures
        ({
            let end = run_of(program, scan);
            &&& scan.position <= end.scan.position
            &&& end.result == Ok::<Option<Effect>, VmError>(None) ==> program.len()
                <= end.scan.position
            &&& end.result matches Ok(Some(_)) ==> scan.position < end.scan.position
                <= program.len()
            &&& end.result is Err ==> end.scan.position < program.len()
        }),
    decreases program.len() - scan.position,
{
    if scan.position < program.len() {
        let next = step_of(program, scan);
        if next.result == Ok::<Option<Effect>, VmError>(None) {
            lemma_run_ends(program, next.scan);
        }
    }
}

/// The state in which a fresh machine starts: empty stack, first byte, decode
/// mode.
pub open spec fn start() -> Scan {
    Scan { stack: Seq::empty(), position: 0, literal: false }
}

/// A `Literal` and its operand, run against an empty stack, end with the
/// operand alone on the stack, and the operand denotes the byte's value.
pub proof fn lemma_literal_round_trip(v: u8)
    ensures
        run_of(seq![1u8, v], start()).result == Ok::<Option<Effect>, VmError>(None),
        run_of(seq![1u8, v], start()).scan == (Scan {
            stack: seq![literal_value(v)],
            position: 2,
            literal: false,
        }),
        denotes_integer(literal_value(v), v as nat),
{
    let program = seq![1u8, v];
    reveal_with_fuel(run_of, 3);
    Instruction::lemma_decode_closure(1);
    lemma_literal_exact(v);
    let first = step_of(program, start());
    assert(first.scan == (Scan { stack: Seq::empty(), position: 1, literal: true }));
    let second = step_of(program, first.scan);
    assert(second.scan.stack =~= seq![literal_value(v)]);
}

/// A `Literal` and its operand, run from the start on any stack, put the
/// operand on top of it and change nothing below: a run that is repeated
/// pushes the operand once more.
pub proof fn lemma_literal_replay(v: u8, stack: Seq<u32>)
    ensures
        run_of(seq![1u8, v], Scan { stack, position: 0, literal: false }).result == Ok::<
            Option<Effect>,
            VmError,
        >(None),
        run_of(seq![1u8, v], Scan { stack, position: 0, literal: false }).scan == (Scan {
            stack: stack.push(literal_value(v)),
            position: 2,
            literal: false,
        }),
{
    let program = seq![1u8, v];
    reveal_with_fuel(run_of, 3);
    Instruction::lemma_decode_closure(1);
    let first = step_of(program, Scan { stack, position: 0, literal: false });
    assert(first.scan == (Scan { stack, position: 1, literal: true }));
}

/// A program that opens with an opcode other than `Literal`, run against an
/// empty stack, stops on that opcode with a stack underflow, and the stack is
/// still empty.
pub proof fn lemma_underflow_on_empty_stack(program: Seq<u8>, op: Instruction)
    requires
        program.len() > 0,
        program[0] == op.code(),
        op != Instruction::Literal,
    ensures
        run_of(program, start()).result == Err::<Option<Effect>, VmError>(
            VmError::StackUnderflow { opcode: op },
        ),
        run_of(program, start()).scan == start(),
{
    reveal_with_fuel(run_of, 2);
    Instruction::lemma_decode_code(op);
}

/// A byte that is no opcode, met in decode mode, stops the machine with that
/// byte and its position, and changes nothing.
pub proof fn lemma_invalid_opcode(program: Seq<u8>, scan: Scan)
    requires
        0 <= scan.position < program.len(),
        scan.position <= usize::MAX,
        !scan.literal,
        !(1 <= program[scan.position] <= 11),
    ensures
        run_of(program, scan).result == Err::<Option<Effect>, VmError>(
            VmError::InvalidOpcode {
                byte: program[scan.position],
                position: scan.position as usize,
            },
        ),
        run_of(program, scan).scan == scan,
{
    reveal_with_fuel(run_of, 2);
    Instruction::lemma_decode_closure(program[scan.position]);
}

/// Two literals and `Add` or `Divide`, run against an empty stack, hand the
/// host the two operands in the order in which they were pushed and leave the
/// stack empty; once the host has pushed its reply, the run ends with the reply
/// alone on the stack.
pub proof fn lemma_binary_operation(a: u8, b: u8, op: Instruction, reply: u32)
    requires
        op == Instruction::Add || op == Instruction::Divide,
    ensures
        ({
            let program = seq![1u8, a, 1u8, b, op.code()];
            let asked = run_of(program, start());
            let resumed = run_of(
                program,
                Scan { stack: asked.scan.stack.push(reply), ..asked.scan },
            );
            &&& asked.result == Ok::<Option<Effect>, VmError>(
                Some(effect_of(op, seq![literal_value(a), literal_value(b)])),
            )
            &&& asked.scan == (Scan { stack: Seq::empty(), position: 5, literal: false })
            &&& resumed.result == Ok::<Option<Effect>, VmError>(None)
            &&& resumed.scan == (Scan { stack: seq![reply], position: 5, literal: false })
        }),
{
    let program = seq![1u8, a, 1u8, b, op.code()];
    reveal_with_fuel(run_of, 6);
    Instruction::lemma_decode_closure(1);
    Instruction::lemma_decode_code(op);
    let s1 = step_of(program, start());
    assert(s1.scan == (Scan { stack: Seq::empty(), position: 1, literal: true }));
    let s2 = step_of(program, s1.scan);
    assert(s2.scan.stack =~= seq![literal_value(a)]);
    let s3 = step_of(program, s2.scan);
    assert(s3.scan == (Scan { stack: seq![literal_value(a)], position: 3, literal: true }));
    let s4 = step_of(program, s3.scan);
    assert(s4.scan.stack =~= seq![literal_value(a), literal_value(b)]);
    let s5 = step_of(program, s4.scan);
    assert(s5.scan.stack =~= Seq::<u32>::empty());
    assert(s5.result == Ok::<Option<Effect>, VmError>(Some(effect_of(op, s4.scan.stack))));
    assert(run_of(program, start()) == s5);
    assert(s5.scan.stack.push(reply) =~= seq![reply]);
}

/// The machine: a program, the operand stack, and where scanning stands.
#[derive(Debug)]
pub struct VM {
    pub bytecode: Vec<u8>,
    pub stack: Vec<u32>,
    /// Index of the next byte to scan.
    pub position: usize,
    /// Whether the next byte is a raw operand.
    pub literal: bool,
}

impl Default for VM {
    /// A machine without a program.
    fn default() -> (vm: VM)
        ensures
            vm.bytecode@ == Seq::<u8>::empty(),
            vm.scan() == start(),
    {
        VM { bytecode: Vec::new(), stack: Vec::new(), position: 0, literal: false }
    }
}

impl VM {
    /// The scanning state of the machine.
    pub open spec fn scan(&self) -> Scan {
        Scan { stack: self.stack@, position: self.position as int, literal: self.literal }
    }

    /// A machine at the start of `bytecode`, with an empty stack.
    pub fn new(bytecode: Vec<u8>) -> (vm: VM)
        ensures
            vm.bytecode == bytecode,
            vm.scan() == start(),
    {
        VM { stack: Vec::with_capacity(128), bytecode, position: 0, literal: false }
    }

    /// Puts `val` on top of the stack.
    pub fn push(&mut self, val: u32)
        ensures
            final(self).stack@ == old(self).stack@.push(val),
            final(self).bytecode == old(self).bytecode,
            final(self).position == old(self).position,
            final(self).literal == old(self).literal,
    {
        self.stack.push(val);
    }

    /// Takes the top of the stack for `opcode`. On an empty stack nothing
    /// changes and the fault names `opcode`.
    pub fn pop(&mut self, opcode: Instruction) -> (result: Result<u32, VmError>)
        ensures
            result is Ok <==> old(self).stack@.len() > 0,
            result matches Ok(val) ==> val == old(self).stack@.last() && final(self).stack@
                == old(self).stack@.drop_last(),
            result matches Err(fault) ==> fault == (VmError::StackUnderflow { opcode })
                && final(self).stack@ == old(self).stack@,
            final(self).bytecode == old(self).bytecode,
            final(self).position == old(self).position,
            final(self).literal == old(self).literal,
    {
        match self.stack.pop() {
            Some(val) => Ok(val),
            None => Err(VmError::StackUnderflow { opcode }),
        }
    }

    /// Moves scanning back to the start of the program. The stack stays as it
    /// is.
    pub fn rewind(&mut self)
        ensures
            final(self).bytecode == old(self).bytecode,
            final(self).stack == old(self).stack,
            final(self).position == 0,
            !final(self).literal,
    {
        self.position = 0;
        self.literal = false;
    }

    /// Handles `instruction` as an opcode, with the current position as its
    /// place in the program. Hands back `None` for `Literal`: the next byte is
    /// then a raw operand.
    pub fn interpret_instruction(&mut self, instruction: u8) -> (result: Result<
        Option<Effect>,
        VmError,
    >)
        ensures
            result == dispatch(old(self).stack@, instruction, old(self).position).result,
            final(self).stack@ == dispatch(old(self).stack@, instruction, old(self).position).stack,
            final(self).bytecode == old(self).bytecode,
            final(self).position == old(self).position,
            final(self).literal == old(self).literal,
    {
        let opcode = Instruction::decode_at(instruction, self.position)?;
        let effect = match opcode {
            Instruction::Literal => {
                return Ok(None);
            },
            Instruction::SetHealth => {
                let amount = self.pop(opcode)?;
                let wizard = self.pop(opcode)?;
                Effect::SetHealth { wizard, amount }
            },
            Instruction::SetAgility => {
                let amount = self.pop(opcode)?;
                let wizard = self.pop(opcode)?;
                Effect::SetAgility { wizard, amount }
            },
            Instruction::SetWisdom => {
                let amount = self.pop(opcode)?;
                let wizard = self.pop(opcode)?;
                Effect::SetWisdom { wizard, amount }
            },
            Instruction::PlaySound => {
                let id = self.pop(opcode)?;
                Effect::PlaySound { id }
            },
            Instruction::SpawnParticles => {
                let id = self.pop(opcode)?;
                Effect::SpawnParticles { id }
            },
            Instruction::GetHealth => {
                let wizard = self.pop(opcode)?;
                Effect::GetHealth { wizard }
            },
            Instruction::GetAgility => {
                let wizard = self.pop(opcode)?;
                Effect::GetAgility { wizard }
            },
            Instruction::GetWisdom => {
                let wizard = self.pop(opcode)?;
                Effect::GetWisdom { wizard }
            },
            Instruction::Add => {
                let b = self.pop(opcode)?;
                let a = self.pop(opcode)?;
                Effect::Add { a, b }
            },
            Instruction::Divide => {
                let b = self.pop(opcode)?;
                let a = self.pop(opcode)?;
                Effect::Divide { a, b }
            },
        };
        proof {
            let before = old(self).stack@;
            assert(self.stack@ =~= before.take(before.len() - opcode.operands()));
        }
        Ok(Some(effect))
    }

    /// Scans one byte.
    pub fn step(&mut self) -> (result: Result<Option<Effect>, VmError>)
        ensures
            result == step_of(old(self).bytecode@, old(self).scan()).result,
            final(self).scan() == step_of(old(self).bytecode@, old(self).scan()).scan,
            final(self).bytecode == old(self).bytecode,
    {
        if self.position >= self.bytecode.len() {
            return Ok(None);
        }
        let byte = self.bytecode[self.position];
        if self.literal {
            self.push(literal_bits(byte));
            self.literal = false;
            self.position = self.position + 1;
            Ok(None)
        } else {
            let result = self.interpret_instruction(byte);
            match result {
                Ok(None) => {
                    self.literal = true;
                    self.position = self.position + 1;
                },
                Ok(Some(_)) => {
                    self.literal = false;
                    self.position = self.position + 1;
                },
                Err(_) => {
                    self.literal = false;
                },
            }
            result
        }
    }

    /// Runs the program from its first byte, on the stack as it stands, until
    /// an opcode has a request for the host, a fault stops the machine, or the
    /// program ends (`Ok(None)`). Nothing is reset but the place in the
    /// program: a second call replays the program on whatever the first one
    /// left on the stack.
    ///
    /// After a request the host performs it and lets the machine go on: with
    /// `resume` where the request has a reply, else with `proceed`.
    pub fn interpret(&mut self) -> (result: Result<Option<Effect>, VmError>)
        ensures
            result == run_of(
                old(self).bytecode@,
                Scan { stack: old(self).stack@, position: 0, literal: false },
            ).result,
            final(self).scan() == run_of(
                old(self).bytecode@,
                Scan { stack: old(self).stack@, position: 0, literal: false },
            ).scan,
            final(self).bytecode == old(self).bytecode,
    {
        self.rewind();
        self.proceed()
    }

    /// Scans on from where the machine stands until an opcode has a request
    /// for the host, a fault stops the machine, or the program ends
    /// (`Ok(None)`). This is how the host lets the machine go on after a
    /// request that has no reply.
    pub fn proceed(&mut self) -> (result: Result<Option<Effect>, VmError>)
        ensures
            result == run_of(old(self).bytecode@, old(self).scan()).result,
            final(self).scan() == run_of(old(self).bytecode@, old(self).scan()).scan,
            final(self).bytecode == old(self).bytecode,
    {
        while self.position < self.bytecode.len()
            invariant
                self.bytecode == old(self).bytecode,
                run_of(self.bytecode@, self.scan()) == run_of(
                    old(self).bytecode@,
                    old(self).scan(),
                ),
            decreases self.bytecode.len() - self.position,
        {
            let result = self.step();
            match result {
                Ok(None) => {},
                _ => {
                    return result;
                },
            }
        }
        Ok(None)
    }

    /// Goes on after a request that has a reply: `reply` is what the host
    /// answers, and goes on top of the stack before scanning continues.
    pub fn resume(&mut self, reply: u32) -> (result: Result<Option<Effect>, VmError>)
        ensures
            result == run_of(
                old(self).bytecode@,
                Scan { stack: old(self).stack@.push(reply), ..old(self).scan() },
            ).result,
            final(self).scan() == run_of(
                old(self).bytecode@,
                Scan { stack: old(self).stack@.push(reply), ..old(self).scan() },
            ).scan,
            final(self).bytecode == old(self).bytecode,
    {
        self.push(reply);
        self.proceed()
    }
}

} // verus!
