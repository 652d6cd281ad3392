use vstd::prelude::*;

verus! {

/// How one wheel's power is made from the three drive inputs: the power is
/// `scale * (forward * f + strafe * s + turn * t)` for the row `(f, s, t)`, where `forward` is
/// the left stick pushed up (the negated stick y), `strafe` the left stick x and `turn` the
/// right stick x.
#[derive(Clone, Copy, Debug, PartialEq, Eq, Structural)]
pub struct MixRow {
    pub forward: i8,
    pub strafe: i8,
    pub turn: i8,
}

/// The mecanum mixing table, by motor channel.
pub open spec fn mix_of(motor: int) -> MixRow {
    if motor == 0 {
        MixRow { forward: 1, strafe: 1, turn: 1 }
    } else if motor == 1 {
        MixRow { forward: 1, strafe: -1i8, turn: -1i8 }
    } else if motor == 2 {
        MixRow { forward: 1, strafe: -1i8, turn: 1 }
    } else {
        MixRow { forward: 1, strafe: 1, turn: -1i8 }
    }
}

/// The row of the mecanum mixing table for motor channel `motor`.
pub fn mecanum_mix(motor: u8) -> (row: MixRow)
    requires
        motor < 4,
    ensures
        row == mix_of(motor as int),
{
    match motor {
        0 => MixRow { forward: 1, strafe: 1, turn: 1 },
        1 => MixRow { forward: 1, strafe: -1, turn: -1 },
        2 => MixRow { forward: 1, strafe: -1, turn: 1 },
        _ => MixRow { forward: 1, strafe: 1, turn: -1 },
    }
}

/// The drive powers are the mixed inputs times `DRIVE_SCALE_NUMERATOR / DRIVE_SCALE_DENOMINATOR`.
pub const DRIVE_SCALE_NUMERATOR: u8 = 7;

/// See `DRIVE_SCALE_NUMERATOR`.
pub const DRIVE_SCALE_DENOMINATOR: u8 = 10;

/// The motor channels whose direction is set to backwards before driving: 1 and 3.
pub fn is_reversed(motor: u8) -> (b: bool)
    ensures
        b == (motor == 1 || motor == 3),
{
    motor == 1 || motor == 3
}

/// The sum over the four wheels of the products of two columns of the mixing table.
pub open spec fn column_dot(a: spec_fn(MixRow) -> int, b: spec_fn(MixRow) -> int) -> int {
    a(mix_of(0)) * b(mix_of(0)) + a(mix_of(1)) * b(mix_of(1)) + a(mix_of(2)) * b(mix_of(2)) + a(
        mix_of(3),
    ) * b(mix_of(3))
}

/// Driving forward, strafing and turning are independent: the three columns of the mixing
/// table are pairwise orthogonal, every entry is 1 or -1, and pushing forward drives all four
/// wheels the same way.
pub proof fn lemma_mix_columns_independent()
    ensures
        column_dot(|r: MixRow| r.forward as int, |r: MixRow| r.strafe as int) == 0,
        column_dot(|r: MixRow| r.forward as int, |r: MixRow| r.turn as int) == 0,
        column_dot(|r: MixRow| r.strafe as int, |r: MixRow| r.turn as int) == 0,
        forall|m: int|
            0 <= m < 4 ==> {
                &&& #[trigger] mix_of(m).forward == 1
                &&& (mix_of(m).strafe == 1 || mix_of(m).strafe == -1)
                &&& (mix_of(m).turn == 1 || mix_of(m).turn == -1)
            },
{
}

/// The power that the mixing table gives a wheel for drive inputs `y` (forward), `x`
/// (strafe) and `turn`, before scaling.
pub open spec fn mixed(row: MixRow, y: int, x: int, turn: int) -> int {
    y * row.forward + x * row.strafe + turn * row.turn
}

/// The mixing table gives the mecanum formulas wheel by wheel, for every input: motor 0
/// gets `y + x + turn`, motor 1 `y - x - turn`, motor 2 `y - x + turn` and motor 3
/// `y + x - turn`.
pub proof fn lemma_mix_formulas(y: int, x: int, turn: int)
    ensures
        mixed(mix_of(0), y, x, turn) == y + x + turn,
        mixed(mix_of(1), y, x, turn) == y - x - turn,
        mixed(mix_of(2), y, x, turn) == y - x + turn,
        mixed(mix_of(3), y, x, turn) == y + x - turn,
{
}

} // verus!
