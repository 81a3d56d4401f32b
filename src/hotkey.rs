//! Hotkey identifiers. Each grid cell has a two-letter label ("tl" for the
//! top left cell, "bm" for the bottom middle one); the label's hex encoding,
//! read as a number, is the identifier the hotkey is registered under, and an
//! identifier that fires is decoded back to its cell.

use vstd::prelude::*;
use crate::geometry::GridPosition;
use crate::hexnum::{
    all_hex_digits, append_upper_hex, hex_decode, hex_encode, hex_pairs, lemma_four_digits,
    lemma_hex_of_pair, lemma_hex_pairs_len, lemma_upper_hex, parse_hex, upper_hex,
};

verus! {

/// ASCII codes of the letters that make up the labels.
pub const LETTER_T: u8 = 116;
pub const LETTER_M: u8 = 109;
pub const LETTER_B: u8 = 98;
pub const LETTER_L: u8 = 108;
pub const LETTER_R: u8 = 114;

/// The two-letter label of a cell: row (`t`, `m`, `b`) then column (`l`,
/// `m`, `r`), as ASCII bytes.
pub open spec fn label(p: GridPosition) -> Seq<u8> {
    match p {
        GridPosition::TopLeft => seq![LETTER_T, LETTER_L],
        GridPosition::Top => seq![LETTER_T, LETTER_M],
        GridPosition::TopRight => seq![LETTER_T, LETTER_R],
        GridPosition::Left => seq![LETTER_M, LETTER_L],
        GridPosition::Middle => seq![LETTER_M, LETTER_M],
        GridPosition::Right => seq![LETTER_M, LETTER_R],
        GridPosition::BottomLeft => seq![LETTER_B, LETTER_L],
        GridPosition::Bottom => seq![LETTER_B, LETTER_M],
        GridPosition::BottomRight => seq![LETTER_B, LETTER_R],
    }
}

/// The identifier a cell's hotkey is registered under: its label's two
/// bytes read as a big-endian number.
pub open spec fn token_of(p: GridPosition) -> int {
    label(p)[0] * 256 + label(p)[1]
}

/// The cell an identifier stands for; any identifier that is no cell's falls
/// back to the middle cell.
pub open spec fn position_of_token(t: int) -> GridPosition {
    if t == token_of(GridPosition::TopLeft) {
        GridPosition::TopLeft
    } else if t == token_of(GridPosition::Top) {
        GridPosition::Top
    } else if t == token_of(GridPosition::TopRight) {
        GridPosition::TopRight
    } else if t == token_of(GridPosition::Left) {
        GridPosition::Left
    } else if t == token_of(GridPosition::Right) {
        GridPosition::Right
    } else if t == token_of(GridPosition::BottomLeft) {
        GridPosition::BottomLeft
    } else if t == token_of(GridPosition::Bottom) {
        GridPosition::Bottom
    } else if t == token_of(GridPosition::BottomRight) {
        GridPosition::BottomRight
    } else {
        GridPosition::Middle
    }
}

/// The label of a cell, as bytes.
fn label_bytes(p: GridPosition) -> (r: [u8; 2])
    ensures
        r@ == label(p),
{
    let r: [u8; 2] = match p {
        GridPosition::TopLeft => [LETTER_T, LETTER_L],
        GridPosition::Top => [LETTER_T, LETTER_M],
        GridPosition::TopRight => [LETTER_T, LETTER_R],
        GridPosition::Left => [LETTER_M, LETTER_L],
        GridPosition::Middle => [LETTER_M, LETTER_M],
        GridPosition::Right => [LETTER_M, LETTER_R],
        GridPosition::BottomLeft => [LETTER_B, LETTER_L],
        GridPosition::Bottom => [LETTER_B, LETTER_M],
        GridPosition::BottomRight => [LETTER_B, LETTER_R],
    };
    assert(r@ =~= label(p));
    r
}

/// The identifier the hotkey of `position` is registered under: the hex
/// encoding of the cell's label, read back as a number.
pub fn raw_token_for(position: GridPosition) -> (r: i32)
    ensures
        r == token_of(position),
{
    let l = label_bytes(position);
    let digits = hex_encode(&l);
    proof {
        lemma_hex_of_pair(l@);
    }
    let v = parse_hex(&digits);
    v as i32
}

/// The cell whose label is the byte pair `(row, column)`, if any.
fn position_of_label(row: u8, column: u8) -> (r: Option<GridPosition>)
    ensures
        r matches Some(p) ==> label(p) == seq![row, column],
        r is None ==> forall|p: GridPosition| label(p) != seq![row, column],
{
    let r = if row == LETTER_T && column == LETTER_L {
        Some(GridPosition::TopLeft)
    } else if row == LETTER_T && column == LETTER_M {
        Some(GridPosition::Top)
    } else if row == LETTER_T && column == LETTER_R {
        Some(GridPosition::TopRight)
    } else if row == LETTER_M && column == LETTER_L {
        Some(GridPosition::Left)
    } else if row == LETTER_M && column == LETTER_M {
        Some(GridPosition::Middle)
    } else if row == LETTER_M && column == LETTER_R {
        Some(GridPosition::Right)
    } else if row == LETTER_B && column == LETTER_L {
        Some(GridPosition::BottomLeft)
    } else if row == LETTER_B && column == LETTER_M {
        Some(GridPosition::Bottom)
    } else if row == LETTER_B && column == LETTER_R {
        Some(GridPosition::BottomRight)
    } else {
        None
    };
    proof {
        if r is None {
            assert forall|p: GridPosition| label(p) != seq![row, column] by {
                if label(p) == seq![row, column] {
                    assert(label(p)[0] == row && label(p)[1] == column);
                }
            }
        } else {
            assert(label(r->Some_0) =~= seq![row, column]);
        }
    }
    r
}

/// The hex numeral of a registered identifier has four digits and decodes
/// to the cell's label.
proof fn lemma_registered_numeral(p: GridPosition)
    ensures
        upper_hex(token_of(p) as nat).len() == 4,
        all_hex_digits(upper_hex(token_of(p) as nat)),
        hex_pairs(upper_hex(token_of(p) as nat)) == label(p),
{
    let n = token_of(p) as nat;
    let s = upper_hex(n);
    lemma_upper_hex(n);
    lemma_four_digits(s);
    let b = hex_pairs(s);
    assert(b[0] * 256 + b[1] == label(p)[0] * 256 + label(p)[1]);
    assert(b =~= label(p));
}

/// Decodes the identifier of a hotkey that fired, as it was registered: the
/// identifier is written in hex, the digits are hex-decoded into a label and
/// the cell with that label is returned. Any other identifier gives the
/// middle cell.
pub fn decode(token: i32) -> (r: GridPosition)
    ensures
        r == position_of_token(token as int),
{
    let n: u32 = if token >= 0 {
        token as u32
    } else {
        (token as i64 + 0x1_0000_0000) as u32
    };
    let mut digits: Vec<u8> = Vec::new();
    append_upper_hex(&mut digits, n);
    proof {
        assert(digits@ =~= upper_hex(n as nat));
        lemma_upper_hex(n as nat);
        lemma_hex_pairs_len(digits@);
    }
    if let Some(bytes) = hex_decode(&digits) {
        if bytes.len() == 2 {
            proof {
                lemma_four_digits(digits@);
            }
            if let Some(p) = position_of_label(bytes[0], bytes[1]) {
                proof {
                    assert(n == token_of(p));
                    lemma_decode_inverse(p);
                }
                return p;
            }
        }
    }
    proof {
        assert forall|p: GridPosition| token != token_of(p) by {
            if token == token_of(p) {
                lemma_registered_numeral(p);
                assert(label(p) =~= seq![label(p)[0], label(p)[1]]);
            }
        }
        lemma_unknown_token_is_middle(token as int);
    }
    GridPosition::Middle
}

/// Decoding the identifier a cell's hotkey is registered under gives that
/// cell back.
pub proof fn lemma_decode_inverse(p: GridPosition)
    ensures
        position_of_token(token_of(p)) == p,
{
}

/// An identifier under which no cell's hotkey is registered decodes to the
/// middle cell.
pub proof fn lemma_unknown_token_is_middle(t: int)
    requires
        forall|p: GridPosition| t != token_of(p),
    ensures
        position_of_token(t) == GridPosition::Middle,
{
    assert(t != token_of(GridPosition::TopLeft));
    assert(t != token_of(GridPosition::Top));
    assert(t != token_of(GridPosition::TopRight));
    assert(t != token_of(GridPosition::Left));
    assert(t != token_of(GridPosition::Right));
    assert(t != token_of(GridPosition::BottomLeft));
    assert(t != token_of(GridPosition::Bottom));
    assert(t != token_of(GridPosition::BottomRight));
}

/// Distinct cells are registered under distinct identifiers.
pub proof fn lemma_tokens_distinct(p: GridPosition, q: GridPosition)
    requires
        p != q,
    ensures
        token_of(p) != token_of(q),
{
    lemma_decode_inverse(p);
    lemma_decode_inverse(q);
}

/// Virtual-key codes of the keys that, with the modifier held, tile into each
/// cell: `U I O` / `J K L` / `M , .` laid out as the grid.
pub open spec fn default_key(p: GridPosition) -> u32 {
    match p {
        GridPosition::TopLeft => 0x55,
        GridPosition::Top => 0x49,
        GridPosition::TopRight => 0x4F,
        GridPosition::Left => 0x4A,
        GridPosition::Middle => 0x4B,
        GridPosition::Right => 0x4C,
        GridPosition::BottomLeft => 0x4D,
        GridPosition::Bottom => 0xBC,
        GridPosition::BottomRight => 0xBE,
    }
}

/// The nine cells, row by row from the top left.
pub open spec fn grid_order() -> Seq<GridPosition> {
    seq![
        GridPosition::TopLeft,
        GridPosition::Top,
        GridPosition::TopRight,
        GridPosition::Left,
        GridPosition::Middle,
        GridPosition::Right,
        GridPosition::BottomLeft,
        GridPosition::Bottom,
        GridPosition::BottomRight,
    ]
}

/// A hotkey to register: the cell it tiles into, the identifier it is
/// registered under, and its virtual-key code.
#[derive(Clone, Copy, Debug, PartialEq, Eq, Structural)]
pub struct KeyBinding {
    pub position: GridPosition,
    pub token: i32,
    pub key: u32,
}

/// The binding of one cell to its default key.
pub fn binding_for(position: GridPosition) -> (r: KeyBinding)
    ensures
        r.position == position,
        r.token == token_of(position),
        r.key == default_key(position),
{
    let key: u32 = match position {
        GridPosition::TopLeft => 0x55,
        GridPosition::Top => 0x49,
        GridPosition::TopRight => 0x4F,
        GridPosition::Left => 0x4A,
        GridPosition::Middle => 0x4B,
        GridPosition::Right => 0x4C,
        GridPosition::BottomLeft => 0x4D,
        GridPosition::Bottom => 0xBC,
        GridPosition::BottomRight => 0xBE,
    };
    KeyBinding { position, token: raw_token_for(position), key }
}

/// The nine bindings to register at startup, one per cell, row by row.
pub fn default_key_map() -> (r: Vec<KeyBinding>)
    ensures
        r@.len() == 9,
        forall|i: int|
            0 <= i < 9 ==> (#[trigger] r@[i]).position == grid_order()[i] && r@[i].token
                == token_of(grid_order()[i]) && r@[i].key == default_key(grid_order()[i]),
{
    let mut r: Vec<KeyBinding> = Vec::new();
    r.push(binding_for(GridPosition::TopLeft));
    r.push(binding_for(GridPosition::Top));
    r.push(binding_for(GridPosition::TopRight));
    r.push(binding_for(GridPosition::Left));
    r.push(binding_for(GridPosition::Middle));
    r.push(binding_for(GridPosition::Right));
    r.push(binding_for(GridPosition::BottomLeft));
    r.push(binding_for(GridPosition::Bottom));
    r.push(binding_for(GridPosition::BottomRight));
    r
}

/// Every cell occurs in the grid order, and no two places of it hold the
/// same cell.
pub proof fn lemma_grid_order_complete(p: GridPosition)
    ensures
        exists|i: int| 0 <= i < 9 && grid_order()[i] == p,
        forall|i: int, j: int|
            0 <= i < 9 && 0 <= j < 9 && i != j ==> grid_order()[i] != grid_order()[j],
{
    match p {
        GridPosition::TopLeft => assert(grid_order()[0] == p),
        GridPosition::Top => assert(grid_order()[1] == p),
        GridPosition::TopRight => assert(grid_order()[2] == p),
        GridPosition::Left => assert(grid_order()[3] == p),
        GridPosition::Middle => assert(grid_order()[4] == p),
        GridPosition::Right => assert(grid_order()[5] == p),
        GridPosition::BottomLeft => assert(grid_order()[6] == p),
        GridPosition::Bottom => assert(grid_order()[7] == p),
        GridPosition::BottomRight => assert(grid_order()[8] == p),
    }
}

/// Distinct cells are bound to distinct keys.
pub proof fn lemma_keys_distinct(p: GridPosition, q: GridPosition)
    requires
        p != q,
    ensures
        default_key(p) != default_key(q),
{
}

/// A hotkey that could not be registered at startup because its key is
/// already bound elsewhere.
#[derive(Clone, Copy, Debug, PartialEq, Eq, Structural)]
pub struct RegistrationError {
    pub position: GridPosition,
    pub key: u32,
}

/// The outcome of registering `bindings`, where `accepted[i]` tells whether
/// the system took `bindings[i]`: success when it took all of them, else the
/// first binding it refused.
pub fn registration_result(bindings: &Vec<KeyBinding>, accepted: &Vec<bool>) -> (r: Result<
    (),
    RegistrationError,
>)
    requires
        bindings@.len() == accepted@.len(),
    ensures
        r is Ok <==> forall|i: int| 0 <= i < accepted@.len() ==> #[trigger] accepted@[i],
        r matches Err(e) ==> exists|i: int|
            0 <= i < accepted@.len() && !accepted@[i] && (forall|j: int|
                0 <= j < i ==> #[trigger] accepted@[j]) && e == (RegistrationError {
                position: bindings@[i].position,
                key: bindings@[i].key,
            }),
{
    let mut i: usize = 0;
    while i < accepted.len()
        invariant
            bindings@.len() == accepted@.len(),
            i <= accepted@.len(),
            forall|j: int| 0 <= j < i ==> #[trigger] accepted@[j],
        decreases accepted@.len() - i,
    {
        if !accepted[i] {
            let b = bindings[i];
            return Err(RegistrationError { position: b.position, key: b.key });
        }
        i = i + 1;
    }
    Ok(())
}

} // verus!
