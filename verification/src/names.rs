//! Decoding a tile's identity from its mesh file name, and building the
//! mirrored output names.
//!
//! A mesh file name carries, at fixed character offsets, a four-character map
//! identifier (characters 3..7) followed by two fixed-width two-digit tile
//! fields: tile y at characters 7..9, then tile x at characters 9..11. Any
//! deviation from the fixed widths is a decode failure.

use vstd::prelude::*;

verus! {

/// Errors of the file name decoder.
#[derive(Clone, Copy, Debug, PartialEq, Eq, Structural)]
pub enum NameError {
    /// The name is too short, or a tile field holds a non-digit character.
    MalformedName,
}

/// The identity of one tile: which map it belongs to and its integer grid
/// coordinates. Derived once from an input file name, immutable afterward.
#[derive(Clone, Debug, PartialEq, Eq)]
pub struct TileIdentity {
    pub map_id: String,
    pub tile_x: u32,
    pub tile_y: u32,
}

/// True of an ASCII decimal digit.
pub open spec fn is_ascii_digit(c: char) -> bool {
    48 <= c as u32 && c as u32 <= 57
}

/// The numeric value of an ASCII decimal digit.
pub open spec fn digit_value(c: char) -> nat {
    (c as u32 - 48) as nat
}

/// A name is well-formed when it is long enough to hold all three fields and
/// both two-character tile fields are decimal digits.
pub open spec fn valid_name(s: Seq<char>) -> bool {
    &&& s.len() >= 11
    &&& is_ascii_digit(s[7])
    &&& is_ascii_digit(s[8])
    &&& is_ascii_digit(s[9])
    &&& is_ascii_digit(s[10])
}

/// The value of the two-digit field that starts at character `i`.
pub open spec fn field_value(s: Seq<char>, i: int) -> nat {
    digit_value(s[i]) * 10 + digit_value(s[i + 1])
}

impl TileIdentity {
    /// A decoded identity: the map identifier is exactly four characters and
    /// each tile index came from a two-digit field.
    pub open spec fn wf(self) -> bool {
        &&& self.map_id@.len() == 4
        &&& self.tile_x < 100
        &&& self.tile_y < 100
    }
}

/// Decodes map identifier and tile coordinates from a mesh file name:
/// map id at characters 3..7, tile y at 7..9, tile x at 9..11.
pub fn decode_file_name(name: &str) -> (r: Result<TileIdentity, NameError>)
    ensures
        r is Ok <==> valid_name(name@),
        r matches Ok(id) ==> {
            &&& id.map_id@ == name@.subrange(3, 7)
            &&& id.tile_y == field_value(name@, 7)
            &&& id.tile_x == field_value(name@, 9)
            &&& id.wf()
        },
        r is Err ==> r == Err::<TileIdentity, NameError>(NameError::MalformedName),
{
    let len = name.unicode_len();
    if len < 11 {
        return Err(NameError::MalformedName);
    }
    let c7: u32 = name.get_char(7) as u32;
    let c8: u32 = name.get_char(8) as u32;
    let c9: u32 = name.get_char(9) as u32;
    let c10: u32 = name.get_char(10) as u32;
    if !(48 <= c7 && c7 <= 57 && 48 <= c8 && c8 <= 57) {
        return Err(NameError::MalformedName);
    }
    if !(48 <= c9 && c9 <= 57 && 48 <= c10 && c10 <= 57) {
        return Err(NameError::MalformedName);
    }
    let map_id = name.substring_char(3, 7).to_owned();
    let tile_y: u32 = (c7 - 48) * 10 + (c8 - 48);
    let tile_x: u32 = (c9 - 48) * 10 + (c10 - 48);
    Ok(TileIdentity { map_id, tile_x, tile_y })
}

/// True when the name ends in the mesh-file extension `.obj` with at least
/// one character of stem before it; other entries are skipped by the batch.
pub open spec fn obj_extension(s: Seq<char>) -> bool {
    &&& s.len() >= 5
    &&& s[s.len() - 4] == '.'
    &&& s[s.len() - 3] == 'o'
    &&& s[s.len() - 2] == 'b'
    &&& s[s.len() - 1] == 'j'
}

/// Decides whether a directory entry is a candidate mesh file by its name.
pub fn is_obj_name(name: &str) -> (r: bool)
    ensures
        r == obj_extension(name@),
{
    let len = name.unicode_len();
    if len < 5 {
        return false;
    }
    name.get_char(len - 4) == '.' && name.get_char(len - 3) == 'o'
        && name.get_char(len - 2) == 'b' && name.get_char(len - 1) == 'j'
}

/// The character of a single decimal digit.
pub open spec fn digit_char(d: nat) -> char {
    if d == 0 {
        '0'
    } else if d == 1 {
        '1'
    } else if d == 2 {
        '2'
    } else if d == 3 {
        '3'
    } else if d == 4 {
        '4'
    } else if d == 5 {
        '5'
    } else if d == 6 {
        '6'
    } else if d == 7 {
        '7'
    } else if d == 8 {
        '8'
    } else {
        '9'
    }
}

/// The decimal representation of a number, most significant digit first,
/// without leading zeroes (a single zero for zero itself).
pub open spec fn dec_rep(n: nat) -> Seq<char>
    decreases n,
{
    if n < 10 {
        seq![digit_char(n)]
    } else {
        dec_rep(n / 10).push(digit_char(n % 10))
    }
}

/// The one-character string of a single decimal digit.
fn digit_str(d: u32) -> (r: &'static str)
    requires
        d < 10,
    ensures
        r@ == seq![digit_char(d as nat)],
{
    proof {
        reveal_strlit("0");
        reveal_strlit("1");
        reveal_strlit("2");
        reveal_strlit("3");
        reveal_strlit("4");
        reveal_strlit("5");
        reveal_strlit("6");
        reveal_strlit("7");
        reveal_strlit("8");
        reveal_strlit("9");
    }
    if d == 0 {
        "0"
    } else if d == 1 {
        "1"
    } else if d == 2 {
        "2"
    } else if d == 3 {
        "3"
    } else if d == 4 {
        "4"
    } else if d == 5 {
        "5"
    } else if d == 6 {
        "6"
    } else if d == 7 {
        "7"
    } else if d == 8 {
        "8"
    } else {
        "9"
    }
}

/// Formats a number in decimal, as the output file names need it.
pub fn u32_to_string(n: u32) -> (s: String)
    ensures
        s@ == dec_rep(n as nat),
    decreases n,
{
    if n < 10 {
        String::from_str(digit_str(n))
    } else {
        let mut s = u32_to_string(n / 10);
        s.append(digit_str(n % 10));
        proof {
            assert(s@ =~= dec_rep((n / 10) as nat).push(digit_char((n % 10) as nat)));
        }
        s
    }
}

/// The name of the per-map output subdirectory for a map identifier.
pub fn map_dir_name(map_id: &str) -> (s: String)
    ensures
        s@ == "map_"@ + map_id@,
{
    let mut s = String::from_str("map_");
    s.append(map_id);
    s
}

/// The name of the output grid file for one tile.
pub fn tile_file_name(tile_x: u32, tile_y: u32) -> (s: String)
    ensures
        s@ == "tile_"@ + dec_rep(tile_x as nat) + "_"@ + dec_rep(tile_y as nat) + ".dat"@,
{
    let mut s = String::from_str("tile_");
    let xs = u32_to_string(tile_x);
    s.append(xs.as_str());
    s.append("_");
    let ys = u32_to_string(tile_y);
    s.append(ys.as_str());
    s.append(".dat");
    proof {
        assert(s@ =~= "tile_"@ + dec_rep(tile_x as nat) + "_"@ + dec_rep(tile_y as nat)
            + ".dat"@);
    }
    s
}

/// The output file's path relative to the output root:
/// `map_<id>/tile_<x>_<y>.dat`, derived deterministically from the identity.
pub fn output_rel_path(id: &TileIdentity) -> (s: String)
    ensures
        s@ == "map_"@ + id.map_id@ + "/"@ + "tile_"@ + dec_rep(id.tile_x as nat) + "_"@
            + dec_rep(id.tile_y as nat) + ".dat"@,
{
    let mut s = map_dir_name(id.map_id.as_str());
    s.append("/");
    let file = tile_file_name(id.tile_x, id.tile_y);
    s.append(file.as_str());
    proof {
        assert(s@ =~= "map_"@ + id.map_id@ + "/"@ + "tile_"@ + dec_rep(id.tile_x as nat)
            + "_"@ + dec_rep(id.tile_y as nat) + ".dat"@);
    }
    s
}

} // verus!
