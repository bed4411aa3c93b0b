//! Button packing and the team-number address rule.

use vstd::prelude::*;
use vstd::string::StringExecFns;

verus! {

/// 1 where button `i` exists and is pressed, 0 elsewhere.
pub open spec fn bit_value(bits: Seq<bool>, i: int) -> int {
    if 0 <= i < bits.len() && bits[i] {
        1
    } else {
        0
    }
}

/// The weight of bit `pos` of a byte.
pub open spec fn bit_weight(pos: int) -> int {
    if pos == 0 {
        1
    } else if pos == 1 {
        2
    } else if pos == 2 {
        4
    } else if pos == 3 {
        8
    } else if pos == 4 {
        16
    } else if pos == 5 {
        32
    } else if pos == 6 {
        64
    } else {
        128
    }
}

/// The value of the lowest `upto` bits of group `k`: button `8k + i` is bit
/// `i`, and a button past the end counts as released.
pub open spec fn group_sum(bits: Seq<bool>, k: int, upto: int) -> int
    decreases upto,
{
    if upto <= 0 {
        0
    } else {
        group_sum(bits, k, upto - 1) + bit_weight(upto - 1) * bit_value(bits, 8 * k + upto - 1)
    }
}

/// The byte that holds buttons `8k .. 8k + 8`, least significant bit first.
pub open spec fn group_byte(bits: Seq<bool>, k: int) -> u8 {
    group_sum(bits, k, 8) as u8
}

/// The number of bytes that `count` buttons take.
pub open spec fn packed_len(count: nat) -> nat {
    ((count + 7) / 8) as nat
}

/// The packed form of a row of buttons: one byte per group of eight, least
/// significant bit first within a byte, and the groups in reverse order, so
/// that the first eight buttons stand in the last byte.
pub open spec fn pack_buttons(bits: Seq<bool>) -> Seq<u8> {
    Seq::new(packed_len(bits.len()), |j: int| group_byte(bits, packed_len(bits.len()) - 1 - j))
}

/// Bit `pos` of `byte`, counted from the least significant.
pub open spec fn bit_of(byte: u8, pos: int) -> bool {
    (byte as int / bit_weight(pos)) % 2 == 1
}

/// Reads `count` buttons back out of packed bytes: the bytes are taken last
/// to first, and within each byte the bits least significant first.
pub open spec fn unpack_buttons(bytes: Seq<u8>, count: nat) -> Seq<bool> {
    Seq::new(count, |i: int| bit_of(bytes[bytes.len() - 1 - i / 8], i % 8))
}

/// The lowest `upto` bits of a group stay below the weight of the next bit.
proof fn lemma_group_sum_bound(bits: Seq<bool>, k: int, upto: int)
    requires
        0 <= upto <= 8,
    ensures
        0 <= group_sum(bits, k, upto) < 256,
        upto < 8 ==> group_sum(bits, k, upto) < bit_weight(upto),
    decreases upto,
{
    if upto > 0 {
        lemma_group_sum_bound(bits, k, upto - 1);
    }
}

/// The byte of a group, written out bit by bit.
proof fn lemma_group_sum_unfold(bits: Seq<bool>, k: int)
    ensures
        group_sum(bits, k, 8) == bit_value(bits, 8 * k) + 2 * bit_value(bits, 8 * k + 1) + 4
            * bit_value(bits, 8 * k + 2) + 8 * bit_value(bits, 8 * k + 3) + 16 * bit_value(
            bits,
            8 * k + 4,
        ) + 32 * bit_value(bits, 8 * k + 5) + 64 * bit_value(bits, 8 * k + 6) + 128 * bit_value(
            bits,
            8 * k + 7,
        ),
{
    reveal_with_fuel(group_sum, 9);
}

/// Every bit of a group's byte is the button it was packed from.
proof fn lemma_bit_of_group(bits: Seq<bool>, k: int, pos: int)
    requires
        0 <= pos < 8,
    ensures
        bit_of(group_byte(bits, k), pos) == (bit_value(bits, 8 * k + pos) == 1),
{
    lemma_group_sum_unfold(bits, k);
    lemma_group_sum_bound(bits, k, 8);
}

/// Unpacking undoes packing: for every row of buttons, reading as many
/// buttons as were packed gives the row back.
pub proof fn lemma_unpack_pack(bits: Seq<bool>)
    ensures
        pack_buttons(bits).len() == packed_len(bits.len()),
        unpack_buttons(pack_buttons(bits), bits.len()) == bits,
{
    let packed = pack_buttons(bits);
    assert forall|i: int| 0 <= i < bits.len() implies unpack_buttons(packed, bits.len())[i]
        == bits[i] by {
        // Button `i` is bit `i % 8` of group `i / 8`.
        lemma_bit_of_group(bits, i / 8, i % 8);
    }
}

/// Packs button states into the bytes the robot controller expects: see
/// [`pack_buttons`].
pub fn to_u8_vec(vec_in: &[bool]) -> (result: Vec<u8>)
    ensures
        result@ == pack_buttons(vec_in@),
{
    let len = vec_in.len();
    let num_bytes = if len % 8 == 0 {
        len / 8
    } else {
        len / 8 + 1
    };
    let mut result: Vec<u8> = Vec::with_capacity(num_bytes);
    let mut k = num_bytes;
    while k > 0
        invariant
            len == vec_in@.len(),
            num_bytes == packed_len(vec_in@.len()),
            k <= num_bytes,
            result@.len() == num_bytes - k,
            forall|j: int|
                0 <= j < result@.len() ==> result@[j] == group_byte(vec_in@, num_bytes - 1 - j),
        decreases k,
    {
        k -= 1;
        let byte = pack_group(vec_in, k);
        result.push(byte);
    }
    result
}

/// The byte for group `k` of `vec_in`.
fn pack_group(vec_in: &[bool], k: usize) -> (byte: u8)
    requires
        8 * k < vec_in@.len(),
    ensures
        byte == group_byte(vec_in@, k as int),
{
    let len = vec_in.len();
    let chunk_start = 8 * k;
    let mut byte: u8 = 0;
    let mut bit_pos: u8 = 0;
    while bit_pos < 8
        invariant
            bit_pos <= 8,
            chunk_start == 8 * k,
            chunk_start < len,
            len == vec_in@.len(),
            byte == group_sum(vec_in@, k as int, bit_pos as int),
        decreases 8 - bit_pos,
    {
        proof {
            lemma_group_sum_bound(vec_in@, k as int, bit_pos as int);
            lemma_group_sum_bound(vec_in@, k as int, bit_pos as int + 1);
        }
        if bit_pos as usize <= len - 1 - chunk_start {
            let bool_idx = chunk_start + bit_pos as usize;
            if vec_in[bool_idx] {
                let mask: u8 = 1u8 << bit_pos;
                proof {
                    lemma_or_adds_bit(byte, bit_pos, mask, bit_weight(bit_pos as int) as u8);
                }
                byte |= mask;
            }
        }
        bit_pos += 1;
    }
    byte
}

/// Setting a bit above every bit that is set adds the weight of that bit.
proof fn lemma_or_adds_bit(byte: u8, pos: u8, mask: u8, weight: u8)
    by (bit_vector)
    requires
        pos < 8,
        mask == 1u8 << pos,
        byte < weight,
        pos == 0 ==> weight == 1,
        pos == 1 ==> weight == 2,
        pos == 2 ==> weight == 4,
        pos == 3 ==> weight == 8,
        pos == 4 ==> weight == 16,
        pos == 5 ==> weight == 32,
        pos == 6 ==> weight == 64,
        pos == 7 ==> weight == 128,
    ensures
        mask == weight,
        byte | mask == byte + mask,
{
}

/// The character for one decimal digit.
pub open spec fn digit_char(d: int) -> char {
    if d == 0 {
        '0'
    } else if d == 1 {
        '1'
    } else if d == 2 {
        '2'
    } else if d == 3 {
        '3'
    } else if d == 4 {
        '4'
    } else if d == 5 {
        '5'
    } else if d == 6 {
        '6'
    } else if d == 7 {
        '7'
    } else if d == 8 {
        '8'
    } else {
        '9'
    }
}

/// `n` written in decimal, without sign or leading zeros.
pub open spec fn decimal(n: nat) -> Seq<char>
    decreases n,
{
    if n < 10 {
        seq![digit_char(n as int)]
    } else {
        decimal(n / 10).push(digit_char((n % 10) as int))
    }
}

/// Largest team number that has an address.
pub const MAX_TEAM_NUMBER: u32 = 99999;

/// The address of the robot controller of `team`: `10.TE.AM.2`, where `TE`
/// is the team number without its last two digits and `AM` is those two
/// digits, both written without leading zeros. For a team below 100 this is
/// `10.0.AM.2`.
pub open spec fn team_ip(team: nat) -> Seq<char> {
    seq!['1', '0', '.'] + decimal(team / 100) + seq!['.'] + decimal(team % 100) + seq!['.', '2']
}

fn digit_str(d: u32) -> (s: &'static str)
    requires
        d < 10,
    ensures
        s@ == seq![digit_char(d as int)],
{
    proof {
        reveal_strlit("0");
        reveal_strlit("1");
        reveal_strlit("2");
        reveal_strlit("3");
        reveal_strlit("4");
        reveal_strlit("5");
        reveal_strlit("6");
        reveal_strlit("7");
        reveal_strlit("8");
        reveal_strlit("9");
    }
    let s = if d == 0 {
        "0"
    } else if d == 1 {
        "1"
    } else if d == 2 {
        "2"
    } else if d == 3 {
        "3"
    } else if d == 4 {
        "4"
    } else if d == 5 {
        "5"
    } else if d == 6 {
        "6"
    } else if d == 7 {
        "7"
    } else if d == 8 {
        "8"
    } else {
        "9"
    };
    s
}

/// Appends `n` in decimal to `out`.
pub fn push_decimal(out: &mut String, n: u32)
    ensures
        final(out)@ == old(out)@ + decimal(n as nat),
    decreases n,
{
    if n >= 10 {
        push_decimal(out, n / 10);
    }
    out.append(digit_str(n % 10));
}

/// The address of the robot controller of `team`, or `None` for a team
/// number above [`MAX_TEAM_NUMBER`].
pub fn ip_from_team_number(team: u32) -> (ip: Option<String>)
    ensures
        team > MAX_TEAM_NUMBER <==> ip is None,
        ip matches Some(text) ==> text@ == team_ip(team as nat),
{
    if team >= 100000 {
        return None;
    }
    let te = team / 100;
    let am = team % 100;
    let mut text = String::from_str("10.");
    proof {
        reveal_strlit("10.");
        reveal_strlit(".");
        reveal_strlit(".2");
    }
    push_decimal(&mut text, te);
    text.append(".");
    push_decimal(&mut text, am);
    text.append(".2");
    Some(text)
}

} // verus!
