//! The byte forms of the structured kinds of packet data: movements and
//! avatars.

use vstd::prelude::*;
use vstd::utf8::*;

use crate::types::error::{text_of, Error};
use crate::types::packet::{append_bytes, be_bytes, bytes_to_vec, u64_to_be_bytes};
use crate::types::{Avatar, AvatarView};

verus! {

broadcast use vstd::array::group_array_axioms;

/// The four big-endian bytes of `w`.
pub open spec fn be_word(w: u32) -> Seq<u8> {
    seq![(w >> 24u32) as u8, (w >> 16u32) as u8, (w >> 8u32) as u8, w as u8]
}

/// The word that the four big-endian bytes of `d` at `k` spell.
pub open spec fn word_at(d: Seq<u8>, k: int) -> u32 {
    ((d[k] as u32) << 24u32) | ((d[k + 1] as u32) << 16u32) | ((d[k + 2] as u32) << 8u32) | (d[k + 3] as u32)
}

/// The bytes of a movement: its twelve vectors in order, each coordinate as
/// four big-endian bytes.
pub open spec fn movement_bytes(m: [[u32; 3]; 12]) -> Seq<u8> {
    Seq::new(144, |i: int| be_word(m@[i / 12]@[(i % 12) / 4])[i % 4])
}

/// The `j`-th vector of the movement that `d` spells.
pub open spec fn movement_row(d: Seq<u8>, j: int) -> [u32; 3] {
    [word_at(d, 12 * j), word_at(d, 12 * j + 4), word_at(d, 12 * j + 8)]
}

/// The movement that 144 bytes spell.
pub open spec fn movement_of(d: Seq<u8>) -> [[u32; 3]; 12] {
    [
        movement_row(d, 0),
        movement_row(d, 1),
        movement_row(d, 2),
        movement_row(d, 3),
        movement_row(d, 4),
        movement_row(d, 5),
        movement_row(d, 6),
        movement_row(d, 7),
        movement_row(d, 8),
        movement_row(d, 9),
        movement_row(d, 10),
        movement_row(d, 11),
    ]
}

proof fn lemma_word_round_trip(w: u32)
    ensures
        word_at(be_word(w), 0) == w,
{
    assert(((((w >> 24u32) as u8) as u32) << 24u32) | ((((w >> 16u32) as u8) as u32) << 16u32) | ((((w
        >> 8u32) as u8) as u32) << 8u32) | ((w as u8) as u32) == w) by (bit_vector);
}

proof fn lemma_movement_index(m: [[u32; 3]; 12], q: int, b: int)
    requires
        0 <= q < 36,
        0 <= b < 4,
    ensures
        movement_bytes(m)[4 * q + b] == be_word(m@[q / 3]@[q % 3])[b],
{
    assert((4 * q + b) / 12 == q / 3 && ((4 * q + b) % 12) / 4 == q % 3 && (4 * q + b) % 4 == b)
        by (nonlinear_arith)
        requires
            0 <= q < 36,
            0 <= b < 4,
    ;
}

proof fn lemma_movement_word(m: [[u32; 3]; 12], j: int, c: int)
    requires
        0 <= j < 12,
        0 <= c < 3,
    ensures
        word_at(movement_bytes(m), 12 * j + 4 * c) == m@[j]@[c],
{
    let q = 3 * j + c;
    assert(q / 3 == j && q % 3 == c) by (nonlinear_arith)
        requires
            q == 3 * j + c,
            0 <= c < 3,
    ;
    let w = m@[j]@[c];
    lemma_movement_index(m, q, 0);
    lemma_movement_index(m, q, 1);
    lemma_movement_index(m, q, 2);
    lemma_movement_index(m, q, 3);
    lemma_word_round_trip(w);
    assert(4 * q == 12 * j + 4 * c);
}

proof fn lemma_movement_row(m: [[u32; 3]; 12], j: int)
    requires
        0 <= j < 12,
    ensures
        movement_row(movement_bytes(m), j) == m@[j],
{
    lemma_movement_word(m, j, 0);
    lemma_movement_word(m, j, 1);
    lemma_movement_word(m, j, 2);
    assert(movement_row(movement_bytes(m), j)@ =~= m@[j]@);
}

/// Reading a movement back from its bytes gives the same movement.
#[verifier::spinoff_prover]
#[verifier::rlimit(40)]
pub proof fn lemma_movement_round_trip(m: [[u32; 3]; 12])
    ensures
        movement_bytes(m).len() == 144,
        movement_of(movement_bytes(m)) == m,
{
    lemma_movement_row(m, 0);
    lemma_movement_row(m, 1);
    lemma_movement_row(m, 2);
    lemma_movement_row(m, 3);
    lemma_movement_row(m, 4);
    lemma_movement_row(m, 5);
    lemma_movement_row(m, 6);
    lemma_movement_row(m, 7);
    lemma_movement_row(m, 8);
    lemma_movement_row(m, 9);
    lemma_movement_row(m, 10);
    lemma_movement_row(m, 11);
    assert(movement_of(movement_bytes(m))@ =~= m@);
}

/// The bytes of a movement.
pub fn movement_to_bytes(m: &[[u32; 3]; 12]) -> (r: Vec<u8>)
    ensures
        r@ == movement_bytes(*m),
{
    let mut out: Vec<u8> = Vec::new();
    let mut q: usize = 0;
    while q < 36
        invariant
            q <= 36,
            out@.len() == 4 * q,
            forall|i: int| 0 <= i < 4 * q ==> out@[i] == movement_bytes(*m)[i],
        decreases 36 - q,
    {
        let w = m[q / 3][q % 3];
        out.push((w >> 24u32) as u8);
        out.push((w >> 16u32) as u8);
        out.push((w >> 8u32) as u8);
        out.push(w as u8);
        proof {
            lemma_movement_index(*m, q as int, 0);
            lemma_movement_index(*m, q as int, 1);
            lemma_movement_index(*m, q as int, 2);
            lemma_movement_index(*m, q as int, 3);
        }
        q = q + 1;
    }
    assert(out@ =~= movement_bytes(*m));
    out
}

fn read_word(d: &[u8], k: usize) -> (r: u32)
    requires
        k + 4 <= d@.len(),
    ensures
        r == word_at(d@, k as int),
{
    ((d[k] as u32) << 24u32) | ((d[k + 1] as u32) << 16u32) | ((d[k + 2] as u32) << 8u32) | (d[k + 3] as u32)
}

fn read_row(d: &[u8], j: usize) -> (r: [u32; 3])
    requires
        j < 12,
        d@.len() == 144,
    ensures
        r == movement_row(d@, j as int),
{
    [read_word(d, 12 * j), read_word(d, 12 * j + 4), read_word(d, 12 * j + 8)]
}

/// The movement that 144 bytes spell.
pub fn movement_from_bytes(d: &[u8]) -> (r: [[u32; 3]; 12])
    requires
        d@.len() == 144,
    ensures
        r == movement_of(d@),
{
    [
        read_row(d, 0),
        read_row(d, 1),
        read_row(d, 2),
        read_row(d, 3),
        read_row(d, 4),
        read_row(d, 5),
        read_row(d, 6),
        read_row(d, 7),
        read_row(d, 8),
        read_row(d, 9),
        read_row(d, 10),
        read_row(d, 11),
    ]
}

/// The number that the eight big-endian bytes of `d` at `k` spell.
pub open spec fn u64_at(d: Seq<u8>, k: int) -> u64 {
    ((d[k] as u64) << 56u64) | ((d[k + 1] as u64) << 48u64) | ((d[k + 2] as u64) << 40u64) | ((d[k + 3] as u64)
        << 32u64) | ((d[k + 4] as u64) << 24u64) | ((d[k + 5] as u64) << 16u64) | ((d[k + 6] as u64) << 8u64) | (d[k
        + 7] as u64)
}

/// The bytes of a text field: the length of the text's UTF-8 encoding as
/// eight big-endian bytes, then the encoding.
pub open spec fn field_bytes(s: Seq<char>) -> Seq<u8> {
    be_bytes(encode_utf8(s).len() as u64) + encode_utf8(s)
}

/// Where the text field that starts at `k` ends.
pub open spec fn field_end(d: Seq<u8>, k: int) -> int {
    k + 8 + u64_at(d, k)
}

/// Whether a whole text field starts at `k`: a length, then that many
/// bytes of UTF-8 text.
pub open spec fn field_ok(d: Seq<u8>, k: int) -> bool {
    &&& 0 <= k
    &&& k + 8 <= d.len()
    &&& field_end(d, k) <= d.len()
    &&& valid_utf8(d.subrange(k + 8, field_end(d, k)))
}

/// The text of the field that starts at `k`.
pub open spec fn field_text(d: Seq<u8>, k: int) -> Seq<char> {
    decode_utf8(d.subrange(k + 8, field_end(d, k)))
}

/// Whether the encoding of every field of an avatar has a length that
/// eight bytes can hold.
pub open spec fn avatar_fits(a: AvatarView) -> bool {
    &&& encode_utf8(a.display_name).len() <= u64::MAX
    &&& encode_utf8(a.head).len() <= u64::MAX
    &&& encode_utf8(a.torso).len() <= u64::MAX
    &&& encode_utf8(a.backpack).len() <= u64::MAX
    &&& encode_utf8(a.primary_color).len() <= u64::MAX
    &&& encode_utf8(a.accent_color).len() <= u64::MAX
}

/// The bytes of an avatar: its six fields in order, each as a text field.
pub open spec fn avatar_bytes(a: AvatarView) -> Seq<u8> {
    field_bytes(a.display_name) + field_bytes(a.head) + field_bytes(a.torso) + field_bytes(a.backpack)
        + field_bytes(a.primary_color) + field_bytes(a.accent_color)
}

/// The avatar that `d` spells: six text fields that fill it exactly.
pub open spec fn avatar_of(d: Seq<u8>) -> Option<AvatarView> {
    let k1 = field_end(d, 0);
    let k2 = field_end(d, k1);
    let k3 = field_end(d, k2);
    let k4 = field_end(d, k3);
    let k5 = field_end(d, k4);
    if field_ok(d, 0) && field_ok(d, k1) && field_ok(d, k2) && field_ok(d, k3) && field_ok(d, k4) && field_ok(d, k5)
        && field_end(d, k5) == d.len() {
        Some(
            AvatarView {
                display_name: field_text(d, 0),
                head: field_text(d, k1),
                torso: field_text(d, k2),
                backpack: field_text(d, k3),
                primary_color: field_text(d, k4),
                accent_color: field_text(d, k5),
            },
        )
    } else {
        None
    }
}

proof fn lemma_u64_round_trip(n: u64)
    ensures
        u64_at(be_bytes(n), 0) == n,
{
    assert(((((n >> 56u64) as u8) as u64) << 56u64) | ((((n >> 48u64) as u8) as u64) << 48u64) | ((((n >> 40u64)
        as u8) as u64) << 40u64) | ((((n >> 32u64) as u8) as u64) << 32u64) | ((((n >> 24u64) as u8) as u64)
        << 24u64) | ((((n >> 16u64) as u8) as u64) << 16u64) | ((((n >> 8u64) as u8) as u64) << 8u64) | ((n as u8)
        as u64) == n) by (bit_vector);
}

/// A text field inside a longer byte string reads back as its text.
proof fn lemma_field_at(pre: Seq<u8>, s: Seq<char>, post: Seq<u8>)
    requires
        encode_utf8(s).len() <= u64::MAX,
    ensures
        field_ok(pre + field_bytes(s) + post, pre.len() as int),
        field_text(pre + field_bytes(s) + post, pre.len() as int) == s,
        field_end(pre + field_bytes(s) + post, pre.len() as int) == pre.len() + field_bytes(s).len(),
{
    let d = pre + field_bytes(s) + post;
    let k = pre.len() as int;
    let e = encode_utf8(s);
    let n = e.len() as u64;
    lemma_u64_round_trip(n);
    assert forall|b: int| 0 <= b < 8 implies d[k + b] == be_bytes(n)[b] by {}
    assert(u64_at(d, k) == u64_at(be_bytes(n), 0));
    assert(d.subrange(k + 8, k + 8 + e.len()) =~= e);
    encode_utf8_valid_utf8(s);
    encode_utf8_decode_utf8(s);
}

/// Reading an avatar back from its bytes gives the same avatar.
pub proof fn lemma_avatar_round_trip(a: AvatarView)
    requires
        avatar_fits(a),
    ensures
        avatar_of(avatar_bytes(a)) == Some(a),
{
    let f0 = field_bytes(a.display_name);
    let f1 = field_bytes(a.head);
    let f2 = field_bytes(a.torso);
    let f3 = field_bytes(a.backpack);
    let f4 = field_bytes(a.primary_color);
    let f5 = field_bytes(a.accent_color);
    let d = avatar_bytes(a);
    let e = Seq::<u8>::empty();
    assert(d =~= e + f0 + (f1 + f2 + f3 + f4 + f5));
    lemma_field_at(e, a.display_name, f1 + f2 + f3 + f4 + f5);
    assert(d =~= (f0) + f1 + (f2 + f3 + f4 + f5));
    lemma_field_at(f0, a.head, f2 + f3 + f4 + f5);
    assert(d =~= (f0 + f1) + f2 + (f3 + f4 + f5));
    lemma_field_at(f0 + f1, a.torso, f3 + f4 + f5);
    assert(d =~= (f0 + f1 + f2) + f3 + (f4 + f5));
    lemma_field_at(f0 + f1 + f2, a.backpack, f4 + f5);
    assert(d =~= (f0 + f1 + f2 + f3) + f4 + f5);
    lemma_field_at(f0 + f1 + f2 + f3, a.primary_color, f5);
    assert(d =~= (f0 + f1 + f2 + f3 + f4) + f5 + e);
    lemma_field_at(f0 + f1 + f2 + f3 + f4, a.accent_color, e);
}

/// Appends the text field of `s` to `out`.
fn push_field(out: &mut Vec<u8>, s: &String)
    ensures
        final(out)@ == old(out)@ + field_bytes(s@),
{
    let bytes = s.as_str().as_bytes();
    let len = u64_to_be_bytes(bytes.len() as u64);
    append_bytes(out, len.as_slice());
    append_bytes(out, bytes);
}

/// The bytes of an avatar.
pub fn avatar_to_bytes(a: &Avatar) -> (r: Vec<u8>)
    ensures
        r@ == avatar_bytes(a@),
{
    let mut out: Vec<u8> = Vec::new();
    push_field(&mut out, &a.display_name);
    push_field(&mut out, &a.head);
    push_field(&mut out, &a.torso);
    push_field(&mut out, &a.backpack);
    push_field(&mut out, &a.primary_color);
    push_field(&mut out, &a.accent_color);
    assert(out@ =~= avatar_bytes(a@));
    out
}

fn read_u64(d: &[u8], k: usize) -> (r: u64)
    requires
        k + 8 <= d@.len(),
    ensures
        r == u64_at(d@, k as int),
{
    ((d[k] as u64) << 56u64) | ((d[k + 1] as u64) << 48u64) | ((d[k + 2] as u64) << 40u64) | ((d[k + 3] as u64)
        << 32u64) | ((d[k + 4] as u64) << 24u64) | ((d[k + 5] as u64) << 16u64) | ((d[k + 6] as u64) << 8u64) | (d[k
        + 7] as u64)
}

/// Reads the text field that starts at `k`: its text and where it ends.
fn read_field(d: &[u8], k: usize) -> (r: Result<(String, usize), Error>)
    requires
        k <= d@.len(),
    ensures
        r is Ok <==> field_ok(d@, k as int),
        r matches Ok((s, end)) ==> s@ == field_text(d@, k as int) && end == field_end(d@, k as int),
        r matches Err(e) ==> e is Utf8 || e is Malformed,
{
    if d.len() - k < 8 {
        return Err(Error::Malformed);
    }
    let n = read_u64(d, k);
    let room = d.len() - k - 8;
    if n > room as u64 {
        return Err(Error::Malformed);
    }
    let start = k + 8;
    let end = start + n as usize;
    let mut bytes: Vec<u8> = Vec::new();
    let mut i: usize = start;
    while i < end
        invariant
            start <= i <= end <= d@.len(),
            bytes@ == d@.subrange(start as int, i as int),
        decreases end - i,
    {
        bytes.push(d[i]);
        i = i + 1;
        assert(bytes@ =~= d@.subrange(start as int, i as int));
    }
    match text_of(bytes) {
        Ok(s) => Ok((s, end)),
        Err(e) => Err(Error::Utf8(e)),
    }
}

/// Reads an avatar from its bytes.
pub fn avatar_from_bytes(d: &[u8]) -> (r: Result<Avatar, Error>)
    ensures
        r is Ok <==> avatar_of(d@) is Some,
        r matches Ok(a) ==> avatar_of(d@) == Some(a@),
        r matches Err(e) ==> e is Utf8 || e is Malformed,
{
    let (display_name, k1) = read_field(d, 0)?;
    let (head, k2) = read_field(d, k1)?;
    let (torso, k3) = read_field(d, k2)?;
    let (backpack, k4) = read_field(d, k3)?;
    let (primary_color, k5) = read_field(d, k4)?;
    let (accent_color, k6) = read_field(d, k5)?;
    if k6 != d.len() {
        return Err(Error::Malformed);
    }
    Ok(Avatar { display_name, head, torso, backpack, primary_color, accent_color })
}

} // verus!
