//! Reading the local declarations at the start of a function body, with
//! wasmparser's binary reader.

use vstd::prelude::*;

use wasmparser::{BinaryReader, BinaryReaderError, Type};

use crate::error::{EitherType, Error};
use crate::types::ValType;

verus! {

/// `wasmparser::BinaryReaderError`, held opaque.
#[verifier::external_type_specification]
#[verifier::external_body]
pub struct ExBinaryReaderError(BinaryReaderError);

/// The place value of the `k`-th byte of an unsigned LEB128 number: `2^(7k)`.
pub open spec fn leb_place(k: nat) -> nat {
    if k == 0 {
        1
    } else if k == 1 {
        0x80
    } else if k == 2 {
        0x4000
    } else if k == 3 {
        0x20_0000
    } else {
        0x1000_0000
    }
}

/// Reading an unsigned LEB128 `u32` from byte `k` of `d` on, with `acc` the
/// value of the bytes before: each byte gives seven bits, low first, and a
/// clear high bit ends the number; the fifth byte must be below 16.
pub open spec fn leb_u32_from(d: Seq<u8>, k: nat, acc: nat) -> Option<(u32, usize)>
    decreases 5 - k,
{
    if k >= 5 || k >= d.len() {
        None
    } else {
        let b = d[k as int];
        let acc2 = acc + (b % 128) as nat * leb_place(k);
        if k == 4 && b >= 16 {
            None
        } else if b < 128 {
            Some((acc2 as u32, (k + 1) as usize))
        } else {
            leb_u32_from(d, k + 1, acc2)
        }
    }
}

/// The unsigned LEB128 `u32` at the start of `d`: its value and the number of
/// bytes it takes; `None` where `d` ends first or the number does not fit.
pub open spec fn leb_u32(d: Seq<u8>) -> Option<(u32, usize)> {
    leb_u32_from(d, 0, 0)
}

/// Whether `b` is the binary code of a type that wasmparser reads: `0x7f`
/// i32, `0x7e` i64, `0x7d` f32, `0x7c` f64, `0x7b` v128, `0x70` funcref,
/// `0x6f` externref, `0x68` exnref, `0x60` func, `0x40` the empty block type.
pub open spec fn is_type_code(b: u8) -> bool {
    b == 0x7f || b == 0x7e || b == 0x7d || b == 0x7c || b == 0x7b || b == 0x70 || b == 0x6f
        || b == 0x68 || b == 0x60 || b == 0x40
}

/// The type code at the start of `d`, where it is one.
pub open spec fn type_code(d: Seq<u8>) -> Option<u8> {
    if d.len() > 0 && is_type_code(d[0]) {
        Some(d[0])
    } else {
        None
    }
}

/// Calls `BinaryReader::read_var_u32` on a reader over `data` that starts at
/// offset `at` of the binary (the offset only goes into error values), and
/// returns the value read and the bytes consumed: the unsigned LEB128 number
/// [`leb_u32`] at the start of `data`, and an error exactly where there is
/// none. The offset of the end of `data` must fit in a `usize`: the reader
/// adds it up when it reports an error.
#[verifier::external_body]
fn read_var_u32(data: &[u8], at: usize) -> (r: Result<(u32, usize), BinaryReaderError>)
    requires
        at + data@.len() <= usize::MAX,
    ensures
        r matches Ok(v) ==> leb_u32(data@) == Some(v),
        r is Err <==> leb_u32(data@) is None,
{
    let mut reader = BinaryReader::new_with_offset(data, at);
    let v = reader.read_var_u32()?;
    Ok((v, reader.current_position()))
}

/// Calls `BinaryReader::read_type` on a reader over `data` that starts at
/// offset `at`, and gives the type read by its binary code (one arm per
/// variant of `wasmparser::Type`) and the bytes consumed: the first byte of
/// `data` and one, where that byte is a type code ([`type_code`]), and an
/// error exactly where it is not. The offset of the end of `data` must fit in
/// a `usize`, as for [`read_var_u32`].
#[verifier::external_body]
fn read_type(data: &[u8], at: usize) -> (r: Result<(u8, usize), BinaryReaderError>)
    requires
        at + data@.len() <= usize::MAX,
    ensures
        r matches Ok(v) ==> type_code(data@) == Some(v.0) && v.1 == 1,
        r is Err <==> type_code(data@) is None,
{
    let mut reader = BinaryReader::new_with_offset(data, at);
    let code = match reader.read_type()? {
        Type::I32 => 0x7f, Type::I64 => 0x7e, Type::F32 => 0x7d, Type::F64 => 0x7c,
        Type::V128 => 0x7b, Type::FuncRef => 0x70, Type::ExternRef => 0x6f,
        Type::ExnRef => 0x68, Type::Func => 0x60, Type::EmptyBlockType => 0x40,
    };
    Ok((code, reader.current_position()))
}

proof fn lemma_leb_u32_from_used(d: Seq<u8>, k: nat, acc: nat)
    ensures
        leb_u32_from(d, k, acc) matches Some((v, n)) ==> k < n <= d.len(),
    decreases 5 - k,
{
    if k < 5 && k < d.len() {
        let b = d[k as int];
        let acc2 = acc + (b % 128) as nat * leb_place(k);
        if !(k == 4 && b >= 16) && b >= 128 {
            lemma_leb_u32_from_used(d, k + 1, acc2);
        }
    }
}

/// A LEB128 number takes at least one byte and ends within `d`.
proof fn lemma_leb_u32_used(d: Seq<u8>)
    ensures
        leb_u32(d) matches Some((v, n)) ==> 0 < n <= d.len(),
{
    lemma_leb_u32_from_used(d, 0, 0);
}

/// The message and offset of a `BinaryReaderError`. Nothing is stated of them.
#[verifier::external_body]
fn reader_error(e: BinaryReaderError) -> (String, usize) {
    (e.message().to_string(), e.offset())
}

/// The value type that a local may have, by its binary code; `None` for the
/// codes that are no value type of a local.
pub open spec fn val_type_of(code: u8) -> Option<ValType> {
    if code == 0x7f {
        Some(ValType::I32)
    } else if code == 0x7e {
        Some(ValType::I64)
    } else if code == 0x7d {
        Some(ValType::F32)
    } else if code == 0x7c {
        Some(ValType::F64)
    } else if code == 0x7b {
        Some(ValType::V128)
    } else if code == 0x70 {
        Some(ValType::FuncRef)
    } else if code == 0x6f {
        Some(ValType::ExternRef)
    } else {
        None
    }
}

fn val_type_from(code: u8) -> (r: Option<ValType>)
    ensures
        r == val_type_of(code),
{
    if code == 0x7f {
        Some(ValType::I32)
    } else if code == 0x7e {
        Some(ValType::I64)
    } else if code == 0x7d {
        Some(ValType::F32)
    } else if code == 0x7c {
        Some(ValType::F64)
    } else if code == 0x7b {
        Some(ValType::V128)
    } else if code == 0x70 {
        Some(ValType::FuncRef)
    } else if code == 0x6f {
        Some(ValType::ExternRef)
    } else {
        None
    }
}

/// The outcome of reading local declarations.
pub enum LocalsOutcome {
    /// The groups of locals: how many, and of which type.
    Locals(Seq<(u32, ValType)>),
    /// The binary reader reported an error.
    ParseError,
    /// A local of a type with this code, which is no value type.
    Unsupported(u8),
}

/// `prefix` followed by the groups of `o`; errors pass through.
pub open spec fn after(prefix: Seq<(u32, ValType)>, o: LocalsOutcome) -> LocalsOutcome {
    match o {
        LocalsOutcome::Locals(r) => LocalsOutcome::Locals(prefix + r),
        _ => o,
    }
}

/// Reading `k` groups of locals from `pos` in `data`: each group is a count
/// and a type; reading stops at the first group that cannot be read or whose
/// type is no value type.
pub open spec fn decode_groups(data: Seq<u8>, pos: int, k: nat) -> LocalsOutcome
    decreases k,
{
    if k == 0 {
        LocalsOutcome::Locals(Seq::empty())
    } else if !(0 <= pos <= data.len()) {
        LocalsOutcome::ParseError
    } else {
        match leb_u32(data.subrange(pos, data.len() as int)) {
            None => LocalsOutcome::ParseError,
            Some((n, used)) => {
                let p1 = pos + used;
                if !(0 <= p1 <= data.len()) {
                    LocalsOutcome::ParseError
                } else {
                    match type_code(data.subrange(p1, data.len() as int)) {
                        None => LocalsOutcome::ParseError,
                        Some(code) => match val_type_of(code) {
                            None => LocalsOutcome::Unsupported(code),
                            Some(t) => after(
                                seq![(n, t)],
                                decode_groups(data, p1 + 1, (k - 1) as nat),
                            ),
                        },
                    }
                }
            },
        }
    }
}

/// The locals of a function body `data`: the number of groups, then the
/// groups. `None` where the number of groups cannot be read.
pub open spec fn spec_read_locals(data: Seq<u8>) -> Option<LocalsOutcome> {
    match leb_u32(data) {
        None => None,
        Some((count, used)) => Some(decode_groups(data, used as int, count as nat)),
    }
}

/// Whether an exec result of [`read_locals`] is the model's outcome.
pub open spec fn locals_match(r: Result<Vec<(u32, ValType)>, Error>, o: LocalsOutcome) -> bool {
    match (r, o) {
        (Ok(v), LocalsOutcome::Locals(s)) => v@ == s,
        (Err(Error::Parse { .. }), LocalsOutcome::ParseError) => true,
        (Err(e), LocalsOutcome::Unsupported(c)) => e == Error::UnsupportedType(
            EitherType::ValueType(c),
        ),
        _ => false,
    }
}

proof fn lemma_after_push(v: Seq<(u32, ValType)>, x: (u32, ValType), o: LocalsOutcome)
    ensures
        after(v, after(seq![x], o)) == after(v.push(x), o),
{
    if let LocalsOutcome::Locals(r) = o {
        assert(v + (seq![x] + r) =~= v.push(x) + r);
    }
}

/// Reads the local declarations at the start of the function body `body`,
/// which stands at offset `body_offset` of the binary: `None` where the
/// number of groups cannot be read; otherwise the groups of locals, or the
/// error of the first group that cannot be read or whose type is no value
/// type.
pub fn read_locals(body: &[u8], body_offset: usize) -> (r: Option<Result<Vec<(u32, ValType)>, Error>>)
    requires
        body_offset + body@.len() <= usize::MAX,
    ensures
        r is None <==> spec_read_locals(body@) is None,
        r matches Some(res) ==> spec_read_locals(body@) matches Some(o)
            && locals_match(res, o),
{
    let (count, used) = match read_var_u32(body, body_offset) {
        Ok(v) => v,
        Err(_) => {
            return None;
        },
    };
    let ghost data = body@;
    let mut pos: usize = used;
    let mut locals: Vec<(u32, ValType)> = Vec::new();
    let mut k: u32 = 0;
    assert(locals@ =~= Seq::<(u32, ValType)>::empty());
    proof {
        lemma_leb_u32_used(data);
    }
    assert(after(locals@, decode_groups(data, pos as int, (count - k) as nat)) == decode_groups(
        data,
        used as int,
        count as nat,
    )) by {
        if let LocalsOutcome::Locals(r) = decode_groups(data, pos as int, count as nat) {
            assert(locals@ + r =~= r);
        }
    }
    while k < count
        invariant
            body@ == data,
            body_offset + body@.len() <= usize::MAX,
            leb_u32(data) == Some((count, used)),
            k <= count,
            pos <= body@.len(),
            after(locals@, decode_groups(data, pos as int, (count - k) as nat))
                == decode_groups(data, used as int, count as nat),
        decreases count - k,
    {
        let rest = vstd::slice::slice_subrange(body, pos, body.len());
        let (n, used1) = match read_var_u32(rest, body_offset + pos) {
            Ok(v) => v,
            Err(e) => {
                let (message, offset) = reader_error(e);
                return Some(Err(Error::Parse { message, offset }));
            },
        };
        proof {
            lemma_leb_u32_used(rest@);
        }
        let p1 = pos + used1;
        let rest2 = vstd::slice::slice_subrange(body, p1, body.len());
        let (code, used2) = match read_type(rest2, body_offset + p1) {
            Ok(v) => v,
            Err(e) => {
                let (message, offset) = reader_error(e);
                return Some(Err(Error::Parse { message, offset }));
            },
        };
        let t = match val_type_from(code) {
            Some(t) => t,
            None => {
                return Some(Err(Error::UnsupportedType(EitherType::ValueType(code))));
            },
        };
        proof {
            lemma_after_push(locals@, (n, t), decode_groups(data, (p1 + used2) as int, (count - k - 1) as nat));
        }
        locals.push((n, t));
        pos = p1 + used2;
        k = k + 1;
    }
    Some(Ok(locals))
}

} // verus!
