//! Parsers for the payloads that repeat an entry per item: the parameter
//! response and the variable header. Every parser takes the whole payload and
//! a position, and gives back what it read with the position after it.
use vstd::prelude::*;

use crate::dusb::{
    spec_parameter, InvalidParameterPayload, Parameter, ParameterKind, ParameterView,
    UnknownParameterKindError, Variable, VariableAttribute, VariableAttributeKind, VariableView,
};
use crate::error::LinkError;
use crate::util::{be16_at, lossy_text, read_u16_be, utf8_lossy};

verus! {

/// The length of a parameter whose length field holds `0`: a full colour
/// screen does not fit the 16-bit field.
pub const OVERSIZED_PARAMETER: u32 = 153600;

/// The length that a parameter's length field declares.
pub open spec fn spec_declared_size(raw: u16) -> u32 {
    if raw == 0 {
        OVERSIZED_PARAMETER
    } else {
        raw as u32
    }
}

/// `acc` put in front of what `r` holds, or the error of `r`.
pub open spec fn prepend<T>(acc: Seq<T>, r: Result<Seq<T>, LinkError>) -> Result<
    Seq<T>,
    LinkError,
> {
    match r {
        Ok(s) => Ok(acc + s),
        Err(e) => Err(e),
    }
}

/// The item that an entry adds: none for an entry marked absent.
pub open spec fn opt_seq<T>(o: Option<T>) -> Seq<T> {
    match o {
        Some(v) => seq![v],
        None => Seq::empty(),
    }
}

pub open spec fn parameter_views(s: Seq<Parameter>) -> Seq<ParameterView> {
    s.map_values(|x: Parameter| x@)
}

pub open spec fn opt_parameter_view(o: Option<Parameter>) -> Option<ParameterView> {
    match o {
        Some(x) => Some(x@),
        None => None,
    }
}

/// One parameter entry at `pos`: `id:u16, validity:u8`, and when the validity
/// byte is `0` also `length:u16` and the payload. An entry with another
/// validity byte stops after that byte and yields nothing.
pub open spec fn spec_parameter_entry(p: Seq<u8>, pos: int) -> Result<
    (Option<ParameterView>, int),
    LinkError,
> {
    if pos + 3 > p.len() {
        Err(LinkError::TruncatedPayload)
    } else if p[pos + 2] != 0 {
        Ok((None, pos + 3))
    } else if pos + 5 > p.len() {
        Err(LinkError::TruncatedPayload)
    } else {
        let id = be16_at(p, pos);
        let start = pos + 5;
        let end = start + spec_declared_size(be16_at(p, pos + 3));
        if end > p.len() {
            Err(LinkError::TruncatedPayload)
        } else {
            match ParameterKind::spec_from_id(id) {
                None => Err(LinkError::UnknownParameterKind(UnknownParameterKindError(id))),
                Some(k) => match spec_parameter(k, p.subrange(start, end)) {
                    None => Err(LinkError::InvalidParameterPayload(InvalidParameterPayload)),
                    Some(v) => Ok((Some(v), end)),
                },
            }
        }
    }
}

/// `n` parameter entries from `pos` on.
pub open spec fn spec_parameter_entries(p: Seq<u8>, pos: int, n: nat) -> Result<
    Seq<ParameterView>,
    LinkError,
>
    decreases n,
{
    if n == 0 {
        Ok(Seq::empty())
    } else {
        match spec_parameter_entry(p, pos) {
            Err(e) => Err(e),
            Ok((o, next)) => prepend(opt_seq(o), spec_parameter_entries(p, next, (n - 1) as nat)),
        }
    }
}

/// A parameter response: `count:u16`, then `count` entries.
pub open spec fn spec_parameter_response(p: Seq<u8>) -> Result<Seq<ParameterView>, LinkError> {
    if p.len() < 2 {
        Err(LinkError::TruncatedPayload)
    } else {
        spec_parameter_entries(p, 2, be16_at(p, 0) as nat)
    }
}

/// Reads a parameter's length field at `pos`.
pub fn parameter_size(input: &[u8], pos: usize) -> (r: Result<(u32, usize), LinkError>)
    ensures
        r == (if pos + 2 <= input@.len() {
            Ok((spec_declared_size(be16_at(input@, pos as int)), (pos + 2) as usize))
        } else {
            Err(LinkError::TruncatedPayload)
        }),
{
    let len = input.len();
    if pos > len || len - pos < 2 {
        return Err(LinkError::TruncatedPayload);
    }
    let raw = read_u16_be(input, pos);
    if raw == 0 {
        Ok((OVERSIZED_PARAMETER, pos + 2))
    } else {
        Ok((raw as u32, pos + 2))
    }
}

/// Reads the parameter entry at `pos`.
pub fn parameter(input: &[u8], pos: usize) -> (r: Result<(Option<Parameter>, usize), LinkError>)
    ensures
        match spec_parameter_entry(input@, pos as int) {
            Ok((o, next)) => r.is_ok() && opt_parameter_view(r.unwrap().0) == o && r.unwrap().1
                == next,
            Err(e) => r == Err::<(Option<Parameter>, usize), LinkError>(e),
        },
{
    let len = input.len();
    if pos > len || len - pos < 3 {
        return Err(LinkError::TruncatedPayload);
    }
    if input[pos + 2] != 0 {
        return Ok((None, pos + 3));
    }
    let id = read_u16_be(input, pos);
    let (size, start) = match parameter_size(input, pos + 3) {
        Ok(v) => v,
        Err(e) => return Err(e),
    };
    if size as usize > len - start {
        return Err(LinkError::TruncatedPayload);
    }
    let end = start + size as usize;
    let kind = match ParameterKind::from_id(id) {
        Some(k) => k,
        None => return Err(LinkError::UnknownParameterKind(UnknownParameterKindError(id))),
    };
    match Parameter::from_payload(kind, &input[start..end]) {
        Ok(v) => Ok((Some(v), end)),
        Err(e) => Err(LinkError::InvalidParameterPayload(e)),
    }
}

/// Reads a whole parameter response. Entries marked absent are left out, so
/// the result may hold fewer parameters than the count says.
pub fn parameter_response(input: &[u8]) -> (r: Result<Vec<Parameter>, LinkError>)
    ensures
        match spec_parameter_response(input@) {
            Ok(s) => r.is_ok() && parameter_views(r.unwrap()@) == s,
            Err(e) => r == Err::<Vec<Parameter>, LinkError>(e),
        },
{
    let len = input.len();
    if len < 2 {
        return Err(LinkError::TruncatedPayload);
    }
    let count = read_u16_be(input, 0);
    let mut params: Vec<Parameter> = Vec::new();
    let mut pos: usize = 2;
    let mut i: u16 = 0;
    while i < count
        invariant
            i <= count,
            count == be16_at(input@, 0),
            input@.len() >= 2,
            spec_parameter_response(input@) == prepend(
                parameter_views(params@),
                spec_parameter_entries(input@, pos as int, (count - i) as nat),
            ),
        decreases count - i,
    {
        let ghost before = params@;
        let (o, next) = match parameter(input, pos) {
            Ok(v) => v,
            Err(e) => {
                return Err(e);
            },
        };
        match o {
            Some(v) => params.push(v),
            None => {},
        }
        proof {
            let rest = spec_parameter_entries(input@, next as int, (count - i - 1) as nat);
            assert(parameter_views(params@) =~= parameter_views(before) + opt_seq(
                opt_parameter_view(o),
            ));
            match rest {
                Ok(s) => {
                    assert(parameter_views(before) + (opt_seq(opt_parameter_view(o)) + s)
                        =~= parameter_views(params@) + s);
                },
                Err(_) => {},
            }
        }
        pos = next;
        i = i + 1;
    }
    proof {
        assert(parameter_views(params@) + Seq::<ParameterView>::empty() =~= parameter_views(
            params@,
        ));
    }
    Ok(params)
}

/// One attribute entry at `pos`: `id:u16, validity:u8`, and when the
/// validity byte is `0` also `length:u16` and the payload. An entry with
/// another validity byte stops after that byte and yields nothing.
pub open spec fn spec_attribute_entry(p: Seq<u8>, pos: int) -> Result<
    (Option<VariableAttribute>, int),
    LinkError,
> {
    if pos + 3 > p.len() {
        Err(LinkError::TruncatedPayload)
    } else if p[pos + 2] != 0 {
        Ok((None, pos + 3))
    } else if pos + 5 > p.len() {
        Err(LinkError::TruncatedPayload)
    } else {
        let id = be16_at(p, pos);
        let start = pos + 5;
        let end = start + be16_at(p, pos + 3);
        if end > p.len() {
            Err(LinkError::TruncatedPayload)
        } else {
            match VariableAttributeKind::spec_from_id(id) {
                None => Err(LinkError::UnknownAttributeKind(id)),
                Some(k) => match VariableAttribute::spec_from_payload(k, p.subrange(start, end)) {
                    None => Err(LinkError::TruncatedPayload),
                    Some(a) => Ok((Some(a), end)),
                },
            }
        }
    }
}

/// `n` attribute entries from `pos` on.
pub open spec fn spec_attribute_entries(p: Seq<u8>, pos: int, n: nat) -> Result<
    Seq<VariableAttribute>,
    LinkError,
>
    decreases n,
{
    if n == 0 {
        Ok(Seq::empty())
    } else {
        match spec_attribute_entry(p, pos) {
            Err(e) => Err(e),
            Ok((o, next)) => prepend(opt_seq(o), spec_attribute_entries(p, next, (n - 1) as nat)),
        }
    }
}

/// A variable header: `name-len:u16`, the name, one separator byte,
/// `count:u16`, then `count` attribute entries.
pub open spec fn spec_variable_header(p: Seq<u8>) -> Result<VariableView, LinkError> {
    if p.len() < 2 {
        Err(LinkError::TruncatedPayload)
    } else {
        let name_end = 2 + be16_at(p, 0);
        if name_end + 3 > p.len() {
            Err(LinkError::TruncatedPayload)
        } else {
            match spec_attribute_entries(p, name_end + 3, be16_at(p, name_end + 1) as nat) {
                Ok(attrs) => Ok(
                    VariableView { name: utf8_lossy(p.subrange(2, name_end)), attributes: attrs },
                ),
                Err(e) => Err(e),
            }
        }
    }
}

/// Reads the attribute entry at `pos`.
pub fn variable_attribute(input: &[u8], pos: usize) -> (r: Result<
    (Option<VariableAttribute>, usize),
    LinkError,
>)
    ensures
        match spec_attribute_entry(input@, pos as int) {
            Ok((o, next)) => r.is_ok() && r.unwrap().0 == o && r.unwrap().1 == next,
            Err(e) => r == Err::<(Option<VariableAttribute>, usize), LinkError>(e),
        },
{
    let len = input.len();
    if pos > len || len - pos < 3 {
        return Err(LinkError::TruncatedPayload);
    }
    if input[pos + 2] != 0 {
        return Ok((None, pos + 3));
    }
    if len - pos < 5 {
        return Err(LinkError::TruncatedPayload);
    }
    let id = read_u16_be(input, pos);
    let size = read_u16_be(input, pos + 3) as usize;
    let start = pos + 5;
    if size > len - start {
        return Err(LinkError::TruncatedPayload);
    }
    let end = start + size;
    let kind = match VariableAttributeKind::from_id(id) {
        Some(k) => k,
        None => return Err(LinkError::UnknownAttributeKind(id)),
    };
    match VariableAttribute::from_payload(kind, &input[start..end]) {
        Ok(a) => Ok((Some(a), end)),
        Err(e) => Err(e),
    }
}

/// Reads a whole variable header. Entries marked absent are left out.
pub fn variable_header(input: &[u8]) -> (r: Result<Variable, LinkError>)
    ensures
        match spec_variable_header(input@) {
            Ok(v) => r.is_ok() && r.unwrap()@ == v,
            Err(e) => r == Err::<Variable, LinkError>(e),
        },
{
    let len = input.len();
    if len < 2 {
        return Err(LinkError::TruncatedPayload);
    }
    let name_len = read_u16_be(input, 0) as usize;
    if name_len > len - 2 || len - 2 - name_len < 3 {
        return Err(LinkError::TruncatedPayload);
    }
    let name_end = 2 + name_len;
    let name = lossy_text(&input[2..name_end]);
    let count = read_u16_be(input, name_end + 1);
    let mut attributes: Vec<VariableAttribute> = Vec::new();
    let mut pos: usize = name_end + 3;
    let mut i: u16 = 0;
    while i < count
        invariant
            i <= count,
            input@.len() >= 2,
            name_end == 2 + be16_at(input@, 0),
            name_end + 3 <= input@.len(),
            count == be16_at(input@, name_end + 1),
            spec_attribute_entries(input@, name_end + 3, count as nat) == prepend(
                attributes@,
                spec_attribute_entries(input@, pos as int, (count - i) as nat),
            ),
        decreases count - i,
    {
        let ghost before = attributes@;
        let (o, next) = match variable_attribute(input, pos) {
            Ok(v) => v,
            Err(e) => {
                return Err(e);
            },
        };
        match o {
            Some(a) => attributes.push(a),
            None => {},
        }
        proof {
            let rest = spec_attribute_entries(input@, next as int, (count - i - 1) as nat);
            assert(attributes@ =~= before + opt_seq(o));
            match rest {
                Ok(s) => {
                    assert(before + (opt_seq(o) + s) =~= attributes@ + s);
                },
                Err(_) => {},
            }
        }
        pos = next;
        i = i + 1;
    }
    proof {
        assert(attributes@ + Seq::<VariableAttribute>::empty() =~= attributes@);
    }
    Ok(Variable { name, attributes })
}

/// `n` parameter ids from `pos` on, each a big-endian `u16`.
pub open spec fn spec_parameter_ids(p: Seq<u8>, pos: int, n: nat) -> Result<
    Seq<ParameterKind>,
    LinkError,
>
    decreases n,
{
    if n == 0 {
        Ok(Seq::empty())
    } else if pos + 2 > p.len() {
        Err(LinkError::TruncatedPayload)
    } else {
        match ParameterKind::spec_from_id(be16_at(p, pos)) {
            None => Err(
                LinkError::UnknownParameterKind(UnknownParameterKindError(be16_at(p, pos))),
            ),
            Some(k) => prepend(seq![k], spec_parameter_ids(p, pos + 2, (n - 1) as nat)),
        }
    }
}

/// A parameter request: `count:u16`, then `count` ids.
pub open spec fn spec_parameter_request(p: Seq<u8>) -> Result<Seq<ParameterKind>, LinkError> {
    if p.len() < 2 {
        Err(LinkError::TruncatedPayload)
    } else {
        spec_parameter_ids(p, 2, be16_at(p, 0) as nat)
    }
}

/// Reads a parameter request.
pub fn parameter_request(input: &[u8]) -> (r: Result<Vec<ParameterKind>, LinkError>)
    ensures
        match spec_parameter_request(input@) {
            Ok(s) => r.is_ok() && r.unwrap()@ == s,
            Err(e) => r == Err::<Vec<ParameterKind>, LinkError>(e),
        },
{
    let len = input.len();
    if len < 2 {
        return Err(LinkError::TruncatedPayload);
    }
    let count = read_u16_be(input, 0);
    let mut ids: Vec<ParameterKind> = Vec::new();
    let mut pos: usize = 2;
    let mut i: u16 = 0;
    while i < count
        invariant
            i <= count,
            count == be16_at(input@, 0),
            input@.len() >= 2,
            len == input@.len(),
            spec_parameter_request(input@) == prepend(
                ids@,
                spec_parameter_ids(input@, pos as int, (count - i) as nat),
            ),
        decreases count - i,
    {
        if pos > len || len - pos < 2 {
            return Err(LinkError::TruncatedPayload);
        }
        let id = read_u16_be(input, pos);
        let kind = match ParameterKind::from_id(id) {
            Some(k) => k,
            None => return Err(LinkError::UnknownParameterKind(UnknownParameterKindError(id))),
        };
        let ghost before = ids@;
        ids.push(kind);
        proof {
            match spec_parameter_ids(input@, pos + 2, (count - i - 1) as nat) {
                Ok(s) => {
                    assert(before + (seq![kind] + s) =~= ids@ + s);
                },
                Err(_) => {},
            }
        }
        pos = pos + 2;
        i = i + 1;
    }
    proof {
        assert(ids@ + Seq::<ParameterKind>::empty() =~= ids@);
    }
    Ok(ids)
}

} // verus!
