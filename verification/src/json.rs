//! Parser for the JSON subset the authentication exchange speaks.
//!
//! The response payload is a two-level JSON object: top-level fields are
//! strings, unsigned integers, booleans, `null`, or one nested object of
//! such scalars. The parser works on raw bytes and accepts the fields in any
//! order, with arbitrary interstitial whitespace; strings are taken verbatim
//! (escape sequences are rejected, as are deeper nesting and arrays — such
//! input counts as a failed decode). Every executable function returns
//! exactly what the corresponding specification-level parse denotes.

use vstd::prelude::*;

verus! {

/// A scalar JSON value: `null`, a boolean, an unsigned integer, or a string
/// of raw bytes.
pub enum Scalar {
    Null,
    Bool(bool),
    UInt(u64),
    Text(Vec<u8>),
}

/// A top-level field's value: a scalar, or one nested object of scalars.
pub enum FieldValue {
    Prim(Scalar),
    Obj(Vec<(Vec<u8>, Scalar)>),
}

/// Mathematical image of `Scalar`.
pub enum ScalarV {
    Null,
    Bool(bool),
    UInt(u64),
    Text(Seq<u8>),
}

/// Mathematical image of `FieldValue`.
pub enum FieldValueV {
    Prim(ScalarV),
    Obj(Seq<(Seq<u8>, ScalarV)>),
}

impl View for Scalar {
    type V = ScalarV;

    open spec fn view(&self) -> ScalarV {
        match self {
            Scalar::Null => ScalarV::Null,
            Scalar::Bool(b) => ScalarV::Bool(*b),
            Scalar::UInt(n) => ScalarV::UInt(*n),
            Scalar::Text(t) => ScalarV::Text(t@),
        }
    }
}

/// The image of a list of scalar fields.
pub open spec fn fields_view(s: Seq<(Vec<u8>, Scalar)>) -> Seq<(Seq<u8>, ScalarV)> {
    Seq::new(s.len(), |i: int| (s[i].0@, s[i].1@))
}

impl View for FieldValue {
    type V = FieldValueV;

    open spec fn view(&self) -> FieldValueV {
        match self {
            FieldValue::Prim(v) => FieldValueV::Prim(v@),
            FieldValue::Obj(fields) => FieldValueV::Obj(fields_view(fields@)),
        }
    }
}

/// The image of a whole top-level object.
pub open spec fn obj_view(s: Seq<(Vec<u8>, FieldValue)>) -> Seq<(Seq<u8>, FieldValueV)> {
    Seq::new(s.len(), |i: int| (s[i].0@, s[i].1@))
}

/// JSON interstitial whitespace: space, tab, line feed, carriage return.
pub open spec fn is_ws(b: u8) -> bool {
    b == 32 || b == 9 || b == 10 || b == 13
}

/// An ASCII decimal digit.
pub open spec fn is_digit(b: u8) -> bool {
    48 <= b <= 57
}

/// First position at or after `i` holding no whitespace.
pub open spec fn spec_ws(s: Seq<u8>, i: int) -> int
    decreases s.len() - i,
{
    if 0 <= i < s.len() && is_ws(s[i]) {
        spec_ws(s, i + 1)
    } else {
        i
    }
}

/// The remainder of a string token starting inside the quotes at `j`: its
/// bytes up to the closing quote, and the position after that quote. Escape
/// sequences, control bytes and unterminated strings yield no parse.
pub open spec fn spec_str_body(s: Seq<u8>, j: int) -> Option<(Seq<u8>, int)>
    decreases s.len() - j,
{
    if !(0 <= j < s.len()) {
        None
    } else if s[j] == 34 {
        Some((Seq::empty(), j + 1))
    } else if s[j] == 92 || s[j] < 32 {
        None
    } else {
        match spec_str_body(s, j + 1) {
            Some((t, k)) => Some((t.insert(0, s[j]), k)),
            None => None,
        }
    }
}

/// A run of digits folded onto `acc` in base ten; no parse when the value
/// would not fit in 64 bits.
pub open spec fn spec_digits(s: Seq<u8>, i: int, acc: u64) -> Option<(u64, int)>
    decreases s.len() - i,
{
    if !(0 <= i < s.len()) || !is_digit(s[i]) {
        Some((acc, i))
    } else if acc * 10 + (s[i] - 48) > u64::MAX {
        None
    } else {
        spec_digits(s, i + 1, (acc * 10 + (s[i] - 48)) as u64)
    }
}

/// A scalar value starting at `i`: a string, a nonnegative integer (no
/// leading zeros), `null`, `true` or `false`.
pub open spec fn spec_scalar(s: Seq<u8>, i: int) -> Option<(ScalarV, int)> {
    if !(0 <= i < s.len()) {
        None
    } else if s[i] == 34 {
        match spec_str_body(s, i + 1) {
            Some((t, j)) => Some((ScalarV::Text(t), j)),
            None => None,
        }
    } else if is_digit(s[i]) {
        if s[i] == 48 {
            Some((ScalarV::UInt(0), i + 1))
        } else {
            match spec_digits(s, i, 0) {
                Some((n, j)) => Some((ScalarV::UInt(n), j)),
                None => None,
            }
        }
    } else if s[i] == 110 {
        if s.len() - i >= 4 && s[i + 1] == 117 && s[i + 2] == 108 && s[i + 3] == 108 {
            Some((ScalarV::Null, i + 4))
        } else {
            None
        }
    } else if s[i] == 116 {
        if s.len() - i >= 4 && s[i + 1] == 114 && s[i + 2] == 117 && s[i + 3] == 101 {
            Some((ScalarV::Bool(true), i + 4))
        } else {
            None
        }
    } else if s[i] == 102 {
        if s.len() - i >= 5 && s[i + 1] == 97 && s[i + 2] == 108 && s[i + 3] == 115 && s[i + 4]
            == 101 {
            Some((ScalarV::Bool(false), i + 5))
        } else {
            None
        }
    } else {
        None
    }
}

/// The members of an object of scalars, starting at the first key's opening
/// quote, up to and including the closing brace.
pub open spec fn spec_inner_members(s: Seq<u8>, i: int) -> Option<(Seq<(Seq<u8>, ScalarV)>, int)>
    decreases s.len() - i,
{
    if !(0 <= i < s.len() && s[i] == 34) {
        None
    } else {
        match spec_str_body(s, i + 1) {
            None => None,
            Some((key, j1)) => {
                let j2 = spec_ws(s, j1);
                if !(0 <= j2 < s.len() && s[j2] == 58) {
                    None
                } else {
                    match spec_scalar(s, spec_ws(s, j2 + 1)) {
                        None => None,
                        Some((v, j4)) => {
                            let j5 = spec_ws(s, j4);
                            if !(0 <= j5 < s.len()) {
                                None
                            } else if s[j5] == 125 {
                                Some((seq![(key, v)], j5 + 1))
                            } else if s[j5] == 44 {
                                let j6 = spec_ws(s, j5 + 1);
                                // conservative progress check; a sub-parse
                                // only ever moves forward
                                if !(i < j6 <= s.len()) {
                                    None
                                } else {
                                    match spec_inner_members(s, j6) {
                                        None => None,
                                        Some((rest, j7)) => Some((rest.insert(0, (key, v)), j7)),
                                    }
                                }
                            } else {
                                None
                            }
                        },
                    }
                }
            },
        }
    }
}

/// An object of scalars, starting at its opening brace.
pub open spec fn spec_inner_obj(s: Seq<u8>, i: int) -> Option<(Seq<(Seq<u8>, ScalarV)>, int)> {
    if !(0 <= i < s.len() && s[i] == 123) {
        None
    } else {
        let j = spec_ws(s, i + 1);
        if 0 <= j < s.len() && s[j] == 125 {
            Some((Seq::empty(), j + 1))
        } else {
            spec_inner_members(s, j)
        }
    }
}

/// A top-level field's value: a nested object if a brace follows, otherwise
/// a scalar.
pub open spec fn spec_field_value(s: Seq<u8>, i: int) -> Option<(FieldValueV, int)> {
    if 0 <= i < s.len() && s[i] == 123 {
        match spec_inner_obj(s, i) {
            Some((fields, j)) => Some((FieldValueV::Obj(fields), j)),
            None => None,
        }
    } else {
        match spec_scalar(s, i) {
            Some((v, j)) => Some((FieldValueV::Prim(v), j)),
            None => None,
        }
    }
}

/// The members of the top-level object, starting at the first key's opening
/// quote, up to and including the closing brace.
pub open spec fn spec_top_members(s: Seq<u8>, i: int) -> Option<(Seq<(Seq<u8>, FieldValueV)>, int)>
    decreases s.len() - i,
{
    if !(0 <= i < s.len() && s[i] == 34) {
        None
    } else {
        match spec_str_body(s, i + 1) {
            None => None,
            Some((key, j1)) => {
                let j2 = spec_ws(s, j1);
                if !(0 <= j2 < s.len() && s[j2] == 58) {
                    None
                } else {
                    match spec_field_value(s, spec_ws(s, j2 + 1)) {
                        None => None,
                        Some((v, j4)) => {
                            let j5 = spec_ws(s, j4);
                            if !(0 <= j5 < s.len()) {
                                None
                            } else if s[j5] == 125 {
                                Some((seq![(key, v)], j5 + 1))
                            } else if s[j5] == 44 {
                                let j6 = spec_ws(s, j5 + 1);
                                // conservative progress check; a sub-parse
                                // only ever moves forward
                                if !(i < j6 <= s.len()) {
                                    None
                                } else {
                                    match spec_top_members(s, j6) {
                                        None => None,
                                        Some((rest, j7)) => Some((rest.insert(0, (key, v)), j7)),
                                    }
                                }
                            } else {
                                None
                            }
                        },
                    }
                }
            },
        }
    }
}

/// A whole document: one top-level object, nothing but whitespace around it.
pub open spec fn spec_document(s: Seq<u8>) -> Option<Seq<(Seq<u8>, FieldValueV)>> {
    let i = spec_ws(s, 0);
    if !(0 <= i < s.len() && s[i] == 123) {
        None
    } else {
        let j = spec_ws(s, i + 1);
        let body = if 0 <= j < s.len() && s[j] == 125 {
            Some((Seq::<(Seq<u8>, FieldValueV)>::empty(), j + 1))
        } else {
            spec_top_members(s, j)
        };
        match body {
            Some((obj, k)) => {
                if spec_ws(s, k) == s.len() {
                    Some(obj)
                } else {
                    None
                }
            },
            None => None,
        }
    }
}

/// The value of the first field named `key`, if any.
pub open spec fn spec_lookup_field_from(
    fields: Seq<(Seq<u8>, FieldValueV)>,
    key: Seq<u8>,
    k: int,
) -> Option<FieldValueV>
    decreases fields.len() - k,
{
    if !(0 <= k < fields.len()) {
        None
    } else if fields[k].0 == key {
        Some(fields[k].1)
    } else {
        spec_lookup_field_from(fields, key, k + 1)
    }
}

/// The value of the first field named `key` in a top-level object.
pub open spec fn spec_lookup_field(fields: Seq<(Seq<u8>, FieldValueV)>, key: Seq<u8>) -> Option<
    FieldValueV,
> {
    spec_lookup_field_from(fields, key, 0)
}

/// The value of the first field named `key`, if any, among scalar fields.
pub open spec fn spec_lookup_scalar_from(
    fields: Seq<(Seq<u8>, ScalarV)>,
    key: Seq<u8>,
    k: int,
) -> Option<ScalarV>
    decreases fields.len() - k,
{
    if !(0 <= k < fields.len()) {
        None
    } else if fields[k].0 == key {
        Some(fields[k].1)
    } else {
        spec_lookup_scalar_from(fields, key, k + 1)
    }
}

/// The value of the first field named `key` in a nested object.
pub open spec fn spec_lookup_scalar(fields: Seq<(Seq<u8>, ScalarV)>, key: Seq<u8>) -> Option<
    ScalarV,
> {
    spec_lookup_scalar_from(fields, key, 0)
}

/// A fresh byte vector with the same contents.
pub fn bytes_copy(a: &Vec<u8>) -> (r: Vec<u8>)
    ensures
        r@ == a@,
{
    let mut r: Vec<u8> = Vec::new();
    let mut k: usize = 0;
    while k < a.len()
        invariant
            k <= a@.len(),
            r@ == a@.take(k as int),
        decreases a@.len() - k,
    {
        r.push(a[k]);
        k = k + 1;
        proof {
            assert(r@ =~= a@.take(k as int));
        }
    }
    proof {
        assert(a@.take(a@.len() as int) =~= a@);
    }
    r
}

/// Byte-wise equality of two byte vectors.
pub fn bytes_eq(a: &Vec<u8>, b: &Vec<u8>) -> (r: bool)
    ensures
        r == (a@ == b@),
{
    if a.len() != b.len() {
        return false;
    }
    let mut k: usize = 0;
    while k < a.len()
        invariant
            k <= a@.len(),
            a@.len() == b@.len(),
            forall|i: int| 0 <= i < k ==> a@[i] == b@[i],
        decreases a@.len() - k,
    {
        if a[k] != b[k] {
            return false;
        }
        k = k + 1;
    }
    proof {
        assert(a@ =~= b@);
    }
    true
}

/// First position at or after `i` holding no whitespace.
pub fn p_ws(s: &Vec<u8>, i: usize) -> (r: usize)
    requires
        i <= s.len(),
    ensures
        r as int == spec_ws(s@, i as int),
        i <= r <= s@.len(),
    decreases s@.len() - i,
{
    if i < s.len() && (s[i] == 32 || s[i] == 9 || s[i] == 10 || s[i] == 13) {
        p_ws(s, i + 1)
    } else {
        i
    }
}

/// The remainder of a string token starting inside the quotes at `j`.
pub fn p_str_body(s: &Vec<u8>, j: usize) -> (r: Option<(Vec<u8>, usize)>)
    requires
        j <= s.len(),
    ensures
        match r {
            Some((t, k)) => spec_str_body(s@, j as int) == Some((t@, k as int)) && k <= s@.len(),
            None => spec_str_body(s@, j as int) is None,
        },
    decreases s@.len() - j,
{
    if j >= s.len() {
        None
    } else {
        let b = s[j];
        if b == 34 {
            Some((Vec::new(), j + 1))
        } else if b == 92 || b < 32 {
            None
        } else {
            match p_str_body(s, j + 1) {
                Some((t, k)) => {
                    let mut t = t;
                    t.insert(0, b);
                    Some((t, k))
                },
                None => None,
            }
        }
    }
}

/// A run of digits folded onto `acc` in base ten.
pub fn p_digits(s: &Vec<u8>, i: usize, acc: u64) -> (r: Option<(u64, usize)>)
    requires
        i <= s.len(),
    ensures
        match r {
            Some((n, j)) => spec_digits(s@, i as int, acc) == Some((n, j as int)) && j <= s@.len(),
            None => spec_digits(s@, i as int, acc) is None,
        },
    decreases s@.len() - i,
{
    if i < s.len() && 48 <= s[i] && s[i] <= 57 {
        let d = (s[i] - 48) as u64;
        match acc.checked_mul(10) {
            Some(m) => match m.checked_add(d) {
                Some(v) => p_digits(s, i + 1, v),
                None => None,
            },
            None => None,
        }
    } else {
        Some((acc, i))
    }
}

/// A scalar value starting at `i`.
pub fn p_scalar(s: &Vec<u8>, i: usize) -> (r: Option<(Scalar, usize)>)
    requires
        i <= s.len(),
    ensures
        match r {
            Some((v, j)) => spec_scalar(s@, i as int) == Some((v@, j as int)) && j <= s@.len(),
            None => spec_scalar(s@, i as int) is None,
        },
{
    if i >= s.len() {
        None
    } else {
        let b = s[i];
        if b == 34 {
            match p_str_body(s, i + 1) {
                Some((t, j)) => Some((Scalar::Text(t), j)),
                None => None,
            }
        } else if 48 <= b && b <= 57 {
            if b == 48 {
                Some((Scalar::UInt(0), i + 1))
            } else {
                match p_digits(s, i, 0) {
                    Some((n, j)) => Some((Scalar::UInt(n), j)),
                    None => None,
                }
            }
        } else if b == 110 {
            if s.len() - i >= 4 && s[i + 1] == 117 && s[i + 2] == 108 && s[i + 3] == 108 {
                Some((Scalar::Null, i + 4))
            } else {
                None
            }
        } else if b == 116 {
            if s.len() - i >= 4 && s[i + 1] == 114 && s[i + 2] == 117 && s[i + 3] == 101 {
                Some((Scalar::Bool(true), i + 4))
            } else {
                None
            }
        } else if b == 102 {
            if s.len() - i >= 5 && s[i + 1] == 97 && s[i + 2] == 108 && s[i + 3] == 115 && s[i + 4]
                == 101 {
                Some((Scalar::Bool(false), i + 5))
            } else {
                None
            }
        } else {
            None
        }
    }
}

/// The members of an object of scalars, from the first key's opening quote.
pub fn p_inner_members(s: &Vec<u8>, i: usize) -> (r: Option<(Vec<(Vec<u8>, Scalar)>, usize)>)
    requires
        i <= s.len(),
    ensures
        match r {
            Some((fields, j)) => spec_inner_members(s@, i as int) == Some(
                (fields_view(fields@), j as int),
            ) && j <= s@.len(),
            None => spec_inner_members(s@, i as int) is None,
        },
    decreases s@.len() - i,
{
    if !(i < s.len() && s[i] == 34) {
        return None;
    }
    match p_str_body(s, i + 1) {
        None => None,
        Some((key, j1)) => {
            let j2 = p_ws(s, j1);
            if !(j2 < s.len() && s[j2] == 58) {
                return None;
            }
            let j3 = p_ws(s, j2 + 1);
            match p_scalar(s, j3) {
                None => None,
                Some((v, j4)) => {
                    let j5 = p_ws(s, j4);
                    if j5 >= s.len() {
                        None
                    } else if s[j5] == 125 {
                        let mut fields: Vec<(Vec<u8>, Scalar)> = Vec::new();
                        fields.push((key, v));
                        proof {
                            assert(fields_view(fields@) =~= seq![(fields@[0].0@, fields@[0].1@)]);
                        }
                        Some((fields, j5 + 1))
                    } else if s[j5] == 44 {
                        let j6 = p_ws(s, j5 + 1);
                        if !(i < j6) {
                            return None;
                        }
                        match p_inner_members(s, j6) {
                            None => None,
                            Some((rest, j7)) => {
                                let ghost old_rest = rest@;
                                let mut rest = rest;
                                rest.insert(0, (key, v));
                                proof {
                                    assert(fields_view(rest@) =~= fields_view(old_rest).insert(
                                        0,
                                        (key@, v@),
                                    ));
                                }
                                Some((rest, j7))
                            },
                        }
                    } else {
                        None
                    }
                },
            }
        },
    }
}

/// An object of scalars, starting at its opening brace.
pub fn p_inner_obj(s: &Vec<u8>, i: usize) -> (r: Option<(Vec<(Vec<u8>, Scalar)>, usize)>)
    requires
        i <= s.len(),
    ensures
        match r {
            Some((fields, j)) => spec_inner_obj(s@, i as int) == Some(
                (fields_view(fields@), j as int),
            ) && j <= s@.len(),
            None => spec_inner_obj(s@, i as int) is None,
        },
{
    if !(i < s.len() && s[i] == 123) {
        return None;
    }
    let j = p_ws(s, i + 1);
    if j < s.len() && s[j] == 125 {
        let fields: Vec<(Vec<u8>, Scalar)> = Vec::new();
        proof {
            assert(fields_view(fields@) =~= Seq::<(Seq<u8>, ScalarV)>::empty());
        }
        Some((fields, j + 1))
    } else {
        p_inner_members(s, j)
    }
}

/// A top-level field's value: nested object or scalar.
pub fn p_field_value(s: &Vec<u8>, i: usize) -> (r: Option<(FieldValue, usize)>)
    requires
        i <= s.len(),
    ensures
        match r {
            Some((v, j)) => spec_field_value(s@, i as int) == Some((v@, j as int)) && j <= s@.len(),
            None => spec_field_value(s@, i as int) is None,
        },
{
    if i < s.len() && s[i] == 123 {
        match p_inner_obj(s, i) {
            Some((fields, j)) => Some((FieldValue::Obj(fields), j)),
            None => None,
        }
    } else {
        match p_scalar(s, i) {
            Some((v, j)) => Some((FieldValue::Prim(v), j)),
            None => None,
        }
    }
}

/// The members of the top-level object, from the first key's opening quote.
pub fn p_top_members(s: &Vec<u8>, i: usize) -> (r: Option<(Vec<(Vec<u8>, FieldValue)>, usize)>)
    requires
        i <= s.len(),
    ensures
        match r {
            Some((fields, j)) => spec_top_members(s@, i as int) == Some(
                (obj_view(fields@), j as int),
            ) && j <= s@.len(),
            None => spec_top_members(s@, i as int) is None,
        },
    decreases s@.len() - i,
{
    if !(i < s.len() && s[i] == 34) {
        return None;
    }
    match p_str_body(s, i + 1) {
        None => None,
        Some((key, j1)) => {
            let j2 = p_ws(s, j1);
            if !(j2 < s.len() && s[j2] == 58) {
                return None;
            }
            let j3 = p_ws(s, j2 + 1);
            match p_field_value(s, j3) {
                None => None,
                Some((v, j4)) => {
                    let j5 = p_ws(s, j4);
                    if j5 >= s.len() {
                        None
                    } else if s[j5] == 125 {
                        let mut fields: Vec<(Vec<u8>, FieldValue)> = Vec::new();
                        fields.push((key, v));
                        proof {
                            assert(obj_view(fields@) =~= seq![(fields@[0].0@, fields@[0].1@)]);
                        }
                        Some((fields, j5 + 1))
                    } else if s[j5] == 44 {
                        let j6 = p_ws(s, j5 + 1);
                        if !(i < j6) {
                            return None;
                        }
                        match p_top_members(s, j6) {
                            None => None,
                            Some((rest, j7)) => {
                                let ghost old_rest = rest@;
                                let mut rest = rest;
                                rest.insert(0, (key, v));
                                proof {
                                    assert(obj_view(rest@) =~= obj_view(old_rest).insert(
                                        0,
                                        (key@, v@),
                                    ));
                                }
                                Some((rest, j7))
                            },
                        }
                    } else {
                        None
                    }
                },
            }
        },
    }
}

/// Parse a whole document: one top-level object with nothing but whitespace
/// around it. Returns exactly the fields the document denotes, in document
/// order, or nothing when the input is not in the accepted subset.
pub fn parse_document(s: &Vec<u8>) -> (r: Option<Vec<(Vec<u8>, FieldValue)>>)
    ensures
        match r {
            Some(fields) => spec_document(s@) == Some(obj_view(fields@)),
            None => spec_document(s@) is None,
        },
{
    let i = p_ws(s, 0);
    if !(i < s.len() && s[i] == 123) {
        return None;
    }
    let j = p_ws(s, i + 1);
    let body: Option<(Vec<(Vec<u8>, FieldValue)>, usize)> = if j < s.len() && s[j] == 125 {
        let fields: Vec<(Vec<u8>, FieldValue)> = Vec::new();
        proof {
            assert(obj_view(fields@) =~= Seq::<(Seq<u8>, FieldValueV)>::empty());
        }
        Some((fields, j + 1))
    } else {
        p_top_members(s, j)
    };
    match body {
        Some((fields, k)) => {
            if p_ws(s, k) == s.len() {
                Some(fields)
            } else {
                None
            }
        },
        None => None,
    }
}

/// The value of the first top-level field named `key`, if any.
pub fn lookup_field<'a>(
    fields: &'a Vec<(Vec<u8>, FieldValue)>,
    key: &Vec<u8>,
    k: usize,
) -> (r: Option<&'a FieldValue>)
    requires
        k <= fields.len(),
    ensures
        match r {
            Some(v) => spec_lookup_field_from(obj_view(fields@), key@, k as int) == Some(v@),
            None => spec_lookup_field_from(obj_view(fields@), key@, k as int) is None,
        },
    decreases fields.len() - k,
{
    if k >= fields.len() {
        None
    } else if bytes_eq(&fields[k].0, key) {
        Some(&fields[k].1)
    } else {
        lookup_field(fields, key, k + 1)
    }
}

/// The value of the first field named `key` in a nested object, if any.
pub fn lookup_scalar<'a>(fields: &'a Vec<(Vec<u8>, Scalar)>, key: &Vec<u8>, k: usize) -> (r: Option<
    &'a Scalar,
>)
    requires
        k <= fields.len(),
    ensures
        match r {
            Some(v) => spec_lookup_scalar_from(fields_view(fields@), key@, k as int) == Some(v@),
            None => spec_lookup_scalar_from(fields_view(fields@), key@, k as int) is None,
        },
    decreases fields.len() - k,
{
    if k >= fields.len() {
        None
    } else if bytes_eq(&fields[k].0, key) {
        Some(&fields[k].1)
    } else {
        lookup_scalar(fields, key, k + 1)
    }
}

} // verus!
