//! Properties of parsing that hold of every document.
use crate::field::{lemma_rank, Field, FieldKind};
use crate::json::{find_from, json_members, member, JsonValue};
use crate::overview::{coerce, field_result, FieldValue, ok_before, parsed_as, parses_to, Overview, OverviewError};
use vstd::prelude::*;
use vstd::utf8::encode_utf8;

verus! {

/// The members `m` with every member whose key is `k` taken out.
pub open spec fn without_key(m: Seq<(String, JsonValue)>, k: Seq<char>) -> Seq<(String, JsonValue)>
    decreases m.len(),
{
    if m.len() == 0 {
        m
    } else {
        let rest = without_key(m.drop_first(), k);
        if m[0].0@ == k {
            rest
        } else {
            seq![m[0]] + rest
        }
    }
}

proof fn lemma_find_shift(m: Seq<(String, JsonValue)>, key: Seq<char>, i: int)
    requires
        0 <= i,
        m.len() > 0,
    ensures
        find_from(m, key, i + 1) == find_from(m.drop_first(), key, i),
    decreases m.len() - i,
{
    if i + 1 < m.len() {
        lemma_find_shift(m, key, i + 1);
    }
}

proof fn lemma_member_without(m: Seq<(String, JsonValue)>, k: Seq<char>, key: Seq<char>)
    ensures
        member(without_key(m, k), key) == if key == k {
            None
        } else {
            member(m, key)
        },
    decreases m.len(),
{
    if m.len() > 0 {
        let rest = without_key(m.drop_first(), k);
        lemma_member_without(m.drop_first(), k, key);
        lemma_find_shift(m, key, 0);
        if m[0].0@ != k {
            let w = seq![m[0]] + rest;
            assert(w.drop_first() =~= rest);
            lemma_find_shift(w, key, 0);
        }
    }
}

/// Parsing is a function of the bytes: two outcomes of parsing the same
/// bytes either are both errors for malformed input, or agree on success,
/// on every field of the record, and on the error.
pub proof fn lemma_parse_deterministic(
    b: Seq<u8>,
    r1: Result<Overview, OverviewError>,
    r2: Result<Overview, OverviewError>,
)
    requires
        parses_to(b, r1),
        parses_to(b, r2),
    ensures
        r1 is Ok <==> r2 is Ok,
        r1 is Ok ==> forall|f: Field| #[trigger] r1->Ok_0.cell(f) == r2->Ok_0.cell(f),
        json_members(b) is Some && r1 is Err ==> r1 == r2,
        json_members(b) is None ==> (r1 matches Err(OverviewError::Malformed { .. })),
        json_members(b) is None ==> (r2 matches Err(OverviewError::Malformed { .. })),
{
    if let Some(m) = json_members(b) {
        match (r1, r2) {
            (Ok(o1), Ok(o2)) => {
                assert forall|f: Field| #[trigger] o1.cell(f) == o2.cell(f) by {
                    assert(field_result(m, f) == Ok::<FieldValue, OverviewError>(o1.cell(f)));
                }
            },
            (Ok(o1), Err(e2)) => {
                let g = choose|g: Field| #[trigger] field_result(m, g) == Err::<FieldValue, OverviewError>(e2);
                assert(field_result(m, g) == Ok::<FieldValue, OverviewError>(o1.cell(g)));
            },
            (Err(e1), Ok(o2)) => {
                let g = choose|g: Field| #[trigger] field_result(m, g) == Err::<FieldValue, OverviewError>(e1);
                assert(field_result(m, g) == Ok::<FieldValue, OverviewError>(o2.cell(g)));
            },
            (Err(e1), Err(e2)) => {
                let f1 = choose|f: Field|
                    #[trigger] field_result(m, f) == Err::<FieldValue, OverviewError>(e1) && ok_before(m, f.rank());
                let f2 = choose|f: Field|
                    #[trigger] field_result(m, f) == Err::<FieldValue, OverviewError>(e2) && ok_before(m, f.rank());
                lemma_rank(f1, f2);
                if f1.rank() < f2.rank() {
                    assert(field_result(m, f1) is Ok);
                } else if f2.rank() < f1.rank() {
                    assert(field_result(m, f2) is Ok);
                }
            },
        }
    }
}

/// Taking the key of a field out of a document that parses makes parsing
/// fail, with a missing-field error for a field of that key.
pub proof fn lemma_missing_field(
    m: Seq<(String, JsonValue)>,
    o: Overview,
    f: Field,
    r: Result<Overview, OverviewError>,
)
    requires
        parsed_as(m, Ok(o)),
        parsed_as(without_key(m, f.key_text()), r),
    ensures
        (r matches Err(OverviewError::MissingField { field: g }) && g.key_text() == f.key_text()),
{
    let w = without_key(m, f.key_text());
    lemma_member_without(m, f.key_text(), f.key_text());
    match r {
        Ok(o2) => {
            assert(field_result(w, f) == Ok::<FieldValue, OverviewError>(o2.cell(f)));
        },
        Err(e) => {
            let g = choose|g: Field|
                #[trigger] field_result(w, g) == Err::<FieldValue, OverviewError>(e) && ok_before(w, g.rank());
            lemma_member_without(m, f.key_text(), g.key_text());
            assert(field_result(m, g) == Ok::<FieldValue, OverviewError>(o.cell(g)));
        },
    }
}

/// An unsigned field refuses every text that starts with `-`, with a
/// coercion error that carries the text.
pub proof fn lemma_unsigned_refuses_negative(f: Field, s: String)
    requires
        f.kind_of() == FieldKind::Unsigned || f.kind_of() == FieldKind::Count,
        s@.len() > 0,
        s@[0] == '-',
    ensures
        coerce(f, s) == Err::<FieldValue, OverviewError>(
            OverviewError::Coercion { field: f, text: s },
        ),
{
    let t = encode_utf8(s@);
    let c: u32 = s@[0] as u32;
    assert(c == 45);
    assert(c & 0x7F == 45) by (bit_vector)
        requires
            c == 45,
    ;
    assert(t[0] == 45);
    assert(!crate::number::is_digit(t[0]));
}

} // verus!
