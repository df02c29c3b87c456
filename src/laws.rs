use vstd::prelude::*;

use crate::compile::{compiled_from, first_resolution_error, schema_error, CompiledSchema, RecordLayout};
use crate::dispatch::{dispatch, first_tag_match};
use crate::resolve::{
    apply_hint, field_error, field_state, first_field_error, fold_hints, lemma_fold_keeps_span,
    HintState,
};
use crate::schema::{tag_text, FieldDecl, PositionHint, Schema, VariantDecl};
use crate::validate::{declared_tag_len, first_variant_error, variant_error};

verus! {

proof fn lemma_first_field_error_none(fields: Seq<FieldDecl>, v: int, j0: int, j: int)
    requires
        0 <= j0 <= j < fields.len(),
        first_field_error(fields, v, j0) is None,
    ensures
        field_error(fields, v, j) is None,
    decreases j - j0,
{
    if j0 < j {
        lemma_first_field_error_none(fields, v, j0 + 1, j);
    }
}

proof fn lemma_no_field_error(fields: Seq<FieldDecl>, v: int, j0: int)
    requires
        0 <= j0,
        forall|j: int| j0 <= j < fields.len() ==> field_error(fields, v, j) is None,
    ensures
        first_field_error(fields, v, j0) is None,
    decreases fields.len() - j0,
{
    if j0 < fields.len() {
        lemma_no_field_error(fields, v, j0 + 1);
    }
}

proof fn lemma_first_resolution_error_none(vs: Seq<VariantDecl>, i0: int, i: int)
    requires
        0 <= i0 <= i < vs.len(),
        first_resolution_error(vs, i0) is None,
    ensures
        first_field_error(vs[i].fields@, i, 0) is None,
    decreases i - i0,
{
    if i0 < i {
        lemma_first_resolution_error_none(vs, i0 + 1, i);
    }
}

proof fn lemma_no_resolution_error(vs: Seq<VariantDecl>, i0: int)
    requires
        0 <= i0,
        forall|i: int| i0 <= i < vs.len() ==> first_field_error(#[trigger] vs[i].fields@, i, 0) is None,
    ensures
        first_resolution_error(vs, i0) is None,
    decreases vs.len() - i0,
{
    if i0 < vs.len() {
        lemma_no_resolution_error(vs, i0 + 1);
    }
}

proof fn lemma_no_variant_error(vs: Seq<VariantDecl>, i0: int, tag_len: nat)
    requires
        0 <= i0,
        forall|i: int| i0 <= i < vs.len() ==> variant_error(vs, i, tag_len) is None,
    ensures
        first_variant_error(vs, i0, tag_len) is None,
    decreases vs.len() - i0,
{
    if i0 < vs.len() {
        lemma_no_variant_error(vs, i0 + 1, tag_len);
    }
}

/// A schema compiles whenever it is an enum of variants without discriminants,
/// whose tags are literals of one common nonzero length, and whose fields all
/// resolve to a nonzero width.
pub proof fn lemma_consistent_schema_compiles(s: Schema)
    requires
        s.is_enum,
        s.variants.len() > 0,
        tag_text(s.variants[0].tag).len() > 0,
        forall|i: int| 0 <= i < s.variants.len() ==> !(#[trigger] s.variants[i]).has_discriminant,
        forall|i: int| 0 <= i < s.variants.len() ==> (#[trigger] s.variants[i]).tag is Literal,
        forall|i: int| 0 <= i < s.variants.len()
            ==> tag_text((#[trigger] s.variants[i]).tag).len() == tag_text(s.variants[0].tag).len(),
        forall|i: int, j: int| 0 <= i < s.variants.len() && 0 <= j < s.variants[i].fields.len()
            ==> (#[trigger] field_state(s.variants[i].fields@, j) matches Some(st) && st.to != st.from),
    ensures
        schema_error(s) is None,
{
    let vs = s.variants@;
    let tag_len = declared_tag_len(vs);
    assert forall|i: int| 0 <= i < vs.len() implies variant_error(vs, i, tag_len) is None by {
        assert(s.variants[i] == vs[i]);
    }
    lemma_no_variant_error(vs, 0, tag_len);
    assert forall|i: int| 0 <= i < vs.len() implies first_field_error(#[trigger] vs[i].fields@, i, 0) is None by {
        assert forall|j: int| 0 <= j < vs[i].fields@.len() implies field_error(vs[i].fields@, i, j) is None by {
            assert(field_state(s.variants[i].fields@, j) matches Some(st) && st.to != st.from);
        }
        lemma_no_field_error(vs[i].fields@, i, 0);
    }
    lemma_no_resolution_error(vs, 0);
}

/// Every field of a schema that compiles resolves to a range with `from < to`.
pub proof fn lemma_resolved_ranges_nonempty(s: Schema, c: CompiledSchema)
    requires
        schema_error(s) is None,
        compiled_from(s, c),
    ensures
        forall|k: int, j: int| 0 <= k < c.records.len() && 0 <= j < c.records[k].fields.len()
            ==> (#[trigger] c.records[k].fields[j]).from < c.records[k].fields[j].to,
{
    let vs = s.variants@;
    assert forall|k: int, j: int| 0 <= k < c.records.len() && 0 <= j < c.records[k].fields.len()
        implies (#[trigger] c.records[k].fields[j]).from < c.records[k].fields[j].to by {
        let rec: RecordLayout = c.records[k];
        assert(crate::compile::record_resolved(vs, k, rec));
        lemma_first_resolution_error_none(vs, 0, k);
        lemma_first_field_error_none(vs[k].fields@, k, 0, j);
        let fields = vs[k].fields@;
        lemma_fold_keeps_span(fields[j].hints@, 0, HintState::at(crate::resolve::cursor_before(fields, j)));
        assert(crate::resolve::field_resolved(fields, j, rec.fields[j]));
    }
}

/// Resolution is a function of the schema: two compilations of one schema agree
/// on the tag length, the tags and every field's range.
pub proof fn lemma_resolution_deterministic(s: Schema, c1: CompiledSchema, c2: CompiledSchema)
    requires
        compiled_from(s, c1),
        compiled_from(s, c2),
    ensures
        c1.tag_len == c2.tag_len,
        c1.records.len() == c2.records.len(),
        forall|k: int| 0 <= k < c1.records.len() ==> (#[trigger] c1.records[k]).tag@ == c2.records[k].tag@
            && c1.records[k].fields.len() == c2.records[k].fields.len(),
        forall|k: int, j: int| 0 <= k < c1.records.len() && 0 <= j < c1.records[k].fields.len()
            ==> (#[trigger] c1.records[k].fields[j]).from == c2.records[k].fields[j].from
                && c1.records[k].fields[j].to == c2.records[k].fields[j].to,
{
    let vs = s.variants@;
    assert forall|k: int| 0 <= k < c1.records.len() implies (#[trigger] c1.records[k]).tag@ == c2.records[k].tag@
        && c1.records[k].fields.len() == c2.records[k].fields.len() by {
        assert(crate::compile::record_resolved(vs, k, c1.records[k]));
        assert(crate::compile::record_resolved(vs, k, c2.records[k]));
    }
    assert forall|k: int, j: int| 0 <= k < c1.records.len() && 0 <= j < c1.records[k].fields.len()
        implies (#[trigger] c1.records[k].fields[j]).from == c2.records[k].fields[j].from
            && c1.records[k].fields[j].to == c2.records[k].fields[j].to by {
        assert(crate::compile::record_resolved(vs, k, c1.records[k]));
        assert(crate::compile::record_resolved(vs, k, c2.records[k]));
        assert(crate::resolve::field_resolved(vs[k].fields@, j, c1.records[k].fields[j]));
        assert(crate::resolve::field_resolved(vs[k].fields@, j, c2.records[k].fields[j]));
    }
}

proof fn lemma_fold_starts_only(hints: Seq<PositionHint>, i: int, st: HintState)
    requires
        0 <= i,
        st.length == 0,
        st.to == st.from,
        forall|m: int| i <= m < hints.len() ==> (#[trigger] hints[m]) is StartsAt,
    ensures
        fold_hints(hints, i, st) matches Some(r) ==> r.to == r.from,
    decreases hints.len() - i,
{
    if i < hints.len() {
        if let Some(next) = apply_hint(st, hints[i]) {
            lemma_fold_starts_only(hints, i + 1, next);
        }
    }
}

proof fn lemma_fold_through_zero(hints: Seq<PositionHint>, i: int, st: HintState, k: int)
    requires
        0 <= i <= k < hints.len(),
        hints[k] == PositionHint::Length(0),
        forall|m: int| k < m < hints.len() ==> (#[trigger] hints[m]) is StartsAt,
    ensures
        fold_hints(hints, i, st) matches Some(r) ==> r.to == r.from,
    decreases k - i,
{
    if let Some(next) = apply_hint(st, hints[i]) {
        if i < k {
            lemma_fold_through_zero(hints, i + 1, next, k);
        } else {
            lemma_fold_starts_only(hints, i + 1, next);
        }
    }
}

/// A field with a `Length(0)` hint that no later `EndsAt` or `Length` overrides
/// makes the schema fail to compile.
pub proof fn lemma_zero_length_rejected(s: Schema, v: int, j: int, k: int)
    requires
        0 <= v < s.variants.len(),
        0 <= j < s.variants[v].fields.len(),
        0 <= k < s.variants[v].fields[j].hints.len(),
        s.variants[v].fields[j].hints[k] == PositionHint::Length(0),
        forall|m: int| k < m < s.variants[v].fields[j].hints.len()
            ==> (#[trigger] s.variants[v].fields[j].hints[m]) is StartsAt,
    ensures
        schema_error(s) is Some,
{
    let vs = s.variants@;
    let fields = vs[v].fields@;
    let hints = fields[j].hints@;
    assert forall|m: int| k < m < hints.len() implies (#[trigger] hints[m]) is StartsAt by {
        assert(hints[m] == s.variants[v].fields[j].hints[m]);
    }
    lemma_fold_through_zero(hints, 0, HintState::at(crate::resolve::cursor_before(fields, j)), k);
    assert(field_error(fields, v, j) is Some);
    if first_field_error(fields, v, 0) is None {
        lemma_first_field_error_none(fields, v, 0, j);
    }
    if first_resolution_error(vs, 0) is None {
        lemma_first_resolution_error_none(vs, 0, v);
    }
}

proof fn lemma_first_tag_match_bound(records: Seq<RecordLayout>, tag: Seq<char>, k0: int, i: int)
    requires
        0 <= k0 <= i < records.len(),
        records[i].tag@ == tag,
    ensures
        first_tag_match(records, tag, k0) matches Some(m) && k0 <= m <= i,
    decreases i - k0,
{
    if records[k0].tag@ != tag {
        lemma_first_tag_match_bound(records, tag, k0 + 1, i);
    }
}

/// Dispatch is first-match: where records `i < j` share a tag, a line is never
/// dispatched to `j`, and a line with that tag goes to `i` or an earlier record.
pub proof fn lemma_first_declared_tag_wins(c: CompiledSchema, line: Seq<char>, i: int, j: int)
    requires
        0 <= i < j < c.records.len(),
        c.records[i].tag@ == c.records[j].tag@,
    ensures
        dispatch(c, line) != Some(j),
        line.len() >= c.tag_len && line.subrange(0, c.tag_len as int) == c.records[i].tag@
            ==> (dispatch(c, line) matches Some(m) && m <= i),
{
    if line.len() >= c.tag_len {
        let tag = line.subrange(0, c.tag_len as int);
        if first_tag_match(c.records@, tag, 0) == Some(j) {
            lemma_first_tag_match_found(c.records@, tag, 0);
            lemma_first_tag_match_is_first(c.records@, tag, 0, j, i);
        }
        if tag == c.records[i].tag@ {
            lemma_first_tag_match_bound(c.records@, tag, 0, i);
        }
    }
}

proof fn lemma_first_tag_match_found(records: Seq<RecordLayout>, tag: Seq<char>, k0: int)
    requires
        0 <= k0,
    ensures
        first_tag_match(records, tag, k0) matches Some(m) ==> k0 <= m < records.len() && records[m].tag@ == tag,
    decreases records.len() - k0,
{
    if k0 < records.len() && records[k0].tag@ != tag {
        lemma_first_tag_match_found(records, tag, k0 + 1);
    }
}

proof fn lemma_first_tag_match_is_first(records: Seq<RecordLayout>, tag: Seq<char>, k0: int, m: int, i: int)
    requires
        0 <= k0 <= i < records.len(),
        first_tag_match(records, tag, k0) == Some(m),
    ensures
        records[i].tag@ == tag ==> m <= i,
    decreases i - k0,
{
    if records[k0].tag@ != tag && k0 < i {
        lemma_first_tag_match_is_first(records, tag, k0 + 1, m, i);
    }
}

} // verus!
