use vstd::prelude::*;

use crate::resolve::{field_resolved, first_field_error, resolve_fields, ResolvedField};
use crate::schema::{tag_text, Schema, SchemaError, TagDecl, VariantDecl};
use crate::validate::{declared_tag_len, validate, validation_error};

verus! {

/// One record shape of a compiled schema: its tag and its resolved fields.
#[derive(Clone, Debug)]
pub struct RecordLayout {
    pub tag: String,
    pub variant_name: String,
    pub fields: Vec<ResolvedField>,
}

/// A validated schema with every field's range resolved: the table that the
/// line parser interprets.
#[derive(Clone, Debug)]
pub struct CompiledSchema {
    pub tag_len: usize,
    pub records: Vec<RecordLayout>,
}

impl CompiledSchema {
    /// Every tag has the common length, which is nonzero, and every field is
    /// nonempty.
    pub open spec fn wf(&self) -> bool {
        &&& self.tag_len > 0
        &&& forall|k: int| 0 <= k < self.records.len() ==> (#[trigger] self.records[k]).tag@.len() == self.tag_len
        &&& forall|k: int, j: int|
            0 <= k < self.records.len() && 0 <= j < self.records[k].fields.len()
                ==> (#[trigger] self.records[k].fields[j]).from < self.records[k].fields[j].to
    }
}

/// The first defect among the variants from index `i` on, found while resolving fields.
pub open spec fn first_resolution_error(vs: Seq<VariantDecl>, i: int) -> Option<SchemaError>
    decreases vs.len() - i,
{
    if i >= vs.len() {
        None
    } else {
        match first_field_error(vs[i].fields@, i, 0) {
            Some(e) => Some(e),
            None => first_resolution_error(vs, i + 1),
        }
    }
}

/// The defect that compiling `s` reports: the validator's, else the resolver's.
pub open spec fn schema_error(s: Schema) -> Option<SchemaError> {
    match validation_error(s) {
        Some(e) => Some(e),
        None => first_resolution_error(s.variants@, 0),
    }
}

/// `rec` is variant `i` of `vs` with its fields resolved.
pub open spec fn record_resolved(vs: Seq<VariantDecl>, i: int, rec: RecordLayout) -> bool {
    &&& rec.tag@ == tag_text(vs[i].tag)
    &&& rec.variant_name@ == vs[i].name@
    &&& rec.fields.len() == vs[i].fields.len()
    &&& forall|j: int| 0 <= j < rec.fields.len() ==> field_resolved(vs[i].fields@, j, #[trigger] rec.fields[j])
}

/// `c` is `s` compiled: one record per variant, in declaration order.
pub open spec fn compiled_from(s: Schema, c: CompiledSchema) -> bool {
    &&& c.tag_len as nat == declared_tag_len(s.variants@)
    &&& c.records.len() == s.variants.len()
    &&& forall|i: int| 0 <= i < c.records.len() ==> record_resolved(s.variants@, i, #[trigger] c.records[i])
}

/// Validates the schema, then resolves each variant's fields in declaration order.
pub fn compile(s: &Schema) -> (r: Result<CompiledSchema, SchemaError>)
    ensures
        match r {
            Ok(c) => schema_error(*s) is None && compiled_from(*s, c) && c.wf(),
            Err(e) => schema_error(*s) == Some(e),
        },
{
    let tag_len = match validate(s) {
        Ok(n) => n,
        Err(e) => {
            return Err(e);
        },
    };
    let ghost vs = s.variants@;
    let mut records: Vec<RecordLayout> = Vec::new();
    let mut i: usize = 0;
    while i < s.variants.len()
        invariant
            vs == s.variants@,
            validation_error(*s) is None,
            tag_len > 0,
            tag_len as nat == declared_tag_len(vs),
            i <= vs.len(),
            records.len() == i,
            first_resolution_error(vs, 0) == first_resolution_error(vs, i as int),
            forall|k: int| 0 <= k < i ==> record_resolved(vs, k, #[trigger] records[k]),
            forall|k: int| 0 <= k < i ==> (#[trigger] records[k]).tag@.len() == tag_len,
            forall|k: int, j: int|
                0 <= k < i && 0 <= j < records[k].fields.len()
                    ==> (#[trigger] records[k].fields[j]).from < records[k].fields[j].to,
        decreases vs.len() - i,
    {
        let v = &s.variants[i];
        let fields = match resolve_fields(&v.fields, i) {
            Ok(fields) => fields,
            Err(e) => {
                return Err(e);
            },
        };
        let tag = match &v.tag {
            TagDecl::Literal(t) => t.clone(),
            _ => String::new(),
        };
        proof {
            assert(crate::validate::first_variant_error(vs, 0, tag_len as nat) is None);
            lemma_variant_error_none(vs, 0, i as int, tag_len as nat);
        }
        records.push(RecordLayout { tag, variant_name: v.name.clone(), fields });
        i = i + 1;
    }
    Ok(CompiledSchema { tag_len, records })
}

/// Where no variant from `i` on has a defect, variant `k` has none either.
proof fn lemma_variant_error_none(vs: Seq<VariantDecl>, i: int, k: int, tag_len: nat)
    requires
        0 <= i <= k < vs.len(),
        crate::validate::first_variant_error(vs, i, tag_len) is None,
    ensures
        crate::validate::variant_error(vs, k, tag_len) is None,
    decreases k - i,
{
    if i < k {
        lemma_variant_error_none(vs, i + 1, k, tag_len);
    }
}

} // verus!
