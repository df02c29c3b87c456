use vstd::prelude::*;

use crate::schema::{tag_text, Schema, SchemaError, TagDecl, VariantDecl};

verus! {

/// The tag length that the first variant fixes: 0 where there is no variant or
/// its tag is not a literal.
pub open spec fn declared_tag_len(vs: Seq<VariantDecl>) -> nat {
    if vs.len() > 0 {
        tag_text(vs[0].tag).len()
    } else {
        0
    }
}

/// The defect of variant `i`, given the tag length `tag_len`, if it has one.
pub open spec fn variant_error(vs: Seq<VariantDecl>, i: int, tag_len: nat) -> Option<SchemaError> {
    if vs[i].has_discriminant {
        Some(SchemaError::DiscriminantSet { variant: i as usize })
    } else {
        match vs[i].tag {
            TagDecl::Unexpected => Some(SchemaError::UnexpectedAttribute { variant: i as usize }),
            TagDecl::NonLiteral => Some(SchemaError::TagNotLiteral { variant: i as usize }),
            TagDecl::Literal(t) => if t@.len() != tag_len {
                Some(SchemaError::TagLengthMismatch { variant: i as usize })
            } else {
                None
            },
        }
    }
}

/// The defect of the first variant from index `i` on that has one.
pub open spec fn first_variant_error(vs: Seq<VariantDecl>, i: int, tag_len: nat) -> Option<SchemaError>
    decreases vs.len() - i,
{
    if i >= vs.len() {
        None
    } else {
        match variant_error(vs, i, tag_len) {
            Some(e) => Some(e),
            None => first_variant_error(vs, i + 1, tag_len),
        }
    }
}

/// The first schema-wide defect, checked before any field is resolved.
pub open spec fn validation_error(s: Schema) -> Option<SchemaError> {
    if !s.is_enum {
        Some(SchemaError::NotTaggedUnion)
    } else {
        match first_variant_error(s.variants@, 0, declared_tag_len(s.variants@)) {
            Some(e) => Some(e),
            None => if declared_tag_len(s.variants@) == 0 {
                Some(SchemaError::NoRecordTypes)
            } else {
                None
            },
        }
    }
}

/// Checks the schema as a whole and returns the common tag length.
pub fn validate(s: &Schema) -> (r: Result<usize, SchemaError>)
    ensures
        match r {
            Ok(n) => validation_error(*s) is None && n as nat == declared_tag_len(s.variants@)
                && n > 0,
            Err(e) => validation_error(*s) == Some(e),
        },
{
    if !s.is_enum {
        return Err(SchemaError::NotTaggedUnion);
    }
    let ghost vs = s.variants@;
    let tag_len: usize = if s.variants.len() > 0 {
        match &s.variants[0].tag {
            TagDecl::Literal(t) => t.as_str().unicode_len(),
            _ => 0,
        }
    } else {
        0
    };
    let mut i: usize = 0;
    while i < s.variants.len()
        invariant
            s.is_enum,
            vs == s.variants@,
            i <= vs.len(),
            tag_len as nat == declared_tag_len(vs),
            first_variant_error(vs, 0, tag_len as nat) == first_variant_error(vs, i as int, tag_len as nat),
        decreases vs.len() - i,
    {
        let v = &s.variants[i];
        if v.has_discriminant {
            return Err(SchemaError::DiscriminantSet { variant: i });
        }
        match &v.tag {
            TagDecl::Unexpected => {
                return Err(SchemaError::UnexpectedAttribute { variant: i });
            },
            TagDecl::NonLiteral => {
                return Err(SchemaError::TagNotLiteral { variant: i });
            },
            TagDecl::Literal(t) => {
                if t.as_str().unicode_len() != tag_len {
                    return Err(SchemaError::TagLengthMismatch { variant: i });
                }
            },
        }
        i = i + 1;
    }
    if tag_len == 0 {
        return Err(SchemaError::NoRecordTypes);
    }
    Ok(tag_len)
}

} // verus!
