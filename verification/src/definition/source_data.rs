use vstd::prelude::*;

use cooplan_definitions_lib::source_attribute::SourceAttribute;
use cooplan_definitions_lib::source_category::SourceCategory;
use cooplan_definitions_lib::validated_source_attribute::ValidatedSourceAttribute;
use cooplan_definitions_lib::validated_source_category::ValidatedSourceCategory;

verus! {

#[verifier::external_type_specification]
pub struct ExSourceAttribute(SourceAttribute);

#[verifier::external_type_specification]
pub struct ExSourceCategory(SourceCategory);

#[verifier::external_type_specification]
pub struct ExValidatedSourceAttribute(ValidatedSourceAttribute);

#[verifier::external_type_specification]
pub struct ExValidatedSourceCategory(ValidatedSourceCategory);

/// A source attribute passes validation exactly when it carries an id.
pub open spec fn attribute_valid(a: SourceAttribute) -> bool {
    a.id is Some
}

/// A source category passes validation exactly when it carries an id and
/// every one of its attributes does.
pub open spec fn category_valid(c: SourceCategory) -> bool {
    &&& c.id is Some
    &&& forall|i: int| 0 <= i < c.attributes@.len() ==> attribute_valid(#[trigger] c.attributes@[i])
}

/// How a validated attribute relates to the source attribute it came from:
/// the same fields, with the id made mandatory and a missing `optional`
/// defaulting to false.
pub open spec fn attribute_validated(a: SourceAttribute, v: ValidatedSourceAttribute) -> bool {
    &&& a.id == Some(v.id)
    &&& v.name == a.name
    &&& v.data_type == a.data_type
    &&& v.unit == a.unit
    &&& v.optional == match a.optional {
        Some(b) => b,
        None => false,
    }
}

/// How a validated category relates to the source category it came from:
/// the same fields, with the id made mandatory, a missing
/// `selectable_as_last` defaulting to false, and every attribute validated
/// in place.
pub open spec fn category_validated(c: SourceCategory, v: ValidatedSourceCategory) -> bool {
    &&& c.id == Some(v.id)
    &&& v.name == c.name
    &&& v.parent == c.parent
    &&& v.parent_name == c.parent_name
    &&& v.selectable_as_last == match c.selectable_as_last {
        Some(b) => b,
        None => false,
    }
    &&& v.attributes@.len() == c.attributes@.len()
    &&& forall|i: int| 0 <= i < v.attributes@.len() ==> attribute_validated(
        c.attributes@[i],
        #[trigger] v.attributes@[i],
    )
}

/// Relies on `ValidatedSourceCategory::try_from`: it succeeds exactly when
/// the category and all of its attributes carry an id, it keeps every field,
/// fills the two optional flags with false, and otherwise reports the
/// failure as a message.
#[verifier::external_body]
pub fn validate_category(source: SourceCategory) -> (r: Result<ValidatedSourceCategory, String>)
    ensures
        r is Ok <==> category_valid(source),
        r matches Ok(v) ==> category_validated(source, v),
{
    ValidatedSourceCategory::try_from(source)
}

} // verus!
