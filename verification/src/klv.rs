//! One decoded field: a tag and the value that came with it.

use crate::klv_value::{decode_value, is_deferred, KlvValue, KlvValueView, Tolerance};
use crate::tag::Tag;
use crate::Errors;
use vstd::prelude::*;

verus! {

/// A tag and its decoded value. A field is made by decoding and never
/// changes afterwards, so its value always has the encoding that its tag
/// declares.
#[derive(Debug)]
pub struct Klv {
    tag: Tag,
    value: KlvValue,
}

/// The mathematical reading of a [`Klv`].
pub struct KlvView {
    pub tag: Tag,
    pub value: KlvValueView,
}

impl KlvView {
    /// The value has the encoding that the tag declares; where that encoding
    /// is a deferred one, the value is the `Unimplemented` marker.
    pub open spec fn well_typed(self) -> bool {
        if is_deferred(self.tag.spec_tag_type()) {
            self.value is Unimplemented
        } else {
            &&& self.value.value_type() == self.tag.spec_tag_type()
            &&& self.tag != Tag::Unknown
            &&& self.tag != Tag::Deprecated
        }
    }
}

impl View for Klv {
    type V = KlvView;

    closed spec fn view(&self) -> KlvView {
        KlvView { tag: self.tag, value: self.value@ }
    }
}

/// The outcome of decoding a field, read mathematically.
pub open spec fn field_result_view(result: Result<Klv, Errors>) -> Result<KlvView, Errors> {
    match result {
        Ok(field) => Ok(field@),
        Err(error) => Err(error),
    }
}

/// The field that the tag number `tag_id` and the raw `bytes` of its value
/// decode to. A number that names no tag, or the deprecated one, is refused
/// before the bytes are looked at.
pub open spec fn decode_field(tag_id: usize, bytes: Seq<u8>, tolerance: Tolerance) -> Result<
    KlvView,
    Errors,
> {
    let tag = Tag::spec_from_id(tag_id);
    if tag == Tag::Unknown || tag == Tag::Deprecated {
        Err(Errors::UnsupportedTag(tag_id))
    } else {
        match decode_value(tag, bytes, tolerance) {
            Ok(value) => Ok(KlvView { tag, value }),
            Err(error) => Err(error),
        }
    }
}

/// Every field that decoding produces is well typed and bears the tag that
/// the number names.
pub proof fn lemma_decode_field_well_typed(tag_id: usize, bytes: Seq<u8>, tolerance: Tolerance)
    ensures
        decode_field(tag_id, bytes, tolerance) matches Ok(field) ==> {
            &&& field.well_typed()
            &&& field.tag == Tag::spec_from_id(tag_id)
            &&& field.tag.spec_id() == tag_id
        },
{
}

impl Klv {
    /// What holds of every field: it is well typed.
    #[verifier::type_invariant]
    pub open spec fn inv(self) -> bool {
        self@.well_typed()
    }

    /// Decodes a field from its tag number and the raw bytes of its value,
    /// failing on an encoding whose decoding is deferred.
    pub fn new(tag_id: usize, raw_value: Box<[u8]>) -> (field: Result<Klv, Errors>)
        ensures
            field_result_view(field) == decode_field(tag_id, raw_value@, Tolerance::Strict),
    {
        Self::new_with(tag_id, &raw_value, Tolerance::Strict)
    }

    /// Decodes a field from its tag number and the raw bytes of its value;
    /// `tolerance` settles what becomes of a deferred encoding.
    pub fn new_with(tag_id: usize, raw_value: &[u8], tolerance: Tolerance) -> (field: Result<
        Klv,
        Errors,
    >)
        ensures
            field_result_view(field) == decode_field(tag_id, raw_value@, tolerance),
    {
        let tag = Tag::from_id(tag_id);
        if tag == Tag::Unknown || tag == Tag::Deprecated {
            return Err(Errors::UnsupportedTag(tag_id));
        }
        match KlvValue::from_bytes_with(tag, raw_value, tolerance) {
            Ok(value) => {
                proof {
                    lemma_decode_field_well_typed(tag_id, raw_value@, tolerance);
                }
                Ok(Klv { tag, value })
            },
            Err(error) => Err(error),
        }
    }

    /// The tag of this field.
    pub fn tag(&self) -> (tag: Tag)
        ensures
            tag == self@.tag,
    {
        self.tag
    }

    /// The value of this field.
    pub fn value(&self) -> (value: &KlvValue)
        ensures
            value@ == self@.value,
    {
        &self.value
    }
}

impl Clone for Klv {
    fn clone(&self) -> (copy: Self)
        ensures
            copy == *self,
    {
        proof {
            use_type_invariant(self);
        }
        Klv { tag: self.tag, value: self.value.clone() }
    }
}

} // verus!
