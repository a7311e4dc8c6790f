//! Properties of decoding and encoding, proved over the spec functions that
//! the decoders and encoders state their results in.
use crate::decode::{
    err_of, first_error, list_is, member, setting_error, setting_is,
    spec_forces, spec_id_name, spec_input, spec_opt_normalization, spec_output, spec_text,
    spec_vertex, document_error, document_is, meta_is, DecodeError,
};
use crate::json::{lookup, Json};
use crate::model::{
    spec_zero, EffectiveForces, Physics3, PhysicsIdName, PhysicsInput, PhysicsOutput, PhysicsSetting,
    PhysicsVertex, Vec2D,
};
use vstd::prelude::*;

verus! {

/// Two settings are equal member by member, lists compared item by item.
pub open spec fn same_setting(a: PhysicsSetting, b: PhysicsSetting) -> bool {
    &&& a.id == b.id
    &&& a.inputs@ == b.inputs@
    &&& a.outputs@ == b.outputs@
    &&& a.vertices@ == b.vertices@
    &&& a.normalization == b.normalization
}

/// Two documents are equal member by member, lists compared item by item.
pub open spec fn same_document(a: Physics3, b: Physics3) -> bool {
    &&& a.version == b.version
    &&& a.meta.total_input_count == b.meta.total_input_count
    &&& a.meta.total_output_count == b.meta.total_output_count
    &&& a.meta.total_vertices == b.meta.total_vertices
    &&& a.meta.physics_setting_count == b.meta.physics_setting_count
    &&& a.meta.effective_forces == b.meta.effective_forces
    &&& a.meta.physics_dictionary@ == b.meta.physics_dictionary@
    &&& a.physics_settings@.len() == b.physics_settings@.len()
    &&& forall|i: int| 0 <= i < a.physics_settings@.len()
        ==> same_setting(#[trigger] a.physics_settings@[i], b.physics_settings@[i])
}

/// An array member decoded item by item by a function gives one list.
proof fn lemma_list_unique<T>(
    fields: Seq<(String, Json)>,
    key: Seq<char>,
    a: Seq<T>,
    b: Seq<T>,
    is: spec_fn(Json, T) -> bool,
)
    requires
        list_is(fields, key, a, is),
        list_is(fields, key, b, is),
        forall|t: Json, x: T, y: T| #[trigger] is(t, x) && #[trigger] is(t, y) ==> x == y,
    ensures
        a == b,
{
    match lookup(fields, key) {
        Some(Json::Array(items)) => {
            assert forall|i: int| 0 <= i < a.len() implies a[i] == b[i] by {
                assert(is(items@[i], a[i]) && is(items@[i], b[i]));
            }
            assert(a =~= b);
        },
        _ => {
            assert(a =~= b);
        },
    }
}

/// A setting tree describes at most one setting.
proof fn lemma_setting_unique(j: Json, a: PhysicsSetting, b: PhysicsSetting)
    requires
        setting_is(j, a),
        setting_is(j, b),
    ensures
        same_setting(a, b),
{
    let fs = j->Object_0@;
    lemma_list_unique(fs, "Input"@, a.inputs@, b.inputs@, |t: Json, x: PhysicsInput| spec_input(t) == Ok::<PhysicsInput, DecodeError>(x));
    lemma_list_unique(fs, "Output"@, a.outputs@, b.outputs@, |t: Json, x: PhysicsOutput| spec_output(t) == Ok::<PhysicsOutput, DecodeError>(x));
    lemma_list_unique(fs, "Vertices"@, a.vertices@, b.vertices@, |t: Json, x: PhysicsVertex| spec_vertex(t) == Ok::<PhysicsVertex, DecodeError>(x));
}

/// Round trip: where `e` is the tree that `encode_document` gives for `d`
/// (so `document_is(e, d)`), whatever `decode_document` gives for `e` equals
/// `d`, member by member and item by item.
pub proof fn law_round_trip(d: Physics3, e: Json, decoded: Physics3)
    requires
        document_is(e, d),
        document_is(e, decoded),
    ensures
        same_document(d, decoded),
{
    let fs = e->Object_0@;
    let m = lookup(fs, "Meta"@)->Some_0;
    assert(meta_is(m, d.meta) && meta_is(m, decoded.meta));
    lemma_list_unique(
        m->Object_0@,
        "PhysicsDictionary"@,
        d.meta.physics_dictionary@,
        decoded.meta.physics_dictionary@,
        |t: Json, x: PhysicsIdName| spec_id_name(t) == Ok::<PhysicsIdName, DecodeError>(x),
    );
    let items = lookup(fs, "PhysicsSettings"@)->Some_0->Array_0@;
    assert forall|i: int| 0 <= i < d.physics_settings@.len() implies same_setting(
        #[trigger] d.physics_settings@[i],
        decoded.physics_settings@[i],
    ) by {
        let is = |t: Json, x: PhysicsSetting| setting_is(t, x);
        assert(is(items[i], d.physics_settings@[i]));
        assert(is(items[i], decoded.physics_settings@[i]));
        lemma_setting_unique(items[i], d.physics_settings@[i], decoded.physics_settings@[i]);
    }
}

/// A setting without `Input`, `Output` and `Vertices` members fails only on
/// its `Id` or its `Normalization`, and decodes to empty lists.
pub proof fn law_absent_lists_are_empty(j: Json)
    requires
        j is Object,
        lookup(j->Object_0@, "Input"@) is None,
        lookup(j->Object_0@, "Output"@) is None,
        lookup(j->Object_0@, "Vertices"@) is None,
    ensures
        setting_error(j) == match member(j->Object_0@, "Id"@, |t: Json| spec_text(t)) {
            Err(e) => Some(e),
            Ok(_) => err_of(spec_opt_normalization(j->Object_0@)),
        },
        forall|s: PhysicsSetting| #[trigger] setting_is(j, s)
            ==> s.inputs@.len() == 0 && s.outputs@.len() == 0 && s.vertices@.len() == 0,
{
}

/// Effective forces without `Gravity` and `Wind` members are two zero vectors.
pub proof fn law_absent_forces_are_zero(j: Json)
    requires
        j is Object,
        lookup(j->Object_0@, "Gravity"@) is None,
        lookup(j->Object_0@, "Wind"@) is None,
    ensures
        spec_forces(j) == Ok::<EffectiveForces, DecodeError>(EffectiveForces {
            gravity: Vec2D { x: spec_zero(), y: spec_zero() },
            wind: Vec2D { x: spec_zero(), y: spec_zero() },
        }),
{
}

/// An input whose `Type` is a string other than `X`, `Y` and `Angle` fails
/// with `UnknownVariant`.
pub proof fn law_unknown_input_type(j: Json, tag: String)
    requires
        j is Object,
        lookup(j->Object_0@, "Type"@) == Some(Json::String(tag)),
        tag@ != "X"@ && tag@ != "Y"@ && tag@ != "Angle"@,
    ensures
        spec_input(j) == Err::<PhysicsInput, DecodeError>(DecodeError::UnknownVariant),
{
}

/// No item of a list that decodes without error fails.
proof fn lemma_first_error_none(items: Seq<Json>, check: spec_fn(Json) -> Option<DecodeError>, i: int)
    requires
        0 <= i < items.len(),
        first_error(items, check) is None,
    ensures
        check(items[i]) is None,
    decreases items.len(),
{
    if i < items.len() - 1 {
        lemma_first_error_none(items.drop_last(), check, i);
    }
}

/// A document with an input whose `Type` tag is unknown does not decode:
/// no part of it is accepted.
pub proof fn law_unknown_input_type_fails_document(
    j: Json,
    settings: Seq<Json>,
    k: int,
    inputs: Seq<Json>,
    i: int,
    tag: String,
)
    requires
        j is Object,
        lookup(j->Object_0@, "PhysicsSettings"@) is Some,
        lookup(j->Object_0@, "PhysicsSettings"@)->Some_0 is Array,
        lookup(j->Object_0@, "PhysicsSettings"@)->Some_0->Array_0@ == settings,
        0 <= k < settings.len(),
        settings[k] is Object,
        lookup(settings[k]->Object_0@, "Input"@) is Some,
        lookup(settings[k]->Object_0@, "Input"@)->Some_0 is Array,
        lookup(settings[k]->Object_0@, "Input"@)->Some_0->Array_0@ == inputs,
        0 <= i < inputs.len(),
        inputs[i] is Object,
        lookup(inputs[i]->Object_0@, "Type"@) == Some(Json::String(tag)),
        tag@ != "X"@ && tag@ != "Y"@ && tag@ != "Angle"@,
    ensures
        document_error(j) is Some,
{
    law_unknown_input_type(inputs[i], tag);
    if document_error(j) is None {
        lemma_first_error_none(settings, |t: Json| setting_error(t), k);
        lemma_first_error_none(inputs, |t: Json| err_of(spec_input(t)), i);
    }
}

/// A document without a `Version` member fails with `Schema`.
pub proof fn law_missing_version(j: Json)
    requires
        j is Object,
        lookup(j->Object_0@, "Version"@) is None,
    ensures
        document_error(j) == Some(DecodeError::Schema),
{
}

} // verus!
