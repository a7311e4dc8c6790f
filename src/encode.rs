//! Encoding a `Physics3` document back to its JSON tree.
//!
//! Every encoder states that decoding its result gives its input back. The
//! proofs tell member keys apart by their lengths, or by a character where
//! two keys are as long.
use crate::decode::{
    all_decoded, err_of, first_error, setting_error, setting_is,
    spec_forces, spec_id_name, spec_input, spec_normalization, spec_output, spec_range,
    spec_target, spec_type, spec_vec2, spec_vertex, document_error, document_is, meta_error,
    meta_is, DecodeError,
};
use crate::json::{lemma_lookup_at, Json, Number};
use crate::model::{
    EffectiveForces, Physics3, Physics3Meta, PhysicsIdName, PhysicsInput, PhysicsNormalization,
    PhysicsNormalizationParameter, PhysicsOutput, PhysicsSetting, PhysicsTarget, PhysicsType,
    PhysicsVertex, Vec2D,
};
use vstd::prelude::*;

verus! {

/// A member named `key` with value `v`.
fn member_of(key: &str, v: Json) -> (r: (String, Json))
    ensures
        r.0@ == key@,
        r.1 == v,
{
    (String::from_str(key), v)
}

pub fn encode_type(t: PhysicsType) -> (r: Json)
    ensures
        spec_type(r) == Ok::<PhysicsType, DecodeError>(t),
{
    proof {
        reveal_strlit("X");
        reveal_strlit("Y");
        reveal_strlit("Angle");
        assert("X"@[0] != "Y"@[0]);
    }
    let name = match t {
        PhysicsType::X => String::from_str("X"),
        PhysicsType::Y => String::from_str("Y"),
        PhysicsType::Angle => String::from_str("Angle"),
    };
    Json::String(name)
}

pub fn encode_target(t: &PhysicsTarget) -> (r: Json)
    ensures
        spec_target(r) == Ok::<PhysicsTarget, DecodeError>(*t),
{
    match t {
        PhysicsTarget::Parameter { id } => {
            let fs = vec![
                member_of("Target", Json::String(String::from_str("Parameter"))),
                member_of("Id", Json::String(id.clone())),
            ];
            proof {
                reveal_strlit("Target");
                assert("Target"@.len() == 6);
                reveal_strlit("Id");
                assert("Id"@.len() == 2);
                lemma_lookup_at(fs@, "Target"@, 0);
                lemma_lookup_at(fs@, "Id"@, 1);
            }
            Json::Object(fs)
        },
    }
}

pub fn encode_vec2(x: &Vec2D) -> (r: Json)
    ensures
        spec_vec2(r) == Ok::<Vec2D, DecodeError>(*x),
{
    let fs = vec![
        member_of("X", Json::Number(x.x)),
        member_of("Y", Json::Number(x.y)),
    ];
    proof {
        reveal_strlit("X");
        assert("X"@.len() == 1);
        reveal_strlit("Y");
        assert("Y"@.len() == 1);
        assert("X"@[0] != "Y"@[0]);
        lemma_lookup_at(fs@, "X"@, 0);
        lemma_lookup_at(fs@, "Y"@, 1);
    }
    Json::Object(fs)
}

pub fn encode_forces(x: &EffectiveForces) -> (r: Json)
    ensures
        spec_forces(r) == Ok::<EffectiveForces, DecodeError>(*x),
{
    let fs = vec![
        member_of("Gravity", encode_vec2(&x.gravity)),
        member_of("Wind", encode_vec2(&x.wind)),
    ];
    proof {
        reveal_strlit("Gravity");
        assert("Gravity"@.len() == 7);
        reveal_strlit("Wind");
        assert("Wind"@.len() == 4);
        lemma_lookup_at(fs@, "Gravity"@, 0);
        lemma_lookup_at(fs@, "Wind"@, 1);
    }
    Json::Object(fs)
}

pub fn encode_id_name(x: &PhysicsIdName) -> (r: Json)
    ensures
        spec_id_name(r) == Ok::<PhysicsIdName, DecodeError>(*x),
{
    let fs = vec![
        member_of("Id", Json::String(x.id.clone())),
        member_of("Name", Json::String(x.name.clone())),
    ];
    proof {
        reveal_strlit("Id");
        assert("Id"@.len() == 2);
        reveal_strlit("Name");
        assert("Name"@.len() == 4);
        lemma_lookup_at(fs@, "Id"@, 0);
        lemma_lookup_at(fs@, "Name"@, 1);
    }
    Json::Object(fs)
}

pub fn encode_range(x: &PhysicsNormalizationParameter) -> (r: Json)
    ensures
        spec_range(r) == Ok::<PhysicsNormalizationParameter, DecodeError>(*x),
{
    let fs = vec![
        member_of("Minimum", Json::Number(x.minimum)),
        member_of("Maximum", Json::Number(x.maximum)),
        member_of("Default", Json::Number(x.default)),
    ];
    proof {
        reveal_strlit("Minimum");
        assert("Minimum"@.len() == 7);
        reveal_strlit("Maximum");
        assert("Maximum"@.len() == 7);
        reveal_strlit("Default");
        assert("Default"@.len() == 7);
        assert("Minimum"@[1] != "Maximum"@[1]);
        assert("Minimum"@[0] != "Default"@[0]);
        assert("Maximum"@[0] != "Default"@[0]);
        lemma_lookup_at(fs@, "Minimum"@, 0);
        lemma_lookup_at(fs@, "Maximum"@, 1);
        lemma_lookup_at(fs@, "Default"@, 2);
    }
    Json::Object(fs)
}

pub fn encode_normalization(x: &PhysicsNormalization) -> (r: Json)
    ensures
        spec_normalization(r) == Ok::<PhysicsNormalization, DecodeError>(*x),
{
    let fs = vec![
        member_of("Position", encode_range(&x.position)),
        member_of("Angle", encode_range(&x.angle)),
    ];
    proof {
        reveal_strlit("Position");
        assert("Position"@.len() == 8);
        reveal_strlit("Angle");
        assert("Angle"@.len() == 5);
        lemma_lookup_at(fs@, "Position"@, 0);
        lemma_lookup_at(fs@, "Angle"@, 1);
    }
    Json::Object(fs)
}

pub fn encode_input(x: &PhysicsInput) -> (r: Json)
    ensures
        spec_input(r) == Ok::<PhysicsInput, DecodeError>(*x),
{
    let fs = vec![
        member_of("Source", encode_target(&x.source)),
        member_of("Weight", Json::Number(x.weight)),
        member_of("Type", encode_type(x.input_type)),
        member_of("Reflect", Json::Bool(x.reflect)),
    ];
    proof {
        reveal_strlit("Source");
        assert("Source"@.len() == 6);
        reveal_strlit("Weight");
        assert("Weight"@.len() == 6);
        reveal_strlit("Type");
        assert("Type"@.len() == 4);
        reveal_strlit("Reflect");
        assert("Reflect"@.len() == 7);
        assert("Source"@[0] != "Weight"@[0]);
        lemma_lookup_at(fs@, "Source"@, 0);
        lemma_lookup_at(fs@, "Weight"@, 1);
        lemma_lookup_at(fs@, "Type"@, 2);
        lemma_lookup_at(fs@, "Reflect"@, 3);
    }
    Json::Object(fs)
}

pub fn encode_output(x: &PhysicsOutput) -> (r: Json)
    ensures
        spec_output(r) == Ok::<PhysicsOutput, DecodeError>(*x),
{
    let fs = vec![
        member_of("Destination", encode_target(&x.destination)),
        member_of("VertexIndex", Json::Number(Number::PosInt(x.vertex_index as u64))),
        member_of("Scale", Json::Number(x.scale)),
        member_of("Weight", Json::Number(x.weight)),
        member_of("Type", encode_type(x.output_type)),
        member_of("Reflect", Json::Bool(x.reflect)),
    ];
    proof {
        reveal_strlit("Destination");
        assert("Destination"@.len() == 11);
        reveal_strlit("VertexIndex");
        assert("VertexIndex"@.len() == 11);
        reveal_strlit("Scale");
        assert("Scale"@.len() == 5);
        reveal_strlit("Weight");
        assert("Weight"@.len() == 6);
        reveal_strlit("Type");
        assert("Type"@.len() == 4);
        reveal_strlit("Reflect");
        assert("Reflect"@.len() == 7);
        assert("Destination"@[0] != "VertexIndex"@[0]);
        lemma_lookup_at(fs@, "Destination"@, 0);
        lemma_lookup_at(fs@, "VertexIndex"@, 1);
        lemma_lookup_at(fs@, "Scale"@, 2);
        lemma_lookup_at(fs@, "Weight"@, 3);
        lemma_lookup_at(fs@, "Type"@, 4);
        lemma_lookup_at(fs@, "Reflect"@, 5);
    }
    Json::Object(fs)
}

pub fn encode_vertex(x: &PhysicsVertex) -> (r: Json)
    ensures
        spec_vertex(r) == Ok::<PhysicsVertex, DecodeError>(*x),
{
    let fs = vec![
        member_of("Position", encode_vec2(&x.position)),
        member_of("Mobility", Json::Number(x.mobility)),
        member_of("Delay", Json::Number(x.delay)),
        member_of("Acceleration", Json::Number(x.acceleration)),
        member_of("Radius", Json::Number(x.radius)),
    ];
    proof {
        reveal_strlit("Position");
        assert("Position"@.len() == 8);
        reveal_strlit("Mobility");
        assert("Mobility"@.len() == 8);
        reveal_strlit("Delay");
        assert("Delay"@.len() == 5);
        reveal_strlit("Acceleration");
        assert("Acceleration"@.len() == 12);
        reveal_strlit("Radius");
        assert("Radius"@.len() == 6);
        assert("Position"@[0] != "Mobility"@[0]);
        lemma_lookup_at(fs@, "Position"@, 0);
        lemma_lookup_at(fs@, "Mobility"@, 1);
        lemma_lookup_at(fs@, "Delay"@, 2);
        lemma_lookup_at(fs@, "Acceleration"@, 3);
        lemma_lookup_at(fs@, "Radius"@, 4);
    }
    Json::Object(fs)
}


/// Encodes every item of `v` with `f`.
fn encode_items<T, F: Fn(&T) -> Json>(
    v: &Vec<T>,
    f: F,
    Ghost(check): Ghost<spec_fn(Json) -> Option<DecodeError>>,
    Ghost(is): Ghost<spec_fn(Json, T) -> bool>,
) -> (r: Vec<Json>)
    requires
        forall|x: &T| f.requires((x,)),
        forall|x: &T, j: Json| f.ensures((x,), j) ==> check(j) is None && is(j, *x),
    ensures
        first_error(r@, check) is None,
        all_decoded(r@, v@, is),
{
    let mut out: Vec<Json> = Vec::new();
    let mut i: usize = 0;
    while i < v.len()
        invariant
            i <= v@.len(),
            out@.len() == i,
            first_error(out@, check) is None,
            forall|k: int| 0 <= k < i ==> #[trigger] is(out@[k], v@[k]),
            forall|x: &T| f.requires((x,)),
            forall|x: &T, j: Json| f.ensures((x,), j) ==> check(j) is None && is(j, *x),
        decreases v.len() - i,
    {
        let j = f(&v[i]);
        let ghost before = out@;
        out.push(j);
        assert(out@.drop_last() =~= before);
        i = i + 1;
    }
    out
}

/// Encodes one setting; an absent normalization is written as `null`.
pub fn encode_setting(x: &PhysicsSetting) -> (r: Json)
    ensures
        setting_error(r) is None,
        setting_is(r, *x),
{
    let inputs = Json::Array(encode_items(
        &x.inputs,
        encode_input,
        Ghost(|t: Json| err_of(spec_input(t))),
        Ghost(|t: Json, y: PhysicsInput| spec_input(t) == Ok::<PhysicsInput, DecodeError>(y)),
    ));
    let outputs = Json::Array(encode_items(
        &x.outputs,
        encode_output,
        Ghost(|t: Json| err_of(spec_output(t))),
        Ghost(|t: Json, y: PhysicsOutput| spec_output(t) == Ok::<PhysicsOutput, DecodeError>(y)),
    ));
    let vertices = Json::Array(encode_items(
        &x.vertices,
        encode_vertex,
        Ghost(|t: Json| err_of(spec_vertex(t))),
        Ghost(|t: Json, y: PhysicsVertex| spec_vertex(t) == Ok::<PhysicsVertex, DecodeError>(y)),
    ));
    let normalization = match &x.normalization {
        None => Json::Null,
        Some(n) => encode_normalization(n),
    };
    let fs = vec![
        member_of("Id", Json::String(x.id.clone())),
        member_of("Input", inputs),
        member_of("Output", outputs),
        member_of("Vertices", vertices),
        member_of("Normalization", normalization),
    ];
    proof {
        reveal_strlit("Id");
        assert("Id"@.len() == 2);
        reveal_strlit("Input");
        assert("Input"@.len() == 5);
        reveal_strlit("Output");
        assert("Output"@.len() == 6);
        reveal_strlit("Vertices");
        assert("Vertices"@.len() == 8);
        reveal_strlit("Normalization");
        assert("Normalization"@.len() == 13);
        lemma_lookup_at(fs@, "Id"@, 0);
        lemma_lookup_at(fs@, "Input"@, 1);
        lemma_lookup_at(fs@, "Output"@, 2);
        lemma_lookup_at(fs@, "Vertices"@, 3);
        lemma_lookup_at(fs@, "Normalization"@, 4);
    }
    Json::Object(fs)
}

pub fn encode_meta(x: &Physics3Meta) -> (r: Json)
    ensures
        meta_error(r) is None,
        meta_is(r, *x),
{
    let dictionary = Json::Array(encode_items(
        &x.physics_dictionary,
        encode_id_name,
        Ghost(|t: Json| err_of(spec_id_name(t))),
        Ghost(|t: Json, y: PhysicsIdName| spec_id_name(t) == Ok::<PhysicsIdName, DecodeError>(y)),
    ));
    let fs = vec![
        member_of("TotalInputCount", Json::Number(Number::PosInt(x.total_input_count as u64))),
        member_of("TotalOutputCount", Json::Number(Number::PosInt(x.total_output_count as u64))),
        member_of("VertexCount", Json::Number(Number::PosInt(x.total_vertices as u64))),
        member_of("PhysicsSettingCount", Json::Number(Number::PosInt(x.physics_setting_count as u64))),
        member_of("EffectiveForces", encode_forces(&x.effective_forces)),
        member_of("PhysicsDictionary", dictionary),
    ];
    proof {
        reveal_strlit("TotalInputCount");
        assert("TotalInputCount"@.len() == 15);
        reveal_strlit("TotalOutputCount");
        assert("TotalOutputCount"@.len() == 16);
        reveal_strlit("VertexCount");
        assert("VertexCount"@.len() == 11);
        reveal_strlit("PhysicsSettingCount");
        assert("PhysicsSettingCount"@.len() == 19);
        reveal_strlit("EffectiveForces");
        assert("EffectiveForces"@.len() == 15);
        reveal_strlit("PhysicsDictionary");
        assert("PhysicsDictionary"@.len() == 17);
        assert("TotalInputCount"@[0] != "EffectiveForces"@[0]);
        lemma_lookup_at(fs@, "TotalInputCount"@, 0);
        lemma_lookup_at(fs@, "TotalOutputCount"@, 1);
        lemma_lookup_at(fs@, "VertexCount"@, 2);
        lemma_lookup_at(fs@, "PhysicsSettingCount"@, 3);
        lemma_lookup_at(fs@, "EffectiveForces"@, 4);
        lemma_lookup_at(fs@, "PhysicsDictionary"@, 5);
    }
    Json::Object(fs)
}

/// Encodes a whole document in the external JSON shape; decoding the result
/// gives the document back.
pub fn encode_document(x: &Physics3) -> (r: Json)
    ensures
        document_error(r) is None,
        document_is(r, *x),
{
    let settings = Json::Array(encode_items(
        &x.physics_settings,
        encode_setting,
        Ghost(|t: Json| setting_error(t)),
        Ghost(|t: Json, y: PhysicsSetting| setting_is(t, y)),
    ));
    let fs = vec![
        member_of("Version", Json::Number(Number::PosInt(x.version as u64))),
        member_of("Meta", encode_meta(&x.meta)),
        member_of("PhysicsSettings", settings),
    ];
    proof {
        reveal_strlit("Version");
        assert("Version"@.len() == 7);
        reveal_strlit("Meta");
        assert("Meta"@.len() == 4);
        reveal_strlit("PhysicsSettings");
        assert("PhysicsSettings"@.len() == 15);
        lemma_lookup_at(fs@, "Version"@, 0);
        lemma_lookup_at(fs@, "Meta"@, 1);
        lemma_lookup_at(fs@, "PhysicsSettings"@, 2);
    }
    Json::Object(fs)
}

} // verus!
