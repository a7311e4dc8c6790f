use physics3::decode::{decode_count, decode_document, decode_input, DecodeError};
use physics3::encode::{encode_document, encode_type};
use physics3::json::{get_field, Json, Number};
use physics3::model::{Physics3, PhysicsTarget, PhysicsType, Vec2D};

const MINIMAL: &str = r#"{
  "Version": 3,
  "Meta": {
    "TotalInputCount": 1, "TotalOutputCount": 0, "VertexCount": 0, "PhysicsSettingCount": 1,
    "EffectiveForces": {},
    "PhysicsDictionary": [ {"Id": "PhysicsSetting1", "Name": "Hair"} ]
  },
  "PhysicsSettings": [
    {
      "Id": "PhysicsSetting1",
      "Input": [ {"Source": {"Target": "Parameter", "Id": "Param1"},
                  "Weight": 1.0, "Type": "X", "Reflect": false} ]
    }
  ]
}"#;

const FULL: &str = r#"{
  "Version": 3,
  "Meta": {
    "TotalInputCount": 2, "TotalOutputCount": 1, "VertexCount": 2, "PhysicsSettingCount": 1,
    "EffectiveForces": { "Gravity": {"X": 0, "Y": -1}, "Wind": {"X": 0.5, "Y": 0} },
    "PhysicsDictionary": [ {"Id": "S1", "Name": "Front hair"} ]
  },
  "PhysicsSettings": [
    {
      "Id": "S1",
      "Input": [
        {"Source": {"Target": "Parameter", "Id": "ParamAngleX"}, "Weight": 60, "Type": "X", "Reflect": false},
        {"Source": {"Target": "Parameter", "Id": "ParamAngleZ"}, "Weight": 40, "Type": "Angle", "Reflect": true}
      ],
      "Output": [
        {"Destination": {"Target": "Parameter", "Id": "ParamHair"}, "VertexIndex": 1,
         "Scale": 1.5, "Weight": 100, "Type": "Angle", "Reflect": false}
      ],
      "Vertices": [
        {"Position": {"X": 0, "Y": 0}, "Mobility": 1, "Delay": 1, "Acceleration": 1, "Radius": 0},
        {"Position": {"X": 0, "Y": 3}, "Mobility": 0.95, "Delay": 0.9, "Acceleration": 1.5, "Radius": 3}
      ],
      "Normalization": {
        "Position": {"Minimum": -10, "Default": 0, "Maximum": 10},
        "Angle": {"Minimum": -10, "Default": 0, "Maximum": 10}
      }
    }
  ]
}"#;

fn float(x: f64) -> Number {
    Number::Float(x.to_bits())
}

#[test]
fn minimal_document_decodes() {
    let d = Physics3::from_str(MINIMAL).unwrap();
    assert_eq!(d.version, 3);
    assert_eq!(d.physics_settings.len(), 1);
    let s = &d.physics_settings[0];
    assert_eq!(s.inputs.len(), 1);
    assert!(s.outputs.is_empty());
    assert!(s.vertices.is_empty());
    assert!(s.normalization.is_none());
    let input = &s.inputs[0];
    assert_eq!(input.input_type, PhysicsType::X);
    assert_eq!(input.weight, float(1.0));
    assert!(!input.reflect);
    assert_eq!(input.source, PhysicsTarget::Parameter { id: "Param1".to_string() });
    assert_eq!(d.meta.physics_dictionary[0].name, "Hair");
}

#[test]
fn full_document_decodes() {
    let d = Physics3::from_str(FULL).unwrap();
    assert_eq!(d.meta.total_input_count, 2);
    assert_eq!(d.meta.total_vertices, 2);
    assert_eq!(d.meta.effective_forces.gravity, Vec2D { x: Number::PosInt(0), y: Number::NegInt(-1) });
    assert_eq!(d.meta.effective_forces.wind, Vec2D { x: float(0.5), y: Number::PosInt(0) });
    let s = &d.physics_settings[0];
    assert_eq!(s.inputs[1].input_type, PhysicsType::Angle);
    assert!(s.inputs[1].reflect);
    assert_eq!(s.outputs[0].vertex_index, 1);
    assert_eq!(s.outputs[0].scale, float(1.5));
    assert_eq!(s.vertices[1].mobility, float(0.95));
    let n = s.normalization.unwrap();
    assert_eq!(n.position.minimum, Number::NegInt(-10));
    assert_eq!(n.angle.maximum, Number::PosInt(10));
}

#[test]
fn encoding_round_trips() {
    for text in [MINIMAL, FULL] {
        let d = Physics3::from_str(text).unwrap();
        let tree = encode_document(&d);
        assert_eq!(decode_document(&tree), Ok(d));
    }
}

#[test]
fn absent_lists_are_empty() {
    let text = r#"{"Version": 1, "Meta": {"TotalInputCount": 0, "TotalOutputCount": 0,
        "VertexCount": 0, "PhysicsSettingCount": 1, "EffectiveForces": {}, "PhysicsDictionary": []},
        "PhysicsSettings": [{"Id": "A"}]}"#;
    let d = Physics3::from_str(text).unwrap();
    let s = &d.physics_settings[0];
    assert_eq!(s.id, "A");
    assert!(s.inputs.is_empty() && s.outputs.is_empty() && s.vertices.is_empty());
}

#[test]
fn absent_forces_are_zero() {
    let d = Physics3::from_str(MINIMAL).unwrap();
    assert_eq!(d.meta.effective_forces.gravity, Vec2D { x: float(0.0), y: float(0.0) });
    assert_eq!(d.meta.effective_forces.wind, Vec2D::zero());
}

#[test]
fn unknown_input_type_is_unknown_variant() {
    let text = MINIMAL.replace(r#""Type": "X""#, r#""Type": "Z""#);
    assert_eq!(Physics3::from_str(&text), Err(DecodeError::UnknownVariant));
}

#[test]
fn unknown_target_is_unknown_variant() {
    let text = MINIMAL.replace(r#""Target": "Parameter""#, r#""Target": "Part""#);
    assert_eq!(Physics3::from_str(&text), Err(DecodeError::UnknownVariant));
}

#[test]
fn missing_version_is_schema_error() {
    let text = MINIMAL.replace(r#""Version": 3,"#, "");
    assert_eq!(Physics3::from_str(&text), Err(DecodeError::Schema));
}

#[test]
fn wrong_json_type_is_schema_error() {
    let text = MINIMAL.replace(r#""Version": 3"#, r#""Version": "3""#);
    assert_eq!(Physics3::from_str(&text), Err(DecodeError::Schema));
    let text = MINIMAL.replace(r#""Reflect": false"#, r#""Reflect": 0"#);
    assert_eq!(Physics3::from_str(&text), Err(DecodeError::Schema));
    let text = MINIMAL.replace(r#""Version": 3"#, r#""Version": -3"#);
    assert_eq!(Physics3::from_str(&text), Err(DecodeError::Schema));
}

#[test]
fn missing_dictionary_is_schema_error() {
    let text = MINIMAL.replace(r#""PhysicsDictionary": [ {"Id": "PhysicsSetting1", "Name": "Hair"} ]"#, r#""Other": []"#);
    assert_eq!(Physics3::from_str(&text), Err(DecodeError::Schema));
}

#[test]
fn malformed_text_is_syntax_error() {
    assert_eq!(Physics3::from_str("{\"Version\": 3,"), Err(DecodeError::Syntax));
    assert_eq!(Physics3::from_str(""), Err(DecodeError::Syntax));
}

#[test]
fn null_normalization_is_absent() {
    let text = MINIMAL.replace(r#""Id": "PhysicsSetting1",
      "Input""#, r#""Id": "PhysicsSetting1", "Normalization": null,
      "Input""#);
    let d = Physics3::from_str(&text).unwrap();
    assert!(d.physics_settings[0].normalization.is_none());
}

#[test]
fn unknown_members_are_ignored() {
    let text = MINIMAL.replace(r#""Version": 3,"#, r#""Version": 3, "Extra": [1, 2],"#);
    assert_eq!(Physics3::from_str(&text), Physics3::from_str(MINIMAL));
}

#[test]
fn first_member_with_key_is_found() {
    let fields = vec![
        ("A".to_string(), Json::Bool(true)),
        ("B".to_string(), Json::Null),
        ("A".to_string(), Json::Bool(false)),
    ];
    assert!(matches!(get_field(&fields, "A"), Some(Json::Bool(true))));
    assert!(matches!(get_field(&fields, "B"), Some(Json::Null)));
    assert!(get_field(&fields, "C").is_none());
}

#[test]
fn counts_must_be_non_negative_integers() {
    assert_eq!(decode_count(&Json::Number(Number::PosInt(7))), Ok(7));
    assert_eq!(decode_count(&Json::Number(Number::NegInt(-7))), Err(DecodeError::Schema));
    assert_eq!(decode_count(&Json::Number(float(7.0))), Err(DecodeError::Schema));
}

#[test]
fn type_tag_is_checked_first() {
    let input = Json::Object(vec![("Type".to_string(), Json::String("W".to_string()))]);
    assert_eq!(decode_input(&input), Err(DecodeError::UnknownVariant));
    let input = Json::Object(vec![("Type".to_string(), encode_type(PhysicsType::Y))]);
    assert_eq!(decode_input(&input), Err(DecodeError::Schema));
}
