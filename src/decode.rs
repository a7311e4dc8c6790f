//! Decoding a JSON tree into a `Physics3` document.
//!
//! Each record names its members explicitly. A record is decoded member by
//! member in a fixed order, and the first member that fails decides the error.
use crate::json::{get_field, lookup, Json, Number};
use crate::model::{
    spec_zero, EffectiveForces, Physics3, Physics3Meta, PhysicsIdName, PhysicsInput,
    PhysicsNormalization, PhysicsNormalizationParameter, PhysicsOutput, PhysicsSetting,
    PhysicsTarget, PhysicsType, PhysicsVertex, Vec2D,
};
use vstd::prelude::*;

verus! {

/// Why a document could not be decoded.
#[derive(Clone, Copy, Debug, PartialEq, Eq, Structural)]
pub enum DecodeError {
    /// The text is not well-formed JSON.
    Syntax,
    /// A required member is missing, or a value has the wrong JSON type.
    Schema,
    /// A tag (`Type` or `Target`) holds a value outside the known set.
    UnknownVariant,
}

/// The error of a result, if any.
pub open spec fn err_of<T>(r: Result<T, DecodeError>) -> Option<DecodeError> {
    match r {
        Ok(_) => None,
        Err(e) => Some(e),
    }
}

/// The error of the first item of `items` that fails `check`, if any.
pub open spec fn first_error(
    items: Seq<Json>,
    check: spec_fn(Json) -> Option<DecodeError>,
) -> Option<DecodeError>
    decreases items.len(),
{
    if items.len() == 0 {
        None
    } else {
        match first_error(items.drop_last(), check) {
            Some(e) => Some(e),
            None => check(items.last()),
        }
    }
}

/// `out` holds, item for item, what `items` decode to under `is`.
pub open spec fn all_decoded<T>(items: Seq<Json>, out: Seq<T>, is: spec_fn(Json, T) -> bool) -> bool {
    &&& out.len() == items.len()
    &&& forall|i: int| 0 <= i < items.len() ==> #[trigger] is(items[i], out[i])
}

/// The value of a required member.
pub open spec fn required(fields: Seq<(String, Json)>, key: Seq<char>) -> Result<Json, DecodeError> {
    match lookup(fields, key) {
        Some(v) => Ok(v),
        None => Err(DecodeError::Schema),
    }
}

/// A required member decoded by `f`.
pub open spec fn member<T>(
    fields: Seq<(String, Json)>,
    key: Seq<char>,
    f: spec_fn(Json) -> Result<T, DecodeError>,
) -> Result<T, DecodeError> {
    match required(fields, key) {
        Ok(v) => f(v),
        Err(e) => Err(e),
    }
}

/// A non-negative integer that fits in `usize`.
pub open spec fn spec_count(j: Json) -> Result<usize, DecodeError> {
    match j {
        Json::Number(Number::PosInt(n)) => if n <= usize::MAX {
            Ok(n as usize)
        } else {
            Err(DecodeError::Schema)
        },
        _ => Err(DecodeError::Schema),
    }
}

/// Any JSON number, kept as read.
pub open spec fn spec_real(j: Json) -> Result<Number, DecodeError> {
    match j {
        Json::Number(n) => Ok(n),
        _ => Err(DecodeError::Schema),
    }
}

pub open spec fn spec_flag(j: Json) -> Result<bool, DecodeError> {
    match j {
        Json::Bool(b) => Ok(b),
        _ => Err(DecodeError::Schema),
    }
}

pub open spec fn spec_text(j: Json) -> Result<String, DecodeError> {
    match j {
        Json::String(s) => Ok(s),
        _ => Err(DecodeError::Schema),
    }
}

/// The tag `"X"`, `"Y"` or `"Angle"`.
pub open spec fn spec_type(j: Json) -> Result<PhysicsType, DecodeError> {
    match j {
        Json::String(s) => if s@ == "X"@ {
            Ok(PhysicsType::X)
        } else if s@ == "Y"@ {
            Ok(PhysicsType::Y)
        } else if s@ == "Angle"@ {
            Ok(PhysicsType::Angle)
        } else {
            Err(DecodeError::UnknownVariant)
        },
        _ => Err(DecodeError::Schema),
    }
}

/// An object tagged by its `Target` member; `"Parameter"` carries an `Id`.
pub open spec fn spec_target(j: Json) -> Result<PhysicsTarget, DecodeError> {
    match j {
        Json::Object(fs) => match member(fs@, "Target"@, |t: Json| spec_text(t)) {
            Err(e) => Err(e),
            Ok(tag) => if tag@ == "Parameter"@ {
                match member(fs@, "Id"@, |t: Json| spec_text(t)) {
                    Ok(id) => Ok(PhysicsTarget::Parameter { id }),
                    Err(e) => Err(e),
                }
            } else {
                Err(DecodeError::UnknownVariant)
            },
        },
        _ => Err(DecodeError::Schema),
    }
}

/// A vector with required `X` and `Y`.
pub open spec fn spec_vec2(j: Json) -> Result<Vec2D, DecodeError> {
    match j {
        Json::Object(fs) => {
            let x = member(fs@, "X"@, |t: Json| spec_real(t));
            let y = member(fs@, "Y"@, |t: Json| spec_real(t));
            if x is Err {
                Err(x->Err_0)
            } else if y is Err {
                Err(y->Err_0)
            } else {
                Ok(Vec2D { x: x->Ok_0, y: y->Ok_0 })
            }
        },
        _ => Err(DecodeError::Schema),
    }
}

/// An optional vector member; the zero vector when absent.
pub open spec fn spec_force(fields: Seq<(String, Json)>, key: Seq<char>) -> Result<Vec2D, DecodeError> {
    match lookup(fields, key) {
        None => Ok(Vec2D { x: spec_zero(), y: spec_zero() }),
        Some(v) => spec_vec2(v),
    }
}

pub open spec fn spec_forces(j: Json) -> Result<EffectiveForces, DecodeError> {
    match j {
        Json::Object(fs) => {
            let g = spec_force(fs@, "Gravity"@);
            let w = spec_force(fs@, "Wind"@);
            if g is Err {
                Err(g->Err_0)
            } else if w is Err {
                Err(w->Err_0)
            } else {
                Ok(EffectiveForces { gravity: g->Ok_0, wind: w->Ok_0 })
            }
        },
        _ => Err(DecodeError::Schema),
    }
}

pub open spec fn spec_id_name(j: Json) -> Result<PhysicsIdName, DecodeError> {
    match j {
        Json::Object(fs) => {
            let id = member(fs@, "Id"@, |t: Json| spec_text(t));
            let name = member(fs@, "Name"@, |t: Json| spec_text(t));
            if id is Err {
                Err(id->Err_0)
            } else if name is Err {
                Err(name->Err_0)
            } else {
                Ok(PhysicsIdName { id: id->Ok_0, name: name->Ok_0 })
            }
        },
        _ => Err(DecodeError::Schema),
    }
}

pub open spec fn spec_range(j: Json) -> Result<PhysicsNormalizationParameter, DecodeError> {
    match j {
        Json::Object(fs) => {
            let lo = member(fs@, "Minimum"@, |t: Json| spec_real(t));
            let hi = member(fs@, "Maximum"@, |t: Json| spec_real(t));
            let d = member(fs@, "Default"@, |t: Json| spec_real(t));
            if lo is Err {
                Err(lo->Err_0)
            } else if hi is Err {
                Err(hi->Err_0)
            } else if d is Err {
                Err(d->Err_0)
            } else {
                Ok(PhysicsNormalizationParameter { minimum: lo->Ok_0, maximum: hi->Ok_0, default: d->Ok_0 })
            }
        },
        _ => Err(DecodeError::Schema),
    }
}

pub open spec fn spec_normalization(j: Json) -> Result<PhysicsNormalization, DecodeError> {
    match j {
        Json::Object(fs) => {
            let p = member(fs@, "Position"@, |t: Json| spec_range(t));
            let a = member(fs@, "Angle"@, |t: Json| spec_range(t));
            if p is Err {
                Err(p->Err_0)
            } else if a is Err {
                Err(a->Err_0)
            } else {
                Ok(PhysicsNormalization { position: p->Ok_0, angle: a->Ok_0 })
            }
        },
        _ => Err(DecodeError::Schema),
    }
}

/// The optional `Normalization` member: absent or `null` gives `None`.
pub open spec fn spec_opt_normalization(fields: Seq<(String, Json)>) -> Result<Option<PhysicsNormalization>, DecodeError> {
    match lookup(fields, "Normalization"@) {
        None => Ok(None),
        Some(Json::Null) => Ok(None),
        Some(v) => match spec_normalization(v) {
            Ok(n) => Ok(Some(n)),
            Err(e) => Err(e),
        },
    }
}

/// An input; its `Type` tag is read first.
pub open spec fn spec_input(j: Json) -> Result<PhysicsInput, DecodeError> {
    match j {
        Json::Object(fs) => {
            let ty = member(fs@, "Type"@, |t: Json| spec_type(t));
            let src = member(fs@, "Source"@, |t: Json| spec_target(t));
            let w = member(fs@, "Weight"@, |t: Json| spec_real(t));
            let r = member(fs@, "Reflect"@, |t: Json| spec_flag(t));
            if ty is Err {
                Err(ty->Err_0)
            } else if src is Err {
                Err(src->Err_0)
            } else if w is Err {
                Err(w->Err_0)
            } else if r is Err {
                Err(r->Err_0)
            } else {
                Ok(PhysicsInput { source: src->Ok_0, weight: w->Ok_0, input_type: ty->Ok_0, reflect: r->Ok_0 })
            }
        },
        _ => Err(DecodeError::Schema),
    }
}

/// An output; its `Type` tag is read first.
pub open spec fn spec_output(j: Json) -> Result<PhysicsOutput, DecodeError> {
    match j {
        Json::Object(fs) => {
            let ty = member(fs@, "Type"@, |t: Json| spec_type(t));
            let dst = member(fs@, "Destination"@, |t: Json| spec_target(t));
            let vi = member(fs@, "VertexIndex"@, |t: Json| spec_count(t));
            let sc = member(fs@, "Scale"@, |t: Json| spec_real(t));
            let w = member(fs@, "Weight"@, |t: Json| spec_real(t));
            let r = member(fs@, "Reflect"@, |t: Json| spec_flag(t));
            if ty is Err {
                Err(ty->Err_0)
            } else if dst is Err {
                Err(dst->Err_0)
            } else if vi is Err {
                Err(vi->Err_0)
            } else if sc is Err {
                Err(sc->Err_0)
            } else if w is Err {
                Err(w->Err_0)
            } else if r is Err {
                Err(r->Err_0)
            } else {
                Ok(PhysicsOutput {
                    destination: dst->Ok_0,
                    vertex_index: vi->Ok_0,
                    scale: sc->Ok_0,
                    weight: w->Ok_0,
                    output_type: ty->Ok_0,
                    reflect: r->Ok_0,
                })
            }
        },
        _ => Err(DecodeError::Schema),
    }
}

pub open spec fn spec_vertex(j: Json) -> Result<PhysicsVertex, DecodeError> {
    match j {
        Json::Object(fs) => {
            let p = member(fs@, "Position"@, |t: Json| spec_vec2(t));
            let m = member(fs@, "Mobility"@, |t: Json| spec_real(t));
            let d = member(fs@, "Delay"@, |t: Json| spec_real(t));
            let a = member(fs@, "Acceleration"@, |t: Json| spec_real(t));
            let r = member(fs@, "Radius"@, |t: Json| spec_real(t));
            if p is Err {
                Err(p->Err_0)
            } else if m is Err {
                Err(m->Err_0)
            } else if d is Err {
                Err(d->Err_0)
            } else if a is Err {
                Err(a->Err_0)
            } else if r is Err {
                Err(r->Err_0)
            } else {
                Ok(PhysicsVertex { position: p->Ok_0, mobility: m->Ok_0, delay: d->Ok_0, acceleration: a->Ok_0, radius: r->Ok_0 })
            }
        },
        _ => Err(DecodeError::Schema),
    }
}

/// The error of an array member decoded item by item; an absent member is
/// an error only when `needed`.
pub open spec fn list_error(
    fields: Seq<(String, Json)>,
    key: Seq<char>,
    needed: bool,
    check: spec_fn(Json) -> Option<DecodeError>,
) -> Option<DecodeError> {
    match lookup(fields, key) {
        None => if needed { Some(DecodeError::Schema) } else { None },
        Some(Json::Array(items)) => first_error(items@, check),
        Some(_) => Some(DecodeError::Schema),
    }
}

/// `out` is what an array member decodes to; empty when it is absent.
pub open spec fn list_is<T>(
    fields: Seq<(String, Json)>,
    key: Seq<char>,
    out: Seq<T>,
    is: spec_fn(Json, T) -> bool,
) -> bool {
    match lookup(fields, key) {
        None => out.len() == 0,
        Some(Json::Array(items)) => all_decoded(items@, out, is),
        Some(_) => false,
    }
}

/// The error of a setting: `Id`, then `Input`, `Output`, `Vertices` (each
/// empty when absent), then `Normalization`.
pub open spec fn setting_error(j: Json) -> Option<DecodeError> {
    match j {
        Json::Object(fs) => {
            let id = member(fs@, "Id"@, |t: Json| spec_text(t));
            if id is Err {
                Some(id->Err_0)
            } else if list_error(fs@, "Input"@, false, |t: Json| err_of(spec_input(t))) is Some {
                list_error(fs@, "Input"@, false, |t: Json| err_of(spec_input(t)))
            } else if list_error(fs@, "Output"@, false, |t: Json| err_of(spec_output(t))) is Some {
                list_error(fs@, "Output"@, false, |t: Json| err_of(spec_output(t)))
            } else if list_error(fs@, "Vertices"@, false, |t: Json| err_of(spec_vertex(t))) is Some {
                list_error(fs@, "Vertices"@, false, |t: Json| err_of(spec_vertex(t)))
            } else {
                err_of(spec_opt_normalization(fs@))
            }
        },
        _ => Some(DecodeError::Schema),
    }
}

/// `s` is what the setting `j` decodes to.
pub open spec fn setting_is(j: Json, s: PhysicsSetting) -> bool {
    match j {
        Json::Object(fs) => {
            &&& member(fs@, "Id"@, |t: Json| spec_text(t)) == Ok::<String, DecodeError>(s.id)
            &&& list_is(fs@, "Input"@, s.inputs@, |t: Json, x: PhysicsInput| spec_input(t) == Ok::<PhysicsInput, DecodeError>(x))
            &&& list_is(fs@, "Output"@, s.outputs@, |t: Json, x: PhysicsOutput| spec_output(t) == Ok::<PhysicsOutput, DecodeError>(x))
            &&& list_is(fs@, "Vertices"@, s.vertices@, |t: Json, x: PhysicsVertex| spec_vertex(t) == Ok::<PhysicsVertex, DecodeError>(x))
            &&& spec_opt_normalization(fs@) == Ok::<Option<PhysicsNormalization>, DecodeError>(s.normalization)
        },
        _ => false,
    }
}

/// The error of the meta block: the four counts, `EffectiveForces`, then
/// `PhysicsDictionary`.
pub open spec fn meta_error(j: Json) -> Option<DecodeError> {
    match j {
        Json::Object(fs) => {
            let a = member(fs@, "TotalInputCount"@, |t: Json| spec_count(t));
            let b = member(fs@, "TotalOutputCount"@, |t: Json| spec_count(t));
            let c = member(fs@, "VertexCount"@, |t: Json| spec_count(t));
            let d = member(fs@, "PhysicsSettingCount"@, |t: Json| spec_count(t));
            let f = member(fs@, "EffectiveForces"@, |t: Json| spec_forces(t));
            if a is Err {
                Some(a->Err_0)
            } else if b is Err {
                Some(b->Err_0)
            } else if c is Err {
                Some(c->Err_0)
            } else if d is Err {
                Some(d->Err_0)
            } else if f is Err {
                Some(f->Err_0)
            } else {
                list_error(fs@, "PhysicsDictionary"@, true, |t: Json| err_of(spec_id_name(t)))
            }
        },
        _ => Some(DecodeError::Schema),
    }
}

/// `m` is what the meta block `j` decodes to.
pub open spec fn meta_is(j: Json, m: Physics3Meta) -> bool {
    match j {
        Json::Object(fs) => {
            &&& member(fs@, "TotalInputCount"@, |t: Json| spec_count(t)) == Ok::<usize, DecodeError>(m.total_input_count)
            &&& member(fs@, "TotalOutputCount"@, |t: Json| spec_count(t)) == Ok::<usize, DecodeError>(m.total_output_count)
            &&& member(fs@, "VertexCount"@, |t: Json| spec_count(t)) == Ok::<usize, DecodeError>(m.total_vertices)
            &&& member(fs@, "PhysicsSettingCount"@, |t: Json| spec_count(t)) == Ok::<usize, DecodeError>(m.physics_setting_count)
            &&& member(fs@, "EffectiveForces"@, |t: Json| spec_forces(t)) == Ok::<EffectiveForces, DecodeError>(m.effective_forces)
            &&& list_is(fs@, "PhysicsDictionary"@, m.physics_dictionary@, |t: Json, x: PhysicsIdName| spec_id_name(t) == Ok::<PhysicsIdName, DecodeError>(x))
        },
        _ => false,
    }
}

/// The error of a document: `Version`, then `Meta`, then `PhysicsSettings`.
pub open spec fn document_error(j: Json) -> Option<DecodeError> {
    match j {
        Json::Object(fs) => {
            let v = member(fs@, "Version"@, |t: Json| spec_count(t));
            if v is Err {
                Some(v->Err_0)
            } else if required(fs@, "Meta"@) is Err {
                Some(DecodeError::Schema)
            } else if meta_error(required(fs@, "Meta"@)->Ok_0) is Some {
                meta_error(required(fs@, "Meta"@)->Ok_0)
            } else {
                list_error(fs@, "PhysicsSettings"@, true, |t: Json| setting_error(t))
            }
        },
        _ => Some(DecodeError::Schema),
    }
}

/// `d` is what the document `j` decodes to.
pub open spec fn document_is(j: Json, d: Physics3) -> bool {
    match j {
        Json::Object(fs) => {
            &&& member(fs@, "Version"@, |t: Json| spec_count(t)) == Ok::<usize, DecodeError>(d.version)
            &&& required(fs@, "Meta"@) is Ok
            &&& meta_is(required(fs@, "Meta"@)->Ok_0, d.meta)
            &&& list_is(fs@, "PhysicsSettings"@, d.physics_settings@, |t: Json, x: PhysicsSetting| setting_is(t, x))
        },
        _ => false,
    }
}

/// Whether `s` reads `lit`.
fn is_name(s: &String, lit: &str) -> (r: bool)
    ensures
        r == (s@ == lit@),
{
    let t = String::from_str(lit);
    *s == t
}

/// The value of the required member `key`.
fn require<'a>(fields: &'a Vec<(String, Json)>, key: &str) -> (r: Result<&'a Json, DecodeError>)
    ensures
        match r {
            Ok(v) => required(fields@, key@) == Ok::<Json, DecodeError>(*v),
            Err(e) => required(fields@, key@) == Err::<Json, DecodeError>(e),
        },
{
    match get_field(fields, key) {
        Some(v) => Ok(v),
        None => Err(DecodeError::Schema),
    }
}

pub fn decode_count(j: &Json) -> (r: Result<usize, DecodeError>)
    ensures
        r == spec_count(*j),
{
    match j {
        Json::Number(Number::PosInt(n)) => if *n <= usize::MAX as u64 {
            Ok(*n as usize)
        } else {
            Err(DecodeError::Schema)
        },
        _ => Err(DecodeError::Schema),
    }
}

pub fn decode_real(j: &Json) -> (r: Result<Number, DecodeError>)
    ensures
        r == spec_real(*j),
{
    match j {
        Json::Number(n) => Ok(*n),
        _ => Err(DecodeError::Schema),
    }
}

pub fn decode_flag(j: &Json) -> (r: Result<bool, DecodeError>)
    ensures
        r == spec_flag(*j),
{
    match j {
        Json::Bool(b) => Ok(*b),
        _ => Err(DecodeError::Schema),
    }
}

pub fn decode_text(j: &Json) -> (r: Result<String, DecodeError>)
    ensures
        r == spec_text(*j),
{
    match j {
        Json::String(s) => Ok(s.clone()),
        _ => Err(DecodeError::Schema),
    }
}

pub fn decode_type(j: &Json) -> (r: Result<PhysicsType, DecodeError>)
    ensures
        r == spec_type(*j),
{
    match j {
        Json::String(s) => if is_name(s, "X") {
            Ok(PhysicsType::X)
        } else if is_name(s, "Y") {
            Ok(PhysicsType::Y)
        } else if is_name(s, "Angle") {
            Ok(PhysicsType::Angle)
        } else {
            Err(DecodeError::UnknownVariant)
        },
        _ => Err(DecodeError::Schema),
    }
}

pub fn decode_target(j: &Json) -> (r: Result<PhysicsTarget, DecodeError>)
    ensures
        r == spec_target(*j),
{
    match j {
        Json::Object(fs) => {
            let tag = match require(fs, "Target") {
                Ok(v) => decode_text(v),
                Err(e) => Err(e),
            };
            let tag = match tag {
                Ok(t) => t,
                Err(e) => return Err(e),
            };
            if !is_name(&tag, "Parameter") {
                return Err(DecodeError::UnknownVariant);
            }
            let id = match require(fs, "Id") {
                Ok(v) => decode_text(v),
                Err(e) => Err(e),
            };
            match id {
                Ok(id) => Ok(PhysicsTarget::Parameter { id }),
                Err(e) => Err(e),
            }
        },
        _ => Err(DecodeError::Schema),
    }
}

pub fn decode_vec2(j: &Json) -> (r: Result<Vec2D, DecodeError>)
    ensures
        r == spec_vec2(*j),
{
    match j {
        Json::Object(fs) => {
            let x = match require(fs, "X") {
                Ok(v) => decode_real(v),
                Err(e) => Err(e),
            };
            let y = match require(fs, "Y") {
                Ok(v) => decode_real(v),
                Err(e) => Err(e),
            };
            let x = match x {
                Ok(x) => x,
                Err(e) => return Err(e),
            };
            let y = match y {
                Ok(x) => x,
                Err(e) => return Err(e),
            };
            Ok(Vec2D { x, y })
        },
        _ => Err(DecodeError::Schema),
    }
}

/// The optional vector member `key`: the zero vector when absent.
fn decode_force(fs: &Vec<(String, Json)>, key: &str) -> (r: Result<Vec2D, DecodeError>)
    ensures
        r == spec_force(fs@, key@),
{
    match get_field(fs, key) {
        None => Ok(Vec2D::zero()),
        Some(v) => decode_vec2(v),
    }
}

pub fn decode_forces(j: &Json) -> (r: Result<EffectiveForces, DecodeError>)
    ensures
        r == spec_forces(*j),
{
    match j {
        Json::Object(fs) => {
            let gravity = match decode_force(fs, "Gravity") {
                Ok(x) => x,
                Err(e) => return Err(e),
            };
            let wind = match decode_force(fs, "Wind") {
                Ok(x) => x,
                Err(e) => return Err(e),
            };
            Ok(EffectiveForces { gravity, wind })
        },
        _ => Err(DecodeError::Schema),
    }
}

pub fn decode_id_name(j: &Json) -> (r: Result<PhysicsIdName, DecodeError>)
    ensures
        r == spec_id_name(*j),
{
    match j {
        Json::Object(fs) => {
            let id = match require(fs, "Id") {
                Ok(v) => decode_text(v),
                Err(e) => Err(e),
            };
            let name = match require(fs, "Name") {
                Ok(v) => decode_text(v),
                Err(e) => Err(e),
            };
            let id = match id {
                Ok(x) => x,
                Err(e) => return Err(e),
            };
            let name = match name {
                Ok(x) => x,
                Err(e) => return Err(e),
            };
            Ok(PhysicsIdName { id, name })
        },
        _ => Err(DecodeError::Schema),
    }
}

pub fn decode_range(j: &Json) -> (r: Result<PhysicsNormalizationParameter, DecodeError>)
    ensures
        r == spec_range(*j),
{
    match j {
        Json::Object(fs) => {
            let minimum = match require(fs, "Minimum") {
                Ok(v) => decode_real(v),
                Err(e) => Err(e),
            };
            let maximum = match require(fs, "Maximum") {
                Ok(v) => decode_real(v),
                Err(e) => Err(e),
            };
            let default = match require(fs, "Default") {
                Ok(v) => decode_real(v),
                Err(e) => Err(e),
            };
            let minimum = match minimum {
                Ok(x) => x,
                Err(e) => return Err(e),
            };
            let maximum = match maximum {
                Ok(x) => x,
                Err(e) => return Err(e),
            };
            let default = match default {
                Ok(x) => x,
                Err(e) => return Err(e),
            };
            Ok(PhysicsNormalizationParameter { minimum, maximum, default })
        },
        _ => Err(DecodeError::Schema),
    }
}

pub fn decode_normalization(j: &Json) -> (r: Result<PhysicsNormalization, DecodeError>)
    ensures
        r == spec_normalization(*j),
{
    match j {
        Json::Object(fs) => {
            let position = match require(fs, "Position") {
                Ok(v) => decode_range(v),
                Err(e) => Err(e),
            };
            let angle = match require(fs, "Angle") {
                Ok(v) => decode_range(v),
                Err(e) => Err(e),
            };
            let position = match position {
                Ok(x) => x,
                Err(e) => return Err(e),
            };
            let angle = match angle {
                Ok(x) => x,
                Err(e) => return Err(e),
            };
            Ok(PhysicsNormalization { position, angle })
        },
        _ => Err(DecodeError::Schema),
    }
}

pub fn decode_input(j: &Json) -> (r: Result<PhysicsInput, DecodeError>)
    ensures
        r == spec_input(*j),
{
    match j {
        Json::Object(fs) => {
            let input_type = match require(fs, "Type") {
                Ok(v) => decode_type(v),
                Err(e) => Err(e),
            };
            let source = match require(fs, "Source") {
                Ok(v) => decode_target(v),
                Err(e) => Err(e),
            };
            let weight = match require(fs, "Weight") {
                Ok(v) => decode_real(v),
                Err(e) => Err(e),
            };
            let reflect = match require(fs, "Reflect") {
                Ok(v) => decode_flag(v),
                Err(e) => Err(e),
            };
            let input_type = match input_type {
                Ok(x) => x,
                Err(e) => return Err(e),
            };
            let source = match source {
                Ok(x) => x,
                Err(e) => return Err(e),
            };
            let weight = match weight {
                Ok(x) => x,
                Err(e) => return Err(e),
            };
            let reflect = match reflect {
                Ok(x) => x,
                Err(e) => return Err(e),
            };
            Ok(PhysicsInput { source, weight, input_type, reflect })
        },
        _ => Err(DecodeError::Schema),
    }
}

pub fn decode_output(j: &Json) -> (r: Result<PhysicsOutput, DecodeError>)
    ensures
        r == spec_output(*j),
{
    match j {
        Json::Object(fs) => {
            let output_type = match require(fs, "Type") {
                Ok(v) => decode_type(v),
                Err(e) => Err(e),
            };
            let destination = match require(fs, "Destination") {
                Ok(v) => decode_target(v),
                Err(e) => Err(e),
            };
            let vertex_index = match require(fs, "VertexIndex") {
                Ok(v) => decode_count(v),
                Err(e) => Err(e),
            };
            let scale = match require(fs, "Scale") {
                Ok(v) => decode_real(v),
                Err(e) => Err(e),
            };
            let weight = match require(fs, "Weight") {
                Ok(v) => decode_real(v),
                Err(e) => Err(e),
            };
            let reflect = match require(fs, "Reflect") {
                Ok(v) => decode_flag(v),
                Err(e) => Err(e),
            };
            let output_type = match output_type {
                Ok(x) => x,
                Err(e) => return Err(e),
            };
            let destination = match destination {
                Ok(x) => x,
                Err(e) => return Err(e),
            };
            let vertex_index = match vertex_index {
                Ok(x) => x,
                Err(e) => return Err(e),
            };
            let scale = match scale {
                Ok(x) => x,
                Err(e) => return Err(e),
            };
            let weight = match weight {
                Ok(x) => x,
                Err(e) => return Err(e),
            };
            let reflect = match reflect {
                Ok(x) => x,
                Err(e) => return Err(e),
            };
            Ok(PhysicsOutput { destination, vertex_index, scale, weight, output_type, reflect })
        },
        _ => Err(DecodeError::Schema),
    }
}

pub fn decode_vertex(j: &Json) -> (r: Result<PhysicsVertex, DecodeError>)
    ensures
        r == spec_vertex(*j),
{
    match j {
        Json::Object(fs) => {
            let position = match require(fs, "Position") {
                Ok(v) => decode_vec2(v),
                Err(e) => Err(e),
            };
            let mobility = match require(fs, "Mobility") {
                Ok(v) => decode_real(v),
                Err(e) => Err(e),
            };
            let delay = match require(fs, "Delay") {
                Ok(v) => decode_real(v),
                Err(e) => Err(e),
            };
            let acceleration = match require(fs, "Acceleration") {
                Ok(v) => decode_real(v),
                Err(e) => Err(e),
            };
            let radius = match require(fs, "Radius") {
                Ok(v) => decode_real(v),
                Err(e) => Err(e),
            };
            let position = match position {
                Ok(x) => x,
                Err(e) => return Err(e),
            };
            let mobility = match mobility {
                Ok(x) => x,
                Err(e) => return Err(e),
            };
            let delay = match delay {
                Ok(x) => x,
                Err(e) => return Err(e),
            };
            let acceleration = match acceleration {
                Ok(x) => x,
                Err(e) => return Err(e),
            };
            let radius = match radius {
                Ok(x) => x,
                Err(e) => return Err(e),
            };
            Ok(PhysicsVertex { position, mobility, delay, acceleration, radius })
        },
        _ => Err(DecodeError::Schema),
    }
}

/// The optional `Normalization` member: absent or `null` gives `None`.
fn decode_opt_normalization(fs: &Vec<(String, Json)>) -> (r: Result<Option<PhysicsNormalization>, DecodeError>)
    ensures
        r == spec_opt_normalization(fs@),
{
    match get_field(fs, "Normalization") {
        None => Ok(None),
        Some(Json::Null) => Ok(None),
        Some(v) => match decode_normalization(v) {
            Ok(n) => Ok(Some(n)),
            Err(e) => Err(e),
        },
    }
}

/// An error in a prefix of `items` is the error of all of `items`.
proof fn lemma_first_error_prefix(items: Seq<Json>, n: int, check: spec_fn(Json) -> Option<DecodeError>)
    requires
        0 <= n <= items.len(),
        first_error(items.subrange(0, n), check) is Some,
    ensures
        first_error(items, check) == first_error(items.subrange(0, n), check),
    decreases items.len(),
{
    if n == items.len() {
        assert(items.subrange(0, n) =~= items);
    } else {
        assert(items.drop_last().subrange(0, n) =~= items.subrange(0, n));
        lemma_first_error_prefix(items.drop_last(), n, check);
    }
}

/// Decodes every item of an array with `f`, stopping at the first failure.
fn decode_items<T, F: Fn(&Json) -> Result<T, DecodeError>>(
    items: &Vec<Json>,
    f: F,
    Ghost(check): Ghost<spec_fn(Json) -> Option<DecodeError>>,
    Ghost(is): Ghost<spec_fn(Json, T) -> bool>,
) -> (r: Result<Vec<T>, DecodeError>)
    requires
        forall|j: &Json| f.requires((j,)),
        forall|j: &Json, x: Result<T, DecodeError>|
            f.ensures((j,), x) ==> match x {
                Ok(v) => check(*j) is None && is(*j, v),
                Err(e) => check(*j) == Some(e),
            },
    ensures
        match r {
            Ok(out) => first_error(items@, check) is None && all_decoded(items@, out@, is),
            Err(e) => first_error(items@, check) == Some(e),
        },
{
    let mut out: Vec<T> = Vec::new();
    let mut i: usize = 0;
    while i < items.len()
        invariant
            i <= items@.len(),
            out@.len() == i,
            first_error(items@.subrange(0, i as int), check) is None,
            forall|k: int| 0 <= k < i ==> #[trigger] is(items@[k], out@[k]),
            forall|j: &Json| f.requires((j,)),
            forall|j: &Json, x: Result<T, DecodeError>|
                f.ensures((j,), x) ==> match x {
                    Ok(v) => check(*j) is None && is(*j, v),
                    Err(e) => check(*j) == Some(e),
                },
        decreases items.len() - i,
    {
        let x = f(&items[i]);
        assert(items@.subrange(0, i + 1).drop_last() =~= items@.subrange(0, i as int));
        match x {
            Ok(v) => {
                out.push(v);
                i = i + 1;
            },
            Err(e) => {
                proof {
                    lemma_first_error_prefix(items@, i + 1, check);
                }
                return Err(e);
            },
        }
    }
    assert(items@.subrange(0, items@.len() as int) =~= items@);
    Ok(out)
}

/// Decodes the array member `key` item by item; an absent member gives an
/// empty list, or an error when `needed`.
fn decode_list<T, F: Fn(&Json) -> Result<T, DecodeError>>(
    fs: &Vec<(String, Json)>,
    key: &str,
    needed: bool,
    f: F,
    Ghost(check): Ghost<spec_fn(Json) -> Option<DecodeError>>,
    Ghost(is): Ghost<spec_fn(Json, T) -> bool>,
) -> (r: Result<Vec<T>, DecodeError>)
    requires
        forall|j: &Json| f.requires((j,)),
        forall|j: &Json, x: Result<T, DecodeError>|
            f.ensures((j,), x) ==> match x {
                Ok(v) => check(*j) is None && is(*j, v),
                Err(e) => check(*j) == Some(e),
            },
    ensures
        match r {
            Ok(out) => list_error(fs@, key@, needed, check) is None && list_is(fs@, key@, out@, is),
            Err(e) => list_error(fs@, key@, needed, check) == Some(e),
        },
{
    match get_field(fs, key) {
        None => if needed {
            Err(DecodeError::Schema)
        } else {
            Ok(Vec::new())
        },
        Some(Json::Array(items)) => decode_items(items, f, Ghost(check), Ghost(is)),
        Some(_) => Err(DecodeError::Schema),
    }
}

/// Decodes one physics setting.
pub fn decode_setting(j: &Json) -> (r: Result<PhysicsSetting, DecodeError>)
    ensures
        match r {
            Ok(s) => setting_error(*j) is None && setting_is(*j, s),
            Err(e) => setting_error(*j) == Some(e),
        },
{
    match j {
        Json::Object(fs) => {
            let id = match require(fs, "Id") {
                Ok(v) => decode_text(v),
                Err(e) => Err(e),
            };
            let id = match id {
                Ok(x) => x,
                Err(e) => return Err(e),
            };
            let inputs = decode_list(
                fs,
                "Input",
                false,
                decode_input,
                Ghost(|t: Json| err_of(spec_input(t))),
                Ghost(|t: Json, x: PhysicsInput| spec_input(t) == Ok::<PhysicsInput, DecodeError>(x)),
            );
            let inputs = match inputs {
                Ok(x) => x,
                Err(e) => return Err(e),
            };
            let outputs = decode_list(
                fs,
                "Output",
                false,
                decode_output,
                Ghost(|t: Json| err_of(spec_output(t))),
                Ghost(|t: Json, x: PhysicsOutput| spec_output(t) == Ok::<PhysicsOutput, DecodeError>(x)),
            );
            let outputs = match outputs {
                Ok(x) => x,
                Err(e) => return Err(e),
            };
            let vertices = decode_list(
                fs,
                "Vertices",
                false,
                decode_vertex,
                Ghost(|t: Json| err_of(spec_vertex(t))),
                Ghost(|t: Json, x: PhysicsVertex| spec_vertex(t) == Ok::<PhysicsVertex, DecodeError>(x)),
            );
            let vertices = match vertices {
                Ok(x) => x,
                Err(e) => return Err(e),
            };
            let normalization = match decode_opt_normalization(fs) {
                Ok(x) => x,
                Err(e) => return Err(e),
            };
            Ok(PhysicsSetting { id, inputs, outputs, vertices, normalization })
        },
        _ => Err(DecodeError::Schema),
    }
}

/// Decodes the meta block.
pub fn decode_meta(j: &Json) -> (r: Result<Physics3Meta, DecodeError>)
    ensures
        match r {
            Ok(m) => meta_error(*j) is None && meta_is(*j, m),
            Err(e) => meta_error(*j) == Some(e),
        },
{
    match j {
        Json::Object(fs) => {
            let total_input_count = match require(fs, "TotalInputCount") {
                Ok(v) => decode_count(v),
                Err(e) => Err(e),
            };
            let total_input_count = match total_input_count {
                Ok(x) => x,
                Err(e) => return Err(e),
            };
            let total_output_count = match require(fs, "TotalOutputCount") {
                Ok(v) => decode_count(v),
                Err(e) => Err(e),
            };
            let total_output_count = match total_output_count {
                Ok(x) => x,
                Err(e) => return Err(e),
            };
            let total_vertices = match require(fs, "VertexCount") {
                Ok(v) => decode_count(v),
                Err(e) => Err(e),
            };
            let total_vertices = match total_vertices {
                Ok(x) => x,
                Err(e) => return Err(e),
            };
            let physics_setting_count = match require(fs, "PhysicsSettingCount") {
                Ok(v) => decode_count(v),
                Err(e) => Err(e),
            };
            let physics_setting_count = match physics_setting_count {
                Ok(x) => x,
                Err(e) => return Err(e),
            };
            let effective_forces = match require(fs, "EffectiveForces") {
                Ok(v) => decode_forces(v),
                Err(e) => Err(e),
            };
            let effective_forces = match effective_forces {
                Ok(x) => x,
                Err(e) => return Err(e),
            };
            let physics_dictionary = decode_list(
                fs,
                "PhysicsDictionary",
                true,
                decode_id_name,
                Ghost(|t: Json| err_of(spec_id_name(t))),
                Ghost(|t: Json, x: PhysicsIdName| spec_id_name(t) == Ok::<PhysicsIdName, DecodeError>(x)),
            );
            let physics_dictionary = match physics_dictionary {
                Ok(x) => x,
                Err(e) => return Err(e),
            };
            Ok(Physics3Meta {
                total_input_count,
                total_output_count,
                total_vertices,
                physics_setting_count,
                effective_forces,
                physics_dictionary,
            })
        },
        _ => Err(DecodeError::Schema),
    }
}

/// Decodes a whole document. It succeeds exactly when `document_error` is
/// `None`, and then gives the document that `document_is` describes.
pub fn decode_document(j: &Json) -> (r: Result<Physics3, DecodeError>)
    ensures
        match r {
            Ok(d) => document_error(*j) is None && document_is(*j, d),
            Err(e) => document_error(*j) == Some(e),
        },
{
    match j {
        Json::Object(fs) => {
            let version = match require(fs, "Version") {
                Ok(v) => decode_count(v),
                Err(e) => Err(e),
            };
            let version = match version {
                Ok(x) => x,
                Err(e) => return Err(e),
            };
            let meta = match require(fs, "Meta") {
                Ok(v) => v,
                Err(e) => return Err(e),
            };
            let meta = match decode_meta(meta) {
                Ok(x) => x,
                Err(e) => return Err(e),
            };
            let physics_settings = decode_list(
                fs,
                "PhysicsSettings",
                true,
                decode_setting,
                Ghost(|t: Json| setting_error(t)),
                Ghost(|t: Json, x: PhysicsSetting| setting_is(t, x)),
            );
            let physics_settings = match physics_settings {
                Ok(x) => x,
                Err(e) => return Err(e),
            };
            Ok(Physics3 { version, meta, physics_settings })
        },
        _ => Err(DecodeError::Schema),
    }
}

} // verus!
