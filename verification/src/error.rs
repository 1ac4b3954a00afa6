use vstd::prelude::*;

use crate::ids::{MaterialId, ObjectId, PrimitiveId};
use crate::text::{append_decimal, decimal};

verus! {

/// Failure of a checked arithmetic operation.
#[derive(Debug, Clone, Copy, PartialEq, Eq, Structural)]
pub enum MathError {
    DivisionByZero,
    InvalidNumber,
    Overflow,
}

/// Failure of a value check.
#[derive(Debug, Clone, Copy, PartialEq, Eq, Structural)]
pub enum ValidationError {
    NotFinite,
    OutOfRange,
}

/// A material identifier that names no material of the scene.
#[derive(Debug, Clone, Copy, PartialEq, Eq, Structural)]
pub enum MaterialError {
    UnknownMaterial { material_id: MaterialId },
}

/// A request about a primitive asset that the scene cannot carry out.
#[derive(Debug, Clone, Copy, PartialEq, Eq, Structural)]
pub enum PrimitiveError {
    UnknownPrimitive { primitive_id: PrimitiveId },
    NotAMesh { primitive_id: PrimitiveId },
    VertexRangeOutOfBounds {
        primitive_id: PrimitiveId,
        start: usize,
        count: usize,
        vertex_count: usize,
    },
    EmptyVertexUpdate,
    InvalidTopology { primitive_id: PrimitiveId },
}

/// A request about an object that the scene cannot carry out.
#[derive(Debug, Clone, Copy, PartialEq, Eq, Structural)]
pub enum ObjectError {
    UnknownObject { object_id: ObjectId },
    InvalidParent { object_id: ObjectId },
}

/// Any refusal of a scene operation.
#[derive(Debug, Clone, Copy, PartialEq, Eq, Structural)]
pub enum SceneError {
    Primitive(PrimitiveError),
    Material(MaterialError),
    Object(ObjectError),
}

impl From<MaterialError> for SceneError {
    fn from(error: MaterialError) -> (r: SceneError) {
        SceneError::Material(error)
    }
}

impl vstd::std_specs::convert::FromSpecImpl<MaterialError> for SceneError {
    open spec fn obeys_from_spec() -> bool {
        true
    }

    open spec fn from_spec(error: MaterialError) -> SceneError {
        SceneError::Material(error)
    }
}

impl From<PrimitiveError> for SceneError {
    fn from(error: PrimitiveError) -> (r: SceneError) {
        SceneError::Primitive(error)
    }
}

impl vstd::std_specs::convert::FromSpecImpl<PrimitiveError> for SceneError {
    open spec fn obeys_from_spec() -> bool {
        true
    }

    open spec fn from_spec(error: PrimitiveError) -> SceneError {
        SceneError::Primitive(error)
    }
}

impl From<ObjectError> for SceneError {
    fn from(error: ObjectError) -> (r: SceneError) {
        SceneError::Object(error)
    }
}

impl vstd::std_specs::convert::FromSpecImpl<ObjectError> for SceneError {
    open spec fn obeys_from_spec() -> bool {
        true
    }

    open spec fn from_spec(error: ObjectError) -> SceneError {
        SceneError::Object(error)
    }
}

/// A refusal to update the vertices of a compiled mesh.
#[derive(Debug, Clone, Copy, PartialEq, Eq, Structural)]
pub enum MeshUpdateError {
    UnknownPrimitive(PrimitiveId),
    NotAMesh(PrimitiveId),
    VertexCountMismatch { expected: usize, got: usize },
}

/// A reason why a scene cannot be compiled for rendering.
#[derive(Debug, Clone, Copy, PartialEq, Eq, Structural)]
pub enum SceneCompileError {
    InvalidMaterialId { object_id: ObjectId, material_id: MaterialId },
    InvalidPrimitiveId { object_id: ObjectId, primitive_id: PrimitiveId },
    MeshIndexOutOfRange {
        primitive_id: PrimitiveId,
        triangle_index: usize,
        vertex_index: u32,
        vertex_count: usize,
    },
    DegenerateTriangle { primitive_id: PrimitiveId, triangle_index: usize },
    NonInvertibleTransform { object_id: ObjectId },
}

/// An error reported by the application, with plain identifiers.
#[derive(Debug, Clone)]
pub enum AppError {
    ObjectNotFound { object_id: usize },
    PrimitiveNotFound { primitive_id: usize },
    PrimitiveIsNotMesh { primitive_id: usize },
    VertexRangeOutOfBounds { primitive_id: usize, start: usize, count: usize, vertex_count: usize },
    InvalidScene { message: String },
    RenderFailed { message: String },
    IoFailed { message: String },
}

/// The debug rendering of a scene error, as the standard formatting machinery writes it.
pub uninterp spec fn scene_error_debug_text(error: SceneError) -> Seq<char>;

/// Renders a scene error with its derived `Debug` implementation (`format!("{:?}")`).
/// The contract claims only that the text is a fixed function of the error's value.
#[verifier::external_body]
fn scene_error_debug_string(error: &SceneError) -> (r: String)
    ensures
        r@ == scene_error_debug_text(*error),
{
    format!("{:?}", error)
}

/// The application error that a scene error is reported as.
pub open spec fn app_error_matches(error: SceneError, r: AppError) -> bool {
    match error {
        SceneError::Object(ObjectError::UnknownObject { object_id }) => r
            == AppError::ObjectNotFound { object_id: object_id.0 },
        SceneError::Primitive(PrimitiveError::UnknownPrimitive { primitive_id }) => r
            == AppError::PrimitiveNotFound { primitive_id: primitive_id.0 },
        SceneError::Primitive(PrimitiveError::NotAMesh { primitive_id }) => r
            == AppError::PrimitiveIsNotMesh { primitive_id: primitive_id.0 },
        SceneError::Primitive(
            PrimitiveError::VertexRangeOutOfBounds { primitive_id, start, count, vertex_count },
        ) => r == AppError::VertexRangeOutOfBounds {
            primitive_id: primitive_id.0,
            start,
            count,
            vertex_count,
        },
        _ => r matches AppError::InvalidScene { message } && message@ == scene_error_debug_text(
            error,
        ),
    }
}

/// The text of an application error.
pub open spec fn app_error_text(e: AppError) -> Seq<char> {
    match e {
        AppError::ObjectNotFound { object_id } => "オブジェクト "@ + decimal(object_id as nat)
            + " が見つかりません"@,
        AppError::PrimitiveNotFound { primitive_id } => "プリミティブ "@ + decimal(
            primitive_id as nat,
        ) + " が見つかりません"@,
        AppError::PrimitiveIsNotMesh { primitive_id } => "プリミティブ "@ + decimal(
            primitive_id as nat,
        ) + " はメッシュではありません"@,
        AppError::VertexRangeOutOfBounds { primitive_id, start, count, vertex_count } => "メッシュ "@
            + decimal(primitive_id as nat) + " の頂点範囲 "@ + decimal(start as nat) + ".."@
            + decimal((start + count) as nat) + " は無効です。頂点数は "@ + decimal(
            vertex_count as nat,
        ) + " です"@,
        AppError::InvalidScene { message } => "シーンが不正です: "@ + message@,
        AppError::RenderFailed { message } => "描画に失敗しました: "@ + message@,
        AppError::IoFailed { message } => "ファイル操作に失敗しました: "@ + message@,
    }
}

impl AppError {
    /// Reports a scene error: unknown objects and primitives, non-mesh primitives and
    /// out-of-range vertex updates keep their identifiers; any other error becomes an
    /// invalid-scene error carrying its debug rendering.
    pub fn from_scene_error(error: SceneError) -> (r: AppError)
        ensures
            app_error_matches(error, r),
    {
        match error {
            SceneError::Object(ObjectError::UnknownObject { object_id }) => AppError::ObjectNotFound {
                object_id: object_id.0,
            },
            SceneError::Primitive(PrimitiveError::UnknownPrimitive { primitive_id }) => {
                AppError::PrimitiveNotFound { primitive_id: primitive_id.0 }
            },
            SceneError::Primitive(PrimitiveError::NotAMesh { primitive_id }) => {
                AppError::PrimitiveIsNotMesh { primitive_id: primitive_id.0 }
            },
            SceneError::Primitive(
                PrimitiveError::VertexRangeOutOfBounds { primitive_id, start, count, vertex_count },
            ) => AppError::VertexRangeOutOfBounds {
                primitive_id: primitive_id.0,
                start,
                count,
                vertex_count,
            },
            _ => AppError::InvalidScene { message: scene_error_debug_string(&error) },
        }
    }

    /// The text of the error. For an out-of-range vertex update the end of the range,
    /// `start + count`, must fit in a `usize`.
    pub fn to_string(&self) -> (r: String)
        requires
            *self matches AppError::VertexRangeOutOfBounds { start, count, .. } ==> start + count
                <= usize::MAX,
        ensures
            r@ == app_error_text(*self),
    {
        match self {
            AppError::ObjectNotFound { object_id } => {
                let mut s = String::from_str("オブジェクト ");
                append_decimal(&mut s, *object_id);
                s.append(" が見つかりません");
                s
            },
            AppError::PrimitiveNotFound { primitive_id } => {
                let mut s = String::from_str("プリミティブ ");
                append_decimal(&mut s, *primitive_id);
                s.append(" が見つかりません");
                s
            },
            AppError::PrimitiveIsNotMesh { primitive_id } => {
                let mut s = String::from_str("プリミティブ ");
                append_decimal(&mut s, *primitive_id);
                s.append(" はメッシュではありません");
                s
            },
            AppError::VertexRangeOutOfBounds { primitive_id, start, count, vertex_count } => {
                let mut s = String::from_str("メッシュ ");
                append_decimal(&mut s, *primitive_id);
                s.append(" の頂点範囲 ");
                append_decimal(&mut s, *start);
                s.append("..");
                append_decimal(&mut s, *start + *count);
                s.append(" は無効です。頂点数は ");
                append_decimal(&mut s, *vertex_count);
                s.append(" です");
                s
            },
            AppError::InvalidScene { message } => {
                let mut s = String::from_str("シーンが不正です: ");
                s.append(message.as_str());
                s
            },
            AppError::RenderFailed { message } => {
                let mut s = String::from_str("描画に失敗しました: ");
                s.append(message.as_str());
                s
            },
            AppError::IoFailed { message } => {
                let mut s = String::from_str("ファイル操作に失敗しました: ");
                s.append(message.as_str());
                s
            },
        }
    }
}

} // verus!
