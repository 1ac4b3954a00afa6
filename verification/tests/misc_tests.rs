use ray_tracing::error::{AppError, MaterialError, ObjectError, PrimitiveError, SceneError};
use ray_tracing::ids::{MaterialId, ObjectId, PrimitiveId};
use ray_tracing::input::{AppAction, CameraMotion, InputEvent, InputState, Key, MouseButton};
use ray_tracing::object::Scene as FlatScene;
use ray_tracing::render::{CpuRenderer, Frame, GpuRenderer};
use ray_tracing::text::decimal_string;

#[test]
fn frame_starts_black_with_three_bytes_per_pixel() {
    let frame = Frame::new(4, 3);
    assert_eq!(frame.width(), 4);
    assert_eq!(frame.height(), 3);
    assert_eq!(frame.pixels().len(), 36);
    assert!(frame.pixels().iter().all(|b| *b == 0));
}

#[test]
fn empty_frame() {
    let frame = Frame::new(0, 7);
    assert!(frame.pixels().is_empty());
}

#[test]
fn set_pixel_writes_three_bytes() {
    let mut frame = Frame::new(3, 2);
    frame.set_pixel(2, 1, 10, 20, 30);
    let p = frame.pixels();
    assert_eq!(&p[15..18], &[10, 20, 30]);
    assert_eq!(p.iter().filter(|b| **b != 0).count(), 3);
}

#[test]
fn pixels_mut_writes_through() {
    let mut frame = Frame::new(1, 1);
    frame.pixels_mut()[1] = 200;
    assert_eq!(frame.pixels(), &[0, 200, 0]);
}

#[test]
fn renderers_construct() {
    let _c: CpuRenderer = CpuRenderer::new();
    let _g: GpuRenderer = GpuRenderer::default();
}

#[test]
fn key_press_and_release() {
    let mut state = InputState::new();
    assert_eq!(state.handle_event(InputEvent::KeyDown(Key::W)), AppAction::Continue);
    assert!(state.is_w_pressed);
    assert_eq!(state.camera_motions(), vec![CameraMotion::MoveForward { positive: true }]);
    assert_eq!(state.handle_event(InputEvent::KeyUp(Key::W)), AppAction::Continue);
    assert_eq!(state, InputState::new());
}

#[test]
fn command_keys() {
    let mut state = InputState::new();
    assert_eq!(state.handle_event(InputEvent::KeyDown(Key::P)), AppAction::SaveScene);
    assert_eq!(state.handle_event(InputEvent::KeyDown(Key::O)), AppAction::SaveDependencyGraph);
    assert_eq!(state.handle_event(InputEvent::KeyDown(Key::ESCAPE)), AppAction::Exit);
    assert_eq!(state.handle_event(InputEvent::KeyDown(Key::H)), AppAction::SpawnObject);
    assert_eq!(state.handle_event(InputEvent::KeyDown(Key::Z)), AppAction::Continue);
    assert_eq!(state.handle_event(InputEvent::KeyUp(Key::Z)), AppAction::ReportNoAction);
    assert_eq!(state, InputState::new());
}

#[test]
fn other_events_are_reported() {
    let mut state = InputState::new();
    assert_eq!(
        state.handle_event(InputEvent::MouseMove { x: 1, y: 2, dx: 3, dy: -4 }),
        AppAction::ReportMouseMove { x: 1, y: 2, dx: 3, dy: -4 }
    );
    assert_eq!(
        state.handle_event(InputEvent::MouseDown { button: MouseButton::LEFT, x: 5, y: 6 }),
        AppAction::ReportMouseDown { button: MouseButton::LEFT, x: 5, y: 6 }
    );
    assert_eq!(
        state.handle_event(InputEvent::MouseUp { button: MouseButton::X2, x: 0, y: 0 }),
        AppAction::ReportMouseUp { button: MouseButton::X2, x: 0, y: 0 }
    );
    assert_eq!(state.handle_event(InputEvent::MouseWheel { x: 0, y: -1 }), AppAction::ReportMouseWheel { x: 0, y: -1 });
    assert_eq!(
        state.handle_event(InputEvent::TextInput("abc".to_string())),
        AppAction::ReportText("abc".to_string())
    );
    assert_eq!(state.handle_event(InputEvent::Quit), AppAction::ReportUnhandled);
    assert_eq!(state, InputState::new());
}

#[test]
fn camera_motions_in_order() {
    let mut state = InputState::new();
    for key in [Key::DOWN, Key::S, Key::LEFT, Key::D, Key::W, Key::A, Key::RIGHT, Key::UP] {
        state.handle_event(InputEvent::KeyDown(key));
    }
    assert_eq!(
        state.camera_motions(),
        vec![
            CameraMotion::MoveForward { positive: true },
            CameraMotion::MoveForward { positive: false },
            CameraMotion::MoveRight { positive: false },
            CameraMotion::MoveRight { positive: true },
            CameraMotion::Yaw { positive: true },
            CameraMotion::Yaw { positive: false },
            CameraMotion::Pitch { positive: true },
            CameraMotion::Pitch { positive: false },
        ]
    );
    assert!(InputState::new().camera_motions().is_empty());
}

#[test]
fn decimal_text() {
    assert_eq!(decimal_string(0), "0");
    assert_eq!(decimal_string(7), "7");
    assert_eq!(decimal_string(10), "10");
    assert_eq!(decimal_string(4096), "4096");
    assert_eq!(decimal_string(usize::MAX), usize::MAX.to_string());
}

#[test]
fn scene_errors_become_app_errors() {
    let e = AppError::from_scene_error(SceneError::Object(ObjectError::UnknownObject { object_id: ObjectId(3) }));
    assert!(matches!(e, AppError::ObjectNotFound { object_id: 3 }));
    let e = AppError::from_scene_error(SceneError::Primitive(PrimitiveError::UnknownPrimitive {
        primitive_id: PrimitiveId(4),
    }));
    assert!(matches!(e, AppError::PrimitiveNotFound { primitive_id: 4 }));
    let e = AppError::from_scene_error(SceneError::Primitive(PrimitiveError::NotAMesh { primitive_id: PrimitiveId(1) }));
    assert!(matches!(e, AppError::PrimitiveIsNotMesh { primitive_id: 1 }));
    let e = AppError::from_scene_error(SceneError::Primitive(PrimitiveError::VertexRangeOutOfBounds {
        primitive_id: PrimitiveId(2),
        start: 1,
        count: 3,
        vertex_count: 5,
    }));
    assert!(matches!(e, AppError::VertexRangeOutOfBounds { primitive_id: 2, start: 1, count: 3, vertex_count: 5 }));
}

#[test]
fn other_scene_errors_carry_their_debug_text() {
    let e = AppError::from_scene_error(SceneError::Material(MaterialError::UnknownMaterial {
        material_id: MaterialId(3),
    }));
    match e {
        AppError::InvalidScene { message } => {
            assert_eq!(message, "Material(UnknownMaterial { material_id: MaterialId(3) })")
        }
        _ => panic!("wrong variant"),
    }
    let e = AppError::from_scene_error(SceneError::Object(ObjectError::InvalidParent { object_id: ObjectId(1) }));
    match e {
        AppError::InvalidScene { message } => assert_eq!(message, "Object(InvalidParent { object_id: ObjectId(1) })"),
        _ => panic!("wrong variant"),
    }
}

#[test]
fn app_error_texts() {
    assert_eq!(AppError::ObjectNotFound { object_id: 12 }.to_string(), "オブジェクト 12 が見つかりません");
    assert_eq!(AppError::PrimitiveNotFound { primitive_id: 0 }.to_string(), "プリミティブ 0 が見つかりません");
    assert_eq!(
        AppError::PrimitiveIsNotMesh { primitive_id: 1 }.to_string(),
        "プリミティブ 1 はメッシュではありません"
    );
    assert_eq!(
        AppError::VertexRangeOutOfBounds { primitive_id: 2, start: 3, count: 4, vertex_count: 5 }.to_string(),
        "メッシュ 2 の頂点範囲 3..7 は無効です。頂点数は 5 です"
    );
    assert_eq!(AppError::InvalidScene { message: "x".to_string() }.to_string(), "シーンが不正です: x");
    assert_eq!(AppError::RenderFailed { message: "y".to_string() }.to_string(), "描画に失敗しました: y");
    assert_eq!(AppError::IoFailed { message: "z".to_string() }.to_string(), "ファイル操作に失敗しました: z");
}

#[test]
fn flat_scene_positions() {
    let mut scene: FlatScene<u8, &str> = FlatScene::new();
    assert_eq!(scene.add_material(3), MaterialId(0));
    assert_eq!(scene.add_material(4), MaterialId(1));
    assert_eq!(scene.add_object("a"), 0);
    assert_eq!(scene.add_object("b"), 1);
    assert_eq!(scene.materials(), &[3, 4]);
    assert_eq!(scene.objects(), &["a", "b"]);
}
