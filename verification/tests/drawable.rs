use teapot_scene::drawable::{Drawable, DrawableKind, LightingModel, Readiness};
use teapot_scene::error::{ResourceCreationError, ResourceKind};

const MESH: DrawableKind = DrawableKind::ShadedMesh { lighting: LightingModel::BlinnPhong };

#[test]
fn requests_of_each_kind() {
    assert_eq!(
        DrawableKind::ColoredTriangle.requests(),
        vec![ResourceKind::VertexBuffer, ResourceKind::Program]
    );
    assert_eq!(
        DrawableKind::TexturedQuad.requests(),
        vec![ResourceKind::Texture, ResourceKind::VertexBuffer, ResourceKind::Program]
    );
    assert_eq!(
        MESH.requests(),
        vec![
            ResourceKind::VertexBuffer,
            ResourceKind::VertexBuffer,
            ResourceKind::IndexBuffer,
            ResourceKind::Program
        ]
    );
}

#[test]
fn only_the_mesh_needs_depth() {
    assert!(!DrawableKind::ColoredTriangle.depth_tested());
    assert!(!DrawableKind::TexturedQuad.depth_tested());
    assert!(MESH.depth_tested());
    assert!(DrawableKind::ShadedMesh { lighting: LightingModel::Gouraud }.depth_tested());
}

#[test]
fn shader_files_follow_the_lighting_model() {
    let gouraud = LightingModel::Gouraud.shader_files();
    assert_eq!(gouraud.vertex, "src/shaders/gourad_vertex.glsl");
    assert_eq!(gouraud.fragment, "src/shaders/gourad_fragment.glsl");
    let blinn_phong = LightingModel::BlinnPhong.shader_files();
    assert_eq!(blinn_phong.vertex, "src/shaders/blinn_phong_vertex.glsl");
    assert_eq!(blinn_phong.fragment, "src/shaders/blinn_phong_fragment.glsl");
}

#[test]
fn blinn_phong_is_the_default() {
    assert_eq!(LightingModel::default(), LightingModel::BlinnPhong);
}

#[test]
fn new_drawable_is_unrealized() {
    let triangle = Drawable::new(DrawableKind::ColoredTriangle);
    assert_eq!(triangle.kind(), DrawableKind::ColoredTriangle);
    assert_eq!(triangle.readiness(), Readiness::Unrealized);
    assert_eq!(triangle.next_request(), Some(ResourceKind::VertexBuffer));
}

#[test]
fn drawable_is_ready_when_all_requests_are_granted() {
    let mut mesh = Drawable::new(MESH);
    assert_eq!(mesh.next_request(), Some(ResourceKind::VertexBuffer));
    assert_eq!(mesh.record(true), Ok(Readiness::Unrealized));
    assert_eq!(mesh.next_request(), Some(ResourceKind::VertexBuffer));
    assert_eq!(mesh.record(true), Ok(Readiness::Unrealized));
    assert_eq!(mesh.next_request(), Some(ResourceKind::IndexBuffer));
    assert_eq!(mesh.record(true), Ok(Readiness::Unrealized));
    assert_eq!(mesh.next_request(), Some(ResourceKind::Program));
    assert_eq!(mesh.readiness(), Readiness::Unrealized);
    assert_eq!(mesh.record(true), Ok(Readiness::Ready));
    assert_eq!(mesh.readiness(), Readiness::Ready);
    assert_eq!(mesh.next_request(), None);
}

#[test]
fn refusal_names_the_request_and_changes_nothing() {
    let mut quad = Drawable::new(DrawableKind::TexturedQuad);
    assert_eq!(
        quad.record(false),
        Err(ResourceCreationError::Rejected { resource: ResourceKind::Texture, position: 0 })
    );
    assert_eq!(quad.next_request(), Some(ResourceKind::Texture));
    assert_eq!(quad.record(true), Ok(Readiness::Unrealized));
    assert_eq!(quad.record(true), Ok(Readiness::Unrealized));
    assert_eq!(
        quad.record(false),
        Err(ResourceCreationError::Rejected { resource: ResourceKind::Program, position: 2 })
    );
    assert_eq!(quad.readiness(), Readiness::Unrealized);
    assert_eq!(quad.next_request(), Some(ResourceKind::Program));
}

#[test]
fn ready_is_for_good() {
    let mut triangle = Drawable::new(DrawableKind::ColoredTriangle);
    assert_eq!(triangle.record(true), Ok(Readiness::Unrealized));
    assert_eq!(triangle.record(true), Ok(Readiness::Ready));
    assert_eq!(triangle.record(false), Ok(Readiness::Ready));
    assert_eq!(triangle.record(true), Ok(Readiness::Ready));
    assert_eq!(triangle.readiness(), Readiness::Ready);
    assert_eq!(triangle.next_request(), None);
}

#[test]
fn every_kind_is_ready_after_exactly_its_requests() {
    let kinds = [
        DrawableKind::ColoredTriangle,
        DrawableKind::TexturedQuad,
        MESH,
        DrawableKind::ShadedMesh { lighting: LightingModel::Gouraud },
    ];
    for kind in kinds {
        let wanted = kind.requests();
        let mut drawable = Drawable::new(kind);
        for (position, resource) in wanted.iter().enumerate() {
            assert_eq!(drawable.readiness(), Readiness::Unrealized);
            assert_eq!(drawable.next_request(), Some(*resource));
            let state = drawable.record(true).unwrap();
            assert_eq!(state == Readiness::Ready, position + 1 == wanted.len());
        }
        assert_eq!(drawable.readiness(), Readiness::Ready);
    }
}
