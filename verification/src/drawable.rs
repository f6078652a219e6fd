//! The drawables of the scene: what each kind needs from the GPU backend,
//! and the one-way road from unrealized to ready.

use vstd::prelude::*;
use crate::error::{ResourceCreationError, ResourceKind};

verus! {

/// How the mesh is lit. Chosen when the drawable is made, never changed.
#[derive(Clone, Copy, Debug, PartialEq, Eq, Structural)]
pub enum LightingModel {
    Gouraud,
    BlinnPhong,
}

/// The shader sources of a lighting model, as paths of files.
#[derive(Clone, Copy, Debug)]
pub struct ShaderFiles {
    pub vertex: &'static str,
    pub fragment: &'static str,
}

impl LightingModel {
    /// Path of the vertex shader of this lighting model.
    pub open spec fn spec_vertex_file(self) -> Seq<char> {
        match self {
            LightingModel::Gouraud => "src/shaders/gourad_vertex.glsl"@,
            LightingModel::BlinnPhong => "src/shaders/blinn_phong_vertex.glsl"@,
        }
    }

    /// Path of the fragment shader of this lighting model.
    pub open spec fn spec_fragment_file(self) -> Seq<char> {
        match self {
            LightingModel::Gouraud => "src/shaders/gourad_fragment.glsl"@,
            LightingModel::BlinnPhong => "src/shaders/blinn_phong_fragment.glsl"@,
        }
    }

    /// The pair of shader files that implements this lighting model.
    pub fn shader_files(&self) -> (files: ShaderFiles)
        ensures
            files.vertex@ == self.spec_vertex_file(),
            files.fragment@ == self.spec_fragment_file(),
    {
        match self {
            LightingModel::Gouraud => ShaderFiles {
                vertex: "src/shaders/gourad_vertex.glsl",
                fragment: "src/shaders/gourad_fragment.glsl",
            },
            LightingModel::BlinnPhong => ShaderFiles {
                vertex: "src/shaders/blinn_phong_vertex.glsl",
                fragment: "src/shaders/blinn_phong_fragment.glsl",
            },
        }
    }
}

impl Default for LightingModel {
    /// Blinn-Phong shading.
    fn default() -> (model: LightingModel)
        ensures
            model == LightingModel::BlinnPhong,
    {
        LightingModel::BlinnPhong
    }
}

/// The variants of drawable.
#[derive(Clone, Copy, Debug, PartialEq, Eq, Structural)]
pub enum DrawableKind {
    /// Three vertices with a colour each, turning with time.
    ColoredTriangle,
    /// Two triangles showing one texture.
    TexturedQuad,
    /// A static mesh with normals, lit by one light.
    ShadedMesh { lighting: LightingModel },
}

impl DrawableKind {
    /// Whether drawing this kind correctly needs the depth test.
    pub open spec fn spec_depth_tested(self) -> bool {
        self is ShadedMesh
    }

    /// Whether drawing this kind correctly needs the depth test.
    pub fn depth_tested(&self) -> (b: bool)
        ensures
            b == self.spec_depth_tested(),
    {
        match self {
            DrawableKind::ShadedMesh { .. } => true,
            _ => false,
        }
    }

    /// The resources this kind asks the backend for, in the order of
    /// asking.
    pub open spec fn spec_requests(self) -> Seq<ResourceKind> {
        match self {
            DrawableKind::ColoredTriangle => seq![ResourceKind::VertexBuffer, ResourceKind::Program],
            DrawableKind::TexturedQuad => seq![
                ResourceKind::Texture,
                ResourceKind::VertexBuffer,
                ResourceKind::Program,
            ],
            DrawableKind::ShadedMesh { .. } => seq![
                ResourceKind::VertexBuffer,
                ResourceKind::VertexBuffer,
                ResourceKind::IndexBuffer,
                ResourceKind::Program,
            ],
        }
    }

    /// The resources this kind asks the backend for, in the order of
    /// asking.
    pub fn requests(&self) -> (list: Vec<ResourceKind>)
        ensures
            list@ == self.spec_requests(),
    {
        let mut list: Vec<ResourceKind> = Vec::new();
        match self {
            DrawableKind::ColoredTriangle => {
                list.push(ResourceKind::VertexBuffer);
                list.push(ResourceKind::Program);
            },
            DrawableKind::TexturedQuad => {
                list.push(ResourceKind::Texture);
                list.push(ResourceKind::VertexBuffer);
                list.push(ResourceKind::Program);
            },
            DrawableKind::ShadedMesh { .. } => {
                list.push(ResourceKind::VertexBuffer);
                list.push(ResourceKind::VertexBuffer);
                list.push(ResourceKind::IndexBuffer);
                list.push(ResourceKind::Program);
            },
        }
        list
    }
}

/// The two states of a drawable.
#[derive(Clone, Copy, Debug, PartialEq, Eq, Structural)]
pub enum Readiness {
    /// Not all of its resources exist yet.
    Unrealized,
    /// All of its resources exist; it can be drawn.
    Ready,
}

/// What a drawable is: its kind and how many of its requests the backend
/// has granted so far.
pub struct DrawableView {
    pub kind: DrawableKind,
    pub granted: nat,
}

impl DrawableView {
    /// Ready means that every request has been granted.
    pub open spec fn readiness(self) -> Readiness {
        if self.granted >= self.kind.spec_requests().len() {
            Readiness::Ready
        } else {
            Readiness::Unrealized
        }
    }

    /// The drawable after the backend has answered its next request, and
    /// what the answer leads to. A ready drawable stays as it is. A
    /// refusal leaves the drawable where it was and names the request.
    pub open spec fn record(self, granted: bool) -> (DrawableView, Result<
        Readiness,
        ResourceCreationError,
    >) {
        if self.readiness() == Readiness::Ready {
            (self, Ok(Readiness::Ready))
        } else if granted {
            let next = DrawableView { kind: self.kind, granted: self.granted + 1 };
            (next, Ok(next.readiness()))
        } else {
            (
                self,
                Err(
                    ResourceCreationError::Rejected {
                        resource: self.kind.spec_requests()[self.granted as int],
                        position: self.granted as usize,
                    },
                ),
            )
        }
    }

    /// The drawable after `count` further requests were granted.
    pub open spec fn after_grants(self, count: nat) -> DrawableView
        decreases count,
    {
        if count == 0 {
            self
        } else {
            self.record(true).0.after_grants((count - 1) as nat)
        }
    }
}

/// A drawable as the scene core sees it. The GPU objects themselves stay
/// with the caller; this value keeps count of them.
#[derive(Clone, Copy, Debug)]
pub struct Drawable {
    kind: DrawableKind,
    granted: usize,
}

impl View for Drawable {
    type V = DrawableView;

    closed spec fn view(&self) -> DrawableView {
        DrawableView { kind: self.kind, granted: self.granted as nat }
    }
}

impl Drawable {
    /// Never more grants than requests.
    #[verifier::type_invariant]
    closed spec fn well_formed(self) -> bool {
        self.granted <= self.kind.spec_requests().len()
    }

    /// A drawable of the given kind, with none of its resources created.
    pub fn new(kind: DrawableKind) -> (drawable: Drawable)
        ensures
            drawable@ == (DrawableView { kind, granted: 0 }),
            drawable@.readiness() == Readiness::Unrealized,
    {
        Drawable { kind, granted: 0 }
    }

    /// The kind of this drawable.
    pub fn kind(&self) -> (kind: DrawableKind)
        ensures
            kind == self@.kind,
    {
        self.kind
    }

    /// Whether all resources exist.
    pub fn readiness(&self) -> (state: Readiness)
        ensures
            state == self@.readiness(),
            self@.granted <= self@.kind.spec_requests().len(),
    {
        proof {
            use_type_invariant(self);
        }
        let wanted = self.kind.requests();
        if self.granted >= wanted.len() {
            Readiness::Ready
        } else {
            Readiness::Unrealized
        }
    }

    /// The request to put to the backend next; `None` once ready.
    pub fn next_request(&self) -> (request: Option<ResourceKind>)
        ensures
            request == if self@.readiness() == Readiness::Ready {
                None
            } else {
                Some(self@.kind.spec_requests()[self@.granted as int])
            },
    {
        let wanted = self.kind.requests();
        if self.granted >= wanted.len() {
            None
        } else {
            Some(wanted[self.granted])
        }
    }

    /// Takes note of the backend's answer to the request that
    /// `next_request` gave. Granted: one step nearer to ready. Refused:
    /// the error names the request, and the drawable stays unrealized.
    /// Once ready, a drawable stays ready whatever is recorded.
    pub fn record(&mut self, granted: bool) -> (r: Result<Readiness, ResourceCreationError>)
        ensures
            final(self)@ == old(self)@.record(granted).0,
            r == old(self)@.record(granted).1,
    {
        proof {
            use_type_invariant(&*self);
        }
        let wanted = self.kind.requests();
        if self.granted >= wanted.len() {
            Ok(Readiness::Ready)
        } else if granted {
            self.granted = self.granted + 1;
            if self.granted >= wanted.len() {
                Ok(Readiness::Ready)
            } else {
                Ok(Readiness::Unrealized)
            }
        } else {
            Err(
                ResourceCreationError::Rejected {
                    resource: wanted[self.granted],
                    position: self.granted,
                },
            )
        }
    }
}

/// Readiness is never lost: whatever is recorded on a ready drawable, it
/// stays the same drawable and stays ready.
pub proof fn lemma_ready_is_final(drawable: DrawableView, granted: bool)
    requires
        drawable.readiness() == Readiness::Ready,
    ensures
        drawable.record(granted).0 == drawable,
        drawable.record(granted).1 == Ok::<Readiness, ResourceCreationError>(Readiness::Ready),
{
}

/// A refusal changes nothing: the drawable is as ready as it was before.
pub proof fn lemma_refusal_keeps_state(drawable: DrawableView)
    ensures
        drawable.record(false).0 == drawable,
{
}

/// A new drawable becomes ready exactly when as many requests were granted
/// as its kind makes: fewer grants leave it unrealized.
pub proof fn lemma_ready_after_all_grants(kind: DrawableKind, count: nat)
    ensures
        (DrawableView { kind, granted: 0 }).after_grants(count).readiness() == if count
            >= kind.spec_requests().len() {
            Readiness::Ready
        } else {
            Readiness::Unrealized
        },
{
    lemma_after_grants(DrawableView { kind, granted: 0 }, count);
}

proof fn lemma_after_grants(start: DrawableView, count: nat)
    requires
        start.granted <= start.kind.spec_requests().len(),
    ensures
        start.after_grants(count).kind == start.kind,
        start.after_grants(count).granted == if start.granted + count
            <= start.kind.spec_requests().len() {
            start.granted + count
        } else {
            start.kind.spec_requests().len()
        },
    decreases count,
{
    if count > 0 {
        lemma_after_grants(start.record(true).0, (count - 1) as nat);
    }
}

} // verus!
