use vstd::prelude::*;
use crate::system::gpu::rendering::{
    BackendRequest, ReadFramebufferParams, RectangleParams, RequestView, TrianglesParams,
    WriteFramebufferParams,
};

verus! {

/// The renderer the GPU draws with.
///
/// `Headless` draws nothing. `Opengl` collects the requests, in the order they
/// were made, for the OpenGL renderer that the application drives; a
/// framebuffer read is answered through `complete_vram_to_cpu`.
pub enum VideoBackend {
    Headless,
    Opengl(Vec<BackendRequest>),
}

impl View for VideoBackend {
    type V = Option<Seq<RequestView>>;

    open spec fn view(&self) -> Option<Seq<RequestView>> {
        match self {
            VideoBackend::Headless => None,
            VideoBackend::Opengl(q) => Some(q@.map_values(|r: BackendRequest| r@)),
        }
    }
}

/// `after` is `before` with `request` handed to the renderer: queued last, or
/// dropped when there is no renderer.
pub open spec fn queued(before: Option<Seq<RequestView>>, after: Option<Seq<RequestView>>, request: RequestView) -> bool {
    match before {
        None => after is None,
        Some(q) => after == Some(q.push(request)),
    }
}

/// A request handed to the renderer, answered `Err(())` when there is no renderer.
pub open spec fn submitted(before: Option<Seq<RequestView>>, after: Option<Seq<RequestView>>, request: RequestView, r: Result<(), ()>) -> bool {
    &&& queued(before, after, request)
    &&& (r is Ok <==> before is Some)
}

fn submit(video_backend: &mut VideoBackend, request: BackendRequest) -> (r: Result<(), ()>)
    ensures
        submitted(old(video_backend)@, final(video_backend)@, request@, r),
{
    match video_backend {
        VideoBackend::Headless => Err(()),
        VideoBackend::Opengl(q) => {
            let ghost before = q@;
            q.push(request);
            proof {
                assert(q@.map_values(|r: BackendRequest| r@) =~= before.map_values(|r: BackendRequest| r@).push(request@));
            }
            Ok(())
        },
    }
}

pub fn read_framebuffer(video_backend: &mut VideoBackend, params: ReadFramebufferParams) -> (r: Result<(), ()>)
    ensures
        submitted(old(video_backend)@, final(video_backend)@, RequestView::ReadFramebuffer(params.rectangle), r),
{
    submit(video_backend, BackendRequest::ReadFramebuffer(params))
}

pub fn write_framebuffer(video_backend: &mut VideoBackend, params: WriteFramebufferParams) -> (r: Result<(), ()>)
    ensures
        submitted(old(video_backend)@, final(video_backend)@, BackendRequest::WriteFramebuffer(params)@, r),
{
    submit(video_backend, BackendRequest::WriteFramebuffer(params))
}

pub fn draw_rectangle(video_backend: &mut VideoBackend, params: RectangleParams) -> (r: Result<(), ()>)
    ensures
        submitted(old(video_backend)@, final(video_backend)@, RequestView::DrawRectangle(params), r),
{
    submit(video_backend, BackendRequest::DrawRectangle(params))
}

/// Draws a triangle, or a quad as two triangles: one position, color and
/// texture offset per vertex. The renderer takes only such well-formed
/// requests; without a renderer any request is refused.
pub fn draw_triangles(video_backend: &mut VideoBackend, params: TrianglesParams) -> (r: Result<(), ()>)
    requires
        old(video_backend)@ is Some ==> {
            &&& params.vertices == 3 || params.vertices == 4
            &&& params.positions@.len() == params.vertices
            &&& params.colors@.len() == params.vertices
            &&& params.texture_position_offsets@.len() == params.vertices
        },
    ensures
        submitted(old(video_backend)@, final(video_backend)@, RequestView::DrawTriangles(params@), r),
{
    submit(video_backend, BackendRequest::DrawTriangles(params))
}

/// Presents the current frame.
pub fn render(video_backend: &mut VideoBackend) -> (r: Result<(), ()>)
    ensures
        submitted(old(video_backend)@, final(video_backend)@, RequestView::Render, r),
{
    submit(video_backend, BackendRequest::Render)
}

} // verus!
