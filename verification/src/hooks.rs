use vstd::prelude::*;

use crate::error::Error;

verus! {

/// A `glow` WebGL context, carried through to hooks unchanged.
#[verifier::external_type_specification]
#[verifier::external_body]
pub struct ExGlowContext(glow::Context);

/// A browser 2D canvas context, carried through to hooks unchanged.
#[verifier::external_type_specification]
#[verifier::external_body]
pub struct ExCanvasRenderingContext2d(web_sys::CanvasRenderingContext2d);

/// A browser WebGL2 context, carried through to hooks unchanged.
#[verifier::external_type_specification]
#[verifier::external_body]
pub struct ExWebGl2RenderingContext(web_sys::WebGl2RenderingContext);

/// Rendering backend kind associated with hook execution.
#[derive(Clone, Copy, Debug, PartialEq, Eq, Structural)]
pub enum BackendKind {
    /// DOM backend.
    Dom,
    /// Canvas 2D backend.
    Canvas,
    /// WebGL2 backend.
    WebGl2,
}

/// Context provided to render hooks during each flush.
#[derive(Clone, Copy)]
pub struct RenderHookContext<'a> {
    backend: BackendKind,
    canvas_width: i32,
    canvas_height: i32,
    cell_size: Option<(i32, i32)>,
    webgl_context: Option<&'a glow::Context>,
    canvas_2d_context: Option<&'a web_sys::CanvasRenderingContext2d>,
    webgl2_context: Option<&'a web_sys::WebGl2RenderingContext>,
}

impl<'a> RenderHookContext<'a> {
    pub closed spec fn spec_backend(&self) -> BackendKind {
        self.backend
    }

    pub closed spec fn spec_canvas_size(&self) -> (i32, i32) {
        (self.canvas_width, self.canvas_height)
    }

    pub closed spec fn spec_cell_size(&self) -> Option<(i32, i32)> {
        self.cell_size
    }

    pub closed spec fn spec_webgl_context(&self) -> Option<&'a glow::Context> {
        self.webgl_context
    }

    pub closed spec fn spec_canvas_2d_context(&self) -> Option<&'a web_sys::CanvasRenderingContext2d> {
        self.canvas_2d_context
    }

    pub closed spec fn spec_webgl2_context(&self) -> Option<&'a web_sys::WebGl2RenderingContext> {
        self.webgl2_context
    }

    /// Creates a hook context for a backend flush, with no drawing context attached.
    pub fn new(backend: BackendKind, canvas_width: i32, canvas_height: i32) -> (r: Self)
        ensures
            r.spec_backend() == backend,
            r.spec_canvas_size() == (canvas_width, canvas_height),
            r.spec_cell_size() is None,
            r.spec_webgl_context() is None,
            r.spec_canvas_2d_context() is None,
            r.spec_webgl2_context() is None,
    {
        RenderHookContext {
            backend,
            canvas_width,
            canvas_height,
            cell_size: None,
            webgl_context: None,
            canvas_2d_context: None,
            webgl2_context: None,
        }
    }

    /// Attaches an optional WebGL context capability.
    pub fn with_webgl_context(self, webgl_context: &'a glow::Context) -> (r: Self)
        ensures
            r.spec_webgl_context() == Some(webgl_context),
            r.spec_backend() == self.spec_backend(),
            r.spec_canvas_size() == self.spec_canvas_size(),
            r.spec_cell_size() == self.spec_cell_size(),
            r.spec_canvas_2d_context() == self.spec_canvas_2d_context(),
            r.spec_webgl2_context() == self.spec_webgl2_context(),
    {
        RenderHookContext { webgl_context: Some(webgl_context), ..self }
    }

    /// Attaches the size in pixels of one text cell.
    pub fn with_cell_size(self, cell_width: i32, cell_height: i32) -> (r: Self)
        ensures
            r.spec_cell_size() == Some((cell_width, cell_height)),
            r.spec_backend() == self.spec_backend(),
            r.spec_canvas_size() == self.spec_canvas_size(),
            r.spec_webgl_context() == self.spec_webgl_context(),
            r.spec_canvas_2d_context() == self.spec_canvas_2d_context(),
            r.spec_webgl2_context() == self.spec_webgl2_context(),
    {
        RenderHookContext { cell_size: Some((cell_width, cell_height)), ..self }
    }

    /// Attaches the browser 2D canvas context of the canvas backend.
    pub fn with_canvas_2d_context(self, context: &'a web_sys::CanvasRenderingContext2d) -> (r:
        Self)
        ensures
            r.spec_canvas_2d_context() == Some(context),
            r.spec_backend() == self.spec_backend(),
            r.spec_canvas_size() == self.spec_canvas_size(),
            r.spec_cell_size() == self.spec_cell_size(),
            r.spec_webgl_context() == self.spec_webgl_context(),
            r.spec_webgl2_context() == self.spec_webgl2_context(),
    {
        RenderHookContext { canvas_2d_context: Some(context), ..self }
    }

    /// Attaches the browser WebGL2 context of the WebGL2 backend.
    pub fn with_webgl2_context(self, context: &'a web_sys::WebGl2RenderingContext) -> (r: Self)
        ensures
            r.spec_webgl2_context() == Some(context),
            r.spec_backend() == self.spec_backend(),
            r.spec_canvas_size() == self.spec_canvas_size(),
            r.spec_cell_size() == self.spec_cell_size(),
            r.spec_webgl_context() == self.spec_webgl_context(),
            r.spec_canvas_2d_context() == self.spec_canvas_2d_context(),
    {
        RenderHookContext { webgl2_context: Some(context), ..self }
    }

    /// Returns the current backend kind.
    pub fn backend(&self) -> (r: BackendKind)
        ensures
            r == self.spec_backend(),
    {
        self.backend
    }

    /// Returns canvas pixel dimensions.
    pub fn canvas_size(&self) -> (r: (i32, i32))
        ensures
            r == self.spec_canvas_size(),
    {
        (self.canvas_width, self.canvas_height)
    }

    /// Returns the size in pixels of one text cell, when the backend supplied it.
    pub fn cell_size(&self) -> (r: Option<(i32, i32)>)
        ensures
            r == self.spec_cell_size(),
    {
        self.cell_size
    }

    /// Returns WebGL context capability when available.
    pub fn webgl_context(&self) -> (r: Option<&'a glow::Context>)
        ensures
            r == self.spec_webgl_context(),
    {
        self.webgl_context
    }

    /// Returns the browser 2D canvas context when available.
    pub fn canvas_2d_context(&self) -> (r: Option<&'a web_sys::CanvasRenderingContext2d>)
        ensures
            r == self.spec_canvas_2d_context(),
    {
        self.canvas_2d_context
    }

    /// Returns the browser WebGL2 context when available.
    pub fn webgl2_context(&self) -> (r: Option<&'a web_sys::WebGl2RenderingContext>)
        ensures
            r == self.spec_webgl2_context(),
    {
        self.webgl2_context
    }
}

/// Hook trait for custom render steps around backend flush.
pub trait RenderHook {
    /// Called before a backend flush render pass.  A hook that does not override it
    /// succeeds without doing anything.
    fn pre_render(&mut self, context: &RenderHookContext<'_>) -> (r: Result<(), Error>)
        default_ensures
            r is Ok,
    {
        Ok(())
    }

    /// Called after a backend flush render pass.  A hook that does not override it
    /// succeeds without doing anything.
    fn post_render(&mut self, context: &RenderHookContext<'_>) -> (r: Result<(), Error>)
        default_ensures
            r is Ok,
    {
        Ok(())
    }
}

/// Where an overlay layer paints its queued widgets during a flush.
#[derive(Clone, Copy, Debug, PartialEq, Eq, Structural)]
pub enum OverlayTarget {
    /// Paint through the 2D canvas context.
    Canvas,
    /// Paint through the WebGL2 context, using the given cell size in pixels.
    WebGl2 { cell_width: i32, cell_height: i32 },
    /// Paint nothing this flush.
    Skip,
}

/// The target an overlay paints to: the canvas backend needs its 2D context, the
/// WebGL2 backend needs both its context and a cell size, the DOM backend paints no
/// overlay.
pub open spec fn spec_overlay_target(context: RenderHookContext) -> OverlayTarget {
    match context.spec_backend() {
        BackendKind::Canvas => if context.spec_canvas_2d_context() is Some {
            OverlayTarget::Canvas
        } else {
            OverlayTarget::Skip
        },
        BackendKind::WebGl2 => if context.spec_webgl2_context() is Some
            && context.spec_cell_size() is Some {
            OverlayTarget::WebGl2 {
                cell_width: context.spec_cell_size().unwrap().0,
                cell_height: context.spec_cell_size().unwrap().1,
            }
        } else {
            OverlayTarget::Skip
        },
        BackendKind::Dom => OverlayTarget::Skip,
    }
}

/// Chooses where an overlay layer paints during this flush.
pub fn overlay_target(context: &RenderHookContext<'_>) -> (r: OverlayTarget)
    ensures
        r == spec_overlay_target(*context),
        context.spec_backend() == BackendKind::Canvas && context.spec_canvas_2d_context() is Some
            ==> r == OverlayTarget::Canvas,
        context.spec_backend() == BackendKind::WebGl2 && context.spec_webgl2_context() is Some
            && context.spec_cell_size() is Some ==> r == (OverlayTarget::WebGl2 {
            cell_width: context.spec_cell_size().unwrap().0,
            cell_height: context.spec_cell_size().unwrap().1,
        }),
{
    match context.backend() {
        BackendKind::Canvas => {
            if context.canvas_2d_context().is_some() {
                OverlayTarget::Canvas
            } else {
                OverlayTarget::Skip
            }
        },
        BackendKind::WebGl2 => {
            match (context.webgl2_context(), context.cell_size()) {
                (Some(_), Some((w, h))) => OverlayTarget::WebGl2 { cell_width: w, cell_height: h },
                _ => OverlayTarget::Skip,
            }
        },
        BackendKind::Dom => OverlayTarget::Skip,
    }
}

/// The DOM backend paints no overlay, and a backend whose drawing context (or, for
/// WebGL2, cell size) is missing paints none either.
pub proof fn law_overlay_needs_a_context(context: RenderHookContext)
    ensures
        context.spec_backend() == BackendKind::Dom ==> spec_overlay_target(context) == OverlayTarget::Skip,
        context.spec_backend() == BackendKind::Canvas && context.spec_canvas_2d_context() is None
            ==> spec_overlay_target(context) == OverlayTarget::Skip,
        context.spec_backend() == BackendKind::WebGl2 && (context.spec_webgl2_context() is None
            || context.spec_cell_size() is None) ==> spec_overlay_target(context)
            == OverlayTarget::Skip,
        spec_overlay_target(context) != OverlayTarget::Skip ==> context.spec_backend()
            != BackendKind::Dom,
{
}

/// A backend whose drawing context is present is painted through it: the canvas
/// backend with its 2D context paints on the canvas, and the WebGL2 backend with its
/// context and a cell size paints through WebGL2 with that cell size, its first
/// component the cell width and its second the cell height.
pub proof fn law_overlay_uses_present_context(context: RenderHookContext)
    ensures
        context.spec_backend() == BackendKind::Canvas && context.spec_canvas_2d_context() is Some
            ==> spec_overlay_target(context) == OverlayTarget::Canvas,
        forall|w: i32, h: i32|
            context.spec_backend() == BackendKind::WebGl2 && context.spec_webgl2_context() is Some
                && #[trigger] context.spec_cell_size() == Some((w, h)) ==> spec_overlay_target(
                context,
            ) == (OverlayTarget::WebGl2 { cell_width: w, cell_height: h }),
        spec_overlay_target(context) is Canvas ==> context.spec_backend() == BackendKind::Canvas,
        spec_overlay_target(context) matches OverlayTarget::WebGl2 { cell_width, cell_height }
            ==> context.spec_backend() == BackendKind::WebGl2 && context.spec_cell_size() == Some(
            (cell_width, cell_height),
        ),
{
}

} // verus!
