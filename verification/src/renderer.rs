//! The frame: what is set up before the drawables are drawn, and what is
//! put back after.

use crate::camera::Camera;
use crate::gl::BlendFactor;
use crate::gl::Capability;
use crate::gl::Command;
use crate::gl::CommandView;
use crate::gl::Face;
use crate::gl::Gl;
use crate::names::first_index;
use crate::names::lemma_first_index_is;
use crate::names::lemma_first_index_none;
use crate::renderable::Render;
use crate::shader::LocationQuery;
use crate::shader::LocationQueryView;
use crate::shader::Programs;
use crate::state::lemma_after_all_concat;
use crate::state::lemma_after_all_in_order;
use crate::state::DriverState;
use crate::transform::Factor;
use crate::transform::LookAt;
use crate::transform::Perspective;
use crate::transform::Transform;
use vstd::prelude::*;

verus! {

/// The commands that open a frame on a surface of the given size: clear to
/// opaque black, draw to the whole surface, and switch on blending by
/// source alpha, depth testing and the culling of back faces.
pub open spec fn frame_prologue(width: u32, height: u32) -> Seq<CommandView> {
    seq![
        CommandView::ClearColor { red: 0, green: 0, blue: 0, alpha: 255 },
        CommandView::Clear,
        CommandView::Viewport { width, height },
        CommandView::Enable { capability: Capability::Blend },
        CommandView::BlendFunc {
            source: BlendFactor::SourceAlpha,
            destination: BlendFactor::OneMinusSourceAlpha,
        },
        CommandView::Enable { capability: Capability::DepthTest },
        CommandView::Enable { capability: Capability::CullFace },
        CommandView::CullFace { face: Face::Back },
    ]
}

/// The commands that close a frame: everything that the prologue switched
/// on is switched off.
pub open spec fn frame_epilogue() -> Seq<CommandView> {
    seq![
        CommandView::Disable { capability: Capability::Blend },
        CommandView::Disable { capability: Capability::DepthTest },
        CommandView::Disable { capability: Capability::CullFace },
    ]
}

/// The commands that draw the first `n` drawables, in order, each with the
/// identity as its model transform.
pub open spec fn drawn<R: Render>(
    renderables: Seq<R>,
    programs: &Programs,
    n: nat,
    view: LookAt,
    projection: Perspective,
) -> Seq<CommandView>
    decreases n,
{
    if n == 0 {
        Seq::<CommandView>::empty()
    } else {
        drawn(renderables, programs, (n - 1) as nat, view, projection) + renderables[n
            - 1].draw_commands(
            programs,
            Seq::<Factor>::empty(),
            view,
            projection,
        )
    }
}

/// The commands of a whole frame.
pub open spec fn frame_commands<R: Render>(
    renderables: Seq<R>,
    programs: &Programs,
    view: LookAt,
    projection: Perspective,
    width: u32,
    height: u32,
) -> Seq<CommandView> {
    frame_prologue(width, height) + drawn(
        renderables,
        programs,
        renderables.len(),
        view,
        projection,
    )
        + frame_epilogue()
}

/// The place of the first drawable that still has a question for the
/// driver.
pub open spec fn first_waiting<R: Render>(renderables: Seq<R>, programs: &Programs) -> Option<
    int,
> {
    first_index(renderables.len() as int, |i: int| renderables[i].pending(programs).is_some())
}

/// The first question that has to be answered before the frame can be
/// drawn.
pub open spec fn frame_pending<R: Render>(renderables: Seq<R>, programs: &Programs) -> Option<
    LocationQueryView,
> {
    match first_waiting(renderables, programs) {
        Some(i) => renderables[i].pending(programs),
        None => None,
    }
}

/// Drawing the first `n` drawables leaves nothing bound and the same
/// capabilities switched on.
proof fn lemma_drawn_restores<R: Render>(
    renderables: Seq<R>,
    programs: &Programs,
    n: nat,
    state: DriverState,
    view: LookAt,
    projection: Perspective,
)
    requires
        n <= renderables.len(),
        forall|i: int| 0 <= i < renderables.len() ==> (#[trigger] renderables[i]).ready(programs),
        state.idle(),
    ensures
        state.after_all(drawn(renderables, programs, n, view, projection)).idle(),
        state.after_all(drawn(renderables, programs, n, view, projection)).capabilities
            == state.capabilities,
    decreases n,
{
    if n > 0 {
        let earlier = drawn(renderables, programs, (n - 1) as nat, view, projection);
        let last = renderables[n - 1].draw_commands(
            programs,
            Seq::<Factor>::empty(),
            view,
            projection,
        );
        lemma_drawn_restores(renderables, programs, (n - 1) as nat, state, view, projection);
        renderables[n - 1].lemma_draw_restores(
            programs,
            state.after_all(earlier),
            Seq::<Factor>::empty(),
            view,
            projection,
        );
        lemma_after_all_concat(state, earlier, last);
    }
}

/// A frame leaves the driver as it found it: where nothing was bound and
/// blending, depth testing and culling were off before the frame, nothing
/// is bound after it and the same capabilities are switched on as before.
pub proof fn lemma_frame_restores<R: Render>(
    renderables: Seq<R>,
    programs: &Programs,
    state: DriverState,
    view: LookAt,
    projection: Perspective,
    width: u32,
    height: u32,
)
    requires
        forall|i: int| 0 <= i < renderables.len() ==> (#[trigger] renderables[i]).ready(programs),
        state.idle(),
        !state.capabilities.contains(Capability::Blend),
        !state.capabilities.contains(Capability::DepthTest),
        !state.capabilities.contains(Capability::CullFace),
    ensures
        state.after_all(frame_commands(renderables, programs, view, projection, width, height)).idle(),
        state.after_all(
            frame_commands(renderables, programs, view, projection, width, height),
        ).capabilities == state.capabilities,
{
    let prologue = frame_prologue(width, height);
    let draws = drawn(renderables, programs, renderables.len(), view, projection);
    let epilogue = frame_epilogue();
    let opened = state.after_all(prologue);
    let painted = opened.after_all(draws);
    let closed = painted.after_all(epilogue);
    lemma_after_all_concat(state, prologue + draws, epilogue);
    lemma_after_all_concat(state, prologue, draws);
    assert(opened.idle() && opened.capabilities == state.capabilities.insert(
        Capability::Blend,
    ).insert(Capability::DepthTest).insert(Capability::CullFace)) by {
        reveal_with_fuel(DriverState::after_first, 9);
        lemma_after_all_in_order(state, prologue);
    }
    lemma_drawn_restores(renderables, programs, renderables.len(), opened, view, projection);
    assert(closed.idle() && closed.capabilities == painted.capabilities.remove(
        Capability::Blend,
    ).remove(Capability::DepthTest).remove(Capability::CullFace)) by {
        reveal_with_fuel(DriverState::after_first, 4);
        lemma_after_all_in_order(painted, epilogue);
    }
    assert(closed.capabilities =~= state.capabilities);
}

/// Draws frames.
#[derive(Clone, Copy, Debug, PartialEq, Eq, Structural)]
pub struct Renderer {}

impl Renderer {
    /// A renderer for the given command list.
    pub fn new(gl: &Gl) -> (renderer: Renderer) {
        Renderer {  }
    }

    /// Prepares the renderer. There is nothing to prepare: this succeeds
    /// and leaves everything as it is.
    pub fn init(&mut self, gl: &Gl) -> (result: Result<(), LocationQuery>)
        ensures
            result.is_ok(),
            *final(self) == *old(self),
    {
        Ok(())
    }

    /// Draws one frame onto a surface of `width` by `height` pixels.
    ///
    /// If a drawable still has a question for the driver, the first such
    /// question is returned and nothing is recorded. Otherwise the frame is
    /// opened, the drawables are drawn in their order, and the frame is
    /// closed, which leaves the driver's switches as they were found.
    pub fn render<R: Render>(
        &self,
        gl: &mut Gl,
        programs: &Programs,
        camera: &Camera,
        renderables: &Vec<R>,
        width: u32,
        height: u32,
    ) -> (result: Result<(), LocationQuery>)
        requires
            forall|i: int| 0 <= i < renderables@.len() ==> (#[trigger] renderables@[i]).ready(programs),
        ensures
            final(gl).next_number() == old(gl).next_number(),
            match result {
                Ok(done) => {
                    &&& frame_pending(renderables@, programs).is_none()
                    &&& final(gl)@ == old(gl)@ + frame_commands(
                        renderables@,
                        programs,
                        camera.view_transform(),
                        camera.projection_transform(),
                        width,
                        height,
                    )
                },
                Err(query) => {
                    &&& frame_pending(renderables@, programs) == Some(query@)
                    &&& final(gl)@ == old(gl)@
                },
            },
    {
        let ghost waiting = |i: int| renderables@[i].pending(programs).is_some();
        let mut i: usize = 0;
        while i < renderables.len()
            invariant
                i <= renderables@.len(),
                waiting == (|i: int| renderables@[i].pending(programs).is_some()),
                forall|k: int| 0 <= k < renderables@.len() ==> (#[trigger] renderables@[k]).ready(programs),
                forall|j: int| 0 <= j < i ==> !#[trigger] waiting(j),
            decreases renderables@.len() - i,
        {
            match renderables[i].unresolved(programs) {
                Some(query) => {
                    proof {
                        lemma_first_index_is(renderables@.len() as int, waiting, i as int);
                    }
                    return Err(query);
                },
                None => {},
            }
            i += 1;
        }
        proof {
            lemma_first_index_none(renderables@.len() as int, waiting);
            assert forall|j: int| 0 <= j < renderables@.len() implies (
            #[trigger] renderables@[j]).pending(programs).is_none() by {
                assert(!waiting(j));
            }
        }
        let ghost view = camera.view_transform();
        let ghost projection = camera.projection_transform();

        // Set background color
        gl.record(Command::ClearColor { red: 0, green: 0, blue: 0, alpha: 255 });
        gl.record(Command::Clear);

        // Set the viewport
        gl.record(Command::Viewport { width, height });

        // Set options
        gl.record(Command::Enable { capability: Capability::Blend });
        gl.record(
            Command::BlendFunc {
                source: BlendFactor::SourceAlpha,
                destination: BlendFactor::OneMinusSourceAlpha,
            },
        );
        gl.record(Command::Enable { capability: Capability::DepthTest });
        gl.record(Command::Enable { capability: Capability::CullFace });
        gl.record(Command::CullFace { face: Face::Back });
        assert(gl@ =~= old(gl)@ + frame_prologue(width, height));

        // Draw elements
        let model_matrix = Transform::identity();
        let ghost opened = gl@;
        let mut k: usize = 0;
        while k < renderables.len()
            invariant
                k <= renderables@.len(),
                model_matrix@ == Seq::<Factor>::empty(),
                view == camera.view_transform(),
                projection == camera.projection_transform(),
                gl.next_number() == old(gl).next_number(),
                forall|j: int| 0 <= j < renderables@.len() ==> (#[trigger] renderables@[j]).ready(programs),
                forall|j: int|
                    0 <= j < renderables@.len() ==> (#[trigger] renderables@[j]).pending(programs).is_none(),
                gl@ == opened + drawn(renderables@, programs, k as nat, view, projection),
            decreases renderables@.len() - k,
        {
            match renderables[k].render(gl, programs, &model_matrix, camera) {
                Err(query) => {
                    return Err(query);
                },
                Ok(done) => {},
            }
            assert(gl@ =~= opened + drawn(renderables@, programs, (k + 1) as nat, view, projection));
            k += 1;
        }

        // Unset options
        gl.record(Command::Disable { capability: Capability::Blend });
        gl.record(Command::Disable { capability: Capability::DepthTest });
        gl.record(Command::Disable { capability: Capability::CullFace });
        assert(gl@ =~= old(gl)@ + frame_commands(renderables@, programs, view, projection, width, height));
        Ok(())
    }
}

} // verus!
