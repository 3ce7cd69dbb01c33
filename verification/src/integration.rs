//! The integration: one object that follows the window, runs the frame
//! protocol and keeps the textures of the UI in step with the GPU.

use vstd::prelude::*;
use crate::commands::{all_resolve, commands_of, ClippedPrimitive, DrawCommand};
use crate::decode::{decode_image, decoded_rgba, decodes_whole, DecodeError, DecodedImage};
use crate::frame::{step, FrameCall, FrameContext, Phase};
use crate::input::{after_event, initial_input, InputState, PlatformEvent, RawInput};
use crate::registry::{delta_ops, registered, registry_after, unregistered, ResourceBridge};
use crate::scale::Scale;
use crate::texture::{DeltaEntry, ImageExtent, TextureId, TextureOp};

verus! {

/// What the toolkit hands back at the end of a frame: the cursor it asks
/// for, the meshes to draw, first to last, and the changes to its textures.
#[derive(Clone, Debug, PartialEq, Eq)]
pub struct FrameOutput<V, C> {
    pub cursor: C,
    pub primitives: Vec<ClippedPrimitive<V>>,
    pub textures: Vec<DeltaEntry>,
}

/// The GPU work of one frame, ready for the backend: the work on textures,
/// to be done before any drawing, and the draws, first to last.  The cursor
/// is the one that the toolkit asked for.
#[derive(Clone, Debug, PartialEq, Eq)]
pub struct FrameCommands<V, C> {
    pub cursor: C,
    pub texture_ops: Vec<TextureOp>,
    pub draws: Vec<DrawCommand<V>>,
}

/// Whether `op` allocates the image of `extent` and `pixels` for `id`.
pub open spec fn is_allocation(op: TextureOp, id: TextureId, extent: ImageExtent, pixels: Seq<u8>) -> bool {
    op matches TextureOp::Allocate { id: i, extent: e, pixels: p } && i == id && e == extent && p@
        == pixels
}

/// Follows a window, runs the frame protocol of a UI toolkit and keeps the
/// toolkit's textures in step with the images on the GPU.
pub struct Gui {
    context: FrameContext,
    renderer: ResourceBridge,
    pending: Vec<TextureOp>,
}

impl Gui {
    /// Whether the registry of textures is well formed.
    pub closed spec fn wf(&self) -> bool {
        self.renderer.wf()
    }

    /// The phase of the frame cycle.
    pub closed spec fn phase(&self) -> Phase {
        self.context.phase()
    }

    /// What is known of the window and its input.
    pub closed spec fn input(&self) -> InputState {
        self.context.input()
    }

    /// The registered textures.
    pub closed spec fn textures(&self) -> Map<TextureId, ImageExtent> {
        self.renderer@
    }

    /// The number of the user identifier that the next registration returns.
    pub closed spec fn next_user_id(&self) -> nat {
        self.renderer.next_user_id()
    }

    /// The work on textures that waits for the next frame: what
    /// registrations and unregistrations since the last one call for.
    pub closed spec fn pending_ops(&self) -> Seq<TextureOp> {
        self.pending@
    }

    /// An integration for a window of `size` physical pixels at `scale`:
    /// idle, with no texture and nothing pending.
    pub fn new(size: [u32; 2], scale: Scale) -> (gui: Gui)
        ensures
            gui.wf(),
            gui.phase() == Phase::Idle,
            gui.input() == initial_input(size, scale),
            gui.textures() == Map::<TextureId, ImageExtent>::empty(),
            gui.next_user_id() == 0,
            gui.pending_ops() == Seq::<TextureOp>::empty(),
    {
        Gui {
            context: FrameContext::new(size, scale),
            renderer: ResourceBridge::new(),
            pending: Vec::new(),
        }
    }

    /// Takes in one window event.
    pub fn update(&mut self, event: &PlatformEvent)
        ensures
            final(self).input() == after_event(old(self).input(), *event),
            final(self).phase() == old(self).phase(),
            final(self).wf() == old(self).wf(),
            final(self).textures() == old(self).textures(),
            final(self).next_user_id() == old(self).next_user_id(),
            final(self).pending_ops() == old(self).pending_ops(),
    {
        self.context.handle_event(event);
    }

    /// Begins a frame and hands out the input for the toolkit to lay the UI
    /// out with.  No frame may be open.
    pub fn immediate_ui(&mut self) -> (raw: RawInput)
        requires
            step(old(self).phase(), FrameCall::Begin) is Some,
        ensures
            Some(final(self).phase()) == step(old(self).phase(), FrameCall::Begin),
            raw.is_snapshot_of(old(self).input()),
            final(self).input() == (InputState { events: Seq::empty(), ..old(self).input() }),
            final(self).wf() == old(self).wf(),
            final(self).textures() == old(self).textures(),
            final(self).next_user_id() == old(self).next_user_id(),
            final(self).pending_ops() == old(self).pending_ops(),
    {
        self.context.begin_frame()
    }

    /// The index of the first primitive of `output` whose texture will not
    /// resolve when the frame is drawn, if there is one.
    pub fn first_dangling<V, C>(&self, output: &FrameOutput<V, C>) -> (r: Option<usize>)
        ensures
            r is None <==> all_resolve(
                registry_after(self.textures(), output.textures@),
                output.primitives@,
            ),
            r matches Some(i) ==> i < output.primitives.len() && !registry_after(
                self.textures(),
                output.textures@,
            ).contains_key(output.primitives[i as int].texture) && all_resolve(
                registry_after(self.textures(), output.textures@),
                output.primitives@.take(i as int),
            ),
    {
        self.renderer.first_unresolved_after(&output.textures, &output.primitives)
    }

    /// Ends the open frame and turns what the toolkit made of it into GPU
    /// work for a target of `target` physical pixels.
    ///
    /// The frame's texture changes are applied first; then every primitive
    /// must name a registered texture.  The work on textures is what was
    /// pending followed by what the frame's changes call for.
    pub fn draw<V, C>(&mut self, output: FrameOutput<V, C>, target: [u32; 2]) -> (frame:
        FrameCommands<V, C>)
        requires
            old(self).wf(),
            step(old(self).phase(), FrameCall::End) is Some,
            all_resolve(
                registry_after(old(self).textures(), output.textures@),
                output.primitives@,
            ),
        ensures
            final(self).wf(),
            Some(final(self).phase()) == step(old(self).phase(), FrameCall::End),
            final(self).input() == old(self).input(),
            final(self).textures() == registry_after(old(self).textures(), output.textures@),
            final(self).next_user_id() == old(self).next_user_id(),
            final(self).pending_ops() == Seq::<TextureOp>::empty(),
            frame.cursor == output.cursor,
            frame.texture_ops@ == old(self).pending_ops() + delta_ops(
                old(self).textures(),
                output.textures@,
            ),
            frame.draws@ == commands_of(output.primitives@, old(self).input().scale, target),
            forall|i: int|
                0 <= i < frame.draws.len() ==> final(self).textures().contains_key(
                    #[trigger] frame.draws[i].texture,
                ) && frame.draws[i].scissor.within(target),
    {
        self.context.end_frame();
        let mut texture_ops: Vec<TextureOp> = Vec::new();
        std::mem::swap(&mut texture_ops, &mut self.pending);
        let mut from_delta = self.renderer.apply_delta(output.textures);
        texture_ops.append(&mut from_delta);
        let scale = self.context.adapter().scale();
        let draws = self.renderer.build_commands(output.primitives, scale, target);
        FrameCommands { cursor: output.cursor, texture_ops, draws }
    }

    /// Registers an image of `extent` that the application owns and returns
    /// the identifier under which UI code can draw it.
    pub fn register_user_image_view(&mut self, extent: ImageExtent) -> (id: TextureId)
        requires
            old(self).wf(),
            old(self).next_user_id() < u64::MAX,
        ensures
            final(self).wf(),
            id == TextureId::User(old(self).next_user_id() as u64),
            !old(self).textures().contains_key(id),
            final(self).textures() == registered(old(self).textures(), id, extent),
            final(self).next_user_id() == old(self).next_user_id() + 1,
            final(self).pending_ops() == old(self).pending_ops(),
            final(self).phase() == old(self).phase(),
            final(self).input() == old(self).input(),
    {
        self.renderer.register_external_image(extent)
    }

    /// Registers an image held in memory as a user image, and queues its
    /// upload for the next frame.
    pub fn register_decoded_image(&mut self, image: DecodedImage) -> (id: TextureId)
        requires
            old(self).wf(),
            old(self).next_user_id() < u64::MAX,
        ensures
            final(self).wf(),
            id == TextureId::User(old(self).next_user_id() as u64),
            !old(self).textures().contains_key(id),
            final(self).textures() == registered(old(self).textures(), id, image.extent),
            final(self).next_user_id() == old(self).next_user_id() + 1,
            final(self).pending_ops() == old(self).pending_ops().push(
                TextureOp::Allocate { id, extent: image.extent, pixels: image.pixels },
            ),
            final(self).phase() == old(self).phase(),
            final(self).input() == old(self).input(),
    {
        let id = self.renderer.register_external_image(image.extent);
        self.pending.push(TextureOp::Allocate { id, extent: image.extent, pixels: image.pixels });
        id
    }

    /// Decodes an encoded image and registers it as a user image.  Fails,
    /// and changes nothing, exactly where the bytes do not decode to an image
    /// with all the texels of its extent.
    pub fn register_user_image(&mut self, bytes: &[u8]) -> (r: Result<TextureId, DecodeError>)
        requires
            old(self).wf(),
            old(self).next_user_id() < u64::MAX,
        ensures
            final(self).wf(),
            r is Ok <==> decodes_whole(decoded_rgba(bytes@)),
            r is Err ==> ({
                &&& final(self).textures() == old(self).textures()
                &&& final(self).next_user_id() == old(self).next_user_id()
                &&& final(self).pending_ops() == old(self).pending_ops()
            }),
            r matches Ok(id) ==> ({
                let decoded = decoded_rgba(bytes@)->0;
                let extent = ImageExtent { width: decoded.0, height: decoded.1 };
                &&& id == TextureId::User(old(self).next_user_id() as u64)
                &&& !old(self).textures().contains_key(id)
                &&& final(self).textures() == registered(old(self).textures(), id, extent)
                &&& final(self).next_user_id() == old(self).next_user_id() + 1
                &&& decoded.2.len() == extent.texel_bytes()
                &&& final(self).pending_ops().len() == old(self).pending_ops().len() + 1
                &&& final(self).pending_ops().drop_last() == old(self).pending_ops()
                &&& is_allocation(final(self).pending_ops().last(), id, extent, decoded.2)
            }),
            final(self).phase() == old(self).phase(),
            final(self).input() == old(self).input(),
    {
        match decode_image(bytes) {
            Ok(image) => Ok(self.register_decoded_image(image)),
            Err(e) => Err(e),
        }
    }

    /// Unregisters a user image and queues the release of the bridge's hold
    /// on it.  Changes nothing where `id` is unknown or names a managed
    /// texture.
    pub fn unregister_user_image(&mut self, id: TextureId)
        requires
            old(self).wf(),
        ensures
            final(self).wf(),
            final(self).textures() == unregistered(old(self).textures(), id),
            final(self).pending_ops() == (if id is User && old(self).textures().contains_key(id) {
                old(self).pending_ops().push(TextureOp::Release { id })
            } else {
                old(self).pending_ops()
            }),
            final(self).next_user_id() == old(self).next_user_id(),
            final(self).phase() == old(self).phase(),
            final(self).input() == old(self).input(),
    {
        if self.renderer.unregister(id) {
            self.pending.push(TextureOp::Release { id });
        }
    }

    /// Hands out the pending work on textures, for a backend that does not
    /// want to wait for the next frame with it.
    pub fn take_texture_ops(&mut self) -> (ops: Vec<TextureOp>)
        ensures
            ops@ == old(self).pending_ops(),
            final(self).pending_ops() == Seq::<TextureOp>::empty(),
            final(self).wf() == old(self).wf(),
            final(self).textures() == old(self).textures(),
            final(self).next_user_id() == old(self).next_user_id(),
            final(self).phase() == old(self).phase(),
            final(self).input() == old(self).input(),
    {
        let mut ops: Vec<TextureOp> = Vec::new();
        std::mem::swap(&mut ops, &mut self.pending);
        ops
    }

    /// The session: the frame cycle and the input adapter.
    pub fn context(&self) -> (r: &FrameContext)
        ensures
            r.phase() == self.phase(),
            r.input() == self.input(),
    {
        &self.context
    }

    /// The registry of textures.
    pub fn renderer(&self) -> (r: &ResourceBridge)
        ensures
            r@ == self.textures(),
            r.next_user_id() == self.next_user_id(),
            r.wf() == self.wf(),
    {
        &self.renderer
    }
}

} // verus!
