use egui_winit_vulkano::clip::Rect;
use egui_winit_vulkano::commands::ClippedPrimitive;
use egui_winit_vulkano::frame::Phase;
use egui_winit_vulkano::input::{PlatformEvent, RawInput, UiEvent};
use egui_winit_vulkano::integration::{FrameCommands, FrameOutput, Gui};
use egui_winit_vulkano::scale::Scale;
use egui_winit_vulkano::registry::defer_removals;
use egui_winit_vulkano::texture::{ImageExtent, ImageUpdate, TextureChanges, TextureId, TextureOp};

// One layout unit is a 64th of a point of egui.
const UNITS_PER_POINT: f32 = 64.0;

fn scale(pixels_per_point: u32) -> Scale {
    Scale::new(pixels_per_point, 64).expect("both sides are positive")
}

fn units(points: f32) -> i64 {
    (points * UNITS_PER_POINT).round() as i64
}

fn points(units: i64) -> f32 {
    units as f32 / UNITS_PER_POINT
}

fn texture_id(id: egui::TextureId) -> TextureId {
    match id {
        egui::TextureId::Managed(n) => TextureId::Managed(n),
        egui::TextureId::User(n) => TextureId::User(n),
    }
}

fn toolkit_input(raw: &RawInput) -> egui::RawInput {
    let mut input = egui::RawInput::default();
    input.screen_rect = Some(egui::Rect::from_min_size(
        egui::Pos2::ZERO,
        egui::vec2(points(raw.screen_width as i64), points(raw.screen_height as i64)),
    ));
    input.viewports.entry(input.viewport_id).or_default().native_pixels_per_point =
        Some(raw.scale.pixel_side() as f32 * UNITS_PER_POINT / raw.scale.unit_side() as f32);
    for event in &raw.events {
        match *event {
            UiEvent::PointerMoved { pos } => input
                .events
                .push(egui::Event::PointerMoved(egui::pos2(points(pos.x), points(pos.y)))),
            UiEvent::PointerGone => input.events.push(egui::Event::PointerGone),
            _ => {}
        }
    }
    input
}

fn bridge_output(
    ctx: &egui::Context,
    mut full: egui::FullOutput,
    held_frees: &mut Vec<TextureId>,
) -> FrameOutput<egui::epaint::Vertex, egui::CursorIcon> {
    let mut set: Vec<_> = full.textures_delta.set.drain().collect();
    set.sort_by_key(|(id, _)| *id);
    let mut updates = Vec::new();
    for (id, images) in &set {
        for update in images.iter() {
            let egui::ImageData::Color(image) = &update.image;
            updates.push((
                texture_id(*id),
                ImageUpdate {
                    pos: update.pos.map(|[x, y]| (x as u32, y as u32)),
                    extent: ImageExtent {
                        width: image.size[0] as u32,
                        height: image.size[1] as u32,
                    },
                    pixels: image.pixels.iter().flat_map(|texel| texel.to_array()).collect(),
                },
            ));
        }
    }
    let frees = full.textures_delta.free.drain().map(texture_id).collect();
    let (textures, to_hold) =
        defer_removals(std::mem::take(held_frees), TextureChanges { updates, frees });
    *held_frees = to_hold;
    let mut primitives = Vec::new();
    for clipped in ctx.tessellate(full.shapes, full.pixels_per_point) {
        if let egui::epaint::Primitive::Mesh(mesh) = clipped.primitive {
            primitives.push(ClippedPrimitive {
                clip: Rect {
                    min_x: units(clipped.clip_rect.min.x),
                    min_y: units(clipped.clip_rect.min.y),
                    max_x: units(clipped.clip_rect.max.x),
                    max_y: units(clipped.clip_rect.max.y),
                },
                texture: texture_id(mesh.texture_id),
                vertices: mesh.vertices,
                indices: mesh.indices,
            });
        }
    }
    FrameOutput { cursor: full.platform_output.cursor_icon, primitives, textures }
}

fn one_button(ctx: &egui::Context) {
    egui::Area::new(egui::Id::new("only")).show(ctx, |ui| {
        let _ = ui.button("Go");
    });
}

struct Session {
    gui: Gui,
    ctx: egui::Context,
    held_frees: Vec<TextureId>,
}

impl Session {
    fn new(size: [u32; 2], scale: Scale) -> Session {
        Session { gui: Gui::new(size, scale), ctx: egui::Context::default(), held_frees: Vec::new() }
    }

    fn layout(&mut self, ui: fn(&egui::Context)) -> FrameOutput<egui::epaint::Vertex, egui::CursorIcon> {
        let raw = self.gui.immediate_ui();
        self.ctx.begin_pass(toolkit_input(&raw));
        ui(&self.ctx);
        let full = self.ctx.end_pass();
        bridge_output(&self.ctx, full, &mut self.held_frees)
    }

    fn frame(
        &mut self,
        ui: fn(&egui::Context),
        target: [u32; 2],
    ) -> FrameCommands<egui::epaint::Vertex, egui::CursorIcon> {
        let output = self.layout(ui);
        assert_eq!(self.gui.first_dangling(&output), None);
        self.gui.draw(output, target)
    }
}

#[test]
fn toolkit_first_frame_brings_the_font_atlas() {
    let mut session = Session::new([800, 600], scale(1));
    let commands = session.frame(one_button, [800, 600]);
    assert_eq!(session.gui.context().current_phase(), Phase::Idle);
    assert!(!commands.texture_ops.is_empty());
    for op in &commands.texture_ops {
        match op {
            TextureOp::Allocate { id, extent, pixels } => {
                assert!(id.is_managed());
                assert_eq!(pixels.len(), extent.width as usize * extent.height as usize * 4);
                assert_eq!(session.gui.renderer().resolve(*id), Some(*extent));
            }
            TextureOp::Upload { id, x, y, extent, pixels } => {
                let whole = session.gui.renderer().resolve(*id).expect("the texture exists");
                assert!(x + extent.width <= whole.width);
                assert!(y + extent.height <= whole.height);
                assert_eq!(pixels.len(), extent.width as usize * extent.height as usize * 4);
            }
            TextureOp::Release { .. } => panic!("nothing was there to release"),
        }
    }
    for draw in &commands.draws {
        assert!(session.gui.renderer().resolve(draw.texture).is_some());
    }
}

#[test]
fn toolkit_button_frame_is_one_draw_within_the_window() {
    let mut session = Session::new([800, 600], scale(1));
    session.frame(one_button, [800, 600]);
    session.frame(one_button, [800, 600]);
    // the fonts are there now: a further frame changes no texture
    let output = session.layout(one_button);
    assert_eq!(output.textures, vec![]);
    assert_eq!(output.primitives.len(), 1);
    let texture = output.primitives[0].texture;
    let vertices = output.primitives[0].vertices.clone();
    let indices = output.primitives[0].indices.clone();
    assert_eq!(session.gui.first_dangling(&output), None);
    let commands = session.gui.draw(output, [800, 600]);
    assert_eq!(commands.texture_ops, vec![]);
    assert_eq!(commands.draws.len(), 1);
    let draw = &commands.draws[0];
    assert_eq!(draw.texture, texture);
    assert_eq!(draw.vertices, vertices);
    assert_eq!(draw.indices, indices);
    assert!(draw.scissor.x + draw.scissor.width <= 800);
    assert!(draw.scissor.y + draw.scissor.height <= 600);
    assert!(draw.scissor.width > 0 && draw.scissor.height > 0);
    assert!(indices.iter().all(|i| (*i as usize) < vertices.len()));
}

#[test]
fn toolkit_frame_at_twice_the_scale_fills_twice_the_pixels() {
    let mut once = Session::new([800, 600], scale(1));
    once.frame(one_button, [800, 600]);
    once.frame(one_button, [800, 600]);
    let small = once.frame(one_button, [800, 600]);
    let mut twice = Session::new([1600, 1200], scale(2));
    twice.frame(one_button, [1600, 1200]);
    twice.frame(one_button, [1600, 1200]);
    let large = twice.frame(one_button, [1600, 1200]);
    assert_eq!(small.draws.len(), large.draws.len());
    for (a, b) in small.draws.iter().zip(large.draws.iter()) {
        assert!(b.scissor.x + b.scissor.width <= 1600);
        assert!(b.scissor.y + b.scissor.height <= 1200);
        assert!(b.scissor.width.abs_diff(2 * a.scissor.width) <= 2);
        assert!(b.scissor.height.abs_diff(2 * a.scissor.height) <= 2);
    }
}

#[test]
fn toolkit_sees_the_pointer_where_the_window_saw_it() {
    let mut session = Session::new([1600, 1200], scale(2));
    session.gui.update(&PlatformEvent::CursorMoved { x: 101, y: 51 });
    let raw = session.gui.immediate_ui();
    let input = toolkit_input(&raw);
    assert_eq!(input.events, vec![egui::Event::PointerMoved(egui::pos2(50.5, 25.5))]);
    assert_eq!(
        input.screen_rect,
        Some(egui::Rect::from_min_size(egui::Pos2::ZERO, egui::vec2(800.0, 600.0)))
    );
    session.ctx.begin_pass(input);
    let hovered = session.ctx.pointer_hover_pos();
    let full = session.ctx.end_pass();
    assert_eq!(hovered, Some(egui::pos2(50.5, 25.5)));
    assert_eq!(full.pixels_per_point, 2.0);
    let output = bridge_output(&session.ctx, full, &mut session.held_frees);
    session.gui.draw(output, [1600, 1200]);
    assert_eq!(session.gui.context().current_phase(), Phase::Idle);
}
