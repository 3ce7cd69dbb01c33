use egui_winit_vulkano::clip::{Rect, Scissor};
use egui_winit_vulkano::commands::{ClippedPrimitive, DrawCommand};
use egui_winit_vulkano::frame::{FrameCall, Phase};
use egui_winit_vulkano::input::{Modifiers, PlatformEvent, Point, RawInput, UiEvent};
use egui_winit_vulkano::integration::{FrameCommands, FrameOutput, Gui};
use egui_winit_vulkano::scale::Scale;
use egui_winit_vulkano::texture::{DeltaEntry, ImageExtent, ImageUpdate, TextureId, TextureOp};

#[derive(Clone, Copy, Debug, PartialEq)]
struct Vertex {
    pos: [f32; 2],
    uv: [f32; 2],
    color: [u8; 4],
}

#[derive(Clone, Copy, Debug, PartialEq)]
enum Cursor {
    Arrow,
    Hand,
}

const FONT: TextureId = TextureId::Managed(0);

fn corner(x: f32, y: f32) -> Vertex {
    Vertex { pos: [x, y], uv: [0.0, 0.0], color: [255, 255, 255, 255] }
}

fn button(texture: TextureId) -> ClippedPrimitive<Vertex> {
    ClippedPrimitive {
        clip: Rect { min_x: 0, min_y: 0, max_x: 800, max_y: 600 },
        texture,
        vertices: vec![corner(8.0, 8.0), corner(60.0, 8.0), corner(60.0, 28.0), corner(8.0, 28.0)],
        indices: vec![0, 1, 2, 0, 2, 3],
    }
}

fn font_atlas() -> DeltaEntry {
    DeltaEntry::Update {
        id: FONT,
        image: ImageUpdate {
            pos: None,
            extent: ImageExtent { width: 2, height: 2 },
            pixels: vec![255; 16],
        },
    }
}

fn frame(
    primitives: Vec<ClippedPrimitive<Vertex>>,
    textures: Vec<DeltaEntry>,
) -> FrameOutput<Vertex, Cursor> {
    FrameOutput { cursor: Cursor::Arrow, primitives, textures }
}

#[test]
fn new_gui_is_idle_and_empty() {
    let mut gui = Gui::new([800, 600], Scale::identity());
    assert_eq!(gui.context().current_phase(), Phase::Idle);
    assert_eq!(gui.context().adapter().size(), [800, 600]);
    assert_eq!(gui.context().adapter().pending_events(), 0);
    assert_eq!(gui.renderer().resolve(FONT), None);
    assert_eq!(gui.take_texture_ops(), vec![]);
}

#[test]
fn one_button_frame_gives_one_draw_within_the_target() {
    let mut gui = Gui::new([800, 600], Scale::identity());
    // a first frame brings the font atlas
    gui.immediate_ui();
    let warm: FrameCommands<Vertex, Cursor> = gui.draw(frame(vec![], vec![font_atlas()]), [800, 600]);
    assert_eq!(warm.draws, vec![]);
    assert_eq!(warm.texture_ops.len(), 1);
    // the frame with the button changes no texture
    let raw = gui.immediate_ui();
    assert_eq!(
        raw,
        RawInput {
            screen_width: 800,
            screen_height: 600,
            scale: Scale::identity(),
            pointer: Point { x: 0, y: 0 },
            modifiers: Modifiers { alt: false, ctrl: false, shift: false, logo: false },
            events: vec![],
        }
    );
    assert_eq!(gui.context().current_phase(), Phase::FrameOpen);
    let output = frame(vec![button(FONT)], vec![]);
    assert_eq!(gui.first_dangling(&output), None);
    let commands = gui.draw(output, [800, 600]);
    assert_eq!(gui.context().current_phase(), Phase::Idle);
    assert_eq!(commands.cursor, Cursor::Arrow);
    assert_eq!(commands.texture_ops, vec![]);
    assert_eq!(
        commands.draws,
        vec![DrawCommand {
            scissor: Scissor { x: 0, y: 0, width: 800, height: 600 },
            texture: FONT,
            vertices: button(FONT).vertices,
            indices: vec![0, 1, 2, 0, 2, 3],
        }]
    );
}

#[test]
fn draw_applies_the_delta_before_it_resolves() {
    let mut gui = Gui::new([800, 600], Scale::identity());
    gui.immediate_ui();
    let icon = TextureId::Managed(4);
    let output = frame(
        vec![button(FONT), button(icon)],
        vec![
            font_atlas(),
            DeltaEntry::Update {
                id: icon,
                image: ImageUpdate {
                    pos: Some((0, 0)),
                    extent: ImageExtent { width: 1, height: 1 },
                    pixels: vec![1, 2, 3, 4],
                },
            },
        ],
    );
    assert_eq!(gui.first_dangling(&output), None);
    let commands = gui.draw(output, [400, 300]);
    assert_eq!(
        commands.texture_ops,
        vec![
            TextureOp::Allocate {
                id: FONT,
                extent: ImageExtent { width: 2, height: 2 },
                pixels: vec![255; 16],
            },
            TextureOp::Allocate {
                id: icon,
                extent: ImageExtent { width: 1, height: 1 },
                pixels: vec![1, 2, 3, 4],
            },
        ]
    );
    assert_eq!(commands.draws.len(), 2);
    assert_eq!(commands.draws[0].texture, FONT);
    assert_eq!(commands.draws[1].texture, icon);
    for draw in &commands.draws {
        assert_eq!(draw.scissor, Scissor { x: 0, y: 0, width: 400, height: 300 });
        assert!(gui.renderer().resolve(draw.texture).is_some());
    }
}

#[test]
fn first_dangling_finds_what_draw_could_not_resolve() {
    let mut gui = Gui::new([800, 600], Scale::identity());
    gui.immediate_ui();
    gui.draw(frame(vec![], vec![font_atlas()]), [800, 600]);
    gui.immediate_ui();
    let unknown = frame(vec![button(FONT), button(TextureId::Managed(9))], vec![]);
    assert_eq!(gui.first_dangling(&unknown), Some(1));
    let freed = frame(vec![button(FONT)], vec![DeltaEntry::Remove { id: FONT }]);
    assert_eq!(gui.first_dangling(&freed), Some(0));
    let unregistered = frame(vec![button(TextureId::User(0))], vec![]);
    assert_eq!(gui.first_dangling(&unregistered), Some(0));
    let replaced = frame(vec![button(FONT)], vec![DeltaEntry::Remove { id: FONT }, font_atlas()]);
    assert_eq!(gui.first_dangling(&replaced), None);
}

#[test]
fn draw_uses_the_scale_of_the_window() {
    let mut gui = Gui::new([1600, 1200], Scale::new(2, 1).expect("both sides are positive"));
    let raw = gui.immediate_ui();
    assert_eq!(raw.screen_width, 800);
    assert_eq!(raw.screen_height, 600);
    let mut small = button(FONT);
    small.clip = Rect { min_x: 10, min_y: 20, max_x: 110, max_y: 70 };
    let mut outside = button(FONT);
    outside.clip = Rect { min_x: 900, min_y: 0, max_x: 1000, max_y: 600 };
    let commands = gui.draw(frame(vec![small, outside], vec![font_atlas()]), [1600, 1200]);
    assert_eq!(commands.draws[0].scissor, Scissor { x: 20, y: 40, width: 200, height: 100 });
    assert_eq!(commands.draws[1].scissor, Scissor { x: 1600, y: 0, width: 0, height: 1200 });
}

#[test]
fn draw_follows_a_change_of_scale() {
    let mut gui = Gui::new([800, 600], Scale::identity());
    gui.update(&PlatformEvent::ScaleFactorChanged {
        scale: Scale::new(3, 2).expect("both sides are positive"),
        width: 1200,
        height: 900,
    });
    let raw = gui.immediate_ui();
    assert_eq!(raw.screen_width, 800);
    assert_eq!(raw.screen_height, 600);
    let mut prim = button(FONT);
    prim.clip = Rect { min_x: 1, min_y: 1, max_x: 5, max_y: 5 };
    let commands = gui.draw(frame(vec![prim], vec![font_atlas()]), [1200, 900]);
    // 1.5 and 7.5 pixels: ties go up
    assert_eq!(commands.draws[0].scissor, Scissor { x: 2, y: 2, width: 6, height: 6 });
}

#[test]
fn draw_hands_out_pending_work_before_the_work_of_the_delta() {
    let mut gui = Gui::new([800, 600], Scale::identity());
    let kept = gui.register_user_image_view(ImageExtent { width: 8, height: 8 });
    let dropped = gui.register_user_image_view(ImageExtent { width: 4, height: 4 });
    gui.unregister_user_image(dropped);
    gui.immediate_ui();
    let mut output = frame(vec![button(kept)], vec![font_atlas()]);
    output.cursor = Cursor::Hand;
    let commands = gui.draw(output, [800, 600]);
    assert_eq!(commands.cursor, Cursor::Hand);
    assert_eq!(
        commands.texture_ops,
        vec![
            TextureOp::Release { id: dropped },
            TextureOp::Allocate {
                id: FONT,
                extent: ImageExtent { width: 2, height: 2 },
                pixels: vec![255; 16],
            },
        ]
    );
    assert_eq!(commands.draws.len(), 1);
    assert_eq!(commands.draws[0].texture, kept);
    // nothing is handed out twice
    gui.immediate_ui();
    let next = gui.draw(frame(vec![], vec![]), [800, 600]);
    assert_eq!(next.texture_ops, vec![]);
    assert_eq!(gui.take_texture_ops(), vec![]);
}

#[test]
fn unregistering_twice_is_unregistering_once() {
    let mut gui = Gui::new([800, 600], Scale::identity());
    let id = gui.register_user_image_view(ImageExtent { width: 8, height: 8 });
    assert_eq!(id, TextureId::User(0));
    assert_eq!(gui.renderer().resolve(id), Some(ImageExtent { width: 8, height: 8 }));
    gui.unregister_user_image(id);
    assert_eq!(gui.renderer().resolve(id), None);
    gui.unregister_user_image(id);
    assert_eq!(gui.renderer().resolve(id), None);
    assert_eq!(gui.take_texture_ops(), vec![TextureOp::Release { id }]);
}

#[test]
fn unregistering_a_managed_texture_does_nothing() {
    let mut gui = Gui::new([800, 600], Scale::identity());
    gui.immediate_ui();
    gui.draw(frame(vec![], vec![font_atlas()]), [800, 600]);
    gui.unregister_user_image(FONT);
    gui.unregister_user_image(TextureId::User(3));
    assert_eq!(gui.renderer().resolve(FONT), Some(ImageExtent { width: 2, height: 2 }));
    assert_eq!(gui.take_texture_ops(), vec![]);
}

#[test]
fn update_feeds_the_next_frame() {
    let mut gui = Gui::new([800, 600], Scale::identity());
    gui.update(&PlatformEvent::CursorMoved { x: 12, y: 34 });
    gui.update(&PlatformEvent::RedrawRequested);
    let raw = gui.immediate_ui();
    assert_eq!(raw.events, vec![UiEvent::PointerMoved { pos: Point { x: 12, y: 34 } }]);
    gui.update(&PlatformEvent::CursorLeft);
    gui.draw(frame(vec![], vec![]), [800, 600]);
    let next = gui.immediate_ui();
    assert_eq!(next.events, vec![UiEvent::PointerGone]);
    assert_eq!(gui.context().adapter().pointer(), Point { x: 12, y: 34 });
}

#[test]
fn gui_tells_which_call_is_in_order() {
    let mut gui = Gui::new([800, 600], Scale::identity());
    assert!(gui.context().accepts(FrameCall::Begin));
    assert!(!gui.context().accepts(FrameCall::End));
    gui.immediate_ui();
    assert!(!gui.context().accepts(FrameCall::Begin));
    assert!(gui.context().accepts(FrameCall::End));
    gui.draw(frame(vec![], vec![]), [800, 600]);
    assert!(gui.context().accepts(FrameCall::Begin));
    assert!(!gui.context().accepts(FrameCall::End));
}
