//! Encoding of a scene into the commands of one frame.

use crate::scene::{Mesh, Object, Scene};
use vstd::prelude::*;

verus! {

/// A resource bound into a descriptor set.
#[derive(Clone, Copy, Debug, PartialEq, Eq, Structural)]
pub enum Binding {
    /// The uniform buffer region holding the transformation block.
    TransformBuffer,
    /// The uniform buffer region holding the light block.
    LightBuffer,
    /// A texture together with its sampler.
    SampledImage { texture: u32 },
}

/// The resources one draw call reads.  The two uniform buffers are always
/// bound; a sampled image only for a textured mesh.
#[derive(Clone, Copy, Debug, PartialEq, Eq, Structural)]
pub struct DescriptorSet {
    pub sampled_image: Option<u32>,
}

impl DescriptorSet {
    /// The bindings of the set in binding order.
    pub open spec fn spec_bindings(self) -> Seq<Binding> {
        match self.sampled_image {
            Some(texture) => seq![
                Binding::TransformBuffer,
                Binding::LightBuffer,
                Binding::SampledImage { texture },
            ],
            None => seq![Binding::TransformBuffer, Binding::LightBuffer],
        }
    }

    /// The bindings of the set in binding order.
    pub fn bindings(&self) -> (bindings: Vec<Binding>)
        ensures
            bindings@ == self.spec_bindings(),
    {
        let mut bindings: Vec<Binding> = Vec::new();
        bindings.push(Binding::TransformBuffer);
        bindings.push(Binding::LightBuffer);
        match self.sampled_image {
            Some(texture) => {
                bindings.push(Binding::SampledImage { texture });
            },
            None => {},
        }
        bindings
    }
}

/// The two flags handed to the shaders with each draw.
#[derive(Clone, Copy, Debug, PartialEq, Eq, Structural)]
pub struct PushConstants {
    pub light_source: u32,
    pub uniform_scale: u32,
}

/// A colour in unsigned normalised components: 0 is none, 255 is full.
#[derive(Clone, Copy, Debug, PartialEq, Eq, Structural)]
pub struct ClearColor {
    pub red: u8,
    pub green: u8,
    pub blue: u8,
    pub alpha: u8,
}

/// One recorded command.
#[derive(Clone, Copy, Debug, PartialEq, Eq, Structural)]
pub enum Command {
    /// Enter the render pass on a framebuffer, clearing colour and depth.
    /// `depth` is in the 16-bit normalised encoding of the depth buffer.
    BeginRenderPass { framebuffer: usize, color: ClearColor, depth: u16 },
    /// Write the transformation block for the object at position `object`
    /// of the scene, and the light block, into the shared uniform buffers.
    UpdateUniforms { object: usize },
    /// Draw a mesh by its index buffer.
    DrawIndexed { mesh: u32, descriptor_set: DescriptorSet, push_constants: PushConstants },
    /// Leave the render pass.
    EndRenderPass,
}

/// Opaque black.
pub open spec fn spec_clear_color() -> ClearColor {
    ClearColor { red: 0, green: 0, blue: 0, alpha: 255 }
}

/// The farthest depth, 1.0.
pub open spec fn spec_clear_depth() -> u16 {
    0xffff
}

/// 1 for `true`, 0 for `false`.
pub open spec fn spec_flag(b: bool) -> u32 {
    if b {
        1
    } else {
        0
    }
}

/// The draw call of an object that holds the mesh `mesh`.
pub open spec fn spec_draw(object: Object, mesh: Mesh) -> Command {
    Command::DrawIndexed {
        mesh: mesh.id,
        descriptor_set: DescriptorSet { sampled_image: mesh.texture },
        push_constants: PushConstants {
            light_source: spec_flag(object.light_source),
            uniform_scale: spec_flag(object.uniform_scale),
        },
    }
}

/// What the object at position `index` contributes to a frame: with a mesh,
/// the update of the uniform buffers followed by its draw call; without
/// one, nothing.
pub open spec fn object_commands(index: int, object: Object) -> Seq<Command> {
    match object.mesh {
        Some(mesh) => seq![
            Command::UpdateUniforms { object: index as usize },
            spec_draw(object, mesh),
        ],
        None => Seq::empty(),
    }
}

/// What the first `n` objects of a scene contribute to a frame, in scene
/// order.
pub open spec fn scene_commands(objects: Seq<Object>, n: nat) -> Seq<Command>
    decreases n,
{
    if n == 0 {
        Seq::empty()
    } else {
        scene_commands(objects, (n - 1) as nat) + object_commands(n - 1, objects[n - 1])
    }
}

/// The commands of one frame: the render pass is entered on `framebuffer`
/// with the clear values, the objects of the scene follow in scene order,
/// and the render pass is left.
pub open spec fn frame_commands(framebuffer: usize, scene: Option<Seq<Object>>) -> Seq<Command> {
    let body = match scene {
        Some(objects) => scene_commands(objects, objects.len()),
        None => Seq::empty(),
    };
    seq![
        Command::BeginRenderPass {
            framebuffer,
            color: spec_clear_color(),
            depth: spec_clear_depth(),
        },
    ] + body + seq![Command::EndRenderPass]
}

fn flag(b: bool) -> (f: u32)
    ensures
        f == spec_flag(b),
{
    if b {
        1
    } else {
        0
    }
}

/// Records the frame that shows `scene` on the framebuffer `image_num`.
/// Without a scene the frame only clears.
pub fn add_scene_commands(image_num: usize, scene: Option<&Scene>) -> (commands: Vec<Command>)
    ensures
        commands@ == frame_commands(
            image_num,
            match scene {
                Some(s) => Some(s@),
                None => None,
            },
        ),
{
    let mut commands: Vec<Command> = Vec::new();
    commands.push(
        Command::BeginRenderPass {
            framebuffer: image_num,
            color: ClearColor { red: 0, green: 0, blue: 0, alpha: 255 },
            depth: 0xffff,
        },
    );
    let ghost head = commands@;
    match scene {
        Some(scene) => {
            let mut i: usize = 0;
            while i < scene.len()
                invariant
                    i <= scene@.len(),
                    commands@ == head + scene_commands(scene@, i as nat),
                decreases scene@.len() - i,
            {
                let object = scene.object(i).unwrap();
                match object.mesh {
                    Some(mesh) => {
                        commands.push(Command::UpdateUniforms { object: i });
                        commands.push(
                            Command::DrawIndexed {
                                mesh: mesh.id,
                                descriptor_set: DescriptorSet { sampled_image: mesh.texture },
                                push_constants: PushConstants {
                                    light_source: flag(object.light_source),
                                    uniform_scale: flag(object.uniform_scale),
                                },
                            },
                        );
                    },
                    None => {},
                }
                i += 1;
            }
        },
        None => {},
    }
    commands.push(Command::EndRenderPass);
    commands
}

/// `command` is an indexed draw call.
pub open spec fn is_draw(command: Command) -> bool {
    command is DrawIndexed
}

/// The draw call that `object` asks for, if it holds a mesh.
pub open spec fn draw_of(object: Object) -> Option<Command> {
    match object.mesh {
        Some(mesh) => Some(spec_draw(object, mesh)),
        None => None,
    }
}

/// A frame without a scene, or with a scene without objects, enters the
/// render pass with the clear values and leaves it: nothing is drawn.
pub proof fn lemma_empty_frame(framebuffer: usize)
    ensures
        frame_commands(framebuffer, None) == seq![
            Command::BeginRenderPass {
                framebuffer,
                color: spec_clear_color(),
                depth: spec_clear_depth(),
            },
            Command::EndRenderPass,
        ],
        frame_commands(framebuffer, Some(Seq::empty())) == frame_commands(framebuffer, None),
        frame_commands(framebuffer, None).filter(|c: Command| is_draw(c)).len() == 0,
{
    let frame = frame_commands(framebuffer, None);
    assert(frame =~= seq![
        Command::BeginRenderPass {
            framebuffer,
            color: spec_clear_color(),
            depth: spec_clear_depth(),
        },
        Command::EndRenderPass,
    ]);
    assert(frame_commands(framebuffer, Some(Seq::empty())) =~= frame);
    let p = |c: Command| is_draw(c);
    assert(frame.filter(p) =~= Seq::<Command>::empty()) by {
        reveal_with_fuel(Seq::filter, 3);
    }
}

/// A frame always starts by entering the render pass on its framebuffer
/// with the clear values and ends by leaving it; in between it only updates
/// uniform buffers and draws.
pub proof fn lemma_frame_is_one_render_pass(framebuffer: usize, scene: Option<Seq<Object>>)
    ensures
        frame_commands(framebuffer, scene).len() >= 2,
        frame_commands(framebuffer, scene).first() == (Command::BeginRenderPass {
            framebuffer,
            color: spec_clear_color(),
            depth: spec_clear_depth(),
        }),
        frame_commands(framebuffer, scene).last() == Command::EndRenderPass,
        forall|k: int|
            0 < k < frame_commands(framebuffer, scene).len() - 1 ==> {
                let c = #[trigger] frame_commands(framebuffer, scene)[k];
                c is UpdateUniforms || c is DrawIndexed
            },
{
    match scene {
        Some(objects) => {
            lemma_scene_commands_kinds(objects, objects.len());
        },
        None => {},
    }
}

proof fn lemma_scene_commands_kinds(objects: Seq<Object>, n: nat)
    ensures
        forall|k: int|
            0 <= k < scene_commands(objects, n).len() ==> {
                let c = #[trigger] scene_commands(objects, n)[k];
                c is UpdateUniforms || c is DrawIndexed
            },
    decreases n,
{
    if n > 0 {
        lemma_scene_commands_kinds(objects, (n - 1) as nat);
    }
}

/// The commands of a scene are issued object by object in scene order: what
/// the first `i` objects contribute comes first, unchanged by the objects
/// behind them, and is directly followed by what object `i` contributes.
pub proof fn lemma_commands_in_scene_order(objects: Seq<Object>, i: nat, n: nat)
    requires
        i < n <= objects.len(),
    ensures
        scene_commands(objects, i) + object_commands(i as int, objects[i as int])
            == scene_commands(objects, i + 1),
        scene_commands(objects, i + 1).len() <= scene_commands(objects, n).len(),
        scene_commands(objects, i + 1) == scene_commands(objects, n).take(
            scene_commands(objects, i + 1).len() as int,
        ),
    decreases n,
{
    if i + 1 < n {
        lemma_commands_in_scene_order(objects, i, (n - 1) as nat);
        let shorter = scene_commands(objects, (n - 1) as nat);
        let longer = scene_commands(objects, n);
        let part = scene_commands(objects, i + 1);
        assert(longer == shorter + object_commands(n - 1, objects[n - 1]));
        assert(part =~= longer.take(part.len() as int));
    } else {
        let part = scene_commands(objects, i + 1);
        assert(part =~= part.take(part.len() as int));
    }
}

/// The draw calls of a frame are those of the objects that hold a mesh, one
/// each, in scene order; an object without a mesh adds none.
pub proof fn lemma_draw_calls_follow_scene(framebuffer: usize, objects: Seq<Object>)
    ensures
        frame_commands(framebuffer, Some(objects)).filter(|c: Command| is_draw(c))
            == objects.filter_map(|o: Object| draw_of(o)),
{
    let p = |c: Command| is_draw(c);
    let begin = seq![
        Command::BeginRenderPass {
            framebuffer,
            color: spec_clear_color(),
            depth: spec_clear_depth(),
        },
    ];
    let end = seq![Command::EndRenderPass];
    let body = scene_commands(objects, objects.len());
    lemma_scene_draw_calls(objects, objects.len());
    assert(objects.take(objects.len() as int) =~= objects);
    assert(begin.filter(p) =~= Seq::<Command>::empty()) by {
        reveal_with_fuel(Seq::filter, 2);
    }
    assert(end.filter(p) =~= Seq::<Command>::empty()) by {
        reveal_with_fuel(Seq::filter, 2);
    }
    Seq::filter_distributes_over_add(begin, body, p);
    Seq::filter_distributes_over_add(begin + body, end, p);
    assert((begin + body + end).filter(p) =~= body.filter(p));
}

proof fn lemma_scene_draw_calls(objects: Seq<Object>, n: nat)
    requires
        n <= objects.len(),
    ensures
        scene_commands(objects, n).filter(|c: Command| is_draw(c)) == objects.take(
            n as int,
        ).filter_map(|o: Object| draw_of(o)),
    decreases n,
{
    let p = |c: Command| is_draw(c);
    let f = |o: Object| draw_of(o);
    if n == 0 {
        assert(scene_commands(objects, n).filter(p) =~= Seq::<Command>::empty()) by {
            reveal_with_fuel(Seq::filter, 1);
        }
        assert(objects.take(0).filter_map(f) =~= Seq::<Command>::empty());
    } else {
        lemma_scene_draw_calls(objects, (n - 1) as nat);
        let before = scene_commands(objects, (n - 1) as nat);
        let own = object_commands(n - 1, objects[n - 1]);
        Seq::filter_distributes_over_add(before, own, p);
        let shorter = objects.take(n - 1);
        let longer = objects.take(n as int);
        assert(longer.drop_last() =~= shorter);
        assert(longer.last() == objects[n - 1]);
        match objects[n - 1].mesh {
            Some(mesh) => {
                assert(own.filter(p) =~= seq![spec_draw(objects[n - 1], mesh)]) by {
                    reveal_with_fuel(Seq::filter, 3);
                    assert(own.drop_last() =~= seq![Command::UpdateUniforms { object: (n - 1) as usize }]);
                    assert(own.drop_last().drop_last() =~= Seq::<Command>::empty());
                }
            },
            None => {
                assert(own.filter(p) =~= Seq::<Command>::empty()) by {
                    reveal_with_fuel(Seq::filter, 1);
                }
            },
        }
    }
}

/// A scene of one object that holds a mesh without a texture is drawn by
/// exactly one indexed draw call, and its descriptor set binds the two
/// uniform buffers and nothing else.
pub proof fn lemma_untextured_object_frame(framebuffer: usize, object: Object)
    requires
        object.mesh matches Some(mesh) && mesh.texture is None,
    ensures
        frame_commands(framebuffer, Some(seq![object])) == seq![
            Command::BeginRenderPass {
                framebuffer,
                color: spec_clear_color(),
                depth: spec_clear_depth(),
            },
            Command::UpdateUniforms { object: 0 },
            spec_draw(object, object.mesh->0),
            Command::EndRenderPass,
        ],
        spec_draw(object, object.mesh->0)->descriptor_set.spec_bindings() == seq![
            Binding::TransformBuffer,
            Binding::LightBuffer,
        ],
{
    let objects = seq![object];
    assert(scene_commands(objects, 1) =~= object_commands(0, object)) by {
        reveal_with_fuel(scene_commands, 2);
    }
    assert(frame_commands(framebuffer, Some(objects)) =~= seq![
        Command::BeginRenderPass {
            framebuffer,
            color: spec_clear_color(),
            depth: spec_clear_depth(),
        },
        Command::UpdateUniforms { object: 0 },
        spec_draw(object, object.mesh->0),
        Command::EndRenderPass,
    ]);
}

/// The draw call of a textured mesh binds three resources in a fixed order:
/// the transformation buffer, the light buffer, the sampled image.
pub proof fn lemma_textured_object_bindings(object: Object, mesh: Mesh)
    requires
        mesh.texture is Some,
    ensures
        spec_draw(object, mesh)->descriptor_set.spec_bindings() == seq![
            Binding::TransformBuffer,
            Binding::LightBuffer,
            Binding::SampledImage { texture: mesh.texture->0 },
        ],
{
}

} // verus!
