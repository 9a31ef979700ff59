//! A light that shines in one direction, the block of words through which
//! shaders read it, and the pass that renders its shadow map.

use crate::buffer::UniformBuffer;
use crate::camera::Camera;
use crate::error::Error;
use crate::math::{vec3, Mat4Ext, Vec3Ext};
use crate::state::{RenderStates, Viewport};
use crate::texture::{DepthFormat, DepthTargetTexture2D, Wrapping};
use cgmath::{Matrix4, Vector3};
use vstd::prelude::*;

verus! {

/// The slot of the light block that holds the colour: three words.
pub const COLOR_SLOT: u32 = 0;

/// The slot that holds the intensity: one word.
pub const INTENSITY_SLOT: u32 = 1;

/// The slot that holds the direction: three words.
pub const DIRECTION_SLOT: u32 = 2;

/// The slot that holds the shadow flag: one word.
pub const SHADOW_FLAG_SLOT: u32 = 3;

/// The slot that holds the shadow transform: sixteen words, column after column.
pub const SHADOW_TRANSFORM_SLOT: u32 = 4;

/// The word of the float 0.0: the light casts no shadow.
pub const FLAG_OFF: u32 = 0;

/// The word of the float 1.0: the light casts shadows.
pub const FLAG_ON: u32 = 0x3F80_0000;

/// The word of the float 1.0: the depth a shadow map is cleared to.
pub const CLEAR_DEPTH: u32 = 0x3F80_0000;

/// The one-texel depth texture that stands in while there is no shadow map.
pub open spec fn placeholder_texture() -> DepthTargetTexture2D {
    shadow_texture(1, 1)
}

/// The depth texture of a shadow map of the given size.
pub open spec fn shadow_texture(width: u32, height: u32) -> DepthTargetTexture2D {
    DepthTargetTexture2D {
        width,
        height,
        wrap_s: Wrapping::ClampToEdge,
        wrap_t: Wrapping::ClampToEdge,
        format: DepthFormat::Depth32F,
    }
}

/// All that can be observed of a light.
pub struct LightView {
    /// The five slots of the light block.
    pub slots: Seq<Seq<u32>>,
    /// The camera of the shadow map, while there is one.
    pub shadow_camera: Option<Camera>,
    /// The texture that the shadow-map accessor hands out.
    pub shadow_texture: DepthTargetTexture2D,
}

impl LightView {
    /// The block has its five slots, of three, one, three, one and sixteen words.
    pub open spec fn wf(self) -> bool {
        &&& self.slots.len() == 5
        &&& self.slots[0].len() == 3
        &&& self.slots[1].len() == 1
        &&& self.slots[2].len() == 3
        &&& self.slots[3].len() == 1
        &&& self.slots[4].len() == 16
    }

    /// The light with slot `index` overwritten.
    pub open spec fn with_slot(self, index: int, words: Seq<u32>) -> LightView {
        LightView { slots: self.slots.update(index, words), ..self }
    }

    /// The light without a shadow map: no camera, the placeholder texture,
    /// the flag off.
    pub open spec fn cleared(self) -> LightView {
        LightView {
            slots: self.slots.update(SHADOW_FLAG_SLOT as int, seq![FLAG_OFF]),
            shadow_camera: None,
            shadow_texture: placeholder_texture(),
        }
    }

    /// The light once the shadow camera is in place and its transform is
    /// in the block.
    pub open spec fn aimed(self, camera: Camera, transform: Seq<u32>) -> LightView {
        LightView {
            slots: self.slots.update(SHADOW_TRANSFORM_SLOT as int, transform),
            shadow_camera: Some(camera),
            ..self
        }
    }

    /// The light once the shadow map has its new size.
    pub open spec fn resized(self, width: u32, height: u32) -> LightView {
        LightView { shadow_texture: shadow_texture(width, height), ..self }
    }

    /// The light with the shadow flag on.
    pub open spec fn enabled(self) -> LightView {
        LightView { slots: self.slots.update(SHADOW_FLAG_SLOT as int, seq![FLAG_ON]), ..self }
    }

    /// The light with a finished shadow map.
    pub open spec fn shadowed(
        self,
        camera: Camera,
        transform: Seq<u32>,
        width: u32,
        height: u32,
    ) -> LightView {
        self.aimed(camera, transform).resized(width, height).enabled()
    }
}

/// Whether a geometry is rendered into the shadow map, given what the
/// frustum test said of its bounding box: `None` when it has no box. Only a
/// geometry whose box lies wholly outside of the frustum is left out.
pub open spec fn casts_shadow_spec(in_frustum: Option<bool>) -> bool {
    in_frustum != Some(false)
}

#[verifier::when_used_as_spec(casts_shadow_spec)]
pub fn casts_shadow(in_frustum: Option<bool>) -> (r: bool)
    ensures
        r == casts_shadow_spec(in_frustum),
        in_frustum is None ==> r,
        in_frustum == Some(true) ==> r,
{
    match in_frustum {
        Some(inside) => inside,
        None => true,
    }
}

/// Renders, in order, each geometry that casts a shadow, and stops at the
/// first that fails. `in_frustum` holds for each geometry what the frustum
/// test said of its bounding box; `render_depth` renders the geometry of the
/// given index.
pub fn shadow_pass<R>(in_frustum: &[Option<bool>], viewport: Viewport, render_depth: &R) -> (r:
    Result<(), Error>) where R: Fn(usize, RenderStates, Viewport) -> Result<(), Error>
    requires
        forall|i: usize|
            i < in_frustum@.len() && casts_shadow(in_frustum@[i as int]) ==> call_requires(
                *render_depth,
                (i, RenderStates::default_spec(), viewport),
            ),
    ensures
        r is Ok ==> forall|i: usize|
            i < in_frustum@.len() && casts_shadow(in_frustum@[i as int]) ==> call_ensures(
                *render_depth,
                (i, RenderStates::default_spec(), viewport),
                Ok::<(), Error>(()),
            ),
        r is Err ==> exists|i: usize|
            {
                &&& i < in_frustum@.len()
                &&& casts_shadow(in_frustum@[i as int])
                &&& #[trigger] call_ensures(
                    *render_depth,
                    (i, RenderStates::default_spec(), viewport),
                    r,
                )
                &&& forall|j: usize|
                    j < i && casts_shadow(in_frustum@[j as int]) ==> call_ensures(
                        *render_depth,
                        (j, RenderStates::default_spec(), viewport),
                        Ok::<(), Error>(()),
                    )
            },
        (forall|i: int| 0 <= i < in_frustum@.len() ==> !casts_shadow(in_frustum@[i])) ==> r is Ok,
{
    let mut i: usize = 0;
    while i < in_frustum.len()
        invariant
            i <= in_frustum@.len(),
            forall|k: usize|
                k < in_frustum@.len() && casts_shadow(in_frustum@[k as int]) ==> call_requires(
                    *render_depth,
                    (k, RenderStates::default_spec(), viewport),
                ),
            forall|j: usize|
                j < i && casts_shadow(in_frustum@[j as int]) ==> call_ensures(
                    *render_depth,
                    (j, RenderStates::default_spec(), viewport),
                    Ok::<(), Error>(()),
                ),
        decreases in_frustum@.len() - i,
    {
        if casts_shadow(in_frustum[i]) {
            let step = render_depth(i, RenderStates::default(), viewport);
            match step {
                Ok(u) => {
                    assert(step == Ok::<(), Error>(()));
                },
                Err(e) => {
                    return Err(e);
                },
            }
        }
        i += 1;
    }
    Ok(())
}

/// A directional light with its light block and its shadow map.
pub struct DirectionalLight {
    light_buffer: UniformBuffer,
    shadow_texture: DepthTargetTexture2D,
    shadow_camera: Option<Camera>,
}

impl View for DirectionalLight {
    type V = LightView;

    closed spec fn view(&self) -> LightView {
        LightView {
            slots: self.light_buffer@,
            shadow_camera: self.shadow_camera,
            shadow_texture: self.shadow_texture,
        }
    }
}

impl DirectionalLight {
    /// The light block is sound as a buffer.
    pub closed spec fn buffer_wf(&self) -> bool {
        self.light_buffer.wf()
    }

    /// The light block is laid out as shaders expect it.
    pub open spec fn wf(&self) -> bool {
        self.buffer_wf() && self@.wf()
    }

    /// The words of the whole light block, as they are handed to the GPU.
    pub closed spec fn words(&self) -> Seq<u32> {
        self.light_buffer.words()
    }

    fn write(&mut self, index: u32, words: &[u32])
        requires
            old(self).wf(),
            index < 5,
            words@.len() == old(self)@.slots[index as int].len(),
        ensures
            final(self).wf(),
            final(self)@ == old(self)@.with_slot(index as int, words@),
    {
        let _ = self.light_buffer.update(index, words);
    }

    /// A light without a shadow map. Colour and direction are given as the
    /// words of their components, the direction as a vector of length one.
    pub fn new(intensity: u32, color: &Vector3<u32>, direction: &Vector3<u32>) -> (r:
        DirectionalLight)
        ensures
            r.wf(),
            r@.slots[COLOR_SLOT as int] == color.slice_view(),
            r@.slots[INTENSITY_SLOT as int] == seq![intensity],
            r@.slots[DIRECTION_SLOT as int] == direction.slice_view(),
            r@.slots[SHADOW_FLAG_SLOT as int] == seq![FLAG_OFF],
            r@.slots[SHADOW_TRANSFORM_SLOT as int] == crate::buffer::zeroed(16),
            r@.shadow_camera is None,
            r@.shadow_texture == placeholder_texture(),
    {
        let sizes: [u32; 5] = [3, 1, 3, 1, 16];
        proof {
            let s = sizes@;
            reveal_with_fuel(crate::buffer::total_size, 6);
            assert(s.drop_last() =~= seq![3u32, 1, 3, 1]);
            assert(s.drop_last().drop_last() =~= seq![3u32, 1, 3]);
            assert(s.drop_last().drop_last().drop_last() =~= seq![3u32, 1]);
            assert(s.drop_last().drop_last().drop_last().drop_last() =~= seq![3u32]);
            assert(crate::buffer::total_size(s) == 24);
        }
        let light_buffer = UniformBuffer::new(sizes.as_slice()).unwrap();
        let mut light = DirectionalLight {
            light_buffer,
            shadow_texture: DepthTargetTexture2D::new(
                1,
                1,
                Wrapping::ClampToEdge,
                Wrapping::ClampToEdge,
                DepthFormat::Depth32F,
            ),
            shadow_camera: None,
        };
        assert(crate::buffer::zeroed(1) =~= seq![FLAG_OFF]);
        light.set_intensity(intensity);
        light.set_color(color);
        light.set_direction(direction);
        light
    }

    /// Writes the colour into its slot.
    pub fn set_color(&mut self, color: &Vector3<u32>)
        requires
            old(self).wf(),
        ensures
            final(self).wf(),
            final(self)@ == old(self)@.with_slot(COLOR_SLOT as int, color.slice_view()),
    {
        let words = color.to_slice();
        self.write(COLOR_SLOT, words.as_slice());
    }

    /// Writes the intensity into its slot.
    pub fn set_intensity(&mut self, intensity: u32)
        requires
            old(self).wf(),
        ensures
            final(self).wf(),
            final(self)@ == old(self)@.with_slot(INTENSITY_SLOT as int, seq![intensity]),
    {
        let words: [u32; 1] = [intensity];
        assert(words@ =~= seq![intensity]);
        self.write(INTENSITY_SLOT, words.as_slice());
    }

    /// Writes the direction into its slot. The words are those of a vector
    /// of length one: they are stored as given and read back as stored.
    pub fn set_direction(&mut self, direction: &Vector3<u32>)
        requires
            old(self).wf(),
        ensures
            final(self).wf(),
            final(self)@ == old(self)@.with_slot(DIRECTION_SLOT as int, direction.slice_view()),
    {
        let words = direction.to_slice();
        self.write(DIRECTION_SLOT, words.as_slice());
    }

    /// The direction as it stands in the block.
    pub fn direction(&self) -> (d: Vector3<u32>)
        requires
            self.wf(),
        ensures
            d.slice_view() == self@.slots[DIRECTION_SLOT as int],
    {
        let words = self.light_buffer.get(DIRECTION_SLOT).unwrap();
        let d = vec3(words[0], words[1], words[2]);
        assert(d.slice_view() =~= self@.slots[2]);
        d
    }

    /// Gives the shadow map up: the camera goes, the texture shrinks to the
    /// one-texel placeholder, the flag is turned off.
    pub fn clear_shadow_map(&mut self)
        requires
            old(self).wf(),
        ensures
            final(self).wf(),
            final(self)@ == old(self)@.cleared(),
    {
        self.shadow_camera = None;
        self.shadow_texture = DepthTargetTexture2D::new(
            1,
            1,
            Wrapping::ClampToEdge,
            Wrapping::ClampToEdge,
            DepthFormat::Depth32F,
        );
        let words: [u32; 1] = [FLAG_OFF];
        assert(words@ =~= seq![FLAG_OFF]);
        self.write(SHADOW_FLAG_SLOT, words.as_slice());
    }

    /// Ends the making of a shadow map whose texture was asked for with the
    /// outcome `allocated` and, if that went well, whose geometries were
    /// rendered with the outcome `rendered`. The camera and its transform
    /// are in place whatever happened; the texture has its new size if it
    /// could be allocated; the flag is turned on if all went well, and is
    /// left as it was otherwise.
    pub fn complete_shadow_map(
        &mut self,
        camera: Camera,
        shadow_transform: &Matrix4<u32>,
        texture_width: u32,
        texture_height: u32,
        allocated: Result<(), Error>,
        rendered: Result<(), Error>,
    ) -> (r: Result<(), Error>)
        requires
            old(self).wf(),
        ensures
            final(self).wf(),
            final(self)@ == shadow_outcome(
                old(self)@,
                camera,
                shadow_transform.slice_view(),
                texture_width,
                texture_height,
                allocated is Ok,
                rendered is Ok,
            ),
            r == (if allocated is Err {
                allocated
            } else {
                rendered
            }),
    {
        self.shadow_camera = Some(camera);
        let words = shadow_transform.to_slice();
        self.write(SHADOW_TRANSFORM_SLOT, words.as_slice());
        if allocated.is_err() {
            return allocated;
        }
        self.shadow_texture = DepthTargetTexture2D::new(
            texture_width,
            texture_height,
            Wrapping::ClampToEdge,
            Wrapping::ClampToEdge,
            DepthFormat::Depth32F,
        );
        if rendered.is_err() {
            return rendered;
        }
        let flag: [u32; 1] = [FLAG_ON];
        assert(flag@ =~= seq![FLAG_ON]);
        self.write(SHADOW_FLAG_SLOT, flag.as_slice());
        rendered
    }

    /// Makes the shadow map: puts the camera and its transform in place,
    /// asks `allocate` for a depth texture of the given size that is
    /// cleared to the greatest depth, has `render_depth` render every
    /// geometry that casts a shadow, and turns the flag on. A failure of
    /// `allocate` or of a geometry ends the call with that failure: the
    /// flag is then as it was before.
    pub fn generate_shadow_map<A, R>(
        &mut self,
        camera: Camera,
        shadow_transform: &Matrix4<u32>,
        texture_width: u32,
        texture_height: u32,
        in_frustum: &[Option<bool>],
        allocate: A,
        render_depth: R,
    ) -> (r: Result<(), Error>) where
        A: FnOnce(DepthTargetTexture2D, u32) -> Result<(), Error>,
        R: Fn(usize, RenderStates, Viewport) -> Result<(), Error>,

        requires
            old(self).wf(),
            call_requires(allocate, (shadow_texture(texture_width, texture_height), CLEAR_DEPTH)),
            forall|i: usize|
                i < in_frustum@.len() && casts_shadow(in_frustum@[i as int]) ==> call_requires(
                    render_depth,
                    (
                        i,
                        RenderStates::default_spec(),
                        Viewport::at_origo(texture_width, texture_height),
                    ),
                ),
        ensures
            final(self).wf(),
            r is Ok ==> {
                &&& call_ensures(
                    allocate,
                    (shadow_texture(texture_width, texture_height), CLEAR_DEPTH),
                    Ok::<(), Error>(()),
                )
                &&& pass_outcome(
                    in_frustum@,
                    Viewport::at_origo(texture_width, texture_height),
                    render_depth,
                    r,
                )
            },
            r is Err ==> {
                ||| {
                    &&& call_ensures(
                        allocate,
                        (shadow_texture(texture_width, texture_height), CLEAR_DEPTH),
                        r,
                    )
                    &&& final(self)@ == old(self)@.aimed(camera, shadow_transform.slice_view())
                }
                ||| {
                    &&& call_ensures(
                        allocate,
                        (shadow_texture(texture_width, texture_height), CLEAR_DEPTH),
                        Ok::<(), Error>(()),
                    )
                    &&& pass_outcome(
                        in_frustum@,
                        Viewport::at_origo(texture_width, texture_height),
                        render_depth,
                        r,
                    )
                    &&& final(self)@ == old(self)@.aimed(
                        camera,
                        shadow_transform.slice_view(),
                    ).resized(texture_width, texture_height)
                }
            },
            r is Ok ==> final(self)@ == old(self)@.shadowed(
                camera,
                shadow_transform.slice_view(),
                texture_width,
                texture_height,
            ),
            r is Err ==> final(self)@.slots[SHADOW_FLAG_SLOT as int] == old(
                self,
            )@.slots[SHADOW_FLAG_SLOT as int],
    {
        let texture = DepthTargetTexture2D::new(
            texture_width,
            texture_height,
            Wrapping::ClampToEdge,
            Wrapping::ClampToEdge,
            DepthFormat::Depth32F,
        );
        let viewport = Viewport::new_at_origo(texture_width, texture_height);
        let allocated = allocate(texture, CLEAR_DEPTH);
        match allocated {
            Ok(u) => {
                assert(allocated == Ok::<(), Error>(()));
            },
            Err(_) => {},
        }
        let rendered = if allocated.is_ok() {
            shadow_pass(in_frustum, viewport, &render_depth)
        } else {
            Ok(())
        };
        assert(allocated is Ok ==> pass_outcome(in_frustum@, viewport, render_depth, rendered));
        self.complete_shadow_map(
            camera,
            shadow_transform,
            texture_width,
            texture_height,
            allocated,
            rendered,
        )
    }

    /// The texture of the shadow map; the placeholder while there is none.
    pub fn shadow_map(&self) -> (r: &DepthTargetTexture2D)
        ensures
            *r == self@.shadow_texture,
    {
        &self.shadow_texture
    }

    /// The camera of the shadow map, while there is one.
    pub fn shadow_camera(&self) -> (r: Option<Camera>)
        ensures
            r == self@.shadow_camera,
    {
        self.shadow_camera
    }

    /// The light block.
    pub fn buffer(&self) -> (r: &UniformBuffer)
        ensures
            r@ == self@.slots,
            r.words() == self.words(),
            self.wf() ==> r.wf(),
    {
        &self.light_buffer
    }
}

/// The light after an attempt to make a shadow map, by how far it got.
pub open spec fn shadow_outcome(
    before: LightView,
    camera: Camera,
    transform: Seq<u32>,
    width: u32,
    height: u32,
    allocated: bool,
    rendered: bool,
) -> LightView {
    if !allocated {
        before.aimed(camera, transform)
    } else if !rendered {
        before.aimed(camera, transform).resized(width, height)
    } else {
        before.shadowed(camera, transform, width, height)
    }
}

/// What holds of the result of a shadow pass: on success every geometry
/// that casts a shadow was rendered; on failure the result is that of the
/// first such geometry that failed, and those before it were rendered.
pub open spec fn pass_outcome<R: Fn(usize, RenderStates, Viewport) -> Result<(), Error>>(
    in_frustum: Seq<Option<bool>>,
    viewport: Viewport,
    render_depth: R,
    r: Result<(), Error>,
) -> bool {
    &&& r is Ok ==> forall|i: usize|
        i < in_frustum.len() && casts_shadow(in_frustum[i as int]) ==> call_ensures(
            render_depth,
            (i, RenderStates::default_spec(), viewport),
            Ok::<(), Error>(()),
        )
    &&& r is Err ==> exists|i: usize|
        {
            &&& i < in_frustum.len()
            &&& casts_shadow(in_frustum[i as int])
            &&& #[trigger] call_ensures(
                render_depth,
                (i, RenderStates::default_spec(), viewport),
                r,
            )
            &&& forall|j: usize|
                j < i && casts_shadow(in_frustum[j as int]) ==> call_ensures(
                    render_depth,
                    (j, RenderStates::default_spec(), viewport),
                    Ok::<(), Error>(()),
                )
        }
}

/// Clearing the shadow map twice leaves the light as clearing it once does:
/// no camera, the placeholder texture, the flag off.
pub proof fn lemma_clear_idempotent(light: LightView)
    requires
        light.wf(),
    ensures
        light.cleared().cleared() == light.cleared(),
        light.cleared().shadow_camera is None,
        light.cleared().shadow_texture == placeholder_texture(),
        light.cleared().slots[SHADOW_FLAG_SLOT as int] == seq![FLAG_OFF],
        light.cleared().wf(),
{
    assert(light.cleared().cleared().slots =~= light.cleared().slots);
}

/// A shadow map that is made, cleared and made again with the same
/// arguments leaves the light, and with it every word of the shadow
/// transform, as making it once does.
pub proof fn lemma_regenerate_after_clear(
    light: LightView,
    camera: Camera,
    transform: Seq<u32>,
    width: u32,
    height: u32,
)
    requires
        light.wf(),
        transform.len() == 16,
    ensures
        light.shadowed(camera, transform, width, height).cleared().shadowed(
            camera,
            transform,
            width,
            height,
        ) == light.shadowed(camera, transform, width, height),
        light.shadowed(camera, transform, width, height).slots[SHADOW_TRANSFORM_SLOT as int]
            == transform,
        light.shadowed(camera, transform, width, height).wf(),
{
    let once = light.shadowed(camera, transform, width, height);
    let again = once.cleared().shadowed(camera, transform, width, height);
    assert(again.slots =~= once.slots);
}

/// A write to one slot leaves every other slot, the camera and the texture
/// as they were, and is read back as it was written.
pub proof fn lemma_slot_isolation(light: LightView, index: int, words: Seq<u32>, other: int)
    requires
        light.wf(),
        0 <= index < 5,
        0 <= other < 5,
        other != index,
    ensures
        light.with_slot(index, words).slots[index] == words,
        light.with_slot(index, words).slots[other] == light.slots[other],
        light.with_slot(index, words).shadow_camera == light.shadow_camera,
        light.with_slot(index, words).shadow_texture == light.shadow_texture,
{
}

impl DirectionalLight {
    /// The light block is twenty-four words long: the colour takes words 0
    /// to 2, the intensity word 3, the direction words 4 to 6, the shadow
    /// flag word 7 and the shadow transform words 8 to 23.
    pub proof fn lemma_block_layout(&self)
        requires
            self.wf(),
        ensures
            self.words().len() == 24,
            self.words().subrange(0, 3) == self@.slots[0],
            self.words().subrange(3, 4) == self@.slots[1],
            self.words().subrange(4, 7) == self@.slots[2],
            self.words().subrange(7, 8) == self@.slots[3],
            self.words().subrange(8, 24) == self@.slots[4],
    {
        let slots = self@.slots;
        reveal_with_fuel(crate::buffer::slot_offset, 6);
        assert(crate::buffer::slot_offset(slots, 0) == 0);
        assert(crate::buffer::slot_offset(slots, 1) == 3);
        assert(crate::buffer::slot_offset(slots, 2) == 4);
        assert(crate::buffer::slot_offset(slots, 3) == 7);
        assert(crate::buffer::slot_offset(slots, 4) == 8);
        assert(crate::buffer::slot_offset(slots, 5) == 24);
        self.light_buffer.lemma_layout(0, 0);
        assert forall|i: int, k: int| 0 <= i < 5 && 0 <= k < slots[i].len() implies self.words()[
            crate::buffer::slot_offset(slots, i) + k
        ] == slots[i][k] by {
            self.light_buffer.lemma_layout(i, k);
        }
        assert(self.words().subrange(0, 3) =~= slots[0]) by {
            assert forall|k: int| 0 <= k < 3 implies self.words()[k] == slots[0][k] by {
                assert(self.words()[crate::buffer::slot_offset(slots, 0) + k] == slots[0][k]);
            }
        }
        assert(self.words().subrange(3, 4) =~= slots[1]) by {
            assert(self.words()[crate::buffer::slot_offset(slots, 1) + 0] == slots[1][0]);
        }
        assert(self.words().subrange(4, 7) =~= slots[2]) by {
            assert forall|k: int| 0 <= k < 3 implies self.words()[4 + k] == slots[2][k] by {
                assert(self.words()[crate::buffer::slot_offset(slots, 2) + k] == slots[2][k]);
            }
        }
        assert(self.words().subrange(7, 8) =~= slots[3]) by {
            assert(self.words()[crate::buffer::slot_offset(slots, 3) + 0] == slots[3][0]);
        }
        assert(self.words().subrange(8, 24) =~= slots[4]) by {
            assert forall|k: int| 0 <= k < 16 implies self.words()[8 + k] == slots[4][k] by {
                assert(self.words()[crate::buffer::slot_offset(slots, 4) + k] == slots[4][k]);
            }
        }
    }
}

} // verus!
