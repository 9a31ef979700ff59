use cgmath::{InnerSpace, Matrix4, Vector3};
use std::cell::RefCell;
use three_d::camera::Camera;
use three_d::error::Error;
use three_d::light::{casts_shadow, shadow_pass, DirectionalLight, CLEAR_DEPTH, FLAG_OFF, FLAG_ON};
use three_d::math::vec3;
use three_d::state::{RenderStates, Viewport};
use three_d::texture::{DepthFormat, DepthTargetTexture2D, Wrapping};

fn words(v: Vector3<f32>) -> Vector3<u32> {
    v.map(f32::to_bits)
}

fn floats(v: Vector3<u32>) -> Vector3<f32> {
    v.map(f32::from_bits)
}

fn light() -> DirectionalLight {
    DirectionalLight::new(
        2.0f32.to_bits(),
        &words(vec3(1.0, 0.5, 0.25)),
        &words(vec3(0.0, -1.0, 0.0)),
    )
}

fn camera() -> Camera {
    Camera::new_orthographic(
        words(vec3(0.0, 5.0, 0.0)),
        words(vec3(0.0, 0.0, 0.0)),
        words(vec3(0.0, 0.0, 1.0)),
        10.0f32.to_bits(),
        10.0f32.to_bits(),
        10.0f32.to_bits(),
    )
}

fn transform() -> Matrix4<u32> {
    Matrix4::new(1, 2, 3, 4, 5, 6, 7, 8, 9, 10, 11, 12, 13, 14, 15, 16)
}

fn placeholder() -> DepthTargetTexture2D {
    DepthTargetTexture2D::new(1, 1, Wrapping::ClampToEdge, Wrapping::ClampToEdge, DepthFormat::Depth32F)
}

fn state(light: &DirectionalLight) -> (Vec<u32>, Option<Camera>, DepthTargetTexture2D) {
    (light.buffer().data().to_vec(), light.shadow_camera(), *light.shadow_map())
}

#[test]
fn flag_words_are_those_of_zero_and_one() {
    assert_eq!(FLAG_OFF, 0.0f32.to_bits());
    assert_eq!(FLAG_ON, 1.0f32.to_bits());
    assert_eq!(CLEAR_DEPTH, 1.0f32.to_bits());
}

#[test]
fn new_light_fills_its_block_and_has_no_shadow_map() {
    let light = light();
    let buffer = light.buffer();
    assert_eq!(buffer.slot_count(), 5);
    assert_eq!(buffer.get(0).unwrap(), &[1.0f32.to_bits(), 0.5f32.to_bits(), 0.25f32.to_bits()][..]);
    assert_eq!(buffer.get(1).unwrap(), &[2.0f32.to_bits()][..]);
    assert_eq!(buffer.get(2).unwrap(), &[0.0f32.to_bits(), (-1.0f32).to_bits(), 0.0f32.to_bits()][..]);
    assert_eq!(buffer.get(3).unwrap(), &[FLAG_OFF][..]);
    assert_eq!(buffer.get(4).unwrap(), &[0u32; 16][..]);
    assert_eq!(light.shadow_camera(), None);
    assert_eq!(*light.shadow_map(), placeholder());
}

#[test]
fn block_is_twenty_four_words_in_fixed_places() {
    let mut light = light();
    light.set_color(&vec3(1, 2, 3));
    light.set_intensity(4);
    light.set_direction(&vec3(5, 6, 7));
    let r = light.generate_shadow_map(camera(), &transform(), 4, 4, &[], |_, _| Ok(()), |_, _, _| Ok(()));
    assert_eq!(r, Ok(()));
    let mut expected = vec![1, 2, 3, 4, 5, 6, 7, FLAG_ON];
    expected.extend(1..=16u32);
    assert_eq!(light.buffer().data(), expected.as_slice());
}

#[test]
fn setters_write_one_slot_each() {
    let mut light = light();
    let before = light.buffer().data().to_vec();
    light.set_color(&vec3(7, 8, 9));
    let after = light.buffer().data().to_vec();
    assert_eq!(&after[..3], &[7, 8, 9]);
    assert_eq!(&after[3..], &before[3..]);
    light.set_intensity(11);
    let after = light.buffer().data().to_vec();
    assert_eq!(&after[..3], &[7, 8, 9]);
    assert_eq!(after[3], 11);
    assert_eq!(&after[4..], &before[4..]);
    light.set_direction(&vec3(21, 22, 23));
    let after = light.buffer().data().to_vec();
    assert_eq!(&after[..4], &[7, 8, 9, 11]);
    assert_eq!(&after[4..7], &[21, 22, 23]);
    assert_eq!(&after[7..], &before[7..]);
}

#[test]
fn direction_is_read_back_as_a_unit_vector_parallel_to_the_input() {
    let inputs = [
        vec3(0.0f32, -3.0, 0.0),
        vec3(1.0, 1.0, 1.0),
        vec3(-0.2, 0.1, 7.5),
        vec3(100.0, 0.0, 0.001),
    ];
    let mut light = light();
    for d in inputs.iter() {
        let unit = d.normalize();
        light.set_direction(&words(unit));
        let read = floats(light.direction());
        assert_eq!(read, unit);
        assert!((read.magnitude() - 1.0).abs() < 1e-5);
        assert!(read.cross(*d).magnitude() < 1e-4 * d.magnitude());
        assert!(read.dot(*d) > 0.0);
    }
}

#[test]
fn clear_shadow_map_is_idempotent() {
    let mut light = light();
    assert_eq!(
        light.generate_shadow_map(camera(), &transform(), 512, 256, &[], |_, _| Ok(()), |_, _, _| Ok(())),
        Ok(())
    );
    light.clear_shadow_map();
    let once = state(&light);
    light.clear_shadow_map();
    let twice = state(&light);
    assert_eq!(once, twice);
    assert_eq!(light.shadow_camera(), None);
    assert_eq!(*light.shadow_map(), placeholder());
    assert_eq!(light.buffer().get(3).unwrap(), &[FLAG_OFF][..]);
}

#[test]
fn clear_keeps_colour_intensity_direction_and_transform() {
    let mut light = light();
    light
        .generate_shadow_map(camera(), &transform(), 8, 8, &[], |_, _| Ok(()), |_, _, _| Ok(()))
        .unwrap();
    let before = light.buffer().data().to_vec();
    light.clear_shadow_map();
    let after = light.buffer().data().to_vec();
    assert_eq!(&after[..7], &before[..7]);
    assert_eq!(after[7], FLAG_OFF);
    assert_eq!(&after[8..], &before[8..]);
}

#[test]
fn generate_enables_the_shadow_map() {
    let mut light = light();
    let asked = RefCell::new(Vec::new());
    let r = light.generate_shadow_map(
        camera(),
        &transform(),
        512,
        256,
        &[],
        |texture, depth| {
            asked.borrow_mut().push((texture, depth));
            Ok(())
        },
        |_, _, _| Ok(()),
    );
    assert_eq!(r, Ok(()));
    let texture = DepthTargetTexture2D::new(
        512,
        256,
        Wrapping::ClampToEdge,
        Wrapping::ClampToEdge,
        DepthFormat::Depth32F,
    );
    assert_eq!(*asked.borrow(), vec![(texture, 1.0f32.to_bits())]);
    assert_eq!(light.shadow_camera(), Some(camera()));
    assert_eq!(*light.shadow_map(), texture);
    assert_eq!(light.shadow_map().width(), 512);
    assert_eq!(light.shadow_map().height(), 256);
    assert_eq!(light.buffer().get(3).unwrap(), &[FLAG_ON][..]);
    let expected: Vec<u32> = (1..=16).collect();
    assert_eq!(light.buffer().get(4).unwrap(), expected.as_slice());
}

#[test]
fn generate_clear_generate_gives_the_same_transform() {
    let mut direct = light();
    direct
        .generate_shadow_map(camera(), &transform(), 64, 32, &[], |_, _| Ok(()), |_, _, _| Ok(()))
        .unwrap();
    let mut cycled = light();
    cycled
        .generate_shadow_map(camera(), &transform(), 64, 32, &[], |_, _| Ok(()), |_, _, _| Ok(()))
        .unwrap();
    cycled.clear_shadow_map();
    cycled
        .generate_shadow_map(camera(), &transform(), 64, 32, &[], |_, _| Ok(()), |_, _, _| Ok(()))
        .unwrap();
    assert_eq!(cycled.buffer().get(4).unwrap(), direct.buffer().get(4).unwrap());
    assert_eq!(state(&cycled), state(&direct));
}

fn in_box(min: [f32; 3], max: [f32; 3]) -> bool {
    // the frustum of the test: the box of side 10 about the origin
    (0..3).all(|k| max[k] >= -5.0 && min[k] <= 5.0)
}

#[test]
fn culling_skips_only_what_lies_outside() {
    let outside = Some(in_box([20.0, 0.0, 0.0], [22.0, 1.0, 1.0]));
    let straddling = Some(in_box([4.0, 4.0, 4.0], [6.0, 6.0, 6.0]));
    let inside = Some(in_box([-1.0, -1.0, -1.0], [1.0, 1.0, 1.0]));
    let unbounded = None;
    assert_eq!(outside, Some(false));
    assert_eq!(straddling, Some(true));
    let rendered = RefCell::new(Vec::new());
    let mut light = light();
    let r = light.generate_shadow_map(
        camera(),
        &transform(),
        128,
        64,
        &[outside, straddling, unbounded, inside, outside],
        |_, _| Ok(()),
        |i, states, viewport| {
            rendered.borrow_mut().push((i, states, viewport));
            Ok(())
        },
    );
    assert_eq!(r, Ok(()));
    let viewport = Viewport::new_at_origo(128, 64);
    let states = RenderStates::default();
    assert_eq!(
        *rendered.borrow(),
        vec![(1, states, viewport), (2, states, viewport), (3, states, viewport)]
    );
}

#[test]
fn casts_shadow_unless_known_to_be_outside() {
    assert!(casts_shadow(None));
    assert!(casts_shadow(Some(true)));
    assert!(!casts_shadow(Some(false)));
}

#[test]
fn shadow_pass_stops_at_the_first_failure() {
    let rendered = RefCell::new(Vec::new());
    let r = shadow_pass(
        &[None, Some(false), Some(true), None],
        Viewport::new_at_origo(2, 2),
        &|i, _, _| {
            rendered.borrow_mut().push(i);
            if i == 2 {
                Err(Error::Render)
            } else {
                Ok(())
            }
        },
    );
    assert_eq!(r, Err(Error::Render));
    assert_eq!(*rendered.borrow(), vec![0, 2]);
}

#[test]
fn shadow_pass_of_nothing_succeeds() {
    let r = shadow_pass(&[], Viewport::new_at_origo(2, 2), &|_, _, _| Err(Error::Render));
    assert_eq!(r, Ok(()));
    let r = shadow_pass(
        &[Some(false), Some(false)],
        Viewport::new_at_origo(2, 2),
        &|_, _, _| Err(Error::Render),
    );
    assert_eq!(r, Ok(()));
}

#[test]
fn failed_allocation_leaves_texture_and_flag() {
    let mut light = light();
    let rendered = RefCell::new(0);
    let r = light.generate_shadow_map(
        camera(),
        &transform(),
        512,
        512,
        &[None],
        |_, _| Err(Error::Allocation),
        |_, _, _| {
            *rendered.borrow_mut() += 1;
            Ok(())
        },
    );
    assert_eq!(r, Err(Error::Allocation));
    assert_eq!(*rendered.borrow(), 0);
    assert_eq!(*light.shadow_map(), placeholder());
    assert_eq!(light.buffer().get(3).unwrap(), &[FLAG_OFF][..]);
    assert_eq!(light.shadow_camera(), Some(camera()));
    let expected: Vec<u32> = (1..=16).collect();
    assert_eq!(light.buffer().get(4).unwrap(), expected.as_slice());
}

#[test]
fn failed_geometry_leaves_the_flag() {
    let mut light = light();
    let r = light.generate_shadow_map(
        camera(),
        &transform(),
        512,
        128,
        &[None],
        |_, _| Ok(()),
        |_, _, _| Err(Error::Render),
    );
    assert_eq!(r, Err(Error::Render));
    assert_eq!(light.shadow_map().width(), 512);
    assert_eq!(light.shadow_map().height(), 128);
    assert_eq!(light.buffer().get(3).unwrap(), &[FLAG_OFF][..]);
    light.clear_shadow_map();
    assert_eq!(light.shadow_camera(), None);
    assert_eq!(*light.shadow_map(), placeholder());
}

#[test]
fn failure_after_success_keeps_the_flag_on() {
    let mut light = light();
    light
        .generate_shadow_map(camera(), &transform(), 8, 8, &[], |_, _| Ok(()), |_, _, _| Ok(()))
        .unwrap();
    let r = light.generate_shadow_map(
        camera(),
        &transform(),
        16,
        16,
        &[Some(true)],
        |_, _| Ok(()),
        |_, _, _| Err(Error::Render),
    );
    assert_eq!(r, Err(Error::Render));
    assert_eq!(light.buffer().get(3).unwrap(), &[FLAG_ON][..]);
}

#[test]
fn complete_shadow_map_by_outcome() {
    let mut light = light();
    let r = light.complete_shadow_map(camera(), &transform(), 32, 16, Ok(()), Ok(()));
    assert_eq!(r, Ok(()));
    assert_eq!(light.buffer().get(3).unwrap(), &[FLAG_ON][..]);
    assert_eq!(light.shadow_map().width(), 32);
    let mut light = self::light();
    let r = light.complete_shadow_map(camera(), &transform(), 32, 16, Err(Error::Allocation), Ok(()));
    assert_eq!(r, Err(Error::Allocation));
    assert_eq!(light.shadow_map().width(), 1);
    let mut light = self::light();
    let r = light.complete_shadow_map(camera(), &transform(), 32, 16, Ok(()), Err(Error::Render));
    assert_eq!(r, Err(Error::Render));
    assert_eq!(light.shadow_map().width(), 32);
    assert_eq!(light.buffer().get(3).unwrap(), &[FLAG_OFF][..]);
}
