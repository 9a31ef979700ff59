use cgmath::Matrix4;
use std::cell::RefCell;
use three_d::axes::Axes;
use three_d::error::Error;
use three_d::imposter::{Imposter, ImposterDraw, NO_VIEW_ANGLES};
use three_d::math::vec4;
use three_d::mesh::{identity, CPUMesh, Mesh, ONE, ZERO};
use three_d::state::{
    BlendParameters, CullType, DepthTestType, RenderStates, Viewport, WriteMask,
};
use three_d::texture::{Format, Texture2DArray};

fn arrow() -> CPUMesh {
    CPUMesh {
        positions: vec![0; 18],
        indices: Some(vec![0, 1, 2, 3, 4, 5, 0, 2, 4]),
        normals: None,
        uvs: None,
        colors: None,
    }
}

fn onto_y() -> Matrix4<u32> {
    Matrix4::new(0, ONE, 0, 0, ONE, 0, 0, 0, 0, 0, ONE, 0, 0, 0, 0, ONE)
}

fn onto_z() -> Matrix4<u32> {
    Matrix4::new(0, 0, ONE, 0, 0, ONE, 0, 0, ONE, 0, 0, 0, 0, 0, 0, ONE)
}

#[test]
fn axes_are_drawn_red_green_blue() {
    let axes = Axes::new(&arrow(), onto_y(), onto_z());
    let drawn = RefCell::new(Vec::new());
    let viewport = Viewport::new_at_origo(100, 50);
    let r = axes.render(viewport, |mesh, color, states, viewport| {
        drawn.borrow_mut().push((mesh, color, states, viewport));
        Ok(())
    });
    assert_eq!(r, Ok(()));
    let mesh = Mesh::new(&arrow());
    assert_eq!(mesh.info.vertex_count, 9);
    assert_eq!(mesh.transformation, identity());
    let states = RenderStates::default();
    assert_eq!(
        *drawn.borrow(),
        vec![
            (mesh, vec4(ONE, ZERO, ZERO, ONE), states, viewport),
            (Mesh { transformation: onto_y(), ..mesh }, vec4(ZERO, ONE, ZERO, ONE), states, viewport),
            (Mesh { transformation: onto_z(), ..mesh }, vec4(ZERO, ZERO, ONE, ONE), states, viewport),
        ]
    );
    assert_eq!(vec4(ONE, ZERO, ZERO, ONE).map(f32::from_bits), vec4(1.0, 0.0, 0.0, 1.0));
}

#[test]
fn axes_stop_at_the_first_failure() {
    let axes = Axes::new(&arrow(), onto_y(), onto_z());
    let drawn = RefCell::new(0);
    let r = axes.render(Viewport::new_at_origo(1, 1), |_, _, _, _| {
        *drawn.borrow_mut() += 1;
        if *drawn.borrow() == 2 {
            Err(Error::Render)
        } else {
            Ok(())
        }
    });
    assert_eq!(r, Err(Error::Render));
    assert_eq!(*drawn.borrow(), 2);
    let r = axes.render(Viewport::new_at_origo(1, 1), |_, _, _, _| Err(Error::Compilation));
    assert_eq!(r, Err(Error::Compilation));
}

#[test]
fn nine_positions_are_three_instances() {
    let mut imposter = Imposter::new();
    assert_eq!(imposter.instance_count(), 0);
    let positions: Vec<u32> = [1.0f32, 2.0, 3.0, 4.0, 5.0, 6.0, 7.0, 8.0, 9.0]
        .iter()
        .map(|v| v.to_bits())
        .collect();
    let angles: Vec<u32> = [0.0f32, 1.5, 3.0].iter().map(|v| v.to_bits()).collect();
    assert_eq!(imposter.update_positions(&positions, &angles), Ok(()));
    assert_eq!(imposter.instance_count(), 3);
    assert_eq!(imposter.centers(), positions.as_slice());
    assert_eq!(imposter.rotations(), angles.as_slice());
    assert_eq!(imposter.render().instance_count, 3);
}

#[test]
fn positions_not_in_runs_of_three_are_refused() {
    let mut imposter = Imposter::new();
    assert_eq!(imposter.update_positions(&[1, 2, 3], &[9]), Ok(()));
    for n in [1usize, 2, 4, 5, 7, 8, 10] {
        let positions = vec![7u32; n];
        assert_eq!(imposter.update_positions(&positions, &[]), Err(Error::MalformedLength));
        assert_eq!(imposter.instance_count(), 1);
        assert_eq!(imposter.centers(), &[1, 2, 3][..]);
        assert_eq!(imposter.rotations(), &[9][..]);
    }
    assert_eq!(imposter.update_positions(&[], &[]), Ok(()));
    assert_eq!(imposter.instance_count(), 0);
}

#[test]
fn new_imposter_has_the_quad_uvs_and_a_placeholder() {
    let imposter = Imposter::new();
    let uvs: Vec<f32> = imposter.uvs().iter().map(|w| f32::from_bits(*w)).collect();
    assert_eq!(uvs, vec![0.0, 0.0, 1.0, 0.0, 1.0, 1.0, 1.0, 1.0, 0.0, 1.0, 0.0, 0.0]);
    assert_eq!(imposter.positions().len(), 0);
    assert_eq!(
        imposter.texture(),
        Texture2DArray { width: 1, height: 1, depth: 8, format: Format::RGBA }
    );
    assert_eq!(NO_VIEW_ANGLES, 8);
}

#[test]
fn imposter_draw_is_one_quad_an_instance() {
    let mut imposter = Imposter::new();
    imposter.update_positions(&[0; 6], &[0; 2]).unwrap();
    assert_eq!(
        imposter.render(),
        ImposterDraw {
            render_states: RenderStates {
                cull: CullType::Back,
                depth_test: DepthTestType::LessOrEqual,
                blend: Some(BlendParameters::transparency()),
                write_mask: WriteMask::color_and_depth(),
            },
            no_views: 8,
            vertex_count: 6,
            instance_count: 2,
            instance_divisor: 1,
        }
    );
}

#[test]
fn update_texture_renders_the_eight_views_in_order() {
    let mut imposter = Imposter::new();
    let views = RefCell::new(Vec::new());
    let r = imposter.update_texture(
        |view| {
            views.borrow_mut().push(view);
            Ok(())
        },
        1,
        2,
        3,
        4,
        256,
        128,
    );
    assert_eq!(r, Ok(()));
    assert_eq!(*views.borrow(), vec![0, 1, 2, 3, 4, 5, 6, 7]);
    assert_eq!(
        imposter.texture(),
        Texture2DArray { width: 256, height: 128, depth: 8, format: Format::RGBA }
    );
    assert_eq!(
        imposter.positions(),
        &[1, 3, 0, 2, 3, 0, 2, 4, 0, 2, 4, 0, 1, 4, 0, 1, 3, 0][..]
    );
}

#[test]
fn update_texture_stops_at_the_first_failure() {
    let mut imposter = Imposter::new();
    imposter.update_texture(|_| Ok(()), 1, 2, 3, 4, 16, 16).unwrap();
    let views = RefCell::new(Vec::new());
    let r = imposter.update_texture(
        |view| {
            views.borrow_mut().push(view);
            if view == 3 {
                Err(Error::Render)
            } else {
                Ok(())
            }
        },
        5,
        6,
        7,
        8,
        32,
        64,
    );
    assert_eq!(r, Err(Error::Render));
    assert_eq!(*views.borrow(), vec![0, 1, 2, 3]);
    assert_eq!(imposter.texture().width, 32);
    assert_eq!(imposter.texture().height, 64);
    assert_eq!(
        imposter.positions(),
        &[1, 3, 0, 2, 3, 0, 2, 4, 0, 2, 4, 0, 1, 4, 0, 1, 3, 0][..]
    );
}
