use cgmath::{Deg, Matrix2, Matrix3, Matrix4, Rad, Vector2, Vector3, Vector4};
use three_d::math::{
    degrees, radians, vec2, vec3, vec4, vector3_slice_flatten, vector3_vec_flatten,
    vector3_vec_fold, Mat2Ext, Mat3Ext, Mat4Ext, Vec2Ext, Vec3Ext, Vec4Ext,
};

#[test]
fn test_vector3_vec_flatten() {
    assert_eq!(
        vec![1.0, 1.1, 1.2, 2.0, 2.1, 2.2],
        vector3_vec_flatten(vec![vec3(1.0, 1.1, 1.2), vec3(2.0, 2.1, 2.2)])
    );
}

#[test]
fn test_vector3_slice_flatten() {
    assert_eq!(
        &[1.0, 1.1, 1.2, 2.0, 2.1, 2.2][..],
        vector3_slice_flatten(&[vec3(1.0, 1.1, 1.2), vec3(2.0, 2.1, 2.2)]).as_slice()
    );
}

#[test]
fn test_vector3_vec_fold() {
    assert_eq!(
        vec![vec3(1.0, 1.1, 1.2), vec3(2.0, 2.1, 2.2)],
        vector3_vec_fold(vec![1.0, 1.1, 1.2, 2.0, 2.1, 2.2])
    );
}

#[test]
fn constructors_place_their_arguments() {
    assert_eq!(vec2(1u32, 2), Vector2 { x: 1, y: 2 });
    assert_eq!(vec3(1u32, 2, 3), Vector3 { x: 1, y: 2, z: 3 });
    assert_eq!(vec4(1u32, 2, 3, 4), Vector4 { x: 1, y: 2, z: 3, w: 4 });
    assert_ne!(vec3(1u32, 2, 3), vec3(3u32, 2, 1));
    assert_ne!(vec2(1u32, 2), vec2(2u32, 1));
    assert_ne!(vec4(1u32, 2, 3, 4), vec4(4u32, 3, 2, 1));
}

#[test]
fn angles_wrap_their_scalar() {
    assert!(degrees(90.0f32) == Deg(90.0f32));
    assert!(radians(1.5f32) == Rad(1.5f32));
    assert_eq!(degrees(7u32).0, 7);
    assert_eq!(radians(9u32).0, 9);
}

#[test]
fn flatten_of_nothing_is_nothing() {
    assert_eq!(vector3_vec_flatten(Vec::<Vector3<u32>>::new()), Vec::<u32>::new());
    assert_eq!(vector3_slice_flatten(&Vec::<Vector3<u32>>::new()), Vec::<u32>::new());
    assert_eq!(vector3_vec_fold(Vec::<u32>::new()), Vec::<Vector3<u32>>::new());
}

#[test]
fn fold_leaves_an_incomplete_run_out() {
    assert_eq!(vector3_vec_fold(vec![1u32, 2, 3, 4]), vec![vec3(1, 2, 3)]);
    assert_eq!(vector3_vec_fold(vec![1u32, 2, 3, 4, 5]), vec![vec3(1, 2, 3)]);
    assert_eq!(vector3_vec_fold(vec![1u32, 2]), Vec::<Vector3<u32>>::new());
}

#[test]
fn fold_and_flatten_undo_each_other() {
    let vectors = vec![vec3(1u32, 2, 3), vec3(4, 5, 6), vec3(7, 8, 9)];
    assert_eq!(vector3_vec_fold(vector3_vec_flatten(vectors.clone())), vectors);
    let scalars = vec![9u32, 8, 7, 6, 5, 4];
    assert_eq!(vector3_vec_flatten(vector3_vec_fold(scalars.clone())), scalars);
}

#[test]
fn vectors_as_arrays() {
    assert_eq!(vec2(1u32, 2).to_slice(), [1, 2]);
    assert_eq!(vec3(1u32, 2, 3).to_slice(), [1, 2, 3]);
    assert_eq!(vec4(1u32, 2, 3, 4).to_slice(), [1, 2, 3, 4]);
    assert_eq!(vec3(0.5f32, 1.5, 2.5).to_slice(), [0.5, 1.5, 2.5]);
}

#[test]
fn matrices_as_arrays_are_column_major() {
    let m2 = Matrix2::new(1u32, 2, 3, 4);
    assert_eq!(m2.to_slice(), [1, 2, 3, 4]);
    assert_eq!(m2.x, vec2(1, 2));
    let m3 = Matrix3::new(1u32, 2, 3, 4, 5, 6, 7, 8, 9);
    assert_eq!(m3.to_slice(), [1, 2, 3, 4, 5, 6, 7, 8, 9]);
    assert_eq!(m3.y, vec3(4, 5, 6));
    let m4 = Matrix4::new(1u32, 2, 3, 4, 5, 6, 7, 8, 9, 10, 11, 12, 13, 14, 15, 16);
    assert_eq!(m4.to_slice(), [1, 2, 3, 4, 5, 6, 7, 8, 9, 10, 11, 12, 13, 14, 15, 16]);
    assert_eq!(m4.w, vec4(13, 14, 15, 16));
}
