//! Vectors and matrices, and the moves between them and flat runs of
//! scalars. The types are cgmath's; nothing here computes on a scalar, so
//! every function is written for any scalar type.

use cgmath::{Deg, Matrix2, Matrix3, Matrix4, Rad, Vector2, Vector3, Vector4};
use vstd::prelude::*;

verus! {

/// `cgmath::Vector2`: two public fields, `x` and `y`.
#[verifier::external_type_specification]
#[verifier::reject_recursive_types(S)]
pub struct ExVector2<S>(Vector2<S>);

/// `cgmath::Vector3`: three public fields, `x`, `y` and `z`.
#[verifier::external_type_specification]
#[verifier::reject_recursive_types(S)]
pub struct ExVector3<S>(Vector3<S>);

/// `cgmath::Vector4`: four public fields, `x`, `y`, `z` and `w`.
#[verifier::external_type_specification]
#[verifier::reject_recursive_types(S)]
pub struct ExVector4<S>(Vector4<S>);

/// `cgmath::Matrix2`: its two columns, `x` and `y`.
#[verifier::external_type_specification]
#[verifier::reject_recursive_types(S)]
pub struct ExMatrix2<S>(Matrix2<S>);

/// `cgmath::Matrix3`: its three columns, `x`, `y` and `z`.
#[verifier::external_type_specification]
#[verifier::reject_recursive_types(S)]
pub struct ExMatrix3<S>(Matrix3<S>);

/// `cgmath::Matrix4`: its four columns, `x`, `y`, `z` and `w`.
#[verifier::external_type_specification]
#[verifier::reject_recursive_types(S)]
pub struct ExMatrix4<S>(Matrix4<S>);

/// `cgmath::Deg`: an angle in degrees, a wrapper of one public scalar.
#[verifier::external_type_specification]
#[verifier::reject_recursive_types(S)]
pub struct ExDeg<S>(Deg<S>);

/// `cgmath::Rad`: an angle in radians, a wrapper of one public scalar.
#[verifier::external_type_specification]
#[verifier::reject_recursive_types(S)]
pub struct ExRad<S>(Rad<S>);

/// `cgmath::Vector2::new` puts its arguments into the fields in order.
pub assume_specification<S>[ Vector2::<S>::new ](x: S, y: S) -> (v: Vector2<S>)
    ensures
        v.x == x,
        v.y == y,
;

/// `cgmath::Vector3::new` puts its arguments into the fields in order.
pub assume_specification<S>[ Vector3::<S>::new ](x: S, y: S, z: S) -> (v: Vector3<S>)
    ensures
        v.x == x,
        v.y == y,
        v.z == z,
;

/// `cgmath::Vector4::new` puts its arguments into the fields in order.
pub assume_specification<S>[ Vector4::<S>::new ](x: S, y: S, z: S, w: S) -> (v: Vector4<S>)
    ensures
        v.x == x,
        v.y == y,
        v.z == z,
        v.w == w,
;

/// The vector with the given components.
pub fn vec2<T>(x: T, y: T) -> (v: Vector2<T>)
    ensures
        v.x == x,
        v.y == y,
{
    Vector2::new(x, y)
}

/// The vector with the given components.
pub fn vec3<T>(x: T, y: T, z: T) -> (v: Vector3<T>)
    ensures
        v.x == x,
        v.y == y,
        v.z == z,
{
    Vector3::new(x, y, z)
}

/// The vector with the given components.
pub fn vec4<T>(x: T, y: T, z: T, w: T) -> (v: Vector4<T>)
    ensures
        v.x == x,
        v.y == y,
        v.z == z,
        v.w == w,
{
    Vector4::new(x, y, z, w)
}

/// The angle of `v` degrees.
pub fn degrees<T>(v: T) -> (a: Deg<T>)
    ensures
        a.0 == v,
{
    Deg(v)
}

/// The angle of `v` radians.
pub fn radians<T>(v: T) -> (a: Rad<T>)
    ensures
        a.0 == v,
{
    Rad(v)
}

/// Component `k` of a vector: `x`, `y`, `z` for 0, 1, 2.
pub open spec fn component<T>(v: Vector3<T>, k: int) -> T {
    if k == 0 {
        v.x
    } else if k == 1 {
        v.y
    } else {
        v.z
    }
}

/// The components of all the vectors, vector after vector.
pub open spec fn flattened<T>(vectors: Seq<Vector3<T>>) -> Seq<T> {
    Seq::new(3 * vectors.len(), |k: int| component(vectors[k / 3], k % 3))
}

/// The vectors made of each full run of three scalars; what is left over at
/// the end, one scalar or two, belongs to no vector.
pub open spec fn folded<T>(scalars: Seq<T>) -> Seq<Vector3<T>> {
    Seq::new(
        scalars.len() / 3,
        |i: int| Vector3 { x: scalars[3 * i], y: scalars[3 * i + 1], z: scalars[3 * i + 2] },
    )
}

/// Folding what was flattened gives the vectors back.
pub proof fn lemma_fold_flatten<T>(vectors: Seq<Vector3<T>>)
    ensures
        folded(flattened(vectors)) == vectors,
{
    assert(folded(flattened(vectors)) =~= vectors);
}

/// Flattening what was folded gives the scalars back, when they came in
/// full runs of three.
pub proof fn lemma_flatten_fold<T>(scalars: Seq<T>)
    requires
        scalars.len() % 3 == 0,
    ensures
        flattened(folded(scalars)) == scalars,
{
    assert(flattened(folded(scalars)) =~= scalars);
}

/// The components of the vectors of a slice, vector after vector.
pub fn vector3_slice_flatten<T: Copy>(slice: &[Vector3<T>]) -> (r: Vec<T>)
    ensures
        r@ == flattened(slice@),
{
    let mut r: Vec<T> = Vec::new();
    let mut i: usize = 0;
    while i < slice.len()
        invariant
            i <= slice@.len(),
            r@.len() == 3 * i,
            forall|k: int| 0 <= k < 3 * i ==> r@[k] == component(slice@[k / 3], k % 3),
        decreases slice@.len() - i,
    {
        let v = &slice[i];
        r.push(v.x);
        r.push(v.y);
        r.push(v.z);
        i += 1;
    }
    assert(r@ =~= flattened(slice@));
    r
}

/// The components of the vectors, vector after vector.
pub fn vector3_vec_flatten<T: Copy>(vec: Vec<Vector3<T>>) -> (r: Vec<T>)
    ensures
        r@ == flattened(vec@),
{
    vector3_slice_flatten(vec.as_slice())
}

/// The vectors made of each full run of three scalars.
pub fn vector3_vec_fold<T: Copy>(vec: Vec<T>) -> (r: Vec<Vector3<T>>)
    ensures
        r@ == folded(vec@),
{
    let len: usize = vec.len();
    let n: usize = len / 3;
    let mut r: Vec<Vector3<T>> = Vec::with_capacity(n);
    let mut i: usize = 0;
    while i < n
        invariant
            i <= n,
            n == vec@.len() / 3,
            len == vec@.len(),
            3 * n <= len,
            r@.len() == i,
            forall|j: int| 0 <= j < i ==> r@[j] == folded(vec@)[j],
        decreases n - i,
    {
        r.push(Vector3::new(vec[i * 3], vec[i * 3 + 1], vec[i * 3 + 2]));
        i += 1;
    }
    assert(r@ =~= folded(vec@));
    r
}

/// A two-component vector as an array.
pub trait Vec2Ext<T> {
    spec fn slice_view(&self) -> Seq<T>;

    fn to_slice(&self) -> (r: [T; 2])
        ensures
            r@ == self.slice_view(),
    ;
}

impl<T: Copy> Vec2Ext<T> for Vector2<T> {
    open spec fn slice_view(&self) -> Seq<T> {
        seq![self.x, self.y]
    }

    fn to_slice(&self) -> (r: [T; 2]) {
        let r = [self.x, self.y];
        assert(r@ =~= self.slice_view());
        r
    }
}

/// A three-component vector as an array.
pub trait Vec3Ext<T> {
    spec fn slice_view(&self) -> Seq<T>;

    fn to_slice(&self) -> (r: [T; 3])
        ensures
            r@ == self.slice_view(),
    ;
}

impl<T: Copy> Vec3Ext<T> for Vector3<T> {
    open spec fn slice_view(&self) -> Seq<T> {
        seq![self.x, self.y, self.z]
    }

    fn to_slice(&self) -> (r: [T; 3]) {
        let r = [self.x, self.y, self.z];
        assert(r@ =~= self.slice_view());
        r
    }
}

/// A four-component vector as an array.
pub trait Vec4Ext<T> {
    spec fn slice_view(&self) -> Seq<T>;

    fn to_slice(&self) -> (r: [T; 4])
        ensures
            r@ == self.slice_view(),
    ;
}

impl<T: Copy> Vec4Ext<T> for Vector4<T> {
    open spec fn slice_view(&self) -> Seq<T> {
        seq![self.x, self.y, self.z, self.w]
    }

    fn to_slice(&self) -> (r: [T; 4]) {
        let r = [self.x, self.y, self.z, self.w];
        assert(r@ =~= self.slice_view());
        r
    }
}

/// A 2 x 2 matrix as an array, column after column.
pub trait Mat2Ext<T> {
    spec fn slice_view(&self) -> Seq<T>;

    fn to_slice(&self) -> (r: [T; 4])
        ensures
            r@ == self.slice_view(),
    ;
}

impl<T: Copy> Mat2Ext<T> for Matrix2<T> {
    open spec fn slice_view(&self) -> Seq<T> {
        seq![self.x.x, self.x.y, self.y.x, self.y.y]
    }

    fn to_slice(&self) -> (r: [T; 4]) {
        let r = [self.x.x, self.x.y, self.y.x, self.y.y];
        assert(r@ =~= self.slice_view());
        r
    }
}

/// A 3 x 3 matrix as an array, column after column.
pub trait Mat3Ext<T> {
    spec fn slice_view(&self) -> Seq<T>;

    fn to_slice(&self) -> (r: [T; 9])
        ensures
            r@ == self.slice_view(),
    ;
}

impl<T: Copy> Mat3Ext<T> for Matrix3<T> {
    open spec fn slice_view(&self) -> Seq<T> {
        seq![
            self.x.x, self.x.y, self.x.z,
            self.y.x, self.y.y, self.y.z,
            self.z.x, self.z.y, self.z.z,
        ]
    }

    fn to_slice(&self) -> (r: [T; 9]) {
        let r = [
            self.x.x, self.x.y, self.x.z,
            self.y.x, self.y.y, self.y.z,
            self.z.x, self.z.y, self.z.z,
        ];
        assert(r@ =~= self.slice_view());
        r
    }
}

/// A 4 x 4 matrix as an array, column after column.
pub trait Mat4Ext<T> {
    spec fn slice_view(&self) -> Seq<T>;

    fn to_slice(&self) -> (r: [T; 16])
        ensures
            r@ == self.slice_view(),
    ;
}

impl<T: Copy> Mat4Ext<T> for Matrix4<T> {
    open spec fn slice_view(&self) -> Seq<T> {
        seq![
            self.x.x, self.x.y, self.x.z, self.x.w,
            self.y.x, self.y.y, self.y.z, self.y.w,
            self.z.x, self.z.y, self.z.z, self.z.w,
            self.w.x, self.w.y, self.w.z, self.w.w,
        ]
    }

    fn to_slice(&self) -> (r: [T; 16]) {
        let r = [
            self.x.x, self.x.y, self.x.z, self.x.w,
            self.y.x, self.y.y, self.y.z, self.y.w,
            self.z.x, self.z.y, self.z.z, self.z.w,
            self.w.x, self.w.y, self.w.z, self.w.w,
        ];
        assert(r@ =~= self.slice_view());
        r
    }
}

} // verus!
