use geomesh::geometry::{BoundingBox, Triangle, Vector3};
use geomesh::scalar::Scalar;

#[derive(Debug, Clone, Copy, PartialEq)]
struct Real(f64);

impl Scalar for Real {
    fn zero() -> Self {
        Real(0.0)
    }
    fn one() -> Self {
        Real(1.0)
    }
    fn half() -> Self {
        Real(0.5)
    }
    fn add(self, rhs: Self) -> Self {
        Real(self.0 + rhs.0)
    }
    fn sub(self, rhs: Self) -> Self {
        Real(self.0 - rhs.0)
    }
    fn mul(self, rhs: Self) -> Self {
        Real(self.0 * rhs.0)
    }
    fn div(self, rhs: Self) -> Self {
        Real(self.0 / rhs.0)
    }
    fn neg(self) -> Self {
        Real(-self.0)
    }
    fn sqrt(self) -> Self {
        Real(self.0.sqrt())
    }
    fn min(self, other: Self) -> Self {
        Real(self.0.min(other.0))
    }
    fn max(self, other: Self) -> Self {
        Real(self.0.max(other.0))
    }
    fn parse(token: &str) -> Option<Self> {
        token.parse::<f64>().ok().map(Real)
    }
}

fn vec3(x: f64, y: f64, z: f64) -> Vector3<Real> {
    Vector3::new(Real(x), Real(y), Real(z))
}

fn parts(v: Vector3<Real>) -> (f64, f64, f64) {
    (v.x.0, v.y.0, v.z.0)
}

fn close(a: f64, b: f64) -> bool {
    (a - b).abs() <= 1e-12
}

#[test]
fn new_keeps_the_components_in_order() {
    let v = vec3(1.0, 2.0, 3.0);
    assert_eq!(parts(v), (1.0, 2.0, 3.0));
}

#[test]
fn zeros_and_ones() {
    assert_eq!(parts(Vector3::<Real>::zeros()), (0.0, 0.0, 0.0));
    assert_eq!(parts(Vector3::<Real>::ones()), (1.0, 1.0, 1.0));
}

#[test]
fn index_reads_x_y_z() {
    let v = vec3(1.0, 2.0, 3.0);
    assert_eq!(*v.index(0), Real(1.0));
    assert_eq!(*v.index(1), Real(2.0));
    assert_eq!(*v.index(2), Real(3.0));
}

#[test]
fn index_mut_writes_one_component() {
    let mut v = vec3(1.0, 2.0, 3.0);
    *v.index_mut(0) = Real(7.0);
    assert_eq!(parts(v), (7.0, 2.0, 3.0));
    *v.index_mut(1) = Real(8.0);
    assert_eq!(parts(v), (7.0, 8.0, 3.0));
    *v.index_mut(2) = Real(9.0);
    assert_eq!(parts(v), (7.0, 8.0, 9.0));
}

#[test]
fn arithmetic_with_a_vector() {
    let u = vec3(1.0, 2.0, 3.0);
    let v = vec3(4.0, -5.0, 6.0);
    assert_eq!(parts(u.add(v)), (5.0, -3.0, 9.0));
    assert_eq!(parts(u.sub(v)), (-3.0, 7.0, -3.0));
    assert_eq!(parts(u.mul(v)), (4.0, -10.0, 18.0));
    assert_eq!(parts(u.div(v)), (0.25, -0.4, 0.5));
    assert_eq!(parts(u.neg()), (-1.0, -2.0, -3.0));
}

#[test]
fn arithmetic_with_a_scalar() {
    let u = vec3(1.0, 2.0, 3.0);
    assert_eq!(parts(u.add_scalar(Real(2.0))), (3.0, 4.0, 5.0));
    assert_eq!(parts(u.sub_scalar(Real(2.0))), (-1.0, 0.0, 1.0));
    assert_eq!(parts(u.mul_scalar(Real(2.0))), (2.0, 4.0, 6.0));
    assert_eq!(parts(u.div_scalar(Real(2.0))), (0.5, 1.0, 1.5));
}

#[test]
fn arithmetic_in_place() {
    let mut u = vec3(1.0, 2.0, 3.0);
    u.add_assign(vec3(1.0, 1.0, 1.0));
    assert_eq!(parts(u), (2.0, 3.0, 4.0));
    u.sub_assign(vec3(2.0, 1.0, 0.0));
    assert_eq!(parts(u), (0.0, 2.0, 4.0));
    u.mul_assign(vec3(5.0, 3.0, 0.5));
    assert_eq!(parts(u), (0.0, 6.0, 2.0));
    u.div_assign(vec3(1.0, 4.0, 8.0));
    assert_eq!(parts(u), (0.0, 1.5, 0.25));
    u.add_assign_scalar(Real(1.0));
    assert_eq!(parts(u), (1.0, 2.5, 1.25));
    u.sub_assign_scalar(Real(0.5));
    assert_eq!(parts(u), (0.5, 2.0, 0.75));
    u.mul_assign_scalar(Real(4.0));
    assert_eq!(parts(u), (2.0, 8.0, 3.0));
    u.div_assign_scalar(Real(2.0));
    assert_eq!(parts(u), (1.0, 4.0, 1.5));
}

#[test]
fn dot_is_the_sum_of_the_products() {
    let u = vec3(1.0, 2.0, 3.0);
    let v = vec3(4.0, -5.0, 6.0);
    assert_eq!(Vector3::dot(&u, &v), Real(12.0));
}

#[test]
fn dot_is_symmetric() {
    let u = vec3(0.1, -2.5, 3.75);
    let v = vec3(4.2, 5.0, -6.125);
    assert_eq!(Vector3::dot(&u, &v), Vector3::dot(&v, &u));
}

#[test]
fn cross_follows_the_right_hand() {
    let x = vec3(1.0, 0.0, 0.0);
    let y = vec3(0.0, 1.0, 0.0);
    let z = vec3(0.0, 0.0, 1.0);
    assert_eq!(parts(Vector3::cross(&x, &y)), (0.0, 0.0, 1.0));
    assert_eq!(parts(Vector3::cross(&y, &z)), (1.0, 0.0, 0.0));
    assert_eq!(parts(Vector3::cross(&z, &x)), (0.0, 1.0, 0.0));
    let u = vec3(1.0, 2.0, 3.0);
    let v = vec3(4.0, 5.0, 6.0);
    assert_eq!(parts(Vector3::cross(&u, &v)), (-3.0, 6.0, -3.0));
}

#[test]
fn cross_is_antisymmetric() {
    let u = vec3(1.0, 2.0, 3.0);
    let v = vec3(-4.0, 5.5, 6.0);
    assert_eq!(parts(Vector3::cross(&u, &v)), parts(Vector3::cross(&v, &u).neg()));
}

#[test]
fn cross_is_orthogonal_to_both() {
    let u = vec3(1.5, -2.0, 3.25);
    let v = vec3(4.0, 5.5, -6.0);
    let c = Vector3::cross(&u, &v);
    assert!(close(Vector3::dot(&u, &c).0, 0.0));
    assert!(close(Vector3::dot(&v, &c).0, 0.0));
}

#[test]
fn mag_is_the_euclidean_norm() {
    assert_eq!(vec3(3.0, 4.0, 0.0).mag(), Real(5.0));
    assert_eq!(vec3(2.0, 3.0, 6.0).mag(), Real(7.0));
    assert_eq!(vec3(0.0, 0.0, 0.0).mag(), Real(0.0));
}

#[test]
fn unit_has_magnitude_one() {
    let u = vec3(3.0, 4.0, 0.0).unit();
    assert_eq!(parts(u), (0.6, 0.8, 0.0));
    assert!(close(vec3(1.5, -2.0, 3.25).unit().mag().0, 1.0));
    assert!(close(vec3(1e-3, 2e5, -7.0).unit().mag().0, 1.0));
}

#[test]
fn unit_of_the_zero_vector_is_not_a_number() {
    let u = vec3(0.0, 0.0, 0.0).unit();
    assert!(u.x.0.is_nan() && u.y.0.is_nan() && u.z.0.is_nan());
}

#[test]
fn bounding_box_accessors() {
    let b = BoundingBox::new(vec3(-1.0, 0.0, -1.0), vec3(1.0, 2.0, 3.0));
    assert_eq!(parts(b.min()), (-1.0, 0.0, -1.0));
    assert_eq!(parts(b.max()), (1.0, 2.0, 3.0));
}

#[test]
fn bounding_box_size_center_halfsize() {
    let b = BoundingBox::new(vec3(-1.0, 0.0, -1.0), vec3(1.0, 2.0, 3.0));
    assert_eq!(parts(b.size()), (2.0, 2.0, 4.0));
    assert_eq!(parts(b.center()), (0.0, 1.0, 1.0));
    assert_eq!(parts(b.halfsize()), (1.0, 1.0, 2.0));
}

#[test]
fn right_triangle_area_and_normal() {
    let t = Triangle::new(vec3(0.0, 0.0, 0.0), vec3(3.0, 0.0, 0.0), vec3(0.0, 4.0, 0.0));
    assert!(close(t.area().0, 6.0));
    let n = t.normal();
    assert!(close(n.x.0, 0.0) && close(n.y.0, 0.0) && close(n.z.0, 1.0));
}

#[test]
fn winding_turns_the_normal() {
    let t = Triangle::new(vec3(0.0, 0.0, 0.0), vec3(0.0, 4.0, 0.0), vec3(3.0, 0.0, 0.0));
    assert!(close(t.area().0, 6.0));
    let n = t.normal();
    assert!(close(n.x.0, 0.0) && close(n.y.0, 0.0) && close(n.z.0, -1.0));
}

#[test]
fn triangle_off_the_coordinate_planes() {
    let t = Triangle::new(vec3(1.0, 1.0, 1.0), vec3(1.0, 3.0, 1.0), vec3(1.0, 1.0, 4.0));
    assert!(close(t.area().0, 3.0));
    let n = t.normal();
    assert!(close(n.x.0, 1.0) && close(n.y.0, 0.0) && close(n.z.0, 0.0));
}

#[test]
fn degenerate_triangle_has_no_area() {
    let t = Triangle::new(vec3(0.0, 0.0, 0.0), vec3(1.0, 1.0, 1.0), vec3(2.0, 2.0, 2.0));
    assert_eq!(t.area(), Real(0.0));
    assert!(t.normal().x.0.is_nan());
}

#[test]
fn triangle_bbox() {
    let t = Triangle::new(vec3(0.0, 0.0, 0.0), vec3(1.0, 2.0, -1.0), vec3(-1.0, 0.0, 3.0));
    let b = t.bbox();
    assert_eq!(parts(b.min()), (-1.0, 0.0, -1.0));
    assert_eq!(parts(b.max()), (1.0, 2.0, 3.0));
}

#[test]
fn triangle_index_reads_and_writes_corners() {
    let mut t = Triangle::new(vec3(0.0, 0.0, 0.0), vec3(1.0, 2.0, -1.0), vec3(-1.0, 0.0, 3.0));
    assert_eq!(parts(*t.index(0)), (0.0, 0.0, 0.0));
    assert_eq!(parts(*t.index(1)), (1.0, 2.0, -1.0));
    assert_eq!(parts(*t.index(2)), (-1.0, 0.0, 3.0));
    *t.index_mut(1) = vec3(9.0, 9.0, 9.0);
    assert_eq!(parts(t.q), (9.0, 9.0, 9.0));
    assert_eq!(parts(t.p), (0.0, 0.0, 0.0));
    assert_eq!(parts(t.r), (-1.0, 0.0, 3.0));
}
