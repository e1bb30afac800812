use vstd::prelude::*;

verus! {

/// A plain 3-component vector over a numeric type `V`. It carries no
/// normalization invariant. Arithmetic is provided for the integer
/// instantiation, where every operation is verified exact and free of
/// overflow against the mathematical model below.
#[derive(Clone, Copy, PartialEq, Eq, Structural, Debug)]
pub struct Vec3<V> {
    pub x: V,
    pub y: V,
    pub z: V,
}

/// A vector guaranteed to have unit length. Values are produced only by a
/// validated constructor, and the type offers no arithmetic of its own: a
/// value must first be converted back to [`Vec3`], so a mislabeled
/// "normalized" vector cannot arise by accident.
#[derive(Clone, Copy, PartialEq, Eq, Structural, Debug)]
pub struct NormalizedVec3<V> {
    x: V,
    y: V,
    z: V,
}

// ---------------------------------------------------------------------------
// The mathematical model: exact vector algebra over unbounded integers.
// ---------------------------------------------------------------------------

/// Component-wise sum.
pub open spec fn v_add(a: Vec3<int>, b: Vec3<int>) -> Vec3<int> {
    Vec3 { x: a.x + b.x, y: a.y + b.y, z: a.z + b.z }
}

/// Component-wise difference.
pub open spec fn v_sub(a: Vec3<int>, b: Vec3<int>) -> Vec3<int> {
    Vec3 { x: a.x - b.x, y: a.y - b.y, z: a.z - b.z }
}

/// Component-wise negation.
pub open spec fn v_neg(a: Vec3<int>) -> Vec3<int> {
    Vec3 { x: -a.x, y: -a.y, z: -a.z }
}

/// The scalar broadcast across all three components.
pub open spec fn v_scale(a: Vec3<int>, k: int) -> Vec3<int> {
    Vec3 { x: a.x * k, y: a.y * k, z: a.z * k }
}

/// The inner (dot) product.
pub open spec fn v_dot(a: Vec3<int>, b: Vec3<int>) -> int {
    a.x * b.x + a.y * b.y + a.z * b.z
}

/// The right-handed outer (cross) product.
pub open spec fn v_cross(a: Vec3<int>, b: Vec3<int>) -> Vec3<int> {
    Vec3 {
        x: a.y * b.z - a.z * b.y,
        y: a.z * b.x - a.x * b.z,
        z: a.x * b.y - a.y * b.x,
    }
}

/// The squared Euclidean length.
pub open spec fn v_sqlen(a: Vec3<int>) -> int {
    v_dot(a, a)
}

/// Whether a vector has exact unit length.
pub open spec fn is_unit(v: Vec3<int>) -> bool {
    v_sqlen(v) == 1
}

/// Rust's truncating integer division, expressed over the Euclidean
/// division of the specification language.
pub open spec fn div_trunc(a: int, b: int) -> int {
    if a >= 0 {
        a / b
    } else {
        -((-a) / b)
    }
}

impl View for Vec3<i64> {
    type V = Vec3<int>;

    open spec fn view(&self) -> Vec3<int> {
        Vec3 { x: self.x as int, y: self.y as int, z: self.z as int }
    }
}

impl View for NormalizedVec3<i64> {
    type V = Vec3<int>;

    open spec fn view(&self) -> Vec3<int> {
        Vec3 { x: self.spec_x() as int, y: self.spec_y() as int, z: self.spec_z() as int }
    }
}

// ---------------------------------------------------------------------------
// Constructors and accessors, for any component type.
// ---------------------------------------------------------------------------

impl<V> Vec3<V> {
    pub fn new(x: V, y: V, z: V) -> (r: Self)
        ensures
            r == (Vec3 { x, y, z }),
    {
        Self { x, y, z }
    }

    pub fn x(&self) -> (r: &V)
        ensures
            *r == self.x,
    {
        &self.x
    }

    pub fn y(&self) -> (r: &V)
        ensures
            *r == self.y,
    {
        &self.y
    }

    pub fn z(&self) -> (r: &V)
        ensures
            *r == self.z,
    {
        &self.z
    }
}

impl<V> NormalizedVec3<V> {
    /// The first component, as the specification sees it.
    pub closed spec fn spec_x(self) -> V {
        self.x
    }

    /// The second component, as the specification sees it.
    pub closed spec fn spec_y(self) -> V {
        self.y
    }

    /// The third component, as the specification sees it.
    pub closed spec fn spec_z(self) -> V {
        self.z
    }

    /// The lossless conversion back to a plain vector.
    pub fn vec(self) -> (r: Vec3<V>)
        ensures
            r == (Vec3 { x: self.spec_x(), y: self.spec_y(), z: self.spec_z() }),
    {
        let NormalizedVec3 { x, y, z } = self;
        Vec3::new(x, y, z)
    }
}

impl<V> core::convert::From<NormalizedVec3<V>> for Vec3<V> {
    fn from(value: NormalizedVec3<V>) -> (r: Vec3<V>) {
        let NormalizedVec3 { x, y, z } = value;
        Vec3 { x, y, z }
    }
}

impl<V> vstd::std_specs::convert::FromSpecImpl<NormalizedVec3<V>> for Vec3<V> {
    open spec fn obeys_from_spec() -> bool {
        true
    }

    open spec fn from_spec(t: NormalizedVec3<V>) -> Vec3<V> {
        Vec3 { x: t.spec_x(), y: t.spec_y(), z: t.spec_z() }
    }
}

// ---------------------------------------------------------------------------
// Integer arithmetic. Each operation is exact: the result is the value of
// the corresponding model function, and the preconditions are precisely the
// conditions under which that value fits the component type.
// ---------------------------------------------------------------------------

impl core::ops::Add for Vec3<i64> {
    type Output = Vec3<i64>;

    fn add(self, rhs: Self) -> (r: Vec3<i64>) {
        Vec3 { x: self.x + rhs.x, y: self.y + rhs.y, z: self.z + rhs.z }
    }
}

impl vstd::std_specs::ops::AddSpecImpl for Vec3<i64> {
    open spec fn obeys_add_spec() -> bool {
        true
    }

    open spec fn add_req(self, rhs: Self) -> bool {
        &&& i64::MIN <= self.x + rhs.x <= i64::MAX
        &&& i64::MIN <= self.y + rhs.y <= i64::MAX
        &&& i64::MIN <= self.z + rhs.z <= i64::MAX
    }

    open spec fn add_spec(self, rhs: Self) -> Vec3<i64> {
        let v = v_add(self@, rhs@);
        Vec3 { x: v.x as i64, y: v.y as i64, z: v.z as i64 }
    }
}

impl core::ops::Sub for Vec3<i64> {
    type Output = Vec3<i64>;

    fn sub(self, rhs: Self) -> (r: Vec3<i64>) {
        Vec3 { x: self.x - rhs.x, y: self.y - rhs.y, z: self.z - rhs.z }
    }
}

impl vstd::std_specs::ops::SubSpecImpl for Vec3<i64> {
    open spec fn obeys_sub_spec() -> bool {
        true
    }

    open spec fn sub_req(self, rhs: Self) -> bool {
        &&& i64::MIN <= self.x - rhs.x <= i64::MAX
        &&& i64::MIN <= self.y - rhs.y <= i64::MAX
        &&& i64::MIN <= self.z - rhs.z <= i64::MAX
    }

    open spec fn sub_spec(self, rhs: Self) -> Vec3<i64> {
        let v = v_sub(self@, rhs@);
        Vec3 { x: v.x as i64, y: v.y as i64, z: v.z as i64 }
    }
}

impl core::ops::Neg for Vec3<i64> {
    type Output = Vec3<i64>;

    fn neg(self) -> (r: Vec3<i64>) {
        Vec3 { x: -self.x, y: -self.y, z: -self.z }
    }
}

impl vstd::std_specs::ops::NegSpecImpl for Vec3<i64> {
    open spec fn obeys_neg_spec() -> bool {
        true
    }

    open spec fn neg_req(self) -> bool {
        self.x != i64::MIN && self.y != i64::MIN && self.z != i64::MIN
    }

    open spec fn neg_spec(self) -> Vec3<i64> {
        let v = v_neg(self@);
        Vec3 { x: v.x as i64, y: v.y as i64, z: v.z as i64 }
    }
}

impl core::ops::Mul<i64> for Vec3<i64> {
    type Output = Vec3<i64>;

    fn mul(self, rhs: i64) -> (r: Vec3<i64>) {
        Vec3 { x: self.x * rhs, y: self.y * rhs, z: self.z * rhs }
    }
}

impl vstd::std_specs::ops::MulSpecImpl<i64> for Vec3<i64> {
    open spec fn obeys_mul_spec() -> bool {
        true
    }

    open spec fn mul_req(self, rhs: i64) -> bool {
        &&& i64::MIN <= self.x * rhs <= i64::MAX
        &&& i64::MIN <= self.y * rhs <= i64::MAX
        &&& i64::MIN <= self.z * rhs <= i64::MAX
    }

    open spec fn mul_spec(self, rhs: i64) -> Vec3<i64> {
        let v = v_scale(self@, rhs as int);
        Vec3 { x: v.x as i64, y: v.y as i64, z: v.z as i64 }
    }
}

impl core::ops::Div<i64> for Vec3<i64> {
    type Output = Vec3<i64>;

    fn div(self, rhs: i64) -> (r: Vec3<i64>) {
        Vec3 { x: self.x / rhs, y: self.y / rhs, z: self.z / rhs }
    }
}

impl vstd::std_specs::ops::DivSpecImpl<i64> for Vec3<i64> {
    open spec fn obeys_div_spec() -> bool {
        true
    }

    open spec fn div_req(self, rhs: i64) -> bool {
        &&& rhs != 0
        &&& !(self.x == i64::MIN && rhs == -1)
        &&& !(self.y == i64::MIN && rhs == -1)
        &&& !(self.z == i64::MIN && rhs == -1)
    }

    open spec fn div_spec(self, rhs: i64) -> Vec3<i64> {
        Vec3 {
            x: div_trunc(self.x as int, rhs as int) as i64,
            y: div_trunc(self.y as int, rhs as int) as i64,
            z: div_trunc(self.z as int, rhs as int) as i64,
        }
    }
}

impl Vec3<i64> {
    /// The dot product, exact. The preconditions are exactly the conditions
    /// under which the products and partial sums fit the component type.
    pub fn inner_product(self, rhs: Vec3<i64>) -> (r: i64)
        requires
            i64::MIN <= self.x * rhs.x <= i64::MAX,
            i64::MIN <= self.y * rhs.y <= i64::MAX,
            i64::MIN <= self.z * rhs.z <= i64::MAX,
            i64::MIN <= self.x * rhs.x + self.y * rhs.y <= i64::MAX,
            i64::MIN <= v_dot(self@, rhs@) <= i64::MAX,
        ensures
            r == v_dot(self@, rhs@),
    {
        self.x * rhs.x + self.y * rhs.y + self.z * rhs.z
    }

    /// The right-handed cross product, exact.
    pub fn outer_product(self, rhs: Vec3<i64>) -> (r: Vec3<i64>)
        requires
            i64::MIN <= self.y * rhs.z <= i64::MAX,
            i64::MIN <= self.z * rhs.y <= i64::MAX,
            i64::MIN <= self.z * rhs.x <= i64::MAX,
            i64::MIN <= self.x * rhs.z <= i64::MAX,
            i64::MIN <= self.x * rhs.y <= i64::MAX,
            i64::MIN <= self.y * rhs.x <= i64::MAX,
            i64::MIN <= v_cross(self@, rhs@).x <= i64::MAX,
            i64::MIN <= v_cross(self@, rhs@).y <= i64::MAX,
            i64::MIN <= v_cross(self@, rhs@).z <= i64::MAX,
        ensures
            r@ == v_cross(self@, rhs@),
    {
        Vec3::new(
            self.y * rhs.z - self.z * rhs.y,
            self.z * rhs.x - self.x * rhs.z,
            self.x * rhs.y - self.y * rhs.x,
        )
    }

    /// The squared length: the dot product of the vector with itself.
    pub fn squared_len(self) -> (r: i64)
        requires
            v_sqlen(self@) <= i64::MAX,
        ensures
            r == v_sqlen(self@),
            r >= 0,
    {
        proof {
            assert(self.x * self.x >= 0 && self.y * self.y >= 0 && self.z * self.z >= 0)
                by (nonlinear_arith);
        }
        self.inner_product(self)
    }
}

// ---------------------------------------------------------------------------
// The validated constructor of unit vectors.
// ---------------------------------------------------------------------------

impl NormalizedVec3<i64> {
    /// Builds a unit vector after validating its length: the result is
    /// `Some` exactly when the components have unit squared length.
    pub fn new(x: i64, y: i64, z: i64) -> (r: Option<Self>)
        ensures
            match r {
                Some(n) => {
                    &&& n@ == (Vec3 { x: x as int, y: y as int, z: z as int })
                    &&& is_unit(n@)
                },
                None => x * x + y * y + z * z != 1,
            },
    {
        if x < -1 || x > 1 || y < -1 || y > 1 || z < -1 || z > 1 {
            proof {
                assert((x < -1 || x > 1 ==> x * x >= 4) && x * x >= 0) by (nonlinear_arith);
                assert((y < -1 || y > 1 ==> y * y >= 4) && y * y >= 0) by (nonlinear_arith);
                assert((z < -1 || z > 1 ==> z * z >= 4) && z * z >= 0) by (nonlinear_arith);
            }
            None
        } else {
            proof {
                assert(0 <= x * x <= 1 && 0 <= y * y <= 1 && 0 <= z * z <= 1) by (nonlinear_arith)
                    requires
                        -1 <= x <= 1,
                        -1 <= y <= 1,
                        -1 <= z <= 1,
                ;
            }
            let s = x * x + y * y + z * z;
            if s == 1 {
                Some(NormalizedVec3 { x, y, z })
            } else {
                None
            }
        }
    }
}

// ---------------------------------------------------------------------------
// Laws of the algebra, stated and proved over the exact model.
// ---------------------------------------------------------------------------

/// Vector addition is commutative.
pub proof fn lemma_add_commutative(a: Vec3<int>, b: Vec3<int>)
    ensures
        v_add(a, b) == v_add(b, a),
{
}

/// Vector addition is associative.
pub proof fn lemma_add_associative(a: Vec3<int>, b: Vec3<int>, c: Vec3<int>)
    ensures
        v_add(v_add(a, b), c) == v_add(a, v_add(b, c)),
{
}

/// The cross product is orthogonal to both of its arguments.
pub proof fn lemma_cross_orthogonal(a: Vec3<int>, b: Vec3<int>)
    ensures
        v_dot(a, v_cross(a, b)) == 0,
        v_dot(b, v_cross(a, b)) == 0,
{
    assert(a.x * (a.y * b.z - a.z * b.y) + a.y * (a.z * b.x - a.x * b.z) + a.z * (a.x * b.y
        - a.y * b.x) == 0) by (nonlinear_arith);
    assert(b.x * (a.y * b.z - a.z * b.y) + b.y * (a.z * b.x - a.x * b.z) + b.z * (a.x * b.y
        - a.y * b.x) == 0) by (nonlinear_arith);
}

/// The cross product is anti-commutative.
pub proof fn lemma_cross_anticommutative(a: Vec3<int>, b: Vec3<int>)
    ensures
        v_cross(a, b) == v_neg(v_cross(b, a)),
{
}

} // verus!
