use vstd::prelude::*;

verus! {

/// Largest magnitude of a component of a well-formed vector (2^61).
pub const LIMIT: i64 = 2305843009213693952;

/// A three-component vector of fixed-point integers.
#[derive(Clone, Copy, Debug, PartialEq, Eq, Structural)]
pub struct Array3d {
    pub x: i64,
    pub y: i64,
    pub z: i64,
}

pub open spec fn in_range(c: int) -> bool {
    -LIMIT <= c <= LIMIT
}

impl View for Array3d {
    type V = (int, int, int);

    open spec fn view(&self) -> (int, int, int) {
        (self.x as int, self.y as int, self.z as int)
    }
}

pub open spec fn vadd(a: (int, int, int), b: (int, int, int)) -> (int, int, int) {
    (a.0 + b.0, a.1 + b.1, a.2 + b.2)
}

pub open spec fn vsub(a: (int, int, int), b: (int, int, int)) -> (int, int, int) {
    (a.0 - b.0, a.1 - b.1, a.2 - b.2)
}

pub open spec fn vscale(a: (int, int, int), k: int) -> (int, int, int) {
    (a.0 * k, a.1 * k, a.2 * k)
}

pub open spec fn vdot(a: (int, int, int), b: (int, int, int)) -> int {
    a.0 * b.0 + a.1 * b.1 + a.2 * b.2
}

pub open spec fn vin_range(a: (int, int, int)) -> bool {
    in_range(a.0) && in_range(a.1) && in_range(a.2)
}

/// Sum of a sequence of vectors, first to last.
pub open spec fn vsum(s: Seq<(int, int, int)>) -> (int, int, int)
    decreases s.len(),
{
    if s.len() == 0 {
        (0, 0, 0)
    } else {
        vadd(vsum(s.drop_last()), s.last())
    }
}

proof fn lemma_vsum_remove(s: Seq<(int, int, int)>, i: int)
    requires
        0 <= i < s.len(),
    ensures
        vsum(s) == vadd(vsum(s.remove(i)), s[i]),
    decreases s.len(),
{
    if i == s.len() - 1 {
        assert(s.remove(i) =~= s.drop_last());
    } else {
        let t = s.drop_last();
        lemma_vsum_remove(t, i);
        assert(t.remove(i) =~= s.remove(i).drop_last());
        assert(s.remove(i).last() == s.last());
    }
}

/// Summing vectors gives the same result in every order: two sequences that
/// hold the same vectors, each as often, have the same sum.
pub proof fn lemma_vsum_order_independent(s1: Seq<(int, int, int)>, s2: Seq<(int, int, int)>)
    requires
        s1.to_multiset() == s2.to_multiset(),
    ensures
        vsum(s1) == vsum(s2),
    decreases s1.len(),
{
    broadcast use vstd::seq_lib::group_to_multiset_ensures;

    if s1.len() == 0 {
        assert(s1.to_multiset().len() == 0);
        assert(s2.to_multiset().len() == s2.len());
        assert(s1 =~= s2);
    } else {
        let x = s1.last();
        let t1 = s1.drop_last();
        assert(s1 =~= t1.push(x));
        assert(s1.to_multiset().count(x) > 0);
        assert(s2.contains(x));
        let i = choose|i: int| 0 <= i < s2.len() && s2[i] == x;
        let t2 = s2.remove(i);
        assert(t1.to_multiset() =~= t2.to_multiset());
        lemma_vsum_order_independent(t1, t2);
        lemma_vsum_remove(s2, i);
    }
}

impl Array3d {
    /// Every component lies within `[-LIMIT, LIMIT]`.
    pub open spec fn wf(&self) -> bool {
        vin_range(self@)
    }

    pub fn zero() -> (r: Array3d)
        ensures
            r@ == (0int, 0int, 0int),
    {
        Array3d { x: 0, y: 0, z: 0 }
    }

    pub fn new(x: i64, y: i64, z: i64) -> (r: Array3d)
        ensures
            r@ == (x as int, y as int, z as int),
    {
        Array3d { x, y, z }
    }

    /// Whether every component lies within `[-LIMIT, LIMIT]`.
    pub fn is_wf(&self) -> (r: bool)
        ensures
            r == self.wf(),
    {
        -LIMIT <= self.x && self.x <= LIMIT && -LIMIT <= self.y && self.y <= LIMIT && -LIMIT
            <= self.z && self.z <= LIMIT
    }

    /// Componentwise sum.
    pub fn add(&self, o: &Array3d) -> (r: Array3d)
        requires
            self.wf(),
            o.wf(),
        ensures
            r@ == vadd(self@, o@),
    {
        Array3d { x: self.x + o.x, y: self.y + o.y, z: self.z + o.z }
    }

    /// Componentwise difference.
    pub fn sub(&self, o: &Array3d) -> (r: Array3d)
        requires
            self.wf(),
            o.wf(),
        ensures
            r@ == vsub(self@, o@),
    {
        Array3d { x: self.x - o.x, y: self.y - o.y, z: self.z - o.z }
    }

    /// Product with a scalar; `None` where a component leaves `[-LIMIT, LIMIT]`.
    pub fn mul_scalar(&self, k: i64) -> (r: Option<Array3d>)
        requires
            self.wf(),
        ensures
            vin_range(vscale(self@, k as int)) <==> r.is_some(),
            r.is_some() ==> r.unwrap()@ == vscale(self@, k as int),
    {
        let x = scale_component(self.x, k);
        let y = scale_component(self.y, k);
        let z = scale_component(self.z, k);
        match (x, y, z) {
            (Some(x), Some(y), Some(z)) => Some(Array3d { x, y, z }),
            _ => None,
        }
    }

    /// Dot product.
    pub fn dot(&self, o: &Array3d) -> (r: i128)
        requires
            self.wf(),
            o.wf(),
        ensures
            r as int == vdot(self@, o@),
    {
        let (a, b, c) = (self.x as i128, self.y as i128, self.z as i128);
        let (p, q, s) = (o.x as i128, o.y as i128, o.z as i128);
        proof {
            lemma_mul_in_range(a as int, p as int);
            lemma_mul_in_range(b as int, q as int);
            lemma_mul_in_range(c as int, s as int);
        }
        a * p + b * q + c * s
    }
}

proof fn lemma_mul_in_range(a: int, b: int)
    requires
        in_range(a),
        in_range(b),
    ensures
        -LIMIT * LIMIT <= a * b <= LIMIT * LIMIT,
{
    assert(-LIMIT * LIMIT <= a * b <= LIMIT * LIMIT) by (nonlinear_arith)
        requires
            in_range(a),
            in_range(b),
    ;
}

/// `c * k` where it lies within `[-LIMIT, LIMIT]`.
fn scale_component(c: i64, k: i64) -> (r: Option<i64>)
    requires
        in_range(c as int),
    ensures
        in_range(c * k) <==> r.is_some(),
        r.is_some() ==> r.unwrap() == c * k,
{
    proof {
        assert(-LIMIT * 0x8000_0000_0000_0000 <= c * k <= LIMIT * 0x8000_0000_0000_0000)
            by (nonlinear_arith)
            requires
                in_range(c as int),
                -0x8000_0000_0000_0000 <= k < 0x8000_0000_0000_0000,
        ;
    }
    let p = (c as i128) * (k as i128);
    if -(LIMIT as i128) <= p && p <= LIMIT as i128 {
        Some(p as i64)
    } else {
        None
    }
}

} // verus!
