use vstd::prelude::*;
use vstd::string::*;
use core::marker::PhantomData;
use crate::crystal_systems::Basis;
use crate::hall_symbols::general_positions::ops_of;
use crate::hall_symbols::matrix_symbol::matrices::{AffineOp, SeitzMatrix};
use crate::hall_symbols::translation_symbol::{IntVector, Vector3};
use crate::utils::{decimal_string, decimal_text};

verus! {

/// The operation `g` composed `k` times with itself, from the identity on.
pub open spec fn repeated_op(g: AffineOp, k: nat) -> AffineOp
    decreases k,
{
    if k == 0 {
        AffineOp::identity()
    } else {
        repeated_op(g, (k - 1) as nat).compose(g)
    }
}

/// The linear parts of the first `n` powers of `g` are of machine
/// integers.
pub open spec fn powers_exist(g: AffineOp, n: nat) -> bool {
    forall|k: nat| 1 <= k < n ==> (#[trigger] repeated_op(g, k)).rot.fits()
}

/// The products `second[i] * first[j]`, row by row: all those with
/// `second[0]` first.
pub open spec fn products_of(first: Seq<AffineOp>, second: Seq<AffineOp>) -> Seq<AffineOp> {
    Seq::new(
        second.len() * first.len(),
        |n: int| second[n / (first.len() as int)].compose(first[n % (first.len() as int)]),
    )
}

/// The linear parts of all products of an operation of `second` with one
/// of `first` are of machine integers.
pub open spec fn products_exist(first: Seq<AffineOp>, second: Seq<AffineOp>) -> bool {
    forall|i: int, j: int|
        0 <= i < second.len() && 0 <= j < first.len() ==> (#[trigger] second[i].rot.times(
            #[trigger] first[j].rot,
        )).fits()
}

/// One of the cyclic groups that crystallographic point groups are made
/// of: the group of the powers of one operation.
#[derive(Debug)]
pub struct CyclicGroup<T: Basis> {
    matrix: SeitzMatrix,
    order: u8,
    symbol: i8,
    direction: [i8; 3],
    basis: PhantomData<T>,
}

/// The content of a [`CyclicGroup`].
pub struct CyclicGroupView {
    /// The operation whose powers make the group.
    pub matrix: AffineOp,
    /// How many of its powers the group holds, the identity among them.
    pub order: nat,
    /// The sign of the operation: its fold, negative for a rotoinversion.
    pub symbol: int,
    /// The indices of the direction of its axis.
    pub direction: Seq<i8>,
}

impl<T: Basis> View for CyclicGroup<T> {
    type V = CyclicGroupView;

    closed spec fn view(&self) -> CyclicGroupView {
        CyclicGroupView {
            matrix: self.matrix@,
            order: self.order as nat,
            symbol: self.symbol as int,
            direction: self.direction@,
        }
    }
}

impl CyclicGroupView {
    /// The sign and the direction as text, such as `2_010`.
    pub open spec fn notation(self) -> Seq<char> {
        decimal_text(self.symbol) + seq!['_'] + decimal_text(self.direction[0] as int)
            + decimal_text(self.direction[1] as int) + decimal_text(self.direction[2] as int)
    }
}

impl<T: Basis> Clone for CyclicGroup<T> {
    fn clone(&self) -> (g: CyclicGroup<T>)
        ensures
            g@ == self@,
    {
        CyclicGroup {
            matrix: self.matrix,
            order: self.order,
            symbol: self.symbol,
            direction: self.direction,
            basis: PhantomData,
        }
    }
}

impl<T: Basis> CyclicGroup<T> {
    /// The group of the first `order` powers of `matrix`.
    pub fn new(matrix: SeitzMatrix, order: u8, symbol: i8, direction: [i8; 3]) -> (g: CyclicGroup<T>)
        ensures
            g@ == (CyclicGroupView {
                matrix: matrix@,
                order: order as nat,
                symbol: symbol as int,
                direction: direction@,
            }),
    {
        CyclicGroup { matrix, order, symbol, direction, basis: PhantomData }
    }

    /// The operation whose powers make the group.
    pub fn matrix(&self) -> (m: SeitzMatrix)
        ensures
            m@ == self@.matrix,
    {
        self.matrix
    }

    /// How many operations the group holds.
    pub fn order(&self) -> (n: u8)
        ensures
            n == self@.order,
    {
        self.order
    }

    /// The operations of the group: the identity, the operation, its
    /// square and so on.  `None` where a power has a linear part that no
    /// machine integers hold.
    pub fn iter(&self) -> (r: Option<Vec<SeitzMatrix>>)
        ensures
            r is Some <==> powers_exist(self@.matrix, self@.order),
            r is Some ==> r->0@.len() == self@.order && forall|k: int|
                0 <= k < self@.order ==> (#[trigger] r->0@[k])@ == repeated_op(
                    self@.matrix,
                    k as nat,
                ),
    {
        let mut out: Vec<SeitzMatrix> = Vec::new();
        let mut current = SeitzMatrix::identity();
        let mut k: u8 = 0;
        while k < self.order
            invariant
                0 <= k <= self.order,
                out@.len() == k,
                current@ == repeated_op(self@.matrix, k as nat),
                forall|i: int| 0 <= i < k ==> (#[trigger] out@[i])@ == repeated_op(
                    self@.matrix,
                    i as nat,
                ),
                forall|i: nat| 1 <= i <= k ==> (#[trigger] repeated_op(self@.matrix, i)).rot.fits(),
            decreases self.order - k,
        {
            out.push(current);
            k = k + 1;
            if k < self.order {
                assert(repeated_op(self@.matrix, k as nat) == current@.compose(self@.matrix));
                match current.checked_compose(&self.matrix) {
                    Some(next) => {
                        current = next;
                    },
                    None => {
                        assert(!repeated_op(self@.matrix, k as nat).rot.fits());
                        return None;
                    },
                }
            } else {
                return Some(out);
            }
        }
        Some(out)
    }

    /// The sign and the direction as text, such as `2_010`.
    pub fn notation(&self) -> (s: String)
        ensures
            s@ == self@.notation(),
    {
        let mut s = decimal_string(self.symbol as i128);
        proof {
            reveal_strlit("_");
        }
        s.append("_");
        s.append(decimal_string(self.direction[0] as i128).as_str());
        s.append(decimal_string(self.direction[1] as i128).as_str());
        s.append(decimal_string(self.direction[2] as i128).as_str());
        assert(s@ =~= self@.notation());
        s
    }

    /// The group of the operation followed by the translation `shift`, in
    /// twelfths of the cell edges.
    pub fn moved_by(self, shift: Vector3) -> (g: CyclicGroup<T>)
        ensures
            g@ == (CyclicGroupView { matrix: self@.matrix.shifted_by(shift@), ..self@ }),
    {
        let moved = SeitzMatrix::from_parts(
            self.matrix.rotation_part(),
            self.matrix.translation_part().plus_reduced(&shift),
        );
        CyclicGroup {
            matrix: moved,
            order: self.order,
            symbol: self.symbol,
            direction: self.direction,
            basis: PhantomData,
        }
    }

    /// With a glide by half of `a`.
    pub fn to_a(self) -> (g: CyclicGroup<T>)
        ensures
            g@ == (CyclicGroupView {
                matrix: self@.matrix.shifted_by(IntVector { x: 6, y: 0, z: 0 }),
                ..self@
            }),
    {
        self.moved_by(Vector3::new(6, 0, 0))
    }

    /// With a glide by half of `b`.
    pub fn to_b(self) -> (g: CyclicGroup<T>)
        ensures
            g@ == (CyclicGroupView {
                matrix: self@.matrix.shifted_by(IntVector { x: 0, y: 6, z: 0 }),
                ..self@
            }),
    {
        self.moved_by(Vector3::new(0, 6, 0))
    }

    /// With a glide by half of `c`.
    pub fn to_c(self) -> (g: CyclicGroup<T>)
        ensures
            g@ == (CyclicGroupView {
                matrix: self@.matrix.shifted_by(IntVector { x: 0, y: 0, z: 6 }),
                ..self@
            }),
    {
        self.moved_by(Vector3::new(0, 0, 6))
    }

    /// With a glide by half of the body diagonal.
    pub fn to_n(self) -> (g: CyclicGroup<T>)
        ensures
            g@ == (CyclicGroupView {
                matrix: self@.matrix.shifted_by(IntVector { x: 6, y: 6, z: 6 }),
                ..self@
            }),
    {
        self.moved_by(Vector3::new(6, 6, 6))
    }

    /// With a glide by a quarter of `a`.
    pub fn to_u(self) -> (g: CyclicGroup<T>)
        ensures
            g@ == (CyclicGroupView {
                matrix: self@.matrix.shifted_by(IntVector { x: 3, y: 0, z: 0 }),
                ..self@
            }),
    {
        self.moved_by(Vector3::new(3, 0, 0))
    }

    /// With a glide by a quarter of `b`.
    pub fn to_v(self) -> (g: CyclicGroup<T>)
        ensures
            g@ == (CyclicGroupView {
                matrix: self@.matrix.shifted_by(IntVector { x: 0, y: 3, z: 0 }),
                ..self@
            }),
    {
        self.moved_by(Vector3::new(0, 3, 0))
    }

    /// With a glide by a quarter of `c`.
    pub fn to_w(self) -> (g: CyclicGroup<T>)
        ensures
            g@ == (CyclicGroupView {
                matrix: self@.matrix.shifted_by(IntVector { x: 0, y: 0, z: 3 }),
                ..self@
            }),
    {
        self.moved_by(Vector3::new(0, 0, 3))
    }

    /// With a glide by a quarter of the body diagonal.
    pub fn to_d(self) -> (g: CyclicGroup<T>)
        ensures
            g@ == (CyclicGroupView {
                matrix: self@.matrix.shifted_by(IntVector { x: 3, y: 3, z: 3 }),
                ..self@
            }),
    {
        self.moved_by(Vector3::new(3, 3, 3))
    }
}

/// Makes the cyclic groups that need no axis: those of the identity, of
/// the inversion and of a translation.
pub struct GroupBuilder<T: Basis>(PhantomData<T>);

impl<T: Basis> GroupBuilder<T> {
    pub fn new() -> GroupBuilder<T> {
        GroupBuilder(PhantomData)
    }

    /// The group of the identity alone.
    pub fn e(&self) -> (g: CyclicGroup<T>)
        ensures
            g@ == (CyclicGroupView {
                matrix: AffineOp::identity(),
                order: 1,
                symbol: 1,
                direction: seq![0i8, 0i8, 0i8],
            }),
    {
        let direction = [0i8, 0i8, 0i8];
        assert(direction@ =~= seq![0i8, 0i8, 0i8]);
        CyclicGroup::new(SeitzMatrix::identity(), 1, 1, direction)
    }

    /// The group of the inversion and the identity.
    pub fn i(&self) -> (g: CyclicGroup<T>)
        ensures
            g@ == (CyclicGroupView {
                matrix: AffineOp::inversion(),
                order: 2,
                symbol: -1,
                direction: seq![0i8, 0i8, 0i8],
            }),
    {
        let direction = [0i8, 0i8, 0i8];
        assert(direction@ =~= seq![0i8, 0i8, 0i8]);
        CyclicGroup::new(SeitzMatrix::inversion(), 2, -1, direction)
    }

    /// The group of one translation, given in twelfths of the cell edges
    /// and reduced into `[0, 12)`.
    pub fn translate(&self, translate_vector: Vector3) -> (g: CyclicGroup<T>)
        ensures
            g@ == (CyclicGroupView {
                matrix: AffineOp::identity().shifted_by(translate_vector@),
                order: 1,
                symbol: 1,
                direction: seq![0i8, 0i8, 0i8],
            }),
    {
        self.e().moved_by(translate_vector)
    }
}

/// The products `second[i] * first[j]`, row by row.  `None` where a
/// product has a linear part that no machine integers hold, or where
/// there are more products than a list can hold.
pub fn all_products(first: &Vec<SeitzMatrix>, second: &Vec<SeitzMatrix>) -> (r: Option<
    Vec<SeitzMatrix>,
>)
    ensures
        r is Some ==> ops_of(r->0@) == products_of(ops_of(first@), ops_of(second@)),
        r is Some <==> products_exist(ops_of(first@), ops_of(second@)) && second@.len()
            * first@.len() <= usize::MAX,
{
    let ghost a = ops_of(first@);
    let ghost b = ops_of(second@);
    let n = first.len();
    let total = match second.len().checked_mul(n) {
        Some(t) => t,
        None => {
            return None;
        },
    };
    let mut out: Vec<SeitzMatrix> = Vec::new();
    let mut i: usize = 0;
    while i < second.len()
        invariant
            0 <= i <= second.len(),
            n == first.len(),
            a == ops_of(first@),
            b == ops_of(second@),
            second@.len() * first@.len() <= usize::MAX,
            out@.len() == i * n,
            forall|m: int| 0 <= m < out@.len() ==> (#[trigger] out@[m])@ == b[m / (n as int)].compose(
                a[m % (n as int)],
            ),
            forall|x: int, y: int|
                0 <= x < i && 0 <= y < n ==> (#[trigger] b[x].rot.times(#[trigger] a[y].rot)).fits(),
        decreases second.len() - i,
    {
        let mut j: usize = 0;
        while j < n
            invariant
                0 <= j <= n,
                0 <= i < second.len(),
                n == first.len(),
                a == ops_of(first@),
                b == ops_of(second@),
                out@.len() == i * n + j,
                forall|m: int|
                    0 <= m < out@.len() ==> (#[trigger] out@[m])@ == b[m / (n as int)].compose(
                        a[m % (n as int)],
                    ),
                forall|x: int, y: int|
                    0 <= x < i && 0 <= y < n ==> (#[trigger] b[x].rot.times(
                        #[trigger] a[y].rot,
                    )).fits(),
                forall|y: int|
                    0 <= y < j ==> (#[trigger] b[i as int].rot.times(#[trigger] a[y].rot)).fits(),
            decreases n - j,
        {
            assert(b[i as int] == second@[i as int]@ && a[j as int] == first@[j as int]@);
            match second[i].checked_compose(&first[j]) {
                Some(p) => {
                    proof {
                        let m = i * n + j;
                        assert(m / (n as int) == i && m % (n as int) == j) by (nonlinear_arith)
                            requires
                                m == i * n + j,
                                0 <= j < n,
                                0 <= i,
                        ;
                    }
                    out.push(p);
                },
                None => {
                    return None;
                },
            }
            j = j + 1;
        }
        assert((i + 1) * n == i * n + n) by (nonlinear_arith);
        i = i + 1;
    }
    assert(ops_of(out@) =~= products_of(a, b));
    Some(out)
}

/// The operations of a group that is a product of cyclic groups.
#[derive(Debug, Clone)]
pub struct Generators {
    matrices: Vec<SeitzMatrix>,
}

/// The operations of a group that is a product of cyclic groups.
#[derive(Debug, Clone)]
pub struct SymmetryGroup {
    elements: Vec<SeitzMatrix>,
}

impl View for Generators {
    type V = Seq<AffineOp>;

    closed spec fn view(&self) -> Seq<AffineOp> {
        ops_of(self.matrices@)
    }
}

impl View for SymmetryGroup {
    type V = Seq<AffineOp>;

    closed spec fn view(&self) -> Seq<AffineOp> {
        ops_of(self.elements@)
    }
}

impl Generators {
    pub fn new(matrices: Vec<SeitzMatrix>) -> (g: Generators)
        ensures
            g@ == ops_of(matrices@),
    {
        Generators { matrices }
    }

    pub fn matrices(&self) -> (r: &[SeitzMatrix])
        ensures
            ops_of(r@) == self@,
    {
        self.matrices.as_slice()
    }

    /// The products of every operation of `rhs` with every one of `self`.
    pub fn product(&self, rhs: &Generators) -> (r: Option<Generators>)
        ensures
            r is Some ==> r->0@ == products_of(self@, rhs@),
            r is Some <==> products_exist(self@, rhs@) && rhs@.len() * self@.len() <= usize::MAX,
    {
        match all_products(&self.matrices, &rhs.matrices) {
            Some(m) => Some(Generators { matrices: m }),
            None => None,
        }
    }
}

impl SymmetryGroup {
    pub fn new(elements: Vec<SeitzMatrix>) -> (g: SymmetryGroup)
        ensures
            g@ == ops_of(elements@),
    {
        SymmetryGroup { elements }
    }

    pub fn elements(&self) -> (r: &[SeitzMatrix])
        ensures
            ops_of(r@) == self@,
    {
        self.elements.as_slice()
    }

    /// The group extended by the operations of `rhs`: the products of
    /// every one of those with every operation of `self`.
    pub fn product(&self, rhs: &Vec<SeitzMatrix>) -> (r: Option<SymmetryGroup>)
        ensures
            r is Some ==> r->0@ == products_of(self@, ops_of(rhs@)),
            r is Some <==> products_exist(self@, ops_of(rhs@)) && rhs@.len() * self@.len()
                <= usize::MAX,
    {
        match all_products(&self.elements, rhs) {
            Some(m) => Some(SymmetryGroup { elements: m }),
            None => None,
        }
    }
}

} // verus!
