use vstd::prelude::*;
use crate::EngineError;

verus! {

/// Number of elements a shape describes: the product of its dimensions.
pub open spec fn elem_product(shape: Seq<usize>) -> nat
    decreases shape.len(),
{
    if shape.len() == 0 {
        1
    } else {
        elem_product(shape.drop_last()) * (shape.last() as nat)
    }
}

/// The product splits at any cut point.
pub proof fn lemma_elem_product_split(s: Seq<usize>, k: int)
    requires
        0 <= k <= s.len(),
    ensures
        elem_product(s) == elem_product(s.take(k)) * elem_product(s.skip(k)),
    decreases s.len(),
{
    assert(elem_product(Seq::<usize>::empty()) == 1);
    if k == s.len() {
        assert(s.take(k) =~= s);
        assert(s.skip(k) =~= Seq::<usize>::empty());
    } else {
        let s0 = s.drop_last();
        let c = s.last() as nat;
        lemma_elem_product_split(s0, k);
        let a = elem_product(s0.take(k));
        let b = elem_product(s0.skip(k));
        assert(s.take(k) =~= s0.take(k));
        assert(s.skip(k).drop_last() =~= s0.skip(k));
        assert(s.skip(k).len() >= 1);
        assert(s.skip(k).last() == s.last());
        assert(elem_product(s.skip(k)) == b * c);
        assert(elem_product(s) == elem_product(s0) * c);
        assert(elem_product(s0) == a * b);
        assert((a * b) * c == a * (b * c)) by (nonlinear_arith);
        assert(elem_product(s) == a * (b * c));
        assert(elem_product(s) == elem_product(s.take(k)) * elem_product(s.skip(k)));
    }
}

/// A shape with no zero dimension describes at least one element.
pub proof fn lemma_elem_product_pos(s: Seq<usize>)
    requires
        forall|i: int| 0 <= i < s.len() ==> s[i] >= 1,
    ensures
        elem_product(s) >= 1,
    decreases s.len(),
{
    if s.len() > 0 {
        lemma_elem_product_pos(s.drop_last());
        assert(elem_product(s.drop_last()) * (s.last() as nat) >= 1) by (nonlinear_arith)
            requires
                elem_product(s.drop_last()) >= 1,
                s.last() >= 1,
        ;
    }
}

/// A zero dimension anywhere makes the element count zero.
pub proof fn lemma_elem_product_zero(s: Seq<usize>, i: int)
    requires
        0 <= i < s.len(),
        s[i] == 0,
    ensures
        elem_product(s) == 0,
    decreases s.len(),
{
    let s0 = s.drop_last();
    let c = s.last() as nat;
    assert(elem_product(s) == elem_product(s0) * c);
    if i == s.len() - 1 {
        assert(c == 0);
        assert(elem_product(s0) * 0 == 0) by (nonlinear_arith);
    } else {
        lemma_elem_product_zero(s0, i);
        assert(elem_product(s0) == 0);
        assert(0 * c == 0) by (nonlinear_arith);
    }
}

/// Row-major flat offset of a multi-index within a shape.
pub open spec fn flat_index(idx: Seq<usize>, shape: Seq<usize>) -> nat
    decreases idx.len(),
{
    if idx.len() == 0 || shape.len() == 0 {
        0
    } else {
        flat_index(idx.drop_last(), shape.drop_last()) * (shape.last() as nat) + (
        idx.last() as nat)
    }
}

/// A multi-index addresses one element of a shape.
pub open spec fn index_in_bounds(idx: Seq<usize>, shape: Seq<usize>) -> bool {
    &&& idx.len() == shape.len()
    &&& forall|i: int| 0 <= i < idx.len() ==> idx[i] < shape[i]
}

/// An in-bounds multi-index flattens to an offset below the element count.
pub proof fn lemma_flat_index_bound(idx: Seq<usize>, shape: Seq<usize>)
    requires
        index_in_bounds(idx, shape),
    ensures
        flat_index(idx, shape) < elem_product(shape),
    decreases idx.len(),
{
    if idx.len() > 0 {
        let i0 = idx.drop_last();
        let s0 = shape.drop_last();
        assert(index_in_bounds(i0, s0));
        lemma_flat_index_bound(i0, s0);
        assert(flat_index(i0, s0) * (shape.last() as nat) + (idx.last() as nat) < elem_product(s0)
            * (shape.last() as nat)) by (nonlinear_arith)
            requires
                flat_index(i0, s0) < elem_product(s0),
                (idx.last() as nat) < (shape.last() as nat),
        ;
    }
}

/// A dense tensor: a flat row-major buffer and the shape it fills exactly.
pub struct Tensor<T> {
    data: Vec<T>,
    shape: Vec<usize>,
}

impl<T: Copy> Tensor<T> {
    /// The buffer, as a mathematical sequence.
    pub closed spec fn spec_data(&self) -> Seq<T> {
        self.data@
    }

    /// The shape, as a mathematical sequence of dimension sizes.
    pub closed spec fn spec_shape(&self) -> Seq<usize> {
        self.shape@
    }

    /// Structural invariant: the buffer holds one element per shape slot.
    pub open spec fn wf(&self) -> bool {
        self.spec_data().len() == elem_product(self.spec_shape())
    }

    /// Decides whether `len` elements fill `shape` exactly.
    pub fn len_matches(len: usize, shape: &Vec<usize>) -> (b: bool)
        ensures
            b == (len == elem_product(shape@)),
    {
        let n: usize = shape.len();
        let mut i: usize = 0;
        while i < n
            invariant
                0 <= i <= n,
                n == shape@.len(),
                forall|j: int| 0 <= j < i ==> shape@[j] >= 1,
            decreases n - i,
        {
            if shape[i] == 0 {
                proof {
                    lemma_elem_product_zero(shape@, i as int);
                }
                return len == 0;
            }
            i = i + 1;
        }
        // every dimension is at least one
        let mut acc: usize = 1;
        let mut i: usize = 0;
        while i < n
            invariant
                0 <= i <= n,
                n == shape@.len(),
                forall|j: int| 0 <= j < n ==> shape@[j] >= 1,
                acc == elem_product(shape@.take(i as int)),
            decreases n - i,
        {
            proof {
                assert(shape@.take(i + 1).drop_last() =~= shape@.take(i as int));
                assert(shape@.take(i + 1).last() == shape@[i as int]);
            }
            match acc.checked_mul(shape[i]) {
                Some(p) => {
                    acc = p;
                },
                None => {
                    proof {
                        lemma_elem_product_split(shape@, i + 1);
                        lemma_elem_product_pos(shape@.skip(i + 1));
                        assert(elem_product(shape@) >= elem_product(shape@.take(i + 1)))
                            by (nonlinear_arith)
                            requires
                                elem_product(shape@) == elem_product(shape@.take(i + 1))
                                    * elem_product(shape@.skip(i + 1)),
                                elem_product(shape@.skip(i + 1)) >= 1,
                        ;
                    }
                    return false;
                },
            }
            i = i + 1;
        }
        proof {
            assert(shape@.take(n as int) =~= shape@);
        }
        len == acc
    }

    /// Builds a tensor from a buffer and a shape; the buffer length must
    /// equal the product of the dimensions.
    pub fn new(data: Vec<T>, shape: Vec<usize>) -> (r: Result<Tensor<T>, EngineError>)
        ensures
            match r {
                Ok(t) => {
                    &&& t.wf()
                    &&& t.spec_data() == data@
                    &&& t.spec_shape() == shape@
                    &&& data@.len() == elem_product(shape@)
                },
                Err(e) => {
                    &&& e == EngineError::ShapeError
                    &&& data@.len() != elem_product(shape@)
                },
            },
    {
        if Self::len_matches(data.len(), &shape) {
            Ok(Tensor { data, shape })
        } else {
            Err(EngineError::ShapeError)
        }
    }

    /// Read access to the flat buffer.
    pub fn data(&self) -> (r: &Vec<T>)
        ensures
            r@ == self.spec_data(),
    {
        &self.data
    }

    /// Read access to the shape.
    pub fn shape(&self) -> (r: &Vec<usize>)
        ensures
            r@ == self.spec_shape(),
    {
        &self.shape
    }

    /// Number of elements in the buffer.
    pub fn len(&self) -> (r: usize)
        ensures
            r == self.spec_data().len(),
    {
        self.data.len()
    }

    /// Reassigns the shape; fails unless the element count is preserved,
    /// and leaves the tensor unchanged on failure.
    pub fn reshape(&mut self, new_shape: Vec<usize>) -> (r: Result<(), EngineError>)
        requires
            old(self).wf(),
        ensures
            final(self).wf(),
            final(self).spec_data() == old(self).spec_data(),
            match r {
                Ok(()) => {
                    &&& old(self).spec_data().len() == elem_product(new_shape@)
                    &&& final(self).spec_shape() == new_shape@
                },
                Err(e) => {
                    &&& e == EngineError::ShapeError
                    &&& old(self).spec_data().len() != elem_product(new_shape@)
                    &&& final(self).spec_shape() == old(self).spec_shape()
                },
            },
    {
        if Self::len_matches(self.data.len(), &new_shape) {
            self.shape = new_shape;
            Ok(())
        } else {
            Err(EngineError::ShapeError)
        }
    }

    /// Checks that `idx` addresses an element: one coordinate per dimension,
    /// each below its dimension size.
    pub fn index_ok(&self, idx: &Vec<usize>) -> (b: bool)
        ensures
            b == index_in_bounds(idx@, self.spec_shape()),
    {
        if idx.len() != self.shape.len() {
            return false;
        }
        let n: usize = idx.len();
        let mut i: usize = 0;
        while i < n
            invariant
                0 <= i <= n,
                n == idx@.len() == self.shape@.len(),
                forall|j: int| 0 <= j < i ==> idx@[j] < self.shape@[j],
            decreases n - i,
        {
            if idx[i] >= self.shape[i] {
                return false;
            }
            i = i + 1;
        }
        true
    }

    /// Row-major offset of an in-bounds multi-index.
    fn offset_of(&self, idx: &Vec<usize>) -> (r: usize)
        requires
            self.wf(),
            index_in_bounds(idx@, self.spec_shape()),
        ensures
            r == flat_index(idx@, self.spec_shape()),
            r < self.spec_data().len(),
    {
        let n: usize = idx.len();
        let total: usize = self.data.len();
        let mut off: usize = 0;
        proof {
            assert(elem_product(Seq::<usize>::empty()) == 1);
            assert(idx@.take(0) =~= Seq::<usize>::empty());
            assert(self.shape@.take(0) =~= Seq::<usize>::empty());
        }
        let mut i: usize = 0;
        while i < n
            invariant
                0 <= i <= n,
                n == idx@.len() == self.shape@.len(),
                index_in_bounds(idx@, self.shape@),
                self.wf(),
                total == self.spec_data().len(),
                off == flat_index(idx@.take(i as int), self.shape@.take(i as int)),
                off < elem_product(self.shape@.take(i as int)),
            decreases n - i,
        {
            proof {
                assert(idx@.take(i + 1).drop_last() =~= idx@.take(i as int));
                assert(self.shape@.take(i + 1).drop_last() =~= self.shape@.take(i as int));
                assert(idx@.take(i + 1).last() == idx@[i as int]);
                assert(self.shape@.take(i + 1).last() == self.shape@[i as int]);
                assert(index_in_bounds(idx@.take(i + 1), self.shape@.take(i + 1)));
                lemma_flat_index_bound(idx@.take(i + 1), self.shape@.take(i + 1));
                lemma_elem_product_split(self.shape@, i + 1);
                assert(forall|j: int| 0 <= j < self.shape@.len() ==> self.shape@[j] >= 1);
                assert(forall|j: int|
                    0 <= j < self.shape@.skip(i + 1).len() ==> #[trigger] self.shape@.skip(i + 1)[j]
                        >= 1);
                lemma_elem_product_pos(self.shape@.skip(i + 1));
                assert(elem_product(self.shape@) >= elem_product(self.shape@.take(i + 1)))
                    by (nonlinear_arith)
                    requires
                        elem_product(self.shape@) == elem_product(self.shape@.take(i + 1))
                            * elem_product(self.shape@.skip(i + 1)),
                        elem_product(self.shape@.skip(i + 1)) >= 1,
                ;
                assert(flat_index(idx@.take(i + 1), self.shape@.take(i + 1)) == (off as nat) * (
                self.shape@[i as int] as nat) + (idx@[i as int] as nat));
                assert((off as nat) * (self.shape@[i as int] as nat) + (idx@[i as int] as nat)
                    < total as nat);
            }
            off = off * self.shape[i] + idx[i];
            i = i + 1;
        }
        proof {
            assert(idx@.take(n as int) =~= idx@);
            assert(self.shape@.take(n as int) =~= self.shape@);
        }
        off
    }

    /// Reads the element a multi-index addresses; fails with a shape error
    /// on a rank mismatch or an out-of-range coordinate.
    pub fn get(&self, idx: &Vec<usize>) -> (r: Result<T, EngineError>)
        requires
            self.wf(),
        ensures
            match r {
                Ok(v) => {
                    &&& index_in_bounds(idx@, self.spec_shape())
                    &&& v == self.spec_data()[flat_index(idx@, self.spec_shape()) as int]
                },
                Err(e) => {
                    &&& e == EngineError::ShapeError
                    &&& !index_in_bounds(idx@, self.spec_shape())
                },
            },
    {
        if !self.index_ok(idx) {
            return Err(EngineError::ShapeError);
        }
        let off: usize = self.offset_of(idx);
        Ok(self.data[off])
    }

    /// Overwrites the element a multi-index addresses; on failure the tensor
    /// is unchanged.
    pub fn set(&mut self, idx: &Vec<usize>, v: T) -> (r: Result<(), EngineError>)
        requires
            old(self).wf(),
        ensures
            final(self).wf(),
            final(self).spec_shape() == old(self).spec_shape(),
            match r {
                Ok(()) => {
                    &&& index_in_bounds(idx@, old(self).spec_shape())
                    &&& final(self).spec_data() == old(self).spec_data().update(
                        flat_index(idx@, old(self).spec_shape()) as int,
                        v,
                    )
                },
                Err(e) => {
                    &&& e == EngineError::ShapeError
                    &&& !index_in_bounds(idx@, old(self).spec_shape())
                    &&& final(self).spec_data() == old(self).spec_data()
                },
            },
    {
        if !self.index_ok(idx) {
            return Err(EngineError::ShapeError);
        }
        let off: usize = self.offset_of(idx);
        self.data.set(off, v);
        Ok(())
    }

    /// Copies `count` rows starting at row `start` along the leading
    /// dimension into an independent, fully owned tensor.
    pub fn slice_rows(&self, start: usize, count: usize) -> (r: Result<Tensor<T>, EngineError>)
        requires
            self.wf(),
        ensures
            match r {
                Ok(t) => {
                    &&& self.spec_shape().len() >= 1
                    &&& start + count <= self.spec_shape()[0]
                    &&& t.wf()
                    &&& t.spec_shape() == self.spec_shape().update(0, count)
                    &&& t.spec_data() == self.spec_data().subrange(
                        start * elem_product(self.spec_shape().skip(1)),
                        (start + count) * elem_product(self.spec_shape().skip(1)),
                    )
                },
                Err(e) => {
                    &&& e == EngineError::ShapeError
                    &&& (self.spec_shape().len() == 0 || start + count > self.spec_shape()[0])
                },
            },
    {
        if self.shape.len() == 0 {
            return Err(EngineError::ShapeError);
        }
        let d0: usize = self.shape[0];
        let over: bool = match start.checked_add(count) {
            Some(s) => s > d0,
            None => true,
        };
        if over {
            return Err(EngineError::ShapeError);
        }
        proof {
            lemma_elem_product_split(self.shape@, 1);
            let g0 = self.shape@.take(1);
            assert(elem_product(Seq::<usize>::empty()) == 1);
            assert(g0.drop_last() =~= Seq::<usize>::empty());
            assert(g0.last() == self.shape@[0]);
            assert(g0.len() == 1);
            assert(elem_product(g0) == elem_product(g0.drop_last()) * (g0.last() as nat));
            assert(elem_product(g0.drop_last()) == 1);
            assert(elem_product(g0) == 1 * (d0 as nat)) by (nonlinear_arith)
                requires
                    elem_product(g0) == elem_product(g0.drop_last()) * (g0.last() as nat),
                    elem_product(g0.drop_last()) == 1,
                    g0.last() == d0,
            ;
            assert(elem_product(self.shape@.take(1)) == d0 as nat);
        }
        let ghost row_g: nat = elem_product(self.shape@.skip(1));
        // self.data.len() == d0 * row_g
        let row: usize = if d0 == 0 {
            // no rows exist, so only the empty slice is reachable
            0
        } else {
            let q: usize = self.data.len() / d0;
            proof {
                assert((d0 as nat * row_g) / (d0 as nat) == row_g) by (nonlinear_arith)
                    requires
                        d0 >= 1,
                ;
            }
            q
        };
        proof {
            if d0 == 0 {
                // start + count <= 0 here, so both bounds of the slice are 0
                assert(start == 0 && count == 0);
            }
            assert(row as nat == row_g || (d0 == 0 && start + count == 0));
            assert((start + count) * row <= self.data@.len()) by (nonlinear_arith)
                requires
                    start + count <= d0,
                    self.data@.len() == d0 as nat * row_g,
                    row as nat == row_g || (d0 == 0 && start + count == 0),
            ;
            assert(start * row <= (start + count) * row) by (nonlinear_arith)
                requires
                    count >= 0,
                    row >= 0,
            ;
        }
        let lo: usize = start * row;
        let hi: usize = (start + count) * row;
        let mut out: Vec<T> = Vec::new();
        let mut j: usize = lo;
        while j < hi
            invariant
                lo <= j <= hi,
                hi <= self.data@.len(),
                out@ =~= self.data@.subrange(lo as int, j as int),
            decreases hi - j,
        {
            out.push(self.data[j]);
            proof {
                assert(out@ =~= self.data@.subrange(lo as int, j + 1));
            }
            j = j + 1;
        }
        let mut new_shape: Vec<usize> = Vec::new();
        new_shape.push(count);
        let mut j2: usize = 1;
        while j2 < self.shape.len()
            invariant
                1 <= j2 <= self.shape@.len(),
                self.shape@.len() >= 1,
                new_shape@ =~= self.shape@.update(0, count).take(j2 as int),
            decreases self.shape@.len() - j2,
        {
            new_shape.push(self.shape[j2]);
            proof {
                assert(new_shape@ =~= self.shape@.update(0, count).take(j2 + 1));
            }
            j2 = j2 + 1;
        }
        proof {
            assert(new_shape@ =~= self.shape@.update(0, count));
        }
        proof {
            // the sliced buffer fills the sliced shape exactly
            assert(new_shape@.skip(1) =~= self.shape@.skip(1));
            lemma_elem_product_split(new_shape@, 1);
            let g1 = new_shape@.take(1);
            assert(elem_product(Seq::<usize>::empty()) == 1);
            assert(g1.drop_last() =~= Seq::<usize>::empty());
            assert(g1.last() == count);
            assert(g1.len() == 1);
            assert(elem_product(g1) == elem_product(g1.drop_last()) * (g1.last() as nat));
            assert(elem_product(g1.drop_last()) == 1);
            assert(elem_product(g1) == 1 * (count as nat)) by (nonlinear_arith)
                requires
                    elem_product(g1) == elem_product(g1.drop_last()) * (g1.last() as nat),
                    elem_product(g1.drop_last()) == 1,
                    g1.last() == count,
            ;
            assert(elem_product(new_shape@.take(1)) == count as nat);
            assert(out@.len() == count as nat * row_g || (d0 == 0 && out@.len() == 0 && count
                == 0)) by (nonlinear_arith)
                requires
                    out@.len() == hi - lo,
                    hi == (start + count) * row,
                    lo == start * row,
                    row as nat == row_g || (d0 == 0 && start + count == 0),
            ;
            assert(elem_product(new_shape@) == count as nat * row_g) by (nonlinear_arith)
                requires
                    elem_product(new_shape@) == elem_product(new_shape@.take(1)) * elem_product(
                        new_shape@.skip(1),
                    ),
                    elem_product(new_shape@.take(1)) == count as nat,
                    elem_product(new_shape@.skip(1)) == row_g,
            ;
            if d0 == 0 {
                assert(elem_product(new_shape@) == 0) by (nonlinear_arith)
                    requires
                        elem_product(new_shape@) == count as nat * row_g,
                        count == 0,
                ;
            }
            assert(new_shape@ =~= self.shape@.update(0, count));
        }
        Ok(Tensor { data: out, shape: new_shape })
    }
}

/// For any well-formed tensor, the buffer length equals the product of its
/// shape.
pub proof fn lemma_buffer_matches_shape<T: Copy>(t: &Tensor<T>)
    requires
        t.wf(),
    ensures
        t.spec_data().len() == elem_product(t.spec_shape()),
{
}

} // verus!
