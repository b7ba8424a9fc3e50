use vstd::prelude::*;
use crate::EngineError;

verus! {

/// Flat offset of the first element of row `pos` of layer `layer`, in a
/// cache of `max` positions per layer and `width` elements per row.
pub open spec fn row_base(layer: int, pos: int, max: int, width: int) -> int {
    (layer * max + pos) * width
}

/// Per-conversation key/value cache: for every layer one key buffer and one
/// value buffer of `max_seq_len` rows of `width` elements, preallocated
/// flat, plus a single cursor counting the positions already written.
pub struct KVCache<T> {
    layers: usize,
    max_seq_len: usize,
    width: usize,
    cursor: usize,
    k: Vec<T>,
    v: Vec<T>,
}

impl<T: Copy> KVCache<T> {
    /// Layer count.
    pub closed spec fn spec_layers(&self) -> usize {
        self.layers
    }

    /// Maximum number of positions a layer can hold.
    pub closed spec fn spec_max(&self) -> usize {
        self.max_seq_len
    }

    /// Elements per key row (and per value row).
    pub closed spec fn spec_width(&self) -> usize {
        self.width
    }

    /// Number of valid positions written so far.
    pub closed spec fn spec_cursor(&self) -> usize {
        self.cursor
    }

    /// The flat key storage.
    pub closed spec fn spec_k(&self) -> Seq<T> {
        self.k@
    }

    /// The flat value storage.
    pub closed spec fn spec_v(&self) -> Seq<T> {
        self.v@
    }

    /// Structural invariant: both stores hold exactly one row per layer and
    /// position, and the cursor never passes the maximum sequence length.
    pub open spec fn wf(&self) -> bool {
        &&& self.spec_k().len() == self.spec_layers() * self.spec_max() * self.spec_width()
        &&& self.spec_v().len() == self.spec_k().len()
        &&& self.spec_cursor() <= self.spec_max()
        &&& self.spec_width() >= 1
    }

    /// Allocates an empty cache; the rows must be at least one element wide,
    /// and the requested storage must fit in one flat buffer.
    pub fn new(layers: usize, max_seq_len: usize, width: usize, fill: T) -> (r: Result<
        KVCache<T>,
        EngineError,
    >)
        ensures
            match r {
                Ok(c) => {
                    &&& width >= 1
                    &&& layers * max_seq_len * width <= usize::MAX
                    &&& c.wf()
                    &&& c.spec_layers() == layers
                    &&& c.spec_max() == max_seq_len
                    &&& c.spec_width() == width
                    &&& c.spec_cursor() == 0
                },
                Err(e) => {
                    &&& e == EngineError::ShapeError
                    &&& (width == 0 || layers * max_seq_len * width > usize::MAX)
                },
            },
    {
        if width == 0 {
            return Err(EngineError::ShapeError);
        }
        let a: usize = match layers.checked_mul(max_seq_len) {
            Some(a) => a,
            None => {
                proof {
                    assert(layers * max_seq_len * width > usize::MAX) by (nonlinear_arith)
                        requires
                            layers * max_seq_len > usize::MAX,
                            width >= 1,
                    ;
                }
                return Err(EngineError::ShapeError);
            },
        };
        let total: usize = match a.checked_mul(width) {
            Some(t) => t,
            None => {
                return Err(EngineError::ShapeError);
            },
        };
        let mut k: Vec<T> = Vec::new();
        let mut v: Vec<T> = Vec::new();
        let mut i: usize = 0;
        while i < total
            invariant
                0 <= i <= total,
                k@.len() == i,
                v@.len() == i,
            decreases total - i,
        {
            k.push(fill);
            v.push(fill);
            i = i + 1;
        }
        Ok(KVCache { layers, max_seq_len, width, cursor: 0, k, v })
    }

    /// Layer count.
    pub fn layers(&self) -> (r: usize)
        ensures
            r == self.spec_layers(),
    {
        self.layers
    }

    /// Maximum number of positions.
    pub fn max_seq_len(&self) -> (r: usize)
        ensures
            r == self.spec_max(),
    {
        self.max_seq_len
    }

    /// Elements per row.
    pub fn width(&self) -> (r: usize)
        ensures
            r == self.spec_width(),
    {
        self.width
    }

    /// Number of valid positions written so far.
    pub fn cursor(&self) -> (r: usize)
        ensures
            r == self.spec_cursor(),
    {
        self.cursor
    }

    /// The element offsets this write will touch stay inside the storage.
    proof fn lemma_write_in_range(&self, layer: int, pos: int)
        requires
            self.wf(),
            0 <= layer < self.spec_layers(),
            0 <= pos < self.spec_max(),
        ensures
            0 <= row_base(layer, pos, self.spec_max() as int, self.spec_width() as int),
            row_base(layer, pos, self.spec_max() as int, self.spec_width() as int)
                + self.spec_width() <= self.spec_k().len(),
            0 <= layer * self.spec_max() + pos <= self.spec_k().len(),
    {
        let max = self.spec_max() as int;
        let width = self.spec_width() as int;
        let layers = self.spec_layers() as int;
        assert((layer * max + pos) * width + width <= layers * max * width && 0 <= (layer * max
            + pos) * width && 0 <= layer * max + pos <= layers * max * width) by (nonlinear_arith)
            requires
                0 <= layer < layers,
                0 <= pos < max,
                1 <= width,
        ;
    }

    /// Writes one layer's key/value rows for the position the cursor names,
    /// without advancing the cursor; the layer index must exist, the rows
    /// must be exactly one row wide, and the cache must not be full.
    pub fn write_position(&mut self, layer: usize, k_row: &Vec<T>, v_row: &Vec<T>) -> (r: Result<
        (),
        EngineError,
    >)
        requires
            old(self).wf(),
        ensures
            final(self).wf(),
            final(self).spec_layers() == old(self).spec_layers(),
            final(self).spec_max() == old(self).spec_max(),
            final(self).spec_width() == old(self).spec_width(),
            final(self).spec_cursor() == old(self).spec_cursor(),
            match r {
                Ok(()) => {
                    let base = row_base(
                        layer as int,
                        old(self).spec_cursor() as int,
                        old(self).spec_max() as int,
                        old(self).spec_width() as int,
                    );
                    &&& layer < old(self).spec_layers()
                    &&& k_row@.len() == old(self).spec_width()
                    &&& v_row@.len() == old(self).spec_width()
                    &&& old(self).spec_cursor() < old(self).spec_max()
                    &&& final(self).spec_k().len() == old(self).spec_k().len()
                    &&& final(self).spec_v().len() == old(self).spec_v().len()
                    &&& forall|j: int|
                        0 <= j < old(self).spec_width() ==> final(self).spec_k()[base + j]
                            == k_row@[j] && final(self).spec_v()[base + j] == v_row@[j]
                    &&& forall|o: int|
                        0 <= o < old(self).spec_k().len() && !(base <= o < base + old(
                            self,
                        ).spec_width()) ==> final(self).spec_k()[o] == old(self).spec_k()[o]
                            && final(self).spec_v()[o] == old(self).spec_v()[o]
                },
                Err(EngineError::ShapeError) => {
                    &&& (layer >= old(self).spec_layers() || k_row@.len() != old(self).spec_width()
                        || v_row@.len() != old(self).spec_width())
                    &&& *final(self) == *old(self)
                },
                Err(EngineError::ContextOverflowError) => {
                    &&& layer < old(self).spec_layers()
                    &&& k_row@.len() == old(self).spec_width()
                    &&& v_row@.len() == old(self).spec_width()
                    &&& old(self).spec_cursor() == old(self).spec_max()
                    &&& *final(self) == *old(self)
                },
                _ => false,
            },
    {
        if layer >= self.layers || k_row.len() != self.width || v_row.len() != self.width {
            return Err(EngineError::ShapeError);
        }
        if self.cursor >= self.max_seq_len {
            return Err(EngineError::ContextOverflowError);
        }
        let klen: usize = self.k.len();
        proof {
            self.lemma_write_in_range(layer as int, self.cursor as int);
            assert((layer * self.max_seq_len + self.cursor) * self.width == row_base(
                layer as int,
                self.cursor as int,
                self.max_seq_len as int,
                self.width as int,
            ));
        }
        let base: usize = (layer * self.max_seq_len + self.cursor) * self.width;
        let mut j: usize = 0;
        while j < self.width
            invariant
                0 <= j <= self.width,
                base + self.width <= klen,
                klen == self.k@.len(),
                self.v@.len() == self.k@.len(),
                k_row@.len() == self.width,
                v_row@.len() == self.width,
                self.layers == old(self).spec_layers(),
                self.max_seq_len == old(self).spec_max(),
                self.width == old(self).spec_width(),
                self.cursor == old(self).spec_cursor(),
                self.k@.len() == old(self).spec_k().len(),
                self.v@.len() == old(self).spec_v().len(),
                forall|t: int| 0 <= t < j ==> self.k@[base + t] == k_row@[t],
                forall|t: int| 0 <= t < j ==> self.v@[base + t] == v_row@[t],
                forall|o: int|
                    0 <= o < self.k@.len() && !(base <= o < base + j) ==> self.k@[o] == old(
                        self,
                    ).spec_k()[o] && self.v@[o] == old(self).spec_v()[o],
            decreases self.width - j,
        {
            self.k.set(base + j, k_row[j]);
            self.v.set(base + j, v_row[j]);
            j = j + 1;
        }
        Ok(())
    }

    /// Marks the position currently being written as complete; fails when
    /// the cache is already at its maximum sequence length.
    pub fn advance(&mut self) -> (r: Result<(), EngineError>)
        requires
            old(self).wf(),
        ensures
            final(self).wf(),
            final(self).spec_layers() == old(self).spec_layers(),
            final(self).spec_max() == old(self).spec_max(),
            final(self).spec_width() == old(self).spec_width(),
            final(self).spec_k() == old(self).spec_k(),
            final(self).spec_v() == old(self).spec_v(),
            match r {
                Ok(()) => {
                    &&& old(self).spec_cursor() < old(self).spec_max()
                    &&& final(self).spec_cursor() == old(self).spec_cursor() + 1
                },
                Err(e) => {
                    &&& e == EngineError::ContextOverflowError
                    &&& old(self).spec_cursor() == old(self).spec_max()
                    &&& final(self).spec_cursor() == old(self).spec_cursor()
                },
            },
    {
        if self.cursor >= self.max_seq_len {
            return Err(EngineError::ContextOverflowError);
        }
        self.cursor = self.cursor + 1;
        Ok(())
    }

    /// Appends one layer's key/value rows at the cursor and advances the
    /// cursor by one; fails with a context overflow on the call that would
    /// pass the maximum sequence length, leaving the cache unchanged.
    pub fn append(&mut self, layer: usize, k_row: &Vec<T>, v_row: &Vec<T>) -> (r: Result<
        (),
        EngineError,
    >)
        requires
            old(self).wf(),
        ensures
            final(self).wf(),
            final(self).spec_layers() == old(self).spec_layers(),
            final(self).spec_max() == old(self).spec_max(),
            final(self).spec_width() == old(self).spec_width(),
            match r {
                Ok(()) => {
                    let base = row_base(
                        layer as int,
                        old(self).spec_cursor() as int,
                        old(self).spec_max() as int,
                        old(self).spec_width() as int,
                    );
                    &&& layer < old(self).spec_layers()
                    &&& k_row@.len() == old(self).spec_width()
                    &&& v_row@.len() == old(self).spec_width()
                    &&& old(self).spec_cursor() < old(self).spec_max()
                    &&& final(self).spec_cursor() == old(self).spec_cursor() + 1
                    &&& final(self).spec_k().len() == old(self).spec_k().len()
                    &&& final(self).spec_v().len() == old(self).spec_v().len()
                    &&& forall|j: int|
                        0 <= j < old(self).spec_width() ==> final(self).spec_k()[base + j]
                            == k_row@[j] && final(self).spec_v()[base + j] == v_row@[j]
                    &&& forall|o: int|
                        0 <= o < old(self).spec_k().len() && !(base <= o < base + old(
                            self,
                        ).spec_width()) ==> final(self).spec_k()[o] == old(self).spec_k()[o]
                            && final(self).spec_v()[o] == old(self).spec_v()[o]
                },
                Err(EngineError::ShapeError) => {
                    &&& (layer >= old(self).spec_layers() || k_row@.len() != old(self).spec_width()
                        || v_row@.len() != old(self).spec_width())
                    &&& *final(self) == *old(self)
                },
                Err(EngineError::ContextOverflowError) => {
                    &&& layer < old(self).spec_layers()
                    &&& k_row@.len() == old(self).spec_width()
                    &&& v_row@.len() == old(self).spec_width()
                    &&& old(self).spec_cursor() == old(self).spec_max()
                    &&& *final(self) == *old(self)
                },
                _ => false,
            },
    {
        let wrote = self.write_position(layer, k_row, v_row);
        match wrote {
            Ok(()) => {
                let stepped = self.advance();
                match stepped {
                    Ok(()) => Ok(()),
                    Err(_) => {
                        proof {
                            // write_position succeeded, so the cursor was
                            // strictly below the maximum
                            assert(false);
                        }
                        Err(EngineError::ContextOverflowError)
                    },
                }
            },
            Err(e) => Err(e),
        }
    }

    /// Returns the valid prefix of one layer: the key rows and value rows of
    /// positions `0 .. cursor`, as independent copies.
    pub fn window(&self, layer: usize) -> (r: Result<(Vec<T>, Vec<T>), EngineError>)
        requires
            self.wf(),
        ensures
            match r {
                Ok((kw, vw)) => {
                    let base = row_base(
                        layer as int,
                        0,
                        self.spec_max() as int,
                        self.spec_width() as int,
                    );
                    &&& layer < self.spec_layers()
                    &&& kw@ == self.spec_k().subrange(
                        base,
                        base + self.spec_cursor() * self.spec_width(),
                    )
                    &&& vw@ == self.spec_v().subrange(
                        base,
                        base + self.spec_cursor() * self.spec_width(),
                    )
                },
                Err(e) => {
                    &&& e == EngineError::ShapeError
                    &&& layer >= self.spec_layers()
                },
            },
    {
        if layer >= self.layers {
            return Err(EngineError::ShapeError);
        }
        let klen: usize = self.k.len();
        proof {
            self.lemma_window_in_range(layer as int);
        }
        let base: usize = layer * self.max_seq_len * self.width;
        let len: usize = self.cursor * self.width;
        let mut kw: Vec<T> = Vec::new();
        let mut vw: Vec<T> = Vec::new();
        let mut j: usize = 0;
        while j < len
            invariant
                0 <= j <= len,
                base + len <= klen,
                klen == self.k@.len(),
                self.v@.len() == self.k@.len(),
                kw@ =~= self.k@.subrange(base as int, base + j),
                vw@ =~= self.v@.subrange(base as int, base + j),
            decreases len - j,
        {
            kw.push(self.k[base + j]);
            vw.push(self.v[base + j]);
            proof {
                assert(kw@ =~= self.k@.subrange(base as int, base + j + 1));
                assert(vw@ =~= self.v@.subrange(base as int, base + j + 1));
            }
            j = j + 1;
        }
        proof {
            assert((layer * self.max_seq_len) * self.width == row_base(
                layer as int,
                0,
                self.spec_max() as int,
                self.spec_width() as int,
            ));
        }
        Ok((kw, vw))
    }

    /// The window of a valid layer lies inside the storage.
    proof fn lemma_window_in_range(&self, layer: int)
        requires
            self.wf(),
            0 <= layer < self.spec_layers(),
        ensures
            0 <= layer * self.spec_max() * self.spec_width(),
            layer * self.spec_max() * self.spec_width() + self.spec_cursor() * self.spec_width()
                <= self.spec_k().len(),
            layer * self.spec_max() * self.spec_width() == row_base(
                layer,
                0,
                self.spec_max() as int,
                self.spec_width() as int,
            ),
            0 <= layer * self.spec_max() <= self.spec_k().len(),
            0 <= self.spec_cursor() * self.spec_width() <= self.spec_k().len(),
    {
        let max = self.spec_max() as int;
        let width = self.spec_width() as int;
        let layers = self.spec_layers() as int;
        let cur = self.spec_cursor() as int;
        assert(0 <= layer * max * width && layer * max * width + cur * width <= layers * max
            * width && layer * max * width == (layer * max + 0) * width && 0 <= layer * max
            <= layers * max * width && 0 <= cur * width <= layers * max * width)
            by (nonlinear_arith)
            requires
                0 <= layer < layers,
                0 <= cur <= max,
                1 <= width,
        ;
    }

    /// Starts a fresh conversation: the cursor returns to zero and every
    /// previously written position becomes invalid.
    pub fn reset(&mut self)
        requires
            old(self).wf(),
        ensures
            final(self).wf(),
            final(self).spec_layers() == old(self).spec_layers(),
            final(self).spec_max() == old(self).spec_max(),
            final(self).spec_width() == old(self).spec_width(),
            final(self).spec_cursor() == 0,
    {
        self.cursor = 0;
    }
}

} // verus!
