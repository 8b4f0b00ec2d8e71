use vstd::prelude::*;

verus! {

/// `region` with `bytes` written over it from index `at`; indices past the end
/// of `region` are not written.
pub open spec fn overwrite(region: Seq<u8>, at: int, bytes: Seq<u8>) -> Seq<u8> {
    Seq::new(
        region.len(),
        |j: int|
            if at <= j < at + bytes.len() {
                bytes[j - at]
            } else {
                region[j]
            },
    )
}

/// `n` zero bytes.
pub(crate) fn zeroed(n: usize) -> (r: Vec<u8>)
    ensures
        r@ == Seq::new(n as nat, |i: int| 0u8),
{
    let mut r: Vec<u8> = Vec::with_capacity(n);
    let mut i: usize = 0;
    while i < n
        invariant
            i <= n,
            r@ == Seq::new(i as nat, |j: int| 0u8),
        decreases n - i,
    {
        r.push(0);
        i = i + 1;
        assert(r@ =~= Seq::new(i as nat, |j: int| 0u8));
    }
    r
}

/// Writes `bytes` into `dst` from index `at`.
pub(crate) fn copy_into(dst: &mut Vec<u8>, at: usize, bytes: &[u8])
    requires
        at + bytes@.len() <= old(dst)@.len(),
    ensures
        final(dst)@ == overwrite(old(dst)@, at as int, bytes@),
{
    let n = bytes.len();
    let len = dst.len();
    let mut k: usize = 0;
    assert(overwrite(old(dst)@, at as int, bytes@.take(0)) =~= old(dst)@);
    while k < n
        invariant
            k <= n,
            n == bytes@.len(),
            len == old(dst)@.len(),
            at + n <= len,
            dst@ == overwrite(old(dst)@, at as int, bytes@.take(k as int)),
        decreases n - k,
    {
        let ghost before = dst@;
        dst.set(at + k, bytes[k]);
        k = k + 1;
        assert forall|j: int| 0 <= j < len implies #[trigger] dst@[j] == overwrite(
            old(dst)@,
            at as int,
            bytes@.take(k as int),
        )[j] by {
            if j != at + k - 1 {
                assert(dst@[j] == before[j]);
            }
        }
        assert(dst@ =~= overwrite(old(dst)@, at as int, bytes@.take(k as int)));
    }
    assert(bytes@.take(n as int) =~= bytes@);
}

/// The backing bytes of views: a list of byte regions, each named by its index.
///
/// A region is made once, never grows or shrinks, and lives as long as the
/// store. Every view over a region reads and writes the same bytes.
pub struct Store {
    regions: Vec<Vec<u8>>,
}

impl View for Store {
    type V = Seq<Seq<u8>>;

    closed spec fn view(&self) -> Seq<Seq<u8>> {
        Seq::new(self.regions.len() as nat, |i: int| self.regions[i]@)
    }
}

impl Store {
    /// A store with no regions.
    pub fn new() -> (r: Store)
        ensures
            r@ == Seq::<Seq<u8>>::empty(),
    {
        let r = Store { regions: Vec::new() };
        assert(r@ =~= Seq::<Seq<u8>>::empty());
        r
    }

    /// The number of regions.
    pub fn len(&self) -> (r: usize)
        ensures
            r == self@.len(),
    {
        self.regions.len()
    }

    /// Adds `bytes` as a new region, without copying them, and names it.
    pub fn add_region(&mut self, bytes: Vec<u8>) -> (id: usize)
        ensures
            final(self)@ == old(self)@.push(bytes@),
            id == old(self)@.len(),
    {
        let id = self.regions.len();
        self.regions.push(bytes);
        assert(self@ =~= old(self)@.push(bytes@));
        id
    }

    /// The bytes of region `id`.
    pub fn region(&self, id: usize) -> (r: &[u8])
        requires
            id < self@.len(),
        ensures
            r@ == self@[id as int],
    {
        self.regions[id].as_slice()
    }

    /// The byte at index `i` of region `id`.
    pub fn read(&self, id: usize, i: usize) -> (r: u8)
        requires
            id < self@.len(),
            i < self@[id as int].len(),
        ensures
            r == self@[id as int][i as int],
    {
        self.regions[id][i]
    }

    /// Writes `x` at index `i` of region `id`.
    pub fn write(&mut self, id: usize, i: usize, x: u8)
        requires
            id < old(self)@.len(),
            i < old(self)@[id as int].len(),
        ensures
            final(self)@ == old(self)@.update(id as int, old(self)@[id as int].update(i as int, x)),
    {
        self.regions[id][i] = x;
        assert(self@ =~= old(self)@.update(id as int, old(self)@[id as int].update(i as int, x)));
    }

    /// A copy of the `n` bytes of region `id` from index `at`.
    pub fn read_span(&self, id: usize, at: usize, n: usize) -> (r: Vec<u8>)
        requires
            id < self@.len(),
            at + n <= self@[id as int].len(),
        ensures
            r@ == self@[id as int].subrange(at as int, at + n),
    {
        let region = &self.regions[id];
        let mut r: Vec<u8> = Vec::with_capacity(n);
        let mut k: usize = 0;
        while k < n
            invariant
                k <= n,
                at + n <= region.len(),
                id < self@.len(),
                region@ == self@[id as int],
                r@ == region@.subrange(at as int, at + k),
            decreases n - k,
        {
            r.push(region[at + k]);
            k = k + 1;
            assert(r@ =~= region@.subrange(at as int, at + k));
        }
        r
    }

    /// Writes `bytes` into region `id` from index `at`.
    pub fn write_span(&mut self, id: usize, at: usize, bytes: &[u8])
        requires
            id < old(self)@.len(),
            at + bytes@.len() <= old(self)@[id as int].len(),
        ensures
            final(self)@ == old(self)@.update(
                id as int,
                overwrite(old(self)@[id as int], at as int, bytes@),
            ),
    {
        copy_into(&mut self.regions[id], at, bytes);
        assert(self@ =~= old(self)@.update(
            id as int,
            overwrite(old(self)@[id as int], at as int, bytes@),
        ));
    }
}

} // verus!
