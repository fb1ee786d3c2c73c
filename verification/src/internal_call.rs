//! The callback bridge: native functions exposed to managed code.
//!
//! Managed code reaches native code through internal calls: a fully
//! qualified signature string (`"Namespace.Class::Method"`) is mapped to a
//! native function's address, and the runtime calls that address instead of
//! executing managed bytecode. Registration is valid only while the runtime
//! is running; registering the same signature twice keeps the last writer,
//! as the runtime itself does.
//!
//! A managed array reaching a native callback arrives as an opaque handle
//! with a rank, per-dimension lengths and an element stride; every element
//! access goes through the bounds-checked offset computation here, because
//! the runtime checks nothing on that path.

use vstd::prelude::*;
use vstd::utf8::{decode_utf8, encode_utf8};
use crate::error::CallError;
use crate::handle::DomainToken;
use crate::jit::Runtime;

verus! {

/// True when `bs` (the UTF-8 bytes of a signature string) splits at `i`
/// into a non-empty qualified class path, the two-colon separator, and a
/// non-empty method name, with no other colon anywhere.
pub open spec fn sig_split_at(bs: Seq<u8>, i: int) -> bool {
    &&& 1 <= i
    &&& i + 2 < bs.len()
    &&& bs[i] == 0x3au8
    &&& bs[i + 1] == 0x3au8
    &&& forall|j: int| 0 <= j < i ==> bs[j] != 0x3au8
    &&& forall|j: int| i + 2 <= j < bs.len() ==> bs[j] != 0x3au8
}

/// True when the bytes form a well-shaped internal-call signature:
/// `<path>::<method>` with both sides non-empty and exactly one separator.
pub open spec fn valid_signature_bytes(bs: Seq<u8>) -> bool {
    exists|i: int| sig_split_at(bs, i)
}

/// Position of the first colon byte, or the length when there is none.
fn first_colon(bs: &[u8]) -> (r: usize)
    ensures
        r <= bs@.len(),
        forall|j: int| 0 <= j < r ==> bs@[j] != 0x3au8,
        r < bs@.len() ==> bs@[r as int] == 0x3au8,
{
    let n = bs.len();
    let mut i: usize = 0;
    while i < n
        invariant
            i <= n,
            n == bs@.len(),
            forall|j: int| 0 <= j < i ==> bs@[j] != 0x3au8,
        decreases n - i,
    {
        if bs[i] == 0x3a {
            return i;
        }
        i = i + 1;
    }
    n
}

/// Finds the separator of an internal-call signature: present exactly when
/// the signature is well shaped, and then the returned byte position (into
/// the signature's UTF-8 encoding) carries the split.
pub fn find_signature_split(sig: &str) -> (r: Option<usize>)
    ensures
        r is Some <==> valid_signature_bytes(encode_utf8(sig@)),
        r is Some ==> sig_split_at(encode_utf8(sig@), r.unwrap() as int),
{
    let bs = sig.as_bytes();
    let n = bs.len();
    let ghost bseq = encode_utf8(sig@);
    let i = first_colon(bs);
    if i >= n {
        // No colon at all: no split position can satisfy the shape.
        proof {
            assert forall|k: int| !sig_split_at(bseq, k) by {
                if 0 <= k < n {
                    assert(bseq[k] != 0x3au8);
                }
            }
        }
        return None;
    }
    // The first colon must start the separator, not end the path's first
    // byte, and must leave room for a method name.
    if i < 1 || n - i < 3 || bs[i + 1] != 0x3a {
        proof {
            assert forall|k: int| !sig_split_at(bseq, k) by {
                if 0 <= k < i {
                    assert(bseq[k] != 0x3au8);
                }
                if k > i {
                    assert(bseq[i as int] == 0x3au8);
                }
            }
        }
        return None;
    }
    // Nothing after the separator may be another colon.
    let mut j: usize = i + 2;
    while j < n
        invariant
            i + 2 <= j <= n,
            n == bseq.len(),
            bs@ == bseq,
            bseq == encode_utf8(sig@),
            bseq[i as int] == 0x3au8,
            bseq[i + 1] == 0x3au8,
            1 <= i && i + 2 < n,
            forall|k: int| 0 <= k < i ==> bseq[k] != 0x3au8,
            forall|k: int| i + 2 <= k < j ==> bseq[k] != 0x3au8,
        decreases n - j,
    {
        if bs[j] == 0x3a {
            proof {
                assert forall|k: int| !sig_split_at(bseq, k) by {
                    if 0 <= k < i {
                        assert(bseq[k] != 0x3au8);
                    }
                    if k == i {
                        assert(bseq[j as int] == 0x3au8);
                    }
                    if k > i {
                        assert(bseq[i as int] == 0x3au8);
                    }
                }
            }
            return None;
        }
        j = j + 1;
    }
    proof {
        assert(sig_split_at(bseq, i as int));
    }
    Some(i)
}

/// Compares two strings by their UTF-8 bytes; equal bytes mean equal text.
fn str_eq(a: &str, b: &str) -> (r: bool)
    ensures
        r == (a@ == b@),
{
    let ab = a.as_bytes();
    let bb = b.as_bytes();
    if ab.len() != bb.len() {
        proof {
            assert(a@ != b@);
        }
        return false;
    }
    let n = ab.len();
    let mut i: usize = 0;
    while i < n
        invariant
            i <= n,
            n == ab@.len() == bb@.len(),
            ab@ == encode_utf8(a@),
            bb@ == encode_utf8(b@),
            forall|k: int| 0 <= k < i ==> ab@[k] == bb@[k],
        decreases n - i,
    {
        if ab[i] != bb[i] {
            proof {
                assert(encode_utf8(a@) != encode_utf8(b@));
            }
            return false;
        }
        i = i + 1;
    }
    proof {
        broadcast use vstd::utf8::encode_utf8_decode_utf8;

        assert(ab@ =~= bb@);
        assert(a@ == decode_utf8(encode_utf8(a@)) && b@ == decode_utf8(encode_utf8(b@)));
    }
    true
}

/// The process-wide table mapping internal-call signatures to native
/// function addresses. A later registration of the same signature wins, as
/// it does in the runtime itself.
pub struct IcallRegistry {
    entries: Vec<(String, usize)>,
}

/// The address registered for `sig` in `entries`, taking the latest entry.
pub open spec fn lookup_in(entries: Seq<(String, usize)>, sig: Seq<char>) -> Option<usize>
    decreases entries.len(),
{
    if entries.len() == 0 {
        None
    } else if entries.last().0@ == sig {
        Some(entries.last().1)
    } else {
        lookup_in(entries.drop_last(), sig)
    }
}

impl IcallRegistry {
    /// The registration history, earliest first.
    pub closed spec fn entries_spec(&self) -> Seq<(String, usize)> {
        self.entries@
    }

    /// The address currently registered for `sig`.
    pub open spec fn lookup_spec(&self, sig: Seq<char>) -> Option<usize> {
        lookup_in(self.entries_spec(), sig)
    }

    /// An empty table: nothing is registered.
    pub fn new() -> (r: IcallRegistry)
        ensures
            r.entries_spec().len() == 0,
            forall|sig: Seq<char>| r.lookup_spec(sig) is None,
    {
        IcallRegistry { entries: Vec::new() }
    }

    /// Registers `fn_addr` as the native implementation of the managed
    /// method named by `sig`.
    ///
    /// Succeeds exactly when the runtime is running, the signature is well
    /// shaped and the address is not null. Afterwards `sig` resolves to
    /// `fn_addr` — a second registration of the same signature wins over
    /// the first — and every other signature resolves as before.
    pub fn register(&mut self, rt: &Runtime, sig: &str, fn_addr: usize) -> (r: Result<
        (),
        CallError,
    >)
        ensures
            r is Ok <==> rt.state_spec() is Running && valid_signature_bytes(encode_utf8(sig@))
                && fn_addr != 0,
            r is Ok ==> final(self).lookup_spec(sig@) == Some(fn_addr),
            r is Ok ==> forall|other: Seq<char>|
                other != sig@ ==> #[trigger] final(self).lookup_spec(other) == old(
                    self,
                ).lookup_spec(other),
            r is Err ==> *final(self) == *old(self),
            !(rt.state_spec() is Running) ==> r is Err,
            rt.state_spec() is Running && !valid_signature_bytes(encode_utf8(sig@)) ==> r
                == Err::<(), CallError>(CallError::InvalidOperation),
            rt.state_spec() is Running && valid_signature_bytes(encode_utf8(sig@)) && fn_addr == 0
                ==> r == Err::<(), CallError>(CallError::InvalidOperation),
    {
        if !rt.is_running() {
            if rt.can_init() {
                return Err(CallError::NotStarted);
            }
            return Err(CallError::ShutDown);
        }
        if find_signature_split(sig).is_none() {
            return Err(CallError::InvalidOperation);
        }
        if fn_addr == 0 {
            return Err(CallError::InvalidOperation);
        }
        let owned = sig.to_owned();
        self.entries.push((owned, fn_addr));
        proof {
            let post = self.entries@;
            assert(post.last().0@ == sig@);
            assert(self.lookup_spec(sig@) == Some(fn_addr));
            assert forall|other: Seq<char>|
                other != sig@ implies #[trigger] lookup_in(post, other) == lookup_in(
                old(self).entries@,
                other,
            ) by {
                assert(post.drop_last() =~= old(self).entries@);
            }
        }
        Ok(())
    }

    /// The address currently registered for `sig`, or nothing; takes the
    /// latest registration of the signature.
    pub fn lookup(&self, sig: &str) -> (r: Option<usize>)
        ensures
            r == self.lookup_spec(sig@),
    {
        let n = self.entries.len();
        let mut i: usize = n;
        proof {
            assert(self.entries@.take(n as int) =~= self.entries@);
        }
        while i > 0
            invariant
                i <= n,
                n == self.entries@.len(),
                lookup_in(self.entries@, sig@) == lookup_in(self.entries@.take(i as int), sig@),
            decreases i,
        {
            i = i - 1;
            let hit = str_eq(self.entries[i].0.as_str(), sig);
            proof {
                let pre = self.entries@.take(i + 1);
                assert(pre.last() == self.entries@[i as int]);
                assert(pre.drop_last() =~= self.entries@.take(i as int));
            }
            if hit {
                proof {
                    let pre = self.entries@.take(i + 1);
                    assert(lookup_in(pre, sig@) == Some(pre.last().1));
                }
                return Some(self.entries[i].1);
            }
        }
        proof {
            assert(self.entries@.take(0) =~= Seq::<(String, usize)>::empty());
        }
        None
    }
}

/// The number of elements of an array whose per-dimension lengths are
/// `lengths`: their product (one for an empty sequence of dimensions).
pub open spec fn product(lengths: Seq<usize>) -> int
    decreases lengths.len(),
{
    if lengths.len() == 0 {
        1
    } else {
        product(lengths.drop_last()) * lengths.last()
    }
}

/// The row-major position of the element at multi-index `index` inside an
/// array with per-dimension lengths `lengths`.
pub open spec fn flat_index(lengths: Seq<usize>, index: Seq<usize>) -> int
    recommends
        index.len() == lengths.len(),
    decreases index.len(),
{
    if index.len() == 0 {
        0
    } else {
        flat_index(lengths.drop_last(), index.drop_last()) * (lengths.last() as int)
            + index.last()
    }
}

/// With every length at least one, the element count only grows as
/// dimensions are appended: the count over a prefix of the dimensions is
/// at least one and at most the whole count.
pub proof fn lemma_product_prefix_bound(lengths: Seq<usize>, d: int)
    requires
        0 <= d <= lengths.len(),
        forall|k: int| 0 <= k < lengths.len() ==> lengths[k] >= 1,
    ensures
        1 <= product(lengths.take(d)),
        product(lengths.take(d)) <= product(lengths),
    decreases lengths.len() - d,
{
    if d == lengths.len() {
        assert(lengths.take(d) =~= lengths);
        lemma_product_at_least_one(lengths);
    } else {
        lemma_product_prefix_bound(lengths, d + 1);
        let p = product(lengths.take(d));
        let l = lengths[d] as int;
        assert(lengths.take(d + 1).drop_last() =~= lengths.take(d));
        assert(lengths.take(d + 1).last() == lengths[d]);
        assert(product(lengths.take(d + 1)) == p * l);
        lemma_product_at_least_one(lengths.take(d));
        assert(p <= p * l) by (nonlinear_arith)
            requires
                p >= 1,
                l >= 1,
        ;
    }
}

/// With every length at least one, the element count is at least one.
pub proof fn lemma_product_at_least_one(lengths: Seq<usize>)
    requires
        forall|k: int| 0 <= k < lengths.len() ==> lengths[k] >= 1,
    ensures
        product(lengths) >= 1,
    decreases lengths.len(),
{
    if lengths.len() > 0 {
        lemma_product_at_least_one(lengths.drop_last());
        let p = product(lengths.drop_last());
        let l = lengths.last() as int;
        assert(p * l >= 1) by (nonlinear_arith)
            requires
                p >= 1,
                l >= 1,
        ;
    }
}

/// An element count is never negative, and it is zero exactly when some
/// dimension has length zero.
pub proof fn lemma_product_zero(lengths: Seq<usize>)
    ensures
        product(lengths) >= 0,
        product(lengths) == 0 <==> exists|k: int| 0 <= k < lengths.len() && lengths[k] == 0,
    decreases lengths.len(),
{
    if lengths.len() == 0 {
    } else {
        lemma_product_zero(lengths.drop_last());
        let p = product(lengths.drop_last());
        let l = lengths.last() as int;
        assert(p * l >= 0 && (p * l == 0 <==> p == 0 || l == 0)) by (nonlinear_arith)
            requires
                p >= 0,
                l >= 0,
        ;
        if product(lengths) == 0 {
            if l == 0 {
                assert(lengths[lengths.len() - 1] == 0);
            } else {
                let k = choose|k: int|
                    0 <= k < lengths.drop_last().len() && lengths.drop_last()[k] == 0;
                assert(lengths[k] == 0);
            }
        } else {
            assert forall|k: int| 0 <= k < lengths.len() implies lengths[k] != 0 by {
                if k < lengths.len() - 1 {
                    assert(lengths.drop_last()[k] != 0);
                }
            }
        }
    }
}

/// A managed array handed to a native callback: an opaque handle together
/// with the shape the runtime reported for it. Every element access is
/// bounds-checked here — the runtime checks nothing on this path.
#[derive(Debug)]
pub struct ManagedArray {
    ptr: usize,
    origin: DomainToken,
    lengths: Vec<usize>,
    stride: usize,
    total: usize,
}

impl ManagedArray {
    /// The wrapped foreign pointer.
    pub closed spec fn raw(&self) -> usize {
        self.ptr
    }

    /// The domain this array lives in.
    pub closed spec fn origin(&self) -> DomainToken {
        self.origin
    }

    /// The per-dimension lengths; the rank is their number.
    pub closed spec fn lengths_spec(&self) -> Seq<usize> {
        self.lengths@
    }

    /// The stride between elements, in bytes.
    pub closed spec fn stride_spec(&self) -> usize {
        self.stride
    }

    /// The number of elements.
    pub closed spec fn total_spec(&self) -> usize {
        self.total
    }

    /// A present array has a non-null handle, at least one dimension, a
    /// positive stride, an element count that is the product of its
    /// lengths, and a byte size that fits the native address space.
    pub open spec fn wf(&self) -> bool {
        &&& self.raw() != 0
        &&& self.lengths_spec().len() >= 1
        &&& self.stride_spec() >= 1
        &&& self.total_spec() == product(self.lengths_spec())
        &&& self.total_spec() * self.stride_spec() <= usize::MAX
    }

    /// Absorbs the shape the runtime reported for an array argument: its
    /// handle, per-dimension lengths and element stride.
    ///
    /// Succeeds exactly when the handle is not null, there is at least one
    /// dimension, the stride is positive, and the array's byte size fits
    /// the native address space; a shape outside those bounds cannot be
    /// addressed safely on this side.
    pub fn from_raw(raw: usize, origin: DomainToken, lengths: Vec<usize>, stride: usize) -> (r:
        Result<ManagedArray, CallError>)
        ensures
            r is Ok <==> raw != 0 && lengths@.len() >= 1 && stride >= 1 && product(lengths@)
                * stride <= usize::MAX,
            r is Ok ==> {
                &&& r->Ok_0.raw() == raw
                &&& r->Ok_0.origin() == origin
                &&& r->Ok_0.lengths_spec() == lengths@
                &&& r->Ok_0.stride_spec() == stride
                &&& r->Ok_0.total_spec() == product(lengths@)
                &&& r->Ok_0.wf()
            },
    {
        if raw == 0 || lengths.len() < 1 || stride < 1 {
            return Err(CallError::ForeignContract);
        }
        // A zero-length dimension makes the array empty: its element count
        // is zero and every shape fits.
        let n = lengths.len();
        let mut d: usize = 0;
        while d < n
            invariant
                d <= n,
                n == lengths@.len(),
                n >= 1,
                raw != 0,
                stride >= 1,
                forall|k: int| 0 <= k < d ==> lengths@[k] >= 1,
            decreases n - d,
        {
            if lengths[d] == 0 {
                proof {
                    lemma_product_zero(lengths@);
                    assert(0 <= d < lengths@.len() && lengths@[d as int] == 0);
                    assert(product(lengths@) == 0);
                }
                return Ok(
                    ManagedArray { ptr: raw, origin, lengths, stride, total: 0 },
                );
            }
            d = d + 1;
        }
        // Every length is positive: multiply them up, watching for
        // overflow of the element count and of the byte size.
        let mut total: usize = 1;
        let mut d: usize = 0;
        proof {
            assert(lengths@.take(0) =~= Seq::<usize>::empty());
        }
        while d < n
            invariant
                d <= n,
                n == lengths@.len(),
                n >= 1,
                raw != 0,
                stride >= 1,
                forall|k: int| 0 <= k < n ==> lengths@[k] >= 1,
                total == product(lengths@.take(d as int)),
            decreases n - d,
        {
            let next = match total.checked_mul(lengths[d]) {
                Some(t) => t,
                None => {
                    proof {
                        assert(lengths@.take(d + 1).drop_last() =~= lengths@.take(d as int));
                        assert(product(lengths@.take(d + 1)) == total * lengths@[d as int]);
                        lemma_product_prefix_bound(lengths@, d + 1);
                        assert(product(lengths@) * stride > usize::MAX) by (nonlinear_arith)
                            requires
                                product(lengths@) >= product(lengths@.take(d + 1)),
                                product(lengths@.take(d + 1)) > usize::MAX,
                                stride >= 1,
                        ;
                    }
                    return Err(CallError::ForeignContract);
                },
            };
            proof {
                assert(lengths@.take(d + 1).drop_last() =~= lengths@.take(d as int));
                assert(product(lengths@.take(d + 1)) == total * lengths@[d as int]);
            }
            total = next;
            d = d + 1;
        }
        proof {
            assert(lengths@.take(n as int) =~= lengths@);
        }
        match total.checked_mul(stride) {
            Some(_) => Ok(ManagedArray { ptr: raw, origin, lengths, stride, total }),
            None => Err(CallError::ForeignContract),
        }
    }

    /// A pure projection of the wrapped pointer; never null.
    pub fn get_ptr(&self) -> (r: usize)
        requires
            self.wf(),
        ensures
            r == self.raw(),
            r != 0,
    {
        self.ptr
    }

    /// The number of dimensions.
    pub fn get_rank(&self) -> (r: usize)
        ensures
            r == self.lengths_spec().len(),
    {
        self.lengths.len()
    }

    /// The number of elements.
    pub fn len(&self) -> (r: usize)
        ensures
            r == self.total_spec(),
    {
        self.total
    }

    /// The length of dimension `d`; absent when there is no such
    /// dimension.
    pub fn dim_length(&self, d: usize) -> (r: Option<usize>)
        ensures
            r is Some <==> d < self.lengths_spec().len(),
            r is Some ==> r.unwrap() == self.lengths_spec()[d as int],
    {
        if d < self.lengths.len() {
            Some(self.lengths[d])
        } else {
            None
        }
    }

    /// The byte offset of the element at `index`, bounds-checked.
    ///
    /// Succeeds exactly when the multi-index has one position per
    /// dimension and every position is below its dimension's length; the
    /// offset is then the row-major element position times the stride,
    /// and the element lies wholly inside the array's bytes. An index
    /// outside the bounds is a reported error, never an out-of-bounds
    /// address.
    pub fn element_offset(&self, index: &Vec<usize>) -> (r: Result<usize, CallError>)
        requires
            self.wf(),
        ensures
            r is Ok <==> index@.len() == self.lengths_spec().len() && (forall|d: int|
                0 <= d < index@.len() ==> index@[d] < self.lengths_spec()[d]),
            r is Ok ==> r->Ok_0 == flat_index(self.lengths_spec(), index@) * self.stride_spec(),
            r is Ok ==> r->Ok_0 + self.stride_spec() <= self.total_spec() * self.stride_spec(),
            r is Err ==> r->Err_0 == CallError::IndexOutOfBounds,
    {
        let n = self.lengths.len();
        if index.len() != n {
            return Err(CallError::IndexOutOfBounds);
        }
        let mut d: usize = 0;
        while d < n
            invariant
                d <= n,
                n == self.lengths@.len() == index@.len(),
                forall|k: int| 0 <= k < d ==> index@[k] < self.lengths@[k],
            decreases n - d,
        {
            if index[d] >= self.lengths[d] {
                return Err(CallError::IndexOutOfBounds);
            }
            d = d + 1;
        }
        // Row-major accumulation; every intermediate value stays below the
        // element count, so nothing overflows.
        let mut acc: usize = 0;
        let mut d: usize = 0;
        proof {
            assert(self.lengths@.take(0) =~= Seq::<usize>::empty());
            assert(index@.take(0) =~= Seq::<usize>::empty());
            assert forall|k: int| 0 <= k < self.lengths@.len() implies self.lengths@[k] >= 1 by {
                assert(index@[k] < self.lengths@[k]);
            }
            lemma_product_prefix_bound(self.lengths@, 0);
        }
        while d < n
            invariant
                d <= n,
                n == self.lengths@.len() == index@.len(),
                self.wf(),
                forall|k: int| 0 <= k < n ==> index@[k] < self.lengths@[k],
                acc == flat_index(self.lengths@.take(d as int), index@.take(d as int)),
                acc < product(self.lengths@.take(d as int)),
                product(self.lengths@.take(d as int)) <= self.total_spec(),
            decreases n - d,
        {
            let ghost lt = self.lengths@.take(d as int);
            let ghost lt1 = self.lengths@.take(d + 1);
            let ghost it = index@.take(d as int);
            let ghost it1 = index@.take(d + 1);
            let l = self.lengths[d];
            let ix = index[d];
            proof {
                assert(lt1.drop_last() =~= lt);
                assert(it1.drop_last() =~= it);
                assert(lt1.last() == l && it1.last() == ix);
                assert(product(lt1) == product(lt) * l);
                assert(flat_index(lt1, it1) == acc * l + ix);
                assert forall|k: int| 0 <= k < self.lengths@.len() implies self.lengths@[k]
                    >= 1 by {
                    assert(index@[k] < self.lengths@[k]);
                }
                lemma_product_prefix_bound(self.lengths@, d + 1);
                assert(acc * l + ix < product(lt) * l) by (nonlinear_arith)
                    requires
                        acc < product(lt),
                        ix < l,
                        0 <= ix,
                        0 <= acc,
                        1 <= l,
                ;
                assert(product(lt1) <= self.total_spec());
                assert(self.total_spec() <= usize::MAX) by (nonlinear_arith)
                    requires
                        self.total_spec() * self.stride_spec() <= usize::MAX,
                        self.stride_spec() >= 1,
                        self.total_spec() >= 0,
                ;
            }
            acc = acc * l + ix;
            d = d + 1;
        }
        proof {
            assert(self.lengths@.take(n as int) =~= self.lengths@);
            assert(index@.take(n as int) =~= index@);
            assert(acc * self.stride_spec() + self.stride_spec() <= self.total_spec()
                * self.stride_spec()) by (nonlinear_arith)
                requires
                    acc < self.total_spec(),
                    self.stride_spec() >= 1,
                    0 <= acc,
            ;
        }
        Ok(acc * self.stride)
    }
}

} // verus!
