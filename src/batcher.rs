use vstd::prelude::*;

verus! {

/// A batch of events taken from a batcher, with their features laid end to end.
pub struct Batch<E, F> {
    pub features: Vec<F>,
    pub events: Vec<E>,
}

/// The state of a batcher as mathematical values.
pub struct BatcherView<E, F> {
    pub features: Seq<F>,
    pub events: Seq<E>,
    pub num_batches: int,
    pub max_batch_size: int,
    pub max_batches: int,
    pub feature_size: int,
}

/// Where the pending list is cut when a batch is taken: the last
/// `max_batch_size` events go, or all of them when there are fewer.
pub open spec fn split_index(len: int, max_batch_size: int) -> int {
    if len >= max_batch_size {
        len - max_batch_size
    } else {
        0
    }
}

impl<E, F> BatcherView<E, F> {
    /// Every pending event has `feature_size` features, in the same order.
    pub open spec fn wf(self) -> bool {
        &&& self.feature_size >= 0
        &&& self.features.len() == self.events.len() * self.feature_size
        &&& 0 <= self.num_batches
    }
}

/// Gathers events and their features until there are enough for a batch, and
/// bounds the number of batches that are being evaluated at the same time.
pub struct Batcher<E, F> {
    features: Vec<F>,
    events: Vec<E>,
    num_batches: usize,
    max_batch_size: usize,
    max_batches: usize,
    feature_size: usize,
}

impl<E, F> View for Batcher<E, F> {
    type V = BatcherView<E, F>;

    closed spec fn view(&self) -> BatcherView<E, F> {
        BatcherView {
            features: self.features@,
            events: self.events@,
            num_batches: self.num_batches as int,
            max_batch_size: self.max_batch_size as int,
            max_batches: self.max_batches as int,
            feature_size: self.feature_size as int,
        }
    }
}

proof fn lemma_mul_succ(n: int, k: int)
    ensures
        (n + 1) * k == n * k + k,
{
    assert((n + 1) * k == n * k + k) by (nonlinear_arith);
}

proof fn lemma_mul_le(a: int, b: int, k: int)
    requires
        0 <= a <= b,
        0 <= k,
    ensures
        a * k <= b * k,
        (b - a) * k == b * k - a * k,
{
    assert(a * k <= b * k) by (nonlinear_arith)
        requires
            0 <= a <= b,
            0 <= k,
    ;
    assert((b - a) * k == b * k - a * k) by (nonlinear_arith);
}

impl<E, F> Batcher<E, F> {
    /// An empty batcher that makes batches of at most `max_batch_size` events,
    /// allows `max_batches` batches out at a time, and expects `feature_size`
    /// features with each event.
    pub fn new(max_batch_size: usize, max_batches: usize, feature_size: usize) -> (r: Self)
        ensures
            r@.wf(),
            r@.events.len() == 0,
            r@.features.len() == 0,
            r@.num_batches == 0,
            r@.max_batch_size == max_batch_size,
            r@.max_batches == max_batches,
            r@.feature_size == feature_size,
    {
        Batcher {
            features: Vec::new(),
            events: Vec::new(),
            num_batches: 0,
            max_batch_size,
            max_batches,
            feature_size,
        }
    }

    /// The number of pending events.
    pub fn len(&self) -> (r: usize)
        ensures
            r == self@.events.len(),
    {
        self.events.len()
    }

    /// The number of batches taken and not yet released.
    pub fn num_batches(&self) -> (r: usize)
        ensures
            r == self@.num_batches,
    {
        self.num_batches
    }

    pub fn max_batch_size(&self) -> (r: usize)
        ensures
            r == self@.max_batch_size,
    {
        self.max_batch_size
    }

    /// Appends an event and its features to the pending list.
    pub fn push(&mut self, event: E, features: Vec<F>)
        requires
            old(self)@.wf(),
            features@.len() == old(self)@.feature_size,
        ensures
            final(self)@.wf(),
            final(self)@ == (BatcherView {
                events: old(self)@.events.push(event),
                features: old(self)@.features + features@,
                ..old(self)@
            }),
    {
        let mut features = features;
        proof {
            lemma_mul_succ(self@.events.len() as int, self@.feature_size);
        }
        self.features.append(&mut features);
        self.events.push(event);
    }

    /// Takes a batch of the most recently pushed events, when fewer than
    /// `max_batches` batches are out and at least `min_batch_size` events are
    /// pending; otherwise nothing changes.
    pub fn get_batch(&mut self, min_batch_size: usize) -> (r: Option<Batch<E, F>>)
        requires
            old(self)@.wf(),
        ensures
            final(self)@.wf(),
            r.is_some() <==> (old(self)@.num_batches < old(self)@.max_batches
                && old(self)@.events.len() >= min_batch_size),
            r.is_none() ==> final(self)@ == old(self)@,
            r.is_some() ==> {
                let n = old(self)@.events.len() as int;
                let s = split_index(n, old(self)@.max_batch_size);
                let k = old(self)@.feature_size;
                &&& final(self)@ == (BatcherView {
                    events: old(self)@.events.subrange(0, s),
                    features: old(self)@.features.subrange(0, s * k),
                    num_batches: old(self)@.num_batches + 1,
                    ..old(self)@
                })
                &&& r->0.events@ == old(self)@.events.subrange(s, n)
                &&& r->0.features@ == old(self)@.features.subrange(s * k, n * k)
            },
    {
        if self.num_batches >= self.max_batches {
            return None;
        }
        let size = self.events.len();
        if size < min_batch_size {
            return None;
        }
        let split = if size >= self.max_batch_size {
            size - self.max_batch_size
        } else {
            0
        };
        let num_features = self.features.len();
        proof {
            lemma_mul_le(split as int, size as int, self@.feature_size);
            assert(split * self.feature_size <= num_features);
        }
        let features = self.features.split_off(split * self.feature_size);
        let events = self.events.split_off(split);
        self.num_batches = self.num_batches + 1;
        Some(Batch { features, events })
    }

    /// Appends an event and its features, then takes a full batch if one can be
    /// had.
    pub fn push_and_get_batch(&mut self, event: E, features: Vec<F>) -> (r: Option<Batch<E, F>>)
        requires
            old(self)@.wf(),
            features@.len() == old(self)@.feature_size,
        ensures
            final(self)@.wf(),
            r.is_some() <==> (old(self)@.num_batches < old(self)@.max_batches
                && old(self)@.events.len() + 1 >= old(self)@.max_batch_size),
            r.is_none() ==> final(self)@ == (BatcherView {
                events: old(self)@.events.push(event),
                features: old(self)@.features + features@,
                ..old(self)@
            }),
            r.is_some() ==> {
                let all_events = old(self)@.events.push(event);
                let all_features = old(self)@.features + features@;
                let n = all_events.len() as int;
                let s = split_index(n, old(self)@.max_batch_size);
                let k = old(self)@.feature_size;
                &&& final(self)@ == (BatcherView {
                    events: all_events.subrange(0, s),
                    features: all_features.subrange(0, s * k),
                    num_batches: old(self)@.num_batches + 1,
                    ..old(self)@
                })
                &&& r->0.events@ == all_events.subrange(s, n)
                &&& r->0.features@ == all_features.subrange(s * k, n * k)
            },
    {
        self.push(event, features);
        let m = self.max_batch_size;
        self.get_batch(m)
    }

    /// Marks a batch as evaluated, which frees its place.
    pub fn release_batch(&mut self)
        requires
            old(self)@.wf(),
            old(self)@.num_batches > 0,
        ensures
            final(self)@.wf(),
            final(self)@ == (BatcherView { num_batches: old(self)@.num_batches - 1, ..old(self)@ }),
    {
        self.num_batches = self.num_batches - 1;
    }
}

} // verus!
