//! Fixed-capacity FIFO sample store with oldest-first eviction.

use crate::ConfigurationError;
use std::collections::VecDeque;
use vstd::prelude::*;

verus! {

/// Un-growable ring buffer backed by `VecDeque`.
/// When full, pushed-back elements pop out elements from the front.
#[derive(Debug)]
pub struct RingBuffer<T> {
    capacity: usize,
    inner: VecDeque<T>,
}

/// What one push does to the contents of a buffer of capacity `capacity`:
/// the element joins at the back; if the buffer stands at capacity, the
/// front (oldest) element leaves.
pub open spec fn push_model<T>(contents: Seq<T>, capacity: nat, value: T) -> Seq<T> {
    if contents.len() < capacity {
        contents.push(value)
    } else {
        contents.drop_first().push(value)
    }
}

/// The contents after a whole sequence of pushes into an initially empty
/// buffer of capacity `capacity`.
pub open spec fn fold_pushes<T>(capacity: nat, pushes: Seq<T>) -> Seq<T>
    decreases pushes.len(),
{
    if pushes.len() == 0 {
        Seq::empty()
    } else {
        push_model(fold_pushes(capacity, pushes.drop_last()), capacity, pushes.last())
    }
}

impl<T> View for RingBuffer<T> {
    type V = Seq<T>;

    closed spec fn view(&self) -> Seq<T> {
        self.inner@
    }
}

impl<T> RingBuffer<T> {
    pub closed spec fn spec_capacity(&self) -> usize {
        self.capacity
    }

    /// Constructors establish this and every method preserves it: the
    /// capacity is positive and the length never exceeds it.
    pub open spec fn wf(&self) -> bool {
        0 < self.capacity() && self@.len() <= self.capacity()
    }

    #[verifier::when_used_as_spec(spec_capacity)]
    pub fn capacity(&self) -> (c: usize)
        ensures
            c == self.capacity(),
    {
        self.capacity
    }

    /// Construct a new buffer with the given capacity; a capacity of zero is
    /// rejected.
    pub fn new(capacity: usize) -> (r: Result<Self, ConfigurationError>)
        ensures
            match r {
                Ok(buffer) => {
                    &&& capacity > 0
                    &&& buffer.wf()
                    &&& buffer@ == Seq::<T>::empty()
                    &&& buffer.capacity() == capacity
                },
                Err(_) => capacity == 0,
            },
    {
        if capacity == 0 {
            return Err(ConfigurationError);
        }
        Ok(RingBuffer { capacity, inner: VecDeque::with_capacity(capacity) })
    }

    pub fn len(&self) -> (n: usize)
        ensures
            n == self@.len(),
    {
        self.inner.len()
    }

    pub fn is_empty(&self) -> (b: bool)
        ensures
            b == (self@.len() == 0),
    {
        self.inner.len() == 0
    }

    pub fn is_full(&self) -> (b: bool)
        ensures
            b == (self@.len() == self.capacity()),
    {
        self.inner.len() == self.capacity
    }

    /// Push a single element to the back of the buffer. If the buffer is
    /// full, pop the front-most element and return it.
    pub fn push_back(&mut self, sample: T) -> (evicted: Option<T>)
        requires
            old(self).wf(),
        ensures
            final(self).wf(),
            final(self).capacity() == old(self).capacity(),
            final(self)@ == push_model(old(self)@, old(self).capacity() as nat, sample),
            evicted == if old(self)@.len() == old(self).capacity() {
                Some(old(self)@[0])
            } else {
                None::<T>
            },
            final(self)@.len() == if old(self)@.len() < old(self).capacity() {
                old(self)@.len() as int + 1
            } else {
                old(self)@.len() as int
            },
    {
        if self.inner.len() < self.capacity {
            self.inner.push_back(sample);
            return None;
        }

        let front_element = match self.inner.pop_front() {
            Some(element) => element,
            None => {
                // The buffer is at capacity and the capacity is positive.
                proof {
                    assert(old(self)@.len() > 0);
                }
                unreached()
            },
        };

        self.inner.push_back(sample);

        Some(front_element)
    }

    /// The element at `index`, counting from the front (oldest first).
    pub fn get(&self, index: usize) -> (element: &T)
        requires
            index < self@.len(),
        ensures
            *element == self@[index as int],
    {
        &self.inner[index]
    }

    /// Resize the buffer. When downsizing, elements are popped from the
    /// front (oldest first) until the contents fit.
    pub fn set_capacity(&mut self, capacity: usize)
        requires
            old(self).wf(),
            capacity > 0,
        ensures
            final(self).wf(),
            final(self).capacity() == capacity,
            final(self)@ == old(self)@.skip(
                if old(self)@.len() <= capacity {
                    0
                } else {
                    old(self)@.len() - capacity
                },
            ),
    {
        self.capacity = capacity;
        proof {
            assert(old(self)@.skip(0) =~= old(self)@);
        }
        while self.inner.len() > capacity
            invariant
                self.capacity == capacity,
                self.inner@.len() <= old(self)@.len(),
                self.inner@ == old(self)@.skip(old(self)@.len() - self.inner@.len()),
                self.inner@.len() >= capacity || self.inner@.len() == old(self)@.len(),
            decreases self.inner@.len(),
        {
            let ghost before_pop: int = old(self)@.len() - self.inner@.len();
            self.inner.pop_front();
            proof {
                assert(old(self)@.skip(before_pop).subrange(
                    1,
                    old(self)@.skip(before_pop).len() as int,
                ) =~= old(self)@.skip(before_pop + 1));
            }
        }
        proof {
            let expected: int = if old(self)@.len() <= capacity {
                0
            } else {
                old(self)@.len() - capacity
            };
            assert(old(self)@.skip(old(self)@.len() - self.inner@.len()) =~= old(self)@.skip(
                expected,
            ));
        }
    }
}

impl<T: Copy> RingBuffer<T> {
    /// The buffered elements in front-to-back order (oldest to newest).
    pub fn iter(&self) -> (elements: Vec<T>)
        ensures
            elements@ == self@,
    {
        let mut elements: Vec<T> = Vec::new();
        let length = self.inner.len();
        for i in 0..length
            invariant
                length == self@.len(),
                elements@ =~= self@.subrange(0, i as int),
        {
            elements.push(*self.get(i));
            proof {
                assert(elements@ =~= self@.subrange(0, i + 1));
            }
        }
        proof {
            assert(self@.subrange(0, self@.len() as int) =~= self@);
        }
        elements
    }

    /// An independent copy with the same capacity and the same contents.
    pub fn snapshot(&self) -> (copy: Self)
        requires
            self.wf(),
        ensures
            copy.wf(),
            copy@ == self@,
            copy.capacity() == self.capacity(),
    {
        let mut copy = RingBuffer { capacity: self.capacity, inner: VecDeque::new() };
        let length = self.inner.len();
        for i in 0..length
            invariant
                length == self@.len(),
                copy.capacity == self.capacity(),
                copy.inner@ =~= self@.subrange(0, i as int),
        {
            let element = *self.get(i);
            copy.inner.push_back(element);
            proof {
                assert(copy.inner@ =~= self@.subrange(0, i + 1));
            }
        }
        proof {
            assert(self@.subrange(0, self@.len() as int) =~= self@);
        }
        copy
    }
}

/// One push advances the folded history by one step: what
/// [`RingBuffer::push_back`] does to the contents (a [`push_model`] step)
/// is exactly what extending the push sequence by one value does to
/// [`fold_pushes`].
pub proof fn lemma_fold_pushes_step<T>(capacity: nat, pushes: Seq<T>, value: T)
    ensures
        fold_pushes(capacity, pushes.push(value)) == push_model(
            fold_pushes(capacity, pushes),
            capacity,
            value,
        ),
{
    assert(pushes.push(value).drop_last() =~= pushes);
}

/// The law of bounded FIFO histories: however many values are pushed into an
/// initially empty buffer of capacity `capacity`, the contents never exceed
/// `capacity` elements; and once at least `capacity` values have been pushed,
/// the buffer holds exactly the `capacity` most recently pushed values, in
/// push order.
pub proof fn lemma_fold_pushes<T>(capacity: nat, pushes: Seq<T>)
    requires
        capacity > 0,
    ensures
        fold_pushes(capacity, pushes).len() <= capacity,
        pushes.len() < capacity ==> fold_pushes(capacity, pushes) == pushes,
        pushes.len() >= capacity ==> fold_pushes(capacity, pushes) == pushes.skip(
            pushes.len() - capacity,
        ),
    decreases pushes.len(),
{
    if pushes.len() == 0 {
        assert(fold_pushes(capacity, pushes) =~= pushes);
    } else {
        let rest = pushes.drop_last();
        lemma_fold_pushes(capacity, rest);
        let folded_rest = fold_pushes(capacity, rest);
        if rest.len() < capacity {
            assert(folded_rest.push(pushes.last()) =~= pushes.skip(
                if pushes.len() < capacity {
                    0
                } else {
                    pushes.len() - capacity
                },
            ));
        } else {
            assert(folded_rest.len() == capacity);
            assert(folded_rest.drop_first().push(pushes.last()) =~= pushes.skip(
                pushes.len() - capacity,
            ));
        }
        if pushes.len() < capacity {
            assert(fold_pushes(capacity, pushes) =~= pushes);
        }
    }
}

} // verus!
