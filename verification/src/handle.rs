//! The `UniquePtr` handle: sole owner of a single heap value or of a
//! contiguous sequence of values.
//!
//! A handle is in one of two states: *owning* (it holds a payload and owes
//! exactly one release of it) or *empty* (the payload has been moved out or
//! extracted, and nothing more is owed). The shape of the payload — single
//! value or sequence — is fixed when the handle is constructed and never
//! changes for the life of the handle, even across emptying.

use vstd::prelude::*;
use vstd::std_specs::cmp::PartialEqSpec;

verus! {

/// The error kinds an access or extraction can report.
///
/// Both indicate a caller bug, never a recoverable runtime condition: the
/// operations that return them say in their contracts exactly when each one
/// comes, so verified callers can rule them out.
#[derive(Clone, Copy, Debug, PartialEq, Eq, Structural)]
pub enum PtrError {
    /// An access or extraction was attempted on a handle whose payload has
    /// already been moved out or extracted.
    UseAfterMove,
    /// An extraction was requested for the shape the handle does not hold,
    /// or single-element access was requested on an empty sequence.
    ShapeMismatch,
}

/// The private storage of a handle: the variant records the shape, fixed at
/// construction, and the inner `Option` records whether the payload is still
/// held (`Some`) or has been moved out (`None`).
#[derive(Clone, Debug, Hash)]
enum Repr<T> {
    Single(Option<T>),
    Sequence(Option<Vec<T>>),
}

/// A unique pointer wrapper that supports both single values and sequences.
///
/// It owns its payload alone, releases it exactly once — when the handle is
/// dropped, explicitly released, or the payload is extracted — and after the
/// payload has left, every access fails with [`PtrError::UseAfterMove`].
///
/// Cloning a handle clones the payload into a fresh allocation owned by the
/// new handle alone; it never shares or duplicates ownership of the original
/// allocation.
#[derive(Clone, Debug, Hash)]
pub struct UniquePtr<T> {
    repr: Repr<T>,
}

impl<T> UniquePtr<T> {
    /// Whether the handle still holds its payload.
    pub closed spec fn is_owning(self) -> bool {
        match self.repr {
            Repr::Single(p) => p is Some,
            Repr::Sequence(p) => p is Some,
        }
    }

    /// Whether the handle was constructed with sequence shape.
    pub closed spec fn is_seq_shape(self) -> bool {
        self.repr is Sequence
    }

    /// The single owned value; meaningful only when the handle is owning
    /// and single-shaped.
    pub closed spec fn value(self) -> T {
        self.repr->Single_0->Some_0
    }

    /// The owned sequence; meaningful only when the handle is owning and
    /// sequence-shaped.
    pub closed spec fn elems(self) -> Seq<T> {
        self.repr->Sequence_0->Some_0@
    }

    /// The handle as it stands after its payload has been released or moved
    /// out: same shape, nothing held.
    pub closed spec fn released(self) -> Self {
        match self.repr {
            Repr::Single(_) => UniquePtr { repr: Repr::Single(None) },
            Repr::Sequence(_) => UniquePtr { repr: Repr::Sequence(None) },
        }
    }

    /// Creates a new instance of `UniquePtr`: evaluates the factory once and
    /// takes sole ownership of its result, single shape.
    pub fn new<F: FnOnce() -> T>(factory: F) -> (r: Self)
        requires
            call_requires(factory, ()),
        ensures
            r.is_owning(),
            !r.is_seq_shape(),
            call_ensures(factory, (), r.value()),
    {
        UniquePtr { repr: Repr::Single(Some(factory())) }
    }

    /// The outcome every read access is specified to produce: the single
    /// value, or the first element of the sequence, and the exact error
    /// otherwise.
    pub open spec fn read_result(self) -> Result<T, PtrError> {
        if !self.is_owning() {
            Err(PtrError::UseAfterMove)
        } else if !self.is_seq_shape() {
            Ok(self.value())
        } else if self.elems().len() > 0 {
            Ok(self.elems()[0])
        } else {
            Err(PtrError::ShapeMismatch)
        }
    }

    /// The outcome single-value extraction is specified to produce.
    pub open spec fn single_extraction_result(self) -> Result<T, PtrError> {
        if self.is_seq_shape() {
            Err(PtrError::ShapeMismatch)
        } else if !self.is_owning() {
            Err(PtrError::UseAfterMove)
        } else {
            Ok(self.value())
        }
    }

    /// The outcome sequence extraction is specified to produce.
    pub open spec fn sequence_extraction_result(self) -> Result<Seq<T>, PtrError> {
        if !self.is_seq_shape() {
            Err(PtrError::ShapeMismatch)
        } else if !self.is_owning() {
            Err(PtrError::UseAfterMove)
        } else {
            Ok(self.elems())
        }
    }

    /// Wraps an already-constructed value as its sole owner, single shape.
    pub fn adopt_value(v: T) -> (r: Self)
        ensures
            r.is_owning(),
            !r.is_seq_shape(),
            r.value() == v,
    {
        UniquePtr { repr: Repr::Single(Some(v)) }
    }

    /// Wraps an existing sequence as its sole owner, sequence shape.
    pub fn adopt_sequence(seq: Vec<T>) -> (r: Self)
        ensures
            r.is_owning(),
            r.is_seq_shape(),
            r.elems() == seq@,
    {
        UniquePtr { repr: Repr::Sequence(Some(seq)) }
    }

    /// Returns a mutable reference to the owned value: the single value, or
    /// the first element of the sequence.
    pub fn get_mut(&mut self) -> (r: Result<&mut T, PtrError>)
        ensures
            !old(self).is_owning() ==> ({
                &&& r == Err::<&mut T, PtrError>(PtrError::UseAfterMove)
                &&& *final(self) == *old(self)
            }),
            old(self).is_owning() && !old(self).is_seq_shape() ==> ({
                &&& r matches Ok(m)
                &&& *m == old(self).value()
                &&& final(self).is_owning()
                &&& !final(self).is_seq_shape()
                &&& final(self).value() == *final(m)
            }),
            old(self).is_owning() && old(self).is_seq_shape() && old(self).elems().len() > 0 ==> ({
                &&& r matches Ok(m)
                &&& *m == old(self).elems()[0]
                &&& final(self).is_owning()
                &&& final(self).is_seq_shape()
                &&& final(self).elems() == old(self).elems().update(0, *final(m))
            }),
            old(self).is_owning() && old(self).is_seq_shape() && old(self).elems().len() == 0 ==> ({
                &&& r == Err::<&mut T, PtrError>(PtrError::ShapeMismatch)
                &&& *final(self) == *old(self)
            }),
    {
        match &mut self.repr {
            Repr::Single(Some(v)) => Ok(v),
            Repr::Sequence(Some(seq)) => {
                if seq.len() > 0 {
                    Ok(&mut seq[0])
                } else {
                    Err(PtrError::ShapeMismatch)
                }
            },
            Repr::Single(None) => Err(PtrError::UseAfterMove),
            Repr::Sequence(None) => Err(PtrError::UseAfterMove),
        }
    }

    /// Transparent read access to the owned value: the single value, or the
    /// first element of the sequence.
    pub fn as_ref(&self) -> (r: Result<&T, PtrError>)
        ensures
            match r {
                Ok(v) => self.read_result() == Ok::<T, PtrError>(*v),
                Err(e) => self.read_result() == Err::<T, PtrError>(e),
            },
    {
        match &self.repr {
            Repr::Single(Some(v)) => Ok(v),
            Repr::Sequence(Some(seq)) => {
                if seq.len() > 0 {
                    Ok(&seq[0])
                } else {
                    Err(PtrError::ShapeMismatch)
                }
            },
            Repr::Single(None) => Err(PtrError::UseAfterMove),
            Repr::Sequence(None) => Err(PtrError::UseAfterMove),
        }
    }

    /// Moves the contents of another `UniquePtr` into this one.
    ///
    /// This is a full replacement: this handle takes over the other's payload
    /// and shape, releasing whatever it held before, and the other handle is
    /// left empty with its own shape unchanged.
    pub fn move_from(&mut self, other: &mut Self)
        ensures
            *final(self) == *old(other),
            *final(other) == old(other).released(),
    {
        let taken = match &mut other.repr {
            Repr::Single(p) => Repr::Single(p.take()),
            Repr::Sequence(p) => Repr::Sequence(p.take()),
        };
        self.repr = taken;
    }

    /// Explicitly empties the handle, releasing the payload if one is still
    /// held. Releasing an already-empty handle does nothing and reports that
    /// nothing was released.
    pub fn release(&mut self) -> (released: bool)
        ensures
            released == old(self).is_owning(),
            *final(self) == old(self).released(),
    {
        match &mut self.repr {
            Repr::Single(p) => p.take().is_some(),
            Repr::Sequence(p) => p.take().is_some(),
        }
    }

    /// Whether this handle was constructed with sequence shape.
    pub fn is_sequence(&self) -> (r: bool)
        ensures
            r == self.is_seq_shape(),
    {
        match &self.repr {
            Repr::Single(_) => false,
            Repr::Sequence(_) => true,
        }
    }

    /// Extracts the single owned value, leaving the handle empty; the caller
    /// manages the value thereafter. Requesting single-value extraction from
    /// a sequence-shaped handle fails with `ShapeMismatch` and changes
    /// nothing; extraction from an already-empty handle fails with
    /// `UseAfterMove`.
    pub fn into_raw_owned(&mut self) -> (r: Result<T, PtrError>)
        ensures
            match r {
                Ok(v) => ({
                    &&& old(self).single_extraction_result() == Ok::<T, PtrError>(v)
                    &&& *final(self) == old(self).released()
                }),
                Err(e) => ({
                    &&& old(self).single_extraction_result() == Err::<T, PtrError>(e)
                    &&& *final(self) == *old(self)
                }),
            },
    {
        match &mut self.repr {
            Repr::Single(p) => match p.take() {
                Some(v) => Ok(v),
                None => Err(PtrError::UseAfterMove),
            },
            Repr::Sequence(_) => Err(PtrError::ShapeMismatch),
        }
    }

    /// Extracts the owned sequence, leaving the handle empty; the caller
    /// manages the sequence thereafter. Requesting sequence extraction from a
    /// single-shaped handle fails with `ShapeMismatch` and changes nothing;
    /// extraction from an already-empty handle fails with `UseAfterMove`.
    pub fn into_sequence(&mut self) -> (r: Result<Vec<T>, PtrError>)
        ensures
            match r {
                Ok(v) => ({
                    &&& old(self).sequence_extraction_result() == Ok::<Seq<T>, PtrError>(v@)
                    &&& *final(self) == old(self).released()
                }),
                Err(e) => ({
                    &&& old(self).sequence_extraction_result() == Err::<Seq<T>, PtrError>(e)
                    &&& *final(self) == *old(self)
                }),
            },
    {
        match &mut self.repr {
            Repr::Sequence(p) => match p.take() {
                Some(v) => Ok(v),
                None => Err(PtrError::UseAfterMove),
            },
            Repr::Single(_) => Err(PtrError::ShapeMismatch),
        }
    }

    /// Transparent write access to the owned value, with the same failure
    /// modes as [`UniquePtr::get_mut`].
    pub fn as_mut(&mut self) -> (r: Result<&mut T, PtrError>)
        ensures
            !old(self).is_owning() ==> ({
                &&& r == Err::<&mut T, PtrError>(PtrError::UseAfterMove)
                &&& *final(self) == *old(self)
            }),
            old(self).is_owning() && !old(self).is_seq_shape() ==> ({
                &&& r matches Ok(m)
                &&& *m == old(self).value()
                &&& final(self).is_owning()
                &&& !final(self).is_seq_shape()
                &&& final(self).value() == *final(m)
            }),
            old(self).is_owning() && old(self).is_seq_shape() && old(self).elems().len() > 0 ==> ({
                &&& r matches Ok(m)
                &&& *m == old(self).elems()[0]
                &&& final(self).is_owning()
                &&& final(self).is_seq_shape()
                &&& final(self).elems() == old(self).elems().update(0, *final(m))
            }),
            old(self).is_owning() && old(self).is_seq_shape() && old(self).elems().len() == 0 ==> ({
                &&& r == Err::<&mut T, PtrError>(PtrError::ShapeMismatch)
                &&& *final(self) == *old(self)
            }),
    {
        self.get_mut()
    }
}

impl<T: PartialEq> UniquePtr<T> {
    /// What equality of two handles means: two empty handles are equal
    /// whatever their shapes; an empty handle never equals an owning one;
    /// two owning handles are equal when they have the same shape and their
    /// payloads compare equal by the wrapped type's equality.
    pub closed spec fn payload_eq(self, other: Self) -> bool {
        if !self.is_owning() && !other.is_owning() {
            true
        } else {
            match (self.repr, other.repr) {
                (Repr::Single(Some(a)), Repr::Single(Some(b))) => a.eq_spec(&b),
                (Repr::Sequence(Some(a)), Repr::Sequence(Some(b))) => a.eq_spec(&b),
                _ => false,
            }
        }
    }
}

impl<T: PartialEq> PartialEq for UniquePtr<T> {
    /// Two handles are equal iff their owned payloads compare equal by the
    /// wrapped type's equality; emptiness participates, all empty handles
    /// being mutually equal and distinct from every owning handle.
    fn eq(&self, other: &Self) -> (r: bool) {
        match (&self.repr, &other.repr) {
            (Repr::Single(Some(a)), Repr::Single(Some(b))) => a == b,
            (Repr::Sequence(Some(a)), Repr::Sequence(Some(b))) => a == b,
            (Repr::Single(None), Repr::Single(None)) => true,
            (Repr::Single(None), Repr::Sequence(None)) => true,
            (Repr::Sequence(None), Repr::Single(None)) => true,
            (Repr::Sequence(None), Repr::Sequence(None)) => true,
            _ => false,
        }
    }
}

impl<T: PartialEq> vstd::std_specs::cmp::PartialEqSpecImpl for UniquePtr<T> {
    open spec fn obeys_eq_spec() -> bool {
        T::obeys_eq_spec()
    }

    open spec fn eq_spec(&self, other: &Self) -> bool {
        self.payload_eq(*other)
    }
}

impl<T: Eq> Eq for UniquePtr<T> {
}

impl<T: Default> Default for UniquePtr<T> {
    /// Equivalent to `UniquePtr::new` with the wrapped type's default value
    /// as the factory.
    fn default() -> (r: Self)
        ensures
            r.is_owning(),
            !r.is_seq_shape(),
            call_ensures(T::default, (), r.value()),
    {
        UniquePtr::new(T::default)
    }
}

/// Law (single release, idempotent destruction): emptying a handle — by
/// explicit release, extraction, or being moved from — removes the payload
/// while keeping the shape; emptying an already-empty handle changes nothing
/// and holds no payload to release. Together with every constructor
/// establishing the owning state, the payload leaves a handle at most once,
/// and the one owed release happens exactly once: either at the single
/// emptying operation or, if none occurred, when the still-owning handle is
/// dropped.
pub broadcast proof fn lemma_release_once<T>(h: UniquePtr<T>)
    ensures
        !(#[trigger] h.released()).is_owning(),
        h.released().is_seq_shape() == h.is_seq_shape(),
        h.released().released() == h.released(),
        !h.is_owning() ==> h.released() == h,
        h.is_owning() ==> h.released() != h,
{
}

/// Law (move empties source): after a transfer of ownership the destination
/// holds exactly the state the source held (`move_from` ensures
/// `*final(self) == *old(other)`), so a read on it observes the value the
/// source previously held, while the source is left in the released state,
/// on which every access reports `UseAfterMove`.
pub proof fn lemma_move_empties_source<T>(src: UniquePtr<T>)
    requires
        src.is_owning(),
    ensures
        src.released().read_result() == Err::<T, PtrError>(PtrError::UseAfterMove),
        !src.is_seq_shape() ==> src.read_result() == Ok::<T, PtrError>(src.value()),
        src.is_seq_shape() && src.elems().len() > 0 ==> src.read_result() == Ok::<T, PtrError>(
            src.elems()[0],
        ),
{
}

/// Law (shape immutability): no operation changes a handle's shape, and
/// extraction in the shape the handle does not hold fails with
/// `ShapeMismatch` — for a sequence-constructed handle single-value
/// extraction, and for a value-constructed handle sequence extraction —
/// whether or not the payload is still held.
pub proof fn lemma_shape_immutable<T>(h: UniquePtr<T>)
    ensures
        h.is_seq_shape() ==> h.single_extraction_result() == Err::<T, PtrError>(
            PtrError::ShapeMismatch,
        ),
        !h.is_seq_shape() ==> h.sequence_extraction_result() == Err::<Seq<T>, PtrError>(
            PtrError::ShapeMismatch,
        ),
        h.released().is_seq_shape() == h.is_seq_shape(),
{
}

/// Law (equality reflects payload): handle equality is exactly payload
/// equality by the wrapped type's equality — two owning single-shaped
/// handles compare by their values, two owning sequence-shaped handles
/// elementwise, all empty handles are mutually equal, and an empty handle
/// never equals an owning one.
pub proof fn lemma_eq_reflects_payload<T: PartialEq>(a: UniquePtr<T>, b: UniquePtr<T>)
    ensures
        !a.is_owning() && !b.is_owning() ==> a.payload_eq(b),
        a.is_owning() != b.is_owning() ==> !a.payload_eq(b),
        a.is_owning() && b.is_owning() && a.is_seq_shape() != b.is_seq_shape() ==> !a.payload_eq(b),
        a.is_owning() && b.is_owning() && !a.is_seq_shape() && !b.is_seq_shape() ==> (a.payload_eq(
            b,
        ) <==> a.value().eq_spec(&b.value())),
        a.is_owning() && b.is_owning() && a.is_seq_shape() && b.is_seq_shape() ==> (a.payload_eq(b)
            <==> (a.elems().len() == b.elems().len() && (forall|i: int|
            #![auto]
            0 <= i < a.elems().len() ==> a.elems()[i].eq_spec(&b.elems()[i])))),
{
}

} // verus!
