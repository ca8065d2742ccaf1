//! Unique widget ids.
use vstd::prelude::*;

verus! {

/// The counter value that follows `n` (wrapping around at `usize::MAX`).
pub open spec fn next_after(n: usize) -> usize {
    if n == usize::MAX {
        0
    } else {
        (n + 1) as usize
    }
}

/// The ids handed out by `k` successive draws from a counter holding `start`.
pub open spec fn draws(start: usize, k: nat) -> Seq<usize>
    decreases k,
{
    if k == 0 {
        seq![]
    } else {
        seq![start] + draws(next_after(start), (k - 1) as nat)
    }
}

/// Hands out consecutive ids, starting at 1 (0 is reserved for [`WidgetId::empty`]).
#[derive(Debug)]
pub struct IdCounter {
    next: usize,
}

impl IdCounter {
    /// The id that the next draw hands out.
    pub closed spec fn peek(&self) -> usize {
        self.next
    }

    /// Creates a counter whose first id is 1.
    pub fn new() -> (r: IdCounter)
        ensures
            r.peek() == 1,
    {
        IdCounter { next: 1 }
    }

    /// Draws an id: returns the current value and advances the counter by one
    /// (wrapping around like an atomic `fetch_add`).
    pub fn next_id(&mut self) -> (r: usize)
        ensures
            r == old(self).peek(),
            final(self).peek() == next_after(old(self).peek()),
    {
        let r = self.next;
        self.next = if self.next == usize::MAX { 0 } else { self.next + 1 };
        r
    }
}

/// Ids drawn from a counter that does not wrap around are all different and none
/// of them is the reserved id 0.
pub proof fn lemma_draws_distinct(start: usize, k: nat)
    requires
        1 <= start,
        start + k <= usize::MAX + 1,
    ensures
        draws(start, k).len() == k,
        forall|i: int| 0 <= i < k ==> #[trigger] draws(start, k)[i] == start + i,
        forall|i: int| 0 <= i < k ==> #[trigger] draws(start, k)[i] != 0,
        forall|i: int, j: int| 0 <= i < j < k ==> draws(start, k)[i] != draws(start, k)[j],
    decreases k,
{
    if k > 0 {
        if k > 1 {
            lemma_draws_distinct(next_after(start), (k - 1) as nat);
        }
        let rest = draws(next_after(start), (k - 1) as nat);
        assert(draws(start, k) == seq![start] + rest);
        assert forall|i: int| 0 <= i < k implies #[trigger] draws(start, k)[i] == start + i by {
            if i > 0 {
                assert(draws(start, k)[i] == rest[i - 1]);
            }
        }
    }
}

/// An id drawn from a counter is greater than, hence different from, every id drawn
/// from it before, and is not the reserved id 0, as long as the counter has not wrapped
/// around: when all earlier ids lie below the counter (as they do for a new counter,
/// with none), they still all lie below it after the draw, the new one included.
pub proof fn lemma_fresh_id(earlier: Seq<usize>, counter: usize)
    requires
        1 <= counter,
        forall|i: int| 0 <= i < earlier.len() ==> #[trigger] earlier[i] < counter,
    ensures
        counter != 0,
        forall|i: int| 0 <= i < earlier.len() ==> #[trigger] earlier[i] < counter && earlier[i] != counter,
        counter < usize::MAX ==> forall|i: int|
            0 <= i < earlier.push(counter).len() ==> #[trigger] earlier.push(counter)[i] < next_after(counter),
{
}

/// Unique widget global id.
#[derive(Debug, Clone, Copy, PartialEq, Eq, Structural, Hash)]
pub struct WidgetId(usize);

impl WidgetId {
    /// Id of the Empty widget (raw id 0).
    pub closed spec fn empty_spec() -> WidgetId {
        WidgetId(0)
    }

    /// Id of the Empty widget (raw id 0).
    pub fn empty() -> (r: WidgetId)
        ensures
            r == WidgetId::empty_spec(),
    {
        WidgetId(0)
    }

    /// The raw id number.
    pub closed spec fn raw(self) -> usize {
        self.0
    }

    /// Creates a new widget id, drawn from `ids`.
    pub fn new(ids: &mut IdCounter) -> (r: WidgetId)
        ensures
            r.raw() == old(ids).peek(),
            final(ids).peek() == next_after(old(ids).peek()),
    {
        WidgetId(ids.next_id())
    }

    /// The empty id has raw number 0, and ids are equal exactly when their raw
    /// numbers are.
    pub proof fn lemma_raw(a: WidgetId, b: WidgetId)
        ensures
            WidgetId::empty_spec().raw() == 0,
            (a.raw() == b.raw()) == (a == b),
    {
    }

    /// Gets the raw id number.
    pub fn get(self) -> (r: usize)
        ensures
            r == self.raw(),
    {
        self.0
    }
}

impl Default for WidgetId {
    fn default() -> (r: WidgetId)
        ensures
            r == WidgetId::empty_spec(),
    {
        WidgetId::empty()
    }
}

/// Objects that contain an unique Id.
pub trait ObjectId {
    /// The id of the object.
    spec fn object_id(&self) -> WidgetId;

    /// Gets the widget id.
    fn get_id(&self) -> (r: WidgetId)
        ensures
            r == self.object_id(),
    ;
}

impl ObjectId for () {
    open spec fn object_id(&self) -> WidgetId {
        WidgetId::empty_spec()
    }

    fn get_id(&self) -> (r: WidgetId) {
        WidgetId::empty()
    }
}

impl ObjectId for WidgetId {
    open spec fn object_id(&self) -> WidgetId {
        *self
    }

    fn get_id(&self) -> (r: WidgetId) {
        *self
    }
}

impl<T: ObjectId> ObjectId for Option<T> {
    open spec fn object_id(&self) -> WidgetId {
        match self {
            Some(t) => t.object_id(),
            None => WidgetId::empty_spec(),
        }
    }

    fn get_id(&self) -> (r: WidgetId) {
        match self {
            Some(t) => t.get_id(),
            None => WidgetId::empty(),
        }
    }
}

impl<T: ObjectId, E> ObjectId for Result<T, E> {
    open spec fn object_id(&self) -> WidgetId {
        match self {
            Ok(t) => t.object_id(),
            Err(_) => WidgetId::empty_spec(),
        }
    }

    fn get_id(&self) -> (r: WidgetId) {
        match self {
            Ok(t) => t.get_id(),
            Err(_) => WidgetId::empty(),
        }
    }
}

impl<T: ObjectId> ObjectId for Box<T> {
    open spec fn object_id(&self) -> WidgetId {
        (**self).object_id()
    }

    fn get_id(&self) -> (r: WidgetId) {
        (**self).get_id()
    }
}

} // verus!
