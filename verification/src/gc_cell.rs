//! A cell whose borrows are counted at run time: any number of shared
//! borrows, or one mutable borrow, never both.
use vstd::prelude::*;

verus! {

/// Why a borrow of a [`GcCell`] was refused.
#[derive(Debug, Clone, Copy, PartialEq, Eq, Structural)]
pub enum BorrowError {
    /// A mutable borrow is outstanding, so no shared borrow is handed out.
    AlreadyMutablyBorrowed,
    /// Some borrow is outstanding, so no mutable borrow is handed out.
    AlreadyBorrowed,
}

/// The two borrow counters of a cell.
#[derive(Debug, Clone, Copy, PartialEq, Eq, Structural)]
pub struct BorrowCounts {
    pub readers: i32,
    pub writers: i32,
}

/// The counters of a cell that nobody borrows.
pub open spec fn unborrowed() -> BorrowCounts {
    BorrowCounts { readers: 0, writers: 0 }
}

/// The borrow rule: counters are never negative, there is at most one
/// mutable borrow, and never a mutable borrow beside a shared one.
pub open spec fn borrow_rule_holds(c: BorrowCounts) -> bool {
    &&& 0 <= c.readers
    &&& 0 <= c.writers <= 1
    &&& c.writers == 1 ==> c.readers == 0
}

/// A shared borrow: refused while a mutable borrow is out, otherwise one
/// more reader (the counter wraps as the underlying atomic does).
pub open spec fn shared_borrow(c: BorrowCounts) -> Result<BorrowCounts, BorrowError> {
    if c.writers > 0 {
        Err(BorrowError::AlreadyMutablyBorrowed)
    } else {
        Ok(BorrowCounts { readers: c.readers.wrapping_add(1), writers: c.writers })
    }
}

/// A mutable borrow: refused while any borrow is out, otherwise one more
/// writer.
pub open spec fn exclusive_borrow(c: BorrowCounts) -> Result<BorrowCounts, BorrowError> {
    if c.readers > 0 || c.writers > 0 {
        Err(BorrowError::AlreadyBorrowed)
    } else {
        Ok(BorrowCounts { readers: c.readers, writers: c.writers.wrapping_add(1) })
    }
}

/// Giving back a shared borrow: one reader less.
pub open spec fn release_shared(c: BorrowCounts) -> BorrowCounts {
    BorrowCounts { readers: c.readers.wrapping_sub(1), writers: c.writers }
}

/// Giving back a mutable borrow: one writer less.
pub open spec fn release_exclusive(c: BorrowCounts) -> BorrowCounts {
    BorrowCounts { readers: c.readers, writers: c.writers.wrapping_sub(1) }
}

/// A borrow taken from a cell that keeps the borrow rule leaves a cell
/// that keeps it, whichever borrow was asked for (as long as the reader
/// counter has room for one more reader).
pub proof fn law_borrows_keep_the_rule(c: BorrowCounts)
    requires
        borrow_rule_holds(c),
        c.readers < i32::MAX,
    ensures
        shared_borrow(c) matches Ok(n) ==> borrow_rule_holds(n),
        exclusive_borrow(c) matches Ok(n) ==> borrow_rule_holds(n),
{
}

/// Giving back a borrow that is outstanding keeps the borrow rule.
pub proof fn law_releases_keep_the_rule(c: BorrowCounts)
    requires
        borrow_rule_holds(c),
    ensures
        c.readers > 0 ==> borrow_rule_holds(release_shared(c)),
        c.writers > 0 ==> borrow_rule_holds(release_exclusive(c)),
{
}

/// Giving back a borrow right after taking it restores the counters.
pub proof fn law_release_undoes_borrow(c: BorrowCounts)
    ensures
        shared_borrow(c) matches Ok(n) ==> release_shared(n) == c,
        exclusive_borrow(c) matches Ok(n) ==> release_exclusive(n) == c,
{
}

/// While a mutable borrow is out every borrow is refused; while a shared
/// borrow is out a mutable borrow is refused and another shared borrow is
/// granted.
pub proof fn law_mutable_borrow_is_exclusive(c: BorrowCounts)
    requires
        borrow_rule_holds(c),
    ensures
        c.writers > 0 ==> shared_borrow(c) == Err::<BorrowCounts, BorrowError>(
            BorrowError::AlreadyMutablyBorrowed,
        ),
        c.writers > 0 ==> exclusive_borrow(c) == Err::<BorrowCounts, BorrowError>(
            BorrowError::AlreadyBorrowed,
        ),
        c.readers > 0 ==> exclusive_borrow(c) == Err::<BorrowCounts, BorrowError>(
            BorrowError::AlreadyBorrowed,
        ),
        c.readers > 0 && c.readers < i32::MAX ==> shared_borrow(c) is Ok,
{
}

/// From an unborrowed cell: a mutable borrow is granted, and so is any
/// number of shared borrows (up to the counter's range); after a mutable
/// borrow no shared borrow is granted.
pub proof fn law_unborrowed_cell_grants(n: i32)
    requires
        0 <= n < i32::MAX,
    ensures
        exclusive_borrow(unborrowed()) == Ok::<BorrowCounts, BorrowError>(
            BorrowCounts { readers: 0, writers: 1 },
        ),
        shared_borrow(BorrowCounts { readers: n, writers: 0 }) == Ok::<BorrowCounts, BorrowError>(
            BorrowCounts { readers: (n + 1) as i32, writers: 0 },
        ),
{
}

/// A mutable memory location whose borrows are checked when they are taken.
///
/// Borrows are handed out as tokens ([`GcRef`], [`GcRefMut`]) tied to the
/// cell; the content is reached through a token and the token is given back
/// to end the borrow, each on the cell it came from.
pub struct GcCell<T> {
    value: T,
    read_count: i32,
    write_count: i32,
    identity: Ghost<int>,
}

/// Token of a shared borrow of a [`GcCell`], tied to that cell.
pub struct GcRef {
    cell: Ghost<int>,
}

/// Token of a mutable borrow of a [`GcCell`], tied to that cell.
pub struct GcRefMut {
    cell: Ghost<int>,
}

impl<T> GcCell<T> {
    /// The borrow counters.
    pub closed spec fn counts(&self) -> BorrowCounts {
        BorrowCounts { readers: self.read_count, writers: self.write_count }
    }

    /// The content.
    pub closed spec fn contents(&self) -> T {
        self.value
    }

    /// The identity of the cell, which its borrow tokens carry; nothing is
    /// promised of it beyond staying the same for the cell's life.
    pub closed spec fn id(&self) -> int {
        self.identity@
    }

    /// Creates a new cell holding `value`, with no borrow outstanding.
    pub fn new(value: T) -> (cell: Self)
        ensures
            cell.counts() == unborrowed(),
            cell.contents() == value,
    {
        GcCell { value, read_count: 0, write_count: 0, identity: Ghost(vstd::pervasive::arbitrary()) }
    }

    /// Attempts a shared borrow; refused while the cell is mutably borrowed.
    pub fn try_borrow(&mut self) -> (r: Result<GcRef, BorrowError>)
        ensures
            final(self).contents() == old(self).contents(),
            final(self).id() == old(self).id(),
            match shared_borrow(old(self).counts()) {
                Ok(c) => (r matches Ok(t) && t.cell() == old(self).id()) && final(self).counts() == c,
                Err(e) => r == Err::<GcRef, BorrowError>(e) && final(self).counts() == old(self).counts(),
            },
    {
        if self.write_count > 0 {
            Err(BorrowError::AlreadyMutablyBorrowed)
        } else {
            self.read_count = self.read_count.wrapping_add(1);
            Ok(GcRef { cell: Ghost(self.identity@) })
        }
    }

    /// Attempts a mutable borrow; refused while any borrow is outstanding.
    pub fn try_borrow_mut(&mut self) -> (r: Result<GcRefMut, BorrowError>)
        ensures
            final(self).contents() == old(self).contents(),
            final(self).id() == old(self).id(),
            match exclusive_borrow(old(self).counts()) {
                Ok(c) => (r matches Ok(t) && t.cell() == old(self).id()) && final(self).counts() == c,
                Err(e) => r == Err::<GcRefMut, BorrowError>(e) && final(self).counts() == old(self).counts(),
            },
    {
        if self.read_count > 0 || self.write_count > 0 {
            Err(BorrowError::AlreadyBorrowed)
        } else {
            self.write_count = self.write_count.wrapping_add(1);
            Ok(GcRefMut { cell: Ghost(self.identity@) })
        }
    }

    /// Reads the content while the garbage collector runs, whatever the
    /// borrows; only legal during a collection.
    pub fn borrow_for_gc(&self, during_gc: bool) -> (v: &T)
        requires
            during_gc,
        ensures
            *v == self.contents(),
    {
        &self.value
    }
}

impl<T: Default> Default for GcCell<T> {
    /// A cell holding `T`'s default value, with no borrow outstanding.
    fn default() -> (cell: Self)
        ensures
            cell.counts() == unborrowed(),
    {
        GcCell::new(T::default())
    }
}

impl GcRef {
    /// The identity of the cell this token borrows.
    pub closed spec fn cell(&self) -> int {
        self.cell@
    }

    /// The content of the cell this token borrows; the cell has a shared
    /// borrow out.
    pub fn deref<'a, T>(&self, cell: &'a GcCell<T>) -> (v: &'a T)
        requires
            self.cell() == cell.id(),
            cell.counts().readers > 0,
        ensures
            *v == cell.contents(),
    {
        &cell.value
    }

    /// Ends the shared borrow of the cell it was taken from, which has a
    /// shared borrow out.
    pub fn release<T>(self, cell: &mut GcCell<T>)
        requires
            self.cell() == old(cell).id(),
            old(cell).counts().readers > 0,
        ensures
            final(cell).id() == old(cell).id(),
            final(cell).counts() == release_shared(old(cell).counts()),
            final(cell).contents() == old(cell).contents(),
    {
        cell.read_count = cell.read_count.wrapping_sub(1);
    }
}

impl GcRefMut {
    /// The identity of the cell this token borrows.
    pub closed spec fn cell(&self) -> int {
        self.cell@
    }

    /// The content of the cell this token borrows; the cell has a mutable
    /// borrow out.
    pub fn deref<'a, T>(&self, cell: &'a GcCell<T>) -> (v: &'a T)
        requires
            self.cell() == cell.id(),
            cell.counts().writers > 0,
        ensures
            *v == cell.contents(),
    {
        &cell.value
    }

    /// The content of the cell this token borrows, for writing; the cell
    /// has a mutable borrow out.
    pub fn deref_mut<'a, T>(&self, cell: &'a mut GcCell<T>) -> (v: &'a mut T)
        requires
            self.cell() == old(cell).id(),
            old(cell).counts().writers > 0,
        ensures
            *v == old(cell).contents(),
            final(cell).id() == old(cell).id(),
            final(cell).contents() == *final(v),
            final(cell).counts() == old(cell).counts(),
    {
        &mut cell.value
    }

    /// Ends the mutable borrow of the cell it was taken from, which has a
    /// mutable borrow out.
    pub fn release<T>(self, cell: &mut GcCell<T>)
        requires
            self.cell() == old(cell).id(),
            old(cell).counts().writers > 0,
        ensures
            final(cell).id() == old(cell).id(),
            final(cell).counts() == release_exclusive(old(cell).counts()),
            final(cell).contents() == old(cell).contents(),
    {
        cell.write_count = cell.write_count.wrapping_sub(1);
    }
}

} // verus!
