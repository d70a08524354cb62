//! Cutting a long message into pieces.

use vstd::prelude::*;

verus! {

/// Hands out `iter` in pieces of `split_by` items, the last of which may be shorter.
pub struct Chunks<T> {
    iter: Vec<T>,
    split_by: usize,
    offset: usize,
}

/// The lesser of two numbers.
pub open spec fn lesser(a: int, b: int) -> int {
    if a <= b {
        a
    } else {
        b
    }
}

impl<T> Chunks<T> {
    /// All the items, those already handed out among them.
    pub closed spec fn items(&self) -> Seq<T> {
        self.iter@
    }

    /// How many items a piece has.
    pub closed spec fn split_by(&self) -> nat {
        self.split_by as nat
    }

    /// Where the next piece begins.
    pub closed spec fn offset(&self) -> nat {
        self.offset as nat
    }

    /// Starts with the first piece.
    pub fn new(iter: Vec<T>, split_by: usize) -> (chunks: Self)
        ensures
            chunks.items() == iter@,
            chunks.split_by() == split_by,
            chunks.offset() == 0,
    {
        Chunks { iter, split_by, offset: 0 }
    }

    /// The next piece, if items are left.
    pub fn next(&mut self) -> (piece: Option<&[T]>)
        requires
            old(self).offset() < old(self).items().len() ==> old(self).offset()
                + old(self).split_by() <= usize::MAX,
        ensures
            final(self).items() == old(self).items(),
            final(self).split_by() == old(self).split_by(),
            match piece {
                Some(items) => {
                    &&& old(self).offset() < old(self).items().len()
                    &&& items@ == piece_at(
                        old(self).items(),
                        old(self).split_by(),
                        old(self).offset(),
                    )
                    &&& final(self).offset() == old(self).offset() + old(self).split_by()
                },
                None => {
                    &&& old(self).offset() >= old(self).items().len()
                    &&& final(self).offset() == old(self).offset()
                },
            },
    {
        if self.offset >= self.iter.len() {
            return None;
        }
        let start: usize = self.offset;
        let next: usize = start + self.split_by;
        let end: usize = if next <= self.iter.len() {
            next
        } else {
            self.iter.len()
        };
        self.offset = next;
        Some(vstd::slice::slice_subrange(self.iter.as_slice(), start, end))
    }
}

/// The piece of `split_by` items that begins at `offset`, or what is left of it.
pub open spec fn piece_at<T>(items: Seq<T>, split_by: nat, offset: nat) -> Seq<T> {
    items.subrange(offset as int, lesser((offset + split_by) as int, items.len() as int))
}

/// How many items lie from `offset` on.
pub open spec fn left<T>(items: Seq<T>, offset: nat) -> nat {
    if offset < items.len() {
        (items.len() - offset) as nat
    } else {
        0
    }
}

/// The pieces that come when `items` are cut from `offset` on.
pub open spec fn pieces<T>(items: Seq<T>, split_by: nat, offset: nat) -> Seq<Seq<T>>
    decreases left(items, offset),
{
    if split_by == 0 || offset >= items.len() {
        Seq::empty()
    } else {
        seq![piece_at(items, split_by, offset)] + pieces(items, split_by, offset + split_by)
    }
}

/// The pieces, put together, are what was cut.
pub proof fn pieces_make_the_whole<T>(items: Seq<T>, split_by: nat, offset: nat)
    requires
        split_by > 0,
        offset <= items.len(),
    ensures
        pieces(items, split_by, offset).flatten() == items.skip(offset as int),
    decreases items.len() - offset,
{
    let all = pieces(items, split_by, offset);
    if offset == items.len() {
        assert(all.flatten() =~= items.skip(offset as int));
    } else {
        let rest = pieces(items, split_by, offset + split_by);
        assert(all.drop_first() =~= rest);
        assert(all.flatten() == all[0] + rest.flatten());
        if offset + split_by <= items.len() {
            pieces_make_the_whole(items, split_by, offset + split_by);
        } else {
            assert(rest.flatten() =~= Seq::empty());
        }
        assert(all.flatten() =~= items.skip(offset as int));
    }
}

/// Every piece but the last has `split_by` items, and the last has from one to as many.
pub proof fn pieces_are_full_but_the_last<T>(
    items: Seq<T>,
    split_by: nat,
    offset: nat,
    i: int,
)
    requires
        split_by > 0,
        0 <= i < pieces(items, split_by, offset).len(),
    ensures
        i + 1 < pieces(items, split_by, offset).len() ==> pieces(items, split_by, offset)[i].len()
            == split_by,
        1 <= pieces(items, split_by, offset)[i].len() <= split_by,
    decreases left(items, offset),
{
    let all = pieces(items, split_by, offset);
    let rest = pieces(items, split_by, offset + split_by);
    assert(all == seq![piece_at(items, split_by, offset)] + rest);
    if i > 0 {
        pieces_are_full_but_the_last(items, split_by, offset + split_by, i - 1);
        assert(all[i] == rest[i - 1]);
    } else {
        assert(all[0] == piece_at(items, split_by, offset));
    }
}

/// How many pieces it takes to cut `items` from the start.
pub proof fn number_of_pieces<T>(items: Seq<T>, split_by: nat, offset: nat)
    requires
        split_by > 0,
    ensures
        offset < items.len() ==> pieces(items, split_by, offset).len() == (items.len() - offset
            - 1) / (split_by as int) + 1,
        offset >= items.len() ==> pieces(items, split_by, offset).len() == 0,
    decreases left(items, offset),
{
    if offset < items.len() {
        number_of_pieces(items, split_by, offset + split_by);
        let more = items.len() - offset - 1;
        let n = split_by as int;
        if offset + split_by < items.len() {
            assert((more - n) / n + 1 == more / n) by (nonlinear_arith)
                requires
                    n > 0,
            ;
        } else {
            assert(more / n == 0) by (nonlinear_arith)
                requires
                    0 <= more < n,
            ;
        }
    }
}

/// A piece starts where it should and goes on for as long as it should, or to the end of the
/// items where fewer are left.
pub proof fn pieces_are_what_stands_there<T>(items: Seq<T>, split_by: nat, offset: nat)
    requires
        offset <= items.len(),
    ensures
        piece_at(items, split_by, offset).len() == if split_by <= items.len() - offset {
            split_by as int
        } else {
            items.len() - offset
        },
        forall|i: int|
            0 <= i < piece_at(items, split_by, offset).len() ==> #[trigger] piece_at(
                items,
                split_by,
                offset,
            )[i] == items[offset + i],
{
}

/// The pieces that come one after the other: each call of `next` gives the items that stand
/// behind those already given, as many as the pieces hold or as are left, until none is left.
pub proof fn pieces_follow_each_other<T>(items: Seq<T>, split_by: nat, offset: nat, i: int)
    requires
        split_by > 0,
        offset + i * split_by < items.len(),
        i >= 0,
    ensures
        i < pieces(items, split_by, offset).len(),
        pieces(items, split_by, offset)[i] == piece_at(
            items,
            split_by,
            (offset + i * split_by) as nat,
        ),
    decreases i,
{
    if i > 0 {
        assert(offset + i * split_by == (offset + split_by) + (i - 1) * split_by)
            by (nonlinear_arith);
        assert(offset < items.len()) by (nonlinear_arith)
            requires
                offset + i * split_by < items.len(),
                i > 0,
                split_by > 0,
        ;
        pieces_follow_each_other(items, split_by, offset + split_by, i - 1);
    } else {
        assert(i * split_by == 0) by (nonlinear_arith)
            requires
                i == 0,
        ;
    }
}

/// Pieces are taken from the front: each is what stands behind those before it, of the length of
/// a piece or of what is left. They end when nothing is left, and not before.
pub proof fn pieces_are_taken_from_the_front<T>(chunks: &mut Chunks<T>, piece: Option<&[T]>)
    requires
        call_ensures(Chunks::<T>::next, (chunks,), piece),
    ensures
        final(chunks).items() == old(chunks).items(),
        final(chunks).split_by() == old(chunks).split_by(),
        piece is Some <==> old(chunks).offset() < old(chunks).items().len(),
        piece is None ==> final(chunks).offset() == old(chunks).offset(),
        piece matches Some(items) ==> {
            let left = old(chunks).items().skip(old(chunks).offset() as int);
            &&& final(chunks).offset() == old(chunks).offset() + old(chunks).split_by()
            &&& items@ == if old(chunks).split_by() <= left.len() {
                left.take(old(chunks).split_by() as int)
            } else {
                left
            }
        },
{
    if let Some(items) = piece {
        let left = old(chunks).items().skip(old(chunks).offset() as int);
        if old(chunks).split_by() <= left.len() {
            assert(items@ =~= left.take(old(chunks).split_by() as int));
        } else {
            assert(items@ =~= left);
        }
    }
}

} // verus!
