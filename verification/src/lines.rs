//! Lines in a stream of bytes that arrives piece by piece.

use vstd::prelude::*;

verus! {

/// The byte that ends a line.
pub const LINE_END: u8 = 10;

/// `bytes` holds at least one whole line.
pub open spec fn has_line(bytes: Seq<u8>) -> bool {
    exists|i: int| ends_first_line(bytes, i)
}

/// The first line end of `bytes` is at index `i`.
pub open spec fn ends_first_line(bytes: Seq<u8>, i: int) -> bool {
    &&& 0 <= i < bytes.len()
    &&& bytes[i] == LINE_END
    &&& forall|j: int| 0 <= j < i ==> bytes[j] != LINE_END
}

/// The length of the first line of `bytes`, its end not counted.
pub open spec fn line_length(bytes: Seq<u8>) -> int {
    choose|i: int| ends_first_line(bytes, i)
}

/// The first line of `bytes`, without its end.
pub open spec fn first_line(bytes: Seq<u8>) -> Seq<u8> {
    bytes.subrange(0, line_length(bytes))
}

/// What follows the first line of `bytes` and its end.
pub open spec fn after_line(bytes: Seq<u8>) -> Seq<u8> {
    bytes.subrange(line_length(bytes) + 1, bytes.len() as int)
}

/// `line` holds no line end.
pub open spec fn unbroken(line: Seq<u8>) -> bool {
    forall|j: int| 0 <= j < line.len() ==> line[j] != LINE_END
}

/// The first line end is where the first line end is found.
pub proof fn lemma_line_length(bytes: Seq<u8>, i: int)
    requires
        ends_first_line(bytes, i),
    ensures
        has_line(bytes),
        line_length(bytes) == i,
{
    let k = line_length(bytes);
    assert(ends_first_line(bytes, k));
    if k < i {
        assert(bytes[k] != LINE_END);
    }
    if i < k {
        assert(bytes[i] != LINE_END);
    }
}

/// A line, its end and what follows are taken apart again as they were put
/// together.
pub proof fn lemma_first_line_of_joined(line: Seq<u8>, rest: Seq<u8>)
    requires
        unbroken(line),
    ensures
        has_line(line + seq![LINE_END] + rest),
        first_line(line + seq![LINE_END] + rest) == line,
        after_line(line + seq![LINE_END] + rest) == rest,
{
    let bytes = line + seq![LINE_END] + rest;
    let n = line.len() as int;
    assert(bytes[n] == LINE_END);
    assert forall|j: int| 0 <= j < n implies bytes[j] != LINE_END by {
        assert(bytes[j] == line[j]);
    }
    lemma_line_length(bytes, n);
    assert(bytes.subrange(0, n) =~= line);
    assert(bytes.subrange(n + 1, bytes.len() as int) =~= rest);
}

/// The first line and what follows it put the bytes together again.
pub proof fn lemma_line_splits(bytes: Seq<u8>)
    requires
        has_line(bytes),
    ensures
        unbroken(first_line(bytes)),
        bytes == first_line(bytes) + seq![LINE_END] + after_line(bytes),
        after_line(bytes).len() < bytes.len(),
{
    let k = line_length(bytes);
    assert(ends_first_line(bytes, k));
    assert(bytes =~= first_line(bytes) + seq![LINE_END] + after_line(bytes));
}

/// Takes the first whole line out of `pending`, without its end. Where
/// `pending` holds no line end, it stays as it is.
pub fn take_line(pending: &mut Vec<u8>) -> (line: Option<Vec<u8>>)
    ensures
        match line {
            Some(line) => {
                &&& has_line(old(pending)@)
                &&& line@ == first_line(old(pending)@)
                &&& final(pending)@ == after_line(old(pending)@)
            },
            None => {
                &&& !has_line(old(pending)@)
                &&& final(pending)@ == old(pending)@
            },
        },
{
    let mut i: usize = 0;
    while i < pending.len()
        invariant
            i <= pending.len(),
            pending@ == old(pending)@,
            forall|j: int| 0 <= j < i ==> pending@[j] != LINE_END,
        decreases pending.len() - i,
    {
        if pending[i] == LINE_END {
            proof {
                lemma_line_length(pending@, i as int);
            }
            let mut rest = pending.split_off(i + 1);
            pending.pop();
            std::mem::swap(pending, &mut rest);
            assert(rest@ =~= first_line(old(pending)@));
            return Some(rest);
        }
        i += 1;
    }
    assert(!has_line(pending@)) by {
        if has_line(pending@) {
            let k = line_length(pending@);
            assert(ends_first_line(pending@, k));
        }
    }
    None
}

} // verus!
