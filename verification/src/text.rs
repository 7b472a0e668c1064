//! Text as sequences of characters: splitting, joining, decimal numbers.
//!
//! Every contract here speaks of `Seq<char>`, the view of `&str` and `String`,
//! and of `Seq<Seq<char>>`, the deep view of `Vec<String>`.

use vstd::prelude::*;
use vstd::std_specs::iter::IteratorSpec;
use vstd::string::StringExecFns;

verus! {

/// `String::push` of the standard library: the character is appended at the
/// end and nothing else changes.
pub assume_specification[ String::push ](s: &mut String, c: char)
    ensures
        final(s)@ == old(s)@.push(c),
;

/// Whether `c` occurs in `s`.
pub open spec fn has_char(s: Seq<char>, c: char) -> bool {
    exists|i: int| 0 <= i < s.len() && s[i] == c
}

/// The pieces of `s` that lie between the occurrences of `sep`, in order.
///
/// There is always at least one piece: a text without `sep` is its own single
/// piece, and a text that ends in `sep` has an empty last piece.
pub open spec fn split_on(s: Seq<char>, sep: char) -> Seq<Seq<char>>
    decreases s.len(),
{
    if s.len() == 0 {
        seq![Seq::<char>::empty()]
    } else {
        let before = split_on(s.drop_last(), sep);
        if s.last() == sep {
            before.push(Seq::<char>::empty())
        } else {
            before.update(before.len() - 1, before.last().push(s.last()))
        }
    }
}

/// The parts written one after another with `sep` between neighbours.
pub open spec fn join_with(parts: Seq<Seq<char>>, sep: char) -> Seq<char>
    decreases parts.len(),
{
    if parts.len() == 0 {
        Seq::<char>::empty()
    } else if parts.len() == 1 {
        parts[0]
    } else {
        join_with(parts.drop_last(), sep).push(sep) + parts.last()
    }
}

/// The parts written one after another with nothing between them.
pub open spec fn concat_all(parts: Seq<Seq<char>>) -> Seq<char>
    decreases parts.len(),
{
    if parts.len() == 0 {
        Seq::<char>::empty()
    } else {
        concat_all(parts.drop_last()) + parts.last()
    }
}

/// The character that stands for a decimal digit.
pub open spec fn digit_char(d: nat) -> char {
    if d == 0 {
        '0'
    } else if d == 1 {
        '1'
    } else if d == 2 {
        '2'
    } else if d == 3 {
        '3'
    } else if d == 4 {
        '4'
    } else if d == 5 {
        '5'
    } else if d == 6 {
        '6'
    } else if d == 7 {
        '7'
    } else if d == 8 {
        '8'
    } else {
        '9'
    }
}

/// The value of a decimal digit, or `None` for any other character.
pub open spec fn digit_value(c: char) -> Option<nat> {
    if c == '0' {
        Some(0)
    } else if c == '1' {
        Some(1)
    } else if c == '2' {
        Some(2)
    } else if c == '3' {
        Some(3)
    } else if c == '4' {
        Some(4)
    } else if c == '5' {
        Some(5)
    } else if c == '6' {
        Some(6)
    } else if c == '7' {
        Some(7)
    } else if c == '8' {
        Some(8)
    } else if c == '9' {
        Some(9)
    } else {
        None
    }
}

/// `n` in decimal, without sign and without leading zeros.
pub open spec fn decimal(n: nat) -> Seq<char>
    decreases n,
{
    if n < 10 {
        seq![digit_char(n)]
    } else {
        decimal(n / 10).push(digit_char(n % 10))
    }
}

/// Splitting always yields at least one piece.
pub proof fn lemma_split_nonempty(s: Seq<char>, sep: char)
    ensures
        split_on(s, sep).len() >= 1,
    decreases s.len(),
{
    if s.len() > 0 {
        lemma_split_nonempty(s.drop_last(), sep);
    }
}

/// No piece of a split holds the separator.
pub proof fn lemma_split_pieces_clean(s: Seq<char>, sep: char)
    ensures
        forall|k: int| 0 <= k < split_on(s, sep).len() ==> !has_char(#[trigger] split_on(s, sep)[k], sep),
    decreases s.len(),
{
    lemma_split_nonempty(s, sep);
    if s.len() > 0 {
        let before = split_on(s.drop_last(), sep);
        lemma_split_nonempty(s.drop_last(), sep);
        lemma_split_pieces_clean(s.drop_last(), sep);
        if s.last() != sep {
            let grown = before.last().push(s.last());
            assert(!has_char(before[before.len() - 1], sep));
            assert(!has_char(grown, sep)) by {
                if has_char(grown, sep) {
                    let i = choose|i: int| 0 <= i < grown.len() && grown[i] == sep;
                    assert(before.last()[i] == sep);
                }
            }
        }
    }
}

/// A text without the separator is its own single piece.
pub proof fn lemma_split_plain(s: Seq<char>, sep: char)
    requires
        !has_char(s, sep),
    ensures
        split_on(s, sep) == seq![s],
    decreases s.len(),
{
    if s.len() == 0 {
        assert(s =~= Seq::<char>::empty());
    } else {
        let init = s.drop_last();
        assert(s[s.len() - 1] != sep);
        assert(!has_char(init, sep)) by {
            if has_char(init, sep) {
                let i = choose|i: int| 0 <= i < init.len() && init[i] == sep;
                assert(s[i] == sep);
            }
        }
        lemma_split_plain(init, sep);
        assert(init.push(s.last()) =~= s);
        assert(seq![init].update(0, s) =~= seq![s]);
    }
}

/// Appending a text without the separator lengthens the last piece by it.
pub proof fn lemma_split_append_plain(s: Seq<char>, tail: Seq<char>, sep: char)
    requires
        !has_char(tail, sep),
    ensures
        split_on(s + tail, sep) == split_on(s, sep).update(
            split_on(s, sep).len() - 1,
            split_on(s, sep).last() + tail,
        ),
    decreases tail.len(),
{
    lemma_split_nonempty(s, sep);
    let pieces = split_on(s, sep);
    if tail.len() == 0 {
        assert(s + tail =~= s);
        assert(pieces.last() + tail =~= pieces.last());
        assert(pieces.update(pieces.len() - 1, pieces.last()) =~= pieces);
    } else {
        let init = tail.drop_last();
        assert(tail[tail.len() - 1] != sep);
        assert(!has_char(init, sep)) by {
            if has_char(init, sep) {
                let i = choose|i: int| 0 <= i < init.len() && init[i] == sep;
                assert(tail[i] == sep);
            }
        }
        lemma_split_append_plain(s, init, sep);
        assert((s + tail).drop_last() =~= s + init);
        assert((s + tail).last() == tail.last());
        assert((pieces.last() + init).push(tail.last()) =~= pieces.last() + tail);
        let mid = pieces.update(pieces.len() - 1, pieces.last() + init);
        assert(mid.update(mid.len() - 1, mid.last().push(tail.last())) =~= pieces.update(
            pieces.len() - 1,
            pieces.last() + tail,
        ));
    }
}

/// Joining the pieces of a split gives the text back.
pub proof fn lemma_join_split(s: Seq<char>, sep: char)
    ensures
        join_with(split_on(s, sep), sep) == s,
    decreases s.len(),
{
    lemma_split_nonempty(s, sep);
    if s.len() == 0 {
    } else {
        let init = s.drop_last();
        let before = split_on(init, sep);
        lemma_split_nonempty(init, sep);
        lemma_join_split(init, sep);
        assert(init.push(s.last()) =~= s);
        if s.last() == sep {
            let after = before.push(Seq::<char>::empty());
            assert(after.drop_last() =~= before);
            assert(join_with(after, sep) =~= join_with(before, sep).push(sep));
        } else {
            let after = before.update(before.len() - 1, before.last().push(s.last()));
            lemma_join_grow_last(before, s.last(), sep);
        }
    }
}

/// Lengthening the last part by one character lengthens the joined text by it.
proof fn lemma_join_grow_last(parts: Seq<Seq<char>>, c: char, sep: char)
    requires
        parts.len() >= 1,
    ensures
        join_with(parts.update(parts.len() - 1, parts.last().push(c)), sep) == join_with(
            parts,
            sep,
        ).push(c),
{
    let grown = parts.update(parts.len() - 1, parts.last().push(c));
    if parts.len() > 1 {
        assert(grown.drop_last() =~= parts.drop_last());
        assert(join_with(grown, sep) =~= join_with(parts, sep).push(c));
    }
}

/// Splitting a joined text gives the parts back, where there is at least one
/// part and no part holds the separator.
pub proof fn lemma_split_join(parts: Seq<Seq<char>>, sep: char)
    requires
        parts.len() >= 1,
        forall|k: int| 0 <= k < parts.len() ==> !has_char(#[trigger] parts[k], sep),
    ensures
        split_on(join_with(parts, sep), sep) == parts,
    decreases parts.len(),
{
    if parts.len() == 1 {
        lemma_split_plain(parts[0], sep);
        assert(seq![parts[0]] =~= parts);
    } else {
        let init = parts.drop_last();
        assert forall|k: int| 0 <= k < init.len() implies !has_char(#[trigger] init[k], sep) by {
            assert(init[k] == parts[k]);
        }
        lemma_split_join(init, sep);
        let head = join_with(init, sep).push(sep);
        assert(head.drop_last() =~= join_with(init, sep));
        assert(split_on(head, sep) == init.push(Seq::<char>::empty()));
        assert(!has_char(parts[parts.len() - 1], sep));
        lemma_split_append_plain(head, parts.last(), sep);
        assert(Seq::<char>::empty() + parts.last() =~= parts.last());
        assert(init.push(Seq::<char>::empty()).update(init.len() as int, parts.last()) =~= parts);
    }
}

/// The deep view after a push is the deep view before it, with the view of
/// the pushed text at the end.
pub proof fn lemma_deep_view_push(before: Vec<String>, after: Vec<String>, s: String)
    requires
        after@ == before@.push(s),
    ensures
        after.deep_view() == before.deep_view().push(s@),
{
    assert(after.deep_view() =~= before.deep_view().push(s@));
}

/// Splits `s` at every occurrence of `sep`.
pub fn split_text(s: &str, sep: char) -> (parts: Vec<String>)
    ensures
        parts.deep_view() == split_on(s@, sep),
{
    broadcast use vstd::string::group_string_axioms;

    let mut parts: Vec<String> = Vec::new();
    let mut piece = String::new();
    let mut it = s.chars();
    let ghost mut seen: Seq<char> = Seq::empty();
    proof {
        assert(parts.deep_view().push(piece@) =~= seq![Seq::<char>::empty()]);
    }
    loop
        invariant
            it.obeys_prophetic_iter_laws(),
            it.decrease() is Some,
            seen + it.remaining() == s@,
            parts.deep_view().push(piece@) == split_on(seen, sep),
        decreases it.decrease()->0,
    {
        let ghost rest = it.remaining();
        match it.next() {
            Some(c) => {
                let ghost parts_before = parts;
                let ghost piece_before = piece;
                proof {
                    assert(seen.push(c).drop_last() =~= seen);
                    assert(seen.push(c) + rest.drop_first() =~= seen + rest);
                }
                if c == sep {
                    parts.push(piece);
                    piece = String::new();
                    proof {
                        lemma_deep_view_push(parts_before, parts, piece_before);
                    }
                } else {
                    piece.push(c);
                    proof {
                        assert(parts.deep_view().push(piece@) =~= parts.deep_view().push(
                            piece_before@,
                        ).update(parts.deep_view().len() as int, piece_before@.push(c)));
                    }
                }
                proof {
                    seen = seen.push(c);
                }
            },
            None => {
                let ghost parts_before = parts;
                parts.push(piece);
                proof {
                    lemma_deep_view_push(parts_before, parts, piece);
                    assert(seen + rest =~= seen);
                }
                return parts;
            },
        }
    }
}

/// Writes the parts one after another with `sep` between neighbours.
pub fn join_text(parts: &Vec<String>, sep: char) -> (out: String)
    ensures
        out@ == join_with(parts.deep_view(), sep),
{
    let mut out = String::new();
    let mut i: usize = 0;
    while i < parts.len()
        invariant
            0 <= i <= parts.len(),
            out@ == join_with(parts.deep_view().take(i as int), sep),
        decreases parts.len() - i,
    {
        proof {
            let taken = parts.deep_view().take(i as int + 1);
            assert(taken.drop_last() =~= parts.deep_view().take(i as int));
            assert(taken.last() == parts[i as int]@);
            if i == 0 {
                assert(Seq::<char>::empty() + parts[0]@ =~= parts[0]@);
            }
        }
        if i > 0 {
            out.push(sep);
        }
        out.append(parts[i].as_str());
        i = i + 1;
    }
    proof {
        assert(parts.deep_view().take(i as int) =~= parts.deep_view());
    }
    out
}

/// Writes the parts one after another with nothing between them.
pub fn concat_text(parts: &Vec<String>) -> (out: String)
    ensures
        out@ == concat_all(parts.deep_view()),
{
    let mut out = String::new();
    let mut i: usize = 0;
    while i < parts.len()
        invariant
            0 <= i <= parts.len(),
            out@ == concat_all(parts.deep_view().take(i as int)),
        decreases parts.len() - i,
    {
        proof {
            let taken = parts.deep_view().take(i as int + 1);
            assert(taken.drop_last() =~= parts.deep_view().take(i as int));
            assert(taken.last() == parts[i as int]@);
        }
        out.append(parts[i].as_str());
        i = i + 1;
    }
    proof {
        assert(parts.deep_view().take(i as int) =~= parts.deep_view());
    }
    out
}

/// Whether two texts hold the same characters.
pub fn same_text(a: &str, b: &str) -> (same: bool)
    ensures
        same == (a@ == b@),
{
    broadcast use vstd::string::group_string_axioms;

    let mut left = a.chars();
    let mut right = b.chars();
    let ghost mut seen: Seq<char> = Seq::empty();
    loop
        invariant
            left.obeys_prophetic_iter_laws(),
            right.obeys_prophetic_iter_laws(),
            left.decrease() is Some,
            seen + left.remaining() == a@,
            seen + right.remaining() == b@,
        decreases left.decrease()->0,
    {
        let ghost left_rest = left.remaining();
        let ghost right_rest = right.remaining();
        let x = left.next();
        let y = right.next();
        match (x, y) {
            (Some(c), Some(d)) => {
                if c != d {
                    proof {
                        assert(a@[seen.len() as int] == c);
                        assert(b@[seen.len() as int] == d);
                    }
                    return false;
                }
                proof {
                    assert(seen.push(c) + left_rest.drop_first() =~= seen + left_rest);
                    assert(seen.push(c) + right_rest.drop_first() =~= seen + right_rest);
                    seen = seen.push(c);
                }
            },
            (None, None) => {
                proof {
                    assert(seen + left_rest =~= seen);
                    assert(seen + right_rest =~= seen);
                }
                return true;
            },
            _ => {
                proof {
                    assert(a@.len() != b@.len());
                }
                return false;
            },
        }
    }
}

/// The character of a decimal digit.
fn digit_to_char(d: u64) -> (c: char)
    requires
        d < 10,
    ensures
        c == digit_char(d as nat),
{
    if d == 0 {
        '0'
    } else if d == 1 {
        '1'
    } else if d == 2 {
        '2'
    } else if d == 3 {
        '3'
    } else if d == 4 {
        '4'
    } else if d == 5 {
        '5'
    } else if d == 6 {
        '6'
    } else if d == 7 {
        '7'
    } else if d == 8 {
        '8'
    } else {
        '9'
    }
}

/// The value of a decimal digit, or `None` for any other character.
pub fn char_to_digit(c: char) -> (d: Option<u8>)
    ensures
        match d {
            Some(v) => digit_value(c) == Some(v as nat),
            None => digit_value(c) is None,
        },
{
    if c == '0' {
        Some(0)
    } else if c == '1' {
        Some(1)
    } else if c == '2' {
        Some(2)
    } else if c == '3' {
        Some(3)
    } else if c == '4' {
        Some(4)
    } else if c == '5' {
        Some(5)
    } else if c == '6' {
        Some(6)
    } else if c == '7' {
        Some(7)
    } else if c == '8' {
        Some(8)
    } else if c == '9' {
        Some(9)
    } else {
        None
    }
}

/// Appends `n` in decimal to `out`.
pub fn push_decimal(out: &mut String, n: u64)
    ensures
        final(out)@ == old(out)@ + decimal(n as nat),
    decreases n,
{
    if n >= 10 {
        push_decimal(out, n / 10);
    }
    out.push(digit_to_char(n % 10));
    proof {
        if n >= 10 {
            assert((old(out)@ + decimal((n / 10) as nat)).push(digit_char((n % 10) as nat))
                =~= old(out)@ + decimal(n as nat));
        } else {
            assert(old(out)@.push(digit_char(n as nat)) =~= old(out)@ + decimal(n as nat));
        }
    }
}

/// `n` in decimal.
pub fn decimal_text(n: u64) -> (out: String)
    ensures
        out@ == decimal(n as nat),
{
    let mut out = String::new();
    push_decimal(&mut out, n);
    proof {
        assert(Seq::<char>::empty() + decimal(n as nat) =~= decimal(n as nat));
    }
    out
}

} // verus!
