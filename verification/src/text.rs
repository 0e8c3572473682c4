//! Text as the mount table needs it: characters, whitespace-separated
//! fields, and lines.

use vstd::prelude::*;

verus! {

/// Whether `c` separates fields: the characters of Unicode's `White_Space`
/// property. A carriage return is among them, so it never is part of a field.
pub open spec fn is_space(c: char) -> bool {
    let n = c as u32;
    ||| 0x09 <= n <= 0x0d
    ||| n == 0x20
    ||| n == 0x85
    ||| n == 0xa0
    ||| n == 0x1680
    ||| 0x2000 <= n <= 0x200a
    ||| n == 0x2028
    ||| n == 0x2029
    ||| n == 0x202f
    ||| n == 0x205f
    ||| n == 0x3000
}

/// Tests one character against [`is_space`].
pub fn separates_fields(c: char) -> (r: bool)
    ensures
        r == is_space(c),
{
    let n: u32 = c as u32;
    (0x09 <= n && n <= 0x0d) || n == 0x20 || n == 0x85 || n == 0xa0 || n == 0x1680 || (0x2000 <= n
        && n <= 0x200a) || n == 0x2028 || n == 0x2029 || n == 0x202f || n == 0x205f || n == 0x3000
}

/// The characters of `text`, in order.
pub fn chars_of(text: &str) -> (r: Vec<char>)
    ensures
        r@ == text@,
{
    let mut out: Vec<char> = Vec::new();
    let mut it = text.chars();
    for c in iter: it
        invariant
            out@ == iter.seq().take(iter.index()),
    {
        out.push(c);
    }
    out
}

/// The pieces into which the characters that `sep` accepts cut `text`, in
/// order: an empty text is one empty piece, a separator begins a new piece,
/// and any other character joins the last piece.
pub open spec fn split_on(text: Seq<char>, sep: spec_fn(char) -> bool) -> Seq<Seq<char>>
    decreases text.len(),
{
    if text.len() == 0 {
        seq![Seq::<char>::empty()]
    } else {
        let before = split_on(text.drop_last(), sep);
        if sep(text.last()) {
            before.push(Seq::<char>::empty())
        } else {
            before.drop_last().push(before.last().push(text.last()))
        }
    }
}

/// The pieces of `line` between whitespace, empty ones included.
pub open spec fn space_pieces(line: Seq<char>) -> Seq<Seq<char>> {
    split_on(line, |c: char| is_space(c))
}

/// The pieces of `text` between line feeds.
pub open spec fn newline_pieces(text: Seq<char>) -> Seq<Seq<char>> {
    split_on(text, |c: char| c == '\n')
}

/// The fields of a line: its maximal runs of characters that are not
/// whitespace, in order.
pub open spec fn fields_of(line: Seq<char>) -> Seq<Seq<char>> {
    space_pieces(line).filter(|piece: Seq<char>| piece.len() > 0)
}

/// The lines of a text: what stands between its line feeds. What follows the
/// last line feed is a line only if it is not empty, so a text that ends in a
/// line feed has no blank line at its end.
pub open spec fn lines_of(text: Seq<char>) -> Seq<Seq<char>> {
    let pieces = newline_pieces(text);
    if pieces.last().len() == 0 {
        pieces.drop_last()
    } else {
        pieces
    }
}

/// A split always yields at least one piece.
pub proof fn lemma_split_on_has_piece(text: Seq<char>, sep: spec_fn(char) -> bool)
    ensures
        split_on(text, sep).len() >= 1,
    decreases text.len(),
{
    if text.len() > 0 {
        lemma_split_on_has_piece(text.drop_last(), sep);
    }
}

/// No piece of a split holds a separator.
pub proof fn lemma_pieces_hold_no_separator(text: Seq<char>, sep: spec_fn(char) -> bool)
    ensures
        forall|i: int, j: int|
            0 <= i < split_on(text, sep).len() && 0 <= j < split_on(text, sep)[i].len() ==> !sep(
                #[trigger] split_on(text, sep)[i][j],
            ),
    decreases text.len(),
{
    if text.len() > 0 {
        lemma_pieces_hold_no_separator(text.drop_last(), sep);
        lemma_split_on_has_piece(text.drop_last(), sep);
    }
}

/// A text without a separator is one piece: itself.
pub proof fn lemma_split_on_unbroken(text: Seq<char>, sep: spec_fn(char) -> bool)
    requires
        forall|i: int| 0 <= i < text.len() ==> !sep(#[trigger] text[i]),
    ensures
        split_on(text, sep) == seq![text],
    decreases text.len(),
{
    if text.len() == 0 {
        assert(seq![Seq::<char>::empty()] =~~= seq![text]);
    } else {
        lemma_split_on_unbroken(text.drop_last(), sep);
        assert(seq![text.drop_last()].drop_last().push(text.drop_last().push(text.last()))
            =~~= seq![text]);
    }
}

/// A separator parts what comes before it from what comes after: the pieces
/// of the whole are the pieces of the one, then the pieces of the other.
pub proof fn lemma_split_on_separator(
    before: Seq<char>,
    c: char,
    after: Seq<char>,
    sep: spec_fn(char) -> bool,
)
    requires
        sep(c),
    ensures
        split_on(before + seq![c] + after, sep) == split_on(before, sep) + split_on(after, sep),
    decreases after.len(),
{
    let whole = before + seq![c] + after;
    if after.len() == 0 {
        assert(whole.drop_last() =~= before);
    } else {
        let shorter = after.drop_last();
        lemma_split_on_separator(before, c, shorter, sep);
        lemma_split_on_has_piece(shorter, sep);
        assert(whole.drop_last() =~= before + seq![c] + shorter);
    }
}

/// Every field is a word: it is not empty, and holds no whitespace.
pub proof fn lemma_field_is_word(line: Seq<char>, i: int)
    requires
        0 <= i < fields_of(line).len(),
    ensures
        fields_of(line)[i].len() > 0,
        forall|j: int| 0 <= j < fields_of(line)[i].len() ==> !is_space(#[trigger] fields_of(line)[i][j]),
{
    let sep = |c: char| is_space(c);
    let keep = |piece: Seq<char>| piece.len() > 0;
    let pieces = space_pieces(line);
    let field = fields_of(line)[i];
    pieces.lemma_filter_pred(keep, i);
    pieces.lemma_filter_contains_rev(keep, field);
    let at = choose|at: int| 0 <= at < pieces.len() && pieces[at] == field;
    lemma_pieces_hold_no_separator(line, sep);
    assert forall|j: int| 0 <= j < field.len() implies !is_space(#[trigger] field[j]) by {
        assert(!sep(pieces[at][j]));
    }
}

/// A word is its own single field.
pub proof fn lemma_fields_of_word(word: Seq<char>)
    requires
        word.len() > 0,
        forall|i: int| 0 <= i < word.len() ==> !is_space(#[trigger] word[i]),
    ensures
        fields_of(word) == seq![word],
{
    let keep = |piece: Seq<char>| piece.len() > 0;
    lemma_split_on_unbroken(word, |c: char| is_space(c));
    Seq::<Seq<char>>::empty().lemma_filter_push(word, keep);
}

/// Whitespace parts the fields before it from the fields after it.
pub proof fn lemma_fields_of_spaced(before: Seq<char>, c: char, after: Seq<char>)
    requires
        is_space(c),
    ensures
        fields_of(before + seq![c] + after) == fields_of(before) + fields_of(after),
{
    let keep = |piece: Seq<char>| piece.len() > 0;
    lemma_split_on_separator(before, c, after, |c: char| is_space(c));
    Seq::filter_distributes_over_add(space_pieces(before), space_pieces(after), keep);
}

/// A text without a line feed is one line, unless it is empty: then it has
/// none.
pub proof fn lemma_lines_of_unbroken(text: Seq<char>)
    requires
        forall|i: int| 0 <= i < text.len() ==> text[i] != '\n',
    ensures
        lines_of(text) == (if text.len() == 0 {
            Seq::<Seq<char>>::empty()
        } else {
            seq![text]
        }),
{
    lemma_split_on_unbroken(text, |c: char| c == '\n');
}

/// What stands before the first line feed is the first line, and the lines
/// of what follows it are the others.
pub proof fn lemma_lines_of_first(first: Seq<char>, rest: Seq<char>)
    requires
        forall|i: int| 0 <= i < first.len() ==> first[i] != '\n',
    ensures
        lines_of(first + seq!['\n'] + rest) == seq![first] + lines_of(rest),
{
    let sep = |c: char| c == '\n';
    lemma_split_on_separator(first, '\n', rest, sep);
    lemma_split_on_unbroken(first, sep);
    lemma_split_on_has_piece(rest, sep);
}

/// Splits a line into its fields.
pub fn split_fields(line: &Vec<char>) -> (r: Vec<Vec<char>>)
    ensures
        r.deep_view() == fields_of(line@),
{
    let ghost keep = |piece: Seq<char>| piece.len() > 0;
    let mut fields: Vec<Vec<char>> = Vec::new();
    let mut current: Vec<char> = Vec::new();
    let mut i: usize = 0;
    while i < line.len()
        invariant
            i <= line.len(),
            keep == (|piece: Seq<char>| piece.len() > 0),
            space_pieces(line@.take(i as int)).len() >= 1,
            space_pieces(line@.take(i as int)).drop_last().filter(keep) == fields.deep_view(),
            space_pieces(line@.take(i as int)).last() == current@,
        decreases line.len() - i,
    {
        let c = line[i];
        let ghost pieces = space_pieces(line@.take(i as int));
        let ghost done = fields.deep_view();
        let ghost open_field = current@;
        proof {
            assert(line@.take(i + 1).drop_last() =~= line@.take(i as int));
        }
        if separates_fields(c) {
            proof {
                assert(pieces.push(Seq::<char>::empty()).drop_last() =~= pieces);
                assert(pieces =~= pieces.drop_last().push(pieces.last()));
                pieces.drop_last().lemma_filter_push(pieces.last(), keep);
            }
            if current.len() > 0 {
                fields.push(current);
                current = Vec::new();
                proof {
                    assert(fields.deep_view() =~~= done.push(open_field));
                }
            }
        } else {
            current.push(c);
            proof {
                assert(pieces.drop_last().push(pieces.last().push(c)).drop_last()
                    =~= pieces.drop_last());
            }
        }
        i += 1;
    }
    let ghost done = fields.deep_view();
    let ghost open_field = current@;
    proof {
        assert(line@.take(i as int) =~= line@);
        let pieces = space_pieces(line@);
        assert(pieces =~= pieces.drop_last().push(pieces.last()));
        pieces.drop_last().lemma_filter_push(pieces.last(), keep);
    }
    if current.len() > 0 {
        fields.push(current);
        proof {
            assert(fields.deep_view() =~~= done.push(open_field));
        }
    }
    fields
}

/// Splits a text into its lines.
pub fn split_lines(text: &Vec<char>) -> (r: Vec<Vec<char>>)
    ensures
        r.deep_view() == lines_of(text@),
{
    let mut lines: Vec<Vec<char>> = Vec::new();
    let mut current: Vec<char> = Vec::new();
    let mut i: usize = 0;
    while i < text.len()
        invariant
            i <= text.len(),
            newline_pieces(text@.take(i as int)) == lines.deep_view().push(current@),
        decreases text.len() - i,
    {
        let c = text[i];
        let ghost done = lines.deep_view();
        let ghost open_line = current@;
        proof {
            assert(text@.take(i + 1).drop_last() =~= text@.take(i as int));
        }
        if c == '\n' {
            lines.push(current);
            current = Vec::new();
            proof {
                assert(lines.deep_view() =~~= done.push(open_line));
            }
        } else {
            current.push(c);
        }
        i += 1;
    }
    proof {
        assert(text@.take(i as int) =~= text@);
    }
    let ghost done = lines.deep_view();
    let ghost open_line = current@;
    if current.len() > 0 {
        lines.push(current);
        proof {
            assert(lines.deep_view() =~~= done.push(open_line));
        }
    }
    lines
}

/// Whether two texts hold the same characters.
pub fn same_text(a: &Vec<char>, b: &Vec<char>) -> (r: bool)
    ensures
        r == (a@ == b@),
{
    if a.len() != b.len() {
        return false;
    }
    let mut i: usize = 0;
    while i < a.len()
        invariant
            i <= a.len(),
            a.len() == b.len(),
            a@.take(i as int) == b@.take(i as int),
        decreases a.len() - i,
    {
        if a[i] != b[i] {
            return false;
        }
        i += 1;
    }
    proof {
        assert(a@.take(i as int) =~= a@);
        assert(b@.take(i as int) =~= b@);
    }
    true
}

} // verus!
