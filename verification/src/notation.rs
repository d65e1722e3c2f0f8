//! Moves as text, in coordinate notation.
//!
//! A move is written as its source square, its destination square and, for
//! a promotion, the letter of the new piece: `e2e4`, `e7e8q`. A square is a
//! file letter from `a` to `h` and a rank digit from `1` to `8`.

use vstd::prelude::*;
use std::str::FromStr;

verus! {

/// Whether the two characters of `text` from index `at` name a square.
pub open spec fn is_square(text: Seq<char>, at: int) -> bool {
    &&& 'a' <= text[at] <= 'h'
    &&& '1' <= text[at + 1] <= '8'
}

/// Whether `letter` names a piece that a pawn promotes to.
pub open spec fn is_promotion(letter: char) -> bool {
    letter == 'q' || letter == 'r' || letter == 'n' || letter == 'b'
}

/// The move that a text is read as, in its one canonical writing, or `None`
/// where the text is no move.
///
/// The text has to begin with two squares. A text of exactly five characters
/// that ends in a one-byte character has to end in a promotion letter, and is
/// then canonical as it stands. Any other text is read as its first four
/// characters: whatever follows them is ignored.
pub open spec fn canonical(text: Seq<char>) -> Option<Seq<char>> {
    if text.len() >= 4 && is_square(text, 0) && is_square(text, 2) {
        if text.len() == 5 && text[4] <= '\x7f' {
            if is_promotion(text[4]) {
                Some(text)
            } else {
                None
            }
        } else {
            Some(text.subrange(0, 4))
        }
    } else {
        None
    }
}

/// Whether a text is a move in its canonical writing.
pub open spec fn is_canonical(text: Seq<char>) -> bool {
    canonical(text) == Some(text)
}

/// `chess::ChessMove::from_str`, then the `Display` of the move read: the
/// canonical writing of a move. The source of `from_str` takes the first two
/// pairs of bytes as squares, reads a promotion letter only from a text of
/// five bytes, and otherwise ignores what follows the squares; `Display`
/// writes the two squares and the promotion letter.
#[verifier::external_body]
fn engine_normalize(text: &str) -> (normal: Option<String>)
    ensures
        match normal {
            Some(mv) => canonical(text@) == Some(mv@),
            None => canonical(text@) is None,
        },
{
    match chess::ChessMove::from_str(text) {
        Ok(chess_move) => Some(chess_move.to_string()),
        Err(_) => None,
    }
}

/// Reads a move: its canonical writing, or `None` where the text is no move.
pub fn normalize_move(text: &str) -> (normal: Option<String>)
    ensures
        match normal {
            Some(mv) => canonical(text@) == Some(mv@) && is_canonical(mv@),
            None => canonical(text@) is None,
        },
{
    let normal = engine_normalize(text);
    proof {
        lemma_canonical_is_canonical(text@);
    }
    normal
}

/// Reading a move twice is reading it once.
pub proof fn lemma_canonical_is_canonical(text: Seq<char>)
    ensures
        canonical(text) matches Some(mv) ==> is_canonical(mv),
{
    if let Some(mv) = canonical(text) {
        if text.len() == 5 && text[4] <= '\x7f' {
        } else {
            let head = text.subrange(0, 4);
            assert(head.len() == 4);
            assert(head.subrange(0, 4) =~= head);
        }
    }
}

/// The order of texts as in a dictionary: by the first character in which
/// two texts differ, a text coming before each of its extensions.
pub open spec fn lex_le(a: Seq<char>, b: Seq<char>) -> bool
    decreases a.len(),
{
    if a.len() == 0 {
        true
    } else if b.len() == 0 {
        false
    } else if a[0] != b[0] {
        a[0] < b[0]
    } else {
        lex_le(a.drop_first(), b.drop_first())
    }
}

/// Whether `a` comes before `b` in the dictionary, or is `b`.
pub fn notation_le(a: &str, b: &str) -> (le: bool)
    ensures
        le == lex_le(a@, b@),
{
    let n = a.unicode_len();
    let m = b.unicode_len();
    let mut i: usize = 0;
    assert(a@.skip(0) =~= a@ && b@.skip(0) =~= b@);
    while i < n && i < m
        invariant
            i <= n,
            i <= m,
            n == a@.len(),
            m == b@.len(),
            lex_le(a@, b@) == lex_le(a@.skip(i as int), b@.skip(i as int)),
        decreases n - i,
    {
        let ca = a.get_char(i);
        let cb = b.get_char(i);
        proof {
            let ra = a@.skip(i as int);
            let rb = b@.skip(i as int);
            assert(ra[0] == ca && rb[0] == cb);
            assert(ra.drop_first() =~= a@.skip(i as int + 1));
            assert(rb.drop_first() =~= b@.skip(i as int + 1));
        }
        if ca != cb {
            return ca < cb;
        }
        i = i + 1;
    }
    i == n
}

/// Every text is at most itself.
pub proof fn lemma_lex_le_reflexive(a: Seq<char>)
    ensures
        lex_le(a, a),
    decreases a.len(),
{
    if a.len() > 0 {
        lemma_lex_le_reflexive(a.drop_first());
    }
}

/// Of two texts one is at most the other.
pub proof fn lemma_lex_le_total(a: Seq<char>, b: Seq<char>)
    ensures
        lex_le(a, b) || lex_le(b, a),
    decreases a.len(),
{
    if a.len() > 0 && b.len() > 0 {
        if a[0] == b[0] {
            lemma_lex_le_total(a.drop_first(), b.drop_first());
        }
    }
}

/// Two texts that are each at most the other are the same text.
pub proof fn lemma_lex_le_antisymmetric(a: Seq<char>, b: Seq<char>)
    requires
        lex_le(a, b),
        lex_le(b, a),
    ensures
        a == b,
    decreases a.len(),
{
    if a.len() == 0 || b.len() == 0 {
        assert(a =~= b);
    } else {
        assert(a[0] == b[0]);
        lemma_lex_le_antisymmetric(a.drop_first(), b.drop_first());
        assert(a =~= seq![a[0]] + a.drop_first());
        assert(b =~= seq![b[0]] + b.drop_first());
    }
}

/// The order is transitive.
pub proof fn lemma_lex_le_transitive(a: Seq<char>, b: Seq<char>, c: Seq<char>)
    requires
        lex_le(a, b),
        lex_le(b, c),
    ensures
        lex_le(a, c),
    decreases a.len(),
{
    if a.len() > 0 {
        if a[0] == b[0] && b[0] == c[0] {
            lemma_lex_le_transitive(a.drop_first(), b.drop_first(), c.drop_first());
        }
    }
}

} // verus!
