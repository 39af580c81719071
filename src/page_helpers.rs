//! Text layout for the pages: fitting a value into a fixed-width column.

use ellipse::Ellipse;
use vstd::prelude::*;
use vstd::string::StringExecFns;
use vstd::utf8::encode_utf8;

verus! {

/// `s` cut to `len` extended grapheme clusters, with "..." after it when
/// it was longer than that.
pub uninterp spec fn ellipsed(s: Seq<char>, len: nat) -> Seq<char>;

/// Relies on ellipse's `Ellipse::truncate_ellipse` for `&str`: the text cut
/// to `len` grapheme clusters with "..." added when it was cut. The result
/// depends on the text and `len` alone.
#[verifier::external_body]
fn truncate_ellipse(text: &str, len: usize) -> (r: String)
    ensures
        r@ == ellipsed(text@, len as nat),
{
    text.truncate_ellipse(len).into_owned()
}

/// `n` copies of `c`.
pub open spec fn repeated(c: char, n: nat) -> Seq<char> {
    Seq::new(n, |i: int| c)
}

/// `text` fitted to a column `width` bytes wide: as it is when it fills the
/// column exactly, padded with spaces when shorter, and when longer cut
/// with an ellipsis (or only dots, in a column of at most three).
pub open spec fn column_of(text: Seq<char>, width: nat) -> Seq<char> {
    let len = encode_utf8(text).len();
    if len == width {
        text
    } else if len < width {
        text + repeated(' ', (width - len) as nat)
    } else if width <= 3 {
        repeated('.', width)
    } else {
        ellipsed(text, (width - 3) as nat)
    }
}

/// `text` fitted to a column `width` bytes wide, as `column_of` says.
pub fn get_column_string(text: &str, width: usize) -> (r: String)
    ensures
        r@ == column_of(text@, width as nat),
{
    let len = text.as_bytes().len();
    if len == width {
        text.to_owned()
    } else if len < width {
        let left_over = width - len;
        let mut column_string = text.to_owned();
        let mut i: usize = 0;
        while i < left_over
            invariant
                i <= left_over,
                column_string@ == text@ + repeated(' ', i as nat),
            decreases left_over - i,
        {
            column_string.append(" ");
            proof {
                assert(" "@ =~= seq![' ']) by {
                    reveal_strlit(" ");
                }
                assert(text@ + repeated(' ', (i + 1) as nat) =~= text@ + repeated(' ', i as nat) + seq![' ']);
            }
            i = i + 1;
        }
        column_string
    } else if width == 0 {
        proof {
            reveal_strlit("");
            assert(repeated('.', 0) =~= ""@);
        }
        "".to_owned()
    } else if width == 1 {
        proof {
            reveal_strlit(".");
            assert(repeated('.', 1) =~= "."@);
        }
        ".".to_owned()
    } else if width == 2 {
        proof {
            reveal_strlit("..");
            assert(repeated('.', 2) =~= ".."@);
        }
        "..".to_owned()
    } else if width == 3 {
        proof {
            reveal_strlit("...");
            assert(repeated('.', 3) =~= "..."@);
        }
        "...".to_owned()
    } else {
        truncate_ellipse(text, width - 3)
    }
}

} // verus!
