//! Derivation of a filesystem-safe filename from an item's display title.
//!
//! Every character of the title that is not alphanumeric is replaced by a
//! single underscore, and the fixed media extension is appended. The
//! function is total: an empty title yields just the extension.

use vstd::prelude::*;
use vstd::string::StrSliceExecFns;
use vstd::string::StringExecFns;

verus! {

/// What `char::is_alphanumeric` returns for one character: a
/// locale-independent classification that depends on the character alone.
pub uninterp spec fn char_alnum(c: char) -> bool;

/// Relies on `char::is_alphanumeric`: the result is a function of the
/// character alone.
pub assume_specification[ char::is_alphanumeric ](c: char) -> (r: bool)
    ensures
        r == char_alnum(c),
;

/// Relies on `String::push`: appends exactly one character at the end.
pub assume_specification[ String::push ](s: &mut String, ch: char)
    ensures
        final(s)@ == old(s)@.push(ch),
;

/// The character a title character becomes in the filename: itself when
/// alphanumeric, the underscore placeholder otherwise.
pub open spec fn sanitize_char(c: char) -> char {
    if char_alnum(c) {
        c
    } else {
        '_'
    }
}

/// The filename derived from a title: the title sanitized character for
/// character, followed by the fixed media extension.
pub open spec fn spec_filename(title: Seq<char>) -> Seq<char> {
    title.map_values(|c: char| sanitize_char(c)) + ".mp3"@
}

/// Maps a display title to a filesystem-safe filename by replacing every
/// non-alphanumeric character with an underscore and appending the fixed
/// media extension.
pub fn filename_from_title(title: &str) -> (r: String)
    ensures
        r@ == spec_filename(title@),
{
    let n: usize = title.unicode_len();
    let mut out = String::new();
    let mut i: usize = 0;
    while i < n
        invariant
            i <= n,
            n == title@.len(),
            out@ =~= title@.take(i as int).map_values(|c: char| sanitize_char(c)),
        decreases n - i,
    {
        let c = title.get_char(i);
        if c.is_alphanumeric() {
            out.push(c);
        } else {
            out.push('_');
        }
        i = i + 1;
        proof {
            assert(out@ =~= title@.take(i as int).map_values(|c: char| sanitize_char(c)));
        }
    }
    proof {
        assert(title@.take(n as int) =~= title@);
    }
    let result = out.concat(".mp3");
    result
}

/// Law: for every title, the derived filename is exactly the title's length
/// plus the extension's; each character drawn from the title is either
/// alphanumeric or the underscore placeholder; and the filename ends in the
/// fixed extension. Together with `filename_from_title`'s postcondition,
/// which pins the result as a function of the title alone, this covers the
/// shape and the purity of the derivation.
pub proof fn lemma_filename_shape(title: Seq<char>)
    ensures
        spec_filename(title).len() == title.len() + 4,
        forall|i: int|
            0 <= i < title.len() ==> (char_alnum(#[trigger] spec_filename(title)[i])
                || spec_filename(title)[i] == '_'),
        spec_filename(title).subrange(title.len() as int, title.len() as int + 4) =~= ".mp3"@,
{
    reveal_strlit(".mp3");
    assert forall|i: int| 0 <= i < title.len() implies (char_alnum(
        #[trigger] spec_filename(title)[i],
    ) || spec_filename(title)[i] == '_') by {
        assert(spec_filename(title)[i] == sanitize_char(title[i]));
    }
}

} // verus!
