//! Padding helpers and the rendering interface shared by every entity of a
//! declaration.
use vstd::prelude::*;

verus! {

/// `n` blanks.
pub open spec fn spaces(n: nat) -> Seq<char> {
    Seq::new(n, |i: int| ' ')
}

/// `s` followed by blanks up to `w` characters; `s` itself when it is
/// already that long.
pub open spec fn pad_right(s: Seq<char>, w: nat) -> Seq<char> {
    if s.len() < w {
        s + spaces((w - s.len()) as nat)
    } else {
        s
    }
}

/// Appends `n` blanks to `out`.
pub fn push_spaces(out: &mut String, n: usize)
    ensures
        final(out)@ == old(out)@ + spaces(n as nat),
{
    let mut i: usize = 0;
    while i < n
        invariant
            i <= n,
            out@ == old(out)@ + spaces(i as nat),
        decreases n - i,
    {
        proof {
            reveal_strlit(" ");
        }
        out.append(" ");
        i = i + 1;
        assert(out@ =~= old(out)@ + spaces(i as nat));
    }
}

/// Appends `s` to `out`, padded with blanks to `w` characters.
pub fn push_padded(out: &mut String, s: &str, w: usize)
    ensures
        final(out)@ == old(out)@ + pad_right(s@, w as nat),
{
    let n = s.unicode_len();
    out.append(s);
    if n < w {
        push_spaces(out, w - n);
        assert(final(out)@ =~= old(out)@ + pad_right(s@, w as nat));
    }
}

/// Rendering of an entity of a declaration, in its natural form or against
/// a width given by the caller.
pub trait MroDisplay {
    /// The natural text of the entity.
    spec fn mro_text(&self) -> Seq<char>;

    /// The text of the entity rendered against width `w`.
    spec fn mro_text_with_width(&self, w: nat) -> Seq<char>;

    /// The least width that the entity can be rendered against.
    spec fn mro_min_width(&self) -> nat;

    fn min_width(&self) -> (r: usize)
        ensures
            r as nat == self.mro_min_width(),
    ;

    fn mro_string_no_width(&self) -> (r: String)
        ensures
            r@ == self.mro_text(),
    ;

    fn mro_string_with_width(&self, field_width: usize) -> (r: String)
        requires
            field_width >= self.mro_min_width(),
        ensures
            r@ == self.mro_text_with_width(field_width as nat),
    ;

    /// The natural text without a width, the text against the width
    /// otherwise; a width under the minimum is not accepted.
    fn mro_string(&self, field_width: Option<usize>) -> (r: String)
        requires
            field_width matches Some(w) ==> w >= self.mro_min_width(),
        ensures
            field_width matches Some(w) ==> r@ == self.mro_text_with_width(w as nat),
            field_width is None ==> r@ == self.mro_text(),
    {
        match field_width {
            Some(width) => self.mro_string_with_width(width),
            None => self.mro_string_no_width(),
        }
    }

    /// As `mro_string`, but a width under the minimum gives `None`.
    fn try_mro_string(&self, field_width: Option<usize>) -> (r: Option<String>)
        ensures
            field_width matches Some(w) ==> (r is None <==> w < self.mro_min_width()),
            field_width is Some && field_width->0 >= self.mro_min_width() ==> (r is Some
                && r->0@ == self.mro_text_with_width(field_width->0 as nat)),
            field_width is None ==> (r is Some && r->0@ == self.mro_text()),
    {
        match field_width {
            Some(width) => {
                if width < self.min_width() {
                    None
                } else {
                    Some(self.mro_string_with_width(width))
                }
            },
            None => Some(self.mro_string_no_width()),
        }
    }
}

} // verus!
