//! Properties of the rendering that relate several of its parts.
use vstd::prelude::*;
use crate::header::mro_file_text;
use crate::stage::StageMro;
use crate::text::{pad_right, MroDisplay};
use crate::types::{primary_token, type_token, MartianPrimaryType, MartianType};
use crate::using::{Volatile, needs_using, using_key_width, using_text, MroUsing};

verus! {

/// Padding to a width no less than the text's length gives exactly that
/// many characters: the text, then blanks.
pub proof fn lemma_pad_right(s: Seq<char>, w: nat)
    requires
        w >= s.len(),
    ensures
        pad_right(s, w).len() == w,
        pad_right(s, w).subrange(0, s.len() as int) == s,
        forall|i: int| s.len() <= i < w ==> #[trigger] pad_right(s, w)[i] == ' ',
{
    assert(pad_right(s, w).subrange(0, s.len() as int) =~= s);
}

/// A primary type rendered against a width no less than its natural width
/// is its token padded with blanks to exactly that width.
pub proof fn lemma_primary_type_padding(p: MartianPrimaryType, w: nat)
    requires
        w >= p.mro_min_width(),
    ensures
        p.mro_min_width() == p.mro_text().len(),
        p.mro_text_with_width(w).len() == w,
        p.mro_text_with_width(w).subrange(0, p.mro_text().len() as int) == p.mro_text(),
        forall|i: int|
            p.mro_text().len() <= i < w ==> #[trigger] p.mro_text_with_width(w)[i] == ' ',
{
    lemma_pad_right(primary_token(p), w);
}

/// A type rendered against a width no less than its natural width is its
/// text padded with blanks to exactly that width.
pub proof fn lemma_type_padding(t: MartianType, w: nat)
    requires
        w >= t.mro_min_width(),
    ensures
        t.mro_min_width() == t.mro_text().len(),
        t.mro_text_with_width(w).len() == w,
        t.mro_text_with_width(w).subrange(0, t.mro_text().len() as int) == t.mro_text(),
        forall|i: int|
            t.mro_text().len() <= i < w ==> #[trigger] t.mro_text_with_width(w)[i] == ' ',
{
    lemma_pad_right(type_token(t), w);
}

/// `strict` rendered against a width no less than its natural width is
/// padded with blanks to exactly that width.
pub proof fn lemma_volatile_padding(v: Volatile, w: nat)
    requires
        w >= v.mro_min_width(),
    ensures
        v.mro_min_width() == v.mro_text().len(),
        v.mro_text_with_width(w).len() == w,
        v.mro_text_with_width(w).subrange(0, v.mro_text().len() as int) == v.mro_text(),
        forall|i: int|
            v.mro_text().len() <= i < w ==> #[trigger] v.mro_text_with_width(w)[i] == ' ',
{
    lemma_pad_right("strict"@, w);
}

/// An array type is its primary type followed by `[]`, and so two
/// characters wider.
pub proof fn lemma_array_type(p: MartianPrimaryType)
    ensures
        MartianType::Array(p).mro_text() == p.mro_text() + "[]"@,
        MartianType::Array(p).mro_min_width() == p.mro_min_width() + 2,
{
    reveal_strlit("[]");
}

/// A `using` section with no resource set is empty, whatever the
/// indentation.
pub proof fn lemma_using_empty(u: MroUsing, w1: nat)
    requires
        !needs_using(u),
    ensures
        using_text(u, w1) == Seq::<char>::empty(),
        u.mro_text() == Seq::<char>::empty(),
{
}

/// The key column of a `using` section is as wide as the widest key among
/// the resources that are set: no set key is wider, and where any is set,
/// one of them is exactly that wide.
pub proof fn lemma_using_key_width(u: MroUsing)
    ensures
        u.mem_gb is Some ==> "mem_gb"@.len() <= using_key_width(u),
        u.vmem_gb is Some ==> "vmem_gb"@.len() <= using_key_width(u),
        u.threads is Some ==> "threads"@.len() <= using_key_width(u),
        u.volatile is Some ==> "volatile"@.len() <= using_key_width(u),
        needs_using(u) ==> (u.mem_gb is Some && using_key_width(u) == "mem_gb"@.len()) || (
        u.vmem_gb is Some && using_key_width(u) == "vmem_gb"@.len()) || (u.threads is Some
            && using_key_width(u) == "threads"@.len()) || (u.volatile is Some && using_key_width(u)
            == "volatile"@.len()),
        !needs_using(u) ==> using_key_width(u) == 0,
{
}

/// The text of a batch of stages depends on the batch alone: rendering
/// the same batch twice gives the same text.
pub proof fn lemma_batch_text_deterministic(a: Seq<StageMro>, b: Seq<StageMro>)
    requires
        a == b,
    ensures
        mro_file_text(a) == mro_file_text(b),
{
}

} // verus!
