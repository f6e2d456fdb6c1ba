//! The `using` section of a stage: resources that the stage asks for.
use vstd::prelude::*;
use crate::text::{pad_right, push_padded, push_spaces, spaces, MroDisplay};

verus! {

/// Columns between the enclosing block and the lines inside it.
pub const INDENT_TAB_WIDTH_FOR_MRO: usize = 4;

/// The character of a decimal digit.
pub open spec fn digit_char(d: nat) -> char {
    if d == 0 {
        '0'
    } else if d == 1 {
        '1'
    } else if d == 2 {
        '2'
    } else if d == 3 {
        '3'
    } else if d == 4 {
        '4'
    } else if d == 5 {
        '5'
    } else if d == 6 {
        '6'
    } else if d == 7 {
        '7'
    } else if d == 8 {
        '8'
    } else {
        '9'
    }
}

/// The decimal digits of `n`, with no leading zero.
pub open spec fn nat_digits(n: nat) -> Seq<char>
    decreases n,
{
    if n < 10 {
        seq![digit_char(n)]
    } else {
        nat_digits(n / 10).push(digit_char(n % 10))
    }
}

/// The decimal text of `i`, with a leading `-` when it is negative.
pub open spec fn int_text(i: int) -> Seq<char> {
    if i < 0 {
        seq!['-'] + nat_digits((-i) as nat)
    } else {
        nat_digits(i as nat)
    }
}

fn push_digit(out: &mut String, d: u32)
    requires
        d < 10,
    ensures
        final(out)@ == old(out)@.push(digit_char(d as nat)),
{
    let s = if d == 0 {
        proof {
            reveal_strlit("0");
        }
        "0"
    } else if d == 1 {
        proof {
            reveal_strlit("1");
        }
        "1"
    } else if d == 2 {
        proof {
            reveal_strlit("2");
        }
        "2"
    } else if d == 3 {
        proof {
            reveal_strlit("3");
        }
        "3"
    } else if d == 4 {
        proof {
            reveal_strlit("4");
        }
        "4"
    } else if d == 5 {
        proof {
            reveal_strlit("5");
        }
        "5"
    } else if d == 6 {
        proof {
            reveal_strlit("6");
        }
        "6"
    } else if d == 7 {
        proof {
            reveal_strlit("7");
        }
        "7"
    } else if d == 8 {
        proof {
            reveal_strlit("8");
        }
        "8"
    } else {
        proof {
            reveal_strlit("9");
        }
        "9"
    };
    assert(s@ =~= seq![digit_char(d as nat)]);
    out.append(s);
    assert(final(out)@ =~= old(out)@.push(digit_char(d as nat)));
}

fn push_nat(out: &mut String, n: u32)
    ensures
        final(out)@ == old(out)@ + nat_digits(n as nat),
    decreases n,
{
    if n >= 10 {
        push_nat(out, n / 10);
    }
    push_digit(out, n % 10);
    assert(final(out)@ =~= old(out)@ + nat_digits(n as nat));
}

/// The decimal text of `v`.
pub fn decimal_string(v: i16) -> (r: String)
    ensures
        r@ == int_text(v as int),
{
    let mut r = String::new();
    if v < 0 {
        proof {
            reveal_strlit("-");
        }
        r.append("-");
        push_nat(&mut r, (-(v as i32)) as u32);
        assert(r@ =~= int_text(v as int));
    } else {
        push_nat(&mut r, v as u32);
        assert(r@ =~= int_text(v as int));
    }
    r
}

/// Whether a stage's outputs may be deleted while the pipeline runs.
#[derive(Debug, Clone, Copy, PartialEq, Eq)]
pub enum Volatile {
    Strict,
}

impl Volatile {
    /// `strict` is the one value that parses; any other text gives an error
    /// that quotes it.
    pub fn parse(s: &str) -> (r: Result<Volatile, String>)
        ensures
            r is Ok <==> s@ == "strict"@,
            r matches Err(e) ==> e@ == "Expected strict for volatile, Found "@ + s@,
    {
        if s.to_owned() == String::from_str("strict") {
            Ok(Volatile::Strict)
        } else {
            let mut e = String::from_str("Expected strict for volatile, Found ");
            e.append(s);
            Err(e)
        }
    }
}

impl std::str::FromStr for Volatile {
    type Err = String;

    fn from_str(s: &str) -> Result<Self, Self::Err> {
        Volatile::parse(s)
    }
}

impl MroDisplay for Volatile {
    open spec fn mro_text(&self) -> Seq<char> {
        "strict"@
    }

    open spec fn mro_text_with_width(&self, w: nat) -> Seq<char> {
        pad_right("strict"@, w)
    }

    open spec fn mro_min_width(&self) -> nat {
        "strict"@.len()
    }

    fn min_width(&self) -> (r: usize) {
        "strict".unicode_len()
    }

    fn mro_string_no_width(&self) -> (r: String) {
        String::from_str("strict")
    }

    fn mro_string_with_width(&self, field_width: usize) -> (r: String) {
        let mut r = String::new();
        push_padded(&mut r, "strict", field_width);
        r
    }
}

/// Resources in the `using` section of a stage definition, for example
/// ```text
/// using (
///     mem_gb  = 4,
///     threads = 16,
/// )
/// ```
#[derive(Debug, Clone, Copy)]
pub struct MroUsing {
    pub mem_gb: Option<i16>,
    pub vmem_gb: Option<i16>,
    pub threads: Option<i16>,
    pub volatile: Option<Volatile>,
}

impl Default for MroUsing {
    fn default() -> (r: Self)
        ensures
            r.mem_gb is None,
            r.vmem_gb is None,
            r.threads is None,
            r.volatile is None,
    {
        MroUsing { mem_gb: None, vmem_gb: None, threads: None, volatile: None }
    }
}

/// Whether any resource is set, so that the section is written at all.
pub open spec fn needs_using(u: MroUsing) -> bool {
    u.mem_gb is Some || u.vmem_gb is Some || u.threads is Some || u.volatile is Some
}

/// The larger of two widths.
pub open spec fn max_nat(a: nat, b: nat) -> nat {
    if a >= b {
        a
    } else {
        b
    }
}

/// The width of `key` where its value is set, zero otherwise.
pub open spec fn key_len_if(present: bool, key: Seq<char>) -> nat {
    if present {
        key.len()
    } else {
        0
    }
}

/// The width of the key column: the longest key among those whose value
/// is set.
pub open spec fn using_key_width(u: MroUsing) -> nat {
    max_nat(
        max_nat(key_len_if(u.mem_gb is Some, "mem_gb"@), key_len_if(u.vmem_gb is Some, "vmem_gb"@)),
        max_nat(
            key_len_if(u.threads is Some, "threads"@),
            key_len_if(u.volatile is Some, "volatile"@),
        ),
    )
}

/// One line of the section: indentation, the key padded to the key column,
/// ` = `, the value and a comma.
pub open spec fn using_line(indent: nat, key: Seq<char>, w2: nat, value: Seq<char>) -> Seq<char> {
    spaces(indent) + pad_right(key, w2) + " = "@ + value + ",\n"@
}

/// The line of a resource whose value may be missing.
pub open spec fn opt_line(present: bool, indent: nat, key: Seq<char>, w2: nat, value: Seq<char>) -> Seq<
    char,
> {
    if present {
        using_line(indent, key, w2, value)
    } else {
        Seq::empty()
    }
}

/// The section against the outer indentation `w1`: empty where no resource
/// is set; otherwise the opening line, one line for each resource that is
/// set, in a fixed order, and the closing line.
pub open spec fn using_text(u: MroUsing, w1: nat) -> Seq<char> {
    if !needs_using(u) {
        Seq::empty()
    } else {
        let indent = (w1 + INDENT_TAB_WIDTH_FOR_MRO) as nat;
        let w2 = using_key_width(u);
        "using (\n"@ + opt_line(u.mem_gb is Some, indent, "mem_gb"@, w2, int_text(u.mem_gb->0 as int))
            + opt_line(u.vmem_gb is Some, indent, "vmem_gb"@, w2, int_text(u.vmem_gb->0 as int))
            + opt_line(u.threads is Some, indent, "threads"@, w2, int_text(u.threads->0 as int))
            + opt_line(u.volatile is Some, indent, "volatile"@, w2, "strict"@) + spaces(w1)
            + ")\n"@
    }
}

fn push_using_line(out: &mut String, w1: usize, key: &str, w2: usize, value: &str)
    ensures
        final(out)@ == old(out)@ + using_line((w1 + INDENT_TAB_WIDTH_FOR_MRO) as nat, key@, w2 as nat, value@),
{
    push_spaces(out, w1);
    push_spaces(out, INDENT_TAB_WIDTH_FOR_MRO);
    push_padded(out, key, w2);
    out.append(" = ");
    out.append(value);
    out.append(",\n");
    assert(spaces(w1 as nat) + spaces(INDENT_TAB_WIDTH_FOR_MRO as nat) =~= spaces(
        (w1 + INDENT_TAB_WIDTH_FOR_MRO) as nat,
    ));
    assert(final(out)@ =~= old(out)@ + using_line(
        (w1 + INDENT_TAB_WIDTH_FOR_MRO) as nat,
        key@,
        w2 as nat,
        value@,
    ));
}

fn key_len_if_exec(present: bool, key: &str) -> (r: usize)
    ensures
        r == key_len_if(present, key@),
{
    if present {
        key.unicode_len()
    } else {
        0
    }
}

fn max_usize(a: usize, b: usize) -> (r: usize)
    ensures
        r == max_nat(a as nat, b as nat),
{
    if a >= b {
        a
    } else {
        b
    }
}

impl MroUsing {
    /// Whether any resource is set.
    pub fn need_using(&self) -> (r: bool)
        ensures
            r == needs_using(*self),
    {
        !(self.mem_gb.is_none() && self.vmem_gb.is_none() && self.threads.is_none()
            && self.volatile.is_none())
    }

    /// The width of the key column.
    pub fn key_width(&self) -> (r: usize)
        ensures
            r == using_key_width(*self),
    {
        max_usize(
            max_usize(
                key_len_if_exec(self.mem_gb.is_some(), "mem_gb"),
                key_len_if_exec(self.vmem_gb.is_some(), "vmem_gb"),
            ),
            max_usize(
                key_len_if_exec(self.threads.is_some(), "threads"),
                key_len_if_exec(self.volatile.is_some(), "volatile"),
            ),
        )
    }
}

/// The section is rendered against its outer indentation `w1`; the key
/// column is sized inside it.
impl MroDisplay for MroUsing {
    open spec fn mro_text(&self) -> Seq<char> {
        using_text(*self, 0)
    }

    open spec fn mro_text_with_width(&self, w: nat) -> Seq<char> {
        using_text(*self, w)
    }

    open spec fn mro_min_width(&self) -> nat {
        0
    }

    fn min_width(&self) -> (r: usize) {
        0
    }

    fn mro_string_no_width(&self) -> (r: String) {
        self.mro_string_with_width(0)
    }

    fn mro_string_with_width(&self, w1: usize) -> (r: String) {
        let mut r = String::new();
        if !self.need_using() {
            assert(r@ =~= using_text(*self, w1 as nat));
            return r;
        }
        let w2 = self.key_width();
        r.append("using (\n");
        let ghost s0 = r@;
        if let Some(v) = self.mem_gb {
            push_using_line(&mut r, w1, "mem_gb", w2, decimal_string(v).as_str());
        }
        let ghost s1 = r@;
        if let Some(v) = self.vmem_gb {
            push_using_line(&mut r, w1, "vmem_gb", w2, decimal_string(v).as_str());
        }
        let ghost s2 = r@;
        if let Some(v) = self.threads {
            push_using_line(&mut r, w1, "threads", w2, decimal_string(v).as_str());
        }
        let ghost s3 = r@;
        if let Some(v) = self.volatile {
            push_using_line(&mut r, w1, "volatile", w2, "strict");
        }
        push_spaces(&mut r, w1);
        r.append(")\n");
        assert(r@ =~= using_text(*self, w1 as nat));
        r
    }
}

} // verus!
