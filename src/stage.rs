//! Stage declarations: the fields of a stage and of its chunks, rendered in
//! one block with a shared type column.
use vstd::prelude::*;
use crate::field::{field_text_with_width, MroField};
use crate::text::{pad_right, push_padded, push_spaces, spaces, MroDisplay};
use crate::types::{type_token, MartianPrimaryType, MartianType};
use crate::using::{max_nat, needs_using, using_text, MroUsing, INDENT_TAB_WIDTH_FOR_MRO};

verus! {

/// The widest type among `fs`.
pub open spec fn type_width(fs: Seq<MroField>) -> nat
    decreases fs.len(),
{
    if fs.len() == 0 {
        0
    } else {
        max_nat(type_width(fs.drop_last()), type_token(fs.last().field_type()).len())
    }
}

/// The width of the type column shared by the four groups of fields.
pub open spec fn shared_type_width(
    ins: Seq<MroField>,
    outs: Seq<MroField>,
    chunk_ins: Seq<MroField>,
    chunk_outs: Seq<MroField>,
) -> nat {
    max_nat(max_nat(type_width(ins), type_width(outs)), max_nat(type_width(chunk_ins), type_width(chunk_outs)))
}

/// The line of one field: indentation, the keyword in a column of three,
/// the type padded to the type column, the name and a comma.
pub open spec fn field_line(w: nat, keyword: Seq<char>, f: MroField, min_w: nat) -> Seq<char> {
    spaces((w + INDENT_TAB_WIDTH_FOR_MRO) as nat) + pad_right(keyword, 3) + " "@ + field_text_with_width(f, min_w)
        + ",\n"@
}

/// The lines of a group of fields, in order.
pub open spec fn field_lines(w: nat, keyword: Seq<char>, fs: Seq<MroField>, min_w: nat) -> Seq<char>
    decreases fs.len(),
{
    if fs.len() == 0 {
        Seq::empty()
    } else {
        field_lines(w, keyword, fs.drop_last(), min_w) + field_line(w, keyword, fs.last(), min_w)
    }
}

/// The inputs, then the outputs.
pub open spec fn in_out_lines(w: nat, ins: Seq<MroField>, outs: Seq<MroField>, min_w: nat) -> Seq<
    char,
> {
    field_lines(w, "in"@, ins, min_w) + field_lines(w, "out"@, outs, min_w)
}

/// The chunk section, where there is one.
pub open spec fn split_text(
    has_chunk: bool,
    w: nat,
    chunk_ins: Seq<MroField>,
    chunk_outs: Seq<MroField>,
    min_w: nat,
) -> Seq<char> {
    if has_chunk {
        " split (\n"@ + in_out_lines(w, chunk_ins, chunk_outs, min_w) + spaces(w) + ")"@
    } else {
        Seq::empty()
    }
}

/// What follows the last closing parenthesis: the `using` section where
/// a resource is set, a line end otherwise.
pub open spec fn using_tail(u: MroUsing, w: nat) -> Seq<char> {
    if needs_using(u) {
        " "@ + using_text(u, w)
    } else {
        "\n"@
    }
}

/// The fields of a group, or none.
pub open spec fn opt_fields(o: Option<Vec<MroField>>) -> Seq<MroField> {
    match o {
        Some(v) => v@,
        None => Seq::empty(),
    }
}

fn type_width_exec(fs: &Vec<MroField>) -> (r: usize)
    ensures
        r == type_width(fs@),
{
    let mut r: usize = 0;
    let mut i: usize = 0;
    while i < fs.len()
        invariant
            i <= fs@.len(),
            r == type_width(fs@.take(i as int)),
        decreases fs@.len() - i,
    {
        let w = fs[i].ty().min_width();
        assert(fs@.take(i + 1).drop_last() =~= fs@.take(i as int));
        if w > r {
            r = w;
        }
        i = i + 1;
    }
    assert(fs@.take(i as int) =~= fs@);
    r
}

fn opt_type_width(o: &Option<Vec<MroField>>) -> (r: usize)
    ensures
        r == type_width(opt_fields(*o)),
{
    match o {
        Some(v) => type_width_exec(v),
        None => 0,
    }
}

fn max_usize(a: usize, b: usize) -> (r: usize)
    ensures
        r == max_nat(a as nat, b as nat),
{
    if a >= b {
        a
    } else {
        b
    }
}

fn push_field_lines(out: &mut String, w: usize, keyword: &str, fs: &Vec<MroField>, min_w: usize)
    ensures
        final(out)@ == old(out)@ + field_lines(w as nat, keyword@, fs@, min_w as nat),
{
    let mut i: usize = 0;
    while i < fs.len()
        invariant
            i <= fs@.len(),
            out@ == old(out)@ + field_lines(w as nat, keyword@, fs@.take(i as int), min_w as nat),
        decreases fs@.len() - i,
    {
        let ghost before = out@;
        let f = &fs[i];
        push_spaces(out, w);
        push_spaces(out, INDENT_TAB_WIDTH_FOR_MRO);
        push_padded(out, keyword, 3);
        out.append(" ");
        push_padded(out, f.ty().token().as_str(), min_w);
        out.append(" ");
        out.append(f.name().as_str());
        out.append(",\n");
        proof {
            assert(spaces(w as nat) + spaces(INDENT_TAB_WIDTH_FOR_MRO as nat) =~= spaces(
                (w + INDENT_TAB_WIDTH_FOR_MRO) as nat,
            ));
            assert(out@ =~= before + field_line(w as nat, keyword@, fs@[i as int], min_w as nat));
            assert(fs@.take(i + 1).drop_last() =~= fs@.take(i as int));
        }
        i = i + 1;
    }
    assert(fs@.take(i as int) =~= fs@);
}

fn push_in_out(out: &mut String, w: usize, ins: &Vec<MroField>, outs: &Vec<MroField>, min_w: usize)
    ensures
        final(out)@ == old(out)@ + in_out_lines(w as nat, ins@, outs@, min_w as nat),
{
    push_field_lines(out, w, "in", ins, min_w);
    push_field_lines(out, w, "out", outs, min_w);
    assert(final(out)@ =~= old(out)@ + in_out_lines(w as nat, ins@, outs@, min_w as nat));
}

fn push_split(
    out: &mut String,
    has_chunk: bool,
    w: usize,
    chunk_ins: &Vec<MroField>,
    chunk_outs: &Vec<MroField>,
    min_w: usize,
)
    ensures
        final(out)@ == old(out)@ + split_text(has_chunk, w as nat, chunk_ins@, chunk_outs@, min_w as nat),
{
    if has_chunk {
        out.append(" split (\n");
        push_in_out(out, w, chunk_ins, chunk_outs, min_w);
        push_spaces(out, w);
        out.append(")");
        assert(final(out)@ =~= old(out)@ + split_text(
            has_chunk,
            w as nat,
            chunk_ins@,
            chunk_outs@,
            min_w as nat,
        ));
    } else {
        assert(final(out)@ =~= old(out)@ + split_text(
            has_chunk,
            w as nat,
            chunk_ins@,
            chunk_outs@,
            min_w as nat,
        ));
    }
}

fn push_using_tail(out: &mut String, u: &MroUsing, w: usize)
    ensures
        final(out)@ == old(out)@ + using_tail(*u, w as nat),
{
    if u.need_using() {
        out.append(" ");
        let s = u.mro_string_with_width(w);
        out.append(s.as_str());
        assert(final(out)@ =~= old(out)@ + using_tail(*u, w as nat));
    } else {
        out.append("\n");
    }
}

/// All the fields of a stage: its inputs and outputs, and those of its
/// chunks where it splits.
#[derive(Debug)]
pub struct StageVariables {
    pub stage_inputs: Vec<MroField>,
    pub stage_outputs: Vec<MroField>,
    pub chunk_inputs: Option<Vec<MroField>>,
    pub chunk_outputs: Option<Vec<MroField>>,
}

/// Whether the stage splits into chunks.
pub open spec fn has_chunks(v: StageVariables) -> bool {
    v.chunk_inputs is Some || v.chunk_outputs is Some
}

/// The type column of a stage's fields.
pub open spec fn variables_type_width(v: StageVariables) -> nat {
    shared_type_width(
        v.stage_inputs@,
        v.stage_outputs@,
        opt_fields(v.chunk_inputs),
        opt_fields(v.chunk_outputs),
    )
}

/// The fields of a stage against the indentation `w`: the stage's lines in
/// parentheses, then the chunk section, where the stage splits.
pub open spec fn variables_text(v: StageVariables, w: nat) -> Seq<char> {
    let min_w = variables_type_width(v);
    "(\n"@ + in_out_lines(w, v.stage_inputs@, v.stage_outputs@, min_w) + spaces(w) + ")"@
        + split_text(has_chunks(v), w, opt_fields(v.chunk_inputs), opt_fields(v.chunk_outputs), min_w)
        + "\n"@
}

impl StageVariables {
    /// The width of the type column, shared by all the groups.
    pub fn type_column_width(&self) -> (r: usize)
        ensures
            r == variables_type_width(*self),
    {
        max_usize(
            max_usize(type_width_exec(&self.stage_inputs), type_width_exec(&self.stage_outputs)),
            max_usize(opt_type_width(&self.chunk_inputs), opt_type_width(&self.chunk_outputs)),
        )
    }
}

/// The fields are rendered against their indentation.
impl MroDisplay for StageVariables {
    open spec fn mro_text(&self) -> Seq<char> {
        variables_text(*self, 0)
    }

    open spec fn mro_text_with_width(&self, w: nat) -> Seq<char> {
        variables_text(*self, w)
    }

    open spec fn mro_min_width(&self) -> nat {
        0
    }

    fn min_width(&self) -> (r: usize) {
        0
    }

    fn mro_string_no_width(&self) -> (r: String) {
        self.mro_string_with_width(0)
    }

    fn mro_string_with_width(&self, field_width: usize) -> (r: String) {
        let min_w = self.type_column_width();
        let empty: Vec<MroField> = Vec::new();
        let chunk_ins = match &self.chunk_inputs {
            Some(v) => v,
            None => &empty,
        };
        let chunk_outs = match &self.chunk_outputs {
            Some(v) => v,
            None => &empty,
        };
        assert(chunk_ins@ == opt_fields(self.chunk_inputs));
        assert(chunk_outs@ == opt_fields(self.chunk_outputs));
        let has_chunk = self.chunk_inputs.is_some() || self.chunk_outputs.is_some();
        let mut r = String::new();
        r.append("(\n");
        push_in_out(&mut r, field_width, &self.stage_inputs, &self.stage_outputs, min_w);
        push_spaces(&mut r, field_width);
        r.append(")");
        push_split(&mut r, has_chunk, field_width, chunk_ins, chunk_outs, min_w);
        r.append("\n");
        assert(r@ =~= variables_text(*self, field_width as nat));
        r
    }
}

/// Everything a stage definition is made of.
#[derive(Debug)]
pub struct StageMro {
    stage_name: String,
    adapter_name: String,
    stage_key: String,
    variables: StageVariables,
    using_attrs: MroUsing,
}

impl StageMro {
    /// The stage's name, as in `stage SORT_ITEMS(..)`.
    pub closed spec fn spec_stage_name(&self) -> Seq<char> {
        self.stage_name@
    }

    /// The adapter that runs the stage, as `my_adapter` in
    /// `src comp "my_adapter martian sort_items"`.
    pub closed spec fn spec_adapter_name(&self) -> Seq<char> {
        self.adapter_name@
    }

    /// The key the adapter knows the stage by, as `sort_items` above.
    pub closed spec fn spec_stage_key(&self) -> Seq<char> {
        self.stage_key@
    }

    /// The stage's fields.
    pub closed spec fn spec_variables(&self) -> StageVariables {
        self.variables
    }

    /// The stage's resources.
    pub closed spec fn spec_using(&self) -> MroUsing {
        self.using_attrs
    }

    pub fn new(
        stage_name: String,
        adapter_name: String,
        stage_key: String,
        variables: StageVariables,
        using_attrs: MroUsing,
    ) -> (r: Self)
        ensures
            r.spec_stage_name() == stage_name@,
            r.spec_adapter_name() == adapter_name@,
            r.spec_stage_key() == stage_key@,
            r.spec_variables() == variables,
            r.spec_using() == using_attrs,
    {
        StageMro { stage_name, adapter_name, stage_key, variables, using_attrs }
    }

    /// The stage's fields.
    pub fn variables(&self) -> (r: &StageVariables)
        ensures
            *r == self.spec_variables(),
    {
        &self.variables
    }
}

/// The stage definition against the indentation `w`: the stage line, the
/// lines of its inputs and outputs, the `src` line, the chunk section where
/// it splits, and the `using` section where a resource is set. All the
/// types share one column.
pub open spec fn stage_text(s: StageMro, w: nat) -> Seq<char> {
    let v = s.spec_variables();
    let min_w = variables_type_width(v);
    spaces(w) + "stage "@ + s.spec_stage_name() + "(\n"@ + in_out_lines(
        w,
        v.stage_inputs@,
        v.stage_outputs@,
        min_w,
    ) + spaces((w + INDENT_TAB_WIDTH_FOR_MRO) as nat) + "src comp \""@ + s.spec_adapter_name()
        + " martian "@ + s.spec_stage_key() + "\",\n"@ + spaces(w) + ")"@ + split_text(
        has_chunks(v),
        w,
        opt_fields(v.chunk_inputs),
        opt_fields(v.chunk_outputs),
        min_w,
    ) + using_tail(s.spec_using(), w)
}

/// A stage definition is rendered against its indentation.
impl MroDisplay for StageMro {
    open spec fn mro_text(&self) -> Seq<char> {
        stage_text(*self, 0)
    }

    open spec fn mro_text_with_width(&self, w: nat) -> Seq<char> {
        stage_text(*self, w)
    }

    open spec fn mro_min_width(&self) -> nat {
        0
    }

    fn min_width(&self) -> (r: usize) {
        0
    }

    fn mro_string_no_width(&self) -> (r: String) {
        self.mro_string_with_width(0)
    }

    fn mro_string_with_width(&self, field_width: usize) -> (r: String) {
        let v = &self.variables;
        let min_w = v.type_column_width();
        let empty: Vec<MroField> = Vec::new();
        let chunk_ins = match &v.chunk_inputs {
            Some(c) => c,
            None => &empty,
        };
        let chunk_outs = match &v.chunk_outputs {
            Some(c) => c,
            None => &empty,
        };
        assert(chunk_ins@ == opt_fields(v.chunk_inputs));
        assert(chunk_outs@ == opt_fields(v.chunk_outputs));
        let has_chunk = v.chunk_inputs.is_some() || v.chunk_outputs.is_some();
        let mut r = String::new();
        push_spaces(&mut r, field_width);
        r.append("stage ");
        r.append(self.stage_name.as_str());
        r.append("(\n");
        push_in_out(&mut r, field_width, &v.stage_inputs, &v.stage_outputs, min_w);
        let ghost before_src = r@;
        push_spaces(&mut r, field_width);
        push_spaces(&mut r, INDENT_TAB_WIDTH_FOR_MRO);
        r.append("src comp \"");
        r.append(self.adapter_name.as_str());
        r.append(" martian ");
        r.append(self.stage_key.as_str());
        r.append("\",\n");
        push_spaces(&mut r, field_width);
        r.append(")");
        push_split(&mut r, has_chunk, field_width, chunk_ins, chunk_outs, min_w);
        push_using_tail(&mut r, &self.using_attrs, field_width);
        assert(spaces(field_width as nat) + spaces(INDENT_TAB_WIDTH_FOR_MRO as nat) =~= spaces(
            (field_width + INDENT_TAB_WIDTH_FOR_MRO) as nat,
        ));
        assert(r@ =~= stage_text(*self, field_width as nat));
        r
    }
}

/// Whether two types are the same type.
pub open spec fn same_type(a: MartianType, b: MartianType) -> bool {
    match (a, b) {
        (MartianType::Primary(p), MartianType::Primary(q)) => same_primary_type(p, q),
        (MartianType::Array(p), MartianType::Array(q)) => same_primary_type(p, q),
        _ => false,
    }
}

/// Whether two primary types are the same type; file types are the same
/// where their extensions are.
pub open spec fn same_primary_type(p: MartianPrimaryType, q: MartianPrimaryType) -> bool {
    match (p, q) {
        (MartianPrimaryType::FileType(e), MartianPrimaryType::FileType(f)) => e@ == f@,
        (MartianPrimaryType::FileType(_), _) => false,
        (_, MartianPrimaryType::FileType(_)) => false,
        _ => p == q,
    }
}

/// Whether a field of `fs` carries the name of `f`.
pub open spec fn has_name(fs: Seq<MroField>, f: MroField) -> bool {
    exists|j: int| 0 <= j < fs.len() && #[trigger] fs[j].field_name() == f.field_name()
}

/// Whether a field of `fs` carries the name of `f` with another type.
pub open spec fn clashes(fs: Seq<MroField>, f: MroField) -> bool {
    exists|j: int|
        0 <= j < fs.len() && #[trigger] fs[j].field_name() == f.field_name() && !same_type(
            fs[j].field_type(),
            f.field_type(),
        )
}

/// The chunk outputs that a stage does not declare as outputs of its own.
pub open spec fn chunk_only_outputs(stage_outs: Seq<MroField>, chunk_outs: Seq<MroField>) -> Seq<
    MroField,
> {
    chunk_outs.filter(|f: MroField| !has_name(stage_outs, f))
}

fn primary_type_eq(p: &MartianPrimaryType, q: &MartianPrimaryType) -> (r: bool)
    ensures
        r == same_primary_type(*p, *q),
{
    match (p, q) {
        (MartianPrimaryType::Int, MartianPrimaryType::Int) => true,
        (MartianPrimaryType::Float, MartianPrimaryType::Float) => true,
        (MartianPrimaryType::Str, MartianPrimaryType::Str) => true,
        (MartianPrimaryType::Bool, MartianPrimaryType::Bool) => true,
        (MartianPrimaryType::Dict, MartianPrimaryType::Dict) => true,
        (MartianPrimaryType::Path, MartianPrimaryType::Path) => true,
        (MartianPrimaryType::FileType(e), MartianPrimaryType::FileType(f)) => *e == *f,
        _ => false,
    }
}

fn type_eq(a: &MartianType, b: &MartianType) -> (r: bool)
    ensures
        r == same_type(*a, *b),
{
    match (a, b) {
        (MartianType::Primary(p), MartianType::Primary(q)) => primary_type_eq(p, q),
        (MartianType::Array(p), MartianType::Array(q)) => primary_type_eq(p, q),
        _ => false,
    }
}

/// A chunk output that shares its name with an output of the stage but
/// not its type.
#[derive(Debug, Clone, PartialEq, Eq)]
pub struct ChunkOutputClash {
    pub name: String,
}

/// The chunk outputs to declare, given the stage's outputs: a chunk output
/// that the stage declares already, with the same type, is left out; one
/// that shares a stage output's name with another type is an error.
pub fn merge_chunk_outputs(stage_outputs: &Vec<MroField>, chunk_outputs: &Vec<MroField>) -> (r: Result<
    Vec<MroField>,
    ChunkOutputClash,
>)
    ensures
        r is Err <==> exists|i: int|
            0 <= i < chunk_outputs@.len() && #[trigger] clashes(stage_outputs@, chunk_outputs@[i]),
        r matches Err(e) ==> exists|i: int|
            0 <= i < chunk_outputs@.len() && #[trigger] clashes(stage_outputs@, chunk_outputs@[i])
                && chunk_outputs@[i].field_name() == e.name@,
        r matches Ok(v) ==> v@ == chunk_only_outputs(stage_outputs@, chunk_outputs@),
{
    let mut kept: Vec<MroField> = Vec::new();
    let mut i: usize = 0;
    while i < chunk_outputs.len()
        invariant
            i <= chunk_outputs@.len(),
            kept@ == chunk_only_outputs(stage_outputs@, chunk_outputs@.take(i as int)),
            forall|k: int| 0 <= k < i ==> !#[trigger] clashes(stage_outputs@, chunk_outputs@[k]),
        decreases chunk_outputs@.len() - i,
    {
        let f = &chunk_outputs[i];
        let mut found = false;
        let mut j: usize = 0;
        while j < stage_outputs.len()
            invariant
                i < chunk_outputs@.len(),
                f == chunk_outputs@[i as int],
                j <= stage_outputs@.len(),
                found <==> exists|m: int|
                    0 <= m < j && #[trigger] stage_outputs@[m].field_name() == f.field_name(),
                forall|m: int|
                    0 <= m < j && #[trigger] stage_outputs@[m].field_name() == f.field_name()
                        ==> same_type(stage_outputs@[m].field_type(), f.field_type()),
            decreases stage_outputs@.len() - j,
        {
            let g = &stage_outputs[j];
            if *g.name() == *f.name() {
                if !type_eq(g.ty(), f.ty()) {
                    let name = f.name().clone();
                    assert(clashes(stage_outputs@, chunk_outputs@[i as int]));
                    return Err(ChunkOutputClash { name });
                }
                found = true;
            }
            j = j + 1;
        }
        proof {
            assert(chunk_outputs@.take(i + 1).drop_last() =~= chunk_outputs@.take(i as int));
            reveal(Seq::filter);
            assert(found == has_name(stage_outputs@, *f));
            assert(!clashes(stage_outputs@, *f));
        }
        if !found {
            kept.push(f.clone());
        }
        i = i + 1;
    }
    assert(chunk_outputs@.take(i as int) =~= chunk_outputs@);
    Ok(kept)
}

/// A stage whose fields can be listed without a value of it.
pub trait MakeMro {
    fn stage_variables() -> StageVariables;
}

} // verus!
