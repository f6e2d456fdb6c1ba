//! A file of stage definitions: the banner, the file types that the stages
//! use, and the stages themselves.
use vstd::prelude::*;
use crate::field::MroField;
use crate::stage::{opt_fields, stage_text, StageMro};
use crate::text::MroDisplay;
use crate::types::{MartianPrimaryType, MartianType};

verus! {

/// The banner at the head of every file of stage definitions.
pub const MRO_HEADER: &'static str = "\n#\n# Copyright (c) 10X Genomics, Inc. All rights reserved.\n#\n# WARNING: Changes to this file are overwritten.\n# DO NOT MODIFY THIS FILE DIRECTLY\n#\n\n";

/// The file type that a type names, if any.
pub open spec fn file_type_of(t: MartianType) -> Option<Seq<char>> {
    match t {
        MartianType::Primary(MartianPrimaryType::FileType(ext)) => Some(ext@),
        MartianType::Array(MartianPrimaryType::FileType(ext)) => Some(ext@),
        _ => None,
    }
}

/// `seen` with `ext` added at its end, unless it holds it already.
pub open spec fn add_ext(seen: Seq<Seq<char>>, ext: Seq<char>) -> Seq<Seq<char>> {
    if seen.contains(ext) {
        seen
    } else {
        seen.push(ext)
    }
}

/// `seen` with the file types of `fs` added, in order.
pub open spec fn add_field_exts(seen: Seq<Seq<char>>, fs: Seq<MroField>) -> Seq<Seq<char>>
    decreases fs.len(),
{
    if fs.len() == 0 {
        seen
    } else {
        let prev = add_field_exts(seen, fs.drop_last());
        match file_type_of(fs.last().field_type()) {
            Some(ext) => add_ext(prev, ext),
            None => prev,
        }
    }
}

/// `seen` with the file types of a stage added: those of its inputs,
/// outputs, chunk inputs and chunk outputs, in that order.
pub open spec fn add_stage_exts(seen: Seq<Seq<char>>, s: StageMro) -> Seq<Seq<char>> {
    let v = s.spec_variables();
    add_field_exts(
        add_field_exts(
            add_field_exts(add_field_exts(seen, v.stage_inputs@), v.stage_outputs@),
            opt_fields(v.chunk_inputs),
        ),
        opt_fields(v.chunk_outputs),
    )
}

/// The file types of a batch of stages, each once, in the order they are
/// first met.
pub open spec fn batch_exts(stages: Seq<StageMro>) -> Seq<Seq<char>>
    decreases stages.len(),
{
    if stages.len() == 0 {
        Seq::empty()
    } else {
        add_stage_exts(batch_exts(stages.drop_last()), stages.last())
    }
}

/// One `filetype` line for each file type, in order.
pub open spec fn filetype_lines(exts: Seq<Seq<char>>) -> Seq<char>
    decreases exts.len(),
{
    if exts.len() == 0 {
        Seq::empty()
    } else {
        filetype_lines(exts.drop_last()) + "filetype "@ + exts.last() + ";\n"@
    }
}

/// The file type section: its lines and a blank line, or nothing where no
/// stage uses a file type.
pub open spec fn filetype_header_text(exts: Seq<Seq<char>>) -> Seq<char> {
    if exts.len() == 0 {
        Seq::empty()
    } else {
        filetype_lines(exts) + "\n"@
    }
}

/// The definitions of a batch of stages, each followed by a blank line.
pub open spec fn stages_text(stages: Seq<StageMro>) -> Seq<char>
    decreases stages.len(),
{
    if stages.len() == 0 {
        Seq::empty()
    } else {
        stages_text(stages.drop_last()) + stage_text(stages.last(), 0) + "\n"@
    }
}

/// The whole file: banner, file types, stages.
pub open spec fn mro_file_text(stages: Seq<StageMro>) -> Seq<char> {
    MRO_HEADER@ + filetype_header_text(batch_exts(stages)) + stages_text(stages)
}

/// The file types met in a batch of stages.
pub struct FiletypeHeader {
    extensions: Vec<String>,
}

impl FiletypeHeader {
    /// The file types met so far, in order.
    pub closed spec fn exts(&self) -> Seq<Seq<char>> {
        self.extensions@.map_values(|e: String| e@)
    }

    /// A header with no file type.
    pub fn new() -> (r: Self)
        ensures
            r.exts() == Seq::<Seq<char>>::empty(),
    {
        let r = FiletypeHeader { extensions: Vec::new() };
        assert(r.exts() =~= Seq::<Seq<char>>::empty());
        r
    }

    fn contains(&self, ext: &String) -> (r: bool)
        ensures
            r == self.exts().contains(ext@),
    {
        let mut i: usize = 0;
        while i < self.extensions.len()
            invariant
                i <= self.extensions@.len(),
                forall|j: int| 0 <= j < i ==> self.exts()[j] != ext@,
            decreases self.extensions@.len() - i,
        {
            if self.extensions[i] == *ext {
                assert(self.exts()[i as int] == ext@);
                return true;
            }
            i = i + 1;
        }
        false
    }

    /// Adds `ext` unless it is there already.
    pub fn add_ext(&mut self, ext: &String)
        ensures
            final(self).exts() == add_ext(old(self).exts(), ext@),
    {
        if !self.contains(ext) {
            self.extensions.push(ext.clone());
            assert(self.exts() =~= old(self).exts().push(ext@));
        }
    }

    fn add_fields(&mut self, fs: &Vec<MroField>)
        ensures
            final(self).exts() == add_field_exts(old(self).exts(), fs@),
    {
        let mut i: usize = 0;
        while i < fs.len()
            invariant
                i <= fs@.len(),
                self.exts() == add_field_exts(old(self).exts(), fs@.take(i as int)),
            decreases fs@.len() - i,
        {
            assert(fs@.take(i + 1).drop_last() =~= fs@.take(i as int));
            match fs[i].ty() {
                MartianType::Primary(MartianPrimaryType::FileType(ext)) => self.add_ext(ext),
                MartianType::Array(MartianPrimaryType::FileType(ext)) => self.add_ext(ext),
                _ => {},
            }
            i = i + 1;
        }
        assert(fs@.take(i as int) =~= fs@);
    }

    fn add_opt_fields(&mut self, fs: &Option<Vec<MroField>>)
        ensures
            final(self).exts() == add_field_exts(old(self).exts(), opt_fields(*fs)),
    {
        match fs {
            Some(v) => self.add_fields(v),
            None => {},
        }
    }

    /// Adds the file types of a stage.
    pub fn add_stage(&mut self, stage: &StageMro)
        ensures
            final(self).exts() == add_stage_exts(old(self).exts(), *stage),
    {
        let v = stage.variables();
        self.add_fields(&v.stage_inputs);
        self.add_fields(&v.stage_outputs);
        self.add_opt_fields(&v.chunk_inputs);
        self.add_opt_fields(&v.chunk_outputs);
    }

    /// The file type section.
    pub fn header_string(&self) -> (r: String)
        ensures
            r@ == filetype_header_text(self.exts()),
    {
        let mut r = String::new();
        let mut i: usize = 0;
        while i < self.extensions.len()
            invariant
                i <= self.extensions@.len(),
                r@ == filetype_lines(self.exts().take(i as int)),
            decreases self.extensions@.len() - i,
        {
            let ghost before = r@;
            r.append("filetype ");
            r.append(self.extensions[i].as_str());
            r.append(";\n");
            assert(self.exts().take(i + 1).drop_last() =~= self.exts().take(i as int));
            assert(r@ =~= before + "filetype "@ + self.exts()[i as int] + ";\n"@);
            i = i + 1;
        }
        assert(self.exts().take(i as int) =~= self.exts());
        if i > 0 {
            r.append("\n");
        }
        r
    }
}

/// The whole file of definitions for a batch of stages.
pub fn make_mro_string(mro_registry: &Vec<StageMro>) -> (r: String)
    ensures
        r@ == mro_file_text(mro_registry@),
{
    let mut header = FiletypeHeader::new();
    let mut body = String::new();
    let mut i: usize = 0;
    while i < mro_registry.len()
        invariant
            i <= mro_registry@.len(),
            header.exts() == batch_exts(mro_registry@.take(i as int)),
            body@ == stages_text(mro_registry@.take(i as int)),
        decreases mro_registry@.len() - i,
    {
        let ghost before = body@;
        let stage = &mro_registry[i];
        header.add_stage(stage);
        let s = stage.mro_string_no_width();
        body.append(s.as_str());
        body.append("\n");
        assert(mro_registry@.take(i + 1).drop_last() =~= mro_registry@.take(i as int));
        assert(body@ =~= before + stage_text(mro_registry@[i as int], 0) + "\n"@);
        i = i + 1;
    }
    assert(mro_registry@.take(i as int) =~= mro_registry@);
    let mut r = String::from_str(MRO_HEADER);
    let h = header.header_string();
    r.append(h.as_str());
    r.append(body.as_str());
    assert(r@ =~= mro_file_text(mro_registry@));
    r
}

/// Why a file of definitions may not be written to a path.
#[derive(Debug, Clone, Copy, PartialEq, Eq)]
pub enum DestinationError {
    /// The path names a directory.
    IsDirectory,
    /// The path names an existing file, and rewriting was not asked for.
    ExistsWithoutRewrite,
}

/// Whether a file of definitions may be written to a path, from what the
/// file system says of it: never to a directory, and to an existing file
/// only where `rewrite` asks for it.
pub fn check_destination(is_dir: bool, path_exists: bool, rewrite: bool) -> (r: Result<(), DestinationError>)
    ensures
        is_dir ==> r == Err::<(), DestinationError>(DestinationError::IsDirectory),
        !is_dir && path_exists && !rewrite ==> r == Err::<(), DestinationError>(
            DestinationError::ExistsWithoutRewrite,
        ),
        !is_dir && (!path_exists || rewrite) ==> r is Ok,
{
    if is_dir {
        Err(DestinationError::IsDirectory)
    } else if path_exists && !rewrite {
        Err(DestinationError::ExistsWithoutRewrite)
    } else {
        Ok(())
    }
}

} // verus!
