//! The files of the ReazonSpeech model.
use crate::text::{contains, ends_with, has_part, has_suffix, same};
use vstd::prelude::*;

verus! {

/// The directory of the model.
pub const REAZON_DIR: &'static str = "reazonspeech-ja";

/// A file of the model.
#[derive(Clone, Copy)]
pub enum ModelFile {
    Encoder,
    Decoder,
    Joiner,
    Tokens,
}

/// The name under which a file of the model is kept.
pub open spec fn kept_name(file: ModelFile) -> Seq<char> {
    match file {
        ModelFile::Encoder => "encoder.onnx"@,
        ModelFile::Decoder => "decoder.onnx"@,
        ModelFile::Joiner => "joiner.onnx"@,
        ModelFile::Tokens => "tokens.txt"@,
    }
}

impl ModelFile {
    /// The name under which the file is kept.
    pub fn file_name(self) -> (r: &'static str)
        ensures
            r@ == kept_name(self),
    {
        match self {
            ModelFile::Encoder => "encoder.onnx",
            ModelFile::Decoder => "decoder.onnx",
            ModelFile::Joiner => "joiner.onnx",
            ModelFile::Tokens => "tokens.txt",
        }
    }
}

/// The model counts as present if its tokens, encoder and joiner are. The
/// decoder is not asked for.
pub fn reazon_model_exists(tokens: bool, encoder: bool, joiner: bool) -> (r: bool)
    ensures
        r == (tokens && encoder && joiner),
{
    tokens && encoder && joiner
}

/// Which files of the model are on disk.
pub struct ModelFiles {
    pub encoder: bool,
    pub decoder: bool,
    pub joiner: bool,
    pub tokens: bool,
}

impl ModelFiles {
    /// The file is there.
    pub open spec fn has(self, file: ModelFile) -> bool {
        match file {
            ModelFile::Encoder => self.encoder,
            ModelFile::Decoder => self.decoder,
            ModelFile::Joiner => self.joiner,
            ModelFile::Tokens => self.tokens,
        }
    }

    /// Every file of the model is there.
    pub open spec fn complete(self) -> bool {
        forall|file: ModelFile| self.has(file)
    }
}

/// Tells whether every file of the model is there. This is asked of what was
/// unpacked from an archive.
pub fn reazon_model_complete(files: &ModelFiles) -> (r: bool)
    ensures
        r == files.complete(),
{
    let r: bool = files.encoder && files.decoder && files.joiner && files.tokens;
    proof {
        assert(files.has(ModelFile::Encoder) == files.encoder);
        assert(files.has(ModelFile::Decoder) == files.decoder);
        assert(files.has(ModelFile::Joiner) == files.joiner);
        assert(files.has(ModelFile::Tokens) == files.tokens);
    }
    r
}

/// The file of the model that an archive entry of this name holds: the encoder
/// and the joiner in 8-bit weights, the decoder in full ones, and the tokens.
pub open spec fn file_for(name: Seq<char>) -> Option<ModelFile> {
    if has_part(name, "encoder"@) && has_suffix(name, ".int8.onnx"@) {
        Some(ModelFile::Encoder)
    } else if has_part(name, "joiner"@) && has_suffix(name, ".int8.onnx"@) {
        Some(ModelFile::Joiner)
    } else if has_part(name, "decoder"@) && has_suffix(name, ".onnx"@) && !has_suffix(
        name,
        ".int8.onnx"@,
    ) {
        Some(ModelFile::Decoder)
    } else if name == "tokens.txt"@ {
        Some(ModelFile::Tokens)
    } else {
        None
    }
}

/// The name of an archive entry: empty where it has none that can be read.
pub open spec fn entry_name(file_name: Option<&str>) -> Seq<char> {
    match file_name {
        Some(name) => name@,
        None => ""@,
    }
}

/// Picks the file of the model that an archive entry holds, if it holds one.
/// Every other entry is passed over.
pub fn archive_file(file_name: Option<&str>) -> (r: Option<ModelFile>)
    ensures
        r == file_for(entry_name(file_name)),
{
    let name: &str = match file_name {
        Some(name) => name,
        None => "",
    };
    if contains(name, "encoder") && ends_with(name, ".int8.onnx") {
        Some(ModelFile::Encoder)
    } else if contains(name, "joiner") && ends_with(name, ".int8.onnx") {
        Some(ModelFile::Joiner)
    } else if contains(name, "decoder") && ends_with(name, ".onnx") && !ends_with(
        name,
        ".int8.onnx",
    ) {
        Some(ModelFile::Decoder)
    } else if same(name, "tokens.txt") {
        Some(ModelFile::Tokens)
    } else {
        None
    }
}

/// Only names that end in `.onnx`, and the tokens, are ever unpacked.
pub proof fn law_only_model_files_are_unpacked(name: Seq<char>)
    ensures
        file_for(name) is Some ==> has_suffix(name, ".onnx"@) || name == "tokens.txt"@,
        file_for(name) matches Some(file) ==> match file {
            ModelFile::Encoder | ModelFile::Joiner => has_suffix(name, ".int8.onnx"@),
            ModelFile::Decoder => !has_suffix(name, ".int8.onnx"@),
            ModelFile::Tokens => name == "tokens.txt"@,
        },
{
    reveal_strlit(".int8.onnx");
    reveal_strlit(".onnx");
    if has_suffix(name, ".int8.onnx"@) {
        let long = name.subrange(name.len() - 10, name.len() as int);
        assert(name.subrange(name.len() - 5, name.len() as int) =~= long.subrange(5, 10));
        assert(".int8.onnx"@.subrange(5, 10) =~= ".onnx"@);
    }
}

/// The files of the model are kept under different names: none is written
/// over another.
pub proof fn law_kept_names_differ(a: ModelFile, b: ModelFile)
    ensures
        kept_name(a) == kept_name(b) ==> a == b,
{
    reveal_strlit("encoder.onnx");
    reveal_strlit("decoder.onnx");
    reveal_strlit("joiner.onnx");
    reveal_strlit("tokens.txt");
    assert("encoder.onnx"@[0] == 'e' && "decoder.onnx"@[0] == 'd');
    assert("joiner.onnx"@[0] == 'j' && "tokens.txt"@[0] == 't');
}

proof fn lemma_has_part(s: Seq<char>, a: Seq<char>, part: Seq<char>, b: Seq<char>)
    requires
        s == a + part + b,
    ensures
        has_part(s, part),
{
    let i = a.len() as int;
    assert(s.subrange(i, i + part.len()) =~= part);
}

proof fn lemma_has_suffix(s: Seq<char>, a: Seq<char>, part: Seq<char>)
    requires
        s == a + part,
    ensures
        has_suffix(s, part),
{
    assert(s.subrange(s.len() - part.len(), s.len() as int) =~= part);
}

proof fn lemma_part_stands(s: Seq<char>, part: Seq<char>)
    ensures
        has_part(s, part) ==> exists|a: Seq<char>, b: Seq<char>| s == #[trigger] (a + part + b),
        has_suffix(s, part) ==> exists|a: Seq<char>| s == #[trigger] (a + part),
{
    if has_part(s, part) {
        let i = choose|i: int|
            0 <= i <= s.len() - part.len() && #[trigger] s.subrange(i, i + part.len()) == part;
        let a = s.take(i);
        let b = s.skip(i + part.len());
        assert(a + s.subrange(i, i + part.len()) + b =~= s);
        assert(s == a + part + b);
    }
    if has_suffix(s, part) {
        let a = s.take(s.len() - part.len());
        assert(a + s.subrange(s.len() - part.len(), s.len() as int) =~= s);
        assert(s == a + part);
    }
}

/// No entry of an archive that holds a file of the model is passed over,
/// whatever else its name says: `a` and `b` stand for what is around the word,
/// and `c` for what is before the ending.
pub proof fn law_model_files_are_unpacked(
    name: &str,
    a: Seq<char>,
    b: Seq<char>,
    c: Seq<char>,
    r: Option<ModelFile>,
)
    requires
        call_ensures(archive_file, (Some(name),), r),
    ensures
        name@ == a + "encoder"@ + b && name@ == c + ".int8.onnx"@ ==> r == Some(ModelFile::Encoder),
        name@ == a + "joiner"@ + b && name@ == c + ".int8.onnx"@ && (forall|
            x: Seq<char>,
            y: Seq<char>,
        | name@ != #[trigger] (x + "encoder"@ + y)) ==> r == Some(ModelFile::Joiner),
        name@ == a + "decoder"@ + b && name@ == c + ".onnx"@ && (forall|x: Seq<char>|
            name@ != #[trigger] (x + ".int8.onnx"@)) ==> r == Some(ModelFile::Decoder),
        name@ == "tokens.txt"@ ==> r == Some(ModelFile::Tokens),
{
    lemma_part_stands(name@, "encoder"@);
    lemma_part_stands(name@, ".int8.onnx"@);
    if name@ == a + "encoder"@ + b {
        lemma_has_part(name@, a, "encoder"@, b);
    }
    if name@ == a + "joiner"@ + b {
        lemma_has_part(name@, a, "joiner"@, b);
    }
    if name@ == a + "decoder"@ + b {
        lemma_has_part(name@, a, "decoder"@, b);
    }
    if name@ == c + ".int8.onnx"@ {
        lemma_has_suffix(name@, c, ".int8.onnx"@);
    }
    if name@ == c + ".onnx"@ {
        lemma_has_suffix(name@, c, ".onnx"@);
    }
    if name@ == "tokens.txt"@ {
        reveal_strlit("tokens.txt");
        reveal_strlit(".int8.onnx");
        reveal_strlit(".onnx");
        assert("tokens.txt"@.last() == 't');
        if has_suffix(name@, ".int8.onnx"@) {
            assert(".int8.onnx"@.last() == 'x');
            assert(name@.subrange(name@.len() - 10, name@.len() as int).last() == name@.last());
        }
        if has_suffix(name@, ".onnx"@) {
            assert(".onnx"@.last() == 'x');
            assert(name@.subrange(name@.len() - 5, name@.len() as int).last() == name@.last());
        }
    }
}

/// What is unpacked has the name for it: each file of the model comes from an
/// entry that is named after it and ends as it should, and from no other.
pub proof fn law_unpacked_files_have_their_names(file_name: Option<&str>, r: Option<ModelFile>)
    requires
        call_ensures(archive_file, (file_name,), r),
    ensures
        file_name is None ==> r is None,
        r == Some(ModelFile::Encoder) ==> (file_name matches Some(name) && exists|
            a: Seq<char>,
            b: Seq<char>,
        | name@ == #[trigger] (a + "encoder"@ + b)),
        r == Some(ModelFile::Joiner) ==> (file_name matches Some(name) && exists|
            a: Seq<char>,
            b: Seq<char>,
        | name@ == #[trigger] (a + "joiner"@ + b)),
        r == Some(ModelFile::Decoder) ==> (file_name matches Some(name) && exists|
            a: Seq<char>,
            b: Seq<char>,
        | name@ == #[trigger] (a + "decoder"@ + b)),
        r == Some(ModelFile::Encoder) || r == Some(ModelFile::Joiner) ==> (file_name matches Some(
            name,
        ) && exists|c: Seq<char>| name@ == #[trigger] (c + ".int8.onnx"@)),
        r == Some(ModelFile::Decoder) ==> (file_name matches Some(name) && (exists|c: Seq<char>|
            name@ == #[trigger] (c + ".onnx"@)) && (forall|c: Seq<char>|
            name@ != #[trigger] (c + ".int8.onnx"@))),
        r == Some(ModelFile::Tokens) ==> (file_name matches Some(name) && name@ == "tokens.txt"@),
{
    let s = entry_name(file_name);
    if file_name is None {
        reveal_strlit("");
        reveal_strlit("encoder");
        reveal_strlit("joiner");
        reveal_strlit("decoder");
        reveal_strlit("tokens.txt");
    }
    lemma_part_stands(s, "encoder"@);
    lemma_part_stands(s, "joiner"@);
    lemma_part_stands(s, "decoder"@);
    lemma_part_stands(s, ".int8.onnx"@);
    lemma_part_stands(s, ".onnx"@);
    if r == Some(ModelFile::Decoder) {
        assert forall|c: Seq<char>| s != #[trigger] (c + ".int8.onnx"@) by {
            if s == c + ".int8.onnx"@ {
                lemma_has_suffix(s, c, ".int8.onnx"@);
            }
        }
    }
}

/// Each file of the model is kept under its own name.
pub proof fn law_file_names(file: ModelFile, r: &'static str)
    requires
        call_ensures(ModelFile::file_name, (file,), r),
    ensures
        file is Encoder ==> r@ == "encoder.onnx"@,
        file is Decoder ==> r@ == "decoder.onnx"@,
        file is Joiner ==> r@ == "joiner.onnx"@,
        file is Tokens ==> r@ == "tokens.txt"@,
{
}

/// A model is complete exactly if none of its four files is missing, and a
/// complete one counts as present.
pub proof fn law_complete_model(files: ModelFiles, complete: bool, present: bool)
    requires
        call_ensures(reazon_model_complete, (&files,), complete),
        call_ensures(reazon_model_exists, (files.tokens, files.encoder, files.joiner), present),
    ensures
        complete <==> files.encoder && files.decoder && files.joiner && files.tokens,
        present <==> files.encoder && files.joiner && files.tokens,
        complete ==> present,
{
    assert(files.has(ModelFile::Encoder) == files.encoder);
    assert(files.has(ModelFile::Decoder) == files.decoder);
    assert(files.has(ModelFile::Joiner) == files.joiner);
    assert(files.has(ModelFile::Tokens) == files.tokens);
}

}
