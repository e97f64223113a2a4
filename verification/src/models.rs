use vstd::prelude::*;

use crate::errors::TranscribeError;

verus! {

/// The closed set of recognition models a request may name.
#[derive(Debug, Clone, Copy, PartialEq, Eq, Structural)]
pub enum Model {
    Base,
    Tiny,
    Small,
    Medium,
    Large,
}

/// The lower-case wire name of a model.
pub open spec fn spec_name(m: Model) -> Seq<char> {
    match m {
        Model::Base => "base"@,
        Model::Tiny => "tiny"@,
        Model::Small => "small"@,
        Model::Medium => "medium"@,
        Model::Large => "large"@,
    }
}

/// The weight file's name for a model.
pub open spec fn spec_file_name(m: Model) -> Seq<char> {
    match m {
        Model::Base => "ggml-base.bin"@,
        Model::Tiny => "ggml-tiny.bin"@,
        Model::Small => "ggml-small.bin"@,
        Model::Medium => "ggml-medium.bin"@,
        Model::Large => "ggml-large.bin"@,
    }
}

/// The filesystem path a model's weights are resolved to.
pub open spec fn spec_path(m: Model) -> Seq<char> {
    match m {
        Model::Base => "./models/ggml-base.bin"@,
        Model::Tiny => "./models/ggml-tiny.bin"@,
        Model::Small => "./models/ggml-small.bin"@,
        Model::Medium => "./models/ggml-medium.bin"@,
        Model::Large => "./models/ggml-large.bin"@,
    }
}

/// The code point of `c` after ASCII lowercasing: letters `A`..`Z` map to
/// `a`..`z`, every other character is unchanged.
pub open spec fn lower_u32(c: char) -> u32 {
    if 65 <= c as u32 && c as u32 <= 90 {
        (c as u32 + 32) as u32
    } else {
        c as u32
    }
}

/// Whether `s`, lowercased character by character, spells exactly `t`.
pub open spec fn matches_lower(s: Seq<char>, t: Seq<char>) -> bool {
    s.len() == t.len() && (forall|j: int| 0 <= j < s.len() ==> lower_u32(s[j]) == #[trigger] t[j] as u32)
}

/// The model a request string names, compared case-insensitively, or `None`
/// when it names no model.
pub open spec fn spec_parse_name(s: Seq<char>) -> Option<Model> {
    if matches_lower(s, "base"@) {
        Some(Model::Base)
    } else if matches_lower(s, "tiny"@) {
        Some(Model::Tiny)
    } else if matches_lower(s, "small"@) {
        Some(Model::Small)
    } else if matches_lower(s, "medium"@) {
        Some(Model::Medium)
    } else if matches_lower(s, "large"@) {
        Some(Model::Large)
    } else {
        None
    }
}

/// What `Model::resolve` decides from a parse outcome and a weight-file
/// existence check.
pub open spec fn spec_resolve(parsed: Option<Model>, file_exists: bool) -> Result<
    Model,
    TranscribeError,
> {
    match parsed {
        None => Err(TranscribeError::UnknownModel),
        Some(m) => if file_exists {
            Ok(m)
        } else {
            Err(TranscribeError::ModelUnavailable)
        },
    }
}

/// Compares `s` against `t` after ASCII-lowercasing `s`, character by
/// character.
fn eq_lower(s: &str, t: &str) -> (b: bool)
    ensures
        b == matches_lower(s@, t@),
{
    let n = s.unicode_len();
    let m = t.unicode_len();
    if n != m {
        return false;
    }
    let mut i: usize = 0;
    while i < n
        invariant
            i <= n,
            n == s@.len(),
            n == t@.len(),
            forall|j: int| 0 <= j < i ==> lower_u32(s@[j]) == #[trigger] t@[j] as u32,
        decreases n - i,
    {
        let c = s.get_char(i);
        let d = t.get_char(i);
        let cu = c as u32;
        let du = d as u32;
        let lu: u32 = if 65 <= cu && cu <= 90 {
            cu + 32
        } else {
            cu
        };
        if lu != du {
            return false;
        }
        i += 1;
    }
    true
}

impl Model {
    /// The lower-case wire name of this model.
    pub fn name(&self) -> (r: String)
        ensures
            r@ == spec_name(*self),
    {
        match *self {
            Model::Base => String::from_str("base"),
            Model::Tiny => String::from_str("tiny"),
            Model::Small => String::from_str("small"),
            Model::Medium => String::from_str("medium"),
            Model::Large => String::from_str("large"),
        }
    }

    /// The name of this model's weight file.
    pub fn file_name(&self) -> (r: String)
        ensures
            r@ == spec_file_name(*self),
    {
        match *self {
            Model::Base => String::from_str("ggml-base.bin"),
            Model::Tiny => String::from_str("ggml-tiny.bin"),
            Model::Small => String::from_str("ggml-small.bin"),
            Model::Medium => String::from_str("ggml-medium.bin"),
            Model::Large => String::from_str("ggml-large.bin"),
        }
    }

    /// The path this model's weights are resolved to.
    pub fn path(&self) -> (r: String)
        ensures
            r@ == spec_path(*self),
    {
        match *self {
            Model::Base => String::from_str("./models/ggml-base.bin"),
            Model::Tiny => String::from_str("./models/ggml-tiny.bin"),
            Model::Small => String::from_str("./models/ggml-small.bin"),
            Model::Medium => String::from_str("./models/ggml-medium.bin"),
            Model::Large => String::from_str("./models/ggml-large.bin"),
        }
    }

    /// Every model, in declaration order.
    pub fn list() -> (r: Vec<Model>)
        ensures
            r@ == seq![
                Model::Base,
                Model::Tiny,
                Model::Small,
                Model::Medium,
                Model::Large,
            ],
    {
        let mut v: Vec<Model> = Vec::new();
        v.push(Model::Base);
        v.push(Model::Tiny);
        v.push(Model::Small);
        v.push(Model::Medium);
        v.push(Model::Large);
        proof {
            assert(v@ =~= seq![
                Model::Base,
                Model::Tiny,
                Model::Small,
                Model::Medium,
                Model::Large,
            ]);
        }
        v
    }

    /// Parses a model name from an arbitrary request string, matching the
    /// accepted names case-insensitively; total over all strings.
    pub fn parse_name(s: &str) -> (r: Option<Model>)
        ensures
            r == spec_parse_name(s@),
    {
        if eq_lower(s, "base") {
            Some(Model::Base)
        } else if eq_lower(s, "tiny") {
            Some(Model::Tiny)
        } else if eq_lower(s, "small") {
            Some(Model::Small)
        } else if eq_lower(s, "medium") {
            Some(Model::Medium)
        } else if eq_lower(s, "large") {
            Some(Model::Large)
        } else {
            None
        }
    }

    /// Decides a request's model from the parse outcome and from whether
    /// the resolved weight file exists on disk: an unknown name and a
    /// missing weight file are each request-level input errors, reported
    /// before any engine work starts.
    pub fn resolve(parsed: Option<Model>, file_exists: bool) -> (r: Result<
        Model,
        TranscribeError,
    >)
        ensures
            r == spec_resolve(parsed, file_exists),
    {
        match parsed {
            None => Err(TranscribeError::UnknownModel),
            Some(m) => if file_exists {
                Ok(m)
            } else {
                Err(TranscribeError::ModelUnavailable)
            },
        }
    }
}

/// The weight-file naming scheme: a model's file is `ggml-<name>.bin` and it
/// is resolved under `./models`.
pub proof fn lemma_path_scheme(m: Model)
    ensures
        spec_file_name(m) == "ggml-"@ + spec_name(m) + ".bin"@,
        spec_path(m) == "./models/"@ + spec_file_name(m),
{
    reveal_strlit("base");
    reveal_strlit("tiny");
    reveal_strlit("small");
    reveal_strlit("medium");
    reveal_strlit("large");
    reveal_strlit("ggml-");
    reveal_strlit(".bin");
    reveal_strlit("./models/");
    reveal_strlit("ggml-base.bin");
    reveal_strlit("ggml-tiny.bin");
    reveal_strlit("ggml-small.bin");
    reveal_strlit("ggml-medium.bin");
    reveal_strlit("ggml-large.bin");
    reveal_strlit("./models/ggml-base.bin");
    reveal_strlit("./models/ggml-tiny.bin");
    reveal_strlit("./models/ggml-small.bin");
    reveal_strlit("./models/ggml-medium.bin");
    reveal_strlit("./models/ggml-large.bin");
    match m {
        Model::Base => {
            assert(spec_file_name(m) =~= "ggml-"@ + spec_name(m) + ".bin"@);
            assert(spec_path(m) =~= "./models/"@ + spec_file_name(m));
        },
        Model::Tiny => {
            assert(spec_file_name(m) =~= "ggml-"@ + spec_name(m) + ".bin"@);
            assert(spec_path(m) =~= "./models/"@ + spec_file_name(m));
        },
        Model::Small => {
            assert(spec_file_name(m) =~= "ggml-"@ + spec_name(m) + ".bin"@);
            assert(spec_path(m) =~= "./models/"@ + spec_file_name(m));
        },
        Model::Medium => {
            assert(spec_file_name(m) =~= "ggml-"@ + spec_name(m) + ".bin"@);
            assert(spec_path(m) =~= "./models/"@ + spec_file_name(m));
        },
        Model::Large => {
            assert(spec_file_name(m) =~= "ggml-"@ + spec_name(m) + ".bin"@);
            assert(spec_path(m) =~= "./models/"@ + spec_file_name(m));
        },
    }
}

} // verus!
