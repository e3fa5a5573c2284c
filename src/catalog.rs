use vstd::prelude::*;

verus! {

/// The kind of value an entry point takes in one parameter position.
#[derive(Debug, Clone, Copy, PartialEq, Eq, Structural)]
pub enum ParamKind {
    /// Text, passed as a text descriptor (pointer and length).
    Text,
    /// Raw bytes, passed as a sequence descriptor (pointer, length, capacity).
    Bytes,
}

/// Every entry point of the foreign classifier that the host may invoke.
#[derive(Debug, Clone, Copy, PartialEq, Eq, Structural)]
pub enum EntryPoint {
    /// Languages for a filename and content, by several strategies in turn.
    Languages,
    /// Best guess from content heuristics and the filename.
    LanguageByContent,
    /// File extensions of a language.
    LanguageExtensions,
    /// The most probable language for a filename and content.
    Language,
    /// MIME type for a path and a language.
    MimeType,
    /// Guess from the extension alone.
    LanguageByExtension,
    /// Guess from the filename alone.
    LanguageByFilename,
    /// Guess from any editor modeline in the content.
    LanguageByModeline,
    /// Guess from the shebang line of the content.
    LanguageByShebang,
    /// Guess from a vim modeline in the content.
    LanguageByVimModeline,
    /// Guess from an emacs modeline in the content.
    LanguageByEmacsModeline,
    /// Whether the content is binary.
    IsBinary,
    /// Whether the path names a configuration file.
    IsConfiguration,
    /// Whether the path is a documentation path.
    IsDocumentation,
    /// Whether the path names a dot-file.
    IsDotFile,
    /// Whether the path names an image.
    IsImage,
    /// Whether the path is a vendor path.
    IsVendor,
    /// Whether the file at a path, with a content, is generated.
    IsGenerated,
    /// HTML colour of a language.
    Color,
}

impl EntryPoint {
    /// The parameters of the entry point, in order.
    pub open spec fn params(self) -> Seq<ParamKind> {
        match self {
            EntryPoint::Languages => seq![ParamKind::Text, ParamKind::Bytes],
            EntryPoint::LanguageByContent => seq![ParamKind::Text, ParamKind::Bytes],
            EntryPoint::LanguageExtensions => seq![ParamKind::Text],
            EntryPoint::Language => seq![ParamKind::Text, ParamKind::Bytes],
            EntryPoint::MimeType => seq![ParamKind::Text, ParamKind::Text],
            EntryPoint::LanguageByExtension => seq![ParamKind::Text],
            EntryPoint::LanguageByFilename => seq![ParamKind::Text],
            EntryPoint::LanguageByModeline => seq![ParamKind::Bytes],
            EntryPoint::LanguageByShebang => seq![ParamKind::Bytes],
            EntryPoint::LanguageByVimModeline => seq![ParamKind::Bytes],
            EntryPoint::LanguageByEmacsModeline => seq![ParamKind::Bytes],
            EntryPoint::IsBinary => seq![ParamKind::Bytes],
            EntryPoint::IsConfiguration => seq![ParamKind::Text],
            EntryPoint::IsDocumentation => seq![ParamKind::Text],
            EntryPoint::IsDotFile => seq![ParamKind::Text],
            EntryPoint::IsImage => seq![ParamKind::Text],
            EntryPoint::IsVendor => seq![ParamKind::Text],
            EntryPoint::IsGenerated => seq![ParamKind::Text, ParamKind::Bytes],
            EntryPoint::Color => seq![ParamKind::Text],
        }
    }

    /// Number of parameters of the entry point.
    pub fn param_count(&self) -> (n: usize)
        ensures
            n == self.params().len(),
    {
        match self {
            EntryPoint::Languages | EntryPoint::LanguageByContent | EntryPoint::Language
            | EntryPoint::MimeType | EntryPoint::IsGenerated => 2,
            _ => 1,
        }
    }

    /// Kind of the parameter at position `i`.
    pub fn param(&self, i: usize) -> (k: ParamKind)
        requires
            i < self.params().len(),
        ensures
            k == self.params()[i as int],
    {
        match self {
            EntryPoint::MimeType => ParamKind::Text,
            EntryPoint::LanguageByModeline | EntryPoint::LanguageByShebang
            | EntryPoint::LanguageByVimModeline | EntryPoint::LanguageByEmacsModeline
            | EntryPoint::IsBinary => ParamKind::Bytes,
            EntryPoint::Languages | EntryPoint::LanguageByContent | EntryPoint::Language
            | EntryPoint::IsGenerated => if i == 0 {
                ParamKind::Text
            } else {
                ParamKind::Bytes
            },
            _ => ParamKind::Text,
        }
    }
}

} // verus!
